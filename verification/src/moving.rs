//! The move families: MVK/MVKH (move constant) and MV/MVD/MVC (move
//! register), in their 32-bit and compact 16-bit forms.

use vstd::prelude::*;
use vstd::string::StringExecFns;
use crate::error::DecodeError;
use crate::instruction::{
    ConditionalOperation,
    InstructionData,
    InstructionInput,
    Unit,
    spec_unit_sided_string,
};
use crate::register::{
    ControlRegister,
    Register,
    RegisterFile,
    spec_register_add,
    spec_register_complement,
    spec_register_file_side,
    spec_register_file_string,
    spec_register_side,
    spec_register_string,
};
use crate::strings::{spec_hex, hex_string_u32};
use crate::parser::{
    FieldName,
    ParsingInstruction,
    ParsedValue,
    ParsedVariables,
    parse,
    spec_parse,
    spec_get_bool,
    spec_get_u8,
    spec_get_u32,
    spec_get_register,
    spec_get_control_register,
    spec_get_unit,
    spec_get_predicate,
    spec_value_u8,
    get_bool_field,
    get_u8_field,
    get_u32_field,
    get_register_field,
    get_control_register_field,
    get_unit_field,
    get_predicate_field,
};

verus! {

// ---------------------------------------------------------------------------
// Move constant (MVK / MVKH)
// ---------------------------------------------------------------------------

/// A decoded move-constant instruction.
#[derive(Clone, Copy, Debug)]
pub struct MoveConstantInstruction {
    pub instruction_data: InstructionData,
    /// MVKH (move into the high half word) rather than MVK.
    pub high: bool,
    pub constant: u32,
    pub destination: Register,
    pub unit: Unit,
}

/// The 32-bit S-unit MVK/MVKH format: a 16-bit constant and the h bit.
pub open spec fn spec_mc_s_format() -> Seq<ParsingInstruction> {
    seq![
        ParsingInstruction::Bit { name: FieldName::P },
        ParsingInstruction::Bit { name: FieldName::S },
        ParsingInstruction::Match { size: 4, value: 0b1010 },
        ParsingInstruction::Bit { name: FieldName::H },
        ParsingInstruction::Unsigned { size: 16, name: FieldName::Cst },
        ParsingInstruction::Register { size: 5, name: FieldName::Dst },
        ParsingInstruction::ConditionalOperation { name: FieldName::Cond },
    ]
}

fn mc_s_format() -> (r: Vec<ParsingInstruction>)
    ensures
        r@ == spec_mc_s_format(),
{
    let mut f: Vec<ParsingInstruction> = Vec::new();
    f.push(ParsingInstruction::Bit { name: FieldName::P });
    f.push(ParsingInstruction::Bit { name: FieldName::S });
    f.push(ParsingInstruction::Match { size: 4, value: 0b1010 });
    f.push(ParsingInstruction::Bit { name: FieldName::H });
    f.push(ParsingInstruction::Unsigned { size: 16, name: FieldName::Cst });
    f.push(ParsingInstruction::Register { size: 5, name: FieldName::Dst });
    f.push(ParsingInstruction::ConditionalOperation { name: FieldName::Cond });
    proof {
        assert(f@ =~= spec_mc_s_format());
    }
    f
}

/// The 32-bit L-unit MVK format: a 5-bit constant with fixed subfields.
pub open spec fn spec_mc_l_format() -> Seq<ParsingInstruction> {
    seq![
        ParsingInstruction::Bit { name: FieldName::P },
        ParsingInstruction::Bit { name: FieldName::S },
        ParsingInstruction::Match { size: 10, value: 0b0011010110 },
        ParsingInstruction::Bit { name: FieldName::X },
        ParsingInstruction::Match { size: 5, value: 0b00101 },
        ParsingInstruction::Unsigned { size: 5, name: FieldName::Cst },
        ParsingInstruction::Register { size: 5, name: FieldName::Dst },
        ParsingInstruction::ConditionalOperation { name: FieldName::Cond },
    ]
}

fn mc_l_format() -> (r: Vec<ParsingInstruction>)
    ensures
        r@ == spec_mc_l_format(),
{
    let mut f: Vec<ParsingInstruction> = Vec::new();
    f.push(ParsingInstruction::Bit { name: FieldName::P });
    f.push(ParsingInstruction::Bit { name: FieldName::S });
    f.push(ParsingInstruction::Match { size: 10, value: 0b0011010110 });
    f.push(ParsingInstruction::Bit { name: FieldName::X });
    f.push(ParsingInstruction::Match { size: 5, value: 0b00101 });
    f.push(ParsingInstruction::Unsigned { size: 5, name: FieldName::Cst });
    f.push(ParsingInstruction::Register { size: 5, name: FieldName::Dst });
    f.push(ParsingInstruction::ConditionalOperation { name: FieldName::Cond });
    proof {
        assert(f@ =~= spec_mc_l_format());
    }
    f
}

/// The 32-bit D-unit MVK format: a 5-bit constant.
pub open spec fn spec_mc_d_format() -> Seq<ParsingInstruction> {
    seq![
        ParsingInstruction::Bit { name: FieldName::P },
        ParsingInstruction::Bit { name: FieldName::S },
        ParsingInstruction::Match { size: 11, value: 0b00000010000 },
        ParsingInstruction::Unsigned { size: 5, name: FieldName::Cst },
        ParsingInstruction::Match { size: 5, value: 0 },
        ParsingInstruction::Register { size: 5, name: FieldName::Dst },
        ParsingInstruction::ConditionalOperation { name: FieldName::Cond },
    ]
}

fn mc_d_format() -> (r: Vec<ParsingInstruction>)
    ensures
        r@ == spec_mc_d_format(),
{
    let mut f: Vec<ParsingInstruction> = Vec::new();
    f.push(ParsingInstruction::Bit { name: FieldName::P });
    f.push(ParsingInstruction::Bit { name: FieldName::S });
    f.push(ParsingInstruction::Match { size: 11, value: 0b00000010000 });
    f.push(ParsingInstruction::Unsigned { size: 5, name: FieldName::Cst });
    f.push(ParsingInstruction::Match { size: 5, value: 0 });
    f.push(ParsingInstruction::Register { size: 5, name: FieldName::Dst });
    f.push(ParsingInstruction::ConditionalOperation { name: FieldName::Cond });
    proof {
        assert(f@ =~= spec_mc_d_format());
    }
    f
}

/// Whether a 32-bit move-constant parse extracted every field the record
/// needs (the h bit only on the S unit).
pub open spec fn spec_mc32_ok(m: Map<FieldName, ParsedValue>, unit: Unit) -> bool {
    &&& spec_get_bool(m, FieldName::P) is Ok
    &&& spec_get_u32(m, FieldName::Cst) is Ok
    &&& spec_get_register(m, FieldName::Dst) is Ok
    &&& spec_get_predicate(m, FieldName::Cond) is Ok
    &&& (unit == Unit::S ==> spec_get_bool(m, FieldName::H) is Ok)
}

/// The record a successful 32-bit move-constant parse denotes.
pub open spec fn spec_mc32_record(
    op: u32,
    m: Map<FieldName, ParsedValue>,
    unit: Unit,
) -> MoveConstantInstruction
    recommends
        spec_mc32_ok(m, unit),
{
    MoveConstantInstruction {
        instruction_data: InstructionData {
            opcode: op,
            compact: false,
            parallel: false,
            p_bit: spec_get_bool(m, FieldName::P)->Ok_0,
            conditional_operation: spec_get_predicate(m, FieldName::Cond)->Ok_0,
        },
        high: if unit == Unit::S {
            spec_get_bool(m, FieldName::H)->Ok_0
        } else {
            false
        },
        constant: spec_get_u32(m, FieldName::Cst)->Ok_0,
        destination: spec_get_register(m, FieldName::Dst)->Ok_0,
        unit,
    }
}

/// What decoding `op` as a 32-bit move constant yields: the S, L and D
/// formats are tried in that order.
pub open spec fn spec_move_constant_new(op: u32) -> Result<MoveConstantInstruction, DecodeError> {
    match spec_parse(op, spec_mc_s_format()) {
        Ok(m) => if spec_mc32_ok(m, Unit::S) {
            Ok(spec_mc32_record(op, m, Unit::S))
        } else {
            Err(DecodeError::Other)
        },
        Err(_) => match spec_parse(op, spec_mc_l_format()) {
            Ok(m) => if spec_mc32_ok(m, Unit::L) {
                Ok(spec_mc32_record(op, m, Unit::L))
            } else {
                Err(DecodeError::Other)
            },
            Err(_) => match spec_parse(op, spec_mc_d_format()) {
                Ok(m) => if spec_mc32_ok(m, Unit::D) {
                    Ok(spec_mc32_record(op, m, Unit::D))
                } else {
                    Err(DecodeError::Other)
                },
                Err(_) => Err(DecodeError::InvalidInput),
            },
        },
    }
}

/// The compact S-unit MVK format: the constant is split over four
/// subfields.
pub open spec fn spec_mc_compact_s_format() -> Seq<ParsingInstruction> {
    seq![
        ParsingInstruction::Bit { name: FieldName::S },
        ParsingInstruction::Match { size: 4, value: 0b1001 },
        ParsingInstruction::Unsigned { size: 2, name: FieldName::Cst65 },
        ParsingInstruction::Register { size: 3, name: FieldName::Dst },
        ParsingInstruction::Unsigned { size: 1, name: FieldName::Cst7 },
        ParsingInstruction::Unsigned { size: 2, name: FieldName::Cst43 },
        ParsingInstruction::Unsigned { size: 3, name: FieldName::Cst20 },
    ]
}

fn mc_compact_s_format() -> (r: Vec<ParsingInstruction>)
    ensures
        r@ == spec_mc_compact_s_format(),
{
    let mut f: Vec<ParsingInstruction> = Vec::new();
    f.push(ParsingInstruction::Bit { name: FieldName::S });
    f.push(ParsingInstruction::Match { size: 4, value: 0b1001 });
    f.push(ParsingInstruction::Unsigned { size: 2, name: FieldName::Cst65 });
    f.push(ParsingInstruction::Register { size: 3, name: FieldName::Dst });
    f.push(ParsingInstruction::Unsigned { size: 1, name: FieldName::Cst7 });
    f.push(ParsingInstruction::Unsigned { size: 2, name: FieldName::Cst43 });
    f.push(ParsingInstruction::Unsigned { size: 3, name: FieldName::Cst20 });
    proof {
        assert(f@ =~= spec_mc_compact_s_format());
    }
    f
}

/// The compact L-unit MVK format: the constant is split over two subfields.
pub open spec fn spec_mc_compact_l_format() -> Seq<ParsingInstruction> {
    seq![
        ParsingInstruction::Bit { name: FieldName::S },
        ParsingInstruction::Match { size: 6, value: 0b010011 },
        ParsingInstruction::Register { size: 3, name: FieldName::Dst },
        ParsingInstruction::Match { size: 1, value: 1 },
        ParsingInstruction::Unsigned { size: 2, name: FieldName::Cst43 },
        ParsingInstruction::Unsigned { size: 3, name: FieldName::Cst20 },
    ]
}

fn mc_compact_l_format() -> (r: Vec<ParsingInstruction>)
    ensures
        r@ == spec_mc_compact_l_format(),
{
    let mut f: Vec<ParsingInstruction> = Vec::new();
    f.push(ParsingInstruction::Bit { name: FieldName::S });
    f.push(ParsingInstruction::Match { size: 6, value: 0b010011 });
    f.push(ParsingInstruction::Register { size: 3, name: FieldName::Dst });
    f.push(ParsingInstruction::Match { size: 1, value: 1 });
    f.push(ParsingInstruction::Unsigned { size: 2, name: FieldName::Cst43 });
    f.push(ParsingInstruction::Unsigned { size: 3, name: FieldName::Cst20 });
    proof {
        assert(f@ =~= spec_mc_compact_l_format());
    }
    f
}

/// The first compact multi-unit MVK format, with a 2-bit condition code.
pub open spec fn spec_mc_compact_mu1_format() -> Seq<ParsingInstruction> {
    seq![
        ParsingInstruction::Bit { name: FieldName::S },
        ParsingInstruction::Match { size: 2, value: 0b11 },
        ParsingInstruction::LSDUnit { name: FieldName::UnitField },
        ParsingInstruction::Match { size: 2, value: 0b11 },
        ParsingInstruction::Register { size: 3, name: FieldName::Dst },
        ParsingInstruction::Match { size: 3, value: 0b010 },
        ParsingInstruction::Unsigned { size: 1, name: FieldName::Cst },
        ParsingInstruction::Unsigned { size: 2, name: FieldName::Cc },
    ]
}

fn mc_compact_mu1_format() -> (r: Vec<ParsingInstruction>)
    ensures
        r@ == spec_mc_compact_mu1_format(),
{
    let mut f: Vec<ParsingInstruction> = Vec::new();
    f.push(ParsingInstruction::Bit { name: FieldName::S });
    f.push(ParsingInstruction::Match { size: 2, value: 0b11 });
    f.push(ParsingInstruction::LSDUnit { name: FieldName::UnitField });
    f.push(ParsingInstruction::Match { size: 2, value: 0b11 });
    f.push(ParsingInstruction::Register { size: 3, name: FieldName::Dst });
    f.push(ParsingInstruction::Match { size: 3, value: 0b010 });
    f.push(ParsingInstruction::Unsigned { size: 1, name: FieldName::Cst });
    f.push(ParsingInstruction::Unsigned { size: 2, name: FieldName::Cc });
    proof {
        assert(f@ =~= spec_mc_compact_mu1_format());
    }
    f
}

/// The second compact multi-unit MVK format, unconditional.
pub open spec fn spec_mc_compact_mu2_format() -> Seq<ParsingInstruction> {
    seq![
        ParsingInstruction::Bit { name: FieldName::S },
        ParsingInstruction::Match { size: 2, value: 0b11 },
        ParsingInstruction::LSDUnit { name: FieldName::UnitField },
        ParsingInstruction::Match { size: 2, value: 0b11 },
        ParsingInstruction::Register { size: 3, name: FieldName::Dst },
        ParsingInstruction::Match { size: 3, value: 0b110 },
        ParsingInstruction::Unsigned { size: 1, name: FieldName::Cst },
        ParsingInstruction::Match { size: 2, value: 0b00 },
    ]
}

fn mc_compact_mu2_format() -> (r: Vec<ParsingInstruction>)
    ensures
        r@ == spec_mc_compact_mu2_format(),
{
    let mut f: Vec<ParsingInstruction> = Vec::new();
    f.push(ParsingInstruction::Bit { name: FieldName::S });
    f.push(ParsingInstruction::Match { size: 2, value: 0b11 });
    f.push(ParsingInstruction::LSDUnit { name: FieldName::UnitField });
    f.push(ParsingInstruction::Match { size: 2, value: 0b11 });
    f.push(ParsingInstruction::Register { size: 3, name: FieldName::Dst });
    f.push(ParsingInstruction::Match { size: 3, value: 0b110 });
    f.push(ParsingInstruction::Unsigned { size: 1, name: FieldName::Cst });
    f.push(ParsingInstruction::Match { size: 2, value: 0b00 });
    proof {
        assert(f@ =~= spec_mc_compact_mu2_format());
    }
    f
}

/// Whether a compact single-unit move-constant parse extracted every field
/// the record needs (cst65 and cst7 only on the S unit).
pub open spec fn spec_mc_compact_single_ok(m: Map<FieldName, ParsedValue>, unit: Unit) -> bool {
    &&& spec_get_u8(m, FieldName::Cst20) is Ok
    &&& spec_get_u8(m, FieldName::Cst43) is Ok
    &&& spec_get_register(m, FieldName::Dst) is Ok
    &&& (unit == Unit::S ==> spec_get_u8(m, FieldName::Cst65) is Ok)
    &&& (unit == Unit::S ==> spec_get_u8(m, FieldName::Cst7) is Ok)
}

/// The constant a compact single-unit parse reassembles:
/// cst20 | cst43 << 3 | (on S) cst65 << 5 | cst7 << 7.
pub open spec fn spec_mc_compact_constant(m: Map<FieldName, ParsedValue>, unit: Unit) -> u32
    recommends
        spec_mc_compact_single_ok(m, unit),
{
    (spec_get_u8(m, FieldName::Cst20)->Ok_0 + spec_get_u8(m, FieldName::Cst43)->Ok_0 * 8 + (
    if unit == Unit::S {
        spec_get_u8(m, FieldName::Cst65)->Ok_0 * 32 + spec_get_u8(m, FieldName::Cst7)->Ok_0 * 128
    } else {
        0
    })) as u32
}

/// The record a successful compact single-unit parse denotes.
pub open spec fn spec_mc_compact_single_record(
    op: u32,
    m: Map<FieldName, ParsedValue>,
    unit: Unit,
) -> MoveConstantInstruction
    recommends
        spec_mc_compact_single_ok(m, unit),
{
    MoveConstantInstruction {
        instruction_data: InstructionData {
            opcode: op,
            compact: true,
            parallel: false,
            p_bit: false,
            conditional_operation: None,
        },
        high: false,
        constant: spec_mc_compact_constant(m, unit),
        destination: spec_get_register(m, FieldName::Dst)->Ok_0,
        unit,
    }
}

/// The predicate a compact multi-unit condition code selects: 0 and 1 test
/// A0 (nonzero, zero), 2 and 3 test B0; absent means unconditional.
pub open spec fn spec_mc_mu_predicate(m: Map<FieldName, ParsedValue>) -> Result<
    Option<ConditionalOperation>,
    DecodeError,
> {
    if !m.contains_key(FieldName::Cc) {
        Ok(None)
    } else {
        match spec_value_u8(m[FieldName::Cc]) {
            Err(e) => Err(e),
            Ok(cc) => Ok(
                if cc == 0 {
                    Some(ConditionalOperation::NonZero(Register::A(0)))
                } else if cc == 1 {
                    Some(ConditionalOperation::Zero(Register::A(0)))
                } else if cc == 2 {
                    Some(ConditionalOperation::NonZero(Register::B(0)))
                } else if cc == 3 {
                    Some(ConditionalOperation::Zero(Register::B(0)))
                } else {
                    None
                },
            ),
        }
    }
}

/// Whether a compact multi-unit move-constant parse extracted every field
/// the record needs.
pub open spec fn spec_mc_mu_ok(m: Map<FieldName, ParsedValue>) -> bool {
    &&& spec_get_u32(m, FieldName::Cst) is Ok
    &&& spec_get_register(m, FieldName::Dst) is Ok
    &&& spec_get_unit(m, FieldName::UnitField) is Ok
    &&& spec_mc_mu_predicate(m) is Ok
}

/// The record a successful compact multi-unit parse denotes.
pub open spec fn spec_mc_mu_record(op: u32, m: Map<FieldName, ParsedValue>) -> MoveConstantInstruction
    recommends
        spec_mc_mu_ok(m),
{
    MoveConstantInstruction {
        instruction_data: InstructionData {
            opcode: op,
            compact: true,
            parallel: false,
            p_bit: false,
            conditional_operation: spec_mc_mu_predicate(m)->Ok_0,
        },
        high: false,
        constant: spec_get_u32(m, FieldName::Cst)->Ok_0,
        destination: spec_get_register(m, FieldName::Dst)->Ok_0,
        unit: spec_get_unit(m, FieldName::UnitField)->Ok_0,
    }
}

/// What decoding `op` as a compact move constant yields: the single-unit S
/// and L formats, then the two multi-unit formats, tried in that order.
pub open spec fn spec_move_constant_new_compact(op: u32) -> Result<
    MoveConstantInstruction,
    DecodeError,
> {
    match spec_parse(op, spec_mc_compact_s_format()) {
        Ok(m) => if spec_mc_compact_single_ok(m, Unit::S) {
            Ok(spec_mc_compact_single_record(op, m, Unit::S))
        } else {
            Err(DecodeError::Other)
        },
        Err(_) => match spec_parse(op, spec_mc_compact_l_format()) {
            Ok(m) => if spec_mc_compact_single_ok(m, Unit::L) {
                Ok(spec_mc_compact_single_record(op, m, Unit::L))
            } else {
                Err(DecodeError::Other)
            },
            Err(_) => match spec_parse(op, spec_mc_compact_mu1_format()) {
                Ok(m) => if spec_mc_mu_ok(m) {
                    Ok(spec_mc_mu_record(op, m))
                } else {
                    Err(DecodeError::Other)
                },
                Err(_) => match spec_parse(op, spec_mc_compact_mu2_format()) {
                    Ok(m) => if spec_mc_mu_ok(m) {
                        Ok(spec_mc_mu_record(op, m))
                    } else {
                        Err(DecodeError::Other)
                    },
                    Err(_) => Err(DecodeError::InvalidInput),
                },
            },
        },
    }
}

/// The move-constant mnemonic without unit suffix: "MVKH" or "MVK".
pub open spec fn spec_mc_instruction_clean(i: MoveConstantInstruction) -> Seq<char> {
    if i.high {
        "MVKH"@
    } else {
        "MVK"@
    }
}

/// The full mnemonic: the clean name, a dot, and the unit with the side of
/// the destination register.
pub open spec fn spec_mc_instruction_string(i: MoveConstantInstruction) -> Seq<char> {
    spec_mc_instruction_clean(i) + "."@ + spec_unit_sided_string(
        i.unit,
        spec_register_side(i.destination),
    )
}

/// The operand list: the constant in hexadecimal (at least four digits) and
/// the destination register.
pub open spec fn spec_mc_operands(i: MoveConstantInstruction) -> Seq<char> {
    "0x"@ + spec_hex(i.constant as nat, 4) + ", "@ + spec_register_string(i.destination)
}

impl MoveConstantInstruction {
    fn post_32(input: &InstructionInput, vars: &ParsedVariables, unit: Unit) -> (r: Result<
        Self,
        DecodeError,
    >)
        ensures
            r == (if spec_mc32_ok(vars@, unit) {
                Ok::<MoveConstantInstruction, DecodeError>(
                    spec_mc32_record(input.opcode, vars@, unit),
                )
            } else {
                Err::<MoveConstantInstruction, DecodeError>(DecodeError::Other)
            }),
    {
        let p_bit = match get_bool_field(vars, FieldName::P) {
            Ok(b) => b,
            Err(_) => {
                return Err(DecodeError::Other);
            },
        };
        let constant = match get_u32_field(vars, FieldName::Cst) {
            Ok(c) => c,
            Err(_) => {
                return Err(DecodeError::Other);
            },
        };
        let destination = match get_register_field(vars, FieldName::Dst) {
            Ok(d) => d,
            Err(_) => {
                return Err(DecodeError::Other);
            },
        };
        let high = if unit == Unit::S {
            match get_bool_field(vars, FieldName::H) {
                Ok(h) => h,
                Err(_) => {
                    return Err(DecodeError::Other);
                },
            }
        } else {
            false
        };
        let conditional_operation = match get_predicate_field(vars, FieldName::Cond) {
            Ok(c) => c,
            Err(_) => {
                return Err(DecodeError::Other);
            },
        };
        Ok(
            MoveConstantInstruction {
                instruction_data: InstructionData {
                    opcode: input.opcode,
                    compact: false,
                    parallel: false,
                    p_bit,
                    conditional_operation,
                },
                high,
                constant,
                destination,
                unit,
            },
        )
    }

    /// Decodes a 32-bit MVK or MVKH, trying the S, L and D formats in
    /// order.
    pub fn new(input: &InstructionInput) -> (r: Result<Self, DecodeError>)
        ensures
            r == spec_move_constant_new(input.opcode),
            r is Ok ==> r->Ok_0.instruction_data.opcode == input.opcode,
            r is Ok ==> !r->Ok_0.instruction_data.compact,
    {
        let format = mc_s_format();
        match parse(input.opcode, format.as_slice()) {
            Ok(vars) => {
                return Self::post_32(input, &vars, Unit::S);
            },
            Err(_) => {},
        }
        let format = mc_l_format();
        match parse(input.opcode, format.as_slice()) {
            Ok(vars) => {
                return Self::post_32(input, &vars, Unit::L);
            },
            Err(_) => {},
        }
        let format = mc_d_format();
        match parse(input.opcode, format.as_slice()) {
            Ok(vars) => {
                return Self::post_32(input, &vars, Unit::D);
            },
            Err(_) => {},
        }
        Err(DecodeError::InvalidInput)
    }

    fn post_compact_single(input: &InstructionInput, vars: &ParsedVariables, unit: Unit) -> (r:
        Result<Self, DecodeError>)
        ensures
            r == (if spec_mc_compact_single_ok(vars@, unit) {
                Ok::<MoveConstantInstruction, DecodeError>(
                    spec_mc_compact_single_record(input.opcode, vars@, unit),
                )
            } else {
                Err::<MoveConstantInstruction, DecodeError>(DecodeError::Other)
            }),
    {
        let cst20 = match get_u8_field(vars, FieldName::Cst20) {
            Ok(c) => c,
            Err(_) => {
                return Err(DecodeError::Other);
            },
        };
        let cst43 = match get_u8_field(vars, FieldName::Cst43) {
            Ok(c) => c,
            Err(_) => {
                return Err(DecodeError::Other);
            },
        };
        let destination = match get_register_field(vars, FieldName::Dst) {
            Ok(d) => d,
            Err(_) => {
                return Err(DecodeError::Other);
            },
        };
        let mut constant: u32 = cst20 as u32 + (cst43 as u32) * 8;
        if unit == Unit::S {
            let cst65 = match get_u8_field(vars, FieldName::Cst65) {
                Ok(c) => c,
                Err(_) => {
                    return Err(DecodeError::Other);
                },
            };
            let cst7 = match get_u8_field(vars, FieldName::Cst7) {
                Ok(c) => c,
                Err(_) => {
                    return Err(DecodeError::Other);
                },
            };
            constant = constant + (cst65 as u32) * 32 + (cst7 as u32) * 128;
        }
        Ok(
            MoveConstantInstruction {
                instruction_data: InstructionData {
                    opcode: input.opcode,
                    compact: true,
                    parallel: false,
                    p_bit: false,
                    conditional_operation: None,
                },
                high: false,
                constant,
                destination,
                unit,
            },
        )
    }

    fn post_compact_mu(input: &InstructionInput, vars: &ParsedVariables) -> (r: Result<
        Self,
        DecodeError,
    >)
        ensures
            r == (if spec_mc_mu_ok(vars@) {
                Ok::<MoveConstantInstruction, DecodeError>(spec_mc_mu_record(input.opcode, vars@))
            } else {
                Err::<MoveConstantInstruction, DecodeError>(DecodeError::Other)
            }),
    {
        let constant = match get_u32_field(vars, FieldName::Cst) {
            Ok(c) => c,
            Err(_) => {
                return Err(DecodeError::Other);
            },
        };
        let destination = match get_register_field(vars, FieldName::Dst) {
            Ok(d) => d,
            Err(_) => {
                return Err(DecodeError::Other);
            },
        };
        let unit = match get_unit_field(vars, FieldName::UnitField) {
            Ok(u) => u,
            Err(_) => {
                return Err(DecodeError::Other);
            },
        };
        let conditional_operation = match vars.get(FieldName::Cc) {
            Some(v) => match v.get_u8() {
                Ok(cc) => match cc {
                    0 => Some(ConditionalOperation::NonZero(Register::A(0))),
                    1 => Some(ConditionalOperation::Zero(Register::A(0))),
                    2 => Some(ConditionalOperation::NonZero(Register::B(0))),
                    3 => Some(ConditionalOperation::Zero(Register::B(0))),
                    _ => None,
                },
                Err(_) => {
                    return Err(DecodeError::Other);
                },
            },
            None => None,
        };
        Ok(
            MoveConstantInstruction {
                instruction_data: InstructionData {
                    opcode: input.opcode,
                    compact: true,
                    parallel: false,
                    p_bit: false,
                    conditional_operation,
                },
                high: false,
                constant,
                destination,
                unit,
            },
        )
    }

    /// Decodes a compact (16-bit) MVK, trying the single-unit S and L
    /// formats and then the two multi-unit formats.
    pub fn new_compact(input: &InstructionInput) -> (r: Result<Self, DecodeError>)
        ensures
            r == spec_move_constant_new_compact(input.opcode),
            r is Ok ==> r->Ok_0.instruction_data.opcode == input.opcode,
            r is Ok ==> r->Ok_0.instruction_data.compact,
    {
        let format = mc_compact_s_format();
        match parse(input.opcode, format.as_slice()) {
            Ok(vars) => {
                return Self::post_compact_single(input, &vars, Unit::S);
            },
            Err(_) => {},
        }
        let format = mc_compact_l_format();
        match parse(input.opcode, format.as_slice()) {
            Ok(vars) => {
                return Self::post_compact_single(input, &vars, Unit::L);
            },
            Err(_) => {},
        }
        let format = mc_compact_mu1_format();
        match parse(input.opcode, format.as_slice()) {
            Ok(vars) => {
                return Self::post_compact_mu(input, &vars);
            },
            Err(_) => {},
        }
        let format = mc_compact_mu2_format();
        match parse(input.opcode, format.as_slice()) {
            Ok(vars) => {
                return Self::post_compact_mu(input, &vars);
            },
            Err(_) => {},
        }
        Err(DecodeError::InvalidInput)
    }

    /// The mnemonic without unit suffix: "MVKH" or "MVK".
    pub fn instruction_clean(&self) -> (s: String)
        ensures
            s@ == spec_mc_instruction_clean(*self),
    {
        if self.high {
            String::from_str("MVKH")
        } else {
            String::from_str("MVK")
        }
    }

    /// The full mnemonic, e.g. "MVK.S1".
    pub fn instruction(&self) -> (s: String)
        ensures
            s@ == spec_mc_instruction_string(*self),
    {
        let mut value = self.instruction_clean();
        value.append(".");
        let side = self.destination.side();
        value.append(self.unit.to_sided_string(side).as_str());
        proof {
            assert(value@ =~= spec_mc_instruction_string(*self));
        }
        value
    }

    /// The operand list, e.g. "0x1234, A3".
    pub fn operands(&self) -> (s: String)
        ensures
            s@ == spec_mc_operands(*self),
    {
        let mut s = String::from_str("0x");
        s.append(hex_string_u32(self.constant, 4).as_str());
        s.append(", ");
        s.append(self.destination.to_string().as_str());
        proof {
            assert(s@ =~= spec_mc_operands(*self));
        }
        s
    }
}

// ---------------------------------------------------------------------------
// Move register (MV / MVD / MVC)
// ---------------------------------------------------------------------------

/// A decoded move-register instruction.
#[derive(Clone, Copy, Debug)]
pub struct MoveRegisterInstruction {
    pub instruction_data: InstructionData,
    pub source: RegisterFile,
    pub destination: RegisterFile,
    /// The side of the functional unit the move executes on.
    pub side: bool,
    /// MVD: the delayed move on the M unit.
    pub delayed: bool,
    pub unit: Unit,
}

/// The 32-bit S-unit MV format with a cross-path source.
pub open spec fn spec_mv_s_format() -> Seq<ParsingInstruction> {
    seq![
        ParsingInstruction::Bit { name: FieldName::P },
        ParsingInstruction::Bit { name: FieldName::S },
        ParsingInstruction::Match { size: 10, value: 0b0001101000 },
        ParsingInstruction::Bit { name: FieldName::X },
        ParsingInstruction::Match { size: 5, value: 0 },
        ParsingInstruction::RegisterCrosspath { size: 5, name: FieldName::Src },
        ParsingInstruction::Register { size: 5, name: FieldName::Dst },
        ParsingInstruction::ConditionalOperation { name: FieldName::Cond },
    ]
}

fn mv_s_format() -> (r: Vec<ParsingInstruction>)
    ensures
        r@ == spec_mv_s_format(),
{
    let mut f: Vec<ParsingInstruction> = Vec::new();
    f.push(ParsingInstruction::Bit { name: FieldName::P });
    f.push(ParsingInstruction::Bit { name: FieldName::S });
    f.push(ParsingInstruction::Match { size: 10, value: 0b0001101000 });
    f.push(ParsingInstruction::Bit { name: FieldName::X });
    f.push(ParsingInstruction::Match { size: 5, value: 0 });
    f.push(ParsingInstruction::RegisterCrosspath { size: 5, name: FieldName::Src });
    f.push(ParsingInstruction::Register { size: 5, name: FieldName::Dst });
    f.push(ParsingInstruction::ConditionalOperation { name: FieldName::Cond });
    proof {
        assert(f@ =~= spec_mv_s_format());
    }
    f
}

/// The 32-bit L-unit register-pair MV format (fixed 16-bit prefix 0x106).
pub open spec fn spec_mv_l_pair_format() -> Seq<ParsingInstruction> {
    seq![
        ParsingInstruction::Bit { name: FieldName::P },
        ParsingInstruction::Bit { name: FieldName::S },
        ParsingInstruction::Match { size: 16, value: 0x106 },
        ParsingInstruction::RegisterPair { size: 5, name: FieldName::Src },
        ParsingInstruction::RegisterPair { size: 5, name: FieldName::Dst },
        ParsingInstruction::ConditionalOperation { name: FieldName::Cond },
    ]
}

fn mv_l_pair_format() -> (r: Vec<ParsingInstruction>)
    ensures
        r@ == spec_mv_l_pair_format(),
{
    let mut f: Vec<ParsingInstruction> = Vec::new();
    f.push(ParsingInstruction::Bit { name: FieldName::P });
    f.push(ParsingInstruction::Bit { name: FieldName::S });
    f.push(ParsingInstruction::Match { size: 16, value: 0x106 });
    f.push(ParsingInstruction::RegisterPair { size: 5, name: FieldName::Src });
    f.push(ParsingInstruction::RegisterPair { size: 5, name: FieldName::Dst });
    f.push(ParsingInstruction::ConditionalOperation { name: FieldName::Cond });
    proof {
        assert(f@ =~= spec_mv_l_pair_format());
    }
    f
}

/// A 32-bit L-unit scalar MV format; the 7-bit opcode field takes the value
/// given as `op7`, one of 0x2 and 0x7E.
pub open spec fn spec_mv_l_scalar_format(op7: u32) -> Seq<ParsingInstruction> {
    seq![
        ParsingInstruction::Bit { name: FieldName::P },
        ParsingInstruction::Bit { name: FieldName::S },
        ParsingInstruction::Match { size: 3, value: 0b110 },
        ParsingInstruction::Match { size: 7, value: op7 },
        ParsingInstruction::Bit { name: FieldName::X },
        ParsingInstruction::Match { size: 5, value: 0 },
        ParsingInstruction::Register { size: 5, name: FieldName::Src },
        ParsingInstruction::Register { size: 5, name: FieldName::Dst },
        ParsingInstruction::ConditionalOperation { name: FieldName::Cond },
    ]
}

fn mv_l_scalar_format(op7: u32) -> (r: Vec<ParsingInstruction>)
    ensures
        r@ == spec_mv_l_scalar_format(op7),
{
    let mut f: Vec<ParsingInstruction> = Vec::new();
    f.push(ParsingInstruction::Bit { name: FieldName::P });
    f.push(ParsingInstruction::Bit { name: FieldName::S });
    f.push(ParsingInstruction::Match { size: 3, value: 0b110 });
    f.push(ParsingInstruction::Match { size: 7, value: op7 });
    f.push(ParsingInstruction::Bit { name: FieldName::X });
    f.push(ParsingInstruction::Match { size: 5, value: 0 });
    f.push(ParsingInstruction::Register { size: 5, name: FieldName::Src });
    f.push(ParsingInstruction::Register { size: 5, name: FieldName::Dst });
    f.push(ParsingInstruction::ConditionalOperation { name: FieldName::Cond });
    proof {
        assert(f@ =~= spec_mv_l_scalar_format(op7));
    }
    f
}

/// The 32-bit D-unit direct MV format (fixed 16-bit prefix 0x250).
pub open spec fn spec_mv_d_direct_format() -> Seq<ParsingInstruction> {
    seq![
        ParsingInstruction::Bit { name: FieldName::P },
        ParsingInstruction::Bit { name: FieldName::S },
        ParsingInstruction::Match { size: 16, value: 0x250 },
        ParsingInstruction::Register { size: 5, name: FieldName::Src },
        ParsingInstruction::Register { size: 5, name: FieldName::Dst },
        ParsingInstruction::ConditionalOperation { name: FieldName::Cond },
    ]
}

fn mv_d_direct_format() -> (r: Vec<ParsingInstruction>)
    ensures
        r@ == spec_mv_d_direct_format(),
{
    let mut f: Vec<ParsingInstruction> = Vec::new();
    f.push(ParsingInstruction::Bit { name: FieldName::P });
    f.push(ParsingInstruction::Bit { name: FieldName::S });
    f.push(ParsingInstruction::Match { size: 16, value: 0x250 });
    f.push(ParsingInstruction::Register { size: 5, name: FieldName::Src });
    f.push(ParsingInstruction::Register { size: 5, name: FieldName::Dst });
    f.push(ParsingInstruction::ConditionalOperation { name: FieldName::Cond });
    proof {
        assert(f@ =~= spec_mv_d_direct_format());
    }
    f
}

/// The 32-bit D-unit cross-path MV format (prefix 0x23C).
pub open spec fn spec_mv_d_cross_format() -> Seq<ParsingInstruction> {
    seq![
        ParsingInstruction::Bit { name: FieldName::P },
        ParsingInstruction::Bit { name: FieldName::S },
        ParsingInstruction::Match { size: 10, value: 0x23C },
        ParsingInstruction::Bit { name: FieldName::X },
        ParsingInstruction::Match { size: 5, value: 0 },
        ParsingInstruction::RegisterCrosspath { size: 5, name: FieldName::Src },
        ParsingInstruction::Register { size: 5, name: FieldName::Dst },
        ParsingInstruction::ConditionalOperation { name: FieldName::Cond },
    ]
}

fn mv_d_cross_format() -> (r: Vec<ParsingInstruction>)
    ensures
        r@ == spec_mv_d_cross_format(),
{
    let mut f: Vec<ParsingInstruction> = Vec::new();
    f.push(ParsingInstruction::Bit { name: FieldName::P });
    f.push(ParsingInstruction::Bit { name: FieldName::S });
    f.push(ParsingInstruction::Match { size: 10, value: 0x23C });
    f.push(ParsingInstruction::Bit { name: FieldName::X });
    f.push(ParsingInstruction::Match { size: 5, value: 0 });
    f.push(ParsingInstruction::RegisterCrosspath { size: 5, name: FieldName::Src });
    f.push(ParsingInstruction::Register { size: 5, name: FieldName::Dst });
    f.push(ParsingInstruction::ConditionalOperation { name: FieldName::Cond });
    proof {
        assert(f@ =~= spec_mv_d_cross_format());
    }
    f
}

/// The 32-bit M-unit MVD format (prefix 0x3C, inner field 0x1A).
pub open spec fn spec_mv_m_format() -> Seq<ParsingInstruction> {
    seq![
        ParsingInstruction::Bit { name: FieldName::P },
        ParsingInstruction::Bit { name: FieldName::S },
        ParsingInstruction::Match { size: 10, value: 0x3C },
        ParsingInstruction::Bit { name: FieldName::X },
        ParsingInstruction::Match { size: 5, value: 0x1A },
        ParsingInstruction::Register { size: 5, name: FieldName::Src },
        ParsingInstruction::Register { size: 5, name: FieldName::Dst },
        ParsingInstruction::ConditionalOperation { name: FieldName::Cond },
    ]
}

fn mv_m_format() -> (r: Vec<ParsingInstruction>)
    ensures
        r@ == spec_mv_m_format(),
{
    let mut f: Vec<ParsingInstruction> = Vec::new();
    f.push(ParsingInstruction::Bit { name: FieldName::P });
    f.push(ParsingInstruction::Bit { name: FieldName::S });
    f.push(ParsingInstruction::Match { size: 10, value: 0x3C });
    f.push(ParsingInstruction::Bit { name: FieldName::X });
    f.push(ParsingInstruction::Match { size: 5, value: 0x1A });
    f.push(ParsingInstruction::Register { size: 5, name: FieldName::Src });
    f.push(ParsingInstruction::Register { size: 5, name: FieldName::Dst });
    f.push(ParsingInstruction::ConditionalOperation { name: FieldName::Cond });
    proof {
        assert(f@ =~= spec_mv_m_format());
    }
    f
}

/// Whether a 32-bit MV parse extracted every field the record needs.
pub open spec fn spec_mv_ok(m: Map<FieldName, ParsedValue>) -> bool {
    &&& spec_get_bool(m, FieldName::P) is Ok
    &&& spec_get_bool(m, FieldName::S) is Ok
    &&& spec_get_register(m, FieldName::Src) is Ok
    &&& spec_get_register(m, FieldName::Dst) is Ok
    &&& spec_get_predicate(m, FieldName::Cond) is Ok
}

/// The record a successful 32-bit MV parse denotes; the M unit marks the
/// delayed move.
pub open spec fn spec_mv_record(op: u32, m: Map<FieldName, ParsedValue>, unit: Unit) -> MoveRegisterInstruction
    recommends
        spec_mv_ok(m),
{
    MoveRegisterInstruction {
        instruction_data: InstructionData {
            opcode: op,
            compact: false,
            parallel: false,
            p_bit: spec_get_bool(m, FieldName::P)->Ok_0,
            conditional_operation: spec_get_predicate(m, FieldName::Cond)->Ok_0,
        },
        source: RegisterFile::GeneralPurpose(spec_get_register(m, FieldName::Src)->Ok_0),
        destination: RegisterFile::GeneralPurpose(spec_get_register(m, FieldName::Dst)->Ok_0),
        side: spec_get_bool(m, FieldName::S)->Ok_0,
        delayed: unit == Unit::M,
        unit,
    }
}

/// What decoding `op` as a 32-bit MV or MVD yields: the S, L-pair, the two
/// L-scalar, the two D and the M formats are tried in that order.
pub open spec fn spec_mv_new(op: u32) -> Result<MoveRegisterInstruction, DecodeError> {
    match spec_parse(op, spec_mv_s_format()) {
        Ok(m) => if spec_mv_ok(m) {
            Ok(spec_mv_record(op, m, Unit::S))
        } else {
            Err(DecodeError::Other)
        },
        Err(_) => match spec_parse(op, spec_mv_l_pair_format()) {
            Ok(m) => if spec_mv_ok(m) {
                Ok(spec_mv_record(op, m, Unit::L))
            } else {
                Err(DecodeError::Other)
            },
            Err(_) => match spec_parse(op, spec_mv_l_scalar_format(0x2)) {
                Ok(m) => if spec_mv_ok(m) {
                    Ok(spec_mv_record(op, m, Unit::L))
                } else {
                    Err(DecodeError::Other)
                },
                Err(_) => match spec_parse(op, spec_mv_l_scalar_format(0x7E)) {
                    Ok(m) => if spec_mv_ok(m) {
                        Ok(spec_mv_record(op, m, Unit::L))
                    } else {
                        Err(DecodeError::Other)
                    },
                    Err(_) => match spec_parse(op, spec_mv_d_direct_format()) {
                        Ok(m) => if spec_mv_ok(m) {
                            Ok(spec_mv_record(op, m, Unit::D))
                        } else {
                            Err(DecodeError::Other)
                        },
                        Err(_) => match spec_parse(op, spec_mv_d_cross_format()) {
                            Ok(m) => if spec_mv_ok(m) {
                                Ok(spec_mv_record(op, m, Unit::D))
                            } else {
                                Err(DecodeError::Other)
                            },
                            Err(_) => match spec_parse(op, spec_mv_m_format()) {
                                Ok(m) => if spec_mv_ok(m) {
                                    Ok(spec_mv_record(op, m, Unit::M))
                                } else {
                                    Err(DecodeError::Other)
                                },
                                Err(_) => Err(DecodeError::Other),
                            },
                        },
                    },
                },
            },
        },
    }
}

/// An MVC format: control register to general-purpose register, with or
/// without an explicit crhi field.
pub open spec fn spec_mvc_c2g_format(with_crhi: bool) -> Seq<ParsingInstruction> {
    seq![
        ParsingInstruction::Bit { name: FieldName::P },
        ParsingInstruction::BitMatch { name: FieldName::S, value: true },
        ParsingInstruction::Match { size: 10, value: 0b0011111000 },
        ParsingInstruction::Bit { name: FieldName::X },
        if with_crhi {
            ParsingInstruction::Unsigned { size: 5, name: FieldName::Crhi }
        } else {
            ParsingInstruction::Match { size: 5, value: 0 }
        },
        ParsingInstruction::ControlRegister { size: 5, name: FieldName::Crlo },
        ParsingInstruction::Register { size: 5, name: FieldName::Dst },
        ParsingInstruction::ConditionalOperation { name: FieldName::Cond },
    ]
}

fn mvc_c2g_format(with_crhi: bool) -> (r: Vec<ParsingInstruction>)
    ensures
        r@ == spec_mvc_c2g_format(with_crhi),
{
    let mut f: Vec<ParsingInstruction> = Vec::new();
    f.push(ParsingInstruction::Bit { name: FieldName::P });
    f.push(ParsingInstruction::BitMatch { name: FieldName::S, value: true });
    f.push(ParsingInstruction::Match { size: 10, value: 0b0011111000 });
    f.push(ParsingInstruction::Bit { name: FieldName::X });
    if with_crhi {
        f.push(ParsingInstruction::Unsigned { size: 5, name: FieldName::Crhi });
    } else {
        f.push(ParsingInstruction::Match { size: 5, value: 0 });
    }
    f.push(ParsingInstruction::ControlRegister { size: 5, name: FieldName::Crlo });
    f.push(ParsingInstruction::Register { size: 5, name: FieldName::Dst });
    f.push(ParsingInstruction::ConditionalOperation { name: FieldName::Cond });
    proof {
        assert(f@ =~= spec_mvc_c2g_format(with_crhi));
    }
    f
}

/// An MVC format: general-purpose register to control register, with or
/// without an explicit crhi field.
pub open spec fn spec_mvc_g2c_format(with_crhi: bool) -> Seq<ParsingInstruction> {
    seq![
        ParsingInstruction::Bit { name: FieldName::P },
        ParsingInstruction::BitMatch { name: FieldName::S, value: true },
        ParsingInstruction::Match { size: 10, value: 0b0011101000 },
        ParsingInstruction::Bit { name: FieldName::X },
        if with_crhi {
            ParsingInstruction::Unsigned { size: 5, name: FieldName::Crhi }
        } else {
            ParsingInstruction::Match { size: 5, value: 0 }
        },
        ParsingInstruction::Register { size: 5, name: FieldName::Src },
        ParsingInstruction::ControlRegister { size: 5, name: FieldName::Crlo },
        ParsingInstruction::ConditionalOperation { name: FieldName::Cond },
    ]
}

fn mvc_g2c_format(with_crhi: bool) -> (r: Vec<ParsingInstruction>)
    ensures
        r@ == spec_mvc_g2c_format(with_crhi),
{
    let mut f: Vec<ParsingInstruction> = Vec::new();
    f.push(ParsingInstruction::Bit { name: FieldName::P });
    f.push(ParsingInstruction::BitMatch { name: FieldName::S, value: true });
    f.push(ParsingInstruction::Match { size: 10, value: 0b0011101000 });
    f.push(ParsingInstruction::Bit { name: FieldName::X });
    if with_crhi {
        f.push(ParsingInstruction::Unsigned { size: 5, name: FieldName::Crhi });
    } else {
        f.push(ParsingInstruction::Match { size: 5, value: 0 });
    }
    f.push(ParsingInstruction::Register { size: 5, name: FieldName::Src });
    f.push(ParsingInstruction::ControlRegister { size: 5, name: FieldName::Crlo });
    f.push(ParsingInstruction::ConditionalOperation { name: FieldName::Cond });
    proof {
        assert(f@ =~= spec_mvc_g2c_format(with_crhi));
    }
    f
}

/// Whether an MVC parse extracted every field the record needs; `to_gp`
/// selects the control-to-register direction.
pub open spec fn spec_mvc_ok(m: Map<FieldName, ParsedValue>, to_gp: bool) -> bool {
    &&& spec_get_bool(m, FieldName::P) is Ok
    &&& spec_get_control_register(m, FieldName::Crlo) is Ok
    &&& (if to_gp {
        spec_get_register(m, FieldName::Dst) is Ok
    } else {
        spec_get_register(m, FieldName::Src) is Ok
    })
    &&& spec_get_predicate(m, FieldName::Cond) is Ok
}

/// The record a successful MVC parse denotes: MVC always executes on the
/// side-B S unit.
pub open spec fn spec_mvc_record(op: u32, m: Map<FieldName, ParsedValue>, to_gp: bool) -> MoveRegisterInstruction
    recommends
        spec_mvc_ok(m, to_gp),
{
    MoveRegisterInstruction {
        instruction_data: InstructionData {
            opcode: op,
            compact: false,
            parallel: false,
            p_bit: spec_get_bool(m, FieldName::P)->Ok_0,
            conditional_operation: spec_get_predicate(m, FieldName::Cond)->Ok_0,
        },
        source: if to_gp {
            RegisterFile::Control(spec_get_control_register(m, FieldName::Crlo)->Ok_0)
        } else {
            RegisterFile::GeneralPurpose(spec_get_register(m, FieldName::Src)->Ok_0)
        },
        destination: if to_gp {
            RegisterFile::GeneralPurpose(spec_get_register(m, FieldName::Dst)->Ok_0)
        } else {
            RegisterFile::Control(spec_get_control_register(m, FieldName::Crlo)->Ok_0)
        },
        side: true,
        delayed: false,
        unit: Unit::S,
    }
}

/// What decoding `op` as a 32-bit MVC yields: the four variants are tried
/// in order (each direction without, then with, the crhi field).
pub open spec fn spec_mvc_new(op: u32) -> Result<MoveRegisterInstruction, DecodeError> {
    match spec_parse(op, spec_mvc_c2g_format(false)) {
        Ok(m) => if spec_mvc_ok(m, true) {
            Ok(spec_mvc_record(op, m, true))
        } else {
            Err(DecodeError::Other)
        },
        Err(_) => match spec_parse(op, spec_mvc_g2c_format(false)) {
            Ok(m) => if spec_mvc_ok(m, false) {
                Ok(spec_mvc_record(op, m, false))
            } else {
                Err(DecodeError::Other)
            },
            Err(_) => match spec_parse(op, spec_mvc_c2g_format(true)) {
                Ok(m) => if spec_mvc_ok(m, true) {
                    Ok(spec_mvc_record(op, m, true))
                } else {
                    Err(DecodeError::Other)
                },
                Err(_) => match spec_parse(op, spec_mvc_g2c_format(true)) {
                    Ok(m) => if spec_mvc_ok(m, false) {
                        Ok(spec_mvc_record(op, m, false))
                    } else {
                        Err(DecodeError::Other)
                    },
                    Err(_) => Err(DecodeError::Other),
                },
            },
        },
    }
}

/// What decoding `op` as a 32-bit move register yields: the MV/MVD formats
/// first, then the MVC formats.
pub open spec fn spec_move_register_new(op: u32) -> Result<MoveRegisterInstruction, DecodeError> {
    match spec_mv_new(op) {
        Ok(i) => Ok(i),
        Err(_) => match spec_mvc_new(op) {
            Ok(i) => Ok(i),
            Err(_) => Err(DecodeError::InvalidInput),
        },
    }
}

/// The compact MV format: an L/S/D unit selector and a split register
/// layout with an index-extension field.
pub open spec fn spec_mv_compact_format() -> Seq<ParsingInstruction> {
    seq![
        ParsingInstruction::Bit { name: FieldName::S },
        ParsingInstruction::Match { size: 2, value: 0b11 },
        ParsingInstruction::LSDUnit { name: FieldName::UnitField },
        ParsingInstruction::Match { size: 1, value: 0 },
        ParsingInstruction::Bit { name: FieldName::MsBit },
        ParsingInstruction::Register { size: 3, name: FieldName::Src },
        ParsingInstruction::Unsigned { size: 2, name: FieldName::Ms },
        ParsingInstruction::Bit { name: FieldName::X },
        ParsingInstruction::Register { size: 3, name: FieldName::Dst },
    ]
}

fn mv_compact_format() -> (r: Vec<ParsingInstruction>)
    ensures
        r@ == spec_mv_compact_format(),
{
    let mut f: Vec<ParsingInstruction> = Vec::new();
    f.push(ParsingInstruction::Bit { name: FieldName::S });
    f.push(ParsingInstruction::Match { size: 2, value: 0b11 });
    f.push(ParsingInstruction::LSDUnit { name: FieldName::UnitField });
    f.push(ParsingInstruction::Match { size: 1, value: 0 });
    f.push(ParsingInstruction::Bit { name: FieldName::MsBit });
    f.push(ParsingInstruction::Register { size: 3, name: FieldName::Src });
    f.push(ParsingInstruction::Unsigned { size: 2, name: FieldName::Ms });
    f.push(ParsingInstruction::Bit { name: FieldName::X });
    f.push(ParsingInstruction::Register { size: 3, name: FieldName::Dst });
    proof {
        assert(f@ =~= spec_mv_compact_format());
    }
    f
}

/// The compact MVC format: a side-B source register moved into ILC.
pub open spec fn spec_mvc_compact_format() -> Seq<ParsingInstruction> {
    seq![
        ParsingInstruction::Bit { name: FieldName::S },
        ParsingInstruction::Match { size: 6, value: 0b110111 },
        ParsingInstruction::Register { size: 3, name: FieldName::Src },
        ParsingInstruction::Match { size: 6, value: 0b110110 },
    ]
}

fn mvc_compact_format() -> (r: Vec<ParsingInstruction>)
    ensures
        r@ == spec_mvc_compact_format(),
{
    let mut f: Vec<ParsingInstruction> = Vec::new();
    f.push(ParsingInstruction::Bit { name: FieldName::S });
    f.push(ParsingInstruction::Match { size: 6, value: 0b110111 });
    f.push(ParsingInstruction::Register { size: 3, name: FieldName::Src });
    f.push(ParsingInstruction::Match { size: 6, value: 0b110110 });
    proof {
        assert(f@ =~= spec_mvc_compact_format());
    }
    f
}

/// Whether a compact MV parse extracted every field the record needs.
pub open spec fn spec_mv_compact_ok(m: Map<FieldName, ParsedValue>) -> bool {
    &&& spec_get_unit(m, FieldName::UnitField) is Ok
    &&& spec_get_bool(m, FieldName::S) is Ok
    &&& spec_get_bool(m, FieldName::X) is Ok
    &&& spec_get_bool(m, FieldName::MsBit) is Ok
    &&& spec_get_u8(m, FieldName::Ms) is Ok
    &&& spec_get_register(m, FieldName::Src) is Ok
    &&& spec_get_register(m, FieldName::Dst) is Ok
}

/// The record a successful compact MV parse denotes: the ms field extends
/// the destination index (when ms_bit is set) or the source index by
/// ms << 3, and the cross-path bit complements the source register.
pub open spec fn spec_mv_compact_record(op: u32, m: Map<FieldName, ParsedValue>) -> MoveRegisterInstruction
    recommends
        spec_mv_compact_ok(m),
{
    let ms = spec_get_u8(m, FieldName::Ms)->Ok_0;
    let amount = ((ms * 8) % 0x100) as u8;
    let ms_bit = spec_get_bool(m, FieldName::MsBit)->Ok_0;
    let crosspath = spec_get_bool(m, FieldName::X)->Ok_0;
    let src0 = spec_get_register(m, FieldName::Src)->Ok_0;
    let dst0 = spec_get_register(m, FieldName::Dst)->Ok_0;
    let src1 = if ms_bit {
        src0
    } else {
        spec_register_add(src0, amount)
    };
    let dst1 = if ms_bit {
        spec_register_add(dst0, amount)
    } else {
        dst0
    };
    let src2 = if crosspath {
        spec_register_complement(src1)
    } else {
        src1
    };
    MoveRegisterInstruction {
        instruction_data: InstructionData {
            opcode: op,
            compact: true,
            parallel: false,
            p_bit: false,
            conditional_operation: None,
        },
        source: RegisterFile::GeneralPurpose(src2),
        destination: RegisterFile::GeneralPurpose(dst1),
        side: spec_get_bool(m, FieldName::S)->Ok_0,
        delayed: false,
        unit: spec_get_unit(m, FieldName::UnitField)->Ok_0,
    }
}

/// Whether a compact MVC parse extracted every field the record needs.
pub open spec fn spec_mvc_compact_ok(m: Map<FieldName, ParsedValue>) -> bool {
    &&& spec_get_bool(m, FieldName::S) is Ok
    &&& spec_get_register(m, FieldName::Src) is Ok
}

/// The record a successful compact MVC parse denotes: the source register
/// moved into the ILC control register.
pub open spec fn spec_mvc_compact_record(op: u32, m: Map<FieldName, ParsedValue>) -> MoveRegisterInstruction
    recommends
        spec_mvc_compact_ok(m),
{
    MoveRegisterInstruction {
        instruction_data: InstructionData {
            opcode: op,
            compact: true,
            parallel: false,
            p_bit: false,
            conditional_operation: None,
        },
        source: RegisterFile::GeneralPurpose(spec_get_register(m, FieldName::Src)->Ok_0),
        destination: RegisterFile::Control(ControlRegister::ILC),
        side: spec_get_bool(m, FieldName::S)->Ok_0,
        delayed: false,
        unit: Unit::S,
    }
}

/// What decoding `op` as a compact move register yields: the MV format,
/// then the MVC-to-ILC format.
pub open spec fn spec_move_register_new_compact(op: u32) -> Result<
    MoveRegisterInstruction,
    DecodeError,
> {
    match spec_parse(op, spec_mv_compact_format()) {
        Ok(m) => if spec_mv_compact_ok(m) {
            Ok(spec_mv_compact_record(op, m))
        } else {
            Err(DecodeError::Other)
        },
        Err(_) => match spec_parse(op, spec_mvc_compact_format()) {
            Ok(m) => if spec_mvc_compact_ok(m) {
                Ok(spec_mvc_compact_record(op, m))
            } else {
                Err(DecodeError::Other)
            },
            Err(_) => Err(DecodeError::InvalidInput),
        },
    }
}

/// The move-register mnemonic without unit suffix: MVC when a control
/// register is involved, MVD for the delayed move, else MV.
pub open spec fn spec_mr_instruction_clean(i: MoveRegisterInstruction) -> Seq<char> {
    if spec_register_file_side(i.destination) is None || spec_register_file_side(i.source)
        is None {
        "MVC"@
    } else if i.delayed {
        "MVD"@
    } else {
        "MV"@
    }
}

/// The full mnemonic: the clean name, the sided unit, and "X" when an
/// operand crosses sides.
pub open spec fn spec_mr_instruction_string(i: MoveRegisterInstruction) -> Seq<char> {
    spec_mr_instruction_clean(i) + "."@ + spec_unit_sided_string(i.unit, i.side) + (
    if spec_register_file_side(i.destination) == Some(!i.side) || spec_register_file_side(i.source)
        == Some(!i.side) {
        "X"@
    } else {
        Seq::<char>::empty()
    })
}

/// The operand list: the source and the destination.
pub open spec fn spec_mr_operands(i: MoveRegisterInstruction) -> Seq<char> {
    spec_register_file_string(i.source) + ", "@ + spec_register_file_string(i.destination)
}

impl MoveRegisterInstruction {
    fn post_mv(input: &InstructionInput, vars: &ParsedVariables, unit: Unit) -> (r: Result<
        Self,
        DecodeError,
    >)
        ensures
            r == (if spec_mv_ok(vars@) {
                Ok::<MoveRegisterInstruction, DecodeError>(
                    spec_mv_record(input.opcode, vars@, unit),
                )
            } else {
                Err::<MoveRegisterInstruction, DecodeError>(DecodeError::Other)
            }),
    {
        let p_bit = match get_bool_field(vars, FieldName::P) {
            Ok(b) => b,
            Err(_) => {
                return Err(DecodeError::Other);
            },
        };
        let side = match get_bool_field(vars, FieldName::S) {
            Ok(b) => b,
            Err(_) => {
                return Err(DecodeError::Other);
            },
        };
        let source_register = match get_register_field(vars, FieldName::Src) {
            Ok(x) => x,
            Err(_) => {
                return Err(DecodeError::Other);
            },
        };
        let destination_register = match get_register_field(vars, FieldName::Dst) {
            Ok(x) => x,
            Err(_) => {
                return Err(DecodeError::Other);
            },
        };
        let conditional_operation = match get_predicate_field(vars, FieldName::Cond) {
            Ok(c) => c,
            Err(_) => {
                return Err(DecodeError::Other);
            },
        };
        let delayed = unit == Unit::M;
        Ok(
            MoveRegisterInstruction {
                instruction_data: InstructionData {
                    opcode: input.opcode,
                    compact: false,
                    parallel: false,
                    p_bit,
                    conditional_operation,
                },
                source: RegisterFile::GeneralPurpose(source_register),
                destination: RegisterFile::GeneralPurpose(destination_register),
                side,
                delayed,
                unit,
            },
        )
    }

    /// Decodes the MV/MVD 32-bit formats, trying S, L-pair, the two
    /// L-scalar encodings, the two D encodings and M in order.
    pub fn new_mv(input: &InstructionInput) -> (r: Result<Self, DecodeError>)
        ensures
            r == spec_mv_new(input.opcode),
    {
        let format = mv_s_format();
        match parse(input.opcode, format.as_slice()) {
            Ok(vars) => {
                return Self::post_mv(input, &vars, Unit::S);
            },
            Err(_) => {},
        }
        let format = mv_l_pair_format();
        match parse(input.opcode, format.as_slice()) {
            Ok(vars) => {
                return Self::post_mv(input, &vars, Unit::L);
            },
            Err(_) => {},
        }
        let format = mv_l_scalar_format(0x2);
        match parse(input.opcode, format.as_slice()) {
            Ok(vars) => {
                return Self::post_mv(input, &vars, Unit::L);
            },
            Err(_) => {},
        }
        let format = mv_l_scalar_format(0x7E);
        match parse(input.opcode, format.as_slice()) {
            Ok(vars) => {
                return Self::post_mv(input, &vars, Unit::L);
            },
            Err(_) => {},
        }
        let format = mv_d_direct_format();
        match parse(input.opcode, format.as_slice()) {
            Ok(vars) => {
                return Self::post_mv(input, &vars, Unit::D);
            },
            Err(_) => {},
        }
        let format = mv_d_cross_format();
        match parse(input.opcode, format.as_slice()) {
            Ok(vars) => {
                return Self::post_mv(input, &vars, Unit::D);
            },
            Err(_) => {},
        }
        let format = mv_m_format();
        match parse(input.opcode, format.as_slice()) {
            Ok(vars) => {
                return Self::post_mv(input, &vars, Unit::M);
            },
            Err(_) => {},
        }
        Err(DecodeError::Other)
    }

    fn post_mvc(input: &InstructionInput, vars: &ParsedVariables, to_gp: bool) -> (r: Result<
        Self,
        DecodeError,
    >)
        ensures
            r == (if spec_mvc_ok(vars@, to_gp) {
                Ok::<MoveRegisterInstruction, DecodeError>(
                    spec_mvc_record(input.opcode, vars@, to_gp),
                )
            } else {
                Err::<MoveRegisterInstruction, DecodeError>(DecodeError::Other)
            }),
    {
        let p_bit = match get_bool_field(vars, FieldName::P) {
            Ok(b) => b,
            Err(_) => {
                return Err(DecodeError::Other);
            },
        };
        let control_register = match get_control_register_field(vars, FieldName::Crlo) {
            Ok(c) => c,
            Err(_) => {
                return Err(DecodeError::Other);
            },
        };
        let (source, destination) = if to_gp {
            let destination_register = match get_register_field(vars, FieldName::Dst) {
                Ok(x) => x,
                Err(_) => {
                    return Err(DecodeError::Other);
                },
            };
            (
                RegisterFile::Control(control_register),
                RegisterFile::GeneralPurpose(destination_register),
            )
        } else {
            let source_register = match get_register_field(vars, FieldName::Src) {
                Ok(x) => x,
                Err(_) => {
                    return Err(DecodeError::Other);
                },
            };
            (
                RegisterFile::GeneralPurpose(source_register),
                RegisterFile::Control(control_register),
            )
        };
        let conditional_operation = match get_predicate_field(vars, FieldName::Cond) {
            Ok(c) => c,
            Err(_) => {
                return Err(DecodeError::Other);
            },
        };
        Ok(
            MoveRegisterInstruction {
                instruction_data: InstructionData {
                    opcode: input.opcode,
                    compact: false,
                    parallel: false,
                    p_bit,
                    conditional_operation,
                },
                source,
                destination,
                side: true,
                delayed: false,
                unit: Unit::S,
            },
        )
    }

    /// Decodes the MVC 32-bit formats: MVC is side-B only; the two transfer
    /// directions are tried without and then with the crhi field.
    pub fn new_mvc(input: &InstructionInput) -> (r: Result<Self, DecodeError>)
        ensures
            r == spec_mvc_new(input.opcode),
    {
        let format = mvc_c2g_format(false);
        match parse(input.opcode, format.as_slice()) {
            Ok(vars) => {
                return Self::post_mvc(input, &vars, true);
            },
            Err(_) => {},
        }
        let format = mvc_g2c_format(false);
        match parse(input.opcode, format.as_slice()) {
            Ok(vars) => {
                return Self::post_mvc(input, &vars, false);
            },
            Err(_) => {},
        }
        let format = mvc_c2g_format(true);
        match parse(input.opcode, format.as_slice()) {
            Ok(vars) => {
                return Self::post_mvc(input, &vars, true);
            },
            Err(_) => {},
        }
        let format = mvc_g2c_format(true);
        match parse(input.opcode, format.as_slice()) {
            Ok(vars) => {
                return Self::post_mvc(input, &vars, false);
            },
            Err(_) => {},
        }
        Err(DecodeError::Other)
    }

    /// Decodes a 32-bit move register: MV/MVD first, then MVC.
    pub fn new(input: &InstructionInput) -> (r: Result<Self, DecodeError>)
        ensures
            r == spec_move_register_new(input.opcode),
            r is Ok ==> r->Ok_0.instruction_data.opcode == input.opcode,
            r is Ok ==> !r->Ok_0.instruction_data.compact,
    {
        match Self::new_mv(input) {
            Ok(i) => Ok(i),
            Err(_) => match Self::new_mvc(input) {
                Ok(i) => Ok(i),
                Err(_) => Err(DecodeError::InvalidInput),
            },
        }
    }

    /// Decodes a compact (16-bit) move register: the MV format, then the
    /// MVC-to-ILC form.
    pub fn new_compact(input: &InstructionInput) -> (r: Result<Self, DecodeError>)
        ensures
            r == spec_move_register_new_compact(input.opcode),
            r is Ok ==> r->Ok_0.instruction_data.opcode == input.opcode,
            r is Ok ==> r->Ok_0.instruction_data.compact,
    {
        let format = mv_compact_format();
        match parse(input.opcode, format.as_slice()) {
            Ok(vars) => {
                let unit = match get_unit_field(&vars, FieldName::UnitField) {
                    Ok(u) => u,
                    Err(_) => {
                        return Err(DecodeError::Other);
                    },
                };
                let side = match get_bool_field(&vars, FieldName::S) {
                    Ok(b) => b,
                    Err(_) => {
                        return Err(DecodeError::Other);
                    },
                };
                let crosspath = match get_bool_field(&vars, FieldName::X) {
                    Ok(b) => b,
                    Err(_) => {
                        return Err(DecodeError::Other);
                    },
                };
                let ms_bit = match get_bool_field(&vars, FieldName::MsBit) {
                    Ok(b) => b,
                    Err(_) => {
                        return Err(DecodeError::Other);
                    },
                };
                let ms = match get_u8_field(&vars, FieldName::Ms) {
                    Ok(v) => v,
                    Err(_) => {
                        return Err(DecodeError::Other);
                    },
                };
                let mut source_register = match get_register_field(&vars, FieldName::Src) {
                    Ok(x) => x,
                    Err(_) => {
                        return Err(DecodeError::Other);
                    },
                };
                let mut destination_register = match get_register_field(&vars, FieldName::Dst) {
                    Ok(x) => x,
                    Err(_) => {
                        return Err(DecodeError::Other);
                    },
                };
                let amount: u8 = (((ms as u16) * 8) % 0x100) as u8;
                if ms_bit {
                    destination_register.add_assign(amount);
                } else {
                    source_register.add_assign(amount);
                }
                if crosspath {
                    source_register = source_register.complement();
                }
                return Ok(
                    MoveRegisterInstruction {
                        instruction_data: InstructionData {
                            opcode: input.opcode,
                            compact: true,
                            parallel: false,
                            p_bit: false,
                            conditional_operation: None,
                        },
                        source: RegisterFile::GeneralPurpose(source_register),
                        destination: RegisterFile::GeneralPurpose(destination_register),
                        side,
                        delayed: false,
                        unit,
                    },
                );
            },
            Err(_) => {},
        }
        let format = mvc_compact_format();
        match parse(input.opcode, format.as_slice()) {
            Ok(vars) => {
                let side = match get_bool_field(&vars, FieldName::S) {
                    Ok(b) => b,
                    Err(_) => {
                        return Err(DecodeError::Other);
                    },
                };
                let source_register = match get_register_field(&vars, FieldName::Src) {
                    Ok(x) => x,
                    Err(_) => {
                        return Err(DecodeError::Other);
                    },
                };
                return Ok(
                    MoveRegisterInstruction {
                        instruction_data: InstructionData {
                            opcode: input.opcode,
                            compact: true,
                            parallel: false,
                            p_bit: false,
                            conditional_operation: None,
                        },
                        source: RegisterFile::GeneralPurpose(source_register),
                        destination: RegisterFile::Control(ControlRegister::ILC),
                        side,
                        delayed: false,
                        unit: Unit::S,
                    },
                );
            },
            Err(_) => {},
        }
        Err(DecodeError::InvalidInput)
    }

    /// The mnemonic without unit suffix: "MVC", "MVD" or "MV".
    pub fn instruction_clean(&self) -> (s: String)
        ensures
            s@ == spec_mr_instruction_clean(*self),
    {
        if self.destination.side().is_none() || self.source.side().is_none() {
            String::from_str("MVC")
        } else if self.delayed {
            String::from_str("MVD")
        } else {
            String::from_str("MV")
        }
    }

    /// The full mnemonic, e.g. "MV.L1" or "MV.S2X".
    pub fn instruction(&self) -> (s: String)
        ensures
            s@ == spec_mr_instruction_string(*self),
    {
        let mut value = self.instruction_clean();
        value.append(".");
        value.append(self.unit.to_sided_string(self.side).as_str());
        let dst_crossed = match self.destination.side() {
            Some(ds) => ds == !self.side,
            None => false,
        };
        let src_crossed = match self.source.side() {
            Some(ss) => ss == !self.side,
            None => false,
        };
        if dst_crossed || src_crossed {
            value.append("X");
        }
        proof {
            assert(value@ =~= spec_mr_instruction_string(*self));
        }
        value
    }

    /// The operand list: the source and the destination.
    pub fn operands(&self) -> (s: String)
        ensures
            s@ == spec_mr_operands(*self),
    {
        let mut s = self.source.to_string();
        s.append(", ");
        s.append(self.destination.to_string().as_str());
        proof {
            assert(s@ =~= spec_mr_operands(*self));
        }
        s
    }
}

} // verus!
