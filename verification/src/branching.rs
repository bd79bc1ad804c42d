//! The branch family: PC-relative, register and pointer branches, BNOP
//! forms with a delay count, and the six compact branch encodings that the
//! header's BR bit enables.

use vstd::prelude::*;
use vstd::string::StringExecFns;
use crate::bits::{crop_i32, wrap_add, mul_wrap_i32, abs_u32, wrapping_add_u32, wrapping_sub_u32};
use crate::error::DecodeError;
use crate::fphead::CompactInstructionHeader;
use crate::instruction::{ConditionalOperation, InstructionData, InstructionInput};
use crate::register::{
    ControlRegister,
    Register,
    spec_register_from,
    spec_register_side,
    spec_register_string,
    spec_control_register_string,
};
use crate::strings::{spec_dec, spec_hex, dec_string_u32, hex_string_u32};
use crate::parser::{
    FieldName,
    ParsingInstruction,
    ParsedValue,
    ParsedVariables,
    parse,
    spec_parse,
    spec_get_bool,
    spec_get_u8,
    spec_get_i32,
    spec_get_register,
    spec_get_predicate,
    spec_value_bool,
    spec_value_u8,
    get_bool_field,
    get_u8_field,
    get_i32_field,
    get_register_field,
    get_predicate_field,
};

verus! {

/// What a branch transfers control through.
#[derive(PartialEq, Eq, Structural, Clone, Copy, Debug)]
pub enum BranchUsing {
    /// A PC-relative displacement in bytes (already scaled).
    Displacement(i32),
    /// A general-purpose register holding the target.
    Register(Register),
    /// A control register holding the target (IRP or NRP).
    Pointer(ControlRegister),
}

/// A decoded branch instruction.
#[derive(Clone, Copy, Debug)]
pub struct BranchInstruction {
    pub instruction_data: InstructionData,
    pub branch_using: BranchUsing,
    /// The side of the S unit the branch executes on.
    pub side: bool,
    /// The PCE1 base address, patched in by the packet decoder so that a
    /// displacement can render as an absolute target.
    pub pce1_address: Option<u32>,
    /// The BNOP delay count; zero when absent.
    pub nop_count: u8,
}

/// The 21-bit signed PC-relative displacement format.
pub open spec fn spec_branch_disp_format() -> Seq<ParsingInstruction> {
    seq![
        ParsingInstruction::Bit { name: FieldName::P },
        ParsingInstruction::Bit { name: FieldName::S },
        ParsingInstruction::Match { size: 5, value: 0b100 },
        ParsingInstruction::Signed { size: 21, name: FieldName::Cst },
        ParsingInstruction::ConditionalOperation { name: FieldName::Cond },
    ]
}

fn branch_disp_format() -> (r: Vec<ParsingInstruction>)
    ensures
        r@ == spec_branch_disp_format(),
{
    let mut f: Vec<ParsingInstruction> = Vec::new();
    f.push(ParsingInstruction::Bit { name: FieldName::P });
    f.push(ParsingInstruction::Bit { name: FieldName::S });
    f.push(ParsingInstruction::Match { size: 5, value: 0b100 });
    f.push(ParsingInstruction::Signed { size: 21, name: FieldName::Cst });
    f.push(ParsingInstruction::ConditionalOperation { name: FieldName::Cond });
    proof {
        assert(f@ =~= spec_branch_disp_format());
    }
    f
}

/// The register-branch format (fixed 10-bit prefix 0xD8) with a cross-path
/// source.
pub open spec fn spec_branch_reg_format() -> Seq<ParsingInstruction> {
    seq![
        ParsingInstruction::Bit { name: FieldName::P },
        ParsingInstruction::Bit { name: FieldName::S },
        ParsingInstruction::Match { size: 10, value: 0xD8 },
        ParsingInstruction::Bit { name: FieldName::X },
        ParsingInstruction::Match { size: 5, value: 0 },
        ParsingInstruction::RegisterCrosspath { size: 5, name: FieldName::Src },
        ParsingInstruction::Match { size: 5, value: 0 },
        ParsingInstruction::ConditionalOperation { name: FieldName::Cond },
    ]
}

fn branch_reg_format() -> (r: Vec<ParsingInstruction>)
    ensures
        r@ == spec_branch_reg_format(),
{
    let mut f: Vec<ParsingInstruction> = Vec::new();
    f.push(ParsingInstruction::Bit { name: FieldName::P });
    f.push(ParsingInstruction::Bit { name: FieldName::S });
    f.push(ParsingInstruction::Match { size: 10, value: 0xD8 });
    f.push(ParsingInstruction::Bit { name: FieldName::X });
    f.push(ParsingInstruction::Match { size: 5, value: 0 });
    f.push(ParsingInstruction::RegisterCrosspath { size: 5, name: FieldName::Src });
    f.push(ParsingInstruction::Match { size: 5, value: 0 });
    f.push(ParsingInstruction::ConditionalOperation { name: FieldName::Cond });
    proof {
        assert(f@ =~= spec_branch_reg_format());
    }
    f
}

/// The pointer-branch format (prefix 0x71) with a 3-bit selector for IRP or
/// NRP.  The side bit lies inside the matched prefix and is set, so the
/// decoded branch is on side B.
pub open spec fn spec_branch_ptr_format() -> Seq<ParsingInstruction> {
    seq![
        ParsingInstruction::Bit { name: FieldName::P },
        ParsingInstruction::Match { size: 17, value: 0x71 },
        ParsingInstruction::Unsigned { size: 3, name: FieldName::Op },
        ParsingInstruction::Match { size: 7, value: 0 },
        ParsingInstruction::ConditionalOperation { name: FieldName::Cond },
    ]
}

fn branch_ptr_format() -> (r: Vec<ParsingInstruction>)
    ensures
        r@ == spec_branch_ptr_format(),
{
    let mut f: Vec<ParsingInstruction> = Vec::new();
    f.push(ParsingInstruction::Bit { name: FieldName::P });
    f.push(ParsingInstruction::Match { size: 17, value: 0x71 });
    f.push(ParsingInstruction::Unsigned { size: 3, name: FieldName::Op });
    f.push(ParsingInstruction::Match { size: 7, value: 0 });
    f.push(ParsingInstruction::ConditionalOperation { name: FieldName::Cond });
    proof {
        assert(f@ =~= spec_branch_ptr_format());
    }
    f
}

/// The BNOP format with a 12-bit signed displacement and a 3-bit delay
/// count (prefix 0x48).
pub open spec fn spec_bnop_disp_format() -> Seq<ParsingInstruction> {
    seq![
        ParsingInstruction::Bit { name: FieldName::P },
        ParsingInstruction::Bit { name: FieldName::S },
        ParsingInstruction::Match { size: 11, value: 0x48 },
        ParsingInstruction::Unsigned { size: 3, name: FieldName::Nop },
        ParsingInstruction::Signed { size: 12, name: FieldName::Cst },
        ParsingInstruction::ConditionalOperation { name: FieldName::Cond },
    ]
}

fn bnop_disp_format() -> (r: Vec<ParsingInstruction>)
    ensures
        r@ == spec_bnop_disp_format(),
{
    let mut f: Vec<ParsingInstruction> = Vec::new();
    f.push(ParsingInstruction::Bit { name: FieldName::P });
    f.push(ParsingInstruction::Bit { name: FieldName::S });
    f.push(ParsingInstruction::Match { size: 11, value: 0x48 });
    f.push(ParsingInstruction::Unsigned { size: 3, name: FieldName::Nop });
    f.push(ParsingInstruction::Signed { size: 12, name: FieldName::Cst });
    f.push(ParsingInstruction::ConditionalOperation { name: FieldName::Cond });
    proof {
        assert(f@ =~= spec_bnop_disp_format());
    }
    f
}

/// The BNOP format with a register source (prefix 0xD8, side B).
pub open spec fn spec_bnop_reg_format() -> Seq<ParsingInstruction> {
    seq![
        ParsingInstruction::Bit { name: FieldName::P },
        ParsingInstruction::BitMatch { name: FieldName::S, value: true },
        ParsingInstruction::Match { size: 10, value: 0xD8 },
        ParsingInstruction::Bit { name: FieldName::X },
        ParsingInstruction::Unsigned { size: 3, name: FieldName::Nop },
        ParsingInstruction::Match { size: 2, value: 0 },
        ParsingInstruction::RegisterCrosspath { size: 5, name: FieldName::Src },
        ParsingInstruction::Match { size: 5, value: 1 },
        ParsingInstruction::ConditionalOperation { name: FieldName::Cond },
    ]
}

fn bnop_reg_format() -> (r: Vec<ParsingInstruction>)
    ensures
        r@ == spec_bnop_reg_format(),
{
    let mut f: Vec<ParsingInstruction> = Vec::new();
    f.push(ParsingInstruction::Bit { name: FieldName::P });
    f.push(ParsingInstruction::BitMatch { name: FieldName::S, value: true });
    f.push(ParsingInstruction::Match { size: 10, value: 0xD8 });
    f.push(ParsingInstruction::Bit { name: FieldName::X });
    f.push(ParsingInstruction::Unsigned { size: 3, name: FieldName::Nop });
    f.push(ParsingInstruction::Match { size: 2, value: 0 });
    f.push(ParsingInstruction::RegisterCrosspath { size: 5, name: FieldName::Src });
    f.push(ParsingInstruction::Match { size: 5, value: 1 });
    f.push(ParsingInstruction::ConditionalOperation { name: FieldName::Cond });
    proof {
        assert(f@ =~= spec_bnop_reg_format());
    }
    f
}

/// The side of a 32-bit branch: the extracted s bit, or side B for the
/// pointer-branch format whose matched prefix holds a set s bit.
pub open spec fn spec_branch_side(m: Map<FieldName, ParsedValue>) -> Result<bool, DecodeError> {
    if m.contains_key(FieldName::S) {
        spec_value_bool(m[FieldName::S])
    } else {
        Ok(true)
    }
}

/// The delay count of a 32-bit branch: the extracted nop field, or zero
/// when the format has none.
pub open spec fn spec_branch_nop(m: Map<FieldName, ParsedValue>) -> Result<u8, DecodeError> {
    if m.contains_key(FieldName::Nop) {
        spec_value_u8(m[FieldName::Nop])
    } else {
        Ok(0u8)
    }
}

/// The byte displacement of a PC-relative branch: the extracted word
/// offset, shifted left by one in compact context (a delay count present
/// and a header active) and by two otherwise.
pub open spec fn spec_branch_displacement(
    cst: i32,
    nop_count: u8,
    fphead_active: bool,
) -> i32 {
    if nop_count > 0 && fphead_active {
        crop_i32(cst as int * 2) as i32
    } else {
        crop_i32(cst as int * 4) as i32
    }
}

/// Whether the fields shared by every 32-bit branch format are usable.
pub open spec fn spec_branch32_base_ok(m: Map<FieldName, ParsedValue>) -> bool {
    &&& spec_get_bool(m, FieldName::P) is Ok
    &&& spec_branch_side(m) is Ok
    &&& spec_branch_nop(m) is Ok
    &&& spec_get_predicate(m, FieldName::Cond) is Ok
}

/// A 32-bit branch record from its decoded parts.
pub open spec fn spec_branch32_record(
    op: u32,
    m: Map<FieldName, ParsedValue>,
    branch_using: BranchUsing,
) -> BranchInstruction
    recommends
        spec_branch32_base_ok(m),
{
    BranchInstruction {
        instruction_data: InstructionData {
            opcode: op,
            compact: false,
            parallel: false,
            p_bit: spec_get_bool(m, FieldName::P)->Ok_0,
            conditional_operation: spec_get_predicate(m, FieldName::Cond)->Ok_0,
        },
        branch_using,
        side: spec_branch_side(m)->Ok_0,
        pce1_address: None,
        nop_count: spec_branch_nop(m)->Ok_0,
    }
}

/// What the displacement-based branch formats decode to.
pub open spec fn spec_branch32_disp_post(
    op: u32,
    m: Map<FieldName, ParsedValue>,
    fphead_active: bool,
) -> Result<BranchInstruction, DecodeError> {
    if spec_branch32_base_ok(m) && spec_get_i32(m, FieldName::Cst) is Ok {
        Ok(
            spec_branch32_record(
                op,
                m,
                BranchUsing::Displacement(
                    spec_branch_displacement(
                        spec_get_i32(m, FieldName::Cst)->Ok_0,
                        spec_branch_nop(m)->Ok_0,
                        fphead_active,
                    ),
                ),
            ),
        )
    } else {
        Err(DecodeError::Other)
    }
}

/// What the register-based branch formats decode to.
pub open spec fn spec_branch32_reg_post(op: u32, m: Map<FieldName, ParsedValue>) -> Result<
    BranchInstruction,
    DecodeError,
> {
    if spec_branch32_base_ok(m) && spec_get_register(m, FieldName::Src) is Ok {
        Ok(
            spec_branch32_record(
                op,
                m,
                BranchUsing::Register(spec_get_register(m, FieldName::Src)->Ok_0),
            ),
        )
    } else {
        Err(DecodeError::Other)
    }
}

/// The BNOP formats, tried after the first three: the displacement form,
/// then the register form.
pub open spec fn spec_branch_new_tail(op: u32, fphead_active: bool) -> Result<
    BranchInstruction,
    DecodeError,
> {
    match spec_parse(op, spec_bnop_disp_format()) {
        Ok(m) => spec_branch32_disp_post(op, m, fphead_active),
        Err(_) => match spec_parse(op, spec_bnop_reg_format()) {
            Ok(m) => spec_branch32_reg_post(op, m),
            Err(_) => Err(DecodeError::InvalidInput),
        },
    }
}

/// What decoding `op` as a 32-bit branch yields: the displacement,
/// register and pointer formats, then the two BNOP formats, tried in that
/// order.  A pointer branch whose selector is neither IRP (0b110) nor NRP
/// (0b111) falls through to the BNOP formats.
pub open spec fn spec_branch_new(op: u32, fphead_active: bool) -> Result<
    BranchInstruction,
    DecodeError,
> {
    match spec_parse(op, spec_branch_disp_format()) {
        Ok(m) => spec_branch32_disp_post(op, m, fphead_active),
        Err(_) => match spec_parse(op, spec_branch_reg_format()) {
            Ok(m) => spec_branch32_reg_post(op, m),
            Err(_) => match spec_parse(op, spec_branch_ptr_format()) {
                Ok(m) => if spec_branch32_base_ok(m) && spec_get_u8(m, FieldName::Op) is Ok {
                    if spec_get_u8(m, FieldName::Op)->Ok_0 == 0b110 {
                        Ok(
                            spec_branch32_record(
                                op,
                                m,
                                BranchUsing::Pointer(ControlRegister::IRP),
                            ),
                        )
                    } else if spec_get_u8(m, FieldName::Op)->Ok_0 == 0b111 {
                        Ok(
                            spec_branch32_record(
                                op,
                                m,
                                BranchUsing::Pointer(ControlRegister::NRP),
                            ),
                        )
                    } else {
                        spec_branch_new_tail(op, fphead_active)
                    }
                } else {
                    Err(DecodeError::Other)
                },
                Err(_) => spec_branch_new_tail(op, fphead_active),
            },
        },
    }
}

// Compact branch formats.

/// sbs7: a 7-bit signed displacement and a 3-bit delay count.
pub open spec fn spec_cb_sbs7_format() -> Seq<ParsingInstruction> {
    seq![
        ParsingInstruction::Bit { name: FieldName::S },
        ParsingInstruction::Match { size: 5, value: 0x5 },
        ParsingInstruction::Signed { size: 7, name: FieldName::Cst },
        ParsingInstruction::Unsigned { size: 3, name: FieldName::Nop },
    ]
}

fn cb_sbs7_format() -> (r: Vec<ParsingInstruction>)
    ensures
        r@ == spec_cb_sbs7_format(),
{
    let mut f: Vec<ParsingInstruction> = Vec::new();
    f.push(ParsingInstruction::Bit { name: FieldName::S });
    f.push(ParsingInstruction::Match { size: 5, value: 0x5 });
    f.push(ParsingInstruction::Signed { size: 7, name: FieldName::Cst });
    f.push(ParsingInstruction::Unsigned { size: 3, name: FieldName::Nop });
    proof {
        assert(f@ =~= spec_cb_sbs7_format());
    }
    f
}

/// sbu8: an 8-bit unsigned displacement.
pub open spec fn spec_cb_sbu8_format() -> Seq<ParsingInstruction> {
    seq![
        ParsingInstruction::Bit { name: FieldName::S },
        ParsingInstruction::Match { size: 5, value: 0x5 },
        ParsingInstruction::Unsigned { size: 8, name: FieldName::Cst },
        ParsingInstruction::Match { size: 2, value: 0b11 },
    ]
}

fn cb_sbu8_format() -> (r: Vec<ParsingInstruction>)
    ensures
        r@ == spec_cb_sbu8_format(),
{
    let mut f: Vec<ParsingInstruction> = Vec::new();
    f.push(ParsingInstruction::Bit { name: FieldName::S });
    f.push(ParsingInstruction::Match { size: 5, value: 0x5 });
    f.push(ParsingInstruction::Unsigned { size: 8, name: FieldName::Cst });
    f.push(ParsingInstruction::Match { size: 2, value: 0b11 });
    proof {
        assert(f@ =~= spec_cb_sbu8_format());
    }
    f
}

/// scs10: a 10-bit signed displacement; decodes as CALLP.
pub open spec fn spec_cb_scs10_format() -> Seq<ParsingInstruction> {
    seq![
        ParsingInstruction::Bit { name: FieldName::S },
        ParsingInstruction::Match { size: 5, value: 0xD },
        ParsingInstruction::Signed { size: 10, name: FieldName::Cst },
    ]
}

fn cb_scs10_format() -> (r: Vec<ParsingInstruction>)
    ensures
        r@ == spec_cb_scs10_format(),
{
    let mut f: Vec<ParsingInstruction> = Vec::new();
    f.push(ParsingInstruction::Bit { name: FieldName::S });
    f.push(ParsingInstruction::Match { size: 5, value: 0xD });
    f.push(ParsingInstruction::Signed { size: 10, name: FieldName::Cst });
    proof {
        assert(f@ =~= spec_cb_scs10_format());
    }
    f
}

/// sbs7c: sbs7 with a zero-test bit on register 0 of the branch side.
pub open spec fn spec_cb_sbs7c_format() -> Seq<ParsingInstruction> {
    seq![
        ParsingInstruction::Bit { name: FieldName::S },
        ParsingInstruction::Match { size: 3, value: 0x5 },
        ParsingInstruction::Bit { name: FieldName::Z },
        ParsingInstruction::Match { size: 1, value: 1 },
        ParsingInstruction::Signed { size: 7, name: FieldName::Cst },
        ParsingInstruction::Unsigned { size: 3, name: FieldName::Nop },
    ]
}

fn cb_sbs7c_format() -> (r: Vec<ParsingInstruction>)
    ensures
        r@ == spec_cb_sbs7c_format(),
{
    let mut f: Vec<ParsingInstruction> = Vec::new();
    f.push(ParsingInstruction::Bit { name: FieldName::S });
    f.push(ParsingInstruction::Match { size: 3, value: 0x5 });
    f.push(ParsingInstruction::Bit { name: FieldName::Z });
    f.push(ParsingInstruction::Match { size: 1, value: 1 });
    f.push(ParsingInstruction::Signed { size: 7, name: FieldName::Cst });
    f.push(ParsingInstruction::Unsigned { size: 3, name: FieldName::Nop });
    proof {
        assert(f@ =~= spec_cb_sbs7c_format());
    }
    f
}

/// sbu8c: sbu8 with a zero-test bit on register 0 of the branch side.
pub open spec fn spec_cb_sbu8c_format() -> Seq<ParsingInstruction> {
    seq![
        ParsingInstruction::Bit { name: FieldName::S },
        ParsingInstruction::Match { size: 3, value: 0x5 },
        ParsingInstruction::Bit { name: FieldName::Z },
        ParsingInstruction::Match { size: 1, value: 1 },
        ParsingInstruction::Unsigned { size: 8, name: FieldName::Cst },
        ParsingInstruction::Match { size: 2, value: 0b11 },
    ]
}

fn cb_sbu8c_format() -> (r: Vec<ParsingInstruction>)
    ensures
        r@ == spec_cb_sbu8c_format(),
{
    let mut f: Vec<ParsingInstruction> = Vec::new();
    f.push(ParsingInstruction::Bit { name: FieldName::S });
    f.push(ParsingInstruction::Match { size: 3, value: 0x5 });
    f.push(ParsingInstruction::Bit { name: FieldName::Z });
    f.push(ParsingInstruction::Match { size: 1, value: 1 });
    f.push(ParsingInstruction::Unsigned { size: 8, name: FieldName::Cst });
    f.push(ParsingInstruction::Match { size: 2, value: 0b11 });
    proof {
        assert(f@ =~= spec_cb_sbu8c_format());
    }
    f
}

/// sx1b: a register-source compact branch restricted to B0..B15.
pub open spec fn spec_cb_sx1b_format() -> Seq<ParsingInstruction> {
    seq![
        ParsingInstruction::Bit { name: FieldName::S },
        ParsingInstruction::Match { size: 6, value: 0x37 },
        ParsingInstruction::Unsigned { size: 4, name: FieldName::Src },
        ParsingInstruction::Match { size: 2, value: 0 },
        ParsingInstruction::Unsigned { size: 3, name: FieldName::Nop },
    ]
}

fn cb_sx1b_format() -> (r: Vec<ParsingInstruction>)
    ensures
        r@ == spec_cb_sx1b_format(),
{
    let mut f: Vec<ParsingInstruction> = Vec::new();
    f.push(ParsingInstruction::Bit { name: FieldName::S });
    f.push(ParsingInstruction::Match { size: 6, value: 0x37 });
    f.push(ParsingInstruction::Unsigned { size: 4, name: FieldName::Src });
    f.push(ParsingInstruction::Match { size: 2, value: 0 });
    f.push(ParsingInstruction::Unsigned { size: 3, name: FieldName::Nop });
    proof {
        assert(f@ =~= spec_cb_sx1b_format());
    }
    f
}

/// A compact branch record from its decoded parts.
pub open spec fn spec_cbranch_record(
    op: u32,
    side: bool,
    branch_using: BranchUsing,
    nop_count: u8,
    predicate: Option<ConditionalOperation>,
) -> BranchInstruction {
    BranchInstruction {
        instruction_data: InstructionData {
            opcode: op,
            compact: true,
            parallel: false,
            p_bit: false,
            conditional_operation: predicate,
        },
        branch_using,
        side,
        pce1_address: None,
        nop_count,
    }
}

/// The delay count of a compact branch: the extracted field capped at 5.
pub open spec fn spec_cb_capped_nop(n: u8) -> u8 {
    if n > 5 {
        5u8
    } else {
        n
    }
}

/// The zero-test predicate of the conditional compact branches: register 0
/// of the branch side, tested for zero when z is set.
pub open spec fn spec_cb_predicate(z: bool, side: bool) -> Option<ConditionalOperation> {
    if z {
        Some(ConditionalOperation::Zero(spec_register_from(0, side)))
    } else {
        Some(ConditionalOperation::NonZero(spec_register_from(0, side)))
    }
}

/// What decoding `op` as a compact branch yields once a header with BR set
/// is active: sbs7, sbu8, scs10, sbs7c, sbu8c and sx1b, tried in order.
pub open spec fn spec_branch_new_compact_forms(op: u32) -> Result<BranchInstruction, DecodeError> {
    match spec_parse(op, spec_cb_sbs7_format()) {
        Ok(m) => if spec_get_bool(m, FieldName::S) is Ok && spec_get_i32(m, FieldName::Cst)
            is Ok && spec_get_u8(m, FieldName::Nop) is Ok {
            Ok(
                spec_cbranch_record(
                    op,
                    spec_get_bool(m, FieldName::S)->Ok_0,
                    BranchUsing::Displacement(
                        crop_i32(spec_get_i32(m, FieldName::Cst)->Ok_0 as int * 2) as i32,
                    ),
                    spec_cb_capped_nop(spec_get_u8(m, FieldName::Nop)->Ok_0),
                    None,
                ),
            )
        } else {
            Err(DecodeError::Other)
        },
        Err(_) => match spec_parse(op, spec_cb_sbu8_format()) {
            Ok(m) => if spec_get_bool(m, FieldName::S) is Ok && spec_get_u8(m, FieldName::Cst)
                is Ok {
                Ok(
                    spec_cbranch_record(
                        op,
                        spec_get_bool(m, FieldName::S)->Ok_0,
                        BranchUsing::Displacement(
                            (spec_get_u8(m, FieldName::Cst)->Ok_0 * 2) as i32,
                        ),
                        5,
                        None,
                    ),
                )
            } else {
                Err(DecodeError::Other)
            },
            Err(_) => match spec_parse(op, spec_cb_scs10_format()) {
                Ok(m) => if spec_get_bool(m, FieldName::S) is Ok && spec_get_i32(
                    m,
                    FieldName::Cst,
                ) is Ok {
                    Ok(
                        spec_cbranch_record(
                            op,
                            spec_get_bool(m, FieldName::S)->Ok_0,
                            BranchUsing::Displacement(
                                crop_i32(spec_get_i32(m, FieldName::Cst)->Ok_0 as int * 4) as i32,
                            ),
                            5,
                            Some(ConditionalOperation::ReservedLow),
                        ),
                    )
                } else {
                    Err(DecodeError::Other)
                },
                Err(_) => match spec_parse(op, spec_cb_sbs7c_format()) {
                    Ok(m) => if spec_get_bool(m, FieldName::S) is Ok && spec_get_bool(
                        m,
                        FieldName::Z,
                    ) is Ok && spec_get_i32(m, FieldName::Cst) is Ok && spec_get_u8(
                        m,
                        FieldName::Nop,
                    ) is Ok {
                        Ok(
                            spec_cbranch_record(
                                op,
                                spec_get_bool(m, FieldName::S)->Ok_0,
                                BranchUsing::Displacement(
                                    crop_i32(
                                        spec_get_i32(m, FieldName::Cst)->Ok_0 as int * 2,
                                    ) as i32,
                                ),
                                spec_cb_capped_nop(spec_get_u8(m, FieldName::Nop)->Ok_0),
                                spec_cb_predicate(
                                    spec_get_bool(m, FieldName::Z)->Ok_0,
                                    spec_get_bool(m, FieldName::S)->Ok_0,
                                ),
                            ),
                        )
                    } else {
                        Err(DecodeError::Other)
                    },
                    Err(_) => match spec_parse(op, spec_cb_sbu8c_format()) {
                        Ok(m) => if spec_get_bool(m, FieldName::S) is Ok && spec_get_bool(
                            m,
                            FieldName::Z,
                        ) is Ok && spec_get_u8(m, FieldName::Cst) is Ok {
                            Ok(
                                spec_cbranch_record(
                                    op,
                                    spec_get_bool(m, FieldName::S)->Ok_0,
                                    BranchUsing::Displacement(
                                        (spec_get_u8(m, FieldName::Cst)->Ok_0 * 2) as i32,
                                    ),
                                    5,
                                    spec_cb_predicate(
                                        spec_get_bool(m, FieldName::Z)->Ok_0,
                                        spec_get_bool(m, FieldName::S)->Ok_0,
                                    ),
                                ),
                            )
                        } else {
                            Err(DecodeError::Other)
                        },
                        Err(_) => match spec_parse(op, spec_cb_sx1b_format()) {
                            Ok(m) => if spec_get_bool(m, FieldName::S) is Ok && spec_get_u8(
                                m,
                                FieldName::Src,
                            ) is Ok && spec_get_u8(m, FieldName::Nop) is Ok {
                                Ok(
                                    spec_cbranch_record(
                                        op,
                                        spec_get_bool(m, FieldName::S)->Ok_0,
                                        BranchUsing::Register(
                                            Register::B(spec_get_u8(m, FieldName::Src)->Ok_0),
                                        ),
                                        spec_cb_capped_nop(spec_get_u8(m, FieldName::Nop)->Ok_0),
                                        None,
                                    ),
                                )
                            } else {
                                Err(DecodeError::Other)
                            },
                            Err(_) => Err(DecodeError::InvalidInput),
                        },
                    },
                },
            },
        },
    }
}

/// What decoding `op` as a compact branch yields: nothing without an
/// active header, nothing when its BR bit is clear, else the six compact
/// formats.
pub open spec fn spec_branch_new_compact(
    op: u32,
    fphead: Option<CompactInstructionHeader>,
) -> Result<BranchInstruction, DecodeError> {
    match fphead {
        None => Err(DecodeError::InvalidInput),
        Some(h) => if !h.decode_compact_branches {
            Err(DecodeError::InvalidInput)
        } else {
            spec_branch_new_compact_forms(op)
        },
    }
}

impl BranchInstruction {
    /// Stores the PCE1 base address a displacement renders against.
    pub fn set_pce1_address(&mut self, address: u32)
        ensures
            *final(self) == (BranchInstruction { pce1_address: Some(address), ..*old(self) }),
    {
        self.pce1_address = Some(address);
    }

    fn post_disp(input: &InstructionInput, vars: &ParsedVariables) -> (r: Result<
        Self,
        DecodeError,
    >)
        ensures
            r == spec_branch32_disp_post(input.opcode, vars@, input.fphead is Some),
    {
        let p_bit = match get_bool_field(vars, FieldName::P) {
            Ok(b) => b,
            Err(_) => {
                return Err(DecodeError::Other);
            },
        };
        let side = match vars.get(FieldName::S) {
            Some(v) => match v.get_bool() {
                Ok(b) => b,
                Err(_) => {
                    return Err(DecodeError::Other);
                },
            },
            None => true,
        };
        let conditional_operation = match get_predicate_field(vars, FieldName::Cond) {
            Ok(c) => c,
            Err(_) => {
                return Err(DecodeError::Other);
            },
        };
        let nop_count = match vars.get(FieldName::Nop) {
            Some(v) => match v.get_u8() {
                Ok(n) => n,
                Err(_) => {
                    return Err(DecodeError::Other);
                },
            },
            None => 0,
        };
        let cst = match get_i32_field(vars, FieldName::Cst) {
            Ok(c) => c,
            Err(_) => {
                return Err(DecodeError::Other);
            },
        };
        let factor: u32 = if nop_count > 0 && input.fphead.is_some() {
            2
        } else {
            4
        };
        let displacement = mul_wrap_i32(cst, factor);
        Ok(
            BranchInstruction {
                instruction_data: InstructionData {
                    opcode: input.opcode,
                    compact: false,
                    parallel: false,
                    p_bit,
                    conditional_operation,
                },
                branch_using: BranchUsing::Displacement(displacement),
                side,
                pce1_address: None,
                nop_count,
            },
        )
    }

    fn post_reg(input: &InstructionInput, vars: &ParsedVariables) -> (r: Result<
        Self,
        DecodeError,
    >)
        ensures
            r == spec_branch32_reg_post(input.opcode, vars@),
    {
        let p_bit = match get_bool_field(vars, FieldName::P) {
            Ok(b) => b,
            Err(_) => {
                return Err(DecodeError::Other);
            },
        };
        let side = match vars.get(FieldName::S) {
            Some(v) => match v.get_bool() {
                Ok(b) => b,
                Err(_) => {
                    return Err(DecodeError::Other);
                },
            },
            None => true,
        };
        let conditional_operation = match get_predicate_field(vars, FieldName::Cond) {
            Ok(c) => c,
            Err(_) => {
                return Err(DecodeError::Other);
            },
        };
        let nop_count = match vars.get(FieldName::Nop) {
            Some(v) => match v.get_u8() {
                Ok(n) => n,
                Err(_) => {
                    return Err(DecodeError::Other);
                },
            },
            None => 0,
        };
        let source = match get_register_field(vars, FieldName::Src) {
            Ok(x) => x,
            Err(_) => {
                return Err(DecodeError::Other);
            },
        };
        Ok(
            BranchInstruction {
                instruction_data: InstructionData {
                    opcode: input.opcode,
                    compact: false,
                    parallel: false,
                    p_bit,
                    conditional_operation,
                },
                branch_using: BranchUsing::Register(source),
                side,
                pce1_address: None,
                nop_count,
            },
        )
    }

    fn new_tail(input: &InstructionInput) -> (r: Result<Self, DecodeError>)
        ensures
            r == spec_branch_new_tail(input.opcode, input.fphead is Some),
    {
        let format = bnop_disp_format();
        match parse(input.opcode, format.as_slice()) {
            Ok(vars) => {
                return Self::post_disp(input, &vars);
            },
            Err(_) => {},
        }
        let format = bnop_reg_format();
        match parse(input.opcode, format.as_slice()) {
            Ok(vars) => {
                return Self::post_reg(input, &vars);
            },
            Err(_) => {},
        }
        Err(DecodeError::InvalidInput)
    }

    /// Decodes a 32-bit branch, trying the displacement, register and
    /// pointer formats and then the two BNOP formats.
    pub fn new(input: &InstructionInput) -> (r: Result<Self, DecodeError>)
        ensures
            r == spec_branch_new(input.opcode, input.fphead is Some),
            r is Ok ==> r->Ok_0.instruction_data.opcode == input.opcode,
            r is Ok ==> !r->Ok_0.instruction_data.compact,
    {
        let format = branch_disp_format();
        match parse(input.opcode, format.as_slice()) {
            Ok(vars) => {
                return Self::post_disp(input, &vars);
            },
            Err(_) => {},
        }
        let format = branch_reg_format();
        match parse(input.opcode, format.as_slice()) {
            Ok(vars) => {
                return Self::post_reg(input, &vars);
            },
            Err(_) => {},
        }
        let format = branch_ptr_format();
        match parse(input.opcode, format.as_slice()) {
            Ok(vars) => {
                let p_bit = match get_bool_field(&vars, FieldName::P) {
                    Ok(b) => b,
                    Err(_) => {
                        return Err(DecodeError::Other);
                    },
                };
                let side = match vars.get(FieldName::S) {
                    Some(v) => match v.get_bool() {
                        Ok(b) => b,
                        Err(_) => {
                            return Err(DecodeError::Other);
                        },
                    },
                    None => true,
                };
                let conditional_operation = match get_predicate_field(&vars, FieldName::Cond) {
                    Ok(c) => c,
                    Err(_) => {
                        return Err(DecodeError::Other);
                    },
                };
                let nop_count = match vars.get(FieldName::Nop) {
                    Some(v) => match v.get_u8() {
                        Ok(n) => n,
                        Err(_) => {
                            return Err(DecodeError::Other);
                        },
                    },
                    None => 0,
                };
                let selector = match get_u8_field(&vars, FieldName::Op) {
                    Ok(o) => o,
                    Err(_) => {
                        return Err(DecodeError::Other);
                    },
                };
                let pointer = match selector {
                    0b110 => ControlRegister::IRP,
                    0b111 => ControlRegister::NRP,
                    _ => {
                        return Self::new_tail(input);
                    },
                };
                return Ok(
                    BranchInstruction {
                        instruction_data: InstructionData {
                            opcode: input.opcode,
                            compact: false,
                            parallel: false,
                            p_bit,
                            conditional_operation,
                        },
                        branch_using: BranchUsing::Pointer(pointer),
                        side,
                        pce1_address: None,
                        nop_count,
                    },
                );
            },
            Err(_) => {},
        }
        Self::new_tail(input)
    }

    /// Decodes a compact (16-bit) branch; refuses without an active header
    /// or when the header's BR bit is clear.
    pub fn new_compact(input: &InstructionInput) -> (r: Result<Self, DecodeError>)
        ensures
            r == spec_branch_new_compact(input.opcode, input.fphead),
            r is Ok ==> r->Ok_0.instruction_data.opcode == input.opcode,
            r is Ok ==> r->Ok_0.instruction_data.compact,
    {
        let h = match &input.fphead {
            Some(h) => h,
            None => {
                return Err(DecodeError::InvalidInput);
            },
        };
        if !h.decode_compact_branches {
            return Err(DecodeError::InvalidInput);
        }
        let op = input.opcode;
        let format = cb_sbs7_format();
        match parse(op, format.as_slice()) {
            Ok(vars) => {
                let side = match get_bool_field(&vars, FieldName::S) {
                    Ok(b) => b,
                    Err(_) => {
                        return Err(DecodeError::Other);
                    },
                };
                let cst = match get_i32_field(&vars, FieldName::Cst) {
                    Ok(c) => c,
                    Err(_) => {
                        return Err(DecodeError::Other);
                    },
                };
                let nop = match get_u8_field(&vars, FieldName::Nop) {
                    Ok(n) => n,
                    Err(_) => {
                        return Err(DecodeError::Other);
                    },
                };
                return Ok(
                    Self::compact_record(
                        op,
                        side,
                        BranchUsing::Displacement(mul_wrap_i32(cst, 2)),
                        if nop > 5 {
                            5
                        } else {
                            nop
                        },
                        None,
                    ),
                );
            },
            Err(_) => {},
        }
        let format = cb_sbu8_format();
        match parse(op, format.as_slice()) {
            Ok(vars) => {
                let side = match get_bool_field(&vars, FieldName::S) {
                    Ok(b) => b,
                    Err(_) => {
                        return Err(DecodeError::Other);
                    },
                };
                let cst = match get_u8_field(&vars, FieldName::Cst) {
                    Ok(c) => c,
                    Err(_) => {
                        return Err(DecodeError::Other);
                    },
                };
                return Ok(
                    Self::compact_record(
                        op,
                        side,
                        BranchUsing::Displacement((cst as i32) * 2),
                        5,
                        None,
                    ),
                );
            },
            Err(_) => {},
        }
        let format = cb_scs10_format();
        match parse(op, format.as_slice()) {
            Ok(vars) => {
                let side = match get_bool_field(&vars, FieldName::S) {
                    Ok(b) => b,
                    Err(_) => {
                        return Err(DecodeError::Other);
                    },
                };
                let cst = match get_i32_field(&vars, FieldName::Cst) {
                    Ok(c) => c,
                    Err(_) => {
                        return Err(DecodeError::Other);
                    },
                };
                return Ok(
                    Self::compact_record(
                        op,
                        side,
                        BranchUsing::Displacement(mul_wrap_i32(cst, 4)),
                        5,
                        Some(ConditionalOperation::ReservedLow),
                    ),
                );
            },
            Err(_) => {},
        }
        let format = cb_sbs7c_format();
        match parse(op, format.as_slice()) {
            Ok(vars) => {
                let side = match get_bool_field(&vars, FieldName::S) {
                    Ok(b) => b,
                    Err(_) => {
                        return Err(DecodeError::Other);
                    },
                };
                let z = match get_bool_field(&vars, FieldName::Z) {
                    Ok(b) => b,
                    Err(_) => {
                        return Err(DecodeError::Other);
                    },
                };
                let cst = match get_i32_field(&vars, FieldName::Cst) {
                    Ok(c) => c,
                    Err(_) => {
                        return Err(DecodeError::Other);
                    },
                };
                let nop = match get_u8_field(&vars, FieldName::Nop) {
                    Ok(n) => n,
                    Err(_) => {
                        return Err(DecodeError::Other);
                    },
                };
                return Ok(
                    Self::compact_record(
                        op,
                        side,
                        BranchUsing::Displacement(mul_wrap_i32(cst, 2)),
                        if nop > 5 {
                            5
                        } else {
                            nop
                        },
                        Self::zero_test(z, side),
                    ),
                );
            },
            Err(_) => {},
        }
        let format = cb_sbu8c_format();
        match parse(op, format.as_slice()) {
            Ok(vars) => {
                let side = match get_bool_field(&vars, FieldName::S) {
                    Ok(b) => b,
                    Err(_) => {
                        return Err(DecodeError::Other);
                    },
                };
                let z = match get_bool_field(&vars, FieldName::Z) {
                    Ok(b) => b,
                    Err(_) => {
                        return Err(DecodeError::Other);
                    },
                };
                let cst = match get_u8_field(&vars, FieldName::Cst) {
                    Ok(c) => c,
                    Err(_) => {
                        return Err(DecodeError::Other);
                    },
                };
                return Ok(
                    Self::compact_record(
                        op,
                        side,
                        BranchUsing::Displacement((cst as i32) * 2),
                        5,
                        Self::zero_test(z, side),
                    ),
                );
            },
            Err(_) => {},
        }
        let format = cb_sx1b_format();
        match parse(op, format.as_slice()) {
            Ok(vars) => {
                let side = match get_bool_field(&vars, FieldName::S) {
                    Ok(b) => b,
                    Err(_) => {
                        return Err(DecodeError::Other);
                    },
                };
                let src = match get_u8_field(&vars, FieldName::Src) {
                    Ok(n) => n,
                    Err(_) => {
                        return Err(DecodeError::Other);
                    },
                };
                let nop = match get_u8_field(&vars, FieldName::Nop) {
                    Ok(n) => n,
                    Err(_) => {
                        return Err(DecodeError::Other);
                    },
                };
                return Ok(
                    Self::compact_record(
                        op,
                        side,
                        BranchUsing::Register(Register::B(src)),
                        if nop > 5 {
                            5
                        } else {
                            nop
                        },
                        None,
                    ),
                );
            },
            Err(_) => {},
        }
        Err(DecodeError::InvalidInput)
    }

    fn compact_record(
        op: u32,
        side: bool,
        branch_using: BranchUsing,
        nop_count: u8,
        predicate: Option<ConditionalOperation>,
    ) -> (r: Self)
        ensures
            r == spec_cbranch_record(op, side, branch_using, nop_count, predicate),
    {
        BranchInstruction {
            instruction_data: InstructionData {
                opcode: op,
                compact: true,
                parallel: false,
                p_bit: false,
                conditional_operation: predicate,
            },
            branch_using,
            side,
            pce1_address: None,
            nop_count,
        }
    }

    fn zero_test(z: bool, side: bool) -> (r: Option<ConditionalOperation>)
        ensures
            r == spec_cb_predicate(z, side),
    {
        if z {
            Some(ConditionalOperation::Zero(Register::from(0, side)))
        } else {
            Some(ConditionalOperation::NonZero(Register::from(0, side)))
        }
    }

    /// The mnemonic without unit suffix: "CALLP" for the ReservedLow
    /// predicate, else "BNOP" with a delay count, else "B".
    pub fn instruction_clean(&self) -> (s: String)
        ensures
            s@ == spec_branch_instruction_clean(*self),
    {
        if self.instruction_data.conditional_operation == Some(
            ConditionalOperation::ReservedLow,
        ) {
            String::from_str("CALLP")
        } else if self.nop_count > 0 {
            String::from_str("BNOP")
        } else {
            String::from_str("B")
        }
    }

    /// The full mnemonic, e.g. "B.S1" or "BNOP.S2X".
    pub fn instruction(&self) -> (s: String)
        ensures
            s@ == spec_branch_instruction_string(*self),
    {
        let mut s = self.instruction_clean();
        s.append(".S");
        if self.side {
            s.append("2");
        } else {
            s.append("1");
        }
        let crossed = match self.branch_using {
            BranchUsing::Register(register) => register.side() != self.side,
            _ => false,
        };
        if crossed {
            s.append("X");
        }
        proof {
            assert(s@ =~= spec_branch_instruction_string(*self));
        }
        s
    }

    /// The operand list: the absolute target for a displacement (or an
    /// error marker while the PCE1 base is unset), the register or pointer
    /// name otherwise; CALLP appends its return register and BNOP its
    /// delay count.
    pub fn operands(&self) -> (s: String)
        ensures
            s@ == spec_branch_operands(*self),
    {
        let base = match self.branch_using {
            BranchUsing::Displacement(displacement) => {
                let displacement_abs = abs_u32(displacement);
                let address = match self.pce1_address {
                    Some(a) => a,
                    None => {
                        return String::from_str("ERROR - PCE1 ADDRESS EMPTY");
                    },
                };
                let branch_address = if displacement > 0 {
                    wrapping_add_u32(address, displacement_abs)
                } else {
                    wrapping_sub_u32(address, displacement_abs)
                };
                let mut s = String::from_str("0x");
                s.append(hex_string_u32(branch_address, 8).as_str());
                s.append(" (PCE1");
                if displacement > 0 {
                    s.append("+");
                } else {
                    s.append("-");
                }
                s.append("0x");
                s.append(hex_string_u32(displacement_abs, 8).as_str());
                s.append(")");
                s
            },
            BranchUsing::Register(register) => register.to_string(),
            BranchUsing::Pointer(register) => register.to_string(),
        };
        let mut s = base;
        if self.instruction_data.conditional_operation == Some(
            ConditionalOperation::ReservedLow,
        ) {
            s.append(", ");
            s.append(Register::from(3, self.side).to_string().as_str());
        } else if self.nop_count > 0 {
            s.append(", ");
            s.append(dec_string_u32(self.nop_count as u32).as_str());
        }
        proof {
            assert(s@ =~= spec_branch_operands(*self));
        }
        s
    }
}

/// The branch mnemonic without unit suffix.
pub open spec fn spec_branch_instruction_clean(i: BranchInstruction) -> Seq<char> {
    if i.instruction_data.conditional_operation == Some(ConditionalOperation::ReservedLow) {
        "CALLP"@
    } else if i.nop_count > 0 {
        "BNOP"@
    } else {
        "B"@
    }
}

/// The full branch mnemonic: the clean name, ".S1" or ".S2", and "X" for a
/// register target on the other side.
pub open spec fn spec_branch_instruction_string(i: BranchInstruction) -> Seq<char> {
    spec_branch_instruction_clean(i) + ".S"@ + (if i.side {
        "2"@
    } else {
        "1"@
    }) + (if (i.branch_using matches BranchUsing::Register(r) && spec_register_side(r) != i.side) {
        "X"@
    } else {
        Seq::<char>::empty()
    })
}

/// The target part of the branch operand list.
pub open spec fn spec_branch_target_string(i: BranchInstruction) -> Seq<char> {
    match i.branch_using {
        BranchUsing::Displacement(d) => match i.pce1_address {
            None => "ERROR - PCE1 ADDRESS EMPTY"@,
            Some(a) => "0x"@ + spec_hex(wrap_add(a, d as int), 8) + " (PCE1"@ + (if d > 0 {
                "+"@
            } else {
                "-"@
            }) + "0x"@ + spec_hex(
                if d >= 0 {
                    d as nat
                } else {
                    (-(d as int)) as nat
                },
                8,
            ) + ")"@,
        },
        BranchUsing::Register(r) => spec_register_string(r),
        BranchUsing::Pointer(cr) => spec_control_register_string(cr),
    }
}

/// The full branch operand list: the target, then the CALLP return
/// register or the BNOP delay count.  While the PCE1 base of a
/// displacement is unset, only the error marker is printed.
pub open spec fn spec_branch_operands(i: BranchInstruction) -> Seq<char> {
    if (i.branch_using matches BranchUsing::Displacement(_)) && i.pce1_address is None {
        "ERROR - PCE1 ADDRESS EMPTY"@
    } else {
        spec_branch_target_string(i) + (if i.instruction_data.conditional_operation == Some(
            ConditionalOperation::ReservedLow,
        ) {
            ", "@ + spec_register_string(spec_register_from(3, i.side))
        } else if i.nop_count > 0 {
            ", "@ + spec_dec(i.nop_count as nat)
        } else {
            Seq::<char>::empty()
        })
    }
}

/// A rendered displacement target is the PCE1 base plus the displacement
/// in unsigned modular 32-bit arithmetic: the hexadecimal address at the
/// head of the operand list reads `(pce1 + displacement) mod 2^32`.
pub proof fn lemma_branch_target_is_modular_sum(i: BranchInstruction, a: u32, d: i32)
    requires
        i.branch_using == BranchUsing::Displacement(d),
        i.pce1_address == Some(a),
    ensures
        wrap_add(a, d as int) == ((a + d) % 0x1_0000_0000) as nat,
        spec_branch_target_string(i) == "0x"@ + spec_hex(((a + d) % 0x1_0000_0000) as nat, 8)
            + " (PCE1"@ + (if d > 0 {
            "+"@
        } else {
            "-"@
        }) + "0x"@ + spec_hex(
            if d >= 0 {
                d as nat
            } else {
                (-(d as int)) as nat
            },
            8,
        ) + ")"@,
{
}

/// For a plain displacement branch (no delay count, no CALLP predicate)
/// the whole operand list is the modular target: nothing follows the
/// closing parenthesis.
pub proof fn lemma_branch_operands_exact_target(i: BranchInstruction, a: u32, d: i32)
    requires
        i.branch_using == BranchUsing::Displacement(d),
        i.pce1_address == Some(a),
        i.nop_count == 0,
        i.instruction_data.conditional_operation != Some(ConditionalOperation::ReservedLow),
    ensures
        spec_branch_operands(i) == "0x"@ + spec_hex(((a + d) % 0x1_0000_0000) as nat, 8)
            + " (PCE1"@ + (if d > 0 {
            "+"@
        } else {
            "-"@
        }) + "0x"@ + spec_hex(
            if d >= 0 {
                d as nat
            } else {
                (-(d as int)) as nat
            },
            8,
        ) + ")"@,
{
    lemma_branch_target_is_modular_sum(i, a, d);
    assert(spec_branch_operands(i) =~= spec_branch_target_string(i));
}

} // verus!
