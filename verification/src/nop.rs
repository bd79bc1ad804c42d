//! The NOP/IDLE family: an all-zero word with a 4-bit cycle-count field, or
//! the compact 16-bit form with a 3-bit count.

use vstd::prelude::*;
use vstd::string::StringExecFns;
use crate::error::DecodeError;
use crate::instruction::{InstructionData, InstructionInput};
use crate::strings::{spec_dec, dec_string_u32};
use crate::parser::{
    FieldName,
    ParsingInstruction,
    ParsedVariable,
    ParsedValue,
    parse,
    spec_parse,
    spec_get,
    spec_value_bool,
    spec_value_u8,
};

verus! {

/// A decoded NOP or IDLE instruction.
#[derive(Clone, Copy, Debug)]
pub struct NOPInstruction {
    /// The raw count field: 0b1111 means IDLE, a positive count renders as
    /// "NOP count+1", zero as a bare NOP.
    pub count: u8,
    pub instruction_data: InstructionData,
}

/// The 32-bit NOP format: the p bit, twelve zero bits, the 4-bit count, and
/// fifteen zero bits.
pub open spec fn spec_nop_format() -> Seq<ParsingInstruction> {
    seq![
        ParsingInstruction::Bit { name: FieldName::P },
        ParsingInstruction::Match { size: 12, value: 0 },
        ParsingInstruction::Unsigned { size: 4, name: FieldName::Src },
        ParsingInstruction::Match { size: 15, value: 0 },
    ]
}

fn nop_format() -> (r: Vec<ParsingInstruction>)
    ensures
        r@ == spec_nop_format(),
{
    let mut f: Vec<ParsingInstruction> = Vec::new();
    f.push(ParsingInstruction::Bit { name: FieldName::P });
    f.push(ParsingInstruction::Match { size: 12, value: 0 });
    f.push(ParsingInstruction::Unsigned { size: 4, name: FieldName::Src });
    f.push(ParsingInstruction::Match { size: 15, value: 0 });
    proof {
        assert(f@ =~= spec_nop_format());
    }
    f
}

/// The compact NOP format: the fixed 13-bit prefix 0xC6E and a 3-bit count.
pub open spec fn spec_nop_compact_format() -> Seq<ParsingInstruction> {
    seq![
        ParsingInstruction::Match { size: 13, value: 0xC6E },
        ParsingInstruction::Unsigned { size: 3, name: FieldName::N3 },
    ]
}

fn nop_compact_format() -> (r: Vec<ParsingInstruction>)
    ensures
        r@ == spec_nop_compact_format(),
{
    let mut f: Vec<ParsingInstruction> = Vec::new();
    f.push(ParsingInstruction::Match { size: 13, value: 0xC6E });
    f.push(ParsingInstruction::Unsigned { size: 3, name: FieldName::N3 });
    proof {
        assert(f@ =~= spec_nop_compact_format());
    }
    f
}

/// What decoding `op` as a 32-bit NOP/IDLE yields.
pub open spec fn spec_nop_new(op: u32) -> Result<NOPInstruction, DecodeError> {
    match spec_parse(op, spec_nop_format()) {
        Err(_) => Err(DecodeError::InvalidInput),
        Ok(m) => {
            let p = spec_get(m, FieldName::P);
            let count = spec_get(m, FieldName::Src);
            if p is Ok && spec_value_bool(p->Ok_0) is Ok && count is Ok && spec_value_u8(
                count->Ok_0,
            ) is Ok {
                Ok(
                    NOPInstruction {
                        count: spec_value_u8(count->Ok_0)->Ok_0,
                        instruction_data: InstructionData {
                            opcode: op,
                            compact: false,
                            parallel: false,
                            p_bit: spec_value_bool(p->Ok_0)->Ok_0,
                            conditional_operation: None,
                        },
                    },
                )
            } else {
                Err(DecodeError::Other)
            }
        },
    }
}

/// What decoding `op` as a compact NOP/IDLE yields.
pub open spec fn spec_nop_new_compact(op: u32) -> Result<NOPInstruction, DecodeError> {
    match spec_parse(op, spec_nop_compact_format()) {
        Err(_) => Err(DecodeError::InvalidInput),
        Ok(m) => {
            let count = spec_get(m, FieldName::N3);
            if count is Ok && spec_value_u8(count->Ok_0) is Ok {
                Ok(
                    NOPInstruction {
                        count: spec_value_u8(count->Ok_0)->Ok_0,
                        instruction_data: InstructionData {
                            opcode: op,
                            compact: true,
                            parallel: false,
                            p_bit: false,
                            conditional_operation: None,
                        },
                    },
                )
            } else {
                Err(DecodeError::Other)
            }
        },
    }
}

/// The mnemonic: IDLE for count 0b1111, else NOP.
pub open spec fn spec_nop_instruction_string(i: NOPInstruction) -> Seq<char> {
    if i.count == 0b1111 {
        "IDLE"@
    } else {
        "NOP"@
    }
}

/// The operand list: the cycle count plus one for a positive count that is
/// not IDLE, else empty.
pub open spec fn spec_nop_operands(i: NOPInstruction) -> Seq<char> {
    if i.count > 0 && i.count != 0b1111 {
        spec_dec((i.count + 1) as nat)
    } else {
        Seq::empty()
    }
}

impl NOPInstruction {
    /// Decodes a 32-bit NOP or IDLE.
    pub fn new(input: &InstructionInput) -> (r: Result<Self, DecodeError>)
        ensures
            r == spec_nop_new(input.opcode),
            r is Ok ==> r->Ok_0.instruction_data.opcode == input.opcode,
            r is Ok ==> !r->Ok_0.instruction_data.compact,
    {
        let format = nop_format();
        let parsed_variables = match parse(input.opcode, format.as_slice()) {
            Ok(m) => m,
            Err(_) => {
                return Err(DecodeError::InvalidInput);
            },
        };
        let p_bit = match ParsedVariable::try_get(&parsed_variables, FieldName::P) {
            Ok(v) => match v.get_bool() {
                Ok(b) => b,
                Err(_) => {
                    return Err(DecodeError::Other);
                },
            },
            Err(_) => {
                return Err(DecodeError::Other);
            },
        };
        let count = match ParsedVariable::try_get(&parsed_variables, FieldName::Src) {
            Ok(v) => match v.get_u8() {
                Ok(b) => b,
                Err(_) => {
                    return Err(DecodeError::Other);
                },
            },
            Err(_) => {
                return Err(DecodeError::Other);
            },
        };
        Ok(
            NOPInstruction {
                count,
                instruction_data: InstructionData {
                    opcode: input.opcode,
                    compact: false,
                    parallel: false,
                    p_bit,
                    conditional_operation: None,
                },
            },
        )
    }

    /// Decodes a compact (16-bit) NOP or IDLE.
    pub fn new_compact(input: &InstructionInput) -> (r: Result<Self, DecodeError>)
        ensures
            r == spec_nop_new_compact(input.opcode),
            r is Ok ==> r->Ok_0.instruction_data.opcode == input.opcode,
            r is Ok ==> r->Ok_0.instruction_data.compact,
    {
        let format = nop_compact_format();
        let parsed_variables = match parse(input.opcode, format.as_slice()) {
            Ok(m) => m,
            Err(_) => {
                return Err(DecodeError::InvalidInput);
            },
        };
        let count = match ParsedVariable::try_get(&parsed_variables, FieldName::N3) {
            Ok(v) => match v.get_u8() {
                Ok(b) => b,
                Err(_) => {
                    return Err(DecodeError::Other);
                },
            },
            Err(_) => {
                return Err(DecodeError::Other);
            },
        };
        Ok(
            NOPInstruction {
                count,
                instruction_data: InstructionData {
                    opcode: input.opcode,
                    compact: true,
                    parallel: false,
                    p_bit: false,
                    conditional_operation: None,
                },
            },
        )
    }

    /// The mnemonic: "IDLE" or "NOP".
    pub fn instruction(&self) -> (s: String)
        ensures
            s@ == spec_nop_instruction_string(*self),
    {
        if self.count == 0b1111 {
            String::from_str("IDLE")
        } else {
            String::from_str("NOP")
        }
    }

    /// The operand list: the cycle count plus one, or empty.
    pub fn operands(&self) -> (s: String)
        ensures
            s@ == spec_nop_operands(*self),
    {
        if self.count > 0 && self.count != 0b1111 {
            dec_string_u32(self.count as u32 + 1)
        } else {
            String::new()
        }
    }
}

} // verus!
