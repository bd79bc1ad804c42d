//! The invalid-instruction fallback: a sentinel carrying the raw opcode,
//! the compact flag and, for a full 32-bit word, the word's p bit, so
//! that the packet decoder's parallel chain follows the raw bits even
//! across words nothing decodes.

use vstd::prelude::*;
use vstd::string::StringExecFns;
use crate::error::DecodeError;
use crate::instruction::{InstructionData, InstructionInput};

verus! {

/// The sentinel produced when no family recognizes an opcode.
#[derive(Clone, Copy, Debug)]
pub struct InvalidInstruction {
    pub instruction_data: InstructionData,
}

/// The sentinel for a 32-bit word nothing else decodes.  Bit 0 of the
/// word is its p bit: the packet decoder reads it to mark the following
/// instruction parallel, whatever the rest of the word holds.
pub open spec fn spec_invalid_new(op: u32) -> InvalidInstruction {
    InvalidInstruction {
        instruction_data: InstructionData {
            opcode: op,
            compact: false,
            parallel: false,
            p_bit: op % 2 == 1,
            conditional_operation: None,
        },
    }
}

/// The sentinel for a 16-bit half word nothing else decodes.
pub open spec fn spec_invalid_new_compact(op: u32) -> InvalidInstruction {
    InvalidInstruction {
        instruction_data: InstructionData {
            opcode: op,
            compact: true,
            parallel: false,
            p_bit: false,
            conditional_operation: None,
        },
    }
}

/// The printed form of the sentinel.
pub open spec fn spec_invalid_instruction_string(i: InvalidInstruction) -> Seq<char> {
    if i.instruction_data.compact {
        "INVALID COMPACT INSTRUCTION"@
    } else {
        "INVALID INSTRUCTION"@
    }
}

impl InvalidInstruction {
    /// Wraps a 32-bit word in the sentinel record, keeping the word's
    /// p bit (bit 0).
    pub fn new(input: &InstructionInput) -> (r: Result<Self, DecodeError>)
        ensures
            r == Ok::<InvalidInstruction, DecodeError>(spec_invalid_new(input.opcode)),
    {
        Ok(
            InvalidInstruction {
                instruction_data: InstructionData {
                    opcode: input.opcode,
                    compact: false,
                    parallel: false,
                    p_bit: input.opcode % 2 == 1,
                    conditional_operation: None,
                },
            },
        )
    }

    /// Wraps a 16-bit half word in the sentinel record.
    pub fn new_compact(input: &InstructionInput) -> (r: Result<Self, DecodeError>)
        ensures
            r == Ok::<InvalidInstruction, DecodeError>(spec_invalid_new_compact(input.opcode)),
    {
        Ok(
            InvalidInstruction {
                instruction_data: InstructionData {
                    opcode: input.opcode,
                    compact: true,
                    parallel: false,
                    p_bit: false,
                    conditional_operation: None,
                },
            },
        )
    }

    /// The printed form: "INVALID INSTRUCTION", or its compact variant.
    pub fn instruction(&self) -> (s: String)
        ensures
            s@ == spec_invalid_instruction_string(*self),
    {
        if self.instruction_data.compact {
            String::from_str("INVALID COMPACT INSTRUCTION")
        } else {
            String::from_str("INVALID INSTRUCTION")
        }
    }
}

} // verus!
