//! Common attributes shared by every decoded instruction: functional unit,
//! data size, conditional-execution predicate and the per-record data block.

use vstd::prelude::*;
use vstd::string::StringExecFns;
use crate::register::{Register, spec_register_from, spec_register_string};
use crate::fphead::CompactInstructionHeader;

verus! {

/// A memory access width, as configured by the compact instruction header.
#[derive(PartialEq, Eq, Structural, Clone, Copy, Debug)]
pub enum DataSize {
    Byte,
    ByteUnsigned,
    HalfWord,
    HalfWordUnsigned,
    Word,
    NonAlignedWord,
    DoubleWord,
    NonAlignedDoubleWord,
}

/// The short code of a data size: "B", "BU", "H", "HU", "W", "NW", "DW",
/// "NDW".
pub open spec fn spec_data_size_short_string(d: DataSize) -> Seq<char> {
    match d {
        DataSize::Byte => "B"@,
        DataSize::ByteUnsigned => "BU"@,
        DataSize::HalfWord => "H"@,
        DataSize::HalfWordUnsigned => "HU"@,
        DataSize::Word => "W"@,
        DataSize::NonAlignedWord => "NW"@,
        DataSize::DoubleWord => "DW"@,
        DataSize::NonAlignedDoubleWord => "NDW"@,
    }
}

/// The long name of a data size.
pub open spec fn spec_data_size_string(d: DataSize) -> Seq<char> {
    match d {
        DataSize::Byte => "Byte"@,
        DataSize::ByteUnsigned => "ByteUnsigned"@,
        DataSize::HalfWord => "HalfWord"@,
        DataSize::HalfWordUnsigned => "HalfWordUnsigned"@,
        DataSize::Word => "Word"@,
        DataSize::NonAlignedWord => "NonAlignedWord"@,
        DataSize::DoubleWord => "DoubleWord"@,
        DataSize::NonAlignedDoubleWord => "NonAlignedDoubleWord"@,
    }
}

impl DataSize {
    /// Renders the short code used in the header's operand list.
    pub fn to_short_string(&self) -> (s: String)
        ensures
            s@ == spec_data_size_short_string(*self),
    {
        match self {
            Self::Byte => String::from_str("B"),
            Self::ByteUnsigned => String::from_str("BU"),
            Self::HalfWord => String::from_str("H"),
            Self::HalfWordUnsigned => String::from_str("HU"),
            Self::Word => String::from_str("W"),
            Self::NonAlignedWord => String::from_str("NW"),
            Self::DoubleWord => String::from_str("DW"),
            Self::NonAlignedDoubleWord => String::from_str("NDW"),
        }
    }

    /// Renders the long name.
    pub fn to_string(&self) -> (s: String)
        ensures
            s@ == spec_data_size_string(*self),
    {
        match self {
            Self::Byte => String::from_str("Byte"),
            Self::ByteUnsigned => String::from_str("ByteUnsigned"),
            Self::HalfWord => String::from_str("HalfWord"),
            Self::HalfWordUnsigned => String::from_str("HalfWordUnsigned"),
            Self::Word => String::from_str("Word"),
            Self::NonAlignedWord => String::from_str("NonAlignedWord"),
            Self::DoubleWord => String::from_str("DoubleWord"),
            Self::NonAlignedDoubleWord => String::from_str("NonAlignedDoubleWord"),
        }
    }
}

/// A functional unit of the DSP core.
#[derive(PartialEq, Eq, Structural, Clone, Copy, Debug)]
pub enum Unit {
    L,
    S,
    M,
    D,
}

/// The unit letter: "L", "S", "M" or "D".
pub open spec fn spec_unit_string(u: Unit) -> Seq<char> {
    match u {
        Unit::L => "L"@,
        Unit::S => "S"@,
        Unit::M => "M"@,
        Unit::D => "D"@,
    }
}

/// The unit letter with its side suffix: "1" for side A, "2" for side B.
pub open spec fn spec_unit_sided_string(u: Unit, side: bool) -> Seq<char> {
    spec_unit_string(u) + (if !side {
        "1"@
    } else {
        "2"@
    })
}

impl Unit {
    /// Renders the unit letter.
    pub fn to_string(&self) -> (s: String)
        ensures
            s@ == spec_unit_string(*self),
    {
        match self {
            Self::L => String::from_str("L"),
            Self::S => String::from_str("S"),
            Self::M => String::from_str("M"),
            Self::D => String::from_str("D"),
        }
    }

    /// Renders the unit letter followed by "1" (side A) or "2" (side B).
    pub fn to_sided_string(&self, side: bool) -> (s: String)
        ensures
            s@ == spec_unit_sided_string(*self, side),
    {
        let mut value = self.to_string();
        if side == false {
            value.append("1");
        } else {
            value.append("2");
        }
        value
    }
}

/// A conditional-execution predicate drawn from the creg/z encoding.
#[derive(PartialEq, Eq, Structural, Clone, Copy, Debug)]
pub enum ConditionalOperation {
    ReservedLow,
    ReservedHigh,
    Zero(Register),
    NonZero(Register),
}

/// The predicate encoded by a 3-bit creg field and a z bit: creg 0 with z
/// set is ReservedLow, creg 0b111 is ReservedHigh, creg 0 with z clear means
/// unconditional (None), and the remaining creg values select a register
/// from {A1, A2, A0, B0, B1, B2} with z choosing Zero over NonZero.
pub open spec fn spec_conditional_operation_from(creg: u8, z: bool) -> Option<
    ConditionalOperation,
> {
    if creg == 0 && z {
        Some(ConditionalOperation::ReservedLow)
    } else if creg == 0b111 {
        Some(ConditionalOperation::ReservedHigh)
    } else {
        let register_option: Option<Register> = if (creg / 4) % 2 == 1 {
            if creg % 4 == 0b00 {
                Some(Register::A(1))
            } else if creg % 4 == 0b01 {
                Some(Register::A(2))
            } else if creg % 4 == 0b10 {
                Some(Register::A(0))
            } else {
                None
            }
        } else {
            if creg % 4 == 0b01 {
                Some(Register::B(0))
            } else if creg % 4 == 0b10 {
                Some(Register::B(1))
            } else if creg % 4 == 0b11 {
                Some(Register::B(2))
            } else {
                None
            }
        };
        match register_option {
            Some(register) => if z {
                Some(ConditionalOperation::Zero(register))
            } else {
                Some(ConditionalOperation::NonZero(register))
            },
            None => None,
        }
    }
}

/// The printed predicate: the register name, prefixed with "!" for the Zero
/// test; the reserved variants print as nothing.
pub open spec fn spec_conditional_operation_string(c: ConditionalOperation) -> Seq<char> {
    match c {
        ConditionalOperation::NonZero(register) => spec_register_string(register),
        ConditionalOperation::Zero(register) => "!"@ + spec_register_string(register),
        ConditionalOperation::ReservedLow => ""@,
        ConditionalOperation::ReservedHigh => ""@,
    }
}

impl ConditionalOperation {
    /// Decodes a creg/z pair; None means unconditional execution.
    pub fn from(creg: u8, z: bool) -> (r: Option<Self>)
        ensures
            r == spec_conditional_operation_from(creg, z),
    {
        if creg == 0 && z == true {
            return Some(ConditionalOperation::ReservedLow);
        } else if creg == 0b111 {
            return Some(ConditionalOperation::ReservedHigh);
        }
        let register_option: Option<Register> = {
            if (creg / 4) % 2 == 1 {
                match creg % 4 {
                    0b00 => Some(Register::A(1)),
                    0b01 => Some(Register::A(2)),
                    0b10 => Some(Register::A(0)),
                    _ => None,
                }
            } else {
                match creg % 4 {
                    0b01 => Some(Register::B(0)),
                    0b10 => Some(Register::B(1)),
                    0b11 => Some(Register::B(2)),
                    _ => None,
                }
            }
        };
        if let Some(register) = register_option {
            if z {
                Some(ConditionalOperation::Zero(register))
            } else {
                Some(ConditionalOperation::NonZero(register))
            }
        } else {
            None
        }
    }

    /// Renders the predicate register, with "!" marking the Zero test.
    pub fn to_string(&self) -> (s: String)
        ensures
            s@ == spec_conditional_operation_string(*self),
    {
        proof {
            reveal_strlit("");
        }
        match self {
            Self::NonZero(register) => register.to_string(),
            Self::Zero(register) => {
                let mut s = String::from_str("!");
                s.append(register.to_string().as_str());
                s
            },
            Self::ReservedLow => String::new(),
            Self::ReservedHigh => String::new(),
        }
    }
}

/// The attributes every decoded instruction carries.
#[derive(PartialEq, Eq, Structural, Clone, Copy, Debug)]
pub struct InstructionData {
    /// The raw word or half word the record was decoded from.
    pub opcode: u32,
    /// True for a 16-bit compact encoding.
    pub compact: bool,
    /// True when this instruction executes in parallel with its predecessor.
    pub parallel: bool,
    /// This instruction's own p bit: whether the next instruction executes
    /// in parallel with it.
    pub p_bit: bool,
    /// The conditional-execution predicate; None means unconditional.
    pub conditional_operation: Option<ConditionalOperation>,
}

/// The default instruction data block: opcode 0, all flags clear,
/// unconditional.
pub open spec fn spec_instruction_data_default() -> InstructionData {
    InstructionData {
        opcode: 0,
        compact: false,
        parallel: false,
        p_bit: false,
        conditional_operation: None,
    }
}

impl Default for InstructionData {
    fn default() -> (r: Self)
        ensures
            r == spec_instruction_data_default(),
    {
        Self {
            opcode: 0,
            compact: false,
            parallel: false,
            p_bit: false,
            conditional_operation: None,
        }
    }
}

/// The input handed to a family decoder: the raw opcode and, inside a packet
/// with compact slots, the active compact instruction header.
#[derive(Clone, Copy, Debug)]
pub struct InstructionInput {
    pub opcode: u32,
    pub fphead: Option<CompactInstructionHeader>,
}

impl InstructionInput {
    /// An input with no active compact instruction header.
    pub fn new(opcode: u32) -> (r: Self)
        ensures
            r == (InstructionInput { opcode, fphead: None::<CompactInstructionHeader> }),
    {
        Self { opcode, fphead: None }
    }
}

} // verus!
