//! The compact instruction header (fphead): the final word of a fetch
//! packet whose top nibble is 0b1110.  It marks which 32-bit slots hold two
//! 16-bit compact instructions and carries the mode bits that reinterpret
//! compact opcodes.

use vstd::prelude::*;
use vstd::array::{spec_array_update, spec_array_fill_for_copy_type, group_array_axioms};
use vstd::string::StringExecFns;
use crate::error::DecodeError;
use crate::instruction::{DataSize, spec_data_size_short_string};
use crate::parser::{
    FieldName,
    ParsingInstruction,
    ParsedVariable,
    ParsedValue,
    ParsedVariables,
    parse,
    spec_parse,
    spec_get,
    spec_value_bits,
    spec_value_bool,
    spec_value_u8,
};

verus! {

/// The decoded trailing header of a fetch packet with compact slots.
#[derive(Clone, Copy, Debug)]
pub struct CompactInstructionHeader {
    /// The raw 32-bit word the header was decoded from.
    pub opcode: u32,
    /// Whether the i-th 32-bit position holds two 16-bit compact
    /// instructions (true) or one full 32-bit instruction (false).
    pub layout: [bool; 7],
    /// PROT: four NOP cycles follow every LD instruction.
    pub loads_protected: bool,
    /// RS: instructions address the high register set.
    pub register_set: bool,
    /// The primary data size selected by DSZ.
    pub primary_data_size: DataSize,
    /// The secondary data size selected by DSZ.
    pub secondary_data_size: DataSize,
    /// BR: compact S-unit opcodes are decoded as branches.
    pub decode_compact_branches: bool,
    /// SAT: instructions render as their saturated variants.
    pub saturate: bool,
    /// The per-slot parallel-with-next bits for compact instructions.
    pub compact_p_bits: [bool; 14],
}

/// The header format, least-significant field first: 14 p bits, SAT, BR,
/// DSZ_1 (2 bits), DSZ_2, RS, PROT, 7 layout bits, and the fixed tag 0b1110
/// in the top 4 bits.
pub open spec fn spec_fphead_format() -> Seq<ParsingInstruction> {
    seq![
        ParsingInstruction::BitArray { size: 14, name: FieldName::P },
        ParsingInstruction::Bit { name: FieldName::Sat },
        ParsingInstruction::Bit { name: FieldName::Br },
        ParsingInstruction::Unsigned { size: 2, name: FieldName::Dsz1 },
        ParsingInstruction::Bit { name: FieldName::Dsz2 },
        ParsingInstruction::Bit { name: FieldName::Rs },
        ParsingInstruction::Bit { name: FieldName::Prot },
        ParsingInstruction::BitArray { size: 7, name: FieldName::Layout },
        ParsingInstruction::Match { size: 4, value: 0b1110 },
    ]
}

fn fphead_format() -> (r: Vec<ParsingInstruction>)
    ensures
        r@ == spec_fphead_format(),
{
    let mut f: Vec<ParsingInstruction> = Vec::new();
    f.push(ParsingInstruction::BitArray { size: 14, name: FieldName::P });
    f.push(ParsingInstruction::Bit { name: FieldName::Sat });
    f.push(ParsingInstruction::Bit { name: FieldName::Br });
    f.push(ParsingInstruction::Unsigned { size: 2, name: FieldName::Dsz1 });
    f.push(ParsingInstruction::Bit { name: FieldName::Dsz2 });
    f.push(ParsingInstruction::Bit { name: FieldName::Rs });
    f.push(ParsingInstruction::Bit { name: FieldName::Prot });
    f.push(ParsingInstruction::BitArray { size: 7, name: FieldName::Layout });
    f.push(ParsingInstruction::Match { size: 4, value: 0b1110 });
    proof {
        assert(f@ =~= spec_fphead_format());
    }
    f
}

/// The first seven booleans of `s` as an array.
pub open spec fn spec_bool_array_7(s: Seq<bool>) -> [bool; 7]
    recommends
        s.len() >= 7,
{
    spec_array_update(
        spec_array_update(
            spec_array_update(
                spec_array_update(
                    spec_array_update(
                        spec_array_update(
                            spec_array_update(
                                spec_array_fill_for_copy_type::<bool, 7>(false),
                                0,
                                s[0],
                            ),
                            1,
                            s[1],
                        ),
                        2,
                        s[2],
                    ),
                    3,
                    s[3],
                ),
                4,
                s[4],
            ),
            5,
            s[5],
        ),
        6,
        s[6],
    )
}

/// The first fourteen booleans of `s` as an array.
pub open spec fn spec_bool_array_14(s: Seq<bool>) -> [bool; 14]
    recommends
        s.len() >= 14,
{
    spec_array_update(
        spec_array_update(
            spec_array_update(
                spec_array_update(
                    spec_array_update(
                        spec_array_update(
                            spec_array_update(
                                spec_array_update(
                                    spec_array_update(
                                        spec_array_update(
                                            spec_array_update(
                                                spec_array_update(
                                                    spec_array_update(
                                                        spec_array_update(
                                                            spec_array_fill_for_copy_type::<
                                                                bool,
                                                                14,
                                                            >(false),
                                                            0,
                                                            s[0],
                                                        ),
                                                        1,
                                                        s[1],
                                                    ),
                                                    2,
                                                    s[2],
                                                ),
                                                3,
                                                s[3],
                                            ),
                                            4,
                                            s[4],
                                        ),
                                        5,
                                        s[5],
                                    ),
                                    6,
                                    s[6],
                                ),
                                7,
                                s[7],
                            ),
                            8,
                            s[8],
                        ),
                        9,
                        s[9],
                    ),
                    10,
                    s[10],
                ),
                11,
                s[11],
            ),
            12,
            s[12],
        ),
        13,
        s[13],
    )
}

fn bool_array_7(v: &Vec<bool>) -> (r: [bool; 7])
    requires
        v@.len() >= 7,
    ensures
        r == spec_bool_array_7(v@),
{
    let r = [v[0], v[1], v[2], v[3], v[4], v[5], v[6]];
    proof {
        broadcast use group_array_axioms;

        assert(r =~= spec_bool_array_7(v@));
    }
    r
}

fn bool_array_14(v: &Vec<bool>) -> (r: [bool; 14])
    requires
        v@.len() >= 14,
    ensures
        r == spec_bool_array_14(v@),
{
    let r = [
        v[0],
        v[1],
        v[2],
        v[3],
        v[4],
        v[5],
        v[6],
        v[7],
        v[8],
        v[9],
        v[10],
        v[11],
        v[12],
        v[13],
    ];
    proof {
        broadcast use group_array_axioms;

        assert(r =~= spec_bool_array_14(v@));
    }
    r
}

/// The primary data size: DoubleWord when DSZ_2 is set, else Word.
pub open spec fn spec_primary_data_size(dsz2: bool) -> DataSize {
    if dsz2 {
        DataSize::DoubleWord
    } else {
        DataSize::Word
    }
}

/// The secondary data size selected by DSZ_1, in the table keyed by DSZ_2.
pub open spec fn spec_secondary_data_size(dsz2: bool, dsz1: u8) -> DataSize {
    if dsz2 {
        if dsz1 == 0 {
            DataSize::Word
        } else if dsz1 == 1 {
            DataSize::Byte
        } else if dsz1 == 2 {
            DataSize::NonAlignedWord
        } else {
            DataSize::HalfWord
        }
    } else {
        if dsz1 == 0 {
            DataSize::ByteUnsigned
        } else if dsz1 == 1 {
            DataSize::Byte
        } else if dsz1 == 2 {
            DataSize::HalfWordUnsigned
        } else {
            DataSize::HalfWord
        }
    }
}

/// Whether the extracted fields of a header parse have the kinds and
/// lengths the record needs.
pub open spec fn spec_fphead_fields_ok(m: Map<FieldName, ParsedValue>) -> bool {
    &&& spec_get(m, FieldName::Layout) is Ok
    &&& spec_value_bits(spec_get(m, FieldName::Layout)->Ok_0) is Ok
    &&& spec_value_bits(spec_get(m, FieldName::Layout)->Ok_0)->Ok_0.len() >= 7
    &&& spec_get(m, FieldName::P) is Ok
    &&& spec_value_bits(spec_get(m, FieldName::P)->Ok_0) is Ok
    &&& spec_value_bits(spec_get(m, FieldName::P)->Ok_0)->Ok_0.len() >= 14
    &&& spec_get(m, FieldName::Prot) is Ok
    &&& spec_value_bool(spec_get(m, FieldName::Prot)->Ok_0) is Ok
    &&& spec_get(m, FieldName::Rs) is Ok
    &&& spec_value_bool(spec_get(m, FieldName::Rs)->Ok_0) is Ok
    &&& spec_get(m, FieldName::Dsz1) is Ok
    &&& spec_value_u8(spec_get(m, FieldName::Dsz1)->Ok_0) is Ok
    &&& spec_get(m, FieldName::Dsz2) is Ok
    &&& spec_value_bool(spec_get(m, FieldName::Dsz2)->Ok_0) is Ok
    &&& spec_get(m, FieldName::Br) is Ok
    &&& spec_value_bool(spec_get(m, FieldName::Br)->Ok_0) is Ok
    &&& spec_get(m, FieldName::Sat) is Ok
    &&& spec_value_bool(spec_get(m, FieldName::Sat)->Ok_0) is Ok
}

/// The header record the extracted fields of a successful parse denote.
pub open spec fn spec_fphead_record(op: u32, m: Map<FieldName, ParsedValue>) -> CompactInstructionHeader
    recommends
        spec_fphead_fields_ok(m),
{
    let layout_bits = spec_value_bits(spec_get(m, FieldName::Layout)->Ok_0)->Ok_0;
    let p_bits = spec_value_bits(spec_get(m, FieldName::P)->Ok_0)->Ok_0;
    let dsz1 = spec_value_u8(spec_get(m, FieldName::Dsz1)->Ok_0)->Ok_0;
    let dsz2 = spec_value_bool(spec_get(m, FieldName::Dsz2)->Ok_0)->Ok_0;
    CompactInstructionHeader {
        opcode: op,
        layout: spec_bool_array_7(layout_bits),
        loads_protected: spec_value_bool(spec_get(m, FieldName::Prot)->Ok_0)->Ok_0,
        register_set: spec_value_bool(spec_get(m, FieldName::Rs)->Ok_0)->Ok_0,
        primary_data_size: spec_primary_data_size(dsz2),
        secondary_data_size: spec_secondary_data_size(dsz2, dsz1),
        decode_compact_branches: spec_value_bool(spec_get(m, FieldName::Br)->Ok_0)->Ok_0,
        saturate: spec_value_bool(spec_get(m, FieldName::Sat)->Ok_0)->Ok_0,
        compact_p_bits: spec_bool_array_14(p_bits),
    }
}

/// What decoding `op` as a compact instruction header yields: the record
/// when the header format matches, InvalidInput when it does not.
pub open spec fn spec_fphead_new(op: u32) -> Result<CompactInstructionHeader, DecodeError> {
    match spec_parse(op, spec_fphead_format()) {
        Err(_) => Err(DecodeError::InvalidInput),
        Ok(m) => if spec_fphead_fields_ok(m) {
            Ok(spec_fphead_record(op, m))
        } else {
            Err(DecodeError::Other)
        },
    }
}

impl CompactInstructionHeader {
    /// Decodes the trailing header of a fetch packet from a 32-bit word.
    /// The word's own opcode is kept in the record.
    pub fn new(input: &crate::instruction::InstructionInput) -> (r: Result<Self, DecodeError>)
        ensures
            r == spec_fphead_new(input.opcode),
            r is Ok ==> r->Ok_0.opcode == input.opcode,
    {
        let format = fphead_format();
        let parsed_variables = match parse(input.opcode, format.as_slice()) {
            Ok(m) => m,
            Err(_) => {
                return Err(DecodeError::InvalidInput);
            },
        };
        let layout_vec = match ParsedVariable::try_get(&parsed_variables, FieldName::Layout) {
            Ok(v) => match v.get_bool_vec() {
                Ok(b) => b,
                Err(_) => {
                    return Err(DecodeError::Other);
                },
            },
            Err(_) => {
                return Err(DecodeError::Other);
            },
        };
        if layout_vec.len() < 7 {
            return Err(DecodeError::Other);
        }
        let layout = bool_array_7(&layout_vec);
        let p_vec = match ParsedVariable::try_get(&parsed_variables, FieldName::P) {
            Ok(v) => match v.get_bool_vec() {
                Ok(b) => b,
                Err(_) => {
                    return Err(DecodeError::Other);
                },
            },
            Err(_) => {
                return Err(DecodeError::Other);
            },
        };
        if p_vec.len() < 14 {
            return Err(DecodeError::Other);
        }
        let compact_p_bits = bool_array_14(&p_vec);
        let loads_protected = match ParsedVariable::try_get(&parsed_variables, FieldName::Prot) {
            Ok(v) => match v.get_bool() {
                Ok(b) => b,
                Err(_) => {
                    return Err(DecodeError::Other);
                },
            },
            Err(_) => {
                return Err(DecodeError::Other);
            },
        };
        let register_set = match ParsedVariable::try_get(&parsed_variables, FieldName::Rs) {
            Ok(v) => match v.get_bool() {
                Ok(b) => b,
                Err(_) => {
                    return Err(DecodeError::Other);
                },
            },
            Err(_) => {
                return Err(DecodeError::Other);
            },
        };
        let data_sizes_1 = match ParsedVariable::try_get(&parsed_variables, FieldName::Dsz1) {
            Ok(v) => match v.get_u8() {
                Ok(b) => b,
                Err(_) => {
                    return Err(DecodeError::Other);
                },
            },
            Err(_) => {
                return Err(DecodeError::Other);
            },
        };
        let data_sizes_2 = match ParsedVariable::try_get(&parsed_variables, FieldName::Dsz2) {
            Ok(v) => match v.get_bool() {
                Ok(b) => b,
                Err(_) => {
                    return Err(DecodeError::Other);
                },
            },
            Err(_) => {
                return Err(DecodeError::Other);
            },
        };
        let decode_compact_branches = match ParsedVariable::try_get(
            &parsed_variables,
            FieldName::Br,
        ) {
            Ok(v) => match v.get_bool() {
                Ok(b) => b,
                Err(_) => {
                    return Err(DecodeError::Other);
                },
            },
            Err(_) => {
                return Err(DecodeError::Other);
            },
        };
        let saturate = match ParsedVariable::try_get(&parsed_variables, FieldName::Sat) {
            Ok(v) => match v.get_bool() {
                Ok(b) => b,
                Err(_) => {
                    return Err(DecodeError::Other);
                },
            },
            Err(_) => {
                return Err(DecodeError::Other);
            },
        };
        let primary_data_size = if data_sizes_2 {
            DataSize::DoubleWord
        } else {
            DataSize::Word
        };
        let secondary_data_size = if data_sizes_2 {
            match data_sizes_1 {
                0 => DataSize::Word,
                1 => DataSize::Byte,
                2 => DataSize::NonAlignedWord,
                _ => DataSize::HalfWord,
            }
        } else {
            match data_sizes_1 {
                0 => DataSize::ByteUnsigned,
                1 => DataSize::Byte,
                2 => DataSize::HalfWordUnsigned,
                _ => DataSize::HalfWord,
            }
        };
        Ok(
            Self {
                opcode: input.opcode,
                layout,
                compact_p_bits,
                loads_protected,
                register_set,
                primary_data_size,
                secondary_data_size,
                decode_compact_branches,
                saturate,
            },
        )
    }

    /// A compact instruction header has no 16-bit form; the dispatcher
    /// treats this as "try the next family".
    pub fn new_compact(_input: &crate::instruction::InstructionInput) -> (r: Result<
        Self,
        DecodeError,
    >)
        ensures
            r == Err::<CompactInstructionHeader, DecodeError>(DecodeError::Unsupported),
    {
        Err(DecodeError::Unsupported)
    }

    /// The header's mnemonic.
    pub fn instruction(&self) -> (s: String)
        ensures
            s@ == ".fphead"@,
    {
        String::from_str(".fphead")
    }

    /// The header's operand list: protection, register set, the two data
    /// sizes, branch decoding, saturation, and the layout bits with slot 6
    /// first.
    pub fn operands(&self) -> (s: String)
        ensures
            s@ == spec_fphead_operands(*self),
    {
        let mut return_str = String::new();
        if self.loads_protected {
            return_str.append("p");
        } else {
            return_str.append("n");
        }
        return_str.append(", ");
        if self.register_set {
            return_str.append("h");
        } else {
            return_str.append("l");
        }
        return_str.append(", ");
        return_str.append(self.primary_data_size.to_short_string().as_str());
        return_str.append(", ");
        return_str.append(self.secondary_data_size.to_short_string().as_str());
        return_str.append(", ");
        if self.decode_compact_branches {
            return_str.append("br");
        } else {
            return_str.append("nobr");
        }
        return_str.append(", ");
        if self.saturate {
            return_str.append("sat");
        } else {
            return_str.append("nosat");
        }
        return_str.append(", ");
        proof {
            assert(return_str@ =~= spec_fphead_operands_prefix(*self));
        }
        let mut i: usize = 7;
        while i > 0
            invariant
                i <= 7,
                return_str@ == spec_fphead_operands_prefix(*self) + spec_layout_bits_string(
                    self.layout@,
                    i as int,
                ),
            decreases i,
        {
            i = i - 1;
            if self.layout[i] {
                return_str.append("1");
            } else {
                return_str.append("0");
            }
            proof {
                assert(return_str@ =~= spec_fphead_operands_prefix(*self)
                    + spec_layout_bits_string(self.layout@, i as int));
            }
        }
        return_str
    }
}

/// The layout bits of `s` from index `i - 1` down to 0, highest first.
pub open spec fn spec_layout_bits_string(s: Seq<bool>, i: int) -> Seq<char>
    decreases 7 - i,
{
    if i >= 7 {
        Seq::empty()
    } else {
        spec_layout_bits_string(s, i + 1) + (if s[i] {
            "1"@
        } else {
            "0"@
        })
    }
}

/// The operand list of a header up to (and including) the final ", ".
pub open spec fn spec_fphead_operands_prefix(h: CompactInstructionHeader) -> Seq<char> {
    (if h.loads_protected {
        "p"@
    } else {
        "n"@
    }) + ", "@ + (if h.register_set {
        "h"@
    } else {
        "l"@
    }) + ", "@ + spec_data_size_short_string(h.primary_data_size) + ", "@
        + spec_data_size_short_string(h.secondary_data_size) + ", "@ + (if h
        .decode_compact_branches {
        "br"@
    } else {
        "nobr"@
    }) + ", "@ + (if h.saturate {
        "sat"@
    } else {
        "nosat"@
    }) + ", "@
}

/// The full operand list of a header: the mode fields, then the seven
/// layout bits with slot 6 first.
pub open spec fn spec_fphead_operands(h: CompactInstructionHeader) -> Seq<char> {
    spec_fphead_operands_prefix(h) + spec_layout_bits_string(h.layout@, 0)
}

} // verus!
