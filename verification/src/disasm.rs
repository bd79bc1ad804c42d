//! The family dispatcher and the fetch-packet decoder: one 32-bit word or
//! 16-bit half word becomes an instruction record, and a 32-byte packet
//! becomes an ordered sequence of records annotated with their execution
//! context.

use vstd::prelude::*;
use vstd::pervasive::VecAdditionalExecFns;
use crate::bits::{le_half_word, le_word, read_le_half_word, read_le_word};
use crate::error::DecodeError;
use crate::fphead::{CompactInstructionHeader, spec_fphead_new, spec_fphead_operands};
use crate::instruction::{ConditionalOperation, InstructionInput};
use crate::invalid::{
    InvalidInstruction,
    spec_invalid_new,
    spec_invalid_new_compact,
    spec_invalid_instruction_string,
};
use crate::branching::{
    BranchInstruction,
    spec_branch_new,
    spec_branch_new_compact,
    spec_branch_instruction_clean,
    spec_branch_instruction_string,
    spec_branch_operands,
};
use crate::moving::{
    MoveConstantInstruction,
    MoveRegisterInstruction,
    spec_move_constant_new,
    spec_move_constant_new_compact,
    spec_move_register_new,
    spec_move_register_new_compact,
    spec_mc_instruction_clean,
    spec_mc_instruction_string,
    spec_mc_operands,
    spec_mr_instruction_clean,
    spec_mr_instruction_string,
    spec_mr_operands,
};
use crate::nop::{
    NOPInstruction,
    spec_nop_new,
    spec_nop_new_compact,
    spec_nop_instruction_string,
    spec_nop_operands,
};
verus! {

broadcast use vstd::array::group_array_axioms;

/// Size of a regular instruction in bytes.
pub const INSTRUCTION_SIZE: usize = 4;

/// Size of a compact instruction in bytes.
pub const COMPACT_INSTRUCTION_SIZE: usize = 2;

/// Size of a fetch packet in bytes.
pub const PACKET_SIZE: usize = 32;

/// A decoded instruction: one variant per family.
#[derive(Clone, Copy, Debug)]
pub enum Instruction {
    MoveConstant(MoveConstantInstruction),
    MoveRegister(MoveRegisterInstruction),
    Branch(BranchInstruction),
    Header(CompactInstructionHeader),
    Nop(NOPInstruction),
    Invalid(InvalidInstruction),
}

/// The raw word or half word an instruction was decoded from.
pub open spec fn spec_instruction_opcode(i: Instruction) -> u32 {
    match i {
        Instruction::MoveConstant(x) => x.instruction_data.opcode,
        Instruction::MoveRegister(x) => x.instruction_data.opcode,
        Instruction::Branch(x) => x.instruction_data.opcode,
        Instruction::Header(x) => x.opcode,
        Instruction::Nop(x) => x.instruction_data.opcode,
        Instruction::Invalid(x) => x.instruction_data.opcode,
    }
}

/// Whether the instruction is a 16-bit compact encoding; a header is the
/// full trailing word of its packet.
pub open spec fn spec_instruction_compact(i: Instruction) -> bool {
    match i {
        Instruction::MoveConstant(x) => x.instruction_data.compact,
        Instruction::MoveRegister(x) => x.instruction_data.compact,
        Instruction::Branch(x) => x.instruction_data.compact,
        Instruction::Header(_) => false,
        Instruction::Nop(x) => x.instruction_data.compact,
        Instruction::Invalid(x) => x.instruction_data.compact,
    }
}

/// Whether the instruction executes in parallel with its predecessor.
pub open spec fn spec_instruction_parallel(i: Instruction) -> bool {
    match i {
        Instruction::MoveConstant(x) => x.instruction_data.parallel,
        Instruction::MoveRegister(x) => x.instruction_data.parallel,
        Instruction::Branch(x) => x.instruction_data.parallel,
        Instruction::Header(_) => false,
        Instruction::Nop(x) => x.instruction_data.parallel,
        Instruction::Invalid(x) => x.instruction_data.parallel,
    }
}

/// The instruction's own p bit: whether the next instruction executes in
/// parallel with it.
pub open spec fn spec_instruction_p_bit(i: Instruction) -> bool {
    match i {
        Instruction::MoveConstant(x) => x.instruction_data.p_bit,
        Instruction::MoveRegister(x) => x.instruction_data.p_bit,
        Instruction::Branch(x) => x.instruction_data.p_bit,
        Instruction::Header(_) => false,
        Instruction::Nop(x) => x.instruction_data.p_bit,
        Instruction::Invalid(x) => x.instruction_data.p_bit,
    }
}

/// The conditional-execution predicate of the instruction.
pub open spec fn spec_instruction_predicate(i: Instruction) -> Option<ConditionalOperation> {
    match i {
        Instruction::MoveConstant(x) => x.instruction_data.conditional_operation,
        Instruction::MoveRegister(x) => x.instruction_data.conditional_operation,
        Instruction::Branch(x) => x.instruction_data.conditional_operation,
        Instruction::Header(_) => None,
        Instruction::Nop(x) => x.instruction_data.conditional_operation,
        Instruction::Invalid(x) => x.instruction_data.conditional_operation,
    }
}

/// The instruction with its parallel-with-previous flag set to `parallel`;
/// a header, which never stands inside the walked part of a packet, is
/// left unchanged.
pub open spec fn spec_instruction_set_parallel(i: Instruction, parallel: bool) -> Instruction {
    match i {
        Instruction::MoveConstant(x) => Instruction::MoveConstant(
            MoveConstantInstruction {
                instruction_data: crate::instruction::InstructionData {
                    parallel,
                    ..x.instruction_data
                },
                ..x
            },
        ),
        Instruction::MoveRegister(x) => Instruction::MoveRegister(
            MoveRegisterInstruction {
                instruction_data: crate::instruction::InstructionData {
                    parallel,
                    ..x.instruction_data
                },
                ..x
            },
        ),
        Instruction::Branch(x) => Instruction::Branch(
            BranchInstruction {
                instruction_data: crate::instruction::InstructionData {
                    parallel,
                    ..x.instruction_data
                },
                ..x
            },
        ),
        Instruction::Header(x) => Instruction::Header(x),
        Instruction::Nop(x) => Instruction::Nop(
            NOPInstruction {
                instruction_data: crate::instruction::InstructionData {
                    parallel,
                    ..x.instruction_data
                },
                ..x
            },
        ),
        Instruction::Invalid(x) => Instruction::Invalid(
            InvalidInstruction {
                instruction_data: crate::instruction::InstructionData {
                    parallel,
                    ..x.instruction_data
                },
            },
        ),
    }
}

/// The mnemonic of the instruction, unit suffix included.
pub open spec fn spec_instruction_string(i: Instruction) -> Seq<char> {
    match i {
        Instruction::MoveConstant(x) => spec_mc_instruction_string(x),
        Instruction::MoveRegister(x) => spec_mr_instruction_string(x),
        Instruction::Branch(x) => spec_branch_instruction_string(x),
        Instruction::Header(_) => ".fphead"@,
        Instruction::Nop(x) => spec_nop_instruction_string(x),
        Instruction::Invalid(x) => spec_invalid_instruction_string(x),
    }
}

/// The mnemonic without unit suffix.
pub open spec fn spec_instruction_clean_string(i: Instruction) -> Seq<char> {
    match i {
        Instruction::MoveConstant(x) => spec_mc_instruction_clean(x),
        Instruction::MoveRegister(x) => spec_mr_instruction_clean(x),
        Instruction::Branch(x) => spec_branch_instruction_clean(x),
        Instruction::Header(_) => ".fphead"@,
        Instruction::Nop(x) => spec_nop_instruction_string(x),
        Instruction::Invalid(x) => spec_invalid_instruction_string(x),
    }
}

/// The operand list of the instruction.
pub open spec fn spec_instruction_operands(i: Instruction) -> Seq<char> {
    match i {
        Instruction::MoveConstant(x) => spec_mc_operands(x),
        Instruction::MoveRegister(x) => spec_mr_operands(x),
        Instruction::Branch(x) => spec_branch_operands(x),
        Instruction::Header(x) => spec_fphead_operands(x),
        Instruction::Nop(x) => spec_nop_operands(x),
        Instruction::Invalid(_) => Seq::empty(),
    }
}

impl Instruction {
    /// The raw word or half word this record was decoded from.
    pub fn opcode(&self) -> (r: u32)
        ensures
            r == spec_instruction_opcode(*self),
    {
        match self {
            Instruction::MoveConstant(x) => x.instruction_data.opcode,
            Instruction::MoveRegister(x) => x.instruction_data.opcode,
            Instruction::Branch(x) => x.instruction_data.opcode,
            Instruction::Header(x) => x.opcode,
            Instruction::Nop(x) => x.instruction_data.opcode,
            Instruction::Invalid(x) => x.instruction_data.opcode,
        }
    }

    /// Whether this is a 16-bit compact encoding.
    pub fn is_compact(&self) -> (r: bool)
        ensures
            r == spec_instruction_compact(*self),
    {
        match self {
            Instruction::MoveConstant(x) => x.instruction_data.compact,
            Instruction::MoveRegister(x) => x.instruction_data.compact,
            Instruction::Branch(x) => x.instruction_data.compact,
            Instruction::Header(_) => false,
            Instruction::Nop(x) => x.instruction_data.compact,
            Instruction::Invalid(x) => x.instruction_data.compact,
        }
    }

    /// Whether this instruction executes in parallel with its predecessor.
    pub fn is_parallel(&self) -> (r: bool)
        ensures
            r == spec_instruction_parallel(*self),
    {
        match self {
            Instruction::MoveConstant(x) => x.instruction_data.parallel,
            Instruction::MoveRegister(x) => x.instruction_data.parallel,
            Instruction::Branch(x) => x.instruction_data.parallel,
            Instruction::Header(_) => false,
            Instruction::Nop(x) => x.instruction_data.parallel,
            Instruction::Invalid(x) => x.instruction_data.parallel,
        }
    }

    /// This instruction's own p bit.
    pub fn get_p_bit(&self) -> (r: bool)
        ensures
            r == spec_instruction_p_bit(*self),
    {
        match self {
            Instruction::MoveConstant(x) => x.instruction_data.p_bit,
            Instruction::MoveRegister(x) => x.instruction_data.p_bit,
            Instruction::Branch(x) => x.instruction_data.p_bit,
            Instruction::Header(_) => false,
            Instruction::Nop(x) => x.instruction_data.p_bit,
            Instruction::Invalid(x) => x.instruction_data.p_bit,
        }
    }

    /// The conditional-execution predicate, None when unconditional.
    pub fn conditional_operation(&self) -> (r: Option<ConditionalOperation>)
        ensures
            r == spec_instruction_predicate(*self),
    {
        match self {
            Instruction::MoveConstant(x) => x.instruction_data.conditional_operation,
            Instruction::MoveRegister(x) => x.instruction_data.conditional_operation,
            Instruction::Branch(x) => x.instruction_data.conditional_operation,
            Instruction::Header(_) => None,
            Instruction::Nop(x) => x.instruction_data.conditional_operation,
            Instruction::Invalid(x) => x.instruction_data.conditional_operation,
        }
    }

    /// Sets the parallel-with-previous flag; a header is left unchanged.
    pub fn set_parallel(&mut self, parallel: bool)
        ensures
            *final(self) == spec_instruction_set_parallel(*old(self), parallel),
    {
        match *self {
            Instruction::MoveConstant(x) => {
                *self = Instruction::MoveConstant(
                    MoveConstantInstruction {
                        instruction_data: crate::instruction::InstructionData {
                            parallel,
                            ..x.instruction_data
                        },
                        ..x
                    },
                );
            },
            Instruction::MoveRegister(x) => {
                *self = Instruction::MoveRegister(
                    MoveRegisterInstruction {
                        instruction_data: crate::instruction::InstructionData {
                            parallel,
                            ..x.instruction_data
                        },
                        ..x
                    },
                );
            },
            Instruction::Branch(x) => {
                *self = Instruction::Branch(
                    BranchInstruction {
                        instruction_data: crate::instruction::InstructionData {
                            parallel,
                            ..x.instruction_data
                        },
                        ..x
                    },
                );
            },
            Instruction::Header(_) => {},
            Instruction::Nop(x) => {
                *self = Instruction::Nop(
                    NOPInstruction {
                        instruction_data: crate::instruction::InstructionData {
                            parallel,
                            ..x.instruction_data
                        },
                        ..x
                    },
                );
            },
            Instruction::Invalid(x) => {
                *self = Instruction::Invalid(
                    InvalidInstruction {
                        instruction_data: crate::instruction::InstructionData {
                            parallel,
                            ..x.instruction_data
                        },
                    },
                );
            },
        }
    }

    /// The mnemonic, unit suffix included.
    pub fn instruction(&self) -> (s: String)
        ensures
            s@ == spec_instruction_string(*self),
    {
        match self {
            Instruction::MoveConstant(x) => x.instruction(),
            Instruction::MoveRegister(x) => x.instruction(),
            Instruction::Branch(x) => x.instruction(),
            Instruction::Header(x) => x.instruction(),
            Instruction::Nop(x) => x.instruction(),
            Instruction::Invalid(x) => x.instruction(),
        }
    }

    /// The mnemonic without unit suffix.
    pub fn instruction_clean(&self) -> (s: String)
        ensures
            s@ == spec_instruction_clean_string(*self),
    {
        match self {
            Instruction::MoveConstant(x) => x.instruction_clean(),
            Instruction::MoveRegister(x) => x.instruction_clean(),
            Instruction::Branch(x) => x.instruction_clean(),
            Instruction::Header(x) => x.instruction(),
            Instruction::Nop(x) => x.instruction(),
            Instruction::Invalid(x) => x.instruction(),
        }
    }

    /// The operand list.
    pub fn operands(&self) -> (s: String)
        ensures
            s@ == spec_instruction_operands(*self),
    {
        match self {
            Instruction::MoveConstant(x) => x.operands(),
            Instruction::MoveRegister(x) => x.operands(),
            Instruction::Branch(x) => x.operands(),
            Instruction::Header(x) => x.operands(),
            Instruction::Nop(x) => x.operands(),
            Instruction::Invalid(_) => String::new(),
        }
    }
}

/// What the ordered trial of the 32-bit family decoders yields for `op`:
/// move constant, move register, branch, compact instruction header, NOP,
/// and the invalid sentinel as the fallback.
#[verifier::opaque]
pub open spec fn spec_read_instruction(
    op: u32,
    fphead: Option<CompactInstructionHeader>,
) -> Instruction {
    match spec_move_constant_new(op) {
        Ok(i) => Instruction::MoveConstant(i),
        Err(_) => match spec_move_register_new(op) {
            Ok(i) => Instruction::MoveRegister(i),
            Err(_) => match spec_branch_new(op, fphead is Some) {
                Ok(i) => Instruction::Branch(i),
                Err(_) => match spec_fphead_new(op) {
                    Ok(h) => Instruction::Header(h),
                    Err(_) => match spec_nop_new(op) {
                        Ok(i) => Instruction::Nop(i),
                        Err(_) => Instruction::Invalid(spec_invalid_new(op)),
                    },
                },
            },
        },
    }
}

/// What the ordered trial of the compact family decoders yields for `op`:
/// move constant, move register, branch, NOP, and the invalid sentinel.
#[verifier::opaque]
pub open spec fn spec_read_compact_instruction(
    op: u32,
    fphead: Option<CompactInstructionHeader>,
) -> Instruction {
    match spec_move_constant_new_compact(op) {
        Ok(i) => Instruction::MoveConstant(i),
        Err(_) => match spec_move_register_new_compact(op) {
            Ok(i) => Instruction::MoveRegister(i),
            Err(_) => match spec_branch_new_compact(op, fphead) {
                Ok(i) => Instruction::Branch(i),
                Err(_) => match spec_nop_new_compact(op) {
                    Ok(i) => Instruction::Nop(i),
                    Err(_) => Instruction::Invalid(spec_invalid_new_compact(op)),
                },
            },
        },
    }
}

/// Decodes one 32-bit word, trying the families in their fixed order; the
/// invalid sentinel makes the result total.
pub fn read_instruction(input: InstructionInput) -> (r: Result<Instruction, DecodeError>)
    ensures
        r == Ok::<Instruction, DecodeError>(
            spec_read_instruction(input.opcode, input.fphead),
        ),
        !spec_instruction_compact(spec_read_instruction(input.opcode, input.fphead)),
        spec_instruction_opcode(spec_read_instruction(input.opcode, input.fphead))
            == input.opcode,
{
    proof {
        reveal(spec_read_instruction);
    }
    if let Ok(instruction) = MoveConstantInstruction::new(&input) {
        return Ok(Instruction::MoveConstant(instruction));
    }
    if let Ok(instruction) = MoveRegisterInstruction::new(&input) {
        return Ok(Instruction::MoveRegister(instruction));
    }
    if let Ok(instruction) = BranchInstruction::new(&input) {
        return Ok(Instruction::Branch(instruction));
    }
    if let Ok(instruction) = CompactInstructionHeader::new(&input) {
        return Ok(Instruction::Header(instruction));
    }
    if let Ok(instruction) = NOPInstruction::new(&input) {
        return Ok(Instruction::Nop(instruction));
    }
    match InvalidInstruction::new(&input) {
        Ok(instruction) => Ok(Instruction::Invalid(instruction)),
        Err(e) => Err(e),
    }
}

/// Decodes one 16-bit half word, trying the compact families in their
/// fixed order; the invalid sentinel makes the result total.
pub fn read_compact_instruction(input: InstructionInput) -> (r: Result<
    Instruction,
    DecodeError,
>)
    ensures
        r == Ok::<Instruction, DecodeError>(
            spec_read_compact_instruction(input.opcode, input.fphead),
        ),
        spec_instruction_compact(spec_read_compact_instruction(input.opcode, input.fphead)),
        spec_instruction_opcode(spec_read_compact_instruction(input.opcode, input.fphead))
            == input.opcode,
{
    proof {
        reveal(spec_read_compact_instruction);
    }
    if let Ok(instruction) = MoveConstantInstruction::new_compact(&input) {
        return Ok(Instruction::MoveConstant(instruction));
    }
    if let Ok(instruction) = MoveRegisterInstruction::new_compact(&input) {
        return Ok(Instruction::MoveRegister(instruction));
    }
    if let Ok(instruction) = BranchInstruction::new_compact(&input) {
        return Ok(Instruction::Branch(instruction));
    }
    if let Ok(instruction) = NOPInstruction::new_compact(&input) {
        return Ok(Instruction::Nop(instruction));
    }
    match InvalidInstruction::new_compact(&input) {
        Ok(instruction) => Ok(Instruction::Invalid(instruction)),
        Err(e) => Err(e),
    }
}

/// Decoding one 32-bit word always yields its raw opcode back, and never a
/// compact record; a compact decode yields its half word back, always as a
/// compact record.
pub proof fn lemma_opcode_round_trip(op: u32, fphead: Option<CompactInstructionHeader>)
    ensures
        spec_instruction_opcode(spec_read_instruction(op, fphead)) == op,
        !spec_instruction_compact(spec_read_instruction(op, fphead)),
        spec_instruction_opcode(spec_read_compact_instruction(op, fphead)) == op,
        spec_instruction_compact(spec_read_compact_instruction(op, fphead)),
{
    reveal(spec_read_instruction);
    reveal(spec_read_compact_instruction);
}

/// The number of bytes an instruction occupies in its packet.
pub open spec fn spec_instruction_size(i: Instruction) -> int {
    if spec_instruction_compact(i) {
        2
    } else {
        4
    }
}

/// What walking the first 28 bytes of a packet yields: each 32-bit slot is
/// decoded whole, or as two 16-bit halves where the header's layout says
/// so; each record's parallel flag comes from the preceding p bit, and a
/// header anywhere in the walked range fails the packet.
pub open spec fn spec_packet_walk(
    packet: Seq<u8>,
    fphead: Option<CompactInstructionHeader>,
    index: int,
    prev_p: bool,
) -> Result<Seq<Instruction>, DecodeError>
    recommends
        packet.len() == 32,
    decreases (if 28 - index >= 0 {
        28 - index
    } else {
        0int
    }),
{
    if index < 0 || index >= 28 {
        Ok(Seq::empty())
    } else {
        let compact_slot = fphead is Some && fphead->0.layout@[index / 4];
        if compact_slot {
            let op = le_half_word(packet[index], packet[index + 1]);
            let instr = spec_instruction_set_parallel(
                spec_read_compact_instruction(op, fphead),
                prev_p,
            );
            if instr is Header {
                Err(DecodeError::InvalidData)
            } else {
                let next_p = fphead->0.compact_p_bits@[index / 2];
                match spec_packet_walk(
                    packet,
                    fphead,
                    index + (if spec_instruction_compact(instr) {
                        2int
                    } else {
                        4int
                    }),
                    next_p,
                ) {
                    Ok(rest) => Ok(seq![instr] + rest),
                    Err(e) => Err(e),
                }
            }
        } else {
            let op = le_word(
                packet[index],
                packet[index + 1],
                packet[index + 2],
                packet[index + 3],
            );
            let instr = spec_instruction_set_parallel(spec_read_instruction(op, fphead), prev_p);
            if instr is Header {
                Err(DecodeError::InvalidData)
            } else {
                let next_p = spec_instruction_p_bit(instr);
                match spec_packet_walk(
                    packet,
                    fphead,
                    index + (if spec_instruction_compact(instr) {
                        2int
                    } else {
                        4int
                    }),
                    next_p,
                ) {
                    Ok(rest) => Ok(seq![instr] + rest),
                    Err(e) => Err(e),
                }
            }
        }
    }
}

/// A branch record with the PCE1 base patched in; other records pass
/// through unchanged.
pub open spec fn spec_patch_pce1_one(i: Instruction, address: u32) -> Instruction {
    match i {
        Instruction::Branch(b) => Instruction::Branch(
            BranchInstruction { pce1_address: Some(address), ..b },
        ),
        _ => i,
    }
}

/// Every branch in the sequence gets the PCE1 base patched in.
pub open spec fn spec_patch_pce1(s: Seq<Instruction>, address: u32) -> Seq<Instruction>
    decreases s.len(),
{
    if s.len() == 0 {
        Seq::empty()
    } else {
        seq![spec_patch_pce1_one(s.first(), address)] + spec_patch_pce1(s.drop_first(), address)
    }
}

/// Patching acts pointwise: the sequence keeps its length and each element
/// is patched individually.
pub proof fn lemma_patch_pce1_pointwise(s: Seq<Instruction>, address: u32)
    ensures
        spec_patch_pce1(s, address).len() == s.len(),
        forall|j: int|
            0 <= j < s.len() ==> spec_patch_pce1(s, address)[j] == spec_patch_pce1_one(
                s[j],
                address,
            ),
    decreases s.len(),
{
    if s.len() == 0 {
    } else {
        lemma_patch_pce1_pointwise(s.drop_first(), address);
    }
}

/// What decoding a whole 32-byte packet at `address` yields: the trailing
/// word decides whether compact slots exist, the first 28 bytes are
/// walked, the trailing instruction is appended, and every branch is
/// patched with the packet's address as its PCE1 base.
pub open spec fn spec_read_packet(packet: Seq<u8>, address: u32) -> Result<
    Seq<Instruction>,
    DecodeError,
>
    recommends
        packet.len() == 32,
{
    let last_op = le_word(packet[28], packet[29], packet[30], packet[31]);
    let last = spec_read_instruction(last_op, None);
    let fphead = match last {
        Instruction::Header(h) => Some(h),
        _ => None,
    };
    match spec_packet_walk(packet, fphead, 0, false) {
        Ok(s) => Ok(spec_patch_pce1(s.push(last), address)),
        Err(e) => Err(e),
    }
}

/// Decodes one aligned 32-byte fetch packet.  The result is exactly
/// `spec_read_packet(packet@, address)`: a pure function of the packet
/// bytes and the base address.
#[verifier::rlimit(100)]
pub fn read_packet(packet: [u8; 32], address: u32) -> (r: Result<Vec<Instruction>, DecodeError>)
    ensures
        match r {
            Ok(v) => spec_read_packet(packet@, address) == Ok::<_, DecodeError>(v@),
            Err(e) => spec_read_packet(packet@, address) == Err::<Seq<Instruction>, _>(e),
        },
{
    let last_op = read_le_word(packet[28], packet[29], packet[30], packet[31]);
    let last_instruction = match read_instruction(InstructionInput::new(last_op)) {
        Ok(i) => i,
        Err(e) => {
            return Err(e);
        },
    };
    let fphead_option: Option<CompactInstructionHeader> = match &last_instruction {
        Instruction::Header(h) => Some(*h),
        _ => None,
    };

    let mut instructions: Vec<Instruction> = Vec::new();
    let mut index: usize = 0;
    let mut previous_p_bit = false;
    while index < 28
        invariant
            index <= 31,
            last_instruction == spec_read_instruction(
                le_word(packet@[28], packet@[29], packet@[30], packet@[31]),
                None,
            ),
            fphead_option == (match last_instruction {
                Instruction::Header(h) => Some(h),
                _ => None::<CompactInstructionHeader>,
            }),
            match spec_packet_walk(packet@, fphead_option, index as int, previous_p_bit) {
                Ok(rest) => spec_packet_walk(packet@, fphead_option, 0, false) == Ok::<
                    _,
                    DecodeError,
                >(instructions@ + rest),
                Err(e) => spec_packet_walk(packet@, fphead_option, 0, false) == Err::<
                    Seq<Instruction>,
                    _,
                >(e),
            },
        decreases (if index < 28 {
            28 - index
        } else {
            0int
        }),
    {
        let ghost pre_vec = instructions@;
        let ghost pre_index = index as int;
        let ghost pre_p = previous_p_bit;
        let compact_slot = match &fphead_option {
            Some(f) => f.layout[index / 4],
            None => false,
        };
        let instruction = if compact_slot {
            let op = read_le_half_word(packet[index], packet[index + 1]);
            let mut compact_instruction = match read_compact_instruction(
                InstructionInput { opcode: op, fphead: fphead_option },
            ) {
                Ok(i) => i,
                Err(e) => {
                    return Err(e);
                },
            };
            compact_instruction.set_parallel(previous_p_bit);
            previous_p_bit = match &fphead_option {
                Some(f) => f.compact_p_bits[index / 2],
                None => false,
            };
            compact_instruction
        } else {
            let op = read_le_word(
                packet[index],
                packet[index + 1],
                packet[index + 2],
                packet[index + 3],
            );
            let mut full_instruction = match read_instruction(
                InstructionInput { opcode: op, fphead: fphead_option },
            ) {
                Ok(i) => i,
                Err(e) => {
                    return Err(e);
                },
            };
            full_instruction.set_parallel(previous_p_bit);
            previous_p_bit = full_instruction.get_p_bit();
            full_instruction
        };

        if matches!(instruction, Instruction::Header(_)) {
            proof {
                assert(spec_packet_walk(packet@, fphead_option, pre_index, pre_p) == Err::<
                    Seq<Instruction>,
                    DecodeError,
                >(DecodeError::InvalidData));
                assert(spec_read_packet(packet@, address) == Err::<Seq<Instruction>, DecodeError>(
                    DecodeError::InvalidData,
                ));
            }
            return Err(DecodeError::InvalidData);
        }
        if instruction.is_compact() {
            index = index + 2;
        } else {
            index = index + 4;
        }
        instructions.push(instruction);
        proof {
            let step_result = spec_packet_walk(
                packet@,
                fphead_option,
                index as int,
                previous_p_bit,
            );
            if step_result is Ok {
                assert(pre_vec.push(instruction) + step_result->Ok_0 =~= pre_vec + (seq![
                    instruction,
                ] + step_result->Ok_0));
            }
        }
    }
    proof {
        assert(instructions@ + Seq::<Instruction>::empty() =~= instructions@);
    }

    instructions.push(last_instruction);
    let ghost unpatched = instructions@;

    proof {
        lemma_patch_pce1_pointwise(unpatched, address);
    }
    let mut i: usize = 0;
    let count = instructions.len();
    while i < count
        invariant
            count == instructions@.len(),
            count == unpatched.len(),
            i <= count,
            forall|j: int|
                0 <= j < i ==> instructions@[j] == spec_patch_pce1_one(unpatched[j], address),
            forall|j: int| i <= j < count ==> instructions@[j] == unpatched[j],
        decreases count - i,
    {
        let current = instructions[i];
        if let Instruction::Branch(branch_instruction) = current {
            let mut patched = branch_instruction;
            patched.set_pce1_address(address);
            instructions.set(i, Instruction::Branch(patched));
        }
        i = i + 1;
    }
    proof {
        assert(instructions@ =~= spec_patch_pce1(unpatched, address));
    }
    Ok(instructions)
}


/// Setting the parallel flag changes nothing else: the opcode, the compact
/// flag, the p bit and the variant stay as they were.
pub proof fn lemma_set_parallel_fields(i: Instruction, b: bool)
    ensures
        spec_instruction_compact(spec_instruction_set_parallel(i, b))
            == spec_instruction_compact(i),
        spec_instruction_opcode(spec_instruction_set_parallel(i, b))
            == spec_instruction_opcode(i),
        spec_instruction_p_bit(spec_instruction_set_parallel(i, b)) == spec_instruction_p_bit(i),
        !(i is Header) ==> spec_instruction_parallel(spec_instruction_set_parallel(i, b)) == b,
        (spec_instruction_set_parallel(i, b) is Header) <==> (i is Header),
{
}

/// Patching the PCE1 base changes nothing else: the opcode, the compact
/// flag and the parallel flag stay as they were.
pub proof fn lemma_patch_pce1_fields(i: Instruction, address: u32)
    ensures
        spec_instruction_compact(spec_patch_pce1_one(i, address)) == spec_instruction_compact(i),
        spec_instruction_opcode(spec_patch_pce1_one(i, address)) == spec_instruction_opcode(i),
        spec_instruction_parallel(spec_patch_pce1_one(i, address))
            == spec_instruction_parallel(i),
{
}

/// The bytes a sequence of decoded instructions occupies: two per compact
/// record, four per full record.
pub open spec fn spec_total_size(s: Seq<Instruction>) -> int
    decreases s.len(),
{
    if s.len() == 0 {
        0
    } else {
        spec_instruction_size(s.first()) + spec_total_size(s.drop_first())
    }
}

proof fn lemma_total_size_push(s: Seq<Instruction>, x: Instruction)
    ensures
        spec_total_size(s.push(x)) == spec_total_size(s) + spec_instruction_size(x),
    decreases s.len(),
{
    if s.len() == 0 {
        assert(s.push(x).first() == x);
        assert(s.push(x).drop_first() =~= Seq::<Instruction>::empty());
        assert(spec_total_size(Seq::<Instruction>::empty()) == 0);
    } else {
        assert(s.push(x).first() == s.first());
        assert(s.push(x).drop_first() =~= s.drop_first().push(x));
        lemma_total_size_push(s.drop_first(), x);
    }
}

#[verifier::rlimit(50)]
proof fn lemma_total_size_patch(s: Seq<Instruction>, address: u32)
    ensures
        spec_total_size(spec_patch_pce1(s, address)) == spec_total_size(s),
    decreases s.len(),
{
    if s.len() == 0 {
    } else {
        let mapped = seq![spec_patch_pce1_one(s.first(), address)] + spec_patch_pce1(
            s.drop_first(),
            address,
        );
        assert(mapped.first() == spec_patch_pce1_one(s.first(), address));
        assert(mapped.drop_first() =~= spec_patch_pce1(s.drop_first(), address));
        lemma_patch_pce1_fields(s.first(), address);
        lemma_total_size_patch(s.drop_first(), address);
    }
}

proof fn lemma_walk_total_size(
    packet: Seq<u8>,
    fphead: Option<CompactInstructionHeader>,
    index: int,
    prev_p: bool,
)
    requires
        0 <= index <= 28,
        index % 2 == 0,
        index % 4 == 2 ==> fphead is Some && fphead->0.layout@[index / 4],
        spec_packet_walk(packet, fphead, index, prev_p) is Ok,
    ensures
        spec_total_size(spec_packet_walk(packet, fphead, index, prev_p)->Ok_0) == 28 - index,
    decreases 28 - index,
{
    if index >= 28 {
    } else {
        let compact_slot = fphead is Some && fphead->0.layout@[index / 4];
        if compact_slot {
            let op = le_half_word(packet[index], packet[index + 1]);
            let instr = spec_instruction_set_parallel(
                spec_read_compact_instruction(op, fphead),
                prev_p,
            );
            lemma_opcode_round_trip(op, fphead);
            lemma_set_parallel_fields(spec_read_compact_instruction(op, fphead), prev_p);
            let next_p = fphead->0.compact_p_bits@[index / 2];
            let rest = spec_packet_walk(packet, fphead, index + 2, next_p);
            lemma_walk_total_size(packet, fphead, index + 2, next_p);
            assert((seq![instr] + rest->Ok_0).drop_first() =~= rest->Ok_0);
        } else {
            let op = le_word(
                packet[index],
                packet[index + 1],
                packet[index + 2],
                packet[index + 3],
            );
            let instr = spec_instruction_set_parallel(spec_read_instruction(op, fphead), prev_p);
            lemma_opcode_round_trip(op, fphead);
            lemma_set_parallel_fields(spec_read_instruction(op, fphead), prev_p);
            let next_p = spec_instruction_p_bit(instr);
            let rest = spec_packet_walk(packet, fphead, index + 4, next_p);
            lemma_walk_total_size(packet, fphead, index + 4, next_p);
            assert((seq![instr] + rest->Ok_0).drop_first() =~= rest->Ok_0);
        }
    }
}

/// Every successfully decoded packet accounts for exactly its 32 bytes:
/// the instruction sizes, two bytes per compact record and four per full
/// one, sum to the packet size.
pub proof fn lemma_packet_total_size(packet: Seq<u8>, address: u32)
    requires
        packet.len() == 32,
        spec_read_packet(packet, address) is Ok,
    ensures
        spec_total_size(spec_read_packet(packet, address)->Ok_0) == 32,
{
    let last_op = le_word(packet[28], packet[29], packet[30], packet[31]);
    let last = spec_read_instruction(last_op, None);
    let fphead = match last {
        Instruction::Header(h) => Some(h),
        _ => None,
    };
    lemma_walk_total_size(packet, fphead, 0, false);
    let walked = spec_packet_walk(packet, fphead, 0, false)->Ok_0;
    lemma_opcode_round_trip(last_op, None);
    lemma_total_size_push(walked, last);
    lemma_total_size_patch(walked.push(last), address);
}

/// The first instruction of every successfully decoded packet is never
/// marked parallel-with-previous.
pub proof fn lemma_first_instruction_not_parallel(packet: Seq<u8>, address: u32)
    requires
        packet.len() == 32,
        spec_read_packet(packet, address) is Ok,
    ensures
        spec_read_packet(packet, address)->Ok_0.len() > 0,
        !spec_instruction_parallel(spec_read_packet(packet, address)->Ok_0[0]),
{
    let last_op = le_word(packet[28], packet[29], packet[30], packet[31]);
    let last = spec_read_instruction(last_op, None);
    let fphead = match last {
        Instruction::Header(h) => Some(h),
        _ => None,
    };
    let walk_result = spec_packet_walk(packet, fphead, 0, false);
    let compact_slot = fphead is Some && fphead->0.layout@[0];
    if compact_slot {
        let op = le_half_word(packet[0], packet[1]);
        let decoded = spec_read_compact_instruction(op, fphead);
        lemma_set_parallel_fields(decoded, false);
    } else {
        let op = le_word(packet[0], packet[1], packet[2], packet[3]);
        let decoded = spec_read_instruction(op, fphead);
        lemma_set_parallel_fields(decoded, false);
    }
    let walked = walk_result->Ok_0;
    lemma_patch_pce1_pointwise(walked.push(last), address);
    lemma_patch_pce1_fields(walked.push(last)[0], address);
}

proof fn lemma_walk_full_count(
    packet: Seq<u8>,
    fphead: Option<CompactInstructionHeader>,
    index: int,
    prev_p: bool,
)
    requires
        0 <= index <= 28,
        index % 4 == 0,
        fphead is Some ==> forall|i: int| 0 <= i < 7 ==> !fphead->0.layout@[i],
        spec_packet_walk(packet, fphead, index, prev_p) is Ok,
    ensures
        spec_packet_walk(packet, fphead, index, prev_p)->Ok_0.len() == (28 - index) / 4,
    decreases 28 - index,
{
    if index >= 28 {
    } else {
        let op = le_word(packet[index], packet[index + 1], packet[index + 2], packet[index + 3]);
        let instr = spec_instruction_set_parallel(spec_read_instruction(op, fphead), prev_p);
        lemma_opcode_round_trip(op, fphead);
        lemma_set_parallel_fields(spec_read_instruction(op, fphead), prev_p);
        let next_p = spec_instruction_p_bit(instr);
        lemma_walk_full_count(packet, fphead, index + 4, next_p);
    }
}

/// A packet whose trailing word is a compact instruction header with an
/// all-false layout decodes to exactly eight instructions: seven full
/// 32-bit records and the header.
pub proof fn lemma_no_compact_slots_packet_length(packet: Seq<u8>, address: u32)
    requires
        packet.len() == 32,
        spec_read_packet(packet, address) is Ok,
        spec_read_instruction(
            le_word(packet[28], packet[29], packet[30], packet[31]),
            None,
        ) is Header,
        forall|i: int|
            0 <= i < 7 ==> !spec_read_instruction(
                le_word(packet[28], packet[29], packet[30], packet[31]),
                None,
            )->Header_0.layout@[i],
    ensures
        spec_read_packet(packet, address)->Ok_0.len() == 8,
{
    let last_op = le_word(packet[28], packet[29], packet[30], packet[31]);
    let last = spec_read_instruction(last_op, None);
    let fphead = match last {
        Instruction::Header(h) => Some(h),
        _ => None,
    };
    lemma_walk_full_count(packet, fphead, 0, false);
    lemma_patch_pce1_pointwise(spec_packet_walk(packet, fphead, 0, false)->Ok_0.push(last), address);
}

/// Decoding a packet is referentially transparent: it is a pure function
/// of the packet bytes and the base address, and `read_packet` is proved
/// to return exactly this function of its arguments.
pub proof fn lemma_read_packet_referentially_transparent(
    packet1: Seq<u8>,
    address1: u32,
    packet2: Seq<u8>,
    address2: u32,
)
    requires
        packet1 == packet2,
        address1 == address2,
    ensures
        spec_read_packet(packet1, address1) == spec_read_packet(packet2, address2),
{
}

} // verus!
