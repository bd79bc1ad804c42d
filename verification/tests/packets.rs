use c64x_disasm::disasm::{read_packet, Instruction, PACKET_SIZE};
use c64x_disasm::error::DecodeError;

fn word_at(packet: &mut [u8; 32], index: usize, word: u32) {
    let bytes = word.to_le_bytes();
    packet[index] = bytes[0];
    packet[index + 1] = bytes[1];
    packet[index + 2] = bytes[2];
    packet[index + 3] = bytes[3];
}

fn half_at(packet: &mut [u8; 32], index: usize, half: u16) {
    let bytes = half.to_le_bytes();
    packet[index] = bytes[0];
    packet[index + 1] = bytes[1];
}

#[test]
fn eight_nops() {
    let packet = [0u8; 32];
    let instructions = read_packet(packet, 0).unwrap();
    assert_eq!(instructions.len(), 8);
    for instruction in &instructions {
        assert_eq!(instruction.instruction(), "NOP");
        assert_eq!(instruction.operands(), "");
        assert_eq!(instruction.opcode(), 0);
        assert!(!instruction.is_compact());
        assert!(!instruction.is_parallel());
    }
}

#[test]
fn mvk_inside_a_packet() {
    // Word 0 encodes MVK.S1 0x1234, A3; the rest are NOPs.
    let mut packet = [0u8; 32];
    word_at(&mut packet, 0, (0b1010 << 2) | (0x1234 << 7) | (3 << 23));
    let instructions = read_packet(packet, 0).unwrap();
    assert_eq!(instructions[0].instruction(), "MVK.S1");
    assert_eq!(instructions[0].operands(), "0x1234, A3");
}

#[test]
fn fphead_packet_with_one_compact_slot() {
    // The trailing word is a header with layout slot 0 compact; slot 0
    // holds two 16-bit compact MVKs, slots 1..6 hold full NOPs.
    let mut packet = [0u8; 32];
    // Compact S-unit MVK with constant 0 and destination A0.
    half_at(&mut packet, 0, 0b1001 << 1);
    half_at(&mut packet, 2, 0b1001 << 1);
    word_at(&mut packet, 28, (0b1110 << 28) | (1 << 21));
    let instructions = read_packet(packet, 0).unwrap();
    // Two compact records, six full records, and the trailing header.
    assert_eq!(instructions.len(), 9);
    assert!(instructions[0].is_compact());
    assert!(instructions[1].is_compact());
    for i in 2..8 {
        assert!(!instructions[i].is_compact());
        assert_eq!(instructions[i].instruction(), "NOP");
    }
    assert_eq!(instructions[0].instruction(), "MVK.S1");
    assert_eq!(instructions[0].operands(), "0x0000, A0");
    assert_eq!(instructions[8].instruction(), ".fphead");
    assert!(matches!(instructions[8], Instruction::Header(_)));
}

#[test]
fn branch_gets_the_packet_base_address() {
    // Word 0 is a branch with an encoded displacement of -4, scaled by
    // four; the base 0x00001000 is patched in by the packet decoder.
    let mut packet = [0u8; 32];
    word_at(&mut packet, 0, (0b100 << 2) | (0x1FFFFC << 7));
    let instructions = read_packet(packet, 0x00001000).unwrap();
    assert_eq!(instructions[0].instruction(), "B.S1");
    assert_eq!(instructions[0].operands(), "0x00000FF0 (PCE1-0x00000010)");
}

#[test]
fn compact_callp_in_a_packet() {
    // The trailing header enables compact branches and marks slot 0
    // compact; slot 0 holds the scs10 CALLP and a compact NOP.
    let mut packet = [0u8; 32];
    half_at(&mut packet, 0, 0x001A);
    half_at(&mut packet, 2, 0x0C6E);
    word_at(&mut packet, 28, (0b1110 << 28) | (1 << 21) | (1 << 15));
    let instructions = read_packet(packet, 0).unwrap();
    assert_eq!(instructions[0].instruction(), "CALLP.S1");
    assert_eq!(instructions[0].instruction_clean(), "CALLP");
    assert_eq!(instructions[0].operands(), "0x00000000 (PCE1-0x00000000), A3");
    assert_eq!(instructions[1].instruction(), "NOP");
    assert!(instructions[1].is_compact());
}

#[test]
fn invalid_word_in_a_packet() {
    let mut packet = [0u8; 32];
    word_at(&mut packet, 0, 0xFFFFFFFF);
    let instructions = read_packet(packet, 0).unwrap();
    assert_eq!(instructions[0].instruction(), "INVALID INSTRUCTION");
    assert_eq!(instructions[0].opcode(), 0xFFFFFFFF);
    assert_eq!(instructions.len(), 8);
}

#[test]
fn header_outside_the_last_slot_fails_the_packet() {
    let mut packet = [0u8; 32];
    // An all-false-layout header in slot 0; the trailing word is a NOP.
    word_at(&mut packet, 0, 0b1110 << 28);
    assert_eq!(read_packet(packet, 0).err(), Some(DecodeError::InvalidData));
}

#[test]
fn header_with_empty_layout_gives_eight_instructions() {
    // The trailing word is a header whose layout holds no compact slot:
    // seven full instructions and the header itself.
    let mut packet = [0u8; 32];
    word_at(&mut packet, 28, 0b1110 << 28);
    let instructions = read_packet(packet, 0).unwrap();
    assert_eq!(instructions.len(), 8);
    for i in 0..7 {
        assert!(!instructions[i].is_compact());
    }
    assert!(matches!(instructions[7], Instruction::Header(_)));
}

#[test]
fn packet_sizes_sum_to_packet_size() {
    // With one compact slot: 2 + 2 + 6 * 4 + 4 = 32 bytes.
    let mut packet = [0u8; 32];
    half_at(&mut packet, 0, 0b1001 << 1);
    half_at(&mut packet, 2, 0b1001 << 1);
    word_at(&mut packet, 28, (0b1110 << 28) | (1 << 21));
    let instructions = read_packet(packet, 0).unwrap();
    let total: usize = instructions
        .iter()
        .map(|i| if i.is_compact() { 2 } else { 4 })
        .sum();
    assert_eq!(total, PACKET_SIZE);

    // Without compact slots: 8 * 4 = 32 bytes.
    let plain = read_packet([0u8; 32], 0).unwrap();
    let total: usize = plain
        .iter()
        .map(|i| if i.is_compact() { 2 } else { 4 })
        .sum();
    assert_eq!(total, PACKET_SIZE);
}

#[test]
fn first_instruction_is_never_parallel() {
    // The p bit of word 0 is set, so the *second* instruction is marked
    // parallel; the first never is.
    let mut packet = [0u8; 32];
    word_at(&mut packet, 0, 1);
    let instructions = read_packet(packet, 0).unwrap();
    assert!(!instructions[0].is_parallel());
    assert!(instructions[1].is_parallel());
    assert!(!instructions[2].is_parallel());
}

#[test]
fn compact_p_bits_drive_the_parallel_chain() {
    // The header marks slot 0 compact and sets the p bit of compact
    // position 0: the second compact instruction executes in parallel.
    let mut packet = [0u8; 32];
    half_at(&mut packet, 0, 0b1001 << 1);
    half_at(&mut packet, 2, 0b1001 << 1);
    word_at(&mut packet, 28, (0b1110 << 28) | (1 << 21) | 1);
    let instructions = read_packet(packet, 0).unwrap();
    assert!(!instructions[0].is_parallel());
    assert!(instructions[1].is_parallel());
    assert!(!instructions[2].is_parallel());
}

#[test]
fn read_packet_is_referentially_transparent() {
    let mut packet = [0u8; 32];
    word_at(&mut packet, 0, (0b1010 << 2) | (0x1234 << 7) | (3 << 23));
    word_at(&mut packet, 4, (0b100 << 2) | (0x1FFFFC << 7));
    let first = read_packet(packet, 0x2000).unwrap();
    let second = read_packet(packet, 0x2000).unwrap();
    assert_eq!(first.len(), second.len());
    for (a, b) in first.iter().zip(second.iter()) {
        assert_eq!(a.opcode(), b.opcode());
        assert_eq!(a.is_compact(), b.is_compact());
        assert_eq!(a.is_parallel(), b.is_parallel());
        assert_eq!(a.instruction(), b.instruction());
        assert_eq!(a.operands(), b.operands());
    }
}

#[test]
fn packet_opcode_round_trip() {
    let mut packet = [0u8; 32];
    word_at(&mut packet, 0, (0b1010 << 2) | (0x1234 << 7) | (3 << 23));
    word_at(&mut packet, 4, 0xFFFFFFFF);
    let instructions = read_packet(packet, 0).unwrap();
    assert_eq!(instructions[0].opcode(), (0b1010 << 2) | (0x1234 << 7) | (3 << 23));
    assert_eq!(instructions[1].opcode(), 0xFFFFFFFF);
    for i in 2..8 {
        assert_eq!(instructions[i].opcode(), 0);
    }
}

#[test]
fn invalid_word_still_drives_the_parallel_chain() {
    // Bit 0 of a full 32-bit slot is its p bit even when nothing decodes
    // the word: 0xFFFFFFFF has it set, so the next instruction is marked
    // parallel-with-previous.
    let mut packet = [0u8; 32];
    word_at(&mut packet, 0, 0xFFFFFFFF);
    let instructions = read_packet(packet, 0).unwrap();
    assert_eq!(instructions[0].instruction(), "INVALID INSTRUCTION");
    assert!(!instructions[0].is_parallel());
    assert!(instructions[0].get_p_bit());
    assert!(instructions[1].is_parallel());
    assert!(!instructions[2].is_parallel());
}
