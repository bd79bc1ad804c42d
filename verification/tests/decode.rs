use c64x_disasm::branching::{BranchInstruction, BranchUsing};
use c64x_disasm::disasm::{read_compact_instruction, read_instruction, Instruction};
use c64x_disasm::error::DecodeError;
use c64x_disasm::fphead::CompactInstructionHeader;
use c64x_disasm::instruction::{ConditionalOperation, DataSize, InstructionInput, Unit};
use c64x_disasm::invalid::InvalidInstruction;
use c64x_disasm::moving::{MoveConstantInstruction, MoveRegisterInstruction};
use c64x_disasm::nop::NOPInstruction;
use c64x_disasm::register::{ControlRegister, Register, RegisterFile};

/// The S-unit MVK encoding of "MVK.S1 0x1234, A3": p = 0, s = 0, the
/// 4-bit prefix 0b1010, h = 0, cst = 0x1234, dst = 3, unconditional.
const MVK_S1_0X1234_A3: u32 = (0b1010 << 2) | (0x1234 << 7) | (3 << 23);

#[test]
fn mvk_s1_decodes_constant_and_destination() {
    let instruction = MoveConstantInstruction::new(&InstructionInput::new(MVK_S1_0X1234_A3))
        .unwrap();
    assert_eq!(instruction.constant, 0x1234);
    assert_eq!(instruction.destination, Register::A(3));
    assert_eq!(instruction.unit, Unit::S);
    assert!(!instruction.high);
    assert_eq!(instruction.instruction(), "MVK.S1");
    assert_eq!(instruction.instruction_clean(), "MVK");
    assert_eq!(instruction.operands(), "0x1234, A3");
}

#[test]
fn mvk_h_bit_selects_mvkh() {
    let opcode = MVK_S1_0X1234_A3 | (1 << 6);
    let instruction = MoveConstantInstruction::new(&InstructionInput::new(opcode)).unwrap();
    assert!(instruction.high);
    assert_eq!(instruction.instruction(), "MVKH.S1");
}

#[test]
fn mvk_with_sample_word_is_still_an_s_unit_mvk() {
    // This word carries the same prefix with cst = 0x8D00 and dst = 4.
    let instruction = read_instruction(InstructionInput::new(0x02468028)).unwrap();
    assert_eq!(instruction.instruction(), "MVK.S1");
    match instruction {
        Instruction::MoveConstant(mc) => {
            assert_eq!(mc.constant, 0x8D00);
            assert_eq!(mc.destination, Register::A(4));
        },
        _ => panic!("expected a move constant"),
    }
}

#[test]
fn mvk_rejects_other_words() {
    assert_eq!(
        MoveConstantInstruction::new(&InstructionInput::new(0)).err(),
        Some(DecodeError::InvalidInput)
    );
}

#[test]
fn mvk_compact_single_unit_reassembles_constant() {
    // Compact S-unit MVK: s = 0, prefix 0b1001, cst65 = 0b10, dst = 3,
    // cst7 = 1, cst43 = 0b01, cst20 = 0b110.
    let half: u32 = (0b1001 << 1) | (0b10 << 5) | (3 << 7) | (1 << 10) | (0b01 << 11)
        | (0b110 << 13);
    let instruction = MoveConstantInstruction::new_compact(&InstructionInput::new(half))
        .unwrap();
    assert_eq!(
        instruction.constant,
        0b110 | (0b01 << 3) | (0b10 << 5) | (1 << 7)
    );
    assert_eq!(instruction.destination, Register::A(3));
    assert_eq!(instruction.unit, Unit::S);
    assert!(instruction.instruction_data.compact);
}

#[test]
fn mv_s_unit_crosspath_appends_x() {
    // MV.S: p = 0, s = 0, prefix 0b0001101000, x = 1, zero field,
    // src = 5 (cross side B), dst = 2, unconditional.
    let opcode: u32 = (0b0001101000 << 2) | (1 << 12) | (5 << 18) | (2 << 23);
    let instruction = MoveRegisterInstruction::new(&InstructionInput::new(opcode)).unwrap();
    assert_eq!(
        instruction.source,
        RegisterFile::GeneralPurpose(Register::B(5))
    );
    assert_eq!(
        instruction.destination,
        RegisterFile::GeneralPurpose(Register::A(2))
    );
    assert_eq!(instruction.instruction_clean(), "MV");
    assert_eq!(instruction.instruction(), "MV.S1X");
    assert_eq!(instruction.operands(), "B5, A2");
}

#[test]
fn mvd_is_the_delayed_move_on_m() {
    // MV.M: p = 0, s = 1, prefix 0x3C, x = 0, inner field 0x1A,
    // src = 1, dst = 2, unconditional.
    let opcode: u32 = (1 << 1) | (0x3C << 2) | (0x1A << 13) | (1 << 18) | (2 << 23);
    let instruction = MoveRegisterInstruction::new(&InstructionInput::new(opcode)).unwrap();
    assert!(instruction.delayed);
    assert_eq!(instruction.instruction_clean(), "MVD");
    assert_eq!(instruction.instruction(), "MVD.M2");
    assert_eq!(instruction.operands(), "B1, B2");
}

#[test]
fn mvc_reads_a_control_register() {
    // MVC control-to-register: p = 0, s = 1 (required), prefix
    // 0b0011111000, x = 0, zero field, crlo = 0b01101 (ILC), dst = 4.
    let opcode: u32 = (1 << 1) | (0b0011111000 << 2) | (0b01101 << 18) | (4 << 23);
    let instruction = MoveRegisterInstruction::new(&InstructionInput::new(opcode)).unwrap();
    assert_eq!(instruction.source, RegisterFile::Control(ControlRegister::ILC));
    assert_eq!(
        instruction.destination,
        RegisterFile::GeneralPurpose(Register::B(4))
    );
    assert_eq!(instruction.instruction_clean(), "MVC");
    assert_eq!(instruction.instruction(), "MVC.S2");
    assert_eq!(instruction.operands(), "ILC, B4");
}

#[test]
fn mvc_writes_a_control_register() {
    // MVC register-to-control: prefix 0b0011101000, src = 4,
    // crlo = 0b01101 (ILC).
    let opcode: u32 = (1 << 1) | (0b0011101000 << 2) | (4 << 18) | (0b01101 << 23);
    let instruction = MoveRegisterInstruction::new(&InstructionInput::new(opcode)).unwrap();
    assert_eq!(
        instruction.source,
        RegisterFile::GeneralPurpose(Register::B(4))
    );
    assert_eq!(instruction.destination, RegisterFile::Control(ControlRegister::ILC));
    assert_eq!(instruction.operands(), "B4, ILC");
}

#[test]
fn mv_compact_extends_source_index_and_crosses() {
    // Compact MV: s = 0, prefix 0b11, unit = D (0b10), match 0,
    // ms_bit = 0 (extend the source), src = 2, ms = 0b01, x = 1, dst = 5.
    let half: u32 = (0b11 << 1) | (0b10 << 3) | (0 << 5) | (0 << 6) | (2 << 7) | (0b01 << 10)
        | (1 << 12) | (5 << 13);
    let instruction = MoveRegisterInstruction::new_compact(&InstructionInput::new(half))
        .unwrap();
    // src = 2 + (1 << 3) = 10, complemented to side B by the cross path.
    assert_eq!(
        instruction.source,
        RegisterFile::GeneralPurpose(Register::B(10))
    );
    assert_eq!(
        instruction.destination,
        RegisterFile::GeneralPurpose(Register::A(5))
    );
    assert_eq!(instruction.unit, Unit::D);
    assert!(instruction.instruction_data.compact);
}

#[test]
fn mvc_compact_targets_ilc() {
    // Compact MVC: s = 1, prefix 0b110111, src = 3, suffix 0b110110.
    let half: u32 = 1 | (0b110111 << 1) | (3 << 7) | (0b110110 << 10);
    let instruction = MoveRegisterInstruction::new_compact(&InstructionInput::new(half))
        .unwrap();
    assert_eq!(
        instruction.source,
        RegisterFile::GeneralPurpose(Register::B(3))
    );
    assert_eq!(instruction.destination, RegisterFile::Control(ControlRegister::ILC));
    assert_eq!(instruction.instruction_clean(), "MVC");
}

/// A 21-bit displacement branch: p = 0, s = 0, prefix 0b100,
/// cst = -4 (0x1FFFFC in 21 bits), unconditional.
const BRANCH_MINUS_FOUR: u32 = (0b100 << 2) | (0x1FFFFC << 7);

#[test]
fn branch_displacement_is_scaled_by_four() {
    let mut instruction = BranchInstruction::new(&InstructionInput::new(BRANCH_MINUS_FOUR))
        .unwrap();
    assert_eq!(instruction.branch_using, BranchUsing::Displacement(-16));
    assert_eq!(instruction.nop_count, 0);
    assert_eq!(instruction.instruction_clean(), "B");
    assert_eq!(instruction.instruction(), "B.S1");
    // Before the packet decoder patches the base, the target cannot render.
    assert_eq!(instruction.operands(), "ERROR - PCE1 ADDRESS EMPTY");
    instruction.set_pce1_address(0x00001000);
    assert_eq!(instruction.operands(), "0x00000FF0 (PCE1-0x00000010)");
}

#[test]
fn branch_displacement_wraps_modulo_2_to_32() {
    let mut instruction = BranchInstruction::new(&InstructionInput::new(BRANCH_MINUS_FOUR))
        .unwrap();
    instruction.set_pce1_address(0x00000004);
    // 4 - 16 wraps around the 32-bit address space.
    assert_eq!(instruction.operands(), "0xFFFFFFF4 (PCE1-0x00000010)");
}

#[test]
fn branch_register_form_uses_crosspath() {
    // Register branch: p = 0, s = 0, prefix 0xD8, x = 1, zero field,
    // src = 6 (cross side B), zero field, unconditional.
    let opcode: u32 = (0xD8 << 2) | (1 << 12) | (6 << 18);
    let instruction = BranchInstruction::new(&InstructionInput::new(opcode)).unwrap();
    assert_eq!(instruction.branch_using, BranchUsing::Register(Register::B(6)));
    assert_eq!(instruction.instruction(), "B.S1X");
    assert_eq!(instruction.operands(), "B6");
}

#[test]
fn branch_pointer_form_selects_irp_and_nrp() {
    // Pointer branch: p = 0, 17-bit prefix 0x71, op = 0b110 (IRP).
    let opcode: u32 = (0x71 << 1) | (0b110 << 18);
    let instruction = BranchInstruction::new(&InstructionInput::new(opcode)).unwrap();
    assert_eq!(
        instruction.branch_using,
        BranchUsing::Pointer(ControlRegister::IRP)
    );
    assert_eq!(instruction.operands(), "IRP");
    let opcode: u32 = (0x71 << 1) | (0b111 << 18);
    let instruction = BranchInstruction::new(&InstructionInput::new(opcode)).unwrap();
    assert_eq!(
        instruction.branch_using,
        BranchUsing::Pointer(ControlRegister::NRP)
    );
    assert_eq!(instruction.operands(), "NRP");
}

#[test]
fn bnop_renders_its_delay_count() {
    // BNOP: p = 0, s = 0, prefix 0x48, nop = 3, cst = 8, unconditional.
    let opcode: u32 = (0x48 << 2) | (3 << 13) | (8 << 16);
    let mut instruction = BranchInstruction::new(&InstructionInput::new(opcode)).unwrap();
    assert_eq!(instruction.nop_count, 3);
    // No header is active, so the displacement still scales by four.
    assert_eq!(instruction.branch_using, BranchUsing::Displacement(32));
    assert_eq!(instruction.instruction(), "BNOP.S1");
    instruction.set_pce1_address(0);
    assert_eq!(instruction.operands(), "0x00000020 (PCE1+0x00000020), 3");
}

fn header_with_branches() -> CompactInstructionHeader {
    let word: u32 = (0b1110 << 28) | (1 << 21) | (1 << 15);
    CompactInstructionHeader::new(&InstructionInput::new(word)).unwrap()
}

#[test]
fn compact_branch_needs_a_header_with_br() {
    let scs10: u32 = 0x001A;
    assert_eq!(
        BranchInstruction::new_compact(&InstructionInput::new(scs10)).err(),
        Some(DecodeError::InvalidInput)
    );
    let no_branches: u32 = (0b1110 << 28) | (1 << 21);
    let header = CompactInstructionHeader::new(&InstructionInput::new(no_branches)).unwrap();
    assert!(!header.decode_compact_branches);
    let input = InstructionInput { opcode: scs10, fphead: Some(header) };
    assert_eq!(
        BranchInstruction::new_compact(&input).err(),
        Some(DecodeError::InvalidInput)
    );
}

#[test]
fn compact_callp_has_the_reserved_predicate() {
    let input = InstructionInput { opcode: 0x001A, fphead: Some(header_with_branches()) };
    let mut instruction = BranchInstruction::new_compact(&input).unwrap();
    assert_eq!(
        instruction.instruction_data.conditional_operation,
        Some(ConditionalOperation::ReservedLow)
    );
    assert_eq!(instruction.nop_count, 5);
    assert_eq!(instruction.instruction_clean(), "CALLP");
    assert_eq!(instruction.instruction(), "CALLP.S1");
    instruction.set_pce1_address(0);
    // The operand list ends with the return register on the branch side.
    assert_eq!(instruction.operands(), "0x00000000 (PCE1-0x00000000), A3");
}

#[test]
fn compact_branch_sbs7_scales_by_two() {
    // sbs7: s = 1, prefix 0x5, cst = -2 (0b1111110 in 7 bits), nop = 7.
    let half: u32 = 1 | (0x5 << 1) | (0b1111110 << 6) | (7 << 13);
    let input = InstructionInput { opcode: half, fphead: Some(header_with_branches()) };
    let instruction = BranchInstruction::new_compact(&input).unwrap();
    assert_eq!(instruction.branch_using, BranchUsing::Displacement(-4));
    // The delay count field caps at five.
    assert_eq!(instruction.nop_count, 5);
    assert!(instruction.side);
}

#[test]
fn compact_branch_sx1b_uses_a_b_register() {
    // sx1b: s = 0, prefix 0x37, src = 9, zero field, nop = 2.
    let half: u32 = (0x37 << 1) | (9 << 7) | (2 << 13);
    let input = InstructionInput { opcode: half, fphead: Some(header_with_branches()) };
    let instruction = BranchInstruction::new_compact(&input).unwrap();
    assert_eq!(instruction.branch_using, BranchUsing::Register(Register::B(9)));
    assert_eq!(instruction.nop_count, 2);
}

#[test]
fn nop_and_idle_forms() {
    let nop = NOPInstruction::new(&InstructionInput::new(0)).unwrap();
    assert_eq!(nop.count, 0);
    assert_eq!(nop.instruction(), "NOP");
    assert_eq!(nop.operands(), "");

    // count = 5 renders the cycle count plus one.
    let five = NOPInstruction::new(&InstructionInput::new(5 << 13)).unwrap();
    assert_eq!(five.count, 5);
    assert_eq!(five.instruction(), "NOP");
    assert_eq!(five.operands(), "6");

    let idle = NOPInstruction::new(&InstructionInput::new(0b1111 << 13)).unwrap();
    assert_eq!(idle.instruction(), "IDLE");
    assert_eq!(idle.operands(), "");

    assert_eq!(
        NOPInstruction::new(&InstructionInput::new(2)).err(),
        Some(DecodeError::InvalidInput)
    );
}

#[test]
fn nop_compact_form() {
    let half: u32 = 0xC6E | (2 << 13);
    let nop = NOPInstruction::new_compact(&InstructionInput::new(half)).unwrap();
    assert_eq!(nop.count, 2);
    assert!(nop.instruction_data.compact);
    assert_eq!(nop.operands(), "3");
    assert_eq!(
        NOPInstruction::new_compact(&InstructionInput::new(0)).err(),
        Some(DecodeError::InvalidInput)
    );
}

#[test]
fn fphead_fields_decode() {
    // SAT = 1, BR = 1, DSZ_1 = 2, DSZ_2 = 1, RS = 1, PROT = 1,
    // layout = 0b1010101, p bits 0 and 13 set.
    let word: u32 = (0b1110 << 28) | (0b1010101 << 21) | (1 << 20) | (1 << 19) | (1 << 18)
        | (2 << 16) | (1 << 15) | (1 << 14) | 1 | (1 << 13);
    let header = CompactInstructionHeader::new(&InstructionInput::new(word)).unwrap();
    assert!(header.saturate);
    assert!(header.decode_compact_branches);
    assert!(header.register_set);
    assert!(header.loads_protected);
    assert_eq!(header.primary_data_size, DataSize::DoubleWord);
    assert_eq!(header.secondary_data_size, DataSize::NonAlignedWord);
    assert_eq!(
        header.layout,
        [true, false, true, false, true, false, true]
    );
    assert!(header.compact_p_bits[0]);
    assert!(header.compact_p_bits[13]);
    assert!(!header.compact_p_bits[1]);
    assert_eq!(header.instruction(), ".fphead");
    assert_eq!(header.operands(), "p, h, DW, NW, br, sat, 1010101");
}

#[test]
fn fphead_data_size_table_word_mode() {
    for (dsz1, expected) in [
        (0u32, DataSize::ByteUnsigned),
        (1, DataSize::Byte),
        (2, DataSize::HalfWordUnsigned),
        (3, DataSize::HalfWord),
    ] {
        let word: u32 = (0b1110 << 28) | (dsz1 << 16);
        let header = CompactInstructionHeader::new(&InstructionInput::new(word)).unwrap();
        assert_eq!(header.primary_data_size, DataSize::Word);
        assert_eq!(header.secondary_data_size, expected);
    }
}

#[test]
fn fphead_rejects_other_words() {
    assert_eq!(
        CompactInstructionHeader::new(&InstructionInput::new(0)).err(),
        Some(DecodeError::InvalidInput)
    );
}

#[test]
fn fphead_has_no_compact_form() {
    assert_eq!(
        CompactInstructionHeader::new_compact(&InstructionInput::new(0xC6E)).err(),
        Some(DecodeError::Unsupported)
    );
}

#[test]
fn invalid_word_is_a_sentinel() {
    let instruction = read_instruction(InstructionInput::new(0xFFFFFFFF)).unwrap();
    assert_eq!(instruction.instruction(), "INVALID INSTRUCTION");
    assert_eq!(instruction.operands(), "");
    assert_eq!(instruction.opcode(), 0xFFFFFFFF);
    assert!(matches!(instruction, Instruction::Invalid(_)));

    let sentinel = InvalidInstruction::new_compact(&InstructionInput::new(0xBEEF)).unwrap();
    assert_eq!(sentinel.instruction(), "INVALID COMPACT INSTRUCTION");
}

#[test]
fn dispatcher_opcode_round_trip() {
    for opcode in [0u32, MVK_S1_0X1234_A3, BRANCH_MINUS_FOUR, 0xFFFFFFFF, 0xE0200000] {
        let instruction = read_instruction(InstructionInput::new(opcode)).unwrap();
        assert_eq!(instruction.opcode(), opcode);
        assert!(!instruction.is_compact());
    }
    for half in [0u32, 0x001A, 0x0C6E, 0xFFFF] {
        let input = InstructionInput { opcode: half, fphead: Some(header_with_branches()) };
        let instruction = read_compact_instruction(input).unwrap();
        assert_eq!(instruction.opcode(), half);
        assert!(instruction.is_compact());
    }
}

#[test]
fn bnop_scales_by_two_in_compact_context() {
    // The same BNOP word with an active header halves the PC granularity:
    // the encoded displacement of 8 becomes 16 bytes instead of 32.
    let opcode: u32 = (0x48 << 2) | (3 << 13) | (8 << 16);
    let input = InstructionInput { opcode, fphead: Some(header_with_branches()) };
    let instruction = BranchInstruction::new(&input).unwrap();
    assert_eq!(instruction.branch_using, BranchUsing::Displacement(16));
}

#[test]
fn compact_branch_sbs7_precedes_sbu8() {
    // sbs7 and sbu8 share their five-bit prefix and sbs7 carries no
    // further fixed field, so the ordered trial always reads this word as
    // sbs7: the upper bits become the signed constant and the delay count.
    let half: u32 = (0x5 << 1) | (0xFE << 6) | (0b11 << 14);
    let input = InstructionInput { opcode: half, fphead: Some(header_with_branches()) };
    let instruction = BranchInstruction::new_compact(&input).unwrap();
    assert_eq!(instruction.branch_using, BranchUsing::Displacement(-4));
    assert_eq!(instruction.nop_count, 5);
}

#[test]
fn compact_branch_sbs7c_tests_register_zero() {
    // sbs7c: s = 1, prefix 0b101, z = 1, match 1, cst = 2, nop = 1.
    let half: u32 = 1 | (0b101 << 1) | (1 << 4) | (1 << 5) | (2 << 6) | (1 << 13);
    let input = InstructionInput { opcode: half, fphead: Some(header_with_branches()) };
    let instruction = BranchInstruction::new_compact(&input).unwrap();
    assert_eq!(
        instruction.instruction_data.conditional_operation,
        Some(ConditionalOperation::Zero(Register::B(0)))
    );
    assert_eq!(instruction.branch_using, BranchUsing::Displacement(4));
    assert_eq!(instruction.nop_count, 1);
}

#[test]
fn mvk_compact_multi_unit_condition_codes() {
    // Multi-unit compact MVK: s = 0, prefix 0b11, unit = L, match 0b11,
    // dst = 1, match 0b010, cst = 1, cc selects the predicate.
    let base: u32 = (0b11 << 1) | (0b00 << 3) | (0b11 << 5) | (1 << 7) | (0b010 << 10)
        | (1 << 13);
    for (cc, expected) in [
        (0u32, ConditionalOperation::NonZero(Register::A(0))),
        (1, ConditionalOperation::Zero(Register::A(0))),
        (2, ConditionalOperation::NonZero(Register::B(0))),
        (3, ConditionalOperation::Zero(Register::B(0))),
    ] {
        let half = base | (cc << 14);
        let instruction = MoveConstantInstruction::new_compact(&InstructionInput::new(half))
            .unwrap();
        assert_eq!(instruction.instruction_data.conditional_operation, Some(expected));
        assert_eq!(instruction.constant, 1);
        assert_eq!(instruction.unit, Unit::L);
        assert_eq!(instruction.destination, Register::A(1));
    }
}

#[test]
fn instruction_data_default_is_all_clear() {
    let data = c64x_disasm::instruction::InstructionData::default();
    assert_eq!(data.opcode, 0);
    assert!(!data.compact);
    assert!(!data.parallel);
    assert!(!data.p_bit);
    assert_eq!(data.conditional_operation, None);
}
