use c64x_disasm::error::DecodeError;
use c64x_disasm::instruction::{ConditionalOperation, DataSize, Unit};
use c64x_disasm::parser::{parse, FieldName, ParsedVariable, ParsingInstruction};
use c64x_disasm::register::{ControlRegister, Register, RegisterFile};

#[test]
fn match_directive_accepts_exact_bits() {
    let format = vec![
        ParsingInstruction::Match { size: 4, value: 0b1010 },
        ParsingInstruction::Unsigned { size: 4, name: FieldName::Cst },
    ];
    let vars = parse(0b0101_1010, &format).unwrap();
    let cst = ParsedVariable::try_get(&vars, FieldName::Cst)
        .unwrap()
        .get_u8()
        .unwrap();
    assert_eq!(cst, 0b0101);
}

#[test]
fn match_directive_rejects_other_bits() {
    let format = vec![ParsingInstruction::Match { size: 4, value: 0b1010 }];
    let result = parse(0b1011, &format);
    assert_eq!(result.err(), Some(DecodeError::InvalidInput));
}

#[test]
fn match_multiple_accepts_any_listed_value() {
    let format = vec![ParsingInstruction::MatchMultiple {
        size: 4,
        values: vec![3, 5],
    }];
    assert!(parse(3, &format).is_ok());
    assert!(parse(5, &format).is_ok());
    assert_eq!(parse(4, &format).err(), Some(DecodeError::InvalidInput));
}

#[test]
fn bit_and_bitmatch_directives() {
    let format = vec![
        ParsingInstruction::Bit { name: FieldName::P },
        ParsingInstruction::BitMatch { name: FieldName::S, value: true },
    ];
    let vars = parse(0b11, &format).unwrap();
    assert_eq!(
        ParsedVariable::try_get(&vars, FieldName::P).unwrap().get_bool().unwrap(),
        true
    );
    assert_eq!(
        ParsedVariable::try_get(&vars, FieldName::S).unwrap().get_bool().unwrap(),
        true
    );
    assert_eq!(parse(0b01, &format).err(), Some(DecodeError::InvalidInput));
}

#[test]
fn bit_array_is_least_significant_first() {
    let format = vec![ParsingInstruction::BitArray { size: 4, name: FieldName::Layout }];
    let vars = parse(0b0011, &format).unwrap();
    let bits = ParsedVariable::try_get(&vars, FieldName::Layout)
        .unwrap()
        .get_bool_vec()
        .unwrap();
    assert_eq!(bits, vec![true, true, false, false]);
}

#[test]
fn unsigned_directive_width_selects_kind() {
    let format = vec![
        ParsingInstruction::Unsigned { size: 8, name: FieldName::Cst20 },
        ParsingInstruction::Unsigned { size: 9, name: FieldName::Cst },
    ];
    let vars = parse(0x1FF55, &format).unwrap();
    let narrow = ParsedVariable::try_get(&vars, FieldName::Cst20).unwrap();
    let wide = ParsedVariable::try_get(&vars, FieldName::Cst).unwrap();
    assert_eq!(narrow.get_u8().unwrap(), 0x55);
    assert_eq!(narrow.get_u32().unwrap(), 0x55);
    assert_eq!(wide.get_u32().unwrap(), 0x1FF);
    assert_eq!(wide.get_u8().unwrap(), 0xFF);
    assert!(narrow.get_bool().is_err());
    assert!(wide.get_register().is_err());
}

#[test]
fn signed_directive_sign_extends() {
    let format = vec![ParsingInstruction::Signed { size: 4, name: FieldName::Cst }];
    let vars = parse(0b1100, &format).unwrap();
    assert_eq!(
        ParsedVariable::try_get(&vars, FieldName::Cst).unwrap().get_i32().unwrap(),
        -4
    );
    let vars = parse(0b0100, &format).unwrap();
    assert_eq!(
        ParsedVariable::try_get(&vars, FieldName::Cst).unwrap().get_i32().unwrap(),
        4
    );
}

#[test]
fn register_directive_uses_side_bit() {
    let format = vec![
        ParsingInstruction::Bit { name: FieldName::S },
        ParsingInstruction::Register { size: 5, name: FieldName::Dst },
    ];
    let vars = parse(0b00111_1, &format).unwrap();
    assert_eq!(
        ParsedVariable::try_get(&vars, FieldName::Dst).unwrap().get_register().unwrap(),
        Register::B(7)
    );
    let vars = parse(0b00111_0, &format).unwrap();
    assert_eq!(
        ParsedVariable::try_get(&vars, FieldName::Dst).unwrap().get_register().unwrap(),
        Register::A(7)
    );
}

#[test]
fn register_crosspath_directive_flips_side() {
    let format = vec![
        ParsingInstruction::Bit { name: FieldName::S },
        ParsingInstruction::Bit { name: FieldName::X },
        ParsingInstruction::Register { size: 5, name: FieldName::Dst },
        ParsingInstruction::RegisterCrosspath { size: 5, name: FieldName::Src },
    ];
    // s = 0, x = 1: plain register on side A, cross-path register on side B.
    let vars = parse(0b00011_00010_1_0, &format).unwrap();
    assert_eq!(
        ParsedVariable::try_get(&vars, FieldName::Dst).unwrap().get_register().unwrap(),
        Register::A(2)
    );
    assert_eq!(
        ParsedVariable::try_get(&vars, FieldName::Src).unwrap().get_register().unwrap(),
        Register::B(3)
    );
}

#[test]
fn register_pair_directive_normalizes() {
    let format = vec![
        ParsingInstruction::Bit { name: FieldName::S },
        ParsingInstruction::RegisterPair { size: 5, name: FieldName::Dst },
    ];
    let vars = parse(0b00101_0, &format).unwrap();
    assert_eq!(
        ParsedVariable::try_get(&vars, FieldName::Dst).unwrap().get_register().unwrap(),
        Register::APair(5, 4)
    );
}

#[test]
fn control_register_directive_uses_crhi() {
    let format = vec![
        ParsingInstruction::Unsigned { size: 5, name: FieldName::Crhi },
        ParsingInstruction::ControlRegister { size: 5, name: FieldName::Crlo },
    ];
    // crhi = 0, crlo = 0b00010: IFR.
    let vars = parse(0b00010_00000, &format).unwrap();
    assert_eq!(
        ParsedVariable::try_get(&vars, FieldName::Crlo)
            .unwrap()
            .get_control_register()
            .unwrap(),
        ControlRegister::IFR
    );
    // crhi = 1, crlo = 0b00010: ISR.
    let vars = parse(0b00010_00001, &format).unwrap();
    assert_eq!(
        ParsedVariable::try_get(&vars, FieldName::Crlo)
            .unwrap()
            .get_control_register()
            .unwrap(),
        ControlRegister::ISR
    );
    // crlo = 0b01000 is not in the table.
    assert_eq!(
        parse(0b01000_00000, &format).err(),
        Some(DecodeError::Other)
    );
}

#[test]
fn lsd_unit_directive() {
    let format = vec![ParsingInstruction::LSDUnit { name: FieldName::UnitField }];
    assert_eq!(
        ParsedVariable::try_get(&parse(0, &format).unwrap(), FieldName::UnitField)
            .unwrap()
            .get_unit()
            .unwrap(),
        Unit::L
    );
    assert_eq!(
        ParsedVariable::try_get(&parse(1, &format).unwrap(), FieldName::UnitField)
            .unwrap()
            .get_unit()
            .unwrap(),
        Unit::S
    );
    assert_eq!(
        ParsedVariable::try_get(&parse(2, &format).unwrap(), FieldName::UnitField)
            .unwrap()
            .get_unit()
            .unwrap(),
        Unit::D
    );
    assert_eq!(parse(3, &format).err(), Some(DecodeError::Other));
}

#[test]
fn conditional_operation_directive() {
    let format = vec![ParsingInstruction::ConditionalOperation { name: FieldName::Cond }];
    // creg = 0, z = 0: unconditional.
    let vars = parse(0b0000, &format).unwrap();
    assert_eq!(
        ParsedVariable::try_get(&vars, FieldName::Cond)
            .unwrap()
            .get_conditional_operation()
            .unwrap(),
        None
    );
    // creg = 0b100, z = 1: the zero test on A1.
    let vars = parse(0b1100, &format).unwrap();
    assert_eq!(
        ParsedVariable::try_get(&vars, FieldName::Cond)
            .unwrap()
            .get_conditional_operation()
            .unwrap(),
        Some(ConditionalOperation::Zero(Register::A(1)))
    );
}

#[test]
fn missing_field_is_an_error() {
    let format = vec![ParsingInstruction::Bit { name: FieldName::P }];
    let vars = parse(1, &format).unwrap();
    assert_eq!(
        ParsedVariable::try_get(&vars, FieldName::S).err(),
        Some(DecodeError::Other)
    );
}

#[test]
fn matcher_is_deterministic_across_runs() {
    // The same opcode and format extract the same field values twice.
    let build = || {
        vec![
            ParsingInstruction::Bit { name: FieldName::P },
            ParsingInstruction::Bit { name: FieldName::S },
            ParsingInstruction::Unsigned { size: 16, name: FieldName::Cst },
            ParsingInstruction::Register { size: 5, name: FieldName::Dst },
        ]
    };
    let opcode = 0x1891A28;
    let first = parse(opcode, &build()).unwrap();
    let second = parse(opcode, &build()).unwrap();
    for name in [FieldName::P, FieldName::S] {
        assert_eq!(
            ParsedVariable::try_get(&first, name).unwrap().get_bool().unwrap(),
            ParsedVariable::try_get(&second, name).unwrap().get_bool().unwrap()
        );
    }
    assert_eq!(
        ParsedVariable::try_get(&first, FieldName::Cst).unwrap().get_u32().unwrap(),
        ParsedVariable::try_get(&second, FieldName::Cst).unwrap().get_u32().unwrap()
    );
    assert_eq!(
        ParsedVariable::try_get(&first, FieldName::Dst).unwrap().get_register().unwrap(),
        ParsedVariable::try_get(&second, FieldName::Dst).unwrap().get_register().unwrap()
    );
}

#[test]
fn register_pair_renders_adjacent_indices() {
    // Any input index normalizes to even-lower/odd-upper, rendered
    // upper-first with the indices differing by one.
    assert_eq!(Register::from_pair(5, false).to_string(), "A5:A4");
    assert_eq!(Register::from_pair(4, false).to_string(), "A5:A4");
    assert_eq!(Register::from_pair(0, true).to_string(), "B1:B0");
    assert_eq!(Register::from_pair(31, true).to_string(), "B31:B30");
}

#[test]
fn register_rendering_and_side() {
    assert_eq!(Register::from(3, false).to_string(), "A3");
    assert_eq!(Register::from(14, true).to_string(), "B14");
    assert!(!Register::from(3, false).side());
    assert!(Register::from(3, true).side());
    assert_eq!(Register::A(7).complement(), Register::B(7));
    assert_eq!(Register::BPair(9, 8).complement(), Register::APair(9, 8));
}

#[test]
fn register_add_assign_moves_indices() {
    let mut r = Register::A(3);
    r.add_assign(2);
    assert_eq!(r, Register::A(5));
    let mut p = Register::BPair(1, 0);
    p.add_assign(8);
    assert_eq!(p, Register::BPair(9, 8));
}

#[test]
fn control_register_table_and_collision() {
    assert_eq!(ControlRegister::from(0b00000, 0), Some(ControlRegister::AMR));
    assert_eq!(ControlRegister::from(0b10000, 0), Some(ControlRegister::PCE1));
    assert_eq!(ControlRegister::from(0b00010, 0b00000), Some(ControlRegister::IFR));
    assert_eq!(ControlRegister::from(0b00010, 0b00010), Some(ControlRegister::IFR));
    assert_eq!(ControlRegister::from(0b00010, 0b00001), Some(ControlRegister::ISR));
    assert_eq!(ControlRegister::from(0b01000, 0), None);
    assert_eq!(ControlRegister::from(0b10010, 7), None);
    assert_eq!(ControlRegister::from(0b01101, 0).unwrap().to_string(), "ILC");
    assert_eq!(ControlRegister::from(0b11010, 0).unwrap().to_string(), "TSR");
}

#[test]
fn register_file_side_and_rendering() {
    let general = RegisterFile::GeneralPurpose(Register::B(2));
    let control = RegisterFile::Control(ControlRegister::ILC);
    assert_eq!(general.side(), Some(true));
    assert_eq!(control.side(), None);
    assert_eq!(general.to_string(), "B2");
    assert_eq!(control.to_string(), "ILC");
}

#[test]
fn conditional_operation_table() {
    assert_eq!(ConditionalOperation::from(0, false), None);
    assert_eq!(
        ConditionalOperation::from(0, true),
        Some(ConditionalOperation::ReservedLow)
    );
    assert_eq!(
        ConditionalOperation::from(0b111, false),
        Some(ConditionalOperation::ReservedHigh)
    );
    assert_eq!(
        ConditionalOperation::from(0b100, false),
        Some(ConditionalOperation::NonZero(Register::A(1)))
    );
    assert_eq!(
        ConditionalOperation::from(0b101, true),
        Some(ConditionalOperation::Zero(Register::A(2)))
    );
    assert_eq!(
        ConditionalOperation::from(0b110, false),
        Some(ConditionalOperation::NonZero(Register::A(0)))
    );
    assert_eq!(
        ConditionalOperation::from(0b001, false),
        Some(ConditionalOperation::NonZero(Register::B(0)))
    );
    assert_eq!(
        ConditionalOperation::from(0b010, true),
        Some(ConditionalOperation::Zero(Register::B(1)))
    );
    assert_eq!(
        ConditionalOperation::from(0b011, false),
        Some(ConditionalOperation::NonZero(Register::B(2)))
    );
    assert_eq!(
        ConditionalOperation::from(0b010, false).unwrap().to_string(),
        "B1"
    );
    assert_eq!(
        ConditionalOperation::from(0b010, true).unwrap().to_string(),
        "!B1"
    );
}

#[test]
fn unit_rendering() {
    assert_eq!(Unit::L.to_string(), "L");
    assert_eq!(Unit::S.to_sided_string(false), "S1");
    assert_eq!(Unit::M.to_sided_string(true), "M2");
}

#[test]
fn data_size_rendering() {
    assert_eq!(DataSize::ByteUnsigned.to_short_string(), "BU");
    assert_eq!(DataSize::NonAlignedDoubleWord.to_short_string(), "NDW");
    assert_eq!(DataSize::HalfWord.to_string(), "HalfWord");
    assert_eq!(DataSize::Word.to_short_string(), "W");
}
