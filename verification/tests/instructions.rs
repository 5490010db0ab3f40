use hermes_rs::decode::Reader;
use hermes_rs::encode::Writer;
use hermes_rs::error::HermesError;
use hermes_rs::instruction::{
    decode_stream, is_defined, mnemonic_from_name, mnemonic_to_op, op_to_mnemonic, op_to_str,
    find_op, signature, str_to_op, supported_version, HermesInstruction, Instruction, InstructionParser,
    IntoParentInstruction, Operand,
};
use hermes_rs::opcode::{Mnemonic, OperandKind};
use hermes_rs::types::{
    Addr32, Addr8, BigIntIDUInt16, BigIntIDUInt32, Double, FunctionIDUInt16, FunctionIDUInt32,
    FunctionIDUInt8, Imm32, Reg32, Reg8, StringIDUInt16, StringIDUInt32, StringIDUInt8, UInt16,
    UInt32, UInt8,
};

fn reg(n: u8) -> Operand {
    Operand::Reg8(Reg8(n))
}

fn bytes_of(i: &HermesInstruction) -> Vec<u8> {
    let mut w = Writer::new();
    i.serialize(&mut w);
    w.into_bytes()
}

#[test]
fn known_encodings_of_version_95() {
    let list = vec![
        HermesInstruction::V95(Instruction::new(
            115,
            vec![reg(0), Operand::StringIDUInt16(StringIDUInt16(1))],
        )),
        HermesInstruction::V95(Instruction::new(94, vec![reg(0), reg(0), Operand::UInt8(UInt8(0))])),
        HermesInstruction::V95(Instruction::new(92, vec![reg(0)])),
    ];
    let mut w = Writer::new();
    for i in &list {
        i.serialize(&mut w);
    }
    assert_eq!(w.into_bytes(), vec![115, 0, 1, 0, 94, 0, 0, 0, 92, 0]);

    let three = vec![
        Instruction::build(95, Mnemonic::LoadConstString, vec![reg(0), Operand::StringIDUInt16(StringIDUInt16(2))]).unwrap(),
        Instruction::build(95, Mnemonic::AsyncBreakCheck, vec![]).unwrap(),
        Instruction::build(95, Mnemonic::Ret, vec![reg(0)]).unwrap(),
    ];
    let mut w = Writer::new();
    for i in &three {
        i.serialize(&mut w);
    }
    assert_eq!(w.into_bytes(), vec![115, 0, 2, 0, 98, 92, 0]);
}

#[test]
fn every_operand_kind_round_trips() {
    let operands = vec![
        Operand::Reg8(Reg8(0xFE)),
        Operand::Reg32(Reg32(0xDEAD_BEEF)),
        Operand::UInt8(UInt8(200)),
        Operand::UInt16(UInt16(0xABCD)),
        Operand::UInt32(UInt32(u32::MAX)),
        Operand::Addr8(Addr8(-128)),
        Operand::Addr32(Addr32(i32::MIN)),
        Operand::Imm32(Imm32(-1)),
        Operand::Double(Double(0x4009_21FB_5444_2D18)),
        Operand::StringIDUInt8(StringIDUInt8(1)),
        Operand::StringIDUInt16(StringIDUInt16(0x0102)),
        Operand::StringIDUInt32(StringIDUInt32(0x0102_0304)),
        Operand::FunctionIDUInt8(FunctionIDUInt8(9)),
        Operand::FunctionIDUInt16(FunctionIDUInt16(0xFFFF)),
        Operand::FunctionIDUInt32(FunctionIDUInt32(7)),
        Operand::BigIntIDUInt16(BigIntIDUInt16(3)),
        Operand::BigIntIDUInt32(BigIntIDUInt32(0x8000_0000)),
    ];
    let sizes = [1usize, 4, 1, 2, 4, 1, 4, 4, 8, 1, 2, 4, 1, 2, 4, 2, 4];
    for (op, size) in operands.iter().zip(sizes.iter()) {
        let mut w = Writer::new();
        op.serialize(&mut w);
        let bytes = w.into_bytes();
        assert_eq!(bytes.len(), *size);
        assert_eq!(op.size(), *size);
        assert_eq!(op.kind().size(), *size);
        let mut r = Reader::new(bytes);
        assert_eq!(Operand::deserialize(&mut r, op.kind()), Ok(*op));
        assert_eq!(r.position(), *size);
        let mut empty = Reader::new(vec![]);
        assert_eq!(Operand::deserialize(&mut empty, op.kind()), Err(HermesError::MalformedInput));
    }
    let mut w = Writer::new();
    Operand::Double(Double(0x4009_21FB_5444_2D18)).serialize(&mut w);
    assert_eq!(w.into_bytes(), vec![0x18, 0x2D, 0x44, 0x54, 0xFB, 0x21, 0x09, 0x40]);
    assert_eq!(Operand::Addr8(Addr8(-3)).as_u32(), 0xFFFF_FFFD);
    assert_eq!(Operand::Addr32(Addr32(-3)).as_u32(), 0xFFFF_FFFD);
    assert_eq!(Operand::Imm32(Imm32(5)).as_u32(), 5);
    assert_eq!(Operand::Double(Double(0x1_0000_0007)).as_u32(), 7);
    assert_eq!(Operand::Reg8(Reg8(9)).as_u32(), 9);
}

#[test]
fn every_opcode_of_both_versions_round_trips() {
    for version in [84u32, 95] {
        for op in 0..=255u8 {
            let kinds = signature(version, op);
            let operands: Vec<Operand> = kinds
                .iter()
                .enumerate()
                .map(|(k, kind)| {
                    let mut bytes = Writer::new();
                    for j in 0..kind.size() {
                        bytes.write_all(&[(op as usize * 7 + k * 31 + j * 3 + 1) as u8]);
                    }
                    let mut r = Reader::new(bytes.into_bytes());
                    Operand::deserialize(&mut r, *kind).unwrap()
                })
                .collect();
            let ins = HermesInstruction::of_version(version, Instruction::new(op, operands)).unwrap();
            let bytes = bytes_of(&ins);
            assert_eq!(bytes.len(), ins.size());
            assert_eq!(bytes[0], op);
            let mut r = Reader::new(bytes[1..].to_vec());
            let back = HermesInstruction::deserialize(&mut r, version, op).unwrap();
            assert_eq!(back, ins);
            assert_eq!(r.position(), bytes.len() - 1);
            assert_eq!(decode_stream(bytes.clone(), version), Ok(vec![ins.clone()]));
            if bytes.len() > 1 {
                let mut cut = Reader::new(bytes[1..bytes.len() - 1].to_vec());
                assert_eq!(
                    HermesInstruction::deserialize(&mut cut, version, op),
                    Err(HermesError::MalformedInput)
                );
                assert_eq!(cut.position(), 0);
                assert_eq!(
                    decode_stream(bytes[..bytes.len() - 1].to_vec(), version),
                    Err(HermesError::MalformedInput)
                );
            }
        }
    }
}

#[test]
fn tables_of_both_versions() {
    assert!(supported_version(84));
    assert!(supported_version(95));
    assert!(!supported_version(96));
    assert!(!supported_version(0));
    assert_eq!(op_to_str(84, 0), "Unreachable");
    assert_eq!(op_to_str(84, 88), "Ret");
    assert_eq!(op_to_str(84, 90), "DirectEval");
    assert_eq!(op_to_str(84, 109), "LoadConstString");
    assert_eq!(op_to_str(84, 198), "Store32");
    assert_eq!(op_to_str(84, 199), "unknown");
    assert_eq!(op_to_str(95, 37), "Inc");
    assert_eq!(op_to_str(95, 92), "Ret");
    assert_eq!(op_to_str(95, 94), "DirectEval");
    assert_eq!(op_to_str(95, 98), "AsyncBreakCheck");
    assert_eq!(op_to_str(95, 115), "LoadConstString");
    assert_eq!(op_to_str(95, 205), "Store32");
    assert_eq!(op_to_str(95, 206), "unknown");
    assert_eq!(op_to_str(95, 255), "unknown");
    assert!(is_defined(84, 198) && !is_defined(84, 199));
    assert!(is_defined(95, 205) && !is_defined(95, 206));
    assert_eq!(op_to_mnemonic(95, 250), Mnemonic::Unreachable);
    assert_eq!(signature(84, 90), vec![OperandKind::Reg8, OperandKind::Reg8]);
    assert_eq!(signature(95, 94), vec![OperandKind::Reg8, OperandKind::Reg8, OperandKind::UInt8]);
    assert_eq!(signature(84, 78), vec![OperandKind::Reg8, OperandKind::UInt8, OperandKind::UInt16]);
    assert_eq!(
        signature(95, 82),
        vec![OperandKind::Reg8, OperandKind::UInt8, OperandKind::FunctionIDUInt16]
    );
    assert_eq!(
        signature(95, 133),
        vec![
            OperandKind::Reg8,
            OperandKind::UInt32,
            OperandKind::Addr32,
            OperandKind::UInt32,
            OperandKind::UInt32
        ]
    );
    assert_eq!(signature(95, 112), vec![OperandKind::Reg8, OperandKind::Double]);
    assert_eq!(signature(95, 0), vec![]);
    assert_eq!(signature(95, 206), vec![]);
    assert_eq!(mnemonic_to_op(84, Mnemonic::Inc), None);
    assert_eq!(mnemonic_to_op(95, Mnemonic::Inc), Some(37));
    assert_eq!(mnemonic_to_op(84, Mnemonic::Ret), Some(88));
    assert_eq!(str_to_op(95, "LoadConstString"), 115);
    assert_eq!(str_to_op(84, "LoadConstString"), 109);
    assert_eq!(str_to_op(84, "ToNumeric"), 0);
    assert_eq!(str_to_op(95, "ToNumeric"), 126);
    assert_eq!(str_to_op(95, "NoSuchThing"), 0);
    assert_eq!(str_to_op(95, "Unreachable"), 0);
    assert_eq!(find_op(95, "LoadConstString"), Some(115));
    assert_eq!(find_op(84, "ToNumeric"), None);
    assert_eq!(find_op(95, "NoSuchThing"), None);
    assert_eq!(find_op(95, "Unreachable"), Some(0));
    assert_eq!(mnemonic_from_name("Store32"), Some(Mnemonic::Store32));
    assert_eq!(mnemonic_from_name("store32"), None);
    assert_eq!(Mnemonic::JStrictNotEqualLong.name(), "JStrictNotEqualLong");
}

#[test]
fn the_table_is_one_to_one_on_its_bytes() {
    for version in [84u32, 95] {
        let mut seen = std::collections::HashSet::new();
        for op in 0..=255u8 {
            if is_defined(version, op) {
                let m = op_to_mnemonic(version, op);
                assert!(seen.insert(m.name()));
                assert_eq!(mnemonic_to_op(version, m), Some(op));
                assert_eq!(str_to_op(version, m.name()), op);
                assert_eq!(find_op(version, m.name()), Some(op));
            } else {
                assert_eq!(op_to_mnemonic(version, op), Mnemonic::Unreachable);
            }
        }
        assert_eq!(seen.len(), if version == 84 { 199 } else { 206 });
    }
}

#[test]
fn jumps_calls_and_addresses() {
    let mut jumps = 0;
    let mut calls = 0;
    for op in 0..=205u8 {
        let m = op_to_mnemonic(95, op);
        if m.is_jmp() {
            jumps += 1;
            assert!(signature(95, op).iter().any(|k| k.is_address()));
        }
        if m.has_ret_target() {
            calls += 1;
        }
    }
    assert_eq!(jumps, 51);
    assert_eq!(calls, 10);
    assert!(Mnemonic::SwitchImm.is_jmp());
    assert!(Mnemonic::SaveGenerator.is_jmp());
    assert!(!Mnemonic::Ret.is_jmp());
    assert!(Mnemonic::CallDirectLongIndex.has_ret_target());
    assert!(!Mnemonic::CallBuiltin.has_ret_target());

    let jump = HermesInstruction::V95(Instruction::new(
        144,
        vec![Operand::Addr8(Addr8(-6)), reg(1)],
    ));
    assert!(jump.is_jmp());
    assert!(!jump.has_ret_target());
    assert_eq!(jump.get_address_field(), 0xFFFF_FFFA);
    assert_eq!(jump.mnemonic(), Mnemonic::JmpTrue);
    assert_eq!(jump.version(), 95);
    let switch = HermesInstruction::V95(Instruction::new(
        133,
        vec![
            reg(1),
            Operand::UInt32(UInt32(9)),
            Operand::Addr32(Addr32(40)),
            Operand::UInt32(UInt32(0)),
            Operand::UInt32(UInt32(3)),
        ],
    ));
    assert_eq!(switch.get_address_field(), 40);
    assert_eq!(switch.size(), 18);
    let ret = HermesInstruction::V84(Instruction::new(88, vec![reg(0)]));
    assert_eq!(ret.get_address_field(), 0);
    assert!(!ret.is_jmp());
    assert_eq!(ret.version(), 84);
    // The same byte is another instruction in the other version.
    assert_eq!(HermesInstruction::V95(Instruction::new(88, vec![])).mnemonic(), Mnemonic::CallDirectLongIndex);
    assert!(InstructionParser::is_jmp(&jump));
    assert_eq!(InstructionParser::size(&jump), 3);
}

#[test]
fn building_checks_the_operands() {
    assert_eq!(Instruction::build(95, Mnemonic::Ret, vec![]), None);
    assert_eq!(Instruction::build(95, Mnemonic::Ret, vec![Operand::UInt8(UInt8(0))]), None);
    assert_eq!(Instruction::build(95, Mnemonic::Ret, vec![reg(0), reg(1)]), None);
    assert_eq!(Instruction::build(84, Mnemonic::Dec, vec![reg(0), reg(1)]), None);
    assert_eq!(
        Instruction::build(84, Mnemonic::Ret, vec![reg(4)]),
        Some(Instruction::new(88, vec![reg(4)]))
    );
    assert_eq!(HermesInstruction::of_version(96, Instruction::new(0, vec![])), None);
    let wrapped = hermes_rs::v84::Instruction(Instruction::new(88, vec![reg(4)])).into_parent();
    assert_eq!(wrapped, HermesInstruction::V84(Instruction::new(88, vec![reg(4)])));
    let wrapped = hermes_rs::v95::Instruction(Instruction::new(92, vec![reg(4)])).into_parent();
    assert_eq!(wrapped.version(), 95);
}

#[test]
fn streams_decode_to_the_end() {
    let bytes = vec![115, 0, 1, 0, 94, 0, 0, 0, 250, 92, 0];
    let list = decode_stream(bytes.clone(), 95).unwrap();
    assert_eq!(list.len(), 4);
    assert_eq!(list[2], HermesInstruction::V95(Instruction::new(250, vec![])));
    assert_eq!(list[2].mnemonic(), Mnemonic::Unreachable);
    let mut w = Writer::new();
    for i in &list {
        i.serialize(&mut w);
    }
    assert_eq!(w.into_bytes(), bytes);
    assert_eq!(decode_stream(vec![], 95), Ok(vec![]));
    assert_eq!(decode_stream(vec![92], 95), Err(HermesError::MalformedInput));
    assert_eq!(decode_stream(vec![92, 0], 96), Err(HermesError::UnsupportedVersion));
    assert_eq!(decode_stream(vec![], 76), Err(HermesError::UnsupportedVersion));
    // In version 84 the same bytes read otherwise: 92 is ThrowIfEmpty with two registers.
    assert_eq!(decode_stream(vec![92, 0], 84), Err(HermesError::MalformedInput));
    let mut r = Reader::new(vec![0]);
    assert_eq!(
        HermesInstruction::deserialize(&mut r, 96, 92),
        Err(HermesError::UnsupportedVersion)
    );
}

#[test]
fn operand_wrappers_convert_to_and_from_their_numbers() {
    assert_eq!(Reg8::from(3u8), Reg8(3));
    assert_eq!(u8::from(Reg8(3)), 3);
    assert_eq!(Addr32::from(-7), Addr32(-7));
    assert_eq!(i32::from(Addr32(-7)), -7);
    assert_eq!(StringIDUInt16::from(9u16).value(), 9);
    assert_eq!(UInt32::default(), UInt32(0));
    assert_eq!(Double::default().value(), 0);
    assert_eq!(u64::from(Double(5)), 5);
    let r: Reg8 = 0.into();
    let p: StringIDUInt16 = 1.into();
    assert_eq!((r, p), (Reg8(0), StringIDUInt16(1)));
}
