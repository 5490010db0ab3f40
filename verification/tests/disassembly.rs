use hermes_rs::debug_info::DebugInfo;
use hermes_rs::error::HermesError;
use hermes_rs::function_header::{FunctionHeader, SmallFunctionHeader};
use hermes_rs::header::{HermesHeader, MAGIC};
use hermes_rs::hermes_file::HermesFile;
use hermes_rs::instruction::{HermesInstruction, Instruction, Operand};
use hermes_rs::types::{
    Addr32, Addr8, BigIntIDUInt16, Double, FunctionIDUInt16, Imm32, Reg8, StringIDUInt16, UInt8,
};

fn ins(op: u8, operands: Vec<Operand>) -> HermesInstruction {
    HermesInstruction::V95(Instruction::new(op, operands))
}

fn reg(n: u8) -> Operand {
    Operand::Reg8(Reg8(n))
}

fn file_with(code: Vec<Vec<HermesInstruction>>) -> HermesFile {
    let mut f = HermesFile::new(Vec::new());
    let mut h = HermesHeader::new();
    h.magic = MAGIC;
    h.version = 95;
    f.header = h;
    f.set_strings(vec!["global".to_string(), "".to_string(), "print".to_string()]).unwrap();
    f.debug_info = DebugInfo::empty(95);
    for (i, c) in code.into_iter().enumerate() {
        let mut fh = SmallFunctionHeader::new();
        fh.param_count = 1;
        fh.frame_size = 2;
        fh.env_size = 3;
        fh.func_name = i as u32;
        f.add_function(FunctionHeader::Small(fh), c).unwrap();
    }
    let bytes = f.serialize().unwrap();
    HermesFile::deserialize(bytes).unwrap()
}

#[test]
fn jump_long_gets_a_label_at_its_target() {
    let f = file_with(vec![vec![
        ins(143, vec![Operand::Addr32(Addr32(8))]),
        ins(8, vec![reg(1), reg(2)]),
        ins(92, vec![reg(0)]),
    ]]);
    let offset = f.function_headers[0].offset();
    let text = f.get_disassembled_bytecode_for_function(0).unwrap();
    let expected = format!(
        "------------------------------------------------\n\n\
         Function<global>(1 params, 2 registers, 3 symbols): # Type: SmallFunctionHeader - funcID: 0 (10 bytes @ {})\n\n\
         0\tJmpLong  L1\n\
         1\tMov  r1,  r2\n\
         \t\tL1:\n\
         2\tRet  r0",
        offset
    );
    assert_eq!(text, expected);
    assert!(text.contains("\t\tL1:\n2\tRet"));
    assert!(text.contains("JmpLong  L1"));
}

#[test]
fn backward_and_repeated_jumps_share_labels() {
    // Offsets: 0 Mov (3), 3 Jmp -3 (2), 5 JmpTrue +4 r0 (3), 8 Jmp -8 (2), 10 Ret (2).
    let f = file_with(vec![vec![
        ins(8, vec![reg(0), reg(1)]),
        ins(142, vec![Operand::Addr8(Addr8(-3))]),
        ins(144, vec![Operand::Addr8(Addr8(5)), reg(0)]),
        ins(142, vec![Operand::Addr8(Addr8(-8))]),
        ins(92, vec![reg(0)]),
    ]]);
    let text = f.get_disassembled_bytecode_for_function(0).unwrap();
    let lines: Vec<&str> = text.split('\n').collect();
    assert_eq!(
        &lines[4..],
        &[
            "\t\tL1:",
            "0\tMov  r0,  r1",
            "1\tJmp  L1",
            "2\tJmpTrue  L2,  r0",
            "3\tJmp  L1",
            "\t\tL2:",
            "4\tRet  r0",
        ]
    );
}

#[test]
fn a_jump_between_instructions_has_a_label_but_no_label_line() {
    let f = file_with(vec![vec![ins(142, vec![Operand::Addr8(Addr8(1))]), ins(92, vec![reg(0)])]]);
    let text = f.get_disassembled_bytecode_for_function(0).unwrap();
    let lines: Vec<&str> = text.split('\n').collect();
    assert_eq!(&lines[4..], &["0\tJmp  L1", "1\tRet  r0"]);
}

#[test]
fn display_resolves_strings_and_functions() {
    let f = file_with(vec![
        vec![ins(115, vec![reg(0), Operand::StringIDUInt16(StringIDUInt16(2))])],
        vec![ins(92, vec![reg(0)])],
    ]);
    assert_eq!(
        ins(115, vec![reg(0), Operand::StringIDUInt16(StringIDUInt16(2))]).display(&f).unwrap(),
        "LoadConstString  r0,  \"print\""
    );
    // Function 0 is named "global", function 1 has the empty name.
    assert_eq!(
        ins(100, vec![reg(0), reg(1), Operand::FunctionIDUInt16(FunctionIDUInt16(0))])
            .display(&f)
            .unwrap(),
        "CreateClosure  r0,  r1,  Function<global>"
    );
    assert_eq!(
        ins(100, vec![reg(0), reg(1), Operand::FunctionIDUInt16(FunctionIDUInt16(1))])
            .display(&f)
            .unwrap(),
        "CreateClosure  r0,  r1,  Function<$FUNC_1>"
    );
    assert_eq!(ins(98, vec![]).display(&f).unwrap(), "AsyncBreakCheck");
    assert_eq!(ins(250, vec![]).display(&f).unwrap(), "unknown");
    assert_eq!(
        ins(111, vec![reg(3), Operand::Imm32(Imm32(-12))]).display(&f).unwrap(),
        "LoadConstInt  r3,  -12"
    );
    // A BigInt is looked up in the BigInt table.
    let mut with_big_ints = file_with(vec![vec![ins(92, vec![reg(0)])]]);
    with_big_ints.set_big_ints(vec![0x1234, 5]).unwrap();
    assert_eq!(
        ins(113, vec![reg(3), Operand::BigIntIDUInt16(BigIntIDUInt16(1))])
            .display(&with_big_ints)
            .unwrap(),
        "LoadConstBigInt  r3,  0x0000000000000005n"
    );
    assert_eq!(
        ins(113, vec![reg(3), Operand::BigIntIDUInt16(BigIntIDUInt16(0))])
            .display(&with_big_ints)
            .unwrap(),
        "LoadConstBigInt  r3,  0x0000000000001234n"
    );
    assert_eq!(
        ins(113, vec![reg(3), Operand::BigIntIDUInt16(BigIntIDUInt16(7))]).display(&f),
        Err(HermesError::MalformedInput)
    );
    assert_eq!(
        ins(112, vec![reg(1), Operand::Double(Double(0x3FF8_0000_0000_0000))]).display(&f).unwrap(),
        "LoadConstDouble  r1,  0x3ff8000000000000"
    );
    assert_eq!(
        ins(142, vec![Operand::Addr8(Addr8(-128))]).display(&f).unwrap(),
        "Jmp  -128"
    );
    assert_eq!(
        ins(94, vec![reg(0), reg(0), Operand::UInt8(UInt8(255))]).display(&f).unwrap(),
        "DirectEval  r0,  r0,  255"
    );
}

#[test]
fn display_of_a_missing_string_or_function_is_malformed() {
    let f = file_with(vec![vec![ins(92, vec![reg(0)])]]);
    assert_eq!(
        ins(115, vec![reg(0), Operand::StringIDUInt16(StringIDUInt16(3))]).display(&f),
        Err(HermesError::MalformedInput)
    );
    assert_eq!(
        ins(100, vec![reg(0), reg(1), Operand::FunctionIDUInt16(FunctionIDUInt16(1))]).display(&f),
        Err(HermesError::MalformedInput)
    );
}

#[test]
fn whole_file_disassembly_joins_functions() {
    let f = file_with(vec![vec![ins(92, vec![reg(0)])], vec![ins(98, vec![]), ins(92, vec![reg(1)])]]);
    let whole = f.get_disassembled_bytecode().unwrap();
    let first = f.get_disassembled_bytecode_for_function(0).unwrap();
    let second = f.get_disassembled_bytecode_for_function(1).unwrap();
    assert_eq!(whole, format!("{}\n{}", first, second));
    assert!(second.contains("Function<$FUNC_1>(1 params"));
    assert!(second.ends_with("0\tAsyncBreakCheck\n1\tRet  r1"));
    assert_eq!(
        f.get_disassembled_bytecode_for_function(2),
        Err(HermesError::InternalConsistency)
    );
}

#[test]
fn exception_handlers_give_labels_behind_those_of_jumps() {
    // Offsets: 0 Jmp +5 (2), 2 Mov (3), 5 Ret (2), 7 Ret (2).
    let code = vec![
        ins(142, vec![Operand::Addr8(Addr8(5))]),
        ins(8, vec![reg(1), reg(2)]),
        ins(92, vec![reg(0)]),
        ins(92, vec![reg(1)]),
    ];
    let mut f = HermesFile::new(Vec::new());
    let mut h = HermesHeader::new();
    h.magic = MAGIC;
    h.version = 95;
    f.header = h;
    f.set_strings(vec!["global".to_string()]).unwrap();
    f.debug_info = DebugInfo::empty(95);
    let mut fh = SmallFunctionHeader::new();
    fh.flags.has_exception_handler = true;
    fh.exception_handlers = vec![
        hermes_rs::exception_handler::ExceptionHandlerInfo { start: 2, end: 5, target: 7 },
        hermes_rs::exception_handler::ExceptionHandlerInfo { start: 2, end: 7, target: 40 },
    ];
    f.add_function(FunctionHeader::Small(fh), code).unwrap();
    let bytes = f.serialize().unwrap();
    let g = HermesFile::deserialize(bytes).unwrap();
    let text = g.get_disassembled_bytecode_for_function(0).unwrap();
    let lines: Vec<&str> = text.split('\n').collect();
    // The jump target 5 is label 1; the handlers add 2, 7 and 40 as labels 2, 3 and 4.
    assert_eq!(
        &lines[4..],
        &[
            "0\tJmp  L1",
            "\t\tL2:",
            "1\tMov  r1,  r2",
            "\t\tL1:",
            "2\tRet  r0",
            "\t\tL3:",
            "3\tRet  r1",
        ]
    );
}
