//! Disassembly: instructions as text, with the strings, functions and
//! BigInts they name looked up in the file, and labels for jump targets
//! and for the bounds and targets of exception handlers.

use vstd::prelude::*;
use crate::decode::i32_from_u32;
use crate::error::HermesError;
use crate::exception_handler::ExceptionHandlerInfo;
use crate::function_header::FunctionHeaderFlagProhibitions;
use crate::hermes_file::HermesFile;
use crate::instruction::{
    lemma_decode_stream_len, spec_decode_stream, spec_supported_version, instructions_view, kinds_of, kinds_size, op_to_str, spec_is_defined, spec_mnemonic,
    HermesInstruction, HermesInstructionView, Instruction, Operand,
};
use crate::text::{
    decimal, hex_chars, hex_digits, push_chars, push_decimal, push_signed_decimal, push_str,
    signed_decimal, string_from_chars, tidy, tidy_chars,
};

verus! {

/// The name that an instruction is shown by: that of its opcode in the
/// table of its version, or `unknown` for a byte that the table lacks.
pub open spec fn spec_shown_name(v: HermesInstructionView) -> Seq<char> {
    if spec_is_defined(v.version, v.op) {
        spec_mnemonic(v.version, v.op).spec_name()
    } else {
        "unknown"@
    }
}

/// The name of function `id` as it is shown: the string that its header
/// names, or `$FUNC_` and the function's number where that string is empty.
/// `None` where there is no such function or its name cannot be read.
pub open spec fn spec_function_label(f: &HermesFile, id: int) -> Option<Seq<char>> {
    if 0 <= id < f.function_headers@.len() {
        let name_id = f.function_headers@[id].fields().func_name as int;
        if name_id < f.string_storage@.len() {
            match f.spec_string(name_id) {
                Some(name) => if name.len() == 0 {
                    Some("$FUNC_"@ + decimal(id as nat))
                } else {
                    Some(name)
                },
                None => None,
            }
        } else {
            None
        }
    } else {
        None
    }
}

/// A string of the file in double quotes, after a space.
pub open spec fn spec_quoted(f: &HermesFile, id: int) -> Option<Seq<char>> {
    if id < f.string_storage@.len() {
        match f.spec_string(id) {
            Some(s) => Some(" \""@ + s + "\""@),
            None => None,
        }
    } else {
        None
    }
}

/// A function of the file as `Function<name>`, after a space.
pub open spec fn spec_function_text(f: &HermesFile, id: int) -> Option<Seq<char>> {
    match spec_function_label(f, id) {
        Some(name) => Some(" Function<"@ + name + ">"@),
        None => None,
    }
}

/// A number between a space and a comma and a space.
pub open spec fn spec_plain(digits: Seq<char>) -> Seq<char> {
    " "@ + digits + ", "@
}

/// Two hexadecimal digits for each byte, in order.
pub open spec fn spec_hex_bytes(bytes: Seq<u8>) -> Seq<char>
    decreases bytes.len(),
{
    if bytes.len() == 0 {
        Seq::empty()
    } else {
        spec_hex_bytes(bytes.drop_last()) + hex_digits(bytes.last() as nat, 2)
    }
}

/// BigInt `id` of the file as a literal: `0x`, the bytes that the BigInt
/// table locates in the BigInt storage, in hexadecimal as they are stored,
/// and `n`, between spaces. `None` where the table has no such entry or the
/// entry points outside the storage.
pub open spec fn spec_big_int_text(f: &HermesFile, id: int) -> Option<Seq<char>> {
    if 0 <= id < f.big_int_table@.len() {
        let e = f.big_int_table@[id];
        if e.offset + e.length <= f.big_int_storage@.len() {
            Some(
                " 0x"@ + spec_hex_bytes(
                    f.big_int_storage@.subrange(e.offset as int, e.offset + e.length),
                ) + "n "@,
            )
        } else {
            None
        }
    } else {
        None
    }
}

/// How one operand is shown. A register is `rN`; a string index is the
/// string in quotes; a function index is `Function<name>`; a BigInt index
/// is the BigInt that the table locates, as a hexadecimal literal; every
/// other number is the number itself, a double in the 16 hexadecimal digits
/// of its bits; a jump offset is `L` and the number of its label where it
/// has one.
pub open spec fn spec_operand_text(f: &HermesFile, operand: Operand, label: Option<nat>) -> Option<
    Seq<char>,
> {
    match operand {
        Operand::Reg8(v) => Some(" r"@ + decimal(v.0 as nat) + ", "@),
        Operand::Reg32(v) => Some(" r"@ + decimal(v.0 as nat) + ", "@),
        Operand::UInt8(v) => Some(spec_plain(decimal(v.0 as nat))),
        Operand::UInt16(v) => Some(spec_plain(decimal(v.0 as nat))),
        Operand::UInt32(v) => Some(spec_plain(decimal(v.0 as nat))),
        Operand::Addr8(v) => Some(
            match label {
                Some(n) => " L"@ + decimal(n) + ", "@,
                None => spec_plain(signed_decimal(v.0 as int)),
            },
        ),
        Operand::Addr32(v) => Some(
            match label {
                Some(n) => " L"@ + decimal(n) + ", "@,
                None => spec_plain(signed_decimal(v.0 as int)),
            },
        ),
        Operand::Imm32(v) => Some(spec_plain(signed_decimal(v.0 as int))),
        Operand::Double(v) => Some(spec_plain("0x"@ + hex_digits(v.0 as nat, 16))),
        Operand::StringIDUInt8(v) => spec_quoted(f, v.0 as int),
        Operand::StringIDUInt16(v) => spec_quoted(f, v.0 as int),
        Operand::StringIDUInt32(v) => spec_quoted(f, v.0 as int),
        Operand::FunctionIDUInt8(v) => spec_function_text(f, v.0 as int),
        Operand::FunctionIDUInt16(v) => spec_function_text(f, v.0 as int),
        Operand::FunctionIDUInt32(v) => spec_function_text(f, v.0 as int),
        Operand::BigIntIDUInt16(v) => spec_big_int_text(f, v.0 as int),
        Operand::BigIntIDUInt32(v) => spec_big_int_text(f, v.0 as int),
    }
}

/// How a row of operands is shown: each operand in turn. The label, if
/// there is one, is that of the first jump offset in the row.
pub open spec fn spec_operands_text(f: &HermesFile, operands: Seq<Operand>, label: Option<nat>) -> Option<
    Seq<char>,
>
    decreases operands.len(),
{
    if operands.len() == 0 {
        Some(Seq::empty())
    } else {
        let is_address = operands[0].spec_kind().spec_is_address();
        let first = spec_operand_text(f, operands[0], if is_address { label } else { None });
        let rest = spec_operands_text(f, operands.skip(1), if is_address { None } else { label });
        match (first, rest) {
            (Some(a), Some(b)) => Some(a + b),
            _ => None,
        }
    }
}

/// How an instruction is shown: its name, a space, its operands, and the
/// whole without the `", "` and the spaces at its ends. `None` where an
/// operand names a string or function that the file lacks or cannot read.
pub open spec fn spec_display(f: &HermesFile, v: HermesInstructionView, label: Option<nat>) -> Option<
    Seq<char>,
> {
    match spec_operands_text(f, v.operands, label) {
        Some(text) => Some(tidy(spec_shown_name(v) + " "@ + text)),
        None => None,
    }
}

/// Appends a string of the file in double quotes, after a space.
fn push_quoted(out: &mut Vec<char>, f: &HermesFile, id: usize) -> (res: Result<(), HermesError>)
    ensures
        match res {
            Ok(()) => spec_quoted(f, id as int) is Some && final(out)@ == old(out)@ + spec_quoted(
                f,
                id as int,
            ).unwrap(),
            Err(e) => e == HermesError::MalformedInput && spec_quoted(f, id as int) is None,
        },
{
    match f.get_string_from_storage_by_index(id) {
        Ok(s) => {
            push_str(out, " \"");
            push_str(out, s.as_str());
            push_str(out, "\"");
            assert(out@ =~= old(out)@ + (" \""@ + s@ + "\""@));
            Ok(())
        },
        Err(_) => Err(HermesError::MalformedInput),
    }
}

/// The name of function `id` as it is shown.
pub fn function_label(f: &HermesFile, id: usize) -> (res: Result<Vec<char>, HermesError>)
    ensures
        match res {
            Ok(name) => spec_function_label(f, id as int) == Some(name@),
            Err(e) => e == HermesError::MalformedInput && spec_function_label(f, id as int) is None,
        },
{
    if id >= f.function_headers.len() {
        return Err(HermesError::MalformedInput);
    }
    let name_id = f.function_headers[id].func_name() as usize;
    match f.get_string_from_storage_by_index(name_id) {
        Ok(s) => {
            let mut name: Vec<char> = Vec::new();
            if s.as_str().is_empty() {
                push_str(&mut name, "$FUNC_");
                push_decimal(&mut name, id as u64);
                assert(name@ =~= "$FUNC_"@ + decimal(id as nat));
            } else {
                push_str(&mut name, s.as_str());
                assert(name@ =~= s@);
            }
            Ok(name)
        },
        Err(_) => Err(HermesError::MalformedInput),
    }
}

/// Appends a function of the file as `Function<name>`, after a space.
fn push_function(out: &mut Vec<char>, f: &HermesFile, id: usize) -> (res: Result<(), HermesError>)
    ensures
        match res {
            Ok(()) => spec_function_text(f, id as int) is Some && final(out)@ == old(out)@
                + spec_function_text(f, id as int).unwrap(),
            Err(e) => e == HermesError::MalformedInput && spec_function_text(f, id as int) is None,
        },
{
    let name = function_label(f, id)?;
    push_str(out, " Function<");
    push_chars(out, &name);
    push_str(out, ">");
    assert(out@ =~= old(out)@ + (" Function<"@ + name@ + ">"@));
    Ok(())
}

/// Appends a number between a space and a comma and a space.
fn push_plain(out: &mut Vec<char>, n: u64)
    ensures
        final(out)@ == old(out)@ + spec_plain(decimal(n as nat)),
{
    push_str(out, " ");
    push_decimal(out, n);
    push_str(out, ", ");
    assert(out@ =~= old(out)@ + spec_plain(decimal(n as nat)));
}

/// Appends a signed number between a space and a comma and a space.
fn push_signed(out: &mut Vec<char>, x: i64)
    requires
        x > i64::MIN,
    ensures
        final(out)@ == old(out)@ + spec_plain(signed_decimal(x as int)),
{
    push_str(out, " ");
    push_signed_decimal(out, x);
    push_str(out, ", ");
    assert(out@ =~= old(out)@ + spec_plain(signed_decimal(x as int)));
}

/// Appends a register.
fn push_register(out: &mut Vec<char>, n: u64)
    ensures
        final(out)@ == old(out)@ + (" r"@ + decimal(n as nat) + ", "@),
{
    push_str(out, " r");
    push_decimal(out, n);
    push_str(out, ", ");
    assert(out@ =~= old(out)@ + (" r"@ + decimal(n as nat) + ", "@));
}

/// Appends a jump offset: its label where it has one, else the offset.
fn push_address(out: &mut Vec<char>, x: i64, label: Option<u64>)
    requires
        x > i64::MIN,
    ensures
        final(out)@ == old(out)@ + (match label {
            Some(n) => " L"@ + decimal(n as nat) + ", "@,
            None => spec_plain(signed_decimal(x as int)),
        }),
{
    match label {
        Some(n) => {
            push_str(out, " L");
            push_decimal(out, n);
            push_str(out, ", ");
            assert(out@ =~= old(out)@ + (" L"@ + decimal(n as nat) + ", "@));
        },
        None => push_signed(out, x),
    }
}

/// The label as a number of the model.
pub open spec fn label_view(label: Option<u64>) -> Option<nat> {
    match label {
        Some(n) => Some(n as nat),
        None => None,
    }
}

/// Appends BigInt `id` of the file as a literal.
fn push_big_int(out: &mut Vec<char>, f: &HermesFile, id: usize) -> (res: Result<(), HermesError>)
    ensures
        match res {
            Ok(()) => spec_big_int_text(f, id as int) is Some && final(out)@ == old(out)@
                + spec_big_int_text(f, id as int).unwrap(),
            Err(e) => e == HermesError::MalformedInput && spec_big_int_text(f, id as int) is None
                && final(out)@ == old(out)@,
        },
{
    if id >= f.big_int_table.len() {
        return Err(HermesError::MalformedInput);
    }
    let e = f.big_int_table[id];
    let from: u64 = e.offset as u64;
    let to: u64 = from + e.length as u64;
    if to > f.big_int_storage.len() as u64 {
        return Err(HermesError::MalformedInput);
    }
    let ghost bytes = f.big_int_storage@.subrange(from as int, to as int);
    let mut digits: Vec<char> = Vec::new();
    let mut i: usize = from as usize;
    assert(bytes.take(0) =~= Seq::<u8>::empty());
    while i < to as usize
        invariant
            from <= i <= to <= f.big_int_storage@.len(),
            bytes == f.big_int_storage@.subrange(from as int, to as int),
            digits@ == spec_hex_bytes(bytes.take(i - from)),
        decreases to - i,
    {
        let pair = hex_chars(f.big_int_storage[i] as u64, 2);
        let ghost before = digits@;
        push_chars(&mut digits, &pair);
        proof {
            let next = bytes.take(i + 1 - from);
            assert(next.drop_last() =~= bytes.take(i - from));
            assert(next.last() == f.big_int_storage@[i as int]);
        }
        i = i + 1;
    }
    assert(bytes.take(to - from) =~= bytes);
    push_str(out, " 0x");
    push_chars(out, &digits);
    push_str(out, "n ");
    assert(out@ =~= old(out)@ + (" 0x"@ + spec_hex_bytes(bytes) + "n "@));
    Ok(())
}

/// Appends how one operand is shown.
pub fn push_operand(out: &mut Vec<char>, f: &HermesFile, operand: Operand, label: Option<u64>) -> (res:
    Result<(), HermesError>)
    ensures
        match res {
            Ok(()) => spec_operand_text(f, operand, label_view(label)) is Some && final(out)@ == old(
                out,
            )@ + spec_operand_text(f, operand, label_view(label)).unwrap(),
            Err(e) => e == HermesError::MalformedInput && spec_operand_text(
                f,
                operand,
                label_view(label),
            ) is None,
        },
{
    match operand {
        Operand::Reg8(v) => {
            push_register(out, v.0 as u64);
            Ok(())
        },
        Operand::Reg32(v) => {
            push_register(out, v.0 as u64);
            Ok(())
        },
        Operand::UInt8(v) => {
            push_plain(out, v.0 as u64);
            Ok(())
        },
        Operand::UInt16(v) => {
            push_plain(out, v.0 as u64);
            Ok(())
        },
        Operand::UInt32(v) => {
            push_plain(out, v.0 as u64);
            Ok(())
        },
        Operand::Addr8(v) => {
            push_address(out, v.0 as i64, label);
            Ok(())
        },
        Operand::Addr32(v) => {
            push_address(out, v.0 as i64, label);
            Ok(())
        },
        Operand::Imm32(v) => {
            push_signed(out, v.0 as i64);
            Ok(())
        },
        Operand::Double(v) => {
            let digits = hex_chars(v.0, 16);
            push_str(out, " ");
            push_str(out, "0x");
            push_chars(out, &digits);
            push_str(out, ", ");
            assert(out@ =~= old(out)@ + spec_plain("0x"@ + hex_digits(v.0 as nat, 16)));
            Ok(())
        },
        Operand::StringIDUInt8(v) => push_quoted(out, f, v.0 as usize),
        Operand::StringIDUInt16(v) => push_quoted(out, f, v.0 as usize),
        Operand::StringIDUInt32(v) => push_quoted(out, f, v.0 as usize),
        Operand::FunctionIDUInt8(v) => push_function(out, f, v.0 as usize),
        Operand::FunctionIDUInt16(v) => push_function(out, f, v.0 as usize),
        Operand::FunctionIDUInt32(v) => push_function(out, f, v.0 as usize),
        Operand::BigIntIDUInt16(v) => push_big_int(out, f, v.0 as usize),
        Operand::BigIntIDUInt32(v) => push_big_int(out, f, v.0 as usize),
    }
}

/// How an instruction is shown, as characters.
pub fn display_chars(ins: &HermesInstruction, f: &HermesFile, label: Option<u64>) -> (res: Result<
    Vec<char>,
    HermesError,
>)
    ensures
        match res {
            Ok(text) => spec_display(f, ins@, label_view(label)) == Some(text@),
            Err(e) => e == HermesError::MalformedInput && spec_display(f, ins@, label_view(label))
                is None,
        },
{
    let inner = ins.instruction();
    let mut out: Vec<char> = Vec::new();
    push_str(&mut out, op_to_str(ins.version(), inner.op));
    push_str(&mut out, " ");
    let ghost head = out@;
    assert(head =~= spec_shown_name(ins@) + " "@);
    let mut pending: Option<u64> = label;
    let mut i: usize = 0;
    assert(inner.operands@.skip(0) =~= inner.operands@);
    while i < inner.operands.len()
        invariant
            i <= inner.operands@.len(),
            *inner == ins.spec_instruction(),
            match spec_operands_text(f, inner.operands@.skip(i as int), label_view(pending)) {
                Some(rest) => spec_operands_text(f, inner.operands@, label_view(label)) is Some
                    && head + spec_operands_text(f, inner.operands@, label_view(label)).unwrap()
                    == out@ + rest,
                None => spec_operands_text(f, inner.operands@, label_view(label)) is None,
            },
        decreases inner.operands@.len() - i,
    {
        let operand = inner.operands[i];
        let ghost rest = inner.operands@.skip(i as int);
        let ghost before = out@;
        assert(rest[0] == operand);
        assert(rest.skip(1) =~= inner.operands@.skip(i + 1));
        let is_address = operand.kind().is_address();
        let used: Option<u64> = if is_address { pending } else { None };
        match push_operand(&mut out, f, operand, used) {
            Ok(()) => {},
            Err(e) => {
                assert(spec_operands_text(f, rest, label_view(pending)) is None);
                return Err(e);
            },
        }
        if is_address {
            pending = None;
        }
        proof {
            match spec_operands_text(f, inner.operands@.skip(i + 1), label_view(pending)) {
                Some(tail) => {
                    let first = spec_operand_text(f, operand, label_view(used)).unwrap();
                    assert(before + (first + tail) =~= out@ + tail);
                },
                None => {},
            }
        }
        i = i + 1;
    }
    proof {
        assert(inner.operands@.skip(i as int).len() == 0);
        assert(out@ + Seq::<char>::empty() =~= out@);
    }
    Ok(tidy_chars(out))
}

impl HermesInstruction {
    /// How the instruction is shown: its name and its operands, with the
    /// strings and functions that they name looked up in `hermes`. Fails
    /// with `MalformedInput` where the file lacks one of those.
    pub fn display(&self, hermes: &HermesFile) -> (res: Result<String, HermesError>)
        ensures
            match res {
                Ok(text) => spec_display(hermes, self@, None) == Some(text@),
                Err(e) => e == HermesError::MalformedInput && spec_display(hermes, self@, None)
                    is None,
            },
    {
        let chars = display_chars(self, hermes, None)?;
        Ok(string_from_chars(&chars))
    }
}

/// The number of bytes that an instruction takes.
pub open spec fn spec_size(v: HermesInstructionView) -> int {
    1 + kinds_size(kinds_of(v.operands)) as int
}

/// The offset of instruction `i` in its function's bytecode.
pub open spec fn spec_offset(list: Seq<HermesInstructionView>, i: int) -> int
    decreases i,
{
    if i <= 0 {
        0
    } else {
        spec_offset(list, i - 1) + spec_size(list[i - 1])
    }
}

/// Whether an instruction may jump to the address it carries.
pub open spec fn spec_is_jump(v: HermesInstructionView) -> bool {
    spec_mnemonic(v.version, v.op).spec_is_jmp()
}

/// Where instruction `i` jumps to: its own offset plus the signed offset it carries.
pub open spec fn spec_target(list: Seq<HermesInstructionView>, i: int) -> int {
    spec_offset(list, i) + i32_from_u32(Instruction::spec_address_field(list[i].operands) as int)
}

/// The place of `t` in `labels`, if it is there.
pub open spec fn first_index(labels: Seq<int>, t: int) -> Option<int>
    decreases labels.len(),
{
    if labels.len() == 0 {
        None
    } else {
        match first_index(labels.drop_last(), t) {
            Some(k) => Some(k),
            None => if labels.last() == t {
                Some(labels.len() - 1)
            } else {
                None
            },
        }
    }
}

/// The jump targets of the first `upto` instructions, each once, in the
/// order in which the jumps stand. The target at place `k` has label `k + 1`.
pub open spec fn spec_labels(list: Seq<HermesInstructionView>, upto: int) -> Seq<int>
    decreases upto,
{
    if upto <= 0 {
        Seq::empty()
    } else {
        let before = spec_labels(list, upto - 1);
        let target = spec_target(list, upto - 1);
        if spec_is_jump(list[upto - 1]) && first_index(before, target) is None {
            before.push(target)
        } else {
            before
        }
    }
}

/// `labels` with `t` behind them, unless it is among them.
pub open spec fn spec_add_label(labels: Seq<int>, t: int) -> Seq<int> {
    if first_index(labels, t) is None {
        labels.push(t)
    } else {
        labels
    }
}

/// `labels` followed by the offsets that the exception handlers name, each
/// once: for each handler in order, where it starts, where it ends and
/// where it leads.
pub open spec fn spec_handler_labels(labels: Seq<int>, handlers: Seq<ExceptionHandlerInfo>) -> Seq<int>
    decreases handlers.len(),
{
    if handlers.len() == 0 {
        labels
    } else {
        let h = handlers.last();
        spec_add_label(
            spec_add_label(
                spec_add_label(spec_handler_labels(labels, handlers.drop_last()), h.start as int),
                h.end as int,
            ),
            h.target as int,
        )
    }
}

/// The labels of a function: the jump targets, each once, in the order in
/// which the jumps stand, then what the exception handlers name. The
/// offset at place `k` has label `k + 1`.
pub open spec fn spec_function_labels(
    list: Seq<HermesInstructionView>,
    handlers: Seq<ExceptionHandlerInfo>,
) -> Seq<int> {
    spec_handler_labels(spec_labels(list, list.len() as int), handlers)
}

/// The number of the label at offset `t`, if one is there.
pub open spec fn spec_label_at(labels: Seq<int>, t: int) -> Option<nat> {
    match first_index(labels, t) {
        Some(k) => Some((k + 1) as nat),
        None => None,
    }
}

/// The lines that instruction `i` gives: where a jump leads to it, or an
/// exception handler starts, ends or leads there, first the line of its
/// label; then its number in the function, a tab, and how
/// it is shown, with the label of its target in the place of its jump offset.
pub open spec fn spec_entry(
    f: &HermesFile,
    list: Seq<HermesInstructionView>,
    labels: Seq<int>,
    i: int,
) -> Option<Seq<Seq<char>>> {
    let label = if spec_is_jump(list[i]) {
        spec_label_at(labels, spec_target(list, i))
    } else {
        None
    };
    match spec_display(f, list[i], label) {
        Some(text) => {
            let line = decimal(i as nat) + "\t"@ + text;
            match spec_label_at(labels, spec_offset(list, i)) {
                Some(n) => Some(seq!["\t\tL"@ + decimal(n) + ":"@, line]),
                None => Some(seq![line]),
            }
        },
        None => None,
    }
}

/// The lines of the first `upto` instructions.
pub open spec fn spec_entries(
    f: &HermesFile,
    list: Seq<HermesInstructionView>,
    labels: Seq<int>,
    upto: int,
) -> Option<Seq<Seq<char>>>
    decreases upto,
{
    if upto <= 0 {
        Some(Seq::empty())
    } else {
        match (spec_entries(f, list, labels, upto - 1), spec_entry(f, list, labels, upto - 1)) {
            (Some(a), Some(b)) => Some(a + b),
            _ => None,
        }
    }
}

/// The word that heads a function, by what may not be done with it.
pub open spec fn spec_function_word(p: FunctionHeaderFlagProhibitions) -> Seq<char> {
    match p {
        FunctionHeaderFlagProhibitions::ProhibitCall => "Constructor"@,
        FunctionHeaderFlagProhibitions::ProhibitConstruct => "NCFunction"@,
        FunctionHeaderFlagProhibitions::ProhibitNone => "Function"@,
    }
}

/// The line that heads function `fidx`: what it is, its name, its numbers
/// of parameters, registers and symbols, the shape of its header, its
/// number, and the size and offset of its bytecode.
pub open spec fn spec_function_heading(f: &HermesFile, fidx: int) -> Option<Seq<char>> {
    let h = f.function_headers@[fidx];
    let c = h.fields();
    match spec_function_label(f, fidx) {
        Some(name) => Some(
            spec_function_word(c.flags.prohibit_invoke) + "<"@ + name + ">("@ + decimal(
                c.param_count as nat,
            ) + " params, "@ + decimal(c.frame_size as nat) + " registers, "@ + decimal(
                c.env_size as nat,
            ) + " symbols): # Type: "@ + (if h is Large { "Large"@ } else { "Small"@ })
                + "FunctionHeader - funcID: "@ + decimal(fidx as nat) + " ("@ + decimal(
                c.byte_size as nat,
            ) + " bytes @ "@ + decimal(c.offset as nat) + ")\n"@,
        ),
        None => None,
    }
}

/// The lines of the disassembly of function `fidx`, whose instructions are
/// `list`: a rule, the heading, and the lines of the instructions.
pub open spec fn spec_function_lines(f: &HermesFile, fidx: int, list: Seq<HermesInstructionView>) -> Option<
    Seq<Seq<char>>,
> {
    let labels = spec_function_labels(list, f.function_headers@[fidx].spec_exception_handlers());
    match (spec_function_heading(f, fidx), spec_entries(f, list, labels, list.len() as int)) {
        (Some(heading), Some(entries)) => Some(
            seq!["------------------------------------------------\n"@, heading] + entries,
        ),
        _ => None,
    }
}

/// The lines, each but the last followed by a line feed.
pub open spec fn join_lines(lines: Seq<Seq<char>>) -> Seq<char>
    decreases lines.len(),
{
    if lines.len() == 0 {
        Seq::empty()
    } else if lines.len() == 1 {
        lines[0]
    } else {
        join_lines(lines.drop_last()) + "\n"@ + lines.last()
    }
}

/// A target that is found among the first labels is found there among all of them.
pub proof fn lemma_first_index_stays(labels: Seq<int>, t: int, upto: int)
    requires
        0 <= upto <= labels.len(),
        first_index(labels.take(upto), t) is Some,
    ensures
        first_index(labels, t) == first_index(labels.take(upto), t),
    decreases labels.len() - upto,
{
    if upto < labels.len() {
        assert(labels.take(upto + 1).drop_last() =~= labels.take(upto));
        lemma_first_index_stays(labels, t, upto + 1);
    } else {
        assert(labels.take(upto) =~= labels);
    }
}

/// A label that is among some labels keeps its place when another is added.
pub proof fn lemma_add_label_keeps(labels: Seq<int>, added: int, t: int)
    ensures
        first_index(labels, t) is Some ==> first_index(spec_add_label(labels, added), t)
            == first_index(labels, t),
        first_index(spec_add_label(labels, added), added) is Some,
{
    let more = labels.push(added);
    assert(more.drop_last() =~= labels);
}

/// A label that is among some labels keeps its place when those of the
/// exception handlers are added.
pub proof fn lemma_handler_labels_keep(labels: Seq<int>, handlers: Seq<ExceptionHandlerInfo>, t: int)
    requires
        first_index(labels, t) is Some,
    ensures
        first_index(spec_handler_labels(labels, handlers), t) == first_index(labels, t),
    decreases handlers.len(),
{
    if handlers.len() > 0 {
        let h = handlers.last();
        let a = spec_handler_labels(labels, handlers.drop_last());
        let b = spec_add_label(a, h.start as int);
        let c = spec_add_label(b, h.end as int);
        lemma_handler_labels_keep(labels, handlers.drop_last(), t);
        lemma_add_label_keeps(a, h.start as int, t);
        lemma_add_label_keeps(b, h.end as int, t);
        lemma_add_label_keeps(c, h.target as int, t);
    }
}

/// The target of each of the first `upto` instructions that is a jump is
/// among the labels of those instructions, and keeps its place among the
/// labels of more of them.
pub proof fn lemma_jump_is_labelled(list: Seq<HermesInstructionView>, i: int, upto: int)
    requires
        0 <= i < upto,
        spec_is_jump(list[i]),
    ensures
        first_index(spec_labels(list, upto), spec_target(list, i)) is Some,
        first_index(spec_labels(list, upto), spec_target(list, i)) == first_index(
            spec_labels(list, i + 1),
            spec_target(list, i),
        ),
    decreases upto,
{
    let t = spec_target(list, i);
    if upto == i + 1 {
        let before = spec_labels(list, i);
        if first_index(before, t) is None {
            assert(before.push(t).drop_last() =~= before);
        }
    } else {
        lemma_jump_is_labelled(list, i, upto - 1);
        let before = spec_labels(list, upto - 1);
        let other = spec_target(list, upto - 1);
        if spec_is_jump(list[upto - 1]) && first_index(before, other) is None {
            assert(before.push(other).drop_last() =~= before);
        }
    }
}

/// Jumps are shown by labels. The target of every jump of a function has
/// a label, by which the jump is shown; and where the target is the offset
/// of an instruction, the lines of that instruction start with the line of
/// that label.
pub proof fn lemma_jump_target_has_label(
    f: &HermesFile,
    list: Seq<HermesInstructionView>,
    handlers: Seq<ExceptionHandlerInfo>,
    i: int,
    k: int,
)
    requires
        0 <= i < list.len(),
        0 <= k < list.len(),
        spec_is_jump(list[i]),
        spec_target(list, i) == spec_offset(list, k),
        spec_entry(f, list, spec_function_labels(list, handlers), k) is Some,
    ensures
        spec_label_at(spec_function_labels(list, handlers), spec_target(list, i)) is Some,
        ({
            let n = spec_label_at(spec_function_labels(list, handlers), spec_target(list, i)).unwrap();
            let lines = spec_entry(f, list, spec_function_labels(list, handlers), k).unwrap();
            lines.len() == 2 && lines[0] == "\t\tL"@ + decimal(n) + ":"@
        }),
{
    lemma_jump_is_labelled(list, i, list.len() as int);
    lemma_handler_labels_keep(
        spec_labels(list, list.len() as int),
        handlers,
        spec_target(list, i),
    );
}

/// The place of `t` in `labels`, if it is there.
pub fn find_label(labels: &Vec<i64>, t: i64) -> (res: Option<usize>)
    ensures
        match res {
            Some(k) => first_index(label_targets(labels@), t as int) == Some(k as int) && k
                < labels@.len(),
            None => first_index(label_targets(labels@), t as int) is None,
        },
{
    let ghost targets = label_targets(labels@);
    let mut i: usize = 0;
    assert(targets.take(0) =~= Seq::<int>::empty());
    while i < labels.len()
        invariant
            i <= labels@.len(),
            targets == label_targets(labels@),
            first_index(targets.take(i as int), t as int) is None,
        decreases labels@.len() - i,
    {
        assert(targets.take(i + 1).drop_last() =~= targets.take(i as int));
        assert(targets.take(i + 1).last() == labels@[i as int]);
        if labels[i] == t {
            proof {
                lemma_first_index_stays(targets, t as int, i + 1);
            }
            return Some(i);
        }
        i = i + 1;
    }
    assert(targets.take(i as int) =~= targets);
    None
}

/// The targets as numbers of the model.
pub open spec fn label_targets(labels: Seq<i64>) -> Seq<int> {
    Seq::new(labels.len(), |i: int| labels[i] as int)
}

/// The offset of every instruction, and the labels of the function: the
/// jump targets, each once, in the order in which the jumps stand.
pub fn collect_labels(list: &Vec<HermesInstruction>) -> (res: (Vec<u64>, Vec<i64>))
    requires
        list@.len() <= u32::MAX,
        forall|i: int| 0 <= i < list@.len() ==> (#[trigger] list@[i])@.operands.len() <= 6,
    ensures
        res.0@.len() == list@.len(),
        forall|i: int|
            0 <= i < list@.len() ==> (#[trigger] res.0@[i]) == spec_offset(instructions_view(list@), i),
        label_targets(res.1@) == spec_labels(instructions_view(list@), list@.len() as int),
{
    let ghost views = instructions_view(list@);
    let mut offsets: Vec<u64> = Vec::new();
    let mut labels: Vec<i64> = Vec::new();
    let mut pos: u64 = 0;
    let mut i: usize = 0;
    assert(label_targets(labels@) =~= spec_labels(views, 0));
    while i < list.len()
        invariant
            i <= list@.len() <= u32::MAX,
            views == instructions_view(list@),
            forall|k: int| 0 <= k < list@.len() ==> (#[trigger] list@[k])@.operands.len() <= 6,
            offsets@.len() == i,
            pos == spec_offset(views, i as int),
            pos <= 49 * i,
            forall|k: int| 0 <= k < i ==> (#[trigger] offsets@[k]) == spec_offset(views, k),
            label_targets(labels@) == spec_labels(views, i as int),
        decreases list@.len() - i,
    {
        let ins = &list[i];
        assert(views[i as int] == ins@);
        assert(list@[i as int]@.operands.len() <= 6);
        proof {
            crate::hermes_file::builder::lemma_kinds_size_at_most(kinds_of(ins@.operands));
        }
        let size = ins.size() as u64;
        let ghost before = label_targets(labels@);
        if ins.is_jmp() {
            let a = ins.get_address_field();
            let signed: i64 = if a < 0x8000_0000 { a as i64 } else { a as i64 - 0x1_0000_0000 };
            let target: i64 = pos as i64 + signed;
            assert(target == spec_target(views, i as int));
            if find_label(&labels, target).is_none() {
                labels.push(target);
                assert(label_targets(labels@) =~= before.push(target as int));
            }
        }
        offsets.push(pos);
        pos = pos + size;
        i = i + 1;
    }
    (offsets, labels)
}

/// Adds `t` to the labels, unless it is among them.
fn add_label(labels: &mut Vec<i64>, t: u32)
    ensures
        label_targets(final(labels)@) == spec_add_label(label_targets(old(labels)@), t as int),
{
    let ghost before = label_targets(labels@);
    if find_label(labels, t as i64).is_none() {
        labels.push(t as i64);
        assert(label_targets(labels@) =~= before.push(t as int));
    }
}

/// Adds to the labels the offsets that the exception handlers name.
pub fn add_handler_labels(labels: &mut Vec<i64>, handlers: &Vec<ExceptionHandlerInfo>)
    ensures
        label_targets(final(labels)@) == spec_handler_labels(
            label_targets(old(labels)@),
            handlers@,
        ),
{
    let ghost start = label_targets(labels@);
    let mut i: usize = 0;
    assert(handlers@.take(0) =~= Seq::<ExceptionHandlerInfo>::empty());
    while i < handlers.len()
        invariant
            i <= handlers@.len(),
            label_targets(labels@) == spec_handler_labels(start, handlers@.take(i as int)),
        decreases handlers@.len() - i,
    {
        let h = handlers[i];
        proof {
            assert(handlers@.take(i + 1).drop_last() =~= handlers@.take(i as int));
            assert(handlers@.take(i + 1).last() == h);
        }
        add_label(labels, h.start);
        add_label(labels, h.end);
        add_label(labels, h.target);
        i = i + 1;
    }
    assert(handlers@.take(i as int) =~= handlers@);
}

/// The label that stands in the place of the jump offset of instruction
/// `i`: that of its target, if the instruction is a jump.
pub fn entry_label(
    list: &Vec<HermesInstruction>,
    offsets: &Vec<u64>,
    labels: &Vec<i64>,
    i: usize,
) -> (label: Option<u64>)
    requires
        i < list@.len() <= u32::MAX,
        offsets@.len() == list@.len(),
        offsets@[i as int] == spec_offset(instructions_view(list@), i as int),
        offsets@[i as int] <= 49 * i,
    ensures
        label_view(label) == (if spec_is_jump(instructions_view(list@)[i as int]) {
            spec_label_at(label_targets(labels@), spec_target(instructions_view(list@), i as int))
        } else {
            None
        }),
{
    let ins = &list[i];
    assert(instructions_view(list@)[i as int] == ins@);
    if ins.is_jmp() {
        let a = ins.get_address_field();
        let signed: i64 = if a < 0x8000_0000 { a as i64 } else { a as i64 - 0x1_0000_0000 };
        let count: usize = labels.len();
        match find_label(labels, offsets[i] as i64 + signed) {
            Some(k) => Some((k + 1) as u64),
            None => None,
        }
    } else {
        None
    }
}

/// The line of the label at offset `pos`, if one is there.
pub fn label_line(labels: &Vec<i64>, pos: u64) -> (mark: Option<Vec<char>>)
    requires
        pos <= i64::MAX,
    ensures
        match mark {
            Some(text) => spec_label_at(label_targets(labels@), pos as int) is Some && text@
                == "\t\tL"@ + decimal(spec_label_at(label_targets(labels@), pos as int).unwrap())
                + ":"@,
            None => spec_label_at(label_targets(labels@), pos as int) is None,
        },
{
    let count: usize = labels.len();
    match find_label(labels, pos as i64) {
        Some(k) => {
            let mut mark: Vec<char> = Vec::new();
            push_str(&mut mark, "\t\tL");
            push_decimal(&mut mark, (k + 1) as u64);
            push_str(&mut mark, ":");
            assert(mark@ =~= "\t\tL"@ + decimal((k + 1) as nat) + ":"@);
            Some(mark)
        },
        None => None,
    }
}

/// Appends the lines that instruction `i` gives.
pub fn push_entry(
    lines: &mut Vec<Vec<char>>,
    f: &HermesFile,
    list: &Vec<HermesInstruction>,
    offsets: &Vec<u64>,
    labels: &Vec<i64>,
    i: usize,
) -> (res: Result<(), HermesError>)
    requires
        i < list@.len() <= u32::MAX,
        offsets@.len() == list@.len(),
        offsets@[i as int] == spec_offset(instructions_view(list@), i as int),
        offsets@[i as int] <= 49 * i,
    ensures
        match res {
            Ok(()) => {
                let entry = spec_entry(
                    f,
                    instructions_view(list@),
                    label_targets(labels@),
                    i as int,
                );
                entry is Some && lines_view(final(lines)@) == lines_view(old(lines)@) + entry.unwrap()
            },
            Err(e) => e == HermesError::MalformedInput && spec_entry(
                f,
                instructions_view(list@),
                label_targets(labels@),
                i as int,
            ) is None,
        },
{
    let ins = &list[i];
    assert(instructions_view(list@)[i as int] == ins@);
    let label = entry_label(list, offsets, labels, i);
    let text = display_chars(ins, f, label)?;
    let mut line: Vec<char> = Vec::new();
    push_decimal(&mut line, i as u64);
    push_str(&mut line, "\t");
    push_chars(&mut line, &text);
    assert(line@ =~= decimal(i as nat) + "\t"@ + text@);
    let ghost before = lines_view(lines@);
    match label_line(labels, offsets[i]) {
        Some(mark) => {
            lines.push(mark);
            lines.push(line);
            assert(lines_view(lines@) =~= before + seq![mark@, line@]);
        },
        None => {
            lines.push(line);
            assert(lines_view(lines@) =~= before + seq![line@]);
        },
    }
    Ok(())
}

/// The characters of each line.
pub open spec fn lines_view(lines: Seq<Vec<char>>) -> Seq<Seq<char>> {
    Seq::new(lines.len(), |i: int| lines[i]@)
}

/// The lines, each but the last followed by a line feed.
pub fn join(lines: &Vec<Vec<char>>) -> (out: Vec<char>)
    ensures
        out@ == join_lines(lines_view(lines@)),
{
    let ghost all = lines_view(lines@);
    let mut out: Vec<char> = Vec::new();
    let mut i: usize = 0;
    assert(all.take(0) =~= Seq::<Seq<char>>::empty());
    while i < lines.len()
        invariant
            i <= lines@.len(),
            all == lines_view(lines@),
            out@ == join_lines(all.take(i as int)),
        decreases lines@.len() - i,
    {
        let ghost before = out@;
        assert(all.take(i + 1).drop_last() =~= all.take(i as int));
        assert(all.take(i + 1).last() == lines@[i as int]@);
        if i > 0 {
            push_str(&mut out, "\n");
        }
        push_chars(&mut out, &lines[i]);
        proof {
            if i > 0 {
                assert(out@ =~= before + "\n"@ + lines@[i as int]@);
            } else {
                assert(out@ =~= lines@[i as int]@);
            }
        }
        i = i + 1;
    }
    assert(all.take(i as int) =~= all);
    out
}

/// The lines of the disassembly of function `fidx`: `None` where there is
/// no such function, the file's version has no opcode table here, the
/// function's bytecode cannot be decoded, or something that the function or
/// one of its instructions names cannot be read.
pub open spec fn spec_disassembled_lines(f: &HermesFile, fidx: int) -> Option<Seq<Seq<char>>> {
    if 0 <= fidx < f.function_headers@.len() && spec_supported_version(f.header.version) {
        match f.spec_function_bytes(fidx) {
            Some(bytes) => match spec_decode_stream(bytes, f.header.version) {
                Some(list) => spec_function_lines(f, fidx, list),
                None => None,
            },
            None => None,
        }
    } else {
        None
    }
}

/// The lines of the disassembly of the first `upto` functions.
pub open spec fn spec_all_lines(f: &HermesFile, upto: int) -> Option<Seq<Seq<char>>>
    decreases upto,
{
    if upto <= 0 {
        Some(Seq::empty())
    } else {
        match (spec_all_lines(f, upto - 1), spec_disassembled_lines(f, upto - 1)) {
            (Some(a), Some(b)) => Some(a + b),
            _ => None,
        }
    }
}

/// The line that heads function `fidx`.
pub fn function_heading(f: &HermesFile, fidx: usize) -> (res: Result<Vec<char>, HermesError>)
    requires
        fidx < f.function_headers@.len(),
    ensures
        match res {
            Ok(text) => spec_function_heading(f, fidx as int) == Some(text@),
            Err(e) => e == HermesError::MalformedInput && spec_function_heading(f, fidx as int)
                is None,
        },
{
    let name = function_label(f, fidx)?;
    let h = &f.function_headers[fidx];
    let mut out: Vec<char> = Vec::new();
    push_str(
        &mut out,
        match h.flags().prohibit_invoke {
            FunctionHeaderFlagProhibitions::ProhibitCall => "Constructor",
            FunctionHeaderFlagProhibitions::ProhibitConstruct => "NCFunction",
            FunctionHeaderFlagProhibitions::ProhibitNone => "Function",
        },
    );
    push_str(&mut out, "<");
    push_chars(&mut out, &name);
    push_str(&mut out, ">(");
    push_decimal(&mut out, h.param_count() as u64);
    push_str(&mut out, " params, ");
    push_decimal(&mut out, h.frame_size() as u64);
    push_str(&mut out, " registers, ");
    push_decimal(&mut out, h.env_size() as u64);
    push_str(&mut out, " symbols): # Type: ");
    push_str(&mut out, if h.is_large() { "Large" } else { "Small" });
    push_str(&mut out, "FunctionHeader - funcID: ");
    push_decimal(&mut out, fidx as u64);
    push_str(&mut out, " (");
    push_decimal(&mut out, h.byte_size() as u64);
    push_str(&mut out, " bytes @ ");
    push_decimal(&mut out, h.offset() as u64);
    push_str(&mut out, ")\n");
    assert(out@ =~= spec_function_heading(f, fidx as int).unwrap());
    Ok(out)
}

/// The lines of the instructions of a function with the given exception
/// handlers.
pub fn instruction_lines(
    f: &HermesFile,
    list: &Vec<HermesInstruction>,
    handlers: &Vec<ExceptionHandlerInfo>,
) -> (res: Result<Vec<Vec<char>>, HermesError>)
    requires
        list@.len() <= u32::MAX,
        forall|i: int| 0 <= i < list@.len() ==> (#[trigger] list@[i])@.operands.len() <= 6,
    ensures
        match res {
            Ok(lines) => spec_entries(
                f,
                instructions_view(list@),
                spec_function_labels(instructions_view(list@), handlers@),
                list@.len() as int,
            ) == Some(lines_view(lines@)),
            Err(e) => e == HermesError::MalformedInput && spec_entries(
                f,
                instructions_view(list@),
                spec_function_labels(instructions_view(list@), handlers@),
                list@.len() as int,
            ) is None,
        },
{
    let ghost views = instructions_view(list@);
    let (offsets, mut labels) = collect_labels(list);
    add_handler_labels(&mut labels, handlers);
    let ghost targets = label_targets(labels@);
    let mut lines: Vec<Vec<char>> = Vec::new();
    let mut i: usize = 0;
    assert(lines_view(lines@) =~= Seq::<Seq<char>>::empty());
    while i < list.len()
        invariant
            i <= list@.len() <= u32::MAX,
            views == instructions_view(list@),
            targets == label_targets(labels@),
            targets == spec_function_labels(views, handlers@),
            offsets@.len() == list@.len(),
            forall|k: int| 0 <= k < list@.len() ==> (#[trigger] offsets@[k]) == spec_offset(views, k),
            forall|k: int| 0 <= k < list@.len() ==> (#[trigger] list@[k])@.operands.len() <= 6,
            spec_entries(f, views, targets, i as int) == Some(lines_view(lines@)),
        decreases list@.len() - i,
    {
        proof {
            lemma_offset_bound(list@, i as int);
        }
        match push_entry(&mut lines, f, list, &offsets, &labels, i) {
            Ok(()) => {},
            Err(e) => {
                proof {
                    lemma_entries_none(f, views, targets, i as int, list@.len() as int);
                }
                return Err(e);
            },
        }
        i = i + 1;
    }
    Ok(lines)
}

/// Instructions of at most six operands lie at most 49 bytes apart.
pub proof fn lemma_offset_bound(list: Seq<HermesInstruction>, i: int)
    requires
        0 <= i <= list.len(),
        forall|k: int| 0 <= k < list.len() ==> (#[trigger] list[k])@.operands.len() <= 6,
    ensures
        0 <= spec_offset(instructions_view(list), i) <= 49 * i,
    decreases i,
{
    if i > 0 {
        lemma_offset_bound(list, i - 1);
        assert(list[i - 1]@.operands.len() <= 6);
        crate::hermes_file::builder::lemma_kinds_size_at_most(kinds_of(list[i - 1]@.operands));
    }
}

/// Where one instruction cannot be shown, the function cannot.
pub proof fn lemma_entries_none(
    f: &HermesFile,
    list: Seq<HermesInstructionView>,
    labels: Seq<int>,
    i: int,
    upto: int,
)
    requires
        0 <= i < upto,
        spec_entry(f, list, labels, i) is None,
    ensures
        spec_entries(f, list, labels, upto) is None,
    decreases upto,
{
    if upto - 1 > i {
        lemma_entries_none(f, list, labels, i, upto - 1);
    }
}

/// Where one function cannot be disassembled, the file cannot.
pub proof fn lemma_all_lines_none(f: &HermesFile, i: int, upto: int)
    requires
        0 <= i < upto,
        spec_disassembled_lines(f, i) is None,
    ensures
        spec_all_lines(f, upto) is None,
    decreases upto,
{
    if upto - 1 > i {
        lemma_all_lines_none(f, i, upto - 1);
    }
}

impl HermesFile {
    /// The lines of the disassembly of function `fidx`.
    pub fn disassembled_lines(&self, fidx: usize) -> (res: Result<Vec<Vec<char>>, HermesError>)
        ensures
            match res {
                Ok(lines) => spec_disassembled_lines(self, fidx as int) == Some(lines_view(lines@)),
                Err(e) => spec_disassembled_lines(self, fidx as int) is None && (if fidx
                    >= self.function_headers@.len() {
                    e == HermesError::InternalConsistency
                } else if !spec_supported_version(self.header.version) {
                    e == HermesError::UnsupportedVersion
                } else {
                    e == HermesError::MalformedInput
                }),
            },
    {
        let list = self.decode_function(fidx)?;
        proof {
            lemma_decode_stream_len(
                self.spec_function_bytes(fidx as int).unwrap(),
                self.header.version,
            );
        }
        let heading = function_heading(self, fidx)?;
        let handlers = self.function_headers[fidx].exception_handlers();
        let entries = instruction_lines(self, &list, &handlers)?;
        let mut lines: Vec<Vec<char>> = Vec::new();
        let mut rule: Vec<char> = Vec::new();
        push_str(&mut rule, "------------------------------------------------\n");
        lines.push(rule);
        lines.push(heading);
        let ghost head = lines_view(lines@);
        assert(head =~= seq!["------------------------------------------------\n"@, heading@]);
        let mut i: usize = 0;
        while i < entries.len()
            invariant
                i <= entries@.len(),
                lines_view(lines@) == head + lines_view(entries@).take(i as int),
            decreases entries@.len() - i,
        {
            let ghost before = lines_view(lines@);
            let mut copy: Vec<char> = Vec::new();
            push_chars(&mut copy, &entries[i]);
            assert(copy@ =~= entries@[i as int]@);
            lines.push(copy);
            i = i + 1;
            assert(lines_view(lines@) =~= before.push(entries@[i - 1]@));
            assert(lines_view(lines@) =~= head + lines_view(entries@).take(i as int));
        }
        assert(lines_view(entries@).take(i as int) =~= lines_view(entries@));
        Ok(lines)
    }

    /// The disassembly of function `fidx`: a rule, the function's heading,
    /// and a line for each instruction, with a line for its label before an
    /// instruction that a jump leads to or at which an exception handler
    /// starts, ends or leads. Fails with `InternalConsistency`
    /// where there is no such function, with `UnsupportedVersion` where the
    /// file's version has no opcode table here, and with `MalformedInput`
    /// where the bytecode cannot be decoded or names what the file lacks.
    pub fn get_disassembled_bytecode_for_function(&self, fidx: usize) -> (res: Result<
        String,
        HermesError,
    >)
        ensures
            match res {
                Ok(text) => spec_disassembled_lines(self, fidx as int) is Some && text@ == join_lines(
                    spec_disassembled_lines(self, fidx as int).unwrap(),
                ),
                Err(e) => spec_disassembled_lines(self, fidx as int) is None && (if fidx
                    >= self.function_headers@.len() {
                    e == HermesError::InternalConsistency
                } else if !spec_supported_version(self.header.version) {
                    e == HermesError::UnsupportedVersion
                } else {
                    e == HermesError::MalformedInput
                }),
            },
    {
        let lines = self.disassembled_lines(fidx)?;
        let chars = join(&lines);
        Ok(string_from_chars(&chars))
    }

    /// Appends the lines of the disassembly of function `fidx`.
    fn push_function_lines(&self, lines: &mut Vec<Vec<char>>, fidx: usize) -> (res: Result<
        (),
        HermesError,
    >)
        ensures
            match res {
                Ok(()) => spec_disassembled_lines(self, fidx as int) is Some && lines_view(
                    final(lines)@,
                ) == lines_view(old(lines)@) + spec_disassembled_lines(self, fidx as int).unwrap(),
                Err(e) => spec_disassembled_lines(self, fidx as int) is None && (if fidx
                    >= self.function_headers@.len() {
                    e == HermesError::InternalConsistency
                } else if !spec_supported_version(self.header.version) {
                    e == HermesError::UnsupportedVersion
                } else {
                    e == HermesError::MalformedInput
                }),
            },
    {
        let mut more = match self.disassembled_lines(fidx) {
            Ok(more) => more,
            Err(e) => {
                return Err(e);
            },
        };
        let ghost before = lines_view(lines@);
        let ghost added = lines_view(more@);
        lines.append(&mut more);
        assert(lines_view(lines@) =~= before + added);
        Ok(())
    }

    /// The disassembly of every function, one after the other.
    pub fn get_disassembled_bytecode(&self) -> (res: Result<String, HermesError>)
        ensures
            match res {
                Ok(text) => spec_all_lines(self, self.function_headers@.len() as int) is Some
                    && text@ == join_lines(
                    spec_all_lines(self, self.function_headers@.len() as int).unwrap(),
                ),
                Err(e) => spec_all_lines(self, self.function_headers@.len() as int) is None && (
                if spec_supported_version(self.header.version) {
                    e == HermesError::MalformedInput
                } else {
                    e == HermesError::UnsupportedVersion
                }),
            },
    {
        let mut lines: Vec<Vec<char>> = Vec::new();
        let mut i: usize = 0;
        assert(lines_view(lines@) =~= Seq::<Seq<char>>::empty());
        while i < self.function_headers.len()
            invariant
                i <= self.function_headers@.len(),
                spec_all_lines(self, i as int) == Some(lines_view(lines@)),
            decreases self.function_headers@.len() - i,
        {
            proof {
                lemma_all_lines_step(self, i as int);
            }
            match self.push_function_lines(&mut lines, i) {
                Ok(()) => {},
                Err(e) => {
                    proof {
                        lemma_all_lines_none(self, i as int, self.function_headers@.len() as int);
                    }
                    return Err(e);
                },
            }
            i = i + 1;
        }
        let chars = join(&lines);
        Ok(string_from_chars(&chars))
    }
}

/// The lines of the first `i + 1` functions are those of the first `i`
/// followed by those of function `i`.
pub proof fn lemma_all_lines_step(f: &HermesFile, i: int)
    requires
        0 <= i,
    ensures
        spec_all_lines(f, i + 1) == (match (spec_all_lines(f, i), spec_disassembled_lines(f, i)) {
            (Some(a), Some(b)) => Some(a + b),
            _ => None,
        }),
{
}

} // verus!
