//! Strings as rows of code points.

use vstd::prelude::*;
use vstd::std_specs::iter::IteratorSpec;
use vstd::utf8::{decode_utf8, valid_utf8};

verus! {

/// The code points of a string, in order.
pub fn chars_of(s: &str) -> (v: Vec<char>)
    ensures
        v@ == s@,
{
    broadcast use {vstd::string::axiom_spec_iter, vstd::string::next_postcondition};

    let mut v: Vec<char> = Vec::new();
    let mut it = s.chars();
    assert(it.remaining() == s@);
    loop
        invariant
            it.obeys_prophetic_iter_laws(),
            it.decrease() is Some,
            v@ + it.remaining() == s@,
        decreases it.decrease()->0,
    {
        let ghost before = it;
        match it.next() {
            Some(c) => {
                assert(before.remaining().len() > 0);
                assert(v@.push(c) + it.remaining() =~= v@ + before.remaining());
                v.push(c);
            },
            None => {
                assert(v@ + it.remaining() =~= v@);
                return v;
            },
        }
    }
}

/// The error of `String::from_utf8`, carried through unread.
#[verifier::external_type_specification]
#[verifier::external_body]
pub struct ExFromUtf8Error(std::string::FromUtf8Error);

/// `String::push` appends one character.
pub assume_specification[ std::string::String::push ](s: &mut std::string::String, ch: char)
    ensures
        final(s)@ == old(s)@.push(ch),
;

/// `String::from_utf8` accepts exactly the byte rows that are valid UTF-8,
/// and gives the string whose UTF-8 encoding they are.
pub assume_specification[ std::string::String::from_utf8 ](vec: Vec<u8>) -> (res: Result<
    std::string::String,
    std::string::FromUtf8Error,
>)
    ensures
        res is Ok <==> valid_utf8(vec@),
        res matches Ok(s) ==> s@ == decode_utf8(vec@),
;

/// The string made of the given characters.
pub fn string_from_chars(chars: &Vec<char>) -> (s: String)
    ensures
        s@ == chars@,
{
    let mut s = String::new();
    let mut i: usize = 0;
    while i < chars.len()
        invariant
            i <= chars@.len(),
            s@ == chars@.take(i as int),
        decreases chars@.len() - i,
    {
        s.push(chars[i]);
        i = i + 1;
        assert(s@ =~= chars@.take(i as int));
    }
    assert(chars@.take(i as int) =~= chars@);
    s
}

/// The string that `bytes` spell in UTF-8, or `None` where they are not
/// valid UTF-8.
pub fn string_from_utf8(bytes: Vec<u8>) -> (res: Option<String>)
    ensures
        res is Some <==> valid_utf8(bytes@),
        res matches Some(s) ==> s@ == decode_utf8(bytes@),
{
    match String::from_utf8(bytes) {
        Ok(s) => Some(s),
        Err(_) => None,
    }
}

/// The bytes of `data` from `from` up to `to`.
pub fn copy_range(data: &Vec<u8>, from: usize, to: usize) -> (out: Vec<u8>)
    requires
        from <= to <= data@.len(),
    ensures
        out@ == data@.subrange(from as int, to as int),
{
    let mut out: Vec<u8> = Vec::new();
    let mut i: usize = from;
    while i < to
        invariant
            from <= i <= to <= data@.len(),
            out@ == data@.subrange(from as int, i as int),
        decreases to - i,
    {
        out.push(data[i]);
        i = i + 1;
        assert(out@ =~= data@.subrange(from as int, i as int));
    }
    out
}

/// The character of a decimal digit.
pub open spec fn digit_char(d: int) -> char {
    (('0' as u8) + d) as u8 as char
}

/// The decimal digits of a number, most significant first.
pub open spec fn decimal(n: nat) -> Seq<char>
    decreases n,
{
    if n < 10 {
        seq![digit_char(n as int)]
    } else {
        decimal(n / 10).push(digit_char((n % 10) as int))
    }
}

/// The decimal digits of a number, with a minus sign if it is negative.
pub open spec fn signed_decimal(x: int) -> Seq<char> {
    if x < 0 {
        seq!['-'] + decimal((-x) as nat)
    } else {
        decimal(x as nat)
    }
}

/// The character of a hexadecimal digit.
pub open spec fn hex_char(d: int) -> char {
    if d < 10 {
        (('0' as u8) + d) as u8 as char
    } else {
        (('a' as u8) + d - 10) as u8 as char
    }
}

/// The low `digits` hexadecimal digits of a number, most significant first.
pub open spec fn hex_digits(n: nat, digits: nat) -> Seq<char>
    decreases digits,
{
    if digits == 0 {
        Seq::empty()
    } else {
        hex_digits(n / 16, (digits - 1) as nat).push(hex_char((n % 16) as int))
    }
}

/// Appends the characters of `s`.
pub fn push_str(out: &mut Vec<char>, s: &str)
    ensures
        final(out)@ == old(out)@ + s@,
{
    let chars = chars_of(s);
    push_chars(out, &chars);
}

/// Appends `chars`.
pub fn push_chars(out: &mut Vec<char>, chars: &Vec<char>)
    ensures
        final(out)@ == old(out)@ + chars@,
{
    let mut i: usize = 0;
    while i < chars.len()
        invariant
            i <= chars@.len(),
            out@ == old(out)@ + chars@.take(i as int),
        decreases chars@.len() - i,
    {
        out.push(chars[i]);
        i = i + 1;
        assert(out@ =~= old(out)@ + chars@.take(i as int));
    }
    assert(chars@.take(i as int) =~= chars@);
}

/// The decimal digits of `n`.
pub fn decimal_chars(n: u64) -> (out: Vec<char>)
    ensures
        out@ == decimal(n as nat),
    decreases n,
{
    let d: u8 = (n % 10) as u8;
    let c: char = (48u8 + d) as char;
    assert(c == digit_char(d as int));
    if n < 10 {
        let mut out: Vec<char> = Vec::new();
        out.push(c);
        out
    } else {
        let mut out = decimal_chars(n / 10);
        out.push(c);
        out
    }
}

/// Appends the decimal digits of `n`.
pub fn push_decimal(out: &mut Vec<char>, n: u64)
    ensures
        final(out)@ == old(out)@ + decimal(n as nat),
{
    let digits = decimal_chars(n);
    push_chars(out, &digits);
}

/// Appends the decimal digits of `x`, with a minus sign if it is negative.
pub fn push_signed_decimal(out: &mut Vec<char>, x: i64)
    requires
        x > i64::MIN,
    ensures
        final(out)@ == old(out)@ + signed_decimal(x as int),
{
    if x < 0 {
        out.push('-');
        let ghost mid = out@;
        push_decimal(out, (-x) as u64);
        assert(out@ =~= old(out)@ + (seq!['-'] + decimal((-x) as nat)));
    } else {
        push_decimal(out, x as u64);
    }
}

/// The low `digits` hexadecimal digits of `n`.
pub fn hex_chars(n: u64, digits: u8) -> (out: Vec<char>)
    ensures
        out@ == hex_digits(n as nat, digits as nat),
    decreases digits,
{
    if digits == 0 {
        Vec::new()
    } else {
        let d: u8 = (n % 16) as u8;
        let c: char = if d < 10 { (48u8 + d) as char } else { (97u8 + d - 10) as char };
        assert(c == hex_char(d as int));
        let mut out = hex_chars(n / 16, digits - 1);
        out.push(c);
        out
    }
}

/// `s` without the copies of `", "` that it ends with.
pub open spec fn strip_comma_tail(s: Seq<char>) -> Seq<char>
    decreases s.len(),
{
    if s.len() >= 2 && s[s.len() - 2] == ',' && s[s.len() - 1] == ' ' {
        strip_comma_tail(s.take(s.len() - 2))
    } else {
        s
    }
}

/// `s` without the spaces it ends with.
pub open spec fn strip_space_tail(s: Seq<char>) -> Seq<char>
    decreases s.len(),
{
    if s.len() >= 1 && s[s.len() - 1] == ' ' {
        strip_space_tail(s.take(s.len() - 1))
    } else {
        s
    }
}

/// `s` without the spaces it starts with.
pub open spec fn strip_space_head(s: Seq<char>) -> Seq<char>
    decreases s.len(),
{
    if s.len() >= 1 && s[0] == ' ' {
        strip_space_head(s.skip(1))
    } else {
        s
    }
}

/// `s` without the copies of `", "` at its end, and then without the
/// spaces at either end.
pub open spec fn tidy(s: Seq<char>) -> Seq<char> {
    strip_space_head(strip_space_tail(strip_comma_tail(s)))
}

/// Removes the copies of `", "` at the end of `s`, and then the spaces at
/// either end.
pub fn tidy_chars(s: Vec<char>) -> (out: Vec<char>)
    ensures
        out@ == tidy(s@),
{
    let mut end: usize = s.len();
    assert(s@.take(end as int) =~= s@);
    while end >= 2 && s[end - 2] == ',' && s[end - 1] == ' '
        invariant
            end <= s@.len(),
            strip_comma_tail(s@.take(end as int)) == strip_comma_tail(s@),
        decreases end,
    {
        assert(s@.take(end as int).take(end - 2) =~= s@.take(end - 2));
        end = end - 2;
    }
    let ghost stripped = s@.take(end as int);
    assert(strip_comma_tail(s@) == stripped);
    while end >= 1 && s[end - 1] == ' '
        invariant
            end <= s@.len(),
            strip_space_tail(s@.take(end as int)) == strip_space_tail(stripped),
        decreases end,
    {
        assert(s@.take(end as int).take(end - 1) =~= s@.take(end - 1));
        end = end - 1;
    }
    let ghost tail_done = s@.take(end as int);
    assert(strip_space_tail(stripped) == tail_done);
    let mut start: usize = 0;
    assert(tail_done.skip(0) =~= tail_done);
    while start < end && s[start] == ' '
        invariant
            start <= end <= s@.len(),
            tail_done == s@.take(end as int),
            strip_space_head(tail_done.skip(start as int)) == strip_space_head(tail_done),
        decreases end - start,
    {
        assert(tail_done.skip(start as int).skip(1) =~= tail_done.skip(start + 1));
        start = start + 1;
    }
    let mut out: Vec<char> = Vec::new();
    let mut i: usize = start;
    while i < end
        invariant
            start <= i <= end <= s@.len(),
            out@ == s@.subrange(start as int, i as int),
        decreases end - i,
    {
        out.push(s[i]);
        i = i + 1;
        assert(out@ =~= s@.subrange(start as int, i as int));
    }
    assert(out@ =~= tail_done.skip(start as int));
    out
}

/// Whether two rows of characters are the same.
pub fn same_chars(a: &Vec<char>, b: &Vec<char>) -> (r: bool)
    ensures
        r == (a@ == b@),
{
    if a.len() != b.len() {
        return false;
    }
    let mut i: usize = 0;
    while i < a.len()
        invariant
            i <= a@.len(),
            a@.len() == b@.len(),
            forall|k: int| 0 <= k < i ==> a@[k] == b@[k],
        decreases a@.len() - i,
    {
        if a[i] != b[i] {
            return false;
        }
        i = i + 1;
    }
    assert(a@ =~= b@);
    true
}

} // verus!
