//! The bit-level model of packed records.
//!
//! A byte sequence is read as a row of bits: bit `k` is bit `k % 8` of byte
//! `k / 8`, least significant first. A field of width `n` that starts at bit
//! `s` holds the number whose binary digit `i` is bit `s + i`.

use vstd::prelude::*;

verus! {

/// Bit `k` of a byte sequence.
pub open spec fn get_bit(bits: Seq<u8>, k: int) -> bool {
    (bits[k / 8] >> ((k % 8) as u8)) & 1u8 == 1u8
}

/// Bit `i` of the field that starts at bit `start`.
pub open spec fn field_bit(bits: Seq<u8>, start: int, i: int) -> bool {
    get_bit(bits, start + i)
}

/// Binary digit `i` of a number.
pub open spec fn value_bit(value: u32, i: int) -> bool {
    (value >> (i as u32)) & 1u32 == 1u32
}

/// The number with the low `n` binary digits set, for `n <= 32`.
pub open spec fn low_mask(n: u32) -> u32 {
    if n >= 32 { 0xffff_ffffu32 } else { ((1u32 << n) - 1) as u32 }
}

/// The number held in the `n` bits that start at bit `start`.
pub open spec fn bitfield_value(bits: Seq<u8>, start: int, n: nat) -> u32
    decreases n,
{
    if n == 0 {
        0
    } else {
        let low = bitfield_value(bits, start, (n - 1) as nat);
        if get_bit(bits, start + n - 1) {
            low | (1u32 << ((n - 1) as u32))
        } else {
            low
        }
    }
}

/// The sequence with bit `k` set to `on` and every other bit as before.
pub open spec fn set_bit(bits: Seq<u8>, k: int, on: bool) -> Seq<u8> {
    let byte = bits[k / 8];
    let m = 1u8 << ((k % 8) as u8);
    bits.update(k / 8, if on { byte | m } else { byte & !m })
}

/// The sequence in which the `n` bits from bit `start` hold the low `n`
/// binary digits of `value`, and every other bit is as before.
pub open spec fn write_bits(bits: Seq<u8>, start: int, n: nat, value: u32) -> Seq<u8>
    decreases n,
{
    if n == 0 {
        bits
    } else {
        set_bit(
            write_bits(bits, start, (n - 1) as nat, value),
            start + n - 1,
            value_bit(value, n - 1),
        )
    }
}

proof fn lemma_byte_bit_update(b: u8, j: u8, j2: u8)
    by (bit_vector)
    requires
        j < 8,
        j2 < 8,
    ensures
        ((b | (1u8 << j)) >> j2) & 1u8 == (if j2 == j { 1u8 } else { (b >> j2) & 1u8 }),
        ((b & !(1u8 << j)) >> j2) & 1u8 == (if j2 == j { 0u8 } else { (b >> j2) & 1u8 }),
        (b >> j2) & 1u8 == 0u8 || (b >> j2) & 1u8 == 1u8,
{
}

/// Setting a bit changes that bit and no other.
pub proof fn lemma_get_set_bit(bits: Seq<u8>, k: int, on: bool, k2: int)
    requires
        0 <= k < 8 * bits.len(),
        0 <= k2 < 8 * bits.len(),
    ensures
        set_bit(bits, k, on).len() == bits.len(),
        get_bit(set_bit(bits, k, on), k2) == (if k2 == k { on } else { get_bit(bits, k2) }),
{
    lemma_byte_bit_update(bits[k / 8], (k % 8) as u8, (k2 % 8) as u8);
}

/// Writing a field leaves the length alone.
pub proof fn lemma_write_bits_len(bits: Seq<u8>, start: int, n: nat, value: u32)
    requires
        0 <= start,
        start + n <= 8 * bits.len(),
    ensures
        write_bits(bits, start, n, value).len() == bits.len(),
    decreases n,
{
    if n > 0 {
        lemma_write_bits_len(bits, start, (n - 1) as nat, value);
        lemma_get_set_bit(write_bits(bits, start, (n - 1) as nat, value), start + n - 1, value_bit(value, n - 1), 0);
    }
}

/// After a field is written, a bit inside it is the matching digit of the
/// value, and a bit outside it is as before.
pub proof fn lemma_get_write_bits(bits: Seq<u8>, start: int, n: nat, value: u32, k: int)
    requires
        0 <= start,
        start + n <= 8 * bits.len(),
        0 <= k < 8 * bits.len(),
    ensures
        get_bit(write_bits(bits, start, n, value), k) == (if start <= k < start + n {
            value_bit(value, k - start)
        } else {
            get_bit(bits, k)
        }),
    decreases n,
{
    if n > 0 {
        let prev = write_bits(bits, start, (n - 1) as nat, value);
        lemma_write_bits_len(bits, start, (n - 1) as nat, value);
        lemma_get_write_bits(bits, start, (n - 1) as nat, value, k);
        lemma_get_set_bit(prev, start + n - 1, value_bit(value, n - 1), k);
    }
}

/// Two fields whose bits agree one by one hold the same number.
pub proof fn lemma_bitfield_value_ext(a: Seq<u8>, sa: int, b: Seq<u8>, sb: int, n: nat)
    requires
        forall|i: int| 0 <= i < n ==> #[trigger] field_bit(a, sa, i) == field_bit(b, sb, i),
    ensures
        bitfield_value(a, sa, n) == bitfield_value(b, sb, n),
    decreases n,
{
    if n > 0 {
        lemma_bitfield_value_ext(a, sa, b, sb, (n - 1) as nat);
        assert(field_bit(a, sa, n - 1) == field_bit(b, sb, n - 1));
    }
}

proof fn lemma_mask_step(v: u32, m: u32)
    by (bit_vector)
    requires
        m < 32,
    ensures
        (v >> m) & 1u32 == 1u32 ==> (v & low_mask(m)) | (1u32 << m) == v & low_mask((m + 1) as u32),
        (v >> m) & 1u32 != 1u32 ==> v & low_mask(m) == v & low_mask((m + 1) as u32),
        v & low_mask(0) == 0,
{
}

/// A field whose bits are the digits of `value` holds the low `n` digits of `value`.
pub proof fn lemma_bitfield_value_of_digits(a: Seq<u8>, start: int, n: nat, value: u32)
    requires
        n <= 32,
        forall|i: int| 0 <= i < n ==> #[trigger] field_bit(a, start, i) == value_bit(value, i),
    ensures
        bitfield_value(a, start, n) == value & low_mask(n as u32),
    decreases n,
{
    if n > 0 {
        lemma_bitfield_value_of_digits(a, start, (n - 1) as nat, value);
        assert(field_bit(a, start, n - 1) == value_bit(value, n - 1));
        lemma_mask_step(value, (n - 1) as u32);
    } else {
        lemma_mask_step(value, 0);
    }
}

/// Reading a field back gives the low `n` digits of what was written.
pub proof fn lemma_read_own_write(bits: Seq<u8>, start: int, n: nat, value: u32)
    requires
        0 <= start,
        n <= 32,
        start + n <= 8 * bits.len(),
    ensures
        bitfield_value(write_bits(bits, start, n, value), start, n) == value & low_mask(n as u32),
{
    let w = write_bits(bits, start, n, value);
    assert forall|i: int| 0 <= i < n implies #[trigger] field_bit(w, start, i) == value_bit(value, i) by {
        lemma_get_write_bits(bits, start, n, value, start + i);
    }
    lemma_bitfield_value_of_digits(w, start, n, value);
}

/// Reading a field is not disturbed by a write to bits outside it.
pub proof fn lemma_read_other_write(
    bits: Seq<u8>,
    ws: int,
    wn: nat,
    value: u32,
    rs: int,
    rn: nat,
)
    requires
        0 <= ws,
        ws + wn <= 8 * bits.len(),
        0 <= rs,
        rs + rn <= 8 * bits.len(),
        rs + rn <= ws || ws + wn <= rs,
    ensures
        bitfield_value(write_bits(bits, ws, wn, value), rs, rn) == bitfield_value(bits, rs, rn),
{
    let w = write_bits(bits, ws, wn, value);
    assert forall|i: int| 0 <= i < rn implies #[trigger] field_bit(w, rs, i) == field_bit(bits, rs, i) by {
        lemma_get_write_bits(bits, ws, wn, value, rs + i);
    }
    lemma_bitfield_value_ext(w, rs, bits, rs, rn);
}

/// A number below `2^n` is its own low `n` digits.
pub proof fn lemma_low_mask_fits(v: u32, n: u32)
    by (bit_vector)
    requires
        n <= 32,
        n < 32 ==> v < (1u32 << n),
    ensures
        v & low_mask(n) == v,
{
}

/// What is read from a field is below `2^n`.
pub proof fn lemma_bitfield_value_bound(bits: Seq<u8>, start: int, n: nat)
    requires
        n < 32,
    ensures
        bitfield_value(bits, start, n) < (1u32 << (n as u32)),
    decreases n,
{
    if n > 0 {
        lemma_bitfield_value_bound(bits, start, (n - 1) as nat);
        lemma_or_bound(bitfield_value(bits, start, (n - 1) as nat), (n - 1) as u32);
    } else {
        assert(0u32 < (1u32 << 0u32)) by (bit_vector);
    }
}

proof fn lemma_or_bound(low: u32, m: u32)
    by (bit_vector)
    requires
        m < 31,
        low < (1u32 << m),
    ensures
        low | (1u32 << m) < (1u32 << ((m + 1) as u32)),
        low < (1u32 << ((m + 1) as u32)),
{
}

/// What a field reads as after a write: the value written (cut to the
/// field's width) if it is the field written, and what it read as before if
/// the write touched none of its bits.
pub proof fn lemma_field_after_write(
    bits: Seq<u8>,
    ws: int,
    wn: nat,
    value: u32,
    rs: int,
    rn: nat,
)
    requires
        0 <= ws,
        wn <= 32,
        ws + wn <= 8 * bits.len(),
        0 <= rs,
        rn <= 32,
        rs + rn <= 8 * bits.len(),
    ensures
        write_bits(bits, ws, wn, value).len() == bits.len(),
        rs == ws && rn == wn ==> bitfield_value(write_bits(bits, ws, wn, value), rs, rn) == value
            & low_mask(wn as u32),
        rs + rn <= ws || ws + wn <= rs ==> bitfield_value(write_bits(bits, ws, wn, value), rs, rn)
            == bitfield_value(bits, rs, rn),
{
    lemma_write_bits_len(bits, ws, wn, value);
    if rs == ws && rn == wn {
        lemma_read_own_write(bits, ws, wn, value);
    }
    if rs + rn <= ws || ws + wn <= rs {
        lemma_read_other_write(bits, ws, wn, value, rs, rn);
    }
}

/// The powers of two that bound the fields of the format's packed records.
pub proof fn lemma_field_limits()
    by (bit_vector)
    ensures
        (1u32 << 1u32) == 2,
        (1u32 << 2u32) == 4,
        (1u32 << 7u32) == 0x80,
        (1u32 << 8u32) == 0x100,
        (1u32 << 15u32) == 0x8000,
        (1u32 << 17u32) == 0x2_0000,
        (1u32 << 23u32) == 0x80_0000,
        (1u32 << 25u32) == 0x200_0000,
        (1u32 << 30u32) == 0x4000_0000,
        (1u32 << 31u32) == 0x8000_0000,
{
}

/// A field of all-zero bytes holds zero.
pub proof fn lemma_bitfield_value_zero(bits: Seq<u8>, start: int, n: nat)
    requires
        0 <= start,
        start + n <= 8 * bits.len(),
        forall|i: int| 0 <= i < bits.len() ==> bits[i] == 0,
    ensures
        bitfield_value(bits, start, n) == 0,
    decreases n,
{
    if n > 0 {
        lemma_bitfield_value_zero(bits, start, (n - 1) as nat);
        let k = start + n - 1;
        let j = (k % 8) as u8;
        assert((0u8 >> j) & 1u8 == 0u8) by (bit_vector);
    }
}

/// One field of a packed record: where it starts, how wide it is, and the
/// number to store in it.
pub struct Field {
    pub start: int,
    pub width: nat,
    pub value: u32,
}

/// The sequence with every field of `fields` written into `bits`, first to last.
pub open spec fn write_fields(bits: Seq<u8>, fields: Seq<Field>) -> Seq<u8>
    decreases fields.len(),
{
    if fields.len() == 0 {
        bits
    } else {
        let f = fields.last();
        write_bits(write_fields(bits, fields.drop_last()), f.start, f.width, f.value)
    }
}

/// Each field is at most 32 bits wide, lies within `len` bytes, and ends
/// where the next one starts or before.
pub open spec fn fields_laid_out(fields: Seq<Field>, len: nat) -> bool {
    &&& forall|i: int|
        0 <= i < fields.len() ==> 0 <= (#[trigger] fields[i]).start && fields[i].width <= 32
            && fields[i].start + fields[i].width <= 8 * len
    &&& forall|i: int, j: int|
        0 <= i < j < fields.len() ==> (#[trigger] fields[i]).start + fields[i].width <= (
        #[trigger] fields[j]).start
}

/// Writing one more field is one more `write_bits`.
pub proof fn lemma_write_fields_push(bits: Seq<u8>, fields: Seq<Field>, f: Field)
    ensures
        write_fields(bits, fields.push(f)) == write_bits(
            write_fields(bits, fields),
            f.start,
            f.width,
            f.value,
        ),
{
    assert(fields.push(f).drop_last() =~= fields);
}

/// Writing fields leaves the length alone.
pub proof fn lemma_write_fields_len(bits: Seq<u8>, fields: Seq<Field>)
    requires
        fields_laid_out(fields, bits.len()),
    ensures
        write_fields(bits, fields).len() == bits.len(),
    decreases fields.len(),
{
    if fields.len() > 0 {
        let front = fields.drop_last();
        assert forall|i: int| 0 <= i < front.len() implies front[i] == fields[i] by {}
        lemma_write_fields_len(bits, front);
        let f = fields.last();
        lemma_write_bits_len(write_fields(bits, front), f.start, f.width, f.value);
    }
}

/// After a record's fields are written, each field reads as the value
/// stored in it, cut to the field's width.
pub proof fn lemma_read_written_field(bits: Seq<u8>, fields: Seq<Field>, i: int)
    requires
        fields_laid_out(fields, bits.len()),
        0 <= i < fields.len(),
    ensures
        bitfield_value(write_fields(bits, fields), fields[i].start, fields[i].width) == fields[i].value
            & low_mask(fields[i].width as u32),
    decreases fields.len(),
{
    let front = fields.drop_last();
    let f = fields.last();
    assert forall|k: int| 0 <= k < front.len() implies front[k] == fields[k] by {}
    lemma_write_fields_len(bits, front);
    let base = write_fields(bits, front);
    if i == fields.len() - 1 {
        lemma_field_after_write(base, f.start, f.width, f.value, f.start, f.width);
    } else {
        lemma_read_written_field(bits, front, i);
        lemma_field_after_write(base, f.start, f.width, f.value, fields[i].start, fields[i].width);
    }
}

/// A run of bits that no field touches reads as it did before the fields
/// were written.
pub proof fn lemma_read_untouched_field(bits: Seq<u8>, fields: Seq<Field>, start: int, width: nat)
    requires
        fields_laid_out(fields, bits.len()),
        0 <= start,
        width <= 32,
        start + width <= 8 * bits.len(),
        forall|k: int|
            0 <= k < fields.len() ==> start + width <= (#[trigger] fields[k]).start || fields[k].start
                + fields[k].width <= start,
    ensures
        bitfield_value(write_fields(bits, fields), start, width) == bitfield_value(bits, start, width),
    decreases fields.len(),
{
    if fields.len() > 0 {
        let front = fields.drop_last();
        let f = fields.last();
        assert forall|k: int| 0 <= k < front.len() implies front[k] == fields[k] by {}
        lemma_write_fields_len(bits, front);
        lemma_read_untouched_field(bits, front, start, width);
        lemma_field_after_write(write_fields(bits, front), f.start, f.width, f.value, start, width);
    }
}

} // verus!
