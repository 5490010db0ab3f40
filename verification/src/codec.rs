//! Fixed-size records and tables of them.
//!
//! A record type states how many bytes one record takes, which bytes a value
//! is written as, and which value a run of bytes is read as. Tables are
//! records laid end to end.

use vstd::prelude::*;
use crate::decode::{align_reader, aligned_up, decode_u32, u32_at, Reader};
use crate::encode::{encode_u32, lemma_u32_round_trip, u32_to_le, Writer};
use crate::error::HermesError;

verus! {

/// A record that occupies a fixed number of bytes in the file.
pub trait Serializable: Sized {
    /// The number of bytes one record takes.
    spec fn spec_size() -> nat;

    /// The bytes this value is written as.
    spec fn spec_bytes(&self) -> Seq<u8>;

    /// The value that `bytes` (one record's worth) is read as in a file of
    /// the given version, or `None` where they spell no value.
    spec fn spec_parse(bytes: Seq<u8>, version: u32) -> Option<Self>;

    /// Whether writing this value and reading it back as `version` gives it again.
    spec fn representable(&self, version: u32) -> bool;

    /// Every value is written as exactly one record's worth of bytes.
    proof fn lemma_size(&self)
        ensures
            self.spec_bytes().len() == Self::spec_size(),
    ;

    /// Reading undoes writing.
    proof fn lemma_round_trip(&self, version: u32)
        requires
            self.representable(version),
        ensures
            Self::spec_parse(self.spec_bytes(), version) == Some(*self),
    ;

    /// The number of bytes this value is written as.
    fn size(&self) -> (n: usize)
        ensures
            n == Self::spec_size(),
    ;

    /// Reads one record. On failure the reader is left where it was.
    fn deserialize(r: &mut Reader, version: u32) -> (res: Result<Self, HermesError>)
        ensures
            match res {
                Ok(v) => old(r).can_read(Self::spec_size() as int) && Self::spec_parse(
                    old(r).peek(Self::spec_size() as int),
                    version,
                ) == Some(v) && final(r).advanced_from(old(r), Self::spec_size() as int),
                Err(e) => e == HermesError::MalformedInput && final(r).unmoved_from(old(r)) && (
                !old(r).can_read(Self::spec_size() as int) || Self::spec_parse(
                    old(r).peek(Self::spec_size() as int),
                    version,
                ) is None),
            },
    ;

    /// Appends this value's bytes.
    fn serialize(&self, w: &mut Writer)
        ensures
            final(w)@ == old(w)@ + self.spec_bytes(),
    ;
}

/// The bytes that a table is written as: its records' bytes, in order.
pub open spec fn table_bytes<T: Serializable>(items: Seq<T>) -> Seq<u8>
    decreases items.len(),
{
    if items.len() == 0 {
        Seq::empty()
    } else {
        table_bytes(items.drop_last()) + items.last().spec_bytes()
    }
}

/// Record `i` of the table that starts at `start` in `data`.
pub open spec fn record_at<T: Serializable>(data: Seq<u8>, start: int, i: int) -> Seq<u8> {
    data.subrange(start + i * T::spec_size(), start + (i + 1) * T::spec_size())
}

/// `items` is what the `items.len()` records from `start` in `data` read as.
pub open spec fn is_table_at<T: Serializable>(
    items: Seq<T>,
    data: Seq<u8>,
    start: int,
    version: u32,
) -> bool {
    forall|i: int|
        0 <= i < items.len() ==> T::spec_parse(#[trigger] record_at::<T>(data, start, i), version)
            == Some(items[i])
}

/// Some record among the first `count` from `start` in `data` spells no value.
pub open spec fn has_bad_record<T: Serializable>(
    data: Seq<u8>,
    start: int,
    count: int,
    version: u32,
) -> bool {
    exists|i: int|
        0 <= i < count && T::spec_parse(#[trigger] record_at::<T>(data, start, i), version) is None
}

/// A table is written as one record's worth of bytes for each item.
pub proof fn lemma_table_bytes_len<T: Serializable>(items: Seq<T>)
    ensures
        table_bytes(items).len() == items.len() * T::spec_size(),
    decreases items.len(),
{
    if items.len() > 0 {
        lemma_table_bytes_len(items.drop_last());
        items.last().lemma_size();
        assert(items.len() * T::spec_size() == (items.len() - 1) * T::spec_size() + T::spec_size())
            by (nonlinear_arith);
    }
}

/// Record `i` of a written table is the bytes of item `i`.
pub proof fn lemma_table_bytes_record<T: Serializable>(items: Seq<T>, i: int)
    requires
        0 <= i < items.len(),
    ensures
        record_at::<T>(table_bytes(items), 0, i) == items[i].spec_bytes(),
    decreases items.len(),
{
    let n = items.len() as int;
    let sz = T::spec_size() as int;
    let front = items.drop_last();
    lemma_table_bytes_len(front);
    lemma_table_bytes_len(items);
    items.last().lemma_size();
    assert((i + 1) * sz == i * sz + sz) by (nonlinear_arith);
    assert(n * sz == (n - 1) * sz + sz) by (nonlinear_arith);
    if i == n - 1 {
        assert(record_at::<T>(table_bytes(items), 0, i) =~= items[i].spec_bytes());
    } else {
        lemma_table_bytes_record(front, i);
        assert((i + 1) * sz <= (n - 1) * sz) by (nonlinear_arith)
            requires
                i + 1 <= n - 1,
                sz >= 0,
        ;
        assert(0 <= i * sz) by (nonlinear_arith)
            requires
                0 <= i,
                sz >= 0,
        ;
        assert(record_at::<T>(table_bytes(items), 0, i) =~= record_at::<T>(table_bytes(front), 0, i));
    }
}

/// A written table reads back as the items it was written from.
pub proof fn lemma_table_round_trip<T: Serializable>(items: Seq<T>, version: u32)
    requires
        forall|i: int| 0 <= i < items.len() ==> (#[trigger] items[i]).representable(version),
    ensures
        table_bytes(items).len() == items.len() * T::spec_size(),
        is_table_at(items, table_bytes(items), 0, version),
{
    lemma_table_bytes_len(items);
    assert forall|i: int| 0 <= i < items.len() implies T::spec_parse(
        #[trigger] record_at::<T>(table_bytes(items), 0, i),
        version,
    ) == Some(items[i]) by {
        lemma_table_bytes_record(items, i);
        items[i].lemma_round_trip(version);
    }
}

/// Reads `count` records. Succeeds exactly when that many bytes are there
/// and each record spells a value.
pub fn read_table<T: Serializable>(r: &mut Reader, count: u32, version: u32) -> (res: Result<
    Vec<T>,
    HermesError,
>)
    ensures
        final(r).data@ == old(r).data@,
        match res {
            Ok(v) => {
                &&& v@.len() == count
                &&& old(r).can_read(count * T::spec_size())
                &&& is_table_at(v@, old(r).data@, old(r).pos as int, version)
                &&& final(r).pos == old(r).pos + count * T::spec_size()
            },
            Err(e) => {
                &&& e == HermesError::MalformedInput
                &&& (!old(r).can_read(count * T::spec_size()) || has_bad_record::<T>(
                    old(r).data@,
                    old(r).pos as int,
                    count as int,
                    version,
                ))
            },
        },
{
    if !r.has(0) {
        assert(count * T::spec_size() >= 0) by (nonlinear_arith);
        return Err(HermesError::MalformedInput);
    }
    let mut out: Vec<T> = Vec::new();
    let ghost start: int = r.pos as int;
    let ghost sz: int = T::spec_size() as int;
    let mut i: u32 = 0;
    while i < count
        invariant
            i <= count,
            sz == T::spec_size(),
            start == old(r).pos,
            r.data@ == old(r).data@,
            out@.len() == i,
            r.pos == start + i * sz,
            r.pos <= r.data@.len(),
            is_table_at(out@, r.data@, start, version),
        decreases count - i,
    {
        let ghost before = *r;
        assert((i + 1) * sz == i * sz + sz) by (nonlinear_arith);
        assert(r.peek(sz) == record_at::<T>(r.data@, start, i as int));
        match T::deserialize(r, version) {
            Ok(v) => {
                let ghost prev = out@;
                out.push(v);
                assert forall|j: int| 0 <= j < out@.len() implies T::spec_parse(
                    #[trigger] record_at::<T>(r.data@, start, j),
                    version,
                ) == Some(out@[j]) by {
                    if j < i {
                        assert(out@[j] == prev[j]);
                    }
                }
            },
            Err(e) => {
                proof {
                    if before.can_read(sz) {
                        assert(T::spec_parse(record_at::<T>(r.data@, start, i as int), version) is None);
                        assert(has_bad_record::<T>(old(r).data@, start, count as int, version));
                    } else {
                        assert(count * sz >= (i + 1) * sz) by (nonlinear_arith)
                            requires
                                count >= i + 1,
                                sz >= 0,
                        ;
                    }
                }
                return Err(e);
            },
        }
        i = i + 1;
    }
    Ok(out)
}

/// Appends every record of `items`, in order.
pub fn write_table<T: Serializable>(w: &mut Writer, items: &Vec<T>)
    ensures
        final(w)@ == old(w)@ + table_bytes(items@),
{
    let mut i: usize = 0;
    while i < items.len()
        invariant
            i <= items@.len(),
            w@ == old(w)@ + table_bytes(items@.subrange(0, i as int)),
        decreases items@.len() - i,
    {
        items[i].serialize(w);
        proof {
            let next = items@.subrange(0, i + 1);
            assert(next.drop_last() =~= items@.subrange(0, i as int));
            assert(next.last() == items@[i as int]);
            assert(w@ =~= old(w)@ + table_bytes(next));
        }
        i = i + 1;
    }
    assert(items@.subrange(0, i as int) =~= items@);
}

/// The bytes that a row of words is written as: four per word, low byte first.
pub open spec fn words_bytes(words: Seq<u32>) -> Seq<u8>
    decreases words.len(),
{
    if words.len() == 0 {
        Seq::empty()
    } else {
        words_bytes(words.drop_last()) + u32_to_le(words.last() as int)
    }
}

/// The `count` words that start at `start` in `data`.
pub open spec fn words_at(data: Seq<u8>, start: int, count: nat) -> Seq<u32> {
    Seq::new(count, |i: int| u32_at(data, start + 4 * i) as u32)
}

/// A row of words is written as four bytes each.
pub proof fn lemma_words_bytes_len(words: Seq<u32>)
    ensures
        words_bytes(words).len() == 4 * words.len(),
    decreases words.len(),
{
    if words.len() > 0 {
        lemma_words_bytes_len(words.drop_last());
    }
}

/// A written row of words, wherever it stands among other bytes, reads
/// back as the words it was written from.
pub proof fn lemma_words_round_trip(pre: Seq<u8>, words: Seq<u32>, post: Seq<u8>)
    ensures
        words_at(pre + words_bytes(words) + post, pre.len() as int, words.len()) == words,
    decreases words.len(),
{
    let data = pre + words_bytes(words) + post;
    let got = words_at(data, pre.len() as int, words.len());
    lemma_words_bytes_len(words);
    if words.len() > 0 {
        let front = words.drop_last();
        let last = words.last();
        lemma_words_bytes_len(front);
        lemma_words_round_trip(pre, front, u32_to_le(last as int) + post);
        assert(data =~= pre + words_bytes(front) + (u32_to_le(last as int) + post));
        lemma_u32_round_trip(last);
        let at: int = (pre.len() + 4 * front.len()) as int;
        assert(data.subrange(at, at + 4) =~= u32_to_le(last as int));
        assert forall|i: int| 0 <= i < words.len() implies got[i] == words[i] by {
            if i < front.len() {
                assert(words_at(data, pre.len() as int, front.len())[i] == front[i]);
            }
        }
    }
    assert(got =~= words);
}

/// Reads `count` little-endian words. Succeeds exactly when `4 * count`
/// bytes are there; on failure the reader is left where it was.
pub fn read_words(r: &mut Reader, count: u32) -> (res: Result<Vec<u32>, HermesError>)
    ensures
        match res {
            Ok(v) => old(r).can_read(4 * count) && v@ == words_at(
                old(r).data@,
                old(r).pos as int,
                count as nat,
            ) && final(r).advanced_from(old(r), 4 * count),
            Err(e) => e == HermesError::MalformedInput && !old(r).can_read(4 * count)
                && final(r).unmoved_from(old(r)),
        },
{
    let start: usize = r.position();
    let total: usize = r.data.len();
    if start > total || (total - start) / 4 < count as usize {
        return Err(HermesError::MalformedInput);
    }
    let mut out: Vec<u32> = Vec::new();
    let mut i: u32 = 0;
    while i < count
        invariant
            i <= count,
            start == old(r).pos,
            start + 4 * count <= r.data@.len(),
            r.data@ == old(r).data@,
            r.pos == start + 4 * i,
            out@ == words_at(r.data@, start as int, i as nat),
        decreases count - i,
    {
        match decode_u32(r) {
            Ok(v) => {
                out.push(v);
                assert(out@ =~= words_at(r.data@, start as int, (i + 1) as nat));
            },
            Err(e) => {
                assert(false);
            },
        }
        i = i + 1;
    }
    Ok(out)
}

/// Appends every word of `words`, low byte first.
pub fn write_words(w: &mut Writer, words: &Vec<u32>)
    ensures
        final(w)@ == old(w)@ + words_bytes(words@),
{
    let mut i: usize = 0;
    while i < words.len()
        invariant
            i <= words@.len(),
            w@ == old(w)@ + words_bytes(words@.subrange(0, i as int)),
        decreases words@.len() - i,
    {
        encode_u32(w, words[i]);
        proof {
            let next = words@.subrange(0, i + 1);
            assert(next.drop_last() =~= words@.subrange(0, i as int));
            assert(w@ =~= old(w)@ + words_bytes(next));
        }
        i = i + 1;
    }
    assert(words@.subrange(0, i as int) =~= words@);
}

/// The table of `count` records that starts at `start` in `data`, each
/// record read as the value it spells.
pub open spec fn parse_table_at<T: Serializable>(
    data: Seq<u8>,
    start: int,
    count: nat,
    version: u32,
) -> Seq<T> {
    Seq::new(count, |i: int| T::spec_parse(record_at::<T>(data, start, i), version).unwrap())
}

/// A table that every record was read into is the parsed table.
pub proof fn lemma_table_is_parsed<T: Serializable>(
    items: Seq<T>,
    data: Seq<u8>,
    start: int,
    version: u32,
)
    requires
        is_table_at(items, data, start, version),
    ensures
        items == parse_table_at::<T>(data, start, items.len(), version),
{
    assert(items =~= parse_table_at::<T>(data, start, items.len(), version));
}

/// Skips to the next multiple of four and reads `n` bytes there. Fails
/// exactly where the bytes end before that; the reader is then left where
/// it was.
pub fn read_aligned_bytes(r: &mut Reader, n: u32) -> (res: Result<Vec<u8>, HermesError>)
    ensures
        final(r).data@ == old(r).data@,
        match res {
            Ok(v) => {
                let at = aligned_up(old(r).pos as int, 4);
                &&& at + n <= old(r).data@.len()
                &&& v@ == old(r).data@.subrange(at, at + n)
                &&& final(r).pos == at + n
            },
            Err(e) => {
                &&& e == HermesError::MalformedInput
                &&& aligned_up(old(r).pos as int, 4) + n > old(r).data@.len()
                &&& final(r).pos == old(r).pos
            },
        },
{
    let start: usize = r.position();
    if start > r.data.len() || align_reader(r, 4).is_err() {
        return Err(HermesError::MalformedInput);
    }
    match r.read_exact(n as usize) {
        Ok(v) => Ok(v),
        Err(e) => {
            r.seek(start);
            Err(e)
        },
    }
}

/// Skips to the next multiple of four and reads `count` records there.
/// Fails exactly where the bytes end before that or a record spells no
/// value; the reader is then left where it was.
pub fn read_aligned_table<T: Serializable>(r: &mut Reader, count: u32, version: u32) -> (res:
    Result<Vec<T>, HermesError>)
    ensures
        final(r).data@ == old(r).data@,
        match res {
            Ok(v) => {
                let at = aligned_up(old(r).pos as int, 4);
                &&& at + count * T::spec_size() <= old(r).data@.len()
                &&& v@.len() == count
                &&& is_table_at(v@, old(r).data@, at, version)
                &&& v@ == parse_table_at::<T>(old(r).data@, at, count as nat, version)
                &&& final(r).pos == at + count * T::spec_size()
            },
            Err(e) => {
                let at = aligned_up(old(r).pos as int, 4);
                &&& e == HermesError::MalformedInput
                &&& (at + count * T::spec_size() > old(r).data@.len() || has_bad_record::<T>(
                    old(r).data@,
                    at,
                    count as int,
                    version,
                ))
                &&& final(r).pos == old(r).pos
            },
        },
{
    let start: usize = r.position();
    if start > r.data.len() || align_reader(r, 4).is_err() {
        assert(count * T::spec_size() >= 0) by (nonlinear_arith);
        return Err(HermesError::MalformedInput);
    }
    let ghost at = r.pos as int;
    match read_table::<T>(r, count, version) {
        Ok(v) => {
            proof {
                lemma_table_is_parsed(v@, r.data@, at, version);
            }
            Ok(v)
        },
        Err(e) => {
            r.seek(start);
            Err(e)
        },
    }
}

/// Skips to the next multiple of four and reads `count` words there. Fails
/// exactly where the bytes end before that; the reader is then left where
/// it was.
pub fn read_aligned_words(r: &mut Reader, count: u32) -> (res: Result<Vec<u32>, HermesError>)
    ensures
        final(r).data@ == old(r).data@,
        match res {
            Ok(v) => {
                let at = aligned_up(old(r).pos as int, 4);
                &&& at + 4 * count <= old(r).data@.len()
                &&& v@ == words_at(old(r).data@, at, count as nat)
                &&& final(r).pos == at + 4 * count
            },
            Err(e) => {
                &&& e == HermesError::MalformedInput
                &&& aligned_up(old(r).pos as int, 4) + 4 * count > old(r).data@.len()
                &&& final(r).pos == old(r).pos
            },
        },
{
    let start: usize = r.position();
    if start > r.data.len() || align_reader(r, 4).is_err() {
        return Err(HermesError::MalformedInput);
    }
    match read_words(r, count) {
        Ok(v) => Ok(v),
        Err(e) => {
            r.seek(start);
            Err(e)
        },
    }
}

/// A written table, wherever it stands among other bytes, reads back as
/// the items it was written from.
pub proof fn lemma_table_round_trip_at<T: Serializable>(
    data: Seq<u8>,
    start: int,
    items: Seq<T>,
    version: u32,
)
    requires
        0 <= start,
        start + table_bytes(items).len() <= data.len(),
        data.subrange(start, start + table_bytes(items).len()) == table_bytes(items),
        forall|i: int| 0 <= i < items.len() ==> (#[trigger] items[i]).representable(version),
    ensures
        parse_table_at::<T>(data, start, items.len(), version) == items,
{
    lemma_table_round_trip(items, version);
    let bytes = table_bytes(items);
    let sz = T::spec_size() as int;
    let parsed = parse_table_at::<T>(data, start, items.len(), version);
    assert forall|i: int| 0 <= i < items.len() implies parsed[i] == items[i] by {
        assert((i + 1) * sz == i * sz + sz) by (nonlinear_arith);
        assert(0 <= i * sz) by (nonlinear_arith)
            requires
                0 <= i,
                0 <= sz,
        ;
        assert((i + 1) * sz <= items.len() * sz) by (nonlinear_arith)
            requires
                i + 1 <= items.len(),
                0 <= sz,
        ;
        assert(record_at::<T>(data, start, i) =~= record_at::<T>(bytes, 0, i));
        assert(T::spec_parse(record_at::<T>(bytes, 0, i), version) == Some(items[i]));
    }
    assert(parsed =~= items);
}

} // verus!
