//! Building a file in memory: setting its strings and adding functions,
//! with the header kept in step.

use vstd::prelude::*;
use crate::big_int_table::BigIntTableEntry;
use crate::debug_info::DebugStringTable;
use crate::error::HermesError;
use crate::function_header::{
    FunctionHeader, FunctionHeaderFields, FunctionHeaderFlag, LargeFunctionHeader, SMALL_FIELD_MAX,
};
use crate::hermes_file::FunctionInstructions;
use crate::instruction::HermesInstruction;
use vstd::utf8::encode_utf8;
use crate::hermes_file::{pairs_view, HermesFile, StringTypePair};
use crate::jenkins::{hash_string, spec_hash_chars};
use crate::string_kind::{
    expand_kinds, lemma_expand_kinds_len, make_entry, repeat_kind, run_lengths, runs_are_maximal,
    spec_make_entry, StringKind, StringKindEntry,
};
use crate::utf16::needs_utf16;
use crate::string_table::{
    intern_string, lemma_stored_string_reads_back, lemma_string_at_stable, spec_stored_bytes,
    spec_stored_length, spec_string_at, OverflowStringTableEntry, SmallStringTableEntry,
    OVERFLOW_LENGTH,
};

verus! {

/// The number of bytes that the strings take in the string storage.
pub open spec fn spec_total_stored(strings: Seq<Seq<char>>) -> nat
    decreases strings.len(),
{
    if strings.len() == 0 {
        0
    } else {
        spec_total_stored(strings.drop_last()) + spec_stored_bytes(strings.last()).len()
    }
}

/// The string storage that holds `strings`: the bytes that each string is
/// stored as, end to end.
pub open spec fn spec_storage_bytes(strings: Seq<Seq<char>>) -> Seq<u8>
    decreases strings.len(),
{
    if strings.len() == 0 {
        Seq::empty()
    } else {
        spec_storage_bytes(strings.drop_last()) + spec_stored_bytes(strings.last())
    }
}

/// The overflow string table of `strings`: for each string of length 255
/// or more, in order, where it starts in the string storage and how long
/// it is.
pub open spec fn spec_overflow_table(strings: Seq<Seq<char>>) -> Seq<OverflowStringTableEntry>
    decreases strings.len(),
{
    if strings.len() == 0 {
        Seq::empty()
    } else {
        let front = strings.drop_last();
        let length = spec_stored_length(strings.last());
        if length >= OVERFLOW_LENGTH {
            spec_overflow_table(front).push(
                OverflowStringTableEntry {
                    offset: spec_total_stored(front) as u32,
                    length: length as u32,
                },
            )
        } else {
            spec_overflow_table(front)
        }
    }
}

/// The small string table of `strings`: for each string, in order, whether
/// it is stored as UTF-16, and where it starts in the string storage and
/// how long it is; for a string of length 255 or more, the length 255 and
/// in place of the offset the index of its entry in the overflow table.
pub open spec fn spec_small_table(strings: Seq<Seq<char>>) -> Seq<SmallStringTableEntry>
    decreases strings.len(),
{
    if strings.len() == 0 {
        Seq::empty()
    } else {
        let front = strings.drop_last();
        let length = spec_stored_length(strings.last());
        spec_small_table(front).push(
            if length >= OVERFLOW_LENGTH {
                SmallStringTableEntry {
                    is_utf_16: needs_utf16(strings.last()),
                    offset: spec_overflow_table(front).len() as u32,
                    length: OVERFLOW_LENGTH,
                }
            } else {
                SmallStringTableEntry {
                    is_utf_16: needs_utf16(strings.last()),
                    offset: spec_total_stored(front) as u32,
                    length: length as u32,
                }
            },
        )
    }
}

/// The hash of each string that is an identifier, in order.
pub open spec fn spec_identifier_hashes(pairs: Seq<(Seq<char>, StringKind)>) -> Seq<u32>
    decreases pairs.len(),
{
    if pairs.len() == 0 {
        Seq::empty()
    } else if pairs.last().1 == StringKind::Identifier {
        spec_identifier_hashes(pairs.drop_last()).push(spec_hash_chars(pairs.last().0))
    } else {
        spec_identifier_hashes(pairs.drop_last())
    }
}

/// The strings of the pairs.
pub open spec fn strings_of(pairs: Seq<(Seq<char>, StringKind)>) -> Seq<Seq<char>> {
    Seq::new(pairs.len(), |i: int| pairs[i].0)
}

/// The kinds of the pairs.
pub open spec fn kinds_of_pairs(pairs: Seq<(Seq<char>, StringKind)>) -> Seq<StringKind> {
    Seq::new(pairs.len(), |i: int| pairs[i].1)
}

/// The three tables of interned strings, while they are being built.
pub struct StringTables {
    pub storage: Vec<SmallStringTableEntry>,
    pub overflow: Vec<OverflowStringTableEntry>,
    pub bytes: Vec<u8>,
}

impl StringTables {
    /// String `i` of the tables.
    pub open spec fn spec_string(&self, i: int) -> Option<Seq<char>> {
        spec_string_at(self.storage@, self.overflow@, self.bytes@, i)
    }

    /// The tables hold exactly `strings`, in order, stored end to end.
    pub open spec fn holds(&self, strings: Seq<Seq<char>>) -> bool {
        &&& self.storage@ == spec_small_table(strings)
        &&& self.overflow@ == spec_overflow_table(strings)
        &&& self.bytes@ == spec_storage_bytes(strings)
        &&& self.storage@.len() == strings.len()
        &&& self.bytes@.len() == spec_total_stored(strings)
        &&& self.bytes@.len() <= u32::MAX
        &&& OVERFLOW_LENGTH * self.overflow@.len() <= self.bytes@.len()
        &&& forall|i: int| 0 <= i < strings.len() ==> #[trigger] self.spec_string(i) == Some(strings[i])
    }

    /// Empty tables.
    pub fn new() -> (t: StringTables)
        ensures
            t.holds(Seq::empty()),
            t.overflow@.len() == 0,
    {
        StringTables { storage: Vec::new(), overflow: Vec::new(), bytes: Vec::new() }
    }

    /// Adds a string behind those that the tables hold. Fails, and changes
    /// nothing, where the storage would outgrow a 32-bit offset.
    pub(crate) fn push_str(&mut self, s: &str, Ghost(strings): Ghost<Seq<Seq<char>>>) -> (res: Result<
        (),
        HermesError,
    >)
        requires
            old(self).holds(strings),
        ensures
            match res {
                Ok(()) => final(self).holds(strings.push(s@)),
                Err(e) => e == HermesError::InternalConsistency && spec_total_stored(strings.push(s@))
                    > u32::MAX && final(self).holds(strings),
            },
    {
        let ghost before = *self;
        assert(strings.push(s@).drop_last() =~= strings);
        let res = intern_string(&mut self.storage, &mut self.overflow, &mut self.bytes, s);
        proof {
            if res is Ok {
                let i = strings.len() as int;
                let entry = self.storage@.last();
                let stored = spec_stored_bytes(s@);
                let more_overflow = if spec_stored_length(s@) >= OVERFLOW_LENGTH {
                    seq![self.overflow@.last()]
                } else {
                    Seq::empty()
                };
                assert(self.storage@ =~= before.storage@ + seq![entry]);
                assert(self.overflow@ =~= before.overflow@ + more_overflow);
                assert(self.storage@ =~= before.storage@.push(entry));
                assert(self.storage@ == spec_small_table(strings.push(s@)));
                assert(self.overflow@ == spec_overflow_table(strings.push(s@)));
                assert(self.bytes@ == spec_storage_bytes(strings.push(s@)));
                assert forall|j: int| 0 <= j < strings.push(s@).len() implies #[trigger] self.spec_string(
                    j,
                ) == Some(strings.push(s@)[j]) by {
                    if j < i {
                        assert(before.spec_string(j) == Some(strings[j]));
                        lemma_string_at_stable(
                            before.storage@,
                            before.overflow@,
                            before.bytes@,
                            seq![entry],
                            more_overflow,
                            stored,
                            j,
                        );
                    } else {
                        lemma_stored_string_reads_back(before.bytes@, s@, Seq::empty());
                        assert(self.bytes@ =~= before.bytes@ + stored + Seq::<u8>::empty());
                    }
                }
            } else {
                assert forall|j: int| 0 <= j < strings.len() implies #[trigger] self.spec_string(j)
                    == Some(strings[j]) by {
                    assert(before.spec_string(j) == Some(strings[j]));
                }
            }
        }
        res
    }
}

/// A pair for each of `strings`, as a plain string.
fn plain_pairs(strings: &Vec<String>) -> (pairs: Vec<StringTypePair>)
    ensures
        pairs_view(pairs@) == with_kind(strings_view(strings@), StringKind::String),
        strings_of(pairs_view(pairs@)) == strings_view(strings@),
        pairs@.len() == strings@.len(),
{
    let mut pairs: Vec<StringTypePair> = Vec::new();
    assert(pairs_view(pairs@) =~= Seq::empty());
    push_with_kind(&mut pairs, strings, StringKind::String);
    assert(pairs_view(pairs@) =~= with_kind(strings_view(strings@), StringKind::String));
    assert(strings_of(pairs_view(pairs@)) =~= strings_view(strings@));
    assert(pairs_view(pairs@).len() == pairs@.len());
    pairs
}

/// Strings that are all plain strings have no identifier among them.
pub proof fn lemma_plain_strings(strings: Seq<Seq<char>>)
    ensures
        spec_identifier_hashes(with_kind(strings, StringKind::String)).len() == 0,
        kinds_of_pairs(with_kind(strings, StringKind::String)) == repeat_kind(
            StringKind::String,
            strings.len(),
        ),
    decreases strings.len(),
{
    let pairs = with_kind(strings, StringKind::String);
    if strings.len() > 0 {
        lemma_plain_strings(strings.drop_last());
        assert(pairs.drop_last() =~= with_kind(strings.drop_last(), StringKind::String));
    }
    assert(kinds_of_pairs(pairs) =~= repeat_kind(StringKind::String, strings.len()));
}

/// A file whose string tables hold the strings of some pairs, and whose
/// runs of string kinds spell the kinds of the pairs, has those pairs as
/// its strings by kind.
pub proof fn lemma_strings_by_kind(
    f: &HermesFile,
    tables: StringTables,
    all: Seq<(Seq<char>, StringKind)>,
)
    requires
        tables.holds(strings_of(all)),
        f.string_storage@ == tables.storage@,
        f.overflow_string_storage@ == tables.overflow@,
        f.string_storage_bytes@ == tables.bytes@,
        expand_kinds(f.string_kinds@) == kinds_of_pairs(all),
    ensures
        f.kinds_readable(),
        f.spec_strings_by_kind() == all,
        f.holds_strings(strings_of(all)),
{
    assert forall|j: int| 0 <= j < all.len() implies #[trigger] f.spec_string(j) == Some(all[j].0) by {
        assert(tables.spec_string(j) == Some(strings_of(all)[j]));
    }
    assert(f.spec_strings_by_kind() =~= all);
}

impl HermesFile {
    /// Adds a run of `count` strings of the given kind to the string kinds,
    /// in the layout of the file's version. A run of no strings is not added.
    pub fn push_string_kind(&mut self, kind: StringKind, count: u32)
        ensures
            final(self).string_kinds@ == (if count > 0 {
                old(self).string_kinds@.push(spec_make_entry(old(self).header.version, kind, count))
            } else {
                old(self).string_kinds@
            }),
            final(self).same_but_string_kinds(old(self)),
    {
        if count > 0 {
            let sk = make_entry(self.header.version, kind, count);
            self.string_kinds.push(sk);
        }
    }

    /// This file is `other` in everything but the runs of string kinds.
    pub open spec fn same_but_string_kinds(&self, other: &HermesFile) -> bool {
        *self == (HermesFile { string_kinds: self.string_kinds, ..*other })
    }

    /// This file is `other` in everything but the string tables, the runs
    /// of string kinds, the identifier hashes, and the header's counts of those.
    pub open spec fn same_but_strings(&self, other: &HermesFile) -> bool {
        *self == (HermesFile {
            string_kinds: self.string_kinds,
            identifier_hashes: self.identifier_hashes,
            string_storage: self.string_storage,
            overflow_string_storage: self.overflow_string_storage,
            string_storage_bytes: self.string_storage_bytes,
            header: self.header,
            ..*other
        }) && self.header == (crate::header::HermesHeader {
            string_kind_count: self.header.string_kind_count,
            identifier_count: self.header.identifier_count,
            string_count: self.header.string_count,
            overflow_string_count: self.header.overflow_string_count,
            string_storage_size: self.header.string_storage_size,
            ..other.header
        })
    }

    /// Whether the string tables are those of `strings`: the small string
    /// table, the overflow string table and the string storage.
    pub open spec fn holds_strings(&self, strings: Seq<Seq<char>>) -> bool {
        &&& self.string_storage@ == spec_small_table(strings)
        &&& self.overflow_string_storage@ == spec_overflow_table(strings)
        &&& self.string_storage_bytes@ == spec_storage_bytes(strings)
    }

    /// Whether the header's counts of strings are those of the string tables.
    pub open spec fn string_counts_in_sync(&self) -> bool {
        &&& self.header.string_kind_count == self.string_kinds@.len()
        &&& self.header.identifier_count == self.identifier_hashes@.len()
        &&& self.header.string_count == self.string_storage@.len()
        &&& self.header.overflow_string_count == self.overflow_string_storage@.len()
        &&& self.header.string_storage_size == self.string_storage_bytes@.len()
    }

    /// Puts the given string tables, identifier hashes and runs of string
    /// kinds in the place of the file's own, and sets the header's counts
    /// of them.
    fn install_strings(&mut self, tables: StringTables, hashes: Vec<u32>, runs: Vec<StringKindEntry>)
        requires
            tables.storage@.len() <= u32::MAX,
            tables.overflow@.len() <= u32::MAX,
            tables.bytes@.len() <= u32::MAX,
            hashes@.len() <= u32::MAX,
            runs@.len() <= u32::MAX,
        ensures
            final(self).string_storage@ == tables.storage@,
            final(self).overflow_string_storage@ == tables.overflow@,
            final(self).string_storage_bytes@ == tables.bytes@,
            final(self).identifier_hashes@ == hashes@,
            final(self).string_kinds@ == runs@,
            final(self).string_counts_in_sync(),
            final(self).same_but_strings(old(self)),
    {
        self.header.string_kind_count = runs.len() as u32;
        self.header.identifier_count = hashes.len() as u32;
        self.header.string_count = tables.storage.len() as u32;
        self.header.overflow_string_count = tables.overflow.len() as u32;
        self.header.string_storage_size = tables.bytes.len() as u32;
        self.string_kinds = runs;
        self.identifier_hashes = hashes;
        self.string_storage = tables.storage;
        self.overflow_string_storage = tables.overflow;
        self.string_storage_bytes = tables.bytes;
    }

    /// Replaces the file's strings by `pairs`, in the order given. Each
    /// string is stored as UTF-16 if one of its characters lies above
    /// `U+10000`, else as UTF-8; a string of length 255 or more is reached
    /// through the overflow table. The runs of string kinds follow the kinds
    /// of the pairs, and the identifier hashes are those of the identifiers.
    /// Fails, and changes nothing, exactly where the strings take more than
    /// `2^32 - 1` bytes or there are more than `2^32 - 1` of them.
    pub fn set_string_pairs_unordered(&mut self, pairs: Vec<StringTypePair>) -> (res: Result<
        (),
        HermesError,
    >)
        ensures
            match res {
                Ok(()) => {
                    &&& final(self).kinds_readable()
                    &&& final(self).spec_strings_by_kind() == pairs_view(pairs@)
                    &&& final(self).holds_strings(strings_of(pairs_view(pairs@)))
                    &&& final(self).string_storage@.len() == pairs@.len()
                    &&& final(self).string_storage_bytes@.len() == spec_total_stored(
                        strings_of(pairs_view(pairs@)),
                    )
                    &&& final(self).identifier_hashes@ == spec_identifier_hashes(pairs_view(pairs@))
                    &&& expand_kinds(final(self).string_kinds@) == kinds_of_pairs(pairs_view(pairs@))
                    &&& runs_are_maximal(final(self).string_kinds@, old(self).header.version)
                    &&& final(self).string_counts_in_sync()
                    &&& final(self).same_but_strings(old(self))
                },
                Err(e) => {
                    &&& e == HermesError::InternalConsistency
                    &&& (pairs@.len() > u32::MAX || spec_total_stored(strings_of(pairs_view(pairs@)))
                        > u32::MAX)
                    &&& *final(self) == *old(self)
                },
            },
    {
        let ghost all = pairs_view(pairs@);
        let (tables, hashes, runs) = match build_string_tables(&pairs, self.header.version) {
            Ok(built) => built,
            Err(e) => {
                return Err(e);
            },
        };
        let ghost built = tables;
        proof {
            lemma_expand_kinds_len(runs@);
        }
        self.install_strings(tables, hashes, runs);
        proof {
            lemma_strings_by_kind(self, built, all);
        }
        Ok(())
    }
}

/// The string tables, identifier hashes and runs of string kinds for the
/// given pairs, in the layout of the given version.
pub fn build_string_tables(pairs: &Vec<StringTypePair>, version: u32) -> (res: Result<
    (StringTables, Vec<u32>, Vec<StringKindEntry>),
    HermesError,
>)
    ensures
        match res {
            Ok((tables, hashes, runs)) => {
                let all = pairs_view(pairs@);
                &&& pairs@.len() <= u32::MAX
                &&& tables.holds(strings_of(all))
                &&& tables.overflow@.len() <= u32::MAX
                &&& hashes@ == spec_identifier_hashes(all)
                &&& hashes@.len() <= pairs@.len()
                &&& expand_kinds(runs@) == kinds_of_pairs(all)
                &&& runs_are_maximal(runs@, version)
                &&& runs@.len() <= pairs@.len()
            },
            Err(e) => {
                &&& e == HermesError::InternalConsistency
                &&& (pairs@.len() > u32::MAX || spec_total_stored(strings_of(pairs_view(pairs@)))
                    > u32::MAX)
            },
        },
{
    let ghost all = pairs_view(pairs@);
    if pairs.len() > u32::MAX as usize {
        return Err(HermesError::InternalConsistency);
    }
    let mut tables = StringTables::new();
    let mut kinds: Vec<StringKind> = Vec::new();
    let mut hashes: Vec<u32> = Vec::new();
    let mut i: usize = 0;
    assert(strings_of(all).take(0) =~= Seq::<Seq<char>>::empty());
    assert(all.take(0) =~= Seq::empty());
    while i < pairs.len()
        invariant
            i <= pairs@.len() <= u32::MAX,
            all == pairs_view(pairs@),
            tables.holds(strings_of(all).take(i as int)),
            kinds@ == kinds_of_pairs(all).take(i as int),
            hashes@ == spec_identifier_hashes(all.take(i as int)),
            hashes@.len() <= i,
        decreases pairs@.len() - i,
    {
        let ghost seen = strings_of(all).take(i as int);
        let pair = &pairs[i];
        proof {
            assert(strings_of(all).take(i + 1) =~= seen.push(pair.string@));
            assert(all.take(i + 1).drop_last() =~= all.take(i as int));
            assert(all.take(i + 1).last() == (pair.string@, pair.kind));
        }
        match tables.push_str(pair.string.as_str(), Ghost(seen)) {
            Ok(()) => {},
            Err(e) => {
                proof {
                    lemma_total_stored_monotone(strings_of(all), i + 1);
                }
                return Err(e);
            },
        }
        kinds.push(pair.kind);
        assert(kinds@ =~= kinds_of_pairs(all).take(i + 1));
        match pair.kind {
            StringKind::Identifier => {
                hashes.push(hash_string(pair.string.as_str()));
            },
            _ => {},
        }
        i = i + 1;
    }
    proof {
        assert(strings_of(all).take(i as int) =~= strings_of(all));
        assert(all.take(i as int) =~= all);
        assert(kinds_of_pairs(all).take(i as int) =~= kinds_of_pairs(all));
    }
    let runs = run_lengths(&kinds, version);
    Ok((tables, hashes, runs))
}

/// The strings up to some point take no more bytes than all of them.
pub proof fn lemma_total_stored_monotone(strings: Seq<Seq<char>>, i: int)
    requires
        0 <= i <= strings.len(),
    ensures
        spec_total_stored(strings.take(i)) <= spec_total_stored(strings),
    decreases strings.len() - i,
{
    if i < strings.len() {
        lemma_total_stored_monotone(strings, i + 1);
        assert(strings.take(i + 1).drop_last() =~= strings.take(i));
    } else {
        assert(strings.take(i) =~= strings);
    }
}

/// The pairs made of the given strings, each with the given kind.
pub open spec fn with_kind(strings: Seq<Seq<char>>, kind: StringKind) -> Seq<(Seq<char>, StringKind)> {
    Seq::new(strings.len(), |i: int| (strings[i], kind))
}

/// The characters of each string.
pub open spec fn strings_view(strings: Seq<String>) -> Seq<Seq<char>> {
    Seq::new(strings.len(), |i: int| strings[i]@)
}

/// Appends to `out` a pair for each of `strings`, with the given kind.
fn push_with_kind(out: &mut Vec<StringTypePair>, strings: &Vec<String>, kind: StringKind)
    ensures
        pairs_view(final(out)@) == pairs_view(old(out)@) + with_kind(strings_view(strings@), kind),
{
    let mut i: usize = 0;
    while i < strings.len()
        invariant
            i <= strings@.len(),
            pairs_view(out@) == pairs_view(old(out)@) + with_kind(
                strings_view(strings@).take(i as int),
                kind,
            ),
        decreases strings@.len() - i,
    {
        let ghost before = out@;
        out.push(StringTypePair { string: strings[i].clone(), kind });
        i = i + 1;
        assert(pairs_view(out@) =~= pairs_view(before).push((strings@[i - 1]@, kind)));
        assert(pairs_view(out@) =~= pairs_view(old(out)@) + with_kind(
            strings_view(strings@).take(i as int),
            kind,
        ));
    }
    assert(strings_view(strings@).take(i as int) =~= strings_view(strings@));
}

/// The strings of the pairs.
fn strings_of_pairs(pairs: &Vec<StringTypePair>) -> (out: Vec<String>)
    ensures
        strings_view(out@) == strings_of(pairs_view(pairs@)),
{
    let mut out: Vec<String> = Vec::new();
    let mut i: usize = 0;
    while i < pairs.len()
        invariant
            i <= pairs@.len(),
            strings_view(out@) == strings_of(pairs_view(pairs@)).take(i as int),
        decreases pairs@.len() - i,
    {
        let ghost before = out@;
        let copy = pairs[i].string.clone();
        assert(copy@ == pairs_view(pairs@)[i as int].0);
        out.push(copy);
        i = i + 1;
        assert(strings_view(out@) =~= strings_view(before).push(copy@));
        assert(strings_view(out@) =~= strings_of(pairs_view(pairs@)).take(i as int));
    }
    assert(strings_of(pairs_view(pairs@)).take(i as int) =~= strings_of(pairs_view(pairs@)));
    out
}

/// The entries that locate each of `strings` in a storage that holds their
/// UTF-8 bytes end to end.
pub open spec fn spec_name_table(strings: Seq<Seq<char>>) -> Seq<DebugStringTable>
    decreases strings.len(),
{
    if strings.len() == 0 {
        Seq::empty()
    } else {
        spec_name_table(strings.drop_last()).push(
            DebugStringTable {
                offset: spec_utf8_total(strings.drop_last()) as u32,
                length: encode_utf8(strings.last()).len() as u32,
            },
        )
    }
}

/// The UTF-8 bytes of every string, end to end.
pub open spec fn spec_utf8_concat(strings: Seq<Seq<char>>) -> Seq<u8>
    decreases strings.len(),
{
    if strings.len() == 0 {
        Seq::empty()
    } else {
        spec_utf8_concat(strings.drop_last()) + encode_utf8(strings.last())
    }
}

/// The number of UTF-8 bytes that the strings take together.
pub open spec fn spec_utf8_total(strings: Seq<Seq<char>>) -> nat {
    spec_utf8_concat(strings).len()
}

/// The eight bytes of `x`, most significant first.
pub open spec fn u64_to_be(x: u64) -> Seq<u8> {
    seq![
        ((x / 0x100_0000_0000_0000) % 0x100) as u8,
        ((x / 0x1_0000_0000_0000) % 0x100) as u8,
        ((x / 0x100_0000_0000) % 0x100) as u8,
        ((x / 0x1_0000_0000) % 0x100) as u8,
        ((x / 0x100_0000) % 0x100) as u8,
        ((x / 0x1_0000) % 0x100) as u8,
        ((x / 0x100) % 0x100) as u8,
        (x % 0x100) as u8,
    ]
}

/// The big-endian bytes of every number, end to end.
pub open spec fn spec_big_int_storage(values: Seq<u64>) -> Seq<u8>
    decreases values.len(),
{
    if values.len() == 0 {
        Seq::empty()
    } else {
        spec_big_int_storage(values.drop_last()) + u64_to_be(values.last())
    }
}

/// The number of bytes that a function's instructions are written as.
pub open spec fn spec_bytecode_size(bytecode: Seq<HermesInstruction>) -> nat
    decreases bytecode.len(),
{
    if bytecode.len() == 0 {
        0
    } else {
        spec_bytecode_size(bytecode.drop_last()) + bytecode.last().spec_instruction().spec_bytes().len()
    }
}

/// The number of bytes that the instructions are written as, or `None`
/// where that number does not fit 32 bits.
pub fn bytecode_size(bytecode: &Vec<HermesInstruction>) -> (res: Option<u32>)
    ensures
        match res {
            Some(n) => n == spec_bytecode_size(bytecode@),
            None => spec_bytecode_size(bytecode@) > u32::MAX,
        },
{
    let mut total: u64 = 0;
    let mut i: usize = 0;
    while i < bytecode.len()
        invariant
            i <= bytecode@.len(),
            total == spec_bytecode_size(bytecode@.take(i as int)),
            total <= u32::MAX,
        decreases bytecode@.len() - i,
    {
        let ins = bytecode[i].instruction();
        proof {
            assert(bytecode@.take(i + 1).drop_last() =~= bytecode@.take(i as int));
            lemma_bytecode_size_monotone(bytecode@, i + 1);
            crate::instruction::lemma_operands_bytes_len(ins.operands@);
        }
        if ins.operands.len() > 0x1000_0000 {
            proof {
                lemma_kinds_size_at_least(crate::instruction::kinds_of(ins.operands@));
            }
            if ins.operands.len() > u32::MAX as usize {
                return None;
            }
            // More than 2^28 operands are at least that many bytes; count them one by one.
            let mut size: u64 = 1;
            let mut j: usize = 0;
            while j < ins.operands.len()
                invariant
                    j <= ins.operands@.len() <= u32::MAX,
                    size == 1 + crate::instruction::kinds_size(
                        crate::instruction::kinds_of(ins.operands@).take(j as int),
                    ),
                    size <= 1 + 8 * j,
                decreases ins.operands@.len() - j,
            {
                proof {
                    crate::instruction::lemma_kinds_size_take(
                        crate::instruction::kinds_of(ins.operands@),
                        j as int,
                    );
                }
                size = size + ins.operands[j].size() as u64;
                j = j + 1;
            }
            assert(crate::instruction::kinds_of(ins.operands@).take(j as int)
                =~= crate::instruction::kinds_of(ins.operands@));
            total = total + size;
        } else {
            proof {
                lemma_kinds_size_at_most(crate::instruction::kinds_of(ins.operands@));
            }
            total = total + ins.size() as u64;
        }
        if total > u32::MAX as u64 {
            return None;
        }
        i = i + 1;
    }
    assert(bytecode@.take(i as int) =~= bytecode@);
    Some(total as u32)
}

/// Operands take at most eight bytes each.
pub proof fn lemma_kinds_size_at_most(kinds: Seq<crate::opcode::OperandKind>)
    ensures
        crate::instruction::kinds_size(kinds) <= 8 * kinds.len(),
    decreases kinds.len(),
{
    if kinds.len() > 0 {
        lemma_kinds_size_at_most(kinds.drop_last());
    }
}

/// Operands take at least one byte each.
pub proof fn lemma_kinds_size_at_least(kinds: Seq<crate::opcode::OperandKind>)
    ensures
        crate::instruction::kinds_size(kinds) >= kinds.len(),
    decreases kinds.len(),
{
    if kinds.len() > 0 {
        lemma_kinds_size_at_least(kinds.drop_last());
    }
}

/// The instructions up to some point take no more bytes than all of them.
pub proof fn lemma_bytecode_size_monotone(bytecode: Seq<HermesInstruction>, i: int)
    requires
        0 <= i <= bytecode.len(),
    ensures
        spec_bytecode_size(bytecode.take(i)) <= spec_bytecode_size(bytecode),
    decreases bytecode.len() - i,
{
    if i < bytecode.len() {
        lemma_bytecode_size_monotone(bytecode, i + 1);
        assert(bytecode.take(i + 1).drop_last() =~= bytecode.take(i));
    } else {
        assert(bytecode.take(i) =~= bytecode);
    }
}

impl HermesFile {
    /// Replaces the file's strings by three groups, one after the other:
    /// plain strings, identifiers and predefined names. The kind of each
    /// string is that of its group, whatever its pair says.
    pub fn set_strings_ordered(
        &mut self,
        strings: Vec<StringTypePair>,
        identifiers: Vec<StringTypePair>,
        predefined: Vec<StringTypePair>,
    ) -> (res: Result<(), HermesError>)
        ensures
            match res {
                Ok(()) => {
                    &&& final(self).kinds_readable()
                    &&& final(self).spec_strings_by_kind() == with_kind(
                        strings_of(pairs_view(strings@)),
                        StringKind::String,
                    ) + with_kind(strings_of(pairs_view(identifiers@)), StringKind::Identifier)
                        + with_kind(strings_of(pairs_view(predefined@)), StringKind::Predefined)
                    &&& final(self).holds_strings(
                        strings_of(pairs_view(strings@)) + strings_of(pairs_view(identifiers@))
                            + strings_of(pairs_view(predefined@)),
                    )
                    &&& final(self).string_storage@.len() == strings@.len() + identifiers@.len()
                        + predefined@.len()
                    &&& final(self).string_storage_bytes@.len() == spec_total_stored(
                        strings_of(pairs_view(strings@)) + strings_of(pairs_view(identifiers@))
                            + strings_of(pairs_view(predefined@)),
                    )
                    &&& final(self).identifier_hashes@ == spec_identifier_hashes(
                        final(self).spec_strings_by_kind(),
                    )
                    &&& expand_kinds(final(self).string_kinds@) == kinds_of_pairs(
                        final(self).spec_strings_by_kind(),
                    )
                    &&& runs_are_maximal(final(self).string_kinds@, old(self).header.version)
                    &&& final(self).string_counts_in_sync()
                    &&& final(self).same_but_strings(old(self))
                },
                Err(e) => {
                    let all = strings_of(pairs_view(strings@)) + strings_of(pairs_view(identifiers@))
                        + strings_of(pairs_view(predefined@));
                    &&& e == HermesError::InternalConsistency
                    &&& (all.len() > u32::MAX || spec_total_stored(all) > u32::MAX)
                    &&& *final(self) == *old(self)
                },
            },
    {
        let mut pairs: Vec<StringTypePair> = Vec::new();
        assert(pairs_view(pairs@) =~= Seq::empty());
        let a = strings_of_pairs(&strings);
        let b = strings_of_pairs(&identifiers);
        let c = strings_of_pairs(&predefined);
        push_with_kind(&mut pairs, &a, StringKind::String);
        push_with_kind(&mut pairs, &b, StringKind::Identifier);
        push_with_kind(&mut pairs, &c, StringKind::Predefined);
        assert(pairs_view(pairs@) =~= with_kind(strings_view(a@), StringKind::String) + with_kind(
            strings_view(b@),
            StringKind::Identifier,
        ) + with_kind(strings_view(c@), StringKind::Predefined));
        assert(strings_of(pairs_view(pairs@)) =~= strings_view(a@) + strings_view(b@) + strings_view(
            c@,
        ));
        self.set_string_pairs_unordered(pairs)
    }

    /// Replaces the file's strings by `strings`, all of them plain strings.
    pub fn set_strings(&mut self, strings: Vec<String>) -> (res: Result<(), HermesError>)
        ensures
            match res {
                Ok(()) => {
                    &&& final(self).kinds_readable()
                    &&& final(self).spec_strings_by_kind() == with_kind(
                        strings_view(strings@),
                        StringKind::String,
                    )
                    &&& final(self).holds_strings(strings_view(strings@))
                    &&& final(self).string_storage@.len() == strings@.len()
                    &&& final(self).string_storage_bytes@.len() == spec_total_stored(
                        strings_view(strings@),
                    )
                    &&& final(self).identifier_hashes@.len() == 0
                    &&& expand_kinds(final(self).string_kinds@) == repeat_kind(
                        StringKind::String,
                        strings@.len(),
                    )
                    &&& runs_are_maximal(final(self).string_kinds@, old(self).header.version)
                    &&& final(self).string_counts_in_sync()
                    &&& final(self).same_but_strings(old(self))
                },
                Err(e) => {
                    &&& e == HermesError::InternalConsistency
                    &&& (strings@.len() > u32::MAX || spec_total_stored(strings_view(strings@))
                        > u32::MAX)
                    &&& *final(self) == *old(self)
                },
            },
    {
        let pairs = plain_pairs(&strings);
        proof {
            lemma_plain_strings(strings_view(strings@));
        }
        self.set_string_pairs_unordered(pairs)
    }

    /// Whether a value is too large for a header to stay small: above `2^17 - 1`.
    pub fn is_overflowed_value(&self, value: u32) -> (b: bool)
        ensures
            b == (value > SMALL_FIELD_MAX),
    {
        value > SMALL_FIELD_MAX
    }

    /// Replaces the BigInt table and storage by the given numbers, eight
    /// bytes each, most significant byte first. Fails, and changes nothing,
    /// exactly where the storage would outgrow a 32-bit offset.
    pub fn set_big_ints(&mut self, big_ints: Vec<u64>) -> (res: Result<(), HermesError>)
        ensures
            match res {
                Ok(()) => {
                    &&& 8 * big_ints@.len() <= u32::MAX
                    &&& final(self).big_int_storage@ == spec_big_int_storage(big_ints@)
                    &&& final(self).big_int_table@ == Seq::new(
                        big_ints@.len(),
                        |i: int| BigIntTableEntry { offset: (8 * i) as u32, length: 8 },
                    )
                    &&& *final(self) == (HermesFile {
                        big_int_table: final(self).big_int_table,
                        big_int_storage: final(self).big_int_storage,
                        ..*old(self)
                    })
                },
                Err(e) => e == HermesError::InternalConsistency && 8 * big_ints@.len() > u32::MAX
                    && *final(self) == *old(self),
            },
    {
        if big_ints.len() > (u32::MAX / 8) as usize {
            return Err(HermesError::InternalConsistency);
        }
        let mut table: Vec<BigIntTableEntry> = Vec::new();
        let mut storage: Vec<u8> = Vec::new();
        let mut i: usize = 0;
        while i < big_ints.len()
            invariant
                i <= big_ints@.len(),
                8 * big_ints@.len() <= u32::MAX,
                storage@ == spec_big_int_storage(big_ints@.take(i as int)),
                storage@.len() == 8 * i,
                table@ == Seq::new(
                    i as nat,
                    |k: int| BigIntTableEntry { offset: (8 * k) as u32, length: 8 },
                ),
            decreases big_ints@.len() - i,
        {
            let x: u64 = big_ints[i];
            table.push(BigIntTableEntry { offset: (8 * i) as u32, length: 8 });
            let ghost before = storage@;
            storage.push(((x / 0x100_0000_0000_0000) % 0x100) as u8);
            storage.push(((x / 0x1_0000_0000_0000) % 0x100) as u8);
            storage.push(((x / 0x100_0000_0000) % 0x100) as u8);
            storage.push(((x / 0x1_0000_0000) % 0x100) as u8);
            storage.push(((x / 0x100_0000) % 0x100) as u8);
            storage.push(((x / 0x1_0000) % 0x100) as u8);
            storage.push(((x / 0x100) % 0x100) as u8);
            storage.push((x % 0x100) as u8);
            proof {
                assert(storage@ =~= before + u64_to_be(x));
                assert(big_ints@.take(i + 1).drop_last() =~= big_ints@.take(i as int));
                assert(table@ =~= Seq::new(
                    (i + 1) as nat,
                    |k: int| BigIntTableEntry { offset: (8 * k) as u32, length: 8 },
                ));
            }
            i = i + 1;
        }
        assert(big_ints@.take(i as int) =~= big_ints@);
        self.big_int_table = table;
        self.big_int_storage = storage;
        Ok(())
    }

    /// Adds a function: its header and its instructions. The header's byte
    /// size is set to the size of the instructions. A header with a field
    /// above `2^17 - 1` is marked overflowed and kept in the plain shape.
    /// Fails, and changes nothing, exactly where the instructions take more
    /// than `2^32 - 1` bytes or the file has `2^32 - 1` functions already.
    pub fn add_function(&mut self, func_header: FunctionHeader, bytecode: Vec<HermesInstruction>) -> (res:
        Result<(), HermesError>)
        ensures
            match res {
                Ok(()) => {
                    let added = final(self).function_headers@.last();
                    let overflows = func_header.fields().overflows();
                    &&& old(self).function_headers@.len() < u32::MAX
                    &&& spec_bytecode_size(bytecode@) <= u32::MAX
                    &&& final(self).function_headers@.drop_last() == old(self).function_headers@
                    &&& final(self).function_headers@.len() == old(self).function_headers@.len() + 1
                    &&& added.fields() == (FunctionHeaderFields {
                        byte_size: spec_bytecode_size(bytecode@) as u32,
                        flags: FunctionHeaderFlag {
                            overflowed: func_header.fields().flags.overflowed || overflows,
                            ..func_header.fields().flags
                        },
                        ..func_header.fields()
                    })
                    &&& (added is Large) == (func_header is Large || overflows)
                    &&& added.spec_exception_handlers() == func_header.spec_exception_handlers()
                    &&& added.spec_debug_info() == func_header.spec_debug_info()
                    &&& final(self).function_bytecode@.drop_last() == old(self).function_bytecode@
                    &&& final(self).function_bytecode@.len() == old(self).function_bytecode@.len() + 1
                    &&& final(self).function_bytecode@.last().func_index == old(
                        self,
                    ).function_headers@.len()
                    &&& final(self).function_bytecode@.last().is_large == (added is Large)
                    &&& final(self).function_bytecode@.last().bytecode@ == bytecode@
                    &&& *final(self) == (HermesFile {
                        function_headers: final(self).function_headers,
                        function_bytecode: final(self).function_bytecode,
                        ..*old(self)
                    })
                },
                Err(e) => e == HermesError::InternalConsistency && (old(self).function_headers@.len()
                    >= u32::MAX || spec_bytecode_size(bytecode@) > u32::MAX) && *final(self) == *old(
                    self,
                ),
            },
    {
        if self.function_headers.len() >= u32::MAX as usize {
            return Err(HermesError::InternalConsistency);
        }
        let size = match bytecode_size(&bytecode) {
            Some(n) => n,
            None => {
                return Err(HermesError::InternalConsistency);
            },
        };
        let mut func: FunctionHeader = if func_header.is_overflowed_check() {
            match func_header {
                FunctionHeader::Small(mut f) => {
                    f.flags.overflowed = true;
                    FunctionHeader::Large(LargeFunctionHeader::from_small(f))
                },
                FunctionHeader::Large(mut f) => {
                    f.flags.overflowed = true;
                    FunctionHeader::Large(f)
                },
            }
        } else {
            func_header
        };
        func.set_byte_size(size);
        let is_large = func.is_large();
        let index: u32 = self.function_headers.len() as u32;
        let ghost headers_before = self.function_headers@;
        let ghost bytecode_before = self.function_bytecode@;
        self.function_headers.push(func);
        self.function_bytecode.push(FunctionInstructions { func_index: index, is_large, bytecode });
        assert(self.function_headers@.drop_last() =~= headers_before);
        assert(self.function_bytecode@.drop_last() =~= bytecode_before);
        Ok(())
    }
}

impl HermesFile {
    /// Replaces the overflow string table by one entry for each of the
    /// given strings: entry `i` has offset `i` and the string's length in
    /// UTF-8 bytes. Fails, and changes nothing, exactly where there are
    /// more than `2^32 - 1` strings or one is longer than `2^32 - 1` bytes.
    pub fn set_overflow_string(&mut self, overflow_strings: Vec<String>) -> (res: Result<
        (),
        HermesError,
    >)
        ensures
            match res {
                Ok(()) => {
                    &&& final(self).overflow_string_storage@ == Seq::new(
                        overflow_strings@.len(),
                        |i: int|
                            OverflowStringTableEntry {
                                offset: i as u32,
                                length: encode_utf8(overflow_strings@[i]@).len() as u32,
                            },
                    )
                    &&& overflow_strings@.len() <= u32::MAX
                    &&& forall|i: int|
                        0 <= i < overflow_strings@.len() ==> encode_utf8(
                            #[trigger] overflow_strings@[i]@,
                        ).len() <= u32::MAX
                    &&& *final(self) == (HermesFile {
                        overflow_string_storage: final(self).overflow_string_storage,
                        ..*old(self)
                    })
                },
                Err(e) => {
                    &&& e == HermesError::InternalConsistency
                    &&& (overflow_strings@.len() > u32::MAX || exists|i: int|
                        0 <= i < overflow_strings@.len() && encode_utf8(
                            #[trigger] overflow_strings@[i]@,
                        ).len() > u32::MAX)
                    &&& *final(self) == *old(self)
                },
            },
    {
        if overflow_strings.len() > u32::MAX as usize {
            return Err(HermesError::InternalConsistency);
        }
        let mut table: Vec<OverflowStringTableEntry> = Vec::new();
        let mut i: usize = 0;
        while i < overflow_strings.len()
            invariant
                i <= overflow_strings@.len() <= u32::MAX,
                table@ == Seq::new(
                    i as nat,
                    |k: int|
                        OverflowStringTableEntry {
                            offset: k as u32,
                            length: encode_utf8(overflow_strings@[k]@).len() as u32,
                        },
                ),
                forall|k: int|
                    0 <= k < i ==> encode_utf8(#[trigger] overflow_strings@[k]@).len() <= u32::MAX,
            decreases overflow_strings@.len() - i,
        {
            let raw = overflow_strings[i].as_str().as_bytes();
            let length: usize = raw.len();
            assert(raw@ == encode_utf8(overflow_strings@[i as int]@));
            if length > u32::MAX as usize {
                return Err(HermesError::InternalConsistency);
            }
            table.push(OverflowStringTableEntry { offset: i as u32, length: length as u32 });
            i = i + 1;
            assert(table@ =~= Seq::new(
                i as nat,
                |k: int|
                    OverflowStringTableEntry {
                        offset: k as u32,
                        length: encode_utf8(overflow_strings@[k]@).len() as u32,
                    },
            ));
        }
        self.overflow_string_storage = table;
        Ok(())
    }

    /// Replaces the file names of the debug section by the given strings,
    /// stored as UTF-8 end to end, and sets the debug header's count and
    /// size of them. Fails, and changes nothing, exactly where there are
    /// more than `2^32 - 1` names or they take more than `2^32 - 1` bytes.
    pub fn set_debug_strings(&mut self, debug_strings: Vec<String>) -> (res: Result<(), HermesError>)
        ensures
            match res {
                Ok(()) => {
                    let names = strings_view(debug_strings@);
                    &&& debug_strings@.len() <= u32::MAX
                    &&& spec_utf8_total(names) <= u32::MAX
                    &&& final(self).debug_info.string_table@ == spec_name_table(names)
                    &&& final(self).debug_info.string_storage@ == spec_utf8_concat(names)
                    &&& final(self).debug_info.header == (crate::debug_info::DebugInfoHeader {
                        filename_count: debug_strings@.len() as u32,
                        filename_storage_size: spec_utf8_total(names) as u32,
                        ..old(self).debug_info.header
                    })
                    &&& *final(self) == (HermesFile {
                        debug_info: crate::debug_info::DebugInfo {
                            header: final(self).debug_info.header,
                            string_table: final(self).debug_info.string_table,
                            string_storage: final(self).debug_info.string_storage,
                            ..old(self).debug_info
                        },
                        ..*old(self)
                    })
                },
                Err(e) => {
                    &&& e == HermesError::InternalConsistency
                    &&& (debug_strings@.len() > u32::MAX || spec_utf8_total(
                        strings_view(debug_strings@),
                    ) > u32::MAX)
                    &&& *final(self) == *old(self)
                },
            },
    {
        let ghost names = strings_view(debug_strings@);
        if debug_strings.len() > u32::MAX as usize {
            return Err(HermesError::InternalConsistency);
        }
        let mut table: Vec<DebugStringTable> = Vec::new();
        let mut storage: Vec<u8> = Vec::new();
        let mut i: usize = 0;
        assert(names.take(0) =~= Seq::<Seq<char>>::empty());
        while i < debug_strings.len()
            invariant
                i <= debug_strings@.len() <= u32::MAX,
                names == strings_view(debug_strings@),
                table@ == spec_name_table(names.take(i as int)),
                table@.len() == i,
                storage@ == spec_utf8_concat(names.take(i as int)),
                storage@.len() <= u32::MAX,
            decreases debug_strings@.len() - i,
        {
            let raw = debug_strings[i].as_str().as_bytes();
            let offset: usize = storage.len();
            proof {
                assert(names.take(i + 1).drop_last() =~= names.take(i as int));
                assert(names.take(i + 1).last() == debug_strings@[i as int]@);
                lemma_utf8_total_monotone(names, i + 1);
            }
            if raw.len() > u32::MAX as usize - offset {
                return Err(HermesError::InternalConsistency);
            }
            table.push(DebugStringTable { offset: offset as u32, length: raw.len() as u32 });
            let ghost before = storage@;
            let mut k: usize = 0;
            while k < raw.len()
                invariant
                    k <= raw@.len(),
                    storage@ == before + raw@.take(k as int),
                decreases raw@.len() - k,
            {
                storage.push(raw[k]);
                k = k + 1;
                assert(storage@ =~= before + raw@.take(k as int));
            }
            assert(raw@.take(k as int) =~= raw@);
            i = i + 1;
        }
        assert(names.take(i as int) =~= names);
        self.debug_info.header.filename_count = table.len() as u32;
        self.debug_info.header.filename_storage_size = storage.len() as u32;
        self.debug_info.string_table = table;
        self.debug_info.string_storage = storage;
        Ok(())
    }

    /// Sets every count and size of the header to that of the table or
    /// buffer it describes, and the header's debug offset to the one
    /// recorded when the file was last laid out. Fails, and changes
    /// nothing, exactly where a table or buffer has more than `2^32 - 1`
    /// entries or bytes.
    pub fn update_header(&mut self) -> (res: Result<(), HermesError>)
        ensures
            match res {
                Ok(()) => {
                    &&& final(self).counts_in_sync()
                    &&& final(self).header.cjs_module_offset == old(self).cjs_module_offset
                    &&& final(self).header.debug_info_offset == old(self).offsets.debug_info_offset
                    &&& final(self).header.magic == old(self).header.magic
                    &&& final(self).header.version == old(self).header.version
                    &&& final(self).header.sha1 == old(self).header.sha1
                    &&& final(self).header.file_length == old(self).header.file_length
                    &&& final(self).header.global_code_index == old(self).header.global_code_index
                    &&& final(self).header.segment_id == old(self).header.segment_id
                    &&& final(self).header.options == old(self).header.options
                    &&& *final(self) == (HermesFile { header: final(self).header, ..*old(self) })
                },
                Err(e) => e == HermesError::InternalConsistency && !old(self).sizes_fit()
                    && *final(self) == *old(self),
            },
    {
        let max: usize = u32::MAX as usize;
        if self.function_headers.len() > max || self.string_kinds.len() > max
            || self.identifier_hashes.len() > max || self.string_storage.len() > max
            || self.overflow_string_storage.len() > max || self.string_storage_bytes.len() > max
            || self.big_int_table.len() > max || self.big_int_storage.len() > max
            || self.reg_exp_table.len() > max || self.reg_exp_storage.len() > max
            || self.array_buffer_storage.len() > max || self.object_key_buffer.len() > max
            || self.object_val_buffer.len() > max || self.cjs_modules.len() > max
            || self.function_source_entries.len() > max {
            return Err(HermesError::InternalConsistency);
        }
        self.header.function_count = self.function_headers.len() as u32;
        self.header.string_kind_count = self.string_kinds.len() as u32;
        self.header.identifier_count = self.identifier_hashes.len() as u32;
        self.header.string_count = self.string_storage.len() as u32;
        self.header.overflow_string_count = self.overflow_string_storage.len() as u32;
        self.header.string_storage_size = self.string_storage_bytes.len() as u32;
        self.header.big_int_count = self.big_int_table.len() as u32;
        self.header.big_int_storage_size = self.big_int_storage.len() as u32;
        self.header.reg_exp_count = self.reg_exp_table.len() as u32;
        self.header.reg_exp_storage_size = self.reg_exp_storage.len() as u32;
        self.header.array_buffer_size = self.array_buffer_storage.len() as u32;
        self.header.obj_key_buffer_size = self.object_key_buffer.len() as u32;
        self.header.obj_value_buffer_size = self.object_val_buffer.len() as u32;
        self.header.cjs_module_offset = self.cjs_module_offset;
        self.header.cjs_module_count = self.cjs_modules.len() as u32;
        self.header.function_source_count = self.function_source_entries.len() as u32;
        self.header.debug_info_offset = self.offsets.debug_info_offset;
        Ok(())
    }

    /// Whether every table and buffer that the header counts has at most
    /// `2^32 - 1` entries or bytes.
    pub open spec fn sizes_fit(&self) -> bool {
        &&& self.function_headers@.len() <= u32::MAX
        &&& self.string_kinds@.len() <= u32::MAX
        &&& self.identifier_hashes@.len() <= u32::MAX
        &&& self.string_storage@.len() <= u32::MAX
        &&& self.overflow_string_storage@.len() <= u32::MAX
        &&& self.string_storage_bytes@.len() <= u32::MAX
        &&& self.big_int_table@.len() <= u32::MAX
        &&& self.big_int_storage@.len() <= u32::MAX
        &&& self.reg_exp_table@.len() <= u32::MAX
        &&& self.reg_exp_storage@.len() <= u32::MAX
        &&& self.array_buffer_storage@.len() <= u32::MAX
        &&& self.object_key_buffer@.len() <= u32::MAX
        &&& self.object_val_buffer@.len() <= u32::MAX
        &&& self.cjs_modules@.len() <= u32::MAX
        &&& self.function_source_entries@.len() <= u32::MAX
    }
}

/// The strings up to some point take no more UTF-8 bytes than all of them.
pub proof fn lemma_utf8_total_monotone(strings: Seq<Seq<char>>, i: int)
    requires
        0 <= i <= strings.len(),
    ensures
        spec_utf8_total(strings.take(i)) <= spec_utf8_total(strings),
    decreases strings.len() - i,
{
    if i < strings.len() {
        lemma_utf8_total_monotone(strings, i + 1);
        assert(strings.take(i + 1).drop_last() =~= strings.take(i));
    } else {
        assert(strings.take(i) =~= strings);
    }
}

} // verus!
