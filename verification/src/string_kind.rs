//! The run-length description of which strings are plain strings,
//! identifiers or predefined names.

use vstd::prelude::*;
use crate::bitfield::{
    bitfield_value, lemma_field_after_write, lemma_field_limits, lemma_low_mask_fits, write_bits,
};
use crate::codec::Serializable;
use crate::decode::{read_bitfield, Reader};
use crate::encode::{write_bitfield, zeros, Writer};
use crate::error::HermesError;

verus! {

/// What a string of the string table is used as.
#[derive(Debug, Clone, Copy, PartialEq, Eq, Structural)]
pub enum StringKind {
    String,
    Identifier,
    Predefined,
}

impl StringKind {
    /// The number that stands for this kind in the file.
    pub open spec fn spec_code(self) -> u32 {
        match self {
            StringKind::String => 0,
            StringKind::Identifier => 1,
            StringKind::Predefined => 2,
        }
    }

    /// The kind that `code` stands for, if any.
    pub open spec fn spec_from_code(code: u32) -> Option<StringKind> {
        if code == 0 {
            Some(StringKind::String)
        } else if code == 1 {
            Some(StringKind::Identifier)
        } else if code == 2 {
            Some(StringKind::Predefined)
        } else {
            None
        }
    }

    /// The number that stands for this kind in the file.
    pub fn code(self) -> (c: u32)
        ensures
            c == self.spec_code(),
    {
        match self {
            StringKind::String => 0,
            StringKind::Identifier => 1,
            StringKind::Predefined => 2,
        }
    }

    /// The kind that `code` stands for; codes above 2 stand for none.
    pub fn from_code(code: u32) -> (k: Option<StringKind>)
        ensures
            k == Self::spec_from_code(code),
    {
        if code == 0 {
            Some(StringKind::String)
        } else if code == 1 {
            Some(StringKind::Identifier)
        } else if code == 2 {
            Some(StringKind::Predefined)
        } else {
            None
        }
    }
}

/// A run of `count` strings of one kind, as files of version 72 and later
/// store it: 31 bits of count, then one bit of kind.
#[derive(Debug, Clone, Copy, PartialEq, Eq, Structural)]
pub struct StringKindEntryNew {
    pub count: u32,
    pub kind: StringKind,
}

/// A run of `count` strings of one kind, as files before version 72 store
/// it: 30 bits of count, then two bits of kind.
#[derive(Debug, Clone, Copy, PartialEq, Eq, Structural)]
pub struct StringKindEntryOld {
    pub count: u32,
    pub kind: StringKind,
}

/// A run of strings of one kind, in either layout.
#[derive(Debug, Clone, Copy, PartialEq, Eq, Structural)]
pub enum StringKindEntry {
    Old(StringKindEntryOld),
    New(StringKindEntryNew),
}

/// Four zero bytes with a count and a kind code packed into them: the count
/// in the low `count_bits` bits, the code in the rest.
pub open spec fn kind_entry_bytes(count: u32, code: u32, count_bits: nat) -> Seq<u8> {
    write_bits(
        write_bits(zeros(4), 0, count_bits, count),
        count_bits as int,
        (32 - count_bits) as nat,
        code,
    )
}

proof fn lemma_kind_entry_fields(count: u32, code: u32, count_bits: nat)
    requires
        count_bits == 30 || count_bits == 31,
        count < (1u32 << (count_bits as u32)),
        code < (1u32 << ((32 - count_bits) as u32)),
    ensures
        kind_entry_bytes(count, code, count_bits).len() == 4,
        bitfield_value(kind_entry_bytes(count, code, count_bits), 0, count_bits) == count,
        bitfield_value(
            kind_entry_bytes(count, code, count_bits),
            count_bits as int,
            (32 - count_bits) as nat,
        ) == code,
{
    let z = zeros(4);
    let a = write_bits(z, 0, count_bits, count);
    let kb = (32 - count_bits) as nat;
    lemma_field_after_write(z, 0, count_bits, count, 0, count_bits);
    lemma_field_after_write(a, count_bits as int, kb, code, 0, count_bits);
    lemma_field_after_write(a, count_bits as int, kb, code, count_bits as int, kb);
    lemma_low_mask_fits(count, count_bits as u32);
    lemma_low_mask_fits(code, kb as u32);
}

fn pack_kind_entry(count: u32, code: u32, count_bits: usize) -> (bytes: Vec<u8>)
    requires
        count_bits == 30 || count_bits == 31,
    ensures
        bytes@ == kind_entry_bytes(count, code, count_bits as nat),
        bytes@.len() == 4,
{
    let mut bytes: Vec<u8> = Vec::new();
    bytes.push(0u8);
    bytes.push(0u8);
    bytes.push(0u8);
    bytes.push(0u8);
    assert(bytes@ =~= zeros(4));
    write_bitfield(&mut bytes, 0, count_bits, count);
    write_bitfield(&mut bytes, count_bits, 32 - count_bits, code);
    bytes
}

impl StringKindEntryNew {
    /// The bytes this run is written as. Only the low bit of the kind's code
    /// has room, so a `Predefined` run is written as a `String` run.
    pub open spec fn spec_bytes(&self) -> Seq<u8> {
        kind_entry_bytes(self.count, self.kind.spec_code(), 31)
    }

    /// The run that four bytes read as.
    pub open spec fn spec_parse(bytes: Seq<u8>) -> Option<Self> {
        match StringKind::spec_from_code(bitfield_value(bytes, 31, 1)) {
            Some(kind) => Some(StringKindEntryNew { count: bitfield_value(bytes, 0, 31), kind }),
            None => None,
        }
    }

    /// Whether the run survives being written and read back.
    pub open spec fn representable(&self) -> bool {
        self.count < 0x8000_0000 && self.kind != StringKind::Predefined
    }

    /// The number of bytes a run takes.
    pub fn size(&self) -> (n: usize)
        ensures
            n == 4,
    {
        4
    }

    /// Reads a run from four bytes.
    pub fn deserialize(r: &mut Reader, _version: u32) -> (res: Result<Self, HermesError>)
        ensures
            match res {
                Ok(v) => old(r).can_read(4) && Self::spec_parse(old(r).peek(4)) == Some(v)
                    && final(r).advanced_from(old(r), 4),
                Err(e) => e == HermesError::MalformedInput && final(r).unmoved_from(old(r)) && (
                !old(r).can_read(4) || Self::spec_parse(old(r).peek(4)) is None),
            },
    {
        let start: usize = r.position();
        let bytes = r.read_exact(4)?;
        let count = read_bitfield(bytes.as_slice(), 0, 31);
        let code = read_bitfield(bytes.as_slice(), 31, 1);
        match StringKind::from_code(code) {
            Some(kind) => Ok(StringKindEntryNew { count, kind }),
            None => {
                r.seek(start);
                Err(HermesError::MalformedInput)
            },
        }
    }

    /// Appends the run's four bytes.
    pub fn serialize(&self, w: &mut Writer)
        ensures
            final(w)@ == old(w)@ + self.spec_bytes(),
    {
        let bytes = pack_kind_entry(self.count, self.kind.code(), 31);
        w.write_all(bytes.as_slice());
    }

    /// Reading undoes writing, for runs that are representable.
    pub proof fn lemma_round_trip(&self)
        requires
            self.representable(),
        ensures
            self.spec_bytes().len() == 4,
            Self::spec_parse(self.spec_bytes()) == Some(*self),
    {
        lemma_field_limits();
        lemma_kind_entry_fields(self.count, self.kind.spec_code(), 31);
    }
}

impl StringKindEntryOld {
    /// The bytes this run is written as.
    pub open spec fn spec_bytes(&self) -> Seq<u8> {
        kind_entry_bytes(self.count, self.kind.spec_code(), 30)
    }

    /// The run that four bytes read as; kind code 3 stands for no kind.
    pub open spec fn spec_parse(bytes: Seq<u8>) -> Option<Self> {
        match StringKind::spec_from_code(bitfield_value(bytes, 30, 2)) {
            Some(kind) => Some(StringKindEntryOld { count: bitfield_value(bytes, 0, 30), kind }),
            None => None,
        }
    }

    /// Whether the run survives being written and read back.
    pub open spec fn representable(&self) -> bool {
        self.count < 0x4000_0000
    }

    /// The number of bytes a run takes.
    pub fn size(&self) -> (n: usize)
        ensures
            n == 4,
    {
        4
    }

    /// Reads a run from four bytes.
    pub fn deserialize(r: &mut Reader, _version: u32) -> (res: Result<Self, HermesError>)
        ensures
            match res {
                Ok(v) => old(r).can_read(4) && Self::spec_parse(old(r).peek(4)) == Some(v)
                    && final(r).advanced_from(old(r), 4),
                Err(e) => e == HermesError::MalformedInput && final(r).unmoved_from(old(r)) && (
                !old(r).can_read(4) || Self::spec_parse(old(r).peek(4)) is None),
            },
    {
        let start: usize = r.position();
        let bytes = r.read_exact(4)?;
        let count = read_bitfield(bytes.as_slice(), 0, 30);
        let code = read_bitfield(bytes.as_slice(), 30, 2);
        match StringKind::from_code(code) {
            Some(kind) => Ok(StringKindEntryOld { count, kind }),
            None => {
                r.seek(start);
                Err(HermesError::MalformedInput)
            },
        }
    }

    /// Appends the run's four bytes.
    pub fn serialize(&self, w: &mut Writer)
        ensures
            final(w)@ == old(w)@ + self.spec_bytes(),
    {
        let bytes = pack_kind_entry(self.count, self.kind.code(), 30);
        w.write_all(bytes.as_slice());
    }

    /// Reading undoes writing, for runs that are representable.
    pub proof fn lemma_round_trip(&self)
        requires
            self.representable(),
        ensures
            self.spec_bytes().len() == 4,
            Self::spec_parse(self.spec_bytes()) == Some(*self),
    {
        lemma_field_limits();
        lemma_kind_entry_fields(self.count, self.kind.spec_code(), 30);
    }
}

impl StringKindEntry {
    /// The number of strings in the run.
    pub open spec fn spec_count(&self) -> u32 {
        match *self {
            StringKindEntry::Old(e) => e.count,
            StringKindEntry::New(e) => e.count,
        }
    }

    /// The kind of the strings in the run.
    pub open spec fn spec_kind(&self) -> StringKind {
        match *self {
            StringKindEntry::Old(e) => e.kind,
            StringKindEntry::New(e) => e.kind,
        }
    }

    /// The number of strings in the run.
    pub fn count(&self) -> (c: u32)
        ensures
            c == self.spec_count(),
    {
        match self {
            StringKindEntry::Old(e) => e.count,
            StringKindEntry::New(e) => e.count,
        }
    }

    /// The kind of the strings in the run.
    pub fn kind(&self) -> (k: StringKind)
        ensures
            k == self.spec_kind(),
    {
        match self {
            StringKindEntry::Old(e) => e.kind,
            StringKindEntry::New(e) => e.kind,
        }
    }
}

impl Serializable for StringKindEntry {
    open spec fn spec_size() -> nat {
        4
    }

    open spec fn spec_bytes(&self) -> Seq<u8> {
        match *self {
            StringKindEntry::Old(e) => e.spec_bytes(),
            StringKindEntry::New(e) => e.spec_bytes(),
        }
    }

    open spec fn spec_parse(bytes: Seq<u8>, version: u32) -> Option<Self> {
        if version <= 71 {
            match StringKindEntryOld::spec_parse(bytes) {
                Some(e) => Some(StringKindEntry::Old(e)),
                None => None,
            }
        } else {
            match StringKindEntryNew::spec_parse(bytes) {
                Some(e) => Some(StringKindEntry::New(e)),
                None => None,
            }
        }
    }

    open spec fn representable(&self, version: u32) -> bool {
        match *self {
            StringKindEntry::Old(e) => version <= 71 && e.representable(),
            StringKindEntry::New(e) => version > 71 && e.representable(),
        }
    }

    proof fn lemma_size(&self) {
        match *self {
            StringKindEntry::Old(e) => {
                crate::bitfield::lemma_write_bits_len(zeros(4), 0, 30, e.count);
                crate::bitfield::lemma_write_bits_len(
                    write_bits(zeros(4), 0, 30, e.count),
                    30,
                    2,
                    e.kind.spec_code(),
                );
            },
            StringKindEntry::New(e) => {
                crate::bitfield::lemma_write_bits_len(zeros(4), 0, 31, e.count);
                crate::bitfield::lemma_write_bits_len(
                    write_bits(zeros(4), 0, 31, e.count),
                    31,
                    1,
                    e.kind.spec_code(),
                );
            },
        }
    }

    proof fn lemma_round_trip(&self, version: u32) {
        match *self {
            StringKindEntry::Old(e) => e.lemma_round_trip(),
            StringKindEntry::New(e) => e.lemma_round_trip(),
        }
    }

    fn size(&self) -> (n: usize) {
        4
    }

    fn deserialize(r: &mut Reader, version: u32) -> (res: Result<Self, HermesError>) {
        if version <= 71 {
            match StringKindEntryOld::deserialize(r, version) {
                Ok(e) => Ok(StringKindEntry::Old(e)),
                Err(e) => Err(e),
            }
        } else {
            match StringKindEntryNew::deserialize(r, version) {
                Ok(e) => Ok(StringKindEntry::New(e)),
                Err(e) => Err(e),
            }
        }
    }

    fn serialize(&self, w: &mut Writer) {
        match self {
            StringKindEntry::Old(e) => e.serialize(w),
            StringKindEntry::New(e) => e.serialize(w),
        }
    }
}

/// A run in the layout that files of the given version use.
pub open spec fn spec_make_entry(version: u32, kind: StringKind, count: u32) -> StringKindEntry {
    if version <= 71 {
        StringKindEntry::Old(StringKindEntryOld { count, kind })
    } else {
        StringKindEntry::New(StringKindEntryNew { count, kind })
    }
}

/// A run in the layout that files of the given version use.
pub fn make_entry(version: u32, kind: StringKind, count: u32) -> (e: StringKindEntry)
    ensures
        e == spec_make_entry(version, kind, count),
{
    if version <= 71 {
        StringKindEntry::Old(StringKindEntryOld { count, kind })
    } else {
        StringKindEntry::New(StringKindEntryNew { count, kind })
    }
}

/// `count` times `kind`.
pub open spec fn repeat_kind(kind: StringKind, count: nat) -> Seq<StringKind> {
    Seq::new(count, |i: int| kind)
}

/// The kind of every string, in order: each run spelled out.
pub open spec fn expand_kinds(runs: Seq<StringKindEntry>) -> Seq<StringKind>
    decreases runs.len(),
{
    if runs.len() == 0 {
        Seq::empty()
    } else {
        expand_kinds(runs.drop_last()) + repeat_kind(
            runs.last().spec_kind(),
            runs.last().spec_count() as nat,
        )
    }
}

/// The number of strings that the runs cover.
pub open spec fn total_count(runs: Seq<StringKindEntry>) -> nat
    decreases runs.len(),
{
    if runs.len() == 0 {
        0
    } else {
        total_count(runs.drop_last()) + runs.last().spec_count() as nat
    }
}

/// The runs spelled out are as many kinds as the runs count.
pub proof fn lemma_expand_kinds_len(runs: Seq<StringKindEntry>)
    ensures
        expand_kinds(runs).len() == total_count(runs),
    decreases runs.len(),
{
    if runs.len() > 0 {
        lemma_expand_kinds_len(runs.drop_last());
    }
}

/// One more run spells out as that run's kinds after the others.
pub proof fn lemma_expand_kinds_push(runs: Seq<StringKindEntry>, e: StringKindEntry)
    ensures
        expand_kinds(runs.push(e)) == expand_kinds(runs) + repeat_kind(
            e.spec_kind(),
            e.spec_count() as nat,
        ),
        total_count(runs.push(e)) == total_count(runs) + e.spec_count(),
{
    assert(runs.push(e).drop_last() =~= runs);
}

/// Whether the runs are as long as they can be and in the layout of the
/// given version: none is empty, and no two neighbours are of the same kind.
pub open spec fn runs_are_maximal(runs: Seq<StringKindEntry>, version: u32) -> bool {
    &&& forall|i: int|
        0 <= i < runs.len() ==> (#[trigger] runs[i]).spec_count() > 0 && (runs[i] is Old) == (version
            <= 71)
    &&& forall|i: int|
        0 <= i < runs.len() - 1 ==> (#[trigger] runs[i]).spec_kind() != runs[i + 1].spec_kind()
}

/// The run-length description of a row of kinds: one run for each maximal
/// stretch of equal kinds, in the layout of the given version.
pub fn run_lengths(kinds: &Vec<StringKind>, version: u32) -> (runs: Vec<StringKindEntry>)
    requires
        kinds@.len() <= u32::MAX,
    ensures
        expand_kinds(runs@) == kinds@,
        runs@.len() <= kinds@.len(),
        runs_are_maximal(runs@, version),
{
    let mut runs: Vec<StringKindEntry> = Vec::new();
    if kinds.len() == 0 {
        assert(kinds@ =~= Seq::<StringKind>::empty());
        return runs;
    }
    let mut kind: StringKind = kinds[0];
    let mut count: u32 = 1;
    let mut i: usize = 1;
    assert(kinds@.take(1) =~= repeat_kind(kind, 1));
    assert(expand_kinds(runs@) + repeat_kind(kind, 1) =~= kinds@.take(1));
    while i < kinds.len()
        invariant
            1 <= i <= kinds@.len() <= u32::MAX,
            1 <= count <= i,
            runs@.len() + 1 <= i,
            expand_kinds(runs@) + repeat_kind(kind, count as nat) == kinds@.take(i as int),
            kind == kinds@[i - 1],
            forall|j: int|
                0 <= j < runs@.len() ==> (#[trigger] runs@[j]).spec_count() > 0 && (runs@[j] is Old)
                    == (version <= 71),
            forall|j: int|
                0 <= j < runs@.len() - 1 ==> (#[trigger] runs@[j]).spec_kind() != runs@[j
                    + 1].spec_kind(),
            runs@.len() > 0 ==> runs@.last().spec_kind() != kind,
        decreases kinds@.len() - i,
    {
        let next = kinds[i];
        let ghost seen = kinds@.take(i as int);
        assert(kinds@.take(i + 1) =~= seen.push(next));
        if next == kind {
            assert(repeat_kind(kind, (count + 1) as nat) =~= repeat_kind(kind, count as nat).push(kind));
            assert(expand_kinds(runs@) + repeat_kind(kind, (count + 1) as nat) =~= seen.push(next));
            count = count + 1;
        } else {
            let e = make_entry(version, kind, count);
            proof {
                lemma_expand_kinds_push(runs@, e);
                assert(repeat_kind(next, 1) =~= Seq::<StringKind>::empty().push(next));
                assert(expand_kinds(runs@.push(e)) + repeat_kind(next, 1) =~= seen.push(next));
            }
            runs.push(e);
            kind = next;
            count = 1;
        }
        i = i + 1;
    }
    let e = make_entry(version, kind, count);
    proof {
        lemma_expand_kinds_push(runs@, e);
        assert(kinds@.take(i as int) =~= kinds@);
    }
    runs.push(e);
    runs
}

} // verus!
