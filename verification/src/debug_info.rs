//! Debug information: file names, file regions, and the opaque data blobs
//! that hold source locations, scope descriptors and textified callees.

use vstd::prelude::*;
use crate::codec::{is_table_at, read_table, table_bytes, write_table, Serializable};
use crate::decode::{align_reader, aligned_up, decode_u32, u32_at, Reader};
use crate::encode::{
    align_writer, encode_u32, lemma_u32_round_trip, padding_to, u32_to_le, zeros, Writer,
};
use crate::error::HermesError;

verus! {

/// Where one file name lies in the file-name storage.
#[derive(Debug, Clone, Copy, PartialEq, Eq, Structural)]
pub struct DebugStringTable {
    /// Offset of the name's first byte.
    pub offset: u32,
    /// Number of bytes of the name.
    pub length: u32,
}

impl Serializable for DebugStringTable {
    open spec fn spec_size() -> nat {
        8
    }

    open spec fn spec_bytes(&self) -> Seq<u8> {
        u32_to_le(self.offset as int) + u32_to_le(self.length as int)
    }

    open spec fn spec_parse(bytes: Seq<u8>, version: u32) -> Option<Self> {
        Some(DebugStringTable {
            offset: u32_at(bytes, 0) as u32,
            length: u32_at(bytes, 4) as u32,
        })
    }

    open spec fn representable(&self, version: u32) -> bool {
        true
    }

    proof fn lemma_size(&self) {
    }

    proof fn lemma_round_trip(&self, version: u32) {
        let b = self.spec_bytes();
        lemma_u32_round_trip(self.offset);
        assert(b.subrange(0, 4) =~= u32_to_le(self.offset as int));
        lemma_u32_round_trip(self.length);
        assert(b.subrange(4, 8) =~= u32_to_le(self.length as int));
    }

    fn size(&self) -> (n: usize) {
        8
    }

    fn deserialize(r: &mut Reader, version: u32) -> (res: Result<Self, HermesError>) {
        if !r.has(8) {
            return Err(HermesError::MalformedInput);
        }
        let ghost whole = r.peek(8);
        assert(whole.subrange(0, 4) =~= r.peek(4));
        let offset = decode_u32(r);
        assert(whole.subrange(4, 8) =~= r.peek(4));
        let length = decode_u32(r);
        match (offset, length) {
            (Ok(offset), Ok(length)) => Ok(DebugStringTable { offset, length }),
            _ => {
                assert(false);
                Err(HermesError::MalformedInput)
            },
        }
    }

    fn serialize(&self, w: &mut Writer) {
        encode_u32(w, self.offset);
        encode_u32(w, self.length);
        assert(w@ =~= old(w)@ + self.spec_bytes());
    }
}

/// The file that the code from a given address on comes from.
#[derive(Debug, Clone, Copy, PartialEq, Eq, Structural)]
pub struct DebugFileRegion {
    /// First address of the region.
    pub from_address: u32,
    /// Index of the file name.
    pub filename_id: u32,
    /// Index of the source-map URL.
    pub source_mapping_url_id: u32,
}

impl Serializable for DebugFileRegion {
    open spec fn spec_size() -> nat {
        12
    }

    open spec fn spec_bytes(&self) -> Seq<u8> {
        u32_to_le(self.from_address as int) + u32_to_le(self.filename_id as int) + u32_to_le(self.source_mapping_url_id as int)
    }

    open spec fn spec_parse(bytes: Seq<u8>, version: u32) -> Option<Self> {
        Some(DebugFileRegion {
            from_address: u32_at(bytes, 0) as u32,
            filename_id: u32_at(bytes, 4) as u32,
            source_mapping_url_id: u32_at(bytes, 8) as u32,
        })
    }

    open spec fn representable(&self, version: u32) -> bool {
        true
    }

    proof fn lemma_size(&self) {
    }

    proof fn lemma_round_trip(&self, version: u32) {
        let b = self.spec_bytes();
        lemma_u32_round_trip(self.from_address);
        assert(b.subrange(0, 4) =~= u32_to_le(self.from_address as int));
        lemma_u32_round_trip(self.filename_id);
        assert(b.subrange(4, 8) =~= u32_to_le(self.filename_id as int));
        lemma_u32_round_trip(self.source_mapping_url_id);
        assert(b.subrange(8, 12) =~= u32_to_le(self.source_mapping_url_id as int));
    }

    fn size(&self) -> (n: usize) {
        12
    }

    fn deserialize(r: &mut Reader, version: u32) -> (res: Result<Self, HermesError>) {
        if !r.has(12) {
            return Err(HermesError::MalformedInput);
        }
        let ghost whole = r.peek(12);
        assert(whole.subrange(0, 4) =~= r.peek(4));
        let from_address = decode_u32(r);
        assert(whole.subrange(4, 8) =~= r.peek(4));
        let filename_id = decode_u32(r);
        assert(whole.subrange(8, 12) =~= r.peek(4));
        let source_mapping_url_id = decode_u32(r);
        match (from_address, filename_id, source_mapping_url_id) {
            (Ok(from_address), Ok(filename_id), Ok(source_mapping_url_id)) => Ok(DebugFileRegion { from_address, filename_id, source_mapping_url_id }),
            _ => {
                assert(false);
                Err(HermesError::MalformedInput)
            },
        }
    }

    fn serialize(&self, w: &mut Writer) {
        encode_u32(w, self.from_address);
        encode_u32(w, self.filename_id);
        encode_u32(w, self.source_mapping_url_id);
        assert(w@ =~= old(w)@ + self.spec_bytes());
    }
}

/// Where a function's debug data lies, in files before version 91.
#[derive(Debug, Clone, Copy, PartialEq, Eq, Structural)]
pub struct DebugInfoOffsetsOld {
    /// Offset of the source locations.
    pub src: u32,
    /// Offset of the scope descriptors.
    pub scope_desc: u32,
}

impl Serializable for DebugInfoOffsetsOld {
    open spec fn spec_size() -> nat {
        8
    }

    open spec fn spec_bytes(&self) -> Seq<u8> {
        u32_to_le(self.src as int) + u32_to_le(self.scope_desc as int)
    }

    open spec fn spec_parse(bytes: Seq<u8>, version: u32) -> Option<Self> {
        Some(DebugInfoOffsetsOld {
            src: u32_at(bytes, 0) as u32,
            scope_desc: u32_at(bytes, 4) as u32,
        })
    }

    open spec fn representable(&self, version: u32) -> bool {
        true
    }

    proof fn lemma_size(&self) {
    }

    proof fn lemma_round_trip(&self, version: u32) {
        let b = self.spec_bytes();
        lemma_u32_round_trip(self.src);
        assert(b.subrange(0, 4) =~= u32_to_le(self.src as int));
        lemma_u32_round_trip(self.scope_desc);
        assert(b.subrange(4, 8) =~= u32_to_le(self.scope_desc as int));
    }

    fn size(&self) -> (n: usize) {
        8
    }

    fn deserialize(r: &mut Reader, version: u32) -> (res: Result<Self, HermesError>) {
        if !r.has(8) {
            return Err(HermesError::MalformedInput);
        }
        let ghost whole = r.peek(8);
        assert(whole.subrange(0, 4) =~= r.peek(4));
        let src = decode_u32(r);
        assert(whole.subrange(4, 8) =~= r.peek(4));
        let scope_desc = decode_u32(r);
        match (src, scope_desc) {
            (Ok(src), Ok(scope_desc)) => Ok(DebugInfoOffsetsOld { src, scope_desc }),
            _ => {
                assert(false);
                Err(HermesError::MalformedInput)
            },
        }
    }

    fn serialize(&self, w: &mut Writer) {
        encode_u32(w, self.src);
        encode_u32(w, self.scope_desc);
        assert(w@ =~= old(w)@ + self.spec_bytes());
    }
}

/// Where a function's debug data lies, in files of version 91 and later.
#[derive(Debug, Clone, Copy, PartialEq, Eq, Structural)]
pub struct DebugInfoOffsetsNew {
    /// Offset of the source locations.
    pub src: u32,
    /// Offset of the scope descriptors.
    pub scope_desc: u32,
    /// Offset of the textified callees.
    pub callee: u32,
}

impl Serializable for DebugInfoOffsetsNew {
    open spec fn spec_size() -> nat {
        12
    }

    open spec fn spec_bytes(&self) -> Seq<u8> {
        u32_to_le(self.src as int) + u32_to_le(self.scope_desc as int) + u32_to_le(self.callee as int)
    }

    open spec fn spec_parse(bytes: Seq<u8>, version: u32) -> Option<Self> {
        Some(DebugInfoOffsetsNew {
            src: u32_at(bytes, 0) as u32,
            scope_desc: u32_at(bytes, 4) as u32,
            callee: u32_at(bytes, 8) as u32,
        })
    }

    open spec fn representable(&self, version: u32) -> bool {
        true
    }

    proof fn lemma_size(&self) {
    }

    proof fn lemma_round_trip(&self, version: u32) {
        let b = self.spec_bytes();
        lemma_u32_round_trip(self.src);
        assert(b.subrange(0, 4) =~= u32_to_le(self.src as int));
        lemma_u32_round_trip(self.scope_desc);
        assert(b.subrange(4, 8) =~= u32_to_le(self.scope_desc as int));
        lemma_u32_round_trip(self.callee);
        assert(b.subrange(8, 12) =~= u32_to_le(self.callee as int));
    }

    fn size(&self) -> (n: usize) {
        12
    }

    fn deserialize(r: &mut Reader, version: u32) -> (res: Result<Self, HermesError>) {
        if !r.has(12) {
            return Err(HermesError::MalformedInput);
        }
        let ghost whole = r.peek(12);
        assert(whole.subrange(0, 4) =~= r.peek(4));
        let src = decode_u32(r);
        assert(whole.subrange(4, 8) =~= r.peek(4));
        let scope_desc = decode_u32(r);
        assert(whole.subrange(8, 12) =~= r.peek(4));
        let callee = decode_u32(r);
        match (src, scope_desc, callee) {
            (Ok(src), Ok(scope_desc), Ok(callee)) => Ok(DebugInfoOffsetsNew { src, scope_desc, callee }),
            _ => {
                assert(false);
                Err(HermesError::MalformedInput)
            },
        }
    }

    fn serialize(&self, w: &mut Writer) {
        encode_u32(w, self.src);
        encode_u32(w, self.scope_desc);
        encode_u32(w, self.callee);
        assert(w@ =~= old(w)@ + self.spec_bytes());
    }
}

/// Where a function's debug data lies, in the layout of either format
/// generation. In the file the record starts at a multiple of four.
#[derive(Debug, Clone, Copy, PartialEq, Eq, Structural)]
pub enum DebugInfoOffsets {
    Old(DebugInfoOffsetsOld),
    New(DebugInfoOffsetsNew),
}

impl DebugInfoOffsets {
    /// The number of bytes the record takes: 8 before version 91, 12 from then on.
    pub open spec fn spec_size_for(version: u32) -> nat {
        if version >= 91 { 12 } else { 8 }
    }

    /// The record's bytes, without the padding before them.
    pub open spec fn spec_bytes(&self) -> Seq<u8> {
        match *self {
            DebugInfoOffsets::Old(x) => x.spec_bytes(),
            DebugInfoOffsets::New(x) => x.spec_bytes(),
        }
    }

    /// The record that `bytes` read as in a file of the given version.
    pub open spec fn spec_parse(bytes: Seq<u8>, version: u32) -> Self {
        if version >= 91 {
            DebugInfoOffsets::New(DebugInfoOffsetsNew::spec_parse(bytes, version).unwrap())
        } else {
            DebugInfoOffsets::Old(DebugInfoOffsetsOld::spec_parse(bytes, version).unwrap())
        }
    }

    /// Whether the record has the layout that files of `version` use.
    pub open spec fn matches_version(&self, version: u32) -> bool {
        (*self is New) == (version >= 91)
    }

    /// The number of bytes the record takes.
    pub fn size(&self) -> (n: usize)
        ensures
            n == self.spec_bytes().len(),
            n == (if *self is New { 12int } else { 8int }),
    {
        match self {
            DebugInfoOffsets::Old(x) => {
                proof { x.lemma_size(); }
                x.size()
            },
            DebugInfoOffsets::New(x) => {
                proof { x.lemma_size(); }
                x.size()
            },
        }
    }

    /// Skips to the next multiple of four and reads the record there.
    pub fn deserialize(r: &mut Reader, version: u32) -> (res: Result<Self, HermesError>)
        ensures
            final(r).data@ == old(r).data@,
            match res {
                Ok(v) => {
                    let at = aligned_up(old(r).pos as int, 4);
                    let n = Self::spec_size_for(version) as int;
                    &&& at + n <= old(r).data@.len()
                    &&& v == Self::spec_parse(old(r).data@.subrange(at, at + n), version)
                    &&& v.matches_version(version)
                    &&& final(r).pos == at + n
                },
                Err(e) => {
                    &&& e == HermesError::MalformedInput
                    &&& final(r).pos == old(r).pos
                    &&& aligned_up(old(r).pos as int, 4) + Self::spec_size_for(version) > old(
                        r,
                    ).data@.len()
                },
            },
    {
        let start: usize = r.position();
        if start > r.data.len() || align_reader(r, 4).is_err() {
            return Err(HermesError::MalformedInput);
        }
        let res = if version >= 91 {
            match DebugInfoOffsetsNew::deserialize(r, version) {
                Ok(x) => Ok(DebugInfoOffsets::New(x)),
                Err(e) => Err(e),
            }
        } else {
            match DebugInfoOffsetsOld::deserialize(r, version) {
                Ok(x) => Ok(DebugInfoOffsets::Old(x)),
                Err(e) => Err(e),
            }
        };
        if res.is_err() {
            r.seek(start);
        }
        res
    }

    /// Pads the stream to a multiple of four and appends the record.
    pub fn serialize(&self, w: &mut Writer)
        ensures
            final(w)@ == old(w)@ + zeros(padding_to(old(w)@.len() as int, 4)) + self.spec_bytes(),
    {
        align_writer(w, 4);
        match self {
            DebugInfoOffsets::Old(x) => x.serialize(w),
            DebugInfoOffsets::New(x) => x.serialize(w),
        }
    }

    /// Reading undoes writing, for a record in the layout of the version.
    pub proof fn lemma_round_trip(&self, version: u32)
        requires
            self.matches_version(version),
        ensures
            self.spec_bytes().len() == Self::spec_size_for(version),
            Self::spec_parse(self.spec_bytes(), version) == *self,
    {
        match *self {
            DebugInfoOffsets::Old(x) => {
                x.lemma_size();
                x.lemma_round_trip(version);
            },
            DebugInfoOffsets::New(x) => {
                x.lemma_size();
                x.lemma_round_trip(version);
            },
        }
    }
}

/// The sizes and offsets that head the debug section. The two offsets that
/// only files of version 91 and later have are `None` in older files.
#[derive(Debug, Clone, Copy, PartialEq, Eq, Structural)]
pub struct DebugInfoHeader {
    pub filename_count: u32,
    pub filename_storage_size: u32,
    pub file_region_count: u32,
    pub scope_desc_data_offset: u32,
    pub textified_callee_offset: Option<u32>,
    pub string_table_offset: Option<u32>,
    pub debug_data_size: u32,
}

impl DebugInfoHeader {
    /// The number of bytes the header takes in a file of the given version.
    pub open spec fn spec_size_for(version: u32) -> nat {
        if version >= 91 { 28 } else { 20 }
    }

    /// The bytes the header is written as: each field that is present, in order.
    pub open spec fn spec_bytes(&self) -> Seq<u8> {
        u32_to_le(self.filename_count as int) + u32_to_le(self.filename_storage_size as int)
            + u32_to_le(self.file_region_count as int) + u32_to_le(
            self.scope_desc_data_offset as int,
        ) + (match self.textified_callee_offset {
            Some(x) => u32_to_le(x as int),
            None => Seq::empty(),
        }) + (match self.string_table_offset {
            Some(x) => u32_to_le(x as int),
            None => Seq::empty(),
        }) + u32_to_le(self.debug_data_size as int)
    }

    /// The header that `bytes` read as in a file of the given version.
    pub open spec fn spec_parse(bytes: Seq<u8>, version: u32) -> Self {
        if version >= 91 {
            DebugInfoHeader {
                filename_count: u32_at(bytes, 0) as u32,
                filename_storage_size: u32_at(bytes, 4) as u32,
                file_region_count: u32_at(bytes, 8) as u32,
                scope_desc_data_offset: u32_at(bytes, 12) as u32,
                textified_callee_offset: Some(u32_at(bytes, 16) as u32),
                string_table_offset: Some(u32_at(bytes, 20) as u32),
                debug_data_size: u32_at(bytes, 24) as u32,
            }
        } else {
            DebugInfoHeader {
                filename_count: u32_at(bytes, 0) as u32,
                filename_storage_size: u32_at(bytes, 4) as u32,
                file_region_count: u32_at(bytes, 8) as u32,
                scope_desc_data_offset: u32_at(bytes, 12) as u32,
                textified_callee_offset: None,
                string_table_offset: None,
                debug_data_size: u32_at(bytes, 16) as u32,
            }
        }
    }

    /// Whether the two later offsets are present exactly when the version has them.
    pub open spec fn matches_version(&self, version: u32) -> bool {
        &&& (self.textified_callee_offset is Some) == (version >= 91)
        &&& (self.string_table_offset is Some) == (version >= 91)
    }

    /// The number of bytes the header is written as.
    pub fn size(&self) -> (n: usize)
        ensures
            n == self.spec_bytes().len(),
    {
        let mut n: usize = 20;
        if self.textified_callee_offset.is_some() {
            n = n + 4;
        }
        if self.string_table_offset.is_some() {
            n = n + 4;
        }
        n
    }

    /// Reads the header of a file of the given version.
    pub fn deserialize(r: &mut Reader, version: u32) -> (res: Result<Self, HermesError>)
        ensures
            match res {
                Ok(v) => {
                    let n = Self::spec_size_for(version) as int;
                    &&& old(r).can_read(n)
                    &&& v == Self::spec_parse(old(r).peek(n), version)
                    &&& v.matches_version(version)
                    &&& final(r).advanced_from(old(r), n)
                },
                Err(e) => e == HermesError::MalformedInput && !old(r).can_read(
                    Self::spec_size_for(version) as int,
                ) && final(r).unmoved_from(old(r)),
            },
    {
        let n: usize = if version >= 91 { 28 } else { 20 };
        if !r.has(n) {
            return Err(HermesError::MalformedInput);
        }
        let ghost whole = r.peek(n as int);
        assert(whole.subrange(0, 4) =~= r.peek(4));
        let filename_count = decode_u32(r)?;
        assert(whole.subrange(4, 8) =~= r.peek(4));
        let filename_storage_size = decode_u32(r)?;
        assert(whole.subrange(8, 12) =~= r.peek(4));
        let file_region_count = decode_u32(r)?;
        assert(whole.subrange(12, 16) =~= r.peek(4));
        let scope_desc_data_offset = decode_u32(r)?;
        let mut textified_callee_offset: Option<u32> = None;
        let mut string_table_offset: Option<u32> = None;
        if version >= 91 {
            assert(whole.subrange(16, 20) =~= r.peek(4));
            textified_callee_offset = Some(decode_u32(r)?);
            assert(whole.subrange(20, 24) =~= r.peek(4));
            string_table_offset = Some(decode_u32(r)?);
            assert(whole.subrange(24, 28) =~= r.peek(4));
        } else {
            assert(whole.subrange(16, 20) =~= r.peek(4));
        }
        let debug_data_size = decode_u32(r)?;
        Ok(
            DebugInfoHeader {
                filename_count,
                filename_storage_size,
                file_region_count,
                scope_desc_data_offset,
                textified_callee_offset,
                string_table_offset,
                debug_data_size,
            },
        )
    }

    /// Appends the header.
    pub fn serialize(&self, w: &mut Writer)
        ensures
            final(w)@ == old(w)@ + self.spec_bytes(),
    {
        encode_u32(w, self.filename_count);
        encode_u32(w, self.filename_storage_size);
        encode_u32(w, self.file_region_count);
        encode_u32(w, self.scope_desc_data_offset);
        match self.textified_callee_offset {
            Some(x) => encode_u32(w, x),
            None => {},
        }
        match self.string_table_offset {
            Some(x) => encode_u32(w, x),
            None => {},
        }
        encode_u32(w, self.debug_data_size);
        assert(w@ =~= old(w)@ + self.spec_bytes());
    }

    /// Reading undoes writing, for a header in the layout of the version.
    pub proof fn lemma_round_trip(&self, version: u32)
        requires
            self.matches_version(version),
        ensures
            self.spec_bytes().len() == Self::spec_size_for(version),
            Self::spec_parse(self.spec_bytes(), version) == *self,
    {
        let b = self.spec_bytes();
        lemma_u32_round_trip(self.filename_count);
        lemma_u32_round_trip(self.filename_storage_size);
        lemma_u32_round_trip(self.file_region_count);
        lemma_u32_round_trip(self.scope_desc_data_offset);
        lemma_u32_round_trip(self.debug_data_size);
        assert(b.subrange(0, 4) =~= u32_to_le(self.filename_count as int));
        assert(b.subrange(4, 8) =~= u32_to_le(self.filename_storage_size as int));
        assert(b.subrange(8, 12) =~= u32_to_le(self.file_region_count as int));
        assert(b.subrange(12, 16) =~= u32_to_le(self.scope_desc_data_offset as int));
        if version >= 91 {
            let t = self.textified_callee_offset.unwrap();
            let s = self.string_table_offset.unwrap();
            lemma_u32_round_trip(t);
            lemma_u32_round_trip(s);
            assert(b.subrange(16, 20) =~= u32_to_le(t as int));
            assert(b.subrange(20, 24) =~= u32_to_le(s as int));
            assert(b.subrange(24, 28) =~= u32_to_le(self.debug_data_size as int));
        } else {
            assert(b.subrange(16, 20) =~= u32_to_le(self.debug_data_size as int));
        }
    }
}

/// The debug section of a file.
#[derive(Debug, Clone, PartialEq, Eq)]
pub struct DebugInfo {
    pub header: DebugInfoHeader,
    /// Where each file name lies in `string_storage`.
    pub string_table: Vec<DebugStringTable>,
    /// The file names, end to end.
    pub string_storage: Vec<u8>,
    pub file_regions: Vec<DebugFileRegion>,
    /// Source locations, as the compiler wrote them.
    pub sources_data_storage: Vec<u8>,
    /// Scope descriptors, as the compiler wrote them.
    pub scope_desc_data_storage: Vec<u8>,
    /// Textified callees; empty before version 91.
    pub textified_callee_storage: Vec<u8>,
    /// The debug string table; empty before version 91.
    pub string_table_storage: Vec<u8>,
}

/// The sizes of the data blobs that a debug header describes: source
/// locations, scope descriptors, textified callees, string table. `None`
/// where the header's offsets do not rise from one blob to the next.
pub open spec fn spec_blob_sizes(h: DebugInfoHeader) -> Option<(int, int, int, int)> {
    let total = h.debug_data_size as int;
    let scope = h.scope_desc_data_offset as int;
    match (h.textified_callee_offset, h.string_table_offset) {
        (Some(callee), Some(table)) => if scope <= callee && callee <= table && table <= total {
            Some((scope, callee - scope, table - callee, total - table))
        } else {
            None
        },
        _ => if scope <= total {
            Some((scope, total - scope, 0, 0))
        } else {
            None
        },
    }
}

/// The number of bytes that follow a debug header in its section.
pub open spec fn spec_debug_body_size(h: DebugInfoHeader) -> int {
    8 * h.filename_count + h.filename_storage_size + 12 * h.file_region_count + h.debug_data_size
}

impl DebugInfo {
    /// The bytes the section is written as: the header, the file-name
    /// table, the file names, the file regions, and the four blobs.
    pub open spec fn spec_bytes(&self) -> Seq<u8> {
        self.header.spec_bytes() + table_bytes(self.string_table@) + self.string_storage@
            + table_bytes(self.file_regions@) + self.sources_data_storage@
            + self.scope_desc_data_storage@ + self.textified_callee_storage@
            + self.string_table_storage@
    }

    /// This section is what the bytes of `data` from offset `at` read as in
    /// a file of the given version.
    pub open spec fn parses_at(&self, data: Seq<u8>, at: int, version: u32) -> bool {
        let h = self.header;
        let hs = DebugInfoHeader::spec_size_for(version) as int;
        let names = at + hs + 8 * h.filename_count;
        let regions = names + h.filename_storage_size;
        let blobs = regions + 12 * h.file_region_count;
        &&& h == DebugInfoHeader::spec_parse(data.subrange(at, at + hs), version)
        &&& self.string_table@.len() == h.filename_count
        &&& is_table_at(self.string_table@, data, at + hs, version)
        &&& self.string_storage@ == data.subrange(names, regions)
        &&& self.file_regions@.len() == h.file_region_count
        &&& is_table_at(self.file_regions@, data, regions, version)
        &&& match spec_blob_sizes(h) {
            Some((a, b, c, d)) => {
                &&& self.sources_data_storage@ == data.subrange(blobs, blobs + a)
                &&& self.scope_desc_data_storage@ == data.subrange(blobs + a, blobs + a + b)
                &&& self.textified_callee_storage@ == data.subrange(
                    blobs + a + b,
                    blobs + a + b + c,
                )
                &&& self.string_table_storage@ == data.subrange(
                    blobs + a + b + c,
                    blobs + a + b + c + d,
                )
            },
            None => false,
        }
    }

    /// Whether the header describes what the section holds: it has the
    /// layout of the version, counts the file names and file regions, and
    /// its offsets part the data into the four blobs.
    pub open spec fn in_step(&self, version: u32) -> bool {
        let h = self.header;
        &&& h.matches_version(version)
        &&& h.filename_count == self.string_table@.len()
        &&& h.filename_storage_size == self.string_storage@.len()
        &&& h.file_region_count == self.file_regions@.len()
        &&& spec_blob_sizes(h) == Some(
            (
                self.sources_data_storage@.len() as int,
                self.scope_desc_data_storage@.len() as int,
                self.textified_callee_storage@.len() as int,
                self.string_table_storage@.len() as int,
            ),
        )
    }

    /// An empty section for a file of the given version: a header of zeros
    /// and nothing after it.
    pub fn empty(version: u32) -> (d: DebugInfo)
        ensures
            d.header.matches_version(version),
            d.header == (DebugInfoHeader {
                filename_count: 0,
                filename_storage_size: 0,
                file_region_count: 0,
                scope_desc_data_offset: 0,
                textified_callee_offset: if version >= 91 { Some(0u32) } else { None },
                string_table_offset: if version >= 91 { Some(0u32) } else { None },
                debug_data_size: 0,
            }),
            d.string_table@.len() == 0,
            d.string_storage@.len() == 0,
            d.file_regions@.len() == 0,
            d.sources_data_storage@.len() == 0,
            d.scope_desc_data_storage@.len() == 0,
            d.textified_callee_storage@.len() == 0,
            d.string_table_storage@.len() == 0,
    {
        DebugInfo {
            header: DebugInfoHeader {
                filename_count: 0,
                filename_storage_size: 0,
                file_region_count: 0,
                scope_desc_data_offset: 0,
                textified_callee_offset: if version >= 91 { Some(0) } else { None },
                string_table_offset: if version >= 91 { Some(0) } else { None },
                debug_data_size: 0,
            },
            string_table: Vec::new(),
            string_storage: Vec::new(),
            file_regions: Vec::new(),
            sources_data_storage: Vec::new(),
            scope_desc_data_storage: Vec::new(),
            textified_callee_storage: Vec::new(),
            string_table_storage: Vec::new(),
        }
    }

    /// The number of bytes the section is written as.
    pub open spec fn spec_size(&self) -> nat {
        self.header.spec_bytes().len() + 8 * self.string_table@.len() + self.string_storage@.len()
            + 12 * self.file_regions@.len() + self.sources_data_storage@.len()
            + self.scope_desc_data_storage@.len() + self.textified_callee_storage@.len()
            + self.string_table_storage@.len()
    }

    /// The section's bytes are as many as its parts take together.
    pub proof fn lemma_size(&self)
        ensures
            self.spec_bytes().len() == self.spec_size(),
    {
        let names = table_bytes(self.string_table@);
        let regions = table_bytes(self.file_regions@);
        assert(names.len() == 8 * self.string_table@.len()) by {
            crate::codec::lemma_table_bytes_len(self.string_table@);
        }
        assert(regions.len() == 12 * self.file_regions@.len()) by {
            crate::codec::lemma_table_bytes_len(self.file_regions@);
        }
        let s1 = self.header.spec_bytes() + names;
        let s2 = s1 + self.string_storage@;
        let s3 = s2 + regions;
        let s4 = s3 + self.sources_data_storage@;
        let s5 = s4 + self.scope_desc_data_storage@;
        let s6 = s5 + self.textified_callee_storage@;
        assert(s1.len() == self.header.spec_bytes().len() + names.len());
        assert(s2.len() == s1.len() + self.string_storage@.len());
        assert(s3.len() == s2.len() + regions.len());
        assert(s4.len() == s3.len() + self.sources_data_storage@.len());
        assert(s5.len() == s4.len() + self.scope_desc_data_storage@.len());
        assert(s6.len() == s5.len() + self.textified_callee_storage@.len());
        assert(self.spec_bytes() == s6 + self.string_table_storage@);
    }

    /// The number of bytes the section is written as.
    pub fn size(&self) -> (n: usize)
        requires
            self.spec_size() <= usize::MAX,
        ensures
            n == self.spec_size(),
    {
        let a: usize = self.header.size() + 8 * self.string_table.len();
        let b: usize = a + self.string_storage.len() + 12 * self.file_regions.len();
        let c: usize = b + self.sources_data_storage.len() + self.scope_desc_data_storage.len();
        c + self.textified_callee_storage.len() + self.string_table_storage.len()
    }

    /// Reads the section. Fails exactly when the header cannot be read, its
    /// offsets do not rise from one blob to the next, or the bytes end
    /// before the section does.
    pub fn deserialize(r: &mut Reader, version: u32) -> (res: Result<Self, HermesError>)
        ensures
            final(r).data@ == old(r).data@,
            match res {
                Ok(d) => {
                    let hs = DebugInfoHeader::spec_size_for(version) as int;
                    &&& old(r).can_read(hs + spec_debug_body_size(d.header))
                    &&& d.header.matches_version(version)
                    &&& d.parses_at(old(r).data@, old(r).pos as int, version)
                    &&& final(r).pos == old(r).pos + hs + spec_debug_body_size(d.header)
                },
                Err(e) => {
                    let hs = DebugInfoHeader::spec_size_for(version) as int;
                    let h = DebugInfoHeader::spec_parse(old(r).peek(hs), version);
                    &&& e == HermesError::MalformedInput
                    &&& (!old(r).can_read(hs) || spec_blob_sizes(h) is None || !old(r).can_read(
                        hs + spec_debug_body_size(h),
                    ))
                },
            },
    {
        let header = DebugInfoHeader::deserialize(r, version)?;
        let ghost hs = DebugInfoHeader::spec_size_for(version) as int;
        let ghost at = old(r).pos as int;
        let scope = header.scope_desc_data_offset;
        let total = header.debug_data_size;
        let (a, b, c, d): (u32, u32, u32, u32) = match (
            header.textified_callee_offset,
            header.string_table_offset,
        ) {
            (Some(callee), Some(table)) => {
                if scope <= callee && callee <= table && table <= total {
                    (scope, callee - scope, table - callee, total - table)
                } else {
                    return Err(HermesError::MalformedInput);
                }
            },
            _ => {
                if scope <= total {
                    (scope, total - scope, 0, 0)
                } else {
                    return Err(HermesError::MalformedInput);
                }
            },
        };
        let body: u64 = 8 * (header.filename_count as u64) + header.filename_storage_size as u64
            + 12 * (header.file_region_count as u64) + total as u64;
        let here: usize = r.position();
        let len: usize = r.data.len();
        let left: u64 = (len - here) as u64;
        if left < body {
            return Err(HermesError::MalformedInput);
        }
        let string_table = read_table::<DebugStringTable>(r, header.filename_count, version)?;
        let string_storage = r.read_exact(header.filename_storage_size as usize)?;
        let file_regions = read_table::<DebugFileRegion>(r, header.file_region_count, version)?;
        let sources_data_storage = r.read_exact(a as usize)?;
        let scope_desc_data_storage = r.read_exact(b as usize)?;
        let textified_callee_storage = r.read_exact(c as usize)?;
        let string_table_storage = r.read_exact(d as usize)?;
        Ok(
            DebugInfo {
                header,
                string_table,
                string_storage,
                file_regions,
                sources_data_storage,
                scope_desc_data_storage,
                textified_callee_storage,
                string_table_storage,
            },
        )
    }

    /// Appends the section.
    pub fn serialize(&self, w: &mut Writer)
        ensures
            final(w)@ == old(w)@ + self.spec_bytes(),
    {
        self.header.serialize(w);
        write_table(w, &self.string_table);
        w.write_all(self.string_storage.as_slice());
        write_table(w, &self.file_regions);
        w.write_all(self.sources_data_storage.as_slice());
        w.write_all(self.scope_desc_data_storage.as_slice());
        w.write_all(self.textified_callee_storage.as_slice());
        w.write_all(self.string_table_storage.as_slice());
        assert(w@ =~= old(w)@ + self.spec_bytes());
    }
}

/// Where a walk through a function's source locations stands: the data
/// being walked, the offset reached in it, the function, and the line and
/// column reached.
#[derive(Debug, Clone, PartialEq, Eq)]
pub struct FunctionDebugInfoDeserializer {
    pub data: Vec<u8>,
    pub offset: u32,
    pub function_index: u32,
    pub current_line: u32,
    pub current_column: u32,
}

} // verus!
