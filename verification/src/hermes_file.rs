//! The in-memory model of a Hermes bytecode file.

pub mod builder;
pub mod read_back;
pub mod reader;
pub mod write_again;
pub mod writer;

use vstd::prelude::*;
use std::collections::HashMap;
use crate::big_int_table::BigIntTableEntry;
use crate::cjs_module::CJSModule;
use crate::debug_info::DebugInfo;
use crate::decode::Reader;
use crate::function_header::FunctionHeader;
use crate::function_sources::FunctionSourceEntry;
use crate::header::HermesHeader;
use crate::instruction::HermesInstruction;
use crate::regexp_table::RegExpTableEntry;
use crate::string_kind::{expand_kinds, StringKind, StringKindEntry};
use crate::string_table::{spec_string_at, OverflowStringTableEntry, SmallStringTableEntry};

verus! {

/// Where things were found in, or put into, the byte stream: filled in
/// while a file is read or written, for cross-references.
#[derive(Debug, Clone, PartialEq, Eq)]
pub struct HermesOffsets {
    /// The offset of each entry of the small string table, by its index.
    pub small_string_table_offsets: HashMap<u32, u32>,
    /// The offset of each entry of the overflow string table, by its index.
    pub overflow_string_table_offsets: HashMap<u32, u32>,
    /// The offset of each function's bytecode, by the function's number.
    pub bytecode_offsets: HashMap<u32, u32>,
    /// The offset of the debug section.
    pub debug_info_offset: u32,
    /// The length of the file, footer included.
    pub file_length: u32,
}

/// The raw bytecode of one function.
#[derive(Debug, Clone, PartialEq, Eq)]
pub struct FunctionBytecode {
    pub func_index: u32,
    pub bytecode: Vec<u8>,
}

/// The decoded instructions of one function.
#[derive(Debug, Clone, PartialEq, Eq)]
pub struct FunctionInstructions {
    pub func_index: u32,
    /// Whether the function's header has the plain 32-byte shape.
    pub is_large: bool,
    pub bytecode: Vec<HermesInstruction>,
}

/// A string together with what it is used as.
#[derive(Debug, Clone, PartialEq, Eq)]
pub struct StringTypePair {
    pub string: String,
    pub kind: StringKind,
}

/// The characters and kind of each pair.
pub open spec fn pairs_view(pairs: Seq<StringTypePair>) -> Seq<(Seq<char>, StringKind)> {
    Seq::new(pairs.len(), |i: int| (pairs[i].string@, pairs[i].kind))
}

/// A Hermes bytecode file: the header and every table and buffer that
/// follows it, held in memory.
#[derive(Debug, Clone, PartialEq, Eq)]
pub struct HermesFile {
    /// The bytes the file was read from, with the read position. Function
    /// bytecode is decoded from here when it is asked for.
    pub reader: Reader,
    pub offsets: HermesOffsets,
    /// The instructions of each function, once decoded or added.
    pub function_bytecode: Vec<FunctionInstructions>,
    pub header: HermesHeader,
    pub function_headers: Vec<FunctionHeader>,
    pub string_kinds: Vec<StringKindEntry>,
    pub identifier_hashes: Vec<u32>,
    pub string_storage: Vec<SmallStringTableEntry>,
    pub string_storage_bytes: Vec<u8>,
    pub overflow_string_storage: Vec<OverflowStringTableEntry>,
    pub bytecode_storage: Vec<u8>,
    pub array_buffer_storage: Vec<u8>,
    pub object_key_buffer: Vec<u8>,
    pub object_val_buffer: Vec<u8>,
    pub cjs_module_offset: u32,
    pub big_int_table: Vec<BigIntTableEntry>,
    pub big_int_storage: Vec<u8>,
    pub reg_exp_table: Vec<RegExpTableEntry>,
    pub reg_exp_storage: Vec<u8>,
    pub cjs_modules: Vec<CJSModule>,
    pub function_source_entries: Vec<FunctionSourceEntry>,
    pub debug_info: DebugInfo,
    /// SHA-1 of every byte of the file before the footer.
    pub footer: [u8; 20],
}

impl HermesFile {
    /// String `i` of the string table, or `None` where its entry cannot be followed.
    pub open spec fn spec_string(&self, i: int) -> Option<Seq<char>> {
        spec_string_at(
            self.string_storage@,
            self.overflow_string_storage@,
            self.string_storage_bytes@,
            i,
        )
    }

    /// Whether the runs of string kinds cover no more strings than the
    /// table has, and each string they cover can be read.
    pub open spec fn kinds_readable(&self) -> bool {
        let kinds = expand_kinds(self.string_kinds@);
        &&& kinds.len() <= self.string_storage@.len()
        &&& forall|i: int| 0 <= i < kinds.len() ==> (#[trigger] self.spec_string(i)) is Some
    }

    /// The strings that the runs of string kinds cover, each with its kind,
    /// in table order.
    pub open spec fn spec_strings_by_kind(&self) -> Seq<(Seq<char>, StringKind)> {
        let kinds = expand_kinds(self.string_kinds@);
        Seq::new(kinds.len(), |i: int| (self.spec_string(i).unwrap(), kinds[i]))
    }

    /// Whether every count and size in the header is that of the table or
    /// buffer it describes.
    pub open spec fn counts_in_sync(&self) -> bool {
        let h = self.header;
        &&& h.function_count == self.function_headers@.len()
        &&& h.string_kind_count == self.string_kinds@.len()
        &&& h.identifier_count == self.identifier_hashes@.len()
        &&& h.string_count == self.string_storage@.len()
        &&& h.overflow_string_count == self.overflow_string_storage@.len()
        &&& h.string_storage_size == self.string_storage_bytes@.len()
        &&& h.big_int_count == self.big_int_table@.len()
        &&& h.big_int_storage_size == self.big_int_storage@.len()
        &&& h.reg_exp_count == self.reg_exp_table@.len()
        &&& h.reg_exp_storage_size == self.reg_exp_storage@.len()
        &&& h.array_buffer_size == self.array_buffer_storage@.len()
        &&& h.obj_key_buffer_size == self.object_key_buffer@.len()
        &&& h.obj_value_buffer_size == self.object_val_buffer@.len()
        &&& h.cjs_module_count == self.cjs_modules@.len()
        &&& h.function_source_count == self.function_source_entries@.len()
    }
}

} // verus!
