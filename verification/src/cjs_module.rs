//! The CommonJS module table.

use vstd::prelude::*;
use crate::codec::Serializable;
use crate::decode::{decode_u32, u32_at, Reader};
use crate::encode::{encode_u32, lemma_u32_round_trip, u32_to_le, Writer};
use crate::error::HermesError;

verus! {

/// A CommonJS module given by the string that names it and the function that defines it.
#[derive(Debug, Clone, Copy, PartialEq, Eq, Structural)]
pub struct CJSModuleEntry {
    /// Index of the string naming the module.
    pub symbol_id: u32,
    /// Index of the defining function.
    pub offset: u32,
}

impl Serializable for CJSModuleEntry {
    open spec fn spec_size() -> nat {
        8
    }

    open spec fn spec_bytes(&self) -> Seq<u8> {
        u32_to_le(self.symbol_id as int) + u32_to_le(self.offset as int)
    }

    open spec fn spec_parse(bytes: Seq<u8>, version: u32) -> Option<Self> {
        Some(CJSModuleEntry {
            symbol_id: u32_at(bytes, 0) as u32,
            offset: u32_at(bytes, 4) as u32,
        })
    }

    open spec fn representable(&self, version: u32) -> bool {
        true
    }

    proof fn lemma_size(&self) {
    }

    proof fn lemma_round_trip(&self, version: u32) {
        let b = self.spec_bytes();
        lemma_u32_round_trip(self.symbol_id);
        assert(b.subrange(0, 4) =~= u32_to_le(self.symbol_id as int));
        lemma_u32_round_trip(self.offset);
        assert(b.subrange(4, 8) =~= u32_to_le(self.offset as int));
    }

    fn size(&self) -> (n: usize) {
        8
    }

    fn deserialize(r: &mut Reader, version: u32) -> (res: Result<Self, HermesError>) {
        if !r.has(8) {
            return Err(HermesError::MalformedInput);
        }
        let ghost whole = r.peek(8);
        assert(whole.subrange(0, 4) =~= r.peek(4));
        let symbol_id = decode_u32(r);
        assert(whole.subrange(4, 8) =~= r.peek(4));
        let offset = decode_u32(r);
        match (symbol_id, offset) {
            (Ok(symbol_id), Ok(offset)) => Ok(CJSModuleEntry { symbol_id, offset }),
            _ => {
                assert(false);
                Err(HermesError::MalformedInput)
            },
        }
    }

    fn serialize(&self, w: &mut Writer) {
        encode_u32(w, self.symbol_id);
        encode_u32(w, self.offset);
        assert(w@ =~= old(w)@ + self.spec_bytes());
    }
}

/// A statically resolved CommonJS module: the index of its defining function.
#[derive(Debug, Clone, Copy, PartialEq, Eq, Structural)]
pub struct CJSModuleInt {
    /// Index of the defining function.
    pub value: u32,
}

impl Serializable for CJSModuleInt {
    open spec fn spec_size() -> nat {
        4
    }

    open spec fn spec_bytes(&self) -> Seq<u8> {
        u32_to_le(self.value as int)
    }

    open spec fn spec_parse(bytes: Seq<u8>, version: u32) -> Option<Self> {
        Some(CJSModuleInt {
            value: u32_at(bytes, 0) as u32,
        })
    }

    open spec fn representable(&self, version: u32) -> bool {
        true
    }

    proof fn lemma_size(&self) {
    }

    proof fn lemma_round_trip(&self, version: u32) {
        let b = self.spec_bytes();
        lemma_u32_round_trip(self.value);
        assert(b.subrange(0, 4) =~= u32_to_le(self.value as int));
    }

    fn size(&self) -> (n: usize) {
        4
    }

    fn deserialize(r: &mut Reader, version: u32) -> (res: Result<Self, HermesError>) {
        if !r.has(4) {
            return Err(HermesError::MalformedInput);
        }
        let ghost whole = r.peek(4);
        assert(whole.subrange(0, 4) =~= r.peek(4));
        let value = decode_u32(r);
        match value {
            Ok(value) => Ok(CJSModuleInt { value }),
            _ => {
                assert(false);
                Err(HermesError::MalformedInput)
            },
        }
    }

    fn serialize(&self, w: &mut Writer) {
        encode_u32(w, self.value);
        assert(w@ =~= old(w)@ + self.spec_bytes());
    }
}

/// One entry of the CommonJS module table, in either of its two layouts.
#[derive(Debug, Clone, Copy, PartialEq, Eq, Structural)]
pub enum CJSModule {
    CJSModuleInt(CJSModuleInt),
    CJSModuleEntry(CJSModuleEntry),
}

impl CJSModule {
    /// The bytes the entry is written as.
    pub open spec fn spec_bytes(&self) -> Seq<u8> {
        match *self {
            CJSModule::CJSModuleInt(m) => m.spec_bytes(),
            CJSModule::CJSModuleEntry(m) => m.spec_bytes(),
        }
    }

    /// The number of bytes the entry is written as.
    pub fn size(&self) -> (n: usize)
        ensures
            n == self.spec_bytes().len(),
            n == 4 || n == 8,
    {
        match self {
            CJSModule::CJSModuleInt(m) => {
                proof { m.lemma_size(); }
                m.size()
            },
            CJSModule::CJSModuleEntry(m) => {
                proof { m.lemma_size(); }
                m.size()
            },
        }
    }

    /// Appends the entry's bytes.
    pub fn serialize(&self, w: &mut Writer)
        ensures
            final(w)@ == old(w)@ + self.spec_bytes(),
    {
        match self {
            CJSModule::CJSModuleInt(m) => m.serialize(w),
            CJSModule::CJSModuleEntry(m) => m.serialize(w),
        }
    }
}

} // verus!
