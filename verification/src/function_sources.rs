//! The table that pairs functions with the strings holding their source text.
use vstd::prelude::*;
use crate::codec::Serializable;
use crate::decode::{decode_u32, u32_at, Reader};
use crate::encode::{encode_u32, lemma_u32_round_trip, u32_to_le, Writer};
use crate::error::HermesError;

verus! {

/// A function and the string that holds its source text.
#[derive(Debug, Clone, Copy, PartialEq, Eq, Structural)]
pub struct FunctionSourceEntry {
    /// Index of the function.
    pub function_id: u32,
    /// Index of the string.
    pub string_id: u32,
}

impl Serializable for FunctionSourceEntry {
    open spec fn spec_size() -> nat {
        8
    }

    open spec fn spec_bytes(&self) -> Seq<u8> {
        u32_to_le(self.function_id as int) + u32_to_le(self.string_id as int)
    }

    open spec fn spec_parse(bytes: Seq<u8>, version: u32) -> Option<Self> {
        Some(FunctionSourceEntry {
            function_id: u32_at(bytes, 0) as u32,
            string_id: u32_at(bytes, 4) as u32,
        })
    }

    open spec fn representable(&self, version: u32) -> bool {
        true
    }

    proof fn lemma_size(&self) {
    }

    proof fn lemma_round_trip(&self, version: u32) {
        let b = self.spec_bytes();
        lemma_u32_round_trip(self.function_id);
        assert(b.subrange(0, 4) =~= u32_to_le(self.function_id as int));
        lemma_u32_round_trip(self.string_id);
        assert(b.subrange(4, 8) =~= u32_to_le(self.string_id as int));
    }

    fn size(&self) -> (n: usize) {
        8
    }

    fn deserialize(r: &mut Reader, version: u32) -> (res: Result<Self, HermesError>) {
        if !r.has(8) {
            return Err(HermesError::MalformedInput);
        }
        let ghost whole = r.peek(8);
        assert(whole.subrange(0, 4) =~= r.peek(4));
        let function_id = decode_u32(r);
        assert(whole.subrange(4, 8) =~= r.peek(4));
        let string_id = decode_u32(r);
        match (function_id, string_id) {
            (Ok(function_id), Ok(string_id)) => Ok(FunctionSourceEntry { function_id, string_id }),
            _ => {
                assert(false);
                Err(HermesError::MalformedInput)
            },
        }
    }

    fn serialize(&self, w: &mut Writer) {
        encode_u32(w, self.function_id);
        encode_u32(w, self.string_id);
        assert(w@ =~= old(w)@ + self.spec_bytes());
    }
}

} // verus!
