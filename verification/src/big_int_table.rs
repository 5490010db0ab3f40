//! The table that locates BigInt literals in their storage.
use vstd::prelude::*;
use crate::codec::Serializable;
use crate::decode::{decode_u32, u32_at, Reader};
use crate::encode::{encode_u32, lemma_u32_round_trip, u32_to_le, Writer};
use crate::error::HermesError;

verus! {

/// Where one BigInt literal lies in the BigInt storage.
#[derive(Debug, Clone, Copy, PartialEq, Eq, Structural)]
pub struct BigIntTableEntry {
    /// Offset of the literal's first byte.
    pub offset: u32,
    /// Number of bytes of the literal.
    pub length: u32,
}

impl Serializable for BigIntTableEntry {
    open spec fn spec_size() -> nat {
        8
    }

    open spec fn spec_bytes(&self) -> Seq<u8> {
        u32_to_le(self.offset as int) + u32_to_le(self.length as int)
    }

    open spec fn spec_parse(bytes: Seq<u8>, version: u32) -> Option<Self> {
        Some(BigIntTableEntry {
            offset: u32_at(bytes, 0) as u32,
            length: u32_at(bytes, 4) as u32,
        })
    }

    open spec fn representable(&self, version: u32) -> bool {
        true
    }

    proof fn lemma_size(&self) {
    }

    proof fn lemma_round_trip(&self, version: u32) {
        let b = self.spec_bytes();
        lemma_u32_round_trip(self.offset);
        assert(b.subrange(0, 4) =~= u32_to_le(self.offset as int));
        lemma_u32_round_trip(self.length);
        assert(b.subrange(4, 8) =~= u32_to_le(self.length as int));
    }

    fn size(&self) -> (n: usize) {
        8
    }

    fn deserialize(r: &mut Reader, version: u32) -> (res: Result<Self, HermesError>) {
        if !r.has(8) {
            return Err(HermesError::MalformedInput);
        }
        let ghost whole = r.peek(8);
        assert(whole.subrange(0, 4) =~= r.peek(4));
        let offset = decode_u32(r);
        assert(whole.subrange(4, 8) =~= r.peek(4));
        let length = decode_u32(r);
        match (offset, length) {
            (Ok(offset), Ok(length)) => Ok(BigIntTableEntry { offset, length }),
            _ => {
                assert(false);
                Err(HermesError::MalformedInput)
            },
        }
    }

    fn serialize(&self, w: &mut Writer) {
        encode_u32(w, self.offset);
        encode_u32(w, self.length);
        assert(w@ =~= old(w)@ + self.spec_bytes());
    }
}

} // verus!
