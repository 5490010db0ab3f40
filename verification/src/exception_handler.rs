//! Exception-handler ranges of a function.
use vstd::prelude::*;
use crate::codec::Serializable;
use crate::decode::{decode_u32, u32_at, Reader};
use crate::encode::{encode_u32, lemma_u32_round_trip, u32_to_le, Writer};
use crate::error::HermesError;

verus! {

/// One protected range of a function's bytecode and where control goes when it throws.
#[derive(Debug, Clone, Copy, PartialEq, Eq, Structural)]
pub struct ExceptionHandlerInfo {
    /// Offset of the first protected instruction.
    pub start: u32,
    /// Offset just past the protected range.
    pub end: u32,
    /// Offset of the handler.
    pub target: u32,
}

impl Serializable for ExceptionHandlerInfo {
    open spec fn spec_size() -> nat {
        12
    }

    open spec fn spec_bytes(&self) -> Seq<u8> {
        u32_to_le(self.start as int) + u32_to_le(self.end as int) + u32_to_le(self.target as int)
    }

    open spec fn spec_parse(bytes: Seq<u8>, version: u32) -> Option<Self> {
        Some(ExceptionHandlerInfo {
            start: u32_at(bytes, 0) as u32,
            end: u32_at(bytes, 4) as u32,
            target: u32_at(bytes, 8) as u32,
        })
    }

    open spec fn representable(&self, version: u32) -> bool {
        true
    }

    proof fn lemma_size(&self) {
    }

    proof fn lemma_round_trip(&self, version: u32) {
        let b = self.spec_bytes();
        lemma_u32_round_trip(self.start);
        assert(b.subrange(0, 4) =~= u32_to_le(self.start as int));
        lemma_u32_round_trip(self.end);
        assert(b.subrange(4, 8) =~= u32_to_le(self.end as int));
        lemma_u32_round_trip(self.target);
        assert(b.subrange(8, 12) =~= u32_to_le(self.target as int));
    }

    fn size(&self) -> (n: usize) {
        12
    }

    fn deserialize(r: &mut Reader, version: u32) -> (res: Result<Self, HermesError>) {
        if !r.has(12) {
            return Err(HermesError::MalformedInput);
        }
        let ghost whole = r.peek(12);
        assert(whole.subrange(0, 4) =~= r.peek(4));
        let start = decode_u32(r);
        assert(whole.subrange(4, 8) =~= r.peek(4));
        let end = decode_u32(r);
        assert(whole.subrange(8, 12) =~= r.peek(4));
        let target = decode_u32(r);
        match (start, end, target) {
            (Ok(start), Ok(end), Ok(target)) => Ok(ExceptionHandlerInfo { start, end, target }),
            _ => {
                assert(false);
                Err(HermesError::MalformedInput)
            },
        }
    }

    fn serialize(&self, w: &mut Writer) {
        encode_u32(w, self.start);
        encode_u32(w, self.end);
        encode_u32(w, self.target);
        assert(w@ =~= old(w)@ + self.spec_bytes());
    }
}

} // verus!
