//! The SHA-1 digest that closes a file.

use vstd::prelude::*;
use sha1::{Digest, Sha1};

verus! {

/// The SHA-1 digest of a row of bytes.
pub uninterp spec fn sha1_of(data: Seq<u8>) -> Seq<u8>;

/// Computes the SHA-1 digest of `data` with `sha1::Sha1::digest`. The
/// digest is a function of the bytes alone and is 20 bytes long; which
/// bytes it is, is left to the `sha1` crate.
#[verifier::external_body]
pub(crate) fn sha1_digest(data: &[u8]) -> (out: [u8; 20])
    ensures
        out@ == sha1_of(data@),
{
    Sha1::digest(data).into()
}

/// The SHA-1 digest of `data`.
pub fn digest_of(data: &Vec<u8>) -> (out: [u8; 20])
    ensures
        out@ == sha1_of(data@),
        out@.len() == 20,
{
    sha1_digest(data.as_slice())
}

/// Whether `footer` is the SHA-1 digest of `data`.
pub fn footer_matches(data: &Vec<u8>, footer: &[u8; 20]) -> (b: bool)
    ensures
        b == (footer@ == sha1_of(data@)),
{
    let digest = sha1_digest(data.as_slice());
    let mut i: usize = 0;
    while i < 20
        invariant
            i <= 20,
            digest@ == sha1_of(data@),
            forall|k: int| 0 <= k < i ==> digest@[k] == footer@[k],
        decreases 20 - i,
    {
        if digest[i] != footer[i] {
            return false;
        }
        i = i + 1;
    }
    assert(digest@ =~= footer@);
    true
}

} // verus!
