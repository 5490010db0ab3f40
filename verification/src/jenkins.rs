//! The hash that the identifier table stores for each identifier: the
//! one-at-a-time hash over the code points of the string, without its
//! final avalanche.

use vstd::prelude::*;
use crate::text::chars_of;

verus! {

/// The type of a hash value.
pub type JenkinsHash = u32;

/// The hash of the empty string.
pub const JENKINS_HASH_INIT: JenkinsHash = 0;

/// `hash + c`, wrapping.
pub open spec fn spec_jenkins_add(hash: u32, c: u32) -> u32 {
    ((hash + c) % 0x1_0000_0000) as u32
}

/// `hash + hash * 2^10`, wrapping.
pub open spec fn spec_jenkins_mix1(hash: u32) -> u32 {
    ((hash + (hash * 0x400) % 0x1_0000_0000) % 0x1_0000_0000) as u32
}

/// `hash xor floor(hash / 2^6)`.
pub open spec fn spec_jenkins_mix2(hash: u32) -> u32 {
    hash ^ (hash >> 6)
}

/// The hash after one more code point.
pub open spec fn spec_update_jenkins_hash(hash: u32, c: u32) -> u32 {
    spec_jenkins_mix2(spec_jenkins_mix1(spec_jenkins_add(hash, c)))
}

/// The hash of a row of code points: the update applied from left to right
/// to the initial value.
pub open spec fn spec_hash_chars(s: Seq<char>) -> u32
    decreases s.len(),
{
    if s.len() == 0 {
        JENKINS_HASH_INIT
    } else {
        spec_update_jenkins_hash(spec_hash_chars(s.drop_last()), s.last() as u32)
    }
}

/// Adds a code point to the hash, wrapping.
pub fn jenkins_add(hash: JenkinsHash, c: JenkinsHash) -> (r: JenkinsHash)
    ensures
        r == spec_jenkins_add(hash, c),
{
    hash.wrapping_add(c)
}

/// The first mixing step: adds the hash shifted left by ten bits, wrapping.
pub fn jenkins_mix1(hash: JenkinsHash) -> (r: JenkinsHash)
    ensures
        r == spec_jenkins_mix1(hash),
{
    let shifted: u32 = hash << 10;
    assert(shifted == (hash * 0x400) % 0x1_0000_0000) by (bit_vector)
        requires
            shifted == hash << 10,
    ;
    hash.wrapping_add(shifted)
}

/// The second mixing step: xors the hash with itself shifted right by six bits.
pub fn jenkins_mix2(hash: JenkinsHash) -> (r: JenkinsHash)
    ensures
        r == spec_jenkins_mix2(hash),
{
    hash ^ (hash >> 6)
}

/// The hash after one more code point.
pub fn update_jenkins_hash(hash: JenkinsHash, c: JenkinsHash) -> (r: JenkinsHash)
    ensures
        r == spec_update_jenkins_hash(hash, c),
{
    jenkins_mix2(jenkins_mix1(jenkins_add(hash, c)))
}

/// The hash of a string.
pub fn hash_string(input: &str) -> (r: JenkinsHash)
    ensures
        r == spec_hash_chars(input@),
{
    let chars = chars_of(input);
    let mut hash: u32 = JENKINS_HASH_INIT;
    let mut i: usize = 0;
    while i < chars.len()
        invariant
            i <= chars@.len(),
            hash == spec_hash_chars(chars@.take(i as int)),
        decreases chars@.len() - i,
    {
        assert(chars@.take(i + 1).drop_last() =~= chars@.take(i as int));
        hash = update_jenkins_hash(hash, chars[i] as u32);
        i = i + 1;
    }
    assert(chars@.take(i as int) =~= chars@);
    hash
}

} // verus!
