//! Fingerprints: fixed-width content hashes that tell whether a cached value
//! was produced for the inputs now asked for.

use sha1::Digest;
use vstd::prelude::*;
use vstd::slice::slice_to_vec;

verus! {

/// Width of a fingerprint in bytes.
pub const FINGERPRINT_LEN: usize = 20;

/// The SHA-1 digest of a byte string, as the `sha1` crate computes it.
pub uninterp spec fn sha1_digest(data: Seq<u8>) -> Seq<u8>;

/// Calls `sha1::Sha1::digest` (the one-shot form of the `Digest` trait's
/// interface). Trusted: the bytes returned are the SHA-1 digest of `data`, a
/// function of `data` alone.
#[verifier::external_body]
fn sha1(data: &[u8]) -> (out: [u8; 20])
    ensures
        out@ == sha1_digest(data@),
{
    sha1::Sha1::digest(data).into()
}

/// The fingerprint of three byte strings hashed in order.
pub open spec fn fingerprint_of(first: Seq<u8>, second: Seq<u8>, third: Seq<u8>) -> Seq<u8> {
    sha1_digest(first + second + third)
}

/// Hashes `first`, `second` and `third` in that order into one fingerprint.
pub fn fingerprint(first: &[u8], second: &[u8], third: &[u8]) -> (out: [u8; 20])
    ensures
        out@ == fingerprint_of(first@, second@, third@),
{
    let mut input: Vec<u8> = slice_to_vec(first);
    let mut rest: Vec<u8> = slice_to_vec(second);
    input.append(&mut rest);
    let mut tail: Vec<u8> = slice_to_vec(third);
    input.append(&mut tail);
    sha1(input.as_slice())
}

/// Whether two fingerprints are the same, byte for byte.
pub fn same_fingerprint(a: &[u8; 20], b: &[u8; 20]) -> (same: bool)
    ensures
        same == (a@ == b@),
{
    let mut i: usize = 0;
    while i < FINGERPRINT_LEN
        invariant
            i <= FINGERPRINT_LEN,
            forall|j: int| 0 <= j < i ==> a@[j] == b@[j],
        decreases FINGERPRINT_LEN - i,
    {
        if a[i] != b[i] {
            return false;
        }
        i += 1;
    }
    assert(a@ =~= b@);
    true
}

} // verus!
