//! Recipient tags: the SHA-256 digest of a public key, and how a tag offered
//! by the host is held against it.
use crate::error::AgeError;
use crate::message::outcome_view;
use sha2::{Digest, Sha256};
use vstd::prelude::*;

verus! {

/// Length in bytes of a recipient tag.
pub const TAG_LEN: usize = 32;

/// The SHA-256 digest of a byte string, as the `sha2` crate computes it.
pub uninterp spec fn sha256(data: Seq<u8>) -> Seq<u8>;

/// Calls `sha2::Sha256::digest`. Trusted: the bytes returned are the SHA-256
/// digest of `data`, a function of `data` alone, and there are 32 of them.
#[verifier::external_body]
fn sha256_digest(data: &[u8]) -> (digest: Vec<u8>)
    ensures
        digest@ == sha256(data@),
        digest@.len() == TAG_LEN,
{
    Sha256::digest(data).to_vec()
}

/// The tag under which a public key was published.
pub fn recipient_tag(public_key: &[u8]) -> (tag: Vec<u8>)
    ensures
        tag@ == sha256(public_key@),
        tag@.len() == TAG_LEN,
{
    sha256_digest(public_key)
}

/// How a recipient confirmation ends for an offered tag, given the digest of
/// the derived key: with the key if the two are the same bytes, with a
/// mismatch and no key otherwise.
pub open spec fn tag_outcome(offered: Seq<u8>, digest: Seq<u8>, public_key: Seq<u8>) -> Result<
    Seq<u8>,
    AgeError,
> {
    if offered == digest {
        Ok(public_key)
    } else {
        Err(AgeError::TagMismatch)
    }
}

/// Compares a tag offered by the host with a digest. Every byte is visited
/// whatever the bytes before it were, so the time taken does not tell how
/// long a common prefix is.
pub fn tags_match(offered: &[u8], digest: &[u8]) -> (same: bool)
    ensures
        same == (offered@ == digest@),
{
    if offered.len() != digest.len() {
        return false;
    }
    let mut difference: u8 = 0;
    let mut i: usize = 0;
    assert(offered@.take(0) == digest@.take(0));
    while i < offered.len()
        invariant
            i <= offered.len(),
            offered.len() == digest.len(),
            difference == 0 <==> offered@.take(i as int) == digest@.take(i as int),
        decreases offered.len() - i,
    {
        let a: u8 = offered[i];
        let b: u8 = digest[i];
        let before: u8 = difference;
        difference = before | (a ^ b);
        proof {
            assert((before | (a ^ b)) == 0 <==> (before == 0 && a == b)) by (bit_vector);
            let next = i as int + 1;
            assert(offered@.take(next) == offered@.take(i as int).push(a));
            assert(digest@.take(next) == digest@.take(i as int).push(b));
            if offered@.take(next) == digest@.take(next) {
                assert(offered@.take(next)[i as int] == digest@.take(next)[i as int]);
                assert(offered@.take(i as int) == offered@.take(next).drop_last());
                assert(digest@.take(i as int) == digest@.take(next).drop_last());
            }
        }
        i += 1;
    }
    proof {
        assert(offered@.take(offered.len() as int) == offered@);
        assert(digest@.take(digest.len() as int) == digest@);
    }
    difference == 0
}

/// Releases the public key to a host whose tag is the key's digest, and
/// fails as a mismatch otherwise.
pub fn confirm_tag(offered: &[u8], digest: &[u8], public_key: Vec<u8>) -> (outcome: Result<
    Vec<u8>,
    AgeError,
>)
    ensures
        outcome_view(outcome) == tag_outcome(offered@, digest@, public_key@),
{
    if tags_match(offered, digest) {
        Ok(public_key)
    } else {
        Err(AgeError::TagMismatch)
    }
}

} // verus!
