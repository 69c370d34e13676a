//! The derivation path of the one keypair this application serves.
use vstd::prelude::*;

verus! {

/// Bit that marks a path index as hardened.
pub const HARDENED: u32 = 0x8000_0000;

/// First index of the path before hardening: the bytes `"age"` read as a
/// big-endian number.
pub const AGE_PURPOSE: u32 = 6383461;

/// `m/6383461'/0'/0`, the path every key operation is bound to.
pub const AGE_PATH: [u32; 3] = [0x8061_6765, 0x8000_0000, 0];

/// The path as a sequence of indices.
pub open spec fn age_path() -> Seq<u32> {
    seq![(HARDENED + AGE_PURPOSE) as u32, HARDENED, 0u32]
}

/// Whether a path index is hardened.
pub open spec fn is_hardened(index: u32) -> bool {
    index >= HARDENED
}

/// Hands out the path for a key operation.
pub fn derivation_path() -> (path: [u32; 3])
    ensures
        path@ == age_path(),
{
    let path = AGE_PATH;
    assert(path@ =~= age_path());
    path
}

/// The first two indices are hardened, the last one is not.
pub proof fn lemma_age_path_shape()
    ensures
        age_path().len() == 3,
        is_hardened(age_path()[0]) && age_path()[0] - HARDENED == AGE_PURPOSE,
        is_hardened(age_path()[1]) && age_path()[1] - HARDENED == 0,
        !is_hardened(age_path()[2]) && age_path()[2] == 0,
{
}

} // verus!
