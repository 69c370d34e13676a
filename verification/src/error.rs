//! Error taxonomy and its mapping to transport status words.
use vstd::prelude::*;

verus! {

/// Status word of a successful command.
pub const STATUS_OK: u16 = 0x9000;

/// High byte of every status word that reports a secure-element fault.
pub const STATUS_CRYPTO_FAILURE: u16 = 0x6800;

/// Status word for a recipient tag that does not match the derived key.
pub const STATUS_TAG_MISMATCH: u16 = 0x6af0;

/// Status word for a missing or too short command payload.
pub const STATUS_MALFORMED_INPUT: u16 = 0x6e77;

/// Status word for a request the operator refused.
pub const STATUS_USER_DENIED: u16 = 0x69f0;

/// Status word for an opcode the core does not serve.
pub const STATUS_UNSUPPORTED: u16 = 0x6d00;

/// Why a command produced no payload.
#[derive(Clone, Copy, Debug, PartialEq, Eq, Structural)]
pub enum AgeError {
    /// The secure element faulted; the code is kept for diagnostics.
    CryptoFailure(u16),
    /// The supplied recipient tag is not the digest of the derived key.
    TagMismatch,
    /// The command needs a payload and got none, or too little.
    MalformedInput,
    /// The operator declined the request.
    UserDenied,
}

impl AgeError {
    /// The status word that reports this error to the host.
    pub open spec fn status_word(self) -> u16 {
        match self {
            AgeError::CryptoFailure(code) => STATUS_CRYPTO_FAILURE | (code & 0xff),
            AgeError::TagMismatch => STATUS_TAG_MISMATCH,
            AgeError::MalformedInput => STATUS_MALFORMED_INPUT,
            AgeError::UserDenied => STATUS_USER_DENIED,
        }
    }

    /// The error for a fault code reported by the secure element: the code's
    /// low sixteen bits are kept.
    pub open spec fn crypto(code: u32) -> AgeError {
        AgeError::CryptoFailure((code & 0xffff) as u16)
    }

    /// Wraps a secure-element fault code, keeping its low sixteen bits.
    pub fn from_crypto_code(code: u32) -> (e: AgeError)
        ensures
            e == AgeError::crypto(code),
    {
        AgeError::CryptoFailure((code & 0xffff) as u16)
    }

    /// Maps the error to its status word.
    pub fn status(&self) -> (sw: u16)
        ensures
            sw == self.status_word(),
    {
        match self {
            AgeError::CryptoFailure(code) => STATUS_CRYPTO_FAILURE | (*code & 0xff),
            AgeError::TagMismatch => STATUS_TAG_MISMATCH,
            AgeError::MalformedInput => STATUS_MALFORMED_INPUT,
            AgeError::UserDenied => STATUS_USER_DENIED,
        }
    }

    /// Whether the host may retry the command unchanged: only a
    /// secure-element fault is transient.
    pub fn is_retryable(&self) -> (r: bool)
        ensures
            r == (*self is CryptoFailure),
    {
        match self {
            AgeError::CryptoFailure(_) => true,
            _ => false,
        }
    }
}

/// A secure-element fault is reported in the `0x68xx` range with the low byte
/// of its code; no other error, and no success, lies in that range.
pub proof fn lemma_crypto_failure_range(e: AgeError)
    ensures
        e is CryptoFailure <==> e.status_word() & 0xff00 == STATUS_CRYPTO_FAILURE,
        e matches AgeError::CryptoFailure(code) ==> e.status_word() & 0xff == code & 0xff,
        e.status_word() != STATUS_OK,
        e.status_word() != STATUS_UNSUPPORTED,
{
    match e {
        AgeError::CryptoFailure(code) => {
            assert((0x6800u16 | (code & 0xff)) & 0xff00 == 0x6800u16) by (bit_vector);
            assert((0x6800u16 | (code & 0xff)) & 0xff == code & 0xff) by (bit_vector);
            assert((0x6800u16 | (code & 0xff)) != 0x9000u16) by (bit_vector);
            assert((0x6800u16 | (code & 0xff)) != 0x6d00u16) by (bit_vector);
        },
        _ => {
            assert(0x6af0u16 & 0xff00 != 0x6800u16) by (bit_vector);
            assert(0x6e77u16 & 0xff00 != 0x6800u16) by (bit_vector);
            assert(0x69f0u16 & 0xff00 != 0x6800u16) by (bit_vector);
        },
    }
}

/// The mapping is one-to-one: two errors with the same status word are of the
/// same kind, and two secure-element faults with the same status word agree
/// in the low byte of their codes.
pub proof fn lemma_status_word_injective(a: AgeError, b: AgeError)
    requires
        a.status_word() == b.status_word(),
    ensures
        a is CryptoFailure <==> b is CryptoFailure,
        a is TagMismatch <==> b is TagMismatch,
        a is MalformedInput <==> b is MalformedInput,
        a is UserDenied <==> b is UserDenied,
        a matches AgeError::CryptoFailure(x) ==> (b matches AgeError::CryptoFailure(y) ==> x & 0xff
            == y & 0xff),
{
    lemma_crypto_failure_range(a);
    lemma_crypto_failure_range(b);
}

} // verus!
