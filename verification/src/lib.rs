//! Command core of a hardware-backed `age` recipient.
//!
//! A host sends one-byte opcodes with an opaque payload. The core decides,
//! step by step, what has to happen for each command: whether the operator
//! must consent, which key operation the secure element has to perform, and
//! which status word and payload go back to the host. The private key never
//! enters this crate; key material is requested from, and returned by, the
//! surrounding session loop.
pub mod dispatch;
pub mod error;
pub mod instruction;
pub mod message;
pub mod path;
pub mod protocol;
pub mod session;
pub mod tag;
