//! A key-based key-derivation function (KBKDF) family in the style of
//! NIST SP 800-108: Counter, Feedback and Double-Pipeline modes that
//! stretch an input key, a label and a context into derived key material
//! of a caller-chosen length, by repeated rounds of a keyed
//! pseudorandom function (PRF).

use vstd::prelude::*;

pub mod bytes;
pub mod engine;
pub mod laws;
pub mod model;
pub mod modes;
pub mod prf;

pub use modes::{Counter, DoublePipeline, Feedback, Kbkdf};
pub use prf::Prf;

verus! {

/// The single caller-visible error: the requested output needs more PRF
/// rounds than the configured counter width can address.
#[derive(Debug, PartialEq, Eq, Structural, Clone, Copy)]
pub enum Error {
    InvalidRequestSize,
}

impl Error {
    /// A human-readable description of the error.
    pub fn message(&self) -> &'static str {
        "Request output size is too large for the value of R specified"
    }
}

} // verus!
