//! The PRF collaborator interface.
//!
//! The derivation engine is parameterized by a keyed pseudorandom
//! function (in practice a MAC). The PRF itself is out of scope here:
//! implementations live outside this library, and everything the
//! contracts promise about a derivation is stated relative to the
//! implementation's own `prf` function. An implementation is trusted to
//! compute a fixed-length tag that depends on the key and the message
//! alone; `prf_wf` collects what the contracts assume of it.

use vstd::prelude::*;

verus! {

/// A keyed pseudorandom function with a fixed output length of `h()`
/// bytes. `mac` must be callable repeatedly with the same key, each
/// call an independent computation.
///
/// Only `output_len` and `mac` are executable; `h` and `prf` are the
/// specification the two are measured against, and default to an
/// unspecified function for implementations written outside this
/// library.
pub trait Prf {
    /// H: the PRF's output length in bytes.
    open spec fn h(&self) -> nat {
        arbitrary()
    }

    /// The function the PRF computes: key and message to tag.
    open spec fn prf(&self, key: Seq<u8>, msg: Seq<u8>) -> Seq<u8> {
        arbitrary()
    }

    /// H as a runtime value.
    fn output_len(&self) -> (r: usize)
        ensures
            r as nat == self.h(),
    ;

    /// One full PRF computation over `msg`, keyed by `key`.
    fn mac(&self, key: &[u8], msg: &[u8]) -> (r: Vec<u8>)
        ensures
            r@ == self.prf(key@, msg@),
    ;
}

/// What every derivation assumes of its PRF: the output length is
/// positive, small enough that H in bits fits the 32-bit length
/// accounting, and every tag has exactly H bytes.
pub open spec fn prf_wf<P: Prf>(p: &P) -> bool {
    &&& 1 <= p.h() <= 0x1fffffff
    &&& forall|key: Seq<u8>, msg: Seq<u8>| (#[trigger] p.prf(key, msg)).len() == p.h()
}

} // verus!
