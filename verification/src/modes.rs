//! The three mode variants: Counter, Feedback (with an optional IV)
//! and Double-Pipeline. Each is a thin configuration of the shared
//! derivation engine, selecting a chaining policy.

use vstd::prelude::*;
use crate::engine::{derive_engine, iv_view};
use crate::model::{call_of, derived, feasible};
use crate::prf::{prf_wf, Prf};
use crate::Error;

verus! {

/// A mode of KBKDF, configured with the requested output length K (in
/// bytes) and the counter field width R (in bytes, 1..=4).
pub trait Kbkdf<P: Prf> {
    /// K: the requested output length in bytes.
    spec fn out_len(&self) -> nat;

    /// R: the counter field width in bytes.
    spec fn ctr_width(&self) -> nat;

    /// Whether rounds chain the previous round's output (Feedback).
    spec fn uses_feedback(&self) -> bool;

    /// Whether rounds chain the pipeline value (Double-Pipeline).
    spec fn uses_pipeline(&self) -> bool;

    /// The optional IV (Feedback mode only).
    spec fn iv_spec(&self) -> Option<Seq<u8>>;

    /// Construction-time validity: R is one of 1..=4 and K's bit
    /// length fits 32 bits.
    spec fn wf(&self) -> bool;

    /// Derive `out_len()` bytes of key material from `kin`, the given
    /// switches, `label` and `context`, or fail with
    /// `Error::InvalidRequestSize` exactly when the required round
    /// count exceeds what the R-byte counter field can address.
    fn derive(
        &self,
        prf: &P,
        kin: &[u8],
        use_l: bool,
        use_separator: bool,
        use_counter: bool,
        label: &[u8],
        context: &[u8],
    ) -> (res: Result<Vec<u8>, Error>)
        requires
            self.wf(),
            prf_wf(prf),
            match self.iv_spec() {
                Option::Some(v) => v.len() == prf.h(),
                Option::None => true,
            },
        ensures
            ({
                let c = call_of(
                    kin@,
                    self.uses_feedback(),
                    self.uses_pipeline(),
                    self.iv_spec(),
                    use_l,
                    use_separator,
                    use_counter,
                    label@,
                    context@,
                    self.out_len(),
                    self.ctr_width(),
                );
                match res {
                    Ok(out) => feasible(prf, c) && out@ == derived(prf, c) && out@.len()
                        == self.out_len(),
                    Err(e) => e == Error::InvalidRequestSize && !feasible(prf, c),
                }
            }),
    ;
}

/// Counter mode: no chaining; each round's message is
/// counter? ‖ label ‖ 0x00? ‖ context ‖ L?.
pub struct Counter {
    /// K: the requested output length in bytes.
    pub k: usize,
    /// R: the counter field width in bytes (1..=4).
    pub r: usize,
}

impl Counter {
    /// A Counter mode for `k` output bytes and an `r`-byte counter
    /// field.
    pub fn new(k: usize, r: usize) -> (s: Self)
        requires
            1 <= r <= 4,
            8 * k <= u32::MAX,
        ensures
            s.k == k,
            s.r == r,
    {
        Counter { k, r }
    }
}

impl<P: Prf> Kbkdf<P> for Counter {
    open spec fn out_len(&self) -> nat {
        self.k as nat
    }

    open spec fn ctr_width(&self) -> nat {
        self.r as nat
    }

    open spec fn uses_feedback(&self) -> bool {
        false
    }

    open spec fn uses_pipeline(&self) -> bool {
        false
    }

    open spec fn iv_spec(&self) -> Option<Seq<u8>> {
        Option::None
    }

    open spec fn wf(&self) -> bool {
        1 <= self.r <= 4 && 8 * self.k <= u32::MAX
    }

    fn derive(
        &self,
        prf: &P,
        kin: &[u8],
        use_l: bool,
        use_separator: bool,
        use_counter: bool,
        label: &[u8],
        context: &[u8],
    ) -> (res: Result<Vec<u8>, Error>) {
        derive_engine(
            prf,
            kin,
            false,
            false,
            Option::None,
            self.k,
            self.r,
            use_l,
            use_separator,
            use_counter,
            label,
            context,
        )
    }
}

/// Feedback mode: each round's message is prefixed by the previous
/// round's output; round 1 by the IV when one was supplied, and by
/// nothing otherwise.
pub struct Feedback {
    /// K: the requested output length in bytes.
    pub k: usize,
    /// R: the counter field width in bytes (1..=4).
    pub r: usize,
    /// The optional IV seeding round 1's chaining value; its length
    /// must equal the PRF's output length.
    pub iv: Option<Vec<u8>>,
}

impl Feedback {
    /// A Feedback mode for `k` output bytes, an `r`-byte counter field
    /// and an optional IV.
    pub fn new(k: usize, r: usize, iv: Option<Vec<u8>>) -> (s: Self)
        requires
            1 <= r <= 4,
            8 * k <= u32::MAX,
        ensures
            s.k == k,
            s.r == r,
            s.iv == iv,
    {
        Feedback { k, r, iv }
    }
}

impl<P: Prf> Kbkdf<P> for Feedback {
    open spec fn out_len(&self) -> nat {
        self.k as nat
    }

    open spec fn ctr_width(&self) -> nat {
        self.r as nat
    }

    open spec fn uses_feedback(&self) -> bool {
        true
    }

    open spec fn uses_pipeline(&self) -> bool {
        false
    }

    open spec fn iv_spec(&self) -> Option<Seq<u8>> {
        match self.iv {
            Option::Some(v) => Option::Some(v@),
            Option::None => Option::None,
        }
    }

    open spec fn wf(&self) -> bool {
        1 <= self.r <= 4 && 8 * self.k <= u32::MAX
    }

    fn derive(
        &self,
        prf: &P,
        kin: &[u8],
        use_l: bool,
        use_separator: bool,
        use_counter: bool,
        label: &[u8],
        context: &[u8],
    ) -> (res: Result<Vec<u8>, Error>) {
        let iv_ref: Option<&Vec<u8>> = match &self.iv {
            Option::Some(v) => Option::Some(v),
            Option::None => Option::None,
        };
        proof {
            assert(iv_view(iv_ref) == <Self as Kbkdf<P>>::iv_spec(self));
        }
        derive_engine(
            prf,
            kin,
            true,
            false,
            iv_ref,
            self.k,
            self.r,
            use_l,
            use_separator,
            use_counter,
            label,
            context,
        )
    }
}

/// Double-Pipeline mode: each round's message is prefixed by the
/// pipeline value A_i, where A_1 = PRF(key, label ‖ 0x00? ‖ context)
/// and A_i = PRF(key, A_{i-1}).
pub struct DoublePipeline {
    /// K: the requested output length in bytes.
    pub k: usize,
    /// R: the counter field width in bytes (1..=4).
    pub r: usize,
}

impl DoublePipeline {
    /// A Double-Pipeline mode for `k` output bytes and an `r`-byte
    /// counter field.
    pub fn new(k: usize, r: usize) -> (s: Self)
        requires
            1 <= r <= 4,
            8 * k <= u32::MAX,
        ensures
            s.k == k,
            s.r == r,
    {
        DoublePipeline { k, r }
    }
}

impl<P: Prf> Kbkdf<P> for DoublePipeline {
    open spec fn out_len(&self) -> nat {
        self.k as nat
    }

    open spec fn ctr_width(&self) -> nat {
        self.r as nat
    }

    open spec fn uses_feedback(&self) -> bool {
        false
    }

    open spec fn uses_pipeline(&self) -> bool {
        true
    }

    open spec fn iv_spec(&self) -> Option<Seq<u8>> {
        Option::None
    }

    open spec fn wf(&self) -> bool {
        1 <= self.r <= 4 && 8 * self.k <= u32::MAX
    }

    fn derive(
        &self,
        prf: &P,
        kin: &[u8],
        use_l: bool,
        use_separator: bool,
        use_counter: bool,
        label: &[u8],
        context: &[u8],
    ) -> (res: Result<Vec<u8>, Error>) {
        derive_engine(
            prf,
            kin,
            false,
            true,
            Option::None,
            self.k,
            self.r,
            use_l,
            use_separator,
            use_counter,
            label,
            context,
        )
    }
}

} // verus!
