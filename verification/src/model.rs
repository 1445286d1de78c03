//! The mathematical model of a derivation: round counting, per-round
//! message layout, mode-specific chaining, and the assembled output.

use vstd::prelude::*;
use vstd::arithmetic::div_mod::{lemma_fundamental_div_mod, lemma_fundamental_div_mod_converse};
use crate::prf::{prf_wf, Prf};

verus! {

/// The largest round count an `r`-byte counter field can address:
/// 2^(8r) - 1.
pub open spec fn counter_limit(r: nat) -> nat {
    if r == 1 {
        0xff
    } else if r == 2 {
        0xffff
    } else if r == 3 {
        0xffffff
    } else {
        0xffffffff
    }
}

/// Exact integer ceiling division: ceil(a / b).
pub open spec fn div_ceil_spec(a: nat, b: nat) -> nat
    recommends
        b > 0,
{
    a / b + if a % b == 0 {
        0nat
    } else {
        1nat
    }
}

/// n, the number of PRF rounds needed for `k` output bytes from an
/// `h`-byte PRF: ceil(K / H), which equals ceil(K*8 / H*8).
pub open spec fn n_rounds(k: nat, h: nat) -> nat
    recommends
        h > 0,
{
    div_ceil_spec(k, h)
}

/// Big-endian 4-byte encoding of the low 32 bits of `x`.
pub open spec fn be32(x: nat) -> Seq<u8> {
    seq![
        ((x / 0x1000000) % 0x100) as u8,
        ((x / 0x10000) % 0x100) as u8,
        ((x / 0x100) % 0x100) as u8,
        (x % 0x100) as u8,
    ]
}

/// The counter field of round `counter`: the low `r` bytes of the
/// big-endian 32-bit encoding.
pub open spec fn counter_field(counter: nat, r: nat) -> Seq<u8>
    recommends
        1 <= r <= 4,
{
    be32(counter).subrange(4 - r as int, 4)
}

/// One derivation request, as the contracts see it.
pub struct DeriveCall {
    /// The input keying material.
    pub key: Seq<u8>,
    /// Feedback chaining: each round is prefixed by the previous
    /// round's output (round 1 by the IV, when one is given).
    pub feedback: bool,
    /// Double-pipeline chaining: each round is prefixed by the
    /// pipeline value A_i.
    pub pipeline: bool,
    /// The optional IV (Feedback mode only).
    pub iv: Option<Seq<u8>>,
    /// Whether each round message ends with the output length in bits.
    pub use_l: bool,
    /// Whether a zero byte separates label and context.
    pub use_separator: bool,
    /// Whether each round message carries the counter field.
    pub use_counter: bool,
    /// Domain-separation bytes.
    pub label: Seq<u8>,
    /// Context bytes.
    pub context: Seq<u8>,
    /// K: requested output length in bytes.
    pub k: nat,
    /// R: counter field width in bytes (1..=4).
    pub r: nat,
}

/// Assemble a `DeriveCall` from its parts.
pub open spec fn call_of(
    key: Seq<u8>,
    feedback: bool,
    pipeline: bool,
    iv: Option<Seq<u8>>,
    use_l: bool,
    use_separator: bool,
    use_counter: bool,
    label: Seq<u8>,
    context: Seq<u8>,
    k: nat,
    r: nat,
) -> DeriveCall {
    DeriveCall { key, feedback, pipeline, iv, use_l, use_separator, use_counter, label, context, k, r }
}

/// The optional zero separator byte.
pub open spec fn separator(use_separator: bool) -> Seq<u8> {
    if use_separator {
        seq![0u8]
    } else {
        Seq::empty()
    }
}

/// The fixed input data shared by every round: label ‖ 0x00? ‖ context.
pub open spec fn fixed_input(c: DeriveCall) -> Seq<u8> {
    c.label + separator(c.use_separator) + c.context
}

/// L: the requested output length in bits.
pub open spec fn l_bits(c: DeriveCall) -> nat {
    8 * c.k
}

/// The part of every round message after the chaining prefix:
/// counter? ‖ label ‖ 0x00? ‖ context ‖ L?
pub open spec fn message_tail(c: DeriveCall, counter: nat) -> Seq<u8> {
    (if c.use_counter {
        counter_field(counter, c.r)
    } else {
        Seq::empty()
    }) + fixed_input(c) + (if c.use_l {
        be32(l_bits(c))
    } else {
        Seq::empty()
    })
}

/// The whole message of round `counter`, given its chaining prefix.
pub open spec fn round_message(prefix: Seq<u8>, c: DeriveCall, counter: nat) -> Seq<u8> {
    prefix + message_tail(c, counter)
}

/// The pipeline value of round i: A_1 = PRF(key, fixed input),
/// A_i = PRF(key, A_{i-1}). The length field is never part of A_1's
/// message, even when the length switch is set.
pub open spec fn pipeline_value<P: Prf>(p: &P, c: DeriveCall, i: nat) -> Seq<u8>
    decreases i,
{
    if i <= 1 {
        p.prf(c.key, fixed_input(c))
    } else {
        p.prf(c.key, pipeline_value(p, c, (i - 1) as nat))
    }
}

/// The chaining prefix of round i's message: the previous round's
/// output (or the IV, or nothing) under feedback chaining, the pipeline
/// value under double-pipeline chaining, and empty otherwise.
pub open spec fn round_prefix<P: Prf>(p: &P, c: DeriveCall, i: nat) -> Seq<u8>
    decreases i, 0nat,
{
    if c.feedback {
        if i <= 1 {
            match c.iv {
                Option::Some(v) => v,
                Option::None => Seq::empty(),
            }
        } else {
            round_output(p, c, (i - 1) as nat)
        }
    } else if c.pipeline {
        pipeline_value(p, c, i)
    } else {
        Seq::empty()
    }
}

/// K_i, the output of round i (rounds are numbered from 1).
pub open spec fn round_output<P: Prf>(p: &P, c: DeriveCall, i: nat) -> Seq<u8>
    decreases i, 1nat,
{
    p.prf(c.key, round_message(round_prefix(p, c, i), c, i))
}

/// The outputs of rounds 1..=j, concatenated.
pub open spec fn key_stream<P: Prf>(p: &P, c: DeriveCall, j: nat) -> Seq<u8>
    decreases j,
{
    if j == 0 {
        Seq::empty()
    } else {
        key_stream(p, c, (j - 1) as nat) + round_output(p, c, j)
    }
}

/// Whether the request fits the counter width: n ≤ 2^(8r) − 1.
pub open spec fn feasible<P: Prf>(p: &P, c: DeriveCall) -> bool {
    n_rounds(c.k, p.h()) <= counter_limit(c.r)
}

/// The derived key material: n rounds, truncated to K bytes.
pub open spec fn derived<P: Prf>(p: &P, c: DeriveCall) -> Seq<u8> {
    key_stream(p, c, n_rounds(c.k, p.h())).take(c.k as int)
}

/// Counting rounds in bits and in bytes agree:
/// ceil(K*8 / H*8) == ceil(K / H).
pub proof fn lemma_bits_vs_bytes(k: nat, h: nat)
    requires
        h >= 1,
    ensures
        div_ceil_spec(8 * k, 8 * h) == div_ceil_spec(k, h),
{
    let q = (k as int) / (h as int);
    let m = (k as int) % (h as int);
    lemma_fundamental_div_mod(k as int, h as int);
    assert(8 * (k as int) == q * (8 * (h as int)) + 8 * m) by (nonlinear_arith)
        requires
            k as int == (h as int) * q + m,
    ;
    lemma_fundamental_div_mod_converse(8 * (k as int), 8 * (h as int), q, 8 * m);
}

/// n rounds of H bytes cover K bytes: n_rounds(k, h) * h >= k.
pub proof fn lemma_rounds_cover(k: nat, h: nat)
    requires
        h >= 1,
    ensures
        n_rounds(k, h) * h >= k,
{
    let q = (k as int) / (h as int);
    let m = (k as int) % (h as int);
    lemma_fundamental_div_mod(k as int, h as int);
    if m == 0 {
        assert(q * (h as int) == k as int) by (nonlinear_arith)
            requires
                k as int == (h as int) * q + m,
                m == 0,
        ;
    } else {
        assert((q + 1) * (h as int) > k as int) by (nonlinear_arith)
            requires
                k as int == (h as int) * q + m,
                m < h as int,
        ;
    }
}

/// Before the last round, the output buffer is not yet full:
/// j < n_rounds(k, h) means j * h < k.
pub proof fn lemma_partial_rounds(k: nat, h: nat, j: nat)
    requires
        h >= 1,
        j < n_rounds(k, h),
    ensures
        j * h < k,
{
    let q = (k as int) / (h as int);
    let m = (k as int) % (h as int);
    lemma_fundamental_div_mod(k as int, h as int);
    if m == 0 {
        assert((j as int) * (h as int) < k as int) by (nonlinear_arith)
            requires
                k as int == (h as int) * q + m,
                m == 0,
                h as int >= 1,
                j as int <= q - 1,
        ;
    } else {
        assert((j as int) * (h as int) < k as int) by (nonlinear_arith)
            requires
                k as int == (h as int) * q + m,
                m >= 1,
                h as int >= 1,
                j as int <= q,
        ;
    }
}

/// The first j rounds yield exactly j * H bytes.
pub proof fn lemma_key_stream_len<P: Prf>(p: &P, c: DeriveCall, j: nat)
    requires
        prf_wf(p),
    ensures
        key_stream(p, c, j).len() == j * p.h(),
    decreases j,
{
    if j == 0 {
    } else {
        let jp = (j - 1) as nat;
        lemma_key_stream_len(p, c, jp);
        assert(round_output(p, c, j).len() == p.h());
        let h = p.h();
        assert(jp * h + h == j * h) by (nonlinear_arith)
            requires
                jp == j - 1,
        ;
    }
}

/// One loop step: appending min(H, K - i*H) bytes of round i+1's output
/// extends the first i rounds' worth of output to round i+1's worth.
pub proof fn lemma_key_stream_step<P: Prf>(p: &P, c: DeriveCall, i: nat, k: nat)
    requires
        prf_wf(p),
        i * p.h() < k,
    ensures
        ({
            let h = p.h();
            let take_n: nat = if h <= k - i * h {
                h
            } else {
                (k - i * h) as nat
            };
            &&& key_stream(p, c, i).take((i * h) as int) == key_stream(p, c, i)
            &&& key_stream(p, c, i) + round_output(p, c, (i + 1) as nat).subrange(
                0,
                take_n as int,
            ) == key_stream(p, c, (i + 1) as nat).take((i * h + take_n) as int)
            &&& i * h + take_n == vstd::math::min(((i + 1) * h) as int, k as int)
        }),
{
    let h = p.h();
    let take_n: nat = if h <= k - i * h {
        h
    } else {
        (k - i * h) as nat
    };
    lemma_key_stream_len(p, c, i);
    assert(round_output(p, c, (i + 1) as nat).len() == p.h());
    assert((i + 1) * h == i * h + h) by (nonlinear_arith);
    assert(key_stream(p, c, i).take((i * h) as int) =~= key_stream(p, c, i));
    assert(key_stream(p, c, (i + 1) as nat) == key_stream(p, c, i) + round_output(
        p,
        c,
        (i + 1) as nat,
    ));
    assert(key_stream(p, c, i) + round_output(p, c, (i + 1) as nat).subrange(0, take_n as int)
        =~= key_stream(p, c, (i + 1) as nat).take((i * h + take_n) as int));
}

/// Two calls that agree on everything a round message is built from,
/// apart from the chaining policy and the IV.
pub open spec fn same_fixed_inputs(c1: DeriveCall, c2: DeriveCall) -> bool {
    &&& c1.key == c2.key
    &&& c1.use_l == c2.use_l
    &&& c1.use_separator == c2.use_separator
    &&& c1.use_counter == c2.use_counter
    &&& c1.label == c2.label
    &&& c1.context == c2.context
    &&& c1.k == c2.k
    &&& c1.r == c2.r
}

} // verus!
