//! General properties of the derivation, stated and proved against the
//! model that the `derive` contracts are written in.

use vstd::prelude::*;
use crate::model::{
    counter_field, counter_limit, derived, feasible, fixed_input, lemma_key_stream_len,
    lemma_rounds_cover, message_tail, n_rounds, pipeline_value, round_message, round_output,
    round_prefix, same_fixed_inputs, DeriveCall,
};
use crate::prf::{prf_wf, Prf};

verus! {

/// A feasible derivation yields exactly K bytes: `derive`'s contract
/// pins the success value to `derived(p, c)`, and that value always
/// has `c.k` bytes.
pub proof fn lemma_derived_len<P: Prf>(p: &P, c: DeriveCall)
    requires
        prf_wf(p),
    ensures
        derived(p, c).len() == c.k,
{
    lemma_key_stream_len(p, c, n_rounds(c.k, p.h()));
    lemma_rounds_cover(c.k, p.h());
}

/// Determinism: the derived key material is a function of the PRF, the
/// key, the switches, the label, the context and (for Feedback) the IV
/// alone, so two identical calls yield byte-identical output.
pub proof fn lemma_derive_deterministic<P: Prf>(
    p: &P,
    c1: DeriveCall,
    c2: DeriveCall,
    out1: Seq<u8>,
    out2: Seq<u8>,
)
    requires
        c1 == c2,
        out1 == derived(p, c1),
        out2 == derived(p, c2),
    ensures
        out1 == out2,
{
}

/// Counter encoding: when the counter switch is set, round i's message
/// carries the big-endian 32-bit encoding of i truncated to its low R
/// bytes, immediately after the chaining prefix.
pub proof fn lemma_counter_encoding<P: Prf>(p: &P, c: DeriveCall, i: nat)
    requires
        c.use_counter,
        1 <= c.r <= 4,
    ensures
        ({
            let msg = round_message(round_prefix(p, c, i), c, i);
            let pl = round_prefix(p, c, i).len();
            msg.subrange(pl as int, (pl + c.r) as int) == counter_field(i, c.r)
        }),
{
    let msg = round_message(round_prefix(p, c, i), c, i);
    let pl = round_prefix(p, c, i).len();
    assert(msg.subrange(pl as int, (pl + c.r) as int) =~= counter_field(i, c.r));
}

/// A feasible request never needs a counter beyond what the R-byte
/// field can encode: every round index i ≤ n satisfies
/// i ≤ 2^(8R) − 1.
pub proof fn lemma_counter_fits<P: Prf>(p: &P, c: DeriveCall, i: nat)
    requires
        feasible(p, c),
        1 <= i <= n_rounds(c.k, p.h()),
    ensures
        i <= counter_limit(c.r),
{
}

/// Round i's output has H bytes.
proof fn lemma_round_output_len<P: Prf>(p: &P, c: DeriveCall, i: nat)
    requires
        prf_wf(p),
    ensures
        round_output(p, c, i).len() == p.h(),
{
    assert(round_output(p, c, i) == p.prf(c.key, round_message(round_prefix(p, c, i), c, i)));
}

/// The chaining prefix of a chained mode has H bytes from round 2 on.
proof fn lemma_chained_prefix_len<P: Prf>(p: &P, c: DeriveCall, i: nat)
    requires
        prf_wf(p),
        i >= 2,
        c.feedback || c.pipeline,
    ensures
        round_prefix(p, c, i).len() == p.h(),
{
    if c.feedback {
        lemma_round_output_len(p, c, (i - 1) as nat);
    } else {
        assert(round_prefix(p, c, i) == p.prf(c.key, pipeline_value(p, c, (i - 1) as nat)));
    }
}

/// Two calls that agree on all message fields build the same message
/// tail in every round.
proof fn lemma_same_tail(c1: DeriveCall, c2: DeriveCall, i: nat)
    requires
        same_fixed_inputs(c1, c2),
    ensures
        message_tail(c1, i) == message_tail(c2, i),
{
}

/// Mode differentiation, at the message level: from round 2 on, the
/// Counter-mode message is shorter by one PRF block than the message
/// of a chained mode (Feedback or Double-Pipeline) built from the same
/// inputs, so the two messages differ.
pub proof fn lemma_plain_vs_chained_message<P: Prf>(
    p: &P,
    c1: DeriveCall,
    c2: DeriveCall,
    i: nat,
)
    requires
        prf_wf(p),
        i >= 2,
        !c1.feedback,
        !c1.pipeline,
        c2.feedback || c2.pipeline,
        same_fixed_inputs(c1, c2),
    ensures
        round_message(round_prefix(p, c1, i), c1, i) != round_message(
            round_prefix(p, c2, i),
            c2,
            i,
        ),
{
    lemma_chained_prefix_len(p, c2, i);
    lemma_same_tail(c1, c2, i);
    assert(round_prefix(p, c1, i).len() == 0);
}

/// Feedback, round 1: supplying a (non-empty) IV changes the first
/// round's message relative to supplying none — the feedback term is
/// present instead of absent.
pub proof fn lemma_feedback_iv_changes_round_one<P: Prf>(p: &P, c1: DeriveCall, c2: DeriveCall)
    requires
        c1.feedback,
        c2.feedback,
        match c1.iv {
            Option::Some(v) => v.len() > 0,
            Option::None => false,
        },
        c2.iv is None,
        same_fixed_inputs(c1, c2),
    ensures
        round_message(round_prefix(p, c1, 1), c1, 1) != round_message(
            round_prefix(p, c2, 1),
            c2,
            1,
        ),
{
    lemma_same_tail(c1, c2, 1);
    assert(round_prefix(p, c2, 1).len() == 0);
}

/// Feedback, rounds 2 and later: the message is built from the
/// previous round's output, never from the IV. Two calls that differ
/// only in the IV and agree on round i−1's output build the same
/// round-i message.
pub proof fn lemma_feedback_later_rounds_ignore_iv<P: Prf>(
    p: &P,
    c1: DeriveCall,
    c2: DeriveCall,
    i: nat,
)
    requires
        i >= 2,
        c1.feedback,
        c2.feedback,
        same_fixed_inputs(c1, c2),
        round_output(p, c1, (i - 1) as nat) == round_output(p, c2, (i - 1) as nat),
    ensures
        round_message(round_prefix(p, c1, i), c1, i) == round_message(
            round_prefix(p, c2, i),
            c2,
            i,
        ),
{
    lemma_same_tail(c1, c2, i);
}

/// The initial pipeline value is computed over the fixed input data
/// alone: the length field is never part of its message, even when the
/// length switch is set (while every per-round message does carry it
/// when that switch is set).
pub proof fn lemma_pipeline_seed_omits_length<P: Prf>(p: &P, c1: DeriveCall, c2: DeriveCall)
    requires
        c1.key == c2.key,
        c1.label == c2.label,
        c1.use_separator == c2.use_separator,
        c1.context == c2.context,
    ensures
        pipeline_value(p, c1, 1) == pipeline_value(p, c2, 1),
{
    assert(fixed_input(c1) == fixed_input(c2));
}

} // verus!
