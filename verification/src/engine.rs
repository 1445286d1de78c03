//! The derivation engine shared by the three modes: round counting and
//! feasibility validation, per-round message assembly, chaining, and
//! final truncation of the output.

use vstd::prelude::*;
use vstd::math::min;
use crate::bytes::{push_bytes, push_prefix, push_be32, push_counter};
use crate::model::{
    call_of, derived, div_ceil_spec, feasible, fixed_input, key_stream, l_bits,
    lemma_bits_vs_bytes, lemma_key_stream_len, lemma_key_stream_step, lemma_partial_rounds,
    lemma_rounds_cover, n_rounds, pipeline_value, round_message, round_output, round_prefix,
    DeriveCall,
};
use crate::prf::{prf_wf, Prf};
use crate::Error;

verus! {

/// The view of an optional borrowed IV.
pub open spec fn iv_view(iv: Option<&Vec<u8>>) -> Option<Seq<u8>> {
    match iv {
        Option::Some(v) => Option::Some(v@),
        Option::None => Option::None,
    }
}

/// Copy a byte vector.
fn copy_vec(src: &Vec<u8>) -> (r: Vec<u8>)
    ensures
        r@ == src@,
{
    let mut d: Vec<u8> = Vec::new();
    push_bytes(&mut d, src.as_slice());
    d
}

/// Assemble one round's message:
/// prefix ‖ counter? ‖ label ‖ 0x00? ‖ context ‖ L?
fn build_round_message(
    prefix: &[u8],
    ctr: u32,
    r: usize,
    use_counter: bool,
    label: &[u8],
    use_separator: bool,
    context: &[u8],
    use_l: bool,
    l32: u32,
    Ghost(c): Ghost<DeriveCall>,
) -> (m: Vec<u8>)
    requires
        1 <= r <= 4,
        c.use_counter == use_counter,
        c.r == r as nat,
        c.label == label@,
        c.use_separator == use_separator,
        c.context == context@,
        c.use_l == use_l,
        l32 as nat == l_bits(c),
    ensures
        m@ == round_message(prefix@, c, ctr as nat),
{
    let mut m: Vec<u8> = Vec::new();
    push_bytes(&mut m, prefix);
    if use_counter {
        push_counter(&mut m, ctr, r);
    }
    push_bytes(&mut m, label);
    if use_separator {
        m.push(0u8);
    }
    push_bytes(&mut m, context);
    if use_l {
        push_be32(&mut m, l32);
    }
    assert(m@ =~= round_message(prefix@, c, ctr as nat));
    m
}

/// Run one derivation: compute the round count n = ceil(K*8 / H*8),
/// fail if the R-byte counter field cannot represent it, and otherwise
/// run n PRF rounds and assemble exactly K output bytes.
#[verifier::rlimit(100)]
pub(crate) fn derive_engine<P: Prf>(
    prf: &P,
    kin: &[u8],
    feedback: bool,
    pipeline: bool,
    iv: Option<&Vec<u8>>,
    k: usize,
    r: usize,
    use_l: bool,
    use_separator: bool,
    use_counter: bool,
    label: &[u8],
    context: &[u8],
) -> (res: Result<Vec<u8>, Error>)
    requires
        prf_wf(prf),
        1 <= r <= 4,
        8 * k <= u32::MAX,
        !(feedback && pipeline),
        iv is Some ==> feedback,
        match iv {
            Option::Some(v) => v@.len() == prf.h(),
            Option::None => true,
        },
    ensures
        ({
            let c = call_of(
                kin@,
                feedback,
                pipeline,
                iv_view(iv),
                use_l,
                use_separator,
                use_counter,
                label@,
                context@,
                k as nat,
                r as nat,
            );
            match res {
                Ok(out) => feasible(prf, c) && out@ == derived(prf, c) && out@.len() == k,
                Err(e) => e == Error::InvalidRequestSize && !feasible(prf, c),
            }
        }),
{
    let ghost c = call_of(
        kin@,
        feedback,
        pipeline,
        iv_view(iv),
        use_l,
        use_separator,
        use_counter,
        label@,
        context@,
        k as nat,
        r as nat,
    );

    let h: usize = prf.output_len();

    // The bit-length accounting: L and H in bits, n = ceil(L / H).
    let l32: u32 = (8 * k) as u32;
    let hbits: u32 = (8 * h) as u32;
    let n64: u64 = (l32 as u64) / (hbits as u64) + (if l32 % hbits == 0 {
        0
    } else {
        1
    });
    proof {
        assert(n64 as nat == div_ceil_spec(8 * c.k, 8 * prf.h()));
        lemma_bits_vs_bytes(c.k, prf.h());
        assert(n64 as nat == n_rounds(c.k, prf.h()));
    }

    // Validate n against the capacity of the R-byte counter field.
    let limit: u64 = if r == 1 {
        0xff
    } else if r == 2 {
        0xffff
    } else if r == 3 {
        0xffffff
    } else {
        0xffffffff
    };
    if n64 > limit {
        return Err(Error::InvalidRequestSize);
    }
    let n: u32 = n64 as u32;

    // The initial pipeline value A_1 = PRF(key, label ‖ 0x00? ‖ context).
    // It is computed in every mode; the length field is never part of
    // its message, even when the length switch is set.
    let mut fixed: Vec<u8> = Vec::new();
    push_bytes(&mut fixed, label);
    if use_separator {
        fixed.push(0u8);
    }
    push_bytes(&mut fixed, context);
    proof {
        assert(fixed@ =~= fixed_input(c));
    }
    let mut a: Vec<u8> = prf.mac(kin, fixed.as_slice());

    // The feedback chaining value, seeded from the IV when one is given.
    let mut fb: Option<Vec<u8>> = match iv {
        Option::Some(v) => Option::Some(copy_vec(v)),
        Option::None => Option::None,
    };

    let empty: Vec<u8> = Vec::new();
    let mut out: Vec<u8> = Vec::new();
    let mut i: u32 = 0;
    while i < n
        invariant
            prf_wf(prf),
            i <= n,
            n as nat == n_rounds(c.k, prf.h()),
            h as nat == prf.h(),
            1 <= h,
            k == c.k,
            r == c.r,
            1 <= r <= 4,
            8 * k <= u32::MAX,
            l32 as nat == l_bits(c),
            feedback == c.feedback,
            pipeline == c.pipeline,
            use_l == c.use_l,
            use_separator == c.use_separator,
            use_counter == c.use_counter,
            kin@ == c.key,
            label@ == c.label,
            context@ == c.context,
            empty@ == Seq::<u8>::empty(),
            out@.len() == min((i as int) * (h as int), k as int),
            out@ == key_stream(prf, c, i as nat).take(out@.len() as int),
            a@ == pipeline_value(prf, c, if i == 0 { 1nat } else { i as nat }),
            (match fb {
                Option::Some(f) => if i == 0 {
                    c.iv == Option::Some(f@)
                } else {
                    f@ == round_output(prf, c, i as nat)
                },
                Option::None => i == 0 && c.iv is None,
            }),
        decreases n - i,
    {
        let ctr: u32 = i + 1;
        if ctr > 1 {
            let a2 = prf.mac(kin, a.as_slice());
            a = a2;
        }
        proof {
            assert(a@ == pipeline_value(prf, c, ctr as nat));
        }

        // This round's chaining prefix.
        let prefix: &[u8] = if feedback {
            match &fb {
                Option::Some(f) => f.as_slice(),
                Option::None => empty.as_slice(),
            }
        } else if pipeline {
            a.as_slice()
        } else {
            empty.as_slice()
        };
        proof {
            assert(prefix@ == round_prefix(prf, c, ctr as nat));
        }

        let msg = build_round_message(
            prefix,
            ctr,
            r,
            use_counter,
            label,
            use_separator,
            context,
            use_l,
            l32,
            Ghost(c),
        );

        let ki = prf.mac(kin, msg.as_slice());
        proof {
            assert(ki@ == round_output(prf, c, ctr as nat));
            lemma_partial_rounds(c.k, prf.h(), i as nat);
            lemma_key_stream_step(prf, c, i as nat, c.k);
            p_len(prf, c, ctr as nat);
        }

        // Copy min(H, remaining) bytes into the output buffer.
        let remaining: usize = k - out.len();
        let take_n: usize = if h < remaining {
            h
        } else {
            remaining
        };
        push_prefix(&mut out, ki.as_slice(), take_n);
        fb = Option::Some(ki);
        i = ctr;
    }

    proof {
        lemma_key_stream_len(prf, c, n as nat);
        lemma_rounds_cover(c.k, prf.h());
        assert(out@ == derived(prf, c));
    }
    Ok(out)
}

/// Round i's output has H bytes.
proof fn p_len<P: Prf>(p: &P, c: DeriveCall, i: nat)
    requires
        prf_wf(p),
    ensures
        round_output(p, c, i).len() == p.h(),
{
    assert(round_output(p, c, i) == p.prf(c.key, round_message(round_prefix(p, c, i), c, i)));
}

} // verus!
