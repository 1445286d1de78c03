//! End-to-end tests of the three KBKDF modes against small PRF stubs.

use std::cell::{Cell, RefCell};

use kbkdf::{Counter, DoublePipeline, Error, Feedback, Kbkdf, Prf};

/// FNV-1a absorption of a byte slice into a 64-bit state.
fn fnv_absorb(mut state: u64, data: &[u8]) -> u64 {
    for &b in data {
        state ^= b as u64;
        state = state.wrapping_mul(0x100000001b3);
    }
    state
}

/// A deterministic, well-mixing keyed function producing `h` bytes.
/// Every input bit affects every output byte, which is what the
/// sensitivity tests rely on.
fn prf_bytes(key: &[u8], msg: &[u8], h: usize) -> Vec<u8> {
    let mut s: u64 = 0xcbf29ce484222325;
    s = fnv_absorb(s, &(key.len() as u64).to_be_bytes());
    s = fnv_absorb(s, key);
    s = fnv_absorb(s, &(msg.len() as u64).to_be_bytes());
    s = fnv_absorb(s, msg);
    let mut out: Vec<u8> = Vec::with_capacity(h);
    let mut block_index: u64 = 0;
    while out.len() < h {
        let block = fnv_absorb(s, &block_index.to_be_bytes()).to_be_bytes();
        for &b in block.iter() {
            if out.len() < h {
                out.push(b);
            }
        }
        block_index += 1;
    }
    out
}

/// A plain PRF stub with output length `h`.
struct TestPrf {
    h: usize,
}

impl Prf for TestPrf {
    fn output_len(&self) -> usize {
        self.h
    }

    fn mac(&self, key: &[u8], msg: &[u8]) -> Vec<u8> {
        prf_bytes(key, msg, self.h)
    }
}

/// A PRF stub that records every (key, message) pair it is asked to
/// process.
struct RecordingPrf {
    h: usize,
    log: RefCell<Vec<Vec<u8>>>,
}

impl RecordingPrf {
    fn new(h: usize) -> Self {
        RecordingPrf { h, log: RefCell::new(Vec::new()) }
    }

    fn messages(&self) -> Vec<Vec<u8>> {
        self.log.borrow().clone()
    }
}

impl Prf for RecordingPrf {
    fn output_len(&self) -> usize {
        self.h
    }

    fn mac(&self, key: &[u8], msg: &[u8]) -> Vec<u8> {
        self.log.borrow_mut().push(msg.to_vec());
        prf_bytes(key, msg, self.h)
    }
}

/// A PRF stub that counts its invocations.
struct CountingPrf {
    h: usize,
    calls: Cell<usize>,
}

impl Prf for CountingPrf {
    fn output_len(&self) -> usize {
        self.h
    }

    fn mac(&self, key: &[u8], msg: &[u8]) -> Vec<u8> {
        self.calls.set(self.calls.get() + 1);
        prf_bytes(key, msg, self.h)
    }
}

/// The expected round message: prefix ‖ counter? ‖ label ‖ 0x00? ‖
/// context ‖ L?, with the counter truncated to its low `r` bytes.
fn expected_message(
    prefix: &[u8],
    counter: Option<(u32, usize)>,
    label: &[u8],
    separator: bool,
    context: &[u8],
    l_bits: Option<u32>,
) -> Vec<u8> {
    let mut m = prefix.to_vec();
    if let Some((ctr, r)) = counter {
        m.extend_from_slice(&ctr.to_be_bytes()[4 - r..]);
    }
    m.extend_from_slice(label);
    if separator {
        m.push(0);
    }
    m.extend_from_slice(context);
    if let Some(l) = l_bits {
        m.extend_from_slice(&l.to_be_bytes());
    }
    m
}

const KEY: &[u8] = b"test key material";
const LABEL: &[u8] = b"label";
const CONTEXT: &[u8] = b"context bytes";

#[test]
fn counter_output_has_requested_length() {
    for &(k, h, r) in &[(32usize, 32usize, 4usize), (7, 2, 1), (100, 16, 2), (255, 1, 1)] {
        let prf = TestPrf { h };
        let mode = Counter::new(k, r);
        let out = mode.derive(&prf, KEY, true, true, true, LABEL, CONTEXT).unwrap();
        assert_eq!(out.len(), k);
    }
}

#[test]
fn zero_length_output() {
    let prf = TestPrf { h: 8 };
    let mode = Counter::new(0, 1);
    let out = mode.derive(&prf, KEY, true, true, true, LABEL, CONTEXT).unwrap();
    assert!(out.is_empty());
}

#[test]
fn request_too_large_fails() {
    // 256 rounds of 1 byte each cannot be addressed by a 1-byte counter.
    let prf = TestPrf { h: 1 };
    let mode = Counter::new(256, 1);
    let res = mode.derive(&prf, KEY, true, true, true, LABEL, CONTEXT);
    assert_eq!(res, Err(Error::InvalidRequestSize));
    // 255 rounds still fit.
    let mode = Counter::new(255, 1);
    assert!(mode.derive(&prf, KEY, true, true, true, LABEL, CONTEXT).is_ok());
}

#[test]
fn no_prf_invocation_on_infeasible_request() {
    let prf = CountingPrf { h: 1, calls: Cell::new(0) };
    let mode = Counter::new(300, 1);
    let res = mode.derive(&prf, KEY, true, true, true, LABEL, CONTEXT);
    assert_eq!(res, Err(Error::InvalidRequestSize));
    assert_eq!(prf.calls.get(), 0);
}

#[test]
fn derive_is_deterministic() {
    let prf = TestPrf { h: 16 };
    let iv = vec![9u8; 16];

    let counter = Counter::new(40, 2);
    let a = counter.derive(&prf, KEY, true, true, true, LABEL, CONTEXT).unwrap();
    let b = counter.derive(&prf, KEY, true, true, true, LABEL, CONTEXT).unwrap();
    assert_eq!(a, b);

    let feedback = Feedback::new(40, 2, Some(iv.clone()));
    let a = feedback.derive(&prf, KEY, true, true, true, LABEL, CONTEXT).unwrap();
    let b = feedback.derive(&prf, KEY, true, true, true, LABEL, CONTEXT).unwrap();
    assert_eq!(a, b);

    let pipeline = DoublePipeline::new(40, 2);
    let a = pipeline.derive(&prf, KEY, true, true, true, LABEL, CONTEXT).unwrap();
    let b = pipeline.derive(&prf, KEY, true, true, true, LABEL, CONTEXT).unwrap();
    assert_eq!(a, b);
}

#[test]
fn single_bit_changes_output() {
    let prf = TestPrf { h: 16 };
    let mode = Counter::new(32, 2);
    let base = mode.derive(&prf, KEY, true, true, true, LABEL, CONTEXT).unwrap();

    let mut key = KEY.to_vec();
    key[0] ^= 0x01;
    assert_ne!(base, mode.derive(&prf, &key, true, true, true, LABEL, CONTEXT).unwrap());

    let mut label = LABEL.to_vec();
    label[2] ^= 0x80;
    assert_ne!(base, mode.derive(&prf, KEY, true, true, true, &label, CONTEXT).unwrap());

    let mut context = CONTEXT.to_vec();
    context[5] ^= 0x10;
    assert_ne!(base, mode.derive(&prf, KEY, true, true, true, LABEL, &context).unwrap());

    let iv = vec![3u8; 16];
    let feedback = Feedback::new(32, 2, Some(iv.clone()));
    let fb_base = feedback.derive(&prf, KEY, true, true, true, LABEL, CONTEXT).unwrap();
    let mut iv_flipped = iv;
    iv_flipped[7] ^= 0x04;
    let feedback_flipped = Feedback::new(32, 2, Some(iv_flipped));
    assert_ne!(fb_base, feedback_flipped.derive(&prf, KEY, true, true, true, LABEL, CONTEXT).unwrap());
}

#[test]
fn counter_field_encoding() {
    // Three rounds with a 2-byte counter: round i's message must hold
    // the low 2 bytes of the big-endian 32-bit i, right at the start
    // (Counter mode has no chaining prefix).
    let prf = RecordingPrf::new(8);
    let mode = Counter::new(24, 2);
    mode.derive(&prf, KEY, true, true, true, LABEL, CONTEXT).unwrap();
    let msgs = prf.messages();
    // The log holds: the pipeline seed message, then for round i >= 2
    // one pipeline-update message before each round message; round i's
    // message sits at index 2i - 1.
    for i in 1u32..=3 {
        let msg = &msgs[(2 * i - 1) as usize];
        assert_eq!(&msg[0..2], &i.to_be_bytes()[2..]);
        let expected = expected_message(&[], Some((i, 2)), LABEL, true, CONTEXT, Some(24 * 8));
        assert_eq!(msg, &expected);
    }
}

#[test]
fn counter_boundary_unreachable() {
    // Round 256 with R = 1 must never be reached: the request already
    // fails the feasibility check.
    let prf = RecordingPrf::new(1);
    let mode = Counter::new(256, 1);
    assert_eq!(
        mode.derive(&prf, KEY, true, true, true, LABEL, CONTEXT),
        Err(Error::InvalidRequestSize)
    );
    assert!(prf.messages().is_empty());
}

#[test]
fn switches_control_message_layout() {
    // All switches off: the round message is label ‖ context alone.
    let prf = RecordingPrf::new(16);
    let mode = Counter::new(16, 4);
    mode.derive(&prf, KEY, false, false, false, LABEL, CONTEXT).unwrap();
    let msgs = prf.messages();
    let expected = expected_message(&[], None, LABEL, false, CONTEXT, None);
    assert_eq!(msgs[1], expected);
    // The pipeline seed message never carries the length field, even
    // when the length switch is set.
    let prf = RecordingPrf::new(16);
    mode.derive(&prf, KEY, true, true, false, LABEL, CONTEXT).unwrap();
    let msgs = prf.messages();
    let seed_expected = expected_message(&[], None, LABEL, true, CONTEXT, None);
    assert_eq!(msgs[0], seed_expected);
    let round_expected = expected_message(&[], None, LABEL, true, CONTEXT, Some(16 * 8));
    assert_eq!(msgs[1], round_expected);
}

#[test]
fn modes_differ_when_multiple_rounds() {
    let prf = TestPrf { h: 32 };
    let counter = Counter::new(64, 4);
    let feedback = Feedback::new(64, 4, None);
    let pipeline = DoublePipeline::new(64, 4);
    let a = counter.derive(&prf, KEY, true, true, true, LABEL, CONTEXT).unwrap();
    let b = feedback.derive(&prf, KEY, true, true, true, LABEL, CONTEXT).unwrap();
    let c = pipeline.derive(&prf, KEY, true, true, true, LABEL, CONTEXT).unwrap();
    assert_ne!(a, b);
    assert_ne!(a, c);
    assert_ne!(b, c);
}

#[test]
fn feedback_iv_changes_first_round_only() {
    let iv = vec![0x5au8; 8];
    let with_iv = Feedback::new(16, 4, Some(iv.clone()));
    let without_iv = Feedback::new(16, 4, None);

    let prf_a = RecordingPrf::new(8);
    with_iv.derive(&prf_a, KEY, true, true, true, LABEL, CONTEXT).unwrap();
    let msgs_a = prf_a.messages();

    let prf_b = RecordingPrf::new(8);
    without_iv.derive(&prf_b, KEY, true, true, true, LABEL, CONTEXT).unwrap();
    let msgs_b = prf_b.messages();

    // Round 1: the feedback term is present with an IV, absent without.
    let tail1 = expected_message(&[], Some((1, 4)), LABEL, true, CONTEXT, Some(16 * 8));
    assert_eq!(msgs_a[1], expected_message(&iv, Some((1, 4)), LABEL, true, CONTEXT, Some(16 * 8)));
    assert_eq!(msgs_b[1], tail1);
    assert_ne!(msgs_a[1], msgs_b[1]);

    // Rounds >= 2 chain from round 1's output in both cases: the
    // message is K_1 ‖ tail, never the IV.
    let k1_a = prf_bytes(KEY, &msgs_a[1], 8);
    let k1_b = prf_bytes(KEY, &msgs_b[1], 8);
    let tail2 = |k1: &[u8]| expected_message(k1, Some((2, 4)), LABEL, true, CONTEXT, Some(16 * 8));
    assert_eq!(msgs_a[3], tail2(&k1_a));
    assert_eq!(msgs_b[3], tail2(&k1_b));
}

#[test]
fn pipeline_chaining_uses_seed() {
    // Double-Pipeline: round 1's message is A_1 ‖ tail where A_1 is
    // the PRF over the fixed input data; round 2's prefix is
    // A_2 = PRF(key, A_1).
    let prf = RecordingPrf::new(8);
    let mode = DoublePipeline::new(16, 4);
    mode.derive(&prf, KEY, true, true, true, LABEL, CONTEXT).unwrap();
    let msgs = prf.messages();
    let seed = expected_message(&[], None, LABEL, true, CONTEXT, None);
    assert_eq!(msgs[0], seed);
    let a1 = prf_bytes(KEY, &seed, 8);
    assert_eq!(msgs[1], expected_message(&a1, Some((1, 4)), LABEL, true, CONTEXT, Some(16 * 8)));
    // The pipeline update message is A_1 itself.
    assert_eq!(msgs[2], a1);
    let a2 = prf_bytes(KEY, &a1, 8);
    assert_eq!(msgs[3], expected_message(&a2, Some((2, 4)), LABEL, true, CONTEXT, Some(16 * 8)));
}

#[test]
fn full_block_single_round() {
    // K = 32 with H = 32: one round, no truncation; the output is the
    // PRF over round 1's message.
    let prf = TestPrf { h: 32 };
    let mode = Counter::new(32, 4);
    let out = mode.derive(&prf, KEY, true, true, true, LABEL, CONTEXT).unwrap();
    let msg1 = expected_message(&[], Some((1, 4)), LABEL, true, CONTEXT, Some(32 * 8));
    assert_eq!(out, prf_bytes(KEY, &msg1, 32));
}

#[test]
fn truncated_single_round() {
    // K = 20 with H = 32: one round, output is its first 20 bytes.
    let prf = TestPrf { h: 32 };
    let mode = Counter::new(20, 4);
    let out = mode.derive(&prf, KEY, true, true, true, LABEL, CONTEXT).unwrap();
    let msg1 = expected_message(&[], Some((1, 4)), LABEL, true, CONTEXT, Some(20 * 8));
    assert_eq!(out, prf_bytes(KEY, &msg1, 32)[..20].to_vec());
}

#[test]
fn two_full_rounds_concatenated() {
    // K = 64 with H = 32: two rounds, output is round 1 ‖ round 2.
    let prf = TestPrf { h: 32 };
    let mode = Counter::new(64, 4);
    let out = mode.derive(&prf, KEY, true, true, true, LABEL, CONTEXT).unwrap();
    let msg1 = expected_message(&[], Some((1, 4)), LABEL, true, CONTEXT, Some(64 * 8));
    let msg2 = expected_message(&[], Some((2, 4)), LABEL, true, CONTEXT, Some(64 * 8));
    let mut expected = prf_bytes(KEY, &msg1, 32);
    expected.extend_from_slice(&prf_bytes(KEY, &msg2, 32));
    assert_eq!(out, expected);
}

#[test]
fn one_byte_output() {
    // K = 1 with H = 32 and R = 1: one round (1 <= 255), output is the
    // first byte of round 1's output.
    let prf = TestPrf { h: 32 };
    let mode = Counter::new(1, 1);
    let out = mode.derive(&prf, KEY, true, true, true, LABEL, CONTEXT).unwrap();
    let msg1 = expected_message(&[], Some((1, 1)), LABEL, true, CONTEXT, Some(8));
    assert_eq!(out, vec![prf_bytes(KEY, &msg1, 32)[0]]);
}

#[test]
fn error_description() {
    let e = Error::InvalidRequestSize;
    assert!(e.message().contains("too large"));
}
