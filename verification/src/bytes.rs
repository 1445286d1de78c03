//! Small verified helpers for assembling round messages byte by byte.

use vstd::prelude::*;
use crate::model::{be32, counter_field};

verus! {

/// Append the first `count` bytes of `src` to `dst`.
pub fn push_prefix(dst: &mut Vec<u8>, src: &[u8], count: usize)
    requires
        count <= src@.len(),
    ensures
        final(dst)@ == old(dst)@ + src@.subrange(0, count as int),
{
    let mut j: usize = 0;
    while j < count
        invariant
            j <= count <= src@.len(),
            dst@ == old(dst)@ + src@.subrange(0, j as int),
        decreases count - j,
    {
        dst.push(src[j]);
        j = j + 1;
        assert(dst@ =~= old(dst)@ + src@.subrange(0, j as int));
    }
}

/// Append all of `src` to `dst`.
pub fn push_bytes(dst: &mut Vec<u8>, src: &[u8])
    ensures
        final(dst)@ == old(dst)@ + src@,
{
    push_prefix(dst, src, src.len());
    assert(dst@ =~= old(dst)@ + src@);
}

/// Append the big-endian 32-bit encoding of `x`.
pub fn push_be32(dst: &mut Vec<u8>, x: u32)
    ensures
        final(dst)@ == old(dst)@ + be32(x as nat),
{
    dst.push(((x / 0x1000000) % 0x100) as u8);
    dst.push(((x / 0x10000) % 0x100) as u8);
    dst.push(((x / 0x100) % 0x100) as u8);
    dst.push((x % 0x100) as u8);
    assert(dst@ =~= old(dst)@ + be32(x as nat));
}

/// Append the counter field: the low `r` bytes of the big-endian
/// 32-bit encoding of `counter`.
pub fn push_counter(dst: &mut Vec<u8>, counter: u32, r: usize)
    requires
        1 <= r <= 4,
    ensures
        final(dst)@ == old(dst)@ + counter_field(counter as nat, r as nat),
{
    if r == 4 {
        dst.push(((counter / 0x1000000) % 0x100) as u8);
    }
    if r >= 3 {
        dst.push(((counter / 0x10000) % 0x100) as u8);
    }
    if r >= 2 {
        dst.push(((counter / 0x100) % 0x100) as u8);
    }
    dst.push((counter % 0x100) as u8);
    assert(dst@ =~= old(dst)@ + counter_field(counter as nat, r as nat));
}

} // verus!
