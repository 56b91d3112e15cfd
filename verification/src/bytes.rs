//! Helpers for building and reading big-endian byte buffers.

use vstd::prelude::*;
use vstd::arithmetic::div_mod::lemma_fundamental_div_mod;
use crate::checksum::{be16_at, be32_at};

verus! {

/// A run of `n` zero bytes.
pub open spec fn zero_seq(n: nat) -> Seq<u8> {
    Seq::new(n, |i: int| 0u8)
}

/// True when every byte of `b` is zero.
pub open spec fn all_zero(b: Seq<u8>) -> bool {
    forall|i: int| 0 <= i < b.len() ==> b[i] == 0
}

/// Appends `n` zero bytes to `out`.
pub fn push_zeros(out: &mut Vec<u8>, n: usize)
    ensures
        final(out)@ == old(out)@ + zero_seq(n as nat),
{
    let mut k: usize = 0;
    while k < n
        invariant
            k <= n,
            out@ == old(out)@ + zero_seq(k as nat),
        decreases n - k,
    {
        out.push(0);
        proof {
            assert(old(out)@ + zero_seq((k + 1) as nat) =~= (old(out)@ + zero_seq(k as nat)).push(
                0u8,
            ));
        }
        k = k + 1;
    }
}

/// Appends the bytes of `src` to `out`.
pub fn append_bytes(out: &mut Vec<u8>, src: &[u8])
    ensures
        final(out)@ == old(out)@ + src@,
{
    let mut k: usize = 0;
    while k < src.len()
        invariant
            k <= src@.len(),
            out@ == old(out)@ + src@.take(k as int),
        decreases src@.len() - k,
    {
        out.push(*vstd::slice::slice_index_get(src, k));
        proof {
            assert(old(out)@ + src@.take(k + 1) =~= (old(out)@ + src@.take(k as int)).push(
                src@[k as int],
            ));
        }
        k = k + 1;
    }
    proof {
        assert(src@.take(src@.len() as int) =~= src@);
    }
}

/// Appends `x` to `out` as two big-endian bytes.
pub fn push_be16(out: &mut Vec<u8>, x: u16)
    ensures
        final(out)@ == old(out)@ + seq![(x / 256) as u8, (x % 256) as u8],
        be16_at(final(out)@, old(out)@.len() as int) == x,
{
    let hi: u8 = (x / 256) as u8;
    let lo: u8 = (x % 256) as u8;
    out.push(hi);
    out.push(lo);
    proof {
        assert(out@ =~= old(out)@ + seq![hi, lo]);
        lemma_fundamental_div_mod(x as int, 256);
    }
}

/// Appends `x` to `out` as four big-endian bytes.
pub fn push_be32(out: &mut Vec<u8>, x: u32)
    ensures
        final(out)@.len() == old(out)@.len() + 4,
        forall|j: int| 0 <= j < old(out)@.len() ==> final(out)@[j] == old(out)@[j],
        be32_at(final(out)@, old(out)@.len() as int) == x,
{
    let b0: u8 = ((x >> 24) & 0xFF) as u8;
    let b1: u8 = ((x >> 16) & 0xFF) as u8;
    let b2: u8 = ((x >> 8) & 0xFF) as u8;
    let b3: u8 = (x & 0xFF) as u8;
    proof {
        assert(((x >> 24) & 0xFF) < 256 && ((x >> 16) & 0xFF) < 256 && ((x >> 8) & 0xFF) < 256 && (
        x & 0xFF) < 256) by (bit_vector);
        assert((((x >> 24) & 0xFF) * 256 + ((x >> 16) & 0xFF)) * 65536 + (((x >> 8) & 0xFF) * 256 + (
        x & 0xFF)) == x) by (bit_vector);
    }
    out.push(b0);
    out.push(b1);
    out.push(b2);
    out.push(b3);
    proof {
        assert(out@.subrange(0, old(out)@.len() as int) =~= old(out)@);
    }
}

/// The 32-bit value held by four big-endian bytes.
pub fn u32_from_be(b0: u8, b1: u8, b2: u8, b3: u8) -> (r: u32)
    ensures
        r == ((b0 * 256 + b1) * 256 + b2) * 256 + b3,
{
    (b0 as u32) * 0x1000000 + (b1 as u32) * 0x10000 + (b2 as u32) * 0x100 + (b3 as u32)
}

} // verus!
