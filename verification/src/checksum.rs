//! The one's-complement checksum used by the IPv4 header.

use vstd::prelude::*;
use vstd::arithmetic::div_mod::{
    lemma_div_is_ordered, lemma_fundamental_div_mod, lemma_mod_add_multiples_vanish,
    lemma_mod_multiples_vanish, lemma_small_mod, lemma_sub_mod_noop,
};

verus! {

/// The big-endian 16-bit word at offset `i` of `b`, as an integer.
pub open spec fn be16_at(b: Seq<u8>, i: int) -> int {
    b[i] * 256 + b[i + 1]
}

/// The big-endian 32-bit word at offset `i` of `b`, as an integer.
pub open spec fn be32_at(b: Seq<u8>, i: int) -> int {
    ((b[i] * 256 + b[i + 1]) * 256 + b[i + 2]) * 256 + b[i + 3]
}

/// Sum of the big-endian 16-bit words of an even-length buffer.
pub open spec fn words_sum(b: Seq<u8>) -> int
    decreases b.len(),
{
    if b.len() < 2 {
        0
    } else {
        words_sum(b.take(b.len() - 2)) + be16_at(b, b.len() - 2)
    }
}

/// One end-around-carry step: add the part above 16 bits back into the low 16
/// bits.
pub open spec fn fold_carry(s: int) -> int {
    s % 0x10000 + s / 0x10000
}

/// The one's-complement checksum of `b`: the word sum folded twice (two folds
/// reduce any sum below 2^32 to 16 bits) and complemented.
pub open spec fn internet_checksum(b: Seq<u8>) -> int {
    0xFFFF - fold_carry(fold_carry(words_sum(b)))
}

/// The word sum is nonnegative and at most 0xFFFF per word.
proof fn lemma_words_sum_bound(b: Seq<u8>)
    ensures
        0 <= words_sum(b) <= 0xFFFF * (b.len() / 2),
    decreases b.len(),
{
    if b.len() >= 2 {
        lemma_words_sum_bound(b.take(b.len() - 2));
    }
}

/// Replacing the 16-bit word at even offset `p` changes the word sum by the
/// difference of the new and the old word.
proof fn lemma_words_sum_update16(b: Seq<u8>, p: int, hi: u8, lo: u8)
    requires
        b.len() % 2 == 0,
        0 <= p,
        p % 2 == 0,
        p + 2 <= b.len(),
    ensures
        words_sum(b.update(p, hi).update(p + 1, lo)) == words_sum(b) - be16_at(b, p) + hi * 256
            + lo,
    decreases b.len(),
{
    let b2 = b.update(p, hi).update(p + 1, lo);
    if p + 2 == b.len() {
        assert(b2.take(b.len() - 2) =~= b.take(b.len() - 2));
    } else {
        assert(p + 2 != b.len() - 1) by {
            assert((p + 2) % 2 == 0);
            assert(b.len() % 2 == 0);
        }
        lemma_words_sum_update16(b.take(b.len() - 2), p, hi, lo);
        assert(b2.take(b.len() - 2) =~= b.take(b.len() - 2).update(p, hi).update(p + 1, lo));
        assert(be16_at(b.take(b.len() - 2), p) == be16_at(b, p));
        assert(be16_at(b2, b.len() - 2) == be16_at(b, b.len() - 2));
    }
}

/// One carry fold keeps the value's residue modulo 0xFFFF, never grows the
/// value, and keeps a positive value positive.
proof fn lemma_fold_carry_mod(s: int)
    requires
        s >= 0,
    ensures
        fold_carry(s) % 0xFFFF == s % 0xFFFF,
        0 <= fold_carry(s) <= s,
        s >= 1 ==> fold_carry(s) >= 1,
{
    lemma_fundamental_div_mod(s, 0x10000);
    let q = s / 0x10000;
    let r = s % 0x10000;
    lemma_mod_multiples_vanish(q, r + q, 0xFFFF);
}

/// A buffer that stores, in its word at even offset `p`, the checksum of the
/// buffer with that word zeroed, checksums to zero as a whole — the invariant
/// a receiver confirms by recomputing the sum over the stored bytes.
pub proof fn lemma_stored_checksum_verifies(b: Seq<u8>, p: int)
    requires
        b.len() % 2 == 0,
        b.len() <= 131070,
        0 <= p,
        p % 2 == 0,
        p + 2 <= b.len(),
        be16_at(b, p) == internet_checksum(b.update(p, 0u8).update(p + 1, 0u8)),
    ensures
        internet_checksum(b) == 0,
{
    let z = b.update(p, 0u8).update(p + 1, 0u8);
    let s0 = words_sum(z);
    lemma_words_sum_bound(z);
    assert(s0 <= 0xFFFF * 65535) by {
        assert(z.len() / 2 <= 65535);
        assert(0xFFFF * (z.len() / 2) <= 0xFFFF * 65535) by (nonlinear_arith)
            requires
                0 <= (z.len() / 2) as int <= 65535,
        ;
    }
    let f1 = fold_carry(s0);
    let f2 = fold_carry(f1);
    lemma_fold_carry_mod(s0);
    lemma_fold_carry_mod(f1);
    assert(f2 <= 0xFFFF) by {
        lemma_div_is_ordered(s0, 0xFFFFint * 65535, 0x10000);
        lemma_div_is_ordered(f1, 0x1FFFE, 0x10000);
    }
    let c = be16_at(b, p);
    assert(c == 0xFFFF - f2);

    // The stored word raises the zeroed buffer's word sum by exactly `c`.
    assert(b =~= z.update(p, b[p]).update(p + 1, b[p + 1]));
    lemma_words_sum_update16(z, p, b[p], b[p + 1]);
    let s = words_sum(b);
    assert(s == s0 + c);

    // The raised sum is a positive multiple of 0xFFFF, so its folded form is
    // exactly 0xFFFF and its complement zero.
    let g1 = fold_carry(s);
    let g2 = fold_carry(g1);
    lemma_fold_carry_mod(s);
    lemma_fold_carry_mod(g1);
    assert(g2 <= 0xFFFF) by {
        lemma_div_is_ordered(s, 0xFFFFint * 65536, 0x10000);
        lemma_div_is_ordered(g1, 0x1FFFF, 0x10000);
    }
    assert(s % 0xFFFF == 0) by {
        // f2 came out of s0 by two folds, so s0 - f2 is a nonnegative
        // multiple of 0xFFFF, and s == 0xFFFF + (s0 - f2).
        assert(s0 % 0xFFFF == f2 % 0xFFFF);
        lemma_sub_mod_noop(s0, f2, 0xFFFF);
        lemma_small_mod(0nat, 0xFFFF);
        lemma_mod_add_multiples_vanish(s0 - f2, 0xFFFF);
        assert(s == 0xFFFF + (s0 - f2));
    }
    assert(g2 % 0xFFFF == 0);
    assert(s >= 1);
    assert(g2 >= 1);
    if g2 < 0xFFFF {
        lemma_small_mod(g2 as nat, 0xFFFF);
    }
    assert(g2 == 0xFFFF);
}

/// Computes the one's-complement checksum of an even-length buffer.
pub fn checksum(b: &[u8]) -> (r: u16)
    requires
        b@.len() % 2 == 0,
        b@.len() <= 131070,
    ensures
        r == internet_checksum(b@),
{
    let n: usize = b.len();
    let mut sum: u64 = 0;
    let mut i: usize = 0;
    while i < n
        invariant
            b@.len() == n,
            n % 2 == 0,
            n <= 131070,
            i % 2 == 0,
            i <= n,
            sum == words_sum(b@.take(i as int)),
            sum <= 0xFFFF * ((i / 2) as int),
        decreases n - i,
    {
        let hi = *vstd::slice::slice_index_get(b, i);
        let lo = *vstd::slice::slice_index_get(b, i + 1);
        let w: u64 = (hi as u64) * 256 + (lo as u64);
        proof {
            assert(b@.take(i + 2).take(i as int) =~= b@.take(i as int));
            assert(words_sum(b@.take(i + 2)) == words_sum(b@.take(i as int)) + be16_at(
                b@.take(i + 2),
                i as int,
            ));
        }
        sum = sum + w;
        i = i + 2;
    }
    proof {
        assert(b@.take(n as int) =~= b@);
        assert(sum < 0x1_0000_0000) by {
            assert(sum <= 0xFFFF * ((n / 2) as int));
            assert(0xFFFF * ((n / 2) as int) <= 0xFFFF * 65535) by (nonlinear_arith)
                requires
                    0 <= (n / 2) as int <= 65535,
            ;
        }
    }
    let s1: u64 = sum % 0x10000 + sum / 0x10000;
    proof {
        lemma_div_is_ordered(sum as int, 0xFFFF_FFFFi64 as int, 0x10000);
        assert(s1 <= 0xFFFF + 0xFFFF);
    }
    let s2: u64 = s1 % 0x10000 + s1 / 0x10000;
    proof {
        lemma_div_is_ordered(s1 as int, 0x1FFFEi64 as int, 0x10000);
        assert(s2 <= 0xFFFF);
    }
    0xFFFFu16 - (s2 as u16)
}

} // verus!
