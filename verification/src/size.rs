//! Which block lengths the processor accepts.

use vstd::prelude::*;
use vstd::arithmetic::power::{lemma_pow0, lemma_pow_positive, pow};
use vstd::arithmetic::power2::{is_pow2, is_pow2_equiv, lemma_pow2_strictly_increases, pow2};

verus! {

/// A block length is valid when it is a power of two and at least two, so
/// that a frame, half a block, holds at least one sample.
pub open spec fn valid_fft_size(n: nat) -> bool {
    n >= 2 && is_pow2(n as int)
}

/// The frame length that belongs to a block length.
pub open spec fn frame_size(n: nat) -> nat {
    n / 2
}

/// The valid block lengths are exactly `2^k` for `k >= 1`.
pub proof fn lemma_valid_fft_size_is_power(n: nat)
    ensures
        valid_fft_size(n) <==> exists|k: nat| k >= 1 && n == pow2(k),
{
    is_pow2_equiv(n as int);
    if valid_fft_size(n) {
        let k = choose|k: nat| pow(2, k) == n as int;
        if k == 0 {
            lemma_pow0(2);
        }
        assert(k >= 1 && n == pow2(k));
    }
    if exists|k: nat| k >= 1 && n == pow2(k) {
        let k = choose|k: nat| k >= 1 && n == pow2(k);
        lemma_pow_positive(2, k);
        assert(pow(2, k) == n as int);
        lemma_pow2_strictly_increases(0, k);
        lemma_pow0(2);
    }
}

/// A valid block length is twice its frame length, and the frame is not
/// empty.
pub proof fn lemma_valid_fft_size_is_even(n: nat)
    requires
        valid_fft_size(n),
    ensures
        2 * frame_size(n) == n,
        frame_size(n) >= 1,
{
    reveal(is_pow2);
}

/// The block lengths in common use, from 2 to 2048, are valid; 511 and 1, a
/// block without a frame, are not.
pub proof fn lemma_usual_fft_sizes()
    ensures
        valid_fft_size(2),
        valid_fft_size(4),
        valid_fft_size(8),
        valid_fft_size(16),
        valid_fft_size(32),
        valid_fft_size(64),
        valid_fft_size(128),
        valid_fft_size(256),
        valid_fft_size(512),
        valid_fft_size(1024),
        valid_fft_size(2048),
        !valid_fft_size(511),
        !valid_fft_size(1),
        !valid_fft_size(0),
{
    reveal_with_fuel(is_pow2, 12);
}

/// Tells whether `n` is a valid block length.
pub fn is_valid_fft_size(n: usize) -> (ok: bool)
    ensures
        ok == valid_fft_size(n as nat),
{
    if n < 2 {
        return false;
    }
    let mut k: usize = n;
    while k % 2 == 0
        invariant
            k >= 1,
            is_pow2(k as int) == is_pow2(n as int),
        decreases k,
    {
        proof {
            reveal(is_pow2);
        }
        k = k / 2;
    }
    proof {
        reveal(is_pow2);
    }
    k == 1
}

} // verus!
