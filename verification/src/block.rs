//! How frames are laid out in blocks.
//!
//! A block holds `N` samples and a frame holds half as many. A block that is
//! transformed holds complex samples; a real signal enters it with imaginary
//! part zero. The error frame enters its block behind a frame of zeros, and
//! of the echo block only the second half is used: these two placements are
//! what makes the circular convolution of the transform a linear one.

use vstd::prelude::*;
use crate::sample::{ComplexBits, ZERO};

verus! {

/// A complex block of `n` zeros.
pub open spec fn zero_block(n: nat) -> Seq<ComplexBits> {
    Seq::new(n, |i: int| ComplexBits::zero())
}

/// A real signal as a complex block: every imaginary part is zero.
pub open spec fn real_block(signal: Seq<u32>) -> Seq<ComplexBits> {
    Seq::new(signal.len(), |i: int| ComplexBits::of_real(signal[i]))
}

/// The real parts of a complex block.
pub open spec fn real_parts(block: Seq<ComplexBits>) -> Seq<u32> {
    Seq::new(block.len(), |i: int| block[i].re)
}

/// The second half of a block: the part of the echo estimate that the
/// circular convolution has not aliased.
pub open spec fn second_half(block: Seq<u32>) -> Seq<u32> {
    block.subrange(block.len() as int / 2, block.len() as int)
}

/// The error frame as a complex block of twice its length: a frame of zeros
/// in front, the frame behind it.
pub open spec fn zero_padded(frame: Seq<u32>) -> Seq<ComplexBits> {
    zero_block(frame.len()) + real_block(frame)
}

/// Writes a real signal into a complex block of the same length.
pub(crate) fn fill_real_block(block: &mut Vec<ComplexBits>, signal: &Vec<u32>)
    requires
        old(block)@.len() == signal@.len(),
    ensures
        final(block)@ == real_block(signal@),
    no_unwind
{
    let n = signal.len();
    let mut i: usize = 0;
    while i < n
        invariant
            i <= n,
            signal@.len() == n,
            block@.len() == n,
            forall|j: int| 0 <= j < i ==> block@[j] == ComplexBits::of_real(signal@[j]),
        decreases n - i,
    {
        block[i] = ComplexBits::from_real(signal[i]);
        i += 1;
    }
    assert(block@ =~= real_block(signal@));
}

/// Writes the real parts of a complex block into a signal of the same length.
pub(crate) fn fill_real_parts(signal: &mut Vec<u32>, block: &Vec<ComplexBits>)
    requires
        old(signal)@.len() == block@.len(),
    ensures
        final(signal)@ == real_parts(block@),
    no_unwind
{
    let n = block.len();
    let mut i: usize = 0;
    while i < n
        invariant
            i <= n,
            block@.len() == n,
            signal@.len() == n,
            forall|j: int| 0 <= j < i ==> signal@[j] == block@[j].re,
        decreases n - i,
    {
        signal[i] = block[i].re;
        i += 1;
    }
    assert(signal@ =~= real_parts(block@));
}

/// Writes the error frame, zero-padded in front, into a block of twice its
/// length.
pub(crate) fn fill_zero_padded(block: &mut Vec<ComplexBits>, frame: &Vec<u32>)
    requires
        old(block)@.len() == 2 * frame@.len(),
    ensures
        final(block)@ == zero_padded(frame@),
    no_unwind
{
    let m = frame.len();
    let n = block.len();
    let mut i: usize = 0;
    while i < m
        invariant
            i <= m,
            n == 2 * m,
            frame@.len() == m,
            block@.len() == n,
            forall|j: int| 0 <= j < i ==> block@[j] == ComplexBits::zero(),
            forall|j: int| 0 <= j < i ==> block@[m + j] == ComplexBits::of_real(frame@[j]),
        decreases m - i,
    {
        block[i] = ComplexBits { re: ZERO, im: ZERO };
        block[m + i] = ComplexBits::from_real(frame[i]);
        i += 1;
    }
    assert(block@ =~= zero_padded(frame@));
}

/// Copies the second half of a block.
pub(crate) fn copy_second_half(block: &Vec<u32>) -> (half: Vec<u32>)
    ensures
        half@ == second_half(block@),
{
    let n = block.len();
    let start = n / 2;
    let mut half: Vec<u32> = Vec::with_capacity(n - start);
    let mut i: usize = start;
    while i < n
        invariant
            start <= i <= n,
            block@.len() == n,
            start == n / 2,
            half@.len() == i - start,
            forall|j: int| 0 <= j < i - start ==> half@[j] == block@[start + j],
        decreases n - i,
    {
        half.push(block[i]);
        i += 1;
    }
    assert(half@ =~= second_half(block@));
    half
}

/// A buffer of `n` copies of `value`.
pub(crate) fn filled<T: Copy>(value: T, n: usize) -> (buffer: Vec<T>)
    ensures
        buffer@ == Seq::new(n as nat, |i: int| value),
{
    let mut buffer: Vec<T> = Vec::with_capacity(n);
    let mut i: usize = 0;
    while i < n
        invariant
            i <= n,
            buffer@.len() == i,
            forall|j: int| 0 <= j < i ==> buffer@[j] == value,
        decreases n - i,
    {
        buffer.push(value);
        i += 1;
    }
    assert(buffer@ =~= Seq::new(n as nat, |i: int| value));
    buffer
}

/// Copies a buffer.
pub(crate) fn duplicate<T: Copy>(buffer: &Vec<T>) -> (copy: Vec<T>)
    ensures
        copy@ == buffer@,
{
    let n = buffer.len();
    let mut copy: Vec<T> = Vec::with_capacity(n);
    let mut i: usize = 0;
    while i < n
        invariant
            i <= n,
            buffer@.len() == n,
            copy@.len() == i,
            forall|j: int| 0 <= j < i ==> copy@[j] == buffer@[j],
        decreases n - i,
    {
        copy.push(buffer[i]);
        i += 1;
    }
    assert(copy@ =~= buffer@);
    copy
}

} // verus!
