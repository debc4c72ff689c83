//! The far-end history: the block of the last far-end samples, which slides
//! by one frame whenever a frame arrives.

use vstd::prelude::*;
use crate::block::filled;
use crate::sample::ZERO;

verus! {

/// `n` samples of silence.
pub open spec fn silence(n: nat) -> Seq<u32> {
    Seq::new(n, |i: int| ZERO)
}

/// The history after `frame` has arrived: the oldest samples leave at the
/// front, as many as arrive at the back.
pub open spec fn shifted(history: Seq<u32>, frame: Seq<u32>) -> Seq<u32> {
    history.subrange(frame.len() as int, history.len() as int) + frame
}

/// The last `n` samples of a stream that began with silence.
pub open spec fn latest(supplied: Seq<u32>, n: nat) -> Seq<u32> {
    (silence(n) + supplied).subrange(supplied.len() as int, (supplied.len() + n) as int)
}

/// Before any sample has arrived, the history is silent.
pub proof fn lemma_latest_of_nothing(n: nat)
    ensures
        latest(Seq::empty(), n) == silence(n),
{
    assert(latest(Seq::empty(), n) =~= silence(n));
}

/// Shifting a frame into the history of a stream gives the history of the
/// stream with that frame appended.
pub proof fn lemma_latest_shifted(supplied: Seq<u32>, frame: Seq<u32>, n: nat)
    requires
        frame.len() <= n,
    ensures
        latest(supplied + frame, n) == shifted(latest(supplied, n), frame),
{
    assert(latest(supplied + frame, n) =~= shifted(latest(supplied, n), frame));
}

/// Once two frames have arrived, the history is the frame before followed by
/// the frame that arrived last.
pub proof fn lemma_latest_is_last_two_frames(
    supplied: Seq<u32>,
    before: Seq<u32>,
    last: Seq<u32>,
    n: nat,
)
    requires
        before.len() + last.len() == n,
    ensures
        latest(supplied + before + last, n) == before + last,
{
    assert(latest(supplied + before + last, n) =~= before + last);
}

/// The history buffer, together with the stream that it is the end of.
pub(crate) struct History {
    samples: Vec<u32>,
    supplied: Ghost<Seq<u32>>,
}

impl History {
    /// The samples in the buffer, oldest first.
    pub(crate) closed spec fn samples(&self) -> Seq<u32> {
        self.samples@
    }

    /// Every sample that was ever pushed, oldest first.
    pub(crate) closed spec fn supplied(&self) -> Seq<u32> {
        self.supplied@
    }

    /// A silent history of `n` samples.
    pub(crate) fn new(n: usize) -> (history: History)
        ensures
            history.samples() == silence(n as nat),
            history.supplied() == Seq::<u32>::empty(),
    {
        let samples = filled(ZERO, n);
        assert(samples@ =~= silence(n as nat));
        History { samples, supplied: Ghost(Seq::empty()) }
    }

    /// Slides the history by one frame, in place.
    pub(crate) fn push(&mut self, frame: &Vec<u32>)
        requires
            frame@.len() <= old(self).samples().len(),
        ensures
            final(self).samples() == shifted(old(self).samples(), frame@),
            final(self).supplied() == old(self).supplied() + frame@,
        no_unwind
    {
        let n = self.samples.len();
        let m = frame.len();
        let kept = n - m;
        let ghost before = self.samples@;
        let mut i: usize = 0;
        while i < kept
            invariant
                i <= kept,
                kept + m == n,
                before.len() == n,
                self.samples@.len() == n,
                self.supplied@ == old(self).supplied@,
                forall|j: int| 0 <= j < i ==> self.samples@[j] == before[j + m],
                forall|j: int| i <= j < n ==> self.samples@[j] == before[j],
            decreases kept - i,
        {
            let sample = self.samples[i + m];
            self.samples[i] = sample;
            i += 1;
        }
        let mut k: usize = 0;
        while k < m
            invariant
                k <= m,
                kept + m == n,
                before.len() == n,
                frame@.len() == m,
                self.samples@.len() == n,
                self.supplied@ == old(self).supplied@,
                forall|j: int| 0 <= j < kept ==> self.samples@[j] == before[j + m],
                forall|j: int| 0 <= j < k ==> self.samples@[kept + j] == frame@[j],
            decreases m - k,
        {
            self.samples[kept + k] = frame[k];
            k += 1;
        }
        assert(self.samples@ =~= shifted(before, frame@));
        self.supplied = Ghost(self.supplied@ + frame@);
    }

    /// The samples in the buffer, oldest first.
    pub(crate) fn as_vec(&self) -> (samples: &Vec<u32>)
        ensures
            samples@ == self.samples(),
    {
        &self.samples
    }
}

} // verus!
