//! Bounded buffer of recent error samples, for diagnostics and plotting.
//!
//! A history retains at most `HISTORY_CAP` samples. Recording appends at
//! the tail; once the cap is reached the oldest sample is evicted from the
//! head, so the buffer always holds the most recently recorded values in
//! their original order. The ghost sequence of everything ever recorded is
//! carried alongside, so the eviction policy is stated once and for all:
//! the buffer's content is exactly `retained` of that sequence.

use std::collections::VecDeque;
use vstd::prelude::*;

verus! {

/// Greatest number of samples a history retains.
pub const HISTORY_CAP: usize = 1000;

/// The samples a history retains out of everything recorded into it: all
/// of them while they fit under the cap, afterwards the latest
/// `HISTORY_CAP`, in recording order.
pub open spec fn retained(recorded: Seq<i64>) -> Seq<i64> {
    if recorded.len() > HISTORY_CAP as nat {
        recorded.skip(recorded.len() - HISTORY_CAP as nat)
    } else {
        recorded
    }
}

/// A bounded history of error samples.
pub struct ErrorHistory {
    samples: VecDeque<i64>,
    all: Ghost<Seq<i64>>,
}

impl View for ErrorHistory {
    type V = Seq<i64>;

    closed spec fn view(&self) -> Seq<i64> {
        self.samples@
    }
}

impl ErrorHistory {
    /// Every value ever recorded into this history, oldest first.
    pub closed spec fn recorded(&self) -> Seq<i64> {
        self.all@
    }

    /// Validity: the buffer holds exactly the retained suffix of what was
    /// recorded.
    pub open spec fn wf(&self) -> bool {
        self@ == retained(self.recorded())
    }

    /// An empty history.
    pub fn new() -> (h: ErrorHistory)
        ensures
            h.wf(),
            h.recorded() == Seq::<i64>::empty(),
            h@ == Seq::<i64>::empty(),
    {
        ErrorHistory { samples: VecDeque::new(), all: Ghost(Seq::empty()) }
    }

    /// Number of samples currently held; never exceeds `HISTORY_CAP`.
    pub fn len(&self) -> (n: usize)
        ensures
            n == self@.len(),
            self.wf() ==> n <= HISTORY_CAP,
    {
        proof {
            if self.wf() {
                assert(retained(self.recorded()).len() <= HISTORY_CAP as nat);
            }
        }
        self.samples.len()
    }

    /// Appends `value` at the tail, evicting the oldest sample if the
    /// history would otherwise exceed its cap.
    pub fn record(&mut self, value: i64)
        requires
            old(self).wf(),
        ensures
            final(self).wf(),
            final(self).recorded() == old(self).recorded().push(value),
            final(self)@ == retained(old(self).recorded().push(value)),
    {
        proof {
            assert(retained(self.recorded()).len() <= HISTORY_CAP as nat);
        }
        self.samples.push_back(value);
        self.all = Ghost(self.all@.push(value));
        if self.samples.len() > HISTORY_CAP {
            let _ = self.samples.pop_front();
            proof {
                assert(self.samples@ =~= retained(self.all@));
            }
        } else {
            proof {
                assert(self.samples@ =~= retained(self.all@));
            }
        }
    }

    /// A read-only, order-preserving copy of the retained samples, each
    /// paired with its position in the buffer.
    pub fn snapshot(&self) -> (shot: Vec<(usize, i64)>)
        ensures
            shot@.len() == self@.len(),
            forall|j: int| 0 <= j < shot@.len() ==> shot@[j] == (j as usize, self@[j]),
    {
        let mut shot: Vec<(usize, i64)> = Vec::new();
        let n = self.samples.len();
        let mut i: usize = 0;
        while i < n
            invariant
                n == self@.len(),
                i <= n,
                shot@.len() == i as nat,
                forall|j: int| 0 <= j < i ==> shot@[j] == (j as usize, self@[j]),
            decreases n - i,
        {
            shot.push((i, self.samples[i]));
            i = i + 1;
        }
        shot
    }
}

/// Eviction law: whatever has been recorded, the history's content has the
/// length of what was recorded up to the cap, and holds exactly the latest
/// recorded values, in recording order.
pub proof fn lemma_retained(recorded: Seq<i64>)
    ensures
        retained(recorded).len() == if recorded.len() <= HISTORY_CAP as nat {
            recorded.len()
        } else {
            HISTORY_CAP as nat
        },
        forall|j: int|
            0 <= j < retained(recorded).len() ==> retained(recorded)[j] == recorded[recorded.len()
                - retained(recorded).len() + j],
{
}

} // verus!
