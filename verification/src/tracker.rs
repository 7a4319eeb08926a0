//! The Ordered Input Tracker: a cursor construct enforcing strict
//! sequential confirmation among player sessions.
//!
//! The tracker keeps the active cursor, the last-completed cursor and the
//! cursor to stop at.  A round starting at cursor 0 with stop `n - 1`
//! solicits input from each of the `n` players in the order they joined;
//! an unset stop cursor stands for circular, unbounded use.

use vstd::prelude::*;

verus! {

/// Cursor state for one ordered round of per-player input collection.
#[derive(Clone, Copy, PartialEq, Eq, Structural, Debug)]
pub struct OrderedInputTracker {
    /// The player index input is currently solicited from.
    pub index_active: u8,
    /// The player index whose input completed most recently, if any.
    pub index_last: Option<u8>,
    /// The player index to stop after; unset means circular use.
    pub index_stop: Option<u8>,
}

impl OrderedInputTracker {
    /// A completed round: the last confirmed cursor has reached the stop
    /// cursor.
    pub open spec fn complete(self) -> bool {
        self.index_last is Some && self.index_last == self.index_stop
    }

    /// The tracker as a full round over players `0 .. stop` starts: active
    /// cursor 0, nothing completed yet.
    pub open spec fn round_start(stop: u8) -> OrderedInputTracker {
        OrderedInputTracker { index_active: 0, index_last: None, index_stop: Some(stop) }
    }

    /// The tracker after one advance: the active cursor is recorded as
    /// completed and the next cursor becomes active.
    pub open spec fn advanced(self) -> OrderedInputTracker {
        OrderedInputTracker {
            index_active: (self.index_active + 1) as u8,
            index_last: Some(self.index_active),
            index_stop: self.index_stop,
        }
    }

    /// The tracker after `k` advances.
    pub open spec fn advanced_by(self, k: nat) -> OrderedInputTracker
        decreases k,
    {
        if k == 0 {
            self
        } else {
            self.advanced_by((k - 1) as nat).advanced()
        }
    }

    /// Begins a full round over players `0 .. stop`.
    pub fn new_round(stop: u8) -> (r: OrderedInputTracker)
        ensures
            r == OrderedInputTracker::round_start(stop),
    {
        OrderedInputTracker { index_active: 0, index_last: None, index_stop: Some(stop) }
    }

    /// Whether the round is complete.
    pub fn is_complete(&self) -> (r: bool)
        ensures
            r == self.complete(),
    {
        match self.index_last {
            Some(last) => match self.index_stop {
                Some(stop) => last == stop,
                None => false,
            },
            None => false,
        }
    }

    /// Records the active cursor as completed and moves to the next one.
    /// The caller must have seen every player session in synchronized-wait
    /// before advancing.
    pub fn advance(&mut self)
        requires
            old(self).index_active < 255,
        ensures
            *final(self) == old(self).advanced(),
    {
        self.index_last = Some(self.index_active);
        self.index_active = self.index_active + 1;
    }
}

/// One completed round over players `0 .. n - 1` visits the cursors
/// `0 .. n - 1` strictly increasing, each exactly once: after `k` of the
/// `n` advances the active cursor is exactly `k`, the round is complete
/// after exactly `n` advances and not before, and the cursor solicited
/// after `k` advances (for `k < n`) is `k` itself, so each cursor is
/// visited once and in increasing order.
pub proof fn lemma_ordered_round(n: u8, k: nat)
    requires
        1 <= n,
        k <= n,
    ensures
        OrderedInputTracker::round_start((n - 1) as u8).advanced_by(k).index_active == k,
        OrderedInputTracker::round_start((n - 1) as u8).advanced_by(k).index_stop == Some(
            (n - 1) as u8,
        ),
        OrderedInputTracker::round_start((n - 1) as u8).advanced_by(k).index_last == (if k == 0 {
            Option::<u8>::None
        } else {
            Some((k - 1) as u8)
        }),
        OrderedInputTracker::round_start((n - 1) as u8).advanced_by(k).complete() <==> k == n,
    decreases k,
{
    if k > 0 {
        lemma_ordered_round(n, (k - 1) as nat);
    }
}

} // verus!
