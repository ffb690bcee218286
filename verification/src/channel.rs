//! The bounded trigger channel: the only coupling between the edge monitor
//! (producer) and the orchestrator (consumer).
//!
//! Enqueue is non-blocking and never fails the producer: when the channel is
//! full the new trigger is discarded and the overflow is counted, so the
//! monitor is never delayed waiting for space. Dequeue hands out the oldest
//! pending trigger. The queue depth never exceeds [`crate::CHANNEL_CAPACITY`].

use vstd::prelude::*;

use crate::CHANNEL_CAPACITY;

verus! {

/// An opaque, payload-free signal: at least one watched input changed level
/// since the last report cycle. Which input changed is deliberately not
/// carried.
#[derive(Clone, Copy, Debug, PartialEq, Eq, Structural)]
pub struct Trigger;

/// Saturating increment, used for the overflow counter: the count sticks at
/// the maximum rather than wrapping.
pub open spec fn sat_inc(x: u64) -> u64 {
    if x < u64::MAX {
        (x + 1) as u64
    } else {
        x
    }
}

/// Whether an enqueue into a channel holding `pending` triggers is accepted.
pub open spec fn send_accepted(pending: nat) -> bool {
    pending < CHANNEL_CAPACITY
}

/// Queue depth after an enqueue attempt into a channel holding `pending`
/// triggers: one more if there was room, unchanged (the trigger is dropped)
/// if not.
pub open spec fn pending_after_send(pending: nat) -> nat {
    if pending < CHANNEL_CAPACITY {
        pending + 1
    } else {
        pending
    }
}

/// Overflow count after an enqueue attempt: unchanged if there was room,
/// bumped if the trigger was dropped.
pub open spec fn overflows_after_send(pending: nat, overflows: u64) -> u64 {
    if pending < CHANNEL_CAPACITY {
        overflows
    } else {
        sat_inc(overflows)
    }
}

/// Bounded FIFO of [`Trigger`]s, depth at most [`crate::CHANNEL_CAPACITY`],
/// with a counter of triggers dropped on overflow.
pub struct TriggerChannel {
    queue: Vec<Trigger>,
    overflows: u64,
}

impl TriggerChannel {
    /// Number of buffered, undelivered triggers.
    pub closed spec fn pending(self) -> nat {
        self.queue@.len()
    }

    /// How many triggers have been dropped because the channel was full.
    pub closed spec fn overflow_count(self) -> u64 {
        self.overflows
    }

    /// The queue depth never exceeds the channel capacity.
    pub open spec fn wf(self) -> bool {
        self.pending() <= CHANNEL_CAPACITY
    }

    pub fn new() -> (c: TriggerChannel)
        ensures
            c.wf(),
            c.pending() == 0,
            c.overflow_count() == 0,
    {
        TriggerChannel { queue: Vec::new(), overflows: 0 }
    }

    /// Non-blocking enqueue. Accepts the trigger iff the channel has room;
    /// on overflow the trigger is discarded and the overflow counter is
    /// bumped. The producer is never blocked and never handed an error to
    /// propagate.
    pub fn try_send(&mut self, t: Trigger) -> (accepted: bool)
        requires
            old(self).wf(),
        ensures
            final(self).wf(),
            accepted == send_accepted(old(self).pending()),
            final(self).pending() == pending_after_send(old(self).pending()),
            final(self).overflow_count() == overflows_after_send(
                old(self).pending(),
                old(self).overflow_count(),
            ),
    {
        if self.queue.len() < CHANNEL_CAPACITY {
            self.queue.push(t);
            true
        } else {
            if self.overflows < u64::MAX {
                self.overflows = self.overflows + 1;
            }
            false
        }
    }

    /// Non-blocking dequeue of the oldest pending trigger, if any.
    pub fn try_recv(&mut self) -> (r: Option<Trigger>)
        requires
            old(self).wf(),
        ensures
            final(self).wf(),
            final(self).overflow_count() == old(self).overflow_count(),
            (r is Some) <==> old(self).pending() > 0,
            old(self).pending() > 0 ==> final(self).pending() == old(self).pending() - 1,
            old(self).pending() == 0 ==> final(self).pending() == 0,
    {
        if self.queue.len() > 0 {
            Some(self.queue.remove(0))
        } else {
            None
        }
    }

    /// Discard every pending trigger, returning how many were dropped. The
    /// orchestrator drains the backlog on entering a new race, so a burst of
    /// queued triggers services exactly one report cycle.
    pub fn drain(&mut self) -> (n: usize)
        requires
            old(self).wf(),
        ensures
            final(self).wf(),
            n == old(self).pending(),
            final(self).pending() == 0,
            final(self).overflow_count() == old(self).overflow_count(),
    {
        let n = self.queue.len();
        self.queue.clear();
        n
    }

    pub fn len(&self) -> (n: usize)
        ensures
            n == self.pending(),
    {
        self.queue.len()
    }

    pub fn overflows(&self) -> (n: u64)
        ensures
            n == self.overflow_count(),
    {
        self.overflows
    }
}

/// A transition arriving at a full channel never blocks the producer: the
/// enqueue is refused outright, the queue depth stays exactly at capacity,
/// and the drop is recorded — the overflow count strictly grows until it
/// saturates.
pub proof fn lemma_full_channel_drops(pending: nat, overflows: u64)
    requires
        pending == CHANNEL_CAPACITY,
    ensures
        !send_accepted(pending),
        pending_after_send(pending) == pending,
        overflows_after_send(pending, overflows) == sat_inc(overflows),
        overflows < u64::MAX ==> overflows_after_send(pending, overflows) > overflows,
{
}

/// An enqueue attempt never pushes the queue depth past the capacity,
/// whatever depth it starts from.
pub proof fn lemma_send_preserves_bound(pending: nat)
    requires
        pending <= CHANNEL_CAPACITY,
    ensures
        pending_after_send(pending) <= CHANNEL_CAPACITY,
{
}

} // verus!
