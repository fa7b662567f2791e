//! Result delivery: how a completed outcome travels back to the caller.
//!
//! Two interchangeable strategies. The poll queue is an unbounded
//! producer/consumer queue the caller drains without blocking. The result
//! slot is a take-once owned box backing the callback path: the completed
//! outcome is boxed, handed across the bridge as an opaque handle, and
//! reclaimed exactly once — a second take is a reported defect, not
//! memory corruption.

use vstd::prelude::*;

verus! {

/// What one poll of the queue yields.
#[derive(Clone, Debug, PartialEq, Eq)]
pub enum Poll<T> {
    /// A ready pair: the correlated session and its payload.
    Ready(i64, T),
    /// Nothing yet — try again later.
    Empty,
    /// Every producer is gone; no more results will ever arrive.
    Closed,
}

/// An unbounded first-in-first-out queue of `(session, payload)` pairs.
/// Producers never block; the consumer polls.
pub struct PollQueue<T> {
    items: Vec<(i64, T)>,
    closed: bool,
    pushed: Ghost<Seq<(i64, T)>>,
    received: Ghost<Seq<(i64, T)>>,
}

impl<T> PollQueue<T> {
    /// Every pair a producer ever enqueued, in order.
    pub closed spec fn pushed(self) -> Seq<(i64, T)> {
        self.pushed@
    }

    /// Every pair the consumer has taken out, in order.
    pub closed spec fn received(self) -> Seq<(i64, T)> {
        self.received@
    }

    /// The pairs still waiting, in arrival order.
    pub closed spec fn waiting(self) -> Seq<(i64, T)> {
        self.items@
    }

    /// Whether every producer has been dropped.
    pub closed spec fn is_closed(self) -> bool {
        self.closed
    }

    pub closed spec fn wf(self) -> bool {
        self.pushed@ == self.received@ + self.items@
    }

    pub fn new() -> (q: PollQueue<T>)
        ensures
            q.wf(),
            q.pushed() == Seq::<(i64, T)>::empty(),
            q.received() == Seq::<(i64, T)>::empty(),
            q.waiting() == Seq::<(i64, T)>::empty(),
            !q.is_closed(),
    {
        let q = PollQueue {
            items: Vec::new(),
            closed: false,
            pushed: Ghost(Seq::empty()),
            received: Ghost(Seq::empty()),
        };
        proof {
            assert(q.pushed@ =~= q.received@ + q.items@);
        }
        q
    }

    /// Enqueues one completed outcome. Never blocks the producing task.
    pub fn push(&mut self, session: i64, payload: T)
        requires
            old(self).wf(),
        ensures
            final(self).wf(),
            final(self).pushed() == old(self).pushed().push((session, payload)),
            final(self).received() == old(self).received(),
            final(self).waiting() == old(self).waiting().push((session, payload)),
            final(self).is_closed() == old(self).is_closed(),
    {
        proof {
            assert(old(self).pushed@.push((session, payload)) =~= old(self).received@ + old(
                self,
            ).items@.push((session, payload)));
        }
        self.items.push((session, payload));
        proof {
            self.pushed@ = self.pushed@.push((session, payload));
        }
    }

    /// Marks the producing side gone: once the backlog is drained, polls
    /// report `Closed` instead of `Empty`.
    pub fn close(&mut self)
        requires
            old(self).wf(),
        ensures
            final(self).wf(),
            final(self).is_closed(),
            final(self).pushed() == old(self).pushed(),
            final(self).received() == old(self).received(),
            final(self).waiting() == old(self).waiting(),
    {
        self.closed = true;
    }

    /// Polls for the next ready pair without blocking: the oldest waiting
    /// pair if there is one, `Empty` while producers may still deliver,
    /// `Closed` once they are gone and the backlog is drained.
    pub fn try_receive(&mut self) -> (p: Poll<T>)
        requires
            old(self).wf(),
        ensures
            final(self).wf(),
            final(self).pushed() == old(self).pushed(),
            final(self).is_closed() == old(self).is_closed(),
            old(self).waiting().len() > 0 ==> {
                &&& p == Poll::Ready(old(self).waiting()[0].0, old(self).waiting()[0].1)
                &&& final(self).received() == old(self).received().push(old(self).waiting()[0])
                &&& final(self).waiting() == old(self).waiting().drop_first()
            },
            old(self).waiting().len() == 0 && !old(self).is_closed() ==> p == Poll::<T>::Empty
                && *final(self) == *old(self),
            old(self).waiting().len() == 0 && old(self).is_closed() ==> p == Poll::<T>::Closed
                && *final(self) == *old(self),
    {
        if self.items.len() == 0 {
            if self.closed {
                return Poll::Closed;
            }
            return Poll::Empty;
        }
        let (session, payload) = self.items.remove(0);
        proof {
            self.received@ = self.received@.push(old(self).items@[0]);
            assert(self.pushed@ =~= self.received@ + self.items@);
        }
        Poll::Ready(session, payload)
    }
}

/// What was received is exactly what was pushed, in order, up to the
/// backlog: delivery neither invents, drops, duplicates nor reorders
/// outcomes.
pub proof fn lemma_received_prefix_of_pushed<T>(q: PollQueue<T>)
    requires
        q.wf(),
    ensures
        q.received().is_prefix_of(q.pushed()),
        q.pushed() == q.received() + q.waiting(),
{
    assert(q.received() =~= q.pushed().subrange(0, q.received().len() as int));
}

/// At-most-one delivery through the poll queue: if no session is enqueued
/// twice, no two received pairs carry the same session.
pub proof fn lemma_queue_at_most_one_per_session<T>(q: PollQueue<T>, i: int, j: int)
    requires
        q.wf(),
        forall|m: int, n: int|
            0 <= m < n < q.pushed().len() ==> (#[trigger] q.pushed()[m]).0 != (
            #[trigger] q.pushed()[n]).0,
        0 <= i < q.received().len(),
        0 <= j < q.received().len(),
        i != j,
    ensures
        q.received()[i].0 != q.received()[j].0,
{
    lemma_received_prefix_of_pushed(q);
    assert(q.received()[i] == q.pushed()[i]);
    assert(q.received()[j] == q.pushed()[j]);
}

/// Why reclaiming a result handle failed.
#[derive(Clone, Copy, Debug, PartialEq, Eq, Structural)]
pub enum SlotDefect {
    /// The handle was already reclaimed once; a second take is a defect
    /// in the embedding host, reported rather than undefined behaviour.
    AlreadyTaken,
}

/// An owned, take-once slot for one completed outcome: the typed
/// replacement for passing a raw boxed address across the bridge.
///
/// The completing task gives the outcome to the slot; the receiving side
/// takes it exactly once. The first take yields the payload; every later
/// take reports a defect.
pub struct ResultSlot<T> {
    value: Option<T>,
}

impl<T> ResultSlot<T> {
    /// The payload still held, if it has not been taken yet.
    pub closed spec fn content(self) -> Option<T> {
        self.value
    }

    /// Whether the payload has already been reclaimed.
    pub open spec fn consumed(self) -> bool {
        self.content() is None
    }

    /// Gives one completed outcome to a fresh slot.
    pub fn give(payload: T) -> (s: ResultSlot<T>)
        ensures
            s.content() == Some(payload),
            !s.consumed(),
    {
        ResultSlot { value: Some(payload) }
    }

    /// Reclaims the payload. Valid exactly once: the first call returns
    /// the payload, every later call reports the defect and yields
    /// nothing.
    pub fn take(&mut self) -> (r: Result<T, SlotDefect>)
        ensures
            final(self).consumed(),
            match old(self).content() {
                Some(payload) => r == Ok::<T, SlotDefect>(payload),
                None => r == Err::<T, SlotDefect>(SlotDefect::AlreadyTaken),
            },
    {
        match self.value.take() {
            Some(payload) => Ok(payload),
            None => Err(SlotDefect::AlreadyTaken),
        }
    }
}

} // verus!
