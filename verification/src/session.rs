//! Session allocation: unique correlation identifiers for in-flight
//! operations.

use vstd::prelude::*;

verus! {

/// Issues correlation identifiers, starting at 1 and counting up.
///
/// Identifier 0 is reserved: it means "no correlation requested"
/// (fire-and-forget) and is only ever supplied explicitly by a caller,
/// never produced by the allocator. The counter wraps only on overflow
/// of the underlying 64-bit integer, skipping 0.
pub struct SessionAllocator {
    next: i64,
    log: Ghost<Seq<i64>>,
    wrapped: Ghost<bool>,
}

/// The identifier that follows `n`: counts upward, wraps at the top of
/// the 64-bit range, and skips the reserved value 0.
pub open spec fn session_successor(n: i64) -> i64 {
    if n == i64::MAX {
        i64::MIN
    } else if n == -1i64 {
        1
    } else {
        (n + 1) as i64
    }
}

impl SessionAllocator {
    /// All identifiers issued so far, in order.
    pub closed spec fn issued(self) -> Seq<i64> {
        self.log@
    }

    /// The identifier the next call will return.
    pub closed spec fn upcoming(self) -> i64 {
        self.next
    }

    /// Whether the counter has ever wrapped past the top of its range.
    pub closed spec fn has_wrapped(self) -> bool {
        self.wrapped@
    }

    pub closed spec fn wf(self) -> bool {
        &&& self.next != 0
        &&& (forall|i: int| 0 <= i < self.log@.len() ==> #[trigger] self.log@[i] != 0)
        &&& (!self.wrapped@ ==> {
            &&& 1 <= self.next
            &&& (forall|i: int| 0 <= i < self.log@.len() ==> 1 <= #[trigger] self.log@[i]
                < self.next)
            &&& (forall|i: int, j: int|
                0 <= i < j < self.log@.len() ==> self.log@[i] < self.log@[j])
        })
    }

    pub fn new() -> (a: SessionAllocator)
        ensures
            a.wf(),
            a.issued() == Seq::<i64>::empty(),
            !a.has_wrapped(),
            a.upcoming() == 1,
    {
        SessionAllocator { next: 1, log: Ghost(Seq::empty()), wrapped: Ghost(false) }
    }

    /// Hands out the next correlation identifier. Never returns 0.
    pub fn next_session(&mut self) -> (s: i64)
        requires
            old(self).wf(),
        ensures
            final(self).wf(),
            s != 0,
            s == old(self).upcoming(),
            final(self).upcoming() == session_successor(s),
            final(self).issued() == old(self).issued().push(s),
            final(self).has_wrapped() == (old(self).has_wrapped() || s == i64::MAX),
            !old(self).has_wrapped() ==> 1 <= s,
    {
        let s = self.next;
        if self.next == i64::MAX {
            self.next = i64::MIN;
            proof {
                self.wrapped@ = true;
            }
        } else if self.next == -1i64 {
            self.next = 1;
        } else {
            self.next = self.next + 1;
        }
        proof {
            self.log@ = self.log@.push(s);
        }
        s
    }
}

/// Uniqueness law: over any run in which the allocator has not wrapped,
/// the issued identifiers are pairwise distinct — no two calls, however
/// interleaved, return the same value.
pub proof fn lemma_sessions_pairwise_distinct(a: SessionAllocator, i: int, j: int)
    requires
        a.wf(),
        !a.has_wrapped(),
        0 <= i < a.issued().len(),
        0 <= j < a.issued().len(),
        i != j,
    ensures
        a.issued()[i] != a.issued()[j],
{
}

} // verus!
