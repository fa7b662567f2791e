//! The database connection actor: a long-lived consumer of one operation
//! queue, exclusively owning one pooled connection.
//!
//! The actor is modelled as an explicit state machine. The embedding host
//! runs the loop: it asks for the next dispatch, executes the current
//! query against the real connection, and reports the verdict back; every
//! decision — what to deliver, when to retry, when to terminate — is made
//! here, under contract.
//!
//! The defining rule is the differentiated retry policy: an explicit
//! caller query (correlation id not 0) that fails is reported once and
//! never re-attempted, while a keepalive probe (correlation id 0) that
//! fails is retried after a fixed backoff, indefinitely, and never
//! surfaces an outcome.

use vstd::prelude::*;
use crate::outcome::{Cell, DbError, DbErrorKind, DbOutcome};
use crate::params::Param;
use crate::text::str_has_prefix;

verus! {

/// One SQL statement with its bound parameters.
#[derive(Clone, Debug, PartialEq, Eq)]
pub struct DbQuery {
    pub sql: String,
    pub params: Vec<Param>,
}

/// An operation submitted to a connection actor's queue.
#[derive(Clone, Debug, PartialEq, Eq)]
pub enum Operation {
    Query { session: i64, query: DbQuery },
    Close,
}

/// How many operations an actor's queue holds before submissions are
/// refused with a backpressure error instead of blocking the submitter.
pub const QUEUE_CAPACITY: usize = 100;

/// The fixed backoff, in seconds, between retries of a failed keepalive
/// probe.
pub const RETRY_BACKOFF_SECS: u64 = 1;

/// Why a submission was refused.
#[derive(Clone, Copy, Debug, PartialEq, Eq, Structural)]
pub enum SubmitError {
    /// The actor has terminated; no operation will ever be accepted again.
    Closed,
    /// The queue is at capacity; backpressure, not a hang.
    Full,
}

/// What the host should do next with this actor.
#[derive(Clone, Copy, Debug, PartialEq, Eq, Structural)]
pub enum Dispatch {
    /// Execute the current query (see `current_query`) against the held
    /// connection and report the verdict through `on_exec_result`.
    Execute { session: i64 },
    /// The queue is empty; wait for a submission.
    Idle,
    /// The actor has terminated: release the connection and stop.
    Finished,
}

/// The actor's decision after one execution attempt.
#[derive(Clone, Debug, PartialEq, Eq)]
pub enum ExecStep {
    /// The operation is settled. `delivery` is the one outcome to hand to
    /// the delivery channel, or nothing when the query was a keepalive
    /// probe (correlation id 0, no subscriber). `log_recovery` asks for a
    /// recovery log event after a failure streak ended in success.
    Settled { delivery: Option<(i64, DbOutcome)>, log_recovery: bool },
    /// A keepalive probe failed: sleep `backoff_secs`, then execute the
    /// same query again. `log_error` asks for an elevated log event (set
    /// from the second failure of a streak on).
    Retry { backoff_secs: u64, log_error: bool },
}

/// The sessions of the query operations in `s`, in order (0 included).
pub open spec fn sessions_of(s: Seq<Operation>) -> Seq<i64>
    decreases s.len(),
{
    if s.len() == 0 {
        Seq::empty()
    } else {
        let rest = sessions_of(s.drop_last());
        match s.last() {
            Operation::Query { session, query } => rest.push(session),
            Operation::Close => rest,
        }
    }
}

/// The sessions owed a delivery among the operations of `s`: one for each
/// query with a nonzero correlation id, in order. Keepalive probes
/// (session 0) and close operations are owed nothing.
pub open spec fn owed_sessions_of(s: Seq<Operation>) -> Seq<i64>
    decreases s.len(),
{
    if s.len() == 0 {
        Seq::empty()
    } else {
        let rest = owed_sessions_of(s.drop_last());
        match s.last() {
            Operation::Query { session, query } => if session != 0 {
                rest.push(session)
            } else {
                rest
            },
            Operation::Close => rest,
        }
    }
}

/// No nonzero session occurs twice in `s`.
pub open spec fn nonzero_sessions_distinct(s: Seq<i64>) -> bool {
    forall|i: int, j: int| 0 <= i < j < s.len() ==> s[i] != s[j] || s[i] == 0
}

/// The query operations of `s`, in order, close operations left out.
pub open spec fn query_ops_of(s: Seq<Operation>) -> Seq<Operation>
    decreases s.len(),
{
    if s.len() == 0 {
        Seq::empty()
    } else {
        let rest = query_ops_of(s.drop_last());
        match s.last() {
            Operation::Query { session, query } => rest.push(s.last()),
            Operation::Close => rest,
        }
    }
}

/// Taking operations out in front order and submitting at the back keeps
/// every projection a homomorphism over concatenation.
pub proof fn lemma_projections_concat(a: Seq<Operation>, b: Seq<Operation>)
    ensures
        sessions_of(a + b) == sessions_of(a) + sessions_of(b),
        owed_sessions_of(a + b) == owed_sessions_of(a) + owed_sessions_of(b),
        query_ops_of(a + b) == query_ops_of(a) + query_ops_of(b),
    decreases b.len(),
{
    if b.len() == 0 {
        assert(a + b =~= a);
        assert(sessions_of(a) + sessions_of(b) =~= sessions_of(a));
        assert(owed_sessions_of(a) + owed_sessions_of(b) =~= owed_sessions_of(a));
        assert(query_ops_of(a) + query_ops_of(b) =~= query_ops_of(a));
    } else {
        let b0 = b.drop_last();
        lemma_projections_concat(a, b0);
        assert((a + b).drop_last() =~= a + b0);
        assert((a + b).last() == b.last());
        match b.last() {
            Operation::Query { session, query } => {
                assert(sessions_of(a + b) =~= sessions_of(a) + sessions_of(b));
                if session != 0 {
                    assert(owed_sessions_of(a + b) =~= owed_sessions_of(a) + owed_sessions_of(b));
                } else {
                    assert(owed_sessions_of(a + b) =~= owed_sessions_of(a) + owed_sessions_of(b));
                }
                assert(query_ops_of(a + b) =~= query_ops_of(a) + query_ops_of(b));
            },
            Operation::Close => {
                assert(sessions_of(a + b) =~= sessions_of(a) + sessions_of(b));
                assert(owed_sessions_of(a + b) =~= owed_sessions_of(a) + owed_sessions_of(b));
                assert(query_ops_of(a + b) =~= query_ops_of(a) + query_ops_of(b));
            },
        }
    }
}

/// Every owed session comes from a query of `s`, and if no nonzero
/// session is submitted twice, no session is owed twice.
proof fn lemma_owed_distinct(s: Seq<Operation>)
    requires
        nonzero_sessions_distinct(sessions_of(s)),
    ensures
        forall|x: i64|
            owed_sessions_of(s).contains(x) ==> sessions_of(s).contains(x) && x != 0,
        forall|i: int, j: int|
            0 <= i < j < owed_sessions_of(s).len() ==> owed_sessions_of(s)[i]
                != owed_sessions_of(s)[j],
    decreases s.len(),
{
    if s.len() == 0 {
    } else {
        let s0 = s.drop_last();
        assert(forall|i: int|
            0 <= i < sessions_of(s0).len() ==> sessions_of(s0)[i] == sessions_of(s)[i]);
        assert(nonzero_sessions_distinct(sessions_of(s0)));
        lemma_owed_distinct(s0);
        match s.last() {
            Operation::Query { session, query } => {
                assert(sessions_of(s) == sessions_of(s0).push(session));
                assert forall|x: i64|
                    sessions_of(s0).contains(x) implies sessions_of(s).contains(x) by {
                    let k = choose|k: int|
                        0 <= k < sessions_of(s0).len() && sessions_of(s0)[k] == x;
                    assert(sessions_of(s)[k] == x);
                }
                assert(sessions_of(s).contains(session)) by {
                    assert(sessions_of(s)[sessions_of(s).len() - 1] == session);
                }
                if session != 0 {
                    let owed0 = owed_sessions_of(s0);
                    assert(owed_sessions_of(s) == owed0.push(session));
                    assert(!owed0.contains(session)) by {
                        if owed0.contains(session) {
                            let m = choose|m: int|
                                0 <= m < sessions_of(s0).len() && sessions_of(s0)[m] == session;
                            assert(sessions_of(s)[m] == session);
                            assert(sessions_of(s)[sessions_of(s).len() - 1] == session);
                        }
                    }
                    assert forall|x: i64|
                        owed_sessions_of(s).contains(x) implies sessions_of(s).contains(x) && x
                        != 0 by {
                        let k = choose|k: int|
                            0 <= k < owed_sessions_of(s).len() && owed_sessions_of(s)[k] == x;
                        if k < owed0.len() {
                            assert(owed0.contains(x)) by {
                                assert(owed0[k] == x);
                            }
                        } else {
                            assert(x == session);
                        }
                    }
                } else {
                    assert(owed_sessions_of(s) == owed_sessions_of(s0));
                    assert forall|x: i64|
                        owed_sessions_of(s).contains(x) implies sessions_of(s).contains(x) && x
                        != 0 by {
                        assert(owed_sessions_of(s0).contains(x));
                    }
                }
            },
            Operation::Close => {
                assert(sessions_of(s) == sessions_of(s0));
                assert(owed_sessions_of(s) == owed_sessions_of(s0));
            },
        }
    }
}

proof fn lemma_owed_push(
    settled0: Seq<Operation>,
    delivered0: Seq<(i64, DbOutcome)>,
    session: i64,
    query: DbQuery,
    outcome: DbOutcome,
)
    requires
        delivered0.map_values(|d: (i64, DbOutcome)| d.0) == owed_sessions_of(settled0),
    ensures
        session != 0 ==> delivered0.push((session, outcome)).map_values(
            |d: (i64, DbOutcome)| d.0,
        ) == owed_sessions_of(settled0.push(Operation::Query { session, query })),
        session == 0 ==> delivered0.map_values(|d: (i64, DbOutcome)| d.0) == owed_sessions_of(
            settled0.push(Operation::Query { session, query }),
        ),
{
    let s1 = settled0.push(Operation::Query { session, query });
    assert(s1.drop_last() =~= settled0);
    if session != 0 {
        assert(delivered0.push((session, outcome)).map_values(|d: (i64, DbOutcome)| d.0)
            =~= owed_sessions_of(settled0).push(session));
    }
}

spec fn executing_as_seq(e: Option<(i64, DbQuery)>) -> Seq<Operation> {
    match e {
        Some(p) => seq![Operation::Query { session: p.0, query: p.1 }],
        None => Seq::empty(),
    }
}

/// The connection actor. `Running` and `Terminated` are the two states;
/// the transition to `Terminated` happens on consuming a close operation
/// or when the host reports that every submitter is gone.
pub struct ConnectionActor {
    running: bool,
    failed_streak: u64,
    queue: Vec<Operation>,
    executing: Option<(i64, DbQuery)>,
    accepted: Ghost<Seq<Operation>>,
    taken: Ghost<Seq<Operation>>,
    settled: Ghost<Seq<Operation>>,
    delivered: Ghost<Seq<(i64, DbOutcome)>>,
}

impl ConnectionActor {
    /// Every operation ever accepted into the queue, in submission order.
    pub closed spec fn accepted(self) -> Seq<Operation> {
        self.accepted@
    }

    /// The operations consumed from the queue so far, in order.
    pub closed spec fn taken(self) -> Seq<Operation> {
        self.taken@
    }

    /// The operations fully handled so far, in order.
    pub closed spec fn settled(self) -> Seq<Operation> {
        self.settled@
    }

    /// Every `(session, outcome)` pair handed to the delivery channel so
    /// far, in order.
    pub closed spec fn delivered(self) -> Seq<(i64, DbOutcome)> {
        self.delivered@
    }

    /// The operations still waiting in the queue.
    pub closed spec fn pending(self) -> Seq<Operation> {
        self.queue@
    }

    /// Whether the actor is in its running state.
    pub closed spec fn is_running(self) -> bool {
        self.running
    }

    /// The query currently under execution, if any.
    pub closed spec fn executing_now(self) -> Option<(i64, DbQuery)> {
        self.executing
    }

    /// How many consecutive failures the current keepalive probe has seen.
    pub closed spec fn streak(self) -> u64 {
        self.failed_streak
    }

    pub closed spec fn wf(self) -> bool {
        &&& self.accepted@ == self.taken@ + self.queue@
        &&& self.taken@ == self.settled@ + executing_as_seq(self.executing)
        &&& self.delivered@.map_values(|d: (i64, DbOutcome)| d.0) == owed_sessions_of(
            self.settled@,
        )
        &&& (!self.running ==> self.executing is None)
        &&& self.queue@.len() <= QUEUE_CAPACITY
    }

    pub fn new() -> (a: ConnectionActor)
        ensures
            a.wf(),
            a.is_running(),
            a.accepted() == Seq::<Operation>::empty(),
            a.taken() == Seq::<Operation>::empty(),
            a.settled() == Seq::<Operation>::empty(),
            a.delivered() == Seq::<(i64, DbOutcome)>::empty(),
            a.pending() == Seq::<Operation>::empty(),
            a.executing_now() is None,
            a.streak() == 0,
    {
        let a = ConnectionActor {
            running: true,
            failed_streak: 0,
            queue: Vec::new(),
            executing: None,
            accepted: Ghost(Seq::empty()),
            taken: Ghost(Seq::empty()),
            settled: Ghost(Seq::empty()),
            delivered: Ghost(Seq::empty()),
        };
        proof {
            assert(a.accepted@ =~= a.taken@ + a.queue@);
            assert(a.taken@ =~= a.settled@ + executing_as_seq(a.executing));
            assert(a.delivered@.map_values(|d: (i64, DbOutcome)| d.0) =~= owed_sessions_of(
                a.settled@,
            ));
        }
        a
    }

    /// Whether the actor is still running, as the host observes it.
    pub fn running(&self) -> (b: bool)
        ensures
            b == self.is_running(),
    {
        self.running
    }

    /// How many operations wait in the queue.
    pub fn queue_len(&self) -> (n: usize)
        ensures
            n == self.pending().len(),
    {
        self.queue.len()
    }

    /// Submits one operation. Exact acceptance rule: refused with
    /// `Closed` once the actor has terminated, refused with `Full` at
    /// capacity, accepted and queued otherwise.
    pub fn submit(&mut self, op: Operation) -> (r: Result<(), SubmitError>)
        requires
            old(self).wf(),
        ensures
            final(self).wf(),
            final(self).is_running() == old(self).is_running(),
            final(self).taken() == old(self).taken(),
            final(self).settled() == old(self).settled(),
            final(self).delivered() == old(self).delivered(),
            final(self).executing_now() == old(self).executing_now(),
            final(self).streak() == old(self).streak(),
            !old(self).is_running() ==> {
                &&& r == Err::<(), SubmitError>(SubmitError::Closed)
                &&& final(self).accepted() == old(self).accepted()
                &&& final(self).pending() == old(self).pending()
            },
            old(self).is_running() && old(self).pending().len() >= QUEUE_CAPACITY ==> {
                &&& r == Err::<(), SubmitError>(SubmitError::Full)
                &&& final(self).accepted() == old(self).accepted()
                &&& final(self).pending() == old(self).pending()
            },
            old(self).is_running() && old(self).pending().len() < QUEUE_CAPACITY ==> {
                &&& r == Ok::<(), SubmitError>(())
                &&& final(self).accepted() == old(self).accepted().push(op)
                &&& final(self).pending() == old(self).pending().push(op)
            },
    {
        if !self.running {
            return Err(SubmitError::Closed);
        }
        if self.queue.len() >= QUEUE_CAPACITY {
            return Err(SubmitError::Full);
        }
        proof {
            assert(old(self).accepted@.push(op) =~= old(self).taken@ + old(self).queue@.push(op));
        }
        self.queue.push(op);
        proof {
            self.accepted@ = self.accepted@.push(op);
        }
        Ok(())
    }

    /// Takes the next operation from the queue, if any, and decides what
    /// the host does with it: terminate on a close operation, begin
    /// executing a query, or wait.
    pub fn next_dispatch(&mut self) -> (d: Dispatch)
        requires
            old(self).wf(),
            old(self).executing_now() is None,
        ensures
            final(self).wf(),
            final(self).accepted() == old(self).accepted(),
            final(self).delivered() == old(self).delivered(),
            !old(self).is_running() ==> d == Dispatch::Finished && *final(self) == *old(self),
            old(self).is_running() && old(self).pending().len() == 0 ==> d == Dispatch::Idle
                && *final(self) == *old(self),
            old(self).is_running() && old(self).pending().len() > 0 ==> {
                &&& final(self).pending() == old(self).pending().drop_first()
                &&& final(self).taken() == old(self).taken().push(old(self).pending()[0])
                &&& match old(self).pending()[0] {
                    Operation::Close => {
                        &&& d == Dispatch::Finished
                        &&& !final(self).is_running()
                        &&& final(self).settled() == old(self).settled().push(
                            old(self).pending()[0],
                        )
                        &&& final(self).executing_now() is None
                    },
                    Operation::Query { session, query } => {
                        &&& d == Dispatch::Execute { session }
                        &&& final(self).is_running()
                        &&& final(self).settled() == old(self).settled()
                        &&& final(self).executing_now() == Some((session, query))
                        &&& final(self).streak() == 0
                    },
                }
            },
    {
        if !self.running {
            return Dispatch::Finished;
        }
        if self.queue.len() == 0 {
            return Dispatch::Idle;
        }
        let op = self.queue.remove(0);
        proof {
            self.taken@ = self.taken@.push(op);
            assert(old(self).queue@ =~= seq![op] + self.queue@);
            assert(self.accepted@ =~= self.taken@ + self.queue@);
        }
        match op {
            Operation::Close => {
                self.running = false;
                self.executing = None;
                proof {
                    self.settled@ = self.settled@.push(Operation::Close);
                    assert(self.taken@ =~= self.settled@ + executing_as_seq(self.executing));
                    assert(owed_sessions_of(self.settled@) == owed_sessions_of(
                        old(self).settled@,
                    )) by {
                        assert(self.settled@.drop_last() =~= old(self).settled@);
                    }
                }
                Dispatch::Finished
            },
            Operation::Query { session, query } => {
                self.failed_streak = 0;
                self.executing = Some((session, query));
                proof {
                    assert(self.taken@ =~= self.settled@ + executing_as_seq(self.executing));
                }
                Dispatch::Execute { session }
            },
        }
    }

    /// The query the host must execute now.
    pub fn current_query(&self) -> (q: &DbQuery)
        requires
            self.wf(),
            self.executing_now() is Some,
        ensures
            *q == self.executing_now()->Some_0.1,
    {
        match &self.executing {
            Some(p) => &p.1,
            None => unreached(),
        }
    }

    /// Reports the verdict of one execution attempt of the current query
    /// and applies the retry policy.
    ///
    /// Success settles the operation: the outcome is delivered exactly
    /// once if the correlation id is nonzero, discarded if it is 0, and a
    /// recovery log event is requested when a failure streak just ended.
    /// Failure of an explicit query (nonzero id) settles it with exactly
    /// one error outcome and no re-attempt. Failure of a keepalive probe
    /// (id 0) delivers nothing: the same query stays current, the streak
    /// grows, and the host is told to back off and retry.
    pub fn on_exec_result(&mut self, result: Result<Vec<Vec<Cell>>, DbError>) -> (step: ExecStep)
        requires
            old(self).wf(),
            old(self).executing_now() is Some,
        ensures
            final(self).wf(),
            final(self).accepted() == old(self).accepted(),
            final(self).taken() == old(self).taken(),
            final(self).pending() == old(self).pending(),
            final(self).is_running(),
            ({
                let session = old(self).executing_now()->Some_0.0;
                let query = old(self).executing_now()->Some_0.1;
                match result {
                    Ok(rows) => {
                        &&& step == ExecStep::Settled {
                            delivery: if session != 0 {
                                Some((session, DbOutcome::Rows(rows)))
                            } else {
                                None
                            },
                            log_recovery: old(self).streak() > 0,
                        }
                        &&& final(self).executing_now() is None
                        &&& final(self).settled() == old(self).settled().push(
                            Operation::Query { session, query },
                        )
                        &&& final(self).delivered() == if session != 0 {
                            old(self).delivered().push((session, DbOutcome::Rows(rows)))
                        } else {
                            old(self).delivered()
                        }
                        &&& final(self).streak() == 0
                    },
                    Err(e) => if session != 0 {
                        &&& step == ExecStep::Settled {
                            delivery: Some((session, DbOutcome::Failure(e))),
                            log_recovery: false,
                        }
                        &&& final(self).executing_now() is None
                        &&& final(self).settled() == old(self).settled().push(
                            Operation::Query { session, query },
                        )
                        &&& final(self).delivered() == old(self).delivered().push(
                            (session, DbOutcome::Failure(e)),
                        )
                        &&& final(self).streak() == 0
                    } else {
                        &&& step == ExecStep::Retry {
                            backoff_secs: RETRY_BACKOFF_SECS,
                            log_error: old(self).streak() > 0,
                        }
                        &&& final(self).executing_now() == old(self).executing_now()
                        &&& final(self).settled() == old(self).settled()
                        &&& final(self).delivered() == old(self).delivered()
                        &&& final(self).streak() == if old(self).streak() < u64::MAX {
                            old(self).streak() + 1
                        } else {
                            old(self).streak() as int
                        }
                    },
                }
            }),
    {
        let ghost session_g = self.executing->Some_0.0;
        let ghost query_g = self.executing->Some_0.1;
        match result {
            Ok(rows) => {
                let was_streak = self.failed_streak > 0;
                self.failed_streak = 0;
                let cur = self.take_current();
                let (session, _query) = cur;
                proof {
                    self.settled@ = self.settled@.push(
                        Operation::Query { session: session_g, query: query_g },
                    );
                    assert(self.taken@ =~= self.settled@ + executing_as_seq(self.executing));
                }
                if session != 0 {
                    proof {
                        lemma_owed_push(
                            old(self).settled@,
                            old(self).delivered@,
                            session_g,
                            query_g,
                            DbOutcome::Rows(rows),
                        );
                        self.delivered@ = self.delivered@.push(
                            (session_g, DbOutcome::Rows(rows)),
                        );
                    }
                    ExecStep::Settled {
                        delivery: Some((session, DbOutcome::Rows(rows))),
                        log_recovery: was_streak,
                    }
                } else {
                    proof {
                        lemma_owed_push(
                            old(self).settled@,
                            old(self).delivered@,
                            session_g,
                            query_g,
                            DbOutcome::Rows(rows),
                        );
                    }
                    ExecStep::Settled { delivery: None, log_recovery: was_streak }
                }
            },
            Err(e) => {
                let session = match &self.executing {
                    Some(p) => p.0,
                    None => unreached(),
                };
                if session != 0 {
                    self.failed_streak = 0;
                    let _ = self.take_current();
                    proof {
                        self.settled@ = self.settled@.push(
                            Operation::Query { session: session_g, query: query_g },
                        );
                        assert(self.taken@ =~= self.settled@ + executing_as_seq(self.executing));
                        lemma_owed_push(
                            old(self).settled@,
                            old(self).delivered@,
                            session_g,
                            query_g,
                            DbOutcome::Failure(e),
                        );
                        self.delivered@ = self.delivered@.push(
                            (session_g, DbOutcome::Failure(e)),
                        );
                    }
                    ExecStep::Settled {
                        delivery: Some((session, DbOutcome::Failure(e))),
                        log_recovery: false,
                    }
                } else {
                    let was_streak = self.failed_streak > 0;
                    if self.failed_streak < u64::MAX {
                        self.failed_streak = self.failed_streak + 1;
                    }
                    ExecStep::Retry { backoff_secs: RETRY_BACKOFF_SECS, log_error: was_streak }
                }
            },
        }
    }

    fn take_current(&mut self) -> (cur: (i64, DbQuery))
        requires
            old(self).executing_now() is Some,
        ensures
            cur == old(self).executing_now()->Some_0,
            final(self).executing_now() is None,
            final(self).running == old(self).running,
            final(self).failed_streak == old(self).failed_streak,
            final(self).queue == old(self).queue,
            final(self).accepted == old(self).accepted,
            final(self).taken == old(self).taken,
            final(self).settled == old(self).settled,
            final(self).delivered == old(self).delivered,
    {
        match self.executing.take() {
            Some(p) => p,
            None => unreached(),
        }
    }

    /// One owed delivery per settled explicit query: the sessions handed
    /// to the delivery channel are exactly the nonzero correlation ids of
    /// the settled query operations, in order — no outcome is delivered
    /// twice for one settled operation and none for a keepalive probe.
    pub proof fn lemma_owed_deliveries(self)
        requires
            self.wf(),
        ensures
            self.delivered().map_values(|d: (i64, DbOutcome)| d.0) == owed_sessions_of(
                self.settled(),
            ),
    {
    }

    /// The host reports that every submitter is gone and the queue is
    /// drained: the actor terminates.
    pub fn on_input_closed(&mut self)
        requires
            old(self).wf(),
            old(self).executing_now() is None,
            old(self).pending().len() == 0,
        ensures
            final(self).wf(),
            !final(self).is_running(),
            final(self).accepted() == old(self).accepted(),
            final(self).taken() == old(self).taken(),
            final(self).settled() == old(self).settled(),
            final(self).delivered() == old(self).delivered(),
            final(self).pending() == old(self).pending(),
    {
        self.running = false;
        self.executing = None;
    }
}

/// Ordering law: operations leave the queue in exactly the order they
/// were submitted — what has been taken is a prefix of what was
/// accepted, what has settled is a prefix of what was taken, and the
/// queries begun follow the submission order of the accepted queries.
pub proof fn lemma_actor_ordering(a: ConnectionActor)
    requires
        a.wf(),
    ensures
        a.taken() == a.accepted().take(a.taken().len() as int),
        a.settled() == a.taken().take(a.settled().len() as int),
        a.settled().len() <= a.taken().len() <= a.accepted().len(),
        query_ops_of(a.taken()).is_prefix_of(query_ops_of(a.accepted())),
{
    assert(a.taken() =~= a.accepted().take(a.taken().len() as int));
    assert(a.settled() =~= a.taken().take(a.settled().len() as int));
    lemma_projections_concat(a.taken(), a.pending());
    assert(query_ops_of(a.taken()).is_prefix_of(
        query_ops_of(a.taken()) + query_ops_of(a.pending()),
    ));
}

/// At-most-one delivery: if no nonzero session is submitted twice to an
/// actor, no two delivered outcomes carry the same session — every
/// explicit query receives its outcome exactly once, and keepalive
/// probes receive none.
pub proof fn lemma_at_most_one_delivery(a: ConnectionActor, i: int, j: int)
    requires
        a.wf(),
        nonzero_sessions_distinct(sessions_of(a.accepted())),
        0 <= i < a.delivered().len(),
        0 <= j < a.delivered().len(),
        i != j,
    ensures
        a.delivered()[i].0 != a.delivered()[j].0,
{
    let rest = executing_as_seq(a.executing_now()) + a.pending();
    assert(a.accepted() =~= a.settled() + rest);
    lemma_projections_concat(a.settled(), rest);
    assert(forall|k: int|
        0 <= k < sessions_of(a.settled()).len() ==> sessions_of(a.settled())[k] == sessions_of(
            a.accepted(),
        )[k]);
    assert(nonzero_sessions_distinct(sessions_of(a.settled())));
    lemma_owed_distinct(a.settled());
    a.lemma_owed_deliveries();
    let owed = owed_sessions_of(a.settled());
    assert(a.delivered()[i].0 == owed[i]);
    assert(a.delivered()[j].0 == owed[j]);
}

/// The database families a connection URL may name.
#[derive(Clone, Copy, Debug, PartialEq, Eq, Structural)]
pub enum DbScheme {
    MySql,
    Postgres,
    Sqlite,
}

/// The family a connection URL belongs to, by its scheme prefix.
pub open spec fn scheme_spec(url: Seq<char>) -> Option<DbScheme> {
    if "mysql://"@.is_prefix_of(url) {
        Some(DbScheme::MySql)
    } else if "postgres://"@.is_prefix_of(url) {
        Some(DbScheme::Postgres)
    } else if "sqlite://"@.is_prefix_of(url) {
        Some(DbScheme::Sqlite)
    } else {
        None
    }
}

/// Classifies a connection URL by its scheme prefix; every other scheme
/// is refused as an unsupported database type before any connect attempt.
pub fn classify_db_url(url: &str) -> (r: Result<DbScheme, DbError>)
    ensures
        match scheme_spec(url@) {
            Some(s) => r == Ok::<DbScheme, DbError>(s),
            None => {
                &&& r is Err
                &&& r->Err_0.kind == DbErrorKind::Other
                &&& r->Err_0.message@ == "Unsupported database type"@
            },
        },
{
    if str_has_prefix(url, "mysql://") {
        Ok(DbScheme::MySql)
    } else if str_has_prefix(url, "postgres://") {
        Ok(DbScheme::Postgres)
    } else if str_has_prefix(url, "sqlite://") {
        Ok(DbScheme::Sqlite)
    } else {
        Err(
            DbError {
                kind: DbErrorKind::Other,
                message: String::from_str("Unsupported database type"),
            },
        )
    }
}

/// The one outcome a connect request is acknowledged with: a connect
/// acknowledgement on success, a timeout outcome carrying the error text
/// on failure — delivered through the same channel as every other result.
pub fn connect_outcome(result: Result<(), DbError>) -> (o: DbOutcome)
    ensures
        match result {
            Ok(()) => o == DbOutcome::Connect,
            Err(e) => o == DbOutcome::Timeout(e.message),
        },
{
    match result {
        Ok(()) => DbOutcome::Connect,
        Err(e) => DbOutcome::Timeout(e.message),
    }
}

} // verus!
