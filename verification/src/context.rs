//! The shared executor context: one explicitly constructed object owning
//! the session allocator, the client pool and the connection registry,
//! passed by reference to every dispatcher.
//!
//! The multi-threaded task runtime itself lives with the embedding host;
//! the context only records whether one is available. When it is not,
//! every dispatch fails fast with the distinct "no runtime" error rather
//! than silently dropping work.

use vstd::prelude::*;
use crate::http::{desc_valid, HttpRequestDesc};
use crate::pool::{fingerprint_spec, ClientPool};
use crate::registry::ActorRegistry;
use crate::session::{session_successor, SessionAllocator};
use crate::storage::{plan_storage_op, storage_op_spec, StorageOp, StorageOpKind};

verus! {

/// The default database connect timeout, in milliseconds, when the
/// caller names none.
pub const DEFAULT_DB_CONNECT_TIMEOUT_MS: u64 = 5000;

/// The process-wide shared context.
pub struct SharedContext {
    pub sessions: SessionAllocator,
    pub clients: ClientPool,
    pub actors: ActorRegistry,
    pub runtime_available: bool,
}

impl SharedContext {
    pub open spec fn wf(self) -> bool {
        self.sessions.wf()
    }

    /// Whether a task runtime is available to spawn on.
    pub open spec fn runtime_ok(self) -> bool {
        self.runtime_available
    }

    /// Builds the context once at process start; `runtime_available`
    /// records whether the host's task runtime initialized.
    pub fn new(runtime_available: bool) -> (ctx: SharedContext)
        ensures
            ctx.wf(),
            ctx.runtime_ok() == runtime_available,
            ctx.sessions.issued() == Seq::<i64>::empty(),
            ctx.sessions.upcoming() == 1,
            !ctx.sessions.has_wrapped(),
            ctx.clients.keys() == Set::<Seq<char>>::empty(),
            ctx.actors.entries().dom() == Set::<Seq<char>>::empty(),
    {
        SharedContext {
            sessions: SessionAllocator::new(),
            clients: ClientPool::new(),
            actors: ActorRegistry::new(),
            runtime_available,
        }
    }

    /// Whether a task runtime is available, as the host observes it.
    pub fn has_runtime(&self) -> (b: bool)
        ensures
            b == self.runtime_ok(),
    {
        self.runtime_available
    }

    /// Returns the pooled client for this configuration, building and
    /// publishing one if the fingerprint is new (see
    /// `ClientPool::get_or_create`).
    pub fn get_or_create_client(&mut self, timeout_secs: u64, proxy: &String) -> (c:
        reqwest::Client)
        requires
            old(self).wf(),
        ensures
            final(self).wf(),
            final(self).sessions == old(self).sessions,
            final(self).actors == old(self).actors,
            final(self).runtime_ok() == old(self).runtime_ok(),
            final(self).clients.keys() == old(self).clients.keys().insert(
                fingerprint_spec(timeout_secs as nat, proxy@),
            ),
    {
        self.clients.get_or_create(timeout_secs, proxy)
    }

    /// Accepts or refuses one HTTP dispatch, before any task is spawned.
    ///
    /// The descriptor must be valid (see `validate_http_request`, which
    /// supplies the descriptive error). A caller-supplied session is
    /// used as given (0 means fire-and-forget); otherwise a fresh one is
    /// allocated, before the runtime check — a dispatch refused for want
    /// of a runtime still consumes its identifier.
    /// Without a runtime the dispatch fails fast with the distinct
    /// `"No tokio runtime"` error. On success the returned session is
    /// the one the eventual outcome will be correlated under.
    pub fn dispatch_http(&mut self, d: &HttpRequestDesc, explicit_session: Option<i64>) -> (r:
        Result<i64, String>)
        requires
            old(self).wf(),
        ensures
            final(self).wf(),
            final(self).clients == old(self).clients,
            final(self).actors == old(self).actors,
            final(self).runtime_ok() == old(self).runtime_ok(),
            !desc_valid(*d) ==> r is Err && final(self).sessions == old(self).sessions,
            desc_valid(*d) && explicit_session is Some ==> {
                &&& final(self).sessions == old(self).sessions
                &&& if old(self).runtime_ok() {
                    r == Ok::<i64, String>(explicit_session->Some_0)
                } else {
                    r matches Err(m) && m@ == "No tokio runtime"@
                }
            },
            desc_valid(*d) && explicit_session is None ==> {
                &&& final(self).sessions.issued() == old(self).sessions.issued().push(
                    old(self).sessions.upcoming(),
                )
                &&& final(self).sessions.upcoming() == session_successor(
                    old(self).sessions.upcoming(),
                )
                &&& if old(self).runtime_ok() {
                    r == Ok::<i64, String>(old(self).sessions.upcoming())
                } else {
                    r matches Err(m) && m@ == "No tokio runtime"@
                }
            },
    {
        if let Err(e) = crate::http::validate_http_request(d) {
            return Err(e);
        }
        let session = match explicit_session {
            Some(s) => s,
            None => self.sessions.next_session(),
        };
        if !self.runtime_available {
            return Err(String::from_str("No tokio runtime"));
        }
        Ok(session)
    }

    /// Accepts or refuses one storage dispatch, before any task is
    /// spawned: fail-fast without a runtime, then the exact validation
    /// and planning rule of `plan_storage_op`. The session is the
    /// caller's; its outcome will be correlated under it.
    pub fn dispatch_storage(
        &mut self,
        name: &str,
        path: &String,
        data: Option<Vec<u8>>,
        to: Option<String>,
        session: i64,
    ) -> (r: Result<(i64, StorageOp), String>)
        requires
            old(self).wf(),
        ensures
            final(self).wf(),
            *final(self) == *old(self),
            !old(self).runtime_ok() ==> (r matches Err(m) && m@ == "No tokio runtime"@),
            old(self).runtime_ok() && path@.len() == 0 ==> (r matches Err(m) && m@
                == "path is empty"@),
            old(self).runtime_ok() && path@.len() > 0 && storage_op_spec(name@) is None ==> (
            r matches Err(m) && m@ == "Invalid operator name"@),
            old(self).runtime_ok() && path@.len() > 0 ==> match storage_op_spec(name@) {
                Some(StorageOpKind::Read) => r == Ok::<(i64, StorageOp), String>(
                    (session, StorageOp::Read),
                ),
                Some(StorageOpKind::Write) => match data {
                    Some(d) => r == Ok::<(i64, StorageOp), String>(
                        (session, StorageOp::Write { data: d }),
                    ),
                    None => r matches Err(m) && m@ == "data is missing"@,
                },
                Some(StorageOpKind::Delete) => r == Ok::<(i64, StorageOp), String>(
                    (session, StorageOp::Delete),
                ),
                Some(StorageOpKind::Exists) => r == Ok::<(i64, StorageOp), String>(
                    (session, StorageOp::Exists),
                ),
                Some(StorageOpKind::CreateDir) => r == Ok::<(i64, StorageOp), String>(
                    (session, StorageOp::CreateDir),
                ),
                Some(StorageOpKind::Rename) => match to {
                    Some(t) => if t@.len() > 0 {
                        r == Ok::<(i64, StorageOp), String>((session, StorageOp::Rename { to: t }))
                    } else {
                        r matches Err(m) && m@ == "to is empty"@
                    },
                    None => r matches Err(m) && m@ == "to is empty"@,
                },
                Some(StorageOpKind::Stat) => r == Ok::<(i64, StorageOp), String>(
                    (session, StorageOp::Stat),
                ),
                Some(StorageOpKind::List) => r == Ok::<(i64, StorageOp), String>(
                    (session, StorageOp::List),
                ),
                None => r is Err,
            },
    {
        if !self.runtime_available {
            return Err(String::from_str("No tokio runtime"));
        }
        match plan_storage_op(name, path, data, to) {
            Ok(op) => Ok((session, op)),
            Err(m) => Err(m),
        }
    }

    /// Accepts or refuses one database connect dispatch: fail-fast
    /// without a runtime; otherwise the connect may proceed with the
    /// caller's timeout, or the documented default when none is named.
    pub fn dispatch_db_connect(&mut self, connect_timeout_ms: Option<u64>, session: i64) -> (r:
        Result<(i64, u64), String>)
        requires
            old(self).wf(),
        ensures
            final(self).wf(),
            *final(self) == *old(self),
            !old(self).runtime_ok() ==> (r matches Err(m) && m@ == "No tokio runtime"@),
            old(self).runtime_ok() ==> r == Ok::<(i64, u64), String>(
                (
                    session,
                    match connect_timeout_ms {
                        Some(t) => t,
                        None => DEFAULT_DB_CONNECT_TIMEOUT_MS,
                    },
                ),
            ),
    {
        if !self.runtime_available {
            return Err(String::from_str("No tokio runtime"));
        }
        let timeout = match connect_timeout_ms {
            Some(t) => t,
            None => DEFAULT_DB_CONNECT_TIMEOUT_MS,
        };
        Ok((session, timeout))
    }
}

} // verus!
