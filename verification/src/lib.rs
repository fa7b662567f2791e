//! An asynchronous-operation bridge: a single-threaded caller issues
//! non-blocking HTTP, object-storage and database operations against a
//! shared executor, and receives results later through a correlation
//! session identifier.
//!
//! This crate holds the verified core: the session allocator, the client
//! pool keyed by configuration fingerprint, the per-domain dispatch and
//! validation rules, the result-delivery channels (poll queue and
//! take-once result slot), and the database connection actor with its
//! differentiated retry policy. The actual network, storage and database
//! I/O is performed by the embedding host against the contracts stated
//! here.

pub mod actor;
pub mod context;
pub mod delivery;
pub mod form;
pub mod http;
pub mod outcome;
pub mod params;
pub mod pool;
pub mod registry;
pub mod session;
pub mod storage;
pub mod text;
