//! Outcomes of asynchronous operations and their host-facing shape.
//!
//! Every spawned operation eventually produces exactly one outcome:
//! a success payload, a domain error, a timeout, or a connect
//! acknowledgement. The functions here turn an outcome into the
//! structured record the embedding host branches on (a `kind`
//! discriminator plus a message, or a row table), and classify database
//! column types into the closed set of cell decodings.

use vstd::prelude::*;
use crate::text::str_eq;

verus! {

/// One database cell, decoded into the closed set of plain shapes the
/// bridge hands to the host.
///
/// `Real` carries the bit pattern of a 64-bit floating value; the bridge
/// never interprets it, it only passes it through.
#[derive(Clone, Debug, PartialEq, Eq)]
pub enum Cell {
    Null,
    Bool(bool),
    Int(i64),
    Real(u64),
    Text(String),
    Blob(Vec<u8>),
}

/// Whether a failed database operation carried a database-level error
/// (the driver spoke to the server and the server refused) or any other
/// transport or decode failure.
#[derive(Clone, Copy, Debug, PartialEq, Eq, Structural)]
pub enum DbErrorKind {
    Database,
    Other,
}

/// A database failure as data: never thrown across the executor
/// boundary, always delivered as an outcome.
#[derive(Clone, Debug, PartialEq, Eq)]
pub struct DbError {
    pub kind: DbErrorKind,
    pub message: String,
}

/// The outcome of one database operation.
#[derive(Clone, Debug, PartialEq, Eq)]
pub enum DbOutcome {
    /// The connection was established (acknowledges a connect request).
    Connect,
    /// A query succeeded; the decoded row set.
    Rows(Vec<Vec<Cell>>),
    /// A query or connect failed with a driver error.
    Failure(DbError),
    /// The connect attempt timed out.
    Timeout(String),
}

/// The structured record a database outcome is surfaced as: either a row
/// table, a plain acknowledgement, or a fault with a `kind` discriminator
/// the host can branch on without inspecting internals.
#[derive(Clone, Debug, PartialEq, Eq)]
pub enum HostReply {
    Table { rows: Vec<Vec<Cell>> },
    Ack { message: String },
    Fault { kind: String, message: String },
}

/// Turns a database outcome into its host-facing record.
///
/// Faults carry `kind` `"DB"` for database-level errors, `"ERROR"` for
/// other driver failures, and `"TIMEOUT"` for connect timeouts; a
/// successful connect is acknowledged with message `"success"`.
pub fn decode_outcome(o: DbOutcome) -> (r: HostReply)
    ensures
        match o {
            DbOutcome::Connect => r matches HostReply::Ack { message } && message@
                == "success"@,
            DbOutcome::Rows(rows) => r == (HostReply::Table { rows }),
            DbOutcome::Failure(e) => r matches HostReply::Fault { kind, message } && message@
                == e.message@ && (e.kind == DbErrorKind::Database ==> kind@ == "DB"@) && (e.kind
                == DbErrorKind::Other ==> kind@ == "ERROR"@),
            DbOutcome::Timeout(m) => r matches HostReply::Fault { kind, message } && kind@
                == "TIMEOUT"@ && message@ == m@,
        },
{
    match o {
        DbOutcome::Connect => HostReply::Ack { message: String::from_str("success") },
        DbOutcome::Rows(rows) => HostReply::Table { rows },
        DbOutcome::Failure(e) => {
            let kind = match e.kind {
                DbErrorKind::Database => String::from_str("DB"),
                DbErrorKind::Other => String::from_str("ERROR"),
            };
            HostReply::Fault { kind, message: e.message }
        },
        DbOutcome::Timeout(m) => HostReply::Fault {
            kind: String::from_str("TIMEOUT"),
            message: m,
        },
    }
}

/// How one database column is decoded, chosen from the column's declared
/// type name.
#[derive(Clone, Copy, Debug, PartialEq, Eq, Structural)]
pub enum DecodeKind {
    Null,
    Boolean,
    Integer,
    Real,
    Text,
    Blob,
}

/// The decode kind for a column type name: the closed list of names each
/// driver reports, with every unknown name decoded as a blob.
pub open spec fn decode_kind_spec(n: Seq<char>) -> DecodeKind {
    if n == "NULL"@ {
        DecodeKind::Null
    } else if n == "BOOL"@ || n == "BOOLEAN"@ {
        DecodeKind::Boolean
    } else if n == "INT2"@ || n == "INT4"@ || n == "INT8"@ || n == "TINYINT"@ || n == "SMALLINT"@
        || n == "INT"@ || n == "MEDIUMINT"@ || n == "BIGINT"@ || n == "INTEGER"@ {
        DecodeKind::Integer
    } else if n == "FLOAT4"@ || n == "FLOAT8"@ || n == "NUMERIC"@ || n == "FLOAT"@ || n == "DOUBLE"@
        || n == "REAL"@ {
        DecodeKind::Real
    } else if n == "TEXT"@ {
        DecodeKind::Text
    } else {
        DecodeKind::Blob
    }
}

/// Classifies one column type name.
pub fn decode_kind_of(col_type: &str) -> (k: DecodeKind)
    ensures
        k == decode_kind_spec(col_type@),
{
    if str_eq(col_type, "NULL") {
        DecodeKind::Null
    } else if str_eq(col_type, "BOOL") || str_eq(col_type, "BOOLEAN") {
        DecodeKind::Boolean
    } else if str_eq(col_type, "INT2") || str_eq(col_type, "INT4") || str_eq(col_type, "INT8")
        || str_eq(col_type, "TINYINT") || str_eq(col_type, "SMALLINT") || str_eq(
        col_type,
        "INT",
    ) || str_eq(col_type, "MEDIUMINT") || str_eq(col_type, "BIGINT") || str_eq(
        col_type,
        "INTEGER",
    ) {
        DecodeKind::Integer
    } else if str_eq(col_type, "FLOAT4") || str_eq(col_type, "FLOAT8") || str_eq(
        col_type,
        "NUMERIC",
    ) || str_eq(col_type, "FLOAT") || str_eq(col_type, "DOUBLE") || str_eq(col_type, "REAL") {
        DecodeKind::Real
    } else if str_eq(col_type, "TEXT") {
        DecodeKind::Text
    } else {
        DecodeKind::Blob
    }
}

/// The decode plan for a whole row shape: one decode kind per column, in
/// column order. The host decodes every row of a result set by this plan.
pub fn decode_plan(column_types: &Vec<String>) -> (plan: Vec<DecodeKind>)
    ensures
        plan@.len() == column_types@.len(),
        forall|i: int|
            0 <= i < plan@.len() ==> plan@[i] == decode_kind_spec(#[trigger] column_types@[i]@),
{
    let mut plan: Vec<DecodeKind> = Vec::new();
    let n = column_types.len();
    let mut i: usize = 0;
    while i < n
        invariant
            n == column_types@.len(),
            i <= n,
            plan@.len() == i,
            forall|k: int|
                0 <= k < i ==> plan@[k] == decode_kind_spec(#[trigger] column_types@[k]@),
        decreases n - i,
    {
        plan.push(decode_kind_of(column_types[i].as_str()));
        i = i + 1;
    }
    plan
}

/// The HTTP protocol versions the bridge distinguishes.
#[derive(Clone, Copy, Debug, PartialEq, Eq, Structural)]
pub enum HttpVersion {
    V09,
    V10,
    V11,
    V2,
    V3,
    Unknown,
}

/// The label the host sees for each protocol version.
pub open spec fn version_label_spec(v: HttpVersion) -> Seq<char> {
    match v {
        HttpVersion::V09 => "HTTP/0.9"@,
        HttpVersion::V10 => "HTTP/1.0"@,
        HttpVersion::V11 => "HTTP/1.1"@,
        HttpVersion::V2 => "HTTP/2.0"@,
        HttpVersion::V3 => "HTTP/3.0"@,
        HttpVersion::Unknown => "Unknown"@,
    }
}

/// Renders a protocol version as its label; the label is never empty.
pub fn version_label(v: HttpVersion) -> (s: String)
    ensures
        s@ == version_label_spec(v),
        s@.len() > 0,
{
    proof {
        reveal_strlit("HTTP/0.9");
        reveal_strlit("HTTP/1.0");
        reveal_strlit("HTTP/1.1");
        reveal_strlit("HTTP/2.0");
        reveal_strlit("HTTP/3.0");
        reveal_strlit("Unknown");
    }
    match v {
        HttpVersion::V09 => String::from_str("HTTP/0.9"),
        HttpVersion::V10 => String::from_str("HTTP/1.0"),
        HttpVersion::V11 => String::from_str("HTTP/1.1"),
        HttpVersion::V2 => String::from_str("HTTP/2.0"),
        HttpVersion::V3 => String::from_str("HTTP/3.0"),
        HttpVersion::Unknown => String::from_str("Unknown"),
    }
}

/// A completed HTTP exchange as the host sees it: protocol version,
/// status, response headers and body bytes.
#[derive(Clone, Debug, PartialEq, Eq)]
pub struct HttpResponseRec {
    pub version: HttpVersion,
    pub status_code: i32,
    pub headers: Vec<(String, String)>,
    pub body: Vec<u8>,
}

/// The response record a failed HTTP task is converted into: transport
/// errors are delivered through the same channel as successes, as a
/// response with status `-1` whose body carries the error text.
pub fn http_failure_response(message: String) -> (r: HttpResponseRec)
    ensures
        r.version == HttpVersion::V11,
        r.status_code == -1,
        r.headers@.len() == 0,
        r.body@ == vstd::utf8::encode_utf8(message@),
{
    let body = message.as_str().as_bytes_vec();
    HttpResponseRec { version: HttpVersion::V11, status_code: -1, headers: Vec::new(), body }
}

} // verus!
