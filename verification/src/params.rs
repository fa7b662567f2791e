//! Bound query parameters and their classification.
//!
//! Every value the caller hands a query is mapped to exactly one tag of a
//! small closed union — boolean, integer, floating number, text,
//! JSON document, or binary blob. A value outside the union is a caller
//! error, reported synchronously, never a silent coercion.

use vstd::prelude::*;
use vstd::utf8::encode_utf8;

verus! {

/// One bound query parameter.
///
/// `Float` carries the bit pattern of a 64-bit floating value, which the
/// bridge passes through without interpreting. `Json` carries the source
/// bytes of a document that parsed as JSON; the host re-parses them when
/// binding.
#[derive(Clone, Debug, PartialEq, Eq)]
pub enum Param {
    Bool(bool),
    Int(i64),
    Float(u64),
    Text(String),
    Json(Vec<u8>),
    Bytes(Vec<u8>),
}

/// A caller-supplied value as the embedding host hands it over: one of
/// the host's plain kinds, or `Unsupported` carrying the host-side type
/// name of anything else.
#[derive(Clone, Debug, PartialEq, Eq)]
pub enum HostValue {
    Boolean(bool),
    /// A number the host knows to be integral.
    Integer(i64),
    /// A non-integral number, as its 64-bit floating bit pattern.
    Number(u64),
    Str(String),
    /// A structured record, already encoded to bytes by the host's
    /// marshaller.
    Table(Vec<u8>),
    Unsupported(String),
}

/// Whether `serde_json` parses these bytes as one well-formed JSON
/// document; the answer depends on the bytes alone.
pub uninterp spec fn json_parses(b: Seq<u8>) -> bool;

/// Relies on `serde_json::from_slice::<serde_json::Value>`: whether the
/// bytes form one well-formed JSON document is a function of the bytes.
#[verifier::external_body]
pub(crate) fn json_valid(b: &[u8]) -> (r: bool)
    ensures
        r == json_parses(b@),
{
    serde_json::from_slice::<serde_json::Value>(b).is_ok()
}

/// Whether a text or buffer is even eligible for JSON interpretation:
/// it opens with `{` or `[`.
pub open spec fn opens_like_json(b: Seq<u8>) -> bool {
    b.len() > 0 && (b[0] == 123u8 || b[0] == 91u8)
}

/// Maps one caller-supplied value to its parameter tag.
///
/// Booleans, integers and numbers map directly. A string that opens like
/// a JSON document and parses as one becomes a JSON parameter, any other
/// string stays text. An encoded record that opens like JSON and parses
/// becomes a JSON parameter, otherwise a binary blob. Anything else is
/// refused with a message naming the host type.
pub fn classify_param(v: HostValue) -> (r: Result<Param, String>)
    ensures
        match v {
            HostValue::Boolean(b) => r == Ok::<Param, String>(Param::Bool(b)),
            HostValue::Integer(i) => r == Ok::<Param, String>(Param::Int(i)),
            HostValue::Number(bits) => r == Ok::<Param, String>(Param::Float(bits)),
            HostValue::Str(s) => if opens_like_json(encode_utf8(s@)) && json_parses(
                encode_utf8(s@),
            ) {
                r matches Ok(Param::Json(b)) && b@ == encode_utf8(s@)
            } else {
                r == Ok::<Param, String>(Param::Text(s))
            },
            HostValue::Table(buf) => if opens_like_json(buf@) && json_parses(buf@) {
                r == Ok::<Param, String>(Param::Json(buf))
            } else {
                r == Ok::<Param, String>(Param::Bytes(buf))
            },
            HostValue::Unsupported(name) => r matches Err(m) && m@ == "unsupported value type: "@
                + name@,
        },
{
    match v {
        HostValue::Boolean(b) => Ok(Param::Bool(b)),
        HostValue::Integer(i) => Ok(Param::Int(i)),
        HostValue::Number(bits) => Ok(Param::Float(bits)),
        HostValue::Str(s) => {
            let bytes = s.as_str().as_bytes_vec();
            if opens_like_json_exec(&bytes) && json_valid(bytes.as_slice()) {
                Ok(Param::Json(bytes))
            } else {
                Ok(Param::Text(s))
            }
        },
        HostValue::Table(buf) => {
            if opens_like_json_exec(&buf) && json_valid(buf.as_slice()) {
                Ok(Param::Json(buf))
            } else {
                Ok(Param::Bytes(buf))
            }
        },
        HostValue::Unsupported(name) => {
            let m = String::from_str("unsupported value type: ").concat(name.as_str());
            Err(m)
        },
    }
}

fn opens_like_json_exec(b: &Vec<u8>) -> (r: bool)
    ensures
        r == opens_like_json(b@),
{
    if b.len() == 0 {
        false
    } else {
        let c = b[0];
        c == 123u8 || c == 91u8
    }
}

} // verus!
