//! The object-storage dispatcher: the closed set of supported operators,
//! parsed from the operator name, and the synchronous validation of a
//! storage request. The storage I/O itself is the embedding host's,
//! performed against this plan.

use vstd::prelude::*;
use crate::text::str_eq;

verus! {

/// The supported storage operators.
#[derive(Clone, Copy, Debug, PartialEq, Eq, Structural)]
pub enum StorageOpKind {
    Read,
    Write,
    Delete,
    Exists,
    CreateDir,
    Rename,
    Stat,
    List,
}

/// The operator a name denotes, if any: a closed enumeration, never a
/// string fallback.
pub open spec fn storage_op_spec(name: Seq<char>) -> Option<StorageOpKind> {
    if name == "read"@ {
        Some(StorageOpKind::Read)
    } else if name == "write"@ {
        Some(StorageOpKind::Write)
    } else if name == "delete"@ {
        Some(StorageOpKind::Delete)
    } else if name == "exists"@ {
        Some(StorageOpKind::Exists)
    } else if name == "create_dir"@ {
        Some(StorageOpKind::CreateDir)
    } else if name == "rename"@ {
        Some(StorageOpKind::Rename)
    } else if name == "stat"@ {
        Some(StorageOpKind::Stat)
    } else if name == "list"@ {
        Some(StorageOpKind::List)
    } else {
        None
    }
}

/// Parses an operator name into the closed enumeration.
pub fn parse_storage_op(name: &str) -> (r: Option<StorageOpKind>)
    ensures
        r == storage_op_spec(name@),
{
    if str_eq(name, "read") {
        Some(StorageOpKind::Read)
    } else if str_eq(name, "write") {
        Some(StorageOpKind::Write)
    } else if str_eq(name, "delete") {
        Some(StorageOpKind::Delete)
    } else if str_eq(name, "exists") {
        Some(StorageOpKind::Exists)
    } else if str_eq(name, "create_dir") {
        Some(StorageOpKind::CreateDir)
    } else if str_eq(name, "rename") {
        Some(StorageOpKind::Rename)
    } else if str_eq(name, "stat") {
        Some(StorageOpKind::Stat)
    } else if str_eq(name, "list") {
        Some(StorageOpKind::List)
    } else {
        None
    }
}

/// A validated storage operation, with the payload its operator needs.
#[derive(Clone, Debug, PartialEq, Eq)]
pub enum StorageOp {
    Read,
    Write { data: Vec<u8> },
    Delete,
    Exists,
    CreateDir,
    Rename { to: String },
    Stat,
    List,
}

/// Validates the configuration a storage operator is created from: the
/// schema name must not be empty.
pub fn validate_storage_schema(schema: &String) -> (r: Result<(), String>)
    ensures
        r is Ok <==> schema@.len() > 0,
        schema@.len() == 0 ==> (r matches Err(m) && m@ == "schema is empty"@),
{
    if schema.as_str().unicode_len() == 0 {
        Err(String::from_str("schema is empty"))
    } else {
        Ok(())
    }
}

/// Validates one storage request and plans the operation, before any
/// task is spawned.
///
/// Exact acceptance rule, checked in order: an empty path is refused as
/// `"path is empty"`; an unknown operator name as
/// `"Invalid operator name"`; a write without its data as
/// `"data is missing"`; a rename without a non-empty target as
/// `"to is empty"`. Everything else is accepted with the payload its
/// operator needs.
pub fn plan_storage_op(name: &str, path: &String, data: Option<Vec<u8>>, to: Option<String>) -> (r:
    Result<StorageOp, String>)
    ensures
        path@.len() == 0 ==> (r matches Err(m) && m@ == "path is empty"@),
        path@.len() > 0 && storage_op_spec(name@) is None ==> (r matches Err(m) && m@
            == "Invalid operator name"@),
        path@.len() > 0 ==> match storage_op_spec(name@) {
            Some(StorageOpKind::Read) => r == Ok::<StorageOp, String>(StorageOp::Read),
            Some(StorageOpKind::Write) => match data {
                Some(d) => r == Ok::<StorageOp, String>(StorageOp::Write { data: d }),
                None => r matches Err(m) && m@ == "data is missing"@,
            },
            Some(StorageOpKind::Delete) => r == Ok::<StorageOp, String>(StorageOp::Delete),
            Some(StorageOpKind::Exists) => r == Ok::<StorageOp, String>(StorageOp::Exists),
            Some(StorageOpKind::CreateDir) => r == Ok::<StorageOp, String>(StorageOp::CreateDir),
            Some(StorageOpKind::Rename) => match to {
                Some(t) => if t@.len() > 0 {
                    r == Ok::<StorageOp, String>(StorageOp::Rename { to: t })
                } else {
                    r matches Err(m) && m@ == "to is empty"@
                },
                None => r matches Err(m) && m@ == "to is empty"@,
            },
            Some(StorageOpKind::Stat) => r == Ok::<StorageOp, String>(StorageOp::Stat),
            Some(StorageOpKind::List) => r == Ok::<StorageOp, String>(StorageOp::List),
            None => r is Err,
        },
{
    if path.as_str().unicode_len() == 0 {
        return Err(String::from_str("path is empty"));
    }
    match parse_storage_op(name) {
        None => Err(String::from_str("Invalid operator name")),
        Some(StorageOpKind::Read) => Ok(StorageOp::Read),
        Some(StorageOpKind::Write) => match data {
            Some(d) => Ok(StorageOp::Write { data: d }),
            None => Err(String::from_str("data is missing")),
        },
        Some(StorageOpKind::Delete) => Ok(StorageOp::Delete),
        Some(StorageOpKind::Exists) => Ok(StorageOp::Exists),
        Some(StorageOpKind::CreateDir) => Ok(StorageOp::CreateDir),
        Some(StorageOpKind::Rename) => match to {
            Some(t) => {
                if t.as_str().unicode_len() == 0 {
                    Err(String::from_str("to is empty"))
                } else {
                    Ok(StorageOp::Rename { to: t })
                }
            },
            None => Err(String::from_str("to is empty")),
        },
        Some(StorageOpKind::Stat) => Ok(StorageOp::Stat),
        Some(StorageOpKind::List) => Ok(StorageOp::List),
    }
}

} // verus!
