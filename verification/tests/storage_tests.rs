use opbridge::storage::{
    parse_storage_op, plan_storage_op, validate_storage_schema, StorageOp, StorageOpKind,
};

#[test]
fn operator_names_parse_into_the_closed_set() {
    assert_eq!(parse_storage_op("read"), Some(StorageOpKind::Read));
    assert_eq!(parse_storage_op("write"), Some(StorageOpKind::Write));
    assert_eq!(parse_storage_op("delete"), Some(StorageOpKind::Delete));
    assert_eq!(parse_storage_op("exists"), Some(StorageOpKind::Exists));
    assert_eq!(parse_storage_op("create_dir"), Some(StorageOpKind::CreateDir));
    assert_eq!(parse_storage_op("rename"), Some(StorageOpKind::Rename));
    assert_eq!(parse_storage_op("stat"), Some(StorageOpKind::Stat));
    assert_eq!(parse_storage_op("list"), Some(StorageOpKind::List));
    assert_eq!(parse_storage_op("copy"), None);
    assert_eq!(parse_storage_op("READ"), None);
}

#[test]
fn an_empty_schema_is_refused() {
    assert_eq!(
        validate_storage_schema(&"".to_string()),
        Err("schema is empty".to_string())
    );
    assert!(validate_storage_schema(&"memory".to_string()).is_ok());
}

#[test]
fn an_empty_path_is_refused() {
    assert_eq!(
        plan_storage_op("read", &"".to_string(), None, None),
        Err("path is empty".to_string())
    );
}

#[test]
fn an_unknown_operator_is_refused() {
    assert_eq!(
        plan_storage_op("copy", &"a/b".to_string(), None, None),
        Err("Invalid operator name".to_string())
    );
}

#[test]
fn a_read_plans_with_its_path() {
    assert_eq!(
        plan_storage_op("read", &"a/b".to_string(), None, None),
        Ok(StorageOp::Read)
    );
}

#[test]
fn a_write_needs_its_data() {
    assert_eq!(
        plan_storage_op("write", &"a/b".to_string(), Some(b"payload".to_vec()), None),
        Ok(StorageOp::Write { data: b"payload".to_vec() })
    );
    assert_eq!(
        plan_storage_op("write", &"a/b".to_string(), None, None),
        Err("data is missing".to_string())
    );
}

#[test]
fn a_rename_needs_a_nonempty_target() {
    assert_eq!(
        plan_storage_op("rename", &"a/b".to_string(), None, Some("c/d".to_string())),
        Ok(StorageOp::Rename { to: "c/d".to_string() })
    );
    assert_eq!(
        plan_storage_op("rename", &"a/b".to_string(), None, Some("".to_string())),
        Err("to is empty".to_string())
    );
    assert_eq!(
        plan_storage_op("rename", &"a/b".to_string(), None, None),
        Err("to is empty".to_string())
    );
}

#[test]
fn the_plain_operators_plan_directly() {
    let path = "a/b".to_string();
    assert_eq!(plan_storage_op("delete", &path, None, None), Ok(StorageOp::Delete));
    assert_eq!(plan_storage_op("exists", &path, None, None), Ok(StorageOp::Exists));
    assert_eq!(plan_storage_op("create_dir", &path, None, None), Ok(StorageOp::CreateDir));
    assert_eq!(plan_storage_op("stat", &path, None, None), Ok(StorageOp::Stat));
    assert_eq!(plan_storage_op("list", &path, None, None), Ok(StorageOp::List));
}
