use opbridge::params::{classify_param, HostValue, Param};

#[test]
fn plain_kinds_map_directly() {
    assert_eq!(classify_param(HostValue::Boolean(true)), Ok(Param::Bool(true)));
    assert_eq!(classify_param(HostValue::Integer(-7)), Ok(Param::Int(-7)));
    let bits = 2.5f64.to_bits();
    assert_eq!(classify_param(HostValue::Number(bits)), Ok(Param::Float(bits)));
}

#[test]
fn a_json_object_string_becomes_a_json_parameter() {
    let r = classify_param(HostValue::Str("{\"a\": 1}".to_string()));
    assert_eq!(r, Ok(Param::Json(b"{\"a\": 1}".to_vec())));
}

#[test]
fn a_json_array_string_becomes_a_json_parameter() {
    let r = classify_param(HostValue::Str("[1, 2, 3]".to_string()));
    assert_eq!(r, Ok(Param::Json(b"[1, 2, 3]".to_vec())));
}

#[test]
fn a_malformed_braced_string_stays_text() {
    let r = classify_param(HostValue::Str("{not json".to_string()));
    assert_eq!(r, Ok(Param::Text("{not json".to_string())));
}

#[test]
fn an_ordinary_string_stays_text() {
    let r = classify_param(HostValue::Str("hello".to_string()));
    assert_eq!(r, Ok(Param::Text("hello".to_string())));
}

#[test]
fn an_encoded_record_that_parses_becomes_json() {
    let buf = b"{\"k\": [1, 2]}".to_vec();
    assert_eq!(classify_param(HostValue::Table(buf.clone())), Ok(Param::Json(buf)));
}

#[test]
fn an_encoded_record_that_does_not_parse_stays_a_blob() {
    let buf = b"{\x01\x02".to_vec();
    assert_eq!(classify_param(HostValue::Table(buf.clone())), Ok(Param::Bytes(buf)));
    let plain = b"\x01\x02\x03".to_vec();
    assert_eq!(classify_param(HostValue::Table(plain.clone())), Ok(Param::Bytes(plain)));
}

#[test]
fn an_unsupported_kind_is_a_caller_error() {
    let r = classify_param(HostValue::Unsupported("function".to_string()));
    assert_eq!(r, Err("unsupported value type: function".to_string()));
}
