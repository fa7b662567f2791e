use opbridge::form::{form_urldecode, form_urlencode};

#[test]
fn pairs_encode_with_percent_coding_and_ampersands() {
    let pairs = vec![
        ("a b".to_string(), "c&d".to_string()),
        ("key".to_string(), "value".to_string()),
    ];
    assert_eq!(form_urlencode(&pairs), "a+b=c%26d&key=value");
}

#[test]
fn an_empty_table_encodes_to_an_empty_string() {
    let pairs: Vec<(String, String)> = Vec::new();
    assert_eq!(form_urlencode(&pairs), "");
}

#[test]
fn one_pair_encodes_without_a_separator() {
    let pairs = vec![("q".to_string(), "100%".to_string())];
    assert_eq!(form_urlencode(&pairs), "q=100%25");
}

#[test]
fn a_query_string_decodes_to_its_pairs() {
    let pairs = form_urldecode("a+b=c%26d&key=value");
    assert_eq!(
        pairs,
        vec![
            ("a b".to_string(), "c&d".to_string()),
            ("key".to_string(), "value".to_string()),
        ]
    );
}

#[test]
fn an_empty_query_string_decodes_to_nothing() {
    assert!(form_urldecode("").is_empty());
}

#[test]
fn encoding_then_decoding_returns_the_pairs() {
    let pairs = vec![
        ("name with spaces".to_string(), "v&=v".to_string()),
        ("plain".to_string(), "text".to_string()),
    ];
    let encoded = form_urlencode(&pairs);
    assert_eq!(form_urldecode(&encoded), pairs);
}
