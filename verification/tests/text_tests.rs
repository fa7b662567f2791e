use opbridge::text::{str_eq, str_has_prefix, u64_to_decimal};

#[test]
fn decimals_render_exactly() {
    assert_eq!(u64_to_decimal(0), "0");
    assert_eq!(u64_to_decimal(7), "7");
    assert_eq!(u64_to_decimal(10), "10");
    assert_eq!(u64_to_decimal(305), "305");
    assert_eq!(u64_to_decimal(u64::MAX), "18446744073709551615");
}

#[test]
fn string_equality_is_character_wise() {
    assert!(str_eq("abc", "abc"));
    assert!(!str_eq("abc", "abd"));
    assert!(!str_eq("abc", "ab"));
    assert!(str_eq("", ""));
}

#[test]
fn prefix_tests_are_character_wise() {
    assert!(str_has_prefix("mysql://h", "mysql://"));
    assert!(!str_has_prefix("mysq", "mysql://"));
    assert!(!str_has_prefix("postgres://h", "mysql://"));
    assert!(str_has_prefix("anything", ""));
}
