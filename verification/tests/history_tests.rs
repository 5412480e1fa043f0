//! The history id: stability, exclusion, and the hexadecimal shape.

use allure::compute_history_id;
use allure::Parameter;

#[test]
fn test_compute_history_id() {
    let params = vec![
        Parameter::new("a".to_string(), "1".to_string()),
        Parameter::new("b".to_string(), "2".to_string()),
    ];

    let id1 = compute_history_id("test::my_test", &params);
    let id2 = compute_history_id("test::my_test", &params);
    assert_eq!(id1, id2);

    let id3 = compute_history_id("test::other_test", &params);
    assert_ne!(id1, id3);

    let params_with_excluded = vec![
        Parameter::new("a".to_string(), "1".to_string()),
        Parameter::new("b".to_string(), "2".to_string()),
        Parameter::excluded("timestamp".to_string(), "12345".to_string()),
    ];
    let id4 = compute_history_id("test::my_test", &params_with_excluded);
    assert_eq!(id1, id4);
}

#[test]
fn test_history_id_is_32_hex_chars() {
    let params: Vec<Parameter> = Vec::new();
    let id_a = compute_history_id("suite::case", &params);
    let id_b = compute_history_id("suite::case", &params);
    assert_eq!(id_a, id_b);
    assert_eq!(id_a.len(), 32);
    assert!(id_a.chars().all(|c| c.is_ascii_hexdigit() && !c.is_ascii_uppercase()));
}

#[test]
fn test_history_id_known_digest() {
    // The digest of the bare name bytes, with no parameters, is the plain
    // MD5 of the name.
    let params: Vec<Parameter> = Vec::new();
    let id = compute_history_id("abc", &params);
    assert_eq!(id, "900150983cd24fb0d6963f7d28e17f72");
}

#[test]
fn test_history_id_depends_on_parameter_values() {
    let p1 = vec![Parameter::new("k".to_string(), "v1".to_string())];
    let p2 = vec![Parameter::new("k".to_string(), "v2".to_string())];
    assert_ne!(
        compute_history_id("t", &p1),
        compute_history_id("t", &p2)
    );
}

#[test]
fn test_excluded_toggle_leaves_other_contributions() {
    let with_excluded = vec![
        Parameter::new("a".to_string(), "1".to_string()),
        Parameter::excluded("noise".to_string(), "x".to_string()),
        Parameter::new("b".to_string(), "2".to_string()),
    ];
    let without = vec![
        Parameter::new("a".to_string(), "1".to_string()),
        Parameter::new("b".to_string(), "2".to_string()),
    ];
    assert_eq!(
        compute_history_id("t", &with_excluded),
        compute_history_id("t", &without)
    );
}
