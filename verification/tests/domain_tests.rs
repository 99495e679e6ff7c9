use runner::domain::{empty_to_none, ExecuteCodeRequest, RunTests, Test};

#[test]
fn empty_to_none_drops_the_empty_string() {
    assert_eq!(empty_to_none(String::new()), None);
}

#[test]
fn empty_to_none_keeps_content_unchanged() {
    assert_eq!(empty_to_none("boom".to_string()), Some("boom".to_string()));
}

#[test]
fn request_equality_is_structural_over_all_fields() {
    let a = ExecuteCodeRequest {
        code: "p 1".to_string(),
        language: "ruby".to_string(),
        version: Some("3.0.0".to_string()),
        input: None,
    };
    let b = ExecuteCodeRequest {
        code: "p 1".to_string(),
        language: "ruby".to_string(),
        version: Some("3.0.0".to_string()),
        input: None,
    };
    assert!(a == b);

    let c = ExecuteCodeRequest { input: Some(String::new()), ..b.clone() };
    assert!(a != c);

    let d = ExecuteCodeRequest { version: None, ..b.clone() };
    assert!(a != d);
}

#[test]
fn run_tests_equality_compares_batteries_in_order() {
    let mk = |expected: &str| RunTests {
        code: "c".to_string(),
        language: "python".to_string(),
        version: None,
        tests: vec![
            Test { input: "1".to_string(), expected_output: "1".to_string() },
            Test { input: "2".to_string(), expected_output: expected.to_string() },
        ],
    };
    assert!(mk("2") == mk("2"));
    assert!(mk("2") != mk("3"));

    let mut shorter = mk("2");
    shorter.tests.pop();
    assert!(mk("2") != shorter);
}
