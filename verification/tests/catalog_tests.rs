use runner::catalog::resolve_runtime;
use runner::domain::{RunnerError, Runtime};

fn catalog_entry(language: &str, version: &str, aliases: &[&str]) -> Runtime {
    Runtime {
        language: language.to_string(),
        version: version.to_string(),
        aliases: aliases.iter().map(|a| a.to_string()).collect(),
    }
}

#[test]
fn resolve_matches_language_case_insensitively() {
    let runtimes = vec![
        catalog_entry("python", "3.10.0", &["py"]),
        catalog_entry("ruby", "3.0.0", &["rb"]),
    ];
    let found = resolve_runtime(&runtimes, &"pYtHoN".to_string(), &None).unwrap();
    assert_eq!(found.language, "python");
    assert_eq!(found.version, "3.10.0");
}

#[test]
fn resolve_matches_alias_case_insensitively() {
    let runtimes = vec![catalog_entry("ruby", "3.0.0", &["RB", "IRB"])];
    let found = resolve_runtime(&runtimes, &"rb".to_string(), &None).unwrap();
    assert_eq!(found.language, "ruby");
    let found = resolve_runtime(&runtimes, &"irb".to_string(), &None).unwrap();
    assert_eq!(found.version, "3.0.0");
}

#[test]
fn resolve_picks_first_match() {
    let runtimes = vec![
        catalog_entry("python", "3.9.4", &[]),
        catalog_entry("python", "3.10.0", &[]),
    ];
    let found = resolve_runtime(&runtimes, &"python".to_string(), &None).unwrap();
    assert_eq!(found.version, "3.9.4");
}

#[test]
fn resolve_pins_exact_version() {
    let runtimes = vec![
        catalog_entry("python", "3.9.4", &[]),
        catalog_entry("python", "3.10.0", &[]),
    ];
    let found =
        resolve_runtime(&runtimes, &"python".to_string(), &Some("3.10.0".to_string())).unwrap();
    assert_eq!(found.version, "3.10.0");
}

#[test]
fn resolve_missing_version_names_language_and_version() {
    let runtimes = vec![catalog_entry("ruby", "3.0.0", &["rb"])];
    let err = resolve_runtime(&runtimes, &"ruby".to_string(), &Some("9.9.9".to_string()))
        .unwrap_err();
    match err {
        RunnerError::RuntimeNotFound { language, version } => {
            assert_eq!(language, "ruby");
            assert_eq!(version, Some("9.9.9".to_string()));
        }
        _ => panic!("expected RuntimeNotFound"),
    }
}

#[test]
fn resolve_unknown_language_fails() {
    let runtimes = vec![catalog_entry("ruby", "3.0.0", &["rb"])];
    let err = resolve_runtime(&runtimes, &"befunge".to_string(), &None).unwrap_err();
    match err {
        RunnerError::RuntimeNotFound { language, version } => {
            assert_eq!(language, "befunge");
            assert_eq!(version, None);
        }
        _ => panic!("expected RuntimeNotFound"),
    }
}
