use runner::engine::{CompatProfile, EngineSuccess, InputMode, JobResult, TimeLimitMode};
use runner::normalize::normalize_execution;

fn stage(stdout: &str, stderr: &str, code: Option<i64>, signal: Option<&str>) -> JobResult {
    JobResult {
        stdout: stdout.to_string(),
        stderr: stderr.to_string(),
        code,
        signal: signal.map(|s| s.to_string()),
        output: String::new(),
        time: 42,
        time_limit_exceeded: false,
    }
}

fn success_of(compile: Option<JobResult>, run: JobResult) -> EngineSuccess {
    EngineSuccess {
        compile,
        run,
        language: "python".to_string(),
        version: "3.10.0".to_string(),
    }
}

fn flag_profile() -> CompatProfile {
    CompatProfile {
        input_mode: InputMode::Stdin,
        supports_run_timeout: true,
        time_limit_mode: TimeLimitMode::Flag,
    }
}

fn kill_signal_profile() -> CompatProfile {
    CompatProfile {
        input_mode: InputMode::Stdin,
        supports_run_timeout: true,
        time_limit_mode: TimeLimitMode::KillSignal,
    }
}

#[test]
fn stdout_loses_exactly_one_trailing_newline() {
    let res = success_of(None, stage("hello\n", "", Some(0), None));
    let e = normalize_execution(&res, &flag_profile());
    assert_eq!(e.stdout, "hello");
}

#[test]
fn stdout_without_newline_is_unchanged() {
    let res = success_of(None, stage("hello", "", Some(0), None));
    let e = normalize_execution(&res, &flag_profile());
    assert_eq!(e.stdout, "hello");
}

#[test]
fn stdout_with_two_newlines_loses_only_one() {
    let res = success_of(None, stage("hello\n\n", "", Some(0), None));
    let e = normalize_execution(&res, &flag_profile());
    assert_eq!(e.stdout, "hello\n");
}

#[test]
fn compile_stderr_takes_precedence() {
    let res = success_of(
        Some(stage("", "compile boom", None, None)),
        stage("out", "run boom", Some(0), None),
    );
    let e = normalize_execution(&res, &flag_profile());
    assert_eq!(e.stderr, Some("compile boom".to_string()));
}

#[test]
fn run_stderr_used_when_compile_stderr_empty() {
    let res = success_of(
        Some(stage("", "", None, None)),
        stage("out", "run boom", Some(0), None),
    );
    let e = normalize_execution(&res, &flag_profile());
    assert_eq!(e.stderr, Some("run boom".to_string()));
}

#[test]
fn stderr_absent_when_both_stages_quiet() {
    let res = success_of(Some(stage("", "", None, None)), stage("out", "", Some(0), None));
    let e = normalize_execution(&res, &flag_profile());
    assert_eq!(e.stderr, None);
}

#[test]
fn exit_code_zero_did_not_crash() {
    let res = success_of(None, stage("", "", Some(0), None));
    assert!(normalize_execution(&res, &flag_profile()).did_not_crash);
}

#[test]
fn nonzero_exit_code_crashed() {
    let res = success_of(None, stage("", "", Some(3), None));
    assert!(!normalize_execution(&res, &flag_profile()).did_not_crash);
}

#[test]
fn absent_code_and_signal_did_not_crash() {
    let res = success_of(None, stage("", "", None, None));
    assert!(normalize_execution(&res, &flag_profile()).did_not_crash);
}

#[test]
fn signal_without_code_crashed() {
    let res = success_of(None, stage("", "", None, Some("SIGSEGV")));
    assert!(!normalize_execution(&res, &flag_profile()).did_not_crash);
}

#[test]
fn exit_code_zero_wins_over_signal() {
    let res = success_of(None, stage("", "", Some(0), Some("SIGPIPE")));
    assert!(normalize_execution(&res, &flag_profile()).did_not_crash);
}

#[test]
fn time_telemetry_copied_in_flag_mode() {
    let mut run = stage("", "", Some(0), None);
    run.time = 777;
    run.time_limit_exceeded = true;
    let e = normalize_execution(&success_of(None, run), &flag_profile());
    assert_eq!(e.time, 777);
    assert!(e.time_limit_exceeded);
}

#[test]
fn kill_signal_mode_derives_time_limit() {
    let res = success_of(None, stage("", "", None, Some("SIGKILL")));
    assert!(normalize_execution(&res, &kill_signal_profile()).time_limit_exceeded);

    let res = success_of(None, stage("", "", None, Some("SIGSEGV")));
    assert!(!normalize_execution(&res, &kill_signal_profile()).time_limit_exceeded);

    let mut run = stage("", "", Some(0), None);
    run.time_limit_exceeded = true;
    // In kill-signal mode the engine's flag is not consulted.
    assert!(!normalize_execution(&success_of(None, run), &kill_signal_profile())
        .time_limit_exceeded);
}
