use runner::domain::{ExecuteCodeRequest, RunnerError, Runtime};
use runner::engine::{
    build_engine_request, classify_payload, finish_execution, prepare_execution,
    validate_run_timeout, CompatProfile, DecodedPayload, EngineReply, EngineSuccess, InputMode,
    JobResult, TimeLimitMode,
};

fn profile_with(mode: InputMode, supports_run_timeout: bool) -> CompatProfile {
    CompatProfile {
        input_mode: mode,
        supports_run_timeout,
        time_limit_mode: TimeLimitMode::Flag,
    }
}

fn request_with_input(input: Option<&str>) -> ExecuteCodeRequest {
    ExecuteCodeRequest {
        code: "print(input())".to_string(),
        language: "python".to_string(),
        version: None,
        input: input.map(|s| s.to_string()),
    }
}

fn some_run_stage() -> JobResult {
    JobResult {
        stdout: "ok\n".to_string(),
        stderr: String::new(),
        code: Some(0),
        signal: None,
        output: String::new(),
        time: 5,
        time_limit_exceeded: false,
    }
}

#[test]
fn run_timeout_zero_is_rejected() {
    let p = profile_with(InputMode::Stdin, true);
    match validate_run_timeout(&Some(0), &p) {
        Err(RunnerError::ValidationError { run_timeout }) => assert_eq!(run_timeout, 0),
        _ => panic!("expected ValidationError"),
    }
}

#[test]
fn run_timeout_above_limit_is_rejected() {
    let p = profile_with(InputMode::Stdin, true);
    match validate_run_timeout(&Some(5000), &p) {
        Err(RunnerError::ValidationError { run_timeout }) => assert_eq!(run_timeout, 5000),
        _ => panic!("expected ValidationError"),
    }
}

#[test]
fn run_timeout_in_range_passes_through_unchanged() {
    let p = profile_with(InputMode::Stdin, true);
    assert_eq!(validate_run_timeout(&Some(1500), &p).unwrap(), Some(1500));
    let req = build_engine_request(
        &request_with_input(None),
        &"3.10.0".to_string(),
        &Some(1500),
        &p,
    );
    assert_eq!(req.run_timeout, Some(1500));
}

#[test]
fn run_timeout_rejected_where_profile_lacks_it() {
    let p = profile_with(InputMode::Stdin, false);
    assert!(matches!(
        validate_run_timeout(&Some(1500), &p),
        Err(RunnerError::ValidationError { run_timeout: 1500 })
    ));
}

#[test]
fn absent_run_timeout_is_accepted() {
    let p = profile_with(InputMode::Stdin, false);
    assert_eq!(validate_run_timeout(&None, &p).unwrap(), None);
}

#[test]
fn request_carries_one_main_file_and_fixed_limits() {
    let p = profile_with(InputMode::Stdin, true);
    let req = build_engine_request(&request_with_input(None), &"3.10.0".to_string(), &None, &p);
    assert_eq!(req.language, "python");
    assert_eq!(req.version, "3.10.0");
    assert_eq!(req.files.len(), 1);
    assert_eq!(req.files[0].name, Some("Main".to_string()));
    assert_eq!(req.files[0].content, "print(input())");
    assert_eq!(req.compile_timeout, None);
    assert_eq!(req.run_timeout, None);
    assert_eq!(req.compile_memory_limit, Some(512 * 1024 * 1024));
    assert_eq!(req.run_memory_limit, Some(512 * 1024 * 1024));
}

#[test]
fn stdin_mode_passes_input_as_stdin() {
    let p = profile_with(InputMode::Stdin, true);
    let req = build_engine_request(
        &request_with_input(Some("1\n2")),
        &"3.10.0".to_string(),
        &None,
        &p,
    );
    assert_eq!(req.stdin, Some("1\n2".to_string()));
    assert_eq!(req.args, None);
}

#[test]
fn args_mode_splits_input_into_lines() {
    let p = profile_with(InputMode::Args, true);
    let req = build_engine_request(
        &request_with_input(Some("1\n2")),
        &"3.10.0".to_string(),
        &None,
        &p,
    );
    assert_eq!(req.stdin, None);
    assert_eq!(req.args, Some(vec!["1".to_string(), "2".to_string()]));
}

#[test]
fn args_mode_handles_carriage_returns_and_final_newline() {
    let p = profile_with(InputMode::Args, true);
    let req = build_engine_request(
        &request_with_input(Some("a\r\nb\n")),
        &"3.10.0".to_string(),
        &None,
        &p,
    );
    assert_eq!(req.args, Some(vec!["a".to_string(), "b".to_string()]));
}

#[test]
fn args_mode_without_input_sends_no_args() {
    let p = profile_with(InputMode::Args, true);
    let req = build_engine_request(&request_with_input(None), &"3.10.0".to_string(), &None, &p);
    assert_eq!(req.stdin, None);
    assert_eq!(req.args, None);
}

#[test]
fn classify_prefers_the_success_schema() {
    let payload = DecodedPayload {
        success: Some(EngineSuccess {
            compile: None,
            run: some_run_stage(),
            language: "python".to_string(),
            version: "3.10.0".to_string(),
        }),
        error_message: Some("should be ignored".to_string()),
        decode_failure: String::new(),
    };
    let s = classify_payload(payload).unwrap();
    assert_eq!(s.run.stdout, "ok\n");
}

#[test]
fn classify_reports_the_engine_message() {
    let payload = DecodedPayload {
        success: None,
        error_message: Some("runtime is unknown".to_string()),
        decode_failure: "irrelevant".to_string(),
    };
    match classify_payload(payload) {
        Err(RunnerError::EngineReportedError { message }) => {
            assert_eq!(message, "runtime is unknown")
        }
        _ => panic!("expected EngineReportedError"),
    }
}

#[test]
fn classify_protocol_error_carries_decode_failure() {
    let payload = DecodedPayload {
        success: None,
        error_message: None,
        decode_failure: "missing field run".to_string(),
    };
    match classify_payload(payload) {
        Err(RunnerError::EngineProtocolError { detail }) => {
            assert_eq!(detail, "missing field run")
        }
        _ => panic!("expected EngineProtocolError"),
    }
}

#[test]
fn transport_failure_becomes_engine_unreachable() {
    let p = profile_with(InputMode::Stdin, true);
    let reply = EngineReply::TransportFailure { cause: "connection refused".to_string() };
    match finish_execution(reply, &p) {
        Err(RunnerError::EngineUnreachable { cause }) => {
            assert_eq!(cause, "connection refused")
        }
        _ => panic!("expected EngineUnreachable"),
    }
}

#[test]
fn successful_reply_is_normalized() {
    let p = profile_with(InputMode::Stdin, true);
    let reply = EngineReply::Response {
        payload: DecodedPayload {
            success: Some(EngineSuccess {
                compile: None,
                run: some_run_stage(),
                language: "python".to_string(),
                version: "3.10.0".to_string(),
            }),
            error_message: None,
            decode_failure: String::new(),
        },
    };
    let e = finish_execution(reply, &p).unwrap();
    assert_eq!(e.stdout, "ok");
    assert!(e.did_not_crash);
    assert_eq!(e.time, 5);
}

#[test]
fn validation_precedes_resolution() {
    let p = profile_with(InputMode::Stdin, true);
    let runtimes: Vec<Runtime> = Vec::new();
    // Both the timeout and the language are bad; the timeout fails first,
    // before any catalog lookup.
    let err = prepare_execution(&request_with_input(None), &runtimes, &Some(0), &p).unwrap_err();
    assert!(matches!(err, RunnerError::ValidationError { run_timeout: 0 }));
}

#[test]
fn prepare_resolves_version_and_builds() {
    let p = profile_with(InputMode::Stdin, true);
    let runtimes = vec![Runtime {
        language: "Python".to_string(),
        version: "3.10.0".to_string(),
        aliases: vec!["py".to_string()],
    }];
    let req = prepare_execution(&request_with_input(Some("x")), &runtimes, &Some(1500), &p)
        .unwrap();
    // The engine request names the caller's language but the catalog's
    // resolved version.
    assert_eq!(req.language, "python");
    assert_eq!(req.version, "3.10.0");
    assert_eq!(req.run_timeout, Some(1500));
    assert_eq!(req.stdin, Some("x".to_string()));
}

#[test]
fn prepare_propagates_runtime_not_found() {
    let p = profile_with(InputMode::Stdin, true);
    let runtimes = vec![Runtime {
        language: "python".to_string(),
        version: "3.10.0".to_string(),
        aliases: vec![],
    }];
    let mut request = request_with_input(None);
    request.language = "ruby".to_string();
    request.version = Some("9.9.9".to_string());
    match prepare_execution(&request, &runtimes, &None, &p) {
        Err(RunnerError::RuntimeNotFound { language, version }) => {
            assert_eq!(language, "ruby");
            assert_eq!(version, Some("9.9.9".to_string()));
        }
        _ => panic!("expected RuntimeNotFound"),
    }
}
