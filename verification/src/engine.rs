//! Dispatcher: building the engine-facing execution request from a caller's
//! request, validating the optional run timeout, and classifying what came
//! back over the wire against the engine's success and error schemas.
//!
//! The transport itself (the HTTP call and the JSON decode of the two
//! schemas) happens outside this crate; the outside hands in an
//! `EngineReply` of plain values and takes plain values back.

use vstd::prelude::*;
use vstd::string::StringExecFns;

use crate::catalog::{resolve_runtime, spec_first_match_at, spec_has_match};
use crate::domain::{
    clone_opt_string, ExecuteCodeRequest, ExecuteCodeRequestView, Execution, ExecutionView,
    RunnerError, RunnerErrorView, Runtime,
};
use crate::normalize::{normalize_execution, spec_normalize};
use crate::text::{spec_lines, split_lines};

verus! {

/// Compile-stage memory ceiling handed to the engine, in bytes (512 MiB).
pub const COMPILE_MEMORY_LIMIT_BYTES: i64 = 512 * 1024 * 1024;

/// Run-stage memory ceiling handed to the engine, in bytes (512 MiB).
pub const RUN_MEMORY_LIMIT_BYTES: i64 = 512 * 1024 * 1024;

/// Smallest caller-supplied run timeout the dispatcher accepts, in
/// milliseconds.
pub const RUN_TIMEOUT_MIN_MILLIS: i64 = 1;

/// Largest caller-supplied run timeout the dispatcher accepts, in
/// milliseconds.
pub const RUN_TIMEOUT_MAX_MILLIS: i64 = 3000;

// ---------------------------------------------------------------------------
// Compatibility profile
// ---------------------------------------------------------------------------

/// How the program's input reaches the process: over its standard input, or
/// split into lines and passed as process arguments.
#[derive(Clone, Copy, PartialEq, Eq, Structural)]
pub enum InputMode {
    Stdin,
    Args,
}

/// How `time_limit_exceeded` is derived from the run stage: from the flag
/// the engine reports, or — for engines that omit the flag — from whether
/// the terminating signal is the platform's forcible kill.
#[derive(Clone, Copy, PartialEq, Eq, Structural)]
pub enum TimeLimitMode {
    Flag,
    KillSignal,
}

/// One compatibility profile, fixed at configuration time.  All response and
/// request shape variants are parameterized by this value; there is exactly
/// one dispatch and one normalization code path.
#[derive(Clone, Copy, PartialEq, Eq, Structural)]
pub struct CompatProfile {
    pub input_mode: InputMode,
    pub supports_run_timeout: bool,
    pub time_limit_mode: TimeLimitMode,
}

impl Default for CompatProfile {
    /// The default profile: input over stdin, caller-supplied run timeouts
    /// accepted, time-limit flag taken from the engine verbatim.
    fn default() -> (p: Self)
        ensures
            p == (CompatProfile {
                input_mode: InputMode::Stdin,
                supports_run_timeout: true,
                time_limit_mode: TimeLimitMode::Flag,
            }),
    {
        CompatProfile {
            input_mode: InputMode::Stdin,
            supports_run_timeout: true,
            time_limit_mode: TimeLimitMode::Flag,
        }
    }
}

// ---------------------------------------------------------------------------
// Engine-facing request
// ---------------------------------------------------------------------------

/// One source file of the engine request.
#[derive(Debug)]
pub struct EngineFile {
    pub name: Option<String>,
    pub content: String,
}

/// Mathematical model of an `EngineFile`.
pub ghost struct EngineFileView {
    pub name: Option<Seq<char>>,
    pub content: Seq<char>,
}

impl View for EngineFile {
    type V = EngineFileView;

    open spec fn view(&self) -> EngineFileView {
        EngineFileView { name: self.name.deep_view(), content: self.content@ }
    }
}

impl DeepView for EngineFile {
    type V = EngineFileView;

    open spec fn deep_view(&self) -> EngineFileView {
        self.view()
    }
}

/// The request body sent to the engine's execute endpoint.
#[derive(Debug)]
pub struct EngineRequest {
    pub language: String,
    pub version: String,
    pub files: Vec<EngineFile>,
    pub stdin: Option<String>,
    pub args: Option<Vec<String>>,
    pub compile_timeout: Option<i64>,
    pub run_timeout: Option<i64>,
    pub compile_memory_limit: Option<i64>,
    pub run_memory_limit: Option<i64>,
}

/// Mathematical model of an `EngineRequest`.
pub ghost struct EngineRequestView {
    pub language: Seq<char>,
    pub version: Seq<char>,
    pub files: Seq<EngineFileView>,
    pub stdin: Option<Seq<char>>,
    pub args: Option<Seq<Seq<char>>>,
    pub compile_timeout: Option<i64>,
    pub run_timeout: Option<i64>,
    pub compile_memory_limit: Option<i64>,
    pub run_memory_limit: Option<i64>,
}

impl View for EngineRequest {
    type V = EngineRequestView;

    open spec fn view(&self) -> EngineRequestView {
        EngineRequestView {
            language: self.language@,
            version: self.version@,
            files: self.files.deep_view(),
            stdin: self.stdin.deep_view(),
            args: self.args.deep_view(),
            compile_timeout: self.compile_timeout,
            run_timeout: self.run_timeout,
            compile_memory_limit: self.compile_memory_limit,
            run_memory_limit: self.run_memory_limit,
        }
    }
}

// ---------------------------------------------------------------------------
// Engine response shapes
// ---------------------------------------------------------------------------

/// One stage's telemetry in the engine's success response.
#[derive(Debug)]
pub struct JobResult {
    pub stdout: String,
    pub stderr: String,
    pub code: Option<i64>,
    pub signal: Option<String>,
    pub output: String,
    pub time: i64,
    pub time_limit_exceeded: bool,
}

/// Mathematical model of a `JobResult`.
pub ghost struct JobResultView {
    pub stdout: Seq<char>,
    pub stderr: Seq<char>,
    pub code: Option<i64>,
    pub signal: Option<Seq<char>>,
    pub output: Seq<char>,
    pub time: i64,
    pub time_limit_exceeded: bool,
}

impl View for JobResult {
    type V = JobResultView;

    open spec fn view(&self) -> JobResultView {
        JobResultView {
            stdout: self.stdout@,
            stderr: self.stderr@,
            code: self.code,
            signal: self.signal.deep_view(),
            output: self.output@,
            time: self.time,
            time_limit_exceeded: self.time_limit_exceeded,
        }
    }
}

impl DeepView for JobResult {
    type V = JobResultView;

    open spec fn deep_view(&self) -> JobResultView {
        self.view()
    }
}

/// The engine's success schema: an optional compile stage, the run stage,
/// and the resolved language and version.
#[derive(Debug)]
pub struct EngineSuccess {
    pub compile: Option<JobResult>,
    pub run: JobResult,
    pub language: String,
    pub version: String,
}

/// Mathematical model of an `EngineSuccess`.
pub ghost struct EngineSuccessView {
    pub compile: Option<JobResultView>,
    pub run: JobResultView,
    pub language: Seq<char>,
    pub version: Seq<char>,
}

impl View for EngineSuccess {
    type V = EngineSuccessView;

    open spec fn view(&self) -> EngineSuccessView {
        EngineSuccessView {
            compile: self.compile.deep_view(),
            run: self.run@,
            language: self.language@,
            version: self.version@,
        }
    }
}

impl DeepView for EngineSuccess {
    type V = EngineSuccessView;

    open spec fn deep_view(&self) -> EngineSuccessView {
        self.view()
    }
}

/// The outcome of decoding a received engine response against the success
/// schema and, failing that, against the error schema, in that order.
#[derive(Debug)]
pub struct DecodedPayload {
    /// Set when the response matched the success schema.
    pub success: Option<EngineSuccess>,
    /// Set when the response matched the error schema (`{message}`).
    pub error_message: Option<String>,
    /// Description of the decode failure, for when neither schema matched.
    pub decode_failure: String,
}

/// Mathematical model of a `DecodedPayload`.
pub ghost struct DecodedPayloadView {
    pub success: Option<EngineSuccessView>,
    pub error_message: Option<Seq<char>>,
    pub decode_failure: Seq<char>,
}

impl View for DecodedPayload {
    type V = DecodedPayloadView;

    open spec fn view(&self) -> DecodedPayloadView {
        DecodedPayloadView {
            success: self.success.deep_view(),
            error_message: self.error_message.deep_view(),
            decode_failure: self.decode_failure@,
        }
    }
}

/// What the transport layer hands back for one engine call: either the call
/// itself failed, or a response arrived and was decoded.
#[derive(Debug)]
pub enum EngineReply {
    /// The engine could not be reached; carries the transport failure's
    /// description.
    TransportFailure { cause: String },
    /// A response arrived; `payload` records how it decoded.
    Response { payload: DecodedPayload },
}

/// Mathematical model of an `EngineReply`.
pub ghost enum EngineReplyView {
    TransportFailure { cause: Seq<char> },
    Response { payload: DecodedPayloadView },
}

impl View for EngineReply {
    type V = EngineReplyView;

    open spec fn view(&self) -> EngineReplyView {
        match self {
            EngineReply::TransportFailure { cause } => EngineReplyView::TransportFailure {
                cause: cause@,
            },
            EngineReply::Response { payload } => EngineReplyView::Response { payload: payload@ },
        }
    }
}

// ---------------------------------------------------------------------------
// Run-timeout validation
// ---------------------------------------------------------------------------

/// Whether a caller-supplied run timeout value lies in the accepted range.
pub open spec fn spec_run_timeout_in_range(t: i64) -> bool {
    RUN_TIMEOUT_MIN_MILLIS <= t <= RUN_TIMEOUT_MAX_MILLIS
}

/// Whether the dispatcher accepts this optional run timeout under this
/// profile: absent is always accepted; present is accepted only where the
/// profile exposes the option and the value is in range.
pub open spec fn spec_run_timeout_accepted(run_timeout: Option<i64>, profile: CompatProfile) -> bool {
    match run_timeout {
        None => true,
        Some(t) => profile.supports_run_timeout && spec_run_timeout_in_range(t),
    }
}

/// Validates the caller's optional run timeout before anything is sent over
/// the network: an accepted value passes through unchanged; a rejected one
/// fails with `ValidationError` naming it.
pub fn validate_run_timeout(run_timeout: &Option<i64>, profile: &CompatProfile) -> (r: Result<
    Option<i64>,
    RunnerError,
>)
    ensures
        match r {
            Ok(t) => spec_run_timeout_accepted(*run_timeout, *profile) && t == *run_timeout,
            Err(e) => {
                &&& !spec_run_timeout_accepted(*run_timeout, *profile)
                &&& (*run_timeout matches Some(v) && e@ == (RunnerErrorView::ValidationError {
                    run_timeout: v,
                }))
            },
        },
{
    match run_timeout {
        None => Ok(None),
        Some(t) => {
            if profile.supports_run_timeout && RUN_TIMEOUT_MIN_MILLIS <= *t && *t
                <= RUN_TIMEOUT_MAX_MILLIS {
                Ok(Some(*t))
            } else {
                Err(RunnerError::ValidationError { run_timeout: *t })
            }
        },
    }
}

// ---------------------------------------------------------------------------
// Request building
// ---------------------------------------------------------------------------

/// The engine request built for `data` once the runtime version is resolved
/// and the run timeout validated: one source file named "Main" holding the
/// code, fixed 512 MiB memory ceilings, no compile timeout, and the input
/// delivered according to the profile's input mode.
pub open spec fn spec_build_request(
    data: ExecuteCodeRequestView,
    version: Seq<char>,
    run_timeout: Option<i64>,
    profile: CompatProfile,
) -> EngineRequestView {
    EngineRequestView {
        language: data.language,
        version: version,
        files: seq![EngineFileView { name: Some("Main"@), content: data.code }],
        stdin: if profile.input_mode == InputMode::Stdin {
            data.input
        } else {
            None
        },
        args: if profile.input_mode == InputMode::Args {
            match data.input {
                Some(input) => Some(spec_lines(input)),
                None => None,
            }
        } else {
            None
        },
        compile_timeout: None,
        run_timeout: run_timeout,
        compile_memory_limit: Some(COMPILE_MEMORY_LIMIT_BYTES),
        run_memory_limit: Some(RUN_MEMORY_LIMIT_BYTES),
    }
}

/// Builds the engine request, exactly as `spec_build_request` describes.
pub fn build_engine_request(
    data: &ExecuteCodeRequest,
    version: &String,
    run_timeout: &Option<i64>,
    profile: &CompatProfile,
) -> (r: EngineRequest)
    ensures
        r@ == spec_build_request(data@, version@, *run_timeout, *profile),
{
    let name = String::from_str("Main");
    let mut files: Vec<EngineFile> = Vec::new();
    files.push(EngineFile { name: Some(name), content: data.code.clone() });
    let stdin: Option<String> = match profile.input_mode {
        InputMode::Stdin => clone_opt_string(&data.input),
        InputMode::Args => None,
    };
    let args: Option<Vec<String>> = match profile.input_mode {
        InputMode::Stdin => None,
        InputMode::Args => match &data.input {
            Some(input) => Some(split_lines(input)),
            None => None,
        },
    };
    let r = EngineRequest {
        language: data.language.clone(),
        version: version.clone(),
        files,
        stdin,
        args,
        compile_timeout: None,
        run_timeout: match run_timeout {
            Some(t) => Some(*t),
            None => None,
        },
        compile_memory_limit: Some(COMPILE_MEMORY_LIMIT_BYTES),
        run_memory_limit: Some(RUN_MEMORY_LIMIT_BYTES),
    };
    proof {
        assert(r@.files =~= spec_build_request(data@, version@, *run_timeout, *profile).files);
        assert(r@ == spec_build_request(data@, version@, *run_timeout, *profile));
    }
    r
}

/// Validation, resolution and request building, in the order the dispatcher
/// performs them before any network traffic: a rejected run timeout fails
/// first; an unmatched runtime query fails second; otherwise the engine
/// request is built against the first matching runtime's version.
pub fn prepare_execution(
    data: &ExecuteCodeRequest,
    runtimes: &Vec<Runtime>,
    run_timeout: &Option<i64>,
    profile: &CompatProfile,
) -> (r: Result<EngineRequest, RunnerError>)
    ensures
        match r {
            Ok(req) => {
                &&& spec_run_timeout_accepted(*run_timeout, *profile)
                &&& exists|i: int|
                    spec_first_match_at(
                        runtimes.deep_view(),
                        data@.language,
                        data@.version,
                        i,
                    ) && req@ == spec_build_request(
                        data@,
                        runtimes.deep_view()[i].version,
                        *run_timeout,
                        *profile,
                    )
            },
            Err(e) => match e@ {
                RunnerErrorView::ValidationError { run_timeout: t } => {
                    &&& !spec_run_timeout_accepted(*run_timeout, *profile)
                    &&& *run_timeout == Some(t)
                },
                RunnerErrorView::RuntimeNotFound { language, version } => {
                    &&& spec_run_timeout_accepted(*run_timeout, *profile)
                    &&& !spec_has_match(runtimes.deep_view(), data@.language, data@.version)
                    &&& language == data@.language
                    &&& version == data@.version
                },
                _ => false,
            },
        },
{
    let timeout = match validate_run_timeout(run_timeout, profile) {
        Ok(t) => t,
        Err(e) => {
            return Err(e);
        },
    };
    let resolved = match resolve_runtime(runtimes, &data.language, &data.version) {
        Ok(rt) => rt,
        Err(e) => {
            return Err(e);
        },
    };
    Ok(build_engine_request(data, &resolved.version, &timeout, profile))
}

// ---------------------------------------------------------------------------
// Response classification
// ---------------------------------------------------------------------------

/// The explicit tagged-union reading of a decoded response: the success
/// schema wins when it matched; otherwise a matched error schema becomes the
/// engine's reported error; otherwise the response is a protocol error
/// carrying the decode failure description.
pub open spec fn spec_classify(p: DecodedPayloadView) -> Result<EngineSuccessView, RunnerErrorView> {
    match p.success {
        Some(s) => Ok(s),
        None => match p.error_message {
            Some(m) => Err(RunnerErrorView::EngineReportedError { message: m }),
            None => Err(RunnerErrorView::EngineProtocolError { detail: p.decode_failure }),
        },
    }
}

/// Classifies a decoded response, exactly as `spec_classify` describes.
pub fn classify_payload(payload: DecodedPayload) -> (r: Result<EngineSuccess, RunnerError>)
    ensures
        match r {
            Ok(s) => spec_classify(payload@) == Ok::<EngineSuccessView, RunnerErrorView>(s@),
            Err(e) => spec_classify(payload@) == Err::<EngineSuccessView, RunnerErrorView>(e@),
        },
{
    match payload.success {
        Some(s) => Ok(s),
        None => match payload.error_message {
            Some(m) => Err(RunnerError::EngineReportedError { message: m }),
            None => Err(RunnerError::EngineProtocolError { detail: payload.decode_failure }),
        },
    }
}

/// What one engine call comes to, given what the transport handed back: a
/// transport failure is `EngineUnreachable` carrying its cause; a response
/// is classified, and a classified success is normalized.
pub open spec fn spec_finish(reply: EngineReplyView, mode: TimeLimitMode) -> Result<
    ExecutionView,
    RunnerErrorView,
> {
    match reply {
        EngineReplyView::TransportFailure { cause } => Err(RunnerErrorView::EngineUnreachable {
            cause,
        }),
        EngineReplyView::Response { payload } => match spec_classify(payload) {
            Ok(s) => Ok(spec_normalize(s, mode)),
            Err(e) => Err(e),
        },
    }
}

/// Turns what came back from one engine call into the dispatcher's result,
/// exactly as `spec_finish` describes.
pub fn finish_execution(reply: EngineReply, profile: &CompatProfile) -> (r: Result<
    Execution,
    RunnerError,
>)
    ensures
        match r {
            Ok(e) => spec_finish(reply@, profile.time_limit_mode) == Ok::<ExecutionView,
                RunnerErrorView,
            >(e@),
            Err(e) => spec_finish(reply@, profile.time_limit_mode) == Err::<ExecutionView,
                RunnerErrorView,
            >(e@),
        },
{
    match reply {
        EngineReply::TransportFailure { cause } => Err(RunnerError::EngineUnreachable { cause }),
        EngineReply::Response { payload } => match classify_payload(payload) {
            Ok(s) => Ok(normalize_execution(&s, profile)),
            Err(e) => Err(e),
        },
    }
}

} // verus!
