//! Result normalizer: maps the engine's raw success response into the stable
//! `Execution` record.
//!
//! Normalization strips exactly one trailing newline from the run stage's
//! stdout, prefers a non-empty compile-stage stderr over the run stage's,
//! derives `did_not_crash` from the exit code and terminating signal, and
//! copies or derives the time-limit telemetry according to the profile.

use vstd::prelude::*;
use vstd::string::StringExecFns;

use crate::domain::{empty_to_none, Execution, ExecutionView};
use crate::engine::{CompatProfile, EngineSuccess, EngineSuccessView, JobResultView, TimeLimitMode};
use crate::text::{spec_strip_newline, strip_one_trailing_newline};

verus! {

/// The signal name the platform reports for a forcibly killed process.
pub open spec fn spec_kill_signal() -> Seq<char> {
    "SIGKILL"@
}

fn kill_signal() -> (r: String)
    ensures
        r@ == spec_kill_signal(),
{
    String::from_str("SIGKILL")
}

/// Whether the run did not crash: an exit code of zero, or no exit code
/// reported together with no terminating signal.  Every other outcome — a
/// nonzero exit code, or a signal with no exit code — counts as a crash.
pub open spec fn spec_did_not_crash(code: Option<i64>, signal: Option<Seq<char>>) -> bool {
    match code {
        Some(c) => c == 0,
        None => signal is None,
    }
}

/// The normalized stderr: a non-empty compile-stage stderr wins; otherwise a
/// non-empty run-stage stderr; otherwise absent.
pub open spec fn spec_stderr_of(compile: Option<JobResultView>, run: JobResultView) -> Option<
    Seq<char>,
> {
    let from_compile: Option<Seq<char>> = match compile {
        Some(c) => if c.stderr.len() > 0 {
            Some(c.stderr)
        } else {
            None
        },
        None => None,
    };
    match from_compile {
        Some(s) => Some(s),
        None => if run.stderr.len() > 0 {
            Some(run.stderr)
        } else {
            None
        },
    }
}

/// The normalized time-limit flag: copied verbatim from the run stage, or —
/// in the legacy-compatible mode — derived from whether the terminating
/// signal is the platform's forcible kill.
pub open spec fn spec_time_limit_exceeded(run: JobResultView, mode: TimeLimitMode) -> bool {
    match mode {
        TimeLimitMode::Flag => run.time_limit_exceeded,
        TimeLimitMode::KillSignal => run.signal == Some(spec_kill_signal()),
    }
}

/// The full normalized record for one raw success response.
pub open spec fn spec_normalize(res: EngineSuccessView, mode: TimeLimitMode) -> ExecutionView {
    ExecutionView {
        stdout: spec_strip_newline(res.run.stdout),
        stderr: spec_stderr_of(res.compile, res.run),
        time: res.run.time,
        time_limit_exceeded: spec_time_limit_exceeded(res.run, mode),
        did_not_crash: spec_did_not_crash(res.run.code, res.run.signal),
    }
}

/// Normalizes a raw engine success response into the stable `Execution`
/// record, exactly as `spec_normalize` describes.
pub fn normalize_execution(res: &EngineSuccess, profile: &CompatProfile) -> (e: Execution)
    ensures
        e@ == spec_normalize(res@, profile.time_limit_mode),
{
    let stdout = strip_one_trailing_newline(&res.run.stdout);
    let compile_stderr: Option<String> = match &res.compile {
        Some(c) => empty_to_none(c.stderr.clone()),
        None => None,
    };
    let stderr: Option<String> = match compile_stderr {
        Some(s) => Some(s),
        None => empty_to_none(res.run.stderr.clone()),
    };
    let did_not_crash = match &res.run.code {
        Some(c) => *c == 0,
        None => match &res.run.signal {
            Some(_) => false,
            None => true,
        },
    };
    let time_limit_exceeded = match profile.time_limit_mode {
        TimeLimitMode::Flag => res.run.time_limit_exceeded,
        TimeLimitMode::KillSignal => match &res.run.signal {
            Some(sig) => *sig == kill_signal(),
            None => false,
        },
    };
    Execution {
        stdout,
        stderr,
        time: res.run.time,
        time_limit_exceeded,
        did_not_crash,
    }
}

/// The crash rule, spelled out: exit code zero never counts as a crash; a
/// nonzero exit code always does; with no exit code reported, the run
/// crashed exactly when some terminating signal is present.
pub proof fn lemma_did_not_crash_cases(code: Option<i64>, signal: Option<Seq<char>>)
    ensures
        code == Some(0i64) ==> spec_did_not_crash(code, signal),
        (code matches Some(c) && c != 0) ==> !spec_did_not_crash(code, signal),
        code is None && signal is None ==> spec_did_not_crash(code, signal),
        code is None && signal is Some ==> !spec_did_not_crash(code, signal),
{
}

/// Stdout normalization, spelled out: a trailing newline is removed and
/// nothing else; without one the output is untouched; an output ending in
/// two newlines keeps the first of them.
pub proof fn lemma_strip_newline_cases(s: Seq<char>)
    ensures
        s.len() > 0 && s.last() == '\n' ==> spec_strip_newline(s) == s.drop_last(),
        s.len() == 0 || s.last() != '\n' ==> spec_strip_newline(s) == s,
        s.len() >= 2 && s[s.len() - 1] == '\n' && s[s.len() - 2] == '\n'
            ==> spec_strip_newline(s).len() == s.len() - 1 && spec_strip_newline(s).last() == '\n',
{
}

} // verus!
