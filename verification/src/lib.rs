//! Core of a code-execution proxy service.
//!
//! The service accepts untrusted source code, forwards it to a remote
//! sandboxed multi-language execution engine, normalizes the engine's
//! heterogeneous responses into a stable `Execution` record, and can run the
//! same program against an ordered battery of test cases.  This crate holds
//! the verified core: runtime resolution, request building and validation,
//! response classification and normalization, the time-boxed memoization
//! cache, and the test harness.  The surrounding process (HTTP transport,
//! JSON decoding of the wire payloads) lives outside and hands this crate
//! plain values.

pub mod cache;
pub mod catalog;
pub mod domain;
pub mod engine;
pub mod harness;
pub mod normalize;
pub mod text;

pub use domain::{
    ExecuteCodeRequest, ExecuteWithTests, Execution, ExecutionWithTest, RunTests, Runtime, Test,
};
