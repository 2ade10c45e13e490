//! Shared execution context: an asynchronous execution engine that lets
//! synchronous boundary calls perform asynchronous work internally by
//! blocking the calling thread until completion.
//!
//! The engine is constructed explicitly, once, by the embedding layer, and
//! lives as long as the process; this module exposes no shutdown. A
//! construction failure is terminal: there is no degraded mode.

use vstd::prelude::*;
use crate::bridge::Failure;

verus! {

#[verifier::external_type_specification]
#[verifier::external_body]
/// The engine type of the tokio crate, opaque to verification.
pub struct ExRuntime(tokio::runtime::Runtime);

/// Relies on tokio::runtime::Runtime::new: builds a multi-thread runtime with
/// a worker pool, or reports why the engine could not start; the error is
/// carried out as its display text.
#[verifier::external_body]
fn new_runtime() -> (r: Result<tokio::runtime::Runtime, String>) {
    match tokio::runtime::Runtime::new() {
        Ok(rt) => Ok(rt),
        Err(e) => Err(format!("{e}")),
    }
}

/// Relies on tokio::runtime::Runtime::block_on, which runs a future on the
/// runtime and blocks the calling thread until it completes, returning the
/// future's output — here the future is `core::future::ready(value)`, whose
/// output is exactly `value`. Must not be called from within an asynchronous
/// context; the boundary calls this core serves are synchronous.
#[verifier::external_body]
fn block_on_ready<T>(rt: &tokio::runtime::Runtime, value: T) -> (r: T)
    ensures
        r == value,
{
    rt.block_on(core::future::ready(value))
}

/// The shared execution engine: one worker pool behind every boundary call.
/// The embedding layer constructs it once at first use and keeps it for the
/// life of the process.
pub struct ExecutionContext {
    engine: tokio::runtime::Runtime,
}

impl ExecutionContext {
    /// Starts the engine. A failure to start is an internal failure and is
    /// terminal: no context exists afterwards.
    pub fn new() -> (r: Result<ExecutionContext, Failure>)
        ensures
            r matches Err(f) ==> f is Internal,
    {
        match new_runtime() {
            Ok(engine) => Ok(ExecutionContext { engine }),
            Err(text) => Err(Failure::Internal(text)),
        }
    }

    /// Submits an operation whose outcome has been determined and blocks the
    /// calling thread until the engine hands it back: the exact success value
    /// when the operation succeeded, and the failure unchanged when it
    /// failed — nothing is wrapped and nothing is lost.
    pub fn block_on<T>(&self, op: Result<T, Failure>) -> (r: Result<T, Failure>)
        ensures
            r == op,
    {
        block_on_ready(&self.engine, op)
    }
}

} // verus!
