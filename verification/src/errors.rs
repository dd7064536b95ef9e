//! Error taxonomy of the worker core.
//!
//! Every failure is captured at its origin and converted into exactly one
//! tagged error.  Faults reported by the container engine's transport are
//! first brought into [`EngineFault`] form and then classified by the
//! lifecycle step that was running, so that the distinct error classes
//! (connection unavailable, image not found, name conflict, timeout,
//! protocol error) can be told apart.
//!
//! A trap inside a sandboxed run is not an error of this taxonomy: it is an
//! execution result carrying the captured diagnostic stream.

use vstd::prelude::*;

verus! {

/// How a call into the container engine failed, as its transport reports it:
/// a timeout, a server reply with a status code and message, or a transport
/// fault described only by a message.
#[derive(Debug)]
pub enum EngineFault {
    Timeout,
    Server { status: u16, message: String },
    Transport { message: String },
}

/// The lifecycle step that was talking to the container engine when a fault
/// came back.  The same status code means different things on different
/// steps: a missing image and a missing container both answer with the same
/// not-found status.
#[derive(Debug, Clone, Copy, PartialEq, Eq, Structural)]
pub enum EngineOp {
    Connect,
    Pull,
    Create,
    Start,
    AttachNetwork,
    Inspect,
    Logs,
    Upload,
    Wait,
    Kill,
    Remove,
}

/// One tagged error per failed invocation.
#[derive(Debug)]
pub enum WorkerError {
    /// The engine endpoint could not be reached.
    ConnectionUnavailable { message: String },
    /// The symbolic runtime name maps to no image.
    ImageResolution { image: String },
    /// The engine knows no image under the requested reference.
    ImageNotFound { message: String },
    /// A live container already holds the requested name.
    NameConflict { message: String },
    /// The named container does not exist.
    NotFound { message: String },
    /// The engine did not answer in time.
    Timeout,
    /// The inspected network configuration yields no reachable endpoint.
    NetworkConfigMissing,
    /// Any other engine reply: status code and message passed through.
    Protocol { status: u16, message: String },
    /// The module bytes did not compile; carries the engine diagnostic.
    Compile { message: String },
    /// The compiled module could not be linked or instantiated.
    Link { message: String },
    /// A shared resource lock could not be acquired.
    ResourceUnavailable,
    /// The background unit for an invocation could not be started.
    InternalDispatch { message: String },
}

/// The error class an engine fault falls in, given the step it interrupted.
pub open spec fn spec_classify(op: EngineOp, f: EngineFault) -> WorkerError {
    match f {
        EngineFault::Timeout => WorkerError::Timeout,
        EngineFault::Transport { message } => WorkerError::ConnectionUnavailable { message },
        EngineFault::Server { status, message } => {
            if op == EngineOp::Pull && status == 404 {
                WorkerError::ImageNotFound { message }
            } else if op == EngineOp::Create && status == 409 {
                WorkerError::NameConflict { message }
            } else if status == 404 {
                WorkerError::NotFound { message }
            } else {
                WorkerError::Protocol { status, message }
            }
        },
    }
}

/// Classifies an engine fault by the step it interrupted.
pub fn classify_fault(op: EngineOp, f: EngineFault) -> (e: WorkerError)
    ensures
        e == spec_classify(op, f),
{
    match f {
        EngineFault::Timeout => WorkerError::Timeout,
        EngineFault::Transport { message } => WorkerError::ConnectionUnavailable { message },
        EngineFault::Server { status, message } => {
            if status == 404 && matches!(op, EngineOp::Pull) {
                WorkerError::ImageNotFound { message }
            } else if status == 409 && matches!(op, EngineOp::Create) {
                WorkerError::NameConflict { message }
            } else if status == 404 {
                WorkerError::NotFound { message }
            } else {
                WorkerError::Protocol { status, message }
            }
        },
    }
}

} // verus!
