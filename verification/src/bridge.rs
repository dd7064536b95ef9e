//! Host-offload bridge.
//!
//! Every invocation moves through one state machine: received, dispatched
//! to a freshly spawned background unit, completed with exactly one reply.
//! The caller's scheduler is never blocked: the background unit does the
//! work and the reply flows back asynchronously.  When the background unit
//! cannot even be started, a synthesized internal-error reply is recorded
//! instead, so no invocation is ever silently dropped.
//!
//! The spawning and the reply channel themselves are host plumbing outside
//! this library; what is verified here is the protocol: which reply each
//! outcome produces, and that a reply is produced exactly once.

use vstd::prelude::*;

use crate::errors::WorkerError;
use crate::wasm::ExecutionResult;

verus! {

/// The diagnostic of a failure reply: a structured error of the taxonomy,
/// or the raw text a sandboxed run left on its diagnostic stream.
pub enum Diagnostic {
    Structured { error: WorkerError },
    Text { bytes: Vec<u8> },
}

/// One asynchronous reply per invocation: an ok-tag with the payload, or
/// an error-tag with a diagnostic.
pub enum Reply<T> {
    Success { payload: T },
    Failure { diagnostic: Diagnostic },
}

/// Turns the outcome of a background unit into its reply.
pub fn reply_of<T>(outcome: Result<T, WorkerError>) -> (r: Reply<T>)
    ensures
        outcome matches Ok(v) ==> (r matches Reply::Success { payload } && payload == v),
        outcome matches Err(e) ==> (r matches Reply::Failure { diagnostic }
            && diagnostic matches Diagnostic::Structured { error } && error == e),
{
    match outcome {
        Ok(payload) => Reply::Success { payload },
        Err(error) => Reply::Failure { diagnostic: Diagnostic::Structured { error } },
    }
}

/// Turns the outcome of one sandboxed run into its reply: a normal return
/// replies success with the captured output bytes; a trapped run replies
/// failure whose diagnostic is the captured stderr text; an error of the
/// taxonomy replies failure with that structured error.
pub fn reply_of_run(outcome: Result<ExecutionResult, WorkerError>) -> (r: Reply<Vec<u8>>)
    ensures
        outcome matches Ok(ExecutionResult::Success { output }) ==> (r matches Reply::Success {
            payload,
        } && payload == output),
        outcome matches Ok(ExecutionResult::Failure { output }) ==> (r matches Reply::Failure {
            diagnostic,
        } && diagnostic matches Diagnostic::Text { bytes } && bytes == output),
        outcome matches Err(e) ==> (r matches Reply::Failure { diagnostic }
            && diagnostic matches Diagnostic::Structured { error } && error == e),
{
    match outcome {
        Ok(ExecutionResult::Success { output }) => Reply::Success { payload: output },
        Ok(ExecutionResult::Failure { output }) => Reply::Failure {
            diagnostic: Diagnostic::Text { bytes: output },
        },
        Err(error) => Reply::Failure { diagnostic: Diagnostic::Structured { error } },
    }
}

/// Where one invocation stands.
pub enum InvocationState<T> {
    /// Accepted, background unit not started yet.
    Received,
    /// Work handed to a background unit; the caller is not blocked.
    Dispatched,
    /// Finished, with the one reply owed to the caller.
    Completed { reply: Reply<T> },
}

/// One invocation moving through the bridge.  The methods' contracts
/// admit each transition exactly once: an invocation is dispatched only
/// from received, completed only from dispatched (or synthesized from
/// received when dispatch itself fails), and a completed invocation is
/// final.
pub struct Invocation<T> {
    state: InvocationState<T>,
}

impl<T> Invocation<T> {
    /// Where this invocation stands.
    pub closed spec fn spec_state(&self) -> InvocationState<T> {
        self.state
    }

    /// The reply recorded for this invocation, once completed.
    pub open spec fn spec_reply(&self) -> Option<Reply<T>> {
        match self.spec_state() {
            InvocationState::Completed { reply } => Some(reply),
            _ => None,
        }
    }

    /// Accepts an invocation.
    pub fn receive() -> (r: Invocation<T>)
        ensures
            r.spec_state() is Received,
    {
        Invocation { state: InvocationState::Received }
    }

    /// Records that the background unit was started.
    pub fn dispatch(&mut self)
        requires
            old(self).spec_state() is Received,
        ensures
            final(self).spec_state() is Dispatched,
    {
        self.state = InvocationState::Dispatched;
    }

    /// Records the one reply of a finished background unit.
    pub fn complete(&mut self, reply: Reply<T>)
        requires
            old(self).spec_state() is Dispatched,
        ensures
            final(self).spec_state() matches InvocationState::Completed { reply: recorded }
                && recorded == reply,
    {
        self.state = InvocationState::Completed { reply };
    }

    /// Synthesizes the internal-error reply for an invocation whose
    /// background unit could not be started, so that it is not silently
    /// dropped.
    pub fn dispatch_failed(&mut self, message: String)
        requires
            old(self).spec_state() is Received,
        ensures
            final(self).spec_state() matches InvocationState::Completed { reply }
                && reply matches Reply::Failure { diagnostic }
                && diagnostic matches Diagnostic::Structured { error }
                && error matches WorkerError::InternalDispatch { message: recorded }
                && recorded == message,
    {
        self.state = InvocationState::Completed {
            reply: Reply::Failure {
                diagnostic: Diagnostic::Structured {
                    error: WorkerError::InternalDispatch { message },
                },
            },
        };
    }

    /// Takes the recorded reply out of a completed invocation, consuming
    /// it: the one delivery of the one reply.
    pub fn into_reply(self) -> (r: Option<Reply<T>>)
        ensures
            r == self.spec_reply(),
    {
        match self.state {
            InvocationState::Completed { reply } => Some(reply),
            _ => None,
        }
    }

    /// The recorded reply, once the invocation has completed.
    pub fn reply(&self) -> (r: Option<&Reply<T>>)
        ensures
            match r {
                Some(reply) => self.spec_reply() == Some(*reply),
                None => self.spec_reply() is None,
            },
    {
        match &self.state {
            InvocationState::Completed { reply } => Some(reply),
            _ => None,
        }
    }
}

} // verus!
