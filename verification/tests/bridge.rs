use funless_worker::bridge::{reply_of, reply_of_run, Diagnostic, Invocation, Reply};
use funless_worker::errors::WorkerError;
use funless_worker::wasm::ExecutionResult;

#[test]
fn successful_work_replies_its_payload() {
    let mut invocation: Invocation<u32> = Invocation::receive();
    invocation.dispatch();
    invocation.complete(reply_of(Ok(17)));
    match invocation.reply() {
        Some(Reply::Success { payload }) => assert_eq!(*payload, 17),
        _ => panic!("expected a success reply"),
    }
}

#[test]
fn failed_work_replies_its_structured_error() {
    let mut invocation: Invocation<u32> = Invocation::receive();
    invocation.dispatch();
    invocation.complete(reply_of(Err(WorkerError::Timeout)));
    match invocation.reply() {
        Some(Reply::Failure { diagnostic: Diagnostic::Structured { error } }) => {
            assert!(matches!(error, WorkerError::Timeout));
        }
        _ => panic!("expected a structured failure reply"),
    }
}

#[test]
fn undispatchable_invocation_gets_a_synthesized_reply() {
    let mut invocation: Invocation<u32> = Invocation::receive();
    assert!(invocation.reply().is_none());
    invocation.dispatch_failed(String::from("could not copy the code"));
    match invocation.reply() {
        Some(Reply::Failure { diagnostic: Diagnostic::Structured { error } }) => match error {
            WorkerError::InternalDispatch { message } => {
                assert_eq!(message, "could not copy the code");
            }
            _ => panic!("expected an internal-dispatch error"),
        },
        _ => panic!("expected a failure reply"),
    }
}

#[test]
fn trapped_run_replies_the_diagnostic_text() {
    let outcome = Ok(ExecutionResult::Failure { output: b"\"boom\"".to_vec() });
    match reply_of_run(outcome) {
        Reply::Failure { diagnostic: Diagnostic::Text { bytes } } => {
            assert_eq!(bytes, b"\"boom\"".to_vec());
        }
        _ => panic!("expected a text diagnostic"),
    }
}

#[test]
fn returned_run_replies_the_output_bytes() {
    let outcome = Ok(ExecutionResult::Success { output: b"{}".to_vec() });
    match reply_of_run(outcome) {
        Reply::Success { payload } => assert_eq!(payload, b"{}".to_vec()),
        _ => panic!("expected a success reply"),
    }
}
