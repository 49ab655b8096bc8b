use std::sync::Arc;

use stasis::control::{
    DocumentControlError, DocumentControlOutcome, DocumentControlReceiveOutcome,
};
use stasis::operation::{
    ControlOperationCompletion, ControlOperationPoll, ControlOutcomeDisposition, ControlReceive,
    ControlReceiveMode, PendingControlOperation,
};

#[test]
fn a_definitive_engine_rejection_stays_distinct_from_indeterminate_work() {
    let completion = ControlOperationCompletion::new(Arc::new(
        DocumentControlReceiveOutcome::CommandOutcome {
            outcome: DocumentControlOutcome::Rejected {
                error: DocumentControlError::Other,
                diagnostic: "NotControlled".to_owned(),
            },
            fault: None,
        },
    ));

    assert_eq!(
        completion.disposition(),
        ControlOutcomeDisposition::DefinitiveFailure
    );
}

#[test]
fn a_failed_observation_does_not_claim_page_mutation() {
    let completion = ControlOperationCompletion::new(Arc::new(
        DocumentControlReceiveOutcome::ObserveTransportFailure("TimedOut".to_owned()),
    ));

    assert_eq!(
        completion.disposition(),
        ControlOutcomeDisposition::DefinitiveFailure
    );
}

#[test]
fn a_missing_read_only_automation_response_is_definitive() {
    let completion = ControlOperationCompletion::new(Arc::new(
        DocumentControlReceiveOutcome::AutomationTransportFailure("Disconnected".to_owned()),
    ));

    assert_eq!(
        completion.disposition(),
        ControlOutcomeDisposition::DefinitiveFailure
    );
}

#[test]
fn a_missing_drive_response_is_indeterminate_and_not_retryable() {
    let completion = ControlOperationCompletion::new(Arc::new(
        DocumentControlReceiveOutcome::DriveOneTurnOutcomeIndeterminate("Disconnected".to_owned()),
    ));

    assert_eq!(
        completion.disposition(),
        ControlOutcomeDisposition::Indeterminate
    );
}

#[test]
fn an_operation_is_pending_until_its_only_result() {
    let operation = PendingControlOperation::new(10);
    assert_eq!(operation.deadline(), 10);
    assert_eq!(operation.receive_mode(9), ControlReceiveMode::Try);
    assert_eq!(operation.receive_mode(10), ControlReceiveMode::Final);
    let ControlOperationPoll::Pending(operation) = operation.poll(ControlReceive::Tried(None), 9)
    else {
        panic!("an operation without a response ended");
    };
    assert_eq!(operation.deadline(), 10);
    let outcome = Arc::new(DocumentControlReceiveOutcome::ObserveTransportFailure(
        "TimedOut".to_owned(),
    ));
    let ControlOperationPoll::Complete(completion) =
        operation.poll(ControlReceive::Tried(Some(outcome.clone())), 9)
    else {
        panic!("an operation with a response went on");
    };
    assert!(Arc::ptr_eq(&completion.into_receive_outcome(), &outcome));

    let late = PendingControlOperation::new(10);
    let ControlOperationPoll::Complete(completion) =
        late.poll(ControlReceive::Final(outcome.clone()), 10)
    else {
        panic!("an operation went on at its deadline");
    };
    assert_eq!(
        completion.disposition(),
        ControlOutcomeDisposition::DefinitiveFailure
    );
    assert!(Arc::ptr_eq(&completion.into_receive_outcome(), &outcome));

    let abandoned = PendingControlOperation::new(10).cancel(Arc::new(
        DocumentControlReceiveOutcome::DriveOneTurnOutcomeIndeterminate("Cancelled".to_owned()),
    ));
    assert_eq!(
        abandoned.disposition(),
        ControlOutcomeDisposition::Indeterminate
    );
}
