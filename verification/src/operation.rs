//! One document-control response that the owner of the engine waits for.
//!
//! Receiving is consuming: each attempt either keeps the operation pending or yields its only
//! terminal result.

use std::sync::Arc;
use vstd::prelude::*;

use crate::control::{DocumentControlOutcome, DocumentControlReceiveOutcome};

verus! {

/// How certain a terminal result is about what the command did.
#[derive(Clone, Copy, Debug, PartialEq, Eq, Structural)]
pub enum ControlOutcomeDisposition {
    /// The command completed with an observation made after it.
    Completed,
    /// The command was rejected before it changed anything, or a read-only command got no response.
    DefinitiveFailure,
    /// A mutation may have happened and must never be repeated.
    Indeterminate,
}

/// How certain an outcome is about what its command did.
pub open spec fn disposition(outcome: DocumentControlReceiveOutcome) -> ControlOutcomeDisposition {
    match outcome {
        DocumentControlReceiveOutcome::CommandOutcome { outcome, .. } => match outcome {
            DocumentControlOutcome::Completed(_) => ControlOutcomeDisposition::Completed,
            DocumentControlOutcome::AutomationCompleted { .. } =>
            ControlOutcomeDisposition::Completed,
            DocumentControlOutcome::Rejected { .. } => ControlOutcomeDisposition::DefinitiveFailure,
            _ => ControlOutcomeDisposition::Indeterminate,
        },
        DocumentControlReceiveOutcome::DriveOneTurnOutcomeIndeterminate(_) =>
        ControlOutcomeDisposition::Indeterminate,
        _ => ControlOutcomeDisposition::DefinitiveFailure,
    }
}

fn disposition_for(outcome: &DocumentControlReceiveOutcome) -> (r: ControlOutcomeDisposition)
    ensures
        r == disposition(*outcome),
{
    match outcome {
        DocumentControlReceiveOutcome::CommandOutcome { outcome, .. } => match outcome {
            DocumentControlOutcome::Completed(_)
            | DocumentControlOutcome::AutomationCompleted { .. } =>
            ControlOutcomeDisposition::Completed,
            DocumentControlOutcome::Rejected { .. } => ControlOutcomeDisposition::DefinitiveFailure,
            DocumentControlOutcome::DriveOneTurnOutcomeIndeterminate { .. }
            | DocumentControlOutcome::AdvanceOutcomeIndeterminate
            | DocumentControlOutcome::AutomationOutcomeIndeterminate =>
            ControlOutcomeDisposition::Indeterminate,
        },
        DocumentControlReceiveOutcome::ObserveTransportFailure(_)
        | DocumentControlReceiveOutcome::AutomationTransportFailure(_) =>
        ControlOutcomeDisposition::DefinitiveFailure,
        DocumentControlReceiveOutcome::DriveOneTurnOutcomeIndeterminate(_) =>
        ControlOutcomeDisposition::Indeterminate,
    }
}

/// The terminal result of a control operation.
#[derive(Debug)]
pub struct ControlOperationCompletion {
    disposition: ControlOutcomeDisposition,
    outcome: Arc<DocumentControlReceiveOutcome>,
}

/// What a terminal result says.
pub struct ControlCompletionView {
    pub disposition: ControlOutcomeDisposition,
    pub outcome: Arc<DocumentControlReceiveOutcome>,
}

impl View for ControlOperationCompletion {
    type V = ControlCompletionView;

    closed spec fn view(&self) -> ControlCompletionView {
        ControlCompletionView { disposition: self.disposition, outcome: self.outcome }
    }
}

/// The terminal result that an outcome makes.
pub open spec fn completed(outcome: Arc<DocumentControlReceiveOutcome>) -> ControlCompletionView {
    ControlCompletionView { disposition: disposition(*outcome), outcome }
}

impl ControlOperationCompletion {
    /// The recorded disposition is that of the outcome.
    #[verifier::type_invariant]
    spec fn well_formed(self) -> bool {
        self.disposition == disposition(*self.outcome)
    }

    pub fn new(outcome: Arc<DocumentControlReceiveOutcome>) -> (r: Self)
        ensures
            r@ == completed(outcome),
    {
        ControlOperationCompletion { disposition: disposition_for(&outcome), outcome }
    }

    /// How certain this result is.
    pub fn disposition(&self) -> (r: ControlOutcomeDisposition)
        ensures
            r == self@.disposition,
            r == disposition(*self@.outcome),
    {
        proof {
            use_type_invariant(self);
        }
        self.disposition
    }

    /// The outcome itself.
    pub fn into_receive_outcome(self) -> (r: Arc<DocumentControlReceiveOutcome>)
        ensures
            r == self@.outcome,
    {
        self.outcome
    }
}

/// What one attempt to receive a response gave. The last attempt always gives an outcome: a response
/// that is ready, or what the command's timeout makes of its absence.
#[derive(Debug)]
pub enum ControlReceive {
    Tried(Option<Arc<DocumentControlReceiveOutcome>>),
    Final(Arc<DocumentControlReceiveOutcome>),
}

impl ControlReceive {
    /// Whether this was received in the given mode.
    pub open spec fn in_mode(self, mode: ControlReceiveMode) -> bool {
        (self is Final) == (mode == ControlReceiveMode::Final)
    }
}

/// How a response is asked for.
#[derive(Clone, Copy, Debug, PartialEq, Eq, Structural)]
pub enum ControlReceiveMode {
    /// Take a response that is ready, or stay pending.
    Try,
    /// Take a response that is ready, or give up as the command's timeout demands.
    Final,
}

/// The result of polling a control operation.
#[derive(Debug)]
pub enum ControlOperationPoll {
    Pending(PendingControlOperation),
    Complete(ControlOperationCompletion),
}

/// One document-control response in flight, with the instant at which its wait ends.
#[derive(Debug)]
pub struct PendingControlOperation {
    deadline: u64,
}

impl View for PendingControlOperation {
    type V = u64;

    closed spec fn view(&self) -> u64 {
        self.deadline
    }
}

/// At the deadline the receiver is asked for the last time.
pub open spec fn mode_at(deadline: u64, now: u64) -> ControlReceiveMode {
    if now >= deadline {
        ControlReceiveMode::Final
    } else {
        ControlReceiveMode::Try
    }
}

impl PendingControlOperation {
    pub fn new(deadline: u64) -> (r: Self)
        ensures
            r@ == deadline,
    {
        PendingControlOperation { deadline }
    }

    pub fn deadline(&self) -> (r: u64)
        ensures
            r == self@,
    {
        self.deadline
    }

    /// How the receiver is to be asked.
    pub fn receive_mode(&self, now: u64) -> (mode: ControlReceiveMode)
        ensures
            mode == mode_at(self@, now),
    {
        if now >= self.deadline {
            ControlReceiveMode::Final
        } else {
            ControlReceiveMode::Try
        }
    }

    /// Takes up what the receiver gave when it was asked as `receive_mode` says: before the deadline
    /// the operation goes on while there is no response; at or past the deadline it is over.
    pub fn poll(self, received: ControlReceive, now: u64) -> (r: ControlOperationPoll)
        requires
            received.in_mode(mode_at(self@, now)),
        ensures
            match received {
                ControlReceive::Tried(None) => r == ControlOperationPoll::Pending(self),
                ControlReceive::Tried(Some(outcome)) => r matches ControlOperationPoll::Complete(
                    completion,
                ) && completion@ == completed(outcome),
                ControlReceive::Final(outcome) => r matches ControlOperationPoll::Complete(
                    completion,
                ) && completion@ == completed(outcome),
            },
            now >= self@ ==> r is Complete,
    {
        match received {
            ControlReceive::Tried(None) => ControlOperationPoll::Pending(
                PendingControlOperation { deadline: self.deadline },
            ),
            ControlReceive::Tried(Some(outcome)) | ControlReceive::Final(outcome) =>
            ControlOperationPoll::Complete(ControlOperationCompletion::new(outcome)),
        }
    }

    /// Gives the response up. What the receiver then reports is the terminal result; page work is
    /// not undone.
    pub fn cancel(self, abandoned: Arc<DocumentControlReceiveOutcome>) -> (r:
        ControlOperationCompletion)
        ensures
            r@ == completed(abandoned),
    {
        ControlOperationCompletion::new(abandoned)
    }
}

} // verus!
