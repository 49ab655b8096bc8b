//! Document-control commands, their outcomes, and the replies of the settlement coordinator.
//!
//! What only the engine can read is known here by an integer or by its diagnostic text.

use serde_json::Value;
use std::sync::Arc;
use vstd::prelude::*;

use crate::authority::{PendingTarget, SessionNavigationAuthority, SessionNavigationTerminal};

verus! {

/// A permission to advance virtual time to `deadline_ns`.
#[derive(Clone, Copy, Debug, PartialEq, Eq, Structural)]
pub struct AdvanceToken {
    pub id: u64,
    pub deadline_ns: u128,
}

/// An automation request that is bound to a document.
#[derive(Clone, Copy, Debug, PartialEq, Eq, Structural)]
pub struct BoundAutomation {
    pub id: u64,
    pub mutating: bool,
}

/// A command to the document-control lane of the engine.
#[derive(Clone, Copy, Debug, PartialEq, Eq, Structural)]
pub enum DocumentControlCommand {
    Observe,
    DriveOneTurn,
    BootstrapInitialPipeline { pipeline_id: u64 },
    BootstrapReplacementPipeline { source_pipeline_id: u64, pipeline_id: u64 },
    AdvanceTo(AdvanceToken),
    Automate(BoundAutomation),
}

/// Whether a command may change the document.
pub open spec fn mutates(command: DocumentControlCommand) -> bool {
    match command {
        DocumentControlCommand::Observe => false,
        DocumentControlCommand::Automate(request) => request.mutating,
        _ => true,
    }
}

pub fn command_is_mutating(command: &DocumentControlCommand) -> (r: bool)
    ensures
        r == mutates(*command),
{
    match *command {
        DocumentControlCommand::Observe => false,
        DocumentControlCommand::DriveOneTurn
        | DocumentControlCommand::BootstrapInitialPipeline { .. }
        | DocumentControlCommand::BootstrapReplacementPipeline { .. }
        | DocumentControlCommand::AdvanceTo(_) => true,
        DocumentControlCommand::Automate(request) => request.mutating,
    }
}

/// A snapshot of a document's pending work. Two snapshots are equal exactly when they have the same
/// `identity`.
#[derive(Debug)]
pub struct PendingSnapshot {
    pub identity: u64,
    pub state_generation: u64,
    pub now_ns: u128,
    pub has_next_deadline: bool,
    pub target: Arc<PendingTarget>,
}

/// What an observation reports that the command did.
#[derive(Clone, Copy, Debug, PartialEq, Eq, Structural)]
pub enum DocumentControlAction {
    Observed,
    TurnProcessed,
    TimerActivated,
    Other,
}

/// A completed document-control command.
#[derive(Debug)]
pub struct DocumentControlObservation {
    pub action: DocumentControlAction,
    pub pending: Arc<PendingSnapshot>,
    pub advance_token: Option<AdvanceToken>,
}

/// Why the engine refused an automation request.
#[derive(Clone, Copy, Debug, PartialEq, Eq, Structural)]
pub enum DocumentAutomationError {
    InvalidRequest,
    TargetChanged,
    ExecutionTerminated,
    StaleStateGeneration,
    InvalidSelector,
    UnsupportedSelector,
    MatchLimitExceeded,
    DomTraversalLimitExceeded,
    SelectorEvaluationLimitExceeded,
    ElementNotFound,
    SelectorAmbiguous,
    ExtractionFieldNotFound,
    ExtractionFieldAmbiguous,
    UnsupportedFillElement,
    ImmutableFillElement,
    UnsupportedActivationElement,
    DisabledActivationElement,
    UnsupportedCheckElement,
    ImmutableCheckElement,
    UnsupportedUncheckElement,
    ImmutableUncheckElement,
    UnsupportedSelectElement,
    ImmutableSelectElement,
    InvalidSelectMultiplicity,
    SelectValueNotFound,
    SelectValueDisabled,
    UnsupportedFocusElement,
    UnsupportedSubmitElement,
    UnsupportedLazyAttributeSerialization,
    DomOperationFailed,
    OutputLimitExceeded,
}

/// Why the engine rejected a document-control command.
#[derive(Clone, Copy, Debug, PartialEq, Eq, Structural)]
pub enum DocumentControlError {
    EventLoopUnavailable,
    InitialPipelineBootstrapRequired { pipeline_id: u64 },
    ReplacementPipelineBootstrapRequired { source_pipeline_id: u64, pipeline_id: u64 },
    TargetChanged,
    Automation(DocumentAutomationError),
    Other,
}

/// The outcome of a command that reached the document.
#[derive(Debug)]
pub enum DocumentControlOutcome {
    Completed(Arc<DocumentControlObservation>),
    AutomationCompleted {
        result: u64,
        observation: Arc<DocumentControlObservation>,
        synchronous_navigation_emitted: bool,
    },
    Rejected { error: DocumentControlError, diagnostic: String },
    DriveOneTurnOutcomeIndeterminate { target: Arc<PendingTarget> },
    AdvanceOutcomeIndeterminate,
    AutomationOutcomeIndeterminate,
}

/// What came back for a command. `fault` is the diagnostic of an outcome that does not belong to the
/// command.
#[derive(Debug)]
pub enum DocumentControlReceiveOutcome {
    CommandOutcome { outcome: DocumentControlOutcome, fault: Option<String> },
    AutomationTransportFailure(String),
    ObserveTransportFailure(String),
    DriveOneTurnOutcomeIndeterminate(String),
}

/// The observation that an outcome carries.
pub open spec fn outcome_observation(outcome: DocumentControlReceiveOutcome) -> Option<
    Arc<DocumentControlObservation>,
> {
    match outcome {
        DocumentControlReceiveOutcome::CommandOutcome { outcome, .. } => match outcome {
            DocumentControlOutcome::Completed(observation) => Some(observation),
            DocumentControlOutcome::AutomationCompleted { observation, .. } => Some(observation),
            _ => None,
        },
        _ => None,
    }
}

/// The virtual time that an outcome attests.
pub fn receive_outcome_virtual_time_ns(outcome: &DocumentControlReceiveOutcome) -> (r: Option<u128>)
    ensures
        r == match outcome_observation(*outcome) {
            Some(observation) => Some(observation.pending.now_ns),
            None => None,
        },
{
    match outcome {
        DocumentControlReceiveOutcome::CommandOutcome { outcome, .. } => match outcome {
            DocumentControlOutcome::Completed(observation) => Some(observation.pending.now_ns),
            DocumentControlOutcome::AutomationCompleted { observation, .. } => Some(
                observation.pending.now_ns,
            ),
            _ => None,
        },
        _ => None,
    }
}

/// The documents that an outcome attests.
pub open spec fn outcome_target(outcome: DocumentControlReceiveOutcome) -> Option<
    Arc<PendingTarget>,
> {
    match outcome_observation(outcome) {
        Some(observation) => Some(observation.pending.target),
        None => None,
    }
}

pub fn receive_outcome_pending_target(outcome: &DocumentControlReceiveOutcome) -> (r: Option<
    Arc<PendingTarget>,
>)
    ensures
        r == outcome_target(*outcome),
{
    match outcome {
        DocumentControlReceiveOutcome::CommandOutcome { outcome, .. } => match outcome {
            DocumentControlOutcome::Completed(observation) => Some(
                observation.pending.target.clone(),
            ),
            DocumentControlOutcome::AutomationCompleted { observation, .. } => Some(
                observation.pending.target.clone(),
            ),
            _ => None,
        },
        _ => None,
    }
}

/// What the settlement coordinator waits for.
#[derive(Clone, Copy, Debug, PartialEq, Eq, Structural)]
pub enum SettleWait {
    ForegroundExternalIo { remaining_wall_time_ns: u64 },
    ProducerHandoff { remaining_wall_time_ns: u64 },
}

/// The execution budgets of a document.
#[derive(Clone, Copy, Debug, PartialEq, Eq, Structural)]
pub enum DocumentExecutionBudget {
    OrdinaryTasks,
    Microtasks,
    RenderingOpportunities,
    MutationRecords,
}

/// How a settlement ended.
#[derive(Debug)]
pub enum SettleCompletion {
    Quiescent { pending: Arc<PendingSnapshot> },
    QuiescentWithPersistentWork { pending: Arc<PendingSnapshot> },
    BlockedOnExternalIo { pending: Arc<PendingSnapshot>, active_operations: u64 },
    BlockedOnOpenEndedWork { pending: Arc<PendingSnapshot>, persistent_work: u64 },
    VirtualTimeLimitExceeded {
        pending: Arc<PendingSnapshot>,
        start_virtual_time_ns: u128,
        requested_virtual_time_ns: u128,
        limit_ns: u128,
    },
    ControlTurnLimitExceeded { pending: Arc<PendingSnapshot>, limit: u64, control_turns: u64 },
    ExecutionLimitExceeded {
        pending: Arc<PendingSnapshot>,
        budget: DocumentExecutionBudget,
        limit: u64,
        observed: u64,
    },
    RuntimeError { pending: Arc<PendingSnapshot>, unsupported: bool, details: Arc<Value> },
}

/// The snapshot with which a settlement ended.
pub open spec fn completion_pending(completion: SettleCompletion) -> Arc<PendingSnapshot> {
    match completion {
        SettleCompletion::Quiescent { pending } => pending,
        SettleCompletion::QuiescentWithPersistentWork { pending } => pending,
        SettleCompletion::BlockedOnExternalIo { pending, .. } => pending,
        SettleCompletion::BlockedOnOpenEndedWork { pending, .. } => pending,
        SettleCompletion::VirtualTimeLimitExceeded { pending, .. } => pending,
        SettleCompletion::ControlTurnLimitExceeded { pending, .. } => pending,
        SettleCompletion::ExecutionLimitExceeded { pending, .. } => pending,
        SettleCompletion::RuntimeError { pending, .. } => pending,
    }
}

impl SettleCompletion {
    pub fn pending(&self) -> (r: Arc<PendingSnapshot>)
        ensures
            r == completion_pending(*self),
    {
        match self {
            SettleCompletion::Quiescent { pending } => pending.clone(),
            SettleCompletion::QuiescentWithPersistentWork { pending } => pending.clone(),
            SettleCompletion::BlockedOnExternalIo { pending, .. } => pending.clone(),
            SettleCompletion::BlockedOnOpenEndedWork { pending, .. } => pending.clone(),
            SettleCompletion::VirtualTimeLimitExceeded { pending, .. } => pending.clone(),
            SettleCompletion::ControlTurnLimitExceeded { pending, .. } => pending.clone(),
            SettleCompletion::ExecutionLimitExceeded { pending, .. } => pending.clone(),
            SettleCompletion::RuntimeError { pending, .. } => pending.clone(),
        }
    }
}

/// What the settlement coordinator asks for next.
#[derive(Debug)]
pub enum SettleProgress {
    Command(DocumentControlCommand),
    Wait(SettleWait),
    Complete(SettleCompletion),
}

/// The kinds of failure of the settlement coordinator.
#[derive(Clone, Copy, Debug, PartialEq, Eq, Structural)]
pub enum SettleFailureKind {
    DriveOneTurnOutcomeIndeterminate,
    DriveOutcomeIndeterminate,
    AdvanceOutcomeIndeterminate,
    InvalidControlOutcome,
    InvalidCoordinatorState,
    ExternalIoWallTimeRegressed,
    ControlRejected,
    Other,
}

/// A failure of the settlement coordinator, with its diagnostic.
#[derive(Debug)]
pub struct SettleFailure {
    pub kind: SettleFailureKind,
    pub diagnostic: String,
}

/// How a navigation that stays in one document changed it.
#[derive(Clone, Copy, Debug, PartialEq, Eq, Structural)]
pub enum SameDocumentSessionTransition {
    Unchanged,
    Changed,
}

/// Why a document state could not be authorized or named.
#[derive(Clone, Copy, Debug, PartialEq, Eq, Structural)]
pub enum DocumentStateAuthorityError {
    NavigationTargetDoesNotMatchPending,
    TokenSpaceExhausted,
    TokenEntropyUnavailable,
}

/// Why automation parameters could not be bound to a document.
#[derive(Clone, Copy, Debug, PartialEq, Eq, Structural)]
pub enum SessionAutomationBindError {
    StaleStateToken,
    Authority(DocumentStateAuthorityError),
    InvalidRequest,
}

/// Why a result could not be turned into its public form.
#[derive(Debug)]
pub enum ProjectionError {
    Project(String),
    Serialize(String),
    Authority(DocumentStateAuthorityError),
}

/// The document state that the latest public token stands for.
#[derive(Debug)]
pub struct CurrentDocumentStateAuthority {
    pub id: u64,
    pub target: Arc<PendingTarget>,
    pub state_generation: u64,
}

/// Whether a session-navigation operation observes or navigates.
#[derive(Clone, Copy, Debug, PartialEq, Eq, Structural)]
pub enum NavigationOperationKind {
    Observe,
    Navigate,
}

/// Why a session-navigation operation failed.
#[derive(Debug)]
pub enum SessionNavigationError {
    TargetChanged,
    NavigationInProgress,
    SourceInactive,
    NavigationStartFailed { observed: Arc<SessionNavigationAuthority> },
    UnsupportedScheme { scheme: String },
    Terminal(SessionNavigationTerminal),
    ChannelClosed,
    NotTopLevelSession { diagnostic: String },
    TargetUnavailable { diagnostic: String },
}

/// A finished session-navigation operation: its outcome, or nothing where the response was lost.
#[derive(Debug)]
pub struct NavigationOperationCompletion {
    pub kind: NavigationOperationKind,
    pub outcome: Option<Result<Arc<SessionNavigationAuthority>, SessionNavigationError>>,
}

impl NavigationOperationCompletion {
    /// An operation that the engine answered.
    pub fn response(
        kind: NavigationOperationKind,
        outcome: Result<Arc<SessionNavigationAuthority>, SessionNavigationError>,
    ) -> (r: Self)
        ensures
            r == (NavigationOperationCompletion { kind, outcome: Some(outcome) }),
    {
        NavigationOperationCompletion { kind, outcome: Some(outcome) }
    }

    /// An operation whose response was lost.
    pub fn transport_failure(kind: NavigationOperationKind) -> (r: Self)
        ensures
            r == (NavigationOperationCompletion { kind, outcome: None }),
    {
        NavigationOperationCompletion { kind, outcome: None }
    }

    pub fn kind(&self) -> (r: NavigationOperationKind)
        ensures
            r == self.kind,
    {
        self.kind
    }

    /// Without a response it is unknown whether a navigation was admitted.
    pub fn response_received(&self) -> (r: bool)
        ensures
            r == (self.outcome is Some),
    {
        self.outcome.is_some()
    }

    /// The outcome; a lost response counts as a closed channel.
    pub fn outcome(&self) -> (r: &Result<Arc<SessionNavigationAuthority>, SessionNavigationError>)
        ensures
            *r == match self.outcome {
                Some(outcome) => outcome,
                None => Err(SessionNavigationError::ChannelClosed),
            },
    {
        match &self.outcome {
            Some(outcome) => outcome,
            None => &Err(SessionNavigationError::ChannelClosed),
        }
    }

    /// Gives the outcome up.
    pub fn into_outcome(self) -> (r: Result<Arc<SessionNavigationAuthority>, SessionNavigationError>)
        ensures
            r == match self.outcome {
                Some(outcome) => outcome,
                None => Err(SessionNavigationError::ChannelClosed),
            },
    {
        match self.outcome {
            Some(outcome) => outcome,
            None => Err(SessionNavigationError::ChannelClosed),
        }
    }
}

} // verus!
