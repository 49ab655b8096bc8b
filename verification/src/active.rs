//! The request that the engine works on, and the questions and answers between the decision core and
//! the engine's own services.

use serde_json::Value;
use std::sync::Arc;
use vstd::prelude::*;

use crate::authority::{PendingTarget, SessionNavigationAuthority};
use crate::control::{
    BoundAutomation, CurrentDocumentStateAuthority, DocumentControlCommand,
    DocumentControlObservation, DocumentControlReceiveOutcome, DocumentStateAuthorityError,
    PendingSnapshot, ProjectionError, SameDocumentSessionTransition, SessionAutomationBindError,
    SettleFailure, SettleProgress, SettleWait,
};
use crate::error::{ProtocolError, ProtocolErrorView};
use crate::json::{value_json, JsonView};
use crate::profile::{RequestStateEffect, SessionProfile};
use crate::request::Request;

verus! {

/// A settlement policy: the engine's own default, the default that the product resolves, or one that a
/// request resolved.
#[derive(Clone, Copy, Debug, PartialEq, Eq, Structural)]
pub enum SettlePolicy {
    EngineDefault,
    ProductDefault,
    Resolved(u64),
}

/// The public automation methods.
#[derive(Clone, Copy, Debug, PartialEq, Eq, Structural)]
pub enum PublicAutomationKind {
    Activate,
    Fill,
    Focus,
    Check,
    Uncheck,
    Select,
    Submit,
    Query,
    Text,
    Extract,
}

/// Whether an automation method may change the document.
pub open spec fn automation_mutates(kind: PublicAutomationKind) -> bool {
    match kind {
        PublicAutomationKind::Query | PublicAutomationKind::Text
        | PublicAutomationKind::Extract => false,
        _ => true,
    }
}

pub fn public_automation_is_mutating(kind: PublicAutomationKind) -> (r: bool)
    ensures
        r == automation_mutates(kind),
{
    match kind {
        PublicAutomationKind::Activate | PublicAutomationKind::Fill | PublicAutomationKind::Focus
        | PublicAutomationKind::Check | PublicAutomationKind::Uncheck
        | PublicAutomationKind::Select | PublicAutomationKind::Submit => true,
        PublicAutomationKind::Query | PublicAutomationKind::Text
        | PublicAutomationKind::Extract => false,
    }
}

/// A wait of the host for the engine: the engine's wake generation that was seen last, when the wait
/// began, and when it ends at the latest.
#[derive(Clone, Copy, Debug, PartialEq, Eq, Structural)]
pub struct SettleHostWait {
    pub observed: u64,
    pub started_at: u64,
    pub deadline: Option<u64>,
}

#[derive(Clone, Copy, Debug, PartialEq, Eq, Structural)]
pub struct ControlledOpenWait {
    pub observed: u64,
    pub retry_at: u64,
}

#[derive(Clone, Copy, Debug, PartialEq, Eq, Structural)]
pub struct ControlledOpenSettlement {
    pub cumulative_external_io_wall_time_ns: u64,
    pub waiting: Option<SettleHostWait>,
}

#[derive(Debug)]
pub struct ControlledOpenState {
    pub requested_url: String,
    pub current_url: String,
    pub profile: SessionProfile,
    pub deadline: u64,
    pub readiness_waiting: Option<ControlledOpenWait>,
    pub bootstrap_attempted: bool,
    pub settlement: Option<ControlledOpenSettlement>,
}

#[derive(Debug)]
pub enum AdvanceToNextState {
    Observing {
        expected_state_token: Option<String>,
        navigation: Option<Arc<SessionNavigationAuthority>>,
    },
    Advancing { from_virtual_time_ns: u128 },
}

/// What a settlement is for, and how its result is shaped.
#[derive(Debug)]
pub enum SettleResponse {
    Runtime,
    /// A read-only projection that is recomputed where the document changes meanwhile.
    Pending,
    Automation { kind: PublicAutomationKind, result: u64 },
    ControlledOpen {
        requested_url: String,
        current_url: String,
        profile: SessionProfile,
        deadline: u64,
        bootstrap_attempted: bool,
    },
    Navigate {
        requested_url: String,
        source: Arc<SessionNavigationAuthority>,
        admitted: Arc<SessionNavigationAuthority>,
    },
}

impl SettleResponse {
    /// An equal response.
    pub fn copy(&self) -> (r: Self)
        ensures
            r == *self,
    {
        match self {
            SettleResponse::Runtime => SettleResponse::Runtime,
            SettleResponse::Pending => SettleResponse::Pending,
            SettleResponse::Automation { kind, result } => SettleResponse::Automation {
                kind: *kind,
                result: *result,
            },
            SettleResponse::ControlledOpen {
                requested_url,
                current_url,
                profile,
                deadline,
                bootstrap_attempted,
            } => SettleResponse::ControlledOpen {
                requested_url: requested_url.clone(),
                current_url: current_url.clone(),
                profile: *profile,
                deadline: *deadline,
                bootstrap_attempted: *bootstrap_attempted,
            },
            SettleResponse::Navigate { requested_url, source, admitted } =>
            SettleResponse::Navigate {
                requested_url: requested_url.clone(),
                source: source.clone(),
                admitted: admitted.clone(),
            },
        }
    }
}

/// The steps by which a settlement crosses from one document to the next.
#[derive(Debug)]
pub enum SettleReplacementPhase {
    /// A turn ended without a response. Nothing is recovered until a passive observation shows one
    /// exact replacement, or that the document stayed.
    AwaitingAdmission {
        source: Arc<SessionNavigationAuthority>,
        drive_outcome: Arc<DocumentControlReceiveOutcome>,
    },
    /// The pending document is being bootstrapped by exactly this command.
    Bootstrapping {
        source: Arc<SessionNavigationAuthority>,
        admitted: Arc<SessionNavigationAuthority>,
        command: DocumentControlCommand,
    },
    /// The coordinator goes on while the admitted document is not yet alone and active.
    Activating {
        source: Arc<SessionNavigationAuthority>,
        admitted: Arc<SessionNavigationAuthority>,
    },
    /// One outcome is held until a passive observation says how far the replacement has come.
    AwaitingActivation {
        source: Arc<SessionNavigationAuthority>,
        admitted: Arc<SessionNavigationAuthority>,
        command: DocumentControlCommand,
        control_outcome: Arc<DocumentControlReceiveOutcome>,
        controlled_network_active: bool,
    },
}

#[derive(Debug)]
pub struct SettleState {
    pub profile: SessionProfile,
    /// Present while a settlement checks the latest public token against a fresh observation.
    pub authorizing_document_state: Option<Arc<CurrentDocumentStateAuthority>>,
    /// The observation that is held until a second passive observation confirms the first.
    pub authorizing_observation: Option<Arc<DocumentControlObservation>>,
    pub authorizing_navigation: Option<Arc<SessionNavigationAuthority>>,
    pub replacement: Option<SettleReplacementPhase>,
    /// A command that is held until a passive observation binds it to the current document.
    pub authority_bound_command: Option<DocumentControlCommand>,
    pub latest_pending_target: Option<Arc<PendingTarget>>,
    pub response: SettleResponse,
    pub effective_policy: SettlePolicy,
    pub cumulative_external_io_wall_time_ns: u64,
    pub waiting: Option<SettleHostWait>,
}

/// An automation result that the engine has delivered.
#[derive(Debug)]
pub struct CompletedAutomation {
    pub result: u64,
    pub pending: Arc<PendingSnapshot>,
    pub synchronous_navigation_emitted: bool,
}

/// Resolved automation parameters, kept by the host, that are not yet bound to a document.
#[derive(Clone, Copy, Debug, PartialEq, Eq, Structural)]
pub enum UnresolvedAutomationParams {
    Legacy(u64),
    Session(u64),
}

#[derive(Debug)]
pub struct AutomationState {
    pub profile: SessionProfile,
    pub kind: PublicAutomationKind,
    pub unresolved: Option<UnresolvedAutomationParams>,
    pub authorizing_navigation: Option<Arc<SessionNavigationAuthority>>,
    pub completed: Option<CompletedAutomation>,
}

#[derive(Debug)]
pub struct AuditState {
    pub value: Option<Arc<Value>>,
}

#[derive(Debug)]
pub enum NavigatePhase {
    AwaitingAuthority { expected_state_token: String },
    Authorizing {
        expected_state_token: String,
        navigation: Arc<SessionNavigationAuthority>,
    },
    AwaitingAdmission {
        source: Arc<SessionNavigationAuthority>,
        source_external_io_active_at_authorization: bool,
    },
    Settling {
        source: Arc<SessionNavigationAuthority>,
        admitted: Arc<SessionNavigationAuthority>,
    },
}

#[derive(Debug)]
pub struct NavigateState {
    pub requested_url: String,
    pub phase: NavigatePhase,
    pub cumulative_external_io_wall_time_ns: u64,
    pub waiting: Option<SettleHostWait>,
}

/// What a projection needs to go back to settlement.
#[derive(Debug)]
pub struct SettleProjectionResume {
    pub profile: SessionProfile,
    pub effective_policy: SettlePolicy,
    pub cumulative_external_io_wall_time_ns: u64,
    pub authorizing_navigation: Option<Arc<SessionNavigationAuthority>>,
    pub response: SettleResponse,
}

#[allow(inconsistent_fields)]
#[derive(Debug)]
pub enum SessionProjectionKind {
    /// An action's result, kept in its own shape until a fresh observation is bracketed.
    Automation { settle_resume: SettleProjectionResume, replacement_rearm: bool },
    Value {
        value: Arc<Value>,
        snapshot_token: bool,
        settle_resume: Option<SettleProjectionResume>,
    },
    Navigate {
        requested_url: String,
        source: Arc<SessionNavigationAuthority>,
        admitted: Arc<SessionNavigationAuthority>,
        cumulative_external_io_wall_time_ns: u64,
        settle_resume: Option<SettleProjectionResume>,
    },
    ControlledOpen {
        requested_url: String,
        current_url: String,
        profile: SessionProfile,
        deadline: u64,
        bootstrap_attempted: bool,
        cumulative_external_io_wall_time_ns: u64,
        session_state_token: Option<Arc<Value>>,
        settle_resume: Option<SettleProjectionResume>,
    },
}

#[derive(Debug)]
pub enum SessionProjectionPhase {
    AwaitingInitialNavigation,
    AwaitingPendingObservation { navigation: Arc<SessionNavigationAuthority> },
    /// The observation met a pending replacement; only the two named pipelines are admitted.
    AwaitingReplacementAdmission {
        source: Arc<SessionNavigationAuthority>,
        source_pipeline_id: u64,
        pipeline_id: u64,
    },
    AwaitingStableNavigation { navigation: Arc<SessionNavigationAuthority> },
}

/// A result that is published once two passive observations around a fresh document observation
/// agree.
#[derive(Debug)]
pub struct SessionProjectionState {
    pub pending: Arc<PendingSnapshot>,
    pub kind: SessionProjectionKind,
    pub phase: SessionProjectionPhase,
}

#[derive(Debug)]
pub enum ActiveOperation {
    ControlledOpen(ControlledOpenState),
    Pending,
    AdvanceToNext(AdvanceToNextState),
    Settle(SettleState),
    Automation(AutomationState),
    Audit(AuditState),
    Navigate(NavigateState),
    SessionProjection(SessionProjectionState),
}

/// The one request that the engine works on.
#[derive(Debug)]
pub struct ActiveRequest {
    pub request: Request,
    pub profile: Option<SessionProfile>,
    pub operation: ActiveOperation,
    pub started_at: u64,
    pub in_flight: Option<DocumentControlCommand>,
    /// The engine's wake generation right before the command in flight was submitted. A later pump
    /// may consume wakes before the response can be polled, so a settlement waits from here on.
    pub control_turn_observed: Option<u64>,
    pub needs_initial_pump: bool,
    pub state_effect: RequestStateEffect,
}

/// A failed request. After a fail-stop the session is closed.
#[derive(Debug)]
pub struct ActiveFailure {
    pub error: ProtocolError,
    pub fail_stop: bool,
}

/// What an `ActiveFailure` says.
pub struct ActiveFailureView {
    pub error: ProtocolErrorView,
    pub fail_stop: bool,
}

impl View for ActiveFailure {
    type V = ActiveFailureView;

    open spec fn view(&self) -> ActiveFailureView {
        ActiveFailureView { error: self.error@, fail_stop: self.fail_stop }
    }
}

/// A call that only the engine's own services can make. Until its answer is known, the request stays
/// as it is.
#[allow(inconsistent_fields)]
#[derive(Debug)]
pub enum Consultation {
    /// Make a coordinator with this policy and start it.
    StartSettlement { policy: SettlePolicy },
    /// Make a coordinator with this policy, tell it whether external I/O was active, and start it
    /// with the bootstrap of a replacement.
    StartReplacementBootstrap {
        policy: SettlePolicy,
        latched_external_io: bool,
        bootstrap: DocumentControlCommand,
    },
    /// Hand an outcome to the coordinator, after telling it whether further external I/O is active.
    ConsumeOutcome {
        outcome: Arc<DocumentControlReceiveOutcome>,
        cumulative_wall_time_ns: u64,
        external_io_active: bool,
    },
    /// Start the coordinator with an observation that was made before.
    StartWithObservation {
        observation: Arc<DocumentControlObservation>,
        cumulative_wall_time_ns: u64,
        external_io_active: bool,
    },
    /// Account for a turn whose document stayed the same.
    ConsumeStableBoundary {
        outcome: Arc<DocumentControlReceiveOutcome>,
        cumulative_wall_time_ns: u64,
    },
    /// Account for a turn that led to the bootstrap of a replacement.
    ConsumeReplacementBoundary {
        outcome: Arc<DocumentControlReceiveOutcome>,
        cumulative_wall_time_ns: u64,
        bootstrap: DocumentControlCommand,
    },
    /// Let the bootstrap of a replacement take the place of a turn that was not submitted.
    ReplaceUnsubmittedDrive { target: Arc<PendingTarget>, bootstrap: DocumentControlCommand },
    /// Tell the coordinator that its wait has ended, by expiry or by a wake.
    WaitEnded { expired: bool, cumulative_wall_time_ns: u64, external_io_active: bool },
    /// Classify how a document changed without being replaced.
    ClassifySameDocument {
        source: Arc<SessionNavigationAuthority>,
        navigation: Arc<SessionNavigationAuthority>,
    },
    /// Does this navigation authority belong to the document state of the public token?
    MatchNavigation {
        authority: Arc<CurrentDocumentStateAuthority>,
        navigation: Arc<SessionNavigationAuthority>,
    },
    /// Invalidate the document state of the public token for good.
    LatchStale { authority: Arc<CurrentDocumentStateAuthority> },
    /// Does the token authorize this document state?
    AuthorizeDocumentState {
        pending: Arc<PendingSnapshot>,
        navigation: Arc<SessionNavigationAuthority>,
        token: String,
    },
    /// Name this document state by a token.
    DocumentStateToken {
        pending: Arc<PendingSnapshot>,
        navigation: Arc<SessionNavigationAuthority>,
    },
    /// Bind automation parameters to the observed document.
    BindAutomation {
        params: UnresolvedAutomationParams,
        pending: Arc<PendingSnapshot>,
        navigation: Option<Arc<SessionNavigationAuthority>>,
    },
    /// Project the pending work of a snapshot.
    ProjectPending { pending: Arc<PendingSnapshot> },
    /// Project an advance of virtual time; it started at the given time, or no deadline was found.
    ProjectAdvance { from_virtual_time_ns: Option<u128>, pending: Arc<PendingSnapshot> },
    /// Project the result of an automation method.
    ProjectAutomation {
        kind: PublicAutomationKind,
        result: u64,
        pending: Arc<PendingSnapshot>,
    },
    /// Project the completion that the coordinator just reported.
    ProjectSettlement { policy: SettlePolicy, started_at: u64 },
    /// Project the result of a navigation.
    ProjectNavigation {
        requested_url: String,
        pending: Arc<PendingSnapshot>,
        navigation: Arc<SessionNavigationAuthority>,
    },
}

/// The answers that are known so far for the completion at hand.
#[derive(Debug)]
pub struct Answers {
    pub progress: Option<Result<SettleProgress, SettleFailure>>,
    pub same_document: Option<Option<SameDocumentSessionTransition>>,
    pub matches_navigation: Option<bool>,
    pub latched: Option<bool>,
    pub authorized: Option<Result<bool, DocumentStateAuthorityError>>,
    pub token: Option<Result<Arc<Value>, DocumentStateAuthorityError>>,
    pub bound: Option<Result<BoundAutomation, SessionAutomationBindError>>,
    pub projected: Option<Result<Arc<Value>, ProjectionError>>,
}

impl Answers {
    /// No answer is known.
    pub fn none() -> (r: Self)
        ensures
            r == (Answers {
                progress: None,
                same_document: None,
                matches_navigation: None,
                latched: None,
                authorized: None,
                token: None,
                bound: None,
                projected: None,
            }),
    {
        Answers {
            progress: None,
            same_document: None,
            matches_navigation: None,
            latched: None,
            authorized: None,
            token: None,
            bound: None,
            projected: None,
        }
    }
}

/// What happens next to the active request.
#[derive(Debug)]
pub enum ActiveTransition {
    Submit(DocumentControlCommand),
    SubmitSessionNavigationObservation { allow_servo_pump: bool },
    SubmitSessionNavigation { expected: Arc<SessionNavigationAuthority>, url: String },
    ProjectSession(SessionProjectionState),
    WaitForControlledOpen,
    Wait(SettleWait),
    Complete(Value),
    /// The token is stale. A sticky network failure still takes precedence.
    RejectStaleStateToken,
    Fail(ActiveFailure),
    /// An answer is needed first.
    Consult(Consultation),
}

/// What an `ActiveTransition` says.
pub enum TransitionView {
    Submit(DocumentControlCommand),
    SubmitSessionNavigationObservation { allow_servo_pump: bool },
    SubmitSessionNavigation { expected: Arc<SessionNavigationAuthority>, url: String },
    ProjectSession(SessionProjectionState),
    WaitForControlledOpen,
    Wait(SettleWait),
    Complete(JsonView),
    RejectStaleStateToken,
    Fail(ActiveFailureView),
    Consult(Consultation),
}

impl View for ActiveTransition {
    type V = TransitionView;

    open spec fn view(&self) -> TransitionView {
        match *self {
            ActiveTransition::Submit(command) => TransitionView::Submit(command),
            ActiveTransition::SubmitSessionNavigationObservation { allow_servo_pump } =>
            TransitionView::SubmitSessionNavigationObservation { allow_servo_pump },
            ActiveTransition::SubmitSessionNavigation { expected, url } =>
            TransitionView::SubmitSessionNavigation { expected, url },
            ActiveTransition::ProjectSession(state) => TransitionView::ProjectSession(state),
            ActiveTransition::WaitForControlledOpen => TransitionView::WaitForControlledOpen,
            ActiveTransition::Wait(wait) => TransitionView::Wait(wait),
            ActiveTransition::Complete(value) => TransitionView::Complete(value_json(value)),
            ActiveTransition::RejectStaleStateToken => TransitionView::RejectStaleStateToken,
            ActiveTransition::Fail(failure) => TransitionView::Fail(failure@),
            ActiveTransition::Consult(consultation) => TransitionView::Consult(consultation),
        }
    }
}

} // verus!
