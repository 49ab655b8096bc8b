//! How the shell takes up what the engine reports while a request is active: completed control
//! commands, completed session-navigation operations, and waits of the host that end.

use serde_json::Value;
use std::sync::Arc;
use vstd::prelude::*;

use crate::active::{
    ActiveFailure, ActiveOperation, ActiveRequest, ActiveTransition, Answers, Consultation,
    ControlledOpenSettlement, ControlledOpenState, NavigatePhase, NavigateState,
    SessionProjectionKind, SessionProjectionPhase, SessionProjectionState, SettleHostWait,
    SettleReplacementPhase, SettleState, TransitionView,
};
use crate::authority::{
    explicit_navigation_reached_controlled_ready, replacement_ready, same_authority, same_target,
    SessionNavigationAuthority,
};
use crate::control::{
    command_is_mutating, mutates, outcome_observation, outcome_target,
    receive_outcome_pending_target, receive_outcome_virtual_time_ns, DocumentControlCommand,
    DocumentControlOutcome, DocumentControlReceiveOutcome, NavigationOperationCompletion,
    NavigationOperationKind, SessionNavigationError,
};
use crate::control_step::{control_step, transition_from_control_completion};
use crate::engine::{EngineControlPoll, EngineNavigationPoll};
use crate::error::{fatal_error, fatal_operation, operation_error, ProtocolError, ProtocolErrorView};
use crate::failure::{
    activation_failure_view, controlled_open_timeout_failure, hard_failure, indeterminate_failure,
    indeterminate_failure_view, internal_failure, internal_failure_view,
    navigation_activation_failure, open_timeout_view, settle_failure, settle_failure_for_response,
    settle_failure_for_response_view, settle_failure_view, soft_failure, terminal_evidence,
    terminal_navigation_evidence, NetworkFailureReason,
};
use crate::navigation_step::{
    is_navigate_ready, is_open_ready, navigate_ready, navigation_step, open_ready, retains_profile,
    transition_from_navigation_completion,
};
use crate::network::{active_operations, active_operations_of, ControlledNetworkSnapshot};
use crate::operation::{disposition, ControlOutcomeDisposition};
use crate::profile::{
    earliest, earliest_deadline, effect_text, selects_session_api, session_api,
    supports_session_api, RequestStateEffect, OWNER_LOOP_SAFETY_TIMEOUT_NS,
};
use crate::settle::{
    active_expects_navigation_response, expects_navigation, navigate_progress, open_progress,
    settle_progress, transition_from_controlled_open_settle_progress,
    transition_from_navigate_settle_progress, transition_from_settle_progress_for_active,
};
use crate::shell::{applied, failed, open_authority, Shell, ShellStep, ShellStepView};
use crate::text::same_text;

verus! {

/// What polling the document-control lane led to.
#[derive(Debug)]
pub enum ControlStep {
    /// Nothing yet; a command in flight times out at the deadline.
    Waiting { deadline: Option<u64> },
    Step(ShellStep),
    /// The outcome goes to the active request, after the controlled network was told the virtual
    /// time that the outcome attests.
    Transition {
        command: DocumentControlCommand,
        outcome: Arc<DocumentControlReceiveOutcome>,
        network_time_ns: Option<u128>,
    },
}

/// What a `ControlStep` says.
pub enum ControlStepView {
    Waiting { deadline: Option<u64> },
    Step(ShellStepView),
    Transition {
        command: DocumentControlCommand,
        outcome: Arc<DocumentControlReceiveOutcome>,
        network_time_ns: Option<u128>,
    },
}

impl View for ControlStep {
    type V = ControlStepView;

    open spec fn view(&self) -> ControlStepView {
        match *self {
            ControlStep::Waiting { deadline } => ControlStepView::Waiting { deadline },
            ControlStep::Step(step) => ControlStepView::Step(step@),
            ControlStep::Transition { command, outcome, network_time_ns } =>
            ControlStepView::Transition { command, outcome, network_time_ns },
        }
    }
}

/// The virtual time that an outcome attests.
pub open spec fn outcome_time(outcome: DocumentControlReceiveOutcome) -> Option<u128> {
    match outcome_observation(outcome) {
        Some(observation) => Some(observation.pending.now_ns),
        None => None,
    }
}

/// An operation that notes what an outcome attests: where the engine is now, or the documents.
pub open spec fn noted(
    operation: ActiveOperation,
    outcome: DocumentControlReceiveOutcome,
    url: Option<String>,
) -> ActiveOperation {
    match operation {
        ActiveOperation::ControlledOpen(state) => match url {
            Some(url) => ActiveOperation::ControlledOpen(
                ControlledOpenState { current_url: url, ..state },
            ),
            None => operation,
        },
        ActiveOperation::Settle(state) => match outcome_target(outcome) {
            Some(target) => ActiveOperation::Settle(
                SettleState { latest_pending_target: Some(target), ..state },
            ),
            None => operation,
        },
        _ => operation,
    }
}

/// The authority that a turn without an outcome was bound to, where the settlement may find out what
/// became of it.
pub open spec fn recoverable_source(
    operation: ActiveOperation,
    command: DocumentControlCommand,
    outcome: DocumentControlReceiveOutcome,
) -> Option<Arc<SessionNavigationAuthority>> {
    match (operation, outcome) {
        (
            ActiveOperation::Settle(state),
            DocumentControlReceiveOutcome::CommandOutcome {
                outcome: DocumentControlOutcome::DriveOneTurnOutcomeIndeterminate { target },
                ..
            },
        ) => if command == DocumentControlCommand::DriveOneTurn
            && state.authorizing_document_state is None && state.authorizing_observation is None
            && state.authorizing_navigation is Some && state.replacement is None && session_api(
            state.profile,
        ) && state.authorizing_navigation->0.target@ == target@ {
            state.authorizing_navigation
        } else {
            None
        },
        _ => None,
    }
}

/// Whether a typed response was lost on its way.
pub open spec fn lost_in_transport(outcome: DocumentControlReceiveOutcome) -> bool {
    !(outcome is CommandOutcome)
}

/// Whether a completed advance attests another time than the one that it was permitted to.
pub open spec fn advance_diverged(
    command: DocumentControlCommand,
    outcome: DocumentControlReceiveOutcome,
) -> bool {
    match command {
        DocumentControlCommand::AdvanceTo(token) => disposition(outcome)
            == ControlOutcomeDisposition::Completed && outcome_time(outcome) != Some(
            token.deadline_ns,
        ),
        _ => false,
    }
}

/// The shell after the control command in flight completed.
pub open spec fn control_completed(
    shell: Shell,
    active: ActiveRequest,
    command: DocumentControlCommand,
    outcome: Arc<DocumentControlReceiveOutcome>,
    url: Option<String>,
    network: Option<ControlledNetworkSnapshot>,
    now: u64,
) -> (Shell, ControlStepView) {
    let operation = noted(active.operation, *outcome, url);
    let active = ActiveRequest {
        in_flight: None,
        needs_initial_pump: false,
        operation,
        ..active
    };
    if let Some(source) = recoverable_source(operation, command, *outcome) {
        let state = operation->Settle_0;
        let (shell, step) = applied(
            shell,
            ActiveRequest {
                operation: ActiveOperation::Settle(
                    SettleState {
                        replacement: Some(
                            SettleReplacementPhase::AwaitingAdmission {
                                source,
                                drive_outcome: outcome,
                            },
                        ),
                        ..state
                    },
                ),
                state_effect: RequestStateEffect::Partial,
                ..active
            },
            TransitionView::SubmitSessionNavigationObservation { allow_servo_pump: false },
            network,
            now,
        );
        (shell, ControlStepView::Step(step))
    } else if disposition(*outcome) == ControlOutcomeDisposition::Indeterminate {
        let (shell, step) = failed(
            shell,
            active,
            indeterminate_failure_view(
                "document-control mutation may have completed without a response"@,
            ),
        );
        (shell, ControlStepView::Step(step))
    } else if selects_session_api(active.profile) && lost_in_transport(*outcome) {
        let (shell, step) = failed(
            shell,
            active,
            hard_failure(
                fatal_error(
                    "session_command_transport_failure"@,
                    "an active controlled-session command lost its typed response"@,
                    "indeterminate"@,
                ),
            ),
        );
        (shell, ControlStepView::Step(step))
    } else if selects_session_api(active.profile) && advance_diverged(command, *outcome) {
        let (shell, step) = failed(
            shell,
            active,
            hard_failure(
                fatal_error(
                    "controlled_network_time_authority_diverged"@,
                    "the completed document advance did not attest the virtual time authorized for its network evidence"@,
                    "indeterminate"@,
                ),
            ),
        );
        (shell, ControlStepView::Step(step))
    } else {
        let active = if disposition(*outcome) == ControlOutcomeDisposition::Completed && mutates(
            command,
        ) {
            ActiveRequest { state_effect: RequestStateEffect::Partial, ..active }
        } else {
            active
        };
        (
            Shell { active: Some(active), ..shell },
            ControlStepView::Transition {
                command,
                outcome,
                network_time_ns: outcome_time(*outcome),
            },
        )
    }
}

/// The shell after the document-control lane was polled.
pub open spec fn control_polled(
    shell: Shell,
    poll: EngineControlPoll,
    url: Option<String>,
    network: Option<ControlledNetworkSnapshot>,
    now: u64,
) -> (Shell, ControlStepView) {
    let idle = Shell { active: None, ..shell };
    match shell.active {
        None => (shell, ControlStepView::Waiting { deadline: None }),
        Some(active) => match active.in_flight {
            None => (shell, ControlStepView::Waiting { deadline: None }),
            Some(command) => match poll {
                EngineControlPoll::Pending { deadline } => (
                    shell,
                    ControlStepView::Waiting { deadline: Some(deadline) },
                ),
                EngineControlPoll::Idle => {
                    let (shell, step) = failed(
                        idle,
                        active,
                        internal_failure_view(
                            "engine lost an in-flight document-control receiver"@,
                            "indeterminate"@,
                        ),
                    );
                    (shell, ControlStepView::Step(step))
                },
                EngineControlPoll::Complete(completion) => control_completed(
                    idle,
                    active,
                    command,
                    completion@.outcome,
                    url,
                    network,
                    now,
                ),
            },
        },
    }
}

/// The shell after the outcome of a control command went to the active request. `network_refusal` is
/// what the controlled network had against the time that the outcome attests.
pub open spec fn control_taken_up(
    shell: Shell,
    command: DocumentControlCommand,
    outcome: Arc<DocumentControlReceiveOutcome>,
    network_refusal: Option<ProtocolErrorView>,
    network: Option<ControlledNetworkSnapshot>,
    answers: Answers,
    now: u64,
) -> (Shell, ShellStepView) {
    let idle = Shell { active: None, ..shell };
    match shell.active {
        None => (shell, ShellStepView::Keep),
        Some(active) => match network_refusal {
            Some(error) => failed(
                idle,
                active,
                hard_failure(ProtocolErrorView { fatal: true, ..error }),
            ),
            None => {
                let (active, transition) = control_step(
                    active,
                    command,
                    outcome,
                    active_operations_of(network),
                    answers,
                );
                applied(idle, active, transition, network, now)
            },
        },
    }
}

/// What is recorded of a session's navigations.
#[derive(Clone, Copy, Debug, PartialEq, Eq, Structural)]
pub enum EvidenceRecord {
    NavigationStarted(u64),
    NavigationCommitted(u64),
    NavigationFailed(u64, NetworkFailureReason),
    SameDocumentHistoryChanged(u64),
    SettlementTerminal(u64),
}

/// What polling the session-navigation lane led to.
#[derive(Debug)]
pub enum NavigationNext {
    /// Nothing yet; an operation in flight times out at the deadline.
    Waiting { deadline: Option<u64> },
    Step(ShellStep),
    /// Take a token of the session state and repeat the call with it.
    SessionStateToken(NavigationOperationCompletion),
    /// The completion goes to the active request.
    Transition(NavigationOperationCompletion),
}

/// What polling the session-navigation lane led to, and what is recorded first.
#[derive(Debug)]
pub struct NavigationStep {
    pub records: Vec<EvidenceRecord>,
    pub next: NavigationNext,
}

/// What a `NavigationNext` says.
pub enum NavigationNextView {
    Waiting { deadline: Option<u64> },
    Step(ShellStepView),
    SessionStateToken(NavigationOperationCompletion),
    Transition(NavigationOperationCompletion),
}

impl View for NavigationNext {
    type V = NavigationNextView;

    open spec fn view(&self) -> NavigationNextView {
        match *self {
            NavigationNext::Waiting { deadline } => NavigationNextView::Waiting { deadline },
            NavigationNext::Step(step) => NavigationNextView::Step(step@),
            NavigationNext::SessionStateToken(completion) => NavigationNextView::SessionStateToken(
                completion,
            ),
            NavigationNext::Transition(completion) => NavigationNextView::Transition(completion),
        }
    }
}

/// Whether a navigation is another one than the last that was recorded; without a last one it is.
pub open spec fn is_new_navigation(
    last: Option<Arc<SessionNavigationAuthority>>,
    navigation: Arc<SessionNavigationAuthority>,
) -> bool {
    match last {
        Some(previous) => previous.navigation_id != navigation.navigation_id,
        None => true,
    }
}

/// Whether the history changed since the last navigation that was recorded.
pub open spec fn is_new_history(
    last: Option<Arc<SessionNavigationAuthority>>,
    navigation: Arc<SessionNavigationAuthority>,
) -> bool {
    match last {
        Some(previous) => previous.history_revision != navigation.history_revision,
        None => false,
    }
}

/// A record, where `holds`.
pub open spec fn recorded(holds: bool, record: EvidenceRecord) -> Seq<EvidenceRecord> {
    if holds {
        seq![record]
    } else {
        seq![]
    }
}

/// The records of a navigation that started and was committed, where `holds`.
pub open spec fn entered(holds: bool, navigation_id: u64) -> Seq<EvidenceRecord> {
    if holds {
        seq![
            EvidenceRecord::NavigationStarted(navigation_id),
            EvidenceRecord::NavigationCommitted(navigation_id),
        ]
    } else {
        seq![]
    }
}

/// Whether an explicit navigation waits for its own admission.
pub open spec fn awaits_own_admission(
    operation: ActiveOperation,
    kind: NavigationOperationKind,
) -> bool {
    match operation {
        ActiveOperation::Navigate(state) => state.phase is AwaitingAdmission && kind
            == NavigationOperationKind::Navigate,
        _ => false,
    }
}

/// Whether an observation completes the replacement that a settlement waits for.
pub open spec fn completes_replacement(
    operation: ActiveOperation,
    kind: NavigationOperationKind,
    navigation: Arc<SessionNavigationAuthority>,
) -> bool {
    match operation {
        ActiveOperation::Settle(state) => match state.replacement {
            Some(SettleReplacementPhase::AwaitingActivation { source, admitted, .. }) => kind
                == NavigationOperationKind::Observe && replacement_ready(
                source@,
                admitted@,
                navigation@,
            ),
            _ => false,
        },
        _ => false,
    }
}

/// Whether an observation confirms the one that brackets a projection.
pub open spec fn confirms_bracket(
    state: SessionProjectionState,
    navigation: Arc<SessionNavigationAuthority>,
) -> bool {
    match state.phase {
        SessionProjectionPhase::AwaitingStableNavigation { navigation: before } => before@
            == navigation@,
        _ => false,
    }
}

/// A projection of an open with the token of the session state.
pub open spec fn with_session_state_token(kind: SessionProjectionKind, token: Arc<Value>) ->
    SessionProjectionKind {
    match kind {
        SessionProjectionKind::ControlledOpen {
            requested_url,
            current_url,
            profile,
            deadline,
            bootstrap_attempted,
            cumulative_external_io_wall_time_ns,
            settle_resume,
            ..
        } => SessionProjectionKind::ControlledOpen {
            requested_url,
            current_url,
            profile,
            deadline,
            bootstrap_attempted,
            cumulative_external_io_wall_time_ns,
            session_state_token: Some(token),
            settle_resume,
        },
        _ => kind,
    }
}

/// What the host's attempt to take a token of the session state says.
pub open spec fn state_token_view(token: Option<Result<Arc<Value>, ProtocolError>>) -> Option<
    Result<Arc<Value>, ProtocolErrorView>,
> {
    match token {
        Some(Ok(token)) => Some(Ok(token)),
        Some(Err(error)) => Some(Err(error@)),
        None => None,
    }
}

/// The step of a request that the engine attested a wrong document for.
pub open spec fn activation_failed(shell: Shell, active: ActiveRequest) -> (
    Shell,
    Seq<EvidenceRecord>,
    NavigationNextView,
) {
    let failure = activation_failure_view(active.state_effect, true)->Fail_0;
    let (shell, step) = failed(shell, active, failure);
    (shell, seq![], NavigationNextView::Step(step))
}

/// The shell after the confirming observation of a projection.
pub open spec fn bracket_confirmed(
    before: Shell,
    shell: Shell,
    active: ActiveRequest,
    state: SessionProjectionState,
    completion: NavigationOperationCompletion,
    navigation: Arc<SessionNavigationAuthority>,
    session_state_token: Option<Result<Arc<Value>, ProtocolErrorView>>,
) -> (Shell, Seq<EvidenceRecord>, NavigationNextView) {
    let id = navigation.navigation_id;
    let last = shell.last_navigation_authority;
    let settled = EvidenceRecord::SettlementTerminal(id);
    let confirmed = Shell {
        active: Some(active),
        last_navigation_authority: Some(navigation),
        ..shell
    };
    match state.kind {
        SessionProjectionKind::ControlledOpen { settle_resume, .. } => if !open_ready(
            settle_resume is Some,
            navigation,
        ) {
            activation_failed(shell, active)
        } else {
            match session_state_token {
                None => (before, seq![], NavigationNextView::SessionStateToken(completion)),
                Some(Err(error)) => {
                    let (shell, step) = failed(
                        shell,
                        active,
                        hard_failure(ProtocolErrorView { fatal: true, ..error }),
                    );
                    (shell, seq![], NavigationNextView::Step(step))
                },
                Some(Ok(token)) => (
                    Shell {
                        active: Some(
                            ActiveRequest {
                                operation: ActiveOperation::SessionProjection(
                                    SessionProjectionState {
                                        kind: with_session_state_token(state.kind, token),
                                        ..state
                                    },
                                ),
                                ..active
                            },
                        ),
                        ..confirmed
                    },
                    entered(is_new_navigation(last, navigation), id) + seq![settled],
                    NavigationNextView::Transition(completion),
                ),
            }
        },
        SessionProjectionKind::Navigate { source, admitted, settle_resume, .. } =>
        if !navigate_ready(source, admitted, settle_resume is Some, navigation) {
            activation_failed(shell, active)
        } else {
            (
                confirmed,
                recorded(
                    settle_resume is None || is_new_navigation(last, navigation),
                    EvidenceRecord::NavigationCommitted(id),
                ) + recorded(
                    admitted.history_revision != navigation.history_revision,
                    EvidenceRecord::SameDocumentHistoryChanged(id),
                ) + seq![settled],
                NavigationNextView::Transition(completion),
            )
        },
        _ => (
            confirmed,
            entered(last is Some && is_new_navigation(last, navigation), id) + recorded(
                is_new_history(last, navigation),
                EvidenceRecord::SameDocumentHistoryChanged(id),
            ) + recorded(active.request.method@ == "runtime.settle"@, settled),
            NavigationNextView::Transition(completion),
        ),
    }
}

/// The shell after the engine attested a navigation that can go on.
pub open spec fn navigation_attested(
    before: Shell,
    shell: Shell,
    active: ActiveRequest,
    completion: NavigationOperationCompletion,
    navigation: Arc<SessionNavigationAuthority>,
    session_state_token: Option<Result<Arc<Value>, ProtocolErrorView>>,
) -> (Shell, Seq<EvidenceRecord>, NavigationNextView) {
    let id = navigation.navigation_id;
    let last = shell.last_navigation_authority;
    let next = NavigationNextView::Transition(completion);
    let kept = Shell { active: Some(active), ..shell };
    if awaits_own_admission(active.operation, completion.kind) {
        (kept, seq![EvidenceRecord::NavigationStarted(id)], next)
    } else if completes_replacement(active.operation, completion.kind, navigation) {
        (
            Shell { last_navigation_authority: Some(navigation), ..kept },
            entered(is_new_navigation(last, navigation), id) + recorded(
                is_new_history(last, navigation),
                EvidenceRecord::SameDocumentHistoryChanged(id),
            ),
            next,
        )
    } else {
        match active.operation {
            ActiveOperation::SessionProjection(state) => if completion.kind
                == NavigationOperationKind::Observe && confirms_bracket(state, navigation) {
                bracket_confirmed(
                    before,
                    shell,
                    active,
                    state,
                    completion,
                    navigation,
                    session_state_token,
                )
            } else {
                (kept, seq![], next)
            },
            _ => (kept, seq![], next),
        }
    }
}

/// The shell after the session-navigation operation in flight completed.
pub open spec fn navigation_completed(
    before: Shell,
    active: ActiveRequest,
    completion: NavigationOperationCompletion,
    session_state_token: Option<Result<Arc<Value>, ProtocolErrorView>>,
) -> (Shell, Seq<EvidenceRecord>, NavigationNextView) {
    let shell = Shell { active: None, ..before };
    let active = ActiveRequest { needs_initial_pump: false, ..active };
    let next = NavigationNextView::Transition(completion);
    let kept = Shell { active: Some(active), ..shell };
    match completion.outcome {
        Some(Ok(navigation)) => match navigation.terminal {
            Some(terminal) => {
                let (id, reason) = terminal_evidence(terminal, navigation.navigation_id);
                (
                    kept,
                    recorded(
                        awaits_own_admission(active.operation, completion.kind),
                        EvidenceRecord::NavigationStarted(id),
                    ) + seq![EvidenceRecord::NavigationFailed(id, reason)],
                    next,
                )
            },
            None => navigation_attested(
                before,
                shell,
                active,
                completion,
                navigation,
                session_state_token,
            ),
        },
        Some(Err(SessionNavigationError::NavigationStartFailed { observed })) => (
            kept,
            seq![
                EvidenceRecord::NavigationStarted(observed.navigation_id),
                EvidenceRecord::NavigationFailed(
                    observed.navigation_id,
                    NetworkFailureReason::NetworkError,
                ),
            ],
            next,
        ),
        Some(Err(SessionNavigationError::Terminal(terminal))) => {
            let fallback = match shell.last_navigation_authority {
                Some(authority) => authority.navigation_id,
                None => 0,
            };
            let (id, reason) = terminal_evidence(terminal, fallback);
            (kept, seq![EvidenceRecord::NavigationFailed(id, reason)], next)
        },
        _ => (kept, seq![], next),
    }
}

/// The shell after the session-navigation lane was polled.
pub open spec fn navigation_polled(
    shell: Shell,
    poll: EngineNavigationPoll,
    session_state_token: Option<Result<Arc<Value>, ProtocolErrorView>>,
) -> (Shell, Seq<EvidenceRecord>, NavigationNextView) {
    match shell.active {
        None => (shell, seq![], NavigationNextView::Waiting { deadline: None }),
        Some(active) => if !expects_navigation(active.operation) {
            (shell, seq![], NavigationNextView::Waiting { deadline: None })
        } else {
            match poll {
                EngineNavigationPoll::Pending { deadline } => (
                    shell,
                    seq![],
                    NavigationNextView::Waiting { deadline: Some(deadline) },
                ),
                EngineNavigationPoll::Idle => {
                    let (shell, step) = failed(
                        Shell { active: None, ..shell },
                        active,
                        internal_failure_view(
                            "engine lost an in-flight session-navigation receiver"@,
                            "indeterminate"@,
                        ),
                    );
                    (shell, seq![], NavigationNextView::Step(step))
                },
                EngineNavigationPoll::Complete(completion) => navigation_completed(
                    shell,
                    active,
                    completion,
                    session_state_token,
                ),
            }
        },
    }
}

/// The shell after a session-navigation completion went to the active request.
pub open spec fn navigation_taken_up(
    shell: Shell,
    completion: NavigationOperationCompletion,
    network: Option<ControlledNetworkSnapshot>,
    answers: Answers,
    now: u64,
) -> (Shell, ShellStepView) {
    match shell.active {
        None => (shell, ShellStepView::Keep),
        Some(active) => {
            let (active, transition) = navigation_step(
                active,
                completion,
                active_operations_of(network),
                answers,
            );
            applied(Shell { active: None, ..shell }, active, transition, network, now)
        },
    }
}

/// The wait of an operation's settlement.
pub open spec fn settlement_wait(operation: ActiveOperation) -> Option<SettleHostWait> {
    match operation {
        ActiveOperation::ControlledOpen(state) => match state.settlement {
            Some(settlement) => settlement.waiting,
            None => None,
        },
        ActiveOperation::Settle(state) => state.waiting,
        ActiveOperation::Navigate(state) => if state.phase is Settling {
            state.waiting
        } else {
            None
        },
        _ => None,
    }
}

/// The time that an operation has waited for external I/O.
pub open spec fn waited_time(operation: ActiveOperation) -> u64 {
    match operation {
        ActiveOperation::ControlledOpen(state) => match state.settlement {
            Some(settlement) => settlement.cumulative_external_io_wall_time_ns,
            None => 0,
        },
        ActiveOperation::Settle(state) => state.cumulative_external_io_wall_time_ns,
        ActiveOperation::Navigate(state) => state.cumulative_external_io_wall_time_ns,
        _ => 0,
    }
}

/// An operation whose wait has ended, having waited for the given time in all.
pub open spec fn after_wait(operation: ActiveOperation, waited_ns: u64) -> ActiveOperation {
    match operation {
        ActiveOperation::ControlledOpen(state) => ActiveOperation::ControlledOpen(
            ControlledOpenState {
                settlement: Some(
                    ControlledOpenSettlement {
                        cumulative_external_io_wall_time_ns: waited_ns,
                        waiting: None,
                    },
                ),
                ..state
            },
        ),
        ActiveOperation::Settle(state) => ActiveOperation::Settle(
            SettleState { cumulative_external_io_wall_time_ns: waited_ns, waiting: None, ..state },
        ),
        ActiveOperation::Navigate(state) => ActiveOperation::Navigate(
            NavigateState { cumulative_external_io_wall_time_ns: waited_ns, waiting: None, ..state },
        ),
        _ => operation,
    }
}

/// Whether external I/O is active beside what the coordinator sees itself.
pub open spec fn further_io(operation: ActiveOperation, network_active: bool) -> bool {
    match operation {
        ActiveOperation::Settle(state) => network_active || state.replacement is Some,
        _ => network_active,
    }
}

/// The operation and its next step after the coordinator was told that the wait has ended.
pub open spec fn wait_replied(
    operation: ActiveOperation,
    started_at: u64,
    effect: RequestStateEffect,
    answers: Answers,
) -> (ActiveOperation, TransitionView) {
    match operation {
        ActiveOperation::ControlledOpen(state) => (
            operation,
            match answers.progress->0 {
                Ok(progress) => open_progress(state, progress, effect),
                Err(error) => TransitionView::Fail(settle_failure_view(error, effect, None)),
            },
        ),
        ActiveOperation::Settle(state) => match answers.progress->0 {
            Ok(progress) => {
                let (state, transition) = settle_progress(
                    state,
                    started_at,
                    progress,
                    effect,
                    answers,
                );
                (ActiveOperation::Settle(state), transition)
            },
            Err(error) => (
                operation,
                TransitionView::Fail(
                    settle_failure_for_response_view(error, effect, None, state.response),
                ),
            ),
        },
        ActiveOperation::Navigate(state) => (
            operation,
            match answers.progress->0 {
                Ok(progress) => navigate_progress(state, progress, effect),
                Err(error) => TransitionView::Fail(settle_failure_view(error, effect, None)),
            },
        ),
        _ => (operation, TransitionView::WaitForControlledOpen),
    }
}

/// The shell after the wait of a settlement has ended.
pub open spec fn settlement_resumed(
    shell: Shell,
    active: ActiveRequest,
    wait: SettleHostWait,
    expired: bool,
    network: Option<ControlledNetworkSnapshot>,
    answers: Answers,
    now: u64,
) -> (Shell, ShellStepView) {
    let idle = Shell { active: None, ..shell };
    let effect = active.state_effect;
    let elapsed = if now < wait.started_at {
        0
    } else {
        now - wait.started_at
    };
    let total = waited_time(active.operation) + elapsed;
    if total > u64::MAX {
        failed(
            idle,
            active,
            soft_failure(
                operation_error(
                    "settlement_wall_time_overflow"@,
                    "external-I/O wall-time accounting overflowed"@,
                    effect_text(effect),
                ),
            ),
        )
    } else if answers.progress is None {
        (
            shell,
            ShellStepView::Consult(
                Consultation::WaitEnded {
                    expired,
                    cumulative_wall_time_ns: total as u64,
                    external_io_active: further_io(
                        active.operation,
                        active_operations_of(network) != 0,
                    ),
                },
            ),
        )
    } else {
        let (operation, transition) = wait_replied(
            after_wait(active.operation, total as u64),
            active.started_at,
            effect,
            answers,
        );
        if let TransitionView::Consult(consultation) = transition {
            (shell, ShellStepView::Consult(consultation))
        } else {
            applied(idle, ActiveRequest { operation, ..active }, transition, network, now)
        }
    }
}

/// The shell after its waits were looked at; there is no step where none has ended.
pub open spec fn host_wait_served(
    shell: Shell,
    current: u64,
    network: Option<ControlledNetworkSnapshot>,
    answers: Answers,
    now: u64,
) -> (Shell, Option<ShellStepView>) {
    match shell.active {
        None => (shell, None),
        Some(active) => {
            if let Some((state, wait)) = readiness_wait(active.operation) {
                if now < state.deadline && now < wait.retry_at && current == wait.observed {
                    (shell, None)
                } else {
                    let (shell, step) = applied(
                        Shell { active: None, ..shell },
                        ActiveRequest {
                            operation: ActiveOperation::ControlledOpen(
                                ControlledOpenState { readiness_waiting: None, ..state },
                            ),
                            ..active
                        },
                        if now >= state.deadline {
                            TransitionView::Fail(open_timeout_view(state.profile))
                        } else {
                            TransitionView::Submit(DocumentControlCommand::Observe)
                        },
                        network,
                        now,
                    );
                    (shell, Some(step))
                }
            } else {
                match settlement_wait(active.operation) {
                    None => (shell, None),
                    Some(wait) => {
                        let expired = wait.deadline is Some && now >= wait.deadline->0;
                        if !expired && current == wait.observed {
                            (shell, None)
                        } else {
                            let (shell, step) = settlement_resumed(
                                shell,
                                active,
                                wait,
                                expired,
                                network,
                                answers,
                                now,
                            );
                            (shell, Some(step))
                        }
                    },
                }
            }
        },
    }
}

/// An open that waits until the engine can be observed, with its wait.
pub open spec fn readiness_wait(operation: ActiveOperation) -> Option<
    (ControlledOpenState, crate::active::ControlledOpenWait),
> {
    match operation {
        ActiveOperation::ControlledOpen(state) => match state.readiness_waiting {
            Some(wait) => Some((state, wait)),
            None => None,
        },
        _ => None,
    }
}

/// The shell after the deadline of an open was looked at; there is no step before the deadline.
pub open spec fn open_deadline_served(shell: Shell, now: u64) -> (Shell, Option<ShellStepView>) {
    match shell.active {
        None => (shell, None),
        Some(active) => match open_authority(active.operation) {
            None => (shell, None),
            Some((profile, deadline)) => if now < deadline {
                (shell, None)
            } else {
                let (shell, step) = failed(
                    Shell { active: None, ..shell },
                    active,
                    open_timeout_view(profile),
                );
                (shell, Some(step))
            },
        },
    }
}

/// The instant at which an operation's wait ends.
pub open spec fn wait_deadline(operation: ActiveOperation) -> Option<u64> {
    match operation {
        ActiveOperation::ControlledOpen(state) => match state.readiness_waiting {
            Some(wait) => earliest(Some(wait.retry_at), Some(state.deadline)),
            None => match state.settlement {
                Some(settlement) => match settlement.waiting {
                    Some(wait) => wait.deadline,
                    None => None,
                },
                None => None,
            },
        },
        ActiveOperation::Settle(state) => match state.waiting {
            Some(wait) => wait.deadline,
            None => None,
        },
        ActiveOperation::Navigate(state) => match state.waiting {
            Some(wait) => wait.deadline,
            None => None,
        },
        _ => None,
    }
}

/// The instant until which the owner loop may sleep.
pub open spec fn sleep_deadline(shell: Shell, control_deadline: Option<u64>, now: u64) -> u64 {
    let safety = if now + OWNER_LOOP_SAFETY_TIMEOUT_NS > u64::MAX {
        now
    } else {
        (now + OWNER_LOOP_SAFETY_TIMEOUT_NS) as u64
    };
    let (wait, open) = match shell.active {
        Some(active) => (
            wait_deadline(active.operation),
            match open_authority(active.operation) {
                Some((_, deadline)) => Some(deadline),
                None => None,
            },
        ),
        None => (None, None),
    };
    earliest(earliest(Some(safety), control_deadline), earliest(wait, open))->0
}

fn note_outcome(
    operation: &mut ActiveOperation,
    outcome: &DocumentControlReceiveOutcome,
    url: Option<String>,
)
    ensures
        *final(operation) == noted(*old(operation), *outcome, url),
{
    match operation {
        ActiveOperation::ControlledOpen(state) => {
            if let Some(url) = url {
                state.current_url = url;
            }
        },
        ActiveOperation::Settle(state) => {
            if let Some(target) = receive_outcome_pending_target(outcome) {
                state.latest_pending_target = Some(target);
            }
        },
        _ => {},
    }
}

fn replacement_source(
    operation: &ActiveOperation,
    command: DocumentControlCommand,
    outcome: &DocumentControlReceiveOutcome,
) -> (r: Option<Arc<SessionNavigationAuthority>>)
    ensures
        r == recoverable_source(*operation, command, *outcome),
{
    let state = match operation {
        ActiveOperation::Settle(state) => state,
        _ => {
            return None;
        },
    };
    let target = match outcome {
        DocumentControlReceiveOutcome::CommandOutcome { outcome, .. } => match outcome {
            DocumentControlOutcome::DriveOneTurnOutcomeIndeterminate { target } => target,
            _ => {
                return None;
            },
        },
        _ => {
            return None;
        },
    };
    if command != DocumentControlCommand::DriveOneTurn
        || state.authorizing_document_state.is_some() || state.authorizing_observation.is_some()
        || state.replacement.is_some() || !state.profile.supports_session_api() {
        return None;
    }
    match &state.authorizing_navigation {
        Some(source) => if same_target(&source.target, target) {
            Some(source.clone())
        } else {
            None
        },
        None => None,
    }
}

fn has_diverged(command: DocumentControlCommand, outcome: &DocumentControlReceiveOutcome, completed:
    bool) -> (r: bool)
    requires
        completed == (disposition(*outcome) == ControlOutcomeDisposition::Completed),
    ensures
        r == advance_diverged(command, *outcome),
{
    match command {
        DocumentControlCommand::AdvanceTo(token) => {
            let attested = match receive_outcome_virtual_time_ns(outcome) {
                Some(time) => time == token.deadline_ns,
                None => false,
            };
            completed && !attested
        },
        _ => false,
    }
}

fn starts_new_navigation(
    last: &Option<Arc<SessionNavigationAuthority>>,
    navigation: &Arc<SessionNavigationAuthority>,
) -> (r: bool)
    ensures
        r == is_new_navigation(*last, *navigation),
{
    match last {
        Some(previous) => previous.navigation_id != navigation.navigation_id,
        None => true,
    }
}

fn changes_history(
    last: &Option<Arc<SessionNavigationAuthority>>,
    navigation: &Arc<SessionNavigationAuthority>,
) -> (r: bool)
    ensures
        r == is_new_history(*last, *navigation),
{
    match last {
        Some(previous) => previous.history_revision != navigation.history_revision,
        None => false,
    }
}

fn record(records: &mut Vec<EvidenceRecord>, holds: bool, entry: EvidenceRecord)
    ensures
        final(records)@ == old(records)@ + recorded(holds, entry),
{
    if holds {
        records.push(entry);
    }
    assert(records@ =~= old(records)@ + recorded(holds, entry));
}

fn record_entered(records: &mut Vec<EvidenceRecord>, holds: bool, navigation_id: u64)
    ensures
        final(records)@ == old(records)@ + entered(holds, navigation_id),
{
    if holds {
        records.push(EvidenceRecord::NavigationStarted(navigation_id));
        records.push(EvidenceRecord::NavigationCommitted(navigation_id));
    }
    assert(records@ =~= old(records)@ + entered(holds, navigation_id));
}

fn is_awaiting_own_admission(operation: &ActiveOperation, kind: NavigationOperationKind) -> (r: bool)
    ensures
        r == awaits_own_admission(*operation, kind),
{
    match operation {
        ActiveOperation::Navigate(state) => match &state.phase {
            NavigatePhase::AwaitingAdmission { .. } => kind == NavigationOperationKind::Navigate,
            _ => false,
        },
        _ => false,
    }
}

fn is_completing_replacement(
    operation: &ActiveOperation,
    kind: NavigationOperationKind,
    navigation: &Arc<SessionNavigationAuthority>,
) -> (r: bool)
    ensures
        r == completes_replacement(*operation, kind, *navigation),
{
    match operation {
        ActiveOperation::Settle(state) => match &state.replacement {
            Some(SettleReplacementPhase::AwaitingActivation { source, admitted, .. }) => kind
                == NavigationOperationKind::Observe && explicit_navigation_reached_controlled_ready(
                source,
                admitted,
                navigation,
            ),
            _ => false,
        },
        _ => false,
    }
}

fn is_confirming_bracket(
    operation: &ActiveOperation,
    kind: NavigationOperationKind,
    navigation: &Arc<SessionNavigationAuthority>,
) -> (r: bool)
    ensures
        r == (operation is SessionProjection && kind == NavigationOperationKind::Observe
            && confirms_bracket(operation->SessionProjection_0, *navigation)),
{
    match operation {
        ActiveOperation::SessionProjection(state) => match &state.phase {
            SessionProjectionPhase::AwaitingStableNavigation { navigation: before } => kind
                == NavigationOperationKind::Observe && same_authority(before, navigation),
            _ => false,
        },
        _ => false,
    }
}

impl Shell {
    /// Whether the document-control lane is to be polled.
    pub fn expects_control_response(&self) -> (r: bool)
        ensures
            r == (self.active is Some && self.active->0.in_flight is Some),
    {
        match &self.active {
            Some(active) => active.in_flight.is_some(),
            None => false,
        }
    }

    /// Whether the session-navigation lane is to be polled.
    pub fn expects_navigation_response(&self) -> (r: bool)
        ensures
            r == (self.active is Some && expects_navigation(self.active->0.operation)),
    {
        match &self.active {
            Some(active) => active_expects_navigation_response(&active.operation),
            None => false,
        }
    }

    fn complete_control(
        &mut self,
        active: ActiveRequest,
        command: DocumentControlCommand,
        outcome: Arc<DocumentControlReceiveOutcome>,
        certainty: ControlOutcomeDisposition,
        url: Option<String>,
        network: Option<ControlledNetworkSnapshot>,
        now: u64,
    ) -> (step: ControlStep)
        requires
            old(self).active is None,
            certainty == disposition(*outcome),
        ensures
            (*final(self), step@) == control_completed(
                *old(self),
                active,
                command,
                outcome,
                url,
                network,
                now,
            ),
    {
        let mut active = active;
        active.in_flight = None;
        active.needs_initial_pump = false;
        note_outcome(&mut active.operation, &outcome, url);
        if let Some(source) = replacement_source(&active.operation, command, &outcome) {
            if let ActiveOperation::Settle(state) = &mut active.operation {
                state.replacement =
                Some(SettleReplacementPhase::AwaitingAdmission { source, drive_outcome: outcome });
            }
            // The turn was linearized; it is counted once the navigation is known.

            active.state_effect = RequestStateEffect::Partial;
            return ControlStep::Step(
                self.apply_active_transition(
                    active,
                    ActiveTransition::SubmitSessionNavigationObservation {
                        allow_servo_pump: false,
                    },
                    network,
                    now,
                ),
            );
        }
        if certainty == ControlOutcomeDisposition::Indeterminate {
            return ControlStep::Step(
                self.fail_active(
                    active,
                    indeterminate_failure(
                        "document-control mutation may have completed without a response",
                    ),
                ),
            );
        }
        let session_profile = supports_session_api(active.profile);
        let lost = match &*outcome {
            DocumentControlReceiveOutcome::CommandOutcome { .. } => false,
            _ => true,
        };
        if session_profile && lost {
            return ControlStep::Step(
                self.fail_active(
                    active,
                    ActiveFailure {
                        error: fatal_operation(
                            "session_command_transport_failure",
                            "an active controlled-session command lost its typed response",
                            "indeterminate",
                        ),
                        fail_stop: true,
                    },
                ),
            );
        }
        let completed = certainty == ControlOutcomeDisposition::Completed;
        if session_profile && has_diverged(command, &outcome, completed) {
            return ControlStep::Step(
                self.fail_active(
                    active,
                    ActiveFailure {
                        error: fatal_operation(
                            "controlled_network_time_authority_diverged",
                            "the completed document advance did not attest the virtual time authorized for its network evidence",
                            "indeterminate",
                        ),
                        fail_stop: true,
                    },
                ),
            );
        }
        if completed && command_is_mutating(&command) {
            active.state_effect = RequestStateEffect::Partial;
        }
        let network_time_ns = receive_outcome_virtual_time_ns(&outcome);
        self.active = Some(active);
        ControlStep::Transition { command, outcome, network_time_ns }
    }

    /// Takes up what polling the document-control lane gave; `url` is where the engine is now.
    pub fn poll_active_control(
        &mut self,
        poll: EngineControlPoll,
        url: Option<String>,
        network: Option<ControlledNetworkSnapshot>,
        now: u64,
    ) -> (step: ControlStep)
        ensures
            (*final(self), step@) == control_polled(*old(self), poll, url, network, now),
    {
        if !self.expects_control_response() {
            return ControlStep::Waiting { deadline: None };
        }
        if let EngineControlPoll::Pending { deadline } = poll {
            return ControlStep::Waiting { deadline: Some(deadline) };
        }
        let active = match self.active.take() {
            Some(active) => active,
            None => {
                return ControlStep::Waiting { deadline: None };
            },
        };
        let command = match active.in_flight {
            Some(command) => command,
            None => {
                self.active = Some(active);
                return ControlStep::Waiting { deadline: None };
            },
        };
        match poll {
            EngineControlPoll::Complete(completion) => {
                let certainty = completion.disposition();
                let outcome = completion.into_receive_outcome();
                self.complete_control(active, command, outcome, certainty, url, network, now)
            },
            _ => ControlStep::Step(
                self.fail_active(
                    active,
                    internal_failure(
                        "engine lost an in-flight document-control receiver",
                        "indeterminate",
                    ),
                ),
            ),
        }
    }

    /// Hands the outcome of a control command to the active request. Where the step asks for an
    /// answer, the shell stays as it is and the call is repeated with the answer.
    pub fn apply_control_completion(
        &mut self,
        command: DocumentControlCommand,
        outcome: &Arc<DocumentControlReceiveOutcome>,
        network_refusal: Option<ProtocolError>,
        network: Option<ControlledNetworkSnapshot>,
        answers: &Answers,
        now: u64,
    ) -> (step: ShellStep)
        ensures
            (*final(self), step@) == control_taken_up(
                *old(self),
                command,
                *outcome,
                match network_refusal {
                    Some(error) => Some(error@),
                    None => None,
                },
                network,
                *answers,
                now,
            ),
    {
        let active = match self.active.take() {
            Some(active) => active,
            None => {
                return ShellStep::Keep;
            },
        };
        if let Some(error) = network_refusal {
            let mut error = error;
            error.fatal = true;
            return self.fail_active(active, ActiveFailure { error, fail_stop: true });
        }
        let mut active = active;
        let transition = transition_from_control_completion(
            &mut active,
            command,
            outcome,
            active_operations(network),
            answers,
        );
        self.apply_active_transition(active, transition, network, now)
    }

    fn confirm_bracket(
        &mut self,
        active: ActiveRequest,
        completion: NavigationOperationCompletion,
        navigation: &Arc<SessionNavigationAuthority>,
        session_state_token: Option<Result<Arc<Value>, ProtocolError>>,
        needed_pump: bool,
    ) -> (step: NavigationStep)
        requires
            old(self).active is None,
            active.operation is SessionProjection,
            !active.needs_initial_pump,
        ensures
            (*final(self), step.records@, step.next@) == bracket_confirmed(
                Shell {
                    active: Some(ActiveRequest { needs_initial_pump: needed_pump, ..active }),
                    ..*old(self)
                },
                *old(self),
                active,
                active.operation->SessionProjection_0,
                completion,
                *navigation,
                state_token_view(session_state_token),
            ),
    {
        let id = navigation.navigation_id;
        let mut records: Vec<EvidenceRecord> = Vec::new();
        let mut active = active;
        let effect = active.state_effect;
        let mut ready = true;
        if let ActiveOperation::SessionProjection(state) = &mut active.operation {
            match &mut state.kind {
                SessionProjectionKind::ControlledOpen {
                    session_state_token: slot,
                    settle_resume,
                    ..
                } => {
                    ready = is_open_ready(settle_resume.is_some(), navigation);
                    if ready {
                        match session_state_token {
                            None => {
                                active.needs_initial_pump = needed_pump;
                                self.active = Some(active);
                                return NavigationStep {
                                    records,
                                    next: NavigationNext::SessionStateToken(completion),
                                };
                            },
                            Some(Err(error)) => {
                                let mut error = error;
                                error.fatal = true;
                                let step = self.fail_active(
                                    active,
                                    ActiveFailure { error, fail_stop: true },
                                );
                                return NavigationStep {
                                    records,
                                    next: NavigationNext::Step(step),
                                };
                            },
                            Some(Ok(token)) => {
                                *slot = Some(token);
                            },
                        }
                        record_entered(
                            &mut records,
                            starts_new_navigation(&self.last_navigation_authority, navigation),
                            id,
                        );
                        records.push(EvidenceRecord::SettlementTerminal(id));
                    }
                },
                SessionProjectionKind::Navigate { source, admitted, settle_resume, .. } => {
                    ready =
                    is_navigate_ready(source, admitted, settle_resume.is_some(), navigation);
                    if ready {
                        record(
                            &mut records,
                            settle_resume.is_none() || starts_new_navigation(
                                &self.last_navigation_authority,
                                navigation,
                            ),
                            EvidenceRecord::NavigationCommitted(id),
                        );
                        record(
                            &mut records,
                            admitted.history_revision != navigation.history_revision,
                            EvidenceRecord::SameDocumentHistoryChanged(id),
                        );
                        records.push(EvidenceRecord::SettlementTerminal(id));
                    }
                },
                _ => {
                    let entering = self.last_navigation_authority.is_some()
                        && starts_new_navigation(&self.last_navigation_authority, navigation);
                    record_entered(&mut records, entering, id);
                    record(
                        &mut records,
                        changes_history(&self.last_navigation_authority, navigation),
                        EvidenceRecord::SameDocumentHistoryChanged(id),
                    );
                    record(
                        &mut records,
                        same_text(active.request.method.as_str(), "runtime.settle"),
                        EvidenceRecord::SettlementTerminal(id),
                    );
                },
            }
        }
        if !ready {
            let step = match navigation_activation_failure(effect, true) {
                ActiveTransition::Fail(failure) => self.fail_active(active, failure),
                _ => ShellStep::Keep,
            };
            return NavigationStep { records, next: NavigationNext::Step(step) };
        }
        self.last_navigation_authority = Some(navigation.clone());
        self.active = Some(active);
        NavigationStep { records, next: NavigationNext::Transition(completion) }
    }

    fn complete_navigation(
        &mut self,
        active: ActiveRequest,
        completion: NavigationOperationCompletion,
        session_state_token: Option<Result<Arc<Value>, ProtocolError>>,
    ) -> (step: NavigationStep)
        requires
            old(self).active is None,
        ensures
            (*final(self), step.records@, step.next@) == navigation_completed(
                Shell { active: Some(active), ..*old(self) },
                active,
                completion,
                state_token_view(session_state_token),
            ),
    {
        let mut active = active;
        let needed_pump = active.needs_initial_pump;
        active.needs_initial_pump = false;
        let mut records: Vec<EvidenceRecord> = Vec::new();
        let kind = completion.kind;
        match &completion.outcome {
            Some(Ok(navigation)) => match navigation.terminal {
                Some(terminal) => {
                    let (id, reason) = terminal_navigation_evidence(
                        terminal,
                        navigation.navigation_id,
                    );
                    record(
                        &mut records,
                        is_awaiting_own_admission(&active.operation, kind),
                        EvidenceRecord::NavigationStarted(id),
                    );
                    records.push(EvidenceRecord::NavigationFailed(id, reason));
                },
                None => {
                    let id = navigation.navigation_id;
                    if is_awaiting_own_admission(&active.operation, kind) {
                        records.push(EvidenceRecord::NavigationStarted(id));
                    } else if is_completing_replacement(&active.operation, kind, navigation) {
                        record_entered(
                            &mut records,
                            starts_new_navigation(&self.last_navigation_authority, navigation),
                            id,
                        );
                        record(
                            &mut records,
                            changes_history(&self.last_navigation_authority, navigation),
                            EvidenceRecord::SameDocumentHistoryChanged(id),
                        );
                        self.last_navigation_authority = Some(navigation.clone());
                    } else if is_confirming_bracket(&active.operation, kind, navigation) {
                        let navigation = navigation.clone();
                        return self.confirm_bracket(
                            active,
                            completion,
                            &navigation,
                            session_state_token,
                            needed_pump,
                        );
                    }
                },
            },
            Some(Err(error)) => match error {
                SessionNavigationError::NavigationStartFailed { observed } => {
                    records.push(EvidenceRecord::NavigationStarted(observed.navigation_id));
                    records.push(
                        EvidenceRecord::NavigationFailed(
                            observed.navigation_id,
                            NetworkFailureReason::NetworkError,
                        ),
                    );
                },
                SessionNavigationError::Terminal(terminal) => {
                    let fallback = match &self.last_navigation_authority {
                        Some(authority) => authority.navigation_id,
                        None => 0,
                    };
                    let (id, reason) = terminal_navigation_evidence(*terminal, fallback);
                    records.push(EvidenceRecord::NavigationFailed(id, reason));
                },
                _ => {},
            },
            None => {},
        }
        self.active = Some(active);
        NavigationStep { records, next: NavigationNext::Transition(completion) }
    }

    /// Takes up what polling the session-navigation lane gave. Where a token of the session state is
    /// needed, the shell stays as it is and the call is repeated with the completion and the token.
    pub fn poll_active_navigation(
        &mut self,
        poll: EngineNavigationPoll,
        session_state_token: Option<Result<Arc<Value>, ProtocolError>>,
    ) -> (step: NavigationStep)
        ensures
            (*final(self), step.records@, step.next@) == navigation_polled(
                *old(self),
                poll,
                state_token_view(session_state_token),
            ),
    {
        let records: Vec<EvidenceRecord> = Vec::new();
        if !self.expects_navigation_response() {
            return NavigationStep { records, next: NavigationNext::Waiting { deadline: None } };
        }
        if let EngineNavigationPoll::Pending { deadline } = poll {
            return NavigationStep {
                records,
                next: NavigationNext::Waiting { deadline: Some(deadline) },
            };
        }
        let active = match self.active.take() {
            Some(active) => active,
            None => {
                return NavigationStep { records, next: NavigationNext::Waiting { deadline: None } };
            },
        };
        match poll {
            EngineNavigationPoll::Complete(completion) => self.complete_navigation(
                active,
                completion,
                session_state_token,
            ),
            _ => {
                let step = self.fail_active(
                    active,
                    internal_failure(
                        "engine lost an in-flight session-navigation receiver",
                        "indeterminate",
                    ),
                );
                NavigationStep { records, next: NavigationNext::Step(step) }
            },
        }
    }

    /// Hands a session-navigation completion to the active request. Where the step asks for an
    /// answer, the shell stays as it is and the call is repeated with the answer.
    pub fn apply_navigation_completion(
        &mut self,
        completion: &NavigationOperationCompletion,
        network: Option<ControlledNetworkSnapshot>,
        answers: &Answers,
        now: u64,
    ) -> (step: ShellStep)
        requires
            old(self).active is Some ==> retains_profile(old(self).active->0),
        ensures
            (*final(self), step@) == navigation_taken_up(
                *old(self),
                *completion,
                network,
                *answers,
                now,
            ),
    {
        let active = match self.active.take() {
            Some(active) => active,
            None => {
                return ShellStep::Keep;
            },
        };
        let mut active = active;
        let transition = transition_from_navigation_completion(
            &mut active,
            completion,
            active_operations(network),
            answers,
        );
        self.apply_active_transition(active, transition, network, now)
    }

    fn wait_of(operation: &ActiveOperation) -> (wait: Option<SettleHostWait>)
        ensures
            wait == settlement_wait(*operation),
    {
        match operation {
            ActiveOperation::ControlledOpen(state) => match state.settlement {
                Some(settlement) => settlement.waiting,
                None => None,
            },
            ActiveOperation::Settle(state) => state.waiting,
            ActiveOperation::Navigate(state) => match &state.phase {
                NavigatePhase::Settling { .. } => state.waiting,
                _ => None,
            },
            _ => None,
        }
    }

    fn reply_to_wait(
        active: &mut ActiveRequest,
        waited_ns: u64,
        answers: &Answers,
    ) -> (transition: ActiveTransition)
        requires
            settlement_wait(old(active).operation) is Some,
            answers.progress is Some,
        ensures
            ({
                let (operation, step) = wait_replied(
                    after_wait(old(active).operation, waited_ns),
                    old(active).started_at,
                    old(active).state_effect,
                    *answers,
                );
                &&& transition@ == step
                &&& *final(active) == if step is Consult {
                    *old(active)
                } else {
                    ActiveRequest { operation, ..*old(active) }
                }
            }),
    {
        let effect = active.state_effect;
        match (&mut active.operation, &answers.progress) {
            (ActiveOperation::ControlledOpen(state), Some(reply)) => {
                state.settlement =
                Some(
                    ControlledOpenSettlement {
                        cumulative_external_io_wall_time_ns: waited_ns,
                        waiting: None,
                    },
                );
                match reply {
                    Ok(progress) => transition_from_controlled_open_settle_progress(
                        state,
                        progress,
                        effect,
                    ),
                    Err(error) => ActiveTransition::Fail(settle_failure(error, effect, None)),
                }
            },
            (ActiveOperation::Settle(state), Some(reply)) => {
                let mut next = state.copy();
                next.cumulative_external_io_wall_time_ns = waited_ns;
                next.waiting = None;
                let transition = match reply {
                    Ok(progress) => transition_from_settle_progress_for_active(
                        &mut next,
                        active.started_at,
                        progress,
                        effect,
                        answers,
                    ),
                    Err(error) => ActiveTransition::Fail(
                        settle_failure_for_response(error, effect, None, &next.response),
                    ),
                };
                match &transition {
                    // The wait stays in place until the answer is known.
                    ActiveTransition::Consult(_) => {},
                    _ => {
                        *state = next;
                    },
                }
                transition
            },
            (ActiveOperation::Navigate(state), Some(reply)) => {
                state.cumulative_external_io_wall_time_ns = waited_ns;
                state.waiting = None;
                match reply {
                    Ok(progress) => transition_from_navigate_settle_progress(
                        state,
                        progress,
                        effect,
                    ),
                    Err(error) => ActiveTransition::Fail(settle_failure(error, effect, None)),
                }
            },
            _ => ActiveTransition::WaitForControlledOpen,
        }
    }

    fn resume_settlement(
        &mut self,
        active: ActiveRequest,
        wait: SettleHostWait,
        expired: bool,
        network: Option<ControlledNetworkSnapshot>,
        answers: &Answers,
        now: u64,
    ) -> (step: ShellStep)
        requires
            old(self).active is None,
            settlement_wait(active.operation) == Some(wait),
        ensures
            (*final(self), step@) == settlement_resumed(
                Shell { active: Some(active), ..*old(self) },
                active,
                wait,
                expired,
                network,
                *answers,
                now,
            ),
    {
        let elapsed: u64 = if now < wait.started_at {
            0
        } else {
            now - wait.started_at
        };
        let (before, replacing) = match &active.operation {
            ActiveOperation::ControlledOpen(state) => (
                match state.settlement {
                    Some(settlement) => settlement.cumulative_external_io_wall_time_ns,
                    None => 0,
                },
                false,
            ),
            ActiveOperation::Settle(state) => (
                state.cumulative_external_io_wall_time_ns,
                state.replacement.is_some(),
            ),
            ActiveOperation::Navigate(state) => (state.cumulative_external_io_wall_time_ns, false),
            _ => (0, false),
        };
        let waited_ns = match before.checked_add(elapsed) {
            Some(waited_ns) => waited_ns,
            None => {
                let error = ProtocolError::operation(
                    "settlement_wall_time_overflow",
                    "external-I/O wall-time accounting overflowed",
                    active.state_effect.as_protocol_str(),
                );
                return self.fail_active(active, ActiveFailure { error, fail_stop: false });
            },
        };
        if answers.progress.is_none() {
            self.active = Some(active);
            return ShellStep::Consult(
                Consultation::WaitEnded {
                    expired,
                    cumulative_wall_time_ns: waited_ns,
                    external_io_active: active_operations(network) != 0 || replacing,
                },
            );
        }
        let mut active = active;
        let transition = Shell::reply_to_wait(&mut active, waited_ns, answers);
        self.apply_active_transition(active, transition, network, now)
    }

    /// Looks at the waits of the active request; `current` is the engine's wake generation. Where the
    /// step asks for an answer, the shell stays as it is and the call is repeated with the answer.
    pub fn service_active_host_wait(
        &mut self,
        current: u64,
        network: Option<ControlledNetworkSnapshot>,
        answers: &Answers,
        now: u64,
    ) -> (step: Option<ShellStep>)
        ensures
            ({
                let (shell, served) = host_wait_served(*old(self), current, network, *answers, now);
                &&& *final(self) == shell
                &&& match step {
                    Some(step) => served == Some(step@),
                    None => served is None,
                }
            }),
    {
        let active = match self.active.take() {
            Some(active) => active,
            None => {
                return None;
            },
        };
        let mut active = active;
        let mut probe: Option<ActiveTransition> = None;
        let mut waits_for_engine = false;
        if let ActiveOperation::ControlledOpen(state) = &mut active.operation {
            if let Some(wait) = state.readiness_waiting {
                waits_for_engine = true;
                if now >= state.deadline {
                    state.readiness_waiting = None;
                    probe =
                    Some(ActiveTransition::Fail(controlled_open_timeout_failure(state.profile)));
                } else if now >= wait.retry_at || current != wait.observed {
                    state.readiness_waiting = None;
                    probe = Some(ActiveTransition::Submit(DocumentControlCommand::Observe));
                }
            }
        }
        if let Some(transition) = probe {
            return Some(self.apply_active_transition(active, transition, network, now));
        }
        if waits_for_engine {
            self.active = Some(active);
            return None;
        }
        let wait = match Shell::wait_of(&active.operation) {
            Some(wait) => wait,
            None => {
                self.active = Some(active);
                return None;
            },
        };
        let expired = match wait.deadline {
            Some(deadline) => now >= deadline,
            None => false,
        };
        if !expired && current == wait.observed {
            self.active = Some(active);
            return None;
        }
        Some(self.resume_settlement(active, wait, expired, network, answers, now))
    }

    /// Ends an open whose deadline has passed.
    pub fn service_controlled_open_deadline(&mut self, now: u64) -> (step: Option<ShellStep>)
        ensures
            ({
                let (shell, served) = open_deadline_served(*old(self), now);
                &&& *final(self) == shell
                &&& match step {
                    Some(step) => served == Some(step@),
                    None => served is None,
                }
            }),
    {
        let profile = match &self.active {
            Some(active) => match active.operation.controlled_open_wall_authority() {
                Some((profile, deadline)) => {
                    if now < deadline {
                        return None;
                    }
                    profile
                },
                None => {
                    return None;
                },
            },
            None => {
                return None;
            },
        };
        match self.active.take() {
            Some(active) => Some(
                self.fail_active(active, controlled_open_timeout_failure(profile)),
            ),
            None => None,
        }
    }

    /// The instant until which the owner loop may sleep, where a command in flight times out at
    /// `control_deadline`.
    pub fn next_wait_deadline(&self, control_deadline: Option<u64>, now: u64) -> (r: u64)
        ensures
            r == sleep_deadline(*self, control_deadline, now),
    {
        let safety = match now.checked_add(OWNER_LOOP_SAFETY_TIMEOUT_NS) {
            Some(safety) => safety,
            None => now,
        };
        let (wait, open) = match &self.active {
            Some(active) => {
                let wait = match &active.operation {
                    ActiveOperation::ControlledOpen(state) => match state.readiness_waiting {
                        Some(wait) => earliest_deadline(Some(wait.retry_at), Some(state.deadline)),
                        None => match state.settlement {
                            Some(settlement) => match settlement.waiting {
                                Some(wait) => wait.deadline,
                                None => None,
                            },
                            None => None,
                        },
                    },
                    ActiveOperation::Settle(state) => match state.waiting {
                        Some(wait) => wait.deadline,
                        None => None,
                    },
                    ActiveOperation::Navigate(state) => match state.waiting {
                        Some(wait) => wait.deadline,
                        None => None,
                    },
                    _ => None,
                };
                let open = match active.operation.controlled_open_wall_authority() {
                    Some((_, deadline)) => Some(deadline),
                    None => None,
                };
                (wait, open)
            },
            None => (None, None),
        };
        match earliest_deadline(
            earliest_deadline(Some(safety), control_deadline),
            earliest_deadline(wait, open),
        ) {
            Some(deadline) => deadline,
            None => safety,
        }
    }
}

} // verus!
