//! The shell: the state of the one session, and what the host does for it next.
//!
//! The host reads frames, owns the engine and the clock, and writes responses. It reports each event
//! to the shell and performs the `ShellStep` that it gets back.

use serde_json::Value;
use std::sync::Arc;
use vstd::prelude::*;

use crate::active::{
    ActiveFailure, ActiveFailureView, ActiveOperation, ActiveRequest, ActiveTransition,
    Consultation, ControlledOpenSettlement, ControlledOpenState, ControlledOpenWait, NavigatePhase,
    NavigateState, SessionProjectionKind, SettleHostWait, SettleResponse, SettleState,
    TransitionView,
};
use crate::authority::SessionNavigationAuthority;
use crate::control::{DocumentControlCommand, SettleWait};
use crate::engine::EngineSession;
use crate::error::{operation_error, ProtocolError, ProtocolErrorView};
use crate::failure::{
    controlled_open_timeout_failure, internal_failure, internal_failure_view, open_timeout_view,
    soft_failure, stale_state_token_error, stale_state_token_view,
};
use crate::json::{value_json, JsonView};
use crate::network::{controlled_network_failure, network_failure_of, ControlledNetworkSnapshot};
use crate::profile::{
    effect_text, selects_session_api, supports_session_api, SessionProfile,
    CONTROLLED_OPEN_RETRY_INTERVAL_NS, CONTROL_COMMAND_TIMEOUT_NS, SESSION_ID,
};
use crate::request::Request;
use crate::settle::{session_projection_suppresses_initial_pump, suppresses_initial_pump};
use crate::text::same_text;

verus! {

/// How far the shell has come.
#[derive(Clone, Copy, Debug, PartialEq, Eq, Structural)]
pub enum ShellState {
    Spawned,
    Initialized,
    Open,
    Closed,
}

/// The state of the shell.
#[derive(Debug)]
pub struct Shell {
    pub state: ShellState,
    pub engine: Option<EngineSession>,
    /// The engine's wake generation that the last pump consumed.
    pub servo_cursor: u64,
    pub active: Option<ActiveRequest>,
    pub profile: Option<SessionProfile>,
    pub last_navigation_authority: Option<Arc<SessionNavigationAuthority>>,
}

impl Shell {
    /// Whether the parts of a shell fit together. There is an engine exactly while a session is
    /// open, a controlled session has a profile, and a request is active only in an open session
    /// and with a profile.
    pub open spec fn well_formed(self) -> bool {
        &&& self.engine is Some <==> self.state == ShellState::Open
        &&& self.engine is Some && self.engine->0.clock_mode is Controlled ==> self.profile is Some
        &&& self.active is Some ==> self.state == ShellState::Open && self.active->0.profile is Some
    }
}

/// One frame to the peer. Without a request it answers none.
#[derive(Debug)]
pub struct Response {
    pub request: Option<Request>,
    pub session_id: Option<&'static str>,
    pub outcome: Result<Value, ProtocolError>,
}

/// What a response says.
pub struct ResponseView {
    pub request: Option<Request>,
    pub session_id: Option<Seq<char>>,
    pub outcome: Result<JsonView, ProtocolErrorView>,
}

/// What the outcome of a request says.
pub open spec fn outcome_view(outcome: Result<Value, ProtocolError>) -> Result<
    JsonView,
    ProtocolErrorView,
> {
    match outcome {
        Ok(value) => Ok(value_json(value)),
        Err(error) => Err(error@),
    }
}

impl View for Response {
    type V = ResponseView;

    open spec fn view(&self) -> ResponseView {
        ResponseView {
            request: self.request,
            session_id: match self.session_id {
                Some(id) => Some(id@),
                None => None,
            },
            outcome: outcome_view(self.outcome),
        }
    }
}

/// What a list of responses says.
pub open spec fn responses_view(responses: Seq<Response>) -> Seq<ResponseView> {
    Seq::new(responses.len(), |i: int| responses[i]@)
}

/// The end of one or more requests: responses that are written in order, before and after which the
/// engine may be closed. With an `exit` the shell ends with that diagnostic.
#[derive(Debug)]
pub struct Finish {
    pub close_before: bool,
    pub responses: Vec<Response>,
    pub close_after: bool,
    pub exit: Option<String>,
}

/// What a `Finish` says.
pub struct FinishView {
    pub close_before: bool,
    pub responses: Seq<ResponseView>,
    pub close_after: bool,
    pub exit: Option<Seq<char>>,
}

impl View for Finish {
    type V = FinishView;

    open spec fn view(&self) -> FinishView {
        FinishView {
            close_before: self.close_before,
            responses: responses_view(self.responses@),
            close_after: self.close_after,
            exit: match self.exit {
                Some(text) => Some(text@),
                None => None,
            },
        }
    }
}

/// What the host does next.
#[derive(Debug)]
pub enum ShellStep {
    /// Nothing; the active request waits.
    Keep,
    /// Submit a command to the document-control lane and report it.
    SubmitControl { command: DocumentControlCommand, timeout_ns: u64 },
    /// Submit a passive observation to the session-navigation lane and report it.
    SubmitNavigationObservation { timeout_ns: u64, allow_servo_pump: bool },
    /// Submit a navigation and report it.
    SubmitNavigation { expected: Arc<SessionNavigationAuthority>, url: String, timeout_ns: u64 },
    /// Get an answer and repeat the call with it.
    Consult(Consultation),
    /// Write the responses.
    Finish(Finish),
}

/// What a `ShellStep` says.
pub enum ShellStepView {
    Keep,
    SubmitControl { command: DocumentControlCommand, timeout_ns: u64 },
    SubmitNavigationObservation { timeout_ns: u64, allow_servo_pump: bool },
    SubmitNavigation { expected: Arc<SessionNavigationAuthority>, url: String, timeout_ns: u64 },
    Consult(Consultation),
    Finish(FinishView),
}

impl View for ShellStep {
    type V = ShellStepView;

    open spec fn view(&self) -> ShellStepView {
        match *self {
            ShellStep::Keep => ShellStepView::Keep,
            ShellStep::SubmitControl { command, timeout_ns } => ShellStepView::SubmitControl {
                command,
                timeout_ns,
            },
            ShellStep::SubmitNavigationObservation { timeout_ns, allow_servo_pump } =>
            ShellStepView::SubmitNavigationObservation { timeout_ns, allow_servo_pump },
            ShellStep::SubmitNavigation { expected, url, timeout_ns } =>
            ShellStepView::SubmitNavigation { expected, url, timeout_ns },
            ShellStep::Consult(consultation) => ShellStepView::Consult(consultation),
            ShellStep::Finish(finish) => ShellStepView::Finish(finish@),
        }
    }
}

/// The session that a frame names: the one that is open.
pub open spec fn open_session_id(state: ShellState) -> Option<Seq<char>> {
    if state == ShellState::Open {
        Some(SESSION_ID@)
    } else {
        None
    }
}

/// The session that the response to a method names. Opening names it only on success, closing names
/// it though it is closed.
pub open spec fn method_session_id(method: Seq<char>, succeeded: bool, state: ShellState) -> Option<
    Seq<char>,
> {
    if method == "session.open"@ {
        if succeeded {
            Some(SESSION_ID@)
        } else {
            None
        }
    } else if method == "session.close"@ && succeeded {
        Some(SESSION_ID@)
    } else {
        open_session_id(state)
    }
}

/// The response to a request.
pub open spec fn method_response(
    request: Request,
    outcome: Result<JsonView, ProtocolErrorView>,
    state: ShellState,
) -> ResponseView {
    ResponseView {
        request: Some(request),
        session_id: method_session_id(request.method@, outcome is Ok, state),
        outcome,
    }
}

/// One response, after which the shell goes on.
pub open spec fn answered(response: ResponseView) -> ShellStepView {
    ShellStepView::Finish(
        FinishView {
            close_before: false,
            responses: seq![response],
            close_after: false,
            exit: None,
        },
    )
}

/// The profile of an open that is under way, and the deadline by which it must be done.
pub open spec fn open_authority(operation: ActiveOperation) -> Option<(SessionProfile, u64)> {
    match operation {
        ActiveOperation::ControlledOpen(state) => Some((state.profile, state.deadline)),
        ActiveOperation::Settle(state) => match state.response {
            SettleResponse::ControlledOpen { profile, deadline, .. } => Some((profile, deadline)),
            _ => None,
        },
        ActiveOperation::SessionProjection(state) => match state.kind {
            SessionProjectionKind::ControlledOpen { profile, deadline, .. } => Some(
                (profile, deadline),
            ),
            _ => None,
        },
        _ => None,
    }
}

impl ActiveOperation {
    pub fn controlled_open_wall_authority(&self) -> (r: Option<(SessionProfile, u64)>)
        ensures
            r == open_authority(*self),
    {
        match self {
            ActiveOperation::ControlledOpen(state) => Some((state.profile, state.deadline)),
            ActiveOperation::Settle(state) => match &state.response {
                SettleResponse::ControlledOpen { profile, deadline, .. } => Some(
                    (*profile, *deadline),
                ),
                _ => None,
            },
            ActiveOperation::SessionProjection(state) => match &state.kind {
                SessionProjectionKind::ControlledOpen { profile, deadline, .. } => Some(
                    (*profile, *deadline),
                ),
                _ => None,
            },
            _ => None,
        }
    }
}

/// How long a command may take until the deadline of an open.
pub open spec fn open_timeout(profile: SessionProfile, deadline: u64, now: u64) -> Result<
    u64,
    ActiveFailureView,
> {
    if now >= deadline {
        Err(open_timeout_view(profile))
    } else if deadline - now < CONTROL_COMMAND_TIMEOUT_NS {
        Ok((deadline - now) as u64)
    } else {
        Ok(CONTROL_COMMAND_TIMEOUT_NS)
    }
}

pub fn controlled_open_command_timeout(profile: SessionProfile, deadline: u64, now: u64) -> (r:
    Result<u64, ActiveFailure>)
    ensures
        match r {
            Ok(timeout) => open_timeout(profile, deadline, now) == Ok::<u64, ActiveFailureView>(
                timeout,
            ),
            Err(failure) => open_timeout(profile, deadline, now) == Err::<u64, ActiveFailureView>(
                failure@,
            ),
        },
{
    if now >= deadline {
        return Err(controlled_open_timeout_failure(profile));
    }
    let remaining = deadline - now;
    Ok(
        if remaining < CONTROL_COMMAND_TIMEOUT_NS {
            remaining
        } else {
            CONTROL_COMMAND_TIMEOUT_NS
        },
    )
}

/// How long a command of an operation may take.
pub open spec fn command_timeout(operation: ActiveOperation, now: u64) -> Result<
    u64,
    ActiveFailureView,
> {
    match open_authority(operation) {
        Some((profile, deadline)) => open_timeout(profile, deadline, now),
        None => Ok(CONTROL_COMMAND_TIMEOUT_NS),
    }
}

pub fn active_control_command_timeout(operation: &ActiveOperation, now: u64) -> (r: Result<
    u64,
    ActiveFailure,
>)
    ensures
        match r {
            Ok(timeout) => command_timeout(*operation, now) == Ok::<u64, ActiveFailureView>(
                timeout,
            ),
            Err(failure) => command_timeout(*operation, now) == Err::<u64, ActiveFailureView>(
                failure@,
            ),
        },
{
    match operation.controlled_open_wall_authority() {
        Some((profile, deadline)) => controlled_open_command_timeout(profile, deadline, now),
        None => Ok(CONTROL_COMMAND_TIMEOUT_NS),
    }
}

/// The wait that begins now. It counts wakes from before the control turn that led to it, so that a
/// wake which came during that turn is not lost.
pub open spec fn host_wait(
    active: ActiveRequest,
    fallback: u64,
    started_at: u64,
    deadline: Option<u64>,
) -> SettleHostWait {
    SettleHostWait {
        observed: match active.control_turn_observed {
            Some(observed) => observed,
            None => fallback,
        },
        started_at,
        deadline,
    }
}

impl ActiveRequest {
    pub fn settle_host_wait(
        &mut self,
        fallback: u64,
        started_at: u64,
        deadline: Option<u64>,
    ) -> (wait: SettleHostWait)
        ensures
            wait == host_wait(*old(self), fallback, started_at, deadline),
            *final(self) == (ActiveRequest { control_turn_observed: None, ..*old(self) }),
    {
        let observed = match self.control_turn_observed {
            Some(observed) => observed,
            None => fallback,
        };
        self.control_turn_observed = None;
        SettleHostWait { observed, started_at, deadline }
    }
}

/// A failed request: its response, and what becomes of the session. A failed open leaves no engine; a
/// fail-stop closes the session and ends the shell.
pub open spec fn failed(shell: Shell, active: ActiveRequest, failure: ActiveFailureView) -> (
    Shell,
    ShellStepView,
) {
    let opening = active.operation is ControlledOpen;
    let settled = if opening {
        Shell { engine: None, state: ShellState::Initialized, ..shell }
    } else {
        shell
    };
    let response = method_response(active.request, Err(failure.error), settled.state);
    (
        if failure.fail_stop {
            Shell { engine: None, active: None, state: ShellState::Closed, ..settled }
        } else {
            settled
        },
        ShellStepView::Finish(
            FinishView {
                close_before: opening,
                responses: seq![response],
                close_after: failure.fail_stop,
                exit: if failure.fail_stop {
                    Some("runtime outcome is indeterminate; session was fail-stopped"@)
                } else {
                    None
                },
            },
        ),
    )
}

/// A network failure takes precedence over every other step, except where a request has failed
/// already or still reads the audit trail. While a session is being opened it ends the session.
pub open spec fn preempted(
    active: ActiveRequest,
    transition: TransitionView,
    network: Option<ControlledNetworkSnapshot>,
) -> Option<ActiveFailureView> {
    if transition is Fail || active.operation is Audit {
        None
    } else {
        match network_failure_of(network, active.state_effect) {
            None => None,
            Some(failure) => Some(
                if active.operation is ControlledOpen {
                    ActiveFailureView {
                        error: ProtocolErrorView { fatal: true, ..failure.error },
                        fail_stop: true,
                    }
                } else {
                    failure
                },
            ),
        }
    }
}

/// The earlier of a deadline and the deadline of an open.
pub open spec fn bounded_by_open(operation: ActiveOperation, deadline: u64) -> u64 {
    match open_authority(operation) {
        Some((_, open_deadline)) => if open_deadline < deadline {
            open_deadline
        } else {
            deadline
        },
        None => deadline,
    }
}

/// How long a wait may take at most, and the message where that lies beyond the clock.
pub open spec fn wait_bound(wait: SettleWait) -> (u64, Seq<char>) {
    match wait {
        SettleWait::ForegroundExternalIo { remaining_wall_time_ns } => (
            remaining_wall_time_ns,
            "external-I/O wait deadline overflowed"@,
        ),
        SettleWait::ProducerHandoff { remaining_wall_time_ns } => (
            remaining_wall_time_ns,
            "producer-handoff wait deadline overflowed"@,
        ),
    }
}

/// An operation that begins to wait for the host, or the failure where it cannot.
pub open spec fn waiting_operation(operation: ActiveOperation, wait: SettleHostWait) -> Result<
    ActiveOperation,
    ActiveFailureView,
> {
    match operation {
        ActiveOperation::ControlledOpen(state) => match state.settlement {
            Some(settlement) => Ok(
                ActiveOperation::ControlledOpen(
                    ControlledOpenState {
                        settlement: Some(
                            ControlledOpenSettlement { waiting: Some(wait), ..settlement },
                        ),
                        ..state
                    },
                ),
            ),
            None => Err(
                internal_failure_view(
                    "controlled open entered settlement wait before settlement started"@,
                    "none"@,
                ),
            ),
        },
        ActiveOperation::Settle(state) => Ok(
            ActiveOperation::Settle(SettleState { waiting: Some(wait), ..state }),
        ),
        ActiveOperation::Navigate(state) if state.phase is Settling => Ok(
            ActiveOperation::Navigate(NavigateState { waiting: Some(wait), ..state }),
        ),
        _ => Err(
            internal_failure_view("non-settlement request entered a settlement wait"@, "none"@),
        ),
    }
}

/// A request whose settlement waits for the host.
pub open spec fn waits(shell: Shell, active: ActiveRequest, wait: SettleWait, now: u64) -> (
    Shell,
    ShellStepView,
) {
    let (remaining, overflow) = wait_bound(wait);
    match open_authority(active.operation) {
        Some((profile, deadline)) if now >= deadline => failed(
            shell,
            active,
            open_timeout_view(profile),
        ),
        _ => if now + remaining > u64::MAX {
            failed(
                shell,
                active,
                soft_failure(
                    operation_error(
                        "settlement_deadline_overflow"@,
                        overflow,
                        effect_text(active.state_effect),
                    ),
                ),
            )
        } else {
            let deadline = bounded_by_open(active.operation, (now + remaining) as u64);
            let held = host_wait(active, shell.servo_cursor, now, Some(deadline));
            match waiting_operation(active.operation, held) {
                Ok(operation) => (
                    Shell {
                        active: Some(
                            ActiveRequest { operation, control_turn_observed: None, ..active },
                        ),
                        ..shell
                    },
                    ShellStepView::Keep,
                ),
                Err(failure) => failed(shell, active, failure),
            }
        },
    }
}

/// An open that waits until the engine can be observed.
pub open spec fn waits_for_open(shell: Shell, active: ActiveRequest, now: u64) -> (
    Shell,
    ShellStepView,
) {
    match command_timeout(active.operation, now) {
        Err(failure) => failed(shell, active, failure),
        Ok(_) => match active.operation {
            ActiveOperation::ControlledOpen(state) => (
                Shell {
                    active: Some(
                        ActiveRequest {
                            operation: ActiveOperation::ControlledOpen(
                                ControlledOpenState {
                                    readiness_waiting: Some(
                                        ControlledOpenWait {
                                            observed: shell.servo_cursor,
                                            retry_at: if now + CONTROLLED_OPEN_RETRY_INTERVAL_NS
                                                > u64::MAX {
                                                state.deadline
                                            } else {
                                                (now + CONTROLLED_OPEN_RETRY_INTERVAL_NS) as u64
                                            },
                                        },
                                    ),
                                    ..state
                                },
                            ),
                            ..active
                        },
                    ),
                    ..shell
                },
                ShellStepView::Keep,
            ),
            _ => failed(
                shell,
                active,
                internal_failure_view(
                    "non-open request entered a controlled-open readiness wait"@,
                    "none"@,
                ),
            ),
        },
    }
}

/// A request that observes the session's navigation.
pub open spec fn observes_navigation(
    shell: Shell,
    active: ActiveRequest,
    allow_servo_pump: bool,
    now: u64,
) -> (Shell, ShellStepView) {
    match command_timeout(active.operation, now) {
        Err(failure) => failed(shell, active, failure),
        Ok(timeout_ns) => (
            Shell { active: Some(active), ..shell },
            ShellStepView::SubmitNavigationObservation { timeout_ns, allow_servo_pump },
        ),
    }
}

/// A request whose result is projected, and which so observes the session's navigation. From here on
/// a network failure takes precedence, whatever the request was before.
pub open spec fn projects_session(
    shell: Shell,
    active: ActiveRequest,
    allow_servo_pump: bool,
    network: Option<ControlledNetworkSnapshot>,
    now: u64,
) -> (Shell, ShellStepView) {
    match preempted(
        active,
        TransitionView::SubmitSessionNavigationObservation { allow_servo_pump },
        network,
    ) {
        Some(failure) => failed(shell, active, failure),
        None => observes_navigation(shell, active, allow_servo_pump, now),
    }
}

/// The shell and the host's next step after a transition of the active request.
pub open spec fn applied(
    shell: Shell,
    active: ActiveRequest,
    transition: TransitionView,
    network: Option<ControlledNetworkSnapshot>,
    now: u64,
) -> (Shell, ShellStepView) {
    if let TransitionView::Consult(consultation) = transition {
        (Shell { active: Some(active), ..shell }, ShellStepView::Consult(consultation))
    } else if let Some(failure) = preempted(active, transition, network) {
        failed(shell, active, failure)
    } else {
        match transition {
            TransitionView::Submit(command) => match command_timeout(active.operation, now) {
                Err(failure) => failed(shell, active, failure),
                Ok(timeout_ns) => (
                    Shell { active: Some(active), ..shell },
                    ShellStepView::SubmitControl { command, timeout_ns },
                ),
            },
            TransitionView::SubmitSessionNavigationObservation { allow_servo_pump } =>
            observes_navigation(shell, active, allow_servo_pump, now),
            TransitionView::SubmitSessionNavigation { expected, url } => match command_timeout(
                active.operation,
                now,
            ) {
                Err(failure) => failed(shell, active, failure),
                Ok(timeout_ns) => (
                    Shell { active: Some(active), ..shell },
                    ShellStepView::SubmitNavigation { expected, url, timeout_ns },
                ),
            },
            TransitionView::ProjectSession(state) => projects_session(
                shell,
                ActiveRequest { operation: ActiveOperation::SessionProjection(state), ..active },
                !suppresses_initial_pump(state.kind),
                network,
                now,
            ),
            TransitionView::WaitForControlledOpen => waits_for_open(shell, active, now),
            TransitionView::Wait(wait) => waits(shell, active, wait, now),
            TransitionView::Complete(json) => (
                shell,
                answered(method_response(active.request, Ok(json), shell.state)),
            ),
            TransitionView::RejectStaleStateToken => failed(
                shell,
                active,
                soft_failure(stale_state_token_view()),
            ),
            TransitionView::Fail(failure) => failed(shell, active, failure),
            TransitionView::Consult(consultation) => (
                Shell { active: Some(active), ..shell },
                ShellStepView::Consult(consultation),
            ),
        }
    }
}

/// An operation whose command was submitted no longer waits for the host.
pub open spec fn without_wait(operation: ActiveOperation) -> ActiveOperation {
    match operation {
        ActiveOperation::ControlledOpen(state) => ActiveOperation::ControlledOpen(
            ControlledOpenState {
                settlement: match state.settlement {
                    Some(settlement) => Some(
                        ControlledOpenSettlement { waiting: None, ..settlement },
                    ),
                    None => None,
                },
                ..state
            },
        ),
        ActiveOperation::Settle(state) => ActiveOperation::Settle(
            SettleState { waiting: None, ..state },
        ),
        ActiveOperation::Navigate(state) => ActiveOperation::Navigate(
            NavigateState { waiting: None, ..state },
        ),
        _ => operation,
    }
}

/// The error of a submission that the engine refused: fatal in a session profile.
pub open spec fn submission_error(active: ActiveRequest, error: ProtocolErrorView) ->
    ProtocolErrorView {
    ProtocolErrorView {
        state_effect: effect_text(active.state_effect),
        fatal: error.fatal || selects_session_api(active.profile),
        ..error
    }
}

/// A request whose submission the engine refused.
pub open spec fn submission_refused(
    shell: Shell,
    active: ActiveRequest,
    error: ProtocolErrorView,
    closes_open: bool,
    exit: Seq<char>,
) -> (Shell, ShellStepView) {
    let terminal = selects_session_api(active.profile);
    let opening = closes_open && open_authority(active.operation) is Some;
    let settled = if opening {
        Shell {
            engine: None,
            state: if terminal {
                ShellState::Closed
            } else {
                ShellState::Initialized
            },
            active: None,
            ..shell
        }
    } else {
        Shell { active: None, ..shell }
    };
    let response = method_response(
        active.request,
        Err(submission_error(active, error)),
        settled.state,
    );
    (
        if terminal {
            Shell { engine: None, state: ShellState::Closed, ..settled }
        } else {
            settled
        },
        ShellStepView::Finish(
            FinishView {
                close_before: opening,
                responses: seq![response],
                close_after: terminal,
                exit: if terminal {
                    Some(exit)
                } else {
                    None
                },
            },
        ),
    )
}

/// What the submission of a request says.
pub open spec fn submission_view(submission: Result<(), ProtocolError>) -> Result<
    (),
    ProtocolErrorView,
> {
    match submission {
        Ok(_) => Ok(()),
        Err(error) => Err(error@),
    }
}

/// The shell after a control command was submitted.
pub open spec fn after_control(
    shell: Shell,
    command: DocumentControlCommand,
    observed: u64,
    submission: Result<(), ProtocolErrorView>,
) -> (Shell, ShellStepView) {
    match shell.active {
        None => (shell, ShellStepView::Keep),
        Some(active) => match submission {
            Ok(_) => (
                Shell {
                    active: Some(
                        ActiveRequest {
                            in_flight: Some(command),
                            control_turn_observed: Some(observed),
                            needs_initial_pump: true,
                            operation: without_wait(active.operation),
                            ..active
                        },
                    ),
                    ..shell
                },
                ShellStepView::Keep,
            ),
            Err(error) => submission_refused(
                shell,
                active,
                error,
                true,
                "controlled-session command submission failed terminally"@,
            ),
        },
    }
}

/// The shell after a passive observation was submitted.
pub open spec fn after_observation(
    shell: Shell,
    allow_servo_pump: bool,
    submission: Result<(), ProtocolErrorView>,
) -> (Shell, ShellStepView) {
    match shell.active {
        None => (shell, ShellStepView::Keep),
        Some(active) => match submission {
            Ok(_) => (
                Shell {
                    active: Some(ActiveRequest { needs_initial_pump: allow_servo_pump, ..active }),
                    ..shell
                },
                ShellStepView::Keep,
            ),
            Err(error) => submission_refused(
                shell,
                active,
                error,
                false,
                "session-navigation observation submission failed terminally"@,
            ),
        },
    }
}

/// The shell after a navigation was submitted.
pub open spec fn after_navigation(shell: Shell, submission: Result<(), ProtocolErrorView>) -> (
    Shell,
    ShellStepView,
) {
    match shell.active {
        None => (shell, ShellStepView::Keep),
        Some(active) => match submission {
            Ok(_) => (
                Shell {
                    active: Some(ActiveRequest { needs_initial_pump: true, ..active }),
                    ..shell
                },
                ShellStepView::Keep,
            ),
            Err(error) => (
                Shell { active: None, ..shell },
                answered(
                    method_response(
                        active.request,
                        Err(
                            ProtocolErrorView {
                                state_effect: effect_text(active.state_effect),
                                ..error
                            },
                        ),
                        shell.state,
                    ),
                ),
            ),
        },
    }
}

/// A step that writes one response.
pub(crate) fn finish_with(
    response: Response,
    close_before: bool,
    close_after: bool,
    exit: Option<&'static str>,
) -> (step: ShellStep)
    ensures
        step@ == ShellStepView::Finish(
            FinishView {
                close_before,
                responses: seq![response@],
                close_after,
                exit: match exit {
                    Some(text) => Some(text@),
                    None => None,
                },
            },
        ),
{
    let responses = vec![response];
    assert(responses_view(responses@) =~= seq![response@]);
    ShellStep::Finish(
        Finish {
            close_before,
            responses,
            close_after,
            exit: match exit {
                Some(text) => Some(text.to_owned()),
                None => None,
            },
        },
    )
}

impl Shell {
    /// The shell at its start.
    pub fn new(servo_cursor: u64) -> (shell: Shell)
        ensures
            shell == (Shell {
                state: ShellState::Spawned,
                engine: None,
                servo_cursor,
                active: None,
                profile: None,
                last_navigation_authority: None,
            }),
            shell.well_formed(),
    {
        Shell {
            state: ShellState::Spawned,
            engine: None,
            servo_cursor,
            active: None,
            profile: None,
            last_navigation_authority: None,
        }
    }

    /// The session that a frame names.
    pub fn session_id(&self) -> (id: Option<&'static str>)
        ensures
            match id {
                Some(text) => open_session_id(self.state) == Some(text@),
                None => open_session_id(self.state) is None,
            },
    {
        if self.state == ShellState::Open {
            Some(SESSION_ID)
        } else {
            None
        }
    }

    /// The response to a request.
    pub fn write_method_result(&self, request: Request, result: Result<Value, ProtocolError>) -> (r:
        Response)
        ensures
            r@ == method_response(request, outcome_view(result), self.state),
    {
        let session_id = if same_text(request.method.as_str(), "session.open") {
            if result.is_ok() {
                Some(SESSION_ID)
            } else {
                None
            }
        } else if same_text(request.method.as_str(), "session.close") && result.is_ok() {
            Some(SESSION_ID)
        } else {
            self.session_id()
        };
        Response { request: Some(request), session_id, outcome: result }
    }

    /// Answers a request.
    pub(crate) fn answer(&self, request: Request, result: Result<Value, ProtocolError>) -> (step:
        ShellStep)
        ensures
            step@ == answered(method_response(request, outcome_view(result), self.state)),
    {
        finish_with(self.write_method_result(request, result), false, false, None)
    }

    pub(crate) fn fail_active(&mut self, active: ActiveRequest, failure: ActiveFailure) -> (step:
        ShellStep)
        ensures
            (*final(self), step@) == failed(*old(self), active, failure@),
    {
        let opening = match active.operation {
            ActiveOperation::ControlledOpen(_) => true,
            _ => false,
        };
        if opening {
            self.engine = None;
            self.state = ShellState::Initialized;
        }
        let response = self.write_method_result(active.request, Err(failure.error));
        if failure.fail_stop {
            self.engine = None;
            self.active = None;
            self.state = ShellState::Closed;
            return finish_with(
                response,
                opening,
                true,
                Some("runtime outcome is indeterminate; session was fail-stopped"),
            );
        }
        finish_with(response, opening, false, None)
    }

    fn preempting_failure(
        active: &ActiveRequest,
        transition: &ActiveTransition,
        network: Option<ControlledNetworkSnapshot>,
    ) -> (r: Option<ActiveFailure>)
        ensures
            match r {
                Some(failure) => preempted(*active, transition@, network) == Some(failure@),
                None => preempted(*active, transition@, network) is None,
            },
    {
        if let ActiveTransition::Fail(_) = transition {
            return None;
        }
        if let ActiveOperation::Audit(_) = active.operation {
            return None;
        }
        let snapshot = match network {
            Some(snapshot) => snapshot,
            None => {
                return None;
            },
        };
        match controlled_network_failure(snapshot, active.state_effect) {
            None => None,
            Some(failure) => {
                let mut failure = failure;
                if let ActiveOperation::ControlledOpen(_) = active.operation {
                    failure.error.fatal = true;
                    failure.fail_stop = true;
                }
                Some(failure)
            },
        }
    }

    fn observe_navigation(
        &mut self,
        active: ActiveRequest,
        allow_servo_pump: bool,
        now: u64,
    ) -> (step: ShellStep)
        requires
            old(self).active is None,
        ensures
            (*final(self), step@) == observes_navigation(*old(self), active, allow_servo_pump, now),
    {
        match active_control_command_timeout(&active.operation, now) {
            Err(failure) => self.fail_active(active, failure),
            Ok(timeout_ns) => {
                self.active = Some(active);
                ShellStep::SubmitNavigationObservation { timeout_ns, allow_servo_pump }
            },
        }
    }

    fn wait_for_open(&mut self, active: ActiveRequest, now: u64) -> (step: ShellStep)
        requires
            old(self).active is None,
        ensures
            (*final(self), step@) == waits_for_open(*old(self), active, now),
    {
        if let Err(failure) = active_control_command_timeout(&active.operation, now) {
            return self.fail_active(active, failure);
        }
        let mut active = active;
        let opening = match &mut active.operation {
            ActiveOperation::ControlledOpen(state) => {
                let retry_at = match now.checked_add(CONTROLLED_OPEN_RETRY_INTERVAL_NS) {
                    Some(retry_at) => retry_at,
                    None => state.deadline,
                };
                state.readiness_waiting =
                Some(ControlledOpenWait { observed: self.servo_cursor, retry_at });
                true
            },
            _ => false,
        };
        if !opening {
            return self.fail_active(
                active,
                internal_failure(
                    "non-open request entered a controlled-open readiness wait",
                    "none",
                ),
            );
        }
        self.active = Some(active);
        ShellStep::Keep
    }

    fn begin_wait(operation: &mut ActiveOperation, wait: SettleHostWait) -> (r: Option<
        ActiveFailure,
    >)
        ensures
            match r {
                None => waiting_operation(*old(operation), wait) == Ok::<
                    ActiveOperation,
                    ActiveFailureView,
                >(*final(operation)),
                Some(failure) => waiting_operation(*old(operation), wait) == Err::<
                    ActiveOperation,
                    ActiveFailureView,
                >(failure@) && *final(operation) == *old(operation),
            },
    {
        match operation {
            ActiveOperation::ControlledOpen(state) => match state.settlement {
                Some(settlement) => {
                    state.settlement = Some(
                        ControlledOpenSettlement {
                            cumulative_external_io_wall_time_ns:
                                settlement.cumulative_external_io_wall_time_ns,
                            waiting: Some(wait),
                        },
                    );
                    None
                },
                None => Some(
                    internal_failure(
                        "controlled open entered settlement wait before settlement started",
                        "none",
                    ),
                ),
            },
            ActiveOperation::Settle(state) => {
                state.waiting = Some(wait);
                None
            },
            ActiveOperation::Navigate(state) => {
                let settling = match &state.phase {
                    NavigatePhase::Settling { .. } => true,
                    _ => false,
                };
                if settling {
                    state.waiting = Some(wait);
                    None
                } else {
                    Some(
                        internal_failure(
                            "non-settlement request entered a settlement wait",
                            "none",
                        ),
                    )
                }
            },
            _ => Some(
                internal_failure("non-settlement request entered a settlement wait", "none"),
            ),
        }
    }

    fn wait_for_host(&mut self, active: ActiveRequest, wait: SettleWait, now: u64) -> (step:
        ShellStep)
        requires
            old(self).active is None,
        ensures
            (*final(self), step@) == waits(*old(self), active, wait, now),
    {
        let open_deadline = match active.operation.controlled_open_wall_authority() {
            Some((profile, deadline)) => {
                if now >= deadline {
                    return self.fail_active(active, controlled_open_timeout_failure(profile));
                }
                Some(deadline)
            },
            None => None,
        };
        let (remaining, overflow) = match wait {
            SettleWait::ForegroundExternalIo { remaining_wall_time_ns } => (
                remaining_wall_time_ns,
                "external-I/O wait deadline overflowed",
            ),
            SettleWait::ProducerHandoff { remaining_wall_time_ns } => (
                remaining_wall_time_ns,
                "producer-handoff wait deadline overflowed",
            ),
        };
        let deadline = match now.checked_add(remaining) {
            Some(deadline) => deadline,
            None => {
                let error = ProtocolError::operation(
                    "settlement_deadline_overflow",
                    overflow,
                    active.state_effect.as_protocol_str(),
                );
                return self.fail_active(active, ActiveFailure { error, fail_stop: false });
            },
        };
        let deadline = match open_deadline {
            Some(open_deadline) => if open_deadline < deadline {
                open_deadline
            } else {
                deadline
            },
            None => deadline,
        };
        let mut active = active;
        let held = active.settle_host_wait(self.servo_cursor, now, Some(deadline));
        if let Some(failure) = Shell::begin_wait(&mut active.operation, held) {
            return self.fail_active(active, failure);
        }
        self.active = Some(active);
        ShellStep::Keep
    }

    /// Carries out a transition of the active request, up to the host's next step.
    pub fn apply_active_transition(
        &mut self,
        active: ActiveRequest,
        transition: ActiveTransition,
        network: Option<ControlledNetworkSnapshot>,
        now: u64,
    ) -> (step: ShellStep)
        requires
            old(self).active is None,
        ensures
            (*final(self), step@) == applied(*old(self), active, transition@, network, now),
    {
        if let ActiveTransition::Consult(consultation) = transition {
            self.active = Some(active);
            return ShellStep::Consult(consultation);
        }
        if let Some(failure) = Shell::preempting_failure(&active, &transition, network) {
            return self.fail_active(active, failure);
        }
        match transition {
            ActiveTransition::Submit(command) => match active_control_command_timeout(
                &active.operation,
                now,
            ) {
                Err(failure) => self.fail_active(active, failure),
                Ok(timeout_ns) => {
                    self.active = Some(active);
                    ShellStep::SubmitControl { command, timeout_ns }
                },
            },
            ActiveTransition::SubmitSessionNavigationObservation { allow_servo_pump } =>
            self.observe_navigation(active, allow_servo_pump, now),
            ActiveTransition::SubmitSessionNavigation { expected, url } =>
            match active_control_command_timeout(&active.operation, now) {
                Err(failure) => self.fail_active(active, failure),
                Ok(timeout_ns) => {
                    self.active = Some(active);
                    ShellStep::SubmitNavigation { expected, url, timeout_ns }
                },
            },
            ActiveTransition::ProjectSession(state) => {
                let allow_servo_pump = !session_projection_suppresses_initial_pump(&state.kind);
                let mut active = active;
                active.operation = ActiveOperation::SessionProjection(state);
                let observation = ActiveTransition::SubmitSessionNavigationObservation {
                    allow_servo_pump,
                };
                if let Some(failure) = Shell::preempting_failure(&active, &observation, network) {
                    return self.fail_active(active, failure);
                }
                self.observe_navigation(active, allow_servo_pump, now)
            },
            ActiveTransition::WaitForControlledOpen => self.wait_for_open(active, now),
            ActiveTransition::Wait(wait) => self.wait_for_host(active, wait, now),
            ActiveTransition::Complete(value) => self.answer(active.request, Ok(value)),
            ActiveTransition::RejectStaleStateToken => self.fail_active(
                active,
                ActiveFailure { error: stale_state_token_error(), fail_stop: false },
            ),
            ActiveTransition::Fail(failure) => self.fail_active(active, failure),
            ActiveTransition::Consult(consultation) => {
                self.active = Some(active);
                ShellStep::Consult(consultation)
            },
        }
    }

    fn refuse_submission(
        &mut self,
        active: ActiveRequest,
        error: ProtocolError,
        closes_open: bool,
        exit: &'static str,
    ) -> (step: ShellStep)
        requires
            old(self).active is None,
        ensures
            (*final(self), step@) == submission_refused(
                *old(self),
                active,
                error@,
                closes_open,
                exit@,
            ),
    {
        let mut error = error;
        error.state_effect = active.state_effect.as_protocol_str();
        let terminal = supports_session_api(active.profile);
        if terminal {
            error.fatal = true;
        }
        let opening = closes_open && active.operation.controlled_open_wall_authority().is_some();
        if opening {
            self.engine = None;
            self.state = if terminal {
                ShellState::Closed
            } else {
                ShellState::Initialized
            };
        }
        let response = self.write_method_result(active.request, Err(error));
        if terminal {
            self.engine = None;
            self.state = ShellState::Closed;
            return finish_with(response, opening, true, Some(exit));
        }
        finish_with(response, opening, false, None)
    }

    /// Takes up whether the engine took a control command; `observed` is the engine's wake generation
    /// from right before.
    pub fn control_submitted(
        &mut self,
        command: DocumentControlCommand,
        observed: u64,
        submission: Result<(), ProtocolError>,
    ) -> (step: ShellStep)
        ensures
            (*final(self), step@) == after_control(
                *old(self),
                command,
                observed,
                submission_view(submission),
            ),
    {
        let active = match self.active.take() {
            Some(active) => active,
            None => {
                return ShellStep::Keep;
            },
        };
        if let Err(error) = submission {
            return self.refuse_submission(
                active,
                error,
                true,
                "controlled-session command submission failed terminally",
            );
        }
        let mut active = active;
        active.in_flight = Some(command);
        active.control_turn_observed = Some(observed);
        active.needs_initial_pump = true;
        match &mut active.operation {
            ActiveOperation::ControlledOpen(state) => {
                if let Some(settlement) = state.settlement {
                    state.settlement = Some(
                        ControlledOpenSettlement {
                            cumulative_external_io_wall_time_ns:
                                settlement.cumulative_external_io_wall_time_ns,
                            waiting: None,
                        },
                    );
                }
            },
            ActiveOperation::Settle(state) => {
                state.waiting = None;
            },
            ActiveOperation::Navigate(state) => {
                state.waiting = None;
            },
            _ => {},
        }
        self.active = Some(active);
        ShellStep::Keep
    }

    /// Takes up whether the engine took a passive observation.
    pub fn navigation_observation_submitted(
        &mut self,
        allow_servo_pump: bool,
        submission: Result<(), ProtocolError>,
    ) -> (step: ShellStep)
        ensures
            (*final(self), step@) == after_observation(
                *old(self),
                allow_servo_pump,
                submission_view(submission),
            ),
    {
        let active = match self.active.take() {
            Some(active) => active,
            None => {
                return ShellStep::Keep;
            },
        };
        if let Err(error) = submission {
            return self.refuse_submission(
                active,
                error,
                false,
                "session-navigation observation submission failed terminally",
            );
        }
        let mut active = active;
        active.needs_initial_pump = allow_servo_pump;
        self.active = Some(active);
        ShellStep::Keep
    }

    /// Takes up whether the engine took a navigation.
    pub fn navigation_submitted(&mut self, submission: Result<(), ProtocolError>) -> (step:
        ShellStep)
        ensures
            (*final(self), step@) == after_navigation(*old(self), submission_view(submission)),
    {
        let active = match self.active.take() {
            Some(active) => active,
            None => {
                return ShellStep::Keep;
            },
        };
        let mut active = active;
        if let Err(error) = submission {
            let mut error = error;
            error.state_effect = active.state_effect.as_protocol_str();
            return self.answer(active.request, Err(error));
        }
        active.needs_initial_pump = true;
        self.active = Some(active);
        ShellStep::Keep
    }
}

} // verus!
