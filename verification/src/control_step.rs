//! What happens to the active request when a document-control command has completed.

use serde_json::Value;
use std::sync::Arc;
use vstd::prelude::*;

use crate::active::{
    automation_mutates, public_automation_is_mutating, ActiveFailure, ActiveOperation,
    ActiveRequest, ActiveTransition, AdvanceToNextState, Answers, AuditState, AutomationState,
    CompletedAutomation, Consultation, ControlledOpenState, NavigatePhase, NavigateState,
    SessionProjectionKind, SessionProjectionPhase, SessionProjectionState, SettlePolicy,
    SettleProjectionResume, SettleReplacementPhase, SettleResponse, SettleState, TransitionView,
    UnresolvedAutomationParams,
};
use crate::authority::{
    is_sole_active_document, same_target, sole_active_document, SessionNavigationAuthority,
};
use crate::control::{
    CurrentDocumentStateAuthority, DocumentControlAction, DocumentControlCommand,
    DocumentControlError, DocumentControlObservation, DocumentControlOutcome,
    DocumentControlReceiveOutcome, PendingSnapshot, ProjectionError, SessionAutomationBindError,
    SettleProgress,
};
use crate::error::{operation_error, ProtocolError};
use crate::failure::{
    activation_failure_view, authorization_failure_view, automation_or_failure,
    completed_automation, completed_observation, document_authority_authorization_failure,
    harden_continuation_failure, hardened, internal_failure, internal_failure_view,
    internal_transition, missing_authority_view, missing_navigation_authority,
    navigation_activation_failure, observation_or_failure, projection_shape_failure, settle_failure,
    settle_failure_for_response, settle_failure_for_response_view, settle_failure_view,
    soft_failure, stale_state_token, stale_state_token_view,
};
use crate::json::{members_json, object_json, text_value, value_of, JsonView, NewValue};
use crate::profile::{
    blocks_document_replacement, controlled_network_blocks_document_replacement,
    controlled_network_blocks_virtual_advance, effect_text, profile_id, selects_session_api,
    session_api, supports_session_api, RequestStateEffect, SessionProfile, SESSION_ID,
};
use crate::settle::{
    allows_rearm, drift_restart, navigate_progress, open_progress,
    project_session_value_with_resume, projection_resume_of, restart_session_projection_after_drift,
    serialize_result, serialized, session_projection_allows_replacement_rearm,
    session_projection_settle_resume, session_value, set_projection_authority, settle_progress,
    transition_from_controlled_open_settle_progress, transition_from_navigate_settle_progress,
    transition_from_settle_progress_for_active, with_resume_authority,
};
use crate::text::joined;

verus! {

/// Why a command was rejected, if it was.
pub open spec fn rejection_of(outcome: DocumentControlReceiveOutcome) -> Option<
    DocumentControlError,
> {
    match outcome {
        DocumentControlReceiveOutcome::CommandOutcome {
            outcome: DocumentControlOutcome::Rejected { error, .. },
            ..
        } => Some(error),
        _ => None,
    }
}

fn rejection(outcome: &DocumentControlReceiveOutcome) -> (r: Option<DocumentControlError>)
    ensures
        r == rejection_of(*outcome),
{
    match outcome {
        DocumentControlReceiveOutcome::CommandOutcome { outcome, .. } => match outcome {
            DocumentControlOutcome::Rejected { error, .. } => Some(*error),
            _ => None,
        },
        _ => None,
    }
}

/// Whether an outcome belongs to the command that it came back for.
pub open spec fn outcome_is_valid(outcome: DocumentControlReceiveOutcome) -> bool {
    outcome matches DocumentControlReceiveOutcome::CommandOutcome { fault: None, .. }
}

fn is_valid_outcome(outcome: &DocumentControlReceiveOutcome) -> (r: bool)
    ensures
        r == outcome_is_valid(*outcome),
{
    match outcome {
        DocumentControlReceiveOutcome::CommandOutcome { fault, .. } => fault.is_none(),
        _ => false,
    }
}

/// The passive observation that follows an owner sequence, with no engine work in between.
pub open spec fn passive_observation() -> TransitionView {
    TransitionView::SubmitSessionNavigationObservation { allow_servo_pump: false }
}

fn observe_passively() -> (transition: ActiveTransition)
    ensures
        transition@ == passive_observation(),
{
    ActiveTransition::SubmitSessionNavigationObservation { allow_servo_pump: false }
}

/// The result of a controlled open.
pub open spec fn open_result(
    requested_url: Seq<char>,
    url: Seq<char>,
    profile: SessionProfile,
) -> JsonView {
    object_json(
        seq![
            ("sessionId"@, JsonView::Text(SESSION_ID@)),
            ("requestedUrl"@, JsonView::Text(requested_url)),
            ("url"@, JsonView::Text(url)),
            ("boundary"@, JsonView::Text("controlled_ready"@)),
            ("clockMode"@, JsonView::Text("controlled"@)),
            ("profile"@, JsonView::Text(profile_id(profile))),
        ],
    )
}

fn open_result_value(requested_url: &str, url: &str, profile: SessionProfile) -> (value: Value)
    ensures
        crate::json::value_json(value) == open_result(requested_url@, url@, profile),
{
    let members = vec![
        ("sessionId".to_owned(), text_value(SESSION_ID)),
        ("requestedUrl".to_owned(), text_value(requested_url)),
        ("url".to_owned(), text_value(url)),
        ("boundary".to_owned(), text_value("controlled_ready")),
        ("clockMode".to_owned(), text_value("controlled")),
        ("profile".to_owned(), text_value(profile.id())),
    ];
    assert(members_json(members@) =~= seq![
        ("sessionId"@, JsonView::Text(SESSION_ID@)),
        ("requestedUrl"@, JsonView::Text(requested_url@)),
        ("url"@, JsonView::Text(url@)),
        ("boundary"@, JsonView::Text("controlled_ready"@)),
        ("clockMode"@, JsonView::Text("controlled"@)),
        ("profile"@, JsonView::Text(profile_id(profile))),
    ]);
    value_of(NewValue::Object(members))
}

/// The settlement that follows the first observation of a controlled session.
pub open spec fn opened_settle(
    state: ControlledOpenState,
    observation: Arc<DocumentControlObservation>,
    command: DocumentControlCommand,
) -> SettleState {
    SettleState {
        profile: state.profile,
        authorizing_document_state: None,
        authorizing_observation: None,
        authorizing_navigation: None,
        replacement: None,
        authority_bound_command: Some(command),
        latest_pending_target: Some(observation.pending.target),
        response: SettleResponse::ControlledOpen {
            requested_url: state.requested_url,
            current_url: state.current_url,
            profile: state.profile,
            deadline: state.deadline,
            bootstrap_attempted: state.bootstrap_attempted,
        },
        effective_policy: SettlePolicy::ProductDefault,
        cumulative_external_io_wall_time_ns: 0,
        waiting: None,
    }
}

/// A controlled open whose document has answered: a plain document is ready, a session settles
/// first.
pub open spec fn open_observed(
    state: ControlledOpenState,
    observation: Arc<DocumentControlObservation>,
    effect: RequestStateEffect,
    answers: Answers,
) -> (ControlledOpenState, Option<ActiveOperation>, TransitionView) {
    if !session_api(state.profile) {
        (
            state,
            None,
            TransitionView::Complete(
                open_result(state.requested_url@, state.current_url@, state.profile),
            ),
        )
    } else {
        match answers.progress {
            None => (
                state,
                None,
                TransitionView::Consult(
                    Consultation::StartSettlement { policy: SettlePolicy::ProductDefault },
                ),
            ),
            Some(Ok(SettleProgress::Command(command))) => (
                state,
                Some(ActiveOperation::Settle(opened_settle(state, observation, command))),
                passive_observation(),
            ),
            Some(Ok(_)) => (
                state,
                None,
                internal_transition(
                    "controlled open settlement did not request its initial observation"@,
                    effect,
                ),
            ),
            Some(Err(error)) => (
                state,
                None,
                TransitionView::Fail(hardened(settle_failure_view(error, effect, None), effect)),
            ),
        }
    }
}

fn controlled_open_observed(
    state: &ControlledOpenState,
    observation: &Arc<DocumentControlObservation>,
    effect: RequestStateEffect,
    answers: &Answers,
) -> (r: (Option<ActiveOperation>, ActiveTransition))
    ensures
        (*state, r.0, r.1@) == open_observed(*state, *observation, effect, *answers),
{
    if !state.profile.supports_session_api() {
        return (
            None,
            ActiveTransition::Complete(
                open_result_value(
                    state.requested_url.as_str(),
                    state.current_url.as_str(),
                    state.profile,
                ),
            ),
        );
    }
    match &answers.progress {
        None => (
            None,
            ActiveTransition::Consult(
                Consultation::StartSettlement { policy: SettlePolicy::ProductDefault },
            ),
        ),
        Some(Err(error)) => (
            None,
            ActiveTransition::Fail(
                harden_continuation_failure(settle_failure(error, effect, None), effect),
            ),
        ),
        Some(Ok(progress)) => match progress {
            SettleProgress::Command(command) => (
                Some(
                    ActiveOperation::Settle(
                        SettleState {
                            profile: state.profile,
                            authorizing_document_state: None,
                            authorizing_observation: None,
                            authorizing_navigation: None,
                            replacement: None,
                            authority_bound_command: Some(*command),
                            latest_pending_target: Some(observation.pending.target.clone()),
                            response: SettleResponse::ControlledOpen {
                                requested_url: state.requested_url.clone(),
                                current_url: state.current_url.clone(),
                                profile: state.profile,
                                deadline: state.deadline,
                                bootstrap_attempted: state.bootstrap_attempted,
                            },
                            effective_policy: SettlePolicy::ProductDefault,
                            cumulative_external_io_wall_time_ns: 0,
                            waiting: None,
                        },
                    ),
                ),
                observe_passively(),
            ),
            _ => (
                None,
                projection_shape_failure(
                    "controlled open settlement did not request its initial observation",
                    effect,
                ),
            ),
        },
    }
}

/// A controlled open after a control command.
pub open spec fn open_control(
    state: ControlledOpenState,
    command: DocumentControlCommand,
    outcome: Arc<DocumentControlReceiveOutcome>,
    effect: RequestStateEffect,
    network_active: bool,
    answers: Answers,
) -> (ControlledOpenState, Option<ActiveOperation>, TransitionView) {
    if let Some(settlement) = state.settlement {
        (
            state,
            None,
            match answers.progress {
                None => TransitionView::Consult(
                    Consultation::ConsumeOutcome {
                        outcome,
                        cumulative_wall_time_ns: settlement.cumulative_external_io_wall_time_ns,
                        external_io_active: network_active,
                    },
                ),
                Some(Ok(progress)) => open_progress(state, progress, effect),
                Some(Err(error)) => TransitionView::Fail(
                    settle_failure_view(error, effect, Some(command)),
                ),
            },
        )
    } else if command == DocumentControlCommand::Observe {
        match rejection_of(*outcome) {
            Some(DocumentControlError::EventLoopUnavailable) => (
                state,
                None,
                TransitionView::WaitForControlledOpen,
            ),
            Some(DocumentControlError::InitialPipelineBootstrapRequired { pipeline_id }) =>
            if state.bootstrap_attempted {
                (
                    state,
                    None,
                    internal_transition(
                        "controlled open requested more than one initial pipeline bootstrap"@,
                        effect,
                    ),
                )
            } else {
                (
                    ControlledOpenState { bootstrap_attempted: true, ..state },
                    None,
                    TransitionView::Submit(
                        DocumentControlCommand::BootstrapInitialPipeline { pipeline_id },
                    ),
                )
            },
            _ => match observation_or_failure(*outcome, command, effect) {
                Err(failure) => (state, None, TransitionView::Fail(failure)),
                Ok(observation) => open_observed(state, observation, effect, answers),
            },
        }
    } else if command is BootstrapInitialPipeline && state.bootstrap_attempted {
        match observation_or_failure(*outcome, command, effect) {
            Err(failure) => (state, None, TransitionView::Fail(failure)),
            Ok(observation) => if observation.action == DocumentControlAction::TurnProcessed {
                open_observed(state, observation, effect, answers)
            } else {
                (
                    state,
                    None,
                    internal_transition(
                        "initial pipeline bootstrap did not process its exact lifecycle event"@,
                        effect,
                    ),
                )
            },
        }
    } else {
        (
            state,
            None,
            internal_transition("controlled-open readiness used an unauthorized command"@, effect),
        )
    }
}

fn controlled_open_control(
    state: &mut ControlledOpenState,
    command: DocumentControlCommand,
    outcome: &Arc<DocumentControlReceiveOutcome>,
    effect: RequestStateEffect,
    network_active: bool,
    answers: &Answers,
) -> (r: (Option<ActiveOperation>, ActiveTransition))
    ensures
        (*final(state), r.0, r.1@) == open_control(
            *old(state),
            command,
            *outcome,
            effect,
            network_active,
            *answers,
        ),
{
    if let Some(settlement) = state.settlement {
        return match &answers.progress {
            None => (
                None,
                ActiveTransition::Consult(
                    Consultation::ConsumeOutcome {
                        outcome: outcome.clone(),
                        cumulative_wall_time_ns: settlement.cumulative_external_io_wall_time_ns,
                        external_io_active: network_active,
                    },
                ),
            ),
            Some(Ok(progress)) => (
                None,
                transition_from_controlled_open_settle_progress(state, progress, effect),
            ),
            Some(Err(error)) => (
                None,
                ActiveTransition::Fail(settle_failure(error, effect, Some(command))),
            ),
        };
    }
    let bootstrapping = match command {
        DocumentControlCommand::BootstrapInitialPipeline { .. } => state.bootstrap_attempted,
        _ => false,
    };
    if command == DocumentControlCommand::Observe {
        match rejection(outcome) {
            Some(DocumentControlError::EventLoopUnavailable) => {
                return (None, ActiveTransition::WaitForControlledOpen);
            },
            Some(DocumentControlError::InitialPipelineBootstrapRequired { pipeline_id }) => {
                if state.bootstrap_attempted {
                    return (
                        None,
                        projection_shape_failure(
                            "controlled open requested more than one initial pipeline bootstrap",
                            effect,
                        ),
                    );
                }
                state.bootstrap_attempted = true;
                return (
                    None,
                    ActiveTransition::Submit(
                        DocumentControlCommand::BootstrapInitialPipeline { pipeline_id },
                    ),
                );
            },
            _ => {},
        }
        match completed_observation(outcome, &command, effect) {
            Ok(observation) => controlled_open_observed(state, &observation, effect, answers),
            Err(failure) => (None, ActiveTransition::Fail(failure)),
        }
    } else if bootstrapping {
        match completed_observation(outcome, &command, effect) {
            Ok(observation) => {
                if observation.action != DocumentControlAction::TurnProcessed {
                    return (
                        None,
                        projection_shape_failure(
                            "initial pipeline bootstrap did not process its exact lifecycle event",
                            effect,
                        ),
                    );
                }
                controlled_open_observed(state, &observation, effect, answers)
            },
            Err(failure) => (None, ActiveTransition::Fail(failure)),
        }
    } else {
        (
            None,
            projection_shape_failure(
                "controlled-open readiness used an unauthorized command",
                effect,
            ),
        )
    }
}

/// What a projection of pending work goes back to.
pub open spec fn pending_resume(profile: SessionProfile) -> SettleProjectionResume {
    SettleProjectionResume {
        profile,
        effective_policy: SettlePolicy::ProductDefault,
        cumulative_external_io_wall_time_ns: 0,
        authorizing_navigation: None,
        response: SettleResponse::Pending,
    }
}

/// `runtime.pending` after its observation.
pub open spec fn pending_control(
    profile: Option<SessionProfile>,
    command: DocumentControlCommand,
    outcome: DocumentControlReceiveOutcome,
    effect: RequestStateEffect,
    answers: Answers,
) -> TransitionView {
    match observation_or_failure(outcome, command, effect) {
        Err(failure) => TransitionView::Fail(failure),
        Ok(observation) => match answers.projected {
            None => TransitionView::Consult(
                Consultation::ProjectPending { pending: observation.pending },
            ),
            Some(projected) => if selects_session_api(profile) {
                session_value(
                    projected,
                    observation.pending,
                    false,
                    effect,
                    Some(pending_resume(profile->0)),
                )
            } else {
                serialized(projected, effect)
            },
        },
    }
}

/// The bracketed projection of pending work.
pub fn project_session_pending(
    profile: SessionProfile,
    projected: &Result<Arc<Value>, ProjectionError>,
    pending: &Arc<PendingSnapshot>,
    state_effect: RequestStateEffect,
) -> (transition: ActiveTransition)
    ensures
        transition@ == session_value(
            *projected,
            *pending,
            false,
            state_effect,
            Some(pending_resume(profile)),
        ),
{
    project_session_value_with_resume(
        projected,
        pending,
        false,
        state_effect,
        Some(
            SettleProjectionResume {
                profile,
                effective_policy: SettlePolicy::ProductDefault,
                cumulative_external_io_wall_time_ns: 0,
                authorizing_navigation: None,
                response: SettleResponse::Pending,
            },
        ),
    )
}

fn pending_completion(
    profile: Option<SessionProfile>,
    command: DocumentControlCommand,
    outcome: &DocumentControlReceiveOutcome,
    effect: RequestStateEffect,
    answers: &Answers,
) -> (transition: ActiveTransition)
    ensures
        transition@ == pending_control(profile, command, *outcome, effect, *answers),
{
    let observation = match completed_observation(outcome, &command, effect) {
        Ok(observation) => observation,
        Err(failure) => {
            return ActiveTransition::Fail(failure);
        },
    };
    match &answers.projected {
        None => ActiveTransition::Consult(
            Consultation::ProjectPending { pending: observation.pending.clone() },
        ),
        Some(projected) => match profile {
            Some(profile) if profile.supports_session_api() => project_session_pending(
                profile,
                projected,
                &observation.pending,
                effect,
            ),
            _ => serialize_result(projected, effect),
        },
    }
}

/// The projection of an advance of virtual time.
pub open spec fn advance_projection(
    profile: Option<SessionProfile>,
    from_virtual_time_ns: Option<u128>,
    pending: Arc<PendingSnapshot>,
    effect: RequestStateEffect,
    answers: Answers,
) -> TransitionView {
    match answers.projected {
        None => TransitionView::Consult(
            Consultation::ProjectAdvance { from_virtual_time_ns, pending },
        ),
        Some(projected) => if selects_session_api(profile) {
            session_value(projected, pending, true, effect, None)
        } else {
            serialized(projected, effect)
        },
    }
}

fn project_advance(
    profile: Option<SessionProfile>,
    from_virtual_time_ns: Option<u128>,
    pending: &Arc<PendingSnapshot>,
    effect: RequestStateEffect,
    answers: &Answers,
) -> (transition: ActiveTransition)
    ensures
        transition@ == advance_projection(
            profile,
            from_virtual_time_ns,
            *pending,
            effect,
            *answers,
        ),
{
    match &answers.projected {
        None => ActiveTransition::Consult(
            Consultation::ProjectAdvance { from_virtual_time_ns, pending: pending.clone() },
        ),
        Some(projected) => if supports_session_api(profile) {
            project_session_value_with_resume(projected, pending, true, effect, None)
        } else {
            serialize_result(projected, effect)
        },
    }
}

/// Whether a document state may be used under a token; otherwise the step that asks or fails.
pub open spec fn authorization(
    pending: Arc<PendingSnapshot>,
    navigation: Arc<SessionNavigationAuthority>,
    token: String,
    answers: Answers,
) -> Option<TransitionView> {
    match answers.authorized {
        None => Some(
            TransitionView::Consult(
                Consultation::AuthorizeDocumentState { pending, navigation, token },
            ),
        ),
        Some(Ok(true)) => None,
        Some(Ok(false)) => Some(TransitionView::Fail(soft_failure(stale_state_token_view()))),
        Some(Err(error)) => Some(authorization_failure_view(error)),
    }
}

fn authorize(
    pending: &Arc<PendingSnapshot>,
    navigation: &Arc<SessionNavigationAuthority>,
    token: &String,
    answers: &Answers,
) -> (r: Option<ActiveTransition>)
    ensures
        match r {
            None => authorization(*pending, *navigation, *token, *answers) is None,
            Some(transition) => authorization(*pending, *navigation, *token, *answers) == Some(
                transition@,
            ),
        },
{
    match &answers.authorized {
        None => Some(
            ActiveTransition::Consult(
                Consultation::AuthorizeDocumentState {
                    pending: pending.clone(),
                    navigation: navigation.clone(),
                    token: token.clone(),
                },
            ),
        ),
        Some(Ok(authorized)) => if *authorized {
            None
        } else {
            Some(stale_state_token())
        },
        Some(Err(error)) => Some(document_authority_authorization_failure(*error)),
    }
}

/// Whether an advance may use the observed document state; otherwise the step that asks or fails.
pub open spec fn advance_gate(
    expected_state_token: Option<String>,
    navigation: Option<Arc<SessionNavigationAuthority>>,
    pending: Arc<PendingSnapshot>,
    answers: Answers,
) -> Option<TransitionView> {
    match expected_state_token {
        None => None,
        Some(token) => match navigation {
            None => Some(missing_authority_view("runtime.advance_to_next"@)),
            Some(navigation) => authorization(pending, navigation, token, answers),
        },
    }
}

/// `runtime.advance_to_next` after its observation.
pub open spec fn advance_observed(
    state: AdvanceToNextState,
    profile: Option<SessionProfile>,
    observation: Arc<DocumentControlObservation>,
    effect: RequestStateEffect,
    network_operations: usize,
    answers: Answers,
) -> (AdvanceToNextState, TransitionView) {
    if selects_session_api(profile) && network_operations != 0 {
        (
            state,
            TransitionView::Fail(
                soft_failure(
                    operation_error(
                        "advance_not_available"@,
                        "virtual time is frozen while controlled network operations are active"@,
                        "none"@,
                    ),
                ),
            ),
        )
    } else if !observation.pending.has_next_deadline {
        (state, advance_projection(profile, None, observation.pending, effect, answers))
    } else {
        match observation.advance_token {
            None => (
                state,
                TransitionView::Fail(
                    soft_failure(
                        operation_error(
                            "advance_not_available"@,
                            "the finite scheduler head is not currently safe to advance"@,
                            effect_text(effect),
                        ),
                    ),
                ),
            ),
            Some(token) => (
                AdvanceToNextState::Advancing { from_virtual_time_ns: observation.pending.now_ns },
                TransitionView::Submit(DocumentControlCommand::AdvanceTo(token)),
            ),
        }
    }
}

/// `runtime.advance_to_next` after a control command.
pub open spec fn advance_control(
    state: AdvanceToNextState,
    profile: Option<SessionProfile>,
    command: DocumentControlCommand,
    outcome: DocumentControlReceiveOutcome,
    effect: RequestStateEffect,
    network_operations: usize,
    answers: Answers,
) -> (AdvanceToNextState, TransitionView) {
    match observation_or_failure(outcome, command, effect) {
        Err(failure) => (state, TransitionView::Fail(failure)),
        Ok(observation) => match state {
            AdvanceToNextState::Observing { expected_state_token, navigation } =>
            match advance_gate(expected_state_token, navigation, observation.pending, answers) {
                Some(transition) => (state, transition),
                None => advance_observed(
                    state,
                    profile,
                    observation,
                    effect,
                    network_operations,
                    answers,
                ),
            },
            AdvanceToNextState::Advancing { from_virtual_time_ns } => (
                state,
                advance_projection(
                    profile,
                    Some(from_virtual_time_ns),
                    observation.pending,
                    effect,
                    answers,
                ),
            ),
        },
    }
}

fn advance_completion(
    state: &mut AdvanceToNextState,
    profile: Option<SessionProfile>,
    command: DocumentControlCommand,
    outcome: &DocumentControlReceiveOutcome,
    effect: RequestStateEffect,
    network_operations: usize,
    answers: &Answers,
) -> (transition: ActiveTransition)
    ensures
        (*final(state), transition@) == advance_control(
            *old(state),
            profile,
            command,
            *outcome,
            effect,
            network_operations,
            *answers,
        ),
{
    let observation = match completed_observation(outcome, &command, effect) {
        Ok(observation) => observation,
        Err(failure) => {
            return ActiveTransition::Fail(failure);
        },
    };
    let advancing = match &*state {
        AdvanceToNextState::Observing { expected_state_token, navigation } => {
            if let Some(token) = expected_state_token {
                let navigation = match navigation {
                    Some(navigation) => navigation,
                    None => {
                        return missing_navigation_authority("runtime.advance_to_next");
                    },
                };
                if let Some(transition) = authorize(
                    &observation.pending,
                    navigation,
                    token,
                    answers,
                ) {
                    return transition;
                }
            }
            if controlled_network_blocks_virtual_advance(profile, network_operations) {
                return ActiveTransition::Fail(
                    ActiveFailure {
                        error: ProtocolError::operation(
                            "advance_not_available",
                            "virtual time is frozen while controlled network operations are active",
                            "none",
                        ),
                        fail_stop: false,
                    },
                );
            }
            if !observation.pending.has_next_deadline {
                return project_advance(profile, None, &observation.pending, effect, answers);
            }
            match observation.advance_token {
                Some(token) => token,
                None => {
                    return ActiveTransition::Fail(
                        ActiveFailure {
                            error: ProtocolError::operation(
                                "advance_not_available",
                                "the finite scheduler head is not currently safe to advance",
                                effect.as_protocol_str(),
                            ),
                            fail_stop: false,
                        },
                    );
                },
            }
        },
        AdvanceToNextState::Advancing { from_virtual_time_ns } => {
            return project_advance(
                profile,
                Some(*from_virtual_time_ns),
                &observation.pending,
                effect,
                answers,
            );
        },
    };
    *state = AdvanceToNextState::Advancing { from_virtual_time_ns: observation.pending.now_ns };
    ActiveTransition::Submit(DocumentControlCommand::AdvanceTo(advancing))
}

/// What follows the attempt to bind automation parameters.
pub open spec fn bind_result(
    bound: Result<crate::control::BoundAutomation, SessionAutomationBindError>,
    effect: RequestStateEffect,
) -> TransitionView {
    match bound {
        Ok(request) => TransitionView::Submit(DocumentControlCommand::Automate(request)),
        Err(SessionAutomationBindError::StaleStateToken) => TransitionView::Fail(
            soft_failure(stale_state_token_view()),
        ),
        Err(SessionAutomationBindError::Authority(error)) => authorization_failure_view(error),
        Err(SessionAutomationBindError::InvalidRequest) => internal_transition(
            "validated automation data could not be bound to fresh target authority"@,
            effect,
        ),
    }
}

/// An automation request whose parameters are bound to the observed document.
pub open spec fn automation_binding(
    state: AutomationState,
    params: UnresolvedAutomationParams,
    command: DocumentControlCommand,
    outcome: DocumentControlReceiveOutcome,
    effect: RequestStateEffect,
    answers: Answers,
) -> (AutomationState, TransitionView) {
    let consumed = AutomationState { unresolved: None, ..state };
    if command != DocumentControlCommand::Observe {
        (
            consumed,
            internal_transition(
                "automation target binding did not use a fresh observation"@,
                effect,
            ),
        )
    } else {
        match observation_or_failure(outcome, command, effect) {
            Err(failure) => (consumed, TransitionView::Fail(failure)),
            Ok(observation) => if params is Session && state.authorizing_navigation is None {
                (consumed, missing_authority_view("session automation"@))
            } else {
                match answers.bound {
                    None => (
                        state,
                        TransitionView::Consult(
                            Consultation::BindAutomation {
                                params,
                                pending: observation.pending,
                                navigation: if params is Session {
                                    state.authorizing_navigation
                                } else {
                                    None
                                },
                            },
                        ),
                    ),
                    Some(bound) => (consumed, bind_result(bound, effect)),
                }
            },
        }
    }
}

/// An automation request whose command has completed.
pub open spec fn automation_finished(
    state: AutomationState,
    command: DocumentControlCommand,
    outcome: DocumentControlReceiveOutcome,
    effect: RequestStateEffect,
    answers: Answers,
) -> (AutomationState, TransitionView) {
    match automation_or_failure(outcome, command, effect) {
        Err(failure) => (state, TransitionView::Fail(failure)),
        Ok((result, observation, synchronous_navigation_emitted)) => if session_api(state.profile)
            && automation_mutates(state.kind) {
            if state.completed is Some {
                (
                    state,
                    internal_transition(
                        "a completed automation result was consumed more than once"@,
                        effect,
                    ),
                )
            } else {
                (
                    AutomationState {
                        completed: Some(
                            CompletedAutomation {
                                result,
                                pending: observation.pending,
                                synchronous_navigation_emitted,
                            },
                        ),
                        ..state
                    },
                    passive_observation(),
                )
            }
        } else {
            (
                state,
                match answers.projected {
                    None => TransitionView::Consult(
                        Consultation::ProjectAutomation {
                            kind: state.kind,
                            result,
                            pending: observation.pending,
                        },
                    ),
                    Some(Err(ProjectionError::Project(text))) => internal_transition(
                        "failed to project automation result: "@ + text@,
                        effect,
                    ),
                    Some(projected) => if session_api(state.profile) {
                        session_value(projected, observation.pending, false, effect, None)
                    } else {
                        serialized(projected, effect)
                    },
                },
            )
        },
    }
}

/// An automation request after a control command.
pub open spec fn automation_control(
    state: AutomationState,
    command: DocumentControlCommand,
    outcome: DocumentControlReceiveOutcome,
    effect: RequestStateEffect,
    answers: Answers,
) -> (AutomationState, TransitionView) {
    match state.unresolved {
        Some(params) => automation_binding(state, params, command, outcome, effect, answers),
        None => automation_finished(state, command, outcome, effect, answers),
    }
}

fn automation_bind(
    state: &mut AutomationState,
    params: UnresolvedAutomationParams,
    command: DocumentControlCommand,
    outcome: &DocumentControlReceiveOutcome,
    effect: RequestStateEffect,
    answers: &Answers,
) -> (transition: ActiveTransition)
    requires
        old(state).unresolved == Some(params),
    ensures
        (*final(state), transition@) == automation_binding(
            *old(state),
            params,
            command,
            *outcome,
            effect,
            *answers,
        ),
{
    if command != DocumentControlCommand::Observe {
        state.unresolved = None;
        return projection_shape_failure(
            "automation target binding did not use a fresh observation",
            effect,
        );
    }
    let observation = match completed_observation(outcome, &command, effect) {
        Ok(observation) => observation,
        Err(failure) => {
            state.unresolved = None;
            return ActiveTransition::Fail(failure);
        },
    };
    let navigation = match params {
        UnresolvedAutomationParams::Legacy(_) => None,
        UnresolvedAutomationParams::Session(_) => match &state.authorizing_navigation {
            Some(navigation) => Some(navigation.clone()),
            None => {
                state.unresolved = None;
                return missing_navigation_authority("session automation");
            },
        },
    };
    match &answers.bound {
        None => ActiveTransition::Consult(
            Consultation::BindAutomation {
                params,
                pending: observation.pending.clone(),
                navigation,
            },
        ),
        Some(bound) => {
            state.unresolved = None;
            match bound {
                Ok(request) => ActiveTransition::Submit(
                    DocumentControlCommand::Automate(*request),
                ),
                Err(SessionAutomationBindError::StaleStateToken) => stale_state_token(),
                Err(SessionAutomationBindError::Authority(error)) =>
                document_authority_authorization_failure(*error),
                Err(SessionAutomationBindError::InvalidRequest) => projection_shape_failure(
                    "validated automation data could not be bound to fresh target authority",
                    effect,
                ),
            }
        },
    }
}

fn automation_finish(
    state: &mut AutomationState,
    command: DocumentControlCommand,
    outcome: &DocumentControlReceiveOutcome,
    effect: RequestStateEffect,
    answers: &Answers,
) -> (transition: ActiveTransition)
    ensures
        (*final(state), transition@) == automation_finished(
            *old(state),
            command,
            *outcome,
            effect,
            *answers,
        ),
{
    let (result, observation, synchronous_navigation_emitted) = match completed_automation(
        outcome,
        &command,
        effect,
    ) {
        Ok(completion) => completion,
        Err(failure) => {
            return ActiveTransition::Fail(failure);
        },
    };
    if state.profile.supports_session_api() && public_automation_is_mutating(state.kind) {
        if state.completed.is_some() {
            return projection_shape_failure(
                "a completed automation result was consumed more than once",
                effect,
            );
        }
        state.completed = Some(
            CompletedAutomation {
                result,
                pending: observation.pending.clone(),
                synchronous_navigation_emitted,
            },
        );
        return observe_passively();
    }
    match &answers.projected {
        None => ActiveTransition::Consult(
            Consultation::ProjectAutomation {
                kind: state.kind,
                result,
                pending: observation.pending.clone(),
            },
        ),
        Some(projected) => {
            if let Err(ProjectionError::Project(text)) = projected {
                return projection_shape_failure(
                    joined("failed to project automation result: ", text.as_str()).as_str(),
                    effect,
                );
            }
            if state.profile.supports_session_api() {
                project_session_value_with_resume(
                    projected,
                    &observation.pending,
                    false,
                    effect,
                    None,
                )
            } else {
                serialize_result(projected, effect)
            }
        },
    }
}

/// An audit page after its observation.
pub open spec fn audit_control(
    state: AuditState,
    command: DocumentControlCommand,
    outcome: DocumentControlReceiveOutcome,
    effect: RequestStateEffect,
) -> (AuditState, TransitionView) {
    match observation_or_failure(outcome, command, effect) {
        Err(failure) => (state, TransitionView::Fail(failure)),
        Ok(observation) => match state.value {
            None => (
                state,
                internal_transition("session audit value was consumed more than once"@, effect),
            ),
            Some(value) => (
                AuditState { value: None },
                TransitionView::ProjectSession(
                    SessionProjectionState {
                        pending: observation.pending,
                        kind: SessionProjectionKind::Value {
                            value,
                            snapshot_token: false,
                            settle_resume: None,
                        },
                        phase: SessionProjectionPhase::AwaitingInitialNavigation,
                    },
                ),
            ),
        },
    }
}

fn audit_completion(
    state: &mut AuditState,
    command: DocumentControlCommand,
    outcome: &DocumentControlReceiveOutcome,
    effect: RequestStateEffect,
) -> (transition: ActiveTransition)
    ensures
        (*final(state), transition@) == audit_control(*old(state), command, *outcome, effect),
{
    let observation = match completed_observation(outcome, &command, effect) {
        Ok(observation) => observation,
        Err(failure) => {
            return ActiveTransition::Fail(failure);
        },
    };
    match state.value.take() {
        None => projection_shape_failure("session audit value was consumed more than once", effect),
        Some(value) => ActiveTransition::ProjectSession(
            SessionProjectionState {
                pending: observation.pending.clone(),
                kind: SessionProjectionKind::Value {
                    value,
                    snapshot_token: false,
                    settle_resume: None,
                },
                phase: SessionProjectionPhase::AwaitingInitialNavigation,
            },
        ),
    }
}

/// The rejection of a settlement whose token has become stale, once the token is invalidated for
/// good.
pub open spec fn stale_settle(
    authority: Arc<CurrentDocumentStateAuthority>,
    effect: RequestStateEffect,
    answers: Answers,
) -> TransitionView {
    match answers.latched {
        None => TransitionView::Consult(Consultation::LatchStale { authority }),
        Some(true) => TransitionView::RejectStaleStateToken,
        Some(false) => internal_transition(
            "settlement document authority changed while latching a stale continuation"@,
            effect,
        ),
    }
}

pub fn latch_and_reject_stale_settle_authority(
    authority: &Arc<CurrentDocumentStateAuthority>,
    state_effect: RequestStateEffect,
    answers: &Answers,
) -> (transition: ActiveTransition)
    ensures
        transition@ == stale_settle(*authority, state_effect, *answers),
{
    match answers.latched {
        None => ActiveTransition::Consult(Consultation::LatchStale { authority: authority.clone() }),
        Some(true) => ActiveTransition::RejectStaleStateToken,
        Some(false) => projection_shape_failure(
            "settlement document authority changed while latching a stale continuation",
            state_effect,
        ),
    }
}

/// A settlement that checks its token against a fresh observation.
pub open spec fn settle_authorizing(
    state: SettleState,
    expected: Arc<CurrentDocumentStateAuthority>,
    command: DocumentControlCommand,
    outcome: DocumentControlReceiveOutcome,
    effect: RequestStateEffect,
    answers: Answers,
) -> (SettleState, TransitionView) {
    if state.authorizing_observation is Some {
        (
            state,
            internal_transition(
                "settlement token authorization consumed more than one document observation"@,
                effect,
            ),
        )
    } else if command != DocumentControlCommand::Observe {
        (
            state,
            TransitionView::Fail(
                internal_failure_view(
                    "settlement token authorization did not use a fresh observation"@,
                    "none"@,
                ),
            ),
        )
    } else if outcome_is_valid(outcome) && rejection_of(outcome) is Some && (rejection_of(outcome)->0
        is TargetChanged || rejection_of(outcome)->0 is ReplacementPipelineBootstrapRequired) {
        (state, stale_settle(expected, effect, answers))
    } else {
        match observation_or_failure(outcome, command, effect) {
            Err(failure) => (state, TransitionView::Fail(failure)),
            Ok(observation) => match state.authorizing_navigation {
                None => (state, missing_authority_view("runtime.settle"@)),
                Some(navigation) => match answers.matches_navigation {
                    None => (
                        state,
                        TransitionView::Consult(
                            Consultation::MatchNavigation { authority: expected, navigation },
                        ),
                    ),
                    Some(matches_navigation) => if !matches_navigation
                        || observation.pending.target@ != expected.target@ {
                        (state, stale_settle(expected, effect, answers))
                    } else if observation.pending.state_generation < expected.state_generation {
                        (
                            state,
                            internal_transition(
                                "settlement token authority observed a regressed runtime generation"@,
                                effect,
                            ),
                        )
                    } else {
                        (
                            SettleState { authorizing_observation: Some(observation), ..state },
                            passive_observation(),
                        )
                    },
                },
            },
        }
    }
}

fn settle_authorize(
    state: &mut SettleState,
    expected: &Arc<CurrentDocumentStateAuthority>,
    command: DocumentControlCommand,
    outcome: &DocumentControlReceiveOutcome,
    effect: RequestStateEffect,
    answers: &Answers,
) -> (transition: ActiveTransition)
    ensures
        (*final(state), transition@) == settle_authorizing(
            *old(state),
            *expected,
            command,
            *outcome,
            effect,
            *answers,
        ),
{
    if state.authorizing_observation.is_some() {
        return projection_shape_failure(
            "settlement token authorization consumed more than one document observation",
            effect,
        );
    }
    if command != DocumentControlCommand::Observe {
        return ActiveTransition::Fail(
            internal_failure(
                "settlement token authorization did not use a fresh observation",
                "none",
            ),
        );
    }
    let stale = match rejection(outcome) {
        Some(DocumentControlError::TargetChanged) => true,
        Some(DocumentControlError::ReplacementPipelineBootstrapRequired { .. }) => true,
        _ => false,
    };
    if stale && is_valid_outcome(outcome) {
        return latch_and_reject_stale_settle_authority(expected, effect, answers);
    }
    let observation = match completed_observation(outcome, &command, effect) {
        Ok(observation) => observation,
        Err(failure) => {
            return ActiveTransition::Fail(failure);
        },
    };
    let matches_navigation = match &state.authorizing_navigation {
        None => {
            return missing_navigation_authority("runtime.settle");
        },
        Some(navigation) => match answers.matches_navigation {
            None => {
                return ActiveTransition::Consult(
                    Consultation::MatchNavigation {
                        authority: expected.clone(),
                        navigation: navigation.clone(),
                    },
                );
            },
            Some(matches_navigation) => matches_navigation,
        },
    };
    if !matches_navigation || !same_target(&observation.pending.target, &expected.target) {
        return latch_and_reject_stale_settle_authority(expected, effect, answers);
    }
    if observation.pending.state_generation < expected.state_generation {
        return projection_shape_failure(
            "settlement token authority observed a regressed runtime generation",
            effect,
        );
    }
    state.authorizing_observation = Some(observation);
    observe_passively()
}

/// A settlement after a control command.
pub open spec fn settle_control(
    state: SettleState,
    started_at: u64,
    command: DocumentControlCommand,
    outcome: Arc<DocumentControlReceiveOutcome>,
    effect: RequestStateEffect,
    network_active: bool,
    answers: Answers,
) -> (SettleState, TransitionView) {
    if state.authority_bound_command is Some && command == DocumentControlCommand::Observe {
        match observation_or_failure(*outcome, command, effect) {
            Err(failure) => (state, TransitionView::Fail(hardened(failure, effect))),
            Ok(observation) => (
                SettleState {
                    latest_pending_target: Some(observation.pending.target),
                    ..state
                },
                passive_observation(),
            ),
        }
    } else {
        match state.replacement {
            Some(
                SettleReplacementPhase::Bootstrapping { source, admitted, command: expected },
            ) => if command != expected {
                (
                    SettleState { replacement: None, ..state },
                    internal_transition(
                        "settlement replacement bootstrap completed under a different command"@,
                        effect,
                    ),
                )
            } else {
                (
                    SettleState {
                        replacement: Some(
                            SettleReplacementPhase::AwaitingActivation {
                                source,
                                admitted,
                                command,
                                control_outcome: outcome,
                                controlled_network_active: network_active,
                            },
                        ),
                        ..state
                    },
                    passive_observation(),
                )
            },
            Some(SettleReplacementPhase::Activating { source, admitted }) => (
                SettleState {
                    replacement: Some(
                        SettleReplacementPhase::AwaitingActivation {
                            source,
                            admitted,
                            command,
                            control_outcome: outcome,
                            controlled_network_active: network_active,
                        },
                    ),
                    ..state
                },
                passive_observation(),
            ),
            _ => match state.authorizing_document_state {
                Some(expected) => settle_authorizing(
                    state,
                    expected,
                    command,
                    *outcome,
                    effect,
                    answers,
                ),
                None => match answers.progress {
                    None => (
                        state,
                        TransitionView::Consult(
                            Consultation::ConsumeOutcome {
                                outcome,
                                cumulative_wall_time_ns: state.cumulative_external_io_wall_time_ns,
                                external_io_active: network_active,
                            },
                        ),
                    ),
                    Some(Ok(progress)) => settle_progress(
                        state,
                        started_at,
                        progress,
                        effect,
                        answers,
                    ),
                    Some(Err(error)) => (
                        state,
                        TransitionView::Fail(
                            settle_failure_for_response_view(
                                error,
                                effect,
                                Some(command),
                                state.response,
                            ),
                        ),
                    ),
                },
            },
        }
    }
}

fn settle_completion(
    state: &mut SettleState,
    started_at: u64,
    command: DocumentControlCommand,
    outcome: &Arc<DocumentControlReceiveOutcome>,
    effect: RequestStateEffect,
    network_active: bool,
    answers: &Answers,
) -> (transition: ActiveTransition)
    ensures
        (*final(state), transition@) == settle_control(
            *old(state),
            started_at,
            command,
            *outcome,
            effect,
            network_active,
            *answers,
        ),
{
    if state.authority_bound_command.is_some() && command == DocumentControlCommand::Observe {
        let observation = match completed_observation(outcome, &command, effect) {
            Ok(observation) => observation,
            Err(failure) => {
                return ActiveTransition::Fail(harden_continuation_failure(failure, effect));
            },
        };
        state.latest_pending_target = Some(observation.pending.target.clone());
        return observe_passively();
    }
    let held = match &state.replacement {
        Some(SettleReplacementPhase::Bootstrapping { source, admitted, command: expected }) => {
            if command != *expected {
                state.replacement = None;
                return projection_shape_failure(
                    "settlement replacement bootstrap completed under a different command",
                    effect,
                );
            }
            Some((source.clone(), admitted.clone()))
        },
        Some(SettleReplacementPhase::Activating { source, admitted }) => Some(
            (source.clone(), admitted.clone()),
        ),
        _ => None,
    };
    if let Some((source, admitted)) = held {
        state.replacement = Some(
            SettleReplacementPhase::AwaitingActivation {
                source,
                admitted,
                command,
                control_outcome: outcome.clone(),
                controlled_network_active: network_active,
            },
        );
        return observe_passively();
    }
    let expected = match &state.authorizing_document_state {
        Some(expected) => Some(expected.clone()),
        None => None,
    };
    if let Some(expected) = expected {
        return settle_authorize(state, &expected, command, outcome, effect, answers);
    }
    match &answers.progress {
        None => ActiveTransition::Consult(
            Consultation::ConsumeOutcome {
                outcome: outcome.clone(),
                cumulative_wall_time_ns: state.cumulative_external_io_wall_time_ns,
                external_io_active: network_active,
            },
        ),
        Some(Ok(progress)) => transition_from_settle_progress_for_active(
            state,
            started_at,
            progress,
            effect,
            answers,
        ),
        Some(Err(error)) => ActiveTransition::Fail(
            settle_failure_for_response(error, effect, Some(command), &state.response),
        ),
    }
}

/// An explicit navigation after a control command.
pub open spec fn navigate_control(
    state: NavigateState,
    profile: Option<SessionProfile>,
    command: DocumentControlCommand,
    outcome: Arc<DocumentControlReceiveOutcome>,
    effect: RequestStateEffect,
    network_operations: usize,
    answers: Answers,
) -> (NavigateState, TransitionView) {
    match state.phase {
        NavigatePhase::Authorizing { expected_state_token, navigation } =>
        match observation_or_failure(*outcome, command, effect) {
            Err(failure) => (state, TransitionView::Fail(failure)),
            Ok(observation) => match authorization(
                observation.pending,
                navigation,
                expected_state_token,
                answers,
            ) {
                Some(transition) => (state, transition),
                None => (
                    NavigateState {
                        phase: NavigatePhase::AwaitingAdmission {
                            source: navigation,
                            source_external_io_active_at_authorization: blocks_document_replacement(
                                profile,
                                network_operations,
                            ),
                        },
                        ..state
                    },
                    TransitionView::SubmitSessionNavigation {
                        expected: navigation,
                        url: state.requested_url,
                    },
                ),
            },
        },
        NavigatePhase::Settling { .. } => (
            state,
            match answers.progress {
                None => TransitionView::Consult(
                    Consultation::ConsumeOutcome {
                        outcome,
                        cumulative_wall_time_ns: state.cumulative_external_io_wall_time_ns,
                        external_io_active: network_operations != 0,
                    },
                ),
                Some(Ok(progress)) => navigate_progress(state, progress, effect),
                Some(Err(error)) => TransitionView::Fail(
                    settle_failure_view(error, effect, Some(command)),
                ),
            },
        ),
        _ => (
            state,
            internal_transition(
                "session.navigate received a document-control result in the wrong phase"@,
                effect,
            ),
        ),
    }
}

fn navigate_completion(
    state: &mut NavigateState,
    profile: Option<SessionProfile>,
    command: DocumentControlCommand,
    outcome: &Arc<DocumentControlReceiveOutcome>,
    effect: RequestStateEffect,
    network_operations: usize,
    answers: &Answers,
) -> (transition: ActiveTransition)
    ensures
        (*final(state), transition@) == navigate_control(
            *old(state),
            profile,
            command,
            *outcome,
            effect,
            network_operations,
            *answers,
        ),
{
    let authorized = match &state.phase {
        NavigatePhase::Authorizing { expected_state_token, navigation } => {
            let observation = match completed_observation(outcome, &command, effect) {
                Ok(observation) => observation,
                Err(failure) => {
                    return ActiveTransition::Fail(failure);
                },
            };
            if let Some(transition) = authorize(
                &observation.pending,
                navigation,
                expected_state_token,
                answers,
            ) {
                return transition;
            }
            Some(navigation.clone())
        },
        NavigatePhase::Settling { .. } => None,
        _ => {
            return projection_shape_failure(
                "session.navigate received a document-control result in the wrong phase",
                effect,
            );
        },
    };
    if let Some(expected) = authorized {
        state.phase =
        NavigatePhase::AwaitingAdmission {
            source: expected.clone(),
            source_external_io_active_at_authorization:
                controlled_network_blocks_document_replacement(profile, network_operations),
        };
        return ActiveTransition::SubmitSessionNavigation {
            expected,
            url: state.requested_url.clone(),
        };
    }
    match &answers.progress {
        None => ActiveTransition::Consult(
            Consultation::ConsumeOutcome {
                outcome: outcome.clone(),
                cumulative_wall_time_ns: state.cumulative_external_io_wall_time_ns,
                external_io_active: network_operations != 0,
            },
        ),
        Some(Ok(progress)) => transition_from_navigate_settle_progress(state, progress, effect),
        Some(Err(error)) => ActiveTransition::Fail(settle_failure(error, effect, Some(command))),
    }
}

/// A projection that starts over because the document drifted.
pub open spec fn projection_drift(
    state: SessionProjectionState,
    effect: RequestStateEffect,
    answers: Answers,
) -> (SessionProjectionState, Option<ActiveOperation>, TransitionView) {
    match drift_restart(state.kind, effect, answers) {
        Ok((operation, transition)) => (state, Some(operation), transition),
        Err(transition) => (state, None, transition),
    }
}

/// Whether the fresh observation of an action's projection may differ from the one before, as far as
/// this does not depend on how the document changed.
pub open spec fn refresh_candidate(
    state: SessionProjectionState,
    navigation: Arc<SessionNavigationAuthority>,
    pending: Arc<PendingSnapshot>,
) -> Option<Arc<SessionNavigationAuthority>> {
    if state.kind is Automation && navigation.target@ == pending.target@ {
        projection_resume_of(state.kind)->0.authorizing_navigation
    } else {
        None
    }
}

/// A projection that met a pending replacement while it observed the document.
pub open spec fn projection_rearm(
    state: SessionProjectionState,
    navigation: Arc<SessionNavigationAuthority>,
    source_pipeline_id: u64,
    pipeline_id: u64,
    effect: RequestStateEffect,
) -> (SessionProjectionState, Option<ActiveOperation>, TransitionView) {
    if state.pending.target@ == navigation.target@ && sole_active_document(
        navigation.target@,
        source_pipeline_id,
    ) && source_pipeline_id != pipeline_id {
        (
            SessionProjectionState {
                kind: with_resume_authority(state.kind, navigation),
                phase: SessionProjectionPhase::AwaitingReplacementAdmission {
                    source: navigation,
                    source_pipeline_id,
                    pipeline_id,
                },
                ..state
            },
            None,
            passive_observation(),
        )
    } else {
        (state, None, activation_failure_view(effect, true))
    }
}

/// A projection with a fresh observation of its document.
pub open spec fn projection_observed(
    state: SessionProjectionState,
    navigation: Arc<SessionNavigationAuthority>,
    pending: Arc<PendingSnapshot>,
    effect: RequestStateEffect,
    answers: Answers,
) -> (SessionProjectionState, Option<ActiveOperation>, TransitionView) {
    let bracketed = (
        SessionProjectionState {
            pending,
            kind: with_resume_authority(state.kind, navigation),
            phase: SessionProjectionPhase::AwaitingStableNavigation { navigation },
        },
        None,
        passive_observation(),
    );
    if pending.identity == state.pending.identity {
        if navigation.target@ == pending.target@ {
            bracketed
        } else {
            projection_drift(state, effect, answers)
        }
    } else {
        match refresh_candidate(state, navigation, pending) {
            None => projection_drift(state, effect, answers),
            Some(source) => match answers.same_document {
                None => (
                    state,
                    None,
                    TransitionView::Consult(
                        Consultation::ClassifySameDocument { source, navigation },
                    ),
                ),
                Some(Some(_)) => bracketed,
                Some(None) => projection_drift(state, effect, answers),
            },
        }
    }
}

/// A projection after a control command.
pub open spec fn projection_control(
    state: SessionProjectionState,
    command: DocumentControlCommand,
    outcome: DocumentControlReceiveOutcome,
    effect: RequestStateEffect,
    answers: Answers,
) -> (SessionProjectionState, Option<ActiveOperation>, TransitionView) {
    match state.phase {
        SessionProjectionPhase::AwaitingPendingObservation { navigation } => {
            if command == DocumentControlCommand::Observe && allows_rearm(state.kind)
                && projection_resume_of(state.kind) is Some && (rejection_of(
                outcome,
            ) matches Some(DocumentControlError::ReplacementPipelineBootstrapRequired { .. })) {
                projection_rearm(
                    state,
                    navigation,
                    rejection_of(outcome)->0->ReplacementPipelineBootstrapRequired_source_pipeline_id,
                    rejection_of(outcome)->0->ReplacementPipelineBootstrapRequired_pipeline_id,
                    effect,
                )
            } else {
                match observation_or_failure(outcome, command, effect) {
                    Err(failure) => (
                        state,
                        None,
                        TransitionView::Fail(
                            if projection_resume_of(state.kind) is Some {
                                hardened(failure, effect)
                            } else {
                                failure
                            },
                        ),
                    ),
                    Ok(observation) => projection_observed(
                        state,
                        navigation,
                        observation.pending,
                        effect,
                        answers,
                    ),
                }
            }
        },
        _ => (
            state,
            None,
            internal_transition(
                "session projection received a document-control result in the wrong phase"@,
                effect,
            ),
        ),
    }
}

fn projection_restart(
    state: &SessionProjectionState,
    effect: RequestStateEffect,
    answers: &Answers,
) -> (r: (Option<ActiveOperation>, ActiveTransition))
    ensures
        (*state, r.0, r.1@) == projection_drift(*state, effect, *answers),
{
    match restart_session_projection_after_drift(&state.kind, effect, answers) {
        Ok((operation, transition)) => (Some(operation), transition),
        Err(transition) => (None, transition),
    }
}

fn projection_completion(
    state: &mut SessionProjectionState,
    command: DocumentControlCommand,
    outcome: &DocumentControlReceiveOutcome,
    effect: RequestStateEffect,
    answers: &Answers,
) -> (r: (Option<ActiveOperation>, ActiveTransition))
    ensures
        (*final(state), r.0, r.1@) == projection_control(
            *old(state),
            command,
            *outcome,
            effect,
            *answers,
        ),
{
    let navigation = match &state.phase {
        SessionProjectionPhase::AwaitingPendingObservation { navigation } => navigation.clone(),
        _ => {
            return (
                None,
                projection_shape_failure(
                    "session projection received a document-control result in the wrong phase",
                    effect,
                ),
            );
        },
    };
    let resumable = session_projection_settle_resume(&state.kind).is_some();
    if command == DocumentControlCommand::Observe && session_projection_allows_replacement_rearm(
        &state.kind,
    ) && resumable {
        if let Some(
            DocumentControlError::ReplacementPipelineBootstrapRequired {
                source_pipeline_id,
                pipeline_id,
            },
        ) = rejection(outcome) {
            if !same_target(&state.pending.target, &navigation.target) || !is_sole_active_document(
                &navigation.target,
                source_pipeline_id,
            ) || source_pipeline_id == pipeline_id {
                return (None, navigation_activation_failure(effect, true));
            }
            set_projection_authority(&mut state.kind, &navigation);
            state.phase =
            SessionProjectionPhase::AwaitingReplacementAdmission {
                source: navigation,
                source_pipeline_id,
                pipeline_id,
            };
            return (None, observe_passively());
        }
    }
    let observation = match completed_observation(outcome, &command, effect) {
        Ok(observation) => observation,
        Err(failure) => {
            return (
                None,
                ActiveTransition::Fail(
                    if resumable {
                        harden_continuation_failure(failure, effect)
                    } else {
                        failure
                    },
                ),
            );
        },
    };
    let target_matches = same_target(&navigation.target, &observation.pending.target);
    if observation.pending.identity != state.pending.identity {
        let source = match &state.kind {
            SessionProjectionKind::Automation { settle_resume, .. } => if target_matches {
                match &settle_resume.authorizing_navigation {
                    Some(source) => Some(source.clone()),
                    None => None,
                }
            } else {
                None
            },
            _ => None,
        };
        match source {
            None => {
                return projection_restart(state, effect, answers);
            },
            Some(source) => match answers.same_document {
                None => {
                    return (
                        None,
                        ActiveTransition::Consult(
                            Consultation::ClassifySameDocument { source, navigation },
                        ),
                    );
                },
                Some(Some(_)) => {},
                Some(None) => {
                    return projection_restart(state, effect, answers);
                },
            },
        }
    } else if !target_matches {
        return projection_restart(state, effect, answers);
    }
    set_projection_authority(&mut state.kind, &navigation);
    state.pending = observation.pending.clone();
    state.phase = SessionProjectionPhase::AwaitingStableNavigation { navigation };
    (None, observe_passively())
}

/// The active request and its next step after a control command has completed.
pub open spec fn control_step(
    active: ActiveRequest,
    command: DocumentControlCommand,
    outcome: Arc<DocumentControlReceiveOutcome>,
    network_operations: usize,
    answers: Answers,
) -> (ActiveRequest, TransitionView) {
    let effect = active.state_effect;
    match active.operation {
        ActiveOperation::ControlledOpen(state) => {
            let (state, operation, transition) = open_control(
                state,
                command,
                outcome,
                effect,
                network_operations != 0,
                answers,
            );
            (
                ActiveRequest {
                    operation: match operation {
                        Some(operation) => operation,
                        None => ActiveOperation::ControlledOpen(state),
                    },
                    ..active
                },
                transition,
            )
        },
        ActiveOperation::Pending => (
            active,
            pending_control(active.profile, command, *outcome, effect, answers),
        ),
        ActiveOperation::AdvanceToNext(state) => {
            let (state, transition) = advance_control(
                state,
                active.profile,
                command,
                *outcome,
                effect,
                network_operations,
                answers,
            );
            (
                ActiveRequest { operation: ActiveOperation::AdvanceToNext(state), ..active },
                transition,
            )
        },
        ActiveOperation::Automation(state) => {
            let (state, transition) = automation_control(state, command, *outcome, effect, answers);
            (ActiveRequest { operation: ActiveOperation::Automation(state), ..active }, transition)
        },
        ActiveOperation::Audit(state) => {
            let (state, transition) = audit_control(state, command, *outcome, effect);
            (ActiveRequest { operation: ActiveOperation::Audit(state), ..active }, transition)
        },
        ActiveOperation::Settle(state) => {
            let (state, transition) = settle_control(
                state,
                active.started_at,
                command,
                outcome,
                effect,
                network_operations != 0,
                answers,
            );
            (ActiveRequest { operation: ActiveOperation::Settle(state), ..active }, transition)
        },
        ActiveOperation::Navigate(state) => {
            let (state, transition) = navigate_control(
                state,
                active.profile,
                command,
                outcome,
                effect,
                network_operations,
                answers,
            );
            (ActiveRequest { operation: ActiveOperation::Navigate(state), ..active }, transition)
        },
        ActiveOperation::SessionProjection(state) => {
            let (state, operation, transition) = projection_control(
                state,
                command,
                *outcome,
                effect,
                answers,
            );
            (
                ActiveRequest {
                    operation: match operation {
                        Some(operation) => operation,
                        None => ActiveOperation::SessionProjection(state),
                    },
                    ..active
                },
                transition,
            )
        },
    }
}

/// Decides what follows a completed control command. Where an answer of the engine's services is
/// needed first, the request stays as it is and the call is repeated with the answer.
pub fn transition_from_control_completion(
    active: &mut ActiveRequest,
    command: DocumentControlCommand,
    outcome: &Arc<DocumentControlReceiveOutcome>,
    controlled_network_active_operations: usize,
    answers: &Answers,
) -> (transition: ActiveTransition)
    ensures
        (*final(active), transition@) == control_step(
            *old(active),
            command,
            *outcome,
            controlled_network_active_operations,
            *answers,
        ),
{
    let effect = active.state_effect;
    let profile = active.profile;
    let network_active = controlled_network_active_operations != 0;
    match &mut active.operation {
        ActiveOperation::ControlledOpen(state) => {
            let (operation, transition) = controlled_open_control(
                state,
                command,
                outcome,
                effect,
                network_active,
                answers,
            );
            if let Some(operation) = operation {
                active.operation = operation;
            }
            transition
        },
        ActiveOperation::Pending => pending_completion(profile, command, outcome, effect, answers),
        ActiveOperation::AdvanceToNext(state) => advance_completion(
            state,
            profile,
            command,
            outcome,
            effect,
            controlled_network_active_operations,
            answers,
        ),
        ActiveOperation::Automation(state) => match state.unresolved {
            Some(params) => automation_bind(state, params, command, outcome, effect, answers),
            None => automation_finish(state, command, outcome, effect, answers),
        },
        ActiveOperation::Audit(state) => audit_completion(state, command, outcome, effect),
        ActiveOperation::Settle(state) => settle_completion(
            state,
            active.started_at,
            command,
            outcome,
            effect,
            network_active,
            answers,
        ),
        ActiveOperation::Navigate(state) => navigate_completion(
            state,
            profile,
            command,
            outcome,
            effect,
            controlled_network_active_operations,
            answers,
        ),
        ActiveOperation::SessionProjection(state) => {
            let (operation, transition) = projection_completion(
                state,
                command,
                outcome,
                effect,
                answers,
            );
            if let Some(operation) = operation {
                active.operation = operation;
            }
            transition
        },
    }
}

} // verus!
