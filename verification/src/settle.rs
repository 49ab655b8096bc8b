//! From the replies of the settlement coordinator to the next step of a request, and back from a
//! projection to settlement.

use serde_json::Value;
use std::sync::Arc;
use vstd::prelude::*;

use crate::active::{
    ActiveFailure, ActiveOperation, ActiveRequest, ActiveTransition, AdvanceToNextState, Answers,
    Consultation, ControlledOpenSettlement, ControlledOpenState, NavigatePhase, NavigateState,
    SessionProjectionKind, SessionProjectionPhase, SessionProjectionState, SettlePolicy,
    SettleProjectionResume, SettleReplacementPhase, SettleResponse, SettleState, TransitionView,
};
use crate::authority::{
    exact_replacement_admission, replacement_admission, PendingTarget, SessionNavigationAuthority,
};
use crate::control::{
    completion_pending, DocumentControlCommand, PendingSnapshot, ProjectionError, SettleProgress,
};
use crate::error::{fatal_error, fatal_operation, operation_error, ProtocolError};
use crate::failure::{
    controlled_ready_pending, hard_failure, internal_failure, internal_failure_view,
    internal_transition, projection_shape_failure, ready_or_failure, settle_failure,
    settle_failure_for_response, settle_failure_for_response_view, settle_failure_view,
    soft_failure, unexpected_completion_view, unexpected_navigation_completion,
};
use crate::json::{clone_value, value_json};
use crate::profile::{effect_text, session_api, RequestStateEffect};
use crate::text::joined;

verus! {

/// The text of a projection error; an authority error has none.
pub open spec fn projection_error_text(error: ProjectionError) -> Seq<char> {
    match error {
        ProjectionError::Project(text) => text@,
        ProjectionError::Serialize(text) => text@,
        ProjectionError::Authority(_) => ""@,
    }
}

pub(crate) fn projection_error_str(error: &ProjectionError) -> (text: &str)
    ensures
        text@ == projection_error_text(*error),
{
    match error {
        ProjectionError::Project(text) => text.as_str(),
        ProjectionError::Serialize(text) => text.as_str(),
        ProjectionError::Authority(_) => "",
    }
}

/// A result that is published as it is.
pub open spec fn serialized(
    projected: Result<Arc<Value>, ProjectionError>,
    effect: RequestStateEffect,
) -> TransitionView {
    match projected {
        Ok(value) => TransitionView::Complete(value_json(*value)),
        Err(error) => internal_transition(
            "failed to serialize runtime result: "@ + projection_error_text(error),
            effect,
        ),
    }
}

pub fn serialize_result(
    projected: &Result<Arc<Value>, ProjectionError>,
    state_effect: RequestStateEffect,
) -> (transition: ActiveTransition)
    ensures
        transition@ == serialized(*projected, state_effect),
{
    match projected {
        Ok(value) => ActiveTransition::Complete(clone_value(value)),
        Err(error) => projection_shape_failure(
            joined(
                "failed to serialize runtime result: ",
                projection_error_str(error),
            ).as_str(),
            state_effect,
        ),
    }
}

/// A result that is published once it was bracketed.
pub open spec fn session_value(
    projected: Result<Arc<Value>, ProjectionError>,
    pending: Arc<PendingSnapshot>,
    snapshot_token: bool,
    effect: RequestStateEffect,
    settle_resume: Option<SettleProjectionResume>,
) -> TransitionView {
    match projected {
        Ok(value) => TransitionView::ProjectSession(
            SessionProjectionState {
                pending,
                kind: SessionProjectionKind::Value { value, snapshot_token, settle_resume },
                phase: SessionProjectionPhase::AwaitingInitialNavigation,
            },
        ),
        Err(error) => internal_transition(
            "failed to serialize controlled-session result: "@ + projection_error_text(error),
            effect,
        ),
    }
}

pub fn project_session_value_with_resume(
    projected: &Result<Arc<Value>, ProjectionError>,
    pending: &Arc<PendingSnapshot>,
    snapshot_token: bool,
    state_effect: RequestStateEffect,
    settle_resume: Option<SettleProjectionResume>,
) -> (transition: ActiveTransition)
    ensures
        transition@ == session_value(
            *projected,
            *pending,
            snapshot_token,
            state_effect,
            settle_resume,
        ),
{
    match projected {
        Ok(value) => ActiveTransition::ProjectSession(
            SessionProjectionState {
                pending: pending.clone(),
                kind: SessionProjectionKind::Value {
                    value: value.clone(),
                    snapshot_token,
                    settle_resume,
                },
                phase: SessionProjectionPhase::AwaitingInitialNavigation,
            },
        ),
        Err(error) => projection_shape_failure(
            joined(
                "failed to serialize controlled-session result: ",
                projection_error_str(error),
            ).as_str(),
            state_effect,
        ),
    }
}

/// What a settlement in this state goes back to after a projection.
pub open spec fn resume_of(state: SettleState) -> SettleProjectionResume {
    SettleProjectionResume {
        profile: state.profile,
        effective_policy: state.effective_policy,
        cumulative_external_io_wall_time_ns: state.cumulative_external_io_wall_time_ns,
        authorizing_navigation: state.authorizing_navigation,
        response: state.response,
    }
}

/// Another handle on the same authority, if there is one.
pub(crate) fn share(authority: &Option<Arc<SessionNavigationAuthority>>) -> (r: Option<
    Arc<SessionNavigationAuthority>,
>)
    ensures
        r == *authority,
{
    match authority {
        Some(authority) => Some(authority.clone()),
        None => None,
    }
}

fn projection_resume(state: &SettleState) -> (r: SettleProjectionResume)
    ensures
        r == resume_of(*state),
{
    SettleProjectionResume {
        profile: state.profile,
        effective_policy: state.effective_policy,
        cumulative_external_io_wall_time_ns: state.cumulative_external_io_wall_time_ns,
        authorizing_navigation: share(&state.authorizing_navigation),
        response: state.response.copy(),
    }
}

impl SettleProjectionResume {
    /// An equal continuation.
    pub fn copy(&self) -> (r: Self)
        ensures
            r == *self,
    {
        SettleProjectionResume {
            profile: self.profile,
            effective_policy: self.effective_policy,
            cumulative_external_io_wall_time_ns: self.cumulative_external_io_wall_time_ns,
            authorizing_navigation: share(&self.authorizing_navigation),
            response: self.response.copy(),
        }
    }
}

impl SettleReplacementPhase {
    /// An equal phase.
    pub fn copy(&self) -> (r: Self)
        ensures
            r == *self,
    {
        match self {
            SettleReplacementPhase::AwaitingAdmission { source, drive_outcome } =>
            SettleReplacementPhase::AwaitingAdmission {
                source: source.clone(),
                drive_outcome: drive_outcome.clone(),
            },
            SettleReplacementPhase::Bootstrapping { source, admitted, command } =>
            SettleReplacementPhase::Bootstrapping {
                source: source.clone(),
                admitted: admitted.clone(),
                command: *command,
            },
            SettleReplacementPhase::Activating { source, admitted } =>
            SettleReplacementPhase::Activating {
                source: source.clone(),
                admitted: admitted.clone(),
            },
            SettleReplacementPhase::AwaitingActivation {
                source,
                admitted,
                command,
                control_outcome,
                controlled_network_active,
            } => SettleReplacementPhase::AwaitingActivation {
                source: source.clone(),
                admitted: admitted.clone(),
                command: *command,
                control_outcome: control_outcome.clone(),
                controlled_network_active: *controlled_network_active,
            },
        }
    }
}

impl SettleState {
    /// An equal state.
    pub fn copy(&self) -> (r: Self)
        ensures
            r == *self,
    {
        SettleState {
            profile: self.profile,
            authorizing_document_state: match &self.authorizing_document_state {
                Some(authority) => Some(authority.clone()),
                None => None,
            },
            authorizing_observation: match &self.authorizing_observation {
                Some(observation) => Some(observation.clone()),
                None => None,
            },
            authorizing_navigation: share(&self.authorizing_navigation),
            replacement: match &self.replacement {
                Some(phase) => Some(phase.copy()),
                None => None,
            },
            authority_bound_command: self.authority_bound_command,
            latest_pending_target: match &self.latest_pending_target {
                Some(target) => Some(target.clone()),
                None => None,
            },
            response: self.response.copy(),
            effective_policy: self.effective_policy,
            cumulative_external_io_wall_time_ns: self.cumulative_external_io_wall_time_ns,
            waiting: self.waiting,
        }
    }
}

/// The first step of a settlement.
pub open spec fn first_progress(progress: SettleProgress) -> TransitionView {
    match progress {
        SettleProgress::Command(command) => TransitionView::Submit(command),
        SettleProgress::Wait(wait) => TransitionView::Wait(wait),
        SettleProgress::Complete(_) => TransitionView::Fail(
            internal_failure_view("settlement completed before its initial observation"@, "none"@),
        ),
    }
}

pub fn transition_from_settle_progress(progress: &SettleProgress) -> (transition: ActiveTransition)
    ensures
        transition@ == first_progress(*progress),
{
    match progress {
        SettleProgress::Command(command) => ActiveTransition::Submit(*command),
        SettleProgress::Wait(wait) => ActiveTransition::Wait(*wait),
        SettleProgress::Complete(_) => ActiveTransition::Fail(
            internal_failure("settlement completed before its initial observation", "none"),
        ),
    }
}

/// The projection of a controlled open whose settlement ended with `pending`.
pub open spec fn open_projection(state: ControlledOpenState, pending: Arc<PendingSnapshot>) ->
    SessionProjectionState {
    SessionProjectionState {
        pending,
        kind: SessionProjectionKind::ControlledOpen {
            requested_url: state.requested_url,
            current_url: state.current_url,
            profile: state.profile,
            deadline: state.deadline,
            bootstrap_attempted: state.bootstrap_attempted,
            cumulative_external_io_wall_time_ns: match state.settlement {
                Some(settlement) => settlement.cumulative_external_io_wall_time_ns,
                None => 0,
            },
            session_state_token: None,
            settle_resume: None,
        },
        phase: SessionProjectionPhase::AwaitingInitialNavigation,
    }
}

/// The next step of a controlled open in settlement.
pub open spec fn open_progress(
    state: ControlledOpenState,
    progress: SettleProgress,
    effect: RequestStateEffect,
) -> TransitionView {
    match progress {
        SettleProgress::Command(command) => TransitionView::Submit(command),
        SettleProgress::Wait(wait) => TransitionView::Wait(wait),
        SettleProgress::Complete(completion) => match ready_or_failure(completion, effect, true) {
            Ok(pending) => TransitionView::ProjectSession(open_projection(state, pending)),
            Err(failure) => TransitionView::Fail(failure),
        },
    }
}

pub fn transition_from_controlled_open_settle_progress(
    state: &ControlledOpenState,
    progress: &SettleProgress,
    state_effect: RequestStateEffect,
) -> (transition: ActiveTransition)
    ensures
        transition@ == open_progress(*state, *progress, state_effect),
{
    match progress {
        SettleProgress::Command(command) => ActiveTransition::Submit(*command),
        SettleProgress::Wait(wait) => ActiveTransition::Wait(*wait),
        SettleProgress::Complete(completion) => match controlled_ready_pending(
            completion,
            state_effect,
            true,
        ) {
            Ok(pending) => ActiveTransition::ProjectSession(
                SessionProjectionState {
                    pending,
                    kind: SessionProjectionKind::ControlledOpen {
                        requested_url: state.requested_url.clone(),
                        current_url: state.current_url.clone(),
                        profile: state.profile,
                        deadline: state.deadline,
                        bootstrap_attempted: state.bootstrap_attempted,
                        cumulative_external_io_wall_time_ns: match state.settlement {
                            Some(settlement) => settlement.cumulative_external_io_wall_time_ns,
                            None => 0,
                        },
                        session_state_token: None,
                        settle_resume: None,
                    },
                    phase: SessionProjectionPhase::AwaitingInitialNavigation,
                },
            ),
            Err(failure) => ActiveTransition::Fail(failure),
        },
    }
}

/// The projection of a finished settlement, for every response but the two that first need the
/// public form of their result.
pub open spec fn settled_projection(state: SettleState, pending: Arc<PendingSnapshot>) ->
    SessionProjectionState {
    SessionProjectionState {
        pending,
        kind: match state.response {
            SettleResponse::ControlledOpen {
                requested_url,
                current_url,
                profile,
                deadline,
                bootstrap_attempted,
            } => SessionProjectionKind::ControlledOpen {
                requested_url,
                current_url,
                profile,
                deadline,
                bootstrap_attempted,
                cumulative_external_io_wall_time_ns: state.cumulative_external_io_wall_time_ns,
                session_state_token: None,
                settle_resume: Some(resume_of(state)),
            },
            SettleResponse::Navigate { requested_url, source, admitted } =>
            SessionProjectionKind::Navigate {
                requested_url,
                source,
                admitted,
                cumulative_external_io_wall_time_ns: state.cumulative_external_io_wall_time_ns,
                settle_resume: Some(resume_of(state)),
            },
            _ => SessionProjectionKind::Automation {
                settle_resume: resume_of(state),
                replacement_rearm: true,
            },
        },
        phase: SessionProjectionPhase::AwaitingInitialNavigation,
    }
}

/// The state and the next step of a settlement after a reply of the coordinator.
pub open spec fn settle_progress(
    state: SettleState,
    started_at: u64,
    progress: SettleProgress,
    effect: RequestStateEffect,
    answers: Answers,
) -> (SettleState, TransitionView) {
    match progress {
        SettleProgress::Complete(completion) => if state.replacement is Some {
            (
                state,
                match ready_or_failure(completion, effect, true) {
                    Err(failure) => TransitionView::Fail(failure),
                    Ok(_) => internal_transition(
                        "settlement reached quiescence before replacement authority was controlled-ready"@,
                        effect,
                    ),
                },
            )
        } else if state.response is Runtime {
            (
                state,
                match answers.projected {
                    None => TransitionView::Consult(
                        Consultation::ProjectSettlement {
                            policy: state.effective_policy,
                            started_at,
                        },
                    ),
                    Some(projected) => if session_api(state.profile) {
                        session_value(
                            projected,
                            completion_pending(completion),
                            true,
                            effect,
                            Some(resume_of(state)),
                        )
                    } else {
                        serialized(projected, effect)
                    },
                },
            )
        } else {
            (
                state,
                match ready_or_failure(completion, effect, true) {
                    Err(failure) => TransitionView::Fail(failure),
                    Ok(pending) => if state.response is Pending {
                        match answers.projected {
                            None => TransitionView::Consult(
                                Consultation::ProjectPending { pending },
                            ),
                            Some(projected) => session_value(
                                projected,
                                pending,
                                false,
                                effect,
                                Some(resume_of(state)),
                            ),
                        }
                    } else {
                        TransitionView::ProjectSession(settled_projection(state, pending))
                    },
                },
            )
        },
        SettleProgress::Command(command) => if session_api(state.profile) && command
            == DocumentControlCommand::DriveOneTurn {
            let held = SettleState { authority_bound_command: Some(command), ..state };
            if state.authority_bound_command is Some || state.latest_pending_target is None {
                (
                    held,
                    internal_transition(
                        "settlement could not bind one pending Drive to fresh document authority"@,
                        effect,
                    ),
                )
            } else {
                (
                    held,
                    TransitionView::SubmitSessionNavigationObservation { allow_servo_pump: false },
                )
            }
        } else {
            (state, TransitionView::Submit(command))
        },
        SettleProgress::Wait(wait) => (state, TransitionView::Wait(wait)),
    }
}

pub fn transition_from_settle_progress_for_active(
    state: &mut SettleState,
    started_at: u64,
    progress: &SettleProgress,
    state_effect: RequestStateEffect,
    answers: &Answers,
) -> (transition: ActiveTransition)
    ensures
        (*final(state), transition@) == settle_progress(
            *old(state),
            started_at,
            *progress,
            state_effect,
            *answers,
        ),
{
    match progress {
        SettleProgress::Complete(completion) => {
            if state.replacement.is_some() {
                return match controlled_ready_pending(completion, state_effect, true) {
                    Err(failure) => ActiveTransition::Fail(failure),
                    Ok(_) => projection_shape_failure(
                        "settlement reached quiescence before replacement authority was controlled-ready",
                        state_effect,
                    ),
                };
            }
            match &state.response {
                SettleResponse::Runtime => match &answers.projected {
                    None => ActiveTransition::Consult(
                        Consultation::ProjectSettlement {
                            policy: state.effective_policy,
                            started_at,
                        },
                    ),
                    Some(projected) => if state.profile.supports_session_api() {
                        project_session_value_with_resume(
                            projected,
                            &completion.pending(),
                            true,
                            state_effect,
                            Some(projection_resume(state)),
                        )
                    } else {
                        serialize_result(projected, state_effect)
                    },
                },
                SettleResponse::Pending => {
                    let pending = match controlled_ready_pending(completion, state_effect, true) {
                        Ok(pending) => pending,
                        Err(failure) => {
                            return ActiveTransition::Fail(failure);
                        },
                    };
                    match &answers.projected {
                        None => ActiveTransition::Consult(Consultation::ProjectPending { pending }),
                        Some(projected) => project_session_value_with_resume(
                            projected,
                            &pending,
                            false,
                            state_effect,
                            Some(projection_resume(state)),
                        ),
                    }
                },
                SettleResponse::Automation { .. } => match controlled_ready_pending(
                    completion,
                    state_effect,
                    true,
                ) {
                    Ok(pending) => ActiveTransition::ProjectSession(
                        SessionProjectionState {
                            pending,
                            kind: SessionProjectionKind::Automation {
                                settle_resume: projection_resume(state),
                                replacement_rearm: true,
                            },
                            phase: SessionProjectionPhase::AwaitingInitialNavigation,
                        },
                    ),
                    Err(failure) => ActiveTransition::Fail(failure),
                },
                SettleResponse::ControlledOpen {
                    requested_url,
                    current_url,
                    profile,
                    deadline,
                    bootstrap_attempted,
                } => match controlled_ready_pending(completion, state_effect, true) {
                    Ok(pending) => ActiveTransition::ProjectSession(
                        SessionProjectionState {
                            pending,
                            kind: SessionProjectionKind::ControlledOpen {
                                requested_url: requested_url.clone(),
                                current_url: current_url.clone(),
                                profile: *profile,
                                deadline: *deadline,
                                bootstrap_attempted: *bootstrap_attempted,
                                cumulative_external_io_wall_time_ns:
                                    state.cumulative_external_io_wall_time_ns,
                                session_state_token: None,
                                settle_resume: Some(projection_resume(state)),
                            },
                            phase: SessionProjectionPhase::AwaitingInitialNavigation,
                        },
                    ),
                    Err(failure) => ActiveTransition::Fail(failure),
                },
                SettleResponse::Navigate { requested_url, source, admitted } =>
                match controlled_ready_pending(completion, state_effect, true) {
                    Ok(pending) => ActiveTransition::ProjectSession(
                        SessionProjectionState {
                            pending,
                            kind: SessionProjectionKind::Navigate {
                                requested_url: requested_url.clone(),
                                source: source.clone(),
                                admitted: admitted.clone(),
                                cumulative_external_io_wall_time_ns:
                                    state.cumulative_external_io_wall_time_ns,
                                settle_resume: Some(projection_resume(state)),
                            },
                            phase: SessionProjectionPhase::AwaitingInitialNavigation,
                        },
                    ),
                    Err(failure) => ActiveTransition::Fail(failure),
                },
            }
        },
        SettleProgress::Command(command) => {
            if state.profile.supports_session_api() && *command
                == DocumentControlCommand::DriveOneTurn {
                let bound_before = state.authority_bound_command.is_some();
                state.authority_bound_command = Some(*command);
                if bound_before || state.latest_pending_target.is_none() {
                    return projection_shape_failure(
                        "settlement could not bind one pending Drive to fresh document authority",
                        state_effect,
                    );
                }
                return ActiveTransition::SubmitSessionNavigationObservation {
                    allow_servo_pump: false,
                };
            }
            ActiveTransition::Submit(*command)
        },
        SettleProgress::Wait(wait) => ActiveTransition::Wait(*wait),
    }
}

/// The next step of an explicit navigation in settlement.
pub open spec fn navigate_progress(
    state: NavigateState,
    progress: SettleProgress,
    effect: RequestStateEffect,
) -> TransitionView {
    match progress {
        SettleProgress::Command(command) => TransitionView::Submit(command),
        SettleProgress::Wait(wait) => TransitionView::Wait(wait),
        SettleProgress::Complete(completion) => match state.phase {
            NavigatePhase::Settling { source, admitted } => match ready_or_failure(
                completion,
                effect,
                true,
            ) {
                Ok(pending) => TransitionView::ProjectSession(
                    SessionProjectionState {
                        pending,
                        kind: SessionProjectionKind::Navigate {
                            requested_url: state.requested_url,
                            source,
                            admitted,
                            cumulative_external_io_wall_time_ns:
                                state.cumulative_external_io_wall_time_ns,
                            settle_resume: None,
                        },
                        phase: SessionProjectionPhase::AwaitingInitialNavigation,
                    },
                ),
                Err(failure) => TransitionView::Fail(failure),
            },
            _ => unexpected_completion_view(effect),
        },
    }
}

pub fn transition_from_navigate_settle_progress(
    state: &NavigateState,
    progress: &SettleProgress,
    state_effect: RequestStateEffect,
) -> (transition: ActiveTransition)
    ensures
        transition@ == navigate_progress(*state, *progress, state_effect),
{
    match progress {
        SettleProgress::Command(command) => ActiveTransition::Submit(*command),
        SettleProgress::Wait(wait) => ActiveTransition::Wait(*wait),
        SettleProgress::Complete(completion) => match &state.phase {
            NavigatePhase::Settling { source, admitted } => match controlled_ready_pending(
                completion,
                state_effect,
                true,
            ) {
                Ok(pending) => ActiveTransition::ProjectSession(
                    SessionProjectionState {
                        pending,
                        kind: SessionProjectionKind::Navigate {
                            requested_url: state.requested_url.clone(),
                            source: source.clone(),
                            admitted: admitted.clone(),
                            cumulative_external_io_wall_time_ns:
                                state.cumulative_external_io_wall_time_ns,
                            settle_resume: None,
                        },
                        phase: SessionProjectionPhase::AwaitingInitialNavigation,
                    },
                ),
                Err(failure) => ActiveTransition::Fail(failure),
            },
            _ => unexpected_navigation_completion(state_effect),
        },
    }
}

/// What a projection goes back to, if it can.
pub open spec fn projection_resume_of(kind: SessionProjectionKind) -> Option<
    SettleProjectionResume,
> {
    match kind {
        SessionProjectionKind::Automation { settle_resume, .. } => Some(settle_resume),
        SessionProjectionKind::Value { settle_resume, .. } => settle_resume,
        SessionProjectionKind::Navigate { settle_resume, .. } => settle_resume,
        SessionProjectionKind::ControlledOpen { settle_resume, .. } => settle_resume,
    }
}

pub fn session_projection_settle_resume(kind: &SessionProjectionKind) -> (r: Option<
    &SettleProjectionResume,
>)
    ensures
        match r {
            Some(resume) => projection_resume_of(*kind) == Some(*resume),
            None => projection_resume_of(*kind) is None,
        },
{
    match kind {
        SessionProjectionKind::Automation { settle_resume, .. } => Some(settle_resume),
        SessionProjectionKind::Value { settle_resume, .. } => settle_resume.as_ref(),
        SessionProjectionKind::Navigate { settle_resume, .. } => settle_resume.as_ref(),
        SessionProjectionKind::ControlledOpen { settle_resume, .. } => settle_resume.as_ref(),
    }
}

/// A projection that goes back, if it can, to the given navigation authority.
pub open spec fn with_resume_authority(
    kind: SessionProjectionKind,
    navigation: Arc<SessionNavigationAuthority>,
) -> SessionProjectionKind {
    match kind {
        SessionProjectionKind::Automation { settle_resume, replacement_rearm } =>
        SessionProjectionKind::Automation {
            settle_resume: SettleProjectionResume {
                authorizing_navigation: Some(navigation),
                ..settle_resume
            },
            replacement_rearm,
        },
        SessionProjectionKind::Value { value, snapshot_token, settle_resume: Some(resume) } =>
        SessionProjectionKind::Value {
            value,
            snapshot_token,
            settle_resume: Some(
                SettleProjectionResume { authorizing_navigation: Some(navigation), ..resume },
            ),
        },
        SessionProjectionKind::Navigate {
            requested_url,
            source,
            admitted,
            cumulative_external_io_wall_time_ns,
            settle_resume: Some(resume),
        } => SessionProjectionKind::Navigate {
            requested_url,
            source,
            admitted,
            cumulative_external_io_wall_time_ns,
            settle_resume: Some(
                SettleProjectionResume { authorizing_navigation: Some(navigation), ..resume },
            ),
        },
        SessionProjectionKind::ControlledOpen {
            requested_url,
            current_url,
            profile,
            deadline,
            bootstrap_attempted,
            cumulative_external_io_wall_time_ns,
            session_state_token,
            settle_resume: Some(resume),
        } => SessionProjectionKind::ControlledOpen {
            requested_url,
            current_url,
            profile,
            deadline,
            bootstrap_attempted,
            cumulative_external_io_wall_time_ns,
            session_state_token,
            settle_resume: Some(
                SettleProjectionResume { authorizing_navigation: Some(navigation), ..resume },
            ),
        },
        _ => kind,
    }
}

/// Lets a projection go back, if it can, to the given navigation authority.
pub fn set_projection_authority(
    kind: &mut SessionProjectionKind,
    navigation: &Arc<SessionNavigationAuthority>,
)
    ensures
        *final(kind) == with_resume_authority(*old(kind), *navigation),
{
    match kind {
        SessionProjectionKind::Automation { settle_resume, .. } => {
            settle_resume.authorizing_navigation = Some(navigation.clone());
        },
        SessionProjectionKind::Value { settle_resume, .. } => {
            if let Some(resume) = settle_resume {
                resume.authorizing_navigation = Some(navigation.clone());
            }
        },
        SessionProjectionKind::Navigate { settle_resume, .. } => {
            if let Some(resume) = settle_resume {
                resume.authorizing_navigation = Some(navigation.clone());
            }
        },
        SessionProjectionKind::ControlledOpen { settle_resume, .. } => {
            if let Some(resume) = settle_resume {
                resume.authorizing_navigation = Some(navigation.clone());
            }
        },
    }
}

/// Whether a projection may cross to another document.
pub open spec fn allows_rearm(kind: SessionProjectionKind) -> bool {
    match kind {
        SessionProjectionKind::Automation { replacement_rearm, .. } => replacement_rearm,
        _ => true,
    }
}

pub fn session_projection_allows_replacement_rearm(kind: &SessionProjectionKind) -> (r: bool)
    ensures
        r == allows_rearm(*kind),
{
    match kind {
        SessionProjectionKind::Automation { replacement_rearm, .. } => *replacement_rearm,
        _ => true,
    }
}

/// Whether a projection is that of an action, between whose end and the projection no other engine
/// work may run.
pub open spec fn suppresses_initial_pump(kind: SessionProjectionKind) -> bool {
    match projection_resume_of(kind) {
        Some(resume) => resume.response is Automation,
        None => false,
    }
}

pub fn session_projection_suppresses_initial_pump(kind: &SessionProjectionKind) -> (r: bool)
    ensures
        r == suppresses_initial_pump(*kind),
{
    match session_projection_settle_resume(kind) {
        Some(resume) => match resume.response {
            SettleResponse::Automation { .. } => true,
            _ => false,
        },
        None => false,
    }
}

/// The settlement that a continuation goes back to.
pub open spec fn resumed_settle(
    resume: SettleProjectionResume,
    authorizing_navigation: Option<Arc<SessionNavigationAuthority>>,
    replacement: Option<SettleReplacementPhase>,
    latest_pending_target: Option<Arc<PendingTarget>>,
) -> SettleState {
    SettleState {
        profile: resume.profile,
        authorizing_document_state: None,
        authorizing_observation: None,
        authorizing_navigation,
        replacement,
        authority_bound_command: None,
        latest_pending_target,
        response: resume.response,
        effective_policy: resume.effective_policy,
        cumulative_external_io_wall_time_ns: resume.cumulative_external_io_wall_time_ns,
        waiting: None,
    }
}

/// The operation that a projection starts over with after the document drifted.
pub open spec fn drift_operation(kind: SessionProjectionKind) -> Option<ActiveOperation> {
    match projection_resume_of(kind) {
        Some(resume) => Some(
            ActiveOperation::Settle(
                resumed_settle(resume, resume.authorizing_navigation, None, None),
            ),
        ),
        None => match kind {
            SessionProjectionKind::ControlledOpen {
                requested_url,
                current_url,
                profile,
                deadline,
                bootstrap_attempted,
                cumulative_external_io_wall_time_ns,
                ..
            } => Some(
                ActiveOperation::ControlledOpen(
                    ControlledOpenState {
                        requested_url,
                        current_url,
                        profile,
                        deadline,
                        readiness_waiting: None,
                        bootstrap_attempted,
                        settlement: Some(
                            ControlledOpenSettlement {
                                cumulative_external_io_wall_time_ns,
                                waiting: None,
                            },
                        ),
                    },
                ),
            ),
            SessionProjectionKind::Navigate {
                requested_url,
                source,
                admitted,
                cumulative_external_io_wall_time_ns,
                ..
            } => Some(
                ActiveOperation::Navigate(
                    NavigateState {
                        requested_url,
                        phase: NavigatePhase::Settling { source, admitted },
                        cumulative_external_io_wall_time_ns,
                        waiting: None,
                    },
                ),
            ),
            _ => None,
        },
    }
}

/// How a projection goes on after the document drifted: the operation and its first step, or the
/// step that ends or interrupts it.
pub open spec fn drift_restart(
    kind: SessionProjectionKind,
    effect: RequestStateEffect,
    answers: Answers,
) -> Result<(ActiveOperation, TransitionView), TransitionView> {
    if kind is Automation {
        Err(
            TransitionView::Fail(
                hard_failure(
                    fatal_error(
                        "document_authority_changed"@,
                        "document authority changed while the action result was being stabilized"@,
                        effect_text(effect),
                    ),
                ),
            ),
        )
    } else {
        match answers.progress {
            None => Err(
                TransitionView::Consult(
                    Consultation::StartSettlement {
                        policy: match projection_resume_of(kind) {
                            Some(resume) => resume.effective_policy,
                            None => SettlePolicy::EngineDefault,
                        },
                    },
                ),
            ),
            Some(Err(error)) => Err(
                TransitionView::Fail(
                    match projection_resume_of(kind) {
                        Some(resume) => settle_failure_for_response_view(
                            error,
                            effect,
                            None,
                            resume.response,
                        ),
                        None => settle_failure_view(error, effect, None),
                    },
                ),
            ),
            Some(Ok(SettleProgress::Command(command))) => match drift_operation(kind) {
                Some(operation) => Ok((operation, TransitionView::Submit(command))),
                None => Err(
                    TransitionView::Fail(
                        soft_failure(
                            operation_error(
                                "document_authority_changed"@,
                                "document state changed while the session result was being stabilized"@,
                                effect_text(effect),
                            ),
                        ),
                    ),
                ),
            },
            Some(Ok(_)) => Err(
                internal_transition(
                    "a fresh settlement coordinator did not request its initial observation"@,
                    effect,
                ),
            ),
        }
    }
}

pub fn restart_session_projection_after_drift(
    kind: &SessionProjectionKind,
    state_effect: RequestStateEffect,
    answers: &Answers,
) -> (r: Result<(ActiveOperation, ActiveTransition), ActiveTransition>)
    ensures
        match r {
            Ok((operation, transition)) => drift_restart(*kind, state_effect, *answers) == Ok::<
                (ActiveOperation, TransitionView),
                TransitionView,
            >((operation, transition@)),
            Err(transition) => drift_restart(*kind, state_effect, *answers) == Err::<
                (ActiveOperation, TransitionView),
                TransitionView,
            >(transition@),
        },
{
    match kind {
        SessionProjectionKind::Automation { .. } => {
            return Err(
                ActiveTransition::Fail(
                    ActiveFailure {
                        error: fatal_operation(
                            "document_authority_changed",
                            "document authority changed while the action result was being stabilized",
                            state_effect.as_protocol_str(),
                        ),
                        fail_stop: true,
                    },
                ),
            );
        },
        _ => {},
    }
    let resume = session_projection_settle_resume(kind);
    let command: DocumentControlCommand = match &answers.progress {
        None => {
            let policy = match resume {
                Some(resume) => resume.effective_policy,
                None => SettlePolicy::EngineDefault,
            };
            return Err(ActiveTransition::Consult(Consultation::StartSettlement { policy }));
        },
        Some(Err(error)) => {
            return Err(
                ActiveTransition::Fail(
                    match resume {
                        Some(resume) => settle_failure_for_response(
                            error,
                            state_effect,
                            None,
                            &resume.response,
                        ),
                        None => settle_failure(error, state_effect, None),
                    },
                ),
            );
        },
        Some(Ok(progress)) => match progress {
            SettleProgress::Command(command) => *command,
            SettleProgress::Wait(_) | SettleProgress::Complete(_) => {
                return Err(
                    projection_shape_failure(
                        "a fresh settlement coordinator did not request its initial observation",
                        state_effect,
                    ),
                );
            },
        },
    };
    if let Some(resume) = resume {
        return Ok(
            (
                ActiveOperation::Settle(
                    SettleState {
                        profile: resume.profile,
                        authorizing_document_state: None,
                        authorizing_observation: None,
                        authorizing_navigation: share(&resume.authorizing_navigation),
                        replacement: None,
                        authority_bound_command: None,
                        latest_pending_target: None,
                        response: resume.response.copy(),
                        effective_policy: resume.effective_policy,
                        cumulative_external_io_wall_time_ns:
                            resume.cumulative_external_io_wall_time_ns,
                        waiting: None,
                    },
                ),
                ActiveTransition::Submit(command),
            ),
        );
    }
    let operation = match kind {
        SessionProjectionKind::ControlledOpen {
            requested_url,
            current_url,
            profile,
            deadline,
            bootstrap_attempted,
            cumulative_external_io_wall_time_ns,
            ..
        } => ActiveOperation::ControlledOpen(
            ControlledOpenState {
                requested_url: requested_url.clone(),
                current_url: current_url.clone(),
                profile: *profile,
                deadline: *deadline,
                readiness_waiting: None,
                bootstrap_attempted: *bootstrap_attempted,
                settlement: Some(
                    ControlledOpenSettlement {
                        cumulative_external_io_wall_time_ns: *cumulative_external_io_wall_time_ns,
                        waiting: None,
                    },
                ),
            },
        ),
        SessionProjectionKind::Navigate {
            requested_url,
            source,
            admitted,
            cumulative_external_io_wall_time_ns,
            ..
        } => ActiveOperation::Navigate(
            NavigateState {
                requested_url: requested_url.clone(),
                phase: NavigatePhase::Settling {
                    source: source.clone(),
                    admitted: admitted.clone(),
                },
                cumulative_external_io_wall_time_ns: *cumulative_external_io_wall_time_ns,
                waiting: None,
            },
        ),
        _ => {
            return Err(
                ActiveTransition::Fail(
                    ActiveFailure {
                        error: ProtocolError::operation(
                            "document_authority_changed",
                            "document state changed while the session result was being stabilized",
                            state_effect.as_protocol_str(),
                        ),
                        fail_stop: false,
                    },
                ),
            );
        },
    };
    Ok((operation, ActiveTransition::Submit(command)))
}

/// The command that bootstraps a replacement.
pub open spec fn bootstrap_command(admission: crate::authority::ReplacementAdmission) ->
    DocumentControlCommand {
    DocumentControlCommand::BootstrapReplacementPipeline {
        source_pipeline_id: admission.source_pipeline_id,
        pipeline_id: admission.pipeline_id,
    }
}

pub(crate) fn bootstrap_of(admission: crate::authority::ReplacementAdmission) -> (r:
    DocumentControlCommand)
    ensures
        r == bootstrap_command(admission),
{
    DocumentControlCommand::BootstrapReplacementPipeline {
        source_pipeline_id: admission.source_pipeline_id,
        pipeline_id: admission.pipeline_id,
    }
}

/// Whether the coordinator replied with exactly this command.
pub open spec fn replied_with(progress: SettleProgress, command: DocumentControlCommand) -> bool {
    progress == SettleProgress::Command(command)
}

pub(crate) fn is_reply(progress: &SettleProgress, command: DocumentControlCommand) -> (r: bool)
    ensures
        r == replied_with(*progress, command),
{
    match progress {
        SettleProgress::Command(reply) => *reply == command,
        _ => false,
    }
}

/// How a projection goes on at a replacement.
pub open spec fn replacement_restart(
    resume: SettleProjectionResume,
    source: Arc<SessionNavigationAuthority>,
    admitted: Arc<SessionNavigationAuthority>,
    pending_target: Arc<PendingTarget>,
    effect: RequestStateEffect,
    answers: Answers,
) -> Result<(ActiveOperation, TransitionView), TransitionView> {
    match replacement_admission(source@, admitted@) {
        None => Err(
            TransitionView::Fail(
                hard_failure(
                    fatal_error(
                        "navigation_authority_changed"@,
                        "session projection did not observe one exact replacement admission"@,
                        effect_text(effect),
                    ),
                ),
            ),
        ),
        Some(admission) => {
            let bootstrap = bootstrap_command(admission);
            match answers.progress {
                None => Err(
                    TransitionView::Consult(
                        Consultation::StartReplacementBootstrap {
                            policy: resume.effective_policy,
                            latched_external_io: false,
                            bootstrap,
                        },
                    ),
                ),
                Some(Err(error)) => Err(
                    TransitionView::Fail(
                        settle_failure_for_response_view(error, effect, None, resume.response),
                    ),
                ),
                Some(Ok(progress)) => if replied_with(progress, bootstrap) {
                    Ok(
                        (
                            ActiveOperation::Settle(
                                resumed_settle(
                                    resume,
                                    Some(source),
                                    Some(
                                        SettleReplacementPhase::Bootstrapping {
                                            source,
                                            admitted,
                                            command: bootstrap,
                                        },
                                    ),
                                    Some(pending_target),
                                ),
                            ),
                            TransitionView::Submit(bootstrap),
                        ),
                    )
                } else {
                    Err(
                        internal_transition(
                            "projection replacement did not issue its exact bootstrap command"@,
                            effect,
                        ),
                    )
                },
            }
        },
    }
}

pub fn resume_session_projection_at_replacement(
    resume: &SettleProjectionResume,
    source: &Arc<SessionNavigationAuthority>,
    admitted: &Arc<SessionNavigationAuthority>,
    pending_target: &Arc<PendingTarget>,
    state_effect: RequestStateEffect,
    answers: &Answers,
) -> (r: Result<(ActiveOperation, ActiveTransition), ActiveTransition>)
    ensures
        match r {
            Ok((operation, transition)) => replacement_restart(
                *resume,
                *source,
                *admitted,
                *pending_target,
                state_effect,
                *answers,
            ) == Ok::<(ActiveOperation, TransitionView), TransitionView>((operation, transition@)),
            Err(transition) => replacement_restart(
                *resume,
                *source,
                *admitted,
                *pending_target,
                state_effect,
                *answers,
            ) == Err::<(ActiveOperation, TransitionView), TransitionView>(transition@),
        },
{
    let admission = match exact_replacement_admission(source, admitted) {
        Some(admission) => admission,
        None => {
            return Err(
                ActiveTransition::Fail(
                    ActiveFailure {
                        error: fatal_operation(
                            "navigation_authority_changed",
                            "session projection did not observe one exact replacement admission",
                            state_effect.as_protocol_str(),
                        ),
                        fail_stop: true,
                    },
                ),
            );
        },
    };
    let bootstrap = bootstrap_of(admission);
    match &answers.progress {
        None => Err(
            ActiveTransition::Consult(
                Consultation::StartReplacementBootstrap {
                    policy: resume.effective_policy,
                    latched_external_io: false,
                    bootstrap,
                },
            ),
        ),
        Some(Err(error)) => Err(
            ActiveTransition::Fail(
                settle_failure_for_response(error, state_effect, None, &resume.response),
            ),
        ),
        Some(Ok(progress)) => if is_reply(progress, bootstrap) {
            Ok(
                (
                    ActiveOperation::Settle(
                        SettleState {
                            profile: resume.profile,
                            authorizing_document_state: None,
                            authorizing_observation: None,
                            authorizing_navigation: Some(source.clone()),
                            replacement: Some(
                                SettleReplacementPhase::Bootstrapping {
                                    source: source.clone(),
                                    admitted: admitted.clone(),
                                    command: bootstrap,
                                },
                            ),
                            authority_bound_command: None,
                            latest_pending_target: Some(pending_target.clone()),
                            response: resume.response.copy(),
                            effective_policy: resume.effective_policy,
                            cumulative_external_io_wall_time_ns:
                                resume.cumulative_external_io_wall_time_ns,
                            waiting: None,
                        },
                    ),
                    ActiveTransition::Submit(bootstrap),
                ),
            )
        } else {
            Err(
                projection_shape_failure(
                    "projection replacement did not issue its exact bootstrap command",
                    state_effect,
                ),
            )
        },
    }
}

/// Whether no engine work but the one that was asked for may run during an operation.
pub open spec fn suppresses_pump(operation: ActiveOperation) -> bool {
    match operation {
        ActiveOperation::SessionProjection(state) => match state.phase {
            SessionProjectionPhase::AwaitingStableNavigation { .. } => true,
            SessionProjectionPhase::AwaitingReplacementAdmission { .. } => true,
            SessionProjectionPhase::AwaitingInitialNavigation => match state.kind {
                SessionProjectionKind::Automation { .. } => true,
                SessionProjectionKind::Value { .. } => suppresses_initial_pump(state.kind),
                _ => false,
            },
            SessionProjectionPhase::AwaitingPendingObservation { .. } => false,
        },
        ActiveOperation::Settle(state) => {
            ||| state.replacement is Some && (state.replacement->0 is AwaitingAdmission
                || state.replacement->0 is AwaitingActivation)
            ||| state.authority_bound_command is Some
            ||| state.authorizing_document_state is Some
        },
        ActiveOperation::Automation(state) => state.completed is Some,
        _ => false,
    }
}

pub fn active_operation_suppresses_servo_pump(operation: &ActiveOperation) -> (r: bool)
    ensures
        r == suppresses_pump(*operation),
{
    match operation {
        ActiveOperation::SessionProjection(state) => match &state.phase {
            SessionProjectionPhase::AwaitingStableNavigation { .. } => true,
            SessionProjectionPhase::AwaitingReplacementAdmission { .. } => true,
            SessionProjectionPhase::AwaitingInitialNavigation => match &state.kind {
                SessionProjectionKind::Automation { .. } => true,
                SessionProjectionKind::Value { .. } => session_projection_suppresses_initial_pump(
                    &state.kind,
                ),
                _ => false,
            },
            SessionProjectionPhase::AwaitingPendingObservation { .. } => false,
        },
        ActiveOperation::Settle(state) => {
            let awaiting = match &state.replacement {
                Some(SettleReplacementPhase::AwaitingAdmission { .. }) => true,
                Some(SettleReplacementPhase::AwaitingActivation { .. }) => true,
                _ => false,
            };
            awaiting || state.authority_bound_command.is_some()
                || state.authorizing_document_state.is_some()
        },
        ActiveOperation::Automation(state) => state.completed.is_some(),
        _ => false,
    }
}

/// Whether the engine is to be pumped.
pub fn should_pump_servo(
    active: Option<&ActiveRequest>,
    force_initial_pump: bool,
    servo_changed: bool,
) -> (r: bool)
    ensures
        r == (!(active is Some && suppresses_pump(active->0.operation)) && (force_initial_pump
            || servo_changed)),
{
    let suppressed = match active {
        Some(active) => active_operation_suppresses_servo_pump(&active.operation),
        None => false,
    };
    !suppressed && (force_initial_pump || servo_changed)
}

/// Whether an operation waits for a session-navigation response.
pub open spec fn expects_navigation(operation: ActiveOperation) -> bool {
    match operation {
        ActiveOperation::AdvanceToNext(
            AdvanceToNextState::Observing { expected_state_token: Some(_), navigation: None },
        ) => true,
        ActiveOperation::Settle(state) => {
            ||| state.authorizing_document_state is Some && (state.authorizing_navigation is None
                || state.authorizing_observation is Some)
            ||| state.replacement is Some && (state.replacement->0 is AwaitingAdmission
                || state.replacement->0 is AwaitingActivation)
            ||| state.authority_bound_command is Some
        },
        ActiveOperation::Automation(state) => session_api(state.profile) && ((
        state.unresolved is Some && state.authorizing_navigation is None)
            || state.completed is Some),
        ActiveOperation::Navigate(state) => state.phase is AwaitingAuthority
            || state.phase is AwaitingAdmission,
        ActiveOperation::SessionProjection(state) => !(state.phase is AwaitingPendingObservation),
        _ => false,
    }
}

pub fn active_expects_navigation_response(operation: &ActiveOperation) -> (r: bool)
    ensures
        r == expects_navigation(*operation),
{
    match operation {
        ActiveOperation::AdvanceToNext(state) => match state {
            AdvanceToNextState::Observing { expected_state_token, navigation } =>
            expected_state_token.is_some() && navigation.is_none(),
            AdvanceToNextState::Advancing { .. } => false,
        },
        ActiveOperation::Settle(state) => {
            let awaiting = match &state.replacement {
                Some(SettleReplacementPhase::AwaitingAdmission { .. }) => true,
                Some(SettleReplacementPhase::AwaitingActivation { .. }) => true,
                _ => false,
            };
            state.authorizing_document_state.is_some() && (state.authorizing_navigation.is_none()
                || state.authorizing_observation.is_some()) || awaiting
                || state.authority_bound_command.is_some()
        },
        ActiveOperation::Automation(state) => state.profile.supports_session_api() && (
        state.unresolved.is_some() && state.authorizing_navigation.is_none()
            || state.completed.is_some()),
        ActiveOperation::Navigate(state) => match &state.phase {
            NavigatePhase::AwaitingAuthority { .. } => true,
            NavigatePhase::AwaitingAdmission { .. } => true,
            _ => false,
        },
        ActiveOperation::SessionProjection(state) => match &state.phase {
            SessionProjectionPhase::AwaitingPendingObservation { .. } => false,
            _ => true,
        },
        _ => false,
    }
}

} // verus!
