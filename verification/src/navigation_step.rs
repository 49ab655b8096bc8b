//! What happens to the active request when a session-navigation operation has completed.

use serde_json::Value;
use std::sync::Arc;
use vstd::prelude::*;

use crate::active::{
    ActiveFailure, ActiveOperation, ActiveRequest, ActiveTransition, AdvanceToNextState, Answers,
    AutomationState, CompletedAutomation, Consultation, NavigatePhase, NavigateState,
    SessionProjectionKind, SessionProjectionPhase, SessionProjectionState, SettlePolicy,
    SettleProjectionResume, SettleReplacementPhase, SettleResponse, SettleState, TransitionView,
};
use crate::authority::{
    chain_ready, classify_replacement_activation_observation, exact_replacement_admission,
    explicit_navigation_chain_reached_controlled_ready,
    explicit_navigation_reached_controlled_ready, held_drive_replacement_target_progressed,
    held_target_progressed, initial_navigation_reached_controlled_ready, initial_ready,
    is_web_scheme, replacement_admission, replacement_progress, replacement_ready, same_authority,
    same_target, session_navigation_reached_controlled_ready, session_ready, web_scheme,
    PendingTarget, ReplacementActivationObservation, SessionNavigationAuthority,
};
use crate::control::{
    outcome_target, receive_outcome_pending_target, CurrentDocumentStateAuthority,
    DocumentControlCommand, DocumentControlObservation, DocumentControlReceiveOutcome,
    NavigationOperationCompletion, NavigationOperationKind, ProjectionError,
    SameDocumentSessionTransition, SessionNavigationError, SettleProgress,
};
use crate::control_step::{latch_and_reject_stale_settle_authority, stale_settle};
use crate::error::{fatal_error, fatal_operation};
use crate::failure::{
    activation_failure_view, hard_failure, harden_continuation_failure, hardened,
    internal_transition, mismatched_authority_view, mismatched_navigation_authority,
    missing_authority_view, missing_navigation_authority, navigation_activation_failure,
    navigation_failure_view, projection_shape_failure, session_navigation_failure,
    session_navigation_terminal_failure, settle_failure, settle_failure_for_response,
    settle_failure_for_response_view, settle_failure_view, terminal_failure_view,
    unexpected_completion_view, unexpected_navigation_completion,
};
use crate::json::{
    clone_value, get_member, insert_member, inserted, member_of, members_json, object_json,
    text_value, value_json, value_of, JsonView, NewValue,
};
use crate::profile::{
    effect_text, profile_id, session_api, RequestStateEffect, SessionProfile, SESSION_ID,
};
use crate::settle::{
    allows_rearm, bootstrap_command, bootstrap_of, drift_restart, is_reply, projection_error_str,
    projection_error_text, projection_resume_of, replacement_restart, replied_with,
    restart_session_projection_after_drift, resume_session_projection_at_replacement,
    serialize_result, serialized, session_projection_allows_replacement_rearm,
    session_projection_settle_resume, set_projection_authority, settle_progress, share,
    transition_from_settle_progress_for_active, with_resume_authority,
};
use crate::text::joined;

verus! {

/// A lost navigation response.
pub open spec fn lost_response(kind: NavigationOperationKind, effect: RequestStateEffect) ->
    TransitionView {
    TransitionView::Fail(
        hard_failure(
            if kind == NavigationOperationKind::Navigate {
                fatal_error(
                    "outcome_indeterminate"@,
                    "a written navigation lost its admission response"@,
                    "indeterminate"@,
                )
            } else {
                fatal_error(
                    "navigation_transport_failure"@,
                    "the engine lost a passive session-navigation observation"@,
                    effect_text(effect),
                )
            },
        ),
    )
}

/// The document state whose token a settlement is checking, before the first or before the second
/// passive observation.
pub open spec fn authorizing_state(operation: ActiveOperation) -> Option<
    Arc<CurrentDocumentStateAuthority>,
> {
    match operation {
        ActiveOperation::Settle(state) => if (state.authorizing_navigation is None)
            == (state.authorizing_observation is None) {
            state.authorizing_document_state
        } else {
            None
        },
        _ => None,
    }
}

/// The step after a held command was bound to the given navigation.
pub open spec fn held_release(
    state: SettleState,
    effect: RequestStateEffect,
    navigation: Arc<SessionNavigationAuthority>,
    before: SettleState,
    answers: Answers,
) -> (SettleState, RequestStateEffect, TransitionView) {
    let activation = match state.replacement {
        Some(SettleReplacementPhase::Activating { source, admitted }) => Some(
            replacement_progress(source@, admitted@, navigation@),
        ),
        _ => None,
    };
    let became_ready = activation == Some(ReplacementActivationObservation::ControlledReady);
    let released = SettleState {
        replacement: if became_ready {
            None
        } else {
            state.replacement
        },
        authority_bound_command: None,
        authorizing_navigation: Some(navigation),
        ..state
    };
    let release = (
        released,
        effect,
        TransitionView::Submit(state.authority_bound_command->0),
    );
    if activation == Some(ReplacementActivationObservation::Invalid) {
        (state, effect, activation_failure_view(effect, true))
    } else if state.replacement is None && state.authorizing_navigation is Some && session_ready(
        state.authorizing_navigation->0@,
    ) {
        match answers.same_document {
            None => (
                before,
                effect,
                TransitionView::Consult(
                    Consultation::ClassifySameDocument {
                        source: state.authorizing_navigation->0,
                        navigation,
                    },
                ),
            ),
            Some(Some(_)) => release,
            Some(None) => (state, effect, activation_failure_view(effect, true)),
        }
    } else {
        release
    }
}

/// A held turn that meets a replacement which was queued before the turn was submitted.
pub open spec fn held_rearm(
    state: SettleState,
    effect: RequestStateEffect,
    source: Arc<SessionNavigationAuthority>,
    navigation: Arc<SessionNavigationAuthority>,
    answers: Answers,
) -> (SettleState, RequestStateEffect, TransitionView) {
    let bootstrap = bootstrap_command(replacement_admission(source@, navigation@)->0);
    if state.authority_bound_command != Some(DocumentControlCommand::DriveOneTurn) {
        (
            state,
            effect,
            internal_transition(
                "replacement admission did not interrupt one unsubmitted settlement Drive"@,
                effect,
            ),
        )
    } else {
        match answers.progress {
            None => (
                state,
                effect,
                TransitionView::Consult(
                    Consultation::ReplaceUnsubmittedDrive { target: source.target, bootstrap },
                ),
            ),
            Some(Err(error)) => (
                state,
                effect,
                TransitionView::Fail(
                    settle_failure_for_response_view(
                        error,
                        effect,
                        Some(DocumentControlCommand::DriveOneTurn),
                        state.response,
                    ),
                ),
            ),
            Some(Ok(progress)) => if replied_with(progress, bootstrap) {
                (
                    SettleState {
                        authority_bound_command: None,
                        replacement: Some(
                            SettleReplacementPhase::Bootstrapping {
                                source,
                                admitted: navigation,
                                command: bootstrap,
                            },
                        ),
                        ..state
                    },
                    RequestStateEffect::Partial,
                    TransitionView::Submit(bootstrap),
                )
            } else {
                (
                    state,
                    effect,
                    internal_transition(
                        "replacement rearm did not issue its exact bootstrap command"@,
                        effect,
                    ),
                )
            },
        }
    }
}

/// Whether a held turn meets a replacement which was queued before the turn was submitted.
pub open spec fn queued_replacement(
    state: SettleState,
    target: Arc<PendingTarget>,
    navigation: Arc<SessionNavigationAuthority>,
) -> bool {
    &&& state.authorizing_navigation is Some
    &&& state.replacement is None
    &&& state.authorizing_navigation->0.target@ == target@
    &&& replacement_admission(state.authorizing_navigation->0@, navigation@) is Some
}

/// A settlement that holds a command and has just observed its navigation.
pub open spec fn held_command(
    state: SettleState,
    effect: RequestStateEffect,
    navigation: Arc<SessionNavigationAuthority>,
    answers: Answers,
) -> (SettleState, RequestStateEffect, TransitionView) {
    match state.latest_pending_target {
        None => (
            state,
            effect,
            internal_transition("a held settlement Drive lost its pending target"@, effect),
        ),
        Some(target) => if state.authorizing_navigation is None
            && state.response is ControlledOpen {
            if !web_scheme(navigation.scheme) || navigation.target.webview_id != target.webview_id
                || navigation.target.event_loop_id != target.event_loop_id {
                (state, effect, activation_failure_view(effect, true))
            } else {
                held_release(
                    SettleState { latest_pending_target: Some(navigation.target), ..state },
                    effect,
                    navigation,
                    state,
                    answers,
                )
            }
        } else if navigation.target@ == target@ {
            held_release(state, effect, navigation, state, answers)
        } else if queued_replacement(state, target, navigation) {
            held_rearm(state, effect, state.authorizing_navigation->0, navigation, answers)
        } else {
            match state.replacement {
                Some(SettleReplacementPhase::Activating { source, admitted }) =>
                if held_target_progressed(source@, admitted@, target@, navigation@) {
                    (
                        SettleState { latest_pending_target: Some(navigation.target), ..state },
                        effect,
                        TransitionView::Submit(DocumentControlCommand::Observe),
                    )
                } else {
                    (state, effect, activation_failure_view(effect, true))
                },
                _ => (state, effect, activation_failure_view(effect, true)),
            }
        },
    }
}

fn release_held(
    state: &mut SettleState,
    effect: RequestStateEffect,
    navigation: &Arc<SessionNavigationAuthority>,
    rebound_target: Option<Arc<PendingTarget>>,
    answers: &Answers,
) -> (transition: ActiveTransition)
    requires
        old(state).authority_bound_command is Some,
    ensures
        (*final(state), effect, transition@) == held_release(
            match rebound_target {
                Some(target) => SettleState { latest_pending_target: Some(target), ..*old(state) },
                None => *old(state),
            },
            effect,
            *navigation,
            *old(state),
            *answers,
        ),
{
    let mut became_ready = false;
    let mut invalid = false;
    if let Some(SettleReplacementPhase::Activating { source, admitted }) = &state.replacement {
        match classify_replacement_activation_observation(source, admitted, navigation) {
            ReplacementActivationObservation::ControlledReady => {
                became_ready = true;
            },
            ReplacementActivationObservation::Pending
            | ReplacementActivationObservation::ActivatedAwaitingSourceExit => {},
            ReplacementActivationObservation::Invalid => {
                invalid = true;
            },
        }
    }
    let mut drifted = false;
    if !invalid && state.replacement.is_none() {
        if let Some(source) = &state.authorizing_navigation {
            if session_navigation_reached_controlled_ready(source) {
                match answers.same_document {
                    None => {
                        return ActiveTransition::Consult(
                            Consultation::ClassifySameDocument {
                                source: source.clone(),
                                navigation: navigation.clone(),
                            },
                        );
                    },
                    Some(Some(_)) => {},
                    Some(None) => {
                        drifted = true;
                    },
                }
            }
        }
    }
    if let Some(target) = rebound_target {
        state.latest_pending_target = Some(target);
    }
    if invalid || drifted {
        return navigation_activation_failure(effect, true);
    }
    if became_ready {
        state.replacement = None;
    }
    let command = match state.authority_bound_command {
        Some(command) => command,
        None => DocumentControlCommand::Observe,
    };
    state.authority_bound_command = None;
    state.authorizing_navigation = Some(navigation.clone());
    ActiveTransition::Submit(command)
}

fn rearm_held(
    state: &mut SettleState,
    effect: RequestStateEffect,
    source: &Arc<SessionNavigationAuthority>,
    navigation: &Arc<SessionNavigationAuthority>,
    bootstrap: DocumentControlCommand,
    answers: &Answers,
) -> (r: (RequestStateEffect, ActiveTransition))
    requires
        replacement_admission(source@, navigation@) is Some,
        bootstrap == bootstrap_command(replacement_admission(source@, navigation@)->0),
    ensures
        (*final(state), r.0, r.1@) == held_rearm(
            *old(state),
            effect,
            *source,
            *navigation,
            *answers,
        ),
{
    let drive_is_held = match state.authority_bound_command {
        Some(command) => command == DocumentControlCommand::DriveOneTurn,
        None => false,
    };
    if !drive_is_held {
        return (
            effect,
            projection_shape_failure(
                "replacement admission did not interrupt one unsubmitted settlement Drive",
                effect,
            ),
        );
    }
    match &answers.progress {
        None => (
            effect,
            ActiveTransition::Consult(
                Consultation::ReplaceUnsubmittedDrive { target: source.target.clone(), bootstrap },
            ),
        ),
        Some(Err(error)) => (
            effect,
            ActiveTransition::Fail(
                settle_failure_for_response(
                    error,
                    effect,
                    Some(DocumentControlCommand::DriveOneTurn),
                    &state.response,
                ),
            ),
        ),
        Some(Ok(progress)) => if is_reply(progress, bootstrap) {
            state.authority_bound_command = None;
            state.replacement = Some(
                SettleReplacementPhase::Bootstrapping {
                    source: source.clone(),
                    admitted: navigation.clone(),
                    command: bootstrap,
                },
            );
            (RequestStateEffect::Partial, ActiveTransition::Submit(bootstrap))
        } else {
            (
                effect,
                projection_shape_failure(
                    "replacement rearm did not issue its exact bootstrap command",
                    effect,
                ),
            )
        },
    }
}

fn settle_held_command(
    state: &mut SettleState,
    effect: RequestStateEffect,
    navigation: &Arc<SessionNavigationAuthority>,
    answers: &Answers,
) -> (r: (RequestStateEffect, ActiveTransition))
    requires
        old(state).authority_bound_command is Some,
    ensures
        (*final(state), r.0, r.1@) == held_command(*old(state), effect, *navigation, *answers),
{
    let target = match &state.latest_pending_target {
        Some(target) => target.clone(),
        None => {
            return (
                effect,
                projection_shape_failure("a held settlement Drive lost its pending target", effect),
            );
        },
    };
    let opening = match state.response {
        SettleResponse::ControlledOpen { .. } => true,
        _ => false,
    };
    if state.authorizing_navigation.is_none() && opening {
        if !is_web_scheme(navigation.scheme) || navigation.target.webview_id != target.webview_id
            || navigation.target.event_loop_id != target.event_loop_id {
            return (effect, navigation_activation_failure(effect, true));
        }
        // The first bootstrap only proves the root's lifecycle event. Response headers may advance
        // the membership before the owner is observed, so the command is bound to the owner's view.

        return (
            effect,
            release_held(state, effect, navigation, Some(navigation.target.clone()), answers),
        );
    }
    if same_target(&navigation.target, &target) {
        return (effect, release_held(state, effect, navigation, None, answers));
    }
    let queued = match &state.authorizing_navigation {
        Some(source) => if state.replacement.is_none() && same_target(&source.target, &target) {
            match exact_replacement_admission(source, navigation) {
                Some(admission) => Some((source.clone(), bootstrap_of(admission))),
                None => None,
            }
        } else {
            None
        },
        None => None,
    };
    if let Some((source, bootstrap)) = queued {
        return rearm_held(state, effect, &source, navigation, bootstrap, answers);
    }
    let progressed = match &state.replacement {
        Some(SettleReplacementPhase::Activating { source, admitted }) =>
        held_drive_replacement_target_progressed(source, admitted, &target, navigation),
        _ => false,
    };
    if !progressed {
        return (effect, navigation_activation_failure(effect, true));
    }
    // The held command was bound right before the same replacement advanced. The document is
    // observed once more; the command stays held and is not repeated.

    state.latest_pending_target = Some(navigation.target.clone());
    (effect, ActiveTransition::Submit(DocumentControlCommand::Observe))
}

/// A settlement whose turn was left without a response, after the passive observation.
pub open spec fn awaited_admission(
    state: SettleState,
    source: Arc<SessionNavigationAuthority>,
    drive_outcome: Arc<DocumentControlReceiveOutcome>,
    effect: RequestStateEffect,
    navigation: Arc<SessionNavigationAuthority>,
    answers: Answers,
) -> (SettleState, TransitionView) {
    let taken = SettleState { replacement: None, ..state };
    match answers.same_document {
        None => (
            state,
            TransitionView::Consult(Consultation::ClassifySameDocument { source, navigation }),
        ),
        Some(Some(_)) => match answers.progress {
            None => (
                state,
                TransitionView::Consult(
                    Consultation::ConsumeStableBoundary {
                        outcome: drive_outcome,
                        cumulative_wall_time_ns: state.cumulative_external_io_wall_time_ns,
                    },
                ),
            ),
            Some(Err(error)) => (
                taken,
                TransitionView::Fail(
                    settle_failure_for_response_view(error, effect, None, state.response),
                ),
            ),
            Some(Ok(progress)) => if replied_with(progress, DocumentControlCommand::Observe) {
                (
                    SettleState {
                        latest_pending_target: Some(navigation.target),
                        authorizing_navigation: Some(navigation),
                        ..taken
                    },
                    TransitionView::Submit(DocumentControlCommand::Observe),
                )
            } else {
                (
                    taken,
                    internal_transition(
                        "stable authority boundary did not issue an Observe command"@,
                        effect,
                    ),
                )
            },
        },
        Some(None) => match replacement_admission(source@, navigation@) {
            None => (taken, activation_failure_view(effect, true)),
            Some(admission) => {
                let bootstrap = bootstrap_command(admission);
                match answers.progress {
                    None => (
                        state,
                        TransitionView::Consult(
                            Consultation::ConsumeReplacementBoundary {
                                outcome: drive_outcome,
                                cumulative_wall_time_ns: state.cumulative_external_io_wall_time_ns,
                                bootstrap,
                            },
                        ),
                    ),
                    Some(Err(error)) => (
                        taken,
                        TransitionView::Fail(
                            settle_failure_for_response_view(error, effect, None, state.response),
                        ),
                    ),
                    Some(Ok(progress)) => if replied_with(progress, bootstrap) {
                        (
                            SettleState {
                                replacement: Some(
                                    SettleReplacementPhase::Bootstrapping {
                                        source,
                                        admitted: navigation,
                                        command: bootstrap,
                                    },
                                ),
                                ..state
                            },
                            TransitionView::Submit(bootstrap),
                        )
                    } else {
                        (
                            taken,
                            internal_transition(
                                "replacement boundary did not issue its exact bootstrap command"@,
                                effect,
                            ),
                        )
                    },
                }
            },
        },
    }
}

fn settle_awaited_admission(
    state: &mut SettleState,
    source: &Arc<SessionNavigationAuthority>,
    drive_outcome: &Arc<DocumentControlReceiveOutcome>,
    effect: RequestStateEffect,
    navigation: &Arc<SessionNavigationAuthority>,
    answers: &Answers,
) -> (transition: ActiveTransition)
    ensures
        (*final(state), transition@) == awaited_admission(
            *old(state),
            *source,
            *drive_outcome,
            effect,
            *navigation,
            *answers,
        ),
{
    match answers.same_document {
        None => ActiveTransition::Consult(
            Consultation::ClassifySameDocument {
                source: source.clone(),
                navigation: navigation.clone(),
            },
        ),
        Some(Some(_)) => match &answers.progress {
            None => ActiveTransition::Consult(
                Consultation::ConsumeStableBoundary {
                    outcome: drive_outcome.clone(),
                    cumulative_wall_time_ns: state.cumulative_external_io_wall_time_ns,
                },
            ),
            Some(Err(error)) => {
                state.replacement = None;
                ActiveTransition::Fail(
                    settle_failure_for_response(error, effect, None, &state.response),
                )
            },
            Some(Ok(progress)) => {
                state.replacement = None;
                if is_reply(progress, DocumentControlCommand::Observe) {
                    state.latest_pending_target = Some(navigation.target.clone());
                    state.authorizing_navigation = Some(navigation.clone());
                    ActiveTransition::Submit(DocumentControlCommand::Observe)
                } else {
                    projection_shape_failure(
                        "stable authority boundary did not issue an Observe command",
                        effect,
                    )
                }
            },
        },
        Some(None) => {
            let bootstrap = match exact_replacement_admission(source, navigation) {
                Some(admission) => bootstrap_of(admission),
                None => {
                    state.replacement = None;
                    return navigation_activation_failure(effect, true);
                },
            };
            match &answers.progress {
                None => ActiveTransition::Consult(
                    Consultation::ConsumeReplacementBoundary {
                        outcome: drive_outcome.clone(),
                        cumulative_wall_time_ns: state.cumulative_external_io_wall_time_ns,
                        bootstrap,
                    },
                ),
                Some(Err(error)) => {
                    state.replacement = None;
                    ActiveTransition::Fail(
                        settle_failure_for_response(error, effect, None, &state.response),
                    )
                },
                Some(Ok(progress)) => if is_reply(progress, bootstrap) {
                    state.replacement = Some(
                        SettleReplacementPhase::Bootstrapping {
                            source: source.clone(),
                            admitted: navigation.clone(),
                            command: bootstrap,
                        },
                    );
                    ActiveTransition::Submit(bootstrap)
                } else {
                    state.replacement = None;
                    projection_shape_failure(
                        "replacement boundary did not issue its exact bootstrap command",
                        effect,
                    )
                },
            }
        },
    }
}

/// The settlement and its next step after a reply, unless the step asks for an answer first.
pub open spec fn after_reply(
    before: SettleState,
    next: SettleState,
    started_at: u64,
    progress: SettleProgress,
    effect: RequestStateEffect,
    answers: Answers,
) -> (SettleState, TransitionView) {
    let (state, transition) = settle_progress(next, started_at, progress, effect, answers);
    if transition is Consult {
        (before, transition)
    } else {
        (state, transition)
    }
}

fn apply_reply(
    state: &mut SettleState,
    next: SettleState,
    started_at: u64,
    progress: &SettleProgress,
    effect: RequestStateEffect,
    answers: &Answers,
) -> (transition: ActiveTransition)
    ensures
        (*final(state), transition@) == after_reply(
            *old(state),
            next,
            started_at,
            *progress,
            effect,
            *answers,
        ),
{
    let mut next = next;
    let transition = transition_from_settle_progress_for_active(
        &mut next,
        started_at,
        progress,
        effect,
        answers,
    );
    match &transition {
        ActiveTransition::Consult(_) => {},
        _ => {
            *state = next;
        },
    }
    transition
}

/// A settlement that holds an outcome while the replacement becomes active.
pub open spec fn awaited_activation(
    state: SettleState,
    started_at: u64,
    source: Arc<SessionNavigationAuthority>,
    admitted: Arc<SessionNavigationAuthority>,
    command: DocumentControlCommand,
    control_outcome: Arc<DocumentControlReceiveOutcome>,
    network_active: bool,
    effect: RequestStateEffect,
    navigation: Arc<SessionNavigationAuthority>,
    answers: Answers,
) -> (SettleState, TransitionView) {
    let progress = replacement_progress(source@, admitted@, navigation@);
    if progress == ReplacementActivationObservation::Invalid {
        (SettleState { replacement: None, ..state }, activation_failure_view(effect, true))
    } else {
        let ready = progress == ReplacementActivationObservation::ControlledReady && (
        outcome_target(*control_outcome) is Some && outcome_target(*control_outcome)->0@
            == navigation.target@);
        let next = if ready {
            SettleState {
                latest_pending_target: Some(navigation.target),
                authorizing_navigation: Some(navigation),
                replacement: None,
                ..state
            }
        } else {
            SettleState {
                replacement: Some(SettleReplacementPhase::Activating { source, admitted }),
                ..state
            }
        };
        match answers.progress {
            None => (
                state,
                TransitionView::Consult(
                    Consultation::ConsumeOutcome {
                        outcome: control_outcome,
                        cumulative_wall_time_ns: state.cumulative_external_io_wall_time_ns,
                        external_io_active: if ready {
                            network_active
                        } else {
                            true
                        },
                    },
                ),
            ),
            Some(Ok(progress)) => after_reply(state, next, started_at, progress, effect, answers),
            Some(Err(error)) => (
                next,
                TransitionView::Fail(
                    settle_failure_for_response_view(error, effect, Some(command), state.response),
                ),
            ),
        }
    }
}

fn settle_awaited_activation(
    state: &mut SettleState,
    started_at: u64,
    source: &Arc<SessionNavigationAuthority>,
    admitted: &Arc<SessionNavigationAuthority>,
    command: DocumentControlCommand,
    control_outcome: &Arc<DocumentControlReceiveOutcome>,
    network_active: bool,
    effect: RequestStateEffect,
    navigation: &Arc<SessionNavigationAuthority>,
    answers: &Answers,
) -> (transition: ActiveTransition)
    ensures
        (*final(state), transition@) == awaited_activation(
            *old(state),
            started_at,
            *source,
            *admitted,
            command,
            *control_outcome,
            network_active,
            effect,
            *navigation,
            *answers,
        ),
{
    let observed = classify_replacement_activation_observation(source, admitted, navigation);
    if observed == ReplacementActivationObservation::Invalid {
        state.replacement = None;
        return navigation_activation_failure(effect, true);
    }
    let document_target_matches = match receive_outcome_pending_target(control_outcome) {
        Some(target) => same_target(&target, &navigation.target),
        None => false,
    };
    let ready = observed == ReplacementActivationObservation::ControlledReady
        && document_target_matches;
    let mut next = state.copy();
    if ready {
        // A later turn may cross another replacement, which is then bound to this document.
        next.latest_pending_target = Some(navigation.target.clone());
        next.authorizing_navigation = Some(navigation.clone());
        next.replacement = None;
    } else {
        // An incomplete replacement is foreground work of the settlement.
        next.replacement = Some(
            SettleReplacementPhase::Activating {
                source: source.clone(),
                admitted: admitted.clone(),
            },
        );
    }
    match &answers.progress {
        None => ActiveTransition::Consult(
            Consultation::ConsumeOutcome {
                outcome: control_outcome.clone(),
                cumulative_wall_time_ns: state.cumulative_external_io_wall_time_ns,
                external_io_active: if ready {
                    network_active
                } else {
                    true
                },
            },
        ),
        Some(Ok(progress)) => apply_reply(state, next, started_at, progress, effect, answers),
        Some(Err(error)) => {
            *state = next;
            ActiveTransition::Fail(
                settle_failure_for_response(error, effect, Some(command), &state.response),
            )
        },
    }
}

/// A settlement that has checked its token: the second passive observation must confirm the first.
pub open spec fn confirmed_authorization(
    state: SettleState,
    started_at: u64,
    expected: Arc<CurrentDocumentStateAuthority>,
    observation: Arc<DocumentControlObservation>,
    first: Arc<SessionNavigationAuthority>,
    effect: RequestStateEffect,
    navigation: Arc<SessionNavigationAuthority>,
    network_active: bool,
    answers: Answers,
) -> (SettleState, TransitionView) {
    let taken = SettleState {
        authorizing_document_state: None,
        authorizing_observation: None,
        ..state
    };
    let stale = stale_settle(expected, effect, answers);
    let rejected = (
        if stale is Consult {
            state
        } else {
            taken
        },
        stale,
    );
    if navigation@ != first@ {
        rejected
    } else {
        match answers.matches_navigation {
            None => (
                state,
                TransitionView::Consult(
                    Consultation::MatchNavigation { authority: expected, navigation },
                ),
            ),
            Some(matches_navigation) => if !matches_navigation || observation.pending.target@
                != expected.target@ || navigation.target@ != observation.pending.target@ {
                rejected
            } else if observation.pending.state_generation < expected.state_generation {
                (
                    taken,
                    internal_transition(
                        "settlement token authority observed a regressed runtime generation"@,
                        effect,
                    ),
                )
            } else {
                let next = SettleState {
                    latest_pending_target: Some(observation.pending.target),
                    authorizing_navigation: Some(navigation),
                    ..taken
                };
                match answers.progress {
                    None => (
                        state,
                        TransitionView::Consult(
                            Consultation::StartWithObservation {
                                observation,
                                cumulative_wall_time_ns: state.cumulative_external_io_wall_time_ns,
                                external_io_active: network_active,
                            },
                        ),
                    ),
                    Some(Ok(progress)) => after_reply(
                        state,
                        next,
                        started_at,
                        progress,
                        effect,
                        answers,
                    ),
                    Some(Err(error)) => (
                        next,
                        TransitionView::Fail(
                            settle_failure_for_response_view(
                                error,
                                effect,
                                Some(DocumentControlCommand::Observe),
                                state.response,
                            ),
                        ),
                    ),
                }
            },
        }
    }
}

fn reject_stale_settle(
    state: &mut SettleState,
    expected: &Arc<CurrentDocumentStateAuthority>,
    effect: RequestStateEffect,
    answers: &Answers,
) -> (transition: ActiveTransition)
    ensures
        transition@ == stale_settle(*expected, effect, *answers),
        *final(state) == if transition@ is Consult {
            *old(state)
        } else {
            SettleState {
                authorizing_document_state: None,
                authorizing_observation: None,
                ..*old(state)
            }
        },
{
    let transition = latch_and_reject_stale_settle_authority(expected, effect, answers);
    match &transition {
        ActiveTransition::Consult(_) => {},
        _ => {
            state.authorizing_document_state = None;
            state.authorizing_observation = None;
        },
    }
    transition
}

fn settle_confirmed_authorization(
    state: &mut SettleState,
    started_at: u64,
    expected: &Arc<CurrentDocumentStateAuthority>,
    observation: &Arc<DocumentControlObservation>,
    first: &Arc<SessionNavigationAuthority>,
    effect: RequestStateEffect,
    navigation: &Arc<SessionNavigationAuthority>,
    network_active: bool,
    answers: &Answers,
) -> (transition: ActiveTransition)
    ensures
        (*final(state), transition@) == confirmed_authorization(
            *old(state),
            started_at,
            *expected,
            *observation,
            *first,
            effect,
            *navigation,
            network_active,
            *answers,
        ),
{
    if !same_authority(navigation, first) {
        return reject_stale_settle(state, expected, effect, answers);
    }
    let matches_navigation = match answers.matches_navigation {
        None => {
            return ActiveTransition::Consult(
                Consultation::MatchNavigation {
                    authority: expected.clone(),
                    navigation: navigation.clone(),
                },
            );
        },
        Some(matches_navigation) => matches_navigation,
    };
    if !matches_navigation || !same_target(&observation.pending.target, &expected.target)
        || !same_target(&navigation.target, &observation.pending.target) {
        return reject_stale_settle(state, expected, effect, answers);
    }
    if observation.pending.state_generation < expected.state_generation {
        state.authorizing_document_state = None;
        state.authorizing_observation = None;
        return projection_shape_failure(
            "settlement token authority observed a regressed runtime generation",
            effect,
        );
    }
    let mut next = state.copy();
    next.authorizing_document_state = None;
    next.authorizing_observation = None;
    next.latest_pending_target = Some(observation.pending.target.clone());
    next.authorizing_navigation = Some(navigation.clone());
    match &answers.progress {
        None => ActiveTransition::Consult(
            Consultation::StartWithObservation {
                observation: observation.clone(),
                cumulative_wall_time_ns: state.cumulative_external_io_wall_time_ns,
                external_io_active: network_active,
            },
        ),
        Some(Ok(progress)) => apply_reply(state, next, started_at, progress, effect, answers),
        Some(Err(error)) => {
            *state = next;
            ActiveTransition::Fail(
                settle_failure_for_response(
                    error,
                    effect,
                    Some(DocumentControlCommand::Observe),
                    &state.response,
                ),
            )
        },
    }
}

/// A settlement before the first passive observation of its token's check.
pub open spec fn first_authorization(
    state: SettleState,
    expected: Arc<CurrentDocumentStateAuthority>,
    effect: RequestStateEffect,
    navigation: Arc<SessionNavigationAuthority>,
    answers: Answers,
) -> (SettleState, TransitionView) {
    match answers.matches_navigation {
        None => (
            state,
            TransitionView::Consult(
                Consultation::MatchNavigation { authority: expected, navigation },
            ),
        ),
        Some(false) => (state, stale_settle(expected, effect, answers)),
        Some(true) => (
            SettleState { authorizing_navigation: Some(navigation), ..state },
            TransitionView::Submit(DocumentControlCommand::Observe),
        ),
    }
}

/// A settlement after a passive observation.
pub open spec fn settle_navigation(
    state: SettleState,
    started_at: u64,
    effect: RequestStateEffect,
    navigation: Arc<SessionNavigationAuthority>,
    network_active: bool,
    answers: Answers,
) -> (SettleState, RequestStateEffect, TransitionView) {
    if state.authority_bound_command is Some {
        held_command(state, effect, navigation, answers)
    } else {
        match state.replacement {
            Some(SettleReplacementPhase::AwaitingAdmission { source, drive_outcome }) => {
                let (state, transition) = awaited_admission(
                    state,
                    source,
                    drive_outcome,
                    effect,
                    navigation,
                    answers,
                );
                (state, effect, transition)
            },
            Some(
                SettleReplacementPhase::AwaitingActivation {
                    source,
                    admitted,
                    command,
                    control_outcome,
                    controlled_network_active,
                },
            ) => {
                let (state, transition) = awaited_activation(
                    state,
                    started_at,
                    source,
                    admitted,
                    command,
                    control_outcome,
                    controlled_network_active,
                    effect,
                    navigation,
                    answers,
                );
                (state, effect, transition)
            },
            _ => match (
                state.authorizing_document_state,
                state.authorizing_navigation,
                state.authorizing_observation,
            ) {
                (Some(expected), Some(first), Some(observation)) => {
                    let (state, transition) = confirmed_authorization(
                        state,
                        started_at,
                        expected,
                        observation,
                        first,
                        effect,
                        navigation,
                        network_active,
                        answers,
                    );
                    (state, effect, transition)
                },
                (Some(expected), None, _) => {
                    let (state, transition) = first_authorization(
                        state,
                        expected,
                        effect,
                        navigation,
                        answers,
                    );
                    (state, effect, transition)
                },
                _ => (state, effect, unexpected_completion_view(effect)),
            },
        }
    }
}

fn settle_observed(
    state: &mut SettleState,
    started_at: u64,
    effect: RequestStateEffect,
    navigation: &Arc<SessionNavigationAuthority>,
    network_active: bool,
    answers: &Answers,
) -> (r: (RequestStateEffect, ActiveTransition))
    ensures
        (*final(state), r.0, r.1@) == settle_navigation(
            *old(state),
            started_at,
            effect,
            *navigation,
            network_active,
            *answers,
        ),
{
    if state.authority_bound_command.is_some() {
        return settle_held_command(state, effect, navigation, answers);
    }
    let phase = match &state.replacement {
        Some(phase) => Some(phase.copy()),
        None => None,
    };
    match &phase {
        Some(SettleReplacementPhase::AwaitingAdmission { source, drive_outcome }) => {
            return (
                effect,
                settle_awaited_admission(
                    state,
                    source,
                    drive_outcome,
                    effect,
                    navigation,
                    answers,
                ),
            );
        },
        Some(
            SettleReplacementPhase::AwaitingActivation {
                source,
                admitted,
                command,
                control_outcome,
                controlled_network_active,
            },
        ) => {
            return (
                effect,
                settle_awaited_activation(
                    state,
                    started_at,
                    source,
                    admitted,
                    *command,
                    control_outcome,
                    *controlled_network_active,
                    effect,
                    navigation,
                    answers,
                ),
            );
        },
        _ => {},
    }
    let expected = match &state.authorizing_document_state {
        Some(expected) => expected.clone(),
        None => {
            return (effect, unexpected_navigation_completion(effect));
        },
    };
    let first = share(&state.authorizing_navigation);
    let observation = match &state.authorizing_observation {
        Some(observation) => Some(observation.clone()),
        None => None,
    };
    match (first, observation) {
        (Some(first), Some(observation)) => (
            effect,
            settle_confirmed_authorization(
                state,
                started_at,
                &expected,
                &observation,
                &first,
                effect,
                navigation,
                network_active,
                answers,
            ),
        ),
        (None, _) => match answers.matches_navigation {
            None => (
                effect,
                ActiveTransition::Consult(
                    Consultation::MatchNavigation {
                        authority: expected,
                        navigation: navigation.clone(),
                    },
                ),
            ),
            Some(false) => (
                effect,
                latch_and_reject_stale_settle_authority(&expected, effect, answers),
            ),
            Some(true) => {
                state.authorizing_navigation = Some(navigation.clone());
                (effect, ActiveTransition::Submit(DocumentControlCommand::Observe))
            },
        },
        _ => (effect, unexpected_navigation_completion(effect)),
    }
}

/// The settlement that carries an action over to the document which it navigated to.
pub open spec fn action_settle(
    state: AutomationState,
    completed: CompletedAutomation,
    source: Arc<SessionNavigationAuthority>,
    admitted: Arc<SessionNavigationAuthority>,
    bootstrap: DocumentControlCommand,
) -> SettleState {
    SettleState {
        profile: state.profile,
        authorizing_document_state: None,
        authorizing_observation: None,
        authorizing_navigation: Some(source),
        replacement: Some(
            SettleReplacementPhase::Bootstrapping { source, admitted, command: bootstrap },
        ),
        authority_bound_command: None,
        latest_pending_target: Some(completed.pending.target),
        response: SettleResponse::Automation { kind: state.kind, result: completed.result },
        effective_policy: SettlePolicy::ProductDefault,
        cumulative_external_io_wall_time_ns: 0,
        waiting: None,
    }
}

/// The projection of an action that stayed in its document.
pub open spec fn action_projection(
    state: AutomationState,
    completed: CompletedAutomation,
    navigation: Arc<SessionNavigationAuthority>,
) -> SessionProjectionState {
    SessionProjectionState {
        pending: completed.pending,
        kind: SessionProjectionKind::Automation {
            settle_resume: SettleProjectionResume {
                profile: state.profile,
                effective_policy: SettlePolicy::ProductDefault,
                cumulative_external_io_wall_time_ns: 0,
                authorizing_navigation: Some(navigation),
                response: SettleResponse::Automation { kind: state.kind, result: completed.result },
            },
            replacement_rearm: completed.synchronous_navigation_emitted,
        },
        phase: SessionProjectionPhase::AwaitingPendingObservation { navigation },
    }
}

/// A completed action after the passive observation.
pub open spec fn action_navigation(
    state: AutomationState,
    completed: CompletedAutomation,
    effect: RequestStateEffect,
    navigation: Arc<SessionNavigationAuthority>,
    answers: Answers,
) -> (AutomationState, Option<ActiveOperation>, TransitionView) {
    let taken = AutomationState { completed: None, ..state };
    match state.authorizing_navigation {
        None => (state, None, missing_authority_view("completed session automation"@)),
        Some(source) => if completed.pending.target@ != source.target@ {
            (taken, None, activation_failure_view(effect, true))
        } else if completed.synchronous_navigation_emitted && replacement_admission(
            source@,
            navigation@,
        ) is Some {
            let bootstrap = bootstrap_command(replacement_admission(source@, navigation@)->0);
            match answers.progress {
                None => (
                    state,
                    None,
                    TransitionView::Consult(
                        Consultation::StartReplacementBootstrap {
                            policy: SettlePolicy::ProductDefault,
                            latched_external_io: false,
                            bootstrap,
                        },
                    ),
                ),
                Some(Err(error)) => (
                    taken,
                    None,
                    TransitionView::Fail(
                        hardened(settle_failure_view(error, effect, None), effect),
                    ),
                ),
                Some(Ok(progress)) => if replied_with(progress, bootstrap) {
                    (
                        taken,
                        Some(
                            ActiveOperation::Settle(
                                action_settle(state, completed, source, navigation, bootstrap),
                            ),
                        ),
                        TransitionView::Submit(bootstrap),
                    )
                } else {
                    (
                        taken,
                        None,
                        internal_transition(
                            "automation replacement did not issue its exact bootstrap command"@,
                            effect,
                        ),
                    )
                },
            }
        } else {
            match answers.same_document {
                None => (
                    state,
                    None,
                    TransitionView::Consult(
                        Consultation::ClassifySameDocument { source, navigation },
                    ),
                ),
                Some(change) => if change is Some && (completed.synchronous_navigation_emitted
                    || change->0 == SameDocumentSessionTransition::Unchanged) {
                    (
                        taken,
                        Some(
                            ActiveOperation::SessionProjection(
                                action_projection(state, completed, navigation),
                            ),
                        ),
                        TransitionView::Submit(DocumentControlCommand::Observe),
                    )
                } else {
                    (taken, None, activation_failure_view(effect, true))
                },
            }
        },
    }
}

/// An automation request after a passive observation.
pub open spec fn automation_navigation(
    state: AutomationState,
    effect: RequestStateEffect,
    navigation: Arc<SessionNavigationAuthority>,
    answers: Answers,
) -> (AutomationState, Option<ActiveOperation>, TransitionView) {
    if !session_api(state.profile) {
        (state, None, unexpected_completion_view(effect))
    } else if state.unresolved is Some && state.authorizing_navigation is None {
        (
            AutomationState { authorizing_navigation: Some(navigation), ..state },
            None,
            TransitionView::Submit(DocumentControlCommand::Observe),
        )
    } else {
        match state.completed {
            Some(completed) => action_navigation(state, completed, effect, navigation, answers),
            None => (state, None, unexpected_completion_view(effect)),
        }
    }
}

fn action_observed(
    state: &mut AutomationState,
    completed: CompletedAutomation,
    effect: RequestStateEffect,
    navigation: &Arc<SessionNavigationAuthority>,
    answers: &Answers,
) -> (r: (Option<ActiveOperation>, ActiveTransition))
    requires
        old(state).completed is None,
    ensures
        (*final(state), r.0, r.1@) == action_navigation(
            AutomationState { completed: Some(completed), ..*old(state) },
            completed,
            effect,
            *navigation,
            *answers,
        ),
{
    let source = match &state.authorizing_navigation {
        Some(source) => source.clone(),
        None => {
            state.completed = Some(completed);
            return (None, missing_navigation_authority("completed session automation"));
        },
    };
    if !same_target(&completed.pending.target, &source.target) {
        return (None, navigation_activation_failure(effect, true));
    }
    let emitted = completed.synchronous_navigation_emitted;
    let admission = if emitted {
        exact_replacement_admission(&source, navigation)
    } else {
        None
    };
    if let Some(admission) = admission {
        let bootstrap = bootstrap_of(admission);
        return match &answers.progress {
            None => {
                state.completed = Some(completed);
                (
                    None,
                    ActiveTransition::Consult(
                        Consultation::StartReplacementBootstrap {
                            policy: SettlePolicy::ProductDefault,
                            latched_external_io: false,
                            bootstrap,
                        },
                    ),
                )
            },
            Some(Err(error)) => (
                None,
                ActiveTransition::Fail(
                    harden_continuation_failure(settle_failure(error, effect, None), effect),
                ),
            ),
            Some(Ok(progress)) => if is_reply(progress, bootstrap) {
                (
                    Some(
                        ActiveOperation::Settle(
                            SettleState {
                                profile: state.profile,
                                authorizing_document_state: None,
                                authorizing_observation: None,
                                authorizing_navigation: Some(source.clone()),
                                replacement: Some(
                                    SettleReplacementPhase::Bootstrapping {
                                        source,
                                        admitted: navigation.clone(),
                                        command: bootstrap,
                                    },
                                ),
                                authority_bound_command: None,
                                latest_pending_target: Some(completed.pending.target.clone()),
                                response: SettleResponse::Automation {
                                    kind: state.kind,
                                    result: completed.result,
                                },
                                effective_policy: SettlePolicy::ProductDefault,
                                cumulative_external_io_wall_time_ns: 0,
                                waiting: None,
                            },
                        ),
                    ),
                    ActiveTransition::Submit(bootstrap),
                )
            } else {
                (
                    None,
                    projection_shape_failure(
                        "automation replacement did not issue its exact bootstrap command",
                        effect,
                    ),
                )
            },
        };
    }
    match answers.same_document {
        None => {
            state.completed = Some(completed);
            (
                None,
                ActiveTransition::Consult(
                    Consultation::ClassifySameDocument { source, navigation: navigation.clone() },
                ),
            )
        },
        Some(change) => {
            let stayed = match change {
                Some(change) => emitted || change == SameDocumentSessionTransition::Unchanged,
                None => false,
            };
            if !stayed {
                return (None, navigation_activation_failure(effect, true));
            }
            // The snapshot proves that the action ended in its document; it is not published. The
            // next observation supplies the fresh one.

            (
                Some(
                    ActiveOperation::SessionProjection(
                        SessionProjectionState {
                            pending: completed.pending.clone(),
                            kind: SessionProjectionKind::Automation {
                                settle_resume: SettleProjectionResume {
                                    profile: state.profile,
                                    effective_policy: SettlePolicy::ProductDefault,
                                    cumulative_external_io_wall_time_ns: 0,
                                    authorizing_navigation: Some(navigation.clone()),
                                    response: SettleResponse::Automation {
                                        kind: state.kind,
                                        result: completed.result,
                                    },
                                },
                                replacement_rearm: emitted,
                            },
                            phase: SessionProjectionPhase::AwaitingPendingObservation {
                                navigation: navigation.clone(),
                            },
                        },
                    ),
                ),
                ActiveTransition::Submit(DocumentControlCommand::Observe),
            )
        },
    }
}

fn automation_observed(
    state: &mut AutomationState,
    effect: RequestStateEffect,
    navigation: &Arc<SessionNavigationAuthority>,
    answers: &Answers,
) -> (r: (Option<ActiveOperation>, ActiveTransition))
    ensures
        (*final(state), r.0, r.1@) == automation_navigation(
            *old(state),
            effect,
            *navigation,
            *answers,
        ),
{
    if !state.profile.supports_session_api() {
        return (None, unexpected_navigation_completion(effect));
    }
    if state.unresolved.is_some() && state.authorizing_navigation.is_none() {
        state.authorizing_navigation = Some(navigation.clone());
        return (None, ActiveTransition::Submit(DocumentControlCommand::Observe));
    }
    match state.completed.take() {
        Some(completed) => action_observed(state, completed, effect, navigation, answers),
        None => (None, unexpected_navigation_completion(effect)),
    }
}

/// The settlement of an explicit navigation that was admitted.
pub open spec fn navigate_settle(
    state: NavigateState,
    profile: SessionProfile,
    source: Arc<SessionNavigationAuthority>,
    admitted: Arc<SessionNavigationAuthority>,
    bootstrap: DocumentControlCommand,
) -> SettleState {
    SettleState {
        profile,
        authorizing_document_state: None,
        authorizing_observation: None,
        authorizing_navigation: Some(source),
        replacement: Some(
            SettleReplacementPhase::Bootstrapping { source, admitted, command: bootstrap },
        ),
        authority_bound_command: None,
        latest_pending_target: Some(admitted.target),
        response: SettleResponse::Navigate { requested_url: state.requested_url, source, admitted },
        effective_policy: SettlePolicy::ProductDefault,
        cumulative_external_io_wall_time_ns: 0,
        waiting: None,
    }
}

/// An explicit navigation after a session-navigation operation.
pub open spec fn navigate_navigation(
    state: NavigateState,
    profile: Option<SessionProfile>,
    kind: NavigationOperationKind,
    effect: RequestStateEffect,
    navigation: Arc<SessionNavigationAuthority>,
    answers: Answers,
) -> (NavigateState, Option<ActiveOperation>, RequestStateEffect, TransitionView) {
    match state.phase {
        NavigatePhase::AwaitingAuthority { expected_state_token } => if kind
            == NavigationOperationKind::Observe {
            (
                NavigateState {
                    phase: NavigatePhase::Authorizing { expected_state_token, navigation },
                    ..state
                },
                None,
                effect,
                TransitionView::Submit(DocumentControlCommand::Observe),
            )
        } else {
            (state, None, effect, unexpected_completion_view(effect))
        },
        NavigatePhase::AwaitingAdmission {
            source,
            source_external_io_active_at_authorization,
        } => if kind == NavigationOperationKind::Navigate {
            let partial = RequestStateEffect::Partial;
            match replacement_admission(source@, navigation@) {
                None => (state, None, partial, activation_failure_view(partial, true)),
                Some(admission) => {
                    let bootstrap = bootstrap_command(admission);
                    match answers.progress {
                        None => (
                            state,
                            None,
                            effect,
                            TransitionView::Consult(
                                Consultation::StartReplacementBootstrap {
                                    policy: SettlePolicy::ProductDefault,
                                    latched_external_io: source_external_io_active_at_authorization,
                                    bootstrap,
                                },
                            ),
                        ),
                        Some(Err(error)) => (
                            state,
                            None,
                            partial,
                            TransitionView::Fail(
                                hardened(settle_failure_view(error, partial, None), partial),
                            ),
                        ),
                        Some(Ok(progress)) => if replied_with(progress, bootstrap) {
                            (
                                state,
                                Some(
                                    ActiveOperation::Settle(
                                        navigate_settle(
                                            state,
                                            profile->0,
                                            source,
                                            navigation,
                                            bootstrap,
                                        ),
                                    ),
                                ),
                                partial,
                                TransitionView::Submit(bootstrap),
                            )
                        } else {
                            (
                                state,
                                None,
                                partial,
                                internal_transition(
                                    "explicit navigation did not issue its exact bootstrap command"@,
                                    partial,
                                ),
                            )
                        },
                    }
                },
            }
        } else {
            (state, None, effect, unexpected_completion_view(effect))
        },
        _ => (state, None, effect, unexpected_completion_view(effect)),
    }
}

fn navigate_admitted(
    state: &NavigateState,
    profile: SessionProfile,
    source: &Arc<SessionNavigationAuthority>,
    latched_external_io: bool,
    effect: RequestStateEffect,
    navigation: &Arc<SessionNavigationAuthority>,
    answers: &Answers,
) -> (r: (Option<ActiveOperation>, RequestStateEffect, ActiveTransition))
    requires
        state.phase == (NavigatePhase::AwaitingAdmission {
            source: *source,
            source_external_io_active_at_authorization: latched_external_io,
        }),
    ensures
        (*state, r.0, r.1, r.2@) == navigate_navigation(
            *state,
            Some(profile),
            NavigationOperationKind::Navigate,
            effect,
            *navigation,
            *answers,
        ),
{
    let partial = RequestStateEffect::Partial;
    let bootstrap = match exact_replacement_admission(source, navigation) {
        Some(admission) => bootstrap_of(admission),
        None => {
            return (None, partial, navigation_activation_failure(partial, true));
        },
    };
    match &answers.progress {
        None => (
            None,
            effect,
            ActiveTransition::Consult(
                Consultation::StartReplacementBootstrap {
                    policy: SettlePolicy::ProductDefault,
                    latched_external_io,
                    bootstrap,
                },
            ),
        ),
        Some(Err(error)) => (
            None,
            partial,
            ActiveTransition::Fail(
                harden_continuation_failure(settle_failure(error, partial, None), partial),
            ),
        ),
        Some(Ok(progress)) => if is_reply(progress, bootstrap) {
            (
                Some(
                    ActiveOperation::Settle(
                        SettleState {
                            profile,
                            authorizing_document_state: None,
                            authorizing_observation: None,
                            authorizing_navigation: Some(source.clone()),
                            replacement: Some(
                                SettleReplacementPhase::Bootstrapping {
                                    source: source.clone(),
                                    admitted: navigation.clone(),
                                    command: bootstrap,
                                },
                            ),
                            authority_bound_command: None,
                            latest_pending_target: Some(navigation.target.clone()),
                            response: SettleResponse::Navigate {
                                requested_url: state.requested_url.clone(),
                                source: source.clone(),
                                admitted: navigation.clone(),
                            },
                            effective_policy: SettlePolicy::ProductDefault,
                            cumulative_external_io_wall_time_ns: 0,
                            waiting: None,
                        },
                    ),
                ),
                partial,
                ActiveTransition::Submit(bootstrap),
            )
        } else {
            (
                None,
                partial,
                projection_shape_failure(
                    "explicit navigation did not issue its exact bootstrap command",
                    partial,
                ),
            )
        },
    }
}

fn navigate_observed(
    state: &mut NavigateState,
    profile: Option<SessionProfile>,
    kind: NavigationOperationKind,
    effect: RequestStateEffect,
    navigation: &Arc<SessionNavigationAuthority>,
    answers: &Answers,
) -> (r: (Option<ActiveOperation>, RequestStateEffect, ActiveTransition))
    requires
        profile is Some,
    ensures
        (*final(state), r.0, r.1, r.2@) == navigate_navigation(
            *old(state),
            profile,
            kind,
            effect,
            *navigation,
            *answers,
        ),
{
    match profile {
        None => (None, effect, unexpected_navigation_completion(effect)),
        Some(profile) => {
            let token = match &state.phase {
                NavigatePhase::AwaitingAuthority { expected_state_token } => {
                    if kind != NavigationOperationKind::Observe {
                        return (None, effect, unexpected_navigation_completion(effect));
                    }
                    expected_state_token.clone()
                },
                NavigatePhase::AwaitingAdmission {
                    source,
                    source_external_io_active_at_authorization,
                } => {
                    if kind != NavigationOperationKind::Navigate {
                        return (None, effect, unexpected_navigation_completion(effect));
                    }
                    return navigate_admitted(
                        state,
                        profile,
                        source,
                        *source_external_io_active_at_authorization,
                        effect,
                        navigation,
                        answers,
                    );
                },
                _ => {
                    return (None, effect, unexpected_navigation_completion(effect));
                },
            };
            state.phase =
            NavigatePhase::Authorizing {
                expected_state_token: token,
                navigation: navigation.clone(),
            };
            (None, effect, ActiveTransition::Submit(DocumentControlCommand::Observe))
        },
    }
}

/// A result with the token of the document state that it was bracketed with; with `snapshot_token`
/// also in its `snapshot` member.
pub open spec fn tokenized(json: JsonView, token: JsonView, snapshot_token: bool) -> Result<
    JsonView,
    Seq<char>,
> {
    match inserted(json, "stateToken"@, token) {
        None => Err("session result is not an object"@),
        Some(with_token) => if !snapshot_token {
            Ok(with_token)
        } else {
            match member_of(with_token, "snapshot"@) {
                None => Err("session result snapshot is not an object"@),
                Some(snapshot) => match inserted(snapshot, "stateToken"@, token) {
                    None => Err("session result snapshot is not an object"@),
                    Some(snapshot) => Ok(inserted(with_token, "snapshot"@, snapshot)->0),
                },
            }
        },
    }
}

fn with_tokens(value: &Value, token: &Value, snapshot_token: bool) -> (r: Result<
    Value,
    &'static str,
>)
    ensures
        match r {
            Ok(value_with) => tokenized(
                value_json(*value),
                value_json(*token),
                snapshot_token,
            ) == Ok::<JsonView, Seq<char>>(value_json(value_with)),
            Err(message) => tokenized(
                value_json(*value),
                value_json(*token),
                snapshot_token,
            ) == Err::<JsonView, Seq<char>>(message@),
        },
{
    let mut value = clone_value(value);
    if !insert_member(&mut value, "stateToken", clone_value(token)) {
        return Err("session result is not an object");
    }
    if snapshot_token {
        let mut snapshot = match get_member(&value, "snapshot") {
            Some(snapshot) => snapshot,
            None => {
                return Err("session result snapshot is not an object");
            },
        };
        if !insert_member(&mut snapshot, "stateToken", clone_value(token)) {
            return Err("session result snapshot is not an object");
        }
        insert_member(&mut value, "snapshot", snapshot);
    }
    Ok(value)
}

/// The result of opening a controlled session.
pub open spec fn session_open_result(
    requested_url: Seq<char>,
    url: Seq<char>,
    profile: SessionProfile,
    token: JsonView,
    session_state_token: JsonView,
) -> JsonView {
    object_json(
        seq![
            ("sessionId"@, JsonView::Text(SESSION_ID@)),
            ("requestedUrl"@, JsonView::Text(requested_url)),
            ("url"@, JsonView::Text(url)),
            ("boundary"@, JsonView::Text("controlled_ready"@)),
            ("clockMode"@, JsonView::Text("controlled"@)),
            ("profile"@, JsonView::Text(profile_id(profile))),
            ("stateToken"@, token),
            ("sessionStateToken"@, session_state_token),
        ],
    )
}

fn session_open_value(
    requested_url: &str,
    url: &str,
    profile: SessionProfile,
    token: &Value,
    session_state_token: &Value,
) -> (value: Value)
    ensures
        value_json(value) == session_open_result(
            requested_url@,
            url@,
            profile,
            value_json(*token),
            value_json(*session_state_token),
        ),
{
    let members = vec![
        ("sessionId".to_owned(), text_value(SESSION_ID)),
        ("requestedUrl".to_owned(), text_value(requested_url)),
        ("url".to_owned(), text_value(url)),
        ("boundary".to_owned(), text_value("controlled_ready")),
        ("clockMode".to_owned(), text_value("controlled")),
        ("profile".to_owned(), text_value(profile.id())),
        ("stateToken".to_owned(), clone_value(token)),
        ("sessionStateToken".to_owned(), clone_value(session_state_token)),
    ];
    assert(members_json(members@) =~= seq![
        ("sessionId"@, JsonView::Text(SESSION_ID@)),
        ("requestedUrl"@, JsonView::Text(requested_url@)),
        ("url"@, JsonView::Text(url@)),
        ("boundary"@, JsonView::Text("controlled_ready"@)),
        ("clockMode"@, JsonView::Text("controlled"@)),
        ("profile"@, JsonView::Text(profile_id(profile))),
        ("stateToken"@, value_json(*token)),
        ("sessionStateToken"@, value_json(*session_state_token)),
    ]);
    value_of(NewValue::Object(members))
}

/// The publication of a bracketed result under the token of its document state.
pub open spec fn published(
    state: SessionProjectionState,
    token: Value,
    effect: RequestStateEffect,
    navigation: Arc<SessionNavigationAuthority>,
    answers: Answers,
) -> TransitionView {
    match state.kind {
        SessionProjectionKind::Automation { settle_resume, .. } => match settle_resume.response {
            SettleResponse::Automation { kind, result } => match answers.projected {
                None => TransitionView::Consult(
                    Consultation::ProjectAutomation { kind, result, pending: state.pending },
                ),
                Some(Err(ProjectionError::Project(text))) => internal_transition(
                    "failed to project automation result: "@ + text@,
                    effect,
                ),
                Some(Err(error)) => internal_transition(
                    "failed to serialize automation result: "@ + projection_error_text(error),
                    effect,
                ),
                Some(Ok(value)) => match inserted(
                    value_json(*value),
                    "stateToken"@,
                    value_json(token),
                ) {
                    None => internal_transition("automation result is not an object"@, effect),
                    Some(json) => TransitionView::Complete(json),
                },
            },
            _ => internal_transition(
                "an automation projection lost its original action-shaped result"@,
                effect,
            ),
        },
        SessionProjectionKind::Value { value, snapshot_token, .. } => match tokenized(
            value_json(*value),
            value_json(token),
            snapshot_token,
        ) {
            Err(message) => internal_transition(message, effect),
            Ok(json) => TransitionView::Complete(json),
        },
        SessionProjectionKind::Navigate {
            requested_url,
            source,
            admitted,
            settle_resume,
            ..
        } => if !navigate_ready(source, admitted, settle_resume is Some, navigation) {
            activation_failure_view(effect, true)
        } else {
            match answers.projected {
                None => TransitionView::Consult(
                    Consultation::ProjectNavigation {
                        requested_url,
                        pending: state.pending,
                        navigation,
                    },
                ),
                Some(Err(ProjectionError::Authority(error))) => mismatched_authority_view(
                    error,
                    effect,
                ),
                Some(projected) => serialized(projected, effect),
            }
        },
        SessionProjectionKind::ControlledOpen {
            requested_url,
            profile,
            session_state_token,
            settle_resume,
            ..
        } => if !open_ready(settle_resume is Some, navigation) {
            activation_failure_view(effect, true)
        } else {
            match session_state_token {
                None => internal_transition(
                    "controlled open did not refresh session-state authority"@,
                    effect,
                ),
                Some(session_state_token) => TransitionView::Complete(
                    session_open_result(
                        requested_url@,
                        navigation.url@,
                        profile,
                        value_json(token),
                        value_json(*session_state_token),
                    ),
                ),
            }
        },
    }
}

/// Whether an explicit navigation has reached a ready document: any further one where it settled, or
/// the admitted one.
pub open spec fn navigate_ready(
    source: Arc<SessionNavigationAuthority>,
    admitted: Arc<SessionNavigationAuthority>,
    settled: bool,
    navigation: Arc<SessionNavigationAuthority>,
) -> bool {
    if settled {
        chain_ready(source@, navigation@)
    } else {
        replacement_ready(source@, admitted@, navigation@)
    }
}

/// Whether an open session has reached a ready document: any where it settled, or the first one.
pub open spec fn open_ready(settled: bool, navigation: Arc<SessionNavigationAuthority>) -> bool {
    if settled {
        session_ready(navigation@)
    } else {
        initial_ready(navigation@)
    }
}

pub(crate) fn is_navigate_ready(
    source: &Arc<SessionNavigationAuthority>,
    admitted: &Arc<SessionNavigationAuthority>,
    settled: bool,
    navigation: &Arc<SessionNavigationAuthority>,
) -> (r: bool)
    ensures
        r == navigate_ready(*source, *admitted, settled, *navigation),
{
    if settled {
        explicit_navigation_chain_reached_controlled_ready(source, navigation)
    } else {
        explicit_navigation_reached_controlled_ready(source, admitted, navigation)
    }
}

pub(crate) fn is_open_ready(settled: bool, navigation: &Arc<SessionNavigationAuthority>) -> (r: bool)
    ensures
        r == open_ready(settled, *navigation),
{
    if settled {
        session_navigation_reached_controlled_ready(navigation)
    } else {
        initial_navigation_reached_controlled_ready(navigation)
    }
}

fn publish(
    state: &SessionProjectionState,
    token: &Value,
    effect: RequestStateEffect,
    navigation: &Arc<SessionNavigationAuthority>,
    answers: &Answers,
) -> (transition: ActiveTransition)
    ensures
        transition@ == published(*state, *token, effect, *navigation, *answers),
{
    match &state.kind {
        SessionProjectionKind::Automation { settle_resume, .. } => match settle_resume.response {
            SettleResponse::Automation { kind, result } => match &answers.projected {
                None => ActiveTransition::Consult(
                    Consultation::ProjectAutomation { kind, result, pending: state.pending.clone() },
                ),
                Some(Err(error)) => {
                    let message = match error {
                        ProjectionError::Project(text) => joined(
                            "failed to project automation result: ",
                            text.as_str(),
                        ),
                        _ => joined(
                            "failed to serialize automation result: ",
                            projection_error_str(error),
                        ),
                    };
                    projection_shape_failure(message.as_str(), effect)
                },
                Some(Ok(value)) => {
                    let mut value = clone_value(value);
                    if !insert_member(&mut value, "stateToken", clone_value(token)) {
                        return projection_shape_failure(
                            "automation result is not an object",
                            effect,
                        );
                    }
                    ActiveTransition::Complete(value)
                },
            },
            _ => projection_shape_failure(
                "an automation projection lost its original action-shaped result",
                effect,
            ),
        },
        SessionProjectionKind::Value { value, snapshot_token, .. } => match with_tokens(
            value,
            token,
            *snapshot_token,
        ) {
            Ok(value) => ActiveTransition::Complete(value),
            Err(message) => projection_shape_failure(message, effect),
        },
        SessionProjectionKind::Navigate {
            requested_url,
            source,
            admitted,
            settle_resume,
            ..
        } => {
            if !is_navigate_ready(source, admitted, settle_resume.is_some(), navigation) {
                return navigation_activation_failure(effect, true);
            }
            match &answers.projected {
                None => ActiveTransition::Consult(
                    Consultation::ProjectNavigation {
                        requested_url: requested_url.clone(),
                        pending: state.pending.clone(),
                        navigation: navigation.clone(),
                    },
                ),
                Some(projected) => {
                    if let Err(ProjectionError::Authority(error)) = projected {
                        return mismatched_navigation_authority(*error, effect);
                    }
                    serialize_result(projected, effect)
                },
            }
        },
        SessionProjectionKind::ControlledOpen {
            requested_url,
            profile,
            session_state_token,
            settle_resume,
            ..
        } => {
            if !is_open_ready(settle_resume.is_some(), navigation) {
                return navigation_activation_failure(effect, true);
            }
            match session_state_token {
                None => projection_shape_failure(
                    "controlled open did not refresh session-state authority",
                    effect,
                ),
                Some(session_state_token) => ActiveTransition::Complete(
                    session_open_value(
                        requested_url.as_str(),
                        navigation.url.as_str(),
                        *profile,
                        token,
                        session_state_token,
                    ),
                ),
            }
        },
    }
}

/// A projection that goes back to settlement, or the step that ends or interrupts it.
pub open spec fn resumed(
    state: SessionProjectionState,
    restart: Result<(ActiveOperation, TransitionView), TransitionView>,
) -> (SessionProjectionState, Option<ActiveOperation>, TransitionView) {
    match restart {
        Ok((operation, transition)) => (state, Some(operation), transition),
        Err(transition) => (state, None, transition),
    }
}

/// The authority whose replacement a projection may meet.
pub open spec fn projection_source(state: SessionProjectionState) -> Option<
    Arc<SessionNavigationAuthority>,
> {
    match state.phase {
        SessionProjectionPhase::AwaitingInitialNavigation => match projection_resume_of(
            state.kind,
        ) {
            Some(resume) => resume.authorizing_navigation,
            None => None,
        },
        SessionProjectionPhase::AwaitingStableNavigation { navigation } => Some(navigation),
        _ => None,
    }
}

/// Whether a projection meets the replacement of the document that it brackets.
pub open spec fn projection_meets_replacement(
    state: SessionProjectionState,
    navigation: Arc<SessionNavigationAuthority>,
) -> bool {
    &&& projection_resume_of(state.kind) is Some
    &&& projection_source(state) is Some
    &&& allows_rearm(state.kind)
    &&& replacement_admission(projection_source(state)->0@, navigation@) is Some
}

/// A projection after a passive observation.
pub open spec fn projection_navigation(
    state: SessionProjectionState,
    effect: RequestStateEffect,
    navigation: Arc<SessionNavigationAuthority>,
    answers: Answers,
) -> (SessionProjectionState, Option<ActiveOperation>, TransitionView) {
    let resume = projection_resume_of(state.kind);
    let observing = SessionProjectionState {
        phase: SessionProjectionPhase::AwaitingPendingObservation { navigation },
        ..state
    };
    if let SessionProjectionPhase::AwaitingReplacementAdmission {
        source,
        source_pipeline_id,
        pipeline_id,
    } = state.phase {
        let admission = replacement_admission(source@, navigation@);
        if admission is None || admission->0.source_pipeline_id != source_pipeline_id
            || admission->0.pipeline_id != pipeline_id {
            (state, None, activation_failure_view(effect, true))
        } else {
            match resume {
                None => (
                    state,
                    None,
                    internal_transition(
                        "replacement admission lost its projection continuation"@,
                        effect,
                    ),
                ),
                Some(resume) => resumed(
                    state,
                    replacement_restart(
                        resume,
                        source,
                        navigation,
                        state.pending.target,
                        effect,
                        answers,
                    ),
                ),
            }
        }
    } else if projection_meets_replacement(state, navigation) {
        resumed(
            state,
            replacement_restart(
                resume->0,
                projection_source(state)->0,
                navigation,
                state.pending.target,
                effect,
                answers,
            ),
        )
    } else {
        match state.phase {
            SessionProjectionPhase::AwaitingInitialNavigation => (
                observing,
                None,
                TransitionView::Submit(DocumentControlCommand::Observe),
            ),
            SessionProjectionPhase::AwaitingStableNavigation { navigation: before } => if before@
                == navigation@ {
                (
                    state,
                    None,
                    match answers.token {
                        None => TransitionView::Consult(
                            Consultation::DocumentStateToken {
                                pending: state.pending,
                                navigation,
                            },
                        ),
                        Some(Err(error)) => mismatched_authority_view(error, effect),
                        Some(Ok(token)) => published(state, *token, effect, navigation, answers),
                    },
                )
            } else if !allows_rearm(state.kind) {
                resumed(state, drift_restart(state.kind, effect, answers))
            } else {
                match answers.same_document {
                    None => (
                        state,
                        None,
                        TransitionView::Consult(
                            Consultation::ClassifySameDocument { source: before, navigation },
                        ),
                    ),
                    Some(Some(_)) => (
                        SessionProjectionState {
                            kind: with_resume_authority(state.kind, navigation),
                            ..observing
                        },
                        None,
                        TransitionView::Submit(DocumentControlCommand::Observe),
                    ),
                    Some(None) => resumed(state, drift_restart(state.kind, effect, answers)),
                }
            },
            _ => (state, None, unexpected_completion_view(effect)),
        }
    }
}

fn resume_at(
    state: &SessionProjectionState,
    resume: &SettleProjectionResume,
    source: &Arc<SessionNavigationAuthority>,
    effect: RequestStateEffect,
    navigation: &Arc<SessionNavigationAuthority>,
    answers: &Answers,
) -> (r: (Option<ActiveOperation>, ActiveTransition))
    ensures
        (*state, r.0, r.1@) == resumed(
            *state,
            replacement_restart(
                *resume,
                *source,
                *navigation,
                state.pending.target,
                effect,
                *answers,
            ),
        ),
{
    match resume_session_projection_at_replacement(
        resume,
        source,
        navigation,
        &state.pending.target,
        effect,
        answers,
    ) {
        Ok((operation, transition)) => (Some(operation), transition),
        Err(transition) => (None, transition),
    }
}

fn restart_after_drift(
    state: &SessionProjectionState,
    effect: RequestStateEffect,
    answers: &Answers,
) -> (r: (Option<ActiveOperation>, ActiveTransition))
    ensures
        (*state, r.0, r.1@) == resumed(*state, drift_restart(state.kind, effect, *answers)),
{
    match restart_session_projection_after_drift(&state.kind, effect, answers) {
        Ok((operation, transition)) => (Some(operation), transition),
        Err(transition) => (None, transition),
    }
}

fn projection_admitted(
    state: &SessionProjectionState,
    source: &Arc<SessionNavigationAuthority>,
    source_pipeline_id: u64,
    pipeline_id: u64,
    effect: RequestStateEffect,
    navigation: &Arc<SessionNavigationAuthority>,
    answers: &Answers,
) -> (r: (Option<ActiveOperation>, ActiveTransition))
    requires
        state.phase == (SessionProjectionPhase::AwaitingReplacementAdmission {
            source: *source,
            source_pipeline_id,
            pipeline_id,
        }),
    ensures
        (*state, r.0, r.1@) == projection_navigation(*state, effect, *navigation, *answers),
{
    match exact_replacement_admission(source, navigation) {
        None => {
            return (None, navigation_activation_failure(effect, true));
        },
        Some(admission) => {
            if admission.source_pipeline_id != source_pipeline_id || admission.pipeline_id
                != pipeline_id {
                return (None, navigation_activation_failure(effect, true));
            }
        },
    }
    match session_projection_settle_resume(&state.kind) {
        None => (
            None,
            projection_shape_failure(
                "replacement admission lost its projection continuation",
                effect,
            ),
        ),
        Some(resume) => resume_at(state, resume, source, effect, navigation, answers),
    }
}

fn replacement_source(state: &SessionProjectionState) -> (r: Option<
    Arc<SessionNavigationAuthority>,
>)
    ensures
        r == projection_source(*state),
{
    match &state.phase {
        SessionProjectionPhase::AwaitingInitialNavigation => match session_projection_settle_resume(
            &state.kind,
        ) {
            Some(resume) => share(&resume.authorizing_navigation),
            None => None,
        },
        SessionProjectionPhase::AwaitingStableNavigation { navigation } => Some(navigation.clone()),
        _ => None,
    }
}

fn projection_observed(
    state: &mut SessionProjectionState,
    effect: RequestStateEffect,
    navigation: &Arc<SessionNavigationAuthority>,
    answers: &Answers,
) -> (r: (Option<ActiveOperation>, ActiveTransition))
    ensures
        (*final(state), r.0, r.1@) == projection_navigation(
            *old(state),
            effect,
            *navigation,
            *answers,
        ),
{
    if let SessionProjectionPhase::AwaitingReplacementAdmission {
        source,
        source_pipeline_id,
        pipeline_id,
    } = &state.phase {
        return projection_admitted(
            state,
            source,
            *source_pipeline_id,
            *pipeline_id,
            effect,
            navigation,
            answers,
        );
    }
    if let Some(source) = replacement_source(state) {
        if let Some(resume) = session_projection_settle_resume(&state.kind) {
            if session_projection_allows_replacement_rearm(&state.kind)
                && exact_replacement_admission(&source, navigation).is_some() {
                return resume_at(state, resume, &source, effect, navigation, answers);
            }
        }
    }
    let before = match &state.phase {
        SessionProjectionPhase::AwaitingInitialNavigation => None,
        SessionProjectionPhase::AwaitingStableNavigation { navigation } => Some(navigation.clone()),
        _ => {
            return (None, unexpected_navigation_completion(effect));
        },
    };
    if let Some(before) = before {
        if same_authority(&before, navigation) {
            return match &answers.token {
                None => (
                    None,
                    ActiveTransition::Consult(
                        Consultation::DocumentStateToken {
                            pending: state.pending.clone(),
                            navigation: navigation.clone(),
                        },
                    ),
                ),
                Some(Err(error)) => (None, mismatched_navigation_authority(*error, effect)),
                Some(Ok(token)) => (None, publish(state, token, effect, navigation, answers)),
            };
        }
        if !session_projection_allows_replacement_rearm(&state.kind) {
            return restart_after_drift(state, effect, answers);
        }
        match answers.same_document {
            None => {
                return (
                    None,
                    ActiveTransition::Consult(
                        Consultation::ClassifySameDocument {
                            source: before,
                            navigation: navigation.clone(),
                        },
                    ),
                );
            },
            Some(Some(_)) => {
                // Same-document messages landed between the two observations: the document is
                // observed and bracketed again, and no page work is driven.
                set_projection_authority(&mut state.kind, navigation);
            },
            Some(None) => {
                return restart_after_drift(state, effect, answers);
            },
        }
    }
    state.phase =
    SessionProjectionPhase::AwaitingPendingObservation { navigation: navigation.clone() };
    (None, ActiveTransition::Submit(DocumentControlCommand::Observe))
}

/// The active request and its next step after the engine attested a navigation that can go on.
pub open spec fn observed_step(
    active: ActiveRequest,
    kind: NavigationOperationKind,
    navigation: Arc<SessionNavigationAuthority>,
    network_operations: usize,
    answers: Answers,
) -> (ActiveRequest, TransitionView) {
    let effect = active.state_effect;
    let observes = kind == NavigationOperationKind::Observe;
    match active.operation {
        ActiveOperation::AdvanceToNext(
            AdvanceToNextState::Observing { expected_state_token: Some(token), navigation: None },
        ) if observes => (
            ActiveRequest {
                operation: ActiveOperation::AdvanceToNext(
                    AdvanceToNextState::Observing {
                        expected_state_token: Some(token),
                        navigation: Some(navigation),
                    },
                ),
                ..active
            },
            TransitionView::Submit(DocumentControlCommand::Observe),
        ),
        ActiveOperation::Settle(state) if observes => {
            let (state, state_effect, transition) = settle_navigation(
                state,
                active.started_at,
                effect,
                navigation,
                network_operations != 0,
                answers,
            );
            (
                ActiveRequest {
                    operation: ActiveOperation::Settle(state),
                    state_effect,
                    ..active
                },
                transition,
            )
        },
        ActiveOperation::Automation(state) if observes => {
            let (state, operation, transition) = automation_navigation(
                state,
                effect,
                navigation,
                answers,
            );
            (
                ActiveRequest {
                    operation: match operation {
                        Some(operation) => operation,
                        None => ActiveOperation::Automation(state),
                    },
                    ..active
                },
                transition,
            )
        },
        ActiveOperation::Navigate(state) => {
            let (state, operation, state_effect, transition) = navigate_navigation(
                state,
                active.profile,
                kind,
                effect,
                navigation,
                answers,
            );
            (
                ActiveRequest {
                    operation: match operation {
                        Some(operation) => operation,
                        None => ActiveOperation::Navigate(state),
                    },
                    state_effect,
                    ..active
                },
                transition,
            )
        },
        ActiveOperation::SessionProjection(state) if observes => {
            let (state, operation, transition) = projection_navigation(
                state,
                effect,
                navigation,
                answers,
            );
            (
                ActiveRequest {
                    operation: match operation {
                        Some(operation) => operation,
                        None => ActiveOperation::SessionProjection(state),
                    },
                    ..active
                },
                transition,
            )
        },
        _ => (active, unexpected_completion_view(effect)),
    }
}

/// The active request and its next step after a session-navigation operation has completed.
pub open spec fn navigation_step(
    active: ActiveRequest,
    completion: NavigationOperationCompletion,
    network_operations: usize,
    answers: Answers,
) -> (ActiveRequest, TransitionView) {
    let effect = active.state_effect;
    match completion.outcome {
        None => (active, lost_response(completion.kind, effect)),
        Some(Err(error)) => (
            active,
            if error is TargetChanged && completion.kind == NavigationOperationKind::Observe
                && authorizing_state(active.operation) is Some {
                stale_settle(authorizing_state(active.operation)->0, effect, answers)
            } else {
                navigation_failure_view(error, completion.kind, effect)
            },
        ),
        Some(Ok(navigation)) => match navigation.terminal {
            Some(terminal) => (active, terminal_failure_view(terminal, effect)),
            None => observed_step(
                active,
                completion.kind,
                navigation,
                network_operations,
                answers,
            ),
        },
    }
}

/// Whether an explicit navigation has kept the profile of its session.
pub open spec fn retains_profile(active: ActiveRequest) -> bool {
    active.operation is Navigate ==> active.profile is Some
}

fn authorizing_document(operation: &ActiveOperation) -> (r: Option<
    Arc<CurrentDocumentStateAuthority>,
>)
    ensures
        r == authorizing_state(*operation),
{
    match operation {
        ActiveOperation::Settle(state) => if state.authorizing_navigation.is_none()
            == state.authorizing_observation.is_none() {
            match &state.authorizing_document_state {
                Some(authority) => Some(authority.clone()),
                None => None,
            }
        } else {
            None
        },
        _ => None,
    }
}

fn step_from_observed(
    active: &mut ActiveRequest,
    kind: NavigationOperationKind,
    navigation: &Arc<SessionNavigationAuthority>,
    network_operations: usize,
    answers: &Answers,
) -> (transition: ActiveTransition)
    requires
        retains_profile(*old(active)),
    ensures
        (*final(active), transition@) == observed_step(
            *old(active),
            kind,
            *navigation,
            network_operations,
            *answers,
        ),
{
    let effect = active.state_effect;
    let profile = active.profile;
    let observes = kind == NavigationOperationKind::Observe;
    match &mut active.operation {
        ActiveOperation::AdvanceToNext(state) => {
            if observes {
                if let AdvanceToNextState::Observing {
                    expected_state_token,
                    navigation: slot,
                } = state {
                    if expected_state_token.is_some() && slot.is_none() {
                        *slot = Some(navigation.clone());
                        return ActiveTransition::Submit(DocumentControlCommand::Observe);
                    }
                }
            }
            unexpected_navigation_completion(effect)
        },
        ActiveOperation::Settle(state) => {
            if !observes {
                return unexpected_navigation_completion(effect);
            }
            let (state_effect, transition) = settle_observed(
                state,
                active.started_at,
                effect,
                navigation,
                network_operations != 0,
                answers,
            );
            active.state_effect = state_effect;
            transition
        },
        ActiveOperation::Automation(state) => {
            if !observes {
                return unexpected_navigation_completion(effect);
            }
            let (operation, transition) = automation_observed(state, effect, navigation, answers);
            if let Some(operation) = operation {
                active.operation = operation;
            }
            transition
        },
        ActiveOperation::Navigate(state) => {
            let (operation, state_effect, transition) = navigate_observed(
                state,
                profile,
                kind,
                effect,
                navigation,
                answers,
            );
            if let Some(operation) = operation {
                active.operation = operation;
            }
            active.state_effect = state_effect;
            transition
        },
        ActiveOperation::SessionProjection(state) => {
            if !observes {
                return unexpected_navigation_completion(effect);
            }
            let (operation, transition) = projection_observed(state, effect, navigation, answers);
            if let Some(operation) = operation {
                active.operation = operation;
            }
            transition
        },
        _ => unexpected_navigation_completion(effect),
    }
}

/// Decides what follows a completed session-navigation operation. Where an answer of the engine's
/// services is needed first, the request stays as it is and the call is repeated with the answer.
pub fn transition_from_navigation_completion(
    active: &mut ActiveRequest,
    completion: &NavigationOperationCompletion,
    controlled_network_active_operations: usize,
    answers: &Answers,
) -> (transition: ActiveTransition)
    requires
        retains_profile(*old(active)),
    ensures
        (*final(active), transition@) == navigation_step(
            *old(active),
            *completion,
            controlled_network_active_operations,
            *answers,
        ),
{
    let effect = active.state_effect;
    match &completion.outcome {
        None => ActiveTransition::Fail(
            ActiveFailure {
                error: if completion.kind == NavigationOperationKind::Navigate {
                    fatal_operation(
                        "outcome_indeterminate",
                        "a written navigation lost its admission response",
                        "indeterminate",
                    )
                } else {
                    fatal_operation(
                        "navigation_transport_failure",
                        "the engine lost a passive session-navigation observation",
                        effect.as_protocol_str(),
                    )
                },
                fail_stop: true,
            },
        ),
        Some(Err(error)) => {
            let target_changed = match error {
                SessionNavigationError::TargetChanged => true,
                _ => false,
            };
            if target_changed && completion.kind == NavigationOperationKind::Observe {
                if let Some(authority) = authorizing_document(&active.operation) {
                    return latch_and_reject_stale_settle_authority(&authority, effect, answers);
                }
            }
            session_navigation_failure(error, completion.kind, effect)
        },
        Some(Ok(navigation)) => match navigation.terminal {
            Some(terminal) => session_navigation_terminal_failure(terminal, effect),
            None => step_from_observed(
                active,
                completion.kind,
                navigation,
                controlled_network_active_operations,
                answers,
            ),
        },
    }
}

} // verus!
