//! What each kind of request does next, on each kind of completion.

use std::sync::Arc;

use vstd::prelude::*;

use crate::active::{
    ActiveOperation, ActiveRequest, AdvanceToNextState, Answers, AutomationState,
    CompletedAutomation, Consultation, ControlledOpenState, NavigatePhase, SessionProjectionKind,
    SessionProjectionPhase, SessionProjectionState, SettlePolicy, SettleResponse, SettleState,
    TransitionView,
};
use crate::answer_laws::json_of;
use crate::authority::SessionNavigationAuthority;
use crate::control::{
    DocumentControlAction, DocumentControlCommand, DocumentControlError, DocumentControlObservation,
    DocumentControlOutcome, DocumentControlReceiveOutcome, NavigationOperationCompletion,
    NavigationOperationKind, PendingSnapshot, SameDocumentSessionTransition,
    SessionAutomationBindError, SettleCompletion, SettleProgress,
};
use crate::control_step::control_step;
use crate::failure_laws::{ends, refuses, told};
use crate::navigation_step::navigation_step;
use crate::operation_laws::{completed_with, is_session, is_webapp};
use crate::replacement_laws::{origin, way_back};
use crate::settle::{expects_navigation, settle_progress, suppresses_pump};
use crate::settlement_laws::time_waited;
use crate::shell_poll::noted;

verus! {

/// The snapshot with which a settlement completed.
pub open spec fn last_snapshot(completion: SettleCompletion) -> Arc<PendingSnapshot> {
    match completion {
        SettleCompletion::Quiescent { pending, .. } => pending,
        SettleCompletion::QuiescentWithPersistentWork { pending, .. } => pending,
        SettleCompletion::BlockedOnExternalIo { pending, .. } => pending,
        SettleCompletion::BlockedOnOpenEndedWork { pending, .. } => pending,
        SettleCompletion::VirtualTimeLimitExceeded { pending, .. } => pending,
        SettleCompletion::ControlTurnLimitExceeded { pending, .. } => pending,
        SettleCompletion::ExecutionLimitExceeded { pending, .. } => pending,
        SettleCompletion::RuntimeError { pending, .. } => pending,
    }
}

/// A settlement whose token is being checked keeps the one observation that agrees with the token,
/// and looks at the navigation again; anything else submits nothing.
pub proof fn law_a_token_is_checked_against_one_observation(
    active: ActiveRequest,
    state: SettleState,
    command: DocumentControlCommand,
    outcome: Arc<DocumentControlReceiveOutcome>,
    network_operations: usize,
    answers: Answers,
)
    requires
        active.operation == ActiveOperation::Settle(state),
        state.authority_bound_command is None,
        state.replacement is None,
        state.authorizing_document_state is Some,
    ensures
        ({
            let (after, transition) = control_step(
                active,
                command,
                outcome,
                network_operations,
                answers,
            );
            let expected = state.authorizing_document_state->0;
            &&& !(transition is Submit) && !(transition is Complete) && !(transition
                is ProjectSession) && !(transition is Wait)
            &&& transition is SubmitSessionNavigationObservation ==> {
                &&& state.authorizing_observation is None
                &&& command == DocumentControlCommand::Observe
                &&& answers.matches_navigation == Some(true)
                &&& *outcome matches DocumentControlReceiveOutcome::CommandOutcome {
                    outcome: DocumentControlOutcome::Completed(observation),
                    fault: None,
                } && {
                    &&& observation.pending.target@ == expected.target@
                    &&& observation.pending.state_generation >= expected.state_generation
                    &&& after.operation == ActiveOperation::Settle(
                        SettleState { authorizing_observation: Some(observation), ..state },
                    )
                }
            }
            &&& !(transition is SubmitSessionNavigationObservation) ==> after.operation
                == active.operation
            &&& *outcome matches DocumentControlReceiveOutcome::CommandOutcome {
                outcome: DocumentControlOutcome::Completed(observation),
                fault: None,
            } ==> (command is Observe && state.authorizing_observation is None
                && state.authorizing_navigation is Some && answers.matches_navigation == Some(true)
                && observation.pending.target@ == expected.target@
                && observation.pending.state_generation >= expected.state_generation ==> transition
                is SubmitSessionNavigationObservation)
            &&& transition matches TransitionView::Consult(question) ==> match question {
                Consultation::MatchNavigation { authority, navigation } => authority == expected
                    && state.authorizing_navigation == Some(navigation),
                Consultation::LatchStale { authority } => authority == expected,
                _ => false,
            }
        }),
{
}

/// A settlement that stands for an open, an action or a navigation starts with the default policy,
/// no time waited, and what it is to be answered with.
pub proof fn law_a_settlement_stands_for_its_request(
    active: ActiveRequest,
    command: DocumentControlCommand,
    outcome: Arc<DocumentControlReceiveOutcome>,
    completion: NavigationOperationCompletion,
    network_operations: usize,
    answers: Answers,
)
    ensures
        ({
            let observed = control_step(
                active,
                command,
                outcome,
                network_operations,
                answers,
            ).0.operation;
            let navigated = navigation_step(
                active,
                completion,
                network_operations,
                answers,
            ).0.operation;
            &&& active.operation matches ActiveOperation::ControlledOpen(state) ==> (observed
                matches ActiveOperation::Settle(settle) ==> {
                &&& starts_fresh(settle, state.profile)
                &&& settle.response == (SettleResponse::ControlledOpen {
                    requested_url: state.requested_url,
                    current_url: state.current_url,
                    profile: state.profile,
                    deadline: state.deadline,
                    bootstrap_attempted: state.bootstrap_attempted,
                })
                &&& is_session(Some(state.profile))
                &&& answers.progress matches Some(Ok(SettleProgress::Command(first)))
                    && settle.authority_bound_command == Some(first)
                &&& *outcome matches DocumentControlReceiveOutcome::CommandOutcome {
                    outcome: DocumentControlOutcome::Completed(observation),
                    ..
                } && settle.latest_pending_target == Some(observation.pending.target)
            })
            &&& active.operation matches ActiveOperation::Automation(state) ==> (navigated
                matches ActiveOperation::Settle(settle) ==> {
                &&& starts_fresh(settle, state.profile)
                &&& state.completed matches Some(completed) && settle.response == (
                SettleResponse::Automation { kind: state.kind, result: completed.result })
                &&& state.completed->0.synchronous_navigation_emitted
                &&& settle.latest_pending_target == Some(state.completed->0.pending.target)
                &&& settle.authority_bound_command is None
            })
            &&& active.operation matches ActiveOperation::Navigate(state) ==> (navigated
                matches ActiveOperation::Settle(settle) ==> {
                &&& active.profile matches Some(profile) ==> starts_fresh(settle, profile)
                &&& completion.outcome is Some && completion.outcome->0 is Ok
                &&& state.phase matches NavigatePhase::AwaitingAdmission { source, .. }
                    && settle.response == (SettleResponse::Navigate {
                    requested_url: state.requested_url,
                    source,
                    admitted: completion.outcome->0->Ok_0,
                })
                &&& settle.latest_pending_target == Some(completion.outcome->0->Ok_0.target)
                &&& settle.authority_bound_command is None
            })
        }),
{
}

/// Whether a settlement has the default policy and has waited for nothing yet.
pub open spec fn starts_fresh(
    settle: SettleState,
    profile: crate::profile::SessionProfile,
) -> bool {
    &&& settle.profile == profile
    &&& settle.effective_policy == SettlePolicy::ProductDefault
    &&& settle.cumulative_external_io_wall_time_ns == 0
    &&& settle.waiting is None
    &&& settle.authorizing_document_state is None
    &&& settle.authorizing_observation is None
}

/// An open and a navigation that settle do what their coordinator asks, and lead to their answer
/// with the snapshot of the quiet page.
pub proof fn law_a_plain_settlement_does_what_its_coordinator_asks(
    active: ActiveRequest,
    command: DocumentControlCommand,
    outcome: Arc<DocumentControlReceiveOutcome>,
    network_operations: usize,
    answers: Answers,
)
    requires
        (active.operation matches ActiveOperation::ControlledOpen(state) && state.settlement is Some)
            || (active.operation matches ActiveOperation::Navigate(state) && state.phase
            is Settling),
    ensures
        ({
            let transition = control_step(
                active,
                command,
                outcome,
                network_operations,
                answers,
            ).1;
            &&& answers.progress matches Some(Ok(SettleProgress::Command(next))) ==> transition
                == TransitionView::Submit(next)
            &&& answers.progress matches Some(Ok(SettleProgress::Wait(wait))) ==> transition
                == TransitionView::Wait(wait)
            &&& answers.progress matches Some(Ok(SettleProgress::Complete(completion))) ==> if
                completion is Quiescent || completion is QuiescentWithPersistentWork {
                &&& transition matches TransitionView::ProjectSession(projection) && {
                    &&& projection.pending == last_snapshot(completion)
                    &&& projection.phase is AwaitingInitialNavigation
                    &&& active.operation is Navigate ==> projection.kind is Navigate
                    &&& active.operation is ControlledOpen ==> projection.kind is ControlledOpen
                }
            } else {
                transition is Fail && transition->Fail_0.fail_stop
            }
        }),
{
}

/// A settlement of the runtime is published with the snapshot it completed with, whatever it
/// completed with, and with the token in that snapshot.
pub proof fn law_a_runtime_settlement_is_published_with_its_snapshot(
    active: ActiveRequest,
    state: SettleState,
    command: DocumentControlCommand,
    outcome: Arc<DocumentControlReceiveOutcome>,
    completion: SettleCompletion,
    network_operations: usize,
    answers: Answers,
)
    requires
        active.operation == ActiveOperation::Settle(state),
        state.authority_bound_command is None,
        state.authorizing_document_state is None,
        state.replacement is None,
        state.response is Runtime,
        answers.progress matches Some(Ok(SettleProgress::Complete(done))) && done == completion,
    ensures
        control_step(active, command, outcome, network_operations, answers).1
            matches TransitionView::ProjectSession(projection) ==> {
            &&& is_session(Some(state.profile))
            &&& projection.pending == last_snapshot(completion)
            &&& projection.kind matches SessionProjectionKind::Value {
                value,
                snapshot_token,
                settle_resume,
            } && snapshot_token && (answers.projected matches Some(Ok(projected)) && value
                == projected) && (settle_resume matches Some(resume) && resume.effective_policy
                == state.effective_policy && resume.profile == state.profile && resume.response
                is Runtime && resume.cumulative_external_io_wall_time_ns
                == state.cumulative_external_io_wall_time_ns)
        },
{
}

/// An advance submits the engine's own token for it, or nothing; in a session it is frozen while
/// the network works. Its result is published with the token in its snapshot.
pub proof fn law_an_advance_uses_the_engines_token(
    active: ActiveRequest,
    state: AdvanceToNextState,
    command: DocumentControlCommand,
    observation: Arc<DocumentControlObservation>,
    outcome: Arc<DocumentControlReceiveOutcome>,
    network_operations: usize,
    answers: Answers,
)
    requires
        active.operation == ActiveOperation::AdvanceToNext(state),
        *outcome == completed_with(observation),
    ensures
        ({
            let transition = control_step(
                active,
                command,
                outcome,
                network_operations,
                answers,
            ).1;
            &&& transition matches TransitionView::Submit(submitted) ==> {
                &&& state is Observing
                &&& observation.advance_token matches Some(token) && submitted
                    == DocumentControlCommand::AdvanceTo(token)
                &&& observation.pending.has_next_deadline
                &&& is_session(active.profile) ==> network_operations == 0
            }
            &&& transition matches TransitionView::Consult(
                Consultation::ProjectAdvance { pending, .. },
            ) ==> pending == observation.pending
            &&& transition matches TransitionView::ProjectSession(projection) ==> {
                &&& is_session(active.profile)
                &&& projection.pending == observation.pending
                &&& projection.kind matches SessionProjectionKind::Value {
                    value,
                    snapshot_token,
                    ..
                } && snapshot_token && (answers.projected matches Some(Ok(projected)) && value
                    == projected)
            }
            &&& transition matches TransitionView::Complete(json) ==> !is_session(active.profile)
                && (answers.projected matches Some(Ok(projected)) && json == json_of(projected))
            &&& (state matches AdvanceToNextState::Observing { expected_state_token: None, .. }) ==> {
                &&& is_session(active.profile) && network_operations != 0 ==> refuses(
                    transition,
                    "advance_not_available"@,
                    "none"@,
                )
                &&& !(is_session(active.profile) && network_operations != 0)
                    && observation.pending.has_next_deadline ==> if observation.advance_token
                    is Some {
                    transition is Submit
                } else {
                    refuses(transition, "advance_not_available"@, told(active.state_effect))
                }
            }
        }),
{
}

/// An open waits where the engine has no event loop yet, and bootstraps the pipeline that the
/// engine names, once.
pub proof fn law_an_open_bootstraps_once(
    active: ActiveRequest,
    state: ControlledOpenState,
    outcome: Arc<DocumentControlReceiveOutcome>,
    error: DocumentControlError,
    network_operations: usize,
    answers: Answers,
)
    requires
        active.operation == ActiveOperation::ControlledOpen(state),
        state.settlement is None,
        *outcome matches DocumentControlReceiveOutcome::CommandOutcome {
            outcome: DocumentControlOutcome::Rejected { error: rejection, .. },
            fault: None,
        } && rejection == error,
    ensures
        ({
            let (after, transition) = control_step(
                active,
                DocumentControlCommand::Observe,
                outcome,
                network_operations,
                answers,
            );
            match error {
                DocumentControlError::EventLoopUnavailable => transition is WaitForControlledOpen
                    && after == active,
                DocumentControlError::InitialPipelineBootstrapRequired { pipeline_id } => if
                    state.bootstrap_attempted {
                    ends(transition, "internal_runtime_failure"@, told(active.state_effect))
                } else {
                    &&& transition == TransitionView::Submit(
                        DocumentControlCommand::BootstrapInitialPipeline { pipeline_id },
                    )
                    &&& after.operation == ActiveOperation::ControlledOpen(
                        ControlledOpenState { bootstrap_attempted: true, ..state },
                    )
                },
                _ => refuses(
                    transition,
                    "document_control_rejected"@,
                    told(active.state_effect),
                ),
            }
        }),
{
}

/// A request that is to be authorized keeps the navigation that it observed, and then observes the
/// document: a navigation, an advance and an automation.
pub proof fn law_a_request_keeps_the_navigation_it_is_authorized_for(
    active: ActiveRequest,
    navigation: Arc<SessionNavigationAuthority>,
    completion: NavigationOperationCompletion,
    network_operations: usize,
    answers: Answers,
)
    requires
        completion.kind == NavigationOperationKind::Observe,
        completion.outcome matches Some(Ok(seen)) && seen == navigation,
        navigation.terminal is None,
    ensures
        ({
            let (after, transition) = navigation_step(
                active,
                completion,
                network_operations,
                answers,
            );
            let observes = transition == TransitionView::Submit(DocumentControlCommand::Observe);
            &&& active.operation matches ActiveOperation::Navigate(state) ==> (
            state.phase matches NavigatePhase::AwaitingAuthority { expected_state_token: token } ==> {
                &&& observes
                &&& after.operation matches ActiveOperation::Navigate(next) && next.phase == (
                NavigatePhase::Authorizing { expected_state_token: token, navigation })
                    && next.requested_url == state.requested_url
            })
            &&& active.operation matches ActiveOperation::AdvanceToNext(
                AdvanceToNextState::Observing {
                    expected_state_token: Some(token),
                    navigation: None,
                },
            ) ==> {
                &&& observes
                &&& after.operation == ActiveOperation::AdvanceToNext(
                    AdvanceToNextState::Observing {
                        expected_state_token: Some(token),
                        navigation: Some(navigation),
                    },
                )
            }
            &&& active.operation matches ActiveOperation::Automation(state) ==> (is_session(
                Some(state.profile),
            ) && state.unresolved is Some && state.authorizing_navigation is None ==> {
                &&& observes
                &&& after.operation == ActiveOperation::Automation(
                    AutomationState { authorizing_navigation: Some(navigation), ..state },
                )
            })
        }),
{
}

/// A completed action is looked after from the document in which it was made: its result is
/// stabilized where the document stayed, with the navigation that was observed; where it moved
/// without having been asked to, the session ends.
pub proof fn law_a_completed_action_is_stabilized(
    active: ActiveRequest,
    state: AutomationState,
    source: Arc<SessionNavigationAuthority>,
    completed: CompletedAutomation,
    navigation: Arc<SessionNavigationAuthority>,
    completion: NavigationOperationCompletion,
    network_operations: usize,
    answers: Answers,
)
    requires
        active.operation == ActiveOperation::Automation(state),
        is_session(Some(state.profile)),
        state.authorizing_navigation == Some(source),
        state.completed == Some(completed),
        completion.kind == NavigationOperationKind::Observe,
        completion.outcome matches Some(Ok(seen)) && seen == navigation,
        navigation.terminal is None,
    ensures
        ({
            let (after, transition) = navigation_step(
                active,
                completion,
                network_operations,
                answers,
            );
            &&& transition matches TransitionView::Consult(
                Consultation::ClassifySameDocument { source: asked, navigation: about },
            ) ==> asked == source && about == navigation && after == active
            &&& completed.pending.target@ != source.target@ ==> transition is Fail
                && transition->Fail_0.fail_stop
            &&& after.operation matches ActiveOperation::SessionProjection(projection) ==> {
                &&& transition == TransitionView::Submit(DocumentControlCommand::Observe)
                &&& projection.pending == completed.pending
                &&& projection.phase == (SessionProjectionPhase::AwaitingPendingObservation {
                    navigation,
                })
                &&& projection.kind matches SessionProjectionKind::Automation {
                    settle_resume,
                    replacement_rearm,
                } && {
                    &&& replacement_rearm == completed.synchronous_navigation_emitted
                    &&& settle_resume.response == (SettleResponse::Automation {
                        kind: state.kind,
                        result: completed.result,
                    })
                    &&& settle_resume.authorizing_navigation == Some(navigation)
                    &&& settle_resume.profile == state.profile
                    &&& settle_resume.effective_policy == SettlePolicy::ProductDefault
                }
                &&& answers.same_document matches Some(Some(change)) && (
                completed.synchronous_navigation_emitted || change
                    == SameDocumentSessionTransition::Unchanged)
            }
            &&& answers.same_document == Some(None::<SameDocumentSessionTransition>)
                && !completed.synchronous_navigation_emitted ==> ends(
                transition,
                "navigation_authority_changed"@,
                told(active.state_effect),
            )
        }),
{
}

/// Automation parameters that could not be bound refuse the request where its token is stale, and
/// end the session where the binding itself went wrong.
pub proof fn law_a_failed_binding_is_told(
    active: ActiveRequest,
    state: AutomationState,
    observation: Arc<DocumentControlObservation>,
    outcome: Arc<DocumentControlReceiveOutcome>,
    network_operations: usize,
    answers: Answers,
)
    requires
        active.operation == ActiveOperation::Automation(state),
        state.unresolved is Some,
        state.unresolved->0 is Session ==> state.authorizing_navigation is Some,
        *outcome == completed_with(observation),
    ensures
        ({
            let transition = control_step(
                active,
                DocumentControlCommand::Observe,
                outcome,
                network_operations,
                answers,
            ).1;
            &&& answers.bound matches Some(Err(SessionAutomationBindError::StaleStateToken))
                ==> refuses(transition, "stale_state_token"@, "none"@)
            &&& answers.bound matches Some(Err(SessionAutomationBindError::InvalidRequest)) ==> ends(
                transition,
                "internal_runtime_failure"@,
                told(active.state_effect),
            )
            &&& answers.bound is None ==> transition is Consult
            &&& answers.bound matches Some(Ok(_)) ==> transition is Submit
        }),
{
}

/// An open whose document is there is answered at once, or starts to settle under the default
/// policy; the bootstrap of its first pipeline counts only where a turn was processed, and no other
/// command does.
pub proof fn law_an_open_is_ready_once_it_was_observed(
    active: ActiveRequest,
    state: ControlledOpenState,
    command: DocumentControlCommand,
    observation: Arc<DocumentControlObservation>,
    outcome: Arc<DocumentControlReceiveOutcome>,
    network_operations: usize,
    answers: Answers,
)
    requires
        active.operation == ActiveOperation::ControlledOpen(state),
        state.settlement is None,
        answers.progress is None,
        *outcome == completed_with(observation),
    ensures
        ({
            let transition = control_step(
                active,
                command,
                outcome,
                network_operations,
                answers,
            ).1;
            let ready = command is Observe || (command is BootstrapInitialPipeline
                && state.bootstrap_attempted && observation.action
                == DocumentControlAction::TurnProcessed);
            if !ready {
                ends(transition, "internal_runtime_failure"@, told(active.state_effect))
            } else if is_webapp(Some(state.profile)) {
                transition is Complete
            } else {
                transition == TransitionView::Consult(
                    Consultation::StartSettlement { policy: SettlePolicy::ProductDefault },
                )
            }
        }),
{
}

/// Each completion tells a settlement in which document it was last observed; a turn that is held
/// back is then looked at again under that document.
pub proof fn law_a_settlement_knows_its_last_document(
    active: ActiveRequest,
    state: SettleState,
    observation: Arc<DocumentControlObservation>,
    outcome: Arc<DocumentControlReceiveOutcome>,
    url: Option<String>,
    network_operations: usize,
    answers: Answers,
)
    requires
        active.operation == ActiveOperation::Settle(state),
        *outcome == completed_with(observation),
    ensures
        noted(active.operation, *outcome, url) == ActiveOperation::Settle(
            SettleState { latest_pending_target: Some(observation.pending.target), ..state },
        ),
        state.authority_bound_command is Some ==> {
            let (after, transition) = control_step(
                active,
                DocumentControlCommand::Observe,
                outcome,
                network_operations,
                answers,
            );
            &&& transition is SubmitSessionNavigationObservation
            &&& !transition->allow_servo_pump
            &&& after.operation == ActiveOperation::Settle(
                SettleState { latest_pending_target: Some(observation.pending.target), ..state },
            )
        },
{
}

/// A projection begins by looking at the navigation, and then observes the document under it.
pub proof fn law_a_projection_observes_under_the_navigation(
    active: ActiveRequest,
    state: SessionProjectionState,
    navigation: Arc<SessionNavigationAuthority>,
    completion: NavigationOperationCompletion,
    network_operations: usize,
    answers: Answers,
)
    requires
        active.operation == ActiveOperation::SessionProjection(state),
        state.phase is AwaitingInitialNavigation,
        completion.kind == NavigationOperationKind::Observe,
        completion.outcome matches Some(Ok(seen)) && seen == navigation,
        navigation.terminal is None,
    ensures
        ({
            let (after, transition) = navigation_step(
                active,
                completion,
                network_operations,
                answers,
            );
            &&& after.operation matches ActiveOperation::SessionProjection(next) ==> (transition
                is Submit ==> {
                &&& transition == TransitionView::Submit(DocumentControlCommand::Observe)
                &&& next == (SessionProjectionState {
                    phase: SessionProjectionPhase::AwaitingPendingObservation { navigation },
                    ..state
                })
            })
            &&& origin(active.operation) is None ==> transition is Submit
        }),
{
}

/// A result is bracketed only where the document has not changed since it was observed: its
/// snapshot is the one that was projected, or it is the result of an action whose document was
/// found to be the same.
pub proof fn law_only_an_unchanged_document_is_bracketed(
    active: ActiveRequest,
    state: SessionProjectionState,
    navigation: Arc<SessionNavigationAuthority>,
    command: DocumentControlCommand,
    observation: Arc<DocumentControlObservation>,
    outcome: Arc<DocumentControlReceiveOutcome>,
    network_operations: usize,
    answers: Answers,
)
    requires
        active.operation == ActiveOperation::SessionProjection(state),
        state.phase == (SessionProjectionPhase::AwaitingPendingObservation { navigation }),
        *outcome == completed_with(observation),
    ensures
        ({
            let (after, transition) = control_step(
                active,
                command,
                outcome,
                network_operations,
                answers,
            );
            let same = observation.pending.identity == state.pending.identity;
            &&& same && navigation.target@ == observation.pending.target@ ==> transition
                is SubmitSessionNavigationObservation
            &&& transition is SubmitSessionNavigationObservation ==> {
                &&& navigation.target@ == observation.pending.target@
                &&& same || (state.kind is Automation && (answers.same_document matches Some(
                    Some(_),
                )))
            }
            &&& transition matches TransitionView::Consult(
                Consultation::ClassifySameDocument { source, navigation: about },
            ) ==> about == navigation && (state.kind matches SessionProjectionKind::Automation {
                settle_resume,
                ..
            } && settle_resume.authorizing_navigation == Some(source))
        }),
{
}

/// A projection that meets a replacement waits for exactly the two pipelines that the engine named,
/// from the navigation under which it observed.
pub proof fn law_a_projection_waits_for_the_named_pipelines(
    active: ActiveRequest,
    state: SessionProjectionState,
    command: DocumentControlCommand,
    outcome: Arc<DocumentControlReceiveOutcome>,
    network_operations: usize,
    answers: Answers,
)
    requires
        active.operation == ActiveOperation::SessionProjection(state),
        !(state.phase is AwaitingReplacementAdmission),
    ensures
        control_step(active, command, outcome, network_operations, answers).0.operation
            matches ActiveOperation::SessionProjection(next) ==> (next.phase
            matches SessionProjectionPhase::AwaitingReplacementAdmission {
            source,
            source_pipeline_id,
            pipeline_id,
        } ==> {
            &&& state.phase == (SessionProjectionPhase::AwaitingPendingObservation {
                navigation: source,
            })
            &&& *outcome matches DocumentControlReceiveOutcome::CommandOutcome {
                outcome: DocumentControlOutcome::Rejected {
                    error: DocumentControlError::ReplacementPipelineBootstrapRequired {
                        source_pipeline_id: named_source,
                        pipeline_id: named,
                    },
                    ..
                },
                ..
            } && named_source == source_pipeline_id && named == pipeline_id
            &&& source_pipeline_id != pipeline_id
            &&& source.target.pipelines@ == seq![source_pipeline_id]
            &&& next.pending == state.pending
        }),
{
}

/// Whether a transition that looks at the navigation leaves the engine alone meanwhile.
spec fn looks_quietly(transition: TransitionView) -> bool {
    transition matches TransitionView::SubmitSessionNavigationObservation { allow_servo_pump }
        ==> !allow_servo_pump
}

/// A request that goes on to look at the navigation does not let the engine run meanwhile: what it
/// observed must still stand.
#[verifier::rlimit(40)]
pub proof fn law_the_engine_stands_still_after_a_command(
    active: ActiveRequest,
    command: DocumentControlCommand,
    outcome: Arc<DocumentControlReceiveOutcome>,
    network_operations: usize,
    answers: Answers,
)
    ensures
        control_step(active, command, outcome, network_operations, answers).1
            matches TransitionView::SubmitSessionNavigationObservation { allow_servo_pump }
            ==> !allow_servo_pump,
{
    if let ActiveOperation::Settle(state) = active.operation {
        if let Some(Ok(progress)) = answers.progress {
            let next = settle_progress(
                state,
                active.started_at,
                progress,
                active.state_effect,
                answers,
            ).1;
            assert(looks_quietly(next));
        }
    }
}

/// Nor does one that looks at the navigation again.
#[verifier::rlimit(60)]
pub proof fn law_the_engine_stands_still_after_a_look(
    active: ActiveRequest,
    completion: NavigationOperationCompletion,
    network_operations: usize,
    answers: Answers,
)
    ensures
        navigation_step(active, completion, network_operations, answers).1
            matches TransitionView::SubmitSessionNavigationObservation { allow_servo_pump }
            ==> !allow_servo_pump,
{
    if let ActiveOperation::Settle(state) = active.operation {
        if let Some(Ok(progress)) = answers.progress {
            assert forall|next: SettleState|
                looks_quietly(
                    (#[trigger] settle_progress(
                        next,
                        active.started_at,
                        progress,
                        active.state_effect,
                        answers,
                    )).1,
                ) by {}
        }
    }
}

/// A request that looks at the navigation, or asks for one, expects a navigation completion;
/// otherwise its answer would never be taken up. While it looks, no wake makes the engine run.
#[verifier::rlimit(40)]
pub proof fn law_a_request_that_looks_expects_an_answer(
    active: ActiveRequest,
    command: DocumentControlCommand,
    outcome: Arc<DocumentControlReceiveOutcome>,
    network_operations: usize,
    answers: Answers,
)
    ensures
        ({
            let (after, transition) = control_step(
                active,
                command,
                outcome,
                network_operations,
                answers,
            );
            &&& transition is SubmitSessionNavigationObservation || transition
                is SubmitSessionNavigation ==> expects_navigation(after.operation)
            &&& transition is SubmitSessionNavigationObservation ==> suppresses_pump(
                after.operation,
            )
            &&& transition matches TransitionView::ProjectSession(projection)
                ==> expects_navigation(ActiveOperation::SessionProjection(projection))
        }),
{
    if let ActiveOperation::Settle(state) = active.operation {
        if let Some(Ok(progress)) = answers.progress {
            lemma_progress_expects_an_answer(
                state,
                active.started_at,
                progress,
                active.state_effect,
                answers,
            );
        }
    }
}

proof fn lemma_progress_expects_an_answer(
    state: SettleState,
    started_at: u64,
    progress: SettleProgress,
    effect: crate::profile::RequestStateEffect,
    answers: Answers,
)
    ensures
        ({
            let (after, transition) = settle_progress(
                state,
                started_at,
                progress,
                effect,
                answers,
            );
            &&& transition is SubmitSessionNavigationObservation ==> expects_navigation(
                ActiveOperation::Settle(after),
            ) && suppresses_pump(ActiveOperation::Settle(after))
            &&& transition matches TransitionView::ProjectSession(projection)
                ==> expects_navigation(ActiveOperation::SessionProjection(projection))
        }),
{
}

/// A settlement whose token names the observed document keeps the navigation and observes the
/// document; one whose document is gone is stale, and is rejected once that is latched.
pub proof fn law_a_settlement_is_authorized_by_its_token(
    active: ActiveRequest,
    state: SettleState,
    navigation: Arc<SessionNavigationAuthority>,
    completion: NavigationOperationCompletion,
    outcome: Arc<DocumentControlReceiveOutcome>,
    network_operations: usize,
    answers: Answers,
)
    requires
        active.operation == ActiveOperation::Settle(state),
        state.authority_bound_command is None,
        state.replacement is None,
        state.authorizing_document_state is Some,
        state.authorizing_observation is None,
        completion.kind == NavigationOperationKind::Observe,
        completion.outcome matches Some(Ok(seen)) && seen == navigation,
        navigation.terminal is None,
    ensures
        state.authorizing_navigation is None && answers.matches_navigation == Some(true) ==> {
            let (after, transition) = navigation_step(
                active,
                completion,
                network_operations,
                answers,
            );
            &&& transition == TransitionView::Submit(DocumentControlCommand::Observe)
            &&& after.operation == ActiveOperation::Settle(
                SettleState { authorizing_navigation: Some(navigation), ..state },
            )
        },
        *outcome matches DocumentControlReceiveOutcome::CommandOutcome {
            outcome: DocumentControlOutcome::Rejected { error, .. },
            fault: None,
        } ==> (error is TargetChanged || error is ReplacementPipelineBootstrapRequired ==> {
            let transition = control_step(
                active,
                DocumentControlCommand::Observe,
                outcome,
                network_operations,
                answers,
            ).1;
            match answers.latched {
                None => transition == TransitionView::Consult(
                    Consultation::LatchStale { authority: state.authorizing_document_state->0 },
                ),
                Some(true) => transition is RejectStaleStateToken,
                Some(false) => ends(
                    transition,
                    "internal_runtime_failure"@,
                    told(active.state_effect),
                ),
            }
        }),
{
}

/// An opened session makes its first turn in the document that the navigation shows, on the web and
/// in the view and event loop that were opened.
pub proof fn law_an_opened_session_turns_in_its_own_view(
    active: ActiveRequest,
    state: SettleState,
    navigation: Arc<SessionNavigationAuthority>,
    completion: NavigationOperationCompletion,
    network_operations: usize,
    answers: Answers,
)
    requires
        active.operation == ActiveOperation::Settle(state),
        state.authority_bound_command is Some,
        state.response is ControlledOpen,
        state.authorizing_navigation is None,
        state.replacement is None,
        completion.outcome matches Some(Ok(seen)) && seen == navigation,
    ensures
        ({
            let (after, transition) = navigation_step(
                active,
                completion,
                network_operations,
                answers,
            );
            transition matches TransitionView::Submit(command) ==> {
                &&& Some(command) == state.authority_bound_command
                &&& navigation.scheme is Http || navigation.scheme is Https
                &&& state.latest_pending_target matches Some(target) && target.webview_id
                    == navigation.target.webview_id && target.event_loop_id
                    == navigation.target.event_loop_id
                &&& after.operation == ActiveOperation::Settle(
                    SettleState {
                        latest_pending_target: Some(navigation.target),
                        authorizing_navigation: Some(navigation),
                        authority_bound_command: None,
                        ..state
                    },
                )
            }
        }),
{
}

/// The time that a request has waited for external I/O, while it settles and while its result is
/// projected.
pub open spec fn time_spent(operation: ActiveOperation) -> Option<u64> {
    match operation {
        ActiveOperation::SessionProjection(state) => match state.kind {
            SessionProjectionKind::Navigate { cumulative_external_io_wall_time_ns, .. } => Some(
                cumulative_external_io_wall_time_ns,
            ),
            SessionProjectionKind::ControlledOpen {
                cumulative_external_io_wall_time_ns,
                ..
            } => Some(cumulative_external_io_wall_time_ns),
            SessionProjectionKind::Automation { settle_resume, .. } => Some(
                settle_resume.cumulative_external_io_wall_time_ns,
            ),
            SessionProjectionKind::Value { settle_resume: Some(resume), .. } => Some(
                resume.cumulative_external_io_wall_time_ns,
            ),
            _ => None,
        },
        _ => time_waited(operation),
    }
}

/// The time that an open or a navigation has waited is kept when its result is projected, and when
/// it goes back to settle because its document drifted.
pub proof fn law_waited_time_is_not_forgotten(
    active: ActiveRequest,
    command: DocumentControlCommand,
    outcome: Arc<DocumentControlReceiveOutcome>,
    network_operations: usize,
    answers: Answers,
)
    ensures
        ({
            let (after, transition) = control_step(
                active,
                command,
                outcome,
                network_operations,
                answers,
            );
            &&& active.operation is Navigate || active.operation is Settle || (active.operation
                matches ActiveOperation::ControlledOpen(state) && state.settlement is Some) ==> (
            transition matches TransitionView::ProjectSession(projection) ==> time_spent(
                ActiveOperation::SessionProjection(projection),
            ) == time_spent(active.operation))
            &&& active.operation matches ActiveOperation::SessionProjection(state) ==> (way_back(
                state.kind,
            ) is None && (state.kind is Navigate || state.kind is ControlledOpen) ==> time_spent(
                after.operation,
            ) == time_spent(active.operation))
        }),
{
    if let ActiveOperation::Settle(state) = active.operation {
        if let Some(Ok(progress)) = answers.progress {
            lemma_progress_keeps_the_time(
                state,
                active.started_at,
                progress,
                active.state_effect,
                answers,
            );
        }
    }
}

proof fn lemma_progress_keeps_the_time(
    state: SettleState,
    started_at: u64,
    progress: SettleProgress,
    effect: crate::profile::RequestStateEffect,
    answers: Answers,
)
    ensures
        settle_progress(state, started_at, progress, effect, answers).1
            matches TransitionView::ProjectSession(projection) ==> time_spent(
            ActiveOperation::SessionProjection(projection),
        ) == Some(state.cumulative_external_io_wall_time_ns),
{
}

/// A projection that meets a replacement settles from the snapshot that it had.
pub proof fn law_a_projection_settles_from_its_snapshot(
    active: ActiveRequest,
    state: SessionProjectionState,
    completion: NavigationOperationCompletion,
    network_operations: usize,
    answers: Answers,
)
    requires
        active.operation == ActiveOperation::SessionProjection(state),
    ensures
        navigation_step(active, completion, network_operations, answers).0.operation
            matches ActiveOperation::Settle(settle) ==> {
            &&& settle.replacement is Some ==> settle.latest_pending_target == Some(
                state.pending.target,
            )
            &&& way_back(state.kind) matches Some(resume) && settle.response == resume.response
                && settle.effective_policy == resume.effective_policy
                && settle.cumulative_external_io_wall_time_ns
                == resume.cumulative_external_io_wall_time_ns && settle.profile == resume.profile
            &&& settle.authority_bound_command is None
            &&& settle.authorizing_document_state is None
        },
{
}

} // verus!
