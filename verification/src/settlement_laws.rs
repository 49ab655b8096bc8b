//! What the settlement coordinator is told, and that its requests are carried out as it makes them.

use std::sync::Arc;
use vstd::prelude::*;

use crate::active::{
    ActiveOperation, ActiveRequest, Answers, Consultation, SessionProjectionKind,
    SettleReplacementPhase, SettleState, TransitionView,
};
use crate::authority::{replacement_ready, SessionNavigationAuthority};
use crate::control::{
    CurrentDocumentStateAuthority, DocumentControlCommand, DocumentControlObservation,
    DocumentControlOutcome, DocumentControlReceiveOutcome, NavigationOperationCompletion,
    NavigationOperationKind, SettleCompletion, SettleProgress,
};
use crate::control_step::control_step;
use crate::json::value_json;
use crate::navigation_step::navigation_step;
use crate::operation_laws::{is_session, is_webapp};
use crate::profile::RequestStateEffect;
use crate::settle::settle_progress;

verus! {

/// How long a request has waited for external I/O so far.
pub open spec fn time_waited(operation: ActiveOperation) -> Option<u64> {
    match operation {
        ActiveOperation::ControlledOpen(state) => match state.settlement {
            Some(settlement) => Some(settlement.cumulative_external_io_wall_time_ns),
            None => None,
        },
        ActiveOperation::Settle(state) => Some(state.cumulative_external_io_wall_time_ns),
        ActiveOperation::Navigate(state) => Some(state.cumulative_external_io_wall_time_ns),
        _ => None,
    }
}

/// Whether the outcome of a command goes to the coordinator as soon as it comes.
pub open spec fn settles_plainly(operation: ActiveOperation) -> bool {
    match operation {
        ActiveOperation::ControlledOpen(state) => state.settlement is Some,
        ActiveOperation::Settle(state) => state.replacement is None
            && state.authority_bound_command is None && state.authorizing_document_state is None,
        ActiveOperation::Navigate(state) => state.phase is Settling,
        _ => false,
    }
}

/// The coordinator gets each outcome as it came, with the wall time that was waited, and is told
/// that external I/O is active exactly where a network operation is; so it cannot find a page quiet
/// whose network works.
pub proof fn law_the_coordinator_is_told_of_active_network(
    active: ActiveRequest,
    command: DocumentControlCommand,
    outcome: Arc<DocumentControlReceiveOutcome>,
    network_operations: usize,
    answers: Answers,
)
    ensures
        ({
            let transition = control_step(
                active,
                command,
                outcome,
                network_operations,
                answers,
            ).1;
            &&& transition matches TransitionView::Consult(
                Consultation::ConsumeOutcome {
                    outcome: told,
                    cumulative_wall_time_ns,
                    external_io_active,
                },
            ) ==> {
                &&& told == outcome
                &&& external_io_active <==> network_operations != 0
                &&& time_waited(active.operation) == Some(cumulative_wall_time_ns)
            }
            &&& settles_plainly(active.operation) && answers.progress is None
                ==> transition is Consult && transition->Consult_0 is ConsumeOutcome
            &&& !(transition matches TransitionView::Consult(
                Consultation::StartWithObservation { .. },
            ))
        }),
{
    if let ActiveOperation::Settle(state) = active.operation {
        if let Some(Ok(progress)) = answers.progress {
            lemma_progress_is_not_consumed_again(
                state,
                active.started_at,
                progress,
                active.state_effect,
                answers,
            );
        }
    }
}

proof fn lemma_progress_is_not_consumed_again(
    state: SettleState,
    started_at: u64,
    progress: SettleProgress,
    effect: RequestStateEffect,
    answers: Answers,
)
    ensures
        ({
            let transition = settle_progress(state, started_at, progress, effect, answers).1;
            transition matches TransitionView::Consult(question) ==> question is ProjectSettlement
                || question is ProjectPending
        }),
{
}

/// While a document replaces another, the outcome of each command is held with its command, and
/// with whether the network was active when it came.
pub proof fn law_an_outcome_is_held_while_a_document_is_replaced(
    active: ActiveRequest,
    state: SettleState,
    command: DocumentControlCommand,
    outcome: Arc<DocumentControlReceiveOutcome>,
    network_operations: usize,
    answers: Answers,
)
    requires
        active.operation == ActiveOperation::Settle(state),
        state.authority_bound_command is None,
    ensures
        ({
            let (after, transition) = control_step(
                active,
                command,
                outcome,
                network_operations,
                answers,
            );
            &&& state.replacement matches Some(
                SettleReplacementPhase::Activating { source, admitted },
            ) ==> {
                &&& after.operation matches ActiveOperation::Settle(next) && next.replacement
                    == Some(
                    SettleReplacementPhase::AwaitingActivation {
                        source,
                        admitted,
                        command,
                        control_outcome: outcome,
                        controlled_network_active: network_operations != 0,
                    },
                )
                &&& transition is SubmitSessionNavigationObservation
                &&& !transition->allow_servo_pump
            }
            &&& state.replacement matches Some(
                SettleReplacementPhase::Bootstrapping { source, admitted, command: expected },
            ) ==> if command == expected {
                &&& after.operation matches ActiveOperation::Settle(next) && next.replacement
                    == Some(
                    SettleReplacementPhase::AwaitingActivation {
                        source,
                        admitted,
                        command,
                        control_outcome: outcome,
                        controlled_network_active: network_operations != 0,
                    },
                )
                &&& transition is SubmitSessionNavigationObservation
                &&& !transition->allow_servo_pump
            } else {
                transition is Fail && transition->Fail_0.fail_stop
            }
        }),
{
}

/// Whether a navigation shows the document that comes next in the session after another's.
pub open spec fn shows_the_next_document(
    source: Arc<SessionNavigationAuthority>,
    navigation: Arc<SessionNavigationAuthority>,
) -> bool {
    &&& navigation.document_epoch == source.document_epoch + 1
    &&& navigation.successful_document_replacements == source.successful_document_replacements + 1
    &&& navigation.navigation_id == source.navigation_id + 1
}

/// Whether the replacement that a settlement waits for is finished in a navigation.
pub open spec fn replacement_progress_is_done(
    state: SettleState,
    navigation: Arc<SessionNavigationAuthority>,
) -> bool {
    state.replacement matches Some(
        SettleReplacementPhase::AwaitingActivation { source, admitted, .. },
    ) && replacement_ready(source@, admitted@, navigation@)
}

/// A held outcome reaches the coordinator unchanged once the replacement was looked at. External
/// I/O counts as active until the next document is there, and then as it was when the outcome came.
pub proof fn law_a_held_outcome_reaches_the_coordinator(
    active: ActiveRequest,
    completion: NavigationOperationCompletion,
    network_operations: usize,
    answers: Answers,
)
    ensures
        navigation_step(active, completion, network_operations, answers).1
            matches TransitionView::Consult(
            Consultation::ConsumeOutcome {
                outcome: told,
                cumulative_wall_time_ns,
                external_io_active,
            },
        ) ==> {
            &&& time_waited(active.operation) == Some(cumulative_wall_time_ns)
            &&& active.operation matches ActiveOperation::Settle(state) && (state.replacement
                matches Some(
                SettleReplacementPhase::AwaitingActivation {
                    source,
                    control_outcome,
                    controlled_network_active,
                    ..
                },
            ) && {
                &&& told == control_outcome
                &&& controlled_network_active ==> external_io_active
                &&& !external_io_active ==> (completion.outcome matches Some(Ok(navigation))
                    && shows_the_next_document(source, navigation))
                &&& !controlled_network_active && external_io_active ==> (completion.outcome
                    matches Some(Ok(navigation)) && !(shows_the_next_document(source, navigation)
                    && (*control_outcome matches DocumentControlReceiveOutcome::CommandOutcome {
                    outcome: DocumentControlOutcome::Completed(observation),
                    ..
                } && observation.pending.target@ == navigation.target@)
                    && replacement_progress_is_done(state, navigation)))
            })
        },
{
}

/// A settlement whose token was confirmed starts with the very observation that confirmed it, and
/// is told that external I/O is active exactly where a network operation is.
pub proof fn law_a_confirmed_settlement_starts_with_its_observation(
    active: ActiveRequest,
    completion: NavigationOperationCompletion,
    network_operations: usize,
    answers: Answers,
)
    ensures
        navigation_step(active, completion, network_operations, answers).1
            matches TransitionView::Consult(
            Consultation::StartWithObservation {
                observation,
                cumulative_wall_time_ns,
                external_io_active,
            },
        ) ==> {
            &&& external_io_active <==> network_operations != 0
            &&& active.operation matches ActiveOperation::Settle(state) && {
                &&& state.authorizing_observation == Some(observation)
                &&& state.cumulative_external_io_wall_time_ns == cumulative_wall_time_ns
                &&& answers.matches_navigation == Some(true)
                &&& state.authorizing_document_state is Some
                &&& observation.pending.target@ == state.authorizing_document_state->0.target@
                &&& observation.pending.state_generation
                    >= state.authorizing_document_state->0.state_generation
                &&& completion.outcome matches Some(Ok(navigation))
                    && state.authorizing_navigation is Some && navigation@
                    == state.authorizing_navigation->0@ && navigation.target@
                    == observation.pending.target@
            }
        },
{
}

/// What the coordinator asks for is done: a command is submitted as it stands, except that in a
/// session each turn is first bound to the document that is there; a wait is made as long as it
/// says.
pub proof fn law_a_settlement_does_what_its_coordinator_asks(
    active: ActiveRequest,
    state: SettleState,
    command: DocumentControlCommand,
    outcome: Arc<DocumentControlReceiveOutcome>,
    network_operations: usize,
    answers: Answers,
)
    requires
        active.operation == ActiveOperation::Settle(state),
        settles_plainly(active.operation),
    ensures
        ({
            let (after, transition) = control_step(
                active,
                command,
                outcome,
                network_operations,
                answers,
            );
            &&& answers.progress matches Some(Ok(SettleProgress::Wait(wait))) ==> {
                &&& transition == TransitionView::Wait(wait)
                &&& after == active
            }
            &&& answers.progress matches Some(Ok(SettleProgress::Command(next))) ==> if next
                == DocumentControlCommand::DriveOneTurn && is_session(Some(state.profile)) {
                &&& !(transition is Submit)
                &&& state.latest_pending_target is Some ==> {
                    &&& transition == (TransitionView::SubmitSessionNavigationObservation {
                        allow_servo_pump: false,
                    })
                    &&& after.operation matches ActiveOperation::Settle(held)
                        && held.authority_bound_command == Some(next)
                }
            } else {
                transition == TransitionView::Submit(next) && after == active
            }
            &&& answers.progress matches Some(Ok(SettleProgress::Complete(completion))) ==> (
            state.response is Runtime && answers.projected is None ==> transition
                == TransitionView::Consult(
                Consultation::ProjectSettlement {
                    policy: state.effective_policy,
                    started_at: active.started_at,
                },
            ))
            &&& answers.progress matches Some(Ok(SettleProgress::Complete(completion))) ==> (
            state.response is Runtime ==> (answers.projected matches Some(Ok(value)) ==> if is_webapp(
                Some(state.profile),
            ) {
                transition == TransitionView::Complete(value_json(*value))
            } else {
                &&& transition is ProjectSession
                &&& transition->ProjectSession_0.kind matches SessionProjectionKind::Value {
                    value: published,
                    snapshot_token,
                    settle_resume,
                } && published == value && snapshot_token && settle_resume is Some
            }))
            &&& answers.progress matches Some(Err(_)) ==> transition is Fail
        }),
{
}

/// Whether a settlement found the page quiet.
pub open spec fn is_quiet(completion: SettleCompletion) -> bool {
    completion is Quiescent || completion is QuiescentWithPersistentWork
}

/// A settlement that a navigation, an open or an action needs leads to its answer only where the
/// page became quiet; the answer is then about the snapshot of that quiet page.
pub proof fn law_only_a_quiet_page_is_answered_for(
    state: SettleState,
    started_at: u64,
    completion: SettleCompletion,
    effect: RequestStateEffect,
    answers: Answers,
)
    requires
        !(state.response is Runtime),
    ensures
        ({
            let transition = settle_progress(
                state,
                started_at,
                SettleProgress::Complete(completion),
                effect,
                answers,
            ).1;
            &&& !is_quiet(completion) || state.replacement is Some ==> transition is Fail
                && transition->Fail_0.fail_stop
            &&& transition matches TransitionView::ProjectSession(projection) ==> match completion {
                SettleCompletion::Quiescent { pending } => projection.pending == pending,
                SettleCompletion::QuiescentWithPersistentWork { pending } => projection.pending
                    == pending,
                _ => false,
            }
            &&& transition matches TransitionView::Consult(question) ==> match completion {
                SettleCompletion::Quiescent { pending } => question
                    == (Consultation::ProjectPending { pending }),
                SettleCompletion::QuiescentWithPersistentWork { pending } => question
                    == (Consultation::ProjectPending { pending }),
                _ => false,
            }
        }),
{
}

/// A settlement whose token is confirmed by two equal looks at the navigation, with an observation
/// of the document it names between them, starts.
pub proof fn law_a_twice_confirmed_settlement_starts(
    active: ActiveRequest,
    state: SettleState,
    first: Arc<SessionNavigationAuthority>,
    observation: Arc<DocumentControlObservation>,
    expected: Arc<CurrentDocumentStateAuthority>,
    navigation: Arc<SessionNavigationAuthority>,
    completion: NavigationOperationCompletion,
    network_operations: usize,
    answers: Answers,
)
    requires
        active.operation == ActiveOperation::Settle(state),
        state.authority_bound_command is None,
        state.replacement is None,
        state.authorizing_document_state == Some(expected),
        state.authorizing_navigation == Some(first),
        state.authorizing_observation == Some(observation),
        completion.kind == NavigationOperationKind::Observe,
        completion.outcome matches Some(Ok(seen)) && seen == navigation,
        navigation.terminal is None,
        navigation@ == first@,
        observation.pending.target@ == expected.target@,
        navigation.target@ == observation.pending.target@,
        observation.pending.state_generation >= expected.state_generation,
    ensures
        ({
            let (after, transition) = navigation_step(
                active,
                completion,
                network_operations,
                answers,
            );
            &&& answers.matches_navigation is None ==> transition == TransitionView::Consult(
                Consultation::MatchNavigation { authority: expected, navigation },
            )
            &&& answers.matches_navigation == Some(true) && answers.progress is None ==> transition
                == TransitionView::Consult(
                Consultation::StartWithObservation {
                    observation,
                    cumulative_wall_time_ns: state.cumulative_external_io_wall_time_ns,
                    external_io_active: network_operations != 0,
                },
            )
            &&& answers.matches_navigation == Some(true) ==> (answers.progress matches Some(
                Ok(SettleProgress::Wait(wait)),
            ) ==> {
                &&& transition == TransitionView::Wait(wait)
                &&& after.operation == ActiveOperation::Settle(
                    SettleState {
                        authorizing_document_state: None,
                        authorizing_observation: None,
                        authorizing_navigation: Some(navigation),
                        latest_pending_target: Some(observation.pending.target),
                        ..state
                    },
                )
            })
        }),
{
}

} // verus!
