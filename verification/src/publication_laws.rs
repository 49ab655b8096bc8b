//! How a result reaches its answer: from the observation that completed it, over the token that
//! names the document's state, to the members of the answer.

use std::sync::Arc;

use vstd::prelude::*;

use crate::active::{
    ActiveOperation, ActiveRequest, Answers, AuditState, AutomationState, Consultation,
    PublicAutomationKind, SessionProjectionKind, SessionProjectionPhase, SessionProjectionState,
    TransitionView,
};
use crate::answer_laws::json_of;
use crate::control::{
    DocumentControlCommand, DocumentControlObservation, DocumentControlOutcome,
    DocumentControlReceiveOutcome, NavigationOperationCompletion,
};
use crate::control_step::control_step;
use crate::json::{law_setting_a_member_leaves_the_others, member_of};
use crate::navigation_step::navigation_step;
use crate::operation_laws::{completed_with, is_session, is_webapp};

verus! {

proof fn lemma_token_is_not_a_snapshot()
    ensures
        "stateToken"@ != "snapshot"@,
{
    reveal_strlit("stateToken");
    reveal_strlit("snapshot");
    assert("stateToken"@.len() == 10);
    assert("snapshot"@.len() == 8);
}

/// A published result has the token of the document's state as its member `stateToken`, and every
/// other member as it was projected.
pub proof fn law_a_published_result_keeps_its_members(
    active: ActiveRequest,
    state: SessionProjectionState,
    completion: NavigationOperationCompletion,
    network_operations: usize,
    answers: Answers,
    name: Seq<char>,
)
    requires
        active.operation == ActiveOperation::SessionProjection(state),
    ensures
        navigation_step(active, completion, network_operations, answers).1
            matches TransitionView::Complete(json) ==> {
            &&& answers.token is Some
            &&& answers.token->0 is Ok
            &&& state.kind matches SessionProjectionKind::Value {
                value,
                snapshot_token,
                ..
            } ==> {
                &&& member_of(json, "stateToken"@) == Some(json_of(answers.token->0->Ok_0))
                &&& name != "stateToken"@ && !(snapshot_token && name == "snapshot"@) ==> member_of(
                    json,
                    name,
                ) == member_of(json_of(value), name)
                &&& snapshot_token ==> {
                    &&& member_of(json_of(value), "snapshot"@) is Some
                    &&& member_of(json, "snapshot"@) is Some
                    &&& member_of(member_of(json, "snapshot"@)->0, "stateToken"@) == Some(
                        json_of(answers.token->0->Ok_0),
                    )
                    &&& name != "stateToken"@ ==> member_of(
                        member_of(json, "snapshot"@)->0,
                        name,
                    ) == member_of(member_of(json_of(value), "snapshot"@)->0, name)
                }
            }
            &&& state.kind is Automation ==> {
                &&& answers.projected is Some && answers.projected->0 is Ok
                &&& member_of(json, "stateToken"@) == Some(json_of(answers.token->0->Ok_0))
                &&& name != "stateToken"@ ==> member_of(json, name) == member_of(
                    json_of(answers.projected->0->Ok_0),
                    name,
                )
            }
            &&& state.kind is Navigate ==> {
                &&& answers.projected is Some && answers.projected->0 is Ok
                &&& json == json_of(answers.projected->0->Ok_0)
            }
        },
{
    lemma_token_is_not_a_snapshot();
    if answers.token is Some && answers.token->0 is Ok {
        let token = json_of(answers.token->0->Ok_0);
        if let SessionProjectionKind::Value { value, snapshot_token, .. } = state.kind {
            let json = json_of(value);
            law_setting_a_member_leaves_the_others(json, "stateToken"@, token, name);
            law_setting_a_member_leaves_the_others(json, "stateToken"@, token, "snapshot"@);
            if let Some(with_token) = crate::json::inserted(json, "stateToken"@, token) {
                if let Some(snapshot) = member_of(with_token, "snapshot"@) {
                    law_setting_a_member_leaves_the_others(snapshot, "stateToken"@, token, name);
                    if let Some(named) = crate::json::inserted(snapshot, "stateToken"@, token) {
                        law_setting_a_member_leaves_the_others(with_token, "snapshot"@, named, name);
                        law_setting_a_member_leaves_the_others(
                            with_token,
                            "snapshot"@,
                            named,
                            "stateToken"@,
                        );
                    }
                }
            }
        }
        if answers.projected is Some && answers.projected->0 is Ok {
            law_setting_a_member_leaves_the_others(
                json_of(answers.projected->0->Ok_0),
                "stateToken"@,
                token,
                name,
            );
        }
    }
}

/// A result is published under a token for the snapshot that was observed last and for the
/// navigation that was seen, unchanged, before that observation and after it. What is projected for
/// it is about the same snapshot and navigation.
pub proof fn law_a_token_names_what_was_observed(
    active: ActiveRequest,
    state: SessionProjectionState,
    completion: NavigationOperationCompletion,
    network_operations: usize,
    answers: Answers,
)
    requires
        active.operation == ActiveOperation::SessionProjection(state),
    ensures
        ({
            let transition = navigation_step(active, completion, network_operations, answers).1;
            &&& transition matches TransitionView::Consult(
                Consultation::DocumentStateToken { pending, navigation },
            ) ==> {
                &&& pending == state.pending
                &&& completion.outcome matches Some(Ok(seen)) && seen == navigation
                &&& navigation.terminal is None
                &&& state.phase matches SessionProjectionPhase::AwaitingStableNavigation {
                    navigation: before,
                } && before@ == navigation@
            }
            &&& transition matches TransitionView::Consult(
                Consultation::ProjectAutomation { pending, .. },
            ) ==> pending == state.pending && answers.token is Some && answers.token->0 is Ok
            &&& transition matches TransitionView::Consult(
                Consultation::ProjectNavigation { pending, navigation, .. },
            ) ==> pending == state.pending && completion.outcome is Some && completion.outcome->0 is Ok
                && completion.outcome->0->Ok_0 == navigation && answers.token is Some
                && answers.token->0 is Ok
            &&& transition is Complete ==> {
                &&& completion.outcome is Some
                &&& completion.outcome->0 is Ok
                &&& state.phase matches SessionProjectionPhase::AwaitingStableNavigation {
                    navigation: before,
                } && before@ == completion.outcome->0->Ok_0@
            }
        }),
{
}

/// A projection keeps what it observed: the snapshot becomes that of the observation, bracketed by
/// the navigation that was seen before it.
pub proof fn law_a_projection_keeps_what_it_observed(
    active: ActiveRequest,
    state: SessionProjectionState,
    command: DocumentControlCommand,
    outcome: Arc<DocumentControlReceiveOutcome>,
    network_operations: usize,
    answers: Answers,
)
    requires
        active.operation == ActiveOperation::SessionProjection(state),
    ensures
        ({
            let (after, transition) = control_step(
                active,
                command,
                outcome,
                network_operations,
                answers,
            );
            &&& !(transition is Complete)
            &&& after.operation matches ActiveOperation::SessionProjection(next) ==> (
            next.phase is AwaitingStableNavigation && transition is SubmitSessionNavigationObservation
                && !(state.phase is AwaitingStableNavigation) ==> {
                &&& state.phase matches SessionProjectionPhase::AwaitingPendingObservation {
                    navigation,
                } && next.phase == (SessionProjectionPhase::AwaitingStableNavigation {
                    navigation,
                })
                &&& *outcome matches DocumentControlReceiveOutcome::CommandOutcome {
                    outcome: DocumentControlOutcome::Completed(observation),
                    fault: None,
                } && next.pending == observation.pending
            })
        }),
{
}

/// A request for the pending work is answered from the observation that its command completed with.
pub proof fn law_pending_work_is_that_of_the_observation(
    active: ActiveRequest,
    command: DocumentControlCommand,
    observation: Arc<DocumentControlObservation>,
    outcome: Arc<DocumentControlReceiveOutcome>,
    network_operations: usize,
    answers: Answers,
)
    requires
        active.operation is Pending,
        *outcome == completed_with(observation),
    ensures
        ({
            let transition = control_step(
                active,
                command,
                outcome,
                network_operations,
                answers,
            ).1;
            &&& answers.projected is None ==> transition == TransitionView::Consult(
                Consultation::ProjectPending { pending: observation.pending },
            )
            &&& answers.projected matches Some(Ok(value)) ==> if is_session(active.profile) {
                &&& transition matches TransitionView::ProjectSession(projection)
                    && projection.pending == observation.pending && (projection.kind
                    matches SessionProjectionKind::Value { value: published, snapshot_token, .. }
                    && published == value && !snapshot_token)
            } else {
                transition == TransitionView::Complete(json_of(value))
            }
            &&& answers.projected matches Some(Err(_)) ==> transition is Fail
        }),
{
}

/// The value of an audit is published as it was taken, without a token in a snapshot, once.
pub proof fn law_an_audit_is_published_as_it_was_taken(
    active: ActiveRequest,
    state: AuditState,
    command: DocumentControlCommand,
    observation: Arc<DocumentControlObservation>,
    outcome: Arc<DocumentControlReceiveOutcome>,
    network_operations: usize,
    answers: Answers,
)
    requires
        active.operation == ActiveOperation::Audit(state),
        *outcome == completed_with(observation),
    ensures
        ({
            let (after, transition) = control_step(
                active,
                command,
                outcome,
                network_operations,
                answers,
            );
            &&& state.value matches Some(value) ==> {
                &&& transition matches TransitionView::ProjectSession(projection)
                    && projection.pending == observation.pending && (projection.kind
                    matches SessionProjectionKind::Value { value: published, snapshot_token, .. }
                    && published == value && !snapshot_token)
                &&& after.operation matches ActiveOperation::Audit(next) && next.value is None
            }
            &&& state.value is None ==> transition is Fail
        }),
{
}

/// An automation command is the one that its parameters were bound to, in the document that was
/// just observed; nothing is submitted before the binding succeeded, and nothing after it.
pub proof fn law_an_automation_command_is_the_bound_one(
    active: ActiveRequest,
    state: AutomationState,
    command: DocumentControlCommand,
    outcome: Arc<DocumentControlReceiveOutcome>,
    network_operations: usize,
    answers: Answers,
)
    requires
        active.operation == ActiveOperation::Automation(state),
    ensures
        ({
            let (after, transition) = control_step(
                active,
                command,
                outcome,
                network_operations,
                answers,
            );
            &&& transition matches TransitionView::Consult(
                Consultation::BindAutomation { params, pending, navigation },
            ) ==> {
                &&& after == active
                &&& command == DocumentControlCommand::Observe
                &&& state.unresolved == Some(params)
                &&& *outcome matches DocumentControlReceiveOutcome::CommandOutcome {
                    outcome: DocumentControlOutcome::Completed(observation),
                    fault: None,
                } && pending == observation.pending
                &&& params is Session ==> navigation is Some && navigation
                    == state.authorizing_navigation
                &&& !(params is Session) ==> navigation is None
            }
            &&& transition matches TransitionView::Submit(submitted) ==> {
                &&& state.unresolved is Some
                &&& command == DocumentControlCommand::Observe
                &&& answers.bound matches Some(Ok(bound)) && submitted
                    == DocumentControlCommand::Automate(bound)
                &&& after.operation matches ActiveOperation::Automation(next) && next.unresolved
                    is None && next.kind == state.kind && next.profile == state.profile
            }
            &&& answers.bound matches Some(Err(_)) ==> (state.unresolved is Some ==> transition
                is Fail || transition is RejectStaleStateToken)
        }),
{
}

/// Whether a method changes the page.
pub open spec fn changes_the_page(kind: PublicAutomationKind) -> bool {
    !(kind is Query || kind is Text || kind is Extract)
}

/// The result of an automation command is projected as it came, under the snapshot it came with. In
/// a session the result of an action is kept until the page has settled.
pub proof fn law_an_automation_result_is_the_one_that_came(
    active: ActiveRequest,
    state: AutomationState,
    command: DocumentControlCommand,
    result: u64,
    observation: Arc<DocumentControlObservation>,
    emitted: bool,
    outcome: Arc<DocumentControlReceiveOutcome>,
    network_operations: usize,
    answers: Answers,
)
    requires
        active.operation == ActiveOperation::Automation(state),
        state.unresolved is None,
        command is Automate,
        *outcome == (DocumentControlReceiveOutcome::CommandOutcome {
            outcome: DocumentControlOutcome::AutomationCompleted {
                result,
                observation,
                synchronous_navigation_emitted: emitted,
            },
            fault: None,
        }),
    ensures
        ({
            let (after, transition) = control_step(
                active,
                command,
                outcome,
                network_operations,
                answers,
            );
            if is_session(Some(state.profile)) && changes_the_page(state.kind) {
                state.completed is None ==> {
                    &&& transition is SubmitSessionNavigationObservation
                    &&& after.operation matches ActiveOperation::Automation(next) && (next.completed
                        matches Some(completed) && completed.result == result && completed.pending
                        == observation.pending && completed.synchronous_navigation_emitted
                        == emitted)
                }
            } else {
                &&& answers.projected is None ==> transition == TransitionView::Consult(
                    Consultation::ProjectAutomation {
                        kind: state.kind,
                        result,
                        pending: observation.pending,
                    },
                )
                &&& answers.projected matches Some(Ok(value)) ==> if is_webapp(
                    Some(state.profile),
                ) {
                    transition == TransitionView::Complete(json_of(value))
                } else {
                    transition matches TransitionView::ProjectSession(projection)
                        && projection.pending == observation.pending && (projection.kind
                        matches SessionProjectionKind::Value {
                        value: published,
                        snapshot_token,
                        ..
                    } && published == value && !snapshot_token)
                }
            }
        }),
{
}

} // verus!
