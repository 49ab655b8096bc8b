//! What a completion changes before it is decided on: what counts as changed, how long was waited,
//! and what is recorded as evidence.

use std::sync::Arc;

use serde_json::Value;
use vstd::prelude::*;

use crate::active::{
    ActiveOperation, ActiveRequest, Answers, Consultation, SessionProjectionKind,
    SessionProjectionPhase, SessionProjectionState, SettleHostWait, SettleReplacementPhase,
    SettleState, TransitionView,
};
use crate::authority::{SessionNavigationAuthority, SessionNavigationTerminal};
use crate::control::{
    DocumentControlCommand, DocumentControlOutcome, DocumentControlReceiveOutcome,
    NavigationOperationCompletion, NavigationOperationKind, SessionNavigationError, SettleWait,
};
use crate::error::ProtocolErrorView;
use crate::failure::NetworkFailureReason;
use crate::failure_laws::may_change_the_page;
use crate::network::ControlledNetworkSnapshot;
use crate::operation_laws::is_session;
use crate::settlement_laws::{shows_the_next_document, time_waited};
use crate::shell::{applied, Shell, ShellState, ShellStepView};
use crate::shell_poll::{
    control_completed, control_taken_up, entered, host_wait_served, is_new_history,
    is_new_navigation, navigation_attested, navigation_completed, recorded, settlement_wait,
    ControlStepView, EvidenceRecord, NavigationNextView,
};

verus! {

/// Whether the engine reported a command as completed.
pub open spec fn is_complete(outcome: DocumentControlReceiveOutcome) -> bool {
    outcome matches DocumentControlReceiveOutcome::CommandOutcome { outcome, .. } && (outcome
        is Completed || outcome is AutomationCompleted)
}

/// Whether it is open what a command did.
pub open spec fn is_open_ended(outcome: DocumentControlReceiveOutcome) -> bool {
    outcome is DriveOneTurnOutcomeIndeterminate || (outcome
        matches DocumentControlReceiveOutcome::CommandOutcome { outcome, .. } && (outcome
        is DriveOneTurnOutcomeIndeterminate || outcome is AdvanceOutcomeIndeterminate || outcome
        is AutomationOutcomeIndeterminate))
}

/// A completion is handed on with its command and its outcome. A request has changed something
/// exactly where it had before or where a command that can change the page was completed.
pub proof fn law_a_completed_command_counts_as_a_change(
    shell: Shell,
    active: ActiveRequest,
    command: DocumentControlCommand,
    outcome: Arc<DocumentControlReceiveOutcome>,
    url: Option<String>,
    network: Option<ControlledNetworkSnapshot>,
    now: u64,
)
    ensures
        ({
            let (after, step) = control_completed(
                shell,
                active,
                command,
                outcome,
                url,
                network,
                now,
            );
            &&& step matches ControlStepView::Transition {
                command: handed,
                outcome: reported,
                network_time_ns,
            } ==> {
                &&& handed == command
                &&& reported == outcome
                &&& after.active matches Some(next) && {
                    &&& next.request == active.request
                    &&& next.profile == active.profile
                    &&& next.started_at == active.started_at
                    &&& next.in_flight is None
                    &&& next.state_effect is Partial <==> active.state_effect is Partial || (
                    is_complete(*outcome) && may_change_the_page(command))
                    &&& !(active.operation is ControlledOpen) && !(active.operation is Settle)
                        ==> next.operation == active.operation
                }
                &&& is_session(active.profile) ==> *outcome is CommandOutcome
                &&& network_time_ns is Some <==> is_complete(*outcome)
                &&& *outcome matches DocumentControlReceiveOutcome::CommandOutcome {
                    outcome: DocumentControlOutcome::Completed(observation),
                    ..
                } ==> network_time_ns == Some(observation.pending.now_ns)
                &&& *outcome matches DocumentControlReceiveOutcome::CommandOutcome {
                    outcome: DocumentControlOutcome::AutomationCompleted { observation, .. },
                    ..
                } ==> network_time_ns == Some(observation.pending.now_ns)
            }
            &&& step is Step && is_session(active.profile) && !(*outcome is CommandOutcome) ==> {
                &&& step->Step_0 matches ShellStepView::Finish(end) && end.responses.len() == 1
                    && end.responses[0].request == Some(active.request) && (
                end.responses[0].outcome matches Err(error) && error.fatal && error.state_effect
                    == "indeterminate"@ && error.code == if is_open_ended(*outcome) {
                    "outcome_indeterminate"@
                } else {
                    "session_command_transport_failure"@
                })
            }
        }),
{
}

/// A turn whose outcome is open can be recovered by looking at the navigation again, from the
/// document in which it was made and with its outcome kept; it counts as a change.
pub proof fn law_a_lost_turn_is_looked_after(
    shell: Shell,
    active: ActiveRequest,
    state: SettleState,
    command: DocumentControlCommand,
    outcome: Arc<DocumentControlReceiveOutcome>,
    url: Option<String>,
    network: Option<ControlledNetworkSnapshot>,
    now: u64,
)
    requires
        active.operation == ActiveOperation::Settle(state),
        state.replacement is None,
        is_open_ended(*outcome),
    ensures
        ({
            let (after, step) = control_completed(
                shell,
                active,
                command,
                outcome,
                url,
                network,
                now,
            );
            &&& step is Step
            &&& step->Step_0 is SubmitNavigationObservation ==> {
                &&& command == DocumentControlCommand::DriveOneTurn
                &&& !step->Step_0->SubmitNavigationObservation_allow_servo_pump
                &&& after.active matches Some(next) && {
                    &&& next.state_effect is Partial
                    &&& next.operation matches ActiveOperation::Settle(kept) && (kept.replacement
                        matches Some(
                        SettleReplacementPhase::AwaitingAdmission { source, drive_outcome },
                    ) && drive_outcome == outcome && state.authorizing_navigation == Some(source) && (
                    *outcome matches DocumentControlReceiveOutcome::CommandOutcome {
                        outcome: DocumentControlOutcome::DriveOneTurnOutcomeIndeterminate {
                            target,
                        },
                        ..
                    } && source.target@ == target@))
                }
                &&& state.authorizing_document_state is None
                &&& state.authorizing_observation is None
                &&& is_session(Some(state.profile))
            }
            &&& step->Step_0 is SubmitNavigationObservation || step->Step_0 is Finish
        }),
{
}

/// What is decided on a control completion is decided with the network's number of active
/// operations.
pub proof fn law_a_control_completion_sees_the_network(
    shell: Shell,
    command: DocumentControlCommand,
    outcome: Arc<DocumentControlReceiveOutcome>,
    network: Option<ControlledNetworkSnapshot>,
    answers: Answers,
    now: u64,
)
    ensures
        control_taken_up(shell, command, outcome, None, network, answers, now).1
            matches ShellStepView::Consult(
            Consultation::ConsumeOutcome {
                outcome: reported,
                external_io_active,
                cumulative_wall_time_ns,
            },
        ) ==> {
            &&& reported == outcome
            &&& external_io_active <==> (network matches Some(snapshot)
                && snapshot.active_operations != 0)
            &&& shell.active matches Some(active) && time_waited(active.operation) == Some(
                cumulative_wall_time_ns,
            )
        },
{
    if let Some(active) = shell.active {
        crate::settlement_laws::law_the_coordinator_is_told_of_active_network(
            active,
            command,
            outcome,
            crate::network::active_operations_of(network),
            answers,
        );
    }
}

/// A settlement waits until its deadline has come or the engine has woken; it is then told which,
/// how long it has waited in all, and whether the network or a replacement is still active.
pub proof fn law_a_wait_ends_by_its_deadline_or_a_wake(
    shell: Shell,
    active: ActiveRequest,
    wait: SettleHostWait,
    current: u64,
    network: Option<ControlledNetworkSnapshot>,
    answers: Answers,
    now: u64,
)
    requires
        shell.active == Some(active),
        settlement_wait(active.operation) == Some(wait),
        !(active.operation is ControlledOpen),
    ensures
        ({
            let (after, step) = host_wait_served(shell, current, network, answers, now);
            &&& step is None <==> !(wait.deadline matches Some(deadline) && now >= deadline)
                && current == wait.observed
            &&& step is None ==> after == shell
            &&& step matches Some(
                ShellStepView::Consult(
                    Consultation::WaitEnded {
                        expired,
                        cumulative_wall_time_ns,
                        external_io_active,
                    },
                ),
            ) ==> {
                &&& after == shell
                &&& expired <==> (wait.deadline matches Some(deadline) && now >= deadline)
                &&& time_waited(active.operation) is Some
                &&& cumulative_wall_time_ns == time_waited(active.operation)->0 + if now
                    < wait.started_at {
                    0
                } else {
                    now - wait.started_at
                }
                &&& external_io_active <==> (network matches Some(snapshot)
                    && snapshot.active_operations != 0) || (active.operation
                    matches ActiveOperation::Settle(state) && state.replacement is Some)
            }
            &&& step is Some && answers.progress is None ==> step->0 is Consult || step->0 is Finish
        }),
{
}

/// A wait that a settlement makes ends when it says, or earlier where the open that it belongs to
/// ends.
pub proof fn law_a_wait_is_as_long_as_it_says(
    shell: Shell,
    active: ActiveRequest,
    state: SettleState,
    wait: SettleWait,
    network: Option<ControlledNetworkSnapshot>,
    now: u64,
)
    requires
        shell.active is None,
        active.operation == ActiveOperation::Settle(state),
    ensures
        ({
            let (after, step) = applied(shell, active, TransitionView::Wait(wait), network, now);
            let remaining = match wait {
                SettleWait::ForegroundExternalIo { remaining_wall_time_ns } =>
                remaining_wall_time_ns,
                SettleWait::ProducerHandoff { remaining_wall_time_ns } => remaining_wall_time_ns,
            };
            &&& step is Keep || step is Finish
            &&& step is Keep ==> (after.active matches Some(next) && {
                &&& next.request == active.request
                &&& next.state_effect == active.state_effect
                &&& next.operation matches ActiveOperation::Settle(waiting) && {
                    &&& waiting.waiting matches Some(held) && {
                        &&& held.started_at == now
                        &&& held.deadline is Some && held.deadline->0 <= now + remaining
                        &&& !(state.response is ControlledOpen) ==> held.deadline->0 == now
                            + remaining
                        &&& held.observed == match active.control_turn_observed {
                            Some(observed) => observed,
                            None => shell.servo_cursor,
                        }
                    }
                    &&& waiting.cumulative_external_io_wall_time_ns
                        == state.cumulative_external_io_wall_time_ns
                    &&& waiting.effective_policy == state.effective_policy
                    &&& waiting.response == state.response
                    &&& waiting.replacement == state.replacement
                }
            })
        }),
{
}

/// A command has thirty seconds, or the rest of the time of the open that it belongs to.
pub proof fn law_a_command_has_thirty_seconds(
    shell: Shell,
    active: ActiveRequest,
    transition: TransitionView,
    network: Option<ControlledNetworkSnapshot>,
    now: u64,
)
    ensures
        ({
            let step = applied(shell, active, transition, network, now).1;
            let given = match step {
                ShellStepView::SubmitControl { timeout_ns, .. } => Some(timeout_ns),
                ShellStepView::SubmitNavigation { timeout_ns, .. } => Some(timeout_ns),
                ShellStepView::SubmitNavigationObservation { timeout_ns, .. } => Some(timeout_ns),
                _ => None,
            };
            &&& given matches Some(timeout_ns) ==> 0 < timeout_ns <= 30_000_000_000
            &&& active.operation is Pending || active.operation is AdvanceToNext || active.operation
                is Automation || active.operation is Audit || active.operation is Navigate ==> (given
                matches Some(timeout_ns) ==> (transition is ProjectSession || timeout_ns
                == 30_000_000_000))
        }),
{
}

/// Whether a record is about a navigation.
pub open spec fn is_about(record: EvidenceRecord, id: u64) -> bool {
    match record {
        EvidenceRecord::NavigationStarted(navigation_id) => navigation_id == id,
        EvidenceRecord::NavigationCommitted(navigation_id) => navigation_id == id,
        EvidenceRecord::NavigationFailed(navigation_id, _) => navigation_id == id,
        EvidenceRecord::SameDocumentHistoryChanged(navigation_id) => navigation_id == id,
        EvidenceRecord::SettlementTerminal(navigation_id) => navigation_id == id,
    }
}

/// The navigation to which a terminal state is charged, and the reason that is given for it.
pub open spec fn is_charged(
    record: EvidenceRecord,
    terminal: SessionNavigationTerminal,
    fallback: u64,
) -> bool {
    match terminal {
        SessionNavigationTerminal::DocumentTransitionLimitExceeded { next_navigation_id, .. } =>
        record == EvidenceRecord::NavigationFailed(
            next_navigation_id,
            NetworkFailureReason::DocumentTransitionLimitExceeded,
        ),
        SessionNavigationTerminal::HistoryLimitExceeded { navigation_id, .. } => record
            == EvidenceRecord::NavigationFailed(
            navigation_id,
            NetworkFailureReason::HistoryLimitExceeded,
        ),
        SessionNavigationTerminal::RedirectLimitExceeded { navigation_id, .. } => record
            == EvidenceRecord::NavigationFailed(
            navigation_id,
            NetworkFailureReason::RedirectLimitExceeded,
        ),
        SessionNavigationTerminal::CounterOverflow { .. } => record
            == EvidenceRecord::NavigationFailed(fallback, NetworkFailureReason::NavigationError),
    }
}

/// Whether all records are about one navigation, and none says that it failed.
spec fn all_about(evidence: Seq<EvidenceRecord>, id: u64) -> bool {
    forall|i: int|
        0 <= i < evidence.len() ==> is_about(#[trigger] evidence[i], id) && !(evidence[i]
            is NavigationFailed)
}

proof fn lemma_evidence_joins(first: Seq<EvidenceRecord>, second: Seq<EvidenceRecord>, id: u64)
    requires
        all_about(first, id),
        all_about(second, id),
    ensures
        all_about(first + second, id),
{
    let joined = first + second;
    assert forall|i: int| 0 <= i < joined.len() implies is_about(#[trigger] joined[i], id) && !(
    joined[i] is NavigationFailed) by {
        if i < first.len() {
            assert(joined[i] == first[i]);
        } else {
            assert(joined[i] == second[i - first.len()]);
        }
    }
}

proof fn lemma_attested_evidence(
    before: Shell,
    shell: Shell,
    active: ActiveRequest,
    completion: NavigationOperationCompletion,
    navigation: Arc<SessionNavigationAuthority>,
    session_state_token: Option<Result<Arc<Value>, ProtocolErrorView>>,
)
    ensures
        all_about(
            navigation_attested(
                before,
                shell,
                active,
                completion,
                navigation,
                session_state_token,
            ).1,
            navigation.navigation_id,
        ),
{
    let id = navigation.navigation_id;
    let last = shell.last_navigation_authority;
    let committed = EvidenceRecord::NavigationCommitted(id);
    let changed = EvidenceRecord::SameDocumentHistoryChanged(id);
    let settled = EvidenceRecord::SettlementTerminal(id);
    assert forall|holds: bool| #[trigger] all_about(entered(holds, id), id) by {}
    assert forall|holds: bool| #[trigger] all_about(recorded(holds, changed), id) by {}
    assert forall|holds: bool| #[trigger] all_about(recorded(holds, committed), id) by {}
    assert forall|holds: bool| #[trigger] all_about(recorded(holds, settled), id) by {}
    assert(all_about(seq![settled], id));
    let new_navigation = is_new_navigation(last, navigation);
    let new_history = recorded(is_new_history(last, navigation), changed);
    lemma_evidence_joins(entered(new_navigation, id), new_history, id);
    lemma_evidence_joins(entered(new_navigation, id), seq![settled], id);
    let visited = entered(last is Some && new_navigation, id);
    lemma_evidence_joins(visited, new_history, id);
    lemma_evidence_joins(
        visited + new_history,
        recorded(active.request.method@ == "runtime.settle"@, settled),
        id,
    );
    if let ActiveOperation::SessionProjection(state) = active.operation {
        if let SessionProjectionKind::Navigate { admitted, settle_resume, .. } = state.kind {
            let arrived = recorded(settle_resume is None || new_navigation, committed);
            let moved = recorded(admitted.history_revision != navigation.history_revision, changed);
            lemma_evidence_joins(arrived, moved, id);
            lemma_evidence_joins(arrived + moved, seq![settled], id);
        }
    }
}

/// The evidence of a navigation operation is about the navigation that it attests. A failed one is
/// recorded as failed, with its reason, and never as committed.
pub proof fn law_evidence_is_about_the_attested_navigation(
    shell: Shell,
    active: ActiveRequest,
    completion: NavigationOperationCompletion,
    session_state_token: Option<Result<Arc<Value>, ProtocolErrorView>>,
    i: int,
)
    requires
        shell.active == Some(active),
    ensures
        ({
            let (after, evidence, next) = navigation_completed(
                shell,
                active,
                completion,
                session_state_token,
            );
            match completion.outcome {
                Some(Ok(navigation)) => match navigation.terminal {
                    None => 0 <= i < evidence.len() ==> is_about(
                        evidence[i],
                        navigation.navigation_id,
                    ) && !(evidence[i] is NavigationFailed),
                    Some(terminal) => {
                        &&& evidence.len() > 0 && is_charged(
                            evidence.last(),
                            terminal,
                            navigation.navigation_id,
                        )
                        &&& 0 <= i < evidence.len() - 1 ==> evidence[i] is NavigationStarted
                            && active.operation is Navigate
                        &&& next == NavigationNextView::Transition(completion)
                        &&& after.last_navigation_authority == shell.last_navigation_authority
                    },
                },
                Some(Err(SessionNavigationError::NavigationStartFailed { observed })) => evidence
                    == seq![
                    EvidenceRecord::NavigationStarted(observed.navigation_id),
                    EvidenceRecord::NavigationFailed(
                        observed.navigation_id,
                        NetworkFailureReason::NetworkError,
                    ),
                ] && after.last_navigation_authority == shell.last_navigation_authority,
                Some(Err(SessionNavigationError::Terminal(terminal))) => {
                    &&& evidence.len() == 1
                    &&& shell.last_navigation_authority matches Some(last) ==> is_charged(
                        evidence[0],
                        terminal,
                        last.navigation_id,
                    )
                    &&& shell.last_navigation_authority is None ==> is_charged(
                        evidence[0],
                        terminal,
                        0,
                    )
                    &&& after.last_navigation_authority == shell.last_navigation_authority
                },
                _ => evidence.len() == 0 && after.last_navigation_authority
                    == shell.last_navigation_authority,
            }
        }),
{
    if let Some(Ok(navigation)) = completion.outcome {
        if navigation.terminal is None {
            let id = navigation.navigation_id;
            let free = Shell { active: None, ..shell };
            let next = ActiveRequest { needs_initial_pump: false, ..active };
            lemma_attested_evidence(
                shell,
                free,
                next,
                completion,
                navigation,
                session_state_token,
            );
            let evidence = navigation_completed(shell, active, completion, session_state_token).1;
            assert(all_about(evidence, id));
        }
    }
}

/// An explicit navigation is recorded as started when it is admitted, and as nothing else; what it
/// replaces is known as before until the replacement is there.
pub proof fn law_an_admitted_navigation_is_recorded_as_started(
    shell: Shell,
    active: ActiveRequest,
    completion: NavigationOperationCompletion,
    session_state_token: Option<Result<Arc<Value>, ProtocolErrorView>>,
)
    requires
        shell.active == Some(active),
        active.operation matches ActiveOperation::Navigate(state) && state.phase
            is AwaitingAdmission,
        completion.kind == NavigationOperationKind::Navigate,
        completion.outcome matches Some(Ok(navigation)) && navigation.terminal is None,
    ensures
        ({
            let (after, evidence, next) = navigation_completed(
                shell,
                active,
                completion,
                session_state_token,
            );
            &&& evidence == seq![
                EvidenceRecord::NavigationStarted(completion.outcome->0->Ok_0.navigation_id),
            ]
            &&& after.last_navigation_authority == shell.last_navigation_authority
            &&& next == NavigationNextView::Transition(completion)
        }),
{
}

/// A result is published with the navigation it was looked at under as the known one. An open gets
/// the token of the session state that was asked for, and nothing else of it changes.
pub proof fn law_a_confirmed_bracket_is_the_known_navigation(
    shell: Shell,
    active: ActiveRequest,
    state: SessionProjectionState,
    navigation: Arc<SessionNavigationAuthority>,
    before: Arc<SessionNavigationAuthority>,
    completion: NavigationOperationCompletion,
    session_state_token: Option<Result<Arc<Value>, ProtocolErrorView>>,
)
    requires
        shell.active == Some(active),
        active.operation == ActiveOperation::SessionProjection(state),
        state.phase == (SessionProjectionPhase::AwaitingStableNavigation { navigation: before }),
        before@ == navigation@,
        navigation.terminal is None,
        completion.kind == NavigationOperationKind::Observe,
        completion.outcome matches Some(Ok(seen)) && seen == navigation,
    ensures
        ({
            let (after, evidence, next) = navigation_completed(
                shell,
                active,
                completion,
                session_state_token,
            );
            &&& next is Transition ==> {
                &&& next == NavigationNextView::Transition(completion)
                &&& after.last_navigation_authority == Some(navigation)
                &&& after.active matches Some(kept) && (kept.operation
                    matches ActiveOperation::SessionProjection(published) && {
                    &&& published.pending == state.pending
                    &&& published.phase == state.phase
                    &&& !(state.kind is ControlledOpen) ==> published.kind == state.kind
                    &&& state.kind is ControlledOpen ==> {
                        &&& published.kind is ControlledOpen
                        &&& session_state_token matches Some(Ok(token))
                            && published.kind->session_state_token == Some(token)
                        &&& published.kind->ControlledOpen_requested_url
                            == state.kind->ControlledOpen_requested_url
                        &&& published.kind->ControlledOpen_profile
                            == state.kind->ControlledOpen_profile
                        &&& published.kind->ControlledOpen_deadline
                            == state.kind->ControlledOpen_deadline
                        &&& published.kind->ControlledOpen_settle_resume
                            == state.kind->ControlledOpen_settle_resume
                    }
                })
                &&& evidence.len() > 0 && evidence.last() is SettlementTerminal <==> state.kind
                    is ControlledOpen || state.kind is Navigate || active.request.method@
                    == "runtime.settle"@
            }
            &&& next is SessionStateToken ==> state.kind is ControlledOpen && session_state_token
                is None && after == shell && evidence.len() == 0
            &&& !(next is Waiting)
        }),
{
}

/// Whether a navigation is another than the known one.
pub open spec fn is_another(
    last: Option<Arc<SessionNavigationAuthority>>,
    navigation: Arc<SessionNavigationAuthority>,
) -> bool {
    last matches Some(known) && known.navigation_id != navigation.navigation_id
}

/// Whether the history moved within the known navigation's session.
pub open spec fn has_moved(
    last: Option<Arc<SessionNavigationAuthority>>,
    navigation: Arc<SessionNavigationAuthority>,
) -> bool {
    last matches Some(known) && known.history_revision != navigation.history_revision
}

proof fn lemma_joined_contains(
    first: Seq<EvidenceRecord>,
    second: Seq<EvidenceRecord>,
    record: EvidenceRecord,
)
    ensures
        (first + second).contains(record) <==> first.contains(record) || second.contains(record),
{
    let joined = first + second;
    if first.contains(record) {
        let i = choose|i: int| 0 <= i < first.len() && first[i] == record;
        assert(joined[i] == record);
    }
    if second.contains(record) {
        let i = choose|i: int| 0 <= i < second.len() && second[i] == record;
        assert(joined[first.len() + i] == record);
    }
}

proof fn lemma_single_contains(record: EvidenceRecord, id: u64, holds: bool, other: EvidenceRecord)
    ensures
        recorded(holds, other).contains(record) <==> holds && record == other,
        entered(holds, id).contains(record) <==> holds && (record
            == EvidenceRecord::NavigationStarted(id) || record
            == EvidenceRecord::NavigationCommitted(id)),
        seq![other].contains(record) <==> record == other,
{
    if holds {
        assert(recorded(holds, other)[0] == other);
        assert(entered(holds, id)[0] == EvidenceRecord::NavigationStarted(id));
        assert(entered(holds, id)[1] == EvidenceRecord::NavigationCommitted(id));
    }
    assert(seq![other][0] == other);
}

/// A published result records the navigation it was looked at under as committed exactly where it
/// is new, and the history as changed exactly where it moved.
pub proof fn law_new_navigations_are_recorded_once(
    shell: Shell,
    active: ActiveRequest,
    state: SessionProjectionState,
    navigation: Arc<SessionNavigationAuthority>,
    before: Arc<SessionNavigationAuthority>,
    completion: NavigationOperationCompletion,
    session_state_token: Option<Result<Arc<Value>, ProtocolErrorView>>,
)
    requires
        shell.active == Some(active),
        active.operation == ActiveOperation::SessionProjection(state),
        state.phase == (SessionProjectionPhase::AwaitingStableNavigation { navigation: before }),
        before@ == navigation@,
        navigation.terminal is None,
        completion.kind == NavigationOperationKind::Observe,
        completion.outcome matches Some(Ok(seen)) && seen == navigation,
    ensures
        ({
            let (after, evidence, next) = navigation_completed(
                shell,
                active,
                completion,
                session_state_token,
            );
            let last = shell.last_navigation_authority;
            let id = navigation.navigation_id;
            let committed = evidence.contains(EvidenceRecord::NavigationCommitted(id));
            let started = evidence.contains(EvidenceRecord::NavigationStarted(id));
            let moved = evidence.contains(EvidenceRecord::SameDocumentHistoryChanged(id));
            next is Transition ==> match state.kind {
                SessionProjectionKind::ControlledOpen { .. } => {
                    &&& committed <==> last is None || is_another(last, navigation)
                    &&& started <==> committed
                    &&& !moved
                },
                SessionProjectionKind::Navigate { admitted, settle_resume, .. } => {
                    &&& committed <==> settle_resume is None || last is None || is_another(
                        last,
                        navigation,
                    )
                    &&& !started
                    &&& moved <==> admitted.history_revision != navigation.history_revision
                },
                _ => {
                    &&& committed <==> is_another(last, navigation)
                    &&& started <==> committed
                    &&& moved <==> has_moved(last, navigation)
                },
            }
        }),
{
    let last = shell.last_navigation_authority;
    let id = navigation.navigation_id;
    let changed = EvidenceRecord::SameDocumentHistoryChanged(id);
    let settled = EvidenceRecord::SettlementTerminal(id);
    let new_navigation = is_new_navigation(last, navigation);
    let visits = entered(last is Some && new_navigation, id);
    let moves = recorded(is_new_history(last, navigation), changed);
    let ending = recorded(active.request.method@ == "runtime.settle"@, settled);
    lemma_publication_contains(
        navigation,
        last,
        EvidenceRecord::NavigationCommitted(id),
        visits,
        moves,
        ending,
        state.kind,
    );
    lemma_publication_contains(
        navigation,
        last,
        EvidenceRecord::NavigationStarted(id),
        visits,
        moves,
        ending,
        state.kind,
    );
    lemma_publication_contains(navigation, last, changed, visits, moves, ending, state.kind);
    lemma_single_contains(
        EvidenceRecord::NavigationCommitted(id),
        id,
        last is Some && new_navigation,
        settled,
    );
    lemma_single_contains(
        EvidenceRecord::NavigationStarted(id),
        id,
        last is Some && new_navigation,
        settled,
    );
    lemma_single_contains(changed, id, last is Some && new_navigation, settled);
    lemma_single_contains(
        EvidenceRecord::NavigationCommitted(id),
        id,
        is_new_history(last, navigation),
        changed,
    );
    lemma_single_contains(
        EvidenceRecord::NavigationStarted(id),
        id,
        is_new_history(last, navigation),
        changed,
    );
    lemma_single_contains(changed, id, is_new_history(last, navigation), changed);
    let ends = active.request.method@ == "runtime.settle"@;
    lemma_single_contains(EvidenceRecord::NavigationCommitted(id), id, ends, settled);
    lemma_single_contains(EvidenceRecord::NavigationStarted(id), id, ends, settled);
    lemma_single_contains(changed, id, ends, settled);
}

proof fn lemma_publication_contains(
    navigation: Arc<SessionNavigationAuthority>,
    last: Option<Arc<SessionNavigationAuthority>>,
    record: EvidenceRecord,
    visits: Seq<EvidenceRecord>,
    moves: Seq<EvidenceRecord>,
    ending: Seq<EvidenceRecord>,
    kind: SessionProjectionKind,
)
    requires
        !(record is SettlementTerminal),
    ensures
        ({
            let id = navigation.navigation_id;
            let settled = EvidenceRecord::SettlementTerminal(id);
            let new_navigation = is_new_navigation(last, navigation);
            &&& (visits + moves + ending).contains(record) <==> visits.contains(record)
                || moves.contains(record) || ending.contains(record)
            &&& (entered(new_navigation, id) + seq![settled]).contains(record) <==> new_navigation
                && (record == EvidenceRecord::NavigationStarted(id) || record
                == EvidenceRecord::NavigationCommitted(id))
            &&& kind matches SessionProjectionKind::Navigate { admitted, settle_resume, .. } ==> {
                let changed = EvidenceRecord::SameDocumentHistoryChanged(id);
                let committed = EvidenceRecord::NavigationCommitted(id);
                let arrives = settle_resume is None || new_navigation;
                let moved = admitted.history_revision != navigation.history_revision;
                (recorded(arrives, committed) + recorded(moved, changed)
                    + seq![settled]).contains(record) <==> (arrives && record == committed) || (
                moved && record == changed)
            }
        }),
{
    let id = navigation.navigation_id;
    let settled = EvidenceRecord::SettlementTerminal(id);
    let new_navigation = is_new_navigation(last, navigation);
    lemma_joined_contains(visits + moves, ending, record);
    lemma_joined_contains(visits, moves, record);
    lemma_joined_contains(entered(new_navigation, id), seq![settled], record);
    lemma_single_contains(record, id, new_navigation, settled);
    if let SessionProjectionKind::Navigate { admitted, settle_resume, .. } = kind {
        let changed = EvidenceRecord::SameDocumentHistoryChanged(id);
        let committed = EvidenceRecord::NavigationCommitted(id);
        let arrives = settle_resume is None || new_navigation;
        let moved = admitted.history_revision != navigation.history_revision;
        lemma_single_contains(record, id, arrives, committed);
        lemma_single_contains(record, id, moved, changed);
        lemma_joined_contains(recorded(arrives, committed), recorded(moved, changed), record);
        lemma_joined_contains(
            recorded(arrives, committed) + recorded(moved, changed),
            seq![settled],
            record,
        );
    }
}

/// A settlement records a navigation, and knows it, only once the document that replaced the last
/// is there.
pub proof fn law_a_settlement_records_a_finished_replacement(
    shell: Shell,
    active: ActiveRequest,
    state: SettleState,
    navigation: Arc<SessionNavigationAuthority>,
    completion: NavigationOperationCompletion,
    session_state_token: Option<Result<Arc<Value>, ProtocolErrorView>>,
)
    requires
        shell.active == Some(active),
        active.operation == ActiveOperation::Settle(state),
        navigation.terminal is None,
        completion.outcome matches Some(Ok(seen)) && seen == navigation,
    ensures
        ({
            let (after, evidence, next) = navigation_completed(
                shell,
                active,
                completion,
                session_state_token,
            );
            &&& next == NavigationNextView::Transition(completion)
            &&& evidence.len() > 0 || after.last_navigation_authority
                != shell.last_navigation_authority ==> {
                &&& state.replacement matches Some(
                    SettleReplacementPhase::AwaitingActivation { source, .. },
                ) && shows_the_next_document(source, navigation)
                &&& completion.kind == NavigationOperationKind::Observe
                &&& after.last_navigation_authority == Some(navigation)
            }
        }),
{
}

/// A completion that the network refuses to attest ends the session, and is told with that refusal.
pub proof fn law_an_unattested_completion_ends_the_session(
    shell: Shell,
    active: ActiveRequest,
    command: DocumentControlCommand,
    outcome: Arc<DocumentControlReceiveOutcome>,
    error: ProtocolErrorView,
    network: Option<ControlledNetworkSnapshot>,
    answers: Answers,
    now: u64,
)
    requires
        shell.active == Some(active),
    ensures
        ({
            let (after, step) = control_taken_up(
                shell,
                command,
                outcome,
                Some(error),
                network,
                answers,
                now,
            );
            &&& after.active is None
            &&& after.state == ShellState::Closed
            &&& step matches ShellStepView::Finish(end) && {
                &&& end.responses.len() == 1
                &&& end.responses[0].request == Some(active.request)
                &&& end.responses[0].outcome matches Err(reported) && reported.fatal
                    && reported.code == error.code && reported.state_effect == error.state_effect
                    && reported.message == error.message
                &&& end.exit is Some && end.close_after
            }
        }),
{
}

} // verus!
