//! What every event keeps of the shell.

use serde_json::Value;
use std::sync::Arc;
use vstd::prelude::*;

use crate::active::{ActiveOperation, ActiveRequest, Answers, ControlledOpenState, TransitionView};
use crate::closing::{active_cancelled, cancelled_failure, drained, drained_response};
use crate::control::{
    DocumentControlCommand, DocumentControlReceiveOutcome, NavigationOperationCompletion,
};
use crate::control_step::control_step;
use crate::engine::{EngineControlPoll, EngineNavigationPoll};
use crate::error::ProtocolErrorView;
use crate::failure::open_timeout_view;
use crate::inbox::{ReaderMessage, SequencedReaderMessage};
use crate::laws::{
    law_control_asks_only_what_is_unknown, law_control_consultation_changes_nothing,
    law_control_fail_stop_is_fatal, law_control_step_keeps_the_request,
    law_navigation_asks_only_what_is_unknown, law_navigation_consultation_changes_nothing,
    law_navigation_fail_stop_is_fatal, law_navigation_step_keeps_the_request,
    lemma_settle_progress_is_orderly, orderly, same_request, unanswered,
};
use crate::navigation_step::navigation_step;
use crate::network::{active_operations_of, network_failure_of, ControlledNetworkSnapshot};
use crate::opening::{engine_built, open_observed, OpenPlan, OpenedEngine, OpenedStepView};
use crate::operation::{disposition, ControlOutcomeDisposition};
use crate::profile::{
    selects_session_api, RequestStateEffect, SessionProfile, CONTROL_COMMAND_TIMEOUT_NS,
    OWNER_LOOP_SAFETY_TIMEOUT_NS, SESSION_ID,
};
use crate::request::Request;
use crate::session::{began, handled, new_request, HandledView, Method};
use crate::shell::{
    after_control, after_navigation, after_observation, applied, command_timeout, method_session_id,
    open_authority, ResponseView, Shell, ShellState, ShellStepView,
};
use crate::shell_poll::{
    after_wait, control_polled, control_taken_up, host_wait_served, navigation_polled,
    navigation_taken_up, open_deadline_served, outcome_time, readiness_wait, settlement_wait,
    sleep_deadline, wait_deadline, wait_replied, waited_time, ControlStepView, NavigationNextView,
};

verus! {

/// Whether a step either keeps the request active, or answers exactly it, once, and leaves none
/// active.
pub open spec fn answers_once(active: ActiveRequest, after: Shell, step: ShellStepView) -> bool {
    match step {
        ShellStepView::Finish(finish) => {
            &&& after.active is None
            &&& finish.responses.len() == 1
            &&& finish.responses[0].request == Some(active.request)
        },
        _ => after.active is Some && same_request(active, after.active->0),
    }
}

/// Whether the shell ends only after a fatal error was reported, with the session closed.
pub open spec fn ends_closed(after: Shell, step: ShellStepView) -> bool {
    match step {
        ShellStepView::Finish(finish) => finish.exit is Some ==> {
            &&& after.state == ShellState::Closed
            &&& after.engine is None
            &&& finish.close_before || finish.close_after
            &&& finish.responses[0].outcome matches Err(error) && error.fatal
        },
        _ => true,
    }
}

/// Whether a step keeps the shell in order.
pub open spec fn kept(active: ActiveRequest, after: Shell, step: ShellStepView) -> bool {
    &&& after.well_formed()
    &&& answers_once(active, after, step)
    &&& ends_closed(after, step)
}

/// Whether a shell has an open session and no active request.
pub open spec fn idle(shell: Shell) -> bool {
    shell.well_formed() && shell.state == ShellState::Open && shell.active is None
}

proof fn lemma_applied(
    shell: Shell,
    active: ActiveRequest,
    transition: TransitionView,
    network: Option<ControlledNetworkSnapshot>,
    now: u64,
)
    requires
        idle(shell),
        active.profile is Some,
        transition matches TransitionView::Fail(failure) ==> failure.fail_stop
            ==> failure.error.fatal,
    ensures
        ({
            let (after, step) = applied(shell, active, transition, network, now);
            kept(active, after, step)
        }),
{
}

/// A poll of the document-control lane keeps the shell in order.
pub proof fn law_control_poll_keeps_order(
    shell: Shell,
    poll: EngineControlPoll,
    url: Option<String>,
    network: Option<ControlledNetworkSnapshot>,
    now: u64,
)
    requires
        shell.well_formed(),
    ensures
        ({
            let (after, step) = control_polled(shell, poll, url, network, now);
            match step {
                ControlStepView::Waiting { .. } => after == shell,
                ControlStepView::Step(step) => shell.active is Some && kept(
                    shell.active->0,
                    after,
                    step,
                ),
                ControlStepView::Transition { .. } => shell.active is Some && kept(
                    shell.active->0,
                    after,
                    ShellStepView::Keep,
                ),
            }
        }),
{
}

/// The outcome of a control command keeps the shell in order.
pub proof fn law_control_completion_keeps_order(
    shell: Shell,
    command: DocumentControlCommand,
    outcome: Arc<DocumentControlReceiveOutcome>,
    network_refusal: Option<ProtocolErrorView>,
    network: Option<ControlledNetworkSnapshot>,
    answers: Answers,
    now: u64,
)
    requires
        shell.well_formed(),
        shell.active is Some,
    ensures
        ({
            let (after, step) = control_taken_up(
                shell,
                command,
                outcome,
                network_refusal,
                network,
                answers,
                now,
            );
            kept(shell.active->0, after, step)
        }),
{
    let active = shell.active->0;
    let operations = active_operations_of(network);
    let (next, transition) = control_step(active, command, outcome, operations, answers);
    law_control_step_keeps_the_request(active, command, outcome, operations, answers);
    law_control_fail_stop_is_fatal(active, command, outcome, operations, answers);
    lemma_applied(Shell { active: None, ..shell }, next, transition, network, now);
}

/// A poll of the session-navigation lane keeps the shell in order.
pub proof fn law_navigation_poll_keeps_order(
    shell: Shell,
    poll: EngineNavigationPoll,
    session_state_token: Option<Result<Arc<Value>, ProtocolErrorView>>,
)
    requires
        shell.well_formed(),
    ensures
        ({
            let (after, records, next) = navigation_polled(shell, poll, session_state_token);
            match next {
                NavigationNextView::Waiting { .. } => after == shell,
                NavigationNextView::SessionStateToken(_) => after == shell,
                NavigationNextView::Step(step) => shell.active is Some && kept(
                    shell.active->0,
                    after,
                    step,
                ),
                NavigationNextView::Transition(_) => shell.active is Some && kept(
                    shell.active->0,
                    after,
                    ShellStepView::Keep,
                ),
            }
        }),
{
}

/// A session-navigation completion keeps the shell in order.
pub proof fn law_navigation_completion_keeps_order(
    shell: Shell,
    completion: NavigationOperationCompletion,
    network: Option<ControlledNetworkSnapshot>,
    answers: Answers,
    now: u64,
)
    requires
        shell.well_formed(),
        shell.active is Some,
    ensures
        ({
            let (after, step) = navigation_taken_up(shell, completion, network, answers, now);
            kept(shell.active->0, after, step)
        }),
{
    let active = shell.active->0;
    let operations = active_operations_of(network);
    let (next, transition) = navigation_step(active, completion, operations, answers);
    law_navigation_step_keeps_the_request(active, completion, operations, answers);
    law_navigation_fail_stop_is_fatal(active, completion, operations, answers);
    lemma_applied(Shell { active: None, ..shell }, next, transition, network, now);
}

proof fn lemma_wait_replied_is_orderly(
    operation: ActiveOperation,
    started_at: u64,
    effect: RequestStateEffect,
    answers: Answers,
)
    requires
        answers.progress is Some,
    ensures
        orderly(wait_replied(operation, started_at, effect, answers).1, answers),
{
    if let (ActiveOperation::Settle(state), Some(Ok(progress))) = (operation, answers.progress) {
        lemma_settle_progress_is_orderly(state, started_at, progress, effect, answers);
    }
}

/// The end of a wait keeps the shell in order.
pub proof fn law_host_wait_keeps_order(
    shell: Shell,
    current: u64,
    network: Option<ControlledNetworkSnapshot>,
    answers: Answers,
    now: u64,
)
    requires
        shell.well_formed(),
    ensures
        ({
            let (after, step) = host_wait_served(shell, current, network, answers, now);
            match step {
                None => after == shell,
                Some(step) => shell.active is Some && kept(shell.active->0, after, step),
            }
        }),
{
    if let Some(active) = shell.active {
        let bare = Shell { active: None, ..shell };
        if let Some((state, wait)) = readiness_wait(active.operation) {
            lemma_applied(
                bare,
                ActiveRequest {
                    operation: ActiveOperation::ControlledOpen(
                        ControlledOpenState { readiness_waiting: None, ..state },
                    ),
                    ..active
                },
                if now >= state.deadline {
                    TransitionView::Fail(open_timeout_view(state.profile))
                } else {
                    TransitionView::Submit(DocumentControlCommand::Observe)
                },
                network,
                now,
            );
        } else if let Some(wait) = settlement_wait(active.operation) {
            let elapsed: int = if now < wait.started_at {
                0
            } else {
                now - wait.started_at
            };
            let total = waited_time(active.operation) + elapsed;
            if total <= u64::MAX && answers.progress is Some {
                let resumed = after_wait(active.operation, total as u64);
                let effect = active.state_effect;
                let (operation, transition) = wait_replied(
                    resumed,
                    active.started_at,
                    effect,
                    answers,
                );
                lemma_wait_replied_is_orderly(resumed, active.started_at, effect, answers);
                lemma_applied(
                    bare,
                    ActiveRequest { operation, ..active },
                    transition,
                    network,
                    now,
                );
            }
        }
    }
}

/// The deadline of an open keeps the shell in order.
pub proof fn law_open_deadline_keeps_order(shell: Shell, now: u64)
    requires
        shell.well_formed(),
    ensures
        ({
            let (after, step) = open_deadline_served(shell, now);
            match step {
                None => after == shell,
                Some(step) => shell.active is Some && kept(shell.active->0, after, step),
            }
        }),
{
}

/// The report of a submission keeps the shell in order: control commands.
pub proof fn law_control_submission_keeps_order(
    shell: Shell,
    command: DocumentControlCommand,
    observed: u64,
    submission: Result<(), ProtocolErrorView>,
)
    requires
        shell.well_formed(),
        shell.active is Some,
    ensures
        ({
            let (after, step) = after_control(shell, command, observed, submission);
            kept(shell.active->0, after, step)
        }),
{
}

/// The report of a submission keeps the shell in order: passive observations.
pub proof fn law_observation_submission_keeps_order(
    shell: Shell,
    allow_servo_pump: bool,
    submission: Result<(), ProtocolErrorView>,
)
    requires
        shell.well_formed(),
        shell.active is Some,
    ensures
        ({
            let (after, step) = after_observation(shell, allow_servo_pump, submission);
            kept(shell.active->0, after, step)
        }),
{
}

/// The report of a submission keeps the shell in order: navigations.
pub proof fn law_navigation_submission_keeps_order(
    shell: Shell,
    submission: Result<(), ProtocolErrorView>,
)
    requires
        shell.well_formed(),
        shell.active is Some,
    ensures
        ({
            let (after, step) = after_navigation(shell, submission);
            kept(shell.active->0, after, step)
        }),
{
}

/// A cancellation of the active request is answered first, then the request, once each.
pub proof fn law_cancellation_answers_both(
    shell: Shell,
    request: Request,
    control: Option<ControlOutcomeDisposition>,
    navigation: Option<NavigationOperationCompletion>,
)
    requires
        shell.well_formed(),
        shell.active is Some,
    ensures
        ({
            let active = shell.active->0;
            let failure = cancelled_failure(active, control, navigation);
            let (after, step) = active_cancelled(shell, request, active, failure);
            &&& after.well_formed()
            &&& after.active is None
            &&& step matches ShellStepView::Finish(finish) && {
                &&& finish.responses.len() == 2
                &&& finish.responses[0].request == Some(request)
                &&& finish.responses[0].outcome is Ok
                &&& finish.responses[1].request == Some(active.request)
                &&& finish.responses[1].outcome is Err
                &&& (finish.exit is Some) == failure.fail_stop
                &&& failure.fail_stop ==> after.state == ShellState::Closed && finish.close_after
            }
        }),
{
}

/// Giving up a command sequence of a session profile leaves its outcome unknown, so it always ends
/// the session.
pub proof fn law_cancelled_session_request_is_indeterminate(
    active: ActiveRequest,
    control: Option<ControlOutcomeDisposition>,
    navigation: Option<NavigationOperationCompletion>,
)
    requires
        selects_session_api(active.profile),
    ensures
        ({
            let failure = cancelled_failure(active, control, navigation);
            failure.fail_stop && failure.error.fatal && failure.error.state_effect
                == "indeterminate"@
        }),
{
}

/// A request that begins, or is refused, keeps the shell in order.
pub proof fn law_beginning_keeps_order(
    shell: Shell,
    request: Request,
    profile: SessionProfile,
    refusal: Option<ProtocolErrorView>,
    operation: (ActiveOperation, TransitionView),
    network: Option<ControlledNetworkSnapshot>,
    now: u64,
)
    requires
        idle(shell),
        operation.1 matches TransitionView::Fail(failure) ==> failure.fail_stop
            ==> failure.error.fatal,
    ensures
        ({
            let (after, step) = began(shell, request, profile, refusal, operation, network, now);
            kept(new_request(request, profile, operation.0, now), after, step)
        }),
{
    if refusal is None {
        lemma_applied(
            shell,
            new_request(request, profile, operation.0, now),
            operation.1,
            network,
            now,
        );
    }
}

/// Whatever a request asks for, the shell stays in order; while a request is active only a
/// cancellation or a close is admitted; and a refused request changes nothing but where its id is
/// the active one's, which ends the session.
pub proof fn law_handling_keeps_order(
    shell: Shell,
    request: Request,
    cancel_target: Option<Seq<char>>,
)
    requires
        shell.well_formed(),
    ensures
        ({
            let (after, step) = handled(shell, request, cancel_target);
            &&& after.well_formed()
            &&& step matches HandledView::Admitted { request: admitted, method } ==> {
                &&& after == shell
                &&& admitted == request
                &&& shell.active is Some ==> method == Method::Cancel || method == Method::Close
            }
            &&& step matches HandledView::Step(step) ==> {
                ||| after == shell
                ||| {
                    &&& shell.active is Some && shell.active->0.request.id@ == request.id@
                    &&& after.state == ShellState::Closed && after.active is None
                    &&& ends_closed_by(step)
                }
            }
        }),
{
}

/// Whether a step ends the shell and closes its engine.
pub open spec fn ends_closed_by(step: ShellStepView) -> bool {
    step matches ShellStepView::Finish(finish) && finish.exit is Some && finish.close_after
}

/// An engine that was built, and the first observation of a controlled open, keep the shell in order.
pub proof fn law_opening_keeps_order(
    shell: Shell,
    request: Request,
    plan: OpenPlan,
    engine: OpenedEngine,
    observed: u64,
    refusal: Option<ProtocolErrorView>,
    now: u64,
)
    requires
        shell.well_formed(),
        shell.state == ShellState::Initialized,
        plan.deadline is None <==> engine.session.clock_mode is Real,
    ensures
        ({
            let (built, step) = engine_built(shell, request, plan, engine, now);
            &&& built.well_formed()
            &&& step matches OpenedStepView::Submit { opening, .. } ==> {
                &&& built == shell
                &&& opening.request == request
                &&& open_observed(shell, opening, observed, refusal).0.well_formed()
            }
        }),
{
}

/// A question to the engine's services leaves the shell as it was, and is asked only while its answer
/// is not known: control commands.
pub proof fn law_control_question_changes_nothing(
    shell: Shell,
    command: DocumentControlCommand,
    outcome: Arc<DocumentControlReceiveOutcome>,
    network_refusal: Option<ProtocolErrorView>,
    network: Option<ControlledNetworkSnapshot>,
    answers: Answers,
    now: u64,
)
    ensures
        ({
            let (after, step) = control_taken_up(
                shell,
                command,
                outcome,
                network_refusal,
                network,
                answers,
                now,
            );
            step matches ShellStepView::Consult(consultation) ==> after == shell && unanswered(
                consultation,
                answers,
            )
        }),
{
    if let Some(active) = shell.active {
        let operations = active_operations_of(network);
        law_control_consultation_changes_nothing(active, command, outcome, operations, answers);
        law_control_asks_only_what_is_unknown(active, command, outcome, operations, answers);
    }
}

/// A question to the engine's services leaves the shell as it was, and is asked only while its answer
/// is not known: session navigation.
pub proof fn law_navigation_question_changes_nothing(
    shell: Shell,
    completion: NavigationOperationCompletion,
    network: Option<ControlledNetworkSnapshot>,
    answers: Answers,
    now: u64,
)
    ensures
        ({
            let (after, step) = navigation_taken_up(shell, completion, network, answers, now);
            step matches ShellStepView::Consult(consultation) ==> after == shell && unanswered(
                consultation,
                answers,
            )
        }),
{
    if let Some(active) = shell.active {
        let operations = active_operations_of(network);
        law_navigation_consultation_changes_nothing(active, completion, operations, answers);
        law_navigation_asks_only_what_is_unknown(active, completion, operations, answers);
    }
}

/// A question to the engine's services leaves the shell as it was, and is asked only while its answer
/// is not known: the end of a wait.
pub proof fn law_wait_question_changes_nothing(
    shell: Shell,
    current: u64,
    network: Option<ControlledNetworkSnapshot>,
    answers: Answers,
    now: u64,
)
    ensures
        ({
            let (after, step) = host_wait_served(shell, current, network, answers, now);
            step matches Some(ShellStepView::Consult(consultation)) ==> after == shell && unanswered(
                consultation,
                answers,
            )
        }),
{
    if let Some(active) = shell.active {
        if let Some(wait) = settlement_wait(active.operation) {
            let elapsed: int = if now < wait.started_at {
                0
            } else {
                now - wait.started_at
            };
            let total = waited_time(active.operation) + elapsed;
            if total <= u64::MAX && answers.progress is Some {
                lemma_wait_replied_is_orderly(
                    after_wait(active.operation, total as u64),
                    active.started_at,
                    active.state_effect,
                    answers,
                );
            }
        }
    }
}

/// Once the controlled network has failed, a request that has not failed otherwise ends with that
/// failure: nothing further is submitted. One that reads the audit trail ends so when its result is to
/// be projected.
pub proof fn law_network_failure_stops_the_request(
    shell: Shell,
    active: ActiveRequest,
    transition: TransitionView,
    network: Option<ControlledNetworkSnapshot>,
    now: u64,
)
    requires
        network_failure_of(network, active.state_effect) is Some,
        !(transition is Fail),
        !(transition is Consult),
        active.operation is Audit ==> transition is ProjectSession,
    ensures
        ({
            let failure = network_failure_of(network, active.state_effect)->0;
            applied(shell, active, transition, network, now).1 matches ShellStepView::Finish(finish)
                && finish.responses.len() == 1 && (finish.responses[0].outcome matches Err(error)
                && error.code == failure.error.code && error.state_effect
                == failure.error.state_effect)
        }),
{
}

/// A command never outlasts the deadline of the open that it belongs to, nor the limit of a command.
pub proof fn law_commands_end_by_the_open_deadline(operation: ActiveOperation, now: u64)
    ensures
        command_timeout(operation, now) matches Ok(timeout) ==> {
            &&& timeout <= CONTROL_COMMAND_TIMEOUT_NS
            &&& open_authority(operation) matches Some((_, deadline)) ==> 0 < timeout && now
                + timeout <= deadline
        },
        command_timeout(operation, now) is Err <==> (open_authority(operation) matches Some(
            (_, deadline),
        ) && now >= deadline),
{
}

/// The owner loop sleeps past no deadline that is known.
pub proof fn law_sleep_passes_no_deadline(shell: Shell, control_deadline: Option<u64>, now: u64)
    ensures
        ({
            let until = sleep_deadline(shell, control_deadline, now);
            &&& until <= now + OWNER_LOOP_SAFETY_TIMEOUT_NS
            &&& control_deadline matches Some(deadline) ==> until <= deadline
            &&& shell.active matches Some(active) ==> {
                &&& wait_deadline(active.operation) matches Some(deadline) ==> until <= deadline
                &&& open_authority(active.operation) matches Some((_, deadline)) ==> until
                    <= deadline
            }
        }),
{
}

/// A failed open names no session. Every other response names one only while it is open, or where it
/// was just closed.
pub proof fn law_only_an_open_session_is_named(
    method: Seq<char>,
    succeeded: bool,
    state: ShellState,
)
    ensures
        method == "session.open"@ && !succeeded ==> method_session_id(method, succeeded, state)
            is None,
        method_session_id(method, succeeded, state) is Some ==> state == ShellState::Open
            || succeeded && (method == "session.open"@ || method == "session.close"@),
        method_session_id(method, succeeded, state) matches Some(id) ==> id == SESSION_ID@,
{
}

/// The requests among some messages, in order.
pub open spec fn requests_of(messages: Seq<SequencedReaderMessage>) -> Seq<Option<Request>>
    decreases messages.len(),
{
    if messages.len() == 0 {
        seq![]
    } else {
        (match messages[0].message {
            ReaderMessage::Request(request) => seq![Some(request)],
            ReaderMessage::CloseRequest { request, .. } => seq![Some(request)],
            _ => seq![],
        }) + requests_of(messages.skip(1))
    }
}

/// Whether the input held up.
pub open spec fn no_fatal(messages: Seq<SequencedReaderMessage>) -> bool {
    forall|i: int| 0 <= i < messages.len() ==> !((#[trigger] messages[i]).message is Fatal)
}

/// Closing answers every queued request exactly once, in the order in which they would have been
/// received, and never with success. Only a fatal input ends this early.
pub proof fn law_closing_answers_every_queued_request(
    messages: Seq<SequencedReaderMessage>,
    state: ShellState,
)
    ensures
        ({
            let (responses, barriers, exit) = drained(messages, state);
            &&& no_fatal(messages) <==> exit is None
            &&& no_fatal(messages) ==> responses.map_values(|r: ResponseView| r.request)
                == requests_of(messages)
            &&& forall|i: int|
                0 <= i < responses.len() ==> (#[trigger] responses[i]).outcome is Err
        }),
    decreases messages.len(),
{
    if messages.len() > 0 {
        let rest = messages.skip(1);
        law_closing_answers_every_queued_request(rest, state);
        let (responses, barriers, exit) = drained(messages, state);
        let (later, _, later_exit) = drained(rest, state);
        let first = drained_response(messages[0], state);
        if no_fatal(messages) {
            assert forall|i: int| 0 <= i < rest.len() implies !((#[trigger] rest[i]).message is Fatal)
                by {
                assert(rest[i] == messages[i + 1]);
            }
            assert(responses.map_values(|r: ResponseView| r.request) =~= first.map_values(
                |r: ResponseView| r.request,
            ) + later.map_values(|r: ResponseView| r.request));
            assert(responses.map_values(|r: ResponseView| r.request) =~= requests_of(messages));
        } else if !(messages[0].message is Fatal) {
            assert(!no_fatal(rest)) by {
                let i = choose|i: int|
                    0 <= i < messages.len() && (#[trigger] messages[i]).message is Fatal;
                assert(rest[i - 1] == messages[i]);
            }
        }
    } else {
        assert(drained(messages, state).0.map_values(|r: ResponseView| r.request) =~= requests_of(
            messages,
        ));
    }
}

/// A navigation that ended is recorded as failed, never as committed or settled.
pub proof fn law_terminal_navigation_is_never_recorded_as_committed(
    shell: Shell,
    completion: NavigationOperationCompletion,
    session_state_token: Option<Result<Arc<Value>, ProtocolErrorView>>,
)
    requires
        completion.outcome matches Some(Ok(navigation)) && navigation.terminal is Some
            || completion.outcome matches Some(Err(_)),
    ensures
        ({
            let records = navigation_polled(
                shell,
                EngineNavigationPoll::Complete(completion),
                session_state_token,
            ).1;
            forall|i: int|
                0 <= i < records.len() ==> !((#[trigger] records[i]) is NavigationCommitted)
                    && !(records[i] is SettlementTerminal)
        }),
{
}

/// The controlled network is told only the virtual time that an outcome attests, and in a session
/// profile a completed advance attests exactly the time that it was permitted to.
pub proof fn law_network_time_is_attested(
    shell: Shell,
    poll: EngineControlPoll,
    url: Option<String>,
    network: Option<ControlledNetworkSnapshot>,
    now: u64,
)
    ensures
        control_polled(shell, poll, url, network, now).1 matches ControlStepView::Transition {
            command,
            outcome,
            network_time_ns,
        } ==> {
            &&& network_time_ns == outcome_time(*outcome)
            &&& shell.active is Some && shell.active->0.in_flight == Some(command)
            &&& selects_session_api(shell.active->0.profile) && disposition(*outcome)
                == ControlOutcomeDisposition::Completed ==> (command
                matches DocumentControlCommand::AdvanceTo(token) ==> network_time_ns == Some(
                token.deadline_ns,
            ))
        },
{
}

} // verus!
