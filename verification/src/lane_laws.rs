//! How commands go to the engine and answers to the client: what is in flight, what is waited for,
//! and what a frame says.

use vstd::prelude::*;

use crate::active::{
    ActiveOperation, ActiveRequest, Answers, ControlledOpenState, SessionProjectionKind,
    TransitionView,
};
use crate::control::{DocumentControlCommand, NavigationOperationKind, SettleProgress};
use crate::engine::{
    control_admission, engine_error_view, navigation_admission, navigation_submitted, open_fault,
    opened_session, EngineControlPoll, EngineError, EngineNavigationPoll, EngineSession,
    EngineSessionOpenOptions,
};
use crate::error::ProtocolErrorView;
use crate::failure_laws::told;
use crate::json::{
    distinct_names, lemma_object_member, member_of, object_json, unsigned_json, JsonView,
};
use crate::network::{ControlledNetworkSnapshot, SessionStateError};
use crate::operation::{mode_at, ControlReceiveMode};
use crate::operation_laws::{is_session, is_webapp, open_terms};
use crate::profile::{earliest, DocumentControlProfile, SessionProfile};
use crate::session::pump_wanted;
use crate::settlement_laws::time_waited;
use crate::shell::{
    after_control, after_navigation, after_observation, applied, method_session_id, ResponseView,
    Shell, ShellState, ShellStepView,
};
use crate::shell_poll::{
    control_polled, host_wait_served, navigation_polled, open_deadline_served, settlement_wait,
    sleep_deadline, ControlStepView,
};
use crate::text::decimal;
use crate::writer::{error_frame, response_frame, result_frame};

verus! {

/// An engine takes one command at a time, on either lane, and a command's deadline is its timeout
/// from now; only a session navigates.
pub proof fn law_an_engine_takes_one_command_at_a_time(
    session: EngineSession,
    now: u64,
    timeout_ns: u64,
)
    ensures
        ({
            let busy = session.pending_control is Some || session.pending_navigation is Some;
            let late = now + timeout_ns > u64::MAX;
            &&& control_admission(session, now, timeout_ns) is Ok <==> !busy && !late
            &&& control_admission(session, now, timeout_ns) matches Ok(deadline) ==> deadline == now
                + timeout_ns
            &&& busy ==> control_admission(session, now, timeout_ns) == Err::<u64, EngineError>(
                EngineError::ControlAlreadyPending,
            )
            &&& !busy && late ==> control_admission(session, now, timeout_ns)
                == Err::<u64, EngineError>(EngineError::ControlDeadlineOverflow)
            &&& navigation_admission(session, now, timeout_ns) is Ok <==> !busy && !late
                && session.document_control_profile == DocumentControlProfile::TopLevelSession
            &&& navigation_admission(session, now, timeout_ns) matches Ok(deadline) ==> deadline
                == now + timeout_ns
        }),
{
}

/// A navigation operation that was sent is pending, of its kind and with its deadline; one that was
/// not leaves the engine as it was.
pub proof fn law_a_sent_navigation_is_pending(
    before: EngineSession,
    kind: NavigationOperationKind,
    now: u64,
    timeout_ns: u64,
    sent: Result<(), String>,
    after: EngineSession,
    r: Result<(), EngineError>,
)
    requires
        navigation_submitted(before, kind, now, timeout_ns, sent, after, r),
    ensures
        r is Ok ==> {
            &&& sent is Ok
            &&& after.pending_navigation matches Some(pending) && pending.kind == kind
                && pending.deadline == now + timeout_ns
            &&& after.pending_control is None
            &&& after.clock_mode == before.clock_mode
            &&& after.document_control_profile == before.document_control_profile
        },
        r is Err ==> after == before,
        sent is Err ==> r is Err,
{
}

/// An engine is opened with what was asked for and with nothing pending. Only a session is given
/// state and network, and it needs a controlled clock.
pub proof fn law_an_engine_opens_as_configured(
    options: EngineSessionOpenOptions,
    state_fault: Option<SessionStateError>,
)
    ensures
        ({
            let session = opened_session(options);
            let top_level = options.document_control_profile
                == DocumentControlProfile::TopLevelSession;
            &&& session.clock_mode == options.clock_mode
            &&& session.document_control_profile == options.document_control_profile
            &&& session.document_execution_profile == options.document_execution_profile
            &&& session.pending_control is None
            &&& session.pending_navigation is None
            &&& open_fault(options, state_fault) is None <==> {
                &&& options.state is Some || options.network is Some ==> top_level
                &&& options.state is Some ==> state_fault is None
                &&& top_level ==> options.clock_mode is Controlled
            }
        }),
{
}

/// A submitted command is in flight, and nothing is waited for; the request is otherwise as it was.
/// A session does not survive a command that could not be submitted.
pub proof fn law_a_submitted_command_is_in_flight(
    shell: Shell,
    active: ActiveRequest,
    command: DocumentControlCommand,
    observed: u64,
    submission: Result<(), ProtocolErrorView>,
)
    requires
        shell.active == Some(active),
    ensures
        ({
            let (after, step) = after_control(shell, command, observed, submission);
            &&& submission is Ok ==> {
                &&& step is Keep
                &&& after.active matches Some(next) && {
                    &&& next.in_flight == Some(command)
                    &&& next.control_turn_observed == Some(observed)
                    &&& next.needs_initial_pump
                    &&& next.request == active.request
                    &&& next.profile == active.profile
                    &&& next.started_at == active.started_at
                    &&& next.state_effect == active.state_effect
                    &&& settlement_wait(next.operation) is None
                    &&& time_waited(next.operation) == time_waited(active.operation)
                    &&& settlement_wait(active.operation) is None && !(active.operation is Navigate)
                        ==> next.operation == active.operation
                }
            }
            &&& submission matches Err(error) ==> {
                &&& after.active is None
                &&& step matches ShellStepView::Finish(end) && {
                    &&& end.responses.len() == 1
                    &&& end.responses[0].request == Some(active.request)
                    &&& end.responses[0].outcome matches Err(reported) && {
                        &&& reported.code == error.code
                        &&& reported.message == error.message
                        &&& reported.state_effect == told(active.state_effect)
                        &&& reported.fatal <==> error.fatal || is_session(active.profile)
                    }
                    &&& end.exit is Some <==> is_session(active.profile)
                    &&& end.close_after <==> is_session(active.profile)
                    &&& active.operation is ControlledOpen ==> end.close_before
                }
                &&& is_session(active.profile) ==> after.state == ShellState::Closed
                    && after.engine is None
                &&& !is_session(active.profile) && active.operation is ControlledOpen ==> after.state
                    == ShellState::Initialized && after.engine is None
            }
        }),
{
}

/// A submitted observation or navigation leaves the request as it was; whether the engine is pumped
/// first is as was asked.
pub proof fn law_a_submitted_navigation_keeps_the_request(
    shell: Shell,
    active: ActiveRequest,
    allow_servo_pump: bool,
    submission: Result<(), ProtocolErrorView>,
)
    requires
        shell.active == Some(active),
    ensures
        ({
            let (after, step) = after_observation(shell, allow_servo_pump, submission);
            &&& submission is Ok ==> step is Keep && after.active == Some(
                ActiveRequest { needs_initial_pump: allow_servo_pump, ..active },
            )
            &&& submission matches Err(error) ==> {
                &&& after.active is None
                &&& step matches ShellStepView::Finish(end) && {
                    &&& end.responses.len() == 1
                    &&& end.responses[0].request == Some(active.request)
                    &&& end.responses[0].outcome matches Err(reported) && reported.code
                        == error.code && reported.state_effect == told(active.state_effect)
                    &&& end.exit is Some <==> is_session(active.profile)
                }
            }
        }),
        ({
            let (after, step) = after_navigation(shell, submission);
            &&& submission is Ok ==> step is Keep && after.active == Some(
                ActiveRequest { needs_initial_pump: true, ..active },
            )
            &&& submission matches Err(error) ==> {
                &&& after.active is None
                &&& step matches ShellStepView::Finish(end) && {
                    &&& end.responses.len() == 1
                    &&& end.responses[0].request == Some(active.request)
                    &&& end.responses[0].outcome matches Err(reported) && reported.code
                        == error.code && reported.fatal == error.fatal && reported.state_effect
                        == told(active.state_effect)
                    &&& end.exit is None
                }
            }
        }),
{
}

/// What is published is looked at first with the engine running, unless it is the result of an
/// action.
pub proof fn law_the_result_of_an_action_is_not_pumped(
    shell: Shell,
    active: ActiveRequest,
    projection: crate::active::SessionProjectionState,
    network: Option<ControlledNetworkSnapshot>,
    now: u64,
)
    ensures
        applied(shell, active, TransitionView::ProjectSession(projection), network, now).1
            matches ShellStepView::SubmitNavigationObservation { allow_servo_pump, .. } ==> (
        allow_servo_pump <==> match projection.kind {
            SessionProjectionKind::Automation { settle_resume, .. } => !(settle_resume.response
                is Automation),
            SessionProjectionKind::Value { settle_resume: Some(resume), .. } => !(resume.response
                is Automation),
            SessionProjectionKind::Navigate { settle_resume: Some(resume), .. } => !(resume.response
                is Automation),
            SessionProjectionKind::ControlledOpen { settle_resume: Some(resume), .. } => !(
            resume.response is Automation),
            _ => true,
        }),
        applied(shell, active, TransitionView::SubmitSessionNavigationObservation {
            allow_servo_pump: true,
        }, network, now).1 matches ShellStepView::SubmitNavigationObservation {
            allow_servo_pump,
            ..
        } ==> allow_servo_pump,
        applied(shell, active, TransitionView::SubmitSessionNavigationObservation {
            allow_servo_pump: false,
        }, network, now).1 matches ShellStepView::SubmitNavigationObservation {
            allow_servo_pump,
            ..
        } ==> !allow_servo_pump,
{
}

/// A lane that still works is waited for until its deadline; one that lost what was in flight
/// leaves the outcome open and ends the session.
pub proof fn law_a_lost_receiver_ends_the_session(
    shell: Shell,
    active: ActiveRequest,
    deadline: u64,
    url: Option<String>,
    network: Option<ControlledNetworkSnapshot>,
    now: u64,
)
    requires
        shell.active == Some(active),
    ensures
        active.in_flight is Some ==> {
            &&& control_polled(shell, EngineControlPoll::Pending { deadline }, url, network, now)
                == (shell, ControlStepView::Waiting { deadline: Some(deadline) })
            &&& ends_the_session(
                active,
                control_polled(shell, EngineControlPoll::Idle, url, network, now).1,
            )
        },
        active.in_flight is None ==> control_polled(
            shell,
            EngineControlPoll::Idle,
            url,
            network,
            now,
        ) == (shell, ControlStepView::Waiting { deadline: None }),
        ({
            let (after, evidence, next) = navigation_polled(
                shell,
                EngineNavigationPoll::Pending { deadline },
                None,
            );
            after == shell && evidence.len() == 0 && next is Waiting
        }),
        ({
            let (after, evidence, next) = navigation_polled(shell, EngineNavigationPoll::Idle, None);
            next is Step ==> evidence.len() == 0 && ends_the_session(
                active,
                ControlStepView::Step(next->Step_0),
            )
        }),
{
}

/// Whether a step answers a request with an open outcome and ends the session.
pub open spec fn ends_the_session(active: ActiveRequest, step: ControlStepView) -> bool {
    step matches ControlStepView::Step(ShellStepView::Finish(end)) && {
        &&& end.responses.len() == 1
        &&& end.responses[0].request == Some(active.request)
        &&& end.responses[0].outcome matches Err(error) && error.fatal && error.code
            == "internal_runtime_failure"@ && error.state_effect == "indeterminate"@
        &&& end.exit is Some && end.close_after
    }
}

/// An open that waits for its engine looks again after ten milliseconds or when the engine wakes,
/// and gives up at its deadline.
pub proof fn law_an_open_looks_again(
    shell: Shell,
    active: ActiveRequest,
    state: ControlledOpenState,
    current: u64,
    network: Option<ControlledNetworkSnapshot>,
    answers: Answers,
    now: u64,
)
    requires
        active.operation == ActiveOperation::ControlledOpen(state),
    ensures
        shell.active is None && (network matches Some(snapshot) ==> snapshot.sticky_failure is None)
            ==> {
            let (after, step) = applied(
                shell,
                active,
                TransitionView::WaitForControlledOpen,
                network,
                now,
            );
            &&& step is Keep <==> now < state.deadline
            &&& step is Keep ==> (after.active matches Some(next) && (next.operation
                matches ActiveOperation::ControlledOpen(waiting) && {
                &&& waiting.readiness_waiting matches Some(wait) && wait.observed
                    == shell.servo_cursor && (now + 10_000_000 <= u64::MAX ==> wait.retry_at == now
                    + 10_000_000)
                &&& waiting.requested_url == state.requested_url
                &&& waiting.current_url == state.current_url
                &&& waiting.deadline == state.deadline
                &&& waiting.profile == state.profile
            }))
        },
        shell.active == Some(active) && (network matches Some(snapshot) ==> snapshot.sticky_failure
            is None) ==> (state.readiness_waiting matches Some(wait) ==> {
            let (after, step) = host_wait_served(shell, current, network, answers, now);
            &&& step is None <==> now < state.deadline && now < wait.retry_at && current
                == wait.observed
            &&& step is None ==> after == shell
            &&& step matches Some(next) ==> if now < state.deadline {
                next matches ShellStepView::SubmitControl { command, .. } && command
                    == DocumentControlCommand::Observe
            } else {
                next matches ShellStepView::Finish(end) && end.responses.len() == 1 && (
                end.responses[0].outcome matches Err(error) && error.code
                    == "controlled_open_timeout"@)
            }
        }),
{
}

/// An open is given up exactly at its deadline.
pub proof fn law_an_open_is_given_up_at_its_deadline(
    shell: Shell,
    active: ActiveRequest,
    state: ControlledOpenState,
    now: u64,
)
    requires
        shell.active == Some(active),
        active.operation == ActiveOperation::ControlledOpen(state),
    ensures
        ({
            let (after, step) = open_deadline_served(shell, now);
            &&& step is Some <==> now >= state.deadline
            &&& step is None ==> after == shell
            &&& step matches Some(ShellStepView::Finish(end)) ==> end.responses.len() == 1
                && end.responses[0].request == Some(active.request) && (
            end.responses[0].outcome matches Err(error) && error.code == "controlled_open_timeout"@)
            &&& step is Some ==> step->0 is Finish && after.active is None && after.engine is None
        }),
{
}

/// A settlement that waited goes on as its coordinator says, with the time it has waited in all.
pub proof fn law_a_settlement_goes_on_after_its_wait(
    shell: Shell,
    active: ActiveRequest,
    state: crate::active::SettleState,
    wait: crate::active::SettleHostWait,
    next: DocumentControlCommand,
    current: u64,
    network: Option<ControlledNetworkSnapshot>,
    answers: Answers,
    now: u64,
)
    requires
        shell.active == Some(active),
        active.operation == ActiveOperation::Settle(state),
        is_webapp(Some(state.profile)),
        state.response is Runtime,
        state.waiting == Some(wait),
        wait.started_at <= now,
        answers.progress matches Some(Ok(SettleProgress::Command(command))) && command == next,
        network matches Some(snapshot) ==> snapshot.sticky_failure is None,
    ensures
        ({
            let (after, step) = host_wait_served(shell, current, network, answers, now);
            let total = state.cumulative_external_io_wall_time_ns + (now - wait.started_at);
            step matches Some(served) ==> if total > u64::MAX {
                served matches ShellStepView::Finish(end) && end.responses.len() == 1 && (
                end.responses[0].outcome matches Err(error) && error.code
                    == "settlement_wall_time_overflow"@ && !error.fatal)
            } else {
                &&& served matches ShellStepView::SubmitControl { command, .. } && command == next
                &&& after.active matches Some(kept) && (kept.operation
                    matches ActiveOperation::Settle(resumed) && {
                    &&& resumed.cumulative_external_io_wall_time_ns == total
                    &&& resumed.waiting is None
                    &&& resumed.effective_policy == state.effective_policy
                    &&& resumed.response == state.response
                    &&& resumed.profile == state.profile
                })
            }
        }),
{
}

/// Every answer is in the session's name where a session is open; an open is exactly where it
/// succeeded, and so is a close, which leaves none open.
pub proof fn law_an_open_session_is_named(method: Seq<char>, succeeded: bool, state: ShellState)
    ensures
        method == "session.open"@ ==> method_session_id(method, succeeded, state) == if succeeded {
            Some("s-1"@)
        } else {
            None
        },
        method != "session.open"@ ==> (method_session_id(method, succeeded, state) == Some("s-1"@)
            <==> state == ShellState::Open || (method == "session.close"@ && succeeded)),
        method != "session.open"@ && method_session_id(method, succeeded, state) != Some("s-1"@)
            ==> method_session_id(method, succeeded, state) is None,
{
}

proof fn lemma_frame_names_differ()
    ensures
        "v"@.len() == 1,
        "type"@.len() == 4,
        "wireSeq"@.len() == 7,
        "id"@.len() == 2,
        "sessionId"@.len() == 9,
        "result"@.len() == 6,
        "event"@.len() == 5,
        "error"@.len() == 5,
        "event"@[1] == 'v',
        "error"@[1] == 'r',
        "code"@.len() == 4,
        "message"@.len() == 7,
        "fatal"@.len() == 5,
        "stateEffect"@.len() == 11,
        "details"@.len() == 7,
        "message"@[0] == 'm',
        "details"@[0] == 'd',
{
    reveal_strlit("v");
    reveal_strlit("type");
    reveal_strlit("wireSeq");
    reveal_strlit("id");
    reveal_strlit("sessionId");
    reveal_strlit("result");
    reveal_strlit("event");
    reveal_strlit("error");
    reveal_strlit("code");
    reveal_strlit("message");
    reveal_strlit("fatal");
    reveal_strlit("stateEffect");
    reveal_strlit("details");
}

/// The JSON of a text that may be missing.
pub open spec fn text_or_null(text: Option<Seq<char>>) -> JsonView {
    match text {
        Some(text) => JsonView::Text(text),
        None => JsonView::Null,
    }
}

/// A frame says which version it is of, its number in the stream, which request it answers, in
/// which session, and with what.
pub proof fn law_a_frame_says_what_it_answers(
    wire_seq: u128,
    id: Seq<char>,
    session_id: Option<Seq<char>>,
    result: JsonView,
)
    ensures
        ({
            let frame = result_frame(wire_seq, id, session_id, result);
            &&& member_of(frame, "v"@) == Some(unsigned_json(1))
            &&& member_of(frame, "type"@) == Some(JsonView::Text("response"@))
            &&& member_of(frame, "wireSeq"@) == Some(JsonView::Text(decimal(wire_seq as nat)))
            &&& member_of(frame, "id"@) == Some(JsonView::Text(id))
            &&& member_of(frame, "sessionId"@) == Some(text_or_null(session_id))
            &&& member_of(frame, "result"@) == Some(result)
        }),
{
    lemma_frame_names_differ();
    let members = seq![
        ("v"@, unsigned_json(1)),
        ("type"@, JsonView::Text("response"@)),
        ("wireSeq"@, JsonView::Text(decimal(wire_seq as nat))),
        ("id"@, JsonView::Text(id)),
        ("sessionId"@, text_or_null(session_id)),
        ("result"@, result),
    ];
    assert(members =~= crate::writer::frame_head(
        "response"@,
        wire_seq,
        Some(id),
        session_id,
    ).push(("result"@, result)));
    assert(distinct_names(members));
    lemma_object_member(members, 0);
    lemma_object_member(members, 1);
    lemma_object_member(members, 2);
    lemma_object_member(members, 3);
    lemma_object_member(members, 4);
    lemma_object_member(members, 5);
}

/// The frame of an error says the same, and carries the error with its code, its message, whether
/// it is fatal, what was changed, and its details where it has some. One that answers no request is
/// the event of a fatal fault.
pub proof fn law_an_error_frame_carries_its_error(
    wire_seq: u128,
    id: Option<Seq<char>>,
    session_id: Option<Seq<char>>,
    error: ProtocolErrorView,
)
    ensures
        ({
            let frame = error_frame(wire_seq, id, session_id, error);
            &&& member_of(frame, "v"@) == Some(unsigned_json(1))
            &&& member_of(frame, "type"@) == Some(
                JsonView::Text(
                    if id is Some {
                        "response"@
                    } else {
                        "event"@
                    },
                ),
            )
            &&& member_of(frame, "wireSeq"@) == Some(JsonView::Text(decimal(wire_seq as nat)))
            &&& member_of(frame, "id"@) == Some(text_or_null(id))
            &&& member_of(frame, "sessionId"@) == Some(text_or_null(session_id))
            &&& member_of(frame, "event"@) == Some(
                if id is Some {
                    JsonView::Null
                } else {
                    JsonView::Text("protocol.fatal"@)
                },
            )
            &&& member_of(frame, "error"@) matches Some(carried) && {
                &&& member_of(carried, "code"@) == Some(JsonView::Text(error.code))
                &&& member_of(carried, "message"@) == Some(JsonView::Text(error.message))
                &&& member_of(carried, "fatal"@) == Some(JsonView::Bool(error.fatal))
                &&& member_of(carried, "stateEffect"@) == Some(JsonView::Text(error.state_effect))
                &&& error.details is Some ==> member_of(carried, "details"@) == error.details
            }
        }),
{
    lemma_frame_names_differ();
    let plain = seq![
        ("code"@, JsonView::Text(error.code)),
        ("message"@, JsonView::Text(error.message)),
        ("fatal"@, JsonView::Bool(error.fatal)),
        ("stateEffect"@, JsonView::Text(error.state_effect)),
    ];
    let payload = match error.details {
        Some(details) => plain.push(("details"@, details)),
        None => plain,
    };
    assert(distinct_names(payload));
    lemma_object_member(payload, 0);
    lemma_object_member(payload, 1);
    lemma_object_member(payload, 2);
    lemma_object_member(payload, 3);
    if error.details is Some {
        lemma_object_member(payload, 4);
    }
    let kind = if id is Some {
        "response"@
    } else {
        "event"@
    };
    let event = if id is Some {
        JsonView::Null
    } else {
        JsonView::Text("protocol.fatal"@)
    };
    let members = seq![
        ("v"@, unsigned_json(1)),
        ("type"@, JsonView::Text(kind)),
        ("wireSeq"@, JsonView::Text(decimal(wire_seq as nat))),
        ("id"@, text_or_null(id)),
        ("sessionId"@, text_or_null(session_id)),
        ("event"@, event),
        ("error"@, object_json(payload)),
    ];
    assert(members =~= crate::writer::frame_head(kind, wire_seq, id, session_id).push(
        ("event"@, event),
    ).push(("error"@, object_json(payload))));
    assert(distinct_names(members));
    lemma_object_member(members, 0);
    lemma_object_member(members, 1);
    lemma_object_member(members, 2);
    lemma_object_member(members, 3);
    lemma_object_member(members, 4);
    lemma_object_member(members, 5);
    lemma_object_member(members, 6);
}

/// A response is written as the frame of its outcome, under the id of its request and in its
/// session.
pub proof fn law_a_response_is_written_as_it_is(wire_seq: u128, response: ResponseView)
    requires
        response.outcome is Ok ==> response.request is Some,
    ensures
        ({
            let frame = response_frame(wire_seq, response);
            &&& member_of(frame, "wireSeq"@) == Some(JsonView::Text(decimal(wire_seq as nat)))
            &&& member_of(frame, "id"@) == Some(
                match response.request {
                    Some(request) => JsonView::Text(request.id@),
                    None => JsonView::Null,
                },
            )
            &&& member_of(frame, "sessionId"@) == Some(text_or_null(response.session_id))
            &&& response.outcome matches Ok(json) ==> member_of(frame, "result"@) == Some(json)
            &&& response.outcome matches Err(error) ==> (member_of(frame, "error"@) matches Some(
                carried,
            ) && member_of(carried, "code"@) == Some(JsonView::Text(error.code)))
        }),
{
    let id = match response.request {
        Some(request) => Some(request.id@),
        None => None,
    };
    match response.outcome {
        Ok(json) => {
            law_a_frame_says_what_it_answers(wire_seq, id->0, response.session_id, json);
        },
        Err(error) => {
            law_an_error_frame_carries_its_error(wire_seq, id, response.session_id, error);
        },
    }
}

/// Nothing that belongs to an open is given time beyond the deadline of the open: no command, no
/// wait and no sleep.
pub proof fn law_nothing_outlasts_its_open(
    shell: Shell,
    active: ActiveRequest,
    profile: SessionProfile,
    deadline: u64,
    transition: TransitionView,
    network: Option<ControlledNetworkSnapshot>,
    control_deadline: Option<u64>,
    now: u64,
)
    requires
        open_terms(active.operation) == Some((profile, deadline)),
        active.operation matches ActiveOperation::SessionProjection(state) ==> state.kind
            is ControlledOpen,
    ensures
        shell.active is None ==> {
            let (after, step) = applied(shell, active, transition, network, now);
            &&& step matches ShellStepView::SubmitControl { timeout_ns, .. } ==> now + timeout_ns
                <= deadline
            &&& !(transition is ProjectSession) ==> (
            step matches ShellStepView::SubmitNavigationObservation { timeout_ns, .. } ==> now
                + timeout_ns <= deadline)
            &&& transition is Wait && step is Keep ==> (after.active matches Some(next) && (
            settlement_wait(next.operation) matches Some(wait) && (wait.deadline matches Some(until)
                && until <= deadline)))
        },
        shell.active == Some(active) ==> {
            &&& sleep_deadline(shell, control_deadline, now) <= deadline
            &&& now >= deadline ==> (open_deadline_served(shell, now).1 matches Some(
                ShellStepView::Finish(end),
            ) && end.responses.len() == 1 && end.responses[0].request == Some(active.request) && (
            end.responses[0].outcome matches Err(error) && error.code
                == "controlled_open_timeout"@))
            &&& now < deadline ==> open_deadline_served(shell, now).1 is None
        },
{
}

/// The engine is pumped after a wake, or where a command wants it, unless it has to stand still; it
/// is not pumped for nothing.
pub proof fn law_a_wake_pumps_the_engine(shell: Shell, current: u64)
    ensures
        shell.engine is None ==> !pump_wanted(shell, current),
        shell.engine is Some && shell.active is None ==> (pump_wanted(shell, current) <==> current
            != shell.servo_cursor),
        shell.active matches Some(active) ==> {
            &&& !active.needs_initial_pump && current == shell.servo_cursor ==> !pump_wanted(
                shell,
                current,
            )
            &&& shell.engine is Some && (active.operation is Pending || active.operation
                is ControlledOpen || active.operation is AdvanceToNext || active.operation
                is Navigate || active.operation is Audit) ==> (pump_wanted(shell, current)
                <==> active.needs_initial_pump || current != shell.servo_cursor)
        },
{
}

/// The earlier of two deadlines is one of them, and no later than either.
pub proof fn law_the_earlier_deadline_comes_first(left: Option<u64>, right: Option<u64>)
    ensures
        earliest(left, right) == left || earliest(left, right) == right,
        left matches Some(a) ==> (earliest(left, right) matches Some(first) && first <= a),
        right matches Some(b) ==> (earliest(left, right) matches Some(first) && first <= b),
        earliest(left, right) is None ==> left is None && right is None,
{
}

/// A response is waited for until its deadline, and no longer.
pub proof fn law_a_response_is_awaited_until_its_deadline(deadline: u64, now: u64)
    ensures
        mode_at(deadline, now) == ControlReceiveMode::Final <==> now >= deadline,
        mode_at(deadline, now) == ControlReceiveMode::Try <==> now < deadline,
{
}

/// A fault of the engine is told under its own code. It is fatal where a session was left half
/// made, and only an evaluation or an operation out of time may have changed something.
pub proof fn law_a_fault_of_the_engine_is_told(error: EngineError)
    ensures
        ({
            let view = engine_error_view(error);
            &&& view.code == match error {
                EngineError::Startup(_) => "engine_startup_failed"@,
                EngineError::SessionConfiguration(_) => "invalid_request"@,
                EngineError::ClockConfiguration(_) => "engine_clock_configuration_failed"@,
                EngineError::ControlProfileConfiguration(_) =>
                "engine_control_profile_configuration_failed"@,
                EngineError::ExecutionProfileConfiguration(_) =>
                "engine_execution_profile_configuration_failed"@,
                EngineError::ControlledNetworkConfiguration(_) => "internal_runtime_failure"@,
                EngineError::NetworkFixture(_) => "invalid_request"@,
                EngineError::UnpublishedInitialization(_) => "session_state_initialization_failed"@,
                EngineError::SessionStateValidation(fault) => crate::network::state_error_view(
                    fault,
                ).code,
                EngineError::SessionStateInitialization(fault) => crate::network::state_error_view(
                    fault,
                ).code,
                EngineError::ControlSubmission(_) => "engine_control_submission_failed"@,
                EngineError::SessionNavigation(_) => "engine_session_navigation_failed"@,
                EngineError::ControlAlreadyPending => "engine_control_busy"@,
                EngineError::ControlDeadlineOverflow => "engine_control_deadline_overflow"@,
                EngineError::BlockingHelperUnavailableInControlledMode(_) =>
                "engine_helper_requires_realtime"@,
                EngineError::TopLevelSessionRequired => "engine_top_level_session_required"@,
                EngineError::WallTimeLimit => "wall_time_limit_exceeded"@,
                EngineError::Evaluation(_) => "evaluation_failed"@,
            }
            &&& view.fatal <==> error is ControlledNetworkConfiguration || error
                is UnpublishedInitialization || error is SessionStateInitialization
            &&& view.state_effect == if error is WallTimeLimit {
                "indeterminate"@
            } else if error is Evaluation {
                "partial"@
            } else {
                "none"@
            }
        }),
{
}

} // verus!
