//! What becomes of requests that are cancelled or still queued when the session closes.

use vstd::prelude::*;

use crate::active::ActiveRequest;
use crate::closing::{
    active_cancelled, cancelled_ambiguously, cancelled_failure, cancelled_nothing, cancelled_queued,
    closed_active, closing_finish, drained, drained_barrier, drained_response, names_active,
};
use crate::control::{NavigationOperationCompletion, NavigationOperationKind};
use crate::error::ProtocolErrorView;
use crate::failure_laws::{may_change_the_page, told};
use crate::inbox::{ReaderMessage, SequencedReaderMessage};
use crate::json::{lemma_object_member, member_of, JsonView};
use crate::operation::ControlOutcomeDisposition;
use crate::operation_laws::is_session;
use crate::request::Request;
use crate::shell::{Shell, ShellState, ShellStepView};

verus! {

/// Whether a cancellation would abandon a change that may have been made.
pub open spec fn abandons_a_change(
    active: ActiveRequest,
    control: Option<ControlOutcomeDisposition>,
    navigation: Option<NavigationOperationCompletion>,
) -> bool {
    ||| active.in_flight matches Some(command) && may_change_the_page(command)
    ||| control == Some(ControlOutcomeDisposition::Indeterminate)
    ||| navigation matches Some(completion) && completion.kind == NavigationOperationKind::Navigate
        && completion.outcome is None
}

/// A cancelled request of a session, or one that may have changed the page, has an indeterminate
/// outcome and ends the session; any other is told as cancelled, with what it had changed before.
pub proof fn law_a_cancelled_request_is_told(
    active: ActiveRequest,
    control: Option<ControlOutcomeDisposition>,
    navigation: Option<NavigationOperationCompletion>,
)
    ensures
        ({
            let failure = cancelled_failure(active, control, navigation);
            if is_session(active.profile) || abandons_a_change(active, control, navigation) {
                &&& failure.fail_stop
                &&& failure.error.fatal
                &&& failure.error.code == "outcome_indeterminate"@
                &&& failure.error.state_effect == "indeterminate"@
            } else {
                &&& !failure.fail_stop
                &&& !failure.error.fatal
                &&& failure.error.code == "cancelled"@
                &&& failure.error.state_effect == told(active.state_effect)
            }
        }),
{
}

proof fn lemma_accepted(accepted: bool)
    ensures
        member_of(crate::closing::accepted_json(accepted), "accepted"@) == Some(
            JsonView::Bool(accepted),
        ),
{
    lemma_object_member(seq![("accepted"@, JsonView::Bool(accepted))], 0);
}

/// A cancellation is answered with whether it was accepted. The request it names, active or queued,
/// is answered after it with an error; a queued one has changed nothing, and the session goes on.
pub proof fn law_a_cancellation_is_answered(
    shell: Shell,
    request: Request,
    active: ActiveRequest,
    failure: crate::active::ActiveFailureView,
    target: Request,
)
    ensures
        active_cancelled(shell, request, active, failure).1 matches ShellStepView::Finish(end) && {
            &&& end.responses.len() == 2
            &&& end.responses[0].request == Some(request)
            &&& end.responses[0].outcome matches Ok(json) && member_of(json, "accepted"@) == Some(
                JsonView::Bool(true),
            )
            &&& end.responses[1].request == Some(active.request)
            &&& end.responses[1].outcome == Err::<JsonView, ProtocolErrorView>(failure.error)
            &&& !end.close_before
            &&& end.close_after <==> failure.fail_stop || active.operation is ControlledOpen
            &&& end.exit is Some <==> failure.fail_stop
        },
        ({
            let after = active_cancelled(shell, request, active, failure).0;
            &&& after.active is None
            &&& failure.fail_stop ==> after.state == ShellState::Closed && after.engine is None
            &&& !failure.fail_stop && active.operation is ControlledOpen ==> after.state
                == ShellState::Initialized && after.engine is None
            &&& !failure.fail_stop && !(active.operation is ControlledOpen) ==> after == (Shell {
                active: None,
                ..shell
            })
        }),
        cancelled_queued(shell, request, target) matches ShellStepView::Finish(end) && {
            &&& end.responses.len() == 2
            &&& end.responses[0].request == Some(request)
            &&& end.responses[0].outcome matches Ok(json) && member_of(json, "accepted"@) == Some(
                JsonView::Bool(true),
            )
            &&& end.responses[1].request == Some(target)
            &&& end.responses[1].outcome matches Err(error) && error.code == "cancelled"@
                && error.state_effect == "none"@ && !error.fatal
            &&& end.exit is None && !end.close_before && !end.close_after
        },
        cancelled_nothing(shell, request) matches ShellStepView::Finish(end) && {
            &&& end.responses.len() == 1
            &&& end.responses[0].request == Some(request)
            &&& end.responses[0].outcome matches Ok(json) && member_of(json, "accepted"@) == Some(
                JsonView::Bool(false),
            )
            &&& end.exit is None && !end.close_before && !end.close_after
        },
        cancelled_ambiguously(shell, request) matches ShellStepView::Finish(end) && {
            &&& end.responses.len() == 1
            &&& end.responses[0].request == Some(request)
            &&& end.responses[0].outcome matches Err(error) && error.code
                == "duplicate_request_id"@ && error.fatal && error.state_effect == "none"@
            &&& end.exit is Some && end.close_after
        },
{
    lemma_accepted(true);
    lemma_accepted(false);
}

/// A close is answered, after the engine was closed, with the state `closed` in the session's name.
pub proof fn law_a_close_is_answered(request: Request)
    requires
        request.method@ == "session.close"@,
    ensures
        ({
            let end = closing_finish(request);
            &&& end.close_before
            &&& end.responses.len() == 1
            &&& end.responses[0].request == Some(request)
            &&& end.responses[0].session_id == Some("s-1"@)
            &&& end.responses[0].outcome matches Ok(json) && member_of(json, "state"@) == Some(
                JsonView::Text("closed"@),
            )
            &&& end.exit is None
        }),
{
    reveal_strlit("session.close");
    reveal_strlit("session.open");
    assert("session.close"@.len() == 13);
    assert("session.open"@.len() == 12);
    lemma_object_member(seq![("state"@, JsonView::Text("closed"@))], 0);
}

/// A request that is active at a close is answered as a cancelled one is.
pub proof fn law_a_close_answers_the_active_request(
    shell: Shell,
    control: Option<ControlOutcomeDisposition>,
    navigation: Option<NavigationOperationCompletion>,
)
    ensures
        ({
            let responses = closed_active(shell, control, navigation);
            match shell.active {
                None => responses.len() == 0,
                Some(active) => {
                    &&& responses.len() == 1
                    &&& responses[0].request == Some(active.request)
                    &&& responses[0].outcome matches Err(error) && error.code == if is_session(
                        active.profile,
                    ) || abandons_a_change(active, control, navigation) {
                        "outcome_indeterminate"@
                    } else {
                        "cancelled"@
                    }
                },
            }
        }),
{
}

/// A request that is still queued at a close is told that it never started; a fault of the input is
/// told as it is, and the end of the input is not told.
pub proof fn law_a_close_answers_what_is_queued(
    message: SequencedReaderMessage,
    state: ShellState,
)
    ensures
        ({
            let responses = drained_response(message, state);
            let barriers = drained_barrier(message);
            match message.message {
                ReaderMessage::Request(request) => {
                    &&& responses.len() == 1
                    &&& responses[0].request == Some(request)
                    &&& responses[0].outcome matches Err(error) && error.code == "session_closing"@
                        && error.state_effect == "none"@ && !error.fatal
                    &&& barriers.len() == 0
                },
                ReaderMessage::CloseRequest { request, barrier } => {
                    &&& responses.len() == 1
                    &&& responses[0].request == Some(request)
                    &&& responses[0].outcome matches Err(error) && error.code == "session_closing"@
                        && error.state_effect == "none"@ && !error.fatal
                    &&& barriers == seq![barrier.ingress_seq]
                },
                ReaderMessage::Fatal(error) => {
                    &&& responses.len() == 1
                    &&& responses[0].request is None
                    &&& responses[0].outcome == Err::<JsonView, ProtocolErrorView>(error@)
                    &&& barriers.len() == 0
                },
                ReaderMessage::Eof => responses.len() == 0 && barriers.len() == 0,
            }
        }),
{
}

/// Draining takes the messages in their order and stops at the first fault, whose message it gives.
pub proof fn law_draining_keeps_order(
    message: SequencedReaderMessage,
    rest: Seq<SequencedReaderMessage>,
    state: ShellState,
)
    ensures
        ({
            let (responses, barriers, exit) = drained(seq![message] + rest, state);
            let (rest_responses, rest_barriers, rest_exit) = drained(rest, state);
            if let ReaderMessage::Fatal(error) = message.message {
                &&& responses == drained_response(message, state)
                &&& exit == Some(error@.message)
            } else {
                &&& responses == drained_response(message, state) + rest_responses
                &&& barriers == drained_barrier(message) + rest_barriers
                &&& exit == rest_exit
            }
        }),
{
    assert((seq![message] + rest).skip(1) =~= rest);
    assert((seq![message] + rest)[0] == message);
}

/// A cancellation names the active request by its id and by nothing else.
pub proof fn law_a_cancellation_names_one_request(
    shell: Shell,
    active: ActiveRequest,
    target: Seq<char>,
)
    ensures
        shell.active == Some(active) ==> (names_active(shell, target) <==> active.request.id@
            == target),
        shell.active is None ==> !names_active(shell, target),
{
}

} // verus!
