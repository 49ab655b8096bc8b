//! How the shell cancels requests and closes the session.

use serde_json::Value;
use vstd::prelude::*;

use crate::active::{ActiveFailure, ActiveFailureView, ActiveOperation, ActiveRequest};
use crate::control::{
    command_is_mutating, mutates, NavigationOperationCompletion, NavigationOperationKind,
};
use crate::error::{
    fatal_error, fatal_operation, invalid_request_error, operation_error, ProtocolError,
    ProtocolErrorView,
};
use crate::failure::{indeterminate_failure, indeterminate_failure_view, soft_failure};
use crate::inbox::{
    has_id, OrdinaryRequestRemoval, ReaderCloseDisposition, ReaderInbox, ReaderMessage,
    SequencedReaderMessage,
};
use crate::json::{members_json, object_json, text_value, value_json, value_of, JsonView, NewValue};
use crate::operation::ControlOutcomeDisposition;
use crate::profile::{effect_text, selects_session_api, supports_session_api};
use crate::request::Request;
use crate::shell::{
    answered, finish_with, method_response, open_session_id, responses_view, Finish, FinishView,
    Response, ResponseView, Shell, ShellState, ShellStep, ShellStepView,
};
use crate::text::same_text;

verus! {

/// The failure of a request that is cancelled while it is active.
pub open spec fn cancelled_failure(
    active: ActiveRequest,
    control: Option<ControlOutcomeDisposition>,
    navigation: Option<NavigationOperationCompletion>,
) -> ActiveFailureView {
    if selects_session_api(active.profile) {
        indeterminate_failure_view(
            "cancellation abandoned an active controlled-session command sequence"@,
        )
    } else if (active.in_flight is Some && mutates(active.in_flight->0)) || control == Some(
        ControlOutcomeDisposition::Indeterminate,
    ) || (navigation is Some && navigation->0.kind == NavigationOperationKind::Navigate
        && navigation->0.outcome is None) {
        indeterminate_failure_view("cancellation abandoned a mutating command response"@)
    } else {
        soft_failure(
            operation_error(
                "cancelled"@,
                "request was cancelled"@,
                effect_text(active.state_effect),
            ),
        )
    }
}

/// The failure of a request that is cancelled while it is active, where giving up its operations
/// reported `control` and `navigation`.
pub fn cancel_active_failure(
    active: &ActiveRequest,
    control: Option<ControlOutcomeDisposition>,
    navigation: &Option<NavigationOperationCompletion>,
) -> (failure: ActiveFailure)
    ensures
        failure@ == cancelled_failure(*active, control, *navigation),
{
    if supports_session_api(active.profile) {
        return indeterminate_failure(
            "cancellation abandoned an active controlled-session command sequence",
        );
    }
    let mutating = match &active.in_flight {
        Some(command) => command_is_mutating(command),
        None => false,
    };
    let control_lost = match control {
        Some(disposition) => disposition == ControlOutcomeDisposition::Indeterminate,
        None => false,
    };
    let navigation_lost = match navigation {
        Some(completion) => completion.kind == NavigationOperationKind::Navigate
            && !completion.response_received(),
        None => false,
    };
    if mutating || control_lost || navigation_lost {
        return indeterminate_failure("cancellation abandoned a mutating command response");
    }
    ActiveFailure {
        error: ProtocolError::operation(
            "cancelled",
            "request was cancelled",
            active.state_effect.as_protocol_str(),
        ),
        fail_stop: false,
    }
}

/// The answer to a cancellation.
pub open spec fn accepted_json(accepted: bool) -> JsonView {
    object_json(seq![("accepted"@, JsonView::Bool(accepted))])
}

fn accepted_value(accepted: bool) -> (value: Value)
    ensures
        value_json(value) == accepted_json(accepted),
{
    let members = vec![("accepted".to_owned(), value_of(NewValue::Bool(accepted)))];
    assert(members_json(members@) =~= seq![("accepted"@, JsonView::Bool(accepted))]);
    value_of(NewValue::Object(members))
}

/// The response to a cancellation.
pub open spec fn cancellation_response(shell: Shell, request: Request, accepted: bool) ->
    ResponseView {
    ResponseView {
        request: Some(request),
        session_id: open_session_id(shell.state),
        outcome: Ok(accepted_json(accepted)),
    }
}

/// The shell after its active request was cancelled: the cancellation is answered first.
pub open spec fn active_cancelled(
    shell: Shell,
    request: Request,
    active: ActiveRequest,
    failure: ActiveFailureView,
) -> (Shell, ShellStepView) {
    let opening = active.operation is ControlledOpen;
    let idle = Shell { active: None, ..shell };
    (
        if failure.fail_stop {
            Shell { engine: None, state: ShellState::Closed, ..idle }
        } else if opening {
            Shell { engine: None, state: ShellState::Initialized, ..idle }
        } else {
            idle
        },
        ShellStepView::Finish(
            FinishView {
                close_before: false,
                responses: seq![
                    cancellation_response(shell, request, true),
                    method_response(active.request, Err(failure.error), shell.state),
                ],
                close_after: opening || failure.fail_stop,
                exit: if failure.fail_stop {
                    Some("cancelled control outcome is indeterminate"@)
                } else {
                    None
                },
            },
        ),
    )
}

/// Whether a cancellation names the active request.
pub open spec fn names_active(shell: Shell, target: Seq<char>) -> bool {
    shell.active is Some && shell.active->0.request.id@ == target
}

/// What became of a cancellation.
#[derive(Debug)]
pub enum CancelStep {
    Step(ShellStep),
    /// It names the active request; the host gives the operations in flight up and reports them.
    Active(Request),
}

/// What a `CancelStep` says.
pub enum CancelStepView {
    Step(ShellStepView),
    Active(Request),
}

impl View for CancelStep {
    type V = CancelStepView;

    open spec fn view(&self) -> CancelStepView {
        match *self {
            CancelStep::Step(step) => CancelStepView::Step(step@),
            CancelStep::Active(request) => CancelStepView::Active(request),
        }
    }
}

/// What becomes of a request to close.
#[derive(Debug)]
pub enum CloseStep {
    Step(ShellStep),
    /// The host gives the operations in flight up, and the session closes.
    Close(Request),
}

/// What a `CloseStep` says.
pub enum CloseStepView {
    Step(ShellStepView),
    Close(Request),
}

impl View for CloseStep {
    type V = CloseStepView;

    open spec fn view(&self) -> CloseStepView {
        match *self {
            CloseStep::Step(step) => CloseStepView::Step(step@),
            CloseStep::Close(request) => CloseStepView::Close(request),
        }
    }
}

/// The error of a queued request that was cancelled.
pub open spec fn cancelled_in_queue() -> ProtocolErrorView {
    operation_error("cancelled"@, "request was cancelled before it started"@, "none"@)
}

/// The error of a cancellation that more than one queued request fits.
pub open spec fn ambiguous_cancellation() -> ProtocolErrorView {
    fatal_error(
        "duplicate_request_id"@,
        "cancellation target matches more than one queued request"@,
        "none"@,
    )
}

/// The step of a cancellation that found no request.
pub open spec fn cancelled_nothing(shell: Shell, request: Request) -> ShellStepView {
    answered(cancellation_response(shell, request, false))
}

/// The step of a cancellation that took a queued request out: it is answered first.
pub open spec fn cancelled_queued(shell: Shell, request: Request, target: Request) -> ShellStepView {
    ShellStepView::Finish(
        FinishView {
            close_before: false,
            responses: seq![
                cancellation_response(shell, request, true),
                method_response(target, Err(cancelled_in_queue()), shell.state),
            ],
            close_after: false,
            exit: None,
        },
    )
}

/// The step of a cancellation that more than one queued request fits. It ends the shell.
pub open spec fn cancelled_ambiguously(shell: Shell, request: Request) -> ShellStepView {
    ShellStepView::Finish(
        FinishView {
            close_before: false,
            responses: seq![method_response(request, Err(ambiguous_cancellation()), shell.state)],
            close_after: true,
            exit: Some("ambiguous queued cancellation target"@),
        },
    )
}

/// A request that was still queued when the session closed.
pub open spec fn closed_in_queue() -> ProtocolErrorView {
    operation_error("session_closing"@, "session closed before the request started"@, "none"@)
}

/// The answer to a request to close.
pub open spec fn closed_json() -> JsonView {
    object_json(seq![("state"@, JsonView::Text("closed"@))])
}

fn closed_value() -> (value: Value)
    ensures
        value_json(value) == closed_json(),
{
    let members = vec![("state".to_owned(), text_value("closed"))];
    assert(members_json(members@) =~= seq![("state"@, JsonView::Text("closed"@))]);
    value_of(NewValue::Object(members))
}

/// What a drained message is answered.
pub open spec fn drained_response(message: SequencedReaderMessage, state: ShellState) -> Seq<
    ResponseView,
> {
    match message.message {
        ReaderMessage::Request(request) => seq![
            method_response(request, Err(closed_in_queue()), state),
        ],
        ReaderMessage::CloseRequest { request, .. } => seq![
            method_response(request, Err(closed_in_queue()), state),
        ],
        ReaderMessage::Fatal(error) => seq![
            ResponseView {
                request: None,
                session_id: open_session_id(state),
                outcome: Err(error@),
            },
        ],
        ReaderMessage::Eof => seq![],
    }
}

/// The barrier that a drained message resolves.
pub open spec fn drained_barrier(message: SequencedReaderMessage) -> Seq<u128> {
    match message.message {
        ReaderMessage::CloseRequest { barrier, .. } => seq![barrier.ingress_seq],
        _ => seq![],
    }
}

/// The messages of an inbox in the order in which they are received.
pub open spec fn queued(inbox: ReaderInbox) -> Seq<SequencedReaderMessage> {
    let terminal = match inbox.terminal {
        Some(message) => seq![message],
        None => seq![],
    };
    terminal + inbox.control@ + inbox.ordinary@
}

/// What the messages are answered up to the first that reports a fatal input, with that input's
/// diagnostic.
pub open spec fn drained(messages: Seq<SequencedReaderMessage>, state: ShellState) -> (
    Seq<ResponseView>,
    Seq<u128>,
    Option<Seq<char>>,
)
    decreases messages.len(),
{
    if messages.len() == 0 {
        (seq![], seq![], None)
    } else {
        let response = drained_response(messages[0], state);
        let barrier = drained_barrier(messages[0]);
        if let ReaderMessage::Fatal(error) = messages[0].message {
            (response, barrier, Some(error@.message))
        } else {
            let (responses, barriers, exit) = drained(messages.skip(1), state);
            (response + responses, barrier + barriers, exit)
        }
    }
}

/// How a session closes. `drained` ends what was active and queued; the barriers of the requests to
/// close among it are told to stop. Where the input proved fatal there is no closing step.
#[derive(Debug)]
pub struct ClosingStep {
    pub drained: Finish,
    pub barriers: Vec<u128>,
    pub closing: Option<Finish>,
}

/// What the shell ends its active request with when it closes.
pub open spec fn closed_active(
    shell: Shell,
    control: Option<ControlOutcomeDisposition>,
    navigation: Option<NavigationOperationCompletion>,
) -> Seq<ResponseView> {
    match shell.active {
        Some(active) => seq![
            method_response(
                active.request,
                Err(cancelled_failure(active, control, navigation).error),
                shell.state,
            ),
        ],
        None => seq![],
    }
}

/// The step that closes the engine and answers the request to close.
pub open spec fn closing_finish(request: Request) -> FinishView {
    FinishView {
        close_before: true,
        responses: seq![method_response(request, Ok(closed_json()), ShellState::Closed)],
        close_after: false,
        exit: None,
    }
}

impl Shell {
    /// Cancels the request that `target` names. Where it is active, the host gives its operations up
    /// first; else it may still be queued.
    pub fn cancel(
        &mut self,
        request: Request,
        target: Result<String, ProtocolError>,
        inbox: &mut ReaderInbox,
    ) -> (step: CancelStep)
        requires
            old(inbox).wf(),
        ensures
            final(inbox).wf(),
            final(inbox).terminal == old(inbox).terminal,
            final(inbox).control@ == old(inbox).control@,
            final(inbox).ordinary_capacity == old(inbox).ordinary_capacity,
            final(inbox).sender_alive == old(inbox).sender_alive,
            final(inbox).receiver_alive == old(inbox).receiver_alive,
            match target {
                Err(error) => {
                    &&& *final(self) == *old(self)
                    &&& final(inbox).ordinary@ == old(inbox).ordinary@
                    &&& step@ == CancelStepView::Step(
                        answered(method_response(request, Err(error@), old(self).state)),
                    )
                },
                Ok(target) => if request.id@ == target@ {
                    &&& *final(self) == *old(self)
                    &&& final(inbox).ordinary@ == old(inbox).ordinary@
                    &&& step@ == CancelStepView::Step(
                        answered(
                            method_response(
                                request,
                                Err(
                                    invalid_request_error(
                                        "a cancellation request cannot target its own id"@,
                                    ),
                                ),
                                old(self).state,
                            ),
                        ),
                    )
                } else if names_active(*old(self), target@) {
                    &&& *final(self) == *old(self)
                    &&& final(inbox).ordinary@ == old(inbox).ordinary@
                    &&& step@ == CancelStepView::Active(request)
                } else {
                    ||| {
                        &&& no_queued(*old(inbox), target@)
                        &&& *final(self) == *old(self)
                        &&& final(inbox).ordinary@ == old(inbox).ordinary@
                        &&& step@ == CancelStepView::Step(cancelled_nothing(*old(self), request))
                    }
                    ||| {
                        &&& many_queued(*old(inbox), target@)
                        &&& *final(self) == (Shell {
                            engine: None,
                            active: None,
                            state: ShellState::Closed,
                            ..*old(self)
                        })
                        &&& final(inbox).ordinary@ == old(inbox).ordinary@
                        &&& step@ == CancelStepView::Step(
                            cancelled_ambiguously(*old(self), request),
                        )
                    }
                    ||| {
                        &&& *final(self) == *old(self)
                        &&& exists|p: int|
                            {
                                &&& #[trigger] only_queued(*old(inbox), target@, p)
                                &&& final(inbox).ordinary@ == old(inbox).ordinary@.remove(p)
                                &&& step@ == CancelStepView::Step(
                                    cancelled_queued(
                                        *old(self),
                                        request,
                                        old(inbox).ordinary@[p].message->Request_0,
                                    ),
                                )
                            }
                    }
                },
            },
    {
        let target = match target {
            Ok(target) => target,
            Err(error) => {
                return CancelStep::Step(self.answer(request, Err(error)));
            },
        };
        if same_text(request.id.as_str(), target.as_str()) {
            return CancelStep::Step(
                self.answer(
                    request,
                    Err(
                        ProtocolError::invalid_request(
                            "a cancellation request cannot target its own id",
                        ),
                    ),
                ),
            );
        }
        let is_active = match &self.active {
            Some(active) => same_text(active.request.id.as_str(), target.as_str()),
            None => false,
        };
        if is_active {
            return CancelStep::Active(request);
        }
        let ghost before = inbox.ordinary@;
        match inbox.remove_ordinary_request(target.as_str()) {
            OrdinaryRequestRemoval::NotFound => CancelStep::Step(
                finish_with(
                    Response {
                        request: Some(request),
                        session_id: self.session_id(),
                        outcome: Ok(accepted_value(false)),
                    },
                    false,
                    false,
                    None,
                ),
            ),
            OrdinaryRequestRemoval::Ambiguous => {
                let response = self.write_method_result(
                    request,
                    Err(
                        fatal_operation(
                            "duplicate_request_id",
                            "cancellation target matches more than one queued request",
                            "none",
                        ),
                    ),
                );
                self.engine = None;
                self.active = None;
                self.state = ShellState::Closed;
                CancelStep::Step(
                    finish_with(response, false, true, Some("ambiguous queued cancellation target")),
                )
            },
            OrdinaryRequestRemoval::Removed(removed) => {
                let ghost p = choose|p: int|
                    {
                        &&& 0 <= p < before.len()
                        &&& has_id(#[trigger] before[p], target@)
                        &&& forall|i: int|
                            0 <= i < before.len() && i != p ==> !has_id(
                                #[trigger] before[i],
                                target@,
                            )
                        &&& removed == before[p]
                        &&& inbox.ordinary@ == before.remove(p)
                    };
                assert(only_queued(*old(inbox), target@, p));
                let first = Response {
                    request: Some(request),
                    session_id: self.session_id(),
                    outcome: Ok(accepted_value(true)),
                };
                match removed.message {
                    ReaderMessage::Request(cancelled) => {
                        let second = self.write_method_result(
                            cancelled,
                            Err(
                                ProtocolError::operation(
                                    "cancelled",
                                    "request was cancelled before it started",
                                    "none",
                                ),
                            ),
                        );
                        let responses = vec![first, second];
                        assert(responses_view(responses@) =~= seq![first@, second@]);
                        CancelStep::Step(
                            ShellStep::Finish(
                                Finish {
                                    close_before: false,
                                    responses,
                                    close_after: false,
                                    exit: None,
                                },
                            ),
                        )
                    },
                    _ => {
                        assert(false);
                        CancelStep::Step(ShellStep::Keep)
                    },
                }
            },
        }
    }

    /// Cancels the active request, where giving its operations up reported `control` and
    /// `navigation`.
    pub fn cancel_active(
        &mut self,
        request: Request,
        control: Option<ControlOutcomeDisposition>,
        navigation: &Option<NavigationOperationCompletion>,
    ) -> (step: ShellStep)
        requires
            old(self).active is Some,
        ensures
            (*final(self), step@) == active_cancelled(
                *old(self),
                request,
                old(self).active->0,
                cancelled_failure(old(self).active->0, control, *navigation),
            ),
    {
        let active = match self.active.take() {
            Some(active) => active,
            None => {
                return ShellStep::Keep;
            },
        };
        let opening = match &active.operation {
            ActiveOperation::ControlledOpen(_) => true,
            _ => false,
        };
        let failure = cancel_active_failure(&active, control, navigation);
        let first = Response {
            request: Some(request),
            session_id: self.session_id(),
            outcome: Ok(accepted_value(true)),
        };
        let second = self.write_method_result(active.request, Err(failure.error));
        let responses = vec![first, second];
        assert(responses_view(responses@) =~= seq![first@, second@]);
        if opening {
            self.engine = None;
            self.state = ShellState::Initialized;
        }
        let mut exit = None;
        if failure.fail_stop {
            self.engine = None;
            self.state = ShellState::Closed;
            exit = Some("cancelled control outcome is indeterminate".to_owned());
        }
        ShellStep::Finish(
            Finish {
                close_before: false,
                responses,
                close_after: opening || failure.fail_stop,
                exit,
            },
        )
    }

    fn drain(
        &self,
        inbox: &mut ReaderInbox,
        responses: &mut Vec<Response>,
        barriers: &mut Vec<u128>,
    ) -> (exit: Option<String>)
        requires
            old(inbox).wf(),
        ensures
            final(inbox).wf(),
            ({
                let (answers, resolved, fault) = drained(queued(*old(inbox)), self.state);
                &&& responses_view(final(responses)@) == responses_view(old(responses)@) + answers
                &&& final(barriers)@ == old(barriers)@ + resolved
                &&& match exit {
                    Some(text) => fault == Some(text@),
                    None => fault is None && queued(*final(inbox)).len() == 0,
                }
            }),
        decreases queued(*old(inbox)).len(),
    {
        let ghost messages = queued(*inbox);
        let message = match inbox.try_recv_sequenced() {
            Ok(message) => message,
            Err(_) => {
                assert(messages.len() == 0);
                assert(responses_view(responses@) =~= responses_view(responses@) + seq![]);
                assert(barriers@ =~= barriers@ + Seq::<u128>::empty());
                return None;
            },
        };
        assert(messages[0] == message);
        assert(queued(*inbox) =~= messages.skip(1));
        let ghost before = responses_view(responses@);
        let ghost barriers_before = barriers@;
        match message.message {
            ReaderMessage::Request(request) => {
                responses.push(self.refuse_queued(request));
            },
            ReaderMessage::CloseRequest { request, barrier } => {
                responses.push(self.refuse_queued(request));
                let (ingress_seq, _) = barrier.resolve(ReaderCloseDisposition::Stop);
                barriers.push(ingress_seq);
            },
            ReaderMessage::Fatal(error) => {
                let exit = error.message.clone();
                responses.push(
                    Response { request: None, session_id: self.session_id(), outcome: Err(error) },
                );
                assert(responses_view(responses@) =~= before + drained_response(
                    messages[0],
                    self.state,
                ));
                assert(barriers@ =~= barriers_before + Seq::<u128>::empty());
                return Some(exit);
            },
            ReaderMessage::Eof => {},
        }
        assert(responses_view(responses@) =~= before + drained_response(messages[0], self.state));
        assert(barriers@ =~= barriers_before + drained_barrier(messages[0]));
        let exit = self.drain(inbox, responses, barriers);
        proof {
            let (answers, resolved, fault) = drained(messages.skip(1), self.state);
            assert(before + drained_response(messages[0], self.state) + answers =~= before + (
            drained_response(messages[0], self.state) + answers));
            assert(barriers_before + drained_barrier(messages[0]) + resolved =~= barriers_before + (
            drained_barrier(messages[0]) + resolved));
        }
        exit
    }

    fn refuse_queued(&self, request: Request) -> (response: Response)
        ensures
            response@ == method_response(request, Err(closed_in_queue()), self.state),
    {
        self.write_method_result(
            request,
            Err(
                ProtocolError::operation(
                    "session_closing",
                    "session closed before the request started",
                    "none",
                ),
            ),
        )
    }

    /// Takes up how the parameters of a request to close were read. Where they are refused, the
    /// session goes on.
    pub fn begin_close(&self, request: Request, params: Result<(), ProtocolError>) -> (step:
        CloseStep)
        ensures
            step@ == match params {
                Ok(_) => CloseStepView::Close(request),
                Err(error) => CloseStepView::Step(
                    answered(method_response(request, Err(error@), self.state)),
                ),
            },
    {
        match params {
            Ok(_) => CloseStep::Close(request),
            Err(error) => CloseStep::Step(self.answer(request, Err(error))),
        }
    }

    /// Closes the session: the active request ends first, then everything that is queued, then the
    /// engine, and the request to close is answered last. An input that proves fatal meanwhile ends
    /// the shell instead.
    pub fn close(
        &mut self,
        request: Request,
        control: Option<ControlOutcomeDisposition>,
        navigation: &Option<NavigationOperationCompletion>,
        inbox: &mut ReaderInbox,
    ) -> (step: ClosingStep)
        requires
            old(inbox).wf(),
        ensures
            final(inbox).wf(),
            ({
                let (answers, barriers, fault) = drained(queued(*old(inbox)), old(self).state);
                &&& step.drained@ == (FinishView {
                    close_before: false,
                    responses: closed_active(*old(self), control, *navigation) + answers,
                    close_after: false,
                    exit: fault,
                })
                &&& step.barriers@ == barriers
                &&& match step.closing {
                    Some(closing) => {
                        &&& fault is None
                        &&& closing@ == closing_finish(request)
                        &&& queued(*final(inbox)).len() == 0
                        &&& *final(self) == (Shell {
                            engine: None,
                            active: None,
                            state: ShellState::Closed,
                            ..*old(self)
                        })
                    },
                    None => {
                        &&& fault is Some
                        &&& *final(self) == (Shell { active: None, ..*old(self) })
                    },
                }
            }),
    {
        let mut responses: Vec<Response> = Vec::new();
        let mut barriers: Vec<u128> = Vec::new();
        if let Some(active) = self.active.take() {
            let failure = cancel_active_failure(&active, control, navigation);
            responses.push(self.write_method_result(active.request, Err(failure.error)));
        }
        assert(responses_view(responses@) =~= closed_active(*old(self), control, *navigation));
        let exit = self.drain(inbox, &mut responses, &mut barriers);
        assert(barriers@ =~= drained(queued(*old(inbox)), self.state).1);
        let failed = exit.is_some();
        let drained_step = Finish { close_before: false, responses, close_after: false, exit };
        if failed {
            return ClosingStep { drained: drained_step, barriers, closing: None };
        }
        self.engine = None;
        self.state = ShellState::Closed;
        let last = self.write_method_result(request, Ok(closed_value()));
        let closing = vec![last];
        assert(responses_view(closing@) =~= seq![last@]);
        ClosingStep {
            drained: drained_step,
            barriers,
            closing: Some(
                Finish { close_before: true, responses: closing, close_after: false, exit: None },
            ),
        }
    }
}

/// Whether no queued request has the id.
pub open spec fn no_queued(inbox: ReaderInbox, id: Seq<char>) -> bool {
    forall|i: int| 0 <= i < inbox.ordinary@.len() ==> !has_id(#[trigger] inbox.ordinary@[i], id)
}

/// Whether exactly the queued request at `p` has the id.
pub open spec fn only_queued(inbox: ReaderInbox, id: Seq<char>, p: int) -> bool {
    &&& 0 <= p < inbox.ordinary@.len()
    &&& has_id(inbox.ordinary@[p], id)
    &&& forall|i: int|
        0 <= i < inbox.ordinary@.len() && i != p ==> !has_id(#[trigger] inbox.ordinary@[i], id)
}

/// Whether more than one queued request has the id.
pub open spec fn many_queued(inbox: ReaderInbox, id: Seq<char>) -> bool {
    exists|p: int, q: int|
        {
            &&& 0 <= p < q < inbox.ordinary@.len()
            &&& has_id(#[trigger] inbox.ordinary@[p], id)
            &&& has_id(#[trigger] inbox.ordinary@[q], id)
        }
}

} // verus!
