//! The methods of the shell: which request is admitted, and how each one begins.

use serde_json::Value;
use std::sync::Arc;
use vstd::prelude::*;

use crate::active::{
    ActiveOperation, ActiveRequest, ActiveTransition, AdvanceToNextState, AuditState,
    AutomationState, NavigatePhase, NavigateState, PublicAutomationKind, SettlePolicy,
    SettleResponse, SettleState, TransitionView, UnresolvedAutomationParams,
};
use crate::control::{
    CurrentDocumentStateAuthority, DocumentControlCommand, SettleFailure, SettleProgress,
};
use crate::error::{
    fatal_error, fatal_operation, invalid_request_error, invalid_state, operation_error,
    ProtocolError, ProtocolErrorView,
};
use crate::failure::{settle_failure, settle_failure_view};
use crate::frame::MAX_FRAME_BYTES;
use crate::inbox::ReaderCloseDisposition;
use crate::json::{
    clone_value, is_object, items_json, lemma_object_member, member_of, members_json, object_json,
    text_value, unsigned_json, unsigned_value, value_json, value_of, JsonView, NewValue,
};
use crate::network::{
    harden_session_state_mutation_error, hardened_state_error, ControlledNetworkSnapshot,
};
use crate::params::{
    accept_navigation_url, check_automation, navigation_url, offers, parse_url, parsed_url, ParsedUrl,
};
use crate::profile::{
    selects_session_api, session_api, supports_session_api, RequestStateEffect, SessionProfile,
    CONTROLLED_WEBAPP_V1_PROFILE, CONTROLLED_WEB_SESSION_V1_PROFILE,
    CONTROLLED_WEB_SESSION_V2_PROFILE, SESSION_ID,
};
use crate::request::Request;
use crate::settle::{
    first_progress, should_pump_servo, suppresses_pump, transition_from_settle_progress,
};
use crate::shell::{
    answered, applied, finish_with, method_response, open_session_id, outcome_view, responses_view,
    Finish, FinishView, Response, ResponseView, Shell, ShellState, ShellStep, ShellStepView,
};
use crate::text::{joined, same_text};

verus! {

/// Why a request is not admitted to an open session.
pub open spec fn session_refusal(shell: Shell, request: Request) -> Option<ProtocolErrorView> {
    if shell.state != ShellState::Open {
        Some(operation_error("invalid_state"@, "method requires an open session"@, "none"@))
    } else if !(request.session_id is Some && request.session_id->0@ == SESSION_ID@) {
        Some(invalid_request_error("request has a missing or stale sessionId"@))
    } else {
        None
    }
}

/// Why a request is not admitted to a controlled session.
pub open spec fn controlled_refusal(shell: Shell, request: Request) -> Option<ProtocolErrorView> {
    if let Some(error) = session_refusal(shell, request) {
        Some(error)
    } else if !(shell.engine is Some && shell.engine->0.clock_mode is Controlled) {
        Some(
            operation_error(
                "controlled_clock_required"@,
                "this method requires a controlled session"@,
                "none"@,
            ),
        )
    } else {
        None
    }
}

/// Why a request is not admitted to a session with the session methods.
pub open spec fn web_session_refusal(shell: Shell, request: Request) -> Option<ProtocolErrorView> {
    if let Some(error) = controlled_refusal(shell, request) {
        Some(error)
    } else if !selects_session_api(shell.profile) {
        Some(
            operation_error(
                "unsupported_profile_method"@,
                request.method@
                    + " requires controlled-web-session-v1 or controlled-web-session-v2"@,
                "none"@,
            ),
        )
    } else {
        None
    }
}

/// The runtime methods.
#[derive(Clone, Copy, Debug, PartialEq, Eq, Structural)]
pub enum RuntimeMethod {
    Pending,
    AdvanceToNext,
    Settle,
}

/// The methods on the session state.
#[derive(Clone, Copy, Debug, PartialEq, Eq, Structural)]
pub enum SessionStateMethod {
    CookiesGet,
    CookiesSet,
    StorageGet,
    StorageSet,
    StateExport,
    StateImport,
}

/// The methods on the audit trail.
#[derive(Clone, Copy, Debug, PartialEq, Eq, Structural)]
pub enum AuditMethod {
    Requests,
    Evidence,
}

/// The methods of the protocol.
#[derive(Clone, Copy, Debug, PartialEq, Eq, Structural)]
pub enum Method {
    Initialize,
    Open,
    Evaluate,
    Cancel,
    Close,
    Runtime(RuntimeMethod),
    Automation(PublicAutomationKind),
    Navigate,
    SessionState(SessionStateMethod),
    Audit(AuditMethod),
}

/// The method with the given name.
pub open spec fn method_named(name: Seq<char>) -> Option<Method> {
    if name == "protocol.cancel"@ {
        Some(Method::Cancel)
    } else if name == "session.close"@ {
        Some(Method::Close)
    } else if name == "runtime.pending"@ {
        Some(Method::Runtime(RuntimeMethod::Pending))
    } else if name == "runtime.settle"@ {
        Some(Method::Runtime(RuntimeMethod::Settle))
    } else if name == "runtime.advance_to_next"@ {
        Some(Method::Runtime(RuntimeMethod::AdvanceToNext))
    } else if name == "action.activate"@ {
        Some(Method::Automation(PublicAutomationKind::Activate))
    } else if name == "action.fill"@ {
        Some(Method::Automation(PublicAutomationKind::Fill))
    } else if name == "action.focus"@ {
        Some(Method::Automation(PublicAutomationKind::Focus))
    } else if name == "action.check"@ {
        Some(Method::Automation(PublicAutomationKind::Check))
    } else if name == "action.uncheck"@ {
        Some(Method::Automation(PublicAutomationKind::Uncheck))
    } else if name == "action.select"@ {
        Some(Method::Automation(PublicAutomationKind::Select))
    } else if name == "action.submit"@ {
        Some(Method::Automation(PublicAutomationKind::Submit))
    } else if name == "dom.query"@ {
        Some(Method::Automation(PublicAutomationKind::Query))
    } else if name == "dom.text"@ {
        Some(Method::Automation(PublicAutomationKind::Text))
    } else if name == "dom.extract"@ {
        Some(Method::Automation(PublicAutomationKind::Extract))
    } else if name == "session.navigate"@ {
        Some(Method::Navigate)
    } else if name == "session.cookies.get"@ {
        Some(Method::SessionState(SessionStateMethod::CookiesGet))
    } else if name == "session.cookies.set"@ {
        Some(Method::SessionState(SessionStateMethod::CookiesSet))
    } else if name == "session.storage.get"@ {
        Some(Method::SessionState(SessionStateMethod::StorageGet))
    } else if name == "session.storage.set"@ {
        Some(Method::SessionState(SessionStateMethod::StorageSet))
    } else if name == "session.state.export"@ {
        Some(Method::SessionState(SessionStateMethod::StateExport))
    } else if name == "session.state.import"@ {
        Some(Method::SessionState(SessionStateMethod::StateImport))
    } else if name == "session.requests"@ {
        Some(Method::Audit(AuditMethod::Requests))
    } else if name == "session.evidence"@ {
        Some(Method::Audit(AuditMethod::Evidence))
    } else if name == "session.open"@ {
        Some(Method::Open)
    } else if name == "protocol.initialize"@ {
        Some(Method::Initialize)
    } else if name == "dom.evaluate"@ {
        Some(Method::Evaluate)
    } else {
        None
    }
}

/// Looks a method up by its name.
pub fn find_method(name: &str) -> (method: Option<Method>)
    ensures
        method == method_named(name@),
{
    if same_text(name, "protocol.cancel") {
        Some(Method::Cancel)
    } else if same_text(name, "session.close") {
        Some(Method::Close)
    } else if same_text(name, "runtime.pending") {
        Some(Method::Runtime(RuntimeMethod::Pending))
    } else if same_text(name, "runtime.settle") {
        Some(Method::Runtime(RuntimeMethod::Settle))
    } else if same_text(name, "runtime.advance_to_next") {
        Some(Method::Runtime(RuntimeMethod::AdvanceToNext))
    } else if same_text(name, "action.activate") {
        Some(Method::Automation(PublicAutomationKind::Activate))
    } else if same_text(name, "action.fill") {
        Some(Method::Automation(PublicAutomationKind::Fill))
    } else if same_text(name, "action.focus") {
        Some(Method::Automation(PublicAutomationKind::Focus))
    } else if same_text(name, "action.check") {
        Some(Method::Automation(PublicAutomationKind::Check))
    } else if same_text(name, "action.uncheck") {
        Some(Method::Automation(PublicAutomationKind::Uncheck))
    } else if same_text(name, "action.select") {
        Some(Method::Automation(PublicAutomationKind::Select))
    } else if same_text(name, "action.submit") {
        Some(Method::Automation(PublicAutomationKind::Submit))
    } else if same_text(name, "dom.query") {
        Some(Method::Automation(PublicAutomationKind::Query))
    } else if same_text(name, "dom.text") {
        Some(Method::Automation(PublicAutomationKind::Text))
    } else if same_text(name, "dom.extract") {
        Some(Method::Automation(PublicAutomationKind::Extract))
    } else if same_text(name, "session.navigate") {
        Some(Method::Navigate)
    } else if same_text(name, "session.cookies.get") {
        Some(Method::SessionState(SessionStateMethod::CookiesGet))
    } else if same_text(name, "session.cookies.set") {
        Some(Method::SessionState(SessionStateMethod::CookiesSet))
    } else if same_text(name, "session.storage.get") {
        Some(Method::SessionState(SessionStateMethod::StorageGet))
    } else if same_text(name, "session.storage.set") {
        Some(Method::SessionState(SessionStateMethod::StorageSet))
    } else if same_text(name, "session.state.export") {
        Some(Method::SessionState(SessionStateMethod::StateExport))
    } else if same_text(name, "session.state.import") {
        Some(Method::SessionState(SessionStateMethod::StateImport))
    } else if same_text(name, "session.requests") {
        Some(Method::Audit(AuditMethod::Requests))
    } else if same_text(name, "session.evidence") {
        Some(Method::Audit(AuditMethod::Evidence))
    } else if same_text(name, "session.open") {
        Some(Method::Open)
    } else if same_text(name, "protocol.initialize") {
        Some(Method::Initialize)
    } else if same_text(name, "dom.evaluate") {
        Some(Method::Evaluate)
    } else {
        None
    }
}

/// What becomes of a request.
#[derive(Debug)]
pub enum Handled {
    /// It was answered.
    Step(ShellStep),
    /// It is admitted; the host reads its parameters and lets it begin.
    Admitted { request: Request, method: Method },
}

/// What a `Handled` says.
pub enum HandledView {
    Step(ShellStepView),
    Admitted { request: Request, method: Method },
}

impl View for Handled {
    type V = HandledView;

    open spec fn view(&self) -> HandledView {
        match *self {
            Handled::Step(step) => HandledView::Step(step@),
            Handled::Admitted { request, method } => HandledView::Admitted { request, method },
        }
    }
}

/// Why a method is not admitted in the shell's state. The other methods look for themselves.
pub open spec fn admission_refusal(shell: Shell, request: Request, method: Method) -> Option<
    ProtocolErrorView,
> {
    match method {
        Method::Runtime(_) => controlled_refusal(shell, request),
        Method::Automation(_) => controlled_refusal(shell, request),
        Method::Navigate => web_session_refusal(shell, request),
        Method::SessionState(_) => web_session_refusal(shell, request),
        Method::Audit(_) => web_session_refusal(shell, request),
        Method::Cancel => session_refusal(shell, request),
        Method::Close => session_refusal(shell, request),
        Method::Evaluate => session_refusal(shell, request),
        Method::Initialize => None,
        Method::Open => None,
    }
}

/// A refused request.
pub open spec fn refused_request(shell: Shell, request: Request, error: ProtocolErrorView) ->
    HandledView {
    HandledView::Step(answered(method_response(request, Err(error), shell.state)))
}

/// The end of the shell over a frame that answers no request.
pub open spec fn fatal_event(
    shell: Shell,
    error: ProtocolErrorView,
    closes: bool,
    exit: Seq<char>,
) -> ShellStepView {
    ShellStepView::Finish(
        FinishView {
            close_before: false,
            responses: seq![
                ResponseView {
                    request: None,
                    session_id: open_session_id(shell.state),
                    outcome: Err(error),
                },
            ],
            close_after: closes,
            exit: Some(exit),
        },
    )
}

/// What becomes of a request, where a cancellation names `cancel_target`. An id that is active must
/// not be used again.
pub open spec fn handled(shell: Shell, request: Request, cancel_target: Option<Seq<char>>) -> (
    Shell,
    HandledView,
) {
    let method = method_named(request.method@);
    if !(value_json(request.params) is Object) {
        (
            shell,
            refused_request(shell, request, invalid_request_error("params must be an object"@)),
        )
    } else if request.method@ == "protocol.cancel"@ && cancel_target == Some(request.id@) {
        (
            shell,
            refused_request(
                shell,
                request,
                invalid_request_error("a cancellation request cannot target its own id"@),
            ),
        )
    } else if shell.active is Some && shell.active->0.request.id@ == request.id@ {
        (
            Shell { engine: None, active: None, state: ShellState::Closed, ..shell },
            HandledView::Step(
                fatal_event(
                    shell,
                    fatal_error("duplicate_request_id"@, "request id is already active"@, "none"@),
                    true,
                    "duplicate active request id"@,
                ),
            ),
        )
    } else if shell.active is Some && method != Some(Method::Cancel) && method != Some(
        Method::Close,
    ) {
        (
            shell,
            refused_request(
                shell,
                request,
                operation_error("busy"@, "another engine request is active"@, "none"@),
            ),
        )
    } else {
        match method {
            None => (
                shell,
                refused_request(
                    shell,
                    request,
                    invalid_request_error("unknown method "@ + request.method@),
                ),
            ),
            Some(method) => match admission_refusal(shell, request, method) {
                Some(error) => (shell, refused_request(shell, request, error)),
                None => (shell, HandledView::Admitted { request, method }),
            },
        }
    }
}

/// The parameters of a runtime method.
#[derive(Debug)]
pub enum RuntimeParams {
    Pending,
    AdvanceToNext { expected_state_token: Option<String> },
    Settle { policy: SettlePolicy, token: SettleToken },
}

/// The token of a request to settle, by what it names.
#[derive(Debug)]
pub enum SettleToken {
    /// The request has no token.
    Absent,
    /// The token names the current document state, or nothing that is current.
    Named(Option<Arc<CurrentDocumentStateAuthority>>),
}

/// How a runtime method begins.
#[derive(Debug)]
pub enum RuntimeStep {
    Step(ShellStep),
    /// Make a coordinator with this policy, start it, and report what it asked for.
    StartSettlement { request: Request, policy: SettlePolicy },
}

/// A request that begins.
pub open spec fn new_request(
    request: Request,
    profile: SessionProfile,
    operation: ActiveOperation,
    now: u64,
) -> ActiveRequest {
    ActiveRequest {
        request,
        profile: Some(profile),
        operation,
        started_at: now,
        in_flight: None,
        control_turn_observed: None,
        needs_initial_pump: false,
        state_effect: RequestStateEffect::Nothing,
    }
}

fn begin(request: Request, profile: SessionProfile, operation: ActiveOperation, now: u64) -> (r:
    ActiveRequest)
    ensures
        r == new_request(request, profile, operation, now),
{
    ActiveRequest {
        request,
        profile: Some(profile),
        operation,
        started_at: now,
        in_flight: None,
        control_turn_observed: None,
        needs_initial_pump: false,
        state_effect: RequestStateEffect::Nothing,
    }
}

/// The first step of a request that changes or reads a document: a session profile observes its
/// navigation first.
pub open spec fn first_observation(profile: SessionProfile) -> TransitionView {
    if session_api(profile) {
        TransitionView::SubmitSessionNavigationObservation { allow_servo_pump: true }
    } else {
        TransitionView::Submit(DocumentControlCommand::Observe)
    }
}

fn observe_first(profile: SessionProfile) -> (transition: ActiveTransition)
    ensures
        transition@ == first_observation(profile),
{
    if profile.supports_session_api() {
        ActiveTransition::SubmitSessionNavigationObservation { allow_servo_pump: true }
    } else {
        ActiveTransition::Submit(DocumentControlCommand::Observe)
    }
}

/// A settlement at its start.
pub open spec fn new_settle(
    profile: SessionProfile,
    policy: SettlePolicy,
    authority: Option<Arc<CurrentDocumentStateAuthority>>,
) -> SettleState {
    SettleState {
        profile,
        authorizing_document_state: authority,
        authorizing_observation: None,
        authorizing_navigation: None,
        replacement: None,
        authority_bound_command: None,
        latest_pending_target: None,
        response: SettleResponse::Runtime,
        effective_policy: policy,
        cumulative_external_io_wall_time_ns: 0,
        waiting: None,
    }
}

fn start_settle(
    profile: SessionProfile,
    policy: SettlePolicy,
    authority: Option<Arc<CurrentDocumentStateAuthority>>,
) -> (settle: SettleState)
    ensures
        settle == new_settle(profile, policy, authority),
{
    SettleState {
        profile,
        authorizing_document_state: authority,
        authorizing_observation: None,
        authorizing_navigation: None,
        replacement: None,
        authority_bound_command: None,
        latest_pending_target: None,
        response: SettleResponse::Runtime,
        effective_policy: policy,
        cumulative_external_io_wall_time_ns: 0,
        waiting: None,
    }
}

/// The operation of a runtime method and its first step. A settlement whose token names nothing
/// current is refused, and one whose token does observes the navigation first; without a token there
/// is no step before the coordinator was started.
pub open spec fn runtime_operation(profile: SessionProfile, params: RuntimeParams) -> Option<
    (ActiveOperation, TransitionView),
> {
    match params {
        RuntimeParams::Pending => Some(
            (ActiveOperation::Pending, TransitionView::Submit(DocumentControlCommand::Observe)),
        ),
        RuntimeParams::AdvanceToNext { expected_state_token } => Some(
            (
                ActiveOperation::AdvanceToNext(
                    AdvanceToNextState::Observing { expected_state_token, navigation: None },
                ),
                first_observation(profile),
            ),
        ),
        RuntimeParams::Settle { policy, token } => match token {
            SettleToken::Absent => None,
            SettleToken::Named(None) => Some(
                (
                    ActiveOperation::Settle(new_settle(profile, policy, None)),
                    TransitionView::RejectStaleStateToken,
                ),
            ),
            SettleToken::Named(Some(authority)) => Some(
                (
                    ActiveOperation::Settle(new_settle(profile, policy, Some(authority))),
                    TransitionView::SubmitSessionNavigationObservation { allow_servo_pump: false },
                ),
            ),
        },
    }
}

/// The operation of a settlement without a token and its first step, given what the coordinator asked
/// for when it was started.
pub open spec fn settle_operation(
    profile: SessionProfile,
    policy: SettlePolicy,
    started: Result<SettleProgress, SettleFailure>,
) -> (ActiveOperation, TransitionView) {
    (
        ActiveOperation::Settle(new_settle(profile, policy, None)),
        match started {
            Ok(progress) => first_progress(progress),
            Err(error) => TransitionView::Fail(
                settle_failure_view(error, RequestStateEffect::Nothing, None),
            ),
        },
    )
}

/// What a refusal, if any, says.
pub open spec fn refusal_view<T>(result: Result<T, ProtocolError>) -> Option<ProtocolErrorView> {
    match result {
        Ok(_) => None,
        Err(error) => Some(error@),
    }
}

/// The shell after a request began with the given operation, or was refused.
pub open spec fn began(
    shell: Shell,
    request: Request,
    profile: SessionProfile,
    refusal: Option<ProtocolErrorView>,
    operation: (ActiveOperation, TransitionView),
    network: Option<ControlledNetworkSnapshot>,
    now: u64,
) -> (Shell, ShellStepView) {
    match refusal {
        Some(error) => (shell, answered(method_response(request, Err(error), shell.state))),
        None => applied(
            shell,
            new_request(request, profile, operation.0, now),
            operation.1,
            network,
            now,
        ),
    }
}

/// The methods that the shell offers, in the order in which they were added.
pub open spec fn offered_methods() -> Seq<Seq<char>> {
    seq![
        "protocol.initialize"@,
        "session.open"@,
        "dom.evaluate"@,
        "runtime.pending"@,
        "runtime.settle"@,
        "runtime.advance_to_next"@,
        "session.navigate"@,
        "action.activate"@,
        "action.fill"@,
        "action.focus"@,
        "action.check"@,
        "action.uncheck"@,
        "action.select"@,
        "action.submit"@,
        "dom.query"@,
        "dom.text"@,
        "dom.extract"@,
        "session.cookies.get"@,
        "session.cookies.set"@,
        "session.storage.get"@,
        "session.storage.set"@,
        "session.state.export"@,
        "session.state.import"@,
        "session.requests"@,
        "session.evidence"@,
        "protocol.cancel"@,
        "session.close"@,
    ]
}

/// A list of texts as JSON.
pub open spec fn texts_json(texts: Seq<Seq<char>>) -> JsonView {
    JsonView::Array(Seq::new(texts.len(), |i: int| JsonView::Text(texts[i])))
}

/// What the shell tells of itself.
pub open spec fn initialize_result(version: Seq<char>, source: JsonView) -> JsonView {
    object_json(
        seq![
            ("protocolVersion"@, unsigned_json(1)),
            (
                "implementation"@,
                object_json(
                    seq![
                        ("name"@, JsonView::Text("stasis-shell"@)),
                        ("version"@, JsonView::Text(version)),
                        ("source"@, source),
                    ],
                ),
            ),
            (
                "capabilities"@,
                object_json(
                    seq![
                        ("methods"@, texts_json(offered_methods())),
                        ("clockModes"@, texts_json(seq!["real"@, "controlled"@])),
                        (
                            "profiles"@,
                            texts_json(
                                seq![
                                    CONTROLLED_WEBAPP_V1_PROFILE@,
                                    CONTROLLED_WEB_SESSION_V1_PROFILE@,
                                    CONTROLLED_WEB_SESSION_V2_PROFILE@,
                                ],
                            ),
                        ),
                        ("settlement"@, JsonView::Bool(true)),
                        (
                            "settlementLimits"@,
                            texts_json(
                                seq![
                                    "maxVirtualTimeNs"@,
                                    "maxControlTurns"@,
                                    "wallIoTimeoutNs"@,
                                ],
                            ),
                        ),
                    ],
                ),
            ),
            (
                "limits"@,
                object_json(
                    seq![
                        ("maxInboundFrameBytes"@, unsigned_json(MAX_FRAME_BYTES as u64)),
                        ("maxActiveEngineRequests"@, unsigned_json(1)),
                    ],
                ),
            ),
        ],
    )
}

fn texts_value(texts: Vec<&'static str>) -> (value: Value)
    ensures
        value_json(value) == texts_json(crate::engine::texts(texts@)),
{
    let mut items: Vec<Value> = Vec::new();
    let mut i: usize = 0;
    while i < texts.len()
        invariant
            i <= texts.len(),
            items.len() == i,
            forall|j: int|
                0 <= j < i ==> value_json(#[trigger] items@[j]) == JsonView::Text(texts@[j]@),
        decreases texts.len() - i,
    {
        items.push(text_value(texts[i]));
        i = i + 1;
    }
    assert(items_json(items@) =~= Seq::new(
        texts@.len(),
        |j: int| JsonView::Text(crate::engine::texts(texts@)[j]),
    ));
    value_of(NewValue::Array(items))
}

fn methods_value() -> (value: Value)
    ensures
        value_json(value) == texts_json(offered_methods()),
{
    let methods = vec![
        "protocol.initialize",
        "session.open",
        "dom.evaluate",
        "runtime.pending",
        "runtime.settle",
        "runtime.advance_to_next",
        "session.navigate",
        "action.activate",
        "action.fill",
        "action.focus",
        "action.check",
        "action.uncheck",
        "action.select",
        "action.submit",
        "dom.query",
        "dom.text",
        "dom.extract",
        "session.cookies.get",
        "session.cookies.set",
        "session.storage.get",
        "session.storage.set",
        "session.state.export",
        "session.state.import",
        "session.requests",
        "session.evidence",
        "protocol.cancel",
        "session.close",
    ];
    assert(crate::engine::texts(methods@) =~= offered_methods());
    texts_value(methods)
}

fn capabilities_value() -> (value: Value)
    ensures
        value_json(value) == object_json(
            seq![
                ("methods"@, texts_json(offered_methods())),
                ("clockModes"@, texts_json(seq!["real"@, "controlled"@])),
                (
                    "profiles"@,
                    texts_json(
                        seq![
                            CONTROLLED_WEBAPP_V1_PROFILE@,
                            CONTROLLED_WEB_SESSION_V1_PROFILE@,
                            CONTROLLED_WEB_SESSION_V2_PROFILE@,
                        ],
                    ),
                ),
                ("settlement"@, JsonView::Bool(true)),
                (
                    "settlementLimits"@,
                    texts_json(
                        seq!["maxVirtualTimeNs"@, "maxControlTurns"@, "wallIoTimeoutNs"@],
                    ),
                ),
            ],
        ),
{
    let clock_modes = vec!["real", "controlled"];
    assert(crate::engine::texts(clock_modes@) =~= seq!["real"@, "controlled"@]);
    let profiles = vec![
        CONTROLLED_WEBAPP_V1_PROFILE,
        CONTROLLED_WEB_SESSION_V1_PROFILE,
        CONTROLLED_WEB_SESSION_V2_PROFILE,
    ];
    assert(crate::engine::texts(profiles@) =~= seq![
        CONTROLLED_WEBAPP_V1_PROFILE@,
        CONTROLLED_WEB_SESSION_V1_PROFILE@,
        CONTROLLED_WEB_SESSION_V2_PROFILE@,
    ]);
    let limits = vec!["maxVirtualTimeNs", "maxControlTurns", "wallIoTimeoutNs"];
    assert(crate::engine::texts(limits@) =~= seq![
        "maxVirtualTimeNs"@,
        "maxControlTurns"@,
        "wallIoTimeoutNs"@,
    ]);
    let members = vec![
        ("methods".to_owned(), methods_value()),
        ("clockModes".to_owned(), texts_value(clock_modes)),
        ("profiles".to_owned(), texts_value(profiles)),
        ("settlement".to_owned(), value_of(NewValue::Bool(true))),
        ("settlementLimits".to_owned(), texts_value(limits)),
    ];
    assert(members_json(members@) =~= seq![
        ("methods"@, texts_json(offered_methods())),
        ("clockModes"@, texts_json(seq!["real"@, "controlled"@])),
        (
            "profiles"@,
            texts_json(
                seq![
                    CONTROLLED_WEBAPP_V1_PROFILE@,
                    CONTROLLED_WEB_SESSION_V1_PROFILE@,
                    CONTROLLED_WEB_SESSION_V2_PROFILE@,
                ],
            ),
        ),
        ("settlement"@, JsonView::Bool(true)),
        (
            "settlementLimits"@,
            texts_json(seq!["maxVirtualTimeNs"@, "maxControlTurns"@, "wallIoTimeoutNs"@]),
        ),
    ]);
    value_of(NewValue::Object(members))
}

fn initialize_value(version: &str, source: &Value) -> (value: Value)
    ensures
        value_json(value) == initialize_result(version@, value_json(*source)),
{
    let implementation = vec![
        ("name".to_owned(), text_value("stasis-shell")),
        ("version".to_owned(), text_value(version)),
        ("source".to_owned(), clone_value(source)),
    ];
    assert(members_json(implementation@) =~= seq![
        ("name"@, JsonView::Text("stasis-shell"@)),
        ("version"@, JsonView::Text(version@)),
        ("source"@, value_json(*source)),
    ]);
    let limits = vec![
        ("maxInboundFrameBytes".to_owned(), unsigned_value(MAX_FRAME_BYTES as u64)),
        ("maxActiveEngineRequests".to_owned(), unsigned_value(1)),
    ];
    assert(members_json(limits@) =~= seq![
        ("maxInboundFrameBytes"@, unsigned_json(MAX_FRAME_BYTES as u64)),
        ("maxActiveEngineRequests"@, unsigned_json(1)),
    ]);
    let implementation = value_of(NewValue::Object(implementation));
    let capabilities = capabilities_value();
    let limits = value_of(NewValue::Object(limits));
    let ghost members_view = seq![
        ("protocolVersion"@, unsigned_json(1)),
        ("implementation"@, value_json(implementation)),
        ("capabilities"@, value_json(capabilities)),
        ("limits"@, value_json(limits)),
    ];
    let members = vec![
        ("protocolVersion".to_owned(), unsigned_value(1)),
        ("implementation".to_owned(), implementation),
        ("capabilities".to_owned(), capabilities),
        ("limits".to_owned(), limits),
    ];
    assert(members_json(members@) =~= members_view);
    value_of(NewValue::Object(members))
}

/// How the peer names itself.
#[derive(Debug)]
pub struct ClientIdentity {
    pub name: String,
    pub version: String,
}

/// Why an initialization is refused. The outer check of its parameters comes between the checks of
/// the envelope and those of the client.
pub open spec fn initialize_refusal(
    shell: Shell,
    request: Request,
    client: Result<Option<ClientIdentity>, ProtocolError>,
) -> Option<ProtocolErrorView> {
    if shell.state != ShellState::Spawned {
        Some(
            operation_error("invalid_state"@, "protocol.initialize is only valid once"@, "none"@),
        )
    } else if request.session_id is Some {
        Some(invalid_request_error("initialize must not include sessionId"@))
    } else {
        match client {
            Err(error) => Some(error@),
            Ok(Some(client)) => if client.name@.len() == 0 || client.version@.len() == 0 {
                Some(invalid_request_error("client name and version must not be empty"@))
            } else {
                None
            },
            Ok(None) => None,
        }
    }
}

impl Shell {
    pub fn require_session(&self, request: &Request) -> (r: Result<(), ProtocolError>)
        ensures
            refusal_view(r) == session_refusal(*self, *request),
    {
        if self.state != ShellState::Open {
            return Err(invalid_state("method requires an open session"));
        }
        let current = match &request.session_id {
            Some(id) => same_text(id.as_str(), SESSION_ID),
            None => false,
        };
        if !current {
            return Err(ProtocolError::invalid_request("request has a missing or stale sessionId"));
        }
        Ok(())
    }

    pub fn require_controlled_session(&self, request: &Request) -> (r: Result<(), ProtocolError>)
        ensures
            refusal_view(r) == controlled_refusal(*self, *request),
    {
        if let Err(error) = self.require_session(request) {
            return Err(error);
        }
        let controlled = match &self.engine {
            Some(engine) => engine.clock_mode.is_controlled(),
            None => false,
        };
        if !controlled {
            return Err(
                ProtocolError::operation(
                    "controlled_clock_required",
                    "this method requires a controlled session",
                    "none",
                ),
            );
        }
        Ok(())
    }

    pub fn require_controlled_web_session(&self, request: &Request) -> (r: Result<
        (),
        ProtocolError,
    >)
        ensures
            refusal_view(r) == web_session_refusal(*self, *request),
    {
        if let Err(error) = self.require_controlled_session(request) {
            return Err(error);
        }
        if !supports_session_api(self.profile) {
            return Err(
                ProtocolError::operation(
                    "unsupported_profile_method",
                    joined(
                        request.method.as_str(),
                        " requires controlled-web-session-v1 or controlled-web-session-v2",
                    ).as_str(),
                    "none",
                ),
            );
        }
        Ok(())
    }

    fn check_admission(&self, request: &Request, method: Method) -> (r: Result<(), ProtocolError>)
        ensures
            refusal_view(r) == admission_refusal(*self, *request, method),
    {
        match method {
            Method::Runtime(_) | Method::Automation(_) => self.require_controlled_session(request),
            Method::Navigate | Method::SessionState(_) | Method::Audit(_) =>
            self.require_controlled_web_session(request),
            Method::Cancel | Method::Close | Method::Evaluate => self.require_session(request),
            Method::Initialize | Method::Open => Ok(()),
        }
    }

    fn fatal_event(
        &self,
        error: ProtocolError,
        closes: bool,
        exit: Option<&'static str>,
    ) -> (step: ShellStep)
        requires
            exit is Some,
        ensures
            step@ == fatal_event(*self, error@, closes, exit->0@),
    {
        finish_with(
            Response { request: None, session_id: self.session_id(), outcome: Err(error) },
            false,
            closes,
            exit,
        )
    }

    /// Decides what becomes of a request; `cancel_target` is the request that a cancellation names.
    pub fn handle(&mut self, request: Request, cancel_target: Option<&str>) -> (handled_as: Handled)
        ensures
            (*final(self), handled_as@) == handled(
                *old(self),
                request,
                match cancel_target {
                    Some(target) => Some(target@),
                    None => None,
                },
            ),
    {
        if !is_object(&request.params) {
            return Handled::Step(
                self.answer(
                    request,
                    Err(ProtocolError::invalid_request("params must be an object")),
                ),
            );
        }
        let targets_itself = match cancel_target {
            Some(target) => same_text(target, request.id.as_str()),
            None => false,
        };
        if same_text(request.method.as_str(), "protocol.cancel") && targets_itself {
            return Handled::Step(
                self.answer(
                    request,
                    Err(
                        ProtocolError::invalid_request(
                            "a cancellation request cannot target its own id",
                        ),
                    ),
                ),
            );
        }
        let duplicates = match &self.active {
            Some(active) => same_text(active.request.id.as_str(), request.id.as_str()),
            None => false,
        };
        if duplicates {
            let step = self.fatal_event(
                fatal_operation("duplicate_request_id", "request id is already active", "none"),
                true,
                Some("duplicate active request id"),
            );
            self.engine = None;
            self.active = None;
            self.state = ShellState::Closed;
            return Handled::Step(step);
        }
        let method = find_method(request.method.as_str());
        let interrupts = match method {
            Some(Method::Cancel) | Some(Method::Close) => true,
            _ => false,
        };
        if self.active.is_some() && !interrupts {
            return Handled::Step(
                self.answer(
                    request,
                    Err(
                        ProtocolError::operation(
                            "busy",
                            "another engine request is active",
                            "none",
                        ),
                    ),
                ),
            );
        }
        let method = match method {
            Some(method) => method,
            None => {
                let error = ProtocolError::invalid_request(
                    joined("unknown method ", request.method.as_str()).as_str(),
                );
                return Handled::Step(self.answer(request, Err(error)));
            },
        };
        if let Err(error) = self.check_admission(&request, method) {
            return Handled::Step(self.answer(request, Err(error)));
        }
        Handled::Admitted { request, method }
    }

    /// Begins a runtime method in the session's profile.
    pub fn begin_runtime_request(
        &mut self,
        request: Request,
        params: Result<RuntimeParams, ProtocolError>,
        network: Option<ControlledNetworkSnapshot>,
        now: u64,
    ) -> (step: RuntimeStep)
        requires
            old(self).active is None,
            old(self).profile is Some,
        ensures
            match step {
                RuntimeStep::Step(step) => {
                    &&& params matches Ok(params) ==> runtime_operation(
                        old(self).profile->0,
                        params,
                    ) is Some
                    &&& (*final(self), step@) == began(
                        *old(self),
                        request,
                        old(self).profile->0,
                        refusal_view(params),
                        runtime_operation(old(self).profile->0, params->Ok_0)->0,
                        network,
                        now,
                    )
                },
                RuntimeStep::StartSettlement { request: settling, policy } => {
                    &&& params == Ok::<RuntimeParams, ProtocolError>(
                        RuntimeParams::Settle { policy, token: SettleToken::Absent },
                    )
                    &&& settling == request
                    &&& *final(self) == *old(self)
                },
            },
            step is Step ==> (final(self).active matches Some(active) ==> {
                &&& active.request == request
                &&& params matches Ok(begun) && match begun {
                    RuntimeParams::Pending => active.operation is Pending,
                    RuntimeParams::AdvanceToNext { expected_state_token: token } => active.operation
                        == ActiveOperation::AdvanceToNext(
                        AdvanceToNextState::Observing {
                            expected_state_token: token,
                            navigation: None,
                        },
                    ),
                    RuntimeParams::Settle { policy, token } => active.operation
                        matches ActiveOperation::Settle(state) && state.effective_policy == policy
                        && token == SettleToken::Named(state.authorizing_document_state),
                }
            }),
    {
        let params = match params {
            Ok(params) => params,
            Err(error) => {
                return RuntimeStep::Step(self.answer(request, Err(error)));
            },
        };
        let profile = self.profile.unwrap();
        let (operation, transition) = match params {
            RuntimeParams::Pending => (
                ActiveOperation::Pending,
                ActiveTransition::Submit(DocumentControlCommand::Observe),
            ),
            RuntimeParams::AdvanceToNext { expected_state_token } => (
                ActiveOperation::AdvanceToNext(
                    AdvanceToNextState::Observing { expected_state_token, navigation: None },
                ),
                observe_first(profile),
            ),
            RuntimeParams::Settle { policy, token } => {
                let authority = match token {
                    SettleToken::Absent => {
                        return RuntimeStep::StartSettlement { request, policy };
                    },
                    SettleToken::Named(authority) => authority,
                };
                let transition = if authority.is_none() {
                    ActiveTransition::RejectStaleStateToken
                } else {
                    ActiveTransition::SubmitSessionNavigationObservation { allow_servo_pump: false }
                };
                (ActiveOperation::Settle(start_settle(profile, policy, authority)), transition)
            },
        };
        let active = begin(request, profile, operation, now);
        RuntimeStep::Step(self.apply_active_transition(active, transition, network, now))
    }

    /// Begins a settlement without a token, with what its coordinator asked for when it was started.
    pub fn settlement_started(
        &mut self,
        request: Request,
        policy: SettlePolicy,
        started: Result<SettleProgress, SettleFailure>,
        network: Option<ControlledNetworkSnapshot>,
        now: u64,
    ) -> (step: ShellStep)
        requires
            old(self).active is None,
            old(self).profile is Some,
        ensures
            (*final(self), step@) == began(
                *old(self),
                request,
                old(self).profile->0,
                None,
                settle_operation(old(self).profile->0, policy, started),
                network,
                now,
            ),
            final(self).active matches Some(active) ==> {
                &&& active.request == request
                &&& active.operation matches ActiveOperation::Settle(state) && {
                    &&& state.effective_policy == policy
                    &&& old(self).profile == Some(state.profile)
                    &&& state.response is Runtime
                }
            },
    {
        let profile = self.profile.unwrap();
        let transition = match started {
            Ok(progress) => transition_from_settle_progress(&progress),
            Err(error) => ActiveTransition::Fail(
                settle_failure(&error, RequestStateEffect::Nothing, None),
            ),
        };
        let operation = ActiveOperation::Settle(start_settle(profile, policy, None));
        let active = begin(request, profile, operation, now);
        self.apply_active_transition(active, transition, network, now)
    }

    /// Begins an automation method, where the profile offers it.
    pub fn begin_automation_request(
        &mut self,
        request: Request,
        kind: PublicAutomationKind,
        params: Result<UnresolvedAutomationParams, ProtocolError>,
        network: Option<ControlledNetworkSnapshot>,
        now: u64,
    ) -> (step: ShellStep)
        requires
            old(self).active is None,
            old(self).profile is Some,
        ensures
            (*final(self), step@) == began(
                *old(self),
                request,
                old(self).profile->0,
                if offers(old(self).profile->0, kind) {
                    refusal_view(params)
                } else {
                    Some(
                        operation_error(
                            "unsupported_profile_method"@,
                            request.method@ + " is not supported by controlled-webapp-v1"@,
                            "none"@,
                        ),
                    )
                },
                (
                    ActiveOperation::Automation(
                        AutomationState {
                            profile: old(self).profile->0,
                            kind,
                            unresolved: Some(params->Ok_0),
                            authorizing_navigation: None,
                            completed: None,
                        },
                    ),
                    first_observation(old(self).profile->0),
                ),
                network,
                now,
            ),
            final(self).active matches Some(active) ==> {
                &&& active.request == request
                &&& active.operation matches ActiveOperation::Automation(state) && {
                    &&& state.kind == kind
                    &&& old(self).profile == Some(state.profile)
                    &&& params is Ok && state.unresolved == Some(params->Ok_0)
                    &&& state.completed is None
                }
            },
    {
        let profile = self.profile.unwrap();
        if let Err(error) = check_automation(profile, kind, request.method.as_str()) {
            return self.answer(request, Err(error));
        }
        let resolved = match params {
            Ok(resolved) => resolved,
            Err(error) => {
                return self.answer(request, Err(error));
            },
        };
        let operation = ActiveOperation::Automation(
            AutomationState {
                profile,
                kind,
                unresolved: Some(resolved),
                authorizing_navigation: None,
                completed: None,
            },
        );
        let active = begin(request, profile, operation, now);
        self.apply_active_transition(active, observe_first(profile), network, now)
    }

    /// Begins a navigation to a URL that was read before.
    pub fn begin_navigation_to(
        &mut self,
        request: Request,
        url: Result<ParsedUrl, ProtocolError>,
        expected_state_token: String,
        network: Option<ControlledNetworkSnapshot>,
        now: u64,
    ) -> (step: ShellStep)
        requires
            old(self).active is None,
            old(self).profile is Some,
        ensures
            (*final(self), step@) == began(
                *old(self),
                request,
                old(self).profile->0,
                refusal_view(url),
                navigate_operation(url->Ok_0.text, expected_state_token),
                network,
                now,
            ),
            final(self).active matches Some(active) ==> {
                &&& active.request == request
                &&& url is Ok
                &&& active.operation matches ActiveOperation::Navigate(state) && {
                    &&& state.requested_url == url->Ok_0.text
                    &&& state.phase == (NavigatePhase::AwaitingAuthority { expected_state_token })
                }
            },
    {
        let url = match url {
            Ok(url) => url,
            Err(error) => {
                return self.answer(request, Err(error));
            },
        };
        let profile = self.profile.unwrap();
        let operation = ActiveOperation::Navigate(
            NavigateState {
                requested_url: url.text,
                phase: NavigatePhase::AwaitingAuthority { expected_state_token },
                cumulative_external_io_wall_time_ns: 0,
                waiting: None,
            },
        );
        let active = begin(request, profile, operation, now);
        self.apply_active_transition(
            active,
            ActiveTransition::SubmitSessionNavigationObservation { allow_servo_pump: true },
            network,
            now,
        )
    }

    /// Begins `session.navigate`: the parameters name a URL, which must be one of the Web, and the
    /// token of the document state.
    pub fn begin_session_navigate(
        &mut self,
        request: Request,
        params: Result<(String, String), ProtocolError>,
        network: Option<ControlledNetworkSnapshot>,
        now: u64,
    ) -> (step: ShellStep)
        requires
            old(self).active is None,
            old(self).profile is Some,
        ensures
            match params {
                Err(error) => *final(self) == *old(self) && step@ == answered(
                    method_response(request, Err(error@), old(self).state),
                ),
                Ok((text, token)) => match navigation_url(text@) {
                    Err(error) => *final(self) == *old(self) && step@ == answered(
                        method_response(request, Err(error), old(self).state),
                    ),
                    Ok(url) => exists|requested: String| #[trigger]
                        requested@ == url.text && (*final(self), step@) == began(
                            *old(self),
                            request,
                            old(self).profile->0,
                            None,
                            navigate_operation(requested, token),
                            network,
                            now,
                        ),
                },
            },
            final(self).active matches Some(active) ==> {
                &&& active.request == request
                &&& active.operation matches ActiveOperation::Navigate(state) && (params matches Ok(
                    (text, token),
                ) && {
                    &&& parsed_url(text@) is Ok
                    &&& state.requested_url@ == parsed_url(text@)->Ok_0.text
                    &&& state.phase == (NavigatePhase::AwaitingAuthority {
                        expected_state_token: token,
                    })
                })
            },
    {
        let (text, token) = match params {
            Ok(params) => params,
            Err(error) => {
                return self.answer(request, Err(error));
            },
        };
        let url = accept_navigation_url(parse_url(text.as_str()));
        self.begin_navigation_to(request, url, token, network, now)
    }

    /// Answers a method on the session state with what the store reported. An import after the
    /// session was published is refused. A fatal error closes the session.
    pub fn handle_session_state_request(
        &mut self,
        request: Request,
        method: SessionStateMethod,
        result: Result<Value, ProtocolError>,
    ) -> (step: ShellStep)
        ensures
            (*final(self), step@) == state_method_answered(
                *old(self),
                request,
                if method == SessionStateMethod::StateImport {
                    Err(import_refusal())
                } else {
                    outcome_view(result)
                },
            ),
            method == SessionStateMethod::StateImport ==> (step@ matches ShellStepView::Finish(end)
                && (end.responses[0].outcome matches Err(error) && error.code
                == "session_state_import_phase_closed"@)),
    {
        let result = match method {
            SessionStateMethod::StateImport => Err(
                ProtocolError::operation(
                    "session_state_import_phase_closed",
                    "session.state.import is available only before session publication; use session.open state",
                    "none",
                ),
            ),
            _ => result,
        };
        match result {
            Ok(value) => self.answer(request, Ok(value)),
            Err(error) => {
                let error = harden_session_state_mutation_error(request.method.as_str(), error);
                let fatal = error.fatal;
                let response = self.write_method_result(request, Err(error));
                if fatal {
                    self.engine = None;
                    self.active = None;
                    self.state = ShellState::Closed;
                    return finish_with(
                        response,
                        false,
                        true,
                        Some("session-state authority failed terminally; session was fail-stopped"),
                    );
                }
                finish_with(response, false, false, None)
            },
        }
    }

    /// Begins a method on the audit trail with the page that was read.
    pub fn begin_session_audit(
        &mut self,
        request: Request,
        page: Result<Arc<Value>, ProtocolError>,
        network: Option<ControlledNetworkSnapshot>,
        now: u64,
    ) -> (step: ShellStep)
        requires
            old(self).active is None,
            old(self).profile is Some,
        ensures
            (*final(self), step@) == began(
                *old(self),
                request,
                old(self).profile->0,
                refusal_view(page),
                (
                    ActiveOperation::Audit(AuditState { value: Some(page->Ok_0) }),
                    TransitionView::Submit(DocumentControlCommand::Observe),
                ),
                network,
                now,
            ),
            final(self).active matches Some(active) ==> {
                &&& active.request == request
                &&& page is Ok
                &&& active.operation matches ActiveOperation::Audit(state) && state.value == Some(
                    page->Ok_0,
                )
            },
    {
        let page = match page {
            Ok(page) => page,
            Err(error) => {
                return self.answer(request, Err(error));
            },
        };
        let profile = self.profile.unwrap();
        let operation = ActiveOperation::Audit(AuditState { value: Some(page) });
        let active = begin(request, profile, operation, now);
        self.apply_active_transition(
            active,
            ActiveTransition::Submit(DocumentControlCommand::Observe),
            network,
            now,
        )
    }

    /// Answers `protocol.initialize`, which is valid once.
    pub fn initialize(
        &mut self,
        request: Request,
        client: Result<Option<ClientIdentity>, ProtocolError>,
        version: &str,
        source: &Value,
    ) -> (step: ShellStep)
        ensures
            match initialize_refusal(*old(self), request, client) {
                Some(error) => *final(self) == *old(self) && step@ == answered(
                    method_response(request, Err(error), old(self).state),
                ),
                None => *final(self) == (Shell { state: ShellState::Initialized, ..*old(self) })
                    && step@ == answered(
                    method_response(
                        request,
                        Ok(initialize_result(version@, value_json(*source))),
                        ShellState::Initialized,
                    ),
                ),
            },
    {
        if self.state != ShellState::Spawned {
            return self.answer(
                request,
                Err(invalid_state("protocol.initialize is only valid once")),
            );
        }
        if request.session_id.is_some() {
            return self.answer(
                request,
                Err(ProtocolError::invalid_request("initialize must not include sessionId")),
            );
        }
        match client {
            Err(error) => {
                return self.answer(request, Err(error));
            },
            Ok(Some(client)) => {
                if client.name.as_str().unicode_len() == 0 || client.version.as_str().unicode_len()
                    == 0 {
                    return self.answer(
                        request,
                        Err(
                            ProtocolError::invalid_request(
                                "client name and version must not be empty",
                            ),
                        ),
                    );
                }
            },
            Ok(None) => {},
        }
        self.state = ShellState::Initialized;
        self.answer(request, Ok(initialize_value(version, source)))
    }

    /// Answers `dom.evaluate` with what the engine gave.
    pub fn evaluate(&self, request: Request, evaluated: Result<Value, ProtocolError>) -> (step:
        ShellStep)
        ensures
            step@ == answered(
                method_response(
                    request,
                    match evaluated {
                        Ok(value) => Ok(object_json(seq![("value"@, value_json(value))])),
                        Err(error) => Err(error@),
                    },
                    self.state,
                ),
            ),
            evaluated matches Ok(value) ==> (step@ matches ShellStepView::Finish(end) && (
            end.responses[0].outcome matches Ok(json) && member_of(json, "value"@) == Some(
                value_json(value),
            ))),
    {
        match evaluated {
            Err(error) => self.answer(request, Err(error)),
            Ok(value) => {
                let ghost inner = value_json(value);
                let members = vec![("value".to_owned(), value)];
                assert(members_json(members@) =~= seq![("value"@, inner)]);
                proof {
                    lemma_object_member(seq![("value"@, inner)], 0);
                }
                self.answer(request, Ok(value_of(NewValue::Object(members))))
            },
        }
    }

    /// Ends the shell over an input that cannot be trusted any more.
    pub fn reader_failed(&mut self, error: ProtocolError) -> (step: ShellStep)
        ensures
            step@ == fatal_event(*old(self), error@, true, error@.message),
            *final(self) == (Shell { engine: None, active: None, ..*old(self) }),
    {
        let exit = error.message.clone();
        let response = Response {
            request: None,
            session_id: self.session_id(),
            outcome: Err(error),
        };
        self.engine = None;
        self.active = None;
        let responses = vec![response];
        assert(responses_view(responses@) =~= seq![response@]);
        ShellStep::Finish(
            Finish { close_before: false, responses, close_after: true, exit: Some(exit) },
        )
    }

    /// Drops the engine and the active request.
    pub fn abortive_close(&mut self)
        ensures
            *final(self) == (Shell { engine: None, active: None, ..*old(self) }),
    {
        self.engine = None;
        self.active = None;
    }

    /// Whether the engine is to be pumped, where its wake generation is `current`.
    pub fn wants_pump(&self, current: u64) -> (r: bool)
        ensures
            r == pump_wanted(*self, current),
    {
        if self.engine.is_none() {
            return false;
        }
        match &self.active {
            Some(active) => should_pump_servo(
                Some(active),
                active.needs_initial_pump,
                current != self.servo_cursor,
            ),
            None => should_pump_servo(None, false, current != self.servo_cursor),
        }
    }

    /// Notes that the engine was pumped; every wake up to `generation` is consumed.
    pub fn pumped(&mut self, generation: u64)
        ensures
            *final(self) == (Shell {
                servo_cursor: generation,
                active: match old(self).active {
                    Some(active) => Some(ActiveRequest { needs_initial_pump: false, ..active }),
                    None => None,
                },
                ..*old(self)
            }),
    {
        if let Some(active) = self.active.take() {
            let mut active = active;
            active.needs_initial_pump = false;
            self.active = Some(active);
        }
        self.servo_cursor = generation;
    }

    /// Whether the shell is done: the input has ended and nothing is queued or active.
    pub fn is_drained(&self, input_closed: bool, inbox_empty: bool) -> (r: bool)
        ensures
            r == (input_closed && inbox_empty && self.active is None),
    {
        input_closed && inbox_empty && self.active.is_none()
    }
}

/// Whether the engine of a shell is to be pumped, where its wake generation is `current`: after a
/// wake, or where the active request wants a first pump, unless that request suppresses it.
pub open spec fn pump_wanted(shell: Shell, current: u64) -> bool {
    &&& shell.engine is Some
    &&& !(shell.active is Some && suppresses_pump(shell.active->0.operation))
    &&& shell.active is Some && shell.active->0.needs_initial_pump || current != shell.servo_cursor
}

/// An explicit navigation at its start.
pub open spec fn navigate_operation(requested_url: String, expected_state_token: String) -> (
    ActiveOperation,
    TransitionView,
) {
    (
        ActiveOperation::Navigate(
            NavigateState {
                requested_url,
                phase: NavigatePhase::AwaitingAuthority { expected_state_token },
                cumulative_external_io_wall_time_ns: 0,
                waiting: None,
            },
        ),
        TransitionView::SubmitSessionNavigationObservation { allow_servo_pump: true },
    )
}

/// An import after the session was published.
pub open spec fn import_refusal() -> ProtocolErrorView {
    operation_error(
        "session_state_import_phase_closed"@,
        "session.state.import is available only before session publication; use session.open state"@,
        "none"@,
    )
}

/// The shell after a method on the session state was answered.
pub open spec fn state_method_answered(
    shell: Shell,
    request: Request,
    outcome: Result<JsonView, ProtocolErrorView>,
) -> (Shell, ShellStepView) {
    match outcome {
        Ok(json) => (shell, answered(method_response(request, Ok(json), shell.state))),
        Err(error) => {
            let error = hardened_state_error(request.method@, error);
            let response = method_response(request, Err(error), shell.state);
            if error.fatal {
                (
                    Shell { engine: None, active: None, state: ShellState::Closed, ..shell },
                    ShellStepView::Finish(
                        FinishView {
                            close_before: false,
                            responses: seq![response],
                            close_after: true,
                            exit: Some(
                                "session-state authority failed terminally; session was fail-stopped"@,
                            ),
                        },
                    ),
                )
            } else {
                (shell, answered(response))
            }
        },
    }
}

/// Whether the reader goes on after a request to close was handled: it stops where the shell has
/// closed or has ended.
pub fn close_disposition(closed: bool, failed: bool) -> (r: ReaderCloseDisposition)
    ensures
        r == if closed || failed {
            ReaderCloseDisposition::Stop
        } else {
            ReaderCloseDisposition::Resume
        },
{
    if closed || failed {
        ReaderCloseDisposition::Stop
    } else {
        ReaderCloseDisposition::Resume
    }
}

} // verus!
