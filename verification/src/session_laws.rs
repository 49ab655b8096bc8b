//! What a request begins: the method of its name, with the parameters it came with; and how an
//! operation's transition reaches the client.


use vstd::prelude::*;

use crate::active::{
    ActiveOperation, ActiveRequest, AdvanceToNextState, NavigatePhase, PublicAutomationKind,
    SettlePolicy, TransitionView,
};
use crate::control::{DocumentControlCommand, SettleFailure, SettleProgress};
use crate::error::{ProtocolError, ProtocolErrorView};
use crate::json::{
    distinct_names, lemma_object_member, member_of, object_json, value_json, JsonView,
};
use crate::network::ControlledNetworkSnapshot;
use crate::operation_laws::is_session;
use crate::profile::SessionProfile;
use crate::request::Request;
use crate::session::{
    began, handled, initialize_refusal, initialize_result, method_named, navigate_operation,
    offered_methods, runtime_operation, settle_operation, state_method_answered, AuditMethod,
    ClientIdentity, HandledView, Method, RuntimeMethod, RuntimeParams, SessionStateMethod,
    SettleToken,
};
use crate::shell::{applied, preempted, Shell, ShellState, ShellStepView};

verus! {

/// The name of a method on the wire.
pub open spec fn wire_name(method: Method) -> Seq<char> {
    match method {
        Method::Initialize => "protocol.initialize"@,
        Method::Cancel => "protocol.cancel"@,
        Method::Open => "session.open"@,
        Method::Close => "session.close"@,
        Method::Navigate => "session.navigate"@,
        Method::Evaluate => "dom.evaluate"@,
        Method::Runtime(RuntimeMethod::Pending) => "runtime.pending"@,
        Method::Runtime(RuntimeMethod::Settle) => "runtime.settle"@,
        Method::Runtime(RuntimeMethod::AdvanceToNext) => "runtime.advance_to_next"@,
        Method::Audit(AuditMethod::Requests) => "session.requests"@,
        Method::Audit(AuditMethod::Evidence) => "session.evidence"@,
        Method::SessionState(SessionStateMethod::CookiesGet) => "session.cookies.get"@,
        Method::SessionState(SessionStateMethod::CookiesSet) => "session.cookies.set"@,
        Method::SessionState(SessionStateMethod::StorageGet) => "session.storage.get"@,
        Method::SessionState(SessionStateMethod::StorageSet) => "session.storage.set"@,
        Method::SessionState(SessionStateMethod::StateExport) => "session.state.export"@,
        Method::SessionState(SessionStateMethod::StateImport) => "session.state.import"@,
        Method::Automation(kind) => automation_name(kind),
    }
}

/// The name of an automation method on the wire.
pub open spec fn automation_name(kind: PublicAutomationKind) -> Seq<char> {
    match kind {
        PublicAutomationKind::Activate => "action.activate"@,
        PublicAutomationKind::Fill => "action.fill"@,
        PublicAutomationKind::Focus => "action.focus"@,
        PublicAutomationKind::Check => "action.check"@,
        PublicAutomationKind::Uncheck => "action.uncheck"@,
        PublicAutomationKind::Select => "action.select"@,
        PublicAutomationKind::Submit => "action.submit"@,
        PublicAutomationKind::Query => "dom.query"@,
        PublicAutomationKind::Text => "dom.text"@,
        PublicAutomationKind::Extract => "dom.extract"@,
    }
}

/// Every method is found under its name, and nothing else is found under it.
pub proof fn law_a_method_goes_by_its_name(name: Seq<char>, method: Method)
    ensures
        method_named(name) == Some(method) ==> name == wire_name(method),
        method_named(wire_name(method)) is Some,
        wire_name(method_named(wire_name(method))->0) == wire_name(method),
{
}

/// A client is offered exactly the names under which methods are found.
pub proof fn law_the_offered_methods_are_those_found(name: Seq<char>)
    ensures
        offered_methods().contains(name) <==> method_named(name) is Some,
{
    let offered = offered_methods();
    assert(offered.len() == 27);
    if method_named(name) is Some {
        assert(exists|i: int| 0 <= i < 27 && offered[i] == name) by {
            assert(offered[0] == "protocol.initialize"@);
            assert(offered[1] == "session.open"@);
            assert(offered[2] == "dom.evaluate"@);
            assert(offered[3] == "runtime.pending"@);
            assert(offered[4] == "runtime.settle"@);
            assert(offered[5] == "runtime.advance_to_next"@);
            assert(offered[6] == "session.navigate"@);
            assert(offered[7] == "action.activate"@);
            assert(offered[8] == "action.fill"@);
            assert(offered[9] == "action.focus"@);
            assert(offered[10] == "action.check"@);
            assert(offered[11] == "action.uncheck"@);
            assert(offered[12] == "action.select"@);
            assert(offered[13] == "action.submit"@);
            assert(offered[14] == "dom.query"@);
            assert(offered[15] == "dom.text"@);
            assert(offered[16] == "dom.extract"@);
            assert(offered[17] == "session.cookies.get"@);
            assert(offered[18] == "session.cookies.set"@);
            assert(offered[19] == "session.storage.get"@);
            assert(offered[20] == "session.storage.set"@);
            assert(offered[21] == "session.state.export"@);
            assert(offered[22] == "session.state.import"@);
            assert(offered[23] == "session.requests"@);
            assert(offered[24] == "session.evidence"@);
            assert(offered[25] == "protocol.cancel"@);
            assert(offered[26] == "session.close"@);
        }
    }
}

/// An initialization is answered with the version of the protocol, the names of the methods, clocks
/// and profiles that are offered, and the limits that are kept.
pub proof fn law_an_initialization_tells_what_is_offered(
    version: Seq<char>,
    source: JsonView,
    name: Seq<char>,
)
    ensures
        ({
            let json = initialize_result(version, source);
            &&& member_of(json, "protocolVersion"@) == Some(crate::json::unsigned_json(1))
            &&& member_of(json, "implementation"@) matches Some(implementation) && {
                &&& member_of(implementation, "name"@) == Some(JsonView::Text("stasis-shell"@))
                &&& member_of(implementation, "version"@) == Some(JsonView::Text(version))
                &&& member_of(implementation, "source"@) == Some(source)
            }
            &&& member_of(json, "capabilities"@) matches Some(capabilities) && {
                &&& member_of(capabilities, "methods"@) matches Some(methods) && (methods
                    matches JsonView::Array(names) && (names.contains(JsonView::Text(name))
                    <==> method_named(name) is Some))
                &&& member_of(capabilities, "clockModes"@) matches Some(clocks) && (clocks
                    matches JsonView::Array(names) && names == seq![
                    JsonView::Text("real"@),
                    JsonView::Text("controlled"@),
                ])
                &&& member_of(capabilities, "profiles"@) matches Some(profiles) && (profiles
                    matches JsonView::Array(names) && names == seq![
                    JsonView::Text("controlled-webapp-v1"@),
                    JsonView::Text("controlled-web-session-v1"@),
                    JsonView::Text("controlled-web-session-v2"@),
                ])
                &&& member_of(capabilities, "settlement"@) == Some(JsonView::Bool(true))
                &&& member_of(capabilities, "settlementLimits"@) matches Some(bounds) && (bounds
                    matches JsonView::Array(names) && names == seq![
                    JsonView::Text("maxVirtualTimeNs"@),
                    JsonView::Text("maxControlTurns"@),
                    JsonView::Text("wallIoTimeoutNs"@),
                ])
            }
            &&& member_of(json, "limits"@) matches Some(limits) && {
                &&& member_of(limits, "maxInboundFrameBytes"@) == Some(
                    crate::json::unsigned_json(1_048_576),
                )
                &&& member_of(limits, "maxActiveEngineRequests"@) == Some(
                    crate::json::unsigned_json(1),
                )
            }
        }),
{
    reveal_strlit("protocolVersion");
    reveal_strlit("implementation");
    reveal_strlit("capabilities");
    reveal_strlit("limits");
    reveal_strlit("name");
    reveal_strlit("version");
    reveal_strlit("source");
    reveal_strlit("methods");
    reveal_strlit("clockModes");
    reveal_strlit("profiles");
    reveal_strlit("settlement");
    reveal_strlit("settlementLimits");
    reveal_strlit("maxInboundFrameBytes");
    reveal_strlit("maxActiveEngineRequests");
    assert("protocolVersion"@.len() == 15);
    assert("implementation"@.len() == 14);
    assert("capabilities"@.len() == 12);
    assert("limits"@.len() == 6);
    assert("name"@.len() == 4);
    assert("version"@.len() == 7);
    assert("source"@.len() == 6);
    assert("methods"@.len() == 7);
    assert("clockModes"@.len() == 10);
    assert("profiles"@.len() == 8);
    assert("settlement"@.len() == 10);
    assert("clockModes"@[0] == 'c');
    assert("settlement"@[0] == 's');
    assert("settlementLimits"@.len() == 16);
    assert("maxInboundFrameBytes"@.len() == 20);
    assert("maxActiveEngineRequests"@.len() == 23);
    let implementation = seq![
        ("name"@, JsonView::Text("stasis-shell"@)),
        ("version"@, JsonView::Text(version)),
        ("source"@, source),
    ];
    lemma_members_of(implementation);
    let offered = offered_methods();
    let methods = Seq::new(offered.len(), |i: int| JsonView::Text(offered[i]));
    let capabilities = seq![
        ("methods"@, JsonView::Array(methods)),
        (
            "clockModes"@,
            JsonView::Array(seq![JsonView::Text("real"@), JsonView::Text("controlled"@)]),
        ),
        (
            "profiles"@,
            JsonView::Array(
                seq![
                    JsonView::Text("controlled-webapp-v1"@),
                    JsonView::Text("controlled-web-session-v1"@),
                    JsonView::Text("controlled-web-session-v2"@),
                ],
            ),
        ),
        ("settlement"@, JsonView::Bool(true)),
        (
            "settlementLimits"@,
            JsonView::Array(
                seq![
                    JsonView::Text("maxVirtualTimeNs"@),
                    JsonView::Text("maxControlTurns"@),
                    JsonView::Text("wallIoTimeoutNs"@),
                ],
            ),
        ),
    ];
    lemma_members_of(capabilities);
    let limits = seq![
        ("maxInboundFrameBytes"@, crate::json::unsigned_json(1_048_576)),
        ("maxActiveEngineRequests"@, crate::json::unsigned_json(1)),
    ];
    lemma_members_of(limits);
    let members = seq![
        ("protocolVersion"@, crate::json::unsigned_json(1)),
        ("implementation"@, object_json(implementation)),
        ("capabilities"@, object_json(capabilities)),
        ("limits"@, object_json(limits)),
    ];
    lemma_members_of(members);
    assert(methods =~= crate::session::texts_json(offered)->Array_0);
    assert(capabilities[1].1->Array_0 =~= crate::session::texts_json(
        seq!["real"@, "controlled"@],
    )->Array_0);
    assert(capabilities[2].1->Array_0 =~= crate::session::texts_json(
        seq!["controlled-webapp-v1"@, "controlled-web-session-v1"@, "controlled-web-session-v2"@],
    )->Array_0);
    assert(capabilities[4].1->Array_0 =~= crate::session::texts_json(
        seq!["maxVirtualTimeNs"@, "maxControlTurns"@, "wallIoTimeoutNs"@],
    )->Array_0);
    assert(initialize_result(version, source) == object_json(members));
    law_the_offered_methods_are_those_found(name);
    if offered.contains(name) {
        let i = choose|i: int| 0 <= i < offered.len() && offered[i] == name;
        assert(methods[i] == JsonView::Text(name));
    }
    if methods.contains(JsonView::Text(name)) {
        let i = choose|i: int| 0 <= i < methods.len() && methods[i] == JsonView::Text(name);
        assert(offered[i] == name);
    }
}

proof fn lemma_members_of(members: Seq<(Seq<char>, JsonView)>)
    requires
        distinct_names(members),
    ensures
        forall|i: int|
            0 <= i < members.len() ==> member_of(
                object_json(members),
                (#[trigger] members[i]).0,
            ) == Some(members[i].1),
{
    assert forall|i: int| 0 <= i < members.len() implies member_of(
        object_json(members),
        (#[trigger] members[i]).0,
    ) == Some(members[i].1) by {
        lemma_object_member(members, i);
    }
}

/// What is admitted is the request itself, under the method of its name, to a shell that is free
/// for it or for a cancellation or a close; the shell is as it was.
pub proof fn law_an_admitted_request_is_the_one_received(
    shell: Shell,
    received: Request,
    cancel_target: Option<Seq<char>>,
)
    ensures
        handled(shell, received, cancel_target).1 matches HandledView::Admitted {
            request,
            method,
        } ==> {
            &&& request == received
            &&& received.method@ == wire_name(method)
            &&& handled(shell, received, cancel_target).0 == shell
            &&& value_json(received.params) is Object
            &&& shell.active is Some ==> method is Cancel || method is Close
            &&& !(method is Initialize || method is Open) ==> {
                &&& shell.state == ShellState::Open
                &&& received.session_id is Some && received.session_id->0@ == "s-1"@
            }
            &&& method is Runtime || method is Automation || method is Navigate || method
                is SessionState || method is Audit ==> shell.engine is Some
                && shell.engine->0.clock_mode is Controlled
            &&& method is Navigate || method is SessionState || method is Audit ==> is_session(
                shell.profile,
            )
        },
{
    let method = method_named(received.method@);
    if method is Some {
        law_a_method_goes_by_its_name(received.method@, method->0);
    }
}

/// A request that begins becomes active with its own operation, profile and start, and has changed
/// nothing yet; one that is refused leaves the shell as it was and is answered with the refusal.
pub proof fn law_a_begun_request_is_the_one_received(
    shell: Shell,
    request: Request,
    profile: SessionProfile,
    refusal: Option<ProtocolErrorView>,
    operation: (ActiveOperation, TransitionView),
    network: Option<ControlledNetworkSnapshot>,
    now: u64,
)
    requires
        shell.active is None,
        operation.1 is Submit || operation.1 is SubmitSessionNavigationObservation,
    ensures
        ({
            let (after, step) = began(shell, request, profile, refusal, operation, network, now);
            &&& refusal matches Some(error) ==> {
                &&& after == shell
                &&& step matches ShellStepView::Finish(end) && end.responses.len() == 1
                    && end.responses[0].request == Some(request) && end.responses[0].outcome
                    == Err::<JsonView, ProtocolErrorView>(error) && end.exit is None
                    && !end.close_after && !end.close_before
            }
            &&& after.active matches Some(active) ==> {
                &&& active.request == request
                &&& active.profile == Some(profile)
                &&& active.operation == operation.0
                &&& active.started_at == now
                &&& active.state_effect is Nothing
                &&& active.in_flight is None
                &&& active.control_turn_observed is None
                &&& !active.needs_initial_pump
            }
            &&& operation.1 matches TransitionView::Submit(command) ==> (
            step matches ShellStepView::SubmitControl { command: submitted, .. } ==> submitted
                == command && after.active is Some)
            &&& operation.1 matches TransitionView::SubmitSessionNavigationObservation {
                allow_servo_pump,
            } ==> (step matches ShellStepView::SubmitNavigationObservation {
                allow_servo_pump: pumped,
                ..
            } ==> pumped == allow_servo_pump && after.active is Some)
            &&& step is Finish ==> after.active is None
        }),
{
}

/// A navigation begins with the URL and the token that it was given.
pub proof fn law_a_navigation_begins_with_its_url(requested_url: String, token: String)
    ensures
        navigate_operation(requested_url, token).0 matches ActiveOperation::Navigate(state) && {
            &&& state.requested_url == requested_url
            &&& state.phase matches NavigatePhase::AwaitingAuthority { expected_state_token }
                && expected_state_token == token
            &&& state.cumulative_external_io_wall_time_ns == 0
            &&& state.waiting is None
        },
        navigate_operation(requested_url, token).1 == (
        TransitionView::SubmitSessionNavigationObservation { allow_servo_pump: true }),
{
}

/// A runtime method begins with what it was given: an advance with its token, a settlement with its
/// policy and with the document state that its token names. A token that names nothing current is
/// rejected at once.
pub proof fn law_a_runtime_method_begins_with_its_parameters(
    profile: SessionProfile,
    params: RuntimeParams,
)
    ensures
        params is Pending ==> (runtime_operation(profile, params) matches Some((operation, first))
            && operation is Pending && first == TransitionView::Submit(
            DocumentControlCommand::Observe,
        )),
        params matches RuntimeParams::AdvanceToNext { expected_state_token: token } ==> (
        runtime_operation(profile, params) matches Some((operation, first)) && {
            &&& operation matches ActiveOperation::AdvanceToNext(
                AdvanceToNextState::Observing { expected_state_token, navigation },
            ) && expected_state_token == token && navigation is None
            &&& if is_session(Some(profile)) {
                first is SubmitSessionNavigationObservation && first->allow_servo_pump
            } else {
                first == TransitionView::Submit(DocumentControlCommand::Observe)
            }
        }),
        params matches RuntimeParams::Settle { policy, token } ==> match token {
            SettleToken::Absent => runtime_operation(profile, params) is None,
            SettleToken::Named(authority) => runtime_operation(profile, params) matches Some(
                (operation, first),
            ) && {
                &&& operation matches ActiveOperation::Settle(state) && {
                    &&& state.effective_policy == policy
                    &&& state.profile == profile
                    &&& state.authorizing_document_state == authority
                    &&& state.response is Runtime
                    &&& state.cumulative_external_io_wall_time_ns == 0
                }
                &&& authority is None ==> first is RejectStaleStateToken
                &&& authority is Some ==> first is SubmitSessionNavigationObservation
                    && !first->allow_servo_pump
            },
        },
{
}

/// A settlement without a token begins with its policy, and does what its coordinator asks first.
pub proof fn law_a_settlement_begins_with_its_policy(
    profile: SessionProfile,
    policy: SettlePolicy,
    started: Result<SettleProgress, SettleFailure>,
)
    ensures
        ({
            let (operation, first) = settle_operation(profile, policy, started);
            &&& operation matches ActiveOperation::Settle(state) && {
                &&& state.effective_policy == policy
                &&& state.profile == profile
                &&& state.authorizing_document_state is None
                &&& state.response is Runtime
                &&& state.replacement is None
                &&& state.cumulative_external_io_wall_time_ns == 0
            }
            &&& started matches Ok(SettleProgress::Command(command)) ==> first
                == TransitionView::Submit(command)
            &&& started matches Err(_) ==> first is Fail
        }),
{
}

/// A transition reaches the client as it is: an answer carries the request and the result, a
/// failure the request and the error, and what is submitted is what was decided.
pub proof fn law_a_transition_reaches_the_client(
    shell: Shell,
    active: ActiveRequest,
    transition: TransitionView,
    network: Option<ControlledNetworkSnapshot>,
    now: u64,
)
    requires
        shell.active is None,
    ensures
        ({
            let (after, step) = applied(shell, active, transition, network, now);
            &&& transition matches TransitionView::Consult(asked) ==> step
                == ShellStepView::Consult(asked) && after.active == Some(active)
            &&& transition matches TransitionView::Complete(json) ==> (preempted(
                active,
                transition,
                network,
            ) is None ==> {
                &&& after == shell
                &&& step matches ShellStepView::Finish(end) && end.responses.len() == 1
                    && end.responses[0].request == Some(active.request)
                    && end.responses[0].outcome == Ok::<JsonView, ProtocolErrorView>(json)
                    && end.exit is None && !end.close_before && !end.close_after
            })
            &&& transition matches TransitionView::Fail(failure) ==> {
                &&& after.active is None
                &&& step matches ShellStepView::Finish(end) && end.responses.len() == 1
                    && end.responses[0].request == Some(active.request)
                    && end.responses[0].outcome == Err::<JsonView, ProtocolErrorView>(failure.error)
                    && end.close_after == failure.fail_stop && (end.exit is Some
                    <==> failure.fail_stop)
                &&& failure.fail_stop ==> after.state == ShellState::Closed && after.engine is None
                &&& !failure.fail_stop && !(active.operation is ControlledOpen) ==> after == shell
                &&& active.operation is ControlledOpen ==> after.engine is None && (
                step->Finish_0.close_before && (!failure.fail_stop ==> after.state
                    == ShellState::Initialized))
            }
            &&& transition is RejectStaleStateToken && preempted(active, transition, network)
                is None ==> {
                &&& step matches ShellStepView::Finish(end) && end.responses.len() == 1
                    && end.responses[0].request == Some(active.request) && (
                end.responses[0].outcome matches Err(error) && error.code == "stale_state_token"@
                    && !error.fatal && error.state_effect == "none"@) && end.exit is None
            }
            &&& step matches ShellStepView::SubmitControl { command, timeout_ns } ==> transition
                == TransitionView::Submit(command) && after.active == Some(active)
            &&& step matches ShellStepView::SubmitNavigation { expected, url, timeout_ns }
                ==> transition == (TransitionView::SubmitSessionNavigation { expected, url })
                && after.active == Some(active)
            &&& step is SubmitNavigationObservation ==> transition
                is SubmitSessionNavigationObservation && after.active == Some(active)
                || transition is ProjectSession
            &&& transition matches TransitionView::ProjectSession(projection) ==> (
            step is SubmitNavigationObservation ==> after.active == Some(
                ActiveRequest {
                    operation: ActiveOperation::SessionProjection(projection),
                    ..active
                },
            ))
        }),
{
}

/// A transition is preempted exactly where the network has failed, unless it is a failure itself or
/// the request is an audit.
pub proof fn law_only_a_failed_network_preempts(
    active: ActiveRequest,
    transition: TransitionView,
    network: Option<ControlledNetworkSnapshot>,
)
    ensures
        preempted(active, transition, network) is Some <==> (network matches Some(snapshot)
            && snapshot.sticky_failure is Some) && !(transition is Fail) && !(active.operation
            is Audit),
        preempted(active, transition, network) matches Some(failure) ==> {
            &&& !(transition is Fail)
            &&& !(active.operation is Audit)
            &&& active.operation is ControlledOpen ==> failure.fail_stop && failure.error.fatal
        },
{
}

/// Whether a request is refused at once, with nothing changed and the shell as it was.
pub open spec fn turns_away(
    shell: Shell,
    request: Request,
    handling: (Shell, HandledView),
    code: Seq<char>,
) -> bool {
    &&& handling.0 == shell
    &&& handling.1 matches HandledView::Step(ShellStepView::Finish(end)) && {
        &&& end.responses.len() == 1
        &&& end.responses[0].request == Some(request)
        &&& end.responses[0].outcome matches Err(error) && error.code == code && !error.fatal
            && error.state_effect == "none"@
        &&& end.exit is None && !end.close_before && !end.close_after
    }
}

/// A request that is not admitted is told why: its parameters are no object, it cancels itself, the
/// shell is busy, its method is unknown, or the session it needs is not there. One that takes the
/// id of the active request ends the session.
pub proof fn law_a_request_is_turned_away_with_its_reason(
    shell: Shell,
    request: Request,
    cancel_target: Option<Seq<char>>,
)
    ensures
        ({
            let handling = handled(shell, request, cancel_target);
            let object = value_json(request.params) is Object;
            let method = method_named(request.method@);
            let cancels_itself = request.method@ == "protocol.cancel"@ && cancel_target == Some(
                request.id@,
            );
            let taken = shell.active is Some && shell.active->0.request.id@ == request.id@;
            let passes = method == Some(Method::Cancel) || method == Some(Method::Close);
            &&& !object || cancels_itself ==> turns_away(
                shell,
                request,
                handling,
                "invalid_request"@,
            )
            &&& object && !cancels_itself && taken ==> {
                &&& handling.0.state == ShellState::Closed
                &&& handling.0.active is None
                &&& handling.0.engine is None
                &&& handling.1 matches HandledView::Step(ShellStepView::Finish(end)) && {
                    &&& end.responses.len() == 1
                    &&& end.responses[0].request is None
                    &&& end.responses[0].outcome matches Err(error) && error.code
                        == "duplicate_request_id"@ && error.fatal
                    &&& end.exit is Some && end.close_after
                }
            }
            &&& object && !cancels_itself && !taken && shell.active is Some && !passes
                ==> turns_away(shell, request, handling, "busy"@)
            &&& object && !cancels_itself && shell.active is None && method is None ==> turns_away(
                shell,
                request,
                handling,
                "invalid_request"@,
            )
            &&& object && !cancels_itself && !taken && (shell.active is None || passes) && method
                is Some && !(method->0 is Initialize || method->0 is Open) ==> {
                &&& shell.state != ShellState::Open ==> turns_away(
                    shell,
                    request,
                    handling,
                    "invalid_state"@,
                )
                &&& shell.state == ShellState::Open && !(request.session_id is Some
                    && request.session_id->0@ == "s-1"@) ==> turns_away(
                    shell,
                    request,
                    handling,
                    "invalid_request"@,
                )
                &&& shell.state == ShellState::Open && request.session_id is Some
                    && request.session_id->0@ == "s-1"@ ==> {
                    let controlled = shell.engine is Some && shell.engine->0.clock_mode
                        is Controlled;
                    if method->0 is Cancel || method->0 is Close || method->0 is Evaluate {
                        handling.1 is Admitted
                    } else if !controlled {
                        turns_away(shell, request, handling, "controlled_clock_required"@)
                    } else if (method->0 is Navigate || method->0 is SessionState || method->0
                        is Audit) && !is_session(shell.profile) {
                        turns_away(shell, request, handling, "unsupported_profile_method"@)
                    } else {
                        handling.1 is Admitted
                    }
                }
            }
        }),
{
}

/// A shell is initialized once, without a session in the envelope, by a client that names itself.
pub proof fn law_a_shell_is_initialized_once(
    shell: Shell,
    request: Request,
    client: Result<Option<ClientIdentity>, ProtocolError>,
)
    ensures
        ({
            let refusal = initialize_refusal(shell, request, client);
            &&& refusal is None <==> shell.state == ShellState::Spawned && request.session_id is None
                && (client matches Ok(identity) && (identity matches Some(named)
                ==> named.name@.len() > 0 && named.version@.len() > 0))
            &&& shell.state != ShellState::Spawned ==> (refusal matches Some(error) && error.code
                == "invalid_state"@ && !error.fatal && error.state_effect == "none"@)
            &&& shell.state == ShellState::Spawned && request.session_id is Some ==> (refusal
                matches Some(error) && error.code == "invalid_request"@)
            &&& shell.state == ShellState::Spawned && request.session_id is None ==> (client
                matches Err(fault) ==> refusal == Some(fault@))
        }),
{
}

/// A method on the session state is answered with its own outcome. Where the authority over the
/// state is lost the session ends.
pub proof fn law_a_state_method_is_answered(
    shell: Shell,
    request: Request,
    outcome: Result<JsonView, ProtocolErrorView>,
)
    ensures
        ({
            let (after, step) = state_method_answered(shell, request, outcome);
            &&& step matches ShellStepView::Finish(end) && {
                &&& end.responses.len() == 1
                &&& end.responses[0].request == Some(request)
                &&& outcome is Ok ==> end.responses[0].outcome == outcome && end.exit is None
                    && after == shell
                &&& outcome matches Err(error) ==> (end.responses[0].outcome matches Err(told) && {
                    &&& told.code == error.code
                    &&& told.message == error.message
                    &&& error.fatal ==> told.fatal
                    &&& told.fatal ==> end.exit is Some && end.close_after && after.state
                        == ShellState::Closed && after.engine is None
                    &&& !told.fatal ==> end.exit is None && after == shell && told == error
                })
            }
        }),
{
}

} // verus!
