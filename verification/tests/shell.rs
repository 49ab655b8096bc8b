use std::sync::Arc;

use serde_json::Value;
use stasis::active::{
    ActiveOperation, ActiveRequest, ActiveTransition, Answers, AutomationState,
    ControlledOpenState, NavigatePhase, NavigateState, PublicAutomationKind, SessionProjectionKind,
    SessionProjectionPhase, SessionProjectionState, SettlePolicy, SettleResponse, SettleState,
    UnresolvedAutomationParams,
};
use stasis::authority::{
    ActiveTopLevel, PendingTarget, SessionNavigationAuthority, SessionNavigationTerminal,
    UrlScheme,
};
use stasis::closing::{cancel_active_failure, CancelStep, CloseStep, ClosingStep};
use stasis::control::{
    CurrentDocumentStateAuthority, DocumentAutomationError, DocumentControlCommand, DocumentControlError, DocumentControlOutcome,
    DocumentControlReceiveOutcome, DocumentStateAuthorityError, NavigationOperationKind,
    PendingSnapshot, SettleFailure, SettleFailureKind, SettleProgress,
};
use stasis::engine::{
    EngineClockMode, EngineControlPoll, EngineSession, EngineSessionOpenOptions,
};
use stasis::error::ProtocolError;
use stasis::failure::{
    automation_rejection, document_authority_authorization_failure,
    mismatched_navigation_authority, session_navigation_terminal_failure,
};
use stasis::inbox::{
    reader_channel, ReaderCloseDisposition, ReaderInbox, ReaderMessage, SequencedReaderMessage,
};
use stasis::network::{
    harden_session_state_mutation_error, session_state_protocol_error, ControlledNetworkFailure,
    ControlledNetworkSnapshot, SessionStateError, SessionStateErrorKind,
};
use stasis::opening::{OpenStep, OpenedEngine, OpenedStep};
use stasis::operation::ControlOperationCompletion;
use stasis::params::{
    accept_navigation_url, automation_parameter_error, check_audit_limit, parse_params,
    parse_sensitive_params, parse_source_identities, read_navigation_url,
    serialize_immediate_error, settlement_policy_error, OpenClockMode, OpenParams, TokenDomains,
};
use stasis::profile::{
    DocumentControlProfile, DocumentExecutionProfile, RequestStateEffect, SessionProfile,
    CONTROLLED_OPEN_WALL_TIMEOUT_NS, CONTROLLED_WEBAPP_V1_PROFILE,
    CONTROLLED_WEB_SESSION_V1_PROFILE, CONTROLLED_WEB_SESSION_V2_PROFILE, CONTROL_COMMAND_TIMEOUT_NS,
    OWNER_LOOP_SAFETY_TIMEOUT_NS, SESSION_ID,
};
use stasis::request::Request;
use stasis::session::{
    close_disposition, find_method, ClientIdentity, Handled, Method, RuntimeMethod, RuntimeParams,
    RuntimeStep, SessionStateMethod, SettleToken,
};
use stasis::shell::{Finish, Shell, ShellState, ShellStep};
use stasis::shell_poll::ControlStep;
use stasis::writer::ProtocolWriter;

const TEST_TOKEN_NAMESPACE_HEX: &str = "71717171717171717171717171717171";
const NOW: u64 = 1_000_000_000_000;

fn test_document_token(alias: u128) -> String {
    format!("document:{TEST_TOKEN_NAMESPACE_HEX}:{alias}")
}

fn test_session_state_token(alias: u64) -> String {
    format!("session:{TEST_TOKEN_NAMESPACE_HEX}:{alias}")
}

fn json(text: &str) -> Value {
    serde_json::from_str(text).unwrap()
}

fn no_domains() -> TokenDomains {
    TokenDomains {
        state_token_is_session_token: false,
        session_token_is_document_token: false,
    }
}

/// A host whose engine accepts every submission and notes it.
struct Host {
    shell: Shell,
    inbox: ReaderInbox,
    now: u64,
    wake: u64,
    network: Option<ControlledNetworkSnapshot>,
    submitted: Vec<DocumentControlCommand>,
    navigation_submitted: Vec<NavigationOperationKind>,
    writer: ProtocolWriter<()>,
    frames: Vec<Value>,
    closes: usize,
    exit: Option<String>,
}

fn engine_session(
    clock_mode: EngineClockMode,
    document_control_profile: DocumentControlProfile,
    document_execution_profile: DocumentExecutionProfile,
) -> EngineSession {
    EngineSession::start_with_options(
        EngineSessionOpenOptions {
            clock_mode,
            document_control_profile,
            document_execution_profile,
            state: None,
            network: None,
        },
        None,
    )
    .unwrap()
    .0
}

fn controlled() -> EngineSession {
    engine_session(
        EngineClockMode::Controlled { initial_time_ns: 0 },
        DocumentControlProfile::SingleDocument,
        DocumentExecutionProfile::Baseline,
    )
}

fn controlled_session() -> EngineSession {
    engine_session(
        EngineClockMode::Controlled { initial_time_ns: 0 },
        DocumentControlProfile::TopLevelSession,
        DocumentExecutionProfile::Baseline,
    )
}

fn controlled_session_v2() -> EngineSession {
    engine_session(
        EngineClockMode::Controlled { initial_time_ns: 0 },
        DocumentControlProfile::TopLevelSession,
        DocumentExecutionProfile::ControlledWebSessionV2,
    )
}

fn host(state: ShellState, engine: Option<EngineSession>) -> Host {
    let profile = engine.as_ref().and_then(|engine| {
        match (
            engine.document_control_profile(),
            engine.document_execution_profile(),
        ) {
            (
                DocumentControlProfile::TopLevelSession,
                DocumentExecutionProfile::ControlledWebSessionV2,
            ) => Some(SessionProfile::ControlledWebSessionV2),
            (DocumentControlProfile::TopLevelSession, DocumentExecutionProfile::Baseline) => {
                Some(SessionProfile::ControlledWebSessionV1)
            },
            _ if engine.clock_mode().is_controlled() => Some(SessionProfile::ControlledWebappV1),
            _ => None,
        }
    });
    let mut shell = Shell::new(0);
    shell.state = state;
    shell.engine = engine;
    shell.profile = profile;
    Host {
        shell,
        inbox: reader_channel(2),
        now: NOW,
        wake: 0,
        network: None,
        submitted: Vec::new(),
        navigation_submitted: Vec::new(),
        writer: ProtocolWriter::new(()),
        frames: Vec::new(),
        closes: 0,
        exit: None,
    }
}

impl Host {
    fn finish(&mut self, finish: Finish) {
        if finish.close_before {
            self.closes += 1;
        }
        for response in &finish.responses {
            let bytes = self.writer.respond(response).unwrap();
            self.frames.push(serde_json::from_slice(&bytes).unwrap());
        }
        if finish.close_after {
            self.closes += 1;
        }
        if finish.exit.is_some() {
            self.exit = finish.exit;
        }
    }

    fn perform(&mut self, step: ShellStep) {
        let next = match step {
            ShellStep::Keep => return,
            ShellStep::SubmitControl { command, .. } => {
                self.submitted.push(command);
                self.shell.control_submitted(command, self.wake, Ok(()))
            },
            ShellStep::SubmitNavigationObservation {
                allow_servo_pump, ..
            } => {
                self.navigation_submitted
                    .push(NavigationOperationKind::Observe);
                self.shell
                    .navigation_observation_submitted(allow_servo_pump, Ok(()))
            },
            ShellStep::SubmitNavigation { .. } => {
                self.navigation_submitted
                    .push(NavigationOperationKind::Navigate);
                self.shell.navigation_submitted(Ok(()))
            },
            ShellStep::Consult(consultation) => panic!("unexpected question: {consultation:?}"),
            ShellStep::Finish(finish) => return self.finish(finish),
        };
        self.perform(next);
    }

    /// Handles a request up to its admission.
    fn take_in(&mut self, request: Request, cancel_target: Option<&str>) -> Option<(Request, Method)> {
        match self.shell.handle(request, cancel_target) {
            Handled::Step(step) => {
                self.perform(step);
                None
            },
            Handled::Admitted { request, method } => Some((request, method)),
        }
    }

    /// Opens a session; the engine is built as asked.
    fn open(&mut self, request: Request, params: OpenParams) {
        match self.shell.begin_open(request, Ok(params), self.now) {
            OpenStep::Step(step) => self.perform(step),
            OpenStep::Build {
                request,
                plan,
                options,
            } => {
                let (session, _) = EngineSession::start_with_options(options, None).unwrap();
                let engine = OpenedEngine { session, url: None };
                match self.shell.engine_built(request, plan, engine, self.now) {
                    OpenedStep::Step(step) => self.perform(step),
                    OpenedStep::Submit { opening, .. } => {
                        self.submitted.push(DocumentControlCommand::Observe);
                        let step =
                            self.shell
                                .open_observation_submitted(opening, self.wake, Ok(()));
                        self.perform(step);
                    },
                }
            },
        }
    }

    /// Reports a completed control command.
    fn control_completed(&mut self, outcome: DocumentControlReceiveOutcome, answers: &Answers) {
        let completion = ControlOperationCompletion::new(Arc::new(outcome));
        let step = self.shell.poll_active_control(
            EngineControlPoll::Complete(completion),
            None,
            self.network,
            self.now,
        );
        match step {
            ControlStep::Waiting { .. } => panic!("no control response was expected"),
            ControlStep::Step(step) => self.perform(step),
            ControlStep::Transition {
                command, outcome, ..
            } => {
                let step = self.shell.apply_control_completion(
                    command,
                    &outcome,
                    None,
                    self.network,
                    answers,
                    self.now,
                );
                self.perform(step);
            },
        }
    }

    fn operation(&self) -> &ActiveOperation {
        &self.shell.active.as_ref().unwrap().operation
    }

    fn last_frame(&self) -> &Value {
        self.frames.last().unwrap()
    }
}

fn request_with_id(method: &str, id: &str, session_id: Option<&str>) -> Request {
    Request {
        v: 1,
        kind: "request".to_owned(),
        id: id.to_owned(),
        session_id: session_id.map(str::to_owned),
        method: method.to_owned(),
        params: json("{}"),
    }
}

fn request(method: &str, session_id: Option<&str>) -> Request {
    request_with_id(method, "test-1", session_id)
}

fn session_authority(
    document_epoch: u64,
    navigation_id: u64,
    history_revision: u64,
    successful_document_replacements: u64,
) -> SessionNavigationAuthority {
    SessionNavigationAuthority {
        target: Arc::new(PendingTarget {
            webview_id: 1,
            event_loop_id: 1,
            active_top_level: Some(ActiveTopLevel {
                pipeline_id: 1,
                document_epoch: 1,
            }),
            navigation_revision: navigation_id,
            pipeline_membership_revision: document_epoch,
            unsupported_time_surface: None,
            pipelines: vec![1],
            fully_active_pipelines: vec![1],
            pending_top_level_pipelines: Vec::new(),
        }),
        document_epoch,
        navigation_id,
        history_revision,
        successful_document_replacements,
        url: "https://example.test/".to_owned(),
        scheme: UrlScheme::Https,
        terminal: None,
    }
}

fn pending_for_authority(
    authority: &SessionNavigationAuthority,
    state_generation: u64,
) -> PendingSnapshot {
    PendingSnapshot {
        identity: state_generation,
        state_generation,
        now_ns: 5,
        has_next_deadline: false,
        target: authority.target.clone(),
    }
}

fn rejected(error: DocumentControlError, diagnostic: &str) -> DocumentControlReceiveOutcome {
    DocumentControlReceiveOutcome::CommandOutcome {
        outcome: DocumentControlOutcome::Rejected {
            error,
            diagnostic: diagnostic.to_owned(),
        },
        fault: None,
    }
}

fn active(
    request: Request,
    profile: SessionProfile,
    operation: ActiveOperation,
    state_effect: RequestStateEffect,
) -> ActiveRequest {
    ActiveRequest {
        request,
        profile: Some(profile),
        operation,
        started_at: NOW,
        in_flight: None,
        control_turn_observed: None,
        needs_initial_pump: false,
        state_effect,
    }
}

fn open_params(url: &str, profile: &str) -> OpenParams {
    OpenParams {
        url: url.to_owned(),
        clock_mode: OpenClockMode::Controlled,
        initial_virtual_time_ns: None,
        unix_time_origin_ns: None,
        profile: Some(profile.to_owned()),
        state: None,
        network: None,
    }
}

#[test]
fn source_identity_manifest_contains_upstreams_and_stasis_build() {
    let manifest = "# upstreams\n[servo]\nservo_revision = \"0123456789abcdef0123456789abcdef01234567\"\npliego_revision = \"89abcdef0123456789abcdef0123456789abcdef\"\n";
    let identities = parse_source_identities(
        manifest,
        "https://github.com/oxhq/stasis.git",
        "uncommitted",
    );
    assert_eq!(identities["servo_revision"].as_str().unwrap().len(), 40);
    assert_eq!(identities["pliego_revision"].as_str().unwrap().len(), 40);
    assert_eq!(
        identities["stasis_repository"].as_str(),
        Some("https://github.com/oxhq/stasis.git")
    );
    assert_eq!(
        identities["stasis_revision"].as_str(),
        Some("uncommitted")
    );
}

#[test]
fn initialize_advertises_profiles_in_append_only_order_and_session_methods() {
    let mut host = host(ShellState::Spawned, None);
    let (request, method) = host
        .take_in(request("protocol.initialize", None), None)
        .unwrap();
    assert_eq!(method, Method::Initialize);
    let step = host
        .shell
        .initialize(request, Ok(None), "0.1.0", &json("{}"));
    host.perform(step);
    let response = host.last_frame();
    assert_eq!(
        response["result"]["capabilities"]["profiles"],
        Value::from(vec![
            CONTROLLED_WEBAPP_V1_PROFILE,
            CONTROLLED_WEB_SESSION_V1_PROFILE,
            CONTROLLED_WEB_SESSION_V2_PROFILE,
        ])
    );
    let methods = response["result"]["capabilities"]["methods"]
        .as_array()
        .unwrap();
    for method in [
        "session.navigate",
        "session.cookies.get",
        "session.cookies.set",
        "session.storage.get",
        "session.storage.set",
        "session.state.export",
        "session.state.import",
        "session.requests",
        "session.evidence",
    ] {
        assert!(
            methods.iter().any(|value| value.as_str() == Some(method)),
            "initialize omitted {method}",
        );
    }
}

#[test]
fn named_session_profiles_select_exact_native_execution_policy() {
    assert_eq!(
        SessionProfile::ControlledWebSessionV1.document_control_profile(),
        DocumentControlProfile::TopLevelSession,
    );
    assert_eq!(
        SessionProfile::ControlledWebSessionV1.document_execution_profile(),
        DocumentExecutionProfile::Baseline,
    );
    assert_eq!(
        SessionProfile::ControlledWebSessionV2.document_control_profile(),
        DocumentControlProfile::TopLevelSession,
    );
    assert_eq!(
        SessionProfile::ControlledWebSessionV2.document_execution_profile(),
        DocumentExecutionProfile::ControlledWebSessionV2,
    );

    let mut host = host(ShellState::Initialized, None);
    host.open(
        request("session.open", None),
        open_params("https://example.test/", CONTROLLED_WEB_SESSION_V2_PROFILE),
    );
    assert_eq!(
        host.shell.profile,
        Some(SessionProfile::ControlledWebSessionV2)
    );
    let engine = host.shell.engine.as_ref().unwrap();
    assert_eq!(
        engine.document_execution_profile(),
        DocumentExecutionProfile::ControlledWebSessionV2
    );
}

#[test]
fn an_invalid_close_does_not_terminate_the_shell() {
    let mut host = host(ShellState::Initialized, None);

    assert!(host.take_in(request("session.close", None), None).is_none());
    assert_eq!(host.shell.state, ShellState::Initialized);
    assert_eq!(host.exit, None);
}

#[test]
fn a_valid_close_is_terminal_and_keeps_the_session_id() {
    let mut host = host(ShellState::Open, Some(controlled()));
    let (request, method) = host
        .take_in(request("session.close", Some(SESSION_ID)), None)
        .unwrap();
    assert_eq!(method, Method::Close);
    let closing = host.shell.close(request, None, &None, &mut host.inbox);
    let Some(closed) = closing.closing else {
        panic!("a valid close did not close the session");
    };
    host.finish(closing.drained);
    host.finish(closed);
    assert_eq!(host.shell.state, ShellState::Closed);
    assert_eq!(host.last_frame()["sessionId"], SESSION_ID);
}

#[test]
fn an_ordinary_request_is_busy_while_runtime_work_is_active() {
    let mut host = host(ShellState::Open, Some(controlled()));
    host.shell.active = Some(active(
        request_with_id("runtime.pending", "active", Some(SESSION_ID)),
        SessionProfile::ControlledWebappV1,
        ActiveOperation::Pending,
        RequestStateEffect::Nothing,
    ));

    assert!(host
        .take_in(
            request_with_id("runtime.pending", "second", Some(SESSION_ID)),
            None
        )
        .is_none());
    assert_eq!(host.shell.active.as_ref().unwrap().request.id, "active");
    assert_eq!(host.frames[0]["error"]["code"], "busy");
}

#[test]
fn cancellation_cannot_target_its_own_request_id() {
    let mut host = host(ShellState::Open, Some(controlled()));
    host.shell.active = Some(active(
        request_with_id("runtime.pending", "same", Some(SESSION_ID)),
        SessionProfile::ControlledWebappV1,
        ActiveOperation::Pending,
        RequestStateEffect::Nothing,
    ));
    let mut cancel = request_with_id("protocol.cancel", "same", Some(SESSION_ID));
    cancel.params = json(r#"{"requestId": "same"}"#);

    assert!(host.take_in(cancel, Some("same")).is_none());
    assert_eq!(host.shell.active.as_ref().unwrap().request.id, "same");
    assert_eq!(host.frames[0]["error"]["code"], "invalid_request");
}

#[test]
fn active_cancellation_acknowledges_before_terminalizing_the_target() {
    let mut host = host(ShellState::Open, Some(controlled()));
    host.shell.active = Some(active(
        request_with_id("runtime.settle", "active", Some(SESSION_ID)),
        SessionProfile::ControlledWebappV1,
        ActiveOperation::Pending,
        RequestStateEffect::Partial,
    ));
    let mut cancel = request_with_id("protocol.cancel", "cancel", Some(SESSION_ID));
    cancel.params = json(r#"{"requestId": "active"}"#);

    let (cancel, method) = host.take_in(cancel, Some("active")).unwrap();
    assert_eq!(method, Method::Cancel);
    let CancelStep::Active(cancel) =
        host.shell
            .cancel(cancel, Ok("active".to_owned()), &mut host.inbox)
    else {
        panic!("the active request was not found");
    };
    let step = host.shell.cancel_active(cancel, None, &None);
    host.perform(step);
    assert!(host.shell.active.is_none());
    assert!(host.exit.is_none());

    assert_eq!(host.frames.len(), 2);
    assert_eq!(host.frames[0]["id"], "cancel");
    assert_eq!(host.frames[0]["result"]["accepted"], true);
    assert_eq!(host.frames[1]["id"], "active");
    assert_eq!(host.frames[1]["error"]["code"], "cancelled");
    assert_eq!(host.frames[1]["error"]["stateEffect"], "partial");
}

#[test]
fn controlled_session_cancellation_is_indeterminate_and_fail_stop() {
    for state_effect in [RequestStateEffect::Nothing, RequestStateEffect::Partial] {
        let active = active(
            request("runtime.settle", Some(SESSION_ID)),
            SessionProfile::ControlledWebSessionV1,
            ActiveOperation::Pending,
            state_effect,
        );

        let failure = cancel_active_failure(&active, None, &None);
        assert!(failure.fail_stop);
        assert!(failure.error.fatal);
        assert_eq!(failure.error.code, "outcome_indeterminate");
        assert_eq!(failure.error.state_effect, "indeterminate");
    }
}

#[test]
fn close_terminalizes_active_work_before_its_final_response() {
    let mut host = host(ShellState::Open, Some(controlled()));
    host.shell.active = Some(active(
        request_with_id("runtime.settle", "active", Some(SESSION_ID)),
        SessionProfile::ControlledWebappV1,
        ActiveOperation::Pending,
        RequestStateEffect::Partial,
    ));

    let (close, _) = host
        .take_in(
            request_with_id("session.close", "close", Some(SESSION_ID)),
            None,
        )
        .unwrap();
    let closing = host.shell.close(close, None, &None, &mut host.inbox);
    host.finish(closing.drained);
    host.finish(closing.closing.unwrap());

    assert_eq!(host.frames.len(), 2);
    assert_eq!(host.frames[0]["id"], "active");
    assert_eq!(host.frames[0]["error"]["stateEffect"], "partial");
    assert_eq!(host.frames[1]["id"], "close");
    assert_eq!(host.frames[1]["result"]["state"], "closed");
}

#[test]
fn controlled_open_requires_the_named_profile_and_supported_unix_origin() {
    let mut controlled = open_params("about:blank", CONTROLLED_WEBAPP_V1_PROFILE);
    controlled.initial_virtual_time_ns = Some(42);
    controlled.unix_time_origin_ns = Some(0);
    let controlled = controlled.configuration().unwrap();
    assert_eq!(
        controlled.clock_mode,
        EngineClockMode::Controlled {
            initial_time_ns: 42
        }
    );
    assert_eq!(controlled.boundary, "controlled_ready");
    assert_eq!(controlled.profile, Some(SessionProfile::ControlledWebappV1));
    assert!(controlled.state.is_none());
    assert!(controlled.network.is_none());

    let mut session = open_params("about:blank", CONTROLLED_WEB_SESSION_V1_PROFILE);
    session.initial_virtual_time_ns = Some(42);
    session.unix_time_origin_ns = Some(0);
    assert_eq!(
        session.configuration().unwrap().profile,
        Some(SessionProfile::ControlledWebSessionV1)
    );

    let mut session_v2 = open_params("about:blank", CONTROLLED_WEB_SESSION_V2_PROFILE);
    session_v2.initial_virtual_time_ns = Some(42);
    session_v2.unix_time_origin_ns = Some(0);
    assert_eq!(
        session_v2.configuration().unwrap().profile,
        Some(SessionProfile::ControlledWebSessionV2)
    );

    let mut unsupported = open_params("about:blank", CONTROLLED_WEBAPP_V1_PROFILE);
    unsupported.unix_time_origin_ns = Some(1);
    assert_eq!(
        unsupported.configuration().err().unwrap().code,
        "invalid_request"
    );

    let mut unnamed = open_params("about:blank", "");
    unnamed.profile = None;
    let unknown = open_params("about:blank", "controlled-webapp-v2");
    let mut real = open_params("about:blank", CONTROLLED_WEBAPP_V1_PROFILE);
    real.clock_mode = OpenClockMode::Real;
    for params in [unnamed, unknown, real] {
        assert_eq!(
            params.configuration().err().unwrap().code,
            "invalid_request"
        );
    }
}

#[test]
fn failed_open_never_exposes_the_provisional_session_id() {
    let mut host = host(ShellState::Open, Some(controlled()));
    let response = host.shell.write_method_result(
        request_with_id("session.open", "open", None),
        Err(ProtocolError::operation(
            "cancelled",
            "controlled open was cancelled",
            "none",
        )),
    );
    let bytes = host.writer.respond(&response).unwrap();
    let frame: Value = serde_json::from_slice(&bytes).unwrap();

    assert!(frame["sessionId"].is_null());
}

#[test]
fn controlled_open_retries_event_loop_unavailable_before_reporting_ready() {
    let mut host = host(ShellState::Initialized, None);
    host.open(
        request("session.open", None),
        open_params("about:blank", CONTROLLED_WEBAPP_V1_PROFILE),
    );
    assert_eq!(host.submitted.len(), 1);
    host.control_completed(
        rejected(
            DocumentControlError::EventLoopUnavailable,
            "EventLoopUnavailable",
        ),
        &Answers::none(),
    );

    assert!(matches!(
        host.operation(),
        ActiveOperation::ControlledOpen(ControlledOpenState {
            readiness_waiting: Some(_),
            ..
        })
    ));

    host.wake += 1;
    let step = host
        .shell
        .service_active_host_wait(host.wake, host.network, &Answers::none(), host.now)
        .unwrap();
    host.perform(step);
    assert_eq!(host.submitted.len(), 2);
    assert!(host.frames.is_empty());
}

#[test]
fn controlled_open_wall_deadline_survives_the_settle_phase() {
    let mut host = host(ShellState::Open, Some(controlled_session_v2()));
    let profile = SessionProfile::ControlledWebSessionV2;
    let deadline = host.now - 1_000_000;
    host.shell.active = Some(ActiveRequest {
        request: request("session.open", None),
        profile: Some(profile),
        operation: ActiveOperation::Settle(SettleState {
            profile,
            authorizing_document_state: None,
            authorizing_observation: None,
            authorizing_navigation: None,
            replacement: None,
            authority_bound_command: None,
            latest_pending_target: None,
            response: SettleResponse::ControlledOpen {
                requested_url: "https://example.test/".to_owned(),
                current_url: "https://example.test/".to_owned(),
                profile,
                deadline,
                bootstrap_attempted: false,
            },
            effective_policy: SettlePolicy::ProductDefault,
            cumulative_external_io_wall_time_ns: 0,
            waiting: None,
        }),
        started_at: deadline,
        in_flight: None,
        control_turn_observed: None,
        needs_initial_pump: false,
        state_effect: RequestStateEffect::Nothing,
    });

    assert_eq!(host.shell.next_wait_deadline(None, host.now), deadline);
    let step = host
        .shell
        .service_controlled_open_deadline(host.now)
        .unwrap();
    host.perform(step);
    assert!(host.exit.as_ref().unwrap().contains("fail-stopped"));
    assert!(host.shell.active.is_none());
    assert!(host.shell.engine.is_none());
    assert_eq!(host.shell.state, ShellState::Closed);

    let response = host.last_frame();
    assert_eq!(response["error"]["code"], "controlled_open_timeout");
    assert_eq!(response["error"]["fatal"], true);
    assert_eq!(response["error"]["stateEffect"], "indeterminate");
    assert!(response["sessionId"].is_null());
}

#[test]
fn controlled_open_wall_deadline_survives_session_projection() {
    let mut host = host(ShellState::Open, Some(controlled_session_v2()));
    let profile = SessionProfile::ControlledWebSessionV2;
    let deadline = host.now - 1_000_000;
    let navigation = session_authority(1, 1, 0, 0);
    host.shell.active = Some(ActiveRequest {
        request: request("session.open", None),
        profile: Some(profile),
        operation: ActiveOperation::SessionProjection(SessionProjectionState {
            pending: Arc::new(pending_for_authority(&navigation, 1)),
            kind: SessionProjectionKind::ControlledOpen {
                requested_url: "https://example.test/".to_owned(),
                current_url: "https://example.test/".to_owned(),
                profile,
                deadline,
                bootstrap_attempted: false,
                cumulative_external_io_wall_time_ns: 0,
                session_state_token: None,
                settle_resume: None,
            },
            phase: SessionProjectionPhase::AwaitingInitialNavigation,
        }),
        started_at: deadline,
        in_flight: None,
        control_turn_observed: None,
        needs_initial_pump: false,
        state_effect: RequestStateEffect::Nothing,
    });

    assert_eq!(host.shell.next_wait_deadline(None, host.now), deadline);
    let step = host
        .shell
        .service_controlled_open_deadline(host.now)
        .unwrap();
    host.perform(step);
    assert!(host.exit.as_ref().unwrap().contains("fail-stopped"));
    assert!(host.shell.active.is_none());
    assert!(host.shell.engine.is_none());
    assert_eq!(host.shell.state, ShellState::Closed);

    let response = host.last_frame();
    assert_eq!(response["error"]["code"], "controlled_open_timeout");
    assert_eq!(response["error"]["fatal"], true);
    assert_eq!(response["error"]["stateEffect"], "indeterminate");
    assert!(response["sessionId"].is_null());
}

#[test]
fn settlement_wait_retains_wake_from_in_flight_control_turn() {
    let mut host = host(ShellState::Open, Some(controlled()));
    let before_submit = host.wake;
    let mut active = active(
        request("runtime.settle", Some(SESSION_ID)),
        SessionProfile::ControlledWebappV1,
        ActiveOperation::Pending,
        RequestStateEffect::Nothing,
    );
    active.in_flight = Some(DocumentControlCommand::Observe);
    active.control_turn_observed = Some(before_submit);
    active.needs_initial_pump = true;

    // A producer commits after submission but before the forced control pump. That pump may advance
    // the cursor before the response becomes pollable.
    host.wake += 1;
    let producer_wake = host.wake;
    host.shell.pumped(producer_wake);
    active.needs_initial_pump = false;

    let wait = active.settle_host_wait(host.shell.servo_cursor, host.now, None);
    assert_eq!(wait.observed, before_submit);
    assert_ne!(producer_wake, wait.observed);

    // A later wait without a new control turn starts from the current cursor and cannot replay this
    // old producer wake.
    let next_wait = active.settle_host_wait(host.shell.servo_cursor, host.now, None);
    assert_eq!(next_wait.observed, producer_wake);
}

#[test]
fn controlled_open_does_not_retry_missing_authoritative_pending_facts() {
    let mut host = host(ShellState::Initialized, None);
    host.open(
        request("session.open", None),
        open_params("about:blank", CONTROLLED_WEBAPP_V1_PROFILE),
    );
    host.control_completed(
        rejected(
            DocumentControlError::Other,
            "PendingFactUnavailable(Rendering)",
        ),
        &Answers::none(),
    );

    assert!(host.shell.active.is_none());
    assert!(host.shell.engine.is_none());
    assert_eq!(host.shell.state, ShellState::Initialized);

    let response = host.last_frame();
    assert_eq!(response["error"]["code"], "document_control_rejected");
    assert!(response["sessionId"].is_null());
}

#[test]
fn controlled_open_allows_exactly_one_typed_initial_pipeline_bootstrap() {
    let mut host = host(ShellState::Initialized, None);
    host.open(
        request("session.open", None),
        open_params("https://example.test/", CONTROLLED_WEBAPP_V1_PROFILE),
    );
    let expected_pipeline_id = 1;
    host.control_completed(
        rejected(
            DocumentControlError::InitialPipelineBootstrapRequired {
                pipeline_id: expected_pipeline_id,
            },
            "InitialPipelineBootstrapRequired",
        ),
        &Answers::none(),
    );

    assert_eq!(
        host.submitted,
        vec![
            DocumentControlCommand::Observe,
            DocumentControlCommand::BootstrapInitialPipeline {
                pipeline_id: expected_pipeline_id,
            },
        ]
    );
    assert!(matches!(
        host.operation(),
        ActiveOperation::ControlledOpen(ControlledOpenState {
            bootstrap_attempted: true,
            ..
        })
    ));

    // A definitive rejection of the bootstrap closes only the provisional session. It must not loop
    // into another bootstrap or expose a session id.
    host.control_completed(
        rejected(
            DocumentControlError::Other,
            "InitialPipelineBootstrapUnavailable",
        ),
        &Answers::none(),
    );
    assert!(host.shell.active.is_none());
    assert!(host.shell.engine.is_none());
    assert_eq!(host.shell.state, ShellState::Initialized);

    let response = host.last_frame();
    assert_eq!(response["error"]["code"], "document_control_rejected");
    assert!(response["sessionId"].is_null());
}

#[test]
fn runtime_methods_are_rejected_before_submission_in_real_mode() {
    let mut host = host(
        ShellState::Open,
        Some(EngineSession::start(EngineClockMode::Real)),
    );

    assert!(host
        .take_in(request("runtime.pending", Some(SESSION_ID)), None)
        .is_none());
    assert!(host.submitted.is_empty());
    assert_eq!(
        host.frames[0]["error"]["code"],
        "controlled_clock_required"
    );
}

#[test]
fn stale_settle_token_is_preflighted_without_submitting_or_pumping_engine_work() {
    let stale = |host: &mut Host| {
        let mut settle = request("runtime.settle", Some(SESSION_ID));
        settle.params = json(&format!(
            "{{\"expectedStateToken\": \"{}\"}}",
            test_document_token(99)
        ));
        let (settle, method) = host.take_in(settle, None).unwrap();
        assert_eq!(method, Method::Runtime(RuntimeMethod::Settle));
        let step = host.shell.begin_runtime_request(
            settle,
            Ok(RuntimeParams::Settle {
                policy: SettlePolicy::ProductDefault,
                token: SettleToken::Named(None),
            }),
            host.network,
            host.now,
        );
        let RuntimeStep::Step(step) = step else {
            panic!("a stale token started a settlement");
        };
        host.perform(step);
        assert!(host.shell.active.is_none());
        assert!(host.submitted.is_empty());
        assert!(host.navigation_submitted.is_empty());
        assert!(!host.shell.wants_pump(host.wake));
    };

    let mut clean_host = host(ShellState::Open, Some(controlled_session()));
    stale(&mut clean_host);
    let clean = clean_host.last_frame();
    assert_eq!(clean["error"]["code"], "stale_state_token");
    assert_eq!(clean["error"]["stateEffect"], "none");
    assert_eq!(clean["error"]["fatal"], false);

    let mut sticky_host = host(ShellState::Open, Some(controlled_session()));
    sticky_host.network = Some(ControlledNetworkSnapshot {
        active_operations: 0,
        maximum_active_operations: 8,
        sticky_failure: Some(ControlledNetworkFailure::FixtureMiss),
    });
    stale(&mut sticky_host);
    let sticky = sticky_host.last_frame();
    assert_eq!(sticky["error"]["code"], "network_fixture_miss");
    assert_eq!(sticky["error"]["stateEffect"], "partial");
}

#[test]
fn a_settlement_without_a_token_begins_with_what_its_coordinator_asks_for() {
    let start = |started: Result<SettleProgress, SettleFailure>| {
        let mut host = host(ShellState::Open, Some(controlled()));
        let (settle, _) = host
            .take_in(request("runtime.settle", Some(SESSION_ID)), None)
            .unwrap();
        let step = host.shell.begin_runtime_request(
            settle,
            Ok(RuntimeParams::Settle {
                policy: SettlePolicy::ProductDefault,
                token: SettleToken::Absent,
            }),
            None,
            host.now,
        );
        assert!(host.shell.active.is_none());
        let RuntimeStep::StartSettlement { request, policy } = step else {
            panic!("a settlement began before its coordinator");
        };
        assert_eq!(request.method, "runtime.settle");
        assert_eq!(policy, SettlePolicy::ProductDefault);
        let step = host
            .shell
            .settlement_started(request, policy, started, None, host.now);
        host.perform(step);
        host
    };
    let begun = start(Ok(SettleProgress::Command(DocumentControlCommand::Observe)));
    assert_eq!(begun.submitted, vec![DocumentControlCommand::Observe]);
    assert!(begun.frames.is_empty());
    assert!(matches!(begun.operation(), ActiveOperation::Settle(_)));

    let failed = start(Err(SettleFailure {
        kind: SettleFailureKind::Other,
        diagnostic: "Refused".to_owned(),
    }));
    assert!(failed.submitted.is_empty());
    assert!(failed.shell.active.is_none());
    let error = &failed.last_frame()["error"];
    assert_eq!(error["code"], "settlement_failed");
    assert_eq!(error["message"], "settlement could not continue: Refused");
    assert_eq!(error["stateEffect"], "none");
}

#[test]
fn a_settlement_whose_token_is_current_observes_the_navigation_first() {
    let mut host = host(ShellState::Open, Some(controlled_session()));
    let (settle, _) = host
        .take_in(request("runtime.settle", Some(SESSION_ID)), None)
        .unwrap();
    let step = host.shell.begin_runtime_request(
        settle,
        Ok(RuntimeParams::Settle {
            policy: SettlePolicy::ProductDefault,
            token: SettleToken::Named(Some(Arc::new(CurrentDocumentStateAuthority {
                id: 3,
                target: session_authority(1, 1, 0, 0).target,
                state_generation: 9,
            }))),
        }),
        None,
        host.now,
    );
    let RuntimeStep::Step(step) = step else {
        panic!("a settlement with a token started its coordinator");
    };
    host.perform(step);
    assert_eq!(
        host.navigation_submitted,
        vec![NavigationOperationKind::Observe]
    );
    let ActiveOperation::Settle(state) = host.operation() else {
        panic!("no settlement is active");
    };
    assert_eq!(
        state.authorizing_document_state.as_ref().map(|authority| authority.id),
        Some(3)
    );
}

#[test]
fn controlled_automation_observes_before_binding_private_target_authority() {
    let mut host = host(ShellState::Open, Some(controlled()));
    let mut activate = request("action.activate", Some(SESSION_ID));
    activate.params = json(r##"{"selector": "#start", "expectedGeneration": "7"}"##);

    let (activate, method) = host.take_in(activate, None).unwrap();
    assert_eq!(method, Method::Automation(PublicAutomationKind::Activate));
    let step = host.shell.begin_automation_request(
        activate,
        PublicAutomationKind::Activate,
        Ok(UnresolvedAutomationParams::Legacy(1)),
        None,
        host.now,
    );
    host.perform(step);
    assert_eq!(host.submitted, vec![DocumentControlCommand::Observe]);
    assert!(matches!(
        host.operation(),
        ActiveOperation::Automation(AutomationState {
            unresolved: Some(_),
            ..
        })
    ));
    assert!(host.frames.is_empty());
}

#[test]
fn controlled_session_document_mutations_observe_navigation_authority_first() {
    let mut host = host(ShellState::Open, Some(controlled_session()));
    let mut fill = request("action.fill", Some(SESSION_ID));
    fill.params = json(&format!(
        "{{\"selector\": \"#email\", \"value\": \"person@example.test\", \"expectedStateToken\": \"{}\"}}",
        test_document_token(1)
    ));

    let (fill, _) = host.take_in(fill, None).unwrap();
    let step = host.shell.begin_automation_request(
        fill,
        PublicAutomationKind::Fill,
        Ok(UnresolvedAutomationParams::Session(1)),
        None,
        host.now,
    );
    host.perform(step);
    assert!(host.submitted.is_empty());
    assert_eq!(
        host.navigation_submitted,
        vec![NavigationOperationKind::Observe]
    );
    assert!(host.frames.is_empty());
}

#[test]
fn session_navigate_validates_http_and_starts_with_passive_authority() {
    let navigate = |url: &str| {
        let mut host = host(ShellState::Open, Some(controlled_session()));
        let (navigate, method) = host
            .take_in(request("session.navigate", Some(SESSION_ID)), None)
            .unwrap();
        assert_eq!(method, Method::Navigate);
        let step = host.shell.begin_session_navigate(
            navigate,
            Ok((url.to_owned(), test_document_token(1))),
            None,
            host.now,
        );
        host.perform(step);
        host
    };
    let valid = navigate("https://example.test/next");
    assert_eq!(
        valid.navigation_submitted,
        vec![NavigationOperationKind::Observe]
    );
    assert!(matches!(
        valid.operation(),
        ActiveOperation::Navigate(NavigateState {
            phase: NavigatePhase::AwaitingAuthority { .. },
            ..
        })
    ));
    assert!(valid.frames.is_empty());

    let invalid = navigate("file:///tmp/not-supported");
    assert!(invalid.navigation_submitted.is_empty());
    assert_eq!(
        invalid.frames[0]["error"]["code"],
        "unsupported_navigation_scheme"
    );
}

#[test]
fn every_public_automation_method_enters_the_observe_then_bind_path() {
    for (method, expected_kind) in [
        ("action.fill", PublicAutomationKind::Fill),
        ("dom.query", PublicAutomationKind::Query),
        ("dom.extract", PublicAutomationKind::Extract),
    ] {
        let mut host = host(ShellState::Open, Some(controlled()));
        let (request, admitted) = host.take_in(request(method, Some(SESSION_ID)), None).unwrap();
        let Method::Automation(kind) = admitted else {
            panic!("{method} is not an automation method");
        };
        let step = host.shell.begin_automation_request(
            request,
            kind,
            Ok(UnresolvedAutomationParams::Legacy(1)),
            None,
            host.now,
        );
        host.perform(step);
        assert_eq!(
            host.submitted,
            vec![DocumentControlCommand::Observe],
            "{method} did not begin with a passive observation",
        );
        assert!(matches!(
            host.operation(),
            ActiveOperation::Automation(AutomationState {
                kind,
                unresolved: Some(_),
                ..
            }) if *kind == expected_kind
        ));
        assert!(host.frames.is_empty());
    }
}

#[test]
fn automation_rejections_have_stable_public_codes() {
    for (error, expected_code) in [
        (
            DocumentAutomationError::StaleStateGeneration,
            "stale_generation",
        ),
        (
            DocumentAutomationError::UnsupportedFillElement,
            "unsupported_fill_element",
        ),
        (
            DocumentAutomationError::SelectorAmbiguous,
            "selector_ambiguous",
        ),
        (
            DocumentAutomationError::OutputLimitExceeded,
            "automation_output_limit_exceeded",
        ),
    ] {
        let projected = automation_rejection(
            &DocumentControlError::Automation(error),
            RequestStateEffect::Nothing,
        );
        assert_eq!(projected.code, expected_code);
        assert!(!projected.fatal);
        assert_eq!(projected.state_effect, "none");
    }
}

#[test]
fn automation_rejections_never_echo_selector_or_select_values() {
    let secret_selector = "#SECRET-SELECTOR-CANARY";
    let secret_value = "SECRET-OPTION-CANARY";
    for error in [
        DocumentAutomationError::InvalidSelector,
        DocumentAutomationError::SelectValueNotFound,
    ] {
        let protocol = automation_rejection(
            &DocumentControlError::Automation(error),
            RequestStateEffect::Nothing,
        );
        assert!(!protocol.message.contains(secret_selector));
        assert!(!protocol.message.contains(secret_value));
        assert_eq!(protocol.message, "document automation request was rejected");
    }

    let malformed = request("dom.extract", Some(SESSION_ID));
    let parse_error = parse_params::<()>(
        &malformed,
        no_domains(),
        Err(format!(
            "unknown variant `{secret_value}` beside `{secret_selector}`"
        )),
    )
    .err()
    .unwrap();
    assert!(!parse_error.message.contains(secret_selector));
    assert!(!parse_error.message.contains(secret_value));
}

#[test]
fn automation_rejects_generations_outside_the_runtime_u64_authority() {
    let mut host = host(ShellState::Open, Some(controlled()));
    let mut text = request("dom.text", Some(SESSION_ID));
    text.params = json(r##"{"selector": "#state", "expectedGeneration": "18446744073709551616"}"##);

    let (text, _) = host.take_in(text, None).unwrap();
    let step = host.shell.begin_automation_request(
        text,
        PublicAutomationKind::Text,
        Err(automation_parameter_error("dom.text")),
        None,
        host.now,
    );
    host.perform(step);
    assert!(host.submitted.is_empty());
    assert!(host.shell.active.is_none());
    assert_eq!(host.frames[0]["error"]["code"], "invalid_request");
}

#[test]
fn sensitive_parameter_errors_are_fixed_and_redacted() {
    let secret = "SECRET-CANARY-DO-NOT-ECHO";
    let cases = [
        (
            "session.open",
            format!("{{\"url\": \"https://example.test/\", \"clockMode\": \"{secret}\"}}"),
            "invalid session.open parameters",
        ),
        (
            "session.cookies.set",
            format!(
                "{{\"expectedSessionStateToken\": \"{}\", \"cookies\": [{{\"sameSite\": \"{secret}\"}}]}}",
                test_session_state_token(1)
            ),
            "invalid session cookie parameters",
        ),
        (
            "session.storage.set",
            format!("{{\"expectedSessionStateToken\": \"{secret}\", \"origins\": []}}"),
            "invalid session storage parameters",
        ),
    ];
    for (method, params, message) in cases {
        let mut request = request(method, None);
        request.params = json(&params);
        let error = parse_sensitive_params::<()>(&request, no_domains(), None, message)
            .err()
            .unwrap();
        assert_eq!(error.message, message);
        assert!(!error.message.contains(secret));
    }
}

#[test]
fn token_domains_cannot_substitute_at_public_endpoints() {
    let mut document_request = request("runtime.pending", Some(SESSION_ID));
    document_request.params = json(&format!(
        "{{\"expectedStateToken\": \"{}\"}}",
        test_session_state_token(1)
    ));
    let document_error = parse_params::<()>(
        &document_request,
        TokenDomains {
            state_token_is_session_token: true,
            session_token_is_document_token: false,
        },
        Err("not a document token".to_owned()),
    )
    .err()
    .unwrap();
    assert_eq!(document_error.code, "stale_state_token");
    assert_eq!(document_error.state_effect, "none");

    let mut session_request = request("session.cookies.set", Some(SESSION_ID));
    session_request.params = json(&format!(
        "{{\"expectedSessionStateToken\": \"{}\", \"cookies\": []}}",
        test_document_token(1)
    ));
    let session_error = parse_sensitive_params::<()>(
        &session_request,
        TokenDomains {
            state_token_is_session_token: false,
            session_token_is_document_token: true,
        },
        None,
        "invalid session cookie parameters",
    )
    .err()
    .unwrap();
    assert_eq!(session_error.code, "stale_session_state_token");
    assert_eq!(session_error.state_effect, "none");

    let mut malformed_document = request("runtime.pending", Some(SESSION_ID));
    malformed_document.params = json(r#"{"expectedStateToken": "session:not-canonical"}"#);
    let malformed_document_error = parse_params::<()>(
        &malformed_document,
        no_domains(),
        Err("malformed token".to_owned()),
    )
    .err()
    .unwrap();
    assert_eq!(malformed_document_error.code, "invalid_request");

    let mut malformed_session = request("session.cookies.set", Some(SESSION_ID));
    malformed_session.params =
        json(r#"{"expectedSessionStateToken": "document:not-canonical", "cookies": []}"#);
    let malformed_session_error = parse_sensitive_params::<()>(
        &malformed_session,
        no_domains(),
        None,
        "invalid session cookie parameters",
    )
    .err()
    .unwrap();
    assert_eq!(malformed_session_error.code, "invalid_request");
}

#[test]
fn published_state_import_is_phase_closed_before_secret_inspection() {
    let secret = "SECRET-IMPORT-CANARY";
    let mut host = host(ShellState::Open, Some(controlled_session()));
    let mut import = request("session.state.import", Some(SESSION_ID));
    import.params = json(&format!(
        "{{\"expectedSessionStateToken\": \"{}\", \"state\": \"{secret}\"}}",
        test_document_token(1)
    ));
    let (import, method) = host.take_in(import, None).unwrap();
    assert_eq!(method, Method::SessionState(SessionStateMethod::StateImport));
    let step = host.shell.handle_session_state_request(
        import,
        SessionStateMethod::StateImport,
        Ok(Value::from(secret)),
    );
    host.perform(step);
    let response = host.last_frame();
    assert_eq!(
        response["error"]["code"],
        "session_state_import_phase_closed"
    );
    assert!(!response.to_string().contains(secret));
}

#[test]
fn app_navigation_limits_preserve_effect_and_fail_stop_after_other_work() {
    let terminal = SessionNavigationTerminal::HistoryLimitExceeded {
        limit: 10_000,
        observed: 10_000,
        navigation_id: 7,
        history_revision: 10_000,
    };
    let ActiveTransition::Fail(pre_admission) =
        session_navigation_terminal_failure(terminal, RequestStateEffect::Nothing)
    else {
        panic!("terminal navigation must fail");
    };
    assert!(!pre_admission.fail_stop);
    assert!(!pre_admission.error.fatal);
    assert_eq!(pre_admission.error.state_effect, "none");
    assert!(pre_admission.error.details.is_some());

    let ActiveTransition::Fail(post_action) =
        session_navigation_terminal_failure(terminal, RequestStateEffect::Partial)
    else {
        panic!("terminal navigation must fail");
    };
    assert!(post_action.fail_stop);
    assert!(post_action.error.fatal);
    assert_eq!(post_action.error.state_effect, "partial");
}

#[test]
fn projection_authority_mismatch_fail_stops_after_partial_work_only() {
    let mismatch = DocumentStateAuthorityError::NavigationTargetDoesNotMatchPending;
    let ActiveTransition::Fail(before_work) =
        mismatched_navigation_authority(mismatch, RequestStateEffect::Nothing)
    else {
        panic!("authority mismatch must fail");
    };
    assert!(!before_work.fail_stop);
    assert!(!before_work.error.fatal);
    assert_eq!(before_work.error.state_effect, "none");

    let ActiveTransition::Fail(after_work) =
        mismatched_navigation_authority(mismatch, RequestStateEffect::Partial)
    else {
        panic!("authority mismatch must fail");
    };
    assert!(after_work.fail_stop);
    assert!(after_work.error.fatal);
    assert_eq!(after_work.error.state_effect, "partial");
}

#[test]
fn token_entropy_failures_are_secret_free_fatal_runtime_errors() {
    let ActiveTransition::Fail(document) = document_authority_authorization_failure(
        DocumentStateAuthorityError::TokenEntropyUnavailable,
    ) else {
        panic!("document token entropy failure must fail");
    };
    assert!(document.fail_stop);
    assert!(document.error.fatal);
    assert_eq!(document.error.code, "runtime_error");
    assert_eq!(document.error.state_effect, "none");
    assert!(document.error.details.is_none());

    let session = session_state_protocol_error(SessionStateError {
        kind: SessionStateErrorKind::TokenEntropyUnavailable,
        code: "session_state_token_entropy_unavailable",
    });
    assert!(session.fatal);
    assert_eq!(session.code, "session_state_token_entropy_unavailable");
    assert_eq!(session.state_effect, "none");
    assert!(session.details.is_none());

    let hardened = harden_session_state_mutation_error("session.storage.set", session);
    assert!(hardened.fatal);
    assert_eq!(hardened.state_effect, "indeterminate");
    assert!(hardened.details.is_none());
}

#[test]
fn post_replace_session_state_failures_are_indeterminate_and_fatal() {
    for code in [
        "session_state_backend_observe_failed",
        "session_state_cookie_replace_failed",
        "session_state_web_storage_replace_failed",
        "session_state_backend_revision_regressed",
        "session_state_token_entropy_unavailable",
        "session_state_token_space_exhausted",
    ] {
        let hardened = harden_session_state_mutation_error(
            "session.cookies.set",
            ProtocolError::operation(code, "redacted", "none"),
        );
        assert!(hardened.fatal, "{code} was not fail-stopped");
        assert_eq!(hardened.state_effect, "indeterminate", "{code}");
    }
    let stale = harden_session_state_mutation_error(
        "session.storage.set",
        ProtocolError::operation("stale_session_state_token", "stale", "none"),
    );
    assert!(!stale.fatal);
    assert_eq!(stale.state_effect, "none");
}

#[test]
fn registrable_host_cookie_overflow_has_a_distinct_pre_mutation_code() {
    let error = session_state_protocol_error(SessionStateError {
        kind: SessionStateErrorKind::Other,
        code: "too_many_session_cookies_per_registrable_host",
    });
    assert_eq!(error.code, "too_many_session_cookies_per_registrable_host");
    assert!(!error.fatal);
    assert_eq!(error.state_effect, "none");
    assert!(error.details.is_none());
}

#[test]
fn cookie_time_range_has_a_distinct_nonfatal_live_mutation_code() {
    let error = session_state_protocol_error(SessionStateError {
        kind: SessionStateErrorKind::Other,
        code: "unsupported_cookie_time_range",
    });
    assert_eq!(error.code, "unsupported_cookie_time_range");
    assert!(!error.fatal);
    assert_eq!(error.state_effect, "none");
    assert!(error.details.is_none());

    let hardened = harden_session_state_mutation_error("session.cookies.set", error);
    assert!(!hardened.fatal);
    assert_eq!(hardened.state_effect, "none");
}

#[test]
fn a_real_open_is_answered_at_once() {
    let mut host = host(ShellState::Initialized, None);
    let mut params = open_params("HTTPS://Example.test:443/a b", "");
    params.clock_mode = OpenClockMode::Real;
    params.profile = None;
    host.open(request("session.open", None), params);
    assert_eq!(host.shell.state, ShellState::Open);
    assert!(host.shell.active.is_none());
    let result = &host.last_frame()["result"];
    assert_eq!(
        result.to_string(),
        r#"{"sessionId":"s-1","requestedUrl":"https://example.test/a%20b","url":"https://example.test/a%20b","boundary":"load_complete","clockMode":"real","profile":null}"#
    );
    assert_eq!(host.last_frame()["sessionId"], SESSION_ID);
}

#[test]
fn opens_are_refused_with_their_reasons() {
    let refused = |url: &str, profile: &str, now: u64| {
        let mut host = host(ShellState::Initialized, None);
        host.now = now;
        host.open(request("session.open", None), open_params(url, profile));
        assert_eq!(host.shell.state, ShellState::Initialized);
        assert!(host.submitted.is_empty());
        host.frames.pop().unwrap()["error"].clone()
    };
    let error = refused("not a url", CONTROLLED_WEBAPP_V1_PROFILE, NOW);
    assert_eq!(error["code"], "invalid_request");
    assert_eq!(
        error["message"],
        "invalid URL: relative URL without a base"
    );
    let error = refused("about:blank", CONTROLLED_WEB_SESSION_V1_PROFILE, NOW);
    assert_eq!(error["code"], "unsupported_navigation_scheme");
    let error = refused("about:blank", CONTROLLED_WEBAPP_V1_PROFILE, u64::MAX);
    assert_eq!(error["code"], "controlled_open_deadline_overflow");

    let mut spawned = host(ShellState::Spawned, None);
    spawned.open(
        request("session.open", None),
        open_params("about:blank", CONTROLLED_WEBAPP_V1_PROFILE),
    );
    assert_eq!(spawned.last_frame()["error"]["code"], "invalid_state");
}

#[test]
fn an_engine_of_another_profile_is_refused() {
    let mut host = host(ShellState::Initialized, None);
    let OpenStep::Build { request, plan, .. } = host.shell.begin_open(
        request("session.open", None),
        Ok(open_params(
            "https://example.test/",
            CONTROLLED_WEB_SESSION_V2_PROFILE,
        )),
        host.now,
    ) else {
        panic!("a valid open was refused");
    };
    assert_eq!(plan.deadline, Some(NOW + CONTROLLED_OPEN_WALL_TIMEOUT_NS));
    let engine = OpenedEngine {
        session: controlled_session(),
        url: None,
    };
    let OpenedStep::Step(step) = host.shell.engine_built(request, plan, engine, host.now) else {
        panic!("another engine was accepted");
    };
    host.perform(step);
    assert_eq!(host.closes, 1);
    assert_eq!(
        host.last_frame()["error"]["message"],
        "engine opened with a different document-execution profile"
    );
    assert_eq!(host.shell.state, ShellState::Initialized);
}

#[test]
fn a_failed_engine_ends_the_shell_where_it_is_fatal() {
    for (fatal, state) in [(false, ShellState::Initialized), (true, ShellState::Closed)] {
        let mut host = host(ShellState::Initialized, None);
        let OpenStep::Build { request, plan, .. } = host.shell.begin_open(
            request("session.open", None),
            Ok(open_params("about:blank", CONTROLLED_WEBAPP_V1_PROFILE)),
            host.now,
        ) else {
            panic!("a valid open was refused");
        };
        let mut error = ProtocolError::operation("engine_startup_failed", "no", "none");
        error.fatal = fatal;
        let step = host.shell.open_failed(request, plan, error, host.now);
        host.perform(step);
        assert_eq!(host.shell.state, state);
        assert_eq!(host.exit.is_some(), fatal);
    }
}

#[test]
fn a_duplicate_active_id_ends_the_session() {
    let mut host = host(ShellState::Open, Some(controlled()));
    host.shell.active = Some(active(
        request_with_id("runtime.pending", "same", Some(SESSION_ID)),
        SessionProfile::ControlledWebappV1,
        ActiveOperation::Pending,
        RequestStateEffect::Nothing,
    ));
    assert!(host
        .take_in(
            request_with_id("runtime.pending", "same", Some(SESSION_ID)),
            None
        )
        .is_none());
    assert_eq!(host.shell.state, ShellState::Closed);
    assert_eq!(host.exit.as_deref(), Some("duplicate active request id"));
    assert_eq!(host.last_frame()["type"], "event");
    assert_eq!(host.last_frame()["error"]["code"], "duplicate_request_id");
}

#[test]
fn queued_requests_are_answered_in_order_when_the_session_closes() {
    let mut host = host(ShellState::Open, Some(controlled()));
    for (id, sequence) in [("first", 1), ("second", 2)] {
        host.inbox.enqueue(SequencedReaderMessage::request(
            request_with_id("dom.query", id, Some(SESSION_ID)),
            sequence,
        ));
    }
    host.inbox.enqueue(SequencedReaderMessage::close_request(
        request_with_id("session.close", "again", Some(SESSION_ID)),
        3,
    ));
    let ClosingStep {
        drained,
        barriers,
        closing,
    } = host.shell.close(
        request_with_id("session.close", "close", Some(SESSION_ID)),
        None,
        &None,
        &mut host.inbox,
    );
    host.finish(drained);
    host.finish(closing.unwrap());
    assert_eq!(barriers, vec![3]);
    let ids: Vec<_> = host.frames.iter().map(|frame| frame["id"].clone()).collect();
    assert_eq!(ids, ["again", "first", "second", "close"]);
    assert_eq!(host.frames[1]["error"]["code"], "session_closing");
}

#[test]
fn a_fatal_input_stops_the_close() {
    let mut host = host(ShellState::Open, Some(controlled()));
    host.inbox
        .enqueue(SequencedReaderMessage::transport(ReaderMessage::Fatal(
            ProtocolError::fatal("input_error", "broken pipe"),
        )));
    let closing = host.shell.close(
        request_with_id("session.close", "close", Some(SESSION_ID)),
        None,
        &None,
        &mut host.inbox,
    );
    assert!(closing.closing.is_none());
    host.finish(closing.drained);
    assert_eq!(host.exit.as_deref(), Some("broken pipe"));
    assert_eq!(host.last_frame()["event"], "protocol.fatal");
}

#[test]
fn queued_cancellations_find_one_request_or_none() {
    let mut host = host(ShellState::Open, Some(controlled()));
    host.inbox.enqueue(SequencedReaderMessage::request(
        request_with_id("dom.query", "queued", Some(SESSION_ID)),
        1,
    ));
    for accepted in [true, false] {
        let cancel = request_with_id("protocol.cancel", "cancel", Some(SESSION_ID));
        let CancelStep::Step(step) =
            host.shell
                .cancel(cancel, Ok("queued".to_owned()), &mut host.inbox)
        else {
            panic!("no request was active");
        };
        host.frames.clear();
        host.perform(step);
        assert_eq!(host.frames[0]["result"]["accepted"], accepted);
        assert_eq!(host.frames.len(), if accepted { 2 } else { 1 });
    }

    for sequence in [2, 3] {
        host.inbox.enqueue(SequencedReaderMessage::request(
            request_with_id("dom.query", "twice", Some(SESSION_ID)),
            sequence,
        ));
    }
    let cancel = request_with_id("protocol.cancel", "cancel", Some(SESSION_ID));
    let CancelStep::Step(step) =
        host.shell
            .cancel(cancel, Ok("twice".to_owned()), &mut host.inbox)
    else {
        panic!("no request was active");
    };
    host.perform(step);
    assert_eq!(
        host.exit.as_deref(),
        Some("ambiguous queued cancellation target")
    );
    assert_eq!(host.shell.state, ShellState::Closed);
}

#[test]
fn deadlines_bound_every_command_and_every_sleep() {
    let mut host = host(ShellState::Initialized, None);
    host.open(
        request("session.open", None),
        open_params("about:blank", CONTROLLED_WEBAPP_V1_PROFILE),
    );
    let deadline = NOW + CONTROLLED_OPEN_WALL_TIMEOUT_NS;
    let operation = host.operation();
    assert_eq!(
        stasis::shell::active_control_command_timeout(operation, deadline - 7).unwrap(),
        7
    );
    assert_eq!(
        stasis::shell::active_control_command_timeout(operation, NOW).unwrap(),
        CONTROL_COMMAND_TIMEOUT_NS.min(CONTROLLED_OPEN_WALL_TIMEOUT_NS)
    );
    assert!(stasis::shell::active_control_command_timeout(operation, deadline).is_err());
    assert_eq!(
        host.shell.next_wait_deadline(None, NOW),
        (NOW + OWNER_LOOP_SAFETY_TIMEOUT_NS).min(deadline)
    );
    assert_eq!(host.shell.next_wait_deadline(Some(NOW + 3), NOW), NOW + 3);
}

#[test]
fn urls_of_the_web_alone_are_navigated_to() {
    let url = read_navigation_url("HTTP://Example.test/%7Ea/../b").unwrap();
    assert_eq!(url.text, "http://example.test/b");
    assert!(url.is_web());
    assert_eq!(
        read_navigation_url("https://").unwrap_err().code,
        "invalid_request"
    );
    assert_eq!(
        accept_navigation_url(Err("empty host".to_owned()))
            .unwrap_err()
            .code,
        "invalid_request"
    );
    assert_eq!(
        read_navigation_url("javascript:alert(1)").unwrap_err().code,
        "unsupported_navigation_scheme"
    );
}

#[test]
fn an_initialization_is_valid_once_and_names_its_client() {
    let mut host = host(ShellState::Spawned, None);
    let nameless = ClientIdentity {
        name: String::new(),
        version: "1".to_owned(),
    };
    let step = host.shell.initialize(
        request("protocol.initialize", None),
        Ok(Some(nameless)),
        "0.1.0",
        &json("{}"),
    );
    host.perform(step);
    assert_eq!(
        host.last_frame()["error"]["message"],
        "client name and version must not be empty"
    );
    for code in [None, Some("invalid_state")] {
        let step = host.shell.initialize(
            request("protocol.initialize", None),
            Ok(None),
            "0.1.0",
            &json(r#"{"stasis_revision":"r"}"#),
        );
        host.perform(step);
        assert_eq!(host.last_frame()["error"]["code"].as_str(), code);
    }
    assert_eq!(host.shell.state, ShellState::Initialized);
    assert!(find_method("no.such.method").is_none());
    assert!(check_audit_limit(Some(0)).is_err());
}

#[test]
fn a_close_with_refused_parameters_leaves_the_session_open() {
    let mut host = host(ShellState::Open, Some(controlled()));
    let refused = ProtocolError::invalid_request("unknown field `force`");
    let close = request("session.close", Some(SESSION_ID));
    match host.shell.begin_close(close, Err(refused)) {
        CloseStep::Step(step) => host.perform(step),
        CloseStep::Close(_) => panic!("the parameters were refused"),
    }
    assert_eq!(host.shell.state, ShellState::Open);
    assert!(host.shell.engine.is_some());
    assert_eq!(host.frames.len(), 1);
    assert_eq!(host.frames[0]["error"]["code"], "invalid_request");
    assert_eq!(host.frames[0]["error"]["message"], "unknown field `force`");
    assert_eq!(host.frames[0]["sessionId"], SESSION_ID);

    let close = request("session.close", Some(SESSION_ID));
    assert!(matches!(
        host.shell.begin_close(close, Ok(())),
        CloseStep::Close(request) if request.method == "session.close"
    ));
}

#[test]
fn the_reader_goes_on_only_after_a_close_that_did_not_happen() {
    assert_eq!(close_disposition(false, false), ReaderCloseDisposition::Resume);
    assert_eq!(close_disposition(true, false), ReaderCloseDisposition::Stop);
    assert_eq!(close_disposition(false, true), ReaderCloseDisposition::Stop);
    assert_eq!(close_disposition(true, true), ReaderCloseDisposition::Stop);
}

#[test]
fn an_audit_page_is_published_only_after_an_observation() {
    let mut host = host(ShellState::Open, Some(controlled_session()));
    let step = host.shell.begin_session_audit(
        request("session.requests", Some(SESSION_ID)),
        Ok(Arc::new(json("{\"requests\":[]}"))),
        None,
        NOW,
    );
    host.perform(step);
    assert_eq!(host.submitted, vec![DocumentControlCommand::Observe]);
    assert!(host.frames.is_empty());
    assert!(matches!(
        &host.shell.active,
        Some(ActiveRequest {
            operation: ActiveOperation::Audit(_),
            ..
        })
    ));
}

#[test]
fn an_audit_page_that_was_refused_is_answered_at_once() {
    let mut host = host(ShellState::Open, Some(controlled_session()));
    let step = host.shell.begin_session_audit(
        request("session.requests", Some(SESSION_ID)),
        Err(ProtocolError::invalid_request("invalid session audit page limit")),
        None,
        NOW,
    );
    host.perform(step);
    assert!(host.submitted.is_empty());
    assert!(host.shell.active.is_none());
    assert_eq!(host.frames[0]["error"]["code"], "invalid_request");
}

#[test]
fn a_failed_input_is_told_once_and_ends_the_shell() {
    let mut host = host(ShellState::Open, Some(controlled()));
    let error = ProtocolError::fatal("empty_frame", "empty NDJSON frame");
    let step = host.shell.reader_failed(error);
    host.perform(step);
    assert_eq!(host.frames.len(), 1);
    assert_eq!(host.frames[0]["type"], "event");
    assert_eq!(host.frames[0]["event"], "protocol.fatal");
    assert_eq!(host.frames[0]["error"]["code"], "empty_frame");
    assert_eq!(host.exit.as_deref(), Some("empty NDJSON frame"));
    assert!(host.shell.engine.is_none());
    assert_eq!(host.closes, 1);
}

#[test]
fn the_shell_is_drained_when_the_input_has_ended_and_nothing_is_active() {
    let mut host = host(ShellState::Open, Some(controlled()));
    assert!(host.shell.is_drained(true, true));
    assert!(!host.shell.is_drained(false, true));
    assert!(!host.shell.is_drained(true, false));
    host.shell.active = Some(active(
        request("runtime.pending", Some(SESSION_ID)),
        SessionProfile::ControlledWebappV1,
        ActiveOperation::Pending,
        RequestStateEffect::Nothing,
    ));
    assert!(!host.shell.is_drained(true, true));
    host.shell.abortive_close();
    assert!(host.shell.engine.is_none());
    assert!(host.shell.active.is_none());
    assert!(host.shell.is_drained(true, true));
}

#[test]
fn a_policy_and_a_result_that_cannot_be_resolved_are_told_with_their_reasons() {
    let error = settlement_policy_error("TurnLimitZero");
    assert_eq!(error.code, "invalid_request");
    assert_eq!(error.message, "invalid settlement policy: TurnLimitZero");
    assert!(!error.fatal);
    let error = serialize_immediate_error("key must be a string");
    assert_eq!(error.code, "internal_runtime_failure");
    assert_eq!(
        error.message,
        "failed to serialize public session result: key must be a string"
    );
    assert!(error.fatal);
    assert_eq!(error.state_effect, "none");
}
