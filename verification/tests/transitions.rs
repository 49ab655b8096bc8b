use std::collections::VecDeque;
use std::sync::Arc;

use serde_json::Value;
use stasis::active::{
    ActiveFailure, ActiveOperation, ActiveRequest, ActiveTransition, AdvanceToNextState, Answers,
    AuditState, AutomationState, CompletedAutomation, Consultation, ControlledOpenState,
    NavigatePhase, NavigateState, PublicAutomationKind, SessionProjectionKind,
    SessionProjectionPhase, SessionProjectionState, SettleHostWait, SettlePolicy,
    SettleProjectionResume, SettleReplacementPhase, SettleResponse, SettleState,
    UnresolvedAutomationParams,
};
use stasis::authority::{
    classify_replacement_activation_observation, exact_replacement_admission,
    explicit_navigation_chain_reached_controlled_ready,
    explicit_navigation_reached_controlled_ready, held_drive_replacement_target_progressed,
    initial_navigation_reached_controlled_ready, same_authority, same_target, ActiveTopLevel,
    PendingTarget, ReplacementActivationObservation, ReplacementAdmission,
    SessionNavigationAuthority, SessionNavigationCounter, SessionNavigationTerminal, UrlScheme,
};
use stasis::control::{
    AdvanceToken, BoundAutomation, CurrentDocumentStateAuthority, DocumentControlAction,
    DocumentControlCommand, DocumentControlError, DocumentControlObservation,
    DocumentControlOutcome, DocumentControlReceiveOutcome, NavigationOperationCompletion,
    NavigationOperationKind, PendingSnapshot, SameDocumentSessionTransition,
    SessionAutomationBindError, SessionNavigationError, SettleCompletion, SettleFailure,
    SettleFailureKind, SettleProgress, SettleWait,
};
use stasis::control_step::transition_from_control_completion;
use stasis::engine::{
    EngineClockMode, EngineControlPoll, EngineNavigationPoll, EngineSession,
};
use stasis::failure::{session_navigation_failure, settle_failure_for_response};
use stasis::navigation_step::transition_from_navigation_completion;
use stasis::network::{ControlledNetworkFailure, ControlledNetworkSnapshot};
use stasis::operation::ControlOperationCompletion;
use stasis::profile::{
    DocumentControlProfile, RequestStateEffect, SessionProfile, SESSION_ID,
};
use stasis::request::Request;
use stasis::settle::{
    active_operation_suppresses_servo_pump, resume_session_projection_at_replacement,
    session_projection_allows_replacement_rearm, should_pump_servo,
    transition_from_settle_progress_for_active,
};
use stasis::shell::{Finish, Shell, ShellState, ShellStep};
use stasis::shell_poll::{ControlStep, EvidenceRecord, NavigationNext};
use stasis::writer::ProtocolWriter;

const NOW: u64 = 1_000_000_000_000;
const V1: SessionProfile = SessionProfile::ControlledWebSessionV1;

fn json(text: &str) -> Value {
    serde_json::from_str(text).unwrap()
}

fn test_document_token(alias: u128) -> String {
    format!("document:71717171717171717171717171717171:{alias}")
}

fn request(method: &str, session_id: Option<&str>) -> Request {
    Request {
        v: 1,
        kind: "request".to_owned(),
        id: "test-1".to_owned(),
        session_id: session_id.map(str::to_owned),
        method: method.to_owned(),
        params: json("{}"),
    }
}

fn target_copy(target: &PendingTarget) -> PendingTarget {
    PendingTarget {
        webview_id: target.webview_id,
        event_loop_id: target.event_loop_id,
        active_top_level: target.active_top_level,
        navigation_revision: target.navigation_revision,
        pipeline_membership_revision: target.pipeline_membership_revision,
        unsupported_time_surface: target.unsupported_time_surface,
        pipelines: target.pipelines.clone(),
        fully_active_pipelines: target.fully_active_pipelines.clone(),
        pending_top_level_pipelines: target.pending_top_level_pipelines.clone(),
    }
}

fn authority_copy(authority: &SessionNavigationAuthority) -> SessionNavigationAuthority {
    SessionNavigationAuthority {
        target: authority.target.clone(),
        document_epoch: authority.document_epoch,
        navigation_id: authority.navigation_id,
        history_revision: authority.history_revision,
        successful_document_replacements: authority.successful_document_replacements,
        url: authority.url.clone(),
        scheme: authority.scheme,
        terminal: authority.terminal,
    }
}

fn session_authority(
    document_epoch: u64,
    navigation_id: u64,
    history_revision: u64,
    successful_document_replacements: u64,
) -> Arc<SessionNavigationAuthority> {
    Arc::new(SessionNavigationAuthority {
        target: Arc::new(PendingTarget {
            webview_id: 1,
            event_loop_id: 1,
            active_top_level: Some(ActiveTopLevel {
                pipeline_id: 1,
                document_epoch: 1,
            }),
            navigation_revision: navigation_id,
            pipeline_membership_revision: document_epoch,
            unsupported_time_surface: None,
            pipelines: vec![1],
            fully_active_pipelines: vec![1],
            pending_top_level_pipelines: Vec::new(),
        }),
        document_epoch,
        navigation_id,
        history_revision,
        successful_document_replacements,
        url: "https://example.test/".to_owned(),
        scheme: UrlScheme::Https,
        terminal: None,
    })
}

fn replacement_admission_authority(
    source: &SessionNavigationAuthority,
) -> Arc<SessionNavigationAuthority> {
    let source_pipeline_id = source.target.active_top_level.unwrap().pipeline_id;
    let pipeline_id = source_pipeline_id + 1;
    let mut target = target_copy(&source.target);
    target.navigation_revision += 1;
    target.pipeline_membership_revision += 1;
    target.pipelines = vec![source_pipeline_id, pipeline_id];
    target.fully_active_pipelines = vec![source_pipeline_id];
    target.pending_top_level_pipelines = vec![pipeline_id];
    let mut admitted = authority_copy(source);
    admitted.target = Arc::new(target);
    admitted.navigation_id += 1;
    admitted.url = "https://example.test/next".to_owned();
    Arc::new(admitted)
}

fn terminal_session_authority(
    source: &SessionNavigationAuthority,
    terminal: SessionNavigationTerminal,
) -> Arc<SessionNavigationAuthority> {
    let mut authority = authority_copy(source);
    authority.terminal = Some(terminal);
    Arc::new(authority)
}

fn activated_replacement_authority(
    source: &SessionNavigationAuthority,
    admitted: &SessionNavigationAuthority,
) -> Arc<SessionNavigationAuthority> {
    let pipeline_id = admitted.target.pending_top_level_pipelines[0];
    let mut target = target_copy(&admitted.target);
    target.active_top_level = Some(ActiveTopLevel {
        pipeline_id,
        document_epoch: 2,
    });
    target.navigation_revision += 2;
    target.pipeline_membership_revision += 1;
    target.pipelines = vec![pipeline_id];
    target.fully_active_pipelines = vec![pipeline_id];
    target.pending_top_level_pipelines = Vec::new();
    let mut activated = authority_copy(admitted);
    activated.target = Arc::new(target);
    activated.document_epoch = source.document_epoch + 1;
    activated.successful_document_replacements = source.successful_document_replacements + 1;
    activated.url = "https://example.test/final".to_owned();
    Arc::new(activated)
}

fn activated_replacement_source_retained_authority(
    source: &SessionNavigationAuthority,
    admitted: &SessionNavigationAuthority,
) -> Arc<SessionNavigationAuthority> {
    let source_pipeline_id = source.target.active_top_level.unwrap().pipeline_id;
    let pipeline_id = admitted.target.pending_top_level_pipelines[0];
    let activated = activated_replacement_authority(source, admitted);
    let mut target = target_copy(&activated.target);
    target.pipeline_membership_revision = admitted.target.pipeline_membership_revision;
    target.pipelines = vec![source_pipeline_id, pipeline_id];
    let mut retained = authority_copy(&activated);
    retained.target = Arc::new(target);
    Arc::new(retained)
}

/// The same document after its history changed.
fn history_changed(
    source: &SessionNavigationAuthority,
    history_revision: u64,
    url: &str,
) -> Arc<SessionNavigationAuthority> {
    let mut changed = authority_copy(source);
    changed.history_revision = history_revision;
    changed.url = url.to_owned();
    Arc::new(changed)
}

fn pending_for_authority(
    authority: &SessionNavigationAuthority,
    state_generation: u64,
) -> Arc<PendingSnapshot> {
    Arc::new(PendingSnapshot {
        identity: state_generation,
        state_generation,
        now_ns: 5,
        has_next_deadline: false,
        target: authority.target.clone(),
    })
}

fn completed_outcome(
    action: DocumentControlAction,
    pending: Arc<PendingSnapshot>,
    advance_token: Option<AdvanceToken>,
) -> Arc<DocumentControlReceiveOutcome> {
    Arc::new(DocumentControlReceiveOutcome::CommandOutcome {
        outcome: DocumentControlOutcome::Completed(Arc::new(DocumentControlObservation {
            action,
            pending,
            advance_token,
        })),
        fault: None,
    })
}

fn observed_outcome(pending: Arc<PendingSnapshot>) -> Arc<DocumentControlReceiveOutcome> {
    completed_outcome(DocumentControlAction::Observed, pending, None)
}

fn turn_processed_outcome(pending: Arc<PendingSnapshot>) -> Arc<DocumentControlReceiveOutcome> {
    completed_outcome(DocumentControlAction::TurnProcessed, pending, None)
}

/// A rejection; with a `fault` it does not belong to its command.
fn rejected(
    error: DocumentControlError,
    fault: Option<&str>,
) -> Arc<DocumentControlReceiveOutcome> {
    Arc::new(DocumentControlReceiveOutcome::CommandOutcome {
        outcome: DocumentControlOutcome::Rejected {
            error,
            diagnostic: format!("{error:?}"),
        },
        fault: fault.map(str::to_owned),
    })
}

fn observed(
    navigation: &Arc<SessionNavigationAuthority>,
) -> NavigationOperationCompletion {
    NavigationOperationCompletion::response(
        NavigationOperationKind::Observe,
        Ok(navigation.clone()),
    )
}

fn active(
    method: &str,
    operation: ActiveOperation,
    state_effect: RequestStateEffect,
) -> ActiveRequest {
    ActiveRequest {
        request: request(method, Some(SESSION_ID)),
        profile: Some(V1),
        operation,
        started_at: NOW,
        in_flight: None,
        control_turn_observed: None,
        needs_initial_pump: false,
        state_effect,
    }
}

fn settle_state(authorizing_navigation: Option<Arc<SessionNavigationAuthority>>) -> SettleState {
    let latest_pending_target = authorizing_navigation
        .as_ref()
        .map(|navigation| navigation.target.clone());
    SettleState {
        profile: V1,
        authorizing_document_state: None,
        authorizing_observation: None,
        authorizing_navigation,
        replacement: None,
        authority_bound_command: None,
        latest_pending_target,
        response: SettleResponse::Runtime,
        effective_policy: SettlePolicy::ProductDefault,
        cumulative_external_io_wall_time_ns: 0,
        waiting: None,
    }
}

/// The permission to advance to the one finite timer of the document.
fn finite_timer(
    source: &SessionNavigationAuthority,
    state_generation: u64,
) -> (Arc<PendingSnapshot>, AdvanceToken) {
    let pending = Arc::new(PendingSnapshot {
        identity: state_generation,
        state_generation,
        now_ns: 5,
        has_next_deadline: true,
        target: source.target.clone(),
    });
    (
        pending,
        AdvanceToken {
            id: 17,
            deadline_ns: 25,
        },
    )
}

fn advance_settle_active(
    source: &Arc<SessionNavigationAuthority>,
) -> (ActiveRequest, Arc<PendingSnapshot>, AdvanceToken) {
    let (pending, token) = finite_timer(source, 7);
    let active = active(
        "runtime.settle",
        ActiveOperation::Settle(settle_state(Some(source.clone()))),
        RequestStateEffect::Nothing,
    );
    (active, pending, token)
}

fn token_authorizing_settle_active(
    pending: &Arc<PendingSnapshot>,
) -> ActiveRequest {
    let mut state = settle_state(None);
    state.authorizing_document_state = Some(Arc::new(CurrentDocumentStateAuthority {
        id: 1,
        target: pending.target.clone(),
        state_generation: pending.state_generation,
    }));
    active(
        "runtime.settle",
        ActiveOperation::Settle(state),
        RequestStateEffect::Nothing,
    )
}

fn indeterminate_drive_settle_active(source: &Arc<SessionNavigationAuthority>) -> ActiveRequest {
    let mut state = settle_state(Some(source.clone()));
    state.replacement = Some(SettleReplacementPhase::AwaitingAdmission {
        source: source.clone(),
        drive_outcome: Arc::new(DocumentControlReceiveOutcome::CommandOutcome {
            outcome: DocumentControlOutcome::DriveOneTurnOutcomeIndeterminate {
                target: source.target.clone(),
            },
            fault: None,
        }),
    });
    active(
        "runtime.settle",
        ActiveOperation::Settle(state),
        RequestStateEffect::Partial,
    )
}

fn held_drive_settle_active(source: &Arc<SessionNavigationAuthority>) -> ActiveRequest {
    let mut state = settle_state(Some(source.clone()));
    state.authority_bound_command = Some(DocumentControlCommand::DriveOneTurn);
    active(
        "runtime.settle",
        ActiveOperation::Settle(state),
        RequestStateEffect::Nothing,
    )
}

fn settle_of(active: &ActiveRequest) -> &SettleState {
    match &active.operation {
        ActiveOperation::Settle(state) => state,
        operation => panic!("settlement state was lost: {operation:?}"),
    }
}

/// The services of the engine: the replies that its coordinator gives, the document state that the
/// latest token names, and every question that was asked.
struct Services {
    replies: VecDeque<Result<SettleProgress, SettleFailure>>,
    source: Option<Arc<SessionNavigationAuthority>>,
    stale: bool,
    asked: Vec<Consultation>,
}

fn services(replies: Vec<SettleProgress>) -> Services {
    Services {
        replies: replies.into_iter().map(Ok).collect(),
        source: None,
        stale: false,
        asked: Vec::new(),
    }
}

fn token_services(source: &Arc<SessionNavigationAuthority>) -> Services {
    let mut services = services(Vec::new());
    services.source = Some(source.clone());
    services
}

impl Services {
    fn answer(&mut self, consultation: Consultation, answers: &mut Answers) {
        match &consultation {
            Consultation::ClassifySameDocument { source, navigation } => {
                assert!(answers.same_document.is_none());
                let same_document = same_target(&source.target, &navigation.target)
                    && source.document_epoch == navigation.document_epoch
                    && source.navigation_id == navigation.navigation_id
                    && source.successful_document_replacements
                        == navigation.successful_document_replacements;
                answers.same_document = Some(if same_authority(source, navigation) {
                    Some(SameDocumentSessionTransition::Unchanged)
                } else if same_document && navigation.history_revision > source.history_revision {
                    Some(SameDocumentSessionTransition::Changed)
                } else {
                    None
                });
            },
            Consultation::MatchNavigation { navigation, .. } => {
                let source = self.source.as_ref().unwrap();
                answers.matches_navigation = Some(same_authority(source, navigation));
            },
            Consultation::LatchStale { .. } => {
                self.stale = true;
                answers.latched = Some(true);
            },
            Consultation::AuthorizeDocumentState { .. } => {
                answers.authorized = Some(Ok(!self.stale));
            },
            Consultation::DocumentStateToken { .. } => {
                answers.token = Some(Ok(Arc::new(Value::from(test_document_token(1)))));
            },
            Consultation::BindAutomation { params, .. } => {
                answers.bound = Some(match params {
                    UnresolvedAutomationParams::Session(0) => {
                        Err(SessionAutomationBindError::StaleStateToken)
                    },
                    UnresolvedAutomationParams::Session(id)
                    | UnresolvedAutomationParams::Legacy(id) => Ok(BoundAutomation {
                        id: *id,
                        mutating: true,
                    }),
                });
            },
            Consultation::ProjectAutomation { pending, .. }
            | Consultation::ProjectPending { pending }
            | Consultation::ProjectAdvance { pending, .. }
            | Consultation::ProjectNavigation { pending, .. } => {
                let mut value = serde_json::Map::new();
                value.insert(
                    "stateGeneration".to_owned(),
                    Value::from(pending.state_generation.to_string()),
                );
                answers.projected = Some(Ok(Arc::new(Value::Object(value))));
            },
            Consultation::ProjectSettlement { .. } => {
                answers.projected = Some(Ok(Arc::new(json(r#"{"outcome":"quiescent"}"#))));
            },
            _ => {
                assert!(answers.progress.is_none());
                let reply = self.replies.pop_front();
                answers.progress = Some(reply.expect("the coordinator was asked once more"));
            },
        }
        self.asked.push(consultation);
    }

    fn navigation_completed(
        &mut self,
        active: &mut ActiveRequest,
        completion: NavigationOperationCompletion,
        network_operations: usize,
    ) -> ActiveTransition {
        let mut answers = Answers::none();
        loop {
            match transition_from_navigation_completion(
                active,
                &completion,
                network_operations,
                &answers,
            ) {
                ActiveTransition::Consult(consultation) => {
                    self.answer(consultation, &mut answers)
                },
                transition => return transition,
            }
        }
    }

    fn control_completed(
        &mut self,
        active: &mut ActiveRequest,
        command: DocumentControlCommand,
        outcome: Arc<DocumentControlReceiveOutcome>,
        network_operations: usize,
    ) -> ActiveTransition {
        let mut answers = Answers::none();
        loop {
            match transition_from_control_completion(
                active,
                command,
                &outcome,
                network_operations,
                &answers,
            ) {
                ActiveTransition::Consult(consultation) => {
                    self.answer(consultation, &mut answers)
                },
                transition => return transition,
            }
        }
    }

    /// The coordinator was never asked anything.
    fn coordinator_untouched(&self) -> bool {
        self.asked.iter().all(|question| {
            matches!(
                question,
                Consultation::MatchNavigation { .. } | Consultation::LatchStale { .. }
            )
        })
    }
}

fn drive() -> SettleProgress {
    SettleProgress::Command(DocumentControlCommand::DriveOneTurn)
}

fn observe() -> SettleProgress {
    SettleProgress::Command(DocumentControlCommand::Observe)
}

/// A host whose engine accepts every submission and notes it.
struct Host {
    shell: Shell,
    services: Services,
    network: Option<ControlledNetworkSnapshot>,
    submitted: Vec<DocumentControlCommand>,
    network_times: Vec<u128>,
    evidence: Vec<EvidenceRecord>,
    writer: ProtocolWriter<()>,
    frames: Vec<Value>,
    exit: Option<String>,
}

fn session_host(services: Services) -> Host {
    let (session, _) = EngineSession::start_with_profile(
        EngineClockMode::Controlled { initial_time_ns: 0 },
        DocumentControlProfile::TopLevelSession,
    )
    .unwrap();
    let mut shell = Shell::new(0);
    shell.state = ShellState::Open;
    shell.engine = Some(session);
    shell.profile = Some(V1);
    Host {
        shell,
        services,
        network: None,
        submitted: Vec::new(),
        network_times: Vec::new(),
        evidence: Vec::new(),
        writer: ProtocolWriter::new(()),
        frames: Vec::new(),
        exit: None,
    }
}

impl Host {
    fn perform(&mut self, step: ShellStep) {
        let next = match step {
            ShellStep::Keep => return,
            ShellStep::SubmitControl { command, .. } => {
                self.submitted.push(command);
                self.shell.control_submitted(command, 0, Ok(()))
            },
            ShellStep::SubmitNavigationObservation {
                allow_servo_pump, ..
            } => self
                .shell
                .navigation_observation_submitted(allow_servo_pump, Ok(())),
            ShellStep::SubmitNavigation { .. } => self.shell.navigation_submitted(Ok(())),
            ShellStep::Consult(consultation) => panic!("unexpected question: {consultation:?}"),
            ShellStep::Finish(Finish {
                responses, exit, ..
            }) => {
                for response in &responses {
                    let bytes = self.writer.respond(response).unwrap();
                    self.frames.push(serde_json::from_slice(&bytes).unwrap());
                }
                self.exit = exit;
                return;
            },
        };
        self.perform(next);
    }

    fn apply(&mut self, active: ActiveRequest, transition: ActiveTransition) {
        let step = self
            .shell
            .apply_active_transition(active, transition, self.network, NOW);
        self.perform(step);
    }

    fn poll_control(&mut self, outcome: Arc<DocumentControlReceiveOutcome>) {
        let poll = EngineControlPoll::Complete(ControlOperationCompletion::new(outcome));
        match self.shell.poll_active_control(poll, None, self.network, NOW) {
            ControlStep::Waiting { .. } => panic!("no control response was expected"),
            ControlStep::Step(step) => self.perform(step),
            ControlStep::Transition {
                command,
                outcome,
                network_time_ns,
            } => {
                self.network_times.extend(network_time_ns);
                let mut answers = Answers::none();
                loop {
                    let step = self.shell.apply_control_completion(
                        command,
                        &outcome,
                        None,
                        self.network,
                        &answers,
                        NOW,
                    );
                    match step {
                        ShellStep::Consult(consultation) => {
                            self.services.answer(consultation, &mut answers)
                        },
                        step => return self.perform(step),
                    }
                }
            },
        }
    }

    fn poll_navigation(&mut self, completion: NavigationOperationCompletion) {
        let mut step = self
            .shell
            .poll_active_navigation(EngineNavigationPoll::Complete(completion), None);
        if let NavigationNext::SessionStateToken(completion) = step.next {
            step = self.shell.poll_active_navigation(
                EngineNavigationPoll::Complete(completion),
                Some(Ok(Arc::new(Value::from("session-token")))),
            );
        }
        self.evidence.extend(step.records);
        match step.next {
            NavigationNext::Waiting { .. } => panic!("no navigation response was expected"),
            NavigationNext::SessionStateToken(_) => panic!("the token was asked for twice"),
            NavigationNext::Step(step) => self.perform(step),
            NavigationNext::Transition(completion) => {
                let mut answers = Answers::none();
                loop {
                    let step = self.shell.apply_navigation_completion(
                        &completion,
                        self.network,
                        &answers,
                        NOW,
                    );
                    match step {
                        ShellStep::Consult(consultation) => {
                            self.services.answer(consultation, &mut answers)
                        },
                        step => return self.perform(step),
                    }
                }
            },
        }
    }

    /// Answers commands and observations from the given document until the request ends.
    fn run(&mut self, navigation: &Arc<SessionNavigationAuthority>) {
        for _ in 0..20 {
            let Some(active) = &self.shell.active else {
                return;
            };
            match active.in_flight {
                Some(DocumentControlCommand::Observe) => {
                    self.poll_control(observed_outcome(pending_for_authority(navigation, 9)));
                },
                Some(_) => {
                    self.poll_control(turn_processed_outcome(pending_for_authority(navigation, 9)));
                },
                None => self.poll_navigation(observed(navigation)),
            }
        }
        panic!("the request did not end: {:?}", self.shell.active);
    }

    fn last_frame(&self) -> &Value {
        self.frames.last().unwrap()
    }
}

#[test]
fn rejected_v2_advance_reobserves_without_staging_network_time() {
    let source = session_authority(1, 0, 0, 0);
    let (active, _, token) = advance_settle_active(&source);
    let advance = DocumentControlCommand::AdvanceTo(token);
    let mut host = session_host(services(vec![observe()]));

    host.apply(active, ActiveTransition::Submit(advance));
    assert_eq!(host.submitted, vec![advance]);
    assert!(host.network_times.is_empty());

    host.poll_control(rejected(DocumentControlError::Other, None));
    assert_eq!(
        host.submitted,
        vec![advance, DocumentControlCommand::Observe]
    );
    assert!(host.network_times.is_empty());
    assert_eq!(
        host.shell.active.as_ref().unwrap().in_flight,
        Some(DocumentControlCommand::Observe)
    );
}

/// What a completed advance reports, where its snapshot attests the given time.
fn advanced(source: &SessionNavigationAuthority, now_ns: u128) -> Arc<DocumentControlReceiveOutcome> {
    completed_outcome(
        DocumentControlAction::TimerActivated,
        Arc::new(PendingSnapshot {
            identity: 8,
            state_generation: 8,
            now_ns,
            has_next_deadline: false,
            target: source.target.clone(),
        }),
        None,
    )
}

#[test]
fn completed_v2_advance_syncs_network_time_from_authoritative_observation_once() {
    let source = session_authority(1, 0, 0, 0);
    let (active, _, token) = advance_settle_active(&source);
    let advance = DocumentControlCommand::AdvanceTo(token);
    let mut host = session_host(services(vec![drive()]));

    host.apply(active, ActiveTransition::Submit(advance));
    assert!(host.network_times.is_empty());
    host.poll_control(advanced(&source, token.deadline_ns));
    assert_eq!(host.network_times, vec![token.deadline_ns]);
    assert_eq!(host.submitted, vec![advance]);

    host.poll_navigation(observed(&source));
    assert_eq!(
        host.submitted,
        vec![advance, DocumentControlCommand::DriveOneTurn]
    );
    assert_eq!(host.network_times, vec![token.deadline_ns]);
}

#[test]
fn malformed_completed_v2_advance_fails_before_network_time_sync() {
    let source = session_authority(1, 0, 0, 0);
    let (active, pending, token) = advance_settle_active(&source);
    let advance = DocumentControlCommand::AdvanceTo(token);
    let mut host = session_host(services(Vec::new()));

    host.apply(active, ActiveTransition::Submit(advance));
    host.poll_control(advanced(&source, pending.now_ns));
    assert_eq!(
        host.exit.as_deref(),
        Some("runtime outcome is indeterminate; session was fail-stopped")
    );
    assert!(host.shell.active.is_none());
    assert!(host.shell.engine.is_none());
    assert_eq!(host.submitted, vec![advance]);
    assert!(host.network_times.is_empty());
    let response = host.last_frame();
    assert_eq!(
        response["error"]["code"],
        "controlled_network_time_authority_diverged"
    );
    assert_eq!(response["error"]["stateEffect"], "indeterminate");
    assert_eq!(response["error"]["fatal"], true);
}

#[test]
fn indeterminate_v2_advance_remains_fatal_without_sync_or_replay() {
    let source = session_authority(1, 0, 0, 0);
    let (active, _, token) = advance_settle_active(&source);
    let advance = DocumentControlCommand::AdvanceTo(token);
    let mut host = session_host(services(Vec::new()));

    host.apply(active, ActiveTransition::Submit(advance));
    host.poll_control(Arc::new(DocumentControlReceiveOutcome::CommandOutcome {
        outcome: DocumentControlOutcome::AdvanceOutcomeIndeterminate,
        fault: None,
    }));
    assert_eq!(
        host.exit.as_deref(),
        Some("runtime outcome is indeterminate; session was fail-stopped")
    );
    assert!(host.shell.active.is_none());
    assert!(host.shell.engine.is_none());
    assert_eq!(host.submitted, vec![advance]);
    assert!(host.network_times.is_empty());
    let response = host.last_frame();
    assert_eq!(response["error"]["code"], "outcome_indeterminate");
    assert_eq!(response["error"]["stateEffect"], "indeterminate");
    assert_eq!(response["error"]["fatal"], true);
}

fn is_observe(transition: &ActiveTransition) -> bool {
    matches!(
        transition,
        ActiveTransition::Submit(DocumentControlCommand::Observe)
    )
}

fn is_drive(transition: &ActiveTransition) -> bool {
    matches!(
        transition,
        ActiveTransition::Submit(DocumentControlCommand::DriveOneTurn)
    )
}

fn is_passive(transition: &ActiveTransition) -> bool {
    matches!(
        transition,
        ActiveTransition::SubmitSessionNavigationObservation {
            allow_servo_pump: false
        }
    )
}

fn is_stale(transition: &ActiveTransition) -> bool {
    matches!(transition, ActiveTransition::RejectStaleStateToken)
}

fn failure(transition: ActiveTransition) -> ActiveFailure {
    match transition {
        ActiveTransition::Fail(failure) => failure,
        transition => panic!("the request went on: {transition:?}"),
    }
}

/// A settlement whose token was checked against the first passive observation.
fn at_document_observation(
    services: &mut Services,
    source: &Arc<SessionNavigationAuthority>,
    pending: &Arc<PendingSnapshot>,
) -> ActiveRequest {
    let mut active = token_authorizing_settle_active(pending);
    assert!(is_observe(&services.navigation_completed(
        &mut active,
        observed(source),
        0
    )));
    active
}

#[test]
fn latest_settle_token_accepts_monotonic_generation_only_after_exact_n1_d_n2_bracket() {
    let source = session_authority(1, 0, 0, 0);
    let source_pending = pending_for_authority(&source, 7);
    let mut services = token_services(&source);
    services.replies.push_back(Ok(drive()));
    let mut active = token_authorizing_settle_active(&source_pending);

    assert!(active_operation_suppresses_servo_pump(&active.operation));
    assert!(!should_pump_servo(Some(&active), true, true));

    assert!(is_observe(&services.navigation_completed(
        &mut active,
        observed(&source),
        0
    )));

    let progressed = pending_for_authority(&source, 9);
    assert!(is_passive(&services.control_completed(
        &mut active,
        DocumentControlCommand::Observe,
        observed_outcome(progressed),
        0,
    )));
    let state = settle_of(&active);
    assert!(state.authorizing_document_state.is_some());
    assert!(state.authorizing_observation.is_some());
    assert!(same_authority(
        state.authorizing_navigation.as_ref().unwrap(),
        &source
    ));
    assert!(active_operation_suppresses_servo_pump(&active.operation));
    assert!(
        !should_pump_servo(Some(&active), true, true),
        "an ambient wake pumped while D awaited N2"
    );

    assert!(is_passive(&services.navigation_completed(
        &mut active,
        observed(&source),
        0
    )));
    let state = settle_of(&active);
    assert!(state.authorizing_document_state.is_none());
    assert!(state.authorizing_observation.is_none());
    assert!(same_authority(
        state.authorizing_navigation.as_ref().unwrap(),
        &source
    ));
    assert_eq!(
        state.authority_bound_command,
        Some(DocumentControlCommand::DriveOneTurn),
    );
    assert!(same_target(
        state.latest_pending_target.as_ref().unwrap(),
        &source.target
    ));
}

#[test]
fn settle_token_bracket_rejects_n1_document_and_n2_authority_near_misses() {
    let source = session_authority(1, 0, 0, 0);
    let source_pending = pending_for_authority(&source, 7);
    let changed_url = history_changed(
        &source,
        source.history_revision,
        "https://example.test/contradictory",
    );

    let mut services = token_services(&source);
    let mut active = token_authorizing_settle_active(&source_pending);
    assert!(is_stale(&services.navigation_completed(
        &mut active,
        observed(&changed_url),
        0
    )));
    assert!(
        services.stale,
        "an N1 near miss must latch the resolved token strict-stale",
    );

    let admitted = replacement_admission_authority(&source);
    let mut services = token_services(&source);
    let mut active = at_document_observation(&mut services, &source, &source_pending);
    assert!(is_stale(&services.control_completed(
        &mut active,
        DocumentControlCommand::Observe,
        observed_outcome(pending_for_authority(&admitted, 8)),
        0,
    )));
    assert!(
        services.stale,
        "a D target near miss must latch the resolved token strict-stale",
    );

    for changed_n2 in [
        history_changed(
            &source,
            source.history_revision + 1,
            "https://example.test/",
        ),
        admitted.clone(),
    ] {
        let mut services = token_services(&source);
        let mut active = at_document_observation(&mut services, &source, &source_pending);
        assert!(is_passive(&services.control_completed(
            &mut active,
            DocumentControlCommand::Observe,
            observed_outcome(pending_for_authority(&source, 8)),
            0,
        )));
        assert!(is_stale(&services.navigation_completed(
            &mut active,
            observed(&changed_n2),
            0
        )));
        assert!(
            services.stale,
            "an N2 near miss must latch the resolved token strict-stale",
        );
    }
}

#[test]
fn settle_token_document_rejections_are_validation_first_and_do_not_start_settlement() {
    let source = session_authority(1, 0, 0, 0);
    let admitted = replacement_admission_authority(&source);
    let source_pending = pending_for_authority(&source, 7);
    let source_pipeline_id = source.target.active_top_level.unwrap().pipeline_id;
    let replacement_pipeline_id = admitted.target.pending_top_level_pipelines[0];

    for rejection in [
        DocumentControlError::TargetChanged,
        DocumentControlError::ReplacementPipelineBootstrapRequired {
            source_pipeline_id,
            pipeline_id: replacement_pipeline_id,
        },
    ] {
        let mut services = token_services(&source);
        let mut active = at_document_observation(&mut services, &source, &source_pending);
        assert!(is_stale(&services.control_completed(
            &mut active,
            DocumentControlCommand::Observe,
            rejected(rejection, None),
            0,
        )));
        assert!(
            services.stale,
            "a definitive D authority rejection must latch the token strict-stale",
        );
        let state = settle_of(&active);
        assert!(state.authorizing_observation.is_none());
        assert!(state.replacement.is_none());
        assert!(services.coordinator_untouched());
    }

    for malformed in [
        DocumentControlError::TargetChanged,
        DocumentControlError::ReplacementPipelineBootstrapRequired {
            source_pipeline_id,
            pipeline_id: source_pipeline_id,
        },
    ] {
        let mut services = token_services(&source);
        let mut active = at_document_observation(&mut services, &source, &source_pending);
        let failure = failure(services.control_completed(
            &mut active,
            DocumentControlCommand::Observe,
            rejected(malformed, Some("the rejection contradicts itself")),
            0,
        ));
        assert!(failure.fail_stop);
        assert!(failure.error.fatal);
        assert_eq!(failure.error.code, "internal_runtime_failure");
    }

    let mut services = token_services(&source);
    let mut active = at_document_observation(&mut services, &source, &source_pending);
    let failure = failure(services.control_completed(
        &mut active,
        DocumentControlCommand::Observe,
        rejected(DocumentControlError::EventLoopUnavailable, None),
        0,
    ));
    assert!(!failure.fail_stop);
    assert!(!failure.error.fatal);
    assert_eq!(failure.error.code, "document_control_rejected");
}

#[test]
fn settle_token_navigation_target_errors_latch_at_n1_and_n2() {
    let source = session_authority(1, 0, 0, 0);
    let source_pending = pending_for_authority(&source, 7);

    for at_n2 in [false, true] {
        let mut services = token_services(&source);
        let mut active = token_authorizing_settle_active(&source_pending);
        if at_n2 {
            active = at_document_observation(&mut services, &source, &source_pending);
            assert!(is_passive(&services.control_completed(
                &mut active,
                DocumentControlCommand::Observe,
                observed_outcome(source_pending.clone()),
                0,
            )));
        }
        assert!(is_stale(&services.navigation_completed(
            &mut active,
            NavigationOperationCompletion::response(
                NavigationOperationKind::Observe,
                Err(SessionNavigationError::TargetChanged),
            ),
            0,
        )));
        assert!(
            services.stale,
            "a navigation TargetChanged at N1/N2 must latch the token strict-stale",
        );
        settle_of(&active);
        assert!(services.coordinator_untouched());
    }
}

#[test]
fn settle_token_navigation_terminals_precede_stale_matching_without_starting_coordinator() {
    let source = session_authority(1, 7, 3, 0);
    let source_pending = pending_for_authority(&source, 7);

    let mut services = token_services(&source);
    let mut active = token_authorizing_settle_active(&source_pending);
    let terminal = terminal_session_authority(
        &source,
        SessionNavigationTerminal::HistoryLimitExceeded {
            limit: 10,
            observed: 10,
            navigation_id: source.navigation_id,
            history_revision: source.history_revision,
        },
    );
    let history = failure(services.navigation_completed(&mut active, observed(&terminal), 0));
    assert_eq!(history.error.code, "history_limit_exceeded");
    assert!(!history.fail_stop);
    assert!(!history.error.fatal);
    assert!(
        !services.stale,
        "a typed navigation terminal must not stale-latch the document token",
    );
    settle_of(&active);
    assert!(services.coordinator_untouched());

    let mut services = token_services(&source);
    let mut active = at_document_observation(&mut services, &source, &source_pending);
    assert!(is_passive(&services.control_completed(
        &mut active,
        DocumentControlCommand::Observe,
        observed_outcome(source_pending.clone()),
        0,
    )));
    let terminal = terminal_session_authority(
        &source,
        SessionNavigationTerminal::DocumentTransitionLimitExceeded {
            limit: 4,
            observed: 4,
            next_navigation_id: 8,
        },
    );
    let document_limit =
        failure(services.navigation_completed(&mut active, observed(&terminal), 0));
    assert_eq!(
        document_limit.error.code,
        "document_transition_limit_exceeded"
    );
    assert!(!document_limit.fail_stop);
    assert!(!services.stale);
    settle_of(&active);
    assert!(services.coordinator_untouched());

    for (terminal, expected_code, expected_effect) in [
        (
            SessionNavigationTerminal::RedirectLimitExceeded {
                limit: 20,
                observed: 21,
                navigation_id: source.navigation_id,
            },
            "redirect_limit_exceeded",
            "partial",
        ),
        (
            SessionNavigationTerminal::CounterOverflow {
                counter: SessionNavigationCounter::HistoryRevision,
            },
            "runtime_error",
            "none",
        ),
    ] {
        let mut services = token_services(&source);
        let mut active = token_authorizing_settle_active(&source_pending);
        let failure = failure(services.navigation_completed(
            &mut active,
            NavigationOperationCompletion::response(
                NavigationOperationKind::Observe,
                Err(SessionNavigationError::Terminal(terminal)),
            ),
            0,
        ));
        assert_eq!(failure.error.code, expected_code);
        assert_eq!(failure.error.state_effect, expected_effect);
        assert!(failure.fail_stop);
        assert!(failure.error.fatal);
        assert!(!services.stale);
        settle_of(&active);
        assert!(services.coordinator_untouched());
    }
}

#[test]
fn settle_token_n2_seeds_the_current_controlled_network_gate_before_deciding() {
    let source = session_authority(1, 0, 0, 0);
    let source_pending = pending_for_authority(&source, 7);
    let mut services = token_services(&source);
    let mut active = at_document_observation(&mut services, &source, &source_pending);
    assert!(is_passive(&services.control_completed(
        &mut active,
        DocumentControlCommand::Observe,
        observed_outcome(pending_for_authority(&source, 8)),
        1,
    )));
    services.replies.push_back(Ok(SettleProgress::Wait(
        SettleWait::ForegroundExternalIo {
            remaining_wall_time_ns: 9,
        },
    )));
    assert!(matches!(
        services.navigation_completed(&mut active, observed(&source), 1),
        ActiveTransition::Wait(SettleWait::ForegroundExternalIo { .. })
    ));
    assert!(matches!(
        services.asked.last(),
        Some(Consultation::StartWithObservation {
            external_io_active: true,
            ..
        })
    ));
    let state = settle_of(&active);
    assert!(state.authorizing_document_state.is_none());
    assert!(state.authorizing_observation.is_none());
    assert!(state.authority_bound_command.is_none());
}

#[test]
fn settle_token_generation_regression_is_fatal_before_coordinator_start() {
    let source = session_authority(1, 0, 0, 0);
    let source_pending = pending_for_authority(&source, 7);
    let mut services = token_services(&source);
    let mut active = at_document_observation(&mut services, &source, &source_pending);
    let failure = failure(services.control_completed(
        &mut active,
        DocumentControlCommand::Observe,
        observed_outcome(pending_for_authority(&source, 6)),
        0,
    ));
    assert!(failure.fail_stop);
    assert!(failure.error.fatal);
    assert_eq!(failure.error.code, "internal_runtime_failure");
    assert!(services.coordinator_untouched());
}

#[test]
fn held_drive_refresh_accepts_coalesced_same_document_authority() {
    let source = session_authority(1, 0, 0, 0);
    let changed = history_changed(&source, 3, "https://example.test/");
    let mut services = services(Vec::new());
    let mut active = held_drive_settle_active(&source);

    assert!(is_drive(&services.navigation_completed(
        &mut active,
        observed(&changed),
        0
    )));
    let state = settle_of(&active);
    assert!(same_authority(
        state.authorizing_navigation.as_ref().unwrap(),
        &changed
    ));
    assert!(state.authority_bound_command.is_none());
}

#[test]
fn indeterminate_drive_with_stable_authority_is_counted_once_and_reobserved() {
    let source = session_authority(1, 0, 0, 0);
    let mut active = indeterminate_drive_settle_active(&source);
    let mut services = services(vec![observe()]);

    assert!(is_observe(&services.navigation_completed(
        &mut active,
        observed(&source),
        0
    )));
    assert_eq!(
        services
            .asked
            .iter()
            .filter(|question| matches!(question, Consultation::ConsumeStableBoundary { .. }))
            .count(),
        1
    );
    let state = settle_of(&active);
    assert!(state.replacement.is_none());
    assert!(same_authority(
        state.authorizing_navigation.as_ref().unwrap(),
        &source
    ));
    assert!(same_target(
        state.latest_pending_target.as_ref().unwrap(),
        &source.target
    ));
}

#[test]
fn indeterminate_drive_with_same_document_history_change_is_reobserved() {
    let source = session_authority(1, 0, 0, 0);
    let changed = history_changed(&source, 1, "https://example.test/#changed");
    let mut active = indeterminate_drive_settle_active(&source);
    let mut services = services(vec![observe()]);

    assert!(is_observe(&services.navigation_completed(
        &mut active,
        observed(&changed),
        0
    )));
    assert!(same_authority(
        settle_of(&active).authorizing_navigation.as_ref().unwrap(),
        &changed
    ));
}

fn bootstrap_of(
    source: &SessionNavigationAuthority,
    admitted: &SessionNavigationAuthority,
) -> DocumentControlCommand {
    DocumentControlCommand::BootstrapReplacementPipeline {
        source_pipeline_id: source.target.active_top_level.unwrap().pipeline_id,
        pipeline_id: admitted.target.pending_top_level_pipelines[0],
    }
}

#[test]
fn indeterminate_drive_with_exact_replacement_still_bootstraps() {
    let source = session_authority(1, 0, 0, 0);
    let admitted = replacement_admission_authority(&source);
    let bootstrap = bootstrap_of(&source, &admitted);
    let mut active = indeterminate_drive_settle_active(&source);
    let mut services = services(vec![SettleProgress::Command(bootstrap)]);

    assert!(matches!(
        services.navigation_completed(&mut active, observed(&admitted), 0),
        ActiveTransition::Submit(command) if command == bootstrap
    ));
    match &settle_of(&active).replacement {
        Some(SettleReplacementPhase::Bootstrapping {
            source: actual_source,
            admitted: actual_admitted,
            command,
        }) => {
            assert!(same_authority(actual_source, &source));
            assert!(same_authority(actual_admitted, &admitted));
            assert_eq!(*command, bootstrap);
        },
        phase => panic!("the replacement is not being bootstrapped: {phase:?}"),
    }
}

/// An admission that skips a navigation.
fn revision_gap(
    source: &SessionNavigationAuthority,
    admitted: &SessionNavigationAuthority,
) -> Arc<SessionNavigationAuthority> {
    let mut gap = authority_copy(admitted);
    gap.navigation_id = source.navigation_id + 2;
    Arc::new(gap)
}

#[test]
fn indeterminate_drive_authority_near_miss_remains_fatal() {
    let source = session_authority(1, 0, 0, 0);
    let admitted = replacement_admission_authority(&source);
    let near_miss = revision_gap(&source, &admitted);
    let mut active = indeterminate_drive_settle_active(&source);
    let mut services = services(Vec::new());

    let failure = failure(services.navigation_completed(&mut active, observed(&near_miss), 0));
    assert!(failure.fail_stop);
    assert!(failure.error.fatal);
    assert_eq!(failure.error.code, "navigation_authority_changed");
}

#[test]
fn queued_replacement_rearms_the_unsubmitted_coordinator_drive_exactly_once() {
    let source = session_authority(1, 0, 0, 0);
    let admitted = replacement_admission_authority(&source);
    let activated = activated_replacement_authority(&source, &admitted);
    let bootstrap = bootstrap_of(&source, &admitted);
    let mut active = held_drive_settle_active(&source);
    let mut services = services(vec![SettleProgress::Command(bootstrap), drive()]);

    assert!(matches!(
        services.navigation_completed(&mut active, observed(&admitted), 0),
        ActiveTransition::Submit(command) if command == bootstrap
    ));
    assert_eq!(active.state_effect, RequestStateEffect::Partial);
    let state = settle_of(&active);
    assert!(state.authority_bound_command.is_none());
    assert!(matches!(
        state.replacement,
        Some(SettleReplacementPhase::Bootstrapping { .. })
    ));

    assert!(is_passive(&services.control_completed(
        &mut active,
        bootstrap,
        turn_processed_outcome(pending_for_authority(&activated, 8)),
        0,
    )));
    assert!(is_passive(&services.navigation_completed(
        &mut active,
        observed(&activated),
        0
    )));
    let state = settle_of(&active);
    assert!(state.replacement.is_none());
    assert_eq!(
        state.authority_bound_command,
        Some(DocumentControlCommand::DriveOneTurn),
    );
    assert!(is_drive(&services.navigation_completed(
        &mut active,
        observed(&activated),
        0
    )));
    assert_eq!(
        services
            .asked
            .iter()
            .filter(|question| matches!(question, Consultation::ReplaceUnsubmittedDrive { .. }))
            .count(),
        1
    );
}

#[test]
fn queued_replacement_rearm_rejects_owner_authority_near_misses() {
    let source = session_authority(1, 0, 0, 0);
    let admitted = replacement_admission_authority(&source);
    let gap = revision_gap(&source, &admitted);
    assert!(exact_replacement_admission(&source, &gap).is_none());

    let mut active = held_drive_settle_active(&source);
    let mut services = services(Vec::new());
    let failure = failure(services.navigation_completed(&mut active, observed(&gap), 0));
    assert!(failure.fail_stop);
    assert!(failure.error.fatal);
    assert_eq!(failure.error.code, "navigation_authority_changed");
}

fn bootstrapping_settle_active(
    source: &Arc<SessionNavigationAuthority>,
    admitted: &Arc<SessionNavigationAuthority>,
) -> ActiveRequest {
    let mut state = settle_state(Some(source.clone()));
    state.replacement = Some(SettleReplacementPhase::Bootstrapping {
        source: source.clone(),
        admitted: admitted.clone(),
        command: bootstrap_of(source, admitted),
    });
    state.latest_pending_target = Some(admitted.target.clone());
    active(
        "runtime.settle",
        ActiveOperation::Settle(state),
        RequestStateEffect::Partial,
    )
}

#[test]
fn replacement_control_outcome_is_held_until_sole_pipeline_controlled_ready() {
    let source = session_authority(1, 0, 0, 0);
    let admitted = replacement_admission_authority(&source);
    let activated = activated_replacement_authority(&source, &admitted);
    let bootstrap = bootstrap_of(&source, &admitted);
    let mut active = bootstrapping_settle_active(&source, &admitted);
    let mut services = services(vec![drive()]);

    assert!(is_passive(&services.control_completed(
        &mut active,
        bootstrap,
        turn_processed_outcome(pending_for_authority(&activated, 9)),
        0,
    )));

    assert!(is_passive(&services.navigation_completed(
        &mut active,
        observed(&activated),
        0
    )));
    let state = settle_of(&active);
    assert!(state.replacement.is_none());
    assert!(same_target(
        state.latest_pending_target.as_ref().unwrap(),
        &activated.target
    ));
    assert_eq!(
        state.authority_bound_command,
        Some(DocumentControlCommand::DriveOneTurn),
    );

    assert!(is_drive(&services.navigation_completed(
        &mut active,
        observed(&activated),
        0
    )));
    assert!(settle_of(&active).authority_bound_command.is_none());
}

#[test]
fn source_retained_activation_stays_on_the_coordinator_wait_and_drive_ledger() {
    let source = session_authority(1, 0, 0, 0);
    let admitted = replacement_admission_authority(&source);
    let retained = activated_replacement_source_retained_authority(&source, &admitted);
    let activated = activated_replacement_authority(&source, &admitted);
    assert!(held_drive_replacement_target_progressed(
        &source,
        &admitted,
        &admitted.target,
        &retained,
    ));
    assert!(held_drive_replacement_target_progressed(
        &source,
        &admitted,
        &retained.target,
        &activated,
    ));
    assert!(!held_drive_replacement_target_progressed(
        &source,
        &admitted,
        &retained.target,
        &admitted,
    ));

    let bootstrap = bootstrap_of(&source, &admitted);
    let mut active = bootstrapping_settle_active(&source, &admitted);
    let mut services = services(vec![
        SettleProgress::Wait(SettleWait::ProducerHandoff {
            remaining_wall_time_ns: 9,
        }),
        drive(),
    ]);

    assert!(is_passive(&services.control_completed(
        &mut active,
        bootstrap,
        turn_processed_outcome(pending_for_authority(&admitted, 9)),
        0,
    )));
    let wait = services.navigation_completed(&mut active, observed(&retained), 0);
    assert!(matches!(wait, ActiveTransition::Wait(_)));
    assert!(matches!(
        settle_of(&active).replacement,
        Some(SettleReplacementPhase::Activating { .. })
    ));

    let started_at = active.started_at;
    let state_effect = active.state_effect;
    let ActiveOperation::Settle(state) = &mut active.operation else {
        panic!("retained activation lost settlement state");
    };
    assert!(is_observe(&transition_from_settle_progress_for_active(
        state,
        started_at,
        &observe(),
        state_effect,
        &Answers::none(),
    )));
    assert!(is_passive(&services.control_completed(
        &mut active,
        DocumentControlCommand::Observe,
        observed_outcome(pending_for_authority(&activated, 10)),
        0,
    )));
    assert!(is_passive(&services.navigation_completed(
        &mut active,
        observed(&activated),
        0
    )));
    let state = settle_of(&active);
    assert!(state.replacement.is_none());
    assert!(same_authority(
        state.authorizing_navigation.as_ref().unwrap(),
        &activated
    ));
    assert!(same_target(
        state.latest_pending_target.as_ref().unwrap(),
        &activated.target
    ));
    assert_eq!(
        state.authority_bound_command,
        Some(DocumentControlCommand::DriveOneTurn),
    );

    assert!(is_drive(&services.navigation_completed(
        &mut active,
        observed(&activated),
        0
    )));
}

#[test]
fn replacement_completion_never_projects_before_controlled_ready() {
    let source = session_authority(1, 0, 0, 0);
    let admitted = replacement_admission_authority(&source);
    let mut state = settle_state(Some(source.clone()));
    state.replacement = Some(SettleReplacementPhase::Activating {
        source: source.clone(),
        admitted,
    });
    state.latest_pending_target = None;
    let blocked = failure(transition_from_settle_progress_for_active(
        &mut state,
        NOW,
        &SettleProgress::Complete(SettleCompletion::BlockedOnExternalIo {
            pending: pending_for_authority(&source, 11),
            active_operations: 0,
        }),
        RequestStateEffect::Partial,
        &Answers::none(),
    ));
    assert!(blocked.fail_stop);
    assert!(blocked.error.fatal);
    assert_eq!(blocked.error.code, "blocked_on_external_io");
    assert_eq!(blocked.error.state_effect, "partial");
}

fn resume(
    response: SettleResponse,
    authorizing_navigation: Option<Arc<SessionNavigationAuthority>>,
) -> SettleProjectionResume {
    SettleProjectionResume {
        profile: V1,
        effective_policy: SettlePolicy::ProductDefault,
        cumulative_external_io_wall_time_ns: 37_000_000,
        authorizing_navigation,
        response,
    }
}

#[test]
fn pending_projection_rearms_when_replacement_admission_races_its_document_observe() {
    let source = session_authority(1, 0, 0, 0);
    let admitted = replacement_admission_authority(&source);
    let source_pipeline_id = source.target.active_top_level.unwrap().pipeline_id;
    let pipeline_id = admitted.target.pending_top_level_pipelines[0];
    let mut active = active(
        "runtime.pending",
        ActiveOperation::SessionProjection(SessionProjectionState {
            pending: pending_for_authority(&source, 7),
            kind: SessionProjectionKind::Value {
                value: Arc::new(json(r#"{ "stateGeneration": "7" }"#)),
                snapshot_token: false,
                settle_resume: Some(resume(SettleResponse::Pending, None)),
            },
            phase: SessionProjectionPhase::AwaitingPendingObservation {
                navigation: source.clone(),
            },
        }),
        RequestStateEffect::Nothing,
    );
    let mut services = services(vec![SettleProgress::Command(bootstrap_of(
        &source, &admitted,
    ))]);

    assert!(is_passive(&services.control_completed(
        &mut active,
        DocumentControlCommand::Observe,
        rejected(
            DocumentControlError::ReplacementPipelineBootstrapRequired {
                source_pipeline_id,
                pipeline_id,
            },
            None,
        ),
        0,
    )));
    match &active.operation {
        ActiveOperation::SessionProjection(SessionProjectionState {
            phase:
                SessionProjectionPhase::AwaitingReplacementAdmission {
                    source: observed_source,
                    source_pipeline_id: observed_source_pipeline_id,
                    pipeline_id: observed_pipeline_id,
                },
            ..
        }) => {
            assert!(same_authority(observed_source, &source));
            assert_eq!(*observed_source_pipeline_id, source_pipeline_id);
            assert_eq!(*observed_pipeline_id, pipeline_id);
        },
        operation => panic!("the projection does not await its replacement: {operation:?}"),
    }

    assert!(matches!(
        services.navigation_completed(&mut active, observed(&admitted), 0),
        ActiveTransition::Submit(DocumentControlCommand::BootstrapReplacementPipeline {
            source_pipeline_id: observed_source,
            pipeline_id: observed_pipeline,
        }) if observed_source == source_pipeline_id && observed_pipeline == pipeline_id
    ));
    assert!(matches!(
        &active.operation,
        ActiveOperation::Settle(SettleState {
            response: SettleResponse::Pending,
            replacement: Some(SettleReplacementPhase::Bootstrapping { .. }),
            ..
        })
    ));
}

fn completed_action(
    source: &Arc<SessionNavigationAuthority>,
    pending: Arc<PendingSnapshot>,
    synchronous_navigation_emitted: bool,
) -> ActiveRequest {
    active(
        "action.activate",
        ActiveOperation::Automation(AutomationState {
            profile: V1,
            kind: PublicAutomationKind::Activate,
            unresolved: None,
            authorizing_navigation: Some(source.clone()),
            completed: Some(CompletedAutomation {
                result: 1,
                pending,
                synchronous_navigation_emitted,
            }),
        }),
        RequestStateEffect::Partial,
    )
}

#[test]
fn raw_action_projection_preserves_shape_and_uses_fresh_bracketed_generation() {
    let source = session_authority(1, 0, 0, 0);
    let mut active = completed_action(&source, pending_for_authority(&source, 7), false);
    let mut services = services(Vec::new());

    assert!(is_observe(&services.navigation_completed(
        &mut active,
        observed(&source),
        0
    )));
    assert!(is_passive(&services.control_completed(
        &mut active,
        DocumentControlCommand::Observe,
        observed_outcome(pending_for_authority(&source, 9)),
        0,
    )));
    let ActiveTransition::Complete(value) =
        services.navigation_completed(&mut active, observed(&source), 0)
    else {
        panic!("raw action did not complete after its N1/pending/N2 bracket");
    };
    assert_eq!(value["stateGeneration"], "9");
    assert_eq!(value["stateToken"], test_document_token(1));
    assert!(value.get("outcome").is_none());
    assert!(value.get("snapshot").is_none());
}

#[test]
fn synchronous_action_replacement_enters_common_settlement_without_replay() {
    let source = session_authority(1, 0, 0, 0);
    let admitted = replacement_admission_authority(&source);
    let mut active = completed_action(&source, pending_for_authority(&source, 7), true);
    let mut services = services(vec![SettleProgress::Command(bootstrap_of(
        &source, &admitted,
    ))]);

    assert!(matches!(
        services.navigation_completed(&mut active, observed(&admitted), 0),
        ActiveTransition::Submit(DocumentControlCommand::BootstrapReplacementPipeline { .. })
    ));
    assert!(matches!(
        settle_of(&active),
        SettleState {
            response: SettleResponse::Automation {
                kind: PublicAutomationKind::Activate,
                result: 1,
            },
            replacement: Some(SettleReplacementPhase::Bootstrapping { .. }),
            ..
        }
    ));
    assert!(
        active.in_flight.is_none(),
        "the action must not be replayed"
    );
}

#[test]
fn synchronous_action_same_document_change_enters_fresh_projection() {
    let source = session_authority(1, 0, 0, 0);
    let changed = history_changed(&source, 2, "https://example.test/#changed");
    let mut active = completed_action(&source, pending_for_authority(&source, 7), true);
    let mut services = services(Vec::new());

    assert!(is_observe(&services.navigation_completed(
        &mut active,
        observed(&changed),
        0
    )));
    match &active.operation {
        ActiveOperation::SessionProjection(SessionProjectionState {
            kind:
                SessionProjectionKind::Automation {
                    replacement_rearm: true,
                    ..
                },
            phase: SessionProjectionPhase::AwaitingPendingObservation { navigation },
            ..
        }) => assert!(same_authority(navigation, &changed)),
        operation => panic!("the action is not projected afresh: {operation:?}"),
    }
}

fn action_response() -> SettleResponse {
    SettleResponse::Automation {
        kind: PublicAutomationKind::Activate,
        result: 1,
    }
}

fn open_response(source: &SessionNavigationAuthority) -> SettleResponse {
    SettleResponse::ControlledOpen {
        requested_url: "https://example.test/next".to_owned(),
        current_url: source.url.clone(),
        profile: V1,
        deadline: NOW,
        bootstrap_attempted: true,
    }
}

fn navigate_response(
    source: &Arc<SessionNavigationAuthority>,
    admitted: &Arc<SessionNavigationAuthority>,
) -> SettleResponse {
    SettleResponse::Navigate {
        requested_url: "https://example.test/next".to_owned(),
        source: source.clone(),
        admitted: admitted.clone(),
    }
}

#[test]
fn open_navigate_and_synchronous_action_share_bounded_replacement_rearm() {
    let source = session_authority(1, 0, 0, 0);
    let admitted = replacement_admission_authority(&source);
    let activated = activated_replacement_authority(&source, &admitted);
    let admitted_again = replacement_admission_authority(&activated);
    let activated_again = activated_replacement_authority(&activated, &admitted_again);
    let requested_url = "https://example.test/next".to_owned();
    let cumulative_external_io_wall_time_ns = 37_000_000;
    let action_resume = || resume(action_response(), Some(source.clone()));

    assert!(!session_projection_allows_replacement_rearm(
        &SessionProjectionKind::Automation {
            settle_resume: action_resume(),
            replacement_rearm: false,
        }
    ));
    assert!(session_projection_allows_replacement_rearm(
        &SessionProjectionKind::Automation {
            settle_resume: action_resume(),
            replacement_rearm: true,
        }
    ));
    assert!(session_projection_allows_replacement_rearm(
        &SessionProjectionKind::ControlledOpen {
            requested_url: requested_url.clone(),
            current_url: source.url.clone(),
            profile: V1,
            deadline: NOW,
            bootstrap_attempted: true,
            cumulative_external_io_wall_time_ns,
            session_state_token: None,
            settle_resume: Some(action_resume()),
        }
    ));
    assert!(session_projection_allows_replacement_rearm(
        &SessionProjectionKind::Navigate {
            requested_url: requested_url.clone(),
            source: source.clone(),
            admitted: admitted.clone(),
            cumulative_external_io_wall_time_ns,
            settle_resume: Some(action_resume()),
        }
    ));

    let restarted = |resume: &SettleProjectionResume,
                     source: &Arc<SessionNavigationAuthority>,
                     admitted: &Arc<SessionNavigationAuthority>| {
        let mut answers = Answers::none();
        answers.progress = Some(Ok(SettleProgress::Command(bootstrap_of(source, admitted))));
        resume_session_projection_at_replacement(
            resume,
            source,
            admitted,
            &source.target,
            RequestStateEffect::Partial,
            &answers,
        )
    };
    for response in [
        action_response(),
        open_response(&source),
        navigate_response(&source, &admitted),
    ] {
        let expected_response = std::mem::discriminant(&response);
        let resume = resume(response, Some(source.clone()));
        let Ok((operation, transition)) = restarted(&resume, &source, &admitted) else {
            panic!("exact replacement failed to resume common settlement");
        };
        assert!(matches!(
            transition,
            ActiveTransition::Submit(DocumentControlCommand::BootstrapReplacementPipeline { .. })
        ));
        let ActiveOperation::Settle(state) = operation else {
            panic!("replacement carry did not resume common settlement");
        };
        assert_eq!(std::mem::discriminant(&state.response), expected_response);
        assert_eq!(
            state.cumulative_external_io_wall_time_ns,
            cumulative_external_io_wall_time_ns,
        );
        assert!(matches!(
            state.replacement,
            Some(SettleReplacementPhase::Bootstrapping { .. })
        ));
    }

    assert!(explicit_navigation_reached_controlled_ready(
        &source, &admitted, &activated,
    ));
    assert_eq!(
        exact_replacement_admission(&activated, &admitted_again)
            .map(|admission| admission.pipeline_id),
        Some(admitted_again.target.pending_top_level_pipelines[0]),
    );
    assert!(explicit_navigation_reached_controlled_ready(
        &activated,
        &admitted_again,
        &activated_again,
    ));
    assert!(explicit_navigation_chain_reached_controlled_ready(
        &source,
        &activated_again,
    ));
    let second_resume = resume(action_response(), Some(activated.clone()));
    assert!(restarted(&second_resume, &activated, &admitted_again).is_ok());
}

#[test]
fn post_action_navigation_drift_and_continuation_rejections_fail_stop() {
    let source = session_authority(1, 0, 0, 0);
    let admitted = replacement_admission_authority(&source);
    for error in [
        SessionNavigationError::NavigationInProgress,
        SessionNavigationError::SourceInactive,
        SessionNavigationError::TargetChanged,
    ] {
        let failure = failure(session_navigation_failure(
            &error,
            NavigationOperationKind::Observe,
            RequestStateEffect::Partial,
        ));
        assert!(failure.fail_stop);
        assert!(failure.error.fatal);
        assert_eq!(failure.error.state_effect, "partial");
    }

    for response in [
        action_response(),
        open_response(&source),
        navigate_response(&source, &admitted),
    ] {
        let failure = settle_failure_for_response(
            &SettleFailure {
                kind: SettleFailureKind::ControlRejected,
                diagnostic: "EventLoopUnavailable".to_owned(),
            },
            RequestStateEffect::Partial,
            None,
            &response,
        );
        assert!(failure.fail_stop);
        assert!(failure.error.fatal);
        assert_eq!(failure.error.state_effect, "partial");
    }

    let mut transport_active = completed_action(&source, pending_for_authority(&admitted, 7), true);
    let mut services = services(Vec::new());
    let transport = failure(services.navigation_completed(
        &mut transport_active,
        NavigationOperationCompletion::transport_failure(NavigationOperationKind::Observe),
        0,
    ));
    assert!(transport.fail_stop);
    assert!(transport.error.fatal);
    assert_eq!(transport.error.state_effect, "partial");
}

#[test]
fn explicit_navigation_requires_the_admitted_replacement_activation() {
    let source = session_authority(1, 0, 0, 0);
    let admitted = replacement_admission_authority(&source);
    let activated_source_retained =
        activated_replacement_source_retained_authority(&source, &admitted);
    let activated = activated_replacement_authority(&source, &admitted);
    assert_eq!(
        exact_replacement_admission(&source, &admitted),
        Some(ReplacementAdmission {
            source_pipeline_id: source.target.active_top_level.unwrap().pipeline_id,
            pipeline_id: admitted.target.pending_top_level_pipelines[0],
        })
    );
    assert!(explicit_navigation_reached_controlled_ready(
        &source, &admitted, &activated,
    ));
    assert_eq!(
        classify_replacement_activation_observation(&source, &admitted, &admitted),
        ReplacementActivationObservation::Pending,
    );
    assert_eq!(
        classify_replacement_activation_observation(
            &source,
            &admitted,
            &activated_source_retained,
        ),
        ReplacementActivationObservation::ActivatedAwaitingSourceExit,
    );
    assert_eq!(
        classify_replacement_activation_observation(&source, &admitted, &activated),
        ReplacementActivationObservation::ControlledReady,
    );
    assert!(!explicit_navigation_reached_controlled_ready(
        &source, &admitted, &source,
    ));
    assert_eq!(
        classify_replacement_activation_observation(&source, &admitted, &source),
        ReplacementActivationObservation::Invalid,
    );
    assert!(initial_navigation_reached_controlled_ready(&source));
    assert!(!initial_navigation_reached_controlled_ready(&activated));

    let gap = revision_gap(&source, &admitted);
    assert_eq!(exact_replacement_admission(&source, &gap), None);
}

#[test]
fn reserved_navigation_start_failure_is_fatal_and_does_not_echo_schemes() {
    let start_failed = failure(session_navigation_failure(
        &SessionNavigationError::NavigationStartFailed {
            observed: session_authority(1, 1, 0, 0),
        },
        NavigationOperationKind::Navigate,
        RequestStateEffect::Nothing,
    ));
    assert!(start_failed.fail_stop);
    assert!(start_failed.error.fatal);
    assert_eq!(start_failed.error.state_effect, "partial");
    assert_eq!(start_failed.error.details.unwrap()["navigationId"], "1");

    let secret_scheme = "SECRET-SCHEME-CANARY";
    let unsupported = failure(session_navigation_failure(
        &SessionNavigationError::UnsupportedScheme {
            scheme: secret_scheme.to_owned(),
        },
        NavigationOperationKind::Observe,
        RequestStateEffect::Partial,
    ));
    assert!(unsupported.fail_stop);
    assert!(unsupported.error.fatal);
    assert!(!unsupported.error.message.contains(secret_scheme));
}

#[test]
fn app_terminal_evidence_never_records_false_commit_or_settlement() {
    let mut host = session_host(services(Vec::new()));
    let step = host.shell.begin_automation_request(
        request("action.fill", Some(SESSION_ID)),
        PublicAutomationKind::Fill,
        Ok(UnresolvedAutomationParams::Session(1)),
        None,
        NOW,
    );
    host.perform(step);
    host.shell.active.as_mut().unwrap().state_effect = RequestStateEffect::Partial;
    host.poll_navigation(NavigationOperationCompletion::response(
        NavigationOperationKind::Observe,
        Err(SessionNavigationError::Terminal(
            SessionNavigationTerminal::HistoryLimitExceeded {
                limit: 10_000,
                observed: 10_000,
                navigation_id: 7,
                history_revision: 10_000,
            },
        )),
    ));
    assert!(host.exit.is_some());
    assert_eq!(host.shell.state, ShellState::Closed);
    assert_eq!(host.evidence.len(), 1);
    assert!(matches!(
        host.evidence[0],
        EvidenceRecord::NavigationFailed(7, _)
    ));
    let response = host.last_frame();
    assert_eq!(response["error"]["code"], "history_limit_exceeded");
    assert_eq!(response["error"]["stateEffect"], "partial");
    assert_eq!(response["error"]["fatal"], true);
}

#[test]
fn a_controlled_session_opens_through_settlement_and_projection() {
    let source = session_authority(1, 0, 0, 0);
    let mut host = session_host(services(vec![
        observe(),
        SettleProgress::Complete(SettleCompletion::Quiescent {
            pending: pending_for_authority(&source, 9),
        }),
    ]));
    let mut open = active(
        "session.open",
        ActiveOperation::ControlledOpen(ControlledOpenState {
            requested_url: "https://example.test/".to_owned(),
            current_url: "https://example.test/".to_owned(),
            profile: V1,
            deadline: NOW + 1_000,
            readiness_waiting: None,
            bootstrap_attempted: false,
            settlement: None,
        }),
        RequestStateEffect::Nothing,
    );
    open.in_flight = Some(DocumentControlCommand::Observe);
    host.shell.active = Some(open);
    host.run(&source);
    let response = host.last_frame();
    assert_eq!(response["error"], Value::Null, "{response}");
    assert_eq!(response["sessionId"], SESSION_ID);
    assert_eq!(response["result"]["stateToken"], test_document_token(1));
    assert_eq!(response["result"]["sessionStateToken"], "session-token");
    assert!(host.shell.active.is_none());
    assert_eq!(
        host.evidence,
        vec![
            EvidenceRecord::NavigationStarted(0),
            EvidenceRecord::NavigationCommitted(0),
            EvidenceRecord::SettlementTerminal(0),
        ]
    );
}

#[test]
fn an_explicit_navigation_runs_from_its_token_to_its_answer() {
    let source = session_authority(1, 0, 0, 0);
    let admitted = replacement_admission_authority(&source);
    let activated = activated_replacement_authority(&source, &admitted);
    let bootstrap = bootstrap_of(&source, &admitted);
    let mut host = session_host(services(vec![
        SettleProgress::Command(bootstrap),
        SettleProgress::Complete(SettleCompletion::Quiescent {
            pending: pending_for_authority(&activated, 9),
        }),
    ]));
    host.shell.last_navigation_authority = Some(source.clone());
    let step = host.shell.begin_session_navigate(
        request("session.navigate", Some(SESSION_ID)),
        Ok((
            "https://example.test/next".to_owned(),
            test_document_token(1),
        )),
        None,
        NOW,
    );
    host.perform(step);
    host.poll_navigation(observed(&source));
    host.poll_control(observed_outcome(pending_for_authority(&source, 7)));
    host.poll_navigation(NavigationOperationCompletion::response(
        NavigationOperationKind::Navigate,
        Ok(admitted.clone()),
    ));
    assert_eq!(
        host.evidence,
        vec![EvidenceRecord::NavigationStarted(admitted.navigation_id)]
    );
    assert_eq!(
        host.shell.active.as_ref().unwrap().in_flight,
        Some(bootstrap)
    );
    host.run(&activated);
    let response = host.last_frame();
    assert_eq!(response["error"], Value::Null, "{response}");
    assert!(host.shell.active.is_none());
    assert!(host
        .evidence
        .contains(&EvidenceRecord::NavigationCommitted(activated.navigation_id)));
    assert_eq!(
        host.evidence.last(),
        Some(&EvidenceRecord::SettlementTerminal(activated.navigation_id))
    );
}

#[test]
fn a_stale_token_never_advances_or_navigates() {
    let source = session_authority(1, 0, 0, 0);
    let (pending, token) = finite_timer(&source, 7);
    let mut services = token_services(&source);
    services.stale = true;
    let mut advance = active(
        "runtime.advance_to_next",
        ActiveOperation::AdvanceToNext(AdvanceToNextState::Observing {
            expected_state_token: Some(test_document_token(1)),
            navigation: Some(source.clone()),
        }),
        RequestStateEffect::Nothing,
    );
    let outcome = completed_outcome(DocumentControlAction::Observed, pending, Some(token));
    let refused = failure(services.control_completed(
        &mut advance,
        DocumentControlCommand::Observe,
        outcome.clone(),
        0,
    ));
    assert_eq!(refused.error.code, "stale_state_token");
    assert!(!refused.fail_stop);

    services.stale = false;
    assert!(matches!(
        services.control_completed(
            &mut advance,
            DocumentControlCommand::Observe,
            outcome,
            0,
        ),
        ActiveTransition::Submit(DocumentControlCommand::AdvanceTo(permitted)) if permitted == token
    ));

    services.stale = true;
    let mut navigate = active(
        "session.navigate",
        ActiveOperation::Navigate(NavigateState {
            requested_url: "https://example.test/next".to_owned(),
            phase: NavigatePhase::Authorizing {
                expected_state_token: test_document_token(1),
                navigation: source.clone(),
            },
            cumulative_external_io_wall_time_ns: 0,
            waiting: None,
        }),
        RequestStateEffect::Nothing,
    );
    let refused = failure(services.control_completed(
        &mut navigate,
        DocumentControlCommand::Observe,
        observed_outcome(pending_for_authority(&source, 7)),
        0,
    ));
    assert_eq!(refused.error.code, "stale_state_token");
}

#[test]
fn an_active_network_freezes_the_advance() {
    let source = session_authority(1, 0, 0, 0);
    let (pending, token) = finite_timer(&source, 7);
    let mut services = services(Vec::new());
    let mut advance = active(
        "runtime.advance_to_next",
        ActiveOperation::AdvanceToNext(AdvanceToNextState::Observing {
            expected_state_token: None,
            navigation: None,
        }),
        RequestStateEffect::Nothing,
    );
    let frozen = failure(services.control_completed(
        &mut advance,
        DocumentControlCommand::Observe,
        completed_outcome(DocumentControlAction::Observed, pending, Some(token)),
        1,
    ));
    assert_eq!(frozen.error.code, "advance_not_available");
}

#[test]
fn a_stale_action_is_refused_before_it_is_bound() {
    let source = session_authority(1, 0, 0, 0);
    let mut services = services(Vec::new());
    for (params, bound) in [(0, false), (7, true)] {
        let mut action = active(
            "action.fill",
            ActiveOperation::Automation(AutomationState {
                profile: V1,
                kind: PublicAutomationKind::Fill,
                unresolved: Some(UnresolvedAutomationParams::Session(params)),
                authorizing_navigation: Some(source.clone()),
                completed: None,
            }),
            RequestStateEffect::Nothing,
        );
        let transition = services.control_completed(
            &mut action,
            DocumentControlCommand::Observe,
            observed_outcome(pending_for_authority(&source, 7)),
            0,
        );
        if bound {
            assert!(matches!(
                transition,
                ActiveTransition::Submit(DocumentControlCommand::Automate(BoundAutomation {
                    id: 7,
                    mutating: true,
                }))
            ));
        } else {
            assert_eq!(failure(transition).error.code, "stale_state_token");
        }
    }
}

#[test]
fn waits_add_up_and_end_at_their_deadline_or_with_a_wake() {
    let source = session_authority(1, 0, 0, 0);
    let mut host = session_host(services(Vec::new()));
    let mut state = settle_state(Some(source));
    state.cumulative_external_io_wall_time_ns = 5;
    host.apply(
        active(
            "runtime.settle",
            ActiveOperation::Settle(state),
            RequestStateEffect::Nothing,
        ),
        ActiveTransition::Wait(SettleWait::ForegroundExternalIo {
            remaining_wall_time_ns: 100,
        }),
    );
    assert_eq!(
        settle_of(host.shell.active.as_ref().unwrap()).waiting,
        Some(SettleHostWait {
            observed: 0,
            started_at: NOW,
            deadline: Some(NOW + 100),
        })
    );
    let none = Answers::none();
    assert!(host
        .shell
        .service_active_host_wait(0, None, &none, NOW + 99)
        .is_none());
    let woken = host
        .shell
        .service_active_host_wait(1, None, &none, NOW + 40)
        .unwrap();
    assert!(matches!(
        woken,
        ShellStep::Consult(Consultation::WaitEnded {
            expired: false,
            cumulative_wall_time_ns: 45,
            external_io_active: false,
        })
    ));
    let expired = host
        .shell
        .service_active_host_wait(0, None, &none, NOW + 100)
        .unwrap();
    assert!(matches!(
        expired,
        ShellStep::Consult(Consultation::WaitEnded {
            expired: true,
            cumulative_wall_time_ns: 105,
            external_io_active: false,
        })
    ));
    let mut answers = Answers::none();
    answers.progress = Some(Ok(observe()));
    let step = host
        .shell
        .service_active_host_wait(0, None, &answers, NOW + 100)
        .unwrap();
    host.perform(step);
    assert_eq!(host.submitted, vec![DocumentControlCommand::Observe]);
    let settled = settle_of(host.shell.active.as_ref().unwrap());
    assert!(settled.waiting.is_none());
    assert_eq!(settled.cumulative_external_io_wall_time_ns, 105);
}

#[test]
fn a_failed_network_stops_every_request_but_an_audit() {
    let failed = Some(ControlledNetworkSnapshot {
        active_operations: 0,
        maximum_active_operations: 8,
        sticky_failure: Some(ControlledNetworkFailure::FixtureMiss),
    });
    let mut host = session_host(services(Vec::new()));
    host.network = failed;
    host.apply(
        active(
            "runtime.pending",
            ActiveOperation::Pending,
            RequestStateEffect::Nothing,
        ),
        ActiveTransition::Submit(DocumentControlCommand::Observe),
    );
    assert!(host.submitted.is_empty());
    assert_eq!(
        host.last_frame()["error"]["code"],
        "network_fixture_miss"
    );

    host.apply(
        active(
            "session.requests",
            ActiveOperation::Audit(AuditState {
                value: Some(Arc::new(json(r#"{"requests":[]}"#))),
            }),
            RequestStateEffect::Nothing,
        ),
        ActiveTransition::Submit(DocumentControlCommand::Observe),
    );
    assert_eq!(host.submitted, vec![DocumentControlCommand::Observe]);
    assert_eq!(host.frames.len(), 1);

    // The failure is told as soon as the page would be projected.
    let navigation = session_authority(1, 1, 0, 0);
    host.poll_control(observed_outcome(pending_for_authority(&navigation, 9)));
    assert!(host.shell.active.is_none());
    assert_eq!(host.frames.len(), 2);
    assert_eq!(
        host.last_frame()["error"]["code"],
        "network_fixture_miss"
    );
    assert!(host.exit.is_none());
}
