//! How the shell opens its session.

use serde_json::Value;
use vstd::prelude::*;

use crate::active::{ActiveOperation, ActiveRequest, ControlledOpenState};
use crate::control::DocumentControlCommand;
use crate::engine::{EngineClockMode, EngineSession, EngineSessionOpenOptions};
use crate::error::{
    fatal_error, fatal_operation, invalid_request_error, invalid_state, operation_error,
    ProtocolError, ProtocolErrorView,
};
use crate::failure::{controlled_open_timeout_failure, open_timeout_view};
use crate::json::{members_json, object_json, text_value, value_json, value_of, JsonView, NewValue};
use crate::params::{
    chosen_profile, is_web_url, open_params_fault, parse_url, parsed_url, OpenClockMode, OpenParams,
    ParsedUrl, UrlView,
};
use crate::profile::{
    selects_session_api, session_api, supports_session_api, DocumentControlProfile,
    DocumentExecutionProfile, RequestStateEffect, SessionProfile, CONTROLLED_OPEN_WALL_TIMEOUT_NS,
    SESSION_ID,
};
use crate::request::Request;
use crate::shell::{
    answered, controlled_open_command_timeout, finish_with, method_response, open_timeout,
    FinishView, Shell, ShellState, ShellStep, ShellStepView,
};
use crate::text::joined;

verus! {

/// What was resolved for an open, as far as it is needed after the engine was built.
#[derive(Debug)]
pub struct OpenPlan {
    pub requested_url: String,
    pub boundary: &'static str,
    pub profile: Option<SessionProfile>,
    pub started_at: u64,
    /// The instant by which a controlled open must be done.
    pub deadline: Option<u64>,
}

/// What becomes of a request to open.
#[derive(Debug)]
pub enum OpenStep {
    Step(ShellStep),
    /// The host builds the engine with these options and reports it.
    Build { request: Request, plan: OpenPlan, options: EngineSessionOpenOptions },
}

/// The profile that an open selects; in real time there is none.
pub open spec fn selected_profile(params: OpenParams) -> Option<SessionProfile> {
    match params.clock_mode {
        OpenClockMode::Real => None,
        OpenClockMode::Controlled => chosen_profile(params),
    }
}

/// Why a request to open is refused before an engine is built.
pub open spec fn open_refusal(
    shell: Shell,
    request: Request,
    params: Result<OpenParams, ProtocolError>,
    parsed: Result<UrlView, Seq<char>>,
    now: u64,
) -> Option<ProtocolErrorView> {
    if shell.state != ShellState::Initialized {
        Some(
            operation_error(
                "invalid_state"@,
                "session.open requires an initialized shell"@,
                "none"@,
            ),
        )
    } else if request.session_id is Some {
        Some(invalid_request_error("session.open must not include sessionId"@))
    } else {
        match (params, parsed) {
            (Err(error), _) => Some(error@),
            (_, Err(error)) => Some(invalid_request_error("invalid URL: "@ + error)),
            (Ok(params), Ok(url)) => if let Some(message) = open_params_fault(params) {
                Some(invalid_request_error(message))
            } else if selects_session_api(selected_profile(params)) && !is_web_url(url) {
                Some(
                    operation_error(
                        "unsupported_navigation_scheme"@,
                        "initial session navigation supports only HTTP(S) URLs"@,
                        "none"@,
                    ),
                )
            } else if params.clock_mode is Controlled && now + CONTROLLED_OPEN_WALL_TIMEOUT_NS
                > u64::MAX {
                Some(
                    operation_error(
                        "controlled_open_deadline_overflow"@,
                        "the controlled-open wall deadline overflowed"@,
                        "none"@,
                    ),
                )
            } else {
                None
            },
        }
    }
}

/// Whether a plan and options are those of an open that is not refused.
pub open spec fn opens(
    params: OpenParams,
    url: UrlView,
    now: u64,
    plan: OpenPlan,
    options: EngineSessionOpenOptions,
) -> bool {
    let profile = selected_profile(params);
    &&& plan.requested_url@ == url.text
    &&& plan.profile == profile
    &&& plan.started_at == now
    &&& options.state == params.state
    &&& options.network == params.network
    &&& options.document_control_profile == if selects_session_api(profile) {
        DocumentControlProfile::TopLevelSession
    } else {
        DocumentControlProfile::SingleDocument
    }
    &&& options.document_execution_profile == if profile == Some(
        SessionProfile::ControlledWebSessionV2,
    ) {
        DocumentExecutionProfile::ControlledWebSessionV2
    } else {
        DocumentExecutionProfile::Baseline
    }
    &&& match params.clock_mode {
        OpenClockMode::Real => {
            &&& plan.boundary@ == "load_complete"@
            &&& plan.deadline is None
            &&& options.clock_mode == EngineClockMode::Real
        },
        OpenClockMode::Controlled => {
            &&& plan.boundary@ == "controlled_ready"@
            &&& plan.deadline is Some
            &&& plan.deadline->0 == now + CONTROLLED_OPEN_WALL_TIMEOUT_NS
            &&& plan.profile is Some
            &&& options.clock_mode == (EngineClockMode::Controlled {
                initial_time_ns: match params.initial_virtual_time_ns {
                    Some(time) => time,
                    None => 0,
                },
            })
        },
    }
}

/// An engine that was built, and where it is now.
#[derive(Debug)]
pub struct OpenedEngine {
    pub session: EngineSession,
    pub url: Option<String>,
}

/// A controlled open whose engine was built, before its first observation was submitted.
#[derive(Debug)]
pub struct Opening {
    pub request: Request,
    pub session: EngineSession,
    pub requested_url: String,
    pub current_url: String,
    pub profile: SessionProfile,
    pub started_at: u64,
    pub deadline: u64,
}

/// What becomes of an open after its engine was built.
#[derive(Debug)]
pub enum OpenedStep {
    Step(ShellStep),
    /// The host submits the first observation to the new engine and reports it.
    Submit { opening: Opening, timeout_ns: u64 },
}

/// What an `OpenedStep` says.
pub enum OpenedStepView {
    Step(ShellStepView),
    Submit { opening: Opening, timeout_ns: u64 },
}

impl View for OpenedStep {
    type V = OpenedStepView;

    open spec fn view(&self) -> OpenedStepView {
        match *self {
            OpenedStep::Step(step) => OpenedStepView::Step(step@),
            OpenedStep::Submit { opening, timeout_ns } => OpenedStepView::Submit {
                opening,
                timeout_ns,
            },
        }
    }
}

/// The end of an open that took too long.
pub open spec fn open_timed_out(
    shell: Shell,
    request: Request,
    profile: SessionProfile,
    closes: bool,
) -> (Shell, ShellStepView) {
    let failure = open_timeout_view(profile);
    (
        if failure.fail_stop {
            Shell { state: ShellState::Closed, ..shell }
        } else {
            shell
        },
        ShellStepView::Finish(
            FinishView {
                close_before: closes,
                responses: seq![method_response(request, Err(failure.error), shell.state)],
                close_after: false,
                exit: if failure.fail_stop {
                    Some("runtime outcome is indeterminate; session was fail-stopped"@)
                } else {
                    None
                },
            },
        ),
    )
}

/// The end of an open that got another engine than it asked for.
pub open spec fn open_mismatched(shell: Shell, request: Request, message: Seq<char>) ->
    ShellStepView {
    ShellStepView::Finish(
        FinishView {
            close_before: true,
            responses: seq![
                method_response(
                    request,
                    Err(fatal_error("internal_runtime_failure"@, message, "none"@)),
                    shell.state,
                ),
            ],
            close_after: false,
            exit: None,
        },
    )
}

/// The end of an open whose engine could not be built.
pub open spec fn open_failed(
    shell: Shell,
    request: Request,
    plan: OpenPlan,
    error: ProtocolErrorView,
    now: u64,
) -> (Shell, ShellStepView) {
    if plan.deadline is Some && now >= plan.deadline->0 {
        open_timed_out(shell, request, plan.profile->0, false)
    } else {
        (
            if error.fatal {
                Shell { state: ShellState::Closed, ..shell }
            } else {
                shell
            },
            ShellStepView::Finish(
                FinishView {
                    close_before: false,
                    responses: seq![method_response(request, Err(error), shell.state)],
                    close_after: false,
                    exit: if error.fatal {
                        Some("session construction failed at a terminal unpublished boundary"@)
                    } else {
                        None
                    },
                },
            ),
        )
    }
}

/// The answer to an open in real time.
pub open spec fn real_open_result(requested_url: Seq<char>, url: Seq<char>, boundary: Seq<char>) ->
    JsonView {
    object_json(
        seq![
            ("sessionId"@, JsonView::Text(SESSION_ID@)),
            ("requestedUrl"@, JsonView::Text(requested_url)),
            ("url"@, JsonView::Text(url)),
            ("boundary"@, JsonView::Text(boundary)),
            ("clockMode"@, JsonView::Text("real"@)),
            ("profile"@, JsonView::Null),
        ],
    )
}

/// Where an engine is now, or else where it was sent.
pub open spec fn current_url(plan: OpenPlan, engine: OpenedEngine) -> String {
    match engine.url {
        Some(url) => url,
        None => plan.requested_url,
    }
}

/// What becomes of an open after its engine was built.
pub open spec fn engine_built(
    shell: Shell,
    request: Request,
    plan: OpenPlan,
    engine: OpenedEngine,
    now: u64,
) -> (Shell, OpenedStepView) {
    match plan.deadline {
        None => (
            Shell {
                engine: Some(engine.session),
                profile: None,
                state: ShellState::Open,
                ..shell
            },
            OpenedStepView::Step(
                answered(
                    method_response(
                        request,
                        Ok(
                            real_open_result(
                                plan.requested_url@,
                                current_url(plan, engine)@,
                                plan.boundary@,
                            ),
                        ),
                        ShellState::Open,
                    ),
                ),
            ),
        ),
        Some(deadline) => {
            let profile = plan.profile->0;
            if now >= deadline {
                let (shell, step) = open_timed_out(shell, request, profile, true);
                (shell, OpenedStepView::Step(step))
            } else if engine.session.document_control_profile != control_profile(profile) {
                (
                    shell,
                    OpenedStepView::Step(
                        open_mismatched(
                            shell,
                            request,
                            "engine opened with a different document-control profile"@,
                        ),
                    ),
                )
            } else if engine.session.document_execution_profile != execution_profile(profile) {
                (
                    shell,
                    OpenedStepView::Step(
                        open_mismatched(
                            shell,
                            request,
                            "engine opened with a different document-execution profile"@,
                        ),
                    ),
                )
            } else {
                (
                    shell,
                    OpenedStepView::Submit {
                        opening: Opening {
                            request,
                            session: engine.session,
                            requested_url: plan.requested_url,
                            current_url: current_url(plan, engine),
                            profile,
                            started_at: plan.started_at,
                            deadline,
                        },
                        timeout_ns: open_timeout(profile, deadline, now)->Ok_0,
                    },
                )
            }
        },
    }
}

/// How a profile confines the session's documents.
pub open spec fn control_profile(profile: SessionProfile) -> DocumentControlProfile {
    if session_api(profile) {
        DocumentControlProfile::TopLevelSession
    } else {
        DocumentControlProfile::SingleDocument
    }
}

/// How a profile runs a document.
pub open spec fn execution_profile(profile: SessionProfile) -> DocumentExecutionProfile {
    if profile == SessionProfile::ControlledWebSessionV2 {
        DocumentExecutionProfile::ControlledWebSessionV2
    } else {
        DocumentExecutionProfile::Baseline
    }
}

/// The shell after the first observation of a controlled open was submitted. Only now is the session
/// open, provisionally.
pub open spec fn open_observed(
    shell: Shell,
    opening: Opening,
    observed: u64,
    refusal: Option<ProtocolErrorView>,
) -> (Shell, ShellStepView) {
    match refusal {
        Some(error) => (
            shell,
            ShellStepView::Finish(
                FinishView {
                    close_before: true,
                    responses: seq![
                        method_response(
                            opening.request,
                            Err(ProtocolErrorView { state_effect: "none"@, ..error }),
                            shell.state,
                        ),
                    ],
                    close_after: false,
                    exit: None,
                },
            ),
        ),
        None => (
            Shell {
                state: ShellState::Open,
                engine: Some(opening.session),
                profile: Some(opening.profile),
                last_navigation_authority: None,
                active: Some(
                    ActiveRequest {
                        request: opening.request,
                        profile: Some(opening.profile),
                        operation: ActiveOperation::ControlledOpen(
                            ControlledOpenState {
                                requested_url: opening.requested_url,
                                current_url: opening.current_url,
                                profile: opening.profile,
                                deadline: opening.deadline,
                                readiness_waiting: None,
                                bootstrap_attempted: false,
                                settlement: None,
                            },
                        ),
                        started_at: opening.started_at,
                        in_flight: Some(DocumentControlCommand::Observe),
                        control_turn_observed: Some(observed),
                        needs_initial_pump: true,
                        state_effect: RequestStateEffect::Nothing,
                    },
                ),
                ..shell
            },
            ShellStepView::Keep,
        ),
    }
}

fn real_open_value(requested_url: &str, url: &str, boundary: &str) -> (value: Value)
    ensures
        value_json(value) == real_open_result(requested_url@, url@, boundary@),
{
    let members = vec![
        ("sessionId".to_owned(), text_value(SESSION_ID)),
        ("requestedUrl".to_owned(), text_value(requested_url)),
        ("url".to_owned(), text_value(url)),
        ("boundary".to_owned(), text_value(boundary)),
        ("clockMode".to_owned(), text_value("real")),
        ("profile".to_owned(), value_of(NewValue::Null)),
    ];
    assert(members_json(members@) =~= seq![
        ("sessionId"@, JsonView::Text(SESSION_ID@)),
        ("requestedUrl"@, JsonView::Text(requested_url@)),
        ("url"@, JsonView::Text(url@)),
        ("boundary"@, JsonView::Text(boundary@)),
        ("clockMode"@, JsonView::Text("real"@)),
        ("profile"@, JsonView::Null),
    ]);
    value_of(NewValue::Object(members))
}

impl Shell {
    /// Decides on a request to open whose URL was read before.
    pub fn begin_open_at(
        &self,
        request: Request,
        params: Result<OpenParams, ProtocolError>,
        parsed: Result<ParsedUrl, String>,
        now: u64,
    ) -> (step: OpenStep)
        ensures
            match step {
                OpenStep::Step(step) => {
                    let refusal = open_refusal(
                        *self,
                        request,
                        params,
                        url_outcome(parsed),
                        now,
                    );
                    refusal is Some && step@ == answered(
                        method_response(request, Err(refusal->0), self.state),
                    )
                },
                OpenStep::Build { request: kept, plan, options } => {
                    &&& open_refusal(*self, request, params, url_outcome(parsed), now) is None
                    &&& kept == request
                    &&& opens(params->Ok_0, parsed->Ok_0@, now, plan, options)
                },
            },
    {
        if self.state != ShellState::Initialized {
            return OpenStep::Step(
                self.answer(
                    request,
                    Err(invalid_state("session.open requires an initialized shell")),
                ),
            );
        }
        if request.session_id.is_some() {
            return OpenStep::Step(
                self.answer(
                    request,
                    Err(ProtocolError::invalid_request("session.open must not include sessionId")),
                ),
            );
        }
        let params = match params {
            Ok(params) => params,
            Err(error) => {
                return OpenStep::Step(self.answer(request, Err(error)));
            },
        };
        let url = match parsed {
            Ok(url) => url,
            Err(error) => {
                return OpenStep::Step(
                    self.answer(
                        request,
                        Err(
                            ProtocolError::invalid_request(
                                joined("invalid URL: ", error.as_str()).as_str(),
                            ),
                        ),
                    ),
                );
            },
        };
        let configuration = match params.configuration() {
            Ok(configuration) => configuration,
            Err(error) => {
                return OpenStep::Step(self.answer(request, Err(error)));
            },
        };
        let profile = configuration.profile;
        if supports_session_api(profile) && !url.is_web() {
            return OpenStep::Step(
                self.answer(
                    request,
                    Err(
                        ProtocolError::operation(
                            "unsupported_navigation_scheme",
                            "initial session navigation supports only HTTP(S) URLs",
                            "none",
                        ),
                    ),
                ),
            );
        }
        let deadline = if configuration.clock_mode.is_controlled() {
            match now.checked_add(CONTROLLED_OPEN_WALL_TIMEOUT_NS) {
                Some(deadline) => Some(deadline),
                None => {
                    return OpenStep::Step(
                        self.answer(
                            request,
                            Err(
                                ProtocolError::operation(
                                    "controlled_open_deadline_overflow",
                                    "the controlled-open wall deadline overflowed",
                                    "none",
                                ),
                            ),
                        ),
                    );
                },
            }
        } else {
            None
        };
        let (document_control_profile, document_execution_profile) = match profile {
            Some(profile) => (
                profile.document_control_profile(),
                profile.document_execution_profile(),
            ),
            None => (DocumentControlProfile::SingleDocument, DocumentExecutionProfile::Baseline),
        };
        OpenStep::Build {
            request,
            plan: OpenPlan {
                requested_url: url.text,
                boundary: configuration.boundary,
                profile,
                started_at: now,
                deadline,
            },
            options: EngineSessionOpenOptions {
                clock_mode: configuration.clock_mode,
                document_control_profile,
                document_execution_profile,
                state: configuration.state,
                network: configuration.network,
            },
        }
    }

    /// Decides on a request to open.
    pub fn begin_open(
        &self,
        request: Request,
        params: Result<OpenParams, ProtocolError>,
        now: u64,
    ) -> (step: OpenStep)
        ensures
            match (step, open_refusal(*self, request, params, requested_url_of(params), now)) {
                (OpenStep::Step(step), refusal) => refusal is Some && step@ == answered(
                    method_response(request, Err(refusal->0), self.state),
                ),
                (OpenStep::Build { request: kept, plan, options }, refusal) => {
                    &&& refusal is None
                    &&& kept == request
                    &&& opens(params->Ok_0, parsed_url(params->Ok_0.url@)->Ok_0, now, plan, options)
                },
            },
            step matches OpenStep::Build { plan, .. } ==> (params matches Ok(params) && parsed_url(
                params.url@,
            ) is Ok && plan.requested_url@ == parsed_url(params.url@)->Ok_0.text),
    {
        let parsed = match &params {
            Ok(params) => parse_url(params.url.as_str()),
            Err(_) => Err("".to_owned()),
        };
        self.begin_open_at(request, params, parsed, now)
    }

    fn time_out_open(&mut self, request: Request, profile: SessionProfile, closes: bool) -> (step:
        ShellStep)
        ensures
            (*final(self), step@) == open_timed_out(*old(self), request, profile, closes),
    {
        let failure = controlled_open_timeout_failure(profile);
        let response = self.write_method_result(request, Err(failure.error));
        if failure.fail_stop {
            self.state = ShellState::Closed;
            return finish_with(
                response,
                closes,
                false,
                Some("runtime outcome is indeterminate; session was fail-stopped"),
            );
        }
        finish_with(response, closes, false, None)
    }

    /// Takes up that the engine of an open could not be built.
    pub fn open_failed(
        &mut self,
        request: Request,
        plan: OpenPlan,
        error: ProtocolError,
        now: u64,
    ) -> (step: ShellStep)
        requires
            plan.deadline is Some ==> plan.profile is Some,
        ensures
            (*final(self), step@) == open_failed(*old(self), request, plan, error@, now),
    {
        if let (Some(deadline), Some(profile)) = (plan.deadline, plan.profile) {
            if now >= deadline {
                return self.time_out_open(request, profile, false);
            }
        }
        let fatal = error.fatal;
        let response = self.write_method_result(request, Err(error));
        if fatal {
            self.state = ShellState::Closed;
            return finish_with(
                response,
                false,
                false,
                Some("session construction failed at a terminal unpublished boundary"),
            );
        }
        finish_with(response, false, false, None)
    }

    /// Takes up the engine that was built for an open.
    pub fn engine_built(
        &mut self,
        request: Request,
        plan: OpenPlan,
        engine: OpenedEngine,
        now: u64,
    ) -> (step: OpenedStep)
        requires
            plan.deadline is Some ==> plan.profile is Some,
        ensures
            (*final(self), step@) == engine_built(*old(self), request, plan, engine, now),
    {
        let requested_url = plan.requested_url;
        let current_url = match engine.url {
            Some(url) => url,
            None => requested_url.clone(),
        };
        match (plan.deadline, plan.profile) {
            (Some(deadline), Some(profile)) => {
                let timeout_ns = match controlled_open_command_timeout(profile, deadline, now) {
                    Ok(timeout_ns) => timeout_ns,
                    Err(_) => {
                        return OpenedStep::Step(self.time_out_open(request, profile, true));
                    },
                };
                if engine.session.document_control_profile != profile.document_control_profile() {
                    let response = self.write_method_result(
                        request,
                        Err(
                            fatal_operation(
                                "internal_runtime_failure",
                                "engine opened with a different document-control profile",
                                "none",
                            ),
                        ),
                    );
                    return OpenedStep::Step(finish_with(response, true, false, None));
                }
                if engine.session.document_execution_profile
                    != profile.document_execution_profile() {
                    let response = self.write_method_result(
                        request,
                        Err(
                            fatal_operation(
                                "internal_runtime_failure",
                                "engine opened with a different document-execution profile",
                                "none",
                            ),
                        ),
                    );
                    return OpenedStep::Step(finish_with(response, true, false, None));
                }
                OpenedStep::Submit {
                    opening: Opening {
                        request,
                        session: engine.session,
                        requested_url,
                        current_url,
                        profile,
                        started_at: plan.started_at,
                        deadline,
                    },
                    timeout_ns,
                }
            },
            _ => {
                let value = real_open_value(
                    requested_url.as_str(),
                    current_url.as_str(),
                    plan.boundary,
                );
                self.engine = Some(engine.session);
                self.profile = None;
                self.state = ShellState::Open;
                OpenedStep::Step(self.answer(request, Ok(value)))
            },
        }
    }

    /// Takes up whether the new engine took the first observation; `observed` is its wake generation
    /// from right before.
    pub fn open_observation_submitted(
        &mut self,
        opening: Opening,
        observed: u64,
        submission: Result<(), ProtocolError>,
    ) -> (step: ShellStep)
        ensures
            (*final(self), step@) == open_observed(
                *old(self),
                opening,
                observed,
                match submission {
                    Ok(_) => None,
                    Err(error) => Some(error@),
                },
            ),
    {
        if let Err(error) = submission {
            let mut error = error;
            error.state_effect = "none";
            let response = self.write_method_result(opening.request, Err(error));
            return finish_with(response, true, false, None);
        }
        self.last_navigation_authority = None;
        self.engine = Some(opening.session);
        self.profile = Some(opening.profile);
        self.state = ShellState::Open;
        self.active = Some(
            ActiveRequest {
                request: opening.request,
                profile: Some(opening.profile),
                operation: ActiveOperation::ControlledOpen(
                    ControlledOpenState {
                        requested_url: opening.requested_url,
                        current_url: opening.current_url,
                        profile: opening.profile,
                        deadline: opening.deadline,
                        readiness_waiting: None,
                        bootstrap_attempted: false,
                        settlement: None,
                    },
                ),
                started_at: opening.started_at,
                in_flight: Some(DocumentControlCommand::Observe),
                control_turn_observed: Some(observed),
                needs_initial_pump: true,
                state_effect: RequestStateEffect::Nothing,
            },
        );
        ShellStep::Keep
    }
}

/// What reading a URL gave.
pub open spec fn url_outcome(parsed: Result<ParsedUrl, String>) -> Result<UrlView, Seq<char>> {
    match parsed {
        Ok(url) => Ok(url@),
        Err(error) => Err(error@),
    }
}

/// The URL that the parameters of an open name.
pub open spec fn requested_url_of(params: Result<OpenParams, ProtocolError>) -> Result<
    UrlView,
    Seq<char>,
> {
    match params {
        Ok(params) => parsed_url(params.url@),
        Err(_) => Err(""@),
    }
}

} // verus!
