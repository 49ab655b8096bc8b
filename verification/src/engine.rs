//! The part of an engine session that needs no engine: what a session may be opened with, which
//! preferences a controlled session fixes, and which operation is in flight.

use serde_json::Value;
use std::sync::Arc;
use vstd::prelude::*;

use crate::authority::SessionNavigationAuthority;
use crate::control::{
    DocumentControlReceiveOutcome, NavigationOperationCompletion, NavigationOperationKind,
    SessionNavigationError,
};
use crate::error::{
    fatal_error, fatal_operation, invalid_request_error, operation_error, ProtocolError,
    ProtocolErrorView,
};
use crate::json::{
    items_json, members_json, object_json, text_value, value_json, value_of, JsonView, NewValue,
};
use crate::network::{session_state_error_code, state_error_code, SessionStateError};
use crate::operation::{
    completed, mode_at, ControlOperationCompletion, ControlOperationPoll, ControlReceive,
    PendingControlOperation,
};
use crate::preference_names::law_disabled_preferences_differ;
use crate::profile::{DocumentControlProfile, DocumentExecutionProfile};
use crate::text::{joined, joined3, same_text};

verus! {

/// The clock of a session's documents.
#[derive(Clone, Copy, Debug, PartialEq, Eq, Structural)]
pub enum EngineClockMode {
    /// Ordinary time, with frames painted as they become ready.
    Real,
    /// Time that starts at the given offset and moves only when told to.
    Controlled { initial_time_ns: u128 },
}

impl Default for EngineClockMode {
    fn default() -> (mode: Self)
        ensures
            mode == EngineClockMode::Real,
    {
        EngineClockMode::Real
    }
}

/// The clock that a document is built with.
#[derive(Clone, Copy, Debug, PartialEq, Eq, Structural)]
pub enum DocumentClockConfiguration {
    Realtime,
    Controlled { initial_time_ns: u128, unix_time_origin_ns: u128 },
}

impl EngineClockMode {
    /// A controlled clock counts from the Unix epoch.
    pub fn document_clock(self) -> (clock: DocumentClockConfiguration)
        ensures
            clock == match self {
                EngineClockMode::Real => DocumentClockConfiguration::Realtime,
                EngineClockMode::Controlled { initial_time_ns } =>
                DocumentClockConfiguration::Controlled { initial_time_ns, unix_time_origin_ns: 0 },
            },
    {
        match self {
            EngineClockMode::Real => DocumentClockConfiguration::Realtime,
            EngineClockMode::Controlled { initial_time_ns } =>
            DocumentClockConfiguration::Controlled { initial_time_ns, unix_time_origin_ns: 0 },
        }
    }

    pub fn paints_frames_automatically(self) -> (r: bool)
        ensures
            r == (self is Real),
    {
        match self {
            EngineClockMode::Real => true,
            EngineClockMode::Controlled { .. } => false,
        }
    }

    pub fn is_controlled(self) -> (r: bool)
        ensures
            r == (self is Controlled),
    {
        match self {
            EngineClockMode::Real => false,
            EngineClockMode::Controlled { .. } => true,
        }
    }
}

/// How many preferences a controlled session switches off.
pub const CONTROLLED_DISABLED_BOOLEAN_PREFERENCE_COUNT: usize = 75;

/// The preferences that a controlled session switches off: producers of background work, access to
/// storage, devices and the system, and testing surfaces.
pub open spec fn disabled_preferences() -> Seq<Seq<char>> {
    seq![
        "dom_allow_preloading_module_descendants"@,
        "dom_parallel_css_parsing_enabled"@,
        "dom_script_asynch"@,
        "dom_servoparser_async_html_tokenizer_enabled"@,
        "js_offthread_compilation_enabled"@,
        "accessibility_enabled"@,
        "devtools_server_enabled"@,
        "dom_allow_scripts_to_close_windows"@,
        "dom_async_clipboard_enabled"@,
        "dom_bluetooth_enabled"@,
        "dom_bluetooth_testing_enabled"@,
        "dom_canvas_capture_enabled"@,
        "dom_cookiestore_enabled"@,
        "dom_credential_management_enabled"@,
        "dom_crypto_subtle_enabled"@,
        "dom_entries_api_enabled"@,
        "dom_fontface_enabled"@,
        "dom_gamepad_enabled"@,
        "dom_geolocation_enabled"@,
        "dom_indexeddb_enabled"@,
        "dom_intersection_observer_enabled"@,
        "dom_navigator_protocol_handlers_enabled"@,
        "dom_notification_enabled"@,
        "dom_offscreen_canvas_enabled"@,
        "dom_permissions_enabled"@,
        "dom_resize_observer_enabled"@,
        "dom_serviceworker_enabled"@,
        "dom_sharedworker_enabled"@,
        "dom_storage_manager_api_enabled"@,
        "dom_wakelock_enabled"@,
        "dom_web_animations_enabled"@,
        "dom_webgl2_enabled"@,
        "dom_webgpu_enabled"@,
        "dom_webrtc_enabled"@,
        "dom_webrtc_transceiver_enabled"@,
        "largest_contentful_paint_enabled"@,
        "media_glvideo_enabled"@,
        "network_local_directory_listing_enabled"@,
        "dom_webxr_enabled"@,
        "dom_webxr_first_person_observer_view"@,
        "dom_webxr_glwindow_cubemap"@,
        "dom_webxr_glwindow_enabled"@,
        "dom_webxr_glwindow_left_right"@,
        "dom_webxr_glwindow_red_cyan"@,
        "dom_webxr_glwindow_spherical"@,
        "dom_webxr_hands_enabled"@,
        "dom_webxr_layers_enabled"@,
        "dom_webxr_openxr_enabled"@,
        "dom_webxr_sessionavailable"@,
        "dom_webxr_test"@,
        "dom_webxr_unsafe_assume_user_intent"@,
        "dom_worklet_blockingsleep_enabled"@,
        "dom_worklet_enabled"@,
        "dom_worklet_testing_enabled"@,
        "css_animations_testing_enabled"@,
        "dom_fullscreen_test"@,
        "dom_microdata_testing_enabled"@,
        "dom_permissions_testing_allowed_in_nonsecure_contexts"@,
        "dom_servo_helpers_enabled"@,
        "dom_testbinding_enabled"@,
        "dom_testbinding_prefcontrolled_enabled"@,
        "dom_testbinding_prefcontrolled2_enabled"@,
        "dom_testbinding_preference_value_falsy"@,
        "dom_testbinding_preference_value_truthy"@,
        "dom_testing_element_activation_enabled"@,
        "dom_testing_html_input_element_select_files_enabled"@,
        "dom_testperf_enabled"@,
        "dom_testutils_enabled"@,
        "expensive_accessibility_test_assertions_enabled"@,
        "expose_servointernals_globally"@,
        "inspector_show_servo_internal_shadow_roots"@,
        "layout_animations_test_enabled"@,
        "layout_unimplemented"@,
        "media_testing_enabled"@,
        "webgl_testing_context_creation_error"@,
    ]
}

/// The texts of a list.
pub open spec fn texts(list: Seq<&'static str>) -> Seq<Seq<char>> {
    Seq::new(list.len(), |i: int| list[i]@)
}

pub fn controlled_disabled_boolean_preferences() -> (names: Vec<&'static str>)
    ensures
        texts(names@) == disabled_preferences(),
        names.len() == CONTROLLED_DISABLED_BOOLEAN_PREFERENCE_COUNT,
        texts(names@).no_duplicates(),
{
    let names = vec![
        "dom_allow_preloading_module_descendants",
        "dom_parallel_css_parsing_enabled",
        "dom_script_asynch",
        "dom_servoparser_async_html_tokenizer_enabled",
        "js_offthread_compilation_enabled",
        "accessibility_enabled",
        "devtools_server_enabled",
        "dom_allow_scripts_to_close_windows",
        "dom_async_clipboard_enabled",
        "dom_bluetooth_enabled",
        "dom_bluetooth_testing_enabled",
        "dom_canvas_capture_enabled",
        "dom_cookiestore_enabled",
        "dom_credential_management_enabled",
        "dom_crypto_subtle_enabled",
        "dom_entries_api_enabled",
        "dom_fontface_enabled",
        "dom_gamepad_enabled",
        "dom_geolocation_enabled",
        "dom_indexeddb_enabled",
        "dom_intersection_observer_enabled",
        "dom_navigator_protocol_handlers_enabled",
        "dom_notification_enabled",
        "dom_offscreen_canvas_enabled",
        "dom_permissions_enabled",
        "dom_resize_observer_enabled",
        "dom_serviceworker_enabled",
        "dom_sharedworker_enabled",
        "dom_storage_manager_api_enabled",
        "dom_wakelock_enabled",
        "dom_web_animations_enabled",
        "dom_webgl2_enabled",
        "dom_webgpu_enabled",
        "dom_webrtc_enabled",
        "dom_webrtc_transceiver_enabled",
        "largest_contentful_paint_enabled",
        "media_glvideo_enabled",
        "network_local_directory_listing_enabled",
        "dom_webxr_enabled",
        "dom_webxr_first_person_observer_view",
        "dom_webxr_glwindow_cubemap",
        "dom_webxr_glwindow_enabled",
        "dom_webxr_glwindow_left_right",
        "dom_webxr_glwindow_red_cyan",
        "dom_webxr_glwindow_spherical",
        "dom_webxr_hands_enabled",
        "dom_webxr_layers_enabled",
        "dom_webxr_openxr_enabled",
        "dom_webxr_sessionavailable",
        "dom_webxr_test",
        "dom_webxr_unsafe_assume_user_intent",
        "dom_worklet_blockingsleep_enabled",
        "dom_worklet_enabled",
        "dom_worklet_testing_enabled",
        "css_animations_testing_enabled",
        "dom_fullscreen_test",
        "dom_microdata_testing_enabled",
        "dom_permissions_testing_allowed_in_nonsecure_contexts",
        "dom_servo_helpers_enabled",
        "dom_testbinding_enabled",
        "dom_testbinding_prefcontrolled_enabled",
        "dom_testbinding_prefcontrolled2_enabled",
        "dom_testbinding_preference_value_falsy",
        "dom_testbinding_preference_value_truthy",
        "dom_testing_element_activation_enabled",
        "dom_testing_html_input_element_select_files_enabled",
        "dom_testperf_enabled",
        "dom_testutils_enabled",
        "expensive_accessibility_test_assertions_enabled",
        "expose_servointernals_globally",
        "inspector_show_servo_internal_shadow_roots",
        "layout_animations_test_enabled",
        "layout_unimplemented",
        "media_testing_enabled",
        "webgl_testing_context_creation_error",
    ];
    assert(texts(names@) =~= disabled_preferences());
    proof {
        law_disabled_preferences_differ();
    }
    names
}

/// The value of a preference in a controlled session: only a top-level session, which owns the whole
/// boundary of the cookie store, exposes it; the disabled ones are off; all others keep their default.
pub open spec fn controlled_value(
    name: Seq<char>,
    default_value: bool,
    profile: DocumentControlProfile,
) -> bool {
    if name == "dom_cookiestore_enabled"@ && profile == DocumentControlProfile::TopLevelSession {
        true
    } else if disabled_preferences().contains(name) {
        false
    } else {
        default_value
    }
}

fn is_disabled_preference(name: &str) -> (r: bool)
    ensures
        r == disabled_preferences().contains(name@),
{
    let names = controlled_disabled_boolean_preferences();
    let mut i: usize = 0;
    while i < names.len()
        invariant
            texts(names@) == disabled_preferences(),
            i <= names.len(),
            forall|j: int| 0 <= j < i ==> disabled_preferences()[j] != name@,
        decreases names.len() - i,
    {
        assert(texts(names@)[i as int] == names[i as int]@);
        if same_text(names[i], name) {
            assert(disabled_preferences()[i as int] == name@);
            return true;
        }
        i = i + 1;
    }
    false
}

/// The value of a preference in a controlled session with the given profile.
pub fn controlled_preference(
    name: &str,
    default_value: bool,
    document_control_profile: DocumentControlProfile,
) -> (value: bool)
    ensures
        value == controlled_value(name@, default_value, document_control_profile),
{
    if same_text(name, "dom_cookiestore_enabled") && document_control_profile
        == DocumentControlProfile::TopLevelSession {
        true
    } else if is_disabled_preference(name) {
        false
    } else {
        default_value
    }
}

/// The value of a preference under a clock; in real time every default stands.
pub fn preference_for_clock_mode(
    clock_mode: EngineClockMode,
    name: &str,
    default_value: bool,
    document_control_profile: DocumentControlProfile,
) -> (value: bool)
    ensures
        value == match clock_mode {
            EngineClockMode::Real => default_value,
            EngineClockMode::Controlled { .. } => controlled_value(
                name@,
                default_value,
                document_control_profile,
            ),
        },
{
    match clock_mode {
        EngineClockMode::Real => default_value,
        EngineClockMode::Controlled { .. } => controlled_preference(
            name,
            default_value,
            document_control_profile,
        ),
    }
}

/// What a session is opened with. Initial session state is kept by the host and known by a number.
#[derive(Debug)]
pub struct EngineSessionOpenOptions {
    pub clock_mode: EngineClockMode,
    pub document_control_profile: DocumentControlProfile,
    pub document_execution_profile: DocumentExecutionProfile,
    pub state: Option<u64>,
    pub network: Option<Value>,
}

/// The network that a session is built with.
#[derive(Debug)]
pub struct NetworkPlan {
    pub fixture: Value,
    pub initial_virtual_time_ns: u128,
}

/// Why the engine refused something. Reasons that only the engine can read are kept as their
/// diagnostic.
#[derive(Debug)]
pub enum EngineError {
    Startup(String),
    SessionConfiguration(&'static str),
    ClockConfiguration(String),
    ControlProfileConfiguration(String),
    ExecutionProfileConfiguration(String),
    ControlledNetworkConfiguration(String),
    NetworkFixture(String),
    UnpublishedInitialization(String),
    SessionStateValidation(SessionStateError),
    SessionStateInitialization(SessionStateError),
    ControlSubmission(String),
    SessionNavigation(String),
    ControlAlreadyPending,
    ControlDeadlineOverflow,
    BlockingHelperUnavailableInControlledMode(&'static str),
    TopLevelSessionRequired,
    WallTimeLimit,
    Evaluation(String),
}

/// How a refusal of the engine is reported.
pub open spec fn engine_error_view(error: EngineError) -> ProtocolErrorView {
    match error {
        EngineError::Startup(message) => operation_error(
            "engine_startup_failed"@,
            message@,
            "none"@,
        ),
        EngineError::SessionConfiguration(message) => invalid_request_error(message@),
        EngineError::ClockConfiguration(diagnostic) => operation_error(
            "engine_clock_configuration_failed"@,
            diagnostic@,
            "none"@,
        ),
        EngineError::ControlProfileConfiguration(diagnostic) => operation_error(
            "engine_control_profile_configuration_failed"@,
            diagnostic@,
            "none"@,
        ),
        EngineError::ExecutionProfileConfiguration(diagnostic) => operation_error(
            "engine_execution_profile_configuration_failed"@,
            diagnostic@,
            "none"@,
        ),
        EngineError::ControlledNetworkConfiguration(diagnostic) => fatal_error(
            "internal_runtime_failure"@,
            "controlled-network builder configuration failed: "@ + diagnostic@,
            "none"@,
        ),
        EngineError::NetworkFixture(diagnostic) => invalid_request_error(
            "invalid immutable controlled-network configuration: "@ + diagnostic@,
        ),
        EngineError::UnpublishedInitialization(diagnostic) => fatal_error(
            "session_state_initialization_failed"@,
            "unpublished session initialization failed: "@ + diagnostic@,
            "none"@,
        ),
        EngineError::SessionStateValidation(error) => operation_error(
            state_error_code(error),
            "session state configuration was rejected before engine construction"@,
            "none"@,
        ),
        EngineError::SessionStateInitialization(error) => fatal_error(
            state_error_code(error),
            "session state initialization was rejected"@,
            "none"@,
        ),
        EngineError::ControlSubmission(diagnostic) => operation_error(
            "engine_control_submission_failed"@,
            diagnostic@,
            "none"@,
        ),
        EngineError::SessionNavigation(diagnostic) => operation_error(
            "engine_session_navigation_failed"@,
            diagnostic@,
            "none"@,
        ),
        EngineError::ControlAlreadyPending => operation_error(
            "engine_control_busy"@,
            "another engine control operation is already pending"@,
            "none"@,
        ),
        EngineError::ControlDeadlineOverflow => operation_error(
            "engine_control_deadline_overflow"@,
            "engine control wall deadline overflowed"@,
            "none"@,
        ),
        EngineError::BlockingHelperUnavailableInControlledMode(operation) => operation_error(
            "engine_helper_requires_realtime"@,
            "blocking "@ + operation@ + " cannot bypass controlled document turns"@,
            "none"@,
        ),
        EngineError::TopLevelSessionRequired => operation_error(
            "engine_top_level_session_required"@,
            "explicit navigation requires the top-level-session control profile"@,
            "none"@,
        ),
        EngineError::WallTimeLimit => operation_error(
            "wall_time_limit_exceeded"@,
            "engine operation exceeded its wall-time safety limit"@,
            "indeterminate"@,
        ),
        EngineError::Evaluation(diagnostic) => operation_error(
            "evaluation_failed"@,
            diagnostic@,
            "partial"@,
        ),
    }
}

impl EngineError {
    pub fn to_protocol_error(&self) -> (error: ProtocolError)
        ensures
            error@ == engine_error_view(*self),
    {
        match self {
            EngineError::Startup(message) => ProtocolError::operation(
                "engine_startup_failed",
                message.as_str(),
                "none",
            ),
            EngineError::SessionConfiguration(message) => ProtocolError::invalid_request(message),
            EngineError::ClockConfiguration(diagnostic) => ProtocolError::operation(
                "engine_clock_configuration_failed",
                diagnostic.as_str(),
                "none",
            ),
            EngineError::ControlProfileConfiguration(diagnostic) => ProtocolError::operation(
                "engine_control_profile_configuration_failed",
                diagnostic.as_str(),
                "none",
            ),
            EngineError::ExecutionProfileConfiguration(diagnostic) => ProtocolError::operation(
                "engine_execution_profile_configuration_failed",
                diagnostic.as_str(),
                "none",
            ),
            EngineError::ControlledNetworkConfiguration(diagnostic) => fatal_operation(
                "internal_runtime_failure",
                joined(
                    "controlled-network builder configuration failed: ",
                    diagnostic.as_str(),
                ).as_str(),
                "none",
            ),
            EngineError::NetworkFixture(diagnostic) => ProtocolError::invalid_request(
                joined(
                    "invalid immutable controlled-network configuration: ",
                    diagnostic.as_str(),
                ).as_str(),
            ),
            EngineError::UnpublishedInitialization(diagnostic) => fatal_operation(
                "session_state_initialization_failed",
                joined(
                    "unpublished session initialization failed: ",
                    diagnostic.as_str(),
                ).as_str(),
                "none",
            ),
            EngineError::SessionStateValidation(error) => ProtocolError::operation(
                session_state_error_code(*error),
                "session state configuration was rejected before engine construction",
                "none",
            ),
            EngineError::SessionStateInitialization(error) => fatal_operation(
                session_state_error_code(*error),
                "session state initialization was rejected",
                "none",
            ),
            EngineError::ControlSubmission(diagnostic) => ProtocolError::operation(
                "engine_control_submission_failed",
                diagnostic.as_str(),
                "none",
            ),
            EngineError::SessionNavigation(diagnostic) => ProtocolError::operation(
                "engine_session_navigation_failed",
                diagnostic.as_str(),
                "none",
            ),
            EngineError::ControlAlreadyPending => ProtocolError::operation(
                "engine_control_busy",
                "another engine control operation is already pending",
                "none",
            ),
            EngineError::ControlDeadlineOverflow => ProtocolError::operation(
                "engine_control_deadline_overflow",
                "engine control wall deadline overflowed",
                "none",
            ),
            EngineError::BlockingHelperUnavailableInControlledMode(operation) =>
            ProtocolError::operation(
                "engine_helper_requires_realtime",
                joined3(
                    "blocking ",
                    operation,
                    " cannot bypass controlled document turns",
                ).as_str(),
                "none",
            ),
            EngineError::TopLevelSessionRequired => ProtocolError::operation(
                "engine_top_level_session_required",
                "explicit navigation requires the top-level-session control profile",
                "none",
            ),
            EngineError::WallTimeLimit => ProtocolError::operation(
                "wall_time_limit_exceeded",
                "engine operation exceeded its wall-time safety limit",
                "indeterminate",
            ),
            EngineError::Evaluation(diagnostic) => ProtocolError::operation(
                "evaluation_failed",
                diagnostic.as_str(),
                "partial",
            ),
        }
    }
}

/// What one attempt to receive a session-navigation response gave.
#[derive(Debug)]
pub enum NavigationReceive {
    Received(Result<Arc<SessionNavigationAuthority>, SessionNavigationError>),
    Empty,
    Disconnected,
}

/// One session-navigation response in flight, with the instant at which its wait ends.
#[derive(Clone, Copy, Debug, PartialEq, Eq, Structural)]
pub struct PendingNavigationOperation {
    pub kind: NavigationOperationKind,
    pub deadline: u64,
}

impl PendingNavigationOperation {
    /// Takes up what the receiver gave. A response counts even past the deadline; without one the
    /// operation goes on until its deadline, or until the engine has hung up.
    pub fn poll(self, received: NavigationReceive, now: u64) -> (r: Result<
        Self,
        NavigationOperationCompletion,
    >)
        ensures
            match received {
                NavigationReceive::Received(outcome) => r == Err::<
                    Self,
                    NavigationOperationCompletion,
                >(NavigationOperationCompletion { kind: self.kind, outcome: Some(outcome) }),
                NavigationReceive::Empty => r == if now < self.deadline {
                    Ok::<Self, NavigationOperationCompletion>(self)
                } else {
                    Err(NavigationOperationCompletion { kind: self.kind, outcome: None })
                },
                NavigationReceive::Disconnected => r == Err::<Self, NavigationOperationCompletion>(
                    NavigationOperationCompletion { kind: self.kind, outcome: None },
                ),
            },
    {
        match received {
            NavigationReceive::Received(outcome) => Err(
                NavigationOperationCompletion::response(self.kind, outcome),
            ),
            NavigationReceive::Empty => if now < self.deadline {
                Ok(self)
            } else {
                Err(NavigationOperationCompletion::transport_failure(self.kind))
            },
            NavigationReceive::Disconnected => Err(
                NavigationOperationCompletion::transport_failure(self.kind),
            ),
        }
    }

    /// Gives the response up.
    pub fn cancel(self) -> (r: NavigationOperationCompletion)
        ensures
            r == (NavigationOperationCompletion { kind: self.kind, outcome: None }),
    {
        NavigationOperationCompletion::transport_failure(self.kind)
    }
}

/// How long the engine may be driven until something is done.
pub const DEFAULT_WALL_TIMEOUT_NS: u64 = 30_000_000_000;

/// What happened while the engine is driven until something is done.
#[derive(Clone, Copy, Debug, PartialEq, Eq, Structural)]
pub enum DriveEvent {
    /// It is done.
    Completed,
    /// It is not done; `pumped` tells whether the engine was pumped since the last wait.
    NotCompleted { pumped: bool },
    /// Something woke the waiting host.
    Woken,
    DeadlinePassed,
    /// No further wake can be told from the last one.
    WakesExhausted,
}

/// What the host does next to drive the engine.
#[derive(Debug)]
pub enum DriveAction {
    Finish,
    /// Note the wakes so far, pump the engine, and look again.
    Pump,
    /// Wait for a wake later than those noted, up to this instant.
    WaitUntil(u64),
    /// Look whether it is done.
    Check,
    Fail(EngineError),
}

/// The instant up to which the engine may be driven.
pub fn drive_deadline(now: u64, timeout_ns: u64) -> (r: Result<u64, EngineError>)
    ensures
        match r {
            Ok(deadline) => deadline == now + timeout_ns,
            Err(error) => now + timeout_ns > u64::MAX && (error matches EngineError::Startup(message)
                && message@ == "wall deadline overflowed"@),
        },
{
    match now.checked_add(timeout_ns) {
        Some(deadline) => Ok(deadline),
        None => Err(EngineError::Startup("wall deadline overflowed".to_owned())),
    }
}

/// The next step of driving the engine. It is pumped before each wait, and what is done ends the drive
/// even past the deadline.
pub fn drive_next(event: DriveEvent, deadline: u64) -> (action: DriveAction)
    ensures
        action == match event {
            DriveEvent::Completed => DriveAction::Finish,
            DriveEvent::NotCompleted { pumped } => if pumped {
                DriveAction::WaitUntil(deadline)
            } else {
                DriveAction::Pump
            },
            DriveEvent::Woken => DriveAction::Check,
            DriveEvent::DeadlinePassed => DriveAction::Fail(EngineError::WallTimeLimit),
            DriveEvent::WakesExhausted => DriveAction::Fail(EngineError::WallTimeLimit),
        },
{
    match event {
        DriveEvent::Completed => DriveAction::Finish,
        DriveEvent::NotCompleted { pumped } => if pumped {
            DriveAction::WaitUntil(deadline)
        } else {
            DriveAction::Pump
        },
        DriveEvent::Woken => DriveAction::Check,
        DriveEvent::DeadlinePassed | DriveEvent::WakesExhausted => DriveAction::Fail(
            EngineError::WallTimeLimit,
        ),
    }
}

/// What polling the document-control lane gave.
#[derive(Debug)]
pub enum EngineControlPoll {
    Idle,
    Pending { deadline: u64 },
    Complete(ControlOperationCompletion),
}

/// What polling the session-navigation lane gave.
#[derive(Debug)]
pub enum EngineNavigationPoll {
    Idle,
    Pending { deadline: u64 },
    Complete(NavigationOperationCompletion),
}

/// An open engine session: its fixed configuration, and the operation that is in flight.
#[derive(Debug)]
pub struct EngineSession {
    pub clock_mode: EngineClockMode,
    pub document_control_profile: DocumentControlProfile,
    pub document_execution_profile: DocumentExecutionProfile,
    pub pending_control: Option<PendingControlOperation>,
    pub pending_navigation: Option<PendingNavigationOperation>,
}

/// The network fixture of a session that names none: live, without routes.
pub open spec fn live_fixture() -> JsonView {
    object_json(
        seq![("mode"@, JsonView::Text("live"@)), ("routes"@, JsonView::Array(Seq::empty()))],
    )
}

fn live_fixture_value() -> (value: Value)
    ensures
        value_json(value) == live_fixture(),
{
    let routes: Vec<Value> = Vec::new();
    assert(items_json(routes@) =~= Seq::empty());
    let members = vec![
        ("mode".to_owned(), text_value("live")),
        ("routes".to_owned(), value_of(NewValue::Array(routes))),
    ];
    assert(members_json(members@) =~= seq![
        ("mode"@, JsonView::Text("live"@)),
        ("routes"@, JsonView::Array(Seq::empty())),
    ]);
    value_of(NewValue::Object(members))
}

/// The first reason why a session cannot be opened with these options, where `state_fault` is what
/// the store found wrong with the initial state.
pub open spec fn open_fault(
    options: EngineSessionOpenOptions,
    state_fault: Option<SessionStateError>,
) -> Option<EngineError> {
    let top_level = options.document_control_profile == DocumentControlProfile::TopLevelSession;
    if !top_level && (options.state is Some || options.network is Some) {
        Some(
            EngineError::SessionConfiguration(
                "state and network configuration require a top-level controlled session",
            ),
        )
    } else if options.state is Some && state_fault is Some {
        Some(EngineError::SessionStateValidation(state_fault->0))
    } else if top_level && options.clock_mode is Real {
        Some(
            EngineError::SessionConfiguration(
                "top-level controlled sessions require a controlled clock",
            ),
        )
    } else {
        None
    }
}

/// The session that the options open, with nothing in flight.
pub open spec fn opened_session(options: EngineSessionOpenOptions) -> EngineSession {
    EngineSession {
        clock_mode: options.clock_mode,
        document_control_profile: options.document_control_profile,
        document_execution_profile: options.document_execution_profile,
        pending_control: None,
        pending_navigation: None,
    }
}

/// Whether a session may use its navigation lane, or why not.
pub open spec fn navigation_permission(session: EngineSession) -> Result<(), EngineError> {
    if session.document_control_profile != DocumentControlProfile::TopLevelSession {
        Err(EngineError::TopLevelSessionRequired)
    } else if session.busy() {
        Err(EngineError::ControlAlreadyPending)
    } else {
        Ok(())
    }
}

/// The instant at which a control command submitted at `now` times out, or why it is refused.
pub open spec fn control_admission(session: EngineSession, now: u64, timeout_ns: u64) -> Result<
    u64,
    EngineError,
> {
    if session.busy() {
        Err(EngineError::ControlAlreadyPending)
    } else if now + timeout_ns > u64::MAX {
        Err(EngineError::ControlDeadlineOverflow)
    } else {
        Ok((now + timeout_ns) as u64)
    }
}

/// The instant at which a session-navigation operation submitted at `now` times out, or why it is
/// refused.
pub open spec fn navigation_admission(session: EngineSession, now: u64, timeout_ns: u64) -> Result<
    u64,
    EngineError,
> {
    match (control_admission(session, now, timeout_ns), navigation_permission(session)) {
        (Err(error), _) => Err(error),
        (Ok(_), Err(error)) => Err(error),
        (Ok(deadline), Ok(_)) => Ok(deadline),
    }
}

/// What the submission of a session-navigation operation makes of a session, and how it answers. While
/// an operation is in flight another is refused, and what is in flight stays as it is.
pub open spec fn navigation_submitted(
    before: EngineSession,
    kind: NavigationOperationKind,
    now: u64,
    timeout_ns: u64,
    sent: Result<(), String>,
    after: EngineSession,
    r: Result<(), EngineError>,
) -> bool {
    match (navigation_admission(before, now, timeout_ns), sent) {
        (Err(error), _) => r == Err::<(), EngineError>(error) && after == before,
        (Ok(_), Err(diagnostic)) => {
            &&& r == Err::<(), EngineError>(EngineError::SessionNavigation(diagnostic))
            &&& after == before
        },
        (Ok(deadline), Ok(_)) => {
            &&& r == Ok::<(), EngineError>(())
            &&& after == (EngineSession {
                pending_navigation: Some(PendingNavigationOperation { kind, deadline }),
                ..before
            })
        },
    }
}

/// While an operation is in flight, every submission is refused as such, whatever it is and whenever
/// it is made.
pub proof fn law_a_second_submission_is_refused(session: EngineSession, now: u64, timeout_ns: u64)
    requires
        session.busy(),
    ensures
        control_admission(session, now, timeout_ns) == Err::<u64, EngineError>(
            EngineError::ControlAlreadyPending,
        ),
        navigation_admission(session, now, timeout_ns) == Err::<u64, EngineError>(
            EngineError::ControlAlreadyPending,
        ),
{
}

impl EngineSession {
    /// Whether an operation is in flight.
    pub open spec fn busy(self) -> bool {
        self.pending_control is Some || self.pending_navigation is Some
    }

    fn is_busy(&self) -> (r: bool)
        ensures
            r == self.busy(),
    {
        self.pending_control.is_some() || self.pending_navigation.is_some()
    }

    /// Checks the options and makes the session, and the network that a top-level session needs.
    pub fn start_with_options(
        options: EngineSessionOpenOptions,
        state_fault: Option<SessionStateError>,
    ) -> (r: Result<(EngineSession, Option<NetworkPlan>), EngineError>)
        ensures
            match r {
                Err(error) => open_fault(options, state_fault) == Some(error),
                Ok((session, network)) => {
                    &&& open_fault(options, state_fault) is None
                    &&& session == opened_session(options)
                    &&& match network {
                        None => options.document_control_profile
                            == DocumentControlProfile::SingleDocument,
                        Some(plan) => {
                            &&& options.document_control_profile
                                == DocumentControlProfile::TopLevelSession
                            &&& options.clock_mode == (EngineClockMode::Controlled {
                                initial_time_ns: plan.initial_virtual_time_ns,
                            })
                            &&& match options.network {
                                Some(fixture) => plan.fixture == fixture,
                                None => value_json(plan.fixture) == live_fixture(),
                            }
                        },
                    }
                },
            },
    {
        let top_level = options.document_control_profile
            == DocumentControlProfile::TopLevelSession;
        if !top_level && (options.state.is_some() || options.network.is_some()) {
            return Err(
                EngineError::SessionConfiguration(
                    "state and network configuration require a top-level controlled session",
                ),
            );
        }
        if options.state.is_some() {
            if let Some(fault) = state_fault {
                return Err(EngineError::SessionStateValidation(fault));
            }
        }
        let clock_mode = options.clock_mode;
        let session = EngineSession {
            clock_mode,
            document_control_profile: options.document_control_profile,
            document_execution_profile: options.document_execution_profile,
            pending_control: None,
            pending_navigation: None,
        };
        if !top_level {
            return Ok((session, None));
        }
        match clock_mode {
            EngineClockMode::Real => Err(
                EngineError::SessionConfiguration(
                    "top-level controlled sessions require a controlled clock",
                ),
            ),
            EngineClockMode::Controlled { initial_time_ns } => {
                let fixture = match options.network {
                    Some(fixture) => fixture,
                    None => live_fixture_value(),
                };
                Ok((session, Some(NetworkPlan { fixture, initial_virtual_time_ns: initial_time_ns })))
            },
        }
    }

    /// Checks and makes a session with the given profile, baseline execution, and neither initial
    /// state nor a network fixture.
    pub fn start_with_profile(
        clock_mode: EngineClockMode,
        document_control_profile: DocumentControlProfile,
    ) -> (r: Result<(EngineSession, Option<NetworkPlan>), EngineError>)
        ensures
            r is Err <==> document_control_profile == DocumentControlProfile::TopLevelSession
                && clock_mode is Real,
            r matches Err(error) ==> error == EngineError::SessionConfiguration(
                "top-level controlled sessions require a controlled clock",
            ),
            r matches Ok((session, network)) ==> {
                &&& session == (EngineSession {
                    clock_mode,
                    document_control_profile,
                    document_execution_profile: DocumentExecutionProfile::Baseline,
                    pending_control: None,
                    pending_navigation: None,
                })
                &&& (network is Some) == (document_control_profile
                    == DocumentControlProfile::TopLevelSession)
                &&& network matches Some(plan) ==> value_json(plan.fixture) == live_fixture()
                    && clock_mode == (EngineClockMode::Controlled {
                    initial_time_ns: plan.initial_virtual_time_ns,
                })
            },
    {
        EngineSession::start_with_options(
            EngineSessionOpenOptions {
                clock_mode,
                document_control_profile,
                document_execution_profile: DocumentExecutionProfile::Baseline,
                state: None,
                network: None,
            },
            None,
        )
    }

    /// Checks and makes a session that keeps to a single document.
    pub fn start(clock_mode: EngineClockMode) -> (session: EngineSession)
        ensures
            session == (EngineSession {
                clock_mode,
                document_control_profile: DocumentControlProfile::SingleDocument,
                document_execution_profile: DocumentExecutionProfile::Baseline,
                pending_control: None,
                pending_navigation: None,
            }),
    {
        EngineSession {
            clock_mode,
            document_control_profile: DocumentControlProfile::SingleDocument,
            document_execution_profile: DocumentExecutionProfile::Baseline,
            pending_control: None,
            pending_navigation: None,
        }
    }

    pub fn clock_mode(&self) -> (r: EngineClockMode)
        ensures
            r == self.clock_mode,
    {
        self.clock_mode
    }

    pub fn document_control_profile(&self) -> (r: DocumentControlProfile)
        ensures
            r == self.document_control_profile,
    {
        self.document_control_profile
    }

    pub fn document_execution_profile(&self) -> (r: DocumentExecutionProfile)
        ensures
            r == self.document_execution_profile,
    {
        self.document_execution_profile
    }

    /// Whether an expression may be evaluated by blocking: only in real time, and only while nothing
    /// is in flight.
    pub fn check_evaluate(&self) -> (r: Result<(), EngineError>)
        ensures
            r == if self.clock_mode is Controlled {
                Err::<(), EngineError>(
                    EngineError::BlockingHelperUnavailableInControlledMode("evaluate"),
                )
            } else if self.busy() {
                Err(EngineError::ControlAlreadyPending)
            } else {
                Ok(())
            },
    {
        if self.clock_mode.is_controlled() {
            return Err(EngineError::BlockingHelperUnavailableInControlledMode("evaluate"));
        }
        if self.is_busy() {
            return Err(EngineError::ControlAlreadyPending);
        }
        Ok(())
    }

    /// The instant at which a control command submitted now times out, where it may be submitted.
    pub fn control_deadline(&self, now: u64, timeout_ns: u64) -> (r: Result<u64, EngineError>)
        ensures
            r == control_admission(*self, now, timeout_ns),
    {
        if self.is_busy() {
            return Err(EngineError::ControlAlreadyPending);
        }
        match now.checked_add(timeout_ns) {
            Some(deadline) => Ok(deadline),
            None => Err(EngineError::ControlDeadlineOverflow),
        }
    }

    /// Whether the session's navigation may be observed: only in a top-level session, and only while
    /// nothing is in flight.
    pub fn observe_session_navigation(&self) -> (r: Result<(), EngineError>)
        ensures
            r == navigation_permission(*self),
    {
        if self.document_control_profile != DocumentControlProfile::TopLevelSession {
            return Err(EngineError::TopLevelSessionRequired);
        }
        if self.is_busy() {
            return Err(EngineError::ControlAlreadyPending);
        }
        Ok(())
    }

    /// Whether the session may navigate, which is as for an observation.
    pub fn navigate(&self) -> (r: Result<(), EngineError>)
        ensures
            r == navigation_permission(*self),
    {
        self.observe_session_navigation()
    }

    /// The instant at which a session-navigation operation submitted now times out, where it may be
    /// submitted.
    pub fn navigation_deadline(&self, now: u64, timeout_ns: u64) -> (r: Result<u64, EngineError>)
        ensures
            r == navigation_admission(*self, now, timeout_ns),
    {
        let deadline = self.control_deadline(now, timeout_ns)?;
        match self.observe_session_navigation() {
            Ok(_) => Ok(deadline),
            Err(error) => Err(error),
        }
    }

    /// Submits a control command, where `sent` is what the engine made of it. The host asks
    /// `control_deadline` first, and hands the engine nothing where that refuses. While an operation
    /// is in flight another is refused, and what is in flight stays as it is.
    pub fn submit_document_control(
        &mut self,
        now: u64,
        timeout_ns: u64,
        sent: Result<(), String>,
    ) -> (r: Result<(), EngineError>)
        ensures
            r == match (control_admission(*old(self), now, timeout_ns), sent) {
                (Err(error), _) => Err::<(), EngineError>(error),
                (Ok(_), Err(diagnostic)) => Err(EngineError::ControlSubmission(diagnostic)),
                (Ok(_), Ok(_)) => Ok(()),
            },
            r is Err ==> *final(self) == *old(self),
            r is Ok ==> {
                &&& final(self).pending_control is Some
                &&& final(self).pending_control->0@ == now + timeout_ns
                &&& *final(self) == (EngineSession {
                    pending_control: final(self).pending_control,
                    ..*old(self)
                })
            },
    {
        let deadline = self.control_deadline(now, timeout_ns)?;
        match sent {
            Ok(_) => {
                self.pending_control = Some(PendingControlOperation::new(deadline));
                Ok(())
            },
            Err(diagnostic) => Err(EngineError::ControlSubmission(diagnostic)),
        }
    }

    fn submit_navigation_operation(
        &mut self,
        kind: NavigationOperationKind,
        now: u64,
        timeout_ns: u64,
        sent: Result<(), String>,
    ) -> (r: Result<(), EngineError>)
        ensures
            navigation_submitted(*old(self), kind, now, timeout_ns, sent, *final(self), r),
    {
        let deadline = self.navigation_deadline(now, timeout_ns)?;
        match sent {
            Ok(_) => {
                self.pending_navigation = Some(PendingNavigationOperation { kind, deadline });
                Ok(())
            },
            Err(diagnostic) => Err(EngineError::SessionNavigation(diagnostic)),
        }
    }

    /// Submits a passive observation, where `sent` is what the engine made of it. The host asks
    /// `navigation_deadline` first, and hands the engine nothing where that refuses.
    pub fn submit_session_navigation_observation(
        &mut self,
        now: u64,
        timeout_ns: u64,
        sent: Result<(), String>,
    ) -> (r: Result<(), EngineError>)
        ensures
            navigation_submitted(
                *old(self),
                NavigationOperationKind::Observe,
                now,
                timeout_ns,
                sent,
                *final(self),
                r,
            ),
    {
        self.submit_navigation_operation(NavigationOperationKind::Observe, now, timeout_ns, sent)
    }

    /// Submits a navigation, where `sent` is what the engine made of it. The host asks
    /// `navigation_deadline` first, and hands the engine nothing where that refuses.
    pub fn submit_session_navigation(
        &mut self,
        now: u64,
        timeout_ns: u64,
        sent: Result<(), String>,
    ) -> (r: Result<(), EngineError>)
        ensures
            navigation_submitted(
                *old(self),
                NavigationOperationKind::Navigate,
                now,
                timeout_ns,
                sent,
                *final(self),
                r,
            ),
    {
        self.submit_navigation_operation(NavigationOperationKind::Navigate, now, timeout_ns, sent)
    }

    /// Takes up what the receiver of the control command gave when it was asked as the operation's
    /// `receive_mode` says. At or past its deadline the operation is over.
    pub fn poll_control_operation(&mut self, received: ControlReceive, now: u64) -> (poll:
        EngineControlPoll)
        requires
            old(self).pending_control matches Some(operation) ==> received.in_mode(
                mode_at(operation@, now),
            ),
        ensures
            match (old(self).pending_control, received) {
                (None, _) => poll == EngineControlPoll::Idle && *final(self) == *old(self),
                (Some(operation), ControlReceive::Tried(None)) => {
                    &&& poll == (EngineControlPoll::Pending { deadline: operation@ })
                    &&& *final(self) == *old(self)
                },
                (Some(_), ControlReceive::Tried(Some(outcome))) => {
                    &&& poll matches EngineControlPoll::Complete(completion) && completion@
                        == completed(outcome)
                    &&& *final(self) == (EngineSession { pending_control: None, ..*old(self) })
                },
                (Some(_), ControlReceive::Final(outcome)) => {
                    &&& poll matches EngineControlPoll::Complete(completion) && completion@
                        == completed(outcome)
                    &&& *final(self) == (EngineSession { pending_control: None, ..*old(self) })
                },
            },
            old(self).pending_control matches Some(operation) && now >= operation@ ==> poll is Complete,
    {
        let operation = match self.pending_control.take() {
            Some(operation) => operation,
            None => {
                return EngineControlPoll::Idle;
            },
        };
        match operation.poll(received, now) {
            ControlOperationPoll::Pending(operation) => {
                let deadline = operation.deadline();
                self.pending_control = Some(operation);
                EngineControlPoll::Pending { deadline }
            },
            ControlOperationPoll::Complete(completion) => EngineControlPoll::Complete(completion),
        }
    }

    /// Gives the control command in flight up, with what its receiver then reports.
    pub fn cancel_control_operation(&mut self, abandoned: Arc<DocumentControlReceiveOutcome>) -> (r:
        Option<ControlOperationCompletion>)
        ensures
            *final(self) == (EngineSession { pending_control: None, ..*old(self) }),
            match r {
                Some(completion) => old(self).pending_control is Some && completion@ == completed(
                    abandoned,
                ),
                None => old(self).pending_control is None,
            },
    {
        match self.pending_control.take() {
            Some(operation) => Some(operation.cancel(abandoned)),
            None => None,
        }
    }

    /// Takes up what the receiver of the session-navigation operation gave.
    pub fn poll_session_navigation(&mut self, received: NavigationReceive, now: u64) -> (poll:
        EngineNavigationPoll)
        ensures
            match old(self).pending_navigation {
                None => poll == EngineNavigationPoll::Idle && *final(self) == *old(self),
                Some(operation) => if received is Empty && now < operation.deadline {
                    &&& poll == (EngineNavigationPoll::Pending { deadline: operation.deadline })
                    &&& *final(self) == *old(self)
                } else {
                    &&& poll == EngineNavigationPoll::Complete(
                        NavigationOperationCompletion {
                            kind: operation.kind,
                            outcome: match received {
                                NavigationReceive::Received(outcome) => Some(outcome),
                                _ => None,
                            },
                        },
                    )
                    &&& *final(self) == (EngineSession { pending_navigation: None, ..*old(self) })
                },
            },
    {
        let operation = match self.pending_navigation.take() {
            Some(operation) => operation,
            None => {
                return EngineNavigationPoll::Idle;
            },
        };
        match operation.poll(received, now) {
            Ok(operation) => {
                self.pending_navigation = Some(operation);
                EngineNavigationPoll::Pending { deadline: operation.deadline }
            },
            Err(completion) => EngineNavigationPoll::Complete(completion),
        }
    }

    /// Gives the session-navigation operation in flight up. An admission is not undone.
    pub fn cancel_session_navigation(&mut self) -> (r: Option<NavigationOperationCompletion>)
        ensures
            *final(self) == (EngineSession { pending_navigation: None, ..*old(self) }),
            r == match old(self).pending_navigation {
                Some(operation) => Some(
                    NavigationOperationCompletion { kind: operation.kind, outcome: None },
                ),
                None => None,
            },
    {
        match self.pending_navigation.take() {
            Some(operation) => Some(operation.cancel()),
            None => None,
        }
    }

    /// Forgets what is in flight.
    pub fn close(&mut self)
        ensures
            *final(self) == (EngineSession {
                pending_control: None,
                pending_navigation: None,
                ..*old(self)
            }),
    {
        self.pending_control = None;
        self.pending_navigation = None;
    }
}

} // verus!
