use std::collections::BTreeSet;
use std::sync::Arc;

use serde_json::Value;
use stasis::control::{
    DocumentControlReceiveOutcome, NavigationOperationCompletion, NavigationOperationKind,
    SessionNavigationError,
};
use stasis::engine::{
    controlled_disabled_boolean_preferences, controlled_preference, drive_deadline, drive_next,
    preference_for_clock_mode, DocumentClockConfiguration, DriveAction, DriveEvent,
    EngineClockMode, EngineControlPoll, EngineError, EngineNavigationPoll, EngineSession,
    EngineSessionOpenOptions, NavigationReceive, CONTROLLED_DISABLED_BOOLEAN_PREFERENCE_COUNT,
    DEFAULT_WALL_TIMEOUT_NS,
};
use stasis::js_value::{js_value_to_json, JsValue};
use stasis::network::{SessionStateError, SessionStateErrorKind};
use stasis::operation::{ControlOutcomeDisposition, ControlReceive};
use stasis::profile::{DocumentControlProfile, DocumentExecutionProfile};

#[test]
fn javascript_objects_cannot_collide_with_value_tags() {
    let object = vec![("kind".to_owned(), JsValue::Text("undefined".to_owned()))];

    let value = js_value_to_json(&JsValue::Object(object));

    assert_eq!(value["kind"], "object");
    assert_eq!(value["value"]["kind"]["kind"], "string");
    assert_eq!(value["value"]["kind"]["value"], "undefined");
}

#[test]
fn javascript_object_keys_are_emitted_in_stable_order() {
    let object = vec![
        ("z".to_owned(), JsValue::Null),
        ("a".to_owned(), JsValue::Null),
    ];

    let value = js_value_to_json(&JsValue::Object(object));
    let keys = value["value"]
        .as_object()
        .unwrap()
        .keys()
        .map(String::as_str)
        .collect::<Vec<_>>();

    assert_eq!(keys, ["a", "z"]);
}

#[test]
fn real_mode_preserves_realtime_and_automatic_painting() {
    let mode = EngineClockMode::Real;

    assert_eq!(mode.document_clock(), DocumentClockConfiguration::Realtime);
    assert!(mode.paints_frames_automatically());
    assert!(!mode.is_controlled());
}

#[test]
fn controlled_mode_uses_a_deterministic_unix_origin_and_no_automatic_paint() {
    let mode = EngineClockMode::Controlled {
        initial_time_ns: 42,
    };

    let DocumentClockConfiguration::Controlled {
        initial_time_ns,
        unix_time_origin_ns,
    } = mode.document_clock()
    else {
        panic!("controlled engine mode selected a realtime document clock");
    };
    assert_eq!(initial_time_ns, 42);
    assert_eq!(unix_time_origin_ns, 0);
    assert!(!mode.paints_frames_automatically());
    assert!(mode.is_controlled());
}

#[test]
fn controlled_runtime_has_one_exact_disabled_preference_inventory() {
    let names = controlled_disabled_boolean_preferences();
    assert_eq!(names.len(), CONTROLLED_DISABLED_BOOLEAN_PREFERENCE_COUNT);
    assert_eq!(CONTROLLED_DISABLED_BOOLEAN_PREFERENCE_COUNT, 75);

    let unique = names.iter().copied().collect::<BTreeSet<_>>();
    assert_eq!(
        unique.len(),
        CONTROLLED_DISABLED_BOOLEAN_PREFERENCE_COUNT,
        "the frozen Controlled policy must not contain duplicate fields",
    );

    let enabled = names
        .iter()
        .copied()
        .filter(|name| {
            controlled_preference(name, false, DocumentControlProfile::SingleDocument)
        })
        .collect::<Vec<_>>();
    assert!(
        enabled.is_empty(),
        "Controlled left excluded preferences enabled: {enabled:?}",
    );
}

#[test]
fn controlled_policy_resists_upstream_defaults_drifting_true() {
    assert!(
        controlled_disabled_boolean_preferences()
            .into_iter()
            .all(|name| !controlled_preference(
                name,
                true,
                DocumentControlProfile::SingleDocument
            )),
        "every governed preference must be overwritten, not inherited",
    );
}

#[test]
fn clock_policy_preserves_real_and_unmanaged_controlled_defaults() {
    let controlled = EngineClockMode::Controlled { initial_time_ns: 0 };
    for default in [false, true] {
        for name in controlled_disabled_boolean_preferences() {
            assert_eq!(
                preference_for_clock_mode(
                    EngineClockMode::Real,
                    name,
                    default,
                    DocumentControlProfile::SingleDocument,
                ),
                default
            );
        }
        assert!(!preference_for_clock_mode(
            controlled,
            "dom_cookiestore_enabled",
            default,
            DocumentControlProfile::SingleDocument,
        ));
        assert!(preference_for_clock_mode(
            controlled,
            "dom_cookiestore_enabled",
            default,
            DocumentControlProfile::TopLevelSession,
        ));
        for name in [
            "dom_abort_controller_enabled",
            "dom_canvas_text_enabled",
            "dom_mutation_observer_enabled",
            "dom_uievent_which_enabled",
            "dom_visual_viewport_enabled",
            "js_wasm_enabled",
            "layout_grid_enabled",
            "network_http_cache_disabled",
        ] {
            assert_eq!(
                preference_for_clock_mode(
                    controlled,
                    name,
                    default,
                    DocumentControlProfile::SingleDocument,
                ),
                default
            );
        }
    }
}

#[test]
fn a_blocking_helper_cannot_claim_no_effect_after_bypassing_controlled_turns() {
    let error =
        EngineError::BlockingHelperUnavailableInControlledMode("evaluate").to_protocol_error();

    assert_eq!(error.code, "engine_helper_requires_realtime");
    assert_eq!(error.state_effect, "none");
}

#[test]
fn every_script_value_carries_its_tag() {
    let cases = [
        (JsValue::Undefined, r#"{"kind":"undefined"}"#),
        (JsValue::Null, r#"{"kind":"null"}"#),
        (JsValue::Boolean(true), r#"{"kind":"boolean","value":true}"#),
        (
            JsValue::Number(Value::from(7)),
            r#"{"kind":"number","value":7}"#,
        ),
        (
            JsValue::NonFiniteNumber("NaN".to_owned()),
            r#"{"kind":"non_finite_number","value":"NaN"}"#,
        ),
        (
            JsValue::Text("x".to_owned()),
            r#"{"kind":"string","value":"x"}"#,
        ),
        (
            JsValue::Element("e".to_owned()),
            r#"{"kind":"element","reference":"e"}"#,
        ),
        (
            JsValue::ShadowRoot("r".to_owned()),
            r#"{"kind":"shadow_root","reference":"r"}"#,
        ),
        (
            JsValue::Frame("f".to_owned()),
            r#"{"kind":"frame","reference":"f"}"#,
        ),
        (
            JsValue::Window("w".to_owned()),
            r#"{"kind":"window","reference":"w"}"#,
        ),
        (
            JsValue::Array(vec![JsValue::Null]),
            r#"{"kind":"array","value":[{"kind":"null"}]}"#,
        ),
        (
            JsValue::Object(vec![
                ("b".to_owned(), JsValue::Null),
                ("a".to_owned(), JsValue::Boolean(false)),
                ("b".to_owned(), JsValue::Undefined),
            ]),
            r#"{"kind":"object","value":{"a":{"kind":"boolean","value":false},"b":{"kind":"undefined"}}}"#,
        ),
    ];
    for (value, expected) in cases {
        assert_eq!(js_value_to_json(&value).to_string(), expected);
    }
}

fn top_level(state: Option<u64>, network: Option<Value>) -> EngineSessionOpenOptions {
    EngineSessionOpenOptions {
        clock_mode: EngineClockMode::Controlled { initial_time_ns: 5 },
        document_control_profile: DocumentControlProfile::TopLevelSession,
        document_execution_profile: DocumentExecutionProfile::Baseline,
        state,
        network,
    }
}

#[test]
fn a_top_level_session_gets_a_network_with_its_clock() {
    let (session, plan) = EngineSession::start_with_options(top_level(Some(1), None), None).unwrap();
    let plan = plan.unwrap();
    assert_eq!(plan.initial_virtual_time_ns, 5);
    assert_eq!(plan.fixture.to_string(), r#"{"mode":"live","routes":[]}"#);
    assert_eq!(
        session.document_control_profile(),
        DocumentControlProfile::TopLevelSession
    );
    assert!(session.clock_mode().is_controlled());

    let fixture = Value::from("fixture");
    let (_, plan) =
        EngineSession::start_with_options(top_level(None, Some(fixture.clone())), None).unwrap();
    assert_eq!(plan.unwrap().fixture, fixture);

    let error = EngineSession::start_with_profile(
        EngineClockMode::Real,
        DocumentControlProfile::TopLevelSession,
    )
    .unwrap_err()
    .to_protocol_error();
    assert_eq!(error.code, "invalid_request");
    assert_eq!(
        error.message,
        "top-level controlled sessions require a controlled clock"
    );

    let mut options = top_level(Some(1), None);
    options.document_control_profile = DocumentControlProfile::SingleDocument;
    let error = EngineSession::start_with_options(options, None)
        .unwrap_err()
        .to_protocol_error();
    assert_eq!(
        error.message,
        "state and network configuration require a top-level controlled session"
    );
}

#[test]
fn a_refused_initial_state_refuses_the_session() {
    let fault = SessionStateError {
        kind: SessionStateErrorKind::Other,
        code: "cookie_limit_exceeded",
    };
    let error = EngineSession::start_with_options(top_level(Some(1), None), Some(fault))
        .unwrap_err()
        .to_protocol_error();
    assert_eq!(error.code, "cookie_limit_exceeded");
    assert!(!error.fatal);
}

#[test]
fn one_operation_is_in_flight_at_a_time() {
    let (mut session, _) = EngineSession::start_with_profile(
        EngineClockMode::Controlled { initial_time_ns: 0 },
        DocumentControlProfile::TopLevelSession,
    )
    .unwrap();
    let deadline = session.control_deadline(10, 5).unwrap();
    assert_eq!(deadline, 15);
    assert_eq!(
        session.control_deadline(u64::MAX, 1).unwrap_err().to_protocol_error().code,
        "engine_control_deadline_overflow"
    );
    session.submit_document_control(10, 5, Ok(())).unwrap();
    assert_eq!(
        session.navigation_deadline(10, 5).unwrap_err().to_protocol_error().code,
        "engine_control_busy"
    );
    assert!(matches!(
        session.poll_control_operation(ControlReceive::Tried(None), 14),
        EngineControlPoll::Pending { deadline: 15 }
    ));
    let outcome = Arc::new(DocumentControlReceiveOutcome::ObserveTransportFailure(
        "TimedOut".to_owned(),
    ));
    assert!(matches!(
        session.poll_control_operation(ControlReceive::Final(outcome), 15),
        EngineControlPoll::Complete(_)
    ));
    assert!(matches!(
        session.poll_control_operation(ControlReceive::Tried(None), 15),
        EngineControlPoll::Idle
    ));

    assert_eq!(session.navigation_deadline(20, 5).unwrap(), 25);
    session.submit_session_navigation(20, 5, Ok(())).unwrap();
    assert!(matches!(
        session.poll_session_navigation(NavigationReceive::Empty, 24),
        EngineNavigationPoll::Pending { deadline: 25 }
    ));
    assert!(matches!(
        session.poll_session_navigation(NavigationReceive::Empty, 25),
        EngineNavigationPoll::Complete(NavigationOperationCompletion {
            kind: NavigationOperationKind::Navigate,
            outcome: None,
        })
    ));
    session
        .submit_session_navigation_observation(25, 5, Ok(()))
        .unwrap();
    let given_up = session.cancel_session_navigation().unwrap();
    assert_eq!(given_up.kind(), NavigationOperationKind::Observe);
    assert!(!given_up.response_received());
    assert!(matches!(
        given_up.outcome(),
        Err(SessionNavigationError::ChannelClosed)
    ));
    assert!(matches!(
        given_up.into_outcome(),
        Err(SessionNavigationError::ChannelClosed)
    ));
    let refused = NavigationOperationCompletion::response(
        NavigationOperationKind::Navigate,
        Err(SessionNavigationError::SourceInactive),
    );
    assert!(refused.response_received());
    assert!(matches!(
        refused.outcome(),
        Err(SessionNavigationError::SourceInactive)
    ));
    assert!(matches!(
        refused.into_outcome(),
        Err(SessionNavigationError::SourceInactive)
    ));
    assert!(session.cancel_session_navigation().is_none());

    session.submit_document_control(30, 10, Ok(())).unwrap();
    let abandoned = session
        .cancel_control_operation(Arc::new(
            DocumentControlReceiveOutcome::DriveOneTurnOutcomeIndeterminate("gone".to_owned()),
        ))
        .unwrap();
    assert_eq!(
        abandoned.disposition(),
        ControlOutcomeDisposition::Indeterminate
    );
    session.submit_document_control(40, 10, Ok(())).unwrap();
    session.close();
    assert!(session.check_evaluate().is_err());
    assert!(EngineSession::start(EngineClockMode::default())
        .check_evaluate()
        .is_ok());
    assert_eq!(
        EngineSession::start(EngineClockMode::Real)
            .navigation_deadline(0, 1)
            .unwrap_err()
            .to_protocol_error()
            .code,
        "engine_top_level_session_required"
    );
}

#[test]
fn engine_errors_are_reported_with_their_effect() {
    let cases = [
        (EngineError::Startup("m".to_owned()), "engine_startup_failed", "none", false),
        (
            EngineError::ClockConfiguration("d".to_owned()),
            "engine_clock_configuration_failed",
            "none",
            false,
        ),
        (
            EngineError::ControlledNetworkConfiguration("d".to_owned()),
            "internal_runtime_failure",
            "none",
            true,
        ),
        (
            EngineError::UnpublishedInitialization("d".to_owned()),
            "session_state_initialization_failed",
            "none",
            true,
        ),
        (
            EngineError::WallTimeLimit,
            "wall_time_limit_exceeded",
            "indeterminate",
            false,
        ),
        (
            EngineError::Evaluation("d".to_owned()),
            "evaluation_failed",
            "partial",
            false,
        ),
    ];
    for (error, code, effect, fatal) in cases {
        let reported = error.to_protocol_error();
        assert_eq!(reported.code, code);
        assert_eq!(reported.state_effect, effect);
        assert_eq!(reported.fatal, fatal);
    }
}

#[test]
fn only_an_idle_top_level_session_navigates() {
    let single = EngineSession::start(EngineClockMode::Controlled { initial_time_ns: 0 });
    assert!(matches!(
        single.observe_session_navigation(),
        Err(EngineError::TopLevelSessionRequired)
    ));
    assert!(matches!(
        single.navigate(),
        Err(EngineError::TopLevelSessionRequired)
    ));

    let (mut session, _) = EngineSession::start_with_profile(
        EngineClockMode::Controlled { initial_time_ns: 0 },
        DocumentControlProfile::TopLevelSession,
    )
    .unwrap();
    assert!(session.observe_session_navigation().is_ok());
    assert!(session.navigate().is_ok());
    session.submit_document_control(0, 10, Ok(())).unwrap();
    assert!(matches!(
        session.observe_session_navigation(),
        Err(EngineError::ControlAlreadyPending)
    ));
    assert!(matches!(
        session.navigate(),
        Err(EngineError::ControlAlreadyPending)
    ));
}

#[test]
fn a_second_submission_is_refused_and_leaves_the_first_in_flight() {
    let (mut session, _) = EngineSession::start_with_profile(
        EngineClockMode::Controlled { initial_time_ns: 0 },
        DocumentControlProfile::TopLevelSession,
    )
    .unwrap();
    session.submit_document_control(10, 5, Ok(())).unwrap();
    assert!(matches!(
        session.submit_document_control(11, 20, Ok(())),
        Err(EngineError::ControlAlreadyPending)
    ));
    assert!(matches!(
        session.submit_session_navigation_observation(11, 20, Ok(())),
        Err(EngineError::ControlAlreadyPending)
    ));
    assert!(matches!(
        session.submit_session_navigation(u64::MAX, 20, Err("never sent".to_owned())),
        Err(EngineError::ControlAlreadyPending)
    ));
    assert!(matches!(
        session.poll_control_operation(ControlReceive::Tried(None), 11),
        EngineControlPoll::Pending { deadline: 15 }
    ));
    session.close();

    session.submit_session_navigation(10, 5, Ok(())).unwrap();
    assert!(matches!(
        session.submit_document_control(11, 20, Ok(())),
        Err(EngineError::ControlAlreadyPending)
    ));
    assert!(matches!(
        session.poll_session_navigation(NavigationReceive::Empty, 11),
        EngineNavigationPoll::Pending { deadline: 15 }
    ));
}

#[test]
fn a_refused_submission_leaves_nothing_in_flight() {
    let (mut session, _) = EngineSession::start_with_profile(
        EngineClockMode::Controlled { initial_time_ns: 0 },
        DocumentControlProfile::TopLevelSession,
    )
    .unwrap();
    assert!(matches!(
        session.submit_document_control(u64::MAX, 1, Ok(())),
        Err(EngineError::ControlDeadlineOverflow)
    ));
    assert!(matches!(
        session.submit_document_control(0, 1, Err("no webview".to_owned())),
        Err(EngineError::ControlSubmission(diagnostic)) if diagnostic == "no webview"
    ));
    assert!(matches!(
        session.submit_session_navigation_observation(0, 1, Err("no channel".to_owned())),
        Err(EngineError::SessionNavigation(diagnostic)) if diagnostic == "no channel"
    ));
    assert!(matches!(
        session.poll_control_operation(ControlReceive::Tried(None), 0),
        EngineControlPoll::Idle
    ));

    let mut single = EngineSession::start(EngineClockMode::Real);
    assert!(matches!(
        single.submit_session_navigation(0, 1, Ok(())),
        Err(EngineError::TopLevelSessionRequired)
    ));
}

#[test]
fn the_engine_is_pumped_before_each_wait_and_driven_up_to_its_deadline() {
    assert_eq!(drive_deadline(5, DEFAULT_WALL_TIMEOUT_NS).unwrap(), 30_000_000_005);
    assert!(matches!(
        drive_deadline(u64::MAX, 1),
        Err(EngineError::Startup(message)) if message == "wall deadline overflowed"
    ));

    assert!(matches!(
        drive_next(DriveEvent::NotCompleted { pumped: false }, 9),
        DriveAction::Pump
    ));
    assert!(matches!(
        drive_next(DriveEvent::NotCompleted { pumped: true }, 9),
        DriveAction::WaitUntil(9)
    ));
    assert!(matches!(drive_next(DriveEvent::Woken, 9), DriveAction::Check));
    assert!(matches!(drive_next(DriveEvent::Completed, 9), DriveAction::Finish));
    for event in [DriveEvent::DeadlinePassed, DriveEvent::WakesExhausted] {
        assert!(matches!(
            drive_next(event, 9),
            DriveAction::Fail(EngineError::WallTimeLimit)
        ));
    }
}
