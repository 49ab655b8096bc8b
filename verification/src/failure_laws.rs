//! What a client is told of a failure: its code, whether it ends the session, and what may have
//! been changed.

use std::sync::Arc;

use vstd::prelude::*;

use crate::active::{
    ActiveFailureView, ActiveOperation, ActiveRequest, AdvanceToNextState, Answers, AutomationState,
    SessionProjectionPhase, SessionProjectionState, TransitionView,
};
use crate::answer_laws::json_of;
use crate::authority::{SessionNavigationAuthority, SessionNavigationTerminal};
use crate::control::{
    DocumentAutomationError, DocumentControlCommand, DocumentControlError,
    DocumentControlObservation, DocumentControlOutcome, DocumentControlReceiveOutcome,
    DocumentExecutionBudget, DocumentStateAuthorityError, NavigationOperationCompletion,
    NavigationOperationKind, SessionNavigationError, SettleCompletion, SettleFailure,
    SettleFailureKind,
};
use crate::control_step::control_step;
use crate::error::{details_fault, ProtocolErrorView};
use crate::failure::{decimal_member, open_timeout_view, ready_or_failure, settle_failure_view};
use crate::json::{lemma_object_member, member_of, unsigned_json, JsonView};
use crate::navigation_step::navigation_step;
use crate::network::{
    evidence_error_view, hardened_state_error, state_error_view, ControlledNetworkFailure,
    ControlledNetworkSnapshot, EvidenceLedgerError, SessionStateBackendStage, SessionStateError,
    SessionStateErrorKind,
};
use crate::operation_laws::{completed_with, is_webapp};
use crate::profile::{RequestStateEffect, SessionProfile};
use crate::shell::preempted;
use crate::text::decimal;

verus! {

/// What a client is told of what a request may have changed.
pub open spec fn told(effect: RequestStateEffect) -> Seq<char> {
    match effect {
        RequestStateEffect::Nothing => "none"@,
        RequestStateEffect::Partial => "partial"@,
    }
}

/// Whether a transition refuses a request and keeps the session.
pub open spec fn refuses(
    transition: TransitionView,
    code: Seq<char>,
    state_effect: Seq<char>,
) -> bool {
    transition matches TransitionView::Fail(failure) && failure.error.code == code
        && failure.error.state_effect == state_effect && !failure.error.fatal && !failure.fail_stop
}

/// Whether a transition ends the session.
pub open spec fn ends(
    transition: TransitionView,
    code: Seq<char>,
    state_effect: Seq<char>,
) -> bool {
    transition matches TransitionView::Fail(failure) && failure.error.code == code
        && failure.error.state_effect == state_effect && failure.error.fatal && failure.fail_stop
}

/// Whether the loss of a command leaves open what the page did.
pub open spec fn may_change_the_page(command: DocumentControlCommand) -> bool {
    !(command is Observe) && !(command matches DocumentControlCommand::Automate(bound)
        && !bound.mutating)
}

/// Whether a request waits for a plain observation.
pub open spec fn observes(operation: ActiveOperation) -> bool {
    operation is Pending || operation is Audit || operation is AdvanceToNext
}

/// A command that did not complete refuses its request, and keeps the session, where the page
/// cannot have changed; otherwise the outcome is indeterminate and the session ends.
pub proof fn law_an_incomplete_command_is_told(
    active: ActiveRequest,
    command: DocumentControlCommand,
    outcome: Arc<DocumentControlReceiveOutcome>,
    network_operations: usize,
    answers: Answers,
)
    requires
        observes(active.operation),
    ensures
        ({
            let transition = control_step(
                active,
                command,
                outcome,
                network_operations,
                answers,
            ).1;
            match *outcome {
                DocumentControlReceiveOutcome::ObserveTransportFailure(_) => refuses(
                    transition,
                    "document_control_transport_failed"@,
                    told(active.state_effect),
                ),
                DocumentControlReceiveOutcome::AutomationTransportFailure(_) => ends(
                    transition,
                    "internal_runtime_failure"@,
                    told(active.state_effect),
                ),
                DocumentControlReceiveOutcome::DriveOneTurnOutcomeIndeterminate(_) => ends(
                    transition,
                    "outcome_indeterminate"@,
                    "indeterminate"@,
                ),
                DocumentControlReceiveOutcome::CommandOutcome { outcome: _, fault: Some(_) } =>
                if may_change_the_page(command) {
                    ends(transition, "outcome_indeterminate"@, "indeterminate"@)
                } else {
                    ends(transition, "internal_runtime_failure"@, told(active.state_effect))
                },
                DocumentControlReceiveOutcome::CommandOutcome { outcome, fault: None } =>
                match outcome {
                    DocumentControlOutcome::Completed(_) => true,
                    DocumentControlOutcome::AutomationCompleted { .. } => ends(
                        transition,
                        "internal_runtime_failure"@,
                        told(active.state_effect),
                    ),
                    DocumentControlOutcome::Rejected { .. } => refuses(
                        transition,
                        "document_control_rejected"@,
                        told(active.state_effect),
                    ),
                    _ => ends(transition, "outcome_indeterminate"@, "indeterminate"@),
                },
            }
        }),
{
}

/// The code of an automation request that the engine rejected.
pub open spec fn rejection_code(error: DocumentAutomationError) -> Seq<char> {
    match error {
        DocumentAutomationError::InvalidRequest => "invalid_automation_request"@,
        DocumentAutomationError::TargetChanged => "automation_target_changed"@,
        DocumentAutomationError::ExecutionTerminated => "execution_terminated"@,
        DocumentAutomationError::StaleStateGeneration => "stale_generation"@,
        DocumentAutomationError::InvalidSelector => "invalid_selector"@,
        DocumentAutomationError::UnsupportedSelector => "unsupported_selector"@,
        DocumentAutomationError::MatchLimitExceeded => "automation_match_limit_exceeded"@,
        DocumentAutomationError::DomTraversalLimitExceeded =>
        "automation_dom_traversal_limit_exceeded"@,
        DocumentAutomationError::SelectorEvaluationLimitExceeded =>
        "automation_selector_evaluation_limit_exceeded"@,
        DocumentAutomationError::ElementNotFound => "element_not_found"@,
        DocumentAutomationError::SelectorAmbiguous => "selector_ambiguous"@,
        DocumentAutomationError::ExtractionFieldNotFound => "extraction_field_not_found"@,
        DocumentAutomationError::ExtractionFieldAmbiguous => "extraction_field_ambiguous"@,
        DocumentAutomationError::UnsupportedFillElement => "unsupported_fill_element"@,
        DocumentAutomationError::ImmutableFillElement => "immutable_fill_element"@,
        DocumentAutomationError::UnsupportedActivationElement => "unsupported_activation_element"@,
        DocumentAutomationError::DisabledActivationElement => "disabled_activation_element"@,
        DocumentAutomationError::UnsupportedCheckElement => "unsupported_check_element"@,
        DocumentAutomationError::ImmutableCheckElement => "immutable_check_element"@,
        DocumentAutomationError::UnsupportedUncheckElement => "unsupported_uncheck_element"@,
        DocumentAutomationError::ImmutableUncheckElement => "immutable_uncheck_element"@,
        DocumentAutomationError::UnsupportedSelectElement => "unsupported_select_element"@,
        DocumentAutomationError::ImmutableSelectElement => "immutable_select_element"@,
        DocumentAutomationError::InvalidSelectMultiplicity => "invalid_select_multiplicity"@,
        DocumentAutomationError::SelectValueNotFound => "select_value_not_found"@,
        DocumentAutomationError::SelectValueDisabled => "select_value_disabled"@,
        DocumentAutomationError::UnsupportedFocusElement => "unsupported_focus_element"@,
        DocumentAutomationError::UnsupportedSubmitElement => "unsupported_submit_element"@,
        DocumentAutomationError::UnsupportedLazyAttributeSerialization =>
        "unsupported_dom_serialization"@,
        DocumentAutomationError::DomOperationFailed => "document_automation_failed"@,
        DocumentAutomationError::OutputLimitExceeded => "automation_output_limit_exceeded"@,
    }
}

/// An automation command that the engine rejected refuses its request under the code of the
/// rejection, and keeps the session; one whose outcome is open ends it.
pub proof fn law_a_failed_automation_is_told(
    active: ActiveRequest,
    state: AutomationState,
    bound: crate::control::BoundAutomation,
    outcome: Arc<DocumentControlReceiveOutcome>,
    network_operations: usize,
    answers: Answers,
)
    requires
        active.operation == ActiveOperation::Automation(state),
        state.unresolved is None,
    ensures
        ({
            let transition = control_step(
                active,
                DocumentControlCommand::Automate(bound),
                outcome,
                network_operations,
                answers,
            ).1;
            match *outcome {
                DocumentControlReceiveOutcome::AutomationTransportFailure(_) => refuses(
                    transition,
                    "document_automation_transport_failed"@,
                    told(active.state_effect),
                ),
                DocumentControlReceiveOutcome::ObserveTransportFailure(_) => ends(
                    transition,
                    "internal_runtime_failure"@,
                    told(active.state_effect),
                ),
                DocumentControlReceiveOutcome::DriveOneTurnOutcomeIndeterminate(_) => ends(
                    transition,
                    "outcome_indeterminate"@,
                    "indeterminate"@,
                ),
                DocumentControlReceiveOutcome::CommandOutcome { outcome: _, fault: Some(_) } =>
                if bound.mutating {
                    ends(transition, "outcome_indeterminate"@, "indeterminate"@)
                } else {
                    ends(transition, "internal_runtime_failure"@, told(active.state_effect))
                },
                DocumentControlReceiveOutcome::CommandOutcome { outcome, fault: None } =>
                match outcome {
                    DocumentControlOutcome::AutomationCompleted { .. } => true,
                    DocumentControlOutcome::Rejected { error, .. } => refuses(
                        transition,
                        match error {
                            DocumentControlError::Automation(error) => rejection_code(error),
                            _ => "document_automation_rejected"@,
                        },
                        told(active.state_effect),
                    ),
                    DocumentControlOutcome::AutomationOutcomeIndeterminate => ends(
                        transition,
                        "outcome_indeterminate"@,
                        "indeterminate"@,
                    ),
                    _ => ends(transition, "internal_runtime_failure"@, told(active.state_effect)),
                },
            }
        }),
{
}

/// A navigation operation that failed is told by its error. Where the request has already changed
/// something the session ends.
pub proof fn law_a_failed_navigation_operation_is_told(
    active: ActiveRequest,
    completion: NavigationOperationCompletion,
    network_operations: usize,
    answers: Answers,
)
    requires
        active.operation is Settle ==> !(completion.outcome matches Some(
            Err(SessionNavigationError::TargetChanged),
        )),
    ensures
        ({
            let transition = navigation_step(active, completion, network_operations, answers).1;
            let effect = told(active.state_effect);
            let changed = active.state_effect is Partial;
            match completion.outcome {
                None => if completion.kind == NavigationOperationKind::Navigate {
                    ends(transition, "outcome_indeterminate"@, "indeterminate"@)
                } else {
                    ends(transition, "navigation_transport_failure"@, effect)
                },
                Some(Err(error)) => match error {
                    SessionNavigationError::TargetChanged => if changed {
                        ends(transition, "navigation_authority_changed"@, "partial"@)
                    } else {
                        refuses(transition, "stale_state_token"@, "none"@)
                    },
                    SessionNavigationError::NavigationInProgress => if changed {
                        ends(transition, "navigation_in_progress"@, "partial"@)
                    } else {
                        refuses(transition, "navigation_in_progress"@, "none"@)
                    },
                    SessionNavigationError::SourceInactive => if changed {
                        ends(transition, "navigation_source_inactive"@, "partial"@)
                    } else {
                        refuses(transition, "navigation_source_inactive"@, "none"@)
                    },
                    SessionNavigationError::UnsupportedScheme { .. } => if changed {
                        ends(transition, "unsupported_navigation_scheme"@, "partial"@)
                    } else {
                        refuses(transition, "unsupported_navigation_scheme"@, "none"@)
                    },
                    SessionNavigationError::NavigationStartFailed { .. } => ends(
                        transition,
                        "navigation_start_failed"@,
                        "partial"@,
                    ),
                    SessionNavigationError::ChannelClosed => ends(
                        transition,
                        "navigation_transport_failure"@,
                        if completion.kind == NavigationOperationKind::Navigate {
                            "indeterminate"@
                        } else {
                            effect
                        },
                    ),
                    SessionNavigationError::NotTopLevelSession { .. } => ends(
                        transition,
                        "session_navigation_authority_unavailable"@,
                        effect,
                    ),
                    SessionNavigationError::TargetUnavailable { .. } => ends(
                        transition,
                        "session_navigation_authority_unavailable"@,
                        effect,
                    ),
                    SessionNavigationError::Terminal(terminal) => tells_the_end(
                        transition,
                        terminal,
                        active.state_effect,
                    ),
                },
                Some(Ok(navigation)) => navigation.terminal matches Some(terminal)
                    ==> tells_the_end(transition, terminal, active.state_effect),
            }
        }),
{
    if let Some(Err(SessionNavigationError::Terminal(terminal))) = completion.outcome {
        lemma_terminal_is_told(terminal, active.state_effect);
    }
    if let Some(Ok(navigation)) = completion.outcome {
        if let Some(terminal) = navigation.terminal {
            lemma_terminal_is_told(terminal, active.state_effect);
        }
    }
}

/// Whether a transition tells of a terminal navigation, with its limit and what was observed.
pub open spec fn tells_the_end(
    transition: TransitionView,
    terminal: SessionNavigationTerminal,
    effect: RequestStateEffect,
) -> bool {
    &&& transition is Fail
    &&& match terminal {
        SessionNavigationTerminal::DocumentTransitionLimitExceeded {
            limit,
            observed,
            next_navigation_id,
        } => {
            &&& if effect is Partial {
                ends(transition, "document_transition_limit_exceeded"@, "partial"@)
            } else {
                refuses(transition, "document_transition_limit_exceeded"@, "none"@)
            }
            &&& details_tell(transition->Fail_0, "limit"@, limit as nat)
            &&& details_tell(transition->Fail_0, "observed"@, observed as nat)
            &&& details_tell(transition->Fail_0, "nextNavigationId"@, next_navigation_id as nat)
        },
        SessionNavigationTerminal::HistoryLimitExceeded {
            limit,
            observed,
            navigation_id,
            history_revision,
        } => {
            &&& if effect is Partial {
                ends(transition, "history_limit_exceeded"@, "partial"@)
            } else {
                refuses(transition, "history_limit_exceeded"@, "none"@)
            }
            &&& details_tell(transition->Fail_0, "limit"@, limit as nat)
            &&& details_tell(transition->Fail_0, "observed"@, observed as nat)
            &&& details_tell(transition->Fail_0, "navigationId"@, navigation_id as nat)
            &&& details_tell(transition->Fail_0, "historyRevision"@, history_revision as nat)
        },
        SessionNavigationTerminal::RedirectLimitExceeded { limit, observed, navigation_id } => {
            &&& ends(transition, "redirect_limit_exceeded"@, "partial"@)
            &&& details_tell(transition->Fail_0, "limit"@, limit as nat)
            &&& details_tell(transition->Fail_0, "observed"@, observed as nat)
            &&& details_tell(transition->Fail_0, "navigationId"@, navigation_id as nat)
        },
        SessionNavigationTerminal::CounterOverflow { .. } => ends(
            transition,
            "runtime_error"@,
            told(effect),
        ),
    }
}

/// Whether the details of a failure give a number under a name, in decimal.
pub open spec fn details_tell(failure: ActiveFailureView, name: Seq<char>, n: nat) -> bool {
    failure.error.details matches Some(details) && member_of(details, name) == Some(
        JsonView::Text(decimal(n)),
    )
}

proof fn lemma_terminal_is_told(terminal: SessionNavigationTerminal, effect: RequestStateEffect)
    ensures
        tells_the_end(crate::failure::terminal_failure_view(terminal, effect), terminal, effect),
{
    reveal_strlit("limit");
    reveal_strlit("observed");
    reveal_strlit("nextNavigationId");
    reveal_strlit("navigationId");
    reveal_strlit("historyRevision");
    assert("limit"@.len() == 5);
    assert("observed"@.len() == 8);
    assert("nextNavigationId"@.len() == 16);
    assert("navigationId"@.len() == 12);
    assert("historyRevision"@.len() == 15);
    match terminal {
        SessionNavigationTerminal::DocumentTransitionLimitExceeded {
            limit,
            observed,
            next_navigation_id,
        } => {
            let members = seq![
                decimal_member("limit"@, limit as nat),
                decimal_member("observed"@, observed as nat),
                decimal_member("nextNavigationId"@, next_navigation_id as nat),
            ];
            lemma_object_member(members, 0);
            lemma_object_member(members, 1);
            lemma_object_member(members, 2);
        },
        SessionNavigationTerminal::HistoryLimitExceeded {
            limit,
            observed,
            navigation_id,
            history_revision,
        } => {
            let members = seq![
                decimal_member("limit"@, limit as nat),
                decimal_member("observed"@, observed as nat),
                decimal_member("navigationId"@, navigation_id as nat),
                decimal_member("historyRevision"@, history_revision as nat),
            ];
            lemma_object_member(members, 0);
            lemma_object_member(members, 1);
            lemma_object_member(members, 2);
            lemma_object_member(members, 3);
        },
        SessionNavigationTerminal::RedirectLimitExceeded { limit, observed, navigation_id } => {
            let members = seq![
                decimal_member("limit"@, limit as nat),
                decimal_member("observed"@, observed as nat),
                decimal_member("navigationId"@, navigation_id as nat),
            ];
            lemma_object_member(members, 0);
            lemma_object_member(members, 1);
            lemma_object_member(members, 2);
        },
        SessionNavigationTerminal::CounterOverflow { .. } => {},
    }
}

/// The code of a failed network.
pub open spec fn network_code(failure: ControlledNetworkFailure) -> Seq<char> {
    match failure {
        ControlledNetworkFailure::FixtureMiss => "network_fixture_miss"@,
        ControlledNetworkFailure::ActiveOperationLimitExceeded =>
        "controlled_network_active_operation_limit_exceeded"@,
        ControlledNetworkFailure::UnknownRequestBodyLength =>
        "unsupported_network_request_body_length"@,
        ControlledNetworkFailure::RequestMetadataRejected =>
        "unsupported_network_request_metadata"@,
        ControlledNetworkFailure::CookieSameSiteContextUnsupported =>
        "unsupported_cookie_same_site_context"@,
        ControlledNetworkFailure::PersistentCookieUnsupported => "unsupported_persistent_cookie"@,
        ControlledNetworkFailure::PartitionedCookieUnsupported => "unsupported_partitioned_cookie"@,
        ControlledNetworkFailure::CookieTimeRangeUnsupported => "unsupported_cookie_time_range"@,
        ControlledNetworkFailure::InvalidCookie => "invalid_controlled_cookie"@,
        ControlledNetworkFailure::EvidenceLedgerFailure => "internal_runtime_failure"@,
        ControlledNetworkFailure::LifecycleInvariant => "internal_runtime_failure"@,
        ControlledNetworkFailure::VirtualTimeRegressed => "internal_runtime_failure"@,
    }
}

/// A failed network is told by its failure. The session ends where the network itself broke, and
/// where the request was an open.
pub proof fn law_a_failed_network_is_told(
    active: ActiveRequest,
    transition: TransitionView,
    network: ControlledNetworkSnapshot,
    failure: ControlledNetworkFailure,
)
    requires
        network.sticky_failure == Some(failure),
        network.maximum_active_operations < 9_007_199_254_740_991,
        !(transition is Fail),
        !(active.operation is Audit),
    ensures
        preempted(active, transition, Some(network)) matches Some(told_failure) && {
            &&& told_failure.error.code == network_code(failure)
            &&& told_failure.fail_stop == told_failure.error.fatal
            &&& told_failure.fail_stop <==> active.operation is ControlledOpen || failure
                is EvidenceLedgerFailure || failure is LifecycleInvariant || failure
                is VirtualTimeRegressed
            &&& told_failure.error.state_effect == if failure is VirtualTimeRegressed {
                "indeterminate"@
            } else if failure is EvidenceLedgerFailure || failure is LifecycleInvariant {
                told(active.state_effect)
            } else {
                "partial"@
            }
            &&& failure is ActiveOperationLimitExceeded ==> (told_failure.error.details
                matches Some(details) && member_of(details, "limit"@) == Some(
                unsigned_json(network.maximum_active_operations as u64),
            ) && member_of(details, "observed"@) == Some(
                unsigned_json(
                    if network.maximum_active_operations == usize::MAX {
                        usize::MAX as u64
                    } else {
                        (network.maximum_active_operations + 1) as u64
                    },
                ),
            ))
        },
{
    reveal_strlit("limit");
    reveal_strlit("observed");
    assert("limit"@.len() == 5);
    assert("observed"@.len() == 8);
    let members = seq![
        ("limit"@, unsigned_json(network.maximum_active_operations as u64)),
        (
            "observed"@,
            unsigned_json(crate::network::successor(network.maximum_active_operations) as u64),
        ),
    ];
    lemma_object_member(members, 0);
    lemma_object_member(members, 1);
}

/// A fault of the evidence is the client's where it asked for a page of the wrong size, and is told
/// with both numbers; any other ends the session.
pub proof fn law_a_fault_of_the_evidence_is_told(error: EvidenceLedgerError)
    ensures
        ({
            let view = evidence_error_view(error);
            match error {
                EvidenceLedgerError::InvalidPageLimit { observed, limit } => observed
                    <= 9_007_199_254_740_991 && limit <= 9_007_199_254_740_991 ==> {
                    &&& view.code == "invalid_request"@
                    &&& !view.fatal
                    &&& view.details matches Some(details) && member_of(details, "observed"@)
                        == Some(unsigned_json(observed as u64)) && member_of(details, "limit"@)
                        == Some(unsigned_json(limit as u64))
                },
                EvidenceLedgerError::Other { .. } => view.code == "internal_runtime_failure"@
                    && view.fatal && view.state_effect == "none"@,
            }
        }),
{
    reveal_strlit("limit");
    reveal_strlit("observed");
    assert("limit"@.len() == 5);
    assert("observed"@.len() == 8);
    if let EvidenceLedgerError::InvalidPageLimit { observed, limit } = error {
        let members = seq![
            ("observed"@, unsigned_json(observed as u64)),
            ("limit"@, unsigned_json(limit as u64)),
        ];
        lemma_object_member(members, 0);
        lemma_object_member(members, 1);
    }
}

/// The code of a page that did not become quiet.
pub open spec fn unquiet_code(completion: SettleCompletion) -> Option<Seq<char>> {
    match completion {
        SettleCompletion::Quiescent { .. } => None,
        SettleCompletion::QuiescentWithPersistentWork { .. } => None,
        SettleCompletion::BlockedOnExternalIo { .. } => Some("blocked_on_external_io"@),
        SettleCompletion::BlockedOnOpenEndedWork { .. } => Some("blocked_on_open_ended_work"@),
        SettleCompletion::VirtualTimeLimitExceeded { .. } => Some("virtual_time_limit_exceeded"@),
        SettleCompletion::ControlTurnLimitExceeded { .. } => Some("control_turn_limit_exceeded"@),
        SettleCompletion::ExecutionLimitExceeded { budget, .. } => Some(
            match budget {
                DocumentExecutionBudget::OrdinaryTasks => "task_limit_exceeded"@,
                DocumentExecutionBudget::Microtasks => "microtask_limit_exceeded"@,
                DocumentExecutionBudget::RenderingOpportunities => "rendering_limit_exceeded"@,
                DocumentExecutionBudget::MutationRecords => "mutation_limit_exceeded"@,
            },
        ),
        SettleCompletion::RuntimeError { unsupported: true, .. } => Some("unsupported_work"@),
        SettleCompletion::RuntimeError { unsupported: false, .. } => Some("runtime_error"@),
    }
}

/// A page that did not become quiet is told by what kept it, with the limits and what was observed.
pub proof fn law_an_unquiet_page_is_told(
    completion: SettleCompletion,
    effect: RequestStateEffect,
    fail_stop: bool,
)
    requires
        completion matches SettleCompletion::RuntimeError { details, .. } ==> details_fault(
            json_of(details),
        ) is None,
    ensures
        match (ready_or_failure(completion, effect, fail_stop), unquiet_code(completion)) {
            (Ok(pending), None) => match completion {
                SettleCompletion::Quiescent { pending: quiet } => pending == quiet,
                SettleCompletion::QuiescentWithPersistentWork { pending: quiet } => pending == quiet,
                _ => false,
            },
            (Err(failure), Some(code)) => {
                &&& failure.error.code == code
                &&& failure.error.state_effect == told(effect)
                &&& failure.error.fatal == fail_stop
                &&& failure.fail_stop == fail_stop
                &&& match completion {
                    SettleCompletion::BlockedOnExternalIo { active_operations, .. } => details_tell(
                        failure,
                        "activeOperations"@,
                        active_operations as nat,
                    ),
                    SettleCompletion::BlockedOnOpenEndedWork { persistent_work, .. } =>
                    details_tell(failure, "persistentWork"@, persistent_work as nat),
                    SettleCompletion::VirtualTimeLimitExceeded {
                        start_virtual_time_ns,
                        requested_virtual_time_ns,
                        limit_ns,
                        ..
                    } => {
                        &&& details_tell(failure, "limit"@, limit_ns as nat)
                        &&& details_tell(
                            failure,
                            "startVirtualTimeNs"@,
                            start_virtual_time_ns as nat,
                        )
                        &&& details_tell(
                            failure,
                            "requestedVirtualTimeNs"@,
                            requested_virtual_time_ns as nat,
                        )
                    },
                    SettleCompletion::ControlTurnLimitExceeded { limit, control_turns, .. } => {
                        &&& details_tell(failure, "limit"@, limit as nat)
                        &&& details_tell(failure, "observed"@, control_turns as nat)
                    },
                    SettleCompletion::ExecutionLimitExceeded { budget, limit, observed, .. } => {
                        &&& details_tell(failure, "limit"@, limit as nat)
                        &&& details_tell(failure, "observed"@, observed as nat)
                        &&& failure.error.details matches Some(details) && member_of(
                            details,
                            "kind"@,
                        ) == Some(
                            JsonView::Text(
                                match budget {
                                    DocumentExecutionBudget::OrdinaryTasks => "ordinary_tasks"@,
                                    DocumentExecutionBudget::Microtasks => "microtasks"@,
                                    DocumentExecutionBudget::RenderingOpportunities =>
                                    "rendering_opportunities"@,
                                    DocumentExecutionBudget::MutationRecords => "mutations"@,
                                },
                            ),
                        )
                    },
                    SettleCompletion::RuntimeError { details, .. } => failure.error.details == Some(
                        json_of(details),
                    ),
                    _ => true,
                }
            },
            _ => false,
        },
{
    reveal_strlit("limit");
    reveal_strlit("observed");
    reveal_strlit("kind");
    reveal_strlit("startVirtualTimeNs");
    reveal_strlit("requestedVirtualTimeNs");
    assert("limit"@.len() == 5);
    assert("observed"@.len() == 8);
    assert("kind"@.len() == 4);
    assert("startVirtualTimeNs"@.len() == 18);
    assert("requestedVirtualTimeNs"@.len() == 22);
    match completion {
        SettleCompletion::BlockedOnExternalIo { active_operations, .. } => {
            lemma_object_member(
                seq![decimal_member("activeOperations"@, active_operations as nat)],
                0,
            );
        },
        SettleCompletion::BlockedOnOpenEndedWork { persistent_work, .. } => {
            lemma_object_member(
                seq![decimal_member("persistentWork"@, persistent_work as nat)],
                0,
            );
        },
        SettleCompletion::VirtualTimeLimitExceeded {
            start_virtual_time_ns,
            requested_virtual_time_ns,
            limit_ns,
            ..
        } => {
            let members = seq![
                decimal_member("limit"@, limit_ns as nat),
                decimal_member("startVirtualTimeNs"@, start_virtual_time_ns as nat),
                decimal_member("requestedVirtualTimeNs"@, requested_virtual_time_ns as nat),
            ];
            lemma_object_member(members, 0);
            lemma_object_member(members, 1);
            lemma_object_member(members, 2);
        },
        SettleCompletion::ControlTurnLimitExceeded { limit, control_turns, .. } => {
            let members = seq![
                decimal_member("limit"@, limit as nat),
                decimal_member("observed"@, control_turns as nat),
            ];
            lemma_object_member(members, 0);
            lemma_object_member(members, 1);
        },
        SettleCompletion::ExecutionLimitExceeded { budget, limit, observed, .. } => {
            let members = seq![
                ("kind"@, JsonView::Text(crate::failure::budget_texts(budget).1)),
                decimal_member("limit"@, limit as nat),
                decimal_member("observed"@, observed as nat),
            ];
            lemma_object_member(members, 0);
            lemma_object_member(members, 1);
            lemma_object_member(members, 2);
        },
        _ => {},
    }
}

/// A coordinator that failed leaves the outcome open where a turn or an advance was lost, breaks
/// the session where its own state is wrong, and otherwise refuses the request.
pub proof fn law_a_failed_settlement_is_told(
    error: SettleFailure,
    effect: RequestStateEffect,
    command: Option<DocumentControlCommand>,
)
    ensures
        ({
            let transition = TransitionView::Fail(settle_failure_view(error, effect, command));
            match error.kind {
                SettleFailureKind::DriveOneTurnOutcomeIndeterminate => ends(
                    transition,
                    "outcome_indeterminate"@,
                    "indeterminate"@,
                ),
                SettleFailureKind::DriveOutcomeIndeterminate => ends(
                    transition,
                    "outcome_indeterminate"@,
                    "indeterminate"@,
                ),
                SettleFailureKind::AdvanceOutcomeIndeterminate => ends(
                    transition,
                    "outcome_indeterminate"@,
                    "indeterminate"@,
                ),
                SettleFailureKind::InvalidControlOutcome => if command is Some
                    && may_change_the_page(command->0) {
                    ends(transition, "outcome_indeterminate"@, "indeterminate"@)
                } else {
                    ends(transition, "internal_runtime_failure"@, told(effect))
                },
                SettleFailureKind::InvalidCoordinatorState => ends(
                    transition,
                    "internal_runtime_failure"@,
                    told(effect),
                ),
                SettleFailureKind::ExternalIoWallTimeRegressed => ends(
                    transition,
                    "internal_runtime_failure"@,
                    told(effect),
                ),
                SettleFailureKind::ControlRejected => refuses(
                    transition,
                    "settlement_failed"@,
                    told(effect),
                ),
                SettleFailureKind::Other => refuses(transition, "settlement_failed"@, told(effect)),
            }
        }),
{
}

/// An open that ran out of time leaves nothing behind where a single document was opened; a session
/// is ended, with its state unknown.
pub proof fn law_a_late_open_is_told(profile: SessionProfile)
    ensures
        ({
            let transition = TransitionView::Fail(open_timeout_view(profile));
            if is_webapp(Some(profile)) {
                refuses(transition, "controlled_open_timeout"@, "none"@)
            } else {
                ends(transition, "controlled_open_timeout"@, "indeterminate"@)
            }
        }),
{
}

/// An error on the session state keeps its code, and is fatal where the authority over the state is
/// lost; only a method that writes can make it worse.
pub proof fn law_a_state_error_is_told(error: SessionStateError, method: Seq<char>)
    ensures
        ({
            let view = state_error_view(error);
            &&& view.code == if error.kind == SessionStateErrorKind::InvalidCookie {
                "invalid_controlled_cookie"@
            } else {
                error.code@
            }
            &&& error.kind is TokenEntropyUnavailable || error.kind is TokenSpaceExhausted
                || error.kind is BackendRevisionRegressed ==> view.fatal && view.state_effect
                == "none"@
            &&& view.state_effect == "indeterminate"@ ==> view.fatal
            &&& view.state_effect == "indeterminate"@ <==> error.kind
                == SessionStateErrorKind::BackendRejected(SessionStateBackendStage::CookieReplace)
                || error.kind == SessionStateErrorKind::BackendRejected(
                SessionStateBackendStage::WebStorageReplace,
            )
            &&& view.fatal <==> view.state_effect == "indeterminate"@ || error.kind
                is TokenEntropyUnavailable || error.kind is TokenSpaceExhausted || error.kind
                is BackendRevisionRegressed
            &&& hardened_state_error(method, view).code == view.code
            &&& hardened_state_error(method, view).message == view.message
            &&& view.fatal ==> hardened_state_error(method, view).fatal
            &&& method != "session.cookies.set"@ && method != "session.storage.set"@
                ==> hardened_state_error(method, view) == view
        }),
{
    reveal_strlit("none");
    reveal_strlit("indeterminate");
    assert("none"@.len() == 4);
    assert("indeterminate"@.len() == 13);
}

/// A method that writes the session state leaves it open what was written where the state could not
/// be observed or replaced, or its token not be renewed; such a failure is fatal.
pub proof fn law_a_failed_write_is_indeterminate(method: Seq<char>, error: ProtocolErrorView)
    requires
        method == "session.cookies.set"@ || method == "session.storage.set"@,
        error.code == "session_state_backend_observe_failed"@ || error.code
            == "session_state_cookie_replace_failed"@ || error.code
            == "session_state_web_storage_replace_failed"@ || error.code
            == "session_state_backend_revision_regressed"@ || error.code
            == "session_state_token_entropy_unavailable"@ || error.code
            == "session_state_token_space_exhausted"@,
    ensures
        ({
            let hardened = hardened_state_error(method, error);
            &&& hardened.fatal
            &&& hardened.state_effect == "indeterminate"@
            &&& hardened.code == error.code
            &&& hardened.details == error.details
        }),
{
}

/// A document that could not be named by a token has changed, which ends the session where the
/// request has changed something; without tokens the session ends in any case.
pub proof fn law_a_missing_token_is_told(
    active: ActiveRequest,
    state: SessionProjectionState,
    before: Arc<SessionNavigationAuthority>,
    navigation: Arc<SessionNavigationAuthority>,
    completion: NavigationOperationCompletion,
    fault: DocumentStateAuthorityError,
    network_operations: usize,
    answers: Answers,
)
    requires
        active.operation == ActiveOperation::SessionProjection(state),
        state.phase == (SessionProjectionPhase::AwaitingStableNavigation { navigation: before }),
        before@ == navigation@,
        completion.kind == NavigationOperationKind::Observe,
        completion.outcome matches Some(Ok(seen)) && seen == navigation,
        navigation.terminal is None,
        answers.token matches Some(Err(error)) && error == fault,
    ensures
        ({
            let transition = navigation_step(active, completion, network_operations, answers).1;
            match fault {
                DocumentStateAuthorityError::NavigationTargetDoesNotMatchPending => if
                    active.state_effect is Partial {
                    ends(transition, "document_authority_changed"@, "partial"@)
                } else {
                    refuses(transition, "document_authority_changed"@, "none"@)
                },
                _ => ends(transition, "runtime_error"@, told(active.state_effect)),
            }
        }),
{
}

/// A token that could not be checked is stale where the document is another, and ends the session
/// where there are no tokens: for a navigation and for an advance.
pub proof fn law_an_unchecked_token_is_told(
    active: ActiveRequest,
    command: DocumentControlCommand,
    observation: Arc<DocumentControlObservation>,
    outcome: Arc<DocumentControlReceiveOutcome>,
    fault: DocumentStateAuthorityError,
    network_operations: usize,
    answers: Answers,
)
    requires
        (active.operation matches ActiveOperation::Navigate(state) && state.phase is Authorizing)
            || (active.operation matches ActiveOperation::AdvanceToNext(
            AdvanceToNextState::Observing {
                expected_state_token: Some(_),
                navigation: Some(_),
            },
        )),
        *outcome == completed_with(observation),
        answers.authorized matches Some(Err(error)) && error == fault,
    ensures
        ({
            let transition = control_step(
                active,
                command,
                outcome,
                network_operations,
                answers,
            ).1;
            match fault {
                DocumentStateAuthorityError::NavigationTargetDoesNotMatchPending => refuses(
                    transition,
                    "stale_state_token"@,
                    "none"@,
                ),
                _ => ends(transition, "runtime_error"@, "none"@),
            }
        }),
{
}

/// A result that could not be put into its public form ends the session.
pub proof fn law_a_failed_projection_is_told(
    active: ActiveRequest,
    command: DocumentControlCommand,
    outcome: Arc<DocumentControlReceiveOutcome>,
    network_operations: usize,
    answers: Answers,
)
    requires
        answers.projected matches Some(Err(_)),
        (active.operation is Pending && (*outcome
            matches DocumentControlReceiveOutcome::CommandOutcome {
            outcome: DocumentControlOutcome::Completed(_),
            fault: None,
        })) || ((active.operation matches ActiveOperation::AdvanceToNext(
            AdvanceToNextState::Advancing { .. },
        )) && (*outcome matches DocumentControlReceiveOutcome::CommandOutcome {
            outcome: DocumentControlOutcome::Completed(_),
            fault: None,
        })) || ((active.operation matches ActiveOperation::Automation(state) && state.unresolved
            is None && (state.kind is Query || state.kind is Text || state.kind is Extract))
            && command is Automate && (*outcome
            matches DocumentControlReceiveOutcome::CommandOutcome {
            outcome: DocumentControlOutcome::AutomationCompleted { .. },
            fault: None,
        })),
    ensures
        ends(
            control_step(active, command, outcome, network_operations, answers).1,
            "internal_runtime_failure"@,
            told(active.state_effect),
        ),
{
}

} // verus!
