//! How failures of the engine's services are reported to the peer.

use serde_json::Value;
use std::sync::Arc;
use vstd::prelude::*;

use crate::active::{
    ActiveFailure, ActiveFailureView, ActiveTransition, SettleResponse, TransitionView,
};
use crate::authority::{SessionNavigationCounter, SessionNavigationTerminal};
use crate::control::{
    command_is_mutating, mutates, DocumentAutomationError, DocumentControlCommand,
    DocumentControlError, DocumentControlObservation, DocumentControlOutcome,
    DocumentControlReceiveOutcome, DocumentExecutionBudget, DocumentStateAuthorityError,
    NavigationOperationKind, PendingSnapshot, SessionNavigationError, SettleCompletion,
    SettleFailure, SettleFailureKind,
};
use crate::error::{
    are_short_members, attached, details_error_text, details_fault, fatal_error, fatal_operation,
    is_brief, is_short_member, lemma_short_object_is_brief, operation_error, ProtocolError,
    ProtocolErrorDetailsError, ProtocolErrorView,
};
use crate::json::{
    clone_value, members_json, object_json, text_value, value_json, value_of, JsonView, NewValue,
};
use crate::profile::{effect_text, session_api, RequestStateEffect, SessionProfile};
use crate::text::{decimal, decimal_text, joined, joined3, lemma_decimal_is_short};

verus! {

/// A failure that leaves the session usable, with the given error.
pub open spec fn soft_failure(error: ProtocolErrorView) -> ActiveFailureView {
    ActiveFailureView { error, fail_stop: false }
}

/// A failure that closes the session, with the given error.
pub open spec fn hard_failure(error: ProtocolErrorView) -> ActiveFailureView {
    ActiveFailureView { error, fail_stop: true }
}

/// The failure of an internal invariant.
pub open spec fn internal_failure_view(message: Seq<char>, state_effect: Seq<char>) ->
    ActiveFailureView {
    hard_failure(fatal_error("internal_runtime_failure"@, message, state_effect))
}

/// A mutation whose outcome is unknown.
pub open spec fn indeterminate_failure_view(message: Seq<char>) -> ActiveFailureView {
    hard_failure(fatal_error("outcome_indeterminate"@, message, "indeterminate"@))
}

pub fn internal_failure(message: &str, state_effect: &'static str) -> (failure: ActiveFailure)
    ensures
        failure@ == internal_failure_view(message@, state_effect@),
{
    ActiveFailure {
        error: fatal_operation("internal_runtime_failure", message, state_effect),
        fail_stop: true,
    }
}

pub fn indeterminate_failure(message: &str) -> (failure: ActiveFailure)
    ensures
        failure@ == indeterminate_failure_view(message@),
{
    ActiveFailure {
        error: fatal_operation("outcome_indeterminate", message, "indeterminate"),
        fail_stop: true,
    }
}

fn soft(code: &'static str, message: &str, effect: RequestStateEffect) -> (failure: ActiveFailure)
    ensures
        failure@ == soft_failure(operation_error(code@, message@, effect_text(effect))),
{
    ActiveFailure {
        error: ProtocolError::operation(code, message, effect.as_protocol_str()),
        fail_stop: false,
    }
}

/// An error with details attached, or the internal failure that their bounds cause.
pub open spec fn detailed(error: ProtocolErrorView, details: JsonView) -> ProtocolErrorView {
    match details_fault(details) {
        None => attached(error, details),
        Some(fault) => fatal_error(
            "internal_runtime_failure"@,
            "failed to construct bounded protocol error details: "@ + details_error_text(fault),
            "none"@,
        ),
    }
}

/// The failure that details cause whose integers do not all survive decoding.
pub open spec fn inexact_details() -> ProtocolErrorView {
    fatal_error(
        "internal_runtime_failure"@,
        "failed to construct bounded protocol error details: "@ + details_error_text(
            ProtocolErrorDetailsError::IntegerNotExactlyRepresentable,
        ),
        "none"@,
    )
}

pub fn with_error_details(error: ProtocolError, details: Value) -> (r: ProtocolError)
    ensures
        r@ == detailed(error@, value_json(details)),
        is_brief(value_json(details)) ==> r@ == attached(error@, value_json(details)),
{
    match error.with_details(details) {
        Ok(error) => error,
        Err(fault) => fatal_operation(
            "internal_runtime_failure",
            joined(
                "failed to construct bounded protocol error details: ",
                fault.to_text().as_str(),
            ).as_str(),
            "none",
        ),
    }
}

fn number_member(name: &str, n: u128) -> (member: (String, Value))
    ensures
        member.0@ == name@,
        value_json(member.1) == JsonView::Text(decimal(n as nat)),
        name@.len() <= 64 ==> is_short_member(decimal_member(name@, n as nat)),
{
    proof {
        lemma_decimal_is_short(n);
    }
    (name.to_owned(), text_value(decimal_text(n).as_str()))
}

/// Builds an object of a few short members, which may be attached to an error.
pub(crate) fn brief_object(members: Vec<(String, Value)>) -> (value: Value)
    requires
        are_short_members(members_json(members@)),
        members@.len() <= 8,
    ensures
        value_json(value) == object_json(members_json(members@)),
        is_brief(value_json(value)),
{
    proof {
        lemma_short_object_is_brief(members_json(members@));
    }
    value_of(NewValue::Object(members))
}

/// A member whose value is a number in decimal text.
pub open spec fn decimal_member(name: Seq<char>, n: nat) -> (Seq<char>, JsonView) {
    (name, JsonView::Text(decimal(n)))
}

/// Whether a failure of the coordinator leaves the outcome of a mutation unknown.
pub open spec fn settle_indeterminate(
    kind: SettleFailureKind,
    command: Option<DocumentControlCommand>,
) -> bool {
    match kind {
        SettleFailureKind::DriveOneTurnOutcomeIndeterminate => true,
        SettleFailureKind::DriveOutcomeIndeterminate => true,
        SettleFailureKind::AdvanceOutcomeIndeterminate => true,
        SettleFailureKind::InvalidControlOutcome => command is Some && mutates(command->0),
        _ => false,
    }
}

/// Whether a failure of the coordinator breaks one of its own invariants.
pub open spec fn settle_internal(kind: SettleFailureKind) -> bool {
    match kind {
        SettleFailureKind::InvalidCoordinatorState => true,
        SettleFailureKind::InvalidControlOutcome => true,
        SettleFailureKind::ExternalIoWallTimeRegressed => true,
        _ => false,
    }
}

/// How a failure of the coordinator is reported.
pub open spec fn settle_failure_view(
    error: SettleFailure,
    effect: RequestStateEffect,
    command: Option<DocumentControlCommand>,
) -> ActiveFailureView {
    if settle_indeterminate(error.kind, command) {
        indeterminate_failure_view(
            "settlement command outcome is indeterminate: "@ + error.diagnostic@,
        )
    } else if settle_internal(error.kind) {
        internal_failure_view(
            "settlement state machine failed: "@ + error.diagnostic@,
            effect_text(effect),
        )
    } else {
        soft_failure(
            operation_error(
                "settlement_failed"@,
                "settlement could not continue: "@ + error.diagnostic@,
                effect_text(effect),
            ),
        )
    }
}

pub fn settle_failure(
    error: &SettleFailure,
    state_effect: RequestStateEffect,
    command: Option<DocumentControlCommand>,
) -> (failure: ActiveFailure)
    ensures
        failure@ == settle_failure_view(*error, state_effect, command),
{
    let mutating = match &command {
        Some(command) => command_is_mutating(command),
        None => false,
    };
    let indeterminate = match error.kind {
        SettleFailureKind::DriveOneTurnOutcomeIndeterminate
        | SettleFailureKind::DriveOutcomeIndeterminate
        | SettleFailureKind::AdvanceOutcomeIndeterminate => true,
        SettleFailureKind::InvalidControlOutcome => mutating,
        _ => false,
    };
    let internal = match error.kind {
        SettleFailureKind::InvalidCoordinatorState | SettleFailureKind::InvalidControlOutcome
        | SettleFailureKind::ExternalIoWallTimeRegressed => true,
        _ => false,
    };
    if indeterminate {
        indeterminate_failure(
            joined(
                "settlement command outcome is indeterminate: ",
                error.diagnostic.as_str(),
            ).as_str(),
        )
    } else if internal {
        internal_failure(
            joined("settlement state machine failed: ", error.diagnostic.as_str()).as_str(),
            state_effect.as_protocol_str(),
        )
    } else {
        soft(
            "settlement_failed",
            joined("settlement could not continue: ", error.diagnostic.as_str()).as_str(),
            state_effect,
        )
    }
}

/// After partial work, a failure that would leave the session usable closes it.
pub open spec fn hardened(failure: ActiveFailureView, effect: RequestStateEffect) ->
    ActiveFailureView {
    if effect == RequestStateEffect::Partial && !failure.fail_stop {
        hard_failure(
            ProtocolErrorView { fatal: true, state_effect: "partial"@, ..failure.error },
        )
    } else {
        failure
    }
}

pub fn harden_continuation_failure(
    failure: ActiveFailure,
    state_effect: RequestStateEffect,
) -> (r: ActiveFailure)
    ensures
        r@ == hardened(failure@, state_effect),
{
    let mut failure = failure;
    if state_effect == RequestStateEffect::Partial && !failure.fail_stop {
        failure.error.fatal = true;
        failure.error.state_effect = "partial";
        failure.fail_stop = true;
    }
    failure
}

/// How a failure of the coordinator is reported to a request with the given response.
pub open spec fn settle_failure_for_response_view(
    error: SettleFailure,
    effect: RequestStateEffect,
    command: Option<DocumentControlCommand>,
    response: SettleResponse,
) -> ActiveFailureView {
    let failure = settle_failure_view(error, effect, command);
    if response is Runtime {
        failure
    } else {
        hardened(failure, effect)
    }
}

pub fn settle_failure_for_response(
    error: &SettleFailure,
    state_effect: RequestStateEffect,
    command: Option<DocumentControlCommand>,
    response: &SettleResponse,
) -> (failure: ActiveFailure)
    ensures
        failure@ == settle_failure_for_response_view(*error, state_effect, command, *response),
{
    let failure = settle_failure(error, state_effect, command);
    match response {
        SettleResponse::Runtime => failure,
        _ => harden_continuation_failure(failure, state_effect),
    }
}

/// The token that a request named does not stand for the current document state.
pub open spec fn stale_state_token_view() -> ProtocolErrorView {
    operation_error(
        "stale_state_token"@,
        "expectedStateToken does not authorize the current document state"@,
        "none"@,
    )
}

pub fn stale_state_token_error() -> (error: ProtocolError)
    ensures
        error@ == stale_state_token_view(),
{
    ProtocolError::operation(
        "stale_state_token",
        "expectedStateToken does not authorize the current document state",
        "none",
    )
}

pub fn stale_state_token() -> (transition: ActiveTransition)
    ensures
        transition@ == TransitionView::Fail(soft_failure(stale_state_token_view())),
{
    ActiveTransition::Fail(ActiveFailure { error: stale_state_token_error(), fail_stop: false })
}

/// An error that is fatal, and closes the session, exactly when `hard`.
pub open spec fn graded(
    code: Seq<char>,
    message: Seq<char>,
    state_effect: Seq<char>,
    hard: bool,
) -> ActiveFailureView {
    ActiveFailureView {
        error: ProtocolErrorView { code, message, fatal: hard, state_effect, details: None },
        fail_stop: hard,
    }
}

fn graded_failure(
    code: &'static str,
    message: &str,
    state_effect: &'static str,
    hard: bool,
) -> (failure: ActiveFailure)
    ensures
        failure@ == graded(code@, message@, state_effect@, hard),
{
    let mut error = ProtocolError::operation(code, message, state_effect);
    error.fatal = hard;
    ActiveFailure { error, fail_stop: hard }
}

/// The admitted replacement did not become the document that was admitted.
pub open spec fn activation_failure_view(effect: RequestStateEffect, fail_stop: bool) ->
    TransitionView {
    TransitionView::Fail(
        graded(
            "navigation_authority_changed"@,
            "the admitted navigation did not activate the exact controlled document"@,
            effect_text(effect),
            fail_stop,
        ),
    )
}

pub fn navigation_activation_failure(
    state_effect: RequestStateEffect,
    fail_stop: bool,
) -> (transition: ActiveTransition)
    ensures
        transition@ == activation_failure_view(state_effect, fail_stop),
{
    ActiveTransition::Fail(
        graded_failure(
            "navigation_authority_changed",
            "the admitted navigation did not activate the exact controlled document",
            state_effect.as_protocol_str(),
            fail_stop,
        ),
    )
}

/// A navigation that the engine refused. After partial work it closes the session.
pub open spec fn continuation_rejection_view(
    code: Seq<char>,
    message: Seq<char>,
    effect: RequestStateEffect,
) -> TransitionView {
    TransitionView::Fail(
        graded(code, message, effect_text(effect), effect == RequestStateEffect::Partial),
    )
}

pub fn continuation_navigation_rejection(
    code: &'static str,
    message: &'static str,
    state_effect: RequestStateEffect,
) -> (transition: ActiveTransition)
    ensures
        transition@ == continuation_rejection_view(code@, message@, state_effect),
{
    ActiveTransition::Fail(
        graded_failure(
            code,
            message,
            state_effect.as_protocol_str(),
            state_effect == RequestStateEffect::Partial,
        ),
    )
}

/// How a counter of a session is called.
pub open spec fn counter_text(counter: SessionNavigationCounter) -> Seq<char> {
    match counter {
        SessionNavigationCounter::DocumentEpoch => "document epoch"@,
        SessionNavigationCounter::NavigationId => "navigation id"@,
        SessionNavigationCounter::HistoryRevision => "history revision"@,
        SessionNavigationCounter::SuccessfulDocumentReplacements =>
        "successful document replacement"@,
    }
}

/// The error that a terminal navigation state is reported with, and whether it closes the session
/// whatever was done before.
pub open spec fn terminal_error(
    terminal: SessionNavigationTerminal,
    effect: RequestStateEffect,
) -> (ProtocolErrorView, bool) {
    match terminal {
        SessionNavigationTerminal::DocumentTransitionLimitExceeded {
            limit,
            observed,
            next_navigation_id,
        } => (
            attached(
                operation_error(
                    "document_transition_limit_exceeded"@,
                    "document transition limit was exceeded"@,
                    effect_text(effect),
                ),
                object_json(
                    seq![
                        decimal_member("limit"@, limit as nat),
                        decimal_member("observed"@, observed as nat),
                        decimal_member("nextNavigationId"@, next_navigation_id as nat),
                    ],
                ),
            ),
            effect == RequestStateEffect::Partial,
        ),
        SessionNavigationTerminal::HistoryLimitExceeded {
            limit,
            observed,
            navigation_id,
            history_revision,
        } => (
            attached(
                operation_error(
                    "history_limit_exceeded"@,
                    "same-document history limit was exceeded"@,
                    effect_text(effect),
                ),
                object_json(
                    seq![
                        decimal_member("limit"@, limit as nat),
                        decimal_member("observed"@, observed as nat),
                        decimal_member("navigationId"@, navigation_id as nat),
                        decimal_member("historyRevision"@, history_revision as nat),
                    ],
                ),
            ),
            effect == RequestStateEffect::Partial,
        ),
        SessionNavigationTerminal::RedirectLimitExceeded { limit, observed, navigation_id } => (
            attached(
                fatal_error(
                    "redirect_limit_exceeded"@,
                    "redirect limit was exceeded after network work began"@,
                    "partial"@,
                ),
                object_json(
                    seq![
                        decimal_member("limit"@, limit as nat),
                        decimal_member("observed"@, observed as nat),
                        decimal_member("navigationId"@, navigation_id as nat),
                    ],
                ),
            ),
            true,
        ),
        SessionNavigationTerminal::CounterOverflow { counter } => (
            fatal_error(
                "runtime_error"@,
                "controlled-session "@ + counter_text(counter) + " counter overflowed"@,
                effect_text(effect),
            ),
            true,
        ),
    }
}

/// How a terminal navigation state is reported.
pub open spec fn terminal_failure_view(
    terminal: SessionNavigationTerminal,
    effect: RequestStateEffect,
) -> TransitionView {
    let (error, fail_stop) = terminal_error(terminal, effect);
    TransitionView::Fail(
        ActiveFailureView {
            error: ProtocolErrorView { fatal: error.fatal || fail_stop, ..error },
            fail_stop,
        },
    )
}

fn counter_name(counter: SessionNavigationCounter) -> (text: &'static str)
    ensures
        text@ == counter_text(counter),
{
    match counter {
        SessionNavigationCounter::DocumentEpoch => "document epoch",
        SessionNavigationCounter::NavigationId => "navigation id",
        SessionNavigationCounter::HistoryRevision => "history revision",
        SessionNavigationCounter::SuccessfulDocumentReplacements =>
        "successful document replacement",
    }
}

pub fn session_navigation_terminal_failure(
    terminal: SessionNavigationTerminal,
    state_effect: RequestStateEffect,
) -> (transition: ActiveTransition)
    ensures
        transition@ == terminal_failure_view(terminal, state_effect),
{
    let completed_other_work = state_effect == RequestStateEffect::Partial;
    let (error, fail_stop) = match terminal {
        SessionNavigationTerminal::DocumentTransitionLimitExceeded {
            limit,
            observed,
            next_navigation_id,
        } => {
            let members = vec![
                number_member("limit", limit as u128),
                number_member("observed", observed as u128),
                number_member("nextNavigationId", next_navigation_id as u128),
            ];
            proof {
                reveal_strlit("limit");
                reveal_strlit("observed");
                reveal_strlit("nextNavigationId");
            }
            assert(members_json(members@) =~= seq![
                decimal_member("limit"@, limit as nat),
                decimal_member("observed"@, observed as nat),
                decimal_member("nextNavigationId"@, next_navigation_id as nat),
            ]);
            (
                with_error_details(
                    ProtocolError::operation(
                        "document_transition_limit_exceeded",
                        "document transition limit was exceeded",
                        state_effect.as_protocol_str(),
                    ),
                    brief_object(members),
                ),
                completed_other_work,
            )
        },
        SessionNavigationTerminal::HistoryLimitExceeded {
            limit,
            observed,
            navigation_id,
            history_revision,
        } => {
            let members = vec![
                number_member("limit", limit as u128),
                number_member("observed", observed as u128),
                number_member("navigationId", navigation_id as u128),
                number_member("historyRevision", history_revision as u128),
            ];
            proof {
                reveal_strlit("limit");
                reveal_strlit("observed");
                reveal_strlit("navigationId");
                reveal_strlit("historyRevision");
            }
            assert(members_json(members@) =~= seq![
                decimal_member("limit"@, limit as nat),
                decimal_member("observed"@, observed as nat),
                decimal_member("navigationId"@, navigation_id as nat),
                decimal_member("historyRevision"@, history_revision as nat),
            ]);
            (
                with_error_details(
                    ProtocolError::operation(
                        "history_limit_exceeded",
                        "same-document history limit was exceeded",
                        state_effect.as_protocol_str(),
                    ),
                    brief_object(members),
                ),
                completed_other_work,
            )
        },
        SessionNavigationTerminal::RedirectLimitExceeded { limit, observed, navigation_id } => {
            let members = vec![
                number_member("limit", limit as u128),
                number_member("observed", observed as u128),
                number_member("navigationId", navigation_id as u128),
            ];
            proof {
                reveal_strlit("limit");
                reveal_strlit("observed");
                reveal_strlit("navigationId");
            }
            assert(members_json(members@) =~= seq![
                decimal_member("limit"@, limit as nat),
                decimal_member("observed"@, observed as nat),
                decimal_member("navigationId"@, navigation_id as nat),
            ]);
            (
                with_error_details(
                    fatal_operation(
                        "redirect_limit_exceeded",
                        "redirect limit was exceeded after network work began",
                        "partial",
                    ),
                    brief_object(members),
                ),
                true,
            )
        },
        SessionNavigationTerminal::CounterOverflow { counter } => (
            fatal_operation(
                "runtime_error",
                joined3(
                    "controlled-session ",
                    counter_name(counter),
                    " counter overflowed",
                ).as_str(),
                state_effect.as_protocol_str(),
            ),
            true,
        ),
    };
    let mut error = error;
    error.fatal = error.fatal || fail_stop;
    ActiveTransition::Fail(ActiveFailure { error, fail_stop })
}

/// Why a navigation is recorded as failed.
#[derive(Clone, Copy, Debug, PartialEq, Eq, Structural)]
pub enum NetworkFailureReason {
    DocumentTransitionLimitExceeded,
    HistoryLimitExceeded,
    RedirectLimitExceeded,
    NavigationError,
    NetworkError,
}

/// The navigation that a terminal state is charged to, and the reason.
pub open spec fn terminal_evidence(terminal: SessionNavigationTerminal, fallback: u64) -> (
    u64,
    NetworkFailureReason,
) {
    match terminal {
        SessionNavigationTerminal::DocumentTransitionLimitExceeded { next_navigation_id, .. } => (
            next_navigation_id,
            NetworkFailureReason::DocumentTransitionLimitExceeded,
        ),
        SessionNavigationTerminal::HistoryLimitExceeded { navigation_id, .. } => (
            navigation_id,
            NetworkFailureReason::HistoryLimitExceeded,
        ),
        SessionNavigationTerminal::RedirectLimitExceeded { navigation_id, .. } => (
            navigation_id,
            NetworkFailureReason::RedirectLimitExceeded,
        ),
        SessionNavigationTerminal::CounterOverflow { .. } => (
            fallback,
            NetworkFailureReason::NavigationError,
        ),
    }
}

pub fn terminal_navigation_evidence(terminal: SessionNavigationTerminal, fallback: u64) -> (r: (
    u64,
    NetworkFailureReason,
))
    ensures
        r == terminal_evidence(terminal, fallback),
{
    match terminal {
        SessionNavigationTerminal::DocumentTransitionLimitExceeded { next_navigation_id, .. } => (
            next_navigation_id,
            NetworkFailureReason::DocumentTransitionLimitExceeded,
        ),
        SessionNavigationTerminal::HistoryLimitExceeded { navigation_id, .. } => (
            navigation_id,
            NetworkFailureReason::HistoryLimitExceeded,
        ),
        SessionNavigationTerminal::RedirectLimitExceeded { navigation_id, .. } => (
            navigation_id,
            NetworkFailureReason::RedirectLimitExceeded,
        ),
        SessionNavigationTerminal::CounterOverflow { .. } => (
            fallback,
            NetworkFailureReason::NavigationError,
        ),
    }
}

/// How a failed session-navigation operation is reported.
pub open spec fn navigation_failure_view(
    error: SessionNavigationError,
    kind: NavigationOperationKind,
    effect: RequestStateEffect,
) -> TransitionView {
    match error {
        SessionNavigationError::TargetChanged => if effect == RequestStateEffect::Partial {
            activation_failure_view(effect, true)
        } else {
            TransitionView::Fail(soft_failure(stale_state_token_view()))
        },
        SessionNavigationError::NavigationInProgress => continuation_rejection_view(
            "navigation_in_progress"@,
            "another top-level navigation is already pending"@,
            effect,
        ),
        SessionNavigationError::SourceInactive => continuation_rejection_view(
            "navigation_source_inactive"@,
            "the current top-level source is no longer active"@,
            effect,
        ),
        SessionNavigationError::NavigationStartFailed { observed } => TransitionView::Fail(
            hard_failure(
                attached(
                    fatal_error(
                        "navigation_start_failed"@,
                        "navigation identity was reserved but the fetch pipeline did not start"@,
                        "partial"@,
                    ),
                    object_json(
                        seq![decimal_member("navigationId"@, observed.navigation_id as nat)],
                    ),
                ),
            ),
        ),
        SessionNavigationError::UnsupportedScheme { .. } => continuation_rejection_view(
            "unsupported_navigation_scheme"@,
            "session navigation supports only HTTP(S) URLs"@,
            effect,
        ),
        SessionNavigationError::Terminal(terminal) => terminal_failure_view(terminal, effect),
        SessionNavigationError::ChannelClosed => TransitionView::Fail(
            hard_failure(
                fatal_error(
                    "navigation_transport_failure"@,
                    "the engine session-navigation channel closed"@,
                    if kind == NavigationOperationKind::Navigate {
                        "indeterminate"@
                    } else {
                        effect_text(effect)
                    },
                ),
            ),
        ),
        SessionNavigationError::NotTopLevelSession { diagnostic } => unavailable_authority_view(
            diagnostic@,
            effect,
        ),
        SessionNavigationError::TargetUnavailable { diagnostic } => unavailable_authority_view(
            diagnostic@,
            effect,
        ),
    }
}

/// The engine could not attest the session's navigation.
pub open spec fn unavailable_authority_view(diagnostic: Seq<char>, effect: RequestStateEffect) ->
    TransitionView {
    TransitionView::Fail(
        hard_failure(
            fatal_error(
                "session_navigation_authority_unavailable"@,
                "engine could not capture controlled-session authority: "@ + diagnostic,
                effect_text(effect),
            ),
        ),
    )
}

fn unavailable_authority(diagnostic: &str, effect: RequestStateEffect) -> (transition:
    ActiveTransition)
    ensures
        transition@ == unavailable_authority_view(diagnostic@, effect),
{
    ActiveTransition::Fail(
        ActiveFailure {
            error: fatal_operation(
                "session_navigation_authority_unavailable",
                joined(
                    "engine could not capture controlled-session authority: ",
                    diagnostic,
                ).as_str(),
                effect.as_protocol_str(),
            ),
            fail_stop: true,
        },
    )
}

pub fn session_navigation_failure(
    error: &SessionNavigationError,
    kind: NavigationOperationKind,
    state_effect: RequestStateEffect,
) -> (transition: ActiveTransition)
    ensures
        transition@ == navigation_failure_view(*error, kind, state_effect),
{
    match error {
        SessionNavigationError::TargetChanged => if state_effect == RequestStateEffect::Partial {
            navigation_activation_failure(state_effect, true)
        } else {
            stale_state_token()
        },
        SessionNavigationError::NavigationInProgress => continuation_navigation_rejection(
            "navigation_in_progress",
            "another top-level navigation is already pending",
            state_effect,
        ),
        SessionNavigationError::SourceInactive => continuation_navigation_rejection(
            "navigation_source_inactive",
            "the current top-level source is no longer active",
            state_effect,
        ),
        SessionNavigationError::NavigationStartFailed { observed } => {
            let members = vec![number_member("navigationId", observed.navigation_id as u128)];
            proof {
                reveal_strlit("navigationId");
            }
            assert(members_json(members@) =~= seq![
                decimal_member("navigationId"@, observed.navigation_id as nat),
            ]);
            ActiveTransition::Fail(
                ActiveFailure {
                    error: with_error_details(
                        fatal_operation(
                            "navigation_start_failed",
                            "navigation identity was reserved but the fetch pipeline did not start",
                            "partial",
                        ),
                        brief_object(members),
                    ),
                    fail_stop: true,
                },
            )
        },
        SessionNavigationError::UnsupportedScheme { .. } => continuation_navigation_rejection(
            "unsupported_navigation_scheme",
            "session navigation supports only HTTP(S) URLs",
            state_effect,
        ),
        SessionNavigationError::Terminal(terminal) => session_navigation_terminal_failure(
            *terminal,
            state_effect,
        ),
        SessionNavigationError::ChannelClosed => ActiveTransition::Fail(
            ActiveFailure {
                error: fatal_operation(
                    "navigation_transport_failure",
                    "the engine session-navigation channel closed",
                    if kind == NavigationOperationKind::Navigate {
                        "indeterminate"
                    } else {
                        state_effect.as_protocol_str()
                    },
                ),
                fail_stop: true,
            },
        ),
        SessionNavigationError::NotTopLevelSession { diagnostic } => unavailable_authority(
            diagnostic.as_str(),
            state_effect,
        ),
        SessionNavigationError::TargetUnavailable { diagnostic } => unavailable_authority(
            diagnostic.as_str(),
            state_effect,
        ),
    }
}

/// A navigation response that the active request does not wait for.
pub open spec fn unexpected_completion_view(effect: RequestStateEffect) -> TransitionView {
    TransitionView::Fail(
        internal_failure_view(
            "session-navigation completion did not match the active request phase"@,
            effect_text(effect),
        ),
    )
}

pub fn unexpected_navigation_completion(state_effect: RequestStateEffect) -> (transition:
    ActiveTransition)
    ensures
        transition@ == unexpected_completion_view(state_effect),
{
    ActiveTransition::Fail(
        internal_failure(
            "session-navigation completion did not match the active request phase",
            state_effect.as_protocol_str(),
        ),
    )
}

/// An internal failure as a transition.
pub open spec fn internal_transition(message: Seq<char>, effect: RequestStateEffect) ->
    TransitionView {
    TransitionView::Fail(internal_failure_view(message, effect_text(effect)))
}

/// The internal failure with the given message.
pub fn projection_shape_failure(
    message: &str,
    state_effect: RequestStateEffect,
) -> (transition: ActiveTransition)
    ensures
        transition@ == internal_transition(message@, state_effect),
{
    ActiveTransition::Fail(internal_failure(message, state_effect.as_protocol_str()))
}

/// An operation lost the navigation authority that it was checked against.
pub open spec fn missing_authority_view(operation: Seq<char>) -> TransitionView {
    TransitionView::Fail(
        internal_failure_view(
            operation + " did not retain checked session-navigation authority"@,
            "none"@,
        ),
    )
}

pub fn missing_navigation_authority(operation: &'static str) -> (transition: ActiveTransition)
    ensures
        transition@ == missing_authority_view(operation@),
{
    ActiveTransition::Fail(
        internal_failure(
            joined(
                operation,
                " did not retain checked session-navigation authority",
            ).as_str(),
            "none",
        ),
    )
}

/// A token could not be issued for lack of entropy.
pub open spec fn token_entropy_view(effect: RequestStateEffect) -> TransitionView {
    TransitionView::Fail(
        hard_failure(
            fatal_error(
                "runtime_error"@,
                "document-state token entropy is unavailable"@,
                effect_text(effect),
            ),
        ),
    )
}

pub fn document_authority_token_entropy_unavailable(state_effect: RequestStateEffect) -> (transition:
    ActiveTransition)
    ensures
        transition@ == token_entropy_view(state_effect),
{
    ActiveTransition::Fail(
        ActiveFailure {
            error: fatal_operation(
                "runtime_error",
                "document-state token entropy is unavailable",
                state_effect.as_protocol_str(),
            ),
            fail_stop: true,
        },
    )
}

/// No token is left to issue.
pub open spec fn token_space_view(effect: RequestStateEffect) -> TransitionView {
    TransitionView::Fail(
        hard_failure(
            fatal_error(
                "runtime_error"@,
                "document-state token allocator exhausted"@,
                effect_text(effect),
            ),
        ),
    )
}

pub fn document_authority_token_space_exhausted(state_effect: RequestStateEffect) -> (transition:
    ActiveTransition)
    ensures
        transition@ == token_space_view(state_effect),
{
    ActiveTransition::Fail(
        ActiveFailure {
            error: fatal_operation(
                "runtime_error",
                "document-state token allocator exhausted",
                state_effect.as_protocol_str(),
            ),
            fail_stop: true,
        },
    )
}

/// A result that could not be tied to the document state.
pub open spec fn mismatched_authority_view(
    error: DocumentStateAuthorityError,
    effect: RequestStateEffect,
) -> TransitionView {
    match error {
        DocumentStateAuthorityError::NavigationTargetDoesNotMatchPending => if effect
            == RequestStateEffect::Partial {
            TransitionView::Fail(
                hard_failure(
                    fatal_error(
                        "document_authority_changed"@,
                        "document authority changed after request work was admitted"@,
                        "partial"@,
                    ),
                ),
            )
        } else {
            TransitionView::Fail(
                soft_failure(
                    operation_error(
                        "document_authority_changed"@,
                        "document authority changed while projecting the result"@,
                        "none"@,
                    ),
                ),
            )
        },
        DocumentStateAuthorityError::TokenSpaceExhausted => token_space_view(effect),
        DocumentStateAuthorityError::TokenEntropyUnavailable => token_entropy_view(effect),
    }
}

pub fn mismatched_navigation_authority(
    error: DocumentStateAuthorityError,
    state_effect: RequestStateEffect,
) -> (transition: ActiveTransition)
    ensures
        transition@ == mismatched_authority_view(error, state_effect),
{
    match error {
        DocumentStateAuthorityError::NavigationTargetDoesNotMatchPending => if state_effect
            == RequestStateEffect::Partial {
            ActiveTransition::Fail(
                ActiveFailure {
                    error: fatal_operation(
                        "document_authority_changed",
                        "document authority changed after request work was admitted",
                        "partial",
                    ),
                    fail_stop: true,
                },
            )
        } else {
            ActiveTransition::Fail(
                ActiveFailure {
                    error: ProtocolError::operation(
                        "document_authority_changed",
                        "document authority changed while projecting the result",
                        "none",
                    ),
                    fail_stop: false,
                },
            )
        },
        DocumentStateAuthorityError::TokenSpaceExhausted =>
        document_authority_token_space_exhausted(state_effect),
        DocumentStateAuthorityError::TokenEntropyUnavailable =>
        document_authority_token_entropy_unavailable(state_effect),
    }
}

/// A document state that could not be authorized before any work.
pub open spec fn authorization_failure_view(error: DocumentStateAuthorityError) -> TransitionView {
    match error {
        DocumentStateAuthorityError::NavigationTargetDoesNotMatchPending => TransitionView::Fail(
            soft_failure(stale_state_token_view()),
        ),
        DocumentStateAuthorityError::TokenSpaceExhausted => token_space_view(
            RequestStateEffect::Nothing,
        ),
        DocumentStateAuthorityError::TokenEntropyUnavailable => token_entropy_view(
            RequestStateEffect::Nothing,
        ),
    }
}

pub fn document_authority_authorization_failure(error: DocumentStateAuthorityError) -> (transition:
    ActiveTransition)
    ensures
        transition@ == authorization_failure_view(error),
{
    match error {
        DocumentStateAuthorityError::NavigationTargetDoesNotMatchPending => stale_state_token(),
        DocumentStateAuthorityError::TokenSpaceExhausted =>
        document_authority_token_space_exhausted(RequestStateEffect::Nothing),
        DocumentStateAuthorityError::TokenEntropyUnavailable =>
        document_authority_token_entropy_unavailable(RequestStateEffect::Nothing),
    }
}

/// A controlled open that was not ready in time.
pub open spec fn open_timeout_view(profile: SessionProfile) -> ActiveFailureView {
    if session_api(profile) {
        hard_failure(
            fatal_error(
                "controlled_open_timeout"@,
                "the controlled session did not become ready before the wall deadline"@,
                "indeterminate"@,
            ),
        )
    } else {
        soft_failure(
            operation_error(
                "controlled_open_timeout"@,
                "the controlled document did not become ready before the wall deadline"@,
                "none"@,
            ),
        )
    }
}

pub fn controlled_open_timeout_failure(profile: SessionProfile) -> (failure: ActiveFailure)
    ensures
        failure@ == open_timeout_view(profile),
{
    if profile.supports_session_api() {
        ActiveFailure {
            error: fatal_operation(
                "controlled_open_timeout",
                "the controlled session did not become ready before the wall deadline",
                "indeterminate",
            ),
            fail_stop: true,
        }
    } else {
        ActiveFailure {
            error: ProtocolError::operation(
                "controlled_open_timeout",
                "the controlled document did not become ready before the wall deadline",
                "none",
            ),
            fail_stop: false,
        }
    }
}

/// The observation of a completed control command, or how its outcome is reported.
pub open spec fn observation_or_failure(
    outcome: DocumentControlReceiveOutcome,
    command: DocumentControlCommand,
    effect: RequestStateEffect,
) -> Result<Arc<DocumentControlObservation>, ActiveFailureView> {
    match outcome {
        DocumentControlReceiveOutcome::CommandOutcome { outcome, fault: Some(fault) } => Err(
            if mutates(command) {
                indeterminate_failure_view("invalid document-control outcome: "@ + fault@)
            } else {
                internal_failure_view(
                    "invalid document-control outcome: "@ + fault@,
                    effect_text(effect),
                )
            },
        ),
        DocumentControlReceiveOutcome::CommandOutcome { outcome, fault: None } => match outcome {
            DocumentControlOutcome::Completed(observation) => Ok(observation),
            DocumentControlOutcome::AutomationCompleted { .. } => Err(
                internal_failure_view(
                    "an automation completion was delivered for a runtime-control command"@,
                    effect_text(effect),
                ),
            ),
            DocumentControlOutcome::Rejected { error, diagnostic } => Err(
                soft_failure(
                    operation_error(
                        "document_control_rejected"@,
                        "document-control command was rejected: "@ + diagnostic@,
                        effect_text(effect),
                    ),
                ),
            ),
            _ => Err(
                indeterminate_failure_view("document-control mutation outcome is indeterminate"@),
            ),
        },
        DocumentControlReceiveOutcome::AutomationTransportFailure(diagnostic) => Err(
            internal_failure_view(
                "an automation transport failure was delivered for a runtime-control command: "@
                    + diagnostic@,
                effect_text(effect),
            ),
        ),
        DocumentControlReceiveOutcome::ObserveTransportFailure(diagnostic) => Err(
            soft_failure(
                operation_error(
                    "document_control_transport_failed"@,
                    "document-control observation failed: "@ + diagnostic@,
                    effect_text(effect),
                ),
            ),
        ),
        DocumentControlReceiveOutcome::DriveOneTurnOutcomeIndeterminate(diagnostic) => Err(
            indeterminate_failure_view(
                "document-control turn outcome is indeterminate: "@ + diagnostic@,
            ),
        ),
    }
}

pub fn completed_observation(
    outcome: &DocumentControlReceiveOutcome,
    command: &DocumentControlCommand,
    state_effect: RequestStateEffect,
) -> (r: Result<Arc<DocumentControlObservation>, ActiveFailure>)
    ensures
        match r {
            Ok(observation) => observation_or_failure(*outcome, *command, state_effect) == Ok::<
                Arc<DocumentControlObservation>,
                ActiveFailureView,
            >(observation),
            Err(failure) => observation_or_failure(*outcome, *command, state_effect) == Err::<
                Arc<DocumentControlObservation>,
                ActiveFailureView,
            >(failure@),
        },
{
    match outcome {
        DocumentControlReceiveOutcome::CommandOutcome { outcome, fault } => {
            if let Some(fault) = fault {
                let message = joined("invalid document-control outcome: ", fault.as_str());
                return Err(
                    if command_is_mutating(command) {
                        indeterminate_failure(message.as_str())
                    } else {
                        internal_failure(message.as_str(), state_effect.as_protocol_str())
                    },
                );
            }
            match outcome {
                DocumentControlOutcome::Completed(observation) => Ok(observation.clone()),
                DocumentControlOutcome::AutomationCompleted { .. } => Err(
                    internal_failure(
                        "an automation completion was delivered for a runtime-control command",
                        state_effect.as_protocol_str(),
                    ),
                ),
                DocumentControlOutcome::Rejected { error: _, diagnostic } => Err(
                    soft(
                        "document_control_rejected",
                        joined(
                            "document-control command was rejected: ",
                            diagnostic.as_str(),
                        ).as_str(),
                        state_effect,
                    ),
                ),
                DocumentControlOutcome::DriveOneTurnOutcomeIndeterminate { .. }
                | DocumentControlOutcome::AdvanceOutcomeIndeterminate
                | DocumentControlOutcome::AutomationOutcomeIndeterminate => Err(
                    indeterminate_failure("document-control mutation outcome is indeterminate"),
                ),
            }
        },
        DocumentControlReceiveOutcome::AutomationTransportFailure(diagnostic) => Err(
            internal_failure(
                joined(
                    "an automation transport failure was delivered for a runtime-control command: ",
                    diagnostic.as_str(),
                ).as_str(),
                state_effect.as_protocol_str(),
            ),
        ),
        DocumentControlReceiveOutcome::ObserveTransportFailure(diagnostic) => Err(
            soft(
                "document_control_transport_failed",
                joined("document-control observation failed: ", diagnostic.as_str()).as_str(),
                state_effect,
            ),
        ),
        DocumentControlReceiveOutcome::DriveOneTurnOutcomeIndeterminate(diagnostic) => Err(
            indeterminate_failure(
                joined(
                    "document-control turn outcome is indeterminate: ",
                    diagnostic.as_str(),
                ).as_str(),
            ),
        ),
    }
}

/// The public code of an automation error.
pub open spec fn automation_code(error: DocumentAutomationError) -> Seq<char> {
    match error {
        DocumentAutomationError::InvalidRequest => "invalid_automation_request"@,
        DocumentAutomationError::TargetChanged => "automation_target_changed"@,
        DocumentAutomationError::ExecutionTerminated => "execution_terminated"@,
        DocumentAutomationError::StaleStateGeneration => "stale_generation"@,
        DocumentAutomationError::InvalidSelector => "invalid_selector"@,
        DocumentAutomationError::UnsupportedSelector => "unsupported_selector"@,
        DocumentAutomationError::MatchLimitExceeded => "automation_match_limit_exceeded"@,
        DocumentAutomationError::DomTraversalLimitExceeded =>
        "automation_dom_traversal_limit_exceeded"@,
        DocumentAutomationError::SelectorEvaluationLimitExceeded =>
        "automation_selector_evaluation_limit_exceeded"@,
        DocumentAutomationError::ElementNotFound => "element_not_found"@,
        DocumentAutomationError::SelectorAmbiguous => "selector_ambiguous"@,
        DocumentAutomationError::ExtractionFieldNotFound => "extraction_field_not_found"@,
        DocumentAutomationError::ExtractionFieldAmbiguous => "extraction_field_ambiguous"@,
        DocumentAutomationError::UnsupportedFillElement => "unsupported_fill_element"@,
        DocumentAutomationError::ImmutableFillElement => "immutable_fill_element"@,
        DocumentAutomationError::UnsupportedActivationElement =>
        "unsupported_activation_element"@,
        DocumentAutomationError::DisabledActivationElement => "disabled_activation_element"@,
        DocumentAutomationError::UnsupportedCheckElement => "unsupported_check_element"@,
        DocumentAutomationError::ImmutableCheckElement => "immutable_check_element"@,
        DocumentAutomationError::UnsupportedUncheckElement => "unsupported_uncheck_element"@,
        DocumentAutomationError::ImmutableUncheckElement => "immutable_uncheck_element"@,
        DocumentAutomationError::UnsupportedSelectElement => "unsupported_select_element"@,
        DocumentAutomationError::ImmutableSelectElement => "immutable_select_element"@,
        DocumentAutomationError::InvalidSelectMultiplicity => "invalid_select_multiplicity"@,
        DocumentAutomationError::SelectValueNotFound => "select_value_not_found"@,
        DocumentAutomationError::SelectValueDisabled => "select_value_disabled"@,
        DocumentAutomationError::UnsupportedFocusElement => "unsupported_focus_element"@,
        DocumentAutomationError::UnsupportedSubmitElement => "unsupported_submit_element"@,
        DocumentAutomationError::UnsupportedLazyAttributeSerialization =>
        "unsupported_dom_serialization"@,
        DocumentAutomationError::DomOperationFailed => "document_automation_failed"@,
        DocumentAutomationError::OutputLimitExceeded => "automation_output_limit_exceeded"@,
    }
}

pub fn automation_error_code(error: &DocumentAutomationError) -> (code: &'static str)
    ensures
        code@ == automation_code(*error),
{
    match *error {
        DocumentAutomationError::InvalidRequest => "invalid_automation_request",
        DocumentAutomationError::TargetChanged => "automation_target_changed",
        DocumentAutomationError::ExecutionTerminated => "execution_terminated",
        DocumentAutomationError::StaleStateGeneration => "stale_generation",
        DocumentAutomationError::InvalidSelector => "invalid_selector",
        DocumentAutomationError::UnsupportedSelector => "unsupported_selector",
        DocumentAutomationError::MatchLimitExceeded => "automation_match_limit_exceeded",
        DocumentAutomationError::DomTraversalLimitExceeded =>
        "automation_dom_traversal_limit_exceeded",
        DocumentAutomationError::SelectorEvaluationLimitExceeded =>
        "automation_selector_evaluation_limit_exceeded",
        DocumentAutomationError::ElementNotFound => "element_not_found",
        DocumentAutomationError::SelectorAmbiguous => "selector_ambiguous",
        DocumentAutomationError::ExtractionFieldNotFound => "extraction_field_not_found",
        DocumentAutomationError::ExtractionFieldAmbiguous => "extraction_field_ambiguous",
        DocumentAutomationError::UnsupportedFillElement => "unsupported_fill_element",
        DocumentAutomationError::ImmutableFillElement => "immutable_fill_element",
        DocumentAutomationError::UnsupportedActivationElement => "unsupported_activation_element",
        DocumentAutomationError::DisabledActivationElement => "disabled_activation_element",
        DocumentAutomationError::UnsupportedCheckElement => "unsupported_check_element",
        DocumentAutomationError::ImmutableCheckElement => "immutable_check_element",
        DocumentAutomationError::UnsupportedUncheckElement => "unsupported_uncheck_element",
        DocumentAutomationError::ImmutableUncheckElement => "immutable_uncheck_element",
        DocumentAutomationError::UnsupportedSelectElement => "unsupported_select_element",
        DocumentAutomationError::ImmutableSelectElement => "immutable_select_element",
        DocumentAutomationError::InvalidSelectMultiplicity => "invalid_select_multiplicity",
        DocumentAutomationError::SelectValueNotFound => "select_value_not_found",
        DocumentAutomationError::SelectValueDisabled => "select_value_disabled",
        DocumentAutomationError::UnsupportedFocusElement => "unsupported_focus_element",
        DocumentAutomationError::UnsupportedSubmitElement => "unsupported_submit_element",
        DocumentAutomationError::UnsupportedLazyAttributeSerialization =>
        "unsupported_dom_serialization",
        DocumentAutomationError::DomOperationFailed => "document_automation_failed",
        DocumentAutomationError::OutputLimitExceeded => "automation_output_limit_exceeded",
    }
}

/// How a rejected automation request is reported. The message is the same whatever was asked.
pub open spec fn automation_rejection_view(
    error: DocumentControlError,
    effect: RequestStateEffect,
) -> ProtocolErrorView {
    operation_error(
        match error {
            DocumentControlError::Automation(error) => automation_code(error),
            _ => "document_automation_rejected"@,
        },
        "document automation request was rejected"@,
        effect_text(effect),
    )
}

pub fn automation_rejection(
    error: &DocumentControlError,
    state_effect: RequestStateEffect,
) -> (r: ProtocolError)
    ensures
        r@ == automation_rejection_view(*error, state_effect),
{
    let code = match error {
        DocumentControlError::Automation(error) => automation_error_code(error),
        _ => "document_automation_rejected",
    };
    ProtocolError::operation(
        code,
        "document automation request was rejected",
        state_effect.as_protocol_str(),
    )
}

/// The result, the observation and the navigation mark of a completed automation command, or how its
/// outcome is reported.
pub open spec fn automation_or_failure(
    outcome: DocumentControlReceiveOutcome,
    command: DocumentControlCommand,
    effect: RequestStateEffect,
) -> Result<(u64, Arc<DocumentControlObservation>, bool), ActiveFailureView> {
    if !(command is Automate) {
        Err(
            internal_failure_view(
                "automation completion was paired with a non-automation command"@,
                effect_text(effect),
            ),
        )
    } else {
        match outcome {
            DocumentControlReceiveOutcome::CommandOutcome { outcome, fault: Some(fault) } => Err(
                if mutates(command) {
                    indeterminate_failure_view("invalid document-automation outcome: "@ + fault@)
                } else {
                    internal_failure_view(
                        "invalid document-automation outcome: "@ + fault@,
                        effect_text(effect),
                    )
                },
            ),
            DocumentControlReceiveOutcome::CommandOutcome { outcome, fault: None } =>
            match outcome {
                DocumentControlOutcome::AutomationCompleted {
                    result,
                    observation,
                    synchronous_navigation_emitted,
                } => Ok((result, observation, synchronous_navigation_emitted)),
                DocumentControlOutcome::Rejected { error, diagnostic } => Err(
                    soft_failure(automation_rejection_view(error, effect)),
                ),
                DocumentControlOutcome::AutomationOutcomeIndeterminate => Err(
                    indeterminate_failure_view(
                        "document-automation mutation outcome is indeterminate"@,
                    ),
                ),
                _ => Err(
                    internal_failure_view(
                        "a non-automation outcome was delivered for an automation command"@,
                        effect_text(effect),
                    ),
                ),
            },
            DocumentControlReceiveOutcome::AutomationTransportFailure(diagnostic) => Err(
                soft_failure(
                    operation_error(
                        "document_automation_transport_failed"@,
                        "document automation failed in transport: "@ + diagnostic@,
                        effect_text(effect),
                    ),
                ),
            ),
            DocumentControlReceiveOutcome::ObserveTransportFailure(diagnostic) => Err(
                internal_failure_view(
                    "an Observe transport failure was delivered for automation: "@ + diagnostic@,
                    effect_text(effect),
                ),
            ),
            DocumentControlReceiveOutcome::DriveOneTurnOutcomeIndeterminate(diagnostic) => Err(
                indeterminate_failure_view(
                    "an indeterminate turn outcome was delivered for automation: "@ + diagnostic@,
                ),
            ),
        }
    }
}

pub fn completed_automation(
    outcome: &DocumentControlReceiveOutcome,
    command: &DocumentControlCommand,
    state_effect: RequestStateEffect,
) -> (r: Result<(u64, Arc<DocumentControlObservation>, bool), ActiveFailure>)
    ensures
        match r {
            Ok(completion) => automation_or_failure(*outcome, *command, state_effect) == Ok::<
                (u64, Arc<DocumentControlObservation>, bool),
                ActiveFailureView,
            >(completion),
            Err(failure) => automation_or_failure(*outcome, *command, state_effect) == Err::<
                (u64, Arc<DocumentControlObservation>, bool),
                ActiveFailureView,
            >(failure@),
        },
{
    match command {
        DocumentControlCommand::Automate(_) => {},
        _ => {
            return Err(
                internal_failure(
                    "automation completion was paired with a non-automation command",
                    state_effect.as_protocol_str(),
                ),
            );
        },
    }
    match outcome {
        DocumentControlReceiveOutcome::CommandOutcome { outcome, fault } => {
            if let Some(fault) = fault {
                let message = joined("invalid document-automation outcome: ", fault.as_str());
                return Err(
                    if command_is_mutating(command) {
                        indeterminate_failure(message.as_str())
                    } else {
                        internal_failure(message.as_str(), state_effect.as_protocol_str())
                    },
                );
            }
            match outcome {
                DocumentControlOutcome::AutomationCompleted {
                    result,
                    observation,
                    synchronous_navigation_emitted,
                } => Ok((*result, observation.clone(), *synchronous_navigation_emitted)),
                DocumentControlOutcome::Rejected { error, diagnostic: _ } => Err(
                    ActiveFailure {
                        error: automation_rejection(error, state_effect),
                        fail_stop: false,
                    },
                ),
                DocumentControlOutcome::AutomationOutcomeIndeterminate => Err(
                    indeterminate_failure("document-automation mutation outcome is indeterminate"),
                ),
                DocumentControlOutcome::Completed(_)
                | DocumentControlOutcome::DriveOneTurnOutcomeIndeterminate { .. }
                | DocumentControlOutcome::AdvanceOutcomeIndeterminate => Err(
                    internal_failure(
                        "a non-automation outcome was delivered for an automation command",
                        state_effect.as_protocol_str(),
                    ),
                ),
            }
        },
        DocumentControlReceiveOutcome::AutomationTransportFailure(diagnostic) => Err(
            soft(
                "document_automation_transport_failed",
                joined("document automation failed in transport: ", diagnostic.as_str()).as_str(),
                state_effect,
            ),
        ),
        DocumentControlReceiveOutcome::ObserveTransportFailure(diagnostic) => Err(
            internal_failure(
                joined(
                    "an Observe transport failure was delivered for automation: ",
                    diagnostic.as_str(),
                ).as_str(),
                state_effect.as_protocol_str(),
            ),
        ),
        DocumentControlReceiveOutcome::DriveOneTurnOutcomeIndeterminate(diagnostic) => Err(
            indeterminate_failure(
                joined(
                    "an indeterminate turn outcome was delivered for automation: ",
                    diagnostic.as_str(),
                ).as_str(),
            ),
        ),
    }
}

/// The public code and the name of an exhausted execution budget.
pub open spec fn budget_texts(budget: DocumentExecutionBudget) -> (Seq<char>, Seq<char>) {
    match budget {
        DocumentExecutionBudget::OrdinaryTasks => ("task_limit_exceeded"@, "ordinary_tasks"@),
        DocumentExecutionBudget::Microtasks => ("microtask_limit_exceeded"@, "microtasks"@),
        DocumentExecutionBudget::RenderingOpportunities => (
            "rendering_limit_exceeded"@,
            "rendering_opportunities"@,
        ),
        DocumentExecutionBudget::MutationRecords => ("mutation_limit_exceeded"@, "mutations"@),
    }
}

proof fn lemma_budget_text_is_short(budget: DocumentExecutionBudget)
    ensures
        budget_texts(budget).1.len() <= 64,
{
    reveal_strlit("ordinary_tasks");
    reveal_strlit("microtasks");
    reveal_strlit("rendering_opportunities");
    reveal_strlit("mutations");
}

fn budget_names(budget: DocumentExecutionBudget) -> (r: (&'static str, &'static str))
    ensures
        (r.0@, r.1@) == budget_texts(budget),
{
    match budget {
        DocumentExecutionBudget::OrdinaryTasks => ("task_limit_exceeded", "ordinary_tasks"),
        DocumentExecutionBudget::Microtasks => ("microtask_limit_exceeded", "microtasks"),
        DocumentExecutionBudget::RenderingOpportunities => (
            "rendering_limit_exceeded",
            "rendering_opportunities",
        ),
        DocumentExecutionBudget::MutationRecords => ("mutation_limit_exceeded", "mutations"),
    }
}

/// The code, message and details of a settlement that ended without quiescence.
pub open spec fn completion_fault(completion: SettleCompletion) -> Option<
    (Seq<char>, Seq<char>, JsonView),
> {
    match completion {
        SettleCompletion::Quiescent { .. } => None,
        SettleCompletion::QuiescentWithPersistentWork { .. } => None,
        SettleCompletion::BlockedOnExternalIo { active_operations, .. } => Some(
            (
                "blocked_on_external_io"@,
                "navigation could not reach controlled_ready while external I/O remained active"@,
                object_json(seq![decimal_member("activeOperations"@, active_operations as nat)]),
            ),
        ),
        SettleCompletion::BlockedOnOpenEndedWork { persistent_work, .. } => Some(
            (
                "blocked_on_open_ended_work"@,
                "navigation could not reach controlled_ready while open-ended work blocked progress"@,
                object_json(seq![decimal_member("persistentWork"@, persistent_work as nat)]),
            ),
        ),
        SettleCompletion::VirtualTimeLimitExceeded {
            start_virtual_time_ns,
            requested_virtual_time_ns,
            limit_ns,
            ..
        } => Some(
            (
                "virtual_time_limit_exceeded"@,
                "navigation could not reach controlled_ready within the virtual-time limit"@,
                object_json(
                    seq![
                        decimal_member("limit"@, limit_ns as nat),
                        decimal_member("startVirtualTimeNs"@, start_virtual_time_ns as nat),
                        decimal_member("requestedVirtualTimeNs"@, requested_virtual_time_ns as nat),
                    ],
                ),
            ),
        ),
        SettleCompletion::ControlTurnLimitExceeded { limit, control_turns, .. } => Some(
            (
                "control_turn_limit_exceeded"@,
                "navigation could not reach controlled_ready within the control-turn limit"@,
                object_json(
                    seq![
                        decimal_member("limit"@, limit as nat),
                        decimal_member("observed"@, control_turns as nat),
                    ],
                ),
            ),
        ),
        SettleCompletion::ExecutionLimitExceeded { budget, limit, observed, .. } => Some(
            (
                budget_texts(budget).0,
                "navigation could not reach controlled_ready within an execution limit"@,
                object_json(
                    seq![
                        ("kind"@, JsonView::Text(budget_texts(budget).1)),
                        decimal_member("limit"@, limit as nat),
                        decimal_member("observed"@, observed as nat),
                    ],
                ),
            ),
        ),
        SettleCompletion::RuntimeError { unsupported, details, .. } => Some(
            (
                if unsupported {
                    "unsupported_work"@
                } else {
                    "runtime_error"@
                },
                if unsupported {
                    "navigation encountered work outside the controlled-session support profile"@
                } else {
                    "navigation settlement reached a runtime error"@
                },
                value_json(*details),
            ),
        ),
    }
}

/// The snapshot of a quiescent settlement, or how any other end is reported.
pub open spec fn ready_or_failure(
    completion: SettleCompletion,
    effect: RequestStateEffect,
    fail_stop: bool,
) -> Result<Arc<PendingSnapshot>, ActiveFailureView> {
    match completion_fault(completion) {
        None => Ok(crate::control::completion_pending(completion)),
        Some((code, message, details)) => Err(
            ActiveFailureView {
                error: ProtocolErrorView {
                    fatal: fail_stop,
                    ..if completion is RuntimeError {
                        detailed(operation_error(code, message, effect_text(effect)), details)
                    } else {
                        attached(operation_error(code, message, effect_text(effect)), details)
                    }
                },
                fail_stop,
            },
        ),
    }
}

pub fn controlled_ready_pending(
    completion: &SettleCompletion,
    state_effect: RequestStateEffect,
    fail_stop: bool,
) -> (r: Result<Arc<PendingSnapshot>, ActiveFailure>)
    ensures
        match r {
            Ok(pending) => ready_or_failure(*completion, state_effect, fail_stop) == Ok::<
                Arc<PendingSnapshot>,
                ActiveFailureView,
            >(pending),
            Err(failure) => ready_or_failure(*completion, state_effect, fail_stop) == Err::<
                Arc<PendingSnapshot>,
                ActiveFailureView,
            >(failure@),
        },
{
    let (code, message, details): (&'static str, &'static str, Value) = match completion {
        SettleCompletion::Quiescent { pending } => {
            return Ok(pending.clone());
        },
        SettleCompletion::QuiescentWithPersistentWork { pending } => {
            return Ok(pending.clone());
        },
        SettleCompletion::BlockedOnExternalIo { pending: _, active_operations } => {
            let members = vec![number_member("activeOperations", *active_operations as u128)];
            proof {
                reveal_strlit("activeOperations");
            }
            assert(members_json(members@) =~= seq![
                decimal_member("activeOperations"@, *active_operations as nat),
            ]);
            (
                "blocked_on_external_io",
                "navigation could not reach controlled_ready while external I/O remained active",
                brief_object(members),
            )
        },
        SettleCompletion::BlockedOnOpenEndedWork { pending: _, persistent_work } => {
            let members = vec![number_member("persistentWork", *persistent_work as u128)];
            proof {
                reveal_strlit("persistentWork");
            }
            assert(members_json(members@) =~= seq![
                decimal_member("persistentWork"@, *persistent_work as nat),
            ]);
            (
                "blocked_on_open_ended_work",
                "navigation could not reach controlled_ready while open-ended work blocked progress",
                brief_object(members),
            )
        },
        SettleCompletion::VirtualTimeLimitExceeded {
            pending: _,
            start_virtual_time_ns,
            requested_virtual_time_ns,
            limit_ns,
        } => {
            let members = vec![
                number_member("limit", *limit_ns),
                number_member("startVirtualTimeNs", *start_virtual_time_ns),
                number_member("requestedVirtualTimeNs", *requested_virtual_time_ns),
            ];
            proof {
                reveal_strlit("limit");
                reveal_strlit("startVirtualTimeNs");
                reveal_strlit("requestedVirtualTimeNs");
            }
            assert(members_json(members@) =~= seq![
                decimal_member("limit"@, *limit_ns as nat),
                decimal_member("startVirtualTimeNs"@, *start_virtual_time_ns as nat),
                decimal_member("requestedVirtualTimeNs"@, *requested_virtual_time_ns as nat),
            ]);
            (
                "virtual_time_limit_exceeded",
                "navigation could not reach controlled_ready within the virtual-time limit",
                brief_object(members),
            )
        },
        SettleCompletion::ControlTurnLimitExceeded { pending: _, limit, control_turns } => {
            let members = vec![
                number_member("limit", *limit as u128),
                number_member("observed", *control_turns as u128),
            ];
            proof {
                reveal_strlit("limit");
                reveal_strlit("observed");
            }
            assert(members_json(members@) =~= seq![
                decimal_member("limit"@, *limit as nat),
                decimal_member("observed"@, *control_turns as nat),
            ]);
            (
                "control_turn_limit_exceeded",
                "navigation could not reach controlled_ready within the control-turn limit",
                brief_object(members),
            )
        },
        SettleCompletion::ExecutionLimitExceeded { pending: _, budget, limit, observed } => {
            let (code, kind) = budget_names(*budget);
            let members = vec![
                ("kind".to_owned(), text_value(kind)),
                number_member("limit", *limit as u128),
                number_member("observed", *observed as u128),
            ];
            proof {
                reveal_strlit("kind");
                reveal_strlit("limit");
                reveal_strlit("observed");
                lemma_budget_text_is_short(*budget);
            }
            assert(members_json(members@) =~= seq![
                ("kind"@, JsonView::Text(budget_texts(*budget).1)),
                decimal_member("limit"@, *limit as nat),
                decimal_member("observed"@, *observed as nat),
            ]);
            (
                code,
                "navigation could not reach controlled_ready within an execution limit",
                brief_object(members),
            )
        },
        SettleCompletion::RuntimeError { pending: _, unsupported, details } => {
            if *unsupported {
                (
                    "unsupported_work",
                    "navigation encountered work outside the controlled-session support profile",
                    clone_value(details),
                )
            } else {
                (
                    "runtime_error",
                    "navigation settlement reached a runtime error",
                    clone_value(details),
                )
            }
        },
    };
    let mut error = with_error_details(
        ProtocolError::operation(code, message, state_effect.as_protocol_str()),
        details,
    );
    error.fatal = fail_stop;
    Err(ActiveFailure { error, fail_stop })
}

} // verus!
