//! What the controlled network and the session-state store report, and how it is told to the peer.

use vstd::prelude::*;
use vstd::string::*;

use crate::active::{ActiveFailure, ActiveFailureView};
use crate::error::{
    attached, details_fault, details_walk, fatal_error, fatal_operation, invalid_request_error,
    is_brief, lemma_short_object_is_brief, members_walk, operation_error, ProtocolError,
    ProtocolErrorDetailsError, ProtocolErrorView, MAX_EXACT_JSON_INTEGER,
};
use crate::failure::{hard_failure, inexact_details, soft_failure, with_error_details};
use crate::json::{
    lemma_collected_distinct, members_json, object_json, unsigned_json, unsigned_value, value_of,
    NewValue,
};
use crate::profile::{effect_text, RequestStateEffect};
use crate::text::{joined, same_text};

verus! {

/// A failure of the controlled network that stays until the session ends.
#[derive(Clone, Copy, Debug, PartialEq, Eq, Structural)]
pub enum ControlledNetworkFailure {
    FixtureMiss,
    ActiveOperationLimitExceeded,
    UnknownRequestBodyLength,
    RequestMetadataRejected,
    CookieSameSiteContextUnsupported,
    PersistentCookieUnsupported,
    PartitionedCookieUnsupported,
    CookieTimeRangeUnsupported,
    InvalidCookie,
    EvidenceLedgerFailure,
    LifecycleInvariant,
    VirtualTimeRegressed,
}

/// The state of the controlled network.
#[derive(Clone, Copy, Debug, PartialEq, Eq, Structural)]
pub struct ControlledNetworkSnapshot {
    pub active_operations: usize,
    pub maximum_active_operations: usize,
    pub sticky_failure: Option<ControlledNetworkFailure>,
}

/// The number of active operations; none where there is no controlled network.
pub open spec fn active_operations_of(snapshot: Option<ControlledNetworkSnapshot>) -> usize {
    match snapshot {
        Some(snapshot) => snapshot.active_operations,
        None => 0,
    }
}

pub fn active_operations(snapshot: Option<ControlledNetworkSnapshot>) -> (r: usize)
    ensures
        r == active_operations_of(snapshot),
{
    match snapshot {
        Some(snapshot) => snapshot.active_operations,
        None => 0,
    }
}

/// One more than `n`, as far as the machine counts.
pub open spec fn successor(n: usize) -> usize {
    if n == usize::MAX {
        n
    } else {
        (n + 1) as usize
    }
}

/// The code and the message of a failure that leaves the session usable.
pub open spec fn rejection_texts(failure: ControlledNetworkFailure) -> (Seq<char>, Seq<char>) {
    match failure {
        ControlledNetworkFailure::FixtureMiss => (
            "network_fixture_miss"@,
            "fixtures_only rejected a request without an immutable matching route"@,
        ),
        ControlledNetworkFailure::ActiveOperationLimitExceeded => (
            "controlled_network_active_operation_limit_exceeded"@,
            "controlled-network active operation limit was exceeded"@,
        ),
        ControlledNetworkFailure::UnknownRequestBodyLength => (
            "unsupported_network_request_body_length"@,
            "controlled network requires a bounded request body length"@,
        ),
        ControlledNetworkFailure::RequestMetadataRejected => (
            "unsupported_network_request_metadata"@,
            "controlled network rejected request metadata outside the support profile"@,
        ),
        ControlledNetworkFailure::CookieSameSiteContextUnsupported => (
            "unsupported_cookie_same_site_context"@,
            "controlled cookie SameSite context is outside the support profile"@,
        ),
        ControlledNetworkFailure::PersistentCookieUnsupported => (
            "unsupported_persistent_cookie"@,
            "controlled sessions support only session cookies"@,
        ),
        ControlledNetworkFailure::PartitionedCookieUnsupported => (
            "unsupported_partitioned_cookie"@,
            "controlled sessions do not support partitioned cookies"@,
        ),
        ControlledNetworkFailure::CookieTimeRangeUnsupported => (
            "unsupported_cookie_time_range"@,
            "controlled cookie time is outside the bounded persistence range"@,
        ),
        ControlledNetworkFailure::InvalidCookie => (
            "invalid_controlled_cookie"@,
            "controlled Set-Cookie metadata was invalid"@,
        ),
        ControlledNetworkFailure::EvidenceLedgerFailure => (
            "internal_runtime_failure"@,
            "controlled-network authority failed: EvidenceLedgerFailure"@,
        ),
        ControlledNetworkFailure::LifecycleInvariant => (
            "internal_runtime_failure"@,
            "controlled-network authority failed: LifecycleInvariant"@,
        ),
        ControlledNetworkFailure::VirtualTimeRegressed => (
            "internal_runtime_failure"@,
            "controlled-network authority failed: VirtualTimeRegressed"@,
        ),
    }
}

/// Whether a failure breaks an invariant of the controlled network and so closes the session.
pub open spec fn breaks_network(failure: ControlledNetworkFailure) -> bool {
    match failure {
        ControlledNetworkFailure::EvidenceLedgerFailure => true,
        ControlledNetworkFailure::LifecycleInvariant => true,
        ControlledNetworkFailure::VirtualTimeRegressed => true,
        _ => false,
    }
}

/// An error with two integers as its details, or the failure that an integer causes which does not
/// survive decoding.
pub open spec fn with_bounds(
    error: ProtocolErrorView,
    first: Seq<char>,
    m: usize,
    second: Seq<char>,
    n: usize,
) -> ProtocolErrorView {
    if m <= MAX_EXACT_JSON_INTEGER && n <= MAX_EXACT_JSON_INTEGER {
        attached(
            error,
            object_json(seq![(first, unsigned_json(m as u64)), (second, unsigned_json(n as u64))]),
        )
    } else {
        inexact_details()
    }
}

/// How a failure of the controlled network is reported.
pub open spec fn network_failure_view(
    failure: ControlledNetworkFailure,
    maximum_active_operations: usize,
    effect: RequestStateEffect,
) -> ActiveFailureView {
    let (code, message) = rejection_texts(failure);
    if breaks_network(failure) {
        hard_failure(
            fatal_error(
                code,
                message,
                if failure == ControlledNetworkFailure::VirtualTimeRegressed {
                    "indeterminate"@
                } else {
                    effect_text(effect)
                },
            ),
        )
    } else {
        let error = operation_error(code, message, "partial"@);
        soft_failure(
            if failure == ControlledNetworkFailure::ActiveOperationLimitExceeded {
                with_bounds(
                    error,
                    "limit"@,
                    maximum_active_operations,
                    "observed"@,
                    successor(maximum_active_operations),
                )
            } else {
                error
            },
        )
    }
}

/// The failure that a snapshot of the controlled network carries.
pub open spec fn network_failure_of(
    snapshot: Option<ControlledNetworkSnapshot>,
    effect: RequestStateEffect,
) -> Option<ActiveFailureView> {
    match snapshot {
        Some(snapshot) => match snapshot.sticky_failure {
            Some(failure) => Some(
                network_failure_view(failure, snapshot.maximum_active_operations, effect),
            ),
            None => None,
        },
        None => None,
    }
}

fn failure_texts(failure: ControlledNetworkFailure) -> (r: (&'static str, &'static str))
    ensures
        (r.0@, r.1@) == rejection_texts(failure),
{
    match failure {
        ControlledNetworkFailure::FixtureMiss => (
            "network_fixture_miss",
            "fixtures_only rejected a request without an immutable matching route",
        ),
        ControlledNetworkFailure::ActiveOperationLimitExceeded => (
            "controlled_network_active_operation_limit_exceeded",
            "controlled-network active operation limit was exceeded",
        ),
        ControlledNetworkFailure::UnknownRequestBodyLength => (
            "unsupported_network_request_body_length",
            "controlled network requires a bounded request body length",
        ),
        ControlledNetworkFailure::RequestMetadataRejected => (
            "unsupported_network_request_metadata",
            "controlled network rejected request metadata outside the support profile",
        ),
        ControlledNetworkFailure::CookieSameSiteContextUnsupported => (
            "unsupported_cookie_same_site_context",
            "controlled cookie SameSite context is outside the support profile",
        ),
        ControlledNetworkFailure::PersistentCookieUnsupported => (
            "unsupported_persistent_cookie",
            "controlled sessions support only session cookies",
        ),
        ControlledNetworkFailure::PartitionedCookieUnsupported => (
            "unsupported_partitioned_cookie",
            "controlled sessions do not support partitioned cookies",
        ),
        ControlledNetworkFailure::CookieTimeRangeUnsupported => (
            "unsupported_cookie_time_range",
            "controlled cookie time is outside the bounded persistence range",
        ),
        ControlledNetworkFailure::InvalidCookie => (
            "invalid_controlled_cookie",
            "controlled Set-Cookie metadata was invalid",
        ),
        ControlledNetworkFailure::EvidenceLedgerFailure => (
            "internal_runtime_failure",
            "controlled-network authority failed: EvidenceLedgerFailure",
        ),
        ControlledNetworkFailure::LifecycleInvariant => (
            "internal_runtime_failure",
            "controlled-network authority failed: LifecycleInvariant",
        ),
        ControlledNetworkFailure::VirtualTimeRegressed => (
            "internal_runtime_failure",
            "controlled-network authority failed: VirtualTimeRegressed",
        ),
    }
}

proof fn lemma_bounds(first: Seq<char>, m: u64, second: Seq<char>, n: u64)
    requires
        first != second,
        first.len() <= 64,
        second.len() <= 64,
    ensures
        ({
            let details = object_json(
                seq![(first, unsigned_json(m)), (second, unsigned_json(n))],
            );
            if m <= MAX_EXACT_JSON_INTEGER && n <= MAX_EXACT_JSON_INTEGER {
                is_brief(details)
            } else {
                details_fault(details) == Some(
                    ProtocolErrorDetailsError::IntegerNotExactlyRepresentable,
                )
            }
        }),
{
    let members = seq![(first, unsigned_json(m)), (second, unsigned_json(n))];
    if m <= MAX_EXACT_JSON_INTEGER && n <= MAX_EXACT_JSON_INTEGER {
        lemma_short_object_is_brief(members);
    } else {
        lemma_collected_distinct(members);
        reveal_with_fuel(details_walk, 3);
        reveal_with_fuel(members_walk, 3);
        assert(members.drop_last() =~= seq![(first, unsigned_json(m))]);
        assert(members.drop_last().drop_last() =~= Seq::empty());
    }
}

fn attach_bounds(error: ProtocolError, first: &str, m: usize, second: &str, n: usize) -> (r:
    ProtocolError)
    requires
        first@ != second@,
        first@.len() <= 64,
        second@.len() <= 64,
    ensures
        r@ == with_bounds(error@, first@, m, second@, n),
{
    let members = vec![
        (first.to_owned(), unsigned_value(m as u64)),
        (second.to_owned(), unsigned_value(n as u64)),
    ];
    assert(members_json(members@) =~= seq![
        (first@, unsigned_json(m as u64)),
        (second@, unsigned_json(n as u64)),
    ]);
    proof {
        lemma_bounds(first@, m as u64, second@, n as u64);
    }
    with_error_details(error, value_of(NewValue::Object(members)))
}

/// The failure that a snapshot of the controlled network carries. Each failure that leaves the
/// session usable is reported as partial work.
pub fn controlled_network_failure(
    snapshot: ControlledNetworkSnapshot,
    state_effect: RequestStateEffect,
) -> (failure: Option<ActiveFailure>)
    ensures
        match failure {
            Some(failure) => network_failure_of(Some(snapshot), state_effect) == Some(failure@),
            None => network_failure_of(Some(snapshot), state_effect) is None,
        },
{
    let failure = match snapshot.sticky_failure {
        Some(failure) => failure,
        None => {
            return None;
        },
    };
    let (code, message) = failure_texts(failure);
    let breaks = match failure {
        ControlledNetworkFailure::EvidenceLedgerFailure
        | ControlledNetworkFailure::LifecycleInvariant
        | ControlledNetworkFailure::VirtualTimeRegressed => true,
        _ => false,
    };
    if breaks {
        let effect = if failure == ControlledNetworkFailure::VirtualTimeRegressed {
            "indeterminate"
        } else {
            state_effect.as_protocol_str()
        };
        return Some(ActiveFailure { error: fatal_operation(code, message, effect), fail_stop: true });
    }
    let error = ProtocolError::operation(code, message, "partial");
    let error = if failure == ControlledNetworkFailure::ActiveOperationLimitExceeded {
        let limit = snapshot.maximum_active_operations;
        let observed = if limit == usize::MAX {
            limit
        } else {
            limit + 1
        };
        proof {
            reveal_strlit("limit");
            reveal_strlit("observed");
        }
        attach_bounds(error, "limit", limit, "observed", observed)
    } else {
        error
    };
    Some(ActiveFailure { error, fail_stop: false })
}

/// Why the ledger of network evidence refused a page.
#[derive(Debug)]
pub enum EvidenceLedgerError {
    InvalidPageLimit { observed: usize, limit: usize },
    Other { diagnostic: String },
}

/// How a refusal of the evidence ledger is reported.
pub open spec fn evidence_error_view(error: EvidenceLedgerError) -> ProtocolErrorView {
    match error {
        EvidenceLedgerError::InvalidPageLimit { observed, limit } => with_bounds(
            invalid_request_error("invalid session audit page limit"@),
            "observed"@,
            observed,
            "limit"@,
            limit,
        ),
        EvidenceLedgerError::Other { diagnostic } => fatal_error(
            "internal_runtime_failure"@,
            "controlled-network evidence ledger failed: "@ + diagnostic@,
            "none"@,
        ),
    }
}

pub fn network_evidence_protocol_error(error: &EvidenceLedgerError) -> (r: ProtocolError)
    ensures
        r@ == evidence_error_view(*error),
{
    match error {
        EvidenceLedgerError::InvalidPageLimit { observed, limit } => {
            proof {
                reveal_strlit("limit");
                reveal_strlit("observed");
            }
            attach_bounds(
                ProtocolError::invalid_request("invalid session audit page limit"),
                "observed",
                *observed,
                "limit",
                *limit,
            )
        },
        EvidenceLedgerError::Other { diagnostic } => fatal_operation(
            "internal_runtime_failure",
            joined("controlled-network evidence ledger failed: ", diagnostic.as_str()).as_str(),
            "none",
        ),
    }
}

/// How the controlled network's refusal of a virtual time is reported, where `diagnostic` is its
/// reason.
pub fn network_time_protocol_error(diagnostic: &str) -> (error: ProtocolError)
    ensures
        error@ == fatal_error(
            "internal_runtime_failure"@,
            "controlled-network virtual time regressed: "@ + diagnostic@,
            "indeterminate"@,
        ),
{
    fatal_operation(
        "internal_runtime_failure",
        joined("controlled-network virtual time regressed: ", diagnostic).as_str(),
        "indeterminate",
    )
}

/// The stages of the session-state store.
#[derive(Clone, Copy, Debug, PartialEq, Eq, Structural)]
pub enum SessionStateBackendStage {
    Observe,
    CookieReplace,
    WebStorageReplace,
    Other,
}

/// Why the session-state store refused an operation.
#[derive(Clone, Copy, Debug, PartialEq, Eq, Structural)]
pub enum SessionStateErrorKind {
    InvalidCookie,
    TokenEntropyUnavailable,
    TokenSpaceExhausted,
    BackendRevisionRegressed,
    BackendRejected(SessionStateBackendStage),
    Other,
}

/// A refusal of the session-state store, with the code that the store itself has for it.
#[derive(Clone, Copy, Debug)]
pub struct SessionStateError {
    pub kind: SessionStateErrorKind,
    pub code: &'static str,
}

/// The public code of a refusal.
pub open spec fn state_error_code(error: SessionStateError) -> Seq<char> {
    if error.kind == SessionStateErrorKind::InvalidCookie {
        "invalid_controlled_cookie"@
    } else {
        error.code@
    }
}

pub fn session_state_error_code(error: SessionStateError) -> (code: &'static str)
    ensures
        code@ == state_error_code(error),
{
    match error.kind {
        SessionStateErrorKind::InvalidCookie => "invalid_controlled_cookie",
        _ => error.code,
    }
}

/// Whether the store may have been replaced in part.
pub open spec fn replaces_state(kind: SessionStateErrorKind) -> bool {
    match kind {
        SessionStateErrorKind::BackendRejected(stage) => match stage {
            SessionStateBackendStage::CookieReplace => true,
            SessionStateBackendStage::WebStorageReplace => true,
            _ => false,
        },
        _ => false,
    }
}

/// Whether the authority over the session state is lost.
pub open spec fn loses_authority(kind: SessionStateErrorKind) -> bool {
    match kind {
        SessionStateErrorKind::TokenEntropyUnavailable => true,
        SessionStateErrorKind::TokenSpaceExhausted => true,
        SessionStateErrorKind::BackendRevisionRegressed => true,
        _ => replaces_state(kind),
    }
}

/// How a refusal of the session-state store is reported.
pub open spec fn state_error_view(error: SessionStateError) -> ProtocolErrorView {
    ProtocolErrorView {
        code: state_error_code(error),
        message: "session-state operation was rejected"@,
        fatal: loses_authority(error.kind),
        state_effect: if replaces_state(error.kind) {
            "indeterminate"@
        } else {
            "none"@
        },
        details: None,
    }
}

pub fn session_state_protocol_error(error: SessionStateError) -> (r: ProtocolError)
    ensures
        r@ == state_error_view(error),
{
    let replaces = match error.kind {
        SessionStateErrorKind::BackendRejected(
            SessionStateBackendStage::CookieReplace | SessionStateBackendStage::WebStorageReplace,
        ) => true,
        _ => false,
    };
    let loses = match error.kind {
        SessionStateErrorKind::TokenEntropyUnavailable
        | SessionStateErrorKind::TokenSpaceExhausted
        | SessionStateErrorKind::BackendRevisionRegressed => true,
        _ => replaces,
    };
    let mut protocol = ProtocolError::operation(
        session_state_error_code(error),
        "session-state operation was rejected",
        if replaces {
            "indeterminate"
        } else {
            "none"
        },
    );
    protocol.fatal = loses;
    protocol
}

/// The methods that replace session state.
pub open spec fn is_state_mutation(method: Seq<char>) -> bool {
    method == "session.cookies.set"@ || method == "session.storage.set"@
}

/// The codes after which a mutation of the session state has an unknown outcome.
pub open spec fn is_indeterminate_state_code(code: Seq<char>) -> bool {
    ||| code == "session_state_backend_observe_failed"@
    ||| code == "session_state_cookie_replace_failed"@
    ||| code == "session_state_web_storage_replace_failed"@
    ||| code == "session_state_backend_revision_regressed"@
    ||| code == "session_state_token_entropy_unavailable"@
    ||| code == "session_state_token_space_exhausted"@
}

/// An error of a session-state method, fatal where a mutation's outcome is unknown.
pub open spec fn hardened_state_error(method: Seq<char>, error: ProtocolErrorView) ->
    ProtocolErrorView {
    if is_state_mutation(method) && is_indeterminate_state_code(error.code) {
        ProtocolErrorView { fatal: true, state_effect: "indeterminate"@, ..error }
    } else {
        error
    }
}

pub fn harden_session_state_mutation_error(method: &str, error: ProtocolError) -> (r: ProtocolError)
    ensures
        r@ == hardened_state_error(method@, error@),
{
    let mut error = error;
    if (same_text(method, "session.cookies.set") || same_text(method, "session.storage.set")) && (
    same_text(error.code, "session_state_backend_observe_failed")
        || same_text(error.code, "session_state_cookie_replace_failed")
        || same_text(error.code, "session_state_web_storage_replace_failed")
        || same_text(error.code, "session_state_backend_revision_regressed")
        || same_text(error.code, "session_state_token_entropy_unavailable")
        || same_text(error.code, "session_state_token_space_exhausted")) {
        error.fatal = true;
        error.state_effect = "indeterminate";
    }
    error
}

} // verus!
