//! Support profiles of a session, the effect that a request had on it, and wall-clock limits.
//!
//! Instants are nanoseconds of the host's monotonic clock since an arbitrary origin; durations are
//! nanoseconds.

use vstd::prelude::*;

verus! {

pub const SESSION_ID: &'static str = "s-1";

pub const CONTROLLED_WEBAPP_V1_PROFILE: &'static str = "controlled-webapp-v1";

pub const CONTROLLED_WEB_SESSION_V1_PROFILE: &'static str = "controlled-web-session-v1";

pub const CONTROLLED_WEB_SESSION_V2_PROFILE: &'static str = "controlled-web-session-v2";

/// How long a control command may take, in nanoseconds.
pub const CONTROL_COMMAND_TIMEOUT_NS: u64 = 30_000_000_000;

/// How long a controlled open may take, in nanoseconds. It stays below the peer's own command
/// timeout, so that the typed failure is seen first.
pub const CONTROLLED_OPEN_WALL_TIMEOUT_NS: u64 = 25_000_000_000;

/// The pause between two readiness probes of a controlled open, in nanoseconds.
pub const CONTROLLED_OPEN_RETRY_INTERVAL_NS: u64 = 10_000_000;

/// The longest sleep of the owner loop, in nanoseconds.
pub const OWNER_LOOP_SAFETY_TIMEOUT_NS: u64 = 86_400_000_000_000;

pub const DEFAULT_SESSION_AUDIT_PAGE_ITEMS: usize = 256;

pub const HARD_SESSION_AUDIT_PAGE_ITEMS: usize = 1024;

/// How the engine confines a session's documents.
#[derive(Clone, Copy, Debug, PartialEq, Eq, Structural)]
pub enum DocumentControlProfile {
    SingleDocument,
    TopLevelSession,
}

/// How the engine runs a document.
#[derive(Clone, Copy, Debug, PartialEq, Eq, Structural)]
pub enum DocumentExecutionProfile {
    Baseline,
    ControlledWebSessionV2,
}

/// The support profile of a controlled session.
#[derive(Clone, Copy, Debug, PartialEq, Eq, Structural)]
pub enum SessionProfile {
    ControlledWebappV1,
    ControlledWebSessionV1,
    ControlledWebSessionV2,
}

/// The public name of a profile.
pub open spec fn profile_id(profile: SessionProfile) -> Seq<char> {
    match profile {
        SessionProfile::ControlledWebappV1 => CONTROLLED_WEBAPP_V1_PROFILE@,
        SessionProfile::ControlledWebSessionV1 => CONTROLLED_WEB_SESSION_V1_PROFILE@,
        SessionProfile::ControlledWebSessionV2 => CONTROLLED_WEB_SESSION_V2_PROFILE@,
    }
}

/// Whether a profile offers the session methods.
pub open spec fn session_api(profile: SessionProfile) -> bool {
    profile != SessionProfile::ControlledWebappV1
}

/// Whether a profile was selected that offers the session methods.
pub open spec fn selects_session_api(profile: Option<SessionProfile>) -> bool {
    match profile {
        Some(profile) => session_api(profile),
        None => false,
    }
}

/// Tests whether a profile was selected that offers the session methods.
pub fn supports_session_api(profile: Option<SessionProfile>) -> (r: bool)
    ensures
        r == selects_session_api(profile),
{
    match profile {
        Some(profile) => profile.supports_session_api(),
        None => false,
    }
}

impl SessionProfile {
    pub fn id(self) -> (id: &'static str)
        ensures
            id@ == profile_id(self),
    {
        match self {
            SessionProfile::ControlledWebappV1 => CONTROLLED_WEBAPP_V1_PROFILE,
            SessionProfile::ControlledWebSessionV1 => CONTROLLED_WEB_SESSION_V1_PROFILE,
            SessionProfile::ControlledWebSessionV2 => CONTROLLED_WEB_SESSION_V2_PROFILE,
        }
    }

    pub fn document_control_profile(self) -> (r: DocumentControlProfile)
        ensures
            r == if session_api(self) {
                DocumentControlProfile::TopLevelSession
            } else {
                DocumentControlProfile::SingleDocument
            },
    {
        match self {
            SessionProfile::ControlledWebappV1 => DocumentControlProfile::SingleDocument,
            SessionProfile::ControlledWebSessionV1 | SessionProfile::ControlledWebSessionV2 =>
            DocumentControlProfile::TopLevelSession,
        }
    }

    pub fn document_execution_profile(self) -> (r: DocumentExecutionProfile)
        ensures
            r == if self == SessionProfile::ControlledWebSessionV2 {
                DocumentExecutionProfile::ControlledWebSessionV2
            } else {
                DocumentExecutionProfile::Baseline
            },
    {
        match self {
            SessionProfile::ControlledWebappV1 | SessionProfile::ControlledWebSessionV1 =>
            DocumentExecutionProfile::Baseline,
            SessionProfile::ControlledWebSessionV2 =>
            DocumentExecutionProfile::ControlledWebSessionV2,
        }
    }

    pub fn supports_session_api(self) -> (r: bool)
        ensures
            r == session_api(self),
    {
        match self {
            SessionProfile::ControlledWebappV1 => false,
            SessionProfile::ControlledWebSessionV1 | SessionProfile::ControlledWebSessionV2 => true,
        }
    }
}

/// What a request has done to the session so far.
#[derive(Clone, Copy, Debug, PartialEq, Eq, Structural)]
pub enum RequestStateEffect {
    Nothing,
    Partial,
}

/// How an effect is named to the peer.
pub open spec fn effect_text(effect: RequestStateEffect) -> Seq<char> {
    match effect {
        RequestStateEffect::Nothing => "none"@,
        RequestStateEffect::Partial => "partial"@,
    }
}

impl RequestStateEffect {
    pub fn as_protocol_str(self) -> (text: &'static str)
        ensures
            text@ == effect_text(self),
    {
        match self {
            RequestStateEffect::Nothing => "none",
            RequestStateEffect::Partial => "partial",
        }
    }
}

/// Virtual time stands still in a session profile while network operations are active.
pub fn controlled_network_blocks_virtual_advance(
    profile: Option<SessionProfile>,
    active_operations: usize,
) -> (blocked: bool)
    ensures
        blocked == (selects_session_api(profile) && active_operations != 0),
{
    supports_session_api(profile) && active_operations != 0
}

/// Whether active network operations are charged to the document that a navigation replaces.
pub open spec fn blocks_document_replacement(
    profile: Option<SessionProfile>,
    active_operations: usize,
) -> bool {
    profile == Some(SessionProfile::ControlledWebSessionV2) && active_operations != 0
}

pub fn controlled_network_blocks_document_replacement(
    profile: Option<SessionProfile>,
    active_operations: usize,
) -> (blocked: bool)
    ensures
        blocked == blocks_document_replacement(profile, active_operations),
{
    match profile {
        Some(profile) => profile == SessionProfile::ControlledWebSessionV2 && active_operations
            != 0,
        None => false,
    }
}

/// The earlier of two optional instants.
pub open spec fn earliest(left: Option<u64>, right: Option<u64>) -> Option<u64> {
    match (left, right) {
        (Some(a), Some(b)) => Some(if a <= b { a } else { b }),
        (Some(a), None) => Some(a),
        (None, right) => right,
    }
}

pub fn earliest_deadline(left: Option<u64>, right: Option<u64>) -> (r: Option<u64>)
    ensures
        r == earliest(left, right),
{
    match (left, right) {
        (Some(a), Some(b)) => Some(if a <= b { a } else { b }),
        (Some(a), None) => Some(a),
        (None, right) => right,
    }
}

} // verus!
