//! Authorities that the engine attests: which documents a session holds, and how one replaces
//! another.
//!
//! Pipelines, webviews and event loops are known by the integers that the engine gives them.

use std::sync::Arc;
use vstd::prelude::*;

use crate::text::same_text;

verus! {

/// The document that is active at the top level.
#[derive(Clone, Copy, Debug, PartialEq, Eq, Structural)]
pub struct ActiveTopLevel {
    pub pipeline_id: u64,
    pub document_epoch: u64,
}

/// The shape of the documents of a session at one moment.
#[derive(Debug)]
pub struct PendingTarget {
    pub webview_id: u64,
    pub event_loop_id: u64,
    pub active_top_level: Option<ActiveTopLevel>,
    pub navigation_revision: u64,
    pub pipeline_membership_revision: u64,
    pub unsupported_time_surface: Option<u64>,
    pub pipelines: Vec<u64>,
    pub fully_active_pipelines: Vec<u64>,
    pub pending_top_level_pipelines: Vec<u64>,
}

/// What a `PendingTarget` holds.
pub struct PendingTargetView {
    pub webview_id: u64,
    pub event_loop_id: u64,
    pub active_top_level: Option<ActiveTopLevel>,
    pub navigation_revision: u64,
    pub pipeline_membership_revision: u64,
    pub unsupported_time_surface: Option<u64>,
    pub pipelines: Seq<u64>,
    pub fully_active_pipelines: Seq<u64>,
    pub pending_top_level_pipelines: Seq<u64>,
}

impl View for PendingTarget {
    type V = PendingTargetView;

    open spec fn view(&self) -> PendingTargetView {
        PendingTargetView {
            webview_id: self.webview_id,
            event_loop_id: self.event_loop_id,
            active_top_level: self.active_top_level,
            navigation_revision: self.navigation_revision,
            pipeline_membership_revision: self.pipeline_membership_revision,
            unsupported_time_surface: self.unsupported_time_surface,
            pipelines: self.pipelines@,
            fully_active_pipelines: self.fully_active_pipelines@,
            pending_top_level_pipelines: self.pending_top_level_pipelines@,
        }
    }
}

/// The scheme of a document's URL, as far as the session distinguishes it.
#[derive(Clone, Copy, Debug, PartialEq, Eq, Structural)]
pub enum UrlScheme {
    Http,
    Https,
    Other,
}

/// Whether a scheme is that of the Web.
pub open spec fn web_scheme(scheme: UrlScheme) -> bool {
    scheme == UrlScheme::Http || scheme == UrlScheme::Https
}

/// The counters of a session's navigations.
#[derive(Clone, Copy, Debug, PartialEq, Eq, Structural)]
pub enum SessionNavigationCounter {
    DocumentEpoch,
    NavigationId,
    HistoryRevision,
    SuccessfulDocumentReplacements,
}

/// Why a session can navigate no more.
#[derive(Clone, Copy, Debug, PartialEq, Eq, Structural)]
pub enum SessionNavigationTerminal {
    DocumentTransitionLimitExceeded { limit: u64, observed: u64, next_navigation_id: u64 },
    HistoryLimitExceeded { limit: u64, observed: u64, navigation_id: u64, history_revision: u64 },
    RedirectLimitExceeded { limit: u64, observed: u64, navigation_id: u64 },
    CounterOverflow { counter: SessionNavigationCounter },
}

/// What the engine attests of a session's navigation at one moment.
#[derive(Debug)]
pub struct SessionNavigationAuthority {
    pub target: Arc<PendingTarget>,
    pub document_epoch: u64,
    pub navigation_id: u64,
    pub history_revision: u64,
    pub successful_document_replacements: u64,
    pub url: String,
    pub scheme: UrlScheme,
    pub terminal: Option<SessionNavigationTerminal>,
}

/// What a `SessionNavigationAuthority` attests.
pub struct SessionNavigationAuthorityView {
    pub target: PendingTargetView,
    pub document_epoch: u64,
    pub navigation_id: u64,
    pub history_revision: u64,
    pub successful_document_replacements: u64,
    pub url: Seq<char>,
    pub scheme: UrlScheme,
    pub terminal: Option<SessionNavigationTerminal>,
}

impl View for SessionNavigationAuthority {
    type V = SessionNavigationAuthorityView;

    open spec fn view(&self) -> SessionNavigationAuthorityView {
        SessionNavigationAuthorityView {
            target: self.target@,
            document_epoch: self.document_epoch,
            navigation_id: self.navigation_id,
            history_revision: self.history_revision,
            successful_document_replacements: self.successful_document_replacements,
            url: self.url@,
            scheme: self.scheme,
            terminal: self.terminal,
        }
    }
}

pub(crate) fn is_web_scheme(scheme: UrlScheme) -> (r: bool)
    ensures
        r == web_scheme(scheme),
{
    scheme == UrlScheme::Http || scheme == UrlScheme::Https
}

fn same_ids(left: &Vec<u64>, right: &Vec<u64>) -> (same: bool)
    ensures
        same == (left@ == right@),
{
    if left.len() != right.len() {
        return false;
    }
    let mut i: usize = 0;
    while i < left.len()
        invariant
            left.len() == right.len(),
            i <= left.len(),
            forall|j: int| 0 <= j < i ==> left[j] == right[j],
        decreases left.len() - i,
    {
        if left[i] != right[i] {
            return false;
        }
        i = i + 1;
    }
    assert(left@ =~= right@);
    true
}

fn contains_id(ids: &Vec<u64>, id: u64) -> (found: bool)
    ensures
        found == ids@.contains(id),
{
    let mut i: usize = 0;
    while i < ids.len()
        invariant
            i <= ids.len(),
            forall|j: int| 0 <= j < i ==> ids[j] != id,
        decreases ids.len() - i,
    {
        if ids[i] == id {
            assert(ids@[i as int] == id);
            return true;
        }
        i = i + 1;
    }
    false
}

fn is_only_id(ids: &Vec<u64>, id: u64) -> (r: bool)
    ensures
        r == (ids@ == seq![id]),
{
    if ids.len() == 1 && ids[0] == id {
        assert(ids@ =~= seq![id]);
        true
    } else {
        false
    }
}

fn same_active(left: Option<ActiveTopLevel>, right: Option<ActiveTopLevel>) -> (same: bool)
    ensures
        same == (left == right),
{
    match (left, right) {
        (Some(a), Some(b)) => a == b,
        (None, None) => true,
        _ => false,
    }
}

fn same_number(left: Option<u64>, right: Option<u64>) -> (same: bool)
    ensures
        same == (left == right),
{
    match (left, right) {
        (Some(a), Some(b)) => a == b,
        (None, None) => true,
        _ => false,
    }
}

fn same_terminal(
    left: Option<SessionNavigationTerminal>,
    right: Option<SessionNavigationTerminal>,
) -> (same: bool)
    ensures
        same == (left == right),
{
    match (left, right) {
        (Some(a), Some(b)) => a == b,
        (None, None) => true,
        _ => false,
    }
}

/// Whether two targets describe the same shape.
pub fn same_target(left: &PendingTarget, right: &PendingTarget) -> (same: bool)
    ensures
        same == (left@ == right@),
{
    left.webview_id == right.webview_id && left.event_loop_id == right.event_loop_id && same_active(
        left.active_top_level,
        right.active_top_level,
    ) && left.navigation_revision == right.navigation_revision && left.pipeline_membership_revision
        == right.pipeline_membership_revision && same_number(
        left.unsupported_time_surface,
        right.unsupported_time_surface,
    ) && same_ids(&left.pipelines, &right.pipelines) && same_ids(
        &left.fully_active_pipelines,
        &right.fully_active_pipelines,
    ) && same_ids(&left.pending_top_level_pipelines, &right.pending_top_level_pipelines)
}

/// Whether two authorities attest the same.
pub fn same_authority(
    left: &SessionNavigationAuthority,
    right: &SessionNavigationAuthority,
) -> (same: bool)
    ensures
        same == (left@ == right@),
{
    same_target(&left.target, &right.target) && left.document_epoch == right.document_epoch
        && left.navigation_id == right.navigation_id && left.history_revision
        == right.history_revision && left.successful_document_replacements
        == right.successful_document_replacements && same_text(
        left.url.as_str(),
        right.url.as_str(),
    ) && left.scheme == right.scheme && same_terminal(left.terminal, right.terminal)
}

/// The two pipelines of a replacement: the one that is active, and the one that is pending.
#[derive(Clone, Copy, Debug, PartialEq, Eq, Structural)]
pub struct ReplacementAdmission {
    pub source_pipeline_id: u64,
    pub pipeline_id: u64,
}

/// Whether a target holds one document alone, which is active: `pipeline_id`.
pub open spec fn sole_active_document(target: PendingTargetView, pipeline_id: u64) -> bool {
    &&& target.active_top_level is Some
    &&& target.active_top_level->0.pipeline_id == pipeline_id
    &&& target.pipelines == seq![pipeline_id]
    &&& target.fully_active_pipelines == seq![pipeline_id]
    &&& target.pending_top_level_pipelines == Seq::<u64>::empty()
}

/// Tests whether a target holds one document alone, which is active: `pipeline_id`.
pub fn is_sole_active_document(target: &PendingTarget, pipeline_id: u64) -> (r: bool)
    ensures
        r == sole_active_document(target@, pipeline_id),
{
    let active = match target.active_top_level {
        Some(active) => active.pipeline_id == pipeline_id,
        None => false,
    };
    let sole = active && is_only_id(&target.pipelines, pipeline_id) && is_only_id(
        &target.fully_active_pipelines,
        pipeline_id,
    ) && target.pending_top_level_pipelines.len() == 0;
    proof {
        if target.pending_top_level_pipelines.len() == 0 {
            assert(target.pending_top_level_pipelines@ =~= Seq::<u64>::empty());
        }
    }
    sole
}

/// Whether two targets lie in the same webview and event loop and leave the same time surface out.
pub open spec fn same_host(left: PendingTargetView, right: PendingTargetView) -> bool {
    &&& left.webview_id == right.webview_id
    &&& left.event_loop_id == right.event_loop_id
    &&& left.unsupported_time_surface == right.unsupported_time_surface
}

/// Whether `admitted` differs from `source` by exactly one pending replacement document,
/// `pipeline_id`, of the sole document `source_pipeline_id`, and by exactly one step of the
/// navigation counters.
pub open spec fn admits_replacement(
    source: SessionNavigationAuthorityView,
    admitted: SessionNavigationAuthorityView,
    source_pipeline_id: u64,
    pipeline_id: u64,
) -> bool {
    let before = source.target;
    let after = admitted.target;
    &&& source.terminal is None
    &&& admitted.terminal is None
    &&& web_scheme(admitted.scheme)
    &&& admitted.document_epoch == source.document_epoch
    &&& admitted.successful_document_replacements == source.successful_document_replacements
    &&& admitted.history_revision >= source.history_revision
    &&& admitted.navigation_id == source.navigation_id + 1
    &&& sole_active_document(before, source_pipeline_id)
    &&& same_host(after, before)
    &&& after.active_top_level == before.active_top_level
    &&& after.fully_active_pipelines == seq![source_pipeline_id]
    &&& after.pending_top_level_pipelines == seq![pipeline_id]
    &&& after.pipelines.len() == 2
    &&& after.pipelines.contains(source_pipeline_id)
    &&& after.pipelines.contains(pipeline_id)
    &&& pipeline_id != source_pipeline_id
    &&& after.navigation_revision == before.navigation_revision + 1
    &&& after.pipeline_membership_revision == before.pipeline_membership_revision + 1
}

/// The replacement that `admitted` admits over `source`, if it is exactly one.
pub open spec fn replacement_admission(
    source: SessionNavigationAuthorityView,
    admitted: SessionNavigationAuthorityView,
) -> Option<ReplacementAdmission> {
    let source_pipeline_id = source.target.pipelines[0];
    let pipeline_id = admitted.target.pending_top_level_pipelines[0];
    if source.target.pipelines.len() == 1 && admitted.target.pending_top_level_pipelines.len() == 1
        && admits_replacement(source, admitted, source_pipeline_id, pipeline_id) {
        Some(ReplacementAdmission { source_pipeline_id, pipeline_id })
    } else {
        None
    }
}

/// Recognizes the only pending-document shape that may bridge a turn boundary or start an explicit
/// navigation. Both authorities were captured by the engine; neither is derived from the other.
pub fn exact_replacement_admission(
    source: &SessionNavigationAuthority,
    admitted: &SessionNavigationAuthority,
) -> (admission: Option<ReplacementAdmission>)
    ensures
        admission == replacement_admission(source@, admitted@),
{
    if source.terminal.is_some() || admitted.terminal.is_some() || !is_web_scheme(admitted.scheme)
        || admitted.document_epoch != source.document_epoch
        || admitted.successful_document_replacements != source.successful_document_replacements
        || admitted.history_revision < source.history_revision {
        return None;
    }
    match source.navigation_id.checked_add(1) {
        Some(next) => {
            if admitted.navigation_id != next {
                return None;
            }
        },
        None => {
            return None;
        },
    }
    let before = &source.target;
    let after = &admitted.target;
    let source_active = match before.active_top_level {
        Some(active) => active,
        None => {
            return None;
        },
    };
    if before.pipelines.len() != 1 || before.fully_active_pipelines.len() != 1
        || after.pending_top_level_pipelines.len() != 1 {
        return None;
    }
    let source_pipeline_id: u64 = before.pipelines[0];
    let pipeline_id: u64 = after.pending_top_level_pipelines[0];
    let next_navigation = match before.navigation_revision.checked_add(1) {
        Some(next) => next,
        None => {
            return None;
        },
    };
    let next_membership = match before.pipeline_membership_revision.checked_add(1) {
        Some(next) => next,
        None => {
            return None;
        },
    };
    if source_active.pipeline_id != source_pipeline_id || before.fully_active_pipelines[0]
        != source_pipeline_id || before.pending_top_level_pipelines.len() != 0 || pipeline_id
        == source_pipeline_id || after.webview_id != before.webview_id || after.event_loop_id
        != before.event_loop_id || !same_number(
        after.unsupported_time_surface,
        before.unsupported_time_surface,
    ) || !same_active(after.active_top_level, Some(source_active)) || !is_only_id(
        &after.fully_active_pipelines,
        source_pipeline_id,
    ) || after.pipelines.len() != 2 || !contains_id(&after.pipelines, source_pipeline_id)
        || !contains_id(&after.pipelines, pipeline_id) || next_navigation
        != after.navigation_revision || next_membership != after.pipeline_membership_revision {
        return None;
    }
    assert(before.pipelines@ =~= seq![source_pipeline_id]);
    assert(before.fully_active_pipelines@ =~= seq![source_pipeline_id]);
    assert(before.pending_top_level_pipelines@ =~= Seq::<u64>::empty());
    assert(after.pending_top_level_pipelines@ =~= seq![pipeline_id]);
    Some(ReplacementAdmission { source_pipeline_id, pipeline_id })
}

/// Whether a session still shows the document that it was opened with.
pub open spec fn initial_ready(navigation: SessionNavigationAuthorityView) -> bool {
    &&& navigation.navigation_id == 0
    &&& navigation.document_epoch == 1
    &&& navigation.successful_document_replacements == 0
    &&& navigation.terminal is None
}

pub fn initial_navigation_reached_controlled_ready(navigation: &SessionNavigationAuthority) -> (r:
    bool)
    ensures
        r == initial_ready(navigation@),
{
    navigation.navigation_id == 0 && navigation.document_epoch == 1
        && navigation.successful_document_replacements == 0 && navigation.terminal.is_none()
}

/// Whether a session shows one Web document alone, with no other pending.
pub open spec fn session_ready(navigation: SessionNavigationAuthorityView) -> bool {
    let target = navigation.target;
    &&& navigation.document_epoch >= 1
    &&& navigation.terminal is None
    &&& web_scheme(navigation.scheme)
    &&& target.active_top_level is Some
    &&& target.pipelines.len() == 1
    &&& target.fully_active_pipelines == target.pipelines
    &&& target.pending_top_level_pipelines == Seq::<u64>::empty()
}

pub fn session_navigation_reached_controlled_ready(navigation: &SessionNavigationAuthority) -> (r:
    bool)
    ensures
        r == session_ready(navigation@),
{
    let target = &navigation.target;
    let ready = navigation.document_epoch >= 1 && navigation.terminal.is_none() && is_web_scheme(
        navigation.scheme,
    ) && target.active_top_level.is_some() && target.pipelines.len() == 1 && same_ids(
        &target.fully_active_pipelines,
        &target.pipelines,
    ) && target.pending_top_level_pipelines.len() == 0;
    proof {
        if target.pending_top_level_pipelines.len() == 0 {
            assert(target.pending_top_level_pipelines@ =~= Seq::<u64>::empty());
        }
    }
    ready
}

/// Whether a chain of replacements has led from `source` to a ready document of the same session.
pub open spec fn chain_ready(
    source: SessionNavigationAuthorityView,
    navigation: SessionNavigationAuthorityView,
) -> bool {
    &&& session_ready(navigation)
    &&& navigation.target.webview_id == source.target.webview_id
    &&& navigation.target.event_loop_id == source.target.event_loop_id
    &&& navigation.document_epoch > source.document_epoch
    &&& navigation.successful_document_replacements > source.successful_document_replacements
}

pub fn explicit_navigation_chain_reached_controlled_ready(
    source: &SessionNavigationAuthority,
    navigation: &SessionNavigationAuthority,
) -> (r: bool)
    ensures
        r == chain_ready(source@, navigation@),
{
    session_navigation_reached_controlled_ready(navigation) && navigation.target.webview_id
        == source.target.webview_id && navigation.target.event_loop_id
        == source.target.event_loop_id && navigation.document_epoch > source.document_epoch
        && navigation.successful_document_replacements > source.successful_document_replacements
}

/// Whether the counters of `observed` are those of the session right after the replacement that
/// `admitted` admitted over `source`.
pub open spec fn replacement_committed(
    source: SessionNavigationAuthorityView,
    admitted: SessionNavigationAuthorityView,
    observed: SessionNavigationAuthorityView,
) -> bool {
    &&& observed.navigation_id == admitted.navigation_id
    &&& observed.document_epoch == source.document_epoch + 1
    &&& observed.successful_document_replacements == source.successful_document_replacements + 1
    &&& observed.history_revision >= admitted.history_revision
    &&& web_scheme(observed.scheme)
    &&& observed.terminal is None
}

fn is_replacement_committed(
    source: &SessionNavigationAuthority,
    admitted: &SessionNavigationAuthority,
    observed: &SessionNavigationAuthority,
) -> (r: bool)
    ensures
        r == replacement_committed(source@, admitted@, observed@),
{
    let epoch = match source.document_epoch.checked_add(1) {
        Some(epoch) => epoch,
        None => {
            return false;
        },
    };
    let replacements = match source.successful_document_replacements.checked_add(1) {
        Some(replacements) => replacements,
        None => {
            return false;
        },
    };
    observed.navigation_id == admitted.navigation_id && observed.document_epoch == epoch
        && observed.successful_document_replacements == replacements && observed.history_revision
        >= admitted.history_revision && is_web_scheme(observed.scheme)
        && observed.terminal.is_none()
}

/// Whether `observed` shows the document that `admitted` admitted over `source`, alone and active.
pub open spec fn replacement_ready(
    source: SessionNavigationAuthorityView,
    admitted: SessionNavigationAuthorityView,
    observed: SessionNavigationAuthorityView,
) -> bool {
    match replacement_admission(source, admitted) {
        Some(admission) => {
            &&& replacement_committed(source, admitted, observed)
            &&& same_host(observed.target, admitted.target)
            &&& sole_active_document(observed.target, admission.pipeline_id)
            &&& observed.target.navigation_revision == admitted.target.navigation_revision + 2
            &&& observed.target.pipeline_membership_revision
                == admitted.target.pipeline_membership_revision + 1
        },
        None => false,
    }
}

fn is_two_after(later: u64, earlier: u64) -> (r: bool)
    ensures
        r == (later == earlier + 2),
{
    match earlier.checked_add(2) {
        Some(next) => later == next,
        None => false,
    }
}

fn is_one_after(later: u64, earlier: u64) -> (r: bool)
    ensures
        r == (later == earlier + 1),
{
    match earlier.checked_add(1) {
        Some(next) => later == next,
        None => false,
    }
}

pub fn explicit_navigation_reached_controlled_ready(
    source: &SessionNavigationAuthority,
    admitted: &SessionNavigationAuthority,
    observed: &SessionNavigationAuthority,
) -> (r: bool)
    ensures
        r == replacement_ready(source@, admitted@, observed@),
{
    let admission = match exact_replacement_admission(source, admitted) {
        Some(admission) => admission,
        None => {
            return false;
        },
    };
    let before = &admitted.target;
    let after = &observed.target;
    let active = match after.active_top_level {
        Some(active) => active,
        None => {
            return false;
        },
    };
    let ready = is_replacement_committed(source, admitted, observed) && after.webview_id
        == before.webview_id && after.event_loop_id == before.event_loop_id && same_number(
        after.unsupported_time_surface,
        before.unsupported_time_surface,
    ) && active.pipeline_id == admission.pipeline_id && active.pipeline_id
        != admission.source_pipeline_id && is_only_id(&after.pipelines, admission.pipeline_id)
        && is_only_id(&after.fully_active_pipelines, admission.pipeline_id)
        && after.pending_top_level_pipelines.len() == 0 && is_two_after(
        after.navigation_revision,
        before.navigation_revision,
    ) && is_one_after(after.pipeline_membership_revision, before.pipeline_membership_revision);
    proof {
        if after.pending_top_level_pipelines.len() == 0 {
            assert(after.pending_top_level_pipelines@ =~= Seq::<u64>::empty());
        }
    }
    ready
}

/// Whether `after` shows the admitted document active while the document that it replaces has not
/// left yet.
pub open spec fn target_awaits_source_exit(
    source: SessionNavigationAuthorityView,
    admitted: SessionNavigationAuthorityView,
    after: PendingTargetView,
) -> bool {
    match replacement_admission(source, admitted) {
        Some(admission) => {
            &&& same_host(after, admitted.target)
            &&& after.active_top_level is Some
            &&& after.active_top_level->0.pipeline_id == admission.pipeline_id
            &&& after.pipelines.len() == 2
            &&& after.pipelines.contains(admission.source_pipeline_id)
            &&& after.pipelines.contains(admission.pipeline_id)
            &&& after.fully_active_pipelines == seq![admission.pipeline_id]
            &&& after.pending_top_level_pipelines == Seq::<u64>::empty()
            &&& after.navigation_revision == admitted.target.navigation_revision + 2
            &&& after.pipeline_membership_revision == admitted.target.pipeline_membership_revision
        },
        None => false,
    }
}

/// Recognizes the only activation state before the source document has left the session. It is not
/// ready, and settlement goes on until the source has left.
pub fn explicit_navigation_activation_target_awaiting_source_exit(
    source: &SessionNavigationAuthority,
    admitted: &SessionNavigationAuthority,
    after: &PendingTarget,
) -> (r: bool)
    ensures
        r == target_awaits_source_exit(source@, admitted@, after@),
{
    let admission = match exact_replacement_admission(source, admitted) {
        Some(admission) => admission,
        None => {
            return false;
        },
    };
    let before = &admitted.target;
    let active = match after.active_top_level {
        Some(active) => active,
        None => {
            return false;
        },
    };
    let awaiting = after.webview_id == before.webview_id && after.event_loop_id
        == before.event_loop_id && same_number(
        after.unsupported_time_surface,
        before.unsupported_time_surface,
    ) && active.pipeline_id == admission.pipeline_id && active.pipeline_id
        != admission.source_pipeline_id && after.pipelines.len() == 2 && contains_id(
        &after.pipelines,
        admission.source_pipeline_id,
    ) && contains_id(&after.pipelines, admission.pipeline_id) && is_only_id(
        &after.fully_active_pipelines,
        admission.pipeline_id,
    ) && after.pending_top_level_pipelines.len() == 0 && is_two_after(
        after.navigation_revision,
        before.navigation_revision,
    ) && before.pipeline_membership_revision == after.pipeline_membership_revision;
    proof {
        if after.pending_top_level_pipelines.len() == 0 {
            assert(after.pending_top_level_pipelines@ =~= Seq::<u64>::empty());
        }
    }
    awaiting
}

/// Whether the admitted replacement was committed while its source has not left yet.
pub open spec fn awaits_source_exit(
    source: SessionNavigationAuthorityView,
    admitted: SessionNavigationAuthorityView,
    observed: SessionNavigationAuthorityView,
) -> bool {
    replacement_committed(source, admitted, observed) && target_awaits_source_exit(
        source,
        admitted,
        observed.target,
    )
}

pub fn explicit_navigation_activated_awaiting_source_exit(
    source: &SessionNavigationAuthority,
    admitted: &SessionNavigationAuthority,
    observed: &SessionNavigationAuthority,
) -> (r: bool)
    ensures
        r == awaits_source_exit(source@, admitted@, observed@),
{
    is_replacement_committed(source, admitted, observed)
        && explicit_navigation_activation_target_awaiting_source_exit(
        source,
        admitted,
        &observed.target,
    )
}

/// How far an admitted replacement has come.
#[derive(Clone, Copy, Debug, PartialEq, Eq, Structural)]
pub enum ReplacementActivationObservation {
    Pending,
    ActivatedAwaitingSourceExit,
    ControlledReady,
    Invalid,
}

/// How far the replacement that `admitted` admitted over `source` has come in `observed`.
pub open spec fn replacement_progress(
    source: SessionNavigationAuthorityView,
    admitted: SessionNavigationAuthorityView,
    observed: SessionNavigationAuthorityView,
) -> ReplacementActivationObservation {
    if replacement_ready(source, admitted, observed) {
        ReplacementActivationObservation::ControlledReady
    } else if observed == admitted {
        ReplacementActivationObservation::Pending
    } else if awaits_source_exit(source, admitted, observed) {
        ReplacementActivationObservation::ActivatedAwaitingSourceExit
    } else {
        ReplacementActivationObservation::Invalid
    }
}

pub fn classify_replacement_activation_observation(
    source: &SessionNavigationAuthority,
    admitted: &SessionNavigationAuthority,
    observed: &SessionNavigationAuthority,
) -> (r: ReplacementActivationObservation)
    ensures
        r == replacement_progress(source@, admitted@, observed@),
{
    if explicit_navigation_reached_controlled_ready(source, admitted, observed) {
        ReplacementActivationObservation::ControlledReady
    } else if same_authority(observed, admitted) {
        ReplacementActivationObservation::Pending
    } else if explicit_navigation_activated_awaiting_source_exit(source, admitted, observed) {
        ReplacementActivationObservation::ActivatedAwaitingSourceExit
    } else {
        ReplacementActivationObservation::Invalid
    }
}

/// Whether `observed` lies further along the admitted replacement than `before`.
pub open spec fn held_target_progressed(
    source: SessionNavigationAuthorityView,
    admitted: SessionNavigationAuthorityView,
    before: PendingTargetView,
    observed: SessionNavigationAuthorityView,
) -> bool {
    match replacement_progress(source, admitted, observed) {
        ReplacementActivationObservation::ActivatedAwaitingSourceExit => before == admitted.target,
        ReplacementActivationObservation::ControlledReady => before == admitted.target
            || target_awaits_source_exit(source, admitted, before),
        _ => false,
    }
}

pub fn held_drive_replacement_target_progressed(
    source: &SessionNavigationAuthority,
    admitted: &SessionNavigationAuthority,
    before: &PendingTarget,
    observed: &SessionNavigationAuthority,
) -> (r: bool)
    ensures
        r == held_target_progressed(source@, admitted@, before@, observed@),
{
    match classify_replacement_activation_observation(source, admitted, observed) {
        ReplacementActivationObservation::ActivatedAwaitingSourceExit => same_target(
            before,
            &admitted.target,
        ),
        ReplacementActivationObservation::ControlledReady => same_target(before, &admitted.target)
            || explicit_navigation_activation_target_awaiting_source_exit(source, admitted, before),
        ReplacementActivationObservation::Pending | ReplacementActivationObservation::Invalid =>
        false,
    }
}

} // verus!
