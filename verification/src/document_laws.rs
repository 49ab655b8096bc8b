//! Which documents follow one another in a session, and which of them a request may be answered
//! from.

use std::sync::Arc;

use vstd::prelude::*;

use crate::active::{
    ActiveOperation, ActiveRequest, Answers, SessionProjectionKind, SessionProjectionState,
};
use crate::authority::{
    replacement_admission, replacement_progress, replacement_ready, PendingTargetView,
    ReplacementActivationObservation, ReplacementAdmission, SessionNavigationAuthority,
    SessionNavigationAuthorityView,
};
use crate::control::NavigationOperationCompletion;
use crate::navigation_step::navigation_step;

verus! {

/// Whether a target shows one document and nothing else.
pub open spec fn shows_only(target: PendingTargetView, pipeline_id: u64) -> bool {
    &&& target.active_top_level matches Some(active) && active.pipeline_id == pipeline_id
    &&& target.pipelines == seq![pipeline_id]
    &&& target.fully_active_pipelines == seq![pipeline_id]
    &&& target.pending_top_level_pipelines.len() == 0
}

/// A replacement is admitted exactly where one document was shown alone, the next navigation has
/// begun on the web in the same view, and one pipeline is pending beside the one still shown.
pub proof fn law_a_replacement_is_admitted_one_at_a_time(
    source: SessionNavigationAuthorityView,
    admitted: SessionNavigationAuthorityView,
    source_pipeline_id: u64,
    pipeline_id: u64,
)
    ensures
        replacement_admission(source, admitted) == Some(
            ReplacementAdmission { source_pipeline_id, pipeline_id },
        ) <==> {
            &&& source.terminal is None
            &&& admitted.terminal is None
            &&& admitted.scheme is Http || admitted.scheme is Https
            &&& admitted.navigation_id == source.navigation_id + 1
            &&& admitted.document_epoch == source.document_epoch
            &&& admitted.successful_document_replacements == source.successful_document_replacements
            &&& admitted.history_revision >= source.history_revision
            &&& shows_only(source.target, source_pipeline_id)
            &&& admitted.target.webview_id == source.target.webview_id
            &&& admitted.target.event_loop_id == source.target.event_loop_id
            &&& admitted.target.unsupported_time_surface == source.target.unsupported_time_surface
            &&& admitted.target.active_top_level == source.target.active_top_level
            &&& admitted.target.fully_active_pipelines == seq![source_pipeline_id]
            &&& admitted.target.pending_top_level_pipelines == seq![pipeline_id]
            &&& admitted.target.pipelines.len() == 2
            &&& admitted.target.pipelines.contains(source_pipeline_id)
            &&& admitted.target.pipelines.contains(pipeline_id)
            &&& pipeline_id != source_pipeline_id
            &&& admitted.target.navigation_revision == source.target.navigation_revision + 1
            &&& admitted.target.pipeline_membership_revision
                == source.target.pipeline_membership_revision + 1
        },
{
    if source.target.pending_top_level_pipelines.len() == 0 {
        assert(source.target.pending_top_level_pipelines =~= Seq::<u64>::empty());
    }
}

/// A replacement is finished only where the admitted pipeline is shown alone, in the same view, as
/// the next document of the session; before that it is pending or waits for the last document to
/// leave.
pub proof fn law_a_finished_replacement_is_shown_alone(
    source: SessionNavigationAuthorityView,
    admitted: SessionNavigationAuthorityView,
    observed: SessionNavigationAuthorityView,
)
    ensures
        replacement_ready(source, admitted, observed) ==> {
            &&& replacement_admission(source, admitted) matches Some(admission) && shows_only(
                observed.target,
                admission.pipeline_id,
            )
            &&& observed.document_epoch == source.document_epoch + 1
            &&& observed.successful_document_replacements
                == source.successful_document_replacements + 1
            &&& observed.navigation_id == source.navigation_id + 1
            &&& observed.history_revision >= source.history_revision
            &&& observed.scheme is Http || observed.scheme is Https
            &&& observed.terminal is None
            &&& observed.target.webview_id == source.target.webview_id
            &&& observed.target.event_loop_id == source.target.event_loop_id
            &&& observed.target.navigation_revision == source.target.navigation_revision + 3
            &&& observed.target.pipeline_membership_revision
                == source.target.pipeline_membership_revision + 2
        },
        replacement_progress(source, admitted, observed)
            == ReplacementActivationObservation::ControlledReady <==> replacement_ready(
            source,
            admitted,
            observed,
        ),
        observed == admitted && replacement_admission(source, admitted) is Some
            ==> replacement_progress(source, admitted, observed)
            == ReplacementActivationObservation::Pending,
        replacement_progress(source, admitted, observed)
            == ReplacementActivationObservation::ActivatedAwaitingSourceExit ==> {
            &&& observed != admitted
            &&& observed.document_epoch == source.document_epoch + 1
            &&& observed.navigation_id == admitted.navigation_id
            &&& observed.terminal is None
        },
{
}

/// A navigation is answered from a later document than the one that it left, shown alone on the web
/// in the same view.
pub proof fn law_a_navigation_is_answered_from_a_later_document(
    active: ActiveRequest,
    state: SessionProjectionState,
    navigation: Arc<SessionNavigationAuthority>,
    completion: NavigationOperationCompletion,
    network_operations: usize,
    answers: Answers,
)
    requires
        active.operation == ActiveOperation::SessionProjection(state),
        completion.outcome matches Some(Ok(seen)) && seen == navigation,
        navigation_step(active, completion, network_operations, answers).1 is Complete,
    ensures
        state.kind matches SessionProjectionKind::Navigate { source, .. } ==> {
            &&& navigation.terminal is None
            &&& navigation.scheme is Http || navigation.scheme is Https
            &&& navigation.document_epoch > source.document_epoch
            &&& navigation.successful_document_replacements
                > source.successful_document_replacements
            &&& navigation.target.webview_id == source.target.webview_id
            &&& navigation.target.event_loop_id == source.target.event_loop_id
            &&& navigation.target.active_top_level is Some
            &&& navigation.target.pipelines@.len() == 1
            &&& navigation.target.fully_active_pipelines@ == navigation.target.pipelines@
            &&& navigation.target.pending_top_level_pipelines@.len() == 0
        },
        state.kind matches SessionProjectionKind::ControlledOpen { settle_resume, .. } ==> {
            &&& navigation.terminal is None
            &&& navigation.document_epoch >= 1
            &&& settle_resume is None ==> navigation.navigation_id == 0 && navigation.document_epoch
                == 1 && navigation.successful_document_replacements == 0
            &&& settle_resume is Some ==> {
                &&& navigation.scheme is Http || navigation.scheme is Https
                &&& navigation.target.active_top_level is Some
                &&& navigation.target.pipelines@.len() == 1
                &&& navigation.target.fully_active_pipelines@ == navigation.target.pipelines@
                &&& navigation.target.pending_top_level_pipelines@.len() == 0
            }
        },
{
}

} // verus!
