//! How one document takes the place of another: from which document, into which pipeline, and with
//! whose outcome the coordinator is told of it.

use std::sync::Arc;

use vstd::prelude::*;

use crate::active::{
    ActiveOperation, ActiveRequest, Answers, Consultation, NavigatePhase, NavigateState,
    SessionProjectionKind, SessionProjectionPhase, SessionProjectionState, SettleProjectionResume,
    SettleReplacementPhase, SettleState, TransitionView,
};
use crate::authority::{replacement_ready, SessionNavigationAuthority};
use crate::control::{
    DocumentControlCommand, DocumentControlReceiveOutcome, NavigationOperationCompletion,
    NavigationOperationKind, SettleProgress,
};
use crate::control_step::control_step;
use crate::failure_laws::{ends, told};
use crate::navigation_step::{navigation_step, settle_navigation};
use crate::profile::{RequestStateEffect, SessionProfile};
use crate::settle::settle_progress;
use crate::settlement_laws::shows_the_next_document;

verus! {

/// The navigation from which a document would be replaced.
pub open spec fn origin(operation: ActiveOperation) -> Option<Arc<SessionNavigationAuthority>> {
    match operation {
        ActiveOperation::Settle(state) => if state.authority_bound_command is Some {
            state.authorizing_navigation
        } else {
            match state.replacement {
                Some(SettleReplacementPhase::AwaitingAdmission { source, .. }) => Some(source),
                _ => None,
            }
        },
        ActiveOperation::Automation(state) => state.authorizing_navigation,
        ActiveOperation::Navigate(state) => match state.phase {
            NavigatePhase::AwaitingAdmission { source, .. } => Some(source),
            _ => None,
        },
        ActiveOperation::SessionProjection(state) => match state.phase {
            SessionProjectionPhase::AwaitingReplacementAdmission { source, .. } => Some(source),
            SessionProjectionPhase::AwaitingStableNavigation { navigation } => Some(navigation),
            SessionProjectionPhase::AwaitingInitialNavigation => match state.kind {
                SessionProjectionKind::Automation { settle_resume, .. } =>
                settle_resume.authorizing_navigation,
                SessionProjectionKind::Value { settle_resume: Some(resume), .. } =>
                resume.authorizing_navigation,
                SessionProjectionKind::Navigate { settle_resume: Some(resume), .. } =>
                resume.authorizing_navigation,
                SessionProjectionKind::ControlledOpen { settle_resume: Some(resume), .. } =>
                resume.authorizing_navigation,
                _ => None,
            },
            _ => None,
        },
        _ => None,
    }
}

/// Whether a command starts the one pipeline that is pending in a navigation, in place of the one
/// that was in another.
pub open spec fn leads(
    bootstrap: DocumentControlCommand,
    source: Arc<SessionNavigationAuthority>,
    navigation: Arc<SessionNavigationAuthority>,
) -> bool {
    bootstrap matches DocumentControlCommand::BootstrapReplacementPipeline {
        source_pipeline_id,
        pipeline_id,
    } && source.target.pipelines@ == seq![source_pipeline_id]
        && navigation.target.pending_top_level_pipelines@ == seq![pipeline_id]
        && source_pipeline_id != pipeline_id
}

/// The bootstrap that a question is about.
pub open spec fn bootstrap_asked(question: Consultation) -> Option<DocumentControlCommand> {
    match question {
        Consultation::StartReplacementBootstrap { bootstrap, .. } => Some(bootstrap),
        Consultation::ConsumeReplacementBoundary { bootstrap, .. } => Some(bootstrap),
        Consultation::ReplaceUnsubmittedDrive { bootstrap, .. } => Some(bootstrap),
        _ => None,
    }
}

/// Whether a step bootstraps only from the document in which the request was to the one observed.
pub open spec fn bootstraps_truly(
    before: ActiveOperation,
    navigation: Arc<SessionNavigationAuthority>,
    after: ActiveOperation,
    transition: TransitionView,
) -> bool {
    &&& transition matches TransitionView::Consult(question) ==> (bootstrap_asked(question)
        matches Some(bootstrap) ==> {
        &&& origin(before) matches Some(source) && leads(bootstrap, source, navigation)
        &&& question matches Consultation::ReplaceUnsubmittedDrive { target, .. } ==> origin(
            before,
        ) is Some && target == origin(before)->0.target
    })
    &&& after matches ActiveOperation::Settle(state) ==> (state.replacement matches Some(
        SettleReplacementPhase::Bootstrapping { source, admitted, command },
    ) ==> (before matches ActiveOperation::Settle(was) && was.replacement == state.replacement)
        || {
        &&& transition == TransitionView::Submit(command)
        &&& origin(before) == Some(source)
        &&& !(before is Settle) ==> state.authorizing_navigation == Some(source)
        &&& admitted == navigation
        &&& leads(command, source, navigation)
    })
}

proof fn lemma_single_pipelines(
    source: Arc<SessionNavigationAuthority>,
    navigation: Arc<SessionNavigationAuthority>,
)
    ensures
        crate::authority::replacement_admission(source@, navigation@) matches Some(admission)
            ==> leads(crate::settle::bootstrap_command(admission), source, navigation),
{
    if let Some(admission) = crate::authority::replacement_admission(source@, navigation@) {
        assert(source.target.pipelines@ =~= seq![admission.source_pipeline_id]);
        assert(navigation.target.pending_top_level_pipelines@ =~= seq![admission.pipeline_id]);
    }
}

proof fn lemma_progress_keeps_the_replacement(
    state: SettleState,
    started_at: u64,
    progress: SettleProgress,
    effect: RequestStateEffect,
    answers: Answers,
)
    ensures
        ({
            let (after, transition) = settle_progress(
                state,
                started_at,
                progress,
                effect,
                answers,
            );
            &&& after.replacement == state.replacement
            &&& transition matches TransitionView::Consult(question) ==> bootstrap_asked(question)
                is None
        }),
{
}

proof fn lemma_settle_bootstraps_truly(
    state: SettleState,
    started_at: u64,
    effect: RequestStateEffect,
    navigation: Arc<SessionNavigationAuthority>,
    network_active: bool,
    answers: Answers,
)
    ensures
        ({
            let (after, _, transition) = settle_navigation(
                state,
                started_at,
                effect,
                navigation,
                network_active,
                answers,
            );
            bootstraps_truly(
                ActiveOperation::Settle(state),
                navigation,
                ActiveOperation::Settle(after),
                transition,
            )
        }),
{
    if let Some(source) = origin(ActiveOperation::Settle(state)) {
        lemma_single_pipelines(source, navigation);
    }
    if let Some(Ok(progress)) = answers.progress {
        assert forall|next: SettleState| #[trigger]
            settle_progress(next, started_at, progress, effect, answers).0.replacement
                == next.replacement && (settle_progress(
            next,
            started_at,
            progress,
            effect,
            answers,
        ).1 matches TransitionView::Consult(question) ==> bootstrap_asked(question) is None) by {
            lemma_progress_keeps_the_replacement(next, started_at, progress, effect, answers);
        }
    }
}

/// A pipeline is bootstrapped only in place of that of the document in which the request was, and
/// it is the one that is pending in the navigation that was observed.
#[verifier::rlimit(40)]
pub proof fn law_a_replacement_starts_the_pending_pipeline(
    active: ActiveRequest,
    navigation: Arc<SessionNavigationAuthority>,
    completion: NavigationOperationCompletion,
    network_operations: usize,
    answers: Answers,
)
    requires
        completion.outcome matches Some(Ok(seen)) && seen == navigation,
    ensures
        ({
            let (after, transition) = navigation_step(
                active,
                completion,
                network_operations,
                answers,
            );
            bootstraps_truly(active.operation, navigation, after.operation, transition)
        }),
{
    if let Some(source) = origin(active.operation) {
        lemma_single_pipelines(source, navigation);
    }
    if let ActiveOperation::Settle(state) = active.operation {
        lemma_settle_bootstraps_truly(
            state,
            active.started_at,
            active.state_effect,
            navigation,
            network_operations != 0,
            answers,
        );
    }
}

/// What is asked about a settlement's document is about the document state of its token, the
/// document in which its last turn was made, and the navigation that was just observed.
pub proof fn law_a_settlement_asks_about_its_own_document(
    active: ActiveRequest,
    state: SettleState,
    completion: NavigationOperationCompletion,
    network_operations: usize,
    answers: Answers,
)
    requires
        active.operation == ActiveOperation::Settle(state),
    ensures
        ({
            let transition = navigation_step(active, completion, network_operations, answers).1;
            &&& transition matches TransitionView::Consult(
                Consultation::MatchNavigation { authority, navigation },
            ) ==> {
                &&& state.authorizing_document_state == Some(authority)
                &&& completion.outcome matches Some(Ok(seen)) && seen == navigation
            }
            &&& transition matches TransitionView::Consult(Consultation::LatchStale { authority })
                ==> state.authorizing_document_state == Some(authority)
            &&& transition matches TransitionView::Consult(
                Consultation::ClassifySameDocument { source, navigation },
            ) ==> {
                &&& origin(active.operation) == Some(source)
                &&& completion.outcome matches Some(Ok(seen)) && seen == navigation
            }
            &&& transition matches TransitionView::Consult(
                Consultation::ConsumeStableBoundary { outcome, cumulative_wall_time_ns },
            ) ==> {
                &&& state.replacement matches Some(
                    SettleReplacementPhase::AwaitingAdmission { drive_outcome, .. },
                ) && drive_outcome == outcome
                &&& cumulative_wall_time_ns == state.cumulative_external_io_wall_time_ns
                &&& answers.same_document matches Some(Some(_))
            }
            &&& transition matches TransitionView::Consult(
                Consultation::ConsumeReplacementBoundary { outcome, cumulative_wall_time_ns, .. },
            ) ==> {
                &&& state.replacement matches Some(
                    SettleReplacementPhase::AwaitingAdmission { drive_outcome, .. },
                ) && drive_outcome == outcome
                &&& cumulative_wall_time_ns == state.cumulative_external_io_wall_time_ns
                &&& answers.same_document matches Some(None)
            }
        }),
{
    if let Some(Ok(progress)) = answers.progress {
        assert forall|next: SettleState|
            asks_only_for_projections(
                (#[trigger] settle_progress(
                    next,
                    active.started_at,
                    progress,
                    active.state_effect,
                    answers,
                )).1,
            ) by {}
    }
}

/// Whether a transition asks for nothing but a projection.
spec fn asks_only_for_projections(transition: TransitionView) -> bool {
    transition matches TransitionView::Consult(question) ==> question is ProjectSettlement
        || question is ProjectPending
}

/// A token that does not name the observed document is never acted on: before the answer that it
/// does, nothing is submitted for it, and after the answer that it does not, nothing ever is.
pub proof fn law_a_stale_token_stops_the_settlement(
    active: ActiveRequest,
    state: SettleState,
    completion: NavigationOperationCompletion,
    network_operations: usize,
    answers: Answers,
)
    requires
        active.operation == ActiveOperation::Settle(state),
        state.authority_bound_command is None,
        state.replacement is None,
        state.authorizing_document_state is Some,
        answers.matches_navigation != Some(true),
    ensures
        ({
            let transition = navigation_step(active, completion, network_operations, answers).1;
            &&& transition is Consult || transition is Fail || transition is RejectStaleStateToken
            &&& answers.matches_navigation == Some(false) && answers.latched == Some(true)
                && completion.kind == NavigationOperationKind::Observe && (completion.outcome
                matches Some(Ok(navigation)) && navigation.terminal is None) && (
            state.authorizing_navigation is None) == (state.authorizing_observation is None)
                ==> transition is RejectStaleStateToken
        }),
{
}

/// A turn that was held back is submitted as it was held, once the document in which it was asked
/// for is there.
pub proof fn law_a_held_turn_is_submitted_in_its_document(
    active: ActiveRequest,
    state: SettleState,
    completion: NavigationOperationCompletion,
    network_operations: usize,
    answers: Answers,
)
    requires
        active.operation == ActiveOperation::Settle(state),
        state.authority_bound_command is Some,
        !(state.response is ControlledOpen),
    ensures
        ({
            let (after, transition) = navigation_step(
                active,
                completion,
                network_operations,
                answers,
            );
            transition matches TransitionView::Submit(command) ==> {
                &&& completion.outcome matches Some(Ok(navigation)) && {
                    ||| command is Observe && state.replacement is Some
                    ||| command is BootstrapReplacementPipeline && (state.latest_pending_target
                        matches Some(target) && (state.authorizing_navigation matches Some(known)
                        && known.target@ == target@))
                    ||| Some(command) == state.authority_bound_command && (
                    state.latest_pending_target matches Some(target) && target@
                        == navigation.target@)
                }
                &&& command is DriveOneTurn ==> Some(command) == state.authority_bound_command && (
                after.operation matches ActiveOperation::Settle(next)
                    && next.authority_bound_command is None && (completion.outcome
                    matches Some(Ok(navigation)) && next.authorizing_navigation == Some(
                    navigation,
                )))
            }
        }),
{
}

/// Whether the network worked in the document from which an explicit navigation departs.
pub open spec fn departs_from_active_network(operation: ActiveOperation) -> bool {
    operation matches ActiveOperation::Navigate(state) && (state.phase
        matches NavigatePhase::AwaitingAdmission {
        source_external_io_active_at_authorization,
        ..
    } && source_external_io_active_at_authorization)
}

/// An explicit navigation remembers, from the moment it was authorized, whether it leaves a page
/// whose network works, in the profile that lets such a page hold up its replacement.
pub proof fn law_a_departure_remembers_the_network(
    active: ActiveRequest,
    state: NavigateState,
    command: DocumentControlCommand,
    outcome: Arc<DocumentControlReceiveOutcome>,
    network_operations: usize,
    answers: Answers,
)
    requires
        active.operation == ActiveOperation::Navigate(state),
    ensures
        ({
            let (after, transition) = control_step(
                active,
                command,
                outcome,
                network_operations,
                answers,
            );
            transition is SubmitSessionNavigation ==> (departs_from_active_network(after.operation)
                <==> network_operations != 0 && active.profile == Some(
                SessionProfile::ControlledWebSessionV2,
            ))
        }),
{
}

/// A coordinator that is made for a replacement is told that external I/O is active exactly where
/// an explicit navigation left a page whose network worked.
pub proof fn law_a_new_coordinator_is_told_of_the_departure(
    active: ActiveRequest,
    completion: NavigationOperationCompletion,
    network_operations: usize,
    answers: Answers,
)
    ensures
        navigation_step(active, completion, network_operations, answers).1
            matches TransitionView::Consult(
            Consultation::StartReplacementBootstrap { latched_external_io, .. },
        ) ==> (latched_external_io <==> departs_from_active_network(active.operation)),
{
    if let Some(Ok(progress)) = answers.progress {
        assert forall|next: SettleState|
            asks_only_for_projections(
                (#[trigger] settle_progress(
                    next,
                    active.started_at,
                    progress,
                    active.state_effect,
                    answers,
                )).1,
            ) by {}
    }
}

/// An admitted navigation and a rearmed settlement have changed something; no other navigation
/// operation changes what a request is said to have changed.
pub proof fn law_an_admission_counts_as_a_change(
    active: ActiveRequest,
    completion: NavigationOperationCompletion,
    network_operations: usize,
    answers: Answers,
)
    ensures
        ({
            let (after, transition) = navigation_step(
                active,
                completion,
                network_operations,
                answers,
            );
            &&& after.state_effect is Nothing ==> active.state_effect is Nothing
            &&& active.operation matches ActiveOperation::Navigate(state) ==> (
            state.phase is AwaitingAdmission && completion.kind == NavigationOperationKind::Navigate
                && (completion.outcome matches Some(Ok(navigation)) && navigation.terminal is None)
                && !(transition is Consult) ==> after.state_effect is Partial)
            &&& after.state_effect is Partial && active.state_effect is Nothing ==> (active.operation
                is Navigate && completion.kind == NavigationOperationKind::Navigate) || (
            active.operation matches ActiveOperation::Settle(state) && state.authority_bound_command
                is Some && (transition matches TransitionView::Submit(command) && command
                is BootstrapReplacementPipeline))
        }),
{
}

/// A settlement leaves its replacement behind only once the next document is there, and goes on in
/// that document; until then it keeps the same replacement.
pub proof fn law_a_replacement_ends_in_the_next_document(
    active: ActiveRequest,
    state: SettleState,
    source: Arc<SessionNavigationAuthority>,
    admitted: Arc<SessionNavigationAuthority>,
    command: DocumentControlCommand,
    control_outcome: Arc<DocumentControlReceiveOutcome>,
    controlled_network_active: bool,
    navigation: Arc<SessionNavigationAuthority>,
    completion: NavigationOperationCompletion,
    network_operations: usize,
    answers: Answers,
)
    requires
        active.operation == ActiveOperation::Settle(state),
        state.authority_bound_command is None,
        state.replacement == Some(
            SettleReplacementPhase::AwaitingActivation {
                source,
                admitted,
                command,
                control_outcome,
                controlled_network_active,
            },
        ),
        completion.kind == NavigationOperationKind::Observe,
        completion.outcome matches Some(Ok(seen)) && seen == navigation,
        navigation.terminal is None,
    ensures
        ({
            let (after, transition) = navigation_step(
                active,
                completion,
                network_operations,
                answers,
            );
            &&& transition is Consult ==> after == active
            &&& after.operation matches ActiveOperation::Settle(next) && (!(transition is Consult)
                && !(transition is Fail) ==> {
                &&& next.response == state.response
                &&& next.effective_policy == state.effective_policy
                &&& next.cumulative_external_io_wall_time_ns
                    == state.cumulative_external_io_wall_time_ns
                &&& next.replacement is None ==> {
                    &&& shows_the_next_document(source, navigation)
                    &&& next.authorizing_navigation == Some(navigation)
                    &&& next.latest_pending_target == Some(navigation.target)
                }
                &&& next.replacement is Some ==> {
                    &&& next.replacement == Some(
                        SettleReplacementPhase::Activating { source, admitted },
                    )
                    &&& next.authorizing_navigation == state.authorizing_navigation
                    &&& next.latest_pending_target == state.latest_pending_target
                }
            })
        }),
{
    if let Some(Ok(progress)) = answers.progress {
        assert forall|next: SettleState|
            keeps_its_document(
                next,
                (#[trigger] settle_progress(
                    next,
                    active.started_at,
                    progress,
                    active.state_effect,
                    answers,
                )).0,
            ) by {}
    }
}

/// Whether a settlement is still about the same documents, policy and answer.
spec fn keeps_its_document(before: SettleState, after: SettleState) -> bool {
    &&& after.replacement == before.replacement
    &&& after.authorizing_navigation == before.authorizing_navigation
    &&& after.latest_pending_target == before.latest_pending_target
    &&& after.response == before.response
    &&& after.effective_policy == before.effective_policy
    &&& after.cumulative_external_io_wall_time_ns == before.cumulative_external_io_wall_time_ns
}

/// A turn that did not change its document is followed by an observation in it, under the
/// navigation that was observed.
pub proof fn law_a_stable_turn_goes_on_in_its_document(
    active: ActiveRequest,
    state: SettleState,
    navigation: Arc<SessionNavigationAuthority>,
    completion: NavigationOperationCompletion,
    network_operations: usize,
    answers: Answers,
)
    requires
        active.operation == ActiveOperation::Settle(state),
        state.authority_bound_command is None,
        state.replacement matches Some(SettleReplacementPhase::AwaitingAdmission { .. }),
        completion.outcome matches Some(Ok(seen)) && seen == navigation,
        answers.same_document matches Some(Some(_)),
    ensures
        ({
            let (after, transition) = navigation_step(
                active,
                completion,
                network_operations,
                answers,
            );
            transition is Submit ==> {
                &&& transition == TransitionView::Submit(DocumentControlCommand::Observe)
                &&& after.operation == ActiveOperation::Settle(
                    SettleState {
                        replacement: None,
                        authorizing_navigation: Some(navigation),
                        latest_pending_target: Some(navigation.target),
                        ..state
                    },
                )
            }
        }),
{
}

/// A held turn that is submitted leaves a replacement behind only where the next document is there.
pub proof fn law_a_held_turn_keeps_its_replacement(
    active: ActiveRequest,
    state: SettleState,
    navigation: Arc<SessionNavigationAuthority>,
    completion: NavigationOperationCompletion,
    network_operations: usize,
    answers: Answers,
)
    requires
        active.operation == ActiveOperation::Settle(state),
        state.authority_bound_command == Some(DocumentControlCommand::DriveOneTurn),
        completion.outcome matches Some(Ok(seen)) && seen == navigation,
    ensures
        ({
            let (after, transition) = navigation_step(
                active,
                completion,
                network_operations,
                answers,
            );
            transition == TransitionView::Submit(DocumentControlCommand::DriveOneTurn) ==> (
            after.operation matches ActiveOperation::Settle(next) && {
                &&& next.replacement == state.replacement || (next.replacement is None && (
                state.replacement matches Some(SettleReplacementPhase::Activating { source, .. })
                    && shows_the_next_document(source, navigation)))
                &&& state.replacement matches Some(
                    SettleReplacementPhase::Activating { source, admitted },
                ) ==> (next.replacement is Some ==> !replacement_ready(
                    source@,
                    admitted@,
                    navigation@,
                ))
                &&& next.response == state.response
                &&& next.effective_policy == state.effective_policy
                &&& next.cumulative_external_io_wall_time_ns
                    == state.cumulative_external_io_wall_time_ns
            })
        }),
{
}

/// The navigation to which a projection would go back to settle.
pub open spec fn way_back(kind: SessionProjectionKind) -> Option<SettleProjectionResume> {
    match kind {
        SessionProjectionKind::Automation { settle_resume, .. } => Some(settle_resume),
        SessionProjectionKind::Value { settle_resume, .. } => settle_resume,
        SessionProjectionKind::Navigate { settle_resume, .. } => settle_resume,
        SessionProjectionKind::ControlledOpen { settle_resume, .. } => settle_resume,
    }
}

/// A projection that looks again at a document which stayed the same would settle from the
/// navigation that it saw last; so would one that brackets its observation.
pub proof fn law_a_projection_would_settle_from_what_it_saw(
    active: ActiveRequest,
    state: SessionProjectionState,
    navigation: Arc<SessionNavigationAuthority>,
    completion: NavigationOperationCompletion,
    command: DocumentControlCommand,
    outcome: Arc<DocumentControlReceiveOutcome>,
    network_operations: usize,
    answers: Answers,
)
    requires
        active.operation == ActiveOperation::SessionProjection(state),
        completion.outcome matches Some(Ok(seen)) && seen == navigation,
    ensures
        state.phase is AwaitingStableNavigation ==> (navigation_step(
            active,
            completion,
            network_operations,
            answers,
        ).0.operation matches ActiveOperation::SessionProjection(next) ==> (
        next.phase is AwaitingPendingObservation ==> {
            &&& next.phase->AwaitingPendingObservation_navigation == navigation
            &&& answers.same_document matches Some(Some(_))
            &&& way_back(next.kind) matches Some(resume) ==> resume.authorizing_navigation == Some(
                navigation,
            )
            &&& way_back(next.kind) is Some <==> way_back(state.kind) is Some
        })),
        state.phase matches SessionProjectionPhase::AwaitingPendingObservation { navigation: held }
            ==> (control_step(
            active,
            command,
            outcome,
            network_operations,
            answers,
        ).0.operation matches ActiveOperation::SessionProjection(next) ==> (
        next.phase is AwaitingStableNavigation ==> {
            &&& way_back(next.kind) matches Some(resume) ==> resume.authorizing_navigation == Some(
                held,
            )
            &&& way_back(next.kind) is Some <==> way_back(state.kind) is Some
        })),
{
}

/// The result of an action that did not navigate is not followed into another document: where its
/// document changed, or is about to be replaced, the session ends.
pub proof fn law_an_action_that_did_not_navigate_is_not_followed(
    active: ActiveRequest,
    state: SessionProjectionState,
    settle_resume: SettleProjectionResume,
    before: Arc<SessionNavigationAuthority>,
    navigation: Arc<SessionNavigationAuthority>,
    completion: NavigationOperationCompletion,
    command: DocumentControlCommand,
    outcome: Arc<DocumentControlReceiveOutcome>,
    network_operations: usize,
    answers: Answers,
)
    requires
        active.operation == ActiveOperation::SessionProjection(state),
        state.kind == (SessionProjectionKind::Automation {
            settle_resume,
            replacement_rearm: false,
        }),
        completion.kind == NavigationOperationKind::Observe,
        completion.outcome matches Some(Ok(seen)) && seen == navigation,
        navigation.terminal is None,
    ensures
        state.phase == (SessionProjectionPhase::AwaitingStableNavigation { navigation: before })
            && before@ != navigation@ ==> ends(
            navigation_step(active, completion, network_operations, answers).1,
            "document_authority_changed"@,
            told(active.state_effect),
        ),
        state.phase == (SessionProjectionPhase::AwaitingPendingObservation { navigation: before })
            ==> !(control_step(active, command, outcome, network_operations, answers).0.operation
            matches ActiveOperation::SessionProjection(next) && next.phase
            is AwaitingReplacementAdmission),
{
}

} // verus!
