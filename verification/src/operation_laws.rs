//! What the operations are for: which page a navigation goes to, what an advance reports, under
//! which method a result is published, and what the settlement coordinator is told.

use std::sync::Arc;
use vstd::prelude::*;

use crate::active::{
    ActiveOperation, ActiveRequest, AdvanceToNextState, Answers, Consultation, ControlledOpenState,
    NavigatePhase, NavigateState, PublicAutomationKind, SessionProjectionKind,
    SessionProjectionPhase, SessionProjectionState, SettlePolicy, SettleProjectionResume,
    SettleResponse, SettleState, TransitionView,
};
use crate::authority::SessionNavigationAuthority;
use crate::control::{
    DocumentControlCommand, DocumentControlObservation, DocumentControlOutcome,
    DocumentControlReceiveOutcome, DocumentStateAuthorityError, NavigationOperationCompletion,
    SettleProgress,
};
use crate::control_step::{
    control_step, navigate_control, open_control, projection_control, settle_control,
};
use crate::json::value_json;
use crate::navigation_step::{navigation_step, projection_navigation, settle_navigation};
use crate::profile::{RequestStateEffect, SessionProfile};
use crate::settle::{drift_restart, settle_progress, with_resume_authority};

verus! {

/// The outcome of a command that completed with the given observation, as it should.
pub open spec fn completed_with(observation: Arc<DocumentControlObservation>) ->
    DocumentControlReceiveOutcome {
    DocumentControlReceiveOutcome::CommandOutcome {
        outcome: DocumentControlOutcome::Completed(observation),
        fault: None,
    }
}

/// Whether a session is confined to one document.
pub open spec fn is_webapp(profile: Option<SessionProfile>) -> bool {
    profile == Some(SessionProfile::ControlledWebappV1)
}

/// Whether a session goes from document to document.
pub open spec fn is_session(profile: Option<SessionProfile>) -> bool {
    profile == Some(SessionProfile::ControlledWebSessionV1) || profile == Some(
        SessionProfile::ControlledWebSessionV2,
    )
}

/// The URL that a request asked for, kept through all its phases.
pub open spec fn requested_url(operation: ActiveOperation) -> Option<String> {
    match operation {
        ActiveOperation::ControlledOpen(state) => Some(state.requested_url),
        ActiveOperation::Navigate(state) => Some(state.requested_url),
        ActiveOperation::Settle(state) => response_url(state.response),
        ActiveOperation::SessionProjection(state) => projection_url(state.kind),
        _ => None,
    }
}

/// The URL that the answer of a settlement is about.
pub open spec fn response_url(response: SettleResponse) -> Option<String> {
    match response {
        SettleResponse::ControlledOpen { requested_url, .. } => Some(requested_url),
        SettleResponse::Navigate { requested_url, .. } => Some(requested_url),
        _ => None,
    }
}

/// The URL that a projection is about.
pub open spec fn projection_url(kind: SessionProjectionKind) -> Option<String> {
    match kind {
        SessionProjectionKind::Navigate { requested_url, .. } => Some(requested_url),
        SessionProjectionKind::ControlledOpen { requested_url, .. } => Some(requested_url),
        SessionProjectionKind::Automation { settle_resume, .. } => response_url(
            settle_resume.response,
        ),
        SessionProjectionKind::Value { settle_resume: Some(resume), .. } => response_url(
            resume.response,
        ),
        SessionProjectionKind::Value { .. } => None,
    }
}

/// The method and the result of an action, kept through all its phases.
pub open spec fn action_of(operation: ActiveOperation) -> Option<(PublicAutomationKind, u64)> {
    match operation {
        ActiveOperation::Automation(state) => match state.completed {
            Some(completed) => Some((state.kind, completed.result)),
            None => None,
        },
        ActiveOperation::Settle(state) => response_action(state.response),
        ActiveOperation::SessionProjection(state) => projection_action(state.kind),
        _ => None,
    }
}

pub open spec fn response_action(response: SettleResponse) -> Option<(PublicAutomationKind, u64)> {
    match response {
        SettleResponse::Automation { kind, result } => Some((kind, result)),
        _ => None,
    }
}

pub open spec fn projection_action(kind: SessionProjectionKind) -> Option<
    (PublicAutomationKind, u64),
> {
    match kind {
        SessionProjectionKind::Automation { settle_resume, .. } => response_action(
            settle_resume.response,
        ),
        SessionProjectionKind::Value { settle_resume: Some(resume), .. } => response_action(
            resume.response,
        ),
        SessionProjectionKind::Navigate { settle_resume: Some(resume), .. } => response_action(
            resume.response,
        ),
        SessionProjectionKind::ControlledOpen { settle_resume: Some(resume), .. } =>
        response_action(resume.response),
        _ => None,
    }
}

/// The profile and the deadline of an open, kept through all its phases.
pub open spec fn open_terms(operation: ActiveOperation) -> Option<(SessionProfile, u64)> {
    match operation {
        ActiveOperation::ControlledOpen(state) => Some((state.profile, state.deadline)),
        ActiveOperation::Settle(state) => response_open_terms(state.response),
        ActiveOperation::SessionProjection(state) => projection_open_terms(state.kind),
        _ => None,
    }
}

pub open spec fn response_open_terms(response: SettleResponse) -> Option<(SessionProfile, u64)> {
    match response {
        SettleResponse::ControlledOpen { profile, deadline, .. } => Some((profile, deadline)),
        _ => None,
    }
}

pub open spec fn projection_open_terms(kind: SessionProjectionKind) -> Option<
    (SessionProfile, u64),
> {
    match kind {
        SessionProjectionKind::ControlledOpen { profile, deadline, .. } => Some(
            (profile, deadline),
        ),
        SessionProjectionKind::Automation { settle_resume, .. } => response_open_terms(
            settle_resume.response,
        ),
        SessionProjectionKind::Value { settle_resume: Some(resume), .. } => response_open_terms(
            resume.response,
        ),
        SessionProjectionKind::Navigate { settle_resume: Some(resume), .. } => response_open_terms(
            resume.response,
        ),
        _ => None,
    }
}

/// The profile, the policy and the wall time already waited of a settlement, kept while it goes on
/// and while its result is projected.
pub open spec fn settle_terms(operation: ActiveOperation) -> Option<
    (SessionProfile, SettlePolicy, u64),
> {
    match operation {
        ActiveOperation::Settle(state) => Some(
            (state.profile, state.effective_policy, state.cumulative_external_io_wall_time_ns),
        ),
        ActiveOperation::SessionProjection(state) => projection_settle_terms(state.kind),
        _ => None,
    }
}

pub open spec fn projection_settle_terms(kind: SessionProjectionKind) -> Option<
    (SessionProfile, SettlePolicy, u64),
> {
    match kind {
        SessionProjectionKind::Automation { settle_resume, .. } => resume_terms(
            Some(settle_resume),
        ),
        SessionProjectionKind::Value { settle_resume, .. } => resume_terms(settle_resume),
        SessionProjectionKind::Navigate { settle_resume, .. } => resume_terms(settle_resume),
        SessionProjectionKind::ControlledOpen { settle_resume, .. } => resume_terms(settle_resume),
    }
}

pub open spec fn resume_terms(resume: Option<SettleProjectionResume>) -> Option<
    (SessionProfile, SettlePolicy, u64),
> {
    match resume {
        Some(resume) => Some(
            (resume.profile, resume.effective_policy, resume.cumulative_external_io_wall_time_ns),
        ),
        None => None,
    }
}

/// The documents between which a navigation goes, once it was admitted.
pub open spec fn crossing(operation: ActiveOperation) -> Option<
    (Arc<SessionNavigationAuthority>, Arc<SessionNavigationAuthority>),
> {
    match operation {
        ActiveOperation::Navigate(state) => match state.phase {
            NavigatePhase::Settling { source, admitted } => Some((source, admitted)),
            _ => None,
        },
        ActiveOperation::Settle(state) => response_crossing(state.response),
        ActiveOperation::SessionProjection(state) => projection_crossing(state.kind),
        _ => None,
    }
}

pub open spec fn response_crossing(response: SettleResponse) -> Option<
    (Arc<SessionNavigationAuthority>, Arc<SessionNavigationAuthority>),
> {
    match response {
        SettleResponse::Navigate { source, admitted, .. } => Some((source, admitted)),
        _ => None,
    }
}

pub open spec fn projection_crossing(kind: SessionProjectionKind) -> Option<
    (Arc<SessionNavigationAuthority>, Arc<SessionNavigationAuthority>),
> {
    match kind {
        SessionProjectionKind::Navigate { source, admitted, .. } => Some((source, admitted)),
        SessionProjectionKind::Automation { settle_resume, .. } => response_crossing(
            settle_resume.response,
        ),
        SessionProjectionKind::Value { settle_resume: Some(resume), .. } => response_crossing(
            resume.response,
        ),
        SessionProjectionKind::ControlledOpen { settle_resume: Some(resume), .. } =>
        response_crossing(resume.response),
        _ => None,
    }
}

/// Whether what a projection would go back to is about the same as the projection itself.
pub open spec fn is_consistent(kind: SessionProjectionKind) -> bool {
    match kind {
        SessionProjectionKind::Navigate {
            requested_url,
            source,
            admitted,
            settle_resume: Some(resume),
            ..
        } => resume.response == (SettleResponse::Navigate { requested_url, source, admitted }),
        SessionProjectionKind::ControlledOpen {
            requested_url,
            profile,
            deadline,
            settle_resume: Some(resume),
            ..
        } => {
            &&& response_url(resume.response) == Some(requested_url)
            &&& response_open_terms(resume.response) == Some((profile, deadline))
        },
        _ => true,
    }
}

pub open spec fn consistent(operation: ActiveOperation) -> bool {
    match operation {
        ActiveOperation::SessionProjection(state) => is_consistent(state.kind),
        _ => true,
    }
}

/// Whether a transition speaks of no other URL than that of its request, of no other action, and of
/// no other terms.
pub open spec fn true_to(operation: ActiveOperation, transition: TransitionView) -> bool {
    match transition {
        TransitionView::SubmitSessionNavigation { url, .. } => {
            &&& operation is Navigate
            &&& requested_url(operation) == Some(url)
        },
        TransitionView::ProjectSession(state) => {
            &&& projection_url(state.kind) == requested_url(operation)
            &&& projection_open_terms(state.kind) == open_terms(operation)
            &&& projection_crossing(state.kind) == crossing(operation)
            &&& operation is Settle ==> projection_settle_terms(state.kind) == settle_terms(
                operation,
            )
            &&& is_consistent(state.kind)
            &&& !(operation is Automation) ==> projection_action(state.kind) == action_of(operation)
        },
        TransitionView::Consult(Consultation::ProjectNavigation { requested_url: url, .. }) =>
        requested_url(operation) == Some(url),
        TransitionView::Consult(Consultation::ProjectSettlement { policy, .. }) => settle_terms(
            operation,
        ) matches Some((_, agreed, _)) && agreed == policy,
        TransitionView::Consult(Consultation::StartSettlement { policy }) => settle_terms(
            operation,
        ) matches Some((_, agreed, _)) ==> agreed == policy,
        TransitionView::Consult(Consultation::StartReplacementBootstrap { policy, .. }) =>
        settle_terms(operation) matches Some((_, agreed, _)) ==> agreed == policy,
        TransitionView::Consult(Consultation::ProjectAutomation { kind, result, .. }) =>
        match operation {
            ActiveOperation::Automation(state) => kind == state.kind,
            _ => action_of(operation) == Some((kind, result)),
        },
        _ => true,
    }
}

/// Whether a step keeps what a request is about, and speaks of nothing else.
pub open spec fn step_is_true(
    before: ActiveOperation,
    after: ActiveOperation,
    transition: TransitionView,
) -> bool {
    &&& requested_url(after) == requested_url(before)
    &&& open_terms(after) == open_terms(before)
    &&& crossing(before) is Some ==> crossing(after) == crossing(before)
    &&& settle_terms(before) is Some ==> settle_terms(after) == settle_terms(before)
    &&& consistent(after)
    &&& !(before is Automation && after is Automation) ==> action_of(after) == action_of(before)
    &&& before matches ActiveOperation::Automation(state) ==> (after
        matches ActiveOperation::Automation(next) ==> next.kind == state.kind && next.profile
        == state.profile)
    &&& true_to(before, transition)
}

proof fn lemma_settle_progress_is_true(
    state: SettleState,
    started_at: u64,
    progress: SettleProgress,
    effect: RequestStateEffect,
    answers: Answers,
)
    ensures
        ({
            let (after, transition) = settle_progress(state, started_at, progress, effect, answers);
            &&& after.response == state.response
            &&& step_is_true(
                ActiveOperation::Settle(state),
                ActiveOperation::Settle(after),
                transition,
            )
        }),
{
}

proof fn lemma_settle_control_is_true(
    state: SettleState,
    started_at: u64,
    command: DocumentControlCommand,
    outcome: Arc<DocumentControlReceiveOutcome>,
    effect: RequestStateEffect,
    network_active: bool,
    answers: Answers,
)
    ensures
        ({
            let (after, transition) = settle_control(
                state,
                started_at,
                command,
                outcome,
                effect,
                network_active,
                answers,
            );
            step_is_true(ActiveOperation::Settle(state), ActiveOperation::Settle(after), transition)
        }),
{
    if let Some(Ok(progress)) = answers.progress {
        lemma_settle_progress_is_true(state, started_at, progress, effect, answers);
    }
}

proof fn lemma_drift_is_true(
    state: SessionProjectionState,
    effect: RequestStateEffect,
    answers: Answers,
)
    requires
        is_consistent(state.kind),
    ensures
        match drift_restart(state.kind, effect, answers) {
            Ok((operation, transition)) => step_is_true(
                ActiveOperation::SessionProjection(state),
                operation,
                transition,
            ),
            Err(transition) => true_to(ActiveOperation::SessionProjection(state), transition),
        },
{
}

proof fn lemma_resume_authority_is_true(
    kind: SessionProjectionKind,
    navigation: Arc<SessionNavigationAuthority>,
)
    requires
        is_consistent(kind),
    ensures
        ({
            let after = with_resume_authority(kind, navigation);
            &&& is_consistent(after)
            &&& projection_url(after) == projection_url(kind)
            &&& projection_open_terms(after) == projection_open_terms(kind)
            &&& projection_crossing(after) == projection_crossing(kind)
            &&& projection_settle_terms(after) == projection_settle_terms(kind)
            &&& projection_action(after) == projection_action(kind)
        }),
{
}

proof fn lemma_projection_control_is_true(
    state: SessionProjectionState,
    command: DocumentControlCommand,
    outcome: Arc<DocumentControlReceiveOutcome>,
    effect: RequestStateEffect,
    answers: Answers,
)
    requires
        is_consistent(state.kind),
    ensures
        ({
            let (after, operation, transition) = projection_control(
                state,
                command,
                *outcome,
                effect,
                answers,
            );
            step_is_true(
                ActiveOperation::SessionProjection(state),
                match operation {
                    Some(operation) => operation,
                    None => ActiveOperation::SessionProjection(after),
                },
                transition,
            )
        }),
{
    lemma_drift_is_true(state, effect, answers);
    if let SessionProjectionPhase::AwaitingPendingObservation { navigation } = state.phase {
        lemma_resume_authority_is_true(state.kind, navigation);
    }
}

proof fn lemma_open_control_is_true(
    state: ControlledOpenState,
    command: DocumentControlCommand,
    outcome: Arc<DocumentControlReceiveOutcome>,
    effect: RequestStateEffect,
    network_active: bool,
    answers: Answers,
)
    ensures
        ({
            let (after, operation, transition) = open_control(
                state,
                command,
                outcome,
                effect,
                network_active,
                answers,
            );
            step_is_true(
                ActiveOperation::ControlledOpen(state),
                match operation {
                    Some(operation) => operation,
                    None => ActiveOperation::ControlledOpen(after),
                },
                transition,
            )
        }),
{
}

proof fn lemma_navigate_control_is_true(
    state: NavigateState,
    profile: Option<SessionProfile>,
    command: DocumentControlCommand,
    outcome: Arc<DocumentControlReceiveOutcome>,
    effect: RequestStateEffect,
    network_operations: usize,
    answers: Answers,
)
    ensures
        ({
            let (after, transition) = navigate_control(
                state,
                profile,
                command,
                outcome,
                effect,
                network_operations,
                answers,
            );
            step_is_true(
                ActiveOperation::Navigate(state),
                ActiveOperation::Navigate(after),
                transition,
            )
        }),
{
}

/// Through every control completion a request keeps the URL that it asked for, an open its profile
/// and deadline, a settlement its terms, a navigation the documents between which it goes, and an
/// action its method and result; what it submits, projects and asks about is these.
pub proof fn law_control_step_is_true_to_the_request(
    active: ActiveRequest,
    command: DocumentControlCommand,
    outcome: Arc<DocumentControlReceiveOutcome>,
    network_operations: usize,
    answers: Answers,
)
    requires
        consistent(active.operation),
    ensures
        ({
            let (after, transition) = control_step(
                active,
                command,
                outcome,
                network_operations,
                answers,
            );
            step_is_true(active.operation, after.operation, transition)
        }),
{
    match active.operation {
        ActiveOperation::Settle(state) => lemma_settle_control_is_true(
            state,
            active.started_at,
            command,
            outcome,
            active.state_effect,
            network_operations != 0,
            answers,
        ),
        ActiveOperation::SessionProjection(state) => lemma_projection_control_is_true(
            state,
            command,
            outcome,
            active.state_effect,
            answers,
        ),
        ActiveOperation::ControlledOpen(state) => lemma_open_control_is_true(
            state,
            command,
            outcome,
            active.state_effect,
            network_operations != 0,
            answers,
        ),
        ActiveOperation::Navigate(state) => lemma_navigate_control_is_true(
            state,
            active.profile,
            command,
            outcome,
            active.state_effect,
            network_operations,
            answers,
        ),
        _ => {},
    }
}

proof fn lemma_settle_navigation_is_true(
    state: SettleState,
    started_at: u64,
    effect: RequestStateEffect,
    navigation: Arc<SessionNavigationAuthority>,
    network_active: bool,
    answers: Answers,
)
    ensures
        ({
            let (after, _, transition) = settle_navigation(
                state,
                started_at,
                effect,
                navigation,
                network_active,
                answers,
            );
            step_is_true(ActiveOperation::Settle(state), ActiveOperation::Settle(after), transition)
        }),
{
    if let Some(Ok(progress)) = answers.progress {
        assert forall|next: SettleState|
            next.response == state.response && settle_terms(ActiveOperation::Settle(next))
                == settle_terms(ActiveOperation::Settle(state)) implies #[trigger] true_to(
            ActiveOperation::Settle(state),
            settle_progress(next, started_at, progress, effect, answers).1,
        ) && settle_progress(next, started_at, progress, effect, answers).0.response
            == state.response && settle_terms(
            ActiveOperation::Settle(
                settle_progress(next, started_at, progress, effect, answers).0,
            ),
        ) == settle_terms(ActiveOperation::Settle(state)) by {
            lemma_settle_progress_is_true(next, started_at, progress, effect, answers);
        }
    }
}

proof fn lemma_projection_navigation_is_true(
    state: SessionProjectionState,
    effect: RequestStateEffect,
    navigation: Arc<SessionNavigationAuthority>,
    answers: Answers,
)
    requires
        is_consistent(state.kind),
    ensures
        ({
            let (after, operation, transition) = projection_navigation(
                state,
                effect,
                navigation,
                answers,
            );
            step_is_true(
                ActiveOperation::SessionProjection(state),
                match operation {
                    Some(operation) => operation,
                    None => ActiveOperation::SessionProjection(after),
                },
                transition,
            )
        }),
{
    lemma_drift_is_true(state, effect, answers);
    lemma_resume_authority_is_true(state.kind, navigation);
}

/// Through every navigation completion a request keeps the same, and what it projects and asks
/// about is these.
pub proof fn law_navigation_step_is_true_to_the_request(
    active: ActiveRequest,
    completion: NavigationOperationCompletion,
    network_operations: usize,
    answers: Answers,
)
    requires
        consistent(active.operation),
    ensures
        ({
            let (after, transition) = navigation_step(
                active,
                completion,
                network_operations,
                answers,
            );
            &&& step_is_true(active.operation, after.operation, transition)
            &&& !(transition is SubmitSessionNavigation)
        }),
{
    if let Some(Ok(navigation)) = completion.outcome {
        match active.operation {
            ActiveOperation::Settle(state) => lemma_settle_navigation_is_true(
                state,
                active.started_at,
                active.state_effect,
                navigation,
                network_operations != 0,
                answers,
            ),
            ActiveOperation::SessionProjection(state) => lemma_projection_navigation_is_true(
                state,
                active.state_effect,
                navigation,
                answers,
            ),
            _ => {},
        }
    }
}

/// Once its token is found to name the observed document, a navigation is submitted from the
/// document that was attested, to the URL that the request asked for; nothing else ever submits
/// one.
pub proof fn law_an_authorized_navigation_goes_where_it_was_asked_to(
    active: ActiveRequest,
    state: NavigateState,
    token: String,
    attested: Arc<SessionNavigationAuthority>,
    command: DocumentControlCommand,
    observation: Arc<DocumentControlObservation>,
    network_operations: usize,
    answers: Answers,
)
    requires
        active.operation == ActiveOperation::Navigate(state),
        state.phase == (NavigatePhase::Authorizing {
            expected_state_token: token,
            navigation: attested,
        }),
    ensures
        ({
            let (after, transition) = control_step(
                active,
                command,
                Arc::new(completed_with(observation)),
                network_operations,
                answers,
            );
            &&& answers.authorized is None ==> transition == TransitionView::Consult(
                Consultation::AuthorizeDocumentState {
                    pending: observation.pending,
                    navigation: attested,
                    token,
                },
            )
            &&& answers.authorized == Some(Ok::<bool, DocumentStateAuthorityError>(true)) ==> {
                &&& transition == (TransitionView::SubmitSessionNavigation {
                    expected: attested,
                    url: state.requested_url,
                })
                &&& after.operation matches ActiveOperation::Navigate(next)
                    && next.requested_url == state.requested_url && (next.phase
                    matches NavigatePhase::AwaitingAdmission { source, .. } && source == attested)
            }
            &&& answers.authorized == Some(Ok::<bool, DocumentStateAuthorityError>(false))
                ==> transition is Fail && transition->Fail_0.error.code == "stale_state_token"@
                && !transition->Fail_0.fail_stop
        }),
{
}

/// Only a navigation whose token was found to be current is submitted.
pub proof fn law_only_an_authorized_navigation_is_submitted(
    active: ActiveRequest,
    command: DocumentControlCommand,
    outcome: Arc<DocumentControlReceiveOutcome>,
    network_operations: usize,
    answers: Answers,
)
    ensures
        control_step(active, command, outcome, network_operations, answers).1
            is SubmitSessionNavigation ==> {
            &&& answers.authorized == Some(Ok::<bool, DocumentStateAuthorityError>(true))
            &&& active.operation matches ActiveOperation::Navigate(state) && state.phase is Authorizing
        },
{
    if let ActiveOperation::Settle(state) = active.operation {
        lemma_settle_control_is_true(
            state,
            active.started_at,
            command,
            outcome,
            active.state_effect,
            network_operations != 0,
            answers,
        );
    }
}

/// An advance is submitted only with the permit of a fresh observation that shows a next deadline,
/// and from then on the request remembers the virtual time of that observation.
pub proof fn law_an_advance_starts_from_the_observed_time(
    active: ActiveRequest,
    state: AdvanceToNextState,
    command: DocumentControlCommand,
    observation: Arc<DocumentControlObservation>,
    network_operations: usize,
    answers: Answers,
)
    requires
        active.operation == ActiveOperation::AdvanceToNext(state),
        state is Observing,
    ensures
        ({
            let (after, transition) = control_step(
                active,
                command,
                Arc::new(completed_with(observation)),
                network_operations,
                answers,
            );
            &&& transition matches TransitionView::Submit(submitted) ==> {
                &&& observation.pending.has_next_deadline
                &&& observation.advance_token is Some
                &&& submitted == DocumentControlCommand::AdvanceTo(observation.advance_token->0)
                &&& after.operation == ActiveOperation::AdvanceToNext(
                    AdvanceToNextState::Advancing {
                        from_virtual_time_ns: observation.pending.now_ns,
                    },
                )
            }
            &&& transition matches TransitionView::Consult(question) ==> question
                is AuthorizeDocumentState || {
                &&& question == (Consultation::ProjectAdvance {
                    from_virtual_time_ns: None,
                    pending: observation.pending,
                })
                &&& !observation.pending.has_next_deadline
            }
            &&& is_webapp(active.profile) && state->expected_state_token is None
                && observation.pending.has_next_deadline && observation.advance_token is Some
                ==> transition is Submit
        }),
{
}

/// A token in the parameters of an advance is checked against the observed document before anything
/// is submitted.
pub proof fn law_an_advance_checks_its_token_first(
    active: ActiveRequest,
    token: String,
    attested: Arc<SessionNavigationAuthority>,
    command: DocumentControlCommand,
    observation: Arc<DocumentControlObservation>,
    network_operations: usize,
    answers: Answers,
)
    requires
        active.operation == ActiveOperation::AdvanceToNext(
            AdvanceToNextState::Observing {
                expected_state_token: Some(token),
                navigation: Some(attested),
            },
        ),
        answers.authorized != Some(Ok::<bool, DocumentStateAuthorityError>(true)),
    ensures
        ({
            let transition = control_step(
                active,
                command,
                Arc::new(completed_with(observation)),
                network_operations,
                answers,
            ).1;
            match answers.authorized {
                None => transition == TransitionView::Consult(
                    Consultation::AuthorizeDocumentState {
                        pending: observation.pending,
                        navigation: attested,
                        token,
                    },
                ),
                Some(Ok(_)) => transition is Fail && transition->Fail_0.error.code
                    == "stale_state_token"@,
                Some(Err(_)) => transition is Fail,
            }
        }),
{
}

/// A completed advance is reported as one from the virtual time at which it was submitted, over the
/// document as it is now.
pub proof fn law_a_completed_advance_is_reported_from_its_start(
    active: ActiveRequest,
    from_virtual_time_ns: u128,
    command: DocumentControlCommand,
    observation: Arc<DocumentControlObservation>,
    network_operations: usize,
    answers: Answers,
)
    requires
        active.operation == ActiveOperation::AdvanceToNext(
            AdvanceToNextState::Advancing { from_virtual_time_ns },
        ),
    ensures
        ({
            let (after, transition) = control_step(
                active,
                command,
                Arc::new(completed_with(observation)),
                network_operations,
                answers,
            );
            &&& after == active
            &&& answers.projected is None ==> transition == TransitionView::Consult(
                Consultation::ProjectAdvance {
                    from_virtual_time_ns: Some(from_virtual_time_ns),
                    pending: observation.pending,
                },
            )
            &&& answers.projected matches Some(Ok(value)) ==> (is_webapp(active.profile)
                ==> transition == TransitionView::Complete(value_json(*value)))
            &&& answers.projected matches Some(Ok(value)) ==> (is_session(active.profile) ==> {
                &&& transition is ProjectSession
                &&& transition->ProjectSession_0.pending == observation.pending
                &&& transition->ProjectSession_0.kind == (SessionProjectionKind::Value {
                    value,
                    snapshot_token: true,
                    settle_resume: None,
                })
            })
        }),
{
}

/// What is asked to be projected as an advance comes from a request to advance: with a start where
/// the advance was submitted, and without one where there was nothing to advance to.
pub proof fn law_an_advance_without_a_start_found_no_deadline(
    active: ActiveRequest,
    command: DocumentControlCommand,
    outcome: Arc<DocumentControlReceiveOutcome>,
    network_operations: usize,
    answers: Answers,
)
    ensures
        control_step(active, command, outcome, network_operations, answers).1
            matches TransitionView::Consult(
            Consultation::ProjectAdvance { from_virtual_time_ns, pending },
        ) ==> {
            &&& active.operation is AdvanceToNext
            &&& *outcome matches DocumentControlReceiveOutcome::CommandOutcome {
                outcome: DocumentControlOutcome::Completed(observation),
                fault: None,
            } && observation.pending == pending
            &&& match active.operation->AdvanceToNext_0 {
                AdvanceToNextState::Advancing { from_virtual_time_ns: start } =>
                from_virtual_time_ns == Some(start),
                AdvanceToNextState::Observing { .. } => from_virtual_time_ns is None
                    && !pending.has_next_deadline,
            }
        },
{
    if let ActiveOperation::Settle(state) = active.operation {
        if let Some(Ok(progress)) = answers.progress {
            lemma_settle_progress_asks_no_advance(
                state,
                active.started_at,
                progress,
                active.state_effect,
                answers,
            );
        }
    }
}

proof fn lemma_settle_progress_asks_no_advance(
    state: SettleState,
    started_at: u64,
    progress: SettleProgress,
    effect: RequestStateEffect,
    answers: Answers,
)
    ensures
        !(settle_progress(state, started_at, progress, effect, answers).1
            matches TransitionView::Consult(Consultation::ProjectAdvance { .. })),
{
}

} // verus!
