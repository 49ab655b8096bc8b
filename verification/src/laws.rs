//! What holds of the active request and of the shell as a whole.

use std::sync::Arc;
use vstd::prelude::*;

use crate::active::{
    ActiveFailureView, ActiveOperation, ActiveRequest, AdvanceToNextState, Answers, AutomationState,
    Consultation, ControlledOpenState, NavigateState, SessionProjectionKind, SessionProjectionPhase,
    SessionProjectionState, SettleState, TransitionView,
};
use crate::authority::{
    awaits_source_exit, replacement_admission, replacement_progress, replacement_ready,
    sole_active_document, ReplacementActivationObservation, SessionNavigationAuthority,
    SessionNavigationAuthorityView,
};
use crate::control::{
    DocumentControlCommand, DocumentControlReceiveOutcome, DocumentStateAuthorityError,
    NavigationOperationCompletion, NavigationOperationKind, SettleCompletion, SettleProgress,
};
use crate::control_step::{
    advance_control, automation_control, control_step, navigate_control, open_control,
    projection_control, settle_control,
};
use crate::error::{
    details_fault, details_walk, exactly_decodable, items_walk, members_walk, ProtocolErrorView,
    MAX_PROTOCOL_ERROR_DETAILS_BYTES, MAX_PROTOCOL_ERROR_DETAILS_DEPTH,
    MAX_PROTOCOL_ERROR_DETAILS_VALUES,
};
use crate::failure::hardened;
use crate::json::{encoded_json, JsonView};
use crate::navigation_step::{navigate_ready, navigation_step};
use crate::network::hardened_state_error;
use crate::profile::{
    blocks_document_replacement, selects_session_api, RequestStateEffect, SessionProfile,
};
use crate::settle::settle_progress;

verus! {

/// A consultation leaves the active request as it was: control commands.
pub proof fn law_control_consultation_changes_nothing(
    active: ActiveRequest,
    command: DocumentControlCommand,
    outcome: Arc<DocumentControlReceiveOutcome>,
    network_operations: usize,
    answers: Answers,
)
    ensures
        ({
            let (after, transition) = control_step(
                active,
                command,
                outcome,
                network_operations,
                answers,
            );
            transition is Consult ==> after == active
        }),
{
}

/// A consultation leaves the active request as it was: session navigation.
pub proof fn law_navigation_consultation_changes_nothing(
    active: ActiveRequest,
    completion: NavigationOperationCompletion,
    network_operations: usize,
    answers: Answers,
)
    ensures
        ({
            let (after, transition) = navigation_step(
                active,
                completion,
                network_operations,
                answers,
            );
            transition is Consult ==> after == active
        }),
{
}

/// Whether the answer to a question is not known yet.
pub open spec fn unanswered(consultation: Consultation, answers: Answers) -> bool {
    match consultation {
        Consultation::ClassifySameDocument { .. } => answers.same_document is None,
        Consultation::MatchNavigation { .. } => answers.matches_navigation is None,
        Consultation::LatchStale { .. } => answers.latched is None,
        Consultation::AuthorizeDocumentState { .. } => answers.authorized is None,
        Consultation::DocumentStateToken { .. } => answers.token is None,
        Consultation::BindAutomation { .. } => answers.bound is None,
        Consultation::ProjectPending { .. }
        | Consultation::ProjectAdvance { .. }
        | Consultation::ProjectAutomation { .. }
        | Consultation::ProjectSettlement { .. }
        | Consultation::ProjectNavigation { .. } => answers.projected is None,
        _ => answers.progress is None,
    }
}

/// Whether a transition asks only what is unknown, and stops the session only over a fatal error.
pub open spec fn orderly(transition: TransitionView, answers: Answers) -> bool {
    match transition {
        TransitionView::Consult(consultation) => unanswered(consultation, answers),
        TransitionView::Fail(failure) => failure.fail_stop ==> failure.error.fatal,
        _ => true,
    }
}

pub(crate) proof fn lemma_settle_progress_is_orderly(
    state: SettleState,
    started_at: u64,
    progress: SettleProgress,
    effect: RequestStateEffect,
    answers: Answers,
)
    ensures
        orderly(settle_progress(state, started_at, progress, effect, answers).1, answers),
{
}

proof fn lemma_settle_control_is_orderly(
    state: SettleState,
    started_at: u64,
    command: DocumentControlCommand,
    outcome: Arc<DocumentControlReceiveOutcome>,
    effect: RequestStateEffect,
    network_active: bool,
    answers: Answers,
)
    ensures
        orderly(
            settle_control(
                state,
                started_at,
                command,
                outcome,
                effect,
                network_active,
                answers,
            ).1,
            answers,
        ),
{
    if let Some(Ok(progress)) = answers.progress {
        lemma_settle_progress_is_orderly(state, started_at, progress, effect, answers);
    }
}

proof fn lemma_open_control_is_orderly(
    state: ControlledOpenState,
    command: DocumentControlCommand,
    outcome: Arc<DocumentControlReceiveOutcome>,
    effect: RequestStateEffect,
    network_active: bool,
    answers: Answers,
)
    ensures
        orderly(
            open_control(state, command, outcome, effect, network_active, answers).2,
            answers,
        ),
{
}

proof fn lemma_advance_control_is_orderly(
    state: AdvanceToNextState,
    profile: Option<SessionProfile>,
    command: DocumentControlCommand,
    outcome: Arc<DocumentControlReceiveOutcome>,
    effect: RequestStateEffect,
    network_operations: usize,
    answers: Answers,
)
    ensures
        orderly(
            advance_control(
                state,
                profile,
                command,
                *outcome,
                effect,
                network_operations,
                answers,
            ).1,
            answers,
        ),
{
}

proof fn lemma_automation_control_is_orderly(
    state: AutomationState,
    command: DocumentControlCommand,
    outcome: Arc<DocumentControlReceiveOutcome>,
    effect: RequestStateEffect,
    answers: Answers,
)
    ensures
        orderly(automation_control(state, command, *outcome, effect, answers).1, answers),
{
}

proof fn lemma_navigate_control_is_orderly(
    state: NavigateState,
    profile: Option<SessionProfile>,
    command: DocumentControlCommand,
    outcome: Arc<DocumentControlReceiveOutcome>,
    effect: RequestStateEffect,
    network_operations: usize,
    answers: Answers,
)
    ensures
        orderly(
            navigate_control(
                state,
                profile,
                command,
                outcome,
                effect,
                network_operations,
                answers,
            ).1,
            answers,
        ),
{
}

proof fn lemma_projection_control_is_orderly(
    state: SessionProjectionState,
    command: DocumentControlCommand,
    outcome: Arc<DocumentControlReceiveOutcome>,
    effect: RequestStateEffect,
    answers: Answers,
)
    ensures
        orderly(projection_control(state, command, *outcome, effect, answers).2, answers),
{
}

proof fn lemma_control_step_is_orderly(
    active: ActiveRequest,
    command: DocumentControlCommand,
    outcome: Arc<DocumentControlReceiveOutcome>,
    network_operations: usize,
    answers: Answers,
)
    ensures
        orderly(
            control_step(active, command, outcome, network_operations, answers).1,
            answers,
        ),
{
    let effect = active.state_effect;
    let network_active = network_operations != 0;
    match active.operation {
        ActiveOperation::ControlledOpen(state) => lemma_open_control_is_orderly(
            state,
            command,
            outcome,
            effect,
            network_active,
            answers,
        ),
        ActiveOperation::AdvanceToNext(state) => lemma_advance_control_is_orderly(
            state,
            active.profile,
            command,
            outcome,
            effect,
            network_operations,
            answers,
        ),
        ActiveOperation::Automation(state) => lemma_automation_control_is_orderly(
            state,
            command,
            outcome,
            effect,
            answers,
        ),
        ActiveOperation::Settle(state) => lemma_settle_control_is_orderly(
            state,
            active.started_at,
            command,
            outcome,
            effect,
            network_active,
            answers,
        ),
        ActiveOperation::Navigate(state) => lemma_navigate_control_is_orderly(
            state,
            active.profile,
            command,
            outcome,
            effect,
            network_operations,
            answers,
        ),
        ActiveOperation::SessionProjection(state) => lemma_projection_control_is_orderly(
            state,
            command,
            outcome,
            effect,
            answers,
        ),
        _ => {},
    }
}

/// Only a question whose answer is not known is asked, so no completion leads to more questions than
/// there are answers: control commands.
pub proof fn law_control_asks_only_what_is_unknown(
    active: ActiveRequest,
    command: DocumentControlCommand,
    outcome: Arc<DocumentControlReceiveOutcome>,
    network_operations: usize,
    answers: Answers,
)
    ensures
        control_step(
            active,
            command,
            outcome,
            network_operations,
            answers,
        ).1 matches TransitionView::Consult(consultation) ==> unanswered(consultation, answers),
{
    lemma_control_step_is_orderly(active, command, outcome, network_operations, answers);
}

/// Only a question whose answer is not known is asked: session navigation.
pub proof fn law_navigation_asks_only_what_is_unknown(
    active: ActiveRequest,
    completion: NavigationOperationCompletion,
    network_operations: usize,
    answers: Answers,
)
    ensures
        navigation_step(
            active,
            completion,
            network_operations,
            answers,
        ).1 matches TransitionView::Consult(consultation) ==> unanswered(consultation, answers),
{
}

/// Whether two states of the active request are of the same request.
pub open spec fn same_request(before: ActiveRequest, after: ActiveRequest) -> bool {
    &&& after.request == before.request
    &&& after.profile == before.profile
    &&& after.started_at == before.started_at
}

/// A control completion never changes which request is active, its profile or its start.
pub proof fn law_control_step_keeps_the_request(
    active: ActiveRequest,
    command: DocumentControlCommand,
    outcome: Arc<DocumentControlReceiveOutcome>,
    network_operations: usize,
    answers: Answers,
)
    ensures
        same_request(
            active,
            control_step(active, command, outcome, network_operations, answers).0,
        ),
{
}

/// A navigation completion never changes which request is active, its profile or its start.
pub proof fn law_navigation_step_keeps_the_request(
    active: ActiveRequest,
    completion: NavigationOperationCompletion,
    network_operations: usize,
    answers: Answers,
)
    ensures
        same_request(
            active,
            navigation_step(active, completion, network_operations, answers).0,
        ),
{
}

/// A failure that stops the session is fatal to the peer: control commands.
pub proof fn law_control_fail_stop_is_fatal(
    active: ActiveRequest,
    command: DocumentControlCommand,
    outcome: Arc<DocumentControlReceiveOutcome>,
    network_operations: usize,
    answers: Answers,
)
    ensures
        control_step(
            active,
            command,
            outcome,
            network_operations,
            answers,
        ).1 matches TransitionView::Fail(failure) ==> failure.fail_stop ==> failure.error.fatal,
{
    lemma_control_step_is_orderly(active, command, outcome, network_operations, answers);
}

/// A failure that stops the session is fatal to the peer: session navigation.
pub proof fn law_navigation_fail_stop_is_fatal(
    active: ActiveRequest,
    completion: NavigationOperationCompletion,
    network_operations: usize,
    answers: Answers,
)
    ensures
        navigation_step(
            active,
            completion,
            network_operations,
            answers,
        ).1 matches TransitionView::Fail(failure) ==> failure.fail_stop ==> failure.error.fatal,
{
}

/// Virtual time stands still while the controlled network is active: an advance in a session profile
/// never submits its command then.
pub proof fn law_active_network_freezes_the_advance(
    active: ActiveRequest,
    command: DocumentControlCommand,
    outcome: Arc<DocumentControlReceiveOutcome>,
    network_operations: usize,
    answers: Answers,
)
    requires
        active.operation is AdvanceToNext,
        selects_session_api(active.profile),
        network_operations != 0,
    ensures
        !(control_step(active, command, outcome, network_operations, answers).1 is Submit),
{
}

/// A request that holds a token which does not name the observed document state submits nothing: an
/// advance.
pub proof fn law_stale_token_stops_the_advance(
    active: ActiveRequest,
    expected_state_token: String,
    navigation: Option<Arc<SessionNavigationAuthority>>,
    command: DocumentControlCommand,
    outcome: Arc<DocumentControlReceiveOutcome>,
    network_operations: usize,
    answers: Answers,
)
    requires
        active.operation == ActiveOperation::AdvanceToNext(
            AdvanceToNextState::Observing {
                expected_state_token: Some(expected_state_token),
                navigation,
            },
        ),
        answers.authorized == Some(Ok::<bool, DocumentStateAuthorityError>(false)),
    ensures
        control_step(active, command, outcome, network_operations, answers).1 is Fail,
{
}

/// A request that holds a token which does not name the observed document state submits nothing: an
/// explicit navigation.
pub proof fn law_stale_token_stops_the_navigation(
    active: ActiveRequest,
    state: NavigateState,
    command: DocumentControlCommand,
    outcome: Arc<DocumentControlReceiveOutcome>,
    network_operations: usize,
    answers: Answers,
)
    requires
        active.operation == ActiveOperation::Navigate(state),
        state.phase is Authorizing,
        answers.authorized == Some(Ok::<bool, DocumentStateAuthorityError>(false)),
    ensures
        control_step(active, command, outcome, network_operations, answers).1 is Fail,
{
}

/// A settlement that has not crossed to its replacement document is never answered: where the
/// coordinator reports that all is quiet before, the request fails.
pub proof fn law_settlement_is_not_answered_before_its_replacement(
    state: SettleState,
    started_at: u64,
    completion: SettleCompletion,
    effect: RequestStateEffect,
    answers: Answers,
)
    requires
        state.replacement is Some,
    ensures
        settle_progress(
            state,
            started_at,
            SettleProgress::Complete(completion),
            effect,
            answers,
        ).1 is Fail,
{
}

/// Whether a completion is a passive observation that shows exactly the document around which a
/// projection is bracketed.
pub open spec fn confirms_projection(
    state: SessionProjectionState,
    completion: NavigationOperationCompletion,
) -> bool {
    &&& completion.kind == NavigationOperationKind::Observe
    &&& completion.outcome matches Some(Ok(navigation)) && navigation.terminal is None && (
    state.phase matches SessionProjectionPhase::AwaitingStableNavigation { navigation: before }
        && before@ == navigation@)
}

/// A result is published only where the passive observations before and after the document was
/// observed agree, and the session has not ended.
pub proof fn law_only_a_stable_document_is_published(
    active: ActiveRequest,
    state: SessionProjectionState,
    completion: NavigationOperationCompletion,
    network_operations: usize,
    answers: Answers,
)
    requires
        active.operation == ActiveOperation::SessionProjection(state),
    ensures
        navigation_step(active, completion, network_operations, answers).1 is Complete
            ==> confirms_projection(state, completion),
{
}

/// A navigation is answered only once its document has replaced the source, or a later one has.
pub proof fn law_navigation_is_answered_only_when_ready(
    active: ActiveRequest,
    state: SessionProjectionState,
    completion: NavigationOperationCompletion,
    network_operations: usize,
    answers: Answers,
)
    requires
        active.operation == ActiveOperation::SessionProjection(state),
    ensures
        navigation_step(active, completion, network_operations, answers).1 is Complete ==> (
        state.kind matches SessionProjectionKind::Navigate {
            source,
            admitted,
            settle_resume,
            ..
        } ==> navigate_ready(
            source,
            admitted,
            settle_resume is Some,
            completion.outcome->0->Ok_0,
        )),
{
}

/// A replacement that is ready has moved the document epoch and the count of replacements on by one,
/// and holds the admitted document alone, which is another one than the source's.
pub proof fn law_ready_replacement_is_one_step_on(
    source: SessionNavigationAuthorityView,
    admitted: SessionNavigationAuthorityView,
    observed: SessionNavigationAuthorityView,
)
    requires
        replacement_progress(source, admitted, observed)
            == ReplacementActivationObservation::ControlledReady,
    ensures
        observed.document_epoch == source.document_epoch + 1,
        observed.successful_document_replacements == source.successful_document_replacements + 1,
        observed.navigation_id == source.navigation_id + 1,
        observed.terminal is None,
        replacement_admission(source, admitted) matches Some(admission) && {
            &&& admission.pipeline_id != admission.source_pipeline_id
            &&& sole_active_document(source.target, admission.source_pipeline_id)
            &&& sole_active_document(observed.target, admission.pipeline_id)
        },
{
}

/// The three ways in which a replacement goes on exclude each other.
pub proof fn law_replacement_classes_are_distinct(
    source: SessionNavigationAuthorityView,
    admitted: SessionNavigationAuthorityView,
    observed: SessionNavigationAuthorityView,
)
    ensures
        !(replacement_ready(source, admitted, observed) && observed == admitted),
        !(replacement_ready(source, admitted, observed) && awaits_source_exit(
            source,
            admitted,
            observed,
        )),
        replacement_admission(source, admitted) is Some ==> !(observed == admitted
            && awaits_source_exit(source, admitted, observed)),
{
}

/// Hardening an error twice is hardening it once, and only ever makes it graver.
pub proof fn law_hardening_is_idempotent(method: Seq<char>, error: ProtocolErrorView)
    ensures
        ({
            let once = hardened_state_error(method, error);
            &&& hardened_state_error(method, once) == once
            &&& error.fatal ==> once.fatal
            &&& once.code == error.code && once.message == error.message
            &&& once != error ==> once.fatal && once.state_effect == "indeterminate"@
        }),
{
}

/// Once a request has changed the session, a failure of its continuation always stops the session.
pub proof fn law_hardened_continuation_stops_the_session(
    failure: ActiveFailureView,
    effect: RequestStateEffect,
)
    ensures
        ({
            let once = hardened(failure, effect);
            &&& hardened(once, effect) == once
            &&& effect == RequestStateEffect::Partial ==> once.fail_stop
            &&& (failure.fail_stop ==> failure.error.fatal) ==> (once.fail_stop
                ==> once.error.fatal)
            &&& effect == RequestStateEffect::Nothing ==> once == failure
        }),
{
}

/// How many values a value holds, itself included.
pub open spec fn value_count(json: JsonView) -> nat
    decreases json,
{
    match json {
        JsonView::Array(items) => 1 + items_count(items),
        JsonView::Object(members) => 1 + members_count(members),
        _ => 1,
    }
}

pub open spec fn items_count(items: Seq<JsonView>) -> nat
    decreases items,
{
    if items.len() == 0 {
        0
    } else {
        items_count(items.drop_last()) + value_count(items.last())
    }
}

pub open spec fn members_count(members: Seq<(Seq<char>, JsonView)>) -> nat
    decreases members,
{
    if members.len() == 0 {
        0
    } else {
        members_count(members.drop_last()) + value_count(members.last().1)
    }
}

/// Whether no value lies deeper than `room` levels below the top, and every number is exact.
pub open spec fn shallow_and_exact(json: JsonView, room: int) -> bool
    decreases json,
{
    &&& room >= 0
    &&& match json {
        JsonView::Number(number) => exactly_decodable(number),
        JsonView::Array(items) => items_shallow_and_exact(items, room - 1),
        JsonView::Object(members) => members_shallow_and_exact(members, room - 1),
        _ => true,
    }
}

pub open spec fn items_shallow_and_exact(items: Seq<JsonView>, room: int) -> bool
    decreases items,
{
    items.len() == 0 || items_shallow_and_exact(items.drop_last(), room) && shallow_and_exact(
        items.last(),
        room,
    )
}

pub open spec fn members_shallow_and_exact(
    members: Seq<(Seq<char>, JsonView)>,
    room: int,
) -> bool
    decreases members,
{
    members.len() == 0 || members_shallow_and_exact(members.drop_last(), room)
        && shallow_and_exact(members.last().1, room)
}

proof fn lemma_details_walk(json: JsonView, depth: nat, seen: nat)
    ensures
        match details_walk(json, depth, seen) {
            Ok(count) => {
                &&& count == seen + value_count(json)
                &&& count <= MAX_PROTOCOL_ERROR_DETAILS_VALUES
                &&& shallow_and_exact(json, MAX_PROTOCOL_ERROR_DETAILS_DEPTH - depth)
            },
            Err(_) => {
                ||| seen + value_count(json) > MAX_PROTOCOL_ERROR_DETAILS_VALUES
                ||| !shallow_and_exact(json, MAX_PROTOCOL_ERROR_DETAILS_DEPTH - depth)
            },
        },
    decreases json,
{
    if depth <= MAX_PROTOCOL_ERROR_DETAILS_DEPTH && seen + 1 <= MAX_PROTOCOL_ERROR_DETAILS_VALUES {
        match json {
            JsonView::Array(items) => lemma_items_walk(items, depth + 1, seen + 1),
            JsonView::Object(members) => lemma_members_walk(members, depth + 1, seen + 1),
            _ => {},
        }
    }
}

proof fn lemma_items_walk(items: Seq<JsonView>, depth: nat, seen: nat)
    requires
        seen <= MAX_PROTOCOL_ERROR_DETAILS_VALUES,
    ensures
        match items_walk(items, depth, seen) {
            Ok(count) => {
                &&& count == seen + items_count(items)
                &&& count <= MAX_PROTOCOL_ERROR_DETAILS_VALUES
                &&& items_shallow_and_exact(items, MAX_PROTOCOL_ERROR_DETAILS_DEPTH - depth)
            },
            Err(_) => {
                ||| seen + items_count(items) > MAX_PROTOCOL_ERROR_DETAILS_VALUES
                ||| !items_shallow_and_exact(items, MAX_PROTOCOL_ERROR_DETAILS_DEPTH - depth)
            },
        },
    decreases items,
{
    if items.len() > 0 {
        lemma_items_walk(items.drop_last(), depth, seen);
        if let Ok(count) = items_walk(items.drop_last(), depth, seen) {
            lemma_details_walk(items.last(), depth, count);
        }
    }
}

proof fn lemma_members_walk(members: Seq<(Seq<char>, JsonView)>, depth: nat, seen: nat)
    requires
        seen <= MAX_PROTOCOL_ERROR_DETAILS_VALUES,
    ensures
        match members_walk(members, depth, seen) {
            Ok(count) => {
                &&& count == seen + members_count(members)
                &&& count <= MAX_PROTOCOL_ERROR_DETAILS_VALUES
                &&& members_shallow_and_exact(members, MAX_PROTOCOL_ERROR_DETAILS_DEPTH - depth)
            },
            Err(_) => {
                ||| seen + members_count(members) > MAX_PROTOCOL_ERROR_DETAILS_VALUES
                ||| !members_shallow_and_exact(members, MAX_PROTOCOL_ERROR_DETAILS_DEPTH - depth)
            },
        },
    decreases members,
{
    if members.len() > 0 {
        lemma_members_walk(members.drop_last(), depth, seen);
        if let Ok(count) = members_walk(members.drop_last(), depth, seen) {
            lemma_details_walk(members.last().1, depth, count);
        }
    }
}

/// Details are accepted exactly where they are an object that holds no more values than allowed, goes
/// no deeper than allowed, holds only numbers that every peer decodes exactly, and is no longer than
/// allowed.
pub proof fn law_accepted_details_are_bounded(json: JsonView)
    ensures
        details_fault(json) is None <==> {
            &&& json is Object
            &&& value_count(json) <= MAX_PROTOCOL_ERROR_DETAILS_VALUES
            &&& shallow_and_exact(json, MAX_PROTOCOL_ERROR_DETAILS_DEPTH as int)
            &&& encoded_json(json).len() <= MAX_PROTOCOL_ERROR_DETAILS_BYTES
        },
{
    lemma_details_walk(json, 0, 0);
}

/// Where network operations keep a document from being replaced, they keep time from advancing too.
pub proof fn law_blocked_replacement_blocks_the_advance(
    profile: Option<SessionProfile>,
    active_operations: usize,
)
    ensures
        blocks_document_replacement(profile, active_operations) ==> selects_session_api(profile)
            && active_operations != 0,
{
}

} // verus!
