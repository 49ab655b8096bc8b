//! What the answers to a client hold: which member carries which URL, token and value.

use std::sync::Arc;
use vstd::prelude::*;

use serde_json::Value;

use crate::active::{
    ActiveOperation, ActiveRequest, Answers, ControlledOpenState, SessionProjectionState,
    TransitionView,
};
use crate::control::{
    DocumentControlCommand, DocumentControlReceiveOutcome, NavigationOperationCompletion,
};
use crate::control_step::{control_step, open_result};
use crate::json::{
    distinct_names, lemma_object_member, member_of, object_json, value_json, JsonView,
};
use crate::navigation_step::{navigation_step, session_open_result};
use crate::opening::{current_url, engine_built, open_observed, opens, real_open_result};
use crate::opening::{OpenPlan, OpenedEngine, OpenedStepView, Opening};
use crate::params::{OpenParams, UrlView};
use crate::profile::SessionProfile;
use crate::request::Request;
use crate::shell::{Shell, ShellState, ShellStepView};
use crate::shell_poll::noted;

verus! {

/// What a shared value says.
pub open spec fn json_of(value: Arc<Value>) -> JsonView {
    value_json(*value)
}

/// The name by which clients know a profile.
pub open spec fn public_name(profile: SessionProfile) -> Seq<char> {
    match profile {
        SessionProfile::ControlledWebappV1 => "controlled-webapp-v1"@,
        SessionProfile::ControlledWebSessionV1 => "controlled-web-session-v1"@,
        SessionProfile::ControlledWebSessionV2 => "controlled-web-session-v2"@,
    }
}

/// Whether an answer to an open names the URL that was asked for, the URL at which the document is,
/// the boundary that was reached, and the clock.
pub open spec fn tells_of_open(
    json: JsonView,
    requested_url: Seq<char>,
    url: Seq<char>,
    boundary: Seq<char>,
    clock: Seq<char>,
) -> bool {
    &&& member_of(json, "sessionId"@) == Some(JsonView::Text("s-1"@))
    &&& member_of(json, "requestedUrl"@) == Some(JsonView::Text(requested_url))
    &&& member_of(json, "url"@) == Some(JsonView::Text(url))
    &&& member_of(json, "boundary"@) == Some(JsonView::Text(boundary))
    &&& member_of(json, "clockMode"@) == Some(JsonView::Text(clock))
}

proof fn lemma_open_names_differ()
    ensures
        "sessionId"@ != "requestedUrl"@,
        "sessionId"@ != "url"@,
        "sessionId"@ != "boundary"@,
        "sessionId"@ != "clockMode"@,
        "sessionId"@ != "profile"@,
        "sessionId"@ != "stateToken"@,
        "sessionId"@ != "sessionStateToken"@,
        "requestedUrl"@ != "url"@,
        "requestedUrl"@ != "boundary"@,
        "requestedUrl"@ != "clockMode"@,
        "requestedUrl"@ != "profile"@,
        "requestedUrl"@ != "stateToken"@,
        "requestedUrl"@ != "sessionStateToken"@,
        "url"@ != "boundary"@,
        "url"@ != "clockMode"@,
        "url"@ != "profile"@,
        "url"@ != "stateToken"@,
        "url"@ != "sessionStateToken"@,
        "boundary"@ != "clockMode"@,
        "boundary"@ != "profile"@,
        "boundary"@ != "stateToken"@,
        "boundary"@ != "sessionStateToken"@,
        "clockMode"@ != "profile"@,
        "clockMode"@ != "stateToken"@,
        "clockMode"@ != "sessionStateToken"@,
        "profile"@ != "stateToken"@,
        "profile"@ != "sessionStateToken"@,
        "stateToken"@ != "sessionStateToken"@,
{
    reveal_strlit("sessionId");
    reveal_strlit("requestedUrl");
    reveal_strlit("url");
    reveal_strlit("boundary");
    reveal_strlit("clockMode");
    reveal_strlit("profile");
    reveal_strlit("stateToken");
    reveal_strlit("sessionStateToken");
    assert("sessionId"@[0] == 's');
    assert("clockMode"@[0] == 'c');
    assert("sessionId"@.len() == 9);
    assert("requestedUrl"@.len() == 12);
    assert("url"@.len() == 3);
    assert("boundary"@.len() == 8);
    assert("clockMode"@.len() == 9);
    assert("profile"@.len() == 7);
    assert("stateToken"@.len() == 10);
    assert("sessionStateToken"@.len() == 17);
}

proof fn lemma_open_result_members(
    requested_url: Seq<char>,
    url: Seq<char>,
    profile: SessionProfile,
)
    ensures
        tells_of_open(
            open_result(requested_url, url, profile),
            requested_url,
            url,
            "controlled_ready"@,
            "controlled"@,
        ),
        member_of(open_result(requested_url, url, profile), "profile"@) == Some(
            JsonView::Text(public_name(profile)),
        ),
{
    lemma_open_names_differ();
    let members = seq![
        ("sessionId"@, JsonView::Text("s-1"@)),
        ("requestedUrl"@, JsonView::Text(requested_url)),
        ("url"@, JsonView::Text(url)),
        ("boundary"@, JsonView::Text("controlled_ready"@)),
        ("clockMode"@, JsonView::Text("controlled"@)),
        ("profile"@, JsonView::Text(public_name(profile))),
    ];
    assert(open_result(requested_url, url, profile) == object_json(members));
    assert(distinct_names(members));
    lemma_object_member(members, 0);
    lemma_object_member(members, 1);
    lemma_object_member(members, 2);
    lemma_object_member(members, 3);
    lemma_object_member(members, 4);
    lemma_object_member(members, 5);
}

proof fn lemma_session_open_result_members(
    requested_url: Seq<char>,
    url: Seq<char>,
    profile: SessionProfile,
    token: JsonView,
    session_state_token: JsonView,
)
    ensures
        ({
            let json = session_open_result(requested_url, url, profile, token, session_state_token);
            &&& tells_of_open(json, requested_url, url, "controlled_ready"@, "controlled"@)
            &&& member_of(json, "profile"@) == Some(JsonView::Text(public_name(profile)))
            &&& member_of(json, "stateToken"@) == Some(token)
            &&& member_of(json, "sessionStateToken"@) == Some(session_state_token)
        }),
{
    lemma_open_names_differ();
    let members = seq![
        ("sessionId"@, JsonView::Text("s-1"@)),
        ("requestedUrl"@, JsonView::Text(requested_url)),
        ("url"@, JsonView::Text(url)),
        ("boundary"@, JsonView::Text("controlled_ready"@)),
        ("clockMode"@, JsonView::Text("controlled"@)),
        ("profile"@, JsonView::Text(public_name(profile))),
        ("stateToken"@, token),
        ("sessionStateToken"@, session_state_token),
    ];
    assert(session_open_result(requested_url, url, profile, token, session_state_token)
        == object_json(members));
    assert(distinct_names(members));
    lemma_object_member(members, 0);
    lemma_object_member(members, 1);
    lemma_object_member(members, 2);
    lemma_object_member(members, 3);
    lemma_object_member(members, 4);
    lemma_object_member(members, 5);
    lemma_object_member(members, 6);
    lemma_object_member(members, 7);
}

proof fn lemma_real_open_result_members(
    requested_url: Seq<char>,
    url: Seq<char>,
    boundary: Seq<char>,
)
    ensures
        ({
            let json = real_open_result(requested_url, url, boundary);
            &&& tells_of_open(json, requested_url, url, boundary, "real"@)
            &&& member_of(json, "profile"@) == Some(JsonView::Null)
        }),
{
    lemma_open_names_differ();
    let members = seq![
        ("sessionId"@, JsonView::Text("s-1"@)),
        ("requestedUrl"@, JsonView::Text(requested_url)),
        ("url"@, JsonView::Text(url)),
        ("boundary"@, JsonView::Text(boundary)),
        ("clockMode"@, JsonView::Text("real"@)),
        ("profile"@, JsonView::Null),
    ];
    assert(real_open_result(requested_url, url, boundary) == object_json(members));
    assert(distinct_names(members));
    lemma_object_member(members, 0);
    lemma_object_member(members, 1);
    lemma_object_member(members, 2);
    lemma_object_member(members, 3);
    lemma_object_member(members, 4);
    lemma_object_member(members, 5);
}

/// A controlled open is answered with the URL that it asked for under `requestedUrl`, and with the
/// URL at which the engine's document is under `url`.
pub proof fn law_a_controlled_open_is_answered_with_its_urls(
    active: ActiveRequest,
    state: ControlledOpenState,
    command: DocumentControlCommand,
    outcome: Arc<DocumentControlReceiveOutcome>,
    network_operations: usize,
    answers: Answers,
)
    requires
        active.operation == ActiveOperation::ControlledOpen(state),
    ensures
        control_step(active, command, outcome, network_operations, answers).1
            matches TransitionView::Complete(json) ==> {
            &&& tells_of_open(
                json,
                state.requested_url@,
                state.current_url@,
                "controlled_ready"@,
                "controlled"@,
            )
            &&& member_of(json, "profile"@) == Some(JsonView::Text("controlled-webapp-v1"@))
        },
{
    lemma_open_result_members(state.requested_url@, state.current_url@, state.profile);
}

/// An open of a session is answered with the URL that it asked for under `requestedUrl`, the URL of
/// the navigation that was looked at last under `url`, and both tokens under their names.
pub proof fn law_a_session_open_is_answered_with_its_urls(
    active: ActiveRequest,
    state: SessionProjectionState,
    completion: NavigationOperationCompletion,
    network_operations: usize,
    answers: Answers,
)
    requires
        active.operation == ActiveOperation::SessionProjection(state),
        state.kind is ControlledOpen,
    ensures
        navigation_step(active, completion, network_operations, answers).1
            matches TransitionView::Complete(json) ==> {
            &&& completion.outcome is Some && completion.outcome->0 is Ok
            &&& tells_of_open(
                json,
                state.kind->ControlledOpen_requested_url@,
                completion.outcome->0->Ok_0.url@,
                "controlled_ready"@,
                "controlled"@,
            )
            &&& member_of(json, "profile"@) == Some(
                JsonView::Text(public_name(state.kind->ControlledOpen_profile)),
            )
            &&& answers.token is Some && answers.token->0 is Ok && member_of(json, "stateToken"@)
                == Some(json_of(answers.token->0->Ok_0))
            &&& state.kind->session_state_token is Some && member_of(json, "sessionStateToken"@)
                == Some(json_of(state.kind->session_state_token->0))
        },
{
    if completion.outcome is Some && completion.outcome->0 is Ok && answers.token is Some
        && answers.token->0 is Ok && state.kind->session_state_token is Some {
        lemma_session_open_result_members(
            state.kind->ControlledOpen_requested_url@,
            completion.outcome->0->Ok_0.url@,
            state.kind->ControlledOpen_profile,
            json_of(answers.token->0->Ok_0),
            json_of(state.kind->session_state_token->0),
        );
    }
}

/// The URL under which an open is answered is that of its parameters, from the plan over the engine
/// to the operation; the URL at which the document is follows the engine.
pub proof fn law_an_open_keeps_its_urls(
    shell: Shell,
    request: Request,
    params: OpenParams,
    url: UrlView,
    started: u64,
    plan: OpenPlan,
    options: crate::engine::EngineSessionOpenOptions,
    engine: OpenedEngine,
    now: u64,
)
    requires
        opens(params, url, started, plan, options),
    ensures
        engine_built(shell, request, plan, engine, now).1 matches OpenedStepView::Submit {
            opening,
            ..
        } ==> {
            &&& opening.request == request
            &&& opening.requested_url@ == url.text
            &&& opening.current_url@ == match engine.url {
                Some(engine_url) => engine_url@,
                None => url.text,
            }
            &&& plan.profile == Some(opening.profile)
            &&& opening.started_at == started
            &&& opening.deadline == started + 25_000_000_000
        },
{
}

/// The operation of an open has the URLs, the profile and the deadline of the open.
pub proof fn law_an_opened_operation_keeps_its_urls(shell: Shell, opening: Opening, observed: u64)
    ensures
        ({
            let (after, step) = open_observed(shell, opening, observed, None);
            &&& step is Keep
            &&& after.state == ShellState::Open
            &&& after.engine == Some(opening.session)
            &&& after.profile == Some(opening.profile)
            &&& after.last_navigation_authority is None
            &&& after.active matches Some(active) && {
                &&& active.request == opening.request
                &&& active.profile == Some(opening.profile)
                &&& active.started_at == opening.started_at
                &&& active.in_flight matches Some(command) && command is Observe
                &&& active.control_turn_observed == Some(observed)
                &&& active.needs_initial_pump
                &&& active.state_effect is Nothing
                &&& active.operation matches ActiveOperation::ControlledOpen(state) && {
                    &&& state.requested_url == opening.requested_url
                    &&& state.current_url == opening.current_url
                    &&& state.profile == opening.profile
                    &&& state.deadline == opening.deadline
                    &&& state.readiness_waiting is None
                    &&& !state.bootstrap_attempted
                    &&& state.settlement is None
                }
            }
        }),
{
}

/// With each completion the URL at which the document is becomes that of the engine, where it has
/// one; nothing else of an open changes.
pub proof fn law_an_open_follows_the_engine(
    state: ControlledOpenState,
    outcome: DocumentControlReceiveOutcome,
    url: Option<String>,
)
    ensures
        noted(ActiveOperation::ControlledOpen(state), outcome, url)
            matches ActiveOperation::ControlledOpen(after) && {
            &&& after.current_url == match url {
                Some(url) => url,
                None => state.current_url,
            }
            &&& after.requested_url == state.requested_url
            &&& after.profile == state.profile
            &&& after.deadline == state.deadline
            &&& after.bootstrap_attempted == state.bootstrap_attempted
            &&& after.settlement == state.settlement
            &&& after.readiness_waiting == state.readiness_waiting
        },
{
}

/// An open under the real clock is answered at once, with the URL that it asked for under
/// `requestedUrl` and the URL at which the document is under `url`.
pub proof fn law_a_real_open_is_answered_with_its_urls(
    shell: Shell,
    request: Request,
    plan: OpenPlan,
    engine: OpenedEngine,
    now: u64,
)
    requires
        plan.deadline is None,
    ensures
        engine_built(shell, request, plan, engine, now).1
            matches OpenedStepView::Step(ShellStepView::Finish(end)) && {
            &&& end.responses.len() == 1
            &&& end.responses[0].request == Some(request)
            &&& end.responses[0].outcome matches Ok(json) && {
                &&& tells_of_open(
                    json,
                    plan.requested_url@,
                    match engine.url {
                        Some(url) => url@,
                        None => plan.requested_url@,
                    },
                    plan.boundary@,
                    "real"@,
                )
                &&& member_of(json, "profile"@) == Some(JsonView::Null)
            }
        },
{
    lemma_real_open_result_members(
        plan.requested_url@,
        current_url(plan, engine)@,
        plan.boundary@,
    );
}

} // verus!
