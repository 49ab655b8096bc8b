//! Which opens are admitted, and with what the engine is then built.

use vstd::prelude::*;

use crate::active::PublicAutomationKind;
use crate::engine::{EngineClockMode, EngineSessionOpenOptions};
use crate::error::{ProtocolError, ProtocolErrorView};
use crate::json::{lemma_object_member, member_of, unsigned_json, JsonView};
use crate::opening::{
    engine_built, open_failed, open_observed, open_refusal, opens, OpenPlan, OpenedEngine,
    OpenedStepView, Opening,
};
use crate::operation_laws::is_session;
use crate::params::{
    audit_limit, navigation_url, offers, parsed_url, token_domain_fault, OpenClockMode, OpenParams,
    TokenDomains, UrlView,
};
use crate::profile::{DocumentControlProfile, DocumentExecutionProfile, SessionProfile};
use crate::request::Request;
use crate::shell::{Shell, ShellState, ShellStepView};
use crate::text::decimal;

verus! {

/// The profile that an open asks for by name.
pub open spec fn asked_profile(params: OpenParams) -> Option<SessionProfile> {
    match params.profile {
        None => None,
        Some(name) => if name@ == "controlled-webapp-v1"@ {
            Some(SessionProfile::ControlledWebappV1)
        } else if name@ == "controlled-web-session-v1"@ {
            Some(SessionProfile::ControlledWebSessionV1)
        } else if name@ == "controlled-web-session-v2"@ {
            Some(SessionProfile::ControlledWebSessionV2)
        } else {
            None
        },
    }
}

/// Whether the parameters of an open fit together: under the real clock nothing of a controlled
/// session is given; under the controlled one a known profile is, the time starts at the origin,
/// and only a session is given state and network.
pub open spec fn fit_together(params: OpenParams) -> bool {
    match params.clock_mode {
        OpenClockMode::Real => params.initial_virtual_time_ns is None
            && params.unix_time_origin_ns is None && params.profile is None && params.state is None
            && params.network is None,
        OpenClockMode::Controlled => {
            &&& asked_profile(params) is Some
            &&& params.unix_time_origin_ns matches Some(origin) ==> origin == 0
            &&& params.state is Some || params.network is Some ==> is_session(asked_profile(params))
        },
    }
}

/// An open is admitted exactly to a shell that was initialized and has no session, without a
/// session in its envelope, with a URL that can be read and parameters that fit together; a session
/// starts on the web.
pub proof fn law_an_open_is_admitted_where_all_fits(
    shell: Shell,
    request: Request,
    params: OpenParams,
    url: UrlView,
    now: u64,
)
    ensures
        open_refusal(
            shell,
            request,
            Ok(params),
            Ok(url),
            now,
        ) is None <==> {
            &&& shell.state == ShellState::Initialized
            &&& request.session_id is None
            &&& fit_together(params)
            &&& params.clock_mode is Controlled && is_session(asked_profile(params)) ==> url.scheme
                == "http"@ || url.scheme == "https"@
            &&& params.clock_mode is Controlled ==> now + 25_000_000_000 <= u64::MAX
        },
{
}

/// A refused open is told what is wrong with it, and has changed nothing.
pub proof fn law_a_refused_open_is_told(
    shell: Shell,
    request: Request,
    params: Result<OpenParams, ProtocolError>,
    parsed: Result<UrlView, Seq<char>>,
    now: u64,
)
    ensures
        ({
            let refusal = open_refusal(shell, request, params, parsed, now);
            &&& shell.state != ShellState::Initialized ==> (refusal matches Some(error)
                && error.code == "invalid_state"@ && error.state_effect == "none"@ && !error.fatal)
            &&& shell.state == ShellState::Initialized && request.session_id is Some ==> (refusal
                matches Some(error) && error.code == "invalid_request"@ && !error.fatal)
            &&& shell.state == ShellState::Initialized && request.session_id is None && params is Err
                ==> refusal == Some(params->Err_0@)
            &&& shell.state == ShellState::Initialized && request.session_id is None && params is Ok
                && parsed is Err ==> (refusal matches Some(error) && error.code
                == "invalid_request"@ && error.message == "invalid URL: "@ + parsed->Err_0)
            &&& shell.state == ShellState::Initialized && request.session_id is None && params is Ok
                && parsed is Ok ==> {
                &&& !fit_together(params->Ok_0) ==> (refusal matches Some(error) && error.code
                    == "invalid_request"@ && error.state_effect == "none"@ && !error.fatal)
                &&& fit_together(params->Ok_0) ==> (refusal matches Some(error) ==> error.code
                    == "unsupported_navigation_scheme"@ || error.code
                    == "controlled_open_deadline_overflow"@)
            }
        }),
{
}

/// The engine is built as the parameters of the open ask: its clock and start, its state and
/// network, and the profiles that belong to the profile that was asked for.
pub proof fn law_the_engine_is_built_as_asked(
    params: OpenParams,
    url: UrlView,
    now: u64,
    plan: OpenPlan,
    options: EngineSessionOpenOptions,
)
    requires
        opens(params, url, now, plan, options),
        fit_together(params),
    ensures
        plan.requested_url@ == url.text,
        plan.started_at == now,
        options.state == params.state,
        options.network == params.network,
        match params.clock_mode {
            OpenClockMode::Real => {
                &&& options.clock_mode == EngineClockMode::Real
                &&& plan.profile is None
                &&& plan.deadline is None
                &&& plan.boundary@ == "load_complete"@
                &&& options.document_control_profile == DocumentControlProfile::SingleDocument
                &&& options.document_execution_profile == DocumentExecutionProfile::Baseline
            },
            OpenClockMode::Controlled => {
                &&& options.clock_mode matches EngineClockMode::Controlled { initial_time_ns }
                    && initial_time_ns == match params.initial_virtual_time_ns {
                    Some(time) => time,
                    None => 0,
                }
                &&& plan.profile == asked_profile(params)
                &&& plan.deadline matches Some(deadline) && deadline == now + 25_000_000_000
                &&& plan.boundary@ == "controlled_ready"@
                &&& options.document_control_profile == DocumentControlProfile::TopLevelSession
                    <==> is_session(asked_profile(params))
                &&& options.document_execution_profile
                    == DocumentExecutionProfile::ControlledWebSessionV2 <==> asked_profile(params)
                    == Some(SessionProfile::ControlledWebSessionV2)
            },
        },
{
}

/// An engine that was built with other profiles than those asked for is closed, and the open fails;
/// one that came too late times out; one that fits is observed next.
pub proof fn law_a_built_engine_is_checked(
    shell: Shell,
    request: Request,
    plan: OpenPlan,
    engine: OpenedEngine,
    now: u64,
    deadline: u64,
    profile: SessionProfile,
)
    requires
        plan.deadline == Some(deadline),
        plan.profile == Some(profile),
    ensures
        ({
            let step = engine_built(shell, request, plan, engine, now).1;
            let fits = (engine.session.document_control_profile
                == DocumentControlProfile::TopLevelSession <==> is_session(Some(profile))) && (
            engine.session.document_execution_profile
                == DocumentExecutionProfile::ControlledWebSessionV2 <==> profile
                == SessionProfile::ControlledWebSessionV2);
            &&& step is Submit <==> now < deadline && fits
            &&& step matches OpenedStepView::Submit { opening, timeout_ns } ==> {
                &&& opening.session == engine.session
                &&& opening.profile == profile
                &&& opening.deadline == deadline
                &&& timeout_ns <= 30_000_000_000
                &&& timeout_ns <= deadline - now
                &&& timeout_ns == 30_000_000_000 || timeout_ns == deadline - now
            }
            &&& step matches OpenedStepView::Step(ShellStepView::Finish(end)) ==> {
                &&& end.close_before
                &&& end.responses.len() == 1
                &&& end.responses[0].request == Some(request)
                &&& end.responses[0].outcome matches Err(error) && error.code == if now >= deadline {
                    "controlled_open_timeout"@
                } else {
                    "internal_runtime_failure"@
                }
            }
        }),
{
}

/// An engine that could not be built, or could not be observed, leaves the shell without a session;
/// the client is told why, unless the time of the open had run out before.
pub proof fn law_a_failed_open_is_told(
    shell: Shell,
    request: Request,
    plan: OpenPlan,
    opening: Opening,
    error: ProtocolErrorView,
    observed: u64,
    now: u64,
)
    ensures
        ({
            let (after, step) = open_failed(shell, request, plan, error, now);
            &&& after.active == shell.active
            &&& after.engine == shell.engine
            &&& step matches ShellStepView::Finish(end) && {
                &&& end.responses.len() == 1
                &&& end.responses[0].request == Some(request)
                &&& end.responses[0].outcome matches Err(told) && if plan.deadline matches Some(
                    deadline,
                ) && now >= deadline {
                    told.code == "controlled_open_timeout"@
                } else {
                    told == error && (end.exit is Some <==> error.fatal)
                }
            }
        }),
        ({
            let (after, step) = open_observed(shell, opening, observed, Some(error));
            &&& after == shell
            &&& step matches ShellStepView::Finish(end) && {
                &&& end.close_before
                &&& end.responses.len() == 1
                &&& end.responses[0].request == Some(opening.request)
                &&& end.responses[0].outcome matches Err(told) && told.code == error.code
                    && told.message == error.message && told.fatal == error.fatal
                    && told.state_effect == "none"@
            }
        }),
{
}

/// A session navigates only on the web, to the URL that was read; any other URL is refused, with
/// nothing changed.
pub proof fn law_a_navigation_stays_on_the_web(text: Seq<char>)
    ensures
        match parsed_url(text) {
            Err(fault) => navigation_url(text) matches Err(error) && error.code
                == "invalid_request"@ && error.message == "invalid navigation URL: "@ + fault,
            Ok(url) => if url.scheme == "http"@ || url.scheme == "https"@ {
                navigation_url(text) matches Ok(accepted) && accepted == url
            } else {
                navigation_url(text) matches Err(error) && error.code
                    == "unsupported_navigation_scheme"@ && error.state_effect == "none"@
                    && !error.fatal
            },
        },
{
}

/// A single document offers the queries, the activation and the filling; a session offers all.
pub proof fn law_a_session_offers_every_action(profile: SessionProfile, kind: PublicAutomationKind)
    ensures
        is_session(Some(profile)) ==> offers(profile, kind),
        !is_session(Some(profile)) ==> (offers(profile, kind) <==> !(kind is Focus || kind is Check
            || kind is Uncheck || kind is Select || kind is Submit)),
{
}

/// A page of the audit has as many items as were asked for, 256 where nothing was; a page of none,
/// or of more than 1024, is refused with both numbers.
pub proof fn law_an_audit_page_is_bounded(limit: Option<usize>)
    ensures
        ({
            let wanted: usize = match limit {
                Some(limit) => limit,
                None => 256,
            };
            if 1 <= wanted <= 1024 {
                audit_limit(limit) matches Ok(items) && items == wanted
            } else {
                audit_limit(limit) matches Err(error) && error.code == "invalid_request"@ && (
                error.details matches Some(details) && member_of(details, "observed"@) == Some(
                    JsonView::Text(decimal(wanted as nat)),
                ) && member_of(details, "limit"@) == Some(unsigned_json(1024)))
            }
        }),
{
    reveal_strlit("observed");
    reveal_strlit("limit");
    assert("observed"@.len() == 8);
    assert("limit"@.len() == 5);
    let wanted: usize = match limit {
        Some(limit) => limit,
        None => 256,
    };
    let members = seq![
        ("observed"@, JsonView::Text(decimal(wanted as nat))),
        ("limit"@, unsigned_json(1024)),
    ];
    lemma_object_member(members, 0);
    lemma_object_member(members, 1);
}

/// A token of one kind is never taken for one of the other: it is stale.
pub proof fn law_tokens_are_not_exchanged(params: JsonView, domains: TokenDomains)
    ensures
        ({
            let document = member_of(params, "expectedStateToken"@) is Some
                && domains.state_token_is_session_token;
            let session = member_of(params, "expectedSessionStateToken"@) is Some
                && domains.session_token_is_document_token;
            match token_domain_fault(params, domains) {
                None => !document && !session,
                Some(error) => {
                    &&& !error.fatal
                    &&& error.state_effect == "none"@
                    &&& error.code == if document {
                        "stale_state_token"@
                    } else {
                        "stale_session_state_token"@
                    }
                    &&& document || session
                },
            }
        }),
{
}

} // verus!
