//! Parameters of the methods: the rules that hold beyond their shape, and how a refusal is worded.

use serde_json::Value;
use vstd::prelude::*;
use vstd::string::*;

use crate::active::PublicAutomationKind;
use crate::engine::EngineClockMode;
use crate::error::{
    attached, fatal_error, fatal_operation, invalid_request_error, operation_error, ProtocolError,
    ProtocolErrorView,
};
use crate::failure::{
    brief_object, stale_state_token_error, stale_state_token_view, with_error_details,
};
use crate::json::{
    get_member, insert_member, member_of, members_json, object_json, text_value, unsigned_json,
    unsigned_value, value_json, value_of, with_member, JsonView, NewValue,
};
use crate::profile::{
    session_api, SessionProfile, CONTROLLED_WEBAPP_V1_PROFILE, CONTROLLED_WEB_SESSION_V1_PROFILE,
    CONTROLLED_WEB_SESSION_V2_PROFILE, DEFAULT_SESSION_AUDIT_PAGE_ITEMS,
    HARD_SESSION_AUDIT_PAGE_ITEMS,
};
use crate::request::Request;
use crate::text::{
    decimal, decimal_text, has_prefix, joined, joined3, lemma_decimal_is_short, same_text,
    starts_with,
};

verus! {

/// Whether the two token members of some parameters have the form of the other's tokens.
#[derive(Clone, Copy, Debug, PartialEq, Eq, Structural)]
pub struct TokenDomains {
    /// `expectedStateToken` reads as a token of the session state.
    pub state_token_is_session_token: bool,
    /// `expectedSessionStateToken` reads as a token of a document state.
    pub session_token_is_document_token: bool,
}

/// A token that stands in the other's place is stale, whatever else the parameters hold.
pub open spec fn token_domain_fault(params: JsonView, domains: TokenDomains) -> Option<
    ProtocolErrorView,
> {
    if member_of(params, "expectedStateToken"@) is Some && domains.state_token_is_session_token {
        Some(stale_state_token_view())
    } else if member_of(params, "expectedSessionStateToken"@) is Some
        && domains.session_token_is_document_token {
        Some(
            operation_error(
                "stale_session_state_token"@,
                "expectedSessionStateToken does not authorize the current session state"@,
                "none"@,
            ),
        )
    } else {
        None
    }
}

pub fn cross_domain_token_error(params: &Value, domains: TokenDomains) -> (error: Option<
    ProtocolError,
>)
    ensures
        match error {
            Some(error) => token_domain_fault(value_json(*params), domains) == Some(error@),
            None => token_domain_fault(value_json(*params), domains) is None,
        },
{
    if get_member(params, "expectedStateToken").is_some() && domains.state_token_is_session_token {
        return Some(stale_state_token_error());
    }
    if get_member(params, "expectedSessionStateToken").is_some()
        && domains.session_token_is_document_token {
        return Some(
            ProtocolError::operation(
                "stale_session_state_token",
                "expectedSessionStateToken does not authorize the current session state",
                "none",
            ),
        );
    }
    None
}

/// How parameters of the wrong shape are reported. What a document action or query was asked for is
/// not repeated.
pub open spec fn shape_fault(method: Seq<char>, diagnostic: Seq<char>) -> ProtocolErrorView {
    if has_prefix(method, "action."@) || has_prefix(method, "dom."@) {
        invalid_request_error("invalid "@ + method + " parameters"@)
    } else {
        invalid_request_error(diagnostic)
    }
}

/// Takes up how the parameters of a request were read: `parsed` is their value or the diagnostic.
pub fn parse_params<T>(
    request: &Request,
    domains: TokenDomains,
    parsed: Result<T, String>,
) -> (r: Result<T, ProtocolError>)
    ensures
        match token_domain_fault(value_json(request.params), domains) {
            Some(fault) => r matches Err(error) && error@ == fault,
            None => match parsed {
                Ok(value) => r == Ok::<T, ProtocolError>(value),
                Err(diagnostic) => r matches Err(error) && error@ == shape_fault(
                    request.method@,
                    diagnostic@,
                ),
            },
        },
{
    if let Some(error) = cross_domain_token_error(&request.params, domains) {
        return Err(error);
    }
    match parsed {
        Ok(value) => Ok(value),
        Err(diagnostic) => {
            let method = request.method.as_str();
            if starts_with(method, "action.") || starts_with(method, "dom.") {
                Err(
                    ProtocolError::invalid_request(
                        joined3("invalid ", method, " parameters").as_str(),
                    ),
                )
            } else {
                Err(ProtocolError::invalid_request(diagnostic.as_str()))
            }
        },
    }
}

/// Takes up how sensitive parameters were read: of a refusal only the given message is told.
pub fn parse_sensitive_params<T>(
    request: &Request,
    domains: TokenDomains,
    parsed: Option<T>,
    redacted_message: &'static str,
) -> (r: Result<T, ProtocolError>)
    ensures
        match token_domain_fault(value_json(request.params), domains) {
            Some(fault) => r matches Err(error) && error@ == fault,
            None => match parsed {
                Some(value) => r == Ok::<T, ProtocolError>(value),
                None => r matches Err(error) && error@ == invalid_request_error(redacted_message@),
            },
        },
{
    if let Some(error) = cross_domain_token_error(&request.params, domains) {
        return Err(error);
    }
    match parsed {
        Some(value) => Ok(value),
        None => Err(ProtocolError::invalid_request(redacted_message)),
    }
}

/// The clock that an open asks for.
#[derive(Clone, Copy, Debug, PartialEq, Eq, Structural)]
pub enum OpenClockMode {
    Real,
    Controlled,
}

/// The parameters of an open. Initial session state is kept by the host and known by a number.
#[derive(Debug)]
pub struct OpenParams {
    pub url: String,
    pub clock_mode: OpenClockMode,
    pub initial_virtual_time_ns: Option<u128>,
    pub unix_time_origin_ns: Option<u128>,
    pub profile: Option<String>,
    pub state: Option<u64>,
    pub network: Option<Value>,
}

/// What an open was resolved to.
#[derive(Debug)]
pub struct OpenConfiguration {
    pub clock_mode: EngineClockMode,
    pub boundary: &'static str,
    pub profile: Option<SessionProfile>,
    pub state: Option<u64>,
    pub network: Option<Value>,
}

/// The profile with the given name.
pub open spec fn profile_named(name: Option<Seq<char>>) -> Option<SessionProfile> {
    match name {
        None => None,
        Some(name) => if name == CONTROLLED_WEBAPP_V1_PROFILE@ {
            Some(SessionProfile::ControlledWebappV1)
        } else if name == CONTROLLED_WEB_SESSION_V1_PROFILE@ {
            Some(SessionProfile::ControlledWebSessionV1)
        } else if name == CONTROLLED_WEB_SESSION_V2_PROFILE@ {
            Some(SessionProfile::ControlledWebSessionV2)
        } else {
            None
        },
    }
}

fn find_profile(name: &Option<String>) -> (r: Option<SessionProfile>)
    ensures
        r == profile_named(
            match *name {
                Some(name) => Some(name@),
                None => None,
            },
        ),
{
    match name {
        None => None,
        Some(name) => if same_text(name.as_str(), CONTROLLED_WEBAPP_V1_PROFILE) {
            Some(SessionProfile::ControlledWebappV1)
        } else if same_text(name.as_str(), CONTROLLED_WEB_SESSION_V1_PROFILE) {
            Some(SessionProfile::ControlledWebSessionV1)
        } else if same_text(name.as_str(), CONTROLLED_WEB_SESSION_V2_PROFILE) {
            Some(SessionProfile::ControlledWebSessionV2)
        } else {
            None
        },
    }
}

/// The profile that the parameters of an open name.
pub open spec fn chosen_profile(params: OpenParams) -> Option<SessionProfile> {
    profile_named(
        match params.profile {
            Some(name) => Some(name@),
            None => None,
        },
    )
}

/// The first rule that the parameters of an open break.
pub open spec fn open_params_fault(params: OpenParams) -> Option<Seq<char>> {
    match params.clock_mode {
        OpenClockMode::Real => if params.initial_virtual_time_ns is Some
            || params.unix_time_origin_ns is Some || params.profile is Some
            || params.state is Some || params.network is Some {
            Some(
                "controlled time, profile, state, and network fields require clockMode controlled"@,
            )
        } else {
            None
        },
        OpenClockMode::Controlled => match chosen_profile(params) {
            None => Some(
                "controlled sessions require profile controlled-webapp-v1, controlled-web-session-v1, or controlled-web-session-v2"@,
            ),
            Some(profile) => if params.unix_time_origin_ns is Some && params.unix_time_origin_ns->0
                != 0 {
                Some("unixTimeOriginNs must be 0 in the controlled MVP"@)
            } else if !session_api(profile) && (params.state is Some || params.network is Some) {
                Some(
                    "state and network require profile controlled-web-session-v1 or controlled-web-session-v2"@,
                )
            } else {
                None
            },
        },
    }
}

impl OpenParams {
    /// Resolves the parameters, where they keep the rules.
    pub fn configuration(self) -> (r: Result<OpenConfiguration, ProtocolError>)
        ensures
            match r {
                Err(error) => open_params_fault(self) is Some && error@ == invalid_request_error(
                    open_params_fault(self)->0,
                ),
                Ok(configuration) => {
                    &&& open_params_fault(self) is None
                    &&& configuration.state == self.state
                    &&& configuration.network == self.network
                    &&& match self.clock_mode {
                        OpenClockMode::Real => {
                            &&& configuration.clock_mode == EngineClockMode::Real
                            &&& configuration.boundary@ == "load_complete"@
                            &&& configuration.profile is None
                        },
                        OpenClockMode::Controlled => {
                            &&& configuration.clock_mode == (EngineClockMode::Controlled {
                                initial_time_ns: match self.initial_virtual_time_ns {
                                    Some(time) => time,
                                    None => 0,
                                },
                            })
                            &&& configuration.boundary@ == "controlled_ready"@
                            &&& configuration.profile == chosen_profile(self)
                            &&& configuration.profile is Some
                        },
                    }
                },
            },
    {
        match self.clock_mode {
            OpenClockMode::Real => {
                if self.initial_virtual_time_ns.is_some() || self.unix_time_origin_ns.is_some()
                    || self.profile.is_some() || self.state.is_some() || self.network.is_some() {
                    return Err(
                        ProtocolError::invalid_request(
                            "controlled time, profile, state, and network fields require clockMode controlled",
                        ),
                    );
                }
                Ok(
                    OpenConfiguration {
                        clock_mode: EngineClockMode::Real,
                        boundary: "load_complete",
                        profile: None,
                        state: None,
                        network: None,
                    },
                )
            },
            OpenClockMode::Controlled => {
                let profile = match find_profile(&self.profile) {
                    Some(profile) => profile,
                    None => {
                        return Err(
                            ProtocolError::invalid_request(
                                "controlled sessions require profile controlled-webapp-v1, controlled-web-session-v1, or controlled-web-session-v2",
                            ),
                        );
                    },
                };
                let origin = match self.unix_time_origin_ns {
                    Some(origin) => origin,
                    None => 0,
                };
                if origin != 0 {
                    return Err(
                        ProtocolError::invalid_request(
                            "unixTimeOriginNs must be 0 in the controlled MVP",
                        ),
                    );
                }
                if !profile.supports_session_api() && (self.state.is_some()
                    || self.network.is_some()) {
                    return Err(
                        ProtocolError::invalid_request(
                            "state and network require profile controlled-web-session-v1 or controlled-web-session-v2",
                        ),
                    );
                }
                Ok(
                    OpenConfiguration {
                        clock_mode: EngineClockMode::Controlled {
                            initial_time_ns: match self.initial_virtual_time_ns {
                                Some(time) => time,
                                None => 0,
                            },
                        },
                        boundary: "controlled_ready",
                        profile: Some(profile),
                        state: self.state,
                        network: self.network,
                    },
                )
            },
        }
    }
}

/// A URL: its normal form and its scheme.
pub struct UrlView {
    pub text: Seq<char>,
    pub scheme: Seq<char>,
}

/// What `url::Url::parse` makes of a text: the URL, or the text of its error.
pub uninterp spec fn parsed_url(text: Seq<char>) -> Result<UrlView, Seq<char>>;

/// A URL that was read.
#[derive(Debug)]
pub struct ParsedUrl {
    pub text: String,
    pub scheme: String,
}

impl View for ParsedUrl {
    type V = UrlView;

    open spec fn view(&self) -> UrlView {
        UrlView { text: self.text@, scheme: self.scheme@ }
    }
}

/// `url::Url::parse`. Of the URL its serialization and its scheme are kept; an error is turned into
/// its text.
#[verifier::external_body]
pub(crate) fn parse_url(text: &str) -> (parsed: Result<ParsedUrl, String>)
    ensures
        match parsed {
            Ok(url) => parsed_url(text@) == Ok::<UrlView, Seq<char>>(url@),
            Err(error) => parsed_url(text@) == Err::<UrlView, Seq<char>>(error@),
        },
{
    match url::Url::parse(text) {
        Ok(url) => Ok(ParsedUrl { text: url.as_str().to_owned(), scheme: url.scheme().to_owned() }),
        Err(error) => Err(error.to_string()),
    }
}

/// Whether a URL is one of the Web.
pub open spec fn is_web_url(url: UrlView) -> bool {
    url.scheme == "http"@ || url.scheme == "https"@
}

impl ParsedUrl {
    pub fn is_web(&self) -> (r: bool)
        ensures
            r == is_web_url(self@),
    {
        same_text(self.scheme.as_str(), "http") || same_text(self.scheme.as_str(), "https")
    }
}

/// The URL that a navigation asks for, or why it is refused.
pub open spec fn navigation_url(text: Seq<char>) -> Result<UrlView, ProtocolErrorView> {
    match parsed_url(text) {
        Ok(url) => if is_web_url(url) {
            Ok(url)
        } else {
            Err(
                operation_error(
                    "unsupported_navigation_scheme"@,
                    "session navigation supports only HTTP(S) URLs"@,
                    "none"@,
                ),
            )
        },
        Err(error) => Err(invalid_request_error("invalid navigation URL: "@ + error)),
    }
}

/// Reads the URL that a navigation asks for.
pub fn read_navigation_url(text: &str) -> (r: Result<ParsedUrl, ProtocolError>)
    ensures
        match r {
            Ok(url) => navigation_url(text@) == Ok::<UrlView, ProtocolErrorView>(url@),
            Err(error) => navigation_url(text@) == Err::<UrlView, ProtocolErrorView>(error@),
        },
{
    accept_navigation_url(parse_url(text))
}

/// Decides on the URL that a navigation asks for.
pub fn accept_navigation_url(parsed: Result<ParsedUrl, String>) -> (r: Result<
    ParsedUrl,
    ProtocolError,
>)
    ensures
        match (parsed, r) {
            (Ok(url), Ok(accepted)) => is_web_url(url@) && accepted == url,
            (Ok(url), Err(error)) => !is_web_url(url@) && error@ == operation_error(
                "unsupported_navigation_scheme"@,
                "session navigation supports only HTTP(S) URLs"@,
                "none"@,
            ),
            (Err(diagnostic), Err(error)) => error@ == invalid_request_error(
                "invalid navigation URL: "@ + diagnostic@,
            ),
            (Err(_), Ok(_)) => false,
        },
{
    match parsed {
        Ok(url) => if url.is_web() {
            Ok(url)
        } else {
            Err(
                ProtocolError::operation(
                    "unsupported_navigation_scheme",
                    "session navigation supports only HTTP(S) URLs",
                    "none",
                ),
            )
        },
        Err(error) => Err(
            ProtocolError::invalid_request(
                joined("invalid navigation URL: ", error.as_str()).as_str(),
            ),
        ),
    }
}

/// Whether a profile offers an automation method.
pub open spec fn offers(profile: SessionProfile, kind: PublicAutomationKind) -> bool {
    session_api(profile) || match kind {
        PublicAutomationKind::Activate => true,
        PublicAutomationKind::Fill => true,
        PublicAutomationKind::Query => true,
        PublicAutomationKind::Text => true,
        PublicAutomationKind::Extract => true,
        _ => false,
    }
}

/// Whether an automation method may be used with a profile.
pub fn check_automation(profile: SessionProfile, kind: PublicAutomationKind, method: &str) -> (r:
    Result<(), ProtocolError>)
    ensures
        match r {
            Ok(_) => offers(profile, kind),
            Err(error) => !offers(profile, kind) && error@ == operation_error(
                "unsupported_profile_method"@,
                method@ + " is not supported by controlled-webapp-v1"@,
                "none"@,
            ),
        },
{
    let offered = profile.supports_session_api() || match kind {
        PublicAutomationKind::Activate | PublicAutomationKind::Fill | PublicAutomationKind::Query
        | PublicAutomationKind::Text | PublicAutomationKind::Extract => true,
        _ => false,
    };
    if offered {
        Ok(())
    } else {
        Err(
            ProtocolError::operation(
                "unsupported_profile_method",
                joined(method, " is not supported by controlled-webapp-v1").as_str(),
                "none",
            ),
        )
    }
}

/// Automation parameters of the right shape that could not be resolved.
pub fn automation_parameter_error(method: &str) -> (error: ProtocolError)
    ensures
        error@ == invalid_request_error("invalid "@ + method@ + " parameters"@),
{
    ProtocolError::invalid_request(joined3("invalid ", method, " parameters").as_str())
}

/// A settlement policy that could not be resolved.
pub fn settlement_policy_error(diagnostic: &str) -> (error: ProtocolError)
    ensures
        error@ == invalid_request_error("invalid settlement policy: "@ + diagnostic@),
{
    ProtocolError::invalid_request(joined("invalid settlement policy: ", diagnostic).as_str())
}

/// A result that could not be serialized.
pub fn serialize_immediate_error(diagnostic: &str) -> (error: ProtocolError)
    ensures
        error@ == fatal_error(
            "internal_runtime_failure"@,
            "failed to serialize public session result: "@ + diagnostic@,
            "none"@,
        ),
{
    fatal_operation(
        "internal_runtime_failure",
        joined("failed to serialize public session result: ", diagnostic).as_str(),
        "none",
    )
}

/// The number of items that a page of the audit trail may hold.
pub open spec fn audit_limit(limit: Option<usize>) -> Result<usize, ProtocolErrorView> {
    let wanted = match limit {
        Some(limit) => limit,
        None => DEFAULT_SESSION_AUDIT_PAGE_ITEMS,
    };
    if wanted == 0 || wanted > HARD_SESSION_AUDIT_PAGE_ITEMS {
        Err(
            attached(
                invalid_request_error("session audit limit is outside the public bound"@),
                object_json(
                    seq![
                        ("observed"@, JsonView::Text(decimal(wanted as nat))),
                        ("limit"@, unsigned_json(HARD_SESSION_AUDIT_PAGE_ITEMS as u64)),
                    ],
                ),
            ),
        )
    } else {
        Ok(wanted)
    }
}

pub fn check_audit_limit(limit: Option<usize>) -> (r: Result<usize, ProtocolError>)
    ensures
        match r {
            Ok(limit_used) => audit_limit(limit) == Ok::<usize, ProtocolErrorView>(limit_used),
            Err(error) => audit_limit(limit) == Err::<usize, ProtocolErrorView>(error@),
        },
{
    let wanted = match limit {
        Some(limit) => limit,
        None => DEFAULT_SESSION_AUDIT_PAGE_ITEMS,
    };
    if wanted == 0 || wanted > HARD_SESSION_AUDIT_PAGE_ITEMS {
        let members = vec![
            ("observed".to_owned(), text_value(decimal_text(wanted as u128).as_str())),
            ("limit".to_owned(), unsigned_value(HARD_SESSION_AUDIT_PAGE_ITEMS as u64)),
        ];
        assert(members_json(members@) =~= seq![
            ("observed"@, JsonView::Text(decimal(wanted as nat))),
            ("limit"@, unsigned_json(HARD_SESSION_AUDIT_PAGE_ITEMS as u64)),
        ]);
        proof {
            reveal_strlit("observed");
            reveal_strlit("limit");
            lemma_decimal_is_short(wanted as u128);
        }
        return Err(
            with_error_details(
                ProtocolError::invalid_request("session audit limit is outside the public bound"),
                brief_object(members),
            ),
        );
    }
    Ok(wanted)
}

/// Unicode white space.
pub open spec fn is_white_space(c: char) -> bool {
    let code = c as u32;
    ||| 0x09 <= code <= 0x0d
    ||| code == 0x20
    ||| code == 0x85
    ||| code == 0xa0
    ||| code == 0x1680
    ||| 0x2000 <= code <= 0x200a
    ||| code == 0x2028
    ||| code == 0x2029
    ||| code == 0x202f
    ||| code == 0x205f
    ||| code == 0x3000
}

fn is_white(c: char) -> (r: bool)
    ensures
        r == is_white_space(c),
{
    let code = c as u32;
    (0x09 <= code && code <= 0x0d) || code == 0x20 || code == 0x85 || code == 0xa0 || code == 0x1680
        || (0x2000 <= code && code <= 0x200a) || code == 0x2028 || code == 0x2029 || code == 0x202f
        || code == 0x205f || code == 0x3000
}

/// A text without white space at its ends, or without quotation marks where `quotes`.
pub open spec fn stripped(text: Seq<char>, quotes: bool) -> Seq<char>
    decreases text.len(),
{
    if text.len() == 0 {
        text
    } else if drops(text[0], quotes) {
        stripped(text.skip(1), quotes)
    } else if drops(text.last(), quotes) {
        stripped(text.drop_last(), quotes)
    } else {
        text
    }
}

/// Whether a character is removed at the ends of a text.
pub open spec fn drops(c: char, quotes: bool) -> bool {
    if quotes {
        c == '"'
    } else {
        is_white_space(c)
    }
}

/// The position of a character in a text, or the length where it does not occur.
pub open spec fn char_position(text: Seq<char>, c: char) -> int
    decreases text.len(),
{
    if text.len() == 0 {
        0
    } else if text[0] == c {
        0
    } else {
        1 + char_position(text.skip(1), c)
    }
}

/// The entry that one line of a manifest makes, `key = "value"`; a line without an equals sign makes
/// none.
pub open spec fn manifest_entry(line: Seq<char>) -> Option<(Seq<char>, JsonView)> {
    let n = char_position(line, '=');
    if n < line.len() {
        Some(
            (
                stripped(line.take(n), false),
                JsonView::Text(stripped(stripped(line.skip(n + 1), false), true)),
            ),
        )
    } else {
        None
    }
}

/// The entries of a manifest, inserted line by line after `before`.
pub open spec fn manifest_entries(text: Seq<char>, before: Seq<(Seq<char>, JsonView)>) -> Seq<
    (Seq<char>, JsonView),
>
    decreases text.len(),
{
    let n = char_position(text, '\n');
    let line = text.take(n);
    let after = match manifest_entry(line) {
        Some((key, value)) => with_member(before, key, value),
        None => before,
    };
    if 0 <= n < text.len() {
        manifest_entries(text.skip(n + 1), after)
    } else {
        after
    }
}

/// The source identities: those of a manifest, with the repository and the revision of the build.
pub open spec fn source_identities(
    manifest: Seq<char>,
    repository: Seq<char>,
    revision: Seq<char>,
) -> JsonView {
    JsonView::Object(
        with_member(
            with_member(
                manifest_entries(manifest, Seq::empty()),
                "stasis_repository"@,
                JsonView::Text(repository),
            ),
            "stasis_revision"@,
            JsonView::Text(revision),
        ),
    )
}

fn chars_of(text: &str) -> (chars: Vec<char>)
    ensures
        chars@ == text@,
{
    let mut chars: Vec<char> = Vec::new();
    let n = text.unicode_len();
    let mut i: usize = 0;
    while i < n
        invariant
            i <= n,
            n == text@.len(),
            chars@ == text@.take(i as int),
        decreases n - i,
    {
        chars.push(text.get_char(i));
        i = i + 1;
        assert(chars@ =~= text@.take(i as int));
    }
    assert(chars@ =~= text@);
    chars
}

proof fn lemma_char_position(text: Seq<char>, c: char)
    ensures
        0 <= char_position(text, c) <= text.len(),
        forall|i: int| 0 <= i < char_position(text, c) ==> text[i] != c,
        char_position(text, c) < text.len() ==> text[char_position(text, c)] == c,
    decreases text.len(),
{
    if text.len() > 0 && text[0] != c {
        lemma_char_position(text.skip(1), c);
        assert forall|i: int| 0 <= i < char_position(text, c) implies text[i] != c by {
            if i > 0 {
                assert(text.skip(1)[i - 1] == text[i]);
            }
        }
    }
}

fn find_char(chars: &Vec<char>, from: usize, to: usize, c: char) -> (n: usize)
    requires
        from <= to <= chars.len(),
    ensures
        from <= n <= to,
        n - from == char_position(chars@.subrange(from as int, to as int), c),
{
    let ghost range = chars@.subrange(from as int, to as int);
    proof {
        lemma_char_position(range, c);
    }
    let mut n = from;
    while n < to
        invariant
            from <= n <= to <= chars.len(),
            range == chars@.subrange(from as int, to as int),
            forall|i: int| 0 <= i < n - from ==> range[i] != c,
            0 <= char_position(range, c) <= range.len(),
            char_position(range, c) < range.len() ==> range[char_position(range, c)] == c,
            forall|i: int| 0 <= i < char_position(range, c) ==> range[i] != c,
        decreases to - n,
    {
        assert(range[n - from] == chars@[n as int]);
        if chars[n] == c {
            return n;
        }
        n = n + 1;
    }
    n
}

fn strip(chars: &Vec<char>, from: usize, to: usize, quotes: bool) -> (r: (usize, usize))
    requires
        from <= to <= chars.len(),
    ensures
        from <= r.0 <= r.1 <= to,
        chars@.subrange(r.0 as int, r.1 as int) == stripped(
            chars@.subrange(from as int, to as int),
            quotes,
        ),
    decreases to - from,
{
    let ghost range = chars@.subrange(from as int, to as int);
    if from == to {
        return (from, to);
    }
    let first = chars[from];
    let last = chars[to - 1];
    let drops_first = if quotes {
        first == '"'
    } else {
        is_white(first)
    };
    if drops_first {
        assert(range.skip(1) =~= chars@.subrange(from + 1, to as int));
        return strip(chars, from + 1, to, quotes);
    }
    let drops_last = if quotes {
        last == '"'
    } else {
        is_white(last)
    };
    if drops_last {
        assert(range.drop_last() =~= chars@.subrange(from as int, to - 1));
        return strip(chars, from, to - 1, quotes);
    }
    (from, to)
}

fn add_entry(identities: &mut Value, manifest: &str, chars: &Vec<char>, from: usize, to: usize)
    requires
        chars@ == manifest@,
        from <= to <= chars.len(),
        value_json(*old(identities)) is Object,
    ensures
        value_json(*final(identities)) == JsonView::Object(
            match manifest_entry(chars@.subrange(from as int, to as int)) {
                Some((key, value)) => with_member(
                    value_json(*old(identities))->Object_0,
                    key,
                    value,
                ),
                None => value_json(*old(identities))->Object_0,
            },
        ),
{
    let ghost line = chars@.subrange(from as int, to as int);
    let n = find_char(chars, from, to, '=');
    if n == to {
        return;
    }
    assert(line.take(n - from) =~= chars@.subrange(from as int, n as int));
    assert(line.skip(n - from + 1) =~= chars@.subrange(n + 1, to as int));
    let (key_from, key_to) = strip(chars, from, n, false);
    let (inner_from, inner_to) = strip(chars, n + 1, to, false);
    let (value_from, value_to) = strip(chars, inner_from, inner_to, true);
    let key = manifest.substring_char(key_from, key_to);
    let value = manifest.substring_char(value_from, value_to);
    insert_member(identities, key, text_value(value));
}

/// Reads the source identities from a manifest, and adds the repository and the revision of the
/// build.
pub fn parse_source_identities(manifest: &str, repository: &str, revision: &str) -> (value: Value)
    ensures
        value_json(value) == source_identities(manifest@, repository@, revision@),
{
    let chars = chars_of(manifest);
    let members: Vec<(String, Value)> = Vec::new();
    assert(members_json(members@) =~= Seq::empty());
    let mut identities = value_of(NewValue::Object(members));
    let mut from: usize = 0;
    let mut done = false;
    assert(chars@.skip(0) =~= chars@);
    while !done
        invariant
            chars@ == manifest@,
            from <= chars.len(),
            value_json(identities) is Object,
            if done {
                value_json(identities)->Object_0 == manifest_entries(chars@, Seq::empty())
            } else {
                manifest_entries(chars@.skip(from as int), value_json(identities)->Object_0)
                    == manifest_entries(chars@, Seq::empty())
            },
        decreases chars.len() - from + if done { 0int } else { 1int },
    {
        let ghost rest = chars@.skip(from as int);
        let to = find_char(&chars, from, chars.len(), '\n');
        assert(rest =~= chars@.subrange(from as int, chars@.len() as int));
        assert(rest.take(to - from) =~= chars@.subrange(from as int, to as int));
        add_entry(&mut identities, manifest, &chars, from, to);
        if to < chars.len() {
            assert(rest.skip(to - from + 1) =~= chars@.skip(to + 1));
            from = to + 1;
        } else {
            done = true;
        }
    }
    insert_member(&mut identities, "stasis_repository", text_value(repository));
    insert_member(&mut identities, "stasis_revision", text_value(revision));
    identities
}

} // verus!
