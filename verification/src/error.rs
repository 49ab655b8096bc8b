//! Protocol errors and the bounds on the details that one may carry.

use serde_json::Value;
use vstd::prelude::*;
use vstd::string::*;

use crate::json::{
    collected, encode_value, encoded_json, items_json, layer_of, member_position, members_bound,
    members_json, object_json, size_bound, value_json, with_member, JsonView, NumberView,
    ValueLayer,
};
use crate::text::{decimal, decimal_text, joined, joined3};

verus! {

pub const MAX_PROTOCOL_ERROR_DETAILS_BYTES: usize = 65536;

pub const MAX_PROTOCOL_ERROR_DETAILS_DEPTH: usize = 16;

pub const MAX_PROTOCOL_ERROR_DETAILS_VALUES: usize = 1024;

/// The largest integer that a double-precision number represents exactly together with all smaller
/// ones.
pub const MAX_EXACT_JSON_INTEGER: i64 = 9_007_199_254_740_991;

/// A failed request, or a failed transport, as the peer learns of it.
#[derive(Debug)]
pub struct ProtocolError {
    pub code: &'static str,
    pub message: String,
    pub fatal: bool,
    pub state_effect: &'static str,
    pub details: Option<Value>,
}

/// What a protocol error says.
pub struct ProtocolErrorView {
    pub code: Seq<char>,
    pub message: Seq<char>,
    pub fatal: bool,
    pub state_effect: Seq<char>,
    pub details: Option<JsonView>,
}

impl View for ProtocolError {
    type V = ProtocolErrorView;

    open spec fn view(&self) -> ProtocolErrorView {
        ProtocolErrorView {
            code: self.code@,
            message: self.message@,
            fatal: self.fatal,
            state_effect: self.state_effect@,
            details: match self.details {
                Some(value) => Some(value_json(value)),
                None => None,
            },
        }
    }
}

/// An error that leaves the shell usable.
pub open spec fn operation_error(
    code: Seq<char>,
    message: Seq<char>,
    state_effect: Seq<char>,
) -> ProtocolErrorView {
    ProtocolErrorView { code, message, fatal: false, state_effect, details: None }
}

/// An error after which the peer cannot go on.
pub open spec fn fatal_error(
    code: Seq<char>,
    message: Seq<char>,
    state_effect: Seq<char>,
) -> ProtocolErrorView {
    ProtocolErrorView { code, message, fatal: true, state_effect, details: None }
}

/// A request that was refused before it had any effect.
pub open spec fn invalid_request_error(message: Seq<char>) -> ProtocolErrorView {
    operation_error("invalid_request"@, message, "none"@)
}

/// Builds a fatal error with the given effect on the session.
pub fn fatal_operation(code: &'static str, message: &str, state_effect: &'static str) -> (error:
    ProtocolError)
    ensures
        error@ == fatal_error(code@, message@, state_effect@),
{
    ProtocolError { code, message: message.to_owned(), fatal: true, state_effect, details: None }
}

/// Builds the error for a method that the shell's state does not admit.
pub fn invalid_state(message: &str) -> (error: ProtocolError)
    ensures
        error@ == operation_error("invalid_state"@, message@, "none"@),
{
    ProtocolError {
        code: "invalid_state",
        message: message.to_owned(),
        fatal: false,
        state_effect: "none",
        details: None,
    }
}

impl ProtocolError {
    pub fn invalid_request(message: &str) -> (error: Self)
        ensures
            error@ == invalid_request_error(message@),
    {
        ProtocolError {
            code: "invalid_request",
            message: message.to_owned(),
            fatal: false,
            state_effect: "none",
            details: None,
        }
    }

    pub fn operation(code: &'static str, message: &str, state_effect: &'static str) -> (error: Self)
        ensures
            error@ == operation_error(code@, message@, state_effect@),
    {
        ProtocolError {
            code,
            message: message.to_owned(),
            fatal: false,
            state_effect,
            details: None,
        }
    }

    /// A transport error. It ends the input.
    pub fn fatal(code: &'static str, message: &str) -> (error: Self)
        ensures
            error@ == fatal_error(code@, message@, "none"@),
    {
        fatal_operation(code, message, "none")
    }

    /// Attaches a bounded JSON object, whose integers a peer that computes in double precision
    /// decodes exactly.
    pub fn with_details(self, details: Value) -> (attached: Result<
        ProtocolError,
        ProtocolErrorDetailsError,
    >)
        ensures
            match attached {
                Ok(error) => details_fault(value_json(details)) is None && error@
                    == (ProtocolErrorView { details: Some(value_json(details)), ..self@ }),
                Err(fault) => details_fault(value_json(details)) == Some(fault),
            },
            attached is Err && value_json(details) is Object ==> {
                ||| details_walk(value_json(details), 0, 0) is Err
                ||| size_bound(value_json(details)) > MAX_PROTOCOL_ERROR_DETAILS_BYTES
            },
    {
        match layer_of(&details) {
            ValueLayer::Object(_) => {},
            _ => {
                return Err(ProtocolErrorDetailsError::NotObject);
            },
        }
        let mut values: usize = 0;
        match validate_protocol_error_details(&details, 0, &mut values) {
            Ok(()) => {},
            Err(fault) => {
                return Err(fault);
            },
        }
        let bytes: usize = encode_value(&details).len();
        if bytes > MAX_PROTOCOL_ERROR_DETAILS_BYTES {
            return Err(
                ProtocolErrorDetailsError::TooLarge {
                    actual: bytes,
                    limit: MAX_PROTOCOL_ERROR_DETAILS_BYTES,
                },
            );
        }
        let mut error = self;
        error.details = Some(details);
        Ok(error)
    }
}

/// Why details were refused.
#[derive(Clone, Copy, Debug, PartialEq, Eq, Structural)]
pub enum ProtocolErrorDetailsError {
    NotObject,
    TooDeep { actual: usize, limit: usize },
    TooManyValues { actual: usize, limit: usize },
    IntegerNotExactlyRepresentable,
    TooLarge { actual: usize, limit: usize },
}

/// The text of a details error.
pub open spec fn details_error_text(error: ProtocolErrorDetailsError) -> Seq<char> {
    match error {
        ProtocolErrorDetailsError::NotObject => "protocol error details must be a JSON object"@,
        ProtocolErrorDetailsError::TooDeep { actual, limit } => "protocol error details depth "@
            + decimal(actual as nat) + (" exceeds "@ + decimal(limit as nat)),
        ProtocolErrorDetailsError::TooManyValues { actual, limit } =>
        "protocol error details contain "@ + decimal(actual as nat) + (" values, exceeding "@
            + decimal(limit as nat)),
        ProtocolErrorDetailsError::IntegerNotExactlyRepresentable =>
        "protocol error details contain an integer that TypeScript cannot decode exactly"@,
        ProtocolErrorDetailsError::TooLarge { actual, limit } =>
        "protocol error details encode to "@ + decimal(actual as nat) + (" bytes, exceeding "@
            + decimal(limit as nat)),
    }
}

impl ProtocolErrorDetailsError {
    /// The error's text.
    pub fn to_text(&self) -> (text: String)
        ensures
            text@ == details_error_text(*self),
    {
        match *self {
            ProtocolErrorDetailsError::NotObject =>
            "protocol error details must be a JSON object".to_owned(),
            ProtocolErrorDetailsError::TooDeep { actual, limit } => joined3(
                "protocol error details depth ",
                decimal_text(actual as u128).as_str(),
                joined(" exceeds ", decimal_text(limit as u128).as_str()).as_str(),
            ),
            ProtocolErrorDetailsError::TooManyValues { actual, limit } => joined3(
                "protocol error details contain ",
                decimal_text(actual as u128).as_str(),
                joined(" values, exceeding ", decimal_text(limit as u128).as_str()).as_str(),
            ),
            ProtocolErrorDetailsError::IntegerNotExactlyRepresentable =>
            "protocol error details contain an integer that TypeScript cannot decode exactly".to_owned(),
            ProtocolErrorDetailsError::TooLarge { actual, limit } => joined3(
                "protocol error details encode to ",
                decimal_text(actual as u128).as_str(),
                joined(" bytes, exceeding ", decimal_text(limit as u128).as_str()).as_str(),
            ),
        }
    }
}

/// Whether a number survives decoding in double precision: an integer within the exact range, or a
/// number whose text marks it as no integer.
pub open spec fn exactly_decodable(number: NumberView) -> bool {
    match number {
        NumberView::Unsigned(n) => n <= MAX_EXACT_JSON_INTEGER,
        NumberView::Negative(n) => -MAX_EXACT_JSON_INTEGER <= n <= MAX_EXACT_JSON_INTEGER,
        NumberView::Decimal(text) => text.contains('.') || text.contains('e') || text.contains('E'),
    }
}

/// Walks a value at `depth` in document order after `seen` values were counted: the new count, or
/// the first bound that is broken.
pub open spec fn details_walk(json: JsonView, depth: nat, seen: nat) -> Result<
    nat,
    ProtocolErrorDetailsError,
>
    decreases json,
{
    if depth > MAX_PROTOCOL_ERROR_DETAILS_DEPTH {
        Err(
            ProtocolErrorDetailsError::TooDeep {
                actual: depth as usize,
                limit: MAX_PROTOCOL_ERROR_DETAILS_DEPTH,
            },
        )
    } else if seen + 1 > MAX_PROTOCOL_ERROR_DETAILS_VALUES {
        Err(
            ProtocolErrorDetailsError::TooManyValues {
                actual: (seen + 1) as usize,
                limit: MAX_PROTOCOL_ERROR_DETAILS_VALUES,
            },
        )
    } else {
        match json {
            JsonView::Number(number) => if exactly_decodable(number) {
                Ok(seen + 1)
            } else {
                Err(ProtocolErrorDetailsError::IntegerNotExactlyRepresentable)
            },
            JsonView::Array(items) => items_walk(items, depth + 1, seen + 1),
            JsonView::Object(members) => members_walk(members, depth + 1, seen + 1),
            _ => Ok(seen + 1),
        }
    }
}

/// Walks the items of an array in order.
pub open spec fn items_walk(items: Seq<JsonView>, depth: nat, seen: nat) -> Result<
    nat,
    ProtocolErrorDetailsError,
>
    decreases items,
{
    if items.len() == 0 {
        Ok(seen)
    } else {
        match items_walk(items.drop_last(), depth, seen) {
            Err(fault) => Err(fault),
            Ok(count) => details_walk(items.last(), depth, count),
        }
    }
}

/// Walks the members of an object in order.
pub open spec fn members_walk(members: Seq<(Seq<char>, JsonView)>, depth: nat, seen: nat) -> Result<
    nat,
    ProtocolErrorDetailsError,
>
    decreases members,
{
    if members.len() == 0 {
        Ok(seen)
    } else {
        match members_walk(members.drop_last(), depth, seen) {
            Err(fault) => Err(fault),
            Ok(count) => details_walk(members.last().1, depth, count),
        }
    }
}

/// Whether a text holds a character that no integer's text holds.
fn marks_fraction(text: &str) -> (r: bool)
    ensures
        r == (text@.contains('.') || text@.contains('e') || text@.contains('E')),
{
    let length = text.unicode_len();
    let mut i: usize = 0;
    while i < length
        invariant
            length == text@.len(),
            i <= length,
            forall|j: int|
                0 <= j < i ==> text@[j] != '.' && text@[j] != 'e' && text@[j] != 'E',
        decreases length - i,
    {
        let character = text.get_char(i);
        if character == '.' || character == 'e' || character == 'E' {
            assert(text@.contains(character));
            return true;
        }
        i = i + 1;
    }
    false
}

/// Counts the values of `value`, which lies at `depth`, into `values`, and stops at the first bound
/// that is broken.
fn validate_protocol_error_details(value: &Value, depth: usize, values: &mut usize) -> (checked:
    Result<(), ProtocolErrorDetailsError>)
    requires
        depth <= MAX_PROTOCOL_ERROR_DETAILS_DEPTH + 1,
        *old(values) <= MAX_PROTOCOL_ERROR_DETAILS_VALUES,
    ensures
        match checked {
            Ok(()) => details_walk(value_json(*value), depth as nat, *old(values) as nat) == Ok::<
                nat,
                ProtocolErrorDetailsError,
            >(*final(values) as nat) && *final(values) <= MAX_PROTOCOL_ERROR_DETAILS_VALUES,
            Err(fault) => details_walk(value_json(*value), depth as nat, *old(values) as nat)
                == Err::<nat, ProtocolErrorDetailsError>(fault),
        },
    decreases value_json(*value),
{
    if depth > MAX_PROTOCOL_ERROR_DETAILS_DEPTH {
        return Err(
            ProtocolErrorDetailsError::TooDeep {
                actual: depth,
                limit: MAX_PROTOCOL_ERROR_DETAILS_DEPTH,
            },
        );
    }
    *values = values.saturating_add(1);
    if *values > MAX_PROTOCOL_ERROR_DETAILS_VALUES {
        return Err(
            ProtocolErrorDetailsError::TooManyValues {
                actual: *values,
                limit: MAX_PROTOCOL_ERROR_DETAILS_VALUES,
            },
        );
    }
    let ghost seen = *values as nat;
    match layer_of(value) {
        ValueLayer::Unsigned(n) => {
            if n > MAX_EXACT_JSON_INTEGER as u64 {
                return Err(ProtocolErrorDetailsError::IntegerNotExactlyRepresentable);
            }
        },
        ValueLayer::Negative(n) => {
            if n < -MAX_EXACT_JSON_INTEGER || n > MAX_EXACT_JSON_INTEGER {
                return Err(ProtocolErrorDetailsError::IntegerNotExactlyRepresentable);
            }
        },
        ValueLayer::Decimal(text) => {
            if !marks_fraction(text.as_str()) {
                return Err(ProtocolErrorDetailsError::IntegerNotExactlyRepresentable);
            }
        },
        ValueLayer::Array(items) => {
            let ghost all = items_json(items@);
            let mut i: usize = 0;
            assert(all.take(0) =~= Seq::empty());
            while i < items.len()
                invariant
                    i <= items.len(),
                    depth <= MAX_PROTOCOL_ERROR_DETAILS_DEPTH,
                    seen == *old(values) + 1,
                    seen <= MAX_PROTOCOL_ERROR_DETAILS_VALUES,
                    all == items_json(items@),
                    value_json(*value) == JsonView::Array(all),
                    *values <= MAX_PROTOCOL_ERROR_DETAILS_VALUES,
                    items_walk(all.take(i as int), depth as nat + 1, seen) == Ok::<
                        nat,
                        ProtocolErrorDetailsError,
                    >(*values as nat),
                    all.take(items.len() as int) == all,
                decreases items.len() - i,
            {
                proof {
                    assert(all.take(i as int + 1).drop_last() =~= all.take(i as int));
                    assert(all.take(i as int + 1).last() == value_json(items[i as int]));
                    assert(decreases_to!(value_json(*value) => value_json(*value)->Array_0));
                    assert(decreases_to!(all => all[i as int]));
                }
                match validate_protocol_error_details(&items[i], depth + 1, values) {
                    Ok(()) => {},
                    Err(fault) => {
                        proof {
                            lemma_items_walk_fault(all, i as int + 1, depth as nat + 1, seen);
                        }
                        return Err(fault);
                    },
                }
                i = i + 1;
            }
        },
        ValueLayer::Object(members) => {
            let ghost all = members_json(members@);
            let mut i: usize = 0;
            assert(all.take(0) =~= Seq::empty());
            while i < members.len()
                invariant
                    i <= members.len(),
                    depth <= MAX_PROTOCOL_ERROR_DETAILS_DEPTH,
                    seen == *old(values) + 1,
                    seen <= MAX_PROTOCOL_ERROR_DETAILS_VALUES,
                    all == members_json(members@),
                    value_json(*value) == JsonView::Object(all),
                    *values <= MAX_PROTOCOL_ERROR_DETAILS_VALUES,
                    members_walk(all.take(i as int), depth as nat + 1, seen) == Ok::<
                        nat,
                        ProtocolErrorDetailsError,
                    >(*values as nat),
                    all.take(members.len() as int) == all,
                decreases members.len() - i,
            {
                proof {
                    assert(all.take(i as int + 1).drop_last() =~= all.take(i as int));
                    assert(all.take(i as int + 1).last().1 == value_json(members[i as int].1));
                    assert(decreases_to!(value_json(*value) => value_json(*value)->Object_0));
                    assert(decreases_to!(all => all[i as int]));
                    assert(decreases_to!(all[i as int] => all[i as int].1));
                }
                match validate_protocol_error_details(&members[i].1, depth + 1, values) {
                    Ok(()) => {},
                    Err(fault) => {
                        proof {
                            lemma_members_walk_fault(all, i as int + 1, depth as nat + 1, seen);
                        }
                        return Err(fault);
                    },
                }
                i = i + 1;
            }
        },
        ValueLayer::Null | ValueLayer::Bool(_) | ValueLayer::Text(_) => {},
    }
    Ok(())
}

proof fn lemma_items_walk_fault(items: Seq<JsonView>, n: int, depth: nat, seen: nat)
    requires
        0 <= n <= items.len(),
        items_walk(items.take(n), depth, seen) is Err,
    ensures
        items_walk(items, depth, seen) == items_walk(items.take(n), depth, seen),
    decreases items.len() - n,
{
    if n < items.len() {
        assert(items.take(n + 1).drop_last() =~= items.take(n));
        lemma_items_walk_fault(items, n + 1, depth, seen);
    } else {
        assert(items.take(n) =~= items);
    }
}

proof fn lemma_members_walk_fault(
    members: Seq<(Seq<char>, JsonView)>,
    n: int,
    depth: nat,
    seen: nat,
)
    requires
        0 <= n <= members.len(),
        members_walk(members.take(n), depth, seen) is Err,
    ensures
        members_walk(members, depth, seen) == members_walk(members.take(n), depth, seen),
    decreases members.len() - n,
{
    if n < members.len() {
        assert(members.take(n + 1).drop_last() =~= members.take(n));
        lemma_members_walk_fault(members, n + 1, depth, seen);
    } else {
        assert(members.take(n) =~= members);
    }
}

/// Why a value may not be attached as details, if it may not.
pub open spec fn details_fault(json: JsonView) -> Option<ProtocolErrorDetailsError> {
    if !(json is Object) {
        Some(ProtocolErrorDetailsError::NotObject)
    } else {
        match details_walk(json, 0, 0) {
            Err(fault) => Some(fault),
            Ok(_) => if encoded_json(json).len() > MAX_PROTOCOL_ERROR_DETAILS_BYTES {
                Some(
                    ProtocolErrorDetailsError::TooLarge {
                        actual: encoded_json(json).len() as usize,
                        limit: MAX_PROTOCOL_ERROR_DETAILS_BYTES,
                    },
                )
            } else {
                None
            },
        }
    }
}

/// An error with details.
pub open spec fn attached(error: ProtocolErrorView, details: JsonView) -> ProtocolErrorView {
    ProtocolErrorView { details: Some(details), ..error }
}

/// Whether a value may be attached as details, by what it holds alone.
pub open spec fn is_brief(json: JsonView) -> bool {
    &&& json is Object
    &&& details_walk(json, 0, 0) is Ok
    &&& size_bound(json) <= MAX_PROTOCOL_ERROR_DETAILS_BYTES
}

/// A member with a short name and a short text or an integer that survives decoding.
pub open spec fn is_short_member(member: (Seq<char>, JsonView)) -> bool {
    &&& member.0.len() <= 64
    &&& match member.1 {
        JsonView::Text(text) => text.len() <= 64,
        JsonView::Number(NumberView::Unsigned(n)) => n <= MAX_EXACT_JSON_INTEGER,
        _ => false,
    }
}

/// Whether all members are short.
pub open spec fn are_short_members(members: Seq<(Seq<char>, JsonView)>) -> bool {
    forall|i: int| 0 <= i < members.len() ==> is_short_member(#[trigger] members[i])
}

proof fn lemma_collected_short(members: Seq<(Seq<char>, JsonView)>)
    requires
        are_short_members(members),
    ensures
        are_short_members(collected(members)),
        collected(members).len() <= members.len(),
    decreases members.len(),
{
    if members.len() > 0 {
        let before = collected(members.drop_last());
        let last = members.last();
        assert forall|i: int| 0 <= i < members.drop_last().len() implies is_short_member(
            #[trigger] members.drop_last()[i],
        ) by {
            assert(members.drop_last()[i] == members[i]);
        }
        lemma_collected_short(members.drop_last());
        lemma_position_in_range(before, last.0);
        let after = with_member(before, last.0, last.1);
        assert(is_short_member(members[members.len() - 1]));
        assert forall|i: int| 0 <= i < after.len() implies is_short_member(#[trigger] after[i]) by {
            if after[i] != last {
                assert(after[i] == before[i]);
            }
        }
    }
}

proof fn lemma_position_in_range(members: Seq<(Seq<char>, JsonView)>, name: Seq<char>)
    ensures
        0 <= member_position(members, name) <= members.len(),
    decreases members.len(),
{
    if members.len() > 0 {
        lemma_position_in_range(members.skip(1), name);
    }
}

proof fn lemma_short_members_walk(members: Seq<(Seq<char>, JsonView)>)
    requires
        are_short_members(members),
        members.len() <= 8,
    ensures
        members_walk(members, 1, 1) == Ok::<nat, ProtocolErrorDetailsError>(1 + members.len()),
        members_bound(members) <= 1000 * members.len(),
    decreases members.len(),
{
    reveal_with_fuel(members_walk, 2);
    reveal_with_fuel(details_walk, 2);
    reveal_with_fuel(members_bound, 2);
    reveal_with_fuel(size_bound, 2);
    if members.len() > 0 {
        assert forall|i: int| 0 <= i < members.drop_last().len() implies is_short_member(
            #[trigger] members.drop_last()[i],
        ) by {
            assert(members.drop_last()[i] == members[i]);
        }
        lemma_short_members_walk(members.drop_last());
        assert(is_short_member(members[members.len() - 1]));
    }
}

/// An object that is filled with a few short members may be attached as details.
pub proof fn lemma_short_object_is_brief(members: Seq<(Seq<char>, JsonView)>)
    requires
        are_short_members(members),
        members.len() <= 8,
    ensures
        is_brief(object_json(members)),
{
    reveal_with_fuel(details_walk, 2);
    reveal_with_fuel(size_bound, 2);
    lemma_collected_short(members);
    lemma_short_members_walk(collected(members));
}

} // verus!
