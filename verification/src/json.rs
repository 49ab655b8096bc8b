//! JSON values. The values themselves are those of `serde_json`; this module gives them a
//! mathematical model and the few operations that the shell performs on them.

use serde_json::Value;
use vstd::prelude::*;

use crate::text::same_text;

verus! {

/// What a JSON number denotes: an unsigned integer, a negative integer, or any other number by the
/// text that it is printed with.
pub enum NumberView {
    Unsigned(u64),
    Negative(i64),
    Decimal(Seq<char>),
}

/// What a JSON value denotes. The members of an object keep the order in which they were inserted.
pub enum JsonView {
    Null,
    Bool(bool),
    Number(NumberView),
    Text(Seq<char>),
    Array(Seq<JsonView>),
    Object(Seq<(Seq<char>, JsonView)>),
}

/// `serde_json::Value`, carried as an opaque value.
#[verifier::external_type_specification]
#[verifier::external_body]
pub struct ExValue(Value);

/// What a `serde_json::Value` holds.
pub uninterp spec fn value_json(value: Value) -> JsonView;

/// One level of a JSON value that is read: the value's own kind, with its children still whole.
pub enum ValueLayer {
    Null,
    Bool(bool),
    Unsigned(u64),
    Negative(i64),
    Decimal(String),
    Text(String),
    Array(Vec<Value>),
    Object(Vec<(String, Value)>),
}

/// One level of a JSON value that is built.
pub enum NewValue {
    Null,
    Bool(bool),
    Unsigned(u64),
    Text(String),
    Array(Vec<Value>),
    Object(Vec<(String, Value)>),
}

/// What a list of values holds.
pub open spec fn items_json(items: Seq<Value>) -> Seq<JsonView> {
    Seq::new(items.len(), |i: int| value_json(items[i]))
}

/// What a list of named values holds.
pub open spec fn members_json(members: Seq<(String, Value)>) -> Seq<(Seq<char>, JsonView)> {
    Seq::new(members.len(), |i: int| (members[i].0@, value_json(members[i].1)))
}

/// What one level of a value that was read stands for.
pub open spec fn layer_json(layer: ValueLayer) -> JsonView {
    match layer {
        ValueLayer::Null => JsonView::Null,
        ValueLayer::Bool(b) => JsonView::Bool(b),
        ValueLayer::Unsigned(n) => JsonView::Number(NumberView::Unsigned(n)),
        ValueLayer::Negative(n) => JsonView::Number(NumberView::Negative(n)),
        ValueLayer::Decimal(text) => JsonView::Number(NumberView::Decimal(text@)),
        ValueLayer::Text(text) => JsonView::Text(text@),
        ValueLayer::Array(items) => JsonView::Array(items_json(items@)),
        ValueLayer::Object(members) => JsonView::Object(members_json(members@)),
    }
}

/// The first position of `name` among `members`, or their number where it does not occur.
pub open spec fn member_position(members: Seq<(Seq<char>, JsonView)>, name: Seq<char>) -> int
    decreases members.len(),
{
    if members.len() == 0 {
        0
    } else if members[0].0 == name {
        0
    } else {
        1 + member_position(members.skip(1), name)
    }
}

/// Whether `members` hold one with the given name.
pub open spec fn has_member(members: Seq<(Seq<char>, JsonView)>, name: Seq<char>) -> bool {
    member_position(members, name) < members.len()
}

/// `members` after the insertion of `name`: an existing member gets the new value in its place, a
/// new one comes last.
pub open spec fn with_member(
    members: Seq<(Seq<char>, JsonView)>,
    name: Seq<char>,
    value: JsonView,
) -> Seq<(Seq<char>, JsonView)> {
    if has_member(members, name) {
        members.update(member_position(members, name), (name, value))
    } else {
        members.push((name, value))
    }
}

/// The members of an object that was filled by inserting `members` one after the other.
pub open spec fn collected(members: Seq<(Seq<char>, JsonView)>) -> Seq<(Seq<char>, JsonView)>
    decreases members.len(),
{
    if members.len() == 0 {
        members
    } else {
        with_member(collected(members.drop_last()), members.last().0, members.last().1)
    }
}

/// The object that `members`, inserted one after the other, make.
pub open spec fn object_json(members: Seq<(Seq<char>, JsonView)>) -> JsonView {
    JsonView::Object(collected(members))
}

/// The unsigned JSON integer `n`.
pub open spec fn unsigned_json(n: u64) -> JsonView {
    JsonView::Number(NumberView::Unsigned(n))
}

/// What one level of a value that is built stands for.
pub open spec fn new_json(parts: NewValue) -> JsonView {
    match parts {
        NewValue::Null => JsonView::Null,
        NewValue::Bool(b) => JsonView::Bool(b),
        NewValue::Unsigned(n) => unsigned_json(n),
        NewValue::Text(text) => JsonView::Text(text@),
        NewValue::Array(items) => JsonView::Array(items_json(items@)),
        NewValue::Object(members) => object_json(members_json(members@)),
    }
}

/// Takes a `serde_json::Value` apart by one level: its variant, the integer that `Number::as_u64` or
/// `Number::as_i64` reports or else the number's printed text, and clones of its text or children in
/// the order in which the value iterates over them.
#[verifier::external_body]
pub(crate) fn layer_of(value: &Value) -> (layer: ValueLayer)
    ensures
        layer_json(layer) == value_json(*value),
{
    match value {
        Value::Null => ValueLayer::Null,
        Value::Bool(b) => ValueLayer::Bool(*b),
        Value::Number(n) => match (n.as_u64(), n.as_i64()) {
            (Some(n), _) => ValueLayer::Unsigned(n),
            (None, Some(n)) => ValueLayer::Negative(n),
            (None, None) => ValueLayer::Decimal(n.to_string()),
        },
        Value::String(text) => ValueLayer::Text(text.clone()),
        Value::Array(items) => ValueLayer::Array(items.clone()),
        Value::Object(members) => ValueLayer::Object(members.clone().into_iter().collect()),
    }
}

/// Builds a `serde_json::Value` of the given variant. Collecting the members of an object inserts
/// them into a `serde_json::Map` in order, which keeps the insertion order and lets a later member
/// replace the value of an earlier one of the same name.
#[verifier::external_body]
pub(crate) fn value_of(parts: NewValue) -> (value: Value)
    ensures
        value_json(value) == new_json(parts),
{
    match parts {
        NewValue::Null => Value::Null,
        NewValue::Bool(b) => Value::Bool(b),
        NewValue::Unsigned(n) => Value::from(n),
        NewValue::Text(text) => Value::String(text),
        NewValue::Array(items) => Value::Array(items),
        NewValue::Object(members) => Value::Object(members.into_iter().collect()),
    }
}

/// A bound on the number of bytes that the compact form of a value takes: no integer has more than
/// twenty characters, and no character of a text takes more than the six bytes of an escape.
pub open spec fn size_bound(json: JsonView) -> nat
    decreases json,
{
    match json {
        JsonView::Null => 4,
        JsonView::Bool(_) => 5,
        JsonView::Number(NumberView::Decimal(text)) => 4 * text.len(),
        JsonView::Number(_) => 20,
        JsonView::Text(text) => text_bound(text),
        JsonView::Array(items) => 2 + items_bound(items),
        JsonView::Object(members) => 2 + members_bound(members),
    }
}

/// A bound on the bytes of a text with its quotation marks.
pub open spec fn text_bound(text: Seq<char>) -> nat {
    2 + 6 * text.len()
}

/// A bound on the bytes of the items of an array, each with a comma.
pub open spec fn items_bound(items: Seq<JsonView>) -> nat
    decreases items,
{
    if items.len() == 0 {
        0
    } else {
        items_bound(items.drop_last()) + size_bound(items.last()) + 1
    }
}

/// A bound on the bytes of the members of an object, each with a colon and a comma.
pub open spec fn members_bound(members: Seq<(Seq<char>, JsonView)>) -> nat
    decreases members,
{
    if members.len() == 0 {
        0
    } else {
        members_bound(members.drop_last()) + text_bound(members.last().0) + size_bound(
            members.last().1,
        ) + 2
    }
}

/// The bytes that `serde_json::to_vec` writes for a value.
pub uninterp spec fn encoded_json(json: JsonView) -> Seq<u8>;

/// `serde_json::to_vec` on a `serde_json::Value`. Writing to a vector does not fail and the keys of a
/// value's objects are strings, so the call always returns bytes. They hold no line feed: the compact
/// form has no white space, and strings escape their control characters. Their number is bounded: an
/// integer is written by its digits, any other number as it is printed, and a text between quotation
/// marks, with at most six bytes for an escaped character and at most four for any other.
#[verifier::external_body]
pub(crate) fn encode_value(value: &Value) -> (bytes: Vec<u8>)
    ensures
        bytes@ == encoded_json(value_json(*value)),
        forall|i: int| 0 <= i < bytes@.len() ==> bytes@[i] != 10,
        bytes@.len() <= size_bound(value_json(*value)),
{
    serde_json::to_vec(value).expect("a JSON value always serializes")
}

/// What `serde_json::from_str` makes of a text: the value, or the text of its error.
pub uninterp spec fn parsed_json(text: Seq<char>) -> Result<JsonView, Seq<char>>;

/// `serde_json::from_str` for a `serde_json::Value`, with an error turned into its text.
#[verifier::external_body]
pub(crate) fn parse_value(text: &str) -> (parsed: Result<Value, String>)
    ensures
        match parsed {
            Ok(value) => parsed_json(text@) == Ok::<JsonView, Seq<char>>(value_json(value)),
            Err(error) => parsed_json(text@) == Err::<JsonView, Seq<char>>(error@),
        },
{
    serde_json::from_str(text).map_err(|error: serde_json::Error| error.to_string())
}

/// The text of the error with which `serde_json::from_value` refuses to make a `u8` of a value.
pub uninterp spec fn byte_fault(json: JsonView) -> Seq<char>;

/// `serde_json::from_value` for `u8`: it takes exactly the unsigned integers below 256.
#[verifier::external_body]
pub(crate) fn decode_byte(value: Value) -> (decoded: Result<u8, String>)
    ensures
        match decoded {
            Ok(n) => value_json(value) == unsigned_json(n as u64),
            Err(error) => error@ == byte_fault(value_json(value)) && forall|n: u8|
                value_json(value) != #[trigger] unsigned_json(n as u64),
        },
{
    serde_json::from_value::<u8>(value).map_err(|error: serde_json::Error| error.to_string())
}

/// The text of the error with which `serde_json::from_value` refuses to make a `String` of a value.
pub uninterp spec fn text_fault(json: JsonView) -> Seq<char>;

/// `serde_json::from_value` for `String`: it takes exactly the JSON strings.
#[verifier::external_body]
pub(crate) fn decode_text(value: Value) -> (decoded: Result<String, String>)
    ensures
        match decoded {
            Ok(text) => value_json(value) == JsonView::Text(text@),
            Err(error) => error@ == text_fault(value_json(value)) && !(value_json(value) is Text),
        },
{
    serde_json::from_value::<String>(value).map_err(|error: serde_json::Error| error.to_string())
}

/// A JSON text value.
pub fn text_value(text: &str) -> (value: Value)
    ensures
        value_json(value) == JsonView::Text(text@),
{
    value_of(NewValue::Text(text.to_owned()))
}

/// A JSON text value, or null where there is no text.
pub fn optional_text_value(text: Option<&str>) -> (value: Value)
    ensures
        value_json(value) == optional_text_json(
            match text {
                Some(t) => Some(t@),
                None => None,
            },
        ),
{
    match text {
        Some(text) => text_value(text),
        None => value_of(NewValue::Null),
    }
}

/// The JSON text, or null where there is none.
pub open spec fn optional_text_json(text: Option<Seq<char>>) -> JsonView {
    match text {
        Some(t) => JsonView::Text(t),
        None => JsonView::Null,
    }
}

/// An unsigned JSON integer.
pub fn unsigned_value(n: u64) -> (value: Value)
    ensures
        value_json(value) == unsigned_json(n),
{
    value_of(NewValue::Unsigned(n))
}

/// `Clone` of a `serde_json::Value`, which copies the whole value.
#[verifier::external_body]
pub(crate) fn clone_value(value: &Value) -> (copy: Value)
    ensures
        value_json(copy) == value_json(*value),
{
    value.clone()
}

/// Whether a value is a JSON object.
pub fn is_object(value: &Value) -> (r: bool)
    ensures
        r == (value_json(*value) is Object),
{
    match layer_of(value) {
        ValueLayer::Object(_) => true,
        _ => false,
    }
}

/// The empty JSON object.
pub fn empty_object() -> (value: Value)
    ensures
        value_json(value) == JsonView::Object(Seq::empty()),
{
    let members: Vec<(String, Value)> = Vec::new();
    let value = value_of(NewValue::Object(members));
    assert(members_json(members@) =~= Seq::empty());
    value
}

/// Position of `name` among the members, or their number where it does not occur.
pub fn find_member(members: &Vec<(String, Value)>, name: &str) -> (position: usize)
    ensures
        position == member_position(members_json(members@), name@),
        position <= members.len(),
{
    let ghost all = members_json(members@);
    let mut i: usize = 0;
    assert(all.skip(0) =~= all);
    while i < members.len()
        invariant
            all == members_json(members@),
            i <= members.len(),
            member_position(all, name@) == i + member_position(all.skip(i as int), name@),
        decreases members.len() - i,
    {
        assert(all.skip(i as int)[0] == all[i as int]);
        assert(all.skip(i as int).skip(1) =~= all.skip(i as int + 1));
        if same_text(members[i].0.as_str(), name) {
            return i;
        }
        i = i + 1;
    }
    i
}

/// The member of an object with the given name.
pub open spec fn member_of(json: JsonView, name: Seq<char>) -> Option<JsonView> {
    match json {
        JsonView::Object(members) => if has_member(members, name) {
            Some(members[member_position(members, name)].1)
        } else {
            None
        },
        _ => None,
    }
}

/// Reads a member of an object; there is none where the value is not an object.
pub fn get_member(value: &Value, name: &str) -> (member: Option<Value>)
    ensures
        match member {
            Some(found) => member_of(value_json(*value), name@) == Some(value_json(found)),
            None => member_of(value_json(*value), name@) is None,
        },
{
    match layer_of(value) {
        ValueLayer::Object(mut members) => {
            let position = find_member(&members, name);
            if position < members.len() {
                let (_, found) = members.swap_remove(position);
                Some(found)
            } else {
                None
            }
        },
        _ => None,
    }
}

/// The JSON value with one member inserted, where it is an object.
pub open spec fn inserted(json: JsonView, name: Seq<char>, value: JsonView) -> Option<JsonView> {
    match json {
        JsonView::Object(members) => Some(JsonView::Object(with_member(members, name, value))),
        _ => None,
    }
}

/// `serde_json::Map::insert` on the members of an object: a new member comes last, an existing one
/// gets the new value in its place. A value that is no object stays as it is.
#[verifier::external_body]
pub(crate) fn insert_member(value: &mut Value, name: &str, member: Value) -> (done: bool)
    ensures
        match inserted(value_json(*old(value)), name@, value_json(member)) {
            Some(json) => done && value_json(*final(value)) == json,
            None => !done && *final(value) == *old(value),
        },
{
    match value.as_object_mut() {
        Some(object) => {
            object.insert(name.to_owned(), member);
            true
        },
        None => false,
    }
}

proof fn lemma_collected_of_prefix(members: Seq<(Seq<char>, JsonView)>, n: int)
    requires
        0 <= n <= members.len(),
        distinct_names(members),
    ensures
        collected(members.take(n)) == members.take(n),
    decreases n,
{
    if n > 0 {
        lemma_collected_of_prefix(members, n - 1);
        assert(members.take(n).drop_last() =~= members.take(n - 1));
        assert(members.take(n).last() == members[n - 1]);
        lemma_position_of_absent(members.take(n - 1), members[n - 1].0);
        assert(members.take(n - 1).push(members[n - 1]) =~= members.take(n));
    }
}

proof fn lemma_position_of_absent(members: Seq<(Seq<char>, JsonView)>, name: Seq<char>)
    requires
        forall|i: int| 0 <= i < members.len() ==> (#[trigger] members[i]).0 != name,
    ensures
        member_position(members, name) == members.len(),
    decreases members.len(),
{
    if members.len() > 0 {
        assert forall|i: int| 0 <= i < members.skip(1).len() implies (#[trigger] members.skip(
            1,
        )[i]).0 != name by {
            assert(members.skip(1)[i] == members[i + 1]);
        }
        lemma_position_of_absent(members.skip(1), name);
    }
}

/// Whether no two members share a name.
pub open spec fn distinct_names(members: Seq<(Seq<char>, JsonView)>) -> bool {
    forall|i: int, j: int|
        0 <= i < j < members.len() ==> (#[trigger] members[i]).0 != (#[trigger] members[j]).0
}

/// Collecting members with pairwise distinct names keeps them as they are.
pub proof fn lemma_collected_distinct(members: Seq<(Seq<char>, JsonView)>)
    requires
        distinct_names(members),
    ensures
        collected(members) == members,
{
    lemma_collected_of_prefix(members, members.len() as int);
    assert(members.take(members.len() as int) =~= members);
}

/// A member's position is that of the first pair with its name.
proof fn lemma_position_of_first(members: Seq<(Seq<char>, JsonView)>, i: int)
    requires
        0 <= i < members.len(),
        forall|j: int| 0 <= j < i ==> (#[trigger] members[j]).0 != members[i].0,
    ensures
        member_position(members, members[i].0) == i,
    decreases i,
{
    if i > 0 {
        let rest = members.skip(1);
        assert(members[0].0 != members[i].0);
        assert(rest[i - 1] == members[i]);
        assert forall|j: int| 0 <= j < i - 1 implies (#[trigger] rest[j]).0 != rest[i - 1].0 by {
            assert(rest[j] == members[j + 1]);
        }
        lemma_position_of_first(rest, i - 1);
    }
}

/// In an object made of members with distinct names, each name has the value that was given with
/// it.
pub proof fn lemma_object_member(members: Seq<(Seq<char>, JsonView)>, i: int)
    requires
        distinct_names(members),
        0 <= i < members.len(),
    ensures
        member_of(object_json(members), members[i].0) == Some(members[i].1),
{
    lemma_collected_distinct(members);
    lemma_position_of_first(members, i);
}

/// What stands at a member's position has its name, and nothing before it has.
proof fn lemma_at_position(members: Seq<(Seq<char>, JsonView)>, name: Seq<char>)
    ensures
        0 <= member_position(members, name) <= members.len(),
        has_member(members, name) ==> members[member_position(members, name)].0 == name,
        forall|j: int|
            0 <= j < member_position(members, name) ==> (#[trigger] members[j]).0 != name,
    decreases members.len(),
{
    if members.len() > 0 && members[0].0 != name {
        let rest = members.skip(1);
        lemma_at_position(rest, name);
        let at = member_position(rest, name);
        assert(at < rest.len() ==> members[at + 1] == rest[at]);
        assert forall|j: int| 0 <= j < at + 1 implies (#[trigger] members[j]).0 != name by {
            if j > 0 {
                assert(members[j] == rest[j - 1]);
            }
        }
    }
}

/// Setting one member of an object gives it the value and leaves every other member as it was.
pub proof fn law_setting_a_member_leaves_the_others(
    json: JsonView,
    name: Seq<char>,
    value: JsonView,
    other: Seq<char>,
)
    ensures
        json is Object <==> inserted(json, name, value) is Some,
        inserted(json, name, value) matches Some(after) ==> {
            &&& after is Object
            &&& member_of(after, name) == Some(value)
            &&& other != name ==> member_of(after, other) == member_of(json, other)
        },
{
    if let JsonView::Object(members) = json {
        let after = with_member(members, name, value);
        lemma_at_position(members, name);
        lemma_at_position(members, other);
        let at = if has_member(members, name) {
            member_position(members, name)
        } else {
            members.len() as int
        };
        assert(after[at] == (name, value));
        lemma_position_of_first(after, at);
        if other != name {
            if has_member(members, other) {
                let place = member_position(members, other);
                assert(after[place] == members[place]);
                assert forall|j: int| 0 <= j < place implies (#[trigger] after[j]).0
                    != after[place].0 by {
                    assert(members[j].0 != other);
                }
                lemma_position_of_first(after, place);
            } else {
                assert forall|j: int| 0 <= j < after.len() implies (#[trigger] after[j]).0
                    != other by {
                    if j < members.len() {
                        assert(members[j].0 != other);
                    }
                }
                lemma_position_of_absent(after, other);
            }
        }
    }
}

} // verus!
