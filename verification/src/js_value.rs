//! The public form of the values that an evaluated expression gives.

use serde_json::Value;
use vstd::prelude::*;
use vstd::string::*;
use vstd::utf8::*;

use crate::json::{
    clone_value, distinct_names, items_json, lemma_collected_distinct, member_of, members_json,
    object_json, text_value, value_json, value_of, JsonView, NewValue,
};
use crate::text::same_text;

verus! {

/// A value of the page's scripts. A finite number is kept as its JSON value, any other as its text.
#[derive(Debug)]
pub enum JsValue {
    Undefined,
    Null,
    Boolean(bool),
    Number(Value),
    NonFiniteNumber(String),
    Text(String),
    Element(String),
    ShadowRoot(String),
    Frame(String),
    Window(String),
    Array(Vec<JsValue>),
    Object(Vec<(String, JsValue)>),
}

/// Whether one byte string comes before another.
pub open spec fn lex_less(a: Seq<u8>, b: Seq<u8>) -> bool
    decreases a.len(),
{
    if b.len() == 0 {
        false
    } else if a.len() == 0 {
        true
    } else if a[0] != b[0] {
        a[0] < b[0]
    } else {
        lex_less(a.skip(1), b.skip(1))
    }
}

/// Whether one text comes before another, by bytes.
pub open spec fn text_less(a: Seq<char>, b: Seq<char>) -> bool {
    lex_less(encode_utf8(a), encode_utf8(b))
}

/// The members with one more at its place in the order of the names; an equal name is replaced.
pub open spec fn ordered_insert(
    members: Seq<(Seq<char>, JsonView)>,
    name: Seq<char>,
    json: JsonView,
) -> Seq<(Seq<char>, JsonView)>
    decreases members.len(),
{
    if members.len() == 0 {
        seq![(name, json)]
    } else if members[0].0 == name {
        seq![(name, json)] + members.skip(1)
    } else if text_less(name, members[0].0) {
        seq![(name, json)] + members
    } else {
        seq![members[0]] + ordered_insert(members.skip(1), name, json)
    }
}

/// The tag of a value.
pub open spec fn js_tag(value: JsValue) -> Seq<char> {
    match value {
        JsValue::Undefined => "undefined"@,
        JsValue::Null => "null"@,
        JsValue::Boolean(_) => "boolean"@,
        JsValue::Number(_) => "number"@,
        JsValue::NonFiniteNumber(_) => "non_finite_number"@,
        JsValue::Text(_) => "string"@,
        JsValue::Element(_) => "element"@,
        JsValue::ShadowRoot(_) => "shadow_root"@,
        JsValue::Frame(_) => "frame"@,
        JsValue::Window(_) => "window"@,
        JsValue::Array(_) => "array"@,
        JsValue::Object(_) => "object"@,
    }
}

/// A tagged JSON object, with its value where there is one.
pub open spec fn tagged(tag: Seq<char>, name: Seq<char>, json: Option<JsonView>) -> JsonView {
    let kind = ("kind"@, JsonView::Text(tag));
    object_json(
        match json {
            Some(json) => seq![kind, (name, json)],
            None => seq![kind],
        },
    )
}

/// The public form of a value. Its own members never mix with the tag.
pub open spec fn js_json(value: JsValue) -> JsonView
    decreases value,
{
    let tag = js_tag(value);
    match value {
        JsValue::Undefined => tagged(tag, "value"@, None),
        JsValue::Null => tagged(tag, "value"@, None),
        JsValue::Boolean(b) => tagged(tag, "value"@, Some(JsonView::Bool(b))),
        JsValue::Number(number) => tagged(tag, "value"@, Some(value_json(number))),
        JsValue::NonFiniteNumber(text) => tagged(tag, "value"@, Some(JsonView::Text(text@))),
        JsValue::Text(text) => tagged(tag, "value"@, Some(JsonView::Text(text@))),
        JsValue::Element(text) => tagged(tag, "reference"@, Some(JsonView::Text(text@))),
        JsValue::ShadowRoot(text) => tagged(tag, "reference"@, Some(JsonView::Text(text@))),
        JsValue::Frame(text) => tagged(tag, "reference"@, Some(JsonView::Text(text@))),
        JsValue::Window(text) => tagged(tag, "reference"@, Some(JsonView::Text(text@))),
        JsValue::Array(values) => tagged(tag, "value"@, Some(JsonView::Array(js_items(values@)))),
        JsValue::Object(values) => tagged(
            tag,
            "value"@,
            Some(JsonView::Object(js_members(values@))),
        ),
    }
}

/// The public forms of a list of values.
pub open spec fn js_items(values: Seq<JsValue>) -> Seq<JsonView>
    decreases values,
{
    if values.len() == 0 {
        seq![]
    } else {
        js_items(values.drop_last()).push(js_json(values.last()))
    }
}

/// The public forms of an object's members, in the order of their names.
pub open spec fn js_members(values: Seq<(String, JsValue)>) -> Seq<(Seq<char>, JsonView)>
    decreases values,
{
    if values.len() == 0 {
        seq![]
    } else {
        ordered_insert(js_members(values.drop_last()), values.last().0@, js_json(values.last().1))
    }
}

fn is_less(a: &str, b: &str) -> (r: bool)
    ensures
        r == text_less(a@, b@),
{
    let left = a.as_bytes();
    let right = b.as_bytes();
    let mut i: usize = 0;
    assert(left@.skip(0) =~= left@);
    assert(right@.skip(0) =~= right@);
    while i < left.len() && i < right.len()
        invariant
            left@ == encode_utf8(a@),
            right@ == encode_utf8(b@),
            i <= left.len(),
            i <= right.len(),
            lex_less(left@, right@) == lex_less(left@.skip(i as int), right@.skip(i as int)),
        decreases left.len() - i,
    {
        assert(left@.skip(i as int)[0] == left[i as int]);
        assert(right@.skip(i as int)[0] == right[i as int]);
        if left[i] != right[i] {
            return left[i] < right[i];
        }
        assert(left@.skip(i as int).skip(1) =~= left@.skip(i + 1));
        assert(right@.skip(i as int).skip(1) =~= right@.skip(i + 1));
        i = i + 1;
    }
    i < right.len()
}

proof fn lemma_insert_behind(
    members: Seq<(Seq<char>, JsonView)>,
    name: Seq<char>,
    json: JsonView,
    n: int,
)
    requires
        0 <= n <= members.len(),
        forall|j: int|
            0 <= j < n ==> (#[trigger] members[j]).0 != name && !text_less(name, members[j].0),
    ensures
        ordered_insert(members, name, json) == members.take(n) + ordered_insert(
            members.skip(n),
            name,
            json,
        ),
    decreases n,
{
    if n == 0 {
        assert(members.skip(0) =~= members);
        assert(ordered_insert(members, name, json) =~= members.take(0) + ordered_insert(
            members.skip(0),
            name,
            json,
        ));
    } else {
        assert(members[0].0 != name && !text_less(name, members[0].0));
        let rest = members.skip(1);
        assert forall|j: int| 0 <= j < n - 1 implies (#[trigger] rest[j]).0 != name && !text_less(
            name,
            rest[j].0,
        ) by {
            assert(rest[j] == members[j + 1]);
        }
        lemma_insert_behind(rest, name, json, n - 1);
        assert(rest.skip(n - 1) =~= members.skip(n));
        assert(seq![members[0]] + rest.take(n - 1) =~= members.take(n));
        assert(seq![members[0]] + (rest.take(n - 1) + ordered_insert(members.skip(n), name, json))
            =~= members.take(n) + ordered_insert(members.skip(n), name, json));
    }
}

fn insert_ordered(members: &mut Vec<(String, Value)>, name: String, value: Value)
    ensures
        members_json(final(members)@) == ordered_insert(
            members_json(old(members)@),
            name@,
            value_json(value),
        ),
{
    let ghost all = members_json(members@);
    let ghost added = (name@, value_json(value));
    let mut i: usize = 0;
    while i < members.len()
        invariant
            i <= members.len(),
            members@ == old(members)@,
            all == members_json(members@),
            added == (name@, value_json(value)),
            forall|j: int|
                0 <= j < i ==> (#[trigger] all[j]).0 != name@ && !text_less(name@, all[j].0),
        decreases members.len() - i,
    {
        assert(all[i as int] == (members[i as int].0@, value_json(members[i as int].1)));
        assert(all.skip(i as int)[0] == all[i as int]);
        if same_text(members[i].0.as_str(), name.as_str()) {
            proof {
                lemma_insert_behind(all, name@, value_json(value), i as int);
                assert(all.skip(i as int).skip(1) =~= all.skip(i + 1));
            }
            members.set(i, (name, value));
            assert(members_json(members@) =~= all.take(i as int) + (seq![added] + all.skip(i + 1)));
            return;
        }
        if is_less(name.as_str(), members[i].0.as_str()) {
            proof {
                lemma_insert_behind(all, name@, value_json(value), i as int);
            }
            members.insert(i, (name, value));
            assert(members_json(members@) =~= all.take(i as int) + (seq![added] + all.skip(
                i as int,
            )));
            return;
        }
        i = i + 1;
    }
    proof {
        lemma_insert_behind(all, name@, value_json(value), i as int);
        assert(all.skip(i as int).len() == 0);
    }
    members.push((name, value));
    assert(members_json(members@) =~= all.take(i as int) + seq![added]);
}

fn tagged_value(tag: &str, name: &str, value: Option<Value>) -> (r: Value)
    ensures
        value_json(r) == tagged(
            tag@,
            name@,
            match value {
                Some(value) => Some(value_json(value)),
                None => None,
            },
        ),
{
    let ghost kind = ("kind"@, JsonView::Text(tag@));
    match value {
        Some(value) => {
            let ghost inner = value_json(value);
            let members = vec![("kind".to_owned(), text_value(tag)), (name.to_owned(), value)];
            assert(members_json(members@) =~= seq![kind, (name@, inner)]);
            value_of(NewValue::Object(members))
        },
        None => {
            let members = vec![("kind".to_owned(), text_value(tag))];
            assert(members_json(members@) =~= seq![kind]);
            value_of(NewValue::Object(members))
        },
    }
}

fn items_value(values: &Vec<JsValue>) -> (value: Value)
    ensures
        value_json(value) == JsonView::Array(js_items(values@)),
    decreases values@,
{
    let mut items: Vec<Value> = Vec::new();
    let mut i: usize = 0;
    assert(items_json(items@) =~= js_items(values@.take(0)));
    while i < values.len()
        invariant
            i <= values.len(),
            items_json(items@) == js_items(values@.take(i as int)),
        decreases values.len() - i,
    {
        let ghost before = items@;
        assert(values@.take(i + 1).drop_last() =~= values@.take(i as int));
        assert(values@.take(i + 1).last() == values@[i as int]);
        items.push(js_value_to_json(&values[i]));
        assert(items_json(items@) =~= items_json(before).push(js_json(values@[i as int])));
        i = i + 1;
    }
    assert(values@.take(i as int) =~= values@);
    value_of(NewValue::Array(items))
}

fn members_value(values: &Vec<(String, JsValue)>) -> (members: Vec<(String, Value)>)
    ensures
        members_json(members@) == js_members(values@),
    decreases values@,
{
    let mut members: Vec<(String, Value)> = Vec::new();
    let mut i: usize = 0;
    assert(members_json(members@) =~= js_members(values@.take(0)));
    while i < values.len()
        invariant
            i <= values.len(),
            members_json(members@) == js_members(values@.take(i as int)),
        decreases values.len() - i,
    {
        assert(values@.take(i + 1).drop_last() =~= values@.take(i as int));
        assert(values@.take(i + 1).last() == values@[i as int]);
        assert(decreases_to!(values@ => values@[i as int]));
        assert(decreases_to!(values@[i as int] => values@[i as int].1));
        let value = js_value_to_json(&values[i].1);
        insert_ordered(&mut members, values[i].0.clone(), value);
        i = i + 1;
    }
    assert(values@.take(i as int) =~= values@);
    members
}

/// The public form of a value.
pub fn js_value_to_json(value: &JsValue) -> (r: Value)
    ensures
        value_json(r) == js_json(*value),
    decreases value,
{
    match value {
        JsValue::Undefined => tagged_value("undefined", "value", None),
        JsValue::Null => tagged_value("null", "value", None),
        JsValue::Boolean(b) => tagged_value("boolean", "value", Some(value_of(NewValue::Bool(*b)))),
        JsValue::Number(number) => tagged_value("number", "value", Some(clone_value(number))),
        JsValue::NonFiniteNumber(text) => tagged_value(
            "non_finite_number",
            "value",
            Some(text_value(text.as_str())),
        ),
        JsValue::Text(text) => tagged_value("string", "value", Some(text_value(text.as_str()))),
        JsValue::Element(text) => tagged_value(
            "element",
            "reference",
            Some(text_value(text.as_str())),
        ),
        JsValue::ShadowRoot(text) => tagged_value(
            "shadow_root",
            "reference",
            Some(text_value(text.as_str())),
        ),
        JsValue::Frame(text) => tagged_value("frame", "reference", Some(text_value(text.as_str()))),
        JsValue::Window(text) => tagged_value(
            "window",
            "reference",
            Some(text_value(text.as_str())),
        ),
        JsValue::Array(values) => {
            assert(decreases_to!(value => values));
            assert(decreases_to!(values => values@));
            tagged_value("array", "value", Some(items_value(values)))
        },
        JsValue::Object(values) => {
            assert(decreases_to!(value => values));
            assert(decreases_to!(values => values@));
            let members = members_value(values);
            proof {
                law_member_names_ascend(values@);
                lemma_ascending_names_are_distinct(js_members(values@));
                lemma_collected_distinct(js_members(values@));
            }
            tagged_value("object", "value", Some(value_of(NewValue::Object(members))))
        },
    }
}

/// Whether the names of members ascend.
pub open spec fn ascends(members: Seq<(Seq<char>, JsonView)>) -> bool {
    forall|i: int, j: int|
        0 <= i < j < members.len() ==> text_less(
            (#[trigger] members[i]).0,
            (#[trigger] members[j]).0,
        )
}

proof fn lemma_less_is_irreflexive(a: Seq<u8>)
    ensures
        !lex_less(a, a),
    decreases a.len(),
{
    if a.len() > 0 {
        lemma_less_is_irreflexive(a.skip(1));
    }
}

proof fn lemma_less_is_transitive(a: Seq<u8>, b: Seq<u8>, c: Seq<u8>)
    requires
        lex_less(a, b),
        lex_less(b, c),
    ensures
        lex_less(a, c),
    decreases a.len(),
{
    if a.len() > 0 && a[0] == b[0] && b[0] == c[0] {
        lemma_less_is_transitive(a.skip(1), b.skip(1), c.skip(1));
    }
}

proof fn lemma_less_is_total(a: Seq<u8>, b: Seq<u8>)
    ensures
        a == b || lex_less(a, b) || lex_less(b, a),
    decreases a.len(),
{
    if a.len() > 0 && b.len() > 0 && a[0] == b[0] {
        lemma_less_is_total(a.skip(1), b.skip(1));
        if a.skip(1) == b.skip(1) {
            assert(a =~= seq![a[0]] + a.skip(1));
            assert(b =~= seq![b[0]] + b.skip(1));
        }
    } else if a.len() == 0 && b.len() == 0 {
        assert(a =~= b);
    }
}

proof fn lemma_texts_are_ordered(a: Seq<char>, b: Seq<char>)
    ensures
        a == b || text_less(a, b) || text_less(b, a),
{
    lemma_less_is_total(encode_utf8(a), encode_utf8(b));
    encode_utf8_decode_utf8(a);
    encode_utf8_decode_utf8(b);
}

proof fn lemma_insert_ascends(members: Seq<(Seq<char>, JsonView)>, name: Seq<char>, json: JsonView)
    requires
        ascends(members),
    ensures
        ascends(ordered_insert(members, name, json)),
        forall|i: int|
            0 <= i < ordered_insert(members, name, json).len() ==> {
                ||| (#[trigger] ordered_insert(members, name, json)[i]).0 == name
                ||| exists|j: int|
                    0 <= j < members.len() && ordered_insert(members, name, json)[i].0 == (
                    #[trigger] members[j]).0
            },
    decreases members.len(),
{
    let after = ordered_insert(members, name, json);
    if members.len() == 0 {
    } else if members[0].0 == name {
        assert forall|i: int| 0 <= i < after.len() implies {
            ||| (#[trigger] after[i]).0 == name
            ||| exists|j: int| 0 <= j < members.len() && after[i].0 == (#[trigger] members[j]).0
        } by {
            assert(after[i].0 == members[i].0);
        }
        assert forall|i: int, j: int| 0 <= i < j < after.len() implies text_less(
            (#[trigger] after[i]).0,
            (#[trigger] after[j]).0,
        ) by {
            assert(after[i].0 == members[i].0);
            assert(after[j].0 == members[j].0);
        }
    } else if text_less(name, members[0].0) {
        assert forall|i: int| 0 <= i < after.len() implies {
            ||| (#[trigger] after[i]).0 == name
            ||| exists|j: int| 0 <= j < members.len() && after[i].0 == (#[trigger] members[j]).0
        } by {
            if i > 0 {
                assert(after[i].0 == members[i - 1].0);
            }
        }
        assert forall|i: int, j: int| 0 <= i < j < after.len() implies text_less(
            (#[trigger] after[i]).0,
            (#[trigger] after[j]).0,
        ) by {
            assert(after[j] == members[j - 1]);
            if i == 0 {
                if j > 1 {
                    assert(text_less(members[0].0, members[j - 1].0));
                    lemma_less_is_transitive(
                        encode_utf8(name),
                        encode_utf8(members[0].0),
                        encode_utf8(members[j - 1].0),
                    );
                }
            } else {
                assert(after[i] == members[i - 1]);
            }
        }
    } else {
        lemma_texts_are_ordered(name, members[0].0);
        let rest = members.skip(1);
        assert forall|i: int, j: int| 0 <= i < j < rest.len() implies text_less(
            (#[trigger] rest[i]).0,
            (#[trigger] rest[j]).0,
        ) by {
            assert(rest[i] == members[i + 1]);
            assert(rest[j] == members[j + 1]);
        }
        lemma_insert_ascends(rest, name, json);
        let inner = ordered_insert(rest, name, json);
        assert forall|i: int| 0 <= i < after.len() implies {
            ||| (#[trigger] after[i]).0 == name
            ||| exists|j: int| 0 <= j < members.len() && after[i].0 == (#[trigger] members[j]).0
        } by {
            if i == 0 {
                assert(after[0] == members[0]);
            } else {
                assert(after[i] == inner[i - 1]);
                if inner[i - 1].0 != name {
                    let j = choose|j: int|
                        0 <= j < rest.len() && inner[i - 1].0 == (#[trigger] rest[j]).0;
                    assert(rest[j] == members[j + 1]);
                }
            }
        }
        assert forall|i: int, j: int| 0 <= i < j < after.len() implies text_less(
            (#[trigger] after[i]).0,
            (#[trigger] after[j]).0,
        ) by {
            assert(after[j] == inner[j - 1]);
            if i == 0 {
                assert(after[0] == members[0]);
                if inner[j - 1].0 != name {
                    let k = choose|k: int|
                        0 <= k < rest.len() && inner[j - 1].0 == (#[trigger] rest[k]).0;
                    assert(rest[k] == members[k + 1]);
                    assert(text_less(members[0].0, members[k + 1].0));
                }
            } else {
                assert(after[i] == inner[i - 1]);
            }
        }
    }
}

/// The members of an object come out in ascending order of their names, whatever order they were
/// found in.
pub proof fn law_member_names_ascend(values: Seq<(String, JsValue)>)
    ensures
        ascends(js_members(values)),
    decreases values.len(),
{
    if values.len() > 0 {
        law_member_names_ascend(values.drop_last());
        lemma_insert_ascends(
            js_members(values.drop_last()),
            values.last().0@,
            js_json(values.last().1),
        );
    }
}

proof fn lemma_ascending_names_are_distinct(members: Seq<(Seq<char>, JsonView)>)
    requires
        ascends(members),
    ensures
        distinct_names(members),
{
    assert forall|i: int, j: int| 0 <= i < j < members.len() implies (#[trigger] members[i]).0 != (
    #[trigger] members[j]).0 by {
        lemma_less_is_irreflexive(encode_utf8(members[i].0));
    }
}

proof fn lemma_tag_comes_first(tag: Seq<char>, name: Seq<char>, json: Option<JsonView>)
    requires
        name == "value"@ || name == "reference"@,
    ensures
        member_of(tagged(tag, name, json), "kind"@) == Some(JsonView::Text(tag)),
{
    reveal_strlit("kind");
    reveal_strlit("value");
    reveal_strlit("reference");
    let kind = ("kind"@, JsonView::Text(tag));
    let members = match json {
        Some(json) => seq![kind, (name, json)],
        None => seq![kind],
    };
    assert("kind"@.len() == 4);
    assert(name.len() != 4);
    assert(distinct_names(members));
    lemma_collected_distinct(members);
    assert(members[0] == kind);
}

/// Every value carries its tag, also an object with a member of the tag's name.
pub proof fn law_every_value_carries_its_tag(value: JsValue)
    ensures
        member_of(js_json(value), "kind"@) == Some(JsonView::Text(js_tag(value))),
{
    let tag = js_tag(value);
    match value {
        JsValue::Undefined => lemma_tag_comes_first(tag, "value"@, None),
        JsValue::Null => lemma_tag_comes_first(tag, "value"@, None),
        JsValue::Boolean(b) => lemma_tag_comes_first(tag, "value"@, Some(JsonView::Bool(b))),
        JsValue::Number(number) => lemma_tag_comes_first(tag, "value"@, Some(value_json(number))),
        JsValue::NonFiniteNumber(text) => lemma_tag_comes_first(
            tag,
            "value"@,
            Some(JsonView::Text(text@)),
        ),
        JsValue::Text(text) => lemma_tag_comes_first(tag, "value"@, Some(JsonView::Text(text@))),
        JsValue::Element(text) => lemma_tag_comes_first(
            tag,
            "reference"@,
            Some(JsonView::Text(text@)),
        ),
        JsValue::ShadowRoot(text) => lemma_tag_comes_first(
            tag,
            "reference"@,
            Some(JsonView::Text(text@)),
        ),
        JsValue::Frame(text) => lemma_tag_comes_first(
            tag,
            "reference"@,
            Some(JsonView::Text(text@)),
        ),
        JsValue::Window(text) => lemma_tag_comes_first(
            tag,
            "reference"@,
            Some(JsonView::Text(text@)),
        ),
        JsValue::Array(values) => lemma_tag_comes_first(
            tag,
            "value"@,
            Some(JsonView::Array(js_items(values@))),
        ),
        JsValue::Object(values) => lemma_tag_comes_first(
            tag,
            "value"@,
            Some(JsonView::Object(js_members(values@))),
        ),
    }
}

} // verus!
