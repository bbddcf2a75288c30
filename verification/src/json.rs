//! JSON documents.

use crate::text::same_text;
use vstd::prelude::*;

verus! {

/// The contents of a JSON value. A number is held as the text that it is written as.
pub enum Json {
    Null,
    Bool(bool),
    Number(Seq<char>),
    Text(Seq<char>),
    Array(Seq<Json>),
    Object(Seq<(Seq<char>, Json)>),
}

/// A JSON value. A number is held as the text that it is written as. The members of an
/// object stand in the order in which its map gives them.
#[derive(Debug, PartialEq, Eq)]
pub enum JsonValue {
    Null,
    Bool(bool),
    Number(String),
    Text(String),
    Array(Vec<JsonValue>),
    Object(Vec<(String, JsonValue)>),
}

impl View for JsonValue {
    type V = Json;

    open spec fn view(&self) -> Json
        decreases self,
    {
        match self {
            JsonValue::Null => Json::Null,
            JsonValue::Bool(b) => Json::Bool(*b),
            JsonValue::Number(n) => Json::Number(n@),
            JsonValue::Text(s) => Json::Text(s@),
            JsonValue::Array(items) => Json::Array(
                Seq::new(
                    items@.len(),
                    |i: int|
                        if 0 <= i < items@.len() {
                            items@[i].view()
                        } else {
                            Json::Null
                        },
                ),
            ),
            JsonValue::Object(members) => Json::Object(
                Seq::new(
                    members@.len(),
                    |i: int|
                        if 0 <= i < members@.len() {
                            (members@[i].0@, members@[i].1.view())
                        } else {
                            (Seq::empty(), Json::Null)
                        },
                ),
            ),
        }
    }
}

/// The member of an object that has this key, the first one if there are more.
pub open spec fn member_at(members: Seq<(Seq<char>, Json)>, key: Seq<char>) -> Option<Json>
    decreases members.len(),
{
    if members.len() == 0 {
        None
    } else if members[0].0 == key {
        Some(members[0].1)
    } else {
        member_at(members.drop_first(), key)
    }
}

impl Json {
    /// The member with this key; only objects have members.
    pub open spec fn member(self, key: Seq<char>) -> Option<Json> {
        match self {
            Json::Object(members) => member_at(members, key),
            _ => None,
        }
    }

    /// The text that this value is, if it is one.
    pub open spec fn as_text(self) -> Option<Seq<char>> {
        match self {
            Json::Text(text) => Some(text),
            _ => None,
        }
    }

    /// The text that the member with this key is, if there is one and it is text.
    pub open spec fn text_member(self, key: Seq<char>) -> Option<Seq<char>> {
        match self.member(key) {
            Some(member) => member.as_text(),
            None => None,
        }
    }
}

/// The members of an object are those of its contents.
pub proof fn object_contents(value: JsonValue)
    requires
        value is Object,
    ensures
        value@ is Object,
        value@->Object_0.len() == value->Object_0@.len(),
        forall|i: int|
            0 <= i < value->Object_0@.len() ==> #[trigger] value@->Object_0[i] == (
                value->Object_0@[i].0@,
                value->Object_0@[i].1@,
            ),
{
    reveal_with_fuel(<JsonValue as View>::view, 2);
    let members = value->Object_0;
    assert(value == JsonValue::Object(members));
    assert(value@->Object_0.len() == members@.len());
}

/// A value of `serde_json`.
#[verifier::external_type_specification]
#[verifier::external_body]
pub struct ExValue(serde_json::Value);

/// The error of `serde_json`.
#[verifier::external_type_specification]
#[verifier::external_body]
pub struct ExError(serde_json::Error);

/// What a `serde_json::Value` holds.
pub uninterp spec fn json_contents(value: serde_json::Value) -> Json;

/// The document that some bytes are, where `serde_json` takes them for one.
pub uninterp spec fn json_document(bytes: Seq<u8>) -> Option<Json>;

/// `serde_json::from_slice` reads a JSON document and fails on bytes that are none.
/// What it reads depends on the bytes alone; the name [`json_document`] stands for it.
#[verifier::external_body]
pub(crate) fn read_document(bytes: &[u8]) -> (r: Result<serde_json::Value, serde_json::Error>)
    ensures
        match r {
            Ok(value) => json_document(bytes@) == Some(json_contents(value)),
            Err(_) => json_document(bytes@) is None,
        },
{
    serde_json::from_slice::<serde_json::Value>(bytes)
}

/// One level of a `serde_json::Value`.
enum Level<'a> {
    Null,
    Bool(bool),
    Number(String),
    Text(&'a String),
    Array(&'a Vec<serde_json::Value>),
    Object(Vec<(&'a String, &'a serde_json::Value)>),
}

/// What one level of a value says of its contents.
spec fn level_contents<'a>(level: Level<'a>) -> Json {
    match level {
        Level::Null => Json::Null,
        Level::Bool(b) => Json::Bool(b),
        Level::Number(n) => Json::Number(n@),
        Level::Text(s) => Json::Text(s@),
        Level::Array(items) => Json::Array(
            items@.map_values(|item: serde_json::Value| json_contents(item)),
        ),
        Level::Object(members) => Json::Object(
            members@.map_values(
                |member: (&'a String, &'a serde_json::Value)|
                    (member.0@, json_contents(*member.1)),
            ),
        ),
    }
}

/// Takes one level of a `serde_json::Value` apart: which variant it is, and what that
/// holds. A number is written out as its `Display` writes it. The members of an object
/// are those that `serde_json::Map::iter` gives, in its order.
#[verifier::external_body]
fn open_level<'a>(value: &'a serde_json::Value) -> (r: Level<'a>)
    ensures
        level_contents(r) == json_contents(*value),
{
    match value {
        serde_json::Value::Null => Level::Null,
        serde_json::Value::Bool(b) => Level::Bool(*b),
        serde_json::Value::Number(n) => Level::Number(n.to_string()),
        serde_json::Value::String(s) => Level::Text(s),
        serde_json::Value::Array(items) => Level::Array(items),
        serde_json::Value::Object(members) => Level::Object(members.iter().collect()),
    }
}

impl JsonValue {
    /// The value that a `serde_json::Value` holds.
    pub fn from_value(value: &serde_json::Value) -> (r: JsonValue)
        ensures
            r@ == json_contents(*value),
        decreases json_contents(*value),
    {
        match open_level(value) {
            Level::Null => JsonValue::Null,
            Level::Bool(b) => JsonValue::Bool(b),
            Level::Number(n) => JsonValue::Number(n),
            Level::Text(s) => JsonValue::Text(s.clone()),
            Level::Array(items) => {
                let mut r: Vec<JsonValue> = Vec::new();
                let mut i: usize = 0;
                while i < items.len()
                    invariant
                        0 <= i <= items@.len(),
                        r@.len() == i,
                        json_contents(*value) == Json::Array(
                            items@.map_values(|item: serde_json::Value| json_contents(item)),
                        ),
                        forall|j: int|
                            0 <= j < i ==> (#[trigger] r@[j])@ == json_contents(items@[j]),
                    decreases items@.len() - i,
                {
                    proof {
                        let contents = items@.map_values(
                            |item: serde_json::Value| json_contents(item),
                        );
                        assert(contents[i as int] == json_contents(items@[i as int]));
                        let whole = json_contents(*value);
                        assert(decreases_to!(whole => whole->Array_0));
                        assert(decreases_to!(whole->Array_0 => whole->Array_0[i as int]));
                    }
                    r.push(JsonValue::from_value(&items[i]));
                    i = i + 1;
                }
                let r = JsonValue::Array(r);
                assert(r@->Array_0 =~= json_contents(*value)->Array_0);
                r
            },
            Level::Object(members) => {
                let mut r: Vec<(String, JsonValue)> = Vec::new();
                let mut i: usize = 0;
                let ghost contents = members@.map_values(
                    |member: (&String, &serde_json::Value)| (member.0@, json_contents(*member.1)),
                );
                while i < members.len()
                    invariant
                        0 <= i <= members@.len(),
                        r@.len() == i,
                        json_contents(*value) == Json::Object(contents),
                        contents.len() == members@.len(),
                        forall|j: int|
                            0 <= j < members@.len() ==> #[trigger] contents[j] == (
                                members@[j].0@,
                                json_contents(*members@[j].1),
                            ),
                        forall|j: int|
                            0 <= j < i ==> (#[trigger] r@[j]).0@ == contents[j].0 && r@[j].1@
                                == contents[j].1,
                    decreases members@.len() - i,
                {
                    proof {
                        let whole = json_contents(*value);
                        assert(decreases_to!(whole => whole->Object_0));
                        assert(decreases_to!(whole->Object_0 => whole->Object_0[i as int]));
                        assert(decreases_to!(whole->Object_0[i as int] => contents[i as int].1));
                    }
                    let (key, member) = members[i];
                    r.push((key.clone(), JsonValue::from_value(member)));
                    i = i + 1;
                }
                let r = JsonValue::Object(r);
                assert(r@->Object_0 =~= contents);
                r
            },
        }
    }

    /// The member with this key; only objects have members.
    pub fn member(&self, key: &str) -> (r: Option<&JsonValue>)
        ensures
            match r {
                Some(member) => self@.member(key@) == Some(member@),
                None => self@.member(key@) is None,
            },
    {
        match self {
            JsonValue::Object(members) => {
                let ghost all = self@->Object_0;
                let mut i: usize = 0;
                proof {
                    object_contents(*self);
                }
                assert(all.skip(0) =~= all);
                while i < members.len()
                    invariant
                        0 <= i <= members@.len(),
                        self@ == Json::Object(all),
                        all.len() == members@.len(),
                        forall|j: int|
                            0 <= j < members@.len() ==> #[trigger] all[j] == (
                                members@[j].0@,
                                members@[j].1@,
                            ),
                        member_at(all, key@) == member_at(all.skip(i as int), key@),
                    decreases members@.len() - i,
                {
                    assert(all.skip(i as int)[0] == all[i as int]);
                    if same_text(&members[i].0, key) {
                        return Some(&members[i].1);
                    }
                    assert(all.skip(i as int).drop_first() =~= all.skip(i + 1));
                    i = i + 1;
                }
                None
            },
            _ => None,
        }
    }

    /// The text that this value is, if it is one.
    pub fn as_text(&self) -> (r: Option<&str>)
        ensures
            match r {
                Some(text) => self@.as_text() == Some(text@),
                None => self@.as_text() is None,
            },
    {
        match self {
            JsonValue::Text(text) => Some(text.as_str()),
            _ => None,
        }
    }

    /// The text that the member with this key is, if there is one and it is text.
    pub fn text_member(&self, key: &str) -> (r: Option<&str>)
        ensures
            match r {
                Some(text) => self@.text_member(key@) == Some(text@),
                None => self@.text_member(key@) is None,
            },
    {
        match self.member(key) {
            Some(member) => member.as_text(),
            None => None,
        }
    }
}

/// The member with a key is the first that has it.
pub proof fn law_the_first_member_with_a_key_counts(
    members: Seq<(Seq<char>, Json)>,
    key: Seq<char>,
    at: int,
)
    requires
        0 <= at < members.len(),
        members[at].0 == key,
        forall|i: int| 0 <= i < at ==> (#[trigger] members[i]).0 != key,
    ensures
        Json::Object(members).member(key) == Some(members[at].1),
    decreases members.len(),
{
    if at > 0 {
        let rest = members.drop_first();
        assert(members[0].0 != key);
        assert forall|i: int| 0 <= i < at - 1 implies (#[trigger] rest[i]).0 != key by {
            assert(rest[i] == members[i + 1]);
        }
        law_the_first_member_with_a_key_counts(rest, key, at - 1);
    }
}

/// A value has no member with a key that no member of it has, and what is no object has no
/// member at all.
pub proof fn law_members_are_those_of_the_object(value: Json, key: Seq<char>)
    ensures
        !(value is Object) ==> value.member(key) is None,
        value matches Json::Object(members) ==> (value.member(key) is Some <==> exists|i: int|
            0 <= i < members.len() && (#[trigger] members[i]).0 == key),
{
    if let Json::Object(members) = value {
        member_has_the_key(members, key);
    }
}

proof fn member_has_the_key(members: Seq<(Seq<char>, Json)>, key: Seq<char>)
    ensures
        member_at(members, key) is Some <==> exists|i: int|
            0 <= i < members.len() && (#[trigger] members[i]).0 == key,
    decreases members.len(),
{
    if members.len() > 0 && members[0].0 != key {
        let rest = members.drop_first();
        member_has_the_key(rest, key);
        if member_at(rest, key) is Some {
            let j = choose|i: int| 0 <= i < rest.len() && (#[trigger] rest[i]).0 == key;
            assert(members[j + 1].0 == key);
        } else {
            assert forall|i: int| 0 <= i < members.len() implies (#[trigger] members[i]).0 != key by {
                if i > 0 {
                    assert(rest[i - 1] == members[i]);
                }
            }
        }
    } else if members.len() > 0 {
        assert(members[0].0 == key);
    }
}

/// Text is told as it is, and nothing else is told as text.
pub proof fn law_only_text_is_text(value: Json, key: Seq<char>)
    ensures
        value matches Json::Text(text) ==> value.as_text() == Some(text),
        !(value is Text) ==> value.as_text() is None,
        match value.member(key) {
            Some(Json::Text(text)) => value.text_member(key) == Some(text),
            _ => value.text_member(key) is None,
        },
{
}

/// A value is viewed as it is, level by level.
pub proof fn law_values_are_viewed_as_they_are(value: JsonValue)
    ensures
        value is Null ==> value@ == Json::Null,
        value matches JsonValue::Bool(b) ==> value@ == Json::Bool(b),
        value matches JsonValue::Number(n) ==> value@ == Json::Number(n@),
        value matches JsonValue::Text(text) ==> value@ == Json::Text(text@),
        value matches JsonValue::Array(items) ==> {
            &&& value@ is Array
            &&& value@->Array_0.len() == items@.len()
            &&& forall|i: int|
                0 <= i < items@.len() ==> #[trigger] value@->Array_0[i] == items@[i]@
        },
        value matches JsonValue::Object(members) ==> {
            &&& value@ is Object
            &&& value@->Object_0.len() == members@.len()
            &&& forall|i: int|
                0 <= i < members@.len() ==> #[trigger] value@->Object_0[i] == (
                    members@[i].0@,
                    members@[i].1@,
                )
        },
{
    reveal_with_fuel(<JsonValue as View>::view, 2);
    if value is Object {
        object_contents(value);
    }
}

} // verus!
