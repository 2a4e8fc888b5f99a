//! JSON documents as plain values. Reading a document from text and writing
//! one out are left to `serde_json`; what a request means and what a response
//! holds is decided on the values defined here.

use crate::text::same_text;
use vstd::prelude::*;

verus! {

/// A JSON number. Whole numbers are held as integers; a number with a
/// fraction or an exponent is held by its text.
#[derive(Debug)]
pub enum JsonNumber {
    Unsigned(u64),
    Negative(i64),
    Other(String),
}

/// A JSON document.
#[derive(Debug)]
pub enum Json {
    Null,
    Bool(bool),
    Number(JsonNumber),
    Text(String),
    Array(Vec<Json>),
    Object(Vec<Member>),
}

/// One member of a JSON object.
#[derive(Debug)]
pub struct Member {
    pub key: String,
    pub value: Json,
}

/// What a JSON number holds.
pub enum NumberValue {
    Unsigned(u64),
    Negative(i64),
    Other(Seq<char>),
}

/// What a JSON document holds.
pub enum JsonValue {
    Null,
    Bool(bool),
    Number(NumberValue),
    Text(Seq<char>),
    Array(Seq<JsonValue>),
    Object(Seq<(Seq<char>, JsonValue)>),
}

impl View for JsonNumber {
    type V = NumberValue;

    open spec fn view(&self) -> NumberValue {
        match self {
            JsonNumber::Unsigned(n) => NumberValue::Unsigned(*n),
            JsonNumber::Negative(n) => NumberValue::Negative(*n),
            JsonNumber::Other(text) => NumberValue::Other(text@),
        }
    }
}

/// What the document `doc` holds.
pub open spec fn value_of(doc: Json) -> JsonValue
    decreases doc,
{
    match doc {
        Json::Null => JsonValue::Null,
        Json::Bool(b) => JsonValue::Bool(b),
        Json::Number(n) => JsonValue::Number(n@),
        Json::Text(text) => JsonValue::Text(text@),
        Json::Array(items) => JsonValue::Array(
            Seq::new(
                items@.len(),
                |i: int|
                    if 0 <= i < items@.len() {
                        value_of(items@[i])
                    } else {
                        JsonValue::Null
                    },
            ),
        ),
        Json::Object(members) => JsonValue::Object(
            Seq::new(
                members@.len(),
                |i: int|
                    if 0 <= i < members@.len() {
                        (members@[i].key@, value_of(members@[i].value))
                    } else {
                        (Seq::empty(), JsonValue::Null)
                    },
            ),
        ),
    }
}

impl View for Json {
    type V = JsonValue;

    open spec fn view(&self) -> JsonValue {
        value_of(*self)
    }
}

/// The value of the first member named `key` among `members`, if there is one.
pub open spec fn find_member(members: Seq<(Seq<char>, JsonValue)>, key: Seq<char>) -> Option<
    JsonValue,
>
    decreases members.len(),
{
    if members.len() == 0 {
        None
    } else if members[0].0 == key {
        Some(members[0].1)
    } else {
        find_member(members.skip(1), key)
    }
}

impl JsonValue {
    /// The member named `key`, if this is an object that has one.
    pub open spec fn field(self, key: Seq<char>) -> Option<JsonValue> {
        match self {
            JsonValue::Object(members) => find_member(members, key),
            _ => None,
        }
    }

    /// The text, if this is a string.
    pub open spec fn as_text(self) -> Option<Seq<char>> {
        match self {
            JsonValue::Text(text) => Some(text),
            _ => None,
        }
    }

    /// The truth value, if this is one.
    pub open spec fn as_bool(self) -> Option<bool> {
        match self {
            JsonValue::Bool(value) => Some(value),
            _ => None,
        }
    }

    /// The number, if this is a whole number that is not negative and fits a
    /// `usize`.
    pub open spec fn as_count(self) -> Option<usize> {
        match self {
            JsonValue::Number(NumberValue::Unsigned(n)) => if n <= usize::MAX {
                Some(n as usize)
            } else {
                None
            },
            _ => None,
        }
    }

    /// The items, if this is an array.
    pub open spec fn as_items(self) -> Option<Seq<JsonValue>> {
        match self {
            JsonValue::Array(items) => Some(items),
            _ => None,
        }
    }
}

impl Json {
    /// What the items of an array hold, one for one.
    pub proof fn lemma_items(items: Vec<Json>)
        ensures
            Json::Array(items)@ is Array,
            Json::Array(items)@->Array_0.len() == items@.len(),
            forall|i: int|
                0 <= i < items@.len() ==> Json::Array(items)@->Array_0[i] == (#[trigger] items@[i])@,
    {
        reveal_with_fuel(value_of, 2);
    }

    /// What the members of an object hold, one for one.
    pub proof fn lemma_members(members: Vec<Member>)
        ensures
            Json::Object(members)@ is Object,
            Json::Object(members)@->Object_0.len() == members@.len(),
            forall|i: int|
                0 <= i < members@.len() ==> Json::Object(members)@->Object_0[i] == (
                    (#[trigger] members@[i]).key@,
                    members@[i].value@,
                ),
    {
        reveal_with_fuel(value_of, 2);
    }

    /// The member named `key`, if this is an object that has one.
    pub fn get(&self, key: &str) -> (found: Option<&Json>)
        ensures
            match found {
                Some(value) => self@.field(key@) == Some(value@),
                None => self@.field(key@) is None,
            },
    {
        match self {
            Json::Object(members) => {
                proof {
                    Json::lemma_members(*members);
                }
                let ghost shown = self@->Object_0;
                let mut i: usize = 0;
                proof {
                    assert(shown.skip(0) =~= shown);
                }
                while i < members.len()
                    invariant
                        i <= members.len(),
                        shown.len() == members@.len(),
                        self@ == JsonValue::Object(shown),
                        forall|k: int|
                            0 <= k < members@.len() ==> shown[k] == (
                                (#[trigger] members@[k]).key@,
                                members@[k].value@,
                            ),
                        find_member(shown, key@) == find_member(shown.skip(i as int), key@),
                    decreases members.len() - i,
                {
                    assert(shown.skip(i as int)[0] == shown[i as int]);
                    assert(shown[i as int].0 == members@[i as int].key@);
                    if same_text(members[i].key.as_str(), key) {
                        assert(find_member(shown.skip(i as int), key@) == Some(shown[i as int].1));
                        return Some(&members[i].value);
                    }
                    assert(shown.skip(i as int).skip(1) =~= shown.skip(i + 1));
                    i += 1;
                }
                None
            },
            _ => None,
        }
    }

    /// The text, if this is a string.
    pub fn as_str(&self) -> (text: Option<&str>)
        ensures
            match text {
                Some(text) => self@.as_text() == Some(text@),
                None => self@.as_text() is None,
            },
    {
        match self {
            Json::Text(text) => Some(text.as_str()),
            _ => None,
        }
    }

    /// The truth value, if this is one.
    pub fn as_bool(&self) -> (value: Option<bool>)
        ensures
            value == self@.as_bool(),
    {
        match self {
            Json::Bool(value) => Some(*value),
            _ => None,
        }
    }

    /// The number, if this is a whole number that is not negative and fits a
    /// `usize`.
    pub fn as_count(&self) -> (value: Option<usize>)
        ensures
            value == self@.as_count(),
    {
        match self {
            Json::Number(JsonNumber::Unsigned(n)) => {
                if *n <= usize::MAX as u64 {
                    Some(*n as usize)
                } else {
                    None
                }
            },
            _ => None,
        }
    }

    /// Whether this is `null`.
    pub fn is_null(&self) -> (null: bool)
        ensures
            null == (self@ is Null),
    {
        match self {
            Json::Null => true,
            _ => false,
        }
    }

    /// A string that holds `text`.
    pub fn text(text: &str) -> (doc: Json)
        ensures
            doc@ == JsonValue::Text(text@),
    {
        Json::Text(text.to_owned())
    }

    /// An object with the members given, in the order given.
    pub fn object(members: Vec<Member>) -> (doc: Json)
        ensures
            doc@ == JsonValue::Object(
                Seq::new(members@.len(), |i: int| (members@[i].key@, members@[i].value@)),
            ),
    {
        proof {
            Json::lemma_members(members);
            assert(Json::Object(members)@->Object_0 =~= Seq::new(
                members@.len(),
                |i: int| (members@[i].key@, members@[i].value@),
            ));
        }
        Json::Object(members)
    }

    /// An array with the items given, in the order given.
    pub fn array(items: Vec<Json>) -> (doc: Json)
        ensures
            doc@ == JsonValue::Array(Seq::new(items@.len(), |i: int| items@[i]@)),
    {
        proof {
            Json::lemma_items(items);
            assert(Json::Array(items)@->Array_0 =~= Seq::new(items@.len(), |i: int| items@[i]@));
        }
        Json::Array(items)
    }

    /// A copy of the document.
    pub fn duplicate(&self) -> (copy: Json)
        ensures
            copy@ == self@,
        decreases self,
    {
        match self {
            Json::Null => Json::Null,
            Json::Bool(value) => Json::Bool(*value),
            Json::Number(JsonNumber::Unsigned(n)) => Json::Number(JsonNumber::Unsigned(*n)),
            Json::Number(JsonNumber::Negative(n)) => Json::Number(JsonNumber::Negative(*n)),
            Json::Number(JsonNumber::Other(text)) => Json::Number(JsonNumber::Other(text.clone())),
            Json::Text(text) => Json::Text(text.clone()),
            Json::Array(items) => {
                let mut copies: Vec<Json> = Vec::new();
                let mut i: usize = 0;
                while i < items.len()
                    invariant
                        i <= items.len(),
                        *self == Json::Array(*items),
                        copies@.len() == i,
                        forall|k: int| 0 <= k < i ==> (#[trigger] copies@[k])@ == items@[k]@,
                    decreases items.len() - i,
                {
                    proof {
                        assert(decreases_to!(*self => self->Array_0));
                        assert(decreases_to!(self->Array_0 => self->Array_0@));
                        assert(decreases_to!(self->Array_0@ => self->Array_0@[i as int]));
                    }
                    copies.push(items[i].duplicate());
                    i += 1;
                }
                proof {
                    Json::lemma_items(*items);
                    Json::lemma_items(copies);
                    assert(Json::Array(copies)@->Array_0 =~= Json::Array(*items)@->Array_0);
                }
                Json::Array(copies)
            },
            Json::Object(members) => {
                let mut copies: Vec<Member> = Vec::new();
                let mut i: usize = 0;
                while i < members.len()
                    invariant
                        i <= members.len(),
                        *self == Json::Object(*members),
                        copies@.len() == i,
                        forall|k: int|
                            0 <= k < i ==> (#[trigger] copies@[k]).key@ == members@[k].key@
                                && copies@[k].value@ == members@[k].value@,
                    decreases members.len() - i,
                {
                    proof {
                        assert(decreases_to!(*self => self->Object_0));
                        assert(decreases_to!(self->Object_0 => self->Object_0@));
                        assert(decreases_to!(self->Object_0@ => self->Object_0@[i as int]));
                        assert(decreases_to!(self->Object_0@[i as int] => self->Object_0@[i as int].value));
                    }
                    copies.push(
                        Member { key: members[i].key.clone(), value: members[i].value.duplicate() },
                    );
                    i += 1;
                }
                proof {
                    Json::lemma_members(*members);
                    Json::lemma_members(copies);
                    assert(Json::Object(copies)@->Object_0 =~= Json::Object(*members)@->Object_0);
                }
                Json::Object(copies)
            },
        }
    }
}

impl Member {
    /// A member named `key` with the value `value`.
    pub fn new(key: &str, value: Json) -> (member: Member)
        ensures
            member.key@ == key@,
            member.value == value,
    {
        Member { key: key.to_owned(), value }
    }
}

#[verifier::external_type_specification]
#[verifier::external_body]
pub struct ExValue(serde_json::Value);

/// The document that the text `text` denotes, if it is well-formed JSON.
pub uninterp spec fn json_document(text: Seq<char>) -> Option<JsonValue>;

/// The text that a document is written out as.
pub uninterp spec fn json_text(doc: JsonValue) -> Seq<char>;

/// Turns a `serde_json::Value` into a document, variant by variant. A number
/// is held as `u64` where `Number::as_u64` gives one, else as `i64` where
/// `Number::as_i64` gives one, else by the text that `Number` displays as.
#[verifier::external_body]
fn json_of_value(value: serde_json::Value) -> (doc: Json) {
    match value {
        serde_json::Value::Null => Json::Null,
        serde_json::Value::Bool(b) => Json::Bool(b),
        serde_json::Value::Number(n) => Json::Number(
            n.as_u64().map(JsonNumber::Unsigned).or(n.as_i64().map(JsonNumber::Negative)).unwrap_or(
                JsonNumber::Other(n.to_string()),
            ),
        ),
        serde_json::Value::String(s) => Json::Text(s),
        serde_json::Value::Array(a) => Json::Array(a.into_iter().map(json_of_value).collect()),
        serde_json::Value::Object(o) => Json::Object(
            o.into_iter().map(|(key, v)| Member { key, value: json_of_value(v) }).collect(),
        ),
    }
}

/// Turns a document into a `serde_json::Value`, variant by variant. A number
/// held by its text is read back with `serde_json::from_str`.
#[verifier::external_body]
fn value_of_json(doc: &Json) -> (value: serde_json::Value) {
    match doc {
        Json::Null => serde_json::Value::Null,
        Json::Bool(b) => serde_json::Value::Bool(*b),
        Json::Number(JsonNumber::Unsigned(n)) => serde_json::Value::from(*n),
        Json::Number(JsonNumber::Negative(n)) => serde_json::Value::from(*n),
        Json::Number(JsonNumber::Other(text)) => serde_json::from_str(text).unwrap_or_default(),
        Json::Text(s) => serde_json::Value::String(s.clone()),
        Json::Array(a) => serde_json::Value::Array(a.iter().map(value_of_json).collect()),
        Json::Object(o) => serde_json::Value::Object(
            o.iter().map(|m| (m.key.clone(), value_of_json(&m.value))).collect(),
        ),
    }
}

/// The text that a document is written out as when it is laid out on several
/// lines.
pub uninterp spec fn json_pretty_text(doc: JsonValue) -> Seq<char>;

/// Writes a document out on several lines with
/// `serde_json::to_string_pretty`. The contract gives the text a name.
#[verifier::external_body]
pub(crate) fn render_json_pretty(doc: &Json) -> (text: String)
    ensures
        text@ == json_pretty_text(doc@),
{
    serde_json::to_string_pretty(&value_of_json(doc)).unwrap_or_default()
}

/// Reads a document with `serde_json::from_str`. Whether a text is
/// well-formed JSON, and which document it denotes, is for `serde_json` to
/// say; the contract gives that answer a name.
#[verifier::external_body]
pub(crate) fn parse_json(text: &str) -> (doc: Option<Json>)
    ensures
        match doc {
            Some(doc) => json_document(text@) == Some(doc@),
            None => json_document(text@) is None,
        },
{
    serde_json::from_str::<serde_json::Value>(text).ok().map(json_of_value)
}

/// Writes a document out on one line with `serde_json::to_string`. The
/// contract gives the text a name.
#[verifier::external_body]
pub(crate) fn render_json(doc: &Json) -> (text: String)
    ensures
        text@ == json_text(doc@),
{
    serde_json::to_string(&value_of_json(doc)).unwrap_or_default()
}

impl Json {
    /// Reads a document from text, if the text is well-formed JSON.
    pub fn parse(text: &str) -> (doc: Option<Json>)
        ensures
            match doc {
                Some(doc) => json_document(text@) == Some(doc@),
                None => json_document(text@) is None,
            },
    {
        parse_json(text)
    }

    /// Writes the document out on one line.
    pub fn render(&self) -> (text: String)
        ensures
            text@ == json_text(self@),
    {
        render_json(self)
    }

    /// Writes the document out on several lines.
    pub fn render_pretty(&self) -> (text: String)
        ensures
            text@ == json_pretty_text(self@),
    {
        render_json_pretty(self)
    }
}

} // verus!
