//! Reading the arguments of an operation out of a JSON object. A member that
//! is missing and a member that is `null` both count as not given.

use crate::json::Json;
use crate::json::JsonValue;
use vstd::prelude::*;

verus! {

/// The member named `key`, unless it is missing or `null`.
pub open spec fn given(args: JsonValue, key: Seq<char>) -> Option<JsonValue> {
    match args.field(key) {
        Some(value) => if value is Null {
            None
        } else {
            Some(value)
        },
        None => None,
    }
}

/// The text of the member named `key`, which must be given and be a string.
pub open spec fn required_text(args: JsonValue, key: Seq<char>) -> Option<Seq<char>> {
    match args.field(key) {
        Some(value) => value.as_text(),
        None => None,
    }
}

/// The text of the member named `key` if it is given; the outer `None` says
/// that the member is given and is not a string.
pub open spec fn optional_text(args: JsonValue, key: Seq<char>) -> Option<Option<Seq<char>>> {
    match given(args, key) {
        None => Some(None),
        Some(value) => match value.as_text() {
            Some(text) => Some(Some(text)),
            None => None,
        },
    }
}

/// The truth value of the member named `key` if it is given; the outer `None`
/// says that the member is given and is not a truth value.
pub open spec fn optional_bool(args: JsonValue, key: Seq<char>) -> Option<Option<bool>> {
    match given(args, key) {
        None => Some(None),
        Some(value) => match value.as_bool() {
            Some(flag) => Some(Some(flag)),
            None => None,
        },
    }
}

/// The number of the member named `key` if it is given; the outer `None` says
/// that the member is given and is not a whole number that fits a `usize`.
pub open spec fn optional_count(args: JsonValue, key: Seq<char>) -> Option<Option<usize>> {
    match given(args, key) {
        None => Some(None),
        Some(value) => match value.as_count() {
            Some(count) => Some(Some(count)),
            None => None,
        },
    }
}

/// The texts of an array of strings.
pub open spec fn text_items(value: JsonValue) -> Option<Seq<Seq<char>>> {
    match value {
        JsonValue::Array(items) => if forall|i: int|
            0 <= i < items.len() ==> (#[trigger] items[i]) is Text {
            Some(Seq::new(items.len(), |i: int| items[i]->Text_0))
        } else {
            None
        },
        _ => None,
    }
}

/// The texts of the member named `key`, which must be given and be an array
/// of strings.
pub open spec fn required_texts(args: JsonValue, key: Seq<char>) -> Option<Seq<Seq<char>>> {
    match args.field(key) {
        Some(value) => text_items(value),
        None => None,
    }
}

/// The texts of the member named `key` if it is given; the outer `None` says
/// that the member is given and is not an array of strings.
pub open spec fn optional_texts(args: JsonValue, key: Seq<char>) -> Option<
    Option<Seq<Seq<char>>>,
> {
    match given(args, key) {
        None => Some(None),
        Some(value) => match text_items(value) {
            Some(texts) => Some(Some(texts)),
            None => None,
        },
    }
}

/// What a list of strings holds.
pub open spec fn texts_of(strings: Seq<String>) -> Seq<Seq<char>> {
    Seq::new(strings.len(), |i: int| strings[i]@)
}

fn given_member<'a>(args: &'a Json, key: &str) -> (found: Option<&'a Json>)
    ensures
        match found {
            Some(value) => given(args@, key@) == Some(value@),
            None => given(args@, key@) is None,
        },
{
    match args.get(key) {
        Some(value) => if value.is_null() {
            None
        } else {
            Some(value)
        },
        None => None,
    }
}

/// Reads a member that must be given and be a string.
pub fn read_required_text(args: &Json, key: &str) -> (text: Option<String>)
    ensures
        match text {
            Some(text) => required_text(args@, key@) == Some(text@),
            None => required_text(args@, key@) is None,
        },
{
    match args.get(key) {
        Some(value) => match value.as_str() {
            Some(text) => Some(text.to_owned()),
            None => None,
        },
        None => None,
    }
}

/// Reads a member that, if given, must be a string.
pub fn read_optional_text(args: &Json, key: &str) -> (text: Option<Option<String>>)
    ensures
        match text {
            Some(Some(text)) => optional_text(args@, key@) == Some(Some(text@)),
            Some(None) => optional_text(args@, key@) == Some(None::<Seq<char>>),
            None => optional_text(args@, key@) is None,
        },
{
    match given_member(args, key) {
        None => Some(None),
        Some(value) => match value.as_str() {
            Some(text) => Some(Some(text.to_owned())),
            None => None,
        },
    }
}

/// Reads a member that, if given, must be a truth value.
pub fn read_optional_bool(args: &Json, key: &str) -> (flag: Option<Option<bool>>)
    ensures
        flag == optional_bool(args@, key@),
{
    match given_member(args, key) {
        None => Some(None),
        Some(value) => match value.as_bool() {
            Some(flag) => Some(Some(flag)),
            None => None,
        },
    }
}

/// Reads a member that, if given, must be a whole number.
pub fn read_optional_count(args: &Json, key: &str) -> (count: Option<Option<usize>>)
    ensures
        count == optional_count(args@, key@),
{
    match given_member(args, key) {
        None => Some(None),
        Some(value) => match value.as_count() {
            Some(count) => Some(Some(count)),
            None => None,
        },
    }
}

/// Reads an array of strings.
pub fn read_text_items(value: &Json) -> (texts: Option<Vec<String>>)
    ensures
        match texts {
            Some(texts) => text_items(value@) == Some(texts_of(texts@)),
            None => text_items(value@) is None,
        },
{
    match value {
        Json::Array(items) => {
            proof {
                Json::lemma_items(*items);
            }
            let ghost shown = value@->Array_0;
            let mut texts: Vec<String> = Vec::new();
            let mut i: usize = 0;
            while i < items.len()
                invariant
                    i <= items.len(),
                    value@ == JsonValue::Array(shown),
                    shown.len() == items@.len(),
                    forall|k: int| 0 <= k < items@.len() ==> shown[k] == (#[trigger] items@[k])@,
                    texts@.len() == i,
                    forall|k: int| 0 <= k < i ==> shown[k] == JsonValue::Text((#[trigger] texts@[k])@),
                decreases items.len() - i,
            {
                match items[i].as_str() {
                    Some(text) => {
                        texts.push(text.to_owned());
                    },
                    None => {
                        assert(!(shown[i as int] is Text));
                        return None;
                    },
                }
                i += 1;
            }
            proof {
                assert forall|k: int| 0 <= k < shown.len() implies (#[trigger] shown[k]) is Text by {
                    assert(shown[k] == JsonValue::Text(texts@[k]@));
                }
                assert(text_items(value@) is Some);
                let found = text_items(value@)->0;
                assert(found.len() == texts@.len());
                assert forall|k: int| 0 <= k < found.len() implies found[k] == texts_of(texts@)[k] by {
                    assert(shown[k] == JsonValue::Text(texts@[k]@));
                }
                assert(found =~= texts_of(texts@));
            }
            Some(texts)
        },
        _ => None,
    }
}

/// Reads a member that must be given and be an array of strings.
pub fn read_required_texts(args: &Json, key: &str) -> (texts: Option<Vec<String>>)
    ensures
        match texts {
            Some(texts) => required_texts(args@, key@) == Some(texts_of(texts@)),
            None => required_texts(args@, key@) is None,
        },
{
    match args.get(key) {
        Some(value) => read_text_items(value),
        None => None,
    }
}

/// Reads a member that, if given, must be an array of strings.
pub fn read_optional_texts(args: &Json, key: &str) -> (texts: Option<Option<Vec<String>>>)
    ensures
        match texts {
            Some(Some(texts)) => optional_texts(args@, key@) == Some(Some(texts_of(texts@))),
            Some(None) => optional_texts(args@, key@) == Some(None::<Seq<Seq<char>>>),
            None => optional_texts(args@, key@) is None,
        },
{
    match given_member(args, key) {
        None => Some(None),
        Some(value) => match read_text_items(value) {
            Some(texts) => Some(Some(texts)),
            None => None,
        },
    }
}

/// What an optional string holds.
pub open spec fn text_of(text: Option<String>) -> Option<Seq<char>> {
    match text {
        Some(text) => Some(text@),
        None => None,
    }
}

/// What an optional list of strings holds.
pub open spec fn list_of(texts: Option<Vec<String>>) -> Option<Seq<Seq<char>>> {
    match texts {
        Some(texts) => Some(texts_of(texts@)),
        None => None,
    }
}

} // verus!
