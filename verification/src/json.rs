//! JSON documents as plain data, and the two bridges to `serde_json`.

use vstd::prelude::*;

verus! {

/// A JSON document. Numbers keep their decimal text; an object keeps its
/// members in a fixed order, and a key is looked up from the front.
#[derive(Debug)]
pub enum Json {
    Null,
    Bool(bool),
    Number(String),
    Text(String),
    Array(Vec<Json>),
    Object(Vec<(String, Json)>),
}

/// `serde_json::Value`, as the decoder makes it. It is read only by
/// `lift_value`.
#[verifier::external_type_specification]
#[verifier::external_body]
pub struct ExJsonValue(serde_json::Value);

/// The document that `serde_json::from_str` reads from a text, `None` where it
/// rejects the text.
pub uninterp spec fn json_of_text(text: Seq<char>) -> Option<Json>;

/// What a `serde_json::Value` holds, as a [`Json`]: variant for variant, a
/// number by the text that it displays as, an object by its members in the
/// order in which its map hands them out.
pub uninterp spec fn json_of_value(value: serde_json::Value) -> Json;

/// The JSON string literal that `serde_json::to_string` writes for a text:
/// quoted, with the escapes of the JSON grammar.
pub uninterp spec fn json_quoted(text: Seq<char>) -> Seq<char>;

/// Calls `serde_json::from_str` for a `serde_json::Value`. The contract only
/// names the result: the same text always reads as the same value, or is
/// always rejected.
#[verifier::external_body]
fn read_value(text: &str) -> (r: Option<serde_json::Value>)
    ensures
        r is Some == json_of_text(text@) is Some,
        r matches Some(value) ==> Some(json_of_value(value)) == json_of_text(text@),
{
    match serde_json::from_str::<serde_json::Value>(text) {
        Ok(value) => Some(value),
        Err(_) => None,
    }
}

/// Copies a `serde_json::Value` out, one arm for each of its variants and
/// the same way for what is nested in it; a number is copied by
/// `serde_json::Number`'s `to_string`. The contract only names the result.
#[verifier::external_body]
fn lift_value(value: &serde_json::Value) -> (r: Json)
    ensures
        r == json_of_value(*value),
{
    match value {
        serde_json::Value::Null => Json::Null,
        serde_json::Value::Bool(b) => Json::Bool(*b),
        serde_json::Value::Number(n) => Json::Number(n.to_string()),
        serde_json::Value::String(s) => Json::Text(s.clone()),
        serde_json::Value::Array(items) => Json::Array(items.iter().map(lift_value).collect()),
        serde_json::Value::Object(members) => Json::Object(
            members.iter().map(|(k, v)| (k.clone(), lift_value(v))).collect(),
        ),
    }
}

/// Decodes a text as one JSON document.
pub fn decode_json(text: &str) -> (r: Option<Json>)
    ensures
        r == json_of_text(text@),
{
    match read_value(text) {
        Some(value) => Some(lift_value(&value)),
        None => None,
    }
}

/// Calls `serde_json::to_string` on a string slice, which writes it as one JSON
/// string literal. The contract only names the result.
#[verifier::external_body]
pub(crate) fn quote_json(text: &str) -> (r: String)
    ensures
        r@ == json_quoted(text@),
{
    match serde_json::to_string(text) {
        Ok(quoted) => quoted,
        Err(_) => String::new(),
    }
}

/// The first member of `members` whose key is `key`.
pub open spec fn lookup(members: Seq<(String, Json)>, key: Seq<char>) -> Option<Json>
    decreases members.len(),
{
    if members.len() == 0 {
        None
    } else if members[0].0@ == key {
        Some(members[0].1)
    } else {
        lookup(members.skip(1), key)
    }
}

/// The index of the first member whose key is `key`.
fn find(members: &Vec<(String, Json)>, key: &str) -> (r: Option<usize>)
    ensures
        match r {
            Some(i) => i < members.len() && lookup(members@, key@) == Some(members@[i as int].1),
            None => lookup(members@, key@) is None,
        },
{
    let wanted = key.to_owned();
    let mut i: usize = 0;
    assert(members@.skip(0) =~= members@);
    while i < members.len()
        invariant
            i <= members.len(),
            wanted@ == key@,
            lookup(members@, key@) == lookup(members@.skip(i as int), key@),
        decreases members.len() - i,
    {
        let ghost rest = members@.skip(i as int);
        assert(rest.len() > 0 && rest[0] == members@[i as int]);
        assert(rest.skip(1) =~= members@.skip(i as int + 1));
        if members[i].0 == wanted {
            assert(lookup(rest, key@) == Some(rest[0].1));
            return Some(i);
        }
        i += 1;
    }
    None
}

impl Json {
    /// The member `key` of an object; `None` for anything but an object and
    /// for an object without that key.
    pub open spec fn member(self, key: Seq<char>) -> Option<Json> {
        match self {
            Json::Object(members) => lookup(members@, key),
            _ => None,
        }
    }

    /// The text of a JSON string, `None` for any other document.
    pub open spec fn text(self) -> Option<Seq<char>> {
        match self {
            Json::Text(s) => Some(s@),
            _ => None,
        }
    }

    /// The items of an array, `None` for any other document.
    pub open spec fn items(self) -> Option<Seq<Json>> {
        match self {
            Json::Array(items) => Some(items@),
            _ => None,
        }
    }

    /// Looks a key up in an object.
    pub fn get(&self, key: &str) -> (r: Option<&Json>)
        ensures
            r is Some == self.member(key@) is Some,
            r matches Some(j) ==> Some(*j) == self.member(key@),
    {
        match self {
            Json::Object(members) => match find(members, key) {
                Some(i) => Some(&members[i].1),
                None => None,
            },
            _ => None,
        }
    }

    /// Takes the member `key` out of an object, giving up the rest.
    pub fn into_member(self, key: &str) -> (r: Option<Json>)
        ensures
            r == self.member(key@),
    {
        match self {
            Json::Object(members) => {
                let mut members = members;
                match find(&members, key) {
                    Some(i) => Some(members.remove(i).1),
                    None => None,
                }
            },
            _ => None,
        }
    }

    /// The string slice of a JSON string.
    pub fn as_str(&self) -> (r: Option<&str>)
        ensures
            r is Some == self.text() is Some,
            r matches Some(s) ==> Some(s@) == self.text(),
    {
        match self {
            Json::Text(s) => Some(s.as_str()),
            _ => None,
        }
    }

    /// The items of a JSON array.
    pub fn as_array(&self) -> (r: Option<&Vec<Json>>)
        ensures
            r is Some == self.items() is Some,
            r matches Some(v) ==> Some(v@) == self.items(),
    {
        match self {
            Json::Array(items) => Some(items),
            _ => None,
        }
    }

    /// Whether the document is an array.
    pub fn is_array(&self) -> (r: bool)
        ensures
            r == self.items() is Some,
    {
        match self {
            Json::Array(_) => true,
            _ => false,
        }
    }
}

} // verus!
