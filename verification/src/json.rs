//! A JSON document as plain data, and the lookups that response handling
//! makes in it.

use vstd::prelude::*;

verus! {

/// A JSON value.
#[derive(Debug, PartialEq)]
pub enum Json {
    Null,
    Bool(bool),
    /// A number; the field holds it where it is an integer from 0 to
    /// `u64::MAX`, and is `None` for every other number.
    Number(Option<u64>),
    Text(String),
    Array(Vec<Json>),
    /// The members of an object, by name.
    Object(Vec<(String, Json)>),
}

/// `serde_json::Value`, carried from the reader to the copy and not looked
/// into.
#[verifier::external_type_specification]
#[verifier::external_body]
pub struct ExValue(serde_json::Value);

/// `serde_json::Error`, of which only its being there is used.
#[verifier::external_type_specification]
#[verifier::external_body]
pub struct ExError(serde_json::Error);

/// The document that `text` is read as; `None` where it is no JSON text.
pub uninterp spec fn document(text: Seq<char>) -> Option<Json>;

/// The data that a `serde_json::Value` holds.
pub uninterp spec fn content(value: serde_json::Value) -> Json;

/// Reads `text` with `serde_json::from_str`. The outcome depends on the text
/// alone: the same text gives the same value or fails alike.
#[verifier::external_body]
fn read_value(text: &str) -> (r: Result<serde_json::Value, serde_json::Error>)
    ensures
        match r {
            Ok(value) => document(text@) == Some(content(value)),
            Err(_) => document(text@) is None,
        },
{
    serde_json::from_str::<serde_json::Value>(text)
}

/// Copies a `serde_json::Value` into a `Json`, variant by variant; a number
/// is taken through `Number::as_u64`.
#[verifier::external_body]
fn copy_value(value: &serde_json::Value) -> (r: Json)
    ensures
        r == content(*value),
{
    match value {
        serde_json::Value::Null => Json::Null,
        serde_json::Value::Bool(b) => Json::Bool(*b),
        serde_json::Value::Number(n) => Json::Number(n.as_u64()),
        serde_json::Value::String(s) => Json::Text(s.clone()),
        serde_json::Value::Array(items) => Json::Array(items.iter().map(copy_value).collect()),
        serde_json::Value::Object(members) => Json::Object(
            members.iter().map(|(name, member)| (name.clone(), copy_value(member))).collect(),
        ),
    }
}

/// The index of the first member named `key` at or after `from`, or the
/// number of members where there is none.
pub open spec fn member_position(members: Seq<(String, Json)>, key: Seq<char>, from: int) -> int
    decreases members.len() - from,
{
    if from < 0 || from >= members.len() {
        members.len() as int
    } else if members[from].0@ == key {
        from
    } else {
        member_position(members, key, from + 1)
    }
}

impl Json {
    /// The member named `key` of an object: the first such member. `None` for
    /// an object without one and for every other value.
    pub open spec fn member(self, key: Seq<char>) -> Option<Json> {
        match self {
            Json::Object(members) => {
                let at = member_position(members@, key, 0);
                if 0 <= at < members@.len() {
                    Some(members@[at].1)
                } else {
                    None
                }
            },
            _ => None,
        }
    }

    /// The item at `index` of an array. `None` past the end and for every
    /// other value.
    pub open spec fn item(self, index: int) -> Option<Json> {
        match self {
            Json::Array(items) => if 0 <= index < items@.len() {
                Some(items@[index])
            } else {
                None
            },
            _ => None,
        }
    }

    /// The names of the members of an object, in order; empty for every
    /// other value.
    pub open spec fn names(self) -> Seq<Seq<char>> {
        match self {
            Json::Object(members) => Seq::new(members@.len(), |i: int| members@[i].0@),
            _ => Seq::empty(),
        }
    }

    /// The text of the member named `key`, where that member is a text.
    pub open spec fn text_at(self, key: Seq<char>) -> Option<Seq<char>> {
        match self.member(key) {
            Some(found) => found.text(),
            None => None,
        }
    }

    /// The characters of a text value.
    pub open spec fn text(self) -> Option<Seq<char>> {
        match self {
            Json::Text(s) => Some(s@),
            _ => None,
        }
    }

    /// The value of a number that is an unsigned 64-bit integer.
    pub open spec fn unsigned(self) -> Option<u64> {
        match self {
            Json::Number(n) => n,
            _ => None,
        }
    }

    /// Reads a JSON text.
    pub fn parse(text: &str) -> (r: Option<Json>)
        ensures
            r == document(text@),
    {
        match read_value(text) {
            Ok(value) => Some(copy_value(&value)),
            Err(_) => None,
        }
    }

    /// The member named `key`.
    pub fn get(&self, key: &str) -> (r: Option<&Json>)
        ensures
            match r {
                Some(found) => self.member(key@) == Some(*found),
                None => self.member(key@) is None,
            },
    {
        match self {
            Json::Object(members) => {
                let at = find_member(members, key);
                if at < members.len() {
                    Some(&members[at].1)
                } else {
                    None
                }
            },
            _ => None,
        }
    }

    /// The item at `index`.
    pub fn at(&self, index: usize) -> (r: Option<&Json>)
        ensures
            match r {
                Some(found) => self.item(index as int) == Some(*found),
                None => self.item(index as int) is None,
            },
    {
        match self {
            Json::Array(items) => if index < items.len() {
                Some(&items[index])
            } else {
                None
            },
            _ => None,
        }
    }

    /// The text of a text value.
    pub fn as_text(&self) -> (r: Option<&String>)
        ensures
            match r {
                Some(s) => self.text() == Some(s@),
                None => self.text() is None,
            },
    {
        match self {
            Json::Text(s) => Some(s),
            _ => None,
        }
    }

    /// The value of an unsigned number.
    pub fn as_unsigned(&self) -> (r: Option<u64>)
        ensures
            r == self.unsigned(),
    {
        match self {
            Json::Number(n) => *n,
            _ => None,
        }
    }
}

/// The index of the first member named `key`; the number of members where
/// there is none.
pub fn find_member(members: &Vec<(String, Json)>, key: &str) -> (at: usize)
    ensures
        at == member_position(members@, key@, 0),
        at <= members.len(),
{
    let name = key.to_owned();
    let mut at: usize = 0;
    while at < members.len() && members[at].0 != name
        invariant
            at <= members.len(),
            name@ == key@,
            forall|k: int| 0 <= k < at ==> members@[k].0@ != key@,
        decreases members.len() - at,
    {
        at += 1;
    }
    proof {
        lemma_member_position_is(members@, key@, 0, at as int);
    }
    at
}

/// An index that holds a member named `key`, with none of that name between
/// `from` and it, is the `member_position`.
pub proof fn lemma_member_position_is(
    members: Seq<(String, Json)>,
    key: Seq<char>,
    from: int,
    at: int,
)
    requires
        0 <= from <= at <= members.len(),
        at < members.len() ==> members[at].0@ == key,
        forall|k: int| from <= k < at ==> members[k].0@ != key,
    ensures
        member_position(members, key, from) == at,
    decreases at - from,
{
    if from < at {
        lemma_member_position_is(members, key, from + 1, at);
    }
}

} // verus!
