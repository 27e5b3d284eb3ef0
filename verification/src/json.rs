//! JSON documents as a tree of plain values. Reading text into a tree is
//! `serde_json`'s work; everything that looks inside a tree is verified here.

use vstd::prelude::*;
use vstd::string::*;

verus! {

/// A JSON document. A number keeps its value where that is an integer that
/// fits `i64`, and nothing otherwise. The members of an object carry distinct
/// names when the tree was read from text.
#[derive(Debug)]
pub enum Json {
    Null,
    Bool(bool),
    Number(Option<i64>),
    Text(String),
    List(Vec<Json>),
    Object(Vec<(String, Json)>),
}

/// `serde_json::Value`, carried from the reader to the copy and never
/// looked into.
#[verifier::external_type_specification]
#[verifier::external_body]
pub struct ExValue(serde_json::Value);

/// The tree that `text` denotes as a JSON document, `None` where `text` is
/// not one: what `serde_json::from_str` makes of it.
pub uninterp spec fn json_document(text: Seq<char>) -> Option<Json>;

/// The tree that holds what a `serde_json::Value` holds.
pub uninterp spec fn value_tree(v: serde_json::Value) -> Json;

/// The first member of `fields` named `key`.
pub open spec fn find_member(fields: Seq<(String, Json)>, key: Seq<char>) -> Option<Json>
    decreases fields.len(),
{
    if fields.len() == 0 {
        None
    } else if fields[0].0@ == key {
        Some(fields[0].1)
    } else {
        find_member(fields.drop_first(), key)
    }
}

impl Json {
    /// The member named `key` of an object; `None` for a missing member and
    /// for anything that is not an object.
    pub open spec fn member(self, key: Seq<char>) -> Option<Json> {
        match self {
            Json::Object(fields) => find_member(fields@, key),
            _ => None,
        }
    }

    /// The member `b` of the member `a`.
    pub open spec fn member2(self, a: Seq<char>, b: Seq<char>) -> Option<Json> {
        match self.member(a) {
            Some(inner) => inner.member(b),
            None => None,
        }
    }

    /// The member `c` of the member `b` of the member `a`.
    pub open spec fn member3(self, a: Seq<char>, b: Seq<char>, c: Seq<char>) -> Option<Json> {
        match self.member2(a, b) {
            Some(inner) => inner.member(c),
            None => None,
        }
    }

    /// The element at `index` of a list.
    pub open spec fn element(self, index: int) -> Option<Json> {
        match self {
            Json::List(items) => if 0 <= index < items@.len() {
                Some(items@[index])
            } else {
                None
            },
            _ => None,
        }
    }

    /// The characters of a string value.
    pub open spec fn text(self) -> Option<Seq<char>> {
        match self {
            Json::Text(s) => Some(s@),
            _ => None,
        }
    }

    /// The value of an integer that fits `i64`.
    pub open spec fn integer(self) -> Option<i64> {
        match self {
            Json::Number(n) => n,
            _ => None,
        }
    }

    /// The value of a boolean.
    pub open spec fn truth(self) -> Option<bool> {
        match self {
            Json::Bool(b) => Some(b),
            _ => None,
        }
    }

    /// See [`Json::member`].
    pub fn get<'a>(&'a self, key: &str) -> (r: Option<&'a Json>)
        ensures
            r is Some == self.member(key@) is Some,
            r matches Some(j) ==> self.member(key@) == Some(*j),
    {
        match self {
            Json::Object(fields) => {
                let wanted = String::from_str(key);
                let mut i: usize = 0;
                assert(fields@.skip(0) =~= fields@);
                while i < fields.len()
                    invariant
                        i <= fields.len(),
                        wanted@ == key@,
                        self.member(key@) == find_member(fields@, key@),
                        find_member(fields@, key@) == find_member(fields@.skip(i as int), key@),
                    decreases fields.len() - i,
                {
                    let ghost rest = fields@.skip(i as int);
                    assert(rest[0] == fields@[i as int]);
                    assert(rest.drop_first() =~= fields@.skip(i + 1));
                    if fields[i].0 == wanted {
                        return Some(&fields[i].1);
                    }
                    i += 1;
                }
                None
            },
            _ => None,
        }
    }

    /// See [`Json::member2`].
    pub fn get2<'a>(&'a self, a: &str, b: &str) -> (r: Option<&'a Json>)
        ensures
            r is Some == self.member2(a@, b@) is Some,
            r matches Some(j) ==> self.member2(a@, b@) == Some(*j),
    {
        match self.get(a) {
            Some(inner) => inner.get(b),
            None => None,
        }
    }

    /// See [`Json::member3`].
    pub fn get3<'a>(&'a self, a: &str, b: &str, c: &str) -> (r: Option<&'a Json>)
        ensures
            r is Some == self.member3(a@, b@, c@) is Some,
            r matches Some(j) ==> self.member3(a@, b@, c@) == Some(*j),
    {
        match self.get2(a, b) {
            Some(inner) => inner.get(c),
            None => None,
        }
    }

    /// See [`Json::element`].
    pub fn at<'a>(&'a self, index: usize) -> (r: Option<&'a Json>)
        ensures
            r is Some == self.element(index as int) is Some,
            r matches Some(j) ==> self.element(index as int) == Some(*j),
    {
        match self {
            Json::List(items) => if index < items.len() {
                Some(&items[index])
            } else {
                None
            },
            _ => None,
        }
    }

    /// See [`Json::text`].
    pub fn as_text<'a>(&'a self) -> (r: Option<&'a String>)
        ensures
            r is Some == self.text() is Some,
            r matches Some(s) ==> self.text() == Some(s@),
    {
        match self {
            Json::Text(s) => Some(s),
            _ => None,
        }
    }

    /// See [`Json::integer`].
    pub fn as_integer(&self) -> (r: Option<i64>)
        ensures
            r == self.integer(),
    {
        match self {
            Json::Number(n) => *n,
            _ => None,
        }
    }

    /// See [`Json::truth`].
    pub fn as_bool(&self) -> (r: Option<bool>)
        ensures
            r == self.truth(),
    {
        match self {
            Json::Bool(b) => Some(*b),
            _ => None,
        }
    }

    /// Whether this is the null value.
    pub fn is_null(&self) -> (r: bool)
        ensures
            r == (self is Null),
    {
        match self {
            Json::Null => true,
            _ => false,
        }
    }
}

/// The text of `j` where `j` is there and a string.
pub open spec fn text_in(j: Option<Json>) -> Option<Seq<char>> {
    match j {
        Some(v) => v.text(),
        None => None,
    }
}

/// The value of `j` where `j` is there and an integer that fits `i64`.
pub open spec fn integer_in(j: Option<Json>) -> Option<i64> {
    match j {
        Some(v) => v.integer(),
        None => None,
    }
}

/// `j` is missing or the null value.
pub open spec fn absent(j: Option<Json>) -> bool {
    match j {
        Some(v) => v is Null,
        None => true,
    }
}

/// An owned copy of the text of `j`, see [`text_in`].
pub fn owned_text(j: Option<&Json>) -> (r: Option<String>)
    ensures
        r is Some == (j matches Some(v) && v.text() is Some),
        r matches Some(s) ==> j matches Some(v) && v.text() == Some(s@),
{
    match j {
        Some(v) => match v.as_text() {
            Some(s) => Some(s.clone()),
            None => None,
        },
        None => None,
    }
}

/// The integer of `j`, see [`integer_in`].
pub fn integer_of(j: Option<&Json>) -> (r: Option<i64>)
    ensures
        r == (match j {
            Some(v) => v.integer(),
            None => None,
        }),
{
    match j {
        Some(v) => v.as_integer(),
        None => None,
    }
}

/// `serde_json::from_str` at the type `serde_json::Value`: `Some` of the
/// value that the text denotes, `None` where the text is no JSON document.
/// The contract only ties the outcome to `json_document` of the same text.
#[verifier::external_body]
fn read_value(text: &str) -> (r: Option<serde_json::Value>)
    ensures
        match r {
            Some(v) => json_document(text@) == Some(value_tree(v)),
            None => json_document(text@) is None,
        },
{
    serde_json::from_str::<serde_json::Value>(text).ok()
}

/// Copies a `serde_json::Value` into a tree, variant by variant; a number
/// goes through `Number::as_i64`. The contract only names the result.
#[verifier::external_body]
fn tree_of(v: &serde_json::Value) -> (r: Json)
    ensures
        r == value_tree(*v),
{
    match v {
        serde_json::Value::Null => Json::Null,
        serde_json::Value::Bool(b) => Json::Bool(*b),
        serde_json::Value::Number(n) => Json::Number(n.as_i64()),
        serde_json::Value::String(s) => Json::Text(s.clone()),
        serde_json::Value::Array(a) => Json::List(a.iter().map(tree_of).collect()),
        serde_json::Value::Object(o) => Json::Object(
            o.iter().map(|(k, x)| (k.clone(), tree_of(x))).collect(),
        ),
    }
}

/// Reads `text` as a JSON document.
pub fn parse_json(text: &str) -> (r: Option<Json>)
    ensures
        r == json_document(text@),
{
    match read_value(text) {
        Some(v) => Some(tree_of(&v)),
        None => None,
    }
}

} // verus!
