//! The library's own model of a JSON document, and the step from serde_json's
//! parsed value into it.
use vstd::prelude::*;
use vstd::utf8::{decode_utf8, valid_utf8};

verus! {

/// How many levels of nesting a document may have when it is copied into a
/// `Json`: as many as serde_json's parser takes.
pub const MAX_DEPTH: usize = 128;

/// A JSON document. Object members come in the order in which serde_json
/// hands them out, which is sorted by name.
#[derive(Debug)]
pub enum Json {
    Null,
    Bool(bool),
    /// A number, by its decimal text.
    Number(String),
    Str(String),
    Array(Vec<Json>),
    Object(Vec<(String, Json)>),
}

/// The value of the first member named `key`.
pub open spec fn member(fields: Seq<(String, Json)>, key: Seq<char>) -> Option<Json>
    decreases fields.len(),
{
    if fields.len() == 0 {
        None
    } else if fields[0].0@ == key {
        Some(fields[0].1)
    } else {
        member(fields.drop_first(), key)
    }
}

/// The member `key` of an object; nothing for any other kind of value.
pub open spec fn field(j: Json, key: Seq<char>) -> Option<Json> {
    match j {
        Json::Object(fields) => member(fields@, key),
        _ => None,
    }
}

/// The text of a string value.
pub open spec fn text_of(j: Json) -> Option<Seq<char>> {
    match j {
        Json::Str(s) => Some(s@),
        _ => None,
    }
}

/// The text of the string member `key`.
pub open spec fn text_field(j: Json, key: Seq<char>) -> Option<Seq<char>> {
    match field(j, key) {
        Some(v) => text_of(v),
        None => None,
    }
}

/// The elements of an array value.
pub open spec fn items_of(j: Json) -> Option<Seq<Json>> {
    match j {
        Json::Array(items) => Some(items@),
        _ => None,
    }
}

/// Finds the first member named `key`.
pub fn find_member<'a>(fields: &'a Vec<(String, Json)>, key: &str) -> (r: Option<&'a Json>)
    ensures
        r is Some <==> member(fields@, key@) is Some,
        r is Some ==> member(fields@, key@) == Some(*r->0),
{
    let wanted = String::from_str(key);
    let mut i: usize = 0;
    assert(fields@.subrange(0, fields@.len() as int) =~= fields@);
    while i < fields.len()
        invariant
            0 <= i <= fields@.len(),
            wanted@ == key@,
            member(fields@, key@) == member(fields@.subrange(i as int, fields@.len() as int), key@),
        decreases fields@.len() - i,
    {
        let ghost rest = fields@.subrange(i as int, fields@.len() as int);
        if fields[i].0 == wanted {
            return Some(&fields[i].1);
        }
        assert(rest.drop_first() =~= fields@.subrange(i + 1, fields@.len() as int));
        i = i + 1;
    }
    None
}

/// Finds the member `key` of an object.
pub fn get_field<'a>(j: &'a Json, key: &str) -> (r: Option<&'a Json>)
    ensures
        r is Some <==> field(*j, key@) is Some,
        r is Some ==> field(*j, key@) == Some(*r->0),
{
    match j {
        Json::Object(fields) => find_member(fields, key),
        _ => None,
    }
}

/// Copies the text of the string member `key`.
pub fn get_text(j: &Json, key: &str) -> (r: Option<String>)
    ensures
        r is Some <==> text_field(*j, key@) is Some,
        r is Some ==> text_field(*j, key@) == Some(r->0@),
{
    match get_field(j, key) {
        Some(Json::Str(s)) => Some(s.clone()),
        _ => None,
    }
}

/// Whether serde_json accepts the bytes as one JSON document.
pub uninterp spec fn is_json(b: Seq<u8>) -> bool;

/// Relies on `serde_json::from_slice` into a `serde_json::Value`: it succeeds
/// exactly on the byte strings that are one JSON document, which an empty
/// input is not.
#[verifier::external_body]
pub(crate) fn parse_value(b: &[u8]) -> (r: Result<serde_json::Value, serde_json::Error>)
    ensures
        r is Ok <==> is_json(b@),
        b@.len() == 0 ==> r is Err,
{
    serde_json::from_slice::<serde_json::Value>(b)
}

/// Relies on `String::from_utf8_lossy`: bytes that are valid UTF-8 come back
/// as the same text.
#[verifier::external_body]
pub(crate) fn body_text(b: &[u8]) -> (r: String)
    ensures
        valid_utf8(b@) ==> r@ == decode_utf8(b@),
{
    String::from_utf8_lossy(b).into_owned()
}

/// One level of a parsed serde_json value, with its children by reference.
enum Node<'a> {
    Null,
    Bool(bool),
    Number(String),
    Str(String),
    Array(Vec<&'a serde_json::Value>),
    Object(Vec<(String, &'a serde_json::Value)>),
}

/// Relies on the variants of `serde_json::Value`, and on `Number`'s
/// `Display` for a number's text.
#[verifier::external_body]
fn node_of(v: &serde_json::Value) -> Node<'_> {
    match v {
        serde_json::Value::Null => Node::Null,
        serde_json::Value::Bool(b) => Node::Bool(*b),
        serde_json::Value::Number(n) => Node::Number(n.to_string()),
        serde_json::Value::String(s) => Node::Str(s.clone()),
        serde_json::Value::Array(a) => Node::Array(a.iter().collect()),
        serde_json::Value::Object(m) => Node::Object(m.iter().map(|(k, x)| (k.clone(), x)).collect()),
    }
}

/// Copies a parsed value into a `Json`, going at most `depth` levels deep;
/// nothing where it nests deeper.
pub(crate) fn json_of_value(v: &serde_json::Value, depth: usize) -> (r: Option<Json>)
    decreases depth,
{
    match node_of(v) {
        Node::Null => Some(Json::Null),
        Node::Bool(b) => Some(Json::Bool(b)),
        Node::Number(n) => Some(Json::Number(n)),
        Node::Str(s) => Some(Json::Str(s)),
        Node::Array(items) => {
            if depth == 0 {
                return None;
            }
            let mut out: Vec<Json> = Vec::new();
            let mut i: usize = 0;
            while i < items.len()
                invariant
                    0 <= i <= items@.len(),
                    depth > 0,
                decreases items@.len() - i,
            {
                match json_of_value(items[i], depth - 1) {
                    Some(j) => out.push(j),
                    None => return None,
                }
                i = i + 1;
            }
            Some(Json::Array(out))
        },
        Node::Object(members) => {
            if depth == 0 {
                return None;
            }
            let mut out: Vec<(String, Json)> = Vec::new();
            let mut i: usize = 0;
            while i < members.len()
                invariant
                    0 <= i <= members@.len(),
                    depth > 0,
                decreases members@.len() - i,
            {
                let key = members[i].0.clone();
                match json_of_value(members[i].1, depth - 1) {
                    Some(j) => out.push((key, j)),
                    None => return None,
                }
                i = i + 1;
            }
            Some(Json::Object(out))
        },
    }
}

/// Parses a byte string into a `Json` document: nothing where it is no JSON
/// or nests too deep.
pub fn parse_json(b: &[u8]) -> (r: Option<Json>)
    ensures
        r is Some ==> is_json(b@),
        !is_json(b@) ==> r is None,
        b@.len() == 0 ==> r is None,
{
    match parse_value(b) {
        Ok(v) => json_of_value(&v, MAX_DEPTH),
        Err(_) => None,
    }
}

} // verus!
