//! The JSON documents of `serde_json`, as far as this library reads them:
//! the strings of a document and the object keys that lead to each.

use vstd::prelude::*;

verus! {

/// `serde_json::Value`, carried through as an opaque value.
#[verifier::external_type_specification]
#[verifier::external_body]
pub struct ExValue(serde_json::Value);

/// `serde_json::Error`, carried through as an opaque value.
#[verifier::external_type_specification]
#[verifier::external_body]
pub struct ExJsonError(serde_json::Error);

/// A sequence of object keys, outermost first.
pub type KeyPath = Seq<Seq<char>>;

/// The strings of a document, each under the keys that lead to it through
/// nested objects. A document that is itself a string holds it under the empty
/// path; numbers, booleans, nulls and arrays contribute nothing.
pub uninterp spec fn json_strings(doc: serde_json::Value) -> Map<Seq<Seq<char>>, Seq<char>>;

/// The strings of the object that `serde_json::from_slice` reads from the
/// bytes, or `None` where it reports an error.
pub uninterp spec fn json_parsed(bytes: Seq<u8>) -> Option<Map<Seq<Seq<char>>, Seq<char>>>;

/// The string that a table of strings holds under `path`, if any.
pub open spec fn string_at(strings: Map<KeyPath, Seq<char>>, path: KeyPath) -> Option<Seq<char>> {
    if strings.contains_key(path) {
        Some(strings[path])
    } else {
        None
    }
}

/// The path that leads through `key` first and then along `rest`.
pub open spec fn below(key: Seq<char>, rest: KeyPath) -> KeyPath {
    seq![key] + rest
}

/// Calls `serde_json::from_slice` for a JSON object (a map from `String` to
/// `Value`) and hands the object back as a `Value`.
///
/// Trusted: the outcome is a function of the bytes alone, named by
/// `json_parsed`; on success the document's strings are the ones named.
#[verifier::external_body]
pub(crate) fn parse_object(body: &[u8]) -> (r: Result<serde_json::Value, serde_json::Error>)
    ensures
        match r {
            Ok(doc) => json_parsed(body@) == Some(json_strings(doc)),
            Err(_) => json_parsed(body@) is None,
        },
{
    serde_json::from_slice::<serde_json::Map<String, serde_json::Value>>(body)
        .map(serde_json::Value::Object)
}

/// Calls `serde_json::Value::get` with a string key.
///
/// Trusted: `Some` is the member of an object under `key`, so the strings of
/// the member are those of the document whose path begins with `key`; `None`
/// means that the document is no object or has no such key, so that no string
/// of the document has a path that begins with `key`.
#[verifier::external_body]
pub(crate) fn member<'a>(doc: &'a serde_json::Value, key: &str) -> (r: Option<&'a serde_json::Value>)
    ensures
        match r {
            Some(inner) => forall|rest: KeyPath| #[trigger]
                string_at(json_strings(*inner), rest) == string_at(
                    json_strings(*doc),
                    below(key@, rest),
                ),
            None => forall|rest: KeyPath| #[trigger]
                string_at(json_strings(*doc), below(key@, rest)) is None,
        },
{
    doc.get(key)
}

/// Calls `serde_json::Value::as_str`.
///
/// Trusted: `Some` is the text of a document that is a string, which is the
/// string it holds under the empty path; `None` means it holds none there.
#[verifier::external_body]
pub(crate) fn text_of<'a>(doc: &'a serde_json::Value) -> (r: Option<&'a str>)
    ensures
        match r {
            Some(text) => string_at(json_strings(*doc), Seq::empty()) == Some(text@),
            None => string_at(json_strings(*doc), Seq::empty()) is None,
        },
{
    doc.as_str()
}

/// The string member of a document under `key`, copied out.
pub fn string_member(doc: &serde_json::Value, key: &str) -> (r: Option<String>)
    ensures
        match r {
            Some(text) => string_at(json_strings(*doc), seq![key@]) == Some(text@),
            None => string_at(json_strings(*doc), seq![key@]) is None,
        },
{
    proof {
        assert(below(key@, Seq::empty()) =~= seq![key@]);
    }
    match member(doc, key) {
        Some(inner) => match text_of(inner) {
            Some(text) => Some(text.to_owned()),
            None => None,
        },
        None => None,
    }
}

} // verus!
