//! Reading JSON documents with `serde_json`.
//!
//! Requests arrive as JSON text. Parsing is left to `serde_json`; this module
//! states what the rest of the library relies on: which strings a parsed
//! document holds, and under which member names.

use vstd::prelude::*;

verus! {

/// A parsed JSON value, as `serde_json` represents it.
#[verifier::external_type_specification]
#[verifier::external_body]
pub struct ExValue(serde_json::Value);

/// The error with which `serde_json` rejects a text.
#[verifier::external_type_specification]
#[verifier::external_body]
pub struct ExError(serde_json::Error);

/// The strings inside a JSON value, each under the path that leads to it.
///
/// A path is the sequence of member names that one follows from the value,
/// passing through JSON objects only, to arrive at a JSON string. The empty
/// path leads to the value itself, so it is present exactly when the value is
/// a string. Numbers, booleans, nulls and whatever lies inside arrays have no
/// entry.
pub uninterp spec fn json_strings(value: serde_json::Value) -> Map<Seq<Seq<char>>, Seq<char>>;

/// The strings of the document that `text` is the JSON notation of, or `None`
/// where `serde_json` does not take `text` for a JSON document: where it is
/// not JSON, goes on after the document, or nests deeper than the parser
/// follows.
pub uninterp spec fn json_document(text: Seq<char>) -> Option<Map<Seq<Seq<char>>, Seq<char>>>;

/// The strings that lie below the member `name`, by the rest of their paths.
pub open spec fn below(
    strings: Map<Seq<Seq<char>>, Seq<char>>,
    name: Seq<char>,
) -> Map<Seq<Seq<char>>, Seq<char>> {
    Map::new(
        |rest: Seq<Seq<char>>| strings.contains_key(seq![name] + rest),
        |rest: Seq<Seq<char>>| strings[seq![name] + rest],
    )
}

/// The string at `path`, if there is one.
pub open spec fn string_at(strings: Map<Seq<Seq<char>>, Seq<char>>, path: Seq<Seq<char>>) -> Option<
    Seq<char>,
> {
    if strings.contains_key(path) {
        Some(strings[path])
    } else {
        None
    }
}

/// Calls `serde_json::from_str` to parse `text` into a `serde_json::Value`.
///
/// Trusted: whether the call succeeds, and with which value, depends on the
/// text alone. So `json_document` can name the outcome: it is `None` exactly
/// where the call fails, and else holds the strings of the value returned.
#[verifier::external_body]
pub(crate) fn parse(text: &str) -> (r: Result<serde_json::Value, serde_json::Error>)
    ensures
        match r {
            Ok(value) => json_document(text@) == Some(json_strings(value)),
            Err(_) => json_document(text@) is None,
        },
{
    serde_json::from_str::<serde_json::Value>(text)
}

/// Calls `serde_json::Value::get` with a member name.
///
/// Trusted: on an object that has the member, the call returns that member, so
/// the strings of the result are those that lie below `name` in `value`. It
/// returns `None` on an object without the member and on every value that is
/// not an object, and then `value` has no string below `name`.
#[verifier::external_body]
pub(crate) fn member<'a>(value: &'a serde_json::Value, name: &str) -> (r: Option<
    &'a serde_json::Value,
>)
    ensures
        match r {
            Some(inner) => json_strings(*inner) == below(json_strings(*value), name@),
            None => below(json_strings(*value), name@) == Map::<
                Seq<Seq<char>>,
                Seq<char>,
            >::empty(),
        },
{
    value.get(name)
}

/// Calls `serde_json::Value::as_str`.
///
/// Trusted: the call returns the text of a value that is a JSON string, which
/// is the string at the empty path, and `None` for every other value.
#[verifier::external_body]
pub(crate) fn as_string(value: &serde_json::Value) -> (r: Option<String>)
    ensures
        match r {
            Some(s) => string_at(json_strings(*value), Seq::empty()) == Some(s@),
            None => string_at(json_strings(*value), Seq::empty()) is None,
        },
{
    value.as_str().map(String::from)
}

/// Reads the string member `name` of `value`.
pub fn string_member(value: &serde_json::Value, name: &str) -> (r: Option<String>)
    ensures
        match r {
            Some(s) => string_at(json_strings(*value), seq![name@]) == Some(s@),
            None => string_at(json_strings(*value), seq![name@]) is None,
        },
{
    proof {
        assert(seq![name@] + Seq::<Seq<char>>::empty() =~= seq![name@]);
    }
    match member(value, name) {
        Some(inner) => {
            let r = as_string(inner);
            proof {
                let all = json_strings(*value);
                let sub = below(all, name@);
                assert(sub.contains_key(Seq::empty()) == all.contains_key(seq![name@]));
            }
            r
        },
        None => {
            proof {
                let all = json_strings(*value);
                let sub = below(all, name@);
                assert(!sub.contains_key(Seq::empty()));
            }
            None
        },
    }
}

} // verus!
