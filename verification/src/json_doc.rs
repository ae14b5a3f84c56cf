//! JSON documents as the portal reads them: whether a text parses, whether
//! it holds an object, and its canonical and indented renderings.

use vstd::prelude::*;

verus! {

/// A parsed JSON document, held as the plain values the portal reads.
pub struct JsonDoc {
    /// The document is a JSON object.
    pub is_object: bool,
    /// The compact rendering. Equal renderings mean equal values, but not
    /// the other way round (`0.0` and `-0.0` are equal values); compare
    /// values with `same_json`.
    pub canonical: String,
    /// The indented rendering shown in editors, when one can be written.
    pub pretty: Option<String>,
}

/// What `serde_json` reads from `text`: `None` when it is not JSON, else
/// (is an object, compact rendering, indented rendering if one is written).
pub uninterp spec fn json_document(text: Seq<char>) -> Option<(bool, Seq<char>, Option<Seq<char>>)>;

/// `serde_json::from_str::<Value>`, and of the value read, `is_object`,
/// `to_string` and `to_string_pretty`. The result is named by
/// `json_document`; of it the contract states only that a compact rendering
/// of an object begins with `{` and that of any other value does not, as
/// the JSON grammar fixes.
#[verifier::external_body]
pub(crate) fn parse_json(text: &str) -> (res: Option<JsonDoc>)
    ensures
        res.is_some() == json_document(text@).is_some(),
        res matches Some(d) ==> json_document(text@) == Some(
            (
                d.is_object,
                d.canonical@,
                match d.pretty {
                    Some(p) => Some(p@),
                    None => None,
                },
            ),
        ),
        res matches Some(d) ==> (d.is_object <==> (d.canonical@.len() > 0 && d.canonical@[0] == '{')),
{
    match serde_json::from_str::<serde_json::Value>(text) {
        Ok(value) => Some(JsonDoc {
            is_object: value.is_object(),
            canonical: value.to_string(),
            pretty: serde_json::to_string_pretty(&value).ok(),
        }),
        Err(_) => None,
    }
}

/// Whether `serde_json` reads `a` and `b` as equal values (both failing to
/// parse counts as equal); it depends on the two texts alone.
pub uninterp spec fn same_json_value(a: Seq<char>, b: Seq<char>) -> bool;

/// `serde_json::from_str::<Value>` on both texts, compared with `Value`'s
/// derived `==` (numbers compare by value, so `0.0` equals `-0.0`). The
/// result is named by `same_json_value`; of it the contract states that
/// equal texts read as equal values, which holds since a parse gives one
/// value per text and `Value`'s equality is reflexive (its floats are
/// finite, as the crate documents for its `Eq`).
#[verifier::external_body]
pub(crate) fn same_json(a: &str, b: &str) -> (res: bool)
    ensures
        res == same_json_value(a@, b@),
        a@ == b@ ==> res,
{
    serde_json::from_str::<serde_json::Value>(a).ok() == serde_json::from_str::<serde_json::Value>(b).ok()
}

} // verus!
