//! JSON values that the library stores and hands back without reading them,
//! and their text form.

use vstd::prelude::*;

verus! {

/// `serde_json::Value`: any JSON value. Nothing inside it is visible here.
#[verifier::external_type_specification]
#[verifier::external_body]
pub struct ExJsonValue(serde_json::Value);

/// `serde_json::Error`: why JSON text could not be read or written.
#[verifier::external_type_specification]
#[verifier::external_body]
pub struct ExJsonError(serde_json::Error);

/// `Value::clone` returns a value equal to the one cloned.
pub assume_specification[ <serde_json::Value as Clone>::clone ](value: &serde_json::Value) -> (r:
    serde_json::Value)
    ensures
        r == *value,
;

/// The values that `serde_json::from_str` reads from `text` as a JSON array,
/// or `None` where it rejects the text.
pub uninterp spec fn json_array_parse(text: Seq<char>) -> Option<Seq<serde_json::Value>>;

/// The text that `serde_json::to_string` writes for an array of `values`, or
/// `None` where it fails.
pub uninterp spec fn json_array_text(values: Seq<serde_json::Value>) -> Option<Seq<char>>;

/// `serde_json::from_str` at the type `Vec<Value>`: the result is
/// `json_array_parse` of the text.
#[verifier::external_body]
pub(crate) fn parse_json_array(text: &str) -> (r: Result<Vec<serde_json::Value>, serde_json::Error>)
    ensures
        match r {
            Ok(values) => json_array_parse(text@) == Some(values@),
            Err(_) => json_array_parse(text@) is None,
        },
{
    serde_json::from_str::<Vec<serde_json::Value>>(text)
}

/// `serde_json::to_string` on a `Vec<Value>`: the result is `json_array_text`
/// of the values.
#[verifier::external_body]
pub(crate) fn render_json_array(values: &Vec<serde_json::Value>) -> (r: Result<
    String,
    serde_json::Error,
>)
    ensures
        match r {
            Ok(text) => json_array_text(values@) == Some(text@),
            Err(_) => json_array_text(values@) is None,
        },
{
    serde_json::to_string(values)
}

/// The `Display` text of a `serde_json::Error`. Nothing is claimed of it.
#[verifier::external_body]
pub(crate) fn json_error_text(error: &serde_json::Error) -> String {
    error.to_string()
}

/// A copy of `values`, element by element.
pub fn clone_values(values: &Vec<serde_json::Value>) -> (r: Vec<serde_json::Value>)
    ensures
        r@ == values@,
{
    let mut out: Vec<serde_json::Value> = Vec::new();
    let mut i: usize = 0;
    while i < values.len()
        invariant
            i <= values.len(),
            out@ == values@.take(i as int),
        decreases values.len() - i,
    {
        out.push(values[i].clone());
        i += 1;
    }
    out
}

} // verus!
