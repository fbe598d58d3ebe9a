//! The one call into serde_json that the greeter makes: parse the textual
//! body and read its `name` field, when that field holds a JSON string.

use vstd::prelude::*;

verus! {

/// Whether serde_json accepts the text as one well-formed JSON document.
pub uninterp spec fn json_well_formed(text: Seq<char>) -> bool;

/// The string held by the `name` field of the document parsed from `text`:
/// `Some` exactly when the document is a JSON object with a `name` field
/// whose value is a JSON string, `None` for every other document.
pub uninterp spec fn json_name_string(text: Seq<char>) -> Option<Seq<char>>;

#[verifier::external_type_specification]
#[verifier::external_body]
pub struct ExError(serde_json::Error);

/// Relies on serde_json: `from_str::<Value>` parses the text, and succeeds
/// exactly when the text is well-formed JSON; `Value::get("name")` returns
/// the value of the `name` field of an object, if any, and `None` on any
/// other document; `Value::as_str` returns the contained string exactly when
/// the value is a JSON string. All three depend on their arguments alone, so
/// the composite result is named by the two spec functions above.
#[verifier::external_body]
pub(crate) fn lookup_name(text: &str) -> (r: Result<Option<String>, serde_json::Error>)
    ensures
        r is Ok <==> json_well_formed(text@),
        match r {
            Ok(Some(n)) => json_name_string(text@) == Some(n@),
            Ok(None) => json_name_string(text@) is None,
            Err(_) => true,
        },
{
    let value: serde_json::Value = serde_json::from_str(text)?;
    match value.get("name").and_then(serde_json::Value::as_str) {
        Some(name) => Ok(Some(name.to_owned())),
        None => Ok(None),
    }
}

} // verus!
