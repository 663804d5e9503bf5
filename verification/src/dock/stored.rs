//! Which of the two forms a stored layout has.
use vstd::prelude::*;

verus! {

/// A JSON value.
#[verifier::external_type_specification]
#[verifier::external_body]
pub struct ExValue(serde_json::Value);

/// The member names of a JSON object; none for any other JSON value.
pub uninterp spec fn json_keys(v: serde_json::Value) -> Set<Seq<char>>;

/// The member names at the top of a JSON text; `None` where the text is not
/// JSON.
pub uninterp spec fn parsed_keys(text: Seq<char>) -> Option<Set<Seq<char>>>;

/// `serde_json::from_str` into a `Value`: fails exactly where the text is not
/// JSON, and the value it gives has the text's top-level members.
#[verifier::external_body]
fn parse_json(text: &str) -> (r: Option<serde_json::Value>)
    ensures
        parsed_keys(text@) == (match r {
            Some(v) => Some(json_keys(v)),
            None => None,
        }),
{
    serde_json::from_str(text).ok()
}

/// `serde_json::Value::get` with a name: gives a value exactly where the JSON
/// value is an object with a member of that name.
#[verifier::external_body]
fn has_member(v: &serde_json::Value, name: &str) -> (r: bool)
    ensures
        r == json_keys(*v).contains(name@),
{
    v.get(name).is_some()
}

/// Older files name the left panels `left`; newer ones have `left_columns`.
pub open spec fn old_keys(keys: Set<Seq<char>>) -> bool {
    keys.contains("left"@) && !keys.contains("left_columns"@)
}

/// Whether a file with these members is of the older form.
pub fn is_old_form(has_left: bool, has_left_columns: bool) -> (r: bool)
    ensures
        r == (has_left && !has_left_columns),
{
    has_left && !has_left_columns
}

/// Whether a stored layout is of the older form.
pub fn describes_old_layout(text: &str) -> (r: bool)
    ensures
        r == (match parsed_keys(text@) {
            Some(keys) => old_keys(keys),
            None => false,
        }),
{
    match parse_json(text) {
        Some(v) => is_old_form(has_member(&v, "left"), has_member(&v, "left_columns")),
        None => false,
    }
}

} // verus!
