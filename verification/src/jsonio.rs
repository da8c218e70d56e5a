use vstd::prelude::*;
use crate::render::number_text_chars;

verus! {

// The boundary to serde_json. The provider's success body is parsed by
// serde_json and walked as a `serde_json::Value`; the value itself is opaque
// here, but each lookup is a function of its arguments alone, so the
// results carry names that the callers' contracts speak of.

/// Declares serde_json::Value so that payloads can be carried through
/// signatures; the value is opaque to the proofs.
#[verifier::external_type_specification]
#[verifier::external_body]
pub struct ExJsonValue(serde_json::Value);

/// Declares serde_json::Error, the rejection serde_json::from_str reports.
#[verifier::external_type_specification]
#[verifier::external_body]
pub struct ExJsonError(serde_json::Error);

/// Whether serde_json accepts the text as a JSON document. Parsing is a
/// function of the text alone, so the outcome has a name here.
pub uninterp spec fn is_json_text(s: Seq<char>) -> bool;

/// The value serde_json parses an accepted text into.
pub uninterp spec fn json_value_of(s: Seq<char>) -> serde_json::Value;

/// The member a lookup by key finds: `Some` exactly when the value is an
/// object with that key.
pub uninterp spec fn json_member_of(v: serde_json::Value, key: Seq<char>) -> Option<
    serde_json::Value,
>;

/// The text a value holds: `Some` exactly when the value is a JSON string.
pub uninterp spec fn json_text_of(v: serde_json::Value) -> Option<Seq<char>>;

/// The decimal text a value renders to: `Some` exactly when the value is a
/// JSON number.
pub uninterp spec fn json_num_text_of(v: serde_json::Value) -> Option<Seq<char>>;

/// Relies on serde_json::from_str for `Value`: it parses the text alone,
/// returns `Ok` exactly when the text is a JSON document it accepts, and
/// the parsed value is a function of the text.
#[verifier::external_body]
pub(crate) fn json_from_str(s: &str) -> (r: Result<serde_json::Value, serde_json::Error>)
    ensures
        r is Ok <==> is_json_text(s@),
        r is Ok ==> r->Ok_0 == json_value_of(s@),
{
    serde_json::from_str::<serde_json::Value>(s)
}

/// Relies on serde_json::Value::get with a string index: `Some` of the
/// named member when the value is an object that has that key, `None`
/// otherwise; the member found is a function of the value and the key.
#[verifier::external_body]
pub(crate) fn json_get<'a>(v: &'a serde_json::Value, key: &str) -> (r: Option<
    &'a serde_json::Value,
>)
    ensures
        r is Some <==> json_member_of(*v, key@) is Some,
        r is Some ==> *r->0 == json_member_of(*v, key@)->0,
{
    v.get(key)
}

/// Relies on serde_json::Value::as_str: `Some` of the text exactly when the
/// value is a JSON string.
#[verifier::external_body]
pub(crate) fn json_as_string(v: &serde_json::Value) -> (r: Option<String>)
    ensures
        r is Some <==> json_text_of(*v) is Some,
        r is Some ==> r->0@ == json_text_of(*v)->0,
{
    match v.as_str() {
        Some(s) => Some(s.to_owned()),
        None => None,
    }
}

/// Relies on serde_json::Value's `Number` variant and on Number's decimal
/// rendering: `Some` of the number's text exactly when the value is a JSON
/// number. The rendering spells a finite number in decimal, so its text
/// holds only digits, signs, a decimal point or an exponent mark.
#[verifier::external_body]
pub(crate) fn json_number_text(v: &serde_json::Value) -> (r: Option<String>)
    ensures
        r is Some <==> json_num_text_of(*v) is Some,
        r is Some ==> r->0@ == json_num_text_of(*v)->0,
        r is Some ==> number_text_chars(r->0@),
    {
    match v {
        serde_json::Value::Number(n) => Some(n.to_string()),
        _ => None,
    }
}

} // verus!
