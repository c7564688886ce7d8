//! The arguments of a tool as a JSON object.
use crate::text::joined;
use serde_json::Value;
use vstd::prelude::*;

verus! {

/// A JSON value, `serde_json::Value`; what it holds is named `json_object` and `json_text`.
#[verifier::external_type_specification]
#[verifier::external_body]
pub struct ExValue(Value);

/// The members of a JSON object, `serde_json::Map`, which are carried through unread.
#[verifier::external_type_specification]
#[verifier::external_body]
#[verifier::reject_recursive_types(K)]
#[verifier::reject_recursive_types(V)]
pub struct ExJsonMap<K, V>(serde_json::Map<K, V>);

/// The members of a JSON object, each name with its value.
pub type JsonObject = serde_json::Map<String, Value>;

/// The members that a JSON value holds, if it is an object, as `Value::as_object` gives them.
pub uninterp spec fn json_object(value: Value) -> Option<JsonObject>;

/// The JSON text of a value, as `Value::to_string` writes it.
pub uninterp spec fn json_text(value: Value) -> Seq<char>;

/// Tells the variant `Value::Object` from the others, and gives its members.
#[verifier::external_body]
fn into_object(value: Value) -> (object: Result<JsonObject, Value>)
    ensures
        match object {
            Ok(members) => json_object(value) == Some(members),
            Err(other) => json_object(value) is None && other == value,
        },
{
    match value {
        Value::Object(members) => Ok(members),
        other => Err(other),
    }
}

/// Calls `Value::to_string`, whose result is named `json_text`.
#[verifier::external_body]
fn write_json(value: &Value) -> (text: String)
    ensures
        text@ == json_text(*value),
{
    value.to_string()
}

/// A JSON value that is not an object, where the arguments of a tool were expected.
#[derive(Debug)]
pub struct ArgumentsError {
    /// The JSON text of the value.
    pub got: String,
}

impl ArgumentsError {
    /// The error in words.
    pub fn message(&self) -> (text: String)
        ensures
            text@ == "expected arguments to be a JSON object, got "@ + self.got@,
    {
        joined("expected arguments to be a JSON object, got ", self.got.as_str())
    }
}

/// Takes the members out of a JSON object, and refuses any other value.
pub fn value_to_json_object(value: Value) -> (object: Result<JsonObject, ArgumentsError>)
    ensures
        match json_object(value) {
            Some(members) => object == Ok::<JsonObject, ArgumentsError>(members),
            None => object matches Err(error) && error.got@ == json_text(value),
        },
{
    match into_object(value) {
        Ok(members) => Ok(members),
        Err(other) => Err(ArgumentsError { got: write_json(&other) }),
    }
}

/// The members of an object are taken out unchanged. Any other value is refused, with its text at
/// the end of what is said.
pub proof fn law_only_objects_are_arguments(
    value: Value,
    object: Result<JsonObject, ArgumentsError>,
)
    requires
        call_ensures(value_to_json_object, (value,), object),
    ensures
        object matches Ok(members) ==> json_object(value) == Some(members),
        object matches Err(error) ==> json_object(value) is None && error.got@ == json_text(value),
        object matches Err(error) ==> forall|text: String|
            call_ensures(ArgumentsError::message, (&error,), text) ==> #[trigger] text@
                == "expected arguments to be a JSON object, got "@ + json_text(value),
{
}

} // verus!
