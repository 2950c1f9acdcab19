//! Values with a `type`.
//!
//! The wire protocol is an open set of types, told apart by the text under `type`.
//! A value whose type is not one of the core's is kept as it is and passed on.
use vstd::prelude::*;
use vstd::string::*;

verus! {

/// The members of a JSON object. Nothing for a document that is no object.
pub uninterp spec fn json_members(value: serde_json::Value) -> Option<
    Map<Seq<char>, serde_json::Value>,
>;

/// The text of a JSON string. Nothing for a document that is no string.
pub uninterp spec fn json_text(value: serde_json::Value) -> Option<Seq<char>>;

/// `serde_json::Value::get` with a text: the member of that name, where the document
/// is an object that has one.
#[verifier::external_body]
fn member<'a>(value: &'a serde_json::Value, name: &str) -> (r: Option<&'a serde_json::Value>)
    ensures
        match r {
            Some(found) => json_members(*value) is Some && json_members(*value)->0.contains_key(
                name@,
            ) && json_members(*value)->0[name@] == *found,
            None => json_members(*value) is None || !json_members(*value)->0.contains_key(name@),
        },
{
    value.get(name)
}

/// `serde_json::Value::as_str`: the text of a string.
#[verifier::external_body]
fn text_of(value: &serde_json::Value) -> (r: Option<&str>)
    ensures
        match r {
            Some(text) => json_text(*value) == Some(text@),
            None => json_text(*value) is None,
        },
{
    value.as_str()
}

/// `serde_json::Value::as_object_mut`, and `serde_json::Map::insert` with a string
/// on the object it gives: a member of that name is set, or replaced, and the others
/// stay. A document that is no object is handed back.
#[verifier::external_body]
fn with_text(value: serde_json::Value, name: &str, text: &str) -> (r: Result<
    serde_json::Value,
    serde_json::Value,
>)
    ensures
        match r {
            Ok(changed) => json_members(value) is Some && json_members(changed) is Some && {
                let members = json_members(changed)->0;
                &&& members.contains_key(name@)
                &&& json_text(members[name@]) == Some(text@)
                &&& members == json_members(value)->0.insert(name@, members[name@])
            },
            Err(same) => json_members(value) is None && same == value,
        },
{
    let mut value = value;
    match value.as_object_mut() {
        Some(members) => {
            members.insert(name.to_owned(), serde_json::Value::String(text.to_owned()));
            Ok(value)
        },
        None => Err(value),
    }
}

/// The text under `type`, where the document is an object that has one there.
pub open spec fn tag_view(value: serde_json::Value) -> Option<Seq<char>> {
    match json_members(value) {
        Some(members) => if members.contains_key("type"@) {
            json_text(members["type"@])
        } else {
            None
        },
        None => None,
    }
}

/// The text under `type`.
pub fn tag_of(value: &serde_json::Value) -> (r: Option<&str>)
    ensures
        match r {
            Some(tag) => tag_view(*value) == Some(tag@),
            None => tag_view(*value) is None,
        },
{
    match member(value, "type") {
        Some(found) => text_of(found),
        None => None,
    }
}

/// Why a payload could not be given a type.
#[derive(Clone, Copy, Debug, PartialEq, Eq, Structural)]
pub enum TagError {
    /// The payload is no JSON object.
    NotAnObject,
}

impl TagError {
    /// The error as text.
    pub fn to_string(&self) -> (r: String)
        ensures
            r@ == "tagged enum payload did not serialize to a JSON object"@,
    {
        "tagged enum payload did not serialize to a JSON object".to_owned()
    }
}

/// Whether `value` is `payload` with the type `tag`: the text under `type` is `tag`,
/// and everything else is as it was.
pub open spec fn is_tagged(
    payload: serde_json::Value,
    tag: Seq<char>,
    value: serde_json::Value,
) -> bool {
    &&& json_members(payload) is Some
    &&& json_members(value) is Some
    &&& tag_view(value) == Some(tag)
    &&& json_members(value)->0.remove("type"@) == json_members(payload)->0.remove("type"@)
}

/// A payload with its type.
pub fn serialize_tagged(tag: &str, payload: serde_json::Value) -> (r: Result<
    serde_json::Value,
    TagError,
>)
    ensures
        match r {
            Ok(value) => is_tagged(payload, tag@, value),
            Err(_) => json_members(payload) is None,
        },
{
    match with_text(payload, "type", tag) {
        Ok(value) => {
            proof {
                let before = json_members(payload)->0;
                let after = json_members(value)->0;
                assert(after.remove("type"@) =~= before.remove("type"@));
            }
            Ok(value)
        },
        Err(_) => Err(TagError::NotAnObject),
    }
}

/// A value whose type is not one of the core's, kept as it is.
#[derive(Clone, Debug, PartialEq)]
pub struct Extension(pub serde_json::Value);

impl Extension {
    /// The text under `type`.
    #[must_use]
    pub fn kind(&self) -> (r: Option<&str>)
        ensures
            match r {
                Some(tag) => tag_view(self.0) == Some(tag@),
                None => tag_view(self.0) is None,
            },
    {
        tag_of(&self.0)
    }
}

} // verus!
