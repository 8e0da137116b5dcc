//! JSON objects, as the claims of a signed token are held.
use vstd::prelude::*;

verus! {

#[verifier::external_type_specification]
#[verifier::external_body]
pub struct ExJsonValue(serde_json::Value);

#[verifier::external_type_specification]
#[verifier::external_body]
#[verifier::reject_recursive_types(K)]
#[verifier::reject_recursive_types(V)]
pub struct ExJsonMap<K, V>(serde_json::Map<K, V>);

/// A JSON object.
pub type JsonObject = serde_json::Map<String, serde_json::Value>;

/// A JSON value, as far as this service tells values apart.
pub enum Json {
    Null,
    Bool(bool),
    /// A number, if it is an integer that fits.
    Number(Option<i64>),
    Text(Seq<char>),
    Array,
    Object(Map<Seq<char>, Json>),
}

/// The members of a JSON object, by name.
pub uninterp spec fn json_members(object: JsonObject) -> Map<Seq<char>, Json>;

/// The value of a member, as it is read from an object.
pub enum JsonMember {
    Null,
    Bool(bool),
    /// A number, if it is an integer that fits.
    Number(Option<i64>),
    Text(String),
    Array,
    Object(JsonObject),
}

impl View for JsonMember {
    type V = Json;

    open spec fn view(&self) -> Json {
        match *self {
            JsonMember::Null => Json::Null,
            JsonMember::Bool(value) => Json::Bool(value),
            JsonMember::Number(value) => Json::Number(value),
            JsonMember::Text(value) => Json::Text(value@),
            JsonMember::Array => Json::Array,
            JsonMember::Object(value) => Json::Object(json_members(value)),
        }
    }
}

/// The value of a member, as it is put into an object.
pub enum NewMember {
    Text(String),
    Integer(i64),
    Object(JsonObject),
}

impl View for NewMember {
    type V = Json;

    open spec fn view(&self) -> Json {
        match *self {
            NewMember::Text(value) => Json::Text(value@),
            NewMember::Integer(value) => Json::Number(Some(value)),
            NewMember::Object(value) => Json::Object(json_members(value)),
        }
    }
}

/// `serde_json::Map::new`: an object without members.
#[verifier::external_body]
pub(crate) fn new_object() -> (r: JsonObject)
    ensures
        (json_members(r) == Map::<Seq<char>, Json>::empty()),
{
    serde_json::Map::new()
}

/// `serde_json::Map::insert`: the member then has that value, and the others
/// are as they were.
#[verifier::external_body]
pub(crate) fn set_member(object: &mut JsonObject, name: &str, value: NewMember)
    ensures
        json_members(*final(object)) == json_members(*old(object)).insert(name@, value@),
{
    let value = match value {
        NewMember::Text(value) => serde_json::Value::from(value),
        NewMember::Integer(value) => serde_json::Value::from(value),
        NewMember::Object(value) => serde_json::Value::from(value),
    };
    object.insert(name.to_string(), value);
}

/// `serde_json::Map::get`: the value of the member of that name, if there is
/// one.
#[verifier::external_body]
pub(crate) fn member(object: &JsonObject, name: &str) -> (r: Option<JsonMember>)
    ensures
        json_members(*object).contains_key(name@) <==> r is Some,
        r matches Some(value) ==> value@ == json_members(*object)[name@],
{
    Some(match object.get(name)? {
        serde_json::Value::Null => JsonMember::Null,
        serde_json::Value::Bool(value) => JsonMember::Bool(*value),
        serde_json::Value::Number(value) => JsonMember::Number(value.as_i64()),
        serde_json::Value::String(value) => JsonMember::Text(value.clone()),
        serde_json::Value::Array(_) => JsonMember::Array,
        serde_json::Value::Object(value) => JsonMember::Object(value.clone()),
    })
}

/// The text that a member holds; nothing where there is no such member, or
/// where it holds something else.
pub open spec fn text_of(members: Map<Seq<char>, Json>, name: Seq<char>) -> Option<Seq<char>> {
    if members.contains_key(name) {
        match members[name] {
            Json::Text(value) => Some(value),
            _ => None,
        }
    } else {
        None
    }
}

/// The integer that a member holds, in the same sense.
pub open spec fn integer_of(members: Map<Seq<char>, Json>, name: Seq<char>) -> Option<i64> {
    if members.contains_key(name) {
        match members[name] {
            Json::Number(value) => value,
            _ => None,
        }
    } else {
        None
    }
}

/// The members of the object that a member holds, in the same sense.
pub open spec fn object_of(members: Map<Seq<char>, Json>, name: Seq<char>) -> Option<
    Map<Seq<char>, Json>,
> {
    if members.contains_key(name) {
        match members[name] {
            Json::Object(value) => Some(value),
            _ => None,
        }
    } else {
        None
    }
}

pub(crate) fn text_member(object: &JsonObject, name: &str) -> (r: Option<String>)
    ensures
        (match text_of(json_members(*object), name@) {
            Some(value) => r is Some && r->0@ == value,
            None => r is None,
        }),
{
    match member(object, name) {
        Some(JsonMember::Text(value)) => Some(value),
        _ => None,
    }
}

pub(crate) fn integer_member(object: &JsonObject, name: &str) -> (r: Option<i64>)
    ensures
        r == integer_of(json_members(*object), name@),
{
    match member(object, name) {
        Some(JsonMember::Number(value)) => value,
        _ => None,
    }
}

pub(crate) fn object_member(object: &JsonObject, name: &str) -> (r: Option<JsonObject>)
    ensures
        (match object_of(json_members(*object), name@) {
            Some(value) => r is Some && json_members(r->0) == value,
            None => r is None,
        }),
{
    match member(object, name) {
        Some(JsonMember::Object(value)) => Some(value),
        _ => None,
    }
}

} // verus!
