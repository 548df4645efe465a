//! JSON values.
use vstd::prelude::*;
use vstd::string::*;

verus! {

broadcast use vstd::string::group_string_axioms;

/// What a JSON value holds. A number is held as its text.
pub enum Json {
    Null,
    Bool(bool),
    Number(Seq<char>),
    Text(Seq<char>),
    List(Seq<Json>),
    Object(Map<Seq<char>, Json>),
}

impl Json {
    /// The member of an object under a key.
    pub open spec fn member(self, key: Seq<char>) -> Option<Json> {
        match self {
            Json::Object(members) => if members.contains_key(key) {
                Some(members[key])
            } else {
                None
            },
            _ => None,
        }
    }

    /// The text that a member of an object is.
    pub open spec fn text_member(self, key: Seq<char>) -> Option<Seq<char>> {
        match self.member(key) {
            Some(Json::Text(s)) => Some(s),
            _ => None,
        }
    }
}

#[verifier::external_type_specification]
#[verifier::external_body]
pub struct ExValue(serde_json::Value);

/// What a JSON value holds.
pub uninterp spec fn json_view(v: serde_json::Value) -> Json;

/// What a list of JSON values holds.
pub open spec fn json_views(list: Seq<serde_json::Value>) -> Seq<Json> {
    Seq::new(list.len(), |i: int| json_view(list[i]))
}

/// The JSON value that a text writes down.
pub uninterp spec fn json_of(text: Seq<char>) -> Option<Json>;

/// Calls `serde_json::from_str`. The value, or that there is none, is taken to depend on the text
/// alone.
#[verifier::external_body]
pub(crate) fn read(text: &str) -> (r: Option<serde_json::Value>)
    ensures
        match r {
            Some(v) => json_of(text@) == Some(json_view(v)),
            None => json_of(text@) is None,
        },
{
    serde_json::from_str(text).ok()
}

/// Calls `serde_json::Value::get` with a key: the member of an object, and nothing for any other
/// value.
#[verifier::external_body]
pub(crate) fn get<'a>(v: &'a serde_json::Value, key: &str) -> (r: Option<&'a serde_json::Value>)
    ensures
        match r {
            Some(x) => json_view(*v).member(key@) == Some(json_view(*x)),
            None => json_view(*v).member(key@) is None,
        },
{
    v.get(key)
}

/// Calls `serde_json::Value::as_str`: the text of a text, and nothing for any other value.
#[verifier::external_body]
pub(crate) fn as_text<'a>(v: &'a serde_json::Value) -> (r: Option<&'a str>)
    ensures
        match r {
            Some(s) => json_view(*v) == Json::Text(s@),
            None => !(json_view(*v) is Text),
        },
{
    v.as_str()
}

/// Calls `serde_json::Value::as_array`: the elements of a list, and nothing for any other value.
#[verifier::external_body]
pub(crate) fn as_list<'a>(v: &'a serde_json::Value) -> (r: Option<&'a Vec<serde_json::Value>>)
    ensures
        match r {
            Some(list) => json_view(*v) == Json::List(json_views(list@)),
            None => !(json_view(*v) is List),
        },
{
    v.as_array()
}

/// A JSON value written out over several lines, or the error.
pub uninterp spec fn pretty_json(v: Json) -> Result<Seq<char>, Seq<char>>;

/// Calls `serde_json::to_string_pretty`. The text, or the error, is taken to depend on what the
/// value holds alone.
#[verifier::external_body]
pub(crate) fn pretty(v: &serde_json::Value) -> (r: Result<String, String>)
    ensures
        match r {
            Ok(s) => pretty_json(json_view(*v)) == Ok::<Seq<char>, Seq<char>>(s@),
            Err(error) => pretty_json(json_view(*v)) == Err::<Seq<char>, Seq<char>>(error@),
        },
{
    serde_json::to_string_pretty(v).map_err(|e| e.to_string())
}

/// Calls `serde_json::Value::from` for a list of values: the list as one value.
#[verifier::external_body]
pub(crate) fn list_value(list: Vec<serde_json::Value>) -> (r: serde_json::Value)
    ensures
        json_view(r) == Json::List(json_views(list@)),
{
    serde_json::Value::from(list)
}

/// The text that a member of an object is.
pub fn text_member<'a>(v: &'a serde_json::Value, key: &str) -> (r: Option<&'a str>)
    ensures
        match r {
            Some(s) => json_view(*v).text_member(key@) == Some(s@),
            None => json_view(*v).text_member(key@) is None,
        },
{
    match get(v, key) {
        Some(member) => as_text(member),
        None => None,
    }
}

/// A member is what an object has under its key; nothing else has members, and only a text is the
/// text of one.
pub proof fn law_only_objects_have_members(v: Json, key: Seq<char>, members: Map<Seq<char>, Json>)
    ensures
        !(v is Object) ==> v.member(key) is None && v.text_member(key) is None,
        members.contains_key(key) ==> Json::Object(members).member(key) == Some(members[key]),
        !members.contains_key(key) ==> Json::Object(members).member(key) is None
            && Json::Object(members).text_member(key) is None,
        members.contains_key(key) ==> Json::Object(members).text_member(key) == (
        match members[key] {
            Json::Text(s) => Some(s),
            _ => None,
        }),
{
}

} // verus!
