//! JSON documents as plain data, and their exchange with `serde_json`.
//!
//! The rest of the library reads documents through [`Json`], whose shape
//! Verus can see. `serde_json` still does the decoding and the rendering;
//! the four trusted functions at the end of this file are the only place
//! where its values are touched.

use serde_json::Error as JsonError;
use serde_json::{Number, Value};
use vstd::prelude::*;

verus! {

#[verifier::external_type_specification]
#[verifier::external_body]
pub struct ExValue(Value);

#[verifier::external_type_specification]
#[verifier::external_body]
pub struct ExNumber(Number);

#[verifier::external_type_specification]
#[verifier::external_body]
pub struct ExJsonError(JsonError);

/// A JSON document of any shape.
///
/// An object is kept as the list of its entries. Where two entries carry the
/// same name the later one counts, as it does when entries are put into a
/// `serde_json` map one after the other.
#[derive(Debug)]
pub enum Json {
    Null,
    Bool(bool),
    Number(Number),
    Text(String),
    Array(Vec<Json>),
    Object(Vec<(String, Json)>),
}

/// The mathematical value of a JSON document.
pub enum JsonView {
    Null,
    Bool(bool),
    Number(Number),
    Text(Seq<char>),
    Array(Seq<JsonView>),
    Object(Map<Seq<char>, JsonView>),
}

impl JsonView {
    /// The member of that name, where this is an object that has one.
    pub open spec fn member(self, name: Seq<char>) -> Option<JsonView> {
        match self {
            JsonView::Object(members) => if members.contains_key(name) {
                Some(members[name])
            } else {
                None
            },
            _ => None,
        }
    }

    /// The characters of this document, where it is a string.
    pub open spec fn text(self) -> Option<Seq<char>> {
        match self {
            JsonView::Text(chars) => Some(chars),
            _ => None,
        }
    }
}

/// The values of a sequence of documents, in order.
pub open spec fn items_view(items: Seq<Json>) -> Seq<JsonView>
    decreases items,
{
    if items.len() == 0 {
        Seq::empty()
    } else {
        items_view(items.drop_last()).push(items.last().view())
    }
}

/// The members that a sequence of entries defines: a later entry replaces an
/// earlier one of the same name.
pub open spec fn members_view(members: Seq<(String, Json)>) -> Map<Seq<char>, JsonView>
    decreases members,
{
    if members.len() == 0 {
        Map::empty()
    } else {
        members_view(members.drop_last()).insert(members.last().0@, members.last().1.view())
    }
}

/// An entry that no later entry of the same name follows is the member of
/// that name.
pub proof fn lemma_last_entry_is_member(members: Seq<(String, Json)>, at: int)
    requires
        0 <= at < members.len(),
        forall|later: int| at < later < members.len() ==> members[later].0@ != members[at].0@,
    ensures
        members_view(members).contains_key(members[at].0@),
        members_view(members)[members[at].0@] == members[at].1.view(),
    decreases members.len(),
{
    if at < members.len() - 1 {
        let front = members.drop_last();
        assert(front[at] == members[at]);
        assert forall|later: int| at < later < front.len() implies front[later].0@ != front[at].0@ by {
            assert(front[later] == members[later]);
        }
        lemma_last_entry_is_member(front, at);
    }
}

/// A name that no entry carries is the name of no member.
pub proof fn lemma_no_entry_no_member(members: Seq<(String, Json)>, name: Seq<char>)
    requires
        forall|at: int| 0 <= at < members.len() ==> members[at].0@ != name,
    ensures
        !members_view(members).contains_key(name),
    decreases members.len(),
{
    if members.len() > 0 {
        let front = members.drop_last();
        assert forall|at: int| 0 <= at < front.len() implies front[at].0@ != name by {
            assert(front[at] == members[at]);
        }
        lemma_no_entry_no_member(front, name);
    }
}

impl Json {
    pub open spec fn view(&self) -> JsonView
        decreases self,
    {
        match self {
            Json::Null => JsonView::Null,
            Json::Bool(b) => JsonView::Bool(*b),
            Json::Number(n) => JsonView::Number(*n),
            Json::Text(s) => JsonView::Text(s@),
            Json::Array(items) => JsonView::Array(items_view(items@)),
            Json::Object(members) => JsonView::Object(members_view(members@)),
        }
    }

    /// Looks a member up by name. Anything but an object has no members.
    pub fn get(&self, name: &str) -> (found: Option<&Json>)
        ensures
            match found {
                Some(json) => self@.member(name@) == Some(json@),
                None => self@.member(name@) is None,
            },
    {
        match self {
            Json::Object(members) => {
                let wanted = name.to_owned();
                let mut at: usize = members.len();
                while at > 0
                    invariant
                        at <= members.len(),
                        wanted@ == name@,
                        self@ == JsonView::Object(members_view(members@)),
                        forall|later: int| at <= later < members.len() ==> members@[later].0@ != name@,
                    decreases at,
                {
                    at = at - 1;
                    if members[at].0 == wanted {
                        proof {
                            lemma_last_entry_is_member(members@, at as int);
                        }
                        return Some(&members[at].1);
                    }
                }
                proof {
                    lemma_no_entry_no_member(members@, name@);
                }
                None
            },
            _ => None,
        }
    }

    /// The text of this document, where it is a string.
    pub fn as_str(&self) -> (text: Option<&str>)
        ensures
            match text {
                Some(s) => self@.text() == Some(s@),
                None => self@.text() is None,
            },
    {
        match self {
            Json::Text(s) => Some(s.as_str()),
            _ => None,
        }
    }

    /// Whether this document is an object.
    pub fn is_object(&self) -> (yes: bool)
        ensures
            yes == (self@ is Object),
    {
        match self {
            Json::Object(_) => true,
            _ => false,
        }
    }

    /// Decodes a text with `serde_json`.
    pub fn parse(text: &str) -> (outcome: Result<Json, JsonError>)
        ensures
            match outcome {
                Ok(json) => parsed(text@) == Some(json@),
                Err(_) => parsed(text@) is None,
            },
    {
        match parse_value(text) {
            Ok(value) => Ok(json_of_value(value)),
            Err(e) => Err(e),
        }
    }

    /// Renders this document as `serde_json` prints it: compact, the members
    /// of an object in the order of their names.
    pub fn to_text(&self) -> (text: String)
        ensures
            text@ == rendered(self@),
    {
        let value = value_of_json(self);
        value_text(&value)
    }
}

/// The document that `serde_json::from_str` reads from a text, or `None`
/// where it rejects the text.
pub uninterp spec fn parsed(text: Seq<char>) -> Option<JsonView>;

/// The document that a `serde_json::Value` holds.
pub uninterp spec fn value_view(value: Value) -> JsonView;

/// The text that `serde_json` prints for a document.
pub uninterp spec fn rendered(json: JsonView) -> Seq<char>;

/// `serde_json::from_str` at `Value`. Trusted: the result is named, not
/// described; two calls on one text read the same document.
#[verifier::external_body]
fn parse_value(text: &str) -> (outcome: Result<Value, JsonError>)
    ensures
        match outcome {
            Ok(value) => parsed(text@) == Some(value_view(value)),
            Err(_) => parsed(text@) is None,
        },
{
    serde_json::from_str::<Value>(text)
}

/// Takes a `serde_json::Value` apart, variant by variant. Trusted: the
/// result holds what the value held; a `serde_json` map hands out each name
/// once.
#[verifier::external_body]
pub(crate) fn json_of_value(value: Value) -> (json: Json)
    ensures
        json@ == value_view(value),
{
    match value {
        Value::Null => Json::Null,
        Value::Bool(b) => Json::Bool(b),
        Value::Number(n) => Json::Number(n),
        Value::String(s) => Json::Text(s),
        Value::Array(items) => Json::Array(items.into_iter().map(json_of_value).collect()),
        Value::Object(members) => Json::Object(
            members.into_iter().map(|(name, member)| (name, json_of_value(member))).collect(),
        ),
    }
}

/// Builds the `serde_json::Value` of a document, variant by variant.
/// Trusted: the value holds what the document holds; `Map::insert` replaces
/// the member that an earlier entry of the same name put there.
#[verifier::external_body]
fn value_of_json(json: &Json) -> (value: Value)
    ensures
        value_view(value) == json@,
{
    match json {
        Json::Null => Value::Null,
        Json::Bool(b) => Value::Bool(*b),
        Json::Number(n) => Value::Number(n.clone()),
        Json::Text(s) => Value::String(s.clone()),
        Json::Array(items) => Value::Array(items.iter().map(value_of_json).collect()),
        Json::Object(members) => {
            let mut map = serde_json::Map::new();
            for (name, member) in members {
                map.insert(name.clone(), value_of_json(member));
            }
            Value::Object(map)
        },
    }
}

/// `to_string` of a `serde_json::Value`. Trusted: the text is named, not
/// described; it depends on what the value holds and on nothing else. That
/// is so while `serde_json` keeps the members of an object in the order of
/// their names, as it does unless built with `preserve_order`.
#[verifier::external_body]
fn value_text(value: &Value) -> (text: String)
    ensures
        text@ == rendered(value_view(*value)),
{
    value.to_string()
}

} // verus!
