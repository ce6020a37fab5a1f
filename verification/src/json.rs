//! JSON documents as plain data.
//!
//! Text is decoded by `serde_json`; everything that inspects a decoded
//! document works on [`Json`], whose mathematical model is [`JsonValue`].

use vstd::prelude::*;
use crate::text::str_eq;

verus! {

/// A decoded JSON document.
#[derive(Debug, PartialEq, Eq)]
pub enum Json {
    Null,
    Bool(bool),
    /// A number, kept as the decimal text `serde_json` prints for it.
    Number(String),
    Text(String),
    Array(Vec<Json>),
    /// The members of an object, each a name and a value.
    Object(Vec<(String, Json)>),
}

/// The mathematical model of a [`Json`] document.
pub enum JsonValue {
    Null,
    Bool(bool),
    Number(Seq<char>),
    Text(Seq<char>),
    Array(Seq<JsonValue>),
    Object(Seq<(Seq<char>, JsonValue)>),
}

impl Json {
    /// The document as a mathematical value.
    pub open spec fn model(&self) -> JsonValue
        decreases self,
    {
        match self {
            Json::Null => JsonValue::Null,
            Json::Bool(b) => JsonValue::Bool(*b),
            Json::Number(n) => JsonValue::Number(n@),
            Json::Text(s) => JsonValue::Text(s@),
            Json::Array(items) => JsonValue::Array(
                Seq::new(
                    items@.len(),
                    |i: int|
                        if 0 <= i < items@.len() {
                            items@[i].model()
                        } else {
                            JsonValue::Null
                        },
                ),
            ),
            Json::Object(members) => JsonValue::Object(
                Seq::new(
                    members@.len(),
                    |i: int|
                        if 0 <= i < members@.len() {
                            (members@[i].0@, members@[i].1.model())
                        } else {
                            (Seq::empty(), JsonValue::Null)
                        },
                ),
            ),
        }
    }
}

/// The models of the items of an array, in order.
pub open spec fn items_model(items: Seq<Json>) -> Seq<JsonValue> {
    Seq::new(items.len(), |i: int| items[i].model())
}

/// The models of the members of an object, in order.
pub open spec fn members_model(members: Seq<(String, Json)>) -> Seq<(Seq<char>, JsonValue)> {
    Seq::new(members.len(), |i: int| (members[i].0@, members[i].1.model()))
}

/// The value of the first member called `name`, if there is one.
pub open spec fn find_member(members: Seq<(Seq<char>, JsonValue)>, name: Seq<char>) -> Option<
    JsonValue,
>
    decreases members.len(),
{
    if members.len() == 0 {
        None
    } else if members[0].0 == name {
        Some(members[0].1)
    } else {
        find_member(members.drop_first(), name)
    }
}

/// The member called `name` of an object; nothing for any other document.
pub open spec fn member_of(doc: JsonValue, name: Seq<char>) -> Option<JsonValue> {
    match doc {
        JsonValue::Object(members) => find_member(members, name),
        _ => None,
    }
}

/// What `serde_json` decodes `text` to: the document, or nothing where the
/// text is not one well-formed JSON value.
pub uninterp spec fn json_document(text: Seq<char>) -> Option<JsonValue>;

#[verifier::external_type_specification]
#[verifier::external_body]
pub struct ExJsonTree(serde_json::Value);

#[verifier::external_type_specification]
#[verifier::external_body]
pub struct ExJsonFault(serde_json::Error);

/// Moves a `serde_json::Value` into a [`Json`], variant by variant; a number
/// becomes the text that `serde_json::Number` displays. Nothing is claimed of
/// the result here: [`decode_json`] names it.
#[verifier::external_body]
fn lift(value: serde_json::Value) -> Json {
    match value {
        serde_json::Value::Null => Json::Null,
        serde_json::Value::Bool(b) => Json::Bool(b),
        serde_json::Value::Number(n) => Json::Number(n.to_string()),
        serde_json::Value::String(s) => Json::Text(s),
        serde_json::Value::Array(items) => Json::Array(items.into_iter().map(lift).collect()),
        serde_json::Value::Object(members) => Json::Object(
            members.into_iter().map(|(k, v)| (k, lift(v))).collect(),
        ),
    }
}

/// Calls `serde_json::from_str` for a `serde_json::Value`. The contract only
/// names the outcome: on success the document is `json_document` of the
/// text, and the call fails exactly where `json_document` is nothing.
#[verifier::external_body]
pub(crate) fn decode_json(text: &str) -> (r: Result<Json, serde_json::Error>)
    ensures
        match r {
            Ok(doc) => json_document(text@) == Some(doc.model()),
            Err(_) => json_document(text@) is None,
        },
{
    match serde_json::from_str::<serde_json::Value>(text) {
        Ok(value) => Ok(lift(value)),
        Err(fault) => Err(fault),
    }
}

/// Calls `to_string` on a `serde_json::Error`: the message it displays.
/// Nothing is claimed of the text.
#[verifier::external_body]
pub(crate) fn fault_text(fault: &serde_json::Error) -> String {
    fault.to_string()
}

/// The model of an object lists the models of its members in order, that of
/// an array the models of its items, and that of a leaf is the leaf.
pub proof fn lemma_model_shape(doc: Json)
    ensures
        doc matches Json::Object(members) ==> doc.model() == JsonValue::Object(
            members_model(members@),
        ),
        doc matches Json::Array(items) ==> doc.model() == JsonValue::Array(items_model(items@)),
        doc matches Json::Text(s) ==> doc.model() == JsonValue::Text(s@),
        doc matches Json::Number(n) ==> doc.model() == JsonValue::Number(n@),
        doc matches Json::Bool(b) ==> doc.model() == JsonValue::Bool(b),
        doc is Null ==> doc.model() is Null,
{
    match doc {
        Json::Object(members) => {
            assert(doc.model()->Object_0 =~= members_model(members@));
        },
        Json::Array(items) => {
            assert(doc.model()->Array_0 =~= items_model(items@));
        },
        _ => {},
    }
}

impl Json {
    /// The first member called `name`, where `self` is an object that has one.
    pub fn member<'a>(&'a self, name: &str) -> (r: Option<&'a Json>)
        ensures
            match r {
                Some(value) => member_of(self.model(), name@) == Some(value.model()),
                None => member_of(self.model(), name@) is None,
            },
    {
        match self {
            Json::Object(members) => {
                let ghost all = members_model(members@);
                proof {
                    lemma_model_shape(*self);
                    assert(all.skip(0) =~= all);
                }
                let mut i: usize = 0;
                while i < members.len()
                    invariant
                        i <= members.len(),
                        all == members_model(members@),
                        self.model() == JsonValue::Object(all),
                        find_member(all, name@) == find_member(all.skip(i as int), name@),
                    decreases members.len() - i,
                {
                    let ghost rest = all.skip(i as int);
                    assert(rest[0] == all[i as int]);
                    assert(all[i as int] == (members@[i as int].0@, members@[i as int].1.model()));
                    assert(rest.drop_first() =~= all.skip(i as int + 1));
                    if str_eq(members[i].0.as_str(), name) {
                        return Some(&members[i].1);
                    }
                    i += 1;
                }
                None
            },
            _ => None,
        }
    }
}

} // verus!
