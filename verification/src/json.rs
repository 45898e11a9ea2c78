//! A JSON document as a tree of plain values, and the reader that produces
//! it from text.
//!
//! The grammar of JSON is not stated here: text is read by `serde_json`,
//! with `serde_path_to_error` recording how far into the document the reader
//! had come when it gave up. What the reader makes of a text is named
//! [`parsed_text`]; everything this crate proves about a report is proved
//! for every tree, whatever text it came from.
use crate::text::same_text;
use vstd::prelude::*;
use vstd::string::*;

verus! {

/// A JSON value.
///
/// A number is kept as the text of its numeral. The members of an object
/// are kept in sequence; looking up a key finds the first member that has it.
#[derive(Debug, PartialEq, Eq)]
pub enum Json {
    Null,
    Bool(bool),
    Number(String),
    Text(String),
    Array(Vec<Json>),
    Object(Vec<(String, Json)>),
}

/// The mathematical content of a [`Json`].
pub enum JsonValue {
    Null,
    Bool(bool),
    Number(Seq<char>),
    Text(Seq<char>),
    Array(Seq<JsonValue>),
    Object(Seq<(Seq<char>, JsonValue)>),
}

/// The six kinds of JSON value.
#[derive(Debug, Clone, Copy, PartialEq, Eq, Structural)]
pub enum JsonKind {
    Null,
    Bool,
    Number,
    Text,
    Array,
    Object,
}

impl JsonValue {
    /// The kind of this value.
    pub open spec fn kind(self) -> JsonKind {
        match self {
            JsonValue::Null => JsonKind::Null,
            JsonValue::Bool(_) => JsonKind::Bool,
            JsonValue::Number(_) => JsonKind::Number,
            JsonValue::Text(_) => JsonKind::Text,
            JsonValue::Array(_) => JsonKind::Array,
            JsonValue::Object(_) => JsonKind::Object,
        }
    }
}

/// The value of the first member of `members` whose key is `key`.
pub open spec fn member(members: Seq<(Seq<char>, JsonValue)>, key: Seq<char>) -> Option<JsonValue>
    decreases members.len(),
{
    if members.len() == 0 {
        None
    } else if members[0].0 == key {
        Some(members[0].1)
    } else {
        member(members.drop_first(), key)
    }
}

/// The content of a tree, by recursion over its structure.
pub open spec fn tree_value(tree: Json) -> JsonValue
    decreases tree,
{
    match tree {
        Json::Null => JsonValue::Null,
        Json::Bool(b) => JsonValue::Bool(b),
        Json::Number(numeral) => JsonValue::Number(numeral@),
        Json::Text(text) => JsonValue::Text(text@),
        Json::Array(items) => JsonValue::Array(
            Seq::new(
                items@.len(),
                |i: int|
                    if 0 <= i < items@.len() {
                        tree_value(items@[i])
                    } else {
                        JsonValue::Null
                    },
            ),
        ),
        Json::Object(members) => JsonValue::Object(
            Seq::new(
                members@.len(),
                |i: int|
                    if 0 <= i < members@.len() {
                        (members@[i].0@, tree_value(members@[i].1))
                    } else {
                        (Seq::empty(), JsonValue::Null)
                    },
            ),
        ),
    }
}

impl View for Json {
    type V = JsonValue;

    open spec fn view(&self) -> JsonValue {
        tree_value(*self)
    }
}

/// An array's view holds the views of its items, in order.
pub proof fn lemma_array_view(items: Vec<Json>)
    ensures
        Json::Array(items)@ is Array,
        Json::Array(items)@->Array_0.len() == items@.len(),
        forall|i: int|
            0 <= i < items@.len() ==> (#[trigger] Json::Array(items)@->Array_0[i]) == items@[i]@,
{
}

/// An object's view holds the keys of its members with the views of their
/// values, in order.
pub proof fn lemma_object_view(members: Vec<(String, Json)>)
    ensures
        Json::Object(members)@ is Object,
        Json::Object(members)@->Object_0.len() == members@.len(),
        forall|i: int|
            0 <= i < members@.len() ==> (#[trigger] Json::Object(members)@->Object_0[i]) == (
                members@[i].0@,
                members@[i].1@,
            ),
{
}

/// Why a text is not a JSON document: how far into the document the reader
/// had come, written as a path such as `Projects[0].Name` (`.` for the top),
/// and the reader's own message.
#[derive(Debug, Clone, PartialEq, Eq)]
pub struct SyntaxFault {
    pub path: String,
    pub message: String,
}

/// The mathematical content of a [`SyntaxFault`].
pub struct SyntaxFaultView {
    pub path: Seq<char>,
    pub message: Seq<char>,
}

impl View for SyntaxFault {
    type V = SyntaxFaultView;

    open spec fn view(&self) -> SyntaxFaultView {
        SyntaxFaultView { path: self.path@, message: self.message@ }
    }
}

/// The view of what reading a text gave.
pub open spec fn parse_view(r: Result<Json, SyntaxFault>) -> Result<JsonValue, SyntaxFaultView> {
    match r {
        Ok(tree) => Ok(tree@),
        Err(fault) => Err(fault@),
    }
}

/// `serde_json::Value`, a JSON document as `serde_json` holds it.
#[verifier::external_type_specification]
#[verifier::external_body]
pub struct ExValue(serde_json::Value);

/// The tree that a `serde_json::Value` holds: its own variants one for one,
/// a number as the text that `serde_json` prints for it, the members of an
/// object in the order in which `serde_json` walks them.
pub uninterp spec fn value_tree(v: serde_json::Value) -> JsonValue;

/// What the JSON reader makes of `text`: the document that the text begins
/// with, or where and why the reader gave up.
pub uninterp spec fn parsed_text(text: Seq<char>) -> Result<JsonValue, SyntaxFaultView>;

/// Reads the document at the start of `text` with
/// `serde_json::Deserializer::from_str` under
/// `serde_path_to_error::deserialize`. The result depends on the text alone;
/// the contract gives it the name [`parsed_text`] and claims nothing else of
/// it. On failure the path and the message are those that the two crates
/// print.
#[verifier::external_body]
fn read_value(text: &str) -> (r: Result<serde_json::Value, SyntaxFault>)
    ensures
        match r {
            Ok(v) => parsed_text(text@) == Ok::<JsonValue, SyntaxFaultView>(value_tree(v)),
            Err(fault) => parsed_text(text@) == Err::<JsonValue, SyntaxFaultView>(fault@),
        },
{
    let reader = &mut serde_json::Deserializer::from_str(text);
    serde_path_to_error::deserialize::<_, serde_json::Value>(reader).map_err(
        |e| SyntaxFault { path: e.path().to_string(), message: e.inner().to_string() },
    )
}

/// Moves a `serde_json::Value` into a [`Json`], variant by variant. The
/// contract says that the result holds what the value held, under the name
/// [`value_tree`].
#[verifier::external_body]
fn tree_of_value(v: serde_json::Value) -> (tree: Json)
    ensures
        tree@ == value_tree(v),
{
    match v {
        serde_json::Value::Null => Json::Null,
        serde_json::Value::Bool(b) => Json::Bool(b),
        serde_json::Value::Number(n) => Json::Number(n.to_string()),
        serde_json::Value::String(s) => Json::Text(s),
        serde_json::Value::Array(a) => Json::Array(a.into_iter().map(tree_of_value).collect()),
        serde_json::Value::Object(o) => Json::Object(
            o.into_iter().map(|(k, x)| (k, tree_of_value(x))).collect(),
        ),
    }
}

impl Json {
    /// Reads the JSON document that `text` begins with.
    ///
    /// Text behind the document is not looked at.
    pub fn parse(text: &str) -> (r: Result<Json, SyntaxFault>)
        ensures
            parse_view(r) == parsed_text(text@),
    {
        match read_value(text) {
            Ok(v) => Ok(tree_of_value(v)),
            Err(fault) => Err(fault),
        }
    }

    /// The kind of this value.
    pub fn kind(&self) -> (k: JsonKind)
        ensures
            k == self@.kind(),
    {
        match self {
            Json::Null => JsonKind::Null,
            Json::Bool(_) => JsonKind::Bool,
            Json::Number(_) => JsonKind::Number,
            Json::Text(_) => JsonKind::Text,
            Json::Array(_) => JsonKind::Array,
            Json::Object(_) => JsonKind::Object,
        }
    }

    /// The value under `key`, if this is an object that has the key.
    pub fn get(&self, key: &str) -> (r: Option<&Json>)
        ensures
            match self@ {
                JsonValue::Object(members) => match r {
                    Some(found) => member(members, key@) == Some(found@),
                    None => member(members, key@) is None,
                },
                _ => r is None,
            },
    {
        match self {
            Json::Object(members) => {
                let ghost all = self@->Object_0;
                let mut i: usize = 0;
                proof {
                    lemma_object_view(*members);
                }
                assert(all.skip(0) =~= all);
                while i < members.len()
                    invariant
                        i <= members.len(),
                        self@ == JsonValue::Object(all),
                        *self == Json::Object(*members),
                        all.len() == members@.len(),
                        member(all, key@) == member(all.skip(i as int), key@),
                    decreases members.len() - i,
                {
                    let ghost rest = all.skip(i as int);
                    assert(rest[0] == all[i as int]);
                    if same_text(members[i].0.as_str(), key) {
                        return Some(&members[i].1);
                    }
                    assert(rest.drop_first() =~= all.skip(i + 1));
                    i += 1;
                }
                None
            },
            _ => None,
        }
    }
}

} // verus!
