//! JSON documents as trees of plain values, and the two calls into `serde_json`
//! that the rest of the crate is built on: reading a text into a tree, and
//! writing a string as a JSON string literal.

use vstd::prelude::*;

verus! {

/// A JSON document held as plain values.
///
/// A number keeps the decimal text that `serde_json` prints for it; an object
/// keeps its members in the order in which `serde_json` hands them out.
#[derive(Debug)]
pub enum Json {
    Null,
    Bool(bool),
    Number(String),
    Text(String),
    Array(Vec<Json>),
    Object(Vec<Member>),
}

/// One member of a JSON object.
#[derive(Debug)]
pub struct Member {
    pub key: String,
    pub value: Json,
}

/// The mathematical value of a [`Json`] tree.
pub enum JsonValue {
    Null,
    Bool(bool),
    Number(Seq<char>),
    Text(Seq<char>),
    Array(Seq<JsonValue>),
    Object(Seq<MemberValue>),
}

/// The mathematical value of a [`Member`].
pub struct MemberValue {
    pub key: Seq<char>,
    pub value: JsonValue,
}

impl View for Json {
    type V = JsonValue;

    open spec fn view(&self) -> JsonValue
        decreases self,
    {
        match self {
            Json::Null => JsonValue::Null,
            Json::Bool(b) => JsonValue::Bool(*b),
            Json::Number(n) => JsonValue::Number(n@),
            Json::Text(s) => JsonValue::Text(s@),
            Json::Array(items) => JsonValue::Array(
                Seq::new(
                    items@.len(),
                    |i: int|
                        if 0 <= i < items@.len() {
                            items@[i]@
                        } else {
                            JsonValue::Null
                        },
                ),
            ),
            Json::Object(members) => JsonValue::Object(
                Seq::new(
                    members@.len(),
                    |i: int|
                        if 0 <= i < members@.len() {
                            MemberValue { key: members@[i].key@, value: members@[i].value@ }
                        } else {
                            MemberValue { key: Seq::empty(), value: JsonValue::Null }
                        },
                ),
            ),
        }
    }
}

/// The value stored under `key` by the first of `members` that carries that
/// key, or `None` when no member does.
pub open spec fn lookup(members: Seq<MemberValue>, key: Seq<char>) -> Option<JsonValue>
    decreases members.len(),
{
    if members.len() == 0 {
        None
    } else if members[0].key == key {
        Some(members[0].value)
    } else {
        lookup(members.skip(1), key)
    }
}

impl JsonValue {
    /// The member called `key`, when this value is an object that has one.
    pub open spec fn member(self, key: Seq<char>) -> Option<JsonValue> {
        match self {
            JsonValue::Object(members) => lookup(members, key),
            _ => None,
        }
    }
}

/// The view of an optional tree.
pub open spec fn view_of(tree: Option<Json>) -> Option<JsonValue> {
    match tree {
        Some(j) => Some(j@),
        None => None,
    }
}

/// What `serde_json::from_str` makes of `text`: the document it reads there,
/// or `None` where it reports an error.
///
/// The document is taken as [`read_document`] hands it on: a number as the
/// text that `serde_json` prints for it, the members of an object in the
/// order in which `serde_json` walks them.
pub uninterp spec fn parsed_json(text: Seq<char>) -> Option<JsonValue>;

/// The JSON string literal, quotes and escapes included, that
/// `serde_json::to_string` writes for the string `text`.
pub uninterp spec fn json_quoted(text: Seq<char>) -> Seq<char>;

/// `serde_json::Value`, declared so that it can pass from the parser to
/// [`lift`]. Nothing is claimed about what a value holds.
#[verifier::external_type_specification]
#[verifier::external_body]
pub struct ExValue(serde_json::Value);

/// Moves a `serde_json::Value` into a [`Json`] tree, one variant to one
/// variant. A `serde_json::Number` becomes the text that its `Display` impl
/// prints; the members of a `serde_json::Map` are taken in the order of its
/// own iterator. Nothing is claimed about the result here: what the trees
/// are is part of the name [`parsed_json`].
#[verifier::external_body]
fn lift(value: serde_json::Value) -> Json {
    match value {
        serde_json::Value::Null => Json::Null,
        serde_json::Value::Bool(b) => Json::Bool(b),
        serde_json::Value::Number(n) => Json::Number(n.to_string()),
        serde_json::Value::String(s) => Json::Text(s),
        serde_json::Value::Array(a) => Json::Array(a.into_iter().map(lift).collect()),
        serde_json::Value::Object(m) => Json::Object(
            m.into_iter().map(|(key, v)| Member { key, value: lift(v) }).collect(),
        ),
    }
}

/// Calls `serde_json::from_str` for a `serde_json::Value` and hands the
/// document on as a [`Json`] tree. The parser reads nothing but the text, so
/// the outcome is a function of the text and is given the name
/// [`parsed_json`]; `None` stands for every error that the parser reports.
/// Nothing is claimed about which text reads as which document.
#[verifier::external_body]
pub(crate) fn read_document(text: &str) -> (r: Option<Json>)
    ensures
        view_of(r) == parsed_json(text@),
{
    serde_json::from_str::<serde_json::Value>(text).ok().map(lift)
}

/// Calls `serde_json::to_string` on a `str`, which writes the string as a
/// JSON string literal. The serializer writes into memory and a `str` has
/// nothing that could refuse to be written, so the call does not fail. The
/// literal is a function of the string and is given the name
/// [`json_quoted`]; nothing is claimed about how a character is escaped.
#[verifier::external_body]
pub(crate) fn write_string_literal(text: &str) -> (r: String)
    ensures
        r@ == json_quoted(text@),
{
    serde_json::to_string(text).unwrap()
}

impl Json {
    /// The member called `key`, when this document is an object that has one.
    pub fn member<'a>(&'a self, key: &str) -> (r: Option<&'a Json>)
        ensures
            match r {
                Some(found) => self@.member(key@) == Some(found@),
                None => self@.member(key@) is None,
            },
    {
        match self {
            Json::Object(members) => {
                let wanted = key.to_owned();
                let ghost all = self@->Object_0;
                assert(all.skip(0) =~= all);
                let mut i: usize = 0;
                while i < members.len()
                    invariant
                        i <= members.len(),
                        wanted@ == key@,
                        self@ == JsonValue::Object(all),
                        all.len() == members@.len(),
                        forall|k: int|
                            0 <= k < members@.len() ==> all[k] == (MemberValue {
                                key: (#[trigger] members@[k]).key@,
                                value: members@[k].value@,
                            }),
                        lookup(all, key@) == lookup(all.skip(i as int), key@),
                    decreases members.len() - i,
                {
                    proof {
                        assert(all.skip(i as int)[0] == all[i as int]);
                        assert(all.skip(i as int).skip(1) =~= all.skip(i + 1));
                    }
                    if members[i].key == wanted {
                        return Some(&members[i].value);
                    }
                    i += 1;
                }
                None
            },
            _ => None,
        }
    }

    /// The string this document holds, when it is a string.
    pub fn as_text(&self) -> (r: Option<&String>)
        ensures
            match r {
                Some(s) => self@ == JsonValue::Text(s@),
                None => !(self@ is Text),
            },
    {
        match self {
            Json::Text(s) => Some(s),
            _ => None,
        }
    }

    /// The boolean this document holds, when it is a boolean.
    pub fn as_bool(&self) -> (r: Option<bool>)
        ensures
            match r {
                Some(b) => self@ == JsonValue::Bool(b),
                None => !(self@ is Bool),
            },
    {
        match self {
            Json::Bool(b) => Some(*b),
            _ => None,
        }
    }

    /// Whether this document is `null`.
    pub fn is_null(&self) -> (r: bool)
        ensures
            r == (self@ is Null),
    {
        match self {
            Json::Null => true,
            _ => false,
        }
    }

    /// The items of this document, when it is an array.
    pub fn as_array(&self) -> (r: Option<&Vec<Json>>)
        ensures
            match r {
                Some(items) => {
                    &&& self@ is Array
                    &&& self@->Array_0.len() == items@.len()
                    &&& forall|k: int|
                        0 <= k < items@.len() ==> self@->Array_0[k] == #[trigger] items@[k]@
                },
                None => !(self@ is Array),
            },
    {
        match self {
            Json::Array(items) => Some(items),
            _ => None,
        }
    }
}

} // verus!

