//! JSON documents as the hub reads and writes them, and the passage between
//! such documents and text, which `serde_json` makes.

use vstd::prelude::*;

verus! {

/// A JSON document held by the library.
#[derive(Debug, PartialEq, Eq)]
pub enum Json {
    Null,
    Bool(bool),
    /// A number that is an unsigned 64-bit integer.
    Number(u64),
    /// Any other number; its value is not kept.
    Other,
    Text(String),
    List(Vec<Json>),
    /// An object: its members in the order of the text.
    Record(Vec<(String, Json)>),
}

/// The mathematical value of a JSON document.
#[verifier::ext_equal]
pub enum JsonDoc {
    Null,
    Bool(bool),
    Number(u64),
    Other,
    Text(Seq<char>),
    List(Seq<JsonDoc>),
    Record(Seq<(Seq<char>, JsonDoc)>),
}

impl Json {
    /// The mathematical value of this document.
    pub open spec fn doc(&self) -> JsonDoc
        decreases self,
    {
        match self {
            Json::Null => JsonDoc::Null,
            Json::Bool(b) => JsonDoc::Bool(*b),
            Json::Number(n) => JsonDoc::Number(*n),
            Json::Other => JsonDoc::Other,
            Json::Text(s) => JsonDoc::Text(s@),
            Json::List(items) => JsonDoc::List(
                Seq::new(
                    items@.len(),
                    |i: int|
                        if 0 <= i < items.len() {
                            items[i].doc()
                        } else {
                            JsonDoc::Null
                        },
                ),
            ),
            Json::Record(members) => JsonDoc::Record(
                Seq::new(
                    members@.len(),
                    |i: int|
                        if 0 <= i < members.len() {
                            (members[i].0@, members[i].1.doc())
                        } else {
                            (Seq::empty(), JsonDoc::Null)
                        },
                ),
            ),
        }
    }
}

impl View for Json {
    type V = JsonDoc;

    open spec fn view(&self) -> JsonDoc {
        self.doc()
    }
}

/// The value of the first member of an object that has the given key.
pub open spec fn lookup(members: Seq<(Seq<char>, JsonDoc)>, key: Seq<char>) -> Option<JsonDoc>
    decreases members.len(),
{
    if members.len() == 0 {
        None
    } else if members[0].0 == key {
        Some(members[0].1)
    } else {
        lookup(members.drop_first(), key)
    }
}

impl JsonDoc {
    /// Whether the document holds only what keeps its value when written: no
    /// number outside the unsigned 64-bit integers, and no object with one
    /// key twice.
    pub open spec fn plain(self) -> bool
        decreases self,
    {
        match self {
            JsonDoc::Other => false,
            JsonDoc::List(items) => forall|i: int|
                0 <= i < items.len() ==> (#[trigger] items[i]).plain(),
            JsonDoc::Record(members) => {
                &&& forall|i: int| 0 <= i < members.len() ==> (#[trigger] members[i]).1.plain()
                &&& forall|i: int, j: int|
                    0 <= i < j < members.len() ==> (#[trigger] members[i]).0 != (
                    #[trigger] members[j]).0
            },
            _ => true,
        }
    }
}

#[verifier::external_type_specification]
#[verifier::external_body]
pub struct ExValue(serde_json::Value);

#[verifier::external_type_specification]
#[verifier::external_body]
pub struct ExError(serde_json::Error);

/// The document that a `serde_json::Value` holds.
pub uninterp spec fn value_doc(value: serde_json::Value) -> JsonDoc;

/// The document that `serde_json::from_str` reads from a text; `None` for a
/// text that it refuses.
pub uninterp spec fn parsed(text: Seq<char>) -> Option<JsonDoc>;

/// The compact text that `serde_json` writes for a document.
pub uninterp spec fn rendered(doc: JsonDoc) -> Seq<char>;

/// Calls `serde_json::from_str` for a `serde_json::Value`. The contract only
/// names the outcome: which texts are read, and as what, is `serde_json`'s
/// matter and a function of the text alone.
#[verifier::external_body]
pub(crate) fn parse_value(text: &str) -> (outcome: Result<serde_json::Value, serde_json::Error>)
    ensures
        match outcome {
            Ok(value) => parsed(text@) == Some(value_doc(value)),
            Err(_) => parsed(text@) is None,
        },
{
    serde_json::from_str::<serde_json::Value>(text)
}

/// Copies a `serde_json::Value` into a document of the library, variant by
/// variant; `serde_json::Number::as_u64` tells the numbers apart. The
/// contract says that the copy is what the value holds.
#[verifier::external_body]
pub(crate) fn document_of(value: &serde_json::Value) -> (doc: Json)
    ensures
        doc@ == value_doc(*value),
{
    match value {
        serde_json::Value::Null => Json::Null,
        serde_json::Value::Bool(b) => Json::Bool(*b),
        serde_json::Value::Number(n) => match n.as_u64() {
            Some(k) => Json::Number(k),
            None => Json::Other,
        },
        serde_json::Value::String(s) => Json::Text(s.clone()),
        serde_json::Value::Array(a) => Json::List(a.iter().map(document_of).collect()),
        serde_json::Value::Object(m) => Json::Record(
            m.iter().map(|(k, v)| (k.clone(), document_of(v))).collect(),
        ),
    }
}

/// Copies a document of the library into a `serde_json::Value`, variant by
/// variant. The contract says that a plain document is what the value then
/// holds: with every key once, the map keeps each member at its place.
#[verifier::external_body]
pub(crate) fn value_of(doc: &Json) -> (value: serde_json::Value)
    requires
        doc@.plain(),
    ensures
        value_doc(value) == doc@,
{
    match doc {
        Json::Null | Json::Other => serde_json::Value::Null,
        Json::Bool(b) => serde_json::Value::Bool(*b),
        Json::Number(n) => serde_json::Value::Number(serde_json::Number::from(*n)),
        Json::Text(s) => serde_json::Value::String(s.clone()),
        Json::List(items) => serde_json::Value::Array(items.iter().map(value_of).collect()),
        Json::Record(members) => serde_json::Value::Object(
            members.iter().map(|(k, v)| (k.clone(), value_of(v))).collect(),
        ),
    }
}

/// Writes a `serde_json::Value` through its `Display`, which gives the
/// compact form. The contract only names the text, for a value that holds a
/// plain document: the text is then a function of that document alone.
#[verifier::external_body]
pub(crate) fn render_value(value: &serde_json::Value) -> (text: String)
    requires
        value_doc(*value).plain(),
    ensures
        text@ == rendered(value_doc(*value)),
{
    value.to_string()
}

impl Json {
    /// Reads a text as a JSON document.
    pub fn parse(text: &str) -> (outcome: Option<Json>)
        ensures
            match outcome {
                Some(doc) => parsed(text@) == Some(doc@),
                None => parsed(text@) is None,
            },
    {
        match parse_value(text) {
            Ok(value) => Some(document_of(&value)),
            Err(_) => None,
        }
    }

    /// Writes a plain document as compact JSON text.
    pub fn render(&self) -> (text: String)
        requires
            self@.plain(),
        ensures
            text@ == rendered(self@),
    {
        let value = value_of(self);
        render_value(&value)
    }

    /// The value of the first member with the given key, where this document
    /// is an object that has one.
    pub fn member(&self, key: &str) -> (found: Option<&Json>)
        ensures
            match found {
                Some(value) => self@ is Record && lookup(self@->Record_0, key@) == Some(value@),
                None => !(self@ is Record) || lookup(self@->Record_0, key@) is None,
            },
    {
        match self {
            Json::Record(members) => {
                let ghost all = self@->Record_0;
                let wanted = key.to_owned();
                let mut index: usize = 0;
                assert(all.skip(0) =~= all);
                while index < members.len()
                    invariant
                        index <= members.len(),
                        wanted@ == key@,
                        self@ == JsonDoc::Record(all),
                        all.len() == members.len(),
                        forall|i: int|
                            0 <= i < members.len() ==> all[i] == (
                                members[i].0@,
                                members[i].1@,
                            ),
                        lookup(all, key@) == lookup(all.skip(index as int), key@),
                    decreases members.len() - index,
                {
                    proof {
                        let rest = all.skip(index as int);
                        assert(rest[0] == all[index as int]);
                        assert(rest.drop_first() =~= all.skip(index + 1));
                    }
                    if members[index].0 == wanted {
                        return Some(&members[index].1);
                    }
                    index = index + 1;
                }
                None
            },
            _ => None,
        }
    }
}

} // verus!
