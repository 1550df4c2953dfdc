//! The text form of documents: reading it with `serde_json`, writing it
//! compactly.

use crate::error::{modelled, DecodeError};
use crate::json::{lemma_array_model, lemma_object_model, Json, JsonModel};
use vstd::prelude::*;
use vstd::string::StringExecFns;

verus! {

/// `serde_json::Value`, a parsed document, taken as it is: what it holds
/// is read through `unpack` alone.
#[verifier::external_type_specification]
#[verifier::external_body]
pub struct ExValue(serde_json::Value);

/// `serde_json::Error`, of which nothing is read.
#[verifier::external_type_specification]
#[verifier::external_body]
pub struct ExError(serde_json::Error);

/// The document that `serde_json` reads from a text, `None` where it
/// rejects the text.
pub uninterp spec fn document_of(text: Seq<char>) -> Option<JsonModel>;

/// The document that a `serde_json::Value` holds.
pub uninterp spec fn value_model(value: serde_json::Value) -> JsonModel;

/// One level of a `serde_json::Value`: its variant, with the children still
/// held by the parser's own type.
pub enum Node<'a> {
    Null,
    Bool(bool),
    Number(String),
    Text(&'a String),
    Array(&'a Vec<serde_json::Value>),
    Object(Vec<(&'a String, &'a serde_json::Value)>),
}

impl<'a> Node<'a> {
    /// The document of the node, given the documents of its children.
    pub open spec fn model(self) -> JsonModel {
        match self {
            Node::Null => JsonModel::Null,
            Node::Bool(b) => JsonModel::Bool(b),
            Node::Number(t) => JsonModel::Number(t@),
            Node::Text(t) => JsonModel::Text(t@),
            Node::Array(items) => JsonModel::Array(
                Seq::new(items@.len(), |i: int| value_model(items@[i])),
            ),
            Node::Object(entries) => JsonModel::Object(
                Seq::new(entries@.len(), |i: int| (entries@[i].0@, value_model(*entries@[i].1))),
            ),
        }
    }
}

/// `serde_json::from_str` at the type `serde_json::Value`. The value that
/// comes back holds the document of the text; an error comes back exactly
/// where the text has none.
#[verifier::external_body]
fn parse_value(text: &str) -> (r: Result<serde_json::Value, serde_json::Error>)
    ensures
        match r {
            Ok(value) => document_of(text@) == Some(value_model(value)),
            Err(_) => document_of(text@) is None,
        },
{
    serde_json::from_str(text)
}

/// Tells the variants of a `serde_json::Value` apart and hands out what the
/// variant holds: a number as the text that `serde_json` prints for it, an
/// object as its entries in the order in which its map yields them.
#[verifier::external_body]
fn unpack<'a>(value: &'a serde_json::Value) -> (node: Node<'a>)
    ensures
        node.model() == value_model(*value),
{
    match value {
        serde_json::Value::Null => Node::Null,
        serde_json::Value::Bool(b) => Node::Bool(*b),
        serde_json::Value::Number(n) => Node::Number(n.to_string()),
        serde_json::Value::String(s) => Node::Text(s),
        serde_json::Value::Array(items) => Node::Array(items),
        serde_json::Value::Object(map) => Node::Object(map.iter().collect()),
    }
}

/// What `serde_json` writes for one character inside a string: a backslash
/// form for the quote, the backslash and the control characters, the
/// character itself otherwise.
pub open spec fn escaped_char(c: char) -> Seq<char> {
    if c == '"' {
        seq!['\\', '"']
    } else if c == '\\' {
        seq!['\\', '\\']
    } else if c == '\u{8}' {
        seq!['\\', 'b']
    } else if c == '\u{c}' {
        seq!['\\', 'f']
    } else if c == '\n' {
        seq!['\\', 'n']
    } else if c == '\r' {
        seq!['\\', 'r']
    } else if c == '\t' {
        seq!['\\', 't']
    } else if (c as u32) < 0x20 {
        seq![
            '\\',
            'u',
            '0',
            '0',
            "0123456789abcdef"@[(c as u32) as int / 16],
            "0123456789abcdef"@[(c as u32) as int % 16],
        ]
    } else {
        seq![c]
    }
}

/// The characters of a text, each as `serde_json` writes it.
pub open spec fn escaped(text: Seq<char>) -> Seq<char>
    decreases text.len(),
{
    if text.len() == 0 {
        Seq::empty()
    } else {
        escaped(text.drop_last()) + escaped_char(text.last())
    }
}

/// A text as a JSON string: escaped, between double quotes.
pub open spec fn quoted(text: Seq<char>) -> Seq<char> {
    seq!['"'] + escaped(text) + seq!['"']
}

/// `serde_json::to_string` at the type `str`. It writes into memory, which
/// cannot fail, so the result is always `Ok`; the text is the string
/// between double quotes with the quote, the backslash and the characters
/// below U+0020 escaped.
#[verifier::external_body]
fn quote(text: &str) -> (r: Result<String, serde_json::Error>)
    ensures
        r is Ok,
        r->Ok_0@ == quoted(text@),
{
    serde_json::to_string(text)
}

/// Copies a parsed value into a document.
fn from_value(value: &serde_json::Value) -> (doc: Json)
    ensures
        doc.deep_view() == value_model(*value),
    decreases value_model(*value),
{
    let ghost whole = value_model(*value);
    match unpack(value) {
        Node::Null => Json::Null,
        Node::Bool(b) => Json::Bool(b),
        Node::Number(t) => Json::Number(t),
        Node::Text(t) => Json::Text(t.clone()),
        Node::Array(items) => {
            let ghost kids = whole->Array_0;
            let mut out: Vec<Json> = Vec::new();
            let mut i: usize = 0;
            while i < items.len()
                invariant
                    i <= items@.len(),
                    out@.len() == i,
                    whole == value_model(*value),
                    whole == JsonModel::Array(kids),
                    kids.len() == items@.len(),
                    forall|k: int| 0 <= k < kids.len() ==> kids[k] == value_model(items@[k]),
                    forall|k: int|
                        0 <= k < i ==> (#[trigger] out@[k]).deep_view() == value_model(items@[k]),
                decreases items@.len() - i,
            {
                proof {
                    assert(decreases_to!(whole => whole->Array_0));
                    assert(decreases_to!(whole->Array_0 => whole->Array_0[i as int]));
                }
                let child = from_value(&items[i]);
                out.push(child);
                i += 1;
            }
            let doc = Json::Array(out);
            assert(doc.deep_view()->Array_0 =~= kids);
            doc
        },
        Node::Object(entries) => {
            let ghost kids = whole->Object_0;
            let mut out: Vec<(String, Json)> = Vec::new();
            let mut i: usize = 0;
            while i < entries.len()
                invariant
                    i <= entries@.len(),
                    out@.len() == i,
                    whole == value_model(*value),
                    whole == JsonModel::Object(kids),
                    kids.len() == entries@.len(),
                    forall|k: int|
                        0 <= k < kids.len() ==> kids[k] == (
                            entries@[k].0@,
                            value_model(*entries@[k].1),
                        ),
                    forall|k: int|
                        0 <= k < i ==> {
                            &&& (#[trigger] out@[k]).0@ == entries@[k].0@
                            &&& out@[k].1.deep_view() == value_model(*entries@[k].1)
                        },
                decreases entries@.len() - i,
            {
                proof {
                    assert(decreases_to!(whole => whole->Object_0));
                    assert(decreases_to!(whole->Object_0 => whole->Object_0[i as int]));
                    assert(decreases_to!(whole->Object_0[i as int] => whole->Object_0[i as int].1));
                }
                let key = entries[i].0.clone();
                let child = from_value(entries[i].1);
                out.push((key, child));
                i += 1;
            }
            let doc = Json::Object(out);
            assert(doc.deep_view()->Object_0 =~= kids);
            doc
        },
    }
}

/// Reads a document from its text.
pub fn parse(text: &str) -> (r: Result<Json, DecodeError>)
    ensures
        modelled(r) == match document_of(text@) {
            Some(doc) => Ok::<JsonModel, DecodeError>(doc),
            None => Err(DecodeError::Syntax),
        },
{
    match parse_value(text) {
        Ok(value) => Ok(from_value(&value)),
        Err(_) => Err(DecodeError::Syntax),
    }
}

/// The compact text of a document: no space between tokens, the members of
/// an object in the order in which it holds them.
pub open spec fn text_of(doc: JsonModel) -> Seq<char>
    decreases doc, 0nat,
{
    match doc {
        JsonModel::Null => "null"@,
        JsonModel::Bool(b) => if b {
            "true"@
        } else {
            "false"@
        },
        JsonModel::Number(t) => t,
        JsonModel::Text(t) => quoted(t),
        JsonModel::Array(items) => "["@ + items_text(items, items.len()) + "]"@,
        JsonModel::Object(entries) => "{"@ + entries_text(entries, entries.len()) + "}"@,
    }
}

/// The texts of the first `n` items, with commas between them.
pub open spec fn items_text(items: Seq<JsonModel>, n: nat) -> Seq<char>
    decreases items, n,
{
    if n == 0 || n > items.len() {
        Seq::empty()
    } else {
        items_text(items, (n - 1) as nat) + separator(n) + text_of(items[n - 1])
    }
}

/// The texts of the first `n` members, each as its quoted key, a colon and
/// its value, with commas between them.
pub open spec fn entries_text(entries: Seq<(Seq<char>, JsonModel)>, n: nat) -> Seq<char>
    decreases entries, n,
{
    if n == 0 || n > entries.len() {
        Seq::empty()
    } else {
        entries_text(entries, (n - 1) as nat) + separator(n) + quoted(entries[n - 1].0) + ":"@
            + text_of(entries[n - 1].1)
    }
}

/// What stands before the `n`-th element of a list: nothing before the
/// first, a comma before the others.
pub open spec fn separator(n: nat) -> Seq<char> {
    if n <= 1 {
        Seq::empty()
    } else {
        ","@
    }
}

/// Writes a document as compact text.
pub fn render(doc: &Json) -> (text: String)
    ensures
        text@ == text_of(doc.deep_view()),
    decreases doc,
{
    match doc {
        Json::Null => String::from_str("null"),
        Json::Bool(b) => if *b {
            String::from_str("true")
        } else {
            String::from_str("false")
        },
        Json::Number(t) => t.clone(),
        Json::Text(t) => quote(t.as_str()).unwrap(),
        Json::Array(items) => {
            proof {
                lemma_array_model(*items);
            }
            let ghost models = items.deep_view();
            let mut text = String::from_str("[");
            let mut i: usize = 0;
            while i < items.len()
                invariant
                    i <= items@.len(),
                    doc == Json::Array(*items),
                    models == items.deep_view(),
                    text@ == "["@ + items_text(models, i as nat),
                decreases items@.len() - i,
            {
                if i > 0 {
                    text.append(",");
                }
                proof {
                    assert(decreases_to!(*doc => doc->Array_0));
                    assert(decreases_to!(doc->Array_0 => doc->Array_0[i as int]));
                }
                let child = render(&items[i]);
                text.append(child.as_str());
                proof {
                    assert(models[i as int] == items@[i as int].deep_view());
                    assert(text@ =~= "["@ + items_text(models, (i + 1) as nat));
                }
                i += 1;
            }
            text.append("]");
            text
        },
        Json::Object(entries) => {
            proof {
                lemma_object_model(*entries);
            }
            let ghost models = entries.deep_view();
            let mut text = String::from_str("{");
            let mut i: usize = 0;
            while i < entries.len()
                invariant
                    i <= entries@.len(),
                    doc == Json::Object(*entries),
                    models == entries.deep_view(),
                    text@ == "{"@ + entries_text(models, i as nat),
                decreases entries@.len() - i,
            {
                if i > 0 {
                    text.append(",");
                }
                proof {
                    assert(decreases_to!(*doc => doc->Object_0));
                    assert(decreases_to!(doc->Object_0 => doc->Object_0[i as int]));
                    assert(decreases_to!(doc->Object_0[i as int] => doc->Object_0[i as int].1));
                }
                let key = quote(entries[i].0.as_str()).unwrap();
                text.append(key.as_str());
                text.append(":");
                let child = render(&entries[i].1);
                text.append(child.as_str());
                proof {
                    assert(models[i as int] == entries@[i as int].deep_view());
                    assert(text@ =~= "{"@ + entries_text(models, (i + 1) as nat));
                }
                i += 1;
            }
            text.append("}");
            text
        },
    }
}

} // verus!
