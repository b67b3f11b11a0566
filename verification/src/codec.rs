//! Reading, writing and querying JSON text.
//!
//! The work is done by `serde_json` and `serde_json_path`. What they return is
//! not spelled out here: each result has a name, and the functions of this
//! module promise that they return what the name stands for. A document goes
//! to them as a `serde_json::Value` and comes back as a [`Json`].

use crate::json::{items_view, Json, JsonView, Member};
use vstd::prelude::*;
use vstd::string::*;

verus! {

/// `serde_json::Value`, as it is. Nothing is claimed of what one holds.
#[verifier::external_type_specification]
#[verifier::external_body]
pub struct ExValue(serde_json::Value);

/// The document that `serde_json::from_str` reads from a text; `None` where
/// it reports an error.
pub uninterp spec fn parsed_text(text: Seq<char>) -> Option<JsonView>;

/// The text that `serde_json::to_string` writes for a document.
pub uninterp spec fn compact_text(doc: JsonView) -> Seq<char>;

/// The text that `serde_json::to_string_pretty` writes for a document.
pub uninterp spec fn pretty_text(doc: JsonView) -> Seq<char>;

/// True where `serde_json_path::JsonPath::parse` accepts an expression.
pub uninterp spec fn accepted_path(path: Seq<char>) -> bool;

/// The nodes that `serde_json_path::JsonPath::query` yields for an accepted
/// expression in a document, in its order.
pub uninterp spec fn path_nodes(path: Seq<char>, doc: JsonView) -> Seq<JsonView>;

/// True where a text ends inside a `\u` escape: with `\u`, `\uD` or `\ud`.
/// No JSONPath expression ends so: a backslash stands only inside a quoted
/// name, and the quote that closes the name comes after it.
pub open spec fn ends_in_open_escape(path: Seq<char>) -> bool {
    let n = path.len() as int;
    ||| n >= 2 && path[n - 2] == '\\' && path[n - 1] == 'u'
    ||| n >= 3 && path[n - 3] == '\\' && path[n - 2] == 'u' && (path[n - 1] == 'D' || path[n - 1]
        == 'd')
}

/// What a JSONPath expression selects in a document: `None` where the text
/// ends inside a `\u` escape, and where the expression is not accepted.
pub open spec fn selection(path: Seq<char>, doc: JsonView) -> Option<Seq<JsonView>> {
    if !ends_in_open_escape(path) && accepted_path(path) {
        Some(path_nodes(path, doc))
    } else {
        None
    }
}

/// Copies a `serde_json::Value` into a [`Json`], variant by variant. A number
/// becomes an `Int` where `Number::as_i64` gives one, and otherwise the
/// `Decimal` of the text that `Number` displays.
#[verifier::external_body]
fn from_value(value: &serde_json::Value) -> Json {
    match value {
        serde_json::Value::Null => Json::Null,
        serde_json::Value::Bool(b) => Json::Bool(*b),
        serde_json::Value::Number(n) => match n.as_i64() {
            Some(i) => Json::Int(i),
            None => Json::Decimal(n.to_string()),
        },
        serde_json::Value::String(s) => Json::Text(s.clone()),
        serde_json::Value::Array(a) => Json::Array(a.iter().map(from_value).collect()),
        serde_json::Value::Object(o) => Json::Object(
            o.iter().map(|(k, v)| Member { name: k.clone(), value: from_value(v) }).collect(),
        ),
    }
}

/// Copies a [`Json`] into a `serde_json::Value`, variant by variant. The
/// members of an object are collected into a `serde_json::Map`, which keeps
/// the later of two members of one name. A `Decimal` is read back by
/// `Number`'s `FromStr`; a text that it refuses becomes `Value::Null`.
#[verifier::external_body]
fn to_value(doc: &Json) -> serde_json::Value {
    match doc {
        Json::Null => serde_json::Value::Null,
        Json::Bool(b) => serde_json::Value::Bool(*b),
        Json::Int(i) => serde_json::Value::from(*i),
        Json::Decimal(t) => t.parse().map_or(serde_json::Value::Null, serde_json::Value::Number),
        Json::Text(s) => serde_json::Value::String(s.clone()),
        Json::Array(a) => serde_json::Value::Array(a.iter().map(to_value).collect()),
        Json::Object(o) => serde_json::Value::Object(
            o.iter().map(|m| (m.name.clone(), to_value(&m.value))).collect(),
        ),
    }
}

/// Calls `serde_json::from_str` for a `serde_json::Value`. The contract
/// names the result and claims nothing else of it.
#[verifier::external_body]
fn read_text(text: &str) -> (doc: Option<Json>)
    ensures
        match doc {
            Some(d) => parsed_text(text@) == Some(d@),
            None => parsed_text(text@) is None,
        },
{
    serde_json::from_str::<serde_json::Value>(text).ok().map(|v| from_value(&v))
}

/// Calls `serde_json::to_string` on the document's `serde_json::Value`. The
/// contract names the result and claims nothing else of it.
#[verifier::external_body]
fn write_text(doc: &Json) -> (text: String)
    ensures
        text@ == compact_text(doc@),
{
    serde_json::to_string(&to_value(doc)).unwrap_or_default()
}

/// Calls `serde_json::to_string_pretty` on the document's
/// `serde_json::Value`. The contract names the result and claims nothing else
/// of it.
#[verifier::external_body]
fn write_pretty_text(doc: &Json) -> (text: String)
    ensures
        text@ == pretty_text(doc@),
{
    serde_json::to_string_pretty(&to_value(doc)).unwrap_or_default()
}

/// Calls `serde_json_path::JsonPath::parse` on the expression and, where that
/// accepts it, `JsonPath::query` on the document's `serde_json::Value`; the
/// nodes are those of `NodeList::all`. The contract names whether the
/// expression is accepted, which is a matter of the expression alone, and
/// the nodes. It claims nothing else of either.
///
/// `JsonPath::parse` panics where its input runs out inside a `\u` escape:
/// there it reads the next character with a parser that asks for more input
/// instead of failing. Such a text is left out here.
#[verifier::external_body]
fn select_nodes(path: &str, doc: &Json) -> (nodes: Option<Vec<Json>>)
    requires
        !ends_in_open_escape(path@),
    ensures
        match nodes {
            Some(found) => accepted_path(path@) && path_nodes(path@, doc@) == items_view(found@),
            None => !accepted_path(path@),
        },
{
    let parsed = serde_json_path::JsonPath::parse(path).ok()?;
    let value = to_value(doc);
    Some(parsed.query(&value).all().into_iter().map(from_value).collect())
}

impl Json {
    /// Reads a JSON text. The result is `None` where the text is not JSON.
    pub fn parse(text: &str) -> (doc: Option<Json>)
        ensures
            match doc {
                Some(d) => parsed_text(text@) == Some(d@),
                None => parsed_text(text@) is None,
            },
    {
        read_text(text)
    }

    /// Writes the document without line breaks or indentation.
    pub fn to_compact(&self) -> (text: String)
        ensures
            text@ == compact_text(self@),
    {
        write_text(self)
    }

    /// Writes the document on indented lines.
    pub fn to_pretty(&self) -> (text: String)
        ensures
            text@ == pretty_text(self@),
    {
        write_pretty_text(self)
    }

    /// The nodes that a JSONPath expression selects in the document. The
    /// result is `None` where the expression is not JSONPath. A text that
    /// ends inside a `\u` escape is refused without being parsed.
    pub fn query(&self, path: &str) -> (nodes: Option<Vec<Json>>)
        ensures
            match nodes {
                Some(found) => selection(path@, self@) == Some(items_view(found@)),
                None => selection(path@, self@) is None,
            },
            ends_in_open_escape(path@) ==> nodes is None,
    {
        if has_open_escape(path) {
            None
        } else {
            select_nodes(path, self)
        }
    }
}

/// True where a text ends inside a `\u` escape.
pub fn has_open_escape(path: &str) -> (b: bool)
    ensures
        b == ends_in_open_escape(path@),
{
    let n = path.unicode_len();
    if n >= 2 && path.get_char(n - 2) == '\\' && path.get_char(n - 1) == 'u' {
        return true;
    }
    if n >= 3 && path.get_char(n - 3) == '\\' && path.get_char(n - 2) == 'u' {
        let last = path.get_char(n - 1);
        return last == 'D' || last == 'd';
    }
    false
}

/// True where a text is a JSONPath expression.
pub fn is_path(path: &str) -> (b: bool)
    ensures
        b == (!ends_in_open_escape(path@) && accepted_path(path@)),
{
    let nodes = Json::Null.query(path);
    nodes.is_some()
}

} // verus!
