//! What is printed for a result: the whole of it, or the one node that a
//! JSONPath expression selects in it.

use crate::codec::{pretty_text, selection};
use crate::error::QueryError;
use crate::json::{items_view, Json, JsonView};
use vstd::prelude::*;
use vstd::string::*;

verus! {

/// The one node of a selection, or why there is none: nothing was selected,
/// or more than one node.
pub open spec fn selected(nodes: Seq<JsonView>) -> Result<JsonView, QueryError> {
    if nodes.len() == 0 {
        Err(QueryError::NoMatch)
    } else if nodes.len() > 1 {
        Err(QueryError::Ambiguous { count: nodes.len() as usize })
    } else {
        Ok(nodes[0])
    }
}

/// The text that stands for a node: the characters of a string where raw
/// output is asked for, and indented JSON for anything else.
pub open spec fn rendered(node: JsonView, raw: bool) -> Seq<char> {
    match node {
        JsonView::Text(text) => if raw {
            text
        } else {
            pretty_text(node)
        },
        _ => pretty_text(node),
    }
}

/// The text that stands for the selection of a query, where `nodes` is what
/// the query selects: `None` for an expression that is not JSONPath.
pub open spec fn selection_output(nodes: Option<Seq<JsonView>>, raw: bool) -> Result<
    Seq<char>,
    QueryError,
> {
    match nodes {
        None => Err(QueryError::InvalidPath),
        Some(found) => match selected(found) {
            Ok(node) => Ok(rendered(node, raw)),
            Err(error) => Err(error),
        },
    }
}

/// The text that is printed for a document: without a query the document
/// itself, with a query the one node that it selects.
pub open spec fn output_of(doc: JsonView, query: Option<Seq<char>>, raw: bool) -> Result<
    Seq<char>,
    QueryError,
> {
    match query {
        None => Ok(rendered(doc, raw)),
        Some(path) => selection_output(selection(path, doc), raw),
    }
}

/// The document that stands for the data of a reply: the data, and `null`
/// where there is none.
pub open spec fn document_of(data: Option<JsonView>) -> JsonView {
    match data {
        Some(doc) => doc,
        None => JsonView::Null,
    }
}

/// The document that stands for the data of a reply.
pub fn payload_document(data: Option<Json>) -> (doc: Json)
    ensures
        doc@ == document_of(crate::json::optional_view(data)),
{
    match data {
        Some(doc) => doc,
        None => Json::Null,
    }
}

/// The one node of a selection. A selection of no node, or of several, is an
/// error: none of them is picked.
pub fn exactly_one(nodes: Vec<Json>) -> (node: Result<Json, QueryError>)
    ensures
        match node {
            Ok(found) => selected(items_view(nodes@)) == Ok::<JsonView, QueryError>(found@),
            Err(error) => selected(items_view(nodes@)) == Err::<JsonView, QueryError>(error),
        },
{
    let count = nodes.len();
    if count == 0 {
        Err(QueryError::NoMatch)
    } else if count > 1 {
        Err(QueryError::Ambiguous { count })
    } else {
        let mut nodes = nodes;
        match nodes.pop() {
            Some(node) => Ok(node),
            None => Err(QueryError::NoMatch),
        }
    }
}

/// The text that stands for a node.
pub fn render(node: &Json, raw: bool) -> (text: String)
    ensures
        text@ == rendered(node@, raw),
{
    match node {
        Json::Text(inner) => {
            if raw {
                inner.clone()
            } else {
                node.to_pretty()
            }
        },
        _ => node.to_pretty(),
    }
}

/// The text that stands for the selection of a query, given what the query
/// selects.
pub fn render_selection(nodes: Option<Vec<Json>>, raw: bool) -> (text: Result<String, QueryError>)
    ensures
        match text {
            Ok(t) => selection_output(
                match nodes {
                    Some(found) => Some(items_view(found@)),
                    None => None,
                },
                raw,
            ) == Ok::<Seq<char>, QueryError>(t@),
            Err(error) => selection_output(
                match nodes {
                    Some(found) => Some(items_view(found@)),
                    None => None,
                },
                raw,
            ) == Err::<Seq<char>, QueryError>(error),
        },
{
    match nodes {
        None => Err(QueryError::InvalidPath),
        Some(found) => match exactly_one(found) {
            Ok(node) => Ok(render(&node, raw)),
            Err(error) => Err(error),
        },
    }
}

/// The text that is printed for a document.
pub fn output(doc: &Json, query: Option<&str>, raw: bool) -> (text: Result<String, QueryError>)
    ensures
        match text {
            Ok(t) => output_of(
                doc@,
                match query {
                    Some(path) => Some(path@),
                    None => None,
                },
                raw,
            ) == Ok::<Seq<char>, QueryError>(t@),
            Err(error) => output_of(
                doc@,
                match query {
                    Some(path) => Some(path@),
                    None => None,
                },
                raw,
            ) == Err::<Seq<char>, QueryError>(error),
        },
{
    match query {
        None => Ok(render(doc, raw)),
        Some(path) => render_selection(doc.query(path), raw),
    }
}

} // verus!
