//! JSON values as the scheme reader sees them, read by serde_json.

use vstd::prelude::*;

verus! {

/// One JSON value.  The members of an object are kept as their own JSON
/// texts, to be read in turn; numbers and the items of arrays are not kept,
/// nothing reads them.
pub enum JsonNode {
    Null,
    Bool(bool),
    Number,
    Text(String),
    Array,
    Object(Vec<(String, String)>),
}

/// The value of a [`JsonNode`].
pub enum JsonNodeView {
    Null,
    Bool(bool),
    Number,
    Text(Seq<char>),
    Array,
    Object(Seq<(Seq<char>, Seq<char>)>),
}

/// The texts of the members of an object.
pub open spec fn members_view(members: Seq<(String, String)>) -> Seq<(Seq<char>, Seq<char>)> {
    members.map_values(|m: (String, String)| (m.0@, m.1@))
}

impl View for JsonNode {
    type V = JsonNodeView;

    open spec fn view(&self) -> JsonNodeView {
        match self {
            JsonNode::Null => JsonNodeView::Null,
            JsonNode::Bool(b) => JsonNodeView::Bool(*b),
            JsonNode::Number => JsonNodeView::Number,
            JsonNode::Text(s) => JsonNodeView::Text(s@),
            JsonNode::Array => JsonNodeView::Array,
            JsonNode::Object(m) => JsonNodeView::Object(members_view(m@)),
        }
    }
}

pub open spec fn node_view(node: Option<JsonNode>) -> Option<JsonNodeView> {
    match node {
        Some(n) => Some(n@),
        None => None,
    }
}

/// What serde_json makes of a JSON text: `None` where the text is not JSON,
/// otherwise its value, each member of an object kept as serde_json writes
/// that member's value back out.
pub uninterp spec fn json_node_of(text: Seq<char>) -> Option<JsonNodeView>;

/// Reads `text` with `serde_json::from_str::<serde_json::Value>`, and tells
/// the variants of the value apart; the members of an object are taken in
/// the map's order, each value written back with serde_json's `Display`.
/// The contract claims only that the result is a function of the text,
/// named [`json_node_of`]: it says nothing of which texts serde_json accepts,
/// nor that a member's written text reads back as that member (serde_json
/// writes JSON that it reads back as the same value, and the scheme reader
/// relies on it when it reads a member in turn).
#[verifier::external_body]
pub(crate) fn parse_json_node(text: &str) -> (node: Option<JsonNode>)
    ensures
        node_view(node) == json_node_of(text@),
{
    match serde_json::from_str::<serde_json::Value>(text) {
        Err(_) => None,
        Ok(serde_json::Value::Null) => Some(JsonNode::Null),
        Ok(serde_json::Value::Bool(b)) => Some(JsonNode::Bool(b)),
        Ok(serde_json::Value::Number(_)) => Some(JsonNode::Number),
        Ok(serde_json::Value::String(s)) => Some(JsonNode::Text(s)),
        Ok(serde_json::Value::Array(_)) => Some(JsonNode::Array),
        Ok(serde_json::Value::Object(members)) => Some(
            JsonNode::Object(members.into_iter().map(|(k, v)| (k, v.to_string())).collect()),
        ),
    }
}

} // verus!
