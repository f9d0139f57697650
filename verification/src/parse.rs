//! Reading JSON text into a [`Json`] tree, by way of `serde_json`.

use vstd::prelude::*;

use crate::json::{Json, JsonView, Member, MemberView};

verus! {

/// `serde_json::Value`, which is only carried from the parser to the code
/// that copies it; nothing is known of what is inside but through [`value_tree`].
#[verifier::external_type_specification]
#[verifier::external_body]
pub struct ExValue(serde_json::Value);

/// The tree that a `serde_json::Value` holds: a number as the decimal text
/// that `serde_json::Number` prints, an object as its members in the order in
/// which `serde_json::Map` walks them.
pub uninterp spec fn value_tree(value: serde_json::Value) -> JsonView;

/// What `serde_json::from_str` reads from a text when asked for a
/// `serde_json::Value`: the tree of the value it builds, or `None` where it
/// reports an error.
pub uninterp spec fn parsed_tree(text: Seq<char>) -> Option<JsonView>;

/// The trees of the items of an array.
spec fn item_trees(items: Seq<serde_json::Value>) -> Seq<JsonView> {
    Seq::new(items.len(), |i: int| value_tree(items[i]))
}

/// The names of the members of an object, each with the tree of its value.
spec fn member_trees(members: Seq<(&String, &serde_json::Value)>) -> Seq<MemberView> {
    Seq::new(
        members.len(),
        |i: int| MemberView { name: members[i].0@, value: value_tree(*members[i].1) },
    )
}

/// The top level of a `serde_json::Value`, with its children still unread.
enum Node<'a> {
    Null,
    Bool(bool),
    Number(String),
    Text(&'a String),
    Array(&'a Vec<serde_json::Value>),
    Object(Vec<(&'a String, &'a serde_json::Value)>),
}

impl<'a> Node<'a> {
    /// The tree below a node: its own level, and under it the trees of its children.
    spec fn tree(self) -> JsonView {
        match self {
            Node::Null => JsonView::Null,
            Node::Bool(b) => JsonView::Bool(b),
            Node::Number(text) => JsonView::Number(text@),
            Node::Text(text) => JsonView::Text(text@),
            Node::Array(items) => JsonView::Array(item_trees(items@)),
            Node::Object(members) => JsonView::Object(member_trees(members@)),
        }
    }
}

/// `serde_json::from_str`, asked for a `serde_json::Value`. The contract only
/// names what comes back: the tree of the value, or nothing where
/// `serde_json` reports an error.
#[verifier::external_body]
fn value_of_text(text: &str) -> (r: Option<serde_json::Value>)
    ensures
        match r {
            Some(value) => parsed_tree(text@) == Some(value_tree(value)),
            None => parsed_tree(text@) is None,
        },
{
    serde_json::from_str::<serde_json::Value>(text).ok()
}

/// Takes the top level of a `serde_json::Value` apart, one arm for each
/// variant of that enum. A number is handed out as the text that
/// `serde_json::Number` prints of itself, a string and an array as they are,
/// an object as what `serde_json::Map::iter` yields. The contract says that
/// the tree of the value is this level, with the trees of the children below.
#[verifier::external_body]
fn node_of<'a>(value: &'a serde_json::Value) -> (node: Node<'a>)
    ensures
        node.tree() == value_tree(*value),
{
    match value {
        serde_json::Value::Null => Node::Null,
        serde_json::Value::Bool(b) => Node::Bool(*b),
        serde_json::Value::Number(n) => Node::Number(n.to_string()),
        serde_json::Value::String(s) => Node::Text(s),
        serde_json::Value::Array(items) => Node::Array(items),
        serde_json::Value::Object(map) => Node::Object(map.iter().collect()),
    }
}

/// Copies a whole `serde_json::Value` into a [`Json`].
fn json_of_value(value: &serde_json::Value) -> (json: Json)
    ensures
        json@ == value_tree(*value),
    decreases value_tree(*value),
{
    match node_of(value) {
        Node::Null => Json::Null,
        Node::Bool(b) => Json::Bool(b),
        Node::Number(text) => Json::Number(text),
        Node::Text(text) => Json::Text(text.clone()),
        Node::Array(items) => {
            let mut out: Vec<Json> = Vec::new();
            let mut i: usize = 0;
            while i < items.len()
                invariant
                    i <= items.len(),
                    out.len() == i,
                    value_tree(*value) == JsonView::Array(item_trees(items@)),
                    forall|k: int| 0 <= k < i ==> (#[trigger] out[k])@ == value_tree(items[k]),
                decreases items.len() - i,
            {
                proof {
                    let tree = value_tree(*value);
                    assert(decreases_to!(tree => tree->Array_0));
                    assert(decreases_to!(tree->Array_0 => tree->Array_0[i as int]));
                }
                let child = json_of_value(&items[i]);
                out.push(child);
                i += 1;
            }
            let json = Json::Array(out);
            proof {
                assert(json@->Array_0 =~= item_trees(items@));
            }
            json
        },
        Node::Object(members) => {
            let mut out: Vec<Member> = Vec::new();
            let mut i: usize = 0;
            while i < members.len()
                invariant
                    i <= members.len(),
                    out.len() == i,
                    value_tree(*value) == JsonView::Object(member_trees(members@)),
                    forall|k: int| 0 <= k < i ==> (#[trigger] out[k])@ == member_trees(members@)[k],
                decreases members.len() - i,
            {
                proof {
                    let tree = value_tree(*value);
                    assert(decreases_to!(tree => tree->Object_0));
                    assert(decreases_to!(tree->Object_0 => tree->Object_0[i as int]));
                    assert(decreases_to!(tree->Object_0[i as int] => tree->Object_0[i as int].value));
                }
                let name = members[i].0.clone();
                let child = json_of_value(members[i].1);
                out.push(Member { name, value: child });
                i += 1;
            }
            let json = Json::Object(out);
            proof {
                assert(json@->Object_0 =~= member_trees(members@));
            }
            json
        },
    }
}

impl Json {
    /// Reads a JSON text: the document, or `None` where the text is not JSON.
    pub fn parse(text: &str) -> (r: Option<Json>)
        ensures
            match parsed_tree(text@) {
                Some(tree) => r is Some && r->Some_0@ == tree,
                None => r is None,
            },
    {
        match value_of_text(text) {
            Some(value) => Some(json_of_value(&value)),
            None => None,
        }
    }
}

} // verus!
