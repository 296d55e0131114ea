//! Nodes: the leaves of a graph, each an identifier with its attributes.

use crate::attributes::{attributes_text, stringify_attributes, Attributes};
use vstd::prelude::*;

verus! {

/// What a node can do: write itself, decorated or bare.
///
/// A node has no orientation, so the text of `string` is the same for a
/// directed and for an undirected document.
pub trait Node {
    /// The node as it is written where it stands as a statement or as an
    /// endpoint of an edge.
    spec fn node_text(&self) -> Seq<char>;

    /// The node's identifier, without its attributes.
    spec fn node_name(&self) -> Seq<char>;

    /// Renders the node. The flag is not consulted.
    fn string(&self, directed: bool) -> (out: String)
        ensures
            out@ == self.node_text(),
    ;

    /// Marks the type as usable where a statement is expected; does nothing.
    fn stmt(&self);

    /// Returns the identifier alone.
    fn pure_string(&self) -> (out: String)
        ensures
            out@ == self.node_name(),
    ;
}

/// A node named by a string.
pub struct NodeString {
    pub val: String,
    pub attributes: Vec<(String, String)>,
}

/// The model of a [`NodeString`].
pub struct NodeView {
    pub val: Seq<char>,
    pub attributes: Attributes,
}

impl View for NodeString {
    type V = NodeView;

    open spec fn view(&self) -> NodeView {
        NodeView { val: self.val@, attributes: self.attributes.deep_view() }
    }
}

/// A node as it is written: the identifier, then its attribute list with
/// nothing in between.
pub open spec fn node_text(node: NodeView) -> Seq<char> {
    node.val + attributes_text(node.attributes)
}

/// Makes a node named `val`, without attributes.
pub fn new_node_string(val: &str) -> (out: NodeString)
    ensures
        out@ == (NodeView { val: val@, attributes: Seq::empty() }),
{
    let out = NodeString { val: val.to_string(), attributes: Vec::new() };
    assert(out.attributes.deep_view() =~= Seq::empty());
    out
}

impl NodeString {
    /// Adds the attribute `key = "value"` behind those the node has.
    pub fn with_attribute(self, key: &str, value: &str) -> (out: Self)
        ensures
            out@ == (NodeView { attributes: self@.attributes.push((key@, value@)), ..self@ }),
    {
        let mut out = self;
        out.attributes.push((key.to_string(), value.to_string()));
        assert(out.attributes.deep_view() =~= self@.attributes.push((key@, value@)));
        out
    }
}

impl Node for NodeString {
    open spec fn node_text(&self) -> Seq<char> {
        node_text(self@)
    }

    open spec fn node_name(&self) -> Seq<char> {
        self@.val
    }

    fn string(&self, _directed: bool) -> (out: String) {
        let mut out = self.val.clone();
        let list = stringify_attributes(&self.attributes);
        out.append(list.as_str());
        out
    }

    fn stmt(&self) {
    }

    fn pure_string(&self) -> (out: String) {
        self.val.clone()
    }
}

} // verus!
