//! Edges: chains of nodes joined by the document's edge operator.

use crate::attributes::{attributes_text, stringify_attributes, Attributes};
use crate::node::{node_text, Node, NodeString, NodeView};
use crate::stmt::Stmt;
use vstd::prelude::*;

verus! {

/// A chain of one or more nodes, with the attributes of the edge itself.
///
/// The edge borrows its endpoints: the nodes stay with the caller.
pub struct Edge<'a> {
    pub nodes: Vec<&'a NodeString>,
    pub attributes: Vec<(String, String)>,
}

/// The model of an [`Edge`]: its endpoints in order, and its attributes.
pub struct EdgeView {
    pub nodes: Seq<NodeView>,
    pub attributes: Attributes,
}

impl<'a> View for Edge<'a> {
    type V = EdgeView;

    open spec fn view(&self) -> EdgeView {
        EdgeView {
            nodes: self.nodes@.map_values(|node: &NodeString| node@),
            attributes: self.attributes.deep_view(),
        }
    }
}

/// The edge operator: `->` in a directed document, `--` in an undirected one.
pub open spec fn edge_operator(directed: bool) -> Seq<char> {
    if directed {
        "->"@
    } else {
        "--"@
    }
}

/// What stands between two neighbouring endpoints: the operator with one
/// space on either side.
pub open spec fn edge_separator(directed: bool) -> Seq<char> {
    " "@ + edge_operator(directed) + " "@
}

/// The endpoints as they are written, in order, each two neighbours joined
/// by the separator. Nothing follows the last endpoint.
pub open spec fn chain_text(nodes: Seq<NodeView>, directed: bool) -> Seq<char>
    decreases nodes.len(),
{
    if nodes.len() == 0 {
        Seq::empty()
    } else if nodes.len() == 1 {
        node_text(nodes[0])
    } else {
        chain_text(nodes.drop_last(), directed) + edge_separator(directed) + node_text(
            nodes.last(),
        )
    }
}

/// An edge as it is written: the chain of its endpoints, then its own
/// attribute list with nothing in between.
pub open spec fn edge_text(edge: EdgeView, directed: bool) -> Seq<char> {
    chain_text(edge.nodes, directed) + attributes_text(edge.attributes)
}

/// Starts an edge at `lhs`. The edge has this one endpoint and no attributes.
pub fn new_edge<'a>(lhs: &'a NodeString) -> (out: Edge<'a>)
    ensures
        out@ == (EdgeView { nodes: seq![lhs@], attributes: Seq::empty() }),
{
    let mut nodes: Vec<&'a NodeString> = Vec::new();
    nodes.push(lhs);
    let out = Edge { nodes, attributes: Vec::new() };
    assert(out@.nodes =~= seq![lhs@]);
    assert(out@.attributes =~= Seq::empty());
    out
}

impl<'a> Edge<'a> {
    /// Adds the attribute `key = "value"` behind those the edge has.
    pub fn with_attribute(self, key: &str, value: &str) -> (out: Self)
        ensures
            out@ == (EdgeView { attributes: self@.attributes.push((key@, value@)), ..self@ }),
    {
        let mut out = self;
        out.attributes.push((key.to_string(), value.to_string()));
        assert(out@.attributes =~= self@.attributes.push((key@, value@)));
        out
    }

    /// Extends the chain by `node`.
    pub fn add_node(self, node: &'a NodeString) -> (out: Self)
        ensures
            out@ == (EdgeView { nodes: self@.nodes.push(node@), ..self@ }),
    {
        let mut out = self;
        out.nodes.push(node);
        assert(out@.nodes =~= self@.nodes.push(node@));
        out
    }
}

impl<'a> Stmt for Edge<'a> {
    open spec fn stmt_text(&self, directed: bool) -> Seq<char> {
        edge_text(self@, directed)
    }

    fn stmt(&self) {
    }

    fn string(&self, directed: bool) -> (out: String) {
        let ghost nodes = self@.nodes;
        let mut out = String::new();
        let op = if directed {
            "->"
        } else {
            "--"
        };
        for i in 0..self.nodes.len()
            invariant
                nodes == self@.nodes,
                op@ == edge_operator(directed),
                out@ == chain_text(nodes.take(i as int), directed),
        {
            proof {
                assert(nodes.take(i + 1).drop_last() =~= nodes.take(i as int));
            }
            if i != 0 {
                out.append(" ");
                out.append(op);
                out.append(" ");
            }
            let endpoint = self.nodes[i].string(directed);
            out.append(endpoint.as_str());
        }
        assert(nodes.take(self.nodes.len() as int) =~= nodes);
        let list = stringify_attributes(&self.attributes);
        out.append(list.as_str());
        out
    }
}

/// Extending a chain that has an endpoint adds the separator and the new
/// endpoint behind it: what was written before stays as it was.
pub proof fn lemma_chain_text_push(nodes: Seq<NodeView>, node: NodeView, directed: bool)
    requires
        nodes.len() > 0,
    ensures
        chain_text(nodes.push(node), directed) == chain_text(nodes, directed) + edge_separator(
            directed,
        ) + node_text(node),
{
    assert(nodes.push(node).drop_last() =~= nodes);
}

/// An edge with one endpoint is written as that endpoint, with no operator,
/// followed by the edge's own attribute list.
pub proof fn lemma_single_endpoint_edge_text(edge: EdgeView, directed: bool)
    requires
        edge.nodes.len() == 1,
    ensures
        edge_text(edge, directed) == node_text(edge.nodes[0]) + attributes_text(edge.attributes),
        edge.attributes.len() == 0 ==> edge_text(edge, directed) == node_text(edge.nodes[0]),
{
}

/// An edge with three endpoints is written as the three of them in order,
/// joined by ` -> ` in a directed document and by ` -- ` in an undirected
/// one: the operator stands twice, and nowhere behind the last endpoint.
pub proof fn lemma_three_endpoint_edge_text(edge: EdgeView)
    requires
        edge.nodes.len() == 3,
    ensures
        edge_text(edge, true) == node_text(edge.nodes[0]) + " -> "@ + node_text(edge.nodes[1])
            + " -> "@ + node_text(edge.nodes[2]) + attributes_text(edge.attributes),
        edge_text(edge, false) == node_text(edge.nodes[0]) + " -- "@ + node_text(edge.nodes[1])
            + " -- "@ + node_text(edge.nodes[2]) + attributes_text(edge.attributes),
{
    reveal_strlit(" ");
    reveal_strlit("->");
    reveal_strlit("--");
    reveal_strlit(" -> ");
    reveal_strlit(" -- ");
    let two = edge.nodes.drop_last();
    let one = two.drop_last();
    assert(chain_text(one, true) == node_text(edge.nodes[0]));
    assert(chain_text(one, false) == node_text(edge.nodes[0]));
    assert(chain_text(two, true) == node_text(edge.nodes[0]) + " -> "@ + node_text(edge.nodes[1]));
    assert(chain_text(two, false) == node_text(edge.nodes[0]) + " -- "@ + node_text(
        edge.nodes[1],
    ));
}

} // verus!
