//! The graph at the root of a document.

use crate::subgraph::{
    head_string, head_text, lemma_empty_scope_text, lemma_statement_views_push, scope_text,
    statement_views, statements_string, statements_text, stmt_text, ScopeView, Statement,
    StmtView,
};
use vstd::prelude::*;
use vstd::utf8::encode_utf8;

verus! {

/// A document: a named scope whose `directed` flag chooses the keyword of the
/// document and the operator of every edge in it, however deeply nested.
pub struct Graph<'a> {
    pub directed: bool,
    pub name: String,
    pub stmts: Vec<Statement<'a>>,
    pub node_attributes: Vec<(String, String)>,
    pub edge_attributes: Vec<(String, String)>,
    pub graph_attributes: Vec<(String, String)>,
}

impl<'a> View for Graph<'a> {
    type V = ScopeView;

    open spec fn view(&self) -> ScopeView {
        ScopeView {
            directed: self.directed,
            name: self.name@,
            stmts: statement_views(self.stmts@),
            node_attributes: self.node_attributes.deep_view(),
            edge_attributes: self.edge_attributes.deep_view(),
            graph_attributes: self.graph_attributes.deep_view(),
        }
    }
}

/// The keyword of a document: `digraph` when directed, `graph` when not.
pub open spec fn graph_keyword(directed: bool) -> Seq<char> {
    if directed {
        "digraph"@
    } else {
        "graph"@
    }
}

/// The document of a graph: the scope written under the graph's keyword,
/// with the graph's own flag handed down to every statement.
pub open spec fn graph_text(graph: ScopeView) -> Seq<char> {
    scope_text(graph_keyword(graph.directed), graph, graph.directed)
}

/// Makes a graph named `name`, without statements or default attributes.
pub fn new_graph<'a>(name: &str, directed: bool) -> (out: Graph<'a>)
    ensures
        out@ == (ScopeView {
            directed,
            name: name@,
            stmts: Seq::empty(),
            node_attributes: Seq::empty(),
            edge_attributes: Seq::empty(),
            graph_attributes: Seq::empty(),
        }),
{
    let out = Graph {
        name: name.to_string(),
        directed: directed,
        stmts: Vec::new(),
        node_attributes: Vec::new(),
        edge_attributes: Vec::new(),
        graph_attributes: Vec::new(),
    };
    assert(out@.node_attributes =~= Seq::empty());
    assert(out@.edge_attributes =~= Seq::empty());
    assert(out@.graph_attributes =~= Seq::empty());
    out
}

impl<'a> Graph<'a> {
    /// Adds `key = "value"` behind the default attributes for nodes.
    pub fn with_node_attribute(self, key: &str, value: &str) -> (out: Self)
        ensures
            out@ == (ScopeView {
                node_attributes: self@.node_attributes.push((key@, value@)),
                ..self@
            }),
    {
        let mut out = self;
        out.node_attributes.push((key.to_string(), value.to_string()));
        assert(out@.node_attributes =~= self@.node_attributes.push((key@, value@)));
        out
    }

    /// Adds `key = "value"` behind the default attributes for edges.
    pub fn with_edge_attribute(self, key: &str, value: &str) -> (out: Self)
        ensures
            out@ == (ScopeView {
                edge_attributes: self@.edge_attributes.push((key@, value@)),
                ..self@
            }),
    {
        let mut out = self;
        out.edge_attributes.push((key.to_string(), value.to_string()));
        assert(out@.edge_attributes =~= self@.edge_attributes.push((key@, value@)));
        out
    }

    /// Adds `key = "value"` behind the default attributes for the graph itself.
    pub fn with_graph_attribute(self, key: &str, value: &str) -> (out: Self)
        ensures
            out@ == (ScopeView {
                graph_attributes: self@.graph_attributes.push((key@, value@)),
                ..self@
            }),
    {
        let mut out = self;
        out.graph_attributes.push((key.to_string(), value.to_string()));
        assert(out@.graph_attributes =~= self@.graph_attributes.push((key@, value@)));
        out
    }

    /// Adds `stmt` behind the statements the graph has.
    pub fn add_stmt(self, stmt: Statement<'a>) -> (out: Self)
        ensures
            out@ == (ScopeView { stmts: self@.stmts.push(stmt@), ..self@ }),
    {
        let mut out = self;
        out.stmts.push(stmt);
        proof {
            lemma_statement_views_push(self.stmts@, stmt);
        }
        out
    }

    /// Renders the document.
    pub fn string(&self) -> (out: String)
        ensures
            out@ == graph_text(self@),
    {
        let keyword = if self.directed {
            "digraph"
        } else {
            "graph"
        };
        let mut out = head_string(
            keyword,
            &self.name,
            &self.graph_attributes,
            &self.edge_attributes,
            &self.node_attributes,
        );
        let body = statements_string(&self.stmts, self.directed);
        out.append(body.as_str());
        out.append("}");
        out
    }
}

/// A graph without statements and without default attributes is written as
/// its keyword and name, the opening brace, three empty default lines and
/// the closing brace, with no statement line in between.
pub proof fn lemma_empty_graph_text(graph: ScopeView)
    requires
        graph.stmts.len() == 0,
        graph.graph_attributes.len() == 0,
        graph.edge_attributes.len() == 0,
        graph.node_attributes.len() == 0,
    ensures
        graph_text(graph) == graph_keyword(graph.directed) + " "@ + graph.name + " \n { \n"@
            + ";\n"@ + ";\n"@ + ";\n"@ + "}"@,
{
    lemma_empty_scope_text(graph_keyword(graph.directed), graph, graph.directed);
}

/// A subgraph that is the one statement of a graph is written whole, from
/// its keyword to its closing brace, between the graph's default lines and
/// the graph's closing brace. Its statements are written for the graph's
/// flag: the subgraph's own flag appears nowhere.
pub proof fn lemma_nested_subgraph_text(graph: ScopeView, sub: ScopeView)
    requires
        graph.stmts.len() == 1,
        graph.stmts[0] == StmtView::SubGraph(sub),
    ensures
        graph_text(graph) == head_text(
            graph_keyword(graph.directed),
            graph.name,
            graph.graph_attributes,
            graph.edge_attributes,
            graph.node_attributes,
        ) + (head_text(
            "subgraph"@,
            sub.name,
            sub.graph_attributes,
            sub.edge_attributes,
            sub.node_attributes,
        ) + statements_text(sub.stmts, graph.directed) + "}"@) + ";\n"@ + "}"@,
{
    let inner = scope_text("subgraph"@, sub, graph.directed);
    assert(stmt_text(graph.stmts.last(), graph.directed) == inner);
    assert(statements_text(graph.stmts.drop_last(), graph.directed) =~= Seq::<char>::empty());
}

/// Rendering is repeatable: whatever `string` returns for a graph, it
/// returns for that graph every time, the same text and so the same bytes.
pub proof fn lemma_rendering_is_repeatable(graph: Graph, first: String, second: String)
    requires
        call_ensures(Graph::string, (&graph,), first),
        call_ensures(Graph::string, (&graph,), second),
    ensures
        first@ == second@,
        encode_utf8(first@) == encode_utf8(second@),
{
}

} // verus!
