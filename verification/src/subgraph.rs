//! Statements and subgraphs: the nested scopes of a document.

use crate::attributes::{prefixed_attributes_text, stringify_attributes_with_prefix, Attributes};
use crate::edge::{edge_text, Edge, EdgeView};
use crate::node::{node_text, Node, NodeString, NodeView};
use crate::stmt::Stmt;
use vstd::prelude::*;

verus! {

/// One entry in the body of a scope: a node, an edge or a nested subgraph.
///
/// A statement borrows what it names: the entity stays with the caller.
#[derive(Clone, Copy)]
pub enum Statement<'a> {
    Node(&'a NodeString),
    Edge(&'a Edge<'a>),
    SubGraph(&'a SubGraph<'a>),
}

/// A named scope that can stand as a statement in another scope.
///
/// The `directed` flag is kept but plays no part in rendering: the operator
/// of every edge in a document is chosen by the graph at its root.
pub struct SubGraph<'a> {
    pub directed: bool,
    pub name: String,
    pub stmts: Vec<Statement<'a>>,
    pub node_attributes: Vec<(String, String)>,
    pub edge_attributes: Vec<(String, String)>,
    pub graph_attributes: Vec<(String, String)>,
}

/// The model of a [`Statement`].
pub enum StmtView {
    Node(NodeView),
    Edge(EdgeView),
    SubGraph(ScopeView),
}

/// The model of a scope, be it a graph or a subgraph: its name, its flag,
/// the three default attribute lists and the statements in order.
pub struct ScopeView {
    pub directed: bool,
    pub name: Seq<char>,
    pub stmts: Seq<StmtView>,
    pub node_attributes: Attributes,
    pub edge_attributes: Attributes,
    pub graph_attributes: Attributes,
}

/// The model of a statement.
pub open spec fn statement_view(stmt: Statement) -> StmtView
    decreases stmt,
{
    match stmt {
        Statement::Node(node) => StmtView::Node(node@),
        Statement::Edge(edge) => StmtView::Edge(edge@),
        Statement::SubGraph(sub) => StmtView::SubGraph(subgraph_view(*sub)),
    }
}

/// The models of the statements of `stmts`, in order.
pub open spec fn statement_views(stmts: Seq<Statement>) -> Seq<StmtView>
    decreases stmts,
{
    if stmts.len() == 0 {
        Seq::empty()
    } else {
        statement_views(stmts.drop_last()).push(statement_view(stmts.last()))
    }
}

/// The model of a subgraph.
pub open spec fn subgraph_view(sub: SubGraph) -> ScopeView
    decreases sub,
{
    ScopeView {
        directed: sub.directed,
        name: sub.name@,
        stmts: statement_views(sub.stmts@),
        node_attributes: sub.node_attributes.deep_view(),
        edge_attributes: sub.edge_attributes.deep_view(),
        graph_attributes: sub.graph_attributes.deep_view(),
    }
}

impl<'a> View for Statement<'a> {
    type V = StmtView;

    open spec fn view(&self) -> StmtView {
        statement_view(*self)
    }
}

impl<'a> View for SubGraph<'a> {
    type V = ScopeView;

    open spec fn view(&self) -> ScopeView {
        subgraph_view(*self)
    }
}

/// A default-attribute line: the list of the category, closed by `;` and a
/// line break. A category without attributes still has its line.
pub open spec fn default_line(category: Seq<char>, attrs: Attributes) -> Seq<char> {
    prefixed_attributes_text(category, attrs) + ";\n"@
}

/// What opens a scope: the keyword and the name, the opening brace, and the
/// default-attribute lines for graphs, edges and nodes, in that order.
pub open spec fn head_text(
    keyword: Seq<char>,
    name: Seq<char>,
    graph_attributes: Attributes,
    edge_attributes: Attributes,
    node_attributes: Attributes,
) -> Seq<char> {
    keyword + " "@ + name + " \n { \n"@ + default_line("graph"@, graph_attributes) + default_line(
        "edge"@,
        edge_attributes,
    ) + default_line("node"@, node_attributes)
}

/// A statement as it is written in a document that is `directed` or not.
pub open spec fn stmt_text(stmt: StmtView, directed: bool) -> Seq<char>
    decreases stmt,
{
    match stmt {
        StmtView::Node(node) => node_text(node),
        StmtView::Edge(edge) => edge_text(edge, directed),
        StmtView::SubGraph(sub) => scope_text("subgraph"@, sub, directed),
    }
}

/// The statements as they are written, in order, each closed by `;` and a
/// line break.
pub open spec fn statements_text(stmts: Seq<StmtView>, directed: bool) -> Seq<char>
    decreases stmts,
{
    if stmts.len() == 0 {
        Seq::empty()
    } else {
        statements_text(stmts.drop_last(), directed) + stmt_text(stmts.last(), directed) + ";\n"@
    }
}

/// A scope as it is written under `keyword` in a document that is `directed`
/// or not: its head, its statements and the closing brace.
///
/// The flag handed in decides the operator of every edge below; the scope's
/// own `directed` field is not read.
pub open spec fn scope_text(keyword: Seq<char>, scope: ScopeView, directed: bool) -> Seq<char>
    decreases scope,
{
    head_text(
        keyword,
        scope.name,
        scope.graph_attributes,
        scope.edge_attributes,
        scope.node_attributes,
    ) + statements_text(scope.stmts, directed) + "}"@
}

/// The models of a sequence of statements are the models of its members.
pub proof fn lemma_statement_views(stmts: Seq<Statement>)
    ensures
        statement_views(stmts).len() == stmts.len(),
        forall|i: int| 0 <= i < stmts.len() ==> statement_views(stmts)[i] == statement_view(stmts[i]),
    decreases stmts.len(),
{
    if stmts.len() > 0 {
        lemma_statement_views(stmts.drop_last());
    }
}

/// Adding a statement at the end adds its model at the end.
pub proof fn lemma_statement_views_push(stmts: Seq<Statement>, stmt: Statement)
    ensures
        statement_views(stmts.push(stmt)) == statement_views(stmts).push(statement_view(stmt)),
{
    assert(stmts.push(stmt).drop_last() =~= stmts);
}

/// Makes a subgraph named `name`, without statements or default attributes.
pub fn new_subgraph<'a>(name: &str, directed: bool) -> (out: SubGraph<'a>)
    ensures
        out@ == (ScopeView {
            directed,
            name: name@,
            stmts: Seq::empty(),
            node_attributes: Seq::empty(),
            edge_attributes: Seq::empty(),
            graph_attributes: Seq::empty(),
        }),
{
    let out = SubGraph {
        name: name.to_string(),
        directed: directed,
        stmts: Vec::new(),
        node_attributes: Vec::new(),
        edge_attributes: Vec::new(),
        graph_attributes: Vec::new(),
    };
    assert(out@.node_attributes =~= Seq::empty());
    assert(out@.edge_attributes =~= Seq::empty());
    assert(out@.graph_attributes =~= Seq::empty());
    out
}

impl<'a> SubGraph<'a> {
    /// Adds `key = "value"` behind the default attributes for nodes.
    pub fn with_node_attribute(self, key: &str, value: &str) -> (out: Self)
        ensures
            out@ == (ScopeView {
                node_attributes: self@.node_attributes.push((key@, value@)),
                ..self@
            }),
    {
        let mut out = self;
        out.node_attributes.push((key.to_string(), value.to_string()));
        assert(out@.node_attributes =~= self@.node_attributes.push((key@, value@)));
        out
    }

    /// Adds `key = "value"` behind the default attributes for edges.
    pub fn with_edge_attribute(self, key: &str, value: &str) -> (out: Self)
        ensures
            out@ == (ScopeView {
                edge_attributes: self@.edge_attributes.push((key@, value@)),
                ..self@
            }),
    {
        let mut out = self;
        out.edge_attributes.push((key.to_string(), value.to_string()));
        assert(out@.edge_attributes =~= self@.edge_attributes.push((key@, value@)));
        out
    }

    /// Adds `key = "value"` behind the default attributes for the scope itself.
    pub fn with_graph_attribute(self, key: &str, value: &str) -> (out: Self)
        ensures
            out@ == (ScopeView {
                graph_attributes: self@.graph_attributes.push((key@, value@)),
                ..self@
            }),
    {
        let mut out = self;
        out.graph_attributes.push((key.to_string(), value.to_string()));
        assert(out@.graph_attributes =~= self@.graph_attributes.push((key@, value@)));
        out
    }

    /// Adds `stmt` behind the statements the subgraph has.
    pub fn add_stmt(self, stmt: Statement<'a>) -> (out: Self)
        ensures
            out@ == (ScopeView { stmts: self@.stmts.push(stmt@), ..self@ }),
    {
        let mut out = self;
        out.stmts.push(stmt);
        proof {
            lemma_statement_views_push(self.stmts@, stmt);
        }
        out
    }
}

/// Renders what opens a scope.
pub(crate) fn head_string(
    keyword: &str,
    name: &String,
    graph_attributes: &Vec<(String, String)>,
    edge_attributes: &Vec<(String, String)>,
    node_attributes: &Vec<(String, String)>,
) -> (out: String)
    ensures
        out@ == head_text(
            keyword@,
            name@,
            graph_attributes.deep_view(),
            edge_attributes.deep_view(),
            node_attributes.deep_view(),
        ),
{
    let mut out = String::from_str(keyword);
    out.append(" ");
    out.append(name.as_str());
    out.append(" \n { \n");
    let graph_line = stringify_attributes_with_prefix("graph", graph_attributes);
    out.append(graph_line.as_str());
    out.append(";\n");
    let edge_line = stringify_attributes_with_prefix("edge", edge_attributes);
    out.append(edge_line.as_str());
    out.append(";\n");
    let node_line = stringify_attributes_with_prefix("node", node_attributes);
    out.append(node_line.as_str());
    out.append(";\n");
    out
}

/// Renders the statements of a scope, one line each.
pub(crate) fn statements_string(stmts: &Vec<Statement>, directed: bool) -> (out: String)
    ensures
        out@ == statements_text(statement_views(stmts@), directed),
    decreases stmts,
{
    let ghost views = statement_views(stmts@);
    proof {
        lemma_statement_views(stmts@);
    }
    let mut out = String::new();
    for i in 0..stmts.len()
        invariant
            views == statement_views(stmts@),
            views.len() == stmts@.len(),
            forall|j: int| 0 <= j < stmts@.len() ==> views[j] == statement_view(stmts@[j]),
            out@ == statements_text(views.take(i as int), directed),
    {
        proof {
            assert(views.take(i + 1).drop_last() =~= views.take(i as int));
        }
        let line = stmts[i].string(directed);
        out.append(line.as_str());
        out.append(";\n");
    }
    assert(views.take(stmts.len() as int) =~= views);
    out
}

impl<'a> Stmt for Statement<'a> {
    open spec fn stmt_text(&self, directed: bool) -> Seq<char> {
        stmt_text(self@, directed)
    }

    fn stmt(&self) {
    }

    fn string(&self, directed: bool) -> (out: String)
        decreases self,
    {
        match self {
            Statement::Node(node) => Node::string(*node, directed),
            Statement::Edge(edge) => edge.string(directed),
            Statement::SubGraph(sub) => sub.string(directed),
        }
    }
}

impl<'a> Stmt for SubGraph<'a> {
    open spec fn stmt_text(&self, directed: bool) -> Seq<char> {
        scope_text("subgraph"@, self@, directed)
    }

    fn stmt(&self) {
    }

    fn string(&self, directed: bool) -> (out: String)
        decreases self,
    {
        let mut out = head_string(
            "subgraph",
            &self.name,
            &self.graph_attributes,
            &self.edge_attributes,
            &self.node_attributes,
        );
        let body = statements_string(&self.stmts, directed);
        out.append(body.as_str());
        out.append("}");
        out
    }
}

/// A scope is written the same whatever its own `directed` field holds: only
/// the flag handed in from the root of the document reaches its edges.
pub proof fn lemma_scope_text_ignores_own_flag(
    keyword: Seq<char>,
    scope: ScopeView,
    flag: bool,
    directed: bool,
)
    ensures
        scope_text(keyword, (ScopeView { directed: flag, ..scope }), directed) == scope_text(
            keyword,
            scope,
            directed,
        ),
{
}

/// A scope without statements and without default attributes is written as
/// its keyword and name, the opening brace, three empty default lines and
/// the closing brace.
pub proof fn lemma_empty_scope_text(keyword: Seq<char>, scope: ScopeView, directed: bool)
    requires
        scope.stmts.len() == 0,
        scope.graph_attributes.len() == 0,
        scope.edge_attributes.len() == 0,
        scope.node_attributes.len() == 0,
    ensures
        scope_text(keyword, scope, directed) == keyword + " "@ + scope.name + " \n { \n"@ + ";\n"@
            + ";\n"@ + ";\n"@ + "}"@,
{
}

/// Adding a statement at the end of a scope adds its line at the end of the
/// statements' text: what was written before stays as it was.
pub proof fn lemma_statements_text_push(stmts: Seq<StmtView>, stmt: StmtView, directed: bool)
    ensures
        statements_text(stmts.push(stmt), directed) == statements_text(stmts, directed) + stmt_text(
            stmt,
            directed,
        ) + ";\n"@,
{
    assert(stmts.push(stmt).drop_last() =~= stmts);
}

/// The statements of a scope are written one after another in their order,
/// each for the same flag: the text of two runs of statements put together
/// is the text of the first followed by the text of the second.
pub proof fn lemma_statements_text_concat(
    first: Seq<StmtView>,
    second: Seq<StmtView>,
    directed: bool,
)
    ensures
        statements_text(first + second, directed) == statements_text(first, directed)
            + statements_text(second, directed),
    decreases second.len(),
{
    if second.len() > 0 {
        lemma_statements_text_concat(first, second.drop_last(), directed);
        assert((first + second).drop_last() =~= first + second.drop_last());
    }
}

/// Every statement of a scope, wherever it stands, has its own line in the
/// text, written for the flag handed in, between the lines of the statements
/// before it and those of the statements behind it.
pub proof fn lemma_statements_text_split(stmts: Seq<StmtView>, directed: bool, at: int)
    requires
        0 <= at < stmts.len(),
    ensures
        statements_text(stmts, directed) == statements_text(stmts.take(at), directed) + (stmt_text(
            stmts[at],
            directed,
        ) + ";\n"@) + statements_text(stmts.skip(at + 1), directed),
{
    let before = stmts.take(at);
    let this = seq![stmts[at]];
    let behind = stmts.skip(at + 1);
    assert(stmts =~= before + this + behind);
    lemma_statements_text_concat(before + this, behind, directed);
    lemma_statements_text_concat(before, this, directed);
    assert(statements_text(this.drop_last(), directed) =~= Seq::<char>::empty());
}

} // verus!
