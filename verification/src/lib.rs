//! A builder for graph-description text in the DOT language.
//!
//! A caller assembles nodes, edges and nested subgraphs, each with its
//! attributes, and renders the whole to one document:
//!
//! ```text
//! digraph NAME
//!  {
//! graph [...];
//! edge [...];
//! node [...];
//! STATEMENT;
//! STATEMENT;
//! }
//! ```
//!
//! Every entity has a model (its view), and for every model a spec function
//! gives the text it is written as. The `string` methods return exactly that
//! text, so rendering is a function of the model alone. Names and attributes
//! are written as they are given: nothing is validated, escaped, sorted or
//! merged.
//!
//! * [`attributes`]: attribute lists and their text.
//! * [`node`]: nodes.
//! * [`edge`]: edges, chains of nodes.
//! * [`stmt`]: the capability shared by all statements.
//! * [`subgraph`]: statements and nested scopes.
//! * [`graph`]: the graph at the root, and the document.

pub mod attributes;
pub mod edge;
pub mod graph;
pub mod node;
pub mod stmt;
pub mod subgraph;

pub use crate::attributes::{stringify_attributes, stringify_attributes_with_prefix, Attributes};
pub use crate::edge::{new_edge, Edge, EdgeView};
pub use crate::graph::{new_graph, Graph};
pub use crate::node::{new_node_string, Node, NodeString, NodeView};
pub use crate::stmt::Stmt;
pub use crate::subgraph::{new_subgraph, ScopeView, Statement, StmtView, SubGraph};
