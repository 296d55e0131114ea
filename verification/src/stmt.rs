//! The capability shared by everything that can stand in the body of a graph.

use vstd::prelude::*;

verus! {

/// What a statement can do: write itself for a directed or an undirected
/// document.
pub trait Stmt {
    /// The statement as it is written in a document that is `directed` or not.
    spec fn stmt_text(&self, directed: bool) -> Seq<char>;

    /// Renders the statement for a document that is `directed` or not.
    fn string(&self, directed: bool) -> (out: String)
        ensures
            out@ == self.stmt_text(directed),
    ;

    /// Marks the type as a statement; does nothing.
    fn stmt(&self);
}

} // verus!
