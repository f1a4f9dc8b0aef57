//! Printers: from documentation nodes to the lines to show.

use crate::doc::node::{node_views, DocNode, DocNodeView};
use crate::printer::terminal::{render_node, render_node_list, render_nodes, TerminalPrinter};
use crate::text::{concat_all, views_of};
use vstd::prelude::*;

pub mod json;
pub mod terminal;

verus! {

/// What a printer of lines offers.
pub trait Printer {
    /// The lines by which this printer shows `nodes`.
    spec fn shown(&self, nodes: Seq<DocNodeView>) -> Seq<Seq<char>>;

    /// The lines that show the nodes of `doc_nodes`.
    fn print(&self, doc_nodes: Vec<DocNode>) -> (lines: Vec<String>)
        ensures
            views_of(lines@) == self.shown(node_views(doc_nodes@)),
    ;

    /// The lines that show the one node `node`: the lines of a list that
    /// holds it alone.
    fn print_details(&self, node: DocNode) -> (lines: Vec<String>)
        ensures
            views_of(lines@) == self.shown(seq![node@]),
    ;
}

/// The lines of a list of one node are the lines of that node.
pub proof fn lemma_render_single(node: DocNodeView, prefix: Seq<char>)
    ensures
        render_nodes(seq![node], prefix) == render_node(node, prefix),
{
    let parts = render_node_list(seq![node], prefix);
    assert(parts =~= seq![render_node(node, prefix)]);
    assert(parts.drop_last() =~= Seq::<Seq<Seq<char>>>::empty());
    assert(concat_all(parts.drop_last()) =~= Seq::<Seq<char>>::empty());
    assert(concat_all(parts) =~= render_node(node, prefix));
}

impl Printer for TerminalPrinter {
    open spec fn shown(&self, nodes: Seq<DocNodeView>) -> Seq<Seq<char>> {
        render_nodes(nodes, Seq::empty())
    }

    fn print(&self, doc_nodes: Vec<DocNode>) -> (lines: Vec<String>) {
        self.print_(doc_nodes, 0)
    }

    fn print_details(&self, node: DocNode) -> (lines: Vec<String>) {
        proof {
            lemma_render_single(node@, Seq::empty());
        }
        let indent = String::new();
        self.print_node(node, indent.as_str())
    }
}

} // verus!
