//! Namespaces.

use crate::doc::ast::{ModuleItem, TsModuleDecl, TsModuleName, TsNamespaceBody, TsNamespaceDecl};
use crate::doc::module::{get_doc_nodes_for_module_body, module_body_docs, module_items_docs};
use crate::doc::node::{node_views, DocDefView, DocNode, DocNodeDef, DocNodeView, NamespaceDef};
use crate::doc::parser::{signature_of, DocParser};
use crate::doc::source::Span;
use crate::text::concat_all;
use vstd::prelude::*;

verus! {

impl TsNamespaceDecl {
    /// Whether the ranges of the namespace and of what it holds lie within a
    /// text of `len` characters.
    pub open spec fn fits(self, len: nat) -> bool
        decreases self,
    {
        self.span.within(len) && self.body.fits(len)
    }
}

impl TsNamespaceBody {
    /// Whether the ranges of what the body holds lie within a text of `len`
    /// characters.
    pub open spec fn fits(self, len: nat) -> bool
        decreases self,
    {
        match self {
            TsNamespaceBody::TsModuleBlock(items) => forall|i: int|
                0 <= i < items.len() ==> (#[trigger] items[i]).fits(len),
            TsNamespaceBody::TsNamespaceDecl(decl) => decl.fits(len),
        }
    }
}

impl TsModuleDecl {
    /// Whether the declaration fits the range `outer` of a text of `len`
    /// characters.
    pub open spec fn fits(self, outer: Span, len: nat) -> bool
        decreases self,
    {
        &&& outer.within(len)
        &&& match self.body {
            Some(body) => body.fits(len),
            None => true,
        }
    }
}

/// The name of a namespace or module.
pub open spec fn module_name_text(name: TsModuleName) -> Seq<char> {
    match name {
        TsModuleName::Ident(sym) => sym@,
        TsModuleName::Str(value) => value@,
    }
}

/// The documentation of the namespace declaration `decl` that the export
/// `span` covers: a namespace node that holds the documentation of its body.
pub open spec fn module_decl_doc(parser: &DocParser, span: Span, decl: TsModuleDecl) -> DocNodeView
    decreases decl,
{
    DocNodeView {
        name: module_name_text(decl.id),
        snippet: signature_of(parser.text(), span, None),
        location: parser.source.location_of(span),
        js_doc: parser.js_doc_at(span),
        def: DocDefView::Namespace(
            match decl.body {
                Some(body) => namespace_body_docs(parser, body),
                None => Seq::empty(),
            },
        ),
    }
}

/// The documentation of a namespace that is a part of a dotted name.
pub open spec fn namespace_decl_doc(parser: &DocParser, decl: TsNamespaceDecl) -> DocNodeView
    decreases decl,
{
    DocNodeView {
        name: decl.id@,
        snippet: signature_of(parser.text(), decl.span, None),
        location: parser.source.location_of(decl.span),
        js_doc: parser.js_doc_at(decl.span),
        def: DocDefView::Namespace(namespace_body_docs(parser, decl.body)),
    }
}

/// The documentation of the body of a namespace: that of its items, or the
/// one node of the next namespace of a dotted name.
pub open spec fn namespace_body_docs(parser: &DocParser, body: TsNamespaceBody) -> Seq<DocNodeView>
    decreases body,
{
    match body {
        TsNamespaceBody::TsModuleBlock(items) => concat_all(module_items_docs(parser, items)),
        TsNamespaceBody::TsNamespaceDecl(decl) => seq![namespace_decl_doc(parser, *decl)],
    }
}

/// A namespace node with the given elements.
fn namespace_node(
    doc_parser: &DocParser,
    span: Span,
    name: String,
    elements: Vec<DocNode>,
) -> (node: DocNode)
    requires
        span.within(doc_parser.text().len()),
    ensures
        node@ == (DocNodeView {
            name: name@,
            snippet: signature_of(doc_parser.text(), span, None),
            location: doc_parser.source.location_of(span),
            js_doc: doc_parser.js_doc_at(span),
            def: DocDefView::Namespace(node_views(elements@)),
        }),
{
    let js_doc = doc_parser.js_doc_for_span(span);
    let snippet = doc_parser.signature(span, &None);
    let node = DocNode {
        name,
        snippet,
        location: doc_parser.source.location(span),
        js_doc,
        def: DocNodeDef::Namespace(NamespaceDef { elements }),
    };
    proof {
        assert(node@.def->Namespace_0 =~= node_views(elements@));
    }
    node
}

/// The documentation of an exported namespace or module declaration.
pub fn get_doc_for_ts_module(
    doc_parser: &DocParser,
    parent_span: Span,
    ts_module: &TsModuleDecl,
) -> (node: DocNode)
    requires
        ts_module.fits(parent_span, doc_parser.text().len()),
    ensures
        node@ == module_decl_doc(doc_parser, parent_span, *ts_module),
    decreases ts_module,
{
    let namespace_name = match &ts_module.id {
        TsModuleName::Ident(sym) => sym.clone(),
        TsModuleName::Str(value) => value.clone(),
    };
    let elements = match &ts_module.body {
        Some(body) => get_doc_nodes_for_namespace_body(doc_parser, body),
        None => Vec::new(),
    };
    proof {
        if ts_module.body is None {
            assert(node_views(elements@) =~= Seq::<DocNodeView>::empty());
        }
    }
    namespace_node(doc_parser, parent_span, namespace_name, elements)
}

/// The documentation of a namespace that is a part of a dotted name.
pub fn get_doc_for_ts_namespace_decl(
    doc_parser: &DocParser,
    ts_namespace_decl: &TsNamespaceDecl,
) -> (node: DocNode)
    requires
        ts_namespace_decl.fits(doc_parser.text().len()),
    ensures
        node@ == namespace_decl_doc(doc_parser, *ts_namespace_decl),
    decreases ts_namespace_decl,
{
    let elements = get_doc_nodes_for_namespace_body(doc_parser, &ts_namespace_decl.body);
    namespace_node(doc_parser, ts_namespace_decl.span, ts_namespace_decl.id.clone(), elements)
}

/// The documentation of the body of a namespace.
pub fn get_doc_nodes_for_namespace_body(doc_parser: &DocParser, body: &TsNamespaceBody) -> (nodes:
    Vec<DocNode>)
    requires
        body.fits(doc_parser.text().len()),
    ensures
        node_views(nodes@) == namespace_body_docs(doc_parser, *body),
    decreases body,
{
    match body {
        TsNamespaceBody::TsModuleBlock(items) => get_doc_nodes_for_module_body(doc_parser, items),
        TsNamespaceBody::TsNamespaceDecl(decl) => {
            let node = get_doc_for_ts_namespace_decl(doc_parser, decl);
            let mut nodes: Vec<DocNode> = Vec::new();
            nodes.push(node);
            proof {
                assert(node_views(nodes@) =~= seq![node@]);
            }
            nodes
        },
    }
}

/// A namespace is documented as a tree: the node of a namespace that holds
/// a block of items holds the documentation of those items, in their order,
/// and so on through every level of nesting.
pub proof fn lemma_namespace_holds_its_items(
    parser: &DocParser,
    span: Span,
    decl: TsModuleDecl,
    items: Vec<ModuleItem>,
)
    requires
        decl.body == Some(TsNamespaceBody::TsModuleBlock(items)),
    ensures
        module_decl_doc(parser, span, decl).name == module_name_text(decl.id),
        module_decl_doc(parser, span, decl).def == DocDefView::Namespace(
            module_body_docs(parser, items),
        ),
{
}

} // verus!
