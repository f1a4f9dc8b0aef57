//! Type aliases.

use crate::doc::ast::TsTypeAliasDecl;
use crate::doc::node::{DocDefView, DocNode, DocNodeDef, DocNodeView};
use crate::doc::parser::{signature_of, DocParser};
use crate::doc::source::Span;
use crate::doc::ts_type::{ts_type_to_def, type_expr_of, TsTypeDef};
use vstd::prelude::*;

verus! {

/// What is documented of a type alias: the type that it names.
#[derive(Debug)]
pub struct TypeAliasDef {
    pub ts_type: TsTypeDef,
}

impl TsTypeAliasDecl {
    /// Whether the declaration fits the range `outer` of a text of `len`
    /// characters.
    pub open spec fn fits(self, outer: Span, len: nat) -> bool {
        outer.within(len) && self.type_ann.spans_ok(len)
    }
}

/// The documentation of the type alias declaration `decl` that the export
/// `span` covers.
pub open spec fn type_alias_decl_doc(
    parser: &DocParser,
    span: Span,
    decl: TsTypeAliasDecl,
) -> DocNodeView {
    DocNodeView {
        name: decl.id@,
        snippet: signature_of(parser.text(), span, None),
        location: parser.source.location_of(span),
        js_doc: parser.js_doc_at(span),
        def: DocDefView::TypeAlias(type_expr_of(parser.text(), decl.type_ann)),
    }
}

/// The documentation of an exported type alias declaration.
pub fn get_doc_for_ts_type_alias_decl(
    doc_parser: &DocParser,
    parent_span: Span,
    type_alias_decl: &TsTypeAliasDecl,
) -> (node: DocNode)
    requires
        type_alias_decl.fits(parent_span, doc_parser.text().len()),
    ensures
        node@ == type_alias_decl_doc(doc_parser, parent_span, *type_alias_decl),
{
    let js_doc = doc_parser.js_doc_for_span(parent_span);
    let snippet = doc_parser.signature(parent_span, &None);
    let ts_type = ts_type_to_def(&doc_parser.source, &type_alias_decl.type_ann);
    let type_alias_def = TypeAliasDef { ts_type };
    DocNode {
        name: type_alias_decl.id.clone(),
        snippet,
        location: doc_parser.source.location(parent_span),
        js_doc,
        def: DocNodeDef::TypeAlias(type_alias_def),
    }
}

} // verus!
