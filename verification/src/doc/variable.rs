//! Variables.

use crate::doc::ast::{Pat, VarDecl, VarDeclKind};
use crate::doc::node::{DocDefView, DocNode, DocNodeDef, DocNodeView};
use crate::doc::parser::{signature_of, DocParser};
use crate::doc::source::Span;
use crate::doc::ts_type::{
    opt_ts_type_ann_to_def, opt_type_ann_expr, opt_type_view, unnamed, TsTypeDef, TypeExpr,
};
use vstd::prelude::*;

verus! {

/// What is documented of a variable.
#[derive(Debug)]
pub struct VariableDef {
    pub ts_type: Option<TsTypeDef>,
    pub kind: VarDeclKind,
}

/// The view of a [`VariableDef`].
pub ghost struct VariableDefView {
    pub ts_type: Option<TypeExpr>,
    pub kind: VarDeclKind,
}

impl View for VariableDef {
    type V = VariableDefView;

    open spec fn view(&self) -> VariableDefView {
        VariableDefView { ts_type: opt_type_view(self.ts_type), kind: self.kind }
    }
}

impl VarDecl {
    /// Whether the declaration fits the range `outer` of a text of `len`
    /// characters: it has a declarator, and its ranges lie within the text.
    pub open spec fn fits(self, outer: Span, len: nat) -> bool {
        &&& outer.within(len)
        &&& self.decls@.len() > 0
        &&& self.decls@[0].name.spans_ok(len)
    }
}

/// The name that a pattern binds, or a placeholder where it is no plain
/// identifier.
pub open spec fn pat_name(p: Pat) -> Seq<char> {
    match p {
        Pat::Ident(binding) => binding.sym@,
        Pat::Other => unnamed(),
    }
}

/// The model of the annotation of a pattern, where it is a plain identifier
/// with an annotation.
pub open spec fn pat_type(text: Seq<char>, p: Pat) -> Option<TypeExpr> {
    match p {
        Pat::Ident(binding) => opt_type_ann_expr(text, binding.type_ann),
        Pat::Other => None,
    }
}

/// The documentation of the variable declaration `decl` that the export
/// `span` covers. Only the first declarator is documented.
pub open spec fn var_decl_doc(parser: &DocParser, span: Span, decl: VarDecl) -> DocNodeView {
    DocNodeView {
        name: pat_name(decl.decls@[0].name),
        snippet: signature_of(parser.text(), span, None),
        location: parser.source.location_of(span),
        js_doc: parser.js_doc_at(span),
        def: DocDefView::Variable(
            VariableDefView {
                ts_type: pat_type(parser.text(), decl.decls@[0].name),
                kind: decl.kind,
            },
        ),
    }
}

/// The documentation of an exported variable declaration.
pub fn get_doc_for_var_decl(doc_parser: &DocParser, parent_span: Span, var_decl: &VarDecl) -> (node:
    DocNode)
    requires
        var_decl.fits(parent_span, doc_parser.text().len()),
    ensures
        node@ == var_decl_doc(doc_parser, parent_span, *var_decl),
{
    let js_doc = doc_parser.js_doc_for_span(parent_span);
    let snippet = doc_parser.signature(parent_span, &None);
    let var_declarator = &var_decl.decls[0];
    let var_name = match &var_declarator.name {
        Pat::Ident(binding) => binding.sym.clone(),
        Pat::Other => String::from_str("<TODO>"),
    };
    let maybe_ts_type = match &var_declarator.name {
        Pat::Ident(binding) => opt_ts_type_ann_to_def(&doc_parser.source, &binding.type_ann),
        Pat::Other => None,
    };
    let variable_def = VariableDef { ts_type: maybe_ts_type, kind: var_decl.kind };
    DocNode {
        name: var_name,
        snippet,
        location: doc_parser.source.location(parent_span),
        js_doc,
        def: DocNodeDef::Variable(variable_def),
    }
}

} // verus!
