//! Functions.

use crate::doc::ast::{opt_ann_ok, pats_ok, FnDecl, Function, Pat};
use crate::doc::node::{DocDefView, DocNode, DocNodeDef, DocNodeView};
use crate::doc::parser::{body_inside, signature_of, DocParser};
use crate::doc::source::Span;
use crate::doc::ts_type::{
    opt_ts_type_ann_to_def, opt_type_ann_expr, opt_type_view, param_views, unnamed, Param, ParamDef,
    TsTypeDef, TypeExpr,
};
use vstd::prelude::*;

verus! {

/// What is documented of a function.
#[derive(Debug)]
pub struct FunctionDef {
    pub params: Vec<ParamDef>,
    pub return_type: Option<TsTypeDef>,
    pub is_async: bool,
    pub is_generator: bool,
}

/// The view of a [`FunctionDef`].
pub ghost struct FunctionDefView {
    pub params: Seq<Param>,
    pub return_type: Option<TypeExpr>,
    pub is_async: bool,
    pub is_generator: bool,
}

impl View for FunctionDef {
    type V = FunctionDefView;

    open spec fn view(&self) -> FunctionDefView {
        FunctionDefView {
            params: param_views(self.params@),
            return_type: opt_type_view(self.return_type),
            is_async: self.is_async,
            is_generator: self.is_generator,
        }
    }
}

impl Function {
    /// Whether the ranges in the parameters and the return type lie within a
    /// text of `len` characters.
    pub open spec fn spans_ok(self, len: nat) -> bool {
        pats_ok(self.params@, len) && opt_ann_ok(self.return_type, len)
    }
}

impl FnDecl {
    /// Whether the declaration fits the range `outer` of a text of `len`
    /// characters: its ranges lie within the text, its body within `outer`.
    pub open spec fn fits(self, outer: Span, len: nat) -> bool {
        &&& outer.within(len)
        &&& self.function.spans_ok(len)
        &&& body_inside(self.function.body, outer)
    }
}

/// The model of a parameter that is written as a pattern: the name of a plain
/// identifier with the model of its annotation; for any other pattern, a
/// placeholder name and no type.
pub open spec fn pat_param_of(text: Seq<char>, p: Pat) -> Param {
    match p {
        Pat::Ident(binding) => Param {
            name: binding.sym@,
            ts_type: opt_type_ann_expr(text, binding.type_ann),
        },
        Pat::Other => Param { name: unnamed(), ts_type: None },
    }
}

/// The models of the parameters of `params`, in order.
pub open spec fn pat_params_of(text: Seq<char>, params: Seq<Pat>) -> Seq<Param> {
    params.map_values(|p: Pat| pat_param_of(text, p))
}

/// What is documented of the function `f`: its parameters in order, its
/// return type where one is written, and its flags.
pub open spec fn function_def_of(text: Seq<char>, f: Function) -> FunctionDefView {
    FunctionDefView {
        params: pat_params_of(text, f.params@),
        return_type: opt_type_ann_expr(text, f.return_type),
        is_async: f.is_async,
        is_generator: f.is_generator,
    }
}

/// The documentation of the function declaration `decl` that the export
/// `span` covers.
pub open spec fn fn_decl_doc(parser: &DocParser, span: Span, decl: FnDecl) -> DocNodeView {
    DocNodeView {
        name: decl.ident@,
        snippet: signature_of(parser.text(), span, decl.function.body),
        location: parser.source.location_of(span),
        js_doc: parser.js_doc_at(span),
        def: DocDefView::Function(function_def_of(parser.text(), decl.function)),
    }
}

/// The model of a parameter that is written as a pattern.
pub fn pat_to_param_def(doc_parser: &DocParser, pat: &Pat) -> (def: ParamDef)
    requires
        pat.spans_ok(doc_parser.text().len()),
    ensures
        def@ == pat_param_of(doc_parser.text(), *pat),
{
    match pat {
        Pat::Ident(binding) => ParamDef {
            name: binding.sym.clone(),
            ts_type: opt_ts_type_ann_to_def(&doc_parser.source, &binding.type_ann),
        },
        Pat::Other => ParamDef { name: String::from_str("<TODO>"), ts_type: None },
    }
}

/// What is documented of a function.
pub fn function_to_function_def(doc_parser: &DocParser, function: &Function) -> (def: FunctionDef)
    requires
        function.spans_ok(doc_parser.text().len()),
    ensures
        def@ == function_def_of(doc_parser.text(), *function),
{
    let ghost text = doc_parser.text();
    let mut params: Vec<ParamDef> = Vec::new();
    let mut i: usize = 0;
    while i < function.params.len()
        invariant
            i <= function.params.len(),
            text == doc_parser.text(),
            pats_ok(function.params@, text.len()),
            param_views(params@) == pat_params_of(text, function.params@.take(i as int)),
        decreases function.params.len() - i,
    {
        assert(function.params@[i as int].spans_ok(text.len()));
        let param_def = pat_to_param_def(doc_parser, &function.params[i]);
        proof {
            assert(param_views(params@.push(param_def)) =~= param_views(params@).push(param_def@));
            assert(pat_params_of(text, function.params@.take(i + 1)) =~= pat_params_of(
                text,
                function.params@.take(i as int),
            ).push(param_def@));
        }
        params.push(param_def);
        i = i + 1;
    }
    proof {
        assert(function.params@.take(function.params.len() as int) =~= function.params@);
    }
    let maybe_return_type = opt_ts_type_ann_to_def(&doc_parser.source, &function.return_type);
    FunctionDef {
        params,
        return_type: maybe_return_type,
        is_async: function.is_async,
        is_generator: function.is_generator,
    }
}

/// The documentation of an exported function declaration.
pub fn get_doc_for_fn_decl(doc_parser: &DocParser, parent_span: Span, fn_decl: &FnDecl) -> (node:
    DocNode)
    requires
        fn_decl.fits(parent_span, doc_parser.text().len()),
    ensures
        node@ == fn_decl_doc(doc_parser, parent_span, *fn_decl),
{
    let js_doc = doc_parser.js_doc_for_span(parent_span);
    let snippet = doc_parser.signature(parent_span, &fn_decl.function.body);
    let fn_def = function_to_function_def(doc_parser, &fn_decl.function);
    DocNode {
        name: fn_decl.ident.clone(),
        snippet,
        location: doc_parser.source.location(parent_span),
        js_doc,
        def: DocNodeDef::Function(fn_def),
    }
}

} // verus!
