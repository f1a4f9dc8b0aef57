//! Deciding whether a syntax tree fits the text it is read with.
//!
//! The extraction asks that every range in the tree lies within the text.
//! The functions here decide that, so that a caller can test a tree before
//! handing it over.

use crate::doc::ast::{
    fn_params_ok, opt_ann_ok, pats_ok, BindingIdent, ClassDecl, ClassMember, ClassMethod, ClassProp,
    Constructor, Decl, ExportDecl, FnDecl, Function, ModuleItem, NamedExport, ParamOrTsParamProp,
    ParsedFile, Pat, PropName, TsCallSignatureDecl, TsFnParam, TsInterfaceDecl, TsMethodSignature,
    TsModuleDecl, TsNamespaceBody, TsNamespaceDecl, TsPropertySignature, TsType, TsTypeAliasDecl,
    TsTypeAnn, TsTypeElement, VarDecl,
};
use crate::doc::module::{file_docs, get_docs, items_fit};
use crate::doc::node::{node_views, DocNode};
use crate::doc::parser::body_inside;
use crate::doc::source::Span;
use crate::doc::well_formed::nodes_wf;
use vstd::prelude::*;

verus! {

/// Decides [`Span::within`].
pub fn span_within(span: Span, len: usize) -> (b: bool)
    ensures
        b == span.within(len as nat),
{
    span.lo <= span.hi && span.hi as usize <= len
}

/// Decides [`body_inside`].
pub fn body_is_inside(body: &Option<Span>, outer: Span) -> (b: bool)
    ensures
        b == body_inside(*body, outer),
{
    match body {
        Some(body) => body.is_inside(&outer),
        None => true,
    }
}

/// Decides whether the ranges in each type expression of `types` lie within
/// a text of `len` characters.
pub fn ts_types_fit(types: &Vec<TsType>, len: usize) -> (b: bool)
    ensures
        b == (forall|i: int| 0 <= i < types.len() ==> (#[trigger] types[i]).spans_ok(len as nat)),
    decreases types,
{
    let mut i: usize = 0;
    while i < types.len()
        invariant
            i <= types.len(),
            forall|k: int| 0 <= k < i ==> (#[trigger] types[k]).spans_ok(len as nat),
        decreases types.len() - i,
    {
        if !ts_type_fits(&types[i], len) {
            return false;
        }
        i = i + 1;
    }
    true
}

/// Decides whether the ranges in each parameter of `params` lie within a
/// text of `len` characters.
pub fn ts_fn_params_fit(params: &Vec<TsFnParam>, len: usize) -> (b: bool)
    ensures
        b == fn_params_ok(params@, len as nat),
    decreases params,
{
    let mut i: usize = 0;
    while i < params.len()
        invariant
            i <= params.len(),
            forall|k: int| 0 <= k < i ==> (#[trigger] params@[k]).spans_ok(len as nat),
        decreases params.len() - i,
    {
        let ok = match &params[i] {
            TsFnParam::Ident(binding) => binding_fits(binding, len),
            TsFnParam::Other => true,
        };
        if !ok {
            assert(!params@[i as int].spans_ok(len as nat));
            return false;
        }
        i = i + 1;
    }
    true
}

/// Decides [`BindingIdent::spans_ok`].
pub fn binding_fits(binding: &BindingIdent, len: usize) -> (b: bool)
    ensures
        b == binding.spans_ok(len as nat),
    decreases binding,
{
    match &binding.type_ann {
        Some(ann) => type_ann_fits(ann, len),
        None => true,
    }
}

/// Decides [`TsTypeAnn::spans_ok`].
pub fn type_ann_fits(ann: &TsTypeAnn, len: usize) -> (b: bool)
    ensures
        b == ann.spans_ok(len as nat),
    decreases ann,
{
    span_within(ann.span, len) && ts_type_fits(&ann.type_ann, len)
}

/// Decides [`TsType::spans_ok`].
pub fn ts_type_fits(t: &TsType, len: usize) -> (b: bool)
    ensures
        b == t.spans_ok(len as nat),
    decreases t,
{
    match t {
        TsType::Keyword(_) => true,
        TsType::This => true,
        TsType::FnOrConstructor { constructor: _, params, return_type } => {
            ts_type_fits(return_type, len) && ts_fn_params_fit(params, len)
        },
        TsType::TypeRef { name: _, type_params } => match type_params {
            Some(v) => ts_types_fit(v, len),
            None => true,
        },
        TsType::TypeQuery(_) => true,
        TsType::Array(inner) => ts_type_fits(inner, len),
        TsType::Tuple(v) => ts_types_fit(v, len),
        TsType::Optional(inner) => ts_type_fits(inner, len),
        TsType::Rest(inner) => ts_type_fits(inner, len),
        TsType::Union(v) => ts_types_fit(v, len),
        TsType::Intersection(v) => ts_types_fit(v, len),
        TsType::Conditional { check_type, extends_type, true_type, false_type } => {
            ts_type_fits(check_type, len) && ts_type_fits(extends_type, len) && ts_type_fits(
                true_type,
                len,
            ) && ts_type_fits(false_type, len)
        },
        TsType::Parenthesized(inner) => ts_type_fits(inner, len),
        TsType::TypeOperator { op: _, operand } => ts_type_fits(operand, len),
        TsType::IndexedAccess { obj_type, index_type } => {
            ts_type_fits(obj_type, len) && ts_type_fits(index_type, len)
        },
        TsType::Lit(_) => true,
        TsType::Other(span) => span_within(*span, len),
    }
}

/// Decides [`opt_ann_ok`].
pub fn opt_ann_fits(ann: &Option<TsTypeAnn>, len: usize) -> (b: bool)
    ensures
        b == opt_ann_ok(*ann, len as nat),
{
    match ann {
        Some(ann) => type_ann_fits(ann, len),
        None => true,
    }
}

/// Decides [`Pat::spans_ok`].
pub fn pat_fits(pat: &Pat, len: usize) -> (b: bool)
    ensures
        b == pat.spans_ok(len as nat),
{
    match pat {
        Pat::Ident(binding) => binding_fits(binding, len),
        Pat::Other => true,
    }
}

/// Decides [`pats_ok`].
pub fn pats_fit(pats: &Vec<Pat>, len: usize) -> (b: bool)
    ensures
        b == pats_ok(pats@, len as nat),
{
    let mut i: usize = 0;
    while i < pats.len()
        invariant
            i <= pats.len(),
            forall|k: int| 0 <= k < i ==> (#[trigger] pats@[k]).spans_ok(len as nat),
        decreases pats.len() - i,
    {
        if !pat_fits(&pats[i], len) {
            return false;
        }
        i = i + 1;
    }
    true
}

/// Decides [`Function::spans_ok`].
pub fn function_fits(function: &Function, len: usize) -> (b: bool)
    ensures
        b == function.spans_ok(len as nat),
{
    pats_fit(&function.params, len) && opt_ann_fits(&function.return_type, len)
}

/// Decides [`FnDecl::fits`].
pub fn fn_decl_fits(decl: &FnDecl, outer: Span, len: usize) -> (b: bool)
    ensures
        b == decl.fits(outer, len as nat),
{
    span_within(outer, len) && function_fits(&decl.function, len) && body_is_inside(
        &decl.function.body,
        outer,
    )
}

/// Decides [`VarDecl::fits`].
pub fn var_decl_fits(decl: &VarDecl, outer: Span, len: usize) -> (b: bool)
    ensures
        b == decl.fits(outer, len as nat),
{
    span_within(outer, len) && decl.decls.len() > 0 && pat_fits(&decl.decls[0].name, len)
}

/// Decides [`PropName::spans_ok`].
pub fn prop_name_fits(name: &PropName, len: usize) -> (b: bool)
    ensures
        b == name.spans_ok(len as nat),
{
    match name {
        PropName::Computed(span) => span_within(*span, len),
        _ => true,
    }
}

/// Decides [`Constructor::spans_ok`].
pub fn constructor_fits(ctor: &Constructor, len: usize) -> (b: bool)
    ensures
        b == ctor.spans_ok(len as nat),
{
    if !(span_within(ctor.span, len) && prop_name_fits(&ctor.key, len) && body_is_inside(
        &ctor.body,
        ctor.span,
    )) {
        return false;
    }
    let mut i: usize = 0;
    while i < ctor.params.len()
        invariant
            i <= ctor.params.len(),
            forall|k: int| 0 <= k < i ==> (#[trigger] ctor.params@[k]).spans_ok(len as nat),
        decreases ctor.params.len() - i,
    {
        let ok = match &ctor.params[i] {
            ParamOrTsParamProp::Param(pat) => pat_fits(pat, len),
            ParamOrTsParamProp::TsParamProp => true,
        };
        if !ok {
            assert(!ctor.params@[i as int].spans_ok(len as nat));
            return false;
        }
        i = i + 1;
    }
    true
}

/// Decides [`ClassMethod::spans_ok`].
pub fn class_method_fits(method: &ClassMethod, len: usize) -> (b: bool)
    ensures
        b == method.spans_ok(len as nat),
{
    span_within(method.span, len) && prop_name_fits(&method.key, len) && function_fits(
        &method.function,
        len,
    ) && body_is_inside(&method.function.body, method.span)
}

/// Decides [`ClassProp::spans_ok`].
pub fn class_prop_fits(prop: &ClassProp, len: usize) -> (b: bool)
    ensures
        b == prop.spans_ok(len as nat),
{
    span_within(prop.span, len) && prop_name_fits(&prop.key, len) && opt_ann_fits(
        &prop.type_ann,
        len,
    )
}

/// Decides [`ClassMember::spans_ok`].
pub fn class_member_fits(member: &ClassMember, len: usize) -> (b: bool)
    ensures
        b == member.spans_ok(len as nat),
{
    match member {
        ClassMember::Constructor(ctor) => constructor_fits(ctor, len),
        ClassMember::Method(method) => class_method_fits(method, len),
        ClassMember::ClassProp(prop) => class_prop_fits(prop, len),
        ClassMember::Other(span) => span_within(*span, len),
    }
}

/// Decides [`ClassDecl::fits`].
pub fn class_decl_fits(decl: &ClassDecl, outer: Span, len: usize) -> (b: bool)
    ensures
        b == decl.fits(outer, len as nat),
{
    if !span_within(outer, len) {
        return false;
    }
    let members = &decl.class.body;
    if !(outer.lo <= decl.class.body_start && decl.class.body_start <= outer.hi) {
        return false;
    }
    let mut i: usize = 0;
    while i < members.len()
        invariant
            i <= members.len(),
            members == &decl.class.body,
            forall|k: int| 0 <= k < i ==> (#[trigger] members@[k]).spans_ok(len as nat),
        decreases members.len() - i,
    {
        if !class_member_fits(&members[i], len) {
            assert(!members@[i as int].spans_ok(len as nat));
            return false;
        }
        i = i + 1;
    }
    true
}

/// Decides [`TsMethodSignature::spans_ok`].
pub fn method_signature_fits(sig: &TsMethodSignature, len: usize) -> (b: bool)
    ensures
        b == sig.spans_ok(len as nat),
{
    span_within(sig.span, len) && ts_fn_params_fit(&sig.params, len) && opt_ann_fits(
        &sig.type_ann,
        len,
    )
}

/// Decides [`TsPropertySignature::spans_ok`].
pub fn property_signature_fits(sig: &TsPropertySignature, len: usize) -> (b: bool)
    ensures
        b == sig.spans_ok(len as nat),
{
    span_within(sig.span, len) && prop_name_fits(&sig.key, len) && ts_fn_params_fit(
        &sig.params,
        len,
    ) && opt_ann_fits(&sig.type_ann, len)
}

/// Decides [`TsCallSignatureDecl::spans_ok`].
pub fn call_signature_fits(sig: &TsCallSignatureDecl, len: usize) -> (b: bool)
    ensures
        b == sig.spans_ok(len as nat),
{
    span_within(sig.span, len) && ts_fn_params_fit(&sig.params, len) && opt_ann_fits(
        &sig.type_ann,
        len,
    )
}

/// Decides [`TsInterfaceDecl::fits`].
pub fn interface_decl_fits(decl: &TsInterfaceDecl, outer: Span, len: usize) -> (b: bool)
    ensures
        b == decl.fits(outer, len as nat),
{
    if !span_within(outer, len) {
        return false;
    }
    let elements = &decl.body;
    let mut i: usize = 0;
    while i < elements.len()
        invariant
            i <= elements.len(),
            elements == &decl.body,
            forall|k: int| 0 <= k < i ==> (#[trigger] elements@[k]).spans_ok(len as nat),
        decreases elements.len() - i,
    {
        let ok = match &elements[i] {
            TsTypeElement::TsCallSignatureDecl(sig) => call_signature_fits(sig, len),
            TsTypeElement::TsPropertySignature(sig) => property_signature_fits(sig, len),
            TsTypeElement::TsMethodSignature(sig) => method_signature_fits(sig, len),
            TsTypeElement::Other => true,
        };
        if !ok {
            assert(!elements@[i as int].spans_ok(len as nat));
            return false;
        }
        i = i + 1;
    }
    true
}

/// Decides [`TsTypeAliasDecl::fits`].
pub fn type_alias_decl_fits(decl: &TsTypeAliasDecl, outer: Span, len: usize) -> (b: bool)
    ensures
        b == decl.fits(outer, len as nat),
{
    span_within(outer, len) && ts_type_fits(&decl.type_ann, len)
}

/// Decides [`TsNamespaceDecl::fits`].
pub fn namespace_decl_fits(decl: &TsNamespaceDecl, len: usize) -> (b: bool)
    ensures
        b == decl.fits(len as nat),
    decreases decl,
{
    span_within(decl.span, len) && namespace_body_fits(&decl.body, len)
}

/// Decides [`TsNamespaceBody::fits`].
pub fn namespace_body_fits(body: &TsNamespaceBody, len: usize) -> (b: bool)
    ensures
        b == body.fits(len as nat),
    decreases body,
{
    match body {
        TsNamespaceBody::TsModuleBlock(items) => module_items_fit(items, len),
        TsNamespaceBody::TsNamespaceDecl(decl) => namespace_decl_fits(decl, len),
    }
}

/// Decides [`TsModuleDecl::fits`].
pub fn module_decl_fits(decl: &TsModuleDecl, outer: Span, len: usize) -> (b: bool)
    ensures
        b == decl.fits(outer, len as nat),
    decreases decl,
{
    span_within(outer, len) && match &decl.body {
        Some(body) => namespace_body_fits(body, len),
        None => true,
    }
}

/// Decides [`ExportDecl::fits`].
pub fn export_decl_fits(export: &ExportDecl, len: usize) -> (b: bool)
    ensures
        b == export.fits(len as nat),
    decreases export,
{
    match &export.decl {
        Decl::Class(decl) => class_decl_fits(decl, export.span, len),
        Decl::Fn(decl) => fn_decl_fits(decl, export.span, len),
        Decl::Var(decl) => var_decl_fits(decl, export.span, len),
        Decl::TsInterface(decl) => interface_decl_fits(decl, export.span, len),
        Decl::TsTypeAlias(decl) => type_alias_decl_fits(decl, export.span, len),
        Decl::TsEnum(_) => span_within(export.span, len),
        Decl::TsModule(decl) => module_decl_fits(decl, export.span, len),
    }
}

/// Decides [`NamedExport::wf`].
pub fn named_export_is_wf(export: &NamedExport) -> (b: bool)
    ensures
        b == export.wf(),
    decreases export,
{
    match &export.file {
        Some(file) => file_is_wf(file),
        None => true,
    }
}

/// Decides [`ModuleItem::fits`].
pub fn module_item_fits(item: &ModuleItem, len: usize) -> (b: bool)
    ensures
        b == item.fits(len as nat),
    decreases item,
{
    match item {
        ModuleItem::ExportDecl(export) => export_decl_fits(export, len),
        ModuleItem::ExportNamed(export) => named_export_is_wf(export),
        ModuleItem::Other => true,
    }
}

/// Decides [`items_fit`].
pub fn module_items_fit(items: &Vec<ModuleItem>, len: usize) -> (b: bool)
    ensures
        b == items_fit(items@, len as nat),
    decreases items,
{
    let mut i: usize = 0;
    while i < items.len()
        invariant
            i <= items.len(),
            forall|k: int| 0 <= k < i ==> (#[trigger] items@[k]).fits(len as nat),
        decreases items.len() - i,
    {
        if !module_item_fits(&items[i], len) {
            return false;
        }
        i = i + 1;
    }
    true
}

/// Decides [`ParsedFile::wf`].
pub fn file_is_wf(file: &ParsedFile) -> (b: bool)
    ensures
        b == file.wf(),
    decreases file,
{
    let len = file.parser.source.len();
    module_items_fit(&file.body, len)
}

/// The documentation of a file, where the file is well formed: where every
/// range in its syntax tree lies within its text. For any other file the
/// result is `None`.
pub fn try_get_docs(file: &ParsedFile) -> (nodes: Option<Vec<DocNode>>)
    ensures
        match nodes {
            Some(nodes) => {
                &&& file.wf()
                &&& node_views(nodes@) == file_docs(*file)
                &&& nodes_wf(node_views(nodes@))
            },
            None => !file.wf(),
        },
{
    if file_is_wf(file) {
        Some(get_docs(file))
    } else {
        None
    }
}

} // verus!
