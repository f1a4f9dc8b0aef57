//! Interfaces.

use crate::doc::ast::{
    fn_params_ok, opt_ann_ok, TsCallSignatureDecl, TsInterfaceDecl, TsMethodSignature,
    TsPropertySignature, TsTypeElement,
};
use crate::doc::class::{prop_name_text, prop_name_to_string};
use crate::doc::node::{DocDefView, DocNode, DocNodeDef, DocNodeView};
use crate::doc::parser::DocParser;
use crate::doc::source::{margin_of, Location, LocationView, Span};
use crate::doc::ts_type::{
    opt_ts_type_ann_to_def, opt_type_ann_expr, opt_type_view, param_views, signature_params_of,
    signature_params_to_defs, Param, ParamDef, TsTypeDef, TypeExpr,
};
use crate::text::{join, join_with, remove_indent, split, split_on, strip_indent, views_of};
use vstd::prelude::*;

verus! {

/// What is documented of a method signature.
#[derive(Debug)]
pub struct InterfaceMethodDef {
    pub snippet: String,
    pub location: Location,
    pub js_doc: Option<String>,
    pub params: Vec<ParamDef>,
    pub return_type: Option<TsTypeDef>,
}

/// What is documented of a property signature.
#[derive(Debug)]
pub struct InterfacePropertyDef {
    pub name: String,
    pub snippet: String,
    pub location: Location,
    pub js_doc: Option<String>,
    pub params: Vec<ParamDef>,
    pub computed: bool,
    pub optional: bool,
    pub ts_type: Option<TsTypeDef>,
}

/// What is documented of a call signature.
#[derive(Debug)]
pub struct InterfaceCallSignatureDef {
    pub snippet: String,
    pub location: Location,
    pub js_doc: Option<String>,
    pub params: Vec<ParamDef>,
    pub ts_type: Option<TsTypeDef>,
}

/// What is documented of an interface: its members by kind, each kind in the
/// order declared.
#[derive(Debug)]
pub struct InterfaceDef {
    pub methods: Vec<InterfaceMethodDef>,
    pub properties: Vec<InterfacePropertyDef>,
    pub call_signatures: Vec<InterfaceCallSignatureDef>,
}

/// The view of an [`InterfaceMethodDef`].
pub ghost struct InterfaceMethodDefView {
    pub snippet: Seq<char>,
    pub location: LocationView,
    pub js_doc: Option<Seq<char>>,
    pub params: Seq<Param>,
    pub return_type: Option<TypeExpr>,
}

/// The view of an [`InterfacePropertyDef`].
pub ghost struct InterfacePropertyDefView {
    pub name: Seq<char>,
    pub snippet: Seq<char>,
    pub location: LocationView,
    pub js_doc: Option<Seq<char>>,
    pub params: Seq<Param>,
    pub computed: bool,
    pub optional: bool,
    pub ts_type: Option<TypeExpr>,
}

/// The view of an [`InterfaceCallSignatureDef`].
pub ghost struct InterfaceCallSignatureDefView {
    pub snippet: Seq<char>,
    pub location: LocationView,
    pub js_doc: Option<Seq<char>>,
    pub params: Seq<Param>,
    pub ts_type: Option<TypeExpr>,
}

/// The view of an [`InterfaceDef`].
pub ghost struct InterfaceDefView {
    pub methods: Seq<InterfaceMethodDefView>,
    pub properties: Seq<InterfacePropertyDefView>,
    pub call_signatures: Seq<InterfaceCallSignatureDefView>,
}

impl View for InterfaceMethodDef {
    type V = InterfaceMethodDefView;

    open spec fn view(&self) -> InterfaceMethodDefView {
        InterfaceMethodDefView {
            snippet: self.snippet@,
            location: self.location@,
            js_doc: self.js_doc.deep_view(),
            params: param_views(self.params@),
            return_type: opt_type_view(self.return_type),
        }
    }
}

impl View for InterfacePropertyDef {
    type V = InterfacePropertyDefView;

    open spec fn view(&self) -> InterfacePropertyDefView {
        InterfacePropertyDefView {
            name: self.name@,
            snippet: self.snippet@,
            location: self.location@,
            js_doc: self.js_doc.deep_view(),
            params: param_views(self.params@),
            computed: self.computed,
            optional: self.optional,
            ts_type: opt_type_view(self.ts_type),
        }
    }
}

impl View for InterfaceCallSignatureDef {
    type V = InterfaceCallSignatureDefView;

    open spec fn view(&self) -> InterfaceCallSignatureDefView {
        InterfaceCallSignatureDefView {
            snippet: self.snippet@,
            location: self.location@,
            js_doc: self.js_doc.deep_view(),
            params: param_views(self.params@),
            ts_type: opt_type_view(self.ts_type),
        }
    }
}

impl View for InterfaceDef {
    type V = InterfaceDefView;

    open spec fn view(&self) -> InterfaceDefView {
        InterfaceDefView {
            methods: self.methods@.map_values(|m: InterfaceMethodDef| m@),
            properties: self.properties@.map_values(|p: InterfacePropertyDef| p@),
            call_signatures: self.call_signatures@.map_values(|c: InterfaceCallSignatureDef| c@),
        }
    }
}

impl TsMethodSignature {
    /// Whether the ranges of the signature lie within a text of `len`
    /// characters.
    pub open spec fn spans_ok(self, len: nat) -> bool {
        &&& self.span.within(len)
        &&& fn_params_ok(self.params@, len)
        &&& opt_ann_ok(self.type_ann, len)
    }
}

impl TsPropertySignature {
    /// Whether the ranges of the signature lie within a text of `len`
    /// characters.
    pub open spec fn spans_ok(self, len: nat) -> bool {
        &&& self.span.within(len)
        &&& self.key.spans_ok(len)
        &&& fn_params_ok(self.params@, len)
        &&& opt_ann_ok(self.type_ann, len)
    }
}

impl TsCallSignatureDecl {
    /// Whether the ranges of the signature lie within a text of `len`
    /// characters.
    pub open spec fn spans_ok(self, len: nat) -> bool {
        &&& self.span.within(len)
        &&& fn_params_ok(self.params@, len)
        &&& opt_ann_ok(self.type_ann, len)
    }
}

impl TsTypeElement {
    /// Whether the ranges of the member lie within a text of `len`
    /// characters.
    pub open spec fn spans_ok(self, len: nat) -> bool {
        match self {
            TsTypeElement::TsCallSignatureDecl(sig) => sig.spans_ok(len),
            TsTypeElement::TsPropertySignature(sig) => sig.spans_ok(len),
            TsTypeElement::TsMethodSignature(sig) => sig.spans_ok(len),
            TsTypeElement::Other => true,
        }
    }
}

/// Whether the ranges of each member lie within a text of `len` characters.
pub open spec fn elements_ok(elements: Seq<TsTypeElement>, len: nat) -> bool {
    forall|i: int| 0 <= i < elements.len() ==> (#[trigger] elements[i]).spans_ok(len)
}

impl TsInterfaceDecl {
    /// Whether the declaration fits the range `outer` of a text of `len`
    /// characters.
    pub open spec fn fits(self, outer: Span, len: nat) -> bool {
        outer.within(len) && elements_ok(self.body@, len)
    }
}

/// What is documented of the method signature `sig`.
pub open spec fn method_signature_doc(
    parser: &DocParser,
    sig: TsMethodSignature,
) -> InterfaceMethodDefView {
    InterfaceMethodDefView {
        snippet: parser.text().subrange(sig.span.lo as int, sig.span.hi as int),
        location: parser.source.location_of(sig.span),
        js_doc: parser.js_doc_at(sig.span),
        params: signature_params_of(parser.text(), sig.params@),
        return_type: opt_type_ann_expr(parser.text(), sig.type_ann),
    }
}

/// What is documented of the property signature `sig`.
pub open spec fn property_signature_doc(
    parser: &DocParser,
    sig: TsPropertySignature,
) -> InterfacePropertyDefView {
    InterfacePropertyDefView {
        name: prop_name_text(parser.text(), sig.key),
        snippet: parser.text().subrange(sig.span.lo as int, sig.span.hi as int),
        location: parser.source.location_of(sig.span),
        js_doc: parser.js_doc_at(sig.span),
        params: signature_params_of(parser.text(), sig.params@),
        computed: sig.computed,
        optional: sig.optional,
        ts_type: opt_type_ann_expr(parser.text(), sig.type_ann),
    }
}

/// What is documented of the call signature `sig`.
pub open spec fn call_signature_doc(
    parser: &DocParser,
    sig: TsCallSignatureDecl,
) -> InterfaceCallSignatureDefView {
    InterfaceCallSignatureDefView {
        snippet: parser.text().subrange(sig.span.lo as int, sig.span.hi as int),
        location: parser.source.location_of(sig.span),
        js_doc: parser.js_doc_at(sig.span),
        params: signature_params_of(parser.text(), sig.params@),
        ts_type: opt_type_ann_expr(parser.text(), sig.type_ann),
    }
}

/// The documentation of the method signatures among `elements`, in order.
pub open spec fn method_signatures_of(parser: &DocParser, elements: Seq<TsTypeElement>) -> Seq<
    InterfaceMethodDefView,
>
    decreases elements.len(),
{
    if elements.len() == 0 {
        Seq::empty()
    } else {
        let before = method_signatures_of(parser, elements.drop_last());
        match elements.last() {
            TsTypeElement::TsMethodSignature(sig) => before.push(method_signature_doc(parser, sig)),
            _ => before,
        }
    }
}

/// The documentation of the property signatures among `elements`, in order.
pub open spec fn property_signatures_of(parser: &DocParser, elements: Seq<TsTypeElement>) -> Seq<
    InterfacePropertyDefView,
>
    decreases elements.len(),
{
    if elements.len() == 0 {
        Seq::empty()
    } else {
        let before = property_signatures_of(parser, elements.drop_last());
        match elements.last() {
            TsTypeElement::TsPropertySignature(sig) => before.push(
                property_signature_doc(parser, sig),
            ),
            _ => before,
        }
    }
}

/// The documentation of the call signatures among `elements`, in order.
pub open spec fn call_signatures_of(parser: &DocParser, elements: Seq<TsTypeElement>) -> Seq<
    InterfaceCallSignatureDefView,
>
    decreases elements.len(),
{
    if elements.len() == 0 {
        Seq::empty()
    } else {
        let before = call_signatures_of(parser, elements.drop_last());
        match elements.last() {
            TsTypeElement::TsCallSignatureDecl(sig) => before.push(call_signature_doc(parser, sig)),
            _ => before,
        }
    }
}

/// The text of `raw` with each line freed of one run of `margin` spaces,
/// where it begins with one.
pub open spec fn dedented(raw: Seq<char>, margin: nat) -> Seq<char> {
    join_with(
        split_on(raw, '\n').map_values(|line: Seq<char>| strip_indent(line, margin)),
        "\n"@,
    )
}

/// The snippet of an interface declaration: the text of `outer`, each line
/// without the margin of the line on which the declaration begins.
pub open spec fn interface_snippet_of(text: Seq<char>, outer: Span) -> Seq<char> {
    dedented(text.subrange(outer.lo as int, outer.hi as int), margin_of(text, outer.lo as int))
}

/// The documentation of the interface declaration `decl` that the export
/// `span` covers.
pub open spec fn interface_decl_doc(
    parser: &DocParser,
    span: Span,
    decl: TsInterfaceDecl,
) -> DocNodeView {
    DocNodeView {
        name: decl.id@,
        snippet: interface_snippet_of(parser.text(), span),
        location: parser.source.location_of(span),
        js_doc: parser.js_doc_at(span),
        def: DocDefView::Interface(
            InterfaceDefView {
                methods: method_signatures_of(parser, decl.body@),
                properties: property_signatures_of(parser, decl.body@),
                call_signatures: call_signatures_of(parser, decl.body@),
            },
        ),
    }
}

/// `raw` with each line freed of one run of `margin` spaces.
pub fn dedent(raw: &str, margin: u64) -> (r: String)
    ensures
        r@ == dedented(raw@, margin as nat),
{
    let lines = split(raw, '\n');
    let ghost strip = |line: Seq<char>| strip_indent(line, margin as nat);
    let mut out: Vec<String> = Vec::new();
    let mut i: usize = 0;
    while i < lines.len()
        invariant
            i <= lines.len(),
            strip == |line: Seq<char>| strip_indent(line, margin as nat),
            views_of(out@) == views_of(lines@.take(i as int)).map_values(strip),
        decreases lines.len() - i,
    {
        let line = remove_indent(lines[i].as_str(), margin);
        proof {
            assert(views_of(out@.push(line)) =~= views_of(out@).push(line@));
            assert(views_of(lines@.take(i + 1)).map_values(strip) =~= views_of(
                lines@.take(i as int),
            ).map_values(strip).push(line@));
        }
        out.push(line);
        i = i + 1;
    }
    proof {
        assert(lines@.take(lines.len() as int) =~= lines@);
    }
    join(&out, "\n")
}

/// What is documented of a method signature.
pub fn method_signature_to_def(doc_parser: &DocParser, ts_method_sig: &TsMethodSignature) -> (def:
    InterfaceMethodDef)
    requires
        ts_method_sig.spans_ok(doc_parser.text().len()),
    ensures
        def@ == method_signature_doc(doc_parser, *ts_method_sig),
{
    let method_js_doc = doc_parser.js_doc_for_span(ts_method_sig.span);
    let method_snippet = doc_parser.source.snippet(ts_method_sig.span);
    let params = signature_params_to_defs(&doc_parser.source, &ts_method_sig.params);
    let maybe_return_type = opt_ts_type_ann_to_def(&doc_parser.source, &ts_method_sig.type_ann);
    InterfaceMethodDef {
        js_doc: method_js_doc,
        snippet: method_snippet,
        location: doc_parser.source.location(ts_method_sig.span),
        params,
        return_type: maybe_return_type,
    }
}

/// What is documented of a property signature.
pub fn property_signature_to_def(
    doc_parser: &DocParser,
    ts_prop_sig: &TsPropertySignature,
) -> (def: InterfacePropertyDef)
    requires
        ts_prop_sig.spans_ok(doc_parser.text().len()),
    ensures
        def@ == property_signature_doc(doc_parser, *ts_prop_sig),
{
    let prop_js_doc = doc_parser.js_doc_for_span(ts_prop_sig.span);
    let prop_snippet = doc_parser.source.snippet(ts_prop_sig.span);
    let name = prop_name_to_string(&doc_parser.source, &ts_prop_sig.key);
    let params = signature_params_to_defs(&doc_parser.source, &ts_prop_sig.params);
    let ts_type = opt_ts_type_ann_to_def(&doc_parser.source, &ts_prop_sig.type_ann);
    InterfacePropertyDef {
        name,
        js_doc: prop_js_doc,
        snippet: prop_snippet,
        location: doc_parser.source.location(ts_prop_sig.span),
        params,
        ts_type,
        computed: ts_prop_sig.computed,
        optional: ts_prop_sig.optional,
    }
}

/// What is documented of a call signature.
pub fn call_signature_to_def(doc_parser: &DocParser, ts_call_sig: &TsCallSignatureDecl) -> (def:
    InterfaceCallSignatureDef)
    requires
        ts_call_sig.spans_ok(doc_parser.text().len()),
    ensures
        def@ == call_signature_doc(doc_parser, *ts_call_sig),
{
    let call_sig_js_doc = doc_parser.js_doc_for_span(ts_call_sig.span);
    let call_sig_snippet = doc_parser.source.snippet(ts_call_sig.span);
    let params = signature_params_to_defs(&doc_parser.source, &ts_call_sig.params);
    let ts_type = opt_ts_type_ann_to_def(&doc_parser.source, &ts_call_sig.type_ann);
    InterfaceCallSignatureDef {
        js_doc: call_sig_js_doc,
        snippet: call_sig_snippet,
        location: doc_parser.source.location(ts_call_sig.span),
        params,
        ts_type,
    }
}

/// The documentation of an exported interface declaration.
pub fn get_doc_for_ts_interface_decl(
    doc_parser: &DocParser,
    parent_span: Span,
    interface_decl: &TsInterfaceDecl,
) -> (node: DocNode)
    requires
        interface_decl.fits(parent_span, doc_parser.text().len()),
    ensures
        node@ == interface_decl_doc(doc_parser, parent_span, *interface_decl),
{
    let js_doc = doc_parser.js_doc_for_span(parent_span);
    let raw = doc_parser.source.snippet(parent_span);
    let snippet = match doc_parser.source.margin(parent_span) {
        Some(margin) => dedent(raw.as_str(), margin),
        None => raw,
    };
    let elements = &interface_decl.body;
    let ghost method_view = |m: InterfaceMethodDef| m@;
    let ghost prop_view = |p: InterfacePropertyDef| p@;
    let ghost call_view = |c: InterfaceCallSignatureDef| c@;
    let mut methods: Vec<InterfaceMethodDef> = Vec::new();
    let mut properties: Vec<InterfacePropertyDef> = Vec::new();
    let mut call_signatures: Vec<InterfaceCallSignatureDef> = Vec::new();
    let mut i: usize = 0;
    proof {
        assert(elements@.take(0) =~= Seq::<TsTypeElement>::empty());
    }
    while i < elements.len()
        invariant
            i <= elements.len(),
            elements_ok(elements@, doc_parser.text().len()),
            method_view == |m: InterfaceMethodDef| m@,
            prop_view == |p: InterfacePropertyDef| p@,
            call_view == |c: InterfaceCallSignatureDef| c@,
            methods@.map_values(method_view) == method_signatures_of(
                doc_parser,
                elements@.take(i as int),
            ),
            properties@.map_values(prop_view) == property_signatures_of(
                doc_parser,
                elements@.take(i as int),
            ),
            call_signatures@.map_values(call_view) == call_signatures_of(
                doc_parser,
                elements@.take(i as int),
            ),
        decreases elements.len() - i,
    {
        proof {
            assert(elements@.take(i + 1).drop_last() =~= elements@.take(i as int));
            assert(elements@.take(i + 1).last() == elements@[i as int]);
            assert(elements@[i as int].spans_ok(doc_parser.text().len()));
        }
        match &elements[i] {
            TsTypeElement::TsMethodSignature(ts_method_sig) => {
                let method_def = method_signature_to_def(doc_parser, ts_method_sig);
                proof {
                    assert(methods@.push(method_def).map_values(method_view)
                        =~= methods@.map_values(method_view).push(method_def@));
                }
                methods.push(method_def);
            },
            TsTypeElement::TsPropertySignature(ts_prop_sig) => {
                let prop_def = property_signature_to_def(doc_parser, ts_prop_sig);
                proof {
                    assert(properties@.push(prop_def).map_values(prop_view)
                        =~= properties@.map_values(prop_view).push(prop_def@));
                }
                properties.push(prop_def);
            },
            TsTypeElement::TsCallSignatureDecl(ts_call_sig) => {
                let call_sig_def = call_signature_to_def(doc_parser, ts_call_sig);
                proof {
                    assert(call_signatures@.push(call_sig_def).map_values(call_view)
                        =~= call_signatures@.map_values(call_view).push(call_sig_def@));
                }
                call_signatures.push(call_sig_def);
            },
            TsTypeElement::Other => {},
        }
        i = i + 1;
    }
    proof {
        assert(elements@.take(elements.len() as int) =~= elements@);
    }
    let interface_def = InterfaceDef { methods, properties, call_signatures };
    DocNode {
        name: interface_decl.id.clone(),
        snippet,
        location: doc_parser.source.location(parent_span),
        js_doc,
        def: DocNodeDef::Interface(interface_def),
    }
}

} // verus!
