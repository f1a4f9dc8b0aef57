//! Classes.

use crate::doc::ast::{
    opt_ann_ok, Accessibility, Class, ClassDecl, ClassMember, ClassMethod, ClassProp, Constructor,
    MethodKind, ParamOrTsParamProp, PropName,
};
use crate::doc::function::{
    function_def_of, function_to_function_def, pat_param_of, pat_to_param_def, FunctionDef,
    FunctionDefView,
};
use crate::doc::node::{DocDefView, DocNode, DocNodeDef, DocNodeView};
use crate::doc::parser::{body_inside, signature_of, DocParser};
use crate::doc::source::{Location, LocationView, SourceFile, Span};
use crate::doc::ts_type::{
    opt_ts_type_ann_to_def, opt_type_ann_expr, opt_type_view, param_views, unnamed, Param, ParamDef,
    TsTypeDef, TypeExpr,
};
use crate::text::{
    is_white_space, lemma_trim_end_is_prefix, to_chars, trim_end, trim_end_matches, trim_end_of,
    CharClass,
};
use vstd::prelude::*;

verus! {

/// What is documented of a constructor.
#[derive(Debug)]
pub struct ClassConstructorDef {
    pub js_doc: Option<String>,
    pub snippet: String,
    pub accessibility: Option<Accessibility>,
    pub name: String,
    pub params: Vec<ParamDef>,
    pub location: Location,
}

/// What is documented of a property of a class.
#[derive(Debug)]
pub struct ClassPropertyDef {
    pub js_doc: Option<String>,
    pub snippet: String,
    pub ts_type: Option<TsTypeDef>,
    pub readonly: bool,
    pub accessibility: Option<Accessibility>,
    pub is_abstract: bool,
    pub is_static: bool,
    pub name: String,
    pub location: Location,
}

/// What is documented of a method of a class.
#[derive(Debug)]
pub struct ClassMethodDef {
    pub js_doc: Option<String>,
    pub snippet: String,
    pub accessibility: Option<Accessibility>,
    pub is_abstract: bool,
    pub is_static: bool,
    pub name: String,
    pub kind: MethodKind,
    pub function_def: FunctionDef,
    pub location: Location,
}

/// What is documented of a class: its members that are not private, by
/// kind, each kind in the order declared.
#[derive(Debug)]
pub struct ClassDef {
    pub is_abstract: bool,
    pub constructors: Vec<ClassConstructorDef>,
    pub properties: Vec<ClassPropertyDef>,
    pub methods: Vec<ClassMethodDef>,
}

/// The view of a [`ClassConstructorDef`].
pub ghost struct ClassConstructorDefView {
    pub js_doc: Option<Seq<char>>,
    pub snippet: Seq<char>,
    pub accessibility: Option<Accessibility>,
    pub name: Seq<char>,
    pub params: Seq<Param>,
    pub location: LocationView,
}

/// The view of a [`ClassPropertyDef`].
pub ghost struct ClassPropertyDefView {
    pub js_doc: Option<Seq<char>>,
    pub snippet: Seq<char>,
    pub ts_type: Option<TypeExpr>,
    pub readonly: bool,
    pub accessibility: Option<Accessibility>,
    pub is_abstract: bool,
    pub is_static: bool,
    pub name: Seq<char>,
    pub location: LocationView,
}

/// The view of a [`ClassMethodDef`].
pub ghost struct ClassMethodDefView {
    pub js_doc: Option<Seq<char>>,
    pub snippet: Seq<char>,
    pub accessibility: Option<Accessibility>,
    pub is_abstract: bool,
    pub is_static: bool,
    pub name: Seq<char>,
    pub kind: MethodKind,
    pub function_def: FunctionDefView,
    pub location: LocationView,
}

/// The view of a [`ClassDef`].
pub ghost struct ClassDefView {
    pub is_abstract: bool,
    pub constructors: Seq<ClassConstructorDefView>,
    pub properties: Seq<ClassPropertyDefView>,
    pub methods: Seq<ClassMethodDefView>,
}

impl View for ClassConstructorDef {
    type V = ClassConstructorDefView;

    open spec fn view(&self) -> ClassConstructorDefView {
        ClassConstructorDefView {
            js_doc: self.js_doc.deep_view(),
            snippet: self.snippet@,
            accessibility: self.accessibility,
            name: self.name@,
            params: param_views(self.params@),
            location: self.location@,
        }
    }
}

impl View for ClassPropertyDef {
    type V = ClassPropertyDefView;

    open spec fn view(&self) -> ClassPropertyDefView {
        ClassPropertyDefView {
            js_doc: self.js_doc.deep_view(),
            snippet: self.snippet@,
            ts_type: opt_type_view(self.ts_type),
            readonly: self.readonly,
            accessibility: self.accessibility,
            is_abstract: self.is_abstract,
            is_static: self.is_static,
            name: self.name@,
            location: self.location@,
        }
    }
}

impl View for ClassMethodDef {
    type V = ClassMethodDefView;

    open spec fn view(&self) -> ClassMethodDefView {
        ClassMethodDefView {
            js_doc: self.js_doc.deep_view(),
            snippet: self.snippet@,
            accessibility: self.accessibility,
            is_abstract: self.is_abstract,
            is_static: self.is_static,
            name: self.name@,
            kind: self.kind,
            function_def: self.function_def@,
            location: self.location@,
        }
    }
}

impl View for ClassDef {
    type V = ClassDefView;

    open spec fn view(&self) -> ClassDefView {
        ClassDefView {
            is_abstract: self.is_abstract,
            constructors: self.constructors@.map_values(|c: ClassConstructorDef| c@),
            properties: self.properties@.map_values(|p: ClassPropertyDef| p@),
            methods: self.methods@.map_values(|m: ClassMethodDef| m@),
        }
    }
}

/// Whether a member with this modifier is private.
pub open spec fn is_private(accessibility: Option<Accessibility>) -> bool {
    accessibility == Some(Accessibility::Private)
}

/// Decides [`is_private`].
pub fn private(accessibility: &Option<Accessibility>) -> (b: bool)
    ensures
        b == is_private(*accessibility),
{
    match accessibility {
        Some(Accessibility::Private) => true,
        _ => false,
    }
}

impl PropName {
    /// Whether the range of a computed name lies within a text of `len`
    /// characters.
    pub open spec fn spans_ok(self, len: nat) -> bool {
        match self {
            PropName::Computed(span) => span.within(len),
            _ => true,
        }
    }
}

impl ParamOrTsParamProp {
    /// Whether the ranges in this parameter lie within a text of `len`
    /// characters.
    pub open spec fn spans_ok(self, len: nat) -> bool {
        match self {
            ParamOrTsParamProp::Param(pat) => pat.spans_ok(len),
            ParamOrTsParamProp::TsParamProp => true,
        }
    }
}

impl Constructor {
    /// Whether the ranges of the constructor lie within a text of `len`
    /// characters, and its body within its own range.
    pub open spec fn spans_ok(self, len: nat) -> bool {
        &&& self.span.within(len)
        &&& self.key.spans_ok(len)
        &&& body_inside(self.body, self.span)
        &&& forall|i: int|
            0 <= i < self.params@.len() ==> (#[trigger] self.params@[i]).spans_ok(len)
    }
}

impl ClassMethod {
    /// Whether the ranges of the method lie within a text of `len`
    /// characters, and its body within its own range.
    pub open spec fn spans_ok(self, len: nat) -> bool {
        &&& self.span.within(len)
        &&& self.key.spans_ok(len)
        &&& self.function.spans_ok(len)
        &&& body_inside(self.function.body, self.span)
    }
}

impl ClassProp {
    /// Whether the ranges of the property lie within a text of `len`
    /// characters.
    pub open spec fn spans_ok(self, len: nat) -> bool {
        self.span.within(len) && self.key.spans_ok(len) && opt_ann_ok(self.type_ann, len)
    }
}

impl ClassMember {
    /// Whether the ranges of the member lie within a text of `len`
    /// characters.
    pub open spec fn spans_ok(self, len: nat) -> bool {
        match self {
            ClassMember::Constructor(ctor) => ctor.spans_ok(len),
            ClassMember::Method(method) => method.spans_ok(len),
            ClassMember::ClassProp(prop) => prop.spans_ok(len),
            ClassMember::Other(span) => span.within(len),
        }
    }
}

/// Whether the ranges of each member lie within a text of `len` characters.
pub open spec fn members_ok(members: Seq<ClassMember>, len: nat) -> bool {
    forall|i: int| 0 <= i < members.len() ==> (#[trigger] members[i]).spans_ok(len)
}

impl ClassDecl {
    /// Whether the declaration fits the range `outer` of a text of `len`
    /// characters: its ranges lie within the text, and its body opens
    /// within `outer`.
    pub open spec fn fits(self, outer: Span, len: nat) -> bool {
        &&& outer.within(len)
        &&& members_ok(self.class.body@, len)
        &&& outer.lo <= self.class.body_start <= outer.hi
    }
}

/// The name of a member: the identifier, the string, the text of the
/// number, or the source text of a computed name.
pub open spec fn prop_name_text(text: Seq<char>, name: PropName) -> Seq<char> {
    match name {
        PropName::Ident(sym) => sym@,
        PropName::Str(value) => value@,
        PropName::Num(shown) => shown@,
        PropName::Computed(span) => text.subrange(span.lo as int, span.hi as int),
    }
}

/// The model of a parameter of a constructor.
pub open spec fn ctor_param_of(text: Seq<char>, p: ParamOrTsParamProp) -> Param {
    match p {
        ParamOrTsParamProp::Param(pat) => pat_param_of(text, pat),
        ParamOrTsParamProp::TsParamProp => Param { name: unnamed(), ts_type: None },
    }
}

/// What is documented of the constructor `ctor`.
pub open spec fn constructor_doc(parser: &DocParser, ctor: Constructor) -> ClassConstructorDefView {
    ClassConstructorDefView {
        js_doc: parser.js_doc_at(ctor.span),
        snippet: signature_of(parser.text(), ctor.span, ctor.body),
        accessibility: ctor.accessibility,
        name: prop_name_text(parser.text(), ctor.key),
        params: ctor.params@.map_values(|p: ParamOrTsParamProp| ctor_param_of(parser.text(), p)),
        location: parser.source.location_of(ctor.span),
    }
}

/// What is documented of the method `method`.
pub open spec fn method_doc(parser: &DocParser, method: ClassMethod) -> ClassMethodDefView {
    ClassMethodDefView {
        js_doc: parser.js_doc_at(method.span),
        snippet: signature_of(parser.text(), method.span, method.function.body),
        accessibility: method.accessibility,
        is_abstract: method.is_abstract,
        is_static: method.is_static,
        name: prop_name_text(parser.text(), method.key),
        kind: method.kind,
        function_def: function_def_of(parser.text(), method.function),
        location: parser.source.location_of(method.span),
    }
}

/// What is documented of the property `prop`.
pub open spec fn property_doc(parser: &DocParser, prop: ClassProp) -> ClassPropertyDefView {
    ClassPropertyDefView {
        js_doc: parser.js_doc_at(prop.span),
        snippet: parser.text().subrange(prop.span.lo as int, prop.span.hi as int),
        ts_type: opt_type_ann_expr(parser.text(), prop.type_ann),
        readonly: prop.readonly,
        accessibility: prop.accessibility,
        is_abstract: prop.is_abstract,
        is_static: prop.is_static,
        name: prop_name_text(parser.text(), prop.key),
        location: parser.source.location_of(prop.span),
    }
}

/// The documentation of the constructors among `members` that are not
/// private, in order.
pub open spec fn constructors_of(parser: &DocParser, members: Seq<ClassMember>) -> Seq<
    ClassConstructorDefView,
>
    decreases members.len(),
{
    if members.len() == 0 {
        Seq::empty()
    } else {
        let before = constructors_of(parser, members.drop_last());
        match members.last() {
            ClassMember::Constructor(ctor) => if is_private(ctor.accessibility) {
                before
            } else {
                before.push(constructor_doc(parser, ctor))
            },
            _ => before,
        }
    }
}

/// The documentation of the methods among `members` that are not private,
/// in order.
pub open spec fn methods_of(parser: &DocParser, members: Seq<ClassMember>) -> Seq<
    ClassMethodDefView,
>
    decreases members.len(),
{
    if members.len() == 0 {
        Seq::empty()
    } else {
        let before = methods_of(parser, members.drop_last());
        match members.last() {
            ClassMember::Method(method) => if is_private(method.accessibility) {
                before
            } else {
                before.push(method_doc(parser, method))
            },
            _ => before,
        }
    }
}

/// The documentation of the properties among `members` that are not
/// private, in order.
pub open spec fn properties_of(parser: &DocParser, members: Seq<ClassMember>) -> Seq<
    ClassPropertyDefView,
>
    decreases members.len(),
{
    if members.len() == 0 {
        Seq::empty()
    } else {
        let before = properties_of(parser, members.drop_last());
        match members.last() {
            ClassMember::ClassProp(prop) => if is_private(prop.accessibility) {
                before
            } else {
                before.push(property_doc(parser, prop))
            },
            _ => before,
        }
    }
}

/// What is documented of a class with the members `members`.
pub open spec fn class_def_of(parser: &DocParser, class: Class) -> ClassDefView {
    ClassDefView {
        is_abstract: class.is_abstract,
        constructors: constructors_of(parser, class.body@),
        properties: properties_of(parser, class.body@),
        methods: methods_of(parser, class.body@),
    }
}

/// What a scan for the brace that opens a body is reading: code, a comment
/// that ends with its line, or a comment that ends with `*/`.
#[derive(Clone, Copy, Debug)]
pub enum Scan {
    Code,
    LineComment,
    BlockComment,
}

/// Whether `s` begins with the characters `a` and `b`.
pub open spec fn begins_with(s: Seq<char>, a: char, b: char) -> bool {
    s.len() >= 2 && s[0] == a && s[1] == b
}

/// The position in `s` of the first opening brace that stands outside a
/// comment, for a scan that begins in the state `state`; the length of `s`
/// where there is none.
pub open spec fn opening_brace(s: Seq<char>, state: Scan) -> int
    decreases s.len(),
{
    if s.len() == 0 {
        0
    } else {
        match state {
            Scan::Code => if s[0] == '{' {
                0
            } else if begins_with(s, '/', '/') {
                2 + opening_brace(s.skip(2), Scan::LineComment)
            } else if begins_with(s, '/', '*') {
                2 + opening_brace(s.skip(2), Scan::BlockComment)
            } else {
                1 + opening_brace(s.skip(1), Scan::Code)
            },
            Scan::LineComment => if s[0] == '\n' {
                1 + opening_brace(s.skip(1), Scan::Code)
            } else {
                1 + opening_brace(s.skip(1), Scan::LineComment)
            },
            Scan::BlockComment => if begins_with(s, '*', '/') {
                2 + opening_brace(s.skip(2), Scan::Code)
            } else {
                1 + opening_brace(s.skip(1), Scan::BlockComment)
            },
        }
    }
}

/// The position at which the body of a class opens, where its header ends
/// at `header_end` and the class at `class_end`: that of the first opening
/// brace after the header that stands outside a comment, or `class_end`
/// where there is none.
pub open spec fn body_opening(text: Seq<char>, header_end: int, class_end: int) -> int {
    header_end + opening_brace(text.subrange(header_end, class_end), Scan::Code)
}

/// The head of a class declaration: the text of `outer` up to where the
/// body of the class opens.
pub open spec fn class_head_of(text: Seq<char>, outer: Span, body_start: u32) -> Seq<char> {
    text.subrange(outer.lo as int, body_start as int)
}

/// The signature of a class declaration: its head without trailing white
/// space, without an opening brace that ends it then, and without the
/// white space before that.
pub open spec fn class_signature_of(text: Seq<char>, outer: Span, body_start: u32) -> Seq<char> {
    trim_end_of(
        trim_end_of(
            trim_end_of(class_head_of(text, outer, body_start), CharClass::WhiteSpace),
            CharClass::Exactly('{'),
        ),
        CharClass::WhiteSpace,
    )
}

/// The documentation of the class declaration `decl` that the export `span`
/// covers.
pub open spec fn class_decl_doc(parser: &DocParser, span: Span, decl: ClassDecl) -> DocNodeView {
    DocNodeView {
        name: decl.ident@,
        snippet: class_signature_of(parser.text(), span, decl.class.body_start),
        location: parser.source.location_of(span),
        js_doc: parser.js_doc_at(span),
        def: DocDefView::Class(class_def_of(parser, decl.class)),
    }
}

/// The name of a class member.
pub fn prop_name_to_string(source: &SourceFile, prop_name: &PropName) -> (r: String)
    requires
        prop_name.spans_ok(source.text@.len()),
    ensures
        r@ == prop_name_text(source.text@, *prop_name),
{
    match prop_name {
        PropName::Ident(sym) => sym.clone(),
        PropName::Str(value) => value.clone(),
        PropName::Num(shown) => shown.clone(),
        PropName::Computed(span) => source.snippet(*span),
    }
}

/// What is documented of a constructor.
pub fn constructor_to_def(doc_parser: &DocParser, ctor: &Constructor) -> (def: ClassConstructorDef)
    requires
        ctor.spans_ok(doc_parser.text().len()),
    ensures
        def@ == constructor_doc(doc_parser, *ctor),
{
    let ghost text = doc_parser.text();
    let ghost model = |p: ParamOrTsParamProp| ctor_param_of(text, p);
    let ctor_js_doc = doc_parser.js_doc_for_span(ctor.span);
    let ctor_snippet = doc_parser.signature(ctor.span, &ctor.body);
    let constructor_name = prop_name_to_string(&doc_parser.source, &ctor.key);
    let mut params: Vec<ParamDef> = Vec::new();
    let mut i: usize = 0;
    while i < ctor.params.len()
        invariant
            i <= ctor.params.len(),
            text == doc_parser.text(),
            model == |p: ParamOrTsParamProp| ctor_param_of(text, p),
            forall|k: int|
                0 <= k < ctor.params@.len() ==> (#[trigger] ctor.params@[k]).spans_ok(text.len()),
            param_views(params@) == ctor.params@.take(i as int).map_values(model),
        decreases ctor.params.len() - i,
    {
        assert(ctor.params@[i as int].spans_ok(text.len()));
        let param_def = match &ctor.params[i] {
            ParamOrTsParamProp::Param(pat) => pat_to_param_def(doc_parser, pat),
            ParamOrTsParamProp::TsParamProp => ParamDef {
                name: String::from_str("<TODO>"),
                ts_type: None,
            },
        };
        proof {
            assert(param_views(params@.push(param_def)) =~= param_views(params@).push(param_def@));
            assert(ctor.params@.take(i + 1).map_values(model) =~= ctor.params@.take(
                i as int,
            ).map_values(model).push(param_def@));
        }
        params.push(param_def);
        i = i + 1;
    }
    proof {
        assert(ctor.params@.take(ctor.params.len() as int) =~= ctor.params@);
    }
    ClassConstructorDef {
        js_doc: ctor_js_doc,
        snippet: ctor_snippet,
        accessibility: ctor.accessibility,
        name: constructor_name,
        params,
        location: doc_parser.source.location(ctor.span),
    }
}

/// What is documented of a method.
pub fn class_method_to_def(doc_parser: &DocParser, class_method: &ClassMethod) -> (def:
    ClassMethodDef)
    requires
        class_method.spans_ok(doc_parser.text().len()),
    ensures
        def@ == method_doc(doc_parser, *class_method),
{
    let method_js_doc = doc_parser.js_doc_for_span(class_method.span);
    let method_snippet = doc_parser.signature(class_method.span, &class_method.function.body);
    let method_name = prop_name_to_string(&doc_parser.source, &class_method.key);
    let fn_def = function_to_function_def(doc_parser, &class_method.function);
    ClassMethodDef {
        js_doc: method_js_doc,
        snippet: method_snippet,
        accessibility: class_method.accessibility,
        is_abstract: class_method.is_abstract,
        is_static: class_method.is_static,
        name: method_name,
        kind: class_method.kind,
        function_def: fn_def,
        location: doc_parser.source.location(class_method.span),
    }
}

/// What is documented of a property.
pub fn class_prop_to_def(doc_parser: &DocParser, class_prop: &ClassProp) -> (def: ClassPropertyDef)
    requires
        class_prop.spans_ok(doc_parser.text().len()),
    ensures
        def@ == property_doc(doc_parser, *class_prop),
{
    let prop_js_doc = doc_parser.js_doc_for_span(class_prop.span);
    let prop_snippet = doc_parser.source.snippet(class_prop.span);
    let ts_type = opt_ts_type_ann_to_def(&doc_parser.source, &class_prop.type_ann);
    let prop_name = prop_name_to_string(&doc_parser.source, &class_prop.key);
    ClassPropertyDef {
        js_doc: prop_js_doc,
        snippet: prop_snippet,
        ts_type,
        readonly: class_prop.readonly,
        accessibility: class_prop.accessibility,
        is_abstract: class_prop.is_abstract,
        is_static: class_prop.is_static,
        name: prop_name,
        location: doc_parser.source.location(class_prop.span),
    }
}

/// The position at which the body of a class opens, where its header ends
/// at `header_end` and the class at `class_end`.
pub fn find_body_opening(source: &SourceFile, header_end: u32, class_end: u32) -> (at: u32)
    requires
        header_end <= class_end <= source.text@.len(),
    ensures
        at == body_opening(source.text@, header_end as int, class_end as int),
        header_end <= at <= class_end,
{
    let chars = to_chars(source.text.as_str());
    let ghost s = source.text@.subrange(header_end as int, class_end as int);
    let from: usize = header_end as usize;
    let upto: usize = class_end as usize;
    let mut i: usize = from;
    let mut state = Scan::Code;
    proof {
        assert(s.skip(0) =~= s);
    }
    while i < upto
        invariant
            from <= i <= upto <= chars.len(),
            from == header_end,
            upto == class_end,
            chars@ == source.text@,
            s == source.text@.subrange(from as int, upto as int),
            opening_brace(s, Scan::Code) == (i - from) + opening_brace(s.skip(i - from), state),
        decreases upto - i,
    {
        let ghost rest = s.skip(i - from);
        let c = chars[i];
        let pair = i + 1 < upto;
        proof {
            assert(rest.len() == upto - i);
            assert(rest[0] == c);
            if pair {
                assert(rest[1] == chars@[i + 1]);
                assert(rest.skip(2) =~= s.skip(i - from + 2));
            }
            assert(rest.skip(1) =~= s.skip(i - from + 1));
        }
        match state {
            Scan::Code => {
                if c == '{' {
                    return i as u32;
                } else if pair && c == '/' && chars[i + 1] == '/' {
                    state = Scan::LineComment;
                    i = i + 2;
                } else if pair && c == '/' && chars[i + 1] == '*' {
                    state = Scan::BlockComment;
                    i = i + 2;
                } else {
                    i = i + 1;
                }
            },
            Scan::LineComment => {
                if c == '\n' {
                    state = Scan::Code;
                }
                i = i + 1;
            },
            Scan::BlockComment => {
                if pair && c == '*' && chars[i + 1] == '/' {
                    state = Scan::Code;
                    i = i + 2;
                } else {
                    i = i + 1;
                }
            },
        }
    }
    i as u32
}

/// The signature of a class declaration.
pub fn class_signature(doc_parser: &DocParser, parent_span: Span, class: &Class) -> (r: String)
    requires
        parent_span.within(doc_parser.text().len()),
        parent_span.lo <= class.body_start <= parent_span.hi,
    ensures
        r@ == class_signature_of(doc_parser.text(), parent_span, class.body_start),
{
    let head = doc_parser.source.text_between(parent_span.lo, class.body_start);
    let trimmed = trim_end(head.as_str());
    let without_brace = trim_end_matches(trimmed.as_str(), CharClass::Exactly('{'));
    trim_end(without_brace.as_str())
}

/// The documentation of an exported class declaration.
pub fn get_doc_for_class_decl(
    doc_parser: &DocParser,
    parent_span: Span,
    class_decl: &ClassDecl,
) -> (node: DocNode)
    requires
        class_decl.fits(parent_span, doc_parser.text().len()),
    ensures
        node@ == class_decl_doc(doc_parser, parent_span, *class_decl),
{
    let js_doc = doc_parser.js_doc_for_span(parent_span);
    let snippet = class_signature(doc_parser, parent_span, &class_decl.class);
    let members = &class_decl.class.body;
    let ghost ctor_view = |c: ClassConstructorDef| c@;
    let ghost prop_view = |p: ClassPropertyDef| p@;
    let ghost method_view = |m: ClassMethodDef| m@;
    let mut constructors: Vec<ClassConstructorDef> = Vec::new();
    let mut methods: Vec<ClassMethodDef> = Vec::new();
    let mut properties: Vec<ClassPropertyDef> = Vec::new();
    let mut i: usize = 0;
    proof {
        assert(members@.take(0) =~= Seq::<ClassMember>::empty());
    }
    while i < members.len()
        invariant
            i <= members.len(),
            members_ok(members@, doc_parser.text().len()),
            ctor_view == |c: ClassConstructorDef| c@,
            prop_view == |p: ClassPropertyDef| p@,
            method_view == |m: ClassMethodDef| m@,
            constructors@.map_values(ctor_view) == constructors_of(
                doc_parser,
                members@.take(i as int),
            ),
            properties@.map_values(prop_view) == properties_of(doc_parser, members@.take(i as int)),
            methods@.map_values(method_view) == methods_of(doc_parser, members@.take(i as int)),
        decreases members.len() - i,
    {
        proof {
            assert(members@.take(i + 1).drop_last() =~= members@.take(i as int));
            assert(members@.take(i + 1).last() == members@[i as int]);
            assert(members@[i as int].spans_ok(doc_parser.text().len()));
        }
        match &members[i] {
            ClassMember::Constructor(ctor) => {
                if !private(&ctor.accessibility) {
                    let constructor_def = constructor_to_def(doc_parser, ctor);
                    proof {
                        assert(constructors@.push(constructor_def).map_values(ctor_view)
                            =~= constructors@.map_values(ctor_view).push(constructor_def@));
                    }
                    constructors.push(constructor_def);
                }
            },
            ClassMember::Method(class_method) => {
                if !private(&class_method.accessibility) {
                    let method_def = class_method_to_def(doc_parser, class_method);
                    proof {
                        assert(methods@.push(method_def).map_values(method_view)
                            =~= methods@.map_values(method_view).push(method_def@));
                    }
                    methods.push(method_def);
                }
            },
            ClassMember::ClassProp(class_prop) => {
                if !private(&class_prop.accessibility) {
                    let prop_def = class_prop_to_def(doc_parser, class_prop);
                    proof {
                        assert(properties@.push(prop_def).map_values(prop_view)
                            =~= properties@.map_values(prop_view).push(prop_def@));
                    }
                    properties.push(prop_def);
                }
            },
            ClassMember::Other(_) => {},
        }
        i = i + 1;
    }
    proof {
        assert(members@.take(members.len() as int) =~= members@);
    }
    let class_def = ClassDef {
        is_abstract: class_decl.class.is_abstract,
        constructors,
        properties,
        methods,
    };
    DocNode {
        name: class_decl.ident.clone(),
        snippet,
        location: doc_parser.source.location(parent_span),
        js_doc,
        def: DocNodeDef::Class(class_def),
    }
}

/// Whether a member is a constructor, a method or a property that is
/// declared private.
pub open spec fn member_is_private(member: ClassMember) -> bool {
    match member {
        ClassMember::Constructor(ctor) => is_private(ctor.accessibility),
        ClassMember::Method(method) => is_private(method.accessibility),
        ClassMember::ClassProp(prop) => is_private(prop.accessibility),
        ClassMember::Other(_) => false,
    }
}

/// A private member leaves no trace in what is documented of a class,
/// wherever it stands among the members: the constructors, properties and
/// methods are those of the class without it.
pub proof fn lemma_private_member_left_out(parser: &DocParser, members: Seq<ClassMember>, i: int)
    requires
        0 <= i < members.len(),
        member_is_private(members[i]),
    ensures
        constructors_of(parser, members) == constructors_of(parser, members.remove(i)),
        properties_of(parser, members) == properties_of(parser, members.remove(i)),
        methods_of(parser, members) == methods_of(parser, members.remove(i)),
    decreases members.len(),
{
    if i == members.len() - 1 {
        assert(members.remove(i) =~= members.drop_last());
    } else {
        lemma_private_member_left_out(parser, members.drop_last(), i);
        assert(members.remove(i).drop_last() =~= members.drop_last().remove(i));
        assert(members.remove(i).last() == members.last());
    }
}

/// The signature of a class holds nothing of its body: it is the start of
/// the text of the declaration and ends before the body opens, and neither
/// white space nor an opening brace ends it. The head and what follows it,
/// the body, make up the text of the declaration again.
pub proof fn lemma_class_signature_before_body(text: Seq<char>, outer: Span, body_start: u32)
    requires
        outer.within(text.len()),
        outer.lo <= body_start <= outer.hi,
    ensures
        class_signature_of(text, outer, body_start).len() <= body_start - outer.lo,
        class_signature_of(text, outer, body_start) == text.subrange(
            outer.lo as int,
            outer.lo + class_signature_of(text, outer, body_start).len(),
        ),
        class_signature_of(text, outer, body_start).len() > 0 ==> !is_white_space(
            class_signature_of(text, outer, body_start).last(),
        ),
        class_head_of(text, outer, body_start) + text.subrange(body_start as int, outer.hi as int)
            == text.subrange(outer.lo as int, outer.hi as int),
{
    let head = class_head_of(text, outer, body_start);
    assert(head + text.subrange(body_start as int, outer.hi as int) =~= text.subrange(
        outer.lo as int,
        outer.hi as int,
    ));
    let a = trim_end_of(head, CharClass::WhiteSpace);
    let b = trim_end_of(a, CharClass::Exactly('{'));
    let c = trim_end_of(b, CharClass::WhiteSpace);
    lemma_trim_end_is_prefix(head, CharClass::WhiteSpace);
    lemma_trim_end_is_prefix(a, CharClass::Exactly('{'));
    lemma_trim_end_is_prefix(b, CharClass::WhiteSpace);
    assert(c =~= head.take(c.len() as int));
    assert(head.take(c.len() as int) =~= text.subrange(outer.lo as int, outer.lo + c.len()));
}

/// Where neither white space nor a brace stands before the body, the
/// signature of a class and the text from where its body opens, one after
/// the other, are the text of the declaration.
pub proof fn lemma_class_signature_then_body(text: Seq<char>, outer: Span, body_start: u32)
    requires
        outer.within(text.len()),
        outer.lo <= body_start <= outer.hi,
        body_start > outer.lo ==> !is_white_space(text[body_start - 1]) && text[body_start - 1]
            != '{',
    ensures
        class_signature_of(text, outer, body_start) + text.subrange(
            body_start as int,
            outer.hi as int,
        ) == text.subrange(outer.lo as int, outer.hi as int),
{
    let head = class_head_of(text, outer, body_start);
    lemma_class_signature_before_body(text, outer, body_start);
    if head.len() > 0 {
        assert(head.last() == text[body_start - 1]);
    }
    assert(class_signature_of(text, outer, body_start) == head);
}

} // verus!
