//! The model of type expressions.

use crate::doc::ast::{
    TsEntityName, TsFnParam, TsKeywordTypeKind, TsLit, TsType, TsTypeAnn, TsTypeOperatorOp,
    TsTypeQueryExpr,
};
use crate::doc::source::{SourceFile, Span};
use crate::text::{trim_start, trim_start_matches, trim_start_of, CharClass};
use vstd::prelude::*;

verus! {

/// A reference to a named type, with its type arguments where it has any.
#[derive(Debug)]
pub struct TsTypeRefDef {
    pub name: String,
    pub type_params: Option<Vec<TsTypeDef>>,
}

/// The value of a literal type. A number is held as the bit pattern of its
/// IEEE 754 double, so that the parsed value is kept exactly.
#[derive(Debug)]
pub enum LiteralDef {
    Number(u64),
    Str(String),
    Bool(bool),
}

/// A type operator such as `keyof` or `readonly`, with its operand.
#[derive(Debug)]
pub struct TsTypeOperatorDef {
    pub operator: String,
    pub ts_type: TsTypeDef,
}

/// A function type, or a constructor type where `constructor` is set.
#[derive(Debug)]
pub struct TsFnOrConstructorDef {
    pub constructor: bool,
    pub ts_type: TsTypeDef,
    pub params: Vec<ParamDef>,
}

/// An indexed access type `obj_type[index_type]`.
#[derive(Debug)]
pub struct TsIndexedAccessDef {
    pub obj_type: TsTypeDef,
    pub index_type: TsTypeDef,
}

/// A conditional type `check_type extends extends_type ? true_type : false_type`.
#[derive(Debug)]
pub struct TsConditionalDef {
    pub check_type: TsTypeDef,
    pub extends_type: TsTypeDef,
    pub true_type: TsTypeDef,
    pub false_type: TsTypeDef,
}

/// The shape of a type expression, with what is needed to render it again.
#[derive(Debug)]
pub enum TsTypeDefKind {
    Keyword(String),
    Literal(LiteralDef),
    TypeRef(TsTypeRefDef),
    Union(Vec<TsTypeDef>),
    Intersection(Vec<TsTypeDef>),
    Array(Box<TsTypeDef>),
    Tuple(Vec<TsTypeDef>),
    TypeOperator(Box<TsTypeOperatorDef>),
    Parenthesized(Box<TsTypeDef>),
    Rest(Box<TsTypeDef>),
    Optional(Box<TsTypeDef>),
    TypeQuery(String),
    This,
    FnOrConstructor(Box<TsFnOrConstructorDef>),
    IndexedAccess(Box<TsIndexedAccessDef>),
    Conditional(Box<TsConditionalDef>),
    /// A shape that is not modelled: `repr` holds its source text.
    Unresolved,
}

/// A type expression: its shape, and a text to display where the shape says
/// nothing more.
#[derive(Debug)]
pub struct TsTypeDef {
    pub repr: String,
    pub kind: TsTypeDefKind,
}

/// A parameter: its name, and its type where one is written.
#[derive(Debug)]
pub struct ParamDef {
    pub name: String,
    pub ts_type: Option<TsTypeDef>,
}

/// The view of a [`LiteralDef`].
pub ghost enum Literal {
    Number(u64),
    Str(Seq<char>),
    Bool(bool),
}

/// The view of a [`TsTypeDefKind`].
pub ghost enum TypeExprKind {
    Keyword(Seq<char>),
    Literal(Literal),
    TypeRef { name: Seq<char>, type_params: Option<Seq<TypeExpr>> },
    Union(Seq<TypeExpr>),
    Intersection(Seq<TypeExpr>),
    Array(Box<TypeExpr>),
    Tuple(Seq<TypeExpr>),
    TypeOperator { operator: Seq<char>, operand: Box<TypeExpr> },
    Parenthesized(Box<TypeExpr>),
    Rest(Box<TypeExpr>),
    Optional(Box<TypeExpr>),
    TypeQuery(Seq<char>),
    This,
    FnOrConstructor { constructor: bool, params: Seq<Param>, return_type: Box<TypeExpr> },
    IndexedAccess { obj_type: Box<TypeExpr>, index_type: Box<TypeExpr> },
    Conditional {
        check_type: Box<TypeExpr>,
        extends_type: Box<TypeExpr>,
        true_type: Box<TypeExpr>,
        false_type: Box<TypeExpr>,
    },
    Unresolved,
}

/// The view of a [`TsTypeDef`].
pub ghost struct TypeExpr {
    pub repr: Seq<char>,
    pub kind: TypeExprKind,
}

/// The view of a [`ParamDef`].
pub ghost struct Param {
    pub name: Seq<char>,
    pub ts_type: Option<TypeExpr>,
}

/// The view of a literal value.
pub open spec fn literal_view(lit: LiteralDef) -> Literal {
    match lit {
        LiteralDef::Number(bits) => Literal::Number(bits),
        LiteralDef::Str(s) => Literal::Str(s@),
        LiteralDef::Bool(b) => Literal::Bool(b),
    }
}

/// The view of a type expression.
pub open spec fn type_view(t: TsTypeDef) -> TypeExpr
    decreases t,
{
    TypeExpr {
        repr: t.repr@,
        kind: match t.kind {
            TsTypeDefKind::Keyword(s) => TypeExprKind::Keyword(s@),
            TsTypeDefKind::Literal(lit) => TypeExprKind::Literal(literal_view(lit)),
            TsTypeDefKind::TypeRef(r) => TypeExprKind::TypeRef {
                name: r.name@,
                type_params: match r.type_params {
                    Some(v) => Some(
                        Seq::new(
                            v.len() as nat,
                            |i: int|
                                if 0 <= i < v.len() {
                                    type_view(v[i])
                                } else {
                                    arbitrary()
                                },
                        ),
                    ),
                    None => None,
                },
            },
            TsTypeDefKind::Union(v) => TypeExprKind::Union(
                Seq::new(
                    v.len() as nat,
                    |i: int|
                        if 0 <= i < v.len() {
                            type_view(v[i])
                        } else {
                            arbitrary()
                        },
                ),
            ),
            TsTypeDefKind::Intersection(v) => TypeExprKind::Intersection(
                Seq::new(
                    v.len() as nat,
                    |i: int|
                        if 0 <= i < v.len() {
                            type_view(v[i])
                        } else {
                            arbitrary()
                        },
                ),
            ),
            TsTypeDefKind::Array(b) => TypeExprKind::Array(Box::new(type_view(*b))),
            TsTypeDefKind::Tuple(v) => TypeExprKind::Tuple(
                Seq::new(
                    v.len() as nat,
                    |i: int|
                        if 0 <= i < v.len() {
                            type_view(v[i])
                        } else {
                            arbitrary()
                        },
                ),
            ),
            TsTypeDefKind::TypeOperator(op) => TypeExprKind::TypeOperator {
                operator: op.operator@,
                operand: Box::new(type_view(op.ts_type)),
            },
            TsTypeDefKind::Parenthesized(b) => TypeExprKind::Parenthesized(
                Box::new(type_view(*b)),
            ),
            TsTypeDefKind::Rest(b) => TypeExprKind::Rest(Box::new(type_view(*b))),
            TsTypeDefKind::Optional(b) => TypeExprKind::Optional(Box::new(type_view(*b))),
            TsTypeDefKind::TypeQuery(s) => TypeExprKind::TypeQuery(s@),
            TsTypeDefKind::This => TypeExprKind::This,
            TsTypeDefKind::FnOrConstructor(f) => TypeExprKind::FnOrConstructor {
                constructor: f.constructor,
                params: Seq::new(
                    f.params.len() as nat,
                    |i: int|
                        if 0 <= i < f.params.len() {
                            param_view(f.params[i])
                        } else {
                            arbitrary()
                        },
                ),
                return_type: Box::new(type_view(f.ts_type)),
            },
            TsTypeDefKind::IndexedAccess(a) => TypeExprKind::IndexedAccess {
                obj_type: Box::new(type_view(a.obj_type)),
                index_type: Box::new(type_view(a.index_type)),
            },
            TsTypeDefKind::Conditional(c) => TypeExprKind::Conditional {
                check_type: Box::new(type_view(c.check_type)),
                extends_type: Box::new(type_view(c.extends_type)),
                true_type: Box::new(type_view(c.true_type)),
                false_type: Box::new(type_view(c.false_type)),
            },
            TsTypeDefKind::Unresolved => TypeExprKind::Unresolved,
        },
    }
}

/// The view of a parameter.
pub open spec fn param_view(p: ParamDef) -> Param
    decreases p,
{
    Param {
        name: p.name@,
        ts_type: match p.ts_type {
            Some(t) => Some(type_view(t)),
            None => None,
        },
    }
}

impl View for TsTypeDef {
    type V = TypeExpr;

    open spec fn view(&self) -> TypeExpr {
        type_view(*self)
    }
}

impl View for ParamDef {
    type V = Param;

    open spec fn view(&self) -> Param {
        param_view(*self)
    }
}

/// The views of the type expressions of `v`, in order.
pub open spec fn type_views(v: Seq<TsTypeDef>) -> Seq<TypeExpr> {
    v.map_values(|t: TsTypeDef| t@)
}

/// The views of the parameters of `v`, in order.
pub open spec fn param_views(v: Seq<ParamDef>) -> Seq<Param> {
    v.map_values(|p: ParamDef| p@)
}

/// The view of a type expression, where there is one.
pub open spec fn opt_type_view(t: Option<TsTypeDef>) -> Option<TypeExpr> {
    match t {
        Some(t) => Some(t@),
        None => None,
    }
}

impl TypeExpr {
    /// The invariant of type expressions: one without a modelled shape has a
    /// text to display, and so have the expressions inside it.
    pub open spec fn wf(self) -> bool
        decreases self,
    {
        match self.kind {
            TypeExprKind::Keyword(_) => true,
            TypeExprKind::Literal(_) => true,
            TypeExprKind::TypeRef { name, type_params } => match type_params {
                Some(v) => forall|i: int| 0 <= i < v.len() ==> (#[trigger] v[i]).wf(),
                None => true,
            },
            TypeExprKind::Union(v) => forall|i: int| 0 <= i < v.len() ==> (#[trigger] v[i]).wf(),
            TypeExprKind::Intersection(v) => forall|i: int|
                0 <= i < v.len() ==> (#[trigger] v[i]).wf(),
            TypeExprKind::Array(b) => b.wf(),
            TypeExprKind::Tuple(v) => forall|i: int| 0 <= i < v.len() ==> (#[trigger] v[i]).wf(),
            TypeExprKind::TypeOperator { operator, operand } => operand.wf(),
            TypeExprKind::Parenthesized(b) => b.wf(),
            TypeExprKind::Rest(b) => b.wf(),
            TypeExprKind::Optional(b) => b.wf(),
            TypeExprKind::TypeQuery(_) => true,
            TypeExprKind::This => true,
            TypeExprKind::FnOrConstructor { constructor, params, return_type } => {
                &&& return_type.wf()
                &&& forall|i: int| 0 <= i < params.len() ==> (#[trigger] params[i]).wf()
            },
            TypeExprKind::IndexedAccess { obj_type, index_type } => {
                obj_type.wf() && index_type.wf()
            },
            TypeExprKind::Conditional { check_type, extends_type, true_type, false_type } => {
                check_type.wf() && extends_type.wf() && true_type.wf() && false_type.wf()
            },
            TypeExprKind::Unresolved => self.repr.len() > 0,
        }
    }
}

impl Param {
    /// A parameter is well formed where its type is.
    pub open spec fn wf(self) -> bool
        decreases self,
    {
        match self.ts_type {
            Some(t) => t.wf(),
            None => true,
        }
    }
}

/// The name of a keyword type.
pub open spec fn keyword_text(kind: TsKeywordTypeKind) -> Seq<char> {
    match kind {
        TsKeywordTypeKind::TsAnyKeyword => "any"@,
        TsKeywordTypeKind::TsUnknownKeyword => "unknown"@,
        TsKeywordTypeKind::TsNumberKeyword => "number"@,
        TsKeywordTypeKind::TsObjectKeyword => "object"@,
        TsKeywordTypeKind::TsBooleanKeyword => "boolean"@,
        TsKeywordTypeKind::TsBigIntKeyword => "BigInt"@,
        TsKeywordTypeKind::TsStringKeyword => "string"@,
        TsKeywordTypeKind::TsSymbolKeyword => "symbol"@,
        TsKeywordTypeKind::TsVoidKeyword => "void"@,
        TsKeywordTypeKind::TsUndefinedKeyword => "undefined"@,
        TsKeywordTypeKind::TsNullKeyword => "null"@,
        TsKeywordTypeKind::TsNeverKeyword => "never"@,
        TsKeywordTypeKind::TsIntrinsicKeyword => "intrinsic"@,
    }
}

/// The token of a type operator.
pub open spec fn operator_text(op: TsTypeOperatorOp) -> Seq<char> {
    match op {
        TsTypeOperatorOp::KeyOf => "keyof"@,
        TsTypeOperatorOp::Unique => "unique"@,
        TsTypeOperatorOp::ReadOnly => "readonly"@,
    }
}

/// The text that stands for a shape or a name that is not modelled and has
/// no source text.
pub open spec fn placeholder() -> Seq<char> {
    "<UNIMPLEMENTED>"@
}

/// The name that stands for a parameter that is not a plain identifier.
pub open spec fn unnamed() -> Seq<char> {
    "<TODO>"@
}

/// The name that an entity name gives.
pub open spec fn entity_name_text(name: TsEntityName) -> Seq<char> {
    match name {
        TsEntityName::Ident(sym) => sym@,
        TsEntityName::TsQualifiedName => placeholder(),
    }
}

/// The name that a type query asks about.
pub open spec fn query_name_text(expr: TsTypeQueryExpr) -> Seq<char> {
    match expr {
        TsTypeQueryExpr::TsEntityName(name) => entity_name_text(name),
        TsTypeQueryExpr::Import(arg) => arg@,
    }
}

/// The source text of `span`, as it stands for a shape that is not modelled:
/// without the colon of an annotation and the white space before the type.
/// Where nothing is left, the placeholder stands in.
pub open spec fn verbatim(text: Seq<char>, span: Span) -> Seq<char> {
    let slice = text.subrange(span.lo as int, span.hi as int);
    let shown = trim_start_of(
        trim_start_of(slice, CharClass::Exactly(':')),
        CharClass::WhiteSpace,
    );
    if shown.len() == 0 {
        placeholder()
    } else {
        shown
    }
}

/// A type expression that is displayed by its shape alone.
pub open spec fn shaped(kind: TypeExprKind) -> TypeExpr {
    TypeExpr { repr: Seq::empty(), kind }
}

/// A type expression that has a display text beside its shape.
pub open spec fn named(repr: Seq<char>, kind: TypeExprKind) -> TypeExpr {
    TypeExpr { repr, kind }
}

/// The model of a literal type.
pub open spec fn literal_expr(lit: TsLit) -> TypeExpr {
    match lit {
        TsLit::Number { bits, text } => named(
            text@,
            TypeExprKind::Literal(Literal::Number(bits)),
        ),
        TsLit::Str(value) => named(value@, TypeExprKind::Literal(Literal::Str(value@))),
        TsLit::Bool(value) => named(
            if value {
                "true"@
            } else {
                "false"@
            },
            TypeExprKind::Literal(Literal::Bool(value)),
        ),
    }
}

/// The model of the type expression `t`, read from a file of text `text`.
/// Every shape has its variant, with the models of its parts in their order;
/// any other shape is left unresolved, with its source text.
pub open spec fn type_expr_of(text: Seq<char>, t: TsType) -> TypeExpr
    decreases t,
{
    match t {
        TsType::Keyword(kind) => named(
            keyword_text(kind),
            TypeExprKind::Keyword(keyword_text(kind)),
        ),
        TsType::This => named("this"@, TypeExprKind::This),
        TsType::FnOrConstructor { constructor, params, return_type } => shaped(
            TypeExprKind::FnOrConstructor {
                constructor,
                params: Seq::new(
                    params.len() as nat,
                    |i: int|
                        if 0 <= i < params.len() {
                            fn_param_of(text, params[i])
                        } else {
                            arbitrary()
                        },
                ),
                return_type: Box::new(type_expr_of(text, *return_type)),
            },
        ),
        TsType::TypeRef { name, type_params } => named(
            entity_name_text(name),
            TypeExprKind::TypeRef {
                name: entity_name_text(name),
                type_params: match type_params {
                    Some(v) => Some(
                        Seq::new(
                            v.len() as nat,
                            |i: int|
                                if 0 <= i < v.len() {
                                    type_expr_of(text, v[i])
                                } else {
                                    arbitrary()
                                },
                        ),
                    ),
                    None => None,
                },
            },
        ),
        TsType::TypeQuery(expr) => named(
            query_name_text(expr),
            TypeExprKind::TypeQuery(query_name_text(expr)),
        ),
        TsType::Array(elem) => shaped(TypeExprKind::Array(Box::new(type_expr_of(text, *elem)))),
        TsType::Tuple(v) => shaped(
            TypeExprKind::Tuple(
                Seq::new(
                    v.len() as nat,
                    |i: int|
                        if 0 <= i < v.len() {
                            type_expr_of(text, v[i])
                        } else {
                            arbitrary()
                        },
                ),
            ),
        ),
        TsType::Optional(inner) => shaped(
            TypeExprKind::Optional(Box::new(type_expr_of(text, *inner))),
        ),
        TsType::Rest(inner) => shaped(TypeExprKind::Rest(Box::new(type_expr_of(text, *inner)))),
        TsType::Union(v) => shaped(
            TypeExprKind::Union(
                Seq::new(
                    v.len() as nat,
                    |i: int|
                        if 0 <= i < v.len() {
                            type_expr_of(text, v[i])
                        } else {
                            arbitrary()
                        },
                ),
            ),
        ),
        TsType::Intersection(v) => shaped(
            TypeExprKind::Intersection(
                Seq::new(
                    v.len() as nat,
                    |i: int|
                        if 0 <= i < v.len() {
                            type_expr_of(text, v[i])
                        } else {
                            arbitrary()
                        },
                ),
            ),
        ),
        TsType::Conditional { check_type, extends_type, true_type, false_type } => shaped(
            TypeExprKind::Conditional {
                check_type: Box::new(type_expr_of(text, *check_type)),
                extends_type: Box::new(type_expr_of(text, *extends_type)),
                true_type: Box::new(type_expr_of(text, *true_type)),
                false_type: Box::new(type_expr_of(text, *false_type)),
            },
        ),
        TsType::Parenthesized(inner) => shaped(
            TypeExprKind::Parenthesized(Box::new(type_expr_of(text, *inner))),
        ),
        TsType::TypeOperator { op, operand } => shaped(
            TypeExprKind::TypeOperator {
                operator: operator_text(op),
                operand: Box::new(type_expr_of(text, *operand)),
            },
        ),
        TsType::IndexedAccess { obj_type, index_type } => shaped(
            TypeExprKind::IndexedAccess {
                obj_type: Box::new(type_expr_of(text, *obj_type)),
                index_type: Box::new(type_expr_of(text, *index_type)),
            },
        ),
        TsType::Lit(lit) => literal_expr(lit),
        TsType::Other(span) => named(verbatim(text, span), TypeExprKind::Unresolved),
    }
}

/// The model of a parameter of a function type: the name of a plain
/// identifier with the model of its type; for any other pattern, a
/// placeholder name and no type.
pub open spec fn fn_param_of(text: Seq<char>, p: TsFnParam) -> Param
    decreases p,
{
    match p {
        TsFnParam::Ident(binding) => Param {
            name: binding.sym@,
            ts_type: match binding.type_ann {
                Some(ann) => Some(type_expr_of(text, *ann.type_ann)),
                None => None,
            },
        },
        TsFnParam::Other => Param { name: unnamed(), ts_type: None },
    }
}

/// The model of a type annotation of a declaration. An annotation whose type
/// has no modelled shape is shown by the source text of the whole annotation,
/// without its colon.
pub open spec fn type_ann_expr(text: Seq<char>, ann: TsTypeAnn) -> TypeExpr {
    match *ann.type_ann {
        TsType::Other(_) => named(verbatim(text, ann.span), TypeExprKind::Unresolved),
        _ => type_expr_of(text, *ann.type_ann),
    }
}

/// The model of a type annotation, where there is one.
pub open spec fn opt_type_ann_expr(text: Seq<char>, ann: Option<TsTypeAnn>) -> Option<TypeExpr> {
    match ann {
        Some(ann) => Some(type_ann_expr(text, ann)),
        None => None,
    }
}

/// The model of a parameter of a signature: the name of a plain identifier
/// with the model of its annotation; for any other pattern, a placeholder
/// name and no type.
pub open spec fn signature_param_of(text: Seq<char>, p: TsFnParam) -> Param {
    match p {
        TsFnParam::Ident(binding) => Param {
            name: binding.sym@,
            ts_type: opt_type_ann_expr(text, binding.type_ann),
        },
        TsFnParam::Other => Param { name: unnamed(), ts_type: None },
    }
}

/// The models of the parameters of a signature, in order.
pub open spec fn signature_params_of(text: Seq<char>, params: Seq<TsFnParam>) -> Seq<Param> {
    params.map_values(|p: TsFnParam| signature_param_of(text, p))
}

/// The source text that stands for a shape that is not modelled.
pub fn verbatim_text(source: &SourceFile, span: Span) -> (r: String)
    requires
        span.within(source.text@.len()),
    ensures
        r@ == verbatim(source.text@, span),
{
    let raw = source.snippet(span);
    let after_colon = trim_start_matches(raw.as_str(), CharClass::Exactly(':'));
    let shown = trim_start(after_colon.as_str());
    if shown.as_str().unicode_len() == 0 {
        String::from_str("<UNIMPLEMENTED>")
    } else {
        shown
    }
}

/// The model of a keyword type.
pub fn keyword_to_def(kind: TsKeywordTypeKind) -> (def: TsTypeDef)
    ensures
        def@ == named(keyword_text(kind), TypeExprKind::Keyword(keyword_text(kind))),
{
    let keyword_str = match kind {
        TsKeywordTypeKind::TsAnyKeyword => "any",
        TsKeywordTypeKind::TsUnknownKeyword => "unknown",
        TsKeywordTypeKind::TsNumberKeyword => "number",
        TsKeywordTypeKind::TsObjectKeyword => "object",
        TsKeywordTypeKind::TsBooleanKeyword => "boolean",
        TsKeywordTypeKind::TsBigIntKeyword => "BigInt",
        TsKeywordTypeKind::TsStringKeyword => "string",
        TsKeywordTypeKind::TsSymbolKeyword => "symbol",
        TsKeywordTypeKind::TsVoidKeyword => "void",
        TsKeywordTypeKind::TsUndefinedKeyword => "undefined",
        TsKeywordTypeKind::TsNullKeyword => "null",
        TsKeywordTypeKind::TsNeverKeyword => "never",
        TsKeywordTypeKind::TsIntrinsicKeyword => "intrinsic",
    };
    TsTypeDef {
        repr: String::from_str(keyword_str),
        kind: TsTypeDefKind::Keyword(String::from_str(keyword_str)),
    }
}

/// The model of a literal type.
pub fn lit_to_def(lit: &TsLit) -> (def: TsTypeDef)
    ensures
        def@ == literal_expr(*lit),
{
    match lit {
        TsLit::Number { bits, text } => TsTypeDef {
            repr: text.clone(),
            kind: TsTypeDefKind::Literal(LiteralDef::Number(*bits)),
        },
        TsLit::Str(value) => TsTypeDef {
            repr: value.clone(),
            kind: TsTypeDefKind::Literal(LiteralDef::Str(value.clone())),
        },
        TsLit::Bool(value) => TsTypeDef {
            repr: if *value {
                String::from_str("true")
            } else {
                String::from_str("false")
            },
            kind: TsTypeDefKind::Literal(LiteralDef::Bool(*value)),
        },
    }
}

/// The name that an entity name gives.
pub fn entity_name_to_string(name: &TsEntityName) -> (r: String)
    ensures
        r@ == entity_name_text(*name),
{
    match name {
        TsEntityName::Ident(sym) => sym.clone(),
        TsEntityName::TsQualifiedName => String::from_str("<UNIMPLEMENTED>"),
    }
}

/// The model of a type query.
pub fn type_query_to_def(expr: &TsTypeQueryExpr) -> (def: TsTypeDef)
    ensures
        def@ == named(query_name_text(*expr), TypeExprKind::TypeQuery(query_name_text(*expr))),
{
    let name = match expr {
        TsTypeQueryExpr::TsEntityName(name) => entity_name_to_string(name),
        TsTypeQueryExpr::Import(arg) => arg.clone(),
    };
    TsTypeDef { repr: name.clone(), kind: TsTypeDefKind::TypeQuery(name) }
}

/// The token of a type operator.
pub fn operator_to_string(op: TsTypeOperatorOp) -> (r: String)
    ensures
        r@ == operator_text(op),
{
    match op {
        TsTypeOperatorOp::KeyOf => String::from_str("keyof"),
        TsTypeOperatorOp::Unique => String::from_str("unique"),
        TsTypeOperatorOp::ReadOnly => String::from_str("readonly"),
    }
}

/// The models of the type expressions of `types`, in order.
pub fn ts_types_to_defs(source: &SourceFile, types: &Vec<TsType>) -> (defs: Vec<TsTypeDef>)
    requires
        forall|i: int| 0 <= i < types.len() ==> (#[trigger] types[i]).spans_ok(source.text@.len()),
    ensures
        defs.len() == types.len(),
        forall|i: int|
            0 <= i < types.len() ==> (#[trigger] defs[i])@ == type_expr_of(source.text@, types[i]),
    decreases types,
{
    let mut defs: Vec<TsTypeDef> = Vec::new();
    let mut i: usize = 0;
    while i < types.len()
        invariant
            i <= types.len(),
            defs.len() == i,
            forall|k: int|
                0 <= k < types.len() ==> (#[trigger] types[k]).spans_ok(source.text@.len()),
            forall|k: int|
                0 <= k < i ==> (#[trigger] defs[k])@ == type_expr_of(source.text@, types[k]),
        decreases types.len() - i,
    {
        let def = ts_type_to_def(source, &types[i]);
        defs.push(def);
        i = i + 1;
    }
    defs
}

/// The models of the parameters of a function type, in order.
pub fn ts_fn_params_to_defs(source: &SourceFile, params: &Vec<TsFnParam>) -> (defs: Vec<ParamDef>)
    requires
        forall|i: int|
            0 <= i < params.len() ==> (#[trigger] params[i]).spans_ok(source.text@.len()),
    ensures
        defs.len() == params.len(),
        forall|i: int|
            0 <= i < params.len() ==> (#[trigger] defs[i])@ == fn_param_of(source.text@, params[i]),
    decreases params,
{
    let mut defs: Vec<ParamDef> = Vec::new();
    let mut i: usize = 0;
    while i < params.len()
        invariant
            i <= params.len(),
            defs.len() == i,
            forall|k: int|
                0 <= k < params.len() ==> (#[trigger] params[k]).spans_ok(source.text@.len()),
            forall|k: int|
                0 <= k < i ==> (#[trigger] defs[k])@ == fn_param_of(source.text@, params[k]),
        decreases params.len() - i,
    {
        let def = match &params[i] {
            TsFnParam::Ident(binding) => {
                let ts_type = match &binding.type_ann {
                    Some(ann) => Some(ts_type_to_def(source, &ann.type_ann)),
                    None => None,
                };
                ParamDef { name: binding.sym.clone(), ts_type }
            },
            TsFnParam::Other => ParamDef { name: String::from_str("<TODO>"), ts_type: None },
        };
        defs.push(def);
        i = i + 1;
    }
    defs
}

/// The model of a type expression.
pub fn ts_type_to_def(source: &SourceFile, t: &TsType) -> (def: TsTypeDef)
    requires
        t.spans_ok(source.text@.len()),
    ensures
        def@ == type_expr_of(source.text@, *t),
        def@.wf(),
    decreases t,
{
    let ghost text = source.text@;
    proof {
        lemma_type_expr_wf(text, *t);
    }
    match t {
        TsType::Keyword(kind) => keyword_to_def(*kind),
        TsType::This => TsTypeDef { repr: String::from_str("this"), kind: TsTypeDefKind::This },
        TsType::FnOrConstructor { constructor, params, return_type } => {
            let param_defs = ts_fn_params_to_defs(source, params);
            let ts_type = ts_type_to_def(source, return_type);
            let def = TsTypeDef {
                repr: String::new(),
                kind: TsTypeDefKind::FnOrConstructor(
                    Box::new(
                        TsFnOrConstructorDef {
                            constructor: *constructor,
                            ts_type,
                            params: param_defs,
                        },
                    ),
                ),
            };
            proof {
                assert(def@.kind->FnOrConstructor_params =~= type_expr_of(
                    text,
                    *t,
                ).kind->FnOrConstructor_params);
            }
            def
        },
        TsType::TypeRef { name, type_params } => {
            let name = entity_name_to_string(name);
            let params = match type_params {
                Some(v) => Some(ts_types_to_defs(source, v)),
                None => None,
            };
            let def = TsTypeDef {
                repr: name.clone(),
                kind: TsTypeDefKind::TypeRef(TsTypeRefDef { name, type_params: params }),
            };
            proof {
                if type_params is Some {
                    assert(def@.kind->TypeRef_type_params->0 =~= type_expr_of(
                        text,
                        *t,
                    ).kind->TypeRef_type_params->0);
                }
            }
            def
        },
        TsType::TypeQuery(expr) => type_query_to_def(expr),
        TsType::Array(elem) => {
            let inner = ts_type_to_def(source, elem);
            TsTypeDef { repr: String::new(), kind: TsTypeDefKind::Array(Box::new(inner)) }
        },
        TsType::Tuple(v) => {
            let defs = ts_types_to_defs(source, v);
            let def = TsTypeDef { repr: String::new(), kind: TsTypeDefKind::Tuple(defs) };
            proof {
                assert(def@.kind->Tuple_0 =~= type_expr_of(text, *t).kind->Tuple_0);
            }
            def
        },
        TsType::Optional(inner) => {
            let inner = ts_type_to_def(source, inner);
            TsTypeDef { repr: String::new(), kind: TsTypeDefKind::Optional(Box::new(inner)) }
        },
        TsType::Rest(inner) => {
            let inner = ts_type_to_def(source, inner);
            TsTypeDef { repr: String::new(), kind: TsTypeDefKind::Rest(Box::new(inner)) }
        },
        TsType::Union(v) => {
            let defs = ts_types_to_defs(source, v);
            let def = TsTypeDef { repr: String::new(), kind: TsTypeDefKind::Union(defs) };
            proof {
                assert(def@.kind->Union_0 =~= type_expr_of(text, *t).kind->Union_0);
            }
            def
        },
        TsType::Intersection(v) => {
            let defs = ts_types_to_defs(source, v);
            let def = TsTypeDef { repr: String::new(), kind: TsTypeDefKind::Intersection(defs) };
            proof {
                assert(def@.kind->Intersection_0 =~= type_expr_of(text, *t).kind->Intersection_0);
            }
            def
        },
        TsType::Conditional { check_type, extends_type, true_type, false_type } => {
            let check_type = ts_type_to_def(source, check_type);
            let extends_type = ts_type_to_def(source, extends_type);
            let true_type = ts_type_to_def(source, true_type);
            let false_type = ts_type_to_def(source, false_type);
            TsTypeDef {
                repr: String::new(),
                kind: TsTypeDefKind::Conditional(
                    Box::new(
                        TsConditionalDef { check_type, extends_type, true_type, false_type },
                    ),
                ),
            }
        },
        TsType::Parenthesized(inner) => {
            let inner = ts_type_to_def(source, inner);
            TsTypeDef { repr: String::new(), kind: TsTypeDefKind::Parenthesized(Box::new(inner)) }
        },
        TsType::TypeOperator { op, operand } => {
            let ts_type = ts_type_to_def(source, operand);
            TsTypeDef {
                repr: String::new(),
                kind: TsTypeDefKind::TypeOperator(
                    Box::new(TsTypeOperatorDef { operator: operator_to_string(*op), ts_type }),
                ),
            }
        },
        TsType::IndexedAccess { obj_type, index_type } => {
            let obj_type = ts_type_to_def(source, obj_type);
            let index_type = ts_type_to_def(source, index_type);
            TsTypeDef {
                repr: String::new(),
                kind: TsTypeDefKind::IndexedAccess(
                    Box::new(TsIndexedAccessDef { obj_type, index_type }),
                ),
            }
        },
        TsType::Lit(lit) => lit_to_def(lit),
        TsType::Other(span) => TsTypeDef {
            repr: verbatim_text(source, *span),
            kind: TsTypeDefKind::Unresolved,
        },
    }
}

/// The model of a type annotation of a declaration.
pub fn ts_type_ann_to_def(source: &SourceFile, type_ann: &TsTypeAnn) -> (def: TsTypeDef)
    requires
        type_ann.spans_ok(source.text@.len()),
    ensures
        def@ == type_ann_expr(source.text@, *type_ann),
        def@.wf(),
{
    proof {
        lemma_type_ann_expr_wf(source.text@, *type_ann);
    }
    match &*type_ann.type_ann {
        TsType::Other(_) => TsTypeDef {
            repr: verbatim_text(source, type_ann.span),
            kind: TsTypeDefKind::Unresolved,
        },
        other => ts_type_to_def(source, other),
    }
}

/// The model of a type annotation, where there is one.
pub fn opt_ts_type_ann_to_def(source: &SourceFile, type_ann: &Option<TsTypeAnn>) -> (def: Option<
    TsTypeDef,
>)
    requires
        crate::doc::ast::opt_ann_ok(*type_ann, source.text@.len()),
    ensures
        opt_type_view(def) == opt_type_ann_expr(source.text@, *type_ann),
{
    match type_ann {
        Some(ann) => Some(ts_type_ann_to_def(source, ann)),
        None => None,
    }
}

/// The models of the parameters of a signature, in order.
pub fn signature_params_to_defs(source: &SourceFile, params: &Vec<TsFnParam>) -> (defs: Vec<
    ParamDef,
>)
    requires
        crate::doc::ast::fn_params_ok(params@, source.text@.len()),
    ensures
        param_views(defs@) == signature_params_of(source.text@, params@),
{
    let mut defs: Vec<ParamDef> = Vec::new();
    let mut i: usize = 0;
    while i < params.len()
        invariant
            i <= params.len(),
            crate::doc::ast::fn_params_ok(params@, source.text@.len()),
            param_views(defs@) == signature_params_of(source.text@, params@.take(i as int)),
        decreases params.len() - i,
    {
        assert(params@[i as int].spans_ok(source.text@.len()));
        let def = match &params[i] {
            TsFnParam::Ident(binding) => ParamDef {
                name: binding.sym.clone(),
                ts_type: opt_ts_type_ann_to_def(source, &binding.type_ann),
            },
            TsFnParam::Other => ParamDef { name: String::from_str("<TODO>"), ts_type: None },
        };
        proof {
            assert(def@ == signature_param_of(source.text@, params@[i as int]));
            assert(param_views(defs@.push(def)) =~= param_views(defs@).push(def@));
            assert(signature_params_of(source.text@, params@.take(i + 1))
                =~= signature_params_of(source.text@, params@.take(i as int)).push(def@));
        }
        defs.push(def);
        i = i + 1;
    }
    proof {
        assert(params@.take(params.len() as int) =~= params@);
    }
    defs
}

/// The text that stands for unmodelled source is never empty.
pub proof fn lemma_verbatim_not_empty(text: Seq<char>, span: Span)
    ensures
        verbatim(text, span).len() > 0,
{
    reveal_strlit("<UNIMPLEMENTED>");
}

/// Every model that the conversion gives is well formed: a shape that is not
/// modelled always comes with a text to display.
pub proof fn lemma_type_expr_wf(text: Seq<char>, t: TsType)
    ensures
        type_expr_of(text, t).wf(),
    decreases t,
{
    match t {
        TsType::FnOrConstructor { constructor, params, return_type } => {
            lemma_type_expr_wf(text, *return_type);
            let models = type_expr_of(text, t).kind->FnOrConstructor_params;
            assert forall|i: int| 0 <= i < models.len() implies (#[trigger] models[i]).wf() by {
                assert(models[i] == fn_param_of(text, params[i]));
                match params[i] {
                    TsFnParam::Ident(binding) => {
                        match binding.type_ann {
                            Some(ann) => {
                                lemma_type_expr_wf(text, *ann.type_ann);
                                assert(models[i].ts_type == Some(
                                    type_expr_of(text, *ann.type_ann),
                                ));
                            },
                            None => {
                                assert(models[i].ts_type is None);
                            },
                        }
                    },
                    TsFnParam::Other => {
                        assert(models[i].ts_type is None);
                    },
                }
            }
        },
        TsType::TypeRef { name: _, type_params } => {
            if let Some(v) = type_params {
                let models = type_expr_of(text, t).kind->TypeRef_type_params->0;
                assert forall|i: int| 0 <= i < models.len() implies (#[trigger] models[i]).wf() by {
                    lemma_type_expr_wf(text, v[i]);
                }
            }
        },
        TsType::Array(inner) => lemma_type_expr_wf(text, *inner),
        TsType::Tuple(v) => {
            let models = type_expr_of(text, t).kind->Tuple_0;
            assert forall|i: int| 0 <= i < models.len() implies (#[trigger] models[i]).wf() by {
                lemma_type_expr_wf(text, v[i]);
            }
        },
        TsType::Optional(inner) => lemma_type_expr_wf(text, *inner),
        TsType::Rest(inner) => lemma_type_expr_wf(text, *inner),
        TsType::Union(v) => {
            let models = type_expr_of(text, t).kind->Union_0;
            assert forall|i: int| 0 <= i < models.len() implies (#[trigger] models[i]).wf() by {
                lemma_type_expr_wf(text, v[i]);
            }
        },
        TsType::Intersection(v) => {
            let models = type_expr_of(text, t).kind->Intersection_0;
            assert forall|i: int| 0 <= i < models.len() implies (#[trigger] models[i]).wf() by {
                lemma_type_expr_wf(text, v[i]);
            }
        },
        TsType::Conditional { check_type, extends_type, true_type, false_type } => {
            lemma_type_expr_wf(text, *check_type);
            lemma_type_expr_wf(text, *extends_type);
            lemma_type_expr_wf(text, *true_type);
            lemma_type_expr_wf(text, *false_type);
        },
        TsType::Parenthesized(inner) => lemma_type_expr_wf(text, *inner),
        TsType::TypeOperator { op: _, operand } => lemma_type_expr_wf(text, *operand),
        TsType::IndexedAccess { obj_type, index_type } => {
            lemma_type_expr_wf(text, *obj_type);
            lemma_type_expr_wf(text, *index_type);
        },
        TsType::Other(span) => lemma_verbatim_not_empty(text, span),
        _ => {},
    }
}

/// The model of an annotation is well formed.
pub proof fn lemma_type_ann_expr_wf(text: Seq<char>, ann: TsTypeAnn)
    ensures
        type_ann_expr(text, ann).wf(),
{
    lemma_type_expr_wf(text, *ann.type_ann);
    lemma_verbatim_not_empty(text, ann.span);
}

} // verus!
