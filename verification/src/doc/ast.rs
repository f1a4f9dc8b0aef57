//! The syntax of declarations, as a parser hands it over.
//!
//! These types hold what the extraction reads of a parsed module: names,
//! flags, the shape of type expressions, and the ranges of the source text
//! that the nodes cover. Each has a predicate that says when its ranges fit
//! the text they are read from.

use crate::doc::parser::DocParser;
use crate::doc::source::Span;
use vstd::prelude::*;

verus! {

/// The accessibility modifier of a class member.
#[derive(Clone, Copy, Debug, PartialEq, Eq, Structural)]
pub enum Accessibility {
    Public,
    Protected,
    Private,
}

/// Whether a class method is a plain method, a getter or a setter.
#[derive(Clone, Copy, Debug, PartialEq, Eq, Structural)]
pub enum MethodKind {
    Method,
    Getter,
    Setter,
}

/// The keyword that declares a variable.
#[derive(Clone, Copy, Debug, PartialEq, Eq, Structural)]
pub enum VarDeclKind {
    Var,
    Let,
    Const,
}

/// The keyword types.
#[derive(Clone, Copy, Debug, PartialEq, Eq, Structural)]
pub enum TsKeywordTypeKind {
    TsAnyKeyword,
    TsUnknownKeyword,
    TsNumberKeyword,
    TsObjectKeyword,
    TsBooleanKeyword,
    TsBigIntKeyword,
    TsStringKeyword,
    TsSymbolKeyword,
    TsVoidKeyword,
    TsUndefinedKeyword,
    TsNullKeyword,
    TsNeverKeyword,
    TsIntrinsicKeyword,
}

/// The type operators.
#[derive(Clone, Copy, Debug, PartialEq, Eq, Structural)]
pub enum TsTypeOperatorOp {
    KeyOf,
    Unique,
    ReadOnly,
}

/// A literal that stands as a type. A number comes with the bit pattern of
/// its value and with the text that displays it.
#[derive(Debug)]
pub enum TsLit {
    Number { bits: u64, text: String },
    Str(String),
    Bool(bool),
}

/// The name that a type reference or a type query names.
#[derive(Debug)]
pub enum TsEntityName {
    Ident(String),
    TsQualifiedName,
}

/// What a type query asks the type of.
#[derive(Debug)]
pub enum TsTypeQueryExpr {
    TsEntityName(TsEntityName),
    Import(String),
}

/// A type expression.
#[derive(Debug)]
pub enum TsType {
    Keyword(TsKeywordTypeKind),
    This,
    FnOrConstructor { constructor: bool, params: Vec<TsFnParam>, return_type: Box<TsType> },
    TypeRef { name: TsEntityName, type_params: Option<Vec<TsType>> },
    TypeQuery(TsTypeQueryExpr),
    Array(Box<TsType>),
    Tuple(Vec<TsType>),
    Optional(Box<TsType>),
    Rest(Box<TsType>),
    Union(Vec<TsType>),
    Intersection(Vec<TsType>),
    Conditional {
        check_type: Box<TsType>,
        extends_type: Box<TsType>,
        true_type: Box<TsType>,
        false_type: Box<TsType>,
    },
    Parenthesized(Box<TsType>),
    TypeOperator { op: TsTypeOperatorOp, operand: Box<TsType> },
    IndexedAccess { obj_type: Box<TsType>, index_type: Box<TsType> },
    Lit(TsLit),
    /// Any other shape, with the range that it covers.
    Other(Span),
}

/// A type annotation: the range from its colon to its end, and the type.
#[derive(Debug)]
pub struct TsTypeAnn {
    pub span: Span,
    pub type_ann: Box<TsType>,
}

/// A name that is bound, with its type annotation where it has one.
#[derive(Debug)]
pub struct BindingIdent {
    pub sym: String,
    pub type_ann: Option<TsTypeAnn>,
}

/// A parameter of a function type or of a signature.
#[derive(Debug)]
pub enum TsFnParam {
    Ident(BindingIdent),
    /// An array, object or rest pattern.
    Other,
}

/// A pattern.
#[derive(Debug)]
pub enum Pat {
    Ident(BindingIdent),
    /// Any other pattern.
    Other,
}

/// A function: its parameters, the range of its body where it has one, its
/// return type where one is written, and its flags.
#[derive(Debug)]
pub struct Function {
    pub params: Vec<Pat>,
    pub body: Option<Span>,
    pub return_type: Option<TsTypeAnn>,
    pub is_async: bool,
    pub is_generator: bool,
}

/// A function declaration.
#[derive(Debug)]
pub struct FnDecl {
    pub ident: String,
    pub function: Function,
}

/// One declarator of a variable declaration.
#[derive(Debug)]
pub struct VarDeclarator {
    pub name: Pat,
}

/// A variable declaration.
#[derive(Debug)]
pub struct VarDecl {
    pub kind: VarDeclKind,
    pub decls: Vec<VarDeclarator>,
}

/// The name of a member. A numeric name comes as the text that displays it,
/// a computed one, or one that is any other expression, as the range that it
/// covers.
#[derive(Debug)]
pub enum PropName {
    Ident(String),
    Str(String),
    Num(String),
    Computed(Span),
}

/// A parameter of a constructor.
#[derive(Debug)]
pub enum ParamOrTsParamProp {
    Param(Pat),
    /// A parameter that declares a property.
    TsParamProp,
}

/// A constructor of a class.
#[derive(Debug)]
pub struct Constructor {
    pub span: Span,
    pub key: PropName,
    pub params: Vec<ParamOrTsParamProp>,
    pub body: Option<Span>,
    pub accessibility: Option<Accessibility>,
}

/// A method of a class.
#[derive(Debug)]
pub struct ClassMethod {
    pub span: Span,
    pub key: PropName,
    pub function: Function,
    pub kind: MethodKind,
    pub is_static: bool,
    pub accessibility: Option<Accessibility>,
    pub is_abstract: bool,
}

/// A property of a class.
#[derive(Debug)]
pub struct ClassProp {
    pub span: Span,
    pub key: PropName,
    pub type_ann: Option<TsTypeAnn>,
    pub is_static: bool,
    pub accessibility: Option<Accessibility>,
    pub is_abstract: bool,
    pub readonly: bool,
}

/// A member of a class.
#[derive(Debug)]
pub enum ClassMember {
    Constructor(Constructor),
    Method(ClassMethod),
    ClassProp(ClassProp),
    /// A member of a kind that is not documented (a `#private` member, an
    /// index signature, a static block), with the range that it covers.
    Other(Span),
}

/// A class: its members, the position at which its body opens, that of the
/// opening brace, and whether it is abstract.
#[derive(Debug)]
pub struct Class {
    pub body: Vec<ClassMember>,
    pub body_start: u32,
    pub is_abstract: bool,
}

/// A class declaration.
#[derive(Debug)]
pub struct ClassDecl {
    pub ident: String,
    pub class: Class,
}

/// A call signature of an interface.
#[derive(Debug)]
pub struct TsCallSignatureDecl {
    pub span: Span,
    pub params: Vec<TsFnParam>,
    pub type_ann: Option<TsTypeAnn>,
}

/// A property signature of an interface.
#[derive(Debug)]
pub struct TsPropertySignature {
    pub span: Span,
    pub key: PropName,
    pub computed: bool,
    pub optional: bool,
    pub params: Vec<TsFnParam>,
    pub type_ann: Option<TsTypeAnn>,
}

/// A method signature of an interface.
#[derive(Debug)]
pub struct TsMethodSignature {
    pub span: Span,
    pub params: Vec<TsFnParam>,
    pub type_ann: Option<TsTypeAnn>,
}

/// A member of an interface.
#[derive(Debug)]
pub enum TsTypeElement {
    TsCallSignatureDecl(TsCallSignatureDecl),
    TsPropertySignature(TsPropertySignature),
    TsMethodSignature(TsMethodSignature),
    /// A construct signature, an index signature or an accessor signature.
    Other,
}

/// An interface declaration.
#[derive(Debug)]
pub struct TsInterfaceDecl {
    pub id: String,
    pub body: Vec<TsTypeElement>,
}

/// A type alias declaration.
#[derive(Debug)]
pub struct TsTypeAliasDecl {
    pub id: String,
    pub type_ann: TsType,
}

/// The name of an enum member: an identifier or a string.
#[derive(Debug)]
pub enum TsEnumMemberId {
    Ident(String),
    Str(String),
}

/// A member of an enum.
#[derive(Debug)]
pub struct TsEnumMember {
    pub id: TsEnumMemberId,
}

/// An enum declaration.
#[derive(Debug)]
pub struct TsEnumDecl {
    pub id: String,
    pub members: Vec<TsEnumMember>,
}

/// The name of a namespace or module: an identifier or a string.
#[derive(Debug)]
pub enum TsModuleName {
    Ident(String),
    Str(String),
}

/// The body of a namespace: a block of items, or the next namespace of a
/// dotted name.
#[derive(Debug)]
pub enum TsNamespaceBody {
    TsModuleBlock(Vec<ModuleItem>),
    TsNamespaceDecl(Box<TsNamespaceDecl>),
}

/// A namespace that is written as a part of a dotted name.
#[derive(Debug)]
pub struct TsNamespaceDecl {
    pub span: Span,
    pub id: String,
    pub body: TsNamespaceBody,
}

/// A namespace or module declaration.
#[derive(Debug)]
pub struct TsModuleDecl {
    pub id: TsModuleName,
    pub body: Option<TsNamespaceBody>,
}

/// A declaration.
#[derive(Debug)]
pub enum Decl {
    Class(ClassDecl),
    Fn(FnDecl),
    Var(VarDecl),
    TsInterface(TsInterfaceDecl),
    TsTypeAlias(TsTypeAliasDecl),
    TsEnum(TsEnumDecl),
    TsModule(TsModuleDecl),
}

/// An exported declaration, with the range from `export` to its end.
#[derive(Debug)]
pub struct ExportDecl {
    pub span: Span,
    pub decl: Decl,
}

/// One name of a named export.
#[derive(Debug)]
pub enum ExportSpecifier {
    /// `name` or `name as other`: the name as the referenced file has it.
    Named(String),
    /// `* as name`.
    Namespace,
    /// A default export.
    Default,
}

/// A named export. Where it names another file, `file` holds that file as it
/// was read and parsed.
#[derive(Debug)]
pub struct NamedExport {
    pub specifiers: Vec<ExportSpecifier>,
    pub file: Option<Box<ParsedFile>>,
}

/// An item of a module body.
#[derive(Debug)]
pub enum ModuleItem {
    ExportDecl(ExportDecl),
    ExportNamed(NamedExport),
    /// A statement, an import, or an export of another form.
    Other,
}

/// A file as it was read and parsed: its text and comments, and the items of
/// its module body.
#[derive(Debug)]
pub struct ParsedFile {
    pub parser: DocParser,
    pub body: Vec<ModuleItem>,
}

impl TsType {
    /// Whether the ranges in this type expression lie within a text of `len`
    /// characters.
    pub open spec fn spans_ok(self, len: nat) -> bool
        decreases self,
    {
        match self {
            TsType::Keyword(_) => true,
            TsType::This => true,
            TsType::FnOrConstructor { constructor, params, return_type } => {
                &&& return_type.spans_ok(len)
                &&& forall|i: int| 0 <= i < params.len() ==> (#[trigger] params[i]).spans_ok(len)
            },
            TsType::TypeRef { name, type_params } => match type_params {
                Some(v) => forall|i: int| 0 <= i < v.len() ==> (#[trigger] v[i]).spans_ok(len),
                None => true,
            },
            TsType::TypeQuery(_) => true,
            TsType::Array(b) => b.spans_ok(len),
            TsType::Tuple(v) => forall|i: int| 0 <= i < v.len() ==> (#[trigger] v[i]).spans_ok(len),
            TsType::Optional(b) => b.spans_ok(len),
            TsType::Rest(b) => b.spans_ok(len),
            TsType::Union(v) => forall|i: int| 0 <= i < v.len() ==> (#[trigger] v[i]).spans_ok(len),
            TsType::Intersection(v) => forall|i: int|
                0 <= i < v.len() ==> (#[trigger] v[i]).spans_ok(len),
            TsType::Conditional { check_type, extends_type, true_type, false_type } => {
                &&& check_type.spans_ok(len)
                &&& extends_type.spans_ok(len)
                &&& true_type.spans_ok(len)
                &&& false_type.spans_ok(len)
            },
            TsType::Parenthesized(b) => b.spans_ok(len),
            TsType::TypeOperator { op, operand } => operand.spans_ok(len),
            TsType::IndexedAccess { obj_type, index_type } => obj_type.spans_ok(len)
                && index_type.spans_ok(len),
            TsType::Lit(_) => true,
            TsType::Other(span) => span.within(len),
        }
    }
}

impl TsTypeAnn {
    /// Whether the ranges in this annotation lie within a text of `len`
    /// characters.
    pub open spec fn spans_ok(self, len: nat) -> bool
        decreases self,
    {
        self.span.within(len) && self.type_ann.spans_ok(len)
    }
}

impl BindingIdent {
    /// Whether the ranges in this binding lie within a text of `len`
    /// characters.
    pub open spec fn spans_ok(self, len: nat) -> bool
        decreases self,
    {
        match self.type_ann {
            Some(ann) => ann.spans_ok(len),
            None => true,
        }
    }
}

impl TsFnParam {
    /// Whether the ranges in this parameter lie within a text of `len`
    /// characters.
    pub open spec fn spans_ok(self, len: nat) -> bool
        decreases self,
    {
        match self {
            TsFnParam::Ident(binding) => binding.spans_ok(len),
            TsFnParam::Other => true,
        }
    }
}

impl Pat {
    /// Whether the ranges in this pattern lie within a text of `len`
    /// characters.
    pub open spec fn spans_ok(self, len: nat) -> bool {
        match self {
            Pat::Ident(binding) => binding.spans_ok(len),
            Pat::Other => true,
        }
    }
}

/// Whether the ranges in the annotation, where there is one, lie within a
/// text of `len` characters.
pub open spec fn opt_ann_ok(ann: Option<TsTypeAnn>, len: nat) -> bool {
    match ann {
        Some(ann) => ann.spans_ok(len),
        None => true,
    }
}

/// Whether the ranges in each of the parameters lie within a text of `len`
/// characters.
pub open spec fn fn_params_ok(params: Seq<TsFnParam>, len: nat) -> bool {
    forall|i: int| 0 <= i < params.len() ==> (#[trigger] params[i]).spans_ok(len)
}

/// Whether the ranges in each of the patterns lie within a text of `len`
/// characters.
pub open spec fn pats_ok(params: Seq<Pat>, len: nat) -> bool {
    forall|i: int| 0 <= i < params.len() ==> (#[trigger] params[i]).spans_ok(len)
}

} // verus!
