use swc_common::{BytePos, FileName, SourceMap, Spanned};
use swc_common::comments::SingleThreadedComments;
use swc_common::errors::SourceMapper;
use swc_common::sync::Lrc;
use swc_ecma_ast as swc;
use swc_ecma_parser::{parse_file_as_module, Syntax, TsSyntax};
use tsdoc::doc::ast::{
    Accessibility, BindingIdent, Class, ClassDecl, ClassMember, ClassMethod, ClassProp, Constructor,
    Decl, ExportDecl, ExportSpecifier, FnDecl, Function, MethodKind, ModuleItem, NamedExport,
    ParamOrTsParamProp, ParsedFile, Pat, PropName, TsCallSignatureDecl, TsEntityName, TsEnumDecl,
    TsEnumMember, TsEnumMemberId, TsFnParam, TsInterfaceDecl, TsKeywordTypeKind, TsLit,
    TsMethodSignature, TsModuleDecl, TsModuleName, TsNamespaceBody, TsNamespaceDecl,
    TsPropertySignature, TsType, TsTypeAliasDecl, TsTypeAnn, TsTypeElement, TsTypeOperatorOp,
    TsTypeQueryExpr, VarDecl, VarDeclKind, VarDeclarator,
};
use tsdoc::doc::{DocNode, DocNodeDef, DocNodeKind, DocParser};
use tsdoc::doc::class::find_body_opening;
use tsdoc::doc::module::get_docs;
use tsdoc::doc::source::{Comment, CommentKind, CommentTable, LeadingComments, SourceFile, Span};
use tsdoc::doc::ts_type::{LiteralDef, TsTypeDef, TsTypeDefKind};
use tsdoc::doc::validate::{file_is_wf, try_get_docs};
use tsdoc::lookup::find_node_by_name_recursively;
use tsdoc::printer::terminal::TerminalPrinter;

/// Reads the syntax tree that the parser gives into the library's own
/// syntax types. Ranges become character ranges of the file's text, with the
/// line and column that the source map reports for their start.
pub struct Converter<'a> {
    pub cm: &'a SourceMap,
    pub start: BytePos,
    pub source: &'a SourceFile,
    pub load: &'a dyn Fn(&str) -> String,
}

impl<'a> Converter<'a> {
    pub fn span(&self, span: swc_common::Span) -> Span {
        let loc = self.cm.lookup_char_pos(span.lo);
        let lo = (span.lo.0 - self.start.0) as usize;
        let hi = (span.hi.0 - self.start.0) as usize;
        self.source
            .span_of_bytes(lo, hi, loc.line, loc.col_display)
            .expect("Snippet not found")
    }

    pub fn comments(&self, comments: &SingleThreadedComments) -> CommentTable {
        let (leading, _) = comments.borrow_all();
        let groups: Vec<LeadingComments> = leading
            .iter()
            .map(|(pos, list)| LeadingComments {
                pos: self
                    .source
                    .char_position((pos.0 - self.start.0) as usize)
                    .expect("Comment not found") as u32,
                comments: list
                    .iter()
                    .map(|comment| Comment {
                        kind: match comment.kind {
                            swc_common::comments::CommentKind::Line => CommentKind::Line,
                            swc_common::comments::CommentKind::Block => CommentKind::Block,
                        },
                        text: comment.text.to_string(),
                    })
                    .collect(),
            })
            .collect();
        CommentTable { groups }
    }

    fn type_ann(&self, ann: &swc::TsTypeAnn) -> TsTypeAnn {
        TsTypeAnn { span: self.span(ann.span), type_ann: Box::new(self.ts_type(&ann.type_ann)) }
    }

    fn opt_type_ann(&self, ann: &Option<Box<swc::TsTypeAnn>>) -> Option<TsTypeAnn> {
        ann.as_ref().map(|ann| self.type_ann(ann))
    }

    fn ts_types(&self, types: &[Box<swc::TsType>]) -> Vec<TsType> {
        types.iter().map(|t| self.ts_type(t)).collect()
    }

    fn entity_name(&self, name: &swc::TsEntityName) -> TsEntityName {
        match name {
            swc::TsEntityName::Ident(ident) => TsEntityName::Ident(ident.sym.to_string()),
            swc::TsEntityName::TsQualifiedName(_) => TsEntityName::TsQualifiedName,
        }
    }

    /// The name that a type reference is written with, read from the text.
    fn referenced_name(&self, type_ref: &swc::TsTypeRef) -> TsEntityName {
        let end = match &type_ref.type_params {
            Some(params) => params.span.lo,
            None => type_ref.span.hi,
        };
        let written = self
            .cm
            .span_to_snippet(swc_common::Span::new(type_ref.span.lo, end))
            .expect("Snippet not found");
        if written.contains('.') {
            TsEntityName::TsQualifiedName
        } else {
            TsEntityName::Ident(written.trim().to_string())
        }
    }

    pub fn ts_type(&self, t: &swc::TsType) -> TsType {
        match t {
            swc::TsType::TsKeywordType(keyword) => TsType::Keyword(match keyword.kind {
                swc::TsKeywordTypeKind::TsAnyKeyword => TsKeywordTypeKind::TsAnyKeyword,
                swc::TsKeywordTypeKind::TsUnknownKeyword => TsKeywordTypeKind::TsUnknownKeyword,
                swc::TsKeywordTypeKind::TsNumberKeyword => TsKeywordTypeKind::TsNumberKeyword,
                swc::TsKeywordTypeKind::TsObjectKeyword => TsKeywordTypeKind::TsObjectKeyword,
                swc::TsKeywordTypeKind::TsBooleanKeyword => TsKeywordTypeKind::TsBooleanKeyword,
                swc::TsKeywordTypeKind::TsBigIntKeyword => TsKeywordTypeKind::TsBigIntKeyword,
                swc::TsKeywordTypeKind::TsStringKeyword => TsKeywordTypeKind::TsStringKeyword,
                swc::TsKeywordTypeKind::TsSymbolKeyword => TsKeywordTypeKind::TsSymbolKeyword,
                swc::TsKeywordTypeKind::TsVoidKeyword => TsKeywordTypeKind::TsVoidKeyword,
                swc::TsKeywordTypeKind::TsUndefinedKeyword => {
                    TsKeywordTypeKind::TsUndefinedKeyword
                }
                swc::TsKeywordTypeKind::TsNullKeyword => TsKeywordTypeKind::TsNullKeyword,
                swc::TsKeywordTypeKind::TsNeverKeyword => TsKeywordTypeKind::TsNeverKeyword,
                swc::TsKeywordTypeKind::TsIntrinsicKeyword => {
                    TsKeywordTypeKind::TsIntrinsicKeyword
                }
            }),
            swc::TsType::TsThisType(_) => TsType::This,
            swc::TsType::TsFnOrConstructorType(swc::TsFnOrConstructorType::TsFnType(f)) => {
                TsType::FnOrConstructor {
                    constructor: false,
                    params: f.params.iter().map(|p| self.fn_param(p)).collect(),
                    return_type: Box::new(self.ts_type(&f.type_ann.type_ann)),
                }
            }
            swc::TsType::TsFnOrConstructorType(swc::TsFnOrConstructorType::TsConstructorType(
                c,
            )) => TsType::FnOrConstructor {
                constructor: true,
                params: c.params.iter().map(|p| self.fn_param(p)).collect(),
                return_type: Box::new(self.ts_type(&c.type_ann.type_ann)),
            },
            swc::TsType::TsTypeRef(type_ref) => TsType::TypeRef {
                name: self.referenced_name(type_ref),
                type_params: type_ref
                    .type_params
                    .as_ref()
                    .map(|params| self.ts_types(&params.params)),
            },
            swc::TsType::TsTypeQuery(query) => TsType::TypeQuery(match &query.expr_name {
                swc::TsTypeQueryExpr::TsEntityName(name) => {
                    TsTypeQueryExpr::TsEntityName(self.entity_name(name))
                }
                swc::TsTypeQueryExpr::Import(import) => {
                    TsTypeQueryExpr::Import(import.arg.value.to_string_lossy().into_owned())
                }
            }),
            swc::TsType::TsArrayType(array) => {
                TsType::Array(Box::new(self.ts_type(&array.elem_type)))
            }
            swc::TsType::TsTupleType(tuple) => {
                TsType::Tuple(tuple.elem_types.iter().map(|e| self.ts_type(&e.ty)).collect())
            }
            swc::TsType::TsOptionalType(optional) => {
                TsType::Optional(Box::new(self.ts_type(&optional.type_ann)))
            }
            swc::TsType::TsRestType(rest) => TsType::Rest(Box::new(self.ts_type(&rest.type_ann))),
            swc::TsType::TsUnionOrIntersectionType(
                swc::TsUnionOrIntersectionType::TsUnionType(union),
            ) => TsType::Union(self.ts_types(&union.types)),
            swc::TsType::TsUnionOrIntersectionType(
                swc::TsUnionOrIntersectionType::TsIntersectionType(intersection),
            ) => TsType::Intersection(self.ts_types(&intersection.types)),
            swc::TsType::TsConditionalType(conditional) => TsType::Conditional {
                check_type: Box::new(self.ts_type(&conditional.check_type)),
                extends_type: Box::new(self.ts_type(&conditional.extends_type)),
                true_type: Box::new(self.ts_type(&conditional.true_type)),
                false_type: Box::new(self.ts_type(&conditional.false_type)),
            },
            swc::TsType::TsParenthesizedType(paren) => {
                TsType::Parenthesized(Box::new(self.ts_type(&paren.type_ann)))
            }
            swc::TsType::TsTypeOperator(operator) => TsType::TypeOperator {
                op: match operator.op {
                    swc::TsTypeOperatorOp::KeyOf => TsTypeOperatorOp::KeyOf,
                    swc::TsTypeOperatorOp::Unique => TsTypeOperatorOp::Unique,
                    swc::TsTypeOperatorOp::ReadOnly => TsTypeOperatorOp::ReadOnly,
                },
                operand: Box::new(self.ts_type(&operator.type_ann)),
            },
            swc::TsType::TsIndexedAccessType(access) => TsType::IndexedAccess {
                obj_type: Box::new(self.ts_type(&access.obj_type)),
                index_type: Box::new(self.ts_type(&access.index_type)),
            },
            swc::TsType::TsLitType(lit) => match &lit.lit {
                swc::TsLit::Number(number) => TsType::Lit(TsLit::Number {
                    bits: number.value.to_bits(),
                    text: format!("{}", number.value),
                }),
                swc::TsLit::Str(value) => {
                    TsType::Lit(TsLit::Str(value.value.to_string_lossy().into_owned()))
                }
                swc::TsLit::Bool(value) => TsType::Lit(TsLit::Bool(value.value)),
                _ => TsType::Other(self.span(lit.span)),
            },
            other => TsType::Other(self.span(other.span())),
        }
    }

    fn binding(&self, binding: &swc::BindingIdent) -> BindingIdent {
        BindingIdent {
            sym: binding.id.sym.to_string(),
            type_ann: self.opt_type_ann(&binding.type_ann),
        }
    }

    fn fn_param(&self, param: &swc::TsFnParam) -> TsFnParam {
        match param {
            swc::TsFnParam::Ident(binding) => TsFnParam::Ident(self.binding(binding)),
            _ => TsFnParam::Other,
        }
    }

    fn pat(&self, pat: &swc::Pat) -> Pat {
        match pat {
            swc::Pat::Ident(binding) => Pat::Ident(self.binding(binding)),
            _ => Pat::Other,
        }
    }

    fn function(&self, function: &swc::Function) -> Function {
        Function {
            params: function.params.iter().map(|param| self.pat(&param.pat)).collect(),
            body: function.body.as_ref().map(|body| self.span(body.span)),
            return_type: self.opt_type_ann(&function.return_type),
            is_async: function.is_async,
            is_generator: function.is_generator,
        }
    }

    fn prop_name(&self, name: &swc::PropName) -> PropName {
        match name {
            swc::PropName::Ident(ident) => PropName::Ident(ident.sym.to_string()),
            swc::PropName::Str(value) => {
                PropName::Str(value.value.to_string_lossy().into_owned())
            }
            swc::PropName::Num(number) => PropName::Num(number.value.to_string()),
            swc::PropName::Computed(computed) => PropName::Computed(self.span(computed.span)),
            other => PropName::Computed(self.span(other.span())),
        }
    }

    fn prop_key(&self, key: &swc::Expr) -> PropName {
        match key {
            swc::Expr::Ident(ident) => PropName::Ident(ident.sym.to_string()),
            swc::Expr::Lit(swc::Lit::Str(value)) => {
                PropName::Str(value.value.to_string_lossy().into_owned())
            }
            swc::Expr::Lit(swc::Lit::Num(number)) => PropName::Num(number.value.to_string()),
            other => PropName::Computed(self.span(other.span())),
        }
    }

    fn accessibility(&self, accessibility: Option<swc::Accessibility>) -> Option<Accessibility> {
        accessibility.map(|a| match a {
            swc::Accessibility::Public => Accessibility::Public,
            swc::Accessibility::Protected => Accessibility::Protected,
            swc::Accessibility::Private => Accessibility::Private,
        })
    }

    fn class_member(&self, member: &swc::ClassMember) -> ClassMember {
        match member {
            swc::ClassMember::Constructor(ctor) => ClassMember::Constructor(Constructor {
                span: self.span(ctor.span),
                key: self.prop_name(&ctor.key),
                params: ctor
                    .params
                    .iter()
                    .map(|param| match param {
                        swc::ParamOrTsParamProp::Param(param) => {
                            ParamOrTsParamProp::Param(self.pat(&param.pat))
                        }
                        swc::ParamOrTsParamProp::TsParamProp(_) => {
                            ParamOrTsParamProp::TsParamProp
                        }
                    })
                    .collect(),
                body: ctor.body.as_ref().map(|body| self.span(body.span)),
                accessibility: self.accessibility(ctor.accessibility),
            }),
            swc::ClassMember::Method(method) => ClassMember::Method(ClassMethod {
                span: self.span(method.span),
                key: self.prop_name(&method.key),
                function: self.function(&method.function),
                kind: match method.kind {
                    swc::MethodKind::Method => MethodKind::Method,
                    swc::MethodKind::Getter => MethodKind::Getter,
                    swc::MethodKind::Setter => MethodKind::Setter,
                },
                is_static: method.is_static,
                accessibility: self.accessibility(method.accessibility),
                is_abstract: method.is_abstract,
            }),
            swc::ClassMember::ClassProp(prop) => ClassMember::ClassProp(ClassProp {
                span: self.span(prop.span),
                key: self.prop_name(&prop.key),
                type_ann: self.opt_type_ann(&prop.type_ann),
                is_static: prop.is_static,
                accessibility: self.accessibility(prop.accessibility),
                is_abstract: prop.is_abstract,
                readonly: prop.readonly,
            }),
            other => ClassMember::Other(self.span(other.span())),
        }
    }

    fn fn_params(&self, params: &[swc::TsFnParam]) -> Vec<TsFnParam> {
        params.iter().map(|param| self.fn_param(param)).collect()
    }

    fn type_element(&self, element: &swc::TsTypeElement) -> TsTypeElement {
        match element {
            swc::TsTypeElement::TsCallSignatureDecl(sig) => {
                TsTypeElement::TsCallSignatureDecl(TsCallSignatureDecl {
                    span: self.span(sig.span),
                    params: self.fn_params(&sig.params),
                    type_ann: self.opt_type_ann(&sig.type_ann),
                })
            }
            swc::TsTypeElement::TsPropertySignature(sig) => {
                TsTypeElement::TsPropertySignature(TsPropertySignature {
                    span: self.span(sig.span),
                    key: self.prop_key(&sig.key),
                    computed: sig.computed,
                    optional: sig.optional,
                    params: Vec::new(),
                    type_ann: self.opt_type_ann(&sig.type_ann),
                })
            }
            swc::TsTypeElement::TsMethodSignature(sig) => {
                TsTypeElement::TsMethodSignature(TsMethodSignature {
                    span: self.span(sig.span),
                    params: self.fn_params(&sig.params),
                    type_ann: self.opt_type_ann(&sig.type_ann),
                })
            }
            _ => TsTypeElement::Other,
        }
    }

    fn namespace_body(&self, body: &swc::TsNamespaceBody) -> TsNamespaceBody {
        match body {
            swc::TsNamespaceBody::TsModuleBlock(block) => {
                TsNamespaceBody::TsModuleBlock(self.module_items(&block.body))
            }
            swc::TsNamespaceBody::TsNamespaceDecl(decl) => {
                TsNamespaceBody::TsNamespaceDecl(Box::new(TsNamespaceDecl {
                    span: self.span(decl.span),
                    id: decl.id.sym.to_string(),
                    body: self.namespace_body(&decl.body),
                }))
            }
        }
    }

    fn position(&self, pos: BytePos) -> u32 {
        self.source.char_position((pos.0 - self.start.0) as usize).expect("Snippet not found")
            as u32
    }

    fn class(&self, ident: &swc::Ident, class: &swc::Class) -> Class {
        // The header ends with the last of these that is written; the body
        // opens at the first brace after it.
        let header_end = class
            .implements
            .last()
            .map(|implemented| implemented.span.hi)
            .or_else(|| class.super_type_params.as_ref().map(|params| params.span.hi))
            .or_else(|| class.super_class.as_ref().map(|parent| parent.span().hi))
            .or_else(|| class.type_params.as_ref().map(|params| params.span.hi))
            .unwrap_or(ident.span.hi);
        let from = self.position(header_end);
        let upto = self.position(class.span.hi);
        assert!(from <= upto && upto as usize <= self.source.len(), "Snippet not found");
        Class {
            body: class.body.iter().map(|m| self.class_member(m)).collect(),
            body_start: find_body_opening(self.source, from, upto),
            is_abstract: class.is_abstract,
        }
    }

    fn decl(&self, decl: &swc::Decl) -> Option<Decl> {
        Some(match decl {
            swc::Decl::Class(class_decl) => Decl::Class(ClassDecl {
                ident: class_decl.ident.sym.to_string(),
                class: self.class(&class_decl.ident, &class_decl.class),
            }),
            swc::Decl::Fn(fn_decl) => Decl::Fn(FnDecl {
                ident: fn_decl.ident.sym.to_string(),
                function: self.function(&fn_decl.function),
            }),
            swc::Decl::Var(var_decl) => Decl::Var(VarDecl {
                kind: match var_decl.kind {
                    swc::VarDeclKind::Var => VarDeclKind::Var,
                    swc::VarDeclKind::Let => VarDeclKind::Let,
                    swc::VarDeclKind::Const => VarDeclKind::Const,
                },
                decls: var_decl
                    .decls
                    .iter()
                    .map(|declarator| VarDeclarator { name: self.pat(&declarator.name) })
                    .collect(),
            }),
            swc::Decl::TsInterface(interface_decl) => Decl::TsInterface(TsInterfaceDecl {
                id: interface_decl.id.sym.to_string(),
                body: interface_decl.body.body.iter().map(|e| self.type_element(e)).collect(),
            }),
            swc::Decl::TsTypeAlias(alias) => Decl::TsTypeAlias(TsTypeAliasDecl {
                id: alias.id.sym.to_string(),
                type_ann: self.ts_type(&alias.type_ann),
            }),
            swc::Decl::TsEnum(enum_decl) => Decl::TsEnum(TsEnumDecl {
                id: enum_decl.id.sym.to_string(),
                members: enum_decl
                    .members
                    .iter()
                    .map(|member| TsEnumMember {
                        id: match &member.id {
                            swc::TsEnumMemberId::Ident(ident) => {
                                TsEnumMemberId::Ident(ident.sym.to_string())
                            }
                            swc::TsEnumMemberId::Str(value) => TsEnumMemberId::Str(
                                value.value.to_string_lossy().into_owned(),
                            ),
                        },
                    })
                    .collect(),
            }),
            swc::Decl::TsModule(module) => Decl::TsModule(TsModuleDecl {
                id: match &module.id {
                    swc::TsModuleName::Ident(ident) => TsModuleName::Ident(ident.sym.to_string()),
                    swc::TsModuleName::Str(value) => {
                        TsModuleName::Str(value.value.to_string_lossy().into_owned())
                    }
                },
                body: module.body.as_ref().map(|body| self.namespace_body(body)),
            }),
            _ => return None,
        })
    }

    fn named_export(&self, export: &swc::NamedExport) -> NamedExport {
        NamedExport {
            specifiers: export
                .specifiers
                .iter()
                .map(|specifier| match specifier {
                    swc::ExportSpecifier::Named(named) => ExportSpecifier::Named(match &named.orig {
                        swc::ModuleExportName::Ident(ident) => ident.sym.to_string(),
                        swc::ModuleExportName::Str(value) => {
                            value.value.to_string_lossy().into_owned()
                        }
                    }),
                    swc::ExportSpecifier::Namespace(_) => ExportSpecifier::Namespace,
                    swc::ExportSpecifier::Default(_) => ExportSpecifier::Default,
                })
                .collect(),
            file: export.src.as_ref().map(|src| {
                let file_name = src.value.to_string_lossy().into_owned();
                let source_code = (self.load)(&file_name);
                let file = parse_file(self.cm, file_name, source_code, self.load);
                Box::new(file.expect("Failed to print docs"))
            }),
        }
    }

    fn module_item(&self, item: &swc::ModuleItem) -> ModuleItem {
        match item {
            swc::ModuleItem::ModuleDecl(swc::ModuleDecl::ExportDecl(export)) => {
                match self.decl(&export.decl) {
                    Some(decl) => {
                        ModuleItem::ExportDecl(ExportDecl { span: self.span(export.span), decl })
                    }
                    None => ModuleItem::Other,
                }
            }
            swc::ModuleItem::ModuleDecl(swc::ModuleDecl::ExportNamed(export)) => {
                ModuleItem::ExportNamed(self.named_export(export))
            }
            _ => ModuleItem::Other,
        }
    }

    pub fn module_items(&self, items: &[swc::ModuleItem]) -> Vec<ModuleItem> {
        items.iter().map(|item| self.module_item(item)).collect()
    }
}

/// Parses `source_code` as a TypeScript module and reads the result into a
/// [`ParsedFile`]. The files that named exports refer to are loaded with
/// `load` and parsed in the same way.
pub fn parse_file(
    cm: &SourceMap,
    file_name: String,
    source_code: String,
    load: &dyn Fn(&str) -> String,
) -> Result<ParsedFile, Vec<swc_ecma_parser::error::Error>> {
    let fm = cm.new_source_file(Lrc::new(FileName::Custom(file_name.clone())), source_code);
    let comments = SingleThreadedComments::default();
    let mut recovered = Vec::new();
    let module = match parse_file_as_module(
        &fm,
        Syntax::Typescript(TsSyntax::default()),
        swc::EsVersion::latest(),
        Some(&comments),
        &mut recovered,
    ) {
        Ok(module) => module,
        Err(error) => {
            recovered.push(error);
            return Err(recovered);
        }
    };
    let source = SourceFile::new(file_name, fm.src.as_str().to_string());
    let (body, table) = {
        let converter = Converter { cm, start: fm.start_pos, source: &source, load };
        (converter.module_items(&module.body), converter.comments(&comments))
    };
    Ok(ParsedFile { parser: DocParser { source, comments: table }, body })
}

fn no_other_file(name: &str) -> String {
    panic!("Failed to read file {}", name)
}

fn parse(file_name: &str, source_code: &str) -> Vec<DocNode> {
    let cm = SourceMap::default();
    let file = parse_file(&cm, file_name.to_string(), source_code.to_string(), &no_other_file)
        .expect("a module that parses");
    assert!(file_is_wf(&file));
    get_docs(&file)
}

fn keyword_name(def: &TsTypeDef) -> &str {
    match &def.kind {
        TsTypeDefKind::Keyword(name) => name.as_str(),
        other => panic!("not a keyword: {:?}", other),
    }
}

#[test]
fn export_fn() {
    let source_code = r#"/**
* Hello there, this is a multiline JSdoc.
* 
* It has many lines
* 
* Or not that many?
*/
export function foo(a: string, b: number): void {
    console.log("Hello world");
}
"#;
    let entries = parse("test.ts", source_code);
    assert_eq!(entries.len(), 1);
    let entry = &entries[0];
    assert_eq!(entry.kind(), DocNodeKind::Function);
    assert_eq!(
        entry.js_doc,
        Some(
            r#"Hello there, this is a multiline JSdoc.

It has many lines

Or not that many?"#
                .to_string()
        )
    );
}

#[test]
fn export_const() {
    let source_code =
        "/** Something about fizzBuzz */\nexport const fizzBuzz = \"fizzBuzz\";\n";
    let entries = parse("test.ts", source_code);
    assert_eq!(entries.len(), 1);
    let entry = &entries[0];
    assert_eq!(entry.kind(), DocNodeKind::Variable);
    assert_eq!(entry.js_doc, Some("Something about fizzBuzz".to_string()));
}

const CLASS_SOURCE: &str = r#"
/** Class doc */
export class Foobar extends Fizz implements Buzz {
    private private1: boolean;
    protected protected1: number;
    public public1: boolean;
    public2: number;

    /** Constructor js doc */
    constructor(name: string, private private2: number, protected protected2: number) {}

    /** Async foo method */
    async foo(): Promise<void> {
        //
    }

    /** Sync bar method */
    bar(): void {
        //
    }
}
"#;

#[test]
fn export_class() {
    let entries = parse("test.ts", CLASS_SOURCE);
    assert_eq!(entries.len(), 1);
    let entry = &entries[0];
    assert_eq!(entry.kind(), DocNodeKind::Class);
    assert_eq!(entry.js_doc, Some("Class doc".to_string()));
}

#[test]
fn export_interface() {
    let source_code = r#"
/**
 * Interface js doc
 */
export interface Reader {
    /** Read n bytes */
    read(buf: Uint8Array, something: unknown): Promise<number>
}
    "#;
    let entries = parse("test.ts", source_code);
    assert_eq!(entries.len(), 1);
    let entry = &entries[0];
    assert_eq!(entry.kind(), DocNodeKind::Interface);
    assert_eq!(entry.js_doc, Some("Interface js doc".to_string()));
}

#[test]
fn export_type_alias() {
    let source_code = r#"
/** Array holding numbers */
export type NumberArray = Array<number>;
    "#;
    let entries = parse("test.ts", source_code);
    assert_eq!(entries.len(), 1);
    let entry = &entries[0];
    assert_eq!(entry.kind(), DocNodeKind::TypeAlias);
    assert_eq!(entry.js_doc, Some("Array holding numbers".to_string()));
}

#[test]
fn export_enum() {
    let source_code = r#"
/**
 * Some enum for good measure
 */
export enum Hello {
    World = "world",
    Fizz = "fizz",
    Buzz = "buzz",
}
    "#;
    let entries = parse("test.ts", source_code);
    assert_eq!(entries.len(), 1);
    let entry = &entries[0];
    assert_eq!(entry.kind(), DocNodeKind::Enum);
    assert_eq!(entry.js_doc, Some("Some enum for good measure".to_string()));
}

#[test]
fn parsed_function_has_signature_and_parameters() {
    let entries =
        parse("test.ts", "export function foo(a: string, b: number): void { return; }");
    assert_eq!(entries.len(), 1);
    let entry = &entries[0];
    assert_eq!(entry.kind(), DocNodeKind::Function);
    assert_eq!(entry.name, "foo");
    assert_eq!(entry.snippet, "export function foo(a: string, b: number): void");
    assert_eq!(entry.js_doc, None);
    assert_eq!(entry.location.filename, "test.ts");
    assert_eq!(entry.location.line, 1);
    assert_eq!(entry.location.col, 0);
    match &entry.def {
        DocNodeDef::Function(def) => {
            let names: Vec<&str> = def.params.iter().map(|p| p.name.as_str()).collect();
            assert_eq!(names, vec!["a", "b"]);
            assert_eq!(keyword_name(def.params[0].ts_type.as_ref().unwrap()), "string");
            assert_eq!(keyword_name(def.params[1].ts_type.as_ref().unwrap()), "number");
            assert_eq!(keyword_name(def.return_type.as_ref().unwrap()), "void");
        }
        other => panic!("not a function: {:?}", other),
    }
    assert_eq!(
        TerminalPrinter::new().print(entries),
        vec!["function foo(a: string, b: number): void", ""]
    );
}

#[test]
fn parsed_enum_members_keep_their_order() {
    let entries =
        parse("test.ts", "export enum Hello { World = \"world\", Fizz = \"fizz\" }");
    assert_eq!(entries.len(), 1);
    assert_eq!(entries[0].kind(), DocNodeKind::Enum);
    match &entries[0].def {
        DocNodeDef::Enum(def) => {
            let names: Vec<&str> = def.members.iter().map(|m| m.name.as_str()).collect();
            assert_eq!(names, vec!["World", "Fizz"]);
        }
        other => panic!("not an enum: {:?}", other),
    }
}

#[test]
fn parsed_class_leaves_private_members_out() {
    let entries = parse("test.ts", CLASS_SOURCE);
    let entry = &entries[0];
    assert_eq!(entry.name, "Foobar");
    assert_eq!(entry.snippet, "export class Foobar extends Fizz implements Buzz");
    assert_eq!(entry.location.line, 3);
    match &entry.def {
        DocNodeDef::Class(def) => {
            let names: Vec<&str> = def.properties.iter().map(|p| p.name.as_str()).collect();
            assert_eq!(names, vec!["protected1", "public1", "public2"]);
            assert_eq!(def.properties[2].snippet, "public2: number;");
            assert_eq!(keyword_name(def.properties[2].ts_type.as_ref().unwrap()), "number");
            assert_eq!(def.constructors.len(), 1);
            let ctor = &def.constructors[0];
            assert_eq!(ctor.name, "constructor");
            assert_eq!(ctor.js_doc, Some("Constructor js doc".to_string()));
            assert_eq!(
                ctor.snippet,
                "constructor(name: string, private private2: number, protected protected2: number)"
            );
            let params: Vec<&str> = ctor.params.iter().map(|p| p.name.as_str()).collect();
            assert_eq!(params, vec!["name", "<TODO>", "<TODO>"]);
            let methods: Vec<&str> = def.methods.iter().map(|m| m.name.as_str()).collect();
            assert_eq!(methods, vec!["foo", "bar"]);
            assert_eq!(def.methods[0].snippet, "async foo(): Promise<void>");
            assert_eq!(def.methods[0].js_doc, Some("Async foo method".to_string()));
            assert!(def.methods[0].function_def.is_async);
            assert_eq!(def.methods[1].snippet, "bar(): void");
            assert_eq!(def.methods[1].js_doc, Some("Sync bar method".to_string()));
            assert_eq!(def.methods[1].location.line, 18);
            assert_eq!(def.methods[1].location.col, 4);
        }
        other => panic!("not a class: {:?}", other),
    }
}

#[test]
fn parsed_namespaces_nest_and_are_found_by_path() {
    let source_code = r#"export namespace Outer {
  export namespace Middle {
    export namespace Inner {
      /** The innermost function */
      export function fn(): void {}
    }
  }
}
"#;
    let entries = parse("test.ts", source_code);
    assert_eq!(entries.len(), 1);
    assert_eq!(entries[0].kind(), DocNodeKind::Namespace);
    let lines = TerminalPrinter::new().print(parse("test.ts", source_code));
    assert_eq!(
        lines,
        vec![
            "namespace Outer",
            "",
            "  namespace Middle",
            "",
            "    namespace Inner",
            "",
            "      function fn(): void",
            "        The innermost function",
            "",
            "",
            "",
            "",
        ]
    );
    let found = find_node_by_name_recursively(entries, "Outer.Middle.Inner.fn".to_string())
        .expect("the function");
    assert_eq!(found.kind(), DocNodeKind::Function);
    assert_eq!(found.name, "fn");
    assert_eq!(found.js_doc, Some("The innermost function".to_string()));
    assert_eq!(found.snippet, "export function fn(): void");
    assert_eq!(found.location.line, 5);
    assert_eq!(found.location.col, 6);
    match &found.def {
        DocNodeDef::Function(def) => {
            assert!(def.params.is_empty());
            assert_eq!(keyword_name(def.return_type.as_ref().unwrap()), "void");
        }
        other => panic!("not a function: {:?}", other),
    }
}

#[test]
fn parsed_named_export_selects_in_the_order_it_lists() {
    let load = |name: &str| -> String {
        assert_eq!(name, "./other.ts");
        "/** about a */\nexport const a = 1;\nexport function b(): void {}\nexport type c = string;\n"
            .to_string()
    };
    let cm = SourceMap::default();
    let file = parse_file(
        &cm,
        "test.ts".to_string(),
        "export const first = 0;\nexport { c, a } from \"./other.ts\";\n".to_string(),
        &load,
    )
    .expect("a module that parses");
    let entries = try_get_docs(&file).expect("a well formed file");
    let names: Vec<&str> = entries.iter().map(|n| n.name.as_str()).collect();
    assert_eq!(names, vec!["first", "c", "a"]);
    assert_eq!(entries[1].kind(), DocNodeKind::TypeAlias);
    assert_eq!(entries[1].snippet, "export type c = string;");
    assert_eq!(entries[1].location.filename, "./other.ts");
    assert_eq!(entries[1].location.line, 4);
    assert_eq!(entries[2].kind(), DocNodeKind::Variable);
    assert_eq!(entries[2].js_doc, Some("about a".to_string()));
    assert_eq!(entries[2].location.line, 2);
    assert_eq!(entries[0].location.filename, "test.ts");
}

#[test]
fn parsed_types_of_every_shape() {
    let source_code = r#"export type A = string | 1.5 | "s" | true;
export type B = Map<string, number[]> & this;
export type C = [string, number?, ...boolean[]];
export type D = keyof T extends U ? T[K] : (typeof x);
export type E = (a: string, ...rest: number[]) => void;
export type F = new (a: string) => F;
export type G = { x: number };
export let h: { y: string } = { y: "" };
export type I = é.b;
"#;
    let entries = parse("test.ts", source_code);
    let printer = TerminalPrinter::new();
    let mut shown: Vec<String> = Vec::new();
    for entry in entries {
        match entry.def {
            DocNodeDef::TypeAlias(def) => shown.push(printer.render_ts_type(def.ts_type)),
            DocNodeDef::Variable(def) => {
                shown.push(printer.render_ts_type(def.ts_type.expect("an annotation")))
            }
            other => panic!("not a type alias: {:?}", other),
        }
    }
    assert_eq!(
        shown,
        vec![
            "string | 1.5 | s | true",
            "Map<string, number[]> & this",
            "[string, number?, ...boolean[]]",
            "keyof T extends U ? T[K] : (typeof x)",
            "(a: string, <TODO>) => void",
            "new (a: string) => F",
            "{ x: number }",
            "{ y: string }",
            "<UNIMPLEMENTED>",
        ]
    );
    let entries = parse("test.ts", "export type N = 0.1;");
    match &entries[0].def {
        DocNodeDef::TypeAlias(def) => match &def.ts_type.kind {
            TsTypeDefKind::Literal(LiteralDef::Number(bits)) => {
                assert_eq!(f64::from_bits(*bits), 0.1);
            }
            other => panic!("not a number: {:?}", other),
        },
        other => panic!("not a type alias: {:?}", other),
    }
}

#[test]
fn operator_tokens_are_those_of_the_syntax_crate() {
    let entries = parse(
        "test.ts",
        "export type A = keyof T;\nexport type B = unique symbol;\nexport type C = readonly string[];\n",
    );
    let theirs = [
        swc::TsTypeOperatorOp::KeyOf.as_str(),
        swc::TsTypeOperatorOp::Unique.as_str(),
        swc::TsTypeOperatorOp::ReadOnly.as_str(),
    ];
    assert_eq!(entries.len(), 3);
    for (entry, token) in entries.iter().zip(theirs) {
        match &entry.def {
            DocNodeDef::TypeAlias(def) => match &def.ts_type.kind {
                TsTypeDefKind::TypeOperator(operator) => assert_eq!(operator.operator, token),
                other => panic!("not a type operator: {:?}", other),
            },
            other => panic!("not a type alias: {:?}", other),
        }
    }
}

#[test]
fn named_node_is_printed_alone() {
    let source_code = "export namespace N {\n  /** the one */\n  export const x: number = 1;\n  export const y = 2;\n}\n";
    let printer = TerminalPrinter::new();
    assert_eq!(
        printer.print_named(parse("test.ts", source_code), "N.x".to_string()),
        Some(vec!["const x: number".to_string(), "  the one".to_string(), "".to_string()])
    );
    assert_eq!(printer.print_named(parse("test.ts", source_code), "N.z".to_string()), None);
    assert_eq!(printer.print_named(parse("test.ts", source_code), "x".to_string()), None);
}

#[test]
fn parsed_text_beyond_ascii() {
    let source_code = "/** Größe in µm */\nexport function größe(x: \"é\"): void { return \"😀\"; }\n  /** après */\n  export const après = 1;\n";
    let entries = parse("test.ts", source_code);
    assert_eq!(entries.len(), 2);
    assert_eq!(entries[0].name, "größe");
    assert_eq!(entries[0].js_doc, Some("Größe in µm".to_string()));
    assert_eq!(entries[0].snippet, "export function größe(x: \"é\"): void");
    assert_eq!(entries[1].name, "après");
    assert_eq!(entries[1].js_doc, Some("après".to_string()));
    assert_eq!(entries[1].snippet, "export const après = 1;");
    assert_eq!(entries[1].location.line, 4);
    assert_eq!(entries[1].location.col, 2);
}

#[test]
fn parsed_interface_members() {
    let source_code = r#"export namespace N {
    /** An interface */
    export interface I {
        /** a call */
        (x: number): string;
        /** a property */
        name?: string;
        "quoted": number;
        [Symbol.iterator]: boolean;
        method(a: string): void;
        new (x: number): I;
    }
}
"#;
    let entries = parse("test.ts", source_code);
    let found = find_node_by_name_recursively(entries, "N.I".to_string()).expect("the interface");
    assert_eq!(found.kind(), DocNodeKind::Interface);
    assert_eq!(found.js_doc, Some("An interface".to_string()));
    assert!(found.snippet.starts_with("export interface I {\n    /** a call */\n    (x: number): string;\n"));
    assert!(found.snippet.ends_with("    new (x: number): I;\n}"));
    match &found.def {
        DocNodeDef::Interface(def) => {
            assert_eq!(def.call_signatures.len(), 1);
            assert_eq!(def.call_signatures[0].snippet, "(x: number): string;");
            assert_eq!(def.call_signatures[0].js_doc, Some("a call".to_string()));
            assert_eq!(def.call_signatures[0].params[0].name, "x");
            assert_eq!(keyword_name(def.call_signatures[0].ts_type.as_ref().unwrap()), "string");
            let names: Vec<&str> = def.properties.iter().map(|p| p.name.as_str()).collect();
            assert_eq!(names, vec!["name", "quoted", "Symbol.iterator"]);
            assert!(def.properties[0].optional);
            assert_eq!(def.properties[0].js_doc, Some("a property".to_string()));
            assert!(def.properties[2].computed);
            assert_eq!(def.methods.len(), 1);
            assert_eq!(def.methods[0].snippet, "method(a: string): void;");
            assert_eq!(keyword_name(def.methods[0].return_type.as_ref().unwrap()), "void");
        }
        other => panic!("not an interface: {:?}", other),
    }
}

const VARIED_SOURCE: &str = r#"import { x } from "./x.ts";

/** Overloaded. */
export function over(a: string): string;
export function over(a: number): number;
export function over(a: any): any { return a; }

export async function* gen<T>({ a, b }: { a: T; b: T }, [c]: T[] = [], ...rest: T[]): AsyncGenerator<T> {
  yield a;
}

export declare function declared(this: Window, cb: (err?: Error) => void): asserts cb;

/** An abstract class. */
export abstract class Shape<T = unknown> extends Base<T> implements Drawable {
  ;
  /** How many sides. */
  static readonly sides: number = 0;
  #hidden = 1;
  [key: string]: unknown;
  declare protected abstract name?: string;
  "quoted"!: number;
  42 = "answer";
  [Symbol.iterator]() { return this; }
  /** The area. */
  abstract area(): number;
  get size(): number { return 1; }
  set size(value: number) {}
  private secret(): void {}
  static { Shape.count = 0; }
  static create(): Shape { return null as any; }
  protected constructor(public x: number, y?: number) { super(); }
}

export class Empty {}

export interface Drawable<T = void> extends A, B {
  readonly kind: "shape";
  draw(ctx: Canvas, ...layers: Layer[]): void;
  <U>(arg: U): T;
  new (arg: T): Drawable<T>;
  [index: number]: string;
  get width(): number;
  set width(value: number);
  optional?(): void;
}

export const enum Direction { Up = 1, Down, "Left Side" = "left" }

export type Mapped = { readonly [K in keyof T]?: T[K] };
export type Guard = (x: unknown) => x is string;
export type Template = `prefix-${string}`;
export type Big = 10n;
export type Imported = import("./mod").Thing<string>;
export type Inferred<T> = T extends Array<infer U> ? U : never;

export let a = 1, b: string = "two";
export var { destructured } = obj;

export declare namespace Deep.Deeper {
  export namespace Deepest {
    export const value: number;
  }
  const unexported = 1;
  export default class {}
}

export module "quoted-module" {
  export type Inside = string;
}

export default function main() {}
export * from "./all.ts";
export * as ns from "./ns.ts";
export { };
"#;

#[test]
fn varied_source_is_well_formed_and_documented() {
    let cm = SourceMap::default();
    let load = |name: &str| -> String {
        assert_eq!(name, "./ns.ts");
        "export const dropped = 1;".to_string()
    };
    let file = parse_file(&cm, "varied.ts".to_string(), VARIED_SOURCE.to_string(), &load)
        .expect("a module that parses");
    assert!(file_is_wf(&file));
    let entries = get_docs(&file);
    let names: Vec<&str> = entries.iter().map(|n| n.name.as_str()).collect();
    assert_eq!(
        names,
        vec![
            "over", "over", "over", "gen", "declared", "Shape", "Empty", "Drawable", "Direction",
            "Mapped", "Guard", "Template", "Big", "Imported", "Inferred", "a", "<TODO>", "Deep",
            "quoted-module",
        ]
    );
    assert_eq!(entries[0].snippet, "export function over(a: string): string;");
    assert_eq!(entries[0].js_doc, Some("Overloaded.".to_string()));
    assert_eq!(entries[2].snippet, "export function over(a: any): any");
    assert_eq!(
        entries[3].snippet,
        "export async function* gen<T>({ a, b }: { a: T; b: T }, [c]: T[] = [], ...rest: T[]): AsyncGenerator<T>"
    );
    match &entries[3].def {
        DocNodeDef::Function(def) => {
            assert!(def.is_async);
            assert!(def.is_generator);
            let params: Vec<&str> = def.params.iter().map(|p| p.name.as_str()).collect();
            assert_eq!(params, vec!["<TODO>", "<TODO>", "<TODO>"]);
        }
        other => panic!("not a function: {:?}", other),
    }
    match &entries[4].def {
        DocNodeDef::Function(def) => {
            assert_eq!(def.return_type.as_ref().unwrap().repr, "asserts cb");
        }
        other => panic!("not a function: {:?}", other),
    }
    let shape = &entries[5];
    assert_eq!(shape.js_doc, Some("An abstract class.".to_string()));
    assert_eq!(
        shape.snippet,
        "export abstract class Shape<T = unknown> extends Base<T> implements Drawable"
    );
    match &shape.def {
        DocNodeDef::Class(def) => {
            assert!(def.is_abstract);
            let properties: Vec<&str> = def.properties.iter().map(|p| p.name.as_str()).collect();
            assert_eq!(properties, vec!["sides", "name", "quoted", "42"]);
            assert!(def.properties[0].is_static);
            assert!(def.properties[0].readonly);
            assert_eq!(def.properties[0].js_doc, Some("How many sides.".to_string()));
            assert!(def.properties[1].is_abstract);
            let methods: Vec<&str> = def.methods.iter().map(|m| m.name.as_str()).collect();
            assert_eq!(methods, vec!["[Symbol.iterator]", "area", "size", "size", "create"]);
            assert_eq!(def.methods[1].snippet, "abstract area(): number;");
            assert_eq!(def.methods[1].js_doc, Some("The area.".to_string()));
            assert_eq!(def.methods[2].kind, MethodKind::Getter);
            assert_eq!(def.methods[3].kind, MethodKind::Setter);
            assert_eq!(def.methods[3].snippet, "set size(value: number)");
            assert!(def.methods[4].is_static);
            assert_eq!(def.constructors.len(), 1);
            assert_eq!(def.constructors[0].accessibility, Some(Accessibility::Protected));
            assert_eq!(
                def.constructors[0].snippet,
                "protected constructor(public x: number, y?: number)"
            );
        }
        other => panic!("not a class: {:?}", other),
    }
    assert_eq!(entries[6].snippet, "export class Empty");
    match &entries[6].def {
        DocNodeDef::Class(def) => {
            assert!(def.constructors.is_empty());
            assert!(def.properties.is_empty());
            assert!(def.methods.is_empty());
        }
        other => panic!("not a class: {:?}", other),
    }
    match &entries[7].def {
        DocNodeDef::Interface(def) => {
            let properties: Vec<&str> = def.properties.iter().map(|p| p.name.as_str()).collect();
            assert_eq!(properties, vec!["kind"]);
            assert_eq!(def.properties[0].ts_type.as_ref().unwrap().repr, "shape");
            assert_eq!(def.methods.len(), 2);
            assert_eq!(def.methods[0].params[1].name, "<TODO>");
            assert_eq!(def.call_signatures.len(), 1);
        }
        other => panic!("not an interface: {:?}", other),
    }
    match &entries[8].def {
        DocNodeDef::Enum(def) => {
            let members: Vec<&str> = def.members.iter().map(|m| m.name.as_str()).collect();
            assert_eq!(members, vec!["Up", "Down", "Left Side"]);
        }
        other => panic!("not an enum: {:?}", other),
    }
    let printer = TerminalPrinter::new();
    let mut shown: Vec<String> = Vec::new();
    for index in 9..15 {
        match &entries[index].def {
            DocNodeDef::TypeAlias(def) => shown.push(def.ts_type.repr.clone()),
            other => panic!("not a type alias: {:?}", other),
        }
    }
    assert_eq!(
        shown,
        vec![
            "{ readonly [K in keyof T]?: T[K] }",
            "",
            "`prefix-${string}`",
            "10n",
            "import(\"./mod\").Thing<string>",
            "",
        ]
    );
    assert_eq!(entries[15].snippet, "export let a = 1, b: string = \"two\";");
    assert_eq!(entries[16].kind(), DocNodeKind::Variable);
    let lines = printer.print(entries);
    assert_eq!(lines[0], "function over(a: string): string");
    assert!(lines.contains(&"type Guard".to_string()));
    assert!(lines.contains(&"namespace Deep".to_string()));
    assert!(lines.contains(&"  namespace Deeper".to_string()));
    assert!(lines.contains(&"    namespace Deepest".to_string()));
    assert!(lines.contains(&"      const value: number".to_string()));
    assert!(lines.contains(&"namespace quoted-module".to_string()));
    assert!(lines.contains(&"  type Inside".to_string()));
}

fn class_snippet(source_code: &str) -> String {
    let entries = parse("test.ts", source_code);
    assert_eq!(entries.len(), 1);
    assert_eq!(entries[0].kind(), DocNodeKind::Class);
    entries[0].snippet.clone()
}

#[test]
fn class_without_members_has_its_body_elided() {
    let entries = parse("test.ts", "export class A {}");
    assert_eq!(entries.len(), 1);
    assert_eq!(entries[0].name, "A");
    assert_eq!(entries[0].snippet, "export class A");
    match &entries[0].def {
        DocNodeDef::Class(def) => {
            assert!(def.constructors.is_empty());
            assert!(def.properties.is_empty());
            assert!(def.methods.is_empty());
        }
        other => panic!("not a class: {:?}", other),
    }
    assert_eq!(class_snippet("export class A{}"), "export class A");
    assert_eq!(class_snippet("export class A\n{\n}\n"), "export class A");
    assert_eq!(class_snippet("export class A { ; }"), "export class A");
    assert_eq!(class_snippet("export abstract class A<T> { }"), "export abstract class A<T>");
}

#[test]
fn class_signature_ends_where_the_body_opens() {
    assert_eq!(
        class_snippet("export class A {\n  /** about x */\n  x: number = 1;\n}"),
        "export class A"
    );
    assert_eq!(
        class_snippet("export class A extends B<{ x: number }> implements C<{}>, D { m() {} }"),
        "export class A extends B<{ x: number }> implements C<{}>, D"
    );
    assert_eq!(
        class_snippet("export class A extends mixin({ a: 1 }) { static { A.n = 0; } }"),
        "export class A extends mixin({ a: 1 })"
    );
    assert_eq!(
        class_snippet("export class A<T extends { k: string } = {}> {\n  #p = {};\n}"),
        "export class A<T extends { k: string } = {}>"
    );
    assert_eq!(
        class_snippet("export class A /* { not yet */ // nor { here\n  { x = 1 }"),
        "export class A /* { not yet */ // nor { here"
    );
}
