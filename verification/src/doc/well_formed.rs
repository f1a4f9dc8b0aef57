//! The invariant of documentation nodes: every type expression in a node is
//! well formed, and the extraction gives no other nodes.

use crate::doc::ast::{
    ClassMember, Decl, ExportDecl, Function, ModuleItem, NamedExport, ParamOrTsParamProp,
    ParsedFile, Pat, TsFnParam, TsModuleDecl, TsNamespaceBody, TsNamespaceDecl, TsTypeAnn,
    TsTypeElement,
};
use crate::doc::class::{
    class_def_of, constructor_doc, constructors_of, ctor_param_of, method_doc, methods_of,
    properties_of, property_doc, ClassDefView,
};
use crate::doc::function::{function_def_of, pat_param_of, pat_params_of, FunctionDefView};
use crate::doc::interface::{
    call_signature_doc, call_signatures_of, method_signature_doc, method_signatures_of,
    property_signature_doc, property_signatures_of, InterfaceDefView,
};
use crate::doc::module::{
    export_decl_doc, file_docs, module_item_docs, module_items_docs, named_export_docs,
    reexported_names, select_named,
};
use crate::doc::namespace::{module_decl_doc, namespace_body_docs, namespace_decl_doc};
use crate::doc::node::{DocDefView, DocNodeView};
use crate::doc::parser::DocParser;
use crate::doc::source::Span;
use crate::doc::ts_type::{
    lemma_type_ann_expr_wf, lemma_type_expr_wf, opt_type_ann_expr, signature_param_of,
    signature_params_of, Param, TypeExpr,
};
use crate::lookup::{nodes_named, nodes_not_named};
use crate::text::concat_all;
use vstd::prelude::*;

verus! {

/// Whether the type expression, where there is one, is well formed.
pub open spec fn opt_type_wf(t: Option<TypeExpr>) -> bool {
    match t {
        Some(t) => t.wf(),
        None => true,
    }
}

/// Whether each of the parameters is well formed.
pub open spec fn params_wf(params: Seq<Param>) -> bool {
    forall|i: int| 0 <= i < params.len() ==> (#[trigger] params[i]).wf()
}

impl FunctionDefView {
    /// Whether the types of the parameters and the return type are well
    /// formed.
    pub open spec fn wf(self) -> bool {
        params_wf(self.params) && opt_type_wf(self.return_type)
    }
}

impl ClassDefView {
    /// Whether the types in the members are well formed.
    pub open spec fn wf(self) -> bool {
        &&& forall|i: int|
            0 <= i < self.constructors.len() ==> params_wf((#[trigger] self.constructors[i]).params)
        &&& forall|i: int|
            0 <= i < self.properties.len() ==> opt_type_wf((#[trigger] self.properties[i]).ts_type)
        &&& forall|i: int|
            0 <= i < self.methods.len() ==> (#[trigger] self.methods[i]).function_def.wf()
    }
}

impl InterfaceDefView {
    /// Whether the types in the members are well formed.
    pub open spec fn wf(self) -> bool {
        &&& forall|i: int|
            0 <= i < self.methods.len() ==> {
                &&& params_wf((#[trigger] self.methods[i]).params)
                &&& opt_type_wf(self.methods[i].return_type)
            }
        &&& forall|i: int|
            0 <= i < self.properties.len() ==> {
                &&& params_wf((#[trigger] self.properties[i]).params)
                &&& opt_type_wf(self.properties[i].ts_type)
            }
        &&& forall|i: int|
            0 <= i < self.call_signatures.len() ==> {
                &&& params_wf((#[trigger] self.call_signatures[i]).params)
                &&& opt_type_wf(self.call_signatures[i].ts_type)
            }
    }
}

impl DocNodeView {
    /// The invariant of a documentation node: every type expression in it,
    /// and in the nodes that it holds, is well formed.
    pub open spec fn wf(self) -> bool
        decreases self,
    {
        match self.def {
            DocDefView::Function(def) => def.wf(),
            DocDefView::Variable(def) => opt_type_wf(def.ts_type),
            DocDefView::Class(def) => def.wf(),
            DocDefView::Enum(_) => true,
            DocDefView::Interface(def) => def.wf(),
            DocDefView::TypeAlias(ts_type) => ts_type.wf(),
            DocDefView::Namespace(elements) => forall|i: int|
                0 <= i < elements.len() ==> (#[trigger] elements[i]).wf(),
        }
    }
}

/// Whether each of the nodes is well formed.
pub open spec fn nodes_wf(nodes: Seq<DocNodeView>) -> bool {
    forall|i: int| 0 <= i < nodes.len() ==> (#[trigger] nodes[i]).wf()
}

/// The model of an annotation, where there is one, is well formed.
pub proof fn lemma_opt_type_ann_wf(text: Seq<char>, ann: Option<TsTypeAnn>)
    ensures
        opt_type_wf(opt_type_ann_expr(text, ann)),
{
    if let Some(ann) = ann {
        lemma_type_ann_expr_wf(text, ann);
    }
}

/// The model of a parameter that is written as a pattern is well formed.
pub proof fn lemma_pat_param_wf(text: Seq<char>, p: Pat)
    ensures
        pat_param_of(text, p).wf(),
{
    if let Pat::Ident(binding) = p {
        lemma_opt_type_ann_wf(text, binding.type_ann);
    }
}

/// The model of a parameter of a signature is well formed.
pub proof fn lemma_signature_params_wf(text: Seq<char>, params: Seq<TsFnParam>)
    ensures
        params_wf(signature_params_of(text, params)),
{
    let models = signature_params_of(text, params);
    assert forall|i: int| 0 <= i < models.len() implies (#[trigger] models[i]).wf() by {
        assert(models[i] == signature_param_of(text, params[i]));
        if let TsFnParam::Ident(binding) = params[i] {
            lemma_opt_type_ann_wf(text, binding.type_ann);
        }
    }
}

/// What is documented of a function is well formed.
pub proof fn lemma_function_def_wf(text: Seq<char>, f: Function)
    ensures
        function_def_of(text, f).wf(),
{
    let models = pat_params_of(text, f.params@);
    assert forall|i: int| 0 <= i < models.len() implies (#[trigger] models[i]).wf() by {
        lemma_pat_param_wf(text, f.params@[i]);
    }
    lemma_opt_type_ann_wf(text, f.return_type);
}

/// What is documented of a class is well formed.
pub proof fn lemma_class_members_wf(parser: &DocParser, members: Seq<ClassMember>)
    ensures
        forall|i: int|
            0 <= i < constructors_of(parser, members).len() ==> params_wf(
                (#[trigger] constructors_of(parser, members)[i]).params,
            ),
        forall|i: int|
            0 <= i < properties_of(parser, members).len() ==> opt_type_wf(
                (#[trigger] properties_of(parser, members)[i]).ts_type,
            ),
        forall|i: int|
            0 <= i < methods_of(parser, members).len() ==> (#[trigger] methods_of(
                parser,
                members,
            )[i]).function_def.wf(),
    decreases members.len(),
{
    if members.len() > 0 {
        lemma_class_members_wf(parser, members.drop_last());
        match members.last() {
            ClassMember::Constructor(ctor) => {
                let models = constructor_doc(parser, ctor).params;
                assert forall|i: int| 0 <= i < models.len() implies (#[trigger] models[i]).wf() by {
                    assert(models[i] == ctor_param_of(parser.text(), ctor.params@[i]));
                    if let ParamOrTsParamProp::Param(pat) = ctor.params@[i] {
                        lemma_pat_param_wf(parser.text(), pat);
                    }
                }
            },
            ClassMember::Method(method) => {
                lemma_function_def_wf(parser.text(), method.function);
                assert(method_doc(parser, method).function_def.wf());
            },
            ClassMember::ClassProp(prop) => {
                lemma_opt_type_ann_wf(parser.text(), prop.type_ann);
                assert(opt_type_wf(property_doc(parser, prop).ts_type));
            },
            ClassMember::Other(_) => {},
        }
    }
}

/// What is documented of the members of an interface is well formed.
pub proof fn lemma_interface_members_wf(parser: &DocParser, elements: Seq<TsTypeElement>)
    ensures
        (InterfaceDefView {
            methods: method_signatures_of(parser, elements),
            properties: property_signatures_of(parser, elements),
            call_signatures: call_signatures_of(parser, elements),
        }).wf(),
    decreases elements.len(),
{
    if elements.len() > 0 {
        lemma_interface_members_wf(parser, elements.drop_last());
        match elements.last() {
            TsTypeElement::TsMethodSignature(sig) => {
                lemma_signature_params_wf(parser.text(), sig.params@);
                lemma_opt_type_ann_wf(parser.text(), sig.type_ann);
                assert(params_wf(method_signature_doc(parser, sig).params));
            },
            TsTypeElement::TsPropertySignature(sig) => {
                lemma_signature_params_wf(parser.text(), sig.params@);
                lemma_opt_type_ann_wf(parser.text(), sig.type_ann);
                assert(params_wf(property_signature_doc(parser, sig).params));
            },
            TsTypeElement::TsCallSignatureDecl(sig) => {
                lemma_signature_params_wf(parser.text(), sig.params@);
                lemma_opt_type_ann_wf(parser.text(), sig.type_ann);
                assert(params_wf(call_signature_doc(parser, sig).params));
            },
            TsTypeElement::Other => {},
        }
    }
}

/// The nodes that bear a name, and those that do not, are well formed where
/// all nodes are.
pub proof fn lemma_named_wf(nodes: Seq<DocNodeView>, name: Seq<char>)
    requires
        nodes_wf(nodes),
    ensures
        nodes_wf(nodes_named(nodes, name)),
        nodes_wf(nodes_not_named(nodes, name)),
    decreases nodes.len(),
{
    if nodes.len() > 0 {
        assert(nodes_wf(nodes.drop_last())) by {
            assert forall|i: int| 0 <= i < nodes.drop_last().len() implies (
            #[trigger] nodes.drop_last()[i]).wf() by {
                assert(nodes.drop_last()[i] == nodes[i]);
            }
        }
        lemma_named_wf(nodes.drop_last(), name);
        assert(nodes.last() == nodes[nodes.len() - 1]);
    }
}

/// What a list of names selects from well formed nodes is well formed.
pub proof fn lemma_select_wf(names: Seq<Seq<char>>, nodes: Seq<DocNodeView>)
    requires
        nodes_wf(nodes),
    ensures
        nodes_wf(select_named(names, nodes)),
    decreases names.len(),
{
    if names.len() > 0 {
        lemma_named_wf(nodes, names[0]);
        lemma_select_wf(names.drop_first(), nodes_not_named(nodes, names[0]));
    }
}

/// Sequences of well formed nodes, put one after the other, are well formed
/// nodes.
pub proof fn lemma_concat_wf(parts: Seq<Seq<DocNodeView>>)
    requires
        forall|i: int| 0 <= i < parts.len() ==> nodes_wf(#[trigger] parts[i]),
    ensures
        nodes_wf(concat_all(parts)),
    decreases parts.len(),
{
    if parts.len() > 0 {
        assert forall|i: int| 0 <= i < parts.drop_last().len() implies nodes_wf(
            #[trigger] parts.drop_last()[i],
        ) by {
            assert(parts.drop_last()[i] == parts[i]);
        }
        lemma_concat_wf(parts.drop_last());
        assert(nodes_wf(parts.last())) by {
            assert(parts.last() == parts[parts.len() - 1]);
        }
    }
}

/// The documentation of an exported declaration is well formed.
pub proof fn lemma_export_decl_doc_wf(parser: &DocParser, export: ExportDecl)
    ensures
        export_decl_doc(parser, export).wf(),
    decreases export,
{
    match export.decl {
        Decl::Class(decl) => {
            lemma_class_members_wf(parser, decl.class.body@);
            assert(class_def_of(parser, decl.class).wf());
        },
        Decl::Fn(decl) => {
            lemma_function_def_wf(parser.text(), decl.function);
        },
        Decl::Var(decl) => {
            if let Pat::Ident(binding) = decl.decls@[0].name {
                lemma_opt_type_ann_wf(parser.text(), binding.type_ann);
            }
        },
        Decl::TsInterface(decl) => {
            lemma_interface_members_wf(parser, decl.body@);
        },
        Decl::TsTypeAlias(decl) => {
            lemma_type_expr_wf(parser.text(), decl.type_ann);
        },
        Decl::TsEnum(_) => {},
        Decl::TsModule(decl) => {
            lemma_module_decl_doc_wf(parser, export.span, decl);
        },
    }
}

/// The documentation of a namespace declaration is well formed.
pub proof fn lemma_module_decl_doc_wf(parser: &DocParser, span: Span, decl: TsModuleDecl)
    ensures
        module_decl_doc(parser, span, decl).wf(),
    decreases decl,
{
    if let Some(body) = decl.body {
        lemma_namespace_body_docs_wf(parser, body);
    }
}

/// The documentation of a namespace of a dotted name is well formed.
pub proof fn lemma_namespace_decl_doc_wf(parser: &DocParser, decl: TsNamespaceDecl)
    ensures
        namespace_decl_doc(parser, decl).wf(),
    decreases decl,
{
    lemma_namespace_body_docs_wf(parser, decl.body);
}

/// The documentation of the body of a namespace is well formed.
pub proof fn lemma_namespace_body_docs_wf(parser: &DocParser, body: TsNamespaceBody)
    ensures
        nodes_wf(namespace_body_docs(parser, body)),
    decreases body,
{
    match body {
        TsNamespaceBody::TsModuleBlock(items) => {
            lemma_module_items_docs_wf(parser, items);
        },
        TsNamespaceBody::TsNamespaceDecl(decl) => {
            lemma_namespace_decl_doc_wf(parser, *decl);
        },
    }
}

/// The documentation of the items of a module body is well formed.
pub proof fn lemma_module_items_docs_wf(parser: &DocParser, items: Vec<ModuleItem>)
    ensures
        nodes_wf(concat_all(module_items_docs(parser, items))),
    decreases items,
{
    let parts = module_items_docs(parser, items);
    assert forall|i: int| 0 <= i < parts.len() implies nodes_wf(#[trigger] parts[i]) by {
        assert(parts[i] == module_item_docs(parser, items[i]));
        match items[i] {
            ModuleItem::ExportDecl(export) => {
                lemma_export_decl_doc_wf(parser, export);
            },
            ModuleItem::ExportNamed(export) => {
                lemma_named_export_docs_wf(export);
            },
            ModuleItem::Other => {},
        }
    }
    lemma_concat_wf(parts);
}

/// What a named export selects is well formed.
pub proof fn lemma_named_export_docs_wf(export: NamedExport)
    ensures
        nodes_wf(named_export_docs(export)),
    decreases export,
{
    if let Some(file) = export.file {
        lemma_file_docs_wf(*file);
        lemma_select_wf(reexported_names(export.specifiers@), file_docs(*file));
    }
}

/// The documentation of a file is well formed: every type expression in
/// every node has a shape or a text to display.
pub proof fn lemma_file_docs_wf(file: ParsedFile)
    ensures
        nodes_wf(file_docs(file)),
    decreases file,
{
    lemma_module_items_docs_wf(&file.parser, file.body);
}

} // verus!
