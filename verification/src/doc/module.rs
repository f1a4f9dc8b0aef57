//! Module bodies: exported declarations, namespaces and named exports.

use crate::doc::ast::{Decl, ExportDecl, ExportSpecifier, ModuleItem, NamedExport, ParsedFile};
use crate::doc::class::{class_decl_doc, get_doc_for_class_decl};
use crate::doc::function::{fn_decl_doc, get_doc_for_fn_decl};
use crate::doc::interface::{get_doc_for_ts_interface_decl, interface_decl_doc};
use crate::doc::namespace::{get_doc_for_ts_module, module_decl_doc};
use crate::doc::node::{node_views, DocNode, DocNodeView};
use crate::doc::parser::{doc_margin, js_doc_text, DocParser};
use crate::doc::source::Span;
use crate::doc::ts_enum::{enum_decl_doc, get_doc_for_ts_enum_decl};
use crate::doc::type_alias::{get_doc_for_ts_type_alias_decl, type_alias_decl_doc};
use crate::doc::variable::{get_doc_for_var_decl, var_decl_doc};
use crate::doc::well_formed::{lemma_export_decl_doc_wf, lemma_file_docs_wf, nodes_wf};
use crate::lookup::{nodes_named, nodes_not_named, take_named};
use crate::text::{concat_all, views_of};
use vstd::prelude::*;

verus! {

impl Decl {
    /// Whether the declaration fits the range `outer` of a text of `len`
    /// characters.
    pub open spec fn fits(self, outer: Span, len: nat) -> bool
        decreases self,
    {
        match self {
            Decl::Class(decl) => decl.fits(outer, len),
            Decl::Fn(decl) => decl.fits(outer, len),
            Decl::Var(decl) => decl.fits(outer, len),
            Decl::TsInterface(decl) => decl.fits(outer, len),
            Decl::TsTypeAlias(decl) => decl.fits(outer, len),
            Decl::TsEnum(_) => outer.within(len),
            Decl::TsModule(decl) => decl.fits(outer, len),
        }
    }
}

impl ExportDecl {
    /// Whether the exported declaration fits a text of `len` characters.
    pub open spec fn fits(self, len: nat) -> bool
        decreases self,
    {
        self.decl.fits(self.span, len)
    }
}

impl NamedExport {
    /// Whether the file that the export names, where it names one, is well
    /// formed.
    pub open spec fn wf(self) -> bool
        decreases self,
    {
        match self.file {
            Some(file) => file.wf(),
            None => true,
        }
    }
}

impl ModuleItem {
    /// Whether the item fits a text of `len` characters.
    pub open spec fn fits(self, len: nat) -> bool
        decreases self,
    {
        match self {
            ModuleItem::ExportDecl(export) => export.fits(len),
            ModuleItem::ExportNamed(export) => export.wf(),
            ModuleItem::Other => true,
        }
    }
}

impl ParsedFile {
    /// Whether the file is well formed: every range in its syntax tree lies
    /// within its text, bodies and members within what they belong to.
    pub open spec fn wf(self) -> bool
        decreases self,
    {
        forall|i: int|
            0 <= i < self.body.len() ==> (#[trigger] self.body[i]).fits(self.parser.text().len())
    }
}

/// Whether each item fits a text of `len` characters.
pub open spec fn items_fit(items: Seq<ModuleItem>, len: nat) -> bool {
    forall|i: int| 0 <= i < items.len() ==> (#[trigger] items[i]).fits(len)
}

/// The names that a named export names, in the order listed. A namespace
/// export and a default export name none.
pub open spec fn reexported_names(specifiers: Seq<ExportSpecifier>) -> Seq<Seq<char>>
    decreases specifiers.len(),
{
    if specifiers.len() == 0 {
        Seq::empty()
    } else {
        let before = reexported_names(specifiers.drop_last());
        match specifiers.last() {
            ExportSpecifier::Named(orig) => before.push(orig@),
            _ => before,
        }
    }
}

/// The nodes of `nodes` that bear one of `names`: for each name in its
/// order, the nodes that bear it, in their order. No node is taken twice.
pub open spec fn select_named(names: Seq<Seq<char>>, nodes: Seq<DocNodeView>) -> Seq<DocNodeView>
    decreases names.len(),
{
    if names.len() == 0 {
        Seq::empty()
    } else {
        nodes_named(nodes, names[0]) + select_named(
            names.drop_first(),
            nodes_not_named(nodes, names[0]),
        )
    }
}

/// The documentation of the exported declaration `export`.
pub open spec fn export_decl_doc(parser: &DocParser, export: ExportDecl) -> DocNodeView
    decreases export,
{
    match export.decl {
        Decl::Class(decl) => class_decl_doc(parser, export.span, decl),
        Decl::Fn(decl) => fn_decl_doc(parser, export.span, decl),
        Decl::Var(decl) => var_decl_doc(parser, export.span, decl),
        Decl::TsInterface(decl) => interface_decl_doc(parser, export.span, decl),
        Decl::TsTypeAlias(decl) => type_alias_decl_doc(parser, export.span, decl),
        Decl::TsEnum(decl) => enum_decl_doc(parser, export.span, decl),
        Decl::TsModule(decl) => module_decl_doc(parser, export.span, decl),
    }
}

/// The documentation of one item of a module body: the node of an exported
/// declaration, the nodes that a named export selects, or nothing.
pub open spec fn module_item_docs(parser: &DocParser, item: ModuleItem) -> Seq<DocNodeView>
    decreases item,
{
    match item {
        ModuleItem::ExportDecl(export) => seq![export_decl_doc(parser, export)],
        ModuleItem::ExportNamed(export) => named_export_docs(export),
        ModuleItem::Other => Seq::empty(),
    }
}

/// The documentation of each item of a module body, in their order.
pub open spec fn module_items_docs(parser: &DocParser, items: Vec<ModuleItem>) -> Seq<
    Seq<DocNodeView>,
>
    decreases items,
{
    Seq::new(
        items.len() as nat,
        |i: int|
            if 0 <= i < items.len() {
                module_item_docs(parser, items[i])
            } else {
                Seq::empty()
            },
    )
}

/// The documentation of a module body: that of its items, in their order.
pub open spec fn module_body_docs(parser: &DocParser, items: Vec<ModuleItem>) -> Seq<DocNodeView> {
    concat_all(module_items_docs(parser, items))
}

/// The documentation that a named export selects from the file that it
/// names: of the nodes of that file, those that bear a name that the export
/// lists, in the order in which it lists the names. An export that names no
/// file selects nothing.
pub open spec fn named_export_docs(export: NamedExport) -> Seq<DocNodeView>
    decreases export,
{
    match export.file {
        Some(file) => select_named(reexported_names(export.specifiers@), file_docs(*file)),
        None => Seq::empty(),
    }
}

/// The documentation of a file: that of its module body.
pub open spec fn file_docs(file: ParsedFile) -> Seq<DocNodeView>
    decreases file,
{
    concat_all(module_items_docs(&file.parser, file.body))
}

/// The names that a named export names, in the order listed.
pub fn names_of(specifiers: &Vec<ExportSpecifier>) -> (names: Vec<String>)
    ensures
        views_of(names@) == reexported_names(specifiers@),
{
    let mut names: Vec<String> = Vec::new();
    let mut i: usize = 0;
    proof {
        assert(specifiers@.take(0) =~= Seq::<ExportSpecifier>::empty());
        assert(views_of(names@) =~= Seq::<Seq<char>>::empty());
    }
    while i < specifiers.len()
        invariant
            i <= specifiers.len(),
            views_of(names@) == reexported_names(specifiers@.take(i as int)),
        decreases specifiers.len() - i,
    {
        proof {
            assert(specifiers@.take(i + 1).drop_last() =~= specifiers@.take(i as int));
            assert(specifiers@.take(i + 1).last() == specifiers@[i as int]);
        }
        match &specifiers[i] {
            ExportSpecifier::Named(orig) => {
                let name = orig.clone();
                proof {
                    assert(views_of(names@.push(name)) =~= views_of(names@).push(name@));
                }
                names.push(name);
            },
            _ => {},
        }
        i = i + 1;
    }
    proof {
        assert(specifiers@.take(specifiers.len() as int) =~= specifiers@);
    }
    names
}

/// The nodes of `nodes` that bear one of `names`, by the order of the names.
pub fn select_nodes(names: &Vec<String>, nodes: Vec<DocNode>) -> (selected: Vec<DocNode>)
    ensures
        node_views(selected@) == select_named(views_of(names@), node_views(nodes@)),
{
    let mut selected: Vec<DocNode> = Vec::new();
    let mut rest = nodes;
    let mut i: usize = 0;
    proof {
        assert(views_of(names@).skip(0) =~= views_of(names@));
        assert(node_views(selected@) =~= Seq::<DocNodeView>::empty());
    }
    while i < names.len()
        invariant
            i <= names.len(),
            select_named(views_of(names@), node_views(nodes@)) == node_views(selected@)
                + select_named(views_of(names@).skip(i as int), node_views(rest@)),
        decreases names.len() - i,
    {
        let ghost remaining = views_of(names@).skip(i as int);
        let ghost before = node_views(selected@);
        let (mut named, others) = take_named(rest, &names[i]);
        proof {
            assert(remaining[0] == names@[i as int]@);
            assert(remaining.drop_first() =~= views_of(names@).skip(i + 1));
        }
        let ghost found = node_views(named@);
        selected.append(&mut named);
        proof {
            assert(node_views(selected@) =~= before + found);
            assert((before + found) + select_named(
                views_of(names@).skip(i + 1),
                node_views(others@),
            ) =~= before + (found + select_named(
                views_of(names@).skip(i + 1),
                node_views(others@),
            )));
        }
        rest = others;
        i = i + 1;
    }
    selected
}

/// The documentation of an exported declaration.
pub fn get_doc_node_for_export_decl(doc_parser: &DocParser, export_decl: &ExportDecl) -> (node:
    DocNode)
    requires
        export_decl.fits(doc_parser.text().len()),
    ensures
        node@ == export_decl_doc(doc_parser, *export_decl),
        node@.wf(),
    decreases export_decl,
{
    proof {
        lemma_export_decl_doc_wf(doc_parser, *export_decl);
    }
    let export_span = export_decl.span;
    match &export_decl.decl {
        Decl::Class(class_decl) => get_doc_for_class_decl(doc_parser, export_span, class_decl),
        Decl::Fn(fn_decl) => get_doc_for_fn_decl(doc_parser, export_span, fn_decl),
        Decl::Var(var_decl) => get_doc_for_var_decl(doc_parser, export_span, var_decl),
        Decl::TsInterface(ts_interface_decl) => get_doc_for_ts_interface_decl(
            doc_parser,
            export_span,
            ts_interface_decl,
        ),
        Decl::TsTypeAlias(ts_type_alias) => get_doc_for_ts_type_alias_decl(
            doc_parser,
            export_span,
            ts_type_alias,
        ),
        Decl::TsEnum(ts_enum) => get_doc_for_ts_enum_decl(doc_parser, export_span, ts_enum),
        Decl::TsModule(ts_module) => get_doc_for_ts_module(doc_parser, export_span, ts_module),
    }
}

/// The documentation of a module body: one node for each exported
/// declaration, and for each named export the nodes that it selects.
pub fn get_doc_nodes_for_module_body(
    doc_parser: &DocParser,
    module_body: &Vec<ModuleItem>,
) -> (nodes: Vec<DocNode>)
    requires
        items_fit(module_body@, doc_parser.text().len()),
    ensures
        node_views(nodes@) == module_body_docs(doc_parser, *module_body),
    decreases module_body,
{
    let mut doc_entries: Vec<DocNode> = Vec::new();
    let mut i: usize = 0;
    let ghost parts = Seq::new(
        module_body.len() as nat,
        |k: int|
            if 0 <= k < module_body.len() {
                module_item_docs(doc_parser, module_body[k])
            } else {
                Seq::empty()
            },
    );
    proof {
        assert(parts.take(0) =~= Seq::<Seq<DocNodeView>>::empty());
        assert(node_views(doc_entries@) =~= Seq::<DocNodeView>::empty());
    }
    while i < module_body.len()
        invariant
            i <= module_body.len(),
            items_fit(module_body@, doc_parser.text().len()),
            parts.len() == module_body.len(),
            forall|k: int|
                0 <= k < module_body.len() ==> #[trigger] parts[k] == module_item_docs(
                    doc_parser,
                    module_body[k],
                ),
            node_views(doc_entries@) == concat_all(parts.take(i as int)),
        decreases module_body.len() - i,
    {
        let ghost before = node_views(doc_entries@);
        proof {
            assert(parts.take(i + 1).drop_last() =~= parts.take(i as int));
            assert(parts.take(i + 1).last() == parts[i as int]);
            assert(module_body@[i as int].fits(doc_parser.text().len()));
        }
        match &module_body[i] {
            ModuleItem::ExportNamed(named_export) => {
                let mut selected = get_doc_nodes_for_named_export(named_export);
                let ghost found = node_views(selected@);
                doc_entries.append(&mut selected);
                proof {
                    assert(node_views(doc_entries@) =~= before + found);
                }
            },
            ModuleItem::ExportDecl(export_decl) => {
                let node = get_doc_node_for_export_decl(doc_parser, export_decl);
                proof {
                    assert(node_views(doc_entries@.push(node)) =~= before + seq![node@]);
                }
                doc_entries.push(node);
            },
            ModuleItem::Other => {
                proof {
                    assert(before + Seq::<DocNodeView>::empty() =~= before);
                }
            },
        }
        i = i + 1;
    }
    proof {
        assert(parts.take(module_body.len() as int) =~= parts);
        assert(parts =~= module_items_docs(doc_parser, *module_body));
    }
    doc_entries
}

/// The documentation that a named export selects from the file that it
/// names.
pub fn get_doc_nodes_for_named_export(named_export: &NamedExport) -> (nodes: Vec<DocNode>)
    requires
        named_export.wf(),
    ensures
        node_views(nodes@) == named_export_docs(*named_export),
    decreases named_export,
{
    match &named_export.file {
        Some(file) => {
            let doc_nodes = get_docs(file);
            let reexports = names_of(&named_export.specifiers);
            select_nodes(&reexports, doc_nodes)
        },
        None => {
            let nodes: Vec<DocNode> = Vec::new();
            proof {
                assert(node_views(nodes@) =~= Seq::<DocNodeView>::empty());
            }
            nodes
        },
    }
}

/// The documentation of a file: one node for each exported declaration of
/// its module body, in the order declared, and for each named export the
/// nodes that it selects.
pub fn get_docs(file: &ParsedFile) -> (nodes: Vec<DocNode>)
    requires
        file.wf(),
    ensures
        node_views(nodes@) == file_docs(*file),
        nodes_wf(node_views(nodes@)),
    decreases file,
{
    proof {
        lemma_file_docs_wf(*file);
    }
    get_doc_nodes_for_module_body(&file.parser, &file.body)
}

/// Taking the nodes of one name out of a list leaves the nodes of any
/// other name as they were.
pub proof fn lemma_named_after_not_named(nodes: Seq<DocNodeView>, a: Seq<char>, b: Seq<char>)
    requires
        a != b,
    ensures
        nodes_named(nodes_not_named(nodes, a), b) == nodes_named(nodes, b),
    decreases nodes.len(),
{
    if nodes.len() > 0 {
        lemma_named_after_not_named(nodes.drop_last(), a, b);
        if nodes.last().name != a {
            let kept = nodes_not_named(nodes.drop_last(), a);
            assert(kept.push(nodes.last()).drop_last() =~= kept);
        }
    }
}

/// A named export orders what it selects by its own list, not by the file:
/// the nodes of the name that it lists first come before those of the name
/// that it lists second, wherever they stand in the file.
pub proof fn lemma_select_follows_names(nodes: Seq<DocNodeView>, a: Seq<char>, b: Seq<char>)
    requires
        a != b,
    ensures
        select_named(seq![a, b], nodes) == nodes_named(nodes, a) + nodes_named(nodes, b),
{
    let names = seq![a, b];
    let rest = nodes_not_named(nodes, a);
    assert(names.drop_first() =~= seq![b]);
    assert(seq![b].drop_first() =~= Seq::<Seq<char>>::empty());
    assert(select_named(seq![b], rest) =~= nodes_named(rest, b)) by {
        assert(select_named(seq![b].drop_first(), nodes_not_named(rest, b))
            =~= Seq::<DocNodeView>::empty());
    }
    lemma_named_after_not_named(nodes, a, b);
}

/// A declaration that a documentation comment leads up to is documented by
/// it: the text of the node is the text of the comment, without the margin
/// marker of each line, without the indentation of the file, and without
/// the white space around it.
pub proof fn lemma_doc_comment_documents(parser: &DocParser, export: ExportDecl, comment: Seq<char>)
    requires
        parser.comments.doc_comment_at(export.span.lo) == Some(comment),
    ensures
        export_decl_doc(parser, export).js_doc == Some(
            js_doc_text(comment, doc_margin(parser.text(), export.span)),
        ),
{
}

/// A declaration that no documentation comment leads up to has no
/// documentation text.
pub proof fn lemma_no_doc_comment(parser: &DocParser, export: ExportDecl)
    requires
        parser.comments.doc_comment_at(export.span.lo) is None,
    ensures
        export_decl_doc(parser, export).js_doc is None,
{
}

} // verus!
