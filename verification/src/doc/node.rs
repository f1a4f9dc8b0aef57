//! Documentation nodes.

use crate::doc::class::{ClassDef, ClassDefView};
use crate::doc::function::{FunctionDef, FunctionDefView};
use crate::doc::interface::{InterfaceDef, InterfaceDefView};
use crate::doc::source::{Location, LocationView};
use crate::doc::ts_enum::{EnumDef, EnumDefView};
use crate::doc::ts_type::TypeExpr;
use crate::doc::type_alias::TypeAliasDef;
use crate::doc::variable::{VariableDef, VariableDefView};
use vstd::prelude::*;

verus! {

/// The kinds of declarations that are documented.
#[derive(Clone, Copy, Debug, PartialEq, Eq, Structural)]
pub enum DocNodeKind {
    Function,
    Variable,
    Class,
    Enum,
    Interface,
    TypeAlias,
    Namespace,
}

/// What a namespace holds: the documentation of its exported declarations.
#[derive(Debug)]
pub struct NamespaceDef {
    pub elements: Vec<DocNode>,
}

/// What is documented of a declaration beyond its name, by its kind.
#[derive(Debug)]
pub enum DocNodeDef {
    Function(FunctionDef),
    Variable(VariableDef),
    Class(ClassDef),
    Enum(EnumDef),
    Interface(InterfaceDef),
    TypeAlias(TypeAliasDef),
    Namespace(NamespaceDef),
}

/// The documentation of one declaration.
#[derive(Debug)]
pub struct DocNode {
    pub name: String,
    pub snippet: String,
    pub location: Location,
    pub js_doc: Option<String>,
    pub def: DocNodeDef,
}

/// The view of a [`DocNodeDef`].
pub ghost enum DocDefView {
    Function(FunctionDefView),
    Variable(VariableDefView),
    Class(ClassDefView),
    Enum(EnumDefView),
    Interface(InterfaceDefView),
    TypeAlias(TypeExpr),
    Namespace(Seq<DocNodeView>),
}

/// The view of a [`DocNode`].
pub ghost struct DocNodeView {
    pub name: Seq<char>,
    pub snippet: Seq<char>,
    pub location: LocationView,
    pub js_doc: Option<Seq<char>>,
    pub def: DocDefView,
}

/// The view of a documentation node.
pub open spec fn node_view(node: DocNode) -> DocNodeView
    decreases node,
{
    DocNodeView {
        name: node.name@,
        snippet: node.snippet@,
        location: node.location@,
        js_doc: node.js_doc.deep_view(),
        def: match node.def {
            DocNodeDef::Function(def) => DocDefView::Function(def@),
            DocNodeDef::Variable(def) => DocDefView::Variable(def@),
            DocNodeDef::Class(def) => DocDefView::Class(def@),
            DocNodeDef::Enum(def) => DocDefView::Enum(def@),
            DocNodeDef::Interface(def) => DocDefView::Interface(def@),
            DocNodeDef::TypeAlias(def) => DocDefView::TypeAlias(def.ts_type@),
            DocNodeDef::Namespace(def) => DocDefView::Namespace(
                Seq::new(
                    def.elements.len() as nat,
                    |i: int|
                        if 0 <= i < def.elements.len() {
                            node_view(def.elements[i])
                        } else {
                            arbitrary()
                        },
                ),
            ),
        },
    }
}

impl View for DocNode {
    type V = DocNodeView;

    open spec fn view(&self) -> DocNodeView {
        node_view(*self)
    }
}

/// The views of the nodes of `nodes`, in order.
pub open spec fn node_views(nodes: Seq<DocNode>) -> Seq<DocNodeView> {
    nodes.map_values(|node: DocNode| node@)
}

impl DocDefView {
    /// The kind of declaration that this is the documentation of.
    pub open spec fn kind(self) -> DocNodeKind {
        match self {
            DocDefView::Function(_) => DocNodeKind::Function,
            DocDefView::Variable(_) => DocNodeKind::Variable,
            DocDefView::Class(_) => DocNodeKind::Class,
            DocDefView::Enum(_) => DocNodeKind::Enum,
            DocDefView::Interface(_) => DocNodeKind::Interface,
            DocDefView::TypeAlias(_) => DocNodeKind::TypeAlias,
            DocDefView::Namespace(_) => DocNodeKind::Namespace,
        }
    }
}

impl DocNode {
    /// The kind of declaration that the node documents.
    pub fn kind(&self) -> (kind: DocNodeKind)
        ensures
            kind == self@.def.kind(),
    {
        match &self.def {
            DocNodeDef::Function(_) => DocNodeKind::Function,
            DocNodeDef::Variable(_) => DocNodeKind::Variable,
            DocNodeDef::Class(_) => DocNodeKind::Class,
            DocNodeDef::Enum(_) => DocNodeKind::Enum,
            DocNodeDef::Interface(_) => DocNodeKind::Interface,
            DocNodeDef::TypeAlias(_) => DocNodeKind::TypeAlias,
            DocNodeDef::Namespace(_) => DocNodeKind::Namespace,
        }
    }
}

} // verus!
