//! Enums.

use crate::doc::ast::{TsEnumDecl, TsEnumMember, TsEnumMemberId};
use crate::doc::node::{DocDefView, DocNode, DocNodeDef, DocNodeView};
use crate::doc::parser::{signature_of, DocParser};
use crate::doc::source::Span;
use vstd::prelude::*;

verus! {

/// A member of an enum.
#[derive(Debug)]
pub struct EnumMemberDef {
    pub name: String,
}

/// What is documented of an enum: its members, in the order declared.
#[derive(Debug)]
pub struct EnumDef {
    pub members: Vec<EnumMemberDef>,
}

/// The view of an [`EnumDef`]: the names of its members, in order.
pub ghost struct EnumDefView {
    pub members: Seq<Seq<char>>,
}

impl View for EnumMemberDef {
    type V = Seq<char>;

    open spec fn view(&self) -> Seq<char> {
        self.name@
    }
}

impl View for EnumDef {
    type V = EnumDefView;

    open spec fn view(&self) -> EnumDefView {
        EnumDefView { members: self.members@.map_values(|m: EnumMemberDef| m@) }
    }
}

/// The name of an enum member.
pub open spec fn member_name(member: TsEnumMember) -> Seq<char> {
    match member.id {
        TsEnumMemberId::Ident(sym) => sym@,
        TsEnumMemberId::Str(value) => value@,
    }
}

/// The documentation of the enum declaration `decl` that the export `span`
/// covers.
pub open spec fn enum_decl_doc(parser: &DocParser, span: Span, decl: TsEnumDecl) -> DocNodeView {
    DocNodeView {
        name: decl.id@,
        snippet: signature_of(parser.text(), span, None),
        location: parser.source.location_of(span),
        js_doc: parser.js_doc_at(span),
        def: DocDefView::Enum(
            EnumDefView { members: decl.members@.map_values(|m: TsEnumMember| member_name(m)) },
        ),
    }
}

/// The documentation of an exported enum declaration.
pub fn get_doc_for_ts_enum_decl(
    doc_parser: &DocParser,
    parent_span: Span,
    enum_decl: &TsEnumDecl,
) -> (node: DocNode)
    requires
        parent_span.within(doc_parser.text().len()),
    ensures
        node@ == enum_decl_doc(doc_parser, parent_span, *enum_decl),
{
    let js_doc = doc_parser.js_doc_for_span(parent_span);
    let snippet = doc_parser.signature(parent_span, &None);
    let mut members: Vec<EnumMemberDef> = Vec::new();
    let ghost name_of = |m: TsEnumMember| member_name(m);
    let ghost view_of = |m: EnumMemberDef| m@;
    let mut i: usize = 0;
    while i < enum_decl.members.len()
        invariant
            i <= enum_decl.members.len(),
            name_of == |m: TsEnumMember| member_name(m),
            view_of == |m: EnumMemberDef| m@,
            members@.map_values(view_of) == enum_decl.members@.take(i as int).map_values(name_of),
        decreases enum_decl.members.len() - i,
    {
        let member_name = match &enum_decl.members[i].id {
            TsEnumMemberId::Ident(sym) => sym.clone(),
            TsEnumMemberId::Str(value) => value.clone(),
        };
        let member_def = EnumMemberDef { name: member_name };
        proof {
            assert(members@.push(member_def).map_values(view_of) =~= members@.map_values(
                view_of,
            ).push(member_def@));
            assert(enum_decl.members@.take(i + 1).map_values(name_of) =~= enum_decl.members@.take(
                i as int,
            ).map_values(name_of).push(member_def@));
        }
        members.push(member_def);
        i = i + 1;
    }
    proof {
        assert(enum_decl.members@.take(enum_decl.members.len() as int) =~= enum_decl.members@);
    }
    let enum_def = EnumDef { members };
    DocNode {
        name: enum_decl.id.clone(),
        snippet,
        location: doc_parser.source.location(parent_span),
        js_doc,
        def: DocNodeDef::Enum(enum_def),
    }
}

} // verus!
