//! The printer for a terminal.

use crate::doc::ast::{TsKeywordTypeKind, TsType, VarDeclKind};
use crate::doc::node::{node_views, DocDefView, DocNode, DocNodeDef, DocNodeView};
use crate::doc::ts_type::{
    keyword_text, opt_type_view, param_views, type_expr_of, type_views, Literal, LiteralDef, Param,
    ParamDef, TsTypeDef, TsTypeDefKind, TypeExpr, TypeExprKind,
};
use crate::lookup::{find_by_path, find_node_by_name_recursively};
use crate::text::{
    concat_all, first_paragraph, join, join_with, leading_paragraph, repeat, repeat_of, split,
    split_on, views_of,
};
use vstd::prelude::*;

verus! {

/// Renders documentation nodes as lines of text.
#[derive(Debug)]
pub struct TerminalPrinter {}

/// The text of a type expression. Each shape is written as the source
/// writes it, from the texts of its parts; a shape that is not modelled is
/// shown by its display text.
pub open spec fn render_type(t: TypeExpr) -> Seq<char>
    decreases t,
{
    match t.kind {
        TypeExprKind::Array(elem) => render_type(*elem) + "[]"@,
        TypeExprKind::Conditional { check_type, extends_type, true_type, false_type } => {
            render_type(*check_type) + " extends "@ + render_type(*extends_type) + " ? "@
                + render_type(*true_type) + " : "@ + render_type(*false_type)
        },
        TypeExprKind::FnOrConstructor { constructor, params, return_type } => {
            (if constructor {
                "new "@
            } else {
                ""@
            }) + "("@ + join_with(render_param_list(params), ", "@) + ") => "@ + render_type(
                *return_type,
            )
        },
        TypeExprKind::IndexedAccess { obj_type, index_type } => {
            render_type(*obj_type) + "["@ + render_type(*index_type) + "]"@
        },
        TypeExprKind::Intersection(members) => join_with(render_type_list(members), " & "@),
        TypeExprKind::Keyword(keyword) => keyword,
        TypeExprKind::Literal(literal) => match literal {
            Literal::Bool(value) => if value {
                "true"@
            } else {
                "false"@
            },
            Literal::Str(value) => value,
            Literal::Number(_) => t.repr,
        },
        TypeExprKind::Optional(inner) => render_type(*inner) + "?"@,
        TypeExprKind::Parenthesized(inner) => "("@ + render_type(*inner) + ")"@,
        TypeExprKind::Rest(inner) => "..."@ + render_type(*inner),
        TypeExprKind::This => "this"@,
        TypeExprKind::Tuple(members) => "["@ + join_with(render_type_list(members), ", "@)
            + "]"@,
        TypeExprKind::Unresolved => t.repr,
        TypeExprKind::TypeOperator { operator, operand } => operator + " "@ + render_type(
            *operand,
        ),
        TypeExprKind::TypeQuery(name) => "typeof "@ + name,
        TypeExprKind::TypeRef { name, type_params } => match type_params {
            Some(params) => name + "<"@ + join_with(render_type_list(params), ", "@) + ">"@,
            None => name,
        },
        TypeExprKind::Union(members) => join_with(render_type_list(members), " | "@),
    }
}

/// The texts of the type expressions of `types`, in order.
pub open spec fn render_type_list(types: Seq<TypeExpr>) -> Seq<Seq<char>>
    decreases types,
{
    Seq::new(
        types.len(),
        |i: int|
            if 0 <= i < types.len() {
                render_type(types[i])
            } else {
                Seq::empty()
            },
    )
}

/// The text of a parameter: its name, and its type after a colon where it
/// has one.
pub open spec fn render_param(p: Param) -> Seq<char>
    decreases p,
{
    match p.ts_type {
        Some(t) => p.name + ": "@ + render_type(t),
        None => p.name,
    }
}

/// The texts of the parameters of `params`, in order.
pub open spec fn render_param_list(params: Seq<Param>) -> Seq<Seq<char>>
    decreases params,
{
    Seq::new(
        params.len(),
        |i: int|
            if 0 <= i < params.len() {
                render_param(params[i])
            } else {
                Seq::empty()
            },
    )
}

/// The text of a parameter list: the texts of the parameters, with a comma
/// and a space between each two.
pub open spec fn render_param_seq(params: Seq<Param>) -> Seq<char> {
    join_with(render_param_list(params), ", "@)
}

/// The keyword that declares a variable of kind `kind`.
pub open spec fn var_kind_text(kind: VarDeclKind) -> Seq<char> {
    match kind {
        VarDeclKind::Const => "const"@,
        VarDeclKind::Let => "let"@,
        VarDeclKind::Var => "var"@,
    }
}

/// A colon, a space and the text of the type, where there is a type.
pub open spec fn type_suffix(t: Option<TypeExpr>) -> Seq<char> {
    match t {
        Some(t) => ": "@ + render_type(t),
        None => Seq::empty(),
    }
}

/// The header of a node: the keyword of its kind and its name; for a
/// function also its parameter list and its return type, for a variable its
/// type.
pub open spec fn header_of(node: DocNodeView) -> Seq<char> {
    match node.def {
        DocDefView::Function(def) => "function "@ + node.name + "("@ + render_param_seq(
            def.params,
        ) + ")"@ + type_suffix(def.return_type),
        DocDefView::Variable(def) => var_kind_text(def.kind) + " "@ + node.name + type_suffix(
            def.ts_type,
        ),
        DocDefView::Class(_) => "class "@ + node.name,
        DocDefView::Enum(_) => "enum "@ + node.name,
        DocDefView::Interface(_) => "interface "@ + node.name,
        DocDefView::TypeAlias(_) => "type "@ + node.name,
        DocDefView::Namespace(_) => "namespace "@ + node.name,
    }
}

/// The line that shows a documentation text: its first paragraph, with a
/// space in place of each line feed.
pub open spec fn js_doc_line(doc: Seq<char>) -> Seq<char> {
    join_with(split_on(first_paragraph(doc), '\n'), " "@)
}

/// One step of indentation.
pub open spec fn indent_unit() -> Seq<char> {
    "  "@
}

/// The lines that show the documentation of a node under its header: one
/// line, indented one step further than the header, or none.
pub open spec fn js_doc_lines(js_doc: Option<Seq<char>>, prefix: Seq<char>) -> Seq<Seq<char>> {
    match js_doc {
        Some(doc) => seq![prefix + indent_unit() + js_doc_line(doc)],
        None => Seq::empty(),
    }
}

/// The lines that show one node, each line of its own after `prefix`: the
/// header, the documentation line where there is one, and an empty line. A
/// namespace goes on with the lines of its elements, one step further in,
/// and one more empty line.
pub open spec fn render_node(node: DocNodeView, prefix: Seq<char>) -> Seq<Seq<char>>
    decreases node,
{
    seq![prefix + header_of(node)] + js_doc_lines(node.js_doc, prefix) + seq![Seq::empty()] + (
    match node.def {
        DocDefView::Namespace(elements) => concat_all(
            render_node_list(elements, prefix + indent_unit()),
        ) + seq![Seq::empty()],
        _ => Seq::empty(),
    })
}

/// The lines that show each node of `nodes`, in order.
pub open spec fn render_node_list(nodes: Seq<DocNodeView>, prefix: Seq<char>) -> Seq<
    Seq<Seq<char>>,
>
    decreases nodes,
{
    Seq::new(
        nodes.len(),
        |i: int|
            if 0 <= i < nodes.len() {
                render_node(nodes[i], prefix)
            } else {
                Seq::empty()
            },
    )
}

/// The lines that show the nodes of `nodes`, one node after the other.
pub open spec fn render_nodes(nodes: Seq<DocNodeView>, prefix: Seq<char>) -> Seq<Seq<char>> {
    concat_all(render_node_list(nodes, prefix))
}

impl TerminalPrinter {
    /// A printer. It holds no state.
    pub fn new() -> (printer: TerminalPrinter)
        ensures
            printer == (TerminalPrinter {  }),
    {
        TerminalPrinter {  }
    }

    /// The texts of the type expressions of `types`, joined by `sep`.
    pub fn render_ts_types(&self, types: Vec<TsTypeDef>, sep: &str) -> (rendered: String)
        ensures
            rendered@ == join_with(
                render_type_list(type_views(types@)),
                sep@,
            ),
        decreases types,
    {
        let ghost all = types;
        let ghost views = type_views(types@);
        let mut parts: Vec<String> = Vec::new();
        proof {
            assert(views_of(parts@) =~= render_type_list(views).take(0));
        }
        for ts_type in iter: types
            invariant
                iter.seq() == all@,
                views == type_views(all@),
                views_of(parts@) == render_type_list(views).take(iter.index() as int),
        {
            proof {
                let i = iter.index() as int;
                assert(ts_type == all[i]);
                assert(decreases_to!(all => all[i]));
            }
            let part = self.render_ts_type(ts_type);
            proof {
                let i = iter.index() as int;
                assert(views[i] == all@[i]@);
                assert(render_type_list(views)[i] == render_type(views[i]));
                assert(views_of(parts@.push(part)) =~= views_of(parts@).push(part@));
                assert(render_type_list(views).take(i + 1) =~= render_type_list(views).take(
                    i,
                ).push(part@));
            }
            parts.push(part);
        }
        proof {
            assert(render_type_list(views).take(all@.len() as int) =~= render_type_list(views));
        }
        join(&parts, sep)
    }

    /// The text of a parameter list.
    pub fn render_params(&self, params: Vec<ParamDef>) -> (rendered: String)
        ensures
            rendered@ == render_param_seq(param_views(params@)),
        decreases params,
    {
        let ghost all = params;
        let ghost views = param_views(params@);
        let mut parts: Vec<String> = Vec::new();
        proof {
            assert(views_of(parts@) =~= render_param_list(views).take(0));
        }
        for param in iter: params
            invariant
                iter.seq() == all@,
                views == param_views(all@),
                views_of(parts@) == render_param_list(views).take(iter.index() as int),
        {
            proof {
                let i = iter.index() as int;
                assert(param == all[i]);
                assert(decreases_to!(all => all[i]));
            }
            let ghost model = param@;
            let mut part = param.name;
            match param.ts_type {
                Some(ts_type) => {
                    part.append(": ");
                    let rendered_type = self.render_ts_type(ts_type);
                    part.append(rendered_type.as_str());
                },
                None => {},
            }
            proof {
                let i = iter.index() as int;
                assert(views[i] == all@[i]@);
                assert(part@ == render_param(model));
                assert(render_param_list(views)[i] == render_param(views[i]));
                assert(views_of(parts@.push(part)) =~= views_of(parts@).push(part@));
                assert(render_param_list(views).take(i + 1) =~= render_param_list(views).take(
                    i,
                ).push(part@));
            }
            parts.push(part);
        }
        proof {
            assert(render_param_list(views).take(all@.len() as int) =~= render_param_list(views));
        }
        join(&parts, ", ")
    }

    /// The text of a type expression.
    pub fn render_ts_type(&self, ts_type: TsTypeDef) -> (rendered: String)
        ensures
            rendered@ == render_type(ts_type@),
        decreases ts_type,
    {
        let ghost view = ts_type@;
        match ts_type.kind {
            TsTypeDefKind::Array(elem) => {
                let mut rendered = self.render_ts_type(*elem);
                rendered.append("[]");
                rendered
            },
            TsTypeDefKind::Conditional(conditional) => {
                let conditional = *conditional;
                let mut rendered = self.render_ts_type(conditional.check_type);
                rendered.append(" extends ");
                let extends_type = self.render_ts_type(conditional.extends_type);
                rendered.append(extends_type.as_str());
                rendered.append(" ? ");
                let true_type = self.render_ts_type(conditional.true_type);
                rendered.append(true_type.as_str());
                rendered.append(" : ");
                let false_type = self.render_ts_type(conditional.false_type);
                rendered.append(false_type.as_str());
                rendered
            },
            TsTypeDefKind::FnOrConstructor(fn_or_constructor) => {
                let fn_or_constructor = *fn_or_constructor;
                let mut rendered = if fn_or_constructor.constructor {
                    String::from_str("new ")
                } else {
                    String::from_str("")
                };
                rendered.append("(");
                proof {
                    assert(view.kind->FnOrConstructor_params =~= param_views(
                        fn_or_constructor.params@,
                    ));
                }
                let params = self.render_params(fn_or_constructor.params);
                rendered.append(params.as_str());
                rendered.append(") => ");
                let return_type = self.render_ts_type(fn_or_constructor.ts_type);
                rendered.append(return_type.as_str());
                rendered
            },
            TsTypeDefKind::IndexedAccess(indexed_access) => {
                let indexed_access = *indexed_access;
                let mut rendered = self.render_ts_type(indexed_access.obj_type);
                rendered.append("[");
                let index_type = self.render_ts_type(indexed_access.index_type);
                rendered.append(index_type.as_str());
                rendered.append("]");
                rendered
            },
            TsTypeDefKind::Intersection(intersection) => {
                proof {
                    assert(view.kind->Intersection_0 =~= type_views(
                        intersection@,
                    ));
                }
                self.render_ts_types(intersection, " & ")
            },
            TsTypeDefKind::Keyword(keyword) => keyword,
            TsTypeDefKind::Literal(literal) => match literal {
                LiteralDef::Bool(value) => if value {
                    String::from_str("true")
                } else {
                    String::from_str("false")
                },
                LiteralDef::Str(value) => value,
                LiteralDef::Number(_) => ts_type.repr,
            },
            TsTypeDefKind::Optional(inner) => {
                let mut rendered = self.render_ts_type(*inner);
                rendered.append("?");
                rendered
            },
            TsTypeDefKind::Parenthesized(inner) => {
                let mut rendered = String::from_str("(");
                let inner = self.render_ts_type(*inner);
                rendered.append(inner.as_str());
                rendered.append(")");
                rendered
            },
            TsTypeDefKind::Rest(inner) => {
                let mut rendered = String::from_str("...");
                let inner = self.render_ts_type(*inner);
                rendered.append(inner.as_str());
                rendered
            },
            TsTypeDefKind::This => String::from_str("this"),
            TsTypeDefKind::Tuple(tuple) => {
                proof {
                    assert(view.kind->Tuple_0 =~= type_views(tuple@));
                }
                let mut rendered = String::from_str("[");
                let members = self.render_ts_types(tuple, ", ");
                rendered.append(members.as_str());
                rendered.append("]");
                rendered
            },
            TsTypeDefKind::Unresolved => ts_type.repr,
            TsTypeDefKind::TypeOperator(operator) => {
                let operator = *operator;
                let mut rendered = operator.operator;
                rendered.append(" ");
                let operand = self.render_ts_type(operator.ts_type);
                rendered.append(operand.as_str());
                rendered
            },
            TsTypeDefKind::TypeQuery(name) => {
                let mut rendered = String::from_str("typeof ");
                rendered.append(name.as_str());
                rendered
            },
            TsTypeDefKind::TypeRef(type_ref) => {
                let mut final_output = type_ref.name;
                match type_ref.type_params {
                    Some(type_params) => {
                        proof {
                            assert(view.kind->TypeRef_type_params->0
                                =~= type_views(type_params@));
                        }
                        let output = self.render_ts_types(type_params, ", ");
                        final_output.append("<");
                        final_output.append(output.as_str());
                        final_output.append(">");
                    },
                    None => {},
                }
                final_output
            },
            TsTypeDefKind::Union(union) => {
                proof {
                    assert(view.kind->Union_0 =~= type_views(union@));
                }
                self.render_ts_types(union, " | ")
            },
        }
    }

    /// A colon, a space and the text of the type, where there is a type.
    pub fn render_type_suffix(&self, ts_type: Option<TsTypeDef>) -> (rendered: String)
        ensures
            rendered@ == type_suffix(opt_type_view(ts_type)),
    {
        match ts_type {
            Some(ts_type) => {
                let mut rendered = String::from_str(": ");
                let shown = self.render_ts_type(ts_type);
                rendered.append(shown.as_str());
                rendered
            },
            None => String::new(),
        }
    }

    /// The line that shows a documentation text.
    pub fn print_jsdoc(&self, indent: &str, jsdoc: String) -> (line: String)
        ensures
            line@ == indent@ + indent_unit() + js_doc_line(jsdoc@),
    {
        let paragraph = leading_paragraph(jsdoc.as_str());
        let pieces = split(paragraph.as_str(), '\n');
        let first_line = join(&pieces, " ");
        let mut line = String::from_str(indent);
        line.append("  ");
        line.append(first_line.as_str());
        line
    }

    /// The lines that show one node, each after `indent`.
    pub fn print_node(&self, node: DocNode, indent: &str) -> (lines: Vec<String>)
        ensures
            views_of(lines@) == render_node(node@, indent@),
        decreases node,
    {
        let ghost whole = node;
        let ghost view = node@;
        let DocNode { name, snippet: _, location: _, js_doc, def } = node;
        let mut header = String::from_str(indent);
        let mut elements: Option<Vec<DocNode>> = None;
        match def {
            DocNodeDef::Function(function_def) => {
                header.append("function ");
                header.append(name.as_str());
                header.append("(");
                let params = self.render_params(function_def.params);
                header.append(params.as_str());
                header.append(")");
                let return_type = self.render_type_suffix(function_def.return_type);
                header.append(return_type.as_str());
            },
            DocNodeDef::Variable(variable_def) => {
                match variable_def.kind {
                    VarDeclKind::Const => header.append("const"),
                    VarDeclKind::Let => header.append("let"),
                    VarDeclKind::Var => header.append("var"),
                }
                header.append(" ");
                header.append(name.as_str());
                let ts_type = self.render_type_suffix(variable_def.ts_type);
                header.append(ts_type.as_str());
            },
            DocNodeDef::Class(_) => {
                header.append("class ");
                header.append(name.as_str());
            },
            DocNodeDef::Enum(_) => {
                header.append("enum ");
                header.append(name.as_str());
            },
            DocNodeDef::Interface(_) => {
                header.append("interface ");
                header.append(name.as_str());
            },
            DocNodeDef::TypeAlias(_) => {
                header.append("type ");
                header.append(name.as_str());
            },
            DocNodeDef::Namespace(namespace_def) => {
                header.append("namespace ");
                header.append(name.as_str());
                elements = Some(namespace_def.elements);
            },
        }
        assert(header@ =~= indent@ + header_of(view));
        let mut lines: Vec<String> = Vec::new();
        lines.push(header);
        match js_doc {
            Some(jsdoc) => {
                let line = self.print_jsdoc(indent, jsdoc);
                lines.push(line);
            },
            None => {},
        }
        lines.push(String::new());
        proof {
            assert(views_of(lines@) =~= seq![indent@ + header_of(view)] + js_doc_lines(
                view.js_doc,
                indent@,
            ) + seq![Seq::<char>::empty()]);
        }
        match elements {
            Some(elements) => {
                let ghost before = views_of(lines@);
                let mut deeper = String::from_str(indent);
                deeper.append("  ");
                proof {
                    assert(view.def->Namespace_0 =~= node_views(elements@));
                }
                let mut inner = self.print_nodes(elements, deeper.as_str());
                let ghost shown = views_of(inner@);
                lines.append(&mut inner);
                lines.push(String::new());
                proof {
                    assert(views_of(lines@) =~= before + (shown + seq![Seq::<char>::empty()]));
                }
            },
            None => {
                proof {
                    assert(views_of(lines@) + Seq::<Seq<char>>::empty() =~= views_of(lines@));
                }
            },
        }
        lines
    }

    /// The lines that show the nodes of `doc_nodes`, each line after
    /// `indent`.
    pub fn print_nodes(&self, doc_nodes: Vec<DocNode>, indent: &str) -> (lines: Vec<String>)
        ensures
            views_of(lines@) == render_nodes(node_views(doc_nodes@), indent@),
        decreases doc_nodes,
    {
        let ghost all = doc_nodes;
        let ghost parts = render_node_list(node_views(doc_nodes@), indent@);
        let mut lines: Vec<String> = Vec::new();
        proof {
            assert(parts.take(0) =~= Seq::<Seq<Seq<char>>>::empty());
            assert(views_of(lines@) =~= Seq::<Seq<char>>::empty());
        }
        for node in iter: doc_nodes
            invariant
                iter.seq() == all@,
                parts == render_node_list(node_views(all@), indent@),
                views_of(lines@) == concat_all(parts.take(iter.index() as int)),
        {
            let ghost before = views_of(lines@);
            proof {
                let i = iter.index() as int;
                assert(node == all[i]);
                assert(decreases_to!(all => all[i]));
                assert(parts.take(i + 1).drop_last() =~= parts.take(i));
                assert(parts.take(i + 1).last() == parts[i]);
                assert(node_views(all@)[i] == node@);
            }
            let mut shown = self.print_node(node, indent);
            let ghost added = views_of(shown@);
            lines.append(&mut shown);
            proof {
                assert(views_of(lines@) =~= before + added);
            }
        }
        proof {
            assert(parts.take(all@.len() as int) =~= parts);
        }
        lines
    }

    /// The lines that show the nodes of `doc_nodes`, indented by `indent`
    /// steps.
    pub fn print_(&self, doc_nodes: Vec<DocNode>, indent: usize) -> (lines: Vec<String>)
        ensures
            views_of(lines@) == render_nodes(
                node_views(doc_nodes@),
                repeat_of(indent_unit(), indent as nat),
            ),
    {
        let prefix = repeat("  ", indent);
        self.print_nodes(doc_nodes, prefix.as_str())
    }

    /// The lines that show the nodes of `doc_nodes`.
    pub fn print(&self, doc_nodes: Vec<DocNode>) -> (lines: Vec<String>)
        ensures
            views_of(lines@) == render_nodes(node_views(doc_nodes@), Seq::empty()),
    {
        self.print_(doc_nodes, 0)
    }

    /// The lines that show the node that the dotted path `name` leads to
    /// from `doc_nodes`, or `None` where the path leads to no node.
    pub fn print_named(&self, doc_nodes: Vec<DocNode>, name: String) -> (lines: Option<
        Vec<String>,
    >)
        ensures
            match lines {
                Some(lines) => {
                    &&& find_by_path(node_views(doc_nodes@), name@) is Some
                    &&& views_of(lines@) == render_node(
                        find_by_path(node_views(doc_nodes@), name@)->0,
                        Seq::empty(),
                    )
                },
                None => find_by_path(node_views(doc_nodes@), name@) is None,
            },
    {
        match find_node_by_name_recursively(doc_nodes, name) {
            Some(node) => Some(self.print_details(node)),
            None => None,
        }
    }

    /// The lines that show the one node `node`.
    pub fn print_details(&self, node: DocNode) -> (lines: Vec<String>)
        ensures
            views_of(lines@) == render_node(node@, Seq::empty()),
    {
        let indent = String::new();
        self.print_node(node, indent.as_str())
    }
}

/// A union of two keyword types is shown as the source writes it: the two
/// keywords in their order, with a bar between them.
pub proof fn lemma_union_of_keywords(
    text: Seq<char>,
    members: Vec<TsType>,
    a: TsKeywordTypeKind,
    b: TsKeywordTypeKind,
)
    requires
        members@ == seq![TsType::Keyword(a), TsType::Keyword(b)],
    ensures
        render_type(type_expr_of(text, TsType::Union(members))) == keyword_text(a) + " | "@
            + keyword_text(b),
{
    let models = type_expr_of(text, TsType::Union(members)).kind->Union_0;
    assert(models.len() == 2);
    assert(models[0] == type_expr_of(text, members[0]));
    assert(models[1] == type_expr_of(text, members[1]));
    let shown = render_type_list(models);
    assert(shown =~= seq![keyword_text(a), keyword_text(b)]);
    assert(shown.drop_last() =~= seq![keyword_text(a)]);
    assert(join_with(seq![keyword_text(a)], " | "@) == keyword_text(a));
}

} // verus!
