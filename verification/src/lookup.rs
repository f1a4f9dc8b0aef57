//! Finding nodes by name.

use crate::doc::node::{node_views, DocDefView, DocNode, DocNodeDef, DocNodeView};
use crate::text::{lemma_position_of, position_of, slice, to_chars};
use vstd::prelude::*;

verus! {

/// The nodes of `nodes` that bear the name `name`, in order.
pub open spec fn nodes_named(nodes: Seq<DocNodeView>, name: Seq<char>) -> Seq<DocNodeView>
    decreases nodes.len(),
{
    if nodes.len() == 0 {
        Seq::empty()
    } else if nodes.last().name == name {
        nodes_named(nodes.drop_last(), name).push(nodes.last())
    } else {
        nodes_named(nodes.drop_last(), name)
    }
}

/// The nodes of `nodes` that bear another name than `name`, in order.
pub open spec fn nodes_not_named(nodes: Seq<DocNodeView>, name: Seq<char>) -> Seq<DocNodeView>
    decreases nodes.len(),
{
    if nodes.len() == 0 {
        Seq::empty()
    } else if nodes.last().name == name {
        nodes_not_named(nodes.drop_last(), name)
    } else {
        nodes_not_named(nodes.drop_last(), name).push(nodes.last())
    }
}

/// Parts `nodes` into the nodes that bear the name `name` and the others,
/// each part in the order of `nodes`.
pub fn take_named(nodes: Vec<DocNode>, name: &String) -> (parts: (Vec<DocNode>, Vec<DocNode>))
    ensures
        node_views(parts.0@) == nodes_named(node_views(nodes@), name@),
        node_views(parts.1@) == nodes_not_named(node_views(nodes@), name@),
{
    let mut named: Vec<DocNode> = Vec::new();
    let mut others: Vec<DocNode> = Vec::new();
    let ghost all = nodes@;
    proof {
        assert(node_views(all.take(0)) =~= Seq::<DocNodeView>::empty());
    }
    for node in iter: nodes
        invariant
            iter.seq() == all,
            node_views(named@) == nodes_named(node_views(all.take(iter.index() as int)), name@),
            node_views(others@) == nodes_not_named(
                node_views(all.take(iter.index() as int)),
                name@,
            ),
    {
        proof {
            let i = iter.index() as int;
            assert(node_views(all.take(i + 1)).drop_last() =~= node_views(all.take(i)));
            assert(node_views(all.take(i + 1)).last() == node@);
        }
        if node.name == *name {
            proof {
                assert(node_views(named@.push(node)) =~= node_views(named@).push(node@));
            }
            named.push(node);
        } else {
            proof {
                assert(node_views(others@.push(node)) =~= node_views(others@).push(node@));
            }
            others.push(node);
        }
    }
    proof {
        assert(all.take(all.len() as int) =~= all);
    }
    (named, others)
}

/// The first node of `nodes` that bears the name `name`.
pub open spec fn first_named(nodes: Seq<DocNodeView>, name: Seq<char>) -> Option<DocNodeView>
    decreases nodes.len(),
{
    if nodes.len() == 0 {
        None
    } else {
        match first_named(nodes.drop_last(), name) {
            Some(node) => Some(node),
            None => if nodes.last().name == name {
                Some(nodes.last())
            } else {
                None
            },
        }
    }
}

/// The first name of a dotted path: what stands before its first dot.
pub open spec fn path_head(path: Seq<char>) -> Seq<char> {
    path.take(position_of(path, '.'))
}

/// What follows the first dot of a dotted path, where it has a dot.
pub open spec fn path_rest(path: Seq<char>) -> Option<Seq<char>> {
    let dot = position_of(path, '.');
    if 0 <= dot < path.len() {
        Some(path.skip(dot + 1))
    } else {
        None
    }
}

/// The node that the dotted path `path` leads to from `nodes`: the first
/// node that bears the first name of the path, where the path ends there;
/// where it goes on, the node that the rest of the path leads to from the
/// elements of that node, which must be a namespace.
pub open spec fn find_by_path(nodes: Seq<DocNodeView>, path: Seq<char>) -> Option<DocNodeView>
    decreases path.len(),
{
    match first_named(nodes, path_head(path)) {
        Some(node) => match path_rest(path) {
            None => Some(node),
            Some(rest) => match node.def {
                DocDefView::Namespace(elements) => find_by_path(elements, rest),
                _ => None,
            },
        },
        None => None,
    }
}

/// The first node of `doc_nodes` that bears the name `name`.
pub fn find_node_by_name(doc_nodes: Vec<DocNode>, name: String) -> (found: Option<DocNode>)
    ensures
        match found {
            Some(node) => first_named(node_views(doc_nodes@), name@) == Some(node@),
            None => first_named(node_views(doc_nodes@), name@) is None,
        },
{
    let ghost all = doc_nodes@;
    let mut found: Option<DocNode> = None;
    proof {
        assert(node_views(all.take(0)) =~= Seq::<DocNodeView>::empty());
    }
    for node in iter: doc_nodes
        invariant
            iter.seq() == all,
            match found {
                Some(node) => first_named(node_views(all.take(iter.index() as int)), name@)
                    == Some(node@),
                None => first_named(node_views(all.take(iter.index() as int)), name@) is None,
            },
    {
        proof {
            let i = iter.index() as int;
            assert(node_views(all.take(i + 1)).drop_last() =~= node_views(all.take(i)));
            assert(node_views(all.take(i + 1)).last() == node@);
        }
        if found.is_none() && node.name == name {
            found = Some(node);
        }
    }
    proof {
        assert(all.take(all.len() as int) =~= all);
    }
    found
}

/// The node that the dotted path `name` leads to from `doc_nodes`, through
/// nested namespaces.
pub fn find_node_by_name_recursively(doc_nodes: Vec<DocNode>, name: String) -> (found: Option<
    DocNode,
>)
    ensures
        match found {
            Some(node) => find_by_path(node_views(doc_nodes@), name@) == Some(node@),
            None => find_by_path(node_views(doc_nodes@), name@) is None,
        },
    decreases name@.len(),
{
    let chars = to_chars(name.as_str());
    let mut dot: usize = 0;
    while dot < chars.len() && chars[dot] != '.'
        invariant
            dot <= chars.len(),
            forall|k: int| 0 <= k < dot ==> chars@[k] != '.',
        decreases chars.len() - dot,
    {
        dot = dot + 1;
    }
    proof {
        lemma_position_of(name@, '.', dot as int);
    }
    let head = slice(name.as_str(), 0, dot);
    let leftover = if dot < chars.len() {
        Some(slice(name.as_str(), dot + 1, chars.len()))
    } else {
        None
    };
    match find_node_by_name(doc_nodes, head) {
        Some(node) => match leftover {
            None => Some(node),
            Some(leftover) => {
                let ghost view = node@;
                match node.def {
                    DocNodeDef::Namespace(namespace_def) => {
                        proof {
                            assert(view.def->Namespace_0 =~= node_views(namespace_def.elements@));
                        }
                        find_node_by_name_recursively(namespace_def.elements, leftover)
                    },
                    _ => None,
                }
            },
        },
        None => None,
    }
}

/// Whether `name` has no dot in it.
pub open spec fn is_simple_name(name: Seq<char>) -> bool {
    forall|i: int| 0 <= i < name.len() ==> name[i] != '.'
}

/// A path that is one name leads to the first node that bears it.
pub proof fn lemma_find_by_name(nodes: Seq<DocNodeView>, name: Seq<char>)
    requires
        is_simple_name(name),
    ensures
        find_by_path(nodes, name) == first_named(nodes, name),
{
    lemma_position_of(name, '.', name.len() as int);
    assert(name.take(name.len() as int) =~= name);
}

/// A path that goes on after its first name leads on from the elements of
/// the namespace that bears this name: where the first node of that name is
/// a namespace, the path leads to what its rest leads to from the elements
/// of the namespace; where it is no namespace, or where no node bears the
/// name, the path leads nowhere.
pub proof fn lemma_find_by_path_step(nodes: Seq<DocNodeView>, name: Seq<char>, rest: Seq<char>)
    requires
        is_simple_name(name),
    ensures
        find_by_path(nodes, name + seq!['.'] + rest) == match first_named(nodes, name) {
            Some(node) => match node.def {
                DocDefView::Namespace(elements) => find_by_path(elements, rest),
                _ => None,
            },
            None => None,
        },
{
    let path = name + seq!['.'] + rest;
    lemma_position_of(path, '.', name.len() as int);
    assert(path.take(name.len() as int) =~= name);
    assert(path.skip(name.len() as int + 1) =~= rest);
}

} // verus!
