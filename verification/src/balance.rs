//! The two stacks of a session over a whole pass: how deep they are when a
//! tree has been reduced, counted from the productions that the tree holds.

use crate::laws::{
    lemma_reduce_namespace_depth, lemma_reduce_type_parameter_scopes, namespace_depth_after,
    scope_change,
};
use crate::state::StateView;
use crate::syntax::{Syntax, SyntaxVariant};
use crate::syntax_kind::SyntaxKind;
use crate::token::Token;
use vstd::prelude::*;

verus! {

/// Whether every reduction in the pass over `tree` succeeds.
pub open spec fn tree_succeeds(s: StateView, tree: Syntax<Token, ()>) -> bool
    decreases tree, 0nat,
{
    &&& s.reduce_tree(tree).1 is Ok
    &&& match tree.syntax {
        SyntaxVariant::Missing => true,
        SyntaxVariant::Token(_) => true,
        SyntaxVariant::SyntaxList(nodes) => nodes_succeed(s, nodes@, nodes@.len()),
        SyntaxVariant::Production(_, nodes) => nodes_succeed(s, nodes@, nodes@.len()),
    }
}

/// Whether every reduction in the pass over the first `n` of `nodes`
/// succeeds.
pub open spec fn nodes_succeed(s: StateView, nodes: Seq<Syntax<Token, ()>>, n: nat) -> bool
    decreases nodes, n,
{
    if n == 0 || n > nodes.len() {
        true
    } else {
        &&& nodes_succeed(s, nodes, (n - 1) as nat)
        &&& tree_succeeds(s.reduce_nodes(nodes, (n - 1) as nat).0, nodes[n - 1])
    }
}

/// The scopes of type parameters that the pass over `tree` opens, less
/// those that it closes: one is opened by each list of type parameters, one
/// is closed by each declaration that such a list belongs to.
pub open spec fn scopes_left_open(s: StateView, tree: Syntax<Token, ()>) -> int
    decreases tree, 0nat,
{
    match tree.syntax {
        SyntaxVariant::Missing => 0,
        SyntaxVariant::Token(_) => 0,
        SyntaxVariant::SyntaxList(nodes) => scopes_left_open_by(s, nodes@, nodes@.len()),
        SyntaxVariant::Production(kind, nodes) => scopes_left_open_by(s, nodes@, nodes@.len())
            + scope_change(kind, s.reduce_nodes(nodes@, nodes@.len()).1),
    }
}

/// The scopes of type parameters that the pass over the first `n` of
/// `nodes` opens, less those that it closes.
pub open spec fn scopes_left_open_by(s: StateView, nodes: Seq<Syntax<Token, ()>>, n: nat) -> int
    decreases nodes, n,
{
    if n == 0 || n > nodes.len() {
        0
    } else {
        scopes_left_open_by(s, nodes, (n - 1) as nat) + scopes_left_open(
            s.reduce_nodes(nodes, (n - 1) as nat).0,
            nodes[n - 1],
        )
    }
}

/// The frames that the pass over `tree` leaves on the stack of namespaces
/// above those that it found: one for each header of a namespace that does
/// not take the place of a statement's, less one for each block that ends
/// above the global namespace.
pub open spec fn namespaces_left_open(s: StateView, tree: Syntax<Token, ()>) -> int
    decreases tree, 0nat,
{
    match tree.syntax {
        SyntaxVariant::Missing => 0,
        SyntaxVariant::Token(_) => 0,
        SyntaxVariant::SyntaxList(nodes) => namespaces_left_open_by(s, nodes@, nodes@.len()),
        SyntaxVariant::Production(kind, nodes) => {
            let (before, c) = s.reduce_nodes(nodes@, nodes@.len());
            namespaces_left_open_by(s, nodes@, nodes@.len()) + namespace_depth_after(
                before,
                kind,
                c,
            ) - before.namespaces.stack.len()
        },
    }
}

/// The frames that the pass over the first `n` of `nodes` leaves on the
/// stack of namespaces above those that it found.
pub open spec fn namespaces_left_open_by(
    s: StateView,
    nodes: Seq<Syntax<Token, ()>>,
    n: nat,
) -> int
    decreases nodes, n,
{
    if n == 0 || n > nodes.len() {
        0
    } else {
        namespaces_left_open_by(s, nodes, (n - 1) as nat) + namespaces_left_open(
            s.reduce_nodes(nodes, (n - 1) as nat).0,
            nodes[n - 1],
        )
    }
}

/// After a pass in which every reduction succeeds, the stack of the scopes
/// of type parameters is as deep as it was, plus the scopes that the pass
/// opened, less those that it closed: where every list of type parameters
/// in the tree belongs to a declaration, the stack is back where it was.
pub proof fn lemma_pass_type_parameter_scopes(s: StateView, tree: Syntax<Token, ()>)
    requires
        tree_succeeds(s, tree),
    ensures
        s.reduce_tree(tree).0.type_parameters.len() == s.type_parameters.len() + scopes_left_open(
            s,
            tree,
        ),
    decreases tree, 0nat,
{
    match tree.syntax {
        SyntaxVariant::Missing => {},
        SyntaxVariant::Token(_) => {},
        SyntaxVariant::SyntaxList(nodes) => {
            lemma_nodes_type_parameter_scopes(s, nodes@, nodes@.len());
        },
        SyntaxVariant::Production(kind, nodes) => {
            lemma_nodes_type_parameter_scopes(s, nodes@, nodes@.len());
            let (before, c) = s.reduce_nodes(nodes@, nodes@.len());
            lemma_reduce_type_parameter_scopes(before, kind, c);
        },
    }
}

/// The same of the first `n` of a sequence of trees.
pub proof fn lemma_nodes_type_parameter_scopes(
    s: StateView,
    nodes: Seq<Syntax<Token, ()>>,
    n: nat,
)
    requires
        nodes_succeed(s, nodes, n),
    ensures
        s.reduce_nodes(nodes, n).0.type_parameters.len() == s.type_parameters.len()
            + scopes_left_open_by(s, nodes, n),
    decreases nodes, n,
{
    if n == 0 || n > nodes.len() {
    } else {
        lemma_nodes_type_parameter_scopes(s, nodes, (n - 1) as nat);
        lemma_pass_type_parameter_scopes(s.reduce_nodes(nodes, (n - 1) as nat).0, nodes[n - 1]);
    }
}

/// Whatever the tree, after the pass the stack of namespaces is not empty,
/// its bottom is the global namespace, and it is as deep as it was, plus
/// the frames that the pass left open.
pub proof fn lemma_pass_keeps_namespaces(s: StateView, tree: Syntax<Token, ()>)
    requires
        s.namespaces.wf(),
    ensures
        s.reduce_tree(tree).0.namespaces.wf(),
        s.reduce_tree(tree).0.namespaces.stack.len() == s.namespaces.stack.len()
            + namespaces_left_open(s, tree),
    decreases tree, 0nat,
{
    match tree.syntax {
        SyntaxVariant::Missing => {},
        SyntaxVariant::Token(_) => {},
        SyntaxVariant::SyntaxList(nodes) => {
            lemma_nodes_keep_namespaces(s, nodes@, nodes@.len());
        },
        SyntaxVariant::Production(kind, nodes) => {
            lemma_nodes_keep_namespaces(s, nodes@, nodes@.len());
            let (before, c) = s.reduce_nodes(nodes@, nodes@.len());
            lemma_reduce_namespace_depth(before, kind, c);
        },
    }
}

/// The same of the first `n` of a sequence of trees.
pub proof fn lemma_nodes_keep_namespaces(s: StateView, nodes: Seq<Syntax<Token, ()>>, n: nat)
    requires
        s.namespaces.wf(),
    ensures
        s.reduce_nodes(nodes, n).0.namespaces.wf(),
        s.reduce_nodes(nodes, n).0.namespaces.stack.len() == s.namespaces.stack.len()
            + namespaces_left_open_by(s, nodes, n),
    decreases nodes, n,
{
    if n == 0 || n > nodes.len() {
    } else {
        lemma_nodes_keep_namespaces(s, nodes, (n - 1) as nat);
        lemma_pass_keeps_namespaces(s.reduce_nodes(nodes, (n - 1) as nat).0, nodes[n - 1]);
    }
}

} // verus!
