//! What holds of the pass as a whole: laws that relate several combinators,
//! stated over the model of the pass and proved from it.

use crate::ast_defs::{FunKind, IdView};
use crate::declarations::add_imports_first;
use crate::error::ParseError;
use crate::functions::spec_fun_kind;
use crate::lists::{
    all_zero, collapse, flatten, flatten_first, flatten_step, has_yield_marker, holds_yield,
    is_zero, is_zero_node, list_first, make_list, make_list_item, make_pair, yield_marker, zero,
    NodeResult,
};
use crate::names::{
    get_name, is_fully_qualified, parts_text, qualified_name_from_parts, stands_unqualified,
};
use crate::namespace::{
    global_namespace, lookup_earliest, lookup_frames, NamespaceBuilderView,
};
use crate::node::{contains_token, FunctionHeaderView, NodeView};
use crate::pos::PosView;
use crate::state::{scope_contains, StateView};
use crate::text::{starts_with, trim_start_matches, SEPARATOR};
use crate::syntax_kind::SyntaxKind;
use crate::token_kind::TokenKind;
use crate::typing_defs::{ReasonView, TyView, TyView_};
use vstd::prelude::*;

verus! {

/// A name that begins with the separator is fully qualified: to qualify it
/// changes nothing, whatever the namespace.
pub proof fn lemma_qualify_fully_qualified(s: StateView, name: Seq<char>)
    requires
        starts_with(name, SEPARATOR),
    ensures
        s.prefix_ns(name) == name,
{
}

/// To qualify a name twice is to qualify it once: the second namespace has
/// no say.
pub proof fn lemma_qualify_idempotent(s1: StateView, s2: StateView, name: Seq<char>)
    requires
        s1.wf(),
    ensures
        s2.prefix_ns(s1.prefix_ns(name)) == s1.prefix_ns(name),
{
    let current = s1.current_namespace();
    assert(starts_with(current, SEPARATOR)) by {
        assert(s1.namespaces.stack.len() > 0);
        assert(current == s1.namespaces.stack[s1.namespaces.stack.len() - 1].name);
    }
    if !starts_with(name, SEPARATOR) {
        assert((current + name)[0] == current[0]);
    }
}

/// A simple name that stands unqualified (the empty name, `self`, `parent`,
/// `static`, `this`, the name of a constructor, a name with a leading
/// separator) stands for itself under every namespace; every other simple
/// name stands behind the namespace.
pub proof fn lemma_simple_name_qualified(namespace: Seq<char>, name: Seq<char>, pos: PosView)
    ensures
        get_name(namespace, NodeView::Name(name, pos)) == Ok::<IdView, ParseError>(
            IdView(
                pos,
                if stands_unqualified(name) {
                    name
                } else {
                    namespace + name
                },
            ),
        ),
        starts_with(name, SEPARATOR) ==> get_name(namespace, NodeView::Name(name, pos)) == Ok::<
            IdView,
            ParseError,
        >(IdView(pos, name)),
{
}

/// A qualified name that is written with a leading separator stands for the
/// same name under every namespace.
pub proof fn lemma_get_name_fully_qualified(
    namespace1: Seq<char>,
    namespace2: Seq<char>,
    parts: Seq<NodeView>,
    pos: PosView,
)
    requires
        is_fully_qualified(parts),
    ensures
        get_name(namespace1, NodeView::QualifiedName(parts, pos)) == get_name(
            namespace2,
            NodeView::QualifiedName(parts, pos),
        ),
{
}

/// The scope that a list of type parameters opens is the scope that the
/// declaration closes which consumes the list: after both, the state is
/// what it was before the list.
pub proof fn lemma_type_parameters_balanced(s: StateView, tparams: NodeResult)
    requires
        s.make_type_parameters(tparams).1 is Ok,
    ensures
        ({
            let (opened, node) = s.make_type_parameters(tparams);
            let (closed, popped) = opened.pop_type_params(node->Ok_0);
            &&& opened.type_parameters.len() == s.type_parameters.len() + 1
            &&& popped is Ok
            &&& closed == s
        }),
{
    let (opened, node) = s.make_type_parameters(tparams);
    assert(opened.type_parameters.drop_last() =~= s.type_parameters);
}

/// A node that is no list of type parameters closes no scope.
pub proof fn lemma_no_type_parameters_no_pop(s: StateView, node: NodeView)
    requires
        !(node is TypeParameters),
    ensures
        s.pop_type_params(node).0 == s,
        s.pop_type_params(node).1 is Ok,
{
}

/// Whether the header of a function holds a list of type parameters.
pub open spec fn has_type_parameters(header: NodeResult) -> bool {
    match header {
        Ok(NodeView::FunctionHeader(h)) => h.type_params is TypeParameters,
        _ => false,
    }
}

/// The declaration of a function leaves the namespaces as they are, and the
/// scopes of type parameters as its header leaves them: one scope less
/// where the header holds a list of type parameters, else the same.
pub proof fn lemma_function_declaration_scopes(
    s: StateView,
    attributes: NodeResult,
    header: NodeResult,
    body: NodeResult,
)
    requires
        s.make_function_declaration(attributes, header, body).1 is Ok,
    ensures
        ({
            let after = s.make_function_declaration(attributes, header, body).0;
            &&& after.namespaces == s.namespaces
            &&& after.type_parameters == if has_type_parameters(header) {
                s.type_parameters.drop_last()
            } else {
                s.type_parameters
            }
        }),
{
}

/// A namespace that a block opens is closed by the end of the block: the
/// stack is then what it was.
pub proof fn lemma_namespace_block_balanced(n: NamespaceBuilderView, name: Option<Seq<char>>)
    requires
        n.wf(),
        !n.replaces_top(),
    ensures
        n.push_namespace(name).pop_namespace() == n,
{
    assert(n.push_namespace(name).stack.drop_last() =~= n.stack);
}

/// Statements `namespace N;` do not pile up: each takes the place of the one
/// before it, so that the stack is never more than one frame above where
/// the first of them found it.
pub proof fn lemma_namespace_statements_replace(
    n: NamespaceBuilderView,
    first: Option<Seq<char>>,
    second: Option<Seq<char>>,
)
    requires
        n.wf(),
        !n.replaces_top(),
    ensures
        ({
            let one = n.push_namespace(first).keep_namespace();
            let two = one.push_namespace(second).keep_namespace();
            &&& one.stack.len() == n.stack.len() + 1
            &&& two.stack.len() == one.stack.len()
            &&& two.stack.drop_last() == n.stack
            &&& two.pop_namespace() == n
        }),
{
    let one = n.push_namespace(first).keep_namespace();
    let two = one.push_namespace(second).keep_namespace();
    assert(one.stack.drop_last() =~= n.stack);
    assert(two.stack.drop_last() =~= n.stack);
}

/// The bottom of the stack of namespaces is the global namespace, whatever
/// is opened and closed above it.
pub proof fn lemma_namespace_bottom(n: NamespaceBuilderView, name: Option<Seq<char>>)
    requires
        n.wf(),
    ensures
        n.push_namespace(name).wf(),
        n.pop_namespace().wf(),
        n.keep_namespace().wf(),
        n.push_namespace(name).stack[0].name == global_namespace(),
{
    let pushed = n.push_namespace(name);
    assert forall|i: int| 0 <= i < pushed.stack.len() implies starts_with(
        #[trigger] pushed.stack[i].name,
        SEPARATOR,
    ) by {
        if i < pushed.stack.len() - 1 {
            assert(pushed.stack[i] == n.stack[i]);
        } else {
            let below = if n.replaces_top() {
                n.stack.drop_last()
            } else {
                n.stack
            };
            assert(below.last() == n.stack[below.len() - 1]);
            assert(starts_with(below.last().name, SEPARATOR));
        }
    }
    let kept = n.keep_namespace();
    assert forall|i: int| 0 <= i < kept.stack.len() implies starts_with(
        #[trigger] kept.stack[i].name,
        SEPARATOR,
    ) by {
        assert(kept.stack[i].name == n.stack[i].name);
    }
    let popped = n.pop_namespace();
    assert forall|i: int| 0 <= i < popped.stack.len() implies starts_with(
        #[trigger] popped.stack[i].name,
        SEPARATOR,
    ) by {
        assert(popped.stack[i] == n.stack[i]);
    }
}

/// The hint `T`, where `T` is a type parameter in scope, is a reference to
/// that parameter.
pub proof fn lemma_type_parameter_is_generic(s: StateView, name: Seq<char>, pos: PosView)
    requires
        s.is_type_param_in_scope(name),
    ensures
        s.node_to_ty(NodeView::Name(name, pos)) == Ok::<TyView, ParseError>(
            TyView(ReasonView::Rhint(pos), Box::new(TyView_::Tgeneric(name))),
        ),
{
    assert(Seq::<char>::empty() + name =~= name);
}

/// The hint `\T` is an applied type, also where `T` is a type parameter in
/// scope: the separator tells the class from the parameter. (No type
/// parameter has a name that begins with the separator.)
pub proof fn lemma_qualified_name_is_applied(
    s: StateView,
    name: Seq<char>,
    separator_pos: PosView,
    name_pos: PosView,
    pos: PosView,
)
    requires
        forall|i: int, j: int|
            0 <= i < s.type_parameters.len() && 0 <= j < s.type_parameters[i].len()
                ==> !starts_with(#[trigger] s.type_parameters[i][j], SEPARATOR),
    ensures
        ({
            let hint = NodeView::QualifiedName(
                seq![NodeView::Backslash(separator_pos), NodeView::Name(name, name_pos)],
                pos,
            );
            let written = seq![SEPARATOR] + name;
            s.node_to_ty(hint) == Ok::<TyView, ParseError>(
                TyView(
                    ReasonView::Rhint(pos),
                    Box::new(
                        TyView_::Tapply(
                            IdView(pos, s.namespaces.rename_import(written)),
                            Seq::empty(),
                        ),
                    ),
                ),
            )
        }),
{
    let parts = seq![NodeView::Backslash(separator_pos), NodeView::Name(name, name_pos)];
    let written = seq![SEPARATOR] + name;
    assert(parts_text(parts, 0) == Ok::<Seq<char>, ParseError>(Seq::empty()));
    assert(parts_text(parts, 1) == Ok::<Seq<char>, ParseError>(
        Seq::<char>::empty() + seq![SEPARATOR],
    ));
    assert(parts_text(parts, 2) == Ok::<Seq<char>, ParseError>(
        Seq::<char>::empty() + seq![SEPARATOR] + name,
    ));
    assert(Seq::<char>::empty() + seq![SEPARATOR] + name =~= written);
    assert(qualified_name_from_parts(Seq::empty(), parts) == Ok::<Seq<char>, ParseError>(
        written,
    ));
    assert(written[0] == SEPARATOR);
    assert(!s.is_type_param_in_scope(written)) by {
        if scope_contains(s.type_parameters, written) {
            let (i, j) = choose|i: int, j: int|
                0 <= i < s.type_parameters.len() && 0 <= j < s.type_parameters[i].len()
                    && #[trigger] s.type_parameters[i][j] == written;
            assert(!starts_with(s.type_parameters[i][j], SEPARATOR));
        }
    }
    reveal_strlit("nothing");
    reveal_strlit("nonnull");
    reveal_strlit("dynamic");
    reveal_strlit("varray_or_darray");
    assert(written != "nothing"@);
    assert(written != "nonnull"@);
    assert(written != "dynamic"@);
    assert(written != "varray_or_darray"@);
    assert(s.prefix_ns(written) == written);
}

/// Where nothing is imported under the name `T`, the class that `\T` names
/// is `\T` itself.
pub proof fn lemma_unimported_name_stays(n: NamespaceBuilderView, name: Seq<char>)
    requires
        lookup_frames(n.stack, trim_start_matches(name, SEPARATOR), n.stack.len()) is None,
        lookup_earliest(n.auto_imports, trim_start_matches(name, SEPARATOR), 0) is None,
    ensures
        n.rename_import(name) == name,
{
}

/// A function that is no coroutine is a generator exactly where a `yield`
/// was seen in its body, and an asynchronous generator exactly where it is
/// marked `async` besides.
pub proof fn lemma_generator_iff_yield(is_async: bool, has_yield: bool)
    ensures
        spec_fun_kind(is_async, false, has_yield).is_generator() <==> has_yield,
        spec_fun_kind(is_async, false, has_yield) == FunKind::FAsyncGenerator <==> (has_yield
            && is_async),
        spec_fun_kind(is_async, false, has_yield) == FunKind::FGenerator <==> (has_yield
            && !is_async),
{
}

/// The type of a function says that the function is a generator exactly
/// where its body holds a `yield`, at whatever depth, and the function is no
/// coroutine.
pub proof fn lemma_function_type_generator(
    s: StateView,
    namespace: Seq<char>,
    attributes: NodeView,
    header: FunctionHeaderView,
    body: NodeView,
)
    requires
        s.function_into_ty(namespace, attributes, header, body).1 is Ok,
    ensures
        ({
            let ty = s.function_into_ty(namespace, attributes, header, body).1->Ok_0.1;
            &&& *ty.1 is Tfun
            &&& (*ty.1)->Tfun_0.flags.generator <==> (!is_zero_node(body) && !contains_token(
                header.modifiers.items(),
                TokenKind::Coroutine,
            ))
        }),
{
}

/// The list combinator hands the marker of a `yield` up: where the marker
/// stands among the items, it stands for the list; where it does not, the
/// list does not turn into it.
pub proof fn lemma_make_list_yield(items: Seq<NodeResult>)
    ensures
        has_yield_marker(items) <==> make_list(items) == Ok::<NodeView, ParseError>(
            yield_marker(),
        ),
{
    if !has_yield_marker(items) {
        match list_first(items, items.len()) {
            Err(e) => {},
            Ok(kept) => {
                if kept.len() > 0 {
                    assert(NodeView::List(kept) != yield_marker());
                }
            },
        }
    }
}

/// A body that is the marker of a `yield` makes a function a generator.
pub proof fn lemma_marker_body_is_generator(
    s: StateView,
    namespace: Seq<char>,
    attributes: NodeView,
    header: FunctionHeaderView,
)
    requires
        s.function_into_ty(namespace, attributes, header, yield_marker()).1 is Ok,
        !contains_token(header.modifiers.items(), TokenKind::Coroutine),
    ensures
        (*s.function_into_ty(
            namespace,
            attributes,
            header,
            yield_marker(),
        ).1->Ok_0.1.1)->Tfun_0.flags.generator,
{
}

/// An operator, a pair or an item of a list with an operand that holds a
/// `yield` is the marker of a `yield`: no expression swallows it.
pub proof fn lemma_operands_hand_yield_up(
    s: StateView,
    lhs: NodeResult,
    op: NodeResult,
    rhs: NodeResult,
)
    requires
        lhs is Ok,
        op is Ok,
        rhs is Ok,
        holds_yield(lhs) || holds_yield(rhs),
    ensures
        s.make_binary_expression(lhs, op, rhs) == Ok::<NodeView, ParseError>(yield_marker()),
        s.make_prefix_unary_expression(op, rhs) == Ok::<NodeView, ParseError>(yield_marker())
            <== holds_yield(rhs),
        s.make_postfix_unary_expression(lhs, op) == Ok::<NodeView, ParseError>(yield_marker())
            <== holds_yield(lhs),
        make_pair(lhs, rhs) == Ok::<NodeView, ParseError>(yield_marker()),
        make_list_item(lhs, rhs) == Ok::<NodeView, ParseError>(yield_marker()),
{
}

/// A function without a name keeps its `yield` to itself: whatever its
/// children hold, it is reduced to nothing, and the session is as it was.
pub proof fn lemma_closure_hides_yield(s: StateView, kind: SyntaxKind, c: Seq<NodeResult>)
    requires
        StateView::is_closure_kind(kind),
    ensures
        s.reduce(kind, c).0 == s,
        s.reduce(kind, c).1 is Ok ==> s.reduce(kind, c).1 == zero(),
        !holds_yield(s.reduce(kind, c).1),
{
}

/// Whether the production of kind `kind` has no combinator of its own, so
/// that the default reduction stands for it.
pub open spec fn has_default_reduction(s: StateView, kind: SyntaxKind, c: Seq<NodeResult>) -> bool {
    &&& kind != SyntaxKind::SyntaxList
    &&& !StateView::is_closure_kind(kind)
    &&& s.reduce_shaping(kind, c) is None
    &&& s.reduce_collection(kind, c) is None
    &&& s.reduce_operator(kind, c) is None
    &&& s.reduce_type_specifier(kind, c) is None
    &&& s.reduce_wrapping_type(kind, c) is None
    &&& s.reduce_member(kind, c) is None
    &&& s.reduce_namespace(kind, c) is None
    &&& s.reduce_declaration(kind, c) is None
}

/// A statement, a list and every other production without a combinator of
/// its own holds a `yield` exactly where one of its children does: on its
/// way up from where it is written to the body of the function, a `yield`
/// is neither lost nor made.
pub proof fn lemma_reduction_keeps_yield(s: StateView, kind: SyntaxKind, c: Seq<NodeResult>)
    requires
        kind == SyntaxKind::SyntaxList || has_default_reduction(s, kind, c),
        forall|i: int| 0 <= i < c.len() ==> (#[trigger] c[i]) is Ok,
    ensures
        s.reduce(kind, c).0 == s,
        s.reduce(kind, c).1 is Ok,
        is_zero(s.reduce(kind, c).1) <==> forall|i: int|
            0 <= i < c.len() ==> is_zero(#[trigger] c[i]),
{
    if kind == SyntaxKind::SyntaxList {
        lemma_make_list_keeps_yield(c);
    } else {
        lemma_flatten_keeps_yield(c);
    }
}

/// A list holds a `yield` exactly where one of its items does.
pub proof fn lemma_make_list_keeps_yield(items: Seq<NodeResult>)
    requires
        forall|i: int| 0 <= i < items.len() ==> (#[trigger] items[i]) is Ok,
    ensures
        make_list(items) is Ok,
        is_zero(make_list(items)) <==> forall|i: int|
            0 <= i < items.len() ==> is_zero(#[trigger] items[i]),
{
    if has_yield_marker(items) {
        let i = choose|i: int|
            0 <= i < items.len() && #[trigger] items[i] == Ok::<NodeView, ParseError>(
                yield_marker(),
            );
        assert(!is_zero(items[i]));
    } else {
        lemma_list_first_zero(items, items.len());
        let kept = list_first(items, items.len())->Ok_0;
        lemma_all_zero_each(kept, kept.len());
    }
}

/// The items that a list keeps are all zero exactly where every item so far
/// is zero.
pub proof fn lemma_list_first_zero(items: Seq<NodeResult>, n: nat)
    requires
        n <= items.len(),
        forall|i: int| 0 <= i < items.len() ==> (#[trigger] items[i]) is Ok,
    ensures
        list_first(items, n) is Ok,
        all_zero_nodes(list_first(items, n)->Ok_0) <==> forall|i: int|
            0 <= i < n ==> is_zero(#[trigger] items[i]),
    decreases n,
{
    if n > 0 {
        lemma_list_first_zero(items, (n - 1) as nat);
        let kept = list_first(items, (n - 1) as nat)->Ok_0;
        let item = items[n - 1]->Ok_0;
        let after = list_first(items, n)->Ok_0;
        lemma_all_zero_each(kept, kept.len());
        lemma_all_zero_each(after, after.len());
        if item is Ignored {
            assert(after == kept);
        } else {
            assert(after =~= kept.push(item));
            if all_zero_nodes(after) {
                assert forall|i: int| 0 <= i < kept.len() implies is_zero_node(
                    #[trigger] kept[i],
                ) by {
                    assert(after[i] == kept[i]);
                }
                assert(after[kept.len() as int] == item);
            }
            if all_zero_nodes(kept) && is_zero_node(item) {
                assert forall|i: int| 0 <= i < after.len() implies is_zero_node(
                    #[trigger] after[i],
                ) by {
                    if i < kept.len() {
                        assert(after[i] == kept[i]);
                    } else {
                        assert(after[i] == item);
                    }
                }
            }
        }
        assert(all_zero_nodes(after) <==> (all_zero_nodes(kept) && is_zero_node(item)));
        assert(is_zero(items[n - 1]) == is_zero_node(item));
    }
}

/// Whether all of `nodes` are zero.
pub open spec fn all_zero_nodes(nodes: Seq<NodeView>) -> bool {
    all_zero(nodes, nodes.len())
}

/// Nodes are all zero exactly where each of them is.
pub proof fn lemma_all_zero_each(nodes: Seq<NodeView>, n: nat)
    requires
        n <= nodes.len(),
    ensures
        all_zero(nodes, n) <==> forall|i: int| 0 <= i < n ==> is_zero_node(#[trigger] nodes[i]),
    decreases n,
{
    if n > 0 {
        lemma_all_zero_each(nodes, (n - 1) as nat);
        if all_zero(nodes, n) {
            assert forall|i: int| 0 <= i < n implies is_zero_node(#[trigger] nodes[i]) by {
                if i < n - 1 {
                } else {
                    assert(is_zero_node(nodes[n - 1]));
                }
            }
        }
    }
}

/// The default reduction never drops the marker of a `yield`: what it
/// returns is zero exactly where every child is zero.
pub proof fn lemma_flatten_keeps_yield(lst: Seq<NodeResult>)
    requires
        forall|i: int| 0 <= i < lst.len() ==> (#[trigger] lst[i]) is Ok,
    ensures
        flatten(lst) is Ok,
        is_zero(flatten(lst)) <==> forall|i: int| 0 <= i < lst.len() ==> is_zero(#[trigger] lst[i]),
{
    lemma_flatten_first_zero(lst, lst.len());
    let kept = flatten_first(lst, lst.len())->Ok_0;
    lemma_all_zero_each(kept, kept.len());
    if kept.len() == 1 {
        assert(is_zero_node(collapse(kept)) == is_zero_node(kept[0]));
    }
}

/// The nodes that the default reduction keeps are all zero exactly where
/// every child so far is zero.
pub proof fn lemma_flatten_first_zero(lst: Seq<NodeResult>, n: nat)
    requires
        n <= lst.len(),
        forall|i: int| 0 <= i < lst.len() ==> (#[trigger] lst[i]) is Ok,
    ensures
        flatten_first(lst, n) is Ok,
        all_zero_nodes(flatten_first(lst, n)->Ok_0) <==> forall|i: int|
            0 <= i < n ==> is_zero(#[trigger] lst[i]),
    decreases n,
{
    if n > 0 {
        lemma_flatten_first_zero(lst, (n - 1) as nat);
        let kept = flatten_first(lst, (n - 1) as nat)->Ok_0;
        let child = lst[n - 1]->Ok_0;
        let after = flatten_step(kept, child);
        assert(flatten_first(lst, n) == Ok::<Seq<NodeView>, ParseError>(after));
        lemma_all_zero_each(kept, kept.len());
        lemma_all_zero_each(after, after.len());
        match child {
            NodeView::List(children) => {
                lemma_all_zero_each(children, children.len());
                assert(is_zero_node(child) == all_zero(children, children.len()));
                assert(after =~= kept + children);
                if all_zero_nodes(after) {
                    assert forall|i: int| 0 <= i < kept.len() implies is_zero_node(
                        #[trigger] kept[i],
                    ) by {
                        assert(after[i] == kept[i]);
                    }
                    assert forall|i: int| 0 <= i < children.len() implies is_zero_node(
                        #[trigger] children[i],
                    ) by {
                        assert(after[kept.len() + i] == children[i]);
                    }
                }
                if all_zero_nodes(kept) && is_zero_node(child) {
                    assert forall|i: int| 0 <= i < after.len() implies is_zero_node(
                        #[trigger] after[i],
                    ) by {
                        if i < kept.len() {
                            assert(after[i] == kept[i]);
                        } else {
                            assert(after[i] == children[i - kept.len()]);
                        }
                    }
                }
            },
            _ => {
                if is_zero_node(child) {
                    assert(after == kept);
                } else {
                    assert(after =~= kept.push(child));
                    assert(after[kept.len() as int] == child);
                }
            },
        }
        assert(all_zero_nodes(after) <==> (all_zero_nodes(kept) && is_zero_node(child)));
        assert(is_zero(lst[n - 1]) == is_zero_node(child));
    }
}

/// Whether a result is a list of type parameters.
pub open spec fn is_type_parameters(r: NodeResult) -> bool {
    r matches Ok(n) && n is TypeParameters
}

/// Whether the production of kind `kind` with the reduced children `c`
/// consumes a list of type parameters: it is the declaration that the list
/// belongs to.
pub open spec fn consumes_type_parameters(kind: SyntaxKind, c: Seq<NodeResult>) -> bool {
    match kind {
        SyntaxKind::FunctionDeclaration => c.len() == 3 && has_type_parameters(c[1]),
        SyntaxKind::MethodishDeclaration => c.len() == 4 && has_type_parameters(c[1]),
        SyntaxKind::AliasDeclaration => c.len() == 8 && is_type_parameters(c[3]) && !(c[2]
            matches Ok(n) && n.is_ignored()),
        SyntaxKind::ClassishDeclaration => c.len() == 12 && is_type_parameters(c[5]),
        _ => false,
    }
}

/// The number of scopes that a reduction adds: one for a list of type
/// parameters, one less for the declaration that such a list belongs to.
pub open spec fn scope_change(kind: SyntaxKind, c: Seq<NodeResult>) -> int {
    (if kind == SyntaxKind::TypeParameters {
        1int
    } else {
        0int
    }) - (if consumes_type_parameters(kind, c) {
        1int
    } else {
        0int
    })
}

/// Every scope of type parameters that is opened is closed once: a
/// successful reduction opens one scope where it reduces a list of type
/// parameters, closes one where it reduces the declaration that such a list
/// belongs to, and leaves the scopes alone in every other case.
pub proof fn lemma_reduce_type_parameter_scopes(s: StateView, kind: SyntaxKind, c: Seq<NodeResult>)
    requires
        s.reduce(kind, c).1 is Ok,
    ensures
        s.reduce(kind, c).0.type_parameters.len() == s.type_parameters.len() + scope_change(
            kind,
            c,
        ),
{
    lemma_kinds_of_groups(s, kind, c);
    if kind == SyntaxKind::SyntaxList {
    } else if s.reduce_namespace(kind, c) is Some {
        lemma_namespace_scopes(s, kind, c);
    } else if s.reduce_declaration(kind, c) is Some {
        lemma_declaration_scopes(s, kind, c);
    }
}

/// Whether a kind is one of those that open and close namespaces and record
/// imports.
pub open spec fn is_namespace_kind(kind: SyntaxKind) -> bool {
    kind == SyntaxKind::NamespaceDeclarationHeader || kind == SyntaxKind::NamespaceBody || kind
        == SyntaxKind::NamespaceEmptyBody || kind == SyntaxKind::NamespaceUseDeclaration || kind
        == SyntaxKind::NamespaceGroupUseDeclaration
}

/// Whether a kind is one of those that open and close scopes of type
/// parameters and that declare.
pub open spec fn is_declaration_kind(kind: SyntaxKind) -> bool {
    kind == SyntaxKind::TypeParameters || kind == SyntaxKind::FunctionDeclaration || kind
        == SyntaxKind::MethodishDeclaration || kind == SyntaxKind::AliasDeclaration || kind
        == SyntaxKind::ConstDeclaration || kind == SyntaxKind::ClassishDeclaration || kind
        == SyntaxKind::EnumDeclaration
}

/// Only the kinds of namespaces and of declarations reach the reductions
/// that touch the state.
pub proof fn lemma_kinds_of_groups(s: StateView, kind: SyntaxKind, c: Seq<NodeResult>)
    ensures
        s.reduce_namespace(kind, c) is Some <==> is_namespace_kind(kind),
        s.reduce_declaration(kind, c) is Some <==> is_declaration_kind(kind),
        is_namespace_kind(kind) || is_declaration_kind(kind) ==> s.reduce_shaping(kind, c) is None
            && s.reduce_collection(kind, c) is None && s.reduce_operator(kind, c) is None
            && s.reduce_type_specifier(kind, c) is None && s.reduce_wrapping_type(kind, c) is None
            && s.reduce_member(kind, c) is None && kind != SyntaxKind::SyntaxList,
        !is_namespace_kind(kind) && !is_declaration_kind(kind) ==> s.reduce(kind, c).0 == s
            && scope_change(kind, c) == 0,
{
    lemma_shaping_kinds(s, kind, c);
    lemma_collection_kinds(s, kind, c);
    lemma_operator_kinds(s, kind, c);
    lemma_type_specifier_kinds(s, kind, c);
    lemma_wrapping_type_kinds(s, kind, c);
    lemma_member_kinds(s, kind, c);
    lemma_namespace_kinds(s, kind, c);
    lemma_declaration_kinds(s, kind, c);
}

proof fn lemma_shaping_kinds(s: StateView, kind: SyntaxKind, c: Seq<NodeResult>)
    ensures
        s.reduce_shaping(kind, c) is Some ==> !is_namespace_kind(kind) && !is_declaration_kind(kind),
{
    reveal(StateView::reduce_shaping);
}

proof fn lemma_collection_kinds(s: StateView, kind: SyntaxKind, c: Seq<NodeResult>)
    ensures
        s.reduce_collection(kind, c) is Some ==> !is_namespace_kind(kind) && !is_declaration_kind(kind),
{
    reveal(StateView::reduce_collection);
}

proof fn lemma_operator_kinds(s: StateView, kind: SyntaxKind, c: Seq<NodeResult>)
    ensures
        s.reduce_operator(kind, c) is Some ==> !is_namespace_kind(kind) && !is_declaration_kind(kind),
{
    reveal(StateView::reduce_operator);
}

proof fn lemma_type_specifier_kinds(s: StateView, kind: SyntaxKind, c: Seq<NodeResult>)
    ensures
        s.reduce_type_specifier(kind, c) is Some ==> !is_namespace_kind(kind) && !is_declaration_kind(kind),
{
    reveal(StateView::reduce_type_specifier);
}

proof fn lemma_wrapping_type_kinds(s: StateView, kind: SyntaxKind, c: Seq<NodeResult>)
    ensures
        s.reduce_wrapping_type(kind, c) is Some ==> !is_namespace_kind(kind) && !is_declaration_kind(kind),
{
    reveal(StateView::reduce_wrapping_type);
}

proof fn lemma_member_kinds(s: StateView, kind: SyntaxKind, c: Seq<NodeResult>)
    ensures
        s.reduce_member(kind, c) is Some ==> !is_namespace_kind(kind) && !is_declaration_kind(kind),
{
    reveal(StateView::reduce_member);
}

proof fn lemma_namespace_kinds(s: StateView, kind: SyntaxKind, c: Seq<NodeResult>)
    ensures
        s.reduce_namespace(kind, c) is Some <==> is_namespace_kind(kind),
{
    reveal(StateView::reduce_namespace);
}

proof fn lemma_declaration_kinds(s: StateView, kind: SyntaxKind, c: Seq<NodeResult>)
    ensures
        s.reduce_declaration(kind, c) is Some <==> is_declaration_kind(kind),
{
    reveal(StateView::reduce_declaration);
}

proof fn lemma_namespace_scopes(s: StateView, kind: SyntaxKind, c: Seq<NodeResult>)
    requires
        s.reduce_namespace(kind, c) is Some,
    ensures
        s.reduce_namespace(kind, c)->Some_0.0.type_parameters == s.type_parameters,
        scope_change(kind, c) == 0,
{
    reveal(StateView::reduce_namespace);
}

proof fn lemma_declaration_scopes(s: StateView, kind: SyntaxKind, c: Seq<NodeResult>)
    requires
        s.reduce_declaration(kind, c) matches Some(r) && r.1 is Ok,
    ensures
        s.reduce_declaration(kind, c)->Some_0.0.type_parameters.len() == s.type_parameters.len()
            + scope_change(kind, c),
{
    reveal(StateView::reduce_declaration);
    match kind {
        SyntaxKind::TypeParameters => {
            assert(s.make_type_parameters(c[1]).0.type_parameters.len() == s.type_parameters.len()
                + 1);
        },
        SyntaxKind::FunctionDeclaration => {
            lemma_function_declaration_scopes(s, c[0], c[1], c[2]);
        },
        SyntaxKind::MethodishDeclaration => {
            lemma_method_declaration_scopes(s, c[0], c[1], c[2], c[3]);
        },
        SyntaxKind::AliasDeclaration => {
            lemma_alias_declaration_scopes(s, c[1], c[2], c[3], c[4], c[6]);
        },
        SyntaxKind::ConstDeclaration => {
            assert(s.make_const_declaration(c[0], c[2], c[3]).0.type_parameters
                == s.type_parameters);
        },
        SyntaxKind::ClassishDeclaration => {
            lemma_class_declaration_scopes(s, c[0], c[1], c[2], c[3], c[4], c[5], c[7], c[9], c[11]);
        },
        SyntaxKind::EnumDeclaration => {
            assert(s.make_enum_declaration(c[0], c[2], c[4], c[5], c[7]).0.type_parameters
                == s.type_parameters);
        },
        _ => {},
    }
}

/// The declaration of a method closes the scope of the type parameters that
/// its header holds, and no other.
pub proof fn lemma_method_declaration_scopes(
    s: StateView,
    attributes: NodeResult,
    header: NodeResult,
    body: NodeResult,
    closer: NodeResult,
)
    requires
        s.make_methodish_declaration(attributes, header, body, closer).1 is Ok,
    ensures
        ({
            let after = s.make_methodish_declaration(attributes, header, body, closer).0;
            &&& after.namespaces == s.namespaces
            &&& after.decls == s.decls
            &&& after.type_parameters == if has_type_parameters(header) {
                s.type_parameters.drop_last()
            } else {
                s.type_parameters
            }
        }),
{
}

/// The declaration of an alias closes the scope of its type parameters, and
/// no other.
pub proof fn lemma_alias_declaration_scopes(
    s: StateView,
    keyword: NodeResult,
    name: NodeResult,
    generic_params: NodeResult,
    constraint: NodeResult,
    aliased_type: NodeResult,
)
    requires
        s.make_alias_declaration(keyword, name, generic_params, constraint, aliased_type).1 is Ok,
    ensures
        ({
            let after = s.make_alias_declaration(
                keyword,
                name,
                generic_params,
                constraint,
                aliased_type,
            ).0;
            &&& after.namespaces == s.namespaces
            &&& after.type_parameters == if is_type_parameters(generic_params) && !(name
                matches Ok(n) && n.is_ignored()) {
                s.type_parameters.drop_last()
            } else {
                s.type_parameters
            }
        }),
{
}

/// The declaration of a class closes the scope of its type parameters, and
/// no other.
pub proof fn lemma_class_declaration_scopes(
    s: StateView,
    attributes: NodeResult,
    modifiers: NodeResult,
    xhp_keyword: NodeResult,
    class_keyword: NodeResult,
    name: NodeResult,
    tparams: NodeResult,
    extends: NodeResult,
    implements: NodeResult,
    body: NodeResult,
)
    requires
        s.make_classish_declaration(
            attributes,
            modifiers,
            xhp_keyword,
            class_keyword,
            name,
            tparams,
            extends,
            implements,
            body,
        ).1 is Ok,
    ensures
        ({
            let after = s.make_classish_declaration(
                attributes,
                modifiers,
                xhp_keyword,
                class_keyword,
                name,
                tparams,
                extends,
                implements,
                body,
            ).0;
            &&& after.namespaces == s.namespaces
            &&& after.type_parameters == if is_type_parameters(tparams) {
                s.type_parameters.drop_last()
            } else {
                s.type_parameters
            }
        }),
{
}

/// The depth of the stack of namespaces after the production of kind
/// `kind` is reduced from `c`: one more after the header of a namespace,
/// unless it takes the place of a namespace that a statement opened; one
/// less after the body of a block, down to the global namespace; and what it
/// was after every other production.
pub open spec fn namespace_depth_after(s: StateView, kind: SyntaxKind, c: Seq<NodeResult>) -> int {
    let depth = s.namespaces.stack.len() as int;
    match kind {
        SyntaxKind::NamespaceDeclarationHeader => if c.len() == 2 && c[1] is Ok
            && !s.namespaces.replaces_top() {
            depth + 1
        } else {
            depth
        },
        SyntaxKind::NamespaceBody => if c.len() == 3 && depth > 1 && (c[1] matches Ok(body)
            && !body.is_token(TokenKind::Semicolon)) {
            depth - 1
        } else {
            depth
        },
        _ => depth,
    }
}

/// Only the header and the body of a namespace change the depth of the
/// stack of namespaces, by one frame, and no production but those of
/// namespaces and imports changes the stack at all.
pub proof fn lemma_reduce_namespace_depth(s: StateView, kind: SyntaxKind, c: Seq<NodeResult>)
    requires
        s.namespaces.wf(),
    ensures
        s.reduce(kind, c).0.namespaces.wf(),
        s.reduce(kind, c).0.namespaces.stack.len() == namespace_depth_after(s, kind, c),
        !is_namespace_kind(kind) ==> s.reduce(kind, c).0.namespaces == s.namespaces,
{
    lemma_kinds_of_groups(s, kind, c);
    if is_namespace_kind(kind) {
        lemma_namespace_depth(s, kind, c);
    } else if is_declaration_kind(kind) {
        lemma_declaration_namespaces(s, kind, c);
    }
}

proof fn lemma_namespace_depth(s: StateView, kind: SyntaxKind, c: Seq<NodeResult>)
    requires
        s.namespaces.wf(),
        is_namespace_kind(kind),
    ensures
        s.reduce_namespace(kind, c) is Some,
        s.reduce_namespace(kind, c)->Some_0.0.namespaces.wf(),
        s.reduce_namespace(kind, c)->Some_0.0.namespaces.stack.len() == namespace_depth_after(
            s,
            kind,
            c,
        ),
{
    reveal(StateView::reduce_namespace);
    match kind {
        SyntaxKind::NamespaceDeclarationHeader => {
            if c.len() == 2 && c[1] is Ok {
                lemma_namespace_bottom(
                    s.namespaces,
                    match get_name(Seq::empty(), c[1]->Ok_0) {
                        Ok(id) => Some(id.1),
                        Err(_) => None,
                    },
                );
            }
        },
        SyntaxKind::NamespaceBody => {
            lemma_namespace_bottom(s.namespaces, None);
        },
        SyntaxKind::NamespaceEmptyBody => {
            lemma_namespace_bottom(s.namespaces, None);
        },
        SyntaxKind::NamespaceUseDeclaration => {
            if c.len() == 4 && c[2] is Ok {
                let imports = c[2]->Ok_0;
                lemma_add_imports_depth(
                    s.namespaces,
                    Seq::empty(),
                    imports.items(),
                    imports.items().len(),
                );
            }
        },
        SyntaxKind::NamespaceGroupUseDeclaration => {
            if c.len() == 7 && c[2] is Ok && c[4] is Ok {
                let imports = c[4]->Ok_0;
                match get_name(Seq::empty(), c[2]->Ok_0) {
                    Ok(prefix) => {
                        lemma_add_imports_depth(
                            s.namespaces,
                            prefix.1,
                            imports.items(),
                            imports.items().len(),
                        );
                    },
                    Err(_) => {},
                }
            }
        },
        _ => {},
    }
}

proof fn lemma_declaration_namespaces(s: StateView, kind: SyntaxKind, c: Seq<NodeResult>)
    requires
        is_declaration_kind(kind),
    ensures
        s.reduce_declaration(kind, c) is Some,
        s.reduce_declaration(kind, c)->Some_0.0.namespaces == s.namespaces,
{
    reveal(StateView::reduce_declaration);
}

/// Imports change the frame at the top of the stack of namespaces and leave
/// its depth and the prefixes of its frames as they are.
pub proof fn lemma_add_imports_depth(
    namespaces: NamespaceBuilderView,
    prefix: Seq<char>,
    items: Seq<NodeView>,
    n: nat,
)
    requires
        namespaces.wf(),
    ensures
        add_imports_first(namespaces, prefix, items, n).0.wf(),
        add_imports_first(namespaces, prefix, items, n).0.stack.len() == namespaces.stack.len(),
    decreases n,
{
    if n == 0 || n > items.len() {
    } else {
        lemma_add_imports_depth(namespaces, prefix, items, (n - 1) as nat);
        let before = add_imports_first(namespaces, prefix, items, (n - 1) as nat).0;
        assert forall|name: Seq<char>, aliased: Option<Seq<char>>|
            (#[trigger] before.add_import(name, aliased)).wf() && before.add_import(
                name,
                aliased,
            ).stack.len() == before.stack.len() by {
            let after = before.add_import(name, aliased);
            assert forall|i: int| 0 <= i < after.stack.len() implies starts_with(
                #[trigger] after.stack[i].name,
                SEPARATOR,
            ) by {
                assert(after.stack[i].name == before.stack[i].name);
            }
        }
    }
}

} // verus!
