//! The combinators that shape lists, and the default reduction of a
//! production that the pass does not interpret.

use crate::error::ParseError;
use crate::node::{lemma_node_view, nodes_view, result_view, Node, NodeView, Node_};
use crate::state::DirectDeclSmartConstructors;
use crate::token_kind::TokenKind;
use vstd::prelude::*;

verus! {

pub type NodeResult = Result<NodeView, ParseError>;

/// The views of the reduced children of a production.
pub open spec fn results_view(results: Seq<Node>) -> Seq<NodeResult> {
    results.map_values(|r: Node| result_view(r))
}

/// The marker that a `yield` leaves: it tells an enclosing function that it
/// is a generator.
pub open spec fn yield_marker() -> NodeView {
    NodeView::Token(TokenKind::Yield)
}

/// Whether a result is a node that holds a `yield`.
pub open spec fn holds_yield(r: NodeResult) -> bool {
    r matches Ok(n) && !is_zero_node(n)
}

/// Whether both operands were read and one of them holds a `yield`.
pub open spec fn yield_among2(a: NodeResult, b: NodeResult) -> bool {
    a is Ok && b is Ok && (holds_yield(a) || holds_yield(b))
}

/// Whether all three operands were read and one of them holds a `yield`.
pub open spec fn yield_among3(a: NodeResult, b: NodeResult, c: NodeResult) -> bool {
    a is Ok && b is Ok && c is Ok && (holds_yield(a) || holds_yield(b) || holds_yield(c))
}

/// Whether a node holds nothing that the default reduction keeps: it is
/// neither the marker of a `yield` nor a list that holds one at any depth.
pub open spec fn is_zero_node(n: NodeView) -> bool
    decreases n, 0nat,
{
    match n {
        NodeView::Token(TokenKind::Yield) => false,
        NodeView::List(inner) => all_zero(inner, inner.len()),
        _ => true,
    }
}

/// Whether none of the first `n` of `nodes` holds anything that the default
/// reduction keeps.
pub open spec fn all_zero(nodes: Seq<NodeView>, n: nat) -> bool
    decreases nodes, n,
{
    if n == 0 || n > nodes.len() {
        true
    } else {
        all_zero(nodes, (n - 1) as nat) && is_zero_node(nodes[n - 1])
    }
}

/// Whether the default reduction drops a result. A failure is never dropped.
pub open spec fn is_zero(s: NodeResult) -> bool {
    match s {
        Err(_) => false,
        Ok(n) => is_zero_node(n),
    }
}

/// The result that stands for nothing.
pub open spec fn zero() -> NodeResult {
    Ok(NodeView::Ignored)
}

/// What one child adds to the nodes that the default reduction keeps: the
/// elements of a list, a node that is not zero, or nothing.
pub open spec fn flatten_step(kept: Seq<NodeView>, child: NodeView) -> Seq<NodeView> {
    match child {
        NodeView::List(children) => kept + children,
        x => if is_zero_node(x) {
            kept
        } else {
            kept.push(x)
        },
    }
}

/// The nodes that the default reduction keeps of the first `n` children; the
/// failure of the first child that failed.
pub open spec fn flatten_first(lst: Seq<NodeResult>, n: nat) -> Result<Seq<NodeView>, ParseError>
    decreases n,
{
    if n == 0 || n > lst.len() {
        Ok(Seq::empty())
    } else {
        match flatten_first(lst, (n - 1) as nat) {
            Err(e) => Err(e),
            Ok(kept) => match lst[n - 1] {
                Err(e) => Err(e),
                Ok(child) => Ok(flatten_step(kept, child)),
            },
        }
    }
}

/// A sequence of nodes as one node: nothing, the node itself, or a list.
pub open spec fn collapse(kept: Seq<NodeView>) -> NodeView {
    if kept.len() == 0 {
        NodeView::Ignored
    } else if kept.len() == 1 {
        kept[0]
    } else {
        NodeView::List(kept)
    }
}

/// The default reduction of a production: the elements of the children that
/// are lists are spliced in, the other children are kept where they hold a
/// `yield`, and a single node that remains stands for itself.
pub open spec fn flatten(lst: Seq<NodeResult>) -> NodeResult {
    match flatten_first(lst, lst.len()) {
        Err(e) => Err(e),
        Ok(kept) => Ok(collapse(kept)),
    }
}

/// Whether one of the results is the marker of a `yield`.
pub open spec fn has_yield_marker(items: Seq<NodeResult>) -> bool {
    exists|i: int| 0 <= i < items.len() && #[trigger] items[i] == Ok::<NodeView, ParseError>(
        yield_marker(),
    )
}

/// The nodes among the first `n` results that are not ignored; the first
/// failure.
pub open spec fn list_first(items: Seq<NodeResult>, n: nat) -> Result<Seq<NodeView>, ParseError>
    decreases n,
{
    if n == 0 || n > items.len() {
        Ok(Seq::empty())
    } else {
        match list_first(items, (n - 1) as nat) {
            Err(e) => Err(e),
            Ok(kept) => match items[n - 1] {
                Err(e) => Err(e),
                Ok(NodeView::Ignored) => Ok(kept),
                Ok(node) => Ok(kept.push(node)),
            },
        }
    }
}

/// The reduction of a list production. The marker of a `yield` among the
/// items stands for the whole list. Else the items that are not ignored make
/// a list, and no item at all is ignored.
pub open spec fn make_list(items: Seq<NodeResult>) -> NodeResult {
    if has_yield_marker(items) {
        Ok(yield_marker())
    } else {
        match list_first(items, items.len()) {
            Err(e) => Err(e),
            Ok(kept) => Ok(
                if kept.len() == 0 {
                    NodeView::Ignored
                } else {
                    NodeView::List(kept)
                },
            ),
        }
    }
}

/// The reduction of an item of a list with its separator: what is not
/// ignored of the two, as a pair where both are there.
/// An operand that holds a `yield` makes the whole the marker of a `yield`,
/// so that the function around it is known as a generator.
pub open spec fn make_list_item(item: NodeResult, sep: NodeResult) -> NodeResult {
    if yield_among2(item, sep) {
        Ok(yield_marker())
    } else {
        plain_list_item(item, sep)
    }
}

/// The same where no operand holds a `yield`.
pub open spec fn plain_list_item(item: NodeResult, sep: NodeResult) -> NodeResult {
    match item {
        Err(e) => Err(e),
        Ok(item) => match sep {
            Err(e) => Err(e),
            Ok(sep) => Ok(
                if item.is_ignored() {
                    sep
                } else if sep.is_ignored() {
                    item
                } else {
                    NodeView::ListItem(Box::new(item), Box::new(sep))
                },
            ),
        },
    }
}

/// A pair of two nodes, where neither failed.
/// An operand that holds a `yield` makes the whole the marker of a `yield`,
/// so that the function around it is known as a generator.
pub open spec fn make_pair(fst: NodeResult, snd: NodeResult) -> NodeResult {
    if yield_among2(fst, snd) {
        Ok(yield_marker())
    } else {
        plain_pair(fst, snd)
    }
}

/// The same where no operand holds a `yield`.
pub open spec fn plain_pair(fst: NodeResult, snd: NodeResult) -> NodeResult {
    match fst {
        Err(e) => Err(e),
        Ok(fst) => match snd {
            Err(e) => Err(e),
            Ok(snd) => Ok(NodeView::ListItem(Box::new(fst), Box::new(snd))),
        },
    }
}

pub proof fn lemma_flatten_fails(lst: Seq<NodeResult>, n: nat, m: nat)
    requires
        0 < n <= m <= lst.len(),
        flatten_first(lst, n) is Err,
    ensures
        flatten_first(lst, m) == flatten_first(lst, n),
    decreases m - n,
{
    if n < m {
        lemma_flatten_fails(lst, n, (m - 1) as nat);
    }
}

pub proof fn lemma_list_fails(items: Seq<NodeResult>, n: nat, m: nat)
    requires
        0 < n <= m <= items.len(),
        list_first(items, n) is Err,
    ensures
        list_first(items, m) == list_first(items, n),
    decreases m - n,
{
    if n < m {
        lemma_list_fails(items, n, (m - 1) as nat);
    }
}

/// A list that holds a node that is not zero is not zero.
pub proof fn lemma_all_zero_fails(nodes: Seq<NodeView>, n: nat, m: nat)
    requires
        n <= m <= nodes.len(),
        !all_zero(nodes, n),
    ensures
        !all_zero(nodes, m),
    decreases m - n,
{
    if n < m {
        lemma_all_zero_fails(nodes, n, (m - 1) as nat);
    }
}

/// Whether `node` holds nothing that the default reduction keeps.
pub fn node_is_zero(node: Node_) -> (r: bool)
    ensures
        r == is_zero_node(node@),
    decreases node,
{
    proof {
        lemma_node_view(node);
    }
    match node {
        Node_::Token(TokenKind::Yield) => false,
        Node_::List(inner) => nodes_are_zero(inner),
        _ => true,
    }
}

/// Whether both operands were read and one of them holds a `yield`.
pub fn any_yield2(a: &Node, b: &Node) -> (r: bool)
    ensures
        r == yield_among2(result_view(*a), result_view(*b)),
{
    match (a, b) {
        (Ok(a), Ok(b)) => !node_is_zero(*a) || !node_is_zero(*b),
        _ => false,
    }
}

/// Whether all three operands were read and one of them holds a `yield`.
pub fn any_yield3(a: &Node, b: &Node, c: &Node) -> (r: bool)
    ensures
        r == yield_among3(result_view(*a), result_view(*b), result_view(*c)),
{
    match (a, b, c) {
        (Ok(a), Ok(b), Ok(c)) => !node_is_zero(*a) || !node_is_zero(*b) || !node_is_zero(*c),
        _ => false,
    }
}

/// Whether none of `nodes` holds anything that the default reduction keeps.
pub fn nodes_are_zero(nodes: &Vec<Node_>) -> (r: bool)
    ensures
        r == all_zero(nodes_view(nodes), nodes.len() as nat),
    decreases nodes,
{
    let mut i: usize = 0;
    while i < nodes.len()
        invariant
            i <= nodes.len(),
            all_zero(nodes_view(nodes), i as nat),
        decreases nodes.len() - i,
    {
        assert(nodes_view(nodes)[i as int] == nodes[i as int]@);
        if !node_is_zero(nodes[i]) {
            proof {
                lemma_all_zero_fails(nodes_view(nodes), (i + 1) as nat, nodes.len() as nat);
            }
            return false;
        }
        i = i + 1;
    }
    true
}

/// Puts `children` behind the nodes of `kept`.
pub fn append_nodes<'a>(kept: &mut Vec<Node_<'a>>, children: &Vec<Node_<'a>>)
    ensures
        nodes_view(final(kept)) == nodes_view(old(kept)) + nodes_view(children),
{
    let ghost before = nodes_view(kept);
    let mut i: usize = 0;
    assert(nodes_view(kept) =~= before + nodes_view(children).take(0));
    while i < children.len()
        invariant
            i <= children.len(),
            nodes_view(kept) == before + nodes_view(children).take(i as int),
        decreases children.len() - i,
    {
        let ghost current = nodes_view(kept);
        kept.push(children[i]);
        assert(nodes_view(kept) =~= current.push(children[i as int]@));
        assert(nodes_view(children).take(i + 1) =~= nodes_view(children).take(i as int).push(
            children[i as int]@,
        ));
        assert(current.push(children[i as int]@) =~= before + nodes_view(children).take(i + 1));
        i = i + 1;
    }
    assert(nodes_view(children).take(children.len() as int) =~= nodes_view(children));
}

/// Whether one of `items` is the marker of a `yield`.
pub fn any_yield_marker(items: &Vec<Node>) -> (r: bool)
    ensures
        r == has_yield_marker(results_view(items@)),
{
    let mut i: usize = 0;
    while i < items.len()
        invariant
            i <= items.len(),
            forall|k: int|
                0 <= k < i ==> #[trigger] results_view(items@)[k] != Ok::<NodeView, ParseError>(
                    yield_marker(),
                ),
        decreases items.len() - i,
    {
        assert(results_view(items@)[i as int] == result_view(items[i as int]));
        match items[i] {
            Ok(node) => {
                if node.is_token(TokenKind::Yield) {
                    return true;
                }
            },
            Err(_) => {},
        }
        i = i + 1;
    }
    false
}

impl<'a> DirectDeclSmartConstructors<'a> {
    /// The default reduction of a production with the reduced children
    /// `lst`.
    pub fn flatten(&self, lst: Vec<Node<'a>>) -> (r: Node<'a>)
        ensures
            result_view(r) == flatten(results_view(lst@)),
    {
        let ghost views = results_view(lst@);
        let mut kept: Vec<Node_<'a>> = Vec::new();
        assert(nodes_view(&kept) =~= Seq::<NodeView>::empty());
        let mut i: usize = 0;
        while i < lst.len()
            invariant
                i <= lst.len(),
                views == results_view(lst@),
                flatten_first(views, i as nat) == Ok::<Seq<NodeView>, ParseError>(
                    nodes_view(&kept),
                ),
            decreases lst.len() - i,
        {
            assert(views[i as int] == result_view(lst[i as int]));
            let ghost before = nodes_view(&kept);
            match lst[i] {
                Err(e) => {
                    proof {
                        lemma_flatten_fails(views, (i + 1) as nat, lst.len() as nat);
                    }
                    return Err(e);
                },
                Ok(node) => {
                    match node.as_list() {
                        Some(children) => {
                            append_nodes(&mut kept, children);
                        },
                        None => {
                            if !node_is_zero(node) {
                                kept.push(node);
                                assert(nodes_view(&kept) =~= before.push(node@));
                            }
                        },
                    }
                    assert(nodes_view(&kept) == flatten_step(before, node@));
                },
            }
            i = i + 1;
        }
        if kept.len() == 0 {
            Ok(Node_::Ignored.with_view())
        } else if kept.len() == 1 {
            assert(nodes_view(&kept)[0] == kept[0]@);
            Ok(kept[0])
        } else {
            let kept = self.allocate(kept);
            Ok(Node_::List(kept).with_view())
        }
    }

    /// The result that stands for nothing.
    pub fn zero() -> (r: Node<'a>)
        ensures
            result_view(r) == zero(),
    {
        Ok(Node_::Ignored.with_view())
    }

    /// Whether the default reduction drops `s`.
    pub fn is_zero(s: &Node<'a>) -> (r: bool)
        ensures
            r == is_zero(result_view(*s)),
    {
        match s {
            Err(_) => false,
            Ok(n) => node_is_zero(*n),
        }
    }

    /// The reduction of a token that is missing.
    pub fn make_missing(&mut self, _offset: usize) -> (r: Node<'a>)
        ensures
            final(self)@ == old(self)@,
            result_view(r) == zero(),
    {
        Ok(Node_::Ignored.with_view())
    }

    /// The reduction of a list production with the reduced items `items`.
    pub fn make_list(&mut self, items: Vec<Node<'a>>, _offset: usize) -> (r: Node<'a>)
        ensures
            final(self)@ == old(self)@,
            result_view(r) == make_list(results_view(items@)),
    {
        if any_yield_marker(&items) {
            return Ok(Node_::Token(TokenKind::Yield).with_view());
        }
        let ghost views = results_view(items@);
        let mut kept: Vec<Node_<'a>> = Vec::new();
        assert(nodes_view(&kept) =~= Seq::<NodeView>::empty());
        let mut i: usize = 0;
        while i < items.len()
            invariant
                i <= items.len(),
                views == results_view(items@),
                !has_yield_marker(views),
                self@ == old(self)@,
                list_first(views, i as nat) == Ok::<Seq<NodeView>, ParseError>(nodes_view(&kept)),
            decreases items.len() - i,
        {
            assert(views[i as int] == result_view(items[i as int]));
            let ghost before = nodes_view(&kept);
            match items[i] {
                Err(e) => {
                    proof {
                        lemma_list_fails(views, (i + 1) as nat, items.len() as nat);
                    }
                    return Err(e);
                },
                Ok(node) => {
                    if !node.is_ignored() {
                        kept.push(node);
                        assert(nodes_view(&kept) =~= before.push(node@));
                    }
                },
            }
            i = i + 1;
        }
        if kept.len() == 0 {
            Ok(Node_::Ignored.with_view())
        } else {
            let kept = self.allocate(kept);
            Ok(Node_::List(kept).with_view())
        }
    }

    /// The reduction of an item of a list with its separator.
    pub fn make_list_item(&mut self, item: Node<'a>, sep: Node<'a>) -> (r: Node<'a>)
        ensures
            final(self)@ == old(self)@,
            result_view(r) == make_list_item(result_view(item), result_view(sep)),
    {
        if any_yield2(&item, &sep) {
            return Ok(Node_::Token(TokenKind::Yield).with_view());
        }
        self.plain_list_item(item, sep)
    }

    fn plain_list_item(&mut self, item: Node<'a>, sep: Node<'a>) -> (r: Node<'a>)
        ensures
            final(self)@ == old(self)@,
            result_view(r) == plain_list_item(result_view(item), result_view(sep)),
    {
        let item = match item {
            Ok(item) => item,
            Err(e) => {
                return Err(e);
            },
        };
        let sep = match sep {
            Ok(sep) => sep,
            Err(e) => {
                return Err(e);
            },
        };
        if item.is_ignored() {
            Ok(sep)
        } else if sep.is_ignored() {
            Ok(item)
        } else {
            Ok(Node_::ListItem(self.allocate((item, sep))).with_view())
        }
    }

    /// The pair of two nodes.
    pub fn make_pair(&self, fst: Node<'a>, snd: Node<'a>) -> (r: Node<'a>)
        ensures
            result_view(r) == make_pair(result_view(fst), result_view(snd)),
    {
        if any_yield2(&fst, &snd) {
            return Ok(Node_::Token(TokenKind::Yield).with_view());
        }
        self.plain_pair(fst, snd)
    }

    fn plain_pair(&self, fst: Node<'a>, snd: Node<'a>) -> (r: Node<'a>)
        ensures
            result_view(r) == plain_pair(result_view(fst), result_view(snd)),
    {
        let fst = match fst {
            Ok(fst) => fst,
            Err(e) => {
                return Err(e);
            },
        };
        let snd = match snd {
            Ok(snd) => snd,
            Err(e) => {
                return Err(e);
            },
        };
        Ok(Node_::ListItem(self.allocate((fst, snd))).with_view())
    }
}

} // verus!
