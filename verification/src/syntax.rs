//! The concrete syntax tree that the parser hands over: every node holds its
//! children and a value that the parser computed for it.

use crate::syntax_kind::SyntaxKind;
use vstd::prelude::*;

verus! {

/// What a node is: nothing, a token, a list of nodes, or a production with
/// its children in the order of the grammar.
pub enum SyntaxVariant<T, V> {
    Missing,
    Token(Box<T>),
    SyntaxList(Vec<Syntax<T, V>>),
    Production(SyntaxKind, Vec<Syntax<T, V>>),
}

/// A node of the tree, with the value that belongs to it.
pub struct Syntax<T, V> {
    pub syntax: SyntaxVariant<T, V>,
    pub value: V,
}

/// The first token among the first `n` of `nodes`, in the order of the
/// source.
pub open spec fn first_token_of<T, V>(nodes: Seq<Syntax<T, V>>, n: nat) -> Option<T>
    decreases nodes, n,
{
    if n == 0 || n > nodes.len() {
        None
    } else {
        match first_token_of(nodes, (n - 1) as nat) {
            Some(token) => Some(token),
            None => nodes[n - 1].spec_leading_token(),
        }
    }
}

/// The last token among the nodes from `from` on, in the order of the
/// source.
pub open spec fn last_token_of<T, V>(nodes: Seq<Syntax<T, V>>, from: nat) -> Option<T>
    decreases nodes, nodes.len() - from,
{
    if from >= nodes.len() {
        None
    } else {
        match last_token_of(nodes, from + 1) {
            Some(token) => Some(token),
            None => nodes[from as int].spec_trailing_token(),
        }
    }
}

impl<T, V> Syntax<T, V> {
    /// The children of the node, in the order of the source.
    pub open spec fn spec_children(self) -> Seq<Syntax<T, V>> {
        match self.syntax {
            SyntaxVariant::Missing => Seq::empty(),
            SyntaxVariant::Token(_) => Seq::empty(),
            SyntaxVariant::SyntaxList(nodes) => nodes@,
            SyntaxVariant::Production(_, nodes) => nodes@,
        }
    }

    /// The token that the node is, if it is one.
    pub open spec fn spec_get_token(self) -> Option<T> {
        match self.syntax {
            SyntaxVariant::Token(token) => Some(*token),
            _ => None,
        }
    }

    /// The first token of the node: the node itself, or the first token of
    /// the first child that has one.
    pub open spec fn spec_leading_token(self) -> Option<T>
        decreases self,
    {
        match self.syntax {
            SyntaxVariant::Missing => None,
            SyntaxVariant::Token(token) => Some(*token),
            SyntaxVariant::SyntaxList(nodes) => first_token_of(nodes@, nodes@.len()),
            SyntaxVariant::Production(_, nodes) => first_token_of(nodes@, nodes@.len()),
        }
    }

    /// The last token of the node: the node itself, or the last token of the
    /// last child that has one.
    pub open spec fn spec_trailing_token(self) -> Option<T>
        decreases self,
    {
        match self.syntax {
            SyntaxVariant::Missing => None,
            SyntaxVariant::Token(token) => Some(*token),
            SyntaxVariant::SyntaxList(nodes) => last_token_of(nodes@, 0),
            SyntaxVariant::Production(_, nodes) => last_token_of(nodes@, 0),
        }
    }

    /// The node with the given content and value.
    pub fn make(syntax: SyntaxVariant<T, V>, value: V) -> (r: Self)
        ensures
            r.syntax == syntax,
            r.value == value,
    {
        Syntax { syntax, value }
    }

    /// The children of the node, in the order of the source.
    pub fn children(&self) -> (r: Vec<&Self>)
        ensures
            r@.len() == self.spec_children().len(),
            forall|i: int| 0 <= i < r@.len() ==> *(#[trigger] r@[i]) == self.spec_children()[i],
    {
        match &self.syntax {
            SyntaxVariant::Missing => Vec::new(),
            SyntaxVariant::Token(_) => Vec::new(),
            SyntaxVariant::SyntaxList(nodes) => Self::refs_of(nodes),
            SyntaxVariant::Production(_, nodes) => Self::refs_of(nodes),
        }
    }

    /// References to `nodes`, one for each.
    fn refs_of(nodes: &Vec<Self>) -> (r: Vec<&Self>)
        ensures
            r@.len() == nodes@.len(),
            forall|i: int| 0 <= i < r@.len() ==> *(#[trigger] r@[i]) == nodes@[i],
    {
        let mut acc: Vec<&Self> = Vec::new();
        let mut i: usize = 0;
        while i < nodes.len()
            invariant
                i <= nodes.len(),
                acc@.len() == i,
                forall|k: int| 0 <= k < i ==> *(#[trigger] acc@[k]) == nodes@[k],
            decreases nodes.len() - i,
        {
            acc.push(&nodes[i]);
            i = i + 1;
        }
        acc
    }

    /// The token that the node is, if it is one.
    pub fn get_token(&self) -> (r: Option<&T>)
        ensures
            match r {
                Some(token) => self.spec_get_token() == Some(*token),
                None => self.spec_get_token() is None,
            },
    {
        match &self.syntax {
            SyntaxVariant::Token(t) => Some(&**t),
            _ => None,
        }
    }

    /// The first token of the node.
    pub fn leading_token(&self) -> (r: Option<&T>)
        ensures
            match r {
                Some(token) => self.spec_leading_token() == Some(*token),
                None => self.spec_leading_token() is None,
            },
        decreases self,
    {
        match &self.syntax {
            SyntaxVariant::Missing => None,
            SyntaxVariant::Token(t) => Some(&**t),
            SyntaxVariant::SyntaxList(nodes) => Self::leading_token_of(nodes),
            SyntaxVariant::Production(_, nodes) => Self::leading_token_of(nodes),
        }
    }

    fn leading_token_of(nodes: &Vec<Self>) -> (r: Option<&T>)
        ensures
            match r {
                Some(token) => first_token_of(nodes@, nodes@.len()) == Some(*token),
                None => first_token_of(nodes@, nodes@.len()) is None,
            },
        decreases nodes,
    {
        let mut i: usize = 0;
        while i < nodes.len()
            invariant
                i <= nodes.len(),
                first_token_of(nodes@, i as nat) is None,
            decreases nodes.len() - i,
        {
            match nodes[i].leading_token() {
                Some(token) => {
                    proof {
                        lemma_first_token_stays(nodes@, (i + 1) as nat, nodes@.len());
                    }
                    return Some(token);
                },
                None => {},
            }
            i = i + 1;
        }
        None
    }

    /// The last token of the node.
    pub fn trailing_token(&self) -> (r: Option<&T>)
        ensures
            match r {
                Some(token) => self.spec_trailing_token() == Some(*token),
                None => self.spec_trailing_token() is None,
            },
        decreases self,
    {
        match &self.syntax {
            SyntaxVariant::Missing => None,
            SyntaxVariant::Token(t) => Some(&**t),
            SyntaxVariant::SyntaxList(nodes) => Self::trailing_token_of(nodes),
            SyntaxVariant::Production(_, nodes) => Self::trailing_token_of(nodes),
        }
    }

    fn trailing_token_of(nodes: &Vec<Self>) -> (r: Option<&T>)
        ensures
            match r {
                Some(token) => last_token_of(nodes@, 0) == Some(*token),
                None => last_token_of(nodes@, 0) is None,
            },
        decreases nodes,
    {
        let mut i: usize = nodes.len();
        while i > 0
            invariant
                i <= nodes.len(),
                last_token_of(nodes@, i as nat) is None,
            decreases i,
        {
            match nodes[i - 1].trailing_token() {
                Some(token) => {
                    proof {
                        lemma_last_token_stays(nodes@, (i - 1) as nat, 0);
                    }
                    return Some(token);
                },
                None => {},
            }
            i = i - 1;
        }
        None
    }
}

/// Once a token is found among the first nodes, it is the first token of
/// any longer prefix.
pub proof fn lemma_first_token_stays<T, V>(nodes: Seq<Syntax<T, V>>, n: nat, m: nat)
    requires
        n <= m <= nodes.len(),
        first_token_of(nodes, n) is Some,
    ensures
        first_token_of(nodes, m) == first_token_of(nodes, n),
    decreases m - n,
{
    if n < m {
        lemma_first_token_stays(nodes, n, (m - 1) as nat);
    }
}

/// Once a token is found among the last nodes, it is the last token of any
/// longer suffix.
pub proof fn lemma_last_token_stays<T, V>(nodes: Seq<Syntax<T, V>>, from: nat, to: nat)
    requires
        to <= from <= nodes.len(),
        last_token_of(nodes, from) is Some,
    ensures
        last_token_of(nodes, to) == last_token_of(nodes, from),
    decreases from - to,
{
    if to < from {
        lemma_last_token_stays(nodes, from, to + 1);
    }
}

} // verus!
