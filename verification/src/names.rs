//! From nodes to names: how a simple or a qualified name is read under a
//! namespace.

use crate::arena::{
    arena_string_into_str, arena_string_new, arena_string_push_str, arena_string_text,
};
use crate::ast_defs::{Id, IdView};
use crate::error::ParseError;
use crate::node::{lemma_node_view, nodes_view, NodeView, Node_};
use crate::state::DirectDeclSmartConstructors;
use crate::text::{concat, starts_with, str_eq, str_starts_with, SEPARATOR};
use vstd::prelude::*;
use vstd::string::*;

verus! {

/// The name of a constructor.
pub open spec fn construct_name() -> Seq<char> {
    "__construct"@
}

/// The text that one part of a qualified name adds to it.
pub open spec fn part_text(part: NodeView) -> Result<Seq<char>, ParseError> {
    match part {
        NodeView::Name(name, _) => Ok(name),
        NodeView::Backslash(_) => Ok(seq![SEPARATOR]),
        NodeView::ListItem(fst, snd) => match (*fst, *snd) {
            (NodeView::Name(name, _), NodeView::Backslash(_)) => Ok(name + seq![SEPARATOR]),
            _ => Err(ParseError::ExpectedNameAndSeparator),
        },
        _ => Err(ParseError::ExpectedNamePart),
    }
}

/// The texts of the first `n` parts in a row; the failure of the first part
/// that fails.
pub open spec fn parts_text(parts: Seq<NodeView>, n: nat) -> Result<Seq<char>, ParseError>
    decreases n,
{
    if n == 0 || n > parts.len() {
        Ok(Seq::empty())
    } else {
        match parts_text(parts, (n - 1) as nat) {
            Err(e) => Err(e),
            Ok(text) => match part_text(parts[n - 1]) {
                Err(e) => Err(e),
                Ok(t) => Ok(text + t),
            },
        }
    }
}

/// Whether the parts begin with a separator, so that they spell a fully
/// qualified name.
pub open spec fn is_fully_qualified(parts: Seq<NodeView>) -> bool {
    parts.len() > 0 && parts[0] is Backslash
}

/// The name that the parts spell: as they are where they begin with a
/// separator, else under `namespace`.
pub open spec fn qualified_name_from_parts(namespace: Seq<char>, parts: Seq<NodeView>) -> Result<
    Seq<char>,
    ParseError,
> {
    match parts_text(parts, parts.len()) {
        Err(e) => Err(e),
        Ok(text) => Ok(
            if is_fully_qualified(parts) {
                text
            } else {
                namespace + text
            },
        ),
    }
}

/// Whether a simple name stands for itself under every namespace: the empty
/// name, `self`, `parent`, `static`, `this`, the name of a constructor, and
/// a name that begins with the separator.
pub open spec fn stands_unqualified(name: Seq<char>) -> bool {
    ||| name.len() == 0
    ||| name == "self"@
    ||| name == "parent"@
    ||| name == "static"@
    ||| name == "this"@
    ||| name == construct_name()
    ||| starts_with(name, SEPARATOR)
}

/// A simple name under `namespace`: itself where it stands unqualified,
/// else behind the namespace.
pub open spec fn qualify(namespace: Seq<char>, name: Seq<char>) -> Seq<char> {
    if stands_unqualified(name) {
        name
    } else {
        namespace + name
    }
}

/// The name that a node stands for under `namespace`, with its position. A
/// simple name is qualified by the namespace, unless it stands unqualified;
/// an XHP name and the constructor stand for themselves.
pub open spec fn get_name(namespace: Seq<char>, name: NodeView) -> Result<IdView, ParseError> {
    match name {
        NodeView::Name(name, pos) => Ok(IdView(pos, qualify(namespace, name))),
        NodeView::XhpName(name, pos) => Ok(IdView(pos, name)),
        NodeView::QualifiedName(parts, pos) => match qualified_name_from_parts(namespace, parts) {
            Ok(text) => Ok(IdView(pos, text)),
            Err(e) => Err(e),
        },
        NodeView::Construct(pos) => Ok(IdView(pos, construct_name())),
        _ => Err(ParseError::ExpectedName),
    }
}

pub open spec fn id_result_view(r: Result<Id, ParseError>) -> Result<IdView, ParseError> {
    match r {
        Ok(id) => Ok(id@),
        Err(e) => Err(e),
    }
}

/// Whether the simple name `name` stands for itself under every namespace.
pub fn name_stands_unqualified(name: &str) -> (r: bool)
    ensures
        r == stands_unqualified(name@),
{
    proof {
        reveal_strlit("self");
        reveal_strlit("parent");
        reveal_strlit("static");
        reveal_strlit("this");
        reveal_strlit("__construct");
    }
    name.unicode_len() == 0 || str_eq(name, "self") || str_eq(name, "parent") || str_eq(
        name,
        "static",
    ) || str_eq(name, "this") || str_eq(name, "__construct") || str_starts_with(name, SEPARATOR)
}

/// The text of one part of a qualified name.
fn part_text_of<'a>(part: Node_<'a>) -> (r: Result<(&'a str, bool), ParseError>)
    ensures
        match r {
            Ok((name, separated)) => part_text(part@) == Ok::<Seq<char>, ParseError>(
                if separated {
                    name@ + seq![SEPARATOR]
                } else {
                    name@
                },
            ),
            Err(e) => part_text(part@) == Err::<Seq<char>, ParseError>(e),
        },
{
    proof {
        lemma_node_view(part);
    }
    match part {
        Node_::Name(name, _) => Ok((name, false)),
        Node_::Backslash(_) => {
            proof {
                reveal_strlit("");
                assert(""@ + seq![SEPARATOR] =~= seq![SEPARATOR]);
            }
            Ok(("", true))
        },
        Node_::ListItem(pair) => {
            proof {
                lemma_node_view(pair.0);
                lemma_node_view(pair.1);
            }
            match pair.0 {
                Node_::Name(name, _) => match pair.1 {
                    Node_::Backslash(_) => Ok((name, true)),
                    _ => Err(ParseError::ExpectedNameAndSeparator),
                },
                _ => Err(ParseError::ExpectedNameAndSeparator),
            }
        },
        _ => Err(ParseError::ExpectedNamePart),
    }
}

impl<'a> DirectDeclSmartConstructors<'a> {
    /// The name that `parts` spell under `namespace`.
    fn qualified_name_from_parts(&self, namespace: &str, parts: &'a Vec<Node_<'a>>) -> (r: Result<
        &'a str,
        ParseError,
    >)
        ensures
            match r {
                Ok(text) => qualified_name_from_parts(namespace@, nodes_view(parts)) == Ok::<
                    Seq<char>,
                    ParseError,
                >(text@),
                Err(e) => qualified_name_from_parts(namespace@, nodes_view(parts)) == Err::<
                    Seq<char>,
                    ParseError,
                >(e),
            },
    {
        let ghost views = nodes_view(parts);
        let fully_qualified = parts.len() > 0 && match parts[0] {
            Node_::Backslash(_) => true,
            _ => false,
        };
        assert(fully_qualified == is_fully_qualified(views)) by {
            if parts.len() > 0 {
                assert(views[0] == parts[0]@);
                lemma_node_view(parts[0]);
            }
        }
        let mut qualified_name = arena_string_new(self.state.arena);
        if !fully_qualified {
            arena_string_push_str(&mut qualified_name, namespace);
            assert(Seq::<char>::empty() + namespace@ =~= namespace@);
        }
        proof {
            reveal_strlit("\\");
            assert("\\"@ =~= seq![SEPARATOR]);
        }
        let ghost prefix = arena_string_text(qualified_name);
        assert(prefix + Seq::<char>::empty() =~= prefix);
        let mut i: usize = 0;
        while i < parts.len()
            invariant
                i <= parts.len(),
                views == nodes_view(parts),
                "\\"@ == seq![SEPARATOR],
                match parts_text(views, i as nat) {
                    Ok(text) => arena_string_text(qualified_name) == prefix + text,
                    Err(_) => false,
                },
            decreases parts.len() - i,
        {
            assert(views[i as int] == parts[i as int]@);
            let ghost before = parts_text(views, i as nat)->Ok_0;
            match part_text_of(parts[i]) {
                Err(e) => {
                    proof {
                        lemma_parts_text_fails(views, (i + 1) as nat, parts.len() as nat);
                    }
                    return Err(e);
                },
                Ok((name, separated)) => {
                    arena_string_push_str(&mut qualified_name, name);
                    if separated {
                        arena_string_push_str(&mut qualified_name, "\\");
                    }
                    assert(arena_string_text(qualified_name) =~= prefix + (before + part_text(
                        views[i as int],
                    )->Ok_0));
                },
            }
            i = i + 1;
        }
        let text = arena_string_into_str(qualified_name);
        assert(prefix == if fully_qualified {
            Seq::<char>::empty()
        } else {
            namespace@
        });
        assert(Seq::<char>::empty() + parts_text(views, parts.len() as nat)->Ok_0 =~= parts_text(
            views,
            parts.len() as nat,
        )->Ok_0);
        Ok(text)
    }

    /// The name that the node `name` stands for under `namespace`.
    pub fn get_name(&self, namespace: &str, name: Node_<'a>) -> (r: Result<Id<'a>, ParseError>)
        ensures
            id_result_view(r) == get_name(namespace@, name@),
    {
        proof {
            lemma_node_view(name);
        }
        match name {
            Node_::Name(name, pos) => {
                if name_stands_unqualified(name) {
                    Ok(Id(pos, name))
                } else {
                    Ok(Id(pos, concat(self.state.arena, namespace, name)))
                }
            },
            Node_::XhpName(name, pos) => {
                // xhp names are always unqualified
                Ok(Id(pos, name))
            },
            Node_::QualifiedName(parts, pos) => {
                match self.qualified_name_from_parts(namespace, parts) {
                    Ok(text) => Ok(Id(pos, text)),
                    Err(e) => Err(e),
                }
            },
            Node_::Construct(pos) => Ok(Id(pos, "__construct")),
            _ => Err(ParseError::ExpectedName),
        }
    }
}

/// Once the parts up to some part fail, all of them fail in the same way.
pub proof fn lemma_parts_text_fails(parts: Seq<NodeView>, n: nat, m: nat)
    requires
        0 < n <= m <= parts.len(),
        parts_text(parts, n) is Err,
    ensures
        parts_text(parts, m) == parts_text(parts, n),
    decreases m - n,
{
    if n < m {
        lemma_parts_text_fails(parts, n, (m - 1) as nat);
    }
}

} // verus!
