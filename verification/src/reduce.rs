//! The pass as a whole: the reduction of a production from its reduced
//! children, and the reduction of a tree, bottom-up and from left to right.

use crate::error::ParseError;
use crate::generic_params::make_type_parameter;
use crate::lists::{
    flatten, make_list, make_list_item, make_pair, results_view, yield_marker, zero, NodeResult,
};
use crate::node::{result_view, Node, NodeView, Node_};
use crate::simple::{
    make_classish_body, make_constant_declarator, make_function_declaration_header,
    make_namespace_use_clause, make_old_attribute_specification, make_parameter_declaration,
    make_qualified_name, make_require_clause, make_simple_initializer, make_trait_use,
    make_type_arguments, make_type_constraint,
};
use crate::state::{DirectDeclSmartConstructors, StateView};
use crate::syntax::{Syntax, SyntaxVariant};
use crate::syntax_kind::SyntaxKind;
use crate::token::Token;
use vstd::prelude::*;

verus! {

/// The state and the node after a reduction.
pub type Reduced = (StateView, NodeResult);

/// A failure where the children are not as many as the kind has, else the
/// node.
pub open spec fn with_arity(c: Seq<NodeResult>, arity: nat, node: NodeResult) -> NodeResult {
    if c.len() == arity {
        node
    } else {
        Err(ParseError::UnexpectedArity)
    }
}

/// A failure in the state as it was where the children are not as many as
/// the kind has, else the reduction.
pub open spec fn with_arity_in(s: StateView, c: Seq<NodeResult>, arity: nat, reduced: Reduced)
    -> Reduced {
    if c.len() == arity {
        reduced
    } else {
        (s, Err(ParseError::UnexpectedArity))
    }
}

impl StateView {

    /// The reductions that only give their children another shape. They leave
    /// the state as it is. Nothing where the kind is none of them.
    #[verifier::opaque]
    pub open spec fn reduce_shaping(self, kind: SyntaxKind, c: Seq<NodeResult>) -> Option<
        NodeResult,
    > {
        match kind {
            SyntaxKind::QualifiedName => Some(with_arity(c, 1, make_qualified_name(c[0]))),
            SyntaxKind::SimpleTypeSpecifier => Some(with_arity(c, 1, c[0])),
            SyntaxKind::LiteralExpression => Some(with_arity(c, 1, c[0])),
            SyntaxKind::SimpleInitializer => Some(
                with_arity(c, 2, make_simple_initializer(c[0], c[1])),
            ),
            SyntaxKind::ElementInitializer => Some(with_arity(c, 3, make_pair(c[0], c[2]))),
            SyntaxKind::ListItem => Some(with_arity(c, 2, make_list_item(c[0], c[1]))),
            SyntaxKind::YieldExpression => Some(with_arity(c, 2, Ok(yield_marker()))),
            SyntaxKind::DecoratedExpression => Some(with_arity(c, 2, make_pair(c[0], c[1]))),
            SyntaxKind::FieldInitializer => Some(with_arity(c, 3, make_pair(c[0], c[2]))),
            SyntaxKind::Enumerator => Some(with_arity(c, 4, make_pair(c[0], c[2]))),
            SyntaxKind::PropertyDeclarator => Some(with_arity(c, 2, make_pair(c[0], c[1]))),
            SyntaxKind::ConstantDeclarator => Some(
                with_arity(c, 2, make_constant_declarator(c[0], c[1])),
            ),
            _ => None,
        }
    }

    /// The reductions of the expressions that hold elements. They leave the
    /// state as it is. Nothing where the kind is none of them.
    #[verifier::opaque]
    pub open spec fn reduce_collection(self, kind: SyntaxKind, c: Seq<NodeResult>) -> Option<
        NodeResult,
    > {
        match kind {
            SyntaxKind::DarrayIntrinsicExpression => Some(
                with_arity(c, 5, self.make_darray_intrinsic_expression(c[0], c[3], c[4])),
            ),
            SyntaxKind::DictionaryIntrinsicExpression => Some(
                with_arity(c, 5, self.make_dictionary_intrinsic_expression(c[0], c[3], c[4])),
            ),
            SyntaxKind::KeysetIntrinsicExpression => Some(
                with_arity(c, 5, self.make_keyset_intrinsic_expression(c[0], c[3], c[4])),
            ),
            SyntaxKind::VarrayIntrinsicExpression => Some(
                with_arity(c, 5, self.make_varray_intrinsic_expression(c[0], c[3], c[4])),
            ),
            SyntaxKind::VectorIntrinsicExpression => Some(
                with_arity(c, 5, self.make_vector_intrinsic_expression(c[0], c[3], c[4])),
            ),
            SyntaxKind::ShapeExpression => Some(
                with_arity(c, 4, self.make_shape_expression(c[0], c[2], c[3])),
            ),
            SyntaxKind::TupleExpression => Some(
                with_arity(c, 4, self.make_tuple_expression(c[0], c[2], c[3])),
            ),
            _ => None,
        }
    }

    /// The reductions of the expressions that operators and calls make. They
    /// leave the state as it is. Nothing where the kind is none of them.
    #[verifier::opaque]
    pub open spec fn reduce_operator(self, kind: SyntaxKind, c: Seq<NodeResult>) -> Option<
        NodeResult,
    > {
        match kind {
            SyntaxKind::PrefixUnaryExpression => Some(
                with_arity(c, 2, self.make_prefix_unary_expression(c[0], c[1])),
            ),
            SyntaxKind::PostfixUnaryExpression => Some(
                with_arity(c, 2, self.make_postfix_unary_expression(c[0], c[1])),
            ),
            SyntaxKind::BinaryExpression => Some(
                with_arity(c, 3, self.make_binary_expression(c[0], c[1], c[2])),
            ),
            SyntaxKind::ScopeResolutionExpression => Some(
                with_arity(c, 3, self.make_scope_resolution_expression(c[0], c[2])),
            ),
            SyntaxKind::ConstructorCall => Some(
                with_arity(c, 4, self.make_constructor_call(c[0], c[2])),
            ),
            SyntaxKind::OldAttributeSpecification => Some(
                with_arity(c, 3, make_old_attribute_specification(c[0], c[1], c[2])),
            ),
            _ => None,
        }
    }

    /// The reductions of the type hints that hold type arguments. They leave
    /// the state as it is. Nothing where the kind is none of them.
    #[verifier::opaque]
    pub open spec fn reduce_type_specifier(self, kind: SyntaxKind, c: Seq<NodeResult>) -> Option<
        NodeResult,
    > {
        match kind {
            SyntaxKind::TypeArguments => Some(
                with_arity(c, 3, make_type_arguments(c[0], c[1], c[2])),
            ),
            SyntaxKind::GenericTypeSpecifier => Some(
                with_arity(c, 2, self.make_generic_type_specifier(c[0], c[1])),
            ),
            SyntaxKind::TupleTypeSpecifier => Some(
                with_arity(c, 3, self.make_tuple_type_specifier(c[0], c[1], c[2])),
            ),
            SyntaxKind::ShapeTypeSpecifier => Some(
                with_arity(c, 5, StateView::make_shape_type_specifier(c[0], c[2], c[3], c[4])),
            ),
            SyntaxKind::FieldSpecifier => Some(
                with_arity(c, 4, self.make_field_specifier(c[0], c[1], c[3])),
            ),
            SyntaxKind::ClassnameTypeSpecifier => Some(
                with_arity(c, 5, self.make_classname_type_specifier(c[0], c[2], c[4])),
            ),
            SyntaxKind::ClosureTypeSpecifier => Some(
                with_arity(c, 9, self.make_closure_type_specifier(c[0], c[4], c[7], c[8])),
            ),
            SyntaxKind::ClosureParameterTypeSpecifier => Some(with_arity(c, 2, c[1])),
            _ => None,
        }
    }

    /// The reductions of the type hints that wrap or rename a type. They leave
    /// the state as it is. Nothing where the kind is none of them.
    #[verifier::opaque]
    pub open spec fn reduce_wrapping_type(self, kind: SyntaxKind, c: Seq<NodeResult>) -> Option<
        NodeResult,
    > {
        match kind {
            SyntaxKind::VarrayTypeSpecifier => Some(
                with_arity(c, 5, self.make_varray_type_specifier(c[0], c[2], c[4])),
            ),
            SyntaxKind::DarrayTypeSpecifier => Some(
                with_arity(c, 7, self.make_darray_type_specifier(c[0], c[2], c[4], c[6])),
            ),
            SyntaxKind::NullableTypeSpecifier => Some(
                with_arity(c, 2, self.make_nullable_type_specifier(c[0], c[1])),
            ),
            SyntaxKind::LikeTypeSpecifier => Some(
                with_arity(c, 2, self.make_like_type_specifier(c[0], c[1])),
            ),
            SyntaxKind::SoftTypeSpecifier => Some(
                with_arity(c, 2, self.make_soft_type_specifier(c[0], c[1])),
            ),
            SyntaxKind::AttributizedSpecifier => Some(
                with_arity(c, 2, self.make_attributized_specifier(c[0], c[1])),
            ),
            SyntaxKind::VectorTypeSpecifier => Some(
                with_arity(c, 5, self.make_builtin_generic(c[0], c[2], c[4])),
            ),
            SyntaxKind::DictionaryTypeSpecifier => Some(
                with_arity(c, 4, self.make_builtin_generic(c[0], c[2], c[3])),
            ),
            SyntaxKind::KeysetTypeSpecifier => Some(
                with_arity(c, 5, self.make_builtin_generic(c[0], c[2], c[4])),
            ),
            SyntaxKind::TypeConstant => Some(with_arity(c, 3, self.make_type_constant(c[0], c[2]))),
            _ => None,
        }
    }

    /// The reductions of the parts of signatures and of the members of
    /// classes. They leave the state as it is. Nothing where the kind is none
    /// of them.
    #[verifier::opaque]
    pub open spec fn reduce_member(self, kind: SyntaxKind, c: Seq<NodeResult>) -> Option<
        NodeResult,
    > {
        match kind {
            SyntaxKind::TypeConstraint => Some(with_arity(c, 2, make_type_constraint(c[0], c[1]))),
            SyntaxKind::TypeParameter => Some(
                with_arity(c, 5, make_type_parameter(c[1], c[2], c[3], c[4])),
            ),
            SyntaxKind::ParameterDeclaration => Some(
                with_arity(c, 6, make_parameter_declaration(c[0], c[1], c[2], c[3], c[4], c[5])),
            ),
            SyntaxKind::FunctionDeclarationHeader => Some(
                with_arity(c, 10, make_function_declaration_header(c[0], c[2], c[3], c[5], c[8])),
            ),
            SyntaxKind::NamespaceUseClause => Some(
                with_arity(c, 4, make_namespace_use_clause(c[1], c[2], c[3])),
            ),
            SyntaxKind::ClassishBody => Some(with_arity(c, 3, make_classish_body(c[1]))),
            SyntaxKind::PropertyDeclaration => Some(
                with_arity(c, 5, self.make_property_declaration(c[0], c[1], c[2], c[3])),
            ),
            SyntaxKind::TraitUse => Some(with_arity(c, 3, make_trait_use(c[1]))),
            SyntaxKind::RequireClause => Some(with_arity(c, 4, make_require_clause(c[1], c[2]))),
            SyntaxKind::TypeConstDeclaration => Some(
                with_arity(c, 10, self.make_type_const_declaration(c[0], c[1], c[4], c[6], c[8])),
            ),
            _ => None,
        }
    }

    /// The reductions that open and close namespaces and record imports.
    /// Nothing where the kind is none of them.
    #[verifier::opaque]
    pub open spec fn reduce_namespace(self, kind: SyntaxKind, c: Seq<NodeResult>) -> Option<
        Reduced,
    > {
        match kind {
            SyntaxKind::NamespaceDeclarationHeader => Some(
                with_arity_in(self, c, 2, self.make_namespace_declaration_header(c[1])),
            ),
            SyntaxKind::NamespaceBody => Some(
                with_arity_in(self, c, 3, self.make_namespace_body(c[1])),
            ),
            SyntaxKind::NamespaceEmptyBody => Some(
                with_arity_in(self, c, 1, self.make_namespace_empty_body(c[0])),
            ),
            SyntaxKind::NamespaceUseDeclaration => Some(
                with_arity_in(self, c, 4, self.make_namespace_use_declaration(c[2])),
            ),
            SyntaxKind::NamespaceGroupUseDeclaration => Some(
                with_arity_in(self, c, 7, self.make_namespace_group_use_declaration(c[2], c[4])),
            ),
            _ => None,
        }
    }

    /// The reductions that open and close scopes of type parameters and that
    /// declare. Nothing where the kind is none of them.
    #[verifier::opaque]
    pub open spec fn reduce_declaration(self, kind: SyntaxKind, c: Seq<NodeResult>) -> Option<
        Reduced,
    > {
        match kind {
            SyntaxKind::TypeParameters => Some(
                with_arity_in(self, c, 3, self.make_type_parameters(c[1])),
            ),
            SyntaxKind::FunctionDeclaration => Some(
                with_arity_in(self, c, 3, self.make_function_declaration(c[0], c[1], c[2])),
            ),
            SyntaxKind::MethodishDeclaration => Some(
                with_arity_in(self, c, 4, self.make_methodish_declaration(c[0], c[1], c[2], c[3])),
            ),
            SyntaxKind::AliasDeclaration => Some(
                with_arity_in(
                    self,
                    c,
                    8,
                    self.make_alias_declaration(c[1], c[2], c[3], c[4], c[6]),
                ),
            ),
            SyntaxKind::ConstDeclaration => Some(
                with_arity_in(self, c, 5, self.make_const_declaration(c[0], c[2], c[3])),
            ),
            SyntaxKind::ClassishDeclaration => Some(
                with_arity_in(
                    self,
                    c,
                    12,
                    self.make_classish_declaration(
                        c[0],
                        c[1],
                        c[2],
                        c[3],
                        c[4],
                        c[5],
                        c[7],
                        c[9],
                        c[11],
                    ),
                ),
            ),
            SyntaxKind::EnumDeclaration => Some(
                with_arity_in(self, c, 9, self.make_enum_declaration(c[0], c[2], c[4], c[5], c[7])),
            ),
            _ => None,
        }
    }

    /// Whether a kind is that of a function without a name: what is written
    /// in its body belongs to it, and not to the function around it.
    pub open spec fn is_closure_kind(kind: SyntaxKind) -> bool {
        kind == SyntaxKind::LambdaExpression || kind == SyntaxKind::AnonymousFunction || kind
            == SyntaxKind::AwaitableCreationExpression
    }

    /// The reduction of a function without a name: nothing, whatever its
    /// children hold, or the failure of the first child that failed. A
    /// `yield` in its body is not handed up.
    pub open spec fn reduce_closure(c: Seq<NodeResult>) -> NodeResult {
        match flatten(c) {
            Err(e) => Err(e),
            Ok(_) => Ok(NodeView::Ignored),
        }
    }

    /// The state and the node after the production of kind `kind` is reduced
    /// from its reduced children `c`: each kind that the pass interprets has
    /// its combinator, a list has the list combinator, and every other kind
    /// has the default reduction. Only the kinds of namespaces and of
    /// declarations touch the state.
    pub open spec fn reduce(self, kind: SyntaxKind, c: Seq<NodeResult>) -> Reduced {
        if kind == SyntaxKind::SyntaxList {
            (self, make_list(c))
        } else if Self::is_closure_kind(kind) {
            (self, Self::reduce_closure(c))
        } else if self.reduce_shaping(kind, c) is Some {
            (self, self.reduce_shaping(kind, c)->Some_0)
        } else if self.reduce_collection(kind, c) is Some {
            (self, self.reduce_collection(kind, c)->Some_0)
        } else if self.reduce_operator(kind, c) is Some {
            (self, self.reduce_operator(kind, c)->Some_0)
        } else if self.reduce_type_specifier(kind, c) is Some {
            (self, self.reduce_type_specifier(kind, c)->Some_0)
        } else if self.reduce_wrapping_type(kind, c) is Some {
            (self, self.reduce_wrapping_type(kind, c)->Some_0)
        } else if self.reduce_member(kind, c) is Some {
            (self, self.reduce_member(kind, c)->Some_0)
        } else if self.reduce_namespace(kind, c) is Some {
            self.reduce_namespace(kind, c)->Some_0
        } else if self.reduce_declaration(kind, c) is Some {
            self.reduce_declaration(kind, c)->Some_0
        } else {
            (self, flatten(c))
        }
    }

    /// The state and the node after a tree is reduced: its children first,
    /// from left to right, each in the state that the one before it left;
    /// then the node itself.
    pub open spec fn reduce_tree(self, tree: Syntax<Token, ()>) -> Reduced
        decreases tree, 0nat,
    {
        match tree.syntax {
            SyntaxVariant::Missing => (self, zero()),
            SyntaxVariant::Token(token) => self.make_token(token@),
            SyntaxVariant::SyntaxList(nodes) => {
                let (after, c) = self.reduce_nodes(nodes@, nodes@.len());
                (after, make_list(c))
            },
            SyntaxVariant::Production(kind, nodes) => {
                let (after, c) = self.reduce_nodes(nodes@, nodes@.len());
                after.reduce(kind, c)
            },
        }
    }

    /// The state after the first `n` of `nodes` are reduced, and what they
    /// are reduced to.
    pub open spec fn reduce_nodes(self, nodes: Seq<Syntax<Token, ()>>, n: nat) -> (
        StateView,
        Seq<NodeResult>,
    )
        decreases nodes, n,
    {
        if n == 0 || n > nodes.len() {
            (self, Seq::empty())
        } else {
            let (before, c) = self.reduce_nodes(nodes, (n - 1) as nat);
            let (after, r) = before.reduce_tree(nodes[n - 1]);
            (after, c.push(r))
        }
    }
}

impl<'a> DirectDeclSmartConstructors<'a> {

    fn reduce_shaping(&mut self, kind: SyntaxKind, children: &Vec<Node<'a>>) -> (r: Option<
        Node<'a>,
    >)
        requires
            old(self)@.wf(),
        ensures
            final(self)@.wf(),
            final(self)@ == old(self)@,
            match r {
                Some(node) => old(self)@.reduce_shaping(kind, results_view(children@))
                    == Some(result_view(node)),
                None => old(self)@.reduce_shaping(kind, results_view(children@)) is None,
            },
    {
        reveal(StateView::reduce_shaping);
        let ghost c = results_view(children@);
        assert(forall|i: int| 0 <= i < children@.len() ==> c[i] == result_view(children@[i]));
        match kind {
            SyntaxKind::QualifiedName => {
                if children.len() != 1 {
                    return Some(Err(ParseError::UnexpectedArity));
                }
                Some(self.make_qualified_name(children[0]))
            },
            SyntaxKind::SimpleTypeSpecifier => {
                if children.len() != 1 {
                    return Some(Err(ParseError::UnexpectedArity));
                }
                Some(self.make_simple_type_specifier(children[0]))
            },
            SyntaxKind::LiteralExpression => {
                if children.len() != 1 {
                    return Some(Err(ParseError::UnexpectedArity));
                }
                Some(self.make_literal_expression(children[0]))
            },
            SyntaxKind::SimpleInitializer => {
                if children.len() != 2 {
                    return Some(Err(ParseError::UnexpectedArity));
                }
                Some(self.make_simple_initializer(children[0], children[1]))
            },
            SyntaxKind::ElementInitializer => {
                if children.len() != 3 {
                    return Some(Err(ParseError::UnexpectedArity));
                }
                Some(self.make_element_initializer(children[0], children[1], children[2]))
            },
            SyntaxKind::ListItem => {
                if children.len() != 2 {
                    return Some(Err(ParseError::UnexpectedArity));
                }
                Some(self.make_list_item(children[0], children[1]))
            },
            SyntaxKind::YieldExpression => {
                if children.len() != 2 {
                    return Some(Err(ParseError::UnexpectedArity));
                }
                Some(self.make_yield_expression(children[0], children[1]))
            },
            SyntaxKind::DecoratedExpression => {
                if children.len() != 2 {
                    return Some(Err(ParseError::UnexpectedArity));
                }
                Some(self.make_decorated_expression(children[0], children[1]))
            },
            SyntaxKind::FieldInitializer => {
                if children.len() != 3 {
                    return Some(Err(ParseError::UnexpectedArity));
                }
                Some(self.make_field_initializer(children[0], children[1], children[2]))
            },
            SyntaxKind::Enumerator => {
                if children.len() != 4 {
                    return Some(Err(ParseError::UnexpectedArity));
                }
                Some(self.make_enumerator(children[0], children[1], children[2], children[3]))
            },
            SyntaxKind::PropertyDeclarator => {
                if children.len() != 2 {
                    return Some(Err(ParseError::UnexpectedArity));
                }
                Some(self.make_property_declarator(children[0], children[1]))
            },
            SyntaxKind::ConstantDeclarator => {
                if children.len() != 2 {
                    return Some(Err(ParseError::UnexpectedArity));
                }
                Some(self.make_constant_declarator(children[0], children[1]))
            },
            _ => None,
        }
    }

    fn reduce_collection(&mut self, kind: SyntaxKind, children: &Vec<Node<'a>>) -> (r: Option<
        Node<'a>,
    >)
        requires
            old(self)@.wf(),
        ensures
            final(self)@.wf(),
            final(self)@ == old(self)@,
            match r {
                Some(node) => old(self)@.reduce_collection(kind, results_view(children@))
                    == Some(result_view(node)),
                None => old(self)@.reduce_collection(kind, results_view(children@)) is None,
            },
    {
        reveal(StateView::reduce_collection);
        let ghost c = results_view(children@);
        assert(forall|i: int| 0 <= i < children@.len() ==> c[i] == result_view(children@[i]));
        match kind {
            SyntaxKind::DarrayIntrinsicExpression => {
                if children.len() != 5 {
                    return Some(Err(ParseError::UnexpectedArity));
                }
                Some(
                    self.make_darray_intrinsic_expression(
                        children[0],
                        children[1],
                        children[2],
                        children[3],
                        children[4],
                    ),
                )
            },
            SyntaxKind::DictionaryIntrinsicExpression => {
                if children.len() != 5 {
                    return Some(Err(ParseError::UnexpectedArity));
                }
                Some(
                    self.make_dictionary_intrinsic_expression(
                        children[0],
                        children[1],
                        children[2],
                        children[3],
                        children[4],
                    ),
                )
            },
            SyntaxKind::KeysetIntrinsicExpression => {
                if children.len() != 5 {
                    return Some(Err(ParseError::UnexpectedArity));
                }
                Some(
                    self.make_keyset_intrinsic_expression(
                        children[0],
                        children[1],
                        children[2],
                        children[3],
                        children[4],
                    ),
                )
            },
            SyntaxKind::VarrayIntrinsicExpression => {
                if children.len() != 5 {
                    return Some(Err(ParseError::UnexpectedArity));
                }
                Some(
                    self.make_varray_intrinsic_expression(
                        children[0],
                        children[1],
                        children[2],
                        children[3],
                        children[4],
                    ),
                )
            },
            SyntaxKind::VectorIntrinsicExpression => {
                if children.len() != 5 {
                    return Some(Err(ParseError::UnexpectedArity));
                }
                Some(
                    self.make_vector_intrinsic_expression(
                        children[0],
                        children[1],
                        children[2],
                        children[3],
                        children[4],
                    ),
                )
            },
            SyntaxKind::ShapeExpression => {
                if children.len() != 4 {
                    return Some(Err(ParseError::UnexpectedArity));
                }
                Some(self.make_shape_expression(children[0], children[1], children[2], children[3]))
            },
            SyntaxKind::TupleExpression => {
                if children.len() != 4 {
                    return Some(Err(ParseError::UnexpectedArity));
                }
                Some(self.make_tuple_expression(children[0], children[1], children[2], children[3]))
            },
            _ => None,
        }
    }

    fn reduce_operator(&mut self, kind: SyntaxKind, children: &Vec<Node<'a>>) -> (r: Option<
        Node<'a>,
    >)
        requires
            old(self)@.wf(),
        ensures
            final(self)@.wf(),
            final(self)@ == old(self)@,
            match r {
                Some(node) => old(self)@.reduce_operator(kind, results_view(children@))
                    == Some(result_view(node)),
                None => old(self)@.reduce_operator(kind, results_view(children@)) is None,
            },
    {
        reveal(StateView::reduce_operator);
        let ghost c = results_view(children@);
        assert(forall|i: int| 0 <= i < children@.len() ==> c[i] == result_view(children@[i]));
        match kind {
            SyntaxKind::PrefixUnaryExpression => {
                if children.len() != 2 {
                    return Some(Err(ParseError::UnexpectedArity));
                }
                Some(self.make_prefix_unary_expression(children[0], children[1]))
            },
            SyntaxKind::PostfixUnaryExpression => {
                if children.len() != 2 {
                    return Some(Err(ParseError::UnexpectedArity));
                }
                Some(self.make_postfix_unary_expression(children[0], children[1]))
            },
            SyntaxKind::BinaryExpression => {
                if children.len() != 3 {
                    return Some(Err(ParseError::UnexpectedArity));
                }
                Some(self.make_binary_expression(children[0], children[1], children[2]))
            },
            SyntaxKind::ScopeResolutionExpression => {
                if children.len() != 3 {
                    return Some(Err(ParseError::UnexpectedArity));
                }
                Some(self.make_scope_resolution_expression(children[0], children[1], children[2]))
            },
            SyntaxKind::ConstructorCall => {
                if children.len() != 4 {
                    return Some(Err(ParseError::UnexpectedArity));
                }
                Some(self.make_constructor_call(children[0], children[1], children[2], children[3]))
            },
            SyntaxKind::OldAttributeSpecification => {
                if children.len() != 3 {
                    return Some(Err(ParseError::UnexpectedArity));
                }
                Some(self.make_old_attribute_specification(children[0], children[1], children[2]))
            },
            _ => None,
        }
    }

    fn reduce_type_specifier(&mut self, kind: SyntaxKind, children: &Vec<Node<'a>>) -> (r: Option<
        Node<'a>,
    >)
        requires
            old(self)@.wf(),
        ensures
            final(self)@.wf(),
            final(self)@ == old(self)@,
            match r {
                Some(node) => old(self)@.reduce_type_specifier(kind, results_view(children@))
                    == Some(result_view(node)),
                None => old(self)@.reduce_type_specifier(kind, results_view(children@)) is None,
            },
    {
        reveal(StateView::reduce_type_specifier);
        let ghost c = results_view(children@);
        assert(forall|i: int| 0 <= i < children@.len() ==> c[i] == result_view(children@[i]));
        match kind {
            SyntaxKind::TypeArguments => {
                if children.len() != 3 {
                    return Some(Err(ParseError::UnexpectedArity));
                }
                Some(self.make_type_arguments(children[0], children[1], children[2]))
            },
            SyntaxKind::GenericTypeSpecifier => {
                if children.len() != 2 {
                    return Some(Err(ParseError::UnexpectedArity));
                }
                Some(self.make_generic_type_specifier(children[0], children[1]))
            },
            SyntaxKind::TupleTypeSpecifier => {
                if children.len() != 3 {
                    return Some(Err(ParseError::UnexpectedArity));
                }
                Some(self.make_tuple_type_specifier(children[0], children[1], children[2]))
            },
            SyntaxKind::ShapeTypeSpecifier => {
                if children.len() != 5 {
                    return Some(Err(ParseError::UnexpectedArity));
                }
                Some(
                    self.make_shape_type_specifier(
                        children[0],
                        children[1],
                        children[2],
                        children[3],
                        children[4],
                    ),
                )
            },
            SyntaxKind::FieldSpecifier => {
                if children.len() != 4 {
                    return Some(Err(ParseError::UnexpectedArity));
                }
                Some(self.make_field_specifier(children[0], children[1], children[2], children[3]))
            },
            SyntaxKind::ClassnameTypeSpecifier => {
                if children.len() != 5 {
                    return Some(Err(ParseError::UnexpectedArity));
                }
                Some(
                    self.make_classname_type_specifier(
                        children[0],
                        children[1],
                        children[2],
                        children[3],
                        children[4],
                    ),
                )
            },
            SyntaxKind::ClosureTypeSpecifier => {
                if children.len() != 9 {
                    return Some(Err(ParseError::UnexpectedArity));
                }
                Some(
                    self.make_closure_type_specifier(
                        children[0],
                        children[1],
                        children[2],
                        children[3],
                        children[4],
                        children[5],
                        children[6],
                        children[7],
                        children[8],
                    ),
                )
            },
            SyntaxKind::ClosureParameterTypeSpecifier => {
                if children.len() != 2 {
                    return Some(Err(ParseError::UnexpectedArity));
                }
                Some(self.make_closure_parameter_type_specifier(children[0], children[1]))
            },
            _ => None,
        }
    }

    fn reduce_wrapping_type(&mut self, kind: SyntaxKind, children: &Vec<Node<'a>>) -> (r: Option<
        Node<'a>,
    >)
        requires
            old(self)@.wf(),
        ensures
            final(self)@.wf(),
            final(self)@ == old(self)@,
            match r {
                Some(node) => old(self)@.reduce_wrapping_type(kind, results_view(children@))
                    == Some(result_view(node)),
                None => old(self)@.reduce_wrapping_type(kind, results_view(children@)) is None,
            },
    {
        reveal(StateView::reduce_wrapping_type);
        let ghost c = results_view(children@);
        assert(forall|i: int| 0 <= i < children@.len() ==> c[i] == result_view(children@[i]));
        match kind {
            SyntaxKind::VarrayTypeSpecifier => {
                if children.len() != 5 {
                    return Some(Err(ParseError::UnexpectedArity));
                }
                Some(
                    self.make_varray_type_specifier(
                        children[0],
                        children[1],
                        children[2],
                        children[3],
                        children[4],
                    ),
                )
            },
            SyntaxKind::DarrayTypeSpecifier => {
                if children.len() != 7 {
                    return Some(Err(ParseError::UnexpectedArity));
                }
                Some(
                    self.make_darray_type_specifier(
                        children[0],
                        children[1],
                        children[2],
                        children[3],
                        children[4],
                        children[5],
                        children[6],
                    ),
                )
            },
            SyntaxKind::NullableTypeSpecifier => {
                if children.len() != 2 {
                    return Some(Err(ParseError::UnexpectedArity));
                }
                Some(self.make_nullable_type_specifier(children[0], children[1]))
            },
            SyntaxKind::LikeTypeSpecifier => {
                if children.len() != 2 {
                    return Some(Err(ParseError::UnexpectedArity));
                }
                Some(self.make_like_type_specifier(children[0], children[1]))
            },
            SyntaxKind::SoftTypeSpecifier => {
                if children.len() != 2 {
                    return Some(Err(ParseError::UnexpectedArity));
                }
                Some(self.make_soft_type_specifier(children[0], children[1]))
            },
            SyntaxKind::AttributizedSpecifier => {
                if children.len() != 2 {
                    return Some(Err(ParseError::UnexpectedArity));
                }
                Some(self.make_attributized_specifier(children[0], children[1]))
            },
            SyntaxKind::VectorTypeSpecifier => {
                if children.len() != 5 {
                    return Some(Err(ParseError::UnexpectedArity));
                }
                Some(
                    self.make_vector_type_specifier(
                        children[0],
                        children[1],
                        children[2],
                        children[3],
                        children[4],
                    ),
                )
            },
            SyntaxKind::DictionaryTypeSpecifier => {
                if children.len() != 4 {
                    return Some(Err(ParseError::UnexpectedArity));
                }
                Some(
                    self.make_dictionary_type_specifier(
                        children[0],
                        children[1],
                        children[2],
                        children[3],
                    ),
                )
            },
            SyntaxKind::KeysetTypeSpecifier => {
                if children.len() != 5 {
                    return Some(Err(ParseError::UnexpectedArity));
                }
                Some(
                    self.make_keyset_type_specifier(
                        children[0],
                        children[1],
                        children[2],
                        children[3],
                        children[4],
                    ),
                )
            },
            SyntaxKind::TypeConstant => {
                if children.len() != 3 {
                    return Some(Err(ParseError::UnexpectedArity));
                }
                Some(self.make_type_constant(children[0], children[1], children[2]))
            },
            _ => None,
        }
    }

    fn reduce_member(&mut self, kind: SyntaxKind, children: &Vec<Node<'a>>) -> (r: Option<
        Node<'a>,
    >)
        requires
            old(self)@.wf(),
        ensures
            final(self)@.wf(),
            final(self)@ == old(self)@,
            match r {
                Some(node) => old(self)@.reduce_member(kind, results_view(children@))
                    == Some(result_view(node)),
                None => old(self)@.reduce_member(kind, results_view(children@)) is None,
            },
    {
        reveal(StateView::reduce_member);
        let ghost c = results_view(children@);
        assert(forall|i: int| 0 <= i < children@.len() ==> c[i] == result_view(children@[i]));
        match kind {
            SyntaxKind::TypeConstraint => {
                if children.len() != 2 {
                    return Some(Err(ParseError::UnexpectedArity));
                }
                Some(self.make_type_constraint(children[0], children[1]))
            },
            SyntaxKind::TypeParameter => {
                if children.len() != 5 {
                    return Some(Err(ParseError::UnexpectedArity));
                }
                Some(
                    self.make_type_parameter(
                        children[0],
                        children[1],
                        children[2],
                        children[3],
                        children[4],
                    ),
                )
            },
            SyntaxKind::ParameterDeclaration => {
                if children.len() != 6 {
                    return Some(Err(ParseError::UnexpectedArity));
                }
                Some(
                    self.make_parameter_declaration(
                        children[0],
                        children[1],
                        children[2],
                        children[3],
                        children[4],
                        children[5],
                    ),
                )
            },
            SyntaxKind::FunctionDeclarationHeader => {
                if children.len() != 10 {
                    return Some(Err(ParseError::UnexpectedArity));
                }
                Some(
                    self.make_function_declaration_header(
                        children[0],
                        children[1],
                        children[2],
                        children[3],
                        children[4],
                        children[5],
                        children[6],
                        children[7],
                        children[8],
                        children[9],
                    ),
                )
            },
            SyntaxKind::NamespaceUseClause => {
                if children.len() != 4 {
                    return Some(Err(ParseError::UnexpectedArity));
                }
                Some(
                    self.make_namespace_use_clause(
                        children[0],
                        children[1],
                        children[2],
                        children[3],
                    ),
                )
            },
            SyntaxKind::ClassishBody => {
                if children.len() != 3 {
                    return Some(Err(ParseError::UnexpectedArity));
                }
                Some(self.make_classish_body(children[0], children[1], children[2]))
            },
            SyntaxKind::PropertyDeclaration => {
                if children.len() != 5 {
                    return Some(Err(ParseError::UnexpectedArity));
                }
                Some(
                    self.make_property_declaration(
                        children[0],
                        children[1],
                        children[2],
                        children[3],
                        children[4],
                    ),
                )
            },
            SyntaxKind::TraitUse => {
                if children.len() != 3 {
                    return Some(Err(ParseError::UnexpectedArity));
                }
                Some(self.make_trait_use(children[0], children[1], children[2]))
            },
            SyntaxKind::RequireClause => {
                if children.len() != 4 {
                    return Some(Err(ParseError::UnexpectedArity));
                }
                Some(self.make_require_clause(children[0], children[1], children[2], children[3]))
            },
            SyntaxKind::TypeConstDeclaration => {
                if children.len() != 10 {
                    return Some(Err(ParseError::UnexpectedArity));
                }
                Some(
                    self.make_type_const_declaration(
                        children[0],
                        children[1],
                        children[2],
                        children[3],
                        children[4],
                        children[5],
                        children[6],
                        children[7],
                        children[8],
                        children[9],
                    ),
                )
            },
            _ => None,
        }
    }

    fn reduce_namespace(&mut self, kind: SyntaxKind, children: &Vec<Node<'a>>) -> (r: Option<
        Node<'a>,
    >)
        requires
            old(self)@.wf(),
        ensures
            final(self)@.wf(),
            match r {
                Some(node) => old(self)@.reduce_namespace(kind, results_view(children@)) == Some(
                    (final(self)@, result_view(node)),
                ),
                None => old(self)@.reduce_namespace(kind, results_view(children@)) is None
                    && final(self)@ == old(self)@,
            },
    {
        reveal(StateView::reduce_namespace);
        let ghost c = results_view(children@);
        assert(forall|i: int| 0 <= i < children@.len() ==> c[i] == result_view(children@[i]));
        match kind {
            SyntaxKind::NamespaceDeclarationHeader => {
                if children.len() != 2 {
                    return Some(Err(ParseError::UnexpectedArity));
                }
                Some(self.make_namespace_declaration_header(children[0], children[1]))
            },
            SyntaxKind::NamespaceBody => {
                if children.len() != 3 {
                    return Some(Err(ParseError::UnexpectedArity));
                }
                Some(self.make_namespace_body(children[0], children[1], children[2]))
            },
            SyntaxKind::NamespaceEmptyBody => {
                if children.len() != 1 {
                    return Some(Err(ParseError::UnexpectedArity));
                }
                Some(self.make_namespace_empty_body(children[0]))
            },
            SyntaxKind::NamespaceUseDeclaration => {
                if children.len() != 4 {
                    return Some(Err(ParseError::UnexpectedArity));
                }
                Some(
                    self.make_namespace_use_declaration(
                        children[0],
                        children[1],
                        children[2],
                        children[3],
                    ),
                )
            },
            SyntaxKind::NamespaceGroupUseDeclaration => {
                if children.len() != 7 {
                    return Some(Err(ParseError::UnexpectedArity));
                }
                Some(
                    self.make_namespace_group_use_declaration(
                        children[0],
                        children[1],
                        children[2],
                        children[3],
                        children[4],
                        children[5],
                        children[6],
                    ),
                )
            },
            _ => None,
        }
    }

    fn reduce_declaration(&mut self, kind: SyntaxKind, children: &Vec<Node<'a>>) -> (r: Option<
        Node<'a>,
    >)
        requires
            old(self)@.wf(),
        ensures
            final(self)@.wf(),
            match r {
                Some(node) => old(self)@.reduce_declaration(kind, results_view(children@)) == Some(
                    (final(self)@, result_view(node)),
                ),
                None => old(self)@.reduce_declaration(kind, results_view(children@)) is None
                    && final(self)@ == old(self)@,
            },
    {
        reveal(StateView::reduce_declaration);
        let ghost c = results_view(children@);
        assert(forall|i: int| 0 <= i < children@.len() ==> c[i] == result_view(children@[i]));
        match kind {
            SyntaxKind::TypeParameters => {
                if children.len() != 3 {
                    return Some(Err(ParseError::UnexpectedArity));
                }
                Some(self.make_type_parameters(children[0], children[1], children[2]))
            },
            SyntaxKind::FunctionDeclaration => {
                if children.len() != 3 {
                    return Some(Err(ParseError::UnexpectedArity));
                }
                Some(self.make_function_declaration(children[0], children[1], children[2]))
            },
            SyntaxKind::MethodishDeclaration => {
                if children.len() != 4 {
                    return Some(Err(ParseError::UnexpectedArity));
                }
                Some(
                    self.make_methodish_declaration(
                        children[0],
                        children[1],
                        children[2],
                        children[3],
                    ),
                )
            },
            SyntaxKind::AliasDeclaration => {
                if children.len() != 8 {
                    return Some(Err(ParseError::UnexpectedArity));
                }
                Some(
                    self.make_alias_declaration(
                        children[0],
                        children[1],
                        children[2],
                        children[3],
                        children[4],
                        children[5],
                        children[6],
                        children[7],
                    ),
                )
            },
            SyntaxKind::ConstDeclaration => {
                if children.len() != 5 {
                    return Some(Err(ParseError::UnexpectedArity));
                }
                Some(
                    self.make_const_declaration(
                        children[0],
                        children[1],
                        children[2],
                        children[3],
                        children[4],
                    ),
                )
            },
            SyntaxKind::ClassishDeclaration => {
                if children.len() != 12 {
                    return Some(Err(ParseError::UnexpectedArity));
                }
                Some(
                    self.make_classish_declaration(
                        children[0],
                        children[1],
                        children[2],
                        children[3],
                        children[4],
                        children[5],
                        children[6],
                        children[7],
                        children[8],
                        children[9],
                        children[10],
                        children[11],
                    ),
                )
            },
            SyntaxKind::EnumDeclaration => {
                if children.len() != 9 {
                    return Some(Err(ParseError::UnexpectedArity));
                }
                Some(
                    self.make_enum_declaration(
                        children[0],
                        children[1],
                        children[2],
                        children[3],
                        children[4],
                        children[5],
                        children[6],
                        children[7],
                        children[8],
                    ),
                )
            },
            _ => None,
        }
    }

    /// Whether `kind` is the kind of a function without a name.
    pub fn is_closure_kind(kind: SyntaxKind) -> (r: bool)
        ensures
            r == StateView::is_closure_kind(kind),
    {
        match kind {
            SyntaxKind::LambdaExpression => true,
            SyntaxKind::AnonymousFunction => true,
            SyntaxKind::AwaitableCreationExpression => true,
            _ => false,
        }
    }

    /// Reduces the production of kind `kind` from its reduced children.
    pub fn reduce(&mut self, kind: SyntaxKind, children: Vec<Node<'a>>) -> (r: Node<'a>)
        requires
            old(self)@.wf(),
        ensures
            final(self)@.wf(),
            final(self)@ == old(self)@.reduce(kind, results_view(children@)).0,
            result_view(r) == old(self)@.reduce(kind, results_view(children@)).1,
    {
        if kind == SyntaxKind::SyntaxList {
            return self.make_list(children, 0);
        }
        if Self::is_closure_kind(kind) {
            return match self.flatten(children) {
                Ok(_) => Ok(Node_::Ignored.with_view()),
                Err(e) => Err(e),
            };
        }
        match self.reduce_shaping(kind, &children) {
            Some(r) => {
                return r;
            },
            None => {},
        }
        match self.reduce_collection(kind, &children) {
            Some(r) => {
                return r;
            },
            None => {},
        }
        match self.reduce_operator(kind, &children) {
            Some(r) => {
                return r;
            },
            None => {},
        }
        match self.reduce_type_specifier(kind, &children) {
            Some(r) => {
                return r;
            },
            None => {},
        }
        match self.reduce_wrapping_type(kind, &children) {
            Some(r) => {
                return r;
            },
            None => {},
        }
        match self.reduce_member(kind, &children) {
            Some(r) => {
                return r;
            },
            None => {},
        }
        match self.reduce_namespace(kind, &children) {
            Some(r) => {
                return r;
            },
            None => {},
        }
        match self.reduce_declaration(kind, &children) {
            Some(r) => {
                return r;
            },
            None => {},
        }
        self.flatten(children)
    }

    /// Reduces a tree.
    pub fn reduce_tree(&mut self, tree: &Syntax<Token<'a>, ()>) -> (r: Node<'a>)
        requires
            old(self)@.wf(),
        ensures
            final(self)@.wf(),
            final(self)@ == old(self)@.reduce_tree(*tree).0,
            result_view(r) == old(self)@.reduce_tree(*tree).1,
        decreases tree,
    {
        match &tree.syntax {
            SyntaxVariant::Missing => self.make_missing(0),
            SyntaxVariant::Token(token) => self.make_token(**token),
            SyntaxVariant::SyntaxList(nodes) => {
                let children = self.reduce_nodes(nodes);
                self.make_list(children, 0)
            },
            SyntaxVariant::Production(kind, nodes) => {
                let children = self.reduce_nodes(nodes);
                self.reduce(*kind, children)
            },
        }
    }

    /// Reduces `nodes` from left to right.
    fn reduce_nodes(&mut self, nodes: &Vec<Syntax<Token<'a>, ()>>) -> (r: Vec<Node<'a>>)
        requires
            old(self)@.wf(),
        ensures
            final(self)@.wf(),
            final(self)@ == old(self)@.reduce_nodes(nodes@, nodes@.len()).0,
            results_view(r@) == old(self)@.reduce_nodes(nodes@, nodes@.len()).1,
        decreases nodes,
    {
        let mut reduced: Vec<Node<'a>> = Vec::new();
        assert(results_view(reduced@) =~= Seq::<NodeResult>::empty());
        let mut i: usize = 0;
        while i < nodes.len()
            invariant
                i <= nodes.len(),
                self@.wf(),
                self@ == old(self)@.reduce_nodes(nodes@, i as nat).0,
                results_view(reduced@) == old(self)@.reduce_nodes(nodes@, i as nat).1,
            decreases nodes.len() - i,
        {
            let ghost before = results_view(reduced@);
            let r = self.reduce_tree(&nodes[i]);
            reduced.push(r);
            assert(results_view(reduced@) =~= before.push(result_view(r)));
            i = i + 1;
        }
        reduced
    }
}

} // verus!
