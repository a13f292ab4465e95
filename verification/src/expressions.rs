//! The expressions that constants and attributes are made of.

use crate::aast::{
    afields_view, expr_pairs_view, exprs_view, shape_exprs_view, Afield, AfieldView, ClassId,
    ClassIdView, ClassIdView_, ClassId_, Expr, ExprView, ExprView_, Expr_, KvcKind,
    UserAttribute, UserAttributeView, VcKind,
};
use crate::ast_defs::{Bop, Id, IdView, ShapeFieldName, ShapeFieldNameView, Uop};
use crate::error::ParseError;
use crate::lists::{
    any_yield2, any_yield3, yield_among2, yield_among3, yield_marker, NodeResult,
};
use crate::names::get_name;
use crate::node::{lemma_node_view, nodes_view, result_view, Node, NodeView, Node_};
use crate::pos::{pos_result_view, Pos, PosView};
use crate::state::{DirectDeclSmartConstructors, StateView};
use crate::text::{eq_ignore_ascii_case, str_eq_ignore_ascii_case};
use crate::token_kind::TokenKind;
use crate::type_specifiers::shape_field_name_of;
use vstd::prelude::*;
use vstd::string::*;

verus! {

/// The span from an opening token to a closing token.
pub open spec fn bracket_pos(open: NodeResult, close: NodeResult) -> Result<PosView, ParseError> {
    match open {
        Err(e) => Err(e),
        Ok(open) => match open.get_pos() {
            Err(e) => Err(e),
            Ok(first) => match close {
                Err(e) => Err(e),
                Ok(close) => match close.get_pos() {
                    Err(e) => Err(e),
                    Ok(second) => first.merge(second),
                },
            },
        },
    }
}

/// The operator that a token stands for before its operand.
pub open spec fn prefix_operator(kind: TokenKind) -> Result<Uop, ParseError> {
    match kind {
        TokenKind::Tilde => Ok(Uop::Utild),
        TokenKind::Exclamation => Ok(Uop::Unot),
        TokenKind::Plus => Ok(Uop::Uplus),
        TokenKind::Minus => Ok(Uop::Uminus),
        TokenKind::PlusPlus => Ok(Uop::Uincr),
        TokenKind::MinusMinus => Ok(Uop::Udecr),
        TokenKind::At => Ok(Uop::Usilence),
        _ => Err(ParseError::NotAPrefixOperator),
    }
}

/// The operator that a token stands for behind its operand.
pub open spec fn postfix_operator(kind: TokenKind) -> Result<Uop, ParseError> {
    match kind {
        TokenKind::PlusPlus => Ok(Uop::Upincr),
        TokenKind::MinusMinus => Ok(Uop::Updecr),
        _ => Err(ParseError::NotAPostfixOperator),
    }
}

/// The operator that a token stands for between two operands.
pub open spec fn binary_operator(kind: TokenKind) -> Result<Bop<'static>, ParseError> {
    match kind {
        TokenKind::Plus => Ok(Bop::Plus),
        TokenKind::Minus => Ok(Bop::Minus),
        TokenKind::Star => Ok(Bop::Star),
        TokenKind::Slash => Ok(Bop::Slash),
        TokenKind::EqualEqual => Ok(Bop::Eqeq),
        TokenKind::EqualEqualEqual => Ok(Bop::Eqeqeq),
        TokenKind::StarStar => Ok(Bop::Starstar),
        TokenKind::AmpersandAmpersand => Ok(Bop::Ampamp),
        TokenKind::BarBar => Ok(Bop::Barbar),
        TokenKind::LessThan => Ok(Bop::Lt),
        TokenKind::LessThanEqual => Ok(Bop::Lte),
        TokenKind::LessThanLessThan => Ok(Bop::Ltlt),
        TokenKind::GreaterThan => Ok(Bop::Gt),
        TokenKind::GreaterThanEqual => Ok(Bop::Gte),
        TokenKind::GreaterThanGreaterThan => Ok(Bop::Gtgt),
        TokenKind::Dot => Ok(Bop::Dot),
        TokenKind::Ampersand => Ok(Bop::Amp),
        TokenKind::Bar => Ok(Bop::Bar),
        TokenKind::Percent => Ok(Bop::Percent),
        TokenKind::QuestionQuestion => Ok(Bop::QuestionQuestion),
        _ => Err(ParseError::NotABinaryOperator),
    }
}

/// The kind of the operator that a node is.
pub open spec fn operator_of(op: NodeView) -> Result<TokenKind, ParseError> {
    match op {
        NodeView::Operator(_, kind) => Ok(kind),
        _ => Err(ParseError::ExpectedOperator),
    }
}

/// Whether `name` begins with two underscores, as the names of the
/// attributes do that the language defines.
pub open spec fn is_reserved_attribute_name(name: Seq<char>) -> bool {
    name.len() >= 2 && name[0] == '_' && name[1] == '_'
}

/// The name of the class itself, as it is written in the global namespace.
pub open spec fn self_class_name() -> Seq<char> {
    "\\self"@
}

/// Whether a name, as it was read before `::`, is that of the class itself:
/// `self` in any case of letters, bare or in the global namespace.
pub open spec fn names_class_itself(name: Seq<char>) -> bool {
    eq_ignore_ascii_case(name, "self"@) || eq_ignore_ascii_case(name, self_class_name())
}

impl StateView {
    /// The pairs of expressions that the first `n` of `nodes` stand for. Each
    /// node must be a pair.
    pub open spec fn pairs_of_first(self, nodes: Seq<NodeView>, n: nat) -> Result<
        Seq<(ExprView, ExprView)>,
        ParseError,
    >
        decreases n,
    {
        if n == 0 || n > nodes.len() {
            Ok(Seq::empty())
        } else {
            match self.pairs_of_first(nodes, (n - 1) as nat) {
                Err(e) => Err(e),
                Ok(pairs) => match self.pair_of(nodes[n - 1]) {
                    Err(e) => Err(e),
                    Ok(pair) => Ok(pairs.push(pair)),
                },
            }
        }
    }

    /// The pair of expressions that a pair of nodes stands for.
    pub open spec fn pair_of(self, node: NodeView) -> Result<(ExprView, ExprView), ParseError> {
        match node {
            NodeView::ListItem(key, value) => match self.node_to_expr(*key) {
                Err(e) => Err(e),
                Ok(key) => match self.node_to_expr(*value) {
                    Err(e) => Err(e),
                    Ok(value) => Ok((key, value)),
                },
            },
            _ => Err(ParseError::ExpectedListItem),
        }
    }

    /// The element of an `array(...)` that a node stands for.
    pub open spec fn afield_of(self, node: NodeView) -> Result<AfieldView, ParseError> {
        match node {
            NodeView::ListItem(_, _) => match self.pair_of(node) {
                Err(e) => Err(e),
                Ok(pair) => Ok(AfieldView::AFkvalue(pair.0, pair.1)),
            },
            _ => match self.node_to_expr(node) {
                Err(e) => Err(e),
                Ok(value) => Ok(AfieldView::AFvalue(value)),
            },
        }
    }

    pub open spec fn afields_of_first(self, nodes: Seq<NodeView>, n: nat) -> Result<
        Seq<AfieldView>,
        ParseError,
    >
        decreases n,
    {
        if n == 0 || n > nodes.len() {
            Ok(Seq::empty())
        } else {
            match self.afields_of_first(nodes, (n - 1) as nat) {
                Err(e) => Err(e),
                Ok(fields) => match self.afield_of(nodes[n - 1]) {
                    Err(e) => Err(e),
                    Ok(field) => Ok(fields.push(field)),
                },
            }
        }
    }

    /// The field of a shape expression that a node stands for.
    pub open spec fn shape_field_of(self, node: NodeView) -> Result<
        (ShapeFieldNameView, ExprView),
        ParseError,
    > {
        match node {
            NodeView::ListItem(key, value) => {
                match Self::shape_field_name(*key) {
                    Err(e) => Err(e),
                    Ok(name) => match self.node_to_expr(*value) {
                        Err(e) => Err(e),
                        Ok(value) => Ok((name, value)),
                    },
                }
            },
            _ => Err(ParseError::ExpectedListItem),
        }
    }

    pub open spec fn shape_fields_of_first(self, nodes: Seq<NodeView>, n: nat) -> Result<
        Seq<(ShapeFieldNameView, ExprView)>,
        ParseError,
    >
        decreases n,
    {
        if n == 0 || n > nodes.len() {
            Ok(Seq::empty())
        } else {
            match self.shape_fields_of_first(nodes, (n - 1) as nat) {
                Err(e) => Err(e),
                Ok(fields) => match self.shape_field_of(nodes[n - 1]) {
                    Err(e) => Err(e),
                    Ok(field) => Ok(fields.push(field)),
                },
            }
        }
    }

    /// An expression made of the elements between two brackets: the
    /// elements are read first, then the span of the brackets.
    pub open spec fn bracketed_expression(
        elements: Result<ExprView_, ParseError>,
        open: NodeResult,
        close: NodeResult,
    ) -> NodeResult {
        match elements {
            Err(e) => Err(e),
            Ok(expr_) => match bracket_pos(open, close) {
                Err(e) => Err(e),
                Ok(pos) => Ok(NodeView::Expr(ExprView(pos, expr_))),
            },
        }
    }

    /// An operand that holds a `yield` makes the whole the marker of a `yield`,
    /// so that the function around it is known as a generator.
    pub open spec fn make_array_intrinsic_expression(
        self,
        array: NodeResult,
        fields: NodeResult,
        right_paren: NodeResult,
    ) -> NodeResult {
        if yield_among3(array, fields, right_paren) {
            Ok(yield_marker())
        } else {
            self.plain_array_intrinsic_expression(array, fields, right_paren)
        }
    }

    /// The same where no operand holds a `yield`.
    pub open spec fn plain_array_intrinsic_expression(
        self,
        array: NodeResult,
        fields: NodeResult,
        right_paren: NodeResult,
    ) -> NodeResult {
        Self::bracketed_expression(
            match fields {
                Err(e) => Err(e),
                Ok(fields) => match self.afields_of_first(fields.items(), fields.items().len()) {
                    Err(e) => Err(e),
                    Ok(fields) => Ok(ExprView_::Array(fields)),
                },
            },
            array,
            right_paren,
        )
    }

    /// An operand that holds a `yield` makes the whole the marker of a `yield`,
    /// so that the function around it is known as a generator.
    pub open spec fn make_darray_intrinsic_expression(
        self,
        darray: NodeResult,
        fields: NodeResult,
        right_bracket: NodeResult,
    ) -> NodeResult {
        if yield_among3(darray, fields, right_bracket) {
            Ok(yield_marker())
        } else {
            self.plain_darray_intrinsic_expression(darray, fields, right_bracket)
        }
    }

    /// The same where no operand holds a `yield`.
    pub open spec fn plain_darray_intrinsic_expression(
        self,
        darray: NodeResult,
        fields: NodeResult,
        right_bracket: NodeResult,
    ) -> NodeResult {
        Self::bracketed_expression(
            match fields {
                Err(e) => Err(e),
                Ok(fields) => match self.pairs_of_first(fields.items(), fields.items().len()) {
                    Err(e) => Err(e),
                    Ok(fields) => Ok(ExprView_::Darray(fields)),
                },
            },
            darray,
            right_bracket,
        )
    }

    /// An operand that holds a `yield` makes the whole the marker of a `yield`,
    /// so that the function around it is known as a generator.
    pub open spec fn make_dictionary_intrinsic_expression(
        self,
        dict: NodeResult,
        fields: NodeResult,
        right_bracket: NodeResult,
    ) -> NodeResult {
        if yield_among3(dict, fields, right_bracket) {
            Ok(yield_marker())
        } else {
            self.plain_dictionary_intrinsic_expression(dict, fields, right_bracket)
        }
    }

    /// The same where no operand holds a `yield`.
    pub open spec fn plain_dictionary_intrinsic_expression(
        self,
        dict: NodeResult,
        fields: NodeResult,
        right_bracket: NodeResult,
    ) -> NodeResult {
        Self::bracketed_expression(
            match fields {
                Err(e) => Err(e),
                Ok(fields) => match self.pairs_of_first(fields.items(), fields.items().len()) {
                    Err(e) => Err(e),
                    Ok(fields) => Ok(ExprView_::KeyValCollection(KvcKind::Dict, fields)),
                },
            },
            dict,
            right_bracket,
        )
    }

    /// The expressions that the items of a node stand for.
    pub open spec fn exprs_of_node(self, fields: NodeResult) -> Result<Seq<ExprView>, ParseError> {
        match fields {
            Err(e) => Err(e),
            Ok(fields) => self.exprs_of(fields.items()),
        }
    }

    /// An operand that holds a `yield` makes the whole the marker of a `yield`,
    /// so that the function around it is known as a generator.
    pub open spec fn make_keyset_intrinsic_expression(
        self,
        keyset: NodeResult,
        fields: NodeResult,
        right_bracket: NodeResult,
    ) -> NodeResult {
        if yield_among3(keyset, fields, right_bracket) {
            Ok(yield_marker())
        } else {
            self.plain_keyset_intrinsic_expression(keyset, fields, right_bracket)
        }
    }

    /// The same where no operand holds a `yield`.
    pub open spec fn plain_keyset_intrinsic_expression(
        self,
        keyset: NodeResult,
        fields: NodeResult,
        right_bracket: NodeResult,
    ) -> NodeResult {
        Self::bracketed_expression(
            match self.exprs_of_node(fields) {
                Err(e) => Err(e),
                Ok(fields) => Ok(ExprView_::ValCollection(VcKind::Keyset, fields)),
            },
            keyset,
            right_bracket,
        )
    }

    /// An operand that holds a `yield` makes the whole the marker of a `yield`,
    /// so that the function around it is known as a generator.
    pub open spec fn make_varray_intrinsic_expression(
        self,
        varray: NodeResult,
        fields: NodeResult,
        right_bracket: NodeResult,
    ) -> NodeResult {
        if yield_among3(varray, fields, right_bracket) {
            Ok(yield_marker())
        } else {
            self.plain_varray_intrinsic_expression(varray, fields, right_bracket)
        }
    }

    /// The same where no operand holds a `yield`.
    pub open spec fn plain_varray_intrinsic_expression(
        self,
        varray: NodeResult,
        fields: NodeResult,
        right_bracket: NodeResult,
    ) -> NodeResult {
        Self::bracketed_expression(
            match self.exprs_of_node(fields) {
                Err(e) => Err(e),
                Ok(fields) => Ok(ExprView_::Varray(fields)),
            },
            varray,
            right_bracket,
        )
    }

    /// An operand that holds a `yield` makes the whole the marker of a `yield`,
    /// so that the function around it is known as a generator.
    pub open spec fn make_vector_intrinsic_expression(
        self,
        vec: NodeResult,
        fields: NodeResult,
        right_bracket: NodeResult,
    ) -> NodeResult {
        if yield_among3(vec, fields, right_bracket) {
            Ok(yield_marker())
        } else {
            self.plain_vector_intrinsic_expression(vec, fields, right_bracket)
        }
    }

    /// The same where no operand holds a `yield`.
    pub open spec fn plain_vector_intrinsic_expression(
        self,
        vec: NodeResult,
        fields: NodeResult,
        right_bracket: NodeResult,
    ) -> NodeResult {
        Self::bracketed_expression(
            match self.exprs_of_node(fields) {
                Err(e) => Err(e),
                Ok(fields) => Ok(ExprView_::ValCollection(VcKind::Vec, fields)),
            },
            vec,
            right_bracket,
        )
    }

    /// An operand that holds a `yield` makes the whole the marker of a `yield`,
    /// so that the function around it is known as a generator.
    pub open spec fn make_tuple_expression(
        self,
        tuple: NodeResult,
        fields: NodeResult,
        right_paren: NodeResult,
    ) -> NodeResult {
        if yield_among3(tuple, fields, right_paren) {
            Ok(yield_marker())
        } else {
            self.plain_tuple_expression(tuple, fields, right_paren)
        }
    }

    /// The same where no operand holds a `yield`.
    pub open spec fn plain_tuple_expression(
        self,
        tuple: NodeResult,
        fields: NodeResult,
        right_paren: NodeResult,
    ) -> NodeResult {
        Self::bracketed_expression(
            match self.exprs_of_node(fields) {
                Err(e) => Err(e),
                Ok(fields) => Ok(ExprView_::List(fields)),
            },
            tuple,
            right_paren,
        )
    }

    /// An operand that holds a `yield` makes the whole the marker of a `yield`,
    /// so that the function around it is known as a generator.
    pub open spec fn make_shape_expression(
        self,
        shape: NodeResult,
        fields: NodeResult,
        right_paren: NodeResult,
    ) -> NodeResult {
        if yield_among3(shape, fields, right_paren) {
            Ok(yield_marker())
        } else {
            self.plain_shape_expression(shape, fields, right_paren)
        }
    }

    /// The same where no operand holds a `yield`.
    pub open spec fn plain_shape_expression(
        self,
        shape: NodeResult,
        fields: NodeResult,
        right_paren: NodeResult,
    ) -> NodeResult {
        Self::bracketed_expression(
            match fields {
                Err(e) => Err(e),
                Ok(fields) => match self.shape_fields_of_first(
                    fields.items(),
                    fields.items().len(),
                ) {
                    Err(e) => Err(e),
                    Ok(fields) => Ok(ExprView_::Shape(fields)),
                },
            },
            shape,
            right_paren,
        )
    }

    /// An operator applied to one operand. Where either of the two has no
    /// position, the expression is ignored.
    pub open spec fn unary_expression(
        self,
        first: NodeView,
        second: NodeView,
        op: NodeView,
        operator: Result<Uop, ParseError>,
        value: NodeView,
    ) -> NodeResult {
        match (first.get_pos(), second.get_pos()) {
            (Ok(first_pos), Ok(second_pos)) => match first_pos.merge(second_pos) {
                Err(e) => Err(e),
                Ok(pos) => match operator {
                    Err(e) => Err(e),
                    Ok(operator) => match self.node_to_expr(value) {
                        Err(e) => Err(e),
                        Ok(value) => Ok(
                            NodeView::Expr(
                                ExprView(pos, ExprView_::Unop(operator, Box::new(value))),
                            ),
                        ),
                    },
                },
            },
            _ => Ok(NodeView::Ignored),
        }
    }

    /// An operand that holds a `yield` makes the whole the marker of a `yield`,
    /// so that the function around it is known as a generator.
    pub open spec fn make_prefix_unary_expression(self, op: NodeResult, value: NodeResult)
        -> NodeResult {
        if yield_among2(op, value) {
            Ok(yield_marker())
        } else {
            self.plain_prefix_unary_expression(op, value)
        }
    }

    /// The same where no operand holds a `yield`.
    pub open spec fn plain_prefix_unary_expression(self, op: NodeResult, value: NodeResult)
        -> NodeResult {
        match op {
            Err(e) => Err(e),
            Ok(op) => match value {
                Err(e) => Err(e),
                Ok(value) => self.unary_expression(
                    op,
                    value,
                    op,
                    match operator_of(op) {
                        Err(e) => Err(e),
                        Ok(kind) => prefix_operator(kind),
                    },
                    value,
                ),
            },
        }
    }

    /// An operand that holds a `yield` makes the whole the marker of a `yield`,
    /// so that the function around it is known as a generator.
    pub open spec fn make_postfix_unary_expression(self, value: NodeResult, op: NodeResult)
        -> NodeResult {
        if yield_among2(value, op) {
            Ok(yield_marker())
        } else {
            self.plain_postfix_unary_expression(value, op)
        }
    }

    /// The same where no operand holds a `yield`.
    pub open spec fn plain_postfix_unary_expression(self, value: NodeResult, op: NodeResult)
        -> NodeResult {
        match value {
            Err(e) => Err(e),
            Ok(value) => match op {
                Err(e) => Err(e),
                Ok(op) => self.unary_expression(
                    value,
                    op,
                    op,
                    match operator_of(op) {
                        Err(e) => Err(e),
                        Ok(kind) => postfix_operator(kind),
                    },
                    value,
                ),
            },
        }
    }

    /// The span of an operator and its two operands; nothing where one of
    /// the three has no position.
    pub open spec fn binary_pos(lhs: NodeView, op: NodeView, rhs: NodeView) -> Option<
        Result<PosView, ParseError>,
    > {
        match (lhs.get_pos(), op.get_pos(), rhs.get_pos()) {
            (Ok(lhs_pos), Ok(op_pos), Ok(rhs_pos)) => Some(
                match lhs_pos.merge(op_pos) {
                    Err(e) => Err(e),
                    Ok(left) => left.merge(rhs_pos),
                },
            ),
            _ => None,
        }
    }

    /// The operator between two operands that a node is.
    pub open spec fn binary_operator_of(op: NodeView) -> Result<Bop<'static>, ParseError> {
        match operator_of(op) {
            Err(e) => Err(e),
            Ok(kind) => binary_operator(kind),
        }
    }

    /// The expression `lhs op rhs` at `pos`.
    pub open spec fn binary_expression_at(
        self,
        pos: PosView,
        lhs: NodeView,
        op: NodeView,
        rhs: NodeView,
    ) -> NodeResult {
        match Self::binary_operator_of(op) {
            Err(e) => Err(e),
            Ok(operator) => match self.node_to_expr(lhs) {
                Err(e) => Err(e),
                Ok(lhs) => match self.node_to_expr(rhs) {
                    Err(e) => Err(e),
                    Ok(rhs) => Ok(
                        NodeView::Expr(
                            ExprView(
                                pos,
                                ExprView_::Binop(operator, Box::new(lhs), Box::new(rhs)),
                            ),
                        ),
                    ),
                },
            },
        }
    }

    /// An operator between two operands. Where one of the three has no
    /// position, the expression is ignored.
    /// An operand that holds a `yield` makes the whole the marker of a `yield`,
    /// so that the function around it is known as a generator.
    pub open spec fn make_binary_expression(self, lhs: NodeResult, op: NodeResult, rhs: NodeResult)
        -> NodeResult {
        if yield_among3(lhs, op, rhs) {
            Ok(yield_marker())
        } else {
            self.plain_binary_expression(lhs, op, rhs)
        }
    }

    /// The same where no operand holds a `yield`.
    pub open spec fn plain_binary_expression(self, lhs: NodeResult, op: NodeResult, rhs: NodeResult)
        -> NodeResult {
        match lhs {
            Err(e) => Err(e),
            Ok(lhs) => match op {
                Err(e) => Err(e),
                Ok(op) => match rhs {
                    Err(e) => Err(e),
                    Ok(rhs) => match Self::binary_pos(lhs, op, rhs) {
                        None => Ok(NodeView::Ignored),
                        Some(Err(e)) => Err(e),
                        Some(Ok(pos)) => self.binary_expression_at(pos, lhs, op, rhs),
                    },
                },
            },
        }
    }

    /// The class that `name` names before `::`: the class itself for `self`,
    /// else the class of that name.
    pub open spec fn class_id(id: IdView) -> ClassIdView {
        ClassIdView(
            id.0,
            if names_class_itself(id.1) {
                ClassIdView_::CIself
            } else {
                ClassIdView_::CI(id)
            },
        )
    }

    /// A constant of a class, `class_name::value`.
    /// An operand that holds a `yield` makes the whole the marker of a `yield`,
    /// so that the function around it is known as a generator.
    pub open spec fn make_scope_resolution_expression(
        self,
        class_name: NodeResult,
        value: NodeResult,
    ) -> NodeResult {
        if yield_among2(class_name, value) {
            Ok(yield_marker())
        } else {
            self.plain_scope_resolution_expression(class_name, value)
        }
    }

    /// The same where no operand holds a `yield`.
    pub open spec fn plain_scope_resolution_expression(
        self,
        class_name: NodeResult,
        value: NodeResult,
    ) -> NodeResult {
        match class_name {
            Err(e) => Err(e),
            Ok(class_name) => match value {
                Err(e) => Err(e),
                Ok(value) => match class_name.get_pos() {
                    Err(e) => Err(e),
                    Ok(class_pos) => match value.get_pos() {
                        Err(e) => Err(e),
                        Ok(value_pos) => match class_pos.merge(value_pos) {
                            Err(e) => Err(e),
                            Ok(pos) => match get_name(self.current_namespace(), class_name) {
                                Err(e) => Err(e),
                                Ok(class) => match get_name(Seq::empty(), value) {
                                    Err(e) => Err(e),
                                    Ok(value_id) => Ok(
                                        NodeView::Expr(
                                            ExprView(
                                                pos,
                                                ExprView_::ClassConst(
                                                    Self::class_id(class),
                                                    (value_id.0, value_id.1),
                                                ),
                                            ),
                                        ),
                                    ),
                                },
                            },
                        },
                    },
                },
            },
        }
    }

    /// The name of an attribute: as it is written where it begins with two
    /// underscores, else under the current namespace.
    pub open spec fn attribute_name(self, name: NodeView) -> Result<IdView, ParseError> {
        match get_name(Seq::empty(), name) {
            Err(e) => Err(e),
            Ok(unqualified) => if is_reserved_attribute_name(unqualified.1) {
                Ok(unqualified)
            } else {
                get_name(self.current_namespace(), name)
            },
        }
    }

    /// An attribute: its name and the arguments of the call.
    /// An operand that holds a `yield` makes the whole the marker of a `yield`,
    /// so that the function around it is known as a generator.
    pub open spec fn make_constructor_call(self, name: NodeResult, args: NodeResult)
        -> NodeResult {
        if yield_among2(name, args) {
            Ok(yield_marker())
        } else {
            self.plain_constructor_call(name, args)
        }
    }

    /// The same where no operand holds a `yield`.
    pub open spec fn plain_constructor_call(self, name: NodeResult, args: NodeResult)
        -> NodeResult {
        match name {
            Err(e) => Err(e),
            Ok(name) => match self.attribute_name(name) {
                Err(e) => Err(e),
                Ok(name) => match self.exprs_of_node(args) {
                    Err(e) => Err(e),
                    Ok(params) => Ok(NodeView::Attribute(UserAttributeView { name, params })),
                },
            },
        }
    }
}

pub proof fn lemma_pairs_fail(s: StateView, nodes: Seq<NodeView>, n: nat, m: nat)
    requires
        0 < n <= m <= nodes.len(),
        s.pairs_of_first(nodes, n) is Err,
    ensures
        s.pairs_of_first(nodes, m) == s.pairs_of_first(nodes, n),
    decreases m - n,
{
    if n < m {
        lemma_pairs_fail(s, nodes, n, (m - 1) as nat);
    }
}

pub proof fn lemma_afields_fail(s: StateView, nodes: Seq<NodeView>, n: nat, m: nat)
    requires
        0 < n <= m <= nodes.len(),
        s.afields_of_first(nodes, n) is Err,
    ensures
        s.afields_of_first(nodes, m) == s.afields_of_first(nodes, n),
    decreases m - n,
{
    if n < m {
        lemma_afields_fail(s, nodes, n, (m - 1) as nat);
    }
}

pub proof fn lemma_shape_fields_fail(s: StateView, nodes: Seq<NodeView>, n: nat, m: nat)
    requires
        0 < n <= m <= nodes.len(),
        s.shape_fields_of_first(nodes, n) is Err,
    ensures
        s.shape_fields_of_first(nodes, m) == s.shape_fields_of_first(nodes, n),
    decreases m - n,
{
    if n < m {
        lemma_shape_fields_fail(s, nodes, n, (m - 1) as nat);
    }
}

fn prefix_operator_of(kind: TokenKind) -> (r: Result<Uop, ParseError>)
    ensures
        r == prefix_operator(kind),
{
    match kind {
        TokenKind::Tilde => Ok(Uop::Utild),
        TokenKind::Exclamation => Ok(Uop::Unot),
        TokenKind::Plus => Ok(Uop::Uplus),
        TokenKind::Minus => Ok(Uop::Uminus),
        TokenKind::PlusPlus => Ok(Uop::Uincr),
        TokenKind::MinusMinus => Ok(Uop::Udecr),
        TokenKind::At => Ok(Uop::Usilence),
        _ => Err(ParseError::NotAPrefixOperator),
    }
}

fn postfix_operator_of(kind: TokenKind) -> (r: Result<Uop, ParseError>)
    ensures
        r == postfix_operator(kind),
{
    match kind {
        TokenKind::PlusPlus => Ok(Uop::Upincr),
        TokenKind::MinusMinus => Ok(Uop::Updecr),
        _ => Err(ParseError::NotAPostfixOperator),
    }
}

fn binary_operator_of(kind: TokenKind) -> (r: Result<Bop<'static>, ParseError>)
    ensures
        r == binary_operator(kind),
{
    match kind {
        TokenKind::Plus => Ok(Bop::Plus),
        TokenKind::Minus => Ok(Bop::Minus),
        TokenKind::Star => Ok(Bop::Star),
        TokenKind::Slash => Ok(Bop::Slash),
        TokenKind::EqualEqual => Ok(Bop::Eqeq),
        TokenKind::EqualEqualEqual => Ok(Bop::Eqeqeq),
        TokenKind::StarStar => Ok(Bop::Starstar),
        TokenKind::AmpersandAmpersand => Ok(Bop::Ampamp),
        TokenKind::BarBar => Ok(Bop::Barbar),
        TokenKind::LessThan => Ok(Bop::Lt),
        TokenKind::LessThanEqual => Ok(Bop::Lte),
        TokenKind::LessThanLessThan => Ok(Bop::Ltlt),
        TokenKind::GreaterThan => Ok(Bop::Gt),
        TokenKind::GreaterThanEqual => Ok(Bop::Gte),
        TokenKind::GreaterThanGreaterThan => Ok(Bop::Gtgt),
        TokenKind::Dot => Ok(Bop::Dot),
        TokenKind::Ampersand => Ok(Bop::Amp),
        TokenKind::Bar => Ok(Bop::Bar),
        TokenKind::Percent => Ok(Bop::Percent),
        TokenKind::QuestionQuestion => Ok(Bop::QuestionQuestion),
        _ => Err(ParseError::NotABinaryOperator),
    }
}

fn operator_of_node(op: &Node_) -> (r: Result<TokenKind, ParseError>)
    ensures
        r == operator_of(op@),
{
    match op.as_operator() {
        Some((_, kind)) => Ok(kind),
        None => Err(ParseError::ExpectedOperator),
    }
}

/// The span from the token `open` to the token `close`.
pub fn bracket_pos_of<'a>(open: Node<'a>, close: Node<'a>) -> (r: Result<Pos<'a>, ParseError>)
    ensures
        pos_result_view(r) == bracket_pos(result_view(open), result_view(close)),
{
    let open = match open {
        Ok(open) => open,
        Err(e) => {
            return Err(e);
        },
    };
    let first = match open.get_pos() {
        Ok(pos) => pos,
        Err(e) => {
            return Err(e);
        },
    };
    let close = match close {
        Ok(close) => close,
        Err(e) => {
            return Err(e);
        },
    };
    let second = match close.get_pos() {
        Ok(pos) => pos,
        Err(e) => {
            return Err(e);
        },
    };
    Pos::merge(first, second)
}

pub open spec fn expr__result_view(r: Result<Expr_, ParseError>) -> Result<ExprView_, ParseError> {
    match r {
        Ok(e) => Ok(e@),
        Err(e) => Err(e),
    }
}

impl<'a> DirectDeclSmartConstructors<'a> {
    /// The node of the expression `expr_` at `pos`.
    pub fn expr_node(&self, pos: Pos<'a>, expr_: Expr_<'a>) -> (r: Node_<'a>)
        ensures
            r@ == NodeView::Expr(ExprView(pos@, expr_@)),
    {
        Node_::Expr(self.allocate(Expr(pos, expr_))).with_view()
    }

    /// An expression made of the elements between two brackets.
    fn bracketed_expression(
        &self,
        elements: Result<Expr_<'a>, ParseError>,
        open: Node<'a>,
        close: Node<'a>,
    ) -> (r: Node<'a>)
        ensures
            result_view(r) == StateView::bracketed_expression(
                expr__result_view(elements),
                result_view(open),
                result_view(close),
            ),
    {
        let expr_ = match elements {
            Ok(expr_) => expr_,
            Err(e) => {
                return Err(e);
            },
        };
        match bracket_pos_of(open, close) {
            Err(e) => Err(e),
            Ok(pos) => Ok(self.expr_node(pos, expr_)),
        }
    }

    /// The pair of expressions that `node` stands for.
    fn pair_of(&self, node: Node_<'a>) -> (r: Result<(Expr<'a>, Expr<'a>), ParseError>)
        ensures
            match r {
                Ok((key, value)) => self@.pair_of(node@) == Ok::<(ExprView, ExprView), ParseError>(
                    (key@, value@),
                ),
                Err(e) => self@.pair_of(node@) == Err::<(ExprView, ExprView), ParseError>(e),
            },
    {
        match node.as_list_item() {
            Some((key, value)) => {
                let key = match self.node_to_expr(key) {
                    Ok(key) => key,
                    Err(e) => {
                        return Err(e);
                    },
                };
                match self.node_to_expr(value) {
                    Ok(value) => Ok((key, value)),
                    Err(e) => Err(e),
                }
            },
            None => Err(ParseError::ExpectedListItem),
        }
    }

    fn pairs_of(&self, fields: Node<'a>) -> (r: Result<&'a Vec<(Expr<'a>, Expr<'a>)>, ParseError>)
        ensures
            match r {
                Ok(pairs) => result_view(fields) is Ok && self@.pairs_of_first(
                    result_view(fields)->Ok_0.items(),
                    result_view(fields)->Ok_0.items().len(),
                ) == Ok::<Seq<(ExprView, ExprView)>, ParseError>(expr_pairs_view(pairs)),
                Err(e) => match result_view(fields) {
                    Err(e2) => e == e2,
                    Ok(fields) => self@.pairs_of_first(fields.items(), fields.items().len())
                        == Err::<Seq<(ExprView, ExprView)>, ParseError>(e),
                },
            },
    {
        let node = match fields {
            Ok(node) => node,
            Err(e) => {
                return Err(e);
            },
        };
        let nodes = node.as_slice(self.state.arena);
        let ghost views = nodes_view(nodes);
        let mut pairs: Vec<(Expr<'a>, Expr<'a>)> = Vec::new();
        assert(expr_pairs_view(&pairs) =~= Seq::<(ExprView, ExprView)>::empty());
        let mut i: usize = 0;
        while i < nodes.len()
            invariant
                i <= nodes.len(),
                views == nodes_view(nodes),
                result_view(fields) == Ok::<NodeView, ParseError>(node@),
                views == node@.items(),
                self@.pairs_of_first(views, i as nat) == Ok::<
                    Seq<(ExprView, ExprView)>,
                    ParseError,
                >(expr_pairs_view(&pairs)),
            decreases nodes.len() - i,
        {
            let ghost before = expr_pairs_view(&pairs);
            match self.pair_of(nodes[i]) {
                Err(e) => {
                    proof {
                        lemma_pairs_fail(self@, views, (i + 1) as nat, nodes.len() as nat);
                    }
                    return Err(e);
                },
                Ok(pair) => {
                    pairs.push(pair);
                    assert(expr_pairs_view(&pairs) =~= before.push((pair.0@, pair.1@)));
                },
            }
            i = i + 1;
        }
        let ghost built = expr_pairs_view(&pairs);
        let r = self.allocate(pairs);
        assert(expr_pairs_view(r) =~= built);
        Ok(r)
    }

    /// The element of an `array(...)` that `node` stands for.
    fn afield_of(&self, node: Node_<'a>) -> (r: Result<Afield<'a>, ParseError>)
        ensures
            match r {
                Ok(field) => self@.afield_of(node@) == Ok::<AfieldView, ParseError>(
                    match field {
                        Afield::AFvalue(v) => AfieldView::AFvalue(v@),
                        Afield::AFkvalue(k, v) => AfieldView::AFkvalue(k@, v@),
                    },
                ),
                Err(e) => self@.afield_of(node@) == Err::<AfieldView, ParseError>(e),
            },
    {
        match node.as_list_item() {
            Some(_) => {
                match self.pair_of(node) {
                    Ok((key, value)) => Ok(Afield::AFkvalue(key, value)),
                    Err(e) => Err(e),
                }
            },
            None => {
                match self.node_to_expr(node) {
                    Ok(value) => Ok(Afield::AFvalue(value)),
                    Err(e) => Err(e),
                }
            },
        }
    }

    fn afields_of(&self, fields: Node<'a>) -> (r: Result<&'a Vec<Afield<'a>>, ParseError>)
        ensures
            match r {
                Ok(afields) => result_view(fields) is Ok && self@.afields_of_first(
                    result_view(fields)->Ok_0.items(),
                    result_view(fields)->Ok_0.items().len(),
                ) == Ok::<Seq<AfieldView>, ParseError>(afields_view(afields)),
                Err(e) => match result_view(fields) {
                    Err(e2) => e == e2,
                    Ok(fields) => self@.afields_of_first(fields.items(), fields.items().len())
                        == Err::<Seq<AfieldView>, ParseError>(e),
                },
            },
    {
        let node = match fields {
            Ok(node) => node,
            Err(e) => {
                return Err(e);
            },
        };
        let nodes = node.as_slice(self.state.arena);
        let ghost views = nodes_view(nodes);
        let mut afields: Vec<Afield<'a>> = Vec::new();
        assert(afields_view(&afields) =~= Seq::<AfieldView>::empty());
        let mut i: usize = 0;
        while i < nodes.len()
            invariant
                i <= nodes.len(),
                views == nodes_view(nodes),
                result_view(fields) == Ok::<NodeView, ParseError>(node@),
                views == node@.items(),
                self@.afields_of_first(views, i as nat) == Ok::<Seq<AfieldView>, ParseError>(
                    afields_view(&afields),
                ),
            decreases nodes.len() - i,
        {
            let ghost before = afields_view(&afields);
            match self.afield_of(nodes[i]) {
                Err(e) => {
                    proof {
                        lemma_afields_fail(self@, views, (i + 1) as nat, nodes.len() as nat);
                    }
                    return Err(e);
                },
                Ok(field) => {
                    afields.push(field);
                    assert(afields_view(&afields) =~= before.push(
                        self@.afield_of(views[i as int])->Ok_0,
                    ));
                },
            }
            i = i + 1;
        }
        let ghost built = afields_view(&afields);
        let r = self.allocate(afields);
        assert(afields_view(r) =~= built);
        Ok(r)
    }

    /// The field of a shape expression that `node` stands for.
    fn shape_field_of(&self, node: Node_<'a>) -> (r: Result<
        (ShapeFieldName<'a>, Expr<'a>),
        ParseError,
    >)
        ensures
            match r {
                Ok((name, value)) => self@.shape_field_of(node@) == Ok::<
                    (ShapeFieldNameView, ExprView),
                    ParseError,
                >((name@, value@)),
                Err(e) => self@.shape_field_of(node@) == Err::<
                    (ShapeFieldNameView, ExprView),
                    ParseError,
                >(e),
            },
    {
        match node.as_list_item() {
            Some((key, value)) => {
                let name = match shape_field_name_of(key) {
                    Ok(name) => name,
                    Err(e) => {
                        return Err(e);
                    },
                };
                match self.node_to_expr(value) {
                    Ok(value) => Ok((name, value)),
                    Err(e) => Err(e),
                }
            },
            None => Err(ParseError::ExpectedListItem),
        }
    }

    fn shape_fields_of(&self, fields: Node<'a>) -> (r: Result<
        &'a Vec<(ShapeFieldName<'a>, Expr<'a>)>,
        ParseError,
    >)
        ensures
            match r {
                Ok(shape_fields) => result_view(fields) is Ok && self@.shape_fields_of_first(
                    result_view(fields)->Ok_0.items(),
                    result_view(fields)->Ok_0.items().len(),
                ) == Ok::<Seq<(ShapeFieldNameView, ExprView)>, ParseError>(
                    shape_exprs_view(shape_fields),
                ),
                Err(e) => match result_view(fields) {
                    Err(e2) => e == e2,
                    Ok(fields) => self@.shape_fields_of_first(fields.items(), fields.items().len())
                        == Err::<Seq<(ShapeFieldNameView, ExprView)>, ParseError>(e),
                },
            },
    {
        let node = match fields {
            Ok(node) => node,
            Err(e) => {
                return Err(e);
            },
        };
        let nodes = node.as_slice(self.state.arena);
        let ghost views = nodes_view(nodes);
        let mut shape_fields: Vec<(ShapeFieldName<'a>, Expr<'a>)> = Vec::new();
        assert(shape_exprs_view(&shape_fields) =~= Seq::<(ShapeFieldNameView, ExprView)>::empty());
        let mut i: usize = 0;
        while i < nodes.len()
            invariant
                i <= nodes.len(),
                views == nodes_view(nodes),
                result_view(fields) == Ok::<NodeView, ParseError>(node@),
                views == node@.items(),
                self@.shape_fields_of_first(views, i as nat) == Ok::<
                    Seq<(ShapeFieldNameView, ExprView)>,
                    ParseError,
                >(shape_exprs_view(&shape_fields)),
            decreases nodes.len() - i,
        {
            let ghost before = shape_exprs_view(&shape_fields);
            match self.shape_field_of(nodes[i]) {
                Err(e) => {
                    proof {
                        lemma_shape_fields_fail(self@, views, (i + 1) as nat, nodes.len() as nat);
                    }
                    return Err(e);
                },
                Ok(field) => {
                    shape_fields.push(field);
                    assert(shape_exprs_view(&shape_fields) =~= before.push((field.0@, field.1@)));
                },
            }
            i = i + 1;
        }
        let ghost built = shape_exprs_view(&shape_fields);
        let r = self.allocate(shape_fields);
        assert(shape_exprs_view(r) =~= built);
        Ok(r)
    }

    /// The expressions that the items of `fields` stand for.
    pub fn exprs_of_node(&self, fields: Node<'a>) -> (r: Result<&'a Vec<Expr<'a>>, ParseError>)
        ensures
            match r {
                Ok(exprs) => self@.exprs_of_node(result_view(fields)) == Ok::<
                    Seq<ExprView>,
                    ParseError,
                >(exprs_view(exprs)),
                Err(e) => self@.exprs_of_node(result_view(fields)) == Err::<
                    Seq<ExprView>,
                    ParseError,
                >(e),
            },
    {
        match fields {
            Err(e) => Err(e),
            Ok(fields) => self.nodes_to_exprs(fields.as_slice(self.state.arena)),
        }
    }

    pub fn make_array_intrinsic_expression(
        &mut self,
        array: Node<'a>,
        _arg1: Node<'a>,
        fields: Node<'a>,
        right_paren: Node<'a>,
    ) -> (r: Node<'a>)
        ensures
            final(self)@ == old(self)@,
            result_view(r) == old(self)@.make_array_intrinsic_expression(
                result_view(array),
                result_view(fields),
                result_view(right_paren),
            ),
    {
        if any_yield3(&array, &fields, &right_paren) {
            return Ok(Node_::Token(TokenKind::Yield).with_view());
        }
        self.plain_array_intrinsic_expression(array, _arg1, fields, right_paren)
    }

    fn plain_array_intrinsic_expression(
        &mut self,
        array: Node<'a>,
        _arg1: Node<'a>,
        fields: Node<'a>,
        right_paren: Node<'a>,
    ) -> (r: Node<'a>)
        ensures
            final(self)@ == old(self)@,
            result_view(r) == old(self)@.plain_array_intrinsic_expression(
                result_view(array),
                result_view(fields),
                result_view(right_paren),
            ),
    {
        let elements = match self.afields_of(fields) {
            Ok(fields) => Ok(Expr_::Array(fields)),
            Err(e) => Err(e),
        };
        self.bracketed_expression(elements, array, right_paren)
    }

    pub fn make_darray_intrinsic_expression(
        &mut self,
        darray: Node<'a>,
        _arg1: Node<'a>,
        _arg2: Node<'a>,
        fields: Node<'a>,
        right_bracket: Node<'a>,
    ) -> (r: Node<'a>)
        ensures
            final(self)@ == old(self)@,
            result_view(r) == old(self)@.make_darray_intrinsic_expression(
                result_view(darray),
                result_view(fields),
                result_view(right_bracket),
            ),
    {
        if any_yield3(&darray, &fields, &right_bracket) {
            return Ok(Node_::Token(TokenKind::Yield).with_view());
        }
        self.plain_darray_intrinsic_expression(darray, _arg1, _arg2, fields, right_bracket)
    }

    fn plain_darray_intrinsic_expression(
        &mut self,
        darray: Node<'a>,
        _arg1: Node<'a>,
        _arg2: Node<'a>,
        fields: Node<'a>,
        right_bracket: Node<'a>,
    ) -> (r: Node<'a>)
        ensures
            final(self)@ == old(self)@,
            result_view(r) == old(self)@.plain_darray_intrinsic_expression(
                result_view(darray),
                result_view(fields),
                result_view(right_bracket),
            ),
    {
        let elements = match self.pairs_of(fields) {
            Ok(fields) => Ok(Expr_::Darray(fields)),
            Err(e) => Err(e),
        };
        self.bracketed_expression(elements, darray, right_bracket)
    }

    pub fn make_dictionary_intrinsic_expression(
        &mut self,
        dict: Node<'a>,
        _arg1: Node<'a>,
        _arg2: Node<'a>,
        fields: Node<'a>,
        right_bracket: Node<'a>,
    ) -> (r: Node<'a>)
        ensures
            final(self)@ == old(self)@,
            result_view(r) == old(self)@.make_dictionary_intrinsic_expression(
                result_view(dict),
                result_view(fields),
                result_view(right_bracket),
            ),
    {
        if any_yield3(&dict, &fields, &right_bracket) {
            return Ok(Node_::Token(TokenKind::Yield).with_view());
        }
        self.plain_dictionary_intrinsic_expression(dict, _arg1, _arg2, fields, right_bracket)
    }

    fn plain_dictionary_intrinsic_expression(
        &mut self,
        dict: Node<'a>,
        _arg1: Node<'a>,
        _arg2: Node<'a>,
        fields: Node<'a>,
        right_bracket: Node<'a>,
    ) -> (r: Node<'a>)
        ensures
            final(self)@ == old(self)@,
            result_view(r) == old(self)@.plain_dictionary_intrinsic_expression(
                result_view(dict),
                result_view(fields),
                result_view(right_bracket),
            ),
    {
        let elements = match self.pairs_of(fields) {
            Ok(fields) => Ok(Expr_::KeyValCollection(KvcKind::Dict, fields)),
            Err(e) => Err(e),
        };
        self.bracketed_expression(elements, dict, right_bracket)
    }

    pub fn make_keyset_intrinsic_expression(
        &mut self,
        keyset: Node<'a>,
        _arg1: Node<'a>,
        _arg2: Node<'a>,
        fields: Node<'a>,
        right_bracket: Node<'a>,
    ) -> (r: Node<'a>)
        ensures
            final(self)@ == old(self)@,
            result_view(r) == old(self)@.make_keyset_intrinsic_expression(
                result_view(keyset),
                result_view(fields),
                result_view(right_bracket),
            ),
    {
        if any_yield3(&keyset, &fields, &right_bracket) {
            return Ok(Node_::Token(TokenKind::Yield).with_view());
        }
        self.plain_keyset_intrinsic_expression(keyset, _arg1, _arg2, fields, right_bracket)
    }

    fn plain_keyset_intrinsic_expression(
        &mut self,
        keyset: Node<'a>,
        _arg1: Node<'a>,
        _arg2: Node<'a>,
        fields: Node<'a>,
        right_bracket: Node<'a>,
    ) -> (r: Node<'a>)
        ensures
            final(self)@ == old(self)@,
            result_view(r) == old(self)@.plain_keyset_intrinsic_expression(
                result_view(keyset),
                result_view(fields),
                result_view(right_bracket),
            ),
    {
        let elements = match self.exprs_of_node(fields) {
            Ok(fields) => Ok(Expr_::ValCollection(VcKind::Keyset, fields)),
            Err(e) => Err(e),
        };
        self.bracketed_expression(elements, keyset, right_bracket)
    }

    pub fn make_varray_intrinsic_expression(
        &mut self,
        varray: Node<'a>,
        _arg1: Node<'a>,
        _arg2: Node<'a>,
        fields: Node<'a>,
        right_bracket: Node<'a>,
    ) -> (r: Node<'a>)
        ensures
            final(self)@ == old(self)@,
            result_view(r) == old(self)@.make_varray_intrinsic_expression(
                result_view(varray),
                result_view(fields),
                result_view(right_bracket),
            ),
    {
        if any_yield3(&varray, &fields, &right_bracket) {
            return Ok(Node_::Token(TokenKind::Yield).with_view());
        }
        self.plain_varray_intrinsic_expression(varray, _arg1, _arg2, fields, right_bracket)
    }

    fn plain_varray_intrinsic_expression(
        &mut self,
        varray: Node<'a>,
        _arg1: Node<'a>,
        _arg2: Node<'a>,
        fields: Node<'a>,
        right_bracket: Node<'a>,
    ) -> (r: Node<'a>)
        ensures
            final(self)@ == old(self)@,
            result_view(r) == old(self)@.plain_varray_intrinsic_expression(
                result_view(varray),
                result_view(fields),
                result_view(right_bracket),
            ),
    {
        let elements = match self.exprs_of_node(fields) {
            Ok(fields) => Ok(Expr_::Varray(fields)),
            Err(e) => Err(e),
        };
        self.bracketed_expression(elements, varray, right_bracket)
    }

    pub fn make_vector_intrinsic_expression(
        &mut self,
        vec: Node<'a>,
        _arg1: Node<'a>,
        _arg2: Node<'a>,
        fields: Node<'a>,
        right_bracket: Node<'a>,
    ) -> (r: Node<'a>)
        ensures
            final(self)@ == old(self)@,
            result_view(r) == old(self)@.make_vector_intrinsic_expression(
                result_view(vec),
                result_view(fields),
                result_view(right_bracket),
            ),
    {
        if any_yield3(&vec, &fields, &right_bracket) {
            return Ok(Node_::Token(TokenKind::Yield).with_view());
        }
        self.plain_vector_intrinsic_expression(vec, _arg1, _arg2, fields, right_bracket)
    }

    fn plain_vector_intrinsic_expression(
        &mut self,
        vec: Node<'a>,
        _arg1: Node<'a>,
        _arg2: Node<'a>,
        fields: Node<'a>,
        right_bracket: Node<'a>,
    ) -> (r: Node<'a>)
        ensures
            final(self)@ == old(self)@,
            result_view(r) == old(self)@.plain_vector_intrinsic_expression(
                result_view(vec),
                result_view(fields),
                result_view(right_bracket),
            ),
    {
        let elements = match self.exprs_of_node(fields) {
            Ok(fields) => Ok(Expr_::ValCollection(VcKind::Vec, fields)),
            Err(e) => Err(e),
        };
        self.bracketed_expression(elements, vec, right_bracket)
    }

    pub fn make_tuple_expression(
        &mut self,
        tuple: Node<'a>,
        _left_paren: Node<'a>,
        fields: Node<'a>,
        right_paren: Node<'a>,
    ) -> (r: Node<'a>)
        ensures
            final(self)@ == old(self)@,
            result_view(r) == old(self)@.make_tuple_expression(
                result_view(tuple),
                result_view(fields),
                result_view(right_paren),
            ),
    {
        if any_yield3(&tuple, &fields, &right_paren) {
            return Ok(Node_::Token(TokenKind::Yield).with_view());
        }
        self.plain_tuple_expression(tuple, _left_paren, fields, right_paren)
    }

    fn plain_tuple_expression(
        &mut self,
        tuple: Node<'a>,
        _left_paren: Node<'a>,
        fields: Node<'a>,
        right_paren: Node<'a>,
    ) -> (r: Node<'a>)
        ensures
            final(self)@ == old(self)@,
            result_view(r) == old(self)@.plain_tuple_expression(
                result_view(tuple),
                result_view(fields),
                result_view(right_paren),
            ),
    {
        let elements = match self.exprs_of_node(fields) {
            Ok(fields) => Ok(Expr_::List(fields)),
            Err(e) => Err(e),
        };
        self.bracketed_expression(elements, tuple, right_paren)
    }

    pub fn make_shape_expression(
        &mut self,
        shape: Node<'a>,
        _left_paren: Node<'a>,
        fields: Node<'a>,
        right_paren: Node<'a>,
    ) -> (r: Node<'a>)
        ensures
            final(self)@ == old(self)@,
            result_view(r) == old(self)@.make_shape_expression(
                result_view(shape),
                result_view(fields),
                result_view(right_paren),
            ),
    {
        if any_yield3(&shape, &fields, &right_paren) {
            return Ok(Node_::Token(TokenKind::Yield).with_view());
        }
        self.plain_shape_expression(shape, _left_paren, fields, right_paren)
    }

    fn plain_shape_expression(
        &mut self,
        shape: Node<'a>,
        _left_paren: Node<'a>,
        fields: Node<'a>,
        right_paren: Node<'a>,
    ) -> (r: Node<'a>)
        ensures
            final(self)@ == old(self)@,
            result_view(r) == old(self)@.plain_shape_expression(
                result_view(shape),
                result_view(fields),
                result_view(right_paren),
            ),
    {
        let elements = match self.shape_fields_of(fields) {
            Ok(fields) => Ok(Expr_::Shape(fields)),
            Err(e) => Err(e),
        };
        self.bracketed_expression(elements, shape, right_paren)
    }

    /// An operator applied to one operand.
    fn unary_expression(
        &self,
        first: Node_<'a>,
        second: Node_<'a>,
        op: Node_<'a>,
        operator: Result<Uop, ParseError>,
        value: Node_<'a>,
    ) -> (r: Node<'a>)
        ensures
            result_view(r) == self@.unary_expression(first@, second@, op@, operator, value@),
    {
        let pos = match (first.get_pos(), second.get_pos()) {
            (Ok(first_pos), Ok(second_pos)) => match Pos::merge(first_pos, second_pos) {
                Ok(pos) => pos,
                Err(e) => {
                    return Err(e);
                },
            },
            _ => {
                return Ok(Node_::Ignored.with_view());
            },
        };
        let operator = match operator {
            Ok(operator) => operator,
            Err(e) => {
                return Err(e);
            },
        };
        let value = match self.node_to_expr(value) {
            Ok(value) => value,
            Err(e) => {
                return Err(e);
            },
        };
        Ok(self.expr_node(pos, Expr_::Unop(operator, self.allocate(value))))
    }

    pub fn make_prefix_unary_expression(&mut self, op: Node<'a>, value: Node<'a>) -> (r: Node<'a>)
        ensures
            final(self)@ == old(self)@,
            result_view(r) == old(self)@.make_prefix_unary_expression(
                result_view(op),
                result_view(value),
            ),
    {
        if any_yield2(&op, &value) {
            return Ok(Node_::Token(TokenKind::Yield).with_view());
        }
        self.plain_prefix_unary_expression(op, value)
    }

    fn plain_prefix_unary_expression(&mut self, op: Node<'a>, value: Node<'a>) -> (r: Node<'a>)
        ensures
            final(self)@ == old(self)@,
            result_view(r) == old(self)@.plain_prefix_unary_expression(
                result_view(op),
                result_view(value),
            ),
    {
        let op = match op {
            Ok(op) => op,
            Err(e) => {
                return Err(e);
            },
        };
        let value = match value {
            Ok(value) => value,
            Err(e) => {
                return Err(e);
            },
        };
        let operator = match operator_of_node(&op) {
            Ok(kind) => prefix_operator_of(kind),
            Err(e) => Err(e),
        };
        self.unary_expression(op, value, op, operator, value)
    }

    pub fn make_postfix_unary_expression(&mut self, value: Node<'a>, op: Node<'a>) -> (r: Node<'a>)
        ensures
            final(self)@ == old(self)@,
            result_view(r) == old(self)@.make_postfix_unary_expression(
                result_view(value),
                result_view(op),
            ),
    {
        if any_yield2(&value, &op) {
            return Ok(Node_::Token(TokenKind::Yield).with_view());
        }
        self.plain_postfix_unary_expression(value, op)
    }

    fn plain_postfix_unary_expression(&mut self, value: Node<'a>, op: Node<'a>) -> (r: Node<'a>)
        ensures
            final(self)@ == old(self)@,
            result_view(r) == old(self)@.plain_postfix_unary_expression(
                result_view(value),
                result_view(op),
            ),
    {
        let value = match value {
            Ok(value) => value,
            Err(e) => {
                return Err(e);
            },
        };
        let op = match op {
            Ok(op) => op,
            Err(e) => {
                return Err(e);
            },
        };
        let operator = match operator_of_node(&op) {
            Ok(kind) => postfix_operator_of(kind),
            Err(e) => Err(e),
        };
        self.unary_expression(value, op, op, operator, value)
    }

    /// The span of an operator and its two operands.
    fn binary_pos(lhs: Node_<'a>, op: Node_<'a>, rhs: Node_<'a>) -> (r: Option<
        Result<Pos<'a>, ParseError>,
    >)
        ensures
            match r {
                Some(r) => StateView::binary_pos(lhs@, op@, rhs@) == Some(pos_result_view(r)),
                None => StateView::binary_pos(lhs@, op@, rhs@) is None,
            },
    {
        match (lhs.get_pos(), op.get_pos(), rhs.get_pos()) {
            (Ok(lhs_pos), Ok(op_pos), Ok(rhs_pos)) => {
                match Pos::merge(lhs_pos, op_pos) {
                    Err(e) => Some(Err(e)),
                    Ok(left) => Some(Pos::merge(left, rhs_pos)),
                }
            },
            _ => None,
        }
    }

    /// The expression `lhs op rhs` at `pos`.
    fn binary_expression_at(&self, pos: Pos<'a>, lhs: Node_<'a>, op: Node_<'a>, rhs: Node_<'a>)
        -> (r: Node<'a>)
        ensures
            result_view(r) == self@.binary_expression_at(pos@, lhs@, op@, rhs@),
    {
        let operator = match operator_of_node(&op) {
            Ok(kind) => match binary_operator_of(kind) {
                Ok(operator) => operator,
                Err(e) => {
                    return Err(e);
                },
            },
            Err(e) => {
                return Err(e);
            },
        };
        let lhs = match self.node_to_expr(lhs) {
            Ok(lhs) => lhs,
            Err(e) => {
                return Err(e);
            },
        };
        let rhs = match self.node_to_expr(rhs) {
            Ok(rhs) => rhs,
            Err(e) => {
                return Err(e);
            },
        };
        Ok(
            self.expr_node(
                pos,
                Expr_::Binop(operator, self.allocate(lhs), self.allocate(rhs)),
            ),
        )
    }

    pub fn make_binary_expression(&mut self, lhs: Node<'a>, op: Node<'a>, rhs: Node<'a>) -> (r:
        Node<'a>)
        ensures
            final(self)@ == old(self)@,
            result_view(r) == old(self)@.make_binary_expression(
                result_view(lhs),
                result_view(op),
                result_view(rhs),
            ),
    {
        if any_yield3(&lhs, &op, &rhs) {
            return Ok(Node_::Token(TokenKind::Yield).with_view());
        }
        self.plain_binary_expression(lhs, op, rhs)
    }

    fn plain_binary_expression(&mut self, lhs: Node<'a>, op: Node<'a>, rhs: Node<'a>) -> (r:
        Node<'a>)
        ensures
            final(self)@ == old(self)@,
            result_view(r) == old(self)@.plain_binary_expression(
                result_view(lhs),
                result_view(op),
                result_view(rhs),
            ),
    {
        let lhs = match lhs {
            Ok(lhs) => lhs,
            Err(e) => {
                return Err(e);
            },
        };
        let op = match op {
            Ok(op) => op,
            Err(e) => {
                return Err(e);
            },
        };
        let rhs = match rhs {
            Ok(rhs) => rhs,
            Err(e) => {
                return Err(e);
            },
        };
        match Self::binary_pos(lhs, op, rhs) {
            None => Ok(Node_::Ignored.with_view()),
            Some(Err(e)) => Err(e),
            Some(Ok(pos)) => self.binary_expression_at(pos, lhs, op, rhs),
        }
    }

    /// The class that `id` names before `::`.
    fn class_id(&self, id: Id<'a>) -> (r: ClassId<'a>)
        ensures
            r@ == StateView::class_id(id@),
    {
        if str_eq_ignore_ascii_case(id.1, "self") || str_eq_ignore_ascii_case(id.1, "\\self") {
            ClassId(id.0, ClassId_::CIself)
        } else {
            ClassId(id.0, ClassId_::CI(id))
        }
    }

    pub fn make_scope_resolution_expression(
        &mut self,
        class_name: Node<'a>,
        _arg1: Node<'a>,
        value: Node<'a>,
    ) -> (r: Node<'a>)
        ensures
            final(self)@ == old(self)@,
            result_view(r) == old(self)@.make_scope_resolution_expression(
                result_view(class_name),
                result_view(value),
            ),
    {
        if any_yield2(&class_name, &value) {
            return Ok(Node_::Token(TokenKind::Yield).with_view());
        }
        self.plain_scope_resolution_expression(class_name, _arg1, value)
    }

    fn plain_scope_resolution_expression(
        &mut self,
        class_name: Node<'a>,
        _arg1: Node<'a>,
        value: Node<'a>,
    ) -> (r: Node<'a>)
        ensures
            final(self)@ == old(self)@,
            result_view(r) == old(self)@.plain_scope_resolution_expression(
                result_view(class_name),
                result_view(value),
            ),
    {
        proof {
            reveal_strlit("");
            assert(""@ =~= Seq::<char>::empty());
        }
        let class_name = match class_name {
            Ok(class_name) => class_name,
            Err(e) => {
                return Err(e);
            },
        };
        let value = match value {
            Ok(value) => value,
            Err(e) => {
                return Err(e);
            },
        };
        let class_pos = match class_name.get_pos() {
            Ok(pos) => pos,
            Err(e) => {
                return Err(e);
            },
        };
        let value_pos = match value.get_pos() {
            Ok(pos) => pos,
            Err(e) => {
                return Err(e);
            },
        };
        let pos = match Pos::merge(class_pos, value_pos) {
            Ok(pos) => pos,
            Err(e) => {
                return Err(e);
            },
        };
        let class = match self.get_name(
            self.state.namespace_builder.current_namespace(),
            class_name,
        ) {
            Ok(class) => class,
            Err(e) => {
                return Err(e);
            },
        };
        let class_id = self.class_id(class);
        let value_id = match self.get_name("", value) {
            Ok(value_id) => value_id,
            Err(e) => {
                return Err(e);
            },
        };
        Ok(self.expr_node(pos, Expr_::ClassConst(class_id, (value_id.0, value_id.1))))
    }

    /// The name of the attribute that `name` names.
    fn attribute_name(&self, name: Node_<'a>) -> (r: Result<Id<'a>, ParseError>)
        ensures
            crate::names::id_result_view(r) == self@.attribute_name(name@),
    {
        proof {
            reveal_strlit("");
            assert(""@ =~= Seq::<char>::empty());
        }
        let unqualified = match self.get_name("", name) {
            Ok(unqualified) => unqualified,
            Err(e) => {
                return Err(e);
            },
        };
        let text = unqualified.1;
        let reserved = text.unicode_len() >= 2 && text.get_char(0) == '_' && text.get_char(1)
            == '_';
        if reserved {
            Ok(unqualified)
        } else {
            self.get_name(self.state.namespace_builder.current_namespace(), name)
        }
    }

    pub fn make_constructor_call(
        &mut self,
        name: Node<'a>,
        _arg1: Node<'a>,
        args: Node<'a>,
        _arg3: Node<'a>,
    ) -> (r: Node<'a>)
        ensures
            final(self)@ == old(self)@,
            result_view(r) == old(self)@.make_constructor_call(result_view(name), result_view(args)),
    {
        if any_yield2(&name, &args) {
            return Ok(Node_::Token(TokenKind::Yield).with_view());
        }
        self.plain_constructor_call(name, _arg1, args, _arg3)
    }

    fn plain_constructor_call(
        &mut self,
        name: Node<'a>,
        _arg1: Node<'a>,
        args: Node<'a>,
        _arg3: Node<'a>,
    ) -> (r: Node<'a>)
        ensures
            final(self)@ == old(self)@,
            result_view(r) == old(self)@.plain_constructor_call(result_view(name), result_view(args)),
    {
        let name = match name {
            Ok(name) => name,
            Err(e) => {
                return Err(e);
            },
        };
        let name = match self.attribute_name(name) {
            Ok(name) => name,
            Err(e) => {
                return Err(e);
            },
        };
        let params = match self.exprs_of_node(args) {
            Ok(params) => params,
            Err(e) => {
                return Err(e);
            },
        };
        Ok(Node_::Attribute(UserAttribute { name, params }).with_view())
    }
}

} // verus!
