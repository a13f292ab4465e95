//! The combinators that only give their children another shape.

use crate::ast_defs::{ConstraintKind, Id, IdView};
use crate::error::ParseError;
use crate::lists::{make_pair, yield_marker, NodeResult};
use crate::names::get_name;
use crate::node::{
    nodes_view, result_view, FunParamDecl, FunParamDeclView, FunctionHeader, FunctionHeaderView,
    NamespaceUseClause, NamespaceUseClauseView, Node, NodeView, Node_, RequireClause,
};
use crate::state::DirectDeclSmartConstructors;
use crate::token_kind::TokenKind;
use crate::typing_defs::ParamMode;
use vstd::prelude::*;

verus! {

/// The initializer of a declaration: the expression, or else the `=`, so that
/// a parent can tell that there is an initializer of some kind.
pub open spec fn make_simple_initializer(equals: NodeResult, expr: NodeResult) -> NodeResult {
    match expr {
        Err(e) => Err(e),
        Ok(NodeView::Ignored) => equals,
        Ok(expr) => Ok(expr),
    }
}

/// A name with its initializer, as a list of the two; nothing without a
/// name.
pub open spec fn make_constant_declarator(name: NodeResult, initializer: NodeResult)
    -> NodeResult {
    match name {
        Err(e) => Err(e),
        Ok(name) => match initializer {
            Err(e) => Err(e),
            Ok(initializer) => Ok(
                if name.is_ignored() {
                    NodeView::Ignored
                } else {
                    NodeView::List(seq![name, initializer])
                },
            ),
        },
    }
}

pub open spec fn make_trait_use(used: NodeResult) -> NodeResult {
    match used {
        Err(e) => Err(e),
        Ok(used) => Ok(NodeView::TraitUse(Box::new(used))),
    }
}

pub open spec fn make_require_clause(require_type: NodeResult, name: NodeResult) -> NodeResult {
    match require_type {
        Err(e) => Err(e),
        Ok(require_type) => match name {
            Err(e) => Err(e),
            Ok(name) => Ok(
                NodeView::RequireClause {
                    require_type: Box::new(require_type),
                    name: Box::new(name),
                },
            ),
        },
    }
}

pub open spec fn make_classish_body(body: NodeResult) -> NodeResult {
    match body {
        Err(e) => Err(e),
        Ok(body) => Ok(NodeView::ClassishBody(body.items())),
    }
}

/// A constraint `as T` or `super T`.
pub open spec fn make_type_constraint(kind: NodeResult, value: NodeResult) -> NodeResult {
    match kind {
        Err(e) => Err(e),
        Ok(kind) => {
            if kind.is_token(TokenKind::As) || kind.is_token(TokenKind::Super) {
                match value {
                    Err(e) => Err(e),
                    Ok(value) => Ok(
                        NodeView::TypeConstraint(
                            if kind.is_token(TokenKind::As) {
                                ConstraintKind::ConstraintAs
                            } else {
                                ConstraintKind::ConstraintSuper
                            },
                            Box::new(value),
                        ),
                    ),
                }
            } else {
                Err(ParseError::ExpectedAsOrSuper)
            }
        },
    }
}

/// The header of a function; nothing where the function has no name.
pub open spec fn make_function_declaration_header(
    modifiers: NodeResult,
    name: NodeResult,
    type_params: NodeResult,
    param_list: NodeResult,
    ret_hint: NodeResult,
) -> NodeResult {
    match name {
        Err(e) => Err(e),
        Ok(NodeView::Ignored) => Ok(NodeView::Ignored),
        Ok(name) => match modifiers {
            Err(e) => Err(e),
            Ok(modifiers) => match type_params {
                Err(e) => Err(e),
                Ok(type_params) => match param_list {
                    Err(e) => Err(e),
                    Ok(param_list) => match ret_hint {
                        Err(e) => Err(e),
                        Ok(ret_hint) => Ok(
                            NodeView::FunctionHeader(
                                Box::new(
                                    FunctionHeaderView {
                                        name,
                                        modifiers,
                                        type_params,
                                        param_list,
                                        ret_hint,
                                    },
                                ),
                            ),
                        ),
                    },
                },
            },
        },
    }
}

/// A qualified name: the parts, with the position that they span.
pub open spec fn make_qualified_name(arg0: NodeResult) -> NodeResult {
    match arg0 {
        Err(e) => Err(e),
        Ok(NodeView::Ignored) => Ok(NodeView::Ignored),
        Ok(node) => match node.get_pos() {
            Err(e) => Err(e),
            Ok(pos) => Ok(
                NodeView::QualifiedName(
                    match node {
                        NodeView::List(nodes) => nodes,
                        _ => seq![node],
                    },
                    pos,
                ),
            ),
        },
    }
}

/// A list between two brackets, with the positions of the brackets.
pub open spec fn make_type_arguments(
    less_than: NodeResult,
    arguments: NodeResult,
    greater_than: NodeResult,
) -> NodeResult {
    match less_than {
        Err(e) => Err(e),
        Ok(less_than) => match less_than.get_pos() {
            Err(e) => Err(e),
            Ok(first) => match arguments {
                Err(e) => Err(e),
                Ok(arguments) => match greater_than {
                    Err(e) => Err(e),
                    Ok(greater_than) => match greater_than.get_pos() {
                        Err(e) => Err(e),
                        Ok(second) => Ok(
                            NodeView::BracketedList(first, arguments.items(), second),
                        ),
                    },
                },
            },
        },
    }
}

/// The attributes between `<<` and `>>`.
pub open spec fn make_old_attribute_specification(
    ltlt: NodeResult,
    attrs: NodeResult,
    gtgt: NodeResult,
) -> NodeResult {
    match attrs {
        Err(e) => Err(e),
        Ok(NodeView::List(nodes)) => match ltlt {
            Err(e) => Err(e),
            Ok(ltlt) => match ltlt.get_pos() {
                Err(e) => Err(e),
                Ok(first) => match gtgt {
                    Err(e) => Err(e),
                    Ok(gtgt) => match gtgt.get_pos() {
                        Err(e) => Err(e),
                        Ok(second) => Ok(NodeView::BracketedList(first, nodes, second)),
                    },
                },
            },
        },
        Ok(_) => Err(ParseError::ExpectedList),
    }
}

/// One import of a `use` declaration.
pub open spec fn make_namespace_use_clause(
    name: NodeResult,
    as_: NodeResult,
    aliased_name: NodeResult,
) -> NodeResult {
    match name {
        Err(e) => Err(e),
        Ok(name) => match get_name(Seq::empty(), name) {
            Err(e) => Err(e),
            Ok(id) => match as_ {
                Err(e) => Err(e),
                Ok(as_) => if as_.is_token(TokenKind::As) {
                    match aliased_name {
                        Err(e) => Err(e),
                        Ok(aliased_name) => match get_name(Seq::empty(), aliased_name) {
                            Err(e) => Err(e),
                            Ok(alias) => Ok(
                                NodeView::NamespaceUseClause(
                                    NamespaceUseClauseView { id, as_: Some(alias.1) },
                                ),
                            ),
                        },
                    }
                } else {
                    Ok(NodeView::NamespaceUseClause(NamespaceUseClauseView { id, as_: None }))
                },
            },
        },
    }
}

/// The name of a parameter and whether `...` stands before it.
pub open spec fn parameter_name(name: NodeView) -> Result<(bool, IdView), ParseError> {
    match name {
        NodeView::ListItem(decorator, inner) => match get_name(Seq::empty(), *inner) {
            Err(e) => Err(e),
            Ok(id) => Ok((decorator.is_token(TokenKind::DotDotDot), id)),
        },
        _ => match get_name(Seq::empty(), name) {
            Err(e) => Err(e),
            Ok(id) => Ok((false, id)),
        },
    }
}

/// A parameter of a function, before its type is interpreted.
pub open spec fn make_parameter_declaration(
    attributes: NodeResult,
    visibility: NodeResult,
    inout: NodeResult,
    hint: NodeResult,
    name: NodeResult,
    initializer: NodeResult,
) -> NodeResult {
    match name {
        Err(e) => Err(e),
        Ok(name) => match parameter_name(name) {
            Err(e) => Err(e),
            Ok((variadic, id)) => match attributes {
                Err(e) => Err(e),
                Ok(attributes) => match visibility {
                    Err(e) => Err(e),
                    Ok(visibility) => match initializer {
                        Err(e) => Err(e),
                        Ok(initializer) => match inout {
                            Err(e) => Err(e),
                            Ok(inout) => match hint {
                                Err(e) => Err(e),
                                Ok(hint) => Ok(
                                    NodeView::FunParam(
                                        Box::new(
                                            FunParamDeclView {
                                                attributes,
                                                visibility,
                                                kind: if inout.is_token(TokenKind::Inout) {
                                                    ParamMode::FPinout
                                                } else {
                                                    ParamMode::FPnormal
                                                },
                                                hint,
                                                id,
                                                variadic,
                                                initializer,
                                            },
                                        ),
                                    ),
                                ),
                            },
                        },
                    },
                },
            },
        },
    }
}

impl<'a> DirectDeclSmartConstructors<'a> {
    pub fn make_simple_type_specifier(&mut self, arg0: Node<'a>) -> (r: Node<'a>)
        ensures
            final(self)@ == old(self)@,
            r == arg0,
    {
        arg0
    }

    pub fn make_literal_expression(&mut self, arg0: Node<'a>) -> (r: Node<'a>)
        ensures
            final(self)@ == old(self)@,
            r == arg0,
    {
        arg0
    }

    pub fn make_closure_parameter_type_specifier(&mut self, _arg0: Node<'a>, name: Node<'a>) -> (r:
        Node<'a>)
        ensures
            final(self)@ == old(self)@,
            r == name,
    {
        name
    }

    pub fn make_simple_initializer(&mut self, equals: Node<'a>, expr: Node<'a>) -> (r: Node<'a>)
        ensures
            final(self)@ == old(self)@,
            result_view(r) == make_simple_initializer(result_view(equals), result_view(expr)),
    {
        match expr {
            Err(e) => Err(e),
            Ok(expr) => if expr.is_ignored() {
                equals
            } else {
                Ok(expr)
            },
        }
    }

    pub fn make_element_initializer(&mut self, key: Node<'a>, _arg1: Node<'a>, value: Node<'a>)
        -> (r: Node<'a>)
        ensures
            final(self)@ == old(self)@,
            result_view(r) == make_pair(result_view(key), result_view(value)),
    {
        self.make_pair(key, value)
    }

    pub fn make_property_declarator(&mut self, name: Node<'a>, initializer: Node<'a>) -> (r: Node<
        'a,
    >)
        ensures
            final(self)@ == old(self)@,
            result_view(r) == make_pair(result_view(name), result_view(initializer)),
    {
        self.make_pair(name, initializer)
    }

    pub fn make_enumerator(
        &mut self,
        name: Node<'a>,
        _arg1: Node<'a>,
        value: Node<'a>,
        _arg3: Node<'a>,
    ) -> (r: Node<'a>)
        ensures
            final(self)@ == old(self)@,
            result_view(r) == make_pair(result_view(name), result_view(value)),
    {
        self.make_pair(name, value)
    }

    pub fn make_field_initializer(&mut self, key: Node<'a>, _arg1: Node<'a>, value: Node<'a>) -> (r:
        Node<'a>)
        ensures
            final(self)@ == old(self)@,
            result_view(r) == make_pair(result_view(key), result_view(value)),
    {
        self.make_pair(key, value)
    }

    pub fn make_decorated_expression(&mut self, decorator: Node<'a>, expr: Node<'a>) -> (r: Node<
        'a,
    >)
        ensures
            final(self)@ == old(self)@,
            result_view(r) == make_pair(result_view(decorator), result_view(expr)),
    {
        self.make_pair(decorator, expr)
    }

    /// A `yield` leaves its marker.
    pub fn make_yield_expression(&mut self, _arg0: Node<'a>, _arg1: Node<'a>) -> (r: Node<'a>)
        ensures
            final(self)@ == old(self)@,
            result_view(r) == Ok::<NodeView, ParseError>(yield_marker()),
    {
        Ok(Node_::Token(TokenKind::Yield).with_view())
    }

    /// A `yield from` leaves the marker of a `yield`.
    pub fn make_yield_from_expression(
        &mut self,
        _arg0: Node<'a>,
        _arg1: Node<'a>,
        _arg2: Node<'a>,
    ) -> (r: Node<'a>)
        ensures
            final(self)@ == old(self)@,
            result_view(r) == Ok::<NodeView, ParseError>(yield_marker()),
    {
        Ok(Node_::Token(TokenKind::Yield).with_view())
    }

    pub fn make_constant_declarator(&mut self, name: Node<'a>, initializer: Node<'a>) -> (r: Node<
        'a,
    >)
        ensures
            final(self)@ == old(self)@,
            result_view(r) == make_constant_declarator(result_view(name), result_view(initializer)),
    {
        let name = match name {
            Ok(name) => name,
            Err(e) => {
                return Err(e);
            },
        };
        let initializer = match initializer {
            Ok(initializer) => initializer,
            Err(e) => {
                return Err(e);
            },
        };
        if name.is_ignored() {
            Ok(Node_::Ignored.with_view())
        } else {
            let mut items: Vec<Node_<'a>> = Vec::new();
            items.push(name);
            items.push(initializer);
            let items = self.allocate(items);
            assert(nodes_view(items) =~= seq![name@, initializer@]);
            Ok(Node_::List(items).with_view())
        }
    }

    pub fn make_trait_use(&mut self, _arg0: Node<'a>, used: Node<'a>, _arg2: Node<'a>) -> (r: Node<
        'a,
    >)
        ensures
            final(self)@ == old(self)@,
            result_view(r) == make_trait_use(result_view(used)),
    {
        match used {
            Err(e) => Err(e),
            Ok(used) => Ok(Node_::TraitUse(self.allocate(used)).with_view()),
        }
    }

    pub fn make_require_clause(
        &mut self,
        _arg0: Node<'a>,
        require_type: Node<'a>,
        name: Node<'a>,
        _arg3: Node<'a>,
    ) -> (r: Node<'a>)
        ensures
            final(self)@ == old(self)@,
            result_view(r) == make_require_clause(result_view(require_type), result_view(name)),
    {
        let require_type = match require_type {
            Ok(require_type) => require_type,
            Err(e) => {
                return Err(e);
            },
        };
        let name = match name {
            Ok(name) => name,
            Err(e) => {
                return Err(e);
            },
        };
        Ok(Node_::RequireClause(self.allocate(RequireClause { require_type, name })).with_view())
    }

    pub fn make_classish_body(&mut self, _arg0: Node<'a>, body: Node<'a>, _arg2: Node<'a>) -> (r:
        Node<'a>)
        ensures
            final(self)@ == old(self)@,
            result_view(r) == make_classish_body(result_view(body)),
    {
        match body {
            Err(e) => Err(e),
            Ok(body) => Ok(Node_::ClassishBody(body.as_slice(self.state.arena)).with_view()),
        }
    }

    pub fn make_type_constraint(&mut self, kind: Node<'a>, value: Node<'a>) -> (r: Node<'a>)
        ensures
            final(self)@ == old(self)@,
            result_view(r) == make_type_constraint(result_view(kind), result_view(value)),
    {
        let kind = match kind {
            Ok(kind) => kind,
            Err(e) => {
                return Err(e);
            },
        };
        let kind = if kind.is_token(TokenKind::As) {
            ConstraintKind::ConstraintAs
        } else if kind.is_token(TokenKind::Super) {
            ConstraintKind::ConstraintSuper
        } else {
            return Err(ParseError::ExpectedAsOrSuper);
        };
        match value {
            Err(e) => Err(e),
            Ok(value) => Ok(Node_::TypeConstraint(self.allocate((kind, value))).with_view()),
        }
    }

    pub fn make_function_declaration_header(
        &mut self,
        modifiers: Node<'a>,
        _keyword: Node<'a>,
        name: Node<'a>,
        type_params: Node<'a>,
        _left_parens: Node<'a>,
        param_list: Node<'a>,
        _right_parens: Node<'a>,
        _colon: Node<'a>,
        ret_hint: Node<'a>,
        _where: Node<'a>,
    ) -> (r: Node<'a>)
        ensures
            final(self)@ == old(self)@,
            result_view(r) == make_function_declaration_header(
                result_view(modifiers),
                result_view(name),
                result_view(type_params),
                result_view(param_list),
                result_view(ret_hint),
            ),
    {
        let name = match name {
            Ok(name) => name,
            Err(e) => {
                return Err(e);
            },
        };
        if name.is_ignored() {
            return Ok(Node_::Ignored.with_view());
        }
        let modifiers = match modifiers {
            Ok(modifiers) => modifiers,
            Err(e) => {
                return Err(e);
            },
        };
        let type_params = match type_params {
            Ok(type_params) => type_params,
            Err(e) => {
                return Err(e);
            },
        };
        let param_list = match param_list {
            Ok(param_list) => param_list,
            Err(e) => {
                return Err(e);
            },
        };
        let ret_hint = match ret_hint {
            Ok(ret_hint) => ret_hint,
            Err(e) => {
                return Err(e);
            },
        };
        Ok(
            Node_::FunctionHeader(
                self.allocate(FunctionHeader { name, modifiers, type_params, param_list, ret_hint }),
            ).with_view(),
        )
    }

    pub fn make_qualified_name(&mut self, arg0: Node<'a>) -> (r: Node<'a>)
        ensures
            final(self)@ == old(self)@,
            result_view(r) == make_qualified_name(result_view(arg0)),
    {
        let arg0 = match arg0 {
            Ok(arg0) => arg0,
            Err(e) => {
                return Err(e);
            },
        };
        if arg0.is_ignored() {
            return Ok(Node_::Ignored.with_view());
        }
        let pos = match arg0.get_pos() {
            Ok(pos) => pos,
            Err(e) => {
                return Err(e);
            },
        };
        match arg0.as_list() {
            Some(nodes) => Ok(Node_::QualifiedName(nodes, pos).with_view()),
            None => {
                let mut parts: Vec<Node_<'a>> = Vec::new();
                parts.push(arg0);
                let parts = self.allocate(parts);
                assert(nodes_view(parts) =~= seq![arg0@]);
                Ok(Node_::QualifiedName(parts, pos).with_view())
            },
        }
    }

    pub fn make_type_arguments(
        &mut self,
        less_than: Node<'a>,
        arguments: Node<'a>,
        greater_than: Node<'a>,
    ) -> (r: Node<'a>)
        ensures
            final(self)@ == old(self)@,
            result_view(r) == make_type_arguments(
                result_view(less_than),
                result_view(arguments),
                result_view(greater_than),
            ),
    {
        let less_than = match less_than {
            Ok(less_than) => less_than,
            Err(e) => {
                return Err(e);
            },
        };
        let first = match less_than.get_pos() {
            Ok(pos) => pos,
            Err(e) => {
                return Err(e);
            },
        };
        let arguments = match arguments {
            Ok(arguments) => arguments,
            Err(e) => {
                return Err(e);
            },
        };
        let greater_than = match greater_than {
            Ok(greater_than) => greater_than,
            Err(e) => {
                return Err(e);
            },
        };
        let second = match greater_than.get_pos() {
            Ok(pos) => pos,
            Err(e) => {
                return Err(e);
            },
        };
        Ok(Node_::BracketedList(first, arguments.as_slice(self.state.arena), second).with_view())
    }

    pub fn make_old_attribute_specification(
        &mut self,
        ltlt: Node<'a>,
        attrs: Node<'a>,
        gtgt: Node<'a>,
    ) -> (r: Node<'a>)
        ensures
            final(self)@ == old(self)@,
            result_view(r) == make_old_attribute_specification(
                result_view(ltlt),
                result_view(attrs),
                result_view(gtgt),
            ),
    {
        let attrs = match attrs {
            Ok(attrs) => attrs,
            Err(e) => {
                return Err(e);
            },
        };
        let nodes = match attrs.as_list() {
            Some(nodes) => nodes,
            None => {
                return Err(ParseError::ExpectedList);
            },
        };
        let ltlt = match ltlt {
            Ok(ltlt) => ltlt,
            Err(e) => {
                return Err(e);
            },
        };
        let first = match ltlt.get_pos() {
            Ok(pos) => pos,
            Err(e) => {
                return Err(e);
            },
        };
        let gtgt = match gtgt {
            Ok(gtgt) => gtgt,
            Err(e) => {
                return Err(e);
            },
        };
        let second = match gtgt.get_pos() {
            Ok(pos) => pos,
            Err(e) => {
                return Err(e);
            },
        };
        Ok(Node_::BracketedList(first, nodes, second).with_view())
    }

    pub fn make_namespace_use_clause(
        &mut self,
        _arg0: Node<'a>,
        name: Node<'a>,
        as_: Node<'a>,
        aliased_name: Node<'a>,
    ) -> (r: Node<'a>)
        ensures
            final(self)@ == old(self)@,
            result_view(r) == make_namespace_use_clause(
                result_view(name),
                result_view(as_),
                result_view(aliased_name),
            ),
    {
        proof {
            reveal_strlit("");
            assert(""@ =~= Seq::<char>::empty());
        }
        let name = match name {
            Ok(name) => name,
            Err(e) => {
                return Err(e);
            },
        };
        let id = match self.get_name("", name) {
            Ok(id) => id,
            Err(e) => {
                return Err(e);
            },
        };
        let as_ = match as_ {
            Ok(as_) => as_,
            Err(e) => {
                return Err(e);
            },
        };
        let as_ = if as_.is_token(TokenKind::As) {
            let aliased_name = match aliased_name {
                Ok(aliased_name) => aliased_name,
                Err(e) => {
                    return Err(e);
                },
            };
            match self.get_name("", aliased_name) {
                Ok(alias) => Some(alias.1),
                Err(e) => {
                    return Err(e);
                },
            }
        } else {
            None
        };
        Ok(Node_::NamespaceUseClause(NamespaceUseClause { id, as_ }).with_view())
    }

    /// The name of a parameter and whether `...` stands before it.
    fn parameter_name(&self, name: Node_<'a>) -> (r: Result<(bool, Id<'a>), ParseError>)
        ensures
            match r {
                Ok((variadic, id)) => parameter_name(name@) == Ok::<(bool, IdView), ParseError>(
                    (variadic, id@),
                ),
                Err(e) => parameter_name(name@) == Err::<(bool, IdView), ParseError>(e),
            },
    {
        proof {
            reveal_strlit("");
            assert(""@ =~= Seq::<char>::empty());
        }
        match name.as_list_item() {
            Some((decorator, inner)) => {
                match self.get_name("", inner) {
                    Ok(id) => Ok((decorator.is_token(TokenKind::DotDotDot), id)),
                    Err(e) => Err(e),
                }
            },
            None => {
                match self.get_name("", name) {
                    Ok(id) => Ok((false, id)),
                    Err(e) => Err(e),
                }
            },
        }
    }

    pub fn make_parameter_declaration(
        &mut self,
        attributes: Node<'a>,
        visibility: Node<'a>,
        inout: Node<'a>,
        hint: Node<'a>,
        name: Node<'a>,
        initializer: Node<'a>,
    ) -> (r: Node<'a>)
        ensures
            final(self)@ == old(self)@,
            result_view(r) == make_parameter_declaration(
                result_view(attributes),
                result_view(visibility),
                result_view(inout),
                result_view(hint),
                result_view(name),
                result_view(initializer),
            ),
    {
        let name = match name {
            Ok(name) => name,
            Err(e) => {
                return Err(e);
            },
        };
        let (variadic, id) = match self.parameter_name(name) {
            Ok(r) => r,
            Err(e) => {
                return Err(e);
            },
        };
        let attributes = match attributes {
            Ok(attributes) => attributes,
            Err(e) => {
                return Err(e);
            },
        };
        let visibility = match visibility {
            Ok(visibility) => visibility,
            Err(e) => {
                return Err(e);
            },
        };
        let initializer = match initializer {
            Ok(initializer) => initializer,
            Err(e) => {
                return Err(e);
            },
        };
        let inout = match inout {
            Ok(inout) => inout,
            Err(e) => {
                return Err(e);
            },
        };
        let kind = if inout.is_token(TokenKind::Inout) {
            ParamMode::FPinout
        } else {
            ParamMode::FPnormal
        };
        let hint = match hint {
            Ok(hint) => hint,
            Err(e) => {
                return Err(e);
            },
        };
        Ok(
            Node_::FunParam(
                self.allocate(
                    FunParamDecl { attributes, visibility, kind, hint, id, variadic, initializer },
                ),
            ).with_view(),
        )
    }
}

} // verus!
