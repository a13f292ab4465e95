//! The carrier of the reduction: what a production is reduced to before its
//! parent consumes it.

use crate::aast::{Expr, ExprView, UserAttribute, UserAttributeView, Visibility};
use crate::arena::arena_alloc;
use crate::ast_defs::{
    ids_view, ConstraintKind, Id, IdView, ShapeFieldName, ShapeFieldNameView, Variance,
};
use crate::aast::ReifyKind;
use crate::error::ParseError;
use crate::pos::{pos_result_view, Pos, PosView};
use crate::shallow_decl_defs::{
    opt_pos_view, props_view, ShallowClassConst, ShallowClassConstView, ShallowMethod, ShallowMethodView,
    ShallowProp, ShallowPropView, ShallowTypeconst, ShallowTypeconstView,
};
use crate::token_kind::TokenKind;
use crate::typing_defs::{
    opt_str_view, tparams_view, ParamMode, ShapeFieldType, ShapeFieldTypeView, Tparam,
    TparamView, Ty, TyView,
};
use bumpalo::Bump;
use vstd::prelude::*;

verus! {

/// A parameter of a function, before its type is interpreted.
#[derive(Clone, Copy, Debug, PartialEq, Eq)]
pub struct FunParamDecl<'a> {
    pub attributes: Node_<'a>,
    pub visibility: Node_<'a>,
    pub kind: ParamMode,
    pub hint: Node_<'a>,
    pub id: Id<'a>,
    pub variadic: bool,
    pub initializer: Node_<'a>,
}

/// The header of a function or a method, before it is interpreted.
#[derive(Clone, Copy, Debug, PartialEq, Eq)]
pub struct FunctionHeader<'a> {
    pub name: Node_<'a>,
    pub modifiers: Node_<'a>,
    pub type_params: Node_<'a>,
    pub param_list: Node_<'a>,
    pub ret_hint: Node_<'a>,
}

#[derive(Clone, Copy, Debug, PartialEq, Eq)]
pub struct RequireClause<'a> {
    pub require_type: Node_<'a>,
    pub name: Node_<'a>,
}

#[derive(Clone, Copy, Debug, PartialEq, Eq)]
pub struct TypeParameterDecl<'a> {
    pub name: Node_<'a>,
    pub reified: ReifyKind,
    pub variance: Variance,
    pub constraints: &'a Vec<(ConstraintKind, Node_<'a>)>,
}

/// One import of a `use` declaration: the name, and the alias if one is
/// given.
#[derive(Clone, Copy, Debug, PartialEq, Eq)]
pub struct NamespaceUseClause<'a> {
    pub id: Id<'a>,
    pub as_: Option<&'a str>,
}

#[derive(Clone, Copy, Debug, PartialEq, Eq)]
pub enum Node_<'a> {
    List(&'a Vec<Node_<'a>>),
    BracketedList(Pos<'a>, &'a Vec<Node_<'a>>, Pos<'a>),
    /// A subtree that the pass has no use for.
    Ignored,
    Name(&'a str, Pos<'a>),
    XhpName(&'a str, Pos<'a>),
    QualifiedName(&'a Vec<Node_<'a>>, Pos<'a>),
    Array(Pos<'a>),
    Darray(Pos<'a>),
    Varray(Pos<'a>),
    StringLiteral(&'a str, Pos<'a>),
    IntLiteral(&'a str, Pos<'a>),
    FloatingLiteral(&'a str, Pos<'a>),
    BooleanLiteral(&'a str, Pos<'a>),
    Null(Pos<'a>),
    Ty(Ty<'a>),
    /// A chain `Root::A::B`: the position of the whole chain, the root type,
    /// and the names in the order in which they follow the root.
    TypeconstAccess(Pos<'a>, Ty<'a>, &'a Vec<Id<'a>>),
    Backslash(Pos<'a>),
    ListItem(&'a (Node_<'a>, Node_<'a>)),
    Const(&'a ShallowClassConst<'a>),
    FunParam(&'a FunParamDecl<'a>),
    Attribute(UserAttribute<'a>),
    FunctionHeader(&'a FunctionHeader<'a>),
    Constructor { method: &'a ShallowMethod<'a>, properties: &'a Vec<ShallowProp<'a>> },
    Method { method: &'a ShallowMethod<'a>, is_static: bool },
    Property { decls: &'a Vec<ShallowProp<'a>>, is_static: bool },
    TraitUse(&'a Node_<'a>),
    TypeConstant(&'a ShallowTypeconst<'a>),
    RequireClause(&'a RequireClause<'a>),
    ClassishBody(&'a Vec<Node_<'a>>),
    TypeParameter(&'a TypeParameterDecl<'a>),
    TypeConstraint(&'a (ConstraintKind, Node_<'a>)),
    ShapeFieldSpecifier { name: ShapeFieldName<'a>, type_: ShapeFieldType<'a> },
    NamespaceUseClause(NamespaceUseClause<'a>),
    Expr(&'a Expr<'a>),
    Operator(Pos<'a>, TokenKind),
    Construct(Pos<'a>),
    This(Pos<'a>),
    TypeParameters(&'a Vec<Tparam<'a>>),
    /// A token of which only the position matters to an enclosing node.
    Pos(Pos<'a>),
    /// A keyword or a punctuation mark, for a parent to match on.
    Token(TokenKind),
}

/// What a combinator returns: a node, or the failure of the pass.
pub type Node<'a> = Result<Node_<'a>, ParseError>;

pub struct FunParamDeclView {
    pub attributes: NodeView,
    pub visibility: NodeView,
    pub kind: ParamMode,
    pub hint: NodeView,
    pub id: IdView,
    pub variadic: bool,
    pub initializer: NodeView,
}

pub struct FunctionHeaderView {
    pub name: NodeView,
    pub modifiers: NodeView,
    pub type_params: NodeView,
    pub param_list: NodeView,
    pub ret_hint: NodeView,
}

pub struct TypeParameterDeclView {
    pub name: NodeView,
    pub reified: ReifyKind,
    pub variance: Variance,
    pub constraints: Seq<(ConstraintKind, NodeView)>,
}

pub struct NamespaceUseClauseView {
    pub id: IdView,
    pub as_: Option<Seq<char>>,
}

#[allow(inconsistent_fields)]
pub enum NodeView {
    List(Seq<NodeView>),
    BracketedList(PosView, Seq<NodeView>, PosView),
    Ignored,
    Name(Seq<char>, PosView),
    XhpName(Seq<char>, PosView),
    QualifiedName(Seq<NodeView>, PosView),
    Array(PosView),
    Darray(PosView),
    Varray(PosView),
    StringLiteral(Seq<char>, PosView),
    IntLiteral(Seq<char>, PosView),
    FloatingLiteral(Seq<char>, PosView),
    BooleanLiteral(Seq<char>, PosView),
    Null(PosView),
    Ty(TyView),
    TypeconstAccess(PosView, TyView, Seq<IdView>),
    Backslash(PosView),
    ListItem(Box<NodeView>, Box<NodeView>),
    Const(ShallowClassConstView),
    FunParam(Box<FunParamDeclView>),
    Attribute(UserAttributeView),
    FunctionHeader(Box<FunctionHeaderView>),
    Constructor { method: ShallowMethodView, properties: Seq<ShallowPropView> },
    Method { method: ShallowMethodView, is_static: bool },
    Property { decls: Seq<ShallowPropView>, is_static: bool },
    TraitUse(Box<NodeView>),
    TypeConstant(ShallowTypeconstView),
    RequireClause { require_type: Box<NodeView>, name: Box<NodeView> },
    ClassishBody(Seq<NodeView>),
    TypeParameter(Box<TypeParameterDeclView>),
    TypeConstraint(ConstraintKind, Box<NodeView>),
    ShapeFieldSpecifier { name: ShapeFieldNameView, type_: ShapeFieldTypeView },
    NamespaceUseClause(NamespaceUseClauseView),
    Expr(ExprView),
    Operator(PosView, TokenKind),
    Construct(PosView),
    This(PosView),
    TypeParameters(Seq<TparamView>),
    Pos(PosView),
    Token(TokenKind),
}

/// The views of the nodes of a list.
pub open spec fn nodes_view(nodes: &Vec<Node_>) -> Seq<NodeView> {
    Seq::new(nodes.len() as nat, |i: int| nodes[i]@)
}

/// The views of the constraints of a type parameter.
pub open spec fn node_constraints_view(constraints: &Vec<(ConstraintKind, Node_)>) -> Seq<
    (ConstraintKind, NodeView),
> {
    Seq::new(constraints.len() as nat, |i: int| (constraints[i].0, constraints[i].1@))
}

#[verifier::opaque]
pub open spec fn nodes_view_rec(nodes: &Vec<Node_>) -> Seq<NodeView>
    decreases nodes,
{
    Seq::new(
        nodes.len() as nat,
        |i: int|
            if 0 <= i < nodes.len() {
                node_view(nodes[i])
            } else {
                arbitrary()
            },
    )
}

#[verifier::opaque]
pub open spec fn node_constraints_view_rec(constraints: &Vec<(ConstraintKind, Node_)>) -> Seq<
    (ConstraintKind, NodeView),
>
    decreases constraints,
{
    Seq::new(
        constraints.len() as nat,
        |i: int|
            if 0 <= i < constraints.len() {
                (constraints[i].0, node_view(constraints[i].1))
            } else {
                arbitrary()
            },
    )
}

/// The view of a node. What it is for a given node is learnt from
/// `lemma_node_view`.
#[verifier::opaque]
pub open spec fn node_view(n: Node_) -> NodeView
    decreases n,
{
    match n {
        Node_::List(items) => NodeView::List(nodes_view_rec(items)),
        Node_::BracketedList(first, items, second) => NodeView::BracketedList(
            first@,
            nodes_view_rec(items),
            second@,
        ),
        Node_::Ignored => NodeView::Ignored,
        Node_::Name(s, p) => NodeView::Name(s@, p@),
        Node_::XhpName(s, p) => NodeView::XhpName(s@, p@),
        Node_::QualifiedName(parts, p) => NodeView::QualifiedName(nodes_view_rec(parts), p@),
        Node_::Array(p) => NodeView::Array(p@),
        Node_::Darray(p) => NodeView::Darray(p@),
        Node_::Varray(p) => NodeView::Varray(p@),
        Node_::StringLiteral(s, p) => NodeView::StringLiteral(s@, p@),
        Node_::IntLiteral(s, p) => NodeView::IntLiteral(s@, p@),
        Node_::FloatingLiteral(s, p) => NodeView::FloatingLiteral(s@, p@),
        Node_::BooleanLiteral(s, p) => NodeView::BooleanLiteral(s@, p@),
        Node_::Null(p) => NodeView::Null(p@),
        Node_::Ty(t) => NodeView::Ty(t@),
        Node_::TypeconstAccess(p, t, names) => NodeView::TypeconstAccess(
            p@,
            t@,
            ids_view(names@),
        ),
        Node_::Backslash(p) => NodeView::Backslash(p@),
        Node_::ListItem(pair) => NodeView::ListItem(
            Box::new(node_view(pair.0)),
            Box::new(node_view(pair.1)),
        ),
        Node_::Const(c) => NodeView::Const(c@),
        Node_::FunParam(decl) => NodeView::FunParam(
            Box::new(
                FunParamDeclView {
                    attributes: node_view(decl.attributes),
                    visibility: node_view(decl.visibility),
                    kind: decl.kind,
                    hint: node_view(decl.hint),
                    id: decl.id@,
                    variadic: decl.variadic,
                    initializer: node_view(decl.initializer),
                },
            ),
        ),
        Node_::Attribute(a) => NodeView::Attribute(a@),
        Node_::FunctionHeader(h) => NodeView::FunctionHeader(
            Box::new(
                FunctionHeaderView {
                    name: node_view(h.name),
                    modifiers: node_view(h.modifiers),
                    type_params: node_view(h.type_params),
                    param_list: node_view(h.param_list),
                    ret_hint: node_view(h.ret_hint),
                },
            ),
        ),
        Node_::Constructor { method, properties } => NodeView::Constructor {
            method: method@,
            properties: props_view(properties@),
        },
        Node_::Method { method, is_static } => NodeView::Method { method: method@, is_static },
        Node_::Property { decls, is_static } => NodeView::Property {
            decls: props_view(decls@),
            is_static,
        },
        Node_::TraitUse(used) => NodeView::TraitUse(Box::new(node_view(*used))),
        Node_::TypeConstant(c) => NodeView::TypeConstant(c@),
        Node_::RequireClause(r) => NodeView::RequireClause {
            require_type: Box::new(node_view(r.require_type)),
            name: Box::new(node_view(r.name)),
        },
        Node_::ClassishBody(items) => NodeView::ClassishBody(nodes_view_rec(items)),
        Node_::TypeParameter(decl) => NodeView::TypeParameter(
            Box::new(
                TypeParameterDeclView {
                    name: node_view(decl.name),
                    reified: decl.reified,
                    variance: decl.variance,
                    constraints: node_constraints_view_rec(decl.constraints),
                },
            ),
        ),
        Node_::TypeConstraint(c) => NodeView::TypeConstraint(c.0, Box::new(node_view(c.1))),
        Node_::ShapeFieldSpecifier { name, type_ } => NodeView::ShapeFieldSpecifier {
            name: name@,
            type_: ShapeFieldTypeView { optional: type_.optional, ty: type_.ty@ },
        },
        Node_::NamespaceUseClause(c) => NodeView::NamespaceUseClause(
            NamespaceUseClauseView { id: c.id@, as_: opt_str_view(c.as_) },
        ),
        Node_::Expr(e) => NodeView::Expr(e@),
        Node_::Operator(p, kind) => NodeView::Operator(p@, kind),
        Node_::Construct(p) => NodeView::Construct(p@),
        Node_::This(p) => NodeView::This(p@),
        Node_::TypeParameters(tparams) => NodeView::TypeParameters(tparams_view(tparams)),
        Node_::Pos(p) => NodeView::Pos(p@),
        Node_::Token(kind) => NodeView::Token(kind),
    }
}

/// The view of a node, by the variant of the node: the view is of the same
/// variant, and holds the views of what the node holds.
pub open spec fn node_shape(n: Node_) -> NodeView
{
    match n {
        Node_::List(items) => NodeView::List(nodes_view(items)),
        Node_::BracketedList(first, items, second) => NodeView::BracketedList(
            first@,
            nodes_view(items),
            second@,
        ),
        Node_::Ignored => NodeView::Ignored,
        Node_::Name(s, p) => NodeView::Name(s@, p@),
        Node_::XhpName(s, p) => NodeView::XhpName(s@, p@),
        Node_::QualifiedName(parts, p) => NodeView::QualifiedName(nodes_view(parts), p@),
        Node_::Array(p) => NodeView::Array(p@),
        Node_::Darray(p) => NodeView::Darray(p@),
        Node_::Varray(p) => NodeView::Varray(p@),
        Node_::StringLiteral(s, p) => NodeView::StringLiteral(s@, p@),
        Node_::IntLiteral(s, p) => NodeView::IntLiteral(s@, p@),
        Node_::FloatingLiteral(s, p) => NodeView::FloatingLiteral(s@, p@),
        Node_::BooleanLiteral(s, p) => NodeView::BooleanLiteral(s@, p@),
        Node_::Null(p) => NodeView::Null(p@),
        Node_::Ty(t) => NodeView::Ty(t@),
        Node_::TypeconstAccess(p, t, names) => NodeView::TypeconstAccess(
            p@,
            t@,
            ids_view(names@),
        ),
        Node_::Backslash(p) => NodeView::Backslash(p@),
        Node_::ListItem(pair) => NodeView::ListItem(
            Box::new(node_view(pair.0)),
            Box::new(node_view(pair.1)),
        ),
        Node_::Const(c) => NodeView::Const(c@),
        Node_::FunParam(decl) => NodeView::FunParam(
            Box::new(
                FunParamDeclView {
                    attributes: node_view(decl.attributes),
                    visibility: node_view(decl.visibility),
                    kind: decl.kind,
                    hint: node_view(decl.hint),
                    id: decl.id@,
                    variadic: decl.variadic,
                    initializer: node_view(decl.initializer),
                },
            ),
        ),
        Node_::Attribute(a) => NodeView::Attribute(a@),
        Node_::FunctionHeader(h) => NodeView::FunctionHeader(
            Box::new(
                FunctionHeaderView {
                    name: node_view(h.name),
                    modifiers: node_view(h.modifiers),
                    type_params: node_view(h.type_params),
                    param_list: node_view(h.param_list),
                    ret_hint: node_view(h.ret_hint),
                },
            ),
        ),
        Node_::Constructor { method, properties } => NodeView::Constructor {
            method: method@,
            properties: props_view(properties@),
        },
        Node_::Method { method, is_static } => NodeView::Method { method: method@, is_static },
        Node_::Property { decls, is_static } => NodeView::Property {
            decls: props_view(decls@),
            is_static,
        },
        Node_::TraitUse(used) => NodeView::TraitUse(Box::new(node_view(*used))),
        Node_::TypeConstant(c) => NodeView::TypeConstant(c@),
        Node_::RequireClause(r) => NodeView::RequireClause {
            require_type: Box::new(node_view(r.require_type)),
            name: Box::new(node_view(r.name)),
        },
        Node_::ClassishBody(items) => NodeView::ClassishBody(nodes_view(items)),
        Node_::TypeParameter(decl) => NodeView::TypeParameter(
            Box::new(
                TypeParameterDeclView {
                    name: node_view(decl.name),
                    reified: decl.reified,
                    variance: decl.variance,
                    constraints: node_constraints_view(decl.constraints),
                },
            ),
        ),
        Node_::TypeConstraint(c) => NodeView::TypeConstraint(c.0, Box::new(node_view(c.1))),
        Node_::ShapeFieldSpecifier { name, type_ } => NodeView::ShapeFieldSpecifier {
            name: name@,
            type_: ShapeFieldTypeView { optional: type_.optional, ty: type_.ty@ },
        },
        Node_::NamespaceUseClause(c) => NodeView::NamespaceUseClause(
            NamespaceUseClauseView { id: c.id@, as_: opt_str_view(c.as_) },
        ),
        Node_::Expr(e) => NodeView::Expr(e@),
        Node_::Operator(p, kind) => NodeView::Operator(p@, kind),
        Node_::Construct(p) => NodeView::Construct(p@),
        Node_::This(p) => NodeView::This(p@),
        Node_::TypeParameters(tparams) => NodeView::TypeParameters(tparams_view(tparams)),
        Node_::Pos(p) => NodeView::Pos(p@),
        Node_::Token(kind) => NodeView::Token(kind),
    }
}

/// The view of a node is what `node_shape` says.
pub proof fn lemma_node_view(n: Node_)
    ensures
        n@ == node_shape(n),
{
    reveal(node_view);
    reveal(nodes_view_rec);
    reveal(node_constraints_view_rec);
    match n {
        Node_::List(items) => {
            assert(nodes_view_rec(items) =~= nodes_view(items));
        },
        Node_::BracketedList(_, items, _) => {
            assert(nodes_view_rec(items) =~= nodes_view(items));
        },
        Node_::QualifiedName(parts, _) => {
            assert(nodes_view_rec(parts) =~= nodes_view(parts));
        },
        Node_::ClassishBody(items) => {
            assert(nodes_view_rec(items) =~= nodes_view(items));
        },
        Node_::TypeParameter(decl) => {
            assert(node_constraints_view_rec(decl.constraints) =~= node_constraints_view(
                decl.constraints,
            ));
        },
        _ => {},
    }
}

impl<'a> View for FunParamDecl<'a> {
    type V = FunParamDeclView;

    open spec fn view(&self) -> FunParamDeclView {
        FunParamDeclView {
            attributes: self.attributes@,
            visibility: self.visibility@,
            kind: self.kind,
            hint: self.hint@,
            id: self.id@,
            variadic: self.variadic,
            initializer: self.initializer@,
        }
    }
}

impl<'a> View for FunctionHeader<'a> {
    type V = FunctionHeaderView;

    open spec fn view(&self) -> FunctionHeaderView {
        FunctionHeaderView {
            name: self.name@,
            modifiers: self.modifiers@,
            type_params: self.type_params@,
            param_list: self.param_list@,
            ret_hint: self.ret_hint@,
        }
    }
}

impl<'a> View for TypeParameterDecl<'a> {
    type V = TypeParameterDeclView;

    open spec fn view(&self) -> TypeParameterDeclView {
        TypeParameterDeclView {
            name: self.name@,
            reified: self.reified,
            variance: self.variance,
            constraints: node_constraints_view(self.constraints),
        }
    }
}

impl<'a> View for NamespaceUseClause<'a> {
    type V = NamespaceUseClauseView;

    open spec fn view(&self) -> NamespaceUseClauseView {
        NamespaceUseClauseView { id: self.id@, as_: opt_str_view(self.as_) }
    }
}

impl<'a> View for Node_<'a> {
    type V = NodeView;

    open spec fn view(&self) -> NodeView {
        node_view(*self)
    }
}

/// The view of what a combinator returns.
pub open spec fn result_view(r: Node) -> Result<NodeView, ParseError> {
    match r {
        Ok(n) => Ok(n@),
        Err(e) => Err(e),
    }
}

impl NodeView {
    /// The nodes that a node stands for when it is read as a list: the
    /// elements of a list, nothing for an ignored node, and any other node
    /// itself.
    pub open spec fn items(self) -> Seq<NodeView> {
        match self {
            NodeView::List(items) => items,
            NodeView::BracketedList(_, items, _) => items,
            NodeView::Ignored => Seq::empty(),
            n => seq![n],
        }
    }

    pub open spec fn is_ignored(self) -> bool {
        self is Ignored
    }

    pub open spec fn is_token(self, kind: TokenKind) -> bool {
        self == NodeView::Token(kind)
    }

    pub open spec fn as_visibility(self) -> Result<Visibility, ParseError> {
        match self {
            NodeView::Token(TokenKind::Private) => Ok(Visibility::Private),
            NodeView::Token(TokenKind::Protected) => Ok(Visibility::Protected),
            NodeView::Token(TokenKind::Public) => Ok(Visibility::Public),
            _ => Err(ParseError::ExpectedVisibility),
        }
    }

    /// The position that a node carries itself, if it carries one.
    pub open spec fn own_pos(self) -> Option<PosView> {
        match self {
            NodeView::Name(_, pos) => Some(pos),
            NodeView::Ty(ty) => Some(
                match ty.get_pos() {
                    Some(p) => p,
                    None => PosView::none(),
                },
            ),
            NodeView::TypeconstAccess(pos, _, _) => Some(pos),
            NodeView::XhpName(_, pos) => Some(pos),
            NodeView::QualifiedName(_, pos) => Some(pos),
            NodeView::Pos(pos) => Some(pos),
            NodeView::Backslash(pos) => Some(pos),
            NodeView::Construct(pos) => Some(pos),
            NodeView::This(pos) => Some(pos),
            NodeView::Array(pos) => Some(pos),
            NodeView::Darray(pos) => Some(pos),
            NodeView::Varray(pos) => Some(pos),
            NodeView::IntLiteral(_, pos) => Some(pos),
            NodeView::FloatingLiteral(_, pos) => Some(pos),
            NodeView::Null(pos) => Some(pos),
            NodeView::StringLiteral(_, pos) => Some(pos),
            NodeView::BooleanLiteral(_, pos) => Some(pos),
            NodeView::Operator(pos, _) => Some(pos),
            NodeView::Expr(e) => Some(e.0),
            _ => None,
        }
    }

    /// The position of a node: its own where it carries one; for a pair and
    /// for a list, the span of those of its children that have one.
    pub open spec fn get_pos(self) -> Result<PosView, ParseError>
        decreases self, 0nat,
    {
        match self {
            NodeView::ListItem(fst, snd) => match (fst.get_pos(), snd.get_pos()) {
                (Ok(fst_pos), Ok(snd_pos)) => fst_pos.merge(snd_pos),
                (Ok(pos), Err(_)) => Ok(pos),
                (Err(_), Ok(pos)) => Ok(pos),
                (Err(_), Err(_)) => Err(ParseError::NoPosition),
            },
            NodeView::List(items) => pos_of_first(items, items.len()),
            NodeView::BracketedList(first, inner, second) => match pos_of_first(
                inner,
                inner.len(),
            ) {
                Err(e) => Err(e),
                Ok(inner_pos) => match inner_pos.merge(second) {
                    Err(e) => Err(e),
                    Ok(p) => first.merge(p),
                },
            },
            _ => match self.own_pos() {
                Some(p) => Ok(p),
                None => Err(ParseError::NoPosition),
            },
        }
    }
}

/// Whether one of `items` is the token of kind `kind`.
pub open spec fn contains_token(items: Seq<NodeView>, kind: TokenKind) -> bool {
    exists|i: int| 0 <= i < items.len() && (#[trigger] items[i]).is_token(kind)
}

/// One step of spanning the positions of a list: the span so far, and the
/// position of the next element.
pub open spec fn pos_step(acc: Result<PosView, ParseError>, elem: Result<PosView, ParseError>)
    -> Result<PosView, ParseError> {
    match (acc, elem) {
        (Ok(acc_pos), Ok(elem_pos)) => acc_pos.merge(elem_pos),
        (Err(_), Ok(elem_pos)) => Ok(elem_pos),
        (acc, Err(_)) => acc,
    }
}

/// The span of the positions of the first `n` of `items`.
pub open spec fn pos_of_first(items: Seq<NodeView>, n: nat) -> Result<PosView, ParseError>
    decreases items, n,
{
    if n == 0 || n > items.len() {
        Err(ParseError::NoPosition)
    } else {
        pos_step(pos_of_first(items, (n - 1) as nat), items[n - 1].get_pos())
    }
}

impl<'a> Node_<'a> {
    pub fn is_ignored(&self) -> (r: bool)
        ensures
            r == self@.is_ignored(),
    {
        proof {
            lemma_node_view(*self);
        }
        match self {
            Node_::Ignored => true,
            _ => false,
        }
    }

    /// Whether the node is the token of kind `kind`.
    pub fn is_token(&self, kind: TokenKind) -> (r: bool)
        ensures
            r == self@.is_token(kind),
    {
        proof {
            lemma_node_view(*self);
        }
        match self {
            Node_::Token(k) => *k == kind,
            _ => false,
        }
    }

    pub fn as_visibility(&self) -> (r: Result<Visibility, ParseError>)
        ensures
            r == self@.as_visibility(),
    {
        proof {
            lemma_node_view(*self);
        }
        match self {
            Node_::Token(TokenKind::Private) => Ok(Visibility::Private),
            Node_::Token(TokenKind::Protected) => Ok(Visibility::Protected),
            Node_::Token(TokenKind::Public) => Ok(Visibility::Public),
            _ => Err(ParseError::ExpectedVisibility),
        }
    }

    /// The node itself, with what its view is.
    pub fn with_view(self) -> (r: Node_<'a>)
        ensures
            r == self,
            r@ == node_shape(self),
    {
        proof {
            lemma_node_view(self);
        }
        self
    }

    /// The attribute that the node is, if it is one.
    pub fn as_attribute(&self) -> (r: Option<UserAttribute<'a>>)
        ensures
            match r {
                Some(attr) => self@ == NodeView::Attribute(attr@),
                None => !(self@ is Attribute),
            },
    {
        proof {
            lemma_node_view(*self);
        }
        match self {
            Node_::Attribute(attr) => Some(*attr),
            _ => None,
        }
    }

    /// The parameter that the node is, if it is one.
    pub fn as_fun_param(&self) -> (r: Option<&'a FunParamDecl<'a>>)
        ensures
            match r {
                Some(decl) => self@ == NodeView::FunParam(Box::new(decl@)),
                None => !(self@ is FunParam),
            },
    {
        proof {
            lemma_node_view(*self);
        }
        match self {
            Node_::FunParam(decl) => Some(*decl),
            _ => None,
        }
    }

    /// The function header that the node is, if it is one.
    pub fn as_function_header(&self) -> (r: Option<&'a FunctionHeader<'a>>)
        ensures
            match r {
                Some(header) => self@ == NodeView::FunctionHeader(Box::new(header@)),
                None => !(self@ is FunctionHeader),
            },
    {
        proof {
            lemma_node_view(*self);
        }
        match self {
            Node_::FunctionHeader(header) => Some(*header),
            _ => None,
        }
    }

    /// The elements of the node, if it is a plain list.
    pub fn as_list(&self) -> (r: Option<&'a Vec<Node_<'a>>>)
        ensures
            match r {
                Some(items) => self@ == NodeView::List(nodes_view(items)),
                None => !(self@ is List),
            },
    {
        proof {
            lemma_node_view(*self);
        }
        match self {
            Node_::List(items) => Some(*items),
            _ => None,
        }
    }

    /// The two nodes of the pair that the node is, if it is one.
    pub fn as_list_item(&self) -> (r: Option<(Node_<'a>, Node_<'a>)>)
        ensures
            match r {
                Some((fst, snd)) => self@ == NodeView::ListItem(Box::new(fst@), Box::new(snd@)),
                None => !(self@ is ListItem),
            },
    {
        proof {
            lemma_node_view(*self);
        }
        match self {
            Node_::ListItem(pair) => Some((pair.0, pair.1)),
            _ => None,
        }
    }

    /// The kind and the type of the constraint that the node is, if it is
    /// one.
    pub fn as_type_constraint(&self) -> (r: Option<(ConstraintKind, Node_<'a>)>)
        ensures
            match r {
                Some((kind, hint)) => self@ == NodeView::TypeConstraint(kind, Box::new(hint@)),
                None => !(self@ is TypeConstraint),
            },
    {
        proof {
            lemma_node_view(*self);
        }
        match self {
            Node_::TypeConstraint(c) => Some((c.0, c.1)),
            _ => None,
        }
    }

    /// The position and the kind of the operator that the node is, if it is
    /// one.
    pub fn as_operator(&self) -> (r: Option<(Pos<'a>, TokenKind)>)
        ensures
            match r {
                Some((pos, kind)) => self@ == NodeView::Operator(pos@, kind),
                None => !(self@ is Operator),
            },
    {
        proof {
            lemma_node_view(*self);
        }
        match self {
            Node_::Operator(pos, kind) => Some((*pos, *kind)),
            _ => None,
        }
    }

    /// The elements of the body of a class that the node is, if it is one.
    pub fn as_classish_body(&self) -> (r: Option<&'a Vec<Node_<'a>>>)
        ensures
            match r {
                Some(items) => self@ == NodeView::ClassishBody(nodes_view(items)),
                None => !(self@ is ClassishBody),
            },
    {
        proof {
            lemma_node_view(*self);
        }
        match self {
            Node_::ClassishBody(items) => Some(*items),
            _ => None,
        }
    }

    /// The import that the node is, if it is one.
    pub fn as_namespace_use_clause(&self) -> (r: Option<NamespaceUseClause<'a>>)
        ensures
            match r {
                Some(clause) => self@ == NodeView::NamespaceUseClause(clause@),
                None => !(self@ is NamespaceUseClause),
            },
    {
        proof {
            lemma_node_view(*self);
        }
        match self {
            Node_::NamespaceUseClause(clause) => Some(*clause),
            _ => None,
        }
    }

    /// The type parameter that the node is, if it is one.
    pub fn as_type_parameter(&self) -> (r: Option<&'a TypeParameterDecl<'a>>)
        ensures
            match r {
                Some(decl) => self@ == NodeView::TypeParameter(Box::new(decl@)),
                None => !(self@ is TypeParameter),
            },
    {
        proof {
            lemma_node_view(*self);
        }
        match self {
            Node_::TypeParameter(decl) => Some(*decl),
            _ => None,
        }
    }

    /// The text and the position of the string literal that the node is, if
    /// it is one.
    pub fn as_string_literal(&self) -> (r: Option<(&'a str, Pos<'a>)>)
        ensures
            match r {
                Some((s, pos)) => self@ == NodeView::StringLiteral(s@, pos@),
                None => !(self@ is StringLiteral),
            },
    {
        proof {
            lemma_node_view(*self);
        }
        match self {
            Node_::StringLiteral(s, pos) => Some((*s, *pos)),
            _ => None,
        }
    }

    /// The position of the constructor's name, if the node is that name.
    pub fn as_construct(&self) -> (r: Option<Pos<'a>>)
        ensures
            match r {
                Some(pos) => self@ == NodeView::Construct(pos@),
                None => !(self@ is Construct),
            },
    {
        proof {
            lemma_node_view(*self);
        }
        match self {
            Node_::Construct(pos) => Some(*pos),
            _ => None,
        }
    }

    /// Whether one of `nodes` is the token of kind `kind`.
    pub fn any_token(nodes: &Vec<Node_<'a>>, kind: TokenKind) -> (r: bool)
        ensures
            r == contains_token(nodes_view(nodes), kind),
    {
        let mut i: usize = 0;
        while i < nodes.len()
            invariant
                i <= nodes.len(),
                forall|k: int| 0 <= k < i ==> !(#[trigger] nodes_view(nodes)[k]).is_token(kind),
            decreases nodes.len() - i,
        {
            if nodes[i].is_token(kind) {
                assert(nodes_view(nodes)[i as int] == nodes[i as int]@);
                return true;
            }
            assert(nodes_view(nodes)[i as int] == nodes[i as int]@);
            i = i + 1;
        }
        false
    }

    /// The nodes that the node stands for when it is read as a list.
    pub fn as_slice(self, arena: &'a Bump) -> (r: &'a Vec<Node_<'a>>)
        ensures
            nodes_view(r) == self@.items(),
    {
        proof {
            lemma_node_view(self);
        }
        match self {
            Node_::List(items) => items,
            Node_::BracketedList(_, items, _) => items,
            Node_::Ignored => {
                let v: Vec<Node_<'a>> = Vec::new();
                let r = arena_alloc(arena, v);
                assert(nodes_view(r) =~= Seq::<NodeView>::empty());
                r
            },
            n => {
                let mut v: Vec<Node_<'a>> = Vec::new();
                v.push(n);
                let r = arena_alloc(arena, v);
                assert(nodes_view(r) =~= seq![n@]);
                r
            },
        }
    }

    /// The position that the node carries itself, if it carries one.
    pub fn own_pos(self) -> (r: Option<Pos<'a>>)
        ensures
            opt_pos_view(r) == self@.own_pos(),
    {
        proof {
            lemma_node_view(self);
        }
        match self {
            Node_::Name(_, pos) => Some(pos),
            Node_::Ty(ty) => Some(
                match ty.get_pos() {
                    Some(p) => p,
                    None => Pos::make_none(),
                },
            ),
            Node_::TypeconstAccess(pos, _, _) => Some(pos),
            Node_::XhpName(_, pos) => Some(pos),
            Node_::QualifiedName(_, pos) => Some(pos),
            Node_::Pos(pos) => Some(pos),
            Node_::Backslash(pos) => Some(pos),
            Node_::Construct(pos) => Some(pos),
            Node_::This(pos) => Some(pos),
            Node_::Array(pos) => Some(pos),
            Node_::Darray(pos) => Some(pos),
            Node_::Varray(pos) => Some(pos),
            Node_::IntLiteral(_, pos) => Some(pos),
            Node_::FloatingLiteral(_, pos) => Some(pos),
            Node_::Null(pos) => Some(pos),
            Node_::StringLiteral(_, pos) => Some(pos),
            Node_::BooleanLiteral(_, pos) => Some(pos),
            Node_::Operator(pos, _) => Some(pos),
            Node_::Expr(e) => Some(e.0),
            _ => None,
        }
    }

    /// The position of the node.
    pub fn get_pos(self) -> (r: Result<Pos<'a>, ParseError>)
        ensures
            pos_result_view(r) == self@.get_pos(),
        decreases self,
    {
        proof {
            lemma_node_view(self);
        }
        match self {
            Node_::ListItem(items) => {
                let fst = items.0;
                let snd = items.1;
                match (fst.get_pos(), snd.get_pos()) {
                    (Ok(fst_pos), Ok(snd_pos)) => Pos::merge(fst_pos, snd_pos),
                    (Ok(pos), Err(_)) => Ok(pos),
                    (Err(_), Ok(pos)) => Ok(pos),
                    (Err(_), Err(_)) => Err(ParseError::NoPosition),
                }
            },
            Node_::List(items) => Self::pos_from_slice(items),
            Node_::BracketedList(first, inner, second) => {
                match Self::pos_from_slice(inner) {
                    Err(e) => Err(e),
                    Ok(inner_pos) => match Pos::merge(inner_pos, second) {
                        Err(e) => Err(e),
                        Ok(p) => Pos::merge(first, p),
                    },
                }
            },
            _ => match self.own_pos() {
                Some(p) => Ok(p),
                None => Err(ParseError::NoPosition),
            },
        }
    }

    /// The span of the positions of `nodes`.
    pub fn pos_from_slice(nodes: &'a Vec<Node_<'a>>) -> (r: Result<Pos<'a>, ParseError>)
        ensures
            pos_result_view(r) == pos_of_first(nodes_view(nodes), nodes.len() as nat),
        decreases nodes,
    {
        let mut acc: Result<Pos<'a>, ParseError> = Err(ParseError::NoPosition);
        let mut i: usize = 0;
        while i < nodes.len()
            invariant
                i <= nodes.len(),
                pos_result_view(acc) == pos_of_first(nodes_view(nodes), i as nat),
            decreases nodes.len() - i,
        {
            let elem = nodes[i].get_pos();
            acc =
            match (acc, elem) {
                (Ok(acc_pos), Ok(elem_pos)) => Pos::merge(acc_pos, elem_pos),
                (Err(_), Ok(elem_pos)) => Ok(elem_pos),
                (acc, Err(_)) => acc,
            };
            i = i + 1;
        }
        acc
    }
}

} // verus!
