//! From nodes to semantic types and to expressions.

use crate::aast::{Expr, ExprView, ExprView_, Expr_, Tprim};
use crate::ast_defs::{Id, IdView};
use crate::error::ParseError;
use crate::names::get_name;
use crate::node::{lemma_node_view, nodes_view, result_view, Node, NodeView, Node_};
use crate::pos::{Pos, PosView};
use crate::state::{DirectDeclSmartConstructors, StateView};
use crate::text::{eq_ignore_ascii_case, str_eq, str_eq_ignore_ascii_case};
use crate::typing_defs::{
    tparams_view, tys_view, Reason, ReasonView, TaccessType, Tparam, TparamView, Ty, TyView,
    TyView_, Ty_,
};
use vstd::prelude::*;

verus! {

/// The type of which nothing is known.
pub open spec fn tany() -> TyView {
    TyView(ReasonView::Rnone, Box::new(TyView_::Tany))
}

/// The type of array keys.
pub open spec fn tarraykey() -> TyView {
    TyView(ReasonView::Rnone, Box::new(TyView_::Tprim(Tprim::Tarraykey)))
}

/// The node for the type `ty_` as a hint at `pos` states it.
pub open spec fn hint_ty(pos: PosView, ty_: TyView_) -> NodeView {
    NodeView::Ty(TyView(ReasonView::Rhint(pos), Box::new(ty_)))
}

pub open spec fn prim_ty(tprim: Tprim, pos: PosView) -> NodeView {
    hint_ty(pos, TyView_::Tprim(tprim))
}

/// The type of which nothing is known, witnessed at `pos`.
pub open spec fn tany_with_pos(pos: PosView) -> TyView {
    TyView(ReasonView::Rwitness(pos), Box::new(TyView_::Tany))
}

/// The type that can be read off the syntax of an expression: that of a
/// literal, behind any number of unary operators.
pub open spec fn expr_to_ty(e: ExprView) -> Result<TyView_, ParseError>
    decreases e,
{
    match e.1 {
        ExprView_::Null => Ok(TyView_::Tprim(Tprim::Tnull)),
        ExprView_::True => Ok(TyView_::Tprim(Tprim::Tbool)),
        ExprView_::False => Ok(TyView_::Tprim(Tprim::Tbool)),
        ExprView_::Int(_) => Ok(TyView_::Tprim(Tprim::Tint)),
        ExprView_::Float(_) => Ok(TyView_::Tprim(Tprim::Tfloat)),
        ExprView_::String(_) => Ok(TyView_::Tprim(Tprim::Tstring)),
        ExprView_::Unop(_, inner) => expr_to_ty(*inner),
        _ => Err(ParseError::CannotConvertExprToType),
    }
}

pub open spec fn ty_result_view(r: Result<Ty, ParseError>) -> Result<TyView, ParseError> {
    match r {
        Ok(t) => Ok(t@),
        Err(e) => Err(e),
    }
}

pub open spec fn expr_result_view(r: Result<Expr, ParseError>) -> Result<ExprView, ParseError> {
    match r {
        Ok(e) => Ok(e@),
        Err(e) => Err(e),
    }
}

impl StateView {
    /// The expression that a node stands for: itself, a literal, or a name
    /// under the current namespace.
    pub open spec fn node_to_expr(self, node: NodeView) -> Result<ExprView, ParseError> {
        match node {
            NodeView::Expr(e) => Ok(e),
            NodeView::IntLiteral(s, pos) => Ok(ExprView(pos, ExprView_::Int(s))),
            NodeView::FloatingLiteral(s, pos) => Ok(ExprView(pos, ExprView_::Float(s))),
            NodeView::StringLiteral(s, pos) => Ok(ExprView(pos, ExprView_::String(s))),
            NodeView::BooleanLiteral(s, pos) => Ok(
                ExprView(
                    pos,
                    if eq_ignore_ascii_case(s, "true"@) {
                        ExprView_::True
                    } else {
                        ExprView_::False
                    },
                ),
            ),
            NodeView::Null(pos) => Ok(ExprView(pos, ExprView_::Null)),
            NodeView::Name(_, pos) => match get_name(self.current_namespace(), node) {
                Ok(id) => Ok(ExprView(pos, ExprView_::Id(id))),
                Err(e) => Err(e),
            },
            NodeView::QualifiedName(_, pos) => match get_name(self.current_namespace(), node) {
                Ok(id) => Ok(ExprView(pos, ExprView_::Id(id))),
                Err(e) => Err(e),
            },
            _ => Err(ParseError::NotAnExpression),
        }
    }

    /// The type that the name `name`, written at `pos`, denotes: a type
    /// parameter in scope; else one of the special types; else the class or
    /// alias that the name resolves to, applied to nothing.
    pub open spec fn named_type(self, pos: PosView, name: Seq<char>) -> TyView_ {
        if self.is_type_param_in_scope(name) {
            TyView_::Tgeneric(name)
        } else if name == "nothing"@ {
            TyView_::Tunion(Seq::empty())
        } else if name == "nonnull"@ {
            TyView_::Tnonnull
        } else if name == "dynamic"@ {
            TyView_::Tdynamic
        } else if name == "varray_or_darray"@ {
            TyView_::TvarrayOrDarray(tarraykey(), tany())
        } else {
            TyView_::Tapply(
                IdView(pos, self.namespaces.rename_import(self.prefix_ns(name))),
                Seq::empty(),
            )
        }
    }

    /// The type that a node stands for.
    pub open spec fn node_to_ty(self, node: NodeView) -> Result<TyView, ParseError> {
        match node {
            NodeView::Ty(ty) => Ok(ty),
            NodeView::TypeconstAccess(pos, ty, names) => Ok(
                TyView(ReasonView::Rhint(pos), Box::new(TyView_::Taccess(ty, names))),
            ),
            NodeView::Array(pos) => Ok(
                TyView(ReasonView::Rhint(pos), Box::new(TyView_::Tarray(None, None))),
            ),
            NodeView::Varray(pos) => Ok(
                TyView(ReasonView::Rhint(pos), Box::new(TyView_::Tvarray(tany()))),
            ),
            NodeView::Darray(pos) => Ok(
                TyView(ReasonView::Rhint(pos), Box::new(TyView_::Tdarray(tany(), tany()))),
            ),
            NodeView::This(pos) => Ok(TyView(ReasonView::Rhint(pos), Box::new(TyView_::Tthis))),
            NodeView::Expr(expr) => match expr_to_ty(expr) {
                Ok(ty_) => Ok(TyView(ReasonView::Rwitness(expr.0), Box::new(ty_))),
                Err(e) => Err(e),
            },
            NodeView::IntLiteral(_, pos) => Ok(
                TyView(ReasonView::Rwitness(pos), Box::new(TyView_::Tprim(Tprim::Tint))),
            ),
            NodeView::FloatingLiteral(_, pos) => Ok(
                TyView(ReasonView::Rwitness(pos), Box::new(TyView_::Tprim(Tprim::Tfloat))),
            ),
            NodeView::StringLiteral(_, pos) => Ok(
                TyView(ReasonView::Rwitness(pos), Box::new(TyView_::Tprim(Tprim::Tstring))),
            ),
            NodeView::BooleanLiteral(_, pos) => Ok(
                TyView(ReasonView::Rwitness(pos), Box::new(TyView_::Tprim(Tprim::Tbool))),
            ),
            NodeView::Null(pos) => Ok(
                TyView(ReasonView::Rhint(pos), Box::new(TyView_::Tprim(Tprim::Tnull))),
            ),
            _ => match get_name(Seq::empty(), node) {
                Err(e) => Err(e),
                Ok(id) => Ok(
                    TyView(ReasonView::Rhint(id.0), Box::new(self.named_type(id.0, id.1))),
                ),
            },
        }
    }

    /// The types that the first `n` of `nodes` stand for; the failure of the
    /// first that stands for none.
    pub open spec fn tys_of_first(self, nodes: Seq<NodeView>, n: nat) -> Result<
        Seq<TyView>,
        ParseError,
    >
        decreases n,
    {
        if n == 0 || n > nodes.len() {
            Ok(Seq::empty())
        } else {
            match self.tys_of_first(nodes, (n - 1) as nat) {
                Err(e) => Err(e),
                Ok(tys) => match self.node_to_ty(nodes[n - 1]) {
                    Err(e) => Err(e),
                    Ok(ty) => Ok(tys.push(ty)),
                },
            }
        }
    }

    /// The types that `nodes` stand for.
    pub open spec fn tys_of(self, nodes: Seq<NodeView>) -> Result<Seq<TyView>, ParseError> {
        self.tys_of_first(nodes, nodes.len())
    }

    /// The expressions that the first `n` of `nodes` stand for.
    pub open spec fn exprs_of_first(self, nodes: Seq<NodeView>, n: nat) -> Result<
        Seq<ExprView>,
        ParseError,
    >
        decreases n,
    {
        if n == 0 || n > nodes.len() {
            Ok(Seq::empty())
        } else {
            match self.exprs_of_first(nodes, (n - 1) as nat) {
                Err(e) => Err(e),
                Ok(exprs) => match self.node_to_expr(nodes[n - 1]) {
                    Err(e) => Err(e),
                    Ok(expr) => Ok(exprs.push(expr)),
                },
            }
        }
    }

    pub open spec fn exprs_of(self, nodes: Seq<NodeView>) -> Result<Seq<ExprView>, ParseError> {
        self.exprs_of_first(nodes, nodes.len())
    }

    /// The state and the type parameters after a declaration has consumed
    /// its list of type parameters: the innermost scope is closed. A node
    /// that is no such list stands for no parameters and closes nothing.
    pub open spec fn pop_type_params(self, node: NodeView) -> (
        StateView,
        Result<Seq<TparamView>, ParseError>,
    ) {
        match node {
            NodeView::TypeParameters(tparams) => if self.type_parameters.len() > 0 {
                (
                    StateView { type_parameters: self.type_parameters.drop_last(), ..self },
                    Ok(tparams),
                )
            } else {
                (self, Err(ParseError::NoOpenTypeParameters))
            },
            _ => (self, Ok(Seq::empty())),
        }
    }

    /// The node for the type `base_ty` applied to `type_arguments`, where the
    /// imports decide what `base_ty` names. The position of the hint is that
    /// of the name, merged with `pos_to_merge` if there is one.
    pub open spec fn make_apply(
        self,
        base_ty: IdView,
        type_arguments: NodeView,
        pos_to_merge: Option<PosView>,
    ) -> Result<NodeView, ParseError> {
        let id = IdView(base_ty.0, self.namespaces.rename_import(base_ty.1));
        match self.tys_of(type_arguments.items()) {
            Err(e) => Err(e),
            Ok(targs) => {
                let pos = match pos_to_merge {
                    Some(p) => base_ty.0.merge(p),
                    None => Ok(base_ty.0),
                };
                match pos {
                    Err(e) => Err(e),
                    Ok(pos) => Ok(hint_ty(pos, TyView_::Tapply(id, targs))),
                }
            },
        }
    }
}

/// Once a node stands for no type, the whole list fails.
pub proof fn lemma_tys_fail(s: StateView, nodes: Seq<NodeView>, n: nat, m: nat)
    requires
        0 < n <= m <= nodes.len(),
        s.tys_of_first(nodes, n) is Err,
    ensures
        s.tys_of_first(nodes, m) == s.tys_of_first(nodes, n),
    decreases m - n,
{
    if n < m {
        lemma_tys_fail(s, nodes, n, (m - 1) as nat);
    }
}

pub proof fn lemma_exprs_fail(s: StateView, nodes: Seq<NodeView>, n: nat, m: nat)
    requires
        0 < n <= m <= nodes.len(),
        s.exprs_of_first(nodes, n) is Err,
    ensures
        s.exprs_of_first(nodes, m) == s.exprs_of_first(nodes, n),
    decreases m - n,
{
    if n < m {
        lemma_exprs_fail(s, nodes, n, (m - 1) as nat);
    }
}

/// The type of which nothing is known.
pub fn make_tany<'a>(ddsc: &DirectDeclSmartConstructors<'a>) -> (r: Ty<'a>)
    ensures
        r@ == tany(),
{
    ddsc.mk_ty(Reason::Rnone, Ty_::Tany)
}

/// The type of array keys.
pub fn make_tarraykey<'a>(ddsc: &DirectDeclSmartConstructors<'a>) -> (r: Ty<'a>)
    ensures
        r@ == tarraykey(),
{
    ddsc.mk_ty(Reason::Rnone, Ty_::Tprim(Tprim::Tarraykey))
}

/// The type that can be read off the syntax of an expression.
fn expr_to_ty_of<'a>(expr: &Expr<'a>) -> (r: Result<Ty_<'a>, ParseError>)
    ensures
        match r {
            Ok(ty_) => expr_to_ty(expr@) == Ok::<TyView_, ParseError>(ty_@),
            Err(e) => expr_to_ty(expr@) == Err::<TyView_, ParseError>(e),
        },
    decreases expr,
{
    match expr.1 {
        Expr_::Null => Ok(Ty_::Tprim(Tprim::Tnull)),
        Expr_::True => Ok(Ty_::Tprim(Tprim::Tbool)),
        Expr_::False => Ok(Ty_::Tprim(Tprim::Tbool)),
        Expr_::Int(_) => Ok(Ty_::Tprim(Tprim::Tint)),
        Expr_::Float(_) => Ok(Ty_::Tprim(Tprim::Tfloat)),
        Expr_::String(_) => Ok(Ty_::Tprim(Tprim::Tstring)),
        Expr_::Unop(op, inner) => {
            assert(expr@.1 == ExprView_::Unop(op, Box::new(inner@)));
            expr_to_ty_of(inner)
        },
        _ => Err(ParseError::CannotConvertExprToType),
    }
}

impl<'a> DirectDeclSmartConstructors<'a> {
    /// The type `ty_` for the reason `reason`.
    pub fn mk_ty(&self, reason: Reason<'a>, ty_: Ty_<'a>) -> (r: Ty<'a>)
        ensures
            r@ == TyView(reason@, Box::new(ty_@)),
    {
        Ty(reason, self.allocate(ty_))
    }

    /// The node for the type `ty_` as a hint at `pos` states it.
    pub fn hint_ty(&self, pos: Pos<'a>, ty_: Ty_<'a>) -> (r: Node_<'a>)
        ensures
            r@ == hint_ty(pos@, ty_@),
    {
        Node_::Ty(self.mk_ty(Reason::Rhint(pos), ty_)).with_view()
    }

    pub fn prim_ty(&self, tprim: Tprim, pos: Pos<'a>) -> (r: Node_<'a>)
        ensures
            r@ == prim_ty(tprim, pos@),
    {
        self.hint_ty(pos, Ty_::Tprim(tprim))
    }

    /// The type of which nothing is known, witnessed at `pos`.
    pub fn tany_with_pos(&self, pos: Pos<'a>) -> (r: Ty<'a>)
        ensures
            r@ == tany_with_pos(pos@),
    {
        self.mk_ty(Reason::Rwitness(pos), Ty_::Tany)
    }

    /// The expression that `node` stands for.
    pub fn node_to_expr(&self, node: Node_<'a>) -> (r: Result<Expr<'a>, ParseError>)
        ensures
            expr_result_view(r) == self@.node_to_expr(node@),
    {
        proof {
            lemma_node_view(node);
        }
        match node {
            Node_::Expr(expr) => Ok(*expr),
            Node_::IntLiteral(s, pos) => Ok(Expr(pos, Expr_::Int(s))),
            Node_::FloatingLiteral(s, pos) => Ok(Expr(pos, Expr_::Float(s))),
            Node_::StringLiteral(s, pos) => Ok(Expr(pos, Expr_::String(s))),
            Node_::BooleanLiteral(s, pos) => {
                if str_eq_ignore_ascii_case(s, "true") {
                    Ok(Expr(pos, Expr_::True))
                } else {
                    Ok(Expr(pos, Expr_::False))
                }
            },
            Node_::Null(pos) => Ok(Expr(pos, Expr_::Null)),
            Node_::Name(_, pos) => {
                match self.get_name(self.state.namespace_builder.current_namespace(), node) {
                    Ok(id) => Ok(Expr(pos, Expr_::Id(id))),
                    Err(e) => Err(e),
                }
            },
            Node_::QualifiedName(_, pos) => {
                match self.get_name(self.state.namespace_builder.current_namespace(), node) {
                    Ok(id) => Ok(Expr(pos, Expr_::Id(id))),
                    Err(e) => Err(e),
                }
            },
            _ => Err(ParseError::NotAnExpression),
        }
    }

    /// The type that the name `name`, written at `pos`, denotes.
    fn named_type(&self, pos: Pos<'a>, name: &'a str) -> (r: Ty_<'a>)
        ensures
            r@ == self@.named_type(pos@, name@),
    {
        if self.is_type_param_in_scope(name) {
            Ty_::Tgeneric(name)
        } else if str_eq(name, "nothing") {
            let tys: Vec<Ty<'a>> = Vec::new();
            let tys = self.allocate(tys);
            assert(tys_view(tys) =~= Seq::<TyView>::empty());
            Ty_::Tunion(tys)
        } else if str_eq(name, "nonnull") {
            Ty_::Tnonnull
        } else if str_eq(name, "dynamic") {
            Ty_::Tdynamic
        } else if str_eq(name, "varray_or_darray") {
            Ty_::TvarrayOrDarray(make_tarraykey(self), make_tany(self))
        } else {
            let name = self.state.namespace_builder.rename_import(self.prefix_ns(name));
            let targs: Vec<Ty<'a>> = Vec::new();
            let targs = self.allocate(targs);
            assert(tys_view(targs) =~= Seq::<TyView>::empty());
            Ty_::Tapply(Id(pos, name), targs)
        }
    }

    /// The type that `node` stands for.
    pub fn node_to_ty(&self, node: Node_<'a>) -> (r: Result<Ty<'a>, ParseError>)
        ensures
            ty_result_view(r) == self@.node_to_ty(node@),
    {
        proof {
            lemma_node_view(node);
        }
        match node {
            Node_::Ty(ty) => Ok(ty),
            Node_::TypeconstAccess(pos, ty, names) => Ok(
                self.mk_ty(Reason::Rhint(pos), Ty_::Taccess(TaccessType(ty, names))),
            ),
            Node_::Array(pos) => Ok(self.mk_ty(Reason::Rhint(pos), Ty_::Tarray(None, None))),
            Node_::Varray(pos) => Ok(
                self.mk_ty(Reason::Rhint(pos), Ty_::Tvarray(make_tany(self))),
            ),
            Node_::Darray(pos) => Ok(
                self.mk_ty(Reason::Rhint(pos), Ty_::Tdarray(make_tany(self), make_tany(self))),
            ),
            Node_::This(pos) => Ok(self.mk_ty(Reason::Rhint(pos), Ty_::Tthis)),
            Node_::Expr(expr) => {
                match expr_to_ty_of(expr) {
                    Ok(ty_) => Ok(self.mk_ty(Reason::Rwitness(expr.0), ty_)),
                    Err(e) => Err(e),
                }
            },
            Node_::IntLiteral(_, pos) => Ok(
                self.mk_ty(Reason::Rwitness(pos), Ty_::Tprim(Tprim::Tint)),
            ),
            Node_::FloatingLiteral(_, pos) => Ok(
                self.mk_ty(Reason::Rwitness(pos), Ty_::Tprim(Tprim::Tfloat)),
            ),
            Node_::StringLiteral(_, pos) => Ok(
                self.mk_ty(Reason::Rwitness(pos), Ty_::Tprim(Tprim::Tstring)),
            ),
            Node_::BooleanLiteral(_, pos) => Ok(
                self.mk_ty(Reason::Rwitness(pos), Ty_::Tprim(Tprim::Tbool)),
            ),
            Node_::Null(pos) => Ok(self.mk_ty(Reason::Rhint(pos), Ty_::Tprim(Tprim::Tnull))),
            node => {
                proof {
                    reveal_strlit("");
                    assert(""@ =~= Seq::<char>::empty());
                }
                match self.get_name("", node) {
                    Err(e) => Err(e),
                    Ok(id) => {
                        let ty_ = self.named_type(id.0, id.1);
                        Ok(self.mk_ty(Reason::Rhint(id.0), ty_))
                    },
                }
            },
        }
    }

    /// The types that `nodes` stand for.
    pub fn nodes_to_tys(&self, nodes: &'a Vec<Node_<'a>>) -> (r: Result<
        &'a Vec<Ty<'a>>,
        ParseError,
    >)
        ensures
            match r {
                Ok(tys) => self@.tys_of(nodes_view(nodes)) == Ok::<Seq<TyView>, ParseError>(
                    tys_view(tys),
                ),
                Err(e) => self@.tys_of(nodes_view(nodes)) == Err::<Seq<TyView>, ParseError>(e),
            },
    {
        let ghost views = nodes_view(nodes);
        let mut tys: Vec<Ty<'a>> = Vec::new();
        let mut i: usize = 0;
        assert(Seq::new(tys.len() as nat, |k: int| tys@[k]@) =~= Seq::<TyView>::empty());
        while i < nodes.len()
            invariant
                i <= nodes.len(),
                views == nodes_view(nodes),
                tys.len() == i,
                self@.tys_of_first(views, i as nat) == Ok::<Seq<TyView>, ParseError>(
                    Seq::new(tys.len() as nat, |k: int| tys@[k]@),
                ),
            decreases nodes.len() - i,
        {
            assert(views[i as int] == nodes[i as int]@);
            let ghost before = Seq::new(tys.len() as nat, |k: int| tys@[k]@);
            match self.node_to_ty(nodes[i]) {
                Err(e) => {
                    proof {
                        lemma_tys_fail(self@, views, (i + 1) as nat, nodes.len() as nat);
                    }
                    return Err(e);
                },
                Ok(ty) => {
                    tys.push(ty);
                    assert(Seq::new(tys.len() as nat, |k: int| tys@[k]@) =~= before.push(ty@));
                },
            }
            i = i + 1;
        }
        let r = self.allocate(tys);
        assert(tys_view(r) =~= Seq::new(tys.len() as nat, |k: int| tys@[k]@));
        Ok(r)
    }

    /// The expressions that `nodes` stand for.
    pub fn nodes_to_exprs(&self, nodes: &'a Vec<Node_<'a>>) -> (r: Result<
        &'a Vec<Expr<'a>>,
        ParseError,
    >)
        ensures
            match r {
                Ok(exprs) => self@.exprs_of(nodes_view(nodes)) == Ok::<Seq<ExprView>, ParseError>(
                    crate::aast::exprs_view(exprs),
                ),
                Err(e) => self@.exprs_of(nodes_view(nodes)) == Err::<Seq<ExprView>, ParseError>(e),
            },
    {
        let ghost views = nodes_view(nodes);
        let mut exprs: Vec<Expr<'a>> = Vec::new();
        let mut i: usize = 0;
        assert(Seq::new(exprs.len() as nat, |k: int| exprs@[k]@) =~= Seq::<ExprView>::empty());
        while i < nodes.len()
            invariant
                i <= nodes.len(),
                views == nodes_view(nodes),
                exprs.len() == i,
                self@.exprs_of_first(views, i as nat) == Ok::<Seq<ExprView>, ParseError>(
                    Seq::new(exprs.len() as nat, |k: int| exprs@[k]@),
                ),
            decreases nodes.len() - i,
        {
            assert(views[i as int] == nodes[i as int]@);
            let ghost before = Seq::new(exprs.len() as nat, |k: int| exprs@[k]@);
            match self.node_to_expr(nodes[i]) {
                Err(e) => {
                    proof {
                        lemma_exprs_fail(self@, views, (i + 1) as nat, nodes.len() as nat);
                    }
                    return Err(e);
                },
                Ok(expr) => {
                    exprs.push(expr);
                    assert(Seq::new(exprs.len() as nat, |k: int| exprs@[k]@) =~= before.push(
                        expr@,
                    ));
                },
            }
            i = i + 1;
        }
        let r = self.allocate(exprs);
        assert(crate::aast::exprs_view(r) =~= Seq::new(exprs.len() as nat, |k: int| exprs@[k]@));
        Ok(r)
    }

    /// Closes the innermost scope of type parameters where `node` is a list
    /// of type parameters, and returns those.
    pub fn pop_type_params(&mut self, node: Node_<'a>) -> (r: Result<
        &'a Vec<Tparam<'a>>,
        ParseError,
    >)
        ensures
            final(self)@ == old(self)@.pop_type_params(node@).0,
            match r {
                Ok(tparams) => old(self)@.pop_type_params(node@).1 == Ok::<
                    Seq<TparamView>,
                    ParseError,
                >(tparams_view(tparams)),
                Err(e) => old(self)@.pop_type_params(node@).1 == Err::<
                    Seq<TparamView>,
                    ParseError,
                >(e),
            },
    {
        proof {
            lemma_node_view(node);
        }
        match node {
            Node_::TypeParameters(tparams) => {
                if self.state.type_parameters.len() > 0 {
                    self.state.type_parameters.pop();
                    assert(self@.type_parameters =~= old(self)@.type_parameters.drop_last());
                    Ok(tparams)
                } else {
                    Err(ParseError::NoOpenTypeParameters)
                }
            },
            _ => {
                let empty: Vec<Tparam<'a>> = Vec::new();
                let empty = self.allocate(empty);
                assert(tparams_view(empty) =~= Seq::<TparamView>::empty());
                Ok(empty)
            },
        }
    }

    /// The node for the type `base_ty` applied to `type_arguments`.
    pub fn make_apply(
        &self,
        base_ty: Id<'a>,
        type_arguments: Node_<'a>,
        pos_to_merge: Option<Pos<'a>>,
    ) -> (r: Node<'a>)
        ensures
            result_view(r) == self@.make_apply(
                base_ty@,
                type_arguments@,
                crate::shallow_decl_defs::opt_pos_view(pos_to_merge),
            ),
    {
        let Id(base_ty_pos, base_ty_name) = base_ty;
        let id = Id(base_ty_pos, self.state.namespace_builder.rename_import(base_ty_name));
        let items = type_arguments.as_slice(self.state.arena);
        let type_arguments = match self.nodes_to_tys(items) {
            Ok(tys) => tys,
            Err(e) => {
                return Err(e);
            },
        };
        let ty_ = Ty_::Tapply(id, type_arguments);
        let pos = match pos_to_merge {
            Some(p) => match Pos::merge(base_ty_pos, p) {
                Ok(pos) => pos,
                Err(e) => {
                    return Err(e);
                },
            },
            None => base_ty_pos,
        };
        Ok(self.hint_ty(pos, ty_))
    }
}

} // verus!
