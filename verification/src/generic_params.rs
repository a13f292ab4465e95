//! Lists of type parameters, and the declarations of type aliases that
//! consume them.

use crate::aast::{ReifyKind, TypedefVisibility};
use crate::ast_defs::{ConstraintKind, Id, IdView, Variance};
use crate::decls::declare;
use crate::error::ParseError;
use crate::lists::NodeResult;
use crate::names::get_name;
use crate::node::{
    node_constraints_view, nodes_view, result_view, Node, NodeView, Node_, TypeParameterDecl,
    TypeParameterDeclView,
};
use crate::state::{names_view, DirectDeclSmartConstructors, StateView};
use crate::token_kind::TokenKind;
use crate::typing_defs::{
    constraints_view, tparams_view, Tparam, TparamView, Ty, TyView, TypedefType, TypedefTypeView,
};
use vstd::prelude::*;

verus! {

pub type NodeConstraints = Seq<(ConstraintKind, NodeView)>;

/// The constraints among the first `n` of `nodes`. A node that is ignored
/// adds none; any other node must be a constraint.
pub open spec fn node_constraints_of_first(nodes: Seq<NodeView>, n: nat) -> Result<
    NodeConstraints,
    ParseError,
>
    decreases n,
{
    if n == 0 || n > nodes.len() {
        Ok(Seq::empty())
    } else {
        match node_constraints_of_first(nodes, (n - 1) as nat) {
            Err(e) => Err(e),
            Ok(constraints) => match nodes[n - 1] {
                NodeView::TypeConstraint(kind, hint) => Ok(constraints.push((kind, *hint))),
                NodeView::Ignored => Ok(constraints),
                _ => Err(ParseError::ExpectedTypeConstraint),
            },
        }
    }
}

/// The variance that the sign before a type parameter gives it.
pub open spec fn variance_of(variance: NodeView) -> Variance {
    match variance {
        NodeView::Operator(_, TokenKind::Minus) => Variance::Contravariant,
        NodeView::Operator(_, TokenKind::Plus) => Variance::Covariant,
        _ => Variance::Invariant,
    }
}

/// A type parameter, before its constraints are interpreted.
pub open spec fn make_type_parameter(
    reify: NodeResult,
    variance: NodeResult,
    name: NodeResult,
    constraints: NodeResult,
) -> NodeResult {
    match constraints {
        Err(e) => Err(e),
        Ok(constraints) => match node_constraints_of_first(
            constraints.items(),
            constraints.items().len(),
        ) {
            Err(e) => Err(e),
            Ok(constraints) => match name {
                Err(e) => Err(e),
                Ok(name) => match variance {
                    Err(e) => Err(e),
                    Ok(variance) => match reify {
                        Err(e) => Err(e),
                        Ok(reify) => Ok(
                            NodeView::TypeParameter(
                                Box::new(
                                    TypeParameterDeclView {
                                        name,
                                        reified: if reify.is_token(TokenKind::Reify) {
                                            ReifyKind::Reified
                                        } else {
                                            ReifyKind::Erased
                                        },
                                        variance: variance_of(variance),
                                        constraints,
                                    },
                                ),
                            ),
                        ),
                    },
                },
            },
        },
    }
}

/// The names of the type parameters among the first `n` of `nodes`, each of
/// which must be a type parameter.
pub open spec fn tparam_names_of_first(nodes: Seq<NodeView>, n: nat) -> Result<
    Seq<IdView>,
    ParseError,
>
    decreases n,
{
    if n == 0 || n > nodes.len() {
        Ok(Seq::empty())
    } else {
        match tparam_names_of_first(nodes, (n - 1) as nat) {
            Err(e) => Err(e),
            Ok(names) => match nodes[n - 1] {
                NodeView::TypeParameter(decl) => match get_name(Seq::empty(), decl.name) {
                    Err(e) => Err(e),
                    Ok(id) => Ok(names.push(id)),
                },
                _ => Err(ParseError::ExpectedTypeParameter),
            },
        }
    }
}

/// The texts of names.
pub open spec fn id_texts(ids: Seq<IdView>) -> Seq<Seq<char>> {
    ids.map_values(|id: IdView| id.1)
}

impl StateView {
    /// The state with one more scope of type parameters.
    pub open spec fn push_type_params(self, names: Seq<Seq<char>>) -> StateView {
        StateView { type_parameters: self.type_parameters.push(names), ..self }
    }

    /// The types of the first `n` constraints, each rewritten with the type
    /// parameters in scope.
    pub open spec fn constraints_of_first(self, constraints: NodeConstraints, n: nat) -> Result<
        Seq<(ConstraintKind, TyView)>,
        ParseError,
    >
        decreases n,
    {
        if n == 0 || n > constraints.len() {
            Ok(Seq::empty())
        } else {
            match self.constraints_of_first(constraints, (n - 1) as nat) {
                Err(e) => Err(e),
                Ok(tys) => match self.node_to_ty(constraints[n - 1].1) {
                    Err(e) => Err(e),
                    Ok(ty) => Ok(
                        tys.push((constraints[n - 1].0, self.convert_tapply_to_tgeneric(ty))),
                    ),
                },
            }
        }
    }

    /// The type parameter that a declaration with the name `name` stands
    /// for.
    pub open spec fn tparam_of(self, decl: TypeParameterDeclView, name: IdView) -> Result<
        TparamView,
        ParseError,
    > {
        match self.constraints_of_first(decl.constraints, decl.constraints.len()) {
            Err(e) => Err(e),
            Ok(constraints) => Ok(
                TparamView { variance: decl.variance, name, constraints, reified: decl.reified },
            ),
        }
    }

    /// The type parameters that the first `n` declarations stand for.
    pub open spec fn tparams_of_first(
        self,
        decls: Seq<TypeParameterDeclView>,
        names: Seq<IdView>,
        n: nat,
    ) -> Result<Seq<TparamView>, ParseError>
        decreases n,
    {
        if n == 0 || n > decls.len() || n > names.len() {
            Ok(Seq::empty())
        } else {
            match self.tparams_of_first(decls, names, (n - 1) as nat) {
                Err(e) => Err(e),
                Ok(tparams) => match self.tparam_of(decls[n - 1], names[n - 1]) {
                    Err(e) => Err(e),
                    Ok(tparam) => Ok(tparams.push(tparam)),
                },
            }
        }
    }

    /// The state and the node after a list of type parameters. The names of
    /// the parameters become a new scope; the constraints are interpreted
    /// with that scope in force, so that a constraint may name a parameter
    /// that the list declares behind it. The scope stays open for the
    /// declaration that the list belongs to. Where a node is no type
    /// parameter, nothing happens to the state; where a constraint fails,
    /// the scope has been opened already.
    pub open spec fn make_type_parameters(self, tparams: NodeResult) -> (StateView, NodeResult) {
        match tparams {
            Err(e) => (self, Err(e)),
            Ok(tparams) => match tparam_names_of_first(tparams.items(), tparams.items().len()) {
                Err(e) => (self, Err(e)),
                Ok(names) => {
                    let pushed = self.push_type_params(id_texts(names));
                    let decls = tparams.items().map_values(|n: NodeView| *n->TypeParameter_0);
                    match pushed.tparams_of_first(decls, names, decls.len()) {
                        Err(e) => (pushed, Err(e)),
                        Ok(tparams) => (pushed, Ok(NodeView::TypeParameters(tparams))),
                    }
                },
            },
        }
    }

    /// Whether an alias hides the type that it stands for.
    pub open spec fn typedef_visibility(keyword: NodeView) -> TypedefVisibility {
        if keyword.is_token(TokenKind::Newtype) {
            TypedefVisibility::Opaque
        } else {
            TypedefVisibility::Transparent
        }
    }

    /// The type of a constraint `as T`, where the node is one.
    pub open spec fn constraint_ty(self, constraint: NodeView) -> Result<
        Option<TyView>,
        ParseError,
    > {
        match constraint {
            NodeView::TypeConstraint(_, hint) => match self.node_to_ty(*hint) {
                Err(e) => Err(e),
                Ok(ty) => Ok(Some(ty)),
            },
            _ => Ok(None),
        }
    }

    /// The state after the declaration of a type alias: the alias is in the
    /// table of typedefs under its qualified name, and the scope of its type
    /// parameters is closed. Without a name nothing is declared.
    pub open spec fn make_alias_declaration(
        self,
        keyword: NodeResult,
        name: NodeResult,
        generic_params: NodeResult,
        constraint: NodeResult,
        aliased_type: NodeResult,
    ) -> (StateView, NodeResult) {
        match name {
            Err(e) => (self, Err(e)),
            Ok(name) => match aliased_type {
                Err(e) => (self, Err(e)),
                Ok(aliased_type) => if name.is_ignored() {
                    (self, Ok(NodeView::Ignored))
                } else {
                    match get_name(self.current_namespace(), name) {
                        Err(e) => (self, Err(e)),
                        Ok(id) => match self.node_to_ty(aliased_type) {
                            Err(e) => (self, Err(e)),
                            Ok(ty) => match constraint {
                                Err(e) => (self, Err(e)),
                                Ok(constraint) => match self.constraint_ty(constraint) {
                                    Err(e) => (self, Err(e)),
                                    Ok(constraint) => match generic_params {
                                        Err(e) => (self, Err(e)),
                                        Ok(generic_params) => match self.pop_type_params(
                                            generic_params,
                                        ) {
                                            (_, Err(e)) => (self, Err(e)),
                                            (popped, Ok(tparams)) => match keyword {
                                                Err(e) => (popped, Err(e)),
                                                Ok(keyword) => popped.declare_typedef(
                                                    id.1,
                                                    TypedefTypeView {
                                                        pos: id.0,
                                                        vis: Self::typedef_visibility(keyword),
                                                        tparams,
                                                        constraint,
                                                        type_: ty,
                                                    },
                                                ),
                                            },
                                        },
                                    },
                                },
                            },
                        },
                    }
                },
            },
        }
    }

    /// The state after `typedef` is declared as `name`.
    pub open spec fn declare_typedef(self, name: Seq<char>, typedef: TypedefTypeView) -> (
        StateView,
        NodeResult,
    ) {
        let (typedefs, r) = declare(self.decls.typedefs, name, typedef, self.duplicate_policy);
        (
            StateView { decls: crate::decls::DeclsView { typedefs, ..self.decls }, ..self },
            match r {
                Ok(_) => Ok(NodeView::Ignored),
                Err(e) => Err(e),
            },
        )
    }
}

pub proof fn lemma_node_constraints_fail(nodes: Seq<NodeView>, n: nat, m: nat)
    requires
        0 < n <= m <= nodes.len(),
        node_constraints_of_first(nodes, n) is Err,
    ensures
        node_constraints_of_first(nodes, m) == node_constraints_of_first(nodes, n),
    decreases m - n,
{
    if n < m {
        lemma_node_constraints_fail(nodes, n, (m - 1) as nat);
    }
}

pub proof fn lemma_tparam_names_fail(nodes: Seq<NodeView>, n: nat, m: nat)
    requires
        0 < n <= m <= nodes.len(),
        tparam_names_of_first(nodes, n) is Err,
    ensures
        tparam_names_of_first(nodes, m) == tparam_names_of_first(nodes, n),
    decreases m - n,
{
    if n < m {
        lemma_tparam_names_fail(nodes, n, (m - 1) as nat);
    }
}

pub proof fn lemma_constraints_fail(s: StateView, constraints: NodeConstraints, n: nat, m: nat)
    requires
        0 < n <= m <= constraints.len(),
        s.constraints_of_first(constraints, n) is Err,
    ensures
        s.constraints_of_first(constraints, m) == s.constraints_of_first(constraints, n),
    decreases m - n,
{
    if n < m {
        lemma_constraints_fail(s, constraints, n, (m - 1) as nat);
    }
}

pub proof fn lemma_tparams_fail(
    s: StateView,
    decls: Seq<TypeParameterDeclView>,
    names: Seq<IdView>,
    n: nat,
    m: nat,
)
    requires
        0 < n <= m <= decls.len(),
        m <= names.len(),
        s.tparams_of_first(decls, names, n) is Err,
    ensures
        s.tparams_of_first(decls, names, m) == s.tparams_of_first(decls, names, n),
    decreases m - n,
{
    if n < m {
        lemma_tparams_fail(s, decls, names, n, (m - 1) as nat);
    }
}

fn variance_of_node(variance: &Node_) -> (r: Variance)
    ensures
        r == variance_of(variance@),
{
    match variance.as_operator() {
        Some((_, TokenKind::Minus)) => Variance::Contravariant,
        Some((_, TokenKind::Plus)) => Variance::Covariant,
        _ => Variance::Invariant,
    }
}

/// The declarations of type parameters with their names, as they are held
/// between the two passes over a list.
pub open spec fn named_decls_view(pairs: Seq<(&TypeParameterDecl, Id)>) -> (
    Seq<TypeParameterDeclView>,
    Seq<IdView>,
) {
    (
        pairs.map_values(|p: (&TypeParameterDecl, Id)| p.0@),
        pairs.map_values(|p: (&TypeParameterDecl, Id)| p.1@),
    )
}

impl<'a> DirectDeclSmartConstructors<'a> {
    /// The constraints among the items of `constraints`.
    fn node_constraints_of(&self, constraints: Node<'a>) -> (r: Result<
        &'a Vec<(ConstraintKind, Node_<'a>)>,
        ParseError,
    >)
        ensures
            match r {
                Ok(found) => result_view(constraints) is Ok && node_constraints_of_first(
                    result_view(constraints)->Ok_0.items(),
                    result_view(constraints)->Ok_0.items().len(),
                ) == Ok::<NodeConstraints, ParseError>(node_constraints_view(found)),
                Err(e) => match result_view(constraints) {
                    Err(e2) => e == e2,
                    Ok(constraints) => node_constraints_of_first(
                        constraints.items(),
                        constraints.items().len(),
                    ) == Err::<NodeConstraints, ParseError>(e),
                },
            },
    {
        let node = match constraints {
            Ok(node) => node,
            Err(e) => {
                return Err(e);
            },
        };
        let nodes = node.as_slice(self.state.arena);
        let ghost views = nodes_view(nodes);
        let mut found: Vec<(ConstraintKind, Node_<'a>)> = Vec::new();
        assert(node_constraints_view(&found) =~= Seq::empty());
        let mut i: usize = 0;
        while i < nodes.len()
            invariant
                i <= nodes.len(),
                views == nodes_view(nodes),
                result_view(constraints) == Ok::<NodeView, ParseError>(node@),
                views == node@.items(),
                node_constraints_of_first(views, i as nat) == Ok::<NodeConstraints, ParseError>(
                    node_constraints_view(&found),
                ),
            decreases nodes.len() - i,
        {
            let ghost before = node_constraints_view(&found);
            match nodes[i].as_type_constraint() {
                Some((kind, hint)) => {
                    found.push((kind, hint));
                    assert(node_constraints_view(&found) =~= before.push((kind, hint@)));
                },
                None => {
                    if !nodes[i].is_ignored() {
                        proof {
                            lemma_node_constraints_fail(views, (i + 1) as nat, nodes.len() as nat);
                        }
                        return Err(ParseError::ExpectedTypeConstraint);
                    }
                },
            }
            i = i + 1;
        }
        let ghost built = node_constraints_view(&found);
        let r = self.allocate(found);
        assert(node_constraints_view(r) =~= built);
        Ok(r)
    }

    pub fn make_type_parameter(
        &mut self,
        _arg0: Node<'a>,
        reify: Node<'a>,
        variance: Node<'a>,
        name: Node<'a>,
        constraints: Node<'a>,
    ) -> (r: Node<'a>)
        ensures
            final(self)@ == old(self)@,
            result_view(r) == make_type_parameter(
                result_view(reify),
                result_view(variance),
                result_view(name),
                result_view(constraints),
            ),
    {
        let constraints = match self.node_constraints_of(constraints) {
            Ok(constraints) => constraints,
            Err(e) => {
                return Err(e);
            },
        };
        let name = match name {
            Ok(name) => name,
            Err(e) => {
                return Err(e);
            },
        };
        let variance = match variance {
            Ok(variance) => variance,
            Err(e) => {
                return Err(e);
            },
        };
        let reify = match reify {
            Ok(reify) => reify,
            Err(e) => {
                return Err(e);
            },
        };
        let decl = TypeParameterDecl {
            name,
            reified: if reify.is_token(TokenKind::Reify) {
                ReifyKind::Reified
            } else {
                ReifyKind::Erased
            },
            variance: variance_of_node(&variance),
            constraints,
        };
        Ok(Node_::TypeParameter(self.allocate(decl)).with_view())
    }

    /// The declarations among `nodes` with their names.
    fn named_decls_of(&self, nodes: &'a Vec<Node_<'a>>) -> (r: Result<
        Vec<(&'a TypeParameterDecl<'a>, Id<'a>)>,
        ParseError,
    >)
        ensures
            match r {
                Ok(pairs) => {
                    &&& tparam_names_of_first(nodes_view(nodes), nodes.len() as nat) == Ok::<
                        Seq<IdView>,
                        ParseError,
                    >(named_decls_view(pairs@).1)
                    &&& pairs.len() == nodes.len()
                    &&& forall|i: int|
                        0 <= i < nodes.len() ==> #[trigger] nodes_view(nodes)[i]
                            == NodeView::TypeParameter(Box::new(pairs@[i].0@))
                },
                Err(e) => tparam_names_of_first(nodes_view(nodes), nodes.len() as nat) == Err::<
                    Seq<IdView>,
                    ParseError,
                >(e),
            },
    {
        proof {
            reveal_strlit("");
            assert(""@ =~= Seq::<char>::empty());
        }
        let ghost views = nodes_view(nodes);
        let mut pairs: Vec<(&'a TypeParameterDecl<'a>, Id<'a>)> = Vec::new();
        assert(named_decls_view(pairs@).1 =~= Seq::<IdView>::empty());
        let mut i: usize = 0;
        while i < nodes.len()
            invariant
                i <= nodes.len(),
                views == nodes_view(nodes),
                ""@ == Seq::<char>::empty(),
                pairs.len() == i,
                tparam_names_of_first(views, i as nat) == Ok::<Seq<IdView>, ParseError>(
                    named_decls_view(pairs@).1,
                ),
                forall|k: int|
                    0 <= k < i ==> #[trigger] views[k] == NodeView::TypeParameter(
                        Box::new(pairs@[k].0@),
                    ),
            decreases nodes.len() - i,
        {
            let ghost before = named_decls_view(pairs@).1;
            match nodes[i].as_type_parameter() {
                None => {
                    proof {
                        lemma_tparam_names_fail(views, (i + 1) as nat, nodes.len() as nat);
                    }
                    return Err(ParseError::ExpectedTypeParameter);
                },
                Some(decl) => {
                    match self.get_name("", decl.name) {
                        Err(e) => {
                            proof {
                                lemma_tparam_names_fail(views, (i + 1) as nat, nodes.len() as nat);
                            }
                            return Err(e);
                        },
                        Ok(id) => {
                            pairs.push((decl, id));
                            assert(named_decls_view(pairs@).1 =~= before.push(id@));
                        },
                    }
                },
            }
            i = i + 1;
        }
        Ok(pairs)
    }

    /// The types of `constraints`, each rewritten with the type parameters
    /// in scope.
    fn constraints_of(&self, constraints: &'a Vec<(ConstraintKind, Node_<'a>)>) -> (r: Result<
        &'a Vec<(ConstraintKind, Ty<'a>)>,
        ParseError,
    >)
        ensures
            match r {
                Ok(tys) => self@.constraints_of_first(
                    node_constraints_view(constraints),
                    constraints.len() as nat,
                ) == Ok::<Seq<(ConstraintKind, TyView)>, ParseError>(constraints_view(tys)),
                Err(e) => self@.constraints_of_first(
                    node_constraints_view(constraints),
                    constraints.len() as nat,
                ) == Err::<Seq<(ConstraintKind, TyView)>, ParseError>(e),
            },
    {
        let ghost views = node_constraints_view(constraints);
        let mut tys: Vec<(ConstraintKind, Ty<'a>)> = Vec::new();
        assert(constraints_view(&tys) =~= Seq::empty());
        let mut i: usize = 0;
        while i < constraints.len()
            invariant
                i <= constraints.len(),
                views == node_constraints_view(constraints),
                self@.constraints_of_first(views, i as nat) == Ok::<
                    Seq<(ConstraintKind, TyView)>,
                    ParseError,
                >(constraints_view(&tys)),
            decreases constraints.len() - i,
        {
            let ghost before = constraints_view(&tys);
            let (kind, node) = constraints[i];
            match self.node_to_ty(node) {
                Err(e) => {
                    proof {
                        lemma_constraints_fail(
                            self@,
                            views,
                            (i + 1) as nat,
                            constraints.len() as nat,
                        );
                    }
                    return Err(e);
                },
                Ok(ty) => {
                    let ty = self.convert_tapply_to_tgeneric(ty);
                    tys.push((kind, ty));
                    assert(constraints_view(&tys) =~= before.push((kind, ty@)));
                },
            }
            i = i + 1;
        }
        let ghost built = constraints_view(&tys);
        let r = self.allocate(tys);
        assert(constraints_view(r) =~= built);
        Ok(r)
    }

    /// The type parameters that the declarations `pairs` stand for.
    fn tparams_of(&self, pairs: &Vec<(&'a TypeParameterDecl<'a>, Id<'a>)>) -> (r: Result<
        &'a Vec<Tparam<'a>>,
        ParseError,
    >)
        ensures
            match r {
                Ok(tparams) => self@.tparams_of_first(
                    named_decls_view(pairs@).0,
                    named_decls_view(pairs@).1,
                    pairs.len() as nat,
                ) == Ok::<Seq<TparamView>, ParseError>(tparams_view(tparams)),
                Err(e) => self@.tparams_of_first(
                    named_decls_view(pairs@).0,
                    named_decls_view(pairs@).1,
                    pairs.len() as nat,
                ) == Err::<Seq<TparamView>, ParseError>(e),
            },
    {
        let ghost decls = named_decls_view(pairs@).0;
        let ghost names = named_decls_view(pairs@).1;
        let mut tparams: Vec<Tparam<'a>> = Vec::new();
        assert(tparams_view(&tparams) =~= Seq::<TparamView>::empty());
        let mut i: usize = 0;
        while i < pairs.len()
            invariant
                i <= pairs.len(),
                decls == named_decls_view(pairs@).0,
                names == named_decls_view(pairs@).1,
                self@.tparams_of_first(decls, names, i as nat) == Ok::<
                    Seq<TparamView>,
                    ParseError,
                >(tparams_view(&tparams)),
            decreases pairs.len() - i,
        {
            let ghost before = tparams_view(&tparams);
            let (decl, name) = pairs[i];
            assert(decls[i as int] == decl@);
            assert(names[i as int] == name@);
            match self.constraints_of(decl.constraints) {
                Err(e) => {
                    proof {
                        lemma_tparams_fail(self@, decls, names, (i + 1) as nat, pairs.len() as nat);
                    }
                    return Err(e);
                },
                Ok(constraints) => {
                    let tparam = Tparam {
                        variance: decl.variance,
                        name,
                        constraints,
                        reified: decl.reified,
                    };
                    tparams.push(tparam);
                    assert(tparams_view(&tparams) =~= before.push(tparam@));
                },
            }
            i = i + 1;
        }
        let ghost built = tparams_view(&tparams);
        let r = self.allocate(tparams);
        assert(tparams_view(r) =~= built);
        Ok(r)
    }

    /// Opens a scope with the names of `pairs`.
    fn push_type_params(&mut self, pairs: &Vec<(&'a TypeParameterDecl<'a>, Id<'a>)>)
        ensures
            final(self)@ == old(self)@.push_type_params(id_texts(named_decls_view(pairs@).1)),
    {
        let mut names: Vec<&'a str> = Vec::new();
        let mut i: usize = 0;
        while i < pairs.len()
            invariant
                i <= pairs.len(),
                names.len() == i,
                forall|k: int| 0 <= k < i ==> (#[trigger] names@[k])@ == pairs@[k].1@.1,
            decreases pairs.len() - i,
        {
            names.push(pairs[i].1.1);
            i = i + 1;
        }
        let names = self.allocate(names);
        assert(names_view(names@) =~= id_texts(named_decls_view(pairs@).1));
        self.state.type_parameters.push(names);
        assert(self@.type_parameters =~= old(self)@.type_parameters.push(names_view(names@)));
    }

    pub fn make_type_parameters(&mut self, _lt: Node<'a>, tparams: Node<'a>, _gt: Node<'a>) -> (r:
        Node<'a>)
        ensures
            old(self)@.wf() ==> final(self)@.wf(),
            final(self)@ == old(self)@.make_type_parameters(result_view(tparams)).0,
            result_view(r) == old(self)@.make_type_parameters(result_view(tparams)).1,
    {
        let tparams = match tparams {
            Ok(tparams) => tparams,
            Err(e) => {
                return Err(e);
            },
        };
        let nodes = tparams.as_slice(self.state.arena);
        let pairs = match self.named_decls_of(nodes) {
            Ok(pairs) => pairs,
            Err(e) => {
                return Err(e);
            },
        };
        proof {
            let decls = tparams@.items().map_values(|n: NodeView| *n->TypeParameter_0);
            assert(decls =~= named_decls_view(pairs@).0);
        }
        self.push_type_params(&pairs);
        match self.tparams_of(&pairs) {
            Err(e) => Err(e),
            Ok(tparams) => Ok(Node_::TypeParameters(tparams).with_view()),
        }
    }

    /// The type of a constraint `as T`, where `constraint` is one.
    pub fn constraint_ty(&self, constraint: Node_<'a>) -> (r: Result<Option<Ty<'a>>, ParseError>)
        ensures
            crate::type_specifiers::opt_ty_result_view(r) == self@.constraint_ty(constraint@),
    {
        match constraint.as_type_constraint() {
            Some((_, hint)) => match self.node_to_ty(hint) {
                Err(e) => Err(e),
                Ok(ty) => Ok(Some(ty)),
            },
            None => Ok(None),
        }
    }

    /// Declares `typedef` as `name`.
    fn declare_typedef(&mut self, name: &'a str, typedef: TypedefType<'a>) -> (r: Node<'a>)
        requires
            old(self)@.wf(),
        ensures
            final(self)@.wf(),
            final(self)@ == old(self)@.declare_typedef(name@, typedef@).0,
            result_view(r) == old(self)@.declare_typedef(name@, typedef@).1,
    {
        let policy = self.state.duplicate_policy;
        match self.state.decls.add_typedef(name, typedef, policy) {
            Ok(_) => Ok(Node_::Ignored.with_view()),
            Err(e) => Err(e),
        }
    }

    pub fn make_alias_declaration(
        &mut self,
        _attributes: Node<'a>,
        keyword: Node<'a>,
        name: Node<'a>,
        generic_params: Node<'a>,
        constraint: Node<'a>,
        _equal: Node<'a>,
        aliased_type: Node<'a>,
        _semicolon: Node<'a>,
    ) -> (r: Node<'a>)
        requires
            old(self)@.wf(),
        ensures
            final(self)@.wf(),
            final(self)@ == old(self)@.make_alias_declaration(
                result_view(keyword),
                result_view(name),
                result_view(generic_params),
                result_view(constraint),
                result_view(aliased_type),
            ).0,
            result_view(r) == old(self)@.make_alias_declaration(
                result_view(keyword),
                result_view(name),
                result_view(generic_params),
                result_view(constraint),
                result_view(aliased_type),
            ).1,
    {
        let name = match name {
            Ok(name) => name,
            Err(e) => {
                return Err(e);
            },
        };
        let aliased_type = match aliased_type {
            Ok(aliased_type) => aliased_type,
            Err(e) => {
                return Err(e);
            },
        };
        if name.is_ignored() {
            return Ok(Node_::Ignored.with_view());
        }
        let id = match self.get_name(self.state.namespace_builder.current_namespace(), name) {
            Ok(id) => id,
            Err(e) => {
                return Err(e);
            },
        };
        let ty = match self.node_to_ty(aliased_type) {
            Ok(ty) => ty,
            Err(e) => {
                return Err(e);
            },
        };
        let constraint = match constraint {
            Ok(constraint) => constraint,
            Err(e) => {
                return Err(e);
            },
        };
        let constraint = match self.constraint_ty(constraint) {
            Ok(constraint) => constraint,
            Err(e) => {
                return Err(e);
            },
        };
        let generic_params = match generic_params {
            Ok(generic_params) => generic_params,
            Err(e) => {
                return Err(e);
            },
        };
        // The type parameters go out of scope only now that every type
        // inside the alias is built.
        let tparams = match self.pop_type_params(generic_params) {
            Ok(tparams) => tparams,
            Err(e) => {
                return Err(e);
            },
        };
        let keyword = match keyword {
            Ok(keyword) => keyword,
            Err(e) => {
                return Err(e);
            },
        };
        let vis = if keyword.is_token(TokenKind::Newtype) {
            TypedefVisibility::Opaque
        } else {
            TypedefVisibility::Transparent
        };
        self.declare_typedef(
            id.1,
            TypedefType { pos: id.0, vis, tparams, constraint, type_: ty },
        )
    }
}

} // verus!
