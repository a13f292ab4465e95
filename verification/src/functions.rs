//! Function signatures: from the header of a function and what stands
//! around it to the type of the function.

use crate::aast::Tprim;
use crate::ast_defs::{FunKind, Id, IdView};
use crate::attributes::AttributesView;
use crate::error::ParseError;
use crate::lists::{is_zero_node, node_is_zero};
use crate::names::get_name;
use crate::node::{
    contains_token, nodes_view, FunParamDecl, FunParamDeclView, FunctionHeader,
    FunctionHeaderView, NodeView, Node_,
};
use crate::pos::{Pos, PosView};
use crate::shallow_decl_defs::{props_view, ShallowProp, ShallowPropView};
use crate::state::{DirectDeclSmartConstructors, StateView};
use crate::text::{str_trim_start_matches, trim_start_matches};
use crate::token_kind::TokenKind;
use crate::type_hint::{make_tany, tany, tany_with_pos};
use crate::typing_defs::{
    fun_params_view, FunArity, FunArityView, FunParam, FunParamFlags, FunParamView, FunType,
    FunTypeFlags, FunTypeView, ParamMode, PossiblyEnforcedTy, PossiblyEnforcedTyView, Reactivity,
    ReactivityView, Reason, ReasonView, Ty, TyView, TyView_, Ty_,
};
use vstd::prelude::*;

verus! {

/// The character that begins the name of a variable.
pub const DOLLAR: char = '$';

/// The name of a variable without its `$`.
pub open spec fn spec_strip_dollar_prefix(name: Seq<char>) -> Seq<char> {
    trim_start_matches(name, DOLLAR)
}

/// The name of a variable without its `$`.
pub fn strip_dollar_prefix<'a>(name: &'a str) -> (r: &'a str)
    ensures
        r@ == spec_strip_dollar_prefix(name@),
{
    str_trim_start_matches(name, DOLLAR)
}

/// The kind of a function: a coroutine where it is marked so; else a
/// generator exactly where a `yield` was seen in its body, and asynchronous
/// exactly where it is marked `async`.
pub open spec fn spec_fun_kind(is_async: bool, is_coroutine: bool, has_yield: bool) -> FunKind {
    if is_coroutine {
        FunKind::FCoroutine
    } else if has_yield {
        if is_async {
            FunKind::FAsyncGenerator
        } else {
            FunKind::FGenerator
        }
    } else {
        if is_async {
            FunKind::FAsync
        } else {
            FunKind::FSync
        }
    }
}

#[verifier::when_used_as_spec(spec_fun_kind)]
pub fn fun_kind(is_async: bool, is_coroutine: bool, has_yield: bool) -> (r: FunKind)
    ensures
        r == spec_fun_kind(is_async, is_coroutine, has_yield),
{
    if is_coroutine {
        FunKind::FCoroutine
    } else if has_yield {
        if is_async {
            FunKind::FAsyncGenerator
        } else {
            FunKind::FGenerator
        }
    } else {
        if is_async {
            FunKind::FAsync
        } else {
            FunKind::FSync
        }
    }
}

/// The flags of a function of kind `kind` with the attributes `attributes`.
pub open spec fn fun_type_flags(kind: FunKind, attributes: AttributesView) -> FunTypeFlags {
    FunTypeFlags {
        is_async: kind == FunKind::FAsync || kind == FunKind::FAsyncGenerator,
        generator: kind == FunKind::FGenerator || kind == FunKind::FAsyncGenerator,
        is_coroutine: kind == FunKind::FCoroutine,
        returns_mutable: attributes.returns_mutable,
        returns_void_to_rx: attributes.returns_void_to_rx,
        mutability: attributes.param_mutability,
    }
}

/// The type of a parameter whose attributes say that it is at most as
/// reactive as the function: a function type is marked so, any other type
/// stays.
pub open spec fn at_most_rx_as_func(ty: TyView) -> TyView {
    match *ty.1 {
        TyView_::Tfun(ft) => TyView(
            ty.0,
            Box::new(TyView_::Tfun(FunTypeView { reactive: ReactivityView::RxVar(None), ..ft })),
        ),
        _ => ty,
    }
}

/// The parameters read so far: the standard ones, the properties that
/// promoted parameters declare, and the variadic parameter if there is one.
pub struct FunParamsView {
    pub params: Seq<FunParamView>,
    pub properties: Seq<ShallowPropView>,
    pub arity: FunArityView,
}

impl FunParamsView {
    pub open spec fn empty() -> FunParamsView {
        FunParamsView {
            params: Seq::empty(),
            properties: Seq::empty(),
            arity: FunArityView::Fstandard,
        }
    }

    /// The parameters with `param` behind them. A variadic parameter without
    /// a default becomes the variadic slot, where that is free; any other
    /// parameter is a standard one.
    pub open spec fn with_param(self, param: FunParamView, variadic: bool) -> FunParamsView {
        if self.arity is Fstandard && !param.flags.has_default && variadic {
            FunParamsView { arity: FunArityView::Fvariadic(param), ..self }
        } else {
            FunParamsView { params: self.params.push(param), ..self }
        }
    }

    pub open spec fn with_property(self, property: Option<ShallowPropView>) -> FunParamsView {
        match property {
            Some(property) => FunParamsView {
                properties: self.properties.push(property),
                ..self
            },
            None => self,
        }
    }
}

impl StateView {
    /// The property that a parameter with a visibility modifier declares.
    pub open spec fn promoted_property(self, decl: FunParamDeclView) -> Option<ShallowPropView> {
        match decl.visibility.as_visibility() {
            Ok(visibility) => Some(
                ShallowPropView {
                    const_: false,
                    lateinit: false,
                    lsb: false,
                    name: IdView(decl.id.0, spec_strip_dollar_prefix(decl.id.1)),
                    needs_init: true,
                    type_: match self.node_to_ty(decl.hint) {
                        Ok(ty) => Some(ty),
                        Err(_) => None,
                    },
                    abstract_: false,
                    visibility,
                },
            ),
            Err(_) => None,
        }
    }

    /// The parameter that a declaration stands for.
    pub open spec fn fun_param(self, decl: FunParamDeclView) -> Result<FunParamView, ParseError> {
        match decl.attributes.as_attributes() {
            Err(e) => Err(e),
            Ok(attributes) => {
                let type_ = if decl.hint is Ignored {
                    Ok(tany())
                } else {
                    match self.node_to_ty(decl.hint) {
                        Err(e) => Err(e),
                        Ok(ty) => Ok(
                            if attributes.at_most_rx_as_func {
                                at_most_rx_as_func(ty)
                            } else {
                                ty
                            },
                        ),
                    }
                };
                match type_ {
                    Err(e) => Err(e),
                    Ok(type_) => Ok(
                        FunParamView {
                            pos: decl.id.0,
                            name: Some(decl.id.1),
                            type_: PossiblyEnforcedTyView { enforced: false, type_ },
                            flags: FunParamFlags {
                                inout: decl.kind == ParamMode::FPinout,
                                has_default: !decl.initializer.is_ignored(),
                                mutability: attributes.param_mutability,
                            },
                        },
                    ),
                }
            },
        }
    }

    /// The parameters that the first `n` of `nodes` declare.
    pub open spec fn fun_params_of_first(self, nodes: Seq<NodeView>, n: nat) -> Result<
        FunParamsView,
        ParseError,
    >
        decreases n,
    {
        if n == 0 || n > nodes.len() {
            Ok(FunParamsView::empty())
        } else {
            match self.fun_params_of_first(nodes, (n - 1) as nat) {
                Err(e) => Err(e),
                Ok(acc) => match nodes[n - 1] {
                    NodeView::FunParam(decl) => match self.fun_param(*decl) {
                        Err(e) => Err(e),
                        Ok(param) => Ok(
                            acc.with_property(self.promoted_property(*decl)).with_param(
                                param,
                                decl.variadic,
                            ),
                        ),
                    },
                    _ => Err(ParseError::ExpectedFunctionParameter),
                },
            }
        }
    }

    /// The parameters that a parameter list declares.
    pub open spec fn as_fun_params(self, list: NodeView) -> Result<FunParamsView, ParseError> {
        match list {
            NodeView::List(nodes) => self.fun_params_of_first(nodes, nodes.len()),
            NodeView::Ignored => Ok(FunParamsView::empty()),
            _ => Err(ParseError::ExpectedParameterList),
        }
    }

    /// The return type of a function: `void` for a constructor; else what
    /// the hint says; else, where the hint says nothing that can be read, the
    /// type of which nothing is known, witnessed at the name.
    pub open spec fn return_type(self, header: FunctionHeaderView) -> TyView {
        match header.name {
            NodeView::Construct(pos) => TyView(
                ReasonView::Rwitness(pos),
                Box::new(TyView_::Tprim(Tprim::Tvoid)),
            ),
            _ => match self.node_to_ty(header.ret_hint) {
                Ok(ty) => ty,
                Err(_) => tany_with_pos(
                    match header.name.get_pos() {
                        Ok(pos) => pos,
                        Err(_) => PosView::none(),
                    },
                ),
            },
        }
    }

    /// The kind of the function with the header `header` and the body
    /// `body`: a generator where the body holds a `yield` at any depth.
    pub open spec fn fun_kind_of(header: FunctionHeaderView, body: NodeView) -> FunKind {
        spec_fun_kind(
            contains_token(header.modifiers.items(), TokenKind::Async),
            contains_token(header.modifiers.items(), TokenKind::Coroutine),
            !is_zero_node(body),
        )
    }

    /// The name, the type and the promoted properties of the function with
    /// the header `header`, declared under `namespace`, and the state after
    /// its type parameters went out of scope. On failure the state is as it
    /// was.
    pub open spec fn function_into_ty(
        self,
        namespace: Seq<char>,
        attributes: NodeView,
        header: FunctionHeaderView,
        body: NodeView,
    ) -> (StateView, Result<(IdView, TyView, Seq<ShallowPropView>), ParseError>) {
        match get_name(namespace, header.name) {
            Err(e) => (self, Err(e)),
            Ok(id) => match self.as_fun_params(header.param_list) {
                Err(e) => (self, Err(e)),
                Ok(params) => match attributes.as_attributes() {
                    Err(e) => (self, Err(e)),
                    Ok(attributes) => match self.pop_type_params(header.type_params) {
                        (_, Err(e)) => (self, Err(e)),
                        (after, Ok(tparams)) => {
                            let ft = FunTypeView {
                                arity: params.arity,
                                tparams,
                                params: params.params,
                                ret: PossiblyEnforcedTyView {
                                    enforced: false,
                                    type_: self.return_type(header),
                                },
                                reactive: attributes.reactivity,
                                flags: fun_type_flags(Self::fun_kind_of(header, body), attributes),
                            };
                            (
                                after,
                                Ok(
                                    (
                                        id,
                                        TyView(
                                            ReasonView::Rwitness(id.0),
                                            Box::new(TyView_::Tfun(ft)),
                                        ),
                                        params.properties,
                                    ),
                                ),
                            )
                        },
                    },
                },
            },
        }
    }
}

/// Once a node is no parameter, or a parameter fails, the whole list fails.
pub proof fn lemma_fun_params_fail(s: StateView, nodes: Seq<NodeView>, n: nat, m: nat)
    requires
        0 < n <= m <= nodes.len(),
        s.fun_params_of_first(nodes, n) is Err,
    ensures
        s.fun_params_of_first(nodes, m) == s.fun_params_of_first(nodes, n),
    decreases m - n,
{
    if n < m {
        lemma_fun_params_fail(s, nodes, n, (m - 1) as nat);
    }
}

/// The parameters as they are held while a list is read.
pub struct FunParams<'a> {
    pub params: Vec<FunParam<'a>>,
    pub properties: Vec<ShallowProp<'a>>,
    pub arity: FunArity<'a>,
}

impl<'a> View for FunParams<'a> {
    type V = FunParamsView;

    open spec fn view(&self) -> FunParamsView {
        FunParamsView {
            params: Seq::new(self.params.len() as nat, |k: int| self.params@[k]@),
            properties: props_view(self.properties@),
            arity: match self.arity {
                FunArity::Fstandard => FunArityView::Fstandard,
                FunArity::Fvariadic(p) => FunArityView::Fvariadic(p@),
            },
        }
    }
}

pub open spec fn opt_prop_view(p: Option<ShallowProp>) -> Option<ShallowPropView> {
    match p {
        Some(p) => Some(p@),
        None => None,
    }
}

impl<'a> DirectDeclSmartConstructors<'a> {
    /// The property that a parameter with a visibility modifier declares.
    fn promoted_property(&self, decl: &'a FunParamDecl<'a>) -> (r: Option<ShallowProp<'a>>)
        ensures
            opt_prop_view(r) == self@.promoted_property(decl@),
    {
        match decl.visibility.as_visibility() {
            Ok(visibility) => {
                let Id(pos, name) = decl.id;
                let name = str_trim_start_matches(name, DOLLAR);
                Some(
                    ShallowProp {
                        const_: false,
                        lateinit: false,
                        lsb: false,
                        name: Id(pos, name),
                        needs_init: true,
                        type_: match self.node_to_ty(decl.hint) {
                            Ok(ty) => Some(ty),
                            Err(_) => None,
                        },
                        abstract_: false,
                        visibility,
                    },
                )
            },
            Err(_) => None,
        }
    }

    /// The type `ty`, marked as at most as reactive as the function that
    /// takes it, where it is a function type.
    fn at_most_rx_as_func(&self, ty: Ty<'a>) -> (r: Ty<'a>)
        ensures
            r@ == at_most_rx_as_func(ty@),
    {
        assert(ty@ == TyView(ty.0@, Box::new((*ty.1)@)));
        match *ty.1 {
            Ty_::Tfun(fun_type) => {
                assert((*ty.1)@ == TyView_::Tfun(fun_type@));
                let marked = FunType {
                    arity: fun_type.arity,
                    tparams: fun_type.tparams,
                    params: fun_type.params,
                    ret: fun_type.ret,
                    reactive: Reactivity::RxVar(None),
                    flags: fun_type.flags,
                };
                let marked = self.allocate(marked);
                assert(marked@ == FunTypeView { reactive: ReactivityView::RxVar(None), ..fun_type@ });
                self.mk_ty(ty.0, Ty_::Tfun(marked))
            },
            _ => ty,
        }
    }

    /// The parameter that `decl` stands for.
    fn fun_param(&self, decl: &'a FunParamDecl<'a>) -> (r: Result<FunParam<'a>, ParseError>)
        ensures
            match r {
                Ok(param) => self@.fun_param(decl@) == Ok::<FunParamView, ParseError>(param@),
                Err(e) => self@.fun_param(decl@) == Err::<FunParamView, ParseError>(e),
            },
    {
        let attributes = match decl.attributes.as_attributes(self.state.arena) {
            Ok(attributes) => attributes,
            Err(e) => {
                return Err(e);
            },
        };
        let type_ = if decl.hint.is_ignored() {
            make_tany(self)
        } else {
            match self.node_to_ty(decl.hint) {
                Err(e) => {
                    return Err(e);
                },
                Ok(ty) => if attributes.at_most_rx_as_func {
                    self.at_most_rx_as_func(ty)
                } else {
                    ty
                },
            }
        };
        let flags = FunParamFlags {
            inout: match decl.kind {
                ParamMode::FPinout => true,
                ParamMode::FPnormal => false,
            },
            has_default: !decl.initializer.is_ignored(),
            mutability: attributes.param_mutability,
        };
        Ok(
            FunParam {
                pos: decl.id.0,
                name: Some(decl.id.1),
                type_: PossiblyEnforcedTy { enforced: false, type_ },
                flags,
            },
        )
    }

    /// The parameters that `nodes` declare.
    fn fun_params_of(&self, nodes: &'a Vec<Node_<'a>>) -> (r: Result<FunParams<'a>, ParseError>)
        ensures
            match r {
                Ok(params) => self@.fun_params_of_first(nodes_view(nodes), nodes.len() as nat)
                    == Ok::<FunParamsView, ParseError>(params@),
                Err(e) => self@.fun_params_of_first(nodes_view(nodes), nodes.len() as nat) == Err::<
                    FunParamsView,
                    ParseError,
                >(e),
            },
    {
        let ghost views = nodes_view(nodes);
        let mut acc = FunParams {
            params: Vec::new(),
            properties: Vec::new(),
            arity: FunArity::Fstandard,
        };
        assert(acc@.params =~= Seq::<FunParamView>::empty());
        assert(acc@.properties =~= Seq::<ShallowPropView>::empty());
        let mut i: usize = 0;
        while i < nodes.len()
            invariant
                i <= nodes.len(),
                views == nodes_view(nodes),
                self@.fun_params_of_first(views, i as nat) == Ok::<FunParamsView, ParseError>(acc@),
            decreases nodes.len() - i,
        {
            assert(views[i as int] == nodes[i as int]@);
            let ghost before = acc@;
            match nodes[i].as_fun_param() {
                None => {
                    proof {
                        lemma_fun_params_fail(self@, views, (i + 1) as nat, nodes.len() as nat);
                    }
                    return Err(ParseError::ExpectedFunctionParameter);
                },
                Some(decl) => {
                    match self.promoted_property(decl) {
                        Some(property) => {
                            acc.properties.push(property);
                            assert(acc@.properties =~= before.properties.push(property@));
                        },
                        None => {},
                    }
                    assert(acc@ == before.with_property(self@.promoted_property(decl@)));
                    let ghost middle = acc@;
                    match self.fun_param(decl) {
                        Err(e) => {
                            proof {
                                lemma_fun_params_fail(
                                    self@,
                                    views,
                                    (i + 1) as nat,
                                    nodes.len() as nat,
                                );
                            }
                            return Err(e);
                        },
                        Ok(param) => {
                            let free = match acc.arity {
                                FunArity::Fstandard => true,
                                FunArity::Fvariadic(_) => false,
                            };
                            if free && !param.flags.has_default && decl.variadic {
                                acc.arity = FunArity::Fvariadic(self.allocate(param));
                            } else {
                                acc.params.push(param);
                                assert(acc@.params =~= middle.params.push(param@));
                            }
                            assert(acc@ == middle.with_param(param@, decl.variadic));
                        },
                    }
                },
            }
            i = i + 1;
        }
        Ok(acc)
    }

    /// The parameters that the parameter list `list` declares: the standard
    /// ones, the properties that promoted parameters declare, and the
    /// variadic one.
    pub fn as_fun_params(&self, list: Node_<'a>) -> (r: Result<
        (&'a Vec<FunParam<'a>>, &'a Vec<ShallowProp<'a>>, FunArity<'a>),
        ParseError,
    >)
        ensures
            match r {
                Ok((params, properties, arity)) => self@.as_fun_params(list@) == Ok::<
                    FunParamsView,
                    ParseError,
                >(
                    FunParamsView {
                        params: fun_params_view(params),
                        properties: props_view(properties@),
                        arity: match arity {
                            FunArity::Fstandard => FunArityView::Fstandard,
                            FunArity::Fvariadic(p) => FunArityView::Fvariadic(p@),
                        },
                    },
                ),
                Err(e) => self@.as_fun_params(list@) == Err::<FunParamsView, ParseError>(e),
            },
    {
        if list.is_ignored() {
            let params: Vec<FunParam<'a>> = Vec::new();
            let params = self.allocate(params);
            let properties: Vec<ShallowProp<'a>> = Vec::new();
            let properties = self.allocate(properties);
            assert(fun_params_view(params) =~= Seq::<FunParamView>::empty());
            assert(props_view(properties@) =~= Seq::<ShallowPropView>::empty());
            return Ok((params, properties, FunArity::Fstandard));
        }
        match list.as_list() {
            Some(nodes) => {
                match self.fun_params_of(nodes) {
                    Err(e) => Err(e),
                    Ok(acc) => {
                        let ghost view = acc@;
                        let FunParams { params, properties, arity } = acc;
                        let params = self.allocate(params);
                        let properties = self.allocate(properties);
                        assert(fun_params_view(params) =~= view.params);
                        Ok((params, properties, arity))
                    },
                }
            },
            None => Err(ParseError::ExpectedParameterList),
        }
    }

    /// The return type of the function with the header `header`.
    fn return_type(&self, header: &'a FunctionHeader<'a>) -> (r: Ty<'a>)
        ensures
            r@ == self@.return_type(header@),
    {
        match header.name.as_construct() {
            Some(pos) => self.mk_ty(Reason::Rwitness(pos), Ty_::Tprim(Tprim::Tvoid)),
            None => match self.node_to_ty(header.ret_hint) {
                Ok(ty) => ty,
                Err(_) => {
                    let pos = match header.name.get_pos() {
                        Ok(pos) => pos,
                        Err(_) => Pos::make_none(),
                    };
                    self.tany_with_pos(pos)
                },
            },
        }
    }

    /// The name, the type and the promoted properties of the function with
    /// the header `header`, declared under `namespace`. The scope of its type
    /// parameters is closed.
    pub fn function_into_ty(
        &mut self,
        namespace: &str,
        attributes: Node_<'a>,
        header: &'a FunctionHeader<'a>,
        body: Node_<'a>,
    ) -> (r: Result<(Id<'a>, Ty<'a>, &'a Vec<ShallowProp<'a>>), ParseError>)
        ensures
            final(self)@ == old(self)@.function_into_ty(namespace@, attributes@, header@, body@).0,
            match r {
                Ok((id, ty, properties)) => old(self)@.function_into_ty(
                    namespace@,
                    attributes@,
                    header@,
                    body@,
                ).1 == Ok::<(IdView, TyView, Seq<ShallowPropView>), ParseError>(
                    (id@, ty@, props_view(properties@)),
                ),
                Err(e) => old(self)@.function_into_ty(namespace@, attributes@, header@, body@).1
                    == Err::<(IdView, TyView, Seq<ShallowPropView>), ParseError>(e),
            },
    {
        let id = match self.get_name(namespace, header.name) {
            Ok(id) => id,
            Err(e) => {
                return Err(e);
            },
        };
        let (params, properties, arity) = match self.as_fun_params(header.param_list) {
            Ok(params) => params,
            Err(e) => {
                return Err(e);
            },
        };
        let type_ = self.return_type(header);
        let modifiers = header.modifiers.as_slice(self.state.arena);
        let is_async = Node_::any_token(modifiers, TokenKind::Async);
        let is_coroutine = Node_::any_token(modifiers, TokenKind::Coroutine);
        let has_yield = !node_is_zero(body);
        let kind = fun_kind(is_async, is_coroutine, has_yield);
        let attributes = match attributes.as_attributes(self.state.arena) {
            Ok(attributes) => attributes,
            Err(e) => {
                return Err(e);
            },
        };
        let flags = FunTypeFlags {
            is_async: match kind {
                FunKind::FAsync => true,
                FunKind::FAsyncGenerator => true,
                _ => false,
            },
            generator: match kind {
                FunKind::FGenerator => true,
                FunKind::FAsyncGenerator => true,
                _ => false,
            },
            is_coroutine: match kind {
                FunKind::FCoroutine => true,
                _ => false,
            },
            returns_mutable: attributes.returns_mutable,
            returns_void_to_rx: attributes.returns_void_to_rx,
            mutability: attributes.param_mutability,
        };
        // The type parameters go out of scope only now that every type
        // inside the signature is built.
        let tparams = match self.pop_type_params(header.type_params) {
            Ok(tparams) => tparams,
            Err(e) => {
                return Err(e);
            },
        };
        let ft = self.allocate(
            FunType {
                arity,
                tparams,
                params,
                ret: PossiblyEnforcedTy { enforced: false, type_ },
                reactive: attributes.reactivity,
                flags,
            },
        );
        let ty = self.mk_ty(Reason::Rwitness(id.0), Ty_::Tfun(ft));
        Ok((id, ty, properties))
    }
}

} // verus!
