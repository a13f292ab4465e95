//! Semantic types: what a type hint means once names are resolved.

use crate::aast::{
    user_attributes_view, ReifyKind, Tprim, TypedefVisibility, UserAttribute, UserAttributeView,
};
use crate::ast_defs::{
    ids_view, ConstraintKind, Id, IdView, ShapeFieldName, ShapeFieldNameView, Variance,
};
use crate::pos::{Pos, PosView};
use vstd::prelude::*;

verus! {

/// Why a type is what it is: read off a syntactic witness, or stated by a
/// hint.
#[derive(Clone, Copy, Debug, PartialEq, Eq)]
pub enum Reason<'a> {
    Rnone,
    Rwitness(Pos<'a>),
    Rhint(Pos<'a>),
}

pub enum ReasonView {
    Rnone,
    Rwitness(PosView),
    Rhint(PosView),
}

impl<'a> View for Reason<'a> {
    type V = ReasonView;

    open spec fn view(&self) -> ReasonView {
        match *self {
            Reason::Rnone => ReasonView::Rnone,
            Reason::Rwitness(p) => ReasonView::Rwitness(p@),
            Reason::Rhint(p) => ReasonView::Rhint(p@),
        }
    }
}

impl ReasonView {
    /// The position that the reason points to, if any.
    pub open spec fn pos(self) -> Option<PosView> {
        match self {
            ReasonView::Rnone => None,
            ReasonView::Rwitness(p) => Some(p),
            ReasonView::Rhint(p) => Some(p),
        }
    }
}

impl<'a> Reason<'a> {
    pub fn pos(&self) -> (r: Option<Pos<'a>>)
        ensures
            r matches Some(p) ==> self@.pos() == Some(p@),
            r is None ==> self@.pos() is None,
    {
        match *self {
            Reason::Rnone => None,
            Reason::Rwitness(p) => Some(p),
            Reason::Rhint(p) => Some(p),
        }
    }
}

/// Whether a parameter is passed by value or `inout`.
#[derive(Clone, Copy, Debug, PartialEq, Eq, Structural)]
pub enum ParamMode {
    FPnormal,
    FPinout,
}

#[derive(Clone, Copy, Debug, PartialEq, Eq, Structural)]
pub enum ParamMutability {
    ParamOwnedMutable,
    ParamBorrowedMutable,
    ParamMaybeMutable,
}

/// Whether a shape admits fields beyond those it lists.
#[derive(Clone, Copy, Debug, PartialEq, Eq, Structural)]
pub enum ShapeKind {
    ClosedShape,
    OpenShape,
}

/// The flags of a function type.
#[derive(Clone, Copy, Debug, PartialEq, Eq, Structural)]
pub struct FunTypeFlags {
    pub is_async: bool,
    pub generator: bool,
    pub is_coroutine: bool,
    pub returns_mutable: bool,
    pub returns_void_to_rx: bool,
    pub mutability: Option<ParamMutability>,
}

impl FunTypeFlags {
    pub open spec fn empty() -> FunTypeFlags {
        FunTypeFlags {
            is_async: false,
            generator: false,
            is_coroutine: false,
            returns_mutable: false,
            returns_void_to_rx: false,
            mutability: None,
        }
    }
}

/// The flags of a function parameter.
#[derive(Clone, Copy, Debug, PartialEq, Eq, Structural)]
pub struct FunParamFlags {
    pub inout: bool,
    pub has_default: bool,
    pub mutability: Option<ParamMutability>,
}

impl FunParamFlags {
    pub open spec fn empty() -> FunParamFlags {
        FunParamFlags { inout: false, has_default: false, mutability: None }
    }
}

/// A type with the reason for it.
#[derive(Clone, Copy, Debug, PartialEq, Eq)]
pub struct Ty<'a>(pub Reason<'a>, pub &'a Ty_<'a>);

#[derive(Clone, Copy, Debug, PartialEq, Eq)]
pub struct ShapeFieldType<'a> {
    pub optional: bool,
    pub ty: Ty<'a>,
}

/// An access to type constants: the root type and the names that follow it.
#[derive(Clone, Copy, Debug, PartialEq, Eq)]
pub struct TaccessType<'a>(pub Ty<'a>, pub &'a Vec<Id<'a>>);

#[derive(Clone, Copy, Debug, PartialEq, Eq)]
pub enum Ty_<'a> {
    /// The late static bound type of the enclosing class.
    Tthis,
    /// A class, interface, trait or alias by name, applied to type arguments.
    Tapply(Id<'a>, &'a Vec<Ty<'a>>),
    Taccess(TaccessType<'a>),
    /// The legacy `array` with no, one or two type arguments.
    Tarray(Option<Ty<'a>>, Option<Ty<'a>>),
    Tmixed,
    Tlike(Ty<'a>),
    Tany,
    Terr,
    Tnonnull,
    Tdynamic,
    Toption(Ty<'a>),
    Tprim(Tprim),
    Tfun(&'a FunType<'a>),
    Ttuple(&'a Vec<Ty<'a>>),
    /// A shape: whether it is open, and its fields in the order of their
    /// first insertion.
    Tshape(ShapeKind, &'a Vec<(ShapeFieldName<'a>, ShapeFieldType<'a>)>),
    /// A reference to a type parameter in scope.
    Tgeneric(&'a str),
    Tunion(&'a Vec<Ty<'a>>),
    Tdarray(Ty<'a>, Ty<'a>),
    Tvarray(Ty<'a>),
    TvarrayOrDarray(Ty<'a>, Ty<'a>),
}

#[derive(Clone, Copy, Debug, PartialEq, Eq)]
pub enum Reactivity<'a> {
    Nonreactive,
    Local(Option<Ty<'a>>),
    Shallow(Option<Ty<'a>>),
    Reactive(Option<Ty<'a>>),
    Pure(Option<Ty<'a>>),
    MaybeReactive(&'a Reactivity<'a>),
    RxVar(Option<&'a Reactivity<'a>>),
}

#[derive(Clone, Copy, Debug, PartialEq, Eq)]
pub struct PossiblyEnforcedTy<'a> {
    pub enforced: bool,
    pub type_: Ty<'a>,
}

#[derive(Clone, Copy, Debug, PartialEq, Eq)]
pub struct FunParam<'a> {
    pub pos: Pos<'a>,
    pub name: Option<&'a str>,
    pub type_: PossiblyEnforcedTy<'a>,
    pub flags: FunParamFlags,
}

/// Whether a function takes a variadic parameter after its standard ones.
#[derive(Clone, Copy, Debug, PartialEq, Eq)]
pub enum FunArity<'a> {
    Fstandard,
    Fvariadic(&'a FunParam<'a>),
}

#[derive(Clone, Copy, Debug, PartialEq, Eq)]
pub struct Tparam<'a> {
    pub variance: Variance,
    pub name: Id<'a>,
    pub constraints: &'a Vec<(ConstraintKind, Ty<'a>)>,
    pub reified: ReifyKind,
}

#[derive(Clone, Copy, Debug, PartialEq, Eq)]
pub struct FunType<'a> {
    pub arity: FunArity<'a>,
    pub tparams: &'a Vec<Tparam<'a>>,
    pub params: &'a Vec<FunParam<'a>>,
    pub ret: PossiblyEnforcedTy<'a>,
    pub reactive: Reactivity<'a>,
    pub flags: FunTypeFlags,
}

pub struct TyView(pub ReasonView, pub Box<TyView_>);

pub struct ShapeFieldTypeView {
    pub optional: bool,
    pub ty: TyView,
}

pub enum TyView_ {
    Tthis,
    Tapply(IdView, Seq<TyView>),
    Taccess(TyView, Seq<IdView>),
    Tarray(Option<TyView>, Option<TyView>),
    Tmixed,
    Tlike(TyView),
    Tany,
    Terr,
    Tnonnull,
    Tdynamic,
    Toption(TyView),
    Tprim(Tprim),
    Tfun(FunTypeView),
    Ttuple(Seq<TyView>),
    Tshape(ShapeKind, Seq<(ShapeFieldNameView, ShapeFieldTypeView)>),
    Tgeneric(Seq<char>),
    Tunion(Seq<TyView>),
    Tdarray(TyView, TyView),
    Tvarray(TyView),
    TvarrayOrDarray(TyView, TyView),
}

pub enum ReactivityView {
    Nonreactive,
    Local(Option<TyView>),
    Shallow(Option<TyView>),
    Reactive(Option<TyView>),
    Pure(Option<TyView>),
    MaybeReactive(Box<ReactivityView>),
    RxVar(Option<Box<ReactivityView>>),
}

pub struct PossiblyEnforcedTyView {
    pub enforced: bool,
    pub type_: TyView,
}

pub struct FunParamView {
    pub pos: PosView,
    pub name: Option<Seq<char>>,
    pub type_: PossiblyEnforcedTyView,
    pub flags: FunParamFlags,
}

pub enum FunArityView {
    Fstandard,
    Fvariadic(FunParamView),
}

pub struct TparamView {
    pub variance: Variance,
    pub name: IdView,
    pub constraints: Seq<(ConstraintKind, TyView)>,
    pub reified: ReifyKind,
}

pub struct FunTypeView {
    pub arity: FunArityView,
    pub tparams: Seq<TparamView>,
    pub params: Seq<FunParamView>,
    pub ret: PossiblyEnforcedTyView,
    pub reactive: ReactivityView,
    pub flags: FunTypeFlags,
}

pub open spec fn opt_str_view(s: Option<&str>) -> Option<Seq<char>> {
    match s {
        Some(s) => Some(s@),
        None => None,
    }
}

pub open spec fn ty_view(t: Ty) -> TyView
    decreases t,
{
    TyView(t.0@, Box::new(ty__view(*t.1)))
}

pub open spec fn opt_ty_view(t: Option<Ty>) -> Option<TyView>
    decreases t,
{
    match t {
        Some(t) => Some(ty_view(t)),
        None => None,
    }
}

pub open spec fn tys_view(tys: &Vec<Ty>) -> Seq<TyView>
    decreases tys,
{
    Seq::new(
        tys.len() as nat,
        |i: int|
            if 0 <= i < tys.len() {
                ty_view(tys[i])
            } else {
                arbitrary()
            },
    )
}

pub open spec fn shape_fields_view(fields: &Vec<(ShapeFieldName, ShapeFieldType)>) -> Seq<
    (ShapeFieldNameView, ShapeFieldTypeView),
>
    decreases fields,
{
    Seq::new(
        fields.len() as nat,
        |i: int|
            if 0 <= i < fields.len() {
                (
                    fields[i].0@,
                    ShapeFieldTypeView {
                        optional: fields[i].1.optional,
                        ty: ty_view(fields[i].1.ty),
                    },
                )
            } else {
                arbitrary()
            },
    )
}

pub open spec fn constraints_view(constraints: &Vec<(ConstraintKind, Ty)>) -> Seq<
    (ConstraintKind, TyView),
>
    decreases constraints,
{
    Seq::new(
        constraints.len() as nat,
        |i: int|
            if 0 <= i < constraints.len() {
                (constraints[i].0, ty_view(constraints[i].1))
            } else {
                arbitrary()
            },
    )
}

pub open spec fn ty__view(t: Ty_) -> TyView_
    decreases t,
{
    match t {
        Ty_::Tthis => TyView_::Tthis,
        Ty_::Tapply(id, targs) => TyView_::Tapply(id@, tys_view(targs)),
        Ty_::Taccess(access) => TyView_::Taccess(ty_view(access.0), ids_view(access.1@)),
        Ty_::Tarray(k, v) => TyView_::Tarray(opt_ty_view(k), opt_ty_view(v)),
        Ty_::Tmixed => TyView_::Tmixed,
        Ty_::Tlike(inner) => TyView_::Tlike(ty_view(inner)),
        Ty_::Tany => TyView_::Tany,
        Ty_::Terr => TyView_::Terr,
        Ty_::Tnonnull => TyView_::Tnonnull,
        Ty_::Tdynamic => TyView_::Tdynamic,
        Ty_::Toption(inner) => TyView_::Toption(ty_view(inner)),
        Ty_::Tprim(p) => TyView_::Tprim(p),
        Ty_::Tfun(ft) => TyView_::Tfun(fun_type_view(*ft)),
        Ty_::Ttuple(tys) => TyView_::Ttuple(tys_view(tys)),
        Ty_::Tshape(kind, fields) => TyView_::Tshape(kind, shape_fields_view(fields)),
        Ty_::Tgeneric(name) => TyView_::Tgeneric(name@),
        Ty_::Tunion(tys) => TyView_::Tunion(tys_view(tys)),
        Ty_::Tdarray(k, v) => TyView_::Tdarray(ty_view(k), ty_view(v)),
        Ty_::Tvarray(v) => TyView_::Tvarray(ty_view(v)),
        Ty_::TvarrayOrDarray(k, v) => TyView_::TvarrayOrDarray(ty_view(k), ty_view(v)),
    }
}

pub open spec fn reactivity_view(r: Reactivity) -> ReactivityView
    decreases r,
{
    match r {
        Reactivity::Nonreactive => ReactivityView::Nonreactive,
        Reactivity::Local(t) => ReactivityView::Local(opt_ty_view(t)),
        Reactivity::Shallow(t) => ReactivityView::Shallow(opt_ty_view(t)),
        Reactivity::Reactive(t) => ReactivityView::Reactive(opt_ty_view(t)),
        Reactivity::Pure(t) => ReactivityView::Pure(opt_ty_view(t)),
        Reactivity::MaybeReactive(inner) => ReactivityView::MaybeReactive(
            Box::new(reactivity_view(*inner)),
        ),
        Reactivity::RxVar(inner) => ReactivityView::RxVar(
            match inner {
                Some(inner) => Some(Box::new(reactivity_view(*inner))),
                None => None,
            },
        ),
    }
}

pub open spec fn fun_param_view(p: FunParam) -> FunParamView
    decreases p,
{
    FunParamView {
        pos: p.pos@,
        name: opt_str_view(p.name),
        type_: PossiblyEnforcedTyView {
            enforced: p.type_.enforced,
            type_: ty_view(p.type_.type_),
        },
        flags: p.flags,
    }
}

pub open spec fn fun_params_view(params: &Vec<FunParam>) -> Seq<FunParamView>
    decreases params,
{
    Seq::new(
        params.len() as nat,
        |i: int|
            if 0 <= i < params.len() {
                fun_param_view(params[i])
            } else {
                arbitrary()
            },
    )
}

pub open spec fn tparam_view(p: Tparam) -> TparamView
    decreases p,
{
    TparamView {
        variance: p.variance,
        name: p.name@,
        constraints: constraints_view(p.constraints),
        reified: p.reified,
    }
}

pub open spec fn tparams_view(tparams: &Vec<Tparam>) -> Seq<TparamView>
    decreases tparams,
{
    Seq::new(
        tparams.len() as nat,
        |i: int|
            if 0 <= i < tparams.len() {
                tparam_view(tparams[i])
            } else {
                arbitrary()
            },
    )
}

pub open spec fn fun_type_view(f: FunType) -> FunTypeView
    decreases f,
{
    FunTypeView {
        arity: match f.arity {
            FunArity::Fstandard => FunArityView::Fstandard,
            FunArity::Fvariadic(p) => FunArityView::Fvariadic(fun_param_view(*p)),
        },
        tparams: tparams_view(f.tparams),
        params: fun_params_view(f.params),
        ret: PossiblyEnforcedTyView { enforced: f.ret.enforced, type_: ty_view(f.ret.type_) },
        reactive: reactivity_view(f.reactive),
        flags: f.flags,
    }
}

impl<'a> View for Ty<'a> {
    type V = TyView;

    open spec fn view(&self) -> TyView {
        ty_view(*self)
    }
}

impl<'a> View for Ty_<'a> {
    type V = TyView_;

    open spec fn view(&self) -> TyView_ {
        ty__view(*self)
    }
}

impl<'a> View for FunType<'a> {
    type V = FunTypeView;

    open spec fn view(&self) -> FunTypeView {
        fun_type_view(*self)
    }
}

impl<'a> View for FunParam<'a> {
    type V = FunParamView;

    open spec fn view(&self) -> FunParamView {
        fun_param_view(*self)
    }
}

impl<'a> View for Tparam<'a> {
    type V = TparamView;

    open spec fn view(&self) -> TparamView {
        tparam_view(*self)
    }
}

impl<'a> View for Reactivity<'a> {
    type V = ReactivityView;

    open spec fn view(&self) -> ReactivityView {
        reactivity_view(*self)
    }
}

impl TyView {
    /// The position that the type's reason points to, if any.
    pub open spec fn get_pos(self) -> Option<PosView> {
        self.0.pos()
    }
}

impl<'a> Ty<'a> {
    pub fn get_pos(&self) -> (r: Option<Pos<'a>>)
        ensures
            r matches Some(p) ==> self@.get_pos() == Some(p@),
            r is None ==> self@.get_pos() is None,
    {
        self.0.pos()
    }
}

/// The type of a function that was declared: when it is deprecated, the
/// message; its type; where it was declared; and the attributes that were
/// written on it, the last of them first.
#[derive(Clone, Copy, Debug, PartialEq, Eq)]
pub struct FunElt<'a> {
    pub deprecated: Option<&'a str>,
    pub type_: Ty<'a>,
    pub pos: Pos<'a>,
    pub user_attributes: &'a Vec<UserAttribute<'a>>,
}

pub struct FunEltView {
    pub deprecated: Option<Seq<char>>,
    pub type_: TyView,
    pub pos: PosView,
    pub user_attributes: Seq<UserAttributeView>,
}

impl<'a> View for FunElt<'a> {
    type V = FunEltView;

    open spec fn view(&self) -> FunEltView {
        FunEltView {
            deprecated: opt_str_view(self.deprecated),
            type_: self.type_@,
            pos: self.pos@,
            user_attributes: user_attributes_view(self.user_attributes@),
        }
    }
}

/// A type alias that was declared.
#[derive(Clone, Copy, Debug, PartialEq, Eq)]
pub struct TypedefType<'a> {
    pub pos: Pos<'a>,
    pub vis: TypedefVisibility,
    pub tparams: &'a Vec<Tparam<'a>>,
    pub constraint: Option<Ty<'a>>,
    pub type_: Ty<'a>,
}

pub struct TypedefTypeView {
    pub pos: PosView,
    pub vis: TypedefVisibility,
    pub tparams: Seq<TparamView>,
    pub constraint: Option<TyView>,
    pub type_: TyView,
}

impl<'a> View for TypedefType<'a> {
    type V = TypedefTypeView;

    open spec fn view(&self) -> TypedefTypeView {
        TypedefTypeView {
            pos: self.pos@,
            vis: self.vis,
            tparams: tparams_view(self.tparams),
            constraint: opt_ty_view(self.constraint),
            type_: self.type_@,
        }
    }
}

/// What an enum is built on: its underlying type, and the type that its
/// values may be used as.
#[derive(Clone, Copy, Debug, PartialEq, Eq)]
pub struct EnumType<'a> {
    pub base: Ty<'a>,
    pub constraint: Option<Ty<'a>>,
}

pub struct EnumTypeView {
    pub base: TyView,
    pub constraint: Option<TyView>,
}

impl<'a> View for EnumType<'a> {
    type V = EnumTypeView;

    open spec fn view(&self) -> EnumTypeView {
        EnumTypeView { base: self.base@, constraint: opt_ty_view(self.constraint) }
    }
}

#[derive(Clone, Copy, Debug, PartialEq, Eq)]
pub enum TypeconstAbstractKind<'a> {
    TCAbstract(Option<Ty<'a>>),
    TCPartiallyAbstract,
    TCConcrete,
}

pub enum TypeconstAbstractKindView {
    TCAbstract(Option<TyView>),
    TCPartiallyAbstract,
    TCConcrete,
}

impl<'a> View for TypeconstAbstractKind<'a> {
    type V = TypeconstAbstractKindView;

    open spec fn view(&self) -> TypeconstAbstractKindView {
        match *self {
            TypeconstAbstractKind::TCAbstract(t) => TypeconstAbstractKindView::TCAbstract(
                opt_ty_view(t),
            ),
            TypeconstAbstractKind::TCPartiallyAbstract => {
                TypeconstAbstractKindView::TCPartiallyAbstract
            },
            TypeconstAbstractKind::TCConcrete => TypeconstAbstractKindView::TCConcrete,
        }
    }
}

} // verus!
