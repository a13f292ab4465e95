//! The declarations that a pass extracts: the public shape of classes and
//! their members.

use crate::aast::{
    opt_expr_view, user_attributes_view, Expr, ExprView, UserAttribute, UserAttributeView,
    Visibility,
};
use crate::ast_defs::{ClassKind, Id, IdView};
use crate::pos::{Pos, PosView};
use crate::typing_defs::{
    opt_str_view, opt_ty_view, tparams_view, tys_view, EnumType, EnumTypeView, Tparam,
    TparamView, Ty, TyView, TypeconstAbstractKind, TypeconstAbstractKindView,
};
use vstd::prelude::*;

verus! {

/// The mode that a file declares in the comment behind its opening tag.
#[derive(Clone, Copy, Debug, PartialEq, Eq, Structural)]
pub enum Mode {
    Mphp,
    Mdecl,
    Mstrict,
    Mpartial,
}

#[derive(Clone, Copy, Debug, PartialEq, Eq)]
pub struct ShallowClassConst<'a> {
    pub abstract_: bool,
    pub expr: Option<Expr<'a>>,
    pub name: Id<'a>,
    pub type_: Ty<'a>,
}

pub struct ShallowClassConstView {
    pub abstract_: bool,
    pub expr: Option<ExprView>,
    pub name: IdView,
    pub type_: TyView,
}

impl<'a> View for ShallowClassConst<'a> {
    type V = ShallowClassConstView;

    open spec fn view(&self) -> ShallowClassConstView {
        ShallowClassConstView {
            abstract_: self.abstract_,
            expr: opt_expr_view(self.expr),
            name: self.name@,
            type_: self.type_@,
        }
    }
}

pub open spec fn opt_pos_view(p: Option<Pos>) -> Option<PosView> {
    match p {
        Some(p) => Some(p@),
        None => None,
    }
}

#[derive(Clone, Copy, Debug, PartialEq, Eq)]
pub struct ShallowTypeconst<'a> {
    pub abstract_: TypeconstAbstractKind<'a>,
    pub constraint: Option<Ty<'a>>,
    pub name: Id<'a>,
    pub type_: Option<Ty<'a>>,
    pub enforceable: (Pos<'a>, bool),
    pub reifiable: Option<Pos<'a>>,
}

pub struct ShallowTypeconstView {
    pub abstract_: TypeconstAbstractKindView,
    pub constraint: Option<TyView>,
    pub name: IdView,
    pub type_: Option<TyView>,
    pub enforceable: (PosView, bool),
    pub reifiable: Option<PosView>,
}

impl<'a> View for ShallowTypeconst<'a> {
    type V = ShallowTypeconstView;

    open spec fn view(&self) -> ShallowTypeconstView {
        ShallowTypeconstView {
            abstract_: self.abstract_@,
            constraint: opt_ty_view(self.constraint),
            name: self.name@,
            type_: opt_ty_view(self.type_),
            enforceable: (self.enforceable.0@, self.enforceable.1),
            reifiable: opt_pos_view(self.reifiable),
        }
    }
}

#[derive(Clone, Copy, Debug, PartialEq, Eq)]
pub struct ShallowProp<'a> {
    pub const_: bool,
    pub lateinit: bool,
    pub lsb: bool,
    pub name: Id<'a>,
    pub needs_init: bool,
    pub type_: Option<Ty<'a>>,
    pub abstract_: bool,
    pub visibility: Visibility,
}

pub struct ShallowPropView {
    pub const_: bool,
    pub lateinit: bool,
    pub lsb: bool,
    pub name: IdView,
    pub needs_init: bool,
    pub type_: Option<TyView>,
    pub abstract_: bool,
    pub visibility: Visibility,
}

impl<'a> View for ShallowProp<'a> {
    type V = ShallowPropView;

    open spec fn view(&self) -> ShallowPropView {
        ShallowPropView {
            const_: self.const_,
            lateinit: self.lateinit,
            lsb: self.lsb,
            name: self.name@,
            needs_init: self.needs_init,
            type_: opt_ty_view(self.type_),
            abstract_: self.abstract_,
            visibility: self.visibility,
        }
    }
}

/// How reactive a method is, with the name of the type on which that is
/// conditional.
#[derive(Clone, Copy, Debug, PartialEq, Eq)]
pub enum MethodReactivity<'a> {
    MethodReactive(Option<&'a str>),
    MethodShallow(Option<&'a str>),
    MethodLocal(Option<&'a str>),
}

pub enum MethodReactivityView {
    MethodReactive(Option<Seq<char>>),
    MethodShallow(Option<Seq<char>>),
    MethodLocal(Option<Seq<char>>),
}

impl<'a> View for MethodReactivity<'a> {
    type V = MethodReactivityView;

    open spec fn view(&self) -> MethodReactivityView {
        match *self {
            MethodReactivity::MethodReactive(s) => MethodReactivityView::MethodReactive(
                opt_str_view(s),
            ),
            MethodReactivity::MethodShallow(s) => MethodReactivityView::MethodShallow(
                opt_str_view(s),
            ),
            MethodReactivity::MethodLocal(s) => MethodReactivityView::MethodLocal(opt_str_view(s)),
        }
    }
}

pub open spec fn opt_method_reactivity_view(r: Option<MethodReactivity>) -> Option<
    MethodReactivityView,
> {
    match r {
        Some(r) => Some(r@),
        None => None,
    }
}

#[derive(Clone, Copy, Debug, PartialEq, Eq)]
pub struct ShallowMethod<'a> {
    pub abstract_: bool,
    pub final_: bool,
    pub memoizelsb: bool,
    pub name: Id<'a>,
    pub override_: bool,
    pub reactivity: Option<MethodReactivity<'a>>,
    pub dynamicallycallable: bool,
    pub type_: Ty<'a>,
    pub visibility: Visibility,
    pub deprecated: Option<&'a str>,
    pub user_attributes: &'a Vec<UserAttribute<'a>>,
}

pub struct ShallowMethodView {
    pub abstract_: bool,
    pub final_: bool,
    pub memoizelsb: bool,
    pub name: IdView,
    pub override_: bool,
    pub reactivity: Option<MethodReactivityView>,
    pub dynamicallycallable: bool,
    pub type_: TyView,
    pub visibility: Visibility,
    pub deprecated: Option<Seq<char>>,
    pub user_attributes: Seq<UserAttributeView>,
}

impl<'a> View for ShallowMethod<'a> {
    type V = ShallowMethodView;

    open spec fn view(&self) -> ShallowMethodView {
        ShallowMethodView {
            abstract_: self.abstract_,
            final_: self.final_,
            memoizelsb: self.memoizelsb,
            name: self.name@,
            override_: self.override_,
            reactivity: opt_method_reactivity_view(self.reactivity),
            dynamicallycallable: self.dynamicallycallable,
            type_: self.type_@,
            visibility: self.visibility,
            deprecated: opt_str_view(self.deprecated),
            user_attributes: user_attributes_view(self.user_attributes@),
        }
    }
}

pub open spec fn opt_method_view(m: Option<ShallowMethod>) -> Option<ShallowMethodView> {
    match m {
        Some(m) => Some(m@),
        None => None,
    }
}

pub open spec fn props_view(props: Seq<ShallowProp>) -> Seq<ShallowPropView> {
    props.map_values(|p: ShallowProp| p@)
}

pub open spec fn methods_view(methods: Seq<ShallowMethod>) -> Seq<ShallowMethodView> {
    methods.map_values(|m: ShallowMethod| m@)
}

pub open spec fn consts_view(consts: Seq<ShallowClassConst>) -> Seq<ShallowClassConstView> {
    consts.map_values(|c: ShallowClassConst| c@)
}

pub open spec fn typeconsts_view(typeconsts: Seq<ShallowTypeconst>) -> Seq<ShallowTypeconstView> {
    typeconsts.map_values(|c: ShallowTypeconst| c@)
}

pub open spec fn opt_enum_type_view(e: Option<EnumType>) -> Option<EnumTypeView> {
    match e {
        Some(e) => Some(e@),
        None => None,
    }
}

/// The public shape of a class, an interface, a trait or an enum.
#[derive(Clone, Copy, Debug, PartialEq, Eq)]
pub struct ShallowClass<'a> {
    pub mode: Mode,
    pub final_: bool,
    pub is_xhp: bool,
    pub has_xhp_keyword: bool,
    pub kind: ClassKind,
    pub name: Id<'a>,
    pub tparams: &'a Vec<Tparam<'a>>,
    pub extends: &'a Vec<Ty<'a>>,
    pub uses: &'a Vec<Ty<'a>>,
    pub req_extends: &'a Vec<Ty<'a>>,
    pub req_implements: &'a Vec<Ty<'a>>,
    pub implements: &'a Vec<Ty<'a>>,
    pub consts: &'a Vec<ShallowClassConst<'a>>,
    pub typeconsts: &'a Vec<ShallowTypeconst<'a>>,
    pub props: &'a Vec<ShallowProp<'a>>,
    pub sprops: &'a Vec<ShallowProp<'a>>,
    pub constructor: Option<ShallowMethod<'a>>,
    pub static_methods: &'a Vec<ShallowMethod<'a>>,
    pub methods: &'a Vec<ShallowMethod<'a>>,
    pub user_attributes: &'a Vec<UserAttribute<'a>>,
    pub enum_type: Option<EnumType<'a>>,
}

pub struct ShallowClassView {
    pub mode: Mode,
    pub final_: bool,
    pub is_xhp: bool,
    pub has_xhp_keyword: bool,
    pub kind: ClassKind,
    pub name: IdView,
    pub tparams: Seq<TparamView>,
    pub extends: Seq<TyView>,
    pub uses: Seq<TyView>,
    pub req_extends: Seq<TyView>,
    pub req_implements: Seq<TyView>,
    pub implements: Seq<TyView>,
    pub consts: Seq<ShallowClassConstView>,
    pub typeconsts: Seq<ShallowTypeconstView>,
    pub props: Seq<ShallowPropView>,
    pub sprops: Seq<ShallowPropView>,
    pub constructor: Option<ShallowMethodView>,
    pub static_methods: Seq<ShallowMethodView>,
    pub methods: Seq<ShallowMethodView>,
    pub user_attributes: Seq<UserAttributeView>,
    pub enum_type: Option<EnumTypeView>,
}

impl<'a> View for ShallowClass<'a> {
    type V = ShallowClassView;

    open spec fn view(&self) -> ShallowClassView {
        ShallowClassView {
            mode: self.mode,
            final_: self.final_,
            is_xhp: self.is_xhp,
            has_xhp_keyword: self.has_xhp_keyword,
            kind: self.kind,
            name: self.name@,
            tparams: tparams_view(self.tparams),
            extends: tys_view(self.extends),
            uses: tys_view(self.uses),
            req_extends: tys_view(self.req_extends),
            req_implements: tys_view(self.req_implements),
            implements: tys_view(self.implements),
            consts: consts_view(self.consts@),
            typeconsts: typeconsts_view(self.typeconsts@),
            props: props_view(self.props@),
            sprops: props_view(self.sprops@),
            constructor: opt_method_view(self.constructor),
            static_methods: methods_view(self.static_methods@),
            methods: methods_view(self.methods@),
            user_attributes: user_attributes_view(self.user_attributes@),
            enum_type: opt_enum_type_view(self.enum_type),
        }
    }
}

} // verus!
