//! Type parameters that are named before they are declared.
//!
//! A constraint of a type parameter may name a parameter that the list
//! declares further on. When the constraint is read, that name is taken for
//! a class. Once the list is complete, the types of the constraints are
//! rewritten with all of its parameters in scope.

use crate::ast_defs::ShapeFieldName;
use crate::state::{DirectDeclSmartConstructors, StateView};
use crate::text::{bytes_contain, last_segment, str_last_segment, SEPARATOR};
use crate::typing_defs::{
    fun_params_view, shape_fields_view, tys_view, FunArity, FunArityView, FunParam, FunParamView,
    FunType, FunTypeView, PossiblyEnforcedTy, PossiblyEnforcedTyView, ShapeFieldType,
    ShapeFieldTypeView, Ty, TyView, TyView_, Ty_,
};
use crate::ast_defs::ShapeFieldNameView;
use vstd::prelude::*;

verus! {

/// The byte of the namespace separator.
pub const SEPARATOR_BYTE: u8 = 92;

impl StateView {
    /// Whether the type is a name, applied to nothing, that can be read as a
    /// type parameter in scope: the hint was written without a separator, and
    /// the last segment of the name is in scope.
    pub open spec fn names_type_parameter(self, ty: TyView) -> bool {
        &&& *ty.1 matches TyView_::Tapply(id, targs)
        &&& targs.len() == 0
        &&& ty.0.pos() matches Some(pos)
        &&& !self.source_text_at_pos(pos).contains(SEPARATOR_BYTE)
        &&& self.is_type_param_in_scope(last_segment(id.1, SEPARATOR))
    }

    /// The type with each name that can be read as a type parameter in scope
    /// turned into a reference to that parameter. The rewrite goes through
    /// type arguments, arrays, options, unions, shapes and function types.
    pub open spec fn convert_tapply_to_tgeneric(self, ty: TyView) -> TyView
        decreases ty,
    {
        match *ty.1 {
            TyView_::Tapply(id, targs) => if targs.len() == 0 {
                if self.names_type_parameter(ty) {
                    TyView(ty.0, Box::new(TyView_::Tgeneric(last_segment(id.1, SEPARATOR))))
                } else {
                    ty
                }
            } else {
                TyView(ty.0, Box::new(TyView_::Tapply(id, self.convert_tys(targs))))
            },
            TyView_::Tarray(tk, tv) => TyView(
                ty.0,
                Box::new(
                    TyView_::Tarray(
                        match tk {
                            Some(tk) => Some(self.convert_tapply_to_tgeneric(tk)),
                            None => None,
                        },
                        match tv {
                            Some(tv) => Some(self.convert_tapply_to_tgeneric(tv)),
                            None => None,
                        },
                    ),
                ),
            ),
            TyView_::Tlike(inner) => TyView(
                ty.0,
                Box::new(TyView_::Tlike(self.convert_tapply_to_tgeneric(inner))),
            ),
            TyView_::Toption(inner) => TyView(
                ty.0,
                Box::new(TyView_::Toption(self.convert_tapply_to_tgeneric(inner))),
            ),
            TyView_::Tfun(ft) => TyView(
                ty.0,
                Box::new(
                    TyView_::Tfun(
                        FunTypeView {
                            arity: match ft.arity {
                                FunArityView::Fstandard => FunArityView::Fstandard,
                                FunArityView::Fvariadic(param) => FunArityView::Fvariadic(
                                    self.convert_param(param),
                                ),
                            },
                            params: self.convert_params(ft.params),
                            ret: PossiblyEnforcedTyView {
                                enforced: ft.ret.enforced,
                                type_: self.convert_tapply_to_tgeneric(ft.ret.type_),
                            },
                            ..ft
                        },
                    ),
                ),
            ),
            TyView_::Tshape(kind, fields) => TyView(
                ty.0,
                Box::new(TyView_::Tshape(kind, self.convert_fields(fields))),
            ),
            TyView_::Tunion(tys) => TyView(
                ty.0,
                Box::new(TyView_::Tunion(self.convert_tys(tys))),
            ),
            TyView_::Tdarray(tk, tv) => TyView(
                ty.0,
                Box::new(
                    TyView_::Tdarray(
                        self.convert_tapply_to_tgeneric(tk),
                        self.convert_tapply_to_tgeneric(tv),
                    ),
                ),
            ),
            TyView_::Tvarray(tv) => TyView(
                ty.0,
                Box::new(TyView_::Tvarray(self.convert_tapply_to_tgeneric(tv))),
            ),
            TyView_::TvarrayOrDarray(tk, tv) => TyView(
                ty.0,
                Box::new(
                    TyView_::TvarrayOrDarray(
                        self.convert_tapply_to_tgeneric(tk),
                        self.convert_tapply_to_tgeneric(tv),
                    ),
                ),
            ),
            _ => ty,
        }
    }

    pub open spec fn convert_tys(self, tys: Seq<TyView>) -> Seq<TyView>
        decreases tys,
    {
        Seq::new(
            tys.len(),
            |i: int|
                if 0 <= i < tys.len() {
                    self.convert_tapply_to_tgeneric(tys[i])
                } else {
                    arbitrary()
                },
        )
    }

    pub open spec fn convert_param(self, param: FunParamView) -> FunParamView
        decreases param,
    {
        FunParamView {
            type_: PossiblyEnforcedTyView {
                enforced: param.type_.enforced,
                type_: self.convert_tapply_to_tgeneric(param.type_.type_),
            },
            ..param
        }
    }

    pub open spec fn convert_params(self, params: Seq<FunParamView>) -> Seq<FunParamView>
        decreases params,
    {
        Seq::new(
            params.len(),
            |i: int|
                if 0 <= i < params.len() {
                    self.convert_param(params[i])
                } else {
                    arbitrary()
                },
        )
    }

    pub open spec fn convert_fields(
        self,
        fields: Seq<(ShapeFieldNameView, ShapeFieldTypeView)>,
    ) -> Seq<(ShapeFieldNameView, ShapeFieldTypeView)>
        decreases fields,
    {
        Seq::new(
            fields.len(),
            |i: int|
                if 0 <= i < fields.len() {
                    (
                        fields[i].0,
                        ShapeFieldTypeView {
                            optional: fields[i].1.optional,
                            ty: self.convert_tapply_to_tgeneric(fields[i].1.ty),
                        },
                    )
                } else {
                    arbitrary()
                },
        )
    }
}

impl<'a> DirectDeclSmartConstructors<'a> {
    /// The type with each name that can be read as a type parameter in scope
    /// turned into a reference to that parameter.
    pub fn convert_tapply_to_tgeneric(&self, ty: Ty<'a>) -> (r: Ty<'a>)
        ensures
            r@ == self@.convert_tapply_to_tgeneric(ty@),
        decreases ty,
    {
        assert(ty@ == TyView(ty.0@, Box::new((*ty.1)@)));
        match *ty.1 {
            Ty_::Tapply(id, targs) => {
                if targs.len() == 0 {
                    // A name with a separator in the source cannot be a type
                    // parameter.
                    match ty.0.pos() {
                        Some(pos) => {
                            if bytes_contain(self.source_text_at_pos(pos), SEPARATOR_BYTE) {
                                return ty;
                            }
                        },
                        None => {
                            return ty;
                        },
                    }
                    // The name was put under the current namespace when the
                    // type was built: only its last segment counts.
                    let name = str_last_segment(id.1, SEPARATOR);
                    if self.is_type_param_in_scope(name) {
                        self.mk_ty(ty.0, Ty_::Tgeneric(name))
                    } else {
                        ty
                    }
                } else {
                    let converted = self.convert_tys(targs);
                    self.mk_ty(ty.0, Ty_::Tapply(id, converted))
                }
            },
            Ty_::Tarray(tk, tv) => {
                let tk = match tk {
                    Some(tk) => Some(self.convert_tapply_to_tgeneric(tk)),
                    None => None,
                };
                let tv = match tv {
                    Some(tv) => Some(self.convert_tapply_to_tgeneric(tv)),
                    None => None,
                };
                self.mk_ty(ty.0, Ty_::Tarray(tk, tv))
            },
            Ty_::Tlike(inner) => {
                let inner = self.convert_tapply_to_tgeneric(inner);
                self.mk_ty(ty.0, Ty_::Tlike(inner))
            },
            Ty_::Toption(inner) => {
                let inner = self.convert_tapply_to_tgeneric(inner);
                self.mk_ty(ty.0, Ty_::Toption(inner))
            },
            Ty_::Tfun(fun_type) => {
                assert((*ty.1)@ == TyView_::Tfun(fun_type@));
                let arity = match fun_type.arity {
                    FunArity::Fstandard => FunArity::Fstandard,
                    FunArity::Fvariadic(param) => {
                        let param = self.convert_param(param);
                        FunArity::Fvariadic(self.allocate(param))
                    },
                };
                let params = self.convert_params(fun_type.params);
                let ret = PossiblyEnforcedTy {
                    enforced: fun_type.ret.enforced,
                    type_: self.convert_tapply_to_tgeneric(fun_type.ret.type_),
                };
                let converted = FunType {
                    arity,
                    tparams: fun_type.tparams,
                    params,
                    ret,
                    reactive: fun_type.reactive,
                    flags: fun_type.flags,
                };
                let converted = self.allocate(converted);
                assert(converted@.arity == match fun_type@.arity {
                    FunArityView::Fstandard => FunArityView::Fstandard,
                    FunArityView::Fvariadic(param) => FunArityView::Fvariadic(
                        self@.convert_param(param),
                    ),
                });
                self.mk_ty(ty.0, Ty_::Tfun(converted))
            },
            Ty_::Tshape(kind, fields) => {
                let converted = self.convert_fields(fields);
                self.mk_ty(ty.0, Ty_::Tshape(kind, converted))
            },
            Ty_::Tunion(tys) => {
                let converted = self.convert_tys(tys);
                self.mk_ty(ty.0, Ty_::Tunion(converted))
            },
            Ty_::Tdarray(tk, tv) => {
                let tk = self.convert_tapply_to_tgeneric(tk);
                let tv = self.convert_tapply_to_tgeneric(tv);
                self.mk_ty(ty.0, Ty_::Tdarray(tk, tv))
            },
            Ty_::Tvarray(tv) => {
                let tv = self.convert_tapply_to_tgeneric(tv);
                self.mk_ty(ty.0, Ty_::Tvarray(tv))
            },
            Ty_::TvarrayOrDarray(tk, tv) => {
                let tk = self.convert_tapply_to_tgeneric(tk);
                let tv = self.convert_tapply_to_tgeneric(tv);
                self.mk_ty(ty.0, Ty_::TvarrayOrDarray(tk, tv))
            },
            _ => ty,
        }
    }

    fn convert_tys(&self, tys: &'a Vec<Ty<'a>>) -> (r: &'a Vec<Ty<'a>>)
        ensures
            tys_view(r) == self@.convert_tys(tys_view(tys)),
        decreases tys,
    {
        let mut converted: Vec<Ty<'a>> = Vec::new();
        let mut i: usize = 0;
        while i < tys.len()
            invariant
                i <= tys.len(),
                converted.len() == i,
                forall|k: int|
                    0 <= k < i ==> (#[trigger] converted@[k])@
                        == self@.convert_tapply_to_tgeneric(tys@[k]@),
            decreases tys.len() - i,
        {
            let c = self.convert_tapply_to_tgeneric(tys[i]);
            converted.push(c);
            i = i + 1;
        }
        let r = self.allocate(converted);
        assert(tys_view(r) =~= self@.convert_tys(tys_view(tys)));
        r
    }

    fn convert_param(&self, param: &'a FunParam<'a>) -> (r: FunParam<'a>)
        ensures
            r@ == self@.convert_param(param@),
        decreases param,
    {
        FunParam {
            pos: param.pos,
            name: param.name,
            type_: PossiblyEnforcedTy {
                enforced: param.type_.enforced,
                type_: self.convert_tapply_to_tgeneric(param.type_.type_),
            },
            flags: param.flags,
        }
    }

    fn convert_params(&self, params: &'a Vec<FunParam<'a>>) -> (r: &'a Vec<FunParam<'a>>)
        ensures
            fun_params_view(r) == self@.convert_params(fun_params_view(params)),
        decreases params,
    {
        let mut converted: Vec<FunParam<'a>> = Vec::new();
        let mut i: usize = 0;
        while i < params.len()
            invariant
                i <= params.len(),
                converted.len() == i,
                forall|k: int|
                    0 <= k < i ==> (#[trigger] converted@[k])@ == self@.convert_param(
                        params@[k]@,
                    ),
            decreases params.len() - i,
        {
            let c = self.convert_param(&params[i]);
            converted.push(c);
            i = i + 1;
        }
        let r = self.allocate(converted);
        assert(fun_params_view(r) =~= self@.convert_params(fun_params_view(params)));
        r
    }

    fn convert_fields(&self, fields: &'a Vec<(ShapeFieldName<'a>, ShapeFieldType<'a>)>) -> (r:
        &'a Vec<(ShapeFieldName<'a>, ShapeFieldType<'a>)>)
        ensures
            shape_fields_view(r) == self@.convert_fields(shape_fields_view(fields)),
        decreases fields,
    {
        let mut converted: Vec<(ShapeFieldName<'a>, ShapeFieldType<'a>)> = Vec::new();
        let mut i: usize = 0;
        while i < fields.len()
            invariant
                i <= fields.len(),
                converted.len() == i,
                forall|k: int|
                    0 <= k < i ==> (#[trigger] converted@[k]).0 == fields@[k].0 && converted@[k].1.optional
                        == fields@[k].1.optional && converted@[k].1.ty@
                        == self@.convert_tapply_to_tgeneric(fields@[k].1.ty@),
            decreases fields.len() - i,
        {
            let field = fields[i];
            let c = (
                field.0,
                ShapeFieldType {
                    optional: field.1.optional,
                    ty: self.convert_tapply_to_tgeneric(field.1.ty),
                },
            );
            converted.push(c);
            i = i + 1;
        }
        let r = self.allocate(converted);
        assert(shape_fields_view(r) =~= self@.convert_fields(shape_fields_view(fields)));
        r
    }
}

} // verus!
