//! The combinators for type hints.

use crate::aast::{ClassIdView_, ClassId_, ExprView, ExprView_, Expr_, Tprim};
use crate::ast_defs::{Id, IdView, ShapeFieldName, ShapeFieldNameView};
use crate::error::ParseError;
use crate::expressions::{bracket_pos, bracket_pos_of};
use crate::lists::NodeResult;
use crate::names::get_name;
use crate::node::{lemma_node_view, nodes_view, result_view, Node, NodeView, Node_};
use crate::pos::{pos_result_view, Pos, PosView};
use crate::shallow_decl_defs::opt_pos_view;
use crate::state::{DirectDeclSmartConstructors, StateView};
use crate::text::{
    str_eq, str_trim_start_matches, trim_start_matches, SEPARATOR,
};
use crate::token_kind::TokenKind;
use crate::type_hint::{
    hint_ty, make_tany, make_tarraykey, prim_ty, tany, tarraykey, ty_result_view,
};
use crate::typing_defs::{
    fun_params_view, opt_ty_view, shape_fields_view, tparams_view, tys_view, FunArity,
    FunArityView, FunParam, FunParamFlags, FunParamView, FunType, FunTypeFlags, FunTypeView,
    PossiblyEnforcedTy, PossiblyEnforcedTyView, Reactivity, ReactivityView, Reason, ReasonView,
    ShapeFieldType, ShapeFieldTypeView, ShapeKind, Tparam, TparamView, Ty, TyView, TyView_, Ty_,
};
use crate::ast_defs::ids_view;
use vstd::prelude::*;
use vstd::string::*;

verus! {

pub type ShapeFields = Seq<(ShapeFieldNameView, ShapeFieldTypeView)>;

/// The index of the first field at or after `from` that `name` denotes.
pub open spec fn find_field(fields: ShapeFields, name: ShapeFieldNameView, from: nat) -> Option<int>
    decreases fields.len() - from,
{
    if from >= fields.len() {
        None
    } else if fields[from as int].0.same_field(name) {
        Some(from as int)
    } else {
        find_field(fields, name, from + 1)
    }
}

/// The fields with `name` of type `type_`: in the place of the field that
/// `name` denotes already, or else behind the last field.
pub open spec fn shape_insert(
    fields: ShapeFields,
    name: ShapeFieldNameView,
    type_: ShapeFieldTypeView,
) -> ShapeFields {
    match find_field(fields, name, 0) {
        Some(i) => fields.update(i, (name, type_)),
        None => fields.push((name, type_)),
    }
}

/// The fields of a shape that the first `n` of `nodes` specify.
pub open spec fn shape_fields_of_nodes(nodes: Seq<NodeView>, n: nat) -> Result<
    ShapeFields,
    ParseError,
>
    decreases n,
{
    if n == 0 || n > nodes.len() {
        Ok(Seq::empty())
    } else {
        match shape_fields_of_nodes(nodes, (n - 1) as nat) {
            Err(e) => Err(e),
            Ok(fields) => match nodes[n - 1] {
                NodeView::ShapeFieldSpecifier { name, type_ } => Ok(
                    shape_insert(fields, name, type_),
                ),
                _ => Err(ParseError::ExpectedShapeFieldSpecifier),
            },
        }
    }
}

/// The position `pos`, widened to the closing token `close` where that has
/// a position.
pub open spec fn widen_to(pos: PosView, close: NodeView) -> Result<PosView, ParseError> {
    match close.get_pos() {
        Ok(close_pos) => pos.merge(close_pos),
        Err(_) => Ok(pos),
    }
}

/// The span of a keyword and the closing bracket behind its type arguments.
pub open spec fn keyword_pos(keyword: NodeResult, close: NodeResult) -> Result<
    PosView,
    ParseError,
> {
    match keyword {
        Err(e) => Err(e),
        Ok(keyword) => match keyword.get_pos() {
            Err(e) => Err(e),
            Ok(pos) => match close {
                Err(e) => Err(e),
                Ok(close) => widen_to(pos, close),
            },
        },
    }
}

/// The name of the type that stands for an array of either kind.
pub open spec fn varray_or_darray_name() -> Seq<char> {
    "varray_or_darray"@
}

impl StateView {
    /// The type that a node stands for; the type of which nothing is known
    /// where it stands for none.
    pub open spec fn node_to_ty_or_any(self, node: NodeView) -> TyView {
        match self.node_to_ty(node) {
            Ok(ty) => ty,
            Err(_) => tany(),
        }
    }

    /// The type that a node stands for, if the node is not ignored.
    pub open spec fn optional_ty(self, node: NodeView) -> Result<Option<TyView>, ParseError> {
        if node.is_ignored() {
            Ok(None)
        } else {
            match self.node_to_ty(node) {
                Err(e) => Err(e),
                Ok(ty) => Ok(Some(ty)),
            }
        }
    }

    /// The type `varray_or_darray` with the type arguments `targs`: value, or
    /// key and value. Any other number of arguments gives the type of which
    /// nothing is known.
    pub open spec fn varray_or_darray(self, targs: Seq<NodeView>) -> TyView_ {
        if targs.len() == 2 {
            TyView_::TvarrayOrDarray(
                self.node_to_ty_or_any(targs[0]),
                self.node_to_ty_or_any(targs[1]),
            )
        } else if targs.len() == 1 {
            TyView_::TvarrayOrDarray(tarraykey(), self.node_to_ty_or_any(targs[0]))
        } else {
            TyView_::Tany
        }
    }

    /// A name applied to type arguments.
    pub open spec fn make_generic_type_specifier(
        self,
        class_type: NodeResult,
        type_arguments: NodeResult,
    ) -> NodeResult {
        match class_type {
            Err(e) => Err(e),
            Ok(class_type) => match type_arguments {
                Err(e) => Err(e),
                Ok(type_arguments) => match get_name(Seq::empty(), class_type) {
                    Err(e) => Err(e),
                    Ok(unqualified) => if trim_start_matches(unqualified.1, SEPARATOR)
                        == varray_or_darray_name() {
                        match type_arguments.get_pos() {
                            Err(e) => Err(e),
                            Ok(targs_pos) => match unqualified.0.merge(targs_pos) {
                                Err(e) => Err(e),
                                Ok(pos) => Ok(
                                    hint_ty(pos, self.varray_or_darray(type_arguments.items())),
                                ),
                            },
                        }
                    } else {
                        match get_name(self.current_namespace(), class_type) {
                            Err(e) => Err(e),
                            Ok(id) => self.make_apply(
                                id,
                                type_arguments,
                                match type_arguments.get_pos() {
                                    Ok(p) => Some(p),
                                    Err(_) => None,
                                },
                            ),
                        }
                    },
                },
            },
        }
    }

    pub open spec fn make_tuple_type_specifier(
        self,
        left_paren: NodeResult,
        tys: NodeResult,
        right_paren: NodeResult,
    ) -> NodeResult {
        match bracket_pos(left_paren, right_paren) {
            Err(e) => Err(e),
            Ok(pos) => match tys {
                Err(e) => Err(e),
                Ok(tys) => match self.tys_of(tys.items()) {
                    Err(e) => Err(e),
                    Ok(tys) => Ok(hint_ty(pos, TyView_::Ttuple(tys))),
                },
            },
        }
    }

    /// A shape type: its fields in the order of their first mention, and
    /// whether `...` leaves it open.
    pub open spec fn make_shape_type_specifier(
        shape: NodeResult,
        fields: NodeResult,
        open: NodeResult,
        rparen: NodeResult,
    ) -> NodeResult {
        match fields {
            Err(e) => Err(e),
            Ok(fields) => match shape_fields_of_nodes(fields.items(), fields.items().len()) {
                Err(e) => Err(e),
                Ok(fields) => match open {
                    Err(e) => Err(e),
                    Ok(open) => match bracket_pos(shape, rparen) {
                        Err(e) => Err(e),
                        Ok(pos) => Ok(
                            hint_ty(
                                pos,
                                TyView_::Tshape(
                                    if open.is_token(TokenKind::DotDotDot) {
                                        ShapeKind::OpenShape
                                    } else {
                                        ShapeKind::ClosedShape
                                    },
                                    fields,
                                ),
                            ),
                        ),
                    },
                },
            },
        }
    }

    /// `classname<T>`; without a closing bracket, a string.
    pub open spec fn make_classname_type_specifier(
        self,
        classname: NodeResult,
        targ: NodeResult,
        gt: NodeResult,
    ) -> NodeResult {
        match classname {
            Err(e) => Err(e),
            Ok(classname) => match targ {
                Err(e) => Err(e),
                Ok(targ) => match gt {
                    Err(e) => Err(e),
                    Ok(gt) => match get_name(crate::namespace::global_namespace(), classname) {
                        Err(e) => Err(e),
                        Ok(id) => if gt.is_ignored() {
                            Ok(prim_ty(Tprim::Tstring, id.0))
                        } else {
                            match classname.get_pos() {
                                Err(e) => Err(e),
                                Ok(class_pos) => match gt.get_pos() {
                                    Err(e) => Err(e),
                                    Ok(gt_pos) => match class_pos.merge(gt_pos) {
                                        Err(e) => Err(e),
                                        Ok(pos) => self.make_apply(id, targ, Some(pos)),
                                    },
                                },
                            }
                        },
                    },
                },
            },
        }
    }

    /// The name of a field of a shape that a node stands for: a string
    /// literal, an integer literal, or a constant of a class.
    pub open spec fn shape_field_name(name: NodeView) -> Result<ShapeFieldNameView, ParseError> {
        match name {
            NodeView::StringLiteral(s, pos) => Ok(ShapeFieldNameView::SFlitStr((pos, s))),
            NodeView::IntLiteral(s, pos) => Ok(ShapeFieldNameView::SFlitInt((pos, s))),
            NodeView::Expr(ExprView(_, ExprView_::ClassConst(class, member))) => Ok(
                ShapeFieldNameView::SFclassConst(
                    match class.1 {
                        ClassIdView_::CI(id) => id,
                        ClassIdView_::CIself => IdView(class.0, "self"@),
                        ClassIdView_::CIparent => IdView(class.0, "parent"@),
                        ClassIdView_::CIstatic => IdView(class.0, "static"@),
                    },
                    member,
                ),
            ),
            _ => Err(ParseError::ExpectedShapeKey),
        }
    }

    /// A field of a shape type: whether `?` marks it as optional, its name,
    /// and its type.
    pub open spec fn make_field_specifier(
        self,
        question_token: NodeResult,
        name: NodeResult,
        type_: NodeResult,
    ) -> NodeResult {
        match question_token {
            Err(e) => Err(e),
            Ok(question_token) => match name {
                Err(e) => Err(e),
                Ok(name) => match Self::shape_field_name(name) {
                    Err(e) => Err(e),
                    Ok(name) => match type_ {
                        Err(e) => Err(e),
                        Ok(type_) => match self.node_to_ty(type_) {
                            Err(e) => Err(e),
                            Ok(ty) => Ok(
                                NodeView::ShapeFieldSpecifier {
                                    name,
                                    type_: ShapeFieldTypeView {
                                        optional: !question_token.is_ignored(),
                                        ty,
                                    },
                                },
                            ),
                        },
                    },
                },
            },
        }
    }

    pub open spec fn make_varray_type_specifier(
        self,
        varray: NodeResult,
        tparam: NodeResult,
        greater_than: NodeResult,
    ) -> NodeResult {
        match keyword_pos(varray, greater_than) {
            Err(e) => Err(e),
            Ok(pos) => match tparam {
                Err(e) => Err(e),
                Ok(tparam) => match self.node_to_ty(tparam) {
                    Err(e) => Err(e),
                    Ok(ty) => Ok(hint_ty(pos, TyView_::Tvarray(ty))),
                },
            },
        }
    }

    pub open spec fn make_vector_array_type_specifier(
        self,
        array: NodeResult,
        tparam: NodeResult,
        greater_than: NodeResult,
    ) -> NodeResult {
        match keyword_pos(array, greater_than) {
            Err(e) => Err(e),
            Ok(pos) => match tparam {
                Err(e) => Err(e),
                Ok(tparam) => match self.optional_ty(tparam) {
                    Err(e) => Err(e),
                    Ok(key_type) => Ok(hint_ty(pos, TyView_::Tarray(key_type, None))),
                },
            },
        }
    }

    pub open spec fn make_darray_type_specifier(
        self,
        darray: NodeResult,
        key_type: NodeResult,
        value_type: NodeResult,
        greater_than: NodeResult,
    ) -> NodeResult {
        match keyword_pos(darray, greater_than) {
            Err(e) => Err(e),
            Ok(pos) => match key_type {
                Err(e) => Err(e),
                Ok(key_type) => match value_type {
                    Err(e) => Err(e),
                    Ok(value_type) => Ok(
                        hint_ty(
                            pos,
                            TyView_::Tdarray(
                                self.node_to_ty_or_any(key_type),
                                self.node_to_ty_or_any(value_type),
                            ),
                        ),
                    ),
                },
            },
        }
    }

    pub open spec fn make_map_array_type_specifier(
        self,
        array: NodeResult,
        key_type: NodeResult,
        value_type: NodeResult,
        greater_than: NodeResult,
    ) -> NodeResult {
        match bracket_pos(array, greater_than) {
            Err(e) => Err(e),
            Ok(pos) => match key_type {
                Err(e) => Err(e),
                Ok(key_type) => match self.optional_ty(key_type) {
                    Err(e) => Err(e),
                    Ok(key_type) => match value_type {
                        Err(e) => Err(e),
                        Ok(value_type) => match self.optional_ty(value_type) {
                            Err(e) => Err(e),
                            Ok(value_type) => Ok(
                                hint_ty(pos, TyView_::Tarray(key_type, value_type)),
                            ),
                        },
                    },
                },
            },
        }
    }

    /// The span of a prefix token and the hint behind it. The position of
    /// the hint is asked for first.
    pub open spec fn prefixed_pos(prefix: NodeResult, hint: NodeView) -> Result<
        PosView,
        ParseError,
    > {
        match hint.get_pos() {
            Err(e) => Err(e),
            Ok(hint_pos) => match prefix {
                Err(e) => Err(e),
                Ok(prefix) => match prefix.get_pos() {
                    Err(e) => Err(e),
                    Ok(prefix_pos) => prefix_pos.merge(hint_pos),
                },
            },
        }
    }

    pub open spec fn make_nullable_type_specifier(self, question_mark: NodeResult, hint: NodeResult)
        -> NodeResult {
        match hint {
            Err(e) => Err(e),
            Ok(hint) => match Self::prefixed_pos(question_mark, hint) {
                Err(e) => Err(e),
                Ok(pos) => match self.node_to_ty(hint) {
                    Err(e) => Err(e),
                    Ok(ty) => Ok(hint_ty(pos, TyView_::Toption(ty))),
                },
            },
        }
    }

    pub open spec fn make_like_type_specifier(self, tilde: NodeResult, type_: NodeResult)
        -> NodeResult {
        match tilde {
            Err(e) => Err(e),
            Ok(tilde) => match type_ {
                Err(e) => Err(e),
                Ok(type_) => match tilde.get_pos() {
                    Err(e) => Err(e),
                    Ok(tilde_pos) => match type_.get_pos() {
                        Err(e) => Err(e),
                        Ok(type_pos) => match tilde_pos.merge(type_pos) {
                            Err(e) => Err(e),
                            Ok(pos) => match self.node_to_ty(type_) {
                                Err(e) => Err(e),
                                Ok(ty) => Ok(hint_ty(pos, TyView_::Tlike(ty))),
                            },
                        },
                    },
                },
            },
        }
    }

    /// A soft type: the type of the hint as it is, stated at the span of the
    /// `@` and the hint.
    pub open spec fn make_soft_type_specifier(self, at_token: NodeResult, hint: NodeResult)
        -> NodeResult {
        match hint {
            Err(e) => Err(e),
            Ok(hint) => match Self::prefixed_pos(at_token, hint) {
                Err(e) => Err(e),
                Ok(pos) => match self.node_to_ty(hint) {
                    Err(e) => Err(e),
                    Ok(ty) => Ok(hint_ty(pos, *ty.1)),
                },
            },
        }
    }

    /// The positions of `<<` and `>>` where the attributes between them are
    /// `__Soft` alone.
    pub open spec fn soft_attribute(attributes: NodeView) -> Option<(PosView, PosView)> {
        match attributes {
            NodeView::BracketedList(ltlt, items, gtgt) => if items.len() == 1 {
                match items[0] {
                    NodeView::Attribute(attr) => if attr.name.1 == "__Soft"@ {
                        Some((ltlt, gtgt))
                    } else {
                        None
                    },
                    _ => None,
                }
            } else {
                None
            },
            _ => None,
        }
    }

    /// A hint with attributes before it: they change nothing, but for
    /// `__Soft`, which widens the position of the hint.
    pub open spec fn make_attributized_specifier(self, attributes: NodeResult, hint: NodeResult)
        -> NodeResult {
        match attributes {
            Err(e) => Err(e),
            Ok(attributes) => match Self::soft_attribute(attributes) {
                None => hint,
                Some((ltlt, gtgt)) => match ltlt.merge(gtgt) {
                    Err(e) => Err(e),
                    Ok(attributes_pos) => match hint {
                        Err(e) => Err(e),
                        Ok(hint) => match hint.get_pos() {
                            Err(e) => Err(e),
                            Ok(hint_pos) => match attributes_pos.merge(hint_pos) {
                                Err(e) => Err(e),
                                Ok(pos) => match self.node_to_ty(hint) {
                                    Err(e) => Err(e),
                                    Ok(ty) => Ok(hint_ty(pos, *ty.1)),
                                },
                            },
                        },
                    },
                },
            },
        }
    }

    /// `vec<T>`, `dict<K, V>` or `keyset<T>`.
    pub open spec fn make_builtin_generic(
        self,
        keyword: NodeResult,
        hint: NodeResult,
        greater_than: NodeResult,
    ) -> NodeResult {
        match keyword {
            Err(e) => Err(e),
            Ok(keyword) => match get_name(Seq::empty(), keyword) {
                Err(e) => Err(e),
                Ok(id) => match hint {
                    Err(e) => Err(e),
                    Ok(hint) => match greater_than {
                        Err(e) => Err(e),
                        Ok(greater_than) => self.make_apply(
                            id,
                            hint,
                            match greater_than.get_pos() {
                                Ok(p) => Some(p),
                                Err(_) => None,
                            },
                        ),
                    },
                },
            },
        }
    }

    /// The parameter of a closure type that a node stands for.
    pub open spec fn closure_param(self, node: NodeView) -> Result<FunParamView, ParseError> {
        match node.get_pos() {
            Err(e) => Err(e),
            Ok(pos) => match self.node_to_ty(node) {
                Err(e) => Err(e),
                Ok(ty) => Ok(
                    FunParamView {
                        pos,
                        name: None,
                        type_: PossiblyEnforcedTyView { enforced: false, type_: ty },
                        flags: FunParamFlags::empty(),
                    },
                ),
            },
        }
    }

    pub open spec fn closure_params_of_first(self, nodes: Seq<NodeView>, n: nat) -> Result<
        Seq<FunParamView>,
        ParseError,
    >
        decreases n,
    {
        if n == 0 || n > nodes.len() {
            Ok(Seq::empty())
        } else {
            match self.closure_params_of_first(nodes, (n - 1) as nat) {
                Err(e) => Err(e),
                Ok(params) => match self.closure_param(nodes[n - 1]) {
                    Err(e) => Err(e),
                    Ok(param) => Ok(params.push(param)),
                },
            }
        }
    }

    /// The type of a closure: its parameters, unnamed, and its return type.
    pub open spec fn make_closure_type_specifier(
        self,
        left_paren: NodeResult,
        args: NodeResult,
        ret_hint: NodeResult,
        right_paren: NodeResult,
    ) -> NodeResult {
        match args {
            Err(e) => Err(e),
            Ok(args) => match self.closure_params_of_first(args.items(), args.items().len()) {
                Err(e) => Err(e),
                Ok(params) => match ret_hint {
                    Err(e) => Err(e),
                    Ok(ret_hint) => match self.node_to_ty(ret_hint) {
                        Err(e) => Err(e),
                        Ok(ret) => match bracket_pos(left_paren, right_paren) {
                            Err(e) => Err(e),
                            Ok(pos) => Ok(
                                hint_ty(
                                    pos,
                                    TyView_::Tfun(
                                        FunTypeView {
                                            arity: FunArityView::Fstandard,
                                            tparams: Seq::empty(),
                                            params,
                                            ret: PossiblyEnforcedTyView {
                                                enforced: false,
                                                type_: ret,
                                            },
                                            reactive: ReactivityView::Nonreactive,
                                            flags: FunTypeFlags::empty(),
                                        },
                                    ),
                                ),
                            ),
                        },
                    },
                },
            },
        }
    }

    /// The type that stands before the first `::` of a chain. Inside a
    /// class, `self` is the class.
    pub open spec fn type_constant_root(self, ty: NodeView) -> Result<TyView, ParseError> {
        match ty {
            NodeView::Name(name, self_pos) => if name == "self"@ {
                match self.classish.get_current_classish_name() {
                    Some((class_name, class_name_pos)) => Ok(
                        TyView(
                            ReasonView::Rhint(self_pos),
                            Box::new(
                                TyView_::Tapply(
                                    IdView(
                                        if class_name_pos.is_none() {
                                            self_pos
                                        } else {
                                            class_name_pos
                                        },
                                        class_name,
                                    ),
                                    Seq::empty(),
                                ),
                            ),
                        ),
                    ),
                    None => self.node_to_ty(ty),
                }
            } else {
                self.node_to_ty(ty)
            },
            _ => self.node_to_ty(ty),
        }
    }

    /// An access to a type constant, `ty::constant_name`. Where `ty` is such
    /// an access already, the name is put behind the names that it has.
    pub open spec fn make_type_constant(self, ty: NodeResult, constant_name: NodeResult)
        -> NodeResult {
        match ty {
            Err(e) => Err(e),
            Ok(ty) => match constant_name {
                Err(e) => Err(e),
                Ok(constant_name) => match get_name(Seq::empty(), constant_name) {
                    Err(e) => Err(e),
                    Ok(id) => match ty.get_pos() {
                        Err(e) => Err(e),
                        Ok(ty_pos) => match constant_name.get_pos() {
                            Err(e) => Err(e),
                            Ok(name_pos) => match ty_pos.merge(name_pos) {
                                Err(e) => Err(e),
                                Ok(pos) => match ty {
                                    NodeView::TypeconstAccess(_, root, names) => Ok(
                                        NodeView::TypeconstAccess(pos, root, names.push(id)),
                                    ),
                                    _ => match self.type_constant_root(ty) {
                                        Err(e) => Err(e),
                                        Ok(root) => Ok(
                                            NodeView::TypeconstAccess(pos, root, seq![id]),
                                        ),
                                    },
                                },
                            },
                        },
                    },
                },
            },
        }
    }
}

pub proof fn lemma_shape_fields_of_nodes_fail(nodes: Seq<NodeView>, n: nat, m: nat)
    requires
        0 < n <= m <= nodes.len(),
        shape_fields_of_nodes(nodes, n) is Err,
    ensures
        shape_fields_of_nodes(nodes, m) == shape_fields_of_nodes(nodes, n),
    decreases m - n,
{
    if n < m {
        lemma_shape_fields_of_nodes_fail(nodes, n, (m - 1) as nat);
    }
}

pub proof fn lemma_closure_params_fail(s: StateView, nodes: Seq<NodeView>, n: nat, m: nat)
    requires
        0 < n <= m <= nodes.len(),
        s.closure_params_of_first(nodes, n) is Err,
    ensures
        s.closure_params_of_first(nodes, m) == s.closure_params_of_first(nodes, n),
    decreases m - n,
{
    if n < m {
        lemma_closure_params_fail(s, nodes, n, (m - 1) as nat);
    }
}

pub proof fn lemma_find_field_is(fields: ShapeFields, name: ShapeFieldNameView, from: nat, i: int)
    requires
        from <= i < fields.len(),
        fields[i].0.same_field(name),
        forall|j: int| from <= j < i ==> !fields[j].0.same_field(name),
    ensures
        find_field(fields, name, from) == Some(i),
    decreases i - from,
{
    if from < i {
        lemma_find_field_is(fields, name, from + 1, i);
    }
}

pub proof fn lemma_find_field_none(fields: ShapeFields, name: ShapeFieldNameView, from: nat)
    requires
        forall|j: int| from <= j < fields.len() ==> !fields[j].0.same_field(name),
    ensures
        find_field(fields, name, from) is None,
    decreases fields.len() - from,
{
    if from < fields.len() {
        lemma_find_field_none(fields, name, from + 1);
    }
}

/// Whether two names denote the same field.
pub fn same_field(a: &ShapeFieldName, b: &ShapeFieldName) -> (r: bool)
    ensures
        r == a@.same_field(b@),
{
    match (a, b) {
        (ShapeFieldName::SFlitInt(x), ShapeFieldName::SFlitInt(y)) => str_eq(x.1, y.1),
        (ShapeFieldName::SFlitStr(x), ShapeFieldName::SFlitStr(y)) => str_eq(x.1, y.1),
        (ShapeFieldName::SFclassConst(c, x), ShapeFieldName::SFclassConst(d, y)) => str_eq(
            c.1,
            d.1,
        ) && str_eq(x.1, y.1),
        _ => false,
    }
}

/// The index in `fields` of the field that `name` denotes.
pub fn find_field_in(fields: &Vec<(ShapeFieldName, ShapeFieldType)>, name: &ShapeFieldName) -> (r:
    Option<usize>)
    ensures
        match r {
            Some(i) => i < fields.len() && find_field(shape_fields_view(fields), name@, 0) == Some(
                i as int,
            ),
            None => find_field(shape_fields_view(fields), name@, 0) is None,
        },
{
    let ghost views = shape_fields_view(fields);
    let mut i: usize = 0;
    while i < fields.len()
        invariant
            i <= fields.len(),
            views == shape_fields_view(fields),
            forall|j: int| 0 <= j < i ==> !views[j].0.same_field(name@),
        decreases fields.len() - i,
    {
        assert(views[i as int].0 == fields[i as int].0@);
        if same_field(&fields[i].0, name) {
            proof {
                lemma_find_field_is(views, name@, 0, i as int);
            }
            return Some(i);
        }
        i = i + 1;
    }
    proof {
        lemma_find_field_none(views, name@, 0);
    }
    None
}

/// Puts the field `name` of type `type_` into `fields`.
pub fn shape_insert_into<'a>(
    fields: &mut Vec<(ShapeFieldName<'a>, ShapeFieldType<'a>)>,
    name: ShapeFieldName<'a>,
    type_: ShapeFieldType<'a>,
)
    ensures
        shape_fields_view(final(fields)) == shape_insert(
            shape_fields_view(old(fields)),
            name@,
            ShapeFieldTypeView { optional: type_.optional, ty: type_.ty@ },
        ),
{
    let ghost before = shape_fields_view(fields);
    let ghost type_view = ShapeFieldTypeView { optional: type_.optional, ty: type_.ty@ };
    match find_field_in(fields, &name) {
        Some(i) => {
            fields.set(i, (name, type_));
            assert(shape_fields_view(fields) =~= before.update(i as int, (name@, type_view)));
        },
        None => {
            fields.push((name, type_));
            assert(shape_fields_view(fields) =~= before.push((name@, type_view)));
        },
    }
}

pub open spec fn opt_ty_result_view(r: Result<Option<Ty>, ParseError>) -> Result<
    Option<TyView>,
    ParseError,
> {
    match r {
        Ok(t) => Ok(opt_ty_view(t)),
        Err(e) => Err(e),
    }
}

/// The position `pos`, widened to the closing token `close`.
fn widen_to_of<'a>(pos: Pos<'a>, close: Node_<'a>) -> (r: Result<Pos<'a>, ParseError>)
    ensures
        pos_result_view(r) == widen_to(pos@, close@),
{
    match close.get_pos() {
        Ok(close_pos) => Pos::merge(pos, close_pos),
        Err(_) => Ok(pos),
    }
}

/// The span of a keyword and the closing bracket behind its type arguments.
fn keyword_pos_of<'a>(keyword: Node<'a>, close: Node<'a>) -> (r: Result<Pos<'a>, ParseError>)
    ensures
        pos_result_view(r) == keyword_pos(result_view(keyword), result_view(close)),
{
    let keyword = match keyword {
        Ok(keyword) => keyword,
        Err(e) => {
            return Err(e);
        },
    };
    let pos = match keyword.get_pos() {
        Ok(pos) => pos,
        Err(e) => {
            return Err(e);
        },
    };
    match close {
        Err(e) => Err(e),
        Ok(close) => widen_to_of(pos, close),
    }
}

/// The position of `node`, if it has one.
fn pos_if_any<'a>(node: Node_<'a>) -> (r: Option<Pos<'a>>)
    ensures
        opt_pos_view(r) == match node@.get_pos() {
            Ok(p) => Some(p),
            Err(_) => None,
        },
{
    match node.get_pos() {
        Ok(p) => Some(p),
        Err(_) => None,
    }
}

/// The name of a field of a shape that `name` stands for.
pub fn shape_field_name_of<'a>(name: Node_<'a>) -> (r: Result<ShapeFieldName<'a>, ParseError>)
    ensures
        match r {
            Ok(field) => StateView::shape_field_name(name@) == Ok::<
                ShapeFieldNameView,
                ParseError,
            >(field@),
            Err(e) => StateView::shape_field_name(name@) == Err::<ShapeFieldNameView, ParseError>(
                e,
            ),
        },
{
    proof {
        lemma_node_view(name);
    }
    match name {
        Node_::StringLiteral(s, pos) => Ok(ShapeFieldName::SFlitStr((pos, s))),
        Node_::IntLiteral(s, pos) => Ok(ShapeFieldName::SFlitInt((pos, s))),
        Node_::Expr(expr) => match expr.1 {
            Expr_::ClassConst(class, member) => {
                let id = match class.1 {
                    ClassId_::CI(id) => id,
                    ClassId_::CIself => Id(class.0, "self"),
                    ClassId_::CIparent => Id(class.0, "parent"),
                    ClassId_::CIstatic => Id(class.0, "static"),
                };
                Ok(ShapeFieldName::SFclassConst(id, member))
            },
            _ => Err(ParseError::ExpectedShapeKey),
        },
        _ => Err(ParseError::ExpectedShapeKey),
    }
}

impl<'a> DirectDeclSmartConstructors<'a> {
    /// The type that `node` stands for, or the type of which nothing is
    /// known.
    pub fn node_to_ty_or_any(&self, node: Node_<'a>) -> (r: Ty<'a>)
        ensures
            r@ == self@.node_to_ty_or_any(node@),
    {
        match self.node_to_ty(node) {
            Ok(ty) => ty,
            Err(_) => make_tany(self),
        }
    }

    /// The type that `node` stands for, if `node` is not ignored.
    pub fn optional_ty(&self, node: Node_<'a>) -> (r: Result<Option<Ty<'a>>, ParseError>)
        ensures
            opt_ty_result_view(r) == self@.optional_ty(node@),
    {
        if node.is_ignored() {
            Ok(None)
        } else {
            match self.node_to_ty(node) {
                Err(e) => Err(e),
                Ok(ty) => Ok(Some(ty)),
            }
        }
    }

    fn varray_or_darray(&self, targs: &'a Vec<Node_<'a>>) -> (r: Ty_<'a>)
        ensures
            r@ == self@.varray_or_darray(nodes_view(targs)),
    {
        if targs.len() == 2 {
            Ty_::TvarrayOrDarray(
                self.node_to_ty_or_any(targs[0]),
                self.node_to_ty_or_any(targs[1]),
            )
        } else if targs.len() == 1 {
            Ty_::TvarrayOrDarray(make_tarraykey(self), self.node_to_ty_or_any(targs[0]))
        } else {
            Ty_::Tany
        }
    }

    pub fn make_generic_type_specifier(&mut self, class_type: Node<'a>, type_arguments: Node<'a>)
        -> (r: Node<'a>)
        ensures
            final(self)@ == old(self)@,
            result_view(r) == old(self)@.make_generic_type_specifier(
                result_view(class_type),
                result_view(type_arguments),
            ),
    {
        proof {
            reveal_strlit("");
            assert(""@ =~= Seq::<char>::empty());
        }
        let class_type = match class_type {
            Ok(class_type) => class_type,
            Err(e) => {
                return Err(e);
            },
        };
        let type_arguments = match type_arguments {
            Ok(type_arguments) => type_arguments,
            Err(e) => {
                return Err(e);
            },
        };
        let unqualified = match self.get_name("", class_type) {
            Ok(unqualified) => unqualified,
            Err(e) => {
                return Err(e);
            },
        };
        if str_eq(str_trim_start_matches(unqualified.1, SEPARATOR), "varray_or_darray") {
            let targs_pos = match type_arguments.get_pos() {
                Ok(pos) => pos,
                Err(e) => {
                    return Err(e);
                },
            };
            let pos = match Pos::merge(unqualified.0, targs_pos) {
                Ok(pos) => pos,
                Err(e) => {
                    return Err(e);
                },
            };
            let targs = type_arguments.as_slice(self.state.arena);
            let ty_ = self.varray_or_darray(targs);
            Ok(self.hint_ty(pos, ty_))
        } else {
            let id = match self.get_name(
                self.state.namespace_builder.current_namespace(),
                class_type,
            ) {
                Ok(id) => id,
                Err(e) => {
                    return Err(e);
                },
            };
            self.make_apply(id, type_arguments, pos_if_any(type_arguments))
        }
    }

    pub fn make_tuple_type_specifier(
        &mut self,
        left_paren: Node<'a>,
        tys: Node<'a>,
        right_paren: Node<'a>,
    ) -> (r: Node<'a>)
        ensures
            final(self)@ == old(self)@,
            result_view(r) == old(self)@.make_tuple_type_specifier(
                result_view(left_paren),
                result_view(tys),
                result_view(right_paren),
            ),
    {
        // The types lie between the two brackets: their positions add
        // nothing.
        let pos = match bracket_pos_of(left_paren, right_paren) {
            Ok(pos) => pos,
            Err(e) => {
                return Err(e);
            },
        };
        let tys = match tys {
            Ok(tys) => tys,
            Err(e) => {
                return Err(e);
            },
        };
        let tys = match self.nodes_to_tys(tys.as_slice(self.state.arena)) {
            Ok(tys) => tys,
            Err(e) => {
                return Err(e);
            },
        };
        Ok(self.hint_ty(pos, Ty_::Ttuple(tys)))
    }

    /// The fields of a shape that `fields` specifies.
    fn shape_fields_of_nodes(&self, fields: Node<'a>) -> (r: Result<
        &'a Vec<(ShapeFieldName<'a>, ShapeFieldType<'a>)>,
        ParseError,
    >)
        ensures
            match r {
                Ok(shape_fields) => result_view(fields) is Ok && shape_fields_of_nodes(
                    result_view(fields)->Ok_0.items(),
                    result_view(fields)->Ok_0.items().len(),
                ) == Ok::<ShapeFields, ParseError>(shape_fields_view(shape_fields)),
                Err(e) => match result_view(fields) {
                    Err(e2) => e == e2,
                    Ok(fields) => shape_fields_of_nodes(fields.items(), fields.items().len())
                        == Err::<ShapeFields, ParseError>(e),
                },
            },
    {
        let node = match fields {
            Ok(node) => node,
            Err(e) => {
                return Err(e);
            },
        };
        let nodes = node.as_slice(self.state.arena);
        let ghost views = nodes_view(nodes);
        let mut shape_fields: Vec<(ShapeFieldName<'a>, ShapeFieldType<'a>)> = Vec::new();
        assert(shape_fields_view(&shape_fields) =~= Seq::empty());
        let mut i: usize = 0;
        while i < nodes.len()
            invariant
                i <= nodes.len(),
                views == nodes_view(nodes),
                result_view(fields) == Ok::<NodeView, ParseError>(node@),
                views == node@.items(),
                shape_fields_of_nodes(views, i as nat) == Ok::<ShapeFields, ParseError>(
                    shape_fields_view(&shape_fields),
                ),
            decreases nodes.len() - i,
        {
            proof {
                lemma_node_view(nodes[i as int]);
            }
            match nodes[i] {
                Node_::ShapeFieldSpecifier { name, type_ } => {
                    shape_insert_into(&mut shape_fields, name, type_);
                },
                _ => {
                    proof {
                        lemma_shape_fields_of_nodes_fail(
                            views,
                            (i + 1) as nat,
                            nodes.len() as nat,
                        );
                    }
                    return Err(ParseError::ExpectedShapeFieldSpecifier);
                },
            }
            i = i + 1;
        }
        let ghost built = shape_fields_view(&shape_fields);
        let r = self.allocate(shape_fields);
        assert(shape_fields_view(r) =~= built);
        Ok(r)
    }

    pub fn make_shape_type_specifier(
        &mut self,
        shape: Node<'a>,
        _arg1: Node<'a>,
        fields: Node<'a>,
        open: Node<'a>,
        rparen: Node<'a>,
    ) -> (r: Node<'a>)
        ensures
            final(self)@ == old(self)@,
            result_view(r) == StateView::make_shape_type_specifier(
                result_view(shape),
                result_view(fields),
                result_view(open),
                result_view(rparen),
            ),
    {
        let fields = match self.shape_fields_of_nodes(fields) {
            Ok(fields) => fields,
            Err(e) => {
                return Err(e);
            },
        };
        let open = match open {
            Ok(open) => open,
            Err(e) => {
                return Err(e);
            },
        };
        let kind = if open.is_token(TokenKind::DotDotDot) {
            ShapeKind::OpenShape
        } else {
            ShapeKind::ClosedShape
        };
        let pos = match bracket_pos_of(shape, rparen) {
            Ok(pos) => pos,
            Err(e) => {
                return Err(e);
            },
        };
        Ok(self.hint_ty(pos, Ty_::Tshape(kind, fields)))
    }

    pub fn make_classname_type_specifier(
        &mut self,
        classname: Node<'a>,
        _lt: Node<'a>,
        targ: Node<'a>,
        _arg3: Node<'a>,
        gt: Node<'a>,
    ) -> (r: Node<'a>)
        ensures
            final(self)@ == old(self)@,
            result_view(r) == old(self)@.make_classname_type_specifier(
                result_view(classname),
                result_view(targ),
                result_view(gt),
            ),
    {
        proof {
            reveal_strlit("\\");
            assert("\\"@ =~= crate::namespace::global_namespace());
        }
        let classname = match classname {
            Ok(classname) => classname,
            Err(e) => {
                return Err(e);
            },
        };
        let targ = match targ {
            Ok(targ) => targ,
            Err(e) => {
                return Err(e);
            },
        };
        let gt = match gt {
            Ok(gt) => gt,
            Err(e) => {
                return Err(e);
            },
        };
        let id = match self.get_name("\\", classname) {
            Ok(id) => id,
            Err(e) => {
                return Err(e);
            },
        };
        if gt.is_ignored() {
            return Ok(self.prim_ty(Tprim::Tstring, id.0));
        }
        let class_pos = match classname.get_pos() {
            Ok(pos) => pos,
            Err(e) => {
                return Err(e);
            },
        };
        let gt_pos = match gt.get_pos() {
            Ok(pos) => pos,
            Err(e) => {
                return Err(e);
            },
        };
        let pos = match Pos::merge(class_pos, gt_pos) {
            Ok(pos) => pos,
            Err(e) => {
                return Err(e);
            },
        };
        self.make_apply(id, targ, Some(pos))
    }

    pub fn make_field_specifier(
        &mut self,
        question_token: Node<'a>,
        name: Node<'a>,
        _arg2: Node<'a>,
        type_: Node<'a>,
    ) -> (r: Node<'a>)
        ensures
            final(self)@ == old(self)@,
            result_view(r) == old(self)@.make_field_specifier(
                result_view(question_token),
                result_view(name),
                result_view(type_),
            ),
    {
        let question_token = match question_token {
            Ok(question_token) => question_token,
            Err(e) => {
                return Err(e);
            },
        };
        let optional = !question_token.is_ignored();
        let name = match name {
            Ok(name) => name,
            Err(e) => {
                return Err(e);
            },
        };
        let name = match shape_field_name_of(name) {
            Ok(name) => name,
            Err(e) => {
                return Err(e);
            },
        };
        let type_ = match type_ {
            Ok(type_) => type_,
            Err(e) => {
                return Err(e);
            },
        };
        let ty = match self.node_to_ty(type_) {
            Ok(ty) => ty,
            Err(e) => {
                return Err(e);
            },
        };
        Ok(Node_::ShapeFieldSpecifier { name, type_: ShapeFieldType { optional, ty } }.with_view())
    }

    pub fn make_varray_type_specifier(
        &mut self,
        varray: Node<'a>,
        _less_than: Node<'a>,
        tparam: Node<'a>,
        _arg3: Node<'a>,
        greater_than: Node<'a>,
    ) -> (r: Node<'a>)
        ensures
            final(self)@ == old(self)@,
            result_view(r) == old(self)@.make_varray_type_specifier(
                result_view(varray),
                result_view(tparam),
                result_view(greater_than),
            ),
    {
        let pos = match keyword_pos_of(varray, greater_than) {
            Ok(pos) => pos,
            Err(e) => {
                return Err(e);
            },
        };
        let tparam = match tparam {
            Ok(tparam) => tparam,
            Err(e) => {
                return Err(e);
            },
        };
        match self.node_to_ty(tparam) {
            Err(e) => Err(e),
            Ok(ty) => Ok(self.hint_ty(pos, Ty_::Tvarray(ty))),
        }
    }

    pub fn make_vector_array_type_specifier(
        &mut self,
        array: Node<'a>,
        _less_than: Node<'a>,
        tparam: Node<'a>,
        greater_than: Node<'a>,
    ) -> (r: Node<'a>)
        ensures
            final(self)@ == old(self)@,
            result_view(r) == old(self)@.make_vector_array_type_specifier(
                result_view(array),
                result_view(tparam),
                result_view(greater_than),
            ),
    {
        let pos = match keyword_pos_of(array, greater_than) {
            Ok(pos) => pos,
            Err(e) => {
                return Err(e);
            },
        };
        let tparam = match tparam {
            Ok(tparam) => tparam,
            Err(e) => {
                return Err(e);
            },
        };
        match self.optional_ty(tparam) {
            Err(e) => Err(e),
            Ok(key_type) => Ok(self.hint_ty(pos, Ty_::Tarray(key_type, None))),
        }
    }

    pub fn make_darray_type_specifier(
        &mut self,
        darray: Node<'a>,
        _less_than: Node<'a>,
        key_type: Node<'a>,
        _comma: Node<'a>,
        value_type: Node<'a>,
        _arg5: Node<'a>,
        greater_than: Node<'a>,
    ) -> (r: Node<'a>)
        ensures
            final(self)@ == old(self)@,
            result_view(r) == old(self)@.make_darray_type_specifier(
                result_view(darray),
                result_view(key_type),
                result_view(value_type),
                result_view(greater_than),
            ),
    {
        let pos = match keyword_pos_of(darray, greater_than) {
            Ok(pos) => pos,
            Err(e) => {
                return Err(e);
            },
        };
        let key_type = match key_type {
            Ok(key_type) => key_type,
            Err(e) => {
                return Err(e);
            },
        };
        let value_type = match value_type {
            Ok(value_type) => value_type,
            Err(e) => {
                return Err(e);
            },
        };
        let key_type = self.node_to_ty_or_any(key_type);
        let value_type = self.node_to_ty_or_any(value_type);
        Ok(self.hint_ty(pos, Ty_::Tdarray(key_type, value_type)))
    }

    pub fn make_map_array_type_specifier(
        &mut self,
        array: Node<'a>,
        _less_than: Node<'a>,
        key_type: Node<'a>,
        _comma: Node<'a>,
        value_type: Node<'a>,
        greater_than: Node<'a>,
    ) -> (r: Node<'a>)
        ensures
            final(self)@ == old(self)@,
            result_view(r) == old(self)@.make_map_array_type_specifier(
                result_view(array),
                result_view(key_type),
                result_view(value_type),
                result_view(greater_than),
            ),
    {
        let pos = match bracket_pos_of(array, greater_than) {
            Ok(pos) => pos,
            Err(e) => {
                return Err(e);
            },
        };
        let key_type = match key_type {
            Ok(key_type) => key_type,
            Err(e) => {
                return Err(e);
            },
        };
        let key_type = match self.optional_ty(key_type) {
            Ok(key_type) => key_type,
            Err(e) => {
                return Err(e);
            },
        };
        let value_type = match value_type {
            Ok(value_type) => value_type,
            Err(e) => {
                return Err(e);
            },
        };
        let value_type = match self.optional_ty(value_type) {
            Ok(value_type) => value_type,
            Err(e) => {
                return Err(e);
            },
        };
        Ok(self.hint_ty(pos, Ty_::Tarray(key_type, value_type)))
    }

    /// The span of the prefix token `prefix` and the hint `hint`.
    fn prefixed_pos(prefix: Node<'a>, hint: Node_<'a>) -> (r: Result<Pos<'a>, ParseError>)
        ensures
            pos_result_view(r) == StateView::prefixed_pos(result_view(prefix), hint@),
    {
        let hint_pos = match hint.get_pos() {
            Ok(pos) => pos,
            Err(e) => {
                return Err(e);
            },
        };
        let prefix = match prefix {
            Ok(prefix) => prefix,
            Err(e) => {
                return Err(e);
            },
        };
        let prefix_pos = match prefix.get_pos() {
            Ok(pos) => pos,
            Err(e) => {
                return Err(e);
            },
        };
        Pos::merge(prefix_pos, hint_pos)
    }

    pub fn make_nullable_type_specifier(&mut self, question_mark: Node<'a>, hint: Node<'a>) -> (r:
        Node<'a>)
        ensures
            final(self)@ == old(self)@,
            result_view(r) == old(self)@.make_nullable_type_specifier(
                result_view(question_mark),
                result_view(hint),
            ),
    {
        let hint = match hint {
            Ok(hint) => hint,
            Err(e) => {
                return Err(e);
            },
        };
        let pos = match Self::prefixed_pos(question_mark, hint) {
            Ok(pos) => pos,
            Err(e) => {
                return Err(e);
            },
        };
        match self.node_to_ty(hint) {
            Err(e) => Err(e),
            Ok(ty) => Ok(self.hint_ty(pos, Ty_::Toption(ty))),
        }
    }

    pub fn make_like_type_specifier(&mut self, tilde: Node<'a>, type_: Node<'a>) -> (r: Node<'a>)
        ensures
            final(self)@ == old(self)@,
            result_view(r) == old(self)@.make_like_type_specifier(
                result_view(tilde),
                result_view(type_),
            ),
    {
        let tilde = match tilde {
            Ok(tilde) => tilde,
            Err(e) => {
                return Err(e);
            },
        };
        let type_ = match type_ {
            Ok(type_) => type_,
            Err(e) => {
                return Err(e);
            },
        };
        let tilde_pos = match tilde.get_pos() {
            Ok(pos) => pos,
            Err(e) => {
                return Err(e);
            },
        };
        let type_pos = match type_.get_pos() {
            Ok(pos) => pos,
            Err(e) => {
                return Err(e);
            },
        };
        let pos = match Pos::merge(tilde_pos, type_pos) {
            Ok(pos) => pos,
            Err(e) => {
                return Err(e);
            },
        };
        match self.node_to_ty(type_) {
            Err(e) => Err(e),
            Ok(ty) => Ok(self.hint_ty(pos, Ty_::Tlike(ty))),
        }
    }

    /// The type of `hint`, stated at `pos`.
    fn restate(&self, pos: Pos<'a>, hint: Node_<'a>) -> (r: Node<'a>)
        ensures
            result_view(r) == match self@.node_to_ty(hint@) {
                Err(e) => Err::<NodeView, ParseError>(e),
                Ok(ty) => Ok(hint_ty(pos@, *ty.1)),
            },
    {
        match self.node_to_ty(hint) {
            Err(e) => Err(e),
            Ok(ty) => {
                assert(ty@ == TyView(ty.0@, Box::new((*ty.1)@)));
                Ok(self.hint_ty(pos, *ty.1))
            },
        }
    }

    pub fn make_soft_type_specifier(&mut self, at_token: Node<'a>, hint: Node<'a>) -> (r: Node<'a>)
        ensures
            final(self)@ == old(self)@,
            result_view(r) == old(self)@.make_soft_type_specifier(
                result_view(at_token),
                result_view(hint),
            ),
    {
        let hint = match hint {
            Ok(hint) => hint,
            Err(e) => {
                return Err(e);
            },
        };
        // The typechecker makes nothing of a soft type: the type is that of
        // the hint, and only the position takes in the `@`.
        match Self::prefixed_pos(at_token, hint) {
            Err(e) => Err(e),
            Ok(pos) => self.restate(pos, hint),
        }
    }

    /// The positions of `<<` and `>>` where the attributes between them are
    /// `__Soft` alone.
    fn soft_attribute(attributes: Node_<'a>) -> (r: Option<(Pos<'a>, Pos<'a>)>)
        ensures
            match r {
                Some((ltlt, gtgt)) => StateView::soft_attribute(attributes@) == Some(
                    (ltlt@, gtgt@),
                ),
                None => StateView::soft_attribute(attributes@) is None,
            },
    {
        proof {
            lemma_node_view(attributes);
        }
        match attributes {
            Node_::BracketedList(ltlt, items, gtgt) => {
                if items.len() == 1 {
                    match items[0].as_attribute() {
                        Some(attr) => if str_eq(attr.name.1, "__Soft") {
                            Some((ltlt, gtgt))
                        } else {
                            None
                        },
                        None => None,
                    }
                } else {
                    None
                }
            },
            _ => None,
        }
    }

    /// A hint with attributes before it. At present `__Soft` is the only
    /// attribute that may stand there.
    pub fn make_attributized_specifier(&mut self, attributes: Node<'a>, hint: Node<'a>) -> (r: Node<
        'a,
    >)
        ensures
            final(self)@ == old(self)@,
            result_view(r) == old(self)@.make_attributized_specifier(
                result_view(attributes),
                result_view(hint),
            ),
    {
        let attributes = match attributes {
            Ok(attributes) => attributes,
            Err(e) => {
                return Err(e);
            },
        };
        match Self::soft_attribute(attributes) {
            None => hint,
            Some((ltlt, gtgt)) => {
                let attributes_pos = match Pos::merge(ltlt, gtgt) {
                    Ok(pos) => pos,
                    Err(e) => {
                        return Err(e);
                    },
                };
                let hint = match hint {
                    Ok(hint) => hint,
                    Err(e) => {
                        return Err(e);
                    },
                };
                let hint_pos = match hint.get_pos() {
                    Ok(pos) => pos,
                    Err(e) => {
                        return Err(e);
                    },
                };
                match Pos::merge(attributes_pos, hint_pos) {
                    Err(e) => Err(e),
                    Ok(pos) => self.restate(pos, hint),
                }
            },
        }
    }

    /// `vec<T>`, `dict<K, V>` or `keyset<T>`.
    fn make_builtin_generic(&self, keyword: Node<'a>, hint: Node<'a>, greater_than: Node<'a>) -> (r:
        Node<'a>)
        ensures
            result_view(r) == self@.make_builtin_generic(
                result_view(keyword),
                result_view(hint),
                result_view(greater_than),
            ),
    {
        proof {
            reveal_strlit("");
            assert(""@ =~= Seq::<char>::empty());
        }
        let keyword = match keyword {
            Ok(keyword) => keyword,
            Err(e) => {
                return Err(e);
            },
        };
        let id = match self.get_name("", keyword) {
            Ok(id) => id,
            Err(e) => {
                return Err(e);
            },
        };
        let hint = match hint {
            Ok(hint) => hint,
            Err(e) => {
                return Err(e);
            },
        };
        let greater_than = match greater_than {
            Ok(greater_than) => greater_than,
            Err(e) => {
                return Err(e);
            },
        };
        self.make_apply(id, hint, pos_if_any(greater_than))
    }

    pub fn make_vector_type_specifier(
        &mut self,
        vec: Node<'a>,
        _arg1: Node<'a>,
        hint: Node<'a>,
        _arg3: Node<'a>,
        greater_than: Node<'a>,
    ) -> (r: Node<'a>)
        ensures
            final(self)@ == old(self)@,
            result_view(r) == old(self)@.make_builtin_generic(
                result_view(vec),
                result_view(hint),
                result_view(greater_than),
            ),
    {
        self.make_builtin_generic(vec, hint, greater_than)
    }

    pub fn make_dictionary_type_specifier(
        &mut self,
        dict: Node<'a>,
        _arg1: Node<'a>,
        hint: Node<'a>,
        greater_than: Node<'a>,
    ) -> (r: Node<'a>)
        ensures
            final(self)@ == old(self)@,
            result_view(r) == old(self)@.make_builtin_generic(
                result_view(dict),
                result_view(hint),
                result_view(greater_than),
            ),
    {
        self.make_builtin_generic(dict, hint, greater_than)
    }

    pub fn make_keyset_type_specifier(
        &mut self,
        keyset: Node<'a>,
        _arg1: Node<'a>,
        hint: Node<'a>,
        _arg3: Node<'a>,
        greater_than: Node<'a>,
    ) -> (r: Node<'a>)
        ensures
            final(self)@ == old(self)@,
            result_view(r) == old(self)@.make_builtin_generic(
                result_view(keyset),
                result_view(hint),
                result_view(greater_than),
            ),
    {
        self.make_builtin_generic(keyset, hint, greater_than)
    }

    /// The parameter of a closure type that `node` stands for.
    fn closure_param(&self, node: Node_<'a>) -> (r: Result<FunParam<'a>, ParseError>)
        ensures
            match r {
                Ok(param) => self@.closure_param(node@) == Ok::<FunParamView, ParseError>(param@),
                Err(e) => self@.closure_param(node@) == Err::<FunParamView, ParseError>(e),
            },
    {
        let pos = match node.get_pos() {
            Ok(pos) => pos,
            Err(e) => {
                return Err(e);
            },
        };
        let ty = match self.node_to_ty(node) {
            Ok(ty) => ty,
            Err(e) => {
                return Err(e);
            },
        };
        Ok(
            FunParam {
                pos,
                name: None,
                type_: PossiblyEnforcedTy { enforced: false, type_: ty },
                flags: FunParamFlags { inout: false, has_default: false, mutability: None },
            },
        )
    }

    fn closure_params_of(&self, args: Node<'a>) -> (r: Result<&'a Vec<FunParam<'a>>, ParseError>)
        ensures
            match r {
                Ok(params) => result_view(args) is Ok && self@.closure_params_of_first(
                    result_view(args)->Ok_0.items(),
                    result_view(args)->Ok_0.items().len(),
                ) == Ok::<Seq<FunParamView>, ParseError>(fun_params_view(params)),
                Err(e) => match result_view(args) {
                    Err(e2) => e == e2,
                    Ok(args) => self@.closure_params_of_first(args.items(), args.items().len())
                        == Err::<Seq<FunParamView>, ParseError>(e),
                },
            },
    {
        let node = match args {
            Ok(node) => node,
            Err(e) => {
                return Err(e);
            },
        };
        let nodes = node.as_slice(self.state.arena);
        let ghost views = nodes_view(nodes);
        let mut params: Vec<FunParam<'a>> = Vec::new();
        assert(fun_params_view(&params) =~= Seq::<FunParamView>::empty());
        let mut i: usize = 0;
        while i < nodes.len()
            invariant
                i <= nodes.len(),
                views == nodes_view(nodes),
                result_view(args) == Ok::<NodeView, ParseError>(node@),
                views == node@.items(),
                self@.closure_params_of_first(views, i as nat) == Ok::<
                    Seq<FunParamView>,
                    ParseError,
                >(fun_params_view(&params)),
            decreases nodes.len() - i,
        {
            let ghost before = fun_params_view(&params);
            match self.closure_param(nodes[i]) {
                Err(e) => {
                    proof {
                        lemma_closure_params_fail(self@, views, (i + 1) as nat, nodes.len() as nat);
                    }
                    return Err(e);
                },
                Ok(param) => {
                    params.push(param);
                    assert(fun_params_view(&params) =~= before.push(param@));
                },
            }
            i = i + 1;
        }
        let ghost built = fun_params_view(&params);
        let r = self.allocate(params);
        assert(fun_params_view(r) =~= built);
        Ok(r)
    }

    pub fn make_closure_type_specifier(
        &mut self,
        left_paren: Node<'a>,
        _arg1: Node<'a>,
        _arg2: Node<'a>,
        _arg3: Node<'a>,
        args: Node<'a>,
        _arg5: Node<'a>,
        _arg6: Node<'a>,
        ret_hint: Node<'a>,
        right_paren: Node<'a>,
    ) -> (r: Node<'a>)
        ensures
            final(self)@ == old(self)@,
            result_view(r) == old(self)@.make_closure_type_specifier(
                result_view(left_paren),
                result_view(args),
                result_view(ret_hint),
                result_view(right_paren),
            ),
    {
        let params = match self.closure_params_of(args) {
            Ok(params) => params,
            Err(e) => {
                return Err(e);
            },
        };
        let ret_hint = match ret_hint {
            Ok(ret_hint) => ret_hint,
            Err(e) => {
                return Err(e);
            },
        };
        let ret = match self.node_to_ty(ret_hint) {
            Ok(ret) => ret,
            Err(e) => {
                return Err(e);
            },
        };
        let pos = match bracket_pos_of(left_paren, right_paren) {
            Ok(pos) => pos,
            Err(e) => {
                return Err(e);
            },
        };
        let tparams: Vec<Tparam<'a>> = Vec::new();
        let tparams = self.allocate(tparams);
        assert(tparams_view(tparams) =~= Seq::<TparamView>::empty());
        let ft = self.allocate(
            FunType {
                arity: FunArity::Fstandard,
                tparams,
                params,
                ret: PossiblyEnforcedTy { enforced: false, type_: ret },
                reactive: Reactivity::Nonreactive,
                flags: FunTypeFlags {
                    is_async: false,
                    generator: false,
                    is_coroutine: false,
                    returns_mutable: false,
                    returns_void_to_rx: false,
                    mutability: None,
                },
            },
        );
        assert(ft@ == FunTypeView {
            arity: FunArityView::Fstandard,
            tparams: Seq::empty(),
            params: fun_params_view(params),
            ret: PossiblyEnforcedTyView { enforced: false, type_: ret@ },
            reactive: ReactivityView::Nonreactive,
            flags: FunTypeFlags::empty(),
        });
        Ok(self.hint_ty(pos, Ty_::Tfun(ft)))
    }

    /// The type that stands before the first `::` of a chain.
    fn type_constant_root(&self, ty: Node_<'a>) -> (r: Result<Ty<'a>, ParseError>)
        ensures
            ty_result_view(r) == self@.type_constant_root(ty@),
    {
        proof {
            lemma_node_view(ty);
        }
        match ty {
            Node_::Name(name, self_pos) => {
                if str_eq(name, "self") {
                    match self.state.classish_name_builder.get_current_classish_name() {
                        Some((class_name, class_name_pos)) => {
                            // A trait is no type: there the position stays
                            // that of `self`.
                            let id_pos = if class_name_pos.is_none() {
                                self_pos
                            } else {
                                class_name_pos
                            };
                            let targs: Vec<Ty<'a>> = Vec::new();
                            let targs = self.allocate(targs);
                            assert(tys_view(targs) =~= Seq::<TyView>::empty());
                            Ok(
                                self.mk_ty(
                                    Reason::Rhint(self_pos),
                                    Ty_::Tapply(Id(id_pos, class_name), targs),
                                ),
                            )
                        },
                        None => self.node_to_ty(ty),
                    }
                } else {
                    self.node_to_ty(ty)
                }
            },
            _ => self.node_to_ty(ty),
        }
    }

    pub fn make_type_constant(
        &mut self,
        ty: Node<'a>,
        _coloncolon: Node<'a>,
        constant_name: Node<'a>,
    ) -> (r: Node<'a>)
        ensures
            final(self)@ == old(self)@,
            result_view(r) == old(self)@.make_type_constant(
                result_view(ty),
                result_view(constant_name),
            ),
    {
        proof {
            reveal_strlit("");
            assert(""@ =~= Seq::<char>::empty());
        }
        let ty = match ty {
            Ok(ty) => ty,
            Err(e) => {
                return Err(e);
            },
        };
        let constant_name = match constant_name {
            Ok(constant_name) => constant_name,
            Err(e) => {
                return Err(e);
            },
        };
        let id = match self.get_name("", constant_name) {
            Ok(id) => id,
            Err(e) => {
                return Err(e);
            },
        };
        let ty_pos = match ty.get_pos() {
            Ok(pos) => pos,
            Err(e) => {
                return Err(e);
            },
        };
        let name_pos = match constant_name.get_pos() {
            Ok(pos) => pos,
            Err(e) => {
                return Err(e);
            },
        };
        let pos = match Pos::merge(ty_pos, name_pos) {
            Ok(pos) => pos,
            Err(e) => {
                return Err(e);
            },
        };
        self.type_constant_at(pos, ty, id)
    }

    /// The access `ty::id` at `pos`.
    fn type_constant_at(&self, pos: Pos<'a>, ty: Node_<'a>, id: Id<'a>) -> (r: Node<'a>)
        ensures
            result_view(r) == match ty@ {
                NodeView::TypeconstAccess(_, root, names) => Ok::<NodeView, ParseError>(
                    NodeView::TypeconstAccess(pos@, root, names.push(id@)),
                ),
                _ => match self@.type_constant_root(ty@) {
                    Err(e) => Err(e),
                    Ok(root) => Ok(NodeView::TypeconstAccess(pos@, root, seq![id@])),
                },
            },
    {
        proof {
            lemma_node_view(ty);
        }
        match ty {
            Node_::TypeconstAccess(_, root, names) => {
                // A chain grows by a name: it is not nested in a new chain.
                let longer = crate::namespace::vec_with(names, id);
                let longer = self.allocate(longer);
                assert(ids_view(longer@) =~= ids_view(names@).push(id@));
                Ok(Node_::TypeconstAccess(pos, root, longer).with_view())
            },
            _ => {
                match self.type_constant_root(ty) {
                    Err(e) => Err(e),
                    Ok(root) => {
                        let mut names: Vec<Id<'a>> = Vec::new();
                        names.push(id);
                        let names = self.allocate(names);
                        assert(ids_view(names@) =~= seq![id@]);
                        Ok(Node_::TypeconstAccess(pos, root, names).with_view())
                    },
                }
            },
        }
    }
}

} // verus!
