//! From the attributes written above a declaration to the flags that they
//! set.

use crate::aast::{
    exprs_view, ClassIdView, ClassIdView_, ClassId_, Expr, ExprView, ExprView_, Expr_,
    UserAttribute, UserAttributeView,
};
use crate::arena::{
    arena_alloc, arena_string_into_str, arena_string_new, arena_string_push_str, arena_string_text,
};
use crate::ast_defs::Bop;
use crate::error::ParseError;
use crate::node::{nodes_view, NodeView, Node_};
use crate::pos::{Pos, PosView};
use crate::shallow_decl_defs::opt_pos_view;
use crate::text::str_eq;
use crate::typing_defs::{
    opt_str_view, opt_ty_view, tys_view, ParamMutability, Reactivity, ReactivityView, Reason,
    ReasonView, Ty, TyView, TyView_, Ty_,
};
use bumpalo::Bump;
use vstd::prelude::*;
use vstd::string::*;

verus! {

/// What the attributes of a declaration say.
#[derive(Clone, Copy, Debug)]
pub struct Attributes<'a> {
    pub reactivity: Reactivity<'a>,
    pub param_mutability: Option<ParamMutability>,
    pub deprecated: Option<&'a str>,
    pub reifiable: Option<Pos<'a>>,
    pub returns_mutable: bool,
    pub late_init: bool,
    pub const_: bool,
    pub lsb: bool,
    pub memoizelsb: bool,
    pub override_: bool,
    pub at_most_rx_as_func: bool,
    pub enforceable: Option<Pos<'a>>,
    pub returns_void_to_rx: bool,
}

pub struct AttributesView {
    pub reactivity: ReactivityView,
    pub param_mutability: Option<ParamMutability>,
    pub deprecated: Option<Seq<char>>,
    pub reifiable: Option<PosView>,
    pub returns_mutable: bool,
    pub late_init: bool,
    pub const_: bool,
    pub lsb: bool,
    pub memoizelsb: bool,
    pub override_: bool,
    pub at_most_rx_as_func: bool,
    pub enforceable: Option<PosView>,
    pub returns_void_to_rx: bool,
}

impl<'a> View for Attributes<'a> {
    type V = AttributesView;

    open spec fn view(&self) -> AttributesView {
        AttributesView {
            reactivity: self.reactivity@,
            param_mutability: self.param_mutability,
            deprecated: opt_str_view(self.deprecated),
            reifiable: opt_pos_view(self.reifiable),
            returns_mutable: self.returns_mutable,
            late_init: self.late_init,
            const_: self.const_,
            lsb: self.lsb,
            memoizelsb: self.memoizelsb,
            override_: self.override_,
            at_most_rx_as_func: self.at_most_rx_as_func,
            enforceable: opt_pos_view(self.enforceable),
            returns_void_to_rx: self.returns_void_to_rx,
        }
    }
}

impl AttributesView {
    /// What no attribute at all says.
    pub open spec fn empty() -> AttributesView {
        AttributesView {
            reactivity: ReactivityView::Nonreactive,
            param_mutability: None,
            deprecated: None,
            reifiable: None,
            returns_mutable: false,
            late_init: false,
            const_: false,
            lsb: false,
            memoizelsb: false,
            override_: false,
            at_most_rx_as_func: false,
            enforceable: None,
            returns_void_to_rx: false,
        }
    }
}

/// The string that an expression built from string literals and `.` spells.
/// Any other expression adds nothing.
pub open spec fn string_concat(e: ExprView) -> Seq<char>
    decreases e,
{
    match e.1 {
        ExprView_::String(val) => val,
        ExprView_::Binop(Bop::Dot, e1, e2) => string_concat(*e1) + string_concat(*e2),
        _ => Seq::empty(),
    }
}

/// The message of `__Deprecated`: its first argument, where that is a string
/// literal or built with binary operators.
pub open spec fn deprecation_message(params: Seq<ExprView>) -> Option<Seq<char>> {
    if params.len() == 0 {
        None
    } else {
        match params[0].1 {
            ExprView_::String(val) => Some(val),
            ExprView_::Binop(_, _, _) => Some(string_concat(params[0])),
            _ => None,
        }
    }
}

/// The type `X` of an attribute `__OnlyRxIfImpl(X::class)`.
pub open spec fn only_rx_if_impl(attr: UserAttributeView) -> Option<TyView> {
    if attr.name.1 == "__OnlyRxIfImpl"@ && attr.params.len() == 1 {
        match attr.params[0] {
            ExprView(
                pos,
                ExprView_::ClassConst(ClassIdView(_, ClassIdView_::CI(class_name)), member),
            ) => if member.1 == "class"@ {
                Some(
                    TyView(
                        ReasonView::Rhint(pos),
                        Box::new(TyView_::Tapply(class_name, Seq::empty())),
                    ),
                )
            } else {
                None
            },
            _ => None,
        }
    } else {
        None
    }
}

/// The condition type that the first `n` of `items` give: that of the last
/// `__OnlyRxIfImpl` among them.
pub open spec fn condition_type(items: Seq<NodeView>, n: nat) -> Option<TyView>
    decreases n,
{
    if n == 0 || n > items.len() {
        None
    } else {
        match items[n - 1] {
            NodeView::Attribute(attr) => match only_rx_if_impl(attr) {
                Some(ty) => Some(ty),
                None => condition_type(items, (n - 1) as nat),
            },
            _ => condition_type(items, (n - 1) as nat),
        }
    }
}

/// What is known after one more attribute: the flags, and the condition type
/// that is still to be given to a reactivity attribute.
pub open spec fn apply_attribute(
    attributes: AttributesView,
    condition: Option<TyView>,
    attr: UserAttributeView,
) -> (AttributesView, Option<TyView>) {
    let name = attr.name.1;
    if name == "__Rx"@ {
        (AttributesView { reactivity: ReactivityView::Reactive(condition), ..attributes }, None)
    } else if name == "__RxShallow"@ {
        (AttributesView { reactivity: ReactivityView::Shallow(condition), ..attributes }, None)
    } else if name == "__RxLocal"@ {
        (AttributesView { reactivity: ReactivityView::Local(condition), ..attributes }, None)
    } else if name == "__Mutable"@ {
        (
            AttributesView {
                param_mutability: Some(ParamMutability::ParamBorrowedMutable),
                ..attributes
            },
            condition,
        )
    } else if name == "__MaybeMutable"@ {
        (
            AttributesView {
                param_mutability: Some(ParamMutability::ParamMaybeMutable),
                ..attributes
            },
            condition,
        )
    } else if name == "__OwnedMutable"@ {
        (
            AttributesView {
                param_mutability: Some(ParamMutability::ParamOwnedMutable),
                ..attributes
            },
            condition,
        )
    } else if name == "__MutableReturn"@ {
        (AttributesView { returns_mutable: true, ..attributes }, condition)
    } else if name == "__ReturnsVoidToRx"@ {
        (AttributesView { returns_void_to_rx: true, ..attributes }, condition)
    } else if name == "__Deprecated"@ {
        (AttributesView { deprecated: deprecation_message(attr.params), ..attributes }, condition)
    } else if name == "__Reifiable"@ {
        (AttributesView { reifiable: Some(attr.name.0), ..attributes }, condition)
    } else if name == "__LateInit"@ {
        (AttributesView { late_init: true, ..attributes }, condition)
    } else if name == "__Const"@ {
        (AttributesView { const_: true, ..attributes }, condition)
    } else if name == "__LSB"@ {
        (AttributesView { lsb: true, ..attributes }, condition)
    } else if name == "__MemoizeLSB"@ {
        (AttributesView { memoizelsb: true, ..attributes }, condition)
    } else if name == "__Override"@ {
        (AttributesView { override_: true, ..attributes }, condition)
    } else if name == "__AtMostRxAsFunc"@ {
        (AttributesView { at_most_rx_as_func: true, ..attributes }, condition)
    } else if name == "__Enforceable"@ {
        (AttributesView { enforceable: Some(attr.name.0), ..attributes }, condition)
    } else {
        (attributes, condition)
    }
}

/// What the first `n` of `items` say, or the failure where one of them is no
/// attribute.
pub open spec fn attributes_of_first(items: Seq<NodeView>, n: nat) -> Result<
    (AttributesView, Option<TyView>),
    ParseError,
>
    decreases n,
{
    if n == 0 || n > items.len() {
        Ok((AttributesView::empty(), condition_type(items, items.len())))
    } else {
        match attributes_of_first(items, (n - 1) as nat) {
            Err(e) => Err(e),
            Ok((attributes, condition)) => match items[n - 1] {
                NodeView::Attribute(attr) => Ok(apply_attribute(attributes, condition, attr)),
                _ => Err(ParseError::ExpectedAttribute),
            },
        }
    }
}

impl NodeView {
    /// The flags that the attributes in the node set. The type of an
    /// `__OnlyRxIfImpl` goes to the first of `__Rx`, `__RxShallow` and
    /// `__RxLocal`. A name that is not known sets nothing.
    pub open spec fn as_attributes(self) -> Result<AttributesView, ParseError> {
        match attributes_of_first(self.items(), self.items().len()) {
            Ok((attributes, _)) => Ok(attributes),
            Err(e) => Err(e),
        }
    }
}

pub open spec fn attributes_result_view(r: Result<Attributes, ParseError>) -> Result<
    AttributesView,
    ParseError,
> {
    match r {
        Ok(a) => Ok(a@),
        Err(e) => Err(e),
    }
}

/// Once an item is no attribute, the whole list fails.
pub proof fn lemma_attributes_fail(items: Seq<NodeView>, n: nat, m: nat)
    requires
        0 < n <= m <= items.len(),
        attributes_of_first(items, n) is Err,
    ensures
        attributes_of_first(items, m) == attributes_of_first(items, n),
    decreases m - n,
{
    if n < m {
        lemma_attributes_fail(items, n, (m - 1) as nat);
    }
}

/// Adds to `acc` the string that `expr` spells.
fn fold_string_concat(expr: &Expr, acc: &mut bumpalo::collections::String)
    ensures
        arena_string_text(*final(acc)) == arena_string_text(*old(acc)) + string_concat(expr@),
    decreases expr,
{
    match expr.1 {
        Expr_::String(val) => {
            arena_string_push_str(acc, val);
        },
        Expr_::Binop(Bop::Dot, e1, e2) => {
            assert(expr@.1 == ExprView_::Binop(Bop::Dot, Box::new(e1@), Box::new(e2@)));
            fold_string_concat(e1, acc);
            fold_string_concat(e2, acc);
            assert(arena_string_text(*old(acc)) + string_concat(e1@) + string_concat(e2@)
                =~= arena_string_text(*old(acc)) + (string_concat(e1@) + string_concat(e2@)));
        },
        _ => {
            assert(arena_string_text(*old(acc)) + Seq::<char>::empty() =~= arena_string_text(
                *old(acc),
            ));
        },
    }
}

/// The message of `__Deprecated`.
fn deprecation_message_of<'a>(arena: &'a Bump, params: &'a Vec<Expr<'a>>) -> (r: Option<&'a str>)
    ensures
        opt_str_view(r) == deprecation_message(exprs_view(params)),
{
    if params.len() == 0 {
        None
    } else {
        let expr = params[0];
        assert(exprs_view(params)[0] == expr@);
        match expr.1 {
            Expr_::String(val) => Some(val),
            Expr_::Binop(_, _, _) => {
                let mut acc = arena_string_new(arena);
                fold_string_concat(&expr, &mut acc);
                assert(Seq::<char>::empty() + string_concat(expr@) =~= string_concat(expr@));
                Some(arena_string_into_str(acc))
            },
            _ => None,
        }
    }
}

/// The type `X` of an attribute `__OnlyRxIfImpl(X::class)`.
fn only_rx_if_impl_of<'a>(arena: &'a Bump, attr: UserAttribute<'a>) -> (r: Option<Ty<'a>>)
    ensures
        opt_ty_view(r) == only_rx_if_impl(attr@),
{
    if str_eq(attr.name.1, "__OnlyRxIfImpl") && attr.params.len() == 1 {
        let expr = attr.params[0];
        assert(exprs_view(attr.params)[0] == expr@);
        match expr.1 {
            Expr_::ClassConst(class_id, member) => {
                match class_id.1 {
                    ClassId_::CI(class_name) => {
                        if str_eq(member.1, "class") {
                            let targs: Vec<Ty<'a>> = Vec::new();
                            let targs = arena_alloc(arena, targs);
                            let ty_ = arena_alloc(arena, Ty_::Tapply(class_name, targs));
                            let ty = Ty(Reason::Rhint(expr.0), ty_);
                            assert(tys_view(targs) =~= Seq::<TyView>::empty());
                            assert(ty@ == TyView(
                                ReasonView::Rhint(expr.0@),
                                Box::new(TyView_::Tapply(class_name@, Seq::empty())),
                            ));
                            Some(ty)
                        } else {
                            None
                        }
                    },
                    _ => None,
                }
            },
            _ => None,
        }
    } else {
        None
    }
}

/// What is known after one more attribute.
fn apply_attribute_of<'a>(
    arena: &'a Bump,
    attributes: Attributes<'a>,
    condition: Option<Ty<'a>>,
    attr: UserAttribute<'a>,
) -> (r: (Attributes<'a>, Option<Ty<'a>>))
    ensures
        (r.0@, opt_ty_view(r.1)) == apply_attribute(attributes@, opt_ty_view(condition), attr@),
{
    let mut attributes = attributes;
    let name = attr.name.1;
    // It is an error to give more than one of __Rx, __RxShallow and
    // __RxLocal: the first of them takes the condition type.
    if str_eq(name, "__Rx") {
        attributes.reactivity = Reactivity::Reactive(condition);
        (attributes, None)
    } else if str_eq(name, "__RxShallow") {
        attributes.reactivity = Reactivity::Shallow(condition);
        (attributes, None)
    } else if str_eq(name, "__RxLocal") {
        attributes.reactivity = Reactivity::Local(condition);
        (attributes, None)
    } else if str_eq(name, "__Mutable") {
        attributes.param_mutability = Some(ParamMutability::ParamBorrowedMutable);
        (attributes, condition)
    } else if str_eq(name, "__MaybeMutable") {
        attributes.param_mutability = Some(ParamMutability::ParamMaybeMutable);
        (attributes, condition)
    } else if str_eq(name, "__OwnedMutable") {
        attributes.param_mutability = Some(ParamMutability::ParamOwnedMutable);
        (attributes, condition)
    } else if str_eq(name, "__MutableReturn") {
        attributes.returns_mutable = true;
        (attributes, condition)
    } else if str_eq(name, "__ReturnsVoidToRx") {
        attributes.returns_void_to_rx = true;
        (attributes, condition)
    } else if str_eq(name, "__Deprecated") {
        attributes.deprecated = deprecation_message_of(arena, attr.params);
        (attributes, condition)
    } else if str_eq(name, "__Reifiable") {
        attributes.reifiable = Some(attr.name.0);
        (attributes, condition)
    } else if str_eq(name, "__LateInit") {
        attributes.late_init = true;
        (attributes, condition)
    } else if str_eq(name, "__Const") {
        attributes.const_ = true;
        (attributes, condition)
    } else if str_eq(name, "__LSB") {
        attributes.lsb = true;
        (attributes, condition)
    } else if str_eq(name, "__MemoizeLSB") {
        attributes.memoizelsb = true;
        (attributes, condition)
    } else if str_eq(name, "__Override") {
        attributes.override_ = true;
        (attributes, condition)
    } else if str_eq(name, "__AtMostRxAsFunc") {
        attributes.at_most_rx_as_func = true;
        (attributes, condition)
    } else if str_eq(name, "__Enforceable") {
        attributes.enforceable = Some(attr.name.0);
        (attributes, condition)
    } else {
        (attributes, condition)
    }
}

/// The condition type that `items` give.
fn condition_type_of<'a>(arena: &'a Bump, items: &'a Vec<Node_<'a>>) -> (r: Option<Ty<'a>>)
    ensures
        opt_ty_view(r) == condition_type(nodes_view(items), items.len() as nat),
{
    let ghost views = nodes_view(items);
    let mut condition: Option<Ty<'a>> = None;
    let mut i: usize = 0;
    while i < items.len()
        invariant
            i <= items.len(),
            views == nodes_view(items),
            opt_ty_view(condition) == condition_type(views, i as nat),
        decreases items.len() - i,
    {
        assert(views[i as int] == items[i as int]@);
        match items[i].as_attribute() {
            Some(attr) => {
                match only_rx_if_impl_of(arena, attr) {
                    Some(ty) => {
                        condition = Some(ty);
                    },
                    None => {},
                }
            },
            None => {},
        }
        i = i + 1;
    }
    condition
}

impl<'a> Node_<'a> {
    /// The flags that the attributes in the node set.
    pub fn as_attributes(self, arena: &'a Bump) -> (r: Result<Attributes<'a>, ParseError>)
        ensures
            attributes_result_view(r) == self@.as_attributes(),
    {
        let items = self.as_slice(arena);
        let ghost views = nodes_view(items);
        let mut condition = condition_type_of(arena, items);
        let mut attributes = Attributes {
            reactivity: Reactivity::Nonreactive,
            param_mutability: None,
            deprecated: None,
            reifiable: None,
            returns_mutable: false,
            late_init: false,
            const_: false,
            lsb: false,
            memoizelsb: false,
            override_: false,
            at_most_rx_as_func: false,
            enforceable: None,
            returns_void_to_rx: false,
        };
        assert(attributes@ == AttributesView::empty());
        let mut i: usize = 0;
        while i < items.len()
            invariant
                i <= items.len(),
                views == nodes_view(items),
                views == self@.items(),
                attributes_of_first(views, i as nat) == Ok::<
                    (AttributesView, Option<TyView>),
                    ParseError,
                >((attributes@, opt_ty_view(condition))),
            decreases items.len() - i,
        {
            assert(views[i as int] == items[i as int]@);
            match items[i].as_attribute() {
                Some(attr) => {
                    let (a, c) = apply_attribute_of(arena, attributes, condition, attr);
                    attributes = a;
                    condition = c;
                },
                None => {
                    proof {
                        assert(attributes_of_first(views, (i + 1) as nat) == Err::<
                            (AttributesView, Option<TyView>),
                            ParseError,
                        >(ParseError::ExpectedAttribute));
                        lemma_attributes_fail(views, (i + 1) as nat, items.len() as nat);
                    }
                    return Err(ParseError::ExpectedAttribute);
                },
            }
            i = i + 1;
        }
        Ok(attributes)
    }
}

} // verus!
