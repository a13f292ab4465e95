//! Expressions and attributes, as far as declarations hold them.

use crate::ast_defs::{
    pstring_view, Bop, Id, IdView, Pstring, PstringView, ShapeFieldName, ShapeFieldNameView, Uop,
};
use crate::pos::{Pos, PosView};
use vstd::prelude::*;

verus! {

#[derive(Clone, Copy, Debug, PartialEq, Eq, Structural)]
pub enum Visibility {
    Private,
    Public,
    Protected,
}

#[derive(Clone, Copy, Debug, PartialEq, Eq, Structural)]
pub enum Tprim {
    Tnull,
    Tvoid,
    Tint,
    Tbool,
    Tfloat,
    Tstring,
    Tresource,
    Tnum,
    Tarraykey,
    Tnoreturn,
}

#[derive(Clone, Copy, Debug, PartialEq, Eq, Structural)]
pub enum ReifyKind {
    Erased,
    SoftReified,
    Reified,
}

#[derive(Clone, Copy, Debug, PartialEq, Eq, Structural)]
pub enum TypedefVisibility {
    Transparent,
    Opaque,
}

#[derive(Clone, Copy, Debug, PartialEq, Eq, Structural)]
pub enum KvcKind {
    MutMap,
    ImmMap,
    Dict,
}

#[derive(Clone, Copy, Debug, PartialEq, Eq, Structural)]
pub enum VcKind {
    Vector,
    ImmVector,
    Vec,
    MutSet,
    ImmSet,
    Pair,
    Keyset,
}

/// A local variable: a counter that tells apart variables of one name, and
/// the name.
pub type LocalId<'a> = (isize, &'a str);

/// A local variable with its position.
#[derive(Clone, Copy, Debug, PartialEq, Eq)]
pub struct Lid<'a>(pub Pos<'a>, pub LocalId<'a>);

pub struct LidView(pub PosView, pub (isize, Seq<char>));

impl<'a> View for Lid<'a> {
    type V = LidView;

    open spec fn view(&self) -> LidView {
        LidView(self.0@, (self.1.0, self.1.1@))
    }
}

impl<'a> Lid<'a> {
    /// The variable `s` at `p`, with counter 0.
    pub fn new(p: Pos<'a>, s: &'a str) -> (r: Lid<'a>)
        ensures
            r@ == LidView(p@, (0, s@)),
    {
        Lid(p, (0, s))
    }

    pub fn from_counter(p: Pos<'a>, counter: isize, s: &'a str) -> (r: Lid<'a>)
        ensures
            r@ == LidView(p@, (counter, s@)),
    {
        Lid(p, (counter, s))
    }

    pub fn name(&self) -> (r: &'a str)
        ensures
            r@ == self@.1.1,
    {
        self.1.1
    }
}

/// The class that a class constant is read from.
#[derive(Clone, Copy, Debug, PartialEq, Eq)]
pub enum ClassId_<'a> {
    CIparent,
    CIself,
    CIstatic,
    CI(Id<'a>),
}

pub enum ClassIdView_ {
    CIparent,
    CIself,
    CIstatic,
    CI(IdView),
}

#[derive(Clone, Copy, Debug, PartialEq, Eq)]
pub struct ClassId<'a>(pub Pos<'a>, pub ClassId_<'a>);

pub struct ClassIdView(pub PosView, pub ClassIdView_);

impl<'a> View for ClassId<'a> {
    type V = ClassIdView;

    open spec fn view(&self) -> ClassIdView {
        ClassIdView(
            self.0@,
            match self.1 {
                ClassId_::CIparent => ClassIdView_::CIparent,
                ClassId_::CIself => ClassIdView_::CIself,
                ClassId_::CIstatic => ClassIdView_::CIstatic,
                ClassId_::CI(id) => ClassIdView_::CI(id@),
            },
        )
    }
}

/// An element of an `array(...)` expression.
#[derive(Clone, Copy, Debug, PartialEq, Eq)]
pub enum Afield<'a> {
    AFvalue(Expr<'a>),
    AFkvalue(Expr<'a>, Expr<'a>),
}

pub enum AfieldView {
    AFvalue(ExprView),
    AFkvalue(ExprView, ExprView),
}

/// An expression with its position.
#[derive(Clone, Copy, Debug, PartialEq, Eq)]
pub struct Expr<'a>(pub Pos<'a>, pub Expr_<'a>);

#[derive(Clone, Copy, Debug, PartialEq, Eq)]
pub enum Expr_<'a> {
    Array(&'a Vec<Afield<'a>>),
    Darray(&'a Vec<(Expr<'a>, Expr<'a>)>),
    Varray(&'a Vec<Expr<'a>>),
    Shape(&'a Vec<(ShapeFieldName<'a>, Expr<'a>)>),
    ValCollection(VcKind, &'a Vec<Expr<'a>>),
    KeyValCollection(KvcKind, &'a Vec<(Expr<'a>, Expr<'a>)>),
    Null,
    True,
    False,
    Id(Id<'a>),
    ClassConst(ClassId<'a>, Pstring<'a>),
    Int(&'a str),
    Float(&'a str),
    String(&'a str),
    Unop(Uop, &'a Expr<'a>),
    Binop(Bop<'a>, &'a Expr<'a>, &'a Expr<'a>),
    List(&'a Vec<Expr<'a>>),
}

pub struct ExprView(pub PosView, pub ExprView_);

pub enum ExprView_ {
    Array(Seq<AfieldView>),
    Darray(Seq<(ExprView, ExprView)>),
    Varray(Seq<ExprView>),
    Shape(Seq<(ShapeFieldNameView, ExprView)>),
    ValCollection(VcKind, Seq<ExprView>),
    KeyValCollection(KvcKind, Seq<(ExprView, ExprView)>),
    Null,
    True,
    False,
    Id(IdView),
    ClassConst(ClassIdView, PstringView),
    Int(Seq<char>),
    Float(Seq<char>),
    String(Seq<char>),
    Unop(Uop, Box<ExprView>),
    Binop(Bop<'static>, Box<ExprView>, Box<ExprView>),
    List(Seq<ExprView>),
}

/// The operator without the reference that a compound assignment holds.
pub open spec fn bop_view(b: Bop) -> Bop<'static>
    decreases b,
{
    match b {
        Bop::Plus => Bop::Plus,
        Bop::Minus => Bop::Minus,
        Bop::Star => Bop::Star,
        Bop::Slash => Bop::Slash,
        Bop::Eqeq => Bop::Eqeq,
        Bop::Eqeqeq => Bop::Eqeqeq,
        Bop::Starstar => Bop::Starstar,
        Bop::Diff => Bop::Diff,
        Bop::Diff2 => Bop::Diff2,
        Bop::Ampamp => Bop::Ampamp,
        Bop::Barbar => Bop::Barbar,
        Bop::LogXor => Bop::LogXor,
        Bop::Lt => Bop::Lt,
        Bop::Lte => Bop::Lte,
        Bop::Gt => Bop::Gt,
        Bop::Gte => Bop::Gte,
        Bop::Dot => Bop::Dot,
        Bop::Amp => Bop::Amp,
        Bop::Bar => Bop::Bar,
        Bop::Ltlt => Bop::Ltlt,
        Bop::Gtgt => Bop::Gtgt,
        Bop::Percent => Bop::Percent,
        Bop::Xor => Bop::Xor,
        Bop::Cmp => Bop::Cmp,
        Bop::QuestionQuestion => Bop::QuestionQuestion,
        Bop::Eq(inner) => Bop::Eq(inner),
    }
}

pub open spec fn exprs_view(exprs: &Vec<Expr>) -> Seq<ExprView>
    decreases exprs,
{
    Seq::new(
        exprs.len() as nat,
        |i: int|
            if 0 <= i < exprs.len() {
                expr_view(exprs[i])
            } else {
                arbitrary()
            },
    )
}

pub open spec fn expr_pairs_view(pairs: &Vec<(Expr, Expr)>) -> Seq<(ExprView, ExprView)>
    decreases pairs,
{
    Seq::new(
        pairs.len() as nat,
        |i: int|
            if 0 <= i < pairs.len() {
                (expr_view(pairs[i].0), expr_view(pairs[i].1))
            } else {
                arbitrary()
            },
    )
}

pub open spec fn afields_view(fields: &Vec<Afield>) -> Seq<AfieldView>
    decreases fields,
{
    Seq::new(
        fields.len() as nat,
        |i: int|
            if 0 <= i < fields.len() {
                match fields[i] {
                    Afield::AFvalue(v) => AfieldView::AFvalue(expr_view(v)),
                    Afield::AFkvalue(k, v) => AfieldView::AFkvalue(expr_view(k), expr_view(v)),
                }
            } else {
                arbitrary()
            },
    )
}

pub open spec fn shape_exprs_view(fields: &Vec<(ShapeFieldName, Expr)>) -> Seq<
    (ShapeFieldNameView, ExprView),
>
    decreases fields,
{
    Seq::new(
        fields.len() as nat,
        |i: int|
            if 0 <= i < fields.len() {
                (fields[i].0@, expr_view(fields[i].1))
            } else {
                arbitrary()
            },
    )
}

pub open spec fn expr_view(e: Expr) -> ExprView
    decreases e,
{
    ExprView(e.0@, expr__view(e.1))
}

pub open spec fn expr__view(e: Expr_) -> ExprView_
    decreases e,
{
    match e {
        Expr_::Array(fields) => ExprView_::Array(afields_view(fields)),
        Expr_::Darray(fields) => ExprView_::Darray(expr_pairs_view(fields)),
        Expr_::Varray(items) => ExprView_::Varray(exprs_view(items)),
        Expr_::Shape(fields) => ExprView_::Shape(shape_exprs_view(fields)),
        Expr_::ValCollection(kind, items) => ExprView_::ValCollection(kind, exprs_view(items)),
        Expr_::KeyValCollection(kind, fields) => ExprView_::KeyValCollection(
            kind,
            expr_pairs_view(fields),
        ),
        Expr_::Null => ExprView_::Null,
        Expr_::True => ExprView_::True,
        Expr_::False => ExprView_::False,
        Expr_::Id(id) => ExprView_::Id(id@),
        Expr_::ClassConst(class_id, name) => ExprView_::ClassConst(class_id@, pstring_view(name)),
        Expr_::Int(s) => ExprView_::Int(s@),
        Expr_::Float(s) => ExprView_::Float(s@),
        Expr_::String(s) => ExprView_::String(s@),
        Expr_::Unop(op, inner) => ExprView_::Unop(op, Box::new(expr_view(*inner))),
        Expr_::Binop(op, lhs, rhs) => ExprView_::Binop(
            bop_view(op),
            Box::new(expr_view(*lhs)),
            Box::new(expr_view(*rhs)),
        ),
        Expr_::List(items) => ExprView_::List(exprs_view(items)),
    }
}

impl<'a> View for Expr_<'a> {
    type V = ExprView_;

    open spec fn view(&self) -> ExprView_ {
        expr__view(*self)
    }
}

impl<'a> View for Expr<'a> {
    type V = ExprView;

    open spec fn view(&self) -> ExprView {
        expr_view(*self)
    }
}

pub open spec fn opt_expr_view(e: Option<Expr>) -> Option<ExprView> {
    match e {
        Some(e) => Some(e@),
        None => None,
    }
}

/// An attribute that the source attaches to a declaration: its name and the
/// arguments of the call.
#[derive(Clone, Copy, Debug, PartialEq, Eq)]
pub struct UserAttribute<'a> {
    pub name: Id<'a>,
    pub params: &'a Vec<Expr<'a>>,
}

pub struct UserAttributeView {
    pub name: IdView,
    pub params: Seq<ExprView>,
}

impl<'a> View for UserAttribute<'a> {
    type V = UserAttributeView;

    open spec fn view(&self) -> UserAttributeView {
        UserAttributeView { name: self.name@, params: exprs_view(self.params) }
    }
}

pub open spec fn user_attributes_view(attrs: Seq<UserAttribute>) -> Seq<UserAttributeView> {
    attrs.map_values(|a: UserAttribute| a@)
}

} // verus!
