//! The small vocabulary shared by expressions, types and declarations.

use crate::pos::{Pos, PosView};
use vstd::prelude::*;

verus! {

/// A name with the position at which it was written.
#[derive(Clone, Copy, Debug, PartialEq, Eq)]
pub struct Id<'a>(pub Pos<'a>, pub &'a str);

pub struct IdView(pub PosView, pub Seq<char>);

impl<'a> View for Id<'a> {
    type V = IdView;

    open spec fn view(&self) -> IdView {
        IdView(self.0@, self.1@)
    }
}

impl<'a> Id<'a> {
    pub fn pos(&self) -> (r: Pos<'a>)
        ensures
            r == self.0,
    {
        self.0
    }

    pub fn name(&self) -> (r: &'a str)
        ensures
            r == self.1,
    {
        self.1
    }
}

/// A string with the position at which it was written.
pub type Pstring<'a> = (Pos<'a>, &'a str);

pub type PstringView = (PosView, Seq<char>);

pub open spec fn pstring_view(p: Pstring) -> PstringView {
    (p.0@, p.1@)
}

/// The views of a list of names.
pub open spec fn ids_view(ids: Seq<Id>) -> Seq<IdView> {
    ids.map_values(|id: Id| id@)
}

/// The name of a field of a shape.
#[derive(Clone, Copy, Debug, PartialEq, Eq)]
pub enum ShapeFieldName<'a> {
    SFlitInt(Pstring<'a>),
    SFlitStr(Pstring<'a>),
    SFclassConst(Id<'a>, Pstring<'a>),
}

pub enum ShapeFieldNameView {
    SFlitInt(PstringView),
    SFlitStr(PstringView),
    SFclassConst(IdView, PstringView),
}

impl<'a> View for ShapeFieldName<'a> {
    type V = ShapeFieldNameView;

    open spec fn view(&self) -> ShapeFieldNameView {
        match *self {
            ShapeFieldName::SFlitInt(p) => ShapeFieldNameView::SFlitInt(pstring_view(p)),
            ShapeFieldName::SFlitStr(p) => ShapeFieldNameView::SFlitStr(pstring_view(p)),
            ShapeFieldName::SFclassConst(id, p) => ShapeFieldNameView::SFclassConst(
                id@,
                pstring_view(p),
            ),
        }
    }
}

impl ShapeFieldNameView {
    /// Whether two names denote the same field: the same kind of name with
    /// the same text, wherever each was written.
    pub open spec fn same_field(self, other: ShapeFieldNameView) -> bool {
        match (self, other) {
            (ShapeFieldNameView::SFlitInt(a), ShapeFieldNameView::SFlitInt(b)) => a.1 == b.1,
            (ShapeFieldNameView::SFlitStr(a), ShapeFieldNameView::SFlitStr(b)) => a.1 == b.1,
            (
                ShapeFieldNameView::SFclassConst(c, a),
                ShapeFieldNameView::SFclassConst(d, b),
            ) => c.1 == d.1 && a.1 == b.1,
            _ => false,
        }
    }
}

/// The comment that documents a declaration.
#[derive(Clone, Copy, Debug, PartialEq, Eq)]
pub struct DocComment<'a>(pub &'a str);

impl<'a> DocComment<'a> {
    pub fn new(s: &'a str) -> (r: Self)
        ensures
            r.0 == s,
    {
        DocComment(s)
    }
}

#[derive(Clone, Copy, Debug, PartialEq, Eq, Structural)]
pub enum Variance {
    Covariant,
    Contravariant,
    Invariant,
}

#[derive(Clone, Copy, Debug, PartialEq, Eq, Structural)]
pub enum ConstraintKind {
    ConstraintAs,
    ConstraintSuper,
}

#[derive(Clone, Copy, Debug, PartialEq, Eq, Structural)]
pub enum ClassKind {
    Cabstract,
    Cnormal,
    Cinterface,
    Ctrait,
    Cenum,
    Crecord,
}

#[derive(Clone, Copy, Debug, PartialEq, Eq, Structural)]
pub enum ParamKind {
    Pinout,
}

#[derive(Clone, Copy, Debug, PartialEq, Eq, Structural)]
pub enum OgNullFlavor {
    OGNullthrows,
    OGNullsafe,
}

#[derive(Clone, Copy, Debug, PartialEq, Eq, Structural)]
pub enum FunKind {
    FSync,
    FAsync,
    FGenerator,
    FAsyncGenerator,
    FCoroutine,
}

impl FunKind {
    /// Whether a function of this kind is a generator.
    pub open spec fn is_generator(self) -> bool {
        self == FunKind::FGenerator || self == FunKind::FAsyncGenerator
    }
}

/// A binary operator. `Eq` is assignment, plain or combined with another
/// operator.
#[derive(Clone, Copy, Debug, PartialEq, Eq)]
pub enum Bop<'a> {
    Plus,
    Minus,
    Star,
    Slash,
    Eqeq,
    Eqeqeq,
    Starstar,
    Diff,
    Diff2,
    Ampamp,
    Barbar,
    LogXor,
    Lt,
    Lte,
    Gt,
    Gte,
    Dot,
    Amp,
    Bar,
    Ltlt,
    Gtgt,
    Percent,
    Xor,
    Cmp,
    QuestionQuestion,
    Eq(Option<&'a Bop<'a>>),
}

#[derive(Clone, Copy, Debug, PartialEq, Eq, Structural)]
pub enum Uop {
    Utild,
    Unot,
    Uplus,
    Uminus,
    Uincr,
    Udecr,
    Upincr,
    Updecr,
    Uref,
    Usilence,
}

#[derive(Clone, Copy, Debug, PartialEq, Eq, Structural)]
pub enum FunDeclKind {
    FDeclAsync,
    FDeclSync,
    FDeclCoroutine,
}

} // verus!
