//! Positions in source files.

use crate::error::ParseError;
use crate::text::str_eq;
use std::ops::Range;
use vstd::prelude::*;

verus! {

/// The root that a relative path is relative to.
#[derive(Clone, Copy, Debug, PartialEq, Eq, Structural)]
pub enum Prefix {
    Root,
    Hhi,
    Dummy,
    Tmp,
}

/// A path below one of the known roots.
#[derive(Clone, Copy, Debug, PartialEq, Eq)]
pub struct RelativePath<'a> {
    pub prefix: Prefix,
    pub path: &'a str,
}

pub struct RelativePathView {
    pub prefix: Prefix,
    pub path: Seq<char>,
}

impl<'a> View for RelativePath<'a> {
    type V = RelativePathView;

    open spec fn view(&self) -> RelativePathView {
        RelativePathView { prefix: self.prefix, path: self.path@ }
    }
}

impl RelativePathView {
    /// The path that positions without a file carry.
    pub open spec fn dummy() -> RelativePathView {
        RelativePathView { prefix: Prefix::Dummy, path: Seq::empty() }
    }
}

impl<'a> RelativePath<'a> {
    pub fn make(prefix: Prefix, path: &'a str) -> (r: RelativePath<'a>)
        ensures
            r@ == (RelativePathView { prefix, path: path@ }),
    {
        RelativePath { prefix, path }
    }

    /// The path that positions without a file carry.
    pub fn dummy() -> (r: RelativePath<'static>)
        ensures
            r@ == RelativePathView::dummy(),
    {
        proof {
            reveal_strlit("");
            assert(""@ =~= Seq::<char>::empty());
        }
        RelativePath { prefix: Prefix::Dummy, path: "" }
    }

    /// Whether two paths are the same.
    pub fn same(&self, other: &RelativePath) -> (r: bool)
        ensures
            r == (self@ == other@),
    {
        self.prefix == other.prefix && str_eq(self.path, other.path)
    }
}

/// A place in a file: the line, the offset at which that line begins, and the
/// offset of the place itself.
#[derive(Clone, Copy, Debug, PartialEq, Eq, Structural)]
pub struct FilePos {
    pub line: usize,
    pub bol: usize,
    pub cnum: usize,
}

impl FilePos {
    pub open spec fn zero() -> FilePos {
        FilePos { line: 0, bol: 0, cnum: 0 }
    }
}

/// A span of a file, from `start` to `end`.
#[derive(Clone, Copy, Debug, PartialEq, Eq)]
pub struct Pos<'a> {
    pub file: RelativePath<'a>,
    pub start: FilePos,
    pub end: FilePos,
}

pub struct PosView {
    pub file: RelativePathView,
    pub start: FilePos,
    pub end: FilePos,
}

impl<'a> View for Pos<'a> {
    type V = PosView;

    open spec fn view(&self) -> PosView {
        PosView { file: self.file@, start: self.start, end: self.end }
    }
}

impl PosView {
    /// The position that stands for "nowhere".
    pub open spec fn none() -> PosView {
        PosView { file: RelativePathView::dummy(), start: FilePos::zero(), end: FilePos::zero() }
    }

    pub open spec fn is_none(self) -> bool {
        self == PosView::none()
    }

    pub open spec fn from_lnum_bol_cnum(
        file: RelativePathView,
        start: (usize, usize, usize),
        end: (usize, usize, usize),
    ) -> PosView {
        PosView {
            file,
            start: FilePos { line: start.0, bol: start.1, cnum: start.2 },
            end: FilePos { line: end.0, bol: end.1, cnum: end.2 },
        }
    }

    /// The smallest span that covers both positions. A position that is
    /// "nowhere" adds nothing to the other. Positions in different files
    /// cannot be merged.
    pub open spec fn merge(self, other: PosView) -> Result<PosView, ParseError> {
        if self.file != other.file {
            Err(ParseError::PositionsInSeparateFiles)
        } else if self.is_none() {
            Ok(other)
        } else if other.is_none() {
            Ok(self)
        } else {
            Ok(
                PosView {
                    file: self.file,
                    start: if self.start.cnum <= other.start.cnum {
                        self.start
                    } else {
                        other.start
                    },
                    end: if self.end.cnum >= other.end.cnum {
                        self.end
                    } else {
                        other.end
                    },
                },
            )
        }
    }
}

impl<'a> Pos<'a> {
    /// The position that stands for "nowhere".
    pub fn make_none() -> (r: Pos<'static>)
        ensures
            r@ == PosView::none(),
    {
        Pos {
            file: RelativePath::dummy(),
            start: FilePos { line: 0, bol: 0, cnum: 0 },
            end: FilePos { line: 0, bol: 0, cnum: 0 },
        }
    }

    pub fn is_none(&self) -> (r: bool)
        ensures
            r == self@.is_none(),
    {
        let dummy = RelativePath::dummy();
        self.file.same(&dummy) && self.start.line == 0 && self.start.bol == 0 && self.start.cnum
            == 0 && self.end.line == 0 && self.end.bol == 0 && self.end.cnum == 0
    }

    pub fn filename(&self) -> (r: &RelativePath<'a>)
        ensures
            *r == self.file,
    {
        &self.file
    }

    pub fn start_cnum(&self) -> (r: usize)
        ensures
            r == self.start.cnum,
    {
        self.start.cnum
    }

    pub fn end_cnum(&self) -> (r: usize)
        ensures
            r == self.end.cnum,
    {
        self.end.cnum
    }

    /// The span between two places, each given as line, beginning of line and
    /// offset.
    pub fn from_lnum_bol_cnum(
        file: RelativePath<'a>,
        start: (usize, usize, usize),
        end: (usize, usize, usize),
    ) -> (r: Pos<'a>)
        ensures
            r@ == PosView::from_lnum_bol_cnum(file@, start, end),
    {
        let (start_line, start_bol, start_cnum) = start;
        let (end_line, end_bol, end_cnum) = end;
        Pos {
            file,
            start: FilePos { line: start_line, bol: start_bol, cnum: start_cnum },
            end: FilePos { line: end_line, bol: end_bol, cnum: end_cnum },
        }
    }

    /// A span within one line: the columns `cols` of line `line`, where the
    /// first of them lies at offset `start_offset` of the file.
    pub fn from_line_cols_offset(
        file: RelativePath<'a>,
        line: usize,
        cols: Range<usize>,
        start_offset: usize,
    ) -> (r: Pos<'a>)
        requires
            cols.start <= cols.end,
            cols.start <= start_offset,
            start_offset + (cols.end - cols.start) <= usize::MAX,
        ensures
            r@ == PosView::from_lnum_bol_cnum(
                file@,
                (line, (start_offset - cols.start) as usize, start_offset),
                (
                    line,
                    (start_offset - cols.start) as usize,
                    (start_offset + (cols.end - cols.start)) as usize,
                ),
            ),
    {
        let bol = start_offset - cols.start;
        let end_offset = start_offset + (cols.end - cols.start);
        Pos {
            file,
            start: FilePos { line, bol, cnum: start_offset },
            end: FilePos { line, bol, cnum: end_offset },
        }
    }

    /// The smallest span that covers both positions.
    pub fn merge(left: Pos<'a>, right: Pos<'a>) -> (r: Result<Pos<'a>, ParseError>)
        ensures
            pos_result_view(r) == left@.merge(right@),
    {
        if !left.file.same(&right.file) {
            Err(ParseError::PositionsInSeparateFiles)
        } else if left.is_none() {
            Ok(right)
        } else if right.is_none() {
            Ok(left)
        } else {
            Ok(
                Pos {
                    file: left.file,
                    start: if left.start.cnum <= right.start.cnum {
                        left.start
                    } else {
                        right.start
                    },
                    end: if left.end.cnum >= right.end.cnum {
                        left.end
                    } else {
                        right.end
                    },
                },
            )
        }
    }
}

/// The view of a position or a failure.
pub open spec fn pos_result_view(r: Result<Pos, ParseError>) -> Result<PosView, ParseError> {
    match r {
        Ok(p) => Ok(p@),
        Err(e) => Err(e),
    }
}

/// Merging is idempotent, and "nowhere" is neutral where the files agree.
pub proof fn lemma_merge_idempotent(p: PosView)
    ensures
        p.merge(p) == Ok::<PosView, ParseError>(p),
{
}

} // verus!
