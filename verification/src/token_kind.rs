//! The kinds of lexical tokens that the pass tells apart.

use vstd::prelude::*;

verus! {

/// The kind of a token. `Other` stands for every kind that the pass treats as
/// irrelevant.
#[derive(Clone, Copy, Debug, PartialEq, Eq, Structural)]
pub enum TokenKind {
    EndOfFile,
    Markup,
    LessThanQuestion,
    Name,
    Variable,
    XHPClassName,
    Class,
    Trait,
    Interface,
    Vec,
    Dict,
    Keyset,
    Tuple,
    Classname,
    SelfToken,
    SingleQuotedStringLiteral,
    DoubleQuotedStringLiteral,
    HeredocStringLiteral,
    NowdocStringLiteral,
    DecimalLiteral,
    OctalLiteral,
    HexadecimalLiteral,
    BinaryLiteral,
    FloatingLiteral,
    NullLiteral,
    BooleanLiteral,
    String,
    Int,
    Float,
    Double,
    Boolean,
    Num,
    Bool,
    Mixed,
    Void,
    Arraykey,
    Noreturn,
    Resource,
    Array,
    Darray,
    Varray,
    Backslash,
    Construct,
    LeftParen,
    RightParen,
    RightBracket,
    Shape,
    Question,
    This,
    Tilde,
    Exclamation,
    Plus,
    Minus,
    PlusPlus,
    MinusMinus,
    At,
    Star,
    Slash,
    EqualEqual,
    EqualEqualEqual,
    StarStar,
    AmpersandAmpersand,
    BarBar,
    LessThan,
    LessThanEqual,
    GreaterThan,
    GreaterThanEqual,
    Dot,
    Ampersand,
    Bar,
    LessThanLessThan,
    GreaterThanGreaterThan,
    Percent,
    QuestionQuestion,
    Equal,
    Abstract,
    As,
    Super,
    Async,
    Coroutine,
    DotDotDot,
    Extends,
    Final,
    Implements,
    Inout,
    Newtype,
    Type,
    XHP,
    Yield,
    Semicolon,
    Private,
    Protected,
    Public,
    Reify,
    Static,
    Other,
}

impl TokenKind {
    /// Whether the kind is one of the keywords that open a class, a trait or
    /// an interface.
    pub open spec fn spec_is_classish_keyword(self) -> bool {
        self == TokenKind::Class || self == TokenKind::Trait || self == TokenKind::Interface
    }

    #[verifier::when_used_as_spec(spec_is_classish_keyword)]
    pub fn is_classish_keyword(self) -> (r: bool)
        ensures
            r == self.spec_is_classish_keyword(),
    {
        self == TokenKind::Class || self == TokenKind::Trait || self == TokenKind::Interface
    }
}

} // verus!
