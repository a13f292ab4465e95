//! The reduction of a token, with what the first tokens of a file say about
//! its mode.

use crate::aast::Tprim;
use crate::ast_defs::{Id, IdView};
use crate::error::ParseError;
use crate::node::{result_view, Node, NodeView, Node_};
use crate::pos::{Pos, PosView};
use crate::shallow_decl_defs::Mode;
use crate::state::{DirectDeclSmartConstructors, FileModeBuilder, StateView};
use crate::text::{str_eq, str_trim, str_trim_start_matches, trim, trim_start_matches};
use crate::token_kind::TokenKind;
use crate::type_hint::{hint_ty, prim_ty};
use crate::typing_defs::{tys_view, Ty, TyView, TyView_, Ty_};
use crate::lists::NodeResult;
use vstd::prelude::*;

verus! {

/// The kinds of what stands around a token and is no token.
#[derive(Clone, Copy, Debug, PartialEq, Eq, Structural)]
pub enum TriviaKind {
    WhiteSpace,
    EndOfLine,
    DelimitedComment,
    SingleLineComment,
    Other,
}

/// A piece of trivia with its text.
#[derive(Clone, Copy, Debug, PartialEq, Eq)]
pub struct Trivia<'a> {
    pub kind: TriviaKind,
    pub text: &'a str,
}

pub struct TriviaView {
    pub kind: TriviaKind,
    pub text: Seq<char>,
}

impl<'a> View for Trivia<'a> {
    type V = TriviaView;

    open spec fn view(&self) -> TriviaView {
        TriviaView { kind: self.kind, text: self.text@ }
    }
}

/// A token as the lexer hands it over: its kind, its text, its position, the
/// trivia behind it, and, for a string literal, what the literal spells once
/// its quotes are taken off and its escapes are resolved (nothing where the
/// text is malformed).
#[derive(Clone, Copy, Debug, PartialEq, Eq)]
pub struct Token<'a> {
    pub kind: TokenKind,
    pub text: &'a str,
    pub pos: Pos<'a>,
    pub trailing: &'a Vec<Trivia<'a>>,
    pub literal: Option<&'a str>,
}

pub struct TokenView {
    pub kind: TokenKind,
    pub text: Seq<char>,
    pub pos: PosView,
    pub trailing: Seq<TriviaView>,
    pub literal: Option<Seq<char>>,
}

pub open spec fn trivia_view(trivia: Seq<Trivia>) -> Seq<TriviaView> {
    trivia.map_values(|t: Trivia| t@)
}

impl<'a> View for Token<'a> {
    type V = TokenView;

    open spec fn view(&self) -> TokenView {
        TokenView {
            kind: self.kind,
            text: self.text@,
            pos: self.pos@,
            trailing: trivia_view(self.trailing@),
            literal: crate::typing_defs::opt_str_view(self.literal),
        }
    }
}

/// The character that begins a comment.
pub const SLASH: char = '/';

/// The mode that the comment behind `<?hh` names: `decl`, `partial` or
/// `strict`, and the strictest for anything else.
pub open spec fn mode_of_comment(text: Seq<char>) -> Mode {
    let word = trim(trim_start_matches(text, SLASH));
    if word == "decl"@ {
        Mode::Mdecl
    } else if word == "partial"@ {
        Mode::Mpartial
    } else {
        Mode::Mstrict
    }
}

/// What the first `n` pieces of trivia behind `hh` make of the mode: the
/// last comment of a single line among them decides.
pub open spec fn mode_after_trivia(mode: FileModeBuilder, trailing: Seq<TriviaView>, n: nat)
    -> FileModeBuilder
    decreases n,
{
    if n == 0 || n > trailing.len() {
        mode
    } else if trailing[n - 1].kind == TriviaKind::SingleLineComment {
        FileModeBuilder::Resolved(mode_of_comment(trailing[n - 1].text))
    } else {
        mode_after_trivia(mode, trailing, (n - 1) as nat)
    }
}

/// What is known of the mode of the file once the token has been seen. Only
/// `<?` as the first token of the file opens the question; `hh` behind it
/// hands the answer to the trivia that follows; any other token settles on
/// the strictest mode.
pub open spec fn mode_after_token(mode: FileModeBuilder, token: TokenView) -> FileModeBuilder {
    match mode {
        FileModeBuilder::Unseen => if token.kind == TokenKind::Markup {
            mode
        } else if token.kind == TokenKind::LessThanQuestion {
            FileModeBuilder::Pending
        } else {
            FileModeBuilder::Resolved(Mode::Mstrict)
        },
        FileModeBuilder::Pending => if token.kind == TokenKind::Name && token.text == "hh"@ {
            mode_after_trivia(mode, token.trailing, token.trailing.len())
        } else {
            FileModeBuilder::Resolved(Mode::Mstrict)
        },
        FileModeBuilder::Resolved(_) => mode,
    }
}

/// The kinds that are read as names.
#[verifier::opaque]
pub open spec fn is_name_kind(kind: TokenKind) -> bool {
    match kind {
        TokenKind::Name => true,
        TokenKind::Class => true,
        TokenKind::Variable => true,
        TokenKind::Vec => true,
        TokenKind::Dict => true,
        TokenKind::Keyset => true,
        TokenKind::Tuple => true,
        TokenKind::Classname => true,
        TokenKind::SelfToken => true,
        _ => false,
    }
}

#[verifier::opaque]
pub open spec fn is_string_literal_kind(kind: TokenKind) -> bool {
    match kind {
        TokenKind::SingleQuotedStringLiteral => true,
        TokenKind::DoubleQuotedStringLiteral => true,
        TokenKind::HeredocStringLiteral => true,
        TokenKind::NowdocStringLiteral => true,
        _ => false,
    }
}

#[verifier::opaque]
pub open spec fn is_int_literal_kind(kind: TokenKind) -> bool {
    match kind {
        TokenKind::DecimalLiteral => true,
        TokenKind::OctalLiteral => true,
        TokenKind::HexadecimalLiteral => true,
        TokenKind::BinaryLiteral => true,
        _ => false,
    }
}

/// The primitive type that a keyword names.
#[verifier::opaque]
pub open spec fn prim_of_kind(kind: TokenKind) -> Option<Tprim> {
    match kind {
        TokenKind::String => Some(Tprim::Tstring),
        TokenKind::Int => Some(Tprim::Tint),
        TokenKind::Float => Some(Tprim::Tfloat),
        TokenKind::Num => Some(Tprim::Tnum),
        TokenKind::Bool => Some(Tprim::Tbool),
        TokenKind::Void => Some(Tprim::Tvoid),
        TokenKind::Arraykey => Some(Tprim::Tarraykey),
        TokenKind::Noreturn => Some(Tprim::Tnoreturn),
        TokenKind::Resource => Some(Tprim::Tresource),
        _ => None,
    }
}

/// The kinds of which only the position is kept.
#[verifier::opaque]
pub open spec fn is_pos_kind(kind: TokenKind) -> bool {
    match kind {
        TokenKind::LeftParen => true,
        TokenKind::RightParen => true,
        TokenKind::RightBracket => true,
        TokenKind::Shape => true,
        TokenKind::Question => true,
        _ => false,
    }
}

/// The node of a token that is a name or a literal.
pub open spec fn literal_token(token: TokenView) -> Option<NodeResult> {
    let text = token.text;
    let pos = token.pos;
    let kind = token.kind;
    if is_name_kind(kind) {
        Some(Ok(NodeView::Name(text, pos)))
    } else if kind == TokenKind::XHPClassName {
        Some(Ok(NodeView::XhpName(text, pos)))
    } else if is_string_literal_kind(kind) {
        Some(string_literal_node(token))
    } else if is_int_literal_kind(kind) {
        Some(Ok(NodeView::IntLiteral(text, pos)))
    } else if kind == TokenKind::FloatingLiteral {
        Some(Ok(NodeView::FloatingLiteral(text, pos)))
    } else if kind == TokenKind::NullLiteral {
        Some(Ok(NodeView::Null(pos)))
    } else if kind == TokenKind::BooleanLiteral {
        Some(Ok(NodeView::BooleanLiteral(text, pos)))
    } else {
        None
    }
}

/// The node of a token that names a type.
pub open spec fn type_token(token: TokenView) -> Option<NodeView> {
    let text = token.text;
    let pos = token.pos;
    let kind = token.kind;
    if prim_of_kind(kind) is Some {
        Some(prim_ty(prim_of_kind(kind)->Some_0, pos))
    } else if kind == TokenKind::Double || kind == TokenKind::Boolean {
        // `double` and `boolean` are no primitive types: they are read as
        // the names of classes.
        Some(hint_ty(pos, TyView_::Tapply(IdView(pos, text), Seq::empty())))
    } else if kind == TokenKind::Mixed {
        Some(hint_ty(pos, TyView_::Tmixed))
    } else if kind == TokenKind::Array {
        Some(NodeView::Array(pos))
    } else if kind == TokenKind::Darray {
        Some(NodeView::Darray(pos))
    } else if kind == TokenKind::Varray {
        Some(NodeView::Varray(pos))
    } else if kind == TokenKind::This {
        Some(NodeView::This(pos))
    } else {
        None
    }
}

/// The node of a token that is neither a name, a literal nor a type: a
/// position, an operator, a keyword, or nothing.
pub open spec fn mark_token(token: TokenView) -> NodeView {
    let pos = token.pos;
    let kind = token.kind;
    if kind == TokenKind::Backslash {
        NodeView::Backslash(pos)
    } else if kind == TokenKind::Construct {
        NodeView::Construct(pos)
    } else if is_pos_kind(kind) {
        NodeView::Pos(pos)
    } else if is_operator(kind) {
        NodeView::Operator(pos, kind)
    } else if is_keyword(kind) {
        NodeView::Token(kind)
    } else {
        NodeView::Ignored
    }
}

/// The node that the token stands for.
pub open spec fn token_node(token: TokenView) -> NodeResult {
    match literal_token(token) {
        Some(r) => r,
        None => match type_token(token) {
            Some(node) => Ok(node),
            None => Ok(mark_token(token)),
        },
    }
}

/// The node of a string literal.
pub open spec fn string_literal_node(token: TokenView) -> NodeResult {
    match token.literal {
        Some(s) => Ok(NodeView::StringLiteral(s, token.pos)),
        None => Err(ParseError::MalformedStringLiteral),
    }
}

/// The kinds that are kept with their position, for the expressions of
/// constants.
#[verifier::opaque]
pub open spec fn is_operator(kind: TokenKind) -> bool {
    match kind {
        TokenKind::Tilde => true,
        TokenKind::Exclamation => true,
        TokenKind::Plus => true,
        TokenKind::Minus => true,
        TokenKind::PlusPlus => true,
        TokenKind::MinusMinus => true,
        TokenKind::At => true,
        TokenKind::Star => true,
        TokenKind::Slash => true,
        TokenKind::EqualEqual => true,
        TokenKind::EqualEqualEqual => true,
        TokenKind::StarStar => true,
        TokenKind::AmpersandAmpersand => true,
        TokenKind::BarBar => true,
        TokenKind::LessThan => true,
        TokenKind::LessThanEqual => true,
        TokenKind::GreaterThan => true,
        TokenKind::GreaterThanEqual => true,
        TokenKind::Dot => true,
        TokenKind::Ampersand => true,
        TokenKind::Bar => true,
        TokenKind::LessThanLessThan => true,
        TokenKind::GreaterThanGreaterThan => true,
        TokenKind::Percent => true,
        TokenKind::QuestionQuestion => true,
        TokenKind::Equal => true,
        _ => false,
    }
}

/// The kinds that are kept as they are, for a parent to match on.
#[verifier::opaque]
pub open spec fn is_keyword(kind: TokenKind) -> bool {
    match kind {
        TokenKind::Abstract => true,
        TokenKind::As => true,
        TokenKind::Super => true,
        TokenKind::Async => true,
        TokenKind::Coroutine => true,
        TokenKind::DotDotDot => true,
        TokenKind::Extends => true,
        TokenKind::Final => true,
        TokenKind::Implements => true,
        TokenKind::Inout => true,
        TokenKind::Interface => true,
        TokenKind::Newtype => true,
        TokenKind::Type => true,
        TokenKind::XHP => true,
        TokenKind::Yield => true,
        TokenKind::Semicolon => true,
        TokenKind::Private => true,
        TokenKind::Protected => true,
        TokenKind::Public => true,
        TokenKind::Reify => true,
        TokenKind::Static => true,
        TokenKind::Trait => true,
        _ => false,
    }
}

impl StateView {
    /// The state and the node after a token. The mode of the file is
    /// updated; a name behind a classish keyword is latched as the name of
    /// the class; the kind of the token is remembered, unless the token
    /// fails.
    pub open spec fn make_token(self, token: TokenView) -> (StateView, NodeResult) {
        let with_mode = StateView {
            file_mode: mode_after_token(self.file_mode, token),
            ..self
        };
        let latched = if token.kind == TokenKind::Name
            && self.previous_token_kind.spec_is_classish_keyword() {
            StateView {
                classish: self.classish.lexed_name_after_classish_keyword(
                    token.text,
                    token.pos,
                    self.previous_token_kind,
                ),
                ..with_mode
            }
        } else {
            with_mode
        };
        match token_node(token) {
            Err(e) => (latched, Err(e)),
            Ok(node) => (StateView { previous_token_kind: token.kind, ..latched }, Ok(node)),
        }
    }
}

fn name_kind(kind: TokenKind) -> (r: bool)
    ensures
        r == is_name_kind(kind),
{
    reveal(is_name_kind);
    match kind {
        TokenKind::Name => true,
        TokenKind::Class => true,
        TokenKind::Variable => true,
        TokenKind::Vec => true,
        TokenKind::Dict => true,
        TokenKind::Keyset => true,
        TokenKind::Tuple => true,
        TokenKind::Classname => true,
        TokenKind::SelfToken => true,
        _ => false,
    }
}

fn string_literal_kind(kind: TokenKind) -> (r: bool)
    ensures
        r == is_string_literal_kind(kind),
{
    reveal(is_string_literal_kind);
    match kind {
        TokenKind::SingleQuotedStringLiteral => true,
        TokenKind::DoubleQuotedStringLiteral => true,
        TokenKind::HeredocStringLiteral => true,
        TokenKind::NowdocStringLiteral => true,
        _ => false,
    }
}

fn int_literal_kind(kind: TokenKind) -> (r: bool)
    ensures
        r == is_int_literal_kind(kind),
{
    reveal(is_int_literal_kind);
    match kind {
        TokenKind::DecimalLiteral => true,
        TokenKind::OctalLiteral => true,
        TokenKind::HexadecimalLiteral => true,
        TokenKind::BinaryLiteral => true,
        _ => false,
    }
}

fn prim_of(kind: TokenKind) -> (r: Option<Tprim>)
    ensures
        r == prim_of_kind(kind),
{
    reveal(prim_of_kind);
    match kind {
        TokenKind::String => Some(Tprim::Tstring),
        TokenKind::Int => Some(Tprim::Tint),
        TokenKind::Float => Some(Tprim::Tfloat),
        TokenKind::Num => Some(Tprim::Tnum),
        TokenKind::Bool => Some(Tprim::Tbool),
        TokenKind::Void => Some(Tprim::Tvoid),
        TokenKind::Arraykey => Some(Tprim::Tarraykey),
        TokenKind::Noreturn => Some(Tprim::Tnoreturn),
        TokenKind::Resource => Some(Tprim::Tresource),
        _ => None,
    }
}

fn pos_kind(kind: TokenKind) -> (r: bool)
    ensures
        r == is_pos_kind(kind),
{
    reveal(is_pos_kind);
    match kind {
        TokenKind::LeftParen => true,
        TokenKind::RightParen => true,
        TokenKind::RightBracket => true,
        TokenKind::Shape => true,
        TokenKind::Question => true,
        _ => false,
    }
}

fn operator_kind(kind: TokenKind) -> (r: bool)
    ensures
        r == is_operator(kind),
{
    reveal(is_operator);
    match kind {
        TokenKind::Tilde => true,
        TokenKind::Exclamation => true,
        TokenKind::Plus => true,
        TokenKind::Minus => true,
        TokenKind::PlusPlus => true,
        TokenKind::MinusMinus => true,
        TokenKind::At => true,
        TokenKind::Star => true,
        TokenKind::Slash => true,
        TokenKind::EqualEqual => true,
        TokenKind::EqualEqualEqual => true,
        TokenKind::StarStar => true,
        TokenKind::AmpersandAmpersand => true,
        TokenKind::BarBar => true,
        TokenKind::LessThan => true,
        TokenKind::LessThanEqual => true,
        TokenKind::GreaterThan => true,
        TokenKind::GreaterThanEqual => true,
        TokenKind::Dot => true,
        TokenKind::Ampersand => true,
        TokenKind::Bar => true,
        TokenKind::LessThanLessThan => true,
        TokenKind::GreaterThanGreaterThan => true,
        TokenKind::Percent => true,
        TokenKind::QuestionQuestion => true,
        TokenKind::Equal => true,
        _ => false,
    }
}

fn keyword_kind(kind: TokenKind) -> (r: bool)
    ensures
        r == is_keyword(kind),
{
    reveal(is_keyword);
    match kind {
        TokenKind::Abstract => true,
        TokenKind::As => true,
        TokenKind::Super => true,
        TokenKind::Async => true,
        TokenKind::Coroutine => true,
        TokenKind::DotDotDot => true,
        TokenKind::Extends => true,
        TokenKind::Final => true,
        TokenKind::Implements => true,
        TokenKind::Inout => true,
        TokenKind::Interface => true,
        TokenKind::Newtype => true,
        TokenKind::Type => true,
        TokenKind::XHP => true,
        TokenKind::Yield => true,
        TokenKind::Semicolon => true,
        TokenKind::Private => true,
        TokenKind::Protected => true,
        TokenKind::Public => true,
        TokenKind::Reify => true,
        TokenKind::Static => true,
        TokenKind::Trait => true,
        _ => false,
    }
}

/// The mode that the comment `text` names.
fn mode_of(text: &str) -> (r: Mode)
    ensures
        r == mode_of_comment(text@),
{
    let word = str_trim(str_trim_start_matches(text, SLASH));
    if str_eq(word, "decl") {
        Mode::Mdecl
    } else if str_eq(word, "partial") {
        Mode::Mpartial
    } else {
        Mode::Mstrict
    }
}

impl<'a> DirectDeclSmartConstructors<'a> {
    /// Reads the mode of the file off the trivia behind `hh`.
    fn set_mode(&mut self, token: &Token<'a>)
        ensures
            final(self)@ == (StateView {
                file_mode: mode_after_trivia(
                    old(self)@.file_mode,
                    token@.trailing,
                    token@.trailing.len(),
                ),
                ..old(self)@
            }),
    {
        let ghost start = self@.file_mode;
        let ghost trailing = token@.trailing;
        let mut i: usize = 0;
        while i < token.trailing.len()
            invariant
                i <= token.trailing.len(),
                trailing == token@.trailing,
                start == old(self)@.file_mode,
                self@ == (StateView {
                    file_mode: mode_after_trivia(start, trailing, i as nat),
                    ..old(self)@
                }),
            decreases token.trailing.len() - i,
        {
            let trivia = token.trailing[i];
            assert(trailing[i as int] == trivia@);
            match trivia.kind {
                TriviaKind::SingleLineComment => {
                    self.state.file_mode_builder = FileModeBuilder::Resolved(mode_of(trivia.text));
                },
                _ => {},
            }
            i = i + 1;
        }
    }

    /// Updates what is known of the mode of the file.
    fn see_token_for_mode(&mut self, token: &Token<'a>)
        ensures
            final(self)@ == (StateView {
                file_mode: mode_after_token(old(self)@.file_mode, token@),
                ..old(self)@
            }),
    {
        match self.state.file_mode_builder {
            FileModeBuilder::Unseen => {
                match token.kind {
                    TokenKind::Markup => {},
                    TokenKind::LessThanQuestion => {
                        self.state.file_mode_builder = FileModeBuilder::Pending;
                    },
                    _ => {
                        self.state.file_mode_builder = FileModeBuilder::Resolved(Mode::Mstrict);
                    },
                }
            },
            FileModeBuilder::Pending => {
                let is_name = match token.kind {
                    TokenKind::Name => true,
                    _ => false,
                };
                if is_name && str_eq(token.text, "hh") {
                    self.set_mode(token);
                } else {
                    self.state.file_mode_builder = FileModeBuilder::Resolved(Mode::Mstrict);
                }
            },
            FileModeBuilder::Resolved(_) => {},
        }
    }

    /// The node of a string literal.
    fn string_literal_node(&self, token: &Token<'a>) -> (r: Node<'a>)
        ensures
            result_view(r) == string_literal_node(token@),
    {
        match token.literal {
            Some(s) => Ok(Node_::StringLiteral(s, token.pos).with_view()),
            None => Err(ParseError::MalformedStringLiteral),
        }
    }

    /// The node of a name that is read as the name of a class.
    fn class_name_node(&self, token: &Token<'a>) -> (r: Node_<'a>)
        ensures
            r@ == hint_ty(
                token@.pos,
                TyView_::Tapply(IdView(token@.pos, token@.text), Seq::empty()),
            ),
    {
        let targs: Vec<Ty<'a>> = Vec::new();
        let targs = self.allocate(targs);
        assert(tys_view(targs) =~= Seq::<TyView>::empty());
        self.hint_ty(token.pos, Ty_::Tapply(Id(token.pos, token.text), targs))
    }

    /// The node of a token that is a name or a literal.
    fn literal_token(&self, token: &Token<'a>) -> (r: Option<Node<'a>>)
        ensures
            match r {
                Some(r) => literal_token(token@) == Some(result_view(r)),
                None => literal_token(token@) is None,
            },
    {
        let text = token.text;
        let pos = token.pos;
        let kind = token.kind;
        if name_kind(kind) {
            Some(Ok(Node_::Name(text, pos).with_view()))
        } else if kind == TokenKind::XHPClassName {
            Some(Ok(Node_::XhpName(text, pos).with_view()))
        } else if string_literal_kind(kind) {
            Some(self.string_literal_node(token))
        } else if int_literal_kind(kind) {
            Some(Ok(Node_::IntLiteral(text, pos).with_view()))
        } else if kind == TokenKind::FloatingLiteral {
            Some(Ok(Node_::FloatingLiteral(text, pos).with_view()))
        } else if kind == TokenKind::NullLiteral {
            Some(Ok(Node_::Null(pos).with_view()))
        } else if kind == TokenKind::BooleanLiteral {
            Some(Ok(Node_::BooleanLiteral(text, pos).with_view()))
        } else {
            None
        }
    }

    /// The node of a token that names a type.
    fn type_token(&self, token: &Token<'a>) -> (r: Option<Node_<'a>>)
        ensures
            match r {
                Some(node) => type_token(token@) == Some(node@),
                None => type_token(token@) is None,
            },
    {
        let pos = token.pos;
        let kind = token.kind;
        if let Some(tprim) = prim_of(kind) {
            Some(self.prim_ty(tprim, pos))
        } else if kind == TokenKind::Double || kind == TokenKind::Boolean {
            Some(self.class_name_node(token))
        } else if kind == TokenKind::Mixed {
            Some(self.hint_ty(pos, Ty_::Tmixed))
        } else if kind == TokenKind::Array {
            Some(Node_::Array(pos).with_view())
        } else if kind == TokenKind::Darray {
            Some(Node_::Darray(pos).with_view())
        } else if kind == TokenKind::Varray {
            Some(Node_::Varray(pos).with_view())
        } else if kind == TokenKind::This {
            Some(Node_::This(pos).with_view())
        } else {
            None
        }
    }

    /// The node of a token that is neither a name, a literal nor a type.
    fn mark_token(&self, token: &Token<'a>) -> (r: Node_<'a>)
        ensures
            r@ == mark_token(token@),
    {
        let pos = token.pos;
        let kind = token.kind;
        if kind == TokenKind::Backslash {
            Node_::Backslash(pos).with_view()
        } else if kind == TokenKind::Construct {
            Node_::Construct(pos).with_view()
        } else if pos_kind(kind) {
            Node_::Pos(pos).with_view()
        } else if operator_kind(kind) {
            Node_::Operator(pos, kind).with_view()
        } else if keyword_kind(kind) {
            Node_::Token(kind).with_view()
        } else {
            Node_::Ignored.with_view()
        }
    }

    /// The node that the token stands for.
    fn token_node(&self, token: &Token<'a>) -> (r: Node<'a>)
        ensures
            result_view(r) == token_node(token@),
    {
        match self.literal_token(token) {
            Some(r) => r,
            None => match self.type_token(token) {
                Some(node) => Ok(node),
                None => Ok(self.mark_token(token)),
            },
        }
    }

    /// The reduction of a token.
    pub fn make_token(&mut self, token: Token<'a>) -> (r: Node<'a>)
        requires
            old(self)@.wf(),
        ensures
            final(self)@.wf(),
            final(self)@ == old(self)@.make_token(token@).0,
            result_view(r) == old(self)@.make_token(token@).1,
    {
        // The mode is looked for only where `<?` is the very first token.
        self.see_token_for_mode(&token);
        let is_name = match token.kind {
            TokenKind::Name => true,
            _ => false,
        };
        if is_name && self.state.previous_token_kind.is_classish_keyword() {
            self.state.classish_name_builder.lexed_name_after_classish_keyword(
                self.state.arena,
                token.text,
                token.pos,
                self.state.previous_token_kind,
            );
        }
        match self.token_node(&token) {
            Err(e) => Err(e),
            Ok(node) => {
                self.state.previous_token_kind = token.kind;
                Ok(node)
            },
        }
    }
}

} // verus!
