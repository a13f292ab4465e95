use bumpalo::Bump;
use shallow_decl::aast::{Expr, Expr_, Tprim, UserAttribute, Visibility};
use shallow_decl::ast_defs::{Bop, Id, ShapeFieldName, Uop};
use shallow_decl::decls::DuplicatePolicy;
use shallow_decl::declarations::read_member_modifiers;
use shallow_decl::error::ParseError;
use shallow_decl::functions::fun_kind;
use shallow_decl::lists::node_is_zero;
use shallow_decl::node::{Node, Node_};
use shallow_decl::pos::{Pos, Prefix, RelativePath};
use shallow_decl::shallow_decl_defs::Mode;
use shallow_decl::state::{ClassishNameBuilder, DirectDeclSmartConstructors, FileModeBuilder};
use shallow_decl::token::{Token, Trivia, TriviaKind};
use shallow_decl::token_kind::TokenKind;
use shallow_decl::ast_defs::FunKind;
use shallow_decl::typing_defs::{Reason, Ty, Ty_};

fn pos_at(start: usize, len: usize) -> Pos<'static> {
    Pos::from_lnum_bol_cnum(
        RelativePath::make(Prefix::Root, "a.php"),
        (1, 0, start),
        (1, 0, start + len),
    )
}

fn span(start: usize, end: usize) -> Pos<'static> {
    pos_at(start, end - start)
}

fn session_on<'a>(
    arena: &'a Bump,
    source: &'a [u8],
    policy: DuplicatePolicy,
) -> DirectDeclSmartConstructors<'a> {
    let auto: &'a Vec<(&'a str, &'a str)> =
        arena.alloc(vec![("Vector", "HH\\Vector"), ("Awaitable", "HH\\Awaitable")]);
    DirectDeclSmartConstructors::new(
        source,
        RelativePath::make(Prefix::Root, "a.php"),
        arena,
        auto,
        policy,
    )
}

fn session<'a>(arena: &'a Bump) -> DirectDeclSmartConstructors<'a> {
    session_on(arena, b"", DuplicatePolicy::Overwrite)
}

fn tok<'a>(arena: &'a Bump, kind: TokenKind, text: &'a str, start: usize) -> Token<'a> {
    Token { kind, text, pos: pos_at(start, text.len()), trailing: arena.alloc(Vec::new()), literal: None }
}

fn string_tok<'a>(arena: &'a Bump, text: &'a str, content: &'a str, start: usize) -> Token<'a> {
    Token {
        kind: TokenKind::SingleQuotedStringLiteral,
        text,
        pos: pos_at(start, text.len()),
        trailing: arena.alloc(Vec::new()),
        literal: Some(content),
    }
}

fn list<'a>(arena: &'a Bump, items: Vec<Node_<'a>>) -> &'a Vec<Node_<'a>> {
    arena.alloc(items)
}

fn missing<'a>() -> Node<'a> {
    Ok(Node_::Ignored)
}

fn name_ty<'a>(arena: &'a Bump, name: &'a str, p: Pos<'a>) -> Ty<'a> {
    let no_args: &Vec<Ty> = arena.alloc(Vec::new());
    Ty(Reason::Rhint(p), arena.alloc(Ty_::Tapply(Id(p, name), no_args)))
}

fn prim<'a>(arena: &'a Bump, tprim: Tprim, p: Pos<'a>) -> Ty<'a> {
    Ty(Reason::Rhint(p), arena.alloc(Ty_::Tprim(tprim)))
}

#[test]
fn tokens_become_nodes() {
    let arena = Bump::new();
    let mut s = session(&arena);
    assert_eq!(s.make_token(tok(&arena, TokenKind::Name, "Foo", 0)), Ok(Node_::Name("Foo", pos_at(0, 3))));
    assert_eq!(s.make_token(tok(&arena, TokenKind::Variable, "$x", 4)), Ok(Node_::Name("$x", pos_at(4, 2))));
    assert_eq!(s.make_token(tok(&arena, TokenKind::SelfToken, "self", 0)), Ok(Node_::Name("self", pos_at(0, 4))));
    assert_eq!(s.make_token(tok(&arena, TokenKind::XHPClassName, ":a", 0)), Ok(Node_::XhpName(":a", pos_at(0, 2))));
    assert_eq!(s.make_token(tok(&arena, TokenKind::HexadecimalLiteral, "0x1f", 0)), Ok(Node_::IntLiteral("0x1f", pos_at(0, 4))));
    assert_eq!(s.make_token(tok(&arena, TokenKind::FloatingLiteral, "1.5", 0)), Ok(Node_::FloatingLiteral("1.5", pos_at(0, 3))));
    assert_eq!(s.make_token(tok(&arena, TokenKind::BooleanLiteral, "TRUE", 0)), Ok(Node_::BooleanLiteral("TRUE", pos_at(0, 4))));
    assert_eq!(s.make_token(tok(&arena, TokenKind::NullLiteral, "null", 0)), Ok(Node_::Null(pos_at(0, 4))));
    assert_eq!(s.make_token(string_tok(&arena, "'a\\'b'", "a'b", 2)), Ok(Node_::StringLiteral("a'b", pos_at(2, 6))));
    assert_eq!(s.make_token(tok(&arena, TokenKind::Int, "int", 7)), Ok(Node_::Ty(prim(&arena, Tprim::Tint, pos_at(7, 3)))));
    assert_eq!(s.make_token(tok(&arena, TokenKind::Arraykey, "arraykey", 0)), Ok(Node_::Ty(prim(&arena, Tprim::Tarraykey, pos_at(0, 8)))));
    assert_eq!(
        s.make_token(tok(&arena, TokenKind::Mixed, "mixed", 0)),
        Ok(Node_::Ty(Ty(Reason::Rhint(pos_at(0, 5)), &Ty_::Tmixed)))
    );
    assert_eq!(
        s.make_token(tok(&arena, TokenKind::Double, "double", 1)),
        Ok(Node_::Ty(name_ty(&arena, "double", pos_at(1, 6))))
    );
    assert_eq!(s.make_token(tok(&arena, TokenKind::Array, "array", 0)), Ok(Node_::Array(pos_at(0, 5))));
    assert_eq!(s.make_token(tok(&arena, TokenKind::Backslash, "\\", 0)), Ok(Node_::Backslash(pos_at(0, 1))));
    assert_eq!(s.make_token(tok(&arena, TokenKind::Construct, "__construct", 0)), Ok(Node_::Construct(pos_at(0, 11))));
    assert_eq!(s.make_token(tok(&arena, TokenKind::Question, "?", 3)), Ok(Node_::Pos(pos_at(3, 1))));
    assert_eq!(s.make_token(tok(&arena, TokenKind::This, "this", 3)), Ok(Node_::This(pos_at(3, 4))));
    assert_eq!(s.make_token(tok(&arena, TokenKind::Dot, ".", 3)), Ok(Node_::Operator(pos_at(3, 1), TokenKind::Dot)));
    assert_eq!(s.make_token(tok(&arena, TokenKind::Equal, "=", 3)), Ok(Node_::Operator(pos_at(3, 1), TokenKind::Equal)));
    assert_eq!(s.make_token(tok(&arena, TokenKind::Static, "static", 3)), Ok(Node_::Token(TokenKind::Static)));
    assert_eq!(s.make_token(tok(&arena, TokenKind::Yield, "yield", 3)), Ok(Node_::Token(TokenKind::Yield)));
    assert_eq!(s.make_token(tok(&arena, TokenKind::Other, "{", 3)), Ok(Node_::Ignored));
    assert_eq!(s.make_token(tok(&arena, TokenKind::EndOfFile, "", 3)), Ok(Node_::Ignored));
    assert_eq!(s.state.previous_token_kind, TokenKind::EndOfFile);
    assert_eq!(s.make_missing(9), Ok(Node_::Ignored));
}

#[test]
fn a_malformed_string_literal_fails_and_is_not_remembered() {
    let arena = Bump::new();
    let mut s = session(&arena);
    s.make_token(tok(&arena, TokenKind::Name, "a", 0)).unwrap();
    let bad = Token {
        kind: TokenKind::DoubleQuotedStringLiteral,
        text: "\"\\u{zz}\"",
        pos: pos_at(2, 8),
        trailing: arena.alloc(Vec::new()),
        literal: None,
    };
    assert_eq!(s.make_token(bad), Err(ParseError::MalformedStringLiteral));
    assert_eq!(s.state.previous_token_kind, TokenKind::Name);
}

fn mode_after<'a>(arena: &'a Bump, comment: Option<&'a str>) -> FileModeBuilder {
    let mut s = session(arena);
    s.make_token(tok(arena, TokenKind::LessThanQuestion, "<?", 0)).unwrap();
    assert_eq!(s.state.file_mode_builder, FileModeBuilder::Pending);
    let trailing: Vec<Trivia> = match comment {
        Some(text) => vec![
            Trivia { kind: TriviaKind::WhiteSpace, text: " " },
            Trivia { kind: TriviaKind::SingleLineComment, text },
            Trivia { kind: TriviaKind::EndOfLine, text: "\n" },
        ],
        None => vec![Trivia { kind: TriviaKind::EndOfLine, text: "\n" }],
    };
    let hh = Token {
        kind: TokenKind::Name,
        text: "hh",
        pos: pos_at(2, 2),
        trailing: arena.alloc(trailing),
        literal: None,
    };
    s.make_token(hh).unwrap();
    s.state.file_mode_builder
}

#[test]
fn the_comment_behind_the_open_tag_decides_the_mode() {
    let arena = Bump::new();
    assert_eq!(mode_after(&arena, Some("// strict")), FileModeBuilder::Resolved(Mode::Mstrict));
    assert_eq!(mode_after(&arena, Some("// partial")), FileModeBuilder::Resolved(Mode::Mpartial));
    assert_eq!(mode_after(&arena, Some("//decl")), FileModeBuilder::Resolved(Mode::Mdecl));
    assert_eq!(mode_after(&arena, Some("////   decl  \t")), FileModeBuilder::Resolved(Mode::Mdecl));
    assert_eq!(mode_after(&arena, Some("// experimental")), FileModeBuilder::Resolved(Mode::Mstrict));
    assert_eq!(mode_after(&arena, Some("// decl strict")), FileModeBuilder::Resolved(Mode::Mstrict));
    assert_eq!(mode_after(&arena, None), FileModeBuilder::Pending);
    assert_eq!(FileModeBuilder::Pending.mode(), Mode::Mstrict);
    assert_eq!(FileModeBuilder::Unseen.mode(), Mode::Mstrict);
    assert_eq!(FileModeBuilder::Resolved(Mode::Mdecl).mode(), Mode::Mdecl);
}

#[test]
fn any_other_first_token_forces_the_strictest_mode() {
    let arena = Bump::new();
    let mut s = session(&arena);
    s.make_token(tok(&arena, TokenKind::Markup, "", 0)).unwrap();
    assert_eq!(s.state.file_mode_builder, FileModeBuilder::Unseen);
    s.make_token(tok(&arena, TokenKind::Name, "hh", 0)).unwrap();
    assert_eq!(s.state.file_mode_builder, FileModeBuilder::Resolved(Mode::Mstrict));
    s.make_token(tok(&arena, TokenKind::LessThanQuestion, "<?", 0)).unwrap();
    assert_eq!(s.state.file_mode_builder, FileModeBuilder::Resolved(Mode::Mstrict));

    let mut t = session(&arena);
    t.make_token(tok(&arena, TokenKind::LessThanQuestion, "<?", 0)).unwrap();
    t.make_token(tok(&arena, TokenKind::Name, "php", 2)).unwrap();
    assert_eq!(t.state.file_mode_builder, FileModeBuilder::Resolved(Mode::Mstrict));
}

#[test]
fn a_name_behind_a_classish_keyword_is_latched() {
    let arena = Bump::new();
    let mut s = session(&arena);
    assert!(s.state.classish_name_builder.get_current_classish_name().is_none());
    s.make_token(tok(&arena, TokenKind::Interface, "interface", 0)).unwrap();
    s.make_token(tok(&arena, TokenKind::Name, "I", 10)).unwrap();
    assert_eq!(
        s.state.classish_name_builder.get_current_classish_name(),
        Some(("\\I", pos_at(10, 1)))
    );
    assert!(s.state.classish_name_builder.in_interface());
    s.make_token(tok(&arena, TokenKind::Class, "class", 12)).unwrap();
    s.make_token(tok(&arena, TokenKind::Name, "Inner", 18)).unwrap();
    assert_eq!(
        s.state.classish_name_builder.get_current_classish_name(),
        Some(("\\I", pos_at(10, 1)))
    );
    s.make_token(tok(&arena, TokenKind::Name, "Later", 24)).unwrap();
    s.state.classish_name_builder.parsed_classish_declaration();
    assert!(s.state.classish_name_builder.get_current_classish_name().is_none());
    assert!(!s.state.classish_name_builder.in_interface());
    let mut slot = ClassishNameBuilder::new();
    slot.lexed_name_after_classish_keyword(&arena, "T", pos_at(0, 1), TokenKind::Trait);
    assert_eq!(slot.get_current_classish_name(), Some(("\\T", pos_at(0, 1))));
    assert!(!slot.in_interface());
}

#[test]
fn lists_drop_ignored_items_and_hand_the_yield_up() {
    let arena = Bump::new();
    let mut s = session(&arena);
    let a = Node_::Name("a", pos_at(0, 1));
    let b = Node_::Name("b", pos_at(2, 1));
    assert_eq!(s.make_list(vec![], 0), Ok(Node_::Ignored));
    assert_eq!(s.make_list(vec![missing(), missing()], 0), Ok(Node_::Ignored));
    assert_eq!(s.make_list(vec![Ok(a)], 0), Ok(Node_::List(list(&arena, vec![a]))));
    assert_eq!(
        s.make_list(vec![missing(), Ok(a), missing(), Ok(b)], 0),
        Ok(Node_::List(list(&arena, vec![a, b])))
    );
    let inner = Node_::List(list(&arena, vec![a]));
    assert_eq!(
        s.make_list(vec![Ok(inner), Ok(b)], 0),
        Ok(Node_::List(list(&arena, vec![inner, b])))
    );
    let y = Node_::Token(TokenKind::Yield);
    assert_eq!(s.make_list(vec![Ok(a), Ok(y), Ok(b)], 0), Ok(y));
    assert_eq!(s.make_list(vec![Ok(a), Err(ParseError::NoPosition), Ok(y)], 0), Ok(y));
    assert_eq!(
        s.make_list(vec![Ok(a), Err(ParseError::NoPosition), Err(ParseError::ExpectedName)], 0),
        Err(ParseError::NoPosition)
    );
    assert_eq!(s.make_yield_expression(missing(), missing()), Ok(y));
    assert_eq!(s.make_yield_from_expression(missing(), missing(), missing()), Ok(y));
}

#[test]
fn the_default_reduction_keeps_only_the_yield() {
    let arena = Bump::new();
    let s = session(&arena);
    let a = Node_::Name("a", pos_at(0, 1));
    let y = Node_::Token(TokenKind::Yield);
    assert_eq!(s.flatten(vec![]), Ok(Node_::Ignored));
    assert_eq!(s.flatten(vec![Ok(a), missing()]), Ok(Node_::Ignored));
    assert_eq!(s.flatten(vec![Ok(a), Ok(y)]), Ok(y));
    assert_eq!(s.flatten(vec![Ok(y), Ok(a), Ok(y)]), Ok(Node_::List(list(&arena, vec![y, y]))));
    let spliced = Node_::List(list(&arena, vec![a, y]));
    assert_eq!(s.flatten(vec![Ok(spliced)]), Ok(Node_::List(list(&arena, vec![a, y]))));
    let single = Node_::List(list(&arena, vec![a]));
    assert_eq!(s.flatten(vec![Ok(single)]), Ok(a));
    assert_eq!(s.flatten(vec![Ok(a), Err(ParseError::NoPosition), Ok(y)]), Err(ParseError::NoPosition));
    assert!(node_is_zero(a));
    assert!(node_is_zero(Node_::Ignored));
    assert!(node_is_zero(Node_::Token(TokenKind::Static)));
    assert!(!node_is_zero(y));
    assert!(node_is_zero(single));
    assert!(!node_is_zero(spliced));
    assert!(!node_is_zero(Node_::List(list(&arena, vec![a, single, Node_::List(list(&arena, vec![spliced]))]))));
    assert!(DirectDeclSmartConstructors::is_zero(&Ok(a)));
    assert!(!DirectDeclSmartConstructors::is_zero(&Err(ParseError::NoPosition)));
    assert!(!DirectDeclSmartConstructors::is_zero(&Ok(y)));
    assert_eq!(DirectDeclSmartConstructors::zero(), Ok(Node_::Ignored));
}

#[test]
fn list_items_and_pairs() {
    let arena = Bump::new();
    let mut s = session(&arena);
    let a = Node_::Name("a", pos_at(0, 1));
    let comma = Node_::Token(TokenKind::Semicolon);
    assert_eq!(s.make_list_item(missing(), missing()), Ok(Node_::Ignored));
    assert_eq!(s.make_list_item(Ok(a), missing()), Ok(a));
    assert_eq!(s.make_list_item(missing(), Ok(comma)), Ok(comma));
    assert_eq!(s.make_list_item(Ok(a), Ok(comma)), Ok(Node_::ListItem(arena.alloc((a, comma)))));
    assert_eq!(s.make_list_item(Err(ParseError::NoPosition), Err(ParseError::ExpectedName)), Err(ParseError::NoPosition));
    assert_eq!(s.make_list_item(Ok(a), Err(ParseError::ExpectedName)), Err(ParseError::ExpectedName));
    let pair = Ok(Node_::ListItem(arena.alloc((a, comma))));
    assert_eq!(s.make_element_initializer(Ok(a), missing(), Ok(comma)), pair);
    assert_eq!(s.make_property_declarator(Ok(a), Ok(comma)), pair);
    assert_eq!(s.make_enumerator(Ok(a), missing(), Ok(comma), missing()), pair);
    assert_eq!(s.make_field_initializer(Ok(a), missing(), Ok(comma)), pair);
    assert_eq!(s.make_decorated_expression(Ok(a), Ok(comma)), pair);
    assert_eq!(s.make_property_declarator(Ok(a), missing()), Ok(Node_::ListItem(arena.alloc((a, Node_::Ignored)))));
    assert_eq!(s.make_simple_type_specifier(Ok(a)), Ok(a));
    assert_eq!(s.make_literal_expression(Err(ParseError::NoPosition)), Err(ParseError::NoPosition));
    assert_eq!(s.make_closure_parameter_type_specifier(missing(), Ok(a)), Ok(a));
    assert_eq!(s.make_simple_initializer(Ok(comma), Ok(a)), Ok(a));
    assert_eq!(s.make_simple_initializer(Ok(comma), missing()), Ok(comma));
    assert_eq!(s.make_simple_initializer(Ok(comma), Err(ParseError::NoPosition)), Err(ParseError::NoPosition));
    assert_eq!(s.make_constant_declarator(Ok(a), Ok(comma)), Ok(Node_::List(list(&arena, vec![a, comma]))));
    assert_eq!(s.make_constant_declarator(missing(), Ok(comma)), Ok(Node_::Ignored));
    assert_eq!(s.make_trait_use(missing(), Ok(a), missing()), Ok(Node_::TraitUse(arena.alloc(a))));
    assert_eq!(s.make_classish_body(missing(), Ok(a), missing()), Ok(Node_::ClassishBody(list(&arena, vec![a]))));
    assert_eq!(s.make_classish_body(missing(), missing(), missing()), Ok(Node_::ClassishBody(list(&arena, vec![]))));
}

#[test]
fn positions_of_nodes() {
    let arena = Bump::new();
    let a = Node_::Name("a", pos_at(2, 1));
    let b = Node_::Name("b", pos_at(6, 2));
    assert_eq!(a.get_pos(), Ok(pos_at(2, 1)));
    assert_eq!(a.own_pos(), Some(pos_at(2, 1)));
    assert_eq!(Node_::Ignored.get_pos(), Err(ParseError::NoPosition));
    assert_eq!(Node_::Token(TokenKind::Static).own_pos(), None);
    assert_eq!(Node_::ListItem(arena.alloc((a, b))).get_pos(), Ok(span(2, 8)));
    assert_eq!(Node_::ListItem(arena.alloc((a, Node_::Ignored))).get_pos(), Ok(pos_at(2, 1)));
    assert_eq!(Node_::ListItem(arena.alloc((Node_::Ignored, b))).get_pos(), Ok(pos_at(6, 2)));
    assert_eq!(Node_::ListItem(arena.alloc((Node_::Ignored, Node_::Ignored))).get_pos(), Err(ParseError::NoPosition));
    let items = list(&arena, vec![Node_::Ignored, b, Node_::Token(TokenKind::Static), a]);
    assert_eq!(Node_::List(items).get_pos(), Ok(span(2, 8)));
    assert_eq!(Node_::pos_from_slice(items), Ok(span(2, 8)));
    assert_eq!(Node_::List(list(&arena, vec![])).get_pos(), Err(ParseError::NoPosition));
    assert_eq!(Node_::BracketedList(pos_at(0, 1), items, pos_at(9, 1)).get_pos(), Ok(span(0, 10)));
    assert_eq!(
        Node_::BracketedList(pos_at(0, 1), list(&arena, vec![]), pos_at(9, 1)).get_pos(),
        Err(ParseError::NoPosition)
    );
    assert_eq!(Node_::Ty(prim(&arena, Tprim::Tint, pos_at(4, 3))).get_pos(), Ok(pos_at(4, 3)));
    assert_eq!(Node_::Ty(Ty(Reason::Rnone, &Ty_::Tany)).get_pos(), Ok(Pos::make_none()));
    assert_eq!(Node_::Ty(Ty(Reason::Rwitness(pos_at(1, 1)), &Ty_::Tany)).get_pos(), Ok(pos_at(1, 1)));
    let elsewhere = Node_::Name("c", Pos::from_lnum_bol_cnum(RelativePath::make(Prefix::Root, "b.php"), (1, 0, 0), (1, 0, 1)));
    let mixed = list(&arena, vec![a, elsewhere, b]);
    assert_eq!(Node_::pos_from_slice(mixed), Ok(pos_at(6, 2)));
    assert_eq!(Node_::pos_from_slice(list(&arena, vec![a, elsewhere])), Err(ParseError::PositionsInSeparateFiles));
}

#[test]
fn nodes_read_as_lists_and_tokens() {
    let arena = Bump::new();
    let a = Node_::Name("a", pos_at(2, 1));
    let items = list(&arena, vec![a, Node_::Token(TokenKind::Static)]);
    assert_eq!(Node_::List(items).as_slice(&arena), items);
    assert_eq!(Node_::BracketedList(pos_at(0, 1), items, pos_at(9, 1)).as_slice(&arena), items);
    assert!(Node_::Ignored.as_slice(&arena).is_empty());
    assert_eq!(a.as_slice(&arena), &vec![a]);
    assert!(Node_::any_token(items, TokenKind::Static));
    assert!(!Node_::any_token(items, TokenKind::Final));
    assert!(Node_::Ignored.is_ignored());
    assert!(!a.is_ignored());
    assert!(Node_::Token(TokenKind::As).is_token(TokenKind::As));
    assert!(!Node_::Token(TokenKind::As).is_token(TokenKind::Super));
    assert!(!a.is_token(TokenKind::As));
    assert_eq!(Node_::Token(TokenKind::Public).as_visibility(), Ok(Visibility::Public));
    assert_eq!(Node_::Token(TokenKind::Private).as_visibility(), Ok(Visibility::Private));
    assert_eq!(Node_::Token(TokenKind::Protected).as_visibility(), Ok(Visibility::Protected));
    assert_eq!(Node_::Token(TokenKind::Static).as_visibility(), Err(ParseError::ExpectedVisibility));
    assert_eq!(a.as_visibility(), Err(ParseError::ExpectedVisibility));
    let m = read_member_modifiers(list(&arena, vec![
        Node_::Token(TokenKind::Public),
        Node_::Token(TokenKind::Static),
        Node_::Token(TokenKind::Protected),
        Node_::Token(TokenKind::Final),
        a,
    ]));
    assert_eq!(m.visibility, Visibility::Protected);
    assert!(m.is_static && m.is_final && !m.is_abstract);
    let none = read_member_modifiers(list(&arena, vec![]));
    assert_eq!(none.visibility, Visibility::Private);
    assert!(!none.is_static && !none.is_final && !none.is_abstract);
}

#[test]
fn expressions_from_nodes() {
    let arena = Bump::new();
    let mut s = session(&arena);
    s.state.namespace_builder.push_namespace(Some("N"));
    let p = pos_at(1, 2);
    assert_eq!(s.node_to_expr(Node_::IntLiteral("42", p)), Ok(Expr(p, Expr_::Int("42"))));
    assert_eq!(s.node_to_expr(Node_::FloatingLiteral("4.2", p)), Ok(Expr(p, Expr_::Float("4.2"))));
    assert_eq!(s.node_to_expr(Node_::StringLiteral("s", p)), Ok(Expr(p, Expr_::String("s"))));
    assert_eq!(s.node_to_expr(Node_::BooleanLiteral("True", p)), Ok(Expr(p, Expr_::True)));
    assert_eq!(s.node_to_expr(Node_::BooleanLiteral("false", p)), Ok(Expr(p, Expr_::False)));
    assert_eq!(s.node_to_expr(Node_::BooleanLiteral("yes", p)), Ok(Expr(p, Expr_::False)));
    assert_eq!(s.node_to_expr(Node_::Null(p)), Ok(Expr(p, Expr_::Null)));
    assert_eq!(s.node_to_expr(Node_::Name("C", p)), Ok(Expr(p, Expr_::Id(Id(p, "\\N\\C")))));
    let given = Expr(pos_at(9, 1), Expr_::Null);
    assert_eq!(s.node_to_expr(Node_::Expr(arena.alloc(given))), Ok(given));
    assert_eq!(s.node_to_expr(Node_::Ignored), Err(ParseError::NotAnExpression));
    assert_eq!(s.node_to_expr(Node_::This(p)), Err(ParseError::NotAnExpression));
    let exprs = s.nodes_to_exprs(list(&arena, vec![Node_::Null(p), Node_::IntLiteral("1", p)])).unwrap();
    assert_eq!(exprs, &vec![Expr(p, Expr_::Null), Expr(p, Expr_::Int("1"))]);
    assert_eq!(
        s.nodes_to_exprs(list(&arena, vec![Node_::Null(p), Node_::Ignored, Node_::This(p)])),
        Err(ParseError::NotAnExpression)
    );
}

#[test]
fn operators_make_expressions() {
    let arena = Bump::new();
    let mut s = session(&arena);
    let one = Node_::IntLiteral("1", pos_at(2, 1));
    let two = Node_::IntLiteral("2", pos_at(6, 1));
    let minus = Node_::Operator(pos_at(0, 1), TokenKind::Minus);
    let plus = Node_::Operator(pos_at(4, 1), TokenKind::Plus);
    let one_expr = Expr(pos_at(2, 1), Expr_::Int("1"));
    let two_expr = Expr(pos_at(6, 1), Expr_::Int("2"));
    assert_eq!(
        s.make_prefix_unary_expression(Ok(minus), Ok(one)),
        Ok(Node_::Expr(&Expr(span(0, 3), Expr_::Unop(Uop::Uminus, &one_expr))))
    );
    let incr = Node_::Operator(pos_at(3, 2), TokenKind::PlusPlus);
    assert_eq!(
        s.make_postfix_unary_expression(Ok(one), Ok(incr)),
        Ok(Node_::Expr(&Expr(span(2, 5), Expr_::Unop(Uop::Upincr, &one_expr))))
    );
    assert_eq!(
        s.make_prefix_unary_expression(Ok(incr), Ok(two)),
        Ok(Node_::Expr(&Expr(span(3, 7), Expr_::Unop(Uop::Uincr, &two_expr))))
    );
    assert_eq!(
        s.make_binary_expression(Ok(one), Ok(plus), Ok(two)),
        Ok(Node_::Expr(&Expr(span(2, 7), Expr_::Binop(Bop::Plus, &one_expr, &two_expr))))
    );
    let yielded = Node_::Token(TokenKind::Yield);
    assert_eq!(s.make_binary_expression(Ok(one), Ok(plus), Ok(yielded)), Ok(yielded));
    assert_eq!(s.make_binary_expression(Ok(yielded), Ok(plus), Ok(two)), Ok(yielded));
    assert_eq!(s.make_prefix_unary_expression(Ok(minus), Ok(yielded)), Ok(yielded));
    assert_eq!(s.make_postfix_unary_expression(Ok(yielded), Ok(incr)), Ok(yielded));
    assert_eq!(
        s.make_binary_expression(Ok(yielded), Ok(plus), Err(ParseError::NoPosition)),
        Err(ParseError::NoPosition)
    );
    assert_eq!(s.make_binary_expression(Ok(one), Ok(plus), Ok(Node_::Ignored)), Ok(Node_::Ignored));
    assert_eq!(s.make_prefix_unary_expression(Ok(minus), Ok(Node_::Ignored)), Ok(Node_::Ignored));
    assert_eq!(s.make_postfix_unary_expression(Ok(Node_::Ignored), Ok(incr)), Ok(Node_::Ignored));
    assert_eq!(s.make_pair(Ok(one), Ok(yielded)), Ok(yielded));
    assert_eq!(s.make_list_item(Ok(yielded), Ok(plus)), Ok(yielded));
    let star = Node_::Operator(pos_at(0, 1), TokenKind::Star);
    assert_eq!(s.make_prefix_unary_expression(Ok(star), Ok(one)), Err(ParseError::NotAPrefixOperator));
    assert_eq!(s.make_postfix_unary_expression(Ok(one), Ok(plus)), Err(ParseError::NotAPostfixOperator));
    let tilde = Node_::Operator(pos_at(4, 1), TokenKind::Tilde);
    assert_eq!(s.make_binary_expression(Ok(one), Ok(tilde), Ok(two)), Err(ParseError::NotABinaryOperator));
    let not_an_operator = Node_::Name("x", pos_at(0, 1));
    assert_eq!(s.make_prefix_unary_expression(Ok(not_an_operator), Ok(one)), Err(ParseError::ExpectedOperator));
    assert_eq!(s.make_binary_expression(Ok(one), Ok(not_an_operator), Ok(two)), Err(ParseError::ExpectedOperator));
    let this = Node_::This(pos_at(6, 4));
    assert_eq!(s.make_binary_expression(Ok(one), Ok(plus), Ok(this)), Err(ParseError::NotAnExpression));
}

#[test]
fn collections_make_expressions() {
    let arena = Bump::new();
    let mut s = session(&arena);
    let kw = Node_::Name("vec", pos_at(0, 3));
    let close = Node_::Pos(pos_at(9, 1));
    let one = Node_::IntLiteral("1", pos_at(4, 1));
    let two = Node_::IntLiteral("2", pos_at(7, 1));
    let one_expr = Expr(pos_at(4, 1), Expr_::Int("1"));
    let two_expr = Expr(pos_at(7, 1), Expr_::Int("2"));
    let both = Ok(Node_::List(list(&arena, vec![one, two])));
    let exprs = vec![one_expr, two_expr];
    let whole = span(0, 10);
    assert_eq!(
        s.make_vector_intrinsic_expression(Ok(kw), missing(), missing(), both, Ok(close)),
        Ok(Node_::Expr(&Expr(whole, Expr_::ValCollection(shallow_decl::aast::VcKind::Vec, &exprs))))
    );
    assert_eq!(
        s.make_keyset_intrinsic_expression(Ok(kw), missing(), missing(), both, Ok(close)),
        Ok(Node_::Expr(&Expr(whole, Expr_::ValCollection(shallow_decl::aast::VcKind::Keyset, &exprs))))
    );
    assert_eq!(
        s.make_varray_intrinsic_expression(Ok(kw), missing(), missing(), both, Ok(close)),
        Ok(Node_::Expr(&Expr(whole, Expr_::Varray(&exprs))))
    );
    assert_eq!(
        s.make_tuple_expression(Ok(kw), missing(), both, Ok(close)),
        Ok(Node_::Expr(&Expr(whole, Expr_::List(&exprs))))
    );
    assert_eq!(
        s.make_varray_intrinsic_expression(Ok(kw), missing(), missing(), missing(), Ok(close)),
        Ok(Node_::Expr(&Expr(whole, Expr_::Varray(&vec![]))))
    );
    let pair = Node_::ListItem(arena.alloc((one, two)));
    let pairs = vec![(one_expr, two_expr)];
    assert_eq!(
        s.make_darray_intrinsic_expression(Ok(kw), missing(), missing(), Ok(pair), Ok(close)),
        Ok(Node_::Expr(&Expr(whole, Expr_::Darray(&pairs))))
    );
    assert_eq!(
        s.make_dictionary_intrinsic_expression(Ok(kw), missing(), missing(), Ok(pair), Ok(close)),
        Ok(Node_::Expr(&Expr(whole, Expr_::KeyValCollection(shallow_decl::aast::KvcKind::Dict, &pairs))))
    );
    let mixed = Ok(Node_::List(list(&arena, vec![pair, two])));
    let afields = vec![
        shallow_decl::aast::Afield::AFkvalue(one_expr, two_expr),
        shallow_decl::aast::Afield::AFvalue(two_expr),
    ];
    assert_eq!(
        s.make_array_intrinsic_expression(Ok(kw), missing(), mixed, Ok(close)),
        Ok(Node_::Expr(&Expr(whole, Expr_::Array(&afields))))
    );
    assert_eq!(
        s.make_darray_intrinsic_expression(Ok(kw), missing(), missing(), Ok(one), Ok(close)),
        Err(ParseError::ExpectedListItem)
    );
    assert_eq!(
        s.make_vector_intrinsic_expression(Ok(kw), missing(), missing(), both, missing()),
        Err(ParseError::NoPosition)
    );
    let key = Node_::StringLiteral("k", pos_at(4, 3));
    let number_key = Node_::IntLiteral("3", pos_at(4, 1));
    let shape_fields = vec![(ShapeFieldName::SFlitStr((pos_at(4, 3), "k")), two_expr)];
    assert_eq!(
        s.make_shape_expression(Ok(kw), missing(), Ok(Node_::ListItem(arena.alloc((key, two)))), Ok(close)),
        Ok(Node_::Expr(&Expr(whole, Expr_::Shape(&shape_fields))))
    );
    let int_fields = vec![(ShapeFieldName::SFlitInt((pos_at(4, 1), "3")), two_expr)];
    assert_eq!(
        s.make_shape_expression(Ok(kw), missing(), Ok(Node_::ListItem(arena.alloc((number_key, two)))), Ok(close)),
        Ok(Node_::Expr(&Expr(whole, Expr_::Shape(&int_fields))))
    );
    let named_key = Node_::ListItem(arena.alloc((Node_::Name("K", pos_at(4, 1)), two)));
    assert_eq!(
        s.make_shape_expression(Ok(kw), missing(), Ok(named_key), Ok(close)),
        Err(ParseError::ExpectedShapeKey)
    );
    assert_eq!(
        s.make_shape_expression(Ok(kw), missing(), Ok(two), Ok(close)),
        Err(ParseError::ExpectedListItem)
    );
}

#[test]
fn class_constants_and_attributes_as_expressions() {
    let arena = Bump::new();
    let mut s = session(&arena);
    let class = Node_::Name("C", pos_at(0, 1));
    let member = Node_::Name("X", pos_at(3, 1));
    let r = s.make_scope_resolution_expression(Ok(class), missing(), Ok(member));
    let expected = Expr(
        span(0, 4),
        Expr_::ClassConst(
            shallow_decl::aast::ClassId(pos_at(0, 1), shallow_decl::aast::ClassId_::CI(Id(pos_at(0, 1), "\\C"))),
            (pos_at(3, 1), "X"),
        ),
    );
    assert_eq!(r, Ok(Node_::Expr(&expected)));
    let itself = Node_::Name("SELF", pos_at(0, 4));
    let r = s.make_scope_resolution_expression(Ok(itself), missing(), Ok(Node_::Name("X", pos_at(6, 1))));
    let expected = Expr(
        span(0, 7),
        Expr_::ClassConst(
            shallow_decl::aast::ClassId(pos_at(0, 4), shallow_decl::aast::ClassId_::CIself),
            (pos_at(6, 1), "X"),
        ),
    );
    assert_eq!(r, Ok(Node_::Expr(&expected)));
    s.state.namespace_builder.push_namespace(Some("N"));
    let custom = s.make_constructor_call(Ok(Node_::Name("Custom", pos_at(0, 6))), missing(), missing(), missing());
    assert_eq!(
        custom,
        Ok(Node_::Attribute(UserAttribute { name: Id(pos_at(0, 6), "\\N\\Custom"), params: &vec![] }))
    );
    let builtin = s.make_constructor_call(
        Ok(Node_::Name("__Memoize", pos_at(0, 9))),
        missing(),
        Ok(Node_::IntLiteral("1", pos_at(10, 1))),
        missing(),
    );
    assert_eq!(
        builtin,
        Ok(Node_::Attribute(UserAttribute {
            name: Id(pos_at(0, 9), "__Memoize"),
            params: &vec![Expr(pos_at(10, 1), Expr_::Int("1"))],
        }))
    );
    let short = s.make_constructor_call(Ok(Node_::Name("_", pos_at(0, 1))), missing(), missing(), missing());
    assert_eq!(short, Ok(Node_::Attribute(UserAttribute { name: Id(pos_at(0, 1), "\\N\\_"), params: &vec![] })));
}

#[test]
fn function_kinds() {
    assert_eq!(fun_kind(false, false, false), FunKind::FSync);
    assert_eq!(fun_kind(true, false, false), FunKind::FAsync);
    assert_eq!(fun_kind(false, false, true), FunKind::FGenerator);
    assert_eq!(fun_kind(true, false, true), FunKind::FAsyncGenerator);
    assert_eq!(fun_kind(false, true, false), FunKind::FCoroutine);
    assert_eq!(fun_kind(true, true, true), FunKind::FCoroutine);
}
