use bumpalo::Bump;
use shallow_decl::aast::Visibility;
use shallow_decl::ast_defs::{ClassKind, Id};
use shallow_decl::decls::DuplicatePolicy;
use shallow_decl::direct_decl_parser::{parse_decl_lists, parse_decls};
use shallow_decl::error::ParseError;
use shallow_decl::node::{Node, Node_};
use shallow_decl::pos::{Pos, Prefix, RelativePath};
use shallow_decl::shallow_decl_defs::Mode;
use shallow_decl::state::DirectDeclSmartConstructors;
use shallow_decl::syntax::{Syntax, SyntaxVariant};
use shallow_decl::syntax_kind::SyntaxKind;
use shallow_decl::token::{Token, Trivia, TriviaKind};
use shallow_decl::token_kind::TokenKind;
use shallow_decl::typing_defs::{FunArity, Reason, Ty, Ty_};

type Tree<'a> = Syntax<Token<'a>, ()>;

fn place(start: usize, len: usize) -> Pos<'static> {
    Pos::from_lnum_bol_cnum(
        RelativePath::make(Prefix::Root, "a.php"),
        (1, 0, start),
        (1, 0, start + len),
    )
}

fn fresh<'a>(arena: &'a Bump) -> DirectDeclSmartConstructors<'a> {
    let auto: &'a Vec<(&'a str, &'a str)> = arena.alloc(vec![("Vector", "HH\\Vector")]);
    DirectDeclSmartConstructors::new(
        b"",
        RelativePath::make(Prefix::Root, "a.php"),
        arena,
        auto,
        DuplicatePolicy::Overwrite,
    )
}

fn word<'a>(arena: &'a Bump, kind: TokenKind, text: &'a str, start: usize) -> Token<'a> {
    Token {
        kind,
        text,
        pos: place(start, text.len()),
        trailing: arena.alloc(Vec::new()),
        literal: None,
    }
}

fn leaf<'a>(arena: &'a Bump, kind: TokenKind, text: &'a str, start: usize) -> Tree<'a> {
    Syntax::make(SyntaxVariant::Token(Box::new(word(arena, kind, text, start))), ())
}

fn nothing<'a>() -> Tree<'a> {
    Syntax::make(SyntaxVariant::Missing, ())
}

fn node<'a>(kind: SyntaxKind, children: Vec<Tree<'a>>) -> Tree<'a> {
    Syntax::make(SyntaxVariant::Production(kind, children), ())
}

fn items<'a>(children: Vec<Tree<'a>>) -> Tree<'a> {
    Syntax::make(SyntaxVariant::SyntaxList(children), ())
}

fn type_parameters_of<'a>(arena: &'a Bump, name: &'a str, start: usize) -> Tree<'a> {
    let parameter = node(
        SyntaxKind::TypeParameter,
        vec![nothing(), nothing(), nothing(), leaf(arena, TokenKind::Name, name, start + 1), nothing()],
    );
    node(
        SyntaxKind::TypeParameters,
        vec![
            leaf(arena, TokenKind::LessThan, "<", start),
            items(vec![node(SyntaxKind::ListItem, vec![parameter, nothing()])]),
            leaf(arena, TokenKind::GreaterThan, ">", start + 1 + name.len()),
        ],
    )
}

fn simple_type<'a>(arena: &'a Bump, name: &'a str, start: usize) -> Tree<'a> {
    node(SyntaxKind::SimpleTypeSpecifier, vec![leaf(arena, TokenKind::Name, name, start)])
}

// namespace N; class C<T> { public function f(T $x): T { return $x; } }
fn generic_class_in_namespace<'a>(arena: &'a Bump) -> Tree<'a> {
    let namespace = node(
        SyntaxKind::NamespaceDeclaration,
        vec![
            node(
                SyntaxKind::NamespaceDeclarationHeader,
                vec![
                    leaf(arena, TokenKind::Other, "namespace", 0),
                    leaf(arena, TokenKind::Name, "N", 10),
                ],
            ),
            node(SyntaxKind::NamespaceEmptyBody, vec![leaf(arena, TokenKind::Semicolon, ";", 11)]),
        ],
    );
    let parameter = node(
        SyntaxKind::ParameterDeclaration,
        vec![
            nothing(),
            nothing(),
            nothing(),
            simple_type(arena, "T", 44),
            leaf(arena, TokenKind::Variable, "$x", 46),
            nothing(),
        ],
    );
    let header = node(
        SyntaxKind::FunctionDeclarationHeader,
        vec![
            items(vec![leaf(arena, TokenKind::Public, "public", 26)]),
            leaf(arena, TokenKind::Other, "function", 33),
            leaf(arena, TokenKind::Name, "f", 42),
            nothing(),
            leaf(arena, TokenKind::LeftParen, "(", 43),
            items(vec![node(SyntaxKind::ListItem, vec![parameter, nothing()])]),
            leaf(arena, TokenKind::RightParen, ")", 48),
            leaf(arena, TokenKind::Other, ":", 49),
            simple_type(arena, "T", 51),
            nothing(),
        ],
    );
    let body = node(
        SyntaxKind::CompoundStatement,
        vec![
            leaf(arena, TokenKind::Other, "{", 53),
            items(vec![node(
                SyntaxKind::ReturnStatement,
                vec![
                    leaf(arena, TokenKind::Other, "return", 55),
                    node(
                        SyntaxKind::VariableExpression,
                        vec![leaf(arena, TokenKind::Variable, "$x", 62)],
                    ),
                    leaf(arena, TokenKind::Semicolon, ";", 64),
                ],
            )]),
            leaf(arena, TokenKind::Other, "}", 66),
        ],
    );
    let method = node(SyntaxKind::MethodishDeclaration, vec![nothing(), header, body, nothing()]);
    let class = node(
        SyntaxKind::ClassishDeclaration,
        vec![
            nothing(),
            nothing(),
            nothing(),
            leaf(arena, TokenKind::Class, "class", 13),
            leaf(arena, TokenKind::Name, "C", 19),
            type_parameters_of(arena, "T", 20),
            nothing(),
            nothing(),
            nothing(),
            nothing(),
            nothing(),
            node(
                SyntaxKind::ClassishBody,
                vec![
                    leaf(arena, TokenKind::Other, "{", 24),
                    items(vec![method]),
                    leaf(arena, TokenKind::Other, "}", 68),
                ],
            ),
        ],
    );
    node(
        SyntaxKind::Script,
        vec![items(vec![namespace, class, leaf(arena, TokenKind::EndOfFile, "", 69)])],
    )
}

#[test]
fn a_tree_is_reduced_to_its_declarations() {
    let arena = Bump::new();
    let mut s = fresh(&arena);
    let tree = generic_class_in_namespace(&arena);
    let reduced = s.reduce_tree(&tree);
    assert_eq!(reduced, Ok(Node_::Ignored));

    assert!(s.state.type_parameters.is_empty());
    assert_eq!(s.state.namespace_builder.stack.len(), 2);
    assert_eq!(s.state.namespace_builder.current_namespace(), "\\N\\");
    assert!(s.state.decls.funs.is_empty());
    assert!(s.state.decls.typedefs.is_empty());
    assert!(s.state.decls.consts.is_empty());
    assert_eq!(s.state.decls.classes.len(), 1);
    let (name, class) = s.state.decls.classes[0];
    assert_eq!(name, "\\N\\C");
    assert_eq!(class.name, Id(place(19, 1), "\\N\\C"));
    assert_eq!(class.kind, ClassKind::Cnormal);
    assert_eq!(class.tparams.len(), 1);
    assert_eq!(class.tparams[0].name, Id(place(21, 1), "T"));
    assert_eq!(class.methods.len(), 1);
    let method = class.methods[0];
    assert_eq!(method.name, Id(place(42, 1), "f"));
    assert_eq!(method.visibility, Visibility::Public);
    let signature = match *method.type_.1 {
        Ty_::Tfun(signature) => signature,
        other => panic!("no function type: {:?}", other),
    };
    assert_eq!(signature.arity, FunArity::Fstandard);
    assert_eq!(signature.params.len(), 1);
    assert_eq!(signature.params[0].name, Some("$x"));
    assert_eq!(
        signature.params[0].type_.type_,
        Ty(Reason::Rhint(place(44, 1)), &Ty_::Tgeneric("T"))
    );
    assert_eq!(signature.ret.type_, Ty(Reason::Rhint(place(51, 1)), &Ty_::Tgeneric("T")));
    assert!(!signature.flags.generator);
}

#[test]
fn the_same_tree_gives_the_same_declarations() {
    let arena = Bump::new();
    let tree = generic_class_in_namespace(&arena);
    let mut first = fresh(&arena);
    let mut second = fresh(&arena);
    assert_eq!(first.reduce_tree(&tree), second.reduce_tree(&tree));
    assert_eq!(first.state.decls.classes, second.state.decls.classes);
}

#[test]
fn a_missing_node_and_an_empty_list_reduce_to_nothing() {
    let arena = Bump::new();
    let mut s = fresh(&arena);
    assert_eq!(s.reduce_tree(&nothing()), Ok(Node_::Ignored));
    assert_eq!(s.reduce_tree(&items(vec![])), Ok(Node_::Ignored));
    assert_eq!(s.reduce(SyntaxKind::SyntaxList, vec![]), Ok(Node_::Ignored));
    assert_eq!(s.reduce(SyntaxKind::ReturnStatement, vec![]), Ok(Node_::Ignored));
}

#[test]
fn a_production_with_too_few_children_is_refused() {
    let arena = Bump::new();
    let mut s = fresh(&arena);
    assert_eq!(s.reduce(SyntaxKind::ListItem, vec![]), Err(ParseError::UnexpectedArity));
    assert_eq!(
        s.reduce(SyntaxKind::TypeParameters, vec![Ok(Node_::Ignored)]),
        Err(ParseError::UnexpectedArity)
    );
    assert!(s.state.type_parameters.is_empty());
    assert_eq!(
        s.reduce(SyntaxKind::NamespaceBody, vec![Ok(Node_::Ignored), Ok(Node_::Ignored)]),
        Err(ParseError::UnexpectedArity)
    );
    assert_eq!(s.state.namespace_builder.stack.len(), 1);
    let short = node(SyntaxKind::ClassishDeclaration, vec![nothing()]);
    assert_eq!(s.reduce_tree(&short), Err(ParseError::UnexpectedArity));
    assert!(s.state.decls.classes.is_empty());
}

#[test]
fn a_failed_child_fails_the_production_around_it() {
    let arena = Bump::new();
    let mut s = fresh(&arena);
    let failed: Node = Err(ParseError::NoPosition);
    assert_eq!(
        s.reduce(SyntaxKind::ReturnStatement, vec![Ok(Node_::Ignored), failed]),
        Err(ParseError::NoPosition)
    );
    assert_eq!(s.reduce(SyntaxKind::SyntaxList, vec![failed]), Err(ParseError::NoPosition));
}

#[test]
fn scopes_open_with_type_parameters_and_close_with_their_declaration() {
    let arena = Bump::new();
    let mut s = fresh(&arena);
    let alias = node(
        SyntaxKind::AliasDeclaration,
        vec![
            nothing(),
            leaf(&arena, TokenKind::Type, "type", 0),
            leaf(&arena, TokenKind::Name, "Box", 5),
            type_parameters_of(&arena, "T", 8),
            nothing(),
            leaf(&arena, TokenKind::Equal, "=", 12),
            simple_type(&arena, "T", 14),
            leaf(&arena, TokenKind::Semicolon, ";", 15),
        ],
    );
    let opened = s.reduce_tree(&type_parameters_of(&arena, "T", 8));
    assert!(opened.is_ok());
    assert_eq!(s.state.type_parameters.len(), 1);
    assert!(s.is_type_param_in_scope("T"));

    let mut s = fresh(&arena);
    assert_eq!(s.reduce_tree(&alias), Ok(Node_::Ignored));
    assert!(s.state.type_parameters.is_empty());
    assert!(!s.is_type_param_in_scope("T"));
    assert_eq!(s.state.decls.typedefs.len(), 1);
    let (name, typedef) = s.state.decls.typedefs[0];
    assert_eq!(name, "\\Box");
    assert_eq!(typedef.tparams.len(), 1);
    assert_eq!(typedef.type_, Ty(Reason::Rhint(place(14, 1)), &Ty_::Tgeneric("T")));
}

#[test]
fn namespaces_open_with_their_header_and_close_with_their_block() {
    let arena = Bump::new();
    let mut s = fresh(&arena);
    let header = node(
        SyntaxKind::NamespaceDeclarationHeader,
        vec![leaf(&arena, TokenKind::Other, "namespace", 0), leaf(&arena, TokenKind::Name, "N", 10)],
    );
    assert_eq!(s.reduce_tree(&header), Ok(Node_::Ignored));
    assert_eq!(s.state.namespace_builder.stack.len(), 2);
    assert_eq!(s.state.namespace_builder.current_namespace(), "\\N\\");
    let block = node(
        SyntaxKind::NamespaceBody,
        vec![
            leaf(&arena, TokenKind::Other, "{", 12),
            items(vec![]),
            leaf(&arena, TokenKind::Other, "}", 13),
        ],
    );
    assert_eq!(s.reduce_tree(&block), Ok(Node_::Ignored));
    assert_eq!(s.state.namespace_builder.stack.len(), 1);
    assert_eq!(s.state.namespace_builder.current_namespace(), "\\");
    assert_eq!(s.reduce_tree(&block), Ok(Node_::Ignored));
    assert_eq!(s.state.namespace_builder.stack.len(), 1);
}

fn no_imports<'a>(arena: &'a Bump) -> &'a Vec<(&'a str, &'a str)> {
    arena.alloc(Vec::new())
}

// <?hh // partial
// function f(): void {}
fn partial_file<'a>(arena: &'a Bump) -> Tree<'a> {
    let hh = Token {
        kind: TokenKind::Name,
        text: "hh",
        pos: place(2, 2),
        trailing: arena.alloc(vec![
            Trivia { kind: TriviaKind::WhiteSpace, text: " " },
            Trivia { kind: TriviaKind::SingleLineComment, text: "// partial" },
            Trivia { kind: TriviaKind::EndOfLine, text: "\n" },
        ]),
        literal: None,
    };
    let markup = node(
        SyntaxKind::MarkupSection,
        vec![
            leaf(arena, TokenKind::LessThanQuestion, "<?", 0),
            node(
                SyntaxKind::MarkupSuffix,
                vec![nothing(), Syntax::make(SyntaxVariant::Token(Box::new(hh)), ())],
            ),
        ],
    );
    let header = node(
        SyntaxKind::FunctionDeclarationHeader,
        vec![
            nothing(),
            leaf(arena, TokenKind::Other, "function", 16),
            leaf(arena, TokenKind::Name, "f", 25),
            nothing(),
            leaf(arena, TokenKind::LeftParen, "(", 26),
            nothing(),
            leaf(arena, TokenKind::RightParen, ")", 27),
            leaf(arena, TokenKind::Other, ":", 28),
            node(SyntaxKind::SimpleTypeSpecifier, vec![leaf(arena, TokenKind::Void, "void", 30)]),
            nothing(),
        ],
    );
    let body = node(
        SyntaxKind::CompoundStatement,
        vec![
            leaf(arena, TokenKind::Other, "{", 35),
            nothing(),
            leaf(arena, TokenKind::Other, "}", 36),
        ],
    );
    let function = node(SyntaxKind::FunctionDeclaration, vec![nothing(), header, body]);
    node(
        SyntaxKind::Script,
        vec![items(vec![markup, function, leaf(arena, TokenKind::EndOfFile, "", 37)])],
    )
}

#[test]
fn the_declarations_of_a_file_come_out_by_name() {
    let arena = Bump::new();
    let tree = generic_class_in_namespace(&arena);
    let decls = parse_decls(
        RelativePath::make(Prefix::Root, "a.php"),
        b"",
        no_imports(&arena),
        &arena,
        &tree,
        DuplicatePolicy::Overwrite,
    )
    .unwrap();
    assert_eq!(decls.classes.len(), 1);
    assert_eq!(decls.classes[0].0, "\\N\\C");
    assert!(decls.funs.is_empty() && decls.typedefs.is_empty() && decls.consts.is_empty());
}

#[test]
fn a_file_says_its_mode() {
    let arena = Bump::new();
    let tree = partial_file(&arena);
    let (decls, mode) = parse_decl_lists(
        RelativePath::make(Prefix::Root, "a.php"),
        b"",
        no_imports(&arena),
        &arena,
        &tree,
        DuplicatePolicy::Overwrite,
    )
    .unwrap();
    assert_eq!(mode, Some(Mode::Mpartial));
    assert_eq!(decls.funs.len(), 1);
    let (name, function) = decls.funs[0];
    assert_eq!(name, "\\f");
    assert_eq!(function.pos, place(25, 1));
    assert!(decls.classes.is_empty());

    let (_, mode) = parse_decl_lists(
        RelativePath::make(Prefix::Root, "a.php"),
        b"",
        no_imports(&arena),
        &arena,
        &nothing(),
        DuplicatePolicy::Overwrite,
    )
    .unwrap();
    assert_eq!(mode, None);
}

#[test]
fn a_file_that_cannot_be_reduced_has_no_declarations() {
    let arena = Bump::new();
    let good = generic_class_in_namespace(&arena);
    let bad = node(SyntaxKind::ClassishBody, vec![nothing()]);
    let tree = node(SyntaxKind::Script, vec![items(vec![good, bad])]);
    let failed = parse_decls(
        RelativePath::make(Prefix::Root, "a.php"),
        b"",
        no_imports(&arena),
        &arena,
        &tree,
        DuplicatePolicy::Overwrite,
    );
    assert_eq!(failed.err(), Some(ParseError::UnexpectedArity));
    let failed = parse_decl_lists(
        RelativePath::make(Prefix::Root, "a.php"),
        b"",
        no_imports(&arena),
        &arena,
        &tree,
        DuplicatePolicy::Overwrite,
    );
    assert_eq!(failed.err(), Some(ParseError::UnexpectedArity));
}

#[test]
fn a_name_declared_twice_is_overwritten_or_refused() {
    let arena = Bump::new();
    let twice = node(
        SyntaxKind::Script,
        vec![items(vec![partial_file(&arena), partial_file(&arena)])],
    );
    let decls = parse_decls(
        RelativePath::make(Prefix::Root, "a.php"),
        b"",
        no_imports(&arena),
        &arena,
        &twice,
        DuplicatePolicy::Overwrite,
    )
    .unwrap();
    assert_eq!(decls.funs.len(), 1);
    let refused = parse_decls(
        RelativePath::make(Prefix::Root, "a.php"),
        b"",
        no_imports(&arena),
        &arena,
        &twice,
        DuplicatePolicy::Reject,
    );
    assert_eq!(refused.err(), Some(ParseError::DuplicateDeclaration));
}

// function g() { <statement> }
fn function_with_statement<'a>(arena: &'a Bump, statement: Tree<'a>) -> Tree<'a> {
    let header = node(
        SyntaxKind::FunctionDeclarationHeader,
        vec![
            nothing(),
            leaf(arena, TokenKind::Other, "function", 0),
            leaf(arena, TokenKind::Name, "g", 9),
            nothing(),
            leaf(arena, TokenKind::LeftParen, "(", 10),
            nothing(),
            leaf(arena, TokenKind::RightParen, ")", 11),
            nothing(),
            nothing(),
            nothing(),
        ],
    );
    let body = node(
        SyntaxKind::CompoundStatement,
        vec![
            leaf(arena, TokenKind::Other, "{", 13),
            items(vec![statement]),
            leaf(arena, TokenKind::Other, "}", 40),
        ],
    );
    node(SyntaxKind::FunctionDeclaration, vec![nothing(), header, body])
}

fn yield_one<'a>(arena: &'a Bump, start: usize) -> Tree<'a> {
    node(
        SyntaxKind::YieldExpression,
        vec![
            leaf(arena, TokenKind::Yield, "yield", start),
            node(
                SyntaxKind::LiteralExpression,
                vec![leaf(arena, TokenKind::DecimalLiteral, "1", start + 6)],
            ),
        ],
    )
}

fn is_generator<'a>(arena: &'a Bump, tree: &Tree<'a>) -> bool {
    let decls = parse_decls(
        RelativePath::make(Prefix::Root, "a.php"),
        b"",
        no_imports(arena),
        arena,
        tree,
        DuplicatePolicy::Overwrite,
    )
    .unwrap();
    assert_eq!(decls.funs.len(), 1);
    assert_eq!(decls.funs[0].0, "\\g");
    match *decls.funs[0].1.type_.1 {
        Ty_::Tfun(signature) => signature.flags.generator,
        other => panic!("no function type: {:?}", other),
    }
}

#[test]
fn a_yield_statement_makes_a_generator() {
    let arena = Bump::new();
    // yield 1;
    let statement = node(
        SyntaxKind::ExpressionStatement,
        vec![yield_one(&arena, 15), leaf(&arena, TokenKind::Semicolon, ";", 22)],
    );
    assert!(is_generator(&arena, &function_with_statement(&arena, statement)));
    // return 1;
    let statement = node(
        SyntaxKind::ReturnStatement,
        vec![
            leaf(&arena, TokenKind::Other, "return", 15),
            node(
                SyntaxKind::LiteralExpression,
                vec![leaf(&arena, TokenKind::DecimalLiteral, "1", 22)],
            ),
            leaf(&arena, TokenKind::Semicolon, ";", 23),
        ],
    );
    assert!(!is_generator(&arena, &function_with_statement(&arena, statement)));
    // if (c) { yield 1; }
    let inner = node(
        SyntaxKind::ExpressionStatement,
        vec![yield_one(&arena, 24), leaf(&arena, TokenKind::Semicolon, ";", 31)],
    );
    let statement = node(
        SyntaxKind::IfStatement,
        vec![
            leaf(&arena, TokenKind::Other, "if", 15),
            leaf(&arena, TokenKind::LeftParen, "(", 18),
            leaf(&arena, TokenKind::Name, "c", 19),
            leaf(&arena, TokenKind::RightParen, ")", 20),
            node(
                SyntaxKind::CompoundStatement,
                vec![
                    leaf(&arena, TokenKind::Other, "{", 22),
                    items(vec![inner]),
                    leaf(&arena, TokenKind::Other, "}", 33),
                ],
            ),
            nothing(),
            nothing(),
        ],
    );
    assert!(is_generator(&arena, &function_with_statement(&arena, statement)));
}

fn expression_statement<'a>(arena: &'a Bump, expression: Tree<'a>, end: usize) -> Tree<'a> {
    node(
        SyntaxKind::ExpressionStatement,
        vec![expression, leaf(arena, TokenKind::Semicolon, ";", end)],
    )
}

fn assignment<'a>(arena: &'a Bump, value: Tree<'a>) -> Tree<'a> {
    node(
        SyntaxKind::BinaryExpression,
        vec![
            leaf(arena, TokenKind::Variable, "$x", 15),
            leaf(arena, TokenKind::Equal, "=", 18),
            value,
        ],
    )
}

fn block<'a>(arena: &'a Bump, statement: Tree<'a>, start: usize, end: usize) -> Tree<'a> {
    node(
        SyntaxKind::CompoundStatement,
        vec![
            leaf(arena, TokenKind::Other, "{", start),
            items(vec![statement]),
            leaf(arena, TokenKind::Other, "}", end),
        ],
    )
}

#[test]
fn a_yield_under_an_operator_makes_a_generator() {
    let arena = Bump::new();
    // $x = yield 1;
    let statement = expression_statement(&arena, assignment(&arena, yield_one(&arena, 20)), 27);
    assert!(is_generator(&arena, &function_with_statement(&arena, statement)));
    // $x = -yield 1;
    let negated = node(
        SyntaxKind::PrefixUnaryExpression,
        vec![leaf(&arena, TokenKind::Minus, "-", 20), yield_one(&arena, 21)],
    );
    let statement = expression_statement(&arena, assignment(&arena, negated), 28);
    assert!(is_generator(&arena, &function_with_statement(&arena, statement)));
    // $x = vec[yield 1];
    let elements = node(
        SyntaxKind::VectorIntrinsicExpression,
        vec![
            leaf(&arena, TokenKind::Vec, "vec", 20),
            nothing(),
            leaf(&arena, TokenKind::Other, "[", 23),
            items(vec![node(SyntaxKind::ListItem, vec![yield_one(&arena, 24), nothing()])]),
            leaf(&arena, TokenKind::RightBracket, "]", 31),
        ],
    );
    let statement = expression_statement(&arena, assignment(&arena, elements), 32);
    assert!(is_generator(&arena, &function_with_statement(&arena, statement)));
    // $x = 1 + 2;
    let two = node(
        SyntaxKind::LiteralExpression,
        vec![leaf(&arena, TokenKind::DecimalLiteral, "2", 20)],
    );
    let statement = expression_statement(&arena, assignment(&arena, two), 21);
    assert!(!is_generator(&arena, &function_with_statement(&arena, statement)));
}

#[test]
fn two_yields_in_one_statement_make_a_generator() {
    let arena = Bump::new();
    // f(yield 1, yield 1);
    let comma = leaf(&arena, TokenKind::Other, ",", 24);
    let call = node(
        SyntaxKind::FunctionCallExpression,
        vec![
            leaf(&arena, TokenKind::Name, "f", 15),
            nothing(),
            leaf(&arena, TokenKind::LeftParen, "(", 16),
            items(vec![
                node(SyntaxKind::ListItem, vec![yield_one(&arena, 17), comma]),
                node(SyntaxKind::ListItem, vec![yield_one(&arena, 26), nothing()]),
            ]),
            leaf(&arena, TokenKind::RightParen, ")", 33),
        ],
    );
    let statement = expression_statement(&arena, call, 34);
    assert!(is_generator(&arena, &function_with_statement(&arena, statement)));
}

#[test]
fn a_yield_in_a_nested_closure_makes_no_generator() {
    let arena = Bump::new();
    let yielding = |start: usize| {
        block(&arena, expression_statement(&arena, yield_one(&arena, start), start + 7), 24, 38)
    };
    // $x = function() { yield 1; };
    let anonymous = node(
        SyntaxKind::AnonymousFunction,
        vec![
            nothing(),
            nothing(),
            nothing(),
            nothing(),
            leaf(&arena, TokenKind::Other, "function", 20),
            leaf(&arena, TokenKind::LeftParen, "(", 28),
            nothing(),
            leaf(&arena, TokenKind::RightParen, ")", 29),
            nothing(),
            nothing(),
            nothing(),
            yielding(31),
        ],
    );
    let statement = expression_statement(&arena, assignment(&arena, anonymous), 39);
    assert!(!is_generator(&arena, &function_with_statement(&arena, statement)));
    // () ==> { yield 1; };
    let lambda = node(
        SyntaxKind::LambdaExpression,
        vec![
            nothing(),
            nothing(),
            nothing(),
            leaf(&arena, TokenKind::Other, "==>", 20),
            yielding(26),
        ],
    );
    let statement = expression_statement(&arena, lambda, 39);
    assert!(!is_generator(&arena, &function_with_statement(&arena, statement)));
    // async { yield 1; };
    let awaitable = node(
        SyntaxKind::AwaitableCreationExpression,
        vec![nothing(), leaf(&arena, TokenKind::Async, "async", 15), yielding(26)],
    );
    let statement = expression_statement(&arena, awaitable, 39);
    assert!(!is_generator(&arena, &function_with_statement(&arena, statement)));
    // A closure beside a yield of the function itself.
    let both = node(
        SyntaxKind::CompoundStatement,
        vec![
            leaf(&arena, TokenKind::Other, "{", 14),
            items(vec![
                expression_statement(
                    &arena,
                    node(
                        SyntaxKind::AwaitableCreationExpression,
                        vec![nothing(), leaf(&arena, TokenKind::Async, "async", 15), yielding(26)],
                    ),
                    39,
                ),
                expression_statement(&arena, yield_one(&arena, 41), 48),
            ]),
            leaf(&arena, TokenKind::Other, "}", 50),
        ],
    );
    assert!(is_generator(&arena, &function_with_statement(&arena, both)));
    // A closure with a child that failed fails the file.
    let mut s = fresh(&arena);
    assert_eq!(
        s.reduce(SyntaxKind::LambdaExpression, vec![Ok(Node_::Ignored), Err(ParseError::NoPosition)]),
        Err(ParseError::NoPosition)
    );
    assert_eq!(
        s.reduce(SyntaxKind::LambdaExpression, vec![Ok(Node_::Token(TokenKind::Yield))]),
        Ok(Node_::Ignored)
    );
}
