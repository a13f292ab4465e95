use bumpalo::Bump;
use shallow_decl::aast::{Expr, Expr_, Tprim, UserAttribute, Visibility};
use shallow_decl::ast_defs::{ClassKind, ConstraintKind, Id};
use shallow_decl::classes::extend_with;
use shallow_decl::decls::{empty_decls, DuplicatePolicy};
use shallow_decl::error::ParseError;
use shallow_decl::node::{NamespaceUseClause, Node, Node_, RequireClause};
use shallow_decl::pos::{Pos, Prefix, RelativePath};
use shallow_decl::shallow_decl_defs::{Mode, ShallowClass};
use shallow_decl::state::{DirectDeclSmartConstructors, FileModeBuilder};
use shallow_decl::token_kind::TokenKind;
use shallow_decl::typing_defs::{Reason, Ty, Ty_};

fn pos_at(start: usize, len: usize) -> Pos<'static> {
    Pos::from_lnum_bol_cnum(
        RelativePath::make(Prefix::Root, "a.php"),
        (1, 0, start),
        (1, 0, start + len),
    )
}

fn session_with<'a>(arena: &'a Bump, policy: DuplicatePolicy) -> DirectDeclSmartConstructors<'a> {
    let auto: &'a Vec<(&'a str, &'a str)> = arena.alloc(vec![("Vector", "HH\\Vector")]);
    DirectDeclSmartConstructors::new(
        b"",
        RelativePath::make(Prefix::Root, "a.php"),
        arena,
        auto,
        policy,
    )
}

fn session<'a>(arena: &'a Bump) -> DirectDeclSmartConstructors<'a> {
    session_with(arena, DuplicatePolicy::Overwrite)
}

fn list<'a>(arena: &'a Bump, items: Vec<Node_<'a>>) -> &'a Vec<Node_<'a>> {
    arena.alloc(items)
}

fn missing<'a>() -> Node<'a> {
    Ok(Node_::Ignored)
}

fn no_tys<'a>(arena: &'a Bump) -> &'a Vec<Ty<'a>> {
    arena.alloc(Vec::new())
}

fn name_ty<'a>(arena: &'a Bump, name: &'a str, p: Pos<'a>) -> Ty<'a> {
    Ty(Reason::Rhint(p), arena.alloc(Ty_::Tapply(Id(p, name), no_tys(arena))))
}

fn prim<'a>(arena: &'a Bump, tprim: Tprim, p: Pos<'a>) -> Ty<'a> {
    Ty(Reason::Rhint(p), arena.alloc(Ty_::Tprim(tprim)))
}

fn name<'a>(text: &'a str, start: usize) -> Node<'a> {
    Ok(Node_::Name(text, pos_at(start, text.len())))
}

fn class<'a>(
    s: &mut DirectDeclSmartConstructors<'a>,
    modifiers: Node<'a>,
    keyword: Node<'a>,
    class_name: &'a str,
    extends: Node<'a>,
    implements: Node<'a>,
    body: Node<'a>,
) -> Node<'a> {
    s.make_classish_declaration(
        missing(), modifiers, missing(), keyword, name(class_name, 6), missing(), missing(), extends,
        missing(), implements, missing(), body,
    )
}

fn last_class<'a>(s: &DirectDeclSmartConstructors<'a>) -> ShallowClass<'a> {
    s.state.decls.classes[s.state.decls.classes.len() - 1].1
}

#[test]
fn namespace_combinators_open_and_close() {
    let arena = Bump::new();
    let mut s = session(&arena);
    assert_eq!(s.make_namespace_declaration_header(missing(), name("A", 10)), Ok(Node_::Ignored));
    assert_eq!(s.state.namespace_builder.current_namespace(), "\\A\\");
    let nested = Node_::QualifiedName(
        list(
            &arena,
            vec![
                Node_::ListItem(arena.alloc((Node_::Name("B", pos_at(20, 1)), Node_::Backslash(pos_at(21, 1))))),
                Node_::Name("C", pos_at(22, 1)),
            ],
        ),
        pos_at(20, 3),
    );
    assert_eq!(s.make_namespace_declaration_header(missing(), Ok(nested)), Ok(Node_::Ignored));
    assert_eq!(s.state.namespace_builder.current_namespace(), "\\A\\B\\C\\");
    assert_eq!(s.make_namespace_body(missing(), name("declarations", 30), missing()), Ok(Node_::Ignored));
    assert_eq!(s.state.namespace_builder.current_namespace(), "\\A\\");
    assert_eq!(s.make_namespace_body(missing(), missing(), missing()), Ok(Node_::Ignored));
    assert_eq!(s.state.namespace_builder.current_namespace(), "\\");
    assert_eq!(s.state.namespace_builder.stack.len(), 1);
    assert_eq!(s.make_namespace_body(missing(), missing(), missing()), Ok(Node_::Ignored));
    assert_eq!(s.state.namespace_builder.stack.len(), 1);
    assert_eq!(s.make_namespace_declaration_header(missing(), missing()), Ok(Node_::Ignored));
    assert_eq!(s.state.namespace_builder.stack.len(), 2);
    assert_eq!(s.state.namespace_builder.current_namespace(), "\\");
    assert_eq!(
        s.make_namespace_declaration_header(missing(), Err(ParseError::NoPosition)),
        Err(ParseError::NoPosition)
    );
    assert_eq!(s.make_namespace_body(missing(), Err(ParseError::NoPosition), missing()), Err(ParseError::NoPosition));
    assert_eq!(s.make_namespace_empty_body(Err(ParseError::NoPosition)), Err(ParseError::NoPosition));
    assert_eq!(s.state.namespace_builder.stack.len(), 2);
}

#[test]
fn a_namespace_statement_lasts_until_the_next_one() {
    let arena = Bump::new();
    let mut s = session(&arena);
    s.make_namespace_declaration_header(missing(), name("A", 10)).unwrap();
    assert_eq!(s.make_namespace_body(missing(), Ok(Node_::Token(TokenKind::Semicolon)), missing()), Ok(Node_::Ignored));
    assert_eq!(s.state.namespace_builder.current_namespace(), "\\A\\");
    assert_eq!(s.state.namespace_builder.stack.len(), 2);
    let inner = s.make_const_declaration(
        missing(),
        missing(),
        Ok(Node_::Ty(prim(&arena, Tprim::Tint, pos_at(20, 3)))),
        Ok(Node_::List(list(
            &arena,
            vec![Node_::List(list(&arena, vec![Node_::Name("X", pos_at(24, 1)), Node_::IntLiteral("1", pos_at(28, 1))]))],
        ))),
        missing(),
    );
    assert_eq!(inner, Ok(Node_::Ignored));
    s.make_namespace_declaration_header(missing(), name("B", 40)).unwrap();
    assert_eq!(s.make_namespace_empty_body(Ok(Node_::Token(TokenKind::Semicolon))), Ok(Node_::Ignored));
    assert_eq!(s.state.namespace_builder.current_namespace(), "\\B\\");
    assert_eq!(s.state.namespace_builder.stack.len(), 2);
    let declarator = s.make_constant_declarator(name("Y", 54), Ok(Node_::StringLiteral("s", pos_at(58, 3))));
    let declarators = s.make_list(vec![declarator], 0);
    assert_eq!(s.make_const_declaration(missing(), missing(), missing(), declarators, missing()), Ok(Node_::Ignored));
    let consts: Vec<&str> = s.state.decls.consts.iter().map(|c| c.0).collect();
    assert_eq!(consts, vec!["\\A\\X", "\\B\\Y"]);
    assert_eq!(s.state.decls.consts[0].1, prim(&arena, Tprim::Tint, pos_at(20, 3)));
    assert_eq!(s.state.decls.consts[1].1, Ty(Reason::Rwitness(pos_at(58, 3)), &Ty_::Tprim(Tprim::Tstring)));
}

#[test]
fn constants_of_unknown_type_and_other_shapes() {
    let arena = Bump::new();
    let mut s = session(&arena);
    let declarator = s.make_constant_declarator(name("Z", 6), name("OTHER", 10));
    let declarators = s.make_list(vec![declarator], 0);
    assert_eq!(s.make_const_declaration(missing(), missing(), missing(), declarators, missing()), Ok(Node_::Ignored));
    assert_eq!(s.state.decls.consts[0], ("\\Z", name_ty(&arena, "\\OTHER", pos_at(10, 5))));
    let unknown = s.make_constant_declarator(name("U", 6), Ok(Node_::Token(TokenKind::Static)));
    let unknown = s.make_list(vec![unknown], 0);
    assert_eq!(s.make_const_declaration(missing(), missing(), missing(), unknown, missing()), Ok(Node_::Ignored));
    assert_eq!(s.state.decls.consts[1], ("\\U", Ty(Reason::Rnone, &Ty_::Tany)));
    let one = s.make_constant_declarator(name("A", 6), missing());
    let two = s.make_constant_declarator(name("B", 9), missing());
    let both = s.make_list(vec![one, two], 0);
    assert_eq!(s.make_const_declaration(missing(), missing(), missing(), both, missing()), Ok(Node_::Ignored));
    assert_eq!(s.make_const_declaration(missing(), missing(), missing(), missing(), missing()), Ok(Node_::Ignored));
    assert_eq!(s.make_const_declaration(missing(), missing(), missing(), name("A", 6), missing()), Ok(Node_::Ignored));
    assert_eq!(s.state.decls.consts.len(), 2);
    let unnamed = Node_::List(list(&arena, vec![Node_::List(list(&arena, vec![Node_::Token(TokenKind::Static), Node_::Ignored]))]));
    assert_eq!(
        s.make_const_declaration(missing(), missing(), missing(), Ok(unnamed), missing()),
        Err(ParseError::ExpectedName)
    );
    assert_eq!(
        s.make_const_declaration(missing(), missing(), Err(ParseError::NoPosition), Ok(unnamed), missing()),
        Err(ParseError::NoPosition)
    );
}

#[test]
fn a_constant_inside_a_class_goes_to_the_class() {
    let arena = Bump::new();
    let mut s = session(&arena);
    s.state.namespace_builder.push_namespace(Some("N"));
    s.state.classish_name_builder.lexed_name_after_classish_keyword(&arena, "C", pos_at(6, 1), TokenKind::Class);
    let declarator = s.make_constant_declarator(name("X", 20), Ok(Node_::IntLiteral("7", pos_at(24, 1))));
    let declarators = s.make_list(vec![declarator], 0);
    let r = s
        .make_const_declaration(Ok(Node_::Token(TokenKind::Abstract)), missing(), missing(), declarators, missing())
        .unwrap();
    let constant = match r {
        Node_::Const(c) => c,
        other => panic!("no constant: {:?}", other),
    };
    assert_eq!(constant.name, Id(pos_at(20, 1), "X"));
    assert!(constant.abstract_);
    assert_eq!(constant.type_, Ty(Reason::Rwitness(pos_at(24, 1)), &Ty_::Tprim(Tprim::Tint)));
    assert_eq!(constant.expr, Some(Expr(pos_at(24, 1), Expr_::Int("7"))));
    assert!(s.state.decls.consts.is_empty());
    let no_value = s.make_constant_declarator(name("Y", 30), missing());
    let no_value = s.make_list(vec![no_value], 0);
    match s.make_const_declaration(missing(), missing(), Ok(Node_::Ty(prim(&arena, Tprim::Tint, pos_at(27, 3)))), no_value, missing()).unwrap() {
        Node_::Const(c) => {
            assert_eq!(c.expr, None);
            assert!(!c.abstract_);
            assert_eq!(c.type_, prim(&arena, Tprim::Tint, pos_at(27, 3)));
        }
        other => panic!("no constant: {:?}", other),
    }
    let body = s.make_classish_body(missing(), Ok(r), missing());
    assert_eq!(class(&mut s, missing(), name("class", 0), "C", missing(), missing(), body), Ok(Node_::Ignored));
    assert_eq!(last_class(&s).consts, &vec![*constant]);
    assert_eq!(s.state.decls.classes[0].0, "\\N\\C");
}

#[test]
fn imports_are_recorded_in_the_innermost_namespace() {
    let arena = Bump::new();
    let mut s = session(&arena);
    let plain = s.make_namespace_use_clause(missing(), name("Lib\\Thing", 4), missing(), missing());
    assert_eq!(
        plain,
        Ok(Node_::NamespaceUseClause(NamespaceUseClause { id: Id(pos_at(4, 9), "Lib\\Thing"), as_: None }))
    );
    let aliased = s.make_namespace_use_clause(missing(), name("Lib\\Other", 15), Ok(Node_::Token(TokenKind::As)), name("O", 28));
    assert_eq!(
        aliased,
        Ok(Node_::NamespaceUseClause(NamespaceUseClause { id: Id(pos_at(15, 9), "Lib\\Other"), as_: Some("O") }))
    );
    assert_eq!(
        s.make_namespace_use_clause(missing(), name("A", 0), Ok(Node_::Token(TokenKind::As)), missing()),
        Err(ParseError::ExpectedName)
    );
    assert_eq!(s.make_namespace_use_clause(missing(), missing(), missing(), missing()), Err(ParseError::ExpectedName));
    let clauses = s.make_list(vec![plain, name("noise", 0), aliased], 0);
    assert_eq!(s.make_namespace_use_declaration(missing(), missing(), clauses, missing()), Ok(Node_::Ignored));
    assert_eq!(
        s.state.namespace_builder.stack[0].imports,
        &vec![("Thing", "Lib\\Thing"), ("O", "Lib\\Other")]
    );
    assert_eq!(s.node_to_ty(Node_::Name("Thing", pos_at(40, 5))), Ok(name_ty(&arena, "\\Lib\\Thing", pos_at(40, 5))));
    assert_eq!(s.node_to_ty(Node_::Name("O", pos_at(40, 1))), Ok(name_ty(&arena, "\\Lib\\Other", pos_at(40, 1))));
    s.state.namespace_builder.push_namespace(Some("N"));
    let grouped = s.make_namespace_use_clause(missing(), name("Inner", 60), missing(), missing());
    let renamed = s.make_namespace_use_clause(missing(), name("Deep\\Er", 70), Ok(Node_::Token(TokenKind::As)), name("E", 80));
    let group = s.make_list(vec![grouped, renamed], 0);
    assert_eq!(
        s.make_namespace_group_use_declaration(missing(), missing(), name("Pre\\", 50), missing(), group, missing(), missing()),
        Ok(Node_::Ignored)
    );
    assert_eq!(
        s.state.namespace_builder.stack[1].imports,
        &vec![("Inner", "Pre\\Inner"), ("E", "Pre\\Deep\\Er")]
    );
    assert_eq!(s.state.namespace_builder.stack[0].imports.len(), 2);
    assert_eq!(
        s.make_namespace_group_use_declaration(missing(), missing(), missing(), missing(), group, missing(), missing()),
        Err(ParseError::ExpectedName)
    );
    let nothing = Node_::NamespaceUseClause(NamespaceUseClause { id: Id(pos_at(0, 0), ""), as_: None });
    let mixed = Node_::List(list(&arena, vec![plain.unwrap(), nothing, aliased.unwrap()]));
    assert_eq!(
        s.make_namespace_use_declaration(missing(), missing(), Ok(mixed), missing()),
        Err(ParseError::EmptyImportName)
    );
    assert_eq!(s.state.namespace_builder.stack[1].imports.len(), 3);
    assert_eq!(s.state.namespace_builder.stack[1].imports[2], ("Thing", "Lib\\Thing"));
}

#[test]
fn kinds_of_classes() {
    let arena = Bump::new();
    let mut s = session(&arena);
    let empty = s.make_classish_body(missing(), missing(), missing());
    let cases: Vec<(Node, Node, ClassKind, bool)> = vec![
        (missing(), name("class", 0), ClassKind::Cnormal, false),
        (missing(), Ok(Node_::Token(TokenKind::Interface)), ClassKind::Cinterface, false),
        (missing(), Ok(Node_::Token(TokenKind::Trait)), ClassKind::Ctrait, false),
        (Ok(Node_::Token(TokenKind::Abstract)), name("class", 0), ClassKind::Cabstract, false),
        (Ok(Node_::Token(TokenKind::Final)), name("class", 0), ClassKind::Cnormal, true),
        (
            Ok(Node_::List(list(&arena, vec![Node_::Token(TokenKind::Final), Node_::Token(TokenKind::Abstract)]))),
            Ok(Node_::Token(TokenKind::Interface)),
            ClassKind::Cabstract,
            true,
        ),
    ];
    for (modifiers, keyword, kind, final_) in cases {
        assert_eq!(class(&mut s, modifiers, keyword, "K", missing(), missing(), empty), Ok(Node_::Ignored));
        let cls = last_class(&s);
        assert_eq!(cls.kind, kind);
        assert_eq!(cls.final_, final_);
        assert!(!cls.has_xhp_keyword);
    }
    assert_eq!(s.state.decls.classes.len(), 1);
    let xhp = s.make_classish_declaration(
        missing(), missing(), Ok(Node_::Token(TokenKind::XHP)), name("class", 0), Ok(Node_::XhpName(":x", pos_at(6, 2))),
        missing(), missing(), missing(), missing(), missing(), missing(), empty,
    );
    assert_eq!(xhp, Ok(Node_::Ignored));
    assert!(last_class(&s).has_xhp_keyword);
    assert_eq!(s.state.decls.classes[1].0, ":x");
    s.state.file_mode_builder = FileModeBuilder::Resolved(Mode::Mpartial);
    assert_eq!(class(&mut s, missing(), name("class", 0), "P", missing(), missing(), empty), Ok(Node_::Ignored));
    assert_eq!(last_class(&s).mode, Mode::Mpartial);
}

#[test]
fn a_class_sorts_its_members() {
    let arena = Bump::new();
    let mut s = session(&arena);
    s.state.namespace_builder.push_namespace(Some("N"));
    let int = prim(&arena, Tprim::Tint, pos_at(100, 3));
    let uses = s.make_list(vec![name("T1", 110), name("T2", 114)], 0);
    let uses = s.make_trait_use(missing(), uses, missing());
    let more_uses = s.make_trait_use(missing(), name("T3", 118), missing());
    let require_extends = s.make_require_clause(missing(), Ok(Node_::Token(TokenKind::Extends)), name("Base", 130), missing());
    let require_implements = s.make_require_clause(missing(), Ok(Node_::Token(TokenKind::Implements)), name("Iface", 140), missing());
    assert_eq!(
        require_extends,
        Ok(Node_::RequireClause(&RequireClause {
            require_type: Node_::Token(TokenKind::Extends),
            name: Node_::Name("Base", pos_at(130, 4)),
        }))
    );
    let require_other = s.make_require_clause(missing(), missing(), name("Nothing", 150), missing());
    let declarators = Ok(Node_::List(list(
        &arena,
        vec![
            Node_::ListItem(arena.alloc((Node_::Name("$a", pos_at(160, 2)), Node_::Ignored))),
            Node_::ListItem(arena.alloc((Node_::Name("$b", pos_at(164, 2)), Node_::IntLiteral("1", pos_at(169, 1))))),
        ],
    )));
    let late = UserAttribute { name: Id(pos_at(152, 10), "__LateInit"), params: no_exprs(&arena) };
    let instance = s.make_property_declaration(
        Ok(Node_::Attribute(late)), Ok(Node_::Token(TokenKind::Public)), Ok(Node_::Ty(int)), declarators, missing(),
    );
    let static_modifiers = s.make_list(vec![Ok(Node_::Token(TokenKind::Private)), Ok(Node_::Token(TokenKind::Static))], 0);
    let static_declarators = Ok(Node_::List(list(
        &arena,
        vec![Node_::ListItem(arena.alloc((Node_::Name("$c", pos_at(180, 2)), Node_::Ignored)))],
    )));
    let statics = s.make_property_declaration(missing(), static_modifiers, Ok(Node_::Ty(int)), static_declarators, missing());
    let type_constant = s.make_type_const_declaration(
        missing(), missing(), missing(), missing(), name("TC", 190), missing(), missing(), missing(),
        Ok(Node_::Ty(int)), missing(),
    );
    let instance_header = s.make_function_declaration_header(
        missing(), missing(), name("m", 200), missing(), missing(), missing(), missing(), missing(), missing(), missing(),
    );
    let instance_method = s.make_methodish_declaration(missing(), instance_header, missing(), missing());
    let static_header = s.make_function_declaration_header(
        Ok(Node_::Token(TokenKind::Static)), missing(), name("sm", 210), missing(), missing(), missing(),
        missing(), missing(), missing(), missing(),
    );
    let static_method = s.make_methodish_declaration(missing(), static_header, missing(), missing());
    let members = s.make_list(
        vec![
            statics, uses, instance_method, require_implements, instance, type_constant, static_method,
            require_extends, more_uses, require_other, name("noise", 220),
        ],
        0,
    );
    let body = s.make_classish_body(missing(), members, missing());
    let parents = s.make_list(vec![name("Parent", 20), missing()], 0);
    let interfaces = s.make_list(vec![name("I1", 40), name("Vector", 44)], 0);
    assert_eq!(class(&mut s, missing(), name("class", 0), "C", parents, interfaces, body), Ok(Node_::Ignored));
    let cls = last_class(&s);
    assert_eq!(cls.name, Id(pos_at(6, 1), "\\N\\C"));
    assert_eq!(cls.extends, &vec![name_ty(&arena, "\\N\\Parent", pos_at(20, 6))]);
    assert_eq!(
        cls.implements,
        &vec![name_ty(&arena, "\\N\\I1", pos_at(40, 2)), name_ty(&arena, "\\N\\Vector", pos_at(44, 6))]
    );
    assert_eq!(
        cls.uses,
        &vec![
            name_ty(&arena, "\\N\\T1", pos_at(110, 2)),
            name_ty(&arena, "\\N\\T2", pos_at(114, 2)),
            name_ty(&arena, "\\N\\T3", pos_at(118, 2)),
        ]
    );
    assert_eq!(cls.req_extends, &vec![name_ty(&arena, "\\N\\Base", pos_at(130, 4))]);
    assert_eq!(cls.req_implements, &vec![name_ty(&arena, "\\N\\Iface", pos_at(140, 5))]);
    let props: Vec<(&str, bool, bool, Visibility)> =
        cls.props.iter().map(|p| (p.name.1, p.needs_init, p.lateinit, p.visibility)).collect();
    assert_eq!(props, vec![("a", true, true, Visibility::Public), ("b", false, true, Visibility::Public)]);
    assert_eq!(cls.props[0].type_, Some(int));
    let sprops: Vec<(&str, bool, bool, Visibility)> =
        cls.sprops.iter().map(|p| (p.name.1, p.needs_init, p.lateinit, p.visibility)).collect();
    assert_eq!(sprops, vec![("$c", true, false, Visibility::Private)]);
    assert_eq!(cls.typeconsts.len(), 1);
    assert_eq!(cls.typeconsts[0].name, Id(pos_at(190, 2), "TC"));
    let methods: Vec<&str> = cls.methods.iter().map(|m| m.name.1).collect();
    assert_eq!(methods, vec!["m"]);
    assert_eq!(cls.methods[0].visibility, Visibility::Private);
    let static_methods: Vec<&str> = cls.static_methods.iter().map(|m| m.name.1).collect();
    assert_eq!(static_methods, vec!["sm"]);
    assert!(cls.constructor.is_none());
    assert!(cls.consts.is_empty());
}

fn no_exprs<'a>(arena: &'a Bump) -> &'a Vec<Expr<'a>> {
    arena.alloc(Vec::new())
}

#[test]
fn a_class_fails_on_what_is_no_body_or_no_type() {
    let arena = Bump::new();
    let mut s = session(&arena);
    let empty = s.make_classish_body(missing(), missing(), missing());
    assert_eq!(
        class(&mut s, missing(), name("class", 0), "C", missing(), missing(), missing()),
        Err(ParseError::ExpectedClassishBody)
    );
    assert_eq!(
        class(&mut s, missing(), name("class", 0), "C", Ok(Node_::Token(TokenKind::Static)), missing(), empty),
        Err(ParseError::ExpectedName)
    );
    assert_eq!(
        class(&mut s, missing(), name("class", 0), "C", missing(), Ok(Node_::Token(TokenKind::Static)), empty),
        Err(ParseError::ExpectedName)
    );
    let bad_use = s.make_trait_use(missing(), Ok(Node_::Token(TokenKind::Static)), missing());
    let body = s.make_classish_body(missing(), bad_use, missing());
    assert_eq!(class(&mut s, missing(), name("class", 0), "C", missing(), missing(), body), Err(ParseError::ExpectedName));
    let unnamed = s.make_classish_declaration(
        missing(), missing(), missing(), name("class", 0), missing(), missing(), missing(), missing(),
        missing(), missing(), missing(), empty,
    );
    assert_eq!(unnamed, Err(ParseError::ExpectedName));
    let closes_nothing = s.make_classish_declaration(
        missing(), missing(), missing(), name("class", 0), name("C", 6), Ok(Node_::TypeParameters(arena.alloc(Vec::new()))),
        missing(), missing(), missing(), missing(), missing(), empty,
    );
    assert_eq!(closes_nothing, Err(ParseError::NoOpenTypeParameters));
    assert!(s.state.decls.classes.is_empty());
    s.state.type_parameters.push(arena.alloc(vec!["T"]));
    let after_the_scope = s.make_classish_declaration(
        missing(), missing(), Err(ParseError::NoPosition), name("class", 0), name("C", 6),
        Ok(Node_::TypeParameters(arena.alloc(Vec::new()))), missing(), missing(), missing(), missing(), missing(), empty,
    );
    assert_eq!(after_the_scope, Err(ParseError::NoPosition));
    assert!(s.state.type_parameters.is_empty());
    assert!(s.state.decls.classes.is_empty());
}

#[test]
fn property_declarations() {
    let arena = Bump::new();
    let mut s = session(&arena);
    let int = Ok(Node_::Ty(prim(&arena, Tprim::Tint, pos_at(10, 3))));
    let one = Ok(Node_::List(list(
        &arena,
        vec![Node_::ListItem(arena.alloc((Node_::Name("$$x", pos_at(14, 3)), Node_::Operator(pos_at(18, 1), TokenKind::Equal))))],
    )));
    let attributes = Node_::List(list(
        &arena,
        vec![
            Node_::Attribute(UserAttribute { name: Id(pos_at(0, 7), "__Const"), params: no_exprs(&arena) }),
            Node_::Attribute(UserAttribute { name: Id(pos_at(0, 5), "__LSB"), params: no_exprs(&arena) }),
        ],
    ));
    let r = s.make_property_declaration(Ok(attributes), Ok(Node_::Token(TokenKind::Abstract)), int, one, missing()).unwrap();
    match r {
        Node_::Property { decls, is_static } => {
            assert!(!is_static);
            assert_eq!(decls.len(), 1);
            assert_eq!(decls[0].name, Id(pos_at(14, 3), "x"));
            assert!(decls[0].const_ && decls[0].lsb && !decls[0].lateinit);
            assert!(decls[0].abstract_);
            assert!(!decls[0].needs_init);
            assert_eq!(decls[0].visibility, Visibility::Private);
        }
        other => panic!("no property: {:?}", other),
    }
    assert_eq!(s.make_property_declaration(missing(), missing(), int, missing(), missing()), Err(ParseError::ExpectedList));
    assert_eq!(
        s.make_property_declaration(missing(), missing(), int, name("$x", 14), missing()),
        Err(ParseError::ExpectedList)
    );
    let not_pairs = Ok(Node_::List(list(&arena, vec![Node_::Name("$x", pos_at(14, 2))])));
    assert_eq!(s.make_property_declaration(missing(), missing(), int, not_pairs, missing()), Err(ParseError::ExpectedListItem));
    assert_eq!(s.make_property_declaration(missing(), missing(), missing(), one, missing()), Err(ParseError::ExpectedName));
    assert_eq!(s.make_property_declaration(name("x", 0), missing(), int, one, missing()), Err(ParseError::ExpectedAttribute));
    let none = Ok(Node_::List(list(&arena, vec![])));
    assert_eq!(
        s.make_property_declaration(name("x", 0), missing(), missing(), none, missing()),
        Ok(Node_::Property { decls: &vec![], is_static: false })
    );
    assert_eq!(
        s.make_old_attribute_specification(Ok(Node_::Pos(pos_at(0, 2))), name("x", 2), Ok(Node_::Pos(pos_at(3, 2)))),
        Err(ParseError::ExpectedList)
    );
    assert_eq!(
        s.make_old_attribute_specification(missing(), Ok(Node_::List(list(&arena, vec![]))), Ok(Node_::Pos(pos_at(3, 2)))),
        Err(ParseError::NoPosition)
    );
}

#[test]
fn a_second_declaration_takes_the_place_of_the_first() {
    let arena = Bump::new();
    let mut s = session(&arena);
    let empty = s.make_classish_body(missing(), missing(), missing());
    assert_eq!(class(&mut s, missing(), name("class", 0), "A", missing(), missing(), empty), Ok(Node_::Ignored));
    assert_eq!(class(&mut s, missing(), name("class", 0), "B", missing(), missing(), empty), Ok(Node_::Ignored));
    assert_eq!(
        class(&mut s, missing(), Ok(Node_::Token(TokenKind::Trait)), "A", missing(), missing(), empty),
        Ok(Node_::Ignored)
    );
    let names: Vec<&str> = s.state.decls.classes.iter().map(|c| c.0).collect();
    assert_eq!(names, vec!["\\A", "\\B"]);
    assert_eq!(s.state.decls.classes[0].1.kind, ClassKind::Ctrait);
    let enum_a = s.make_enum_declaration(
        missing(), missing(), name("A", 6), missing(), Ok(Node_::Ty(prim(&arena, Tprim::Tint, pos_at(9, 3)))),
        missing(), missing(), missing(), missing(),
    );
    assert_eq!(enum_a, Ok(Node_::Ignored));
    assert_eq!(s.state.decls.classes.len(), 2);
    assert_eq!(s.state.decls.classes[0].1.kind, ClassKind::Cenum);
}

#[test]
fn a_session_may_reject_a_second_declaration() {
    let arena = Bump::new();
    let mut s = session_with(&arena, DuplicatePolicy::Reject);
    let empty = s.make_classish_body(missing(), missing(), missing());
    assert_eq!(class(&mut s, missing(), name("class", 0), "A", missing(), missing(), empty), Ok(Node_::Ignored));
    s.state.classish_name_builder.lexed_name_after_classish_keyword(&arena, "A", pos_at(6, 1), TokenKind::Class);
    assert_eq!(
        class(&mut s, missing(), Ok(Node_::Token(TokenKind::Trait)), "A", missing(), missing(), empty),
        Err(ParseError::DuplicateDeclaration)
    );
    assert_eq!(s.state.decls.classes.len(), 1);
    assert_eq!(s.state.decls.classes[0].1.kind, ClassKind::Cnormal);
    assert!(s.state.classish_name_builder.get_current_classish_name().is_some());
    let header = s.make_function_declaration_header(
        missing(), missing(), name("f", 9), missing(), missing(), missing(), missing(), missing(), missing(), missing(),
    );
    assert_eq!(s.make_function_declaration(missing(), header, missing()), Ok(Node_::Ignored));
    assert_eq!(s.make_function_declaration(missing(), header, missing()), Err(ParseError::DuplicateDeclaration));
    assert_eq!(s.state.decls.funs.len(), 1);
    let int = Ok(Node_::Ty(prim(&arena, Tprim::Tint, pos_at(9, 3))));
    let alias = s.make_alias_declaration(missing(), missing(), name("T", 5), missing(), missing(), missing(), int, missing());
    assert_eq!(alias, Ok(Node_::Ignored));
    let again = s.make_alias_declaration(missing(), missing(), name("T", 5), missing(), missing(), missing(), int, missing());
    assert_eq!(again, Err(ParseError::DuplicateDeclaration));
    s.state.classish_name_builder.parsed_classish_declaration();
    let declarator = s.make_constant_declarator(name("X", 6), missing());
    let declarators = s.make_list(vec![declarator], 0);
    assert_eq!(s.make_const_declaration(missing(), missing(), int, declarators, missing()), Ok(Node_::Ignored));
    assert_eq!(
        s.make_const_declaration(missing(), missing(), int, declarators, missing()),
        Err(ParseError::DuplicateDeclaration)
    );
    let fresh = empty_decls();
    assert!(fresh.classes.is_empty() && fresh.funs.is_empty() && fresh.typedefs.is_empty() && fresh.consts.is_empty());
    let mut numbers = vec![1u8];
    extend_with(&mut numbers, &vec![2, 3]);
    extend_with(&mut numbers, &vec![]);
    assert_eq!(numbers, vec![1, 2, 3]);
    let constraint = Node_::TypeConstraint(arena.alloc((ConstraintKind::ConstraintSuper, Node_::Ty(prim(&arena, Tprim::Tint, pos_at(9, 3))))));
    assert_eq!(s.constraint_ty(constraint), Ok(Some(prim(&arena, Tprim::Tint, pos_at(9, 3)))));
    assert_eq!(s.constraint_ty(Node_::Ignored), Ok(None));
    assert_eq!(s.constraint_ty_if_any(constraint), Some(prim(&arena, Tprim::Tint, pos_at(9, 3))));
    let unreadable = Node_::TypeConstraint(arena.alloc((ConstraintKind::ConstraintAs, Node_::Ignored)));
    assert_eq!(s.constraint_ty(unreadable), Err(ParseError::ExpectedName));
    assert_eq!(s.constraint_ty_if_any(unreadable), None);
}
