use bumpalo::Bump;
use shallow_decl::aast::{Expr, Expr_, ReifyKind, Tprim, UserAttribute, Visibility};
use shallow_decl::ast_defs::{Bop, ClassKind, ConstraintKind, FunKind, Id, ShapeFieldName, Variance};
use shallow_decl::decls::DuplicatePolicy;
use shallow_decl::error::ParseError;
use shallow_decl::node::{Node, Node_};
use shallow_decl::pos::{Pos, Prefix, RelativePath};
use shallow_decl::shallow_decl_defs::{Mode, ShallowClass};
use shallow_decl::state::DirectDeclSmartConstructors;
use shallow_decl::token::Token;
use shallow_decl::token_kind::TokenKind;
use shallow_decl::typing_defs::{
    EnumType, FunArity, FunParamFlags, FunType, FunTypeFlags, ParamMutability, Reactivity,
    Reason, ShapeFieldType, ShapeKind, Ty, Ty_,
};

fn pos_at(start: usize, len: usize) -> Pos<'static> {
    Pos::from_lnum_bol_cnum(
        RelativePath::make(Prefix::Root, "a.php"),
        (1, 0, start),
        (1, 0, start + len),
    )
}

fn span(start: usize, end: usize) -> Pos<'static> {
    pos_at(start, end - start)
}

fn session_on<'a>(
    arena: &'a Bump,
    source: &'a [u8],
    policy: DuplicatePolicy,
) -> DirectDeclSmartConstructors<'a> {
    let auto: &'a Vec<(&'a str, &'a str)> =
        arena.alloc(vec![("Vector", "HH\\Vector"), ("Awaitable", "HH\\Awaitable")]);
    DirectDeclSmartConstructors::new(
        source,
        RelativePath::make(Prefix::Root, "a.php"),
        arena,
        auto,
        policy,
    )
}

fn session<'a>(arena: &'a Bump) -> DirectDeclSmartConstructors<'a> {
    session_on(arena, b"", DuplicatePolicy::Overwrite)
}

fn tok<'a>(arena: &'a Bump, kind: TokenKind, text: &'a str, start: usize) -> Token<'a> {
    Token { kind, text, pos: pos_at(start, text.len()), trailing: arena.alloc(Vec::new()), literal: None }
}

fn string_tok<'a>(arena: &'a Bump, content: &'a str, start: usize) -> Token<'a> {
    Token {
        kind: TokenKind::SingleQuotedStringLiteral,
        text: "'?'",
        pos: pos_at(start, content.len() + 2),
        trailing: arena.alloc(Vec::new()),
        literal: Some(content),
    }
}

fn list<'a>(arena: &'a Bump, items: Vec<Node_<'a>>) -> &'a Vec<Node_<'a>> {
    arena.alloc(items)
}

fn missing<'a>() -> Node<'a> {
    Ok(Node_::Ignored)
}

fn no_tys<'a>(arena: &'a Bump) -> &'a Vec<Ty<'a>> {
    arena.alloc(Vec::new())
}

fn name_ty<'a>(arena: &'a Bump, name: &'a str, p: Pos<'a>) -> Ty<'a> {
    Ty(Reason::Rhint(p), arena.alloc(Ty_::Tapply(Id(p, name), no_tys(arena))))
}

fn prim<'a>(arena: &'a Bump, tprim: Tprim, p: Pos<'a>) -> Ty<'a> {
    Ty(Reason::Rhint(p), arena.alloc(Ty_::Tprim(tprim)))
}

fn any() -> Ty<'static> {
    Ty(Reason::Rnone, &Ty_::Tany)
}

fn fun_type_of<'a>(ty: Ty<'a>) -> &'a FunType<'a> {
    match *ty.1 {
        Ty_::Tfun(ft) => ft,
        other => panic!("no function type: {:?}", other),
    }
}

fn only_class<'a>(s: &DirectDeclSmartConstructors<'a>) -> (&'a str, ShallowClass<'a>) {
    assert_eq!(s.state.decls.classes.len(), 1);
    s.state.decls.classes[0]
}

// namespace N; class C<T> { public function f(T $x): T { return $x; } }
#[test]
fn a_generic_class_in_a_namespace() {
    let arena = Bump::new();
    let mut s = session(&arena);
    let keyword = s.make_token(tok(&arena, TokenKind::Other, "namespace", 0));
    let n = s.make_token(tok(&arena, TokenKind::Name, "N", 10));
    assert_eq!(s.make_namespace_declaration_header(keyword, n), Ok(Node_::Ignored));
    let semicolon = s.make_token(tok(&arena, TokenKind::Semicolon, ";", 11));
    assert_eq!(s.make_namespace_empty_body(semicolon), Ok(Node_::Ignored));
    assert_eq!(s.state.namespace_builder.current_namespace(), "\\N\\");

    let class_keyword = s.make_token(tok(&arena, TokenKind::Class, "class", 13));
    let c = s.make_token(tok(&arena, TokenKind::Name, "C", 19));
    let lt = s.make_token(tok(&arena, TokenKind::LessThan, "<", 20));
    let t = s.make_token(tok(&arena, TokenKind::Name, "T", 21));
    let tparam = s.make_type_parameter(missing(), missing(), missing(), t, missing());
    let tparam = s.make_list_item(tparam, missing());
    let tparam_list = s.make_list(vec![tparam], 21);
    let gt = s.make_token(tok(&arena, TokenKind::GreaterThan, ">", 22));
    let tparams = s.make_type_parameters(lt, tparam_list, gt);
    assert_eq!(s.state.type_parameters.len(), 1);
    assert!(s.is_type_param_in_scope("T"));

    let public = s.make_token(tok(&arena, TokenKind::Public, "public", 26));
    let modifiers = s.make_list(vec![public], 26);
    let function = s.make_token(tok(&arena, TokenKind::Other, "function", 33));
    let f = s.make_token(tok(&arena, TokenKind::Name, "f", 42));
    let left = s.make_token(tok(&arena, TokenKind::LeftParen, "(", 43));
    let hint = s.make_token(tok(&arena, TokenKind::Name, "T", 44));
    let hint = s.make_simple_type_specifier(hint);
    let x = s.make_token(tok(&arena, TokenKind::Variable, "$x", 46));
    let param = s.make_parameter_declaration(missing(), missing(), missing(), hint, x, missing());
    let param = s.make_list_item(param, missing());
    let params = s.make_list(vec![param], 44);
    let right = s.make_token(tok(&arena, TokenKind::RightParen, ")", 48));
    let colon = s.make_token(tok(&arena, TokenKind::Other, ":", 49));
    let ret = s.make_token(tok(&arena, TokenKind::Name, "T", 51));
    let ret = s.make_simple_type_specifier(ret);
    let header = s.make_function_declaration_header(
        modifiers, function, f, missing(), left, params, right, colon, ret, missing(),
    );
    let returned = s.make_token(tok(&arena, TokenKind::Variable, "$x", 62));
    let statement = s.flatten(vec![missing(), returned, missing()]);
    let body = s.flatten(vec![missing(), statement, missing()]);
    assert_eq!(body, Ok(Node_::Ignored));
    let method = s.make_methodish_declaration(missing(), header, body, missing());
    let members = s.make_list(vec![method], 26);
    let class_body = s.make_classish_body(missing(), members, missing());
    let declared = s.make_classish_declaration(
        missing(), missing(), missing(), class_keyword, c, tparams, missing(), missing(),
        missing(), missing(), missing(), class_body,
    );
    assert_eq!(declared, Ok(Node_::Ignored));

    assert!(s.state.type_parameters.is_empty());
    assert_eq!(s.state.namespace_builder.stack.len(), 2);
    assert!(s.state.classish_name_builder.get_current_classish_name().is_none());
    assert!(s.state.decls.funs.is_empty());
    assert!(s.state.decls.typedefs.is_empty());
    assert!(s.state.decls.consts.is_empty());
    let (name, cls) = only_class(&s);
    assert_eq!(name, "\\N\\C");
    assert_eq!(cls.name, Id(pos_at(19, 1), "\\N\\C"));
    assert_eq!(cls.kind, ClassKind::Cnormal);
    assert_eq!(cls.mode, Mode::Mstrict);
    assert!(!cls.final_ && !cls.has_xhp_keyword && !cls.is_xhp);
    assert_eq!(cls.tparams.len(), 1);
    assert_eq!(cls.tparams[0].name, Id(pos_at(21, 1), "T"));
    assert_eq!(cls.tparams[0].variance, Variance::Invariant);
    assert_eq!(cls.tparams[0].reified, ReifyKind::Erased);
    assert!(cls.tparams[0].constraints.is_empty());
    assert!(cls.extends.is_empty() && cls.implements.is_empty() && cls.uses.is_empty());
    assert!(cls.props.is_empty() && cls.sprops.is_empty() && cls.consts.is_empty());
    assert!(cls.static_methods.is_empty());
    assert!(cls.constructor.is_none() && cls.enum_type.is_none());
    assert_eq!(cls.methods.len(), 1);
    let method = cls.methods[0];
    assert_eq!(method.name, Id(pos_at(42, 1), "f"));
    assert_eq!(method.visibility, Visibility::Public);
    assert!(!method.abstract_ && !method.final_);
    assert_eq!(method.type_.0, Reason::Rwitness(pos_at(42, 1)));
    let ft = fun_type_of(method.type_);
    assert_eq!(ft.arity, FunArity::Fstandard);
    assert!(ft.tparams.is_empty());
    assert_eq!(ft.params.len(), 1);
    assert_eq!(ft.params[0].name, Some("$x"));
    assert_eq!(ft.params[0].pos, pos_at(46, 2));
    assert_eq!(ft.params[0].type_.type_, Ty(Reason::Rhint(pos_at(44, 1)), &Ty_::Tgeneric("T")));
    assert_eq!(ft.ret.type_, Ty(Reason::Rhint(pos_at(51, 1)), &Ty_::Tgeneric("T")));
    assert!(!ft.ret.enforced);
    assert_eq!(ft.reactive, Reactivity::Nonreactive);
    assert!(!ft.flags.generator && !ft.flags.is_async && !ft.flags.is_coroutine);
}

// enum Color: int { RED = 1; }
#[test]
fn an_enum_becomes_a_class() {
    let arena = Bump::new();
    let mut s = session(&arena);
    let color = s.make_token(tok(&arena, TokenKind::Name, "Color", 5));
    let int = s.make_token(tok(&arena, TokenKind::Int, "int", 12));
    let red = s.make_token(tok(&arena, TokenKind::Name, "RED", 18));
    let equal = s.make_token(tok(&arena, TokenKind::Equal, "=", 22));
    let one = s.make_token(tok(&arena, TokenKind::DecimalLiteral, "1", 24));
    let one = s.make_literal_expression(one);
    let semicolon = s.make_token(tok(&arena, TokenKind::Semicolon, ";", 25));
    let case = s.make_enumerator(red, equal, one, semicolon);
    let cases = s.make_list(vec![case], 18);
    let declared = s.make_enum_declaration(
        missing(), missing(), color, missing(), int, missing(), missing(), cases, missing(),
    );
    assert_eq!(declared, Ok(Node_::Ignored));
    let (name, cls) = only_class(&s);
    assert_eq!(name, "\\Color");
    assert_eq!(cls.name, Id(pos_at(5, 5), "\\Color"));
    assert_eq!(cls.kind, ClassKind::Cenum);
    assert!(!cls.final_);
    assert!(cls.tparams.is_empty());
    let itself = name_ty(&arena, "\\Color", pos_at(5, 5));
    let args = vec![itself];
    let ancestor = Ty(
        Reason::Rhint(pos_at(5, 5)),
        arena.alloc(Ty_::Tapply(Id(pos_at(5, 5), "\\HH\\BuiltinEnum"), arena.alloc(args))),
    );
    assert_eq!(cls.extends, &vec![ancestor]);
    assert_eq!(cls.consts.len(), 1);
    let red = cls.consts[0];
    assert_eq!(red.name, Id(pos_at(18, 3), "RED"));
    assert!(!red.abstract_);
    assert_eq!(red.type_, Ty(Reason::Rwitness(pos_at(24, 1)), &Ty_::Tprim(Tprim::Tint)));
    assert_eq!(red.expr, Some(Expr(pos_at(24, 1), Expr_::Int("1"))));
    assert_eq!(
        cls.enum_type,
        Some(EnumType { base: prim(&arena, Tprim::Tint, pos_at(12, 3)), constraint: None })
    );
    assert!(cls.methods.is_empty() && cls.props.is_empty() && cls.user_attributes.is_empty());
    assert!(cls.implements.is_empty() && cls.uses.is_empty() && cls.typeconsts.is_empty());
}

#[test]
fn an_enum_with_a_constraint_and_bad_cases() {
    let arena = Bump::new();
    let mut s = session(&arena);
    let name = Node_::Name("E", pos_at(5, 1));
    let base = Node_::Ty(prim(&arena, Tprim::Tstring, pos_at(8, 6)));
    let constraint = Node_::TypeConstraint(
        arena.alloc((ConstraintKind::ConstraintAs, Node_::Ty(prim(&arena, Tprim::Tarraykey, pos_at(18, 8))))),
    );
    let r = s.make_enum_declaration(
        missing(), missing(), Ok(name), missing(), Ok(base), Ok(constraint), missing(), missing(), missing(),
    );
    assert_eq!(r, Ok(Node_::Ignored));
    let (_, cls) = only_class(&s);
    assert!(cls.consts.is_empty());
    assert_eq!(
        cls.enum_type,
        Some(EnumType {
            base: prim(&arena, Tprim::Tstring, pos_at(8, 6)),
            constraint: Some(prim(&arena, Tprim::Tarraykey, pos_at(18, 8))),
        })
    );
    let bad = s.make_enum_declaration(
        missing(), missing(), Ok(name), missing(), Ok(base), missing(), missing(), Ok(name), missing(),
    );
    assert_eq!(bad, Err(ParseError::ExpectedEnumCase));
    let no_base = s.make_enum_declaration(
        missing(), missing(), Ok(name), missing(), missing(), missing(), missing(), missing(), missing(),
    );
    assert_eq!(no_base, Err(ParseError::ExpectedName));
    assert_eq!(s.state.decls.classes.len(), 1);
}

fn field<'a>(
    s: &mut DirectDeclSmartConstructors<'a>,
    arena: &'a Bump,
    optional: bool,
    name: &'a str,
    start: usize,
    ty: Node_<'a>,
) -> Node<'a> {
    let question = if optional { Ok(Node_::Pos(pos_at(start - 1, 1))) } else { missing() };
    let name = s.make_token(string_tok(arena, name, start));
    s.make_field_specifier(question, name, missing(), Ok(ty))
}

// shape('a' => int, ?'b' => string)
#[test]
fn a_closed_shape_holds_its_fields_in_order() {
    let arena = Bump::new();
    let mut s = session(&arena);
    let int = Node_::Ty(prim(&arena, Tprim::Tint, pos_at(13, 3)));
    let string = Node_::Ty(prim(&arena, Tprim::Tstring, pos_at(26, 6)));
    let a = field(&mut s, &arena, false, "a", 6, int);
    let b = field(&mut s, &arena, true, "b", 19, string);
    let fields = s.make_list(vec![a, b], 6);
    let shape = s.make_token(tok(&arena, TokenKind::Shape, "shape", 0));
    let close = s.make_token(tok(&arena, TokenKind::RightParen, ")", 32));
    let r = s.make_shape_type_specifier(shape, missing(), fields, missing(), close).unwrap();
    let expected_fields = vec![
        (
            ShapeFieldName::SFlitStr((pos_at(6, 3), "a")),
            ShapeFieldType { optional: false, ty: prim(&arena, Tprim::Tint, pos_at(13, 3)) },
        ),
        (
            ShapeFieldName::SFlitStr((pos_at(19, 3), "b")),
            ShapeFieldType { optional: true, ty: prim(&arena, Tprim::Tstring, pos_at(26, 6)) },
        ),
    ];
    assert_eq!(
        r,
        Node_::Ty(Ty(Reason::Rhint(span(0, 33)), &Ty_::Tshape(ShapeKind::ClosedShape, &expected_fields)))
    );
}

// shape('a' => int, ...)
#[test]
fn an_open_shape_is_marked_open() {
    let arena = Bump::new();
    let mut s = session(&arena);
    let int = Node_::Ty(prim(&arena, Tprim::Tint, pos_at(13, 3)));
    let a = field(&mut s, &arena, false, "a", 6, int);
    let shape = s.make_token(tok(&arena, TokenKind::Shape, "shape", 0));
    let dots = s.make_token(tok(&arena, TokenKind::DotDotDot, "...", 18));
    let close = s.make_token(tok(&arena, TokenKind::RightParen, ")", 21));
    let r = s.make_shape_type_specifier(shape, missing(), a, dots, close).unwrap();
    match r {
        Node_::Ty(Ty(_, Ty_::Tshape(kind, fields))) => {
            assert_eq!(*kind, ShapeKind::OpenShape);
            assert_eq!(fields.len(), 1);
        }
        other => panic!("no shape: {:?}", other),
    }
    let empty = s.make_shape_type_specifier(shape, missing(), missing(), missing(), close).unwrap();
    assert_eq!(
        empty,
        Node_::Ty(Ty(Reason::Rhint(span(0, 22)), &Ty_::Tshape(ShapeKind::ClosedShape, &vec![])))
    );
}

#[test]
fn a_repeated_shape_field_keeps_its_place() {
    let arena = Bump::new();
    let mut s = session(&arena);
    let int = Node_::Ty(prim(&arena, Tprim::Tint, pos_at(13, 3)));
    let string = Node_::Ty(prim(&arena, Tprim::Tstring, pos_at(26, 6)));
    let a = field(&mut s, &arena, false, "a", 6, int);
    let b = field(&mut s, &arena, false, "b", 19, int);
    let again = field(&mut s, &arena, true, "a", 40, string);
    let fields = s.make_list(vec![a, b, again], 6);
    let shape = Ok(Node_::Pos(pos_at(0, 5)));
    let close = Ok(Node_::Pos(pos_at(50, 1)));
    match s.make_shape_type_specifier(shape, missing(), fields, missing(), close).unwrap() {
        Node_::Ty(Ty(_, Ty_::Tshape(_, fields))) => {
            assert_eq!(fields.len(), 2);
            assert_eq!(fields[0].0, ShapeFieldName::SFlitStr((pos_at(40, 3), "a")));
            assert!(fields[0].1.optional);
            assert_eq!(fields[0].1.ty, prim(&arena, Tprim::Tstring, pos_at(26, 6)));
            assert_eq!(fields[1].0, ShapeFieldName::SFlitStr((pos_at(19, 3), "b")));
        }
        other => panic!("no shape: {:?}", other),
    }
    let not_a_field = Ok(Node_::Name("x", pos_at(6, 1)));
    assert_eq!(
        s.make_shape_type_specifier(shape, missing(), not_a_field, missing(), close),
        Err(ParseError::ExpectedShapeFieldSpecifier)
    );
    assert_eq!(
        s.make_field_specifier(missing(), Ok(Node_::Name("x", pos_at(6, 1))), missing(), Ok(int)),
        Err(ParseError::ExpectedShapeKey)
    );
}

// shape(1 => int, C::KEY => int, self::KEY => int)
#[test]
fn shape_fields_are_named_by_integers_and_class_constants_too() {
    let arena = Bump::new();
    let mut s = session(&arena);
    let int = prim(&arena, Tprim::Tint, pos_at(13, 3));
    let one = Ok(Node_::IntLiteral("1", pos_at(6, 1)));
    assert_eq!(
        s.make_field_specifier(missing(), one, missing(), Ok(Node_::Ty(int))),
        Ok(Node_::ShapeFieldSpecifier {
            name: ShapeFieldName::SFlitInt((pos_at(6, 1), "1")),
            type_: ShapeFieldType { optional: false, ty: int },
        })
    );
    let class = s.make_token(tok(&arena, TokenKind::Name, "C", 6));
    let key = s.make_token(tok(&arena, TokenKind::Name, "KEY", 9));
    let constant = s.make_scope_resolution_expression(class, missing(), key);
    let question = s.make_token(tok(&arena, TokenKind::Question, "?", 5));
    assert_eq!(
        s.make_field_specifier(question, constant, missing(), Ok(Node_::Ty(int))),
        Ok(Node_::ShapeFieldSpecifier {
            name: ShapeFieldName::SFclassConst(Id(pos_at(6, 1), "\\C"), (pos_at(9, 3), "KEY")),
            type_: ShapeFieldType { optional: true, ty: int },
        })
    );
    let itself = s.make_token(tok(&arena, TokenKind::Name, "self", 6));
    let key = s.make_token(tok(&arena, TokenKind::Name, "KEY", 12));
    let constant = s.make_scope_resolution_expression(itself, missing(), key);
    assert_eq!(
        s.make_field_specifier(missing(), constant, missing(), Ok(Node_::Ty(int))),
        Ok(Node_::ShapeFieldSpecifier {
            name: ShapeFieldName::SFclassConst(Id(pos_at(6, 4), "self"), (pos_at(12, 3), "KEY")),
            type_: ShapeFieldType { optional: false, ty: int },
        })
    );
    let failed = s.make_field_specifier(missing(), Err(ParseError::NoPosition), missing(), missing());
    assert_eq!(failed, Err(ParseError::NoPosition));
}

// <<SomeCustom>> function f(): void {}
#[test]
fn an_unknown_attribute_on_a_function_is_kept_and_sets_no_flag() {
    let arena = Bump::new();
    let mut s = session(&arena);
    let custom = attribute(&mut s, &arena, "SomeCustom", 2, missing());
    let other = attribute(&mut s, &arena, "Other", 14, missing());
    let attributes = attribute_list(&mut s, &arena, vec![custom, other], 19);
    let name = Node_::Name("f", pos_at(31, 1));
    let void = Ok(Node_::Ty(prim(&arena, Tprim::Tvoid, pos_at(36, 4))));
    let header = simple_header(&mut s, &arena, vec![], name, missing(), missing(), void);
    assert_eq!(s.make_function_declaration(attributes, header, missing()), Ok(Node_::Ignored));
    assert_eq!(s.state.decls.funs.len(), 1);
    let (key, fun) = s.state.decls.funs[0];
    assert_eq!(key, "\\f");
    assert_eq!(fun.deprecated, None);
    assert_eq!(
        fun.user_attributes,
        &vec![
            UserAttribute { name: Id(pos_at(14, 5), "\\Other"), params: &vec![] },
            UserAttribute { name: Id(pos_at(2, 10), "\\SomeCustom"), params: &vec![] },
        ]
    );
    let ft = fun_type_of(fun.type_);
    assert_eq!(ft.reactive, Reactivity::Nonreactive);
    assert!(!ft.flags.generator && !ft.flags.is_async && !ft.flags.is_coroutine);
    assert!(!ft.flags.returns_mutable && !ft.flags.returns_void_to_rx);
    assert_eq!(ft.flags.mutability, None);
}

fn attribute<'a>(
    s: &mut DirectDeclSmartConstructors<'a>,
    arena: &'a Bump,
    name: &'a str,
    start: usize,
    args: Node<'a>,
) -> Node<'a> {
    let name = s.make_token(tok(arena, TokenKind::Name, name, start));
    s.make_constructor_call(name, missing(), args, missing())
}

fn attribute_list<'a>(
    s: &mut DirectDeclSmartConstructors<'a>,
    arena: &'a Bump,
    attributes: Vec<Node<'a>>,
    end: usize,
) -> Node<'a> {
    let open = s.make_token(tok(arena, TokenKind::LessThanLessThan, "<<", 0));
    let close = s.make_token(tok(arena, TokenKind::GreaterThanGreaterThan, ">>", end));
    let attributes = s.make_list(attributes, 2);
    s.make_old_attribute_specification(open, attributes, close)
}

fn simple_header<'a>(
    s: &mut DirectDeclSmartConstructors<'a>,
    arena: &'a Bump,
    modifiers: Vec<TokenKind>,
    name: Node_<'a>,
    type_params: Node<'a>,
    params: Node<'a>,
    ret: Node<'a>,
) -> Node<'a> {
    let modifiers: Vec<Node> = modifiers.into_iter().map(|k| Ok(Node_::Token(k))).collect();
    let modifiers = s.make_list(modifiers, 0);
    let _ = arena;
    s.make_function_declaration_header(
        modifiers, missing(), Ok(name), type_params, missing(), params, missing(), missing(), ret, missing(),
    )
}

// <<__Deprecated('x' . 'y')>> function foo(): void {}
#[test]
fn a_deprecated_function_carries_its_message() {
    let arena = Bump::new();
    let mut s = session(&arena);
    let x = s.make_token(string_tok(&arena, "x", 15));
    let dot = s.make_token(tok(&arena, TokenKind::Dot, ".", 19));
    let y = s.make_token(string_tok(&arena, "y", 21));
    let message = s.make_binary_expression(x, dot, y);
    let x_expr = Expr(pos_at(15, 3), Expr_::String("x"));
    let y_expr = Expr(pos_at(21, 3), Expr_::String("y"));
    assert_eq!(
        message,
        Ok(Node_::Expr(&Expr(span(15, 24), Expr_::Binop(Bop::Dot, &x_expr, &y_expr))))
    );
    let deprecated = attribute(&mut s, &arena, "__Deprecated", 2, message);
    let attributes = attribute_list(&mut s, &arena, vec![deprecated], 25);
    let parsed = attributes.unwrap().as_attributes(&arena).unwrap();
    assert_eq!(parsed.deprecated, Some("xy"));
    assert!(!parsed.late_init && !parsed.const_ && !parsed.lsb && !parsed.memoizelsb);
    assert!(!parsed.override_ && !parsed.at_most_rx_as_func && !parsed.returns_mutable);
    assert_eq!(parsed.reactivity, Reactivity::Nonreactive);
    let name = Node_::Name("foo", pos_at(37, 3));
    let void = Ok(Node_::Ty(prim(&arena, Tprim::Tvoid, pos_at(44, 4))));
    let header = simple_header(&mut s, &arena, vec![], name, missing(), missing(), void);
    assert_eq!(s.make_function_declaration(attributes, header, missing()), Ok(Node_::Ignored));
    assert_eq!(s.state.decls.funs.len(), 1);
    let (key, fun) = s.state.decls.funs[0];
    assert_eq!(key, "\\foo");
    assert_eq!(fun.pos, pos_at(37, 3));
    assert_eq!(fun.deprecated, Some("The function foo is deprecated: xy"));
    let ft = fun_type_of(fun.type_);
    assert_eq!(ft.ret.type_, prim(&arena, Tprim::Tvoid, pos_at(44, 4)));
    assert!(ft.params.is_empty());
}

#[test]
fn deprecation_messages() {
    let arena = Bump::new();
    let mut s = session(&arena);
    let plain = Node_::StringLiteral("use g", pos_at(15, 7));
    let a = attribute(&mut s, &arena, "__Deprecated", 2, Ok(plain)).unwrap();
    assert_eq!(a.as_attributes(&arena).unwrap().deprecated, Some("use g"));
    let none = attribute(&mut s, &arena, "__Deprecated", 2, missing()).unwrap();
    assert_eq!(none.as_attributes(&arena).unwrap().deprecated, None);
    let number = attribute(&mut s, &arena, "__Deprecated", 2, Ok(Node_::IntLiteral("1", pos_at(15, 1)))).unwrap();
    assert_eq!(number.as_attributes(&arena).unwrap().deprecated, None);
    let x = Expr(pos_at(0, 1), Expr_::String("x"));
    let one = Expr(pos_at(0, 1), Expr_::Int("1"));
    let y = Expr(pos_at(0, 1), Expr_::String("y"));
    let inner = Expr(pos_at(0, 1), Expr_::Binop(Bop::Dot, &one, &y));
    let nested = Expr(pos_at(0, 1), Expr_::Binop(Bop::Dot, &x, &inner));
    let with_number = attribute(&mut s, &arena, "__Deprecated", 2, Ok(Node_::Expr(&nested))).unwrap();
    assert_eq!(with_number.as_attributes(&arena).unwrap().deprecated, Some("xy"));
    let sum = Expr(pos_at(0, 1), Expr_::Binop(Bop::Plus, &x, &y));
    let not_a_concatenation = attribute(&mut s, &arena, "__Deprecated", 2, Ok(Node_::Expr(&sum))).unwrap();
    assert_eq!(not_a_concatenation.as_attributes(&arena).unwrap().deprecated, Some(""));
    let mixed = Expr(pos_at(0, 1), Expr_::Binop(Bop::Dot, &x, &sum));
    let partly = attribute(&mut s, &arena, "__Deprecated", 2, Ok(Node_::Expr(&mixed))).unwrap();
    assert_eq!(partly.as_attributes(&arena).unwrap().deprecated, Some("x"));
    assert_eq!(s.deprecation_notice("method", "m", Some("gone")), Some("The method m is deprecated: gone"));
    assert_eq!(s.deprecation_notice("method", "m", None), None);
}

fn class_with_attributes<'a>(
    s: &mut DirectDeclSmartConstructors<'a>,
    attributes: Node<'a>,
    name: &'a str,
) -> Node<'a> {
    let body = s.make_classish_body(missing(), missing(), missing());
    s.make_classish_declaration(
        attributes, missing(), missing(), Ok(Node_::Name("class", pos_at(30, 5))),
        Ok(Node_::Name(name, pos_at(36, 1))), missing(), missing(), missing(), missing(),
        missing(), missing(), body,
    )
}

// <<SomeCustom>> class C {}
#[test]
fn an_unknown_attribute_is_kept_and_sets_no_flag() {
    let arena = Bump::new();
    let mut s = session(&arena);
    let custom = attribute(&mut s, &arena, "SomeCustom", 2, missing());
    let attributes = attribute_list(&mut s, &arena, vec![custom], 12);
    let parsed = attributes.unwrap().as_attributes(&arena).unwrap();
    assert_eq!(parsed.deprecated, None);
    assert_eq!(parsed.reactivity, Reactivity::Nonreactive);
    assert_eq!(parsed.param_mutability, None);
    assert_eq!(parsed.reifiable, None);
    assert_eq!(parsed.enforceable, None);
    assert!(!parsed.returns_mutable && !parsed.late_init && !parsed.const_ && !parsed.lsb);
    assert!(!parsed.memoizelsb && !parsed.override_ && !parsed.at_most_rx_as_func);
    assert!(!parsed.returns_void_to_rx);
    assert_eq!(class_with_attributes(&mut s, attributes, "C"), Ok(Node_::Ignored));
    let (_, cls) = only_class(&s);
    assert_eq!(
        cls.user_attributes,
        &vec![UserAttribute { name: Id(pos_at(2, 10), "\\SomeCustom"), params: &vec![] }]
    );
}

#[test]
fn attributes_of_a_class_come_in_reverse_order() {
    let arena = Bump::new();
    let mut s = session(&arena);
    let first = attribute(&mut s, &arena, "First", 2, missing());
    let second = attribute(&mut s, &arena, "__Second", 9, missing());
    let third = attribute(&mut s, &arena, "Third", 19, missing());
    let attributes = attribute_list(&mut s, &arena, vec![first, second, third], 24);
    assert_eq!(class_with_attributes(&mut s, attributes, "C"), Ok(Node_::Ignored));
    let (_, cls) = only_class(&s);
    let names: Vec<&str> = cls.user_attributes.iter().map(|a| a.name.1).collect();
    assert_eq!(names, vec!["\\Third", "__Second", "\\First"]);
    let same_order = s.user_attributes_of(attributes.unwrap());
    assert_eq!(same_order, cls.user_attributes);
    assert!(s.user_attributes_of(Node_::Ignored).is_empty());
}

#[test]
fn attributes_set_their_flags() {
    let arena = Bump::new();
    let mut s = session(&arena);
    let names = [
        "__Mutable", "__MutableReturn", "__ReturnsVoidToRx", "__Reifiable", "__LateInit", "__Const",
        "__LSB", "__MemoizeLSB", "__Override", "__AtMostRxAsFunc", "__Enforceable",
    ];
    let mut nodes = Vec::new();
    for (i, name) in names.iter().enumerate() {
        nodes.push(attribute(&mut s, &arena, name, 100 * (i + 1), missing()));
    }
    let all = s.make_list(nodes, 0).unwrap().as_attributes(&arena).unwrap();
    assert_eq!(all.param_mutability, Some(ParamMutability::ParamBorrowedMutable));
    assert!(all.returns_mutable && all.returns_void_to_rx && all.late_init && all.const_);
    assert!(all.lsb && all.memoizelsb && all.override_ && all.at_most_rx_as_func);
    assert_eq!(all.reifiable, Some(pos_at(400, 11)));
    assert_eq!(all.enforceable, Some(pos_at(1100, 13)));
    assert_eq!(all.reactivity, Reactivity::Nonreactive);
    let owned = attribute(&mut s, &arena, "__OwnedMutable", 0, missing()).unwrap();
    assert_eq!(owned.as_attributes(&arena).unwrap().param_mutability, Some(ParamMutability::ParamOwnedMutable));
    let maybe = attribute(&mut s, &arena, "__MaybeMutable", 0, missing());
    let borrowed = attribute(&mut s, &arena, "__Mutable", 20, missing());
    let last_wins = s.make_list(vec![borrowed, maybe], 0).unwrap().as_attributes(&arena).unwrap();
    assert_eq!(last_wins.param_mutability, Some(ParamMutability::ParamMaybeMutable));
    assert_eq!(Node_::Ignored.as_attributes(&arena).unwrap().param_mutability, None);
    assert_eq!(
        Node_::Name("x", pos_at(0, 1)).as_attributes(&arena).err(),
        Some(ParseError::ExpectedAttribute)
    );
}

#[test]
fn reactivity_takes_the_condition_type_once() {
    let arena = Bump::new();
    let mut s = session(&arena);
    let class = Node_::Name("I", pos_at(17, 1));
    let member = Node_::Name("class", pos_at(20, 5));
    let condition = s.make_scope_resolution_expression(Ok(class), missing(), Ok(member));
    let only_if = attribute(&mut s, &arena, "__OnlyRxIfImpl", 2, condition);
    let rx = attribute(&mut s, &arena, "__Rx", 30, missing());
    let shallow = attribute(&mut s, &arena, "__RxShallow", 40, missing());
    let condition_ty = name_ty(&arena, "\\I", pos_at(17, 1));
    let condition_ty = Ty(Reason::Rhint(span(17, 25)), condition_ty.1);
    let one = s.make_list(vec![rx, only_if], 0).unwrap().as_attributes(&arena).unwrap();
    assert_eq!(one.reactivity, Reactivity::Reactive(Some(condition_ty)));
    let two = s.make_list(vec![only_if, rx, shallow], 0).unwrap().as_attributes(&arena).unwrap();
    assert_eq!(two.reactivity, Reactivity::Shallow(None));
    let local = attribute(&mut s, &arena, "__RxLocal", 50, missing()).unwrap();
    assert_eq!(local.as_attributes(&arena).unwrap().reactivity, Reactivity::Local(None));
}

#[test]
fn generators_are_told_by_the_yield_in_the_body() {
    let arena = Bump::new();
    let mut s = session(&arena);
    let cases: Vec<(Vec<TokenKind>, Node, FunKind)> = vec![
        (vec![], missing(), FunKind::FSync),
        (vec![TokenKind::Async], missing(), FunKind::FAsync),
        (vec![], Ok(Node_::Token(TokenKind::Yield)), FunKind::FGenerator),
        (vec![TokenKind::Async], Ok(Node_::Token(TokenKind::Yield)), FunKind::FAsyncGenerator),
        (vec![TokenKind::Coroutine], Ok(Node_::Token(TokenKind::Yield)), FunKind::FCoroutine),
        (vec![TokenKind::Async, TokenKind::Coroutine], missing(), FunKind::FCoroutine),
        (vec![], Err(ParseError::NoPosition), FunKind::FSync),
        (
            vec![],
            Ok(Node_::List(list(&arena, vec![Node_::Name("a", pos_at(0, 1)), Node_::Token(TokenKind::Yield)]))),
            FunKind::FGenerator,
        ),
    ];
    for (i, (modifiers, body, kind)) in cases.into_iter().enumerate() {
        let name: &str = arena.alloc_str(&format!("f{}", i));
        let header = simple_header(&mut s, &arena, modifiers, Node_::Name(name, pos_at(9, 2)), missing(), missing(), missing());
        assert_eq!(s.make_function_declaration(missing(), header, body), Ok(Node_::Ignored));
        let (_, fun) = s.state.decls.funs[i];
        let flags = fun_type_of(fun.type_).flags;
        let expected = FunTypeFlags {
            is_async: kind == FunKind::FAsync || kind == FunKind::FAsyncGenerator,
            generator: kind == FunKind::FGenerator || kind == FunKind::FAsyncGenerator,
            is_coroutine: kind == FunKind::FCoroutine,
            returns_mutable: false,
            returns_void_to_rx: false,
            mutability: None,
        };
        assert_eq!(flags, expected, "case {}", i);
    }
    let yield_statement = s.make_yield_expression(missing(), missing());
    let statement = s.flatten(vec![yield_statement, Ok(Node_::Token(TokenKind::Semicolon))]);
    let statements = s.make_list(vec![Ok(Node_::Ignored), statement], 0);
    let body = s.flatten(vec![missing(), statements, missing()]);
    assert_eq!(body, Ok(Node_::Token(TokenKind::Yield)));
}

#[test]
fn a_function_without_a_return_hint_has_an_unknown_return_type() {
    let arena = Bump::new();
    let mut s = session(&arena);
    s.state.namespace_builder.push_namespace(Some("N"));
    let header = simple_header(&mut s, &arena, vec![], Node_::Name("f", pos_at(9, 1)), missing(), missing(), missing());
    assert_eq!(s.make_function_declaration(missing(), header, missing()), Ok(Node_::Ignored));
    let (key, fun) = s.state.decls.funs[0];
    assert_eq!(key, "\\N\\f");
    assert_eq!(fun.deprecated, None);
    assert_eq!(fun_type_of(fun.type_).ret.type_, Ty(Reason::Rwitness(pos_at(9, 1)), &Ty_::Tany));
    assert_eq!(s.make_function_declaration(missing(), missing(), missing()), Ok(Node_::Ignored));
    assert_eq!(s.make_function_declaration(missing(), Ok(Node_::Name("f", pos_at(0, 1))), missing()), Ok(Node_::Ignored));
    assert_eq!(s.state.decls.funs.len(), 1);
    let unnamed = s.make_function_declaration_header(
        missing(), missing(), missing(), missing(), missing(), missing(), missing(), missing(), missing(), missing(),
    );
    assert_eq!(unnamed, Ok(Node_::Ignored));
    let bad_attributes = Ok(Node_::Name("x", pos_at(0, 1)));
    assert_eq!(s.make_function_declaration(bad_attributes, header, missing()), Err(ParseError::ExpectedAttribute));
}

fn param<'a>(
    s: &mut DirectDeclSmartConstructors<'a>,
    visibility: Node<'a>,
    inout: bool,
    hint: Node<'a>,
    name: &'a str,
    start: usize,
    variadic: bool,
    has_default: bool,
) -> Node<'a> {
    let name_node = Node_::Name(name, pos_at(start, name.len()));
    let name_node = if variadic {
        s.make_decorated_expression(Ok(Node_::Token(TokenKind::DotDotDot)), Ok(name_node))
    } else {
        Ok(name_node)
    };
    let inout = if inout { Ok(Node_::Token(TokenKind::Inout)) } else { missing() };
    let default = if has_default { Ok(Node_::IntLiteral("0", pos_at(start + 10, 1))) } else { missing() };
    s.make_parameter_declaration(missing(), visibility, inout, hint, name_node, default)
}

#[test]
fn parameters_sort_into_standard_and_variadic() {
    let arena = Bump::new();
    let mut s = session(&arena);
    let int = Ok(Node_::Ty(prim(&arena, Tprim::Tint, pos_at(0, 3))));
    let a = param(&mut s, missing(), false, int, "$a", 10, false, false);
    let b = param(&mut s, missing(), true, missing(), "$b", 20, false, true);
    let rest = param(&mut s, missing(), false, int, "$rest", 30, true, false);
    let after = param(&mut s, missing(), false, int, "$after", 40, true, false);
    let params = s.make_list(vec![a, b, rest, after], 0).unwrap();
    let (standard, properties, arity) = s.as_fun_params(params).unwrap();
    assert!(properties.is_empty());
    let names: Vec<Option<&str>> = standard.iter().map(|p| p.name).collect();
    assert_eq!(names, vec![Some("$a"), Some("$b"), Some("$after")]);
    assert_eq!(standard[0].type_.type_, prim(&arena, Tprim::Tint, pos_at(0, 3)));
    assert_eq!(standard[0].flags, FunParamFlags { inout: false, has_default: false, mutability: None });
    assert_eq!(standard[1].type_.type_, any());
    assert_eq!(standard[1].flags, FunParamFlags { inout: true, has_default: true, mutability: None });
    match arity {
        FunArity::Fvariadic(p) => {
            assert_eq!(p.name, Some("$rest"));
            assert_eq!(p.pos, pos_at(30, 5));
        }
        FunArity::Fstandard => panic!("no variadic parameter"),
    }
    let with_default = param(&mut s, missing(), false, int, "$d", 50, true, true);
    let with_default = s.make_list(vec![with_default], 0).unwrap();
    let (standard, _, arity) = s.as_fun_params(with_default).unwrap();
    assert_eq!(standard.len(), 1);
    assert_eq!(arity, FunArity::Fstandard);
    let (none, no_props, arity) = s.as_fun_params(Node_::Ignored).unwrap();
    assert!(none.is_empty() && no_props.is_empty());
    assert_eq!(arity, FunArity::Fstandard);
    assert_eq!(s.as_fun_params(Node_::Name("x", pos_at(0, 1))).err(), Some(ParseError::ExpectedParameterList));
    let not_a_param = list(&arena, vec![Node_::Name("x", pos_at(0, 1))]);
    assert_eq!(s.as_fun_params(Node_::List(not_a_param)).err(), Some(ParseError::ExpectedFunctionParameter));
    let bad_hint = param(&mut s, missing(), false, Ok(Node_::Token(TokenKind::Static)), "$e", 60, false, false);
    let bad_hint = s.make_list(vec![bad_hint], 0).unwrap();
    assert_eq!(s.as_fun_params(bad_hint).err(), Some(ParseError::ExpectedName));
}

#[test]
fn constructor_parameters_with_a_visibility_become_properties() {
    let arena = Bump::new();
    let mut s = session(&arena);
    s.make_token(tok(&arena, TokenKind::Class, "class", 0)).unwrap();
    s.make_token(tok(&arena, TokenKind::Name, "C", 6)).unwrap();
    let int = Ok(Node_::Ty(prim(&arena, Tprim::Tint, pos_at(30, 3))));
    let promoted = param(&mut s, Ok(Node_::Token(TokenKind::Private)), false, int, "$x", 40, false, false);
    let plain = param(&mut s, missing(), false, int, "$y", 50, false, false);
    let untyped = param(&mut s, Ok(Node_::Token(TokenKind::Public)), false, missing(), "$z", 60, false, false);
    let params = s.make_list(vec![promoted, plain, untyped], 0);
    let header = simple_header(&mut s, &arena, vec![TokenKind::Public], Node_::Construct(pos_at(20, 11)), missing(), params, missing());
    let constructor = s.make_methodish_declaration(missing(), header, missing(), missing()).unwrap();
    let (method, properties) = match constructor {
        Node_::Constructor { method, properties } => (method, properties),
        other => panic!("no constructor: {:?}", other),
    };
    assert_eq!(method.name, Id(pos_at(20, 11), "__construct"));
    let ft = fun_type_of(method.type_);
    assert_eq!(ft.ret.type_, Ty(Reason::Rwitness(pos_at(20, 11)), &Ty_::Tprim(Tprim::Tvoid)));
    assert_eq!(ft.params.len(), 3);
    assert_eq!(properties.len(), 2);
    assert_eq!(properties[0].name, Id(pos_at(40, 2), "x"));
    assert_eq!(properties[0].visibility, Visibility::Private);
    assert_eq!(properties[0].type_, Some(prim(&arena, Tprim::Tint, pos_at(30, 3))));
    assert!(properties[0].needs_init);
    assert!(!properties[0].const_ && !properties[0].lateinit && !properties[0].lsb && !properties[0].abstract_);
    assert_eq!(properties[1].name, Id(pos_at(60, 2), "z"));
    assert_eq!(properties[1].visibility, Visibility::Public);
    assert_eq!(properties[1].type_, None);
    let own = s.make_property_declaration(
        missing(),
        Ok(Node_::Token(TokenKind::Protected)),
        int,
        Ok(Node_::List(list(&arena, vec![Node_::ListItem(arena.alloc((Node_::Name("$w", pos_at(70, 2)), Node_::Ignored)))]))),
        missing(),
    );
    let members = s.make_list(vec![own, Ok(constructor)], 0);
    let body = s.make_classish_body(missing(), members, missing());
    let r = s.make_classish_declaration(
        missing(), missing(), missing(), Ok(Node_::Name("class", pos_at(0, 5))), Ok(Node_::Name("C", pos_at(6, 1))),
        missing(), missing(), missing(), missing(), missing(), missing(), body,
    );
    assert_eq!(r, Ok(Node_::Ignored));
    let (_, cls) = only_class(&s);
    assert_eq!(cls.constructor, Some(*method));
    let names: Vec<&str> = cls.props.iter().map(|p| p.name.1).collect();
    assert_eq!(names, vec!["w", "x", "z"]);
    assert!(cls.methods.is_empty());
}
