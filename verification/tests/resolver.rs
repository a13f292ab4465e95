use bumpalo::Bump;
use shallow_decl::ast_defs::Id;
use shallow_decl::decls::DuplicatePolicy;
use shallow_decl::error::ParseError;
use shallow_decl::namespace::{find_earliest, find_latest, vec_with, NamespaceBuilder};
use shallow_decl::node::Node_;
use shallow_decl::pos::{Pos, Prefix, RelativePath};
use shallow_decl::state::DirectDeclSmartConstructors;
use shallow_decl::typing_defs::{Reason, Ty, Ty_};

fn pos_at(start: usize, len: usize) -> Pos<'static> {
    Pos::from_lnum_bol_cnum(
        RelativePath::make(Prefix::Root, "a.php"),
        (1, 0, start),
        (1, 0, start + len),
    )
}

fn no_imports<'a>(arena: &'a Bump) -> &'a Vec<(&'a str, &'a str)> {
    arena.alloc(Vec::new())
}

fn session<'a>(arena: &'a Bump) -> DirectDeclSmartConstructors<'a> {
    let auto: &'a Vec<(&'a str, &'a str)> =
        arena.alloc(vec![("Vector", "HH\\Vector"), ("Awaitable", "HH\\Awaitable")]);
    DirectDeclSmartConstructors::new(
        b"",
        RelativePath::make(Prefix::Root, "a.php"),
        arena,
        auto,
        DuplicatePolicy::Overwrite,
    )
}

fn list<'a>(arena: &'a Bump, items: Vec<Node_<'a>>) -> &'a Vec<Node_<'a>> {
    arena.alloc(items)
}

#[test]
fn namespace_stack_starts_global() {
    let arena = Bump::new();
    let ns = NamespaceBuilder::new_in(&arena, no_imports(&arena));
    assert_eq!(ns.current_namespace(), "\\");
    assert_eq!(ns.stack.len(), 1);
    assert!(!ns.stack[0].statement_level);
    assert!(ns.stack[0].imports.is_empty());
}

#[test]
fn namespace_block_pushes_and_pops() {
    let arena = Bump::new();
    let mut ns = NamespaceBuilder::new_in(&arena, no_imports(&arena));
    ns.push_namespace(Some("Foo"));
    assert_eq!(ns.current_namespace(), "\\Foo\\");
    ns.push_namespace(Some("Bar\\Baz"));
    assert_eq!(ns.current_namespace(), "\\Foo\\Bar\\Baz\\");
    assert_eq!(ns.stack.len(), 3);
    ns.pop_namespace();
    assert_eq!(ns.current_namespace(), "\\Foo\\");
    ns.pop_namespace();
    assert_eq!(ns.current_namespace(), "\\");
    assert_eq!(ns.stack.len(), 1);
}

#[test]
fn namespace_pop_keeps_the_global_frame() {
    let arena = Bump::new();
    let mut ns = NamespaceBuilder::new_in(&arena, no_imports(&arena));
    ns.pop_namespace();
    ns.pop_namespace();
    assert_eq!(ns.stack.len(), 1);
    assert_eq!(ns.current_namespace(), "\\");
    ns.keep_namespace();
    assert!(!ns.stack[0].statement_level);
    assert_eq!(ns.stack.len(), 1);
}

#[test]
fn namespace_without_a_name_repeats_the_prefix() {
    let arena = Bump::new();
    let mut ns = NamespaceBuilder::new_in(&arena, no_imports(&arena));
    ns.push_namespace(Some("Foo"));
    ns.push_namespace(None);
    assert_eq!(ns.stack.len(), 3);
    assert_eq!(ns.current_namespace(), "\\Foo\\");
}

#[test]
fn namespace_statement_replaces_the_statement_before_it() {
    let arena = Bump::new();
    let mut ns = NamespaceBuilder::new_in(&arena, no_imports(&arena));
    ns.push_namespace(Some("Foo"));
    ns.keep_namespace();
    assert_eq!(ns.stack.len(), 2);
    assert!(ns.stack[1].statement_level);
    assert_eq!(ns.current_namespace(), "\\Foo\\");
    ns.add_import("A\\B", None).unwrap();
    ns.push_namespace(Some("Bar"));
    assert_eq!(ns.stack.len(), 2);
    assert_eq!(ns.current_namespace(), "\\Bar\\");
    assert!(!ns.stack[1].statement_level);
    assert_eq!(ns.stack[1].imports.len(), 1);
    ns.keep_namespace();
    assert!(ns.stack[1].statement_level);
    assert_eq!(ns.stack.len(), 2);
    ns.pop_namespace();
    assert_eq!(ns.stack.len(), 1);
}

#[test]
fn import_alias_defaults_to_the_last_segment() {
    let arena = Bump::new();
    let mut ns = NamespaceBuilder::new_in(&arena, no_imports(&arena));
    assert_eq!(ns.add_import("A\\B\\C", None), Ok(()));
    assert_eq!(ns.add_import("\\X\\Y", Some("Z")), Ok(()));
    assert_eq!(ns.add_import("Q\\", None), Ok(()));
    let imports = ns.stack[0].imports;
    assert_eq!(imports.len(), 3);
    assert_eq!(imports[0], ("C", "A\\B\\C"));
    assert_eq!(imports[1], ("Z", "\\X\\Y"));
    assert_eq!(imports[2], ("Q", "Q\\"));
}

#[test]
fn import_without_a_name_fails() {
    let arena = Bump::new();
    let mut ns = NamespaceBuilder::new_in(&arena, no_imports(&arena));
    assert_eq!(ns.add_import("", None), Err(ParseError::EmptyImportName));
    assert!(ns.stack[0].imports.is_empty());
    assert_eq!(ns.add_import("", Some("E")), Ok(()));
    assert_eq!(ns.stack[0].imports.len(), 1);
}

#[test]
fn rename_import_searches_inner_frames_first() {
    let arena = Bump::new();
    let auto: &Vec<(&str, &str)> = arena.alloc(vec![("Vector", "HH\\Vector")]);
    let mut ns = NamespaceBuilder::new_in(&arena, auto);
    ns.add_import("Outer\\Thing", Some("T")).unwrap();
    ns.push_namespace(Some("N"));
    assert_eq!(ns.rename_import("T"), "\\Outer\\Thing");
    assert_eq!(ns.rename_import("\\T"), "\\Outer\\Thing");
    ns.add_import("\\Inner\\Thing", Some("T")).unwrap();
    assert_eq!(ns.rename_import("T"), "\\Inner\\Thing");
    ns.add_import("Latest\\Thing", Some("T")).unwrap();
    assert_eq!(ns.rename_import("\\\\T"), "\\Latest\\Thing");
    ns.pop_namespace();
    assert_eq!(ns.rename_import("T"), "\\Outer\\Thing");
}

#[test]
fn rename_import_falls_back_to_automatic_imports() {
    let arena = Bump::new();
    let auto: &Vec<(&str, &str)> =
        arena.alloc(vec![("Vector", "HH\\Vector"), ("Vector", "Other\\Vector")]);
    let mut ns = NamespaceBuilder::new_in(&arena, auto);
    assert_eq!(ns.rename_import("Vector"), "\\HH\\Vector");
    assert_eq!(ns.rename_import("\\Vector"), "\\HH\\Vector");
    assert_eq!(ns.rename_import("\\N\\Vector"), "\\N\\Vector");
    assert_eq!(ns.rename_import("Unknown"), "Unknown");
    assert_eq!(ns.rename_import(""), "");
    ns.add_import("Mine\\Vector", None).unwrap();
    assert_eq!(ns.rename_import("Vector"), "\\Mine\\Vector");
}

#[test]
fn lookups_in_import_tables() {
    let table: Vec<(&str, &str)> = vec![("A", "1"), ("B", "2"), ("A", "3")];
    assert_eq!(find_latest(&table, "A"), Some("3"));
    assert_eq!(find_earliest(&table, "A"), Some("1"));
    assert_eq!(find_latest(&table, "B"), Some("2"));
    assert_eq!(find_latest(&table, "C"), None);
    assert_eq!(find_earliest(&table, "C"), None);
    assert_eq!(vec_with(&vec![1u8, 2], 3), vec![1u8, 2, 3]);
    assert_eq!(vec_with(&Vec::<u8>::new(), 3), vec![3u8]);
}

#[test]
fn get_name_of_a_simple_name() {
    let arena = Bump::new();
    let s = session(&arena);
    let p = pos_at(3, 3);
    assert_eq!(s.get_name("\\N\\", Node_::Name("Foo", p)), Ok(Id(p, "\\N\\Foo")));
    assert_eq!(s.get_name("", Node_::Name("Foo", p)), Ok(Id(p, "Foo")));
    assert_eq!(s.get_name("\\N\\", Node_::Name("", p)), Ok(Id(p, "")));
    assert_eq!(s.get_name("\\N\\", Node_::XhpName(":foo", p)), Ok(Id(p, ":foo")));
    assert_eq!(s.get_name("\\N\\", Node_::Construct(p)), Ok(Id(p, "__construct")));
}

#[test]
fn get_name_of_a_qualified_name() {
    let arena = Bump::new();
    let s = session(&arena);
    let p = pos_at(0, 7);
    let q = pos_at(0, 1);
    let relative = Node_::QualifiedName(
        list(
            &arena,
            vec![
                Node_::ListItem(arena.alloc((Node_::Name("A", q), Node_::Backslash(q)))),
                Node_::Name("B", q),
            ],
        ),
        p,
    );
    assert_eq!(s.get_name("\\N\\", relative), Ok(Id(p, "\\N\\A\\B")));
    assert_eq!(s.get_name("", relative), Ok(Id(p, "A\\B")));
    let absolute = Node_::QualifiedName(
        list(&arena, vec![Node_::Backslash(q), Node_::Name("A", q), Node_::Backslash(q), Node_::Name("B", q)]),
        p,
    );
    assert_eq!(s.get_name("\\N\\", absolute), Ok(Id(p, "\\A\\B")));
    let empty = Node_::QualifiedName(list(&arena, vec![]), p);
    assert_eq!(s.get_name("\\N\\", empty), Ok(Id(p, "\\N\\")));
}

#[test]
fn qualifying_a_fully_qualified_name_changes_nothing() {
    let arena = Bump::new();
    let mut s = session(&arena);
    let p = pos_at(0, 4);
    let absolute = Node_::QualifiedName(
        list(&arena, vec![Node_::Backslash(p), Node_::Name("A", p)]),
        p,
    );
    let global = s.get_name(s.state.namespace_builder.current_namespace(), absolute);
    assert_eq!(s.prefix_ns("\\A\\B"), "\\A\\B");
    assert_eq!(s.prefix_ns("A\\B"), "\\A\\B");
    s.state.namespace_builder.push_namespace(Some("Deep\\Down"));
    let nested = s.get_name(s.state.namespace_builder.current_namespace(), absolute);
    assert_eq!(global, nested);
    assert_eq!(nested, Ok(Id(p, "\\A")));
    assert_eq!(s.prefix_ns("\\A\\B"), "\\A\\B");
    assert_eq!(s.prefix_ns("A\\B"), "\\Deep\\Down\\A\\B");
    let once = s.prefix_ns("C");
    assert_eq!(s.prefix_ns(once), once);
    assert_eq!(s.prefix_ns(""), "\\Deep\\Down\\");
}

#[test]
fn get_name_rejects_what_is_no_name() {
    let arena = Bump::new();
    let s = session(&arena);
    let p = pos_at(0, 1);
    assert_eq!(s.get_name("", Node_::Ignored), Err(ParseError::ExpectedName));
    assert_eq!(s.get_name("", Node_::StringLiteral("x", p)), Err(ParseError::ExpectedName));
    let bad_part = Node_::QualifiedName(list(&arena, vec![Node_::Name("A", p), Node_::Ignored]), p);
    assert_eq!(s.get_name("", bad_part), Err(ParseError::ExpectedNamePart));
    let bad_pair = Node_::QualifiedName(
        list(
            &arena,
            vec![Node_::ListItem(arena.alloc((Node_::Name("A", p), Node_::Name("B", p))))],
        ),
        p,
    );
    assert_eq!(s.get_name("", bad_pair), Err(ParseError::ExpectedNameAndSeparator));
    let pair_without_name = Node_::QualifiedName(
        list(
            &arena,
            vec![Node_::ListItem(arena.alloc((Node_::Backslash(p), Node_::Backslash(p))))],
        ),
        p,
    );
    assert_eq!(s.get_name("", pair_without_name), Err(ParseError::ExpectedNameAndSeparator));
}

#[test]
fn type_parameters_in_scope() {
    let arena = Bump::new();
    let mut s = session(&arena);
    assert!(!s.is_type_param_in_scope("T"));
    s.state.type_parameters.push(arena.alloc(vec!["T", "U"]));
    s.state.type_parameters.push(arena.alloc(vec![]));
    s.state.type_parameters.push(arena.alloc(vec!["V"]));
    assert!(s.is_type_param_in_scope("T"));
    assert!(s.is_type_param_in_scope("U"));
    assert!(s.is_type_param_in_scope("V"));
    assert!(!s.is_type_param_in_scope("W"));
    assert!(!s.is_type_param_in_scope(""));
    assert!(!s.is_type_param_in_scope("\\T"));
}

#[test]
fn a_type_parameter_is_generic_and_a_qualified_name_is_applied() {
    let arena = Bump::new();
    let mut s = session(&arena);
    s.state.type_parameters.push(arena.alloc(vec!["T"]));
    let p = pos_at(5, 1);
    let generic = s.node_to_ty(Node_::Name("T", p)).unwrap();
    assert_eq!(generic.0, Reason::Rhint(p));
    assert_eq!(*generic.1, Ty_::Tgeneric("T"));
    let q = pos_at(4, 2);
    let qualified = Node_::QualifiedName(
        list(&arena, vec![Node_::Backslash(pos_at(4, 1)), Node_::Name("T", p)]),
        q,
    );
    let applied = s.node_to_ty(qualified).unwrap();
    assert_eq!(applied.0, Reason::Rhint(q));
    let no_args: Vec<Ty> = Vec::new();
    assert_eq!(*applied.1, Ty_::Tapply(Id(q, "\\T"), &no_args));
    let other = s.node_to_ty(Node_::Name("U", p)).unwrap();
    assert_eq!(*other.1, Ty_::Tapply(Id(p, "\\U"), &no_args));
}

#[test]
fn allocate_places_values_in_the_arena() {
    let arena = Bump::new();
    let s = session(&arena);
    let n: &u64 = s.allocate(17u64);
    assert_eq!(*n, 17);
    let v: &Vec<&str> = s.allocate(vec!["a", "b"]);
    assert_eq!(v.len(), 2);
    assert_eq!(s.source_text_at_pos(pos_at(0, 0)), b"");
    assert_eq!(s.source_text_at_pos(pos_at(3, 4)), b"");
}

#[test]
fn names_that_stand_for_themselves_are_not_qualified() {
    let arena = Bump::new();
    let s = session(&arena);
    let p = pos_at(3, 4);
    for name in ["self", "parent", "static", "this", "__construct", "", "\\Foo", "\\"] {
        assert!(shallow_decl::names::name_stands_unqualified(name));
        assert_eq!(s.get_name("\\N\\", Node_::Name(name, p)), Ok(Id(p, name)));
        assert_eq!(s.get_name("", Node_::Name(name, p)), Ok(Id(p, name)));
    }
    for name in ["Foo", "selfish", "Self", "thisor", "x"] {
        assert!(!shallow_decl::names::name_stands_unqualified(name));
        let qualified = format!("\\N\\{}", name);
        assert_eq!(s.get_name("\\N\\", Node_::Name(name, p)), Ok(Id(p, qualified.as_str())));
    }
}
