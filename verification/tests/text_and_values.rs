use bumpalo::Bump;
use shallow_decl::aast::Lid;
use shallow_decl::ast_defs::DocComment;
use shallow_decl::error::ParseError;
use shallow_decl::functions::strip_dollar_prefix;
use shallow_decl::ocaml_value::{
    is_ocaml_int, isize_to_ocaml_int, ocaml_int_to_isize, Header, OpaqueValue, Value,
};
use shallow_decl::pos::{FilePos, Pos, Prefix, RelativePath};
use shallow_decl::syntax::{Syntax, SyntaxVariant};
use shallow_decl::syntax_kind::SyntaxKind;
use shallow_decl::text::{
    bytes_contain, str_eq_ignore_ascii_case, str_last_segment,
    str_last_terminated_segment, str_starts_with, str_trim, str_trim_start_matches,
};
use shallow_decl::token_kind::TokenKind;

#[test]
fn ocaml_int_encoding_round_trips() {
    assert_eq!(isize_to_ocaml_int(0), 1);
    assert_eq!(isize_to_ocaml_int(1), 3);
    assert_eq!(isize_to_ocaml_int(21), 43);
    assert_eq!(isize_to_ocaml_int(-1), usize::MAX);
    assert_eq!(ocaml_int_to_isize(43), 21);
    assert_eq!(ocaml_int_to_isize(usize::MAX), -1);
    for n in [-7isize, -1, 0, 1, 2, 1000, isize::MAX >> 1, isize::MIN >> 1] {
        assert_eq!(ocaml_int_to_isize(isize_to_ocaml_int(n)), n);
        assert!(is_ocaml_int(isize_to_ocaml_int(n)));
    }
}

#[test]
fn ocaml_int_is_told_by_lowest_bit() {
    assert!(is_ocaml_int(1));
    assert!(is_ocaml_int(0xff));
    assert!(!is_ocaml_int(0));
    assert!(!is_ocaml_int(0x1000));
}

#[test]
fn value_reads_immediates_only() {
    let five = Value::from_int(5);
    assert!(five.is_immediate());
    assert_eq!(five.as_int(), Some(5));
    assert_eq!(five.to_bits(), 11);
    let pointer = Value(0x1000);
    assert!(!pointer.is_immediate());
    assert_eq!(pointer.as_int(), None);
    assert_eq!(pointer.to_bits(), 0x1000);
}

#[test]
fn opaque_value_reads_immediates_and_headers() {
    let v = OpaqueValue(7);
    assert!(v.is_immediate());
    assert_eq!(v.as_int(), Some(3));
    assert_eq!(v.to_bits(), 7);
    let block = OpaqueValue((3 << 10) | 0xfc);
    assert!(!block.is_immediate());
    assert_eq!(block.as_int(), None);
    let header = block.as_header();
    assert_eq!(header, Header::from_bits((3 << 10) | 0xfc));
    assert_eq!(header.size(), 3);
    assert_eq!(header.tag(), 0xfc);
    assert_eq!(header.to_bits(), (3 << 10) | 0xfc);
}

#[test]
fn text_prefix_and_trimming() {
    assert!(str_starts_with("\\A", '\\'));
    assert!(!str_starts_with("A\\", '\\'));
    assert!(!str_starts_with("", '\\'));
    assert_eq!(str_trim_start_matches("\\\\A\\B", '\\'), "A\\B");
    assert_eq!(str_trim_start_matches("A", '\\'), "A");
    assert_eq!(str_trim_start_matches("$$$", '$'), "");
    assert_eq!(str_trim_start_matches("", '$'), "");
    assert_eq!(str_trim("  strict \t\n"), "strict");
    assert_eq!(str_trim("strict"), "strict");
    assert_eq!(str_trim(" \u{2003} a b \u{a0}"), "a b");
    assert_eq!(str_trim("   "), "");
    assert_eq!(str_trim(""), "");
    assert_eq!(strip_dollar_prefix("$x"), "x");
    assert_eq!(strip_dollar_prefix("x"), "x");
}

#[test]
fn text_segments() {
    assert_eq!(str_last_segment("\\A\\B\\C", '\\'), "C");
    assert_eq!(str_last_segment("C", '\\'), "C");
    assert_eq!(str_last_segment("A\\", '\\'), "");
    assert_eq!(str_last_segment("", '\\'), "");
    assert_eq!(str_last_terminated_segment("A\\B", '\\'), "B");
    assert_eq!(str_last_terminated_segment("A\\B\\", '\\'), "B");
    assert_eq!(str_last_terminated_segment("B", '\\'), "B");
    assert_eq!(str_last_terminated_segment("\\", '\\'), "");
}

#[test]
fn text_case_and_bytes() {
    assert!(str_eq_ignore_ascii_case("TRUE", "true"));
    assert!(str_eq_ignore_ascii_case("\\Self", "\\self"));
    assert!(!str_eq_ignore_ascii_case("tru", "true"));
    assert!(!str_eq_ignore_ascii_case("trug", "true"));
    assert!(!str_eq_ignore_ascii_case("\u{212a}", "k"));
    assert!(bytes_contain(b"A\\B", b'\\'));
    assert!(!bytes_contain(b"AB", b'\\'));
    assert!(!bytes_contain(b"", b'\\'));
}

#[test]
fn text_concatenation_copies_into_the_arena() {
    let arena = Bump::new();
    let ab = shallow_decl::text::concat(&arena, "\\N\\", "C");
    assert_eq!(ab, "\\N\\C");
    let abc = shallow_decl::text::concat3(&arena, "\\", "N", "\\");
    assert_eq!(abc, "\\N\\");
    assert_eq!(shallow_decl::text::concat(&arena, "", ""), "");
}

fn source_file() -> RelativePath<'static> {
    RelativePath::make(Prefix::Root, "a.php")
}

#[test]
fn pos_none_is_none() {
    let none = Pos::make_none();
    assert!(none.is_none());
    assert_eq!(none.filename().prefix, Prefix::Dummy);
    assert_eq!(none.filename().path, "");
    assert_eq!(none.start_cnum(), 0);
    assert_eq!(none.end_cnum(), 0);
    let p = Pos::from_lnum_bol_cnum(source_file(), (1, 0, 3), (1, 0, 5));
    assert!(!p.is_none());
    let zero_in_file = Pos::from_lnum_bol_cnum(source_file(), (0, 0, 0), (0, 0, 0));
    assert!(!zero_in_file.is_none());
}

#[test]
fn pos_from_lnum_bol_cnum_keeps_the_triples() {
    let p = Pos::from_lnum_bol_cnum(source_file(), (2, 10, 13), (3, 20, 25));
    assert_eq!(p.start, FilePos { line: 2, bol: 10, cnum: 13 });
    assert_eq!(p.end, FilePos { line: 3, bol: 20, cnum: 25 });
    assert_eq!(*p.filename(), source_file());
    assert_eq!(p.start_cnum(), 13);
    assert_eq!(p.end_cnum(), 25);
}

#[test]
fn pos_from_line_cols_offset_spans_one_line() {
    let p = Pos::from_line_cols_offset(source_file(), 4, 3..7, 103);
    assert_eq!(p.start, FilePos { line: 4, bol: 100, cnum: 103 });
    assert_eq!(p.end, FilePos { line: 4, bol: 100, cnum: 107 });
    let empty = Pos::from_line_cols_offset(source_file(), 1, 0..0, 0);
    assert_eq!(empty.start, empty.end);
}

#[test]
fn pos_merge_covers_both() {
    let a = Pos::from_lnum_bol_cnum(source_file(), (1, 0, 3), (1, 0, 5));
    let b = Pos::from_lnum_bol_cnum(source_file(), (2, 10, 12), (2, 10, 20));
    let ab = Pos::merge(a, b).unwrap();
    assert_eq!(ab.start, a.start);
    assert_eq!(ab.end, b.end);
    let ba = Pos::merge(b, a).unwrap();
    assert_eq!(ba, ab);
    assert_eq!(Pos::merge(a, a), Ok(a));
}

#[test]
fn pos_merge_rejects_two_files() {
    let a = Pos::from_lnum_bol_cnum(source_file(), (1, 0, 3), (1, 0, 5));
    let other = RelativePath::make(Prefix::Root, "b.php");
    let b = Pos::from_lnum_bol_cnum(other, (1, 0, 3), (1, 0, 5));
    assert_eq!(Pos::merge(a, b), Err(ParseError::PositionsInSeparateFiles));
    let hhi = RelativePath::make(Prefix::Hhi, "a.php");
    let c = Pos::from_lnum_bol_cnum(hhi, (1, 0, 3), (1, 0, 5));
    assert_eq!(Pos::merge(a, c), Err(ParseError::PositionsInSeparateFiles));
    assert_eq!(Pos::merge(a, Pos::make_none()), Err(ParseError::PositionsInSeparateFiles));
}

#[test]
fn pos_merge_with_nowhere_in_the_same_source_file() {
    let dummy = RelativePath::dummy();
    let a = Pos::from_lnum_bol_cnum(dummy, (1, 0, 3), (1, 0, 5));
    assert_eq!(Pos::merge(a, Pos::make_none()), Ok(a));
    assert_eq!(Pos::merge(Pos::make_none(), a), Ok(a));
    assert_eq!(Pos::merge(Pos::make_none(), Pos::make_none()), Ok(Pos::make_none()));
}

#[test]
fn relative_paths_compare_by_prefix_and_path() {
    let a = RelativePath::make(Prefix::Root, "a.php");
    assert!(a.same(&RelativePath::make(Prefix::Root, "a.php")));
    assert!(!a.same(&RelativePath::make(Prefix::Tmp, "a.php")));
    assert!(!a.same(&RelativePath::make(Prefix::Root, "b.php")));
    assert!(RelativePath::dummy().same(&RelativePath::make(Prefix::Dummy, "")));
}

#[test]
fn lid_holds_counter_and_name() {
    let p = Pos::make_none();
    let x = Lid::new(p, "$x");
    assert_eq!(x.name(), "$x");
    assert_eq!(x.1, (0, "$x"));
    let y = Lid::from_counter(p, 7, "$y");
    assert_eq!(y.name(), "$y");
    assert_eq!(y.1 .0, 7);
    assert_eq!(DocComment::new("/** doc */").0, "/** doc */");
}

#[test]
fn syntax_kind_names_and_tags() {
    assert_eq!(SyntaxKind::Missing.to_string(), "missing");
    assert_eq!(SyntaxKind::Token(TokenKind::Name).to_string(), "token");
    assert_eq!(SyntaxKind::SyntaxList.to_string(), "list");
    assert_eq!(SyntaxKind::Script.to_string(), "script");
    assert_eq!(SyntaxKind::LiteralExpression.to_string(), "literal");
    assert_eq!(SyntaxKind::ErrorSyntax.to_string(), "error");
    assert_eq!(
        SyntaxKind::PocketMappingTypeDeclaration.to_string(),
        "pocket_mapping_type_declaration"
    );
    assert_eq!(SyntaxKind::Missing.ocaml_tag(), 0);
    assert_eq!(SyntaxKind::Token(TokenKind::Class).ocaml_tag(), 0);
    assert_eq!(SyntaxKind::SyntaxList.ocaml_tag(), 1);
    assert_eq!(SyntaxKind::EndOfFile.ocaml_tag(), 2);
    assert_eq!(SyntaxKind::ClassishDeclaration.ocaml_tag(), 34);
    assert_eq!(SyntaxKind::TypeParameters.ocaml_tag(), 162);
    assert_eq!(SyntaxKind::PocketMappingTypeDeclaration.ocaml_tag(), 175);
}

fn token(text: &'static str) -> Syntax<&'static str, u32> {
    Syntax::make(SyntaxVariant::Token(Box::new(text)), 1)
}

fn missing() -> Syntax<&'static str, u32> {
    Syntax::make(SyntaxVariant::Missing, 0)
}

#[test]
fn syntax_children_and_tokens() {
    let list = Syntax::make(SyntaxVariant::SyntaxList(vec![token("a"), token("b")]), 2);
    let tree = Syntax::make(
        SyntaxVariant::Production(
            SyntaxKind::CompoundStatement,
            vec![missing(), list, token("c"), missing()],
        ),
        9,
    );
    assert_eq!(tree.value, 9);
    let children = tree.children();
    assert_eq!(children.len(), 4);
    assert_eq!(children[1].children().len(), 2);
    assert_eq!(children[2].get_token(), Some(&"c"));
    assert_eq!(children[0].get_token(), None);
    assert_eq!(tree.get_token(), None);
    assert_eq!(tree.leading_token(), Some(&"a"));
    assert_eq!(tree.trailing_token(), Some(&"c"));
    assert_eq!(children[1].trailing_token(), Some(&"b"));
    assert_eq!(token("x").leading_token(), Some(&"x"));
    assert_eq!(token("x").children().len(), 0);
    assert_eq!(missing().leading_token(), None);
    assert_eq!(missing().trailing_token(), None);
    let hollow = Syntax::make(
        SyntaxVariant::Production(SyntaxKind::Script, vec![missing(), missing()]),
        0,
    );
    assert_eq!(hollow.leading_token(), None);
    assert_eq!(hollow.trailing_token(), None);
}

#[test]
fn every_error_has_a_sentence() {
    let errors = [
        ParseError::ExpectedName,
        ParseError::ExpectedNamePart,
        ParseError::ExpectedNameAndSeparator,
        ParseError::NoPosition,
        ParseError::PositionsInSeparateFiles,
        ParseError::ExpectedVisibility,
        ParseError::ExpectedAttribute,
        ParseError::NotAnExpression,
        ParseError::CannotConvertExprToType,
        ParseError::ExpectedFunctionParameter,
        ParseError::ExpectedParameterList,
        ParseError::MalformedStringLiteral,
        ParseError::NotAPrefixOperator,
        ParseError::NotAPostfixOperator,
        ParseError::NotABinaryOperator,
        ParseError::ExpectedOperator,
        ParseError::ExpectedListItem,
        ParseError::ExpectedList,
        ParseError::ExpectedAsOrSuper,
        ParseError::ExpectedTypeConstraint,
        ParseError::ExpectedTypeParameter,
        ParseError::ExpectedClassishBody,
        ParseError::ExpectedFunctionHeader,
        ParseError::ExpectedEnumCase,
        ParseError::ExpectedShapeFieldSpecifier,
        ParseError::ExpectedShapeKey,
        ParseError::NoOpenTypeParameters,
        ParseError::EmptyImportName,
        ParseError::DuplicateDeclaration,
        ParseError::UnexpectedArity,
    ];
    for (i, e) in errors.iter().enumerate() {
        assert!(!e.message().is_empty());
        for other in &errors[i + 1..] {
            assert_ne!(e.message(), other.message());
        }
    }
    assert_eq!(ParseError::NoPosition.message(), "No pos found for node");
}
