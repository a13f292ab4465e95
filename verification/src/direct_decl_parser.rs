//! The pass from outside: a finished tree goes in, the declarations of the
//! file come out, or the reason why there are none.

use crate::decls::{DeclsView, DuplicatePolicy, InProgressDecls};
use crate::error::ParseError;
use crate::namespace::{imports_view, Imports};
use crate::pos::{RelativePath, RelativePathView};
use crate::shallow_decl_defs::Mode;
use crate::state::{DirectDeclSmartConstructors, FileModeBuilder, StateView};
use crate::syntax::Syntax;
use crate::token::Token;
use bumpalo::Bump;
use vstd::prelude::*;

verus! {

/// The state after the pass over `tree`, begun in the state of a new
/// session; a failure where the tree is reduced to one.
pub open spec fn pass_over(
    filename: RelativePathView,
    text: Seq<u8>,
    auto_imports: Imports,
    duplicate_policy: DuplicatePolicy,
    tree: Syntax<Token, ()>,
) -> Result<StateView, ParseError> {
    let (after, reduced) = StateView::initial(
        text,
        filename,
        auto_imports,
        duplicate_policy,
    ).reduce_tree(tree);
    match reduced {
        Ok(_) => Ok(after),
        Err(e) => Err(e),
    }
}

/// The mode that a file was found to have, if it said so.
pub open spec fn mode_found(file_mode: FileModeBuilder) -> Option<Mode> {
    match file_mode {
        FileModeBuilder::Resolved(mode) => Some(mode),
        _ => None,
    }
}

/// The declarations that the pass over `tree` makes.
pub open spec fn spec_parse_decls(
    filename: RelativePathView,
    text: Seq<u8>,
    auto_imports: Imports,
    duplicate_policy: DuplicatePolicy,
    tree: Syntax<Token, ()>,
) -> Result<DeclsView, ParseError> {
    match pass_over(filename, text, auto_imports, duplicate_policy, tree) {
        Ok(after) => Ok(after.decls),
        Err(e) => Err(e),
    }
}

/// The declarations that the pass over `tree` makes, and the mode that it
/// finds.
pub open spec fn spec_parse_decl_lists(
    filename: RelativePathView,
    text: Seq<u8>,
    auto_imports: Imports,
    duplicate_policy: DuplicatePolicy,
    tree: Syntax<Token, ()>,
) -> Result<(DeclsView, Option<Mode>), ParseError> {
    match pass_over(filename, text, auto_imports, duplicate_policy, tree) {
        Ok(after) => Ok((after.decls, mode_found(after.file_mode))),
        Err(e) => Err(e),
    }
}

/// The declarations of one file, by name: in each table every name occurs
/// once. A file whose tree cannot be reduced has none: the failure is
/// returned in their place.
pub fn parse_decls<'a>(
    filename: RelativePath<'a>,
    text: &'a [u8],
    auto_namespace_map: &'a Vec<(&'a str, &'a str)>,
    arena: &'a Bump,
    tree: &Syntax<Token<'a>, ()>,
    duplicate_policy: DuplicatePolicy,
) -> (r: Result<InProgressDecls<'a>, ParseError>)
    ensures
        match r {
            Ok(decls) => decls@.wf() && spec_parse_decls(
                filename@,
                text@,
                imports_view(auto_namespace_map@),
                duplicate_policy,
                *tree,
            ) == Ok::<DeclsView, ParseError>(decls@),
            Err(e) => spec_parse_decls(
                filename@,
                text@,
                imports_view(auto_namespace_map@),
                duplicate_policy,
                *tree,
            ) == Err::<DeclsView, ParseError>(e),
        },
{
    let mut session = DirectDeclSmartConstructors::new(
        text,
        filename,
        arena,
        auto_namespace_map,
        duplicate_policy,
    );
    match session.reduce_tree(tree) {
        Ok(_) => Ok(session.state.decls),
        Err(e) => Err(e),
    }
}

/// The declarations of one file in the order in which the file makes them,
/// and the mode of the file, if the file said it.
pub fn parse_decl_lists<'a>(
    filename: RelativePath<'a>,
    text: &'a [u8],
    auto_namespace_map: &'a Vec<(&'a str, &'a str)>,
    arena: &'a Bump,
    tree: &Syntax<Token<'a>, ()>,
    duplicate_policy: DuplicatePolicy,
) -> (r: Result<(InProgressDecls<'a>, Option<Mode>), ParseError>)
    ensures
        match r {
            Ok((decls, mode)) => decls@.wf() && spec_parse_decl_lists(
                filename@,
                text@,
                imports_view(auto_namespace_map@),
                duplicate_policy,
                *tree,
            ) == Ok::<(DeclsView, Option<Mode>), ParseError>((decls@, mode)),
            Err(e) => spec_parse_decl_lists(
                filename@,
                text@,
                imports_view(auto_namespace_map@),
                duplicate_policy,
                *tree,
            ) == Err::<(DeclsView, Option<Mode>), ParseError>(e),
        },
{
    let mut session = DirectDeclSmartConstructors::new(
        text,
        filename,
        arena,
        auto_namespace_map,
        duplicate_policy,
    );
    match session.reduce_tree(tree) {
        Ok(_) => {
            let mode = match session.state.file_mode_builder {
                FileModeBuilder::Resolved(mode) => Some(mode),
                _ => None,
            };
            Ok((session.state.decls, mode))
        },
        Err(e) => Err(e),
    }
}

} // verus!
