//! The arena that owns everything one session allocates.
//!
//! All nodes, types and declarations of a session are placed in one
//! `bumpalo::Bump` and are handed around as shared references, so that they can
//! be copied freely. Lists are `Vec`s moved into the arena; the arena runs no
//! destructors, so a list's buffer lives as long as the process. Strings are
//! built in the arena, in a `bumpalo::collections::String`.

use bumpalo::Bump;
use vstd::prelude::*;

verus! {

/// `bumpalo::Bump`, the arena: a value that is handed on and never looked
/// into.
#[verifier::external_type_specification]
#[verifier::external_body]
pub struct ExBump<const MIN_ALIGN: usize>(Bump<MIN_ALIGN>);

/// `bumpalo::Bump::alloc`: moves `val` into the arena. The reference that
/// comes back points to a value equal to `val`. The call fails only where
/// memory runs out.
#[verifier::external_body]
pub(crate) fn arena_alloc<'a, T>(arena: &'a Bump, val: T) -> (r: &'a T)
    ensures
        *r == val,
{
    arena.alloc(val)
}

/// `bumpalo::collections::String`, a string under construction in the
/// arena. What it holds is known only through `arena_string_text`.
#[verifier::external_type_specification]
#[verifier::external_body]
pub struct ExArenaString<'bump>(bumpalo::collections::String<'bump>);

/// The characters that a string under construction in the arena holds.
pub uninterp spec fn arena_string_text(s: bumpalo::collections::String) -> Seq<char>;

/// `bumpalo::collections::String::new_in`: a string in the arena that holds
/// no character.
#[verifier::external_body]
pub(crate) fn arena_string_new<'a>(arena: &'a Bump) -> (r: bumpalo::collections::String<'a>)
    ensures
        arena_string_text(r) == Seq::<char>::empty(),
{
    bumpalo::collections::String::new_in(arena)
}

/// `bumpalo::collections::String::push_str`: the string holds what it held,
/// followed by the characters of `text`.
#[verifier::external_body]
pub(crate) fn arena_string_push_str(s: &mut bumpalo::collections::String, text: &str)
    ensures
        arena_string_text(*final(s)) == arena_string_text(*old(s)) + text@,
{
    s.push_str(text)
}

/// `bumpalo::collections::String::into_bump_str`: the characters of the
/// string, as a string slice that lives as long as the arena.
#[verifier::external_body]
pub(crate) fn arena_string_into_str<'a>(s: bumpalo::collections::String<'a>) -> (r: &'a str)
    ensures
        r@ == arena_string_text(s),
{
    s.into_bump_str()
}

} // verus!
