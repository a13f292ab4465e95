//! Two helpers for fully qualified names.

use crate::text::{starts_with, str_starts_with, SEPARATOR};
use vstd::prelude::*;
use vstd::string::*;

verus! {

/// `s` with a leading separator, unless it has one.
pub open spec fn spec_add_ns(s: Seq<char>) -> Seq<char> {
    if starts_with(s, SEPARATOR) {
        s
    } else {
        seq![SEPARATOR] + s
    }
}

/// `s` without its leading separator, if it has one.
pub open spec fn spec_strip_ns(s: Seq<char>) -> Seq<char> {
    if starts_with(s, SEPARATOR) {
        s.drop_first()
    } else {
        s
    }
}

/// `A\B\C` becomes `\A\B\C`; a name that begins with the separator is
/// returned as it is.
pub fn add_ns(s: &str) -> (r: String)
    ensures
        r@ == spec_add_ns(s@),
{
    if !str_starts_with(s, SEPARATOR) {
        let mut new_str = String::from_str("\\");
        proof {
            reveal_strlit("\\");
            assert("\\"@ =~= seq![SEPARATOR]);
        }
        new_str.append(s);
        new_str
    } else {
        String::from_str(s)
    }
}

/// `\A\B\C` becomes `A\B\C`; a name that does not begin with the separator is
/// returned as it is.
pub fn strip_ns(s: &str) -> (r: &str)
    ensures
        r@ == spec_strip_ns(s@),
{
    if s.is_empty() || !str_starts_with(s, SEPARATOR) {
        s
    } else {
        let n = s.unicode_len();
        let r = s.substring_char(1, n);
        assert(r@ =~= s@.drop_first());
        r
    }
}

/// Adding the separator and stripping it again gives the stripped name.
pub proof fn lemma_strip_add_ns(s: Seq<char>)
    ensures
        spec_strip_ns(spec_add_ns(s)) == spec_strip_ns(s),
        spec_add_ns(spec_add_ns(s)) == spec_add_ns(s),
{
    if !starts_with(s, SEPARATOR) {
        assert((seq![SEPARATOR] + s).drop_first() =~= s);
    }
}

} // verus!
