//! Operations on names and source text, with their meaning on sequences of
//! characters.

use crate::arena::{arena_string_into_str, arena_string_new, arena_string_push_str};
use bumpalo::Bump;
use vstd::prelude::*;
use vstd::string::*;

verus! {

/// The namespace separator.
pub const SEPARATOR: char = '\\';

/// What `char::is_whitespace` returns for a character.
pub uninterp spec fn is_whitespace(c: char) -> bool;

/// `char::is_whitespace`: whether `c` has the Unicode property White_Space.
#[verifier::external_body]
pub(crate) fn char_is_whitespace(c: char) -> (r: bool)
    ensures
        r == is_whitespace(c),
{
    c.is_whitespace()
}

/// `str`'s `==`: true exactly when both strings hold the same characters.
#[verifier::external_body]
pub(crate) fn str_eq(a: &str, b: &str) -> (r: bool)
    ensures
        r == (a@ == b@),
{
    a == b
}

/// Whether `s` begins with the character `c`.
pub open spec fn starts_with(s: Seq<char>, c: char) -> bool {
    s.len() > 0 && s[0] == c
}

/// The number of leading characters of `s` that equal `c`.
pub open spec fn leading_run(s: Seq<char>, c: char) -> nat
    decreases s.len(),
{
    if s.len() > 0 && s[0] == c {
        1 + leading_run(s.drop_first(), c)
    } else {
        0
    }
}

/// `s` without its leading run of `c`.
pub open spec fn trim_start_matches(s: Seq<char>, c: char) -> Seq<char> {
    s.skip(leading_run(s, c) as int)
}

/// The number of leading whitespace characters of `s`.
pub open spec fn leading_whitespace(s: Seq<char>) -> nat
    decreases s.len(),
{
    if s.len() > 0 && is_whitespace(s[0]) {
        1 + leading_whitespace(s.drop_first())
    } else {
        0
    }
}

/// The number of trailing whitespace characters of `s`.
pub open spec fn trailing_whitespace(s: Seq<char>) -> nat
    decreases s.len(),
{
    if s.len() > 0 && is_whitespace(s.last()) {
        1 + trailing_whitespace(s.drop_last())
    } else {
        0
    }
}

/// `s` without leading and trailing whitespace.
pub open spec fn trim(s: Seq<char>) -> Seq<char> {
    let t = s.skip(leading_whitespace(s) as int);
    t.take(t.len() - trailing_whitespace(t))
}

/// The length of the part of `s` that follows its last `c`; all of `s` where
/// it holds no `c`.
pub open spec fn tail_len(s: Seq<char>, c: char) -> nat
    decreases s.len(),
{
    if s.len() > 0 && s.last() != c {
        1 + tail_len(s.drop_last(), c)
    } else {
        0
    }
}

/// The part of `s` that follows its last `c`.
pub open spec fn last_segment(s: Seq<char>, c: char) -> Seq<char> {
    s.skip(s.len() - tail_len(s, c))
}

/// The last segment of `s` where one trailing `c` ends a segment rather than
/// starting an empty one. Meaningful for a non-empty `s`.
pub open spec fn last_terminated_segment(s: Seq<char>, c: char) -> Seq<char> {
    if s.len() > 0 && s.last() == c {
        last_segment(s.drop_last(), c)
    } else {
        last_segment(s, c)
    }
}

/// The code of `c` with the upper-case ASCII letters mapped to lower case.
pub open spec fn ascii_lower(c: char) -> int {
    if 'A' <= c && c <= 'Z' {
        c as int + 32
    } else {
        c as int
    }
}

/// Equality of two sequences up to the case of ASCII letters.
pub open spec fn eq_ignore_ascii_case(a: Seq<char>, b: Seq<char>) -> bool {
    a.len() == b.len() && forall|i: int| 0 <= i < a.len() ==> ascii_lower(#[trigger] a[i]) == ascii_lower(b[i])
}

/// The leading run of `c` consists of `c`, and stops at the first other
/// character.
pub proof fn lemma_leading_run(s: Seq<char>, c: char, n: nat)
    requires
        n <= s.len(),
        forall|i: int| 0 <= i < n ==> s[i] == c,
        n < s.len() ==> s[n as int] != c,
    ensures
        leading_run(s, c) == n,
    decreases n,
{
    if n > 0 {
        let t = s.drop_first();
        assert forall|i: int| 0 <= i < n - 1 implies t[i] == c by {
            assert(t[i] == s[i + 1]);
        }
        if n - 1 < t.len() {
            assert(t[n - 1] == s[n as int]);
        }
        lemma_leading_run(t, c, (n - 1) as nat);
    }
}

pub proof fn lemma_leading_whitespace(s: Seq<char>, n: nat)
    requires
        n <= s.len(),
        forall|i: int| 0 <= i < n ==> is_whitespace(s[i]),
        n < s.len() ==> !is_whitespace(s[n as int]),
    ensures
        leading_whitespace(s) == n,
    decreases n,
{
    if n > 0 {
        let t = s.drop_first();
        assert forall|i: int| 0 <= i < n - 1 implies is_whitespace(t[i]) by {
            assert(t[i] == s[i + 1]);
        }
        if n - 1 < t.len() {
            assert(t[n - 1] == s[n as int]);
        }
        lemma_leading_whitespace(t, (n - 1) as nat);
    }
}

pub proof fn lemma_trailing_whitespace(s: Seq<char>, n: nat)
    requires
        n <= s.len(),
        forall|i: int| s.len() - n <= i < s.len() ==> is_whitespace(s[i]),
        n < s.len() ==> !is_whitespace(s[s.len() - n - 1]),
    ensures
        trailing_whitespace(s) == n,
    decreases n,
{
    if n > 0 {
        let t = s.drop_last();
        assert forall|i: int| t.len() - (n - 1) <= i < t.len() implies is_whitespace(t[i]) by {
            assert(t[i] == s[i]);
        }
        if n - 1 < t.len() {
            assert(t[t.len() - (n - 1) - 1] == s[s.len() - n - 1]);
        }
        lemma_trailing_whitespace(t, (n - 1) as nat);
    }
}

pub proof fn lemma_tail_len(s: Seq<char>, c: char, n: nat)
    requires
        n <= s.len(),
        forall|i: int| s.len() - n <= i < s.len() ==> s[i] != c,
        n < s.len() ==> s[s.len() - n - 1] == c,
    ensures
        tail_len(s, c) == n,
    decreases n,
{
    if n > 0 {
        let t = s.drop_last();
        assert forall|i: int| t.len() - (n - 1) <= i < t.len() implies t[i] != c by {
            assert(t[i] == s[i]);
        }
        if n - 1 < t.len() {
            assert(t[t.len() - (n - 1) - 1] == s[s.len() - n - 1]);
        }
        lemma_tail_len(t, c, (n - 1) as nat);
    }
}

/// Whether `s` begins with `c`.
pub fn str_starts_with(s: &str, c: char) -> (r: bool)
    ensures
        r == starts_with(s@, c),
{
    !s.is_empty() && s.get_char(0) == c
}

/// `a` followed by `b`, placed in the arena.
pub fn concat<'a>(arena: &'a Bump, a: &str, b: &str) -> (r: &'a str)
    ensures
        r@ == a@ + b@,
{
    let mut s = arena_string_new(arena);
    arena_string_push_str(&mut s, a);
    arena_string_push_str(&mut s, b);
    assert(Seq::<char>::empty() + a@ + b@ =~= a@ + b@);
    arena_string_into_str(s)
}

/// `a`, `b` and `c` in a row, placed in the arena.
pub fn concat3<'a>(arena: &'a Bump, a: &str, b: &str, c: &str) -> (r: &'a str)
    ensures
        r@ == a@ + b@ + c@,
{
    let mut s = arena_string_new(arena);
    arena_string_push_str(&mut s, a);
    arena_string_push_str(&mut s, b);
    arena_string_push_str(&mut s, c);
    assert(Seq::<char>::empty() + a@ + b@ + c@ =~= a@ + b@ + c@);
    arena_string_into_str(s)
}

/// `s` without its leading run of `c`.
pub fn str_trim_start_matches<'a>(s: &'a str, c: char) -> (r: &'a str)
    ensures
        r@ == trim_start_matches(s@, c),
{
    let n = s.unicode_len();
    let mut i: usize = 0;
    while i < n && s.get_char(i) == c
        invariant
            n == s@.len(),
            i <= n,
            forall|j: int| 0 <= j < i ==> s@[j] == c,
        decreases n - i,
    {
        i = i + 1;
    }
    proof {
        lemma_leading_run(s@, c, i as nat);
    }
    s.substring_char(i, n)
}

/// `s` without leading and trailing whitespace.
pub fn str_trim<'a>(s: &'a str) -> (r: &'a str)
    ensures
        r@ == trim(s@),
{
    let n = s.unicode_len();
    let mut i: usize = 0;
    while i < n && char_is_whitespace(s.get_char(i))
        invariant
            n == s@.len(),
            i <= n,
            forall|j: int| 0 <= j < i ==> is_whitespace(s@[j]),
        decreases n - i,
    {
        i = i + 1;
    }
    let mut k: usize = n;
    while k > i && char_is_whitespace(s.get_char(k - 1))
        invariant
            n == s@.len(),
            i <= k <= n,
            forall|j: int| k <= j < n ==> is_whitespace(s@[j]),
        decreases k,
    {
        k = k - 1;
    }
    proof {
        lemma_leading_whitespace(s@, i as nat);
        let t = s@.skip(i as int);
        assert forall|j: int| t.len() - (n - k) <= j < t.len() implies is_whitespace(t[j]) by {
            assert(t[j] == s@[j + i]);
        }
        if n - k < t.len() {
            assert(t[t.len() - (n - k) - 1] == s@[k - 1]);
        }
        lemma_trailing_whitespace(t, (n - k) as nat);
        assert(t.take(t.len() - (n - k)) =~= s@.subrange(i as int, k as int));
    }
    s.substring_char(i, k)
}

/// The part of `s` that follows its last `c`.
pub fn str_last_segment<'a>(s: &'a str, c: char) -> (r: &'a str)
    ensures
        r@ == last_segment(s@, c),
{
    let n = s.unicode_len();
    let mut k: usize = n;
    while k > 0 && s.get_char(k - 1) != c
        invariant
            n == s@.len(),
            k <= n,
            forall|j: int| k <= j < n ==> s@[j] != c,
        decreases k,
    {
        k = k - 1;
    }
    proof {
        lemma_tail_len(s@, c, (n - k) as nat);
        assert(s@.subrange(k as int, n as int) =~= s@.skip(s@.len() - (n - k)));
    }
    s.substring_char(k, n)
}

/// The last segment of `s`, where one trailing `c` ends a segment.
pub fn str_last_terminated_segment<'a>(s: &'a str, c: char) -> (r: &'a str)
    ensures
        r@ == last_terminated_segment(s@, c),
{
    let n = s.unicode_len();
    if n > 0 && s.get_char(n - 1) == c {
        let t = s.substring_char(0, n - 1);
        assert(t@ =~= s@.drop_last());
        str_last_segment(t, c)
    } else {
        str_last_segment(s, c)
    }
}

/// The code of `c` with the upper-case ASCII letters mapped to lower case.
pub fn char_ascii_lower(c: char) -> (r: u32)
    ensures
        r == ascii_lower(c),
{
    let code: u32 = c as u32;
    if 'A' <= c && c <= 'Z' {
        code + 32
    } else {
        code
    }
}

/// Equality of two strings up to the case of ASCII letters.
pub fn str_eq_ignore_ascii_case(a: &str, b: &str) -> (r: bool)
    ensures
        r == eq_ignore_ascii_case(a@, b@),
{
    let n = a.unicode_len();
    if n != b.unicode_len() {
        return false;
    }
    let mut i: usize = 0;
    while i < n
        invariant
            n == a@.len(),
            n == b@.len(),
            i <= n,
            forall|j: int| 0 <= j < i ==> ascii_lower(#[trigger] a@[j]) == ascii_lower(b@[j]),
        decreases n - i,
    {
        if char_ascii_lower(a.get_char(i)) != char_ascii_lower(b.get_char(i)) {
            return false;
        }
        i = i + 1;
    }
    true
}

/// Whether the byte `b` occurs in `bytes`.
pub fn bytes_contain(bytes: &[u8], b: u8) -> (r: bool)
    ensures
        r == bytes@.contains(b),
{
    let mut i: usize = 0;
    while i < bytes.len()
        invariant
            i <= bytes.len(),
            forall|j: int| 0 <= j < i ==> bytes@[j] != b,
        decreases bytes.len() - i,
    {
        if bytes[i] == b {
            return true;
        }
        i = i + 1;
    }
    false
}

} // verus!
