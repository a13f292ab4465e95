//! The tables of declarations that a pass fills: for each kind of
//! declaration, the names in the order in which they were first declared,
//! each with the declaration that stands for it.

use crate::error::ParseError;
use crate::shallow_decl_defs::{ShallowClass, ShallowClassView};
use crate::text::str_eq;
use crate::typing_defs::{FunElt, FunEltView, Ty, TyView, TypedefType, TypedefTypeView};
use vstd::prelude::*;

verus! {

/// What becomes of a declaration whose name is declared already.
#[derive(Clone, Copy, Debug, PartialEq, Eq, Structural)]
pub enum DuplicatePolicy {
    /// The later declaration takes the place of the earlier one.
    Overwrite,
    /// The pass fails.
    Reject,
}

/// The index of the first entry at or after `from` whose key is `key`.
pub open spec fn find_key(keys: Seq<Seq<char>>, key: Seq<char>, from: nat) -> Option<int>
    decreases keys.len() - from,
{
    if from >= keys.len() {
        None
    } else if keys[from as int] == key {
        Some(from as int)
    } else {
        find_key(keys, key, from + 1)
    }
}

pub open spec fn keys_of<V>(table: Seq<(Seq<char>, V)>) -> Seq<Seq<char>> {
    table.map_values(|e: (Seq<char>, V)| e.0)
}

/// No key occurs twice.
pub open spec fn unique_keys<V>(table: Seq<(Seq<char>, V)>) -> bool {
    forall|i: int, j: int|
        0 <= i < j < table.len() ==> (#[trigger] table[i]).0 != (#[trigger] table[j]).0
}

/// The table with `value` under `key`: in the place of the entry that `key`
/// has, or else behind the last entry.
pub open spec fn insert<V>(table: Seq<(Seq<char>, V)>, key: Seq<char>, value: V) -> Seq<
    (Seq<char>, V),
> {
    match find_key(keys_of(table), key, 0) {
        Some(i) => table.update(i, (key, value)),
        None => table.push((key, value)),
    }
}

/// The table after the declaration of `key` under the policy: the table as it
/// was, and a failure, where the policy rejects a second declaration.
pub open spec fn declare<V>(
    table: Seq<(Seq<char>, V)>,
    key: Seq<char>,
    value: V,
    policy: DuplicatePolicy,
) -> (Seq<(Seq<char>, V)>, Result<(), ParseError>) {
    if policy == DuplicatePolicy::Reject && find_key(keys_of(table), key, 0) is Some {
        (table, Err(ParseError::DuplicateDeclaration))
    } else {
        (insert(table, key, value), Ok(()))
    }
}

/// The value that `key` has in the table.
pub open spec fn get<V>(table: Seq<(Seq<char>, V)>, key: Seq<char>) -> Option<V> {
    match find_key(keys_of(table), key, 0) {
        Some(i) => Some(table[i].1),
        None => None,
    }
}

/// What `find_key` returns is the first index of the key.
pub proof fn lemma_find_key(keys: Seq<Seq<char>>, key: Seq<char>, from: nat)
    ensures
        match find_key(keys, key, from) {
            Some(i) => from <= i < keys.len() && keys[i] == key && forall|j: int|
                from <= j < i ==> keys[j] != key,
            None => forall|j: int| from <= j < keys.len() ==> keys[j] != key,
        },
    decreases keys.len() - from,
{
    if from < keys.len() && keys[from as int] != key {
        lemma_find_key(keys, key, from + 1);
    }
}

/// The first index of a key is what `find_key` returns.
pub proof fn lemma_find_key_is(keys: Seq<Seq<char>>, key: Seq<char>, from: nat, i: int)
    requires
        from <= i < keys.len(),
        keys[i] == key,
        forall|j: int| from <= j < i ==> keys[j] != key,
    ensures
        find_key(keys, key, from) == Some(i),
    decreases i - from,
{
    if from < i {
        lemma_find_key_is(keys, key, from + 1, i);
    }
}

pub proof fn lemma_find_key_none(keys: Seq<Seq<char>>, key: Seq<char>, from: nat)
    requires
        forall|j: int| from <= j < keys.len() ==> keys[j] != key,
    ensures
        find_key(keys, key, from) is None,
    decreases keys.len() - from,
{
    if from < keys.len() {
        lemma_find_key_none(keys, key, from + 1);
    }
}

/// A table without repeated keys stays so under `insert`; the key then has
/// the value, and every other key has what it had.
pub proof fn lemma_insert<V>(table: Seq<(Seq<char>, V)>, key: Seq<char>, value: V)
    requires
        unique_keys(table),
    ensures
        unique_keys(insert(table, key, value)),
        get(insert(table, key, value), key) == Some(value),
        forall|other: Seq<char>|
            other != key ==> get(insert(table, key, value), other) == get(table, other),
        find_key(keys_of(table), key, 0) is Some ==> insert(table, key, value).len()
            == table.len(),
        find_key(keys_of(table), key, 0) is None ==> insert(table, key, value).len()
            == table.len() + 1,
{
    let keys = keys_of(table);
    let after = insert(table, key, value);
    let keys_after = keys_of(after);
    lemma_find_key(keys, key, 0);
    match find_key(keys, key, 0) {
        Some(i) => {
            assert(keys_after =~= keys);
            assert forall|a: int, b: int| 0 <= a < b < after.len() implies (#[trigger] after[a]).0
                != (#[trigger] after[b]).0 by {
                assert(after[a].0 == table[a].0);
                assert(after[b].0 == table[b].0);
            }
            assert(get(after, key) == Some(value));
            assert forall|other: Seq<char>| other != key implies get(after, other) == get(
                table,
                other,
            ) by {
                lemma_find_key(keys, other, 0);
            }
        },
        None => {
            assert(keys_after =~= keys.push(key));
            assert forall|a: int, b: int| 0 <= a < b < after.len() implies (#[trigger] after[a]).0
                != (#[trigger] after[b]).0 by {
                if b < table.len() {
                    assert(after[a] == table[a]);
                    assert(after[b] == table[b]);
                } else {
                    assert(after[a] == table[a]);
                    assert(keys[a] == table[a].0);
                }
            }
            lemma_find_key_is(keys_after, key, 0, table.len() as int);
            assert forall|other: Seq<char>| other != key implies get(after, other) == get(
                table,
                other,
            ) by {
                lemma_find_key(keys, other, 0);
                match find_key(keys, other, 0) {
                    Some(j) => {
                        lemma_find_key_is(keys_after, other, 0, j);
                    },
                    None => {
                        lemma_find_key_none(keys_after, other, 0);
                    },
                }
            }
        },
    }
}

/// The keys of a table as it is held, each by its view.
pub open spec fn held_keys<V>(table: Seq<(&str, V)>) -> Seq<Seq<char>> {
    table.map_values(|e: (&str, V)| e.0@)
}

/// The index in the table of the entry for `key`.
pub fn table_find<'a, V>(table: &Vec<(&'a str, V)>, key: &str) -> (r: Option<usize>)
    ensures
        match r {
            Some(i) => find_key(held_keys(table@), key@, 0) == Some(i as int) && i < table.len(),
            None => find_key(held_keys(table@), key@, 0) is None,
        },
{
    let mut i: usize = 0;
    while i < table.len()
        invariant
            i <= table.len(),
            forall|j: int| 0 <= j < i ==> held_keys(table@)[j] != key@,
        decreases table.len() - i,
    {
        if str_eq(table[i].0, key) {
            proof {
                lemma_find_key_is(held_keys(table@), key@, 0, i as int);
            }
            return Some(i);
        }
        i = i + 1;
    }
    proof {
        lemma_find_key_none(held_keys(table@), key@, 0);
    }
    None
}

/// Declares `key` in the table under the policy.
pub fn table_declare<'a, V>(
    table: &mut Vec<(&'a str, V)>,
    key: &'a str,
    value: V,
    policy: DuplicatePolicy,
) -> (r: Result<(), ParseError>)
    ensures
        match find_key(held_keys(old(table)@), key@, 0) {
            Some(i) => if policy == DuplicatePolicy::Reject {
                r == Err::<(), ParseError>(ParseError::DuplicateDeclaration) && final(table)@
                    == old(table)@
            } else {
                r == Ok::<(), ParseError>(()) && 0 <= i < old(table)@.len() && final(table)@ == old(
                    table,
                )@.update(
                    i,
                    (key, value),
                )
            },
            None => r == Ok::<(), ParseError>(()) && final(table)@ == old(table)@.push(
                (key, value),
            ),
        },
{
    match table_find(table, key) {
        Some(i) => {
            match policy {
                DuplicatePolicy::Reject => Err(ParseError::DuplicateDeclaration),
                DuplicatePolicy::Overwrite => {
                    table.set(i, (key, value));
                    Ok(())
                },
            }
        },
        None => {
            table.push((key, value));
            Ok(())
        },
    }
}

pub open spec fn classes_view(table: Seq<(&str, ShallowClass)>) -> Seq<
    (Seq<char>, ShallowClassView),
> {
    table.map_values(|e: (&str, ShallowClass)| (e.0@, e.1@))
}

pub open spec fn funs_view(table: Seq<(&str, FunElt)>) -> Seq<(Seq<char>, FunEltView)> {
    table.map_values(|e: (&str, FunElt)| (e.0@, e.1@))
}

pub open spec fn typedefs_view(table: Seq<(&str, TypedefType)>) -> Seq<
    (Seq<char>, TypedefTypeView),
> {
    table.map_values(|e: (&str, TypedefType)| (e.0@, e.1@))
}

pub open spec fn consts_table_view(table: Seq<(&str, Ty)>) -> Seq<(Seq<char>, TyView)> {
    table.map_values(|e: (&str, Ty)| (e.0@, e.1@))
}

/// The declarations found so far.
pub struct InProgressDecls<'a> {
    pub classes: Vec<(&'a str, ShallowClass<'a>)>,
    pub funs: Vec<(&'a str, FunElt<'a>)>,
    pub typedefs: Vec<(&'a str, TypedefType<'a>)>,
    pub consts: Vec<(&'a str, Ty<'a>)>,
}

pub struct DeclsView {
    pub classes: Seq<(Seq<char>, ShallowClassView)>,
    pub funs: Seq<(Seq<char>, FunEltView)>,
    pub typedefs: Seq<(Seq<char>, TypedefTypeView)>,
    pub consts: Seq<(Seq<char>, TyView)>,
}

impl DeclsView {
    pub open spec fn empty() -> DeclsView {
        DeclsView {
            classes: Seq::empty(),
            funs: Seq::empty(),
            typedefs: Seq::empty(),
            consts: Seq::empty(),
        }
    }

    /// In each table every name occurs once.
    pub open spec fn wf(self) -> bool {
        &&& unique_keys(self.classes)
        &&& unique_keys(self.funs)
        &&& unique_keys(self.typedefs)
        &&& unique_keys(self.consts)
    }
}

impl<'a> View for InProgressDecls<'a> {
    type V = DeclsView;

    open spec fn view(&self) -> DeclsView {
        DeclsView {
            classes: classes_view(self.classes@),
            funs: funs_view(self.funs@),
            typedefs: typedefs_view(self.typedefs@),
            consts: consts_table_view(self.consts@),
        }
    }
}

/// The tables with nothing declared.
pub fn empty_decls<'a>() -> (r: InProgressDecls<'a>)
    ensures
        r@ == DeclsView::empty(),
        r@.wf(),
{
    let r = InProgressDecls {
        classes: Vec::new(),
        funs: Vec::new(),
        typedefs: Vec::new(),
        consts: Vec::new(),
    };
    proof {
        assert(r@.classes =~= Seq::empty());
        assert(r@.funs =~= Seq::empty());
        assert(r@.typedefs =~= Seq::empty());
        assert(r@.consts =~= Seq::empty());
    }
    r
}

impl<'a> InProgressDecls<'a> {
    pub fn add_class(&mut self, name: &'a str, cls: ShallowClass<'a>, policy: DuplicatePolicy) -> (r:
        Result<(), ParseError>)
        requires
            old(self)@.wf(),
        ensures
            final(self)@.wf(),
            final(self)@ == (DeclsView {
                classes: declare(old(self)@.classes, name@, cls@, policy).0,
                ..old(self)@
            }),
            r == declare(old(self)@.classes, name@, cls@, policy).1,
    {
        proof {
            assert(keys_of(self@.classes) =~= held_keys(self.classes@));
            lemma_insert(self@.classes, name@, cls@);
        }
        let r = table_declare(&mut self.classes, name, cls, policy);
        proof {
            assert(self@.classes =~= declare(old(self)@.classes, name@, cls@, policy).0);
        }
        r
    }

    pub fn add_fun(&mut self, name: &'a str, fun: FunElt<'a>, policy: DuplicatePolicy) -> (r:
        Result<(), ParseError>)
        requires
            old(self)@.wf(),
        ensures
            final(self)@.wf(),
            final(self)@ == (DeclsView {
                funs: declare(old(self)@.funs, name@, fun@, policy).0,
                ..old(self)@
            }),
            r == declare(old(self)@.funs, name@, fun@, policy).1,
    {
        proof {
            assert(keys_of(self@.funs) =~= held_keys(self.funs@));
            lemma_insert(self@.funs, name@, fun@);
        }
        let r = table_declare(&mut self.funs, name, fun, policy);
        proof {
            assert(self@.funs =~= declare(old(self)@.funs, name@, fun@, policy).0);
        }
        r
    }

    pub fn add_typedef(
        &mut self,
        name: &'a str,
        typedef: TypedefType<'a>,
        policy: DuplicatePolicy,
    ) -> (r: Result<(), ParseError>)
        requires
            old(self)@.wf(),
        ensures
            final(self)@.wf(),
            final(self)@ == (DeclsView {
                typedefs: declare(old(self)@.typedefs, name@, typedef@, policy).0,
                ..old(self)@
            }),
            r == declare(old(self)@.typedefs, name@, typedef@, policy).1,
    {
        proof {
            assert(keys_of(self@.typedefs) =~= held_keys(self.typedefs@));
            lemma_insert(self@.typedefs, name@, typedef@);
        }
        let r = table_declare(&mut self.typedefs, name, typedef, policy);
        proof {
            assert(self@.typedefs =~= declare(old(self)@.typedefs, name@, typedef@, policy).0);
        }
        r
    }

    pub fn add_const(&mut self, name: &'a str, ty: Ty<'a>, policy: DuplicatePolicy) -> (r: Result<
        (),
        ParseError,
    >)
        requires
            old(self)@.wf(),
        ensures
            final(self)@.wf(),
            final(self)@ == (DeclsView {
                consts: declare(old(self)@.consts, name@, ty@, policy).0,
                ..old(self)@
            }),
            r == declare(old(self)@.consts, name@, ty@, policy).1,
    {
        proof {
            assert(keys_of(self@.consts) =~= held_keys(self.consts@));
            lemma_insert(self@.consts, name@, ty@);
        }
        let r = table_declare(&mut self.consts, name, ty, policy);
        proof {
            assert(self@.consts =~= declare(old(self)@.consts, name@, ty@, policy).0);
        }
        r
    }
}

} // verus!
