//! The stack of namespaces that is open at a point of the traversal, with the
//! imports that each of them has seen.

use crate::arena::arena_alloc;
use crate::error::ParseError;
use crate::text::{
    concat, concat3, last_terminated_segment, starts_with, str_eq, str_last_terminated_segment,
    str_starts_with, str_trim_start_matches, trim_start_matches, SEPARATOR,
};
use bumpalo::Bump;
use vstd::prelude::*;

verus! {

/// A table from short names to the names that they stand for.
pub type Imports = Seq<(Seq<char>, Seq<char>)>;

pub open spec fn imports_view(imports: Seq<(&str, &str)>) -> Imports {
    imports.map_values(|e: (&str, &str)| (e.0@, e.1@))
}

/// The target of the latest of the first `n` imports whose alias is `alias`.
pub open spec fn lookup_latest(imports: Imports, alias: Seq<char>, n: nat) -> Option<Seq<char>>
    decreases n,
{
    if n == 0 || n > imports.len() {
        None
    } else if imports[n - 1].0 == alias {
        Some(imports[n - 1].1)
    } else {
        lookup_latest(imports, alias, (n - 1) as nat)
    }
}

/// The target of the earliest import at or after `from` whose alias is
/// `alias`.
pub open spec fn lookup_earliest(imports: Imports, alias: Seq<char>, from: nat) -> Option<
    Seq<char>,
>
    decreases imports.len() - from,
{
    if from >= imports.len() {
        None
    } else if imports[from as int].0 == alias {
        Some(imports[from as int].1)
    } else {
        lookup_earliest(imports, alias, from + 1)
    }
}

/// The global namespace.
pub open spec fn global_namespace() -> Seq<char> {
    seq![SEPARATOR]
}

/// `name` with a leading separator, whether or not it has one already.
pub open spec fn with_leading_separator(name: Seq<char>) -> Seq<char> {
    if starts_with(name, SEPARATOR) {
        name
    } else {
        seq![SEPARATOR] + name
    }
}

/// One open namespace: the prefix that qualifies the names declared in it,
/// its imports, and whether a statement `namespace N;` opened it, which no
/// closing brace will end.
#[derive(Clone, Copy, Debug)]
pub struct NamespaceInfo<'a> {
    pub name: &'a str,
    pub imports: &'a Vec<(&'a str, &'a str)>,
    pub statement_level: bool,
}

pub struct NamespaceInfoView {
    pub name: Seq<char>,
    pub imports: Imports,
    pub statement_level: bool,
}

impl<'a> View for NamespaceInfo<'a> {
    type V = NamespaceInfoView;

    open spec fn view(&self) -> NamespaceInfoView {
        NamespaceInfoView {
            name: self.name@,
            imports: imports_view(self.imports@),
            statement_level: self.statement_level,
        }
    }
}

pub open spec fn frames_view(frames: Seq<NamespaceInfo>) -> Seq<NamespaceInfoView> {
    frames.map_values(|f: NamespaceInfo| f@)
}

/// The target that the innermost of the first `n` frames gives for `alias`.
pub open spec fn lookup_frames(frames: Seq<NamespaceInfoView>, alias: Seq<char>, n: nat) -> Option<
    Seq<char>,
>
    decreases n,
{
    if n == 0 || n > frames.len() {
        None
    } else {
        match lookup_latest(frames[n - 1].imports, alias, frames[n - 1].imports.len()) {
            Some(target) => Some(target),
            None => lookup_frames(frames, alias, (n - 1) as nat),
        }
    }
}

pub struct NamespaceBuilderView {
    pub stack: Seq<NamespaceInfoView>,
    pub auto_imports: Imports,
}

impl NamespaceBuilderView {
    /// The stack is never empty, its bottom frame is the global namespace,
    /// and every prefix begins with the separator.
    pub open spec fn wf(self) -> bool {
        &&& self.stack.len() >= 1
        &&& self.stack[0].name == global_namespace()
        &&& !self.stack[0].statement_level
        &&& forall|i: int|
            0 <= i < self.stack.len() ==> starts_with(#[trigger] self.stack[i].name, SEPARATOR)
    }

    pub open spec fn initial(auto_imports: Imports) -> NamespaceBuilderView {
        NamespaceBuilderView {
            stack: seq![
                NamespaceInfoView {
                    name: global_namespace(),
                    imports: Seq::empty(),
                    statement_level: false,
                },
            ],
            auto_imports,
        }
    }

    /// The prefix of the innermost namespace.
    pub open spec fn current_namespace(self) -> Seq<char> {
        if self.stack.len() > 0 {
            self.stack.last().name
        } else {
            global_namespace()
        }
    }

    /// Whether the innermost namespace was opened by a statement, so that the
    /// next namespace takes its place.
    pub open spec fn replaces_top(self) -> bool {
        self.stack.len() > 1 && self.stack.last().statement_level
    }

    /// The state after the header `namespace name`. A frame is pushed, unless
    /// the innermost namespace was opened by a statement: then the prefix of
    /// that frame is replaced. Without a name the new frame has the prefix
    /// of the one below it.
    pub open spec fn push_namespace(self, name: Option<Seq<char>>) -> NamespaceBuilderView {
        let below = if self.replaces_top() {
            self.stack.drop_last()
        } else {
            self.stack
        };
        let current = if below.len() > 0 {
            below.last().name
        } else {
            global_namespace()
        };
        let frame = NamespaceInfoView {
            name: match name {
                Some(name) => current + name + seq![SEPARATOR],
                None => current,
            },
            imports: if self.replaces_top() {
                self.stack.last().imports
            } else {
                Seq::empty()
            },
            statement_level: false,
        };
        NamespaceBuilderView { stack: below.push(frame), ..self }
    }

    /// The state after the closing brace of a namespace: the innermost frame
    /// is gone, unless it is the global one.
    pub open spec fn pop_namespace(self) -> NamespaceBuilderView {
        if self.stack.len() > 1 {
            NamespaceBuilderView { stack: self.stack.drop_last(), ..self }
        } else {
            self
        }
    }

    /// The state after the `;` that ends a statement `namespace N;`: the
    /// innermost frame stays, marked as opened by a statement.
    pub open spec fn keep_namespace(self) -> NamespaceBuilderView {
        if self.stack.len() > 1 {
            NamespaceBuilderView {
                stack: self.stack.update(
                    self.stack.len() - 1,
                    NamespaceInfoView { statement_level: true, ..self.stack.last() },
                ),
                ..self
            }
        } else {
            self
        }
    }

    /// The alias under which `name` is imported.
    pub open spec fn import_alias(name: Seq<char>, aliased_name: Option<Seq<char>>) -> Seq<char> {
        match aliased_name {
            Some(alias) => alias,
            None => last_terminated_segment(name, SEPARATOR),
        }
    }

    /// The state after `use name;` or `use name as alias;` in the innermost
    /// namespace.
    pub open spec fn add_import(self, name: Seq<char>, aliased_name: Option<Seq<char>>)
        -> NamespaceBuilderView {
        let top = self.stack.last();
        NamespaceBuilderView {
            stack: self.stack.update(
                self.stack.len() - 1,
                NamespaceInfoView {
                    imports: top.imports.push((Self::import_alias(name, aliased_name), name)),
                    ..top
                },
            ),
            ..self
        }
    }

    /// The name that `name` stands for: the target of the innermost import
    /// whose alias is `name` without its leading separators; else the target
    /// of the automatic import of that name; else `name` itself.
    pub open spec fn rename_import(self, name: Seq<char>) -> Seq<char> {
        let trimmed = trim_start_matches(name, SEPARATOR);
        match lookup_frames(self.stack, trimmed, self.stack.len()) {
            Some(target) => with_leading_separator(target),
            None => match lookup_earliest(self.auto_imports, trimmed, 0) {
                Some(renamed) => seq![SEPARATOR] + renamed,
                None => name,
            },
        }
    }
}

pub struct NamespaceBuilder<'a> {
    pub arena: &'a Bump,
    pub stack: Vec<NamespaceInfo<'a>>,
    pub auto_imports: &'a Vec<(&'a str, &'a str)>,
}

impl<'a> View for NamespaceBuilder<'a> {
    type V = NamespaceBuilderView;

    open spec fn view(&self) -> NamespaceBuilderView {
        NamespaceBuilderView {
            stack: frames_view(self.stack@),
            auto_imports: imports_view(self.auto_imports@),
        }
    }
}

/// A copy of `v` with `x` behind its last element.
pub fn vec_with<T: Copy>(v: &Vec<T>, x: T) -> (r: Vec<T>)
    ensures
        r@ == v@.push(x),
{
    let mut r: Vec<T> = Vec::new();
    let mut i: usize = 0;
    while i < v.len()
        invariant
            i <= v.len(),
            r@ == v@.take(i as int),
        decreases v.len() - i,
    {
        r.push(v[i]);
        assert(v@.take(i as int).push(v@[i as int]) =~= v@.take(i + 1));
        i = i + 1;
    }
    assert(v@.take(v.len() as int) =~= v@);
    r.push(x);
    r
}

/// The target of the latest import in `imports` whose alias is `alias`.
pub fn find_latest<'a>(imports: &Vec<(&'a str, &'a str)>, alias: &str) -> (r: Option<&'a str>)
    ensures
        match r {
            Some(t) => lookup_latest(imports_view(imports@), alias@, imports.len() as nat) == Some(
                t@,
            ),
            None => lookup_latest(imports_view(imports@), alias@, imports.len() as nat) is None,
        },
{
    let mut i: usize = imports.len();
    while i > 0
        invariant
            i <= imports.len(),
            lookup_latest(imports_view(imports@), alias@, imports.len() as nat) == lookup_latest(
                imports_view(imports@),
                alias@,
                i as nat,
            ),
        decreases i,
    {
        let entry = imports[i - 1];
        assert(imports_view(imports@)[i - 1] == (entry.0@, entry.1@));
        if str_eq(entry.0, alias) {
            return Some(entry.1);
        }
        i = i - 1;
    }
    None
}

/// The target of the earliest import in `imports` whose alias is `alias`.
pub fn find_earliest<'a>(imports: &Vec<(&'a str, &'a str)>, alias: &str) -> (r: Option<&'a str>)
    ensures
        match r {
            Some(t) => lookup_earliest(imports_view(imports@), alias@, 0) == Some(t@),
            None => lookup_earliest(imports_view(imports@), alias@, 0) is None,
        },
{
    let mut i: usize = 0;
    while i < imports.len()
        invariant
            i <= imports.len(),
            lookup_earliest(imports_view(imports@), alias@, 0) == lookup_earliest(
                imports_view(imports@),
                alias@,
                i as nat,
            ),
        decreases imports.len() - i,
    {
        let entry = imports[i];
        assert(imports_view(imports@)[i as int] == (entry.0@, entry.1@));
        if str_eq(entry.0, alias) {
            return Some(entry.1);
        }
        i = i + 1;
    }
    None
}

impl<'a> NamespaceBuilder<'a> {
    /// The stack that holds the global namespace alone.
    pub fn new_in(arena: &'a Bump, auto_imports: &'a Vec<(&'a str, &'a str)>) -> (r: Self)
        ensures
            r@ == NamespaceBuilderView::initial(imports_view(auto_imports@)),
            r@.wf(),
    {
        let imports: Vec<(&'a str, &'a str)> = Vec::new();
        let imports = arena_alloc(arena, imports);
        let mut stack: Vec<NamespaceInfo<'a>> = Vec::new();
        proof {
            reveal_strlit("\\");
            assert("\\"@ =~= global_namespace());
        }
        stack.push(NamespaceInfo { name: "\\", imports, statement_level: false });
        let r = NamespaceBuilder { arena, stack, auto_imports };
        proof {
            assert(imports_view(imports@) =~= Seq::empty());
            assert(r@.stack =~= NamespaceBuilderView::initial(imports_view(auto_imports@)).stack);
        }
        r
    }

    /// The prefix of the innermost namespace.
    pub fn current_namespace(&self) -> (r: &'a str)
        ensures
            r@ == self@.current_namespace(),
    {
        let n = self.stack.len();
        if n > 0 {
            self.stack[n - 1].name
        } else {
            proof {
                reveal_strlit("\\");
                assert("\\"@ =~= global_namespace());
            }
            "\\"
        }
    }

    /// Opens the namespace `name`.
    pub fn push_namespace(&mut self, name: Option<&str>)
        requires
            old(self)@.wf(),
        ensures
            final(self)@ == old(self)@.push_namespace(opt_name_view(name)),
            final(self)@.wf(),
    {
        let ghost before = self@;
        let n = self.stack.len();
        let replaces = n > 1 && self.stack[n - 1].statement_level;
        let empty: Vec<(&'a str, &'a str)> = Vec::new();
        let mut imports: &'a Vec<(&'a str, &'a str)> = arena_alloc(self.arena, empty);
        assert(imports_view(imports@) =~= Seq::empty());
        if replaces {
            imports = self.stack[n - 1].imports;
            self.stack.pop();
            assert(frames_view(self.stack@) =~= before.stack.drop_last());
        }
        let current = self.current_namespace();
        let fully_qualified = match name {
            Some(name) => {
                proof {
                    reveal_strlit("\\");
                    assert("\\"@ =~= seq![SEPARATOR]);
                }
                concat3(self.arena, current, name, "\\")
            },
            None => current,
        };
        let ghost below = self@.stack;
        self.stack.push(NamespaceInfo { name: fully_qualified, imports, statement_level: false });
        proof {
            let frame = NamespaceInfoView {
                name: fully_qualified@,
                imports: imports_view(imports@),
                statement_level: false,
            };
            assert(frames_view(self.stack@) =~= below.push(frame));
            assert(self@.stack =~= before.push_namespace(opt_name_view(name)).stack);
            assert(starts_with(current@, SEPARATOR));
            assert forall|i: int| 0 <= i < self@.stack.len() implies starts_with(
                #[trigger] self@.stack[i].name,
                SEPARATOR,
            ) by {
                if i < below.len() {
                    assert(self@.stack[i] == below[i]);
                    assert(below[i] == before.stack[i]);
                }
            }
        }
    }

    /// Closes the innermost namespace, unless it is the global one.
    pub fn pop_namespace(&mut self)
        requires
            old(self)@.wf(),
        ensures
            final(self)@ == old(self)@.pop_namespace(),
            final(self)@.wf(),
    {
        if self.stack.len() > 1 {
            self.stack.pop();
            assert(frames_view(self.stack@) =~= old(self)@.stack.drop_last());
        }
    }

    /// Marks the innermost namespace as opened by a statement.
    pub fn keep_namespace(&mut self)
        requires
            old(self)@.wf(),
        ensures
            final(self)@ == old(self)@.keep_namespace(),
            final(self)@.wf(),
    {
        let n = self.stack.len();
        if n > 1 {
            let top = self.stack[n - 1];
            self.stack.set(
                n - 1,
                NamespaceInfo { name: top.name, imports: top.imports, statement_level: true },
            );
            assert(self@.stack =~= old(self)@.keep_namespace().stack);
        }
    }

    /// Records `use name;` or `use name as alias;` in the innermost
    /// namespace. An import without an alias must name something.
    pub fn add_import(&mut self, name: &'a str, aliased_name: Option<&'a str>) -> (r: Result<
        (),
        ParseError,
    >)
        requires
            old(self)@.wf(),
        ensures
            final(self)@.wf(),
            aliased_name is None && name@.len() == 0 ==> r == Err::<(), ParseError>(
                ParseError::EmptyImportName,
            ) && final(self)@ == old(self)@,
            !(aliased_name is None && name@.len() == 0) ==> r == Ok::<(), ParseError>(())
                && final(self)@ == old(self)@.add_import(name@, opt_name_view(aliased_name)),
    {
        let alias = match aliased_name {
            Some(alias) => alias,
            None => {
                if name.is_empty() {
                    return Err(ParseError::EmptyImportName);
                }
                str_last_terminated_segment(name, SEPARATOR)
            },
        };
        let n = self.stack.len();
        let top = self.stack[n - 1];
        let imports = vec_with(top.imports, (alias, name));
        let imports = arena_alloc(self.arena, imports);
        self.stack.set(
            n - 1,
            NamespaceInfo { name: top.name, imports, statement_level: top.statement_level },
        );
        proof {
            assert(imports_view(imports@) =~= imports_view(top.imports@).push((alias@, name@)));
            assert(self@.stack =~= old(self)@.add_import(name@, opt_name_view(aliased_name)).stack);
        }
        Ok(())
    }

    /// The target that the innermost frame with an import of `alias` gives.
    fn find_in_frames(&self, alias: &str) -> (r: Option<&'a str>)
        ensures
            match r {
                Some(t) => lookup_frames(self@.stack, alias@, self@.stack.len()) == Some(t@),
                None => lookup_frames(self@.stack, alias@, self@.stack.len()) is None,
            },
    {
        let mut i: usize = self.stack.len();
        while i > 0
            invariant
                i <= self.stack.len(),
                lookup_frames(self@.stack, alias@, self@.stack.len()) == lookup_frames(
                    self@.stack,
                    alias@,
                    i as nat,
                ),
            decreases i,
        {
            let frame = self.stack[i - 1];
            assert(self@.stack[i - 1] == frame@);
            match find_latest(frame.imports, alias) {
                Some(t) => {
                    return Some(t);
                },
                None => {},
            }
            i = i - 1;
        }
        None
    }

    /// The name that `name` stands for under the imports in force.
    pub fn rename_import(&self, name: &'a str) -> (r: &'a str)
        ensures
            r@ == self@.rename_import(name@),
    {
        let trimmed_name = str_trim_start_matches(name, SEPARATOR);
        proof {
            reveal_strlit("\\");
            assert("\\"@ =~= seq![SEPARATOR]);
        }
        match self.find_in_frames(trimmed_name) {
            Some(target) => {
                if str_starts_with(target, SEPARATOR) {
                    target
                } else {
                    concat(self.arena, "\\", target)
                }
            },
            None => match find_earliest(self.auto_imports, trimmed_name) {
                Some(renamed) => concat(self.arena, "\\", renamed),
                None => name,
            },
        }
    }
}

pub open spec fn opt_name_view(name: Option<&str>) -> Option<Seq<char>> {
    match name {
        Some(name) => Some(name@),
        None => None,
    }
}

} // verus!
