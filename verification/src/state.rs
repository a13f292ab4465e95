//! What a session carries from one production to the next: the arena, the
//! source text, the stack of namespaces, the type parameters in scope, the
//! class that is being read, the mode of the file, and the declarations
//! found so far.

use crate::arena::arena_alloc;
use crate::decls::{empty_decls, DeclsView, DuplicatePolicy, InProgressDecls};
use crate::namespace::{imports_view, Imports, NamespaceBuilder, NamespaceBuilderView};
use crate::pos::{Pos, PosView, RelativePath, RelativePathView};
use crate::shallow_decl_defs::Mode;
use crate::text::{concat, str_eq, SEPARATOR};
use crate::token_kind::TokenKind;
use bumpalo::Bump;
use vstd::prelude::*;

verus! {

/// The class, interface or trait whose declaration is being read, if any:
/// its name, the position of that name, and the keyword that opened it.
#[derive(Clone, Copy, Debug)]
pub enum ClassishNameBuilder<'a> {
    NotInClassish,
    InClassish(&'a str, Pos<'a>, TokenKind),
}

pub enum ClassishNameBuilderView {
    NotInClassish,
    InClassish(Seq<char>, PosView, TokenKind),
}

impl<'a> View for ClassishNameBuilder<'a> {
    type V = ClassishNameBuilderView;

    open spec fn view(&self) -> ClassishNameBuilderView {
        match *self {
            ClassishNameBuilder::NotInClassish => ClassishNameBuilderView::NotInClassish,
            ClassishNameBuilder::InClassish(name, pos, kind) => ClassishNameBuilderView::InClassish(
                name@,
                pos@,
                kind,
            ),
        }
    }
}

impl ClassishNameBuilderView {
    /// The slot after a name was read behind a classish keyword: the name is
    /// latched, unless one is latched already.
    pub open spec fn lexed_name_after_classish_keyword(
        self,
        name: Seq<char>,
        pos: PosView,
        token_kind: TokenKind,
    ) -> ClassishNameBuilderView {
        match self {
            ClassishNameBuilderView::NotInClassish => ClassishNameBuilderView::InClassish(
                seq![SEPARATOR] + name,
                pos,
                token_kind,
            ),
            ClassishNameBuilderView::InClassish(_, _, _) => self,
        }
    }

    pub open spec fn get_current_classish_name(self) -> Option<(Seq<char>, PosView)> {
        match self {
            ClassishNameBuilderView::NotInClassish => None,
            ClassishNameBuilderView::InClassish(name, pos, _) => Some((name, pos)),
        }
    }

    pub open spec fn in_interface(self) -> bool {
        self matches ClassishNameBuilderView::InClassish(_, _, kind) && kind
            == TokenKind::Interface
    }
}

impl<'a> ClassishNameBuilder<'a> {
    pub fn new() -> (r: Self)
        ensures
            r@ == ClassishNameBuilderView::NotInClassish,
    {
        ClassishNameBuilder::NotInClassish
    }

    /// Latches the name that follows a classish keyword.
    pub fn lexed_name_after_classish_keyword(
        &mut self,
        arena: &'a Bump,
        name: &str,
        pos: Pos<'a>,
        token_kind: TokenKind,
    )
        ensures
            final(self)@ == old(self)@.lexed_name_after_classish_keyword(name@, pos@, token_kind),
    {
        match self {
            ClassishNameBuilder::NotInClassish => {
                proof {
                    reveal_strlit("\\");
                    assert("\\"@ =~= seq![SEPARATOR]);
                }
                let class_name = concat(arena, "\\", name);
                *self = ClassishNameBuilder::InClassish(class_name, pos, token_kind);
            },
            ClassishNameBuilder::InClassish(_, _, _) => {},
        }
    }

    /// Leaves the class.
    pub fn parsed_classish_declaration(&mut self)
        ensures
            final(self)@ == ClassishNameBuilderView::NotInClassish,
    {
        *self = ClassishNameBuilder::NotInClassish;
    }

    pub fn get_current_classish_name(&self) -> (r: Option<(&'a str, Pos<'a>)>)
        ensures
            match r {
                Some((name, pos)) => self@.get_current_classish_name() == Some((name@, pos@)),
                None => self@.get_current_classish_name() is None,
            },
    {
        match self {
            ClassishNameBuilder::NotInClassish => None,
            ClassishNameBuilder::InClassish(name, pos, _) => Some((*name, *pos)),
        }
    }

    pub fn in_interface(&self) -> (r: bool)
        ensures
            r == self@.in_interface(),
    {
        match self {
            ClassishNameBuilder::InClassish(_, _, TokenKind::Interface) => true,
            _ => false,
        }
    }
}

/// What is known of the mode of the file: nothing yet; that the opening tag
/// was seen, so that the next token decides; or the mode.
#[derive(Clone, Copy, Debug, PartialEq, Eq, Structural)]
pub enum FileModeBuilder {
    Unseen,
    Pending,
    Resolved(Mode),
}

impl FileModeBuilder {
    /// The mode that declarations are filed under: the strictest, until the
    /// file says otherwise.
    pub open spec fn spec_mode(self) -> Mode {
        match self {
            FileModeBuilder::Resolved(mode) => mode,
            _ => Mode::Mstrict,
        }
    }

    #[verifier::when_used_as_spec(spec_mode)]
    pub fn mode(self) -> (r: Mode)
        ensures
            r == self.spec_mode(),
    {
        match self {
            FileModeBuilder::Resolved(mode) => mode,
            _ => Mode::Mstrict,
        }
    }
}

pub open spec fn names_view(names: Seq<&str>) -> Seq<Seq<char>> {
    names.map_values(|n: &str| n@)
}

pub open spec fn scopes_view(scopes: Seq<&Vec<&str>>) -> Seq<Seq<Seq<char>>> {
    scopes.map_values(|s: &Vec<&str>| names_view(s@))
}

/// Whether one of the scopes holds `name`.
pub open spec fn scope_contains(scopes: Seq<Seq<Seq<char>>>, name: Seq<char>) -> bool {
    exists|i: int, j: int|
        0 <= i < scopes.len() && 0 <= j < scopes[i].len() && #[trigger] scopes[i][j] == name
}

pub struct State<'a> {
    pub arena: &'a Bump,
    pub source_text: &'a [u8],
    pub filename: RelativePath<'a>,
    pub decls: InProgressDecls<'a>,
    pub namespace_builder: NamespaceBuilder<'a>,
    pub classish_name_builder: ClassishNameBuilder<'a>,
    pub type_parameters: Vec<&'a Vec<&'a str>>,
    pub file_mode_builder: FileModeBuilder,
    pub previous_token_kind: TokenKind,
    pub duplicate_policy: DuplicatePolicy,
}

pub struct StateView {
    pub source_text: Seq<u8>,
    pub filename: RelativePathView,
    pub decls: DeclsView,
    pub namespaces: NamespaceBuilderView,
    pub classish: ClassishNameBuilderView,
    pub type_parameters: Seq<Seq<Seq<char>>>,
    pub file_mode: FileModeBuilder,
    pub previous_token_kind: TokenKind,
    pub duplicate_policy: DuplicatePolicy,
}

impl<'a> View for State<'a> {
    type V = StateView;

    open spec fn view(&self) -> StateView {
        StateView {
            source_text: self.source_text@,
            filename: self.filename@,
            decls: self.decls@,
            namespaces: self.namespace_builder@,
            classish: self.classish_name_builder@,
            type_parameters: scopes_view(self.type_parameters@),
            file_mode: self.file_mode_builder,
            previous_token_kind: self.previous_token_kind,
            duplicate_policy: self.duplicate_policy,
        }
    }
}

impl StateView {
    /// The state at the beginning of a file.
    pub open spec fn initial(
        source_text: Seq<u8>,
        filename: RelativePathView,
        auto_imports: Imports,
        duplicate_policy: DuplicatePolicy,
    ) -> StateView {
        StateView {
            source_text,
            filename,
            decls: DeclsView::empty(),
            namespaces: NamespaceBuilderView::initial(auto_imports),
            classish: ClassishNameBuilderView::NotInClassish,
            type_parameters: Seq::empty(),
            file_mode: FileModeBuilder::Unseen,
            previous_token_kind: TokenKind::EndOfFile,
            duplicate_policy,
        }
    }

    pub open spec fn wf(self) -> bool {
        &&& self.namespaces.wf()
        &&& self.decls.wf()
    }

    pub open spec fn current_namespace(self) -> Seq<char> {
        self.namespaces.current_namespace()
    }

    pub open spec fn is_type_param_in_scope(self, name: Seq<char>) -> bool {
        scope_contains(self.type_parameters, name)
    }

    /// `name` qualified by the current namespace, unless it begins with the
    /// separator.
    pub open spec fn prefix_ns(self, name: Seq<char>) -> Seq<char> {
        if crate::text::starts_with(name, SEPARATOR) {
            name
        } else {
            self.current_namespace() + name
        }
    }

    /// The part of the source text that a position spans.
    pub open spec fn source_text_at_pos(self, pos: PosView) -> Seq<u8> {
        if pos.start.cnum <= pos.end.cnum && pos.end.cnum <= self.source_text.len() {
            self.source_text.subrange(pos.start.cnum as int, pos.end.cnum as int)
        } else {
            Seq::empty()
        }
    }
}

impl<'a> State<'a> {
    pub fn new(
        source_text: &'a [u8],
        filename: RelativePath<'a>,
        arena: &'a Bump,
        auto_imports: &'a Vec<(&'a str, &'a str)>,
        duplicate_policy: DuplicatePolicy,
    ) -> (r: State<'a>)
        ensures
            r@ == StateView::initial(
                source_text@,
                filename@,
                imports_view(auto_imports@),
                duplicate_policy,
            ),
            r@.wf(),
    {
        let r = State {
            arena,
            source_text,
            filename,
            decls: empty_decls(),
            namespace_builder: NamespaceBuilder::new_in(arena, auto_imports),
            classish_name_builder: ClassishNameBuilder::new(),
            type_parameters: Vec::new(),
            file_mode_builder: FileModeBuilder::Unseen,
            // EndOfFile stands for the beginning of the file: no token follows it.
            previous_token_kind: TokenKind::EndOfFile,
            duplicate_policy,
        };
        assert(r@.type_parameters =~= Seq::empty());
        r
    }
}

/// The combinators of the pass, and the session that they work on.
pub struct DirectDeclSmartConstructors<'a> {
    pub state: State<'a>,
}

impl<'a> View for DirectDeclSmartConstructors<'a> {
    type V = StateView;

    open spec fn view(&self) -> StateView {
        self.state@
    }
}

impl<'a> DirectDeclSmartConstructors<'a> {
    /// A session for one file: the text of the file, its path, the arena
    /// that is to own what the session makes, the automatic imports, and what
    /// is to become of a name that is declared twice.
    pub fn new(
        source_text: &'a [u8],
        filename: RelativePath<'a>,
        arena: &'a Bump,
        auto_imports: &'a Vec<(&'a str, &'a str)>,
        duplicate_policy: DuplicatePolicy,
    ) -> (r: Self)
        ensures
            r@ == StateView::initial(
                source_text@,
                filename@,
                imports_view(auto_imports@),
                duplicate_policy,
            ),
            r@.wf(),
    {
        DirectDeclSmartConstructors {
            state: State::new(source_text, filename, arena, auto_imports, duplicate_policy),
        }
    }

    /// Places `val` in the arena of the session.
    pub fn allocate<T>(&self, val: T) -> (r: &'a T)
        ensures
            *r == val,
    {
        arena_alloc(self.state.arena, val)
    }

    /// Whether `name` is a type parameter of an enclosing declaration.
    pub fn is_type_param_in_scope(&self, name: &str) -> (r: bool)
        ensures
            r == self@.is_type_param_in_scope(name@),
    {
        let mut i: usize = 0;
        while i < self.state.type_parameters.len()
            invariant
                i <= self.state.type_parameters.len(),
                forall|a: int, b: int|
                    0 <= a < i && 0 <= b < self@.type_parameters[a].len()
                        ==> #[trigger] self@.type_parameters[a][b] != name@,
            decreases self.state.type_parameters.len() - i,
        {
            let scope = self.state.type_parameters[i];
            assert(self@.type_parameters[i as int] == names_view(scope@));
            let mut j: usize = 0;
            while j < scope.len()
                invariant
                    i < self.state.type_parameters.len(),
                    self@.type_parameters[i as int] == names_view(scope@),
                    j <= scope.len(),
                    forall|b: int| 0 <= b < j ==> #[trigger] names_view(scope@)[b] != name@,
                decreases scope.len() - j,
            {
                if str_eq(scope[j], name) {
                    assert(self@.type_parameters[i as int][j as int] == name@);
                    return true;
                }
                j = j + 1;
            }
            i = i + 1;
        }
        false
    }

    /// `name` qualified by the current namespace, unless it begins with the
    /// separator.
    pub fn prefix_ns(&self, name: &'a str) -> (r: &'a str)
        ensures
            r@ == self@.prefix_ns(name@),
    {
        if crate::text::str_starts_with(name, SEPARATOR) {
            name
        } else {
            let current = self.state.namespace_builder.current_namespace();
            concat(self.state.arena, current, name)
        }
    }

    /// The part of the source text that `pos` spans.
    pub fn source_text_at_pos(&self, pos: Pos<'a>) -> (r: &'a [u8])
        ensures
            r@ == self@.source_text_at_pos(pos@),
    {
        let start = pos.start_cnum();
        let end = pos.end_cnum();
        if start <= end && end <= self.state.source_text.len() {
            vstd::slice::slice_subrange(self.state.source_text, start, end)
        } else {
            let r = vstd::slice::slice_subrange(self.state.source_text, 0, 0);
            assert(r@ =~= Seq::<u8>::empty());
            r
        }
    }
}

} // verus!
