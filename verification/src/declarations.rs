//! The declarations that stand directly in a namespace: functions and
//! constants; and the combinators that open and close namespaces and record
//! imports.

use crate::aast::Visibility;
use crate::classes::user_attributes_of;
use crate::arena::{
    arena_string_into_str, arena_string_new, arena_string_push_str, arena_string_text,
};
use crate::decls::{declare, DeclsView};
use crate::error::ParseError;
use crate::lists::NodeResult;
use crate::names::get_name;
use crate::namespace::NamespaceBuilderView;
use crate::node::{contains_token, nodes_view, result_view, Node, NodeView, Node_};
use crate::pos::{Pos, PosView};
use crate::shallow_decl_defs::{
    ShallowClassConst, ShallowClassConstView, ShallowTypeconst, ShallowTypeconstView,
};
use crate::state::{DirectDeclSmartConstructors, StateView};
use crate::text::{concat, str_trim_start_matches, trim_start_matches, SEPARATOR};
use crate::token_kind::TokenKind;
use crate::type_hint::{make_tany, tany};
use crate::typing_defs::{
    opt_str_view, opt_ty_view, FunElt, FunEltView, Ty, TyView, TypeconstAbstractKind,
    TypeconstAbstractKindView,
};
use vstd::prelude::*;
use vstd::string::*;

verus! {

/// What the modifiers before a member say.
#[derive(Clone, Copy, Debug, PartialEq, Eq, Structural)]
pub struct Modifiers {
    pub is_static: bool,
    pub visibility: Visibility,
    pub is_abstract: bool,
    pub is_final: bool,
}

impl Modifiers {
    /// What no modifier at all says: a private member of an instance.
    pub open spec fn none() -> Modifiers {
        Modifiers {
            is_static: false,
            visibility: Visibility::Private,
            is_abstract: false,
            is_final: false,
        }
    }

    /// The modifiers with `modifier` behind them: the last visibility holds.
    pub open spec fn with(self, modifier: NodeView) -> Modifiers {
        Modifiers {
            is_static: self.is_static || modifier.is_token(TokenKind::Static),
            visibility: match modifier.as_visibility() {
                Ok(visibility) => visibility,
                Err(_) => self.visibility,
            },
            is_abstract: self.is_abstract || modifier.is_token(TokenKind::Abstract),
            is_final: self.is_final || modifier.is_token(TokenKind::Final),
        }
    }
}

/// What the first `n` of `modifiers` say.
pub open spec fn member_modifiers_of_first(modifiers: Seq<NodeView>, n: nat) -> Modifiers
    decreases n,
{
    if n == 0 || n > modifiers.len() {
        Modifiers::none()
    } else {
        member_modifiers_of_first(modifiers, (n - 1) as nat).with(modifiers[n - 1])
    }
}

/// What the modifiers before a member say.
pub open spec fn spec_read_member_modifiers(modifiers: Seq<NodeView>) -> Modifiers {
    member_modifiers_of_first(modifiers, modifiers.len())
}

/// The message for the use of a deprecated function or method.
pub open spec fn deprecation_notice(kind: Seq<char>, name: Seq<char>, msg: Option<Seq<char>>)
    -> Option<Seq<char>> {
    match msg {
        Some(msg) => Some("The "@ + kind + " "@ + name + " is deprecated: "@ + msg),
        None => None,
    }
}

/// The name and the initializer of a constant, where the declaration holds
/// exactly one declarator.
pub open spec fn const_declarator(decls: NodeView) -> Option<(NodeView, NodeView)> {
    match decls {
        NodeView::List(outer) => if outer.len() == 1 {
            match outer[0] {
                NodeView::List(inner) => if inner.len() == 2 {
                    Some((inner[0], inner[1]))
                } else {
                    None
                },
                _ => None,
            }
        } else {
            None
        },
        _ => None,
    }
}

/// The imports that the first `n` of `items` add to the innermost
/// namespace, each under `prefix`; and the failure of the first import that
/// names nothing, with the imports before it added.
pub open spec fn add_imports_first(
    namespaces: NamespaceBuilderView,
    prefix: Seq<char>,
    items: Seq<NodeView>,
    n: nat,
) -> (NamespaceBuilderView, Result<(), ParseError>)
    decreases n,
{
    if n == 0 || n > items.len() {
        (namespaces, Ok(()))
    } else {
        match add_imports_first(namespaces, prefix, items, (n - 1) as nat) {
            (before, Err(e)) => (before, Err(e)),
            (before, Ok(_)) => match items[n - 1] {
                NodeView::NamespaceUseClause(clause) => {
                    let name = prefix + clause.id.1;
                    if clause.as_ is None && name.len() == 0 {
                        (before, Err(ParseError::EmptyImportName))
                    } else {
                        (before.add_import(name, clause.as_), Ok(()))
                    }
                },
                _ => (before, Ok(())),
            },
        }
    }
}

/// The type and the kind of a type constant, from whether it is marked
/// abstract, its constraint and the type assigned to it.
pub open spec fn typeconst_kind(
    has_abstract_keyword: bool,
    constraint: Option<TyView>,
    type_: Option<TyView>,
) -> (Option<TyView>, TypeconstAbstractKindView) {
    if !has_abstract_keyword {
        if type_ is None {
            // Without an assigned type the constraint, if any, takes its
            // place.
            (constraint, TypeconstAbstractKindView::TCConcrete)
        } else if constraint is None {
            (type_, TypeconstAbstractKindView::TCConcrete)
        } else {
            (type_, TypeconstAbstractKindView::TCPartiallyAbstract)
        }
    } else {
        if type_ is None {
            (type_, TypeconstAbstractKindView::TCAbstract(None))
        } else {
            // The assigned type is the default.
            (None, TypeconstAbstractKindView::TCAbstract(type_))
        }
    }
}

impl StateView {
    /// The state after `fun` is declared as `name`.
    pub open spec fn declare_fun(self, name: Seq<char>, fun: FunEltView) -> (
        StateView,
        NodeResult,
    ) {
        let (funs, r) = declare(self.decls.funs, name, fun, self.duplicate_policy);
        (
            StateView { decls: DeclsView { funs, ..self.decls }, ..self },
            match r {
                Ok(_) => Ok(NodeView::Ignored),
                Err(e) => Err(e),
            },
        )
    }

    /// The state after the constant `name` of type `ty` is declared.
    pub open spec fn declare_const(self, name: Seq<char>, ty: TyView) -> (StateView, NodeResult) {
        let (consts, r) = declare(self.decls.consts, name, ty, self.duplicate_policy);
        (
            StateView { decls: DeclsView { consts, ..self.decls }, ..self },
            match r {
                Ok(_) => Ok(NodeView::Ignored),
                Err(e) => Err(e),
            },
        )
    }

    /// The state after the declaration of a function: the function is in
    /// the table of functions under its qualified name, and the scope of its
    /// type parameters is closed. A body that failed counts as a body
    /// without a `yield`. Without a header nothing is declared.
    pub open spec fn make_function_declaration(
        self,
        attributes: NodeResult,
        header: NodeResult,
        body: NodeResult,
    ) -> (StateView, NodeResult) {
        let body = match body {
            Ok(body) => body,
            Err(_) => NodeView::Ignored,
        };
        match attributes {
            Err(e) => (self, Err(e)),
            Ok(attributes) => match attributes.as_attributes() {
                Err(e) => (self, Err(e)),
                Ok(parsed_attributes) => match header {
                    Err(e) => (self, Err(e)),
                    Ok(NodeView::FunctionHeader(header)) => match self.function_into_ty(
                        self.current_namespace(),
                        attributes,
                        *header,
                        body,
                    ) {
                        (_, Err(e)) => (self, Err(e)),
                        (after, Ok((id, type_, _))) => after.declare_fun(
                            id.1,
                            FunEltView {
                                deprecated: deprecation_notice(
                                    "function"@,
                                    trim_start_matches(id.1, SEPARATOR),
                                    parsed_attributes.deprecated,
                                ),
                                type_,
                                pos: id.0,
                                user_attributes: user_attributes_of(attributes),
                            },
                        ),
                    },
                    Ok(_) => (self, Ok(NodeView::Ignored)),
                },
            },
        }
    }

    /// The type of a constant: what the hint says; else what its initializer
    /// shows; else nothing that is known.
    pub open spec fn const_ty(self, hint: NodeView, initializer: NodeView) -> TyView {
        match self.node_to_ty(hint) {
            Ok(ty) => ty,
            Err(_) => match self.node_to_ty(initializer) {
                Ok(ty) => ty,
                Err(_) => tany(),
            },
        }
    }

    /// The state and the node after the declaration of a constant. Inside a
    /// class the constant is handed up to the class; else it is declared
    /// under its qualified name. A declaration of another shape than one
    /// name with one initializer is ignored.
    pub open spec fn make_const_declaration(
        self,
        modifiers: NodeResult,
        hint: NodeResult,
        decls: NodeResult,
    ) -> (StateView, NodeResult) {
        match hint {
            Err(e) => (self, Err(e)),
            Ok(hint) => match decls {
                Err(e) => (self, Err(e)),
                Ok(decls) => match const_declarator(decls) {
                    None => (self, Ok(NodeView::Ignored)),
                    Some((name, initializer)) => {
                        let in_class = self.classish.get_current_classish_name() is Some;
                        match get_name(
                            if in_class {
                                Seq::empty()
                            } else {
                                self.current_namespace()
                            },
                            name,
                        ) {
                            Err(e) => (self, Err(e)),
                            Ok(id) => match modifiers {
                                Err(e) => (self, Err(e)),
                                Ok(modifiers) => {
                                    let ty = self.const_ty(hint, initializer);
                                    if in_class {
                                        (
                                            self,
                                            Ok(
                                                NodeView::Const(
                                                    ShallowClassConstView {
                                                        abstract_: spec_read_member_modifiers(
                                                            modifiers.items(),
                                                        ).is_abstract,
                                                        expr: match self.node_to_expr(initializer) {
                                                            Ok(e) => Some(e),
                                                            Err(_) => None,
                                                        },
                                                        name: id,
                                                        type_: ty,
                                                    },
                                                ),
                                            ),
                                        )
                                    } else {
                                        self.declare_const(id.1, ty)
                                    }
                                },
                            },
                        }
                    },
                },
            },
        }
    }

    /// The state after the header `namespace name`.
    pub open spec fn make_namespace_declaration_header(self, name: NodeResult) -> (
        StateView,
        NodeResult,
    ) {
        match name {
            Err(e) => (self, Err(e)),
            Ok(name) => (
                StateView {
                    namespaces: self.namespaces.push_namespace(
                        match get_name(Seq::empty(), name) {
                            Ok(id) => Some(id.1),
                            Err(_) => None,
                        },
                    ),
                    ..self
                },
                Ok(NodeView::Ignored),
            ),
        }
    }

    /// The state after the body of a namespace: the namespace is closed,
    /// unless the body is the `;` of a statement `namespace N;`, which leaves
    /// it open to the end of the file or to the next namespace.
    pub open spec fn make_namespace_body(self, body: NodeResult) -> (StateView, NodeResult) {
        match body {
            Err(e) => (self, Err(e)),
            Ok(body) => (
                StateView {
                    namespaces: if body.is_token(TokenKind::Semicolon) {
                        self.namespaces.keep_namespace()
                    } else {
                        self.namespaces.pop_namespace()
                    },
                    ..self
                },
                Ok(NodeView::Ignored),
            ),
        }
    }

    /// The state after the `;` that ends a statement `namespace N;`.
    pub open spec fn make_namespace_empty_body(self, semicolon: NodeResult) -> (
        StateView,
        NodeResult,
    ) {
        match semicolon {
            Err(e) => (self, Err(e)),
            Ok(_) => (
                StateView { namespaces: self.namespaces.keep_namespace(), ..self },
                Ok(NodeView::Ignored),
            ),
        }
    }

    /// The state after the imports `imports`, each under `prefix`.
    pub open spec fn add_imports(self, prefix: Seq<char>, imports: NodeView) -> (
        StateView,
        NodeResult,
    ) {
        let (namespaces, r) = add_imports_first(
            self.namespaces,
            prefix,
            imports.items(),
            imports.items().len(),
        );
        (
            StateView { namespaces, ..self },
            match r {
                Ok(_) => Ok(NodeView::Ignored),
                Err(e) => Err(e),
            },
        )
    }

    /// The state after `use a, b as c;`.
    pub open spec fn make_namespace_use_declaration(self, imports: NodeResult) -> (
        StateView,
        NodeResult,
    ) {
        match imports {
            Err(e) => (self, Err(e)),
            Ok(imports) => self.add_imports(Seq::empty(), imports),
        }
    }

    /// The state after `use prefix\{a, b as c};`.
    pub open spec fn make_namespace_group_use_declaration(
        self,
        prefix: NodeResult,
        imports: NodeResult,
    ) -> (StateView, NodeResult) {
        match prefix {
            Err(e) => (self, Err(e)),
            Ok(prefix) => match get_name(Seq::empty(), prefix) {
                Err(e) => (self, Err(e)),
                Ok(prefix) => match imports {
                    Err(e) => (self, Err(e)),
                    Ok(imports) => self.add_imports(prefix.1, imports),
                },
            },
        }
    }

    /// The type of a constraint, where the node is one and its type can be
    /// read.
    pub open spec fn constraint_ty_if_any(self, constraint: NodeView) -> Option<TyView> {
        match self.constraint_ty(constraint) {
            Ok(ty) => ty,
            Err(_) => None,
        }
    }

    /// A type constant of a class.
    pub open spec fn make_type_const_declaration(
        self,
        attributes: NodeResult,
        modifiers: NodeResult,
        name: NodeResult,
        constraint: NodeResult,
        type_: NodeResult,
    ) -> NodeResult {
        match attributes {
            Err(e) => Err(e),
            Ok(attributes) => match attributes.as_attributes() {
                Err(e) => Err(e),
                Ok(attributes) => match modifiers {
                    Err(e) => Err(e),
                    Ok(modifiers) => match constraint {
                        Err(e) => Err(e),
                        Ok(constraint) => match type_ {
                            Err(e) => Err(e),
                            Ok(type_) => match name {
                                Err(e) => Err(e),
                                Ok(name) => match get_name(Seq::empty(), name) {
                                    Err(e) => Err(e),
                                    Ok(name) => {
                                        let constraint = self.constraint_ty_if_any(constraint);
                                        let (type_, abstract_) = typeconst_kind(
                                            contains_token(modifiers.items(), TokenKind::Abstract),
                                            constraint,
                                            match self.node_to_ty(type_) {
                                                Ok(ty) => Some(ty),
                                                Err(_) => None,
                                            },
                                        );
                                        Ok(
                                            NodeView::TypeConstant(
                                                ShallowTypeconstView {
                                                    abstract_,
                                                    constraint,
                                                    name,
                                                    type_,
                                                    enforceable: match attributes.enforceable {
                                                        Some(pos) => (pos, true),
                                                        None => (PosView::none(), false),
                                                    },
                                                    reifiable: attributes.reifiable,
                                                },
                                            ),
                                        )
                                    },
                                },
                            },
                        },
                    },
                },
            },
        }
    }
}

/// What the modifiers `modifiers` say.
pub fn read_member_modifiers(modifiers: &Vec<Node_>) -> (r: Modifiers)
    ensures
        r == spec_read_member_modifiers(nodes_view(modifiers)),
{
    let mut ret = Modifiers {
        is_static: false,
        visibility: Visibility::Private,
        is_abstract: false,
        is_final: false,
    };
    let mut i: usize = 0;
    while i < modifiers.len()
        invariant
            i <= modifiers.len(),
            ret == member_modifiers_of_first(nodes_view(modifiers), i as nat),
        decreases modifiers.len() - i,
    {
        let modifier = modifiers[i];
        match modifier.as_visibility() {
            Ok(visibility) => {
                ret.visibility = visibility;
            },
            Err(_) => {},
        }
        if modifier.is_token(TokenKind::Static) {
            ret.is_static = true;
        }
        if modifier.is_token(TokenKind::Abstract) {
            ret.is_abstract = true;
        }
        if modifier.is_token(TokenKind::Final) {
            ret.is_final = true;
        }
        i = i + 1;
    }
    ret
}

/// The name and the initializer of a constant.
fn const_declarator_of<'a>(decls: Node_<'a>) -> (r: Option<(Node_<'a>, Node_<'a>)>)
    ensures
        match r {
            Some((name, initializer)) => const_declarator(decls@) == Some((name@, initializer@)),
            None => const_declarator(decls@) is None,
        },
{
    match decls.as_list() {
        Some(outer) => {
            if outer.len() == 1 {
                match outer[0].as_list() {
                    Some(inner) => {
                        if inner.len() == 2 {
                            Some((inner[0], inner[1]))
                        } else {
                            None
                        }
                    },
                    None => None,
                }
            } else {
                None
            }
        },
        None => None,
    }
}

impl<'a> DirectDeclSmartConstructors<'a> {
    /// The message for the use of the deprecated function or method `name`.
    pub fn deprecation_notice(&self, kind: &str, name: &str, msg: Option<&'a str>) -> (r: Option<
        &'a str,
    >)
        ensures
            opt_str_view(r) == deprecation_notice(kind@, name@, opt_str_view(msg)),
    {
        match msg {
            Some(msg) => {
                let mut s = arena_string_new(self.state.arena);
                arena_string_push_str(&mut s, "The ");
                arena_string_push_str(&mut s, kind);
                arena_string_push_str(&mut s, " ");
                arena_string_push_str(&mut s, name);
                arena_string_push_str(&mut s, " is deprecated: ");
                arena_string_push_str(&mut s, msg);
                assert(arena_string_text(s) =~= deprecation_notice(kind@, name@, Some(msg@))->Some_0);
                Some(arena_string_into_str(s))
            },
            None => None,
        }
    }

    fn declare_fun(&mut self, name: &'a str, fun: FunElt<'a>) -> (r: Node<'a>)
        requires
            old(self)@.wf(),
        ensures
            final(self)@.wf(),
            final(self)@ == old(self)@.declare_fun(name@, fun@).0,
            result_view(r) == old(self)@.declare_fun(name@, fun@).1,
    {
        let policy = self.state.duplicate_policy;
        match self.state.decls.add_fun(name, fun, policy) {
            Ok(_) => Ok(Node_::Ignored.with_view()),
            Err(e) => Err(e),
        }
    }

    fn declare_const(&mut self, name: &'a str, ty: Ty<'a>) -> (r: Node<'a>)
        requires
            old(self)@.wf(),
        ensures
            final(self)@.wf(),
            final(self)@ == old(self)@.declare_const(name@, ty@).0,
            result_view(r) == old(self)@.declare_const(name@, ty@).1,
    {
        let policy = self.state.duplicate_policy;
        match self.state.decls.add_const(name, ty, policy) {
            Ok(_) => Ok(Node_::Ignored.with_view()),
            Err(e) => Err(e),
        }
    }

    pub fn make_function_declaration(
        &mut self,
        attributes: Node<'a>,
        header: Node<'a>,
        body: Node<'a>,
    ) -> (r: Node<'a>)
        requires
            old(self)@.wf(),
        ensures
            final(self)@.wf(),
            final(self)@ == old(self)@.make_function_declaration(
                result_view(attributes),
                result_view(header),
                result_view(body),
            ).0,
            result_view(r) == old(self)@.make_function_declaration(
                result_view(attributes),
                result_view(header),
                result_view(body),
            ).1,
    {
        // Of the body only a `yield` matters: a body that failed counts as
        // one without.
        let body = match body {
            Ok(body) => body,
            Err(_) => Node_::Ignored.with_view(),
        };
        let attributes = match attributes {
            Ok(attributes) => attributes,
            Err(e) => {
                return Err(e);
            },
        };
        let parsed_attributes = match attributes.as_attributes(self.state.arena) {
            Ok(parsed_attributes) => parsed_attributes,
            Err(e) => {
                return Err(e);
            },
        };
        let header = match header {
            Ok(header) => header,
            Err(e) => {
                return Err(e);
            },
        };
        let header = match header.as_function_header() {
            Some(header) => header,
            None => {
                return Ok(Node_::Ignored.with_view());
            },
        };
        let namespace = self.state.namespace_builder.current_namespace();
        let (id, type_, _) = match self.function_into_ty(namespace, attributes, header, body) {
            Ok(r) => r,
            Err(e) => {
                return Err(e);
            },
        };
        let deprecated = self.deprecation_notice(
            "function",
            str_trim_start_matches(id.1, SEPARATOR),
            parsed_attributes.deprecated,
        );
        let user_attributes = self.user_attributes_of(attributes);
        self.declare_fun(id.1, FunElt { deprecated, type_, pos: id.0, user_attributes })
    }

    /// The type of the constant with the hint `hint` and the initializer
    /// `initializer`.
    fn const_ty(&self, hint: Node_<'a>, initializer: Node_<'a>) -> (r: Ty<'a>)
        ensures
            r@ == self@.const_ty(hint@, initializer@),
    {
        match self.node_to_ty(hint) {
            Ok(ty) => ty,
            Err(_) => match self.node_to_ty(initializer) {
                Ok(ty) => ty,
                Err(_) => make_tany(self),
            },
        }
    }

    pub fn make_const_declaration(
        &mut self,
        modifiers: Node<'a>,
        _arg1: Node<'a>,
        hint: Node<'a>,
        decls: Node<'a>,
        _arg4: Node<'a>,
    ) -> (r: Node<'a>)
        requires
            old(self)@.wf(),
        ensures
            final(self)@.wf(),
            final(self)@ == old(self)@.make_const_declaration(
                result_view(modifiers),
                result_view(hint),
                result_view(decls),
            ).0,
            result_view(r) == old(self)@.make_const_declaration(
                result_view(modifiers),
                result_view(hint),
                result_view(decls),
            ).1,
    {
        proof {
            reveal_strlit("");
            assert(""@ =~= Seq::<char>::empty());
        }
        let hint = match hint {
            Ok(hint) => hint,
            Err(e) => {
                return Err(e);
            },
        };
        let decls = match decls {
            Ok(decls) => decls,
            Err(e) => {
                return Err(e);
            },
        };
        // A constant may stand in a class or directly in a namespace: only
        // in a namespace is it declared here.
        let (name, initializer) = match const_declarator_of(decls) {
            Some(r) => r,
            None => {
                return Ok(Node_::Ignored.with_view());
            },
        };
        let in_class = match self.state.classish_name_builder.get_current_classish_name() {
            Some(_) => true,
            None => false,
        };
        let namespace = if in_class {
            ""
        } else {
            self.state.namespace_builder.current_namespace()
        };
        let id = match self.get_name(namespace, name) {
            Ok(id) => id,
            Err(e) => {
                return Err(e);
            },
        };
        let modifiers = match modifiers {
            Ok(modifiers) => modifiers,
            Err(e) => {
                return Err(e);
            },
        };
        let ty = self.const_ty(hint, initializer);
        if in_class {
            let modifiers = read_member_modifiers(modifiers.as_slice(self.state.arena));
            let expr = match self.node_to_expr(initializer) {
                Ok(e) => Some(e),
                Err(_) => None,
            };
            let decl = ShallowClassConst {
                abstract_: modifiers.is_abstract,
                expr,
                name: id,
                type_: ty,
            };
            Ok(Node_::Const(self.allocate(decl)).with_view())
        } else {
            self.declare_const(id.1, ty)
        }
    }

    pub fn make_namespace_declaration_header(&mut self, _keyword: Node<'a>, name: Node<'a>) -> (r:
        Node<'a>)
        requires
            old(self)@.wf(),
        ensures
            final(self)@.wf(),
            final(self)@ == old(self)@.make_namespace_declaration_header(result_view(name)).0,
            result_view(r) == old(self)@.make_namespace_declaration_header(result_view(name)).1,
    {
        proof {
            reveal_strlit("");
            assert(""@ =~= Seq::<char>::empty());
        }
        let name = match name {
            Ok(name) => name,
            Err(e) => {
                return Err(e);
            },
        };
        let name = match self.get_name("", name) {
            Ok(id) => Some(id.1),
            Err(_) => None,
        };
        self.state.namespace_builder.push_namespace(name);
        Ok(Node_::Ignored.with_view())
    }

    pub fn make_namespace_body(&mut self, _arg0: Node<'a>, body: Node<'a>, _arg2: Node<'a>) -> (r:
        Node<'a>)
        requires
            old(self)@.wf(),
        ensures
            final(self)@.wf(),
            final(self)@ == old(self)@.make_namespace_body(result_view(body)).0,
            result_view(r) == old(self)@.make_namespace_body(result_view(body)).1,
    {
        let body = match body {
            Ok(body) => body,
            Err(e) => {
                return Err(e);
            },
        };
        if body.is_token(TokenKind::Semicolon) {
            self.state.namespace_builder.keep_namespace();
        } else {
            self.state.namespace_builder.pop_namespace();
        }
        Ok(Node_::Ignored.with_view())
    }

    pub fn make_namespace_empty_body(&mut self, semicolon: Node<'a>) -> (r: Node<'a>)
        requires
            old(self)@.wf(),
        ensures
            final(self)@.wf(),
            final(self)@ == old(self)@.make_namespace_empty_body(result_view(semicolon)).0,
            result_view(r) == old(self)@.make_namespace_empty_body(result_view(semicolon)).1,
    {
        match semicolon {
            Err(e) => Err(e),
            Ok(_) => {
                self.state.namespace_builder.keep_namespace();
                Ok(Node_::Ignored.with_view())
            },
        }
    }

    /// Records the imports `imports`, each under `prefix`.
    fn add_imports(&mut self, prefix: &str, imports: Node_<'a>) -> (r: Node<'a>)
        requires
            old(self)@.wf(),
        ensures
            final(self)@.wf(),
            final(self)@ == old(self)@.add_imports(prefix@, imports@).0,
            result_view(r) == old(self)@.add_imports(prefix@, imports@).1,
    {
        let items = imports.as_slice(self.state.arena);
        let ghost views = nodes_view(items);
        let mut i: usize = 0;
        while i < items.len()
            invariant
                i <= items.len(),
                views == nodes_view(items),
                views == imports@.items(),
                self@.wf(),
                self@ == (StateView {
                    namespaces: add_imports_first(
                        old(self)@.namespaces,
                        prefix@,
                        views,
                        i as nat,
                    ).0,
                    ..old(self)@
                }),
                add_imports_first(old(self)@.namespaces, prefix@, views, i as nat).1 is Ok,
            decreases items.len() - i,
        {
            match items[i].as_namespace_use_clause() {
                Some(clause) => {
                    let name = concat(self.state.arena, prefix, clause.id.1);
                    match self.state.namespace_builder.add_import(name, clause.as_) {
                        Ok(_) => {},
                        Err(e) => {
                            proof {
                                lemma_add_imports_fail(
                                    old(self)@.namespaces,
                                    prefix@,
                                    views,
                                    (i + 1) as nat,
                                    items.len() as nat,
                                );
                            }
                            return Err(e);
                        },
                    }
                },
                None => {},
            }
            i = i + 1;
        }
        Ok(Node_::Ignored.with_view())
    }

    pub fn make_namespace_use_declaration(
        &mut self,
        _arg0: Node<'a>,
        _arg1: Node<'a>,
        imports: Node<'a>,
        _arg3: Node<'a>,
    ) -> (r: Node<'a>)
        requires
            old(self)@.wf(),
        ensures
            final(self)@.wf(),
            final(self)@ == old(self)@.make_namespace_use_declaration(result_view(imports)).0,
            result_view(r) == old(self)@.make_namespace_use_declaration(result_view(imports)).1,
    {
        proof {
            reveal_strlit("");
            assert(""@ =~= Seq::<char>::empty());
        }
        match imports {
            Err(e) => Err(e),
            Ok(imports) => self.add_imports("", imports),
        }
    }

    pub fn make_namespace_group_use_declaration(
        &mut self,
        _arg0: Node<'a>,
        _arg1: Node<'a>,
        prefix: Node<'a>,
        _arg3: Node<'a>,
        imports: Node<'a>,
        _arg5: Node<'a>,
        _arg6: Node<'a>,
    ) -> (r: Node<'a>)
        requires
            old(self)@.wf(),
        ensures
            final(self)@.wf(),
            final(self)@ == old(self)@.make_namespace_group_use_declaration(
                result_view(prefix),
                result_view(imports),
            ).0,
            result_view(r) == old(self)@.make_namespace_group_use_declaration(
                result_view(prefix),
                result_view(imports),
            ).1,
    {
        proof {
            reveal_strlit("");
            assert(""@ =~= Seq::<char>::empty());
        }
        let prefix = match prefix {
            Ok(prefix) => prefix,
            Err(e) => {
                return Err(e);
            },
        };
        let prefix = match self.get_name("", prefix) {
            Ok(prefix) => prefix,
            Err(e) => {
                return Err(e);
            },
        };
        match imports {
            Err(e) => Err(e),
            Ok(imports) => self.add_imports(prefix.1, imports),
        }
    }

    /// The type of the constraint `constraint`, where it is one and its type
    /// can be read.
    pub fn constraint_ty_if_any(&self, constraint: Node_<'a>) -> (r: Option<Ty<'a>>)
        ensures
            opt_ty_view(r) == self@.constraint_ty_if_any(constraint@),
    {
        match self.constraint_ty(constraint) {
            Ok(ty) => ty,
            Err(_) => None,
        }
    }

    pub fn make_type_const_declaration(
        &mut self,
        attributes: Node<'a>,
        modifiers: Node<'a>,
        _arg2: Node<'a>,
        _arg3: Node<'a>,
        name: Node<'a>,
        _arg5: Node<'a>,
        constraint: Node<'a>,
        _arg7: Node<'a>,
        type_: Node<'a>,
        _semicolon: Node<'a>,
    ) -> (r: Node<'a>)
        ensures
            final(self)@ == old(self)@,
            result_view(r) == old(self)@.make_type_const_declaration(
                result_view(attributes),
                result_view(modifiers),
                result_view(name),
                result_view(constraint),
                result_view(type_),
            ),
    {
        proof {
            reveal_strlit("");
            assert(""@ =~= Seq::<char>::empty());
        }
        let attributes = match attributes {
            Ok(attributes) => attributes,
            Err(e) => {
                return Err(e);
            },
        };
        let attributes = match attributes.as_attributes(self.state.arena) {
            Ok(attributes) => attributes,
            Err(e) => {
                return Err(e);
            },
        };
        let modifiers = match modifiers {
            Ok(modifiers) => modifiers,
            Err(e) => {
                return Err(e);
            },
        };
        let has_abstract_keyword = Node_::any_token(
            modifiers.as_slice(self.state.arena),
            TokenKind::Abstract,
        );
        let constraint = match constraint {
            Ok(constraint) => constraint,
            Err(e) => {
                return Err(e);
            },
        };
        let constraint = self.constraint_ty_if_any(constraint);
        let type_ = match type_ {
            Ok(type_) => type_,
            Err(e) => {
                return Err(e);
            },
        };
        let type_ = match self.node_to_ty(type_) {
            Ok(ty) => Some(ty),
            Err(_) => None,
        };
        let (type_, abstract_) = typeconst_kind_of(has_abstract_keyword, constraint, type_);
        let name = match name {
            Ok(name) => name,
            Err(e) => {
                return Err(e);
            },
        };
        let name = match self.get_name("", name) {
            Ok(name) => name,
            Err(e) => {
                return Err(e);
            },
        };
        let decl = ShallowTypeconst {
            abstract_,
            constraint,
            name,
            type_,
            enforceable: match attributes.enforceable {
                Some(pos) => (pos, true),
                None => (Pos::make_none(), false),
            },
            reifiable: attributes.reifiable,
        };
        Ok(Node_::TypeConstant(self.allocate(decl)).with_view())
    }
}

/// The type and the kind of a type constant.
fn typeconst_kind_of<'a>(
    has_abstract_keyword: bool,
    constraint: Option<Ty<'a>>,
    type_: Option<Ty<'a>>,
) -> (r: (Option<Ty<'a>>, TypeconstAbstractKind<'a>))
    ensures
        (opt_ty_view(r.0), r.1@) == typeconst_kind(
            has_abstract_keyword,
            opt_ty_view(constraint),
            opt_ty_view(type_),
        ),
{
    if !has_abstract_keyword {
        if type_.is_none() {
            (constraint, TypeconstAbstractKind::TCConcrete)
        } else if constraint.is_none() {
            (type_, TypeconstAbstractKind::TCConcrete)
        } else {
            (type_, TypeconstAbstractKind::TCPartiallyAbstract)
        }
    } else {
        if type_.is_none() {
            (type_, TypeconstAbstractKind::TCAbstract(None))
        } else {
            (None, TypeconstAbstractKind::TCAbstract(type_))
        }
    }
}

/// Once an import names nothing, no import behind it is recorded.
pub proof fn lemma_add_imports_fail(
    namespaces: NamespaceBuilderView,
    prefix: Seq<char>,
    items: Seq<NodeView>,
    n: nat,
    m: nat,
)
    requires
        0 < n <= m <= items.len(),
        add_imports_first(namespaces, prefix, items, n).1 is Err,
    ensures
        add_imports_first(namespaces, prefix, items, m) == add_imports_first(
            namespaces,
            prefix,
            items,
            n,
        ),
    decreases m - n,
{
    if n < m {
        lemma_add_imports_fail(namespaces, prefix, items, n, (m - 1) as nat);
    }
}

} // verus!
