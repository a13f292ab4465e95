//! Classes, interfaces, traits and enums: their members, and the
//! declarations that assemble them.

use crate::aast::{user_attributes_view, UserAttribute, UserAttributeView};
use crate::ast_defs::{ClassKind, Id, IdView};
use crate::attributes::AttributesView;
use crate::declarations::{
    deprecation_notice, read_member_modifiers, spec_read_member_modifiers, Modifiers,
};
use crate::decls::{declare, DeclsView};
use crate::error::ParseError;
use crate::functions::spec_strip_dollar_prefix;
use crate::functions::DOLLAR;
use crate::lists::NodeResult;
use crate::names::get_name;
use crate::node::{contains_token, lemma_node_view, nodes_view, result_view, Node, NodeView, Node_};
use crate::shallow_decl_defs::{
    consts_view, methods_view, opt_method_view, props_view, typeconsts_view, MethodReactivity,
    MethodReactivityView, ShallowClass, ShallowClassConst, ShallowClassConstView, ShallowClassView,
    ShallowMethod, ShallowMethodView, ShallowProp, ShallowPropView, ShallowTypeconst,
    ShallowTypeconstView,
};
use crate::state::{ClassishNameBuilderView, DirectDeclSmartConstructors, StateView};
use crate::text::str_trim_start_matches;
use crate::token_kind::TokenKind;
use crate::typing_defs::{
    opt_str_view, opt_ty_view, tparams_view, tys_view, EnumType, EnumTypeView, Reactivity,
    ReactivityView, Reason, ReasonView, Tparam, TparamView, Ty, TyView, TyView_, Ty_,
};
use vstd::prelude::*;

verus! {

/// The name of the class that an enum extends.
pub open spec fn builtin_enum_name() -> Seq<char> {
    "\\HH\\BuiltinEnum"@
}

/// The name of the class that a reactivity is conditional on.
pub open spec fn condition_type_name(ty: Option<TyView>) -> Option<Seq<char>> {
    match ty {
        Some(ty) => match *ty.1 {
            TyView_::Tapply(id, _) => Some(id.1),
            _ => None,
        },
        None => None,
    }
}

/// The reactivity of a method, from that of its type.
pub open spec fn method_reactivity(reactivity: ReactivityView) -> Option<MethodReactivityView> {
    match reactivity {
        ReactivityView::Local(ty) => Some(
            MethodReactivityView::MethodLocal(condition_type_name(ty)),
        ),
        ReactivityView::Shallow(ty) => Some(
            MethodReactivityView::MethodShallow(condition_type_name(ty)),
        ),
        ReactivityView::Reactive(ty) => Some(
            MethodReactivityView::MethodReactive(condition_type_name(ty)),
        ),
        _ => None,
    }
}

/// The attributes among the items from `from` on, the last of them first.
pub open spec fn reversed_attributes(items: Seq<NodeView>, from: nat) -> Seq<UserAttributeView>
    decreases items.len() - from,
{
    if from >= items.len() {
        Seq::empty()
    } else {
        match items[from as int] {
            NodeView::Attribute(attr) => reversed_attributes(items, from + 1).push(attr),
            _ => reversed_attributes(items, from + 1),
        }
    }
}

/// The attributes of a declaration, in the reverse of the order in which
/// they are written.
pub open spec fn user_attributes_of(attributes: NodeView) -> Seq<UserAttributeView> {
    reversed_attributes(attributes.items(), 0)
}

/// The kind of a class, from its keyword and its modifiers.
pub open spec fn class_kind_of(class_keyword: NodeView, modifiers: NodeView) -> ClassKind {
    if contains_token(modifiers.items(), TokenKind::Abstract) {
        ClassKind::Cabstract
    } else if class_keyword.is_token(TokenKind::Interface) {
        ClassKind::Cinterface
    } else if class_keyword.is_token(TokenKind::Trait) {
        ClassKind::Ctrait
    } else {
        ClassKind::Cnormal
    }
}

/// The members of a class, sorted by what they are.
pub struct ClassMembersView {
    pub uses: Seq<TyView>,
    pub typeconsts: Seq<ShallowTypeconstView>,
    pub req_extends: Seq<TyView>,
    pub req_implements: Seq<TyView>,
    pub consts: Seq<ShallowClassConstView>,
    pub props: Seq<ShallowPropView>,
    pub sprops: Seq<ShallowPropView>,
    pub constructor: Option<ShallowMethodView>,
    pub static_methods: Seq<ShallowMethodView>,
    pub methods: Seq<ShallowMethodView>,
}

impl ClassMembersView {
    pub open spec fn empty() -> ClassMembersView {
        ClassMembersView {
            uses: Seq::empty(),
            typeconsts: Seq::empty(),
            req_extends: Seq::empty(),
            req_implements: Seq::empty(),
            consts: Seq::empty(),
            props: Seq::empty(),
            sprops: Seq::empty(),
            constructor: None,
            static_methods: Seq::empty(),
            methods: Seq::empty(),
        }
    }
}

impl StateView {
    /// The property that one declarator of a property declaration declares.
    pub open spec fn prop_of(
        self,
        attrs: NodeView,
        modifiers: Modifiers,
        hint: NodeView,
        declarator: NodeView,
    ) -> Result<ShallowPropView, ParseError> {
        match declarator {
            NodeView::ListItem(name, initializer) => match attrs.as_attributes() {
                Err(e) => Err(e),
                Ok(attributes) => match get_name(Seq::empty(), *name) {
                    Err(e) => Err(e),
                    Ok(id) => match self.node_to_ty(hint) {
                        Err(e) => Err(e),
                        Ok(ty) => Ok(
                            ShallowPropView {
                                const_: attributes.const_,
                                lateinit: attributes.late_init,
                                lsb: attributes.lsb,
                                name: IdView(
                                    id.0,
                                    if modifiers.is_static {
                                        id.1
                                    } else {
                                        spec_strip_dollar_prefix(id.1)
                                    },
                                ),
                                needs_init: initializer.is_ignored(),
                                type_: Some(ty),
                                abstract_: modifiers.is_abstract,
                                visibility: modifiers.visibility,
                            },
                        ),
                    },
                },
            },
            _ => Err(ParseError::ExpectedListItem),
        }
    }

    pub open spec fn props_of_first(
        self,
        attrs: NodeView,
        modifiers: Modifiers,
        hint: NodeView,
        declarators: Seq<NodeView>,
        n: nat,
    ) -> Result<Seq<ShallowPropView>, ParseError>
        decreases n,
    {
        if n == 0 || n > declarators.len() {
            Ok(Seq::empty())
        } else {
            match self.props_of_first(attrs, modifiers, hint, declarators, (n - 1) as nat) {
                Err(e) => Err(e),
                Ok(props) => match self.prop_of(attrs, modifiers, hint, declarators[n - 1]) {
                    Err(e) => Err(e),
                    Ok(prop) => Ok(props.push(prop)),
                },
            }
        }
    }

    /// The properties that a property declaration declares: one for each
    /// declarator, all with the type and the modifiers of the declaration.
    pub open spec fn make_property_declaration(
        self,
        attrs: NodeResult,
        modifiers: NodeResult,
        hint: NodeResult,
        declarators: NodeResult,
    ) -> NodeResult {
        match declarators {
            Err(e) => Err(e),
            Ok(NodeView::List(declarators)) => match attrs {
                Err(e) => Err(e),
                Ok(attrs) => match modifiers {
                    Err(e) => Err(e),
                    Ok(modifiers) => match hint {
                        Err(e) => Err(e),
                        Ok(hint) => {
                            let modifiers = spec_read_member_modifiers(modifiers.items());
                            match self.props_of_first(
                                attrs,
                                modifiers,
                                hint,
                                declarators,
                                declarators.len(),
                            ) {
                                Err(e) => Err(e),
                                Ok(decls) => Ok(
                                    NodeView::Property { decls, is_static: modifiers.is_static },
                                ),
                            }
                        },
                    },
                },
            },
            Ok(_) => Err(ParseError::ExpectedList),
        }
    }

    /// What stands for the body of a method where `yield` is looked for: the
    /// body; the token that closes the declaration where there is no body;
    /// nothing where the body failed.
    pub open spec fn method_body(body: NodeResult, closer: NodeResult) -> NodeResult {
        match body {
            Ok(NodeView::Ignored) => closer,
            Ok(body) => Ok(body),
            Err(_) => Ok(NodeView::Ignored),
        }
    }

    /// The method with the name `id` and the type `ty`, on which the
    /// attributes `user_attributes` are written.
    pub open spec fn method_of(
        self,
        modifiers: Modifiers,
        attributes: AttributesView,
        id: IdView,
        ty: TyView,
        user_attributes: Seq<UserAttributeView>,
    ) -> ShallowMethodView {
        ShallowMethodView {
            abstract_: self.classish.in_interface() || modifiers.is_abstract,
            final_: modifiers.is_final,
            memoizelsb: attributes.memoizelsb,
            name: id,
            override_: attributes.override_,
            reactivity: method_reactivity(attributes.reactivity),
            dynamicallycallable: false,
            type_: ty,
            visibility: modifiers.visibility,
            deprecated: deprecation_notice("method"@, id.1, attributes.deprecated),
            user_attributes,
        }
    }

    /// The state and the node after the declaration of a method: the method,
    /// or the constructor with the properties that its parameters declare.
    /// The scope of the type parameters of the method is closed. A method of
    /// an interface is abstract.
    pub open spec fn make_methodish_declaration(
        self,
        attributes: NodeResult,
        header: NodeResult,
        body: NodeResult,
        closer: NodeResult,
    ) -> (StateView, NodeResult) {
        match header {
            Err(e) => (self, Err(e)),
            Ok(NodeView::FunctionHeader(header)) => match attributes {
                Err(e) => (self, Err(e)),
                Ok(attributes) => match Self::method_body(body, closer) {
                    Err(e) => (self, Err(e)),
                    Ok(body) => match self.function_into_ty(
                        Seq::empty(),
                        attributes,
                        *header,
                        body,
                    ) {
                        (_, Err(e)) => (self, Err(e)),
                        (after, Ok((id, ty, properties))) => match attributes.as_attributes() {
                            Err(e) => (after, Err(e)),
                            Ok(parsed) => {
                                let modifiers = spec_read_member_modifiers(
                                    header.modifiers.items(),
                                );
                                let method = after.method_of(
                                    modifiers,
                                    parsed,
                                    id,
                                    ty,
                                    user_attributes_of(attributes),
                                );
                                (
                                    after,
                                    Ok(
                                        if header.name is Construct {
                                            NodeView::Constructor { method, properties }
                                        } else {
                                            NodeView::Method {
                                                method,
                                                is_static: modifiers.is_static,
                                            }
                                        },
                                    ),
                                )
                            },
                        },
                    },
                },
            },
            Ok(_) => (self, Err(ParseError::ExpectedFunctionHeader)),
        }
    }

    /// The types that the first `n` of `nodes` stand for, where the nodes
    /// that are ignored are passed over.
    pub open spec fn kept_tys_of_first(self, nodes: Seq<NodeView>, n: nat) -> Result<
        Seq<TyView>,
        ParseError,
    >
        decreases n,
    {
        if n == 0 || n > nodes.len() {
            Ok(Seq::empty())
        } else {
            match self.kept_tys_of_first(nodes, (n - 1) as nat) {
                Err(e) => Err(e),
                Ok(tys) => if nodes[n - 1].is_ignored() {
                    Ok(tys)
                } else {
                    match self.node_to_ty(nodes[n - 1]) {
                        Err(e) => Err(e),
                        Ok(ty) => Ok(tys.push(ty)),
                    }
                },
            }
        }
    }

    /// The types that the items of a node stand for, the ignored ones passed
    /// over.
    pub open spec fn kept_tys_of(self, node: NodeResult) -> Result<Seq<TyView>, ParseError> {
        match node {
            Err(e) => Err(e),
            Ok(node) => self.kept_tys_of_first(node.items(), node.items().len()),
        }
    }

    /// The members with one more element of the body of a class.
    pub open spec fn add_member(self, members: ClassMembersView, element: NodeView) -> Result<
        ClassMembersView,
        ParseError,
    > {
        match element {
            NodeView::TraitUse(names) => match self.tys_of(names.items()) {
                Err(e) => Err(e),
                Ok(tys) => Ok(ClassMembersView { uses: members.uses + tys, ..members }),
            },
            NodeView::TypeConstant(constant) => Ok(
                ClassMembersView { typeconsts: members.typeconsts.push(constant), ..members },
            ),
            NodeView::RequireClause { require_type, name } => if require_type.is_token(
                TokenKind::Extends,
            ) {
                match self.node_to_ty(*name) {
                    Err(e) => Err(e),
                    Ok(ty) => Ok(
                        ClassMembersView { req_extends: members.req_extends.push(ty), ..members },
                    ),
                }
            } else if require_type.is_token(TokenKind::Implements) {
                match self.node_to_ty(*name) {
                    Err(e) => Err(e),
                    Ok(ty) => Ok(
                        ClassMembersView {
                            req_implements: members.req_implements.push(ty),
                            ..members
                        },
                    ),
                }
            } else {
                Ok(members)
            },
            NodeView::Const(const_decl) => Ok(
                ClassMembersView { consts: members.consts.push(const_decl), ..members },
            ),
            NodeView::Property { decls, is_static } => Ok(
                if is_static {
                    ClassMembersView { sprops: members.sprops + decls, ..members }
                } else {
                    ClassMembersView { props: members.props + decls, ..members }
                },
            ),
            NodeView::Constructor { method, properties } => Ok(
                ClassMembersView {
                    constructor: Some(method),
                    props: members.props + properties,
                    ..members
                },
            ),
            NodeView::Method { method, is_static } => Ok(
                if is_static {
                    ClassMembersView {
                        static_methods: members.static_methods.push(method),
                        ..members
                    }
                } else {
                    ClassMembersView { methods: members.methods.push(method), ..members }
                },
            ),
            // An element of any other kind is none of the pass's business.
            _ => Ok(members),
        }
    }

    /// The members that the first `n` elements of the body of a class make.
    pub open spec fn members_of_first(self, elements: Seq<NodeView>, n: nat) -> Result<
        ClassMembersView,
        ParseError,
    >
        decreases n,
    {
        if n == 0 || n > elements.len() {
            Ok(ClassMembersView::empty())
        } else {
            match self.members_of_first(elements, (n - 1) as nat) {
                Err(e) => Err(e),
                Ok(members) => self.add_member(members, elements[n - 1]),
            }
        }
    }

    /// The state after `cls` is declared as `name`.
    pub open spec fn declare_class(self, name: Seq<char>, cls: ShallowClassView) -> (
        StateView,
        Result<(), ParseError>,
    ) {
        let (classes, r) = declare(self.decls.classes, name, cls, self.duplicate_policy);
        (StateView { decls: DeclsView { classes, ..self.decls }, ..self }, r)
    }

    /// The class with the given head and members.
    pub open spec fn class_of(
        self,
        id: IdView,
        kind: ClassKind,
        final_: bool,
        has_xhp_keyword: bool,
        tparams: Seq<TparamView>,
        extends: Seq<TyView>,
        implements: Seq<TyView>,
        members: ClassMembersView,
        user_attributes: Seq<UserAttributeView>,
    ) -> ShallowClassView {
        ShallowClassView {
            mode: self.file_mode.spec_mode(),
            final_,
            is_xhp: false,
            has_xhp_keyword,
            kind,
            name: id,
            tparams,
            extends,
            uses: members.uses,
            req_extends: members.req_extends,
            req_implements: members.req_implements,
            implements,
            consts: members.consts,
            typeconsts: members.typeconsts,
            props: members.props,
            sprops: members.sprops,
            constructor: members.constructor,
            static_methods: members.static_methods,
            methods: members.methods,
            user_attributes,
            enum_type: None,
        }
    }

    /// The state after the class `cls` is declared and left: the class is in
    /// the table of classes, and the slot for the class that is being read
    /// is empty. Where the declaration is rejected, the slot stays.
    pub open spec fn finish_class(self, name: Seq<char>, cls: ShallowClassView) -> (
        StateView,
        NodeResult,
    ) {
        match self.declare_class(name, cls) {
            (after, Err(e)) => (after, Err(e)),
            (after, Ok(_)) => (
                StateView { classish: ClassishNameBuilderView::NotInClassish, ..after },
                Ok(NodeView::Ignored),
            ),
        }
    }

    /// The state after the declaration of a class, an interface or a trait.
    /// The head is read first, then the members, then the types that the
    /// class extends and implements; only then is the scope of the type
    /// parameters closed.
    pub open spec fn make_classish_declaration(
        self,
        attributes: NodeResult,
        modifiers: NodeResult,
        xhp_keyword: NodeResult,
        class_keyword: NodeResult,
        name: NodeResult,
        tparams: NodeResult,
        extends: NodeResult,
        implements: NodeResult,
        body: NodeResult,
    ) -> (StateView, NodeResult) {
        match self.class_head(attributes, modifiers, class_keyword, name) {
            Err(e) => (self, Err(e)),
            Ok((id, kind, final_, user_attributes)) => match self.class_body(
                body,
                extends,
                implements,
            ) {
                Err(e) => (self, Err(e)),
                Ok((members, extends, implements)) => match tparams {
                    Err(e) => (self, Err(e)),
                    Ok(tparams) => match self.pop_type_params(tparams) {
                        (_, Err(e)) => (self, Err(e)),
                        (popped, Ok(tparams)) => match xhp_keyword {
                            Err(e) => (popped, Err(e)),
                            Ok(xhp_keyword) => popped.finish_class(
                                id.1,
                                popped.class_of(
                                    id,
                                    kind,
                                    final_,
                                    xhp_keyword.is_token(TokenKind::XHP),
                                    tparams,
                                    extends,
                                    implements,
                                    members,
                                    user_attributes,
                                ),
                            ),
                        },
                    },
                },
            },
        }
    }

    /// The name, the kind, whether it is final, and the attributes of a
    /// class.
    pub open spec fn class_head(
        self,
        attributes: NodeResult,
        modifiers: NodeResult,
        class_keyword: NodeResult,
        name: NodeResult,
    ) -> Result<(IdView, ClassKind, bool, Seq<UserAttributeView>), ParseError> {
        match name {
            Err(e) => Err(e),
            Ok(name) => match get_name(self.current_namespace(), name) {
                Err(e) => Err(e),
                Ok(id) => match class_keyword {
                    Err(e) => Err(e),
                    Ok(class_keyword) => match modifiers {
                        Err(e) => Err(e),
                        Ok(modifiers) => match attributes {
                            Err(e) => Err(e),
                            Ok(attributes) => Ok(
                                (
                                    id,
                                    class_kind_of(class_keyword, modifiers),
                                    contains_token(modifiers.items(), TokenKind::Final),
                                    user_attributes_of(attributes),
                                ),
                            ),
                        },
                    },
                },
            },
        }
    }

    /// The members of a class, and the types that it extends and implements.
    pub open spec fn class_body(self, body: NodeResult, extends: NodeResult, implements: NodeResult)
        -> Result<(ClassMembersView, Seq<TyView>, Seq<TyView>), ParseError> {
        match body {
            Err(e) => Err(e),
            Ok(NodeView::ClassishBody(elements)) => match self.members_of_first(
                elements,
                elements.len(),
            ) {
                Err(e) => Err(e),
                Ok(members) => match self.kept_tys_of(extends) {
                    Err(e) => Err(e),
                    Ok(extends) => match self.kept_tys_of(implements) {
                        Err(e) => Err(e),
                        Ok(implements) => Ok((members, extends, implements)),
                    },
                },
            },
            Ok(_) => Err(ParseError::ExpectedClassishBody),
        }
    }

    /// The constant that one case of an enum declares: it has the
    /// underlying type of the enum, witnessed at its value.
    pub open spec fn enum_case_of(self, base: TyView, case: NodeView) -> Result<
        ShallowClassConstView,
        ParseError,
    > {
        match case {
            NodeView::ListItem(name, value) => match self.node_to_expr(*value) {
                Err(e) => Err(e),
                Ok(expr) => match get_name(Seq::empty(), *name) {
                    Err(e) => Err(e),
                    Ok(id) => match value.get_pos() {
                        Err(e) => Err(e),
                        Ok(pos) => Ok(
                            ShallowClassConstView {
                                abstract_: false,
                                expr: Some(expr),
                                name: id,
                                type_: TyView(ReasonView::Rwitness(pos), base.1),
                            },
                        ),
                    },
                },
            },
            _ => Err(ParseError::ExpectedEnumCase),
        }
    }

    pub open spec fn enum_cases_of_first(self, base: TyView, cases: Seq<NodeView>, n: nat)
        -> Result<Seq<ShallowClassConstView>, ParseError>
        decreases n,
    {
        if n == 0 || n > cases.len() {
            Ok(Seq::empty())
        } else {
            match self.enum_cases_of_first(base, cases, (n - 1) as nat) {
                Err(e) => Err(e),
                Ok(consts) => match self.enum_case_of(base, cases[n - 1]) {
                    Err(e) => Err(e),
                    Ok(c) => Ok(consts.push(c)),
                },
            }
        }
    }

    /// The type that an enum of the name `name` extends: the builtin base of
    /// enums, applied to the enum itself.
    pub open spec fn enum_base(self, name: NodeView) -> Result<TyView, ParseError> {
        match name.get_pos() {
            Err(e) => Err(e),
            Ok(pos) => match self.make_apply(IdView(pos, builtin_enum_name()), name, None) {
                Err(e) => Err(e),
                Ok(node) => self.node_to_ty(node),
            },
        }
    }

    /// The class that stands for an enum.
    pub open spec fn enum_class_of(
        self,
        id: IdView,
        base: TyView,
        extends: TyView,
        consts: Seq<ShallowClassConstView>,
        user_attributes: Seq<UserAttributeView>,
        constraint: Option<TyView>,
    ) -> ShallowClassView {
        ShallowClassView {
            mode: self.file_mode.spec_mode(),
            final_: false,
            is_xhp: false,
            has_xhp_keyword: false,
            kind: ClassKind::Cenum,
            name: id,
            tparams: Seq::empty(),
            extends: seq![extends],
            uses: Seq::empty(),
            req_extends: Seq::empty(),
            req_implements: Seq::empty(),
            implements: Seq::empty(),
            consts,
            typeconsts: Seq::empty(),
            props: Seq::empty(),
            sprops: Seq::empty(),
            constructor: None,
            static_methods: Seq::empty(),
            methods: Seq::empty(),
            user_attributes,
            enum_type: Some(EnumTypeView { base, constraint }),
        }
    }

    /// The state after the declaration of an enum: a class of the kind
    /// "enum" is in the table of classes. Its only ancestor is the builtin
    /// base of enums applied to the enum itself; it has one constant for each
    /// case, of the underlying type of the enum.
    pub open spec fn make_enum_declaration(
        self,
        attributes: NodeResult,
        name: NodeResult,
        extends: NodeResult,
        constraint: NodeResult,
        cases: NodeResult,
    ) -> (StateView, NodeResult) {
        match self.enum_parts(attributes, name, extends, constraint, cases) {
            Err(e) => (self, Err(e)),
            Ok((id, cls)) => match self.declare_class(id.1, cls) {
                (after, Err(e)) => (after, Err(e)),
                (after, Ok(_)) => (after, Ok(NodeView::Ignored)),
            },
        }
    }

    /// The name of an enum and the class that stands for it.
    pub open spec fn enum_parts(
        self,
        attributes: NodeResult,
        name: NodeResult,
        extends: NodeResult,
        constraint: NodeResult,
        cases: NodeResult,
    ) -> Result<(IdView, ShallowClassView), ParseError> {
        match name {
            Err(e) => Err(e),
            Ok(name) => match get_name(self.current_namespace(), name) {
                Err(e) => Err(e),
                Ok(id) => match extends {
                    Err(e) => Err(e),
                    Ok(extends) => match self.node_to_ty(extends) {
                        Err(e) => Err(e),
                        Ok(base) => match self.enum_base(name) {
                            Err(e) => Err(e),
                            Ok(ancestor) => match cases {
                                Err(e) => Err(e),
                                Ok(cases) => match self.enum_cases_of_first(
                                    base,
                                    cases.items(),
                                    cases.items().len(),
                                ) {
                                    Err(e) => Err(e),
                                    Ok(consts) => match attributes {
                                        Err(e) => Err(e),
                                        Ok(attributes) => match constraint {
                                            Err(e) => Err(e),
                                            Ok(constraint) => Ok(
                                                (
                                                    id,
                                                    self.enum_class_of(
                                                        id,
                                                        base,
                                                        ancestor,
                                                        consts,
                                                        user_attributes_of(attributes),
                                                        self.constraint_ty_if_any(constraint),
                                                    ),
                                                ),
                                            ),
                                        },
                                    },
                                },
                            },
                        },
                    },
                },
            },
        }
    }
}

pub proof fn lemma_props_fail(
    s: StateView,
    attrs: NodeView,
    modifiers: Modifiers,
    hint: NodeView,
    declarators: Seq<NodeView>,
    n: nat,
    m: nat,
)
    requires
        0 < n <= m <= declarators.len(),
        s.props_of_first(attrs, modifiers, hint, declarators, n) is Err,
    ensures
        s.props_of_first(attrs, modifiers, hint, declarators, m) == s.props_of_first(
            attrs,
            modifiers,
            hint,
            declarators,
            n,
        ),
    decreases m - n,
{
    if n < m {
        lemma_props_fail(s, attrs, modifiers, hint, declarators, n, (m - 1) as nat);
    }
}

pub proof fn lemma_kept_tys_fail(s: StateView, nodes: Seq<NodeView>, n: nat, m: nat)
    requires
        0 < n <= m <= nodes.len(),
        s.kept_tys_of_first(nodes, n) is Err,
    ensures
        s.kept_tys_of_first(nodes, m) == s.kept_tys_of_first(nodes, n),
    decreases m - n,
{
    if n < m {
        lemma_kept_tys_fail(s, nodes, n, (m - 1) as nat);
    }
}

pub proof fn lemma_members_fail(s: StateView, elements: Seq<NodeView>, n: nat, m: nat)
    requires
        0 < n <= m <= elements.len(),
        s.members_of_first(elements, n) is Err,
    ensures
        s.members_of_first(elements, m) == s.members_of_first(elements, n),
    decreases m - n,
{
    if n < m {
        lemma_members_fail(s, elements, n, (m - 1) as nat);
    }
}

pub proof fn lemma_enum_cases_fail(
    s: StateView,
    base: TyView,
    cases: Seq<NodeView>,
    n: nat,
    m: nat,
)
    requires
        0 < n <= m <= cases.len(),
        s.enum_cases_of_first(base, cases, n) is Err,
    ensures
        s.enum_cases_of_first(base, cases, m) == s.enum_cases_of_first(base, cases, n),
    decreases m - n,
{
    if n < m {
        lemma_enum_cases_fail(s, base, cases, n, (m - 1) as nat);
    }
}

/// Puts the elements of `src` behind those of `dst`.
pub fn extend_with<T: Copy>(dst: &mut Vec<T>, src: &Vec<T>)
    ensures
        final(dst)@ == old(dst)@ + src@,
{
    let ghost before = dst@;
    let mut i: usize = 0;
    assert(dst@ =~= before + src@.take(0));
    while i < src.len()
        invariant
            i <= src.len(),
            dst@ == before + src@.take(i as int),
        decreases src.len() - i,
    {
        dst.push(src[i]);
        assert(before + src@.take(i as int + 1) =~= (before + src@.take(i as int)).push(
            src@[i as int],
        ));
        i = i + 1;
    }
    assert(src@.take(src.len() as int) =~= src@);
}

/// The views of types that are held in a vector.
pub open spec fn held_tys_view(tys: Seq<Ty>) -> Seq<TyView> {
    tys.map_values(|t: Ty| t@)
}

/// The members of a class as they are held while its body is read.
pub struct ClassMembers<'a> {
    pub uses: Vec<Ty<'a>>,
    pub typeconsts: Vec<ShallowTypeconst<'a>>,
    pub req_extends: Vec<Ty<'a>>,
    pub req_implements: Vec<Ty<'a>>,
    pub consts: Vec<ShallowClassConst<'a>>,
    pub props: Vec<ShallowProp<'a>>,
    pub sprops: Vec<ShallowProp<'a>>,
    pub constructor: Option<ShallowMethod<'a>>,
    pub static_methods: Vec<ShallowMethod<'a>>,
    pub methods: Vec<ShallowMethod<'a>>,
}

impl<'a> View for ClassMembers<'a> {
    type V = ClassMembersView;

    open spec fn view(&self) -> ClassMembersView {
        ClassMembersView {
            uses: held_tys_view(self.uses@),
            typeconsts: typeconsts_view(self.typeconsts@),
            req_extends: held_tys_view(self.req_extends@),
            req_implements: held_tys_view(self.req_implements@),
            consts: consts_view(self.consts@),
            props: props_view(self.props@),
            sprops: props_view(self.sprops@),
            constructor: opt_method_view(self.constructor),
            static_methods: methods_view(self.static_methods@),
            methods: methods_view(self.methods@),
        }
    }
}

/// The name of the class that the reactivity of a method is conditional on.
fn condition_type_name_of<'a>(ty: Option<Ty<'a>>) -> (r: Option<&'a str>)
    ensures
        opt_str_view(r) == condition_type_name(opt_ty_view(ty)),
{
    match ty {
        Some(ty) => {
            assert(ty@ == TyView(ty.0@, Box::new((*ty.1)@)));
            match *ty.1 {
                Ty_::Tapply(id, _) => Some(id.1),
                _ => None,
            }
        },
        None => None,
    }
}

fn method_reactivity_of<'a>(reactivity: Reactivity<'a>) -> (r: Option<MethodReactivity<'a>>)
    ensures
        crate::shallow_decl_defs::opt_method_reactivity_view(r) == method_reactivity(reactivity@),
{
    match reactivity {
        Reactivity::Local(ty) => Some(MethodReactivity::MethodLocal(condition_type_name_of(ty))),
        Reactivity::Shallow(ty) => Some(
            MethodReactivity::MethodShallow(condition_type_name_of(ty)),
        ),
        Reactivity::Reactive(ty) => Some(
            MethodReactivity::MethodReactive(condition_type_name_of(ty)),
        ),
        _ => None,
    }
}

impl<'a> DirectDeclSmartConstructors<'a> {
    /// The attributes among the items of `attributes`, the last of them
    /// first.
    pub fn user_attributes_of(&self, attributes: Node_<'a>) -> (r: &'a Vec<UserAttribute<'a>>)
        ensures
            user_attributes_view(r@) == user_attributes_of(attributes@),
    {
        let items = attributes.as_slice(self.state.arena);
        let ghost views = nodes_view(items);
        let mut found: Vec<UserAttribute<'a>> = Vec::new();
        assert(user_attributes_view(found@) =~= Seq::<UserAttributeView>::empty());
        let mut i: usize = items.len();
        while i > 0
            invariant
                i <= items.len(),
                views == nodes_view(items),
                user_attributes_view(found@) == reversed_attributes(views, i as nat),
            decreases i,
        {
            let ghost before = user_attributes_view(found@);
            match items[i - 1].as_attribute() {
                Some(attr) => {
                    found.push(attr);
                    assert(user_attributes_view(found@) =~= before.push(attr@));
                },
                None => {},
            }
            i = i - 1;
        }
        // The order is the reverse of the one in the source: consumers of
        // the declarations expect it so.
        let ghost built = user_attributes_view(found@);
        let r = self.allocate(found);
        assert(user_attributes_view(r@) =~= built);
        r
    }

    /// The property that the declarator `declarator` declares.
    fn prop_of(
        &self,
        attrs: Node_<'a>,
        modifiers: Modifiers,
        hint: Node_<'a>,
        declarator: Node_<'a>,
    ) -> (r: Result<ShallowProp<'a>, ParseError>)
        ensures
            match r {
                Ok(prop) => self@.prop_of(attrs@, modifiers, hint@, declarator@) == Ok::<
                    ShallowPropView,
                    ParseError,
                >(prop@),
                Err(e) => self@.prop_of(attrs@, modifiers, hint@, declarator@) == Err::<
                    ShallowPropView,
                    ParseError,
                >(e),
            },
    {
        proof {
            reveal_strlit("");
            assert(""@ =~= Seq::<char>::empty());
        }
        let (name, initializer) = match declarator.as_list_item() {
            Some(r) => r,
            None => {
                return Err(ParseError::ExpectedListItem);
            },
        };
        let attributes = match attrs.as_attributes(self.state.arena) {
            Ok(attributes) => attributes,
            Err(e) => {
                return Err(e);
            },
        };
        let id = match self.get_name("", name) {
            Ok(id) => id,
            Err(e) => {
                return Err(e);
            },
        };
        let name = if modifiers.is_static {
            id.1
        } else {
            str_trim_start_matches(id.1, DOLLAR)
        };
        let ty = match self.node_to_ty(hint) {
            Ok(ty) => ty,
            Err(e) => {
                return Err(e);
            },
        };
        Ok(
            ShallowProp {
                const_: attributes.const_,
                lateinit: attributes.late_init,
                lsb: attributes.lsb,
                name: Id(id.0, name),
                needs_init: initializer.is_ignored(),
                type_: Some(ty),
                abstract_: modifiers.is_abstract,
                visibility: modifiers.visibility,
            },
        )
    }

    pub fn make_property_declaration(
        &mut self,
        attrs: Node<'a>,
        modifiers: Node<'a>,
        hint: Node<'a>,
        declarators: Node<'a>,
        _arg4: Node<'a>,
    ) -> (r: Node<'a>)
        ensures
            final(self)@ == old(self)@,
            result_view(r) == old(self)@.make_property_declaration(
                result_view(attrs),
                result_view(modifiers),
                result_view(hint),
                result_view(declarators),
            ),
    {
        let declarators_node = match declarators {
            Ok(node) => node,
            Err(e) => {
                return Err(e);
            },
        };
        let nodes = match declarators_node.as_list() {
            Some(nodes) => nodes,
            None => {
                return Err(ParseError::ExpectedList);
            },
        };
        let attrs_node = match attrs {
            Ok(node) => node,
            Err(e) => {
                return Err(e);
            },
        };
        let modifiers_node = match modifiers {
            Ok(node) => node,
            Err(e) => {
                return Err(e);
            },
        };
        let member_modifiers = read_member_modifiers(modifiers_node.as_slice(self.state.arena));
        let hint_node = match hint {
            Ok(node) => node,
            Err(e) => {
                return Err(e);
            },
        };
        let ghost views = nodes_view(nodes);
        let mut decls: Vec<ShallowProp<'a>> = Vec::new();
        assert(props_view(decls@) =~= Seq::<ShallowPropView>::empty());
        let mut i: usize = 0;
        while i < nodes.len()
            invariant
                i <= nodes.len(),
                views == nodes_view(nodes),
                self@ == old(self)@,
                result_view(declarators) == Ok::<NodeView, ParseError>(NodeView::List(views)),
                result_view(attrs) == Ok::<NodeView, ParseError>(attrs_node@),
                result_view(modifiers) == Ok::<NodeView, ParseError>(modifiers_node@),
                result_view(hint) == Ok::<NodeView, ParseError>(hint_node@),
                member_modifiers == spec_read_member_modifiers(modifiers_node@.items()),
                self@.props_of_first(attrs_node@, member_modifiers, hint_node@, views, i as nat)
                    == Ok::<Seq<ShallowPropView>, ParseError>(props_view(decls@)),
            decreases nodes.len() - i,
        {
            let ghost before = props_view(decls@);
            match self.prop_of(attrs_node, member_modifiers, hint_node, nodes[i]) {
                Err(e) => {
                    proof {
                        lemma_props_fail(
                            self@,
                            attrs_node@,
                            member_modifiers,
                            hint_node@,
                            views,
                            (i + 1) as nat,
                            nodes.len() as nat,
                        );
                    }
                    return Err(e);
                },
                Ok(prop) => {
                    decls.push(prop);
                    assert(props_view(decls@) =~= before.push(prop@));
                },
            }
            i = i + 1;
        }
        let ghost built = props_view(decls@);
        let decls = self.allocate(decls);
        assert(props_view(decls@) =~= built);
        Ok(Node_::Property { decls, is_static: member_modifiers.is_static }.with_view())
    }

    /// What stands for the body of a method where `yield` is looked for.
    fn method_body(body: Node<'a>, closer: Node<'a>) -> (r: Node<'a>)
        ensures
            result_view(r) == StateView::method_body(result_view(body), result_view(closer)),
    {
        match body {
            Ok(body) => {
                // Without a body the closing token stands in: `}` for a
                // method with a body, `;` for an abstract one.
                if body.is_ignored() {
                    closer
                } else {
                    Ok(body)
                }
            },
            Err(_) => Ok(Node_::Ignored.with_view()),
        }
    }

    pub fn make_methodish_declaration(
        &mut self,
        attributes: Node<'a>,
        header: Node<'a>,
        body: Node<'a>,
        closer: Node<'a>,
    ) -> (r: Node<'a>)
        ensures
            old(self)@.wf() ==> final(self)@.wf(),
            final(self)@ == old(self)@.make_methodish_declaration(
                result_view(attributes),
                result_view(header),
                result_view(body),
                result_view(closer),
            ).0,
            result_view(r) == old(self)@.make_methodish_declaration(
                result_view(attributes),
                result_view(header),
                result_view(body),
                result_view(closer),
            ).1,
    {
        proof {
            reveal_strlit("");
            assert(""@ =~= Seq::<char>::empty());
        }
        let header = match header {
            Ok(header) => header,
            Err(e) => {
                return Err(e);
            },
        };
        let header = match header.as_function_header() {
            Some(header) => header,
            None => {
                return Err(ParseError::ExpectedFunctionHeader);
            },
        };
        let attributes = match attributes {
            Ok(attributes) => attributes,
            Err(e) => {
                return Err(e);
            },
        };
        let body = match Self::method_body(body, closer) {
            Ok(body) => body,
            Err(e) => {
                return Err(e);
            },
        };
        let modifiers = read_member_modifiers(header.modifiers.as_slice(self.state.arena));
        let is_constructor = header.name.as_construct().is_some();
        let (id, ty, properties) = match self.function_into_ty("", attributes, header, body) {
            Ok(r) => r,
            Err(e) => {
                return Err(e);
            },
        };
        let user_attributes = self.user_attributes_of(attributes);
        let attributes = match attributes.as_attributes(self.state.arena) {
            Ok(attributes) => attributes,
            Err(e) => {
                return Err(e);
            },
        };
        let method = ShallowMethod {
            abstract_: self.state.classish_name_builder.in_interface() || modifiers.is_abstract,
            final_: modifiers.is_final,
            memoizelsb: attributes.memoizelsb,
            name: id,
            override_: attributes.override_,
            reactivity: method_reactivity_of(attributes.reactivity),
            dynamicallycallable: false,
            type_: ty,
            visibility: modifiers.visibility,
            deprecated: self.deprecation_notice("method", id.1, attributes.deprecated),
            user_attributes,
        };
        let method = self.allocate(method);
        if is_constructor {
            Ok(Node_::Constructor { method, properties }.with_view())
        } else {
            Ok(Node_::Method { method, is_static: modifiers.is_static }.with_view())
        }
    }

    /// The types that the items of `node` stand for, the ignored ones passed
    /// over.
    pub fn kept_tys_of(&self, node: Node<'a>) -> (r: Result<&'a Vec<Ty<'a>>, ParseError>)
        ensures
            match r {
                Ok(tys) => self@.kept_tys_of(result_view(node)) == Ok::<Seq<TyView>, ParseError>(
                    tys_view(tys),
                ),
                Err(e) => self@.kept_tys_of(result_view(node)) == Err::<Seq<TyView>, ParseError>(
                    e,
                ),
            },
    {
        let inner = match node {
            Ok(inner) => inner,
            Err(e) => {
                return Err(e);
            },
        };
        let nodes = inner.as_slice(self.state.arena);
        let ghost views = nodes_view(nodes);
        let mut tys: Vec<Ty<'a>> = Vec::new();
        assert(held_tys_view(tys@) =~= Seq::<TyView>::empty());
        let mut i: usize = 0;
        while i < nodes.len()
            invariant
                i <= nodes.len(),
                views == nodes_view(nodes),
                result_view(node) == Ok::<NodeView, ParseError>(inner@),
                views == inner@.items(),
                self@.kept_tys_of_first(views, i as nat) == Ok::<Seq<TyView>, ParseError>(
                    held_tys_view(tys@),
                ),
            decreases nodes.len() - i,
        {
            let ghost before = held_tys_view(tys@);
            if !nodes[i].is_ignored() {
                match self.node_to_ty(nodes[i]) {
                    Err(e) => {
                        proof {
                            lemma_kept_tys_fail(self@, views, (i + 1) as nat, nodes.len() as nat);
                        }
                        return Err(e);
                    },
                    Ok(ty) => {
                        tys.push(ty);
                        assert(held_tys_view(tys@) =~= before.push(ty@));
                    },
                }
            }
            i = i + 1;
        }
        let ghost built = held_tys_view(tys@);
        let r = self.allocate(tys);
        assert(tys_view(r) =~= built);
        Ok(r)
    }

    /// Sorts one more element of the body of a class into `members`.
    fn add_member(&self, members: &mut ClassMembers<'a>, element: Node_<'a>) -> (r: Result<
        (),
        ParseError,
    >)
        ensures
            match r {
                Ok(_) => self@.add_member(old(members)@, element@) == Ok::<
                    ClassMembersView,
                    ParseError,
                >(final(members)@),
                Err(e) => self@.add_member(old(members)@, element@) == Err::<
                    ClassMembersView,
                    ParseError,
                >(e),
            },
    {
        proof {
            lemma_node_view(element);
        }
        match element {
            Node_::TraitUse(names) => {
                match self.nodes_to_tys(names.as_slice(self.state.arena)) {
                    Err(e) => Err(e),
                    Ok(tys) => {
                        let ghost before = held_tys_view(members.uses@);
                        extend_with(&mut members.uses, tys);
                        assert(held_tys_view(members.uses@) =~= before + tys_view(tys));
                        Ok(())
                    },
                }
            },
            Node_::TypeConstant(constant) => {
                let ghost before = typeconsts_view(members.typeconsts@);
                members.typeconsts.push(*constant);
                assert(typeconsts_view(members.typeconsts@) =~= before.push(constant@));
                Ok(())
            },
            Node_::RequireClause(require) => {
                if require.require_type.is_token(TokenKind::Extends) {
                    match self.node_to_ty(require.name) {
                        Err(e) => Err(e),
                        Ok(ty) => {
                            let ghost before = held_tys_view(members.req_extends@);
                            members.req_extends.push(ty);
                            assert(held_tys_view(members.req_extends@) =~= before.push(ty@));
                            Ok(())
                        },
                    }
                } else if require.require_type.is_token(TokenKind::Implements) {
                    match self.node_to_ty(require.name) {
                        Err(e) => Err(e),
                        Ok(ty) => {
                            let ghost before = held_tys_view(members.req_implements@);
                            members.req_implements.push(ty);
                            assert(held_tys_view(members.req_implements@) =~= before.push(ty@));
                            Ok(())
                        },
                    }
                } else {
                    Ok(())
                }
            },
            Node_::Const(const_decl) => {
                let ghost before = consts_view(members.consts@);
                members.consts.push(*const_decl);
                assert(consts_view(members.consts@) =~= before.push(const_decl@));
                Ok(())
            },
            Node_::Property { decls, is_static } => {
                if is_static {
                    let ghost before = props_view(members.sprops@);
                    extend_with(&mut members.sprops, decls);
                    assert(props_view(members.sprops@) =~= before + props_view(decls@));
                } else {
                    let ghost before = props_view(members.props@);
                    extend_with(&mut members.props, decls);
                    assert(props_view(members.props@) =~= before + props_view(decls@));
                }
                Ok(())
            },
            Node_::Constructor { method, properties } => {
                members.constructor = Some(*method);
                let ghost before = props_view(members.props@);
                extend_with(&mut members.props, properties);
                assert(props_view(members.props@) =~= before + props_view(properties@));
                Ok(())
            },
            Node_::Method { method, is_static } => {
                if is_static {
                    let ghost before = methods_view(members.static_methods@);
                    members.static_methods.push(*method);
                    assert(methods_view(members.static_methods@) =~= before.push(method@));
                } else {
                    let ghost before = methods_view(members.methods@);
                    members.methods.push(*method);
                    assert(methods_view(members.methods@) =~= before.push(method@));
                }
                Ok(())
            },
            _ => Ok(()),
        }
    }

    /// The members that the elements `elements` of the body of a class make.
    fn members_of(&self, elements: &'a Vec<Node_<'a>>) -> (r: Result<ClassMembers<'a>, ParseError>)
        ensures
            match r {
                Ok(members) => self@.members_of_first(
                    nodes_view(elements),
                    elements.len() as nat,
                ) == Ok::<ClassMembersView, ParseError>(members@),
                Err(e) => self@.members_of_first(nodes_view(elements), elements.len() as nat)
                    == Err::<ClassMembersView, ParseError>(e),
            },
    {
        let ghost views = nodes_view(elements);
        let mut members = ClassMembers {
            uses: Vec::new(),
            typeconsts: Vec::new(),
            req_extends: Vec::new(),
            req_implements: Vec::new(),
            consts: Vec::new(),
            props: Vec::new(),
            sprops: Vec::new(),
            constructor: None,
            static_methods: Vec::new(),
            methods: Vec::new(),
        };
        proof {
            assert(members@.uses =~= Seq::empty());
            assert(members@.typeconsts =~= Seq::empty());
            assert(members@.req_extends =~= Seq::empty());
            assert(members@.req_implements =~= Seq::empty());
            assert(members@.consts =~= Seq::empty());
            assert(members@.props =~= Seq::empty());
            assert(members@.sprops =~= Seq::empty());
            assert(members@.static_methods =~= Seq::empty());
            assert(members@.methods =~= Seq::empty());
        }
        let mut i: usize = 0;
        while i < elements.len()
            invariant
                i <= elements.len(),
                views == nodes_view(elements),
                self@.members_of_first(views, i as nat) == Ok::<ClassMembersView, ParseError>(
                    members@,
                ),
            decreases elements.len() - i,
        {
            match self.add_member(&mut members, elements[i]) {
                Err(e) => {
                    proof {
                        lemma_members_fail(self@, views, (i + 1) as nat, elements.len() as nat);
                    }
                    return Err(e);
                },
                Ok(_) => {},
            }
            i = i + 1;
        }
        Ok(members)
    }

    /// The kind of the class with the keyword `class_keyword` and the
    /// modifiers `modifiers`.
    fn class_kind_of(&self, class_keyword: Node_<'a>, modifiers: &'a Vec<Node_<'a>>) -> (r:
        ClassKind)
        ensures
            r == if contains_token(nodes_view(modifiers), TokenKind::Abstract) {
                ClassKind::Cabstract
            } else if class_keyword@.is_token(TokenKind::Interface) {
                ClassKind::Cinterface
            } else if class_keyword@.is_token(TokenKind::Trait) {
                ClassKind::Ctrait
            } else {
                ClassKind::Cnormal
            },
    {
        if Node_::any_token(modifiers, TokenKind::Abstract) {
            ClassKind::Cabstract
        } else if class_keyword.is_token(TokenKind::Interface) {
            ClassKind::Cinterface
        } else if class_keyword.is_token(TokenKind::Trait) {
            ClassKind::Ctrait
        } else {
            ClassKind::Cnormal
        }
    }

    /// The name, the kind, whether it is final, and the attributes of a
    /// class.
    fn class_head(
        &self,
        attributes: Node<'a>,
        modifiers: Node<'a>,
        class_keyword: Node<'a>,
        name: Node<'a>,
    ) -> (r: Result<(Id<'a>, ClassKind, bool, &'a Vec<UserAttribute<'a>>), ParseError>)
        ensures
            match r {
                Ok((id, kind, final_, user_attributes)) => self@.class_head(
                    result_view(attributes),
                    result_view(modifiers),
                    result_view(class_keyword),
                    result_view(name),
                ) == Ok::<(IdView, ClassKind, bool, Seq<UserAttributeView>), ParseError>(
                    (id@, kind, final_, user_attributes_view(user_attributes@)),
                ),
                Err(e) => self@.class_head(
                    result_view(attributes),
                    result_view(modifiers),
                    result_view(class_keyword),
                    result_view(name),
                ) == Err::<(IdView, ClassKind, bool, Seq<UserAttributeView>), ParseError>(e),
            },
    {
        let name = match name {
            Ok(name) => name,
            Err(e) => {
                return Err(e);
            },
        };
        let id = match self.get_name(self.state.namespace_builder.current_namespace(), name) {
            Ok(id) => id,
            Err(e) => {
                return Err(e);
            },
        };
        let class_keyword = match class_keyword {
            Ok(class_keyword) => class_keyword,
            Err(e) => {
                return Err(e);
            },
        };
        let modifiers = match modifiers {
            Ok(modifiers) => modifiers,
            Err(e) => {
                return Err(e);
            },
        };
        let modifiers = modifiers.as_slice(self.state.arena);
        let kind = self.class_kind_of(class_keyword, modifiers);
        let final_ = Node_::any_token(modifiers, TokenKind::Final);
        let attributes = match attributes {
            Ok(attributes) => attributes,
            Err(e) => {
                return Err(e);
            },
        };
        Ok((id, kind, final_, self.user_attributes_of(attributes)))
    }

    /// The members of a class, and the types that it extends and implements.
    fn class_body(&self, body: Node<'a>, extends: Node<'a>, implements: Node<'a>) -> (r: Result<
        (ClassMembers<'a>, &'a Vec<Ty<'a>>, &'a Vec<Ty<'a>>),
        ParseError,
    >)
        ensures
            match r {
                Ok((members, extends_tys, implements_tys)) => self@.class_body(
                    result_view(body),
                    result_view(extends),
                    result_view(implements),
                ) == Ok::<(ClassMembersView, Seq<TyView>, Seq<TyView>), ParseError>(
                    (members@, tys_view(extends_tys), tys_view(implements_tys)),
                ),
                Err(e) => self@.class_body(
                    result_view(body),
                    result_view(extends),
                    result_view(implements),
                ) == Err::<(ClassMembersView, Seq<TyView>, Seq<TyView>), ParseError>(e),
            },
    {
        let body = match body {
            Ok(body) => body,
            Err(e) => {
                return Err(e);
            },
        };
        let elements = match body.as_classish_body() {
            Some(elements) => elements,
            None => {
                return Err(ParseError::ExpectedClassishBody);
            },
        };
        let members = match self.members_of(elements) {
            Ok(members) => members,
            Err(e) => {
                return Err(e);
            },
        };
        let extends = match self.kept_tys_of(extends) {
            Ok(extends) => extends,
            Err(e) => {
                return Err(e);
            },
        };
        let implements = match self.kept_tys_of(implements) {
            Ok(implements) => implements,
            Err(e) => {
                return Err(e);
            },
        };
        Ok((members, extends, implements))
    }

    /// The class with the given head and members.
    fn class_of(
        &self,
        id: Id<'a>,
        kind: ClassKind,
        final_: bool,
        has_xhp_keyword: bool,
        tparams: &'a Vec<Tparam<'a>>,
        extends: &'a Vec<Ty<'a>>,
        implements: &'a Vec<Ty<'a>>,
        members: ClassMembers<'a>,
        user_attributes: &'a Vec<UserAttribute<'a>>,
    ) -> (r: ShallowClass<'a>)
        ensures
            r@ == self@.class_of(
                id@,
                kind,
                final_,
                has_xhp_keyword,
                tparams_view(tparams),
                tys_view(extends),
                tys_view(implements),
                members@,
                user_attributes_view(user_attributes@),
            ),
    {
        let ghost view = members@;
        let ClassMembers {
            uses,
            typeconsts,
            req_extends,
            req_implements,
            consts,
            props,
            sprops,
            constructor,
            static_methods,
            methods,
        } = members;
        let uses = self.allocate(uses);
        let req_extends = self.allocate(req_extends);
        let req_implements = self.allocate(req_implements);
        proof {
            assert(tys_view(uses) =~= view.uses);
            assert(tys_view(req_extends) =~= view.req_extends);
            assert(tys_view(req_implements) =~= view.req_implements);
        }
        ShallowClass {
            mode: self.state.file_mode_builder.mode(),
            final_,
            is_xhp: false,
            has_xhp_keyword,
            kind,
            name: id,
            tparams,
            extends,
            uses,
            req_extends,
            req_implements,
            implements,
            consts: self.allocate(consts),
            typeconsts: self.allocate(typeconsts),
            props: self.allocate(props),
            sprops: self.allocate(sprops),
            constructor,
            static_methods: self.allocate(static_methods),
            methods: self.allocate(methods),
            user_attributes,
            enum_type: None,
        }
    }

    /// Declares `cls` as `name`.
    fn declare_class(&mut self, name: &'a str, cls: ShallowClass<'a>) -> (r: Result<(), ParseError>)
        requires
            old(self)@.wf(),
        ensures
            final(self)@.wf(),
            final(self)@ == old(self)@.declare_class(name@, cls@).0,
            r == old(self)@.declare_class(name@, cls@).1,
    {
        let policy = self.state.duplicate_policy;
        self.state.decls.add_class(name, cls, policy)
    }

    /// Declares `cls` as `name` and leaves the class.
    fn finish_class(&mut self, name: &'a str, cls: ShallowClass<'a>) -> (r: Node<'a>)
        requires
            old(self)@.wf(),
        ensures
            final(self)@.wf(),
            final(self)@ == old(self)@.finish_class(name@, cls@).0,
            result_view(r) == old(self)@.finish_class(name@, cls@).1,
    {
        match self.declare_class(name, cls) {
            Err(e) => Err(e),
            Ok(_) => {
                self.state.classish_name_builder.parsed_classish_declaration();
                Ok(Node_::Ignored.with_view())
            },
        }
    }

    pub fn make_classish_declaration(
        &mut self,
        attributes: Node<'a>,
        modifiers: Node<'a>,
        xhp_keyword: Node<'a>,
        class_keyword: Node<'a>,
        name: Node<'a>,
        tparams: Node<'a>,
        _arg5: Node<'a>,
        extends: Node<'a>,
        _arg7: Node<'a>,
        implements: Node<'a>,
        _arg9: Node<'a>,
        body: Node<'a>,
    ) -> (r: Node<'a>)
        requires
            old(self)@.wf(),
        ensures
            final(self)@.wf(),
            final(self)@ == old(self)@.make_classish_declaration(
                result_view(attributes),
                result_view(modifiers),
                result_view(xhp_keyword),
                result_view(class_keyword),
                result_view(name),
                result_view(tparams),
                result_view(extends),
                result_view(implements),
                result_view(body),
            ).0,
            result_view(r) == old(self)@.make_classish_declaration(
                result_view(attributes),
                result_view(modifiers),
                result_view(xhp_keyword),
                result_view(class_keyword),
                result_view(name),
                result_view(tparams),
                result_view(extends),
                result_view(implements),
                result_view(body),
            ).1,
    {
        let (id, kind, final_, user_attributes) = match self.class_head(
            attributes,
            modifiers,
            class_keyword,
            name,
        ) {
            Ok(head) => head,
            Err(e) => {
                return Err(e);
            },
        };
        let (members, extends, implements) = match self.class_body(body, extends, implements) {
            Ok(body) => body,
            Err(e) => {
                return Err(e);
            },
        };
        let tparams = match tparams {
            Ok(tparams) => tparams,
            Err(e) => {
                return Err(e);
            },
        };
        // The type parameters go out of scope only now that every type
        // inside the class is built.
        let tparams = match self.pop_type_params(tparams) {
            Ok(tparams) => tparams,
            Err(e) => {
                return Err(e);
            },
        };
        let xhp_keyword = match xhp_keyword {
            Ok(xhp_keyword) => xhp_keyword,
            Err(e) => {
                return Err(e);
            },
        };
        let cls = self.class_of(
            id,
            kind,
            final_,
            xhp_keyword.is_token(TokenKind::XHP),
            tparams,
            extends,
            implements,
            members,
            user_attributes,
        );
        self.finish_class(id.1, cls)
    }

    /// The constant that the case `case` of an enum declares.
    fn enum_case_of(&self, base: Ty<'a>, case: Node_<'a>) -> (r: Result<
        ShallowClassConst<'a>,
        ParseError,
    >)
        ensures
            match r {
                Ok(c) => self@.enum_case_of(base@, case@) == Ok::<
                    ShallowClassConstView,
                    ParseError,
                >(c@),
                Err(e) => self@.enum_case_of(base@, case@) == Err::<
                    ShallowClassConstView,
                    ParseError,
                >(e),
            },
    {
        proof {
            reveal_strlit("");
            assert(""@ =~= Seq::<char>::empty());
        }
        let (name, value) = match case.as_list_item() {
            Some(r) => r,
            None => {
                return Err(ParseError::ExpectedEnumCase);
            },
        };
        let expr = match self.node_to_expr(value) {
            Ok(expr) => expr,
            Err(e) => {
                return Err(e);
            },
        };
        let id = match self.get_name("", name) {
            Ok(id) => id,
            Err(e) => {
                return Err(e);
            },
        };
        let pos = match value.get_pos() {
            Ok(pos) => pos,
            Err(e) => {
                return Err(e);
            },
        };
        assert(base@ == TyView(base.0@, Box::new((*base.1)@)));
        let type_ = Ty(Reason::Rwitness(pos), base.1);
        assert(type_@ == TyView(ReasonView::Rwitness(pos@), Box::new((*base.1)@)));
        Ok(ShallowClassConst { abstract_: false, expr: Some(expr), name: id, type_ })
    }

    fn enum_cases_of(&self, base: Ty<'a>, cases: Node_<'a>) -> (r: Result<
        &'a Vec<ShallowClassConst<'a>>,
        ParseError,
    >)
        ensures
            match r {
                Ok(consts) => self@.enum_cases_of_first(
                    base@,
                    cases@.items(),
                    cases@.items().len(),
                ) == Ok::<Seq<ShallowClassConstView>, ParseError>(consts_view(consts@)),
                Err(e) => self@.enum_cases_of_first(base@, cases@.items(), cases@.items().len())
                    == Err::<Seq<ShallowClassConstView>, ParseError>(e),
            },
    {
        let nodes = cases.as_slice(self.state.arena);
        let ghost views = nodes_view(nodes);
        let mut consts: Vec<ShallowClassConst<'a>> = Vec::new();
        assert(consts_view(consts@) =~= Seq::<ShallowClassConstView>::empty());
        let mut i: usize = 0;
        while i < nodes.len()
            invariant
                i <= nodes.len(),
                views == nodes_view(nodes),
                views == cases@.items(),
                self@.enum_cases_of_first(base@, views, i as nat) == Ok::<
                    Seq<ShallowClassConstView>,
                    ParseError,
                >(consts_view(consts@)),
            decreases nodes.len() - i,
        {
            let ghost before = consts_view(consts@);
            match self.enum_case_of(base, nodes[i]) {
                Err(e) => {
                    proof {
                        lemma_enum_cases_fail(
                            self@,
                            base@,
                            views,
                            (i + 1) as nat,
                            nodes.len() as nat,
                        );
                    }
                    return Err(e);
                },
                Ok(c) => {
                    consts.push(c);
                    assert(consts_view(consts@) =~= before.push(c@));
                },
            }
            i = i + 1;
        }
        let ghost built = consts_view(consts@);
        let r = self.allocate(consts);
        assert(consts_view(r@) =~= built);
        Ok(r)
    }

    /// The type that the enum of the name `name` extends.
    fn enum_base(&self, name: Node_<'a>) -> (r: Result<Ty<'a>, ParseError>)
        ensures
            crate::type_hint::ty_result_view(r) == self@.enum_base(name@),
    {
        let pos = match name.get_pos() {
            Ok(pos) => pos,
            Err(e) => {
                return Err(e);
            },
        };
        match self.make_apply(Id(pos, "\\HH\\BuiltinEnum"), name, None) {
            Err(e) => Err(e),
            Ok(node) => self.node_to_ty(node),
        }
    }

    /// The class that stands for an enum.
    fn enum_class_of(
        &self,
        id: Id<'a>,
        base: Ty<'a>,
        extends: Ty<'a>,
        consts: &'a Vec<ShallowClassConst<'a>>,
        user_attributes: &'a Vec<UserAttribute<'a>>,
        constraint: Option<Ty<'a>>,
    ) -> (r: ShallowClass<'a>)
        ensures
            r@ == self@.enum_class_of(
                id@,
                base@,
                extends@,
                consts_view(consts@),
                user_attributes_view(user_attributes@),
                opt_ty_view(constraint),
            ),
    {
        let tparams: Vec<Tparam<'a>> = Vec::new();
        let tparams = self.allocate(tparams);
        let mut ancestors: Vec<Ty<'a>> = Vec::new();
        ancestors.push(extends);
        let ancestors = self.allocate(ancestors);
        let no_tys: Vec<Ty<'a>> = Vec::new();
        let no_tys = self.allocate(no_tys);
        let no_typeconsts: Vec<ShallowTypeconst<'a>> = Vec::new();
        let no_typeconsts = self.allocate(no_typeconsts);
        let no_props: Vec<ShallowProp<'a>> = Vec::new();
        let no_props = self.allocate(no_props);
        let no_methods: Vec<ShallowMethod<'a>> = Vec::new();
        let no_methods = self.allocate(no_methods);
        proof {
            assert(tparams_view(tparams) =~= Seq::<TparamView>::empty());
            assert(tys_view(ancestors) =~= seq![extends@]);
            assert(tys_view(no_tys) =~= Seq::<TyView>::empty());
            assert(typeconsts_view(no_typeconsts@) =~= Seq::<ShallowTypeconstView>::empty());
            assert(props_view(no_props@) =~= Seq::<ShallowPropView>::empty());
            assert(methods_view(no_methods@) =~= Seq::<ShallowMethodView>::empty());
        }
        ShallowClass {
            mode: self.state.file_mode_builder.mode(),
            final_: false,
            is_xhp: false,
            has_xhp_keyword: false,
            kind: ClassKind::Cenum,
            name: id,
            tparams,
            extends: ancestors,
            uses: no_tys,
            req_extends: no_tys,
            req_implements: no_tys,
            implements: no_tys,
            consts,
            typeconsts: no_typeconsts,
            props: no_props,
            sprops: no_props,
            constructor: None,
            static_methods: no_methods,
            methods: no_methods,
            user_attributes,
            enum_type: Some(EnumType { base, constraint }),
        }
    }

    /// The name of an enum and the class that stands for it.
    fn enum_parts(
        &self,
        attributes: Node<'a>,
        name: Node<'a>,
        extends: Node<'a>,
        constraint: Node<'a>,
        cases: Node<'a>,
    ) -> (r: Result<(Id<'a>, ShallowClass<'a>), ParseError>)
        ensures
            match r {
                Ok((id, cls)) => self@.enum_parts(
                    result_view(attributes),
                    result_view(name),
                    result_view(extends),
                    result_view(constraint),
                    result_view(cases),
                ) == Ok::<(IdView, ShallowClassView), ParseError>((id@, cls@)),
                Err(e) => self@.enum_parts(
                    result_view(attributes),
                    result_view(name),
                    result_view(extends),
                    result_view(constraint),
                    result_view(cases),
                ) == Err::<(IdView, ShallowClassView), ParseError>(e),
            },
    {
        let name = match name {
            Ok(name) => name,
            Err(e) => {
                return Err(e);
            },
        };
        let id = match self.get_name(self.state.namespace_builder.current_namespace(), name) {
            Ok(id) => id,
            Err(e) => {
                return Err(e);
            },
        };
        let extends = match extends {
            Ok(extends) => extends,
            Err(e) => {
                return Err(e);
            },
        };
        let base = match self.node_to_ty(extends) {
            Ok(base) => base,
            Err(e) => {
                return Err(e);
            },
        };
        let ancestor = match self.enum_base(name) {
            Ok(ancestor) => ancestor,
            Err(e) => {
                return Err(e);
            },
        };
        let cases = match cases {
            Ok(cases) => cases,
            Err(e) => {
                return Err(e);
            },
        };
        let consts = match self.enum_cases_of(base, cases) {
            Ok(consts) => consts,
            Err(e) => {
                return Err(e);
            },
        };
        let attributes = match attributes {
            Ok(attributes) => attributes,
            Err(e) => {
                return Err(e);
            },
        };
        let user_attributes = self.user_attributes_of(attributes);
        let constraint = match constraint {
            Ok(constraint) => constraint,
            Err(e) => {
                return Err(e);
            },
        };
        let constraint = self.constraint_ty_if_any(constraint);
        Ok((id, self.enum_class_of(id, base, ancestor, consts, user_attributes, constraint)))
    }

    pub fn make_enum_declaration(
        &mut self,
        attributes: Node<'a>,
        _arg1: Node<'a>,
        name: Node<'a>,
        _arg3: Node<'a>,
        extends: Node<'a>,
        constraint: Node<'a>,
        _arg6: Node<'a>,
        cases: Node<'a>,
        _arg8: Node<'a>,
    ) -> (r: Node<'a>)
        requires
            old(self)@.wf(),
        ensures
            final(self)@.wf(),
            final(self)@ == old(self)@.make_enum_declaration(
                result_view(attributes),
                result_view(name),
                result_view(extends),
                result_view(constraint),
                result_view(cases),
            ).0,
            result_view(r) == old(self)@.make_enum_declaration(
                result_view(attributes),
                result_view(name),
                result_view(extends),
                result_view(constraint),
                result_view(cases),
            ).1,
    {
        let (id, cls) = match self.enum_parts(attributes, name, extends, constraint, cases) {
            Ok(parts) => parts,
            Err(e) => {
                return Err(e);
            },
        };
        match self.declare_class(id.1, cls) {
            Err(e) => Err(e),
            Ok(_) => Ok(Node_::Ignored.with_view()),
        }
    }
}

} // verus!
