//! The failures of a pass. Any of them aborts the pass for the file.

use vstd::prelude::*;

verus! {

/// Why a combinator could not make sense of its children.
#[derive(Clone, Copy, Debug, PartialEq, Eq, Structural)]
pub enum ParseError {
    /// A node that cannot stand for a name was given where a name is needed.
    ExpectedName,
    /// A part of a qualified name is neither a name, a separator nor a pair
    /// of them.
    ExpectedNamePart,
    /// A pair inside a qualified name is not a name followed by a separator.
    ExpectedNameAndSeparator,
    /// The node has no position, and none of its children has one.
    NoPosition,
    /// Two positions that lie in different files were to be merged.
    PositionsInSeparateFiles,
    /// A visibility modifier was expected.
    ExpectedVisibility,
    /// An attribute was expected.
    ExpectedAttribute,
    /// The node cannot be read as an expression.
    NotAnExpression,
    /// The expression has no type that can be read off its syntax.
    CannotConvertExprToType,
    /// A function parameter was expected.
    ExpectedFunctionParameter,
    /// A list of function parameters was expected.
    ExpectedParameterList,
    /// The text of a string literal could not be unescaped.
    MalformedStringLiteral,
    /// The operator cannot stand before its operand.
    NotAPrefixOperator,
    /// The operator cannot stand behind its operand.
    NotAPostfixOperator,
    /// The operator cannot stand between two operands.
    NotABinaryOperator,
    /// An operator was expected.
    ExpectedOperator,
    /// A pair (key and value, name and initializer) was expected.
    ExpectedListItem,
    /// A list was expected.
    ExpectedList,
    /// `as` or `super` was expected.
    ExpectedAsOrSuper,
    /// A type constraint was expected.
    ExpectedTypeConstraint,
    /// A type parameter was expected.
    ExpectedTypeParameter,
    /// The body of a class, interface or trait was expected.
    ExpectedClassishBody,
    /// A function header was expected.
    ExpectedFunctionHeader,
    /// An enumerator was expected.
    ExpectedEnumCase,
    /// A field of a shape type was expected.
    ExpectedShapeFieldSpecifier,
    /// The key of a shape field is neither an integer literal, nor a string
    /// literal, nor a constant of a class.
    ExpectedShapeKey,
    /// A list of type parameters is to be closed, but none is open.
    NoOpenTypeParameters,
    /// An import names nothing.
    EmptyImportName,
    /// A name is declared twice, and the session rejects that.
    DuplicateDeclaration,
    /// A production has another number of children than its kind has.
    UnexpectedArity,
}

impl ParseError {
    /// The sentence that tells what went wrong.
    pub open spec fn spec_message(self) -> Seq<char> {
        match self {
            ParseError::ExpectedName => "Expected a name, XHP name, or qualified name"@,
            ParseError::ExpectedNamePart => "Expected a name, backslash, or list item"@,
            ParseError::ExpectedNameAndSeparator => "Expected a name or backslash"@,
            ParseError::NoPosition => "No pos found for node"@,
            ParseError::PositionsInSeparateFiles => "Position in separate files"@,
            ParseError::ExpectedVisibility => "Expected a visibility modifier"@,
            ParseError::ExpectedAttribute => "Expected an attribute"@,
            ParseError::NotAnExpression => "Could not construct an Expr"@,
            ParseError::CannotConvertExprToType => "Cannot convert expr to type"@,
            ParseError::ExpectedFunctionParameter => "Expected a function parameter"@,
            ParseError::ExpectedParameterList => "Expected a list of function parameters"@,
            ParseError::MalformedStringLiteral => "Malformed string literal"@,
            ParseError::NotAPrefixOperator => "Operator cannot be used as a unary operator"@,
            ParseError::NotAPostfixOperator => {
                "Operator cannot be used as a postfix unary operator"@
            },
            ParseError::NotABinaryOperator => "Operator cannot be used as a binary operator"@,
            ParseError::ExpectedOperator => "Did not recognize operator"@,
            ParseError::ExpectedListItem => "Expected a ListItem"@,
            ParseError::ExpectedList => "Expected a List"@,
            ParseError::ExpectedAsOrSuper => "Expected either As or Super"@,
            ParseError::ExpectedTypeConstraint => "Expected a type constraint"@,
            ParseError::ExpectedTypeParameter => "Expected a type parameter"@,
            ParseError::ExpectedClassishBody => "Expected a classish body"@,
            ParseError::ExpectedFunctionHeader => "Expected a FunctionDecl header"@,
            ParseError::ExpectedEnumCase => "Expected an enum case"@,
            ParseError::ExpectedShapeFieldSpecifier => "Expected a shape field specifier"@,
            ParseError::ExpectedShapeKey => {
                "Expected an int literal, a string literal or a class constant for shape key"@
            },
            ParseError::NoOpenTypeParameters => "No type parameter list is open"@,
            ParseError::EmptyImportName => "Expected at least one entry in import name"@,
            ParseError::DuplicateDeclaration => "Name is declared twice"@,
            ParseError::UnexpectedArity => "Production with an unexpected number of children"@,
        }
    }

    /// The sentence that tells what went wrong.
    pub fn message(&self) -> (r: &'static str)
        ensures
            r@ == self.spec_message(),
    {
        match self {
            ParseError::ExpectedName => "Expected a name, XHP name, or qualified name",
            ParseError::ExpectedNamePart => "Expected a name, backslash, or list item",
            ParseError::ExpectedNameAndSeparator => "Expected a name or backslash",
            ParseError::NoPosition => "No pos found for node",
            ParseError::PositionsInSeparateFiles => "Position in separate files",
            ParseError::ExpectedVisibility => "Expected a visibility modifier",
            ParseError::ExpectedAttribute => "Expected an attribute",
            ParseError::NotAnExpression => "Could not construct an Expr",
            ParseError::CannotConvertExprToType => "Cannot convert expr to type",
            ParseError::ExpectedFunctionParameter => "Expected a function parameter",
            ParseError::ExpectedParameterList => "Expected a list of function parameters",
            ParseError::MalformedStringLiteral => "Malformed string literal",
            ParseError::NotAPrefixOperator => "Operator cannot be used as a unary operator",
            ParseError::NotAPostfixOperator => "Operator cannot be used as a postfix unary operator",
            ParseError::NotABinaryOperator => "Operator cannot be used as a binary operator",
            ParseError::ExpectedOperator => "Did not recognize operator",
            ParseError::ExpectedListItem => "Expected a ListItem",
            ParseError::ExpectedList => "Expected a List",
            ParseError::ExpectedAsOrSuper => "Expected either As or Super",
            ParseError::ExpectedTypeConstraint => "Expected a type constraint",
            ParseError::ExpectedTypeParameter => "Expected a type parameter",
            ParseError::ExpectedClassishBody => "Expected a classish body",
            ParseError::ExpectedFunctionHeader => "Expected a FunctionDecl header",
            ParseError::ExpectedEnumCase => "Expected an enum case",
            ParseError::ExpectedShapeFieldSpecifier => "Expected a shape field specifier",
            ParseError::ExpectedShapeKey => {
                "Expected an int literal, a string literal or a class constant for shape key"
            },
            ParseError::NoOpenTypeParameters => "No type parameter list is open",
            ParseError::EmptyImportName => "Expected at least one entry in import name",
            ParseError::DuplicateDeclaration => "Name is declared twice",
            ParseError::UnexpectedArity => "Production with an unexpected number of children",
        }
    }
}

} // verus!
