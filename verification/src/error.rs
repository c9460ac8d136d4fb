//! Compile-time diagnostics.
//!
//! Every failure is local to the declaration being compiled and carries the
//! name of the offending construct (a field name, a type token, a variant
//! name, a path string, or a referenced type name).

use vstd::prelude::*;

verus! {

/// A structured compile-time diagnostic.
#[derive(Debug, PartialEq, Eq)]
pub enum SchemaError {
    /// A type shape outside the closed recognized set (an unsupported
    /// primitive token such as an oversized integer).
    UnsupportedType(String),
    /// A dictionary pair type with the wrong number of components, or one
    /// whose key component is not text.
    WrongArgumentCount(String),
    /// Numeric or GUI attributes on a non-numeric leaf, or placeholder or
    /// higher-order attributes on a union single-value variant.
    UnexpectedAttribute(String),
    /// A bound or step literal whose kind disagrees with the leaf's numeric
    /// family.
    TypeMismatchLiteral(String),
    /// A modifier target or variable string that does not parse under the
    /// path-expression grammar.
    InvalidPathExpression(String),
    /// A declaration with type parameters.
    GenericsUnsupported(String),
    /// A composite reference that does not resolve to an already-compiled
    /// declaration: a reference cycle, or a build-order violation.
    CyclicReference(String),
}

pub enum SpecSchemaError {
    UnsupportedType(Seq<char>),
    WrongArgumentCount(Seq<char>),
    UnexpectedAttribute(Seq<char>),
    TypeMismatchLiteral(Seq<char>),
    InvalidPathExpression(Seq<char>),
    GenericsUnsupported(Seq<char>),
    CyclicReference(Seq<char>),
}

impl DeepView for SchemaError {
    type V = SpecSchemaError;

    open spec fn deep_view(&self) -> SpecSchemaError {
        match self {
            SchemaError::UnsupportedType(s) => SpecSchemaError::UnsupportedType(s@),
            SchemaError::WrongArgumentCount(s) => SpecSchemaError::WrongArgumentCount(s@),
            SchemaError::UnexpectedAttribute(s) => SpecSchemaError::UnexpectedAttribute(s@),
            SchemaError::TypeMismatchLiteral(s) => SpecSchemaError::TypeMismatchLiteral(s@),
            SchemaError::InvalidPathExpression(s) => SpecSchemaError::InvalidPathExpression(s@),
            SchemaError::GenericsUnsupported(s) => SpecSchemaError::GenericsUnsupported(s@),
            SchemaError::CyclicReference(s) => SpecSchemaError::CyclicReference(s@),
        }
    }
}

} // verus!
