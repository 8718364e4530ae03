//! Diagnostics: structured records of what a session found.

use vstd::prelude::*;
use crate::node::{ExprRef, NodeId, Span, TypeDeclRef};
use crate::ty::{IntRange, Type};

verus! {

/// How bad a diagnostic is. `Bug` marks a gap of this crate, not a fault of
/// the design under check.
#[derive(Clone, Copy, Debug, PartialEq, Eq, Structural)]
pub enum Severity {
    Note,
    Warning,
    Error,
    Fatal,
    Bug,
}

impl Severity {
    /// The severity fails a session: it is `Error` or worse.
    pub open spec fn is_failure(self) -> bool {
        self is Error || self is Fatal || self is Bug
    }

    pub fn failure(&self) -> (r: bool)
        ensures
            r == self.is_failure(),
    {
        match self {
            Severity::Note => false,
            Severity::Warning => false,
            _ => true,
        }
    }
}

/// Which node an unfinished rule was asked about.
#[derive(Clone, Copy, Debug, PartialEq, Eq, Structural)]
pub enum Unhandled {
    /// A declaration, statement or unit of a kind without a rule.
    Node(NodeId),
    /// An expression of a form without a rule.
    Expr(ExprRef),
    /// A signal assignment whose target is an aggregate.
    AggregateTarget,
}

/// What a diagnostic says.
#[derive(Debug)]
pub enum DiagKind {
    /// A node has another type than its place asks for.
    TypeMismatch { expected: Type, actual: Type },
    /// A range constraint reaches beyond the type it constrains, or runs the
    /// other way.
    NotASubrange { range: IntRange, base: IntRange },
    /// A range constraint on a type that is no integer type.
    NotConstrainableByRange { ty: Type },
    /// The bounds of a range are constants of different kinds, or no integers
    /// where integers are needed.
    RangeBoundsMismatch,
    /// A range over floating-point bounds.
    FloatRangeUnsupported,
    /// An array constraint in a subtype indication.
    ArrayConstraintUnsupported,
    /// A record constraint in a subtype indication.
    RecordConstraintUnsupported,
    /// A type was declared and never defined.
    IncompleteTypeDecl { decl: TypeDeclRef },
    /// A literal has no type of its own and its place gives it none.
    CannotInferType { expr: ExprRef },
    /// A chain of type names leads back to itself, or is longer than the
    /// session follows.
    CyclicTypeReference,
    /// Design units hold one another in a circle, or are nested deeper than
    /// the session follows.
    NestedTooDeep,
    /// The node is of a kind for which no rule is written yet.
    NotImplemented { what: Unhandled },
}

impl DiagKind {
    /// The words that go with each kind of diagnostic.
    pub open spec fn text(self) -> Seq<char> {
        match self {
            DiagKind::TypeMismatch { .. } => "typecheck failed, type is not the expected one"@,
            DiagKind::NotASubrange { .. } => "range is not a subrange of the constrained type"@,
            DiagKind::NotConstrainableByRange { .. } => "type cannot be constrained by range"@,
            DiagKind::RangeBoundsMismatch => "bounds of range are not of the same type"@,
            DiagKind::FloatRangeUnsupported => "float range bounds not yet supported"@,
            DiagKind::ArrayConstraintUnsupported =>
                "array constraints on subtypes not yet supported"@,
            DiagKind::RecordConstraintUnsupported =>
                "record constraints on subtypes not yet supported"@,
            DiagKind::IncompleteTypeDecl { .. } => "incomplete type declaration"@,
            DiagKind::CannotInferType { .. } => "cannot infer type of literal from context"@,
            DiagKind::CyclicTypeReference => "cyclic type reference"@,
            DiagKind::NestedTooDeep => "design units are nested too deep"@,
            DiagKind::NotImplemented { .. } => "typeck of node not implemented"@,
        }
    }

    /// The words that go with the diagnostic. What they are about (types,
    /// ranges, nodes) is in the fields of the kind.
    pub fn message(&self) -> (r: &'static str)
        ensures
            r@ == self.text(),
    {
        match self {
            DiagKind::TypeMismatch { .. } => "typecheck failed, type is not the expected one",
            DiagKind::NotASubrange { .. } => "range is not a subrange of the constrained type",
            DiagKind::NotConstrainableByRange { .. } => "type cannot be constrained by range",
            DiagKind::RangeBoundsMismatch => "bounds of range are not of the same type",
            DiagKind::FloatRangeUnsupported => "float range bounds not yet supported",
            DiagKind::ArrayConstraintUnsupported =>
                "array constraints on subtypes not yet supported",
            DiagKind::RecordConstraintUnsupported =>
                "record constraints on subtypes not yet supported",
            DiagKind::IncompleteTypeDecl { .. } => "incomplete type declaration",
            DiagKind::CannotInferType { .. } => "cannot infer type of literal from context",
            DiagKind::CyclicTypeReference => "cyclic type reference",
            DiagKind::NestedTooDeep => "design units are nested too deep",
            DiagKind::NotImplemented { .. } => "typeck of node not implemented",
        }
    }
}

/// A diagnostic record.
#[derive(Debug)]
pub struct Diagnostic {
    pub severity: Severity,
    pub kind: DiagKind,
    pub span: Option<Span>,
}

impl Diagnostic {
    pub open spec fn spec_error(kind: DiagKind, span: Option<Span>) -> Diagnostic {
        Diagnostic { severity: Severity::Error, kind, span }
    }

    pub open spec fn spec_bug(kind: DiagKind, span: Option<Span>) -> Diagnostic {
        Diagnostic { severity: Severity::Bug, kind, span }
    }

    /// A diagnostic of severity `Error`.
    pub fn error(kind: DiagKind, span: Option<Span>) -> (d: Diagnostic)
        ensures
            d == Self::spec_error(kind, span),
    {
        Diagnostic { severity: Severity::Error, kind, span }
    }

    /// A diagnostic of severity `Bug`.
    pub fn bug(kind: DiagKind, span: Option<Span>) -> (d: Diagnostic)
        ensures
            d == Self::spec_bug(kind, span),
    {
        Diagnostic { severity: Severity::Bug, kind, span }
    }
}

} // verus!
