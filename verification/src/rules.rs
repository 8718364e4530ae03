//! The type rules, as mathematical functions of the lowered tree.
//!
//! Each rule says which type a node has, or which diagnostics the attempt to
//! compute it reports. A rule follows references from node to node; `fuel`
//! bounds how many it follows in a row, so that a chain of references that
//! leads back to itself ends in a diagnostic.

use vstd::prelude::*;
use crate::diag::{DiagKind, Diagnostic, Unhandled};
use crate::hir::{entry, ArrayTypeIndexData, Constraint, ExprData, Tree, TypeData};
use crate::konst::Const;
use crate::node::{
    ArrayTypeIndexRef, ExprRef, IntfSignalRef, SignalDeclRef, SignalRef, Span, SubtypeDeclRef,
    SubtypeIndRef, TypeDeclRef, TypeMarkRef, TypedNodeRef, TypedRef,
};
use crate::ty::{ArrayIndex, Dir, IndexList, IntRange, Type};

verus! {

/// What a rule comes to: a type, or the diagnostics of the failure. A node
/// that was never lowered fails without a diagnostic of its own.
pub type Outcome = Result<Type, Seq<Diagnostic>>;

/// The failure to find a node, or a value, that should be there.
pub open spec fn lookup_failed<T>() -> Result<T, Seq<Diagnostic>> {
    Err(Seq::empty())
}

/// The failure that reports the one diagnostic `d`.
pub open spec fn fails_with<T>(d: Diagnostic) -> Result<T, Seq<Diagnostic>> {
    Err(seq![d])
}

/// The diagnostic for a chain of references that does not end.
pub open spec fn cyclic_reference() -> Diagnostic {
    Diagnostic::spec_bug(DiagKind::CyclicTypeReference, None)
}

/// The diagnostic for bounds of the wrong or of different kinds.
pub open spec fn bounds_mismatch(span: Span) -> Diagnostic {
    Diagnostic::spec_error(DiagKind::RangeBoundsMismatch, Some(span))
}

/// The value of a constant expression, where it could be evaluated.
pub open spec fn const_value(tree: &Tree, expr: ExprRef) -> Option<Const> {
    entry(tree.const_values@, expr.0)
}

/// The type that a range `lb dir rb` declares.
///
/// Two integer bounds give an integer type, null or not. Two floating-point
/// bounds are refused, and so are two bounds of different kinds.
pub open spec fn range_ty(tree: &Tree, dir: Dir, lb: ExprRef, rb: ExprRef, span: Span) -> Outcome {
    match (const_value(tree, lb), const_value(tree, rb)) {
        (Some(Const::Int(left)), Some(Const::Int(right))) => Ok(
            Type::IntegerBasetype(IntRange { dir, left, right }),
        ),
        (Some(Const::Float(_)), Some(Const::Float(_))) => fails_with(
            Diagnostic::spec_error(DiagKind::FloatRangeUnsupported, Some(span)),
        ),
        (Some(_), Some(_)) => fails_with(bounds_mismatch(span)),
        _ => lookup_failed(),
    }
}

/// The range that a range constraint asks for.
pub open spec fn constraint_range(tree: &Tree, constraint: Constraint, span: Span) -> Result<
    IntRange,
    Seq<Diagnostic>,
> {
    match constraint {
        Constraint::Range(expr) => match const_value(tree, expr) {
            Some(Const::IntRange(range)) => Ok(range),
            Some(_) => fails_with(bounds_mismatch(span)),
            None => lookup_failed(),
        },
        Constraint::Bounds(dir, lb, rb) => match (const_value(tree, lb), const_value(tree, rb)) {
            (Some(Const::Int(left)), Some(Const::Int(right))) => Ok(IntRange { dir, left, right }),
            (Some(_), Some(_)) => fails_with(bounds_mismatch(span)),
            _ => lookup_failed(),
        },
        _ => lookup_failed(),
    }
}

/// The subtype of `base` under a range constraint.
///
/// Only an integer type can be constrained by a range. The range must run
/// the way `base` runs and stay within it; it may be null.
pub open spec fn constrain(tree: &Tree, base: Type, constraint: Constraint, span: Span) -> Outcome {
    if !base.is_integer() {
        fails_with(
            Diagnostic::spec_error(DiagKind::NotConstrainableByRange { ty: base }, Some(span)),
        )
    } else {
        match constraint_range(tree, constraint, span) {
            Err(ds) => Err(ds),
            Ok(range) => match base.constrained_by(range) {
                Some(ty) => Ok(ty),
                None => fails_with(
                    Diagnostic::spec_error(
                        DiagKind::NotASubrange { range, base: base.int_range() },
                        Some(span),
                    ),
                ),
            },
        }
    }
}

/// The type that is left when every leading `Named` is replaced by the type
/// of what it names.
pub open spec fn deref_named(tree: &Tree, ty: Type, fuel: nat) -> Outcome
    decreases fuel, 0nat,
{
    match ty {
        Type::Named(tm) => if fuel == 0 {
            fails_with(cyclic_reference())
        } else {
            match ty_of_type_mark(tree, tm, (fuel - 1) as nat) {
                Err(ds) => Err(ds),
                Ok(inner) => deref_named(tree, inner, (fuel - 1) as nat),
            }
        },
        other => Ok(other),
    }
}

/// The type of a type mark: that of the declaration it names.
pub open spec fn ty_of_type_mark(tree: &Tree, tm: TypeMarkRef, fuel: nat) -> Outcome
    decreases fuel, 2nat,
{
    match tm {
        TypeMarkRef::Type(id) => ty_of_type_decl(tree, id, fuel),
        TypeMarkRef::Subtype(id) => ty_of_subtype_decl(tree, id, fuel),
    }
}

/// The type of a subtype indication.
///
/// Without a constraint it is the type mark's name, not followed any
/// further. With a range constraint it is a subtype of the integer type that
/// the type mark comes to. Array and record constraints are refused.
pub open spec fn ty_of_subtype_ind(tree: &Tree, id: SubtypeIndRef, fuel: nat) -> Outcome
    decreases fuel, 1nat,
{
    match entry(tree.subtype_inds@, id.0) {
        None => lookup_failed(),
        Some(ind) => match ind.constraint {
            None => Ok(Type::Named(ind.type_mark)),
            Some(Constraint::Array(span)) => fails_with(
                Diagnostic::spec_error(DiagKind::ArrayConstraintUnsupported, Some(span)),
            ),
            Some(Constraint::Record(span)) => fails_with(
                Diagnostic::spec_error(DiagKind::RecordConstraintUnsupported, Some(span)),
            ),
            Some(constraint) => if fuel == 0 {
                fails_with(cyclic_reference())
            } else {
                match ty_of_type_mark(tree, ind.type_mark, (fuel - 1) as nat) {
                    Err(ds) => Err(ds),
                    Ok(marked) => match deref_named(tree, marked, (fuel - 1) as nat) {
                        Err(ds) => Err(ds),
                        Ok(base) => constrain(tree, base, constraint, ind.constraint_span),
                    },
                }
            },
        },
    }
}

/// One index of an array type.
pub open spec fn array_index(tree: &Tree, id: ArrayTypeIndexRef, fuel: nat) -> Result<
    ArrayIndex,
    Seq<Diagnostic>,
>
    decreases fuel, 1nat,
{
    match entry(tree.array_type_indices@, id.0) {
        None => lookup_failed(),
        Some(index) => match index.data {
            ArrayTypeIndexData::Range(dir, lb, rb) => match range_ty(tree, dir, lb, rb, index.span) {
                Err(ds) => Err(ds),
                Ok(ty) => Ok(ArrayIndex::Constrained(Box::new(ty))),
            },
            ArrayTypeIndexData::Unbounded(tm) => if fuel == 0 {
                fails_with(cyclic_reference())
            } else {
                match ty_of_type_mark(tree, tm, (fuel - 1) as nat) {
                    Err(ds) => Err(ds),
                    Ok(ty) => Ok(ArrayIndex::Unbounded(Box::new(ty))),
                }
            },
            ArrayTypeIndexData::Subtype(ind) => if fuel == 0 {
                fails_with(cyclic_reference())
            } else {
                match ty_of_subtype_ind(tree, ind, (fuel - 1) as nat) {
                    Err(ds) => Err(ds),
                    Ok(ty) => Ok(ArrayIndex::Constrained(Box::new(ty))),
                }
            },
        },
    }
}

/// The indices of an array type from position `from` on.
///
/// Every index is attempted, whether or not an earlier one failed, and the
/// diagnostics of all that failed are reported in the order of the indices.
pub open spec fn array_indices(
    tree: &Tree,
    ids: Seq<ArrayTypeIndexRef>,
    from: nat,
    fuel: nat,
) -> Result<IndexList, Seq<Diagnostic>>
    decreases fuel, 2 + ids.len() - from,
{
    if from >= ids.len() {
        Ok(IndexList::Nil)
    } else {
        match (array_index(tree, ids[from as int], fuel), array_indices(tree, ids, from + 1, fuel)) {
            (Ok(head), Ok(tail)) => Ok(IndexList::Cons(head, Box::new(tail))),
            (Err(a), Ok(_)) => Err(a),
            (Ok(_), Err(b)) => Err(b),
            (Err(a), Err(b)) => Err(a + b),
        }
    }
}

/// The type that a type declaration declares.
pub open spec fn ty_of_type_decl(tree: &Tree, id: TypeDeclRef, fuel: nat) -> Outcome
    decreases fuel, 1nat,
{
    match entry(tree.type_decls@, id.0) {
        None => lookup_failed(),
        Some(decl) => match decl.data {
            None => fails_with(
                Diagnostic::spec_error(
                    DiagKind::IncompleteTypeDecl { decl: id },
                    Some(decl.name_span),
                ),
            ),
            Some(TypeData::Range(dir, lb, rb)) => range_ty(tree, dir, lb, rb, decl.data_span),
            Some(TypeData::Enum) => Ok(Type::EnumBasetype(id)),
            Some(TypeData::Access(ind)) => if fuel == 0 {
                fails_with(cyclic_reference())
            } else {
                match ty_of_subtype_ind(tree, ind, (fuel - 1) as nat) {
                    Err(ds) => Err(ds),
                    Ok(ty) => Ok(Type::Access(Box::new(ty))),
                }
            },
            Some(TypeData::Array(indices, elem)) => if fuel == 0 {
                fails_with(cyclic_reference())
            } else {
                match array_indices(tree, indices@, 0, (fuel - 1) as nat) {
                    Err(ds) => Err(ds),
                    Ok(list) => match ty_of_subtype_ind(tree, elem, (fuel - 1) as nat) {
                        Err(ds) => Err(ds),
                        Ok(ty) => Ok(Type::Array(list, Box::new(ty))),
                    },
                }
            },
        },
    }
}

/// The type of a subtype declaration: that of its subtype indication.
pub open spec fn ty_of_subtype_decl(tree: &Tree, id: SubtypeDeclRef, fuel: nat) -> Outcome
    decreases fuel, 1nat,
{
    match entry(tree.subtype_decls@, id.0) {
        None => lookup_failed(),
        Some(decl) => if fuel == 0 {
            fails_with(cyclic_reference())
        } else {
            ty_of_subtype_ind(tree, decl.subty, (fuel - 1) as nat)
        },
    }
}

/// The type of a signal declaration: that of its subtype indication.
pub open spec fn ty_of_signal_decl(tree: &Tree, id: SignalDeclRef, fuel: nat) -> Outcome
    decreases fuel, 1nat,
{
    match entry(tree.signal_decls@, id.0) {
        None => lookup_failed(),
        Some(decl) => if fuel == 0 {
            fails_with(cyclic_reference())
        } else {
            ty_of_subtype_ind(tree, decl.subty, (fuel - 1) as nat)
        },
    }
}

/// The type of a port or generic signal: that of its subtype indication.
pub open spec fn ty_of_intf_signal(tree: &Tree, id: IntfSignalRef, fuel: nat) -> Outcome
    decreases fuel, 1nat,
{
    match entry(tree.intf_signals@, id.0) {
        None => lookup_failed(),
        Some(decl) => if fuel == 0 {
            fails_with(cyclic_reference())
        } else {
            ty_of_subtype_ind(tree, decl.ty, (fuel - 1) as nat)
        },
    }
}

/// The type of a signal, port or declared.
pub open spec fn ty_of_signal(tree: &Tree, id: SignalRef, fuel: nat) -> Outcome
    decreases fuel, 2nat,
{
    match id {
        SignalRef::Intf(id) => ty_of_intf_signal(tree, id, fuel),
        SignalRef::Decl(id) => ty_of_signal_decl(tree, id, fuel),
    }
}

/// The diagnostic for an expression of a form without a rule.
pub open spec fn expr_not_implemented(id: ExprRef) -> Diagnostic {
    Diagnostic::spec_bug(DiagKind::NotImplemented { what: Unhandled::Expr(id) }, None)
}

/// The type of an expression.
///
/// An integer literal that was given a type has that type, whatever its
/// place asks for. One without has the type its place asks for, if that
/// comes to an integer type. Any other expression has no rule yet.
pub open spec fn ty_of_expr(tree: &Tree, id: ExprRef, fuel: nat) -> Outcome
    decreases fuel, 1nat,
{
    match entry(tree.exprs@, id.0) {
        None => lookup_failed(),
        Some(expr) => match expr.data {
            ExprData::IntegerLiteral(Some(ty)) => Ok(ty),
            ExprData::IntegerLiteral(None) => match entry(tree.type_contexts@, id.0) {
                None => fails_with(
                    Diagnostic::spec_error(DiagKind::CannotInferType { expr: id }, Some(expr.span)),
                ),
                Some(expected) => match deref_named(tree, expected, fuel) {
                    Err(ds) => Err(ds),
                    Ok(base) => if base.is_integer() {
                        Ok(expected)
                    } else {
                        fails_with(
                            Diagnostic::spec_error(
                                DiagKind::CannotInferType { expr: id },
                                Some(expr.span),
                            ),
                        )
                    },
                },
            },
            _ => fails_with(expr_not_implemented(id)),
        },
    }
}

/// The type of a typed node.
pub open spec fn ty_of_typed_node(tree: &Tree, id: TypedNodeRef, fuel: nat) -> Outcome
    decreases fuel, 3nat,
{
    match id {
        TypedNodeRef::SubtypeInd(id) => ty_of_subtype_ind(tree, id, fuel),
        TypedNodeRef::Signal(id) => ty_of_signal(tree, id, fuel),
    }
}

/// The type of any node that has one.
pub open spec fn ty_of(tree: &Tree, id: TypedRef, fuel: nat) -> Outcome {
    match id {
        TypedRef::TypeMark(id) => ty_of_type_mark(tree, id, fuel),
        TypedRef::TypeDecl(id) => ty_of_type_decl(tree, id, fuel),
        TypedRef::SubtypeDecl(id) => ty_of_subtype_decl(tree, id, fuel),
        TypedRef::SubtypeInd(id) => ty_of_subtype_ind(tree, id, fuel),
        TypedRef::SignalDecl(id) => ty_of_signal_decl(tree, id, fuel),
        TypedRef::IntfSignal(id) => ty_of_intf_signal(tree, id, fuel),
        TypedRef::Signal(id) => ty_of_signal(tree, id, fuel),
        TypedRef::TypedNode(id) => ty_of_typed_node(tree, id, fuel),
        TypedRef::Expr(id) => ty_of_expr(tree, id, fuel),
    }
}

} // verus!
