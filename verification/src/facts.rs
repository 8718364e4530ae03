//! Two facts about every type rule, proved rule by rule: more fuel does not
//! change a type that was found, and a type that is found is well-formed.

use vstd::prelude::*;
use crate::konst::Const;
use crate::hir::{entry, ArrayTypeIndexData, Constraint, ExprData, Tree, TypeData};
use crate::node::{
    ArrayTypeIndexRef, ExprRef, IntfSignalRef, SignalDeclRef, SignalRef, SubtypeDeclRef,
    SubtypeIndRef, TypeDeclRef, TypeMarkRef, TypedNodeRef, TypedRef,
};
use crate::rules::{
    array_index, array_indices, deref_named, ty_of, ty_of_expr, ty_of_intf_signal, ty_of_signal,
    ty_of_signal_decl, ty_of_subtype_decl, ty_of_subtype_ind, ty_of_type_decl, ty_of_type_mark,
    Outcome,
};
use crate::ty::Type;

verus! {

/// Every type and every constant that the tree itself holds is well-formed:
/// the types given to literals, the types that places ask for, and the
/// values of the constant expressions.
pub open spec fn tree_wf(tree: &Tree) -> bool {
    &&& forall|i: int|
        0 <= i < tree.const_values@.len() ==> match #[trigger] tree.const_values@[i] {
            Some(Const::Int(value)) => value.wf(),
            Some(Const::IntRange(range)) => range.wf(),
            _ => true,
        }
    &&& forall|i: int|
        0 <= i < tree.exprs@.len() ==> match #[trigger] tree.exprs@[i] {
            Some(expr) => match expr.data {
                ExprData::IntegerLiteral(Some(ty)) => ty.wf(),
                _ => true,
            },
            None => true,
        }
    &&& forall|i: int|
        0 <= i < tree.type_contexts@.len() ==> match #[trigger] tree.type_contexts@[i] {
            Some(ty) => ty.wf(),
            None => true,
        }
}

/// `more` is what a rule comes to with one more unit of fuel than it took
/// to come to `found`: where a type was found, it is found again, and it is
/// well-formed if the types of the tree are.
pub open spec fn settled(tree: &Tree, found: Outcome, more: Outcome) -> bool {
    found is Ok ==> more == found && (tree_wf(tree) ==> found->Ok_0.wf())
}

/// Both facts, of dereferencing a type.
pub proof fn facts_deref_named(tree: &Tree, ty: Type, fuel: nat)
    ensures
        deref_named(tree, ty, fuel) is Ok ==> deref_named(tree, ty, fuel + 1) == deref_named(
            tree,
            ty,
            fuel,
        ),
        tree_wf(tree) && ty.wf() && deref_named(tree, ty, fuel) is Ok ==> deref_named(
            tree,
            ty,
            fuel,
        )->Ok_0.wf(),
    decreases fuel, 0nat,
{
    match ty {
        Type::Named(tm) => {
            if fuel > 0 {
                facts_type_mark(tree, tm, (fuel - 1) as nat);
                match ty_of_type_mark(tree, tm, (fuel - 1) as nat) {
                    Ok(inner) => {
                        facts_deref_named(tree, inner, (fuel - 1) as nat);
                    },
                    Err(_) => {},
                }
            }
        },
        _ => {},
    }
}

/// Both facts, of the rule for type marks.
pub proof fn facts_type_mark(tree: &Tree, id: TypeMarkRef, fuel: nat)
    ensures
        settled(tree, ty_of_type_mark(tree, id, fuel), ty_of_type_mark(tree, id, fuel + 1)),
    decreases fuel, 2nat,
{
    match id {
        TypeMarkRef::Type(id) => facts_type_decl(tree, id, fuel),
        TypeMarkRef::Subtype(id) => facts_subtype_decl(tree, id, fuel),
    }
}

/// Both facts, of the rule for subtype indications.
pub proof fn facts_subtype_ind(tree: &Tree, id: SubtypeIndRef, fuel: nat)
    ensures
        settled(tree, ty_of_subtype_ind(tree, id, fuel), ty_of_subtype_ind(tree, id, fuel + 1)),
    decreases fuel, 1nat,
{
    match entry(tree.subtype_inds@, id.0) {
        None => {},
        Some(ind) => match ind.constraint {
            None => {},
            Some(Constraint::Array(_)) => {},
            Some(Constraint::Record(_)) => {},
            Some(constraint) => {
                if fuel > 0 {
                    facts_type_mark(tree, ind.type_mark, (fuel - 1) as nat);
                    match ty_of_type_mark(tree, ind.type_mark, (fuel - 1) as nat) {
                        Ok(marked) => {
                            facts_deref_named(tree, marked, (fuel - 1) as nat);
                        },
                        Err(_) => {},
                    }
                }
            },
        },
    }
}

/// Both facts, of the rule for one array index.
pub proof fn facts_array_index(tree: &Tree, id: ArrayTypeIndexRef, fuel: nat)
    ensures
        array_index(tree, id, fuel) is Ok ==> array_index(tree, id, fuel + 1) == array_index(
            tree,
            id,
            fuel,
        ) && (tree_wf(tree) ==> array_index(tree, id, fuel)->Ok_0.wf()),
    decreases fuel, 1nat,
{
    match entry(tree.array_type_indices@, id.0) {
        None => {},
        Some(index) => match index.data {
            ArrayTypeIndexData::Range(_, _, _) => {},
            ArrayTypeIndexData::Unbounded(tm) => {
                if fuel > 0 {
                    facts_type_mark(tree, tm, (fuel - 1) as nat);
                }
            },
            ArrayTypeIndexData::Subtype(ind) => {
                if fuel > 0 {
                    facts_subtype_ind(tree, ind, (fuel - 1) as nat);
                }
            },
        },
    }
}

/// Both facts, of the rule for the indices of an array.
pub proof fn facts_array_indices(tree: &Tree, ids: Seq<ArrayTypeIndexRef>, from: nat, fuel: nat)
    ensures
        array_indices(tree, ids, from, fuel) is Ok ==> array_indices(tree, ids, from, fuel + 1)
            == array_indices(tree, ids, from, fuel) && (tree_wf(tree) ==> array_indices(
            tree,
            ids,
            from,
            fuel,
        )->Ok_0.wf()),
    decreases fuel, 2 + ids.len() - from,
{
    if from < ids.len() {
        facts_array_index(tree, ids[from as int], fuel);
        facts_array_indices(tree, ids, from + 1, fuel);
    }
}

/// Both facts, of the rule for type declarations.
pub proof fn facts_type_decl(tree: &Tree, id: TypeDeclRef, fuel: nat)
    ensures
        settled(tree, ty_of_type_decl(tree, id, fuel), ty_of_type_decl(tree, id, fuel + 1)),
    decreases fuel, 1nat,
{
    match entry(tree.type_decls@, id.0) {
        None => {},
        Some(decl) => match decl.data {
            Some(TypeData::Access(ind)) => {
                if fuel > 0 {
                    facts_subtype_ind(tree, ind, (fuel - 1) as nat);
                }
            },
            Some(TypeData::Array(indices, elem)) => {
                if fuel > 0 {
                    facts_array_indices(tree, indices@, 0, (fuel - 1) as nat);
                    facts_subtype_ind(tree, elem, (fuel - 1) as nat);
                }
            },
            _ => {},
        },
    }
}

/// Both facts, of the rule for subtype declarations.
pub proof fn facts_subtype_decl(tree: &Tree, id: SubtypeDeclRef, fuel: nat)
    ensures
        settled(tree, ty_of_subtype_decl(tree, id, fuel), ty_of_subtype_decl(tree, id, fuel + 1)),
    decreases fuel, 1nat,
{
    match entry(tree.subtype_decls@, id.0) {
        None => {},
        Some(decl) => {
            if fuel > 0 {
                facts_subtype_ind(tree, decl.subty, (fuel - 1) as nat);
            }
        },
    }
}

/// Both facts, of the rule for signal declarations.
pub proof fn facts_signal_decl(tree: &Tree, id: SignalDeclRef, fuel: nat)
    ensures
        settled(tree, ty_of_signal_decl(tree, id, fuel), ty_of_signal_decl(tree, id, fuel + 1)),
{
    match entry(tree.signal_decls@, id.0) {
        None => {},
        Some(decl) => {
            if fuel > 0 {
                facts_subtype_ind(tree, decl.subty, (fuel - 1) as nat);
            }
        },
    }
}

/// Both facts, of the rule for ports.
pub proof fn facts_intf_signal(tree: &Tree, id: IntfSignalRef, fuel: nat)
    ensures
        settled(tree, ty_of_intf_signal(tree, id, fuel), ty_of_intf_signal(tree, id, fuel + 1)),
{
    match entry(tree.intf_signals@, id.0) {
        None => {},
        Some(decl) => {
            if fuel > 0 {
                facts_subtype_ind(tree, decl.ty, (fuel - 1) as nat);
            }
        },
    }
}

/// Both facts, of the rule for signals.
pub proof fn facts_signal(tree: &Tree, id: SignalRef, fuel: nat)
    ensures
        settled(tree, ty_of_signal(tree, id, fuel), ty_of_signal(tree, id, fuel + 1)),
{
    match id {
        SignalRef::Intf(id) => facts_intf_signal(tree, id, fuel),
        SignalRef::Decl(id) => facts_signal_decl(tree, id, fuel),
    }
}

/// Both facts, of the rule for expressions.
pub proof fn facts_expr(tree: &Tree, id: ExprRef, fuel: nat)
    ensures
        settled(tree, ty_of_expr(tree, id, fuel), ty_of_expr(tree, id, fuel + 1)),
{
    match entry(tree.exprs@, id.0) {
        None => {},
        Some(expr) => match expr.data {
            ExprData::IntegerLiteral(None) => match entry(tree.type_contexts@, id.0) {
                Some(expected) => {
                    facts_deref_named(tree, expected, fuel);
                },
                None => {},
            },
            _ => {},
        },
    }
}

/// Both facts, of every rule, by the kind of the node.
pub proof fn facts_ty_of(tree: &Tree, id: TypedRef, fuel: nat)
    ensures
        settled(tree, ty_of(tree, id, fuel), ty_of(tree, id, fuel + 1)),
{
    match id {
        TypedRef::TypeMark(id) => facts_type_mark(tree, id, fuel),
        TypedRef::TypeDecl(id) => facts_type_decl(tree, id, fuel),
        TypedRef::SubtypeDecl(id) => facts_subtype_decl(tree, id, fuel),
        TypedRef::SubtypeInd(id) => facts_subtype_ind(tree, id, fuel),
        TypedRef::SignalDecl(id) => facts_signal_decl(tree, id, fuel),
        TypedRef::IntfSignal(id) => facts_intf_signal(tree, id, fuel),
        TypedRef::Signal(id) => facts_signal(tree, id, fuel),
        TypedRef::TypedNode(id) => match id {
            TypedNodeRef::SubtypeInd(id) => facts_subtype_ind(tree, id, fuel),
            TypedNodeRef::Signal(id) => facts_signal(tree, id, fuel),
        },
        TypedRef::Expr(id) => facts_expr(tree, id, fuel),
    }
}

} // verus!
