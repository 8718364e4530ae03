//! What holds of the type rules and of the checks, for every tree.

use vstd::prelude::*;
use crate::arena::{TyRef, TypeArena};
use crate::checks::{
    check, check_sig_assign, check_slice, check_unit, check_waveform, nodes_of,
};
use crate::diag::{DiagKind, Diagnostic};
use crate::facts::{facts_deref_named, facts_ty_of, tree_wf};
use crate::integer::{lemma_integers_agree, Integer};
use crate::hir::{entry, Constraint, ExprData, SigAssignKind, SigAssignTarget, Tree, WaveElem};
use crate::konst::Const;
use crate::node::{
    ConcStmtRef, DeclInBlockRef, DeclInPkgRef, DeclInProcRef, ExprRef, NodeRef, SeqStmtRef,
    SigAssignStmtRef, Span, SubtypeDeclRef, SubtypeIndRef, TypeMarkRef, TypedRef,
};
use crate::rules::{
    const_value, constrain, deref_named, fails_with, ty_of, ty_of_expr, ty_of_signal,
    ty_of_subtype_decl, ty_of_subtype_ind, ty_of_type_mark,
};
use crate::ty::{Dir, IntRange, IntegerSubtype, Type};

verus! {

/// A type in the arena stays what and where it is: a handle of an arena is a
/// handle of every later state of it, to the same type.
pub proof fn law_types_stay_in_place(before: &TypeArena, after: &TypeArena, r: TyRef)
    requires
        after.extends(before),
        before.contains(r),
    ensures
        after.contains(r),
        after.resolve(r) == before.resolve(r),
{
}

/// Two subtypes of the same base over the same range are the same type,
/// also when each was put into the arena on its own: after `start` took the
/// one and became `mid`, and `mid` took the other and became `end`, the two
/// handles differ and the types behind them do not.
pub proof fn law_equal_subtypes_are_equal(
    start: &TypeArena,
    mid: &TypeArena,
    end: &TypeArena,
    base: Type,
    range: IntRange,
    a: TyRef,
    b: TyRef,
)
    requires
        base.constrained_by(range) is Some,
        mid@.len() <= usize::MAX,
        mid@ == start@.push(base.constrained_by(range)->0),
        end@ == mid@.push(base.constrained_by(range)->0),
        a == TypeArena::handle_for(base.constrained_by(range)->0, start@.len()),
        b == TypeArena::handle_for(base.constrained_by(range)->0, mid@.len()),
    ensures
        a != b,
        end.contains(a),
        end.contains(b),
        end.resolve(a) == end.resolve(b),
        end.resolve(a) == base.constrained_by(range)->0,
{
}

/// Two ranges that run the same way between the same bounds are the same
/// range, whoever wrote the bounds down.
pub proof fn law_equal_bounds_equal_ranges(a: IntRange, b: IntRange)
    requires
        a.wf(),
        b.wf(),
        a.dir == b.dir,
        a.left.value() == b.left.value(),
        a.right.value() == b.right.value(),
    ensures
        a == b,
{
    lemma_integers_agree(a.left, b.left);
    lemma_integers_agree(a.right, b.right);
}

/// Two subtype indications that constrain the same type mark to the same
/// range have the same type, wherever each was written and however its
/// bounds were arrived at.
pub proof fn law_same_bounds_same_subtype(
    tree: &Tree,
    a: SubtypeIndRef,
    b: SubtypeIndRef,
    dir: Dir,
    bounds_a: (ExprRef, ExprRef),
    bounds_b: (ExprRef, ExprRef),
    fuel: nat,
)
    requires
        entry(tree.subtype_inds@, a.0) is Some,
        entry(tree.subtype_inds@, b.0) is Some,
        entry(tree.subtype_inds@, a.0)->0.type_mark == entry(tree.subtype_inds@, b.0)->0.type_mark,
        entry(tree.subtype_inds@, a.0)->0.constraint == Some(
            Constraint::Bounds(dir, bounds_a.0, bounds_a.1),
        ),
        entry(tree.subtype_inds@, b.0)->0.constraint == Some(
            Constraint::Bounds(dir, bounds_b.0, bounds_b.1),
        ),
        const_value(tree, bounds_a.0) is Some,
        const_value(tree, bounds_a.1) is Some,
        const_value(tree, bounds_b.0) is Some,
        const_value(tree, bounds_b.1) is Some,
        const_value(tree, bounds_a.0)->0 is Int,
        const_value(tree, bounds_a.1)->0 is Int,
        const_value(tree, bounds_b.0)->0 is Int,
        const_value(tree, bounds_b.1)->0 is Int,
        const_value(tree, bounds_a.0)->0->Int_0.wf(),
        const_value(tree, bounds_a.1)->0->Int_0.wf(),
        const_value(tree, bounds_b.0)->0->Int_0.wf(),
        const_value(tree, bounds_b.1)->0->Int_0.wf(),
        const_value(tree, bounds_a.0)->0->Int_0.value() == const_value(
            tree,
            bounds_b.0,
        )->0->Int_0.value(),
        const_value(tree, bounds_a.1)->0->Int_0.value() == const_value(
            tree,
            bounds_b.1,
        )->0->Int_0.value(),
        ty_of_subtype_ind(tree, a, fuel) is Ok,
    ensures
        ty_of_subtype_ind(tree, b, fuel) == ty_of_subtype_ind(tree, a, fuel),
{
    lemma_integers_agree(
        const_value(tree, bounds_a.0)->0->Int_0,
        const_value(tree, bounds_b.0)->0->Int_0,
    );
    lemma_integers_agree(
        const_value(tree, bounds_a.1)->0->Int_0,
        const_value(tree, bounds_b.1)->0->Int_0,
    );
}

/// A range constraint on an integer type succeeds when the range runs the
/// way the type runs and lies within it, and fails as no subrange when it
/// runs the other way, starts below the type or ends above it.
pub proof fn law_range_constraint(
    tree: &Tree,
    base: IntRange,
    dir: Dir,
    lb: ExprRef,
    rb: ExprRef,
    left: Integer,
    right: Integer,
    span: Span,
)
    requires
        const_value(tree, lb) == Some(Const::Int(left)),
        const_value(tree, rb) == Some(Const::Int(right)),
    ensures
        ({
            let range = IntRange { dir, left, right };
            let out = constrain(
                tree,
                Type::IntegerBasetype(base),
                Constraint::Bounds(dir, lb, rb),
                span,
            );
            &&& dir == base.dir && base.low() <= range.low() <= range.high() <= base.high()
                ==> out == Ok::<Type, Seq<Diagnostic>>(
                Type::IntegerSubtype(IntegerSubtype { base, range }),
            )
            &&& dir != base.dir || range.low() < base.low() || range.high() > base.high() ==> out
                == fails_with::<Type>(
                Diagnostic::spec_error(DiagKind::NotASubrange { range, base }, Some(span)),
            )
        }),
{
}

/// A range may be null and still constrain: whether a constraint succeeds
/// does not depend on whether the range holds a value.
pub proof fn law_null_range_constrains(base: Type, range: IntRange)
    requires
        base.is_integer(),
        range.is_subrange_of(base.int_range()),
    ensures
        base.constrained_by(range) is Some,
        base.constrained_by(range)->0.is_null_range() == range.is_null(),
{
}

/// A type that is no name is its own dereferenced type, whatever the fuel.
pub proof fn law_deref_keeps_other_types(tree: &Tree, ty: Type, fuel: nat)
    requires
        !(ty is Named),
    ensures
        deref_named(tree, ty, fuel) == Ok::<Type, Seq<Diagnostic>>(ty),
{
}

/// A name dereferences to what the type of the named declaration
/// dereferences to.
pub proof fn law_deref_follows_name(tree: &Tree, tm: TypeMarkRef, inner: Type, fuel: nat)
    requires
        ty_of_type_mark(tree, tm, fuel) == Ok::<Type, Seq<Diagnostic>>(inner),
    ensures
        deref_named(tree, Type::Named(tm), fuel + 1) == deref_named(tree, inner, fuel),
{
}

/// `ty` heads a chain of `k` names that ends in `end`: each name's
/// declaration has the next name as its type, and `end` is no name. The
/// chain is followed with `fuel` links to spare.
pub open spec fn named_chain(tree: &Tree, ty: Type, k: nat, end: Type, fuel: nat) -> bool
    decreases k,
{
    if k == 0 {
        ty == end && !(end is Named)
    } else {
        &&& ty is Named
        &&& fuel > 0
        &&& ty_of_type_mark(tree, ty->Named_0, (fuel - 1) as nat) is Ok
        &&& named_chain(
            tree,
            ty_of_type_mark(tree, ty->Named_0, (fuel - 1) as nat)->Ok_0,
            (k - 1) as nat,
            end,
            (fuel - 1) as nat,
        )
    }
}

/// A chain of names that ends in a type that is no name dereferences to that
/// type, however long the chain is.
pub proof fn law_deref_chain(tree: &Tree, ty: Type, k: nat, end: Type, fuel: nat)
    requires
        named_chain(tree, ty, k, end, fuel),
    ensures
        deref_named(tree, ty, fuel) == Ok::<Type, Seq<Diagnostic>>(end),
    decreases k,
{
    if k > 0 {
        law_deref_chain(
            tree,
            ty_of_type_mark(tree, ty->Named_0, (fuel - 1) as nat)->Ok_0,
            (k - 1) as nat,
            end,
            (fuel - 1) as nat,
        );
    }
}

/// The type of a node does not depend on the fuel it was found with: any
/// greater amount finds the same type.
pub proof fn law_more_fuel_same_type(tree: &Tree, id: TypedRef, fuel: nat, more: nat)
    requires
        ty_of(tree, id, fuel) is Ok,
        fuel <= more,
    ensures
        ty_of(tree, id, more) == ty_of(tree, id, fuel),
    decreases more,
{
    if fuel < more {
        law_more_fuel_same_type(tree, id, fuel, (more - 1) as nat);
        facts_ty_of(tree, id, (more - 1) as nat);
    }
}

/// What a type dereferences to does not depend on the fuel it was found
/// with: any greater amount finds the same type.
pub proof fn law_more_fuel_same_deref(tree: &Tree, ty: Type, fuel: nat, more: nat)
    requires
        deref_named(tree, ty, fuel) is Ok,
        fuel <= more,
    ensures
        deref_named(tree, ty, more) == deref_named(tree, ty, fuel),
    decreases more,
{
    if fuel < more {
        law_more_fuel_same_deref(tree, ty, fuel, (more - 1) as nat);
        facts_deref_named(tree, ty, (more - 1) as nat);
    }
}

/// Every type that a rule finds is well-formed, where the types that the
/// tree holds are: each subtype lies within its base.
pub proof fn law_rules_find_well_formed_types(tree: &Tree, id: TypedRef, fuel: nat)
    requires
        tree_wf(tree),
        ty_of(tree, id, fuel) is Ok,
    ensures
        ty_of(tree, id, fuel)->Ok_0.wf(),
{
    facts_ty_of(tree, id, fuel);
}

/// A subtype declaration that names itself has no dereferenced type: with
/// any fuel the attempt ends, and it ends in a failure.
pub proof fn law_self_reference_fails(tree: &Tree, decl: SubtypeDeclRef, ind: SubtypeIndRef, fuel: nat)
    requires
        entry(tree.subtype_decls@, decl.0) is Some,
        entry(tree.subtype_decls@, decl.0)->0.subty == ind,
        entry(tree.subtype_inds@, ind.0) is Some,
        entry(tree.subtype_inds@, ind.0)->0.constraint is None,
        entry(tree.subtype_inds@, ind.0)->0.type_mark == TypeMarkRef::Subtype(decl),
    ensures
        deref_named(tree, Type::Named(TypeMarkRef::Subtype(decl)), fuel) is Err,
    decreases fuel,
{
    let name = TypeMarkRef::Subtype(decl);
    if fuel >= 1 {
        assert(ty_of_type_mark(tree, name, (fuel - 1) as nat) == ty_of_subtype_decl(
            tree,
            decl,
            (fuel - 1) as nat,
        ));
        if fuel >= 2 {
            law_self_reference_fails(tree, decl, ind, (fuel - 1) as nat);
            assert(ty_of_subtype_ind(tree, ind, (fuel - 2) as nat) == Ok::<Type, Seq<Diagnostic>>(
                Type::Named(name),
            ));
            assert(ty_of_subtype_decl(tree, decl, (fuel - 1) as nat) == ty_of_subtype_ind(
                tree,
                ind,
                (fuel - 2) as nat,
            ));
        } else {
            assert(ty_of_subtype_decl(tree, decl, 0) is Err);
        }
    }
}

/// An integer literal that was given a type has that type, whatever its
/// place asks for.
pub proof fn law_literal_keeps_its_type(tree: &Tree, id: ExprRef, ty: Type, fuel: nat)
    requires
        entry(tree.exprs@, id.0) is Some,
        entry(tree.exprs@, id.0)->0.data == ExprData::IntegerLiteral(Some(ty)),
    ensures
        ty_of_expr(tree, id, fuel) == Ok::<Type, Seq<Diagnostic>>(ty),
{
}

/// An integer literal without a type takes the type its place asks for,
/// as it stands, where that dereferences to an integer type.
pub proof fn law_literal_adopts_context(tree: &Tree, id: ExprRef, expected: Type, fuel: nat)
    requires
        entry(tree.exprs@, id.0) is Some,
        entry(tree.exprs@, id.0)->0.data == ExprData::IntegerLiteral(None),
        entry(tree.type_contexts@, id.0) == Some(expected),
        deref_named(tree, expected, fuel) is Ok,
        deref_named(tree, expected, fuel)->Ok_0.is_integer(),
    ensures
        ty_of_expr(tree, id, fuel) == Ok::<Type, Seq<Diagnostic>>(expected),
{
}

/// An integer literal without a type, in a place that asks for none, has no
/// type, and the failure says so.
pub proof fn law_literal_needs_context(tree: &Tree, id: ExprRef, fuel: nat)
    requires
        entry(tree.exprs@, id.0) is Some,
        entry(tree.exprs@, id.0)->0.data == ExprData::IntegerLiteral(None),
        entry(tree.type_contexts@, id.0) is None,
    ensures
        ty_of_expr(tree, id, fuel) == fails_with::<Type>(
            Diagnostic::spec_error(
                DiagKind::CannotInferType { expr: id },
                Some(entry(tree.exprs@, id.0)->0.span),
            ),
        ),
{
}

/// The number of diagnostics that checking each node of a list on its own
/// reports, from position `from` on.
pub open spec fn diags_of_each(
    tree: &Tree,
    nodes: Seq<NodeRef>,
    from: nat,
    depth: nat,
    fuel: nat,
) -> nat
    decreases nodes.len() - from,
{
    if from >= nodes.len() {
        0
    } else {
        check(tree, nodes[from as int], depth, fuel).diags.len() + diags_of_each(
            tree,
            nodes,
            from + 1,
            depth,
            fuel,
        )
    }
}

/// Checking a list checks every node of it: the list fails exactly when one
/// of its nodes fails, and it reports as many diagnostics as its nodes
/// report one by one.
pub proof fn law_slice_checks_every_node(
    tree: &Tree,
    nodes: Seq<NodeRef>,
    from: nat,
    depth: nat,
    fuel: nat,
)
    requires
        from <= nodes.len(),
    ensures
        check_slice(tree, nodes, from, depth, fuel).failed <==> exists|i: int|
            from <= i < nodes.len() && (#[trigger] check(tree, nodes[i], depth, fuel)).failed,
        check_slice(tree, nodes, from, depth, fuel).diags.len() == diags_of_each(
            tree,
            nodes,
            from,
            depth,
            fuel,
        ),
    decreases nodes.len() - from,
{
    if from < nodes.len() {
        law_slice_checks_every_node(tree, nodes, from + 1, depth, fuel);
        if check_slice(tree, nodes, from, depth, fuel).failed {
            if check(tree, nodes[from as int], depth, fuel).failed {
            } else {
                let i = choose|i: int|
                    from + 1 <= i < nodes.len() && (#[trigger] check(
                        tree,
                        nodes[i],
                        depth,
                        fuel,
                    )).failed;
                assert(from <= i < nodes.len());
            }
        }
    }
}

/// A waveform that reports anything fails.
pub proof fn law_waveform_report_fails(
    tree: &Tree,
    wave: Seq<WaveElem>,
    from: nat,
    expected: Type,
    depth: nat,
)
    ensures
        check_waveform(tree, wave, from, expected, depth).diags.len() > 0 ==> check_waveform(
            tree,
            wave,
            from,
            expected,
            depth,
        ).failed,
    decreases wave.len() - from,
{
    if from < wave.len() {
        law_waveform_report_fails(tree, wave, from + 1, expected, depth);
    }
}

/// A session that reported anything has failed: whatever a check reports
/// fails it. So a session that passes has reported nothing.
pub proof fn law_report_fails(tree: &Tree, id: NodeRef, depth: nat, fuel: nat)
    ensures
        check(tree, id, depth, fuel).diags.len() > 0 ==> check(tree, id, depth, fuel).failed,
    decreases fuel, 1nat,
{
    law_unit_report_fails(tree, id, depth, fuel);
    match id {
        NodeRef::DeclInPkg(DeclInPkgRef::Pkg(pkg)) => {
            law_unit_report_fails(tree, NodeRef::PkgDecl(pkg), depth, fuel);
        },
        NodeRef::DeclInBlock(DeclInBlockRef::Pkg(pkg)) => {
            law_unit_report_fails(tree, NodeRef::PkgDecl(pkg), depth, fuel);
        },
        NodeRef::DeclInProc(DeclInProcRef::Pkg(pkg)) => {
            law_unit_report_fails(tree, NodeRef::PkgDecl(pkg), depth, fuel);
        },
        NodeRef::ConcStmt(ConcStmtRef::Process(process)) => {
            law_unit_report_fails(tree, NodeRef::ProcessStmt(process), depth, fuel);
        },
        NodeRef::SeqStmt(SeqStmtRef::SigAssign(stmt)) => {
            law_sig_assign_report_fails(tree, stmt, depth);
        },
        NodeRef::SigAssignStmt(stmt) => {
            law_sig_assign_report_fails(tree, stmt, depth);
        },
        _ => {},
    }
}

/// A signal assignment that reports anything fails.
pub proof fn law_sig_assign_report_fails(
    tree: &Tree,
    id: SigAssignStmtRef,
    depth: nat,
)
    ensures
        check_sig_assign(tree, id, depth).diags.len() > 0 ==> check_sig_assign(
            tree,
            id,
            depth,
        ).failed,
{
    match entry(tree.sig_assign_stmts@, id.0) {
        Some(stmt) => match stmt.target {
            SigAssignTarget::Name(sig) => match ty_of_signal(tree, sig, depth) {
                Ok(lhs) => match stmt.kind {
                    SigAssignKind::SimpleWave(_, wave) => {
                        law_waveform_report_fails(tree, wave@, 0, lhs, depth);
                    },
                    _ => {},
                },
                Err(_) => {},
            },
            _ => {},
        },
        None => {},
    }
}

/// A library, package, entity, architecture or process that reports
/// anything fails.
pub proof fn law_unit_report_fails(tree: &Tree, id: NodeRef, depth: nat, fuel: nat)
    ensures
        check_unit(tree, id, depth, fuel).diags.len() > 0 ==> check_unit(
            tree,
            id,
            depth,
            fuel,
        ).failed,
    decreases fuel, 0nat,
{
    if fuel > 0 {
        let below = (fuel - 1) as nat;
        match id {
            NodeRef::Lib(id) => match entry(tree.libs@, id.0) {
                Some(lib) => {
                    law_slice_report_fails(tree, nodes_of(lib.pkg_decls@), 0, depth, below);
                    law_slice_report_fails(tree, nodes_of(lib.pkg_insts@), 0, depth, below);
                    law_slice_report_fails(tree, nodes_of(lib.pkg_bodies@), 0, depth, below);
                    law_slice_report_fails(tree, nodes_of(lib.ctxs@), 0, depth, below);
                    law_slice_report_fails(tree, nodes_of(lib.entities@), 0, depth, below);
                    law_slice_report_fails(tree, nodes_of(lib.archs@), 0, depth, below);
                    law_slice_report_fails(tree, nodes_of(lib.cfgs@), 0, depth, below);
                },
                None => {},
            },
            NodeRef::PkgDecl(id) => match entry(tree.pkg_decls@, id.0) {
                Some(pkg) => {
                    law_slice_report_fails(tree, nodes_of(pkg.generics@), 0, depth, below);
                    law_slice_report_fails(tree, nodes_of(pkg.decls@), 0, depth, below);
                },
                None => {},
            },
            NodeRef::Entity(id) => match entry(tree.entities@, id.0) {
                Some(entity) => {
                    law_slice_report_fails(tree, nodes_of(entity.generics@), 0, depth, below);
                    law_slice_report_fails(tree, nodes_of(entity.ports@), 0, depth, below);
                },
                None => {},
            },
            NodeRef::Arch(id) => match entry(tree.archs@, id.0) {
                Some(arch) => {
                    law_report_fails(tree, NodeRef::Entity(arch.entity), depth, below);
                    law_slice_report_fails(tree, nodes_of(arch.decls@), 0, depth, below);
                    law_slice_report_fails(tree, nodes_of(arch.stmts@), 0, depth, below);
                },
                None => {},
            },
            NodeRef::ProcessStmt(id) => match entry(tree.process_stmts@, id.0) {
                Some(process) => {
                    law_slice_report_fails(tree, nodes_of(process.decls@), 0, depth, below);
                    law_slice_report_fails(tree, nodes_of(process.stmts@), 0, depth, below);
                },
                None => {},
            },
            _ => {},
        }
    }
}

/// A list of nodes that reports anything fails.
pub proof fn law_slice_report_fails(
    tree: &Tree,
    nodes: Seq<NodeRef>,
    from: nat,
    depth: nat,
    fuel: nat,
)
    ensures
        check_slice(tree, nodes, from, depth, fuel).diags.len() > 0 ==> check_slice(
            tree,
            nodes,
            from,
            depth,
            fuel,
        ).failed,
    decreases fuel, 2 + nodes.len() - from,
{
    if from < nodes.len() {
        law_report_fails(tree, nodes[from as int], depth, fuel);
        law_slice_report_fails(tree, nodes, from + 1, depth, fuel);
    }
}

} // verus!
