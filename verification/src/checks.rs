//! The checking rules, as mathematical functions of the lowered tree.
//!
//! A check goes through a node and everything below it. It does not stop at
//! the first thing that is wrong: every declaration and statement of a list
//! is checked, whatever became of the ones before it.

use vstd::prelude::*;
use crate::diag::{DiagKind, Diagnostic, Unhandled};
use crate::hir::{entry, SigAssignKind, SigAssignTarget, Tree, WaveElem};
use crate::node::{
    ArchRef, ConcStmtRef, DeclInBlockRef, DeclInPkgRef, DeclInProcRef, EntityRef, ExprRef,
    GenericRef, IntfSignalRef, LibRef, NodeId, NodeRef, PkgDeclRef, ProcessStmtRef, SeqStmtRef,
    SigAssignStmtRef, SignalDeclRef, SignalRef, SubtypeDeclRef, SubtypeIndRef, TypeDeclRef,
    TypeMarkRef, TypedNodeRef, TypedRef,
};
use crate::rules::{ty_of, ty_of_signal};
use crate::ty::Type;

verus! {

/// What a check does to a session: whether it fails it, and the diagnostics
/// it reports, in order.
pub struct Effects {
    pub failed: bool,
    pub diags: Seq<Diagnostic>,
}

impl Effects {
    /// Nothing found.
    pub open spec fn none() -> Effects {
        Effects { failed: false, diags: Seq::empty() }
    }

    /// A failure that reports `diags`.
    pub open spec fn failure(diags: Seq<Diagnostic>) -> Effects {
        Effects { failed: true, diags }
    }

    /// `self`, and `next` after it.
    pub open spec fn and(self, next: Effects) -> Effects {
        Effects { failed: self.failed || next.failed, diags: self.diags + next.diags }
    }
}

/// A kind of node identifier that can be checked.
pub trait NodeKind: Copy {
    /// The node, by its kind.
    spec fn node(self) -> NodeRef;

    fn to_node(self) -> (r: NodeRef)
        ensures
            r == self.node(),
    ;
}

/// A kind of node identifier whose type can be computed and compared.
pub trait TypedKind: Copy {
    /// The node, by its kind.
    spec fn typed(self) -> TypedRef;

    fn to_typed(self) -> (r: TypedRef)
        ensures
            r == self.typed(),
    ;
}

/// The nodes of a list of identifiers.
pub open spec fn nodes_of<I: NodeKind>(ids: Seq<I>) -> Seq<NodeRef> {
    ids.map_values(|id: I| id.node())
}

/// The report for a node of a kind that has no rule yet.
pub open spec fn not_implemented(id: NodeId) -> Effects {
    Effects::failure(
        seq![Diagnostic::spec_bug(DiagKind::NotImplemented { what: Unhandled::Node(id) }, None)],
    )
}

/// The report for nodes nested deeper than the session follows.
pub open spec fn too_deep() -> Effects {
    Effects::failure(seq![Diagnostic::spec_bug(DiagKind::NestedTooDeep, None)])
}

/// The diagnostic for a node of another type than its place asks for.
pub open spec fn type_mismatch(expected: Type, actual: Type) -> Diagnostic {
    Diagnostic::spec_error(DiagKind::TypeMismatch { expected, actual }, None)
}

/// Checking a node by computing its type: it fails where the type cannot be
/// computed.
pub open spec fn check_typed(tree: &Tree, id: TypedRef, depth: nat) -> Effects {
    match ty_of(tree, id, depth) {
        Ok(_) => Effects::none(),
        Err(ds) => Effects::failure(ds),
    }
}

/// Checking that a node has the type `expected`. Types are compared by how
/// they are built.
pub open spec fn check_node_type(tree: &Tree, id: TypedRef, expected: Type, depth: nat) -> Effects {
    match ty_of(tree, id, depth) {
        Err(ds) => Effects::failure(ds),
        Ok(actual) => if actual == expected {
            Effects::none()
        } else {
            Effects::failure(seq![type_mismatch(expected, actual)])
        },
    }
}

/// Checking one element of a waveform against the type of the target. The
/// delay of the element is not checked.
pub open spec fn check_wave_elem(tree: &Tree, elem: WaveElem, expected: Type, depth: nat) -> Effects {
    match elem.value {
        Some(value) => check_node_type(tree, TypedRef::Expr(value), expected, depth),
        None => Effects::none(),
    }
}

/// Checking the elements of a waveform from position `from` on.
pub open spec fn check_waveform(
    tree: &Tree,
    wave: Seq<WaveElem>,
    from: nat,
    expected: Type,
    depth: nat,
) -> Effects
    decreases wave.len() - from,
{
    if from >= wave.len() {
        Effects::none()
    } else {
        check_wave_elem(tree, wave[from as int], expected, depth).and(
            check_waveform(tree, wave, from + 1, expected, depth),
        )
    }
}

/// The report for an assignment to an aggregate of signals.
pub open spec fn aggregate_target(span: crate::node::Span) -> Effects {
    Effects::failure(
        seq![
            Diagnostic::spec_bug(
                DiagKind::NotImplemented { what: Unhandled::AggregateTarget },
                Some(span),
            ),
        ],
    )
}

/// Checking a signal assignment: each value of a simple waveform must have
/// the type of the target. The other kinds of assignment are not looked
/// into.
pub open spec fn check_sig_assign(tree: &Tree, id: SigAssignStmtRef, depth: nat) -> Effects {
    match entry(tree.sig_assign_stmts@, id.0) {
        None => Effects::failure(Seq::empty()),
        Some(stmt) => match stmt.target {
            SigAssignTarget::Aggregate => aggregate_target(stmt.target_span),
            SigAssignTarget::Name(sig) => match ty_of_signal(tree, sig, depth) {
                Err(ds) => Effects::failure(ds),
                Ok(lhs) => match stmt.kind {
                    SigAssignKind::SimpleWave(_, wave) => check_waveform(tree, wave@, 0, lhs, depth),
                    _ => Effects::none(),
                },
            },
        },
    }
}

/// Checking a generic: no kind of generic has a rule yet.
pub open spec fn check_generic(id: GenericRef) -> Effects {
    match id {
        GenericRef::Type(id) => not_implemented(id),
        GenericRef::Subprog(id) => not_implemented(id),
        GenericRef::Pkg(id) => not_implemented(id),
        GenericRef::Const(id) => not_implemented(id),
    }
}

/// Checking a node and everything below it. Nodes nested more than `fuel`
/// deep are reported and not looked into.
pub open spec fn check(tree: &Tree, id: NodeRef, depth: nat, fuel: nat) -> Effects
    decreases fuel, 1nat,
{
    match id {
        NodeRef::Other(id) => not_implemented(id),
        NodeRef::Typed(id) => check_typed(tree, id, depth),
        NodeRef::Generic(id) => check_generic(id),
        NodeRef::SigAssignStmt(id) => check_sig_assign(tree, id, depth),
        NodeRef::DeclInPkg(id) => match id {
            DeclInPkgRef::Pkg(id) => check_unit(tree, NodeRef::PkgDecl(id), depth, fuel),
            DeclInPkgRef::PkgInst(id) => not_implemented(id),
            DeclInPkgRef::Type(id) => check_typed(tree, TypedRef::TypeDecl(id), depth),
            DeclInPkgRef::Subtype(id) => check_typed(tree, TypedRef::SubtypeDecl(id), depth),
        },
        NodeRef::DeclInBlock(id) => match id {
            DeclInBlockRef::Pkg(id) => check_unit(tree, NodeRef::PkgDecl(id), depth, fuel),
            DeclInBlockRef::PkgInst(id) => not_implemented(id),
            DeclInBlockRef::Type(id) => check_typed(tree, TypedRef::TypeDecl(id), depth),
            DeclInBlockRef::Subtype(id) => check_typed(tree, TypedRef::SubtypeDecl(id), depth),
            DeclInBlockRef::Const(id) => not_implemented(id),
            DeclInBlockRef::Signal(id) => check_typed(tree, TypedRef::SignalDecl(id), depth),
            DeclInBlockRef::SharedVar(id) => not_implemented(id),
            DeclInBlockRef::File(id) => not_implemented(id),
        },
        NodeRef::DeclInProc(id) => match id {
            DeclInProcRef::Pkg(id) => check_unit(tree, NodeRef::PkgDecl(id), depth, fuel),
            DeclInProcRef::PkgBody(id) => not_implemented(id),
            DeclInProcRef::PkgInst(id) => not_implemented(id),
            DeclInProcRef::Type(id) => check_typed(tree, TypedRef::TypeDecl(id), depth),
            DeclInProcRef::Subtype(id) => check_typed(tree, TypedRef::SubtypeDecl(id), depth),
            DeclInProcRef::Const(id) => not_implemented(id),
            DeclInProcRef::Var(id) => not_implemented(id),
            DeclInProcRef::File(id) => not_implemented(id),
        },
        NodeRef::ConcStmt(id) => match id {
            ConcStmtRef::Process(id) => check_unit(tree, NodeRef::ProcessStmt(id), depth, fuel),
            ConcStmtRef::Block(id) => not_implemented(id),
            ConcStmtRef::ConcProcCall(id) => not_implemented(id),
            ConcStmtRef::ConcAssert(id) => not_implemented(id),
            ConcStmtRef::ConcSigAssign(id) => not_implemented(id),
            ConcStmtRef::CompInst(id) => not_implemented(id),
            ConcStmtRef::ForGen(id) => not_implemented(id),
            ConcStmtRef::IfGen(id) => not_implemented(id),
            ConcStmtRef::CaseGen(id) => not_implemented(id),
        },
        NodeRef::SeqStmt(id) => match id {
            SeqStmtRef::SigAssign(id) => check_sig_assign(tree, id, depth),
            SeqStmtRef::Null(_) => Effects::none(),
            SeqStmtRef::Wait(id) => not_implemented(id),
            SeqStmtRef::Assert(id) => not_implemented(id),
            SeqStmtRef::Report(id) => not_implemented(id),
            SeqStmtRef::VarAssign(id) => not_implemented(id),
            SeqStmtRef::ProcCall(id) => not_implemented(id),
            SeqStmtRef::If(id) => not_implemented(id),
            SeqStmtRef::Case(id) => not_implemented(id),
            SeqStmtRef::Loop(id) => not_implemented(id),
            SeqStmtRef::Next(id) => not_implemented(id),
            SeqStmtRef::Exit(id) => not_implemented(id),
            SeqStmtRef::Return(id) => not_implemented(id),
        },
        _ => check_unit(tree, id, depth, fuel),
    }
}

/// Checking a node that holds lists of other nodes: a library, a package, an
/// entity, an architecture or a process. A node of another kind holds
/// nothing to go through.
pub open spec fn check_unit(tree: &Tree, id: NodeRef, depth: nat, fuel: nat) -> Effects
    decreases fuel, 0nat,
{
    match id {
        NodeRef::Lib(id) => match entry(tree.libs@, id.0) {
            None => Effects::failure(Seq::empty()),
            Some(lib) => if fuel == 0 {
                too_deep()
            } else {
                let below = (fuel - 1) as nat;
                check_slice(tree, nodes_of(lib.pkg_decls@), 0, depth, below).and(
                    check_slice(tree, nodes_of(lib.pkg_insts@), 0, depth, below),
                ).and(check_slice(tree, nodes_of(lib.pkg_bodies@), 0, depth, below)).and(
                    check_slice(tree, nodes_of(lib.ctxs@), 0, depth, below),
                ).and(check_slice(tree, nodes_of(lib.entities@), 0, depth, below)).and(
                    check_slice(tree, nodes_of(lib.archs@), 0, depth, below),
                ).and(check_slice(tree, nodes_of(lib.cfgs@), 0, depth, below))
            },
        },
        NodeRef::PkgDecl(id) => match entry(tree.pkg_decls@, id.0) {
            None => Effects::failure(Seq::empty()),
            Some(pkg) => if fuel == 0 {
                too_deep()
            } else {
                let below = (fuel - 1) as nat;
                check_slice(tree, nodes_of(pkg.generics@), 0, depth, below).and(
                    check_slice(tree, nodes_of(pkg.decls@), 0, depth, below),
                )
            },
        },
        NodeRef::Entity(id) => match entry(tree.entities@, id.0) {
            None => Effects::failure(Seq::empty()),
            Some(entity) => if fuel == 0 {
                too_deep()
            } else {
                let below = (fuel - 1) as nat;
                check_slice(tree, nodes_of(entity.generics@), 0, depth, below).and(
                    check_slice(tree, nodes_of(entity.ports@), 0, depth, below),
                )
            },
        },
        NodeRef::Arch(id) => match entry(tree.archs@, id.0) {
            None => Effects::failure(Seq::empty()),
            Some(arch) => if fuel == 0 {
                too_deep()
            } else {
                let below = (fuel - 1) as nat;
                check(tree, NodeRef::Entity(arch.entity), depth, below).and(
                    check_slice(tree, nodes_of(arch.decls@), 0, depth, below),
                ).and(check_slice(tree, nodes_of(arch.stmts@), 0, depth, below))
            },
        },
        NodeRef::ProcessStmt(id) => match entry(tree.process_stmts@, id.0) {
            None => Effects::failure(Seq::empty()),
            Some(process) => if fuel == 0 {
                too_deep()
            } else {
                let below = (fuel - 1) as nat;
                check_slice(tree, nodes_of(process.decls@), 0, depth, below).and(
                    check_slice(tree, nodes_of(process.stmts@), 0, depth, below),
                )
            },
        },
        _ => Effects::none(),
    }
}

/// Checking the nodes of a list from position `from` on, each of them,
/// in order.
pub open spec fn check_slice(
    tree: &Tree,
    nodes: Seq<NodeRef>,
    from: nat,
    depth: nat,
    fuel: nat,
) -> Effects
    decreases fuel, 2 + nodes.len() - from,
{
    if from >= nodes.len() {
        Effects::none()
    } else {
        check(tree, nodes[from as int], depth, fuel).and(
            check_slice(tree, nodes, from + 1, depth, fuel),
        )
    }
}

impl NodeKind for NodeRef {
    open spec fn node(self) -> NodeRef {
        self
    }

    fn to_node(self) -> NodeRef {
        self
    }
}

impl NodeKind for NodeId {
    open spec fn node(self) -> NodeRef {
        NodeRef::Other(self)
    }

    fn to_node(self) -> NodeRef {
        NodeRef::Other(self)
    }
}

impl NodeKind for LibRef {
    open spec fn node(self) -> NodeRef {
        NodeRef::Lib(self)
    }

    fn to_node(self) -> NodeRef {
        NodeRef::Lib(self)
    }
}

impl NodeKind for PkgDeclRef {
    open spec fn node(self) -> NodeRef {
        NodeRef::PkgDecl(self)
    }

    fn to_node(self) -> NodeRef {
        NodeRef::PkgDecl(self)
    }
}

impl NodeKind for EntityRef {
    open spec fn node(self) -> NodeRef {
        NodeRef::Entity(self)
    }

    fn to_node(self) -> NodeRef {
        NodeRef::Entity(self)
    }
}

impl NodeKind for ArchRef {
    open spec fn node(self) -> NodeRef {
        NodeRef::Arch(self)
    }

    fn to_node(self) -> NodeRef {
        NodeRef::Arch(self)
    }
}

impl NodeKind for GenericRef {
    open spec fn node(self) -> NodeRef {
        NodeRef::Generic(self)
    }

    fn to_node(self) -> NodeRef {
        NodeRef::Generic(self)
    }
}

impl NodeKind for DeclInPkgRef {
    open spec fn node(self) -> NodeRef {
        NodeRef::DeclInPkg(self)
    }

    fn to_node(self) -> NodeRef {
        NodeRef::DeclInPkg(self)
    }
}

impl NodeKind for DeclInBlockRef {
    open spec fn node(self) -> NodeRef {
        NodeRef::DeclInBlock(self)
    }

    fn to_node(self) -> NodeRef {
        NodeRef::DeclInBlock(self)
    }
}

impl NodeKind for DeclInProcRef {
    open spec fn node(self) -> NodeRef {
        NodeRef::DeclInProc(self)
    }

    fn to_node(self) -> NodeRef {
        NodeRef::DeclInProc(self)
    }
}

impl NodeKind for ConcStmtRef {
    open spec fn node(self) -> NodeRef {
        NodeRef::ConcStmt(self)
    }

    fn to_node(self) -> NodeRef {
        NodeRef::ConcStmt(self)
    }
}

impl NodeKind for SeqStmtRef {
    open spec fn node(self) -> NodeRef {
        NodeRef::SeqStmt(self)
    }

    fn to_node(self) -> NodeRef {
        NodeRef::SeqStmt(self)
    }
}

impl NodeKind for ProcessStmtRef {
    open spec fn node(self) -> NodeRef {
        NodeRef::ProcessStmt(self)
    }

    fn to_node(self) -> NodeRef {
        NodeRef::ProcessStmt(self)
    }
}

impl NodeKind for SigAssignStmtRef {
    open spec fn node(self) -> NodeRef {
        NodeRef::SigAssignStmt(self)
    }

    fn to_node(self) -> NodeRef {
        NodeRef::SigAssignStmt(self)
    }
}

impl NodeKind for TypeDeclRef {
    open spec fn node(self) -> NodeRef {
        NodeRef::Typed(TypedRef::TypeDecl(self))
    }

    fn to_node(self) -> NodeRef {
        NodeRef::Typed(TypedRef::TypeDecl(self))
    }
}

impl NodeKind for SubtypeDeclRef {
    open spec fn node(self) -> NodeRef {
        NodeRef::Typed(TypedRef::SubtypeDecl(self))
    }

    fn to_node(self) -> NodeRef {
        NodeRef::Typed(TypedRef::SubtypeDecl(self))
    }
}

impl NodeKind for SubtypeIndRef {
    open spec fn node(self) -> NodeRef {
        NodeRef::Typed(TypedRef::SubtypeInd(self))
    }

    fn to_node(self) -> NodeRef {
        NodeRef::Typed(TypedRef::SubtypeInd(self))
    }
}

impl NodeKind for SignalDeclRef {
    open spec fn node(self) -> NodeRef {
        NodeRef::Typed(TypedRef::SignalDecl(self))
    }

    fn to_node(self) -> NodeRef {
        NodeRef::Typed(TypedRef::SignalDecl(self))
    }
}

impl NodeKind for IntfSignalRef {
    open spec fn node(self) -> NodeRef {
        NodeRef::Typed(TypedRef::IntfSignal(self))
    }

    fn to_node(self) -> NodeRef {
        NodeRef::Typed(TypedRef::IntfSignal(self))
    }
}

impl NodeKind for ExprRef {
    open spec fn node(self) -> NodeRef {
        NodeRef::Typed(TypedRef::Expr(self))
    }

    fn to_node(self) -> NodeRef {
        NodeRef::Typed(TypedRef::Expr(self))
    }
}

impl NodeKind for TypedRef {
    open spec fn node(self) -> NodeRef {
        NodeRef::Typed(self)
    }

    fn to_node(self) -> NodeRef {
        NodeRef::Typed(self)
    }
}

impl TypedKind for TypedRef {
    open spec fn typed(self) -> TypedRef {
        self
    }

    fn to_typed(self) -> TypedRef {
        self
    }
}

impl TypedKind for TypeMarkRef {
    open spec fn typed(self) -> TypedRef {
        TypedRef::TypeMark(self)
    }

    fn to_typed(self) -> TypedRef {
        TypedRef::TypeMark(self)
    }
}

impl TypedKind for TypeDeclRef {
    open spec fn typed(self) -> TypedRef {
        TypedRef::TypeDecl(self)
    }

    fn to_typed(self) -> TypedRef {
        TypedRef::TypeDecl(self)
    }
}

impl TypedKind for SubtypeDeclRef {
    open spec fn typed(self) -> TypedRef {
        TypedRef::SubtypeDecl(self)
    }

    fn to_typed(self) -> TypedRef {
        TypedRef::SubtypeDecl(self)
    }
}

impl TypedKind for SubtypeIndRef {
    open spec fn typed(self) -> TypedRef {
        TypedRef::SubtypeInd(self)
    }

    fn to_typed(self) -> TypedRef {
        TypedRef::SubtypeInd(self)
    }
}

impl TypedKind for SignalDeclRef {
    open spec fn typed(self) -> TypedRef {
        TypedRef::SignalDecl(self)
    }

    fn to_typed(self) -> TypedRef {
        TypedRef::SignalDecl(self)
    }
}

impl TypedKind for IntfSignalRef {
    open spec fn typed(self) -> TypedRef {
        TypedRef::IntfSignal(self)
    }

    fn to_typed(self) -> TypedRef {
        TypedRef::IntfSignal(self)
    }
}

impl TypedKind for SignalRef {
    open spec fn typed(self) -> TypedRef {
        TypedRef::Signal(self)
    }

    fn to_typed(self) -> TypedRef {
        TypedRef::Signal(self)
    }
}

impl TypedKind for TypedNodeRef {
    open spec fn typed(self) -> TypedRef {
        TypedRef::TypedNode(self)
    }

    fn to_typed(self) -> TypedRef {
        TypedRef::TypedNode(self)
    }
}

impl TypedKind for ExprRef {
    open spec fn typed(self) -> TypedRef {
        TypedRef::Expr(self)
    }

    fn to_typed(self) -> TypedRef {
        TypedRef::Expr(self)
    }
}

} // verus!
