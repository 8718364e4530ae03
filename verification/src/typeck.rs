//! The checking context: it walks a design unit, checks every node in it
//! and remembers whether anything failed.

use vstd::prelude::*;
use crate::checks::{
    check, check_node_type, check_sig_assign, check_slice, check_typed, check_unit,
    check_wave_elem, check_waveform, nodes_of, Effects, NodeKind, TypedKind,
};
use crate::diag::{DiagKind, Diagnostic, Unhandled};
use crate::hir::{lookup, DelayMechanism, SigAssignKind, SigAssignTarget, WaveElem};
use crate::node::{
    ConcStmtRef, DeclInBlockRef, DeclInPkgRef, DeclInProcRef, GenericRef, NodeId, NodeRef,
    SeqStmtRef, SigAssignStmtRef, TypedRef,
};
use crate::score::ScoreContext;
use crate::ty::Type;

verus! {

/// Performs a type check.
pub trait Typeck<I> {
    /// What has to hold of the context before a check.
    spec fn ready(&self) -> bool;

    /// The context is `pre` after the check of `id`.
    spec fn checked_node(&self, pre: &Self, id: I) -> bool;

    /// Checks a node and everything below it.
    fn typeck(&mut self, id: I)
        requires
            old(self).ready(),
        ensures
            final(self).checked_node(old(self), id),
    ;
}

/// Checks whether a node is of a given type.
pub trait TypeckNode<I> {
    /// What has to hold of the context before a check.
    spec fn ready(&self) -> bool;

    /// The context is `pre`, and `r` the result, after `id` was checked to
    /// have the type `expected`.
    spec fn checked_node_type(&self, pre: &Self, id: I, expected: Type, r: Result<(), ()>) -> bool;

    /// Checks that a node has the type `expected`, and reports it if it has
    /// another. Two types are the same when they are built alike.
    fn typeck_node(&mut self, id: I, expected: &Type) -> (r: Result<(), ()>)
        requires
            old(self).ready(),
        ensures
            final(self).checked_node_type(old(self), id, *expected, r),
    ;
}

impl<'a, I: TypedKind> TypeckNode<I> for ScoreContext<'a> {
    open spec fn ready(&self) -> bool {
        self.wf()
    }

    open spec fn checked_node_type(
        &self,
        pre: &Self,
        id: I,
        expected: Type,
        r: Result<(), ()>,
    ) -> bool {
        let eff = check_node_type(pre.tree, id.typed(), expected, pre.depth as nat);
        self.follows(pre, eff.diags) && (r is Err) == eff.failed
    }

    fn typeck_node(&mut self, id: I, expected: &Type) -> (r: Result<(), ()>) {
        let actual = self.ty(id.to_typed())?;
        if self.arena.get(actual).equals(expected) {
            Ok(())
        } else {
            let actual = self.arena.get(actual).duplicate();
            self.emit(
                Diagnostic::error(
                    DiagKind::TypeMismatch { expected: expected.duplicate(), actual },
                    None,
                ),
            );
            Err(())
        }
    }
}

/// The nodes of a list of identifiers, in the same order.
pub fn to_nodes<I: NodeKind>(ids: &Vec<I>) -> (nodes: Vec<NodeRef>)
    ensures
        nodes@ == nodes_of(ids@),
{
    let mut nodes: Vec<NodeRef> = Vec::new();
    let mut i: usize = 0;
    while i < ids.len()
        invariant
            i <= ids@.len(),
            nodes@.len() == i,
            forall|k: int| 0 <= k < i ==> nodes@[k] == (#[trigger] ids@[k]).node(),
        decreases ids@.len() - i,
    {
        nodes.push(ids[i].to_node());
        i += 1;
    }
    assert(nodes@ =~= nodes_of(ids@));
    nodes
}

/// A context to check things in. It keeps track of whether any check failed.
pub struct TypeckContext<'a> {
    /// The computation context.
    pub ctx: ScoreContext<'a>,
    /// Whether any check has failed.
    pub failed: bool,
}

impl<'a> TypeckContext<'a> {
    /// The context is in order.
    pub open spec fn wf(&self) -> bool {
        self.ctx.wf()
    }

    /// `self` is `pre` after a check with the effects `eff`.
    pub open spec fn checked(&self, pre: &TypeckContext<'a>, eff: Effects) -> bool {
        &&& self.ctx.follows(&pre.ctx, eff.diags)
        &&& self.failed == (pre.failed || eff.failed)
    }

    /// A new checking context, in which nothing has failed yet.
    pub fn new(ctx: ScoreContext<'a>) -> (r: TypeckContext<'a>)
        ensures
            r.ctx == ctx,
            !r.failed,
    {
        TypeckContext { ctx, failed: false }
    }

    /// Ends the session. The result is `true` if no check failed.
    pub fn finish(self) -> (r: bool)
        ensures
            r == !self.failed,
    {
        !self.failed
    }

    /// Ends the session and hands back the computation context, with the
    /// types and the diagnostics of the session, beside the result.
    pub fn into_inner(self) -> (r: (ScoreContext<'a>, bool))
        ensures
            r.0 == self.ctx,
            r.1 == !self.failed,
    {
        let passed = !self.failed;
        (self.ctx, passed)
    }

    /// Reports a diagnostic. One of severity `Error` or worse fails the
    /// session.
    pub fn emit(&mut self, diag: Diagnostic)
        requires
            old(self).wf(),
        ensures
            final(self).checked(
                old(self),
                (Effects { failed: diag.severity.is_failure(), diags: seq![diag] }),
            ),
    {
        if diag.severity.failure() {
            self.failed = true;
        }
        self.ctx.emit(diag);
    }

    /// Checks the time expression of a delay mechanism. There is no rule for
    /// it yet: nothing is checked and nothing reported.
    pub fn typeck_delay_mechanism(&mut self, node: &DelayMechanism)
        ensures
            *final(self) == *old(self),
    {
    }

    /// Checks a waveform: each of its elements against the type `exp`.
    pub fn typeck_waveform(&mut self, node: &Vec<WaveElem>, exp: &Type)
        requires
            old(self).wf(),
        ensures
            final(self).checked(
                old(self),
                check_waveform(old(self).ctx.tree, node@, 0, *exp, old(self).ctx.depth as nat),
            ),
    {
        let ghost pre = *self;
        let ghost tree = self.ctx.tree;
        let ghost depth = self.ctx.depth as nat;
        let ghost mut done = Effects::none();
        let mut i: usize = 0;
        while i < node.len()
            invariant
                i <= node@.len(),
                self.wf(),
                self.checked(&pre, done),
                tree == pre.ctx.tree,
                depth == pre.ctx.depth as nat,
                check_waveform(tree, node@, 0, *exp, depth).failed == (done.failed
                    || check_waveform(tree, node@, i as nat, *exp, depth).failed),
                check_waveform(tree, node@, 0, *exp, depth).diags =~= done.diags + check_waveform(
                    tree,
                    node@,
                    i as nat,
                    *exp,
                    depth,
                ).diags,
            decreases node@.len() - i,
        {
            let ghost step = check_wave_elem(tree, node@[i as int], *exp, depth);
            self.typeck_wave_elem(&node[i], exp);
            proof {
                done = done.and(step);
            }
            i += 1;
        }
    }

    /// Checks a waveform element: its value, if it has one, against the type
    /// `exp`. The delay of the element is not checked.
    pub fn typeck_wave_elem(&mut self, node: &WaveElem, exp: &Type)
        requires
            old(self).wf(),
        ensures
            final(self).checked(
                old(self),
                check_wave_elem(old(self).ctx.tree, *node, *exp, old(self).ctx.depth as nat),
            ),
    {
        if let Some(value) = node.value {
            self.typeck_node(value, exp);
        }
    }

    /// Checks that a node has the type `exp`. The session fails if the type
    /// of the node cannot be computed, or is another.
    pub fn typeck_node<I: TypedKind>(&mut self, id: I, exp: &Type)
        requires
            old(self).wf(),
        ensures
            final(self).checked(
                old(self),
                check_node_type(old(self).ctx.tree, id.typed(), *exp, old(self).ctx.depth as nat),
            ),
    {
        if self.ctx.typeck_node(id, exp).is_err() {
            self.failed = true;
        }
    }

    /// Checks every node of a list, each whatever became of the others.
    pub fn typeck_slice<I: NodeKind>(&mut self, ids: &Vec<I>)
        requires
            old(self).wf(),
        ensures
            final(self).checked(
                old(self),
                check_slice(
                    old(self).ctx.tree,
                    nodes_of(ids@),
                    0,
                    old(self).ctx.depth as nat,
                    old(self).ctx.depth as nat,
                ),
            ),
    {
        let fuel = self.ctx.depth;
        let nodes = to_nodes(ids);
        self.typeck_nodes(&nodes, fuel)
    }

    /// Reports a node of a kind without a rule.
    fn unimp(&mut self, id: NodeId)
        requires
            old(self).wf(),
        ensures
            final(self).checked(old(self), crate::checks::not_implemented(id)),
    {
        self.emit(Diagnostic::bug(DiagKind::NotImplemented { what: Unhandled::Node(id) }, None));
    }

    /// Reports nodes nested deeper than the session follows.
    fn give_up(&mut self)
        requires
            old(self).wf(),
        ensures
            final(self).checked(old(self), crate::checks::too_deep()),
    {
        self.emit(Diagnostic::bug(DiagKind::NestedTooDeep, None));
    }

    /// Checks a node by computing its type.
    fn typeck_typed(&mut self, id: TypedRef)
        requires
            old(self).wf(),
        ensures
            final(self).checked(
                old(self),
                check_typed(old(self).ctx.tree, id, old(self).ctx.depth as nat),
            ),
    {
        if self.ctx.ty(id).is_err() {
            self.failed = true;
        }
    }

    /// Checks a signal assignment.
    pub fn typeck_sig_assign(&mut self, id: SigAssignStmtRef)
        requires
            old(self).wf(),
        ensures
            final(self).checked(
                old(self),
                check_sig_assign(old(self).ctx.tree, id, old(self).ctx.depth as nat),
            ),
    {
        let tree = self.ctx.tree;
        let stmt = match lookup(&tree.sig_assign_stmts, id.0) {
            Some(stmt) => stmt,
            None => {
                self.failed = true;
                return ;
            },
        };
        let lhs = match &stmt.target {
            SigAssignTarget::Name(sig) => {
                let fuel = self.ctx.depth;
                match self.ctx.ty_signal(*sig, fuel) {
                    Ok(lhs) => self.ctx.arena.get(lhs).duplicate(),
                    Err(_) => {
                        self.failed = true;
                        return ;
                    },
                }
            },
            SigAssignTarget::Aggregate => {
                self.emit(
                    Diagnostic::bug(
                        DiagKind::NotImplemented { what: Unhandled::AggregateTarget },
                        Some(stmt.target_span),
                    ),
                );
                return ;
            },
        };
        match &stmt.kind {
            SigAssignKind::SimpleWave(dm, wave) => {
                self.typeck_delay_mechanism(dm);
                self.typeck_waveform(wave, &lhs);
            },
            SigAssignKind::CondWave(dm) => {
                self.typeck_delay_mechanism(dm);
            },
            SigAssignKind::SelWave(dm) => {
                self.typeck_delay_mechanism(dm);
            },
            _ => {},
        }
    }

    /// Checks every node of a list, each whatever became of the others,
    /// following nested nodes `fuel` deep.
    pub fn typeck_nodes(&mut self, nodes: &Vec<NodeRef>, fuel: usize)
        requires
            old(self).wf(),
        ensures
            final(self).checked(
                old(self),
                check_slice(
                    old(self).ctx.tree,
                    nodes@,
                    0,
                    old(self).ctx.depth as nat,
                    fuel as nat,
                ),
            ),
        decreases fuel, 2nat,
    {
        let ghost pre = *self;
        let ghost tree = self.ctx.tree;
        let ghost depth = self.ctx.depth as nat;
        let ghost mut done = Effects::none();
        let mut i: usize = 0;
        while i < nodes.len()
            invariant
                i <= nodes@.len(),
                self.wf(),
                self.checked(&pre, done),
                tree == pre.ctx.tree,
                depth == pre.ctx.depth as nat,
                check_slice(tree, nodes@, 0, depth, fuel as nat).failed == (done.failed
                    || check_slice(tree, nodes@, i as nat, depth, fuel as nat).failed),
                check_slice(tree, nodes@, 0, depth, fuel as nat).diags =~= done.diags
                    + check_slice(tree, nodes@, i as nat, depth, fuel as nat).diags,
            decreases nodes@.len() - i,
        {
            let ghost step = check(tree, nodes@[i as int], depth, fuel as nat);
            self.typeck_at(nodes[i], fuel);
            proof {
                done = done.and(step);
            }
            i += 1;
        }
    }

    /// Checks a node that holds lists of other nodes.
    fn typeck_unit(&mut self, id: NodeRef, fuel: usize)
        requires
            old(self).wf(),
        ensures
            final(self).checked(
                old(self),
                check_unit(old(self).ctx.tree, id, old(self).ctx.depth as nat, fuel as nat),
            ),
        decreases fuel, 0nat,
    {
        let tree = self.ctx.tree;
        match id {
            NodeRef::Lib(id) => {
                let lib = match lookup(&tree.libs, id.0) {
                    Some(lib) => lib,
                    None => {
                        self.failed = true;
                        return ;
                    },
                };
                if fuel == 0 {
                    self.give_up();
                    return ;
                }
                self.typeck_nodes(&to_nodes(&lib.pkg_decls), fuel - 1);
                self.typeck_nodes(&to_nodes(&lib.pkg_insts), fuel - 1);
                self.typeck_nodes(&to_nodes(&lib.pkg_bodies), fuel - 1);
                self.typeck_nodes(&to_nodes(&lib.ctxs), fuel - 1);
                self.typeck_nodes(&to_nodes(&lib.entities), fuel - 1);
                self.typeck_nodes(&to_nodes(&lib.archs), fuel - 1);
                self.typeck_nodes(&to_nodes(&lib.cfgs), fuel - 1);
            },
            NodeRef::PkgDecl(id) => {
                let pkg = match lookup(&tree.pkg_decls, id.0) {
                    Some(pkg) => pkg,
                    None => {
                        self.failed = true;
                        return ;
                    },
                };
                if fuel == 0 {
                    self.give_up();
                    return ;
                }
                self.typeck_nodes(&to_nodes(&pkg.generics), fuel - 1);
                self.typeck_nodes(&to_nodes(&pkg.decls), fuel - 1);
            },
            NodeRef::Entity(id) => {
                let entity = match lookup(&tree.entities, id.0) {
                    Some(entity) => entity,
                    None => {
                        self.failed = true;
                        return ;
                    },
                };
                if fuel == 0 {
                    self.give_up();
                    return ;
                }
                self.typeck_nodes(&to_nodes(&entity.generics), fuel - 1);
                self.typeck_nodes(&to_nodes(&entity.ports), fuel - 1);
            },
            NodeRef::Arch(id) => {
                let arch = match lookup(&tree.archs, id.0) {
                    Some(arch) => arch,
                    None => {
                        self.failed = true;
                        return ;
                    },
                };
                if fuel == 0 {
                    self.give_up();
                    return ;
                }
                self.typeck_at(NodeRef::Entity(arch.entity), fuel - 1);
                self.typeck_nodes(&to_nodes(&arch.decls), fuel - 1);
                self.typeck_nodes(&to_nodes(&arch.stmts), fuel - 1);
            },
            NodeRef::ProcessStmt(id) => {
                let process = match lookup(&tree.process_stmts, id.0) {
                    Some(process) => process,
                    None => {
                        self.failed = true;
                        return ;
                    },
                };
                if fuel == 0 {
                    self.give_up();
                    return ;
                }
                self.typeck_nodes(&to_nodes(&process.decls), fuel - 1);
                self.typeck_nodes(&to_nodes(&process.stmts), fuel - 1);
            },
            _ => {},
        }
    }

    /// Checks a node and everything below it, following nested nodes `fuel`
    /// deep. Every kind of node is accounted for: one without a rule is
    /// reported as such.
    pub fn typeck_at(&mut self, id: NodeRef, fuel: usize)
        requires
            old(self).wf(),
        ensures
            final(self).checked(
                old(self),
                check(old(self).ctx.tree, id, old(self).ctx.depth as nat, fuel as nat),
            ),
        decreases fuel, 1nat,
    {
        match id {
            NodeRef::Other(id) => self.unimp(id),
            NodeRef::Typed(id) => self.typeck_typed(id),
            NodeRef::Generic(id) => match id {
                GenericRef::Type(id) => self.unimp(id),
                GenericRef::Subprog(id) => self.unimp(id),
                GenericRef::Pkg(id) => self.unimp(id),
                GenericRef::Const(id) => self.unimp(id),
            },
            NodeRef::SigAssignStmt(id) => self.typeck_sig_assign(id),
            NodeRef::DeclInPkg(id) => match id {
                DeclInPkgRef::Pkg(id) => self.typeck_unit(NodeRef::PkgDecl(id), fuel),
                DeclInPkgRef::PkgInst(id) => self.unimp(id),
                DeclInPkgRef::Type(id) => self.typeck_typed(TypedRef::TypeDecl(id)),
                DeclInPkgRef::Subtype(id) => self.typeck_typed(TypedRef::SubtypeDecl(id)),
            },
            NodeRef::DeclInBlock(id) => match id {
                DeclInBlockRef::Pkg(id) => self.typeck_unit(NodeRef::PkgDecl(id), fuel),
                DeclInBlockRef::PkgInst(id) => self.unimp(id),
                DeclInBlockRef::Type(id) => self.typeck_typed(TypedRef::TypeDecl(id)),
                DeclInBlockRef::Subtype(id) => self.typeck_typed(TypedRef::SubtypeDecl(id)),
                DeclInBlockRef::Const(id) => self.unimp(id),
                DeclInBlockRef::Signal(id) => self.typeck_typed(TypedRef::SignalDecl(id)),
                DeclInBlockRef::SharedVar(id) => self.unimp(id),
                DeclInBlockRef::File(id) => self.unimp(id),
            },
            NodeRef::DeclInProc(id) => match id {
                DeclInProcRef::Pkg(id) => self.typeck_unit(NodeRef::PkgDecl(id), fuel),
                DeclInProcRef::PkgBody(id) => self.unimp(id),
                DeclInProcRef::PkgInst(id) => self.unimp(id),
                DeclInProcRef::Type(id) => self.typeck_typed(TypedRef::TypeDecl(id)),
                DeclInProcRef::Subtype(id) => self.typeck_typed(TypedRef::SubtypeDecl(id)),
                DeclInProcRef::Const(id) => self.unimp(id),
                DeclInProcRef::Var(id) => self.unimp(id),
                DeclInProcRef::File(id) => self.unimp(id),
            },
            NodeRef::ConcStmt(id) => match id {
                ConcStmtRef::Process(id) => self.typeck_unit(NodeRef::ProcessStmt(id), fuel),
                ConcStmtRef::Block(id) => self.unimp(id),
                ConcStmtRef::ConcProcCall(id) => self.unimp(id),
                ConcStmtRef::ConcAssert(id) => self.unimp(id),
                ConcStmtRef::ConcSigAssign(id) => self.unimp(id),
                ConcStmtRef::CompInst(id) => self.unimp(id),
                ConcStmtRef::ForGen(id) => self.unimp(id),
                ConcStmtRef::IfGen(id) => self.unimp(id),
                ConcStmtRef::CaseGen(id) => self.unimp(id),
            },
            NodeRef::SeqStmt(id) => match id {
                SeqStmtRef::SigAssign(id) => self.typeck_sig_assign(id),
                SeqStmtRef::Null(_) => {},
                SeqStmtRef::Wait(id) => self.unimp(id),
                SeqStmtRef::Assert(id) => self.unimp(id),
                SeqStmtRef::Report(id) => self.unimp(id),
                SeqStmtRef::VarAssign(id) => self.unimp(id),
                SeqStmtRef::ProcCall(id) => self.unimp(id),
                SeqStmtRef::If(id) => self.unimp(id),
                SeqStmtRef::Case(id) => self.unimp(id),
                SeqStmtRef::Loop(id) => self.unimp(id),
                SeqStmtRef::Next(id) => self.unimp(id),
                SeqStmtRef::Exit(id) => self.unimp(id),
                SeqStmtRef::Return(id) => self.unimp(id),
            },
            _ => self.typeck_unit(id, fuel),
        }
    }
}

impl<'a, I: NodeKind> Typeck<I> for TypeckContext<'a> {
    open spec fn ready(&self) -> bool {
        self.wf()
    }

    open spec fn checked_node(&self, pre: &Self, id: I) -> bool {
        self.checked(
            pre,
            check(pre.ctx.tree, id.node(), pre.ctx.depth as nat, pre.ctx.depth as nat),
        )
    }

    fn typeck(&mut self, id: I) {
        let fuel = self.ctx.depth;
        self.typeck_at(id.to_node(), fuel)
    }
}

} // verus!
