//! The computation context: it computes the type of a node on demand, puts
//! every type it builds into its arena and keeps the diagnostics it reports.
//!
//! A type is computed anew each time it is asked for. Asking twice gives two
//! handles to types that are built alike, and so compare equal.

use vstd::prelude::*;
use crate::arena::{TyRef, TypeArena};
use crate::diag::{DiagKind, Diagnostic, Unhandled};
use crate::hir::{lookup, ArrayTypeIndexData, Constraint, ExprData, Tree, TypeData};
use crate::konst::Const;
use crate::node::{
    ArrayTypeIndexRef, ExprRef, IntfSignalRef, SignalDeclRef, SignalRef, Span, SubtypeDeclRef,
    SubtypeIndRef, TypeDeclRef, TypeMarkRef, TypedNodeRef, TypedRef,
};
use crate::rules::{
    array_index, array_indices, constrain, constraint_range, deref_named, range_ty, ty_of,
    ty_of_expr, ty_of_intf_signal, ty_of_signal, ty_of_signal_decl, ty_of_subtype_decl,
    ty_of_subtype_ind, ty_of_type_decl, ty_of_type_mark, ty_of_typed_node, Outcome,
};
use crate::ty::{ArrayIndex, Dir, IndexList, IntRange, Type};

verus! {

/// How many references in a row a context follows unless told otherwise.
pub const DEFAULT_DEPTH: usize = 4096;

/// The context of one session.
pub struct ScoreContext<'a> {
    /// The lowered tree under check.
    pub tree: &'a Tree,
    /// The types built so far.
    pub arena: TypeArena,
    /// The diagnostics reported so far, oldest first.
    pub diags: Vec<Diagnostic>,
    /// How many references in a row the context follows before it takes the
    /// chain to be cyclic.
    pub depth: usize,
}

impl<'a> ScoreContext<'a> {
    /// The context is in order.
    pub open spec fn wf(&self) -> bool {
        self.arena.wf()
    }

    /// `self` is `pre` after it reported `ds` and nothing else: the tree and
    /// the depth are the same, and every type of `pre` is still in place.
    pub open spec fn follows(&self, pre: &ScoreContext<'a>, ds: Seq<Diagnostic>) -> bool {
        &&& self.tree == pre.tree
        &&& self.depth == pre.depth
        &&& self.wf()
        &&& self.arena.extends(&pre.arena)
        &&& self.diags@ =~= pre.diags@ + ds
    }

    /// `self` and `r` are what `pre` comes to under a rule with outcome
    /// `out`: on success `r` is a handle to the rule's type and nothing was
    /// reported, on failure `r` is the error and the rule's diagnostics were
    /// reported.
    pub open spec fn yields(
        &self,
        pre: &ScoreContext<'a>,
        r: Result<TyRef, ()>,
        out: Outcome,
    ) -> bool {
        match out {
            Ok(ty) => {
                &&& r is Ok
                &&& self.follows(pre, Seq::empty())
                &&& self.arena.contains(r->Ok_0)
                &&& self.arena.resolve(r->Ok_0) == ty
            },
            Err(ds) => r is Err && self.follows(pre, ds),
        }
    }

    /// A context for `tree` that follows `DEFAULT_DEPTH` references in a row.
    pub fn new(tree: &'a Tree) -> (r: ScoreContext<'a>)
        ensures
            r.wf(),
            r.tree == tree,
            r.depth == DEFAULT_DEPTH,
            r.diags@.len() == 0,
            r.arena@.len() == 0,
    {
        ScoreContext { tree, arena: TypeArena::new(), diags: Vec::new(), depth: DEFAULT_DEPTH }
    }

    /// A context for `tree` that follows `depth` references in a row.
    pub fn with_depth(tree: &'a Tree, depth: usize) -> (r: ScoreContext<'a>)
        ensures
            r.wf(),
            r.tree == tree,
            r.depth == depth,
            r.diags@.len() == 0,
            r.arena@.len() == 0,
    {
        ScoreContext { tree, arena: TypeArena::new(), diags: Vec::new(), depth }
    }

    /// Reports a diagnostic.
    pub fn emit(&mut self, diag: Diagnostic)
        requires
            old(self).wf(),
        ensures
            final(self).follows(old(self), seq![diag]),
            final(self).arena == old(self).arena,
    {
        self.diags.push(diag);
    }

    /// Hands a type to the arena.
    pub fn intern_ty(&mut self, ty: Type) -> (r: TyRef)
        requires
            old(self).wf(),
        ensures
            final(self).yields(old(self), Ok(r), Ok(ty)),
            r == TypeArena::handle_for(ty, old(self).arena@.len()),
    {
        self.arena.alloc_owned(ty)
    }

    /// The type that a range `lb dir rb` declares: an integer type where
    /// both bounds are integers, null or not.
    pub fn make_range_ty(&mut self, dir: Dir, lb_id: ExprRef, rb_id: ExprRef, span: Span) -> (r:
        Result<TyRef, ()>)
        requires
            old(self).wf(),
        ensures
            final(self).yields(old(self), r, range_ty(old(self).tree, dir, lb_id, rb_id, span)),
    {
        let tree = self.tree;
        let lb = match lookup(&tree.const_values, lb_id.0) {
            Some(c) => c,
            None => { return Err(()); },
        };
        let rb = match lookup(&tree.const_values, rb_id.0) {
            Some(c) => c,
            None => { return Err(()); },
        };
        match (lb, rb) {
            (Const::Int(left), Const::Int(right)) => Ok(
                self.intern_ty(
                    Type::IntegerBasetype(
                        IntRange::new(dir, left.duplicate(), right.duplicate()),
                    ),
                ),
            ),
            (Const::Float(_), Const::Float(_)) => {
                self.emit(Diagnostic::error(DiagKind::FloatRangeUnsupported, Some(span)));
                Err(())
            },
            _ => {
                self.emit(Diagnostic::error(DiagKind::RangeBoundsMismatch, Some(span)));
                Err(())
            },
        }
    }

    /// The range that a range constraint asks for.
    pub fn constraint_range(&mut self, constraint: Constraint, span: Span) -> (r: Result<
        IntRange,
        (),
    >)
        requires
            old(self).wf(),
        ensures
            match constraint_range(old(self).tree, constraint, span) {
                Ok(range) => r == Ok::<IntRange, ()>(range) && final(self).follows(
                    old(self),
                    Seq::empty(),
                ),
                Err(ds) => r is Err && final(self).follows(old(self), ds),
            },
    {
        let tree = self.tree;
        match constraint {
            Constraint::Range(expr) => match lookup(&tree.const_values, expr.0) {
                Some(Const::IntRange(range)) => Ok(range.duplicate()),
                Some(_) => {
                    self.emit(Diagnostic::error(DiagKind::RangeBoundsMismatch, Some(span)));
                    Err(())
                },
                None => Err(()),
            },
            Constraint::Bounds(dir, lb, rb) => {
                let lb = match lookup(&tree.const_values, lb.0) {
                    Some(c) => c,
                    None => { return Err(()); },
                };
                let rb = match lookup(&tree.const_values, rb.0) {
                    Some(c) => c,
                    None => { return Err(()); },
                };
                match (lb, rb) {
                    (Const::Int(left), Const::Int(right)) => Ok(
                        IntRange::new(dir, left.duplicate(), right.duplicate()),
                    ),
                    _ => {
                        self.emit(Diagnostic::error(DiagKind::RangeBoundsMismatch, Some(span)));
                        Err(())
                    },
                }
            },
            _ => Err(()),
        }
    }

    /// Narrows the type `base` by a range constraint.
    pub fn constrain(&mut self, base: TyRef, constraint: Constraint, span: Span) -> (r: Result<
        TyRef,
        (),
    >)
        requires
            old(self).wf(),
            old(self).arena.contains(base),
        ensures
            final(self).yields(
                old(self),
                r,
                constrain(old(self).tree, old(self).arena.resolve(base), constraint, span),
            ),
    {
        let within = match self.arena.get(base).integer_range() {
            Some(within) => within,
            None => {
                let ty = self.arena.get(base).duplicate();
                self.emit(Diagnostic::error(DiagKind::NotConstrainableByRange { ty }, Some(span)));
                return Err(());
            },
        };
        let range = self.constraint_range(constraint, span)?;
        match self.arena.get(base).constrain_by_range(range.duplicate()) {
            Some(ty) => Ok(self.intern_ty(ty)),
            None => {
                self.emit(
                    Diagnostic::error(DiagKind::NotASubrange { range, base: within }, Some(span)),
                );
                Err(())
            },
        }
    }

    /// Reports that a chain of references was given up.
    fn give_up(&mut self)
        requires
            old(self).wf(),
        ensures
            final(self).follows(old(self), seq![crate::rules::cyclic_reference()]),
    {
        self.emit(Diagnostic::bug(DiagKind::CyclicTypeReference, None));
    }

    /// Replaces every leading `Named` of a type by the type of what it names.
    ///
    /// A type that is no `Named` comes back as it is. A chain of names is
    /// followed for at most `fuel` links; a longer one, and so every chain
    /// that leads back to itself, is reported and fails.
    pub fn deref_named_type(&mut self, ty: TyRef, fuel: usize) -> (r: Result<TyRef, ()>)
        requires
            old(self).wf(),
            old(self).arena.contains(ty),
        ensures
            final(self).yields(
                old(self),
                r,
                deref_named(old(self).tree, old(self).arena.resolve(ty), fuel as nat),
            ),
        decreases fuel, 0nat,
    {
        let named = match self.arena.get(ty) {
            Type::Named(tm) => Some(*tm),
            _ => None,
        };
        match named {
            None => Ok(ty),
            Some(tm) => {
                if fuel == 0 {
                    self.give_up();
                    return Err(());
                }
                let inner = self.ty_type_mark(tm, fuel - 1)?;
                self.deref_named_type(inner, fuel - 1)
            },
        }
    }

    /// The type of a type mark.
    pub fn ty_type_mark(&mut self, id: TypeMarkRef, fuel: usize) -> (r: Result<TyRef, ()>)
        requires
            old(self).wf(),
        ensures
            final(self).yields(old(self), r, ty_of_type_mark(old(self).tree, id, fuel as nat)),
        decreases fuel, 2nat,
    {
        match id {
            TypeMarkRef::Type(id) => self.ty_type_decl(id, fuel),
            TypeMarkRef::Subtype(id) => self.ty_subtype_decl(id, fuel),
        }
    }

    /// The type of a subtype indication.
    pub fn ty_subtype_ind(&mut self, id: SubtypeIndRef, fuel: usize) -> (r: Result<TyRef, ()>)
        requires
            old(self).wf(),
        ensures
            final(self).yields(old(self), r, ty_of_subtype_ind(old(self).tree, id, fuel as nat)),
        decreases fuel, 1nat,
    {
        let tree = self.tree;
        let ind = match lookup(&tree.subtype_inds, id.0) {
            Some(ind) => *ind,
            None => { return Err(()); },
        };
        match ind.constraint {
            None => Ok(self.intern_ty(Type::Named(ind.type_mark))),
            Some(Constraint::Array(span)) => {
                self.emit(Diagnostic::error(DiagKind::ArrayConstraintUnsupported, Some(span)));
                Err(())
            },
            Some(Constraint::Record(span)) => {
                self.emit(Diagnostic::error(DiagKind::RecordConstraintUnsupported, Some(span)));
                Err(())
            },
            Some(constraint) => {
                if fuel == 0 {
                    self.give_up();
                    return Err(());
                }
                let marked = self.ty_type_mark(ind.type_mark, fuel - 1)?;
                let base = self.deref_named_type(marked, fuel - 1)?;
                self.constrain(base, constraint, ind.constraint_span)
            },
        }
    }

    /// One index of an array type.
    pub fn ty_array_index(&mut self, id: ArrayTypeIndexRef, fuel: usize) -> (r: Result<
        ArrayIndex,
        (),
    >)
        requires
            old(self).wf(),
        ensures
            match array_index(old(self).tree, id, fuel as nat) {
                Ok(index) => r == Ok::<ArrayIndex, ()>(index) && final(self).follows(
                    old(self),
                    Seq::empty(),
                ),
                Err(ds) => r is Err && final(self).follows(old(self), ds),
            },
        decreases fuel, 1nat,
    {
        let tree = self.tree;
        let index = match lookup(&tree.array_type_indices, id.0) {
            Some(index) => *index,
            None => { return Err(()); },
        };
        match index.data {
            ArrayTypeIndexData::Range(dir, lb, rb) => {
                let ty = self.make_range_ty(dir, lb, rb, index.span)?;
                Ok(ArrayIndex::Constrained(Box::new(self.arena.get(ty).duplicate())))
            },
            ArrayTypeIndexData::Unbounded(tm) => {
                if fuel == 0 {
                    self.give_up();
                    return Err(());
                }
                let ty = self.ty_type_mark(tm, fuel - 1)?;
                Ok(ArrayIndex::Unbounded(Box::new(self.arena.get(ty).duplicate())))
            },
            ArrayTypeIndexData::Subtype(ind) => {
                if fuel == 0 {
                    self.give_up();
                    return Err(());
                }
                let ty = self.ty_subtype_ind(ind, fuel - 1)?;
                Ok(ArrayIndex::Constrained(Box::new(self.arena.get(ty).duplicate())))
            },
        }
    }

    /// The indices of an array type from position `from` on. Every index is
    /// attempted, also after one has failed.
    pub fn ty_array_indices(&mut self, ids: &Vec<ArrayTypeIndexRef>, from: usize, fuel: usize) -> (r:
        Result<IndexList, ()>)
        requires
            old(self).wf(),
            from <= ids@.len(),
        ensures
            match array_indices(old(self).tree, ids@, from as nat, fuel as nat) {
                Ok(list) => r == Ok::<IndexList, ()>(list) && final(self).follows(
                    old(self),
                    Seq::empty(),
                ),
                Err(ds) => r is Err && final(self).follows(old(self), ds),
            },
        decreases fuel, 2 + ids@.len() - from,
    {
        if from >= ids.len() {
            return Ok(IndexList::Nil);
        }
        let head = self.ty_array_index(ids[from], fuel);
        let tail = self.ty_array_indices(ids, from + 1, fuel);
        match (head, tail) {
            (Ok(head), Ok(tail)) => Ok(IndexList::Cons(head, Box::new(tail))),
            _ => Err(()),
        }
    }

    /// The type that a type declaration declares.
    pub fn ty_type_decl(&mut self, id: TypeDeclRef, fuel: usize) -> (r: Result<TyRef, ()>)
        requires
            old(self).wf(),
        ensures
            final(self).yields(old(self), r, ty_of_type_decl(old(self).tree, id, fuel as nat)),
        decreases fuel, 1nat,
    {
        let tree = self.tree;
        let decl = match lookup(&tree.type_decls, id.0) {
            Some(decl) => decl,
            None => { return Err(()); },
        };
        match &decl.data {
            None => {
                self.emit(
                    Diagnostic::error(
                        DiagKind::IncompleteTypeDecl { decl: id },
                        Some(decl.name_span),
                    ),
                );
                Err(())
            },
            Some(TypeData::Range(dir, lb, rb)) => self.make_range_ty(
                *dir,
                *lb,
                *rb,
                decl.data_span,
            ),
            Some(TypeData::Enum) => Ok(self.intern_ty(Type::EnumBasetype(id))),
            Some(TypeData::Access(ind)) => {
                if fuel == 0 {
                    self.give_up();
                    return Err(());
                }
                let inner = self.ty_subtype_ind(*ind, fuel - 1)?;
                let ty = self.arena.get(inner).duplicate();
                Ok(self.intern_ty(Type::Access(Box::new(ty))))
            },
            Some(TypeData::Array(indices, elem)) => {
                if fuel == 0 {
                    self.give_up();
                    return Err(());
                }
                let list = self.ty_array_indices(indices, 0, fuel - 1)?;
                let inner = self.ty_subtype_ind(*elem, fuel - 1)?;
                let ty = self.arena.get(inner).duplicate();
                Ok(self.intern_ty(Type::Array(list, Box::new(ty))))
            },
        }
    }

    /// The type of a subtype declaration.
    pub fn ty_subtype_decl(&mut self, id: SubtypeDeclRef, fuel: usize) -> (r: Result<TyRef, ()>)
        requires
            old(self).wf(),
        ensures
            final(self).yields(old(self), r, ty_of_subtype_decl(old(self).tree, id, fuel as nat)),
        decreases fuel, 1nat,
    {
        let tree = self.tree;
        let subty = match lookup(&tree.subtype_decls, id.0) {
            Some(decl) => decl.subty,
            None => { return Err(()); },
        };
        if fuel == 0 {
            self.give_up();
            return Err(());
        }
        self.ty_subtype_ind(subty, fuel - 1)
    }

    /// The type of a signal declaration.
    pub fn ty_signal_decl(&mut self, id: SignalDeclRef, fuel: usize) -> (r: Result<TyRef, ()>)
        requires
            old(self).wf(),
        ensures
            final(self).yields(old(self), r, ty_of_signal_decl(old(self).tree, id, fuel as nat)),
        decreases fuel, 1nat,
    {
        let tree = self.tree;
        let subty = match lookup(&tree.signal_decls, id.0) {
            Some(decl) => decl.subty,
            None => { return Err(()); },
        };
        if fuel == 0 {
            self.give_up();
            return Err(());
        }
        self.ty_subtype_ind(subty, fuel - 1)
    }

    /// The type of a port or generic signal.
    pub fn ty_intf_signal(&mut self, id: IntfSignalRef, fuel: usize) -> (r: Result<TyRef, ()>)
        requires
            old(self).wf(),
        ensures
            final(self).yields(old(self), r, ty_of_intf_signal(old(self).tree, id, fuel as nat)),
        decreases fuel, 1nat,
    {
        let tree = self.tree;
        let subty = match lookup(&tree.intf_signals, id.0) {
            Some(decl) => decl.ty,
            None => { return Err(()); },
        };
        if fuel == 0 {
            self.give_up();
            return Err(());
        }
        self.ty_subtype_ind(subty, fuel - 1)
    }

    /// The type of a signal.
    pub fn ty_signal(&mut self, id: SignalRef, fuel: usize) -> (r: Result<TyRef, ()>)
        requires
            old(self).wf(),
        ensures
            final(self).yields(old(self), r, ty_of_signal(old(self).tree, id, fuel as nat)),
        decreases fuel, 2nat,
    {
        match id {
            SignalRef::Intf(id) => self.ty_intf_signal(id, fuel),
            SignalRef::Decl(id) => self.ty_signal_decl(id, fuel),
        }
    }

    /// The type of a typed node.
    pub fn ty_typed_node(&mut self, id: TypedNodeRef, fuel: usize) -> (r: Result<TyRef, ()>)
        requires
            old(self).wf(),
        ensures
            final(self).yields(old(self), r, ty_of_typed_node(old(self).tree, id, fuel as nat)),
        decreases fuel, 3nat,
    {
        match id {
            TypedNodeRef::SubtypeInd(id) => self.ty_subtype_ind(id, fuel),
            TypedNodeRef::Signal(id) => self.ty_signal(id, fuel),
        }
    }

    /// The type of an expression.
    pub fn ty_expr(&mut self, id: ExprRef, fuel: usize) -> (r: Result<TyRef, ()>)
        requires
            old(self).wf(),
        ensures
            final(self).yields(old(self), r, ty_of_expr(old(self).tree, id, fuel as nat)),
        decreases fuel, 1nat,
    {
        let tree = self.tree;
        let expr = match lookup(&tree.exprs, id.0) {
            Some(expr) => expr,
            None => { return Err(()); },
        };
        match &expr.data {
            ExprData::IntegerLiteral(Some(ty)) => Ok(self.intern_ty(ty.duplicate())),
            ExprData::IntegerLiteral(None) => {
                match lookup(&tree.type_contexts, id.0) {
                    Some(expected) => {
                        let adopted = self.intern_ty(expected.duplicate());
                        let base = self.deref_named_type(adopted, fuel)?;
                        if self.arena.get(base).integer() {
                            return Ok(adopted);
                        }
                    },
                    None => {},
                }
                self.emit(
                    Diagnostic::error(DiagKind::CannotInferType { expr: id }, Some(expr.span)),
                );
                Err(())
            },
            _ => {
                self.emit(
                    Diagnostic::bug(DiagKind::NotImplemented { what: Unhandled::Expr(id) }, None),
                );
                Err(())
            },
        }
    }

    /// The type of any node that has one, with the context's own depth.
    pub fn ty(&mut self, id: TypedRef) -> (r: Result<TyRef, ()>)
        requires
            old(self).wf(),
        ensures
            final(self).yields(old(self), r, ty_of(old(self).tree, id, old(self).depth as nat)),
    {
        let fuel = self.depth;
        match id {
            TypedRef::TypeMark(id) => self.ty_type_mark(id, fuel),
            TypedRef::TypeDecl(id) => self.ty_type_decl(id, fuel),
            TypedRef::SubtypeDecl(id) => self.ty_subtype_decl(id, fuel),
            TypedRef::SubtypeInd(id) => self.ty_subtype_ind(id, fuel),
            TypedRef::SignalDecl(id) => self.ty_signal_decl(id, fuel),
            TypedRef::IntfSignal(id) => self.ty_intf_signal(id, fuel),
            TypedRef::Signal(id) => self.ty_signal(id, fuel),
            TypedRef::TypedNode(id) => self.ty_typed_node(id, fuel),
            TypedRef::Expr(id) => self.ty_expr(id, fuel),
        }
    }
}

} // verus!
