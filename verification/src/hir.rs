//! The lowered tree: what an earlier stage made of each node, and the tables
//! that answer for the services around the type rules.

use vstd::prelude::*;
use crate::konst::Const;
use crate::node::{
    ArchRef, ArrayTypeIndexRef, ConcStmtRef, DeclInBlockRef, DeclInPkgRef, DeclInProcRef,
    EntityRef, ExprRef, GenericRef, IntfSignalRef, NodeId, PkgDeclRef, SeqStmtRef, SignalRef,
    Span, SubtypeIndRef, TypeMarkRef,
};
use crate::ty::{Dir, Type};

verus! {

pub struct Lib {
    pub pkg_decls: Vec<PkgDeclRef>,
    pub pkg_insts: Vec<NodeId>,
    pub pkg_bodies: Vec<NodeId>,
    pub ctxs: Vec<NodeId>,
    pub entities: Vec<EntityRef>,
    pub archs: Vec<ArchRef>,
    pub cfgs: Vec<NodeId>,
}

pub struct PkgDecl {
    pub generics: Vec<GenericRef>,
    pub decls: Vec<DeclInPkgRef>,
}

pub struct Entity {
    pub generics: Vec<GenericRef>,
    pub ports: Vec<IntfSignalRef>,
}

pub struct Arch {
    pub entity: EntityRef,
    pub decls: Vec<DeclInBlockRef>,
    pub stmts: Vec<ConcStmtRef>,
}

pub struct ProcessStmt {
    pub decls: Vec<DeclInProcRef>,
    pub stmts: Vec<SeqStmtRef>,
}

/// How a new value is delayed on its way to a signal.
#[derive(Clone, Copy, Debug, PartialEq, Eq, Structural)]
pub enum DelayMechanism {
    Transport,
    Inertial,
    RejectInertial(ExprRef),
}

/// One element of a waveform: a value, and the time after which it holds.
#[derive(Clone, Copy, Debug, PartialEq, Eq, Structural)]
pub struct WaveElem {
    pub value: Option<ExprRef>,
    pub after: Option<ExprRef>,
}

pub enum SigAssignTarget {
    Name(SignalRef),
    Aggregate,
}

pub enum SigAssignKind {
    SimpleWave(DelayMechanism, Vec<WaveElem>),
    SimpleForce(ExprRef),
    SimpleRelease,
    CondWave(DelayMechanism),
    CondForce,
    SelWave(DelayMechanism),
    SelForce,
}

pub struct SigAssignStmt {
    pub target: SigAssignTarget,
    pub target_span: Span,
    pub kind: SigAssignKind,
}

/// What narrows the type mark of a subtype indication.
#[derive(Clone, Copy, Debug, PartialEq, Eq, Structural)]
pub enum Constraint {
    /// A range given by one expression that evaluates to a range.
    Range(ExprRef),
    /// A range given by a direction and two bounds.
    Bounds(Dir, ExprRef, ExprRef),
    Array(Span),
    Record(Span),
}

#[derive(Clone, Copy, Debug, PartialEq, Eq, Structural)]
pub struct SubtypeInd {
    pub span: Span,
    pub type_mark: TypeMarkRef,
    pub constraint: Option<Constraint>,
    /// Where the constraint was written, if there is one.
    pub constraint_span: Span,
}

pub enum TypeData {
    Range(Dir, ExprRef, ExprRef),
    Enum,
    Access(SubtypeIndRef),
    Array(Vec<ArrayTypeIndexRef>, SubtypeIndRef),
}

pub struct TypeDecl {
    pub name_span: Span,
    /// The definition. A declaration without one is incomplete.
    pub data: Option<TypeData>,
    /// Where the definition was written, if there is one.
    pub data_span: Span,
}

#[derive(Clone, Copy, Debug, PartialEq, Eq, Structural)]
pub enum ArrayTypeIndexData {
    Unbounded(TypeMarkRef),
    Subtype(SubtypeIndRef),
    Range(Dir, ExprRef, ExprRef),
}

#[derive(Clone, Copy, Debug, PartialEq, Eq, Structural)]
pub struct ArrayTypeIndex {
    pub span: Span,
    pub data: ArrayTypeIndexData,
}

#[derive(Clone, Copy, Debug, PartialEq, Eq, Structural)]
pub struct SubtypeDecl {
    pub subty: SubtypeIndRef,
}

#[derive(Clone, Copy, Debug, PartialEq, Eq, Structural)]
pub struct SignalDecl {
    pub subty: SubtypeIndRef,
}

#[derive(Clone, Copy, Debug, PartialEq, Eq, Structural)]
pub struct IntfSignal {
    pub ty: SubtypeIndRef,
}

pub enum ExprData {
    /// An integer literal, with the type it was given, if any.
    IntegerLiteral(Option<Type>),
    FloatLiteral,
    Other,
}

pub struct Expr {
    pub span: Span,
    pub data: ExprData,
}

/// The lowered tree of one session. A node is the entry of its kind's table
/// at the node's key; a key beyond the table, or an empty entry, is a node
/// that was never lowered.
pub struct Tree {
    pub libs: Vec<Option<Lib>>,
    pub pkg_decls: Vec<Option<PkgDecl>>,
    pub entities: Vec<Option<Entity>>,
    pub archs: Vec<Option<Arch>>,
    pub process_stmts: Vec<Option<ProcessStmt>>,
    pub sig_assign_stmts: Vec<Option<SigAssignStmt>>,
    pub type_decls: Vec<Option<TypeDecl>>,
    pub subtype_decls: Vec<Option<SubtypeDecl>>,
    pub subtype_inds: Vec<Option<SubtypeInd>>,
    pub signal_decls: Vec<Option<SignalDecl>>,
    pub intf_signals: Vec<Option<IntfSignal>>,
    pub array_type_indices: Vec<Option<ArrayTypeIndex>>,
    pub exprs: Vec<Option<Expr>>,
    /// The value of each constant expression that could be evaluated.
    pub const_values: Vec<Option<Const>>,
    /// The type that the place of an expression asks for, where one can tell.
    pub type_contexts: Vec<Option<Type>>,
}

/// The entry of a table at a key.
pub open spec fn entry<T>(table: Seq<Option<T>>, key: usize) -> Option<T> {
    if key < table.len() {
        table[key as int]
    } else {
        None
    }
}

/// Looks a key up in a table.
pub fn lookup<T>(table: &Vec<Option<T>>, key: usize) -> (r: Option<&T>)
    ensures
        r is Some <==> entry(table@, key) is Some,
        r is Some ==> *r->0 == entry(table@, key)->0,
{
    if key < table.len() {
        table[key].as_ref()
    } else {
        None
    }
}

/// Puts a node into a table, behind all others, and returns its key.
pub fn insert<T>(table: &mut Vec<Option<T>>, value: T) -> (key: usize)
    ensures
        key == old(table)@.len(),
        final(table)@ == old(table)@.push(Some(value)),
        entry(final(table)@, key) == Some(value),
{
    let key: usize = table.len();
    table.push(Some(value));
    key
}

/// Leaves the next key of a table without a node.
pub fn skip<T>(table: &mut Vec<Option<T>>) -> (key: usize)
    ensures
        key == old(table)@.len(),
        final(table)@ == old(table)@.push(None),
        entry(final(table)@, key) is None,
{
    let key: usize = table.len();
    table.push(None);
    key
}

impl Tree {
    /// A tree without a node.
    pub fn new() -> (t: Tree)
        ensures
            t.libs@.len() == 0,
            t.pkg_decls@.len() == 0,
            t.entities@.len() == 0,
            t.archs@.len() == 0,
            t.process_stmts@.len() == 0,
            t.sig_assign_stmts@.len() == 0,
            t.type_decls@.len() == 0,
            t.subtype_decls@.len() == 0,
            t.subtype_inds@.len() == 0,
            t.signal_decls@.len() == 0,
            t.intf_signals@.len() == 0,
            t.array_type_indices@.len() == 0,
            t.exprs@.len() == 0,
            t.const_values@.len() == 0,
            t.type_contexts@.len() == 0,
    {
        Tree {
            libs: Vec::new(),
            pkg_decls: Vec::new(),
            entities: Vec::new(),
            archs: Vec::new(),
            process_stmts: Vec::new(),
            sig_assign_stmts: Vec::new(),
            type_decls: Vec::new(),
            subtype_decls: Vec::new(),
            subtype_inds: Vec::new(),
            signal_decls: Vec::new(),
            intf_signals: Vec::new(),
            array_type_indices: Vec::new(),
            exprs: Vec::new(),
            const_values: Vec::new(),
            type_contexts: Vec::new(),
        }
    }
}

} // verus!
