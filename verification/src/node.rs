//! Node identifiers: opaque, copyable keys into the lowered tree.

use vstd::prelude::*;

verus! {

/// A region of source text, as a pair of byte offsets.
#[derive(Clone, Copy, Debug, PartialEq, Eq, Structural)]
pub struct Span {
    pub begin: usize,
    pub end: usize,
}

/// The key of a node whose kind has no lowered form of its own here.
#[derive(Clone, Copy, Debug, PartialEq, Eq, Structural)]
pub struct NodeId(pub usize);

#[derive(Clone, Copy, Debug, PartialEq, Eq, Structural)]
pub struct LibRef(pub usize);

#[derive(Clone, Copy, Debug, PartialEq, Eq, Structural)]
pub struct PkgDeclRef(pub usize);

#[derive(Clone, Copy, Debug, PartialEq, Eq, Structural)]
pub struct EntityRef(pub usize);

#[derive(Clone, Copy, Debug, PartialEq, Eq, Structural)]
pub struct ArchRef(pub usize);

#[derive(Clone, Copy, Debug, PartialEq, Eq, Structural)]
pub struct ProcessStmtRef(pub usize);

#[derive(Clone, Copy, Debug, PartialEq, Eq, Structural)]
pub struct SigAssignStmtRef(pub usize);

#[derive(Clone, Copy, Debug, PartialEq, Eq, Structural)]
pub struct TypeDeclRef(pub usize);

#[derive(Clone, Copy, Debug, PartialEq, Eq, Structural)]
pub struct SubtypeDeclRef(pub usize);

#[derive(Clone, Copy, Debug, PartialEq, Eq, Structural)]
pub struct SubtypeIndRef(pub usize);

#[derive(Clone, Copy, Debug, PartialEq, Eq, Structural)]
pub struct SignalDeclRef(pub usize);

#[derive(Clone, Copy, Debug, PartialEq, Eq, Structural)]
pub struct IntfSignalRef(pub usize);

#[derive(Clone, Copy, Debug, PartialEq, Eq, Structural)]
pub struct ExprRef(pub usize);

#[derive(Clone, Copy, Debug, PartialEq, Eq, Structural)]
pub struct ArrayTypeIndexRef(pub usize);

/// What a type mark names: a type declaration or a subtype declaration.
#[derive(Clone, Copy, Debug, PartialEq, Eq, Structural)]
pub enum TypeMarkRef {
    Type(TypeDeclRef),
    Subtype(SubtypeDeclRef),
}

/// A signal: a port of an entity or a declared signal.
#[derive(Clone, Copy, Debug, PartialEq, Eq, Structural)]
pub enum SignalRef {
    Intf(IntfSignalRef),
    Decl(SignalDeclRef),
}

/// Any node that has a type and can stand where a typed thing is named.
#[derive(Clone, Copy, Debug, PartialEq, Eq, Structural)]
pub enum TypedNodeRef {
    SubtypeInd(SubtypeIndRef),
    Signal(SignalRef),
}

/// Any node whose type can be computed, by its kind.
#[derive(Clone, Copy, Debug, PartialEq, Eq, Structural)]
pub enum TypedRef {
    TypeMark(TypeMarkRef),
    TypeDecl(TypeDeclRef),
    SubtypeDecl(SubtypeDeclRef),
    SubtypeInd(SubtypeIndRef),
    SignalDecl(SignalDeclRef),
    IntfSignal(IntfSignalRef),
    Signal(SignalRef),
    TypedNode(TypedNodeRef),
    Expr(ExprRef),
}

/// A generic of a package or an entity.
#[derive(Clone, Copy, Debug, PartialEq, Eq, Structural)]
pub enum GenericRef {
    Type(NodeId),
    Subprog(NodeId),
    Pkg(NodeId),
    Const(NodeId),
}

/// A declaration that may stand in a package.
#[derive(Clone, Copy, Debug, PartialEq, Eq, Structural)]
pub enum DeclInPkgRef {
    Pkg(PkgDeclRef),
    PkgInst(NodeId),
    Type(TypeDeclRef),
    Subtype(SubtypeDeclRef),
}

/// A declaration that may stand in a block or an architecture.
#[derive(Clone, Copy, Debug, PartialEq, Eq, Structural)]
pub enum DeclInBlockRef {
    Pkg(PkgDeclRef),
    PkgInst(NodeId),
    Type(TypeDeclRef),
    Subtype(SubtypeDeclRef),
    Const(NodeId),
    Signal(SignalDeclRef),
    SharedVar(NodeId),
    File(NodeId),
}

/// A declaration that may stand in a process.
#[derive(Clone, Copy, Debug, PartialEq, Eq, Structural)]
pub enum DeclInProcRef {
    Pkg(PkgDeclRef),
    PkgBody(NodeId),
    PkgInst(NodeId),
    Type(TypeDeclRef),
    Subtype(SubtypeDeclRef),
    Const(NodeId),
    Var(NodeId),
    File(NodeId),
}

/// A concurrent statement.
#[derive(Clone, Copy, Debug, PartialEq, Eq, Structural)]
pub enum ConcStmtRef {
    Block(NodeId),
    Process(ProcessStmtRef),
    ConcProcCall(NodeId),
    ConcAssert(NodeId),
    ConcSigAssign(NodeId),
    CompInst(NodeId),
    ForGen(NodeId),
    IfGen(NodeId),
    CaseGen(NodeId),
}

/// A sequential statement.
#[derive(Clone, Copy, Debug, PartialEq, Eq, Structural)]
pub enum SeqStmtRef {
    Wait(NodeId),
    Assert(NodeId),
    Report(NodeId),
    SigAssign(SigAssignStmtRef),
    VarAssign(NodeId),
    ProcCall(NodeId),
    If(NodeId),
    Case(NodeId),
    Loop(NodeId),
    Next(NodeId),
    Exit(NodeId),
    Return(NodeId),
    Null(NodeId),
}

/// Any node that can be checked, by its kind.
#[derive(Clone, Copy, Debug, PartialEq, Eq, Structural)]
pub enum NodeRef {
    Lib(LibRef),
    PkgDecl(PkgDeclRef),
    Entity(EntityRef),
    Arch(ArchRef),
    Generic(GenericRef),
    DeclInPkg(DeclInPkgRef),
    DeclInBlock(DeclInBlockRef),
    DeclInProc(DeclInProcRef),
    ConcStmt(ConcStmtRef),
    SeqStmt(SeqStmtRef),
    ProcessStmt(ProcessStmtRef),
    SigAssignStmt(SigAssignStmtRef),
    /// A node that is checked by computing its type.
    Typed(TypedRef),
    /// A node of a kind that has no lowered form here.
    Other(NodeId),
}

} // verus!
