use vhdl_typeck::arena::{TyRef, TypeArena};
use vhdl_typeck::diag::{DiagKind, Diagnostic, Severity, Unhandled};
use vhdl_typeck::hir::{
    insert, lookup, skip, Arch, ArrayTypeIndex, ArrayTypeIndexData, Constraint, DelayMechanism, Entity, Expr, ExprData,
    IntfSignal, Lib, PkgDecl, ProcessStmt, SigAssignKind, SigAssignStmt, SigAssignTarget,
    SignalDecl, SubtypeDecl, SubtypeInd, Tree, TypeData, TypeDecl, WaveElem,
};
use vhdl_typeck::integer::{Digits, Integer, Relation};
use vhdl_typeck::konst::Const;
use vhdl_typeck::node::{
    ArchRef, ArrayTypeIndexRef, ConcStmtRef, DeclInBlockRef, DeclInPkgRef, DeclInProcRef,
    EntityRef, ExprRef, GenericRef, IntfSignalRef, LibRef, NodeId, NodeRef, PkgDeclRef,
    ProcessStmtRef, SeqStmtRef, SigAssignStmtRef, SignalDeclRef, SignalRef, Span, SubtypeDeclRef,
    SubtypeIndRef, TypeDeclRef, TypeMarkRef, TypedNodeRef, TypedRef,
};
use vhdl_typeck::score::{ScoreContext, DEFAULT_DEPTH};
use vhdl_typeck::ty::{ArrayIndex, Dir, IndexList, IntRange, IntegerSubtype, Type};
use vhdl_typeck::typeck::{to_nodes, Typeck, TypeckContext, TypeckNode};

fn sp(n: usize) -> Span {
    Span { begin: n, end: n + 1 }
}

fn put<T>(table: &mut Vec<Option<T>>, value: T) -> usize {
    table.push(Some(value));
    table.len() - 1
}

fn int_const(tree: &mut Tree, value: i64) -> ExprRef {
    tree.exprs.push(None);
    tree.type_contexts.push(None);
    ExprRef(put(&mut tree.const_values, Const::Int(num(value))))
}

fn float_const(tree: &mut Tree, bits: u64) -> ExprRef {
    tree.exprs.push(None);
    tree.type_contexts.push(None);
    ExprRef(put(&mut tree.const_values, Const::Float(bits)))
}

fn range_const(tree: &mut Tree, dir: Dir, left: i64, right: i64) -> ExprRef {
    tree.exprs.push(None);
    tree.type_contexts.push(None);
    ExprRef(put(
        &mut tree.const_values,
        Const::IntRange(IntRange { dir, left: num(left), right: num(right) }),
    ))
}

fn literal(tree: &mut Tree, ty: Option<Type>, context: Option<Type>) -> ExprRef {
    tree.const_values.push(None);
    tree.type_contexts.push(context);
    ExprRef(put(&mut tree.exprs, Expr { span: sp(900), data: ExprData::IntegerLiteral(ty) }))
}

fn range_type(tree: &mut Tree, dir: Dir, left: i64, right: i64) -> TypeDeclRef {
    let lb = int_const(tree, left);
    let rb = int_const(tree, right);
    TypeDeclRef(put(
        &mut tree.type_decls,
        TypeDecl { name_span: sp(1), data: Some(TypeData::Range(dir, lb, rb)), data_span: sp(2) },
    ))
}

fn type_decl(tree: &mut Tree, data: Option<TypeData>) -> TypeDeclRef {
    TypeDeclRef(put(&mut tree.type_decls, TypeDecl { name_span: sp(1), data, data_span: sp(2) }))
}

fn indication(tree: &mut Tree, type_mark: TypeMarkRef, constraint: Option<Constraint>) -> SubtypeIndRef {
    SubtypeIndRef(put(
        &mut tree.subtype_inds,
        SubtypeInd { span: sp(10), type_mark, constraint, constraint_span: sp(11) },
    ))
}

fn bounded(tree: &mut Tree, type_mark: TypeMarkRef, dir: Dir, left: i64, right: i64) -> SubtypeIndRef {
    let lb = int_const(tree, left);
    let rb = int_const(tree, right);
    indication(tree, type_mark, Some(Constraint::Bounds(dir, lb, rb)))
}

fn subtype_decl(tree: &mut Tree, subty: SubtypeIndRef) -> SubtypeDeclRef {
    SubtypeDeclRef(put(&mut tree.subtype_decls, SubtypeDecl { subty }))
}

fn num(value: i64) -> Integer {
    Integer::from_i64(value)
}

fn to(left: i64, right: i64) -> IntRange {
    IntRange { dir: Dir::To, left: num(left), right: num(right) }
}

fn downto(left: i64, right: i64) -> IntRange {
    IntRange { dir: Dir::Downto, left: num(left), right: num(right) }
}

fn byte() -> Type {
    Type::IntegerBasetype(to(0, 255))
}

fn resolved<'t>(cx: &'t ScoreContext, r: Result<TyRef, ()>) -> &'t Type {
    cx.arena.get(r.expect("a type"))
}

fn only_diag<'t>(cx: &'t ScoreContext) -> &'t Diagnostic {
    assert_eq!(cx.diags.len(), 1);
    &cx.diags[0]
}

#[test]
fn range_subtype_of_byte_succeeds() {
    let mut tree = Tree::new();
    let t = range_type(&mut tree, Dir::To, 0, 255);
    let ind = bounded(&mut tree, TypeMarkRef::Type(t), Dir::To, 10, 20);
    let mut cx = ScoreContext::new(&tree);
    let r = cx.ty(TypedRef::SubtypeInd(ind));
    let expected = Type::IntegerSubtype(IntegerSubtype { base: to(0, 255), range: to(10, 20) });
    assert!(resolved(&cx, r).equals(&expected));
    assert!(cx.diags.is_empty());
}

#[test]
fn range_subtype_below_byte_is_no_subrange() {
    let mut tree = Tree::new();
    let t = range_type(&mut tree, Dir::To, 0, 255);
    let ind = bounded(&mut tree, TypeMarkRef::Type(t), Dir::To, -5, 20);
    let mut cx = ScoreContext::new(&tree);
    assert_eq!(cx.ty(TypedRef::SubtypeInd(ind)), Err(()));
    let d = only_diag(&cx);
    assert_eq!(d.severity, Severity::Error);
    assert_eq!(d.span, Some(sp(11)));
    match &d.kind {
        DiagKind::NotASubrange { range, base } => {
            assert!(range.equals(&to(-5, 20)));
            assert!(base.equals(&to(0, 255)));
        },
        other => panic!("unexpected diagnostic {:?}", other),
    }
}

#[test]
fn unconstrained_indication_stays_named() {
    let mut tree = Tree::new();
    let t = range_type(&mut tree, Dir::To, 0, 255);
    let ind = indication(&mut tree, TypeMarkRef::Type(t), None);
    let mut cx = ScoreContext::new(&tree);
    let r = cx.ty(TypedRef::SubtypeInd(ind));
    assert!(resolved(&cx, r).equals(&Type::Named(TypeMarkRef::Type(t))));
    assert!(cx.diags.is_empty());
}

#[test]
fn equal_subtypes_are_equal_though_allocated_apart() {
    let mut tree = Tree::new();
    let t = range_type(&mut tree, Dir::To, 0, 255);
    let a = bounded(&mut tree, TypeMarkRef::Type(t), Dir::To, 3, 9);
    let b = bounded(&mut tree, TypeMarkRef::Type(t), Dir::To, 3, 9);
    let c = bounded(&mut tree, TypeMarkRef::Type(t), Dir::To, 3, 10);
    let mut cx = ScoreContext::new(&tree);
    let ra = cx.ty_subtype_ind(a, 16).unwrap();
    let rb = cx.ty_subtype_ind(b, 16).unwrap();
    let rc = cx.ty_subtype_ind(c, 16).unwrap();
    assert_ne!(ra, rb);
    assert!(cx.arena.get(ra).equals(cx.arena.get(rb)));
    assert!(!cx.arena.get(ra).equals(cx.arena.get(rc)));
}

#[test]
fn constraint_bounds_at_the_ends_of_the_base() {
    let base = byte();
    assert!(base.constrain_by_range(to(0, 255)).is_some());
    assert!(base.constrain_by_range(to(0, 0)).is_some());
    assert!(base.constrain_by_range(to(255, 255)).is_some());
    assert!(base.constrain_by_range(to(-1, 255)).is_none());
    assert!(base.constrain_by_range(to(0, 256)).is_none());
    assert!(base.constrain_by_range(downto(20, 10)).is_none());
    assert!(base.constrain_by_range(to(10, 20)).unwrap().equals(&Type::IntegerSubtype(
        IntegerSubtype { base: to(0, 255), range: to(10, 20) }
    )));
}

#[test]
fn constraint_on_a_descending_base() {
    let base = Type::IntegerBasetype(downto(7, 0));
    assert!(base.constrain_by_range(downto(3, 0)).is_some());
    assert!(base.constrain_by_range(downto(7, 4)).is_some());
    assert!(base.constrain_by_range(downto(8, 0)).is_none());
    assert!(base.constrain_by_range(downto(3, -1)).is_none());
    assert!(base.constrain_by_range(to(0, 3)).is_none());
}

#[test]
fn subtype_of_subtype_keeps_the_base() {
    let sub = Type::IntegerSubtype(IntegerSubtype { base: to(0, 255), range: to(10, 20) });
    let narrowed = sub.constrain_by_range(to(12, 15)).unwrap();
    assert!(narrowed.equals(&Type::IntegerSubtype(
        IntegerSubtype { base: to(0, 255), range: to(12, 15) }
    )));
    assert!(sub.constrain_by_range(to(5, 15)).is_none());
    assert!(Type::Null.constrain_by_range(to(0, 1)).is_none());
}

#[test]
fn null_range_is_a_valid_subtype() {
    let base = byte();
    let empty = base.constrain_by_range(to(20, 10)).unwrap();
    assert!(empty.null_range());
    assert!(!base.null_range());
    assert!(to(1, 0).null());
    assert!(!to(0, 0).null());
    assert!(downto(0, 1).null());
    assert!(!downto(1, 0).null());
    assert!(downto(9, 2).lower_bound().equals(&num(2)));
    assert!(downto(9, 2).upper_bound().equals(&num(9)));
    assert!(to(2, 9).lower_bound().equals(&num(2)));
    assert!(to(2, 9).upper_bound().equals(&num(9)));
}

#[test]
fn null_range_type_declaration() {
    let mut tree = Tree::new();
    let t = range_type(&mut tree, Dir::To, 5, 1);
    let mut cx = ScoreContext::new(&tree);
    let r = cx.ty(TypedRef::TypeDecl(t));
    let ty = resolved(&cx, r);
    assert!(ty.equals(&Type::IntegerBasetype(to(5, 1))));
    assert!(ty.null_range());
}

#[test]
fn literal_range_constraint() {
    let mut tree = Tree::new();
    let t = range_type(&mut tree, Dir::To, 0, 255);
    let good = range_const(&mut tree, Dir::To, 1, 2);
    let bad = range_const(&mut tree, Dir::Downto, 2, 1);
    let wrong = int_const(&mut tree, 4);
    let a = indication(&mut tree, TypeMarkRef::Type(t), Some(Constraint::Range(good)));
    let b = indication(&mut tree, TypeMarkRef::Type(t), Some(Constraint::Range(bad)));
    let c = indication(&mut tree, TypeMarkRef::Type(t), Some(Constraint::Range(wrong)));
    let mut cx = ScoreContext::new(&tree);
    let r = cx.ty(TypedRef::SubtypeInd(a));
    assert!(resolved(&cx, r).equals(&Type::IntegerSubtype(
        IntegerSubtype { base: to(0, 255), range: to(1, 2) }
    )));
    assert_eq!(cx.ty(TypedRef::SubtypeInd(b)), Err(()));
    assert!(matches!(cx.diags[0].kind, DiagKind::NotASubrange { .. }));
    assert_eq!(cx.ty(TypedRef::SubtypeInd(c)), Err(()));
    assert!(matches!(cx.diags[1].kind, DiagKind::RangeBoundsMismatch));
    assert_eq!(cx.diags.len(), 2);
}

#[test]
fn range_constraint_with_mixed_bounds() {
    let mut tree = Tree::new();
    let t = range_type(&mut tree, Dir::To, 0, 255);
    let lb = int_const(&mut tree, 1);
    let rb = float_const(&mut tree, 0x4000_0000_0000_0000);
    let ind = indication(&mut tree, TypeMarkRef::Type(t), Some(Constraint::Bounds(Dir::To, lb, rb)));
    let mut cx = ScoreContext::new(&tree);
    assert_eq!(cx.ty(TypedRef::SubtypeInd(ind)), Err(()));
    assert!(matches!(only_diag(&cx).kind, DiagKind::RangeBoundsMismatch));
}

#[test]
fn range_constraint_on_an_enumeration() {
    let mut tree = Tree::new();
    let t = type_decl(&mut tree, Some(TypeData::Enum));
    let ind = bounded(&mut tree, TypeMarkRef::Type(t), Dir::To, 0, 1);
    let mut cx = ScoreContext::new(&tree);
    assert_eq!(cx.ty(TypedRef::SubtypeInd(ind)), Err(()));
    match &only_diag(&cx).kind {
        DiagKind::NotConstrainableByRange { ty } => assert!(ty.equals(&Type::EnumBasetype(t))),
        other => panic!("unexpected diagnostic {:?}", other),
    }
}

#[test]
fn array_and_record_constraints_are_refused() {
    let mut tree = Tree::new();
    let t = range_type(&mut tree, Dir::To, 0, 255);
    let a = indication(&mut tree, TypeMarkRef::Type(t), Some(Constraint::Array(sp(40))));
    let r = indication(&mut tree, TypeMarkRef::Type(t), Some(Constraint::Record(sp(41))));
    let mut cx = ScoreContext::new(&tree);
    assert_eq!(cx.ty(TypedRef::SubtypeInd(a)), Err(()));
    assert_eq!(cx.ty(TypedRef::SubtypeInd(r)), Err(()));
    assert_eq!(cx.diags.len(), 2);
    assert!(matches!(cx.diags[0].kind, DiagKind::ArrayConstraintUnsupported));
    assert_eq!(cx.diags[0].span, Some(sp(40)));
    assert!(matches!(cx.diags[1].kind, DiagKind::RecordConstraintUnsupported));
    assert_eq!(cx.diags[1].span, Some(sp(41)));
}

#[test]
fn range_type_builder() {
    let mut tree = Tree::new();
    let one = int_const(&mut tree, 1);
    let nine = int_const(&mut tree, 9);
    let f = float_const(&mut tree, 1);
    let g = float_const(&mut tree, 2);
    let missing = ExprRef(1000);
    let mut cx = ScoreContext::new(&tree);
    let r = cx.make_range_ty(Dir::Downto, nine, one, sp(5));
    assert!(resolved(&cx, r).equals(&Type::IntegerBasetype(downto(9, 1))));
    assert!(cx.diags.is_empty());
    assert_eq!(cx.make_range_ty(Dir::To, f, g, sp(6)), Err(()));
    assert!(matches!(cx.diags[0].kind, DiagKind::FloatRangeUnsupported));
    assert_eq!(cx.diags[0].span, Some(sp(6)));
    assert_eq!(cx.make_range_ty(Dir::To, one, g, sp(7)), Err(()));
    assert!(matches!(cx.diags[1].kind, DiagKind::RangeBoundsMismatch));
    assert_eq!(cx.make_range_ty(Dir::To, f, one, sp(8)), Err(()));
    assert!(matches!(cx.diags[2].kind, DiagKind::RangeBoundsMismatch));
    assert_eq!(cx.make_range_ty(Dir::To, one, missing, sp(9)), Err(()));
    assert_eq!(cx.diags.len(), 3);
}

#[test]
fn type_declarations() {
    let mut tree = Tree::new();
    let byte_decl = range_type(&mut tree, Dir::To, 0, 255);
    let e1 = type_decl(&mut tree, Some(TypeData::Enum));
    let e2 = type_decl(&mut tree, Some(TypeData::Enum));
    let incomplete = type_decl(&mut tree, None);
    let ind = bounded(&mut tree, TypeMarkRef::Type(byte_decl), Dir::To, 1, 2);
    let access = type_decl(&mut tree, Some(TypeData::Access(ind)));
    let mut cx = ScoreContext::new(&tree);
    let r1 = cx.ty(TypedRef::TypeDecl(e1)).unwrap();
    let r2 = cx.ty(TypedRef::TypeDecl(e2)).unwrap();
    assert!(cx.arena.get(r1).equals(&Type::EnumBasetype(e1)));
    assert!(!cx.arena.get(r1).equals(cx.arena.get(r2)));
    let ra = cx.ty(TypedRef::TypeDecl(access));
    assert!(resolved(&cx, ra).equals(&Type::Access(Box::new(Type::IntegerSubtype(
        IntegerSubtype { base: to(0, 255), range: to(1, 2) }
    )))));
    assert!(cx.diags.is_empty());
    assert_eq!(cx.ty(TypedRef::TypeDecl(incomplete)), Err(()));
    match &only_diag(&cx).kind {
        DiagKind::IncompleteTypeDecl { decl } => assert_eq!(*decl, incomplete),
        other => panic!("unexpected diagnostic {:?}", other),
    }
    assert_eq!(cx.ty(TypedRef::TypeDecl(TypeDeclRef(77))), Err(()));
    assert_eq!(cx.diags.len(), 1);
}

fn array_index(tree: &mut Tree, data: ArrayTypeIndexData) -> ArrayTypeIndexRef {
    ArrayTypeIndexRef(put(&mut tree.array_type_indices, ArrayTypeIndex { span: sp(60), data }))
}

#[test]
fn array_type_declaration() {
    let mut tree = Tree::new();
    let byte_decl = range_type(&mut tree, Dir::To, 0, 255);
    let elem = indication(&mut tree, TypeMarkRef::Type(byte_decl), None);
    let sub = bounded(&mut tree, TypeMarkRef::Type(byte_decl), Dir::To, 0, 7);
    let lb = int_const(&mut tree, 3);
    let rb = int_const(&mut tree, 0);
    let i0 = array_index(&mut tree, ArrayTypeIndexData::Unbounded(TypeMarkRef::Type(byte_decl)));
    let i1 = array_index(&mut tree, ArrayTypeIndexData::Subtype(sub));
    let i2 = array_index(&mut tree, ArrayTypeIndexData::Range(Dir::Downto, lb, rb));
    let arr = type_decl(&mut tree, Some(TypeData::Array(vec![i0, i1, i2], elem)));
    let mut cx = ScoreContext::new(&tree);
    let r = cx.ty(TypedRef::TypeDecl(arr));
    let expected = Type::Array(
        IndexList::Cons(
            ArrayIndex::Unbounded(Box::new(byte())),
            Box::new(IndexList::Cons(
                ArrayIndex::Constrained(Box::new(Type::IntegerSubtype(IntegerSubtype {
                    base: to(0, 255),
                    range: to(0, 7),
                }))),
                Box::new(IndexList::Cons(
                    ArrayIndex::Constrained(Box::new(Type::IntegerBasetype(downto(3, 0)))),
                    Box::new(IndexList::Nil),
                )),
            )),
        ),
        Box::new(Type::Named(TypeMarkRef::Type(byte_decl))),
    );
    assert!(resolved(&cx, r).equals(&expected));
    assert!(cx.diags.is_empty());
}

#[test]
fn array_indices_are_all_attempted() {
    let mut tree = Tree::new();
    let byte_decl = range_type(&mut tree, Dir::To, 0, 255);
    let elem = indication(&mut tree, TypeMarkRef::Type(byte_decl), None);
    let bad0 = bounded(&mut tree, TypeMarkRef::Type(byte_decl), Dir::To, -1, 7);
    let good = bounded(&mut tree, TypeMarkRef::Type(byte_decl), Dir::To, 0, 7);
    let f = float_const(&mut tree, 1);
    let g = float_const(&mut tree, 2);
    let i0 = array_index(&mut tree, ArrayTypeIndexData::Subtype(bad0));
    let i1 = array_index(&mut tree, ArrayTypeIndexData::Subtype(good));
    let i2 = array_index(&mut tree, ArrayTypeIndexData::Range(Dir::To, f, g));
    let arr = type_decl(&mut tree, Some(TypeData::Array(vec![i0, i1, i2], elem)));
    let mut cx = ScoreContext::new(&tree);
    assert_eq!(cx.ty(TypedRef::TypeDecl(arr)), Err(()));
    assert_eq!(cx.diags.len(), 2);
    assert!(matches!(cx.diags[0].kind, DiagKind::NotASubrange { .. }));
    assert!(matches!(cx.diags[1].kind, DiagKind::FloatRangeUnsupported));
}

#[test]
fn named_chain_dereferences_to_its_end() {
    let mut tree = Tree::new();
    let t = range_type(&mut tree, Dir::To, 0, 255);
    let mut mark = TypeMarkRef::Type(t);
    for _ in 0..25 {
        let ind = indication(&mut tree, mark, None);
        mark = TypeMarkRef::Subtype(subtype_decl(&mut tree, ind));
    }
    let mut cx = ScoreContext::new(&tree);
    let head = cx.intern_ty(Type::Named(mark));
    let r = cx.deref_named_type(head, DEFAULT_DEPTH);
    assert!(resolved(&cx, r).equals(&byte()));
    assert!(cx.diags.is_empty());
    let plain = cx.intern_ty(byte());
    assert_eq!(cx.deref_named_type(plain, 0), Ok(plain));
    assert_eq!(cx.deref_named_type(TyRef::Null, 0), Ok(TyRef::Null));
}

#[test]
fn cyclic_named_chain_fails_and_ends() {
    let mut tree = Tree::new();
    let decl = SubtypeDeclRef(0);
    let ind = indication(&mut tree, TypeMarkRef::Subtype(decl), None);
    assert_eq!(subtype_decl(&mut tree, ind), decl);
    let mut cx = ScoreContext::new(&tree);
    let head = cx.intern_ty(Type::Named(TypeMarkRef::Subtype(decl)));
    assert_eq!(cx.deref_named_type(head, DEFAULT_DEPTH), Err(()));
    let d = only_diag(&cx);
    assert_eq!(d.severity, Severity::Bug);
    assert!(matches!(d.kind, DiagKind::CyclicTypeReference));
}

#[test]
fn chain_longer_than_the_depth_is_given_up() {
    let mut tree = Tree::new();
    let t = range_type(&mut tree, Dir::To, 0, 255);
    let ind = indication(&mut tree, TypeMarkRef::Type(t), None);
    let s = subtype_decl(&mut tree, ind);
    let mut cx = ScoreContext::with_depth(&tree, 2);
    assert_eq!(cx.depth, 2);
    let head = cx.intern_ty(Type::Named(TypeMarkRef::Subtype(s)));
    assert_eq!(cx.deref_named_type(head, 0), Err(()));
    assert_eq!(cx.deref_named_type(head, 1), Err(()));
    assert_eq!(cx.diags.len(), 2);
    let r = cx.deref_named_type(head, 2);
    assert!(resolved(&cx, r).equals(&byte()));
    assert_eq!(cx.diags.len(), 2);
}

#[test]
fn literal_with_a_type_ignores_its_context() {
    let mut tree = Tree::new();
    let e = type_decl(&mut tree, Some(TypeData::Enum));
    let lit = literal(&mut tree, Some(byte()), Some(Type::EnumBasetype(e)));
    let mut cx = ScoreContext::new(&tree);
    let r = cx.ty(TypedRef::Expr(lit));
    assert!(resolved(&cx, r).equals(&byte()));
    assert!(cx.diags.is_empty());
    assert_eq!(cx.typeck_node(lit, &Type::EnumBasetype(e)), Err(()));
    match &only_diag(&cx).kind {
        DiagKind::TypeMismatch { expected, actual } => {
            assert!(expected.equals(&Type::EnumBasetype(e)));
            assert!(actual.equals(&byte()));
        },
        other => panic!("unexpected diagnostic {:?}", other),
    }
}

#[test]
fn literal_without_a_type_adopts_its_context() {
    let mut tree = Tree::new();
    let t = range_type(&mut tree, Dir::To, 0, 255);
    let named = Type::Named(TypeMarkRef::Type(t));
    let a = literal(&mut tree, None, Some(byte()));
    let b = literal(&mut tree, None, Some(Type::Named(TypeMarkRef::Type(t))));
    let mut cx = ScoreContext::new(&tree);
    let ra = cx.ty(TypedRef::Expr(a));
    assert!(resolved(&cx, ra).equals(&byte()));
    let rb = cx.ty(TypedRef::Expr(b));
    assert!(resolved(&cx, rb).equals(&named));
    assert!(cx.diags.is_empty());
}

#[test]
fn literal_without_a_context_cannot_be_typed() {
    let mut tree = Tree::new();
    let e = type_decl(&mut tree, Some(TypeData::Enum));
    let a = literal(&mut tree, None, None);
    let b = literal(&mut tree, None, Some(Type::EnumBasetype(e)));
    let mut cx = ScoreContext::new(&tree);
    assert_eq!(cx.ty(TypedRef::Expr(a)), Err(()));
    assert_eq!(cx.ty(TypedRef::Expr(b)), Err(()));
    assert_eq!(cx.diags.len(), 2);
    match &cx.diags[0].kind {
        DiagKind::CannotInferType { expr } => assert_eq!(*expr, a),
        other => panic!("unexpected diagnostic {:?}", other),
    }
    assert_eq!(cx.diags[0].severity, Severity::Error);
    assert_eq!(cx.diags[0].span, Some(sp(900)));
    assert!(matches!(cx.diags[1].kind, DiagKind::CannotInferType { .. }));
}

#[test]
fn other_expressions_are_not_implemented() {
    let mut tree = Tree::new();
    tree.const_values.push(None);
    tree.type_contexts.push(None);
    let f = ExprRef(put(&mut tree.exprs, Expr { span: sp(1), data: ExprData::FloatLiteral }));
    tree.const_values.push(None);
    tree.type_contexts.push(None);
    let o = ExprRef(put(&mut tree.exprs, Expr { span: sp(2), data: ExprData::Other }));
    let mut cx = ScoreContext::new(&tree);
    assert_eq!(cx.ty(TypedRef::Expr(f)), Err(()));
    assert_eq!(cx.ty(TypedRef::Expr(o)), Err(()));
    assert_eq!(cx.diags.len(), 2);
    assert_eq!(cx.diags[0].severity, Severity::Bug);
    match &cx.diags[1].kind {
        DiagKind::NotImplemented { what } => assert_eq!(*what, Unhandled::Expr(o)),
        other => panic!("unexpected diagnostic {:?}", other),
    }
}

#[test]
fn signals_have_the_type_of_their_indication() {
    let mut tree = Tree::new();
    let t = range_type(&mut tree, Dir::To, 0, 255);
    let ind = bounded(&mut tree, TypeMarkRef::Type(t), Dir::To, 10, 20);
    let sub = subtype_decl(&mut tree, ind);
    let decl = SignalDeclRef(put(&mut tree.signal_decls, SignalDecl { subty: ind }));
    let port = IntfSignalRef(put(&mut tree.intf_signals, IntfSignal { ty: ind }));
    let expected = Type::IntegerSubtype(IntegerSubtype { base: to(0, 255), range: to(10, 20) });
    let mut cx = ScoreContext::new(&tree);
    for id in [
        TypedRef::SignalDecl(decl),
        TypedRef::IntfSignal(port),
        TypedRef::Signal(SignalRef::Decl(decl)),
        TypedRef::Signal(SignalRef::Intf(port)),
        TypedRef::TypedNode(TypedNodeRef::Signal(SignalRef::Decl(decl))),
        TypedRef::TypedNode(TypedNodeRef::SubtypeInd(ind)),
        TypedRef::SubtypeDecl(sub),
        TypedRef::TypeMark(TypeMarkRef::Subtype(sub)),
    ] {
        let r = cx.ty(id);
        assert!(resolved(&cx, r).equals(&expected));
    }
    let r = cx.ty(TypedRef::TypeMark(TypeMarkRef::Type(t)));
    assert!(resolved(&cx, r).equals(&byte()));
    assert!(cx.diags.is_empty());
    assert_eq!(cx.ty(TypedRef::SignalDecl(SignalDeclRef(9))), Err(()));
    assert!(cx.diags.is_empty());
}

#[test]
fn arena_allocates_all_but_the_singletons() {
    let mut arena = TypeArena::new();
    assert_eq!(arena.len(), 0);
    assert_eq!(arena.alloc_owned(Type::Null), TyRef::Null);
    assert_eq!(arena.alloc_owned(Type::UniversalInteger), TyRef::UniversalInteger);
    assert_eq!(arena.alloc_owned(Type::UniversalReal), TyRef::UniversalReal);
    assert_eq!(arena.len(), 0);
    let a = arena.alloc_owned(byte());
    let b = arena.alloc_owned(Type::Access(Box::new(byte())));
    assert_eq!(a, TyRef::Node(0));
    assert_eq!(b, TyRef::Node(1));
    assert_eq!(arena.len(), 2);
    assert!(arena.get(a).equals(&byte()));
    assert!(arena.get(b).equals(&Type::Access(Box::new(byte()))));
    assert!(arena.get(TyRef::Null).equals(&Type::Null));
    assert!(arena.get(TyRef::UniversalInteger).equals(&Type::UniversalInteger));
    assert!(arena.get(TyRef::UniversalReal).equals(&Type::UniversalReal));
    assert!(arena.lookup(TyRef::Node(2)).is_none());
    assert!(arena.lookup(a).unwrap().equals(&byte()));
    assert!(arena.lookup(TyRef::Null).unwrap().equals(&Type::Null));
}

#[test]
fn types_compare_by_structure() {
    let a = Type::Access(Box::new(Type::Access(Box::new(byte()))));
    let b = a.duplicate();
    assert!(a.equals(&b));
    assert!(!a.equals(&Type::Access(Box::new(byte()))));
    assert!(!Type::Null.equals(&Type::UniversalInteger));
    assert!(Type::UniversalReal.equals(&Type::UniversalReal));
    assert!(!Type::IntegerBasetype(to(0, 1)).equals(&Type::IntegerBasetype(downto(0, 1))));
    assert!(byte().integer());
    assert!(!Type::Null.integer());
    let one = IndexList::Cons(ArrayIndex::Unbounded(Box::new(byte())), Box::new(IndexList::Nil));
    let other = IndexList::Cons(ArrayIndex::Constrained(Box::new(byte())), Box::new(IndexList::Nil));
    assert!(one.equals(&one.duplicate()));
    assert!(!one.equals(&other));
    assert!(!one.equals(&IndexList::Nil));
}

#[test]
fn severity_decides_failure() {
    assert!(!Severity::Note.failure());
    assert!(!Severity::Warning.failure());
    assert!(Severity::Error.failure());
    assert!(Severity::Fatal.failure());
    assert!(Severity::Bug.failure());
    let tree = Tree::new();
    let mut tc = TypeckContext::new(ScoreContext::new(&tree));
    tc.emit(Diagnostic { severity: Severity::Warning, kind: DiagKind::RangeBoundsMismatch, span: None });
    assert!(!tc.failed);
    tc.emit(Diagnostic::error(DiagKind::RangeBoundsMismatch, None));
    assert!(tc.failed);
    assert_eq!(tc.ctx.diags.len(), 2);
    assert!(!tc.finish());
    let clean = TypeckContext::new(ScoreContext::new(&tree));
    assert!(clean.finish());
}

#[test]
fn two_invalid_declarations_give_two_diagnostics() {
    let mut tree = Tree::new();
    let t = range_type(&mut tree, Dir::To, 0, 255);
    let out_of_range = bounded(&mut tree, TypeMarkRef::Type(t), Dir::To, 0, 300);
    let arrayed = indication(&mut tree, TypeMarkRef::Type(t), Some(Constraint::Array(sp(70))));
    let fine = bounded(&mut tree, TypeMarkRef::Type(t), Dir::To, 0, 3);
    let s0 = subtype_decl(&mut tree, out_of_range);
    let s1 = subtype_decl(&mut tree, fine);
    let s2 = subtype_decl(&mut tree, arrayed);
    let pkg = PkgDeclRef(put(
        &mut tree.pkg_decls,
        PkgDecl {
            generics: vec![],
            decls: vec![
                DeclInPkgRef::Type(t),
                DeclInPkgRef::Subtype(s0),
                DeclInPkgRef::Subtype(s1),
                DeclInPkgRef::Subtype(s2),
            ],
        },
    ));
    let mut tc = TypeckContext::new(ScoreContext::new(&tree));
    tc.typeck(pkg);
    assert_eq!(tc.ctx.diags.len(), 2);
    assert!(matches!(tc.ctx.diags[0].kind, DiagKind::NotASubrange { .. }));
    assert!(matches!(tc.ctx.diags[1].kind, DiagKind::ArrayConstraintUnsupported));
    assert!(tc.ctx.diags.iter().all(|d| d.severity == Severity::Error));
    assert!(!tc.finish());
}

#[test]
fn valid_unit_passes() {
    let mut tree = Tree::new();
    let t = range_type(&mut tree, Dir::To, 0, 255);
    let ind = bounded(&mut tree, TypeMarkRef::Type(t), Dir::To, 0, 3);
    let sig = SignalDeclRef(put(&mut tree.signal_decls, SignalDecl { subty: ind }));
    let port = IntfSignalRef(put(&mut tree.intf_signals, IntfSignal { ty: ind }));
    let value = literal(
        &mut tree,
        Some(Type::IntegerSubtype(IntegerSubtype { base: to(0, 255), range: to(0, 3) })),
        None,
    );
    let assign = SigAssignStmtRef(put(
        &mut tree.sig_assign_stmts,
        SigAssignStmt {
            target: SigAssignTarget::Name(SignalRef::Decl(sig)),
            target_span: sp(80),
            kind: SigAssignKind::SimpleWave(
                DelayMechanism::Inertial,
                vec![WaveElem { value: Some(value), after: None }, WaveElem { value: None, after: None }],
            ),
        },
    ));
    let process = ProcessStmtRef(put(
        &mut tree.process_stmts,
        ProcessStmt {
            decls: vec![DeclInProcRef::Type(t)],
            stmts: vec![SeqStmtRef::SigAssign(assign), SeqStmtRef::Null(NodeId(5))],
        },
    ));
    let entity = EntityRef(put(&mut tree.entities, Entity { generics: vec![], ports: vec![port] }));
    let arch = ArchRef(put(
        &mut tree.archs,
        Arch {
            entity,
            decls: vec![DeclInBlockRef::Type(t), DeclInBlockRef::Signal(sig)],
            stmts: vec![ConcStmtRef::Process(process)],
        },
    ));
    let lib = LibRef(put(
        &mut tree.libs,
        Lib {
            pkg_decls: vec![],
            pkg_insts: vec![],
            pkg_bodies: vec![],
            ctxs: vec![],
            entities: vec![entity],
            archs: vec![arch],
            cfgs: vec![],
        },
    ));
    let mut tc = TypeckContext::new(ScoreContext::new(&tree));
    tc.typeck(lib);
    assert!(tc.ctx.diags.is_empty());
    assert!(tc.finish());
}

#[test]
fn waveform_values_are_checked_against_the_target() {
    let mut tree = Tree::new();
    let t = range_type(&mut tree, Dir::To, 0, 255);
    let ind = bounded(&mut tree, TypeMarkRef::Type(t), Dir::To, 0, 3);
    let sig = SignalDeclRef(put(&mut tree.signal_decls, SignalDecl { subty: ind }));
    let target = Type::IntegerSubtype(IntegerSubtype { base: to(0, 255), range: to(0, 3) });
    let good = literal(&mut tree, Some(target.duplicate()), None);
    let bad = literal(&mut tree, Some(byte()), None);
    let untyped = literal(&mut tree, None, None);
    let assign = SigAssignStmtRef(put(
        &mut tree.sig_assign_stmts,
        SigAssignStmt {
            target: SigAssignTarget::Name(SignalRef::Decl(sig)),
            target_span: sp(80),
            kind: SigAssignKind::SimpleWave(
                DelayMechanism::Transport,
                vec![
                    WaveElem { value: Some(bad), after: None },
                    WaveElem { value: Some(good), after: Some(untyped) },
                    WaveElem { value: Some(untyped), after: None },
                ],
            ),
        },
    ));
    let mut tc = TypeckContext::new(ScoreContext::new(&tree));
    tc.typeck(assign);
    assert_eq!(tc.ctx.diags.len(), 2);
    match &tc.ctx.diags[0].kind {
        DiagKind::TypeMismatch { expected, actual } => {
            assert!(expected.equals(&target));
            assert!(actual.equals(&byte()));
        },
        other => panic!("unexpected diagnostic {:?}", other),
    }
    assert!(matches!(tc.ctx.diags[1].kind, DiagKind::CannotInferType { .. }));
    assert!(!tc.finish());
}

#[test]
fn other_assignments_and_aggregate_targets() {
    let mut tree = Tree::new();
    let t = range_type(&mut tree, Dir::To, 0, 255);
    let ind = indication(&mut tree, TypeMarkRef::Type(t), None);
    let sig = SignalDeclRef(put(&mut tree.signal_decls, SignalDecl { subty: ind }));
    let bad = literal(&mut tree, Some(Type::Null), None);
    let force = SigAssignStmtRef(put(
        &mut tree.sig_assign_stmts,
        SigAssignStmt {
            target: SigAssignTarget::Name(SignalRef::Decl(sig)),
            target_span: sp(80),
            kind: SigAssignKind::SimpleForce(bad),
        },
    ));
    let aggregate = SigAssignStmtRef(put(
        &mut tree.sig_assign_stmts,
        SigAssignStmt {
            target: SigAssignTarget::Aggregate,
            target_span: sp(81),
            kind: SigAssignKind::SimpleRelease,
        },
    ));
    let lost = SigAssignStmtRef(put(
        &mut tree.sig_assign_stmts,
        SigAssignStmt {
            target: SigAssignTarget::Name(SignalRef::Decl(SignalDeclRef(50))),
            target_span: sp(82),
            kind: SigAssignKind::CondWave(DelayMechanism::RejectInertial(bad)),
        },
    ));
    let mut tc = TypeckContext::new(ScoreContext::new(&tree));
    tc.typeck_sig_assign(force);
    assert!(tc.ctx.diags.is_empty());
    assert!(!tc.failed);
    tc.typeck_sig_assign(aggregate);
    assert_eq!(tc.ctx.diags.len(), 1);
    assert_eq!(tc.ctx.diags[0].severity, Severity::Bug);
    assert_eq!(tc.ctx.diags[0].span, Some(sp(81)));
    match &tc.ctx.diags[0].kind {
        DiagKind::NotImplemented { what } => assert_eq!(*what, Unhandled::AggregateTarget),
        other => panic!("unexpected diagnostic {:?}", other),
    }
    assert!(tc.failed);
    let mut tc = TypeckContext::new(ScoreContext::new(&tree));
    tc.typeck_sig_assign(lost);
    assert!(tc.ctx.diags.is_empty());
    assert!(tc.failed);
    let mut tc = TypeckContext::new(ScoreContext::new(&tree));
    tc.typeck_sig_assign(SigAssignStmtRef(99));
    assert!(tc.failed);
    tc.typeck_delay_mechanism(&DelayMechanism::RejectInertial(bad));
    assert!(tc.ctx.diags.is_empty());
}

#[test]
fn kinds_without_a_rule_are_reported() {
    let tree = Tree::new();
    let mut tc = TypeckContext::new(ScoreContext::new(&tree));
    let ids = vec![
        NodeRef::Generic(GenericRef::Const(NodeId(1))),
        NodeRef::DeclInBlock(DeclInBlockRef::File(NodeId(2))),
        NodeRef::ConcStmt(ConcStmtRef::IfGen(NodeId(3))),
        NodeRef::SeqStmt(SeqStmtRef::Wait(NodeId(4))),
        NodeRef::SeqStmt(SeqStmtRef::Null(NodeId(5))),
        NodeRef::Other(NodeId(6)),
        NodeRef::DeclInProc(DeclInProcRef::Var(NodeId(7))),
        NodeRef::DeclInPkg(DeclInPkgRef::PkgInst(NodeId(8))),
    ];
    tc.typeck_slice(&ids);
    assert_eq!(tc.ctx.diags.len(), 7);
    let expected = [1, 2, 3, 4, 6, 7, 8];
    for (d, n) in tc.ctx.diags.iter().zip(expected.iter()) {
        assert_eq!(d.severity, Severity::Bug);
        match &d.kind {
            DiagKind::NotImplemented { what } => assert_eq!(*what, Unhandled::Node(NodeId(*n))),
            other => panic!("unexpected diagnostic {:?}", other),
        }
    }
    assert!(!tc.finish());
}

#[test]
fn null_statement_always_checks() {
    let tree = Tree::new();
    let mut tc = TypeckContext::new(ScoreContext::new(&tree));
    tc.typeck(SeqStmtRef::Null(NodeId(0)));
    assert!(tc.ctx.diags.is_empty());
    assert!(tc.finish());
}

#[test]
fn missing_unit_fails_without_a_diagnostic() {
    let tree = Tree::new();
    for id in [
        NodeRef::Lib(LibRef(0)),
        NodeRef::PkgDecl(PkgDeclRef(0)),
        NodeRef::Entity(EntityRef(0)),
        NodeRef::Arch(ArchRef(0)),
        NodeRef::ProcessStmt(ProcessStmtRef(0)),
        NodeRef::Typed(TypedRef::TypeDecl(TypeDeclRef(0))),
    ] {
        let mut tc = TypeckContext::new(ScoreContext::new(&tree));
        tc.typeck(id);
        assert!(tc.ctx.diags.is_empty());
        assert!(!tc.finish());
    }
}

#[test]
fn package_that_holds_itself_is_given_up() {
    let mut tree = Tree::new();
    let pkg = PkgDeclRef(put(
        &mut tree.pkg_decls,
        PkgDecl { generics: vec![], decls: vec![DeclInPkgRef::Pkg(PkgDeclRef(0))] },
    ));
    let mut tc = TypeckContext::new(ScoreContext::with_depth(&tree, 8));
    tc.typeck(pkg);
    assert_eq!(tc.ctx.diags.len(), 1);
    assert!(matches!(tc.ctx.diags[0].kind, DiagKind::NestedTooDeep));
    assert_eq!(tc.ctx.diags[0].kind.message(), "design units are nested too deep");
    assert!(!tc.finish());
}

#[test]
fn node_type_check() {
    let mut tree = Tree::new();
    let t = range_type(&mut tree, Dir::To, 0, 255);
    let mut tc = TypeckContext::new(ScoreContext::new(&tree));
    tc.typeck_node(t, &byte());
    assert!(!tc.failed);
    tc.typeck_node(TypeDeclRef(40), &byte());
    assert!(tc.failed);
    assert!(tc.ctx.diags.is_empty());
    let mut tc = TypeckContext::new(ScoreContext::new(&tree));
    tc.typeck_node(TypeMarkRef::Type(t), &Type::IntegerBasetype(to(0, 254)));
    assert!(tc.failed);
    assert!(matches!(tc.ctx.diags[0].kind, DiagKind::TypeMismatch { .. }));
    assert_eq!(tc.ctx.diags[0].span, None);
    let mut tc = TypeckContext::new(ScoreContext::new(&tree));
    tc.typeck_wave_elem(&WaveElem { value: None, after: None }, &byte());
    tc.typeck_waveform(&vec![], &byte());
    assert!(tc.finish());
}

#[test]
fn identifiers_map_to_nodes_in_order() {
    let ids = vec![TypeDeclRef(3), TypeDeclRef(1)];
    assert_eq!(
        to_nodes(&ids),
        vec![NodeRef::Typed(TypedRef::TypeDecl(TypeDeclRef(3))), NodeRef::Typed(TypedRef::TypeDecl(TypeDeclRef(1)))]
    );
}

#[test]
fn type_equality_operator() {
    assert!(byte() == byte());
    assert!(byte() != Type::IntegerBasetype(to(0, 254)));
    assert_eq!(
        Type::Access(Box::new(Type::Named(TypeMarkRef::Type(TypeDeclRef(1))))),
        Type::Access(Box::new(Type::Named(TypeMarkRef::Type(TypeDeclRef(1)))))
    );
    assert_ne!(Type::Named(TypeMarkRef::Type(TypeDeclRef(1))), Type::Named(TypeMarkRef::Subtype(SubtypeDeclRef(1))));
}

#[test]
fn session_hands_back_its_diagnostics() {
    let mut tree = Tree::new();
    let t = type_decl(&mut tree, None);
    let mut tc = TypeckContext::new(ScoreContext::new(&tree));
    tc.typeck(DeclInBlockRef::Type(t));
    let (cx, passed) = tc.into_inner();
    assert!(!passed);
    assert_eq!(cx.diags.len(), 1);
    assert_eq!(cx.diags[0].span, Some(sp(1)));
    assert_eq!(cx.diags[0].kind.message(), "incomplete type declaration");
}

#[test]
fn diagnostic_messages() {
    assert_eq!(DiagKind::RangeBoundsMismatch.message(), "bounds of range are not of the same type");
    assert_eq!(DiagKind::FloatRangeUnsupported.message(), "float range bounds not yet supported");
    assert_eq!(
        DiagKind::ArrayConstraintUnsupported.message(),
        "array constraints on subtypes not yet supported"
    );
    assert_eq!(
        DiagKind::RecordConstraintUnsupported.message(),
        "record constraints on subtypes not yet supported"
    );
    assert_eq!(DiagKind::CyclicTypeReference.message(), "cyclic type reference");
    assert_eq!(
        DiagKind::NotASubrange { range: to(0, 1), base: to(0, 0) }.message(),
        "range is not a subrange of the constrained type"
    );
    assert_eq!(
        DiagKind::NotConstrainableByRange { ty: Type::Null }.message(),
        "type cannot be constrained by range"
    );
    assert_eq!(
        DiagKind::CannotInferType { expr: ExprRef(0) }.message(),
        "cannot infer type of literal from context"
    );
    assert_eq!(
        DiagKind::NotImplemented { what: Unhandled::AggregateTarget }.message(),
        "typeck of node not implemented"
    );
    assert_eq!(
        DiagKind::TypeMismatch { expected: Type::Null, actual: byte() }.message(),
        "typecheck failed, type is not the expected one"
    );
    let bug = Diagnostic::bug(DiagKind::CyclicTypeReference, Some(sp(3)));
    assert_eq!(bug.severity, Severity::Bug);
    assert_eq!(bug.span, Some(sp(3)));
}

#[test]
fn more_fuel_finds_the_same_type() {
    let mut tree = Tree::new();
    let t = range_type(&mut tree, Dir::Downto, 31, 0);
    let ind = bounded(&mut tree, TypeMarkRef::Type(t), Dir::Downto, 7, 0);
    let s = subtype_decl(&mut tree, ind);
    let expected = Type::IntegerSubtype(IntegerSubtype { base: downto(31, 0), range: downto(7, 0) });
    let mut cx = ScoreContext::new(&tree);
    assert_eq!(cx.ty_subtype_decl(s, 1), Err(()));
    assert_eq!(cx.diags.len(), 1);
    for fuel in [2, 3, 100, DEFAULT_DEPTH] {
        let r = cx.ty_subtype_decl(s, fuel);
        assert!(resolved(&cx, r).equals(&expected));
    }
    assert_eq!(cx.diags.len(), 1);
}

#[test]
fn tables_take_nodes_in_order() {
    let mut table: Vec<Option<SubtypeDecl>> = Vec::new();
    assert_eq!(insert(&mut table, SubtypeDecl { subty: SubtypeIndRef(4) }), 0);
    assert_eq!(skip(&mut table), 1);
    assert_eq!(insert(&mut table, SubtypeDecl { subty: SubtypeIndRef(5) }), 2);
    assert_eq!(lookup(&table, 0), Some(&SubtypeDecl { subty: SubtypeIndRef(4) }));
    assert_eq!(lookup(&table, 1), None);
    assert_eq!(lookup(&table, 2), Some(&SubtypeDecl { subty: SubtypeIndRef(5) }));
    assert_eq!(lookup(&table, 3), None);
}

#[test]
fn constraints_directly() {
    let mut tree = Tree::new();
    let lb = int_const(&mut tree, 2);
    let rb = int_const(&mut tree, 5);
    let mut cx = ScoreContext::new(&tree);
    let base = cx.intern_ty(byte());
    let range = cx.constraint_range(Constraint::Bounds(Dir::To, lb, rb), sp(0)).unwrap();
    assert!(range.equals(&to(2, 5)));
    assert!(cx.constraint_range(Constraint::Bounds(Dir::To, lb, ExprRef(77)), sp(0)).is_err());
    assert!(cx.diags.is_empty());
    assert!(cx.constraint_range(Constraint::Range(lb), sp(0)).is_err());
    assert_eq!(cx.diags.len(), 1);
    let r = cx.constrain(base, Constraint::Bounds(Dir::To, lb, rb), sp(0));
    assert!(resolved(&cx, r).equals(&Type::IntegerSubtype(
        IntegerSubtype { base: to(0, 255), range: to(2, 5) }
    )));
    assert_eq!(cx.constrain(TyRef::UniversalInteger, Constraint::Bounds(Dir::To, lb, rb), sp(0)), Err(()));
    assert!(matches!(cx.diags[1].kind, DiagKind::NotConstrainableByRange { .. }));
}

fn digits_of(integer: &Integer) -> Vec<u32> {
    let mut out = Vec::new();
    let mut at = &integer.magnitude;
    while let Digits::Cons(digit, rest) = at {
        out.push(*digit);
        at = &**rest;
    }
    out
}

#[test]
fn integers_from_machine_integers() {
    assert_eq!(digits_of(&Integer::from_i64(0)), Vec::<u32>::new());
    assert!(!Integer::from_i64(0).negative);
    assert_eq!(digits_of(&Integer::from_i64(255)), vec![255]);
    assert_eq!(digits_of(&Integer::from_i64(-5)), vec![5]);
    assert!(Integer::from_i64(-5).negative);
    assert_eq!(digits_of(&Integer::from_i64(4294967296)), vec![0, 1]);
    assert_eq!(digits_of(&Integer::from_i64(i64::MAX)), vec![0xffff_ffff, 0x7fff_ffff]);
    assert_eq!(digits_of(&Integer::from_i64(i64::MIN)), vec![0, 0x8000_0000]);
    assert!(Integer::from_i64(i64::MIN).negative);
}

#[test]
fn integers_from_digits_drop_leading_zeros() {
    let a = Integer::from_digits(false, &vec![7, 0, 3, 0, 0]);
    assert_eq!(digits_of(&a), vec![7, 0, 3]);
    let zero = Integer::from_digits(true, &vec![0, 0]);
    assert_eq!(digits_of(&zero), Vec::<u32>::new());
    assert!(!zero.negative);
    assert!(zero.equals(&Integer::from_i64(0)));
    assert!(Integer::from_digits(true, &vec![5]).equals(&Integer::from_i64(-5)));
    assert!(Integer::from_digits(false, &vec![0, 1]).equals(&Integer::from_i64(4294967296)));
    assert!(!Integer::from_digits(false, &vec![5]).equals(&Integer::from_i64(-5)));
    assert!(a.duplicate().equals(&a));
}

#[test]
fn integers_compare_by_value() {
    let huge = Integer::from_digits(false, &vec![0, 0, 0, 0, 0, 1]);
    let huger = Integer::from_digits(false, &vec![1, 0, 0, 0, 0, 1]);
    let minus_huge = Integer::from_digits(true, &vec![0, 0, 0, 0, 0, 1]);
    assert_eq!(huge.relate(&huger), Relation::Below);
    assert_eq!(huger.relate(&huge), Relation::Above);
    assert_eq!(huge.relate(&huge.duplicate()), Relation::Same);
    assert_eq!(minus_huge.relate(&huge), Relation::Below);
    assert_eq!(minus_huge.relate(&num(i64::MIN)), Relation::Below);
    assert_eq!(num(-3).relate(&num(-4)), Relation::Above);
    assert_eq!(num(-3).relate(&num(2)), Relation::Below);
    assert_eq!(num(0).relate(&num(0)), Relation::Same);
    assert_eq!(num(4294967295).relate(&num(4294967296)), Relation::Below);
    assert_eq!(num(8589934592).relate(&num(4294967297)), Relation::Above);
    assert!(num(3).le(&num(3)));
    assert!(num(3).le(&huge));
    assert!(!huge.le(&num(3)));
    assert!(minus_huge.le(&num(0)));
    let unsigned_zero = Integer { negative: true, magnitude: Digits::Nil };
    assert_eq!(unsigned_zero.relate(&num(0)), Relation::Same);
    let padded = Integer {
        negative: false,
        magnitude: Digits::Cons(4, Box::new(Digits::Cons(0, Box::new(Digits::Nil)))),
    };
    assert_eq!(padded.relate(&num(4)), Relation::Same);
    assert_eq!(num(4).relate(&padded), Relation::Same);
    assert!(padded.magnitude.duplicate().equals(&padded.magnitude));
    assert!(!padded.magnitude.zero());
    assert!(Digits::Cons(0, Box::new(Digits::Nil)).zero());
}

#[test]
fn ranges_beyond_machine_integers() {
    let top = Integer::from_digits(false, &vec![0, 0, 0, 0, 1]);
    let bottom = Integer::from_digits(true, &vec![0, 0, 0, 0, 1]);
    let base = Type::IntegerBasetype(IntRange::new(Dir::To, bottom.duplicate(), top.duplicate()));
    let inside = IntRange::new(
        Dir::To,
        Integer::from_digits(true, &vec![0xffff_ffff, 0xffff_ffff, 0xffff_ffff, 0xffff_ffff]),
        Integer::from_digits(false, &vec![0xffff_ffff, 0xffff_ffff, 0xffff_ffff, 0xffff_ffff]),
    );
    assert!(base.constrain_by_range(inside).is_some());
    let above = IntRange::new(Dir::To, num(0), Integer::from_digits(false, &vec![1, 0, 0, 0, 1]));
    assert!(base.constrain_by_range(above).is_none());
    let below = IntRange::new(Dir::To, Integer::from_digits(true, &vec![1, 0, 0, 0, 1]), num(0));
    assert!(base.constrain_by_range(below).is_none());
    assert!(base.constrain_by_range(IntRange::new(Dir::To, bottom, top)).is_some());
}

#[test]
fn long_lists_are_checked_to_the_end() {
    let mut tree = Tree::new();
    let t = range_type(&mut tree, Dir::To, 0, 255);
    let bad = type_decl(&mut tree, None);
    let mut decls = vec![DeclInBlockRef::Type(t); 100_000];
    decls.push(DeclInBlockRef::Type(bad));
    decls.push(DeclInBlockRef::Type(t));
    decls.push(DeclInBlockRef::Type(bad));
    let mut tc = TypeckContext::new(ScoreContext::new(&tree));
    tc.typeck_slice(&decls);
    assert_eq!(tc.ctx.diags.len(), 2);
    assert!(!tc.finish());
    let wave = vec![WaveElem { value: None, after: None }; 100_000];
    let mut tc = TypeckContext::new(ScoreContext::new(&tree));
    tc.typeck_waveform(&wave, &byte());
    assert!(tc.finish());
}

#[test]
fn package_that_holds_itself_at_the_usual_depth() {
    let mut tree = Tree::new();
    let pkg = PkgDeclRef(put(
        &mut tree.pkg_decls,
        PkgDecl { generics: vec![], decls: vec![DeclInPkgRef::Pkg(PkgDeclRef(0))] },
    ));
    let mut tc = TypeckContext::new(ScoreContext::new(&tree));
    tc.typeck(pkg);
    assert_eq!(tc.ctx.diags.len(), 1);
    assert_eq!(tc.ctx.diags[0].severity, Severity::Bug);
    assert!(!tc.finish());
}

#[test]
fn rules_without_fuel_give_up() {
    let mut tree = Tree::new();
    let t = range_type(&mut tree, Dir::To, 0, 255);
    let plain = indication(&mut tree, TypeMarkRef::Type(t), None);
    let narrowed = bounded(&mut tree, TypeMarkRef::Type(t), Dir::To, 1, 2);
    let access = type_decl(&mut tree, Some(TypeData::Access(plain)));
    let index = array_index(&mut tree, ArrayTypeIndexData::Unbounded(TypeMarkRef::Type(t)));
    let array = type_decl(&mut tree, Some(TypeData::Array(vec![index], plain)));
    let sub = subtype_decl(&mut tree, plain);
    let mut cx = ScoreContext::new(&tree);
    assert!(cx.ty_type_decl(t, 0).is_ok());
    assert!(cx.ty_subtype_ind(plain, 0).is_ok());
    assert!(cx.diags.is_empty());
    assert_eq!(cx.ty_type_decl(access, 0), Err(()));
    assert_eq!(cx.ty_type_decl(array, 0), Err(()));
    assert_eq!(cx.ty_subtype_decl(sub, 0), Err(()));
    assert_eq!(cx.ty_subtype_ind(narrowed, 0), Err(()));
    assert!(cx.ty_array_index(index, 0).is_err());
    assert_eq!(cx.diags.len(), 5);
    assert!(cx.diags.iter().all(|d| matches!(d.kind, DiagKind::CyclicTypeReference)));
    assert!(cx.ty_type_decl(access, 1).is_ok());
    assert!(cx.ty_type_decl(array, 2).is_ok());
    assert!(cx.ty_subtype_ind(narrowed, 1).is_ok());
    let idx = cx.ty_array_index(index, 1).unwrap();
    assert!(idx.equals(&ArrayIndex::Unbounded(Box::new(byte()))));
    assert_eq!(cx.diags.len(), 5);
}

#[test]
fn array_index_that_was_never_lowered() {
    let mut tree = Tree::new();
    let t = range_type(&mut tree, Dir::To, 0, 255);
    let elem = indication(&mut tree, TypeMarkRef::Type(t), None);
    let bad = bounded(&mut tree, TypeMarkRef::Type(t), Dir::Downto, 7, 0);
    let index = array_index(&mut tree, ArrayTypeIndexData::Subtype(bad));
    let array = type_decl(
        &mut tree,
        Some(TypeData::Array(vec![ArrayTypeIndexRef(40), index], elem)),
    );
    let mut cx = ScoreContext::new(&tree);
    assert_eq!(cx.ty(TypedRef::TypeDecl(array)), Err(()));
    assert_eq!(cx.diags.len(), 1);
    assert!(matches!(cx.diags[0].kind, DiagKind::NotASubrange { .. }));
    let lists = cx.ty_array_indices(&vec![], 0, 0).unwrap();
    assert!(lists.equals(&IndexList::Nil));
}
