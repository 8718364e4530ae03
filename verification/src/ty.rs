//! The type algebra: ranges, base types, subtypes and the placeholder types.

use vstd::prelude::*;
use crate::integer::Integer;
use crate::node::{TypeDeclRef, TypeMarkRef};

verus! {

/// The direction of a range.
#[derive(Clone, Copy, Debug, PartialEq, Eq, Structural)]
pub enum Dir {
    To,
    Downto,
}

/// A range of integers, written `left dir right`. The bounds may be of any
/// size.
#[derive(Debug)]
pub struct IntRange {
    pub dir: Dir,
    pub left: Integer,
    pub right: Integer,
}

impl IntRange {
    /// The bound at which the range starts to count upwards.
    pub open spec fn low(self) -> int {
        match self.dir {
            Dir::To => self.left.value(),
            Dir::Downto => self.right.value(),
        }
    }

    /// The bound at which the range stops when counting upwards.
    pub open spec fn high(self) -> int {
        match self.dir {
            Dir::To => self.right.value(),
            Dir::Downto => self.left.value(),
        }
    }

    /// A range is null when it holds no value at all.
    pub open spec fn is_null(self) -> bool {
        self.low() > self.high()
    }

    /// `self` runs the same way as `base` and does not reach beyond either of
    /// its ends.
    pub open spec fn is_subrange_of(self, base: IntRange) -> bool {
        &&& self.dir == base.dir
        &&& base.low() <= self.low()
        &&& self.high() <= base.high()
    }

    /// Both bounds are written in the one way there is.
    pub open spec fn wf(self) -> bool {
        self.left.wf() && self.right.wf()
    }

    pub fn new(dir: Dir, left: Integer, right: Integer) -> (r: IntRange)
        ensures
            r == (IntRange { dir, left, right }),
    {
        IntRange { dir, left, right }
    }

    /// The bound at which the range starts to count upwards.
    pub fn lower_bound(&self) -> (r: &Integer)
        ensures
            r.value() == self.low(),
            *r == if self.dir == Dir::To {
                self.left
            } else {
                self.right
            },
    {
        match self.dir {
            Dir::To => &self.left,
            Dir::Downto => &self.right,
        }
    }

    /// The bound at which the range stops when counting upwards.
    pub fn upper_bound(&self) -> (r: &Integer)
        ensures
            r.value() == self.high(),
            *r == if self.dir == Dir::To {
                self.right
            } else {
                self.left
            },
    {
        match self.dir {
            Dir::To => &self.right,
            Dir::Downto => &self.left,
        }
    }

    /// Whether the range is empty. An empty range is still a range.
    pub fn null(&self) -> (r: bool)
        ensures
            r == self.is_null(),
    {
        !self.lower_bound().le(self.upper_bound())
    }

    /// Whether the range runs the way `base` runs and stays within it.
    pub fn subrange_of(&self, base: &IntRange) -> (r: bool)
        ensures
            r == self.is_subrange_of(*base),
    {
        self.dir == base.dir && base.lower_bound().le(self.lower_bound())
            && self.upper_bound().le(base.upper_bound())
    }

    pub fn duplicate(&self) -> (r: IntRange)
        ensures
            r == *self,
    {
        IntRange { dir: self.dir, left: self.left.duplicate(), right: self.right.duplicate() }
    }

    pub fn equals(&self, other: &IntRange) -> (r: bool)
        ensures
            r == (*self == *other),
    {
        self.dir == other.dir && self.left.equals(&other.left) && self.right.equals(&other.right)
    }
}

/// An integer subtype: a range within the range of its base type.
#[derive(Debug)]
pub struct IntegerSubtype {
    pub base: IntRange,
    pub range: IntRange,
}

/// A range of floating-point numbers. Each bound is kept as the bit pattern of
/// the number, which is all that this crate ever does with it.
#[derive(Clone, Copy, Debug, PartialEq, Eq, Structural)]
pub struct FloatRange {
    pub dir: Dir,
    pub left_bits: u64,
    pub right_bits: u64,
}

#[derive(Clone, Copy, Debug, PartialEq, Eq, Structural)]
pub struct FloatingSubtype {
    pub base: FloatRange,
    pub range: FloatRange,
}

/// An enumeration subtype: a run of literals of the enumeration `base`.
#[derive(Clone, Copy, Debug, PartialEq, Eq, Structural)]
pub struct EnumSubtype {
    pub base: TypeDeclRef,
    pub first: usize,
    pub last: usize,
}

/// A physical type: integers that count a primary unit.
#[derive(Debug)]
pub struct PhysicalBasetype {
    pub decl: TypeDeclRef,
    pub range: IntRange,
}

#[derive(Debug)]
pub struct PhysicalSubtype {
    pub base: PhysicalBasetype,
    pub range: IntRange,
}

impl IntegerSubtype {
    pub fn duplicate(&self) -> (r: IntegerSubtype)
        ensures
            r == *self,
    {
        IntegerSubtype { base: self.base.duplicate(), range: self.range.duplicate() }
    }

    pub fn equals(&self, other: &IntegerSubtype) -> (r: bool)
        ensures
            r == (*self == *other),
    {
        self.base.equals(&other.base) && self.range.equals(&other.range)
    }
}

impl PhysicalBasetype {
    pub fn duplicate(&self) -> (r: PhysicalBasetype)
        ensures
            r == *self,
    {
        PhysicalBasetype { decl: self.decl, range: self.range.duplicate() }
    }

    pub fn equals(&self, other: &PhysicalBasetype) -> (r: bool)
        ensures
            r == (*self == *other),
    {
        self.decl == other.decl && self.range.equals(&other.range)
    }
}

impl PhysicalSubtype {
    pub fn duplicate(&self) -> (r: PhysicalSubtype)
        ensures
            r == *self,
    {
        PhysicalSubtype { base: self.base.duplicate(), range: self.range.duplicate() }
    }

    pub fn equals(&self, other: &PhysicalSubtype) -> (r: bool)
        ensures
            r == (*self == *other),
    {
        self.base.equals(&other.base) && self.range.equals(&other.range)
    }
}

/// One index of an array type.
#[derive(Debug)]
pub enum ArrayIndex {
    /// Any range of the given type may index the array.
    Unbounded(Box<Type>),
    /// The array is indexed by exactly the values of the given type.
    Constrained(Box<Type>),
}

/// The indices of an array type, first index first.
#[derive(Debug)]
pub enum IndexList {
    Nil,
    Cons(ArrayIndex, Box<IndexList>),
}

/// A type.
#[derive(Debug)]
pub enum Type {
    IntegerBasetype(IntRange),
    IntegerSubtype(IntegerSubtype),
    FloatingBasetype(FloatRange),
    FloatingSubtype(FloatingSubtype),
    /// An enumeration, known by the declaration that introduced it.
    EnumBasetype(TypeDeclRef),
    EnumSubtype(EnumSubtype),
    PhysicalBasetype(PhysicalBasetype),
    PhysicalSubtype(PhysicalSubtype),
    Access(Box<Type>),
    Array(IndexList, Box<Type>),
    Null,
    UniversalInteger,
    UniversalReal,
    /// Whatever type the named declaration has.
    Named(TypeMarkRef),
}

impl IndexList {
    /// The indices as a sequence.
    pub open spec fn view(self) -> Seq<ArrayIndex>
        decreases self,
    {
        match self {
            IndexList::Nil => Seq::empty(),
            IndexList::Cons(head, tail) => seq![head] + tail.view(),
        }
    }

    /// Every index is well-formed.
    pub open spec fn wf(self) -> bool
        decreases self,
    {
        match self {
            IndexList::Nil => true,
            IndexList::Cons(head, tail) => head.wf() && tail.wf(),
        }
    }

    pub fn duplicate(&self) -> (r: IndexList)
        ensures
            r == *self,
        decreases *self,
    {
        match self {
            IndexList::Nil => IndexList::Nil,
            IndexList::Cons(head, tail) => IndexList::Cons(
                head.duplicate(),
                Box::new(tail.duplicate()),
            ),
        }
    }

    pub fn equals(&self, other: &IndexList) -> (r: bool)
        ensures
            r == (*self == *other),
        decreases *self,
    {
        match (self, other) {
            (IndexList::Nil, IndexList::Nil) => true,
            (IndexList::Cons(a, x), IndexList::Cons(b, y)) => a.equals(b) && x.equals(y),
            _ => false,
        }
    }
}

impl ArrayIndex {
    /// The type of the index.
    pub open spec fn ty(self) -> Type {
        match self {
            ArrayIndex::Unbounded(t) => *t,
            ArrayIndex::Constrained(t) => *t,
        }
    }

    /// The type of the index is well-formed.
    pub open spec fn wf(self) -> bool
        decreases self,
    {
        match self {
            ArrayIndex::Unbounded(t) => t.wf(),
            ArrayIndex::Constrained(t) => t.wf(),
        }
    }

    pub fn duplicate(&self) -> (r: ArrayIndex)
        ensures
            r == *self,
        decreases *self,
    {
        match self {
            ArrayIndex::Unbounded(t) => ArrayIndex::Unbounded(Box::new(t.duplicate())),
            ArrayIndex::Constrained(t) => ArrayIndex::Constrained(Box::new(t.duplicate())),
        }
    }

    pub fn equals(&self, other: &ArrayIndex) -> (r: bool)
        ensures
            r == (*self == *other),
        decreases *self,
    {
        match (self, other) {
            (ArrayIndex::Unbounded(a), ArrayIndex::Unbounded(b)) => a.equals(b),
            (ArrayIndex::Constrained(a), ArrayIndex::Constrained(b)) => a.equals(b),
            _ => false,
        }
    }
}

impl Type {
    /// The type is an integer type, base or subtype.
    pub open spec fn is_integer(self) -> bool {
        self is IntegerBasetype || self is IntegerSubtype
    }

    /// The type is one of the three placeholders that carry no data.
    pub open spec fn is_singleton(self) -> bool {
        self is Null || self is UniversalInteger || self is UniversalReal
    }

    /// For an integer type, the range of its values.
    pub open spec fn int_range(self) -> IntRange
        recommends
            self.is_integer(),
    {
        match self {
            Type::IntegerBasetype(r) => r,
            Type::IntegerSubtype(s) => s.range,
            _ => arbitrary(),
        }
    }

    /// For an integer type, the range of the base type it descends from.
    pub open spec fn int_base(self) -> IntRange
        recommends
            self.is_integer(),
    {
        match self {
            Type::IntegerBasetype(r) => r,
            Type::IntegerSubtype(s) => s.base,
            _ => arbitrary(),
        }
    }

    /// Every bound is written in the one way there is, and a subtype lies
    /// within its base, here and in every type below.
    pub open spec fn wf(self) -> bool
        decreases self,
    {
        match self {
            Type::IntegerBasetype(r) => r.wf(),
            Type::IntegerSubtype(s) => s.base.wf() && s.range.wf() && s.range.is_subrange_of(
                s.base,
            ),
            Type::PhysicalBasetype(p) => p.range.wf(),
            Type::PhysicalSubtype(s) => s.base.range.wf() && s.range.wf()
                && s.range.is_subrange_of(s.base.range),
            Type::Access(t) => t.wf(),
            Type::Array(indices, elem) => indices.wf() && elem.wf(),
            _ => true,
        }
    }

    /// The type holds no value: an integer type over a null range.
    pub open spec fn is_null_range(self) -> bool {
        self.is_integer() && self.int_range().is_null()
    }

    /// The integer subtype of `self` over `range`, where there is one.
    pub open spec fn constrained_by(self, range: IntRange) -> Option<Type> {
        if self.is_integer() && range.is_subrange_of(self.int_range()) {
            Some(Type::IntegerSubtype(IntegerSubtype { base: self.int_base(), range }))
        } else {
            None
        }
    }

    pub fn integer(&self) -> (r: bool)
        ensures
            r == self.is_integer(),
    {
        match self {
            Type::IntegerBasetype(_) => true,
            Type::IntegerSubtype(_) => true,
            _ => false,
        }
    }

    /// The range of an integer type; nothing for any other type.
    pub fn integer_range(&self) -> (r: Option<IntRange>)
        ensures
            r == if self.is_integer() {
                Some(self.int_range())
            } else {
                None
            },
    {
        match self {
            Type::IntegerBasetype(r) => Some(r.duplicate()),
            Type::IntegerSubtype(s) => Some(s.range.duplicate()),
            _ => None,
        }
    }

    /// Whether the type is empty. Emptiness is a property of a type, never a
    /// reason to refuse it.
    pub fn null_range(&self) -> (r: bool)
        ensures
            r == self.is_null_range(),
    {
        match self {
            Type::IntegerBasetype(r) => r.null(),
            Type::IntegerSubtype(s) => s.range.null(),
            _ => false,
        }
    }

    /// A copy of the type that shares nothing with it.
    pub fn duplicate(&self) -> (r: Type)
        ensures
            r == *self,
        decreases *self,
    {
        match self {
            Type::IntegerBasetype(r) => Type::IntegerBasetype(r.duplicate()),
            Type::IntegerSubtype(s) => Type::IntegerSubtype(s.duplicate()),
            Type::FloatingBasetype(r) => Type::FloatingBasetype(*r),
            Type::FloatingSubtype(s) => Type::FloatingSubtype(*s),
            Type::EnumBasetype(d) => Type::EnumBasetype(*d),
            Type::EnumSubtype(s) => Type::EnumSubtype(*s),
            Type::PhysicalBasetype(p) => Type::PhysicalBasetype(p.duplicate()),
            Type::PhysicalSubtype(s) => Type::PhysicalSubtype(s.duplicate()),
            Type::Access(t) => Type::Access(Box::new(t.duplicate())),
            Type::Array(indices, elem) => Type::Array(
                indices.duplicate(),
                Box::new(elem.duplicate()),
            ),
            Type::Null => Type::Null,
            Type::UniversalInteger => Type::UniversalInteger,
            Type::UniversalReal => Type::UniversalReal,
            Type::Named(tm) => Type::Named(*tm),
        }
    }

    /// Structural equality: two types are equal when they are built alike,
    /// wherever and whenever they were built.
    pub fn equals(&self, other: &Type) -> (r: bool)
        ensures
            r == (*self == *other),
        decreases *self,
    {
        match (self, other) {
            (Type::IntegerBasetype(a), Type::IntegerBasetype(b)) => a.equals(b),
            (Type::IntegerSubtype(a), Type::IntegerSubtype(b)) => a.equals(b),
            (Type::FloatingBasetype(a), Type::FloatingBasetype(b)) => *a == *b,
            (Type::FloatingSubtype(a), Type::FloatingSubtype(b)) => *a == *b,
            (Type::EnumBasetype(a), Type::EnumBasetype(b)) => *a == *b,
            (Type::EnumSubtype(a), Type::EnumSubtype(b)) => *a == *b,
            (Type::PhysicalBasetype(a), Type::PhysicalBasetype(b)) => a.equals(b),
            (Type::PhysicalSubtype(a), Type::PhysicalSubtype(b)) => a.equals(b),
            (Type::Access(a), Type::Access(b)) => a.equals(b),
            (Type::Array(ia, ea), Type::Array(ib, eb)) => ia.equals(ib) && ea.equals(eb),
            (Type::Null, Type::Null) => true,
            (Type::UniversalInteger, Type::UniversalInteger) => true,
            (Type::UniversalReal, Type::UniversalReal) => true,
            (Type::Named(a), Type::Named(b)) => *a == *b,
            _ => false,
        }
    }

    /// Narrows an integer type to `range`.
    ///
    /// Succeeds exactly when `self` is an integer type and `range` runs the
    /// same way as the range of `self` and within it. A null `range` is
    /// narrowed like any other. The subtype keeps the base of `self`.
    pub fn constrain_by_range(&self, range: IntRange) -> (r: Option<Type>)
        ensures
            r == self.constrained_by(range),
            self.wf() && range.wf() && r is Some ==> r->0.wf(),
    {
        match self {
            Type::IntegerBasetype(b) => {
                if range.subrange_of(b) {
                    Some(Type::IntegerSubtype(IntegerSubtype { base: b.duplicate(), range }))
                } else {
                    None
                }
            },
            Type::IntegerSubtype(s) => {
                if range.subrange_of(&s.range) {
                    Some(Type::IntegerSubtype(IntegerSubtype { base: s.base.duplicate(), range }))
                } else {
                    None
                }
            },
            _ => None,
        }
    }
}

impl PartialEq for Type {
    fn eq(&self, other: &Type) -> (r: bool) {
        self.equals(other)
    }
}

impl vstd::std_specs::cmp::PartialEqSpecImpl for Type {
    open spec fn obeys_eq_spec() -> bool {
        true
    }

    open spec fn eq_spec(&self, other: &Type) -> bool {
        *self == *other
    }
}

} // verus!
