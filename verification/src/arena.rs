//! The arena that owns every type built during one session.
//!
//! A type is handed over once and never changes or moves afterwards. What the
//! arena gives back is a handle, good for as long as the arena lives.

use vstd::prelude::*;
use crate::ty::Type;

verus! {

/// A handle to a type of a [`TypeArena`].
#[derive(Clone, Copy, Debug, PartialEq, Eq, Structural)]
pub enum TyRef {
    /// The null type. It is the same everywhere and takes no room.
    Null,
    /// The universal integer type, likewise.
    UniversalInteger,
    /// The universal real type, likewise.
    UniversalReal,
    /// The type in the given slot of the arena.
    Node(usize),
}

/// An arena to allocate types into.
pub struct TypeArena {
    nodes: Vec<Type>,
    null: Type,
    universal_integer: Type,
    universal_real: Type,
}

impl TypeArena {
    /// The types in the arena's slots, oldest first.
    pub closed spec fn view(&self) -> Seq<Type> {
        self.nodes@
    }

    /// The arena is in order: its three shared types are what they are named.
    pub closed spec fn wf(&self) -> bool {
        &&& self.null == Type::Null
        &&& self.universal_integer == Type::UniversalInteger
        &&& self.universal_real == Type::UniversalReal
    }

    /// The handle points into this arena.
    pub open spec fn contains(&self, r: TyRef) -> bool {
        r is Node ==> r->Node_0 < self@.len()
    }

    /// The type behind a handle.
    pub open spec fn resolve(&self, r: TyRef) -> Type {
        match r {
            TyRef::Null => Type::Null,
            TyRef::UniversalInteger => Type::UniversalInteger,
            TyRef::UniversalReal => Type::UniversalReal,
            TyRef::Node(i) => self@[i as int],
        }
    }

    /// Every slot of `before` is still there, unchanged and in its place.
    pub open spec fn extends(&self, before: &TypeArena) -> bool {
        before@.is_prefix_of(self@)
    }

    /// The handle that `alloc_owned` gives for `value` when the arena holds
    /// `len` slots.
    pub open spec fn handle_for(value: Type, len: nat) -> TyRef {
        match value {
            Type::Null => TyRef::Null,
            Type::UniversalInteger => TyRef::UniversalInteger,
            Type::UniversalReal => TyRef::UniversalReal,
            _ => TyRef::Node(len as usize),
        }
    }

    /// An arena with no slot taken.
    pub fn new() -> (r: TypeArena)
        ensures
            r.wf(),
            r@ == Seq::<Type>::empty(),
    {
        TypeArena {
            nodes: Vec::new(),
            null: Type::Null,
            universal_integer: Type::UniversalInteger,
            universal_real: Type::UniversalReal,
        }
    }

    /// The number of slots taken.
    pub fn len(&self) -> (n: usize)
        ensures
            n == self@.len(),
    {
        self.nodes.len()
    }

    /// Takes ownership of `value` and returns a handle to it.
    ///
    /// A type that carries data goes into a new slot behind all others. The
    /// null type and the two universal types take no slot: their handles are
    /// constants. No slot that was there before is touched.
    pub fn alloc_owned(&mut self, value: Type) -> (r: TyRef)
        requires
            old(self).wf(),
        ensures
            final(self).wf(),
            r == Self::handle_for(value, old(self)@.len()),
            final(self).contains(r),
            final(self).resolve(r) == value,
            final(self).extends(old(self)),
            value.is_singleton() ==> final(self)@ == old(self)@,
            !value.is_singleton() ==> final(self)@ == old(self)@.push(value),
    {
        match value {
            Type::Null => TyRef::Null,
            Type::UniversalInteger => TyRef::UniversalInteger,
            Type::UniversalReal => TyRef::UniversalReal,
            other => {
                let slot: usize = self.nodes.len();
                self.nodes.push(other);
                TyRef::Node(slot)
            },
        }
    }

    /// The type behind a handle of this arena.
    pub fn get(&self, r: TyRef) -> (t: &Type)
        requires
            self.wf(),
            self.contains(r),
        ensures
            *t == self.resolve(r),
    {
        match r {
            TyRef::Null => &self.null,
            TyRef::UniversalInteger => &self.universal_integer,
            TyRef::UniversalReal => &self.universal_real,
            TyRef::Node(i) => &self.nodes[i],
        }
    }

    /// The type behind a handle, or nothing where the handle points beyond
    /// the arena.
    pub fn lookup(&self, r: TyRef) -> (t: Option<&Type>)
        requires
            self.wf(),
        ensures
            t is Some <==> self.contains(r),
            t is Some ==> *t->0 == self.resolve(r),
    {
        match r {
            TyRef::Node(i) => if i < self.nodes.len() {
                Some(&self.nodes[i])
            } else {
                None
            },
            _ => Some(self.get(r)),
        }
    }
}

} // verus!
