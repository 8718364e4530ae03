//! Constant values, as the evaluation of an expression yields them.

use vstd::prelude::*;
use crate::integer::Integer;
use crate::ty::IntRange;

verus! {

/// The value of a constant expression.
#[derive(Debug)]
pub enum Const {
    /// An integer.
    Int(Integer),
    /// A floating-point number, as its bit pattern.
    Float(u64),
    /// A range of integers.
    IntRange(IntRange),
}

} // verus!
