//! Integers of any size, as far as the type rules need them: they are
//! built, copied and compared, never calculated with.

use vstd::prelude::*;

verus! {

/// The digits of a natural number to the base 2^32, least significant digit
/// first.
#[derive(Debug)]
pub enum Digits {
    Nil,
    Cons(u32, Box<Digits>),
}

/// How one number stands to another.
#[derive(Clone, Copy, Debug, PartialEq, Eq, Structural)]
pub enum Relation {
    Below,
    Same,
    Above,
}

/// The relation of `a` to `b`.
pub open spec fn relation(a: int, b: int) -> Relation {
    if a < b {
        Relation::Below
    } else if a == b {
        Relation::Same
    } else {
        Relation::Above
    }
}

/// The number that a sequence of digits stands for, least significant digit
/// first.
pub open spec fn digits_value(digits: Seq<u32>) -> nat
    decreases digits.len(),
{
    if digits.len() == 0 {
        0
    } else {
        digits[0] as nat + 4294967296 * digits_value(digits.skip(1))
    }
}

impl Digits {
    /// The number that the digits stand for.
    pub open spec fn value(self) -> nat
        decreases self,
    {
        match self {
            Digits::Nil => 0,
            Digits::Cons(digit, rest) => digit as nat + 4294967296 * rest.value(),
        }
    }

    /// The most significant digit is not zero: the number has no other
    /// digits than these.
    pub open spec fn canonical(self) -> bool
        decreases self,
    {
        match self {
            Digits::Nil => true,
            Digits::Cons(digit, rest) => rest.canonical() && (*rest is Nil ==> digit != 0),
        }
    }

    pub fn duplicate(&self) -> (r: Digits)
        ensures
            r == *self,
        decreases *self,
    {
        match self {
            Digits::Nil => Digits::Nil,
            Digits::Cons(digit, rest) => Digits::Cons(*digit, Box::new(rest.duplicate())),
        }
    }

    pub fn equals(&self, other: &Digits) -> (r: bool)
        ensures
            r == (*self == *other),
        decreases *self,
    {
        match (self, other) {
            (Digits::Nil, Digits::Nil) => true,
            (Digits::Cons(a, x), Digits::Cons(b, y)) => *a == *b && x.equals(y),
            _ => false,
        }
    }

    /// Whether the digits stand for zero.
    pub fn zero(&self) -> (r: bool)
        ensures
            r == (self.value() == 0),
        decreases *self,
    {
        match self {
            Digits::Nil => true,
            Digits::Cons(digit, rest) => *digit == 0 && rest.zero(),
        }
    }

    /// How the number of `self` stands to the number of `other`.
    pub fn relate(&self, other: &Digits) -> (r: Relation)
        ensures
            r == relation(self.value() as int, other.value() as int),
        decreases *self,
    {
        match (self, other) {
            (Digits::Nil, _) => if other.zero() {
                Relation::Same
            } else {
                Relation::Below
            },
            (Digits::Cons(_, _), Digits::Nil) => if self.zero() {
                Relation::Same
            } else {
                Relation::Above
            },
            (Digits::Cons(a, x), Digits::Cons(b, y)) => match x.relate(y) {
                Relation::Below => Relation::Below,
                Relation::Above => Relation::Above,
                Relation::Same => if *a < *b {
                    Relation::Below
                } else if *a == *b {
                    Relation::Same
                } else {
                    Relation::Above
                },
            },
        }
    }
}

/// Canonical digits of the same number are the same digits.
pub proof fn lemma_canonical_digits_agree(a: Digits, b: Digits)
    requires
        a.canonical(),
        b.canonical(),
        a.value() == b.value(),
    ensures
        a == b,
    decreases a,
{
    match (a, b) {
        (Digits::Cons(x, ra), Digits::Cons(y, rb)) => {
            lemma_canonical_nonzero(*ra);
            lemma_canonical_nonzero(*rb);
            assert(ra.value() == rb.value()) by {
                if ra.value() < rb.value() {
                    assert(4294967296 * ra.value() + 4294967296 <= 4294967296 * rb.value());
                } else if ra.value() > rb.value() {
                    assert(4294967296 * rb.value() + 4294967296 <= 4294967296 * ra.value());
                }
            }
            lemma_canonical_digits_agree(*ra, *rb);
        },
        (Digits::Cons(_, ra), Digits::Nil) => {
            lemma_canonical_nonzero(a);
        },
        (Digits::Nil, Digits::Cons(_, rb)) => {
            lemma_canonical_nonzero(b);
        },
        _ => {},
    }
}

/// Canonical digits stand for zero only when there are none.
pub proof fn lemma_canonical_nonzero(a: Digits)
    requires
        a.canonical(),
    ensures
        a.value() == 0 <==> a is Nil,
    decreases a,
{
    match a {
        Digits::Cons(_, rest) => {
            lemma_canonical_nonzero(*rest);
        },
        Digits::Nil => {},
    }
}

/// An integer of any size.
#[derive(Debug)]
pub struct Integer {
    pub negative: bool,
    pub magnitude: Digits,
}

impl Integer {
    /// The integer.
    pub open spec fn value(self) -> int {
        if self.negative {
            -(self.magnitude.value() as int)
        } else {
            self.magnitude.value() as int
        }
    }

    /// The integer is written in the one way there is: without leading
    /// zero digits, and zero without a sign.
    pub open spec fn wf(self) -> bool {
        self.magnitude.canonical() && (self.magnitude is Nil ==> !self.negative)
    }

    /// The integer with the given sign and digits, least significant digit
    /// first. Leading zero digits are dropped.
    pub fn from_digits(negative: bool, digits: &Vec<u32>) -> (r: Integer)
        ensures
            r.wf(),
            r.magnitude.value() == digits_value(digits@),
            r.negative == (negative && digits_value(digits@) != 0),
    {
        let mut magnitude = Digits::Nil;
        let mut i: usize = digits.len();
        proof {
            assert(digits@.skip(i as int) =~= Seq::<u32>::empty());
        }
        while i > 0
            invariant
                i <= digits@.len(),
                magnitude.canonical(),
                magnitude.value() == digits_value(digits@.skip(i as int)),
            decreases i,
        {
            i -= 1;
            proof {
                assert(digits@.skip(i as int).skip(1) =~= digits@.skip(i as int + 1));
                lemma_canonical_nonzero(magnitude);
            }
            let empty = match &magnitude {
                Digits::Nil => true,
                _ => false,
            };
            if !(empty && digits[i] == 0) {
                magnitude = Digits::Cons(digits[i], Box::new(magnitude));
            }
        }
        proof {
            assert(digits@.skip(0) =~= digits@);
            lemma_canonical_nonzero(magnitude);
        }
        let zero = match &magnitude {
            Digits::Nil => true,
            _ => false,
        };
        Integer { negative: negative && !zero, magnitude }
    }

    /// The integer of a machine integer.
    pub fn from_i64(v: i64) -> (r: Integer)
        ensures
            r.wf(),
            r.value() == v,
    {
        let negative = v < 0;
        let m: u64 = if v >= 0 {
            v as u64
        } else {
            (-(v + 1)) as u64 + 1
        };
        let low: u32 = (m % 4294967296) as u32;
        let high: u32 = (m / 4294967296) as u32;
        let magnitude = if high != 0 {
            Digits::Cons(low, Box::new(Digits::Cons(high, Box::new(Digits::Nil))))
        } else if low != 0 {
            Digits::Cons(low, Box::new(Digits::Nil))
        } else {
            Digits::Nil
        };
        proof {
            reveal_with_fuel(Digits::value, 3);
            reveal_with_fuel(Digits::canonical, 3);
        }
        Integer { negative, magnitude }
    }

    pub fn duplicate(&self) -> (r: Integer)
        ensures
            r == *self,
    {
        Integer { negative: self.negative, magnitude: self.magnitude.duplicate() }
    }

    /// Whether the two are written alike. For well-formed integers that is
    /// whether they are the same integer.
    pub fn equals(&self, other: &Integer) -> (r: bool)
        ensures
            r == (*self == *other),
    {
        self.negative == other.negative && self.magnitude.equals(&other.magnitude)
    }

    /// How `self` stands to `other`.
    pub fn relate(&self, other: &Integer) -> (r: Relation)
        ensures
            r == relation(self.value(), other.value()),
    {
        let magnitudes = self.magnitude.relate(&other.magnitude);
        let self_zero = self.magnitude.zero();
        let other_zero = other.magnitude.zero();
        match (self.negative && !self_zero, other.negative && !other_zero) {
            (false, false) => magnitudes,
            (true, true) => match magnitudes {
                Relation::Below => Relation::Above,
                Relation::Same => Relation::Same,
                Relation::Above => Relation::Below,
            },
            (true, false) => Relation::Below,
            (false, true) => Relation::Above,
        }
    }

    /// Whether `self` is at most `other`.
    pub fn le(&self, other: &Integer) -> (r: bool)
        ensures
            r == (self.value() <= other.value()),
    {
        match self.relate(other) {
            Relation::Above => false,
            _ => true,
        }
    }
}

/// Well-formed integers of the same value are the same.
pub proof fn lemma_integers_agree(a: Integer, b: Integer)
    requires
        a.wf(),
        b.wf(),
        a.value() == b.value(),
    ensures
        a == b,
{
    lemma_canonical_nonzero(a.magnitude);
    lemma_canonical_nonzero(b.magnitude);
    lemma_canonical_digits_agree(a.magnitude, b.magnitude);
}

} // verus!
