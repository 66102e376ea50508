//! Capability contracts for the scalar kinds: what a cell-value kind must
//! support to take part in arithmetic, and what an identifier kind must
//! support to serve as a row/column label.

use vstd::prelude::*;

use crate::scalar::add_val;
use crate::scalar::div_val;
use crate::scalar::mul_val;
use crate::scalar::sub_val;
use crate::types::InnerType;
use crate::types::InnerVal;
use crate::types::OuterType;
use crate::types::OuterVal;

verus! {

/// Capability of carrying an explicit missing-value sentinel, distinct from
/// any numeric zero, together with the test for it.
pub trait Empty: View + Sized {
    /// The model of the sentinel value.
    spec fn empty_spec() -> Self::V;

    /// The missing-value sentinel.
    fn empty() -> (r: Self)
        ensures
            r@ == Self::empty_spec(),
    ;

    /// Whether this value is the missing-value sentinel.
    fn is_empty(&self) -> (r: bool)
        ensures
            r == (self@ == Self::empty_spec()),
    ;
}

/// Numeric capability: a cell-value kind supports addition, subtraction,
/// multiplication and division, an additive and a multiplicative identity,
/// and the missing-value sentinel of [`Empty`].
pub trait Num: Empty {
    /// The model of addition on this kind.
    spec fn add_spec(a: Self::V, b: Self::V) -> Self::V;

    /// The model of subtraction on this kind.
    spec fn sub_spec(a: Self::V, b: Self::V) -> Self::V;

    /// The model of multiplication on this kind.
    spec fn mul_spec(a: Self::V, b: Self::V) -> Self::V;

    /// The model of division on this kind.
    spec fn div_spec(a: Self::V, b: Self::V) -> Self::V;

    /// Addition.
    fn add(self, other: Self) -> (r: Self)
        ensures
            r@ == Self::add_spec(self@, other@),
    ;

    /// Subtraction.
    fn sub(self, other: Self) -> (r: Self)
        ensures
            r@ == Self::sub_spec(self@, other@),
    ;

    /// Multiplication.
    fn mul(self, other: Self) -> (r: Self)
        ensures
            r@ == Self::mul_spec(self@, other@),
    ;

    /// Division.
    fn div(self, other: Self) -> (r: Self)
        ensures
            r@ == Self::div_spec(self@, other@),
    ;

    /// The additive identity.
    fn zero() -> Self;

    /// The multiplicative identity.
    fn one() -> Self;
}

/// Identifier capability: an identifier kind supports equality (it is used
/// as a join key and a selection key), construction from text, and a default
/// value.
pub trait Identifier: View + Sized {
    /// The model of an identifier built from text.
    spec fn from_text_spec(s: Seq<char>) -> Self::V;

    /// Whether two identifiers are the same key.
    fn key_eq(&self, other: &Self) -> (r: bool)
        ensures
            r == (self@ == other@),
    ;

    /// The identifier carrying the given text.
    fn from_text(s: String) -> (r: Self)
        ensures
            r@ == Self::from_text_spec(s@),
    ;

    /// The default identifier.
    fn default_id() -> Self;
}

impl Empty for InnerType {
    open spec fn empty_spec() -> InnerVal {
        InnerVal::Empty
    }

    fn empty() -> (r: Self) {
        InnerType::Empty
    }

    fn is_empty(&self) -> (r: bool) {
        match self {
            InnerType::Empty => true,
            _ => false,
        }
    }
}

/// The bit pattern of the binary64 value `1.0`.
pub const FLOAT_ONE_BITS: u64 = 0x3FF0000000000000;

impl Num for InnerType {
    open spec fn add_spec(a: InnerVal, b: InnerVal) -> InnerVal {
        add_val(a, b)
    }

    open spec fn sub_spec(a: InnerVal, b: InnerVal) -> InnerVal {
        sub_val(a, b)
    }

    open spec fn mul_spec(a: InnerVal, b: InnerVal) -> InnerVal {
        mul_val(a, b)
    }

    open spec fn div_spec(a: InnerVal, b: InnerVal) -> InnerVal {
        div_val(a, b)
    }

    fn add(self, other: Self) -> (r: Self) {
        match (self, other) {
            (InnerType::Float(x), InnerType::Float(y)) => InnerType::Float(
                crate::scalar::f64_add(x, y),
            ),
            (InnerType::Int64(x), InnerType::Int64(y)) => match x.checked_add(y) {
                Some(z) => InnerType::Int64(z),
                None => InnerType::Empty,
            },
            (InnerType::Int32(x), InnerType::Int32(y)) => match x.checked_add(y) {
                Some(z) => InnerType::Int32(z),
                None => InnerType::Empty,
            },
            _ => InnerType::Empty,
        }
    }

    fn sub(self, other: Self) -> (r: Self) {
        match (self, other) {
            (InnerType::Float(x), InnerType::Float(y)) => InnerType::Float(
                crate::scalar::f64_sub(x, y),
            ),
            (InnerType::Int64(x), InnerType::Int64(y)) => match x.checked_sub(y) {
                Some(z) => InnerType::Int64(z),
                None => InnerType::Empty,
            },
            (InnerType::Int32(x), InnerType::Int32(y)) => match x.checked_sub(y) {
                Some(z) => InnerType::Int32(z),
                None => InnerType::Empty,
            },
            _ => InnerType::Empty,
        }
    }

    fn mul(self, other: Self) -> (r: Self) {
        match (self, other) {
            (InnerType::Float(x), InnerType::Float(y)) => InnerType::Float(
                crate::scalar::f64_mul(x, y),
            ),
            (InnerType::Int64(x), InnerType::Int64(y)) => match x.checked_mul(y) {
                Some(z) => InnerType::Int64(z),
                None => InnerType::Empty,
            },
            (InnerType::Int32(x), InnerType::Int32(y)) => match x.checked_mul(y) {
                Some(z) => InnerType::Int32(z),
                None => InnerType::Empty,
            },
            _ => InnerType::Empty,
        }
    }

    fn div(self, other: Self) -> (r: Self) {
        match (self, other) {
            (InnerType::Float(x), InnerType::Float(y)) => InnerType::Float(
                crate::scalar::f64_div(x, y),
            ),
            (InnerType::Int64(x), InnerType::Int64(y)) => match x.checked_div(y) {
                Some(z) => InnerType::Int64(z),
                None => InnerType::Empty,
            },
            (InnerType::Int32(x), InnerType::Int32(y)) => match x.checked_div(y) {
                Some(z) => InnerType::Int32(z),
                None => InnerType::Empty,
            },
            _ => InnerType::Empty,
        }
    }

    fn zero() -> Self {
        InnerType::Float(0)
    }

    fn one() -> Self {
        InnerType::Float(FLOAT_ONE_BITS)
    }
}

impl Empty for OuterType {
    open spec fn empty_spec() -> OuterVal {
        OuterVal::Empty
    }

    fn empty() -> (r: Self) {
        OuterType::Empty
    }

    fn is_empty(&self) -> (r: bool) {
        match self {
            OuterType::Empty => true,
            _ => false,
        }
    }
}

impl Identifier for OuterType {
    open spec fn from_text_spec(s: Seq<char>) -> OuterVal {
        OuterVal::Str(s)
    }

    fn key_eq(&self, other: &Self) -> (r: bool) {
        *self == *other
    }

    fn from_text(s: String) -> (r: Self) {
        OuterType::Str(s)
    }

    fn default_id() -> Self {
        OuterType::Empty
    }
}

} // verus!
