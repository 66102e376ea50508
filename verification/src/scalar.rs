//! Scalar arithmetic, comparison and parsing for cell values.
//!
//! Floating-point cells are carried as IEEE 754 binary64 bit patterns; the
//! operations on them are performed by the `rustc_apfloat` software float
//! library behind the trusted functions below, and named at the spec level
//! by uninterpreted functions.

use vstd::prelude::*;

use crate::types::ErrorKind;
use crate::types::InnerType;
use crate::types::InnerVal;

use rustc_apfloat::Float;

verus! {

/// The bit pattern of the IEEE 754 binary64 sum of the doubles `a` and `b`
/// (both as bit patterns), rounded to nearest, ties to even.
pub uninterp spec fn add_bits(a: u64, b: u64) -> u64;

/// The bit pattern of the binary64 difference `a - b`.
pub uninterp spec fn sub_bits(a: u64, b: u64) -> u64;

/// The bit pattern of the binary64 product `a * b`.
pub uninterp spec fn mul_bits(a: u64, b: u64) -> u64;

/// The bit pattern of the binary64 quotient `a / b`.
pub uninterp spec fn div_bits(a: u64, b: u64) -> u64;

/// Whether the double with bit pattern `a` is strictly below the double with
/// bit pattern `b` in the IEEE partial order (false when either is NaN).
pub uninterp spec fn lt_bits(a: u64, b: u64) -> bool;

/// The bit pattern of the binary64 value nearest to the integer `n`.
pub uninterp spec fn float_of_u64(n: u64) -> u64;

/// The bit pattern of the binary64 value parsed from decimal text, or `None`
/// when the text is not a recognized floating-point notation.
pub uninterp spec fn parse_float_bits(s: Seq<char>) -> Option<u64>;

/// The 64-bit integer parsed from decimal text, or `None` when the text is
/// not an optionally signed decimal integer in range.
pub uninterp spec fn parse_i64_str(s: Seq<char>) -> Option<i64>;

/// The 32-bit integer parsed from decimal text, or `None` when the text is
/// not an optionally signed decimal integer in range.
pub uninterp spec fn parse_i32_str(s: Seq<char>) -> Option<i32>;

/// Relies on rustc_apfloat's binary64 addition (`IeeeFloat::add_r`, round to
/// nearest, ties to even), on bit patterns.
#[verifier::external_body]
pub(crate) fn f64_add(a: u64, b: u64) -> (r: u64)
    ensures
        r == add_bits(a, b),
{
    let x = rustc_apfloat::ieee::Double::from_bits(a as u128);
    let y = rustc_apfloat::ieee::Double::from_bits(b as u128);
    (x + y).value.to_bits() as u64
}

/// Relies on rustc_apfloat's binary64 subtraction (`IeeeFloat::sub_r`, round
/// to nearest, ties to even), on bit patterns.
#[verifier::external_body]
pub(crate) fn f64_sub(a: u64, b: u64) -> (r: u64)
    ensures
        r == sub_bits(a, b),
{
    let x = rustc_apfloat::ieee::Double::from_bits(a as u128);
    let y = rustc_apfloat::ieee::Double::from_bits(b as u128);
    (x - y).value.to_bits() as u64
}

/// Relies on rustc_apfloat's binary64 multiplication (`IeeeFloat::mul_r`,
/// round to nearest, ties to even), on bit patterns.
#[verifier::external_body]
pub(crate) fn f64_mul(a: u64, b: u64) -> (r: u64)
    ensures
        r == mul_bits(a, b),
{
    let x = rustc_apfloat::ieee::Double::from_bits(a as u128);
    let y = rustc_apfloat::ieee::Double::from_bits(b as u128);
    (x * y).value.to_bits() as u64
}

/// Relies on rustc_apfloat's binary64 division (`IeeeFloat::div_r`, round to
/// nearest, ties to even), on bit patterns.
#[verifier::external_body]
pub(crate) fn f64_div(a: u64, b: u64) -> (r: u64)
    ensures
        r == div_bits(a, b),
{
    let x = rustc_apfloat::ieee::Double::from_bits(a as u128);
    let y = rustc_apfloat::ieee::Double::from_bits(b as u128);
    (x / y).value.to_bits() as u64
}

/// Relies on rustc_apfloat's IEEE partial order on binary64
/// (`PartialOrd for IeeeFloat`; NaN compares unordered).
#[verifier::external_body]
pub(crate) fn f64_lt(a: u64, b: u64) -> (r: bool)
    ensures
        r == lt_bits(a, b),
{
    rustc_apfloat::ieee::Double::from_bits(a as u128)
        < rustc_apfloat::ieee::Double::from_bits(b as u128)
}

/// Relies on rustc_apfloat's integer-to-binary64 conversion
/// (`IeeeFloat::from_u128_r`, round to nearest, ties to even).
#[verifier::external_body]
pub(crate) fn f64_of_usize(n: usize) -> (r: u64)
    ensures
        r == float_of_u64(n as u64),
{
    let x = rustc_apfloat::ieee::Double::from_u128(n as u128);
    x.value.to_bits() as u64
}

/// Relies on rustc_apfloat's correctly rounded text-to-binary64 parse
/// (`IeeeFloat::from_str_r`, round to nearest, ties to even).
#[verifier::external_body]
pub(crate) fn f64_parse(s: &str) -> (r: Option<u64>)
    ensures
        r == parse_float_bits(s@),
{
    match s.parse::<rustc_apfloat::ieee::Double>() {
        Ok(v) => Some(v.to_bits() as u64),
        Err(_) => None,
    }
}

/// Relies on std's `impl FromStr for i64`: parses an optionally signed
/// decimal integer, failing on any other text or on overflow.
#[verifier::external_body]
pub(crate) fn i64_parse(s: &str) -> (r: Option<i64>)
    ensures
        r == parse_i64_str(s@),
{
    s.parse::<i64>().ok()
}

/// Relies on std's `impl FromStr for i32`: parses an optionally signed
/// decimal integer, failing on any other text or on overflow.
#[verifier::external_body]
pub(crate) fn i32_parse(s: &str) -> (r: Option<i32>)
    ensures
        r == parse_i32_str(s@),
{
    s.parse::<i32>().ok()
}

/// Addition of two cell values. Floats add by IEEE arithmetic; integers add
/// exactly, yielding `Empty` on overflow; any other combination of kinds has
/// no sum and yields `Empty`.
pub open spec fn add_val(a: InnerVal, b: InnerVal) -> InnerVal {
    match (a, b) {
        (InnerVal::Float(x), InnerVal::Float(y)) => InnerVal::Float(add_bits(x, y)),
        (InnerVal::Int64(x), InnerVal::Int64(y)) => if x + y > i64::MAX || x + y < i64::MIN {
            InnerVal::Empty
        } else {
            InnerVal::Int64((x + y) as i64)
        },
        (InnerVal::Int32(x), InnerVal::Int32(y)) => if x + y > i32::MAX || x + y < i32::MIN {
            InnerVal::Empty
        } else {
            InnerVal::Int32((x + y) as i32)
        },
        _ => InnerVal::Empty,
    }
}

/// Subtraction of two cell values, under the same kind rules as `add_val`.
pub open spec fn sub_val(a: InnerVal, b: InnerVal) -> InnerVal {
    match (a, b) {
        (InnerVal::Float(x), InnerVal::Float(y)) => InnerVal::Float(sub_bits(x, y)),
        (InnerVal::Int64(x), InnerVal::Int64(y)) => if x - y > i64::MAX || x - y < i64::MIN {
            InnerVal::Empty
        } else {
            InnerVal::Int64((x - y) as i64)
        },
        (InnerVal::Int32(x), InnerVal::Int32(y)) => if x - y > i32::MAX || x - y < i32::MIN {
            InnerVal::Empty
        } else {
            InnerVal::Int32((x - y) as i32)
        },
        _ => InnerVal::Empty,
    }
}

/// Multiplication of two cell values, under the same kind rules as `add_val`.
pub open spec fn mul_val(a: InnerVal, b: InnerVal) -> InnerVal {
    match (a, b) {
        (InnerVal::Float(x), InnerVal::Float(y)) => InnerVal::Float(mul_bits(x, y)),
        (InnerVal::Int64(x), InnerVal::Int64(y)) => if x * y > i64::MAX || x * y < i64::MIN {
            InnerVal::Empty
        } else {
            InnerVal::Int64((x * y) as i64)
        },
        (InnerVal::Int32(x), InnerVal::Int32(y)) => if x * y > i32::MAX || x * y < i32::MIN {
            InnerVal::Empty
        } else {
            InnerVal::Int32((x * y) as i32)
        },
        _ => InnerVal::Empty,
    }
}

/// Division of two cell values. Floats divide by IEEE arithmetic; integers
/// divide truncating toward zero, yielding `Empty` on a zero divisor or on
/// overflow; any other combination of kinds yields `Empty`.
pub open spec fn div_val(a: InnerVal, b: InnerVal) -> InnerVal {
    match (a, b) {
        (InnerVal::Float(x), InnerVal::Float(y)) => InnerVal::Float(div_bits(x, y)),
        (InnerVal::Int64(x), InnerVal::Int64(y)) => match x.checked_div(y) {
            Some(z) => InnerVal::Int64(z),
            None => InnerVal::Empty,
        },
        (InnerVal::Int32(x), InnerVal::Int32(y)) => match x.checked_div(y) {
            Some(z) => InnerVal::Int32(z),
            None => InnerVal::Empty,
        },
        _ => InnerVal::Empty,
    }
}

/// Whether cell value `a` is strictly greater than `b`: floats by the IEEE
/// order, integers by their order; values of different kinds, text and
/// `Empty` are never greater than anything.
pub open spec fn gt_val(a: InnerVal, b: InnerVal) -> bool {
    match (a, b) {
        (InnerVal::Float(x), InnerVal::Float(y)) => lt_bits(y, x),
        (InnerVal::Int64(x), InnerVal::Int64(y)) => x > y,
        (InnerVal::Int32(x), InnerVal::Int32(y)) => x > y,
        _ => false,
    }
}

/// The cell value parsed from text: the first success among floating-point,
/// 64-bit integer and 32-bit integer notation wins, and any remaining text
/// is kept as a text cell.
pub open spec fn parse_cell(s: Seq<char>) -> InnerVal {
    match parse_float_bits(s) {
        Some(b) => InnerVal::Float(b),
        None => match parse_i64_str(s) {
            Some(x) => InnerVal::Int64(x),
            None => match parse_i32_str(s) {
                Some(x) => InnerVal::Int32(x),
                None => InnerVal::Str(s),
            },
        },
    }
}

impl InnerType {
    /// Parse a cell value from text, attempting in order: floating point,
    /// 64-bit integer, 32-bit integer, raw text. The raw-text fallback always
    /// succeeds, so every input yields a value.
    pub fn from_str(s: &str) -> (r: Result<InnerType, ErrorKind>)
        ensures
            r matches Ok(v) && v@ == parse_cell(s@),
    {
        match f64_parse(s) {
            Some(b) => Ok(InnerType::Float(b)),
            None => match i64_parse(s) {
                Some(x) => Ok(InnerType::Int64(x)),
                None => match i32_parse(s) {
                    Some(x) => Ok(InnerType::Int32(x)),
                    None => Ok(InnerType::Str(s.to_owned())),
                },
            },
        }
    }

    /// Strict greater-than test between two cell values.
    pub fn gt(&self, other: &InnerType) -> (r: bool)
        ensures
            r == gt_val(self@, other@),
    {
        match (self, other) {
            (InnerType::Float(x), InnerType::Float(y)) => f64_lt(*y, *x),
            (InnerType::Int64(x), InnerType::Int64(y)) => *x > *y,
            (InnerType::Int32(x), InnerType::Int32(y)) => *x > *y,
            _ => false,
        }
    }
}

} // verus!
