//! Runtime values: IEEE-754 double-precision numbers carried as their
//! 64-bit encodings.
//!
//! The library never holds a native floating-point number: a `Value`
//! stores the bit pattern, and the four binary operations are
//! performed by the software floating-point routines of
//! `const_soft_float`, each behind one trusted wrapper whose result
//! is given a name. Negation is done here in verified code, since
//! IEEE-754 negation is exactly a flip of the sign bit.

use vstd::prelude::*;

verus! {

/// The sign bit of an IEEE-754 double-precision encoding.
pub const SIGN_BIT: u64 = 0x8000_0000_0000_0000;

/// A runtime number: the 64-bit IEEE-754 encoding of a
/// double-precision value.
#[derive(Clone, Copy, Debug, PartialEq, Eq, Structural)]
pub struct Value(pub u64);

/// The encoding of the IEEE-754 sum of the doubles encoded by `a` and
/// `b`, with round-to-nearest-even.
pub uninterp spec fn add_bits(a: u64, b: u64) -> u64;

/// The encoding of the IEEE-754 difference `a - b` of the doubles
/// encoded by `a` and `b`.
pub uninterp spec fn sub_bits(a: u64, b: u64) -> u64;

/// The encoding of the IEEE-754 product of the doubles encoded by `a`
/// and `b`.
pub uninterp spec fn mul_bits(a: u64, b: u64) -> u64;

/// The encoding of the IEEE-754 quotient `a / b` of the doubles
/// encoded by `a` and `b`; division by zero gives an infinity or NaN
/// encoding, never an error.
pub uninterp spec fn div_bits(a: u64, b: u64) -> u64;

/// The encoding of the negation of the double encoded by `bits`:
/// IEEE-754 negation flips the sign bit and leaves every other bit,
/// NaN payloads included, unchanged.
pub open spec fn neg_bits(bits: u64) -> u64 {
    bits ^ SIGN_BIT
}

/// Relies on `const_soft_float::soft_f64::SoftF64::add`, the
/// software port of the IEEE-754 double addition: the result depends
/// on the two operand encodings alone.
#[verifier::external_body]
fn soft_add(a: u64, b: u64) -> (r: u64)
    ensures
        r == add_bits(a, b),
{
    const_soft_float::soft_f64::SoftF64::from_bits(a)
        .add(const_soft_float::soft_f64::SoftF64::from_bits(b))
        .to_bits()
}

/// Relies on `const_soft_float::soft_f64::SoftF64::sub`, the
/// software port of the IEEE-754 double subtraction: the result
/// depends on the two operand encodings alone.
#[verifier::external_body]
fn soft_sub(a: u64, b: u64) -> (r: u64)
    ensures
        r == sub_bits(a, b),
{
    const_soft_float::soft_f64::SoftF64::from_bits(a)
        .sub(const_soft_float::soft_f64::SoftF64::from_bits(b))
        .to_bits()
}

/// Relies on `const_soft_float::soft_f64::SoftF64::mul`, the
/// software port of the IEEE-754 double multiplication: the result
/// depends on the two operand encodings alone.
#[verifier::external_body]
fn soft_mul(a: u64, b: u64) -> (r: u64)
    ensures
        r == mul_bits(a, b),
{
    const_soft_float::soft_f64::SoftF64::from_bits(a)
        .mul(const_soft_float::soft_f64::SoftF64::from_bits(b))
        .to_bits()
}

/// Relies on `const_soft_float::soft_f64::SoftF64::div`, the
/// software port of the IEEE-754 double division: the result depends
/// on the two operand encodings alone, and division by zero yields an
/// infinity or NaN encoding rather than failing.
#[verifier::external_body]
fn soft_div(a: u64, b: u64) -> (r: u64)
    ensures
        r == div_bits(a, b),
{
    const_soft_float::soft_f64::SoftF64::from_bits(a)
        .div(const_soft_float::soft_f64::SoftF64::from_bits(b))
        .to_bits()
}

impl Value {
    /// The sum of this value and `rhs` under IEEE-754 double
    /// arithmetic.
    pub fn add(self, rhs: Value) -> (r: Value)
        ensures
            r.0 == add_bits(self.0, rhs.0),
    {
        Value(soft_add(self.0, rhs.0))
    }

    /// The difference of this value and `rhs` (`self - rhs`) under
    /// IEEE-754 double arithmetic.
    pub fn sub(self, rhs: Value) -> (r: Value)
        ensures
            r.0 == sub_bits(self.0, rhs.0),
    {
        Value(soft_sub(self.0, rhs.0))
    }

    /// The product of this value and `rhs` under IEEE-754 double
    /// arithmetic.
    pub fn mul(self, rhs: Value) -> (r: Value)
        ensures
            r.0 == mul_bits(self.0, rhs.0),
    {
        Value(soft_mul(self.0, rhs.0))
    }

    /// The quotient of this value and `rhs` (`self / rhs`) under
    /// IEEE-754 double arithmetic; division by zero gives an infinity
    /// or NaN, never an error.
    pub fn div(self, rhs: Value) -> (r: Value)
        ensures
            r.0 == div_bits(self.0, rhs.0),
    {
        Value(soft_div(self.0, rhs.0))
    }

    /// The arithmetic negation of this value: the sign bit flipped,
    /// every other bit unchanged.
    pub fn negate(self) -> (r: Value)
        ensures
            r.0 == neg_bits(self.0),
    {
        Value(self.0 ^ SIGN_BIT)
    }
}

/// Negation is an involution: flipping the sign bit twice gives the
/// original encoding back.
pub proof fn lemma_negate_involution(bits: u64)
    ensures
        neg_bits(neg_bits(bits)) == bits,
{
    assert(bits ^ SIGN_BIT ^ SIGN_BIT == bits) by (bit_vector);
}

} // verus!
