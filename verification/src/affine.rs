use vstd::prelude::*;

verus! {

/// The six coefficients `a, b, c, d, e, f` of the map from pixel `(col, row)`
/// to world `(x, y)`: `x = a * col + b * row + c`, `y = d * col + e * row + f`.
///
/// Each coefficient is held as the bit pattern of a 64-bit IEEE 754 number.
#[derive(Debug, Clone, Copy, PartialEq, Eq, Structural)]
pub struct AffineTransform(pub u64, pub u64, pub u64, pub u64, pub u64, pub u64);

/// The bit pattern of the number opposite to the one with pattern `bits`:
/// the same bits but for the sign bit, the highest.
pub open spec fn spec_negated(bits: u64) -> u64 {
    if bits >= 0x8000_0000_0000_0000 {
        (bits - 0x8000_0000_0000_0000) as u64
    } else {
        (bits + 0x8000_0000_0000_0000) as u64
    }
}

/// The bit pattern of the number opposite to the one with pattern `bits`.
pub fn negated(bits: u64) -> (opposite: u64)
    ensures
        opposite == spec_negated(bits),
{
    if bits >= 0x8000_0000_0000_0000 {
        bits - 0x8000_0000_0000_0000
    } else {
        bits + 0x8000_0000_0000_0000
    }
}

/// Taking the opposite twice gives the number back.
pub proof fn lemma_negated_twice(bits: u64)
    ensures
        spec_negated(spec_negated(bits)) == bits,
{
}

impl AffineTransform {
    pub fn new(a: u64, b: u64, xoff: u64, d: u64, e: u64, yoff: u64) -> (t: Self)
        ensures
            t == AffineTransform(a, b, xoff, d, e, yoff),
    {
        Self(a, b, xoff, d, e, yoff)
    }

    pub fn a(&self) -> (bits: u64)
        ensures
            bits == self.0,
    {
        self.0
    }

    pub fn b(&self) -> (bits: u64)
        ensures
            bits == self.1,
    {
        self.1
    }

    pub fn c(&self) -> (bits: u64)
        ensures
            bits == self.2,
    {
        self.2
    }

    pub fn d(&self) -> (bits: u64)
        ensures
            bits == self.3,
    {
        self.3
    }

    pub fn e(&self) -> (bits: u64)
        ensures
            bits == self.4,
    {
        self.4
    }

    pub fn f(&self) -> (bits: u64)
        ensures
            bits == self.5,
    {
        self.5
    }
}

} // verus!
