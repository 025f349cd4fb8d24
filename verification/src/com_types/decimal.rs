//! The high-precision decimal value and its packed wire layout.

use vstd::prelude::*;

verus! {

/// The sign byte that marks a negative packed decimal.
pub const DECIMAL_NEG: u8 = 0x80;

/// A fixed-point decimal: a sign, a scale (number of fractional digits,
/// 0 to 28 in well-formed values), and a 96-bit unsigned mantissa held as
/// three 32-bit limbs.  The represented number is
/// `(-1)^negative * mantissa / 10^scale`.
///
/// Equality is raw field equality, never numeric equality: two values that
/// denote the same number at different scales are distinct.
#[derive(Clone, Copy, Debug, PartialEq, Eq, Structural)]
pub struct Decimal {
    pub negative: bool,
    pub scale: u8,
    pub lo: u32,
    pub mid: u32,
    pub hi: u32,
}

/// The packed wire layout of a decimal: a scale byte, a sign byte, a 32-bit
/// high word and a 64-bit low word holding the bottom two mantissa limbs.
#[derive(Clone, Copy, Debug, PartialEq, Eq, Structural)]
pub struct ComDecimal {
    pub scale: u8,
    pub sign: u8,
    pub hi32: u32,
    pub lo64: u64,
}

impl Decimal {
    /// The mantissa magnitude denoted by the three limbs.
    pub open spec fn mantissa(self) -> int {
        self.lo + self.mid * 0x1_0000_0000 + self.hi * 0x1_0000_0000_0000_0000
    }

    /// The signed mantissa: the mantissa magnitude under the sign.
    pub open spec fn signed_mantissa(self) -> int {
        if self.negative {
            -self.mantissa()
        } else {
            self.mantissa()
        }
    }

    /// A well-formed decimal keeps its scale within 28 fractional digits.
    pub open spec fn wf(self) -> bool {
        self.scale <= 28
    }

    /// The decimal with the given limbs, as a value.
    pub fn new(negative: bool, scale: u8, lo: u32, mid: u32, hi: u32) -> (d: Decimal)
        ensures
            d == (Decimal { negative, scale, lo, mid, hi }),
    {
        Decimal { negative, scale, lo, mid, hi }
    }

    /// The mantissa magnitude, as a 128-bit integer.
    pub fn mantissa_u128(&self) -> (m: u128)
        ensures
            m == self.mantissa(),
            m < 0x1_0000_0000_0000_0000_0000_0000u128,
    {
        (self.lo as u128) + (self.mid as u128) * 0x1_0000_0000u128 + (self.hi as u128)
            * 0x1_0000_0000_0000_0000u128
    }
}

/// What packing a decimal into the wire layout yields: the scale byte is
/// copied, the sign byte is canonical, and the low two limbs are joined into
/// the 64-bit low word.
pub open spec fn pack_spec(d: Decimal) -> ComDecimal {
    ComDecimal {
        scale: d.scale,
        sign: if d.negative {
            DECIMAL_NEG
        } else {
            0
        },
        hi32: d.hi,
        lo64: (d.mid * 0x1_0000_0000 + d.lo) as u64,
    }
}

/// What unpacking the wire layout yields: only the exact sign byte
/// `DECIMAL_NEG` marks a negative value, and the 64-bit low word is split
/// back into the two low limbs.
pub open spec fn unpack_spec(c: ComDecimal) -> Decimal {
    Decimal {
        negative: c.sign == DECIMAL_NEG,
        scale: c.scale,
        lo: (c.lo64 % 0x1_0000_0000) as u32,
        mid: (c.lo64 / 0x1_0000_0000) as u32,
        hi: c.hi32,
    }
}

impl ComDecimal {
    /// Packs a decimal value into the wire layout.
    pub fn pack(d: &Decimal) -> (c: ComDecimal)
        ensures
            c == pack_spec(*d),
    {
        ComDecimal {
            scale: d.scale,
            sign: if d.negative {
                DECIMAL_NEG
            } else {
                0
            },
            hi32: d.hi,
            lo64: (d.mid as u64) * 0x1_0000_0000u64 + (d.lo as u64),
        }
    }

    /// Unpacks the wire layout into a decimal value.
    pub fn unpack(&self) -> (d: Decimal)
        ensures
            d == unpack_spec(*self),
    {
        Decimal {
            negative: self.sign == DECIMAL_NEG,
            scale: self.scale,
            lo: (self.lo64 % 0x1_0000_0000u64) as u32,
            mid: (self.lo64 / 0x1_0000_0000u64) as u32,
            hi: self.hi32,
        }
    }

    /// The all-zero wire decimal, as read out of a zero-initialized wire
    /// value.
    pub fn zeroed() -> (c: ComDecimal)
        ensures
            c == (ComDecimal { scale: 0, sign: 0, hi32: 0, lo64: 0 }),
    {
        ComDecimal { scale: 0, sign: 0, hi32: 0, lo64: 0 }
    }
}

/// Packing then unpacking reproduces the decimal exactly, sign, scale and
/// all three mantissa limbs included.
pub proof fn lemma_pack_unpack(d: Decimal)
    ensures
        unpack_spec(pack_spec(d)) == d,
{
    let j: int = d.mid * 0x1_0000_0000 + d.lo;
    assert(0 <= j < 0x1_0000_0000_0000_0000);
    assert(j % 0x1_0000_0000 == d.lo && j / 0x1_0000_0000 == d.mid) by (nonlinear_arith)
        requires
            j == d.mid * 0x1_0000_0000 + d.lo,
            0 <= d.lo < 0x1_0000_0000,
            0 <= d.mid < 0x1_0000_0000,
    ;
}

/// Unpacking then packing reproduces the wire bytes exactly whenever the
/// sign byte is canonical (zero or `DECIMAL_NEG`).
pub proof fn lemma_unpack_pack(c: ComDecimal)
    requires
        c.sign == 0 || c.sign == DECIMAL_NEG,
    ensures
        pack_spec(unpack_spec(c)) == c,
{
    let lo: int = (c.lo64 as int) % 0x1_0000_0000;
    let mid: int = (c.lo64 as int) / 0x1_0000_0000;
    assert(mid * 0x1_0000_0000 + lo == c.lo64) by (nonlinear_arith)
        requires
            lo == c.lo64 % 0x1_0000_0000,
            mid == c.lo64 / 0x1_0000_0000,
    ;
}

} // verus!
