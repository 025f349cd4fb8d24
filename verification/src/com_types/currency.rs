//! The scaled-integer currency value and its codec.

use vstd::prelude::*;

use crate::com_types::decimal::Decimal;

verus! {

/// The wire form of a currency value: the mantissa of the amount scaled to
/// exactly four fractional digits, stored as a 64-bit signed integer.
#[derive(Clone, Copy, Debug, PartialEq, Eq, Structural)]
pub struct ComCurrency(pub i64);

/// A currency amount, held as a [`Decimal`] on the host side.
#[derive(Clone, Copy, Debug, PartialEq, Eq, Structural)]
pub struct Currency(pub Decimal);

/// `10^k`.
pub open spec fn pow10(k: nat) -> int
    decreases k,
{
    if k == 0 {
        1
    } else {
        10 * pow10((k - 1) as nat)
    }
}

/// The mantissa magnitude of `d` rescaled to exactly four fractional
/// digits, truncating (never rounding) any finer precision.
pub open spec fn rescaled4_mag(d: Decimal) -> int {
    if d.scale >= 4 {
        d.mantissa() / pow10((d.scale - 4) as nat)
    } else {
        d.mantissa() * pow10((4 - d.scale) as nat)
    }
}

/// The 64-bit two's-complement wrap of an integer.
pub open spec fn wrap_i64(x: int) -> int {
    let m: int = x % 0x1_0000_0000_0000_0000;
    if m >= 0x8000_0000_0000_0000 {
        m - 0x1_0000_0000_0000_0000
    } else {
        m
    }
}

/// The wire value of a decimal taken as a currency amount: the signed
/// mantissa rescaled to four fractional digits by truncation, wrapped into
/// 64 bits.
pub open spec fn currency_of_decimal(d: Decimal) -> int {
    wrap_i64(
        if d.negative {
            -rescaled4_mag(d)
        } else {
            rescaled4_mag(d)
        },
    )
}

/// The magnitude of a wire currency value.
pub open spec fn abs_i64(v: i64) -> int {
    if v < 0 {
        -(v as int)
    } else {
        v as int
    }
}

/// The decimal denoted by a wire currency value: the 64-bit mantissa at
/// scale 4 under the sign of the wire value.
pub open spec fn decimal_of_currency(v: i64) -> Decimal {
    Decimal {
        negative: v < 0,
        scale: 4,
        lo: (abs_i64(v) % 0x1_0000_0000) as u32,
        mid: (abs_i64(v) / 0x1_0000_0000) as u32,
        hi: 0,
    }
}

/// `10^k` for `k <= 38`, which is the largest power of ten a `u128` holds.
pub fn pow10_u128(k: u8) -> (p: u128)
    requires
        k <= 38,
    ensures
        p == pow10(k as nat),
        p >= 1,
    decreases k,
{
    if k == 0 {
        1
    } else {
        proof {
            lemma_pow10_positive((k - 1) as nat);
            lemma_pow10_increases((k - 1) as nat, 37nat);
            assert(pow10(37nat) == 10_000_000_000_000_000_000_000_000_000_000_000_000) by {
                reveal_with_fuel(pow10, 39);
            }
        }
        10 * pow10_u128(k - 1)
    }
}

/// `10^38` written out.
proof fn lemma_pow10_38()
    ensures
        pow10(38nat) == 100_000_000_000_000_000_000_000_000_000_000_000_000,
{
    reveal_with_fuel(pow10, 40);
}

/// `10^29` written out.
proof fn lemma_pow10_29()
    ensures
        pow10(29nat) == 100_000_000_000_000_000_000_000_000_000,
{
    reveal_with_fuel(pow10, 31);
}

/// `10^k` stays under `2^127` for every `k` up to 38.
proof fn lemma_pow10_bound(k: nat)
    requires
        k <= 38,
    ensures
        1 <= pow10(k) < 0x8000_0000_0000_0000_0000_0000_0000_0000,
{
    lemma_pow10_positive(k);
    lemma_pow10_increases(k, 38nat);
    lemma_pow10_38();
}

/// `10^j <= 10^k` whenever `j <= k`.
proof fn lemma_pow10_increases(j: nat, k: nat)
    requires
        j <= k,
    ensures
        pow10(j) <= pow10(k),
    decreases k,
{
    if j < k {
        lemma_pow10_increases(j, (k - 1) as nat);
        lemma_pow10_positive((k - 1) as nat);
        assert(pow10(k) == 10 * pow10((k - 1) as nat));
    }
}

/// `10^k` is positive.
proof fn lemma_pow10_positive(k: nat)
    ensures
        pow10(k) >= 1,
    decreases k,
{
    if k > 0 {
        lemma_pow10_positive((k - 1) as nat);
    }
}

impl ComCurrency {
    /// Encodes a decimal as a wire currency value: rescales to exactly four
    /// fractional digits, truncating finer precision, and wraps the signed
    /// mantissa into 64 bits.
    pub fn from_decimal(d: &Decimal) -> (c: ComCurrency)
        ensures
            c.0 == currency_of_decimal(*d),
    {
        let m: u128 = d.mantissa_u128();
        let mag: u128 = if d.scale >= 4 {
            let k: u8 = d.scale - 4;
            if k >= 29 {
                proof {
                    lemma_pow10_increases(29nat, k as nat);
                    lemma_pow10_29();
                    vstd::arithmetic::div_mod::lemma_basic_div(d.mantissa(), pow10(k as nat));
                }
                0
            } else {
                proof {
                    lemma_pow10_bound(k as nat);
                }
                m / pow10_u128(k)
            }
        } else {
            let k: u8 = 4 - d.scale;
            proof {
                lemma_pow10_positive(k as nat);
                lemma_pow10_increases(k as nat, 4nat);
                assert(pow10(4nat) == 10000) by {
                    reveal_with_fuel(pow10, 6);
                }
                assert(m * pow10(k as nat) <= m * 10000 < 0x1_0000_0000_0000_0000_0000_0000_0000_0000)
                    by (nonlinear_arith)
                    requires
                        m < 0x1_0000_0000_0000_0000_0000_0000u128,
                        1 <= pow10(k as nat) <= 10000,
                ;
            }
            m * pow10_u128(k)
        };
        proof {
            assert(mag == rescaled4_mag(*d));
        }
        let low: u64 = (mag % 0x1_0000_0000_0000_0000u128) as u64;
        let bits: u64 = if d.negative {
            if low == 0 {
                0u64
            } else {
                (0xFFFF_FFFF_FFFF_FFFFu64 - low) + 1u64
            }
        } else {
            low
        };
        proof {
            lemma_wrap_bits(rescaled4_mag(*d), d.negative, bits);
        }
        ComCurrency(u64_bits_to_i64(bits))
    }
}

/// Reinterprets 64 bits as a two's-complement signed integer.
fn u64_bits_to_i64(b: u64) -> (r: i64)
    ensures
        r as int == if b < 0x8000_0000_0000_0000 {
            b as int
        } else {
            b - 0x1_0000_0000_0000_0000
        },
{
    if b < 0x8000_0000_0000_0000u64 {
        b as i64
    } else if b == 0x8000_0000_0000_0000u64 {
        i64::MIN
    } else {
        let t: u64 = (0xFFFF_FFFF_FFFF_FFFFu64 - b) + 1;
        -(t as i64)
    }
}

/// Relates the unsigned bit pattern computed by the currency encoder to the
/// two's-complement wrap of the signed rescaled mantissa.
proof fn lemma_wrap_bits(mag: int, negative: bool, bits: u64)
    requires
        mag >= 0,
        ({
            let low: int = mag % 0x1_0000_0000_0000_0000;
            bits == if negative {
                if low == 0 {
                    0
                } else {
                    0x1_0000_0000_0000_0000 - low
                }
            } else {
                low
            }
        }),
    ensures
        wrap_i64(
            if negative {
                -mag
            } else {
                mag
            },
        ) == if bits >= 0x8000_0000_0000_0000 {
            bits - 0x1_0000_0000_0000_0000
        } else {
            bits as int
        },
{
    let n: int = 0x1_0000_0000_0000_0000;
    let low: int = mag % n;
    if negative {
        vstd::arithmetic::div_mod::lemma_fundamental_div_mod(mag, n);
        let q: int = mag / n;
        if low == 0 {
            assert(-mag == (-q) * n) by (nonlinear_arith)
                requires
                    mag == n * q + low,
                    low == 0,
                    n == 0x1_0000_0000_0000_0000,
            ;
            assert((-mag) % n == 0) by {
                vstd::arithmetic::div_mod::lemma_mod_multiples_basic(-q, n);
            }
        } else {
            assert(-mag == (-q - 1) * n + (n - low)) by (nonlinear_arith)
                requires
                    mag == n * q + low,
                    n == 0x1_0000_0000_0000_0000,
            ;
            assert((-mag) % n == n - low) by {
                vstd::arithmetic::div_mod::lemma_mod_multiples_vanish(-q - 1, n - low, n);
            }
        }
    }
}

/// A currency-canonical decimal: already at exactly four fractional
/// digits, with a mantissa the 64-bit wire slot holds exactly and no
/// negative zero.  These are precisely the currency values an encode
/// then decode reproduces verbatim; on any finer value the fifth digit
/// onward is truncated by design.
pub open spec fn currency_canonical(d: Decimal) -> bool {
    &&& d.scale == 4
    &&& d.mantissa() < 0x8000_0000_0000_0000
    &&& (d.mantissa() == 0 ==> !d.negative)
}

/// The 64-bit wrap leaves a value already in the signed 64-bit range
/// unchanged.
proof fn lemma_wrap_identity(x: int)
    requires
        -0x8000_0000_0000_0000 <= x < 0x8000_0000_0000_0000,
    ensures
        wrap_i64(x) == x,
{
    let n: int = 0x1_0000_0000_0000_0000;
    if x >= 0 {
        vstd::arithmetic::div_mod::lemma_small_mod(x as nat, n as nat);
    } else {
        assert(x == n * (-1) + (x + n));
        vstd::arithmetic::div_mod::lemma_mod_multiples_vanish(-1, x + n, n);
        vstd::arithmetic::div_mod::lemma_small_mod((x + n) as nat, n as nat);
    }
}

/// The rescaled mantissa magnitude is never negative.
proof fn lemma_rescaled_nonneg(d: Decimal)
    ensures
        rescaled4_mag(d) >= 0,
{
    if d.scale >= 4 {
        lemma_pow10_positive((d.scale - 4) as nat);
        vstd::arithmetic::div_mod::lemma_div_pos_is_pos(
            d.mantissa(),
            pow10((d.scale - 4) as nat),
        );
    } else {
        lemma_pow10_positive((4 - d.scale) as nat);
        assert(d.mantissa() * pow10((4 - d.scale) as nat) >= 0) by (nonlinear_arith)
            requires
                d.mantissa() >= 0,
                pow10((4 - d.scale) as nat) >= 1,
        ;
    }
}

/// Splitting a 64-bit magnitude into two 32-bit limbs and rejoining them
/// loses nothing.
proof fn lemma_split_u64_parts(m: int)
    requires
        0 <= m < 0x1_0000_0000_0000_0000,
    ensures
        0 <= m % 0x1_0000_0000 < 0x1_0000_0000,
        0 <= m / 0x1_0000_0000 < 0x1_0000_0000,
        (m % 0x1_0000_0000) + (m / 0x1_0000_0000) * 0x1_0000_0000 == m,
{
    vstd::arithmetic::div_mod::lemma_fundamental_div_mod(m, 0x1_0000_0000);
    vstd::arithmetic::div_mod::lemma_div_pos_is_pos(m, 0x1_0000_0000);
    vstd::arithmetic::div_mod::lemma_multiply_divide_lt(m, 0x1_0000_0000, 0x1_0000_0000);
}

/// The truncation law of the currency codec: decoding an encoded
/// currency amount yields the amount at scale 4, with every digit past
/// the fourth discarded and the sign dropped on a zero result.
pub proof fn lemma_currency_truncates(d: Decimal)
    requires
        rescaled4_mag(d) < 0x8000_0000_0000_0000,
    ensures
        ({
            let r = decimal_of_currency(currency_of_decimal(d) as i64);
            &&& r.scale == 4
            &&& r.mantissa() == rescaled4_mag(d)
            &&& r.negative == (d.negative && rescaled4_mag(d) != 0)
            &&& r.hi == 0
        }),
{
    let m: int = rescaled4_mag(d);
    lemma_rescaled_nonneg(d);
    let sv: int = if d.negative {
        -m
    } else {
        m
    };
    lemma_wrap_identity(sv);
    let cy: i64 = currency_of_decimal(d) as i64;
    assert(cy == sv);
    assert(abs_i64(cy) == m);
    lemma_split_u64_parts(m);
    let r = decimal_of_currency(cy);
    assert(r.mantissa() == (m % 0x1_0000_0000) + (m / 0x1_0000_0000) * 0x1_0000_0000);
}

/// The round-trip law of the currency codec: a canonical currency value
/// decodes back to itself, sign, scale and all three limbs included.
pub proof fn lemma_currency_roundtrip(d: Decimal)
    requires
        currency_canonical(d),
    ensures
        decimal_of_currency(currency_of_decimal(d) as i64) == d,
{
    assert(pow10(0nat) == 1);
    vstd::arithmetic::div_mod::lemma_div_basics(d.mantissa());
    assert(rescaled4_mag(d) == d.mantissa());
    lemma_currency_truncates(d);
    let m: int = d.mantissa();
    let r = decimal_of_currency(currency_of_decimal(d) as i64);
    assert(d.hi == 0);
    assert(m == d.lo + d.mid * 0x1_0000_0000);
    assert(m % 0x1_0000_0000 == d.lo && m / 0x1_0000_0000 == d.mid) by (nonlinear_arith)
        requires
            m == d.lo + d.mid * 0x1_0000_0000,
            0 <= d.lo < 0x1_0000_0000,
            0 <= d.mid < 0x1_0000_0000,
    ;
    assert(r == d);
}

impl Currency {
    /// Decodes a wire currency value: the 64-bit mantissa is placed at
    /// scale 4 under the wire value's sign.
    pub fn from_com(cy: ComCurrency) -> (r: Currency)
        ensures
            r.0 == decimal_of_currency(cy.0),
    {
        let v: i64 = cy.0;
        let mag: u64 = if v < 0 {
            if v == i64::MIN {
                0x8000_0000_0000_0000u64
            } else {
                (-v) as u64
            }
        } else {
            v as u64
        };
        proof {
            assert(mag == abs_i64(v));
        }
        Currency(
            Decimal {
                negative: v < 0,
                scale: 4,
                lo: (mag % 0x1_0000_0000u64) as u32,
                mid: (mag / 0x1_0000_0000u64) as u32,
                hi: 0,
            },
        )
    }

    /// The decimal amount.
    pub fn as_ref(&self) -> (d: &Decimal)
        ensures
            d == &self.0,
    {
        &self.0
    }
}

} // verus!
