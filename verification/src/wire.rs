//! The platform-agnostic model of the wire value.
//!
//! The native wire value is a fixed-layout tagged union: a 16-bit tag field
//! (base code plus the orthogonal by-reference bit) followed by a payload
//! area.  This model keeps the tag field verbatim and holds the payload as
//! one of the slots a writer can fill: the 8-byte scalar slot (inline
//! numbers, addresses of by-reference data, the date's millisecond count),
//! the packed decimal overlay, the owned length-prefixed UTF-16 text
//! buffer, or an owned interface handle.  A zero-initialized wire value has
//! the `Zeroed` payload, which every scalar reader sees as zero bits.
//!
//! Only the unverified platform boundary maps this model onto the native
//! byte layout; for the date slot it also converts the serial-day double to
//! and from whole milliseconds, rounding half away from zero.

use vstd::prelude::*;

use crate::com_types::decimal::ComDecimal;
use crate::com_types::ptr_wrapper::InterfaceHandle;

verus! {

/// The payload slot of a wire value: what its writer put in the union.
#[derive(Debug, PartialEq)]
pub enum WirePayload {
    /// The all-zero payload of a zero-initialized wire value.
    Zeroed,
    /// The 8-byte scalar slot, as raw bits.  Inline integers and booleans,
    /// the bit patterns of the two float widths, the currency mantissa, the
    /// date's millisecond count, the error code, and the addresses of every
    /// by-reference form all live here.
    Scalar(u64),
    /// The packed decimal overlay.
    Dec(ComDecimal),
    /// The owned, length-prefixed UTF-16 text buffer.
    Text(Vec<u16>),
    /// An owned dispatch-capable interface handle; `None` is a null handle.
    DispatchSlot(Option<InterfaceHandle>),
    /// An owned generic interface handle; `None` is a null handle.
    UnknownSlot(Option<InterfaceHandle>),
}

/// A wire value: the full 16-bit tag field and the payload slot.
#[derive(Debug, PartialEq)]
pub struct WireVariant {
    pub vt: u16,
    pub payload: WirePayload,
}

/// The mathematical value of a payload slot.
pub enum PayloadV {
    Zeroed,
    Scalar(u64),
    Dec(ComDecimal),
    Text(Seq<u16>),
    DispatchSlot(Option<u64>),
    UnknownSlot(Option<u64>),
}

/// The mathematical value of a wire value.
pub struct WireV {
    pub vt: u16,
    pub payload: PayloadV,
}

impl View for WirePayload {
    type V = PayloadV;

    open spec fn view(&self) -> PayloadV {
        match self {
            WirePayload::Zeroed => PayloadV::Zeroed,
            WirePayload::Scalar(b) => PayloadV::Scalar(*b),
            WirePayload::Dec(d) => PayloadV::Dec(*d),
            WirePayload::Text(t) => PayloadV::Text(t@),
            WirePayload::DispatchSlot(h) => PayloadV::DispatchSlot(
                match h {
                    Some(x) => Some(x.addr_spec()),
                    None => None,
                },
            ),
            WirePayload::UnknownSlot(h) => PayloadV::UnknownSlot(
                match h {
                    Some(x) => Some(x.addr_spec()),
                    None => None,
                },
            ),
        }
    }
}

impl View for WireVariant {
    type V = WireV;

    open spec fn view(&self) -> WireV {
        WireV { vt: self.vt, payload: self.payload@ }
    }
}

/// The bits a scalar reader sees in a payload slot: the scalar slot's own
/// bits, all zeros in a zero-initialized wire value, and nothing in a slot
/// holding an owned resource.
pub open spec fn scalar_of(p: PayloadV) -> Option<u64> {
    match p {
        PayloadV::Zeroed => Some(0),
        PayloadV::Scalar(b) => Some(b),
        _ => None,
    }
}

/// The signed 64-bit value whose two's-complement pattern is `b`.
pub open spec fn i64_of_bits(b: u64) -> i64 {
    (if b < 0x8000_0000_0000_0000 {
        b as int
    } else {
        b - 0x1_0000_0000_0000_0000
    }) as i64
}

/// The signed 32-bit value in the low bits of the scalar slot.
pub open spec fn i32_of_bits(b: u64) -> i32 {
    let v: int = (b as int) % 0x1_0000_0000;
    (if v < 0x8000_0000 {
        v
    } else {
        v - 0x1_0000_0000
    }) as i32
}

/// The signed 16-bit value in the low bits of the scalar slot.
pub open spec fn i16_of_bits(b: u64) -> i16 {
    let v: int = (b as int) % 0x1_0000;
    (if v < 0x8000 {
        v
    } else {
        v - 0x1_0000
    }) as i16
}

/// The signed 8-bit value in the low bits of the scalar slot.
pub open spec fn i8_of_bits(b: u64) -> i8 {
    let v: int = (b as int) % 0x100;
    (if v < 0x80 {
        v
    } else {
        v - 0x100
    }) as i8
}

/// The unsigned 32-bit value in the low bits of the scalar slot.
pub open spec fn u32_of_bits(b: u64) -> u32 {
    ((b as int) % 0x1_0000_0000) as u32
}

/// The unsigned 16-bit value in the low bits of the scalar slot.
pub open spec fn u16_of_bits(b: u64) -> u16 {
    ((b as int) % 0x1_0000) as u16
}

/// The unsigned 8-bit value in the low bits of the scalar slot.
pub open spec fn u8_of_bits(b: u64) -> u8 {
    ((b as int) % 0x100) as u8
}

/// The scalar slot a signed 64-bit value is stored as: its
/// two's-complement pattern.
pub open spec fn bits_of_i64(v: i64) -> u64 {
    (if v >= 0 {
        v as int
    } else {
        v + 0x1_0000_0000_0000_0000
    }) as u64
}

/// The scalar slot a signed 32-bit value is stored as: its
/// two's-complement pattern in the low bits, the rest zero.
pub open spec fn bits_of_i32(v: i32) -> u64 {
    (if v >= 0 {
        v as int
    } else {
        v + 0x1_0000_0000
    }) as u64
}

/// The scalar slot a signed 16-bit value is stored as.
pub open spec fn bits_of_i16(v: i16) -> u64 {
    (if v >= 0 {
        v as int
    } else {
        v + 0x1_0000
    }) as u64
}

/// The scalar slot a signed 8-bit value is stored as.
pub open spec fn bits_of_i8(v: i8) -> u64 {
    (if v >= 0 {
        v as int
    } else {
        v + 0x100
    }) as u64
}

/// Reads the scalar slot as a signed 64-bit value.
pub fn scalar_to_i64(b: u64) -> (r: i64)
    ensures
        r == i64_of_bits(b),
{
    if b < 0x8000_0000_0000_0000u64 {
        b as i64
    } else if b == 0x8000_0000_0000_0000u64 {
        i64::MIN
    } else {
        let t: u64 = (0xFFFF_FFFF_FFFF_FFFFu64 - b) + 1;
        -(t as i64)
    }
}

/// Reads the low bits of the scalar slot as a signed 32-bit value.
pub fn scalar_to_i32(b: u64) -> (r: i32)
    ensures
        r == i32_of_bits(b),
{
    let low: u64 = b % 0x1_0000_0000u64;
    if low < 0x8000_0000u64 {
        low as i32
    } else if low == 0x8000_0000u64 {
        i32::MIN
    } else {
        let t: u64 = (0xFFFF_FFFFu64 - low) + 1;
        -(t as i32)
    }
}

/// Reads the low bits of the scalar slot as a signed 16-bit value.
pub fn scalar_to_i16(b: u64) -> (r: i16)
    ensures
        r == i16_of_bits(b),
{
    let low: u64 = b % 0x1_0000u64;
    if low < 0x8000u64 {
        low as i16
    } else if low == 0x8000u64 {
        i16::MIN
    } else {
        let t: u64 = (0xFFFFu64 - low) + 1;
        -(t as i16)
    }
}

/// Reads the low bits of the scalar slot as a signed 8-bit value.
pub fn scalar_to_i8(b: u64) -> (r: i8)
    ensures
        r == i8_of_bits(b),
{
    let low: u64 = b % 0x100u64;
    if low < 0x80u64 {
        low as i8
    } else if low == 0x80u64 {
        i8::MIN
    } else {
        let t: u64 = (0xFFu64 - low) + 1;
        -(t as i8)
    }
}

/// Reads the low bits of the scalar slot as an unsigned 32-bit value.
pub fn scalar_to_u32(b: u64) -> (r: u32)
    ensures
        r == u32_of_bits(b),
{
    (b % 0x1_0000_0000u64) as u32
}

/// Reads the low bits of the scalar slot as an unsigned 16-bit value.
pub fn scalar_to_u16(b: u64) -> (r: u16)
    ensures
        r == u16_of_bits(b),
{
    (b % 0x1_0000u64) as u16
}

/// Reads the low bits of the scalar slot as an unsigned 8-bit value.
pub fn scalar_to_u8(b: u64) -> (r: u8)
    ensures
        r == u8_of_bits(b),
{
    (b % 0x100u64) as u8
}

/// Stores a signed 64-bit value into the scalar slot.
pub fn i64_to_scalar(v: i64) -> (b: u64)
    ensures
        b == bits_of_i64(v),
{
    if v >= 0 {
        v as u64
    } else {
        0xFFFF_FFFF_FFFF_FFFFu64 - ((-(v + 1)) as u64)
    }
}

/// Stores a signed 32-bit value into the scalar slot.
pub fn i32_to_scalar(v: i32) -> (b: u64)
    ensures
        b == bits_of_i32(v),
{
    if v >= 0 {
        v as u64
    } else {
        ((v as i64) + 0x1_0000_0000i64) as u64
    }
}

/// Stores a signed 16-bit value into the scalar slot.
pub fn i16_to_scalar(v: i16) -> (b: u64)
    ensures
        b == bits_of_i16(v),
{
    if v >= 0 {
        v as u64
    } else {
        ((v as i64) + 0x1_0000i64) as u64
    }
}

/// Stores a signed 8-bit value into the scalar slot.
pub fn i8_to_scalar(v: i8) -> (b: u64)
    ensures
        b == bits_of_i8(v),
{
    if v >= 0 {
        v as u64
    } else {
        ((v as i64) + 0x100i64) as u64
    }
}

/// Reading a stored signed 64-bit value gives it back.
pub proof fn lemma_i64_bits_roundtrip(v: i64)
    ensures
        i64_of_bits(bits_of_i64(v)) == v,
{
}

/// Reading a stored signed 32-bit value gives it back.
pub proof fn lemma_i32_bits_roundtrip(v: i32)
    ensures
        i32_of_bits(bits_of_i32(v)) == v,
{
    let b = bits_of_i32(v);
    assert(b < 0x1_0000_0000);
    vstd::arithmetic::div_mod::lemma_small_mod(b as nat, 0x1_0000_0000nat);
}

/// Reading a stored signed 16-bit value gives it back.
pub proof fn lemma_i16_bits_roundtrip(v: i16)
    ensures
        i16_of_bits(bits_of_i16(v)) == v,
{
    let b = bits_of_i16(v);
    assert(b < 0x1_0000);
    vstd::arithmetic::div_mod::lemma_small_mod(b as nat, 0x1_0000nat);
}

/// Reading a stored signed 8-bit value gives it back.
pub proof fn lemma_i8_bits_roundtrip(v: i8)
    ensures
        i8_of_bits(bits_of_i8(v)) == v,
{
    let b = bits_of_i8(v);
    assert(b < 0x100);
    vstd::arithmetic::div_mod::lemma_small_mod(b as nat, 0x100nat);
}

/// Reading a stored unsigned value gives it back, at every width.
pub proof fn lemma_unsigned_bits_roundtrip(v32: u32, v16: u16, v8: u8)
    ensures
        u32_of_bits(v32 as u64) == v32,
        u16_of_bits(v16 as u64) == v16,
        u8_of_bits(v8 as u64) == v8,
{
    vstd::arithmetic::div_mod::lemma_small_mod(v32 as nat, 0x1_0000_0000nat);
    vstd::arithmetic::div_mod::lemma_small_mod(v16 as nat, 0x1_0000nat);
    vstd::arithmetic::div_mod::lemma_small_mod(v8 as nat, 0x100nat);
}

} // verus!
