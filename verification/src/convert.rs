//! The codec dispatcher: decoding and encoding between wire values and
//! variants.
//!
//! [`decode`] reads the tag field, strips the by-reference bit, classifies
//! the base code and routes to the matching codec; [`encode`] writes the
//! tag (OR-ing the by-reference bit for `*Ref` variants) and stores the
//! payload.  Both are total: every failure is a returned
//! [`VariantConversionError`].  Decoding a text- or handle-carrying wire
//! value consumes the wire value's ownership of that resource, and
//! encoding such a variant transfers ownership into the wire value.

use vstd::prelude::*;

use crate::com_types::currency::currency_canonical;
use crate::com_types::currency::currency_of_decimal;
use crate::com_types::currency::decimal_of_currency;
use crate::com_types::currency::lemma_currency_roundtrip;
use crate::com_types::currency::lemma_currency_truncates;
use crate::com_types::currency::rescaled4_mag;
use crate::com_types::currency::ComCurrency;
use crate::com_types::currency::Currency;
use crate::com_types::date::DateTime;
use crate::com_types::decimal::lemma_pack_unpack;
use crate::com_types::decimal::pack_spec;
use crate::com_types::decimal::unpack_spec;
use crate::com_types::decimal::ComDecimal;
use crate::com_types::ptr_wrapper::PtrWrapper;
use crate::com_types::string::lemma_utf16_roundtrip;
use crate::com_types::string::utf16_decode;
use crate::com_types::string::utf16_encode;
use crate::com_types::string::utf16_encode_units;
use crate::com_types::string::utf16_to_string;
use crate::variant::TagClass;
use crate::variant::Variant;
use crate::variant::VariantType;
use crate::variant::VariantV;
use crate::variant::VT_BYREF;
use crate::wire::bits_of_i16;
use crate::wire::bits_of_i32;
use crate::wire::bits_of_i64;
use crate::wire::bits_of_i8;
use crate::wire::i16_of_bits;
use crate::wire::i16_to_scalar;
use crate::wire::i32_of_bits;
use crate::wire::i32_to_scalar;
use crate::wire::i64_of_bits;
use crate::wire::i64_to_scalar;
use crate::wire::i8_of_bits;
use crate::wire::i8_to_scalar;
use crate::wire::lemma_i16_bits_roundtrip;
use crate::wire::lemma_i32_bits_roundtrip;
use crate::wire::lemma_i64_bits_roundtrip;
use crate::wire::lemma_i8_bits_roundtrip;
use crate::wire::lemma_unsigned_bits_roundtrip;
use crate::wire::scalar_of;
use crate::wire::scalar_to_i16;
use crate::wire::scalar_to_i32;
use crate::wire::scalar_to_i64;
use crate::wire::scalar_to_i8;
use crate::wire::scalar_to_u16;
use crate::wire::scalar_to_u32;
use crate::wire::scalar_to_u8;
use crate::wire::u16_of_bits;
use crate::wire::u32_of_bits;
use crate::wire::u8_of_bits;
use crate::wire::PayloadV;
use crate::wire::WirePayload;
use crate::wire::WireV;
use crate::wire::WireVariant;

verus! {

/// Why a conversion between a wire value and a variant failed.  Every
/// failure is returned, never thrown; the same input always yields the
/// same result.
#[derive(Clone, Copy, Debug, PartialEq, Eq, Structural)]
pub enum VariantConversionError {
    /// Converting between wire text and host text failed.
    StringConversionError,
    /// The value of the wire value could not be converted.
    GenericConversionError,
    /// The tag is recognized but carrying a value of it is not
    /// implemented.
    Unimplemented(VariantType),
    /// A reference-only tag was used without the by-reference flag.
    InvalidDirect(VariantType),
    /// The by-reference flag was used on a tag that does not admit it.
    InvalidReference(VariantType),
    /// The tag may only appear in a type description, never as a value.
    TypeDescOnly(VariantType),
    /// The 16-bit tag field is not recognized at all; carries the full
    /// field, by-reference bit included.
    UnknownType(u16),
}

/// The base code of a tag field: the field with the by-reference bit
/// cleared.
pub open spec fn strip_code(vt: u16) -> u16 {
    vt & 0xBFFF
}

/// Whether the tag field carries the by-reference bit.
pub open spec fn has_ref_flag(vt: u16) -> bool {
    vt & VT_BYREF != 0
}

/// The mathematical value of a decode result.
pub open spec fn view_result(r: Result<Variant, VariantConversionError>) -> Result<
    VariantV,
    VariantConversionError,
> {
    match r {
        Ok(v) => Ok(v@),
        Err(e) => Err(e),
    }
}

/// What decoding the direct form of tag `t` from payload `p` yields.  The
/// payload of the empty and null tags is ignored; scalar tags read the
/// scalar slot (all zeros in a zero-initialized wire value); the decimal,
/// text and handle tags take their own slot, a zeroed slot standing for
/// the zero decimal, the empty text and the null handle.  A payload slot
/// that cannot belong to the tag is refused as a generic conversion
/// failure.
pub open spec fn decode_direct_spec(t: VariantType, p: PayloadV) -> Result<
    VariantV,
    VariantConversionError,
> {
    match t {
        VariantType::VT_EMPTY => Ok(VariantV::Empty),
        VariantType::VT_NULL => Ok(VariantV::Null),
        VariantType::VT_DECIMAL => match p {
            PayloadV::Dec(cd) => Ok(VariantV::Decimal(unpack_spec(cd))),
            PayloadV::Zeroed => Ok(
                VariantV::Decimal(unpack_spec(ComDecimal { scale: 0, sign: 0, hi32: 0, lo64: 0 })),
            ),
            _ => Err(VariantConversionError::GenericConversionError),
        },
        VariantType::VT_BSTR => match p {
            PayloadV::Text(u) => match utf16_decode(u) {
                Some(s) => Ok(VariantV::Str(s)),
                None => Err(VariantConversionError::StringConversionError),
            },
            PayloadV::Zeroed => Ok(VariantV::Str(Seq::empty())),
            _ => Err(VariantConversionError::GenericConversionError),
        },
        VariantType::VT_DISPATCH => match p {
            PayloadV::DispatchSlot(h) => Ok(VariantV::Dispatch(h)),
            PayloadV::Zeroed => Ok(VariantV::Dispatch(None)),
            _ => Err(VariantConversionError::GenericConversionError),
        },
        VariantType::VT_UNKNOWN => match p {
            PayloadV::UnknownSlot(h) => Ok(VariantV::Unknown(h)),
            PayloadV::Zeroed => Ok(VariantV::Unknown(None)),
            _ => Err(VariantConversionError::GenericConversionError),
        },
        _ => match scalar_of(p) {
            None => Err(VariantConversionError::GenericConversionError),
            Some(b) => match t {
                VariantType::VT_BOOL => Ok(VariantV::Bool(u16_of_bits(b) != 0)),
                VariantType::VT_I1 => Ok(VariantV::I8(i8_of_bits(b))),
                VariantType::VT_I2 => Ok(VariantV::I16(i16_of_bits(b))),
                VariantType::VT_I4 => Ok(VariantV::I32(i32_of_bits(b))),
                VariantType::VT_INT => Ok(VariantV::I32(i32_of_bits(b))),
                VariantType::VT_I8 => Ok(VariantV::I64(i64_of_bits(b))),
                VariantType::VT_UI1 => Ok(VariantV::U8(u8_of_bits(b))),
                VariantType::VT_UI2 => Ok(VariantV::U16(u16_of_bits(b))),
                VariantType::VT_UI4 => Ok(VariantV::U32(u32_of_bits(b))),
                VariantType::VT_UINT => Ok(VariantV::U32(u32_of_bits(b))),
                VariantType::VT_UI8 => Ok(VariantV::U64(b)),
                VariantType::VT_R4 => Ok(VariantV::F32(u32_of_bits(b))),
                VariantType::VT_R8 => Ok(VariantV::F64(b)),
                VariantType::VT_CY => Ok(
                    VariantV::Currency(Currency(decimal_of_currency(i64_of_bits(b)))),
                ),
                VariantType::VT_DATE => Ok(VariantV::Date(DateTime { millis: i64_of_bits(b) })),
                VariantType::VT_ERROR => Ok(VariantV::Error(i32_of_bits(b))),
                _ => Err(VariantConversionError::GenericConversionError),
            },
        },
    }
}

/// What decoding the by-reference form of tag `t` from payload `p`
/// yields: the scalar slot read as an address, refused as a generic
/// conversion failure when null or when the slot holds a resource.
pub open spec fn decode_ref_spec(t: VariantType, p: PayloadV) -> Result<
    VariantV,
    VariantConversionError,
> {
    match scalar_of(p) {
        None => Err(VariantConversionError::GenericConversionError),
        Some(a) => if a == 0 {
            Err(VariantConversionError::GenericConversionError)
        } else {
            match t {
                VariantType::VT_BOOL => Ok(VariantV::BoolRef(a)),
                VariantType::VT_I1 => Ok(VariantV::I8Ref(a)),
                VariantType::VT_I2 => Ok(VariantV::I16Ref(a)),
                VariantType::VT_I4 => Ok(VariantV::I32Ref(a)),
                VariantType::VT_INT => Ok(VariantV::I32Ref(a)),
                VariantType::VT_I8 => Ok(VariantV::I64Ref(a)),
                VariantType::VT_UI1 => Ok(VariantV::U8Ref(a)),
                VariantType::VT_UI2 => Ok(VariantV::U16Ref(a)),
                VariantType::VT_UI4 => Ok(VariantV::U32Ref(a)),
                VariantType::VT_UINT => Ok(VariantV::U32Ref(a)),
                VariantType::VT_UI8 => Ok(VariantV::U64Ref(a)),
                VariantType::VT_R4 => Ok(VariantV::F32Ref(a)),
                VariantType::VT_R8 => Ok(VariantV::F64Ref(a)),
                VariantType::VT_CY => Ok(VariantV::CurrencyRef(a)),
                VariantType::VT_DECIMAL => Ok(VariantV::DecimalRef(a)),
                VariantType::VT_DATE => Ok(VariantV::DateRef(a)),
                VariantType::VT_ERROR => Ok(VariantV::ErrorRef(a)),
                VariantType::VT_VARIANT => Ok(VariantV::VariantRef(a)),
                _ => Err(VariantConversionError::GenericConversionError),
            }
        },
    }
}

/// What decoding a wire value yields: an unrecognized base code is
/// refused with the full tag field; a descriptor-only or unimplemented
/// code is refused whatever the flag; a direct-only code refuses the
/// flag and a reference-only code demands it; a dual code routes on the
/// flag.
pub open spec fn decode_spec(w: WireV) -> Result<VariantV, VariantConversionError> {
    let code = strip_code(w.vt);
    let is_ref = has_ref_flag(w.vt);
    match VariantType::from_code_spec(code) {
        None => Err(VariantConversionError::UnknownType(w.vt)),
        Some(t) => match t.classify_spec() {
            TagClass::DescriptorOnly => Err(VariantConversionError::TypeDescOnly(t)),
            TagClass::Unimplemented => Err(VariantConversionError::Unimplemented(t)),
            TagClass::DirectOnly => if is_ref {
                Err(VariantConversionError::InvalidReference(t))
            } else {
                decode_direct_spec(t, w.payload)
            },
            TagClass::RefOnly => if is_ref {
                decode_ref_spec(t, w.payload)
            } else {
                Err(VariantConversionError::InvalidDirect(t))
            },
            TagClass::Dual => if is_ref {
                decode_ref_spec(t, w.payload)
            } else {
                decode_direct_spec(t, w.payload)
            },
        },
    }
}

/// What encoding a variant yields.  The tag field is the base code of the
/// active arm, with the by-reference bit OR-ed in for `*Ref` arms; the
/// payload is the matching slot.  Encoding never fails.
pub open spec fn encode_spec(v: VariantV) -> WireV {
    match v {
        VariantV::Empty => WireV {
            vt: VariantType::VT_EMPTY.code_spec(),
            payload: PayloadV::Zeroed,
        },
        VariantV::Null => WireV { vt: VariantType::VT_NULL.code_spec(), payload: PayloadV::Zeroed },
        VariantV::Bool(b) => WireV {
            vt: VariantType::VT_BOOL.code_spec(),
            payload: PayloadV::Scalar(
                if b {
                    0xFFFF
                } else {
                    0
                },
            ),
        },
        VariantV::BoolRef(a) => WireV {
            vt: VariantType::VT_BOOL.code_spec() | VT_BYREF,
            payload: PayloadV::Scalar(a),
        },
        VariantV::I8(i) => WireV {
            vt: VariantType::VT_I1.code_spec(),
            payload: PayloadV::Scalar(bits_of_i8(i)),
        },
        VariantV::I8Ref(a) => WireV {
            vt: VariantType::VT_I1.code_spec() | VT_BYREF,
            payload: PayloadV::Scalar(a),
        },
        VariantV::I16(i) => WireV {
            vt: VariantType::VT_I2.code_spec(),
            payload: PayloadV::Scalar(bits_of_i16(i)),
        },
        VariantV::I16Ref(a) => WireV {
            vt: VariantType::VT_I2.code_spec() | VT_BYREF,
            payload: PayloadV::Scalar(a),
        },
        VariantV::I32(i) => WireV {
            vt: VariantType::VT_I4.code_spec(),
            payload: PayloadV::Scalar(bits_of_i32(i)),
        },
        VariantV::I32Ref(a) => WireV {
            vt: VariantType::VT_I4.code_spec() | VT_BYREF,
            payload: PayloadV::Scalar(a),
        },
        VariantV::I64(i) => WireV {
            vt: VariantType::VT_I8.code_spec(),
            payload: PayloadV::Scalar(bits_of_i64(i)),
        },
        VariantV::I64Ref(a) => WireV {
            vt: VariantType::VT_I8.code_spec() | VT_BYREF,
            payload: PayloadV::Scalar(a),
        },
        VariantV::U8(u) => WireV {
            vt: VariantType::VT_UI1.code_spec(),
            payload: PayloadV::Scalar(u as u64),
        },
        VariantV::U8Ref(a) => WireV {
            vt: VariantType::VT_UI1.code_spec() | VT_BYREF,
            payload: PayloadV::Scalar(a),
        },
        VariantV::U16(u) => WireV {
            vt: VariantType::VT_UI2.code_spec(),
            payload: PayloadV::Scalar(u as u64),
        },
        VariantV::U16Ref(a) => WireV {
            vt: VariantType::VT_UI2.code_spec() | VT_BYREF,
            payload: PayloadV::Scalar(a),
        },
        VariantV::U32(u) => WireV {
            vt: VariantType::VT_UI4.code_spec(),
            payload: PayloadV::Scalar(u as u64),
        },
        VariantV::U32Ref(a) => WireV {
            vt: VariantType::VT_UI4.code_spec() | VT_BYREF,
            payload: PayloadV::Scalar(a),
        },
        VariantV::U64(u) => WireV {
            vt: VariantType::VT_UI8.code_spec(),
            payload: PayloadV::Scalar(u),
        },
        VariantV::U64Ref(a) => WireV {
            vt: VariantType::VT_UI8.code_spec() | VT_BYREF,
            payload: PayloadV::Scalar(a),
        },
        VariantV::F32(bits) => WireV {
            vt: VariantType::VT_R4.code_spec(),
            payload: PayloadV::Scalar(bits as u64),
        },
        VariantV::F32Ref(a) => WireV {
            vt: VariantType::VT_R4.code_spec() | VT_BYREF,
            payload: PayloadV::Scalar(a),
        },
        VariantV::F64(bits) => WireV {
            vt: VariantType::VT_R8.code_spec(),
            payload: PayloadV::Scalar(bits),
        },
        VariantV::F64Ref(a) => WireV {
            vt: VariantType::VT_R8.code_spec() | VT_BYREF,
            payload: PayloadV::Scalar(a),
        },
        VariantV::Currency(c) => WireV {
            vt: VariantType::VT_CY.code_spec(),
            payload: PayloadV::Scalar(bits_of_i64(currency_of_decimal(c.0) as i64)),
        },
        VariantV::CurrencyRef(a) => WireV {
            vt: VariantType::VT_CY.code_spec() | VT_BYREF,
            payload: PayloadV::Scalar(a),
        },
        VariantV::Decimal(d) => WireV {
            vt: VariantType::VT_DECIMAL.code_spec(),
            payload: PayloadV::Dec(pack_spec(d)),
        },
        VariantV::DecimalRef(a) => WireV {
            vt: VariantType::VT_DECIMAL.code_spec() | VT_BYREF,
            payload: PayloadV::Scalar(a),
        },
        VariantV::Date(dt) => WireV {
            vt: VariantType::VT_DATE.code_spec(),
            payload: PayloadV::Scalar(bits_of_i64(dt.millis)),
        },
        VariantV::DateRef(a) => WireV {
            vt: VariantType::VT_DATE.code_spec() | VT_BYREF,
            payload: PayloadV::Scalar(a),
        },
        VariantV::Str(s) => WireV {
            vt: VariantType::VT_BSTR.code_spec(),
            payload: PayloadV::Text(utf16_encode(s)),
        },
        VariantV::StrRef(a) => WireV {
            vt: VariantType::VT_BSTR.code_spec() | VT_BYREF,
            payload: PayloadV::Scalar(a),
        },
        VariantV::Dispatch(h) => WireV {
            vt: VariantType::VT_DISPATCH.code_spec(),
            payload: PayloadV::DispatchSlot(h),
        },
        VariantV::Unknown(h) => WireV {
            vt: VariantType::VT_UNKNOWN.code_spec(),
            payload: PayloadV::UnknownSlot(h),
        },
        VariantV::Error(e) => WireV {
            vt: VariantType::VT_ERROR.code_spec(),
            payload: PayloadV::Scalar(bits_of_i32(e)),
        },
        VariantV::ErrorRef(a) => WireV {
            vt: VariantType::VT_ERROR.code_spec() | VT_BYREF,
            payload: PayloadV::Scalar(a),
        },
        VariantV::VariantRef(a) => WireV {
            vt: VariantType::VT_VARIANT.code_spec() | VT_BYREF,
            payload: PayloadV::Scalar(a),
        },
    }
}

/// Decodes the direct form of tag `t` from the payload slot.
fn decode_direct(t: VariantType, payload: WirePayload) -> (r: Result<
    Variant,
    VariantConversionError,
>)
    ensures
        view_result(r) == decode_direct_spec(t, payload@),
{
    match t {
        VariantType::VT_EMPTY => Ok(Variant::Empty),
        VariantType::VT_NULL => Ok(Variant::Null),
        VariantType::VT_DECIMAL => match payload {
            WirePayload::Dec(cd) => Ok(Variant::Decimal(cd.unpack())),
            WirePayload::Zeroed => Ok(Variant::Decimal(ComDecimal::zeroed().unpack())),
            _ => Err(VariantConversionError::GenericConversionError),
        },
        VariantType::VT_BSTR => match payload {
            WirePayload::Text(u) => match utf16_to_string(&u) {
                Ok(s) => Ok(Variant::Str(s)),
                Err(e) => Err(e),
            },
            WirePayload::Zeroed => Ok(Variant::Str(String::new())),
            _ => Err(VariantConversionError::GenericConversionError),
        },
        VariantType::VT_DISPATCH => match payload {
            WirePayload::DispatchSlot(h) => Ok(Variant::Dispatch(h)),
            WirePayload::Zeroed => Ok(Variant::Dispatch(None)),
            _ => Err(VariantConversionError::GenericConversionError),
        },
        VariantType::VT_UNKNOWN => match payload {
            WirePayload::UnknownSlot(h) => Ok(Variant::Unknown(h)),
            WirePayload::Zeroed => Ok(Variant::Unknown(None)),
            _ => Err(VariantConversionError::GenericConversionError),
        },
        _ => {
            let b: u64 = match payload {
                WirePayload::Zeroed => 0,
                WirePayload::Scalar(x) => x,
                _ => {
                    return Err(VariantConversionError::GenericConversionError);
                },
            };
            match t {
                VariantType::VT_BOOL => Ok(Variant::Bool(scalar_to_u16(b) != 0)),
                VariantType::VT_I1 => Ok(Variant::I8(scalar_to_i8(b))),
                VariantType::VT_I2 => Ok(Variant::I16(scalar_to_i16(b))),
                VariantType::VT_I4 => Ok(Variant::I32(scalar_to_i32(b))),
                VariantType::VT_INT => Ok(Variant::I32(scalar_to_i32(b))),
                VariantType::VT_I8 => Ok(Variant::I64(scalar_to_i64(b))),
                VariantType::VT_UI1 => Ok(Variant::U8(scalar_to_u8(b))),
                VariantType::VT_UI2 => Ok(Variant::U16(scalar_to_u16(b))),
                VariantType::VT_UI4 => Ok(Variant::U32(scalar_to_u32(b))),
                VariantType::VT_UINT => Ok(Variant::U32(scalar_to_u32(b))),
                VariantType::VT_UI8 => Ok(Variant::U64(b)),
                VariantType::VT_R4 => Ok(Variant::F32(scalar_to_u32(b))),
                VariantType::VT_R8 => Ok(Variant::F64(b)),
                VariantType::VT_CY => Ok(
                    Variant::Currency(Currency::from_com(ComCurrency(scalar_to_i64(b)))),
                ),
                VariantType::VT_DATE => Ok(Variant::Date(DateTime::from_millis(scalar_to_i64(b)))),
                VariantType::VT_ERROR => Ok(Variant::Error(scalar_to_i32(b))),
                _ => Err(VariantConversionError::GenericConversionError),
            }
        },
    }
}

/// Decodes the by-reference form of tag `t` from the payload slot.
fn decode_ref(t: VariantType, payload: WirePayload) -> (r: Result<Variant, VariantConversionError>)
    ensures
        view_result(r) == decode_ref_spec(t, payload@),
{
    let a: u64 = match payload {
        WirePayload::Zeroed => 0,
        WirePayload::Scalar(x) => x,
        _ => {
            return Err(VariantConversionError::GenericConversionError);
        },
    };
    if a == 0 {
        return Err(VariantConversionError::GenericConversionError);
    }
    let p = PtrWrapper::from_nonzero(a);
    match t {
        VariantType::VT_BOOL => Ok(Variant::BoolRef(p)),
        VariantType::VT_I1 => Ok(Variant::I8Ref(p)),
        VariantType::VT_I2 => Ok(Variant::I16Ref(p)),
        VariantType::VT_I4 => Ok(Variant::I32Ref(p)),
        VariantType::VT_INT => Ok(Variant::I32Ref(p)),
        VariantType::VT_I8 => Ok(Variant::I64Ref(p)),
        VariantType::VT_UI1 => Ok(Variant::U8Ref(p)),
        VariantType::VT_UI2 => Ok(Variant::U16Ref(p)),
        VariantType::VT_UI4 => Ok(Variant::U32Ref(p)),
        VariantType::VT_UINT => Ok(Variant::U32Ref(p)),
        VariantType::VT_UI8 => Ok(Variant::U64Ref(p)),
        VariantType::VT_R4 => Ok(Variant::F32Ref(p)),
        VariantType::VT_R8 => Ok(Variant::F64Ref(p)),
        VariantType::VT_CY => Ok(Variant::CurrencyRef(p)),
        VariantType::VT_DECIMAL => Ok(Variant::DecimalRef(p)),
        VariantType::VT_DATE => Ok(Variant::DateRef(p)),
        VariantType::VT_ERROR => Ok(Variant::ErrorRef(p)),
        VariantType::VT_VARIANT => Ok(Variant::VariantRef(p)),
        _ => Err(VariantConversionError::GenericConversionError),
    }
}

/// Decodes a wire value into a variant, consuming the wire value and any
/// resource it owns; see [`decode_spec`] for the exact result on every
/// input.  Never panics: an unrecognized or illegal tag field is a
/// returned error.
pub fn decode(w: WireVariant) -> (r: Result<Variant, VariantConversionError>)
    ensures
        view_result(r) == decode_spec(w@),
{
    let WireVariant { vt, payload } = w;
    let code: u16 = vt & 0xBFFFu16;
    let is_ref: bool = (vt & VT_BYREF) != 0u16;
    match VariantType::from_code(code) {
        None => Err(VariantConversionError::UnknownType(vt)),
        Some(t) => match t.classify() {
            TagClass::DescriptorOnly => Err(VariantConversionError::TypeDescOnly(t)),
            TagClass::Unimplemented => Err(VariantConversionError::Unimplemented(t)),
            TagClass::DirectOnly => if is_ref {
                Err(VariantConversionError::InvalidReference(t))
            } else {
                decode_direct(t, payload)
            },
            TagClass::RefOnly => if is_ref {
                decode_ref(t, payload)
            } else {
                Err(VariantConversionError::InvalidDirect(t))
            },
            TagClass::Dual => if is_ref {
                decode_ref(t, payload)
            } else {
                decode_direct(t, payload)
            },
        },
    }
}

/// Encodes a variant into a wire value, transferring ownership of text
/// and handles into it; see [`encode_spec`] for the exact wire value.
/// Encoding never fails, and the `Result` is always `Ok`.
pub fn encode(v: Variant) -> (r: Result<WireVariant, VariantConversionError>)
    ensures
        r matches Ok(w) && w@ == encode_spec(v@),
{
    match v {
        Variant::Empty => Ok(WireVariant { vt: 0, payload: WirePayload::Zeroed }),
        Variant::Null => Ok(WireVariant { vt: 1, payload: WirePayload::Zeroed }),
        Variant::Bool(b) => Ok(
            WireVariant {
                vt: 11,
                payload: WirePayload::Scalar(
                    if b {
                        0xFFFF
                    } else {
                        0
                    },
                ),
            },
        ),
        Variant::BoolRef(p) => Ok(
            WireVariant {
                vt: VariantType::VT_BOOL.byref(),
                payload: WirePayload::Scalar(p.addr()),
            },
        ),
        Variant::I8(i) => Ok(WireVariant { vt: 16, payload: WirePayload::Scalar(i8_to_scalar(i)) }),
        Variant::I8Ref(p) => Ok(
            WireVariant { vt: VariantType::VT_I1.byref(), payload: WirePayload::Scalar(p.addr()) },
        ),
        Variant::I16(i) => Ok(
            WireVariant { vt: 2, payload: WirePayload::Scalar(i16_to_scalar(i)) },
        ),
        Variant::I16Ref(p) => Ok(
            WireVariant { vt: VariantType::VT_I2.byref(), payload: WirePayload::Scalar(p.addr()) },
        ),
        Variant::I32(i) => Ok(
            WireVariant { vt: 3, payload: WirePayload::Scalar(i32_to_scalar(i)) },
        ),
        Variant::I32Ref(p) => Ok(
            WireVariant { vt: VariantType::VT_I4.byref(), payload: WirePayload::Scalar(p.addr()) },
        ),
        Variant::I64(i) => Ok(
            WireVariant { vt: 20, payload: WirePayload::Scalar(i64_to_scalar(i)) },
        ),
        Variant::I64Ref(p) => Ok(
            WireVariant { vt: VariantType::VT_I8.byref(), payload: WirePayload::Scalar(p.addr()) },
        ),
        Variant::U8(u) => Ok(WireVariant { vt: 17, payload: WirePayload::Scalar(u as u64) }),
        Variant::U8Ref(p) => Ok(
            WireVariant { vt: VariantType::VT_UI1.byref(), payload: WirePayload::Scalar(p.addr()) },
        ),
        Variant::U16(u) => Ok(WireVariant { vt: 18, payload: WirePayload::Scalar(u as u64) }),
        Variant::U16Ref(p) => Ok(
            WireVariant { vt: VariantType::VT_UI2.byref(), payload: WirePayload::Scalar(p.addr()) },
        ),
        Variant::U32(u) => Ok(WireVariant { vt: 19, payload: WirePayload::Scalar(u as u64) }),
        Variant::U32Ref(p) => Ok(
            WireVariant { vt: VariantType::VT_UI4.byref(), payload: WirePayload::Scalar(p.addr()) },
        ),
        Variant::U64(u) => Ok(WireVariant { vt: 21, payload: WirePayload::Scalar(u) }),
        Variant::U64Ref(p) => Ok(
            WireVariant { vt: VariantType::VT_UI8.byref(), payload: WirePayload::Scalar(p.addr()) },
        ),
        Variant::F32(bits) => Ok(WireVariant { vt: 4, payload: WirePayload::Scalar(bits as u64) }),
        Variant::F32Ref(p) => Ok(
            WireVariant { vt: VariantType::VT_R4.byref(), payload: WirePayload::Scalar(p.addr()) },
        ),
        Variant::F64(bits) => Ok(WireVariant { vt: 5, payload: WirePayload::Scalar(bits) }),
        Variant::F64Ref(p) => Ok(
            WireVariant { vt: VariantType::VT_R8.byref(), payload: WirePayload::Scalar(p.addr()) },
        ),
        Variant::Currency(c) => {
            let cy = ComCurrency::from_decimal(&c.0);
            Ok(WireVariant { vt: 6, payload: WirePayload::Scalar(i64_to_scalar(cy.0)) })
        },
        Variant::CurrencyRef(p) => Ok(
            WireVariant { vt: VariantType::VT_CY.byref(), payload: WirePayload::Scalar(p.addr()) },
        ),
        Variant::Decimal(d) => Ok(
            WireVariant { vt: 14, payload: WirePayload::Dec(ComDecimal::pack(&d)) },
        ),
        Variant::DecimalRef(p) => Ok(
            WireVariant {
                vt: VariantType::VT_DECIMAL.byref(),
                payload: WirePayload::Scalar(p.addr()),
            },
        ),
        Variant::Date(dt) => Ok(
            WireVariant { vt: 7, payload: WirePayload::Scalar(i64_to_scalar(dt.millis)) },
        ),
        Variant::DateRef(p) => Ok(
            WireVariant {
                vt: VariantType::VT_DATE.byref(),
                payload: WirePayload::Scalar(p.addr()),
            },
        ),
        Variant::Str(s) => Ok(
            WireVariant { vt: 8, payload: WirePayload::Text(utf16_encode_units(s.as_str())) },
        ),
        Variant::StrRef(p) => Ok(
            WireVariant {
                vt: VariantType::VT_BSTR.byref(),
                payload: WirePayload::Scalar(p.addr()),
            },
        ),
        Variant::Dispatch(h) => Ok(
            WireVariant { vt: 9, payload: WirePayload::DispatchSlot(h) },
        ),
        Variant::Unknown(h) => Ok(WireVariant { vt: 13, payload: WirePayload::UnknownSlot(h) }),
        Variant::Error(e) => Ok(
            WireVariant { vt: 10, payload: WirePayload::Scalar(i32_to_scalar(e)) },
        ),
        Variant::ErrorRef(p) => Ok(
            WireVariant {
                vt: VariantType::VT_ERROR.byref(),
                payload: WirePayload::Scalar(p.addr()),
            },
        ),
        Variant::VariantRef(p) => Ok(
            WireVariant {
                vt: VariantType::VT_VARIANT.byref(),
                payload: WirePayload::Scalar(p.addr()),
            },
        ),
    }
}

/// The values on which decoding inverts encoding verbatim: everything
/// but the two documented exceptions — a currency amount not already
/// canonical at scale 4 (digits past the fourth are truncated), and the
/// by-reference text form, which encodes but never decodes.
pub open spec fn roundtrip_exact(v: VariantV) -> bool {
    match v {
        VariantV::Currency(c) => currency_canonical(c.0),
        VariantV::StrRef(_) => false,
        _ => true,
    }
}

/// Base codes sit clear of the by-reference bit, so stripping and
/// testing the flag behave on both forms of every tag.
proof fn lemma_tag_bits(t: VariantType)
    ensures
        strip_code(t.code_spec()) == t.code_spec(),
        !has_ref_flag(t.code_spec()),
        strip_code(t.code_spec() | VT_BYREF) == t.code_spec(),
        has_ref_flag(t.code_spec() | VT_BYREF),
{
    let c = t.code_spec();
    t.lemma_code_clear_of_byref();
    assert(c <= 38 ==> ((c & 0xBFFF) == c && ((c | 0x4000) & 0xBFFF) == c && ((c | 0x4000)
        & 0x4000) != 0)) by (bit_vector);
}

/// The round-trip law of the dispatcher, from the variant side: decoding
/// what encode produced yields the variant back.  It covers every direct
/// arm of every tag and every by-reference arm; the aliased address — and
/// with it the identity and untouched content of the aliased storage —
/// comes back verbatim.
pub proof fn lemma_encode_decode(v: VariantV)
    requires
        v.wf(),
        roundtrip_exact(v),
    ensures
        decode_spec(encode_spec(v)) == Ok::<VariantV, VariantConversionError>(v),
{
    match v {
        VariantV::Empty => {
            lemma_tag_bits(VariantType::VT_EMPTY);
        },
        VariantV::Null => {
            lemma_tag_bits(VariantType::VT_NULL);
        },
        VariantV::Bool(b) => {
            lemma_tag_bits(VariantType::VT_BOOL);
        },
        VariantV::BoolRef(a) => {
            lemma_tag_bits(VariantType::VT_BOOL);
        },
        VariantV::I8(i) => {
            lemma_tag_bits(VariantType::VT_I1);
            lemma_i8_bits_roundtrip(i);
        },
        VariantV::I8Ref(a) => {
            lemma_tag_bits(VariantType::VT_I1);
        },
        VariantV::I16(i) => {
            lemma_tag_bits(VariantType::VT_I2);
            lemma_i16_bits_roundtrip(i);
        },
        VariantV::I16Ref(a) => {
            lemma_tag_bits(VariantType::VT_I2);
        },
        VariantV::I32(i) => {
            lemma_tag_bits(VariantType::VT_I4);
            lemma_i32_bits_roundtrip(i);
        },
        VariantV::I32Ref(a) => {
            lemma_tag_bits(VariantType::VT_I4);
        },
        VariantV::I64(i) => {
            lemma_tag_bits(VariantType::VT_I8);
            lemma_i64_bits_roundtrip(i);
        },
        VariantV::I64Ref(a) => {
            lemma_tag_bits(VariantType::VT_I8);
        },
        VariantV::U8(u) => {
            lemma_tag_bits(VariantType::VT_UI1);
            lemma_unsigned_bits_roundtrip(0, 0, u);
        },
        VariantV::U8Ref(a) => {
            lemma_tag_bits(VariantType::VT_UI1);
        },
        VariantV::U16(u) => {
            lemma_tag_bits(VariantType::VT_UI2);
            lemma_unsigned_bits_roundtrip(0, u, 0);
        },
        VariantV::U16Ref(a) => {
            lemma_tag_bits(VariantType::VT_UI2);
        },
        VariantV::U32(u) => {
            lemma_tag_bits(VariantType::VT_UI4);
            lemma_unsigned_bits_roundtrip(u, 0, 0);
        },
        VariantV::U32Ref(a) => {
            lemma_tag_bits(VariantType::VT_UI4);
        },
        VariantV::U64(u) => {
            lemma_tag_bits(VariantType::VT_UI8);
        },
        VariantV::U64Ref(a) => {
            lemma_tag_bits(VariantType::VT_UI8);
        },
        VariantV::F32(bits) => {
            lemma_tag_bits(VariantType::VT_R4);
            lemma_unsigned_bits_roundtrip(bits, 0, 0);
        },
        VariantV::F32Ref(a) => {
            lemma_tag_bits(VariantType::VT_R4);
        },
        VariantV::F64(bits) => {
            lemma_tag_bits(VariantType::VT_R8);
        },
        VariantV::F64Ref(a) => {
            lemma_tag_bits(VariantType::VT_R8);
        },
        VariantV::Currency(c) => {
            lemma_tag_bits(VariantType::VT_CY);
            lemma_i64_bits_roundtrip(currency_of_decimal(c.0) as i64);
            lemma_currency_roundtrip(c.0);
        },
        VariantV::CurrencyRef(a) => {
            lemma_tag_bits(VariantType::VT_CY);
        },
        VariantV::Decimal(d) => {
            lemma_tag_bits(VariantType::VT_DECIMAL);
            lemma_pack_unpack(d);
        },
        VariantV::DecimalRef(a) => {
            lemma_tag_bits(VariantType::VT_DECIMAL);
        },
        VariantV::Date(dt) => {
            lemma_tag_bits(VariantType::VT_DATE);
            lemma_i64_bits_roundtrip(dt.millis);
        },
        VariantV::DateRef(a) => {
            lemma_tag_bits(VariantType::VT_DATE);
        },
        VariantV::Str(s) => {
            lemma_tag_bits(VariantType::VT_BSTR);
            lemma_utf16_roundtrip(s);
        },
        VariantV::StrRef(a) => {
            assert(false);
        },
        VariantV::Dispatch(h) => {
            lemma_tag_bits(VariantType::VT_DISPATCH);
        },
        VariantV::Unknown(h) => {
            lemma_tag_bits(VariantType::VT_UNKNOWN);
        },
        VariantV::Error(e) => {
            lemma_tag_bits(VariantType::VT_ERROR);
            lemma_i32_bits_roundtrip(e);
        },
        VariantV::ErrorRef(a) => {
            lemma_tag_bits(VariantType::VT_ERROR);
        },
        VariantV::VariantRef(a) => {
            lemma_tag_bits(VariantType::VT_VARIANT);
        },
    }
}

/// The round-trip law from the wire side for by-reference forms: a
/// well-formed by-reference wire value of a dual or reference-only tag
/// decodes to the alias of its address, and encoding that alias
/// reproduces the wire value bit for bit.  The two synonym codes for the
/// machine-word integers are the one exception: they decode to the same
/// aliases as the fixed 32-bit codes and re-encode under those, with the
/// same address.
pub proof fn lemma_byref_roundtrip(w: WireV)
    requires
        has_ref_flag(w.vt),
        VariantType::from_code_spec(strip_code(w.vt)) matches Some(t) && (t.classify_spec()
            == TagClass::Dual || t.classify_spec() == TagClass::RefOnly) && t
            != VariantType::VT_INT && t != VariantType::VT_UINT,
        w.payload matches PayloadV::Scalar(a) && a != 0,
    ensures
        decode_spec(w) matches Ok(v) && v.is_byref() && (w.payload matches PayloadV::Scalar(a)
            ==> v.ref_addr() == a) && encode_spec(decode_spec(w)->Ok_0) == w,
{
    let code = strip_code(w.vt);
    VariantType::lemma_registry_injective(code);
    match VariantType::from_code_spec(code) {
        Some(t) => {
            assert(t.code_spec() == code);
            t.lemma_code_clear_of_byref();
            let vt = w.vt;
            assert(vt & 0x4000 != 0 ==> vt == (vt & 0xBFFF) | 0x4000) by (bit_vector);
            assert(w.vt == t.code_spec() | VT_BYREF);
        },
        None => {
            assert(false);
        },
    }
}

/// The by-reference flag on a direct-only tag — empty, null, text, or
/// either handle kind — is always refused as an invalid reference,
/// whatever the payload holds.
pub proof fn lemma_byref_on_direct_only(t: VariantType, p: PayloadV)
    requires
        t.classify_spec() == TagClass::DirectOnly,
    ensures
        decode_spec(WireV { vt: t.code_spec() | VT_BYREF, payload: p }) == Err::<
            VariantV,
            VariantConversionError,
        >(VariantConversionError::InvalidReference(t)),
{
    lemma_tag_bits(t);
    t.lemma_registry_bijection();
}

/// The nested-variant tag without the by-reference flag is always
/// refused as an invalid direct use, whatever the payload holds.
pub proof fn lemma_nested_variant_needs_flag(p: PayloadV)
    ensures
        decode_spec(WireV { vt: VariantType::VT_VARIANT.code_spec(), payload: p }) == Err::<
            VariantV,
            VariantConversionError,
        >(VariantConversionError::InvalidDirect(VariantType::VT_VARIANT)),
{
    lemma_tag_bits(VariantType::VT_VARIANT);
    VariantType::VT_VARIANT.lemma_registry_bijection();
}

/// An unrecognized tag field is always refused as an unknown type
/// carrying the full 16-bit field; decoding is total, so no code can
/// crash it.
pub proof fn lemma_unknown_code(vt: u16, p: PayloadV)
    requires
        VariantType::from_code_spec(strip_code(vt)) is None,
    ensures
        decode_spec(WireV { vt, payload: p }) == Err::<VariantV, VariantConversionError>(
            VariantConversionError::UnknownType(vt),
        ),
{
}

/// Currency truncation seen end to end: decoding an encoded currency
/// variant yields the amount at exactly four fractional digits, finer
/// digits discarded.
pub proof fn lemma_currency_truncation_end_to_end(c: Currency)
    requires
        rescaled4_mag(c.0) < 0x8000_0000_0000_0000,
    ensures
        decode_spec(encode_spec(VariantV::Currency(c))) matches Ok(vv) && vv matches
            VariantV::Currency(r) && r.0.scale == 4 && r.0.mantissa() == rescaled4_mag(c.0),
{
    lemma_tag_bits(VariantType::VT_CY);
    lemma_i64_bits_roundtrip(currency_of_decimal(c.0) as i64);
    lemma_currency_truncates(c.0);
}

} // verus!
