//! Round trips between wire values and variants for every dual-kind tag.

use variant_rs::com_types::currency::Currency;
use variant_rs::com_types::date::DateTime;
use variant_rs::com_types::decimal::{ComDecimal, Decimal};
use variant_rs::com_types::string::utf16_encode_units;
use variant_rs::convert::{decode, encode};
use variant_rs::wire::{WirePayload, WireVariant};
use variant_rs::{ToVariant, Variant};

fn roundtrip(wire: WireVariant, expected: Variant) {
    let wire_copy = clone_wire(&wire);
    let conv = decode(wire).expect("wire to variant");
    assert_eq!(conv, expected, "wire to variant");
    let back = encode(conv).expect("variant to wire");
    assert_eq!(back, wire_copy, "variant to wire");
}

fn clone_wire(w: &WireVariant) -> WireVariant {
    let payload = match &w.payload {
        WirePayload::Zeroed => WirePayload::Zeroed,
        WirePayload::Scalar(b) => WirePayload::Scalar(*b),
        WirePayload::Dec(d) => WirePayload::Dec(*d),
        WirePayload::Text(t) => WirePayload::Text(t.clone()),
        WirePayload::DispatchSlot(_) | WirePayload::UnknownSlot(_) => {
            panic!("handles are not cloned in tests")
        }
    };
    WireVariant { vt: w.vt, payload }
}

#[test]
fn vt_empty() {
    roundtrip(
        WireVariant {
            vt: 0,
            payload: WirePayload::Zeroed,
        },
        Variant::Empty,
    );
}

#[test]
fn vt_null() {
    roundtrip(
        WireVariant {
            vt: 1,
            payload: WirePayload::Zeroed,
        },
        Variant::Null,
    );
}

#[test]
fn vt_bool() {
    roundtrip(
        WireVariant {
            vt: 11,
            payload: WirePayload::Scalar(0xFFFF),
        },
        Variant::Bool(true),
    );
}

#[test]
fn vt_i1() {
    roundtrip(
        WireVariant {
            vt: 16,
            payload: WirePayload::Scalar(0x55),
        },
        Variant::I8(0x55),
    );
}

#[test]
fn vt_i2() {
    roundtrip(
        WireVariant {
            vt: 2,
            payload: WirePayload::Scalar(0x55AA),
        },
        Variant::I16(0x55AA),
    );
}

#[test]
fn vt_i4() {
    roundtrip(
        WireVariant {
            vt: 3,
            payload: WirePayload::Scalar(0x55AA_55AA),
        },
        Variant::I32(0x55AA_55AA),
    );
}

#[test]
fn vt_i8() {
    roundtrip(
        WireVariant {
            vt: 20,
            payload: WirePayload::Scalar(0x55AA_55AA_55AA_55AA),
        },
        Variant::I64(0x55AA_55AA_55AA_55AA),
    );
}

#[test]
fn vt_i2_negative() {
    // -2 is stored as its two's-complement pattern in the low 16 bits.
    roundtrip(
        WireVariant {
            vt: 2,
            payload: WirePayload::Scalar(0xFFFE),
        },
        Variant::I16(-2),
    );
}

#[test]
fn vt_ui1() {
    roundtrip(
        WireVariant {
            vt: 17,
            payload: WirePayload::Scalar(0x55),
        },
        Variant::U8(0x55),
    );
}

#[test]
fn vt_ui2() {
    roundtrip(
        WireVariant {
            vt: 18,
            payload: WirePayload::Scalar(0x55AA),
        },
        Variant::U16(0x55AA),
    );
}

#[test]
fn vt_ui4() {
    roundtrip(
        WireVariant {
            vt: 19,
            payload: WirePayload::Scalar(0x55AA_55AA),
        },
        Variant::U32(0x55AA_55AA),
    );
}

#[test]
fn vt_ui8() {
    roundtrip(
        WireVariant {
            vt: 21,
            payload: WirePayload::Scalar(0x55AA_55AA_55AA_55AA),
        },
        Variant::U64(0x55AA_55AA_55AA_55AA),
    );
}

#[test]
fn vt_r4() {
    let bits = 0.5f32.to_bits();
    roundtrip(
        WireVariant {
            vt: 4,
            payload: WirePayload::Scalar(bits as u64),
        },
        Variant::F32(bits),
    );
}

#[test]
fn vt_r8() {
    let bits = 0.5f64.to_bits();
    roundtrip(
        WireVariant {
            vt: 5,
            payload: WirePayload::Scalar(bits),
        },
        Variant::F64(bits),
    );
}

#[test]
fn vt_cy() {
    // 12.3456 scaled by 10^4.
    roundtrip(
        WireVariant {
            vt: 6,
            payload: WirePayload::Scalar(123456),
        },
        Variant::Currency(Currency(Decimal {
            negative: false,
            scale: 4,
            lo: 123456,
            mid: 0,
            hi: 0,
        })),
    );
}

#[test]
fn vt_decimal() {
    // 12.3456 as sign/scale/mantissa; the byte pattern must reproduce.
    roundtrip(
        WireVariant {
            vt: 14,
            payload: WirePayload::Dec(ComDecimal {
                scale: 4,
                sign: 0,
                hi32: 0,
                lo64: 123456,
            }),
        },
        Variant::Decimal(Decimal {
            negative: false,
            scale: 4,
            lo: 123456,
            mid: 0,
            hi: 0,
        }),
    );
}

#[test]
fn vt_date() {
    // Serial date 5.25 is 1900-01-04T06:00:00; the platform boundary
    // carries it as whole milliseconds.
    let millis = (5.25f64 * 86_400_000.0).round() as i64;
    let expected = DateTime::from_ymd_hms_milli(1900, 1, 4, 6, 0, 0, 0).unwrap();
    roundtrip(
        WireVariant {
            vt: 7,
            payload: WirePayload::Scalar(millis as u64),
        },
        Variant::Date(expected),
    );
}

#[test]
fn vt_date_epoch() {
    // Serial date 0.0 is the epoch 1899-12-30T00:00:00 itself.
    let expected = DateTime::from_ymd_hms_milli(1899, 12, 30, 0, 0, 0, 0).unwrap();
    assert_eq!(expected.millis(), 0);
    roundtrip(
        WireVariant {
            vt: 7,
            payload: WirePayload::Scalar(0),
        },
        Variant::Date(expected),
    );
}

#[test]
fn vt_bstr() {
    roundtrip(
        WireVariant {
            vt: 8,
            payload: WirePayload::Text(utf16_encode_units("Hello, world!")),
        },
        Variant::Str(String::from("Hello, world!")),
    );
}

#[test]
fn vt_bstr_surrogate_pair() {
    let text = "a\u{1D11E}b";
    roundtrip(
        WireVariant {
            vt: 8,
            payload: WirePayload::Text(utf16_encode_units(text)),
        },
        Variant::Str(String::from(text)),
    );
}

#[test]
fn zeroed_scalar_reads_as_zero() {
    let v = decode(WireVariant {
        vt: 3,
        payload: WirePayload::Zeroed,
    })
    .unwrap();
    assert_eq!(v, Variant::I32(0));
}

#[test]
fn main() {
    let v1 = Variant::I32(123); // manual instantiation
    let v2 = 123.to_variant(); // ToVariant trait
    let v3 = 123.into(); // From / Into traits
    assert_eq!(v1, v2);
    assert_eq!(v1, v3);

    let bstr: Variant = "Hello, world!".into();
    let ptr: WireVariant = encode(bstr.clone()).unwrap(); // convert to the wire value
    let back: Variant = decode(ptr).unwrap(); // convert back
    assert_eq!(bstr, back);
}
