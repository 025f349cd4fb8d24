//! The value codecs one by one: boolean, currency, decimal, date, text,
//! aliasing wrapper and interface handles.

use variant_rs::com_types::com_bool::ComBool;
use variant_rs::com_types::currency::{ComCurrency, Currency};
use variant_rs::com_types::date::{CivilDateTime, DateTime};
use variant_rs::com_types::decimal::{ComDecimal, Decimal};
use variant_rs::com_types::ptr_wrapper::{InterfaceHandle, PtrWrapper};
use variant_rs::com_types::string::{utf16_encode_units, ComString};
use variant_rs::convert::{decode, encode};
use variant_rs::wire::{WirePayload, WireVariant};
use variant_rs::{Variant, VariantConversionError};

#[test]
fn com_bool_conversions() {
    assert_eq!(ComBool::from(true), ComBool::True);
    assert_eq!(ComBool::from(false), ComBool::False);
    assert!(bool::from(ComBool::True));
    assert!(!bool::from(ComBool::False));
    assert_eq!(ComBool::True.to_i16(), -1);
    assert_eq!(ComBool::False.to_i16(), 0);
    assert_eq!(ComBool::from_i16(0), Some(ComBool::False));
    assert_eq!(ComBool::from_i16(-1), Some(ComBool::True));
    assert_eq!(ComBool::from_i16(5), None);
}

#[test]
fn bool_decode_accepts_any_nonzero() {
    let v = decode(WireVariant {
        vt: 11,
        payload: WirePayload::Scalar(0x0001),
    })
    .unwrap();
    assert_eq!(v, Variant::Bool(true));
    let v = decode(WireVariant {
        vt: 11,
        payload: WirePayload::Scalar(0),
    })
    .unwrap();
    assert_eq!(v, Variant::Bool(false));
}

#[test]
fn currency_truncates_to_four_digits() {
    // 12.34567 carries five fractional digits; the fifth is truncated,
    // never rounded.
    let fine = Decimal {
        negative: false,
        scale: 5,
        lo: 1_234_567,
        mid: 0,
        hi: 0,
    };
    let cy = ComCurrency::from_decimal(&fine);
    assert_eq!(cy.0, 123_456);
    let back = Currency::from_com(cy);
    assert_eq!(
        back.0,
        Decimal {
            negative: false,
            scale: 4,
            lo: 123_456,
            mid: 0,
            hi: 0,
        }
    );
}

#[test]
fn currency_exact_at_scale_four() {
    let exact = Decimal {
        negative: false,
        scale: 4,
        lo: 123_456,
        mid: 0,
        hi: 0,
    };
    let cy = ComCurrency::from_decimal(&exact);
    assert_eq!(cy.0, 123_456);
    assert_eq!(Currency::from_com(cy).0, exact);
}

#[test]
fn currency_negative_and_coarse_scales() {
    let neg = Decimal {
        negative: true,
        scale: 4,
        lo: 98_765,
        mid: 0,
        hi: 0,
    };
    assert_eq!(ComCurrency::from_decimal(&neg).0, -98_765);

    // 12 at scale 0 is 120000 in wire units.
    let coarse = Decimal {
        negative: false,
        scale: 0,
        lo: 12,
        mid: 0,
        hi: 0,
    };
    assert_eq!(ComCurrency::from_decimal(&coarse).0, 120_000);
}

#[test]
fn decimal_pack_reproduces_byte_pattern() {
    let d = Decimal {
        negative: false,
        scale: 4,
        lo: 123_456,
        mid: 0,
        hi: 0,
    };
    let packed = ComDecimal::pack(&d);
    assert_eq!(
        packed,
        ComDecimal {
            scale: 4,
            sign: 0,
            hi32: 0,
            lo64: 123_456,
        }
    );
    assert_eq!(packed.unpack(), d);
}

#[test]
fn decimal_pack_splits_limbs() {
    let d = Decimal {
        negative: true,
        scale: 28,
        lo: 0xAAAA_BBBB,
        mid: 0xCCCC_DDDD,
        hi: 0x1111_2222,
    };
    let packed = ComDecimal::pack(&d);
    assert_eq!(packed.scale, 28);
    assert_eq!(packed.sign, 0x80);
    assert_eq!(packed.hi32, 0x1111_2222);
    assert_eq!(packed.lo64, 0xCCCC_DDDD_AAAA_BBBB);
    assert_eq!(packed.unpack(), d);
}

#[test]
fn decimal_noncanonical_sign_reads_positive() {
    let packed = ComDecimal {
        scale: 2,
        sign: 0x55,
        hi32: 0,
        lo64: 100,
    };
    let d = packed.unpack();
    assert!(!d.negative);
}

#[test]
fn date_matches_chrono() {
    let epoch: chrono::NaiveDateTime = chrono::NaiveDate::from_ymd_opt(1899, 12, 30)
        .unwrap()
        .and_hms_opt(0, 0, 0)
        .unwrap();
    let cases = [
        (1900, 1, 4, 6, 0, 0),
        (1899, 12, 30, 0, 0, 0),
        (1970, 1, 1, 0, 0, 0),
        (2000, 2, 29, 23, 59, 59),
        (2024, 12, 31, 12, 30, 45),
        (1, 1, 1, 0, 0, 0),
        (9999, 12, 31, 23, 59, 59),
    ];
    for (y, mo, d, h, mi, s) in cases {
        let dt = DateTime::from_ymd_hms_milli(y, mo as u8, d as u8, h, mi, s, 0).unwrap();
        let ch = chrono::NaiveDate::from_ymd_opt(y, mo, d as u32)
            .unwrap()
            .and_hms_opt(h as u32, mi as u32, s as u32)
            .unwrap();
        assert_eq!(
            dt.millis(),
            (ch - epoch).num_milliseconds(),
            "mismatch for {y}-{mo}-{d}"
        );
    }
}

#[test]
fn date_reads_back_its_civil_components() {
    let cases = [
        (1900, 1, 4, 6, 0, 0, 0),
        (1899, 12, 30, 0, 0, 0, 0),
        (1899, 12, 29, 23, 59, 59, 999),
        (2000, 2, 29, 12, 0, 0, 1),
        (1900, 2, 28, 0, 0, 0, 0),
        (2024, 12, 31, 23, 59, 59, 999),
        (1, 1, 1, 0, 0, 0, 0),
        (9999, 12, 31, 23, 59, 59, 999),
        (400, 12, 31, 0, 0, 0, 0),
        (401, 1, 1, 0, 0, 0, 0),
    ];
    for (y, mo, d, h, mi, s, ms) in cases {
        let dt = DateTime::from_ymd_hms_milli(y, mo, d, h, mi, s, ms).unwrap();
        let civil = dt.to_civil().unwrap();
        assert_eq!(
            civil,
            CivilDateTime {
                year: y,
                month: mo,
                day: d,
                hour: h,
                minute: mi,
                second: s,
                millisecond: ms,
            },
            "mismatch for {y}-{mo}-{d}"
        );
    }
}

#[test]
fn date_civil_reading_matches_chrono() {
    let epoch: chrono::NaiveDateTime = chrono::NaiveDate::from_ymd_opt(1899, 12, 30)
        .unwrap()
        .and_hms_opt(0, 0, 0)
        .unwrap();
    for millis in [
        0i64,
        453_600_000,
        -1,
        86_399_999,
        -86_400_000,
        1_234_567_890_123,
        -59_926_435_200_000,
    ] {
        let civil = DateTime::from_millis(millis).to_civil().unwrap();
        let ch = epoch + chrono::Duration::milliseconds(millis);
        assert_eq!(civil.year, chrono::Datelike::year(&ch), "year for {millis}");
        assert_eq!(
            civil.month as u32,
            chrono::Datelike::month(&ch),
            "month for {millis}"
        );
        assert_eq!(civil.day as u32, chrono::Datelike::day(&ch), "day for {millis}");
        assert_eq!(
            civil.hour as u32,
            chrono::Timelike::hour(&ch),
            "hour for {millis}"
        );
        assert_eq!(
            civil.minute as u32,
            chrono::Timelike::minute(&ch),
            "minute for {millis}"
        );
        assert_eq!(
            civil.second as u32,
            chrono::Timelike::second(&ch),
            "second for {millis}"
        );
        assert_eq!(
            civil.millisecond as u32,
            chrono::Timelike::nanosecond(&ch) / 1_000_000,
            "millisecond for {millis}"
        );
    }
}

#[test]
fn date_civil_reading_rejects_out_of_range() {
    // One millisecond before 0001-01-01T00:00:00.
    assert!(DateTime::from_millis(-59_926_435_200_001).to_civil().is_none());
    assert!(DateTime::from_millis(-59_926_435_200_000).to_civil().is_some());
    // One millisecond past 9999-12-31T23:59:59.999.
    let max = DateTime::from_ymd_hms_milli(9999, 12, 31, 23, 59, 59, 999)
        .unwrap()
        .millis();
    assert!(DateTime::from_millis(max).to_civil().is_some());
    assert!(DateTime::from_millis(max + 1).to_civil().is_none());
}

#[test]
fn date_rejects_invalid_components() {
    assert!(DateTime::from_ymd_hms_milli(1900, 2, 29, 0, 0, 0, 0).is_none());
    assert!(DateTime::from_ymd_hms_milli(2000, 2, 29, 0, 0, 0, 0).is_some());
    assert!(DateTime::from_ymd_hms_milli(2024, 13, 1, 0, 0, 0, 0).is_none());
    assert!(DateTime::from_ymd_hms_milli(2024, 0, 1, 0, 0, 0, 0).is_none());
    assert!(DateTime::from_ymd_hms_milli(2024, 4, 31, 0, 0, 0, 0).is_none());
    assert!(DateTime::from_ymd_hms_milli(2024, 1, 1, 24, 0, 0, 0).is_none());
    assert!(DateTime::from_ymd_hms_milli(2024, 1, 1, 0, 60, 0, 0).is_none());
    assert!(DateTime::from_ymd_hms_milli(0, 1, 1, 0, 0, 0, 0).is_none());
    assert!(DateTime::from_ymd_hms_milli(10000, 1, 1, 0, 0, 0, 0).is_none());
}

#[test]
fn utf16_encoder_matches_std() {
    for text in ["", "Hello, world!", "a\u{1D11E}b", "\u{FFFD}\u{00E9}"] {
        let ours = utf16_encode_units(text);
        let std_units: Vec<u16> = text.encode_utf16().collect();
        assert_eq!(ours, std_units, "mismatch for {text:?}");
    }
}

#[test]
fn utf16_encoder_matches_widestring() {
    let ours = utf16_encode_units("Hello, world!");
    let wide = widestring::U16CString::from_str("Hello, world!").unwrap();
    assert_eq!(ours.as_slice(), wide.as_slice());
}

#[test]
fn text_with_nul_fails_byref_form() {
    // The NUL-terminated by-reference form refuses embedded NULs...
    let r = ComString::try_from("Hello,\0world!");
    assert_eq!(r.unwrap_err(), VariantConversionError::StringConversionError);
    assert!(widestring::U16CString::from_str("Hello,\0world!").is_err());

    // ...while the length-prefixed primary form carries them unharmed.
    let wire = encode(Variant::Str(String::from("Hello,\0world!"))).unwrap();
    let back = decode(wire).unwrap();
    assert_eq!(back, Variant::Str(String::from("Hello,\0world!")));
}

#[test]
fn com_string_roundtrip() {
    let mut c = ComString::try_from("Hello, world!").unwrap();
    assert_eq!(c.try_into_string().unwrap(), "Hello, world!");
    let units: Vec<u16> = "Hello, world!".encode_utf16().collect();
    assert_eq!(c.as_mut_ptr().as_slice(), units.as_slice());
}

#[test]
fn com_string_from_raw_units() {
    let ok = ComString::from_units(vec![0x61, 0x62]).unwrap();
    assert_eq!(ok.try_into_string().unwrap(), "ab");
    assert_eq!(
        ComString::from_units(vec![0x61, 0, 0x62]).unwrap_err(),
        VariantConversionError::StringConversionError
    );
    // Raw units may be ill-formed UTF-16; decoding reports that.
    let bad = ComString::from_units(vec![0xD800]).unwrap();
    assert_eq!(
        bad.try_into_string().unwrap_err(),
        VariantConversionError::StringConversionError
    );
}

#[test]
fn ptr_wrapper_identity() {
    assert!(PtrWrapper::try_from(0).is_err());
    let a = PtrWrapper::try_from(0x1000).unwrap();
    let b = PtrWrapper::try_from(0x1000).unwrap();
    let c = PtrWrapper::try_from(0x2000).unwrap();
    assert_eq!(a, b);
    assert_ne!(a, c);
    assert_eq!(a.addr(), 0x1000);
}

#[test]
fn dispatch_handle_roundtrip() {
    let h = InterfaceHandle::from_nonzero(0x5000);
    let wire = encode(Variant::Dispatch(Some(h))).unwrap();
    assert_eq!(wire.vt, 9);
    let v = decode(wire).unwrap();
    assert!(matches!(&v, Variant::Dispatch(Some(h)) if h.addr() == 0x5000));
}

#[test]
fn null_handle_is_a_distinct_state() {
    // A null dispatch handle decodes to "no handle", not to a failure.
    let v = decode(WireVariant {
        vt: 9,
        payload: WirePayload::DispatchSlot(None),
    })
    .unwrap();
    assert_eq!(v, Variant::Dispatch(None));
    let v = decode(WireVariant {
        vt: 13,
        payload: WirePayload::Zeroed,
    })
    .unwrap();
    assert_eq!(v, Variant::Unknown(None));
}

#[test]
fn variant_clone_of_direct_values() {
    let v = Variant::Str(String::from("abc"));
    let w = v.clone();
    assert_eq!(v, w);
    let v = Variant::Decimal(Decimal {
        negative: true,
        scale: 2,
        lo: 5,
        mid: 0,
        hi: 0,
    });
    assert_eq!(v.clone(), v);
}
