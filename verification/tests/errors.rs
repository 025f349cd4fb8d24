//! The error taxonomy of the dispatcher: each failure on an input that
//! provokes it, and the by-reference legality rules.

use variant_rs::convert::{decode, encode};
use variant_rs::wire::{WirePayload, WireVariant};
use variant_rs::{Variant, VariantConversionError, VariantType};

#[test]
fn byref_on_empty_is_invalid_reference() {
    let r = decode(WireVariant {
        vt: VariantType::VT_EMPTY.byref(),
        payload: WirePayload::Zeroed,
    });
    assert_eq!(
        r,
        Err(VariantConversionError::InvalidReference(
            VariantType::VT_EMPTY
        ))
    );
}

#[test]
fn byref_on_null_is_invalid_reference() {
    let r = decode(WireVariant {
        vt: VariantType::VT_NULL.byref(),
        payload: WirePayload::Zeroed,
    });
    assert_eq!(
        r,
        Err(VariantConversionError::InvalidReference(
            VariantType::VT_NULL
        ))
    );
}

#[test]
fn byref_on_string_is_invalid_reference() {
    let r = decode(WireVariant {
        vt: VariantType::VT_BSTR.byref(),
        payload: WirePayload::Scalar(0x1000),
    });
    assert_eq!(
        r,
        Err(VariantConversionError::InvalidReference(
            VariantType::VT_BSTR
        ))
    );
}

#[test]
fn byref_on_dispatch_is_invalid_reference() {
    let r = decode(WireVariant {
        vt: VariantType::VT_DISPATCH.byref(),
        payload: WirePayload::Scalar(0x1000),
    });
    assert_eq!(
        r,
        Err(VariantConversionError::InvalidReference(
            VariantType::VT_DISPATCH
        ))
    );
}

#[test]
fn byref_on_unknown_handle_is_invalid_reference() {
    let r = decode(WireVariant {
        vt: VariantType::VT_UNKNOWN.byref(),
        payload: WirePayload::Scalar(0x1000),
    });
    assert_eq!(
        r,
        Err(VariantConversionError::InvalidReference(
            VariantType::VT_UNKNOWN
        ))
    );
}

#[test]
fn nested_variant_without_flag_is_invalid_direct() {
    let r = decode(WireVariant {
        vt: VariantType::VT_VARIANT.code(),
        payload: WirePayload::Scalar(0x1000),
    });
    assert_eq!(
        r,
        Err(VariantConversionError::InvalidDirect(
            VariantType::VT_VARIANT
        ))
    );
}

#[test]
fn unknown_code_is_reported_with_full_field() {
    let r = decode(WireVariant {
        vt: 1000,
        payload: WirePayload::Zeroed,
    });
    assert_eq!(r, Err(VariantConversionError::UnknownType(1000)));

    let r = decode(WireVariant {
        vt: 0x4000 | 999,
        payload: WirePayload::Scalar(7),
    });
    assert_eq!(r, Err(VariantConversionError::UnknownType(0x4000 | 999)));
}

#[test]
fn record_is_unimplemented() {
    let r = decode(WireVariant {
        vt: 36,
        payload: WirePayload::Zeroed,
    });
    assert_eq!(
        r,
        Err(VariantConversionError::Unimplemented(
            VariantType::VT_RECORD
        ))
    );
    // The flag makes no difference on an unimplemented code.
    let r = decode(WireVariant {
        vt: VariantType::VT_RECORD.byref(),
        payload: WirePayload::Zeroed,
    });
    assert_eq!(
        r,
        Err(VariantConversionError::Unimplemented(
            VariantType::VT_RECORD
        ))
    );
}

#[test]
fn descriptor_only_codes_are_refused() {
    for code in [24u16, 25, 26, 27, 28, 29, 30, 31, 37, 38] {
        let r = decode(WireVariant {
            vt: code,
            payload: WirePayload::Zeroed,
        });
        let t = VariantType::from_code(code).unwrap();
        assert_eq!(r, Err(VariantConversionError::TypeDescOnly(t)));
    }
}

#[test]
fn null_byref_address_is_generic_failure() {
    let r = decode(WireVariant {
        vt: VariantType::VT_I4.byref(),
        payload: WirePayload::Scalar(0),
    });
    assert_eq!(r, Err(VariantConversionError::GenericConversionError));

    // A zeroed payload under a by-reference tag is a null pointer too.
    let r = decode(WireVariant {
        vt: VariantType::VT_I4.byref(),
        payload: WirePayload::Zeroed,
    });
    assert_eq!(r, Err(VariantConversionError::GenericConversionError));
}

#[test]
fn ill_formed_utf16_is_string_conversion_failure() {
    let r = decode(WireVariant {
        vt: 8,
        payload: WirePayload::Text(vec![0xD800]),
    });
    assert_eq!(r, Err(VariantConversionError::StringConversionError));

    let r = decode(WireVariant {
        vt: 8,
        payload: WirePayload::Text(vec![0x61, 0xDC00, 0x62]),
    });
    assert_eq!(r, Err(VariantConversionError::StringConversionError));
}

#[test]
fn mismatched_payload_slot_is_generic_failure() {
    // A numeric tag over a text slot cannot be read.
    let r = decode(WireVariant {
        vt: 3,
        payload: WirePayload::Text(vec![0x61]),
    });
    assert_eq!(r, Err(VariantConversionError::GenericConversionError));
}

#[test]
fn byref_roundtrip_preserves_address() {
    let wire = WireVariant {
        vt: VariantType::VT_I4.byref(),
        payload: WirePayload::Scalar(0xDEAD_B000),
    };
    let v = decode(WireVariant {
        vt: wire.vt,
        payload: WirePayload::Scalar(0xDEAD_B000),
    })
    .unwrap();
    match &v {
        Variant::I32Ref(p) => assert_eq!(p.addr(), 0xDEAD_B000),
        other => panic!("expected an I32 alias, got {:?}", other),
    }
    let back = encode(v).unwrap();
    assert_eq!(back, wire);
}

#[test]
fn byref_roundtrip_error_code() {
    let wire = WireVariant {
        vt: VariantType::VT_ERROR.byref(),
        payload: WirePayload::Scalar(0x2000),
    };
    let v = decode(WireVariant {
        vt: wire.vt,
        payload: WirePayload::Scalar(0x2000),
    })
    .unwrap();
    assert!(matches!(&v, Variant::ErrorRef(p) if p.addr() == 0x2000));
    assert_eq!(encode(v).unwrap(), wire);
}

#[test]
fn nested_variant_ref_roundtrip() {
    let wire = WireVariant {
        vt: VariantType::VT_VARIANT.byref(),
        payload: WirePayload::Scalar(0x3000),
    };
    let v = decode(WireVariant {
        vt: wire.vt,
        payload: WirePayload::Scalar(0x3000),
    })
    .unwrap();
    assert!(matches!(&v, Variant::VariantRef(p) if p.addr() == 0x3000));
    assert_eq!(encode(v).unwrap(), wire);
}

#[test]
fn error_code_direct_roundtrip() {
    let wire = WireVariant {
        vt: 10,
        payload: WirePayload::Scalar(0x8002_0009),
    };
    let v = decode(WireVariant {
        vt: 10,
        payload: WirePayload::Scalar(0x8002_0009),
    })
    .unwrap();
    assert_eq!(v, Variant::Error(-2147352567));
    assert_eq!(encode(v).unwrap(), wire);
}

#[test]
fn machine_word_codes_decode_as_fixed_width() {
    let v = decode(WireVariant {
        vt: 22,
        payload: WirePayload::Scalar(7),
    })
    .unwrap();
    assert_eq!(v, Variant::I32(7));
    let v = decode(WireVariant {
        vt: 23,
        payload: WirePayload::Scalar(7),
    })
    .unwrap();
    assert_eq!(v, Variant::U32(7));
}
