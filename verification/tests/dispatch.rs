//! The tag registry and the invocation failure classification.

use variant_rs::dispatch::{
    classify_invoke_error, encode_args, ComArgumentError, IDispatchError, DISP_E_EXCEPTION,
    DISP_E_PARAMNOTFOUND, DISP_E_TYPEMISMATCH,
};
use variant_rs::wire::WirePayload;
use variant_rs::{TagClass, Variant, VariantType};

#[test]
fn byref_sets_the_flag_bit() {
    assert_eq!(VariantType::VT_I4.byref(), 0x4003);
    assert_eq!(VariantType::VT_VARIANT.byref(), 0x400C);
    assert_eq!(VariantType::VT_BSTR.byref(), 0x4008);
}

#[test]
fn registry_is_a_bijection() {
    for code in 0u16..=40 {
        if let Some(t) = VariantType::from_code(code) {
            assert_eq!(t.code(), code);
        }
    }
    assert_eq!(VariantType::from_code(0), Some(VariantType::VT_EMPTY));
    assert_eq!(VariantType::from_code(14), Some(VariantType::VT_DECIMAL));
    assert_eq!(VariantType::from_code(36), Some(VariantType::VT_RECORD));
    assert_eq!(VariantType::from_code(15), None);
    assert_eq!(VariantType::from_code(32), None);
    assert_eq!(VariantType::from_code(39), None);
}

#[test]
fn classification_of_each_kind() {
    assert_eq!(VariantType::VT_EMPTY.classify(), TagClass::DirectOnly);
    assert_eq!(VariantType::VT_BSTR.classify(), TagClass::DirectOnly);
    assert_eq!(VariantType::VT_VARIANT.classify(), TagClass::RefOnly);
    assert_eq!(VariantType::VT_I4.classify(), TagClass::Dual);
    assert_eq!(VariantType::VT_DECIMAL.classify(), TagClass::Dual);
    assert_eq!(VariantType::VT_RECORD.classify(), TagClass::Unimplemented);
    assert_eq!(VariantType::VT_VOID.classify(), TagClass::DescriptorOnly);
    assert_eq!(VariantType::VT_LPWSTR.classify(), TagClass::DescriptorOnly);
}

#[test]
fn invoke_errors_are_classified() {
    assert_eq!(
        classify_invoke_error(DISP_E_EXCEPTION, 0),
        IDispatchError::Exception
    );
    assert_eq!(
        classify_invoke_error(DISP_E_TYPEMISMATCH, 2),
        IDispatchError::Argument(ComArgumentError::TypeMismatch, 2)
    );
    assert_eq!(
        classify_invoke_error(DISP_E_PARAMNOTFOUND, 1),
        IDispatchError::Argument(ComArgumentError::ParameterNotFound, 1)
    );
    assert_eq!(
        classify_invoke_error(-1, 0),
        IDispatchError::GenericWin32(-1)
    );
}

#[test]
fn invocation_arguments_are_reversed() {
    let args = vec![
        Variant::I32(1),
        Variant::Bool(true),
        Variant::Str(String::from("x")),
    ];
    let wires = encode_args(args).unwrap();
    assert_eq!(wires.len(), 3);
    assert_eq!(wires[0].vt, 8);
    assert!(matches!(&wires[0].payload, WirePayload::Text(u) if u.as_slice() == [0x78]));
    assert_eq!(wires[1].vt, 11);
    assert!(matches!(wires[1].payload, WirePayload::Scalar(0xFFFF)));
    assert_eq!(wires[2].vt, 3);
    assert!(matches!(wires[2].payload, WirePayload::Scalar(1)));
}

#[test]
fn disp_error_constants_match_the_wire_values() {
    assert_eq!(DISP_E_EXCEPTION, 0x8002_0009u32 as i32);
    assert_eq!(DISP_E_TYPEMISMATCH, 0x8002_0005u32 as i32);
    assert_eq!(DISP_E_PARAMNOTFOUND, 0x8002_0004u32 as i32);
}
