use packed_value::type_code::TypeCode;

const ALL_CODES: [TypeCode; 13] = [
    TypeCode::Int,
    TypeCode::UInt,
    TypeCode::Float,
    TypeCode::Handle,
    TypeCode::DataType,
    TypeCode::Context,
    TypeCode::ArrayHandle,
    TypeCode::NodeHandle,
    TypeCode::ModuleHandle,
    TypeCode::FuncHandle,
    TypeCode::Str,
    TypeCode::Bytes,
    TypeCode::NDArrayContainer,
];

#[test]
fn every_code_maps_to_a_discriminant_and_back() {
    for c in ALL_CODES {
        let raw = c.as_raw();
        assert_eq!(TypeCode::from_raw(raw), Some(c));
    }
}

#[test]
fn no_two_codes_share_a_discriminant() {
    for (i, a) in ALL_CODES.iter().enumerate() {
        for (j, b) in ALL_CODES.iter().enumerate() {
            if i != j {
                assert_ne!(a.as_raw(), b.as_raw());
            }
        }
    }
}

#[test]
fn numeric_values_are_the_wire_contract() {
    assert_eq!(TypeCode::Int.as_raw(), 0);
    assert_eq!(TypeCode::UInt.as_raw(), 1);
    assert_eq!(TypeCode::Float.as_raw(), 2);
    assert_eq!(TypeCode::Handle.as_raw(), 3);
    assert_eq!(TypeCode::DataType.as_raw(), 5);
    assert_eq!(TypeCode::Context.as_raw(), 6);
    assert_eq!(TypeCode::ArrayHandle.as_raw(), 7);
    assert_eq!(TypeCode::NodeHandle.as_raw(), 8);
    assert_eq!(TypeCode::ModuleHandle.as_raw(), 9);
    assert_eq!(TypeCode::FuncHandle.as_raw(), 10);
    assert_eq!(TypeCode::Str.as_raw(), 11);
    assert_eq!(TypeCode::Bytes.as_raw(), 12);
    assert_eq!(TypeCode::NDArrayContainer.as_raw(), 13);
}

#[test]
fn unknown_discriminants_decode_to_none() {
    assert_eq!(TypeCode::from_raw(4), None);
    assert_eq!(TypeCode::from_raw(14), None);
    assert_eq!(TypeCode::from_raw(99), None);
    assert_eq!(TypeCode::from_raw(u32::MAX), None);
}

#[test]
fn code_names_render() {
    assert_eq!(TypeCode::Int.name(), "Int");
    assert_eq!(TypeCode::Str.name(), "Str");
    assert_eq!(TypeCode::NDArrayContainer.name(), "NDArrayContainer");
}
