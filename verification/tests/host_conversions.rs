use packed_value::arg::ArgValue;
use packed_value::buffer::{ByteArray, CBuf, EncodeError};
use packed_value::error::HostType;
use packed_value::ret::RetValue;
use packed_value::type_code::TypeCode;
use packed_value::wire::{DataType, DeviceContext};

#[test]
fn ret_integer_roundtrips() {
    assert_eq!(RetValue::from_i8(-5).try_into_i8(), Ok(-5));
    assert_eq!(RetValue::from_i16(-500).try_into_i16(), Ok(-500));
    assert_eq!(RetValue::from_i32(123456).try_into_i32(), Ok(123456));
    assert_eq!(RetValue::from_i64(i64::MIN).try_into_i64(), Ok(i64::MIN));
    assert_eq!(RetValue::from_isize(-42).try_into_isize(), Ok(-42));
    assert_eq!(RetValue::from_i8(i8::MAX).try_into_i8(), Ok(i8::MAX));
}

#[test]
fn arg_integer_roundtrips() {
    assert_eq!(ArgValue::from_i8(-5).try_into_i8(), Ok(-5));
    assert_eq!(ArgValue::from_i16(-500).try_into_i16(), Ok(-500));
    assert_eq!(ArgValue::from_i32(123456).try_into_i32(), Ok(123456));
    assert_eq!(ArgValue::from_i64(i64::MAX).try_into_i64(), Ok(i64::MAX));
    assert_eq!(ArgValue::from_isize(42).try_into_isize(), Ok(42));
}

#[test]
fn float_bits_roundtrip() {
    let bits = f64::to_bits(-1.25);
    assert_eq!(RetValue::from_float_bits(bits).try_into_float_bits(), Ok(bits));
    assert_eq!(ArgValue::from_float_bits(bits).try_into_float_bits(), Ok(bits));
}

#[test]
fn descriptor_roundtrips() {
    let t = DataType { code: 0, bits: 64, lanes: 2 };
    assert_eq!(RetValue::from_data_type(t).try_into_data_type(), Ok(t));
    assert_eq!(ArgValue::from_data_type(t).try_into_data_type(), Ok(t));
    let c = DeviceContext { device_type: 2, device_id: 1 };
    assert_eq!(RetValue::from_context(c).try_into_context(), Ok(c));
    assert_eq!(ArgValue::from_context(c).try_into_context(), Ok(c));
}

#[test]
fn address_packs_as_handle() {
    assert!(matches!(RetValue::from_address(0x1000), RetValue::Handle(0x1000)));
    assert!(matches!(ArgValue::from_address(0x1000), ArgValue::Handle(0x1000)));
    assert!(matches!(
        ArgValue::from_array_address(0x2000),
        ArgValue::ArrayHandle(0x2000)
    ));
}

#[test]
fn text_roundtrips() {
    let v = RetValue::from_text(b"hello, world!".to_vec()).unwrap();
    assert_eq!(v.try_into_text().unwrap(), b"hello, world!".to_vec());
    let c = CBuf::new(b"hello".to_vec()).unwrap();
    let a = ArgValue::from_text_buf(&c);
    assert_eq!(a.try_into_text_buf().unwrap().to_text(), b"hello".to_vec());
}

#[test]
fn bytes_roundtrip() {
    let v = RetValue::from_bytes(vec![1, 0, 2]);
    assert_eq!(v.try_into_bytes(), Ok(vec![1, 0, 2]));
    let b = ByteArray::new(vec![1, 0, 2]);
    let a = ArgValue::from_byte_array(&b);
    assert_eq!(a.try_into_byte_array().unwrap().duplicate().release(), vec![1, 0, 2]);
}

#[test]
fn downcast_mismatch_names_both_sides() {
    let e = RetValue::from_i64(3).try_into_text().unwrap_err();
    assert_eq!(e.actual, TypeCode::Int);
    assert_eq!(e.expected, HostType::Text);
    assert_eq!(e.actual_name(), "Int");
    assert_eq!(e.expected_name(), "text");
}

#[test]
fn downcast_mismatch_is_an_error_not_a_panic() {
    assert!(RetValue::from_float_bits(1).try_into_i64().is_err());
    assert!(RetValue::from_i64(1).try_into_float_bits().is_err());
    assert!(RetValue::from_bytes(vec![]).try_into_text().is_err());
    let e = ArgValue::from_i64(8).try_into_text_buf().unwrap_err();
    assert_eq!(e.actual, TypeCode::Int);
    assert_eq!(e.expected, HostType::Text);
    let e = ArgValue::from_float_bits(0).try_into_context().unwrap_err();
    assert_eq!(e.actual, TypeCode::Float);
    assert_eq!(e.expected, HostType::Context);
}

#[test]
fn narrowing_readback_truncates_by_contract() {
    // The narrowing read-back is the caller's responsibility and truncates.
    assert_eq!(RetValue::from_i64(0x1_0000_0001).try_into_i32(), Ok(1));
    assert_eq!(ArgValue::from_i64(-1).try_into_i8(), Ok(-1));
}

#[test]
fn embedded_nul_is_a_recoverable_encoding_error() {
    let e = RetValue::from_text(b"a\0b".to_vec()).unwrap_err();
    assert_eq!(e, EncodeError::InteriorNul { position: 1 });
    let e = CBuf::new(vec![0]).unwrap_err();
    assert_eq!(e, EncodeError::InteriorNul { position: 0 });
    assert!(CBuf::new(b"no nul here".to_vec()).is_ok());
}

#[test]
fn releasing_owned_storage_happens_exactly_once() {
    // Single ownership: the buffer can only be released by consuming the
    // value, so a second release of the same storage does not compile.
    let c = CBuf::new(b"once".to_vec()).unwrap();
    let storage = c.release();
    assert_eq!(storage, b"once\0".to_vec());
}
