use packed_value::arg::ArgValue;
use packed_value::buffer::{ByteArray, CBuf};
use packed_value::ret::RetValue;
use packed_value::type_code::TypeCode;
use packed_value::wire::{DataType, DeviceContext, WireValue};

fn roundtrip(v: RetValue) -> RetValue {
    let (w, code) = v.encode();
    RetValue::decode(w, code)
}

#[test]
fn int_through_wire() {
    assert!(matches!(roundtrip(RetValue::Int(-7)), RetValue::Int(-7)));
}

#[test]
fn uint_through_wire() {
    assert!(matches!(roundtrip(RetValue::UInt(9)), RetValue::UInt(9)));
}

#[test]
fn float_bits_through_wire() {
    let bits = f64::to_bits(2.5);
    match roundtrip(RetValue::Float(bits)) {
        RetValue::Float(b) => assert_eq!(f64::from_bits(b), 2.5),
        _ => panic!("wrong variant"),
    }
}

#[test]
fn data_type_through_wire() {
    let t = DataType { code: 2, bits: 32, lanes: 1 };
    match roundtrip(RetValue::DataType(t)) {
        RetValue::DataType(u) => assert_eq!(u, t),
        _ => panic!("wrong variant"),
    }
}

#[test]
fn context_through_wire() {
    let c = DeviceContext { device_type: 1, device_id: 0 };
    match roundtrip(RetValue::Context(c)) {
        RetValue::Context(d) => assert_eq!(d, c),
        _ => panic!("wrong variant"),
    }
}

#[test]
fn handles_through_wire() {
    assert!(matches!(roundtrip(RetValue::Handle(0xbeef)), RetValue::Handle(0xbeef)));
    assert!(matches!(roundtrip(RetValue::ArrayHandle(12)), RetValue::ArrayHandle(12)));
    assert!(matches!(roundtrip(RetValue::NodeHandle(13)), RetValue::NodeHandle(13)));
    assert!(matches!(roundtrip(RetValue::ModuleHandle(14)), RetValue::ModuleHandle(14)));
    assert!(matches!(roundtrip(RetValue::FuncHandle(15)), RetValue::FuncHandle(15)));
    assert!(matches!(
        roundtrip(RetValue::NDArrayContainer(16)),
        RetValue::NDArrayContainer(16)
    ));
}

#[test]
fn text_through_wire() {
    let v = RetValue::from_text(b"hello".to_vec()).unwrap();
    let back = roundtrip(v);
    assert_eq!(back.try_into_text().unwrap(), b"hello".to_vec());
}

#[test]
fn bytes_through_wire() {
    let v = RetValue::from_bytes(vec![0, 1, 2, 0, 255]);
    let back = roundtrip(v);
    assert_eq!(back.try_into_bytes().unwrap(), vec![0, 1, 2, 0, 255]);
}

#[test]
fn wire_slot_codes_match_variants() {
    let (w, code) = RetValue::Int(1).encode();
    assert!(matches!(w, WireValue::Int64(1)));
    assert_eq!(code, TypeCode::Int);
    let (w, code) = RetValue::UInt(1).encode();
    assert!(matches!(w, WireValue::Int64(1)));
    assert_eq!(code, TypeCode::UInt);
    let (w, code) = RetValue::Handle(5).encode();
    assert!(matches!(w, WireValue::Handle(5)));
    assert_eq!(code, TypeCode::Handle);
}

#[test]
fn owned_text_encoding_transfers_storage() {
    // The owned value's buffer moves into the wire slot; the slot's receiver
    // releases the storage exactly once.
    let v = RetValue::from_text(b"hi".to_vec()).unwrap();
    let (w, code) = v.encode();
    assert_eq!(code, TypeCode::Str);
    match w {
        WireValue::StrAddr(c) => assert_eq!(c.release(), b"hi\0".to_vec()),
        _ => panic!("wrong slot member"),
    }
}

#[test]
fn owned_bytes_encoding_keeps_explicit_length() {
    let v = RetValue::from_bytes(vec![7, 0, 7]);
    let (w, code) = v.encode();
    assert_eq!(code, TypeCode::Bytes);
    match w {
        WireValue::BytesAddr(b) => {
            assert_eq!(b.len(), 3);
            assert_eq!(b.release(), vec![7, 0, 7]);
        }
        _ => panic!("wrong slot member"),
    }
}

#[test]
fn decode_under_numeric_discriminants() {
    let r = RetValue::decode_raw(WireValue::Int64(6), 0);
    assert!(matches!(r, RetValue::Int(6)));
    let r = RetValue::decode_raw(WireValue::Int64(6), 1);
    assert!(matches!(r, RetValue::UInt(6)));
    let r = RetValue::decode_raw(WireValue::Handle(40), 13);
    assert!(matches!(r, RetValue::NDArrayContainer(40)));
    let c = CBuf::new(b"raw".to_vec()).unwrap();
    let w = WireValue::StrAddr(c);
    let a = ArgValue::decode_raw(&w, 11);
    assert_eq!(a.try_into_text_buf().unwrap().to_text(), b"raw".to_vec());
}

#[test]
fn decode_reads_the_member_the_code_selects() {
    let r = RetValue::decode(WireValue::Int64(-3), TypeCode::Int);
    assert!(matches!(r, RetValue::Int(-3)));
    let r = RetValue::decode(WireValue::Int64(3), TypeCode::UInt);
    assert!(matches!(r, RetValue::UInt(3)));
    let r = RetValue::decode(WireValue::Handle(77), TypeCode::ModuleHandle);
    assert!(matches!(r, RetValue::ModuleHandle(77)));
    let c = CBuf::new(b"abc".to_vec()).unwrap();
    let r = RetValue::decode(WireValue::StrAddr(c), TypeCode::Str);
    assert_eq!(r.try_into_text().unwrap(), b"abc".to_vec());
    let b = ByteArray::new(vec![9, 9]);
    let r = RetValue::decode(WireValue::BytesAddr(b), TypeCode::Bytes);
    assert_eq!(r.try_into_bytes().unwrap(), vec![9, 9]);
}
