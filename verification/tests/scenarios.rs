use packed_value::arg::{encode_args, ArgValue};
use packed_value::buffer::CBuf;
use packed_value::ret::RetValue;
use packed_value::type_code::TypeCode;
use packed_value::wire::WireValue;

#[test]
fn int_argument_scenario() {
    // Packing 42i32 gives the Int variant under the Int code; decoding the
    // slot back and downcasting to i32 returns 42.
    let a = ArgValue::from_i32(42);
    assert!(matches!(a, ArgValue::Int(42)));
    let (w, code) = a.encode();
    assert!(matches!(w, WireValue::Int64(42)));
    assert_eq!(code, TypeCode::Int);
    let back = ArgValue::decode(&w, code);
    assert_eq!(back.try_into_i32(), Ok(42));
}

#[test]
fn borrowed_string_scenario() {
    // Encoding "hello" as a borrowed argument puts a nul-terminated copy of
    // the caller's buffer behind the wire slot; decoding the slot as an
    // owned value yields independently owned text equal to "hello".
    let c = CBuf::new(b"hello".to_vec()).unwrap();
    let a = ArgValue::from_text_buf(&c);
    let (w, code) = a.encode();
    assert_eq!(code, TypeCode::Str);
    match &w {
        WireValue::StrAddr(d) => assert_eq!(d.duplicate().release(), b"hello\0".to_vec()),
        _ => panic!("wrong slot member"),
    }
    let owned = RetValue::decode(w, code);
    // The caller still holds its own buffer; the owned value has its copy.
    assert_eq!(c.to_text(), b"hello".to_vec());
    assert_eq!(owned.try_into_text().unwrap(), b"hello".to_vec());
}

#[test]
fn empty_string_edge_case() {
    // The empty string encodes to a valid nul-terminated zero-length buffer
    // and decodes back to the empty string, not an error.
    let v = RetValue::from_text(Vec::new()).unwrap();
    let (w, code) = v.encode();
    assert_eq!(code, TypeCode::Str);
    match &w {
        WireValue::StrAddr(d) => assert_eq!(d.duplicate().release(), vec![0]),
        _ => panic!("wrong slot member"),
    }
    let back = RetValue::decode(w, code);
    assert_eq!(back.try_into_text(), Ok(Vec::new()));
    let empty = CBuf::new(Vec::new()).unwrap();
    assert_eq!(empty.content_len(), 0);
    assert_eq!(empty.release(), vec![0]);
}

#[test]
fn call_assembly_keeps_order_and_count() {
    let text = CBuf::new(b"arg".to_vec()).unwrap();
    let args = vec![
        ArgValue::from_i32(1),
        ArgValue::from_float_bits(f64::to_bits(0.5)),
        ArgValue::from_text_buf(&text),
        ArgValue::from_address(0x77),
    ];
    let (values, codes) = encode_args(&args);
    assert_eq!(values.len(), 4);
    assert_eq!(codes.len(), 4);
    assert_eq!(
        codes,
        vec![TypeCode::Int, TypeCode::Float, TypeCode::Str, TypeCode::Handle]
    );
    assert!(matches!(values[0], WireValue::Int64(1)));
    assert!(matches!(values[3], WireValue::Handle(0x77)));
}

#[test]
fn disjoint_roundtrips_are_independent() {
    // Two interleaved streams of round trips on disjoint data behave as the
    // same streams run one after the other: the layer keeps no shared state.
    let mut first_interleaved = Vec::new();
    let mut second_interleaved = Vec::new();
    for i in 0..50i64 {
        let (w, code) = RetValue::Int(i).encode();
        first_interleaved.push(RetValue::decode(w, code).try_into_i64().unwrap());
        let (w, code) = RetValue::Int(1000 - i).encode();
        second_interleaved.push(RetValue::decode(w, code).try_into_i64().unwrap());
    }
    let mut first_sequential = Vec::new();
    for i in 0..50i64 {
        let (w, code) = RetValue::Int(i).encode();
        first_sequential.push(RetValue::decode(w, code).try_into_i64().unwrap());
    }
    let mut second_sequential = Vec::new();
    for i in 0..50i64 {
        let (w, code) = RetValue::Int(1000 - i).encode();
        second_sequential.push(RetValue::decode(w, code).try_into_i64().unwrap());
    }
    assert_eq!(first_interleaved, first_sequential);
    assert_eq!(second_interleaved, second_sequential);
}
