use vstd::prelude::*;

use crate::arg::ArgValue;
use crate::buffer::{ByteArray, CBuf, EncodeError};
use crate::error::{DowncastError, HostType};
use crate::type_code::TypeCode;
use crate::wire::{DataType, DeviceContext, WireValue};

verus! {

/// The owned flavor of a packed value: the shape of a call's return slot.
/// Primitive, descriptor and handle variants are stored by value; the text
/// and byte-buffer variants own their storage, which single ownership
/// destroys exactly once. Constructed from a raw return slot by `decode`, or
/// from a host value by the `from_*` conversions; taken apart by the fallible
/// `try_into_*` downcasts.
#[derive(Debug)]
pub enum RetValue {
    Int(i64),
    UInt(i64),
    /// The bit pattern of a 64-bit floating-point number.
    Float(u64),
    DataType(DataType),
    Context(DeviceContext),
    Handle(u64),
    ArrayHandle(u64),
    NodeHandle(u64),
    ModuleHandle(u64),
    FuncHandle(u64),
    NDArrayContainer(u64),
    Str(CBuf),
    Bytes(ByteArray),
}

impl RetValue {
    /// The type code this variant carries on the wire.
    pub open spec fn code_spec(self) -> TypeCode {
        match self {
            RetValue::Int(_) => TypeCode::Int,
            RetValue::UInt(_) => TypeCode::UInt,
            RetValue::Float(_) => TypeCode::Float,
            RetValue::DataType(_) => TypeCode::DataType,
            RetValue::Context(_) => TypeCode::Context,
            RetValue::Handle(_) => TypeCode::Handle,
            RetValue::ArrayHandle(_) => TypeCode::ArrayHandle,
            RetValue::NodeHandle(_) => TypeCode::NodeHandle,
            RetValue::ModuleHandle(_) => TypeCode::ModuleHandle,
            RetValue::FuncHandle(_) => TypeCode::FuncHandle,
            RetValue::NDArrayContainer(_) => TypeCode::NDArrayContainer,
            RetValue::Str(_) => TypeCode::Str,
            RetValue::Bytes(_) => TypeCode::Bytes,
        }
    }

    /// A text payload must be a well-formed nul-terminated buffer; every
    /// constructor of this type establishes this and every operation keeps
    /// it.
    pub open spec fn wf(self) -> bool {
        self matches RetValue::Str(c) ==> c.wf()
    }

    pub fn type_code(&self) -> (r: TypeCode)
        ensures
            r == self.code_spec(),
    {
        match self {
            RetValue::Int(_) => TypeCode::Int,
            RetValue::UInt(_) => TypeCode::UInt,
            RetValue::Float(_) => TypeCode::Float,
            RetValue::DataType(_) => TypeCode::DataType,
            RetValue::Context(_) => TypeCode::Context,
            RetValue::Handle(_) => TypeCode::Handle,
            RetValue::ArrayHandle(_) => TypeCode::ArrayHandle,
            RetValue::NodeHandle(_) => TypeCode::NodeHandle,
            RetValue::ModuleHandle(_) => TypeCode::ModuleHandle,
            RetValue::FuncHandle(_) => TypeCode::FuncHandle,
            RetValue::NDArrayContainer(_) => TypeCode::NDArrayContainer,
            RetValue::Str(_) => TypeCode::Str,
            RetValue::Bytes(_) => TypeCode::Bytes,
        }
    }

    /// The wire slot and code that encoding this value produces.
    pub open spec fn encode_spec(self) -> (WireValue, TypeCode) {
        match self {
            RetValue::Int(v) => (WireValue::Int64(v), TypeCode::Int),
            RetValue::UInt(v) => (WireValue::Int64(v), TypeCode::UInt),
            RetValue::Float(b) => (WireValue::Float64(b), TypeCode::Float),
            RetValue::DataType(t) => (WireValue::DataType(t), TypeCode::DataType),
            RetValue::Context(c) => (WireValue::Context(c), TypeCode::Context),
            RetValue::Handle(a) => (WireValue::Handle(a), TypeCode::Handle),
            RetValue::ArrayHandle(a) => (WireValue::Handle(a), TypeCode::ArrayHandle),
            RetValue::NodeHandle(a) => (WireValue::Handle(a), TypeCode::NodeHandle),
            RetValue::ModuleHandle(a) => (WireValue::Handle(a), TypeCode::ModuleHandle),
            RetValue::FuncHandle(a) => (WireValue::Handle(a), TypeCode::FuncHandle),
            RetValue::NDArrayContainer(a) => (WireValue::Handle(a), TypeCode::NDArrayContainer),
            RetValue::Str(c) => (WireValue::StrAddr(c), TypeCode::Str),
            RetValue::Bytes(b) => (WireValue::BytesAddr(b), TypeCode::Bytes),
        }
    }

    /// The packed value a well-paired slot and code decode to.
    pub open spec fn decode_spec(w: WireValue, code: TypeCode) -> RetValue
        recommends
            w.selects(code),
    {
        match code {
            TypeCode::Int => RetValue::Int(w->Int64_0),
            TypeCode::UInt => RetValue::UInt(w->Int64_0),
            TypeCode::Float => RetValue::Float(w->Float64_0),
            TypeCode::DataType => RetValue::DataType(w->DataType_0),
            TypeCode::Context => RetValue::Context(w->Context_0),
            TypeCode::Handle => RetValue::Handle(w->Handle_0),
            TypeCode::ArrayHandle => RetValue::ArrayHandle(w->Handle_0),
            TypeCode::NodeHandle => RetValue::NodeHandle(w->Handle_0),
            TypeCode::ModuleHandle => RetValue::ModuleHandle(w->Handle_0),
            TypeCode::FuncHandle => RetValue::FuncHandle(w->Handle_0),
            TypeCode::NDArrayContainer => RetValue::NDArrayContainer(w->Handle_0),
            TypeCode::Str => RetValue::Str(w->StrAddr_0),
            TypeCode::Bytes => RetValue::Bytes(w->BytesAddr_0),
        }
    }

    /// Encodes this value into a wire slot and its code. For the text and
    /// byte-buffer variants this transfers ownership of the payload storage
    /// into the slot: `self` is consumed, so the storage has exactly one
    /// owner afterwards and cannot be released twice.
    pub fn encode(self) -> (r: (WireValue, TypeCode))
        ensures
            r == self.encode_spec(),
            r.1 == self.code_spec(),
            r.0.selects(r.1),
            self.wf() ==> r.0.wf(),
    {
        match self {
            RetValue::Int(v) => (WireValue::Int64(v), TypeCode::Int),
            RetValue::UInt(v) => (WireValue::Int64(v), TypeCode::UInt),
            RetValue::Float(b) => (WireValue::Float64(b), TypeCode::Float),
            RetValue::DataType(t) => (WireValue::DataType(t), TypeCode::DataType),
            RetValue::Context(c) => (WireValue::Context(c), TypeCode::Context),
            RetValue::Handle(a) => (WireValue::Handle(a), TypeCode::Handle),
            RetValue::ArrayHandle(a) => (WireValue::Handle(a), TypeCode::ArrayHandle),
            RetValue::NodeHandle(a) => (WireValue::Handle(a), TypeCode::NodeHandle),
            RetValue::ModuleHandle(a) => (WireValue::Handle(a), TypeCode::ModuleHandle),
            RetValue::FuncHandle(a) => (WireValue::Handle(a), TypeCode::FuncHandle),
            RetValue::NDArrayContainer(a) => (WireValue::Handle(a), TypeCode::NDArrayContainer),
            RetValue::Str(c) => (WireValue::StrAddr(c), TypeCode::Str),
            RetValue::Bytes(b) => (WireValue::BytesAddr(b), TypeCode::Bytes),
        }
    }

    /// Decodes a return slot under its code, taking ownership of any
    /// variable-length payload the slot carries. The boundary guarantees
    /// that the code matches the slot's active member; this layer trusts
    /// that pairing, so it is a precondition, and violating it — like an
    /// unknown discriminant — is a protocol violation, not a recoverable
    /// error.
    pub fn decode(w: WireValue, code: TypeCode) -> (r: RetValue)
        requires
            w.selects(code),
        ensures
            r == Self::decode_spec(w, code),
            r.code_spec() == code,
            w.wf() ==> r.wf(),
    {
        match (code, w) {
            (TypeCode::Int, WireValue::Int64(v)) => RetValue::Int(v),
            (TypeCode::UInt, WireValue::Int64(v)) => RetValue::UInt(v),
            (TypeCode::Float, WireValue::Float64(b)) => RetValue::Float(b),
            (TypeCode::DataType, WireValue::DataType(t)) => RetValue::DataType(t),
            (TypeCode::Context, WireValue::Context(c)) => RetValue::Context(c),
            (TypeCode::Handle, WireValue::Handle(a)) => RetValue::Handle(a),
            (TypeCode::ArrayHandle, WireValue::Handle(a)) => RetValue::ArrayHandle(a),
            (TypeCode::NodeHandle, WireValue::Handle(a)) => RetValue::NodeHandle(a),
            (TypeCode::ModuleHandle, WireValue::Handle(a)) => RetValue::ModuleHandle(a),
            (TypeCode::FuncHandle, WireValue::Handle(a)) => RetValue::FuncHandle(a),
            (TypeCode::NDArrayContainer, WireValue::Handle(a)) => RetValue::NDArrayContainer(a),
            (TypeCode::Str, WireValue::StrAddr(c)) => RetValue::Str(c),
            (TypeCode::Bytes, WireValue::BytesAddr(b)) => RetValue::Bytes(b),
            _ => vstd::pervasive::unreached(),
        }
    }

    /// Decodes under the numeric discriminant as it crosses the boundary.
    /// An unrecognized discriminant — like a mismatched pairing — is a
    /// fatal protocol violation, never a typed error, so both are excluded
    /// by contract.
    pub fn decode_raw(w: WireValue, raw_code: u32) -> (r: RetValue)
        requires
            TypeCode::from_raw_spec(raw_code) matches Some(code) && w.selects(code),
        ensures
            TypeCode::from_raw_spec(raw_code) matches Some(code) ==> r == Self::decode_spec(
                w,
                code,
            ),
    {
        match TypeCode::from_raw(raw_code) {
            Some(code) => Self::decode(w, code),
            None => vstd::pervasive::unreached(),
        }
    }
}

impl RetValue {
    /// Packs a signed integer; every signed width widens into the 64-bit
    /// slot, always, with no failure path.
    pub fn from_i64(v: i64) -> (r: RetValue)
        ensures
            r == RetValue::Int(v),
    {
        RetValue::Int(v)
    }

    pub fn from_i32(v: i32) -> (r: RetValue)
        ensures
            r == RetValue::Int(v as i64),
    {
        RetValue::Int(v as i64)
    }

    pub fn from_i16(v: i16) -> (r: RetValue)
        ensures
            r == RetValue::Int(v as i64),
    {
        RetValue::Int(v as i64)
    }

    pub fn from_i8(v: i8) -> (r: RetValue)
        ensures
            r == RetValue::Int(v as i64),
    {
        RetValue::Int(v as i64)
    }

    pub fn from_isize(v: isize) -> (r: RetValue)
        ensures
            r == RetValue::Int(v as i64),
    {
        RetValue::Int(v as i64)
    }

    /// Packs the bit pattern of a 64-bit floating-point number; the bits are
    /// transported, never interpreted, by this layer.
    pub fn from_float_bits(bits: u64) -> (r: RetValue)
        ensures
            r == RetValue::Float(bits),
    {
        RetValue::Float(bits)
    }

    pub fn from_data_type(t: DataType) -> (r: RetValue)
        ensures
            r == RetValue::DataType(t),
    {
        RetValue::DataType(t)
    }

    pub fn from_context(c: DeviceContext) -> (r: RetValue)
        ensures
            r == RetValue::Context(c),
    {
        RetValue::Context(c)
    }

    /// Packs an opaque address; the pointee is neither owned nor validated.
    pub fn from_address(a: u64) -> (r: RetValue)
        ensures
            r == RetValue::Handle(a),
    {
        RetValue::Handle(a)
    }

    /// Packs owned text, adding the terminator the wire contract requires.
    /// Text holding an embedded nul cannot be carried and is rejected with
    /// the position of the first one, never truncated.
    pub fn from_text(text: Vec<u8>) -> (r: Result<RetValue, EncodeError>)
        ensures
            (r is Ok) <==> (forall|i: int| 0 <= i < text@.len() ==> text@[i] != 0),
            r matches Ok(v) ==> ({
                &&& v matches RetValue::Str(c)
                &&& c.wf()
                &&& c.content() == text@
            }),
            r matches Err(e) ==> ({
                &&& e matches EncodeError::InteriorNul { position }
                &&& 0 <= position < text@.len()
                &&& text@[position as int] == 0
            }),
    {
        match CBuf::new(text) {
            Ok(c) => Ok(RetValue::Str(c)),
            Err(e) => Err(e),
        }
    }

    /// Packs an owned byte buffer; any bytes are allowed since the length is
    /// explicit on the wire.
    pub fn from_bytes(data: Vec<u8>) -> (r: RetValue)
        ensures
            r matches RetValue::Bytes(b) && b.content() == data@,
    {
        RetValue::Bytes(ByteArray::new(data))
    }

    /// What downcasting to i64 yields: the stored integer for the integer
    /// variant, the typed mismatch error for every other variant.
    pub open spec fn as_i64_spec(self) -> Result<i64, DowncastError> {
        match self {
            RetValue::Int(v) => Ok(v),
            _ => Err(DowncastError { actual: self.code_spec(), expected: HostType::I64 }),
        }
    }

    pub fn try_into_i64(self) -> (r: Result<i64, DowncastError>)
        ensures
            r == self.as_i64_spec(),
    {
        match self {
            RetValue::Int(v) => Ok(v),
            other => Err(DowncastError { actual: other.type_code(), expected: HostType::I64 }),
        }
    }

    /// What downcasting to i32 yields; the narrowing read-back truncates,
    /// which is the caller's responsibility, not checked here.
    pub open spec fn as_i32_spec(self) -> Result<i32, DowncastError> {
        match self {
            RetValue::Int(v) => Ok(v as i32),
            _ => Err(DowncastError { actual: self.code_spec(), expected: HostType::I32 }),
        }
    }

    pub fn try_into_i32(self) -> (r: Result<i32, DowncastError>)
        ensures
            r == self.as_i32_spec(),
    {
        match self {
            RetValue::Int(v) => Ok(#[verifier::truncate] (v as i32)),
            other => Err(DowncastError { actual: other.type_code(), expected: HostType::I32 }),
        }
    }

    pub open spec fn as_i16_spec(self) -> Result<i16, DowncastError> {
        match self {
            RetValue::Int(v) => Ok(v as i16),
            _ => Err(DowncastError { actual: self.code_spec(), expected: HostType::I16 }),
        }
    }

    pub fn try_into_i16(self) -> (r: Result<i16, DowncastError>)
        ensures
            r == self.as_i16_spec(),
    {
        match self {
            RetValue::Int(v) => Ok(#[verifier::truncate] (v as i16)),
            other => Err(DowncastError { actual: other.type_code(), expected: HostType::I16 }),
        }
    }

    pub open spec fn as_i8_spec(self) -> Result<i8, DowncastError> {
        match self {
            RetValue::Int(v) => Ok(v as i8),
            _ => Err(DowncastError { actual: self.code_spec(), expected: HostType::I8 }),
        }
    }

    pub fn try_into_i8(self) -> (r: Result<i8, DowncastError>)
        ensures
            r == self.as_i8_spec(),
    {
        match self {
            RetValue::Int(v) => Ok(#[verifier::truncate] (v as i8)),
            other => Err(DowncastError { actual: other.type_code(), expected: HostType::I8 }),
        }
    }

    pub open spec fn as_isize_spec(self) -> Result<isize, DowncastError> {
        match self {
            RetValue::Int(v) => Ok(v as isize),
            _ => Err(DowncastError { actual: self.code_spec(), expected: HostType::ISize }),
        }
    }

    pub fn try_into_isize(self) -> (r: Result<isize, DowncastError>)
        ensures
            r == self.as_isize_spec(),
    {
        match self {
            RetValue::Int(v) => Ok(#[verifier::truncate] (v as isize)),
            other => Err(DowncastError { actual: other.type_code(), expected: HostType::ISize }),
        }
    }

    pub open spec fn as_float_bits_spec(self) -> Result<u64, DowncastError> {
        match self {
            RetValue::Float(b) => Ok(b),
            _ => Err(DowncastError { actual: self.code_spec(), expected: HostType::FloatBits }),
        }
    }

    pub fn try_into_float_bits(self) -> (r: Result<u64, DowncastError>)
        ensures
            r == self.as_float_bits_spec(),
    {
        match self {
            RetValue::Float(b) => Ok(b),
            other => Err(
                DowncastError { actual: other.type_code(), expected: HostType::FloatBits },
            ),
        }
    }

    pub open spec fn as_data_type_spec(self) -> Result<DataType, DowncastError> {
        match self {
            RetValue::DataType(t) => Ok(t),
            _ => Err(DowncastError { actual: self.code_spec(), expected: HostType::DataType }),
        }
    }

    pub fn try_into_data_type(self) -> (r: Result<DataType, DowncastError>)
        ensures
            r == self.as_data_type_spec(),
    {
        match self {
            RetValue::DataType(t) => Ok(t),
            other => Err(DowncastError { actual: other.type_code(), expected: HostType::DataType }),
        }
    }

    pub open spec fn as_context_spec(self) -> Result<DeviceContext, DowncastError> {
        match self {
            RetValue::Context(c) => Ok(c),
            _ => Err(DowncastError { actual: self.code_spec(), expected: HostType::Context }),
        }
    }

    pub fn try_into_context(self) -> (r: Result<DeviceContext, DowncastError>)
        ensures
            r == self.as_context_spec(),
    {
        match self {
            RetValue::Context(c) => Ok(c),
            other => Err(DowncastError { actual: other.type_code(), expected: HostType::Context }),
        }
    }

    /// What downcasting to text yields: the content without its terminator.
    pub open spec fn as_text_spec(self) -> Result<Seq<u8>, DowncastError> {
        match self {
            RetValue::Str(c) => Ok(c.content()),
            _ => Err(DowncastError { actual: self.code_spec(), expected: HostType::Text }),
        }
    }

    pub fn try_into_text(self) -> (r: Result<Vec<u8>, DowncastError>)
        requires
            self.wf(),
        ensures
            (r is Ok) <==> (self is Str),
            r matches Ok(t) ==> self.as_text_spec() == Ok::<Seq<u8>, DowncastError>(t@),
            r matches Err(e) ==> self.as_text_spec() == Err::<Seq<u8>, DowncastError>(e),
    {
        match self {
            RetValue::Str(c) => Ok(c.to_text()),
            other => Err(DowncastError { actual: other.type_code(), expected: HostType::Text }),
        }
    }

    pub open spec fn as_bytes_spec(self) -> Result<Seq<u8>, DowncastError> {
        match self {
            RetValue::Bytes(b) => Ok(b.content()),
            _ => Err(DowncastError { actual: self.code_spec(), expected: HostType::Bytes }),
        }
    }

    pub fn try_into_bytes(self) -> (r: Result<Vec<u8>, DowncastError>)
        ensures
            (r is Ok) <==> (self is Bytes),
            r matches Ok(t) ==> self.as_bytes_spec() == Ok::<Seq<u8>, DowncastError>(t@),
            r matches Err(e) ==> self.as_bytes_spec() == Err::<Seq<u8>, DowncastError>(e),
    {
        match self {
            RetValue::Bytes(b) => Ok(b.release()),
            other => Err(DowncastError { actual: other.type_code(), expected: HostType::Bytes }),
        }
    }
}

/// Law (host round trip): downcasting a value packed from a signed integer of
/// any width gives the integer back unchanged.
pub proof fn lemma_ret_host_roundtrip_i64(v: i64)
    ensures
        RetValue::Int(v).as_i64_spec() == Ok::<i64, DowncastError>(v),
{
}

pub proof fn lemma_ret_host_roundtrip_i32(v: i32)
    ensures
        RetValue::Int(v as i64).as_i32_spec() == Ok::<i32, DowncastError>(v),
{
}

pub proof fn lemma_ret_host_roundtrip_i16(v: i16)
    ensures
        RetValue::Int(v as i64).as_i16_spec() == Ok::<i16, DowncastError>(v),
{
}

pub proof fn lemma_ret_host_roundtrip_i8(v: i8)
    ensures
        RetValue::Int(v as i64).as_i8_spec() == Ok::<i8, DowncastError>(v),
{
}

pub proof fn lemma_ret_host_roundtrip_isize(v: isize)
    ensures
        RetValue::Int(v as i64).as_isize_spec() == Ok::<isize, DowncastError>(v),
{
}

/// Law (host round trip): the float bit pattern and the descriptor and
/// address payloads come back unchanged as well.
pub proof fn lemma_ret_host_roundtrip_float_bits(bits: u64)
    ensures
        RetValue::Float(bits).as_float_bits_spec() == Ok::<u64, DowncastError>(bits),
{
}

pub proof fn lemma_ret_host_roundtrip_data_type(t: DataType)
    ensures
        RetValue::DataType(t).as_data_type_spec() == Ok::<DataType, DowncastError>(t),
{
}

pub proof fn lemma_ret_host_roundtrip_context(c: DeviceContext)
    ensures
        RetValue::Context(c).as_context_spec() == Ok::<DeviceContext, DowncastError>(c),
{
}

/// Law (host round trip, text): packing nul-free text and downcasting back
/// to text gives the text back; in particular empty text survives the trip.
pub proof fn lemma_ret_host_roundtrip_text(v: RetValue, text: Seq<u8>)
    requires
        v matches RetValue::Str(c) && c.wf() && c.content() == text,
    ensures
        v.as_text_spec() == Ok::<Seq<u8>, DowncastError>(text),
{
}

pub proof fn lemma_ret_host_roundtrip_bytes(v: RetValue, data: Seq<u8>)
    requires
        v matches RetValue::Bytes(b) && b.content() == data,
    ensures
        v.as_bytes_spec() == Ok::<Seq<u8>, DowncastError>(data),
{
}

/// Law (downcast mismatch): asking a non-matching variant for a host type
/// returns the typed error naming the actual variant and the requested type;
/// an integer asked for as text is the canonical case.
pub proof fn lemma_ret_downcast_mismatch_int_text(v: i64)
    ensures
        RetValue::Int(v).as_text_spec() == Err::<Seq<u8>, DowncastError>(
            DowncastError { actual: TypeCode::Int, expected: HostType::Text },
        ),
{
}

/// Law (round trip through the wire, owned flavor): decoding what encoding
/// produced gives the original value back exactly, payload storage included.
pub proof fn lemma_ret_wire_roundtrip(v: RetValue)
    ensures
        RetValue::decode_spec(v.encode_spec().0, v.encode_spec().1) == v,
{
}

/// Law: re-encoding a decoded slot reproduces the slot and its code exactly,
/// so encoding and decoding are mutually inverse between packed values and
/// well-paired slot/code pairs.
pub proof fn lemma_ret_wire_roundtrip_rev(w: WireValue, code: TypeCode)
    requires
        w.selects(code),
    ensures
        RetValue::decode_spec(w, code).encode_spec() == (w, code),
{
}

/// Does the owned value carry the same observable payload, under the same
/// variant, as the borrowed argument?
pub open spec fn ret_matches_arg(r: RetValue, a: ArgValue) -> bool {
    match a {
        ArgValue::Int(v) => r == RetValue::Int(v),
        ArgValue::UInt(v) => r == RetValue::UInt(v),
        ArgValue::Float(b) => r == RetValue::Float(b),
        ArgValue::DataType(t) => r == RetValue::DataType(t),
        ArgValue::Context(c) => r == RetValue::Context(c),
        ArgValue::Handle(x) => r == RetValue::Handle(x),
        ArgValue::ArrayHandle(x) => r == RetValue::ArrayHandle(x),
        ArgValue::NodeHandle(x) => r == RetValue::NodeHandle(x),
        ArgValue::ModuleHandle(x) => r == RetValue::ModuleHandle(x),
        ArgValue::FuncHandle(x) => r == RetValue::FuncHandle(x),
        ArgValue::NDArrayContainer(x) => r == RetValue::NDArrayContainer(x),
        ArgValue::Str(c) => r matches RetValue::Str(d) && d.raw() == c.raw(),
        ArgValue::Bytes(b) => r matches RetValue::Bytes(d) && d.content() == b.content(),
    }
}

/// Law (cross-flavor round trip): decoding, as an owned value, the slot that
/// a borrowed argument encoded to yields the owned counterpart of the same
/// observable value; for text, the owned copy is independently owned and
/// carries the same content.
pub proof fn lemma_arg_to_ret_roundtrip(a: ArgValue, w: WireValue, code: TypeCode)
    requires
        a.encodes_to(w, code),
    ensures
        ret_matches_arg(RetValue::decode_spec(w, code), a),
        a matches ArgValue::Str(c) ==> (c.wf() ==> RetValue::decode_spec(w, code).as_text_spec()
            == Ok::<Seq<u8>, DowncastError>(c.content())),
{
    if let ArgValue::Str(c) = a {
        if c.wf() {
            let d = w->StrAddr_0;
            crate::buffer::lemma_raw_determines_wf(*c, d);
            crate::buffer::lemma_raw_determines_content(*c, d);
        }
    }
}

} // verus!
