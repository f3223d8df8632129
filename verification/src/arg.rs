use vstd::prelude::*;

use crate::buffer::{ByteArray, CBuf};
use crate::error::{DowncastError, HostType};
use crate::type_code::TypeCode;
use crate::wire::{DataType, DeviceContext, WireValue};

verus! {

/// The borrowed flavor of a packed value: the shape of an outgoing call
/// argument. Primitive, descriptor and handle variants are stored by value;
/// the text and byte-buffer variants reference caller-owned storage, and the
/// lifetime parameter keeps any such reference from outliving the call that
/// uses it — the caller keeps the referent alive for the call's duration.
#[derive(Clone, Copy, Debug)]
pub enum ArgValue<'a> {
    Int(i64),
    UInt(i64),
    /// The bit pattern of a 64-bit floating-point number.
    Float(u64),
    DataType(DataType),
    Context(DeviceContext),
    Handle(u64),
    ArrayHandle(u64),
    NodeHandle(u64),
    ModuleHandle(u64),
    FuncHandle(u64),
    NDArrayContainer(u64),
    Str(&'a CBuf),
    Bytes(&'a ByteArray),
}

impl<'a> ArgValue<'a> {
    /// The type code this variant carries on the wire.
    pub open spec fn code_spec(self) -> TypeCode {
        match self {
            ArgValue::Int(_) => TypeCode::Int,
            ArgValue::UInt(_) => TypeCode::UInt,
            ArgValue::Float(_) => TypeCode::Float,
            ArgValue::DataType(_) => TypeCode::DataType,
            ArgValue::Context(_) => TypeCode::Context,
            ArgValue::Handle(_) => TypeCode::Handle,
            ArgValue::ArrayHandle(_) => TypeCode::ArrayHandle,
            ArgValue::NodeHandle(_) => TypeCode::NodeHandle,
            ArgValue::ModuleHandle(_) => TypeCode::ModuleHandle,
            ArgValue::FuncHandle(_) => TypeCode::FuncHandle,
            ArgValue::NDArrayContainer(_) => TypeCode::NDArrayContainer,
            ArgValue::Str(_) => TypeCode::Str,
            ArgValue::Bytes(_) => TypeCode::Bytes,
        }
    }

    /// A referenced text buffer must be well-formed.
    pub open spec fn wf(self) -> bool {
        self matches ArgValue::Str(c) ==> c.wf()
    }

    pub fn type_code(&self) -> (r: TypeCode)
        ensures
            r == self.code_spec(),
    {
        match self {
            ArgValue::Int(_) => TypeCode::Int,
            ArgValue::UInt(_) => TypeCode::UInt,
            ArgValue::Float(_) => TypeCode::Float,
            ArgValue::DataType(_) => TypeCode::DataType,
            ArgValue::Context(_) => TypeCode::Context,
            ArgValue::Handle(_) => TypeCode::Handle,
            ArgValue::ArrayHandle(_) => TypeCode::ArrayHandle,
            ArgValue::NodeHandle(_) => TypeCode::NodeHandle,
            ArgValue::ModuleHandle(_) => TypeCode::ModuleHandle,
            ArgValue::FuncHandle(_) => TypeCode::FuncHandle,
            ArgValue::NDArrayContainer(_) => TypeCode::NDArrayContainer,
            ArgValue::Str(_) => TypeCode::Str,
            ArgValue::Bytes(_) => TypeCode::Bytes,
        }
    }

    /// Does this argument encode to the given slot and code? For the
    /// variable-length variants the slot carries the same bytes as the
    /// referenced buffer — on the real wire, the buffer's address.
    pub open spec fn encodes_to(self, w: WireValue, code: TypeCode) -> bool {
        match self {
            ArgValue::Int(v) => w == WireValue::Int64(v) && code == TypeCode::Int,
            ArgValue::UInt(v) => w == WireValue::Int64(v) && code == TypeCode::UInt,
            ArgValue::Float(b) => w == WireValue::Float64(b) && code == TypeCode::Float,
            ArgValue::DataType(t) => w == WireValue::DataType(t) && code == TypeCode::DataType,
            ArgValue::Context(c) => w == WireValue::Context(c) && code == TypeCode::Context,
            ArgValue::Handle(a) => w == WireValue::Handle(a) && code == TypeCode::Handle,
            ArgValue::ArrayHandle(a) => w == WireValue::Handle(a) && code == TypeCode::ArrayHandle,
            ArgValue::NodeHandle(a) => w == WireValue::Handle(a) && code == TypeCode::NodeHandle,
            ArgValue::ModuleHandle(a) => w == WireValue::Handle(a)
                && code == TypeCode::ModuleHandle,
            ArgValue::FuncHandle(a) => w == WireValue::Handle(a) && code == TypeCode::FuncHandle,
            ArgValue::NDArrayContainer(a) => w == WireValue::Handle(a)
                && code == TypeCode::NDArrayContainer,
            ArgValue::Str(c) => (w matches WireValue::StrAddr(d) && d.raw() == c.raw())
                && code == TypeCode::Str,
            ArgValue::Bytes(b) => (w matches WireValue::BytesAddr(d) && d.content() == b.content())
                && code == TypeCode::Bytes,
        }
    }

    /// Observable equality: same variant, same payload — for the
    /// variable-length variants, same referenced bytes.
    pub open spec fn obs_eq(self, other: ArgValue) -> bool {
        match self {
            ArgValue::Int(v) => other == ArgValue::Int(v),
            ArgValue::UInt(v) => other == ArgValue::UInt(v),
            ArgValue::Float(b) => other == ArgValue::Float(b),
            ArgValue::DataType(t) => other == ArgValue::DataType(t),
            ArgValue::Context(c) => other == ArgValue::Context(c),
            ArgValue::Handle(a) => other == ArgValue::Handle(a),
            ArgValue::ArrayHandle(a) => other == ArgValue::ArrayHandle(a),
            ArgValue::NodeHandle(a) => other == ArgValue::NodeHandle(a),
            ArgValue::ModuleHandle(a) => other == ArgValue::ModuleHandle(a),
            ArgValue::FuncHandle(a) => other == ArgValue::FuncHandle(a),
            ArgValue::NDArrayContainer(a) => other == ArgValue::NDArrayContainer(a),
            ArgValue::Str(c) => other matches ArgValue::Str(d) && d.raw() == c.raw(),
            ArgValue::Bytes(b) => other matches ArgValue::Bytes(d)
                && d.content() == b.content(),
        }
    }

    /// Encodes this argument into a wire slot and its code. The argument
    /// only borrows its variable-length payload, so the slot receives its
    /// own copy of the buffer the address will denote; the caller's storage
    /// is untouched.
    pub fn encode(self) -> (r: (WireValue, TypeCode))
        ensures
            self.encodes_to(r.0, r.1),
            r.1 == self.code_spec(),
            r.0.selects(r.1),
            self.wf() ==> r.0.wf(),
    {
        match self {
            ArgValue::Int(v) => (WireValue::Int64(v), TypeCode::Int),
            ArgValue::UInt(v) => (WireValue::Int64(v), TypeCode::UInt),
            ArgValue::Float(b) => (WireValue::Float64(b), TypeCode::Float),
            ArgValue::DataType(t) => (WireValue::DataType(t), TypeCode::DataType),
            ArgValue::Context(c) => (WireValue::Context(c), TypeCode::Context),
            ArgValue::Handle(a) => (WireValue::Handle(a), TypeCode::Handle),
            ArgValue::ArrayHandle(a) => (WireValue::Handle(a), TypeCode::ArrayHandle),
            ArgValue::NodeHandle(a) => (WireValue::Handle(a), TypeCode::NodeHandle),
            ArgValue::ModuleHandle(a) => (WireValue::Handle(a), TypeCode::ModuleHandle),
            ArgValue::FuncHandle(a) => (WireValue::Handle(a), TypeCode::FuncHandle),
            ArgValue::NDArrayContainer(a) => (WireValue::Handle(a), TypeCode::NDArrayContainer),
            ArgValue::Str(c) => (WireValue::StrAddr(c.duplicate()), TypeCode::Str),
            ArgValue::Bytes(b) => (WireValue::BytesAddr(b.duplicate()), TypeCode::Bytes),
        }
    }

    /// Decodes a slot under its code into an argument that borrows any
    /// variable-length payload from the slot. As for the owned flavor, the
    /// boundary guarantees that the code matches the slot's active member
    /// and this layer trusts the pairing.
    pub fn decode(w: &'a WireValue, code: TypeCode) -> (r: ArgValue<'a>)
        requires
            w.selects(code),
        ensures
            r.encodes_to(*w, code),
            r.code_spec() == code,
            w.wf() ==> r.wf(),
    {
        match (code, w) {
            (TypeCode::Int, WireValue::Int64(v)) => ArgValue::Int(*v),
            (TypeCode::UInt, WireValue::Int64(v)) => ArgValue::UInt(*v),
            (TypeCode::Float, WireValue::Float64(b)) => ArgValue::Float(*b),
            (TypeCode::DataType, WireValue::DataType(t)) => ArgValue::DataType(*t),
            (TypeCode::Context, WireValue::Context(c)) => ArgValue::Context(*c),
            (TypeCode::Handle, WireValue::Handle(a)) => ArgValue::Handle(*a),
            (TypeCode::ArrayHandle, WireValue::Handle(a)) => ArgValue::ArrayHandle(*a),
            (TypeCode::NodeHandle, WireValue::Handle(a)) => ArgValue::NodeHandle(*a),
            (TypeCode::ModuleHandle, WireValue::Handle(a)) => ArgValue::ModuleHandle(*a),
            (TypeCode::FuncHandle, WireValue::Handle(a)) => ArgValue::FuncHandle(*a),
            (TypeCode::NDArrayContainer, WireValue::Handle(a)) => ArgValue::NDArrayContainer(*a),
            (TypeCode::Str, WireValue::StrAddr(c)) => ArgValue::Str(c),
            (TypeCode::Bytes, WireValue::BytesAddr(b)) => ArgValue::Bytes(b),
            _ => vstd::pervasive::unreached(),
        }
    }

    /// Decodes under the numeric discriminant as it crosses the boundary.
    /// An unrecognized discriminant — like a mismatched pairing — is a
    /// fatal protocol violation, never a typed error, so both are excluded
    /// by contract.
    pub fn decode_raw(w: &'a WireValue, raw_code: u32) -> (r: ArgValue<'a>)
        requires
            TypeCode::from_raw_spec(raw_code) matches Some(code) && w.selects(code),
        ensures
            TypeCode::from_raw_spec(raw_code) matches Some(code) ==> r.encodes_to(*w, code),
    {
        match TypeCode::from_raw(raw_code) {
            Some(code) => Self::decode(w, code),
            None => vstd::pervasive::unreached(),
        }
    }
}

impl<'a> ArgValue<'a> {
    /// Packs a signed integer; every signed width widens into the 64-bit
    /// slot, always, with no failure path.
    pub fn from_i64(v: i64) -> (r: ArgValue<'a>)
        ensures
            r == ArgValue::<'a>::Int(v),
    {
        ArgValue::Int(v)
    }

    pub fn from_i32(v: i32) -> (r: ArgValue<'a>)
        ensures
            r == ArgValue::<'a>::Int(v as i64),
    {
        ArgValue::Int(v as i64)
    }

    pub fn from_i16(v: i16) -> (r: ArgValue<'a>)
        ensures
            r == ArgValue::<'a>::Int(v as i64),
    {
        ArgValue::Int(v as i64)
    }

    pub fn from_i8(v: i8) -> (r: ArgValue<'a>)
        ensures
            r == ArgValue::<'a>::Int(v as i64),
    {
        ArgValue::Int(v as i64)
    }

    pub fn from_isize(v: isize) -> (r: ArgValue<'a>)
        ensures
            r == ArgValue::<'a>::Int(v as i64),
    {
        ArgValue::Int(v as i64)
    }

    /// Packs the bit pattern of a 64-bit floating-point number.
    pub fn from_float_bits(bits: u64) -> (r: ArgValue<'a>)
        ensures
            r == ArgValue::<'a>::Float(bits),
    {
        ArgValue::Float(bits)
    }

    pub fn from_data_type(t: DataType) -> (r: ArgValue<'a>)
        ensures
            r == ArgValue::<'a>::DataType(t),
    {
        ArgValue::DataType(t)
    }

    pub fn from_context(c: DeviceContext) -> (r: ArgValue<'a>)
        ensures
            r == ArgValue::<'a>::Context(c),
    {
        ArgValue::Context(c)
    }

    /// Packs an opaque address; the pointee is neither owned nor validated.
    pub fn from_address(a: u64) -> (r: ArgValue<'a>)
        ensures
            r == ArgValue::<'a>::Handle(a),
    {
        ArgValue::Handle(a)
    }

    /// Packs the address of a caller-owned array descriptor.
    pub fn from_array_address(a: u64) -> (r: ArgValue<'a>)
        ensures
            r == ArgValue::<'a>::ArrayHandle(a),
    {
        ArgValue::ArrayHandle(a)
    }

    /// Packs a reference to caller-owned, nul-terminated text; the caller
    /// keeps the buffer alive for the duration of the call.
    pub fn from_text_buf(c: &'a CBuf) -> (r: ArgValue<'a>)
        ensures
            r == ArgValue::Str(c),
    {
        ArgValue::Str(c)
    }

    /// Packs a reference to a caller-owned, length-prefixed byte buffer.
    pub fn from_byte_array(b: &'a ByteArray) -> (r: ArgValue<'a>)
        ensures
            r == ArgValue::Bytes(b),
    {
        ArgValue::Bytes(b)
    }

    /// What downcasting to i64 yields: the stored integer for the integer
    /// variant, the typed mismatch error for every other variant.
    pub open spec fn as_i64_spec(self) -> Result<i64, DowncastError> {
        match self {
            ArgValue::Int(v) => Ok(v),
            _ => Err(DowncastError { actual: self.code_spec(), expected: HostType::I64 }),
        }
    }

    pub fn try_into_i64(self) -> (r: Result<i64, DowncastError>)
        ensures
            r == self.as_i64_spec(),
    {
        match self {
            ArgValue::Int(v) => Ok(v),
            other => Err(DowncastError { actual: other.type_code(), expected: HostType::I64 }),
        }
    }

    /// What downcasting to i32 yields; the narrowing read-back truncates,
    /// which is the caller's responsibility, not checked here.
    pub open spec fn as_i32_spec(self) -> Result<i32, DowncastError> {
        match self {
            ArgValue::Int(v) => Ok(v as i32),
            _ => Err(DowncastError { actual: self.code_spec(), expected: HostType::I32 }),
        }
    }

    pub fn try_into_i32(self) -> (r: Result<i32, DowncastError>)
        ensures
            r == self.as_i32_spec(),
    {
        match self {
            ArgValue::Int(v) => Ok(#[verifier::truncate] (v as i32)),
            other => Err(DowncastError { actual: other.type_code(), expected: HostType::I32 }),
        }
    }

    pub open spec fn as_i16_spec(self) -> Result<i16, DowncastError> {
        match self {
            ArgValue::Int(v) => Ok(v as i16),
            _ => Err(DowncastError { actual: self.code_spec(), expected: HostType::I16 }),
        }
    }

    pub fn try_into_i16(self) -> (r: Result<i16, DowncastError>)
        ensures
            r == self.as_i16_spec(),
    {
        match self {
            ArgValue::Int(v) => Ok(#[verifier::truncate] (v as i16)),
            other => Err(DowncastError { actual: other.type_code(), expected: HostType::I16 }),
        }
    }

    pub open spec fn as_i8_spec(self) -> Result<i8, DowncastError> {
        match self {
            ArgValue::Int(v) => Ok(v as i8),
            _ => Err(DowncastError { actual: self.code_spec(), expected: HostType::I8 }),
        }
    }

    pub fn try_into_i8(self) -> (r: Result<i8, DowncastError>)
        ensures
            r == self.as_i8_spec(),
    {
        match self {
            ArgValue::Int(v) => Ok(#[verifier::truncate] (v as i8)),
            other => Err(DowncastError { actual: other.type_code(), expected: HostType::I8 }),
        }
    }

    pub open spec fn as_isize_spec(self) -> Result<isize, DowncastError> {
        match self {
            ArgValue::Int(v) => Ok(v as isize),
            _ => Err(DowncastError { actual: self.code_spec(), expected: HostType::ISize }),
        }
    }

    pub fn try_into_isize(self) -> (r: Result<isize, DowncastError>)
        ensures
            r == self.as_isize_spec(),
    {
        match self {
            ArgValue::Int(v) => Ok(#[verifier::truncate] (v as isize)),
            other => Err(DowncastError { actual: other.type_code(), expected: HostType::ISize }),
        }
    }

    pub open spec fn as_float_bits_spec(self) -> Result<u64, DowncastError> {
        match self {
            ArgValue::Float(b) => Ok(b),
            _ => Err(DowncastError { actual: self.code_spec(), expected: HostType::FloatBits }),
        }
    }

    pub fn try_into_float_bits(self) -> (r: Result<u64, DowncastError>)
        ensures
            r == self.as_float_bits_spec(),
    {
        match self {
            ArgValue::Float(b) => Ok(b),
            other => Err(
                DowncastError { actual: other.type_code(), expected: HostType::FloatBits },
            ),
        }
    }

    pub open spec fn as_data_type_spec(self) -> Result<DataType, DowncastError> {
        match self {
            ArgValue::DataType(t) => Ok(t),
            _ => Err(DowncastError { actual: self.code_spec(), expected: HostType::DataType }),
        }
    }

    pub fn try_into_data_type(self) -> (r: Result<DataType, DowncastError>)
        ensures
            r == self.as_data_type_spec(),
    {
        match self {
            ArgValue::DataType(t) => Ok(t),
            other => Err(DowncastError { actual: other.type_code(), expected: HostType::DataType }),
        }
    }

    pub open spec fn as_context_spec(self) -> Result<DeviceContext, DowncastError> {
        match self {
            ArgValue::Context(c) => Ok(c),
            _ => Err(DowncastError { actual: self.code_spec(), expected: HostType::Context }),
        }
    }

    pub fn try_into_context(self) -> (r: Result<DeviceContext, DowncastError>)
        ensures
            r == self.as_context_spec(),
    {
        match self {
            ArgValue::Context(c) => Ok(c),
            other => Err(DowncastError { actual: other.type_code(), expected: HostType::Context }),
        }
    }

    /// What downcasting to text yields: the referenced buffer.
    pub open spec fn as_text_buf_spec(self) -> Result<&'a CBuf, DowncastError> {
        match self {
            ArgValue::Str(c) => Ok(c),
            _ => Err(DowncastError { actual: self.code_spec(), expected: HostType::Text }),
        }
    }

    pub fn try_into_text_buf(self) -> (r: Result<&'a CBuf, DowncastError>)
        ensures
            r == self.as_text_buf_spec(),
    {
        match self {
            ArgValue::Str(c) => Ok(c),
            other => Err(DowncastError { actual: other.type_code(), expected: HostType::Text }),
        }
    }

    pub open spec fn as_byte_array_spec(self) -> Result<&'a ByteArray, DowncastError> {
        match self {
            ArgValue::Bytes(b) => Ok(b),
            _ => Err(DowncastError { actual: self.code_spec(), expected: HostType::Bytes }),
        }
    }

    pub fn try_into_byte_array(self) -> (r: Result<&'a ByteArray, DowncastError>)
        ensures
            r == self.as_byte_array_spec(),
    {
        match self {
            ArgValue::Bytes(b) => Ok(b),
            other => Err(DowncastError { actual: other.type_code(), expected: HostType::Bytes }),
        }
    }
}

/// Encodes an ordered argument sequence into the parallel arrays handed to
/// the native entry point: one slot and one code per argument, so the counts
/// match exactly, and slot i is paired with code i with the order never
/// permuted.
pub fn encode_args<'a>(args: &Vec<ArgValue<'a>>) -> (r: (Vec<WireValue>, Vec<TypeCode>))
    ensures
        r.0@.len() == args@.len(),
        r.1@.len() == args@.len(),
        forall|i: int| 0 <= i < args@.len() ==> #[trigger] args@[i].encodes_to(r.0@[i], r.1@[i]),
        forall|i: int| 0 <= i < args@.len() ==> #[trigger] r.0@[i].selects(r.1@[i]),
        forall|i: int| 0 <= i < args@.len() && args@[i].wf() ==> (#[trigger] r.0@[i]).wf(),
{
    let n = args.len();
    let mut values: Vec<WireValue> = Vec::new();
    let mut codes: Vec<TypeCode> = Vec::new();
    let mut i: usize = 0;
    while i < n
        invariant
            n == args@.len(),
            i <= n,
            values@.len() == i,
            codes@.len() == i,
            forall|j: int| 0 <= j < i ==> #[trigger] args@[j].encodes_to(values@[j], codes@[j]),
            forall|j: int| 0 <= j < i ==> #[trigger] values@[j].selects(codes@[j]),
            forall|j: int| 0 <= j < i && args@[j].wf() ==> (#[trigger] values@[j]).wf(),
        decreases n - i,
    {
        let (w, c) = args[i].encode();
        values.push(w);
        codes.push(c);
        i = i + 1;
    }
    (values, codes)
}

/// Law (host round trip): downcasting an argument packed from a signed
/// integer of any width gives the integer back unchanged.
pub proof fn lemma_arg_host_roundtrip_i64(v: i64)
    ensures
        ArgValue::Int(v).as_i64_spec() == Ok::<i64, DowncastError>(v),
{
}

pub proof fn lemma_arg_host_roundtrip_i32(v: i32)
    ensures
        ArgValue::Int(v as i64).as_i32_spec() == Ok::<i32, DowncastError>(v),
{
}

pub proof fn lemma_arg_host_roundtrip_i16(v: i16)
    ensures
        ArgValue::Int(v as i64).as_i16_spec() == Ok::<i16, DowncastError>(v),
{
}

pub proof fn lemma_arg_host_roundtrip_i8(v: i8)
    ensures
        ArgValue::Int(v as i64).as_i8_spec() == Ok::<i8, DowncastError>(v),
{
}

pub proof fn lemma_arg_host_roundtrip_isize(v: isize)
    ensures
        ArgValue::Int(v as i64).as_isize_spec() == Ok::<isize, DowncastError>(v),
{
}

pub proof fn lemma_arg_host_roundtrip_float_bits(bits: u64)
    ensures
        ArgValue::Float(bits).as_float_bits_spec() == Ok::<u64, DowncastError>(bits),
{
}

pub proof fn lemma_arg_host_roundtrip_data_type(t: DataType)
    ensures
        ArgValue::DataType(t).as_data_type_spec() == Ok::<DataType, DowncastError>(t),
{
}

pub proof fn lemma_arg_host_roundtrip_context(c: DeviceContext)
    ensures
        ArgValue::Context(c).as_context_spec() == Ok::<DeviceContext, DowncastError>(c),
{
}

/// Law (host round trip, text): an argument packed from a referenced text
/// buffer downcasts back to that very buffer.
pub proof fn lemma_arg_host_roundtrip_text(c: &CBuf)
    ensures
        ArgValue::Str(c).as_text_buf_spec() == Ok::<&CBuf, DowncastError>(c),
{
}

pub proof fn lemma_arg_host_roundtrip_bytes(b: &ByteArray)
    ensures
        ArgValue::Bytes(b).as_byte_array_spec() == Ok::<&ByteArray, DowncastError>(b),
{
}

/// Law (downcast mismatch): asking a non-matching variant for a host type
/// returns the typed error naming the actual variant and the requested type.
pub proof fn lemma_arg_downcast_mismatch_int_text(v: i64)
    ensures
        ArgValue::Int(v).as_text_buf_spec() == Err::<&CBuf, DowncastError>(
            DowncastError { actual: TypeCode::Int, expected: HostType::Text },
        ),
{
}

/// Law (round trip through the wire, borrowed flavor): any two arguments
/// that encode to the same slot and code are observably equal — same
/// variant, same payload content. Since decoding a slot yields an argument
/// that encodes back to that slot, decoding what encoding produced gives an
/// argument observably equal to the original.
pub proof fn lemma_arg_wire_roundtrip(v1: ArgValue, v2: ArgValue, w: WireValue, code: TypeCode)
    requires
        v1.encodes_to(w, code),
        v2.encodes_to(w, code),
    ensures
        v1.obs_eq(v2),
{
}

} // verus!
