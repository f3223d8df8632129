use vstd::prelude::*;

use crate::buffer::{ByteArray, CBuf};
use crate::type_code::TypeCode;

verus! {

/// A small descriptor of a data type, copied by value across the boundary.
#[derive(Clone, Copy, Debug, PartialEq, Eq, Structural)]
pub struct DataType {
    pub code: u8,
    pub bits: u8,
    pub lanes: u16,
}

/// A device/context descriptor, copied by value across the boundary.
#[derive(Clone, Copy, Debug, PartialEq, Eq, Structural)]
pub struct DeviceContext {
    pub device_type: i32,
    pub device_id: i32,
}

/// The raw wire slot: a safe stand-in for the union that crosses the call
/// boundary beside a type code. Exactly one member is active at a time, and
/// the paired code says which; a reader must never interpret a slot under a
/// code that selects a different member, which `selects` states and every
/// decoder requires.
///
/// Addresses are transported as plain numbers and never dereferenced by this
/// layer. For text and byte buffers, the slot on the real wire holds the
/// address of the buffer; here the slot carries the buffer the address
/// denotes, which keeps ownership of the pointed-to storage explicit.
#[derive(Debug)]
pub enum WireValue {
    /// A 64-bit signed integer slot, used by both the signed and the
    /// unsigned integer codes.
    Int64(i64),
    /// The bit pattern of a 64-bit floating-point number; this layer
    /// transports the bits and never interprets them.
    Float64(u64),
    DataType(DataType),
    Context(DeviceContext),
    /// An opaque address; used by every handle code.
    Handle(u64),
    /// The nul-terminated buffer whose address fills the slot.
    StrAddr(CBuf),
    /// The length-prefixed buffer whose address fills the slot.
    BytesAddr(ByteArray),
}

impl WireValue {
    /// Does `code` select the member of this slot that is actually active?
    /// The boundary guarantees this pairing; decoding trusts it.
    pub open spec fn selects(self, code: TypeCode) -> bool {
        match code {
            TypeCode::Int => self is Int64,
            TypeCode::UInt => self is Int64,
            TypeCode::Float => self is Float64,
            TypeCode::DataType => self is DataType,
            TypeCode::Context => self is Context,
            TypeCode::Handle => self is Handle,
            TypeCode::ArrayHandle => self is Handle,
            TypeCode::NodeHandle => self is Handle,
            TypeCode::ModuleHandle => self is Handle,
            TypeCode::FuncHandle => self is Handle,
            TypeCode::NDArrayContainer => self is Handle,
            TypeCode::Str => self is StrAddr,
            TypeCode::Bytes => self is BytesAddr,
        }
    }

    /// A text slot must carry a well-formed nul-terminated buffer.
    pub open spec fn wf(self) -> bool {
        self matches WireValue::StrAddr(c) ==> c.wf()
    }
}

} // verus!
