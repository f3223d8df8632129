use vstd::prelude::*;

use crate::type_code::TypeCode;

verus! {

/// The host types a packed value can be asked to downcast to. Every pairing
/// of a variant and a host type not covered by a conversion below is a
/// capability absent at compile time, not a runtime error.
#[derive(Clone, Copy, Debug, PartialEq, Eq, Structural)]
pub enum HostType {
    I8,
    I16,
    I32,
    I64,
    ISize,
    FloatBits,
    DataType,
    Context,
    Text,
    Bytes,
}

impl HostType {
    /// The host type's name, for diagnostics.
    pub open spec fn name_spec(self) -> Seq<char> {
        match self {
            HostType::I8 => "i8"@,
            HostType::I16 => "i16"@,
            HostType::I32 => "i32"@,
            HostType::I64 => "i64"@,
            HostType::ISize => "isize"@,
            HostType::FloatBits => "float bits"@,
            HostType::DataType => "DataType"@,
            HostType::Context => "Context"@,
            HostType::Text => "text"@,
            HostType::Bytes => "bytes"@,
        }
    }

    pub fn name(self) -> (r: &'static str)
        ensures
            r@ == self.name_spec(),
    {
        match self {
            HostType::I8 => "i8",
            HostType::I16 => "i16",
            HostType::I32 => "i32",
            HostType::I64 => "i64",
            HostType::ISize => "isize",
            HostType::FloatBits => "float bits",
            HostType::DataType => "DataType",
            HostType::Context => "Context",
            HostType::Text => "text",
            HostType::Bytes => "bytes",
        }
    }
}

/// A failed downcast: the recoverable error of this layer. It carries the
/// variant the value actually held and the host type the caller asked for;
/// it is returned, never thrown, and downcasting never panics and never
/// substitutes a default.
#[derive(Clone, Copy, Debug, PartialEq, Eq, Structural)]
pub struct DowncastError {
    /// The variant the packed value actually held.
    pub actual: TypeCode,
    /// The host type the caller asked for.
    pub expected: HostType,
}

impl DowncastError {
    /// The actual variant's name, rendered for diagnostics.
    pub fn actual_name(&self) -> (r: &'static str)
        ensures
            r@ == self.actual.name_spec(),
    {
        self.actual.name()
    }

    /// The requested host type's name, rendered for diagnostics.
    pub fn expected_name(&self) -> (r: &'static str)
        ensures
            r@ == self.expected.name_spec(),
    {
        self.expected.name()
    }
}

} // verus!
