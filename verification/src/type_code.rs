use vstd::prelude::*;

verus! {

/// The discriminant carried beside each raw wire slot. Both sides of the
/// boundary must agree on the numeric value of every variant: changing one is
/// a breaking protocol change, so the mapping below is part of the wire
/// contract, not an internal choice. (The value 4 is reserved for a null slot
/// that no packed value produces.)
#[derive(Clone, Copy, Debug, PartialEq, Eq, Structural)]
pub enum TypeCode {
    Int,
    UInt,
    Float,
    Handle,
    DataType,
    Context,
    ArrayHandle,
    NodeHandle,
    ModuleHandle,
    FuncHandle,
    Str,
    Bytes,
    NDArrayContainer,
}

impl TypeCode {
    /// The numeric discriminant of this code on the wire.
    pub open spec fn as_raw_spec(self) -> u32 {
        match self {
            TypeCode::Int => 0,
            TypeCode::UInt => 1,
            TypeCode::Float => 2,
            TypeCode::Handle => 3,
            TypeCode::DataType => 5,
            TypeCode::Context => 6,
            TypeCode::ArrayHandle => 7,
            TypeCode::NodeHandle => 8,
            TypeCode::ModuleHandle => 9,
            TypeCode::FuncHandle => 10,
            TypeCode::Str => 11,
            TypeCode::Bytes => 12,
            TypeCode::NDArrayContainer => 13,
        }
    }

    /// The code that a numeric discriminant denotes; `None` for a discriminant
    /// outside the protocol, which a decoder treats as a fatal protocol
    /// violation, not a recoverable error.
    pub open spec fn from_raw_spec(raw: u32) -> Option<TypeCode> {
        if raw == 0 {
            Some(TypeCode::Int)
        } else if raw == 1 {
            Some(TypeCode::UInt)
        } else if raw == 2 {
            Some(TypeCode::Float)
        } else if raw == 3 {
            Some(TypeCode::Handle)
        } else if raw == 5 {
            Some(TypeCode::DataType)
        } else if raw == 6 {
            Some(TypeCode::Context)
        } else if raw == 7 {
            Some(TypeCode::ArrayHandle)
        } else if raw == 8 {
            Some(TypeCode::NodeHandle)
        } else if raw == 9 {
            Some(TypeCode::ModuleHandle)
        } else if raw == 10 {
            Some(TypeCode::FuncHandle)
        } else if raw == 11 {
            Some(TypeCode::Str)
        } else if raw == 12 {
            Some(TypeCode::Bytes)
        } else if raw == 13 {
            Some(TypeCode::NDArrayContainer)
        } else {
            None
        }
    }

    pub fn as_raw(self) -> (r: u32)
        ensures
            r == self.as_raw_spec(),
    {
        match self {
            TypeCode::Int => 0,
            TypeCode::UInt => 1,
            TypeCode::Float => 2,
            TypeCode::Handle => 3,
            TypeCode::DataType => 5,
            TypeCode::Context => 6,
            TypeCode::ArrayHandle => 7,
            TypeCode::NodeHandle => 8,
            TypeCode::ModuleHandle => 9,
            TypeCode::FuncHandle => 10,
            TypeCode::Str => 11,
            TypeCode::Bytes => 12,
            TypeCode::NDArrayContainer => 13,
        }
    }

    pub fn from_raw(raw: u32) -> (r: Option<TypeCode>)
        ensures
            r == Self::from_raw_spec(raw),
    {
        if raw == 0 {
            Some(TypeCode::Int)
        } else if raw == 1 {
            Some(TypeCode::UInt)
        } else if raw == 2 {
            Some(TypeCode::Float)
        } else if raw == 3 {
            Some(TypeCode::Handle)
        } else if raw == 5 {
            Some(TypeCode::DataType)
        } else if raw == 6 {
            Some(TypeCode::Context)
        } else if raw == 7 {
            Some(TypeCode::ArrayHandle)
        } else if raw == 8 {
            Some(TypeCode::NodeHandle)
        } else if raw == 9 {
            Some(TypeCode::ModuleHandle)
        } else if raw == 10 {
            Some(TypeCode::FuncHandle)
        } else if raw == 11 {
            Some(TypeCode::Str)
        } else if raw == 12 {
            Some(TypeCode::Bytes)
        } else if raw == 13 {
            Some(TypeCode::NDArrayContainer)
        } else {
            None
        }
    }

    /// A short description of the variant this code selects, for diagnostics.
    pub open spec fn name_spec(self) -> Seq<char> {
        match self {
            TypeCode::Int => "Int"@,
            TypeCode::UInt => "UInt"@,
            TypeCode::Float => "Float"@,
            TypeCode::Handle => "Handle"@,
            TypeCode::DataType => "DataType"@,
            TypeCode::Context => "Context"@,
            TypeCode::ArrayHandle => "ArrayHandle"@,
            TypeCode::NodeHandle => "NodeHandle"@,
            TypeCode::ModuleHandle => "ModuleHandle"@,
            TypeCode::FuncHandle => "FuncHandle"@,
            TypeCode::Str => "Str"@,
            TypeCode::Bytes => "Bytes"@,
            TypeCode::NDArrayContainer => "NDArrayContainer"@,
        }
    }

    pub fn name(self) -> (r: &'static str)
        ensures
            r@ == self.name_spec(),
    {
        match self {
            TypeCode::Int => "Int",
            TypeCode::UInt => "UInt",
            TypeCode::Float => "Float",
            TypeCode::Handle => "Handle",
            TypeCode::DataType => "DataType",
            TypeCode::Context => "Context",
            TypeCode::ArrayHandle => "ArrayHandle",
            TypeCode::NodeHandle => "NodeHandle",
            TypeCode::ModuleHandle => "ModuleHandle",
            TypeCode::FuncHandle => "FuncHandle",
            TypeCode::Str => "Str",
            TypeCode::Bytes => "Bytes",
            TypeCode::NDArrayContainer => "NDArrayContainer",
        }
    }
}

/// Law: every defined code maps to a discriminant and back to itself, so the
/// numeric mapping is total over the variants.
pub proof fn lemma_type_code_roundtrip(c: TypeCode)
    ensures
        TypeCode::from_raw_spec(c.as_raw_spec()) == Some(c),
{
}

/// Law: no two codes share a discriminant.
pub proof fn lemma_type_code_injective(a: TypeCode, b: TypeCode)
    requires
        a.as_raw_spec() == b.as_raw_spec(),
    ensures
        a == b,
{
}

} // verus!
