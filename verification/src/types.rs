//! The scalar and column-role type system: the scalar kinds a field can
//! hold, the role a column plays, and the translation between a column's
//! role and the native columnar representation used by the query engine.

use vstd::prelude::*;

verus! {

/// Scalar kind of a measured value.
#[derive(Debug, Copy, Clone, PartialEq, Eq, Structural, Hash)]
pub enum ValueType {
    Float,
    Integer,
    Unsigned,
    Boolean,
    String,
    Unknown,
}

/// The role a column plays: an indexed text label, the mandatory timestamp,
/// or a measured field of a concrete scalar kind.
#[derive(Debug, Copy, Clone, PartialEq, Eq, Structural, Hash)]
pub enum ColumnType {
    Tag,
    Time,
    Field(ValueType),
}

/// Native columnar type understood by the query engine; the catalog's own
/// model of that representation.
#[derive(Debug, Copy, Clone, PartialEq, Eq, Structural, Hash)]
pub enum NativeType {
    /// Variable-length text.
    Text,
    /// 64-bit signed timestamp at nanosecond resolution.
    TimestampNanos,
    /// 64-bit floating-point number.
    Float64,
    /// 64-bit signed integer.
    Int64,
    /// 64-bit unsigned integer.
    UInt64,
    /// Boolean.
    Boolean,
    /// Null / unsupported marker.
    Null,
}

/// A native columnar type with no catalog equivalent was offered.
#[derive(Debug, Copy, Clone, PartialEq, Eq, Structural)]
pub struct UnsupportedTypeError;

pub open spec fn native_of(t: ColumnType) -> NativeType {
    match t {
        ColumnType::Tag => NativeType::Text,
        ColumnType::Time => NativeType::TimestampNanos,
        ColumnType::Field(ValueType::Float) => NativeType::Float64,
        ColumnType::Field(ValueType::Integer) => NativeType::Int64,
        ColumnType::Field(ValueType::Unsigned) => NativeType::UInt64,
        ColumnType::Field(ValueType::String) => NativeType::Text,
        ColumnType::Field(ValueType::Boolean) => NativeType::Boolean,
        ColumnType::Field(ValueType::Unknown) => NativeType::Null,
    }
}

pub open spec fn column_of_native(t: NativeType) -> Result<ColumnType, UnsupportedTypeError> {
    match t {
        NativeType::Float64 => Ok(ColumnType::Field(ValueType::Float)),
        NativeType::Int64 => Ok(ColumnType::Field(ValueType::Integer)),
        NativeType::UInt64 => Ok(ColumnType::Field(ValueType::Unsigned)),
        NativeType::Text => Ok(ColumnType::Field(ValueType::String)),
        NativeType::Boolean => Ok(ColumnType::Field(ValueType::Boolean)),
        _ => Err(UnsupportedTypeError),
    }
}

impl ColumnType {
    /// Short textual label of the role, used in human-readable listings.
    pub open spec fn as_str_spec(self) -> Seq<char> {
        match self {
            ColumnType::Tag => "tag"@,
            ColumnType::Time => "time"@,
            ColumnType::Field(ValueType::Integer) => "i64"@,
            ColumnType::Field(ValueType::Unsigned) => "u64"@,
            ColumnType::Field(ValueType::Float) => "f64"@,
            ColumnType::Field(ValueType::Boolean) => "bool"@,
            ColumnType::Field(ValueType::String) => "string"@,
            ColumnType::Field(ValueType::Unknown) => "Error filed type not supported"@,
        }
    }

    pub fn as_str(&self) -> (r: &'static str)
        ensures
            r@ == self.as_str_spec(),
    {
        match self {
            ColumnType::Tag => "tag",
            ColumnType::Time => "time",
            ColumnType::Field(ValueType::Integer) => "i64",
            ColumnType::Field(ValueType::Unsigned) => "u64",
            ColumnType::Field(ValueType::Float) => "f64",
            ColumnType::Field(ValueType::Boolean) => "bool",
            ColumnType::Field(ValueType::String) => "string",
            ColumnType::Field(ValueType::Unknown) => "Error filed type not supported",
        }
    }

    pub open spec fn field_type_spec(self) -> u8 {
        match self {
            ColumnType::Field(ValueType::Float) => 0u8,
            ColumnType::Field(ValueType::Integer) => 1u8,
            ColumnType::Field(ValueType::Unsigned) => 2u8,
            ColumnType::Field(ValueType::Boolean) => 3u8,
            ColumnType::Field(ValueType::String) => 4u8,
            _ => 0u8,
        }
    }

    /// Compact numeric tag of a field's scalar kind, used in the wire
    /// encoding of persisted metadata.
    pub fn field_type(&self) -> (r: u8)
        ensures
            r == self.field_type_spec(),
    {
        match self {
            ColumnType::Field(ValueType::Float) => 0,
            ColumnType::Field(ValueType::Integer) => 1,
            ColumnType::Field(ValueType::Unsigned) => 2,
            ColumnType::Field(ValueType::Boolean) => 3,
            ColumnType::Field(ValueType::String) => 4,
            _ => 0,
        }
    }

    pub open spec fn from_i32_spec(field_type: i32) -> ColumnType {
        match field_type {
            0i32 => ColumnType::Field(ValueType::Float),
            1i32 => ColumnType::Field(ValueType::Integer),
            2i32 => ColumnType::Field(ValueType::Unsigned),
            3i32 => ColumnType::Field(ValueType::Boolean),
            4i32 => ColumnType::Field(ValueType::String),
            5i32 => ColumnType::Time,
            _ => ColumnType::Field(ValueType::Unknown),
        }
    }

    /// Decodes the compact wire tag; an unrecognized tag yields the
    /// `Field(Unknown)` soft-error sentinel rather than a failure.
    pub fn from_i32(field_type: i32) -> (r: Self)
        ensures
            r == Self::from_i32_spec(field_type),
    {
        match field_type {
            0 => ColumnType::Field(ValueType::Float),
            1 => ColumnType::Field(ValueType::Integer),
            2 => ColumnType::Field(ValueType::Unsigned),
            3 => ColumnType::Field(ValueType::Boolean),
            4 => ColumnType::Field(ValueType::String),
            5 => ColumnType::Time,
            _ => ColumnType::Field(ValueType::Unknown),
        }
    }

    pub fn is_tag(&self) -> (r: bool)
        ensures
            r == (*self == ColumnType::Tag),
    {
        matches!(self, ColumnType::Tag)
    }

    /// Native columnar representation of this role: tags are text, the time
    /// column is a nanosecond timestamp, a field uses its scalar kind's
    /// native type, and `Field(Unknown)` maps to the null marker.
    pub fn to_native_representation(&self) -> (r: NativeType)
        ensures
            r == native_of(*self),
    {
        match self {
            ColumnType::Tag => NativeType::Text,
            ColumnType::Time => NativeType::TimestampNanos,
            ColumnType::Field(ValueType::Float) => NativeType::Float64,
            ColumnType::Field(ValueType::Integer) => NativeType::Int64,
            ColumnType::Field(ValueType::Unsigned) => NativeType::UInt64,
            ColumnType::Field(ValueType::String) => NativeType::Text,
            ColumnType::Field(ValueType::Boolean) => NativeType::Boolean,
            ColumnType::Field(ValueType::Unknown) => NativeType::Null,
        }
    }

    /// Inverse of the native mapping for the concrete field kinds; any
    /// other native type is a deliberate narrowing failure.
    pub fn from_native_representation(t: NativeType) -> (r: Result<ColumnType, UnsupportedTypeError>)
        ensures
            r == column_of_native(t),
    {
        match t {
            NativeType::Float64 => Ok(ColumnType::Field(ValueType::Float)),
            NativeType::Int64 => Ok(ColumnType::Field(ValueType::Integer)),
            NativeType::UInt64 => Ok(ColumnType::Field(ValueType::Unsigned)),
            NativeType::Text => Ok(ColumnType::Field(ValueType::String)),
            NativeType::Boolean => Ok(ColumnType::Field(ValueType::Boolean)),
            _ => Err(UnsupportedTypeError),
        }
    }
}

/// Converting a concrete field role to its native columnar type and back
/// yields the original role. `Field(Unknown)` has no native equivalent, and
/// `Tag`/`Time` are fixed roles that share native types with field kinds,
/// so they are exempt.
pub proof fn lemma_native_round_trip(t: ColumnType)
    requires
        t matches ColumnType::Field(v) && v != ValueType::Unknown,
    ensures
        column_of_native(native_of(t)) == Ok::<ColumnType, UnsupportedTypeError>(t),
{
}

} // verus!
