use vstd::prelude::*;

verus! {

/// Resolution of a timestamp.
#[derive(Clone, Copy, Debug, PartialEq, Eq, Structural)]
pub enum TimeUnit {
    Second,
    Millisecond,
    Microsecond,
    Nanosecond,
}

/// The declared type of a column.
#[derive(Clone, Copy, Debug, PartialEq, Eq, Structural)]
pub enum DataType {
    Boolean,
    Int8,
    Int16,
    Int32,
    Int64,
    UInt8,
    UInt16,
    UInt32,
    UInt64,
    Float32,
    Float64,
    String,
    Binary,
    Timestamp(TimeUnit),
}

/// The role a column plays in its table.
#[derive(Clone, Copy, Debug, PartialEq, Eq, Structural)]
pub enum SemanticType {
    Tag,
    Field,
    Timestamp,
}

/// One cell. Floating-point cells carry the IEEE-754 bit pattern of the number.
#[derive(Debug)]
pub enum Value {
    Null,
    Boolean(bool),
    Int8(i8),
    Int16(i16),
    Int32(i32),
    Int64(i64),
    UInt8(u8),
    UInt16(u16),
    UInt32(u32),
    UInt64(u64),
    Float32(u32),
    Float64(u64),
    String(String),
    Binary(Vec<u8>),
    Timestamp(TimeUnit, i64),
}

/// A null cell fits any column; any other cell fits only the type it was made for.
pub open spec fn fits(v: Value, t: DataType) -> bool {
    match v {
        Value::Null => true,
        Value::Boolean(_) => t == DataType::Boolean,
        Value::Int8(_) => t == DataType::Int8,
        Value::Int16(_) => t == DataType::Int16,
        Value::Int32(_) => t == DataType::Int32,
        Value::Int64(_) => t == DataType::Int64,
        Value::UInt8(_) => t == DataType::UInt8,
        Value::UInt16(_) => t == DataType::UInt16,
        Value::UInt32(_) => t == DataType::UInt32,
        Value::UInt64(_) => t == DataType::UInt64,
        Value::Float32(_) => t == DataType::Float32,
        Value::Float64(_) => t == DataType::Float64,
        Value::String(_) => t == DataType::String,
        Value::Binary(_) => t == DataType::Binary,
        Value::Timestamp(u, _) => t == DataType::Timestamp(u),
    }
}

impl Value {
    pub open spec fn is_null_spec(&self) -> bool {
        self is Null
    }

    pub fn is_null(&self) -> (r: bool)
        ensures
            r == self.is_null_spec(),
    {
        match self {
            Value::Null => true,
            _ => false,
        }
    }

    /// Whether this cell may be stored in a column declared as `t`.
    pub fn fits(&self, t: DataType) -> (r: bool)
        ensures
            r == fits(*self, t),
    {
        match self {
            Value::Null => true,
            Value::Boolean(_) => t == DataType::Boolean,
            Value::Int8(_) => t == DataType::Int8,
            Value::Int16(_) => t == DataType::Int16,
            Value::Int32(_) => t == DataType::Int32,
            Value::Int64(_) => t == DataType::Int64,
            Value::UInt8(_) => t == DataType::UInt8,
            Value::UInt16(_) => t == DataType::UInt16,
            Value::UInt32(_) => t == DataType::UInt32,
            Value::UInt64(_) => t == DataType::UInt64,
            Value::Float32(_) => t == DataType::Float32,
            Value::Float64(_) => t == DataType::Float64,
            Value::String(_) => t == DataType::String,
            Value::Binary(_) => t == DataType::Binary,
            Value::Timestamp(u, _) => t == DataType::Timestamp(*u),
        }
    }
}

} // verus!
