//! The column metadata resolver.
//!
//! A prepared statement describes each column by name, driver-reported SQL
//! type and nullability. [`BufferDescription::try_from`] maps that
//! description to the physical buffer layout used to receive the column's
//! data: a fixed, total-but-partial mapping from SQL type to storage kind.
//! A type with no mapping is rejected with [`UnsupportedType`], carrying the
//! offending type; the caller decides what to do with such a column.

use vstd::prelude::*;

verus! {

/// The driver-reported SQL type of a column.
///
/// Length fields count characters or bytes, excluding any terminating zero; a
/// length of `0` means the driver reported no length, and such a column has
/// no buffer layout. `precision` and `scale` are the decimal digit counts the
/// SQL type carries; `Float`'s precision is binary.
#[derive(Clone, Copy, Debug, PartialEq, Eq, Structural)]
pub enum DataType {
    /// The driver did not report a type.
    Unknown,
    /// `CHAR(n)`: character string of fixed length.
    Char { length: usize },
    /// `NCHAR(n)`: wide character string of fixed length.
    WChar { length: usize },
    /// `NUMERIC(p, s)`: exact numeric with precision `p` and scale `s`.
    Numeric { precision: usize, scale: i16 },
    /// `DECIMAL(p, s)`: exact numeric with precision at least `p`, scale `s`.
    Decimal { precision: usize, scale: i16 },
    /// `INTEGER`: 32-bit integer.
    Integer,
    /// `SMALLINT`: 16-bit integer.
    SmallInt,
    /// `FLOAT(p)`: approximate numeric with binary precision at least `p`.
    Float { precision: usize },
    /// `REAL`: approximate numeric with binary precision 24.
    Real,
    /// `DOUBLE PRECISION`: approximate numeric with binary precision 53.
    Double,
    /// `VARCHAR(n)`: variable-length character string.
    Varchar { length: usize },
    /// `NVARCHAR(n)`: variable-length wide character string.
    WVarchar { length: usize },
    /// `TEXT`: variable-length character string for long text objects.
    LongVarchar { length: usize },
    /// `NVARCHAR(MAX)`: variable-length wide string for long text objects.
    WLongVarchar { length: usize },
    /// `DATE`: year, month and day.
    Date,
    /// `TIME(p)`: time of day, with `p` fractional-second digits.
    Time { precision: i16 },
    /// `TIMESTAMP(p)`: date and time, with `p` fractional-second digits.
    Timestamp { precision: i16 },
    /// `BIGINT`: 64-bit integer.
    BigInt,
    /// `TINYINT`: 8-bit integer.
    TinyInt,
    /// `BIT`: single-bit binary.
    Bit,
    /// `VARBINARY(n)`: variable-length binary data.
    Varbinary { length: usize },
    /// `BINARY(n)`: fixed-length binary data.
    Binary { length: usize },
    /// `BLOB`: variable-length binary data for long objects.
    LongVarbinary { length: usize },
    /// A driver-specific type outside this enumeration.
    Other { data_type: i16, column_size: usize, decimal_digits: i16 },
}

/// One physical storage kind a column buffer can have: a fixed-width value
/// array, or length-prefixed narrow text, wide (UTF-16) text or binary spans
/// with the given per-row capacity.
#[derive(Clone, Copy, Debug, PartialEq, Eq, Structural)]
pub enum BufferKind {
    Binary { length: usize },
    Text { max_str_len: usize },
    WText { max_str_len: usize },
    F64,
    F32,
    Date,
    Time,
    Timestamp,
    I8,
    I16,
    I32,
    I64,
    U8,
    Bit,
}

/// A column description read from prepared-statement metadata: name,
/// driver-reported SQL type, and whether the column may hold SQL NULL.
#[derive(Clone, Debug)]
pub struct OdbcColumn {
    pub name: String,
    pub data_type: DataType,
    pub nullable: bool,
}

impl OdbcColumn {
    /// Builds a column description from its parts.
    pub fn new(name: String, data_type: DataType, nullable: bool) -> (r: OdbcColumn)
        ensures
            r.name@ == name@,
            r.data_type == data_type,
            r.nullable == nullable,
    {
        OdbcColumn { name, data_type, nullable }
    }
}

/// The physical buffer layout for one column: the storage kind, and whether
/// the buffer carries a per-row null indicator.
#[derive(Clone, Copy, Debug, PartialEq, Eq, Structural)]
pub struct BufferDescription {
    pub nullable: bool,
    pub kind: BufferKind,
}

/// The SQL type of a column that has no storage-kind mapping, surfaced for
/// diagnostic display; never retried.
#[derive(Clone, Copy, Debug, PartialEq, Eq, Structural)]
pub struct UnsupportedType {
    pub data_type: DataType,
}

/// The storage kind for an exact numeric type: small enough integer-valued
/// decimals are read as integers, everything else as display-sized text
/// (a sign and a decimal point beside the digits).
pub open spec fn decimal_kind(precision: usize, scale: i16) -> BufferKind {
    if scale == 0 && precision < 3 {
        BufferKind::I8
    } else if scale == 0 && precision < 10 {
        BufferKind::I32
    } else if scale == 0 && precision < 19 {
        BufferKind::I64
    } else {
        BufferKind::Text { max_str_len: (precision + 2) as usize }
    }
}

/// The fixed mapping from SQL type to storage kind: `None` exactly for the
/// types no buffer layout exists for (an unknown or driver-specific type, a
/// `Float` beyond double precision, or a variable-length type whose length
/// the driver did not report).
pub open spec fn buffer_kind_of(dt: DataType) -> Option<BufferKind> {
    match dt {
        DataType::Unknown => None,
        DataType::Char { length } => if length == 0 {
            None
        } else {
            Some(BufferKind::Text { max_str_len: length })
        },
        DataType::WChar { length } => if length == 0 {
            None
        } else {
            Some(BufferKind::Text { max_str_len: length })
        },
        DataType::Numeric { precision, scale } => Some(decimal_kind(precision, scale)),
        DataType::Decimal { precision, scale } => Some(decimal_kind(precision, scale)),
        DataType::Integer => Some(BufferKind::I32),
        DataType::SmallInt => Some(BufferKind::I16),
        DataType::Float { precision } => if precision <= 24 {
            Some(BufferKind::F32)
        } else if precision <= 53 {
            Some(BufferKind::F64)
        } else {
            None
        },
        DataType::Real => Some(BufferKind::F32),
        DataType::Double => Some(BufferKind::F64),
        DataType::Varchar { length } => if length == 0 {
            None
        } else {
            Some(BufferKind::Text { max_str_len: length })
        },
        DataType::WVarchar { length } => if length == 0 {
            None
        } else {
            Some(BufferKind::Text { max_str_len: length })
        },
        DataType::LongVarchar { length } => if length == 0 {
            None
        } else {
            Some(BufferKind::Text { max_str_len: length })
        },
        DataType::WLongVarchar { length } => if length == 0 {
            None
        } else {
            Some(BufferKind::Text { max_str_len: length })
        },
        DataType::Date => Some(BufferKind::Date),
        DataType::Time { precision } => if precision == 0 {
            Some(BufferKind::Time)
        } else {
            Some(BufferKind::Text { max_str_len: (9 + precision) as usize })
        },
        DataType::Timestamp { precision: _ } => Some(BufferKind::Timestamp),
        DataType::BigInt => Some(BufferKind::I64),
        DataType::TinyInt => Some(BufferKind::I8),
        DataType::Bit => Some(BufferKind::Bit),
        DataType::Varbinary { length } => if length == 0 {
            None
        } else {
            Some(BufferKind::Binary { length })
        },
        DataType::Binary { length } => if length == 0 {
            None
        } else {
            Some(BufferKind::Binary { length })
        },
        DataType::LongVarbinary { length } => if length == 0 {
            None
        } else {
            Some(BufferKind::Binary { length })
        },
        DataType::Other { data_type: _, column_size: _, decimal_digits: _ } => None,
    }
}

impl DataType {
    /// The machine-side bounds a driver-reported type is assumed to respect:
    /// a decimal precision small enough for its display size to be computed,
    /// and a non-negative fractional-second precision.
    pub open spec fn wf(&self) -> bool {
        match *self {
            DataType::Numeric { precision, scale: _ } => precision + 2 <= usize::MAX,
            DataType::Decimal { precision, scale: _ } => precision + 2 <= usize::MAX,
            DataType::Time { precision } => precision >= 0,
            _ => true,
        }
    }
}

/// The storage kind for an exact numeric type.
fn decimal_kind_exec(precision: usize, scale: i16) -> (r: BufferKind)
    requires
        precision + 2 <= usize::MAX,
    ensures
        r == decimal_kind(precision, scale),
{
    if scale == 0 && precision < 3 {
        BufferKind::I8
    } else if scale == 0 && precision < 10 {
        BufferKind::I32
    } else if scale == 0 && precision < 19 {
        BufferKind::I64
    } else {
        BufferKind::Text { max_str_len: precision + 2 }
    }
}

impl BufferDescription {
    /// Derives the physical buffer layout for a described column: the
    /// nullability flag is copied verbatim, and the storage kind is the
    /// fixed mapping's value for the column's SQL type. Fails with
    /// [`UnsupportedType`], carrying the offending type, exactly when the
    /// mapping has no entry for it.
    pub fn try_from(c: &OdbcColumn) -> (r: Result<BufferDescription, UnsupportedType>)
        requires
            c.data_type.wf(),
        ensures
            r is Ok <==> buffer_kind_of(c.data_type) is Some,
            r matches Ok(d) ==> Some(d.kind) == buffer_kind_of(c.data_type) && d.nullable
                == c.nullable,
            r matches Err(e) ==> e == (UnsupportedType { data_type: c.data_type }),
    {
        let kind: Option<BufferKind> = match c.data_type {
            DataType::Unknown => None,
            DataType::Char { length } => if length == 0 {
                None
            } else {
                Some(BufferKind::Text { max_str_len: length })
            },
            DataType::WChar { length } => if length == 0 {
                None
            } else {
                Some(BufferKind::Text { max_str_len: length })
            },
            DataType::Numeric { precision, scale } => Some(decimal_kind_exec(precision, scale)),
            DataType::Decimal { precision, scale } => Some(decimal_kind_exec(precision, scale)),
            DataType::Integer => Some(BufferKind::I32),
            DataType::SmallInt => Some(BufferKind::I16),
            DataType::Float { precision } => if precision <= 24 {
                Some(BufferKind::F32)
            } else if precision <= 53 {
                Some(BufferKind::F64)
            } else {
                None
            },
            DataType::Real => Some(BufferKind::F32),
            DataType::Double => Some(BufferKind::F64),
            DataType::Varchar { length } => if length == 0 {
                None
            } else {
                Some(BufferKind::Text { max_str_len: length })
            },
            DataType::WVarchar { length } => if length == 0 {
                None
            } else {
                Some(BufferKind::Text { max_str_len: length })
            },
            DataType::LongVarchar { length } => if length == 0 {
                None
            } else {
                Some(BufferKind::Text { max_str_len: length })
            },
            DataType::WLongVarchar { length } => if length == 0 {
                None
            } else {
                Some(BufferKind::Text { max_str_len: length })
            },
            DataType::Date => Some(BufferKind::Date),
            DataType::Time { precision } => if precision == 0 {
                Some(BufferKind::Time)
            } else {
                Some(BufferKind::Text { max_str_len: 9 + (precision as usize) })
            },
            DataType::Timestamp { precision: _ } => Some(BufferKind::Timestamp),
            DataType::BigInt => Some(BufferKind::I64),
            DataType::TinyInt => Some(BufferKind::I8),
            DataType::Bit => Some(BufferKind::Bit),
            DataType::Varbinary { length } => if length == 0 {
                None
            } else {
                Some(BufferKind::Binary { length })
            },
            DataType::Binary { length } => if length == 0 {
                None
            } else {
                Some(BufferKind::Binary { length })
            },
            DataType::LongVarbinary { length } => if length == 0 {
                None
            } else {
                Some(BufferKind::Binary { length })
            },
            DataType::Other { data_type: _, column_size: _, decimal_digits: _ } => None,
        };
        match kind {
            Some(k) => Ok(BufferDescription { nullable: c.nullable, kind: k }),
            None => Err(UnsupportedType { data_type: c.data_type }),
        }
    }
}

} // verus!
