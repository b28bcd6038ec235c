//! The buffer materializer.
//!
//! A driver fills one column-oriented buffer per column: either a dense array
//! of fixed-width values (optionally paired with a per-row null-indicator
//! array), or a sequence of variable-length spans with an explicit
//! present/absent encoding per row. [`RawColumnBuffer::convert`] turns such a
//! buffer into one typed, nullable cell value per row, preserving row order.

use crate::codec::{is_high_surrogate, is_low_surrogate};
use crate::codec::{utf16_chars, utf16_well_formed, utf8_lossy_of};
use crate::codec::{decode_narrow, decode_wide_string};
use crate::sys::{OdbcDate, OdbcTime, OdbcTimestamp};
use vstd::prelude::*;

verus! {

/// The driver's null-indicator sentinel (ODBC's `SQL_NULL_DATA`): a row whose
/// indicator equals this value holds SQL NULL, any other indicator marks the
/// value array's element as valid.
pub const NULL_DATA: isize = -1;

/// One row's worth of data for one column: a tagged value carrying either a
/// typed payload or an explicit absence (SQL NULL) marker.
///
/// The floating-point families carry the IEEE-754 bit pattern of the driver's
/// value (`f64` bits in a `u64`, `f32` bits in a `u32`): the materializer
/// copies values bit for bit and never does floating-point arithmetic.
#[derive(Clone, Debug, PartialEq)]
pub enum OdbcColumnItem {
    Text(Option<String>),
    WText(Option<String>),
    Binary(Option<Vec<u8>>),
    Date(Option<OdbcDate>),
    Time(Option<OdbcTime>),
    Timestamp(Option<OdbcTimestamp>),
    F64(Option<u64>),
    F32(Option<u32>),
    I8(Option<i8>),
    I16(Option<i16>),
    I32(Option<i32>),
    I64(Option<i64>),
    U8(Option<u8>),
    Bit(Option<bool>),
}

/// The text that [`OdbcColumnItem::to_string`] yields for a cell value.
pub uninterp spec fn item_text_of(item: OdbcColumnItem) -> Seq<char>;

impl OdbcColumnItem {
    /// A deterministic, human-readable textual form of the cell value, one
    /// fixed convention applied uniformly over all variants.
    ///
    /// Relies on the standard library's formatting machinery together with
    /// the derived `Debug` impl: the text is a function of the value alone.
    #[verifier::external_body]
    pub fn to_string(&self) -> (r: String)
        ensures
            r@ == item_text_of(*self),
    {
        format!("{:?}", self)
    }
}

/// A fatal wide-text decode failure: row `row` of the buffer holds an
/// ill-formed UTF-16 code-unit sequence (and every earlier present row a
/// well-formed one).
#[derive(Clone, Copy, Debug, PartialEq, Eq, Structural)]
pub struct DecodeError {
    pub row: usize,
}

/// A filled, driver-delivered column buffer: one variant per physical storage
/// kind. `Nullable` variants pair the value array with a parallel array of
/// per-row indicators; the arrays having equal length is a driver-side
/// invariant ([`RawColumnBuffer::wf`]), not re-validated here.
#[derive(Clone, Debug)]
pub enum RawColumnBuffer {
    Text(Vec<Option<Vec<u8>>>),
    WText(Vec<Option<Vec<u16>>>),
    Binary(Vec<Option<Vec<u8>>>),
    Date(Vec<OdbcDate>),
    Time(Vec<OdbcTime>),
    Timestamp(Vec<OdbcTimestamp>),
    F64(Vec<u64>),
    F32(Vec<u32>),
    I8(Vec<i8>),
    I16(Vec<i16>),
    I32(Vec<i32>),
    I64(Vec<i64>),
    U8(Vec<u8>),
    Bit(Vec<u8>),
    NullableDate(Vec<OdbcDate>, Vec<isize>),
    NullableTime(Vec<OdbcTime>, Vec<isize>),
    NullableTimestamp(Vec<OdbcTimestamp>, Vec<isize>),
    NullableF64(Vec<u64>, Vec<isize>),
    NullableF32(Vec<u32>, Vec<isize>),
    NullableI8(Vec<i8>, Vec<isize>),
    NullableI16(Vec<i16>, Vec<isize>),
    NullableI32(Vec<i32>, Vec<isize>),
    NullableI64(Vec<i64>, Vec<isize>),
    NullableU8(Vec<u8>, Vec<isize>),
    NullableBit(Vec<u8>, Vec<isize>),
}

/// What a materialized narrow-text cell must hold for a given row span:
/// absent becomes the null variant; a present span becomes the present
/// variant holding its lossy UTF-8 decoding.
pub open spec fn text_cell_ok(span: Option<Vec<u8>>, item: OdbcColumnItem) -> bool {
    match (span, item) {
        (Option::Some(bytes), OdbcColumnItem::Text(Option::Some(s))) => {
            &&& s@ == utf8_lossy_of(bytes@)
            &&& (vstd::utf8::valid_utf8(bytes@) ==> s@ == vstd::utf8::decode_utf8(bytes@))
        },
        (Option::None, OdbcColumnItem::Text(Option::None)) => true,
        _ => false,
    }
}

/// What a materialized wide-text cell must hold for a given row span: absent
/// becomes the null variant; a present span is well-formed UTF-16 and becomes
/// the present variant holding exactly its decoded characters.
pub open spec fn wtext_cell_ok(span: Option<Vec<u16>>, item: OdbcColumnItem) -> bool {
    match (span, item) {
        (Option::Some(units), OdbcColumnItem::WText(Option::Some(s))) => {
            &&& utf16_well_formed(units@)
            &&& s@ == utf16_chars(units@)
        },
        (Option::None, OdbcColumnItem::WText(Option::None)) => true,
        _ => false,
    }
}

/// What a materialized binary cell must hold for a given row span: absent
/// becomes the null variant; a present span becomes an exact byte copy.
pub open spec fn binary_cell_ok(span: Option<Vec<u8>>, item: OdbcColumnItem) -> bool {
    match (span, item) {
        (Option::Some(bytes), OdbcColumnItem::Binary(Option::Some(out))) => out@ == bytes@,
        (Option::None, OdbcColumnItem::Binary(Option::None)) => true,
        _ => false,
    }
}

impl RawColumnBuffer {
    /// The number of rows the buffer holds.
    pub open spec fn rows(&self) -> nat {
        match self {
            RawColumnBuffer::Text(spans) => spans@.len(),
            RawColumnBuffer::WText(spans) => spans@.len(),
            RawColumnBuffer::Binary(spans) => spans@.len(),
            RawColumnBuffer::Date(vals) => vals@.len(),
            RawColumnBuffer::Time(vals) => vals@.len(),
            RawColumnBuffer::Timestamp(vals) => vals@.len(),
            RawColumnBuffer::F64(vals) => vals@.len(),
            RawColumnBuffer::F32(vals) => vals@.len(),
            RawColumnBuffer::I8(vals) => vals@.len(),
            RawColumnBuffer::I16(vals) => vals@.len(),
            RawColumnBuffer::I32(vals) => vals@.len(),
            RawColumnBuffer::I64(vals) => vals@.len(),
            RawColumnBuffer::U8(vals) => vals@.len(),
            RawColumnBuffer::Bit(vals) => vals@.len(),
            RawColumnBuffer::NullableDate(vals, _) => vals@.len(),
            RawColumnBuffer::NullableTime(vals, _) => vals@.len(),
            RawColumnBuffer::NullableTimestamp(vals, _) => vals@.len(),
            RawColumnBuffer::NullableF64(vals, _) => vals@.len(),
            RawColumnBuffer::NullableF32(vals, _) => vals@.len(),
            RawColumnBuffer::NullableI8(vals, _) => vals@.len(),
            RawColumnBuffer::NullableI16(vals, _) => vals@.len(),
            RawColumnBuffer::NullableI32(vals, _) => vals@.len(),
            RawColumnBuffer::NullableI64(vals, _) => vals@.len(),
            RawColumnBuffer::NullableU8(vals, _) => vals@.len(),
            RawColumnBuffer::NullableBit(vals, _) => vals@.len(),
        }
    }

    /// The driver-side pairing invariant: in every nullable variant the value
    /// array and the indicator array have equal length.
    pub open spec fn wf(&self) -> bool {
        match self {
            RawColumnBuffer::NullableDate(vals, inds) => vals@.len() == inds@.len(),
            RawColumnBuffer::NullableTime(vals, inds) => vals@.len() == inds@.len(),
            RawColumnBuffer::NullableTimestamp(vals, inds) => vals@.len() == inds@.len(),
            RawColumnBuffer::NullableF64(vals, inds) => vals@.len() == inds@.len(),
            RawColumnBuffer::NullableF32(vals, inds) => vals@.len() == inds@.len(),
            RawColumnBuffer::NullableI8(vals, inds) => vals@.len() == inds@.len(),
            RawColumnBuffer::NullableI16(vals, inds) => vals@.len() == inds@.len(),
            RawColumnBuffer::NullableI32(vals, inds) => vals@.len() == inds@.len(),
            RawColumnBuffer::NullableI64(vals, inds) => vals@.len() == inds@.len(),
            RawColumnBuffer::NullableU8(vals, inds) => vals@.len() == inds@.len(),
            RawColumnBuffer::NullableBit(vals, inds) => vals@.len() == inds@.len(),
            _ => true,
        }
    }

    /// True when materializing the buffer must fail: only a wide-text buffer
    /// can fail, on a present row whose code units are ill-formed UTF-16.
    pub open spec fn has_decode_failure(&self) -> bool {
        match self {
            RawColumnBuffer::WText(spans) => exists|i: int|
                0 <= i < spans@.len() && ((#[trigger] spans@[i]) matches Option::Some(u)
                    && !utf16_well_formed(u@)),
            _ => false,
        }
    }

    /// Row `row` is the first present row whose code units are ill-formed.
    pub open spec fn decode_failure_at(&self, row: int) -> bool {
        match self {
            RawColumnBuffer::WText(spans) => {
                &&& 0 <= row < spans@.len()
            &&& spans@[row] matches Option::Some(u) && !utf16_well_formed(u@)
            &&& (forall|j: int|
                    0 <= j < row ==> ((#[trigger] spans@[j]) matches Option::Some(u)
                        ==> utf16_well_formed(u@)))
            },
            _ => false,
        }
    }

    /// What the cell at row `i` of the materialized column must hold, given
    /// the buffer: the storage kind picks the variant, and only the payload's
    /// presence or absence varies row to row.
    pub open spec fn cell_matches(&self, item: OdbcColumnItem, i: int) -> bool {
        match self {
            RawColumnBuffer::Text(spans) => text_cell_ok(spans@[i], item),
            RawColumnBuffer::WText(spans) => wtext_cell_ok(spans@[i], item),
            RawColumnBuffer::Binary(spans) => binary_cell_ok(spans@[i], item),
            RawColumnBuffer::Date(vals) => item == OdbcColumnItem::Date(Option::Some(vals@[i])),
            RawColumnBuffer::Time(vals) => item == OdbcColumnItem::Time(Option::Some(vals@[i])),
            RawColumnBuffer::Timestamp(vals) => item == OdbcColumnItem::Timestamp(
                Option::Some(vals@[i]),
            ),
            RawColumnBuffer::F64(vals) => item == OdbcColumnItem::F64(Option::Some(vals@[i])),
            RawColumnBuffer::F32(vals) => item == OdbcColumnItem::F32(Option::Some(vals@[i])),
            RawColumnBuffer::I8(vals) => item == OdbcColumnItem::I8(Option::Some(vals@[i])),
            RawColumnBuffer::I16(vals) => item == OdbcColumnItem::I16(Option::Some(vals@[i])),
            RawColumnBuffer::I32(vals) => item == OdbcColumnItem::I32(Option::Some(vals@[i])),
            RawColumnBuffer::I64(vals) => item == OdbcColumnItem::I64(Option::Some(vals@[i])),
            RawColumnBuffer::U8(vals) => item == OdbcColumnItem::U8(Option::Some(vals@[i])),
            RawColumnBuffer::Bit(vals) => item == OdbcColumnItem::Bit(
                Option::Some(vals@[i] != 0),
            ),
            RawColumnBuffer::NullableDate(vals, inds) => item == (if inds@[i] == NULL_DATA {
                OdbcColumnItem::Date(Option::None)
            } else {
                OdbcColumnItem::Date(Option::Some(vals@[i]))
            }),
            RawColumnBuffer::NullableTime(vals, inds) => item == (if inds@[i] == NULL_DATA {
                OdbcColumnItem::Time(Option::None)
            } else {
                OdbcColumnItem::Time(Option::Some(vals@[i]))
            }),
            RawColumnBuffer::NullableTimestamp(vals, inds) => item == (if inds@[i] == NULL_DATA {
                OdbcColumnItem::Timestamp(Option::None)
            } else {
                OdbcColumnItem::Timestamp(Option::Some(vals@[i]))
            }),
            RawColumnBuffer::NullableF64(vals, inds) => item == (if inds@[i] == NULL_DATA {
                OdbcColumnItem::F64(Option::None)
            } else {
                OdbcColumnItem::F64(Option::Some(vals@[i]))
            }),
            RawColumnBuffer::NullableF32(vals, inds) => item == (if inds@[i] == NULL_DATA {
                OdbcColumnItem::F32(Option::None)
            } else {
                OdbcColumnItem::F32(Option::Some(vals@[i]))
            }),
            RawColumnBuffer::NullableI8(vals, inds) => item == (if inds@[i] == NULL_DATA {
                OdbcColumnItem::I8(Option::None)
            } else {
                OdbcColumnItem::I8(Option::Some(vals@[i]))
            }),
            RawColumnBuffer::NullableI16(vals, inds) => item == (if inds@[i] == NULL_DATA {
                OdbcColumnItem::I16(Option::None)
            } else {
                OdbcColumnItem::I16(Option::Some(vals@[i]))
            }),
            RawColumnBuffer::NullableI32(vals, inds) => item == (if inds@[i] == NULL_DATA {
                OdbcColumnItem::I32(Option::None)
            } else {
                OdbcColumnItem::I32(Option::Some(vals@[i]))
            }),
            RawColumnBuffer::NullableI64(vals, inds) => item == (if inds@[i] == NULL_DATA {
                OdbcColumnItem::I64(Option::None)
            } else {
                OdbcColumnItem::I64(Option::Some(vals@[i]))
            }),
            RawColumnBuffer::NullableU8(vals, inds) => item == (if inds@[i] == NULL_DATA {
                OdbcColumnItem::U8(Option::None)
            } else {
                OdbcColumnItem::U8(Option::Some(vals@[i]))
            }),
            RawColumnBuffer::NullableBit(vals, inds) => item == (if inds@[i] == NULL_DATA {
                OdbcColumnItem::Bit(Option::None)
            } else {
                OdbcColumnItem::Bit(Option::Some(vals@[i] != 0))
            }),
        }
    }

    /// Materializes the buffer into one typed, nullable cell value per row.
    ///
    /// Row order is preserved exactly: output index `i` holds input row `i`.
    /// In a nullable fixed-width buffer the cell at row `i` is the null
    /// variant exactly when the indicator at `i` is the [`NULL_DATA`]
    /// sentinel, and otherwise the present variant wrapping exactly the
    /// value array's `i`-th element. Fails exactly when a present wide-text
    /// row is ill-formed UTF-16, reporting the first such row; every other
    /// storage kind is total.
    pub fn convert(&self) -> (r: Result<Vec<OdbcColumnItem>, DecodeError>)
        requires
            self.wf(),
        ensures
            (match r {
                Result::Ok(items) => {
                    &&& !self.has_decode_failure()
                    &&& items@.len() == self.rows()
                    &&& (forall|i: int|
                        0 <= i < self.rows() ==> self.cell_matches(#[trigger] items@[i], i))
                },
                Result::Err(e) => {
                    &&& self.has_decode_failure()
                    &&& self.decode_failure_at(e.row as int)
                },
            }),
    {
        match self {
            RawColumnBuffer::Text(spans) => Ok(cells_text(spans)),
            RawColumnBuffer::WText(spans) => {
                match cells_wtext(spans) {
                    Ok(items) => {
                        proof {
                            assert forall|i: int| 0 <= i < spans@.len() implies ((
                            #[trigger] spans@[i]) matches Option::Some(u)
                                ==> utf16_well_formed(u@)) by {
                                assert(wtext_cell_ok(spans@[i], items@[i]));
                            }
                        }
                        Ok(items)
                    },
                    Err(e) => Err(e),
                }
            },
            RawColumnBuffer::Binary(spans) => Ok(cells_binary(spans)),
            RawColumnBuffer::Date(vals) => Ok(cells_date(vals)),
            RawColumnBuffer::Time(vals) => Ok(cells_time(vals)),
            RawColumnBuffer::Timestamp(vals) => Ok(cells_timestamp(vals)),
            RawColumnBuffer::F64(vals) => Ok(cells_f64(vals)),
            RawColumnBuffer::F32(vals) => Ok(cells_f32(vals)),
            RawColumnBuffer::I8(vals) => Ok(cells_i8(vals)),
            RawColumnBuffer::I16(vals) => Ok(cells_i16(vals)),
            RawColumnBuffer::I32(vals) => Ok(cells_i32(vals)),
            RawColumnBuffer::I64(vals) => Ok(cells_i64(vals)),
            RawColumnBuffer::U8(vals) => Ok(cells_u8(vals)),
            RawColumnBuffer::Bit(vals) => Ok(cells_bit(vals)),
            RawColumnBuffer::NullableDate(vals, inds) => Ok(cells_nullable_date(vals, inds)),
            RawColumnBuffer::NullableTime(vals, inds) => Ok(cells_nullable_time(vals, inds)),
            RawColumnBuffer::NullableTimestamp(vals, inds) => Ok(
                cells_nullable_timestamp(vals, inds),
            ),
            RawColumnBuffer::NullableF64(vals, inds) => Ok(cells_nullable_f64(vals, inds)),
            RawColumnBuffer::NullableF32(vals, inds) => Ok(cells_nullable_f32(vals, inds)),
            RawColumnBuffer::NullableI8(vals, inds) => Ok(cells_nullable_i8(vals, inds)),
            RawColumnBuffer::NullableI16(vals, inds) => Ok(cells_nullable_i16(vals, inds)),
            RawColumnBuffer::NullableI32(vals, inds) => Ok(cells_nullable_i32(vals, inds)),
            RawColumnBuffer::NullableI64(vals, inds) => Ok(cells_nullable_i64(vals, inds)),
            RawColumnBuffer::NullableU8(vals, inds) => Ok(cells_nullable_u8(vals, inds)),
            RawColumnBuffer::NullableBit(vals, inds) => Ok(cells_nullable_bit(vals, inds)),
        }
    }
}

/// Wide-text decode failure is owed: a buffer with a present row holding a
/// high surrogate that no low surrogate follows cannot materialize, so
/// [`RawColumnBuffer::convert`] reports a decode failure for it, never a
/// partial or substituted value.
pub proof fn lemma_unpaired_high_surrogate_is_fatal(b: RawColumnBuffer, row: int, i: int)
    requires
        b matches RawColumnBuffer::WText(spans) && 0 <= row < spans@.len() && (spans@[row] matches
        Option::Some(u) && 0 <= i < u@.len() && is_high_surrogate(u@[i]) && (i + 1 < u@.len()
            ==> !is_low_surrogate(u@[i + 1]))),
    ensures
        b.has_decode_failure(),
{
    match b {
        RawColumnBuffer::WText(spans) => {
            match spans@[row] {
                Option::Some(u) => {
                    crate::codec::lemma_unpaired_high_surrogate(u@, i);
                    assert(spans@[row] matches Option::Some(w) && !utf16_well_formed(w@));
                },
                Option::None => {},
            }
        },
        _ => {},
    }
}

/// Wide-text decode failure is owed: a buffer with a present row holding a
/// low surrogate that no high surrogate precedes cannot materialize, so
/// [`RawColumnBuffer::convert`] reports a decode failure for it, never a
/// partial or substituted value.
pub proof fn lemma_unpaired_low_surrogate_is_fatal(b: RawColumnBuffer, row: int, i: int)
    requires
        b matches RawColumnBuffer::WText(spans) && 0 <= row < spans@.len() && (spans@[row] matches
        Option::Some(u) && 0 <= i < u@.len() && is_low_surrogate(u@[i]) && (i >= 1
            ==> !is_high_surrogate(u@[i - 1]))),
    ensures
        b.has_decode_failure(),
{
    match b {
        RawColumnBuffer::WText(spans) => {
            match spans@[row] {
                Option::Some(u) => {
                    crate::codec::lemma_unpaired_low_surrogate(u@, i);
                    assert(spans@[row] matches Option::Some(w) && !utf16_well_formed(w@));
                },
                Option::None => {},
            }
        },
        _ => {},
    }
}

/// An exact copy of the bytes of one binary span.
fn copy_bytes(bytes: &Vec<u8>) -> (r: Vec<u8>)
    ensures
        r@ == bytes@,
{
    let n: usize = bytes.len();
    let mut out: Vec<u8> = Vec::new();
    let mut i: usize = 0;
    while i < n
        invariant
            i <= n,
            n == bytes@.len(),
            out@ == bytes@.take(i as int),
        decreases n - i,
    {
        out.push(bytes[i]);
        proof {
            assert(out@ =~= bytes@.take(i + 1));
        }
        i = i + 1;
    }
    proof {
        assert(out@ =~= bytes@);
    }
    out
}

/// Converts one narrow-text column: lossy UTF-8 decoding per present row.
fn cells_text(spans: &Vec<Option<Vec<u8>>>) -> (r: Vec<OdbcColumnItem>)
    ensures
        r@.len() == spans@.len(),
        forall|k: int| 0 <= k < spans@.len() ==> text_cell_ok(spans@[k], #[trigger] r@[k]),
{
    let n: usize = spans.len();
    let mut out: Vec<OdbcColumnItem> = Vec::new();
    let mut i: usize = 0;
    while i < n
        invariant
            i <= n,
            n == spans@.len(),
            out@.len() == i,
            forall|k: int| 0 <= k < i ==> text_cell_ok(spans@[k], #[trigger] out@[k]),
        decreases n - i,
    {
        match &spans[i] {
            Option::Some(bytes) => {
                let s = decode_narrow(bytes);
                out.push(OdbcColumnItem::Text(Some(s)));
            },
            Option::None => {
                out.push(OdbcColumnItem::Text(None));
            },
        }
        i = i + 1;
    }
    out
}

/// Converts one wide-text column: strict UTF-16 decoding per present row,
/// failing on the first ill-formed row.
fn cells_wtext(spans: &Vec<Option<Vec<u16>>>) -> (r: Result<Vec<OdbcColumnItem>, DecodeError>)
    ensures
        (match r {
            Result::Ok(items) => {
                &&& items@.len() == spans@.len()
                &&& (forall|k: int|
                    0 <= k < spans@.len() ==> wtext_cell_ok(spans@[k], #[trigger] items@[k]))
            },
            Result::Err(e) => {
                &&& 0 <= e.row < spans@.len()
                &&& spans@[e.row as int] matches Option::Some(u) && !utf16_well_formed(u@)
                &&& (forall|j: int|
                    0 <= j < e.row ==> ((#[trigger] spans@[j]) matches Option::Some(u)
                        ==> utf16_well_formed(u@)))
            },
        }),
{
    let n: usize = spans.len();
    let mut out: Vec<OdbcColumnItem> = Vec::new();
    let mut i: usize = 0;
    while i < n
        invariant
            i <= n,
            n == spans@.len(),
            out@.len() == i,
            forall|k: int| 0 <= k < i ==> wtext_cell_ok(spans@[k], #[trigger] out@[k]),
            forall|j: int|
                0 <= j < i ==> ((#[trigger] spans@[j]) matches Option::Some(u)
                    ==> utf16_well_formed(u@)),
        decreases n - i,
    {
        match &spans[i] {
            Option::Some(units) => {
                match decode_wide_string(units) {
                    Option::Some(s) => {
                        out.push(OdbcColumnItem::WText(Some(s)));
                    },
                    Option::None => {
                        return Err(DecodeError { row: i });
                    },
                }
            },
            Option::None => {
                out.push(OdbcColumnItem::WText(None));
            },
        }
        i = i + 1;
    }
    Ok(out)
}

/// Converts one binary column: an exact byte copy per present row.
fn cells_binary(spans: &Vec<Option<Vec<u8>>>) -> (r: Vec<OdbcColumnItem>)
    ensures
        r@.len() == spans@.len(),
        forall|k: int| 0 <= k < spans@.len() ==> binary_cell_ok(spans@[k], #[trigger] r@[k]),
{
    let n: usize = spans.len();
    let mut out: Vec<OdbcColumnItem> = Vec::new();
    let mut i: usize = 0;
    while i < n
        invariant
            i <= n,
            n == spans@.len(),
            out@.len() == i,
            forall|k: int| 0 <= k < i ==> binary_cell_ok(spans@[k], #[trigger] out@[k]),
        decreases n - i,
    {
        match &spans[i] {
            Option::Some(bytes) => {
                let copied = copy_bytes(bytes);
                out.push(OdbcColumnItem::Binary(Some(copied)));
            },
            Option::None => {
                out.push(OdbcColumnItem::Binary(None));
            },
        }
        i = i + 1;
    }
    out
}


/// Converts one non-nullable fixed-width column: every row is present by
/// construction.
fn cells_date(vals: &Vec<OdbcDate>) -> (r: Vec<OdbcColumnItem>)
    ensures
        r@.len() == vals@.len(),
        forall|k: int|
            0 <= k < vals@.len() ==> #[trigger] r@[k] == OdbcColumnItem::Date(
                Option::Some(vals@[k]),
            ),
{
    let n: usize = vals.len();
    let mut out: Vec<OdbcColumnItem> = Vec::new();
    let mut i: usize = 0;
    while i < n
        invariant
            i <= n,
            n == vals@.len(),
            out@.len() == i,
            forall|k: int|
                0 <= k < i ==> #[trigger] out@[k] == OdbcColumnItem::Date(
                    Option::Some(vals@[k]),
                ),
        decreases n - i,
    {
        out.push(OdbcColumnItem::Date(Some(vals[i])));
        i = i + 1;
    }
    out
}

/// Converts one nullable fixed-width column: the indicator at each row picks
/// the null variant (sentinel) or wraps the value array's element.
fn cells_nullable_date(vals: &Vec<OdbcDate>, inds: &Vec<isize>) -> (r: Vec<OdbcColumnItem>)
    requires
        vals@.len() == inds@.len(),
    ensures
        r@.len() == vals@.len(),
        forall|k: int|
            0 <= k < vals@.len() ==> #[trigger] r@[k] == (if inds@[k] == NULL_DATA {
                OdbcColumnItem::Date(Option::None)
            } else {
                OdbcColumnItem::Date(Option::Some(vals@[k]))
            }),
{
    let n: usize = vals.len();
    let mut out: Vec<OdbcColumnItem> = Vec::new();
    let mut i: usize = 0;
    while i < n
        invariant
            i <= n,
            n == vals@.len(),
            n == inds@.len(),
            out@.len() == i,
            forall|k: int|
                0 <= k < i ==> #[trigger] out@[k] == (if inds@[k] == NULL_DATA {
                    OdbcColumnItem::Date(Option::None)
                } else {
                    OdbcColumnItem::Date(Option::Some(vals@[k]))
                }),
        decreases n - i,
    {
        if inds[i] != NULL_DATA {
            out.push(OdbcColumnItem::Date(Some(vals[i])));
        } else {
            out.push(OdbcColumnItem::Date(None));
        }
        i = i + 1;
    }
    out
}

/// Converts one non-nullable fixed-width column: every row is present by
/// construction.
fn cells_time(vals: &Vec<OdbcTime>) -> (r: Vec<OdbcColumnItem>)
    ensures
        r@.len() == vals@.len(),
        forall|k: int|
            0 <= k < vals@.len() ==> #[trigger] r@[k] == OdbcColumnItem::Time(
                Option::Some(vals@[k]),
            ),
{
    let n: usize = vals.len();
    let mut out: Vec<OdbcColumnItem> = Vec::new();
    let mut i: usize = 0;
    while i < n
        invariant
            i <= n,
            n == vals@.len(),
            out@.len() == i,
            forall|k: int|
                0 <= k < i ==> #[trigger] out@[k] == OdbcColumnItem::Time(
                    Option::Some(vals@[k]),
                ),
        decreases n - i,
    {
        out.push(OdbcColumnItem::Time(Some(vals[i])));
        i = i + 1;
    }
    out
}

/// Converts one nullable fixed-width column: the indicator at each row picks
/// the null variant (sentinel) or wraps the value array's element.
fn cells_nullable_time(vals: &Vec<OdbcTime>, inds: &Vec<isize>) -> (r: Vec<OdbcColumnItem>)
    requires
        vals@.len() == inds@.len(),
    ensures
        r@.len() == vals@.len(),
        forall|k: int|
            0 <= k < vals@.len() ==> #[trigger] r@[k] == (if inds@[k] == NULL_DATA {
                OdbcColumnItem::Time(Option::None)
            } else {
                OdbcColumnItem::Time(Option::Some(vals@[k]))
            }),
{
    let n: usize = vals.len();
    let mut out: Vec<OdbcColumnItem> = Vec::new();
    let mut i: usize = 0;
    while i < n
        invariant
            i <= n,
            n == vals@.len(),
            n == inds@.len(),
            out@.len() == i,
            forall|k: int|
                0 <= k < i ==> #[trigger] out@[k] == (if inds@[k] == NULL_DATA {
                    OdbcColumnItem::Time(Option::None)
                } else {
                    OdbcColumnItem::Time(Option::Some(vals@[k]))
                }),
        decreases n - i,
    {
        if inds[i] != NULL_DATA {
            out.push(OdbcColumnItem::Time(Some(vals[i])));
        } else {
            out.push(OdbcColumnItem::Time(None));
        }
        i = i + 1;
    }
    out
}

/// Converts one non-nullable fixed-width column: every row is present by
/// construction.
fn cells_timestamp(vals: &Vec<OdbcTimestamp>) -> (r: Vec<OdbcColumnItem>)
    ensures
        r@.len() == vals@.len(),
        forall|k: int|
            0 <= k < vals@.len() ==> #[trigger] r@[k] == OdbcColumnItem::Timestamp(
                Option::Some(vals@[k]),
            ),
{
    let n: usize = vals.len();
    let mut out: Vec<OdbcColumnItem> = Vec::new();
    let mut i: usize = 0;
    while i < n
        invariant
            i <= n,
            n == vals@.len(),
            out@.len() == i,
            forall|k: int|
                0 <= k < i ==> #[trigger] out@[k] == OdbcColumnItem::Timestamp(
                    Option::Some(vals@[k]),
                ),
        decreases n - i,
    {
        out.push(OdbcColumnItem::Timestamp(Some(vals[i])));
        i = i + 1;
    }
    out
}

/// Converts one nullable fixed-width column: the indicator at each row picks
/// the null variant (sentinel) or wraps the value array's element.
fn cells_nullable_timestamp(vals: &Vec<OdbcTimestamp>, inds: &Vec<isize>) -> (r: Vec<OdbcColumnItem>)
    requires
        vals@.len() == inds@.len(),
    ensures
        r@.len() == vals@.len(),
        forall|k: int|
            0 <= k < vals@.len() ==> #[trigger] r@[k] == (if inds@[k] == NULL_DATA {
                OdbcColumnItem::Timestamp(Option::None)
            } else {
                OdbcColumnItem::Timestamp(Option::Some(vals@[k]))
            }),
{
    let n: usize = vals.len();
    let mut out: Vec<OdbcColumnItem> = Vec::new();
    let mut i: usize = 0;
    while i < n
        invariant
            i <= n,
            n == vals@.len(),
            n == inds@.len(),
            out@.len() == i,
            forall|k: int|
                0 <= k < i ==> #[trigger] out@[k] == (if inds@[k] == NULL_DATA {
                    OdbcColumnItem::Timestamp(Option::None)
                } else {
                    OdbcColumnItem::Timestamp(Option::Some(vals@[k]))
                }),
        decreases n - i,
    {
        if inds[i] != NULL_DATA {
            out.push(OdbcColumnItem::Timestamp(Some(vals[i])));
        } else {
            out.push(OdbcColumnItem::Timestamp(None));
        }
        i = i + 1;
    }
    out
}

/// Converts one non-nullable fixed-width column: every row is present by
/// construction.
fn cells_f64(vals: &Vec<u64>) -> (r: Vec<OdbcColumnItem>)
    ensures
        r@.len() == vals@.len(),
        forall|k: int|
            0 <= k < vals@.len() ==> #[trigger] r@[k] == OdbcColumnItem::F64(
                Option::Some(vals@[k]),
            ),
{
    let n: usize = vals.len();
    let mut out: Vec<OdbcColumnItem> = Vec::new();
    let mut i: usize = 0;
    while i < n
        invariant
            i <= n,
            n == vals@.len(),
            out@.len() == i,
            forall|k: int|
                0 <= k < i ==> #[trigger] out@[k] == OdbcColumnItem::F64(
                    Option::Some(vals@[k]),
                ),
        decreases n - i,
    {
        out.push(OdbcColumnItem::F64(Some(vals[i])));
        i = i + 1;
    }
    out
}

/// Converts one nullable fixed-width column: the indicator at each row picks
/// the null variant (sentinel) or wraps the value array's element.
fn cells_nullable_f64(vals: &Vec<u64>, inds: &Vec<isize>) -> (r: Vec<OdbcColumnItem>)
    requires
        vals@.len() == inds@.len(),
    ensures
        r@.len() == vals@.len(),
        forall|k: int|
            0 <= k < vals@.len() ==> #[trigger] r@[k] == (if inds@[k] == NULL_DATA {
                OdbcColumnItem::F64(Option::None)
            } else {
                OdbcColumnItem::F64(Option::Some(vals@[k]))
            }),
{
    let n: usize = vals.len();
    let mut out: Vec<OdbcColumnItem> = Vec::new();
    let mut i: usize = 0;
    while i < n
        invariant
            i <= n,
            n == vals@.len(),
            n == inds@.len(),
            out@.len() == i,
            forall|k: int|
                0 <= k < i ==> #[trigger] out@[k] == (if inds@[k] == NULL_DATA {
                    OdbcColumnItem::F64(Option::None)
                } else {
                    OdbcColumnItem::F64(Option::Some(vals@[k]))
                }),
        decreases n - i,
    {
        if inds[i] != NULL_DATA {
            out.push(OdbcColumnItem::F64(Some(vals[i])));
        } else {
            out.push(OdbcColumnItem::F64(None));
        }
        i = i + 1;
    }
    out
}

/// Converts one non-nullable fixed-width column: every row is present by
/// construction.
fn cells_f32(vals: &Vec<u32>) -> (r: Vec<OdbcColumnItem>)
    ensures
        r@.len() == vals@.len(),
        forall|k: int|
            0 <= k < vals@.len() ==> #[trigger] r@[k] == OdbcColumnItem::F32(
                Option::Some(vals@[k]),
            ),
{
    let n: usize = vals.len();
    let mut out: Vec<OdbcColumnItem> = Vec::new();
    let mut i: usize = 0;
    while i < n
        invariant
            i <= n,
            n == vals@.len(),
            out@.len() == i,
            forall|k: int|
                0 <= k < i ==> #[trigger] out@[k] == OdbcColumnItem::F32(
                    Option::Some(vals@[k]),
                ),
        decreases n - i,
    {
        out.push(OdbcColumnItem::F32(Some(vals[i])));
        i = i + 1;
    }
    out
}

/// Converts one nullable fixed-width column: the indicator at each row picks
/// the null variant (sentinel) or wraps the value array's element.
fn cells_nullable_f32(vals: &Vec<u32>, inds: &Vec<isize>) -> (r: Vec<OdbcColumnItem>)
    requires
        vals@.len() == inds@.len(),
    ensures
        r@.len() == vals@.len(),
        forall|k: int|
            0 <= k < vals@.len() ==> #[trigger] r@[k] == (if inds@[k] == NULL_DATA {
                OdbcColumnItem::F32(Option::None)
            } else {
                OdbcColumnItem::F32(Option::Some(vals@[k]))
            }),
{
    let n: usize = vals.len();
    let mut out: Vec<OdbcColumnItem> = Vec::new();
    let mut i: usize = 0;
    while i < n
        invariant
            i <= n,
            n == vals@.len(),
            n == inds@.len(),
            out@.len() == i,
            forall|k: int|
                0 <= k < i ==> #[trigger] out@[k] == (if inds@[k] == NULL_DATA {
                    OdbcColumnItem::F32(Option::None)
                } else {
                    OdbcColumnItem::F32(Option::Some(vals@[k]))
                }),
        decreases n - i,
    {
        if inds[i] != NULL_DATA {
            out.push(OdbcColumnItem::F32(Some(vals[i])));
        } else {
            out.push(OdbcColumnItem::F32(None));
        }
        i = i + 1;
    }
    out
}

/// Converts one non-nullable fixed-width column: every row is present by
/// construction.
fn cells_i8(vals: &Vec<i8>) -> (r: Vec<OdbcColumnItem>)
    ensures
        r@.len() == vals@.len(),
        forall|k: int|
            0 <= k < vals@.len() ==> #[trigger] r@[k] == OdbcColumnItem::I8(
                Option::Some(vals@[k]),
            ),
{
    let n: usize = vals.len();
    let mut out: Vec<OdbcColumnItem> = Vec::new();
    let mut i: usize = 0;
    while i < n
        invariant
            i <= n,
            n == vals@.len(),
            out@.len() == i,
            forall|k: int|
                0 <= k < i ==> #[trigger] out@[k] == OdbcColumnItem::I8(
                    Option::Some(vals@[k]),
                ),
        decreases n - i,
    {
        out.push(OdbcColumnItem::I8(Some(vals[i])));
        i = i + 1;
    }
    out
}

/// Converts one nullable fixed-width column: the indicator at each row picks
/// the null variant (sentinel) or wraps the value array's element.
fn cells_nullable_i8(vals: &Vec<i8>, inds: &Vec<isize>) -> (r: Vec<OdbcColumnItem>)
    requires
        vals@.len() == inds@.len(),
    ensures
        r@.len() == vals@.len(),
        forall|k: int|
            0 <= k < vals@.len() ==> #[trigger] r@[k] == (if inds@[k] == NULL_DATA {
                OdbcColumnItem::I8(Option::None)
            } else {
                OdbcColumnItem::I8(Option::Some(vals@[k]))
            }),
{
    let n: usize = vals.len();
    let mut out: Vec<OdbcColumnItem> = Vec::new();
    let mut i: usize = 0;
    while i < n
        invariant
            i <= n,
            n == vals@.len(),
            n == inds@.len(),
            out@.len() == i,
            forall|k: int|
                0 <= k < i ==> #[trigger] out@[k] == (if inds@[k] == NULL_DATA {
                    OdbcColumnItem::I8(Option::None)
                } else {
                    OdbcColumnItem::I8(Option::Some(vals@[k]))
                }),
        decreases n - i,
    {
        if inds[i] != NULL_DATA {
            out.push(OdbcColumnItem::I8(Some(vals[i])));
        } else {
            out.push(OdbcColumnItem::I8(None));
        }
        i = i + 1;
    }
    out
}

/// Converts one non-nullable fixed-width column: every row is present by
/// construction.
fn cells_i16(vals: &Vec<i16>) -> (r: Vec<OdbcColumnItem>)
    ensures
        r@.len() == vals@.len(),
        forall|k: int|
            0 <= k < vals@.len() ==> #[trigger] r@[k] == OdbcColumnItem::I16(
                Option::Some(vals@[k]),
            ),
{
    let n: usize = vals.len();
    let mut out: Vec<OdbcColumnItem> = Vec::new();
    let mut i: usize = 0;
    while i < n
        invariant
            i <= n,
            n == vals@.len(),
            out@.len() == i,
            forall|k: int|
                0 <= k < i ==> #[trigger] out@[k] == OdbcColumnItem::I16(
                    Option::Some(vals@[k]),
                ),
        decreases n - i,
    {
        out.push(OdbcColumnItem::I16(Some(vals[i])));
        i = i + 1;
    }
    out
}

/// Converts one nullable fixed-width column: the indicator at each row picks
/// the null variant (sentinel) or wraps the value array's element.
fn cells_nullable_i16(vals: &Vec<i16>, inds: &Vec<isize>) -> (r: Vec<OdbcColumnItem>)
    requires
        vals@.len() == inds@.len(),
    ensures
        r@.len() == vals@.len(),
        forall|k: int|
            0 <= k < vals@.len() ==> #[trigger] r@[k] == (if inds@[k] == NULL_DATA {
                OdbcColumnItem::I16(Option::None)
            } else {
                OdbcColumnItem::I16(Option::Some(vals@[k]))
            }),
{
    let n: usize = vals.len();
    let mut out: Vec<OdbcColumnItem> = Vec::new();
    let mut i: usize = 0;
    while i < n
        invariant
            i <= n,
            n == vals@.len(),
            n == inds@.len(),
            out@.len() == i,
            forall|k: int|
                0 <= k < i ==> #[trigger] out@[k] == (if inds@[k] == NULL_DATA {
                    OdbcColumnItem::I16(Option::None)
                } else {
                    OdbcColumnItem::I16(Option::Some(vals@[k]))
                }),
        decreases n - i,
    {
        if inds[i] != NULL_DATA {
            out.push(OdbcColumnItem::I16(Some(vals[i])));
        } else {
            out.push(OdbcColumnItem::I16(None));
        }
        i = i + 1;
    }
    out
}

/// Converts one non-nullable fixed-width column: every row is present by
/// construction.
fn cells_i32(vals: &Vec<i32>) -> (r: Vec<OdbcColumnItem>)
    ensures
        r@.len() == vals@.len(),
        forall|k: int|
            0 <= k < vals@.len() ==> #[trigger] r@[k] == OdbcColumnItem::I32(
                Option::Some(vals@[k]),
            ),
{
    let n: usize = vals.len();
    let mut out: Vec<OdbcColumnItem> = Vec::new();
    let mut i: usize = 0;
    while i < n
        invariant
            i <= n,
            n == vals@.len(),
            out@.len() == i,
            forall|k: int|
                0 <= k < i ==> #[trigger] out@[k] == OdbcColumnItem::I32(
                    Option::Some(vals@[k]),
                ),
        decreases n - i,
    {
        out.push(OdbcColumnItem::I32(Some(vals[i])));
        i = i + 1;
    }
    out
}

/// Converts one nullable fixed-width column: the indicator at each row picks
/// the null variant (sentinel) or wraps the value array's element.
fn cells_nullable_i32(vals: &Vec<i32>, inds: &Vec<isize>) -> (r: Vec<OdbcColumnItem>)
    requires
        vals@.len() == inds@.len(),
    ensures
        r@.len() == vals@.len(),
        forall|k: int|
            0 <= k < vals@.len() ==> #[trigger] r@[k] == (if inds@[k] == NULL_DATA {
                OdbcColumnItem::I32(Option::None)
            } else {
                OdbcColumnItem::I32(Option::Some(vals@[k]))
            }),
{
    let n: usize = vals.len();
    let mut out: Vec<OdbcColumnItem> = Vec::new();
    let mut i: usize = 0;
    while i < n
        invariant
            i <= n,
            n == vals@.len(),
            n == inds@.len(),
            out@.len() == i,
            forall|k: int|
                0 <= k < i ==> #[trigger] out@[k] == (if inds@[k] == NULL_DATA {
                    OdbcColumnItem::I32(Option::None)
                } else {
                    OdbcColumnItem::I32(Option::Some(vals@[k]))
                }),
        decreases n - i,
    {
        if inds[i] != NULL_DATA {
            out.push(OdbcColumnItem::I32(Some(vals[i])));
        } else {
            out.push(OdbcColumnItem::I32(None));
        }
        i = i + 1;
    }
    out
}

/// Converts one non-nullable fixed-width column: every row is present by
/// construction.
fn cells_i64(vals: &Vec<i64>) -> (r: Vec<OdbcColumnItem>)
    ensures
        r@.len() == vals@.len(),
        forall|k: int|
            0 <= k < vals@.len() ==> #[trigger] r@[k] == OdbcColumnItem::I64(
                Option::Some(vals@[k]),
            ),
{
    let n: usize = vals.len();
    let mut out: Vec<OdbcColumnItem> = Vec::new();
    let mut i: usize = 0;
    while i < n
        invariant
            i <= n,
            n == vals@.len(),
            out@.len() == i,
            forall|k: int|
                0 <= k < i ==> #[trigger] out@[k] == OdbcColumnItem::I64(
                    Option::Some(vals@[k]),
                ),
        decreases n - i,
    {
        out.push(OdbcColumnItem::I64(Some(vals[i])));
        i = i + 1;
    }
    out
}

/// Converts one nullable fixed-width column: the indicator at each row picks
/// the null variant (sentinel) or wraps the value array's element.
fn cells_nullable_i64(vals: &Vec<i64>, inds: &Vec<isize>) -> (r: Vec<OdbcColumnItem>)
    requires
        vals@.len() == inds@.len(),
    ensures
        r@.len() == vals@.len(),
        forall|k: int|
            0 <= k < vals@.len() ==> #[trigger] r@[k] == (if inds@[k] == NULL_DATA {
                OdbcColumnItem::I64(Option::None)
            } else {
                OdbcColumnItem::I64(Option::Some(vals@[k]))
            }),
{
    let n: usize = vals.len();
    let mut out: Vec<OdbcColumnItem> = Vec::new();
    let mut i: usize = 0;
    while i < n
        invariant
            i <= n,
            n == vals@.len(),
            n == inds@.len(),
            out@.len() == i,
            forall|k: int|
                0 <= k < i ==> #[trigger] out@[k] == (if inds@[k] == NULL_DATA {
                    OdbcColumnItem::I64(Option::None)
                } else {
                    OdbcColumnItem::I64(Option::Some(vals@[k]))
                }),
        decreases n - i,
    {
        if inds[i] != NULL_DATA {
            out.push(OdbcColumnItem::I64(Some(vals[i])));
        } else {
            out.push(OdbcColumnItem::I64(None));
        }
        i = i + 1;
    }
    out
}

/// Converts one non-nullable fixed-width column: every row is present by
/// construction.
fn cells_u8(vals: &Vec<u8>) -> (r: Vec<OdbcColumnItem>)
    ensures
        r@.len() == vals@.len(),
        forall|k: int|
            0 <= k < vals@.len() ==> #[trigger] r@[k] == OdbcColumnItem::U8(
                Option::Some(vals@[k]),
            ),
{
    let n: usize = vals.len();
    let mut out: Vec<OdbcColumnItem> = Vec::new();
    let mut i: usize = 0;
    while i < n
        invariant
            i <= n,
            n == vals@.len(),
            out@.len() == i,
            forall|k: int|
                0 <= k < i ==> #[trigger] out@[k] == OdbcColumnItem::U8(
                    Option::Some(vals@[k]),
                ),
        decreases n - i,
    {
        out.push(OdbcColumnItem::U8(Some(vals[i])));
        i = i + 1;
    }
    out
}

/// Converts one nullable fixed-width column: the indicator at each row picks
/// the null variant (sentinel) or wraps the value array's element.
fn cells_nullable_u8(vals: &Vec<u8>, inds: &Vec<isize>) -> (r: Vec<OdbcColumnItem>)
    requires
        vals@.len() == inds@.len(),
    ensures
        r@.len() == vals@.len(),
        forall|k: int|
            0 <= k < vals@.len() ==> #[trigger] r@[k] == (if inds@[k] == NULL_DATA {
                OdbcColumnItem::U8(Option::None)
            } else {
                OdbcColumnItem::U8(Option::Some(vals@[k]))
            }),
{
    let n: usize = vals.len();
    let mut out: Vec<OdbcColumnItem> = Vec::new();
    let mut i: usize = 0;
    while i < n
        invariant
            i <= n,
            n == vals@.len(),
            n == inds@.len(),
            out@.len() == i,
            forall|k: int|
                0 <= k < i ==> #[trigger] out@[k] == (if inds@[k] == NULL_DATA {
                    OdbcColumnItem::U8(Option::None)
                } else {
                    OdbcColumnItem::U8(Option::Some(vals@[k]))
                }),
        decreases n - i,
    {
        if inds[i] != NULL_DATA {
            out.push(OdbcColumnItem::U8(Some(vals[i])));
        } else {
            out.push(OdbcColumnItem::U8(None));
        }
        i = i + 1;
    }
    out
}

/// Converts one non-nullable fixed-width column: every row is present by
/// construction.
fn cells_bit(vals: &Vec<u8>) -> (r: Vec<OdbcColumnItem>)
    ensures
        r@.len() == vals@.len(),
        forall|k: int|
            0 <= k < vals@.len() ==> #[trigger] r@[k] == OdbcColumnItem::Bit(
                Option::Some(vals@[k] != 0),
            ),
{
    let n: usize = vals.len();
    let mut out: Vec<OdbcColumnItem> = Vec::new();
    let mut i: usize = 0;
    while i < n
        invariant
            i <= n,
            n == vals@.len(),
            out@.len() == i,
            forall|k: int|
                0 <= k < i ==> #[trigger] out@[k] == OdbcColumnItem::Bit(
                    Option::Some(vals@[k] != 0),
                ),
        decreases n - i,
    {
        out.push(OdbcColumnItem::Bit(Some(vals[i] != 0)));
        i = i + 1;
    }
    out
}

/// Converts one nullable fixed-width column: the indicator at each row picks
/// the null variant (sentinel) or wraps the value array's element.
fn cells_nullable_bit(vals: &Vec<u8>, inds: &Vec<isize>) -> (r: Vec<OdbcColumnItem>)
    requires
        vals@.len() == inds@.len(),
    ensures
        r@.len() == vals@.len(),
        forall|k: int|
            0 <= k < vals@.len() ==> #[trigger] r@[k] == (if inds@[k] == NULL_DATA {
                OdbcColumnItem::Bit(Option::None)
            } else {
                OdbcColumnItem::Bit(Option::Some(vals@[k] != 0))
            }),
{
    let n: usize = vals.len();
    let mut out: Vec<OdbcColumnItem> = Vec::new();
    let mut i: usize = 0;
    while i < n
        invariant
            i <= n,
            n == vals@.len(),
            n == inds@.len(),
            out@.len() == i,
            forall|k: int|
                0 <= k < i ==> #[trigger] out@[k] == (if inds@[k] == NULL_DATA {
                    OdbcColumnItem::Bit(Option::None)
                } else {
                    OdbcColumnItem::Bit(Option::Some(vals@[k] != 0))
                }),
        decreases n - i,
    {
        if inds[i] != NULL_DATA {
            out.push(OdbcColumnItem::Bit(Some(vals[i] != 0)));
        } else {
            out.push(OdbcColumnItem::Bit(None));
        }
        i = i + 1;
    }
    out
}

} // verus!
