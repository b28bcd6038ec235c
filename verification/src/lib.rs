//! A compatibility layer between an ODBC driver's raw, type-tagged column
//! buffers and a safe, strongly typed, nullable columnar representation.
//!
//! Three independent parts share one value model:
//! - the column metadata resolver ([`column`]), which maps a driver-reported
//!   SQL type to the physical buffer layout used to receive that column;
//! - the buffer materializer ([`buffer`]), which turns a filled raw column
//!   buffer into one typed, nullable cell value per row;
//! - the calendar converters ([`calendar`]), which turn the driver's plain
//!   date / time / timestamp structs into the `time` crate's validated values.

pub mod buffer;
pub mod calendar;
pub mod codec;
pub mod column;
pub mod sys;
