//! Human-readable byte sizes: a raw byte count is shown in kilobytes,
//! megabytes or gigabytes, with two decimals, under a pluggable unit strategy.
//!
//! Rendering works on integers alone: the quotient `size / divisor` is
//! rounded to hundredths (ties to even) and written out in decimal.

pub mod formatter;
pub mod text;
pub mod unit;

pub use formatter::{ByteSizeFormatter, FmtSize};
pub use unit::{Conventional, Decimal, Format};
