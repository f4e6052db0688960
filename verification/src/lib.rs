//! Attribute rendering for directory listings.
//!
//! The crate turns the attributes of filesystem entries (size, permission
//! bits, timestamps, name) into aligned text. It reads no directory and writes
//! to no stream: callers hand it plain values and get lines of text back.
//!
//! - [`size`]: byte counts in binary and decimal units, approximate and exact.
//! - [`path`]: permissions, timestamps, entries, and the rows of a listing.
//! - [`style`]: colours and emphasis, and what a terminal shows of styled text.
//! - [`text`]: decimal numerals and padding.
//! - [`cmd`]: the switches of the command line.

use vstd::prelude::*;

pub mod cmd;
pub mod path;
pub mod size;
pub mod style;
pub mod text;

verus! {

/// The marker that stands in for a size of zero, and for the size of a directory.
pub const ZERO_SIZE: &'static str = "-";

} // verus!
