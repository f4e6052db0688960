//! The two unit systems.

use super::ByteUnit;
use vstd::prelude::*;

verus! {

/// A count of bytes.
pub type BYTE = u64;

/// The width of the size column, in characters.
pub const MAX_SIZE_LEN: usize = 7;

/// The units of both systems, in bytes.
pub const B: BYTE = 1;

pub const KB: BYTE = 1_000;

pub const MB: BYTE = 1_000_000;

pub const GB: BYTE = 1_000_000_000;

pub const TB: BYTE = 1_000_000_000_000;

pub const PB: BYTE = 1_000_000_000_000_000;

pub const KIB: BYTE = 1_024;

pub const MIB: BYTE = 1_048_576;

pub const GIB: BYTE = 1_073_741_824;

pub const TIB: BYTE = 1_099_511_627_776;

pub const PIB: BYTE = 1_125_899_906_842_624;

/// The binary units, smallest first: each is 1024 times the one before.
pub open spec fn binary_units() -> Seq<ByteUnit<'static>> {
    seq![
        ByteUnit { size: B, name: "B" },
        ByteUnit { size: KIB, name: "KiB" },
        ByteUnit { size: MIB, name: "MiB" },
        ByteUnit { size: GIB, name: "GiB" },
        ByteUnit { size: TIB, name: "TiB" },
        ByteUnit { size: PIB, name: "PiB" },
    ]
}

/// The decimal units, smallest first: each is 1000 times the one before.
pub open spec fn decimal_units() -> Seq<ByteUnit<'static>> {
    seq![
        ByteUnit { size: B, name: "B" },
        ByteUnit { size: KB, name: "KB" },
        ByteUnit { size: MB, name: "MB" },
        ByteUnit { size: GB, name: "GB" },
        ByteUnit { size: TB, name: "TB" },
        ByteUnit { size: PB, name: "PB" },
    ]
}

/// The table of binary units.
pub fn units() -> (table: [ByteUnit<'static>; 6])
    ensures
        table@ == binary_units(),
{
    let table = [
        ByteUnit::from_tuple((B, "B")),
        ByteUnit::from_tuple((KIB, "KiB")),
        ByteUnit::from_tuple((MIB, "MiB")),
        ByteUnit::from_tuple((GIB, "GiB")),
        ByteUnit::from_tuple((TIB, "TiB")),
        ByteUnit::from_tuple((PIB, "PiB")),
    ];
    assert(table@ =~= binary_units());
    table
}

/// The table of decimal units.
pub fn units_si() -> (table: [ByteUnit<'static>; 6])
    ensures
        table@ == decimal_units(),
{
    let table = [
        ByteUnit::from_tuple((B, "B")),
        ByteUnit::from_tuple((KB, "KB")),
        ByteUnit::from_tuple((MB, "MB")),
        ByteUnit::from_tuple((GB, "GB")),
        ByteUnit::from_tuple((TB, "TB")),
        ByteUnit::from_tuple((PB, "PB")),
    ];
    assert(table@ =~= decimal_units());
    table
}

} // verus!
