//! What holds of the renderings for every byte count.

use super::{
    approximate_numeral, approximate_text, binary_units, decimal_units, exact_parts, fitting_unit,
    lemma_exact_parts_descend, lemma_exact_parts_total, lemma_exact_rest_zero, lemma_fitting_unit,
    parts_total, positive_units, single_unit_text, well_formed_units, ByteUnit, BYTE,
};
use crate::style::plain;
use crate::text::{decimal, pad_right};
use crate::ZERO_SIZE;
use vstd::prelude::*;
use vstd::string::*;

verus! {

/// Both unit systems are well-formed tables: they start at one byte and grow strictly.
pub proof fn lemma_unit_systems_well_formed()
    ensures
        well_formed_units(binary_units()),
        well_formed_units(decimal_units()),
        binary_units().len() == 6,
        decimal_units().len() == 6,
{
}

/// In a well-formed table every unit stands for at least one byte.
pub proof fn lemma_well_formed_is_positive(units: Seq<ByteUnit<'_>>)
    requires
        well_formed_units(units),
    ensures
        positive_units(units),
{
    assert forall|i: int| 0 <= i < units.len() implies (#[trigger] units[i]).size > 0 by {
        if i > 0 {
            assert(units[0].size < units[i].size);
        }
    }
}

/// A count below 1024 renders in binary units as its own numeral followed
/// by `B`; zero renders as the zero marker.
pub proof fn lemma_small_sizes_render_in_bytes(bytes: BYTE)
    requires
        bytes < 1024,
    ensures
        bytes > 0 ==> single_unit_text(bytes as nat, binary_units()) == decimal(bytes as nat)
            + "B"@,
        bytes == 0 ==> single_unit_text(bytes as nat, binary_units()) == ZERO_SIZE@,
{
    reveal_with_fuel(fitting_unit, 7);
    let units = binary_units();
    if bytes > 0 {
        assert(fitting_unit(units, bytes as nat, 6) == Some(0int));
        assert(units[0].size == 1);
        assert((bytes as nat) / 1 == bytes as nat);
    } else {
        assert(fitting_unit(units, bytes as nat, 6) is None);
    }
}

/// The unit that a single-unit rendering selects is never larger than the
/// byte count, and every unit after it in the table is.
pub proof fn lemma_selected_unit_fits(units: Seq<ByteUnit<'_>>, bytes: BYTE)
    ensures
        match fitting_unit(units, bytes as nat, units.len() as int) {
            Some(i) => 0 <= i < units.len() && units[i].size <= bytes && forall|j: int|
                i < j < units.len() ==> (#[trigger] units[j]).size > bytes,
            None => forall|j: int| 0 <= j < units.len() ==> (#[trigger] units[j]).size > bytes,
        },
{
    lemma_fitting_unit(units, bytes as nat, units.len() as int);
}

/// Over a well-formed table, a single-unit rendering shows the zero marker for zero bytes and for nothing else.
pub proof fn lemma_zero_marker_only_for_zero(units: Seq<ByteUnit<'_>>, bytes: BYTE)
    requires
        well_formed_units(units),
    ensures
        fitting_unit(units, bytes as nat, units.len() as int) is None <==> bytes == 0,
{
    lemma_fitting_unit(units, bytes as nat, units.len() as int);
    lemma_well_formed_is_positive(units);
    if bytes == 0 {
        if fitting_unit(units, bytes as nat, units.len() as int) is Some {
            let i = fitting_unit(units, bytes as nat, units.len() as int).unwrap();
            assert(units[i].size > 0);
        }
    } else {
        assert(units[0].size <= bytes);
    }
}

/// The exact decomposition loses nothing: over a well-formed table, the
/// counts of its parts times the sizes of their units add up to the byte count.
pub proof fn lemma_decomposition_is_exact(units: Seq<ByteUnit<'_>>, bytes: BYTE)
    requires
        well_formed_units(units),
        units.len() <= usize::MAX,
    ensures
        parts_total(units, exact_parts(units, bytes, units.len())) == bytes,
{
    lemma_well_formed_is_positive(units);
    lemma_exact_parts_total(units, bytes, units.len());
    lemma_exact_rest_zero(units, bytes, units.len());
}

/// The exact decomposition loses nothing in either unit system.
pub proof fn lemma_decomposition_is_exact_in_both_systems(bytes: BYTE)
    ensures
        parts_total(binary_units(), exact_parts(binary_units(), bytes, 6)) == bytes,
        parts_total(decimal_units(), exact_parts(decimal_units(), bytes, 6)) == bytes,
{
    lemma_unit_systems_well_formed();
    lemma_decomposition_is_exact(binary_units(), bytes);
    lemma_decomposition_is_exact(decimal_units(), bytes);
}

/// The exact decomposition over a well-formed table lists its units from
/// large to small, each strictly smaller than the one before, and lists no
/// unit with a count of zero.
pub proof fn lemma_decomposition_descends(units: Seq<ByteUnit<'_>>, bytes: BYTE)
    requires
        well_formed_units(units),
        units.len() <= usize::MAX,
    ensures
        ({
            let parts = exact_parts(units, bytes, units.len());
            &&& forall|k: int|
                0 <= k < parts.len() ==> (#[trigger] parts[k]).count > 0 && parts[k].unit
                    < units.len()
            &&& forall|k: int, l: int|
                0 <= k < l < parts.len() ==> units[(#[trigger] parts[k]).unit as int].size
                    > units[(#[trigger] parts[l]).unit as int].size
        }),
{
    lemma_well_formed_is_positive(units);
    lemma_exact_parts_descend(units, bytes, units.len());
    let parts = exact_parts(units, bytes, units.len());
    assert forall|k: int, l: int| 0 <= k < l < parts.len() implies units[(#[trigger] parts[k]).unit as int].size
        > units[(#[trigger] parts[l]).unit as int].size by {
        assert(parts[k].unit > parts[l].unit);
        assert(parts[k].unit < units.len());
    }
}

/// A decimal numeral holds digits only.
pub proof fn lemma_decimal_is_plain(n: nat)
    ensures
        plain(decimal(n)),
    decreases n,
{
    if n >= 10 {
        lemma_decimal_is_plain(n / 10);
    }
}

/// The labels of both unit systems and the zero marker hold no escape character.
pub proof fn lemma_labels_are_plain()
    ensures
        forall|i: int| 0 <= i < 6 ==> plain(#[trigger] binary_units()[i].name@),
        forall|i: int| 0 <= i < 6 ==> plain(#[trigger] decimal_units()[i].name@),
        plain(ZERO_SIZE@),
{
    reveal_strlit("B");
    reveal_strlit("KiB");
    reveal_strlit("MiB");
    reveal_strlit("GiB");
    reveal_strlit("TiB");
    reveal_strlit("PiB");
    reveal_strlit("KB");
    reveal_strlit("MB");
    reveal_strlit("GB");
    reveal_strlit("TB");
    reveal_strlit("PB");
    reveal_strlit("-");
}

/// The approximate text of a size in either unit system, padded or not,
/// holds no escape character.
pub proof fn lemma_approximate_text_is_plain(bytes: BYTE, si: bool, width: nat)
    ensures
        plain(
            pad_right(
                approximate_text(
                    bytes as nat,
                    if si {
                        decimal_units()
                    } else {
                        binary_units()
                    },
                ),
                width,
            ),
        ),
{
    let units = if si {
        decimal_units()
    } else {
        binary_units()
    };
    lemma_labels_are_plain();
    lemma_fitting_unit(units, bytes as nat, 6);
    match fitting_unit(units, bytes as nat, 6) {
        Some(i) => {
            let size = units[i].size as nat;
            lemma_decimal_is_plain((bytes as nat) / size);
            lemma_decimal_is_plain((bytes as nat) / size + 1);
            assert(plain(approximate_numeral(bytes as nat, size)));
            assert(plain(units[i].name@));
        },
        None => {},
    }
}

} // verus!
