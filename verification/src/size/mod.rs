//! Byte counts rendered in units.
//!
//! A table of units lists its units smallest first. Three renderings exist:
//! [`Size`] uses the largest unit that fits and a whole count, [`DecimalSize`]
//! the same unit and at most one decimal place, [`LongSize`] every unit that
//! contributes, so that nothing is lost.

use crate::text::{decimal, digit_char, digit_str, pad_right, push_decimal, push_padding};
use crate::ZERO_SIZE;
use vstd::prelude::*;
use vstd::string::*;

pub mod constants;
pub mod convenience;
pub mod laws;

pub use constants::{
    binary_units, decimal_units, units, units_si, B, BYTE, GB, GIB, KB, KIB, MAX_SIZE_LEN, MB, MIB,
    PB, PIB, TB, TIB,
};
pub use convenience::IntoSize;

verus! {

/// A unit of size: how many bytes it stands for, and its label.
#[derive(Clone, Copy, Debug)]
pub struct ByteUnit<'a> {
    pub size: BYTE,
    pub name: &'a str,
}

impl<'a> ByteUnit<'a> {
    /// The unit of `size` bytes labelled `name`.
    pub fn new(size: BYTE, name: &'a str) -> (unit: Self)
        ensures
            unit == (ByteUnit { size, name }),
    {
        Self { size, name }
    }
}

/// Every unit of the table stands for at least one byte.
pub open spec fn positive_units(units: Seq<ByteUnit<'_>>) -> bool {
    forall|i: int| 0 <= i < units.len() ==> (#[trigger] units[i]).size > 0
}

/// A table as a unit system needs it: it starts with the unit of one byte,
/// and each further unit is larger than the one before.
pub open spec fn well_formed_units(units: Seq<ByteUnit<'_>>) -> bool {
    &&& units.len() >= 1
    &&& units[0].size == 1
    &&& forall|i: int, j: int|
        0 <= i < j < units.len() ==> (#[trigger] units[i]).size < (#[trigger] units[j]).size
}

/// The index of the last unit among the first `n` of the table that is no
/// larger than `bytes`, if there is one.
pub open spec fn fitting_unit(units: Seq<ByteUnit<'_>>, bytes: nat, n: int) -> Option<int>
    decreases n,
{
    if n <= 0 {
        None
    } else if units[n - 1].size <= bytes {
        Some(n - 1)
    } else {
        fitting_unit(units, bytes, n - 1)
    }
}

/// `text` padded with spaces on its right to `width` characters, where one is asked for.
pub open spec fn in_width(text: Seq<char>, width: Option<usize>) -> Seq<char> {
    match width {
        Some(w) => pad_right(text, w as nat),
        None => text,
    }
}

/// What [`fitting_unit`] finds: nothing, or a unit that fits with only larger ones after it.
pub proof fn lemma_fitting_unit(units: Seq<ByteUnit<'_>>, bytes: nat, n: int)
    requires
        0 <= n <= units.len(),
    ensures
        match fitting_unit(units, bytes, n) {
            Some(i) => 0 <= i < n && units[i].size <= bytes && forall|j: int|
                i < j < n ==> (#[trigger] units[j]).size > bytes,
            None => forall|j: int| 0 <= j < n ==> (#[trigger] units[j]).size > bytes,
        },
    decreases n,
{
    if n > 0 && units[n - 1].size > bytes {
        lemma_fitting_unit(units, bytes, n - 1);
    }
}

/// Finds the largest unit that `bytes` fills at least once, scanning the table from its end.
pub fn select_unit(bytes: BYTE, units: &[ByteUnit<'_>]) -> (found: Option<usize>)
    ensures
        match found {
            Some(i) => i < units@.len() && units@[i as int].size <= bytes && forall|j: int|
                i < j < units@.len() ==> (#[trigger] units@[j]).size > bytes,
            None => forall|j: int| 0 <= j < units@.len() ==> (#[trigger] units@[j]).size > bytes,
        },
        match found {
            Some(i) => fitting_unit(units@, bytes as nat, units@.len() as int) == Some(i as int),
            None => fitting_unit(units@, bytes as nat, units@.len() as int) is None,
        },
{
    let mut n: usize = units.len();
    while n > 0
        invariant
            n <= units@.len(),
            fitting_unit(units@, bytes as nat, units@.len() as int) == fitting_unit(
                units@,
                bytes as nat,
                n as int,
            ),
        decreases n,
    {
        if units[n - 1].size <= bytes {
            proof {
                lemma_fitting_unit(units@, bytes as nat, units@.len() as int);
            }
            return Some(n - 1);
        }
        n -= 1;
    }
    proof {
        lemma_fitting_unit(units@, bytes as nat, units@.len() as int);
    }
    None
}

/// A byte count that renders in the largest unit that fits, as a whole number.
pub struct Size(pub BYTE);

/// The text of `bytes` in one unit and whole numbers: the count of the
/// largest unit that fits, then its label; the zero marker where no unit fits.
pub open spec fn single_unit_text(bytes: nat, units: Seq<ByteUnit<'_>>) -> Seq<char> {
    match fitting_unit(units, bytes, units.len() as int) {
        Some(i) => decimal(bytes / (units[i].size as nat)) + units[i].name@,
        None => ZERO_SIZE@,
    }
}

impl Size {
    /// Renders the size in the largest unit of `units` that fits, with a
    /// whole count, and pads the text on its right to `width` where one is given.
    pub fn fmt_with_units(&self, width: Option<usize>, units: &[ByteUnit<'_>]) -> (out: String)
        requires
            positive_units(units@),
        ensures
            out@ == in_width(single_unit_text(self.0 as nat, units@), width),
    {
        let bytes = self.0;
        let mut out = String::new();
        match select_unit(bytes, units) {
            Some(i) => {
                let unit = units[i];
                push_decimal(&mut out, bytes / unit.size);
                out.append(unit.name);
            },
            None => {
                out.append(ZERO_SIZE);
            },
        }
        assert(out@ =~= single_unit_text(self.0 as nat, units@));
        match width {
            Some(w) => {
                push_padding(&mut out, w);
            },
            None => {},
        }
        out
    }

    /// The size in binary units: `495B`, `1KiB`, `-` for zero.
    pub fn to_string(&self) -> (out: String)
        ensures
            out@ == single_unit_text(self.0 as nat, binary_units()),
    {
        let table = units();
        self.fmt_with_units(None, table.as_slice())
    }

    /// The size in decimal units: `495B`, `1KB`, `-` for zero.
    pub fn to_string_si(&self) -> (out: String)
        ensures
            out@ == single_unit_text(self.0 as nat, decimal_units()),
    {
        let table = units_si();
        self.fmt_with_units(None, table.as_slice())
    }
}

/// A byte count that renders in the largest unit that fits, with one decimal place where it tells.
pub struct DecimalSize(pub BYTE);

/// The tenths of the fraction `rest / size`, rounded to the nearest tenth; a
/// fraction halfway between two tenths goes to the even one.
pub open spec fn rounded_tenths(rest: nat, size: nat) -> nat {
    let tenths = 10 * rest / size;
    let left = 10 * rest % size;
    if 2 * left > size || (2 * left == size && tenths % 2 == 1) {
        tenths + 1
    } else {
        tenths
    }
}

/// The numeral of `bytes / size`. A fraction below one tenth is dropped and
/// the numeral has no decimal place; any other is rounded to one decimal place.
pub open spec fn approximate_numeral(bytes: nat, size: nat) -> Seq<char> {
    let whole = bytes / size;
    let rest = bytes % size;
    if 10 * rest < size {
        decimal(whole)
    } else if rounded_tenths(rest, size) >= 10 {
        decimal(whole + 1) + seq!['.', '0']
    } else {
        decimal(whole) + seq!['.', digit_char(rounded_tenths(rest, size))]
    }
}

/// The text of `bytes` in one unit and at most one decimal place: the
/// numeral of the largest unit that fits, then its label; the zero marker
/// where no unit fits.
pub open spec fn approximate_text(bytes: nat, units: Seq<ByteUnit<'_>>) -> Seq<char> {
    match fitting_unit(units, bytes, units.len() as int) {
        Some(i) => approximate_numeral(bytes, units[i].size as nat) + units[i].name@,
        None => ZERO_SIZE@,
    }
}

/// Appends the numeral of `bytes / size` with at most one decimal place.
fn push_approximate(out: &mut String, bytes: BYTE, size: BYTE)
    requires
        size > 0,
    ensures
        final(out)@ == old(out)@ + approximate_numeral(bytes as nat, size as nat),
{
    let whole = bytes / size;
    let rest = bytes % size;
    let scaled: u128 = 10 * (rest as u128);
    let wide: u128 = size as u128;
    if scaled < wide {
        push_decimal(out, whole);
        return ;
    }
    let floor = scaled / wide;
    let left = scaled % wide;
    assert(floor <= 9) by (nonlinear_arith)
        requires
            floor == scaled / wide,
            scaled < 10 * wide,
            wide > 0,
    ;
    let tenths: u64 = if 2 * left > wide || (2 * left == wide && floor % 2 == 1) {
        (floor + 1) as u64
    } else {
        floor as u64
    };
    assert(tenths == rounded_tenths(rest as nat, size as nat));
    proof {
        reveal_strlit(".");
        reveal_strlit(".0");
    }
    if tenths >= 10 {
        assert(whole < u64::MAX) by (nonlinear_arith)
            requires
                whole == bytes / size,
                size >= 2,
                bytes <= u64::MAX,
        ;
        push_decimal(out, whole + 1);
        out.append(".0");
        assert(out@ =~= old(out)@ + approximate_numeral(bytes as nat, size as nat));
    } else {
        push_decimal(out, whole);
        out.append(".");
        out.append(digit_str(tenths));
        assert(out@ =~= old(out)@ + approximate_numeral(bytes as nat, size as nat));
    }
}

impl DecimalSize {
    /// Renders the size in the largest unit of `units` that fits, with at
    /// most one decimal place, and pads the text on its right to `width`
    /// where one is given.
    pub fn fmt_with_units(&self, width: Option<usize>, units: &[ByteUnit<'_>]) -> (out: String)
        requires
            positive_units(units@),
        ensures
            out@ == in_width(approximate_text(self.0 as nat, units@), width),
    {
        let bytes = self.0;
        let mut out = String::new();
        match select_unit(bytes, units) {
            Some(i) => {
                let unit = units[i];
                push_approximate(&mut out, bytes, unit.size);
                out.append(unit.name);
            },
            None => {
                out.append(ZERO_SIZE);
            },
        }
        assert(out@ =~= approximate_text(self.0 as nat, units@));
        match width {
            Some(w) => {
                push_padding(&mut out, w);
            },
            None => {},
        }
        out
    }

    /// The size in binary units: `495B`, `1.5KiB`, `-` for zero.
    pub fn to_string(&self) -> (out: String)
        ensures
            out@ == approximate_text(self.0 as nat, binary_units()),
    {
        let table = units();
        self.fmt_with_units(None, table.as_slice())
    }

    /// The size in decimal units: `495B`, `1.5KB`, `-` for zero.
    pub fn to_string_si(&self) -> (out: String)
        ensures
            out@ == approximate_text(self.0 as nat, decimal_units()),
    {
        let table = units_si();
        self.fmt_with_units(None, table.as_slice())
    }
}

/// A byte count that renders exactly, in every unit that contributes.
pub struct LongSize(pub BYTE);

/// One part of an exact rendering: `count` times the unit at index `unit` of the table.
#[derive(Clone, Copy, Debug)]
pub struct Part {
    pub count: BYTE,
    pub unit: usize,
}

/// The greedy decomposition of `bytes` over the first `n` units of the
/// table, largest unit first: each unit that still fits takes as many
/// multiples as it can and leaves the remainder to the smaller ones.
pub open spec fn exact_parts(units: Seq<ByteUnit<'_>>, bytes: BYTE, n: nat) -> Seq<Part>
    decreases n,
{
    if n == 0 {
        Seq::empty()
    } else {
        let unit = units[n - 1];
        if unit.size <= bytes {
            seq![Part { count: bytes / unit.size, unit: (n - 1) as usize }] + exact_parts(
                units,
                bytes % unit.size,
                (n - 1) as nat,
            )
        } else {
            exact_parts(units, bytes, (n - 1) as nat)
        }
    }
}

/// What the first `n` units of the table leave over of `bytes`.
pub open spec fn exact_rest(units: Seq<ByteUnit<'_>>, bytes: BYTE, n: nat) -> BYTE
    decreases n,
{
    if n == 0 {
        bytes
    } else {
        let unit = units[n - 1];
        if unit.size <= bytes {
            exact_rest(units, bytes % unit.size, (n - 1) as nat)
        } else {
            exact_rest(units, bytes, (n - 1) as nat)
        }
    }
}

/// The number of bytes that the parts stand for together.
pub open spec fn parts_total(units: Seq<ByteUnit<'_>>, parts: Seq<Part>) -> nat
    decreases parts.len(),
{
    if parts.len() == 0 {
        0
    } else {
        (parts[0].count as nat) * (units[parts[0].unit as int].size as nat) + parts_total(
            units,
            parts.drop_first(),
        )
    }
}

/// The text of one part: its count, then the label of its unit.
pub open spec fn part_text(units: Seq<ByteUnit<'_>>, part: Part) -> Seq<char> {
    decimal(part.count as nat) + units[part.unit as int].name@
}

/// The texts of the parts in their order, one space between neighbours.
pub open spec fn parts_text(units: Seq<ByteUnit<'_>>, parts: Seq<Part>) -> Seq<char>
    decreases parts.len(),
{
    if parts.len() == 0 {
        Seq::empty()
    } else if parts.len() == 1 {
        part_text(units, parts[0])
    } else {
        parts_text(units, parts.drop_last()) + seq![' '] + part_text(units, parts.last())
    }
}

/// The exact text of `bytes`: its parts, or `0` where it has none.
pub open spec fn multi_unit_text(bytes: BYTE, units: Seq<ByteUnit<'_>>) -> Seq<char> {
    let parts = exact_parts(units, bytes, units.len());
    if parts.len() == 0 {
        "0"@
    } else {
        parts_text(units, parts)
    }
}

/// The parts of a decomposition name units of the table, each with a count
/// above zero, and each part a smaller unit than the one before it.
pub open spec fn descending_parts(parts: Seq<Part>, n: nat) -> bool {
    &&& forall|k: int| 0 <= k < parts.len() ==> (#[trigger] parts[k]).unit < n && parts[k].count > 0
    &&& forall|k: int, l: int|
        0 <= k < l < parts.len() ==> (#[trigger] parts[k]).unit > (#[trigger] parts[l]).unit
}

/// The greedy decomposition emits units in descending order and none with a count of zero.
pub proof fn lemma_exact_parts_descend(units: Seq<ByteUnit<'_>>, bytes: BYTE, n: nat)
    requires
        n <= units.len(),
        n <= usize::MAX,
        positive_units(units),
    ensures
        descending_parts(exact_parts(units, bytes, n), n),
    decreases n,
{
    if n > 0 {
        let unit = units[n - 1];
        if unit.size <= bytes {
            let head = Part { count: bytes / unit.size, unit: (n - 1) as usize };
            let tail = exact_parts(units, bytes % unit.size, (n - 1) as nat);
            lemma_exact_parts_descend(units, bytes % unit.size, (n - 1) as nat);
            assert(head.count > 0) by (nonlinear_arith)
                requires
                    head.count == bytes / unit.size,
                    0 < unit.size <= bytes,
            ;
            let parts = seq![head] + tail;
            assert forall|k: int| 0 <= k < parts.len() implies (#[trigger] parts[k]).unit < n
                && parts[k].count > 0 by {
                if k > 0 {
                    assert(parts[k] == tail[k - 1]);
                }
            }
            assert forall|k: int, l: int| 0 <= k < l < parts.len() implies (#[trigger] parts[k]).unit
                > (#[trigger] parts[l]).unit by {
                assert(parts[l] == tail[l - 1]);
                if k > 0 {
                    assert(parts[k] == tail[k - 1]);
                }
            }
        } else {
            lemma_exact_parts_descend(units, bytes, (n - 1) as nat);
        }
    }
}

/// The parts of the greedy decomposition and what it leaves over add up to the byte count.
pub proof fn lemma_exact_parts_total(units: Seq<ByteUnit<'_>>, bytes: BYTE, n: nat)
    requires
        n <= units.len(),
        n <= usize::MAX,
        positive_units(units),
    ensures
        parts_total(units, exact_parts(units, bytes, n)) + exact_rest(units, bytes, n) == bytes,
    decreases n,
{
    if n > 0 {
        let unit = units[n - 1];
        if unit.size <= bytes {
            let head = Part { count: bytes / unit.size, unit: (n - 1) as usize };
            let tail = exact_parts(units, bytes % unit.size, (n - 1) as nat);
            lemma_exact_parts_total(units, bytes % unit.size, (n - 1) as nat);
            let parts = seq![head] + tail;
            assert(parts[0] == head);
            assert(parts.drop_first() =~= tail);
            assert((bytes / unit.size) * unit.size + bytes % unit.size == bytes)
                by (nonlinear_arith)
                requires
                    unit.size > 0,
            ;
        } else {
            lemma_exact_parts_total(units, bytes, (n - 1) as nat);
        }
    }
}

/// Over a table that starts with the unit of one byte, the greedy decomposition leaves nothing over.
pub proof fn lemma_exact_rest_zero(units: Seq<ByteUnit<'_>>, bytes: BYTE, n: nat)
    requires
        1 <= n <= units.len(),
        units[0].size == 1,
        positive_units(units),
    ensures
        exact_rest(units, bytes, n) == 0,
    decreases n,
{
    let unit = units[n - 1];
    if n == 1 {
        assert(bytes % 1 == 0);
        assert(exact_rest(units, 0, 0) == 0);
    } else if unit.size <= bytes {
        lemma_exact_rest_zero(units, bytes % unit.size, (n - 1) as nat);
    } else {
        lemma_exact_rest_zero(units, bytes, (n - 1) as nat);
    }
}

impl LongSize {
    /// Splits the size over the units of the table, largest first: every unit
    /// that the rest still fills takes its whole multiples.
    pub fn decompose(&self, units: &[ByteUnit<'_>]) -> (parts: Vec<Part>)
        requires
            positive_units(units@),
        ensures
            parts@ == exact_parts(units@, self.0, units@.len()),
            descending_parts(parts@, units@.len()),
            parts_total(units@, parts@) + exact_rest(units@, self.0, units@.len()) == self.0,
    {
        let mut parts: Vec<Part> = Vec::new();
        let mut rest = self.0;
        let mut n: usize = units.len();
        assert(parts@ + exact_parts(units@, rest, n as nat) =~= exact_parts(
            units@,
            self.0,
            units@.len(),
        ));
        while n > 0
            invariant
                n <= units@.len(),
                positive_units(units@),
                parts@ + exact_parts(units@, rest, n as nat) == exact_parts(
                    units@,
                    self.0,
                    units@.len(),
                ),
            decreases n,
        {
            let unit = units[n - 1];
            let ghost before = parts@;
            let ghost tail = exact_parts(units@, rest, n as nat);
            if unit.size <= rest {
                parts.push(Part { count: rest / unit.size, unit: n - 1 });
                rest = rest % unit.size;
            }
            n -= 1;
            assert(parts@ + exact_parts(units@, rest, n as nat) =~= before + tail);
        }
        assert(parts@ =~= parts@ + exact_parts(units@, rest, 0));
        proof {
            lemma_exact_parts_descend(units@, self.0, units@.len());
            lemma_exact_parts_total(units@, self.0, units@.len());
        }
        parts
    }

    /// Renders the size exactly: the count and label of every unit of
    /// `units` that contributes, largest first, one space between them;
    /// `0` where no unit contributes.
    pub fn fmt_with_units(&self, units: &[ByteUnit<'_>]) -> (out: String)
        requires
            positive_units(units@),
        ensures
            out@ == multi_unit_text(self.0, units@),
    {
        let parts = self.decompose(units);
        let mut out = String::new();
        if parts.len() == 0 {
            out.append("0");
            assert(out@ =~= "0"@);
            return out;
        }
        let mut k: usize = 0;
        proof {
            reveal_strlit(" ");
        }
        while k < parts.len()
            invariant
                k <= parts@.len(),
                descending_parts(parts@, units@.len()),
                out@ == parts_text(units@, parts@.take(k as int)),
                " "@ == seq![' '],
            decreases parts@.len() - k,
        {
            let part = parts[k];
            let ghost done = parts@.take(k as int);
            let ghost next = parts@.take(k + 1);
            assert(next.drop_last() =~= done);
            assert(next.last() == part);
            if k > 0 {
                out.append(" ");
            }
            push_decimal(&mut out, part.count);
            out.append(units[part.unit].name);
            k += 1;
            assert(out@ =~= parts_text(units@, next));
        }
        assert(parts@.take(k as int) =~= parts@);
        out
    }

    /// The exact size in binary units: `3PiB 2GiB 3B`.
    pub fn to_string(&self) -> (out: String)
        ensures
            out@ == multi_unit_text(self.0, binary_units()),
    {
        let table = units();
        self.fmt_with_units(table.as_slice())
    }

    /// The exact size in decimal units: `3PB 2GB 3B`.
    pub fn to_string_si(&self) -> (out: String)
        ensures
            out@ == multi_unit_text(self.0, decimal_units()),
    {
        let table = units_si();
        self.fmt_with_units(table.as_slice())
    }
}

} // verus!
