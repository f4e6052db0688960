//! What holds of every listing.

use super::format::{
    hidden_name, listed, rows, strategy_for, Column, NameColumn, RenderStrategy, SizeColumn,
};
use super::paths::{ColoredDirOrFile, CompositePath, DirOrFile, PathOptions, Paths};
use super::time::Timestamp;
use crate::size::laws::{lemma_approximate_text_is_plain, lemma_labels_are_plain};
use crate::size::MAX_SIZE_LEN;
use crate::style::{
    closed, lemma_coloured_shows_text, lemma_emboldened_shows_text, lemma_plain_text_shows,
    lemma_rgb_open_is_escape_sequence, lemma_style_sequences, plain, rgb_open, visible,
};
use vstd::prelude::*;

verus! {

/// The number of entries that are part of a listing.
pub open spec fn count_listed(entries: Seq<CompositePath>, show_hidden: bool) -> nat
    decreases entries.len(),
{
    if entries.len() == 0 {
        0
    } else {
        count_listed(entries.drop_last(), show_hidden) + (if listed(entries.last(), show_hidden) {
            1nat
        } else {
            0nat
        })
    }
}

/// No listing has more rows than entries, and one that shows hidden entries has a row for each.
pub proof fn lemma_count_listed_bounds(entries: Seq<CompositePath>, show_hidden: bool)
    ensures
        count_listed(entries, show_hidden) <= entries.len(),
        show_hidden ==> count_listed(entries, show_hidden) == entries.len(),
    decreases entries.len(),
{
    if entries.len() > 0 {
        lemma_count_listed_bounds(entries.drop_last(), show_hidden);
    }
}

/// An entry whose name hides it gets a row where hidden entries are shown,
/// and nowhere else; the other options, colour and the time make no difference.
pub proof fn lemma_hidden_entry_listed_iff_shown(
    options: PathOptions,
    color: bool,
    now: Timestamp,
    before: Seq<CompositePath>,
    entry: CompositePath,
)
    requires
        hidden_name(entry.name@),
    ensures
        listed(entry, options.show_hidden) == options.show_hidden,
        options.show_hidden ==> rows(
            strategy_for(options, color),
            before.push(entry),
            options.show_hidden,
            now,
        ) == rows(strategy_for(options, color), before, options.show_hidden, now).push(
            strategy_for(options, color).row_text(entry, now),
        ),
        !options.show_hidden ==> rows(
            strategy_for(options, color),
            before.push(entry),
            options.show_hidden,
            now,
        ) == rows(strategy_for(options, color), before, options.show_hidden, now),
{
    let all = before.push(entry);
    assert(all.drop_last() =~= before);
    assert(all.last() == entry);
    let strategy = strategy_for(options, color);
    let earlier = rows(strategy, before, options.show_hidden, now);
    if options.show_hidden {
        assert(earlier + seq![strategy.row_text(entry, now)] =~= earlier.push(
            strategy.row_text(entry, now),
        ));
    } else {
        assert(earlier + Seq::<Seq<char>>::empty() =~= earlier);
    }
}

/// An entry whose name does not hide it gets a row in every listing.
pub proof fn lemma_open_entry_always_listed(
    strategy: RenderStrategy,
    show_hidden: bool,
    now: Timestamp,
    before: Seq<CompositePath>,
    entry: CompositePath,
)
    requires
        !hidden_name(entry.name@),
    ensures
        rows(strategy, before.push(entry), show_hidden, now) == rows(
            strategy,
            before,
            show_hidden,
            now,
        ).push(strategy.row_text(entry, now)),
{
    let all = before.push(entry);
    assert(all.drop_last() =~= before);
    assert(all.last() == entry);
    let earlier = rows(strategy, before, show_hidden, now);
    assert(earlier + seq![strategy.row_text(entry, now)] =~= earlier.push(
        strategy.row_text(entry, now),
    ));
}

/// A listing has one row for each entry that is part of it, and one more line where it has a header.
pub proof fn lemma_listing_length(listing: Paths, color: bool, now: Timestamp)
    ensures
        listing.listing(color, now).len() == count_listed(listing.paths@, listing.show_hidden) + (
        if listing.header {
            1nat
        } else {
            0nat
        }),
{
    lemma_rows_length(
        strategy_for(listing.options(), color),
        listing.paths@,
        listing.show_hidden,
        now,
    );
}

/// There are as many rows as entries that are part of the listing.
pub proof fn lemma_rows_length(
    strategy: RenderStrategy,
    entries: Seq<CompositePath>,
    show_hidden: bool,
    now: Timestamp,
)
    ensures
        rows(strategy, entries, show_hidden, now).len() == count_listed(entries, show_hidden),
    decreases entries.len(),
{
    if entries.len() > 0 {
        lemma_rows_length(strategy, entries.drop_last(), show_hidden, now);
    }
}

/// Without colour, and with every column but the name turned off, only the
/// name column shows anything, and a row is the name of its entry.
pub proof fn lemma_name_alone(options: PathOptions, entry: CompositePath, now: Timestamp)
    requires
        !options.show_size,
        !options.icons,
        !options.perms,
        !options.created,
        !options.modified,
    ensures
        strategy_for(options, false) == (RenderStrategy {
            perms: Column::Off,
            size: SizeColumn::Off,
            created: Column::Off,
            modified: Column::Off,
            icon: Column::Off,
            name: NameColumn::Plain,
        }),
        strategy_for(options, false).row_text(entry, now) == entry.name@,
{
    let strategy = strategy_for(options, false);
    assert(strategy.row_cells(entry, now) =~= seq![entry.name@]);
}

/// A column that is turned off stays off whatever the other options say,
/// and one that is turned on shows something.
pub proof fn lemma_columns_follow_their_options(options: PathOptions, color: bool)
    ensures
        (strategy_for(options, color).perms == Column::Off) == !options.perms,
        (strategy_for(options, color).size == SizeColumn::Off) == !options.show_size,
        (strategy_for(options, color).created == Column::Off) == !options.created,
        (strategy_for(options, color).modified == Column::Off) == !options.modified,
        (strategy_for(options, color).icon == Column::Off) == !options.icons,
{
}

/// Colour changes nothing of what the size column shows: the coloured cell
/// shows the plain cell, character for character.
pub proof fn lemma_coloured_size_shows_size(size: DirOrFile, si: bool)
    ensures
        visible(ColoredDirOrFile(size).text(si)) == size.text(si),
        closed(ColoredDirOrFile(size).text(si)),
{
    lemma_style_sequences();
    lemma_rgb_open_is_escape_sequence(128, 128, 128);
    lemma_labels_are_plain();
    let cell = size.text(si);
    match size {
        DirOrFile::Dir => {
            assert(plain(cell));
            lemma_plain_text_shows(cell);
            lemma_coloured_shows_text(rgb_open(128, 128, 128), cell);
        },
        DirOrFile::File(bytes) => {
            lemma_approximate_text_is_plain(bytes, si, MAX_SIZE_LEN as nat);
            lemma_plain_text_shows(cell);
            lemma_coloured_shows_text("\x1b[32m"@, cell);
            lemma_emboldened_shows_text(crate::style::coloured("\x1b[32m"@, cell));
        },
    }
}

} // verus!
