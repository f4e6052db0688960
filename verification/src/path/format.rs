//! The text of a listing: cells, rows, the header, and the strategy that
//! decides once, before the first row, what every column shows.

use super::paths::{
    ColoredCompositePath, ColoredDirOrFile, ColoredIcon, CompositePath, DirOrFile, Icon,
    PathOptions, Paths,
};
use super::permissions::{user_bits, UnixPerms, UserPerms};
use super::time::{Timestamp, DATE_WIDTH};
use crate::size::{
    approximate_text, binary_units, decimal_units, units, units_si, DecimalSize, MAX_SIZE_LEN,
};
use crate::style::{blue, bold, coloured, emboldened, green, muted, purple, rgb_open, yellow};
use crate::text::{pad_right, push_padding, spaces};
use crate::ZERO_SIZE;
use vstd::prelude::*;
use vstd::string::*;

verus! {

/// The first character of a name that hides its entry.
pub const HIDDEN_MARKER: char = '.';

/// The width of the permission column, in characters.
pub const PERMS_WIDTH: usize = 9;

/// The icon of a directory.
pub const ICON_DIR: &'static str = "\u{f115}";

/// The icon of a file.
pub const ICON_FILE: &'static str = "\u{f016}";

/// The icon of a file that its owner may execute.
pub const ICON_EXECUTABLE: &'static str = "\u{eae9}";

/// The captions of the columns, each as wide as its column.
pub const CAPTION_PERMS: &'static str = "Perms    ";

pub const CAPTION_SIZE: &'static str = "Size   ";

pub const CAPTION_CREATED: &'static str = "Created     ";

pub const CAPTION_MODIFIED: &'static str = "Modified    ";

pub const CAPTION_ICON: &'static str = " ";

pub const CAPTION_NAME: &'static str = "Filename";

/// Whether a name hides its entry: it starts with the hidden marker.
pub open spec fn hidden_name(name: Seq<char>) -> bool {
    name.len() > 0 && name[0] == HIDDEN_MARKER
}

/// Whether a name hides its entry.
pub fn is_hidden(name: &str) -> (hidden: bool)
    ensures
        hidden == hidden_name(name@),
{
    if name.is_empty() {
        false
    } else {
        name.get_char(0) == HIDDEN_MARKER
    }
}

/// Whether the owner of the entry may read it; `true` where the permissions are unknown.
pub open spec fn owner_reads(permissions: Option<UnixPerms>) -> bool {
    match permissions {
        Some(p) => UserPerms(user_bits(p.perms)).can_read(),
        None => true,
    }
}

/// Whether the owner of the entry may execute it; `false` where the permissions are unknown.
pub open spec fn owner_executes(permissions: Option<UnixPerms>) -> bool {
    match permissions {
        Some(p) => UserPerms(user_bits(p.perms)).can_execute(),
        None => false,
    }
}

/// Whether the owner may read and may execute the entry.
fn owner_rights(permissions: &Option<UnixPerms>) -> (rights: (bool, bool))
    ensures
        rights == (owner_reads(*permissions), owner_executes(*permissions)),
{
    match permissions {
        Some(p) => {
            let user = p.user();
            (user.read(), user.execute())
        },
        None => (true, false),
    }
}

impl DirOrFile {
    /// The size cell: the zero marker for a directory, the approximate size
    /// of a file, in binary units or in decimal ones, each padded to the
    /// width of the size column.
    pub open spec fn text(&self, si: bool) -> Seq<char> {
        match *self {
            DirOrFile::Dir => pad_right(ZERO_SIZE@, MAX_SIZE_LEN as nat),
            DirOrFile::File(size) => pad_right(
                approximate_text(
                    size as nat,
                    if si {
                        decimal_units()
                    } else {
                        binary_units()
                    },
                ),
                MAX_SIZE_LEN as nat,
            ),
        }
    }

    /// Renders the size cell in the chosen unit system.
    fn render(&self, si: bool) -> (out: String)
        ensures
            out@ == self.text(si),
    {
        match *self {
            DirOrFile::Dir => {
                let mut out = String::from_str(ZERO_SIZE);
                push_padding(&mut out, MAX_SIZE_LEN);
                out
            },
            DirOrFile::File(size) => {
                if si {
                    DecimalSize::new(size).fmt_with_units(Some(MAX_SIZE_LEN), units_si().as_slice())
                } else {
                    DecimalSize::new(size).fmt_with_units(Some(MAX_SIZE_LEN), units().as_slice())
                }
            },
        }
    }

    /// The size cell in binary units.
    pub fn to_string(&self) -> (out: String)
        ensures
            out@ == self.text(false),
    {
        self.render(false)
    }

    /// The size cell in decimal units.
    pub fn to_string_si(&self) -> (out: String)
        ensures
            out@ == self.text(true),
    {
        self.render(true)
    }
}

impl ColoredDirOrFile {
    /// The size cell in colour: a directory's marker muted, a file's size green and bold.
    pub open spec fn text(&self, si: bool) -> Seq<char> {
        match self.0 {
            DirOrFile::Dir => coloured(rgb_open(128, 128, 128), self.0.text(si)),
            DirOrFile::File(_) => emboldened(coloured("\x1b[32m"@, self.0.text(si))),
        }
    }

    /// Renders the coloured size cell in the chosen unit system.
    fn render(&self, si: bool) -> (out: String)
        ensures
            out@ == self.text(si),
    {
        let plain = self.0.render(si);
        match self.0 {
            DirOrFile::Dir => muted(plain.as_str()),
            DirOrFile::File(_) => bold(green(plain.as_str()).as_str()),
        }
    }

    /// The coloured size cell in binary units.
    pub fn to_string(&self) -> (out: String)
        ensures
            out@ == self.text(false),
    {
        self.render(false)
    }

    /// The coloured size cell in decimal units.
    pub fn to_string_si(&self) -> (out: String)
        ensures
            out@ == self.text(true),
    {
        self.render(true)
    }
}

impl<'a> Icon<'a> {
    /// The icon of the entry: one for directories, one for files that their
    /// owner may execute, one for all other files.
    pub open spec fn text(&self) -> Seq<char> {
        match self.0.dir_or_file {
            DirOrFile::Dir => ICON_DIR@,
            DirOrFile::File(_) => if owner_executes(self.0.permissions) {
                ICON_EXECUTABLE@
            } else {
                ICON_FILE@
            },
        }
    }

    /// The icon of the entry.
    pub fn to_string(&self) -> (out: String)
        ensures
            out@ == self.text(),
    {
        let (_, executes) = owner_rights(&self.0.permissions);
        match self.0.dir_or_file {
            DirOrFile::Dir => String::from_str(ICON_DIR),
            DirOrFile::File(_) => if executes {
                String::from_str(ICON_EXECUTABLE)
            } else {
                String::from_str(ICON_FILE)
            },
        }
    }
}

impl<'a> ColoredIcon<'a> {
    /// The icon of the entry in colour. A directory is bold, blue where its
    /// owner may read it and yellow where not. A file that its owner may not
    /// read is muted; one that he may read and execute is yellow; one that
    /// he may only read has no colour.
    pub open spec fn text(&self) -> Seq<char> {
        let reads = owner_reads(self.0.permissions);
        let executes = owner_executes(self.0.permissions);
        match self.0.dir_or_file {
            DirOrFile::Dir => if reads {
                emboldened(coloured("\x1b[34m"@, ICON_DIR@))
            } else {
                emboldened(coloured("\x1b[33m"@, ICON_DIR@))
            },
            DirOrFile::File(_) => if !reads && !executes {
                coloured(rgb_open(128, 128, 128), ICON_FILE@)
            } else if !reads {
                coloured(rgb_open(128, 128, 128), ICON_EXECUTABLE@)
            } else if executes {
                coloured("\x1b[33m"@, ICON_EXECUTABLE@)
            } else {
                ICON_FILE@
            },
        }
    }

    /// The icon of the entry in colour.
    pub fn to_string(&self) -> (out: String)
        ensures
            out@ == self.text(),
    {
        let (reads, executes) = owner_rights(&self.0.permissions);
        match self.0.dir_or_file {
            DirOrFile::Dir => if reads {
                bold(blue(ICON_DIR).as_str())
            } else {
                bold(yellow(ICON_DIR).as_str())
            },
            DirOrFile::File(_) => if !reads && !executes {
                muted(ICON_FILE)
            } else if !reads {
                muted(ICON_EXECUTABLE)
            } else if executes {
                yellow(ICON_EXECUTABLE)
            } else {
                String::from_str(ICON_FILE)
            },
        }
    }
}

impl<'a> ColoredCompositePath<'a> {
    /// The name of the entry in colour. A directory is blue and bold. A
    /// file that its owner may not read is muted, and bold as well where he
    /// may execute it; one that he may read and execute is green and bold;
    /// one that he may only read has no colour.
    pub open spec fn text(&self) -> Seq<char> {
        let name = self.0.name@;
        let reads = owner_reads(self.0.permissions);
        let executes = owner_executes(self.0.permissions);
        match self.0.dir_or_file {
            DirOrFile::Dir => emboldened(coloured("\x1b[34m"@, name)),
            DirOrFile::File(_) => if !reads && !executes {
                coloured(rgb_open(128, 128, 128), name)
            } else if !reads {
                coloured(rgb_open(128, 128, 128), emboldened(name))
            } else if executes {
                coloured("\x1b[32m"@, emboldened(name))
            } else {
                name
            },
        }
    }

    /// The name of the entry in colour.
    pub fn to_string(&self) -> (out: String)
        ensures
            out@ == self.text(),
    {
        let name = self.0.name.as_str();
        let (reads, executes) = owner_rights(&self.0.permissions);
        match self.0.dir_or_file {
            DirOrFile::Dir => bold(blue(name).as_str()),
            DirOrFile::File(_) => if !reads && !executes {
                muted(name)
            } else if !reads {
                muted(bold(name).as_str())
            } else if executes {
                green(bold(name).as_str())
            } else {
                String::from_str(name)
            },
        }
    }
}

impl CompositePath {
    /// The name of the entry.
    pub fn to_string(&self) -> (out: String)
        ensures
            out@ == self.name@,
    {
        String::from_str(self.name.as_str())
    }
}

/// What a column of flags, dates or icons shows.
#[derive(Debug, Clone, Copy, PartialEq, Eq, Structural)]
pub enum Column {
    /// Nothing: the column is not part of the listing.
    Off,
    /// Its text.
    Plain,
    /// Its text in colour.
    Colored,
}

/// What the size column shows.
#[derive(Debug, Clone, Copy, PartialEq, Eq, Structural)]
pub enum SizeColumn {
    /// Nothing: the column is not part of the listing.
    Off,
    /// Sizes in binary units.
    Binary,
    /// Sizes in decimal units.
    Decimal,
    /// Sizes in binary units, in colour.
    ColoredBinary,
    /// Sizes in decimal units, in colour.
    ColoredDecimal,
}

/// What the name column shows. It is part of every listing.
#[derive(Debug, Clone, Copy, PartialEq, Eq, Structural)]
pub enum NameColumn {
    /// The name.
    Plain,
    /// The name in colour.
    Colored,
}

/// What each column of a listing shows, decided once for all its rows.
#[derive(Debug, Clone, Copy, PartialEq, Eq, Structural)]
pub struct RenderStrategy {
    pub perms: Column,
    pub size: SizeColumn,
    pub created: Column,
    pub modified: Column,
    pub icon: Column,
    pub name: NameColumn,
}

/// What a column shows that is part of the listing where `shown` holds.
pub open spec fn column_for(shown: bool, color: bool) -> Column {
    if !shown {
        Column::Off
    } else if color {
        Column::Colored
    } else {
        Column::Plain
    }
}

/// What the size column shows.
pub open spec fn size_column_for(shown: bool, color: bool, si: bool) -> SizeColumn {
    if !shown {
        SizeColumn::Off
    } else if color {
        if si {
            SizeColumn::ColoredDecimal
        } else {
            SizeColumn::ColoredBinary
        }
    } else {
        if si {
            SizeColumn::Decimal
        } else {
            SizeColumn::Binary
        }
    }
}

/// The strategy that the options and the terminal's support for colour call for.
pub open spec fn strategy_for(options: PathOptions, color: bool) -> RenderStrategy {
    RenderStrategy {
        perms: column_for(options.perms, color),
        size: size_column_for(options.show_size, color, options.si),
        created: column_for(options.created, color),
        modified: column_for(options.modified, color),
        icon: column_for(options.icons, color),
        name: if color {
            NameColumn::Colored
        } else {
            NameColumn::Plain
        },
    }
}

/// The text of a date as a listing made at `now` shows it; `None` where
/// there is no date, or none that can be written.
pub open spec fn date_text(stamp: Option<Timestamp>, now: Timestamp) -> Option<Seq<char>> {
    match stamp {
        Some(t) => t.listed(now),
        None => None,
    }
}

/// `text` in the colour with the sequence `open`; the blanks of the column where there is none.
pub open spec fn date_cell_text(text: Option<Seq<char>>, open: Option<Seq<char>>) -> Seq<char> {
    match text {
        Some(t) => match open {
            Some(o) => coloured(o, t),
            None => t,
        },
        None => spaces(DATE_WIDTH as nat),
    }
}

/// The permission cell of an entry: its permissions, plain or in colour,
/// or blanks of the column's width where they are unknown; no cell where
/// the column is off.
pub open spec fn perms_cell(column: Column, entry: CompositePath) -> Option<Seq<char>> {
    match column {
        Column::Off => None,
        Column::Plain => Some(
            match entry.permissions {
                Some(p) => p.plain_text(),
                None => spaces(PERMS_WIDTH as nat),
            },
        ),
        Column::Colored => Some(
            match entry.permissions {
                Some(p) => p.coloured_text(),
                None => spaces(PERMS_WIDTH as nat),
            },
        ),
    }
}

/// The size cell of an entry, in the units and colours of the column; no
/// cell where the column is off.
pub open spec fn size_cell(column: SizeColumn, entry: CompositePath) -> Option<Seq<char>> {
    match column {
        SizeColumn::Off => None,
        SizeColumn::Binary => Some(entry.dir_or_file.text(false)),
        SizeColumn::Decimal => Some(entry.dir_or_file.text(true)),
        SizeColumn::ColoredBinary => Some(ColoredDirOrFile(entry.dir_or_file).text(false)),
        SizeColumn::ColoredDecimal => Some(ColoredDirOrFile(entry.dir_or_file).text(true)),
    }
}

/// The date cell for a timestamp, in a listing made at `now`; `open` is the
/// sequence of the column's colour. No cell where the column is off.
pub open spec fn date_cell(
    column: Column,
    stamp: Option<Timestamp>,
    now: Timestamp,
    open: Seq<char>,
) -> Option<Seq<char>> {
    match column {
        Column::Off => None,
        Column::Plain => Some(date_cell_text(date_text(stamp, now), None)),
        Column::Colored => Some(date_cell_text(date_text(stamp, now), Some(open))),
    }
}

/// The icon cell of an entry; no cell where the column is off.
pub open spec fn icon_cell(column: Column, entry: CompositePath) -> Option<Seq<char>> {
    match column {
        Column::Off => None,
        Column::Plain => Some(Icon(&entry).text()),
        Column::Colored => Some(ColoredIcon(&entry).text()),
    }
}

/// The name cell of an entry.
pub open spec fn name_cell(column: NameColumn, entry: CompositePath) -> Seq<char> {
    match column {
        NameColumn::Plain => entry.name@,
        NameColumn::Colored => ColoredCompositePath(&entry).text(),
    }
}

/// The cell as a list: of one text, or of none.
pub open spec fn present(cell: Option<Seq<char>>) -> Seq<Seq<char>> {
    match cell {
        Some(text) => seq![text],
        None => Seq::empty(),
    }
}

/// The texts in their order, with one space between neighbours.
pub open spec fn joined(texts: Seq<Seq<char>>) -> Seq<char>
    decreases texts.len(),
{
    if texts.len() == 0 {
        Seq::empty()
    } else if texts.len() == 1 {
        texts[0]
    } else {
        joined(texts.drop_last()) + seq![' '] + texts.last()
    }
}

impl RenderStrategy {
    /// The cells of the row of `entry`, in the order of the columns:
    /// permissions, size, created, modified, icon, name. A column that shows
    /// nothing has no cell.
    pub open spec fn row_cells(&self, entry: CompositePath, now: Timestamp) -> Seq<Seq<char>> {
        present(perms_cell(self.perms, entry)) + present(size_cell(self.size, entry)) + present(
            date_cell(self.created, entry.created, now, "\x1b[34m"@),
        ) + present(date_cell(self.modified, entry.modified, now, "\x1b[35m"@)) + present(
            icon_cell(self.icon, entry),
        ) + seq![name_cell(self.name, entry)]
    }

    /// The row of `entry`: its cells with one space between neighbours.
    pub open spec fn row_text(&self, entry: CompositePath, now: Timestamp) -> Seq<char> {
        joined(self.row_cells(entry, now))
    }

    /// The captions of the columns that show something, in the order of the columns.
    pub open spec fn header_cells(&self) -> Seq<Seq<char>> {
        (if self.perms != Column::Off {
            seq![CAPTION_PERMS@]
        } else {
            Seq::empty()
        }) + (if self.size != SizeColumn::Off {
            seq![CAPTION_SIZE@]
        } else {
            Seq::empty()
        }) + (if self.created != Column::Off {
            seq![CAPTION_CREATED@]
        } else {
            Seq::empty()
        }) + (if self.modified != Column::Off {
            seq![CAPTION_MODIFIED@]
        } else {
            Seq::empty()
        }) + (if self.icon != Column::Off {
            seq![CAPTION_ICON@]
        } else {
            Seq::empty()
        }) + seq![CAPTION_NAME@]
    }

    /// The header: the captions with one space between neighbours.
    pub open spec fn header_text(&self) -> Seq<char> {
        joined(self.header_cells())
    }

    /// Decides what every column shows, from the options and from whether
    /// the terminal supports colour.
    pub fn select(options: &PathOptions, color_supported: bool) -> (strategy: RenderStrategy)
        ensures
            strategy == strategy_for(*options, color_supported),
    {
        RenderStrategy {
            perms: choose_column(options.perms, color_supported),
            size: if !options.show_size {
                SizeColumn::Off
            } else if color_supported {
                if options.si {
                    SizeColumn::ColoredDecimal
                } else {
                    SizeColumn::ColoredBinary
                }
            } else {
                if options.si {
                    SizeColumn::Decimal
                } else {
                    SizeColumn::Binary
                }
            },
            created: choose_column(options.created, color_supported),
            modified: choose_column(options.modified, color_supported),
            icon: choose_column(options.icons, color_supported),
            name: if color_supported {
                NameColumn::Colored
            } else {
                NameColumn::Plain
            },
        }
    }

    /// The permission cell of `entry`, if the column shows anything.
    pub fn print_perms(&self, current_uid: u32, entry: &CompositePath) -> (cell: Option<String>)
        ensures
            cell.is_some() == perms_cell(self.perms, *entry).is_some(),
            cell.is_some() ==> cell.unwrap()@ == perms_cell(self.perms, *entry).unwrap(),
    {
        match self.perms {
            Column::Off => None,
            Column::Plain => Some(
                match entry.permissions {
                    Some(p) => p.print(current_uid),
                    None => blanks(PERMS_WIDTH),
                },
            ),
            Column::Colored => Some(
                match entry.permissions {
                    Some(p) => p.print_color(current_uid),
                    None => blanks(PERMS_WIDTH),
                },
            ),
        }
    }

    /// The size cell of `entry`, if the column shows anything.
    pub fn print_size(&self, entry: &CompositePath) -> (cell: Option<String>)
        ensures
            cell.is_some() == size_cell(self.size, *entry).is_some(),
            cell.is_some() ==> cell.unwrap()@ == size_cell(self.size, *entry).unwrap(),
    {
        match self.size {
            SizeColumn::Off => None,
            SizeColumn::Binary => Some(entry.dir_or_file.to_string()),
            SizeColumn::Decimal => Some(entry.dir_or_file.to_string_si()),
            SizeColumn::ColoredBinary => Some(ColoredDirOrFile(entry.dir_or_file).to_string()),
            SizeColumn::ColoredDecimal => Some(ColoredDirOrFile(entry.dir_or_file).to_string_si()),
        }
    }

    /// The cell of the creation date of `entry`, if the column shows anything.
    pub fn print_created(&self, now: &Timestamp, entry: &CompositePath) -> (cell: Option<String>)
        ensures
            cell.is_some() == date_cell(self.created, entry.created, *now, "\x1b[34m"@).is_some(),
            cell.is_some() ==> cell.unwrap()@ == date_cell(
                self.created,
                entry.created,
                *now,
                "\x1b[34m"@,
            ).unwrap(),
    {
        match self.created {
            Column::Off => None,
            Column::Plain => Some(print_date(format_date(&entry.created, now), DateColor::Plain)),
            Column::Colored => Some(print_date(format_date(&entry.created, now), DateColor::Blue)),
        }
    }

    /// The cell of the modification date of `entry`, if the column shows anything.
    pub fn print_modified(&self, now: &Timestamp, entry: &CompositePath) -> (cell: Option<String>)
        ensures
            cell.is_some() == date_cell(self.modified, entry.modified, *now, "\x1b[35m"@).is_some(),
            cell.is_some() ==> cell.unwrap()@ == date_cell(
                self.modified,
                entry.modified,
                *now,
                "\x1b[35m"@,
            ).unwrap(),
    {
        match self.modified {
            Column::Off => None,
            Column::Plain => Some(print_date(format_date(&entry.modified, now), DateColor::Plain)),
            Column::Colored => Some(
                print_date(format_date(&entry.modified, now), DateColor::Purple),
            ),
        }
    }

    /// The icon cell of `entry`, if the column shows anything.
    pub fn print_icon(&self, entry: &CompositePath) -> (cell: Option<String>)
        ensures
            cell.is_some() == icon_cell(self.icon, *entry).is_some(),
            cell.is_some() ==> cell.unwrap()@ == icon_cell(self.icon, *entry).unwrap(),
    {
        match self.icon {
            Column::Off => None,
            Column::Plain => Some(entry.icon().to_string()),
            Column::Colored => Some(entry.icon().colored().to_string()),
        }
    }

    /// The name cell of `entry`.
    pub fn print_name(&self, entry: &CompositePath) -> (cell: String)
        ensures
            cell@ == name_cell(self.name, *entry),
    {
        match self.name {
            NameColumn::Plain => entry.to_string(),
            NameColumn::Colored => ColoredCompositePath(entry).to_string(),
        }
    }

    /// The row of `entry` in a listing made at `now`: the cells of the
    /// columns that show something, in the order permissions, size, created,
    /// modified, icon, name, with one space between neighbours.
    pub fn print_row(&self, current_uid: u32, now: &Timestamp, entry: &CompositePath) -> (row:
        String)
        ensures
            row@ == self.row_text(*entry, *now),
    {
        let mut row = String::new();
        let mut started = false;
        let ghost mut cells: Seq<Seq<char>> = Seq::empty();
        push_cell(&mut row, &mut started, self.print_perms(current_uid, entry), Ghost(cells));
        proof {
            cells = cells + present(perms_cell(self.perms, *entry));
        }
        push_cell(&mut row, &mut started, self.print_size(entry), Ghost(cells));
        proof {
            cells = cells + present(size_cell(self.size, *entry));
        }
        push_cell(&mut row, &mut started, self.print_created(now, entry), Ghost(cells));
        proof {
            cells = cells + present(date_cell(self.created, entry.created, *now, "\x1b[34m"@));
        }
        push_cell(&mut row, &mut started, self.print_modified(now, entry), Ghost(cells));
        proof {
            cells = cells + present(date_cell(self.modified, entry.modified, *now, "\x1b[35m"@));
        }
        push_cell(&mut row, &mut started, self.print_icon(entry), Ghost(cells));
        proof {
            cells = cells + present(icon_cell(self.icon, *entry));
        }
        push_cell(&mut row, &mut started, Some(self.print_name(entry)), Ghost(cells));
        proof {
            cells = cells + present(Some(name_cell(self.name, *entry)));
            assert(cells =~= self.row_cells(*entry, *now));
        }
        row
    }

    /// The header of the listing: the captions of the columns that show
    /// something, in the order of the columns, with one space between neighbours.
    pub fn print_header(&self) -> (header: String)
        ensures
            header@ == self.header_text(),
    {
        let mut header = String::new();
        let mut started = false;
        let ghost mut cells: Seq<Seq<char>> = Seq::empty();
        let perms = caption(!matches!(self.perms, Column::Off), CAPTION_PERMS);
        push_cell(&mut header, &mut started, perms, Ghost(cells));
        proof {
            cells = cells + (if self.perms != Column::Off {
                seq![CAPTION_PERMS@]
            } else {
                Seq::empty()
            });
        }
        let size = caption(!matches!(self.size, SizeColumn::Off), CAPTION_SIZE);
        push_cell(&mut header, &mut started, size, Ghost(cells));
        proof {
            cells = cells + (if self.size != SizeColumn::Off {
                seq![CAPTION_SIZE@]
            } else {
                Seq::empty()
            });
        }
        let created = caption(!matches!(self.created, Column::Off), CAPTION_CREATED);
        push_cell(&mut header, &mut started, created, Ghost(cells));
        proof {
            cells = cells + (if self.created != Column::Off {
                seq![CAPTION_CREATED@]
            } else {
                Seq::empty()
            });
        }
        let modified = caption(!matches!(self.modified, Column::Off), CAPTION_MODIFIED);
        push_cell(&mut header, &mut started, modified, Ghost(cells));
        proof {
            cells = cells + (if self.modified != Column::Off {
                seq![CAPTION_MODIFIED@]
            } else {
                Seq::empty()
            });
        }
        let icon = caption(!matches!(self.icon, Column::Off), CAPTION_ICON);
        push_cell(&mut header, &mut started, icon, Ghost(cells));
        proof {
            cells = cells + (if self.icon != Column::Off {
                seq![CAPTION_ICON@]
            } else {
                Seq::empty()
            });
        }
        push_cell(&mut header, &mut started, Some(String::from_str(CAPTION_NAME)), Ghost(cells));
        proof {
            cells = cells + seq![CAPTION_NAME@];
            assert(cells =~= self.header_cells());
        }
        header
    }
}

/// What a column shows that is part of the listing where `shown` holds.
fn choose_column(shown: bool, color: bool) -> (column: Column)
    ensures
        column == column_for(shown, color),
{
    if !shown {
        Column::Off
    } else if color {
        Column::Colored
    } else {
        Column::Plain
    }
}

/// The caption of a column, if the column shows anything.
fn caption(shown: bool, text: &str) -> (cell: Option<String>)
    ensures
        cell.is_some() == shown,
        shown ==> cell.unwrap()@ == text@,
{
    if shown {
        Some(String::from_str(text))
    } else {
        None
    }
}

/// A text of `width` spaces.
fn blanks(width: usize) -> (out: String)
    ensures
        out@ == spaces(width as nat),
{
    let mut out = String::new();
    push_padding(&mut out, width);
    assert(out@ =~= spaces(width as nat));
    out
}

/// The colour of a date column.
#[derive(Debug, Clone, Copy, PartialEq, Eq, Structural)]
pub enum DateColor {
    Plain,
    Blue,
    Purple,
}

/// The sequence that opens the colour, if it is one.
pub open spec fn date_color_open(color: DateColor) -> Option<Seq<char>> {
    match color {
        DateColor::Plain => None,
        DateColor::Blue => Some("\x1b[34m"@),
        DateColor::Purple => Some("\x1b[35m"@),
    }
}

/// The text of the date of an entry, if it has one that can be written.
fn format_date(stamp: &Option<Timestamp>, now: &Timestamp) -> (text: Option<String>)
    ensures
        text.is_some() == date_text(*stamp, *now).is_some(),
        text.is_some() ==> text.unwrap()@ == date_text(*stamp, *now).unwrap(),
{
    match stamp {
        Some(t) => t.format(now),
        None => None,
    }
}

/// The date cell for the text of a date: the text, in `color` if that is
/// one; blanks of the column's width where there is no text.
pub fn print_date(text: Option<String>, color: DateColor) -> (cell: String)
    ensures
        cell@ == date_cell_text(
            match text {
                Some(t) => Some(t@),
                None => None,
            },
            date_color_open(color),
        ),
{
    match text {
        Some(t) => match color {
            DateColor::Plain => t,
            DateColor::Blue => blue(t.as_str()),
            DateColor::Purple => purple(t.as_str()),
        },
        None => blanks(DATE_WIDTH),
    }
}

/// Appends a cell to a row: after a space, unless it is the first.
fn push_cell(
    row: &mut String,
    started: &mut bool,
    cell: Option<String>,
    Ghost(cells): Ghost<Seq<Seq<char>>>,
)
    requires
        old(row)@ == joined(cells),
        *old(started) == (cells.len() > 0),
    ensures
        final(row)@ == joined(
            cells + present(
                match cell {
                    Some(t) => Some(t@),
                    None => None,
                },
            ),
        ),
        *final(started) == (cells.len() > 0 || cell.is_some()),
{
    match cell {
        Some(text) => {
            let ghost all = cells + seq![text@];
            assert(all.drop_last() =~= cells);
            assert(all.last() == text@);
            if *started {
                proof {
                    reveal_strlit(" ");
                }
                row.append(" ");
            }
            row.append(text.as_str());
            *started = true;
            assert(row@ =~= joined(all));
        },
        None => {
            assert(cells + Seq::<Seq<char>>::empty() =~= cells);
        },
    }
}

/// Whether an entry is part of a listing: every entry where hidden ones are
/// shown, else those whose name does not hide them.
pub open spec fn listed(entry: CompositePath, show_hidden: bool) -> bool {
    show_hidden || !hidden_name(entry.name@)
}

/// The rows of the entries that are part of the listing, in the order of the entries.
pub open spec fn rows(
    strategy: RenderStrategy,
    entries: Seq<CompositePath>,
    show_hidden: bool,
    now: Timestamp,
) -> Seq<Seq<char>>
    decreases entries.len(),
{
    if entries.len() == 0 {
        Seq::empty()
    } else {
        rows(strategy, entries.drop_last(), show_hidden, now) + (if listed(
            entries.last(),
            show_hidden,
        ) {
            seq![strategy.row_text(entries.last(), now)]
        } else {
            Seq::empty()
        })
    }
}

/// The texts of the lines.
pub open spec fn texts(lines: Seq<String>) -> Seq<Seq<char>> {
    Seq::new(lines.len(), |i: int| lines[i]@)
}

impl Paths {
    /// The lines of the listing, made at `now` for a terminal that supports
    /// colour or does not: the header, where the options ask for one, then
    /// one row for each entry that is part of the listing.
    pub open spec fn listing(&self, color: bool, now: Timestamp) -> Seq<Seq<char>> {
        let strategy = strategy_for(self.options(), color);
        (if self.header {
            seq![strategy.header_text()]
        } else {
            Seq::empty()
        }) + rows(strategy, self.paths@, self.show_hidden, now)
    }

    /// Renders the listing as lines of text, without line ends. The strategy
    /// is selected once, before the first row.
    pub fn print(&self, color: bool, now: &Timestamp) -> (lines: Vec<String>)
        ensures
            texts(lines@) == self.listing(color, *now),
    {
        let strategy = RenderStrategy::select(&self.path_options(), color);
        let mut lines: Vec<String> = Vec::new();
        if self.header {
            lines.push(strategy.print_header());
        }
        let ghost head = texts(lines@);
        let mut i: usize = 0;
        assert(texts(lines@) =~= head + rows(
            strategy,
            self.paths@.take(0),
            self.show_hidden,
            *now,
        ));
        while i < self.paths.len()
            invariant
                i <= self.paths@.len(),
                texts(lines@) == head + rows(
                    strategy,
                    self.paths@.take(i as int),
                    self.show_hidden,
                    *now,
                ),
            decreases self.paths@.len() - i,
        {
            let entry = &self.paths[i];
            let ghost done = self.paths@.take(i as int);
            let ghost next = self.paths@.take(i + 1);
            let ghost before = texts(lines@);
            assert(next.drop_last() =~= done);
            assert(next.last() == *entry);
            if self.show_hidden || !is_hidden(entry.name.as_str()) {
                let row = strategy.print_row(self.current_uid, now, entry);
                lines.push(row);
                assert(texts(lines@) =~= before + seq![strategy.row_text(*entry, *now)]);
            }
            i += 1;
            assert(texts(lines@) =~= head + rows(strategy, next, self.show_hidden, *now));
        }
        assert(self.paths@.take(i as int) =~= self.paths@);
        assert(head =~= (if self.header {
            seq![strategy.header_text()]
        } else {
            Seq::empty()
        }));
        lines
    }
}

} // verus!
