//! The entries of a listing and the options that shape it.

use super::permissions::UnixPerms;
use super::time::Timestamp;
use vstd::prelude::*;

verus! {

/// A listing to be made: the options it was asked with, the user who asked,
/// and the entries in the order in which they are to appear.
#[derive(Debug)]
pub struct Paths {
    pub show_hidden: bool,
    pub icons: bool,
    pub show_size: bool,
    pub si: bool,
    pub paths: Vec<CompositePath>,
    pub perms: bool,
    pub created: bool,
    pub modified: bool,
    pub header: bool,
    pub current_uid: u32,
}

/// One of two things.
pub enum EitherIter<AIterType, BIterType> {
    A(AIterType),
    B(BIterType),
}

impl Paths {
    /// The listing of `entries` under `options`, asked for by `current_uid`.
    pub fn new(options: PathOptions, entries: Vec<CompositePath>, current_uid: u32) -> (listing:
        Self)
        ensures
            listing.options() == options,
            listing.paths == entries,
            listing.current_uid == current_uid,
    {
        Self::from_iter(options, entries, current_uid)
    }

    /// The listing of `entries` under `options`, asked for by `current_uid`.
    pub fn from_iter(options: PathOptions, entries: Vec<CompositePath>, current_uid: u32) -> (listing:
        Self)
        ensures
            listing.options() == options,
            listing.paths == entries,
            listing.current_uid == current_uid,
    {
        Self {
            show_hidden: options.show_hidden,
            icons: options.icons,
            show_size: options.show_size,
            si: options.si,
            paths: entries,
            header: options.header,
            perms: options.perms,
            created: options.created,
            modified: options.modified,
            current_uid,
        }
    }

    /// The options of the listing.
    pub open spec fn options(&self) -> PathOptions {
        PathOptions {
            show_hidden: self.show_hidden,
            icons: self.icons,
            show_size: self.show_size,
            perms: self.perms,
            created: self.created,
            modified: self.modified,
            si: self.si,
            header: self.header,
        }
    }

    /// The options that the listing was asked with.
    pub fn path_options(&self) -> (options: PathOptions)
        ensures
            options == self.options(),
    {
        PathOptions {
            show_hidden: self.show_hidden,
            icons: self.icons,
            show_size: self.show_size,
            perms: self.perms,
            created: self.created,
            modified: self.modified,
            si: self.si,
            header: self.header,
        }
    }
}

/// One entry of a directory, as far as a listing shows it. A datum that
/// could not be read is `None`.
#[derive(Debug)]
pub struct CompositePath {
    pub name: String,
    pub dir_or_file: DirOrFile,
    pub created: Option<Timestamp>,
    pub modified: Option<Timestamp>,
    pub permissions: Option<UnixPerms>,
}

/// An entry whose name is to be shown in colour.
pub struct ColoredCompositePath<'a>(pub &'a CompositePath);

/// A directory, or a file of so many bytes.
#[derive(Debug, Clone, Copy)]
pub enum DirOrFile {
    Dir,
    File(u64),
}

/// The icon of an entry.
pub struct Icon<'a>(pub &'a CompositePath);

/// The icon of an entry, to be shown in colour.
pub struct ColoredIcon<'a>(pub &'a CompositePath);

impl CompositePath {
    /// The icon that stands for the entry.
    pub fn icon(&self) -> (icon: Icon<'_>)
        ensures
            icon.0 == self,
    {
        Icon(self)
    }
}

impl<'a> Icon<'a> {
    /// The same icon, to be shown in colour.
    pub fn colored(self) -> (icon: ColoredIcon<'a>)
        ensures
            icon.0 == self.0,
    {
        ColoredIcon(self.0)
    }
}

/// The size of an entry, to be shown in colour.
#[derive(Clone, Copy)]
pub struct ColoredDirOrFile(pub DirOrFile);

/// What a listing shows, and how.
#[derive(Debug, PartialEq, Eq, Structural)]
pub struct PathOptions {
    pub show_hidden: bool,
    pub icons: bool,
    pub show_size: bool,
    pub perms: bool,
    pub created: bool,
    pub modified: bool,
    pub si: bool,
    pub header: bool,
}

impl PathOptions {
    /// The options of a plain listing: sizes and permissions, nothing else.
    pub fn new() -> (options: PathOptions)
        ensures
            options == default_options(),
    {
        Self::default()
    }

    /// Sets whether entries with a hidden name are listed.
    pub fn show_hidden(&mut self, show: bool) -> (ret: &mut Self)
        ensures
            *ret == (PathOptions { show_hidden: show, ..*old(self) }),
            *final(self) == *final(ret),
    {
        self.show_hidden = show;
        self
    }

    /// Sets whether each entry gets an icon.
    pub fn show_icons(&mut self, show: bool) -> (ret: &mut Self)
        ensures
            *ret == (PathOptions { icons: show, ..*old(self) }),
            *final(self) == *final(ret),
    {
        self.icons = show;
        self
    }

    /// Sets whether the size column is shown.
    pub fn show_size(&mut self, show: bool) -> (ret: &mut Self)
        ensures
            *ret == (PathOptions { show_size: show, ..*old(self) }),
            *final(self) == *final(ret),
    {
        self.show_size = show;
        self
    }

    /// Sets whether sizes are given in decimal units.
    pub fn use_si(&mut self, si: bool) -> (ret: &mut Self)
        ensures
            *ret == (PathOptions { si, ..*old(self) }),
            *final(self) == *final(ret),
    {
        self.si = si;
        self
    }

    /// Sets whether a line of captions comes first.
    pub fn show_header(&mut self, show: bool) -> (ret: &mut Self)
        ensures
            *ret == (PathOptions { header: show, ..*old(self) }),
            *final(self) == *final(ret),
    {
        self.header = show;
        self
    }

    /// Sets whether the permission column is shown.
    pub fn show_permissions(&mut self, show: bool) -> (ret: &mut Self)
        ensures
            *ret == (PathOptions { perms: show, ..*old(self) }),
            *final(self) == *final(ret),
    {
        self.perms = show;
        self
    }

    /// Sets whether the column of modification dates is shown.
    pub fn show_modified(&mut self, show: bool) -> (ret: &mut Self)
        ensures
            *ret == (PathOptions { modified: show, ..*old(self) }),
            *final(self) == *final(ret),
    {
        self.modified = show;
        self
    }

    /// Sets whether the column of creation dates is shown.
    pub fn show_created(&mut self, show: bool) -> (ret: &mut Self)
        ensures
            *ret == (PathOptions { created: show, ..*old(self) }),
            *final(self) == *final(ret),
    {
        self.created = show;
        self
    }
}

/// The options of a plain listing: sizes in binary units and permissions
/// are shown; hidden entries, icons, dates and the header are not.
pub open spec fn default_options() -> PathOptions {
    PathOptions {
        show_hidden: false,
        show_size: true,
        perms: true,
        icons: false,
        header: false,
        created: false,
        modified: false,
        si: false,
    }
}

impl Default for PathOptions {
    fn default() -> (options: Self)
        ensures
            options == default_options(),
    {
        Self {
            show_hidden: false,
            show_size: true,
            perms: true,
            icons: false,
            header: false,
            created: false,
            modified: false,
            si: false,
        }
    }
}

} // verus!
