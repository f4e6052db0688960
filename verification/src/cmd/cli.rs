//! The switches of the command line and the options they stand for.

use crate::path::PathOptions;
use vstd::prelude::*;

verus! {

/// The switches of one invocation.
#[derive(Debug)]
pub struct Cli {
    /// Display with file size.
    pub long: bool,
    /// Display all files including hidden ones.
    pub hidden: bool,
    /// Use decimal units instead of true powers of two.
    pub si: bool,
    /// Disable file icons.
    pub icons: bool,
    /// Display the files in a tree.
    pub tree: bool,
    /// Show a header with the names of the columns.
    pub header: bool,
    /// Do not show permissions.
    pub noperms: bool,
    /// Show the date of creation.
    pub created: bool,
    /// Show the date of modification.
    pub modified: bool,
    /// The folder to list files in.
    pub target: String,
}

impl Cli {
    /// The options that the switches stand for. Icons and permissions are
    /// shown unless their switch turns them off; every other column and the
    /// header are shown where their switch turns them on.
    pub open spec fn options(&self) -> PathOptions {
        PathOptions {
            show_hidden: self.hidden,
            icons: !self.icons,
            show_size: self.long,
            perms: !self.noperms,
            created: self.created,
            modified: self.modified,
            si: self.si,
            header: self.header,
        }
    }

    /// The options that the switches stand for.
    pub fn path_options(&self) -> (options: PathOptions)
        ensures
            options == self.options(),
    {
        let mut options = PathOptions::new();
        options.show_hidden(self.hidden);
        options.show_size(self.long);
        options.show_icons(!self.icons);
        options.use_si(self.si);
        options.show_header(self.header);
        options.show_created(self.created);
        options.show_modified(self.modified);
        options.show_permissions(!self.noperms);
        options
    }
}

} // verus!
