//! Entries of a directory and the rows that list them.

pub mod format;
pub mod laws;
pub mod paths;
pub mod permissions;
pub mod time;

pub use paths::{
    ColoredCompositePath, ColoredDirOrFile, ColoredIcon, CompositePath, DirOrFile, EitherIter, Icon,
    PathOptions, Paths,
};
pub use format::{Column, DateColor, NameColumn, RenderStrategy, SizeColumn};
pub use permissions::{UnixPerms, UserPerms};
pub use time::{DateStyle, Timestamp};
