pub mod listing;
pub mod metadata;
pub mod path;
pub mod vfs;
