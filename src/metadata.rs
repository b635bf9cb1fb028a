use vstd::prelude::*;

use crate::listing::PathMetadataKind;

verus! {

/// How a metadata query treats a terminal symlink.
#[derive(Clone, Copy, Debug, PartialEq, Eq, Structural)]
pub enum SymlinkBehavior {
    /// A symlink is reported as itself and never followed.
    Aware,
    /// A symlink is followed and reported as what it points to.
    Oblivious,
}

/// What the operating system says of an entry's type.
#[derive(Clone, Copy, Debug, PartialEq, Eq, Structural)]
pub struct FileTypeFlags {
    pub is_symlink: bool,
    pub is_dir: bool,
    pub is_file: bool,
}

/// A point in time, as seconds and nanoseconds since the Unix epoch.
#[derive(Clone, Copy, Debug, PartialEq, Eq, Structural)]
pub struct Timestamp {
    pub secs: i64,
    pub nanos: u32,
}

/// The metadata that one query of the operating system yields.
#[derive(Clone, Copy, Debug, PartialEq, Eq, Structural)]
pub struct RawMetadata {
    pub file_type: FileTypeFlags,
    pub len: u64,
    /// The permission bits, where the platform has them.
    pub mode: Option<u32>,
    pub accessed: Option<Timestamp>,
    pub created: Option<Timestamp>,
    pub modified: Option<Timestamp>,
}

/// A snapshot of one path's metadata.
#[derive(Clone, Debug)]
pub struct PathMetadata {
    pub path: String,
    pub kind: PathMetadataKind,
    pub length: u64,
    /// Whether any execute bit is set; absent where the platform has no
    /// permission bits.
    pub is_executable: Option<bool>,
    pub unix_mode: Option<u32>,
    pub accessed: Option<Timestamp>,
    pub created: Option<Timestamp>,
    pub modified: Option<Timestamp>,
    /// The link's raw target, present exactly for a symlink.
    pub symlink_target: Option<String>,
}

/// The kind reported for an entry: a symlink first, unless symlinks are
/// followed, then a directory, then a file.
pub open spec fn metadata_kind(ft: FileTypeFlags, follows: bool) -> Option<PathMetadataKind> {
    if ft.is_symlink && !follows {
        Some(PathMetadataKind::Symlink)
    } else if ft.is_dir {
        Some(PathMetadataKind::Directory)
    } else if ft.is_file {
        Some(PathMetadataKind::File)
    } else {
        None
    }
}

/// The kind of an entry with file type `ft`, or `None` for an entry that is
/// neither a symlink, a directory nor a file.
pub fn classify(ft: FileTypeFlags, follows: bool) -> (r: Option<PathMetadataKind>)
    ensures
        r == metadata_kind(ft, follows),
{
    if ft.is_symlink && !follows {
        Some(PathMetadataKind::Symlink)
    } else if ft.is_dir {
        Some(PathMetadataKind::Directory)
    } else if ft.is_file {
        Some(PathMetadataKind::File)
    } else {
        None
    }
}

/// At least one of the owner, group and other execute bits is set.
pub open spec fn has_execute_bit(mode: u32) -> bool {
    (mode & 0o100) != 0 || (mode & 0o010) != 0 || (mode & 0o001) != 0
}

/// Whether permission bits `mode` allow anyone to execute.
pub fn mode_is_executable(mode: u32) -> (r: bool)
    ensures
        r == has_execute_bit(mode),
{
    proof {
        assert(((mode & 0o111) != 0) == ((mode & 0o100) != 0 || (mode & 0o010) != 0 || (mode
            & 0o001) != 0)) by (bit_vector);
    }
    (mode & 0o111) != 0
}

/// Whether the entry is executable, where the platform knows; never a
/// made-up `false`.
pub open spec fn executable_of(mode: Option<u32>) -> Option<bool> {
    match mode {
        Some(m) => Some(has_execute_bit(m)),
        None => None,
    }
}

pub fn executable_from_mode(mode: Option<u32>) -> (r: Option<bool>)
    ensures
        r == executable_of(mode),
{
    match mode {
        Some(m) => Some(mode_is_executable(m)),
        None => None,
    }
}

/// The snapshot of `path` built from `raw`, reported as `kind`.
pub open spec fn snapshot(
    path: String,
    raw: RawMetadata,
    kind: PathMetadataKind,
    target: Option<String>,
) -> PathMetadata {
    PathMetadata {
        path,
        kind,
        length: raw.len,
        is_executable: executable_of(raw.mode),
        unix_mode: raw.mode,
        accessed: raw.accessed,
        created: raw.created,
        modified: raw.modified,
        symlink_target: target,
    }
}

/// Builds the snapshot of `path` from `raw`, reported as `kind`.
pub fn build_snapshot(
    path: String,
    raw: &RawMetadata,
    kind: PathMetadataKind,
    target: Option<String>,
) -> (r: PathMetadata)
    ensures
        r == snapshot(path, *raw, kind, target),
{
    PathMetadata {
        path,
        kind,
        length: raw.len,
        is_executable: executable_from_mode(raw.mode),
        unix_mode: raw.mode,
        accessed: raw.accessed,
        created: raw.created,
        modified: raw.modified,
        symlink_target: target,
    }
}

} // verus!
