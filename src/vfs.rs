use vstd::prelude::*;

use crate::listing::{
    assemble_listing, is_listing_of, kept_names, lemma_kept_name_has_entry, file_names, dir_names,
    link_names, Dir, DirectoryListing, File, Link, PathMetadataKind, ScannedEntry, Stat,
};
use crate::metadata::{
    build_snapshot, classify, metadata_kind, snapshot, FileTypeFlags, PathMetadata, RawMetadata,
    SymlinkBehavior,
};
use crate::path::{is_absolute, is_absolute_path, join, join_of, resolve_link_target, PathError, parent_of};

verus! {

/// The outcome of one query of the filesystem.
#[derive(Clone, Debug)]
pub enum Probe<T, E> {
    /// The entry exists and the query answered.
    Found(T),
    /// The entry does not exist.
    Missing,
    /// The query failed for another reason.
    Failed(E),
}

/// An error of one operation, over the filesystem's own error type `E`.
#[derive(Debug)]
pub enum VfsError<E> {
    /// A filesystem error, passed on unchanged.
    Io(E),
    /// A path that should be relative to the root is absolute.
    NotRelative(String),
    /// A symlink's raw target is absolute.
    AbsoluteSymlink(String),
    /// A symlink's path has no parent.
    OrphanSymlink(String),
    /// An entry that is neither a file, a directory nor a symlink.
    UnsupportedFileType(String),
    /// The path was a symlink a moment earlier, but its target could not be read.
    TargetUnreadable(E),
    /// The batch that scans a directory failed as a whole.
    ScanFailed(Box<VfsError<E>>),
    /// An error with a message alone.
    Other(String),
}

/// What resolving a candidate root found: its canonical form, and whether
/// that names a directory.
#[derive(Clone, Debug)]
pub struct RootProbe {
    pub canonical: String,
    pub is_dir: bool,
}

/// Why a root was refused.
#[derive(Clone, Debug)]
pub enum RootError<E> {
    /// The path could not be canonicalized or its metadata read.
    Unresolvable(E),
    /// The canonical path is not a directory.
    NotADirectory,
}

/// A root that could not be used, with the path that was given.
#[derive(Clone, Debug)]
pub struct ConstructionError<E> {
    pub root: String,
    pub cause: RootError<E>,
}

/// Whether `r` is what a symlink at `link` whose raw target is `t`
/// resolves to: an absolute target is refused, a relative one is joined onto
/// the link's parent directory.
pub open spec fn resolves_to<E>(link: Seq<char>, t: Seq<char>, r: Result<String, VfsError<E>>) -> bool {
    if is_absolute_path(t) {
        r matches Err(VfsError::AbsoluteSymlink(a)) && a@ == t
    } else {
        match parent_of(link) {
            None => r matches Err(VfsError::OrphanSymlink(a)) && a@ == t,
            Some(parent) => r matches Ok(p) && p@ == join_of(parent, t),
        }
    }
}

/// The snapshot that a query answered by `probe`, and by `target` for a
/// symlink, gives for `path`.
pub open spec fn metadata_result<E>(
    follows: bool,
    path: String,
    probe: Probe<RawMetadata, E>,
    target: Option<Result<String, E>>,
) -> Result<Option<PathMetadata>, VfsError<E>> {
    match probe {
        Probe::Missing => Ok(None),
        Probe::Failed(e) => Err(VfsError::Io(e)),
        Probe::Found(raw) => match metadata_kind(raw.file_type, follows) {
            None => Err(VfsError::UnsupportedFileType(path)),
            Some(PathMetadataKind::Symlink) => match target {
                Some(Ok(t)) => Ok(Some(snapshot(path, raw, PathMetadataKind::Symlink, Some(t)))),
                Some(Err(e)) => Err(VfsError::TargetUnreadable(e)),
                None => Err(VfsError::UnsupportedFileType(path)),
            },
            Some(k) => Ok(Some(snapshot(path, raw, k, None))),
        },
    }
}

/// A symlink is reported as itself, with its target, when symlinks are not
/// followed; when they are, no snapshot is of kind symlink or carries a
/// target.
pub proof fn lemma_symlink_reporting<E>(path: String, raw: RawMetadata, t: String)
    requires
        raw.file_type.is_symlink,
    ensures
        metadata_result::<E>(false, path, Probe::Found(raw), Some(Ok(t))) matches Ok(Some(m))
            && m.kind == PathMetadataKind::Symlink && m.symlink_target == Some(t),
        forall|probe: Probe<RawMetadata, E>, target: Option<Result<String, E>>|
            #[trigger] metadata_result(true, path, probe, target) matches Ok(Some(m))
                ==> m.kind != PathMetadataKind::Symlink && m.symlink_target is None,
{
}

/// Some entry of kind `k` that the ignore rules kept has path `n`.
pub open spec fn comes_from_kept(n: String, entries: Seq<ScannedEntry>, k: PathMetadataKind) -> bool {
    exists|j: int|
        0 <= j < entries.len() && !(#[trigger] entries[j]).ignored && entries[j].stat.kind_spec() == k
            && entries[j].stat.path_spec() == n
}

proof fn lemma_names_from_kept(names: Seq<String>, entries: Seq<ScannedEntry>, k: PathMetadataKind)
    requires
        names.to_multiset() == kept_names(entries, k),
    ensures
        forall|i: int| 0 <= i < names.len() ==> comes_from_kept(#[trigger] names[i], entries, k),
{
    assert forall|i: int| 0 <= i < names.len() implies comes_from_kept(#[trigger] names[i], entries, k) by {
        names.to_multiset_ensures();
        assert(names.contains(names[i]));
        lemma_kept_name_has_entry(entries, k, names[i]);
    }
}

/// A listing holds no entry that the ignore rules dropped: each name in it
/// comes from an entry of that kind that was not ignored.
pub proof fn lemma_listing_excludes_ignored(l: DirectoryListing, entries: Seq<ScannedEntry>)
    requires
        is_listing_of(l, entries),
    ensures
        forall|i: int| 0 <= i < l.files.len() ==>
            comes_from_kept((#[trigger] l.files@[i]).path, entries, PathMetadataKind::File),
        forall|i: int| 0 <= i < l.directories.len() ==>
            comes_from_kept((#[trigger] l.directories@[i]).path, entries, PathMetadataKind::Directory),
        forall|i: int| 0 <= i < l.symlinks.len() ==>
            comes_from_kept((#[trigger] l.symlinks@[i]).path, entries, PathMetadataKind::Symlink),
{
    let f = file_names(l.files@);
    let d = dir_names(l.directories@);
    let s = link_names(l.symlinks@);
    lemma_names_from_kept(f, entries, PathMetadataKind::File);
    lemma_names_from_kept(d, entries, PathMetadataKind::Directory);
    lemma_names_from_kept(s, entries, PathMetadataKind::Symlink);
    assert forall|i: int| 0 <= i < l.files.len() implies
        comes_from_kept((#[trigger] l.files@[i]).path, entries, PathMetadataKind::File) by {
        assert(f[i] == l.files@[i].path);
    }
    assert forall|i: int| 0 <= i < l.directories.len() implies
        comes_from_kept((#[trigger] l.directories@[i]).path, entries, PathMetadataKind::Directory) by {
        assert(d[i] == l.directories@[i].path);
    }
    assert forall|i: int| 0 <= i < l.symlinks.len() implies
        comes_from_kept((#[trigger] l.symlinks@[i]).path, entries, PathMetadataKind::Symlink) by {
        assert(s[i] == l.symlinks@[i].path);
    }
}

/// A filesystem seen from a fixed canonical root.
#[derive(Clone, Debug)]
pub struct WinFS {
    root: String,
    symlink_behavior: SymlinkBehavior,
}

impl WinFS {
    /// The canonical root.
    pub closed spec fn root_spec(&self) -> Seq<char> {
        self.root@
    }

    pub closed spec fn behavior_spec(&self) -> SymlinkBehavior {
        self.symlink_behavior
    }

    /// Whether metadata queries follow a terminal symlink.
    pub open spec fn follows_spec(&self) -> bool {
        self.behavior_spec() == SymlinkBehavior::Oblivious
    }

    /// A filesystem rooted at `root`, which `resolved` describes, that
    /// reports symlinks as themselves.
    pub fn new<E>(root: &str, resolved: Result<RootProbe, E>) -> (r: Result<WinFS, ConstructionError<E>>)
        ensures
            Self::constructed(root@, resolved, SymlinkBehavior::Aware, r),
    {
        Self::new_with_symlink_behavior(root, resolved, SymlinkBehavior::Aware)
    }

    /// Whether `r` is what construction from `root` and `resolved` gives.
    pub open spec fn constructed<E>(
        root: Seq<char>,
        resolved: Result<RootProbe, E>,
        symlink_behavior: SymlinkBehavior,
        r: Result<WinFS, ConstructionError<E>>,
    ) -> bool {
        match resolved {
            Err(e) => r matches Err(ce) && ce.root@ == root && ce.cause == RootError::Unresolvable(e),
            Ok(p) => if p.is_dir {
                r matches Ok(fs) && fs.root_spec() == p.canonical@ && fs.behavior_spec() == symlink_behavior
            } else {
                r matches Err(ce) && ce.root@ == root && ce.cause == RootError::<E>::NotADirectory
            },
        }
    }

    /// A filesystem rooted at `root`, which `resolved` describes: the
    /// canonical form of `root`, where it could be found, and whether that is
    /// a directory.
    pub fn new_with_symlink_behavior<E>(
        root: &str,
        resolved: Result<RootProbe, E>,
        symlink_behavior: SymlinkBehavior,
    ) -> (r: Result<WinFS, ConstructionError<E>>)
        ensures
            Self::constructed(root@, resolved, symlink_behavior, r),
    {
        match resolved {
            Err(e) => Err(ConstructionError { root: root.to_owned(), cause: RootError::Unresolvable(e) }),
            Ok(p) => if p.is_dir {
                Ok(WinFS { root: p.canonical, symlink_behavior })
            } else {
                Err(ConstructionError { root: root.to_owned(), cause: RootError::NotADirectory })
            },
        }
    }

    /// The canonical root.
    pub fn root(&self) -> (r: &str)
        ensures
            r@ == self.root_spec(),
    {
        self.root.as_str()
    }

    pub fn symlink_behavior(&self) -> (r: SymlinkBehavior)
        ensures
            r == self.behavior_spec(),
    {
        self.symlink_behavior
    }

    /// Whether metadata queries follow a terminal symlink.
    pub fn follows_symlinks(&self) -> (r: bool)
        ensures
            r == self.follows_spec(),
    {
        match self.symlink_behavior {
            SymlinkBehavior::Oblivious => true,
            SymlinkBehavior::Aware => false,
        }
    }

    /// Where `rel` lies on disk: the root joined with it. A path that is
    /// not relative is refused, as it would leave the root.
    pub fn absolute_path<E>(&self, rel: &str) -> (r: Result<String, VfsError<E>>)
        ensures
            is_absolute_path(rel@) ==> (r matches Err(VfsError::NotRelative(p)) && p@ == rel@),
            !is_absolute_path(rel@) ==> (r matches Ok(p) && p@ == join_of(self.root_spec(), rel@)),
    {
        if is_absolute(rel) {
            Err(VfsError::NotRelative(rel.to_owned()))
        } else {
            Ok(join(self.root.as_str(), rel))
        }
    }

    /// The real path of `file`, to hand to another process.
    pub fn file_path<E>(&self, file: &File) -> (r: Result<String, VfsError<E>>)
        ensures
            is_absolute_path(file.path@) ==> (r matches Err(VfsError::NotRelative(p)) && p@ == file.path@),
            !is_absolute_path(file.path@) ==> (r matches Ok(p) && p@ == join_of(self.root_spec(), file.path@)),
    {
        self.absolute_path(file.path.as_str())
    }

    /// The target of the symlink `link`, given `raw`, what reading the link
    /// found: resolved against the link's parent directory, unless it is
    /// absolute.
    pub fn read_link<E>(&self, link: &Link, raw: Result<String, E>) -> (r: Result<String, VfsError<E>>)
        requires
            !is_absolute_path(link.path@),
        ensures
            match raw {
                Err(e) => r == Err::<String, VfsError<E>>(VfsError::Io(e)),
                Ok(t) => resolves_to(link.path@, t@, r),
            },
    {
        match raw {
            Err(e) => Err(VfsError::Io(e)),
            Ok(t) => match resolve_link_target(link.path.as_str(), t.as_str()) {
                Ok(p) => Ok(p),
                Err(PathError::AbsoluteSymlink(a)) => Err(VfsError::AbsoluteSymlink(a)),
                Err(PathError::OrphanSymlink(a)) => Err(VfsError::OrphanSymlink(a)),
            },
        }
    }

    /// The entry at `rel`, given `probe`, what the metadata query found (one
    /// that follows symlinks exactly when `follows_symlinks`). An entry
    /// that is gone is no error.
    pub fn stat_sync<E>(&self, rel: &str, probe: Probe<FileTypeFlags, E>) -> (r: Result<Option<Stat>, VfsError<E>>)
        requires
            !is_absolute_path(rel@),
        ensures
            probe is Missing ==> r == Ok::<Option<Stat>, VfsError<E>>(None),
            probe matches Probe::Failed(e) ==> r == Err::<Option<Stat>, VfsError<E>>(VfsError::Io(e)),
            probe matches Probe::Found(ft) ==> match metadata_kind(ft, self.follows_spec()) {
                None => r matches Err(VfsError::UnsupportedFileType(p)) && p@ == rel@,
                Some(k) => r matches Ok(Some(st)) && st.kind_spec() == k && st.path_spec()@ == rel@,
            },
    {
        match probe {
            Probe::Missing => Ok(None),
            Probe::Failed(e) => Err(VfsError::Io(e)),
            Probe::Found(ft) => match classify(ft, self.follows_symlinks()) {
                None => Err(VfsError::UnsupportedFileType(rel.to_owned())),
                Some(PathMetadataKind::File) => Ok(Some(Stat::File(File { path: rel.to_owned() }))),
                Some(PathMetadataKind::Directory) => Ok(Some(Stat::Dir(Dir { path: rel.to_owned() }))),
                Some(PathMetadataKind::Symlink) => Ok(Some(Stat::Link(Link { path: rel.to_owned() }))),
            },
        }
    }

    /// Whether a snapshot of an entry with metadata `raw` needs the link's
    /// target read.
    pub fn needs_symlink_target(&self, raw: &RawMetadata) -> (r: bool)
        ensures
            r == (metadata_kind(raw.file_type, self.follows_spec()) == Some(PathMetadataKind::Symlink)),
    {
        match classify(raw.file_type, self.follows_symlinks()) {
            Some(PathMetadataKind::Symlink) => true,
            _ => false,
        }
    }

    /// The snapshot of `path`, given `probe`, what the metadata query found
    /// (one that follows symlinks exactly when `follows_symlinks`), and,
    /// for a symlink, `target`, what reading the link found. An entry that
    /// is gone is no error.
    pub fn path_metadata<E>(
        &self,
        path: String,
        probe: Probe<RawMetadata, E>,
        target: Option<Result<String, E>>,
    ) -> (r: Result<Option<PathMetadata>, VfsError<E>>)
        requires
            !is_absolute_path(path@),
            probe matches Probe::Found(raw) && metadata_kind(raw.file_type, self.follows_spec())
                == Some(PathMetadataKind::Symlink) ==> target is Some,
        ensures
            r == metadata_result(self.follows_spec(), path, probe, target),
    {
        match probe {
            Probe::Missing => Ok(None),
            Probe::Failed(e) => Err(VfsError::Io(e)),
            Probe::Found(raw) => match classify(raw.file_type, self.follows_symlinks()) {
                None => Err(VfsError::UnsupportedFileType(path)),
                Some(PathMetadataKind::Symlink) => match target {
                    Some(Ok(t)) => Ok(Some(build_snapshot(path, &raw, PathMetadataKind::Symlink, Some(t)))),
                    Some(Err(e)) => Err(VfsError::TargetUnreadable(e)),
                    None => Err(VfsError::UnsupportedFileType(path)),
                },
                Some(k) => Ok(Some(build_snapshot(path, &raw, k, None))),
            },
        }
    }

    /// The listing of a directory, given `batch`, what the blocking scan of
    /// it found: each entry stat'd with the ignore rules' verdict, or the
    /// error that stopped it. A failed batch yields no partial listing.
    pub fn scandir<E>(&self, batch: Result<Vec<ScannedEntry>, VfsError<E>>) -> (r: Result<DirectoryListing, VfsError<E>>)
        ensures
            batch matches Err(e) ==> r == Err::<DirectoryListing, VfsError<E>>(VfsError::ScanFailed(Box::new(e))),
            batch matches Ok(entries) ==> (r matches Ok(l) && is_listing_of(l, entries@)),
    {
        match batch {
            Err(e) => Err(VfsError::ScanFailed(Box::new(e))),
            Ok(entries) => Ok(assemble_listing(&entries)),
        }
    }

    /// An error carrying `msg` alone.
    pub fn mk_error<E>(msg: &str) -> (r: VfsError<E>)
        ensures
            r matches VfsError::Other(m) && m@ == msg@,
    {
        VfsError::Other(msg.to_owned())
    }
}

} // verus!
