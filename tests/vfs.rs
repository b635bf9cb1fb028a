use rooted_vfs::listing::{
    assemble_listing, sort_names, DirectoryListing, File, Link, PathMetadataKind, ScannedEntry,
    Stat,
};
use rooted_vfs::metadata::{
    classify, executable_from_mode, mode_is_executable, FileTypeFlags, RawMetadata,
    SymlinkBehavior, Timestamp,
};
use rooted_vfs::path::{is_absolute, join, resolve_link_target, PathError};
use rooted_vfs::vfs::{Probe, RootError, RootProbe, VfsError, WinFS};

fn repo() -> WinFS {
    let probe: Result<RootProbe, String> =
        Ok(RootProbe { canonical: "/repo".to_string(), is_dir: true });
    WinFS::new("/repo", probe).ok().unwrap()
}

fn oblivious_repo() -> WinFS {
    let probe: Result<RootProbe, String> =
        Ok(RootProbe { canonical: "/repo".to_string(), is_dir: true });
    WinFS::new_with_symlink_behavior("/repo", probe, SymlinkBehavior::Oblivious).ok().unwrap()
}

const SYMLINK: FileTypeFlags = FileTypeFlags { is_symlink: true, is_dir: false, is_file: false };
const REGULAR: FileTypeFlags = FileTypeFlags { is_symlink: false, is_dir: false, is_file: true };
const DIRECTORY: FileTypeFlags = FileTypeFlags { is_symlink: false, is_dir: true, is_file: false };

fn raw(file_type: FileTypeFlags, len: u64, mode: Option<u32>) -> RawMetadata {
    RawMetadata {
        file_type,
        len,
        mode,
        accessed: Some(Timestamp { secs: 100, nanos: 5 }),
        created: None,
        modified: Some(Timestamp { secs: 200, nanos: 0 }),
    }
}

fn entry(stat: Stat, ignored: bool) -> ScannedEntry {
    ScannedEntry { stat, ignored }
}

fn file(p: &str) -> Stat {
    Stat::File(File { path: p.to_string() })
}

fn link(p: &str) -> Stat {
    Stat::Link(Link { path: p.to_string() })
}

fn dir(p: &str) -> Stat {
    Stat::Dir(rooted_vfs::listing::Dir { path: p.to_string() })
}

fn paths_of(l: &DirectoryListing) -> (Vec<String>, Vec<String>, Vec<String>) {
    (
        l.files.iter().map(|f| f.path.clone()).collect(),
        l.directories.iter().map(|d| d.path.clone()).collect(),
        l.symlinks.iter().map(|s| s.path.clone()).collect(),
    )
}

#[test]
fn root_is_the_canonical_form() {
    let probe: Result<RootProbe, String> =
        Ok(RootProbe { canonical: "/real/repo".to_string(), is_dir: true });
    let fs = WinFS::new("./repo/../repo", probe).ok().unwrap();
    assert_eq!(fs.root(), "/real/repo");
    assert_eq!(fs.symlink_behavior(), SymlinkBehavior::Aware);
    assert!(!fs.follows_symlinks());
    assert!(oblivious_repo().follows_symlinks());
}

#[test]
fn root_that_cannot_be_resolved_is_refused() {
    let probe: Result<RootProbe, String> = Err("no such file".to_string());
    let err = WinFS::new("/missing", probe).err().unwrap();
    assert_eq!(err.root, "/missing");
    assert!(matches!(err.cause, RootError::Unresolvable(ref e) if e == "no such file"));
}

#[test]
fn root_that_is_not_a_directory_is_refused() {
    let probe: Result<RootProbe, String> =
        Ok(RootProbe { canonical: "/repo/a.txt".to_string(), is_dir: false });
    let err = WinFS::new("a.txt", probe).err().unwrap();
    assert_eq!(err.root, "a.txt");
    assert!(matches!(err.cause, RootError::NotADirectory));
}

#[test]
fn absolute_paths_are_recognised() {
    assert!(is_absolute("/etc/passwd"));
    assert!(!is_absolute("etc/passwd"));
    assert!(!is_absolute(""));
    assert_eq!(join("/repo", "a.txt"), "/repo/a.txt");
    assert_eq!(join("", "a.txt"), "a.txt");
}

#[test]
fn read_link_refuses_absolute_target() {
    let fs = repo();
    let l = Link { path: "deep/in/tree/link".to_string() };
    let r = fs.read_link(&l, Ok::<String, String>("/etc/passwd".to_string()));
    assert!(matches!(r, Err(VfsError::AbsoluteSymlink(ref t)) if t == "/etc/passwd"));
    let r = resolve_link_target("link", "/etc/passwd");
    assert!(matches!(r, Err(PathError::AbsoluteSymlink(ref t)) if t == "/etc/passwd"));
}

#[test]
fn read_link_joins_relative_target_onto_parent() {
    let fs = repo();
    let l = Link { path: "sub/link".to_string() };
    let r = fs.read_link(&l, Ok::<String, String>("../shared/data.txt".to_string()));
    assert_eq!(r.ok().unwrap(), "sub/../shared/data.txt");
    let top = Link { path: "link".to_string() };
    let r = fs.read_link(&top, Ok::<String, String>("a.txt".to_string()));
    assert_eq!(r.ok().unwrap(), "a.txt");
}

#[test]
fn read_link_without_parent_is_orphan() {
    let r = resolve_link_target("", "a.txt");
    assert!(matches!(r, Err(PathError::OrphanSymlink(ref t)) if t == "a.txt"));
}

#[test]
fn read_link_passes_read_error_on() {
    let fs = repo();
    let l = Link { path: "link".to_string() };
    let r = fs.read_link(&l, Err::<String, String>("denied".to_string()));
    assert!(matches!(r, Err(VfsError::Io(ref e)) if e == "denied"));
}

#[test]
fn missing_entry_is_absent_not_an_error() {
    let fs = repo();
    let r = fs.stat_sync("gone.txt", Probe::<FileTypeFlags, String>::Missing);
    assert!(matches!(r, Ok(None)));
    let r = fs.path_metadata("gone.txt".to_string(), Probe::<RawMetadata, String>::Missing, None);
    assert!(matches!(r, Ok(None)));
}

#[test]
fn other_errors_propagate() {
    let fs = repo();
    let r = fs.stat_sync("a.txt", Probe::<FileTypeFlags, String>::Failed("denied".to_string()));
    assert!(matches!(r, Err(VfsError::Io(ref e)) if e == "denied"));
    let r = fs.path_metadata(
        "a.txt".to_string(),
        Probe::<RawMetadata, String>::Failed("denied".to_string()),
        None,
    );
    assert!(matches!(r, Err(VfsError::Io(ref e)) if e == "denied"));
}

#[test]
fn stat_reports_each_kind() {
    let fs = repo();
    let r = fs.stat_sync("a.txt", Probe::<FileTypeFlags, String>::Found(REGULAR)).ok().unwrap().unwrap();
    assert!(matches!(r, Stat::File(ref f) if f.path == "a.txt"));
    let r = fs.stat_sync("d", Probe::<FileTypeFlags, String>::Found(DIRECTORY)).ok().unwrap().unwrap();
    assert!(matches!(r, Stat::Dir(ref d) if d.path == "d"));
    let r = fs.stat_sync("link", Probe::<FileTypeFlags, String>::Found(SYMLINK)).ok().unwrap().unwrap();
    assert_eq!(r.kind(), PathMetadataKind::Symlink);
    assert_eq!(r.path(), "link");
    let odd = FileTypeFlags { is_symlink: false, is_dir: false, is_file: false };
    let r = fs.stat_sync("fifo", Probe::<FileTypeFlags, String>::Found(odd));
    assert!(matches!(r, Err(VfsError::UnsupportedFileType(ref p)) if p == "fifo"));
}

#[test]
fn classification_prefers_symlink_then_directory() {
    let all = FileTypeFlags { is_symlink: true, is_dir: true, is_file: true };
    assert_eq!(classify(all, false), Some(PathMetadataKind::Symlink));
    assert_eq!(classify(all, true), Some(PathMetadataKind::Directory));
    let both = FileTypeFlags { is_symlink: false, is_dir: true, is_file: true };
    assert_eq!(classify(both, false), Some(PathMetadataKind::Directory));
    assert_eq!(classify(REGULAR, false), Some(PathMetadataKind::File));
}

#[test]
fn execute_bits() {
    assert!(!mode_is_executable(0o644));
    assert!(mode_is_executable(0o755));
    assert!(!mode_is_executable(0o100644));
    assert!(mode_is_executable(0o100755));
    assert!(mode_is_executable(0o001));
    assert!(mode_is_executable(0o010));
    assert!(!mode_is_executable(0o666));
    assert_eq!(executable_from_mode(Some(0o700)), Some(true));
    assert_eq!(executable_from_mode(Some(0o600)), Some(false));
    assert_eq!(executable_from_mode(None), None);
}

#[test]
fn metadata_without_permission_bits_has_no_executable_flag() {
    let fs = repo();
    let m = fs
        .path_metadata("a.txt".to_string(), Probe::<RawMetadata, String>::Found(raw(REGULAR, 3, None)), None)
        .ok()
        .unwrap()
        .unwrap();
    assert_eq!(m.is_executable, None);
    assert_eq!(m.unix_mode, None);
}

#[test]
fn aware_symlink_metadata_has_target() {
    let fs = repo();
    let raw_link = raw(SYMLINK, 5, Some(0o120777));
    assert!(fs.needs_symlink_target(&raw_link));
    let m = fs
        .path_metadata(
            "link".to_string(),
            Probe::<RawMetadata, String>::Found(raw_link),
            Some(Ok("a.txt".to_string())),
        )
        .ok()
        .unwrap()
        .unwrap();
    assert_eq!(m.kind, PathMetadataKind::Symlink);
    assert_eq!(m.symlink_target, Some("a.txt".to_string()));
}

#[test]
fn oblivious_symlink_metadata_reports_target_kind() {
    let fs = oblivious_repo();
    let followed = FileTypeFlags { is_symlink: true, is_dir: false, is_file: true };
    assert!(!fs.needs_symlink_target(&raw(followed, 10, Some(0o644))));
    let m = fs
        .path_metadata("link".to_string(), Probe::<RawMetadata, String>::Found(raw(followed, 10, Some(0o644))), None)
        .ok()
        .unwrap()
        .unwrap();
    assert_eq!(m.kind, PathMetadataKind::File);
    assert_eq!(m.symlink_target, None);
}

#[test]
fn unreadable_symlink_target_is_an_error() {
    let fs = repo();
    let r = fs.path_metadata(
        "link".to_string(),
        Probe::<RawMetadata, String>::Found(raw(SYMLINK, 5, Some(0o777))),
        Some(Err("vanished".to_string())),
    );
    assert!(matches!(r, Err(VfsError::TargetUnreadable(ref e)) if e == "vanished"));
}

#[test]
fn end_to_end_repo_scenario() {
    let fs = repo();
    let entries = vec![entry(link("link"), false), entry(file("a.txt"), false)];
    let listing = fs.scandir(Ok::<Vec<ScannedEntry>, VfsError<String>>(entries)).ok().unwrap();
    let (files, dirs, links) = paths_of(&listing);
    assert_eq!(files, vec!["a.txt".to_string()]);
    assert!(dirs.is_empty());
    assert_eq!(links, vec!["link".to_string()]);

    let m = fs
        .path_metadata(
            "link".to_string(),
            Probe::<RawMetadata, String>::Found(raw(SYMLINK, 5, Some(0o120777))),
            Some(Ok("a.txt".to_string())),
        )
        .ok()
        .unwrap()
        .unwrap();
    assert_eq!(m.kind, PathMetadataKind::Symlink);
    assert_eq!(m.symlink_target, Some("a.txt".to_string()));

    let m = fs
        .path_metadata("a.txt".to_string(), Probe::<RawMetadata, String>::Found(raw(REGULAR, 10, Some(0o100644))), None)
        .ok()
        .unwrap()
        .unwrap();
    assert_eq!(m.path, "a.txt");
    assert_eq!(m.kind, PathMetadataKind::File);
    assert_eq!(m.length, 10);
    assert_eq!(m.is_executable, Some(false));
    assert_eq!(m.unix_mode, Some(0o100644));
    assert_eq!(m.accessed, Some(Timestamp { secs: 100, nanos: 5 }));
    assert_eq!(m.created, None);
    assert_eq!(m.symlink_target, None);
}

#[test]
fn end_to_end_absolute_link_scenario() {
    let fs = repo();
    let l = Link { path: "link".to_string() };
    let r = fs.read_link(&l, Ok::<String, String>("/etc/passwd".to_string()));
    assert!(matches!(r, Err(VfsError::AbsoluteSymlink(ref t)) if t == "/etc/passwd"));
}

#[test]
fn scandir_drops_ignored_entries() {
    let fs = repo();
    let entries = vec![
        entry(file("keep.rs"), false),
        entry(file("target.log"), true),
        entry(dir("node_modules"), true),
        entry(dir("src"), false),
        entry(link("ignored_link"), true),
    ];
    let listing = fs.scandir(Ok::<Vec<ScannedEntry>, VfsError<String>>(entries)).ok().unwrap();
    let (files, dirs, links) = paths_of(&listing);
    assert_eq!(files, vec!["keep.rs".to_string()]);
    assert_eq!(dirs, vec!["src".to_string()]);
    assert!(links.is_empty());
}

#[test]
fn scandir_orders_each_kind_by_name() {
    let entries = vec![
        entry(file("b"), false),
        entry(dir("z"), false),
        entry(file("ab"), false),
        entry(file("B"), false),
        entry(dir("m"), false),
        entry(file("a"), false),
    ];
    let listing = assemble_listing(&entries);
    let (files, dirs, _) = paths_of(&listing);
    assert_eq!(files, vec!["B", "a", "ab", "b"]);
    assert_eq!(dirs, vec!["m", "z"]);
}

#[test]
fn scandir_of_empty_directory() {
    let listing = assemble_listing(&Vec::new());
    assert!(listing.files.is_empty() && listing.directories.is_empty() && listing.symlinks.is_empty());
}

#[test]
fn sort_names_keeps_duplicates() {
    let v = vec!["c".to_string(), "a".to_string(), "c".to_string(), "é".to_string(), "z".to_string()];
    assert_eq!(sort_names(v), vec!["a", "c", "c", "z", "é"]);
}

#[test]
fn failed_scan_is_wrapped() {
    let fs = repo();
    let r = fs.scandir(Err::<Vec<ScannedEntry>, VfsError<String>>(VfsError::Io("boom".to_string())));
    match r {
        Err(VfsError::ScanFailed(inner)) => assert!(matches!(*inner, VfsError::Io(ref e) if e == "boom")),
        _ => panic!("expected a wrapped scan failure"),
    }
}

#[test]
fn file_path_joins_onto_root() {
    let fs = repo();
    let p = fs.file_path::<String>(&File { path: "src/a.txt".to_string() });
    assert_eq!(p.ok().unwrap(), "/repo/src/a.txt");
    let p = fs.file_path::<String>(&File { path: "/etc/passwd".to_string() });
    assert!(matches!(p, Err(VfsError::NotRelative(ref s)) if s == "/etc/passwd"));
    let p = fs.absolute_path::<String>("link");
    assert_eq!(p.ok().unwrap(), "/repo/link");
}

#[test]
fn mk_error_carries_message() {
    let e = WinFS::mk_error::<String>("bad input");
    assert!(matches!(e, VfsError::Other(ref m) if m == "bad input"));
}
