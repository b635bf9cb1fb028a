use vstd::prelude::*;
use vstd::multiset::Multiset;

verus! {

broadcast use vstd::seq_lib::group_to_multiset_ensures, vstd::multiset::group_multiset_axioms;

/// Strict order of names: lexicographic over characters, with a proper
/// prefix before the longer name.
pub open spec fn name_lt(a: Seq<char>, b: Seq<char>) -> bool
    decreases a.len(),
{
    if a.len() == 0 {
        b.len() > 0
    } else if b.len() == 0 {
        false
    } else if a[0] != b[0] {
        (a[0] as int) < (b[0] as int)
    } else {
        name_lt(a.drop_first(), b.drop_first())
    }
}

pub open spec fn name_le(a: Seq<char>, b: Seq<char>) -> bool {
    !name_lt(b, a)
}

/// Every name comes no later than the ones after it.
pub open spec fn names_sorted(s: Seq<String>) -> bool {
    forall|i: int, j: int| 0 <= i < j < s.len() ==> name_le(#[trigger] s[i]@, #[trigger] s[j]@)
}

proof fn lemma_lt_asymmetric(a: Seq<char>, b: Seq<char>)
    ensures
        name_lt(a, b) ==> !name_lt(b, a),
    decreases a.len(),
{
    if a.len() > 0 && b.len() > 0 && a[0] == b[0] {
        lemma_lt_asymmetric(a.drop_first(), b.drop_first());
    }
}

proof fn lemma_lt_total(a: Seq<char>, b: Seq<char>)
    ensures
        !name_lt(a, b) && !name_lt(b, a) ==> a == b,
    decreases a.len(),
{
    if a.len() == 0 && b.len() == 0 {
        assert(a =~= b);
    } else if a.len() > 0 && b.len() > 0 && a[0] == b[0] {
        lemma_lt_total(a.drop_first(), b.drop_first());
        if a.drop_first() == b.drop_first() {
            assert(a =~= seq![a[0]] + a.drop_first());
            assert(b =~= seq![b[0]] + b.drop_first());
        }
    } else if a.len() > 0 && b.len() > 0 {
        assert((a[0] as int) != (b[0] as int));
    }
}

proof fn lemma_lt_transitive(a: Seq<char>, b: Seq<char>, c: Seq<char>)
    ensures
        name_lt(a, b) && name_lt(b, c) ==> name_lt(a, c),
    decreases a.len(),
{
    if a.len() > 0 && b.len() > 0 && c.len() > 0 && a[0] == b[0] && b[0] == c[0] {
        lemma_lt_transitive(a.drop_first(), b.drop_first(), c.drop_first());
    }
}

proof fn lemma_le_transitive(a: Seq<char>, b: Seq<char>, c: Seq<char>)
    ensures
        name_le(a, b) && name_le(b, c) ==> name_le(a, c),
{
    lemma_lt_total(a, b);
    lemma_lt_transitive(c, a, b);
}

/// Relies on `str`'s `<`: strings compare lexicographically by their UTF-8
/// bytes, which orders them as their characters' code points do.
#[verifier::external_body]
fn str_less(a: &str, b: &str) -> (r: bool)
    ensures
        r == name_lt(a@, b@),
{
    a < b
}

/// The names in ascending order, as a permutation of the input.
pub fn sort_names(v: Vec<String>) -> (r: Vec<String>)
    ensures
        r@.to_multiset() =~= v@.to_multiset(),
        names_sorted(r@),
{
    let mut out: Vec<String> = Vec::new();
    let mut i: usize = 0;
    proof {
        assert(v@.take(0) =~= out@);
    }
    while i < v.len()
        invariant
            i <= v.len(),
            out@.to_multiset() =~= v@.take(i as int).to_multiset(),
            names_sorted(out@),
        decreases v.len() - i,
    {
        let x = v[i].clone();
        let mut k: usize = 0;
        while k < out.len() && !str_less(x.as_str(), out[k].as_str())
            invariant
                k <= out.len(),
                forall|m: int| 0 <= m < k ==> name_le(#[trigger] out@[m]@, x@),
            decreases out.len() - k,
        {
            k = k + 1;
        }
        proof {
            if k < out.len() {
                lemma_lt_asymmetric(x@, out@[k as int]@);
                assert forall|j: int| k <= j < out.len() implies name_le(x@, #[trigger] out@[j]@) by {
                    lemma_le_transitive(x@, out@[k as int]@, out@[j]@);
                }
            }
            vstd::seq_lib::to_multiset_insert(out@, k as int, x);
            assert(v@.take(i + 1) =~= v@.take(i as int).push(v@[i as int]));
            v@.take(i as int).to_multiset_ensures();
        }
        let ghost prev = out@;
        out.insert(k, x);
        proof {
            prev.insert_ensures(k as int, x);
            assert forall|a: int, b: int| 0 <= a < b < out@.len() implies name_le(
                #[trigger] out@[a]@,
                #[trigger] out@[b]@,
            ) by {
                if a < k && b > k {
                    lemma_le_transitive(out@[a]@, x@, out@[b]@);
                }
            }
        }
        i = i + 1;
    }
    assert(v@.take(v.len() as int) =~= v@);
    out
}

/// The kind of a filesystem entry.
#[derive(Clone, Copy, Debug, PartialEq, Eq, Structural)]
pub enum PathMetadataKind {
    File,
    Directory,
    Symlink,
}

/// A regular file, by its path relative to the root.
#[derive(Clone, Debug)]
pub struct File {
    pub path: String,
}

/// A directory, by its path relative to the root.
#[derive(Clone, Debug)]
pub struct Dir {
    pub path: String,
}

/// A symbolic link, by its path relative to the root.
#[derive(Clone, Debug)]
pub struct Link {
    pub path: String,
}

/// One entry of the filesystem, tagged by kind.
#[derive(Clone, Debug)]
pub enum Stat {
    File(File),
    Dir(Dir),
    Link(Link),
}

impl Stat {
    pub open spec fn kind_spec(&self) -> PathMetadataKind {
        match self {
            Stat::File(_) => PathMetadataKind::File,
            Stat::Dir(_) => PathMetadataKind::Directory,
            Stat::Link(_) => PathMetadataKind::Symlink,
        }
    }

    pub open spec fn path_spec(&self) -> String {
        match self {
            Stat::File(f) => f.path,
            Stat::Dir(d) => d.path,
            Stat::Link(l) => l.path,
        }
    }

    /// The entry's path relative to the root.
    pub fn path(&self) -> (r: &String)
        ensures
            *r == self.path_spec(),
    {
        match self {
            Stat::File(f) => &f.path,
            Stat::Dir(d) => &d.path,
            Stat::Link(l) => &l.path,
        }
    }

    /// The entry's kind.
    pub fn kind(&self) -> (r: PathMetadataKind)
        ensures
            r == self.kind_spec(),
    {
        match self {
            Stat::File(_) => PathMetadataKind::File,
            Stat::Dir(_) => PathMetadataKind::Directory,
            Stat::Link(_) => PathMetadataKind::Symlink,
        }
    }
}

/// An entry found in a directory, with the ignore rules' verdict on it.
#[derive(Clone, Debug)]
pub struct ScannedEntry {
    pub stat: Stat,
    pub ignored: bool,
}

/// The contents of one directory, split by kind, each part ordered by name.
#[derive(Clone, Debug)]
pub struct DirectoryListing {
    pub files: Vec<File>,
    pub directories: Vec<Dir>,
    pub symlinks: Vec<Link>,
}

/// The paths of the entries of kind `k` that the ignore rules keep.
pub open spec fn kept_names(s: Seq<ScannedEntry>, k: PathMetadataKind) -> Multiset<String>
    decreases s.len(),
{
    if s.len() == 0 {
        Multiset::empty()
    } else {
        let rest = kept_names(s.drop_last(), k);
        let e = s.last();
        if !e.ignored && e.stat.kind_spec() == k {
            rest.insert(e.stat.path_spec())
        } else {
            rest
        }
    }
}

pub open spec fn file_names(s: Seq<File>) -> Seq<String> {
    s.map_values(|f: File| f.path)
}

pub open spec fn dir_names(s: Seq<Dir>) -> Seq<String> {
    s.map_values(|d: Dir| d.path)
}

pub open spec fn link_names(s: Seq<Link>) -> Seq<String> {
    s.map_values(|l: Link| l.path)
}

/// `names` holds, in name order, exactly the kept entries of kind `k`.
pub open spec fn lists_kept(names: Seq<String>, entries: Seq<ScannedEntry>, k: PathMetadataKind) -> bool {
    &&& names.to_multiset() == kept_names(entries, k)
    &&& names_sorted(names)
}

/// What a listing of `entries` is: each kind's kept entries, ordered by name.
pub open spec fn is_listing_of(l: DirectoryListing, entries: Seq<ScannedEntry>) -> bool {
    &&& lists_kept(file_names(l.files@), entries, PathMetadataKind::File)
    &&& lists_kept(dir_names(l.directories@), entries, PathMetadataKind::Directory)
    &&& lists_kept(link_names(l.symlinks@), entries, PathMetadataKind::Symlink)
}

/// A name that is kept comes from an entry of that kind that is not ignored.
pub proof fn lemma_kept_name_has_entry(s: Seq<ScannedEntry>, k: PathMetadataKind, n: String)
    requires
        kept_names(s, k).count(n) > 0,
    ensures
        exists|j: int|
            0 <= j < s.len() && !(#[trigger] s[j]).ignored && s[j].stat.kind_spec() == k
                && s[j].stat.path_spec() == n,
    decreases s.len(),
{
    let e = s.last();
    if !e.ignored && e.stat.kind_spec() == k && e.stat.path_spec() == n {
        assert(s[s.len() - 1] == e);
    } else {
        lemma_kept_name_has_entry(s.drop_last(), k, n);
        let j = choose|j: int|
            0 <= j < s.drop_last().len() && !(#[trigger] s.drop_last()[j]).ignored
                && s.drop_last()[j].stat.kind_spec() == k && s.drop_last()[j].stat.path_spec() == n;
        assert(s[j] == s.drop_last()[j]);
    }
}

proof fn lemma_kept_step(s: Seq<ScannedEntry>, i: int, k: PathMetadataKind)
    requires
        0 <= i < s.len(),
    ensures
        kept_names(s.take(i + 1), k) == if !s[i].ignored && s[i].stat.kind_spec() == k {
            kept_names(s.take(i), k).insert(s[i].stat.path_spec())
        } else {
            kept_names(s.take(i), k)
        },
{
    assert(s.take(i + 1).drop_last() =~= s.take(i));
}

/// Drops the ignored entries, splits the rest by kind and orders each part
/// by name.
pub fn assemble_listing(entries: &Vec<ScannedEntry>) -> (r: DirectoryListing)
    ensures
        is_listing_of(r, entries@),
{
    let mut files: Vec<String> = Vec::new();
    let mut dirs: Vec<String> = Vec::new();
    let mut links: Vec<String> = Vec::new();
    let mut i: usize = 0;
    proof {
        assert(entries@.take(0).len() == 0);
    }
    while i < entries.len()
        invariant
            i <= entries.len(),
            files@.to_multiset() == kept_names(entries@.take(i as int), PathMetadataKind::File),
            dirs@.to_multiset() == kept_names(entries@.take(i as int), PathMetadataKind::Directory),
            links@.to_multiset() == kept_names(entries@.take(i as int), PathMetadataKind::Symlink),
        decreases entries.len() - i,
    {
        proof {
            lemma_kept_step(entries@, i as int, PathMetadataKind::File);
            lemma_kept_step(entries@, i as int, PathMetadataKind::Directory);
            lemma_kept_step(entries@, i as int, PathMetadataKind::Symlink);
        }
        let e = &entries[i];
        if !e.ignored {
            match &e.stat {
                Stat::File(f) => files.push(f.path.clone()),
                Stat::Dir(d) => dirs.push(d.path.clone()),
                Stat::Link(l) => links.push(l.path.clone()),
            }
        }
        i = i + 1;
    }
    proof {
        assert(entries@.take(entries.len() as int) =~= entries@);
    }
    let files = sort_names(files);
    let dirs = sort_names(dirs);
    let links = sort_names(links);

    let mut out_files: Vec<File> = Vec::new();
    let mut k: usize = 0;
    while k < files.len()
        invariant
            k <= files.len(),
            out_files@.len() == k,
            file_names(out_files@) =~= files@.take(k as int),
        decreases files.len() - k,
    {
        let ghost prev = out_files@;
        out_files.push(File { path: files[k].clone() });
        proof {
            assert forall|j: int| 0 <= j < k implies #[trigger] out_files@[j] == prev[j] by {}
            assert(file_names(prev) =~= files@.take(k as int));
            assert(file_names(out_files@) =~= files@.take(k + 1)) by {
                assert forall|j: int| 0 <= j < k implies file_names(out_files@)[j] == file_names(prev)[j] by {}
            }
        }
        k = k + 1;
    }
    let mut out_dirs: Vec<Dir> = Vec::new();
    let mut k: usize = 0;
    while k < dirs.len()
        invariant
            k <= dirs.len(),
            out_dirs@.len() == k,
            dir_names(out_dirs@) =~= dirs@.take(k as int),
        decreases dirs.len() - k,
    {
        let ghost prev = out_dirs@;
        out_dirs.push(Dir { path: dirs[k].clone() });
        proof {
            assert forall|j: int| 0 <= j < k implies #[trigger] out_dirs@[j] == prev[j] by {}
            assert(dir_names(prev) =~= dirs@.take(k as int));
            assert(dir_names(out_dirs@) =~= dirs@.take(k + 1)) by {
                assert forall|j: int| 0 <= j < k implies dir_names(out_dirs@)[j] == dir_names(prev)[j] by {}
            }
        }
        k = k + 1;
    }
    let mut out_links: Vec<Link> = Vec::new();
    let mut k: usize = 0;
    while k < links.len()
        invariant
            k <= links.len(),
            out_links@.len() == k,
            link_names(out_links@) =~= links@.take(k as int),
        decreases links.len() - k,
    {
        let ghost prev = out_links@;
        out_links.push(Link { path: links[k].clone() });
        proof {
            assert forall|j: int| 0 <= j < k implies #[trigger] out_links@[j] == prev[j] by {}
            assert(link_names(prev) =~= links@.take(k as int));
            assert(link_names(out_links@) =~= links@.take(k + 1)) by {
                assert forall|j: int| 0 <= j < k implies link_names(out_links@)[j] == link_names(prev)[j] by {}
            }
        }
        k = k + 1;
    }
    proof {
        assert(files@.take(files.len() as int) =~= files@);
        assert(dirs@.take(dirs.len() as int) =~= dirs@);
        assert(links@.take(links.len() as int) =~= links@);
    }
    DirectoryListing { files: out_files, directories: out_dirs, symlinks: out_links }
}

} // verus!
