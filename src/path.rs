use vstd::prelude::*;

verus! {

/// A path is absolute when it starts at the root separator.
pub open spec fn is_absolute_path(p: Seq<char>) -> bool {
    p.len() > 0 && p[0] == '/'
}

/// Relies on `std::path::Path::is_absolute`: on Unix a path is absolute
/// exactly when it has a root, that is when it begins with `/`.
#[verifier::external_body]
fn path_is_absolute(p: &str) -> (r: bool)
    ensures
        r == is_absolute_path(p@),
{
    std::path::Path::new(p).is_absolute()
}

/// What `Path::parent` returns for a path: the path without its last
/// component, or `None` where the path ends in a root or is empty.
pub uninterp spec fn parent_of(p: Seq<char>) -> Option<Seq<char>>;

/// What `Path::join` returns for a base and a tail.
pub uninterp spec fn join_of(base: Seq<char>, tail: Seq<char>) -> Seq<char>;

/// Relies on `std::path::Path::parent`, which yields no parent for the
/// empty path.
#[verifier::external_body]
fn path_parent(p: &str) -> (r: Option<String>)
    ensures
        r matches Some(q) ==> parent_of(p@) == Some(q@),
        r is None ==> parent_of(p@) is None,
        p@.len() == 0 ==> r is None,
{
    std::path::Path::new(p).parent().map(|q| q.to_string_lossy().into_owned())
}

/// Relies on `std::path::Path::join`, which appends `tail` to `base`.
#[verifier::external_body]
fn path_join(base: &str, tail: &str) -> (r: String)
    ensures
        r@ == join_of(base@, tail@),
{
    std::path::Path::new(base).join(tail).to_string_lossy().into_owned()
}

/// Whether `p` is an absolute path.
pub fn is_absolute(p: &str) -> (r: bool)
    ensures
        r == is_absolute_path(p@),
{
    path_is_absolute(p)
}

/// `base` joined with `tail`.
pub fn join(base: &str, tail: &str) -> (r: String)
    ensures
        r@ == join_of(base@, tail@),
{
    path_join(base, tail)
}

/// Why a symlink's target was refused.
pub enum PathError {
    /// The link's raw target is an absolute path, which could name
    /// anything outside the root.
    AbsoluteSymlink(String),
    /// The link's own path has no parent to resolve the target against.
    OrphanSymlink(String),
}

/// Resolves the raw target of the symlink at `link` (relative to the root)
/// against the link's parent directory. The result is not checked against
/// the filesystem and may name a path that does not exist.
pub fn resolve_link_target(link: &str, target: &str) -> (r: Result<String, PathError>)
    ensures
        is_absolute_path(target@) ==> (r matches Err(PathError::AbsoluteSymlink(t)) && t@ == target@),
        !is_absolute_path(target@) && parent_of(link@) is None ==>
            (r matches Err(PathError::OrphanSymlink(t)) && t@ == target@),
        !is_absolute_path(target@) && parent_of(link@) is Some ==>
            (r matches Ok(p) && p@ == join_of(parent_of(link@)->Some_0, target@)),
{
    if is_absolute(target) {
        return Err(PathError::AbsoluteSymlink(target.to_owned()));
    }
    match path_parent(link) {
        Some(parent) => Ok(join(parent.as_str(), target)),
        None => Err(PathError::OrphanSymlink(target.to_owned())),
    }
}

} // verus!
