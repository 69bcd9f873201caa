//! Validation of paths entered by the operator, and file names taken from paths.
use vstd::prelude::*;

verus! {

/// What a path on disk turned out to be.
#[derive(Clone, Copy, Debug, PartialEq, Eq)]
pub enum PathKind {
    Missing,
    File,
    Directory,
    Other,
}

/// What the operation that asked for a path needs it to be.
#[derive(Clone, Copy, Debug, PartialEq, Eq)]
pub enum PathNeed {
    Existing,
    File,
    Directory,
}

/// Why an entered path was refused.
#[derive(Clone, Copy, Debug, PartialEq, Eq)]
pub enum PathError {
    DoesNotExist,
    NotAFile,
    NotADirectory,
}

/// Accepts `path` when what it names on disk (`kind`) is what `need` asks for.
pub fn check_path(path: String, kind: PathKind, need: PathNeed) -> (r: Result<String, PathError>)
    ensures
        kind == PathKind::Missing ==> r == Err::<String, PathError>(PathError::DoesNotExist),
        kind != PathKind::Missing && need == PathNeed::File && kind != PathKind::File ==> r == Err::<
            String,
            PathError,
        >(PathError::NotAFile),
        kind != PathKind::Missing && need == PathNeed::Directory && kind != PathKind::Directory
            ==> r == Err::<String, PathError>(PathError::NotADirectory),
        r is Ok <==> (kind != PathKind::Missing && (need == PathNeed::File ==> kind == PathKind::File)
            && (need == PathNeed::Directory ==> kind == PathKind::Directory)),
        r matches Ok(p) ==> p@ == path@,
{
    match (kind, need) {
        (PathKind::Missing, _) => Err(PathError::DoesNotExist),
        (PathKind::File, PathNeed::Directory) => Err(PathError::NotADirectory),
        (PathKind::Directory, PathNeed::File) => Err(PathError::NotAFile),
        (PathKind::Other, PathNeed::File) => Err(PathError::NotAFile),
        (PathKind::Other, PathNeed::Directory) => Err(PathError::NotADirectory),
        _ => Ok(path),
    }
}

pub open spec fn is_separator(c: char) -> bool {
    c == '/' || c == '\\'
}

/// `name` is what follows the last separator of `path` (all of it when there is none).
pub open spec fn is_name_of(path: Seq<char>, name: Seq<char>) -> bool {
    exists|k: int|
        0 <= k <= path.len() && name == path.subrange(k, path.len() as int) && (k == 0
            || is_separator(path[k - 1])) && forall|i: int|
            k <= i < path.len() ==> !is_separator(#[trigger] path[i])
}

/// The last component of `path`, after its last `/` or `\`.
pub fn get_name_from_path(path: &str) -> (r: &str)
    ensures
        is_name_of(path@, r@),
{
    let len = path.unicode_len();
    let mut p: usize = len;
    while p > 0
        invariant
            0 <= p <= len,
            len == path@.len(),
            forall|i: int| p <= i < len ==> !is_separator(#[trigger] path@[i]),
        ensures
            0 <= p <= len,
            p == 0 || is_separator(path@[p - 1]),
            forall|i: int| p <= i < len ==> !is_separator(#[trigger] path@[i]),
        decreases p,
    {
        let c = path.get_char(p - 1);
        if c == '/' || c == '\\' {
            break;
        }
        p = p - 1;
    }
    let r = path.substring_char(p, len);
    assert(is_name_of(path@, r@)) by {
        let k = p as int;
        assert(0 <= k <= path@.len() && r@ == path@.subrange(k, path@.len() as int));
        assert(k == 0 || is_separator(path@[k - 1]));
    }
    r
}

} // verus!
