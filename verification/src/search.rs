//! The executable search path: how its value splits into directories, how a
//! directory and a program name join into a path, and which of the paths so
//! formed is the first that exists.

use vstd::prelude::*;

verus! {

/// The byte that parts the directories of a search path, a colon.
pub const PATH_SEPARATOR: u8 = 58;

/// The byte that parts the components of a path, a slash.
pub const DIRECTORY_SEPARATOR: u8 = 47;

/// The byte strings that a vector of byte vectors holds.
pub open spec fn contents(items: Seq<Vec<u8>>) -> Seq<Seq<u8>> {
    Seq::new(items.len(), |i: int| items[i]@)
}

/// The bytes of an optional byte vector.
pub open spec fn bytes_of(value: Option<Vec<u8>>) -> Option<Seq<u8>> {
    match value {
        Some(bytes) => Some(bytes@),
        None => None,
    }
}

/// How many bytes stand before the first separator of `path`: all of them
/// where it holds none.
pub open spec fn first_directory_len(path: Seq<u8>) -> nat
    decreases path.len(),
{
    if path.len() == 0 || path[0] == PATH_SEPARATOR {
        0
    } else {
        1 + first_directory_len(path.skip(1))
    }
}

/// The directories that a search path lists, in their order: the stretches
/// between its separators. A stretch of no bytes, between two separators or
/// at either end of the path, is a directory too, the empty one.
pub open spec fn directories(path: Seq<u8>) -> Seq<Seq<u8>>
    decreases path.len(),
{
    let n = first_directory_len(path) as int;
    if n >= path.len() {
        seq![path]
    } else {
        seq![path.take(n)] + directories(path.skip(n + 1))
    }
}

/// The directories, with a separator between each two of them.
pub open spec fn rejoined(dirs: Seq<Seq<u8>>) -> Seq<u8>
    decreases dirs.len(),
{
    if dirs.len() == 0 {
        Seq::empty()
    } else if dirs.len() == 1 {
        dirs[0]
    } else {
        dirs[0] + seq![PATH_SEPARATOR] + rejoined(dirs.skip(1))
    }
}

/// The path of `name` inside `directory`. A name that starts at the root
/// stands for itself; otherwise the name follows the directory, after a
/// slash where the directory is not empty and does not end in one.
pub open spec fn joined(directory: Seq<u8>, name: Seq<u8>) -> Seq<u8> {
    if name.len() > 0 && name[0] == DIRECTORY_SEPARATOR {
        name
    } else if directory.len() == 0 || directory.last() == DIRECTORY_SEPARATOR {
        directory + name
    } else {
        directory + seq![DIRECTORY_SEPARATOR] + name
    }
}

/// The paths at which a search for `name` looks, in the order of the
/// directories that `path` lists.
pub open spec fn candidates(path: Seq<u8>, name: Seq<u8>) -> Seq<Seq<u8>> {
    let dirs = directories(path);
    Seq::new(dirs.len(), |i: int| joined(dirs[i], name))
}

/// Whether `candidates[i]` exists and no candidate before it does.
pub open spec fn is_first_existing(
    candidates: Seq<Seq<u8>>,
    existing: Seq<Seq<u8>>,
    i: int,
) -> bool {
    &&& 0 <= i < candidates.len()
    &&& existing.contains(candidates[i])
    &&& forall|j: int| 0 <= j < i ==> !existing.contains(#[trigger] candidates[j])
}

/// The first of `candidates` that is among `existing`, if there is one.
pub open spec fn first_existing(candidates: Seq<Seq<u8>>, existing: Seq<Seq<u8>>) -> Option<
    Seq<u8>,
> {
    if exists|i: int| is_first_existing(candidates, existing, i) {
        Some(candidates[choose|i: int| is_first_existing(candidates, existing, i)])
    } else {
        None
    }
}

/// No separator stands before index `first_directory_len`, and one stands
/// at it unless the path ends there.
pub proof fn lemma_first_separator(path: Seq<u8>)
    ensures
        first_directory_len(path) <= path.len(),
        forall|k: int| 0 <= k < first_directory_len(path) ==> path[k] != PATH_SEPARATOR,
        first_directory_len(path) < path.len() ==> path[first_directory_len(path) as int]
            == PATH_SEPARATOR,
    decreases path.len(),
{
    if path.len() > 0 && path[0] != PATH_SEPARATOR {
        let rest = path.skip(1);
        lemma_first_separator(rest);
        assert forall|k: int| 0 <= k < first_directory_len(path) implies path[k]
            != PATH_SEPARATOR by {
            if k > 0 {
                assert(path[k] == rest[k - 1]);
            }
        }
    }
}

/// `first_directory_len` is the one index that no separator precedes and at
/// which the path ends or a separator stands.
pub proof fn lemma_first_directory_len(path: Seq<u8>, n: int)
    requires
        0 <= n <= path.len(),
        forall|k: int| 0 <= k < n ==> path[k] != PATH_SEPARATOR,
        n < path.len() ==> path[n] == PATH_SEPARATOR,
    ensures
        first_directory_len(path) == n,
    decreases path.len(),
{
    if n > 0 {
        lemma_first_directory_len(path.skip(1), n - 1);
    }
}

/// Splitting loses nothing and invents nothing: there is at least one
/// directory, no directory holds a separator, and the directories with
/// separators between them are the path again.
pub proof fn lemma_directories_partition(path: Seq<u8>)
    ensures
        directories(path).len() >= 1,
        forall|i: int, k: int|
            0 <= i < directories(path).len() && 0 <= k < directories(path)[i].len()
                ==> directories(path)[i][k] != PATH_SEPARATOR,
        rejoined(directories(path)) == path,
    decreases path.len(),
{
    let n = first_directory_len(path) as int;
    lemma_first_separator(path);
    if n < path.len() {
        let tail = path.skip(n + 1);
        lemma_directories_partition(tail);
        assert(directories(path).skip(1) == directories(tail));
    }
}

/// Where a candidate exists, one of them is the first.
proof fn lemma_some_existing_is_first(candidates: Seq<Seq<u8>>, existing: Seq<Seq<u8>>, i: int)
    requires
        0 <= i < candidates.len(),
        existing.contains(candidates[i]),
    ensures
        exists|j: int| is_first_existing(candidates, existing, j),
    decreases i,
{
    if exists|j: int| 0 <= j < i && existing.contains(#[trigger] candidates[j]) {
        let j = choose|j: int| 0 <= j < i && existing.contains(#[trigger] candidates[j]);
        lemma_some_existing_is_first(candidates, existing, j);
    } else {
        assert(is_first_existing(candidates, existing, i));
    }
}

/// The first existing candidate is a candidate that exists and that no
/// existing candidate precedes; there is none only where no candidate
/// exists.
pub proof fn lemma_first_existing(candidates: Seq<Seq<u8>>, existing: Seq<Seq<u8>>)
    ensures
        match first_existing(candidates, existing) {
            Some(path) => exists|i: int|
                is_first_existing(candidates, existing, i) && candidates[i] == path,
            None => forall|i: int|
                0 <= i < candidates.len() ==> !existing.contains(#[trigger] candidates[i]),
        },
{
    if first_existing(candidates, existing) is None {
        assert forall|i: int| 0 <= i < candidates.len() implies !existing.contains(
            #[trigger] candidates[i],
        ) by {
            if existing.contains(candidates[i]) {
                lemma_some_existing_is_first(candidates, existing, i);
            }
        }
    }
}

/// An owned copy of a byte string.
pub(crate) fn owned(bytes: &[u8]) -> (copy: Vec<u8>)
    ensures
        copy@ == bytes@,
{
    let mut copy: Vec<u8> = Vec::new();
    copy.extend_from_slice(bytes);
    copy
}

/// Whether two byte strings are the same.
pub fn bytes_equal(left: &[u8], right: &[u8]) -> (same: bool)
    ensures
        same == (left@ == right@),
{
    if left.len() != right.len() {
        return false;
    }
    let mut i: usize = 0;
    while i < left.len()
        invariant
            left.len() == right.len(),
            i <= left.len(),
            forall|k: int| 0 <= k < i ==> left@[k] == right@[k],
        decreases left.len() - i,
    {
        if left[i] != right[i] {
            return false;
        }
        i += 1;
    }
    assert(left@ =~= right@);
    true
}

/// Whether `path` is one of `existing`.
pub fn is_among(path: &[u8], existing: &Vec<Vec<u8>>) -> (found: bool)
    ensures
        found == contents(existing@).contains(path@),
{
    let mut i: usize = 0;
    while i < existing.len()
        invariant
            i <= existing.len(),
            forall|k: int| 0 <= k < i ==> contents(existing@)[k] != path@,
        decreases existing.len() - i,
    {
        if bytes_equal(existing[i].as_slice(), path) {
            assert(contents(existing@)[i as int] == path@);
            return true;
        }
        i += 1;
    }
    false
}

/// Splits the value of a search path into the directories it lists.
pub fn split_paths(path: &[u8]) -> (dirs: Vec<Vec<u8>>)
    ensures
        contents(dirs@) == directories(path@),
{
    let mut dirs: Vec<Vec<u8>> = Vec::new();
    let mut current: Vec<u8> = Vec::new();
    let mut start: usize = 0;
    let mut i: usize = 0;
    proof {
        assert(path@.skip(0) == path@);
    }
    while i < path.len()
        invariant
            start <= i <= path.len(),
            current@ == path@.subrange(start as int, i as int),
            forall|k: int| start <= k < i ==> path@[k] != PATH_SEPARATOR,
            directories(path@) == contents(dirs@) + directories(path@.skip(start as int)),
        decreases path.len() - i,
    {
        let byte = path[i];
        if byte == PATH_SEPARATOR {
            proof {
                let rest = path@.skip(start as int);
                lemma_first_directory_len(rest, i - start);
                assert(rest.take(i - start) == current@);
                assert(rest.skip(i - start + 1) == path@.skip(i + 1));
            }
            dirs.push(current);
            current = Vec::new();
            start = i + 1;
        } else {
            current.push(byte);
        }
        i += 1;
    }
    proof {
        let rest = path@.skip(start as int);
        lemma_first_directory_len(rest, rest.len() as int);
    }
    dirs.push(current);
    dirs
}

/// Joins a directory and a program name into one path.
pub fn join(directory: &[u8], name: &[u8]) -> (path: Vec<u8>)
    ensures
        path@ == joined(directory@, name@),
{
    let mut path: Vec<u8> = Vec::new();
    if name.len() > 0 && name[0] == DIRECTORY_SEPARATOR {
        path.extend_from_slice(name);
    } else {
        path.extend_from_slice(directory);
        if directory.len() > 0 && directory[directory.len() - 1] != DIRECTORY_SEPARATOR {
            path.push(DIRECTORY_SEPARATOR);
        }
        path.extend_from_slice(name);
    }
    path
}

/// Lists the paths at which a search for `name` looks, in order.
pub fn search_candidates(path: &[u8], name: &[u8]) -> (paths: Vec<Vec<u8>>)
    ensures
        contents(paths@) == candidates(path@, name@),
{
    let dirs = split_paths(path);
    let mut paths: Vec<Vec<u8>> = Vec::new();
    let mut i: usize = 0;
    while i < dirs.len()
        invariant
            i <= dirs.len(),
            contents(dirs@) == directories(path@),
            paths.len() == i,
            forall|k: int| 0 <= k < i ==> paths@[k]@ == joined(directories(path@)[k], name@),
        decreases dirs.len() - i,
    {
        let candidate = join(dirs[i].as_slice(), name);
        paths.push(candidate);
        i += 1;
    }
    paths
}

/// Looks for the first of `candidates` that is among `existing`.
pub fn find_first_existing(candidates: Vec<Vec<u8>>, existing: &Vec<Vec<u8>>) -> (found: Option<
    Vec<u8>,
>)
    ensures
        bytes_of(found) == first_existing(contents(candidates@), contents(existing@)),
{
    let ghost all = contents(candidates@);
    let ghost known = contents(existing@);
    let mut remaining = candidates;
    let mut i: usize = 0;
    while i < remaining.len()
        invariant
            i <= remaining.len(),
            contents(remaining@) == all,
            contents(candidates@) == all,
            contents(existing@) == known,
            forall|k: int| 0 <= k < i ==> !known.contains(#[trigger] all[k]),
        decreases remaining.len() - i,
    {
        if is_among(remaining[i].as_slice(), existing) {
            assert(is_first_existing(all, known, i as int));
            let found = remaining.swap_remove(i);
            return Some(found);
        }
        i += 1;
    }
    None
}

} // verus!
