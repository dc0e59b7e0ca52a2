//! Paths of the asset store, and the resolver that roots them.
//!
//! A path is a string whose components are separated by `/`. A path that
//! begins with the separator is absolute; every other path is relative.
//! The components `.` and `..` are kept as they are written: what they
//! refer to is decided by the store that is finally asked for the bytes.

use vstd::prelude::*;
use vstd::string::StringExecFns;

verus! {

/// The character between two components of a path.
pub const SEPARATOR: char = '/';

/// Whether a path begins with the separator.
pub open spec fn is_absolute_spec(path: Seq<char>) -> bool {
    path.len() > 0 && path[0] == SEPARATOR
}

/// The path that `path` names when it is met under the directory `base`.
///
/// An absolute `path` stands for itself. A relative one is put behind
/// `base`, with one separator between them unless `base` is empty or
/// brings its own.
pub open spec fn join_spec(base: Seq<char>, path: Seq<char>) -> Seq<char> {
    if is_absolute_spec(path) {
        path
    } else if base.len() == 0 || base.last() == SEPARATOR {
        base + path
    } else {
        base.push(SEPARATOR) + path
    }
}

/// The length of the directory part of a path: of its longest prefix that
/// ends with a separator, or 0 where the path holds no separator.
pub open spec fn directory_len(path: Seq<char>) -> nat
    decreases path.len(),
{
    if path.len() == 0 {
        0
    } else if path.last() == SEPARATOR {
        path.len()
    } else {
        directory_len(path.drop_last())
    }
}

/// The directory part of a path, its last separator included.
pub open spec fn directory_spec(path: Seq<char>) -> Seq<char> {
    path.take(directory_len(path) as int)
}

/// The path that `path` names when it is met in the document at `base`:
/// `path` itself where it is absolute, else `path` behind the directory
/// part of `base`.
pub open spec fn resolve_spec(base: Seq<char>, path: Seq<char>) -> Seq<char> {
    join_spec(directory_spec(base), path)
}

/// The directory part ends where the last separator of the path stands.
pub proof fn lemma_directory_len(path: Seq<char>)
    ensures
        directory_len(path) <= path.len(),
        directory_len(path) > 0 ==> path[directory_len(path) - 1] == SEPARATOR,
        forall|i: int| directory_len(path) <= i < path.len() ==> path[i] != SEPARATOR,
    decreases path.len(),
{
    if path.len() > 0 && path.last() != SEPARATOR {
        let front = path.drop_last();
        lemma_directory_len(front);
        assert forall|i: int| directory_len(path) <= i < path.len() implies path[i]
            != SEPARATOR by {
            if i < front.len() {
                assert(front[i] == path[i]);
            }
        }
    }
}

/// A path without separator behind a path adds nothing to its
/// directory part.
pub proof fn lemma_directory_len_of_extension(path: Seq<char>, name: Seq<char>)
    requires
        forall|i: int| 0 <= i < name.len() ==> name[i] != SEPARATOR,
    ensures
        directory_len(path + name) == directory_len(path),
    decreases name.len(),
{
    if name.len() == 0 {
        assert(path + name =~= path);
    } else {
        let whole = path + name;
        assert(whole.last() == name.last());
        assert(whole.drop_last() =~= path + name.drop_last());
        lemma_directory_len_of_extension(path, name.drop_last());
    }
}

/// The directory part is a prefix of the path, and is empty or ends with
/// a separator; taking it twice is taking it once.
pub proof fn lemma_directory_spec(path: Seq<char>)
    ensures
        directory_spec(path).is_prefix_of(path),
        directory_spec(path).len() == 0 || directory_spec(path).last() == SEPARATOR,
        directory_spec(directory_spec(path)) == directory_spec(path),
        is_absolute_spec(directory_spec(path)) ==> is_absolute_spec(path),
{
    lemma_directory_len(path);
    let directory = directory_spec(path);
    if directory.len() > 0 {
        assert(directory.last() == path[directory_len(path) - 1]);
        assert(directory.take(directory.len() as int) =~= directory);
    } else {
        assert(directory.take(0) =~= directory);
    }
}

/// An absolute path stands for itself under every base. A relative path
/// is put under the base: the joined path begins with the base and ends
/// with the path, with at most one separator between them, and it is
/// absolute exactly where the base is.
pub proof fn lemma_join(base: Seq<char>, path: Seq<char>)
    ensures
        is_absolute_spec(path) ==> join_spec(base, path) == path,
        !is_absolute_spec(path) ==> {
            &&& base.is_prefix_of(join_spec(base, path))
            &&& path.is_suffix_of(join_spec(base, path))
            &&& base.len() + path.len() <= join_spec(base, path).len() <= base.len() + path.len()
                + 1
            &&& is_absolute_spec(join_spec(base, path)) == is_absolute_spec(base)
        },
        join_spec(Seq::<char>::empty(), path) == path,
{
    let joined = join_spec(base, path);
    assert(Seq::<char>::empty() + path =~= path);
    if !is_absolute_spec(path) {
        if base.len() == 0 || base.last() == SEPARATOR {
            assert(joined.take(base.len() as int) =~= base);
            assert(joined.skip(joined.len() - path.len()) =~= path);
        } else {
            assert(joined.take(base.len() as int) =~= base);
            assert(joined.skip(joined.len() - path.len()) =~= path);
            assert(joined[0] == base[0]);
        }
    }
}

/// Joining is associative: a path put under a directory which is itself
/// put under a root is the path put under the rooted directory.
pub proof fn lemma_join_associative(root: Seq<char>, directory: Seq<char>, path: Seq<char>)
    ensures
        join_spec(root, join_spec(directory, path)) == join_spec(
            join_spec(root, directory),
            path,
        ),
{
    let inner = join_spec(directory, path);
    let outer = join_spec(root, directory);
    if is_absolute_spec(path) {
    } else if is_absolute_spec(directory) {
        assert(inner[0] == directory[0]);
    } else if directory.len() == 0 {
        assert(directory + path =~= path);
        if root.len() == 0 || root.last() == SEPARATOR {
            assert(root + directory =~= root);
        } else {
            assert(root.push(SEPARATOR) + directory =~= root.push(SEPARATOR));
            assert(outer.last() == SEPARATOR);
        }
    } else {
        assert(!is_absolute_spec(inner)) by {
            assert(inner[0] == directory[0]);
        }
        assert(outer.last() == directory.last());
        assert(join_spec(root, inner) =~= join_spec(outer, path));
    }
}

/// What resolution does: an absolute path resolves to itself, a relative
/// one to itself behind the directory part of the base.
pub proof fn lemma_resolve(base: Seq<char>, path: Seq<char>)
    ensures
        is_absolute_spec(path) ==> resolve_spec(base, path) == path,
        !is_absolute_spec(path) ==> resolve_spec(base, path) == directory_spec(base) + path,
        path.is_suffix_of(resolve_spec(base, path)),
{
    lemma_directory_spec(base);
    lemma_join(directory_spec(base), path);
    let resolved = resolve_spec(base, path);
    assert(resolved.skip(resolved.len() - path.len()) =~= path);
}

/// Resolution depends on the two paths and on nothing else: equal
/// inputs resolve to equal paths.
pub proof fn lemma_resolve_is_a_function(
    base: Seq<char>,
    path: Seq<char>,
    same_base: Seq<char>,
    same_path: Seq<char>,
)
    requires
        base =~= same_base,
        path =~= same_path,
    ensures
        resolve_spec(base, path) == resolve_spec(same_base, same_path),
{
}

/// A path met in a document names the document's neighbour: where the
/// document is the file `document` of the directory `directory`, the
/// path resolves to what it names under `directory`.
pub proof fn lemma_resolve_sibling(directory: Seq<char>, document: Seq<char>, path: Seq<char>)
    requires
        forall|i: int| 0 <= i < document.len() ==> document[i] != SEPARATOR,
    ensures
        resolve_spec(join_spec(directory, document), path) == join_spec(directory, path),
{
    let base = join_spec(directory, document);
    lemma_directory_len(base);
    if document.len() > 0 {
        assert(document[0] != SEPARATOR);
    }
    if directory.len() == 0 || directory.last() == SEPARATOR {
        lemma_directory_len_of_extension(directory, document);
        if directory.len() > 0 {
            assert(directory_spec(directory) =~= directory);
        }
        assert(directory_spec(base) =~= directory);
    } else {
        let prefix = directory.push(SEPARATOR);
        lemma_directory_len_of_extension(prefix, document);
        assert(directory_spec(prefix) =~= prefix);
        assert(directory_spec(base) =~= prefix);
        assert(prefix.last() == SEPARATOR);
    }
}

/// Whether a path begins with the separator.
pub fn is_absolute(path: &str) -> (absolute: bool)
    ensures
        absolute == is_absolute_spec(path@),
{
    if path.is_empty() {
        false
    } else {
        path.get_char(0) == SEPARATOR
    }
}

/// Puts `path` under the directory `base`.
pub fn join(base: &str, path: &str) -> (joined: String)
    ensures
        joined@ == join_spec(base@, path@),
{
    if is_absolute(path) {
        return path.to_owned();
    }
    let len = base.unicode_len();
    let mut joined = base.to_owned();
    if len > 0 && base.get_char(len - 1) != SEPARATOR {
        proof {
            reveal_strlit("/");
            assert("/"@ =~= seq![SEPARATOR]);
            assert(base@ + seq![SEPARATOR] =~= base@.push(SEPARATOR));
        }
        joined.append("/");
    }
    joined.append(path);
    joined
}

/// The directory part of a path, its last separator included.
pub fn directory_of(path: &str) -> (directory: &str)
    ensures
        directory@ == directory_spec(path@),
{
    let mut seen: usize = 0;
    let mut len: usize = 0;
    let total = path.unicode_len();
    for c in it: path.chars()
        invariant
            it.seq() == path@,
            seen == it.index(),
            total == path@.len(),
            len == directory_len(path@.take(seen as int)),
    {
        proof {
            let before = path@.take(seen as int);
            let after = path@.take(seen + 1);
            assert(after.drop_last() =~= before);
            assert(after.last() == c);
        }
        seen = seen + 1;
        if c == SEPARATOR {
            len = seen;
        }
    }
    proof {
        assert(path@.take(seen as int) =~= path@);
        lemma_directory_len(path@);
    }
    path.substring_char(0, len)
}

/// Resolves a path met in the document at `base`.
pub fn resolve_path(base: &str, path: &str) -> (resolved: String)
    ensures
        resolved@ == resolve_spec(base@, path@),
{
    join(directory_of(base), path)
}

} // verus!
