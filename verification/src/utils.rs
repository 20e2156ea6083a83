use vstd::prelude::*;

verus! {

use vstd::string::{StrSliceExecFns, StringSliceAdditionalSpecFns};
use vstd::utf8::{valid_utf8, decode_utf8};

use crate::text::str_from_bytes;

/// The path separator inside a snapshot.
pub const SLASH: u8 = 47;

/// git2's repository handle; opaque to verification.
#[verifier::external_type_specification]
#[verifier::external_body]
pub struct ExGitRepository(git2::Repository);

/// git2's view of a tree object inside a repository; opaque to verification.
#[verifier::external_type_specification]
#[verifier::external_body]
pub struct ExGitTree<'repo>(git2::Tree<'repo>);

/// Why a read from a branch's snapshot failed.
#[derive(Debug, Clone, Copy, PartialEq, Eq, Structural)]
pub enum ResolveError {
    /// The branch does not exist, its head does not point at a commit, or
    /// its snapshot cannot be read.
    NoSuchBranch,
    /// No entry with the given path exists in the snapshot.
    NoSuchPath,
    /// The path resolves to a sub-tree, not a file.
    NotABlob,
    /// The resolved bytes are not UTF-8 text.
    NotUtf8,
}

/// Relies on git2: Repository::find_branch (a local branch), Branch::get,
/// Reference::target, Repository::find_commit and Commit::tree, which
/// resolve a branch name to the root tree of the branch's current snapshot.
/// None when the branch does not exist or its head does not reach a commit.
#[verifier::external_body]
fn branch_tree<'r>(repo: &'r git2::Repository, branch_name: &str) -> Option<git2::Tree<'r>> {
    let branch = repo.find_branch(branch_name, git2::BranchType::Local).ok()?;
    let oid = branch.get().target()?;
    let commit = repo.find_commit(oid).ok()?;
    commit.tree().ok()
}

/// Relies on git2: Tree::get_path, TreeEntry::to_object and
/// Object::into_tree, which resolve an intermediate directory path to its
/// sub-tree.  None when no such entry exists or it is not a sub-tree.
#[verifier::external_body]
fn subtree_at_path<'r>(
    repo: &'r git2::Repository,
    tree: &git2::Tree<'_>,
    dir_path: &str,
) -> Option<git2::Tree<'r>> {
    let entry = tree.get_path(std::path::Path::new(dir_path)).ok()?;
    let object = entry.to_object(repo).ok()?;
    object.into_tree().ok()
}

/// Relies on git2: Tree::get_name, TreeEntry::to_object and
/// Object::into_blob, then Blob::content: the bytes of the named file
/// directly under `tree`.  A name no tree entry can carry — one holding an
/// interior NUL byte, which get_name would panic on — is NoSuchPath.
#[verifier::external_body]
fn blob_bytes_by_name(
    repo: &git2::Repository,
    tree: &git2::Tree<'_>,
    name: &str,
) -> (r: Result<Vec<u8>, ResolveError>)
    ensures
        r matches Err(e) ==> (e == ResolveError::NoSuchPath || e == ResolveError::NotABlob),
{
    if name.as_bytes().contains(&0) {
        return Err(ResolveError::NoSuchPath);
    }
    let entry = match tree.get_name(name) {
        Some(e) => e,
        None => return Err(ResolveError::NoSuchPath),
    };
    let object = match entry.to_object(repo) {
        Ok(o) => o,
        Err(_) => return Err(ResolveError::NoSuchPath),
    };
    match object.into_blob() {
        Ok(blob) => Ok(blob.content().to_vec()),
        Err(_) => Err(ResolveError::NotABlob),
    }
}

/// Relies on git2: Index::new, Index::read_tree and the index iterator,
/// which flatten a tree into its file entries; yields each entry's path as
/// bytes, in the index's enumeration order, or None when no in-memory index
/// can be made or the tree's objects cannot be read.
#[verifier::external_body]
fn tree_blob_paths(tree: &git2::Tree<'_>) -> Option<Vec<Vec<u8>>> {
    let mut index = git2::Index::new().ok()?;
    index.read_tree(tree).ok()?;
    Some(index.iter().map(|entry| entry.path).collect())
}

/// The char index of the last separator in a path, if any.
fn rfind_slash_char(s: &str) -> (r: Option<usize>)
    ensures
        r matches Some(i) ==> i < s@.len() && s@[i as int] == '/' && (forall|k: int|
            i < k < s@.len() ==> s@[k] != '/'),
        r is None ==> forall|k: int| 0 <= k < s@.len() ==> s@[k] != '/',
{
    let n = s.unicode_len();
    let mut i = n;
    while i > 0
        invariant
            i <= n,
            n == s@.len(),
            forall|k: int| i <= k < s@.len() ==> s@[k] != '/',
        decreases i,
    {
        i = i - 1;
        if s.get_char(i) == '/' {
            return Some(i);
        }
    }
    None
}

/// Resolves `filename` to a file's bytes inside `tree`: a path with a
/// separator first resolves its directory part to a sub-tree, then the final
/// segment to a file; a path without one is resolved directly against the
/// root tree's entries.
fn find_blob(
    repo: &git2::Repository,
    tree: &git2::Tree<'_>,
    filename: &str,
) -> (r: Result<Vec<u8>, ResolveError>)
    ensures
        r matches Err(e) ==> (e == ResolveError::NoSuchPath || e == ResolveError::NotABlob),
{
    match rfind_slash_char(filename) {
        None => blob_bytes_by_name(repo, tree, filename),
        Some(i) => {
            let n = filename.unicode_len();
            let dir = filename.substring_char(0, i);
            let name = filename.substring_char(i + 1, n);
            match subtree_at_path(repo, tree, dir) {
                Some(sub) => blob_bytes_by_name(repo, &sub, name),
                None => Err(ResolveError::NoSuchPath),
            }
        },
    }
}

/// Resolves `filename` inside the current snapshot of `branch_name` and
/// returns the file's raw bytes.  Fails with NoSuchBranch when the branch
/// cannot be resolved, NoSuchPath when no entry matches the path, and
/// NotABlob when the path names a sub-tree.
pub fn read_file_raw(
    repo: &git2::Repository,
    filename: &str,
    branch_name: &str,
) -> (r: Result<Vec<u8>, ResolveError>)
    ensures
        r matches Err(e) ==> e != ResolveError::NotUtf8,
{
    let tree = match branch_tree(repo, branch_name) {
        Some(t) => t,
        None => return Err(ResolveError::NoSuchBranch),
    };
    find_blob(repo, &tree, filename)
}

/// Decodes a fetch outcome as UTF-8 text: a resolution failure keeps its
/// kind, and the bytes of a found file must be text.
pub fn text_of_fetch(fetch: Result<Vec<u8>, ResolveError>) -> (r: Result<String, ResolveError>)
    ensures
        (match fetch {
            Err(e) => r == Err::<String, ResolveError>(e),
            Ok(bytes) => {
                &&& (valid_utf8(bytes@) ==> (r matches Ok(t) && t@ == decode_utf8(bytes@)))
                &&& (!valid_utf8(bytes@) ==> r == Err::<String, ResolveError>(
                    ResolveError::NotUtf8,
                ))
            },
        }),
{
    let bytes = match fetch {
        Ok(b) => b,
        Err(e) => return Err(e),
    };
    match str_from_bytes(bytes.as_slice()) {
        Some(t) => Ok(t.to_owned()),
        None => Err(ResolveError::NotUtf8),
    }
}

/// Resolves `filename` as `read_file_raw` does and decodes the bytes as
/// UTF-8 text through `text_of_fetch`, which fixes what is returned for
/// every fetch outcome; failures keep their resolution kind, with NotUtf8
/// for a file that is not text.
pub fn read_file(
    repo: &git2::Repository,
    filename: &str,
    branch_name: &str,
) -> (r: Result<String, ResolveError>)
    ensures
        r matches Err(e) ==> (e is NoSuchBranch || e is NoSuchPath || e is NotABlob
            || e is NotUtf8),
{
    text_of_fetch(read_file_raw(repo, filename, branch_name))
}

/// A path begins with the given byte prefix.  This is a plain byte-prefix
/// match, not a segment-aware one: the prefix `post` matches `post-extra`
/// as well as `posts/x`.
pub open spec fn spec_starts_with(p: Seq<u8>, pre: Seq<u8>) -> bool {
    pre.len() <= p.len() && p.subrange(0, pre.len() as int) == pre
}

/// The paths that begin with the given byte prefix, kept in order.
pub open spec fn spec_filter_prefix(paths: Seq<Seq<u8>>, pre: Seq<u8>) -> Seq<Seq<u8>>
    decreases paths.len(),
{
    if paths.len() == 0 {
        Seq::empty()
    } else {
        let rest = spec_filter_prefix(paths.drop_first(), pre);
        if spec_starts_with(paths[0], pre) {
            seq![paths[0]] + rest
        } else {
            rest
        }
    }
}

proof fn lemma_filter_prefix_concat(a: Seq<Seq<u8>>, b: Seq<Seq<u8>>, pre: Seq<u8>)
    ensures
        spec_filter_prefix(a + b, pre) == spec_filter_prefix(a, pre) + spec_filter_prefix(b, pre),
    decreases a.len(),
{
    if a.len() == 0 {
        assert(a + b =~= b);
        assert(spec_filter_prefix(a, pre) + spec_filter_prefix(b, pre) =~= spec_filter_prefix(
            b,
            pre,
        ));
    } else {
        assert((a + b).drop_first() =~= a.drop_first() + b);
        lemma_filter_prefix_concat(a.drop_first(), b, pre);
        if spec_starts_with(a[0], pre) {
            assert(seq![a[0]] + (spec_filter_prefix(a.drop_first(), pre) + spec_filter_prefix(
                b,
                pre,
            )) =~= (seq![a[0]] + spec_filter_prefix(a.drop_first(), pre)) + spec_filter_prefix(
                b,
                pre,
            ));
        }
    }
}

/// Keeps, in listing order, exactly the paths that begin with the given byte
/// prefix.
pub fn filter_prefix(paths: Vec<Vec<u8>>, prefix: &[u8]) -> (r: Vec<Vec<u8>>)
    ensures
        r.deep_view() == spec_filter_prefix(paths.deep_view(), prefix@),
{
    let mut out: Vec<Vec<u8>> = Vec::new();
    let mut i: usize = 0;
    while i < paths.len()
        invariant
            i <= paths.len(),
            out.deep_view() == spec_filter_prefix(paths.deep_view().take(i as int), prefix@),
        decreases paths.len() - i,
    {
        let ghost pdv = paths.deep_view();
        let p = &paths[i];
        let keep = prefix.len() <= p.len() && crate::text::bytes_eq(
            vstd::slice::slice_subrange(p.as_slice(), 0, prefix.len()),
            prefix,
        );
        proof {
            assert(pdv[i as int] == p@);
            assert(keep == spec_starts_with(pdv[i as int], prefix@));
        }
        let ghost out0 = out.deep_view();
        if keep {
            out.push(p.clone());
        }
        proof {
            assert(pdv.take(i + 1) =~= pdv.take(i as int) + seq![pdv[i as int]]);
            lemma_filter_prefix_concat(pdv.take(i as int), seq![pdv[i as int]], prefix@);
            assert(seq![pdv[i as int]].drop_first() =~= Seq::<Seq<u8>>::empty());
            assert(spec_filter_prefix(Seq::<Seq<u8>>::empty(), prefix@) =~= Seq::<
                Seq<u8>,
            >::empty());
            assert(seq![pdv[i as int]][0] == pdv[i as int]);
            if spec_starts_with(pdv[i as int], prefix@) {
                assert(seq![pdv[i as int]] + Seq::<Seq<u8>>::empty() =~= seq![pdv[i as int]]);
            }
            assert(spec_filter_prefix(seq![pdv[i as int]], prefix@) == if spec_starts_with(
                pdv[i as int],
                prefix@,
            ) {
                seq![pdv[i as int]]
            } else {
                Seq::<Seq<u8>>::empty()
            });
            if keep {
                assert(out.deep_view() =~= out0 + seq![pdv[i as int]]);
            } else {
                assert(out.deep_view() =~= out0 + Seq::<Seq<u8>>::empty());
            }
        }
        i = i + 1;
    }
    proof {
        assert(paths.deep_view().take(paths.len() as int) =~= paths.deep_view());
    }
    out
}

/// Decodes each path's bytes as UTF-8 text, in order, failing with NotUtf8
/// when one is not text.
fn decode_paths(paths: Vec<Vec<u8>>) -> (r: Result<Vec<String>, ResolveError>)
    ensures
        r matches Ok(v) ==> {
            &&& v@.len() == paths@.len()
            &&& forall|k: int|
                0 <= k < paths@.len() ==> valid_utf8(#[trigger] paths@[k]@) && v@[k]@
                    == decode_utf8(paths@[k]@)
        },
        r matches Err(e) ==> e == ResolveError::NotUtf8,
{
    let mut out: Vec<String> = Vec::new();
    let mut i: usize = 0;
    while i < paths.len()
        invariant
            i <= paths.len(),
            out@.len() == i,
            forall|k: int|
                0 <= k < i ==> valid_utf8(#[trigger] paths@[k]@) && out@[k]@ == decode_utf8(
                    paths@[k]@,
                ),
        decreases paths.len() - i,
    {
        match str_from_bytes(paths[i].as_slice()) {
            Some(t) => {
                out.push(t.to_owned());
            },
            None => {
                return Err(ResolveError::NotUtf8);
            },
        }
        i = i + 1;
    }
    Ok(out)
}

/// Lists the file paths of the current snapshot of `branch_name`, in the
/// tree's own enumeration order; with a directory name given, keeps only the
/// paths that begin with it, as a byte-prefix match (see `filter_prefix`).
pub fn read_dir(
    repo: &git2::Repository,
    branch_name: &str,
    option_dir_name: Option<&str>,
) -> (r: Result<Vec<String>, ResolveError>)
    ensures
        r matches Err(e) ==> (e == ResolveError::NoSuchBranch || e == ResolveError::NotUtf8),
{
    let tree = match branch_tree(repo, branch_name) {
        Some(t) => t,
        None => return Err(ResolveError::NoSuchBranch),
    };
    let paths = match tree_blob_paths(&tree) {
        Some(p) => p,
        None => return Err(ResolveError::NoSuchBranch),
    };
    let chosen = match option_dir_name {
        None => paths,
        Some(dir_name) => filter_prefix(paths, dir_name.as_bytes()),
    };
    decode_paths(chosen)
}

} // verus!
