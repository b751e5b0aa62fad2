//! A mathematical model of the slice of the filesystem that a directory
//! guard touches.
//!
//! A filesystem state is the set of paths that currently exist, each path a
//! sequence of characters.  The two operations a guard performs are modelled
//! here: recursive creation (every missing ancestor is created along with the
//! directory itself) and recursive removal (the directory and everything
//! below it disappear).

use vstd::prelude::*;

verus! {

/// `q` lies in the directory tree rooted at `root`: it is `root` itself, or a
/// path strictly below it (its text extends `root` at a `/` boundary).
pub open spec fn in_tree(root: Seq<char>, q: Seq<char>) -> bool {
    ||| q == root
    ||| (q.len() > root.len() && q.subrange(0, root.len() as int) == root && q[root.len() as int] == '/')
}

/// The filesystem after a recursive removal rooted at `root`: every path in
/// `root`'s tree is gone, every other path is untouched.
pub open spec fn remove_tree(fs: Set<Seq<char>>, root: Seq<char>) -> Set<Seq<char>> {
    Set::new(|q: Seq<char>| fs.contains(q) && !in_tree(root, q))
}

/// The filesystem after creating `path` together with all of its missing
/// ancestors: exactly the paths of which `path` is a descendant-or-self are
/// added, and nothing is removed.
pub open spec fn create_tree(fs: Set<Seq<char>>, path: Seq<char>) -> Set<Seq<char>> {
    Set::new(|q: Seq<char>| fs.contains(q) || in_tree(q, path))
}

/// Creation makes the directory exist: afterwards `path` is present, every
/// previously present path is still present, and the only new paths are
/// ancestors of `path` (the directories that recursive creation fills in).
pub proof fn lemma_create_makes_exist(fs: Set<Seq<char>>, path: Seq<char>)
    ensures
        create_tree(fs, path).contains(path),
        forall|q: Seq<char>| fs.contains(q) ==> create_tree(fs, path).contains(q),
        forall|q: Seq<char>|
            create_tree(fs, path).contains(q) ==> fs.contains(q) || in_tree(q, path),
{
}

/// Removal empties the tree: afterwards neither `root` nor anything below it
/// exists, and every path outside the tree is exactly as it was.
pub proof fn lemma_remove_clears_tree(fs: Set<Seq<char>>, root: Seq<char>)
    ensures
        !remove_tree(fs, root).contains(root),
        forall|q: Seq<char>| in_tree(root, q) ==> !remove_tree(fs, root).contains(q),
        forall|q: Seq<char>|
            !in_tree(root, q) ==> remove_tree(fs, root).contains(q) == fs.contains(q),
{
}

/// Cleanup is idempotent: removing a tree twice leaves the same state as
/// removing it once, and removing a tree that is already absent changes
/// nothing.  Best-effort cleanup may therefore run again, or run on a path a
/// third party already deleted, without effect.
pub proof fn lemma_remove_idempotent(fs: Set<Seq<char>>, root: Seq<char>)
    ensures
        remove_tree(remove_tree(fs, root), root) =~= remove_tree(fs, root),
        (forall|q: Seq<char>| in_tree(root, q) ==> !fs.contains(q)) ==> remove_tree(fs, root) =~= fs,
{
}

/// Forced creation leaves a fresh, empty directory: after removing the tree
/// at `path` and recreating `path`, the directory exists and nothing strictly
/// below it exists, whatever contents the tree held before.
pub proof fn lemma_forced_create_fresh(fs: Set<Seq<char>>, path: Seq<char>)
    ensures
        create_tree(remove_tree(fs, path), path).contains(path),
        forall|q: Seq<char>|
            in_tree(path, q) && q != path ==> !create_tree(remove_tree(fs, path), path).contains(q),
{
    assert forall|q: Seq<char>| in_tree(path, q) && q != path
        implies !create_tree(remove_tree(fs, path), path).contains(q) by {
        assert(q.len() > path.len());
        assert(!in_tree(q, path));
    }
}

} // verus!
