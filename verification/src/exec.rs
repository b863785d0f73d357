use vstd::prelude::*;

use crate::errors::GitError;

verus! {

/// The abstract state of the outside world as this library observes it
/// through the executor. Paths and URLs are plain strings, treated as
/// atomic keys. A path may carry a bare mirror (a map from reference
/// names to revision ids), a working tree (a metadata-directory marker,
/// the revision the tree is reset to, and whether its submodules are
/// materialized), or neither. A URL names a remote repository whose
/// current references are a map from names to revision ids.
pub struct VcsModel {
    /// The filesystem entries that exist.
    pub fs: Set<Seq<char>>,
    /// The paths carrying a working tree's version-control metadata
    /// directory.
    pub markers: Set<Seq<char>>,
    /// Per path, the references resolvable in the bare mirror there.
    pub mirrors: Map<Seq<char>, Map<Seq<char>, Seq<char>>>,
    /// Per URL, the references the remote repository currently reports.
    pub remotes: Map<Seq<char>, Map<Seq<char>, Seq<char>>>,
    /// Per path, the revision the working tree there is reset to.
    pub revs: Map<Seq<char>, Seq<char>>,
    /// The paths whose working tree has its submodules recursively
    /// initialized and updated.
    pub submodules: Set<Seq<char>>,
}

impl VcsModel {
    /// Whether a filesystem entry exists at `path`.
    pub open spec fn fs_exists(self, path: Seq<char>) -> bool {
        self.fs.contains(path)
    }

    /// Whether a working tree is present at `path`.
    pub open spec fn work_tree_at(self, path: Seq<char>) -> bool {
        self.markers.contains(path)
    }

    /// The references resolvable in the bare mirror at `path`.
    pub open spec fn mirror_refs(self, path: Seq<char>) -> Map<Seq<char>, Seq<char>> {
        self.mirrors[path]
    }

    /// The current references of the remote repository at `url`.
    pub open spec fn remote_refs(self, url: Seq<char>) -> Map<Seq<char>, Seq<char>> {
        self.remotes[url]
    }

    /// The revision the working tree at `path` is currently reset to.
    pub open spec fn tree_rev(self, path: Seq<char>) -> Seq<char> {
        self.revs[path]
    }

    /// Whether the submodules of the working tree at `path` are
    /// recursively initialized and updated.
    pub open spec fn submodules_current(self, path: Seq<char>) -> bool {
        self.submodules.contains(path)
    }
}

/// Every remote's references read the same in `b` as in `a`: no call in
/// between changed what an upstream would report.
pub open spec fn same_remotes(a: VcsModel, b: VcsModel) -> bool {
    forall|u: Seq<char>| #![trigger b.remote_refs(u)] b.remote_refs(u) == a.remote_refs(u)
}

/// Every mirror except the one at `p` is unchanged from `a` to `b`.
pub open spec fn same_mirrors_except(a: VcsModel, b: VcsModel, p: Seq<char>) -> bool {
    forall|q: Seq<char>| #![trigger b.mirror_refs(q)] q != p ==> b.mirror_refs(q) == a.mirror_refs(q)
}

/// Every mirror is unchanged from `a` to `b`.
pub open spec fn same_mirrors(a: VcsModel, b: VcsModel) -> bool {
    forall|q: Seq<char>| #![trigger b.mirror_refs(q)] b.mirror_refs(q) == a.mirror_refs(q)
}

/// Every working tree except the one at `p` -- marker, pinned revision,
/// submodule state -- is unchanged from `a` to `b`.
pub open spec fn same_trees_except(a: VcsModel, b: VcsModel, p: Seq<char>) -> bool {
    &&& forall|q: Seq<char>| #![trigger b.work_tree_at(q)]
        q != p ==> b.work_tree_at(q) == a.work_tree_at(q)
    &&& forall|q: Seq<char>| #![trigger b.tree_rev(q)] q != p ==> b.tree_rev(q) == a.tree_rev(q)
    &&& forall|q: Seq<char>| #![trigger b.submodules_current(q)]
        q != p ==> b.submodules_current(q) == a.submodules_current(q)
}

/// Every working tree is unchanged from `a` to `b`.
pub open spec fn same_trees(a: VcsModel, b: VcsModel) -> bool {
    &&& forall|q: Seq<char>| #![trigger b.work_tree_at(q)] b.work_tree_at(q) == a.work_tree_at(q)
    &&& forall|q: Seq<char>| #![trigger b.tree_rev(q)] b.tree_rev(q) == a.tree_rev(q)
    &&& forall|q: Seq<char>| #![trigger b.submodules_current(q)]
        b.submodules_current(q) == a.submodules_current(q)
}

/// Filesystem existence is unchanged from `a` to `b`.
pub open spec fn same_fs(a: VcsModel, b: VcsModel) -> bool {
    forall|q: Seq<char>| #![trigger b.fs_exists(q)] b.fs_exists(q) == a.fs_exists(q)
}

/// Filesystem existence is unchanged from `a` to `b` except at `p`.
pub open spec fn same_fs_except(a: VcsModel, b: VcsModel, p: Seq<char>) -> bool {
    forall|q: Seq<char>| #![trigger b.fs_exists(q)] q != p ==> b.fs_exists(q) == a.fs_exists(q)
}

/// Everything that existed in `a` still exists in `b`: only directories
/// were created.
pub open spec fn fs_grows(a: VcsModel, b: VcsModel) -> bool {
    forall|q: Seq<char>| #![trigger b.fs_exists(q)] a.fs_exists(q) ==> b.fs_exists(q)
}

/// The version-control command executor: the one capability through which
/// this library touches the outside world. It is injected into every
/// operation instead of being an ambient global, so a recording or
/// simulated executor can stand in for the real tool without touching
/// real repositories. The application shell implements it by driving the
/// real VCS tool and the filesystem; the library's own [`crate::sim::SimVcs`]
/// implements it, verified, over in-memory data.
///
/// Each implementation carries an abstract [`VcsModel`] of the world it
/// acts on; within one executor value a remote's references only change
/// when a method's contract says so, which models an upstream that holds
/// still between calls.
///
/// No method promises success: a child process can always fail to spawn.
/// Each contract states what holds of the model on success, which error
/// category an implementation must report on failure, and what is left
/// untouched either way.
pub trait VcsExec: Sized {
    /// The abstract state of the world this executor acts on.
    spec fn model(&self) -> VcsModel;

    /// Filesystem existence check for `path`.
    fn dir_exists(&self, path: &str) -> (r: bool)
        ensures
            r == self.model().fs_exists(path@),
    ;

    /// Check for the version-control metadata directory under `path`; its
    /// presence signals a reusable working tree.
    fn work_tree_exists(&self, path: &str) -> (r: bool)
        ensures
            r == self.model().work_tree_at(path@),
    ;

    /// Fetch all branch refs and tags from `url` into the existing bare
    /// mirror at `path`, forcing updates, quietly (fetch --force --quiet
    /// --tags <url> with the full-heads refspec). On success the mirror's
    /// references equal the remote's current references. No remote, no
    /// other mirror, no working tree and no filesystem entry changes.
    fn fetch_mirror(&mut self, path: &str, url: &str, verbose: bool) -> (r: Result<(), GitError>)
        requires
            old(self).model().fs_exists(path@),
        ensures
            same_remotes(old(self).model(), final(self).model()),
            same_mirrors_except(old(self).model(), final(self).model(), path@),
            same_trees(old(self).model(), final(self).model()),
            same_fs(old(self).model(), final(self).model()),
            r is Ok ==> final(self).model().mirror_refs(path@) == old(self).model().remote_refs(
                url@,
            ),
            r is Err ==> r->Err_0 is Process,
    ;

    /// Create `path` by a bare, no-hard-link, quiet clone of `url`. On
    /// success the path exists and the mirror's references equal the
    /// remote's current references. Everything away from `path` is
    /// untouched, and no filesystem entry disappears.
    fn clone_mirror(&mut self, path: &str, url: &str, verbose: bool) -> (r: Result<(), GitError>)
        ensures
            same_remotes(old(self).model(), final(self).model()),
            same_mirrors_except(old(self).model(), final(self).model(), path@),
            same_trees_except(old(self).model(), final(self).model(), path@),
            fs_grows(old(self).model(), final(self).model()),
            r is Ok ==> final(self).model().fs_exists(path@) && final(self).model().mirror_refs(
                path@,
            ) == old(self).model().remote_refs(url@),
            r is Err ==> r->Err_0 is Process,
    ;

    /// Recursively create the parent directories of `path`. Only creates
    /// directories: every repository aspect of the model is untouched and
    /// no filesystem entry disappears.
    fn mkdir_parents(&mut self, path: &str) -> (r: Result<(), GitError>)
        ensures
            same_remotes(old(self).model(), final(self).model()),
            same_mirrors(old(self).model(), final(self).model()),
            same_trees(old(self).model(), final(self).model()),
            fs_grows(old(self).model(), final(self).model()),
            r is Err ==> r->Err_0 is Io,
    ;

    /// Remove `path` and everything under it. On success nothing is left
    /// at `path`; other paths are untouched.
    fn remove_all(&mut self, path: &str) -> (r: Result<(), GitError>)
        ensures
            same_remotes(old(self).model(), final(self).model()),
            same_mirrors_except(old(self).model(), final(self).model(), path@),
            same_trees_except(old(self).model(), final(self).model(), path@),
            same_fs_except(old(self).model(), final(self).model(), path@),
            r is Ok ==> !final(self).model().fs_exists(path@)
                && !final(self).model().work_tree_at(path@),
            r is Err ==> r->Err_0 is Io,
    ;

    /// Clone the local mirror at `from` into a working tree at `path`
    /// without checking out files (clone --no-checkout --quiet). On
    /// success a working tree with its metadata directory exists at
    /// `path`; the revision it is reset to is unspecified until a reset.
    /// Everything away from `path` is untouched, and no filesystem entry
    /// disappears.
    fn clone_tree(&mut self, path: &str, from: &str, verbose: bool) -> (r: Result<(), GitError>)
        ensures
            same_remotes(old(self).model(), final(self).model()),
            same_mirrors_except(old(self).model(), final(self).model(), path@),
            same_trees_except(old(self).model(), final(self).model(), path@),
            fs_grows(old(self).model(), final(self).model()),
            r is Ok ==> final(self).model().fs_exists(path@) && final(self).model().work_tree_at(
                path@,
            ),
            r is Err ==> r->Err_0 is Process,
    ;

    /// Normalize filesystem permissions on `path` to fully accessible.
    /// Changes no part of the model.
    fn make_accessible(&mut self, path: &str) -> (r: Result<(), GitError>)
        ensures
            final(self).model() == old(self).model(),
            r is Err ==> r->Err_0 is Io,
    ;

    /// Fetch from the local mirror at `from` into the working tree at
    /// `path` (fetch --force --quiet --tags <from>). Updates only objects
    /// and refs inside the tree's metadata directory; the checked-out
    /// revision and the files of every working tree stay as they were.
    fn fetch_tree(&mut self, path: &str, from: &str, verbose: bool) -> (r: Result<(), GitError>)
        requires
            old(self).model().work_tree_at(path@),
        ensures
            same_remotes(old(self).model(), final(self).model()),
            same_mirrors_except(old(self).model(), final(self).model(), path@),
            same_trees(old(self).model(), final(self).model()),
            same_fs(old(self).model(), final(self).model()),
            r is Err ==> r->Err_0 is Process,
    ;

    /// Hard-reset the working tree at `path` to `rev` (reset -q --hard
    /// <rev>). On success the tree is pinned to exactly `rev`; the
    /// metadata directory is kept either way, and nothing else changes.
    fn reset_tree(&mut self, path: &str, rev: &str, verbose: bool) -> (r: Result<(), GitError>)
        requires
            old(self).model().work_tree_at(path@),
        ensures
            same_remotes(old(self).model(), final(self).model()),
            same_mirrors(old(self).model(), final(self).model()),
            same_fs(old(self).model(), final(self).model()),
            same_trees_except(old(self).model(), final(self).model(), path@),
            final(self).model().work_tree_at(path@),
            r is Ok ==> final(self).model().tree_rev(path@) == rev@,
            r is Err ==> r->Err_0 is Process,
    ;

    /// Recursively initialize and update all submodules of the working
    /// tree at `path`, quietly. The tree's pinned revision and metadata
    /// directory are kept, and nothing else changes.
    fn submodule_update(&mut self, path: &str, verbose: bool) -> (r: Result<(), GitError>)
        requires
            old(self).model().work_tree_at(path@),
        ensures
            same_remotes(old(self).model(), final(self).model()),
            same_mirrors(old(self).model(), final(self).model()),
            same_fs(old(self).model(), final(self).model()),
            same_trees_except(old(self).model(), final(self).model(), path@),
            final(self).model().work_tree_at(path@),
            final(self).model().tree_rev(path@) == old(self).model().tree_rev(path@),
            r is Ok ==> final(self).model().submodules_current(path@),
            r is Err ==> r->Err_0 is Process,
    ;

    /// Resolve `refname` in the bare mirror at `path` to one trimmed
    /// revision id (the resolution command's single line of output).
    /// Success is possible only for a reference the mirror can resolve,
    /// so a nonexistent reference can never yield a revision id. Runs no
    /// command that modifies anything.
    fn rev_parse(&mut self, path: &str, refname: &str, verbose: bool) -> (r: Result<
        String,
        GitError,
    >)
        ensures
            final(self).model() == old(self).model(),
            r is Ok ==> old(self).model().mirror_refs(path@).dom().contains(refname@) && r->Ok_0@
                == old(self).model().mirror_refs(path@)[refname@],
    ;
}

} // verus!
