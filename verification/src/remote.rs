use vstd::prelude::*;

use crate::database::GitDatabase;
use crate::errors::GitError;
use crate::exec::VcsExec;
use crate::exec::VcsModel;
use crate::exec::fs_grows;
use crate::exec::same_fs;
use crate::exec::same_mirrors_except;
use crate::exec::same_remotes;
use crate::exec::same_trees;
use crate::exec::same_trees_except;

verus! {

/// Identifies a source repository by URL, together with the fetch
/// verbosity preference. Immutable value; a remote knows how to
/// materialize or update a local bare mirror of itself.
#[derive(Debug)]
pub struct GitRemote {
    pub url: String,
    pub verbose: bool,
}

/// Plain introspection record of a remote: just the URL.
#[derive(Debug)]
pub struct EncodableGitRemote {
    pub url: String,
}

/// What a successful clone-or-fetch of the mirror at `into` from the
/// remote at `url` guarantees: the mirror exists and its references equal
/// the remote's references at call time, and nothing else was disturbed.
/// Both the first call (clone) and every later call (fetch) establish the
/// same relation, which is what makes the operation idempotent in effect.
pub open spec fn checkout_ok(pre: VcsModel, post: VcsModel, url: Seq<char>, into: Seq<char>) -> bool {
    &&& post.fs_exists(into)
    &&& post.mirror_refs(into) == pre.remote_refs(url)
    &&& same_remotes(pre, post)
    &&& same_mirrors_except(pre, post, into)
    &&& same_trees_except(pre, post, into)
    &&& fs_grows(pre, post)
}

impl GitRemote {
    pub fn new(url: String, verbose: bool) -> (r: GitRemote)
        ensures
            r.url == url,
            r.verbose == verbose,
    {
        GitRemote { url, verbose }
    }

    /// Clone-or-fetch the local bare mirror: if `into` already exists on
    /// disk, fetch the remote's refs into it; otherwise create it by a
    /// bare clone. Either way a successful call leaves the mirror's
    /// references equal to the remote's current references and returns a
    /// `GitDatabase` bound to `into`.
    pub fn checkout<E: VcsExec>(&self, e: &mut E, into: &str) -> (r: Result<GitDatabase, GitError>)
        ensures
            same_remotes(old(e).model(), final(e).model()),
            same_mirrors_except(old(e).model(), final(e).model(), into@),
            same_trees_except(old(e).model(), final(e).model(), into@),
            fs_grows(old(e).model(), final(e).model()),
            r is Ok ==> checkout_ok(old(e).model(), final(e).model(), self.url@, into@),
            r is Ok ==> r->Ok_0.remote == *self && r->Ok_0.path@ == into@ && r->Ok_0.verbose
                == self.verbose,
            r is Err ==> (r->Err_0 is Io || r->Err_0 is Process),
    {
        if e.dir_exists(into) {
            match self.fetch_into(e, into) {
                Ok(()) => {},
                Err(err) => {
                    return Err(err);
                },
            }
        } else {
            match self.clone_into(e, into) {
                Ok(()) => {},
                Err(err) => {
                    return Err(err);
                },
            }
        }
        Ok(GitDatabase { remote: self.clone(), path: into.to_owned(), verbose: self.verbose })
    }

    /// Fetch all branch refs and tags from the remote into the existing
    /// mirror, forcing updates, quietly.
    fn fetch_into<E: VcsExec>(&self, e: &mut E, path: &str) -> (r: Result<(), GitError>)
        requires
            old(e).model().fs_exists(path@),
        ensures
            same_remotes(old(e).model(), final(e).model()),
            same_mirrors_except(old(e).model(), final(e).model(), path@),
            same_trees(old(e).model(), final(e).model()),
            same_fs(old(e).model(), final(e).model()),
            r is Ok ==> final(e).model().mirror_refs(path@) == old(e).model().remote_refs(self.url@),
            r is Err ==> r->Err_0 is Process,
    {
        e.fetch_mirror(path, self.url.as_str(), self.verbose)
    }

    /// Create the parent directories of the mirror path, then perform a
    /// bare, no-hard-link clone of the remote into it.
    fn clone_into<E: VcsExec>(&self, e: &mut E, path: &str) -> (r: Result<(), GitError>)
        ensures
            same_remotes(old(e).model(), final(e).model()),
            same_mirrors_except(old(e).model(), final(e).model(), path@),
            same_trees_except(old(e).model(), final(e).model(), path@),
            fs_grows(old(e).model(), final(e).model()),
            r is Ok ==> final(e).model().fs_exists(path@) && final(e).model().mirror_refs(path@) == old(e).model().remote_refs(
                self.url@,
            ),
            r is Err ==> (r->Err_0 is Io || r->Err_0 is Process),
    {
        match e.mkdir_parents(path) {
            Ok(()) => {},
            Err(err) => {
                return Err(err);
            },
        }
        e.clone_mirror(path, self.url.as_str(), self.verbose)
    }

    /// Project the remote into its plain diagnostic record.
    pub fn encodable(&self) -> (r: EncodableGitRemote)
        ensures
            r.url@ == self.url@,
    {
        EncodableGitRemote { url: self.url.clone() }
    }
}

impl Clone for GitRemote {
    fn clone(&self) -> (r: Self)
        ensures
            r == *self,
    {
        GitRemote { url: self.url.clone(), verbose: self.verbose }
    }
}

} // verus!
