use vstd::prelude::*;

use crate::checkout::GitCheckout;
use crate::errors::GitError;
use crate::exec::VcsExec;
use crate::exec::VcsModel;
use crate::exec::same_mirrors_except;
use crate::exec::same_remotes;
use crate::exec::same_trees_except;
use crate::reference::GitReference;
use crate::reference::is_default_name;
use crate::reference::ref_str;
use crate::remote::GitRemote;

verus! {

/// The local bare mirror of a remote repository, stored at `path`. Any
/// number of working trees can be derived from one database. The mirror,
/// once it exists, is never deleted by this subsystem, only fetched into.
#[derive(Debug)]
pub struct GitDatabase {
    pub remote: GitRemote,
    pub path: String,
    pub verbose: bool,
}

/// Plain introspection record of a database: its remote and the mirror
/// path as a string.
#[derive(Debug)]
pub struct EncodableGitDatabase {
    pub remote: GitRemote,
    pub path: String,
}

/// What a successful `copy_to` of reference `refname` into the working
/// tree at `dest` guarantees: the returned checkout is bound to this
/// database and `dest`, carries the revision that `refname` resolved to
/// in the mirror at call time, and the tree on disk is hard-reset to
/// exactly that revision with submodules materialized. Mirrors and trees
/// at other paths are untouched.
pub open spec fn copy_to_ok(
    pre: VcsModel,
    post: VcsModel,
    db: GitDatabase,
    refname: Seq<char>,
    dest: Seq<char>,
    c: GitCheckout,
) -> bool {
    &&& c.database == db
    &&& c.location@ == dest
    &&& ref_str(c.reference) == refname
    &&& (c.reference is Master <==> is_default_name(refname))
    &&& c.verbose == db.verbose
    &&& pre.mirror_refs(db.path@).dom().contains(refname)
    &&& c.revision@ == pre.mirror_refs(db.path@)[refname]
    &&& post.tree_rev(dest) == c.revision@
    &&& post.work_tree_at(dest)
    &&& post.submodules_current(dest)
    &&& same_remotes(pre, post)
    &&& same_mirrors_except(pre, post, dest)
    &&& same_trees_except(pre, post, dest)
}

impl GitDatabase {
    /// The mirror's path.
    pub fn get_path(&self) -> (r: &String)
        ensures
            r == &self.path,
    {
        &self.path
    }

    /// Obtain or refresh the working tree at `dest` pinned to
    /// `reference`: construct the checkout (resolving the reference and
    /// cloning only if no working tree is present), then unconditionally
    /// re-fetch it from the mirror, hard-reset it to the freshly resolved
    /// revision, and recursively update submodules.
    pub fn copy_to<E: VcsExec>(&self, e: &mut E, reference: &str, dest: &str) -> (r: Result<
        GitCheckout,
        GitError,
    >)
        ensures
            same_remotes(old(e).model(), final(e).model()),
            same_mirrors_except(old(e).model(), final(e).model(), dest@),
            same_trees_except(old(e).model(), final(e).model(), dest@),
            r is Ok ==> copy_to_ok(old(e).model(), final(e).model(), *self, reference@, dest@, r->Ok_0),
            r is Err ==> (r->Err_0 is RefResolution || r->Err_0 is Io || r->Err_0 is Process),
            !old(e).model().mirror_refs(self.path@).dom().contains(reference@) ==> r is Err,
    {
        let reference_id = GitReference::for_str(reference);
        let checkout = match GitCheckout::clone_into(dest, self.clone(), reference_id, self.verbose, e) {
            Ok(c) => c,
            Err(err) => {
                return Err(err);
            },
        };
        match checkout.fetch(e) {
            Ok(()) => {},
            Err(err) => {
                return Err(err);
            },
        }
        match checkout.update_submodules(e) {
            Ok(()) => {},
            Err(err) => {
                return Err(err);
            },
        }
        Ok(checkout)
    }

    /// Resolve a reference's canonical string against the mirror to a
    /// concrete revision id. A reference the mirror cannot resolve fails
    /// with a reference-resolution error and can never yield a revision;
    /// any failure of the resolution command is reported as the same
    /// error, because callers must treat it as a configuration problem.
    pub fn rev_for<E: VcsExec>(&self, e: &mut E, reference: &str) -> (r: Result<String, GitError>)
        ensures
            final(e).model() == old(e).model(),
            r is Ok ==> old(e).model().mirror_refs(self.path@).dom().contains(reference@) && r->Ok_0@
                == old(e).model().mirror_refs(self.path@)[reference@],
            r is Err ==> r->Err_0 is RefResolution && r->Err_0->RefResolution_0@ == reference@,
            !old(e).model().mirror_refs(self.path@).dom().contains(reference@) ==> r is Err,
    {
        match e.rev_parse(self.path.as_str(), reference, self.verbose) {
            Ok(rev) => Ok(rev),
            Err(_) => Err(GitError::RefResolution(reference.to_owned())),
        }
    }

    /// Project the database into its plain diagnostic record.
    pub fn encodable(&self) -> (r: EncodableGitDatabase)
        ensures
            r.remote == self.remote,
            r.path@ == self.path@,
    {
        EncodableGitDatabase { remote: self.remote.clone(), path: self.path.clone() }
    }
}

impl Clone for GitDatabase {
    fn clone(&self) -> (r: Self)
        ensures
            r == *self,
    {
        GitDatabase { remote: self.remote.clone(), path: self.path.clone(), verbose: self.verbose }
    }
}

} // verus!
