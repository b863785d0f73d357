use vstd::prelude::*;

use crate::database::GitDatabase;
use crate::errors::GitError;
use crate::exec::VcsExec;
use crate::exec::VcsModel;
use crate::exec::same_fs;
use crate::exec::same_mirrors;
use crate::exec::same_mirrors_except;
use crate::exec::same_remotes;
use crate::exec::same_trees_except;
use crate::reference::GitReference;
use crate::reference::ref_str;

verus! {

/// A working tree at `location`, derived from a database and pinned to
/// one resolved revision. The revision is resolved exactly once at
/// construction from `reference` and immutable thereafter for this value;
/// refreshing means constructing again, which re-resolves, so the pin
/// always reflects the latest resolution of the reference.
#[derive(Debug)]
pub struct GitCheckout {
    pub database: GitDatabase,
    pub location: String,
    pub reference: GitReference,
    pub revision: String,
    pub verbose: bool,
}

/// Plain introspection record of a checkout: its database, the tree path,
/// the reference in canonical string form, and the pinned revision.
#[derive(Debug)]
pub struct EncodableGitCheckout {
    pub database: GitDatabase,
    pub location: String,
    pub reference: String,
    pub revision: String,
}

impl GitCheckout {
    /// Construct a checkout at `into`: resolve `reference` via the
    /// database's mirror, then materialize the working tree -- unless a
    /// version-control metadata directory is already present at `into`,
    /// in which case the existing tree is reused and nothing on disk is
    /// touched.
    pub fn clone_into<E: VcsExec>(
        into: &str,
        database: GitDatabase,
        reference: GitReference,
        verbose: bool,
        e: &mut E,
    ) -> (r: Result<GitCheckout, GitError>)
        ensures
            same_remotes(old(e).model(), final(e).model()),
            same_mirrors_except(old(e).model(), final(e).model(), into@),
            same_trees_except(old(e).model(), final(e).model(), into@),
            r is Ok ==> ({
                let c = r->Ok_0;
                &&& c.database == database
                &&& c.location@ == into@
                &&& c.reference == reference
                &&& c.verbose == verbose
                &&& old(e).model().mirror_refs(database.path@).dom().contains(ref_str(reference))
                &&& c.revision@ == old(e).model().mirror_refs(database.path@)[ref_str(reference)]
                &&& final(e).model().work_tree_at(into@)
            }),
            r is Ok && old(e).model().work_tree_at(into@) ==> final(e).model() == old(e).model(),
            r is Err ==> (r->Err_0 is RefResolution || r->Err_0 is Io || r->Err_0 is Process),
            !old(e).model().mirror_refs(database.path@).dom().contains(ref_str(reference)) ==> r is Err,
    {
        let revision = match database.rev_for(e, reference.as_slice()) {
            Ok(rev) => rev,
            Err(err) => {
                return Err(err);
            },
        };
        let checkout = GitCheckout { database, location: into.to_owned(), reference, revision, verbose };
        if !e.work_tree_exists(into) {
            match checkout.clone_repo(e) {
                Ok(()) => {},
                Err(err) => {
                    return Err(err);
                },
            }
        }
        Ok(checkout)
    }

    /// The path of the mirror this checkout is derived from.
    pub fn get_source(&self) -> (r: &String)
        ensures
            r == &self.database.path,
    {
        self.database.get_path()
    }

    /// Materialize the working tree from scratch: create the parent
    /// directories of `location`, remove any stale non-repository content
    /// at `location` itself, clone the mirror into it without checking
    /// out files, and normalize permissions to fully accessible.
    fn clone_repo<E: VcsExec>(&self, e: &mut E) -> (r: Result<(), GitError>)
        ensures
            same_remotes(old(e).model(), final(e).model()),
            same_mirrors_except(old(e).model(), final(e).model(), self.location@),
            same_trees_except(old(e).model(), final(e).model(), self.location@),
            r is Ok ==> final(e).model().fs_exists(self.location@) && final(e).model().work_tree_at(self.location@),
            r is Err ==> (r->Err_0 is Io || r->Err_0 is Process),
    {
        match e.mkdir_parents(self.location.as_str()) {
            Ok(()) => {},
            Err(err) => {
                return Err(err);
            },
        }
        if e.dir_exists(self.location.as_str()) {
            match e.remove_all(self.location.as_str()) {
                Ok(()) => {},
                Err(err) => {
                    return Err(err);
                },
            }
        }
        match e.clone_tree(self.location.as_str(), self.get_source().as_str(), self.verbose) {
            Ok(()) => {},
            Err(err) => {
                return Err(err);
            },
        }
        e.make_accessible(self.location.as_str())
    }

    /// Fetch from the mirror into the working tree (force, quiet, tags
    /// included), then hard-reset the tree to this checkout's revision.
    /// This both pins a freshly cloned tree and re-pins an existing one.
    pub fn fetch<E: VcsExec>(&self, e: &mut E) -> (r: Result<(), GitError>)
        requires
            old(e).model().work_tree_at(self.location@),
        ensures
            same_remotes(old(e).model(), final(e).model()),
            same_mirrors_except(old(e).model(), final(e).model(), self.location@),
            same_trees_except(old(e).model(), final(e).model(), self.location@),
            same_fs(old(e).model(), final(e).model()),
            final(e).model().work_tree_at(self.location@),
            r is Ok ==> final(e).model().tree_rev(self.location@) == self.revision@,
            r is Err ==> r->Err_0 is Process,
    {
        match e.fetch_tree(self.location.as_str(), self.get_source().as_str(), self.verbose) {
            Ok(()) => {},
            Err(err) => {
                return Err(err);
            },
        }
        self.reset(e, self.revision.as_str())
    }

    /// Hard-reset the working tree to `revision`, quietly.
    pub fn reset<E: VcsExec>(&self, e: &mut E, revision: &str) -> (r: Result<(), GitError>)
        requires
            old(e).model().work_tree_at(self.location@),
        ensures
            same_remotes(old(e).model(), final(e).model()),
            same_mirrors(old(e).model(), final(e).model()),
            same_fs(old(e).model(), final(e).model()),
            same_trees_except(old(e).model(), final(e).model(), self.location@),
            final(e).model().work_tree_at(self.location@),
            r is Ok ==> final(e).model().tree_rev(self.location@) == revision@,
            r is Err ==> r->Err_0 is Process,
    {
        e.reset_tree(self.location.as_str(), revision, self.verbose)
    }

    /// Recursively initialize and update all submodules in the working
    /// tree, quietly. The pinned revision is unchanged.
    pub fn update_submodules<E: VcsExec>(&self, e: &mut E) -> (r: Result<(), GitError>)
        requires
            old(e).model().work_tree_at(self.location@),
        ensures
            same_remotes(old(e).model(), final(e).model()),
            same_mirrors(old(e).model(), final(e).model()),
            same_fs(old(e).model(), final(e).model()),
            same_trees_except(old(e).model(), final(e).model(), self.location@),
            final(e).model().work_tree_at(self.location@),
            final(e).model().tree_rev(self.location@) == old(e).model().tree_rev(self.location@),
            r is Ok ==> final(e).model().submodules_current(self.location@),
            r is Err ==> r->Err_0 is Process,
    {
        e.submodule_update(self.location.as_str(), self.verbose)
    }

    /// Project the checkout into its plain diagnostic record, with the
    /// reference in canonical string form.
    pub fn encodable(&self) -> (r: EncodableGitCheckout)
        ensures
            r.database == self.database,
            r.location@ == self.location@,
            r.reference@ == ref_str(self.reference),
            r.revision@ == self.revision@,
    {
        EncodableGitCheckout {
            database: self.database.clone(),
            location: self.location.clone(),
            reference: self.reference.as_slice().to_owned(),
            revision: self.revision.clone(),
        }
    }
}

} // verus!
