use vstd::prelude::*;

use crate::errors::GitError;
use crate::exec::VcsExec;
use crate::exec::VcsModel;
use crate::exec::same_remotes;
use crate::manifest::ManifestReader;
use crate::manifest::NameVer;
use crate::manifest::Package;
use crate::manifest::Summary;
use crate::reference::GitReference;
use crate::reference::is_default_name;
use crate::reference::ref_str;
use crate::remote::GitRemote;
use vstd::string::StringExecFns;

verus! {

/// The source adapter: exposes one {remote, reference, mirror path,
/// working path} as the generic pluggable source capability
/// {update, list, download, get}, composing remote, database and checkout
/// and delegating manifest reading to the external reader.
#[derive(Debug)]
pub struct GitSource {
    pub remote: GitRemote,
    pub reference: GitReference,
    pub db_path: String,
    pub checkout_path: String,
    pub verbose: bool,
}

/// The diagnostic line describing a source: the remote URL, followed by
/// the reference in parentheses where it is not the primary branch.
pub open spec fn source_description(src: GitSource) -> Seq<char> {
    match src.reference {
        GitReference::Master => "git repo at "@ + src.remote.url@,
        GitReference::Other(name) => "git repo at "@ + src.remote.url@ + " ("@ + name@ + ")"@,
    }
}

/// What a successful `update` guarantees: the source's reference was
/// resolvable against the remote's references at call time, the working
/// tree is hard-reset to exactly the revision that reference pointed at,
/// and its submodules are materialized. No remote's references changed.
pub open spec fn source_updated(pre: VcsModel, post: VcsModel, src: GitSource) -> bool {
    &&& pre.remote_refs(src.remote.url@).dom().contains(ref_str(src.reference))
    &&& post.tree_rev(src.checkout_path@) == pre.remote_refs(src.remote.url@)[ref_str(
        src.reference,
    )]
    &&& post.work_tree_at(src.checkout_path@)
    &&& post.submodules_current(src.checkout_path@)
    &&& same_remotes(pre, post)
}

impl GitSource {
    /// Build the adapter, classifying the raw reference string.
    pub fn new(
        remote: GitRemote,
        reference: String,
        db: String,
        checkout: String,
        verbose: bool,
    ) -> (r: GitSource)
        ensures
            r.remote == remote,
            r.reference is Master <==> is_default_name(reference@),
            ref_str(r.reference) == reference@,
            r.db_path@ == db@,
            r.checkout_path@ == checkout@,
            r.verbose == verbose,
    {
        GitSource {
            remote,
            reference: GitReference::for_str(reference.as_str()),
            db_path: db,
            checkout_path: checkout,
            verbose,
        }
    }

    /// Human-readable description of the source for diagnostics.
    pub fn describe(&self) -> (r: String)
        ensures
            r@ == source_description(*self),
    {
        let mut out = String::new();
        out.append("git repo at ");
        out.append(self.remote.url.as_str());
        match &self.reference {
            GitReference::Master => {},
            GitReference::Other(name) => {
                out.append(" (");
                out.append(name.as_str());
                out.append(")");
            },
        }
        out
    }

    /// Clone-or-fetch the mirror, then materialize or refresh the pinned
    /// working tree from it. The only operation that mutates on-disk
    /// state.
    pub fn update<E: VcsExec>(&self, e: &mut E) -> (r: Result<(), GitError>)
        ensures
            same_remotes(old(e).model(), final(e).model()),
            r is Ok ==> source_updated(old(e).model(), final(e).model(), *self),
            r is Err ==> (r->Err_0 is Io || r->Err_0 is Process || r->Err_0 is RefResolution),
    {
        let repo = match self.remote.checkout(e, self.db_path.as_str()) {
            Ok(db) => db,
            Err(err) => {
                return Err(err);
            },
        };
        match repo.copy_to(e, self.reference.as_slice(), self.checkout_path.as_str()) {
            Ok(_) => Ok(()),
            Err(err) => Err(err),
        }
    }

    /// Read the manifest out of the working tree and return the one
    /// package summary it declares.
    pub fn list<R: ManifestReader>(&self, reader: &R) -> (r: Result<Vec<Summary>, GitError>)
        ensures
            r is Ok ==> r->Ok_0@.len() == 1 && reader.manifest_at(self.checkout_path@) == Some(
                (r->Ok_0@[0].name@, r->Ok_0@[0].version@),
            ),
            r is Err ==> r->Err_0 is Manifest,
    {
        let pkg = match reader.read_manifest(self.checkout_path.as_str()) {
            Ok(p) => p,
            Err(err) => {
                return Err(err);
            },
        };
        let summary = pkg.get_summary().clone();
        let mut summaries: Vec<Summary> = Vec::new();
        summaries.push(summary);
        Ok(summaries)
    }

    /// No-op success: a git source materializes content directly in
    /// `update`, so there is no separate transfer step. Takes no
    /// executor, so it can touch nothing on disk.
    pub fn download(&self, _packages: &[NameVer]) -> (r: Result<(), GitError>)
        ensures
            r is Ok,
    {
        Ok(())
    }

    /// Read the manifest out of the working tree; if its identity matches
    /// any requested name+version, return it as a one-element collection,
    /// else an empty one. A non-match is not a failure; only an unreadable
    /// manifest is.
    pub fn get<R: ManifestReader>(&self, reader: &R, packages: &[NameVer]) -> (r: Result<
        Vec<Package>,
        GitError,
    >)
        ensures
            r is Ok ==> (reader.manifest_at(self.checkout_path@) matches Some(id) && {
                let found = some_requested(packages@, id.0, id.1);
                &&& found ==> r->Ok_0@.len() == 1 && r->Ok_0@[0].summary.name@ == id.0
                    && r->Ok_0@[0].summary.version@ == id.1
                &&& !found ==> r->Ok_0@.len() == 0
            }),
            r is Err ==> r->Err_0 is Manifest,
    {
        let pkg = match reader.read_manifest(self.checkout_path.as_str()) {
            Ok(p) => p,
            Err(err) => {
                return Err(err);
            },
        };
        let mut matched = false;
        let mut i: usize = 0;
        while i < packages.len()
            invariant
                i <= packages@.len(),
                matched <==> exists|j: int|
                    0 <= j < i && packages@[j].name@ == pkg.summary.name@
                        && packages@[j].version@ == pkg.summary.version@,
            decreases packages@.len() - i,
        {
            if pkg.is_for_name_ver(&packages[i]) {
                matched = true;
            }
            i = i + 1;
        }
        let mut found: Vec<Package> = Vec::new();
        if matched {
            found.push(pkg);
        }
        Ok(found)
    }
}

/// Whether some requested identity in `packages` names the package
/// `(name, version)`.
pub open spec fn some_requested(packages: Seq<NameVer>, name: Seq<char>, version: Seq<char>) -> bool {
    exists|j: int| 0 <= j < packages.len() && packages[j].name@ == name && packages[j].version@ == version
}

} // verus!
