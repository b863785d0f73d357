use vstd::prelude::*;

use crate::errors::GitError;
use vstd::string::StringExecFns;

verus! {

/// A requested package identity: name and version.
#[derive(Debug)]
pub struct NameVer {
    pub name: String,
    pub version: String,
}

/// The summary a manifest declares for its package: the name+version
/// identity this subsystem filters by.
#[derive(Debug)]
pub struct Summary {
    pub name: String,
    pub version: String,
}

/// A package produced by the external manifest reader. Its full contents
/// are the reader's business; this subsystem reads only the summary.
#[derive(Debug)]
pub struct Package {
    pub summary: Summary,
}

impl Package {
    pub fn get_summary(&self) -> (r: &Summary)
        ensures
            r == &self.summary,
    {
        &self.summary
    }

    /// Whether this package is the one a request names: name and version
    /// both equal.
    pub fn is_for_name_ver(&self, nv: &NameVer) -> (r: bool)
        ensures
            r == (self.summary.name@ == nv.name@ && self.summary.version@ == nv.version@),
    {
        self.summary.name == nv.name && self.summary.version == nv.version
    }
}

impl Clone for Summary {
    fn clone(&self) -> (r: Self)
        ensures
            r == *self,
    {
        Summary { name: self.name.clone(), version: self.version.clone() }
    }
}

/// The location of the package descriptor inside a working tree: the
/// fixed, well-known manifest filename joined to the tree's directory.
pub fn manifest_file(dir: &str) -> (r: String)
    ensures
        r@ == dir@ + "/"@ + "Cargo.toml"@,
{
    let mut path = String::new();
    path.append(dir);
    path.append("/");
    path.append("Cargo.toml");
    path
}

/// The external package-descriptor reader: given a working-tree
/// directory, parse the manifest found at [`manifest_file`] of that
/// directory into a `Package`. Injected like the command executor; the
/// parsing itself is outside this library.
pub trait ManifestReader {
    /// The identity (name, version) the manifest at `dir` declares, or
    /// nothing where no valid manifest is present.
    spec fn manifest_at(&self, dir: Seq<char>) -> Option<(Seq<char>, Seq<char>)>;

    /// Read the manifest out of the working tree at `dir`. A returned
    /// package carries exactly the identity the manifest declares; a
    /// failure is reported as a manifest error.
    fn read_manifest(&self, dir: &str) -> (r: Result<Package, GitError>)
        ensures
            r is Ok ==> self.manifest_at(dir@) == Some(
                (r->Ok_0.summary.name@, r->Ok_0.summary.version@),
            ),
            r is Err ==> r->Err_0 is Manifest,
    ;
}

} // verus!
