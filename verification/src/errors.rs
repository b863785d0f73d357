use vstd::prelude::*;

verus! {

/// Errors surfaced by the git source subsystem.
///
/// Three mechanically distinct situations are kept apart: a filesystem step
/// failed (`Io`, carrying the offending path), a child command exited
/// non-zero or failed to spawn (`Process`, carrying the literal command
/// text), and a symbolic reference could not be resolved in the mirror
/// (`RefResolution`, carrying the reference). The last is distinguished
/// from `Process` because callers must treat "reference not found" as a
/// user-facing configuration problem rather than a transient execution
/// fault. `Manifest` reports that the package descriptor inside a working
/// tree could not be read, carrying the directory that was consulted.
#[derive(Debug)]
pub enum GitError {
    Io(String),
    Process(String),
    RefResolution(String),
    Manifest(String),
}

/// Short human-readable description of each error category.
pub open spec fn spec_description(e: GitError) -> Seq<char> {
    match e {
        GitError::Io(_) => "couldn't perform a filesystem operation"@,
        GitError::Process(_) => "couldn't execute a git command"@,
        GitError::RefResolution(_) => "couldn't resolve the requested reference"@,
        GitError::Manifest(_) => "couldn't read the package manifest"@,
    }
}

/// The machine-relevant detail carried by an error: the offending path,
/// the literal command text, the unresolved reference, or the manifest
/// directory.
pub open spec fn spec_detail(e: GitError) -> Seq<char> {
    match e {
        GitError::Io(path) => path@,
        GitError::Process(command) => command@,
        GitError::RefResolution(reference) => reference@,
        GitError::Manifest(path) => path@,
    }
}

impl GitError {
    /// A short description of what went wrong, fixed per category.
    pub fn description(&self) -> (r: &'static str)
        ensures
            r@ == spec_description(*self),
    {
        match self {
            GitError::Io(_) => "couldn't perform a filesystem operation",
            GitError::Process(_) => "couldn't execute a git command",
            GitError::RefResolution(_) => "couldn't resolve the requested reference",
            GitError::Manifest(_) => "couldn't read the package manifest",
        }
    }

    /// The detail carried with the error: path, command, reference or
    /// manifest directory.
    pub fn detail(&self) -> (r: &String)
        ensures
            r@ == spec_detail(*self),
    {
        match self {
            GitError::Io(path) => path,
            GitError::Process(command) => command,
            GitError::RefResolution(reference) => reference,
            GitError::Manifest(path) => path,
        }
    }

    pub fn is_io(&self) -> (r: bool)
        ensures
            r == (self is Io),
    {
        match self {
            GitError::Io(_) => true,
            _ => false,
        }
    }

    pub fn is_process(&self) -> (r: bool)
        ensures
            r == (self is Process),
    {
        match self {
            GitError::Process(_) => true,
            _ => false,
        }
    }

    pub fn is_ref_resolution(&self) -> (r: bool)
        ensures
            r == (self is RefResolution),
    {
        match self {
            GitError::RefResolution(_) => true,
            _ => false,
        }
    }

    pub fn is_manifest(&self) -> (r: bool)
        ensures
            r == (self is Manifest),
    {
        match self {
            GitError::Manifest(_) => true,
            _ => false,
        }
    }
}

} // verus!
