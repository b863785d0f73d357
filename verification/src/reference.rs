use vstd::prelude::*;

verus! {

/// A symbolic pointer to a commit: either the repository's primary branch
/// or a named branch/tag/commit-ish. Keeping the primary branch a separate
/// case makes "is this the default branch" a compile-time-checked match
/// rather than a string comparison scattered across call sites.
#[derive(Debug)]
pub enum GitReference {
    Master,
    Other(String),
}

/// Whether `s` is the literal name of the primary branch.
pub open spec fn is_default_name(s: Seq<char>) -> bool {
    s == "master"@
}

/// Canonical string form of a reference: the primary-branch literal for
/// `Master`, the carried name for `Other`.
pub open spec fn ref_str(r: GitReference) -> Seq<char> {
    match r {
        GitReference::Master => "master"@,
        GitReference::Other(s) => s@,
    }
}

impl GitReference {
    /// Classifies a raw string: the primary-branch literal collapses to
    /// `Master`, everything else becomes `Other` carrying the string
    /// unchanged. Total and pure; the canonical string of the result is
    /// always the input.
    pub fn for_str(string: &str) -> (r: GitReference)
        ensures
            r is Master <==> is_default_name(string@),
            ref_str(r) == string@,
    {
        let owned: String = string.to_owned();
        let master: String = "master".to_owned();
        if owned == master {
            GitReference::Master
        } else {
            GitReference::Other(owned)
        }
    }

    /// Canonical string of the reference; the exact inverse of `for_str`
    /// for strings other than the primary-branch literal.
    pub fn as_slice(&self) -> (r: &str)
        ensures
            r@ == ref_str(*self),
    {
        match self {
            GitReference::Master => "master",
            GitReference::Other(s) => s.as_str(),
        }
    }
}

impl Clone for GitReference {
    fn clone(&self) -> (r: Self)
        ensures
            r == *self,
    {
        match self {
            GitReference::Master => GitReference::Master,
            GitReference::Other(s) => GitReference::Other(s.clone()),
        }
    }
}

} // verus!
