//! Version-control source provider for a package manager's dependency
//! acquisition layer.
//!
//! Given a remote repository URL and a symbolic reference, this library
//! maintains a single shared local bare mirror of the remote, resolves the
//! reference to a concrete revision, and pins a working tree to that
//! revision. Repeated invocations are idempotent and cheap while always
//! reflecting the tip of the reference at acquisition time.
//!
//! All external effects run through two injected capabilities: the VCS
//! command executor ([`exec::VcsExec`]) and the package-descriptor reader
//! ([`manifest::ManifestReader`]). The library's logic is verified against
//! the contracts of those capabilities, so every property proved here
//! holds for any executor that honours them.
//!
//! Execution is synchronous and single-threaded, and no locking is
//! performed: the mirror and working-tree paths are ordinary shared
//! filesystem resources, and a single caller is assumed to have exclusive
//! access to them for the duration of an operation. Nothing here prevents
//! two concurrent callers from racing on the same paths; a deployment
//! with concurrent workers needs an advisory lock scoped to the mirror
//! path around every mutating operation.

pub mod checkout;
pub mod database;
pub mod errors;
pub mod exec;
pub mod laws;
pub mod manifest;
pub mod reference;
pub mod remote;
pub mod sim;
pub mod source;

pub use checkout::EncodableGitCheckout;
pub use checkout::GitCheckout;
pub use database::EncodableGitDatabase;
pub use database::GitDatabase;
pub use errors::GitError;
pub use exec::VcsExec;
pub use exec::VcsModel;
pub use manifest::ManifestReader;
pub use manifest::NameVer;
pub use manifest::Package;
pub use manifest::Summary;
pub use reference::GitReference;
pub use remote::EncodableGitRemote;
pub use remote::GitRemote;
pub use sim::SimVcs;
pub use source::GitSource;
