use vstd::prelude::*;

use crate::checkout::GitCheckout;
use crate::database::GitDatabase;
use crate::database::copy_to_ok;
use crate::exec::VcsModel;
use crate::reference::GitReference;
use crate::reference::ref_str;
use crate::remote::checkout_ok;
use crate::source::GitSource;
use crate::source::source_updated;

verus! {

/// For any named reference, the canonical string is exactly the carried
/// name: converting a non-default string to a reference and back returns
/// the original string.
pub proof fn lemma_named_reference_string(r: GitReference)
    requires
        r is Other,
    ensures
        ref_str(r) == r->Other_0@,
{
}

/// Materializing the mirror is idempotent in effect: a second successful
/// clone-or-fetch against an unchanged remote leaves the mirror exactly
/// as the first left it -- the same resolvable references as one call
/// followed by a fetch, with no duplicate clone observable in the model.
pub proof fn lemma_checkout_idempotent(
    m0: VcsModel,
    m1: VcsModel,
    m2: VcsModel,
    url: Seq<char>,
    into: Seq<char>,
)
    requires
        checkout_ok(m0, m1, url, into),
        checkout_ok(m1, m2, url, into),
    ensures
        m2.mirror_refs(into) == m1.mirror_refs(into),
        m2.mirror_refs(into) == m1.remote_refs(url),
{
}

/// Two successful materializations of the same reference into the same
/// destination, with the mirror unchanged in between, pin the identical
/// revision, and the working tree ends up reset to exactly that revision.
/// (The destination must not be the mirror path itself: a tree
/// materialized over the mirror would destroy what it reads from.)
pub proof fn lemma_copy_to_same_revision(
    m0: VcsModel,
    m1: VcsModel,
    m2: VcsModel,
    db: GitDatabase,
    refname: Seq<char>,
    dest: Seq<char>,
    c1: GitCheckout,
    c2: GitCheckout,
)
    requires
        copy_to_ok(m0, m1, db, refname, dest, c1),
        copy_to_ok(m1, m2, db, refname, dest, c2),
        dest != db.path@,
    ensures
        c2.revision@ == c1.revision@,
        m2.tree_rev(dest) == c1.revision@,
{
}

/// An update pins the working tree to the tip of the source's reference
/// as the remote reported it at call time -- a hard reset, not a merge.
/// So when the remote's reference advances between two updates, the
/// second update moves the tree to the new tip: the pinned revision
/// changes whenever the tip did.
pub proof fn lemma_update_tracks_tip(
    m0: VcsModel,
    m1: VcsModel,
    m2: VcsModel,
    m3: VcsModel,
    src: GitSource,
)
    requires
        source_updated(m0, m1, src),
        source_updated(m2, m3, src),
    ensures
        m1.tree_rev(src.checkout_path@) == m0.remote_refs(src.remote.url@)[ref_str(src.reference)],
        m3.tree_rev(src.checkout_path@) == m2.remote_refs(src.remote.url@)[ref_str(src.reference)],
        m0.remote_refs(src.remote.url@)[ref_str(src.reference)] != m2.remote_refs(
            src.remote.url@,
        )[ref_str(src.reference)] ==> m3.tree_rev(src.checkout_path@) != m1.tree_rev(
            src.checkout_path@,
        ),
{
}

} // verus!
