use vstd::prelude::*;

use crate::errors::GitError;
use crate::exec::VcsExec;
use crate::exec::VcsModel;

verus! {

/// A verified in-memory executor over one remote repository carrying a
/// single reference: commands are lookups and copies on plain fields, so
/// no real repository is touched. It serves one mirror and one working
/// tree at a time; a command aimed anywhere else fails, as the contracts
/// allow. Every method is proved against the capability's contracts, so
/// the simulator also witnesses that their success cases are satisfiable.
pub struct SimVcs {
    /// The URL of the one remote this simulator serves.
    pub url: String,
    /// The single reference the remote carries.
    pub ref_name: String,
    /// The revision the remote's reference currently points at; changing
    /// this field between calls models an advancing upstream.
    pub rev: String,
    /// The path of the bare mirror, once one was cloned.
    pub mirror_path: Option<String>,
    /// The revision the mirror's reference captured at its last fetch;
    /// meaningful while `mirror_path` is set.
    pub mirror_rev: String,
    /// The path of the working tree, once one was cloned.
    pub tree_path: Option<String>,
    /// The revision the working tree is reset to; meaningful while
    /// `tree_path` is set.
    pub tree_rev_val: String,
    /// Whether the working tree's submodules are materialized.
    pub tree_subs: bool,
}

impl VcsExec for SimVcs {
    open spec fn model(&self) -> VcsModel {
        VcsModel {
            fs: Set::new(
                |q: Seq<char>|
                    {
                        ||| match self.mirror_path {
                            Some(p) => q == p@,
                            None => false,
                        }
                        ||| match self.tree_path {
                            Some(p) => q == p@,
                            None => false,
                        }
                    },
            ),
            markers: Set::new(
                |q: Seq<char>|
                    match self.tree_path {
                        Some(p) => q == p@,
                        None => false,
                    },
            ),
            mirrors: Map::total(
                |q: Seq<char>|
                    match self.mirror_path {
                        Some(p) => if q == p@ {
                            Map::<Seq<char>, Seq<char>>::empty().insert(
                                self.ref_name@,
                                self.mirror_rev@,
                            )
                        } else {
                            Map::empty()
                        },
                        None => Map::empty(),
                    },
            ),
            remotes: Map::total(
                |u: Seq<char>|
                    if u == self.url@ {
                        Map::<Seq<char>, Seq<char>>::empty().insert(self.ref_name@, self.rev@)
                    } else {
                        Map::empty()
                    },
            ),
            revs: Map::total(
                |q: Seq<char>|
                    match self.tree_path {
                        Some(p) => if q == p@ {
                            self.tree_rev_val@
                        } else {
                            Seq::empty()
                        },
                        None => Seq::empty(),
                    },
            ),
            submodules: Set::new(
                |q: Seq<char>|
                    self.tree_subs && match self.tree_path {
                        Some(p) => q == p@,
                        None => false,
                    },
            ),
        }
    }

    fn dir_exists(&self, path: &str) -> (r: bool) {
        let owned = path.to_owned();
        let at_mirror = match &self.mirror_path {
            Some(p) => owned == *p,
            None => false,
        };
        let at_tree = match &self.tree_path {
            Some(p) => owned == *p,
            None => false,
        };
        at_mirror || at_tree
    }

    fn work_tree_exists(&self, path: &str) -> (r: bool) {
        let owned = path.to_owned();
        match &self.tree_path {
            Some(p) => owned == *p,
            None => false,
        }
    }

    fn fetch_mirror(&mut self, path: &str, url: &str, verbose: bool) -> (r: Result<(), GitError>) {
        let owned_path = path.to_owned();
        let owned_url = url.to_owned();
        let applicable = match &self.mirror_path {
            Some(p) => owned_path == *p && owned_url == self.url,
            None => false,
        };
        if applicable {
            self.mirror_rev = self.rev.clone();
            Ok(())
        } else {
            Err(GitError::Process(owned_path))
        }
    }

    fn clone_mirror(&mut self, path: &str, url: &str, verbose: bool) -> (r: Result<(), GitError>) {
        let owned_path = path.to_owned();
        let owned_url = url.to_owned();
        let fresh = match &self.mirror_path {
            Some(p) => owned_path == *p,
            None => true,
        };
        if fresh && owned_url == self.url {
            self.mirror_path = Some(owned_path);
            self.mirror_rev = self.rev.clone();
            Ok(())
        } else {
            Err(GitError::Process(owned_path))
        }
    }

    fn mkdir_parents(&mut self, path: &str) -> (r: Result<(), GitError>) {
        Ok(())
    }

    fn remove_all(&mut self, path: &str) -> (r: Result<(), GitError>) {
        let owned = path.to_owned();
        let at_mirror = match &self.mirror_path {
            Some(p) => owned == *p,
            None => false,
        };
        if at_mirror {
            self.mirror_path = None;
        }
        let at_tree = match &self.tree_path {
            Some(p) => owned == *p,
            None => false,
        };
        if at_tree {
            self.tree_path = None;
        }
        Ok(())
    }

    fn clone_tree(&mut self, path: &str, from: &str, verbose: bool) -> (r: Result<(), GitError>) {
        let owned = path.to_owned();
        let fresh = match &self.tree_path {
            Some(p) => owned == *p,
            None => true,
        };
        if fresh {
            self.tree_path = Some(owned);
            self.tree_subs = false;
            Ok(())
        } else {
            Err(GitError::Process(owned))
        }
    }

    fn make_accessible(&mut self, path: &str) -> (r: Result<(), GitError>) {
        Ok(())
    }

    fn fetch_tree(&mut self, path: &str, from: &str, verbose: bool) -> (r: Result<(), GitError>) {
        Ok(())
    }

    fn reset_tree(&mut self, path: &str, rev: &str, verbose: bool) -> (r: Result<(), GitError>) {
        let owned = path.to_owned();
        let at_tree = match &self.tree_path {
            Some(p) => owned == *p,
            None => false,
        };
        if at_tree {
            self.tree_rev_val = rev.to_owned();
            Ok(())
        } else {
            Err(GitError::Process(owned))
        }
    }

    fn submodule_update(&mut self, path: &str, verbose: bool) -> (r: Result<(), GitError>) {
        let owned = path.to_owned();
        let at_tree = match &self.tree_path {
            Some(p) => owned == *p,
            None => false,
        };
        if at_tree {
            self.tree_subs = true;
            Ok(())
        } else {
            Err(GitError::Process(owned))
        }
    }

    fn rev_parse(&mut self, path: &str, refname: &str, verbose: bool) -> (r: Result<
        String,
        GitError,
    >) {
        let owned_path = path.to_owned();
        let at_mirror = match &self.mirror_path {
            Some(p) => owned_path == *p,
            None => false,
        };
        if at_mirror {
            let owned_ref = refname.to_owned();
            if owned_ref == self.ref_name {
                return Ok(self.mirror_rev.clone());
            }
        }
        Err(GitError::Process(owned_path))
    }
}

} // verus!
