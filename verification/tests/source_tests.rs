use git_source::GitError;
use git_source::GitReference;
use git_source::GitRemote;
use git_source::ManifestReader;
use git_source::NameVer;
use git_source::Package;
use git_source::Summary;
use git_source::VcsExec;
use git_source::VcsModel;
use vstd::prelude::Seq;

/// A named collection of references: either a remote repository (keyed by
/// URL) or a local bare mirror (keyed by path).
struct Repo {
    key: String,
    refs: Vec<(String, String)>,
}

/// A working tree on the fake disk.
struct Tree {
    path: String,
    rev: String,
    submodules: bool,
}

/// An in-memory executor: repositories are plain data, commands are
/// lookups and copies, and the interesting operations are counted so a
/// test can see which paths ran.
struct FakeVcs {
    remotes: Vec<Repo>,
    mirrors: Vec<Repo>,
    trees: Vec<Tree>,
    dirs: Vec<String>,
    clone_mirror_count: usize,
    fetch_mirror_count: usize,
    clone_tree_count: usize,
}

impl FakeVcs {
    fn new() -> FakeVcs {
        FakeVcs {
            remotes: Vec::new(),
            mirrors: Vec::new(),
            trees: Vec::new(),
            dirs: Vec::new(),
            clone_mirror_count: 0,
            fetch_mirror_count: 0,
            clone_tree_count: 0,
        }
    }

    fn add_remote(&mut self, url: &str, refs: &[(&str, &str)]) {
        self.remotes.push(Repo {
            key: url.to_string(),
            refs: refs.iter().map(|(n, r)| (n.to_string(), r.to_string())).collect(),
        });
    }

    fn set_remote_ref(&mut self, url: &str, name: &str, rev: &str) {
        let repo = self.remotes.iter_mut().find(|r| r.key == url).unwrap();
        match repo.refs.iter_mut().find(|(n, _)| n == name) {
            Some(entry) => entry.1 = rev.to_string(),
            None => repo.refs.push((name.to_string(), rev.to_string())),
        }
    }

    fn remote_refs_of(&self, url: &str) -> Vec<(String, String)> {
        match self.remotes.iter().find(|r| r.key == url) {
            Some(repo) => repo.refs.clone(),
            None => Vec::new(),
        }
    }

    fn mirror_refs_of(&self, path: &str) -> Vec<(String, String)> {
        match self.mirrors.iter().find(|r| r.key == path) {
            Some(repo) => repo.refs.clone(),
            None => Vec::new(),
        }
    }

    fn set_mirror(&mut self, path: &str, refs: Vec<(String, String)>) {
        match self.mirrors.iter_mut().find(|r| r.key == path) {
            Some(repo) => repo.refs = refs,
            None => self.mirrors.push(Repo { key: path.to_string(), refs }),
        }
    }

    fn tree_of(&self, path: &str) -> Option<&Tree> {
        self.trees.iter().find(|t| t.path == path)
    }
}

impl VcsExec for FakeVcs {
    // The model member of the capability describes the abstract state; it
    // exists only for contracts and is never called at run time.
    fn model(&self) -> VcsModel {
        panic!("specification-level member")
    }

    fn dir_exists(&self, path: &str) -> bool {
        self.dirs.iter().any(|d| d == path)
    }

    fn work_tree_exists(&self, path: &str) -> bool {
        self.trees.iter().any(|t| t.path == path)
    }

    fn fetch_mirror(&mut self, path: &str, url: &str, _verbose: bool) -> Result<(), GitError> {
        self.fetch_mirror_count += 1;
        let refs = self.remote_refs_of(url);
        self.set_mirror(path, refs);
        Ok(())
    }

    fn clone_mirror(&mut self, path: &str, url: &str, _verbose: bool) -> Result<(), GitError> {
        self.clone_mirror_count += 1;
        self.dirs.push(path.to_string());
        let refs = self.remote_refs_of(url);
        self.set_mirror(path, refs);
        Ok(())
    }

    fn mkdir_parents(&mut self, _path: &str) -> Result<(), GitError> {
        Ok(())
    }

    fn remove_all(&mut self, path: &str) -> Result<(), GitError> {
        self.dirs.retain(|d| d != path);
        self.mirrors.retain(|r| r.key != path);
        self.trees.retain(|t| t.path != path);
        Ok(())
    }

    fn clone_tree(&mut self, path: &str, _from: &str, _verbose: bool) -> Result<(), GitError> {
        self.clone_tree_count += 1;
        self.dirs.push(path.to_string());
        self.trees.push(Tree { path: path.to_string(), rev: String::new(), submodules: false });
        Ok(())
    }

    fn make_accessible(&mut self, _path: &str) -> Result<(), GitError> {
        Ok(())
    }

    fn fetch_tree(&mut self, _path: &str, _from: &str, _verbose: bool) -> Result<(), GitError> {
        Ok(())
    }

    fn reset_tree(&mut self, path: &str, rev: &str, _verbose: bool) -> Result<(), GitError> {
        let tree = self.trees.iter_mut().find(|t| t.path == path).unwrap();
        tree.rev = rev.to_string();
        Ok(())
    }

    fn submodule_update(&mut self, path: &str, _verbose: bool) -> Result<(), GitError> {
        let tree = self.trees.iter_mut().find(|t| t.path == path).unwrap();
        tree.submodules = true;
        Ok(())
    }

    fn rev_parse(&mut self, path: &str, refname: &str, _verbose: bool) -> Result<String, GitError> {
        let refs = self.mirror_refs_of(path);
        match refs.iter().find(|(n, _)| n == refname) {
            Some((_, rev)) => Ok(rev.clone()),
            None => Err(GitError::Process(format!("rev-parse {}", refname))),
        }
    }
}

/// A manifest reader that always reports one fixed package, or fails.
struct FakeReader {
    name: String,
    version: String,
    fail: bool,
}

impl FakeReader {
    fn declaring(name: &str, version: &str) -> FakeReader {
        FakeReader { name: name.to_string(), version: version.to_string(), fail: false }
    }

    fn broken() -> FakeReader {
        FakeReader { name: String::new(), version: String::new(), fail: true }
    }
}

impl ManifestReader for FakeReader {
    // Specification-level member; never called at run time.
    fn manifest_at(&self, _dir: Seq<char>) -> Option<(Seq<char>, Seq<char>)> {
        panic!("specification-level member")
    }

    fn read_manifest(&self, dir: &str) -> Result<Package, GitError> {
        if self.fail {
            Err(GitError::Manifest(dir.to_string()))
        } else {
            Ok(Package {
                summary: Summary { name: self.name.clone(), version: self.version.clone() },
            })
        }
    }
}

const URL: &str = "https://example.com/repo";
const MIRROR: &str = "/cache/mirror";
const WORK: &str = "/cache/work";

fn seeded() -> FakeVcs {
    let mut vcs = FakeVcs::new();
    vcs.add_remote(URL, &[("master", "aaa111"), ("v1", "bbb222")]);
    vcs
}

fn name_ver(name: &str, version: &str) -> NameVer {
    NameVer { name: name.to_string(), version: version.to_string() }
}

#[test]
fn checkout_clones_once_then_fetches() {
    let mut vcs = seeded();
    let remote = GitRemote::new(URL.to_string(), false);

    let db = remote.checkout(&mut vcs, MIRROR).unwrap();
    assert_eq!(db.path, MIRROR);
    assert_eq!(vcs.clone_mirror_count, 1);
    assert_eq!(vcs.fetch_mirror_count, 0);
    assert_eq!(vcs.mirror_refs_of(MIRROR), vcs.remote_refs_of(URL));

    let db2 = remote.checkout(&mut vcs, MIRROR).unwrap();
    assert_eq!(db2.path, MIRROR);
    assert_eq!(vcs.clone_mirror_count, 1);
    assert_eq!(vcs.fetch_mirror_count, 1);
    assert_eq!(vcs.mirror_refs_of(MIRROR), vcs.remote_refs_of(URL));
}

#[test]
fn copy_to_twice_pins_same_revision() {
    let mut vcs = seeded();
    let remote = GitRemote::new(URL.to_string(), false);
    let db = remote.checkout(&mut vcs, MIRROR).unwrap();

    let c1 = db.copy_to(&mut vcs, "master", WORK).unwrap();
    let c2 = db.copy_to(&mut vcs, "master", WORK).unwrap();
    assert_eq!(c1.revision, "aaa111");
    assert_eq!(c2.revision, "aaa111");
    let tree = vcs.tree_of(WORK).unwrap();
    assert_eq!(tree.rev, "aaa111");
    assert!(tree.submodules);
}

#[test]
fn copy_to_skips_clone_when_work_tree_present() {
    let mut vcs = seeded();
    let remote = GitRemote::new(URL.to_string(), false);
    let db = remote.checkout(&mut vcs, MIRROR).unwrap();

    let c1 = db.copy_to(&mut vcs, "v1", WORK).unwrap();
    assert_eq!(vcs.clone_tree_count, 1);
    let c2 = db.copy_to(&mut vcs, "v1", WORK).unwrap();
    assert_eq!(vcs.clone_tree_count, 1);
    assert_eq!(c1.revision, c2.revision);
}

#[test]
fn checkout_construction_reuses_existing_tree() {
    let mut vcs = seeded();
    let remote = GitRemote::new(URL.to_string(), false);
    let db = remote.checkout(&mut vcs, MIRROR).unwrap();
    vcs.dirs.push(WORK.to_string());
    vcs.trees.push(Tree { path: WORK.to_string(), rev: "old".to_string(), submodules: false });

    let c = git_source::GitCheckout::clone_into(
        WORK,
        db,
        GitReference::for_str("master"),
        false,
        &mut vcs,
    )
    .unwrap();
    assert_eq!(vcs.clone_tree_count, 0);
    assert_eq!(c.revision, "aaa111");
    assert_eq!(vcs.tree_of(WORK).unwrap().rev, "old");
}

#[test]
fn rev_for_resolves_known_reference() {
    let mut vcs = seeded();
    let remote = GitRemote::new(URL.to_string(), false);
    let db = remote.checkout(&mut vcs, MIRROR).unwrap();
    assert_eq!(db.rev_for(&mut vcs, "v1").unwrap(), "bbb222");
}

#[test]
fn rev_for_nonexistent_reference_fails_distinctly() {
    let mut vcs = seeded();
    let remote = GitRemote::new(URL.to_string(), false);
    let db = remote.checkout(&mut vcs, MIRROR).unwrap();
    let err = db.rev_for(&mut vcs, "nonexistent-ref").unwrap_err();
    assert!(err.is_ref_resolution());
    assert_eq!(err.detail(), "nonexistent-ref");
}

#[test]
fn copy_to_unresolvable_reference_fails() {
    let mut vcs = seeded();
    let remote = GitRemote::new(URL.to_string(), false);
    let db = remote.checkout(&mut vcs, MIRROR).unwrap();
    let err = db.copy_to(&mut vcs, "ghost", WORK).unwrap_err();
    assert!(err.is_ref_resolution());
    assert!(vcs.tree_of(WORK).is_none());
}

#[test]
fn update_tracks_advancing_tip() {
    let mut vcs = seeded();
    let remote = GitRemote::new(URL.to_string(), false);
    let src = git_source::GitSource::new(
        remote,
        "master".to_string(),
        MIRROR.to_string(),
        WORK.to_string(),
        false,
    );
    assert!(matches!(src.reference, GitReference::Master));

    src.update(&mut vcs).unwrap();
    assert_eq!(vcs.tree_of(WORK).unwrap().rev, "aaa111");

    vcs.set_remote_ref(URL, "master", "ccc333");
    src.update(&mut vcs).unwrap();
    let tree = vcs.tree_of(WORK).unwrap();
    assert_eq!(tree.rev, "ccc333");
    assert!(tree.submodules);
    assert_eq!(vcs.clone_mirror_count, 1);
    assert_eq!(vcs.clone_tree_count, 1);
}

#[test]
fn update_with_unresolvable_reference_fails() {
    let mut vcs = seeded();
    let remote = GitRemote::new(URL.to_string(), false);
    let src = git_source::GitSource::new(
        remote,
        "no-such-branch".to_string(),
        MIRROR.to_string(),
        WORK.to_string(),
        false,
    );
    let err = src.update(&mut vcs).unwrap_err();
    assert!(err.is_ref_resolution());
    assert_eq!(err.detail(), "no-such-branch");
    assert!(vcs.tree_of(WORK).is_none());
}

#[test]
fn update_on_verified_simulator_tracks_tip() {
    let mut sim = git_source::SimVcs {
        url: URL.to_string(),
        ref_name: "master".to_string(),
        rev: "aaa111".to_string(),
        mirror_path: None,
        mirror_rev: String::new(),
        tree_path: None,
        tree_rev_val: String::new(),
        tree_subs: false,
    };
    let src = git_source::GitSource::new(
        GitRemote::new(URL.to_string(), false),
        "master".to_string(),
        MIRROR.to_string(),
        WORK.to_string(),
        false,
    );

    src.update(&mut sim).unwrap();
    assert_eq!(sim.mirror_path.as_deref(), Some(MIRROR));
    assert_eq!(sim.tree_path.as_deref(), Some(WORK));
    assert_eq!(sim.tree_rev_val, "aaa111");
    assert!(sim.tree_subs);

    sim.rev = "bbb222".to_string();
    src.update(&mut sim).unwrap();
    assert_eq!(sim.tree_rev_val, "bbb222");
}

#[test]
fn get_returns_one_match_for_declared_identity() {
    let remote = GitRemote::new(URL.to_string(), false);
    let src = git_source::GitSource::new(
        remote,
        "master".to_string(),
        MIRROR.to_string(),
        WORK.to_string(),
        false,
    );
    let reader = FakeReader::declaring("foo", "1.0.0");
    let found = src.get(&reader, &[name_ver("foo", "1.0.0")]).unwrap();
    assert_eq!(found.len(), 1);
    assert_eq!(found[0].summary.name, "foo");
    assert_eq!(found[0].summary.version, "1.0.0");
}

#[test]
fn get_returns_nothing_for_other_version() {
    let remote = GitRemote::new(URL.to_string(), false);
    let src = git_source::GitSource::new(
        remote,
        "master".to_string(),
        MIRROR.to_string(),
        WORK.to_string(),
        false,
    );
    let reader = FakeReader::declaring("foo", "2.0.0");
    let found = src.get(&reader, &[name_ver("foo", "1.0.0")]).unwrap();
    assert_eq!(found.len(), 0);
}

#[test]
fn get_fails_only_when_manifest_unreadable() {
    let remote = GitRemote::new(URL.to_string(), false);
    let src = git_source::GitSource::new(
        remote,
        "master".to_string(),
        MIRROR.to_string(),
        WORK.to_string(),
        false,
    );
    let err = src.get(&FakeReader::broken(), &[name_ver("foo", "1.0.0")]).unwrap_err();
    assert!(err.is_manifest());
}

#[test]
fn list_returns_the_declared_summary() {
    let remote = GitRemote::new(URL.to_string(), false);
    let src = git_source::GitSource::new(
        remote,
        "dev".to_string(),
        MIRROR.to_string(),
        WORK.to_string(),
        false,
    );
    assert!(matches!(src.reference, GitReference::Other(_)));
    let summaries = src.list(&FakeReader::declaring("bar", "0.3.1")).unwrap();
    assert_eq!(summaries.len(), 1);
    assert_eq!(summaries[0].name, "bar");
    assert_eq!(summaries[0].version, "0.3.1");
    assert!(src.list(&FakeReader::broken()).unwrap_err().is_manifest());
}

#[test]
fn download_always_succeeds_and_touches_nothing() {
    let vcs = seeded();
    let remote = GitRemote::new(URL.to_string(), false);
    let src = git_source::GitSource::new(
        remote,
        "master".to_string(),
        MIRROR.to_string(),
        WORK.to_string(),
        false,
    );
    assert!(src.download(&[]).is_ok());
    assert!(src.download(&[name_ver("foo", "1.0.0")]).is_ok());
    assert_eq!(vcs.dirs.len(), 0);
    assert!(vcs.mirrors.is_empty());
    assert!(vcs.trees.is_empty());
}

#[test]
fn manifest_file_joins_the_well_known_name() {
    assert_eq!(git_source::manifest::manifest_file("/cache/work"), "/cache/work/Cargo.toml");
}

#[test]
fn is_for_name_ver_compares_both_fields() {
    let pkg = Package { summary: Summary { name: "foo".to_string(), version: "1.0.0".to_string() } };
    assert!(pkg.is_for_name_ver(&name_ver("foo", "1.0.0")));
    assert!(!pkg.is_for_name_ver(&name_ver("foo", "1.0.1")));
    assert!(!pkg.is_for_name_ver(&name_ver("bar", "1.0.0")));
    assert_eq!(pkg.get_summary().name, "foo");
}

#[test]
fn describe_names_url_and_nondefault_reference() {
    let src = git_source::GitSource::new(
        GitRemote::new(URL.to_string(), false),
        "master".to_string(),
        MIRROR.to_string(),
        WORK.to_string(),
        false,
    );
    assert_eq!(src.describe(), "git repo at https://example.com/repo");

    let src = git_source::GitSource::new(
        GitRemote::new(URL.to_string(), false),
        "v1".to_string(),
        MIRROR.to_string(),
        WORK.to_string(),
        false,
    );
    assert_eq!(src.describe(), "git repo at https://example.com/repo (v1)");
}

#[test]
fn encodable_projections_are_plain_records() {
    let mut vcs = seeded();
    let remote = GitRemote::new(URL.to_string(), true);
    let enc_remote = remote.encodable();
    assert_eq!(enc_remote.url, URL);

    let db = remote.checkout(&mut vcs, MIRROR).unwrap();
    let enc_db = db.encodable();
    assert_eq!(enc_db.path, MIRROR);
    assert_eq!(enc_db.remote.url, URL);

    let checkout = db.copy_to(&mut vcs, "master", WORK).unwrap();
    let enc = checkout.encodable();
    assert_eq!(enc.location, WORK);
    assert_eq!(enc.reference, "master");
    assert_eq!(enc.revision, "aaa111");
    assert_eq!(enc.database.path, MIRROR);
}
