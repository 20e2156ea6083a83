use vstd::prelude::*;

verus! {

use vstd::string::StringExecFns;

use crate::config::Config;
use crate::utils::{read_dir, ResolveError};

/// The content store: a repository handle, the site configuration, and the
/// branch whose snapshot is served.
pub struct Store {
    pub repo: git2::Repository,
    pub config: Config,
    pub branch: String,
}

/// A diagnostic summary of the store: document and file counts, the commit
/// the snapshot stands at, and advisory findings.
#[derive(Debug)]
pub struct StoreHealthCheck {
    pub sha_reference: String,
    pub branch: String,
    pub posts: usize,
    pub total_files: usize,
    pub warnings: Vec<String>,
    pub errors: Vec<String>,
}

/// Relies on git2: Repository::head and Reference::target; the id of the
/// commit the repository's head points at, written in hexadecimal.
#[verifier::external_body]
fn head_commit_hex(repo: &git2::Repository) -> Option<String> {
    let oid = repo.head().ok()?.target()?;
    Some(format!("{}", oid))
}

/// Relies on git2: Repository::is_bare.
#[verifier::external_body]
fn repo_is_bare(repo: &git2::Repository) -> bool {
    repo.is_bare()
}

/// Builds the diagnostic summary from its already resolved parts: the
/// counts and the head commit are taken as given, no error is ever listed,
/// and a repository that is not bare earns the one advisory warning.
pub fn health_summary(
    posts: usize,
    total_files: usize,
    sha_reference: String,
    branch: String,
    bare: bool,
) -> (r: StoreHealthCheck)
    ensures
        r.posts == posts,
        r.total_files == total_files,
        r.sha_reference == sha_reference,
        r.branch == branch,
        r.errors@.len() == 0,
        bare ==> r.warnings@.len() == 0,
        !bare ==> r.warnings@.len() == 1 && r.warnings@[0]@ == "Repo is not in bare mode."@,
{
    let mut warnings: Vec<String> = Vec::new();
    if !bare {
        warnings.push(String::from_str("Repo is not in bare mode."));
    }
    let errors: Vec<String> = Vec::new();
    StoreHealthCheck { sha_reference, branch, posts, total_files, warnings, errors }
}

impl Store {
    /// Builds a store over an already loaded configuration.  The served
    /// branch is `master`.
    pub fn init(repo: git2::Repository, config: Config) -> (r: Store)
        ensures
            r.config == config,
            r.branch@ == "master"@,
    {
        Store { repo, config, branch: String::from_str("master") }
    }

    /// The branch this store serves.
    pub fn branch(&self) -> (r: &String)
        ensures
            r@ == self.branch@,
    {
        &self.branch
    }

    /// A diagnostic summary: how many files lie under the posts directory,
    /// how many files the snapshot holds in all, the head commit, and
    /// advisory warnings.  Performs no mutation, and fails only when branch
    /// resolution fails.
    pub fn health_check(&self) -> (r: Result<StoreHealthCheck, ResolveError>)
        ensures
            r matches Ok(h) ==> {
                &&& h.branch@ == self.branch@
                &&& h.errors@.len() == 0
                &&& h.warnings@.len() <= 1
                &&& (h.warnings@.len() == 0 || h.warnings@[0]@ == "Repo is not in bare mode."@)
            },
    {
        let posts = match read_dir(&self.repo, self.branch.as_str(), Some("_posts")) {
            Ok(v) => v.len(),
            Err(e) => {
                return Err(e);
            },
        };
        let files = match read_dir(&self.repo, self.branch.as_str(), None) {
            Ok(v) => v.len(),
            Err(e) => {
                return Err(e);
            },
        };
        let sha_reference = match head_commit_hex(&self.repo) {
            Some(s) => s,
            None => {
                return Err(ResolveError::NoSuchBranch);
            },
        };
        let bare = repo_is_bare(&self.repo);
        Ok(health_summary(posts, files, sha_reference, self.branch.clone(), bare))
    }
}

} // verus!
