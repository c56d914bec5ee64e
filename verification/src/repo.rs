//! The repository boundary: declarations of the `git2` types the analyses
//! carry through, and the trusted queries into the repository. Every result
//! here comes from the object store, the ref graph or the working copy on
//! disk, so nothing beyond its shape can be promised of it; the verified
//! analyses take these results as inputs and are proved for every value.
use crate::changes::PathStatus;
use vstd::prelude::*;
use vstd::string::StringExecFns;

verus! {

#[verifier::external_type_specification]
#[verifier::external_body]
pub struct ExRepository(git2::Repository);

#[verifier::external_type_specification]
#[verifier::external_body]
pub struct ExOid(git2::Oid);

#[verifier::external_type_specification]
#[verifier::external_body]
pub struct ExError(git2::Error);

#[verifier::external_type_specification]
#[verifier::external_body]
pub struct ExStatus(git2::Status);

/// A repository-query failure, carrying the underlying message.
#[derive(Debug)]
pub struct RepoError {
    pub message: String,
}

/// What HEAD names when it is attached to a born branch: the full ref name,
/// the short display name, and the commit the branch points at.
pub struct HeadRef {
    pub refname: String,
    pub shorthand: String,
    pub target: git2::Oid,
}

/// Relies on `git2::Error::message` for the text of a repository failure.
#[verifier::external_body]
pub(crate) fn git_error_message(e: &git2::Error) -> (r: String) {
    String::from_str(e.message())
}

/// Relies on `git2::Repository::head_detached` and `git2::Repository::head`,
/// and on `git2::Reference::name`, `shorthand` and `target`: resolves what
/// HEAD names, or `None` for a detached head, an unborn branch (no commits
/// yet), or a head that cannot be read as a named branch with a target.
#[verifier::external_body]
pub(crate) fn query_head(repo: &git2::Repository) -> (r: Option<HeadRef>) {
    if repo.head_detached().unwrap_or(true) {
        return None;
    }
    let head = match repo.head() {
        Ok(h) => h,
        Err(_) => return None,
    };
    match (head.name(), head.shorthand(), head.target()) {
        (Ok(n), Ok(s), Some(t)) => Some(HeadRef {
            refname: n.to_string(),
            shorthand: s.to_string(),
            target: t,
        }),
        _ => None,
    }
}

/// Relies on `git2::Repository::find_branch` with the local branch type, and
/// on `git2::Branch::get` and `git2::Reference::target`: the commit a local
/// branch of that name points at, or `None` when there is no such branch or
/// it has no direct target.
#[verifier::external_body]
pub(crate) fn query_local_branch_target(repo: &git2::Repository, name: &str) -> (r: Option<
    git2::Oid,
>) {
    match repo.find_branch(name, git2::BranchType::Local) {
        Ok(b) => b.get().target(),
        Err(_) => None,
    }
}

/// Relies on `git2::Repository::branch_upstream_name` and
/// `git2::Buf::as_str`: the full name of the upstream tracking ref
/// configured for the given local branch ref, or `None` when none is
/// configured.
#[verifier::external_body]
pub(crate) fn query_upstream_name(repo: &git2::Repository, refname: &str) -> (r: Option<String>) {
    match repo.branch_upstream_name(refname) {
        Ok(buf) => match buf.as_str() {
            Ok(s) => Some(s.to_string()),
            Err(_) => None,
        },
        Err(_) => None,
    }
}

/// Relies on `git2::Repository::refname_to_id`: the commit a ref name
/// resolves to, or `None` when it does not resolve.
#[verifier::external_body]
pub(crate) fn query_refname_target(repo: &git2::Repository, refname: &str) -> (r: Option<
    git2::Oid,
>) {
    match repo.refname_to_id(refname) {
        Ok(oid) => Some(oid),
        Err(_) => None,
    }
}

/// Relies on `git2::Repository::graph_ahead_behind`: the number of commits
/// reachable from the first commit and not the second, and the reverse, or
/// `None` when the graph walk fails.
#[verifier::external_body]
pub(crate) fn query_ahead_behind(repo: &git2::Repository, a: &git2::Oid, b: &git2::Oid) -> (r:
    Option<(usize, usize)>) {
    match repo.graph_ahead_behind(*a, *b) {
        Ok(pair) => Some(pair),
        Err(_) => None,
    }
}

/// Relies on `git2::Repository::statuses` over index and working tree with
/// untracked paths included, and on `git2::StatusEntry::status`: the raw
/// status flags of every path the repository reports.
#[verifier::external_body]
pub(crate) fn query_statuses(repo: &git2::Repository) -> (r: Result<
    Vec<git2::Status>,
    git2::Error,
>) {
    let mut opts = git2::StatusOptions::new();
    opts.include_untracked(true);
    opts.show(git2::StatusShow::IndexAndWorkdir);
    match repo.statuses(Some(&mut opts)) {
        Ok(st) => Ok(st.iter().map(|e| e.status()).collect()),
        Err(e) => Err(e),
    }
}

/// Relies on `git2::Status::contains` to read the per-path status bits into
/// plain flags.
#[verifier::external_body]
pub(crate) fn path_status_of(s: &git2::Status) -> (r: PathStatus) {
    PathStatus {
        index_new: s.contains(git2::Status::INDEX_NEW),
        index_modified: s.contains(git2::Status::INDEX_MODIFIED),
        index_renamed: s.contains(git2::Status::INDEX_RENAMED),
        index_deleted: s.contains(git2::Status::INDEX_DELETED),
        wt_new: s.contains(git2::Status::WT_NEW),
        wt_modified: s.contains(git2::Status::WT_MODIFIED),
        wt_renamed: s.contains(git2::Status::WT_RENAMED),
        wt_deleted: s.contains(git2::Status::WT_DELETED),
    }
}

} // verus!
