use vstd::prelude::*;
use crate::git::types::{CommitId, RawSignature};
use git2::Commit as StoredCommit;

verus! {

/// `git2::Oid`: an object id as the store hands it out, carried as an opaque value.
#[verifier::external_type_specification]
#[verifier::external_body]
pub struct ExOid(git2::Oid);

/// `git2::Repository`: the handle on an opened store, carried as an opaque value.
#[verifier::external_type_specification]
#[verifier::external_body]
pub struct ExRepository(git2::Repository);

/// `git2::Revwalk`: a walk over the history of a store, carried as an opaque value.
#[verifier::external_type_specification]
#[verifier::external_body]
pub struct ExRevwalk<'repo>(git2::Revwalk<'repo>);

/// `git2::Reference`: a reference of a store, carried as an opaque value.
#[verifier::external_type_specification]
#[verifier::external_body]
pub struct ExReference<'repo>(git2::Reference<'repo>);

/// `git2::Branch`: a branch of a store, carried as an opaque value.
#[verifier::external_type_specification]
#[verifier::external_body]
pub struct ExBranch<'repo>(git2::Branch<'repo>);

/// `git2::Commit`: a commit as the store holds it, carried as an opaque value.
#[verifier::external_type_specification]
#[verifier::external_body]
pub struct ExStoredCommit<'repo>(StoredCommit<'repo>);

/// What a store is in the middle of, as `git2` reports it.
#[derive(Debug, Clone, Copy, PartialEq, Eq, Structural)]
pub enum StoreState {
    Clean,
    Merge,
    Revert,
    RevertSequence,
    CherryPick,
    CherryPickSequence,
    Bisect,
    Rebase,
    RebaseInteractive,
    RebaseMerge,
    ApplyMailbox,
    ApplyMailboxOrRebase,
}

/// The codes of a `git2` failure that the library tells apart.
#[derive(Debug, Clone, Copy, PartialEq, Eq, Structural)]
pub enum GitErrorCode {
    NotFound,
    UnbornBranch,
    Other,
}

/// Opens the store at exactly `path`, with `git2::Repository::open`.
#[verifier::external_body]
pub(crate) fn repo_open(path: &str) -> (r: Result<git2::Repository, git2::Error>)
{
    git2::Repository::open(path)
}

/// Searches `path` and its ancestors for a store, with `git2::Repository::discover`.
#[verifier::external_body]
pub(crate) fn repo_discover(path: &str) -> (r: Result<git2::Repository, git2::Error>)
{
    git2::Repository::discover(path)
}

/// The directory of the store's own files, from `git2::Repository::path`.
#[verifier::external_body]
pub(crate) fn repo_git_dir(repo: &git2::Repository) -> (r: String)
{
    repo.path().to_string_lossy().into_owned()
}

/// `git2::Repository::is_bare`.
#[verifier::external_body]
pub(crate) fn repo_is_bare(repo: &git2::Repository) -> (r: bool)
{
    repo.is_bare()
}

/// `git2::Repository::is_worktree`.
#[verifier::external_body]
pub(crate) fn repo_is_worktree(repo: &git2::Repository) -> (r: bool)
{
    repo.is_worktree()
}

/// `git2::Repository::is_empty`: whether the store holds no commit yet.
#[verifier::external_body]
pub(crate) fn repo_is_empty(repo: &git2::Repository) -> (r: Result<bool, git2::Error>)
{
    repo.is_empty()
}

/// `git2::Repository::state`, each state under the same name.
#[verifier::external_body]
pub(crate) fn repo_state(repo: &git2::Repository) -> (r: StoreState)
{
    match repo.state() {
        git2::RepositoryState::Clean => StoreState::Clean,
        git2::RepositoryState::Merge => StoreState::Merge,
        git2::RepositoryState::Revert => StoreState::Revert,
        git2::RepositoryState::RevertSequence => StoreState::RevertSequence,
        git2::RepositoryState::CherryPick => StoreState::CherryPick,
        git2::RepositoryState::CherryPickSequence => StoreState::CherryPickSequence,
        git2::RepositoryState::Bisect => StoreState::Bisect,
        git2::RepositoryState::Rebase => StoreState::Rebase,
        git2::RepositoryState::RebaseInteractive => StoreState::RebaseInteractive,
        git2::RepositoryState::RebaseMerge => StoreState::RebaseMerge,
        git2::RepositoryState::ApplyMailbox => StoreState::ApplyMailbox,
        git2::RepositoryState::ApplyMailboxOrRebase => StoreState::ApplyMailboxOrRebase,
    }
}

/// The working directory, from `git2::Repository::workdir`; a bare store has none.
#[verifier::external_body]
pub(crate) fn repo_workdir(repo: &git2::Repository) -> (r: Option<String>)
{
    repo.workdir().map(|p| p.to_string_lossy().into_owned())
}

/// Resolves HEAD with `git2::Repository::head`.
#[verifier::external_body]
pub(crate) fn repo_head<'a>(repo: &'a git2::Repository) -> (r: Result<
    git2::Reference<'a>,
    git2::Error,
>)
{
    repo.head()
}

/// `git2::Reference::is_branch`: whether the reference is a local branch.
#[verifier::external_body]
pub(crate) fn reference_is_branch(reference: &git2::Reference<'_>) -> (r: bool)
{
    reference.is_branch()
}

/// The commit a direct reference points at, from `git2::Reference::target`.
#[verifier::external_body]
pub(crate) fn reference_target(reference: &git2::Reference<'_>) -> (r: Option<CommitId>)
{
    reference.target().map(|oid| {
        let mut bytes = [0u8; 20];
        bytes.copy_from_slice(oid.as_bytes());
        CommitId { bytes }
    })
}

/// The short name of a reference, from `git2::Reference::shorthand`; absent
/// where it is not valid UTF-8.
#[verifier::external_body]
pub(crate) fn reference_shorthand(reference: &git2::Reference<'_>) -> (r: Option<String>)
{
    reference.shorthand().map(|s| s.to_string())
}

/// Tells apart the codes of `git2::Error::code` that the library acts on.
#[verifier::external_body]
pub(crate) fn error_code(e: &git2::Error) -> (r: GitErrorCode)
{
    match e.code() {
        git2::ErrorCode::NotFound => GitErrorCode::NotFound,
        git2::ErrorCode::UnbornBranch => GitErrorCode::UnbornBranch,
        _ => GitErrorCode::Other,
    }
}

/// The message of a failure, from `git2::Error::message`.
#[verifier::external_body]
pub(crate) fn git_error_text(e: &git2::Error) -> (r: String)
{
    e.message().to_string()
}

/// A failure that carries `text`, made with `git2::Error::from_str`.
#[verifier::external_body]
pub(crate) fn git_error_from(text: &str) -> (r: git2::Error)
{
    git2::Error::from_str(text)
}

/// Looks a local branch up by name, with `git2::Repository::find_branch`.
#[verifier::external_body]
pub(crate) fn find_local_branch<'a>(repo: &'a git2::Repository, name: &str) -> (r: Result<
    git2::Branch<'a>,
    git2::Error,
>)
{
    repo.find_branch(name, git2::BranchType::Local)
}

/// The branch that a local branch tracks, from `git2::Branch::upstream`.
#[verifier::external_body]
pub(crate) fn branch_upstream<'a>(branch: &git2::Branch<'a>) -> (r: Result<
    git2::Branch<'a>,
    git2::Error,
>)
{
    branch.upstream()
}

/// The name of a branch, from `git2::Branch::name`; absent where the call fails
/// or the name is not valid UTF-8.
#[verifier::external_body]
pub(crate) fn branch_name(branch: &git2::Branch<'_>) -> (r: Option<String>)
{
    branch.name().ok().flatten().map(|s| s.to_string())
}

/// The commit at the tip of a branch, from `git2::Reference::target` on the
/// branch's reference.
#[verifier::external_body]
pub(crate) fn branch_tip(branch: &git2::Branch<'_>) -> (r: Option<CommitId>)
{
    branch.get().target().map(|oid| {
        let mut bytes = [0u8; 20];
        bytes.copy_from_slice(oid.as_bytes());
        CommitId { bytes }
    })
}

/// Counts with `git2::Repository::graph_ahead_behind` the commits that only
/// `local` reaches and those that only `upstream` reaches.
#[verifier::external_body]
pub(crate) fn graph_ahead_behind(
    repo: &git2::Repository,
    local: &CommitId,
    upstream: &CommitId,
) -> (r: Result<(usize, usize), git2::Error>)
{
    let local = git2::Oid::from_bytes(&local.bytes)?;
    let upstream = git2::Oid::from_bytes(&upstream.bytes)?;
    repo.graph_ahead_behind(local, upstream)
}

/// Makes a history walker with `git2::Repository::revwalk`.
#[verifier::external_body]
pub(crate) fn revwalk_new<'a>(repo: &'a git2::Repository) -> (r: Result<
    git2::Revwalk<'a>,
    git2::Error,
>)
{
    repo.revwalk()
}

/// Starts the walk at HEAD, with `git2::Revwalk::push_head`.
#[verifier::external_body]
pub(crate) fn walk_push_head(walk: &mut git2::Revwalk<'_>) -> (r: Result<(), git2::Error>)
{
    walk.push_head()
}

/// Starts the walk at a commit, with `git2::Revwalk::push`.
#[verifier::external_body]
pub(crate) fn walk_push(walk: &mut git2::Revwalk<'_>, id: &CommitId) -> (r: Result<
    (),
    git2::Error,
>)
{
    walk.push(git2::Oid::from_bytes(&id.bytes)?)
}

/// Sets the walk up for a range, with `git2::Revwalk::push_range`: in a text
/// of the form `<from>..<to>` the left commit and its ancestors are left out
/// and the right commit is where the walk starts.
#[verifier::external_body]
pub(crate) fn walk_push_range(walk: &mut git2::Revwalk<'_>, range: &str) -> (r: Result<
    (),
    git2::Error,
>)
{
    walk.push_range(range)
}

/// Orders the walk topologically and then by commit time, with
/// `git2::Revwalk::set_sorting`.
#[verifier::external_body]
pub(crate) fn walk_sort_topological(walk: &mut git2::Revwalk<'_>) -> (r: Result<
    (),
    git2::Error,
>)
{
    walk.set_sorting(git2::Sort::TOPOLOGICAL | git2::Sort::TIME)
}

/// The next commit of the walk, from the `Iterator` impl of `git2::Revwalk`.
#[verifier::external_body]
pub(crate) fn walk_next(walk: &mut git2::Revwalk<'_>) -> (r: Option<
    Result<CommitId, git2::Error>,
>)
{
    walk.next().map(|step| step.map(|oid| {
        let mut bytes = [0u8; 20];
        bytes.copy_from_slice(oid.as_bytes());
        CommitId { bytes }
    }))
}

/// The number of commits a walk yields, by running it to its end.
#[verifier::external_body]
pub(crate) fn walk_count(walk: git2::Revwalk<'_>) -> (r: usize)
{
    walk.count()
}

/// Resolves a reference name to the commit it points at, with
/// `git2::Repository::refname_to_id`.
#[verifier::external_body]
pub(crate) fn refname_to_id(repo: &git2::Repository, name: &str) -> (r: Result<
    CommitId,
    git2::Error,
>)
{
    let oid = repo.refname_to_id(name)?;
    let mut bytes = [0u8; 20];
    bytes.copy_from_slice(oid.as_bytes());
    Ok(CommitId { bytes })
}

/// Looks a commit up by its identity, with `git2::Repository::find_commit`.
#[verifier::external_body]
pub(crate) fn find_commit<'a>(repo: &'a git2::Repository, id: &CommitId) -> (r: Result<
    StoredCommit<'a>,
    git2::Error,
>)
{
    repo.find_commit(git2::Oid::from_bytes(&id.bytes)?)
}

/// The full message, from `git2::Commit::message`; absent where it is not valid
/// UTF-8.
#[verifier::external_body]
pub(crate) fn commit_message(commit: &StoredCommit<'_>) -> (r: Option<String>)
{
    commit.message().map(|s| s.to_string())
}

/// The parents' identities in their stored order, from `git2::Commit::parent_ids`.
#[verifier::external_body]
pub(crate) fn commit_parent_ids(commit: &StoredCommit<'_>) -> (r: Vec<CommitId>)
{
    commit.parent_ids().map(|oid| {
        let mut bytes = [0u8; 20];
        bytes.copy_from_slice(oid.as_bytes());
        CommitId { bytes }
    }).collect()
}

/// The identity of the commit's tree, from `git2::Commit::tree_id`.
#[verifier::external_body]
pub(crate) fn commit_tree_id(commit: &StoredCommit<'_>) -> (r: CommitId)
{
    let mut bytes = [0u8; 20];
    bytes.copy_from_slice(commit.tree_id().as_bytes());
    CommitId { bytes }
}

/// The author's attribution, from `git2::Commit::author`.
#[verifier::external_body]
pub(crate) fn commit_author(commit: &StoredCommit<'_>) -> (r: RawSignature)
{
    let who = commit.author();
    RawSignature {
        name: who.name().map(|s| s.to_string()),
        email: who.email().map(|s| s.to_string()),
        seconds: who.when().seconds(),
    }
}

/// The committer's attribution, from `git2::Commit::committer`.
#[verifier::external_body]
pub(crate) fn commit_committer(commit: &StoredCommit<'_>) -> (r: RawSignature)
{
    let who = commit.committer();
    RawSignature {
        name: who.name().map(|s| s.to_string()),
        email: who.email().map(|s| s.to_string()),
        seconds: who.when().seconds(),
    }
}

/// The last component of a path, from `std::path::Path::file_name`; absent
/// where the path has none or it is not valid UTF-8.
#[verifier::external_body]
pub(crate) fn path_file_name(path: &str) -> (r: Option<String>)
{
    std::path::Path::new(path).file_name().and_then(|n| n.to_str()).map(|n| n.to_string())
}

} // verus!
