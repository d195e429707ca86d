use vstd::prelude::*;
use crate::error::TwiggyError;
use crate::git::cache::{keyed_by_id, outcome_view, CommitCache};
use crate::git::history::{
    answers,
    cache_after,
    lemma_load_closed_form,
    lemma_load_idempotent,
    list_after,
    outcomes_fit,
    readable,
    readable_mask,
    reused_after,
    value_of,
};
use crate::git::walk::{
    branch_reference,
    lemma_walk_of_history,
    range_text,
    sound_steps,
    walk_after,
    walk_ends,
    walk_is_skipped,
    walk_step,
    window_of,
    WalkStep,
};
use crate::git::store::{
    branch_name,
    branch_tip,
    branch_upstream,
    commit_author,
    commit_committer,
    commit_message,
    commit_parent_ids,
    commit_tree_id,
    error_code,
    find_commit,
    find_local_branch,
    git_error_from,
    git_error_text,
    graph_ahead_behind,
    path_file_name,
    reference_is_branch,
    reference_shorthand,
    reference_target,
    refname_to_id,
    repo_discover,
    repo_git_dir,
    repo_head,
    repo_is_bare,
    repo_is_empty,
    repo_is_worktree,
    repo_open,
    repo_state,
    repo_workdir,
    revwalk_new,
    walk_count,
    walk_next,
    walk_push,
    walk_push_head,
    walk_push_range,
    walk_sort_topological,
    GitErrorCode,
    StoreState,
};
use crate::git::types::{
    bytes_of_hex,
    commit_of,
    hex_of,
    hex_text_valid,
    ids_view,
    views,
    Commit,
    CommitId,
    CommitView,
    RawCommit,
};
use crate::clock::unix_now;
use crate::seqs::{keep_where, lemma_keep_where_all, lemma_keep_where_push};
use crate::text::{begins_with, contains_text, join2, lower, lower_of, occurs_in, owned};

verus! {

/// How a store is laid out.
#[derive(Debug, Clone, Copy, PartialEq, Eq, Structural)]
pub enum RepositoryType {
    Normal,
    Bare,
    Worktree,
}

/// The condition of a store, derived afresh at each query.
#[derive(Debug, Clone, PartialEq)]
pub enum RepositoryHealth {
    Healthy,
    InOperation(String),
    Corrupted,
    Unknown,
}

/// Where HEAD stands.
#[derive(Debug, Clone, Copy, PartialEq, Eq, Structural)]
pub enum BranchState {
    Normal,
    DetachedHead,
    Unborn,
}

/// The current branch and how far it has diverged from the branch it tracks.
#[derive(Debug, Clone)]
pub struct BranchInfo {
    pub name: String,
    pub upstream: Option<String>,
    pub ahead: usize,
    pub behind: usize,
    pub state: BranchState,
}

/// What a look at HEAD found.
#[derive(Debug, Clone)]
pub enum HeadLookup {
    /// HEAD is a local branch, with its short name where that is readable.
    Branch { shorthand: Option<String> },
    /// HEAD points at a commit directly, where the commit is known.
    Detached { target: Option<CommitId> },
    /// HEAD names a branch that has no commit yet.
    Unborn,
    /// HEAD could not be resolved.
    Unavailable,
}

/// The layout of a store: bare before worktree, and otherwise normal.
pub open spec fn layout_of(is_bare: bool, is_worktree: bool) -> RepositoryType {
    if is_bare {
        RepositoryType::Bare
    } else if is_worktree {
        RepositoryType::Worktree
    } else {
        RepositoryType::Normal
    }
}

/// Classifies a store by its two flags.
pub fn classify_store(is_bare: bool, is_worktree: bool) -> (r: RepositoryType)
    ensures
        r == layout_of(is_bare, is_worktree),
{
    if is_bare {
        RepositoryType::Bare
    } else if is_worktree {
        RepositoryType::Worktree
    } else {
        RepositoryType::Normal
    }
}

/// The name under which a position of HEAD is shown, if it has one.
///
/// A detached HEAD is "HEAD detached at " and the short form of its commit, or
/// "HEAD (detached)" without a commit. A branch goes by its short name, or by
/// "HEAD" where that is unreadable. An unborn branch goes by the default branch
/// name. An unresolvable HEAD has no name.
pub open spec fn head_name(head: HeadLookup, default_branch: Seq<char>) -> Option<Seq<char>> {
    match head {
        HeadLookup::Detached { target: Some(id) } => Some(
            "HEAD detached at "@ + hex_of(id@).take(7),
        ),
        HeadLookup::Detached { target: None } => Some("HEAD (detached)"@),
        HeadLookup::Branch { shorthand: Some(name) } => Some(name@),
        HeadLookup::Branch { shorthand: None } => Some("HEAD"@),
        HeadLookup::Unborn => Some(default_branch),
        HeadLookup::Unavailable => None,
    }
}

/// The text of an optional string.
pub open spec fn text_of(t: Option<String>) -> Option<Seq<char>> {
    match t {
        Some(s) => Some(s@),
        None => None,
    }
}

/// Names the position of HEAD and says whether it is detached.
pub fn describe_head(head: &HeadLookup, default_branch: &str) -> (r: (Option<String>, bool))
    ensures
        text_of(r.0) == head_name(*head, default_branch@),
        r.1 == (head is Detached),
{
    match head {
        HeadLookup::Detached { target: Some(id) } => {
            let short = id.short();
            (Some(join2("HEAD detached at ", short.as_str())), true)
        },
        HeadLookup::Detached { target: None } => (Some(owned("HEAD (detached)")), true),
        HeadLookup::Branch { shorthand: Some(name) } => (Some(name.clone()), false),
        HeadLookup::Branch { shorthand: None } => (Some(owned("HEAD")), false),
        HeadLookup::Unborn => (Some(owned(default_branch)), false),
        HeadLookup::Unavailable => (None, false),
    }
}

/// The name of the operation that a store is in the middle of, if it is one
/// that the library knows.
pub open spec fn operation_name(state: StoreState) -> Option<Seq<char>> {
    match state {
        StoreState::Merge => Some("merge"@),
        StoreState::Revert => Some("revert"@),
        StoreState::CherryPick => Some("cherry-pick"@),
        StoreState::Bisect => Some("bisect"@),
        StoreState::Rebase => Some("rebase"@),
        StoreState::RebaseInteractive => Some("interactive rebase"@),
        StoreState::RebaseMerge => Some("rebase merge"@),
        StoreState::ApplyMailbox => Some("apply mailbox"@),
        StoreState::ApplyMailboxOrRebase => Some("apply mailbox or rebase"@),
        _ => None,
    }
}

/// Whether a health is what the emptiness and the state of a store call for.
///
/// A store whose emptiness cannot be told is corrupted. An empty store is
/// healthy whatever its state. Otherwise a clean store is healthy, a store in
/// a known operation is in that operation, and any other state is unknown.
pub open spec fn health_matches(
    health: RepositoryHealth,
    empty: Option<bool>,
    state: StoreState,
) -> bool {
    match empty {
        None => health is Corrupted,
        Some(true) => health is Healthy,
        Some(false) => if state == StoreState::Clean {
            health is Healthy
        } else {
            match operation_name(state) {
                Some(name) => health matches RepositoryHealth::InOperation(op) && op@ == name,
                None => health is Unknown,
            }
        },
    }
}

/// Derives the health of a store from its emptiness, where that could be told,
/// and its state.
pub fn health_of(empty: Option<bool>, state: StoreState) -> (r: RepositoryHealth)
    ensures
        health_matches(r, empty, state),
{
    match empty {
        None => RepositoryHealth::Corrupted,
        Some(true) => RepositoryHealth::Healthy,
        Some(false) => match state {
            StoreState::Clean => RepositoryHealth::Healthy,
            StoreState::Merge => RepositoryHealth::InOperation(owned("merge")),
            StoreState::Revert => RepositoryHealth::InOperation(owned("revert")),
            StoreState::CherryPick => RepositoryHealth::InOperation(owned("cherry-pick")),
            StoreState::Bisect => RepositoryHealth::InOperation(owned("bisect")),
            StoreState::Rebase => RepositoryHealth::InOperation(owned("rebase")),
            StoreState::RebaseInteractive => RepositoryHealth::InOperation(
                owned("interactive rebase"),
            ),
            StoreState::RebaseMerge => RepositoryHealth::InOperation(owned("rebase merge")),
            StoreState::ApplyMailbox => RepositoryHealth::InOperation(owned("apply mailbox")),
            StoreState::ApplyMailboxOrRebase => RepositoryHealth::InOperation(
                owned("apply mailbox or rebase"),
            ),
            StoreState::RevertSequence => RepositoryHealth::Unknown,
            StoreState::CherryPickSequence => RepositoryHealth::Unknown,
        },
    }
}

impl BranchInfo {
    /// The info of an attached branch: its divergence from the branch it
    /// tracks where that could be counted, and none otherwise.
    pub fn attached(name: String, upstream: Option<String>, distance: Option<(usize, usize)>) -> (r:
        BranchInfo)
        ensures
            r.name == name,
            r.upstream == upstream,
            r.state == BranchState::Normal,
            (r.ahead, r.behind) == match distance {
                Some(d) => d,
                None => (0usize, 0usize),
            },
    {
        let (ahead, behind) = match distance {
            Some(d) => d,
            None => (0, 0),
        };
        BranchInfo { name, upstream, ahead, behind, state: BranchState::Normal }
    }

    /// The info of a detached HEAD: named after its commit, tracking nothing.
    pub fn detached(target: Option<CommitId>) -> (r: BranchInfo)
        ensures
            Some(r.name@) == head_name((HeadLookup::Detached { target }), Seq::empty()),
            r.upstream is None,
            r.ahead == 0,
            r.behind == 0,
            r.state == BranchState::DetachedHead,
    {
        let name = match target {
            Some(id) => {
                let short = id.short();
                join2("HEAD detached at ", short.as_str())
            },
            None => owned("HEAD (detached)"),
        };
        BranchInfo { name, upstream: None, ahead: 0, behind: 0, state: BranchState::DetachedHead }
    }

    /// The info of a branch without a commit: the default branch, tracking nothing.
    pub fn unborn(default_branch: &str) -> (r: BranchInfo)
        ensures
            r.name@ == default_branch@,
            r.upstream is None,
            r.ahead == 0,
            r.behind == 0,
            r.state == BranchState::Unborn,
    {
        BranchInfo {
            name: owned(default_branch),
            upstream: None,
            ahead: 0,
            behind: 0,
            state: BranchState::Unborn,
        }
    }
}

/// What was seen of the branch that a branch tracks: its name, where that
/// is readable, and how many commits each of the two has that the other
/// lacks, where that could be counted.
#[derive(Debug)]
pub struct Tracking {
    pub name: Option<String>,
    pub distance: Option<(usize, usize)>,
}

/// What the lookups for the current branch came to.
#[derive(Debug)]
pub enum BranchLookup {
    /// HEAD could not be resolved.
    NoHead { code: GitErrorCode, source: git2::Error },
    /// HEAD points at a commit directly, where the commit is known.
    Detached { target: Option<CommitId> },
    /// HEAD is a branch whose short name cannot be read.
    Unnamed { source: git2::Error },
    /// The branch is not among the local branches.
    Missing { source: git2::Error },
    /// The branch points at no commit.
    NoTip { source: git2::Error },
    /// The branch was found, with what it tracks where it tracks anything.
    Attached { name: String, tracking: Option<Tracking> },
}

/// Whether a branch info holds exactly these values.
pub open spec fn info_is(
    info: BranchInfo,
    name: Seq<char>,
    upstream: Option<Seq<char>>,
    ahead: int,
    behind: int,
    state: BranchState,
) -> bool {
    &&& info.name@ == name
    &&& text_of(info.upstream) == upstream
    &&& info.ahead == ahead
    &&& info.behind == behind
    &&& info.state == state
}

/// Whether a failure is a `Git` error with this message and source.
pub open spec fn is_git_failure(e: TwiggyError, text: Seq<char>, source: git2::Error) -> bool {
    e matches TwiggyError::Git { message, source: s } && message@ == text && s == source
}

/// Whether a result is what the lookups for the current branch call for.
///
/// An unborn branch goes by the default name and a detached HEAD by the name
/// of its commit; neither tracks anything. A branch that was found goes by
/// its short name, with the name of what it tracks and the two counts, each
/// where it could be had and none or zero otherwise. A HEAD that cannot be
/// resolved for another reason, a branch without a readable name and a
/// branch without a commit are `Git` errors, and a branch that is not among
/// the local branches is a `BranchNotFound`.
pub open spec fn branch_info_matches(
    seen: BranchLookup,
    default_branch: Seq<char>,
    r: Result<BranchInfo, TwiggyError>,
) -> bool {
    match seen {
        BranchLookup::NoHead { code, source } => if code == GitErrorCode::UnbornBranch {
            r matches Ok(info) && info_is(info, default_branch, None, 0, 0, BranchState::Unborn)
        } else {
            r matches Err(e) && is_git_failure(e, "Failed to get HEAD"@, source)
        },
        BranchLookup::Detached { target } => r matches Ok(info) && info_is(
            info,
            match target {
                Some(id) => "HEAD detached at "@ + hex_of(id@).take(7),
                None => "HEAD (detached)"@,
            },
            None,
            0,
            0,
            BranchState::DetachedHead,
        ),
        BranchLookup::Unnamed { source } => r matches Err(e) && is_git_failure(
            e,
            "Invalid branch name"@,
            source,
        ),
        BranchLookup::Missing { source } => r matches Err(
            TwiggyError::BranchNotFound { message, source: s },
        ) && message@ == "Failed to find branch"@ && s == source,
        BranchLookup::NoTip { source } => r matches Err(e) && is_git_failure(
            e,
            "Branch has no target"@,
            source,
        ),
        BranchLookup::Attached { name, tracking } => r matches Ok(info) && match tracking {
            None => info_is(info, name@, None, 0, 0, BranchState::Normal),
            Some(t) => info_is(
                info,
                name@,
                text_of(t.name),
                match t.distance {
                    Some(d) => d.0 as int,
                    None => 0,
                },
                match t.distance {
                    Some(d) => d.1 as int,
                    None => 0,
                },
                BranchState::Normal,
            ),
        },
    }
}

/// Makes the branch info, or the failure, that the lookups for the current
/// branch call for.
pub fn branch_info_of(seen: BranchLookup, default_branch: &str) -> (r: Result<
    BranchInfo,
    TwiggyError,
>)
    ensures
        branch_info_matches(seen, default_branch@, r),
{
    match seen {
        BranchLookup::NoHead { code, source } => match code {
            GitErrorCode::UnbornBranch => Ok(BranchInfo::unborn(default_branch)),
            _ => Err(TwiggyError::Git { message: owned("Failed to get HEAD"), source }),
        },
        BranchLookup::Detached { target } => Ok(BranchInfo::detached(target)),
        BranchLookup::Unnamed { source } => Err(
            TwiggyError::Git { message: owned("Invalid branch name"), source },
        ),
        BranchLookup::Missing { source } => Err(
            TwiggyError::BranchNotFound { message: owned("Failed to find branch"), source },
        ),
        BranchLookup::NoTip { source } => Err(
            TwiggyError::Git { message: owned("Branch has no target"), source },
        ),
        BranchLookup::Attached { name, tracking } => match tracking {
            None => Ok(BranchInfo::attached(name, None, None)),
            Some(t) => Ok(BranchInfo::attached(name, t.name, t.distance)),
        },
    }
}

/// Whether every commit of a list is filed in a cache, under its identity and
/// as the list has it.
pub open spec fn list_cached(list: Seq<CommitView>, cache: Map<Seq<u8>, CommitView>) -> bool {
    forall|i: int|
        0 <= i < list.len() ==> cache.contains_key((#[trigger] list[i]).id) && cache[list[i].id]
            == list[i]
}

/// Whether a cache holds everything that another held, unchanged.
pub open spec fn extends(after: Map<Seq<u8>, CommitView>, before: Map<Seq<u8>, CommitView>) -> bool {
    forall|id: Seq<u8>| #[trigger]
        before.contains_key(id) ==> after.contains_key(id) && after[id] == before[id]
}

/// What a load did: how many identities it visited, how many of them it
/// took from the cache, how many it read from the store, and how many it
/// passed over because they could not be read.
#[derive(Debug, Clone, Copy, PartialEq, Eq, Structural)]
pub struct LoadReport {
    pub visited: usize,
    pub reused: usize,
    pub read: usize,
    pub skipped: usize,
}

/// Whether a report is that of visiting `ids` in turn from the cache `before`,
/// where the store gave `outcomes`.
pub open spec fn reports(
    report: LoadReport,
    before: Map<Seq<u8>, CommitView>,
    ids: Seq<Seq<u8>>,
    outcomes: Seq<Option<CommitView>>,
) -> bool {
    &&& report.visited == ids.len()
    &&& report.reused == reused_after(before, ids, outcomes)
    &&& report.reused + report.read == list_after(before, ids, outcomes).len()
    &&& report.reused + report.read + report.skipped == ids.len()
}

/// Whether `list`, the cache `after` and `report` are what visiting `ids` in
/// turn makes of the cache `before`, where the store gave `outcomes`.
pub open spec fn loaded(
    before: Map<Seq<u8>, CommitView>,
    after: Map<Seq<u8>, CommitView>,
    list: Seq<CommitView>,
    report: LoadReport,
    ids: Seq<Seq<u8>>,
    outcomes: Seq<Option<CommitView>>,
) -> bool {
    &&& outcomes_fit(ids, outcomes)
    &&& after == cache_after(before, ids, outcomes)
    &&& list == list_after(before, ids, outcomes)
    &&& reports(report, before, ids, outcomes)
}

/// Whether a load that visited `ids`, at most `bound` of them, made `list`,
/// the cache `after` and `report` of the cache `before`, where the store gave
/// `outcomes`.
pub open spec fn loaded_within(
    before: Map<Seq<u8>, CommitView>,
    after: Map<Seq<u8>, CommitView>,
    list: Seq<CommitView>,
    report: LoadReport,
    bound: int,
    ids: Seq<Seq<u8>>,
    outcomes: Seq<Option<CommitView>>,
) -> bool {
    ids.len() <= bound && loaded(before, after, list, report, ids, outcomes)
}

/// What the store gave to a load: whether it said that it is empty, where it
/// could tell; the steps of the walk; the identities that the walk kept; and
/// what reading each of them came to.
pub ghost struct LoadSeen {
    pub empty: Option<bool>,
    pub steps: Seq<Option<Result<CommitId, git2::Error>>>,
    pub kept: Seq<CommitId>,
    pub outcomes: Seq<Option<CommitView>>,
}

/// Whether the identities kept are those of the walk: none where the walk is
/// left out, because the store did not say that it is not empty, and
/// otherwise what the walk over the steps kept until it was over.
pub open spec fn walked(seen: LoadSeen, skip: int, take: int) -> bool {
    if seen.empty != Some(false) {
        seen.kept.len() == 0
    } else {
        walk_ends(seen.steps, skip, take, Ok::<Seq<CommitId>, git2::Error>(seen.kept))
    }
}

/// Whether `list`, the cache `after` and `report` are what a load makes of the
/// cache `before` and of what the store gave: the walk passes over `skip`
/// steps and keeps up to `take` identities, and these are visited in turn.
pub open spec fn load_seen(
    before: Map<Seq<u8>, CommitView>,
    after: Map<Seq<u8>, CommitView>,
    list: Seq<CommitView>,
    report: LoadReport,
    skip: int,
    take: int,
    seen: LoadSeen,
) -> bool {
    &&& walked(seen, skip, take)
    &&& loaded_within(before, after, list, report, take, ids_view(seen.kept), seen.outcomes)
}

/// What collecting identities came to, with the identities as a sequence.
pub open spec fn ids_result(r: Result<Vec<CommitId>, git2::Error>) -> Result<
    Seq<CommitId>,
    git2::Error,
> {
    match r {
        Ok(ids) => Ok(ids@),
        Err(e) => Err(e),
    }
}

/// The most commits a load visits where the caller names no bound.
pub const DEFAULT_LOAD_LIMIT: usize = 1000;

/// The bound of a load: the one given, or the default of 1000.
pub open spec fn bound_of(limit: Option<usize>) -> int {
    match limit {
        Some(n) => n as int,
        None => 1000,
    }
}

/// A handle on one store, with the commits loaded from it.
pub struct GitRepository {
    inner: git2::Repository,
    path: String,
    repo_type: RepositoryType,
    current_branch: Option<String>,
    is_detached: bool,
    default_branch: String,
    commits: Vec<Commit>,
    commit_cache: CommitCache,
    last_load: LoadReport,
}

/// Takes up to `take` identities from a walk after passing over `skip` steps.
///
/// A failed step among those passed over is ignored; a failed step after them
/// ends the collection with that failure. Where nothing is to be taken the
/// walk is not stepped at all, and nothing is what comes back.
fn collect_ids(walk: &mut git2::Revwalk<'_>, skip: usize, take: usize) -> (r: Result<
    Vec<CommitId>,
    git2::Error,
>)
    ensures
        r matches Ok(ids) ==> ids@.len() <= take,
        take == 0 ==> r is Ok,
        exists|steps: Seq<Option<Result<CommitId, git2::Error>>>|
            walk_ends(steps, skip as int, take as int, ids_result(r)),
{
    let mut ids: Vec<CommitId> = Vec::new();
    let mut passed: usize = 0;
    let ghost mut steps: Seq<Option<Result<CommitId, git2::Error>>> = Seq::empty();
    while ids.len() < take
        invariant
            passed <= skip,
            ids@.len() <= take,
            walk_after(steps, skip as int, take as int).passed == passed,
            walk_after(steps, skip as int, take as int).kept == ids@,
            !walk_after(steps, skip as int, take as int).stopped,
            walk_after(steps, skip as int, take as int).failure is None,
        decreases (skip - passed) + (take - ids@.len()),
    {
        let given = walk_next(walk);
        proof {
            assert(steps.push(given).drop_last() =~= steps);
            steps = steps.push(given);
        }
        match walk_step(passed, skip, given) {
            WalkStep::Stop => {
                let r: Result<Vec<CommitId>, git2::Error> = Ok(ids);
                assert(walk_ends(steps, skip as int, take as int, ids_result(r)));
                return r;
            },
            WalkStep::Pass => {
                passed = passed + 1;
            },
            WalkStep::Keep(id) => {
                ids.push(id);
            },
            WalkStep::Fail(e) => {
                let r: Result<Vec<CommitId>, git2::Error> = Err(e);
                assert(walk_ends(steps, skip as int, take as int, ids_result(r)));
                return r;
            },
        }
    }
    let r: Result<Vec<CommitId>, git2::Error> = Ok(ids);
    assert(walk_ends(steps, skip as int, take as int, ids_result(r)));
    r
}

/// Looks at HEAD.
fn read_head(repo: &git2::Repository) -> (r: HeadLookup) {
    match repo_head(repo) {
        Ok(reference) => {
            if reference_is_branch(&reference) {
                HeadLookup::Branch { shorthand: reference_shorthand(&reference) }
            } else {
                HeadLookup::Detached { target: reference_target(&reference) }
            }
        },
        Err(e) => match error_code(&e) {
            GitErrorCode::UnbornBranch => HeadLookup::Unborn,
            _ => HeadLookup::Unavailable,
        },
    }
}

impl GitRepository {
    /// The commits that the cache holds, by identity.
    pub closed spec fn cached(&self) -> Map<Seq<u8>, CommitView> {
        self.commit_cache@
    }

    /// The current view: the commits of the most recent load, in its order.
    pub closed spec fn listed(&self) -> Seq<CommitView> {
        views(self.commits@)
    }

    /// The path the handle was opened at.
    pub closed spec fn location(&self) -> Seq<char> {
        self.path@
    }

    /// The layout found when the store was opened.
    pub closed spec fn layout(&self) -> RepositoryType {
        self.repo_type
    }

    /// The name of the position of HEAD, as last resolved.
    pub closed spec fn branch(&self) -> Option<Seq<char>> {
        text_of(self.current_branch)
    }

    /// Whether HEAD was detached when last resolved.
    pub closed spec fn detached(&self) -> bool {
        self.is_detached
    }

    /// The name that an unborn branch goes by.
    pub closed spec fn default_name(&self) -> Seq<char> {
        self.default_branch@
    }

    /// What the most recent load did.
    pub closed spec fn last_report(&self) -> LoadReport {
        self.last_load
    }

    /// Whether the branch name and the detached flag are those of a position
    /// of HEAD.
    pub open spec fn resolved_as(&self, head: HeadLookup) -> bool {
        &&& self.branch() == head_name(head, self.default_name())
        &&& self.detached() == (head is Detached)
    }

    /// Whether the handle is well formed: the cache files no identity twice,
    /// and every commit of the current view is in the cache as the view has it.
    pub closed spec fn wf(&self) -> bool {
        &&& self.commit_cache.wf()
        &&& list_cached(views(self.commits@), self.commit_cache@)
    }

    /// Whether two states of a handle are on the same store at the same
    /// position: path, layout, branch name and default name agree.
    pub open spec fn same_handle(&self, other: &GitRepository) -> bool {
        &&& self.location() == other.location()
        &&& self.layout() == other.layout()
        &&& self.branch() == other.branch()
        &&& self.detached() == other.detached()
        &&& self.default_name() == other.default_name()
    }

    /// In a well-formed handle every cached commit is filed under its own
    /// identity, and every commit of the view is cached.
    pub proof fn lemma_wf(&self)
        requires
            self.wf(),
        ensures
            keyed_by_id(self.cached()),
            self.cached().dom().finite(),
            list_cached(self.listed(), self.cached()),
    {
        self.commit_cache.lemma_wf();
    }

    /// Reads one commit from the store.
    ///
    /// A commit that comes back bears the identity asked for and is what
    /// `Commit::from_raw` makes of some record; a commit that cannot be read is
    /// a `ParseFailed`.
    pub fn parse_commit(&self, id: &CommitId) -> (r: Result<Commit, TwiggyError>)
        ensures
            match r {
                Ok(c) => c@.id == id@ && exists|raw: RawCommit, now: int|
                    c@ == commit_of(*id, raw, now),
                Err(e) => e is ParseFailed,
            },
    {
        match find_commit(&self.inner, id) {
            Err(source) => {
                let text = id.as_str();
                Err(
                    TwiggyError::ParseFailed {
                        message: join2("Failed to find commit ", text.as_str()),
                        source,
                    },
                )
            },
            Ok(record) => {
                let raw = RawCommit {
                    message: commit_message(&record),
                    parents: commit_parent_ids(&record),
                    tree: commit_tree_id(&record),
                    author: commit_author(&record),
                    committer: commit_committer(&record),
                };
                let now = unix_now();
                let commit = Commit::from_raw(*id, &raw, now);
                assert(commit@ == commit_of(*id, raw, now as int));
                Ok(commit)
            },
        }
    }

    /// Visits identities in turn: a cached one is taken from the cache, one
    /// that is not is read from the store and filed, and one that cannot be
    /// read is passed over. The current view stays as it is, and the report of
    /// the load is kept.
    fn materialize(&mut self, ids: &Vec<CommitId>) -> (list: Vec<Commit>)
        requires
            old(self).wf(),
        ensures
            final(self).wf(),
            final(self).same_handle(old(self)),
            final(self).listed() == old(self).listed(),
            extends(final(self).cached(), old(self).cached()),
            list_cached(views(list@), final(self).cached()),
            exists|outcomes: Seq<Option<CommitView>>|
                loaded(
                    old(self).cached(),
                    final(self).cached(),
                    views(list@),
                    final(self).last_report(),
                    ids_view(ids@),
                    outcomes,
                ),
    {
        let ghost before = self.commit_cache@;
        let ghost idsv = ids_view(ids@);
        let ghost mut outcomes: Seq<Option<CommitView>> = Seq::empty();
        let mut list: Vec<Commit> = Vec::new();
        let mut reused: usize = 0;
        let mut read: usize = 0;
        let mut skipped: usize = 0;
        let mut i: usize = 0;
        proof {
            self.commit_cache.lemma_wf();
            assert(idsv.take(0) =~= Seq::<Seq<u8>>::empty());
            assert(views(list@) =~= Seq::<CommitView>::empty());
        }
        while i < ids.len()
            invariant
                i <= ids.len(),
                idsv == ids_view(ids@),
                before == old(self).commit_cache@,
                self.commit_cache.wf(),
                keyed_by_id(self.commit_cache@),
                self.commits@ == old(self).commits@,
                self.same_handle(old(self)),
                outcomes.len() == i,
                outcomes_fit(idsv.take(i as int), outcomes),
                self.commit_cache@ == cache_after(before, idsv.take(i as int), outcomes),
                views(list@) == list_after(before, idsv.take(i as int), outcomes),
                extends(self.commit_cache@, before),
                list_cached(views(list@), self.commit_cache@),
                reused == reused_after(before, idsv.take(i as int), outcomes),
                reused + read == list@.len(),
                reused + read + skipped == i,
            decreases ids.len() - i,
        {
            let id = ids[i];
            let ghost seen = idsv.take(i as int);
            proof {
                assert(idsv.take(i + 1).drop_last() =~= seen);
                assert(idsv.take(i + 1).last() == id@);
            }
            let cached = self.commit_cache.contains(&id);
            let outcome: Option<Commit> = if cached {
                None
            } else {
                match self.parse_commit(&id) {
                    Ok(commit) => Some(commit),
                    Err(_) => None,
                }
            };
            let ghost given = outcome_view(outcome);
            if cached {
                reused = reused + 1;
            } else if outcome.is_some() {
                read = read + 1;
            } else {
                skipped = skipped + 1;
            }
            let ghost listed_before = views(list@);
            assert(listed_before.len() == list@.len());
            self.commit_cache.visit(&mut list, &id, outcome);
            proof {
                assert(outcomes.push(given).drop_last() =~= outcomes);
                outcomes = outcomes.push(given);
                self.commit_cache.lemma_wf();
                assert(views(list@).len() == list@.len());
            }
            i = i + 1;
        }
        let report = LoadReport { visited: ids.len(), reused, read, skipped };
        let ghost filed = self.commit_cache@;
        self.last_load = report;
        proof {
            assert(idsv.take(ids.len() as int) =~= idsv);
            assert(self.commit_cache@ == filed);
            assert(views(list@).len() == list@.len());
            assert(self.last_report() == report);
            assert(loaded(
                old(self).cached(),
                self.cached(),
                views(list@),
                self.last_report(),
                idsv,
                outcomes,
            ));
        }
        list
    }
}

/// The failure to report when a store cannot be opened: `RepositoryNotFound`
/// where `git2` found nothing at the path, `RepositoryInvalid` for anything
/// else, each with the message "Failed to open repository: " and the reason.
pub fn open_failure(code: GitErrorCode, reason: &str, source: git2::Error) -> (e: TwiggyError)
    ensures
        match e {
            TwiggyError::RepositoryNotFound { message, source: s } => code == GitErrorCode::NotFound
                && message@ == "Failed to open repository: "@ + reason@ && s == source,
            TwiggyError::RepositoryInvalid { message, source: s } => code != GitErrorCode::NotFound
                && message@ == "Failed to open repository: "@ + reason@ && s == source,
            _ => false,
        },
{
    let message = join2("Failed to open repository: ", reason);
    match code {
        GitErrorCode::NotFound => TwiggyError::RepositoryNotFound { message, source },
        _ => TwiggyError::RepositoryInvalid { message, source },
    }
}

/// The failure of a traversal, with its message.
fn traversal_failure(message: &str, source: git2::Error) -> (e: TwiggyError)
    ensures
        e matches TwiggyError::TraversalFailed { message: m, source: s } && m@ == message@ && s
            == source,
{
    TwiggyError::TraversalFailed { message: owned(message), source }
}

/// The name of a store: the last component of its path, or "Unknown" where
/// the path has none.
pub fn name_or_unknown(file_name: Option<String>) -> (r: String)
    ensures
        r@ == match file_name {
            Some(name) => name@,
            None => "Unknown"@,
        },
{
    match file_name {
        Some(name) => name,
        None => owned("Unknown"),
    }
}

/// Whether a commit answers a lower-case query: the query occurs in the
/// lower-case form of its message, summary, author name or author email, or the
/// canonical text of its identity begins with it.
pub open spec fn answers_query(c: CommitView, query: Seq<char>) -> bool {
    ||| occurs_in(query, lower_of(c.message))
    ||| occurs_in(query, lower_of(c.summary))
    ||| occurs_in(query, lower_of(c.author.name))
    ||| occurs_in(query, lower_of(c.author.email))
    ||| query.is_prefix_of(hex_of(c.id))
}

/// For each commit of a list, whether it answers a lower-case query.
pub open spec fn query_mask(list: Seq<CommitView>, query: Seq<char>) -> Seq<bool> {
    Seq::new(list.len(), |i: int| answers_query(list[i], query))
}

/// Tests one commit against a query that is already in lower case.
pub fn commit_matches(commit: &Commit, query_lower: &str) -> (r: bool)
    ensures
        r == answers_query(commit@, query_lower@),
{
    let message = lower(commit.message.as_str());
    if contains_text(message.as_str(), query_lower) {
        return true;
    }
    let summary = lower(commit.summary.as_str());
    if contains_text(summary.as_str(), query_lower) {
        return true;
    }
    let name = lower(commit.author.name.as_str());
    if contains_text(name.as_str(), query_lower) {
        return true;
    }
    let email = lower(commit.author.email.as_str());
    if contains_text(email.as_str(), query_lower) {
        return true;
    }
    let id = commit.id.as_str();
    begins_with(id.as_str(), query_lower)
}

/// What probing a path on disk found.
#[derive(Debug, Clone, Copy, PartialEq, Eq, Structural)]
pub struct PathProbe {
    /// Whether anything is at the path.
    pub exists: bool,
    /// Whether it is a directory.
    pub is_dir: bool,
    /// Whether it is marked read-only, where its metadata could be read.
    pub readonly: Option<bool>,
}

impl PathProbe {
    /// Whether the path is there and is a directory.
    pub fn accessible(&self) -> (r: bool)
        ensures
            r == (self.exists && self.is_dir),
    {
        self.exists && self.is_dir
    }

    /// Whether the path is there and is known not to be read-only.
    pub fn writable(&self) -> (r: bool)
        ensures
            r == (self.exists && self.readonly == Some(false)),
    {
        self.exists && match self.readonly {
            Some(readonly) => !readonly,
            None => false,
        }
    }

    /// What is wrong with the path, if anything: it is inaccessible where it is
    /// missing or no directory, and otherwise permission is denied where it is
    /// not known to be writable.
    pub fn fault(&self, path: &str) -> (r: Option<TwiggyError>)
        ensures
            match r {
                Some(TwiggyError::PathInaccessible { path: p }) => !(self.exists && self.is_dir)
                    && p@ == path@,
                Some(TwiggyError::PermissionDenied { path: p }) => self.exists && self.is_dir
                    && self.readonly != Some(false) && p@ == path@,
                Some(_) => false,
                None => self.exists && self.is_dir && self.readonly == Some(false),
            },
    {
        if !self.accessible() {
            Some(TwiggyError::PathInaccessible { path: owned(path) })
        } else if !self.writable() {
            Some(TwiggyError::PermissionDenied { path: owned(path) })
        } else {
            None
        }
    }
}

/// Whether a store can be opened at exactly `path`.
pub fn is_git_repository(path: &str) -> (r: bool) {
    repo_open(path).is_ok()
}

/// What a search that ended with a failure of the store comes to: that
/// nothing was found is no failure, and anything else is the failure given.
pub fn absent_or_failed<T>(code: GitErrorCode, failure: TwiggyError) -> (r: Result<
    Option<T>,
    TwiggyError,
>)
    ensures
        r == if code == GitErrorCode::NotFound {
            Ok::<Option<T>, TwiggyError>(None)
        } else {
            Err::<Option<T>, TwiggyError>(failure)
        },
{
    match code {
        GitErrorCode::NotFound => Ok(None),
        _ => Err(failure),
    }
}

/// How counting the commits that HEAD reaches went.
#[derive(Debug)]
pub enum HeadCount {
    /// The store holds no commit.
    EmptyStore,
    /// No walker could be made.
    NoWalker { source: git2::Error },
    /// The walk could not start at HEAD.
    NoHead { code: GitErrorCode, source: git2::Error },
    /// The walk was run to its end and yielded this many commits.
    Counted { commits: usize },
}

/// Whether a total is what the outcome of counting calls for.
///
/// An empty store and an unborn branch have no commits. A count is the total.
/// A walker that cannot be made, or cannot start at HEAD for another reason,
/// is a `TraversalFailed` that says which.
pub open spec fn total_matches(outcome: HeadCount, total: Result<usize, TwiggyError>) -> bool {
    match outcome {
        HeadCount::EmptyStore => total == Ok::<usize, TwiggyError>(0),
        HeadCount::Counted { commits } => total == Ok::<usize, TwiggyError>(commits),
        HeadCount::NoWalker { source } => total matches Err(
            TwiggyError::TraversalFailed { message, source: s },
        ) && message@ == "Failed to create revwalk"@ && s == source,
        HeadCount::NoHead { code, source } => if code == GitErrorCode::UnbornBranch {
            total == Ok::<usize, TwiggyError>(0)
        } else {
            total matches Err(TwiggyError::TraversalFailed { message, source: s }) && message@
                == "Failed to push HEAD"@ && s == source
        },
    }
}

/// The total that the outcome of counting comes to.
pub fn total_from(outcome: HeadCount) -> (r: Result<usize, TwiggyError>)
    ensures
        total_matches(outcome, r),
{
    match outcome {
        HeadCount::EmptyStore => Ok(0),
        HeadCount::Counted { commits } => Ok(commits),
        HeadCount::NoWalker { source } => Err(
            traversal_failure("Failed to create revwalk", source),
        ),
        HeadCount::NoHead { code, source } => match code {
            GitErrorCode::UnbornBranch => Ok(0),
            _ => Err(traversal_failure("Failed to push HEAD", source)),
        },
    }
}

/// Searches `path` and its ancestors for a store and gives the directory of
/// the store's own files. That none is found is no failure.
pub fn discover_repository(path: &str) -> (r: Result<Option<String>, TwiggyError>)
    ensures
        r matches Err(e) ==> e is Git,
{
    match repo_discover(path) {
        Ok(repo) => Ok(Some(repo_git_dir(&repo))),
        Err(e) => {
            let code = error_code(&e);
            let reason = git_error_text(&e);
            absent_or_failed(
                code,
                TwiggyError::Git {
                    message: join2("Failed to discover repository: ", reason.as_str()),
                    source: e,
                },
            )
        },
    }
}

impl GitRepository {
    /// Takes over an opened store: classifies it and resolves HEAD.
    fn adopt(inner: git2::Repository, path: String, default_branch: String) -> (r: GitRepository)
        ensures
            r.wf(),
            r.listed().len() == 0,
            r.cached() == Map::<Seq<u8>, CommitView>::empty(),
            r.location() == path@,
            r.default_name() == default_branch@,
            r.last_report() == (LoadReport { visited: 0, reused: 0, read: 0, skipped: 0 }),
            exists|head: HeadLookup| r.resolved_as(head),
            exists|is_bare: bool, is_worktree: bool| r.layout() == layout_of(is_bare, is_worktree),
    {
        let is_bare = repo_is_bare(&inner);
        let is_worktree = repo_is_worktree(&inner);
        let repo_type = classify_store(is_bare, is_worktree);
        let head = read_head(&inner);
        let (current_branch, is_detached) = describe_head(&head, default_branch.as_str());
        let r = GitRepository {
            inner,
            path,
            repo_type,
            current_branch,
            is_detached,
            default_branch,
            commits: Vec::new(),
            commit_cache: CommitCache::new(),
            last_load: LoadReport { visited: 0, reused: 0, read: 0, skipped: 0 },
        };
        assert(views(r.commits@) =~= Seq::<CommitView>::empty());
        assert(r.resolved_as(head));
        assert(r.layout() == layout_of(is_bare, is_worktree));
        r
    }

    /// Opens the store at exactly `path`; ancestors are not searched.
    ///
    /// The handle starts with nothing loaded, and an unborn branch goes by
    /// "main". Where nothing is at the path the failure is
    /// `RepositoryNotFound`; any other failure is `RepositoryInvalid`.
    pub fn open(path: &str) -> (r: Result<GitRepository, TwiggyError>)
        ensures
            match r {
                Ok(repo) => repo.wf() && repo.listed().len() == 0 && repo.cached() == Map::<
                    Seq<u8>,
                    CommitView,
                >::empty() && repo.location() == path@ && repo.default_name() == "main"@
                    && (exists|head: HeadLookup| repo.resolved_as(head)),
                Err(e) => e is RepositoryNotFound || e is RepositoryInvalid,
            },
    {
        match repo_open(path) {
            Ok(inner) => Ok(GitRepository::adopt(inner, owned(path), owned("main"))),
            Err(e) => {
                let reason = git_error_text(&e);
                Err(open_failure(error_code(&e), reason.as_str(), e))
            },
        }
    }

    /// Searches `path` and its ancestors for a store and opens it.
    ///
    /// That no store is found is no failure; any other failure is
    /// `RepositoryInvalid`. The handle's path is the store's working directory,
    /// or the directory of its own files where it has none.
    pub fn detect(path: &str) -> (r: Result<Option<GitRepository>, TwiggyError>)
        ensures
            match r {
                Ok(Some(repo)) => repo.wf() && repo.listed().len() == 0 && repo.cached() == Map::<
                    Seq<u8>,
                    CommitView,
                >::empty() && repo.default_name() == "main"@ && (exists|head: HeadLookup|
                    repo.resolved_as(head)),
                Ok(None) => true,
                Err(e) => e is RepositoryInvalid,
            },
    {
        match repo_discover(path) {
            Ok(inner) => {
                let location = match repo_workdir(&inner) {
                    Some(dir) => dir,
                    None => repo_git_dir(&inner),
                };
                Ok(Some(GitRepository::adopt(inner, location, owned("main"))))
            },
            Err(e) => {
                let code = error_code(&e);
                let reason = git_error_text(&e);
                absent_or_failed(
                    code,
                    TwiggyError::RepositoryInvalid {
                        message: join2("Failed to open repository: ", reason.as_str()),
                        source: e,
                    },
                )
            },
        }
    }

    /// Sets the name that an unborn branch goes by.
    pub fn set_default_branch(&mut self, name: &str)
        ensures
            final(self).default_name() == name@,
            final(self).wf() == old(self).wf(),
            final(self).listed() == old(self).listed(),
            final(self).cached() == old(self).cached()
                && final(self).last_report() == old(self).last_report(),
            final(self).location() == old(self).location(),
            final(self).layout() == old(self).layout(),
            final(self).branch() == old(self).branch(),
            final(self).detached() == old(self).detached(),
    {
        self.default_branch = owned(name);
    }

    /// Resolves HEAD again; what is loaded stays as it is.
    pub fn refresh_branch_info(&mut self) -> (r: Result<(), TwiggyError>)
        ensures
            r is Ok,
            final(self).wf() == old(self).wf(),
            final(self).listed() == old(self).listed(),
            final(self).cached() == old(self).cached()
                && final(self).last_report() == old(self).last_report(),
            final(self).location() == old(self).location(),
            final(self).layout() == old(self).layout(),
            final(self).default_name() == old(self).default_name(),
            final(self).detached() ==> final(self).branch() is Some,
            exists|head: HeadLookup| final(self).resolved_as(head),
    {
        let head = read_head(&self.inner);
        let (current_branch, is_detached) = describe_head(&head, self.default_branch.as_str());
        self.current_branch = current_branch;
        self.is_detached = is_detached;
        assert(self.resolved_as(head));
        Ok(())
    }

    /// Resolves HEAD again; what is loaded stays as it is.
    pub fn refresh(&mut self) -> (r: Result<(), TwiggyError>)
        ensures
            r is Ok,
            final(self).wf() == old(self).wf(),
            final(self).listed() == old(self).listed(),
            final(self).cached() == old(self).cached()
                && final(self).last_report() == old(self).last_report(),
            final(self).location() == old(self).location(),
            final(self).layout() == old(self).layout(),
            final(self).default_name() == old(self).default_name(),
            final(self).detached() ==> final(self).branch() is Some,
            exists|head: HeadLookup| final(self).resolved_as(head),
    {
        self.refresh_branch_info()
    }

    /// The name of the position of HEAD, as last resolved.
    pub fn current_branch(&self) -> (r: Option<&str>)
        ensures
            match r {
                Some(name) => self.branch() == Some(name@),
                None => self.branch() is None,
            },
    {
        match &self.current_branch {
            Some(name) => Some(name.as_str()),
            None => None,
        }
    }

    /// Whether HEAD was detached when last resolved.
    pub fn is_detached(&self) -> (r: bool)
        ensures
            r == self.detached(),
    {
        self.is_detached
    }

    /// The path of the handle.
    pub fn path(&self) -> (r: &str)
        ensures
            r@ == self.location(),
    {
        self.path.as_str()
    }

    /// The layout found when the store was opened.
    pub fn repo_type(&self) -> (r: &RepositoryType)
        ensures
            *r == self.layout(),
    {
        &self.repo_type
    }

    /// The name of the store: the last component of its path, or "Unknown".
    pub fn repository_name(&self) -> (r: String) {
        name_or_unknown(path_file_name(self.path.as_str()))
    }

    /// The working directory of the store; a bare store has none.
    pub fn workdir(&self) -> (r: Option<String>) {
        repo_workdir(&self.inner)
    }

    /// Whether the store holds no commit yet.
    pub fn is_empty(&self) -> (r: Result<bool, TwiggyError>)
        ensures
            r matches Err(e) ==> e is Git,
    {
        match repo_is_empty(&self.inner) {
            Ok(empty) => Ok(empty),
            Err(source) => Err(
                TwiggyError::Git {
                    message: owned("Failed to check if repository is empty"),
                    source,
                },
            ),
        }
    }

    /// The health of the store, derived afresh from its emptiness and state.
    pub fn validate(&self) -> (r: Result<RepositoryHealth, TwiggyError>)
        ensures
            r matches Ok(health) && exists|empty: Option<bool>, state: StoreState|
                health_matches(health, empty, state),
    {
        let empty = match repo_is_empty(&self.inner) {
            Ok(empty) => Some(empty),
            Err(_) => None,
        };
        let state = repo_state(&self.inner);
        let health = health_of(empty, state);
        assert(health_matches(health, empty, state));
        Ok(health)
    }

    /// The number of commits that HEAD reaches: zero in an empty store and on an
    /// unborn branch.
    pub fn total_commit_count(&self) -> (r: Result<usize, TwiggyError>)
        ensures
            r matches Err(e) ==> e is TraversalFailed,
    {
        let outcome = match repo_is_empty(&self.inner) {
            Ok(true) => HeadCount::EmptyStore,
            _ => match revwalk_new(&self.inner) {
                Err(source) => HeadCount::NoWalker { source },
                Ok(mut walk) => match walk_push_head(&mut walk) {
                    Ok(()) => HeadCount::Counted { commits: walk_count(walk) },
                    Err(source) => HeadCount::NoHead { code: error_code(&source), source },
                },
            },
        };
        total_from(outcome)
    }

    /// The current view: the commits of the most recent load, in its order.
    pub fn get_commits(&self) -> (r: &Vec<Commit>)
        ensures
            views(r@) == self.listed(),
    {
        &self.commits
    }

    /// What the most recent load did; nothing before the first load.
    pub fn last_load(&self) -> (r: LoadReport)
        ensures
            r == self.last_report(),
    {
        self.last_load
    }

    /// The number of commits in the current view.
    pub fn commit_count(&self) -> (r: usize)
        ensures
            r == self.listed().len(),
    {
        self.commits.len()
    }

    /// Looks a commit up in the cache.
    pub fn get_commit_by_id(&self, id: &CommitId) -> (r: Option<&Commit>)
        requires
            self.wf(),
        ensures
            match r {
                Some(c) => self.cached().contains_key(id@) && c@ == self.cached()[id@],
                None => !self.cached().contains_key(id@),
            },
    {
        self.commit_cache.get(id)
    }

    /// The number of commits in the cache.
    pub fn cache_size(&self) -> (r: usize)
        requires
            self.wf(),
        ensures
            r == self.cached().dom().len(),
    {
        self.commit_cache.len()
    }

    /// The commits of the current view that answer a query, in the view's
    /// order. The search is over the view only, and ignores case.
    pub fn search_commits(&self, query: &str) -> (r: Vec<&Commit>)
        ensures
            r@.map_values(|c: &Commit| c@) == keep_where(
                self.listed(),
                query_mask(self.listed(), lower_of(query@)),
            ),
    {
        let query_lower = lower(query);
        let ghost list = views(self.commits@);
        let ghost mask = query_mask(list, query_lower@);
        let mut found: Vec<&Commit> = Vec::new();
        let mut i: usize = 0;
        proof {
            assert(list.take(0) =~= Seq::<CommitView>::empty());
            assert(mask.take(0) =~= Seq::<bool>::empty());
            assert(found@.map_values(|c: &Commit| c@) =~= Seq::<CommitView>::empty());
        }
        while i < self.commits.len()
            invariant
                i <= self.commits.len(),
                list == views(self.commits@),
                mask == query_mask(list, query_lower@),
                found@.map_values(|c: &Commit| c@) == keep_where(
                    list.take(i as int),
                    mask.take(i as int),
                ),
            decreases self.commits.len() - i,
        {
            let commit = &self.commits[i];
            let ghost so_far = found@.map_values(|c: &Commit| c@);
            let hit = commit_matches(commit, query_lower.as_str());
            proof {
                lemma_keep_where_push(list.take(i as int), mask.take(i as int), list[i as int], hit);
                assert(list.take(i as int).push(list[i as int]) =~= list.take(i + 1));
                assert(mask.take(i as int).push(hit) =~= mask.take(i + 1));
            }
            if hit {
                found.push(commit);
                assert(found@.map_values(|c: &Commit| c@) =~= so_far.push(commit@));
            }
            i = i + 1;
        }
        proof {
            assert(list.take(self.commits.len() as int) =~= list);
            assert(mask.take(self.commits.len() as int) =~= mask);
        }
        found
    }
}

/// Copies a run of commits.
fn copy_run(commits: &Vec<Commit>, from: usize, to: usize) -> (r: Vec<Commit>)
    requires
        from <= to <= commits@.len(),
    ensures
        views(r@) == views(commits@).subrange(from as int, to as int),
{
    let mut out: Vec<Commit> = Vec::new();
    let mut i: usize = from;
    proof {
        assert(views(out@) =~= views(commits@).subrange(from as int, from as int));
    }
    while i < to
        invariant
            from <= i <= to,
            to <= commits@.len(),
            views(out@) == views(commits@).subrange(from as int, i as int),
        decreases to - i,
    {
        let ghost so_far = views(out@);
        let copy = commits[i].clone();
        out.push(copy);
        proof {
            assert(views(out@) =~= so_far.push(copy@));
            assert(views(commits@).subrange(from as int, i as int).push(views(commits@)[i as int])
                =~= views(commits@).subrange(from as int, i + 1));
        }
        i = i + 1;
    }
    out
}

/// The end of the window that starts at `start` and holds up to `count` of
/// `len` items.
pub open spec fn window_end(start: int, count: int, len: int) -> int {
    if start + count <= len {
        start + count
    } else {
        len
    }
}

impl GitRepository {
    /// Walks from HEAD in topological order and takes up to `take` identities
    /// after passing over `skip`.
    fn walk_from_head(&self, skip: usize, take: usize) -> (r: Result<Vec<CommitId>, TwiggyError>)
        ensures
            match r {
                Ok(ids) => ids@.len() <= take && exists|
                    steps: Seq<Option<Result<CommitId, git2::Error>>>,
                | walk_ends(steps, skip as int, take as int, Ok::<Seq<CommitId>, git2::Error>(ids@)),
                Err(e) => e is TraversalFailed,
            },
    {
        let mut walk = match revwalk_new(&self.inner) {
            Ok(walk) => walk,
            Err(e) => {
                return Err(traversal_failure("Failed to create revwalk", e));
            },
        };
        match walk_push_head(&mut walk) {
            Ok(()) => {},
            Err(e) => {
                return Err(traversal_failure("Failed to push HEAD", e));
            },
        }
        match walk_sort_topological(&mut walk) {
            Ok(()) => {},
            Err(e) => {
                return Err(traversal_failure("Failed to set sorting", e));
            },
        }
        match collect_ids(&mut walk, skip, take) {
            Ok(ids) => {
                assert(ids_result(Ok::<Vec<CommitId>, git2::Error>(ids)) == Ok::<
                    Seq<CommitId>,
                    git2::Error,
                >(ids@));
                Ok(ids)
            },
            Err(e) => Err(traversal_failure("Failed to get commit OID", e)),
        }
    }

    /// Walks from a commit in topological order and takes up to `take` identities.
    fn walk_from(&self, tip: &CommitId, take: usize) -> (r: Result<Vec<CommitId>, TwiggyError>)
        ensures
            match r {
                Ok(ids) => ids@.len() <= take && exists|
                    steps: Seq<Option<Result<CommitId, git2::Error>>>,
                | walk_ends(steps, 0, take as int, Ok::<Seq<CommitId>, git2::Error>(ids@)),
                Err(e) => e is TraversalFailed,
            },
    {
        let mut walk = match revwalk_new(&self.inner) {
            Ok(walk) => walk,
            Err(e) => {
                return Err(traversal_failure("Failed to create revwalk for branch", e));
            },
        };
        match walk_push(&mut walk, tip) {
            Ok(()) => {},
            Err(e) => {
                return Err(traversal_failure("Failed to push branch to revwalk", e));
            },
        }
        match walk_sort_topological(&mut walk) {
            Ok(()) => {},
            Err(e) => {
                return Err(traversal_failure("Failed to set sorting for branch commits", e));
            },
        }
        match collect_ids(&mut walk, 0, take) {
            Ok(ids) => {
                assert(ids_result(Ok::<Vec<CommitId>, git2::Error>(ids)) == Ok::<
                    Seq<CommitId>,
                    git2::Error,
                >(ids@));
                Ok(ids)
            },
            Err(e) => Err(traversal_failure("Failed to get commit OID for branch", e)),
        }
    }

    /// Walks what `to` reaches and `from` does not, in topological order, and
    /// takes up to `take` identities. An endpoint that does not resolve is an
    /// `InvalidIdentity`.
    fn walk_range(&self, from: &CommitId, to: &CommitId, take: usize) -> (r: Result<
        Vec<CommitId>,
        TwiggyError,
    >)
        ensures
            match r {
                Ok(ids) => ids@.len() <= take && exists|
                    steps: Seq<Option<Result<CommitId, git2::Error>>>,
                | walk_ends(steps, 0, take as int, Ok::<Seq<CommitId>, git2::Error>(ids@)),
                Err(e) => e is TraversalFailed || e is InvalidIdentity,
            },
    {
        let mut walk = match revwalk_new(&self.inner) {
            Ok(walk) => walk,
            Err(e) => {
                return Err(traversal_failure("Failed to create revwalk for range", e));
            },
        };
        let range = range_text(from, to);
        match walk_push_range(&mut walk, range.as_str()) {
            Ok(()) => {},
            Err(source) => {
                return Err(
                    TwiggyError::InvalidIdentity {
                        message: join2("Failed to resolve range ", range.as_str()),
                        source,
                    },
                );
            },
        }
        match walk_sort_topological(&mut walk) {
            Ok(()) => {},
            Err(e) => {
                return Err(traversal_failure("Failed to set sorting for range commits", e));
            },
        }
        match collect_ids(&mut walk, 0, take) {
            Ok(ids) => {
                assert(ids_result(Ok::<Vec<CommitId>, git2::Error>(ids)) == Ok::<
                    Seq<CommitId>,
                    git2::Error,
                >(ids@));
                Ok(ids)
            },
            Err(e) => Err(traversal_failure("Failed to get commit OID for range", e)),
        }
    }

    /// Whether the store is to be taken as empty: it is, or it cannot tell.
    fn taken_as_empty(&self) -> (r: bool) {
        let empty = match repo_is_empty(&self.inner) {
            Ok(empty) => Some(empty),
            Err(_) => None,
        };
        walk_is_skipped(empty)
    }

    /// Loads the current view: walks from HEAD in topological order, visits up
    /// to `limit` identities (1000 where none is given) and makes the commits
    /// had for them the current view.
    ///
    /// Each visited identity is taken from the cache where it is cached, and is
    /// otherwise read from the store and filed; one that cannot be read is
    /// passed over. An empty store yields an empty view. A traversal that fails
    /// leaves the view and the cache as they were.
    pub fn load_commits(&mut self, limit: Option<usize>) -> (r: Result<(), TwiggyError>)
        requires
            old(self).wf(),
        ensures
            final(self).wf(),
            final(self).same_handle(old(self)),
            match r {
                Ok(()) => exists|seen: LoadSeen| load_seen(
                        old(self).cached(),
                        final(self).cached(),
                        final(self).listed(),
                        final(self).last_report(),
                        0,
                        bound_of(limit) as int,
                        seen,
                    ),
                Err(e) => e is TraversalFailed && final(self).cached() == old(self).cached()
                    && final(self).last_report() == old(self).last_report()
                    && final(self).listed() == old(self).listed(),
            },
    {
        let take = match limit {
            Some(n) => n,
            None => DEFAULT_LOAD_LIMIT,
        };
        let skipped = self.taken_as_empty();
        let ids = if skipped {
            Vec::new()
        } else {
            match self.walk_from_head(0, take) {
                Ok(ids) => ids,
                Err(e) => {
                    return Err(e);
                },
            }
        };
        let list = self.materialize(&ids);
        let ghost seen = LoadSeen {
            empty: if skipped {
                None
            } else {
                Some(false)
            },
            steps: choose|steps: Seq<Option<Result<CommitId, git2::Error>>>|
                walk_ends(steps, 0, take as int, Ok::<Seq<CommitId>, git2::Error>(ids@)),
            kept: ids@,
            outcomes: choose|outcomes: Seq<Option<CommitView>>|
                loaded(
                    old(self).cached(),
                    self.cached(),
                    views(list@),
                    self.last_report(),
                    ids_view(ids@),
                    outcomes,
                ),
        };
        let ghost made = views(list@);
        let ghost filed = self.cached();
        self.commits = list;
        proof {
            assert(self.listed() == made);
            assert(self.cached() == filed);
            assert(load_seen(
                old(self).cached(),
                self.cached(),
                self.listed(),
                self.last_report(),
                0,
                bound_of(limit) as int,
                seen,
            ));
        }
        Ok(())
    }

    /// Loads the current view afresh, as `load_commits` does. A traversal that
    /// fails leaves the view and the cache as they were.
    pub fn refresh_commits(&mut self, limit: Option<usize>) -> (r: Result<(), TwiggyError>)
        requires
            old(self).wf(),
        ensures
            final(self).wf(),
            final(self).same_handle(old(self)),
            match r {
                Ok(()) => exists|seen: LoadSeen| load_seen(
                        old(self).cached(),
                        final(self).cached(),
                        final(self).listed(),
                        final(self).last_report(),
                        0,
                        bound_of(limit) as int,
                        seen,
                    ),
                Err(e) => e is TraversalFailed && final(self).cached() == old(self).cached()
                    && final(self).last_report() == old(self).last_report()
                    && final(self).listed() == old(self).listed(),
            },
    {
        self.load_commits(limit)
    }

    /// Gives a page of history: up to `count` commits from position `start`.
    ///
    /// Where `start` falls within the current view, the page is copied from
    /// the view and nothing else happens. Otherwise the store is walked from
    /// HEAD, `start` identities are passed over and up to `count` are visited
    /// as in a load. The current view stays as it is either way.
    pub fn load_commits_lazy(&mut self, start: usize, count: usize) -> (r: Result<
        Vec<Commit>,
        TwiggyError,
    >)
        requires
            old(self).wf(),
        ensures
            final(self).wf(),
            final(self).same_handle(old(self)),
            final(self).listed() == old(self).listed(),
            start < old(self).listed().len() ==> final(self).cached() == old(self).cached()
                && final(self).last_report() == old(self).last_report() && (
            r matches Ok(page) && views(page@) == old(self).listed().subrange(
                start as int,
                window_end(start as int, count as int, old(self).listed().len() as int),
            )),
            start >= old(self).listed().len() ==> match r {
                Ok(page) => exists|seen: LoadSeen| load_seen(
                        old(self).cached(),
                        final(self).cached(),
                        views(page@),
                        final(self).last_report(),
                        start as int,
                        count as int,
                        seen,
                    ),
                Err(e) => e is TraversalFailed && final(self).cached() == old(self).cached()
                    && final(self).last_report() == old(self).last_report(),
            },
    {
        let len = self.commits.len();
        if start < len {
            let room = len - start;
            let end = if count <= room {
                start + count
            } else {
                len
            };
            return Ok(copy_run(&self.commits, start, end));
        }
        let skipped = self.taken_as_empty();
        let ids = if skipped {
            Vec::new()
        } else {
            match self.walk_from_head(start, count) {
                Ok(ids) => ids,
                Err(e) => {
                    return Err(e);
                },
            }
        };
        let list = self.materialize(&ids);
        proof {
            let seen = LoadSeen {
                empty: if skipped {
                    None
                } else {
                    Some(false)
                },
                steps: choose|steps: Seq<Option<Result<CommitId, git2::Error>>>|
                    walk_ends(
                        steps,
                        start as int,
                        count as int,
                        Ok::<Seq<CommitId>, git2::Error>(ids@),
                    ),
                kept: ids@,
                outcomes: choose|outcomes: Seq<Option<CommitView>>|
                    loaded(
                        old(self).cached(),
                        self.cached(),
                        views(list@),
                        self.last_report(),
                        ids_view(ids@),
                        outcomes,
                    ),
            };
            assert(load_seen(
                old(self).cached(),
                self.cached(),
                views(list@),
                self.last_report(),
                start as int,
                count as int,
                seen,
            ));
        }
        let r: Result<Vec<Commit>, TwiggyError> = Ok(list);
        assert(r matches Ok(l) && l == list);
        r
    }

    /// Loads the history of a local branch: walks from the branch's tip in
    /// topological order and visits up to `limit` identities (1000 where none
    /// is given) as in a load. The current view stays as it is.
    ///
    /// A name that does not resolve to a local branch is a `BranchNotFound`.
    pub fn load_commits_for_branch(&mut self, branch_name: &str, limit: Option<usize>) -> (r:
        Result<Vec<Commit>, TwiggyError>)
        requires
            old(self).wf(),
        ensures
            final(self).wf(),
            final(self).same_handle(old(self)),
            final(self).listed() == old(self).listed(),
            match r {
                Ok(list) => exists|seen: LoadSeen| seen.empty == Some(false) && load_seen(
                        old(self).cached(),
                        final(self).cached(),
                        views(list@),
                        final(self).last_report(),
                        0,
                        bound_of(limit) as int,
                        seen,
                    ),
                Err(e) => (e is BranchNotFound || e is TraversalFailed) && final(self).cached()
                    == old(self).cached(),
            },
    {
        let take = match limit {
            Some(n) => n,
            None => DEFAULT_LOAD_LIMIT,
        };
        let reference = branch_reference(branch_name);
        let tip = match refname_to_id(&self.inner, reference.as_str()) {
            Ok(tip) => tip,
            Err(source) => {
                return Err(
                    TwiggyError::BranchNotFound {
                        message: join2("Failed to find branch: ", branch_name),
                        source,
                    },
                );
            },
        };
        let ids = match self.walk_from(&tip, take) {
            Ok(ids) => ids,
            Err(e) => {
                return Err(e);
            },
        };
        let list = self.materialize(&ids);
        proof {
            let seen = LoadSeen {
                empty: Some(false),
                steps: choose|steps: Seq<Option<Result<CommitId, git2::Error>>>|
                    walk_ends(steps, 0, take as int, Ok::<Seq<CommitId>, git2::Error>(ids@)),
                kept: ids@,
                outcomes: choose|outcomes: Seq<Option<CommitView>>|
                    loaded(
                        old(self).cached(),
                        self.cached(),
                        views(list@),
                        self.last_report(),
                        ids_view(ids@),
                        outcomes,
                    ),
            };
            assert(seen.empty == Some(false) && load_seen(
                old(self).cached(),
                self.cached(),
                views(list@),
                self.last_report(),
                0,
                bound_of(limit) as int,
                seen,
            ));
        }
        let r: Result<Vec<Commit>, TwiggyError> = Ok(list);
        assert(r matches Ok(l) && l == list);
        r
    }

    /// Loads the commits between two points: those that `to` reaches and
    /// `from` does not, in topological order, up to `limit` identities (1000
    /// where none is given), visited as in a load. The current view stays as
    /// it is.
    ///
    /// An endpoint that is no valid identity text, or that does not resolve, is
    /// an `InvalidIdentity`.
    pub fn load_commits_range(&mut self, from: &str, to: &str, limit: Option<usize>) -> (r: Result<
        Vec<Commit>,
        TwiggyError,
    >)
        requires
            old(self).wf(),
        ensures
            final(self).wf(),
            final(self).same_handle(old(self)),
            final(self).listed() == old(self).listed(),
            !hex_text_valid(from@) || !hex_text_valid(to@) ==> (r matches Err(e)
                && e is InvalidIdentity),
            match r {
                Ok(list) => hex_text_valid(from@) && hex_text_valid(to@) && exists|
                    seen: LoadSeen,
                | seen.empty == Some(false) && load_seen(
                        old(self).cached(),
                        final(self).cached(),
                        views(list@),
                        final(self).last_report(),
                        0,
                        bound_of(limit) as int,
                        seen,
                    ),
                Err(e) => (e is InvalidIdentity || e is TraversalFailed) && final(self).cached()
                    == old(self).cached(),
            },
    {
        let take = match limit {
            Some(n) => n,
            None => DEFAULT_LOAD_LIMIT,
        };
        let lower_end = match CommitId::parse(from) {
            Ok(id) => id,
            Err(e) => {
                return Err(e);
            },
        };
        let upper_end = match CommitId::parse(to) {
            Ok(id) => id,
            Err(e) => {
                return Err(e);
            },
        };
        let ids = match self.walk_range(&lower_end, &upper_end, take) {
            Ok(ids) => ids,
            Err(e) => {
                return Err(e);
            },
        };
        let list = self.materialize(&ids);
        proof {
            let seen = LoadSeen {
                empty: Some(false),
                steps: choose|steps: Seq<Option<Result<CommitId, git2::Error>>>|
                    walk_ends(steps, 0, take as int, Ok::<Seq<CommitId>, git2::Error>(ids@)),
                kept: ids@,
                outcomes: choose|outcomes: Seq<Option<CommitView>>|
                    loaded(
                        old(self).cached(),
                        self.cached(),
                        views(list@),
                        self.last_report(),
                        ids_view(ids@),
                        outcomes,
                    ),
            };
            assert(seen.empty == Some(false) && load_seen(
                old(self).cached(),
                self.cached(),
                views(list@),
                self.last_report(),
                0,
                bound_of(limit) as int,
                seen,
            ));
        }
        let r: Result<Vec<Commit>, TwiggyError> = Ok(list);
        assert(r matches Ok(l) && l == list);
        r
    }

    /// Finds a commit by the text of its identity: in the cache first, then in
    /// the store. The cache stays as it is.
    ///
    /// A text that is no valid identity is an `InvalidIdentity`. A cached
    /// commit is given as cached. A commit that the store does not hold is
    /// none, and one that it holds but cannot be read is a `ParseFailed`.
    pub fn find_commit_by_hash(&self, hash: &str) -> (r: Result<Option<Commit>, TwiggyError>)
        requires
            self.wf(),
        ensures
            !hex_text_valid(hash@) ==> (r matches Err(e) && e is InvalidIdentity),
            hex_text_valid(hash@) && self.cached().contains_key(bytes_of_hex(hash@)) ==> (
            r matches Ok(Some(c)) && c@ == self.cached()[bytes_of_hex(hash@)]),
            hex_text_valid(hash@) && !self.cached().contains_key(bytes_of_hex(hash@)) ==> match r {
                Ok(Some(c)) => c@.id == bytes_of_hex(hash@),
                Ok(None) => true,
                Err(e) => e is ParseFailed,
            },
    {
        let id = match CommitId::parse(hash) {
            Ok(id) => id,
            Err(e) => {
                return Err(e);
            },
        };
        match self.commit_cache.get(&id) {
            Some(c) => {
                return Ok(Some(c.clone()));
            },
            None => {},
        }
        match find_commit(&self.inner, &id) {
            Ok(_) => match self.parse_commit(&id) {
                Ok(commit) => Ok(Some(commit)),
                Err(e) => Err(e),
            },
            Err(source) => match error_code(&source) {
                GitErrorCode::NotFound => Ok(None),
                _ => Err(
                    TwiggyError::ParseFailed {
                        message: join2("Failed to find commit ", hash),
                        source,
                    },
                ),
            },
        }
    }

    /// Empties the cache, and the current view with it, so that every commit of
    /// the view is still a commit of the cache.
    pub fn clear_commit_cache(&mut self)
        ensures
            final(self).wf(),
            final(self).same_handle(old(self)),
            final(self).cached() == Map::<Seq<u8>, CommitView>::empty(),
            final(self).listed().len() == 0,
            final(self).last_report() == old(self).last_report(),
    {
        self.commit_cache.clear();
        self.commits.clear();
        assert(views(self.commits@) =~= Seq::<CommitView>::empty());
    }

    /// The current branch and its divergence from the branch it tracks.
    ///
    /// An unborn branch goes by the default name, a detached HEAD is named
    /// after its commit, and neither tracks anything. An attached branch
    /// reports the branch it tracks, where it tracks one, and how many commits
    /// each has that the other lacks; where that cannot be counted both
    /// counts are zero. What the store is asked, and in which order, is in the
    /// body; what comes of each answer is what `branch_info_of` makes of it.
    pub fn get_branch_info(&self) -> (r: Result<BranchInfo, TwiggyError>)
        ensures
            exists|seen: BranchLookup| branch_info_matches(seen, self.default_name(), r),
    {
        let seen = match repo_head(&self.inner) {
            Err(source) => BranchLookup::NoHead { code: error_code(&source), source },
            Ok(head) => {
                if !reference_is_branch(&head) {
                    BranchLookup::Detached { target: reference_target(&head) }
                } else {
                    match reference_shorthand(&head) {
                        None => BranchLookup::Unnamed {
                            source: git_error_from("Invalid branch name"),
                        },
                        Some(name) => match find_local_branch(&self.inner, name.as_str()) {
                            Err(source) => BranchLookup::Missing { source },
                            Ok(branch) => match branch_tip(&branch) {
                                None => BranchLookup::NoTip { source: git_error_from("No target") },
                                Some(tip) => match branch_upstream(&branch) {
                                    Err(_) => BranchLookup::Attached { name, tracking: None },
                                    Ok(followed) => {
                                        let distance = match branch_tip(&followed) {
                                            Some(followed_tip) => match graph_ahead_behind(
                                                &self.inner,
                                                &tip,
                                                &followed_tip,
                                            ) {
                                                Ok(d) => Some(d),
                                                Err(_) => None,
                                            },
                                            None => None,
                                        };
                                        BranchLookup::Attached {
                                            name,
                                            tracking: Some(
                                                Tracking { name: branch_name(&followed), distance },
                                            ),
                                        }
                                    },
                                },
                            },
                        },
                    }
                }
            },
        };
        let ghost given = seen;
        let r = branch_info_of(seen, self.default_branch.as_str());
        assert(branch_info_matches(given, self.default_name(), r));
        r
    }
}

/// A load that is made again from a store that has not changed yields the
/// same view and leaves the cache as the first load left it.
///
/// The store has not changed where it says the same of its emptiness, the
/// walk gives the same steps, and each identity is read as the same commit,
/// or as none, both times.
pub proof fn lemma_reload_same(
    store: Map<Seq<u8>, CommitView>,
    cache0: Map<Seq<u8>, CommitView>,
    cache1: Map<Seq<u8>, CommitView>,
    cache2: Map<Seq<u8>, CommitView>,
    list1: Seq<CommitView>,
    list2: Seq<CommitView>,
    report1: LoadReport,
    report2: LoadReport,
    skip: int,
    take: int,
    first: LoadSeen,
    second: LoadSeen,
)
    requires
        load_seen(cache0, cache1, list1, report1, skip, take, first),
        load_seen(cache1, cache2, list2, report2, skip, take, second),
        second.empty == first.empty,
        second.steps == first.steps,
        first.outcomes == answers(store, ids_view(first.kept)),
        second.outcomes == answers(store, ids_view(second.kept)),
    ensures
        list2 == list1,
        cache2 == cache1,
{
    assert(second.kept =~= first.kept);
    lemma_load_idempotent(cache0, store, ids_view(first.kept));
}

/// A load from a store whose walk gives the identities of a history in turn,
/// without a failure, and in which each of them can be read, yields the
/// commits of the walk's window, in the walk's order: as many as the smaller
/// of `take` and what is left of the history after `skip`.
pub proof fn lemma_load_of_history(
    store: Map<Seq<u8>, CommitView>,
    before: Map<Seq<u8>, CommitView>,
    after: Map<Seq<u8>, CommitView>,
    list: Seq<CommitView>,
    report: LoadReport,
    skip: int,
    take: int,
    seen: LoadSeen,
    history: Seq<CommitId>,
)
    requires
        0 <= skip,
        0 <= take,
        load_seen(before, after, list, report, skip, take, seen),
        seen.empty == Some(false),
        seen.steps == sound_steps(history).push(None),
        seen.outcomes == answers(store, ids_view(seen.kept)),
        forall|i: int| 0 <= i < history.len() ==> readable(before, store, (#[trigger] history[i])@),
    ensures
        ({
            let (from, to) = window_of(skip, take, history.len() as int);
            &&& seen.kept == history.subrange(from, to)
            &&& list.len() == to - from
            &&& list == ids_view(history.subrange(from, to)).map_values(
                |id: Seq<u8>| value_of(before, store, id),
            )
        }),
{
    let (from, to) = window_of(skip, take, history.len() as int);
    lemma_walk_of_history(history, skip, take);
    assert(seen.kept == history.subrange(from, to));
    let ids = ids_view(seen.kept);
    lemma_load_closed_form(before, store, ids);
    let mask = readable_mask(before, store, ids);
    assert forall|i: int| 0 <= i < mask.len() implies mask[i] by {
        assert(ids[i] == history[from + i]@);
    }
    lemma_keep_where_all(ids, mask);
}

} // verus!
