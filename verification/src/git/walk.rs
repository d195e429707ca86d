use vstd::prelude::*;
use crate::git::types::{hex_of, CommitId};
use crate::text::{join2, join3};

verus! {

/// What a load does with one step of a walk.
#[derive(Debug)]
pub enum WalkStep {
    /// The walk is at its end.
    Stop,
    /// The step is passed over, whatever it holds.
    Pass,
    /// The identity is kept.
    Keep(CommitId),
    /// The walk has failed.
    Fail(git2::Error),
}

/// What is done with a step, where `passed` steps have been passed over so
/// far and `skip` are to be.
///
/// A walk that gives nothing is at its end. A step among the first `skip` is
/// passed over, failed or not. A later step is kept where it holds an
/// identity and fails the walk where it holds a failure.
pub open spec fn step_of(
    passed: int,
    skip: int,
    given: Option<Result<CommitId, git2::Error>>,
) -> WalkStep {
    match given {
        None => WalkStep::Stop,
        Some(step) => if passed < skip {
            WalkStep::Pass
        } else {
            match step {
                Ok(id) => WalkStep::Keep(id),
                Err(e) => WalkStep::Fail(e),
            }
        },
    }
}

/// Decides what is done with one step of a walk.
pub fn walk_step(passed: usize, skip: usize, given: Option<Result<CommitId, git2::Error>>) -> (r:
    WalkStep)
    ensures
        r == step_of(passed as int, skip as int, given),
{
    match given {
        None => WalkStep::Stop,
        Some(step) => if passed < skip {
            WalkStep::Pass
        } else {
            match step {
                Ok(id) => WalkStep::Keep(id),
                Err(e) => WalkStep::Fail(e),
            }
        },
    }
}

/// How far a walk has come: the steps passed over, the identities kept, and
/// whether it has reached its end or failed.
pub ghost struct WalkState {
    pub passed: int,
    pub kept: Seq<CommitId>,
    pub stopped: bool,
    pub failure: Option<git2::Error>,
}

/// A walk before its first step.
pub open spec fn walk_start() -> WalkState {
    WalkState { passed: 0, kept: Seq::empty(), stopped: false, failure: None }
}

/// Whether a walk goes on: it has neither ended nor failed, and fewer than
/// `take` identities are kept.
pub open spec fn walk_live(state: WalkState, take: int) -> bool {
    !state.stopped && state.failure is None && state.kept.len() < take
}

/// A walk after one more step. A walk that does not go on stays as it is.
pub open spec fn walk_advance(
    state: WalkState,
    skip: int,
    take: int,
    given: Option<Result<CommitId, git2::Error>>,
) -> WalkState {
    if !walk_live(state, take) {
        state
    } else {
        match step_of(state.passed, skip, given) {
            WalkStep::Stop => WalkState { stopped: true, ..state },
            WalkStep::Pass => WalkState { passed: state.passed + 1, ..state },
            WalkStep::Keep(id) => WalkState { kept: state.kept.push(id), ..state },
            WalkStep::Fail(e) => WalkState { failure: Some(e), ..state },
        }
    }
}

/// A walk after the steps that the store gave, in turn.
pub open spec fn walk_after(
    steps: Seq<Option<Result<CommitId, git2::Error>>>,
    skip: int,
    take: int,
) -> WalkState
    decreases steps.len(),
{
    if steps.len() == 0 {
        walk_start()
    } else {
        walk_advance(walk_after(steps.drop_last(), skip, take), skip, take, steps.last())
    }
}

/// Whether a walk over `steps` is over and has come to `result`: the failure
/// where it failed, and otherwise the identities kept, in the walk's order.
pub open spec fn walk_ends(
    steps: Seq<Option<Result<CommitId, git2::Error>>>,
    skip: int,
    take: int,
    result: Result<Seq<CommitId>, git2::Error>,
) -> bool {
    let end = walk_after(steps, skip, take);
    &&& !walk_live(end, take)
    &&& result == match end.failure {
        Some(e) => Err::<Seq<CommitId>, git2::Error>(e),
        None => Ok::<Seq<CommitId>, git2::Error>(end.kept),
    }
}

/// A walk never keeps more than it is to take, nor passes over more than it
/// is to skip.
pub proof fn lemma_walk_bounds(
    steps: Seq<Option<Result<CommitId, git2::Error>>>,
    skip: int,
    take: int,
)
    requires
        0 <= skip,
        0 <= take,
    ensures
        walk_after(steps, skip, take).kept.len() <= take,
        0 <= walk_after(steps, skip, take).passed <= skip,
    decreases steps.len(),
{
    if steps.len() != 0 {
        lemma_walk_bounds(steps.drop_last(), skip, take);
    }
}

/// The steps of a walk that gives the identities `ids` and no failure.
pub open spec fn sound_steps(ids: Seq<CommitId>) -> Seq<Option<Result<CommitId, git2::Error>>> {
    ids.map_values(|id: CommitId| Some(Ok::<CommitId, git2::Error>(id)))
}

/// The window of `len` places that begins after `skip` places and holds up to
/// `take`: where it begins and where it ends.
pub open spec fn window_of(skip: int, take: int, len: int) -> (int, int) {
    (
        if skip <= len {
            skip
        } else {
            len
        },
        if skip + take <= len {
            skip + take
        } else {
            len
        },
    )
}

/// A walk that gives only identities keeps those of its window: the first
/// `take` of those that come after the first `skip`, in the walk's order.
pub proof fn lemma_walk_window(ids: Seq<CommitId>, skip: int, take: int)
    requires
        0 <= skip,
        0 <= take,
    ensures
        ({
            let end = walk_after(sound_steps(ids), skip, take);
            let (from, to) = window_of(skip, take, ids.len() as int);
            &&& end.kept == ids.subrange(from, to)
            &&& take > 0 ==> end.passed == from
            &&& !end.stopped
            &&& end.failure is None
        }),
    decreases ids.len(),
{
    let steps = sound_steps(ids);
    if ids.len() == 0 {
        assert(walk_after(steps, skip, take).kept =~= ids.subrange(0, 0));
    } else {
        let front = ids.drop_last();
        assert(steps.drop_last() =~= sound_steps(front));
        assert(steps.last() == Some(Ok::<CommitId, git2::Error>(ids.last())));
        lemma_walk_window(front, skip, take);
        lemma_walk_bounds(sound_steps(front), skip, take);
        let before = walk_after(sound_steps(front), skip, take);
        let end = walk_after(steps, skip, take);
        let n = front.len() as int;
        let (from, to) = window_of(skip, take, n);
        let (from2, to2) = window_of(skip, take, n + 1);
        assert(before.kept.len() == to - from);
        if walk_live(before, take) {
            if before.passed < skip {
                assert(end.kept =~= ids.subrange(from2, to2));
            } else {
                assert(front.subrange(from, to).push(ids.last()) =~= ids.subrange(from2, to2));
            }
        } else {
            assert(front.subrange(from, to) =~= ids.subrange(from2, to2));
        }
    }
}

/// A walk through a history without failures, which gives each identity in
/// turn and then nothing, ends with the identities of its window: as many as
/// the smaller of `take` and what is left after `skip`, the first of them
/// first.
pub proof fn lemma_walk_of_history(ids: Seq<CommitId>, skip: int, take: int)
    requires
        0 <= skip,
        0 <= take,
    ensures
        ({
            let (from, to) = window_of(skip, take, ids.len() as int);
            walk_ends(
                sound_steps(ids).push(None),
                skip,
                take,
                Ok::<Seq<CommitId>, git2::Error>(ids.subrange(from, to)),
            )
        }),
{
    let steps = sound_steps(ids).push(None);
    assert(steps.drop_last() =~= sound_steps(ids));
    lemma_walk_window(ids, skip, take);
}

/// Whether the walk is left out: it is unless the store says that it is not
/// empty.
pub fn walk_is_skipped(empty: Option<bool>) -> (r: bool)
    ensures
        r == (empty != Some(false)),
{
    match empty {
        Some(false) => false,
        _ => true,
    }
}

/// The text that names a range to the store: the canonical text of the
/// commit to leave out, two dots, and that of the commit to start from.
pub fn range_text(from: &CommitId, to: &CommitId) -> (r: String)
    ensures
        r@ == hex_of(from@) + ".."@ + hex_of(to@),
{
    let lower_end = from.as_str();
    let upper_end = to.as_str();
    join3(lower_end.as_str(), "..", upper_end.as_str())
}

/// The full name of the reference of a local branch.
pub fn branch_reference(branch_name: &str) -> (r: String)
    ensures
        r@ == "refs/heads/"@ + branch_name@,
{
    join2("refs/heads/", branch_name)
}

} // verus!
