//! One synchronisation run as a state machine. The caller performs each
//! action against the version-control backend and hands back what happened;
//! the session decides the next action and, in the end, the outcome.
//!
//! The merge always goes into the tracked local branch: the fetch reports
//! that branch's tip, and the merge commit advances that branch.

use vstd::prelude::*;
use crate::oid::ObjectId;
use crate::analysis::{MergeAnalysis, analysis_of, analyze};

verus! {

/// What went wrong in a transfer.
#[derive(Clone, Copy, Debug, PartialEq, Eq, Structural)]
pub enum TransferErrorKind {
    Network,
    Auth,
    RefNotFound,
    Other,
}

/// A failed clone or fetch: its kind and the backend's explanation.
#[derive(Clone, Debug)]
pub struct TransferError {
    pub kind: TransferErrorKind,
    pub cause: String,
}

/// A failed integration step.
#[derive(Clone, Copy, Debug, PartialEq, Eq, Structural)]
pub enum MergeError {
    /// The two tips have no common ancestor.
    UnrelatedHistories,
    ObjectStoreFailure,
    WorkingTreeWriteFailure,
}

/// Why a run failed.
#[derive(Clone, Debug)]
pub enum SyncError {
    Transfer(TransferError),
    Merge(MergeError),
    /// The local path holds a repository that could not be opened.
    RepositoryOpenFailure,
}

/// How a successful run ended.
#[derive(Clone, Copy, Debug, PartialEq, Eq, Structural)]
pub enum SyncOutcome {
    ClonedFresh,
    UpdatedByFastForward,
    UpdatedByMerge,
    AlreadyUpToDate,
    /// The merge found conflicts; they are in the working tree and no
    /// branch moved.
    ConflictsPending,
}

impl SyncOutcome {
    /// New content was integrated, so the derived artefact is stale.
    pub fn needs_rebuild(&self) -> (r: bool)
        ensures
            r == (*self == SyncOutcome::ClonedFresh || *self == SyncOutcome::UpdatedByFastForward
                || *self == SyncOutcome::UpdatedByMerge),
    {
        match self {
            SyncOutcome::ClonedFresh => true,
            SyncOutcome::UpdatedByFastForward => true,
            SyncOutcome::UpdatedByMerge => true,
            SyncOutcome::AlreadyUpToDate => false,
            SyncOutcome::ConflictsPending => false,
        }
    }
}

/// What a fetch found: the tip of the tracked local branch (none when the
/// branch does not exist), the fetched tip, and their nearest common
/// ancestor (none when there is no local tip or the histories are unrelated).
#[derive(Clone, Copy, Debug, PartialEq, Eq, Structural)]
pub struct FetchReport {
    pub local: Option<ObjectId>,
    pub fetched: ObjectId,
    pub base: Option<ObjectId>,
}

/// The next thing the caller has to do.
#[derive(Clone, Copy, Debug, PartialEq, Eq, Structural)]
pub enum Action {
    /// Nothing: the event did not belong to the current phase.
    Idle,
    /// Clone the remote into the local path, with full checkout.
    Clone,
    /// Fetch the tracked branch and report the tips.
    Fetch,
    /// Point the tracked branch at `target` (creating it when `create`),
    /// make it HEAD and force the working tree to match it, discarding
    /// local modifications.
    SetBranch { target: ObjectId, create: bool },
    /// Merge the trees of `base`, `local` and `remote` into a merge index
    /// and report whether it has conflicts.
    MergeTrees { base: ObjectId, local: ObjectId, remote: ObjectId },
    /// Write the conflicted merge index into the working tree.
    CheckoutConflicts,
    /// Write the merge index as a tree and report its id.
    WriteTree,
    /// Create a commit with parents `local` then `remote` and tree `tree`,
    /// advance the tracked branch to it and check it out.
    Commit { local: ObjectId, remote: ObjectId, tree: ObjectId },
    /// The run is over: read its result.
    Report,
}

/// What the caller observed after an action.
#[derive(Debug)]
pub enum Event {
    /// The run begins; whether the local path already holds a repository.
    Started { repository_exists: bool },
    /// The existing repository could not be opened.
    OpenFailed,
    /// The clone finished; the commit the tracked branch points at.
    Cloned(Result<ObjectId, TransferError>),
    Fetched(Result<FetchReport, TransferError>),
    BranchSet(Result<(), MergeError>),
    /// The merge index was built; whether it has conflicts.
    TreesMerged(Result<bool, MergeError>),
    ConflictsCheckedOut(Result<(), MergeError>),
    TreeWritten(Result<ObjectId, MergeError>),
    Committed(Result<ObjectId, MergeError>),
}

/// Where a run stands.
#[derive(Clone, Debug)]
pub enum Phase {
    Idle,
    Cloning,
    Fetching,
    SettingBranch { target: ObjectId },
    MergingTrees { local: ObjectId, remote: ObjectId },
    CheckingOutConflicts,
    WritingTree { local: ObjectId, remote: ObjectId },
    Committing,
    Finished(SyncOutcome),
    Failed(SyncError),
}

/// The decision after a successful fetch.
pub open spec fn after_fetch(r: FetchReport) -> (Phase, Action) {
    match analysis_of(r.local, r.fetched, r.base) {
        MergeAnalysis::UpToDate => (Phase::Finished(SyncOutcome::AlreadyUpToDate), Action::Report),
        MergeAnalysis::Unborn => (
            Phase::SettingBranch { target: r.fetched },
            Action::SetBranch { target: r.fetched, create: true },
        ),
        MergeAnalysis::FastForwardable => (
            Phase::SettingBranch { target: r.fetched },
            Action::SetBranch { target: r.fetched, create: false },
        ),
        MergeAnalysis::NormalMergeRequired => match r.base {
            Some(b) => (
                Phase::MergingTrees { local: r.local->Some_0, remote: r.fetched },
                Action::MergeTrees { base: b, local: r.local->Some_0, remote: r.fetched },
            ),
            None => (Phase::Failed(SyncError::Merge(MergeError::UnrelatedHistories)), Action::Report),
        },
    }
}

/// A failure ends the run.
pub open spec fn fail(e: SyncError) -> (Phase, Action) {
    (Phase::Failed(e), Action::Report)
}

/// The transition from phase `p` on event `e`: the next phase and action.
pub open spec fn transition(p: Phase, e: Event) -> (Phase, Action) {
    match (p, e) {
        (Phase::Idle, Event::Started { repository_exists }) => if repository_exists {
            (Phase::Fetching, Action::Fetch)
        } else {
            (Phase::Cloning, Action::Clone)
        },
        (Phase::Fetching, Event::OpenFailed) => fail(SyncError::RepositoryOpenFailure),
        (Phase::Cloning, Event::Cloned(Ok(_))) => (Phase::Finished(SyncOutcome::ClonedFresh), Action::Report),
        (Phase::Cloning, Event::Cloned(Err(t))) => fail(SyncError::Transfer(t)),
        (Phase::Fetching, Event::Fetched(Ok(r))) => after_fetch(r),
        (Phase::Fetching, Event::Fetched(Err(t))) => fail(SyncError::Transfer(t)),
        (Phase::SettingBranch { .. }, Event::BranchSet(Ok(()))) => (Phase::Finished(SyncOutcome::UpdatedByFastForward), Action::Report),
        (Phase::SettingBranch { .. }, Event::BranchSet(Err(m))) => fail(SyncError::Merge(m)),
        (Phase::MergingTrees { local, remote }, Event::TreesMerged(Ok(conflicts))) => if conflicts {
            (Phase::CheckingOutConflicts, Action::CheckoutConflicts)
        } else {
            (Phase::WritingTree { local, remote }, Action::WriteTree)
        },
        (Phase::MergingTrees { .. }, Event::TreesMerged(Err(m))) => fail(SyncError::Merge(m)),
        (Phase::CheckingOutConflicts, Event::ConflictsCheckedOut(Ok(()))) => (Phase::Finished(SyncOutcome::ConflictsPending), Action::Report),
        (Phase::CheckingOutConflicts, Event::ConflictsCheckedOut(Err(m))) => fail(SyncError::Merge(m)),
        (Phase::WritingTree { local, remote }, Event::TreeWritten(Ok(tree))) => (Phase::Committing, Action::Commit { local, remote, tree }),
        (Phase::WritingTree { .. }, Event::TreeWritten(Err(m))) => fail(SyncError::Merge(m)),
        (Phase::Committing, Event::Committed(Ok(_))) => (Phase::Finished(SyncOutcome::UpdatedByMerge), Action::Report),
        (Phase::Committing, Event::Committed(Err(m))) => fail(SyncError::Merge(m)),
        (Phase::Finished(o), _) => (Phase::Finished(o), Action::Report),
        (Phase::Failed(f), _) => (Phase::Failed(f), Action::Report),
        (q, _) => (q, Action::Idle),
    }
}

/// The tip of the tracked branch as the run knows it, after event `e` in
/// phase `p`: what the clone checked out, what the fetch found locally,
/// the target of a completed branch update, or the new merge commit.
pub open spec fn tip_next(tip: Option<ObjectId>, p: Phase, e: Event) -> Option<ObjectId> {
    match (p, e) {
        (Phase::Cloning, Event::Cloned(Ok(c))) => Some(c),
        (Phase::Fetching, Event::Fetched(Ok(r))) => r.local,
        (Phase::SettingBranch { target }, Event::BranchSet(Ok(()))) => Some(target),
        (Phase::Committing, Event::Committed(Ok(c))) => Some(c),
        _ => tip,
    }
}

fn next_tip(tip: Option<ObjectId>, p: &Phase, e: &Event) -> (r: Option<ObjectId>)
    ensures
        r == tip_next(tip, *p, *e),
{
    match (p, e) {
        (Phase::Cloning, Event::Cloned(Ok(c))) => Some(*c),
        (Phase::Fetching, Event::Fetched(Ok(r))) => r.local,
        (Phase::SettingBranch { target }, Event::BranchSet(Ok(()))) => Some(*target),
        (Phase::Committing, Event::Committed(Ok(c))) => Some(*c),
        _ => tip,
    }
}

/// One synchronisation run of a local path against its remote.
pub struct SyncSession {
    pub phase: Phase,
    /// The tip of the tracked branch; none until the run has learnt it, or
    /// when the branch does not exist.
    pub tip: Option<ObjectId>,
}

impl SyncSession {
    /// A run that has not started.
    pub fn new() -> (r: SyncSession)
        ensures
            r.phase is Idle,
            r.tip is None,
    {
        SyncSession { phase: Phase::Idle, tip: None }
    }

    /// Takes in what the caller observed and decides the next action.
    pub fn step(&mut self, event: Event) -> (r: Action)
        ensures
            (final(self).phase, r) == transition(old(self).phase, event),
            final(self).tip == tip_next(old(self).tip, old(self).phase, event),
    {
        let tip = next_tip(self.tip, &self.phase, &event);
        let mut cur = Phase::Idle;
        std::mem::swap(&mut cur, &mut self.phase);
        let (next, action) = match (cur, event) {
            (Phase::Idle, Event::Started { repository_exists }) => if repository_exists {
                (Phase::Fetching, Action::Fetch)
            } else {
                (Phase::Cloning, Action::Clone)
            },
            (Phase::Fetching, Event::OpenFailed) => (Phase::Failed(SyncError::RepositoryOpenFailure), Action::Report),
            (Phase::Cloning, Event::Cloned(Ok(_))) => (Phase::Finished(SyncOutcome::ClonedFresh), Action::Report),
            (Phase::Cloning, Event::Cloned(Err(t))) => (Phase::Failed(SyncError::Transfer(t)), Action::Report),
            (Phase::Fetching, Event::Fetched(Ok(r))) => decide_after_fetch(r),
            (Phase::Fetching, Event::Fetched(Err(t))) => (Phase::Failed(SyncError::Transfer(t)), Action::Report),
            (Phase::SettingBranch { .. }, Event::BranchSet(Ok(()))) => (Phase::Finished(SyncOutcome::UpdatedByFastForward), Action::Report),
            (Phase::SettingBranch { .. }, Event::BranchSet(Err(m))) => (Phase::Failed(SyncError::Merge(m)), Action::Report),
            (Phase::MergingTrees { local, remote }, Event::TreesMerged(Ok(conflicts))) => if conflicts {
                (Phase::CheckingOutConflicts, Action::CheckoutConflicts)
            } else {
                (Phase::WritingTree { local, remote }, Action::WriteTree)
            },
            (Phase::MergingTrees { .. }, Event::TreesMerged(Err(m))) => (Phase::Failed(SyncError::Merge(m)), Action::Report),
            (Phase::CheckingOutConflicts, Event::ConflictsCheckedOut(Ok(()))) => (Phase::Finished(SyncOutcome::ConflictsPending), Action::Report),
            (Phase::CheckingOutConflicts, Event::ConflictsCheckedOut(Err(m))) => (Phase::Failed(SyncError::Merge(m)), Action::Report),
            (Phase::WritingTree { local, remote }, Event::TreeWritten(Ok(tree))) => (Phase::Committing, Action::Commit { local, remote, tree }),
            (Phase::WritingTree { .. }, Event::TreeWritten(Err(m))) => (Phase::Failed(SyncError::Merge(m)), Action::Report),
            (Phase::Committing, Event::Committed(Ok(_))) => (Phase::Finished(SyncOutcome::UpdatedByMerge), Action::Report),
            (Phase::Committing, Event::Committed(Err(m))) => (Phase::Failed(SyncError::Merge(m)), Action::Report),
            (Phase::Finished(o), _) => (Phase::Finished(o), Action::Report),
            (Phase::Failed(f), _) => (Phase::Failed(f), Action::Report),
            (q, _) => (q, Action::Idle),
        };
        self.phase = next;
        self.tip = tip;
        action
    }
}

fn decide_after_fetch(r: FetchReport) -> (out: (Phase, Action))
    ensures
        out == after_fetch(r),
{
    match analyze(r.local, r.fetched, r.base) {
        MergeAnalysis::UpToDate => (Phase::Finished(SyncOutcome::AlreadyUpToDate), Action::Report),
        MergeAnalysis::Unborn => (
            Phase::SettingBranch { target: r.fetched },
            Action::SetBranch { target: r.fetched, create: true },
        ),
        MergeAnalysis::FastForwardable => (
            Phase::SettingBranch { target: r.fetched },
            Action::SetBranch { target: r.fetched, create: false },
        ),
        MergeAnalysis::NormalMergeRequired => {
            let local = match r.local {
                Some(l) => l,
                None => r.fetched,
            };
            match r.base {
                Some(b) => (
                    Phase::MergingTrees { local, remote: r.fetched },
                    Action::MergeTrees { base: b, local, remote: r.fetched },
                ),
                None => (Phase::Failed(SyncError::Merge(MergeError::UnrelatedHistories)), Action::Report),
            }
        },
    }
}

} // verus!
