//! What the actions of a run do to the repository, and the properties of a
//! run that follow: fast-forward moves the branch to the fetched tip and
//! creates nothing, a clean merge creates one commit with both tips as
//! parents, conflicts leave the branch alone, and a repeated run is a no-op.

use vstd::prelude::*;
use crate::oid::ObjectId;
use crate::analysis::{MergeAnalysis, analysis_of};
use crate::session::{tip_next, transition, Action, Event, FetchReport, Phase, SyncOutcome};

verus! {

/// The parents and the tree of a stored commit.
pub type CommitRecord = (Seq<ObjectId>, ObjectId);

/// The commits of the store after `a` was carried out, `created` being the
/// id the backend gave to the commit that `a` created, if it created one.
/// Objects brought by a transfer are not commits created by the run and
/// are left out.
pub open spec fn store_after(
    store: Map<ObjectId, CommitRecord>,
    a: Action,
    created: ObjectId,
) -> Map<ObjectId, CommitRecord> {
    match a {
        Action::Commit { local, remote, tree } => store.insert(created, (seq![local, remote], tree)),
        _ => store,
    }
}

/// When the analysis finds a fast-forward, the run points the branch at the
/// fetched tip, creates no commit, and reports an update by fast-forward.
pub proof fn lemma_fast_forward(
    r: FetchReport,
    tip: Option<ObjectId>,
    store: Map<ObjectId, CommitRecord>,
    created: ObjectId,
)
    requires
        analysis_of(r.local, r.fetched, r.base) == MergeAnalysis::FastForwardable,
    ensures
        ({
            let e1 = Event::Fetched(Ok(r));
            let (p1, a1) = transition(Phase::Fetching, e1);
            let t1 = tip_next(tip, Phase::Fetching, e1);
            let e2 = Event::BranchSet(Ok(()));
            &&& a1 == Action::SetBranch { target: r.fetched, create: false }
            &&& store_after(store, a1, created) == store
            &&& transition(p1, e2) == (Phase::Finished(SyncOutcome::UpdatedByFastForward), Action::Report)
            &&& tip_next(t1, p1, e2) == Some(r.fetched)
        }),
{
}

/// When the histories diverged and the merge index has no conflicts, the run
/// creates exactly one commit, whose parents are the local tip then the
/// fetched tip and whose tree is the written merge tree, moves the branch
/// to it, and reports an update by merge.
pub proof fn lemma_merge_commit(
    r: FetchReport,
    tip: Option<ObjectId>,
    tree: ObjectId,
    store: Map<ObjectId, CommitRecord>,
    created: ObjectId,
)
    requires
        analysis_of(r.local, r.fetched, r.base) == MergeAnalysis::NormalMergeRequired,
        r.base is Some,
    ensures
        ({
            let e1 = Event::Fetched(Ok(r));
            let (p1, a1) = transition(Phase::Fetching, e1);
            let (p2, a2) = transition(p1, Event::TreesMerged(Ok(false)));
            let (p3, a3) = transition(p2, Event::TreeWritten(Ok(tree)));
            let e4 = Event::Committed(Ok(created));
            let (p4, a4) = transition(p3, e4);
            let t1 = tip_next(tip, Phase::Fetching, e1);
            let t3 = tip_next(tip_next(t1, p1, Event::TreesMerged(Ok(false))), p2, Event::TreeWritten(Ok(tree)));
            let local = r.local->Some_0;
            &&& a1 == Action::MergeTrees { base: r.base->Some_0, local, remote: r.fetched }
            &&& a2 == Action::WriteTree
            &&& a3 == Action::Commit { local, remote: r.fetched, tree }
            &&& store_after(store, a3, created)[created] == (seq![local, r.fetched], tree)
            &&& store_after(store, a3, created).remove(created) == store.remove(created)
            &&& t3 == r.local
            &&& tip_next(t3, p3, e4) == Some(created)
            &&& p4 == Phase::Finished(SyncOutcome::UpdatedByMerge)
            &&& a4 == Action::Report
        }),
{
    let local = r.local->Some_0;
    let s2 = store.insert(created, (seq![local, r.fetched], tree));
    assert(s2.remove(created) =~= store.remove(created));
}

/// When the merge index has conflicts, the run writes them into the working
/// tree and reports them; no action of the run moves the branch or creates
/// a commit.
pub proof fn lemma_conflicts_keep_branch(
    local: ObjectId,
    remote: ObjectId,
    tip: Option<ObjectId>,
    store: Map<ObjectId, CommitRecord>,
    created: ObjectId,
)
    ensures
        ({
            let p0 = Phase::MergingTrees { local, remote };
            let e1 = Event::TreesMerged(Ok(true));
            let (p1, a1) = transition(p0, e1);
            let e2 = Event::ConflictsCheckedOut(Ok(()));
            let (p2, a2) = transition(p1, e2);
            &&& a1 == Action::CheckoutConflicts
            &&& store_after(store, a1, created) == store
            &&& tip_next(tip, p0, e1) == tip
            &&& p2 == Phase::Finished(SyncOutcome::ConflictsPending)
            &&& a2 == Action::Report
            &&& tip_next(tip, p1, e2) == tip
        }),
{
}

/// After an update, the fetched tip is the new tip of the branch or a
/// parent of it.
pub proof fn lemma_update_contains_fetched(
    r: FetchReport,
    tree: ObjectId,
    store: Map<ObjectId, CommitRecord>,
    created: ObjectId,
)
    requires
        r.local is Some,
    ensures
        ({
            let (p1, a1) = transition(Phase::Fetching, Event::Fetched(Ok(r)));
            &&& (p1 is SettingBranch ==> tip_next(r.local, p1, Event::BranchSet(Ok(()))) == Some(r.fetched))
            &&& (p1 is MergingTrees ==> {
                let a3 = transition(
                    transition(p1, Event::TreesMerged(Ok(false))).0,
                    Event::TreeWritten(Ok(tree)),
                ).1;
                store_after(store, a3, created)[created].0.contains(r.fetched)
            })
        }),
{
    let p1 = transition(Phase::Fetching, Event::Fetched(Ok(r))).0;
    if p1 is MergingTrees {
        let local = r.local->Some_0;
        assert(seq![local, r.fetched][1] == r.fetched);
    }
}

/// A second run with no new remote commits finds the fetched tip already
/// in the local branch (the branch is at it, or it is the common ancestor),
/// reports the run as up to date, and changes neither branch nor store.
pub proof fn lemma_repeat_is_up_to_date(
    r: FetchReport,
    tip: Option<ObjectId>,
    store: Map<ObjectId, CommitRecord>,
    created: ObjectId,
)
    requires
        r.local is Some,
        r.local == Some(r.fetched) || r.base == Some(r.fetched),
    ensures
        ({
            let (p, a) = transition(Phase::Fetching, Event::Fetched(Ok(r)));
            &&& p == Phase::Finished(SyncOutcome::AlreadyUpToDate)
            &&& a == Action::Report
            &&& tip_next(tip, Phase::Fetching, Event::Fetched(Ok(r))) == r.local
            &&& store_after(store, a, created) == store
        }),
{
}

} // verus!
