use repo_sync::analysis::{analyze, MergeAnalysis};
use repo_sync::oid::ObjectId;
use repo_sync::session::{
    Action, Event, FetchReport, MergeError, Phase, SyncError, SyncOutcome, SyncSession,
    TransferError, TransferErrorKind,
};

fn id(n: u64) -> ObjectId {
    ObjectId::from_parts(n, 0, 0)
}

fn fetching() -> SyncSession {
    let mut s = SyncSession::new();
    assert_eq!(s.step(Event::Started { repository_exists: true }), Action::Fetch);
    s
}

fn outcome(s: &SyncSession) -> Option<SyncOutcome> {
    match &s.phase {
        Phase::Finished(o) => Some(*o),
        _ => None,
    }
}

#[test]
fn fresh_clone_reports_cloned() {
    let mut s = SyncSession::new();
    assert_eq!(s.step(Event::Started { repository_exists: false }), Action::Clone);
    assert_eq!(s.step(Event::Cloned(Ok(id(1)))), Action::Report);
    assert_eq!(outcome(&s), Some(SyncOutcome::ClonedFresh));
    assert_eq!(s.tip, Some(id(1)));
    assert!(SyncOutcome::ClonedFresh.needs_rebuild());
}

#[test]
fn unborn_branch_is_created_at_fetched_tip() {
    let c1 = id(1);
    let mut s = fetching();
    let a = s.step(Event::Fetched(Ok(FetchReport { local: None, fetched: c1, base: None })));
    assert_eq!(a, Action::SetBranch { target: c1, create: true });
    assert_eq!(s.tip, None);
    assert_eq!(s.step(Event::BranchSet(Ok(()))), Action::Report);
    assert_eq!(outcome(&s), Some(SyncOutcome::UpdatedByFastForward));
    assert_eq!(s.tip, Some(c1));
}

#[test]
fn fast_forward_moves_branch_to_remote() {
    let (c1, c2) = (id(1), id(2));
    let mut s = fetching();
    let a = s.step(Event::Fetched(Ok(FetchReport { local: Some(c1), fetched: c2, base: Some(c1) })));
    assert_eq!(a, Action::SetBranch { target: c2, create: false });
    assert_eq!(s.tip, Some(c1));
    assert_eq!(s.step(Event::BranchSet(Ok(()))), Action::Report);
    assert_eq!(outcome(&s), Some(SyncOutcome::UpdatedByFastForward));
    assert_eq!(s.tip, Some(c2));
}

#[test]
fn diverged_clean_merge_commits_both_parents() {
    let (c1, c2, c3, tree, m) = (id(1), id(2), id(3), id(9), id(4));
    let mut s = fetching();
    let a = s.step(Event::Fetched(Ok(FetchReport { local: Some(c2), fetched: c3, base: Some(c1) })));
    assert_eq!(a, Action::MergeTrees { base: c1, local: c2, remote: c3 });
    assert_eq!(s.step(Event::TreesMerged(Ok(false))), Action::WriteTree);
    assert_eq!(s.step(Event::TreeWritten(Ok(tree))), Action::Commit { local: c2, remote: c3, tree });
    assert_eq!(s.tip, Some(c2));
    assert_eq!(s.step(Event::Committed(Ok(m))), Action::Report);
    assert_eq!(outcome(&s), Some(SyncOutcome::UpdatedByMerge));
    assert_eq!(s.tip, Some(m));
}

#[test]
fn diverged_conflicting_merge_leaves_branch() {
    let (c1, c2, c3) = (id(1), id(2), id(3));
    let mut s = fetching();
    let a = s.step(Event::Fetched(Ok(FetchReport { local: Some(c2), fetched: c3, base: Some(c1) })));
    assert_eq!(a, Action::MergeTrees { base: c1, local: c2, remote: c3 });
    let a = s.step(Event::TreesMerged(Ok(true)));
    assert_eq!(a, Action::CheckoutConflicts);
    assert!(!matches!(a, Action::SetBranch { .. } | Action::Commit { .. }));
    assert_eq!(s.step(Event::ConflictsCheckedOut(Ok(()))), Action::Report);
    assert_eq!(outcome(&s), Some(SyncOutcome::ConflictsPending));
    assert_eq!(s.tip, Some(c2));
    assert!(!SyncOutcome::ConflictsPending.needs_rebuild());
}

#[test]
fn second_run_is_up_to_date() {
    let (c1, c2) = (id(1), id(2));
    let mut first = fetching();
    first.step(Event::Fetched(Ok(FetchReport { local: Some(c1), fetched: c2, base: Some(c1) })));
    first.step(Event::BranchSet(Ok(())));
    let mut second = fetching();
    let a = second.step(Event::Fetched(Ok(FetchReport { local: Some(c2), fetched: c2, base: Some(c2) })));
    assert_eq!(a, Action::Report);
    assert_eq!(outcome(&second), Some(SyncOutcome::AlreadyUpToDate));
    assert_eq!(first.tip, Some(c2));
    assert_eq!(second.tip, Some(c2));
    assert!(!SyncOutcome::AlreadyUpToDate.needs_rebuild());
}

#[test]
fn run_after_merge_is_up_to_date() {
    let (c3, m) = (id(3), id(4));
    let mut s = fetching();
    let a = s.step(Event::Fetched(Ok(FetchReport { local: Some(m), fetched: c3, base: Some(c3) })));
    assert_eq!(a, Action::Report);
    assert_eq!(outcome(&s), Some(SyncOutcome::AlreadyUpToDate));
}

#[test]
fn unrelated_histories_fail() {
    let mut s = fetching();
    let a = s.step(Event::Fetched(Ok(FetchReport { local: Some(id(1)), fetched: id(2), base: None })));
    assert_eq!(a, Action::Report);
    assert!(matches!(s.phase, Phase::Failed(SyncError::Merge(MergeError::UnrelatedHistories))));
}

#[test]
fn transfer_failure_is_reported() {
    let mut s = fetching();
    let err = TransferError { kind: TransferErrorKind::Auth, cause: String::from("denied") };
    assert_eq!(s.step(Event::Fetched(Err(err))), Action::Report);
    match &s.phase {
        Phase::Failed(SyncError::Transfer(t)) => {
            assert_eq!(t.kind, TransferErrorKind::Auth);
            assert_eq!(t.cause, "denied");
        }
        _ => panic!("expected a transfer failure"),
    }
}

#[test]
fn clone_failure_is_reported() {
    let mut s = SyncSession::new();
    s.step(Event::Started { repository_exists: false });
    let err = TransferError { kind: TransferErrorKind::Network, cause: String::from("timeout") };
    s.step(Event::Cloned(Err(err)));
    assert!(matches!(&s.phase, Phase::Failed(SyncError::Transfer(t)) if t.kind == TransferErrorKind::Network));
}

#[test]
fn open_failure_is_reported() {
    let mut s = fetching();
    assert_eq!(s.step(Event::OpenFailed), Action::Report);
    assert!(matches!(s.phase, Phase::Failed(SyncError::RepositoryOpenFailure)));
}

#[test]
fn merge_step_failures_are_reported() {
    let mut s = fetching();
    s.step(Event::Fetched(Ok(FetchReport { local: Some(id(2)), fetched: id(3), base: Some(id(1)) })));
    s.step(Event::TreesMerged(Ok(false)));
    s.step(Event::TreeWritten(Err(MergeError::ObjectStoreFailure)));
    assert!(matches!(s.phase, Phase::Failed(SyncError::Merge(MergeError::ObjectStoreFailure))));

    let mut s = fetching();
    s.step(Event::Fetched(Ok(FetchReport { local: Some(id(1)), fetched: id(2), base: Some(id(1)) })));
    s.step(Event::BranchSet(Err(MergeError::WorkingTreeWriteFailure)));
    assert!(matches!(s.phase, Phase::Failed(SyncError::Merge(MergeError::WorkingTreeWriteFailure))));
}

#[test]
fn unexpected_event_is_ignored() {
    let mut s = fetching();
    assert_eq!(s.step(Event::Committed(Ok(id(5)))), Action::Idle);
    assert!(matches!(s.phase, Phase::Fetching));
}

#[test]
fn finished_run_stays_finished() {
    let mut s = SyncSession::new();
    s.step(Event::Started { repository_exists: false });
    s.step(Event::Cloned(Ok(id(7))));
    assert_eq!(s.step(Event::Started { repository_exists: true }), Action::Report);
    assert_eq!(outcome(&s), Some(SyncOutcome::ClonedFresh));
}

#[test]
fn analysis_classifies_each_relation() {
    let (a, b, c) = (id(1), id(2), id(3));
    assert_eq!(analyze(None, a, None), MergeAnalysis::Unborn);
    assert_eq!(analyze(Some(a), a, Some(a)), MergeAnalysis::UpToDate);
    assert_eq!(analyze(Some(b), a, Some(a)), MergeAnalysis::UpToDate);
    assert_eq!(analyze(Some(a), b, Some(a)), MergeAnalysis::FastForwardable);
    assert_eq!(analyze(Some(b), c, Some(a)), MergeAnalysis::NormalMergeRequired);
    assert_eq!(analyze(Some(b), c, None), MergeAnalysis::NormalMergeRequired);
}

#[test]
fn analysis_is_deterministic() {
    let (a, b, c) = (id(1), id(2), id(3));
    for _ in 0..3 {
        assert_eq!(analyze(Some(b), c, Some(a)), analyze(Some(b), c, Some(a)));
    }
}
