//! Classification of the relation between the local tip and a fetched tip.

use vstd::prelude::*;
use crate::oid::ObjectId;

verus! {

/// What has to happen to integrate a fetched tip into the local branch.
#[derive(Clone, Copy, Debug, PartialEq, Eq, Structural)]
pub enum MergeAnalysis {
    /// Nothing on the remote side is missing locally.
    UpToDate,
    /// The local tip is a strict ancestor of the fetched tip.
    FastForwardable,
    /// Both sides carry commits that the other lacks.
    NormalMergeRequired,
    /// The local branch does not exist yet.
    Unborn,
}

/// The classification, from the local tip (absent when the branch is
/// unborn), the fetched tip, and their nearest common ancestor (absent
/// when the histories are unrelated).
///
/// A fetched tip that is already an ancestor of the local tip has nothing
/// to contribute, so that case is up to date as well.
pub open spec fn analysis_of(
    local: Option<ObjectId>,
    remote: ObjectId,
    base: Option<ObjectId>,
) -> MergeAnalysis {
    match local {
        None => MergeAnalysis::Unborn,
        Some(l) => if l == remote || base == Some(remote) {
            MergeAnalysis::UpToDate
        } else if base == Some(l) {
            MergeAnalysis::FastForwardable
        } else {
            MergeAnalysis::NormalMergeRequired
        },
    }
}

/// Classifies the merge that integrating `remote` into `local` requires.
pub fn analyze(local: Option<ObjectId>, remote: ObjectId, base: Option<ObjectId>) -> (r: MergeAnalysis)
    ensures
        r == analysis_of(local, remote, base),
{
    match local {
        None => MergeAnalysis::Unborn,
        Some(l) => {
            let remote_is_base = match base {
                Some(b) => b == remote,
                None => false,
            };
            if l == remote || remote_is_base {
                MergeAnalysis::UpToDate
            } else {
                let local_is_base = match base {
                    Some(b) => b == l,
                    None => false,
                };
                if local_is_base {
                    MergeAnalysis::FastForwardable
                } else {
                    MergeAnalysis::NormalMergeRequired
                }
            }
        },
    }
}

/// The classification depends on the three commits alone: two analyses of
/// the same local tip, fetched tip and ancestor agree.
pub proof fn lemma_analysis_deterministic(
    local: Option<ObjectId>,
    remote: ObjectId,
    base: Option<ObjectId>,
    first: MergeAnalysis,
    second: MergeAnalysis,
)
    requires
        first == analysis_of(local, remote, base),
        second == analysis_of(local, remote, base),
    ensures
        first == second,
{
}

} // verus!
