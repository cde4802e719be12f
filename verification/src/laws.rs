//! The global guarantees of the engine, stated and proved once, on top of
//! the per-operation contracts in [`crate::engine`].

use vstd::prelude::*;

use crate::accounting::{sum_investments, sum_ledger};
use crate::engine::StellarBridgeContract;
use crate::model::{status_advances, Address, MilestoneStatus};

verus! {

/// In every well-formed state, a project's `raised_amount` equals the sum
/// of all amounts in its investment log, and equals the sum of all of its
/// investor-ledger entries; and it is never negative.  Every operation
/// keeps the state well-formed, so this holds after any sequence of calls.
pub proof fn lemma_raised_matches_records(s: StellarBridgeContract, project_id: u32)
    requires
        s.wf(),
        s.spec_has(project_id),
    ensures
        s.spec_raised(project_id) == sum_investments(s.spec_investments(project_id)),
        s.spec_raised(project_id) == sum_ledger(s.spec_ledger(project_id)),
        s.spec_raised(project_id) >= 0,
{
    assert(s.records@[project_id as int - 1].wf_at(project_id as int - 1));
}

/// In every well-formed state, project ids are dense: the record at index
/// `i` carries id `i + 1`, so the ids are exactly 1 up to the project
/// count, with no gap and no repeat.  `create_project` hands out
/// `count + 1` and grows the count by one, so this survives any sequence
/// of successful creations.
pub proof fn lemma_ids_dense(s: StellarBridgeContract)
    requires
        s.wf(),
    ensures
        forall|i: int|
            0 <= i < s.spec_count() ==> (#[trigger] s.records@[i]).project.id == i + 1,
        forall|i: int, j: int|
            0 <= i < j < s.spec_count() ==> s.records@[i].project.id != s.records@[j].project.id,
{
    assert forall|i: int| 0 <= i < s.spec_count() implies (#[trigger] s.records@[i]).project.id
        == i + 1 by {
        assert(s.records@[i].wf_at(i));
    }
}

/// `Verified` and `Rejected` are terminal: no legal move leaves either.
/// Together with the `status_advances` clause that `submit_evidence` and
/// `verify_milestone` ensure, a decided milestone never changes again.
pub proof fn lemma_status_terminal(pre: MilestoneStatus, post: MilestoneStatus)
    requires
        status_advances(pre, post),
        pre is Verified || pre is Rejected,
    ensures
        post == pre,
{
}

/// `status_advances` admits exactly the forward path
/// Pending -> EvidenceSubmitted -> {Verified | Rejected}: a status never
/// moves back to `Pending`, and evidence submission is the only way out of
/// `Pending`.
pub proof fn lemma_status_forward_only(pre: MilestoneStatus, post: MilestoneStatus)
    requires
        status_advances(pre, post),
        post != pre,
    ensures
        pre is Pending ==> post is EvidenceSubmitted,
        pre is EvidenceSubmitted ==> (post is Verified || post is Rejected),
        !(post is Pending),
{
}

/// An approval whose payout transfer did not succeed never answers `Ok`,
/// so a milestone is `Verified` only together with a successful payout;
/// and since every failing call leaves the state untouched, the milestone
/// then stays in `EvidenceSubmitted`.
pub proof fn lemma_no_verification_without_payout(
    pre: StellarBridgeContract,
    caller: Address,
    project_id: u32,
    milestone_index: u32,
)
    ensures
        StellarBridgeContract::verify_milestone_result(
            pre,
            caller,
            project_id,
            milestone_index,
            true,
            false,
        ) is Err,
{
}

/// A milestone fresh out of `create_project` is `Pending` with no
/// evidence, and a well-formed state keeps evidence recorded exactly on
/// the milestones that left `Pending`.
pub proof fn lemma_evidence_iff_submitted(s: StellarBridgeContract, project_id: u32, j: int)
    requires
        s.wf(),
        s.spec_has(project_id),
        0 <= j < s.spec_milestones(project_id).len(),
    ensures
        (s.spec_milestones(project_id)[j].status is Pending) <==> (s.spec_milestones(
            project_id,
        )[j].evidence_hash is None),
{
    assert(s.records@[project_id as int - 1].wf_at(project_id as int - 1));
    let m = s.spec_milestones(project_id)[j];
    assert(m.wf());
}

} // verus!
