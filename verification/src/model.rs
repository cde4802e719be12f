//! The entities of the escrow engine: identities, milestones, projects,
//! investments, ledger entries and the error kinds of every operation.

use vstd::prelude::*;

verus! {

/// An identity of the host environment: an account that can authorize a
/// call, own a project, invest, or act as the verifier.  The host's opaque
/// addresses are represented by a plain number; the engine only ever
/// compares identities for equality.
#[derive(Clone, Copy, Debug, PartialEq, Eq, Structural)]
pub struct Address {
    pub id: u64,
}

/// Where a milestone stands in its verification lifecycle.  `Verified` and
/// `Rejected` are terminal.
#[derive(Clone, Copy, Debug, PartialEq, Eq, Structural)]
pub enum MilestoneStatus {
    Pending,
    EvidenceSubmitted,
    Verified,
    Rejected,
}

/// A payout-eligible sub-goal of a project.  The deadline is advisory and
/// is not enforced by any transition.
#[derive(Clone, Copy, Debug)]
pub struct Milestone {
    pub amount: i128,
    pub deadline: u64,
    pub status: MilestoneStatus,
    /// 32-byte content hash of the submitted evidence; absent until
    /// submission, then set exactly once.
    pub evidence_hash: Option<[u8; 32]>,
}

/// A registered funding project.  `raised_amount` starts at 0 and only ever
/// grows through investment.
#[derive(Debug)]
pub struct Project {
    pub id: u32,
    pub owner: Address,
    pub goal_amount: i128,
    pub raised_amount: i128,
    pub milestones: Vec<Milestone>,
    pub active: bool,
}

/// An immutable record of one successful investment; appended to a
/// per-project log and never changed or removed.
#[derive(Clone, Copy, Debug)]
pub struct Investment {
    pub investor: Address,
    pub amount: i128,
    pub timestamp: u64,
}

/// The cumulative amount one investor has put into one project.
#[derive(Clone, Copy, Debug)]
pub struct LedgerEntry {
    pub investor: Address,
    pub amount: i128,
}

/// Why an operation was refused.  Every failure is terminal for the call
/// and leaves the whole state exactly as it was.
#[derive(Clone, Copy, Debug, PartialEq, Eq, Structural)]
pub enum Error {
    AlreadyInitialized,
    Unauthorized,
    MalformedInput,
    NotFound,
    InvalidOperation,
    InvalidState,
    TransferFailed,
}

impl Milestone {
    /// Evidence is recorded exactly when the milestone has left `Pending`.
    pub open spec fn wf(self) -> bool {
        (self.status is Pending) <==> (self.evidence_hash is None)
    }
}

/// The only legal moves of a milestone's status: stay put, or step forward
/// along Pending -> EvidenceSubmitted -> {Verified | Rejected}.
pub open spec fn status_advances(pre: MilestoneStatus, post: MilestoneStatus) -> bool {
    ||| post == pre
    ||| (pre is Pending && post is EvidenceSubmitted)
    ||| (pre is EvidenceSubmitted && (post is Verified || post is Rejected))
}

} // verus!
