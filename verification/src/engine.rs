//! The lifecycle engine: the whole durable state of the escrow system and
//! the operations that initialize it, create projects, accept investments,
//! record evidence and verify milestones.
//!
//! The host around this engine supplies everything external: it establishes
//! which identity authorized a call (`caller`), performs the custody
//! transfers and reports their outcome (`transfer_ok`), and reads the clock
//! (`now`).  Every operation here either commits all of its effects or
//! fails with an [`Error`] and leaves the state exactly as it was.

use vstd::prelude::*;

use crate::accounting::{
    credit_ledger, ledger_amount_in, ledger_lookup, lemma_sum_investments_push, sum_investments,
    sum_ledger, unique_investors,
};
use crate::model::{
    status_advances, Address, Error, Investment, LedgerEntry, Milestone, MilestoneStatus, Project,
};

verus! {

/// The configuration singleton: set exactly once by `initialize`.
#[derive(Clone, Copy, Debug)]
pub struct Config {
    /// The single identity allowed to approve or reject milestone evidence.
    pub verifier: Address,
    /// The asset in which investments and payouts are moved by the host.
    pub token: Address,
}

/// One project together with the records that hang off it: the ordered
/// investment log and the per-investor cumulative ledger.
#[derive(Debug)]
pub struct ProjectRecord {
    pub project: Project,
    pub investments: Vec<Investment>,
    pub ledger: Vec<LedgerEntry>,
}

/// The durable state of the escrow engine.  The project with id `i + 1`
/// sits at index `i`, so ids are dense, start at 1, and are never reused.
#[derive(Debug)]
pub struct StellarBridgeContract {
    pub config: Option<Config>,
    pub records: Vec<ProjectRecord>,
}

impl ProjectRecord {
    /// Well-formedness of one record at index `i` of the state: a dense id,
    /// money and logs in agreement, and every milestone consistent.
    pub open spec fn wf_at(self, i: int) -> bool {
        &&& self.project.id as int == i + 1
        &&& self.project.raised_amount >= 0
        &&& self.project.raised_amount as int == sum_investments(self.investments@)
        &&& self.project.raised_amount as int == sum_ledger(self.ledger@)
        &&& forall|j: int|
            0 <= j < self.investments@.len() ==> (#[trigger] self.investments@[j]).amount > 0
        &&& forall|j: int| 0 <= j < self.ledger@.len() ==> (#[trigger] self.ledger@[j]).amount > 0
        &&& unique_investors(self.ledger@)
        &&& forall|j: int|
            0 <= j < self.project.milestones@.len() ==> (
            #[trigger] self.project.milestones@[j]).wf()
    }
}

impl StellarBridgeContract {
    /// The system has been initialized exactly when the configuration is set.
    pub open spec fn spec_initialized(self) -> bool {
        self.config is Some
    }

    pub open spec fn spec_verifier(self) -> Address {
        self.config->Some_0.verifier
    }

    pub open spec fn spec_token(self) -> Address {
        self.config->Some_0.token
    }

    /// How many projects have been created; also the last id handed out.
    pub open spec fn spec_count(self) -> int {
        self.records@.len() as int
    }

    pub open spec fn spec_has(self, project_id: u32) -> bool {
        1 <= project_id && project_id as int <= self.spec_count()
    }

    pub open spec fn spec_rec(self, project_id: u32) -> ProjectRecord {
        self.records@[project_id as int - 1]
    }

    pub open spec fn spec_project(self, project_id: u32) -> Project {
        self.spec_rec(project_id).project
    }

    pub open spec fn spec_milestones(self, project_id: u32) -> Seq<Milestone> {
        self.spec_project(project_id).milestones@
    }

    pub open spec fn spec_raised(self, project_id: u32) -> int {
        self.spec_project(project_id).raised_amount as int
    }

    pub open spec fn spec_investments(self, project_id: u32) -> Seq<Investment> {
        self.spec_rec(project_id).investments@
    }

    pub open spec fn spec_ledger(self, project_id: u32) -> Seq<LedgerEntry> {
        self.spec_rec(project_id).ledger@
    }

    /// The cumulative amount `investor` has put into `project_id`; 0 for an
    /// unknown project or an investor who never invested.
    pub open spec fn spec_investor_amount(self, project_id: u32, investor: Address) -> int {
        if self.spec_has(project_id) {
            ledger_amount_in(self.spec_ledger(project_id), investor)
        } else {
            0
        }
    }

    /// Well-formedness of the whole state.
    pub open spec fn wf(self) -> bool {
        &&& self.spec_count() <= u32::MAX
        &&& forall|i: int|
            0 <= i < self.records@.len() ==> (#[trigger] self.records@[i]).wf_at(i)
    }

    /// A fresh, uninitialized state with no projects.
    pub fn new() -> (r: Self)
        ensures
            r.wf(),
            !r.spec_initialized(),
            r.spec_count() == 0,
    {
        StellarBridgeContract { config: None, records: Vec::new() }
    }

    /// Whether `initialize` has already succeeded; the host checks this
    /// before any operation that needs the configuration.
    pub fn is_initialized(&self) -> (r: bool)
        ensures
            r == self.spec_initialized(),
    {
        self.config.is_some()
    }

    /// The outcome `initialize` owes for each input.
    pub open spec fn initialize_result(pre: Self, caller: Address, verifier: Address) -> Result<
        (),
        Error,
    > {
        if pre.spec_initialized() {
            Err(Error::AlreadyInitialized)
        } else if caller != verifier {
            Err(Error::Unauthorized)
        } else {
            Ok(())
        }
    }

    /// Sets the configuration singleton.  Only the verifier itself may
    /// initialize, and only once; a second call always fails.
    pub fn initialize(&mut self, caller: Address, verifier: Address, token: Address) -> (r: Result<
        (),
        Error,
    >)
        requires
            old(self).wf(),
        ensures
            final(self).wf(),
            r == Self::initialize_result(*old(self), caller, verifier),
            r is Err ==> *final(self) == *old(self),
            r is Ok ==> final(self).spec_initialized() && final(self).spec_verifier() == verifier
                && final(self).spec_token() == token,
            final(self).records == old(self).records,
    {
        if self.config.is_some() {
            return Err(Error::AlreadyInitialized);
        }
        if caller != verifier {
            return Err(Error::Unauthorized);
        }
        self.config = Some(Config { verifier, token });
        Ok(())
    }

    /// The outcome `create_project` owes for each input: the authorization
    /// check comes first, then the shape of the milestone lists; on success
    /// the next dense id is handed out.
    pub open spec fn create_project_result(
        pre: Self,
        caller: Address,
        owner: Address,
        n_amounts: int,
        n_deadlines: int,
    ) -> Result<u32, Error> {
        if caller != owner {
            Err(Error::Unauthorized)
        } else if n_amounts != n_deadlines {
            Err(Error::MalformedInput)
        } else {
            Ok(((pre.spec_count() + 1) as u32))
        }
    }

    /// Registers a new project for `owner` with one milestone per
    /// (amount, deadline) pair, all `Pending` with no evidence, and hands
    /// out the next project id.  No money moves here.
    pub fn create_project(
        &mut self,
        caller: Address,
        owner: Address,
        goal_amount: i128,
        milestone_amounts: Vec<i128>,
        milestone_deadlines: Vec<u64>,
    ) -> (r: Result<u32, Error>)
        requires
            old(self).wf(),
            old(self).spec_count() < u32::MAX,
        ensures
            final(self).wf(),
            r == Self::create_project_result(
                *old(self),
                caller,
                owner,
                milestone_amounts@.len() as int,
                milestone_deadlines@.len() as int,
            ),
            r is Err ==> *final(self) == *old(self),
            final(self).config == old(self).config,
            r is Ok ==> {
                let nid = ((old(self).spec_count() + 1) as u32);
                &&& final(self).spec_count() == old(self).spec_count() + 1
                &&& forall|k: u32|
                    old(self).spec_has(k) ==> #[trigger] final(self).spec_rec(k) == old(
                        self,
                    ).spec_rec(k)
                &&& final(self).spec_has(nid)
                &&& final(self).spec_project(nid).id == nid
                &&& final(self).spec_project(nid).owner == owner
                &&& final(self).spec_project(nid).goal_amount == goal_amount
                &&& final(self).spec_raised(nid) == 0
                &&& final(self).spec_project(nid).active
                &&& final(self).spec_milestones(nid).len() == milestone_amounts@.len()
                &&& forall|j: int|
                    0 <= j < milestone_amounts@.len() ==> {
                        let m = #[trigger] final(self).spec_milestones(nid)[j];
                        &&& m.amount == milestone_amounts@[j]
                        &&& m.deadline == milestone_deadlines@[j]
                        &&& m.status is Pending
                        &&& m.evidence_hash is None
                    }
                &&& final(self).spec_investments(nid).len() == 0
                &&& final(self).spec_ledger(nid).len() == 0
            },
    {
        if caller != owner {
            return Err(Error::Unauthorized);
        }
        if milestone_amounts.len() != milestone_deadlines.len() {
            return Err(Error::MalformedInput);
        }
        let n = milestone_amounts.len();
        let mut milestones: Vec<Milestone> = Vec::new();
        let mut i: usize = 0;
        while i < n
            invariant
                n == milestone_amounts@.len(),
                n == milestone_deadlines@.len(),
                i <= n,
                milestones@.len() == i as int,
                forall|j: int|
                    0 <= j < i as int ==> {
                        let m = #[trigger] milestones@[j];
                        &&& m.amount == milestone_amounts@[j]
                        &&& m.deadline == milestone_deadlines@[j]
                        &&& m.status is Pending
                        &&& m.evidence_hash is None
                    },
            decreases n - i,
        {
            milestones.push(
                Milestone {
                    amount: milestone_amounts[i],
                    deadline: milestone_deadlines[i],
                    status: MilestoneStatus::Pending,
                    evidence_hash: None,
                },
            );
            i += 1;
        }
        let id: u32 = (self.records.len() as u32) + 1;
        let project = Project {
            id,
            owner,
            goal_amount,
            raised_amount: 0,
            milestones,
            active: true,
        };
        self.records.push(ProjectRecord { project, investments: Vec::new(), ledger: Vec::new() });
        proof {
            assert forall|i2: int| 0 <= i2 < self.records@.len() implies (
            #[trigger] self.records@[i2]).wf_at(i2) by {
                if i2 < old(self).records@.len() {
                    assert(self.records@[i2] == old(self).records@[i2]);
                } else {
                    assert(self.records@[i2] == self.records@.last());
                    assert(sum_investments(Seq::<Investment>::empty()) == 0);
                    assert(sum_ledger(Seq::<LedgerEntry>::empty()) == 0);
                }
            }
        }
        Ok(id)
    }

    /// The outcome `invest` owes for each input: authorization, existence,
    /// then the project's and the amount's validity, then the custody
    /// transfer reported by the host.
    pub open spec fn invest_result(
        pre: Self,
        caller: Address,
        project_id: u32,
        investor: Address,
        amount: i128,
        transfer_ok: bool,
    ) -> Result<(), Error> {
        if caller != investor {
            Err(Error::Unauthorized)
        } else if !pre.spec_has(project_id) {
            Err(Error::NotFound)
        } else if !pre.spec_project(project_id).active || amount <= 0 {
            Err(Error::InvalidOperation)
        } else if !transfer_ok {
            Err(Error::TransferFailed)
        } else {
            Ok(())
        }
    }

    /// Records an investment of `amount` by `investor` in `project_id`.
    ///
    /// The host has already been asked to move `amount` from the investor
    /// into custody; `transfer_ok` reports whether that call fully
    /// succeeded.  Only then are the three records committed together: the
    /// project's `raised_amount`, the investor's cumulative ledger entry,
    /// and the investment log stamped with `now`.  On any failure the state
    /// is untouched, so a refused investment leaves no trace.
    pub fn invest(
        &mut self,
        caller: Address,
        project_id: u32,
        investor: Address,
        amount: i128,
        now: u64,
        transfer_ok: bool,
    ) -> (r: Result<(), Error>)
        requires
            old(self).wf(),
            old(self).spec_initialized(),
            old(self).spec_has(project_id) && amount > 0 ==> old(self).spec_raised(project_id)
                + amount <= i128::MAX,
        ensures
            final(self).wf(),
            r == Self::invest_result(*old(self), caller, project_id, investor, amount, transfer_ok),
            r is Err ==> *final(self) == *old(self),
            final(self).config == old(self).config,
            final(self).spec_count() == old(self).spec_count(),
            r is Ok ==> {
                &&& forall|k: u32|
                    old(self).spec_has(k) && k != project_id ==> #[trigger] final(self).spec_rec(k)
                        == old(self).spec_rec(k)
                &&& final(self).spec_project(project_id).id == old(self).spec_project(
                    project_id,
                ).id
                &&& final(self).spec_project(project_id).owner == old(self).spec_project(
                    project_id,
                ).owner
                &&& final(self).spec_project(project_id).goal_amount == old(self).spec_project(
                    project_id,
                ).goal_amount
                &&& final(self).spec_project(project_id).active == old(self).spec_project(
                    project_id,
                ).active
                &&& final(self).spec_milestones(project_id) == old(self).spec_milestones(project_id)
                &&& final(self).spec_raised(project_id) == old(self).spec_raised(project_id)
                    + amount
                &&& final(self).spec_investments(project_id) == old(self).spec_investments(
                    project_id,
                ).push((Investment { investor, amount, timestamp: now }))
                &&& final(self).spec_investor_amount(project_id, investor) == old(
                    self,
                ).spec_investor_amount(project_id, investor) + amount
                &&& forall|a: Address|
                    a != investor ==> #[trigger] final(self).spec_investor_amount(project_id, a)
                        == old(self).spec_investor_amount(project_id, a)
            },
    {
        if caller != investor {
            return Err(Error::Unauthorized);
        }
        if project_id == 0 || self.records.len() < project_id as usize {
            return Err(Error::NotFound);
        }
        let idx: usize = (project_id as usize) - 1;
        if !self.records[idx].project.active || amount <= 0 {
            return Err(Error::InvalidOperation);
        }
        if !transfer_ok {
            return Err(Error::TransferFailed);
        }
        proof {
            assert(old(self).records@[idx as int].wf_at(idx as int));
        }
        let mut rec = self.records.remove(idx);
        let ghost pre_rec = old(self).records@[idx as int];
        rec.project.raised_amount = rec.project.raised_amount + amount;
        let investment = Investment { investor, amount, timestamp: now };
        rec.investments.push(investment);
        proof {
            lemma_sum_investments_push(pre_rec.investments@, investment);
        }
        credit_ledger(&mut rec.ledger, investor, amount);
        let ghost new_rec = rec;
        self.records.insert(idx, rec);
        proof {
            assert(self.records@ =~= old(self).records@.update(idx as int, new_rec));
            assert forall|i2: int| 0 <= i2 < self.records@.len() implies (
            #[trigger] self.records@[i2]).wf_at(i2) by {
                if i2 != idx as int {
                    assert(self.records@[i2] == old(self).records@[i2]);
                    assert(old(self).records@[i2].wf_at(i2));
                }
            }
        }
        Ok(())
    }

    /// The outcome `submit_evidence` owes for each input.  The project is
    /// looked up first, so an unknown id answers `NotFound` even to a
    /// stranger; only the owner may submit, only onto a `Pending`
    /// milestone.
    pub open spec fn submit_evidence_result(
        pre: Self,
        caller: Address,
        project_id: u32,
        milestone_index: u32,
    ) -> Result<(), Error> {
        if !pre.spec_has(project_id) {
            Err(Error::NotFound)
        } else if caller != pre.spec_project(project_id).owner {
            Err(Error::Unauthorized)
        } else if milestone_index as int >= pre.spec_milestones(project_id).len() {
            Err(Error::InvalidOperation)
        } else if !(pre.spec_milestones(project_id)[milestone_index as int].status is Pending) {
            Err(Error::InvalidState)
        } else {
            Ok(())
        }
    }

    /// Records the owner's evidence for one milestone: stores the hash and
    /// moves the milestone from `Pending` to `EvidenceSubmitted`.  Nothing
    /// else in the state changes, and no milestone ever moves backwards.
    pub fn submit_evidence(
        &mut self,
        caller: Address,
        project_id: u32,
        milestone_index: u32,
        evidence_hash: [u8; 32],
    ) -> (r: Result<(), Error>)
        requires
            old(self).wf(),
        ensures
            final(self).wf(),
            r == Self::submit_evidence_result(*old(self), caller, project_id, milestone_index),
            r is Err ==> *final(self) == *old(self),
            final(self).config == old(self).config,
            final(self).spec_count() == old(self).spec_count(),
            old(self).spec_has(project_id) ==> final(self).spec_milestones(project_id).len() == old(
                self,
            ).spec_milestones(project_id).len() && forall|j: int|
                0 <= j < old(self).spec_milestones(project_id).len() ==> status_advances(
                    old(self).spec_milestones(project_id)[j].status,
                    (#[trigger] final(self).spec_milestones(project_id)[j]).status,
                ),
            r is Ok ==> {
                &&& forall|k: u32|
                    old(self).spec_has(k) && k != project_id ==> #[trigger] final(self).spec_rec(k)
                        == old(self).spec_rec(k)
                &&& final(self).spec_project(project_id).id == old(self).spec_project(
                    project_id,
                ).id
                &&& final(self).spec_project(project_id).owner == old(self).spec_project(
                    project_id,
                ).owner
                &&& final(self).spec_project(project_id).goal_amount == old(self).spec_project(
                    project_id,
                ).goal_amount
                &&& final(self).spec_project(project_id).active == old(self).spec_project(
                    project_id,
                ).active
                &&& final(self).spec_raised(project_id) == old(self).spec_raised(project_id)
                &&& final(self).spec_investments(project_id) == old(self).spec_investments(
                    project_id,
                )
                &&& final(self).spec_ledger(project_id) == old(self).spec_ledger(project_id)
                &&& forall|j: int|
                    0 <= j < old(self).spec_milestones(project_id).len() && j != milestone_index
                        as int ==> #[trigger] final(self).spec_milestones(project_id)[j] == old(
                        self,
                    ).spec_milestones(project_id)[j]
                &&& final(self).spec_milestones(project_id)[milestone_index as int].amount == old(
                    self,
                ).spec_milestones(project_id)[milestone_index as int].amount
                &&& final(self).spec_milestones(project_id)[milestone_index as int].deadline == old(
                    self,
                ).spec_milestones(project_id)[milestone_index as int].deadline
                &&& final(self).spec_milestones(project_id)[milestone_index as int].status
                    is EvidenceSubmitted
                &&& final(self).spec_milestones(project_id)[milestone_index as int].evidence_hash
                    == Some(evidence_hash)
            },
    {
        if project_id == 0 || self.records.len() < project_id as usize {
            return Err(Error::NotFound);
        }
        let idx: usize = (project_id as usize) - 1;
        if caller != self.records[idx].project.owner {
            return Err(Error::Unauthorized);
        }
        if self.records[idx].project.milestones.len() <= milestone_index as usize {
            return Err(Error::InvalidOperation);
        }
        let jm: usize = milestone_index as usize;
        if self.records[idx].project.milestones[jm].status != MilestoneStatus::Pending {
            return Err(Error::InvalidState);
        }
        proof {
            assert(old(self).records@[idx as int].wf_at(idx as int));
        }
        let mut rec = self.records.remove(idx);
        let m = rec.project.milestones.remove(jm);
        let updated = Milestone {
            amount: m.amount,
            deadline: m.deadline,
            status: MilestoneStatus::EvidenceSubmitted,
            evidence_hash: Some(evidence_hash),
        };
        rec.project.milestones.insert(jm, updated);
        proof {
            assert(rec.project.milestones@ =~= old(self).records@[idx as int].project.milestones@
                .update(jm as int, updated));
        }
        let ghost new_rec = rec;
        self.records.insert(idx, rec);
        proof {
            assert(self.records@ =~= old(self).records@.update(idx as int, new_rec));
            assert forall|i2: int| 0 <= i2 < self.records@.len() implies (
            #[trigger] self.records@[i2]).wf_at(i2) by {
                if i2 != idx as int {
                    assert(self.records@[i2] == old(self).records@[i2]);
                    assert(old(self).records@[i2].wf_at(i2));
                }
            }
        }
        Ok(())
    }

    /// The outcome `verify_milestone` owes for each input.  The verifier's
    /// authorization is checked before the project is looked up; only a
    /// milestone holding submitted evidence can be decided; an approval
    /// whose payout transfer did not succeed fails as a whole.
    pub open spec fn verify_milestone_result(
        pre: Self,
        caller: Address,
        project_id: u32,
        milestone_index: u32,
        approved: bool,
        transfer_ok: bool,
    ) -> Result<(), Error> {
        if caller != pre.spec_verifier() {
            Err(Error::Unauthorized)
        } else if !pre.spec_has(project_id) {
            Err(Error::NotFound)
        } else if milestone_index as int >= pre.spec_milestones(project_id).len() {
            Err(Error::InvalidOperation)
        } else if !(pre.spec_milestones(project_id)[milestone_index as int].status
            is EvidenceSubmitted) {
            Err(Error::InvalidState)
        } else if approved && !transfer_ok {
            Err(Error::TransferFailed)
        } else {
            Ok(())
        }
    }

    /// Decides one milestone whose evidence was submitted.  On approval the
    /// host is asked to pay `milestone.amount` out of custody to the
    /// project owner, and `transfer_ok` reports whether that transfer fully
    /// succeeded: the milestone becomes `Verified` only together with a
    /// successful payout, otherwise the call fails and the milestone stays
    /// as it was.  On rejection the milestone becomes `Rejected` and no
    /// money moves.  Both outcomes are terminal.
    pub fn verify_milestone(
        &mut self,
        caller: Address,
        project_id: u32,
        milestone_index: u32,
        approved: bool,
        transfer_ok: bool,
    ) -> (r: Result<(), Error>)
        requires
            old(self).wf(),
            old(self).spec_initialized(),
        ensures
            final(self).wf(),
            r == Self::verify_milestone_result(
                *old(self),
                caller,
                project_id,
                milestone_index,
                approved,
                transfer_ok,
            ),
            r is Err ==> *final(self) == *old(self),
            final(self).config == old(self).config,
            final(self).spec_count() == old(self).spec_count(),
            old(self).spec_has(project_id) ==> final(self).spec_milestones(project_id).len() == old(
                self,
            ).spec_milestones(project_id).len() && forall|j: int|
                0 <= j < old(self).spec_milestones(project_id).len() ==> status_advances(
                    old(self).spec_milestones(project_id)[j].status,
                    (#[trigger] final(self).spec_milestones(project_id)[j]).status,
                ),
            r is Ok ==> {
                &&& forall|k: u32|
                    old(self).spec_has(k) && k != project_id ==> #[trigger] final(self).spec_rec(k)
                        == old(self).spec_rec(k)
                &&& final(self).spec_project(project_id).id == old(self).spec_project(
                    project_id,
                ).id
                &&& final(self).spec_project(project_id).owner == old(self).spec_project(
                    project_id,
                ).owner
                &&& final(self).spec_project(project_id).goal_amount == old(self).spec_project(
                    project_id,
                ).goal_amount
                &&& final(self).spec_project(project_id).active == old(self).spec_project(
                    project_id,
                ).active
                &&& final(self).spec_raised(project_id) == old(self).spec_raised(project_id)
                &&& final(self).spec_investments(project_id) == old(self).spec_investments(
                    project_id,
                )
                &&& final(self).spec_ledger(project_id) == old(self).spec_ledger(project_id)
                &&& forall|j: int|
                    0 <= j < old(self).spec_milestones(project_id).len() && j != milestone_index
                        as int ==> #[trigger] final(self).spec_milestones(project_id)[j] == old(
                        self,
                    ).spec_milestones(project_id)[j]
                &&& final(self).spec_milestones(project_id)[milestone_index as int].amount == old(
                    self,
                ).spec_milestones(project_id)[milestone_index as int].amount
                &&& final(self).spec_milestones(project_id)[milestone_index as int].deadline == old(
                    self,
                ).spec_milestones(project_id)[milestone_index as int].deadline
                &&& final(self).spec_milestones(project_id)[milestone_index as int].evidence_hash
                    == old(self).spec_milestones(project_id)[milestone_index as int].evidence_hash
                &&& final(self).spec_milestones(project_id)[milestone_index as int].status == (
                if approved {
                    MilestoneStatus::Verified
                } else {
                    MilestoneStatus::Rejected
                })
            },
    {
        let cfg = self.config.unwrap();
        if caller != cfg.verifier {
            return Err(Error::Unauthorized);
        }
        if project_id == 0 || self.records.len() < project_id as usize {
            return Err(Error::NotFound);
        }
        let idx: usize = (project_id as usize) - 1;
        if self.records[idx].project.milestones.len() <= milestone_index as usize {
            return Err(Error::InvalidOperation);
        }
        let jm: usize = milestone_index as usize;
        if self.records[idx].project.milestones[jm].status != MilestoneStatus::EvidenceSubmitted {
            return Err(Error::InvalidState);
        }
        if approved && !transfer_ok {
            return Err(Error::TransferFailed);
        }
        proof {
            assert(old(self).records@[idx as int].wf_at(idx as int));
        }
        let mut rec = self.records.remove(idx);
        let m = rec.project.milestones.remove(jm);
        let updated = Milestone {
            amount: m.amount,
            deadline: m.deadline,
            status: if approved {
                MilestoneStatus::Verified
            } else {
                MilestoneStatus::Rejected
            },
            evidence_hash: m.evidence_hash,
        };
        rec.project.milestones.insert(jm, updated);
        proof {
            assert(rec.project.milestones@ =~= old(self).records@[idx as int].project.milestones@
                .update(jm as int, updated));
        }
        let ghost new_rec = rec;
        self.records.insert(idx, rec);
        proof {
            assert(self.records@ =~= old(self).records@.update(idx as int, new_rec));
            assert forall|i2: int| 0 <= i2 < self.records@.len() implies (
            #[trigger] self.records@[i2]).wf_at(i2) by {
                if i2 != idx as int {
                    assert(self.records@[i2] == old(self).records@[i2]);
                    assert(old(self).records@[i2].wf_at(i2));
                }
            }
        }
        Ok(())
    }

    /// A snapshot of the full project record for `project_id`, or
    /// `NotFound` for an id that was never handed out.  A pure read.
    pub fn get_project(&self, project_id: u32) -> (r: Result<Project, Error>)
        requires
            self.wf(),
        ensures
            match r {
                Ok(p) => {
                    &&& self.spec_has(project_id)
                    &&& p.id == self.spec_project(project_id).id
                    &&& p.owner == self.spec_project(project_id).owner
                    &&& p.goal_amount == self.spec_project(project_id).goal_amount
                    &&& p.raised_amount == self.spec_project(project_id).raised_amount
                    &&& p.active == self.spec_project(project_id).active
                    &&& p.milestones@ == self.spec_milestones(project_id)
                },
                Err(e) => e == Error::NotFound && !self.spec_has(project_id),
            },
    {
        if project_id == 0 || self.records.len() < project_id as usize {
            return Err(Error::NotFound);
        }
        let idx: usize = (project_id as usize) - 1;
        let n = self.records[idx].project.milestones.len();
        let mut milestones: Vec<Milestone> = Vec::new();
        let mut i: usize = 0;
        while i < n
            invariant
                self.wf(),
                idx < self.records@.len(),
                n == self.records@[idx as int].project.milestones@.len(),
                i <= n,
                milestones@ =~= self.records@[idx as int].project.milestones@.take(i as int),
            decreases n - i,
        {
            milestones.push(self.records[idx].project.milestones[i]);
            i += 1;
        }
        proof {
            assert(milestones@ =~= self.records@[idx as int].project.milestones@);
        }
        Ok(
            Project {
                id: self.records[idx].project.id,
                owner: self.records[idx].project.owner,
                goal_amount: self.records[idx].project.goal_amount,
                raised_amount: self.records[idx].project.raised_amount,
                milestones,
                active: self.records[idx].project.active,
            },
        )
    }

    /// The cumulative amount `investor` has put into `project_id`, 0 if
    /// the project is unknown or the investor never invested.  A pure read.
    pub fn get_investor_amount(&self, project_id: u32, investor: Address) -> (r: i128)
        requires
            self.wf(),
        ensures
            r as int == self.spec_investor_amount(project_id, investor),
    {
        if project_id == 0 || self.records.len() < project_id as usize {
            return 0;
        }
        let idx: usize = (project_id as usize) - 1;
        proof {
            assert(self.records@[idx as int].wf_at(idx as int));
        }
        ledger_lookup(&self.records[idx].ledger, investor)
    }

    /// How many projects exist, which is also the highest id handed out;
    /// 0 before any project was created.  A pure read.
    pub fn get_project_count(&self) -> (r: u32)
        requires
            self.wf(),
        ensures
            r as int == self.spec_count(),
    {
        self.records.len() as u32
    }
}

} // verus!
