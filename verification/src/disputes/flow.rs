//! The life of a dispute: opened, argued, escalated to the DAO or canceled, decided,
//! and its outcome reported to the bounties contract.
use vstd::prelude::*;
use crate::accounts::AccountId;
use crate::bounties::types::ContractStatus;
use crate::bounties::effects::CallContext;
use crate::bounties::replies::text_is;
use super::types::{
    Dispute, DisputeCreate, DisputeIndex, DisputeStatus, Proposal, Reason, Side, is_final,
    proposal_description, proposal_text,
};
use super::contract::{DisputeError, DisputesContract};

verus! {

/// What the contract does with the answer of a call it made.
#[derive(Clone, Copy, Debug, PartialEq, Eq, Structural)]
pub enum DisputeCallback {
    /// The DAO answered the request to add a proposal.
    OnAddedProposal { id: DisputeIndex },
    /// The bounties contract answered the report of an outcome.
    AfterClaimApproval { id: DisputeIndex, success: bool, canceled: bool },
    /// The DAO answered the request for a proposal.
    AfterGetProposal { id: DisputeIndex },
}

/// A call to another contract, with what to do with its answer.
#[derive(Clone, Debug, PartialEq, Eq)]
pub enum DisputeEffect {
    /// `dispute_result` of the bounties contract, with one yoctoNEAR attached.
    DisputeResult {
        bounties_contract: AccountId,
        bounty_id: u64,
        receiver_id: AccountId,
        claim_number: Option<u8>,
        success: bool,
        then: DisputeCallback,
    },
    /// `add_proposal` of the DAO, with the bond attached: a proposal that calls
    /// `result_of_dispute` of this contract on dispute `dispute_id` in favour of the
    /// claimant.
    AddProposal {
        dispute_dao: AccountId,
        description: String,
        dispute_id: DisputeIndex,
        bond: u128,
        then: DisputeCallback,
    },
    /// `get_proposal` of the DAO.
    GetProposal {
        dispute_dao: AccountId,
        proposal_id: u64,
        then: DisputeCallback,
    },
}

/// The final status of a dispute from the answer of the bounties contract.
pub open spec fn outcome(success: bool, canceled: bool) -> DisputeStatus {
    if success {
        if canceled { DisputeStatus::CanceledByProjectOwner } else { DisputeStatus::InFavorOfClaimer }
    } else {
        if canceled { DisputeStatus::CanceledByClaimer } else { DisputeStatus::InFavorOfProjectOwner }
    }
}

/// The outcome of a settled dispute records how it ended and who won: canceled, it
/// ends canceled by the side that gave up; decided, in favour of the side that won.
/// The claimant wins exactly when the bounties contract reported success, the outcome
/// is final, and different answers give different outcomes.
pub proof fn lemma_outcome_names_the_ending(success: bool, canceled: bool, other_success: bool, other_canceled: bool)
    ensures
        canceled ==> outcome(success, canceled) == DisputeStatus::CanceledByClaimer
            || outcome(success, canceled) == DisputeStatus::CanceledByProjectOwner,
        !canceled ==> outcome(success, canceled) == DisputeStatus::InFavorOfClaimer
            || outcome(success, canceled) == DisputeStatus::InFavorOfProjectOwner,
        success <==> (outcome(success, canceled) == DisputeStatus::InFavorOfClaimer
            || outcome(success, canceled) == DisputeStatus::CanceledByProjectOwner),
        is_final(outcome(success, canceled)),
        outcome(success, canceled) == outcome(other_success, other_canceled)
            ==> success == other_success && canceled == other_canceled,
{
}

impl DisputesContract {
    /// No dispute that had reached its outcome differs in `other`.
    pub open spec fn keeps_final(&self, other: &Self) -> bool {
        &&& other.disputes@.len() >= self.disputes@.len()
        &&& forall|i: int| 0 <= i < self.disputes@.len() && is_final(self.disputes@[i].status)
            ==> #[trigger] other.disputes@[i] == self.disputes@[i]
    }

    /// The report of the outcome of dispute `id` to the bounties contract.
    pub open spec fn result_effect(&self, id: DisputeIndex, d: Dispute, success: bool, canceled: bool) -> DisputeEffect {
        DisputeEffect::DisputeResult {
            bounties_contract: self.bounties_contract,
            bounty_id: d.bounty_id,
            receiver_id: d.receiver_id,
            claim_number: d.claim_number,
            success,
            then: DisputeCallback::AfterClaimApproval { id, success, canceled },
        }
    }

    fn send_result_of_dispute(&self, id: DisputeIndex, d: &Dispute, success: bool, canceled: bool) -> (r: DisputeEffect)
        ensures
            r == self.result_effect(id, *d, success, canceled),
    {
        DisputeEffect::DisputeResult {
            bounties_contract: self.bounties_contract.clone(),
            bounty_id: d.bounty_id,
            receiver_id: d.receiver_id.clone(),
            claim_number: d.claim_number,
            success,
            then: DisputeCallback::AfterClaimApproval { id, success, canceled },
        }
    }

    /// The first reason why the bounties contract cannot open `dc` with `ctx`.
    pub open spec fn create_error(&self, ctx: CallContext, dc: DisputeCreate) -> Option<DisputeError> {
        if self.status != ContractStatus::Live {
            Some(DisputeError::NotLive)
        } else if ctx.predecessor@ != self.bounties_contract@ {
            Some(DisputeError::NotBountiesContract)
        } else if dc.description@.len() == 0 {
            Some(DisputeError::EmptyDescription)
        } else if self.last_dispute_id == u64::MAX {
            Some(DisputeError::ArithmeticOverflow)
        } else {
            None
        }
    }

    /// `other` is `self` with the dispute `d` added under the next id.
    pub open spec fn dispute_added(&self, other: &Self, d: Dispute) -> bool {
        let id = self.last_dispute_id;
        &&& other.last_dispute_id == id + 1
        &&& other.disputes@ == self.disputes@.push(d)
        &&& other.arguments@.len() == self.arguments@.len() + 1
        &&& forall|i: int| 0 <= i < self.arguments@.len() ==> #[trigger] other.arguments@[i] == self.arguments@[i]
        &&& other.arguments@[id as int]@.len() == 0
        &&& other.disputes_of(d.bounty_id) == self.disputes_of(d.bounty_id).push(id)
        &&& forall|b: u64| b != d.bounty_id ==> #[trigger] other.disputes_of(b) == self.disputes_of(b)
        &&& *other == (DisputesContract {
            last_dispute_id: other.last_dispute_id,
            disputes: other.disputes,
            arguments: other.arguments,
            bounty_disputes: other.bounty_disputes,
            ..*self
        })
    }

    /// Adds `dispute` under the next id, and lists it among the disputes of its bounty.
    pub(crate) fn internal_add_dispute(&mut self, dispute: Dispute) -> (id: DisputeIndex)
        requires
            old(self).wf(),
            old(self).last_dispute_id < u64::MAX,
        ensures
            final(self).wf(),
            id == old(self).last_dispute_id,
            old(self).dispute_added(&*final(self), dispute),
    {
        let ghost s0 = *self;
        let id = self.last_dispute_id;
        let bounty_id = dispute.bounty_id;
        self.disputes.push(dispute);
        self.arguments.push(Vec::new());
        let mut indices: Vec<DisputeIndex> = match self.bounty_disputes.get(&bounty_id) {
            Some(v) => v.clone(),
            None => Vec::new(),
        };
        proof {
            assert(indices@ == s0.disputes_of(bounty_id));
        }
        indices.push(id);
        self.internal_save_bounty_disputes(bounty_id, indices);
        self.last_dispute_id = id + 1;
        proof {
            assert forall|b: u64| b != bounty_id implies #[trigger] self.disputes_of(b) == s0.disputes_of(b) by {
                assert(self.bounty_disputes@.contains_key(b) == s0.bounty_disputes@.contains_key(b));
            }
            assert forall|i: int| 0 <= i < s0.arguments@.len() implies #[trigger] self.arguments@[i] == s0.arguments@[i] by {}
            assert forall|b: u64| #[trigger] self.bounty_disputes@.contains_key(b) implies self.indexes_bounty(b, self.bounty_disputes@[b]@) by {
                let ids = self.bounty_disputes@[b]@;
                if b == bounty_id {
                    let old_ids = s0.disputes_of(bounty_id);
                    assert(ids == old_ids.push(id));
                    assert forall|k: int| 0 <= k < ids.len() implies (#[trigger] ids[k]) < self.disputes@.len()
                        && self.disputes@[ids[k] as int].bounty_id == b by {
                        if k < old_ids.len() {
                            assert(s0.indexes_bounty(b, old_ids));
                            assert(old_ids[k] < s0.disputes@.len());
                            assert(self.disputes@[ids[k] as int] == s0.disputes@[old_ids[k] as int]);
                        }
                    }
                    assert forall|k: int, l: int| 0 <= k < l < ids.len() implies (#[trigger] ids[k]) < (#[trigger] ids[l]) by {
                        if l < old_ids.len() {
                            assert(s0.indexes_bounty(b, old_ids));
                        } else {
                            assert(s0.indexes_bounty(b, old_ids));
                            assert(old_ids[k] < s0.disputes@.len());
                        }
                    }
                } else {
                    assert(s0.bounty_disputes@.contains_key(b));
                    assert(s0.indexes_bounty(b, ids));
                    assert forall|k: int| 0 <= k < ids.len() implies (#[trigger] ids[k]) < self.disputes@.len()
                        && self.disputes@[ids[k] as int].bounty_id == b by {
                        assert(ids[k] < s0.disputes@.len());
                        assert(self.disputes@[ids[k] as int] == s0.disputes@[ids[k] as int]);
                    }
                }
            }
        }
        id
    }

    /// Stores the ids of the disputes of bounty `bounty_id`; a bounty without
    /// disputes is forgotten.
    pub fn internal_save_bounty_disputes(&mut self, bounty_id: u64, indices: Vec<DisputeIndex>)
        ensures
            final(self).disputes_of(bounty_id) == indices@,
            indices@.len() > 0 ==> final(self).bounty_disputes@ == old(self).bounty_disputes@.insert(bounty_id, indices),
            indices@.len() == 0 ==> final(self).bounty_disputes@ == old(self).bounty_disputes@.remove(bounty_id),
            *final(self) == (DisputesContract { bounty_disputes: final(self).bounty_disputes, ..*old(self) }),
    {
        if indices.len() == 0 {
            self.bounty_disputes.remove(&bounty_id);
            proof { assert(indices@ =~= Seq::<DisputeIndex>::empty()); }
        } else {
            self.bounty_disputes.insert(bounty_id, indices);
        }
    }

    /// The bounties contract opens the dispute `dispute_create` at the time of `ctx`;
    /// the id of the new dispute is returned.
    pub fn create_dispute(&mut self, ctx: &CallContext, dispute_create: DisputeCreate) -> (r: Result<DisputeIndex, DisputeError>)
        requires
            old(self).wf(),
        ensures
            final(self).wf(),
            old(self).keeps_final(&*final(self)),
            r is Err <==> old(self).create_error(*ctx, dispute_create) is Some,
            r matches Err(e) ==> old(self).create_error(*ctx, dispute_create) == Some(e) && *final(self) == *old(self),
            r matches Ok(id) ==> id == old(self).last_dispute_id
                && old(self).dispute_added(&*final(self), dispute_create.opened(ctx.block_timestamp)),
    {
        self.assert_live()?;
        if ctx.predecessor != self.bounties_contract {
            return Err(DisputeError::NotBountiesContract);
        }
        if dispute_create.description.as_str().is_empty() {
            return Err(DisputeError::EmptyDescription);
        }
        if self.last_dispute_id == u64::MAX {
            return Err(DisputeError::ArithmeticOverflow);
        }
        let dispute = dispute_create.to_dispute(ctx.block_timestamp);
        let id = self.internal_add_dispute(dispute);
        Ok(id)
    }

    /// The end of the period for arguments of `d`, unless it passes the largest `u64`.
    pub open spec fn argument_deadline(&self, d: Dispute) -> int {
        d.start_time + self.config.argument_period
    }

    /// The first reason why `ctx` cannot argue in dispute `id`.
    pub open spec fn argument_error(&self, ctx: CallContext, id: DisputeIndex) -> Option<DisputeError> {
        if self.status != ContractStatus::Live {
            Some(DisputeError::NotLive)
        } else if id >= self.disputes@.len() {
            Some(DisputeError::DisputeNotFound)
        } else {
            let d = self.disputes@[id as int];
            if d.status != DisputeStatus::New {
                Some(DisputeError::NotNew)
            } else if self.argument_deadline(d) > u64::MAX {
                Some(DisputeError::ArithmeticOverflow)
            } else if ctx.block_timestamp > self.argument_deadline(d) {
                Some(DisputeError::ArgumentPeriodExpired)
            } else if d.side_of(ctx.predecessor@) is None {
                Some(DisputeError::NoAccessRights)
            } else {
                None
            }
        }
    }

    /// The dispute `id`; refused where the contract is not live or there is no such dispute.
    fn live_dispute(&self, id: DisputeIndex) -> (r: Result<&Dispute, DisputeError>)
        ensures
            r is Err <==> self.status != ContractStatus::Live || id >= self.disputes@.len(),
            r matches Err(e) ==> e == (if self.status != ContractStatus::Live {
                DisputeError::NotLive
            } else {
                DisputeError::DisputeNotFound
            }),
            r matches Ok(d) ==> *d == self.disputes@[id as int],
    {
        self.assert_live()?;
        self.get_dispute(id)
    }

    /// Whether the period for arguments of `d` is over at `now`.
    fn is_argument_period_expired(&self, d: &Dispute, now: u64) -> (r: Result<bool, DisputeError>)
        ensures
            r is Err <==> self.argument_deadline(*d) > u64::MAX,
            r matches Err(e) ==> e == DisputeError::ArithmeticOverflow,
            r matches Ok(b) ==> b == (now > self.argument_deadline(*d)),
    {
        match d.start_time.checked_add(self.config.argument_period) {
            Some(end) => Ok(now > end),
            None => Err(DisputeError::ArithmeticOverflow),
        }
    }

    /// A party of dispute `id` adds an argument; its position among the arguments of
    /// the dispute is returned.
    pub fn provide_arguments(&mut self, ctx: &CallContext, id: DisputeIndex, description: String) -> (r: Result<usize, DisputeError>)
        requires
            old(self).wf(),
        ensures
            final(self).wf(),
            old(self).keeps_final(&*final(self)),
            r is Err <==> old(self).argument_error(*ctx, id) is Some,
            r matches Err(e) ==> old(self).argument_error(*ctx, id) == Some(e) && *final(self) == *old(self),
            r matches Ok(k) ==> {
                let d = old(self).disputes@[id as int];
                let reason = Reason {
                    side: d.side_of(ctx.predecessor@)->0,
                    argument_timestamp: ctx.block_timestamp,
                    description,
                };
                &&& k == old(self).arguments@[id as int]@.len()
                &&& final(self).arguments@[id as int]@ == old(self).arguments@[id as int]@.push(reason)
                &&& final(self).arguments@.len() == old(self).arguments@.len()
                &&& forall|i: int| 0 <= i < old(self).arguments@.len() && i != id ==> #[trigger] final(self).arguments@[i] == old(self).arguments@[i]
                &&& *final(self) == (DisputesContract { arguments: final(self).arguments, ..*old(self) })
            },
    {
        let d = self.live_dispute(id)?;
        if d.status != DisputeStatus::New {
            return Err(DisputeError::NotNew);
        }
        if self.is_argument_period_expired(d, ctx.block_timestamp)? {
            return Err(DisputeError::ArgumentPeriodExpired);
        }
        let side = match d.get_side_of_dispute(&ctx.predecessor) {
            Some(s) => s,
            None => { return Err(DisputeError::NoAccessRights); },
        };
        let reason = Reason { side, argument_timestamp: ctx.block_timestamp, description };
        Ok(self.internal_add_argument(id, reason))
    }

    /// Appends `reason` to the arguments of dispute `id`; its position is returned.
    pub(crate) fn internal_add_argument(&mut self, id: DisputeIndex, reason: Reason) -> (k: usize)
        requires
            old(self).wf(),
            id < old(self).arguments@.len(),
        ensures
            final(self).wf(),
            k == old(self).arguments@[id as int]@.len(),
            final(self).arguments@[id as int]@ == old(self).arguments@[id as int]@.push(reason),
            final(self).arguments@.len() == old(self).arguments@.len(),
            forall|i: int| 0 <= i < old(self).arguments@.len() && i != id ==> #[trigger] final(self).arguments@[i] == old(self).arguments@[i],
            *final(self) == (DisputesContract { arguments: final(self).arguments, ..*old(self) }),
    {
        let ghost s0 = *self;
        let n = self.arguments.len();
        assert(id < n);
        let i = id as usize;
        let mut reasons = self.arguments.remove(i);
        let k = reasons.len();
        reasons.push(reason);
        self.arguments.insert(i, reasons);
        proof {
            assert forall|j: int| 0 <= j < s0.arguments@.len() && j != id implies #[trigger] self.arguments@[j] == s0.arguments@[j] by {
                if j < id { assert(self.arguments@[j] == s0.arguments@[j]); } else { assert(self.arguments@[j] == s0.arguments@[j]); }
            }
        }
        k
    }

    /// The first reason why `ctx` cannot cancel dispute `id`.
    pub open spec fn cancel_error(&self, ctx: CallContext, id: DisputeIndex) -> Option<DisputeError> {
        if self.status != ContractStatus::Live {
            Some(DisputeError::NotLive)
        } else if id >= self.disputes@.len() {
            Some(DisputeError::DisputeNotFound)
        } else {
            let d = self.disputes@[id as int];
            if d.status != DisputeStatus::New {
                Some(DisputeError::NotNew)
            } else if d.side_of(ctx.predecessor@) is None {
                Some(DisputeError::NoAccessRights)
            } else {
                None
            }
        }
    }

    /// A party cancels dispute `id`: the outcome goes to the other party, and is
    /// reported to the bounties contract.
    pub fn cancel_dispute(&mut self, ctx: &CallContext, id: DisputeIndex) -> (r: Result<DisputeEffect, DisputeError>)
        ensures
            *final(self) == *old(self),
            r is Err <==> old(self).cancel_error(*ctx, id) is Some,
            r matches Err(e) ==> old(self).cancel_error(*ctx, id) == Some(e),
            r matches Ok(effect) ==> {
                let d = old(self).disputes@[id as int];
                effect == old(self).result_effect(id, d, d.side_of(ctx.predecessor@) == Some(Side::ProjectOwner), true)
            },
    {
        let d = self.live_dispute(id)?;
        if d.status != DisputeStatus::New {
            return Err(DisputeError::NotNew);
        }
        let side = match d.get_side_of_dispute(&ctx.predecessor) {
            Some(s) => s,
            None => { return Err(DisputeError::NoAccessRights); },
        };
        let success = side == Side::ProjectOwner;
        Ok(self.send_result_of_dispute(id, d, success, true))
    }

    /// The first reason why dispute `id` cannot be escalated at the time of `ctx`.
    pub open spec fn escalation_error(&self, ctx: CallContext, id: DisputeIndex) -> Option<DisputeError> {
        if self.status != ContractStatus::Live {
            Some(DisputeError::NotLive)
        } else if id >= self.disputes@.len() {
            Some(DisputeError::DisputeNotFound)
        } else {
            let d = self.disputes@[id as int];
            if d.status != DisputeStatus::New {
                Some(DisputeError::NotNew)
            } else if self.argument_deadline(d) > u64::MAX {
                Some(DisputeError::ArithmeticOverflow)
            } else if ctx.block_timestamp <= self.argument_deadline(d) {
                Some(DisputeError::ArgumentPeriodNotExpired)
            } else {
                None
            }
        }
    }

    /// `effect` asks the DAO for a proposal on dispute `id` that quotes its cause and
    /// every argument, with the bond of the configuration.
    pub open spec fn asks_proposal(&self, effect: DisputeEffect, id: DisputeIndex) -> bool {
        &&& effect matches DisputeEffect::AddProposal { dispute_dao, description, dispute_id, bond, then }
        &&& dispute_dao == self.dispute_dao
        &&& description@ == proposal_text(self.disputes@[id as int], self.arguments@[id as int]@)
        &&& dispute_id == id
        &&& bond == self.config.add_proposal_bond
        &&& then == (DisputeCallback::OnAddedProposal { id })
    }

    /// Once the period for arguments is over, anyone escalates dispute `id`: the DAO is
    /// asked to add a proposal that quotes the cause and every argument.
    pub fn escalation(&mut self, ctx: &CallContext, id: DisputeIndex) -> (r: Result<DisputeEffect, DisputeError>)
        requires
            old(self).wf(),
        ensures
            *final(self) == *old(self),
            r is Err <==> old(self).escalation_error(*ctx, id) is Some,
            r matches Err(e) ==> old(self).escalation_error(*ctx, id) == Some(e),
            r matches Ok(effect) ==> old(self).asks_proposal(effect, id),
    {
        let d = self.live_dispute(id)?;
        if d.status != DisputeStatus::New {
            return Err(DisputeError::NotNew);
        }
        if !self.is_argument_period_expired(d, ctx.block_timestamp)? {
            return Err(DisputeError::ArgumentPeriodNotExpired);
        }
        Ok(self.internal_add_proposal(id, d))
    }

    fn internal_add_proposal(&self, id: DisputeIndex, d: &Dispute) -> (r: DisputeEffect)
        requires
            self.wf(),
            id < self.disputes@.len(),
            *d == self.disputes@[id as int],
        ensures
            self.asks_proposal(r, id),
    {
        let n = self.arguments.len();
        assert(id < n);
        let description = proposal_description(d, &self.arguments[id as usize]);
        DisputeEffect::AddProposal {
            dispute_dao: self.dispute_dao.clone(),
            description,
            dispute_id: id,
            bond: self.config.add_proposal_bond,
            then: DisputeCallback::OnAddedProposal { id },
        }
    }

    /// The end of the period of the DAO's decision on `d`.
    pub open spec fn decision_deadline(&self, d: Dispute) -> int {
        d.proposal_timestamp->0 + self.config.decision_period
    }

    /// The first reason why `ctx` cannot decide dispute `id`.
    pub open spec fn result_error(&self, ctx: CallContext, id: DisputeIndex) -> Option<DisputeError> {
        if self.status != ContractStatus::Live {
            Some(DisputeError::NotLive)
        } else if id >= self.disputes@.len() {
            Some(DisputeError::DisputeNotFound)
        } else {
            let d = self.disputes@[id as int];
            if ctx.predecessor@ != self.dispute_dao@ {
                Some(DisputeError::NotDisputeDao)
            } else if d.status != DisputeStatus::DecisionPending {
                Some(DisputeError::NotDecisionPending)
            } else if d.proposal_timestamp is None {
                Some(DisputeError::NoProposal)
            } else if self.decision_deadline(d) > u64::MAX {
                Some(DisputeError::ArithmeticOverflow)
            } else if ctx.block_timestamp > self.decision_deadline(d) {
                Some(DisputeError::DecisionPeriodExpired)
            } else {
                None
            }
        }
    }

    /// Whether the period of the DAO's decision on `d` is over at `now`.
    fn is_decision_period_expired(&self, d: &Dispute, now: u64) -> (r: Result<bool, DisputeError>)
        ensures
            r is Err <==> d.proposal_timestamp is None || self.decision_deadline(*d) > u64::MAX,
            r matches Err(e) ==> e == (if d.proposal_timestamp is None {
                DisputeError::NoProposal
            } else {
                DisputeError::ArithmeticOverflow
            }),
            r matches Ok(b) ==> b == (now > self.decision_deadline(*d)),
    {
        let t = match d.proposal_timestamp {
            Some(t) => t,
            None => { return Err(DisputeError::NoProposal); },
        };
        match t.checked_add(self.config.decision_period) {
            Some(end) => Ok(now > end),
            None => Err(DisputeError::ArithmeticOverflow),
        }
    }

    /// The DAO decides dispute `id` within its period; the outcome is reported to the
    /// bounties contract.
    pub fn result_of_dispute(&mut self, ctx: &CallContext, id: DisputeIndex, success: bool) -> (r: Result<DisputeEffect, DisputeError>)
        ensures
            *final(self) == *old(self),
            r is Err <==> old(self).result_error(*ctx, id) is Some,
            r matches Err(e) ==> old(self).result_error(*ctx, id) == Some(e),
            r matches Ok(effect) ==> effect == old(self).result_effect(id, old(self).disputes@[id as int], success, false),
    {
        let d = self.live_dispute(id)?;
        if ctx.predecessor != self.dispute_dao {
            return Err(DisputeError::NotDisputeDao);
        }
        if d.status != DisputeStatus::DecisionPending {
            return Err(DisputeError::NotDecisionPending);
        }
        if self.is_decision_period_expired(d, ctx.block_timestamp)? {
            return Err(DisputeError::DecisionPeriodExpired);
        }
        Ok(self.send_result_of_dispute(id, d, success, false))
    }

    /// The first reason why dispute `id` cannot be finalized.
    pub open spec fn finalize_error(&self, id: DisputeIndex) -> Option<DisputeError> {
        if self.status != ContractStatus::Live {
            Some(DisputeError::NotLive)
        } else if id >= self.disputes@.len() {
            Some(DisputeError::DisputeNotFound)
        } else {
            let d = self.disputes@[id as int];
            if d.status != DisputeStatus::DecisionPending {
                Some(DisputeError::NotDecisionPending)
            } else if d.proposal_id is None {
                Some(DisputeError::NoProposal)
            } else {
                None
            }
        }
    }

    /// Anyone asks for the DAO's proposal on dispute `id`, to settle the dispute from it.
    pub fn finalize_dispute(&mut self, id: DisputeIndex) -> (r: Result<DisputeEffect, DisputeError>)
        ensures
            *final(self) == *old(self),
            r is Err <==> old(self).finalize_error(id) is Some,
            r matches Err(e) ==> old(self).finalize_error(id) == Some(e),
            r matches Ok(effect) ==> effect == (DisputeEffect::GetProposal {
                dispute_dao: old(self).dispute_dao,
                proposal_id: old(self).disputes@[id as int].proposal_id->0,
                then: DisputeCallback::AfterGetProposal { id },
            }),
    {
        let d = self.live_dispute(id)?;
        if d.status != DisputeStatus::DecisionPending {
            return Err(DisputeError::NotDecisionPending);
        }
        let proposal_id = match d.proposal_id {
            Some(p) => p,
            None => { return Err(DisputeError::NoProposal); },
        };
        Ok(DisputeEffect::GetProposal {
            dispute_dao: self.dispute_dao.clone(),
            proposal_id,
            then: DisputeCallback::AfterGetProposal { id },
        })
    }

    /// Replaces dispute `id` by `d`.
    fn put_dispute(&mut self, id: DisputeIndex, d: Dispute)
        requires
            old(self).wf(),
            id < old(self).disputes@.len(),
            d.bounty_id == old(self).disputes@[id as int].bounty_id,
        ensures
            final(self).wf(),
            final(self).disputes@ == old(self).disputes@.update(id as int, d),
            *final(self) == (DisputesContract { disputes: final(self).disputes, ..*old(self) }),
    {
        let ghost s0 = *self;
        let n = self.disputes.len();
        assert(id < n);
        self.disputes.set(id as usize, d);
        proof {
            assert forall|b: u64| #[trigger] self.bounty_disputes@.contains_key(b) implies self.indexes_bounty(b, self.bounty_disputes@[b]@) by {
                let ids = self.bounty_disputes@[b]@;
                assert(s0.indexes_bounty(b, ids));
                assert forall|k: int| 0 <= k < ids.len() implies (#[trigger] ids[k]) < self.disputes@.len()
                    && self.disputes@[ids[k] as int].bounty_id == b by {
                    assert(ids[k] < s0.disputes@.len());
                }
            }
        }
    }

    /// After the DAO answered the request to add a proposal for dispute `id`: with the
    /// proposal's id the dispute awaits the decision from `now` on; without it nothing
    /// changes.
    pub fn on_added_proposal_callback(&mut self, now: u64, id: DisputeIndex, result: Option<u64>) -> (r: Result<bool, DisputeError>)
        requires
            old(self).wf(),
        ensures
            final(self).wf(),
            old(self).keeps_final(&*final(self)),
            r is Err <==> result is Some && (id >= old(self).disputes@.len()
                || old(self).disputes@[id as int].status != DisputeStatus::New),
            r matches Err(e) ==> e == (if id >= old(self).disputes@.len() {
                DisputeError::DisputeNotFound
            } else {
                DisputeError::NotNew
            }),
            r is Err ==> *final(self) == *old(self),
            r matches Ok(b) ==> b == result is Some,
            r == Ok::<bool, DisputeError>(false) ==> *final(self) == *old(self),
            r == Ok::<bool, DisputeError>(true) ==> {
                let d = old(self).disputes@[id as int];
                &&& final(self).disputes@ == old(self).disputes@.update(id as int, Dispute {
                    proposal_id: result,
                    proposal_timestamp: Some(now),
                    status: DisputeStatus::DecisionPending,
                    ..d
                })
                &&& *final(self) == (DisputesContract { disputes: final(self).disputes, ..*old(self) })
            },
    {
        let proposal_id = match result {
            Some(p) => p,
            None => { return Ok(false); },
        };
        let d = self.get_dispute(id)?;
        if d.status != DisputeStatus::New {
            return Err(DisputeError::NotNew);
        }
        let mut updated = d.copy();
        updated.proposal_id = Some(proposal_id);
        updated.proposal_timestamp = Some(now);
        updated.status = DisputeStatus::DecisionPending;
        self.put_dispute(id, updated);
        Ok(true)
    }

    /// After the bounties contract answered the report of the outcome of dispute `id`:
    /// where it took it, the dispute reaches its outcome; otherwise nothing changes.
    pub fn after_claim_approval(&mut self, promise_success: bool, id: DisputeIndex, success: bool, canceled: bool) -> (r: Result<bool, DisputeError>)
        requires
            old(self).wf(),
        ensures
            final(self).wf(),
            old(self).keeps_final(&*final(self)),
            r is Err <==> promise_success && (id >= old(self).disputes@.len()
                || is_final(old(self).disputes@[id as int].status)),
            r matches Err(e) ==> e == (if id >= old(self).disputes@.len() {
                DisputeError::DisputeNotFound
            } else {
                DisputeError::AlreadyCompleted
            }),
            r is Err ==> *final(self) == *old(self),
            r matches Ok(b) ==> b == promise_success,
            r == Ok::<bool, DisputeError>(false) ==> *final(self) == *old(self),
            r == Ok::<bool, DisputeError>(true) ==> {
                &&& final(self).disputes@ == old(self).disputes@.update(id as int, Dispute {
                    status: outcome(success, canceled),
                    ..old(self).disputes@[id as int]
                })
                &&& *final(self) == (DisputesContract { disputes: final(self).disputes, ..*old(self) })
            },
    {
        if !promise_success {
            return Ok(false);
        }
        let d = self.get_dispute(id)?;
        if !(d.status == DisputeStatus::New || d.status == DisputeStatus::DecisionPending) {
            return Err(DisputeError::AlreadyCompleted);
        }
        let status = if success {
            if canceled { DisputeStatus::CanceledByProjectOwner } else { DisputeStatus::InFavorOfClaimer }
        } else {
            if canceled { DisputeStatus::CanceledByClaimer } else { DisputeStatus::InFavorOfProjectOwner }
        };
        let mut updated = d.copy();
        updated.status = status;
        self.put_dispute(id, updated);
        Ok(true)
    }

    /// The first reason why the answer `result` of the DAO about dispute `id` does not
    /// settle it; `contract_id` is this contract and `now` the time of the answer.
    pub open spec fn proposal_error(&self, contract_id: Seq<char>, now: u64, id: DisputeIndex, result: Option<Proposal>) -> Option<DisputeError> {
        if result is None {
            Some(DisputeError::ProposalCheckFailed)
        } else if id >= self.disputes@.len() {
            Some(DisputeError::DisputeNotFound)
        } else {
            let p = result->0;
            let d = self.disputes@[id as int];
            if d.proposal_id is None {
                Some(DisputeError::NoProposal)
            } else if p.id != d.proposal_id->0 {
                Some(DisputeError::ProposalMismatch)
            } else if p.proposer@ != contract_id {
                Some(DisputeError::ProposerMismatch)
            } else if d.status != DisputeStatus::DecisionPending {
                Some(DisputeError::NotDecisionPending)
            } else if p.status@ == "Approved"@ || p.status@ == "Rejected"@ {
                None
            } else if d.proposal_timestamp is None {
                Some(DisputeError::NoProposal)
            } else if self.decision_deadline(d) > u64::MAX {
                Some(DisputeError::ArithmeticOverflow)
            } else if now <= self.decision_deadline(d) {
                Some(DisputeError::ProposalNotProcessed)
            } else {
                None
            }
        }
    }

    /// After the DAO answered the request for the proposal of dispute `id`: an approved
    /// proposal, or one left undecided past the decision period, settles the dispute
    /// for the claimant, a rejected one for the project owner; the outcome is reported
    /// to the bounties contract.
    pub fn after_get_proposal(&mut self, contract_id: &AccountId, now: u64, id: DisputeIndex, result: Option<Proposal>) -> (r: Result<DisputeEffect, DisputeError>)
        ensures
            *final(self) == *old(self),
            r is Err <==> old(self).proposal_error(contract_id@, now, id, result) is Some,
            r matches Err(e) ==> old(self).proposal_error(contract_id@, now, id, result) == Some(e),
            r matches Ok(effect) ==> effect == old(self).result_effect(
                id,
                old(self).disputes@[id as int],
                result->0.status@ != "Rejected"@,
                false,
            ),
    {
        let proposal = match result {
            Some(p) => p,
            None => { return Err(DisputeError::ProposalCheckFailed); },
        };
        let d = self.get_dispute(id)?;
        let proposal_id = match d.proposal_id {
            Some(p) => p,
            None => { return Err(DisputeError::NoProposal); },
        };
        if proposal.id != proposal_id {
            return Err(DisputeError::ProposalMismatch);
        }
        if proposal.proposer != *contract_id {
            return Err(DisputeError::ProposerMismatch);
        }
        if d.status != DisputeStatus::DecisionPending {
            return Err(DisputeError::NotDecisionPending);
        }
        let success = if text_is(&proposal.status, "Approved") {
            true
        } else if text_is(&proposal.status, "Rejected") {
            false
        } else {
            if self.is_decision_period_expired(d, now)? {
                true
            } else {
                return Err(DisputeError::ProposalNotProcessed);
            }
        };
        proof {
            reveal_strlit("Approved");
            reveal_strlit("Rejected");
            assert("Approved"@ != "Rejected"@) by {
                assert("Approved"@[0] != "Rejected"@[0]);
            }
        }
        Ok(self.send_result_of_dispute(id, d, success, false))
    }
}

} // verus!
