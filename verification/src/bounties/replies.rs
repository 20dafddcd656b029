//! What the contract does with the replies of the validators DAO and of the KYC
//! whitelist: new proposals, their outcomes, and the KYC status of claimants.
use vstd::prelude::*;
use crate::accounts::AccountId;
use super::types::{BountyIndex, BountyStatus, ClaimStatus, DefermentOfKYC, PlaceOfCheckKYC};
use super::claims::claim_index;
use super::claiming::claimable;
use super::errors::BountyError;
use super::effects::Effect;
use super::contract::BountiesContract;

verus! {

/// A proposal of a validators DAO, as the DAO reports it.
#[derive(Clone, Debug, PartialEq, Eq)]
pub struct Proposal {
    pub id: u64,
    pub proposer: AccountId,
    pub status: String,
}

/// Whether the text `s` reads `lit`.
pub fn text_is(s: &String, lit: &str) -> (r: bool)
    ensures
        r == (s@ == lit@),
{
    *s == lit.to_owned()
}

impl BountiesContract {
    /// Asks the validators DAO to approve `claimer` on bounty `id` where it must, and
    /// otherwise creates the claim.
    pub(crate) fn internal_add_proposal_and_create_claim(
        &mut self,
        id: BountyIndex,
        claimer: &AccountId,
        deadline: u64,
        description: String,
        slot: Option<usize>,
        now: u64,
        effects: &mut Vec<Effect>,
    ) -> (r: Result<(), BountyError>)
        requires
            old(self).wf(),
        ensures
            final(self).wf(),
            r is Err ==> *final(self) == *old(self) && final(effects)@ == old(effects)@,
            id >= old(self).bounties@.len() ==> r == Err::<(), BountyError>(BountyError::BountyNotFound),
            id < old(self).bounties@.len() ==> {
                let b = old(self).bounties@[id as int];
                if b.spec_is_validators_dao_used() && b.claimer_approval is ApprovalWithWhitelist {
                    r == Err::<(), BountyError>(BountyError::UnsupportedApprovalSetting)
                } else if b.spec_is_validators_dao_used() && b.claimer_approval.spec_is_approval_required(claimer@) {
                    &&& r is Ok && *final(self) == *old(self)
                    &&& final(effects)@ == old(effects)@.push(Self::approve_claimer_proposal(b, id, *claimer, deadline, description, slot))
                } else {
                    &&& r is Err <==> old(self).create_claim_error(id, claimer@, slot, now) is Some
                        || old(self).store_claim_error(b, claimer@) is Some
                    &&& r is Ok ==> old(self).claim_created(&*final(self), id, *claimer, deadline, description, None, slot, now)
                        && final(effects)@ == old(effects)@ + old(self).claim_statistics(id, *claimer)
                }
            },
    {
        if id >= self.last_bounty_id {
            return Err(BountyError::BountyNotFound);
        }
        let n = self.bounties.len();
        let b = &self.bounties[id as usize];
        if b.is_validators_dao_used() {
            match &b.claimer_approval {
                super::types::ClaimerApproval::ApprovalWithWhitelist => { return Err(BountyError::UnsupportedApprovalSetting); },
                ap => {
                    if ap.is_approval_required(claimer) {
                        let e = self.internal_add_proposal_to_approve_claimer(id, claimer, deadline, description, slot);
                        effects.push(e);
                        return Ok(());
                    }
                },
            }
        }
        self.internal_create_claim(id, claimer, deadline, description, None, slot, now, effects)
    }

    /// Asks the validators DAO to approve the result of `claimer` on bounty `id` where it
    /// must, and otherwise records the claim as done.
    pub(crate) fn internal_add_proposal_and_update_claim(
        &mut self,
        id: BountyIndex,
        claimer: &AccountId,
        description: String,
        effects: &mut Vec<Effect>,
    ) -> (r: Result<(), BountyError>)
        requires
            old(self).wf(),
        ensures
            final(self).wf(),
            r is Err ==> *final(self) == *old(self) && final(effects)@ == old(effects)@,
            id >= old(self).bounties@.len() ==> r == Err::<(), BountyError>(BountyError::BountyNotFound),
            id < old(self).bounties@.len() ==> {
                let b = old(self).bounties@[id as int];
                if Self::done_needs_proposal(b, claimer@) is Some {
                    &&& r is Ok && *final(self) == *old(self)
                    &&& final(effects)@ == old(effects)@.push(Self::finish_claim_proposal(b, id, *claimer, description,
                        Self::done_needs_proposal(b, claimer@)->0))
                } else {
                    &&& r is Err <==> old(self).claim_done_error(id, claimer@) is Some
                    &&& r matches Err(e) ==> old(self).claim_done_error(id, claimer@) == Some(e)
                    &&& r is Ok ==> old(self).claim_done(&*final(self), id, claimer@, None) && final(effects)@ == old(effects)@
                }
            },
    {
        if id >= self.last_bounty_id {
            return Err(BountyError::BountyNotFound);
        }
        let n = self.bounties.len();
        proof { assert(self.bounties@[id as int].wf()); }
        let b = &self.bounties[id as usize];
        if b.is_validators_dao_used() && !b.is_different_tasks() {
            let e = self.internal_add_proposal_to_finish_claim(id, claimer, description, false);
            effects.push(e);
            return Ok(());
        }
        if b.is_validators_dao_used() && b.is_different_tasks() {
            let m = b.multitasking.as_ref().unwrap();
            let no_payout = match m {
                super::multitasking::Multitasking::DifferentTasks { runtime_env: Some(e), .. } => e.bounty_payout_proposal_id.is_none(),
                _ => false,
            };
            if m.are_all_slots_complete(Some(claimer)) && no_payout {
                let e = self.internal_add_proposal_to_finish_claim(id, claimer, description, true);
                effects.push(e);
                return Ok(());
            }
        }
        self.internal_claim_done(id, claimer, None)
    }

    /// The reply of the validators DAO to a proposal on the result of `claimer` on bounty
    /// `id`: its id, or none where the proposal could not be made. With an id, the claim
    /// is recorded as done with it; `Ok(false)` where there is none.
    pub fn on_added_proposal_callback(&mut self, id: BountyIndex, claimer: AccountId, proposal_id: Option<u64>) -> (r: Result<bool, BountyError>)
        requires
            old(self).wf(),
        ensures
            final(self).wf(),
            proposal_id is None ==> r == Ok::<bool, BountyError>(false) && *final(self) == *old(self),
            proposal_id is Some ==> (r is Err <==> old(self).claim_done_error(id, claimer@) is Some),
            r matches Err(e) ==> old(self).claim_done_error(id, claimer@) == Some(e) && *final(self) == *old(self),
            proposal_id is Some && r is Ok ==> r == Ok::<bool, BountyError>(true)
                && old(self).claim_done(&*final(self), id, claimer@, proposal_id),
    {
        match proposal_id {
            None => Ok(false),
            Some(_) => {
                self.internal_claim_done(id, &claimer, proposal_id)?;
                Ok(true)
            },
        }
    }

    /// The reply of the validators DAO to a proposal to approve `claimer` on bounty `id`:
    /// its id, or none where the proposal could not be made. With an id, the claim is
    /// created, waiting for the DAO's decision; `Ok(false)` where there is none.
    pub fn after_add_proposal(
        &mut self,
        id: BountyIndex,
        claimer: AccountId,
        deadline: u64,
        description: String,
        slot: Option<usize>,
        proposal_id: Option<u64>,
        now: u64,
    ) -> (r: Result<(bool, Vec<Effect>), BountyError>)
        requires
            old(self).wf(),
        ensures
            final(self).wf(),
            proposal_id is None ==> *final(self) == *old(self) && (r matches Ok((false, effects)) && effects@.len() == 0),
            r is Err ==> *final(self) == *old(self),
            proposal_id is Some ==> (r is Err <==> old(self).create_claim_error(id, claimer@, slot, now) is Some
                || old(self).store_claim_error(old(self).bounties@[id as int], claimer@) is Some),
            r matches Err(e) ==> e == (match old(self).create_claim_error(id, claimer@, slot, now) {
                Some(e1) => e1,
                None => old(self).store_claim_error(old(self).bounties@[id as int], claimer@)->0,
            }),
            proposal_id is Some && r is Ok ==> (r matches Ok((true, effects))
                && old(self).claim_created(&*final(self), id, claimer, deadline, description, proposal_id, slot, now)
                && effects@ == old(self).claim_statistics(id, claimer)),
    {
        let mut effects: Vec<Effect> = Vec::new();
        match proposal_id {
            None => Ok((false, effects)),
            Some(_) => {
                self.internal_create_claim(id, &claimer, deadline, description, proposal_id, slot, now, &mut effects)?;
                proof { assert(effects@ =~= Seq::<Effect>::empty() + effects@); }
                Ok((true, effects))
            },
        }
    }

    /// The reply of the validators DAO about a proposal to approve `claimer` on bounty
    /// `id`: approved, the claimant is approved; rejected, it is not hired.
    pub fn after_check_approve_claimer_proposal(
        &mut self,
        id: BountyIndex,
        claimer: AccountId,
        proposal_id: u64,
        contract_id: &AccountId,
        proposal: Option<Proposal>,
        now: u64,
    ) -> (r: Result<Vec<Effect>, BountyError>)
        requires
            old(self).wf(),
        ensures
            final(self).wf(),
            r is Err ==> *final(self) == *old(self),
            proposal is None ==> r == Err::<Vec<Effect>, BountyError>(BountyError::PromiseFailed),
            proposal matches Some(p) ==> {
                if p.id != proposal_id || p.proposer@ != contract_id@ {
                    r == Err::<Vec<Effect>, BountyError>(BountyError::ProposalMismatch)
                } else if p.status@ != "Approved"@ && p.status@ != "Rejected"@ {
                    r == Err::<Vec<Effect>, BountyError>(BountyError::ProposalStatusNotProcessed)
                } else {
                    let approve = p.status@ == "Approved"@;
                    &&& r is Err <==> old(self).approve_claim_error(id, claimer@, now) is Some
                        || old(self).decision_store_error(id, claimer@, approve) is Some
                    &&& r matches Ok(effects) ==> old(self).claim_decided(&*final(self), id, claimer, approve, None, now)
                        && effects@ == old(self).decision_effects(id, claimer, approve)
                }
            },
    {
        let p = match proposal {
            Some(p) => p,
            None => { return Err(BountyError::PromiseFailed); },
        };
        if p.id != proposal_id || p.proposer != *contract_id {
            return Err(BountyError::ProposalMismatch);
        }
        let approve = if text_is(&p.status, "Approved") {
            true
        } else if text_is(&p.status, "Rejected") {
            false
        } else {
            return Err(BountyError::ProposalStatusNotProcessed);
        };
        let mut effects: Vec<Effect> = Vec::new();
        self.internal_approval_and_save_claim(id, &claimer, approve, None, now, &mut effects)?;
        proof { assert(effects@ =~= Seq::<Effect>::empty() + effects@); }
        Ok(effects)
    }

    /// The first reason why the reply `proposal` of the validators DAO about payout
    /// proposal `proposal_id` of bounty `id` (for the result of `receiver_id`, or, with
    /// none, for all subtasks) is refused, in the order the reply is checked.
    pub open spec fn payout_reply_error(
        &self,
        id: BountyIndex,
        receiver_id: Option<AccountId>,
        proposal_id: u64,
        contract_id: AccountId,
        proposal: Option<Proposal>,
    ) -> Option<BountyError> {
        match proposal {
            None => Some(BountyError::PromiseFailed),
            Some(p) => if p.id != proposal_id || p.proposer@ != contract_id@ {
                Some(BountyError::ProposalMismatch)
            } else if id >= self.bounties@.len() {
                Some(BountyError::BountyNotFound)
            } else {
                let b = self.bounties@[id as int];
                match receiver_id {
                    None => if b.status != BountyStatus::ManyClaimed {
                        Some(BountyError::BountyStatusForCompletion)
                    } else if p.status@ != "Approved"@ {
                        Some(BountyError::ProposalStatusNotProcessed)
                    } else {
                        self.payout_error(id, None)
                    },
                    Some(c) => if !(b.status == BountyStatus::Claimed || b.status == BountyStatus::ManyClaimed) {
                        Some(BountyError::BountyStatusForCompletion)
                    } else if self.claim_of(c@, id) is None {
                        Some(BountyError::NoClaim)
                    } else if self.claim_of(c@, id)->0.status != ClaimStatus::Completed {
                        Some(BountyError::ClaimStatusForCompletion)
                    } else if p.status@ == "Approved"@ {
                        self.payout_error(id, receiver_id)
                    } else if p.status@ == "Rejected"@ {
                        self.reject_error(id, c@)
                    } else {
                        Some(BountyError::ProposalStatusNotProcessed)
                    },
                }
            },
        }
    }

    /// The reply of the validators DAO about a payout proposal of bounty `id` (for the
    /// result of `receiver_id`, or, with none, for all subtasks): approved, the bounty is
    /// paid out; rejected, the result is rejected.
    pub fn after_check_bounty_payout_proposal(
        &mut self,
        id: BountyIndex,
        receiver_id: Option<AccountId>,
        proposal_id: u64,
        contract_id: &AccountId,
        proposal: Option<Proposal>,
        now: u64,
    ) -> (r: Result<Vec<Effect>, BountyError>)
        requires
            old(self).wf(),
        ensures
            final(self).wf(),
            r is Err ==> *final(self) == *old(self),
            proposal is None ==> r == Err::<Vec<Effect>, BountyError>(BountyError::PromiseFailed),
            proposal matches Some(p) && (p.id != proposal_id || p.proposer@ != contract_id@)
                ==> r == Err::<Vec<Effect>, BountyError>(BountyError::ProposalMismatch),
            r is Err <==> old(self).payout_reply_error(id, receiver_id, proposal_id, *contract_id, proposal) is Some,
            r matches Err(e) ==> old(self).payout_reply_error(id, receiver_id, proposal_id, *contract_id, proposal) == Some(e),
            r matches Ok(effects) ==> proposal matches Some(p) && p.id == proposal_id && p.proposer@ == contract_id@
                && id < old(self).bounties@.len()
                && (p.status@ == "Approved"@ ==> {
                    let b = old(self).bounties@[id as int];
                    if b.spec_is_payment_outside_contract() || b.spec_is_different_tasks() {
                        old(self).bounty_completed(&*final(self), id, receiver_id, now)
                            && effects@ == old(self).completion_effects(id, receiver_id)
                    } else {
                        *final(self) == *old(self) && effects@ == seq![old(self).payout_transfer(id, receiver_id->0)]
                    }
                })
                && (p.status@ != "Approved"@ ==> p.status@ == "Rejected"@ && receiver_id is Some
                    && old(self).claim_rejected(&*final(self), id, receiver_id->0@, now)
                    && effects@ == old(self).reject_effects(id, receiver_id->0)),
    {
        let p = match proposal {
            Some(p) => p,
            None => { return Err(BountyError::PromiseFailed); },
        };
        if p.id != proposal_id || p.proposer != *contract_id {
            return Err(BountyError::ProposalMismatch);
        }
        if id >= self.last_bounty_id {
            return Err(BountyError::BountyNotFound);
        }
        let n = self.bounties.len();
        let mut effects: Vec<Effect> = Vec::new();
        match receiver_id {
            None => {
                if self.bounties[id as usize].status != BountyStatus::ManyClaimed {
                    return Err(BountyError::BountyStatusForCompletion);
                }
                if !text_is(&p.status, "Approved") {
                    return Err(BountyError::ProposalStatusNotProcessed);
                }
                self.internal_bounty_payout(id, None, now, &mut effects)?;
                proof { assert(effects@ =~= Seq::<Effect>::empty() + effects@); }
                Ok(effects)
            },
            Some(claimer) => {
                let st = self.bounties[id as usize].status;
                if !(st == BountyStatus::Claimed || st == BountyStatus::ManyClaimed) {
                    return Err(BountyError::BountyStatusForCompletion);
                }
                let (claims, k) = match self.internal_get_claims(id, &claimer) {
                    Ok(x) => x,
                    Err(_) => { return Err(BountyError::NoClaim); },
                };
                if claims[k].status != ClaimStatus::Completed {
                    return Err(BountyError::ClaimStatusForCompletion);
                }
                if text_is(&p.status, "Approved") {
                    self.internal_bounty_payout(id, Some(claimer), now, &mut effects)?;
                    proof { assert(effects@ =~= Seq::<Effect>::empty() + effects@); }
                    Ok(effects)
                } else if text_is(&p.status, "Rejected") {
                    self.internal_reject_claim(id, &claimer, claims, k, now, &mut effects)?;
                    proof { assert(effects@ =~= Seq::<Effect>::empty() + effects@); }
                    Ok(effects)
                } else {
                    Err(BountyError::ProposalStatusNotProcessed)
                }
            },
        }
    }

    /// The reply of the KYC whitelist about `claimer`: whitelisted, the step that asked
    /// for the check goes on (claiming, a decision on the claim, or its completion);
    /// refused where the claimant is not whitelisted or no reply came.
    pub fn after_check_if_whitelisted(
        &mut self,
        id: BountyIndex,
        claimer: AccountId,
        place_of_check: PlaceOfCheckKYC,
        slot: Option<usize>,
        is_whitelisted: Option<bool>,
        now: u64,
    ) -> (r: Result<Vec<Effect>, BountyError>)
        requires
            old(self).wf(),
        ensures
            final(self).wf(),
            r is Err ==> *final(self) == *old(self),
            is_whitelisted is None ==> r == Err::<Vec<Effect>, BountyError>(BountyError::PromiseFailed),
            is_whitelisted == Some(false) ==> r == Err::<Vec<Effect>, BountyError>(BountyError::NotKycWhitelisted),
            is_whitelisted == Some(true) ==> match place_of_check {
                PlaceOfCheckKYC::DecisionOnClaim { approve, is_kyc_delayed } => {
                    &&& r is Err <==> old(self).approve_claim_error(id, claimer@, now) is Some
                        || old(self).decision_store_error(id, claimer@, approve) is Some
                    &&& r matches Ok(effects) ==> old(self).claim_decided(&*final(self), id, claimer, approve, is_kyc_delayed, now)
                        && effects@ == old(self).decision_effects(id, claimer, approve)
                },
                PlaceOfCheckKYC::CreatingClaim { deadline, description } => id < old(self).bounties@.len() ==> {
                    let b = old(self).bounties@[id as int];
                    b.spec_is_validators_dao_used() && b.claimer_approval.spec_is_approval_required(claimer@)
                        && !(b.claimer_approval is ApprovalWithWhitelist) ==> (*final(self) == *old(self)
                        && (r matches Ok(effects) && effects@ == seq![Self::approve_claimer_proposal(b, id, claimer, deadline, description, slot)]))
                },
                PlaceOfCheckKYC::ClaimDone { description } => id < old(self).bounties@.len() ==> {
                    let b = old(self).bounties@[id as int];
                    &&& Self::done_needs_proposal(b, claimer@) is Some ==> *final(self) == *old(self)
                        && (r matches Ok(effects) && effects@ == seq![Self::finish_claim_proposal(b, id, claimer, description,
                            Self::done_needs_proposal(b, claimer@)->0)])
                    &&& Self::done_needs_proposal(b, claimer@) is None ==> (r is Err <==> old(self).claim_done_error(id, claimer@) is Some)
                        && (r matches Ok(effects) ==> effects@.len() == 0 && old(self).claim_done(&*final(self), id, claimer@, None))
                },
            },
    {
        match is_whitelisted {
            None => { return Err(BountyError::PromiseFailed); },
            Some(false) => { return Err(BountyError::NotKycWhitelisted); },
            Some(true) => {},
        }
        let mut effects: Vec<Effect> = Vec::new();
        match place_of_check {
            PlaceOfCheckKYC::CreatingClaim { deadline, description } => {
                self.internal_add_proposal_and_create_claim(id, &claimer, deadline, description, slot, now, &mut effects)?;
            },
            PlaceOfCheckKYC::DecisionOnClaim { approve, is_kyc_delayed } => {
                self.internal_approval_and_save_claim(id, &claimer, approve, is_kyc_delayed, now, &mut effects)?;
            },
            PlaceOfCheckKYC::ClaimDone { description } => {
                self.internal_add_proposal_and_update_claim(id, &claimer, description, &mut effects)?;
            },
        }
        proof { assert(effects@ =~= Seq::<Effect>::empty() + effects@); }
        Ok(effects)
    }
}

} // verus!
