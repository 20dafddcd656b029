//! A claimant reports its work as done.
use vstd::prelude::*;
use crate::accounts::AccountId;
use super::types::{BountyIndex, BountyStatus, ClaimStatus, ContractStatus, PlaceOfCheckKYC, Reviewers, SubtaskEnv};
use super::multitasking::{Multitasking, contest_env, slots};
use super::bounty::Bounty;
use super::claim::BountyClaim;
use super::claims::{claim_index, lemma_claim_in, lemma_claim_index_unique};
use super::closure::{reset_blocked, reset_bounty};
use super::work::{start_time_known, left_bounty};
use super::errors::BountyError;
use super::effects::{CallContext, Callback, Effect, ProposalAction};
use super::contract::BountiesContract;

verus! {

/// `r` is bounty `b` once the claim `c` is done: its subtask is marked completed, and the
/// first payout proposal of a bounty with subtasks is recorded.
pub open spec fn done_bounty(b: Bounty, r: Bounty, c: BountyClaim, proposal_id: Option<u64>) -> bool {
    if b.spec_is_different_tasks() {
        let m = b.multitasking->0;
        let rm = r.multitasking->0;
        let s = slots(m)[c.slot->0 as int]->0;
        let p = m->DifferentTasks_runtime_env->0.bounty_payout_proposal_id;
        &&& r == Bounty { multitasking: r.multitasking, ..b }
        &&& r.multitasking is Some
        &&& rm is DifferentTasks
        &&& rm->DifferentTasks_subtasks == m->DifferentTasks_subtasks
        &&& slots(rm) == slots(m).update(c.slot->0 as int, Some(SubtaskEnv { completed: true, ..s }))
        &&& rm->DifferentTasks_runtime_env->0.bounty_payout_proposal_id == if p is None && proposal_id is Some { proposal_id } else { p }
    } else {
        r == b
    }
}

/// The claim once its work is done.
pub open spec fn done_claim(b: Bounty, c: BountyClaim, proposal_id: Option<u64>) -> BountyClaim {
    if b.spec_is_different_tasks() {
        BountyClaim { status: ClaimStatus::Completed, ..c }
    } else {
        BountyClaim { status: ClaimStatus::Completed, bounty_payout_proposal_id: proposal_id, ..c }
    }
}

impl BountiesContract {
    /// The first reason why the claim of `claimer` on bounty `id` cannot be recorded as done.
    pub open spec fn claim_done_error(&self, id: BountyIndex, claimer: Seq<char>) -> Option<BountyError> {
        if id >= self.bounties@.len() {
            Some(BountyError::BountyNotFound)
        } else {
            let b = self.bounties@[id as int];
            if !(b.status == BountyStatus::Claimed || b.status == BountyStatus::ManyClaimed) {
                Some(BountyError::BountyStatusForCompletion)
            } else if self.claim_of(claimer, id) is None {
                Some(BountyError::NoClaim)
            } else {
                let c = self.claim_of(claimer, id)->0;
                if !(c.status == ClaimStatus::InProgress || c.status == ClaimStatus::Competes) {
                    Some(BountyError::ClaimStatusForCompletion)
                } else if b.spec_is_different_tasks() && (c.slot is None || c.slot->0 >= slots(b.multitasking->0).len()
                    || slots(b.multitasking->0)[c.slot->0 as int] is None) {
                    Some(BountyError::SlotNotOccupied)
                } else {
                    None
                }
            }
        }
    }

    /// `other` is this contract once the claim of `claimer` on bounty `id` is done.
    pub open spec fn claim_done(&self, other: &Self, id: BountyIndex, claimer: Seq<char>, proposal_id: Option<u64>) -> bool {
        let b = self.bounties@[id as int];
        let c = self.claim_of(claimer, id)->0;
        let k = choose|i: int| claim_index(self.claims_of(claimer), id, i);
        &&& other.saved_claims(&BountiesContract { bounties: other.bounties, ..*self }, claimer,
            self.claims_of(claimer).update(k, done_claim(b, c, proposal_id)))
        &&& other.bounties@ == self.bounties@.update(id as int, other.bounties@[id as int])
        &&& done_bounty(b, other.bounties@[id as int], c, proposal_id)
    }

    /// Records the claim of `claimer` on bounty `id` as done, with the payout proposal
    /// that the validators DAO got, if any.
    pub(crate) fn internal_claim_done(&mut self, id: BountyIndex, claimer: &AccountId, proposal_id: Option<u64>) -> (r: Result<(), BountyError>)
        requires
            old(self).wf(),
        ensures
            final(self).wf(),
            r is Err <==> old(self).claim_done_error(id, claimer@) is Some,
            r matches Err(e) ==> old(self).claim_done_error(id, claimer@) == Some(e) && *final(self) == *old(self),
            r is Ok ==> old(self).claim_done(&*final(self), id, claimer@, proposal_id),
    {
        if id >= self.last_bounty_id {
            return Err(BountyError::BountyNotFound);
        }
        let n = self.bounties.len();
        proof { assert(self.bounties@[id as int].wf()); }
        let st = self.bounties[id as usize].status;
        if !(st == BountyStatus::Claimed || st == BountyStatus::ManyClaimed) {
            return Err(BountyError::BountyStatusForCompletion);
        }
        let (mut claims, k) = match self.internal_get_claims(id, claimer) {
            Ok(x) => x,
            Err(_) => { return Err(BountyError::NoClaim); },
        };
        let ghost s0 = *self;
        proof {
            lemma_claim_index_unique(s0.claims_of(claimer@), id, k as int);
        }
        if !(claims[k].status == ClaimStatus::InProgress || claims[k].status == ClaimStatus::Competes) {
            return Err(BountyError::ClaimStatusForCompletion);
        }
        let different = self.bounties[id as usize].is_different_tasks();
        if different {
            let ok = match &self.bounties[id as usize].multitasking {
                Some(Multitasking::DifferentTasks { runtime_env: Some(env), .. }) => match claims[k].slot {
                    Some(s) => s < env.participants.len() && env.participants[s].is_some(),
                    None => false,
                },
                _ => false,
            };
            if !ok {
                return Err(BountyError::SlotNotOccupied);
            }
        }
        let mut c = claims[k].copy();
        c.status = ClaimStatus::Completed;
        if different {
            let mut bounty = self.take_bounty(id);
            let mut m = bounty.multitasking.take().unwrap();
            let slot = c.slot.unwrap();
            let mut env = m.get_slot_env(slot).unwrap();
            env.completed = true;
            m.set_slot_env(slot, Some(env));
            let has_payout = match &m {
                Multitasking::DifferentTasks { runtime_env: Some(e), .. } => e.bounty_payout_proposal_id.is_some(),
                _ => true,
            };
            if !has_payout && proposal_id.is_some() {
                m = m.set_bounty_payout_proposal_id(proposal_id);
            }
            bounty.multitasking = Some(m);
            self.put_bounty(id, bounty);
        } else {
            c.bounty_payout_proposal_id = proposal_id;
        }
        claims.set(k, c);
        let ghost s1 = *self;
        self.internal_save_claims(claimer, claims);
        proof {
            assert(self.bounties@ =~= s0.bounties@.update(id as int, self.bounties@[id as int]));
            assert forall|i: int| 0 <= i < self.bounties@.len() implies (#[trigger] self.bounties@[i]).wf() by {
                if i != id { assert(self.bounties@[i] == s0.bounties@[i]); }
            }
            assert(s1 == (BountiesContract { bounties: self.bounties, ..s0 }));
        }
        Ok(())
    }

    /// The proposal asking the validators DAO of `b` to approve the result of the claim
    /// of `claimer`, or, for a bounty with subtasks, the results of all subtasks.
    pub open spec fn finish_claim_proposal(b: Bounty, id: BountyIndex, claimer: AccountId, description: String, several: bool) -> Effect {
        let dao = b.reviewers->0->ValidatorsDao_validators_dao;
        Effect::AddProposal {
            dao: dao.account_id,
            description,
            action: if several {
                ProposalAction::SeveralClaimsApproved { id, gas: dao.gas_for_claim_approval }
            } else {
                ProposalAction::ClaimApproved { id, receiver_id: claimer, gas: dao.gas_for_claim_approval }
            },
            bond: dao.add_proposal_bond,
            gas: dao.gas_for_add_proposal,
            then: Callback::OnAddedProposal { id, claimer },
        }
    }

    /// Asks the validators DAO of bounty `id` to approve the result of `claimer`, or of
    /// all subtasks.
    pub(crate) fn internal_add_proposal_to_finish_claim(&self, id: BountyIndex, claimer: &AccountId, description: String, several: bool) -> (e: Effect)
        requires
            id < self.bounties@.len(),
            self.bounties@[id as int].spec_is_validators_dao_used(),
        ensures
            e == Self::finish_claim_proposal(self.bounties@[id as int], id, *claimer, description, several),
    {
        let n = self.bounties.len();
        match &self.bounties[id as usize].reviewers {
            Some(Reviewers::ValidatorsDao { validators_dao }) => Effect::AddProposal {
                dao: validators_dao.account_id.clone(),
                description,
                action: if several {
                    ProposalAction::SeveralClaimsApproved { id, gas: validators_dao.gas_for_claim_approval }
                } else {
                    ProposalAction::ClaimApproved { id, receiver_id: claimer.clone(), gas: validators_dao.gas_for_claim_approval }
                },
                bond: validators_dao.add_proposal_bond,
                gas: validators_dao.gas_for_add_proposal,
                then: Callback::OnAddedProposal { id, claimer: claimer.clone() },
            },
            _ => {
                proof { assert(false); }
                unreached()
            },
        }
    }

    /// Where done work goes to the validators DAO: one proposal per claim, or one for all
    /// subtasks once the others are complete and none was made yet.
    pub open spec fn done_needs_proposal(b: Bounty, claimer: Seq<char>) -> Option<bool> {
        if b.spec_is_validators_dao_used() && !b.spec_is_different_tasks() {
            Some(false)
        } else if b.spec_is_validators_dao_used() && b.spec_is_different_tasks()
            && b.multitasking->0.spec_are_all_slots_complete(Some(claimer))
            && b.multitasking->0->DifferentTasks_runtime_env->0.bounty_payout_proposal_id is None {
            Some(true)
        } else {
            None
        }
    }

    /// The first reason why `ctx` cannot report its work on bounty `id` as done.
    pub open spec fn done_request_error(&self, ctx: CallContext, id: BountyIndex, description: String) -> Option<BountyError> {
        let claimer = ctx.predecessor@;
        let now = ctx.block_timestamp;
        if self.status != ContractStatus::Live {
            Some(BountyError::NotLive)
        } else if ctx.attached_deposit != 1 {
            Some(BountyError::OneYoctoRequired)
        } else if id >= self.bounties@.len() {
            Some(BountyError::BountyNotFound)
        } else {
            let b = self.bounties@[id as int];
            if !(b.status == BountyStatus::Claimed || b.status == BountyStatus::ManyClaimed
                || b.status == BountyStatus::Completed && b.spec_is_contest_or_hackathon()) {
                Some(BountyError::BountyStatusForCompletion)
            } else if self.claim_of(claimer, id) is None {
                if self.bounty_claimers@.contains_key(claimer) { Some(BountyError::NoClaim) } else { Some(BountyError::NoClaimer) }
            } else {
                let c = self.claim_of(claimer, id)->0;
                if !(c.status == ClaimStatus::InProgress || c.status == ClaimStatus::Competes) {
                    Some(BountyError::ClaimStatusForCompletion)
                } else if !c.has_start_time(b) {
                    Some(BountyError::ClaimNotStarted)
                } else if c.spec_is_claim_expired(b, now) {
                    if reset_blocked(b, c) {
                        if b.spec_is_different_tasks() { Some(BountyError::SlotOutOfRange) } else { Some(BountyError::ArithmeticOverflow) }
                    } else if !self.bond_movable(c, false) {
                        Some(BountyError::ArithmeticOverflow)
                    } else {
                        None
                    }
                } else if b.status == BountyStatus::Completed && c.status == ClaimStatus::Competes {
                    if contest_env(b.multitasking->0).participants == 0 || !self.bond_movable(c, true) {
                        Some(BountyError::ArithmeticOverflow)
                    } else {
                        None
                    }
                } else if self.kyc_check(b, Some(c), Some(claimer), PlaceOfCheckKYC::ClaimDone { description }) is Err {
                    Some(self.kyc_check(b, Some(c), Some(claimer), PlaceOfCheckKYC::ClaimDone { description })->Err_0)
                } else {
                    None
                }
            }
        }
    }

    /// The claimant `ctx` reports its work on bounty `id` as done. An expired claim is
    /// closed instead, and a contestant of a contest that has ended leaves it. Where the
    /// KYC status must be checked first, or the validators DAO must approve the result,
    /// the contract only asks for that.
    pub fn bounty_done(&mut self, ctx: &CallContext, id: BountyIndex, description: String) -> (r: Result<Vec<Effect>, BountyError>)
        requires
            old(self).wf(),
        ensures
            final(self).wf(),
            r is Err ==> *final(self) == *old(self),
            old(self).done_request_error(*ctx, id, description) matches Some(e) ==> r == Err::<Vec<Effect>, BountyError>(e),
            old(self).done_request_error(*ctx, id, description) is None ==> {
                let claimer = ctx.predecessor;
                let now = ctx.block_timestamp;
                let b = old(self).bounties@[id as int];
                let c = old(self).claim_of(claimer@, id)->0;
                let k = choose|i: int| claim_index(old(self).claims_of(claimer@), id, i);
                let place = PlaceOfCheckKYC::ClaimDone { description };
                if c.spec_is_claim_expired(b, now) {
                    &&& r matches Ok(effects) && effects@ == old(self).closure_effects(claimer, b.owner, b.status, c, ClaimStatus::Expired, false)
                    &&& final(self).bounties@.len() == old(self).bounties@.len()
                    &&& forall|i: int| 0 <= i < old(self).bounties@.len() && i != id ==> #[trigger] final(self).bounties@[i] == old(self).bounties@[i]
                    &&& reset_bounty(b, final(self).bounties@[id as int], c, now)
                    &&& old(self).claim_closed(&*final(self), claimer@, k, ClaimStatus::Expired, false)
                    &&& *final(self) == (BountiesContract {
                        bounties: final(self).bounties,
                        bounty_claimers: final(self).bounty_claimers,
                        locked_amount: final(self).locked_amount,
                        unlocked_amount: final(self).unlocked_amount,
                        ..*old(self)
                    })
                } else if b.status == BountyStatus::Completed && c.status == ClaimStatus::Competes {
                    &&& r matches Ok(effects) && effects@ == old(self).closure_effects(claimer, b.owner, b.status, c, ClaimStatus::NotCompleted, true)
                    &&& final(self).bounties@ == old(self).bounties@.update(id as int, final(self).bounties@[id as int])
                    &&& left_bounty(b, final(self).bounties@[id as int], c)
                    &&& old(self).claim_closed(&*final(self), claimer@, k, ClaimStatus::NotCompleted, true)
                    &&& *final(self) == (BountiesContract {
                        bounties: final(self).bounties,
                        bounty_claimers: final(self).bounty_claimers,
                        locked_amount: final(self).locked_amount,
                        unlocked_amount: final(self).unlocked_amount,
                        ..*old(self)
                    })
                } else if old(self).kyc_check(b, Some(c), Some(claimer@), place) == Ok::<bool, BountyError>(true) {
                    &&& *final(self) == *old(self)
                    &&& r matches Ok(effects) && effects@ == seq![old(self).kyc_query(id, claimer, place, None)]
                } else if Self::done_needs_proposal(b, claimer@) is Some {
                    &&& *final(self) == *old(self)
                    &&& r matches Ok(effects) && effects@ == seq![Self::finish_claim_proposal(b, id, claimer, description, Self::done_needs_proposal(b, claimer@)->0)]
                } else {
                    &&& r is Err <==> old(self).claim_done_error(id, claimer@) is Some
                    &&& r matches Err(e) ==> old(self).claim_done_error(id, claimer@) == Some(e)
                    &&& r matches Ok(effects) ==> effects@.len() == 0 && old(self).claim_done(&*final(self), id, claimer@, None)
                }
            },
    {
        self.assert_live()?;
        if ctx.attached_deposit != 1 {
            return Err(BountyError::OneYoctoRequired);
        }
        if id >= self.last_bounty_id {
            return Err(BountyError::BountyNotFound);
        }
        let claimer = &ctx.predecessor;
        let now = ctx.block_timestamp;
        let n = self.bounties.len();
        proof { assert(self.bounties@[id as int].wf()); }
        let st = self.bounties[id as usize].status;
        if !(st == BountyStatus::Claimed || st == BountyStatus::ManyClaimed
            || st == BountyStatus::Completed && self.bounties[id as usize].is_contest_or_hackathon()) {
            return Err(BountyError::BountyStatusForCompletion);
        }
        let (claims, k) = self.internal_get_claims(id, claimer)?;
        let ghost s0 = *self;
        proof {
            lemma_claim_index_unique(s0.claims_of(claimer@), id, k as int);
        }
        let status = claims[k].status;
        if !(status == ClaimStatus::InProgress || status == ClaimStatus::Competes) {
            return Err(BountyError::ClaimStatusForCompletion);
        }
        if !start_time_known(&claims[k], &self.bounties[id as usize]) {
            return Err(BountyError::ClaimNotStarted);
        }
        let amount = match claims[k].bond {
            Some(b) => b,
            None => super::types::DEFAULT_BOUNTY_CLAIM_BOND,
        };
        let mut effects: Vec<Effect> = Vec::new();
        if claims[k].is_claim_expired(&self.bounties[id as usize], now) {
            let b = &self.bounties[id as usize];
            let blocked = match &b.multitasking {
                Some(Multitasking::ContestOrHackathon { .. }) => match &b.multitasking {
                    Some(m) => m.get_participants() == 0,
                    None => false,
                },
                Some(Multitasking::OneForAll { runtime_env: Some(env), .. }) => env.occupied_slots == 0,
                Some(Multitasking::DifferentTasks { runtime_env: Some(env), .. }) => match claims[k].slot {
                    Some(s) => s >= env.participants.len(),
                    None => true,
                },
                _ => false,
            };
            if blocked {
                return Err(if b.is_different_tasks() { BountyError::SlotOutOfRange } else { BountyError::ArithmeticOverflow });
            }
            if self.locked_amount < amount || self.unlocked_amount > u128::MAX - amount {
                return Err(BountyError::ArithmeticOverflow);
            }
            self.internal_reset_bounty_to_initial_state(id, claimer, claims, k, Some(ClaimStatus::Expired), false, now, &mut effects);
            return Ok(effects);
        }
        if st == BountyStatus::Completed && status == ClaimStatus::Competes {
            let p = match &self.bounties[id as usize].multitasking {
                Some(m) => m.get_participants(),
                None => 0,
            };
            if p == 0 || self.locked_amount < amount {
                return Err(BountyError::ArithmeticOverflow);
            }
            let mut bounty = self.take_bounty(id);
            let m = bounty.multitasking.take().unwrap();
            bounty.multitasking = Some(m.set_competition_participants(p - 1));
            let owner = bounty.owner.clone();
            self.put_bounty(id, bounty);
            proof {
                assert(self.bounties@ =~= s0.bounties@.update(id as int, self.bounties@[id as int]));
                assert forall|i: int| 0 <= i < self.bounties@.len() implies (#[trigger] self.bounties@[i]).wf() by {
                    if i != id { assert(self.bounties@[i] == s0.bounties@[i]); }
                }
            }
            let ghost s1 = *self;
            self.internal_claim_closure(claimer, &owner, st, claims, k, None, true, &mut effects);
            proof { assert(s1.claims_of(claimer@) == s0.claims_of(claimer@)); }
            return Ok(effects);
        }
        let place = PlaceOfCheckKYC::ClaimDone { description: description.clone() };
        let kyc = self.is_kyc_check_required(&self.bounties[id as usize], Some(&claims[k]), Some(claimer), &place)?;
        if kyc {
            let contract = self.kyc_whitelist_contract.clone().unwrap();
            return Ok(vec![Effect::IsWhitelisted {
                kyc_whitelist_contract: contract,
                account_id: claimer.clone(),
                then: Callback::AfterCheckIfWhitelisted { id, claimer: claimer.clone(), place_of_check: place, slot: None },
            }]);
        }
        let b = &self.bounties[id as usize];
        if b.is_validators_dao_used() && !b.is_different_tasks() {
            return Ok(vec![self.internal_add_proposal_to_finish_claim(id, claimer, description, false)]);
        }
        if b.is_validators_dao_used() && b.is_different_tasks() {
            let m = b.multitasking.as_ref().unwrap();
            let no_payout = match m {
                Multitasking::DifferentTasks { runtime_env: Some(e), .. } => e.bounty_payout_proposal_id.is_none(),
                _ => false,
            };
            if m.are_all_slots_complete(Some(claimer)) && no_payout {
                return Ok(vec![self.internal_add_proposal_to_finish_claim(id, claimer, description, true)]);
            }
        }
        let owned = claimer.clone();
        self.internal_claim_done(id, &owned, None)?;
        Ok(effects)
    }
}

} // verus!
