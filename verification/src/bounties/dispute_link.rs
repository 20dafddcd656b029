//! Disputes on rejected results: opening one at the dispute contract, and acting on
//! its outcome.
use vstd::prelude::*;
use crate::accounts::AccountId;
use super::types::{BountyIndex, BountyStatus, ClaimStatus, ContractStatus};
use super::bounty::Bounty;
use super::claim::BountyClaim;
use super::claims::{claim_index, lemma_claim_in, lemma_claim_index_unique};
use super::closure::{reset_blocked, reset_bounty};
use super::replies::text_is;
use super::errors::BountyError;
use super::effects::{CallContext, Callback, Effect};
use super::contract::BountiesContract;

verus! {

/// A dispute, as the dispute contract reports it.
#[derive(Clone, Debug, PartialEq, Eq)]
pub struct Dispute {
    pub status: String,
}

impl BountiesContract {
    /// The first reason why `ctx` cannot open a dispute on its rejected result on bounty `id`.
    pub open spec fn open_dispute_error(&self, ctx: CallContext, id: BountyIndex) -> Option<BountyError> {
        let claimer = ctx.predecessor@;
        if self.status != ContractStatus::Live {
            Some(BountyError::NotLive)
        } else if ctx.attached_deposit != 1 {
            Some(BountyError::OneYoctoRequired)
        } else if self.dispute_contract is None {
            Some(BountyError::DisputesNotSupported)
        } else if id >= self.bounties@.len() {
            Some(BountyError::BountyNotFound)
        } else if !(self.bounties@[id as int].status == BountyStatus::Claimed || self.bounties@[id as int].status == BountyStatus::ManyClaimed) {
            Some(BountyError::BountyStatusForDispute)
        } else if self.claim_of(claimer, id) is None {
            if self.bounty_claimers@.contains_key(claimer) { Some(BountyError::NoClaim) } else { Some(BountyError::NoClaimer) }
        } else if self.claim_of(claimer, id)->0.status != ClaimStatus::Rejected || self.claim_of(claimer, id)->0.rejected_timestamp is None {
            Some(BountyError::ClaimStatusForDispute)
        } else if self.dispute_window_over(self.claim_of(claimer, id)->0, ctx.block_timestamp) {
            Some(BountyError::DisputePeriodExpired)
        } else {
            None
        }
    }

    /// The claimant `ctx` disputes the rejection of its result on bounty `id`, within
    /// the period for opening disputes: the dispute contract is asked to open one.
    pub fn open_dispute(&mut self, ctx: &CallContext, id: BountyIndex, description: String) -> (r: Result<Vec<Effect>, BountyError>)
        requires
            old(self).wf(),
        ensures
            *final(self) == *old(self),
            r is Err <==> old(self).open_dispute_error(*ctx, id) is Some,
            r matches Err(e) ==> old(self).open_dispute_error(*ctx, id) == Some(e),
            r matches Ok(effects) ==> effects@ == seq![Effect::CreateDispute {
                dispute_contract: old(self).dispute_contract->0,
                bounty_id: id,
                description,
                claimer: ctx.predecessor,
                project_owner_delegate: old(self).bounties@[id as int].spec_owner_delegate(),
                then: Callback::AfterCreateDispute { id, claimer: ctx.predecessor },
            }],
    {
        self.assert_live()?;
        if ctx.attached_deposit != 1 {
            return Err(BountyError::OneYoctoRequired);
        }
        let contract = match &self.dispute_contract {
            Some(d) => d.clone(),
            None => { return Err(BountyError::DisputesNotSupported); },
        };
        if id >= self.last_bounty_id {
            return Err(BountyError::BountyNotFound);
        }
        let n = self.bounties.len();
        let b = &self.bounties[id as usize];
        if !(b.status == BountyStatus::Claimed || b.status == BountyStatus::ManyClaimed) {
            return Err(BountyError::BountyStatusForDispute);
        }
        let claimer = &ctx.predecessor;
        let (claims, k) = self.internal_get_claims(id, claimer)?;
        let rejected = match claims[k].rejected_timestamp {
            Some(t) => t,
            None => { return Err(BountyError::ClaimStatusForDispute); },
        };
        if claims[k].status != ClaimStatus::Rejected {
            return Err(BountyError::ClaimStatusForDispute);
        }
        if ctx.block_timestamp as u128 > rejected as u128 + self.config.period_for_opening_dispute as u128 {
            return Err(BountyError::DisputePeriodExpired);
        }
        let mut effects: Vec<Effect> = Vec::new();
        effects.push(Effect::CreateDispute {
            dispute_contract: contract,
            bounty_id: id,
            description,
            claimer: claimer.clone(),
            project_owner_delegate: b.get_bounty_owner_delegate(),
            then: Callback::AfterCreateDispute { id, claimer: claimer.clone() },
        });
        Ok(effects)
    }

    /// Why the dispute `dispute_id` on the claim of `claimer` on bounty `id` cannot be recorded.
    pub open spec fn dispute_record_error(&self, id: BountyIndex, claimer: Seq<char>) -> Option<BountyError> {
        if id >= self.bounties@.len() {
            Some(BountyError::BountyNotFound)
        } else if !(self.bounties@[id as int].status == BountyStatus::Claimed || self.bounties@[id as int].status == BountyStatus::ManyClaimed) {
            Some(BountyError::BountyStatusForDispute)
        } else if self.claim_of(claimer, id) is None {
            Some(BountyError::NoClaim)
        } else if self.claim_of(claimer, id)->0.status != ClaimStatus::Rejected {
            Some(BountyError::ClaimStatusForDispute)
        } else {
            None
        }
    }

    /// The reply of the dispute contract: the id of the new dispute on the claim of
    /// `claimer` on bounty `id`, which becomes disputed; `Ok(false)` where none was opened.
    pub fn after_create_dispute(&mut self, id: BountyIndex, claimer: AccountId, dispute_id: Option<u64>) -> (r: Result<bool, BountyError>)
        requires
            old(self).wf(),
        ensures
            final(self).wf(),
            dispute_id is None ==> r == Ok::<bool, BountyError>(false) && *final(self) == *old(self),
            dispute_id is Some ==> (r is Err <==> old(self).dispute_record_error(id, claimer@) is Some),
            r matches Err(e) ==> old(self).dispute_record_error(id, claimer@) == Some(e) && *final(self) == *old(self),
            dispute_id is Some && r is Ok ==> r == Ok::<bool, BountyError>(true) && {
                let k = choose|i: int| claim_index(old(self).claims_of(claimer@), id, i);
                let c = old(self).claims_of(claimer@)[k];
                final(self).saved_claims(&*old(self), claimer@, old(self).claims_of(claimer@).update(k,
                    BountyClaim { status: ClaimStatus::Disputed, dispute_id, ..c }))
            },
    {
        if dispute_id.is_none() {
            return Ok(false);
        }
        if id >= self.last_bounty_id {
            return Err(BountyError::BountyNotFound);
        }
        let n = self.bounties.len();
        let st = self.bounties[id as usize].status;
        if !(st == BountyStatus::Claimed || st == BountyStatus::ManyClaimed) {
            return Err(BountyError::BountyStatusForDispute);
        }
        let (mut claims, k) = match self.internal_get_claims(id, &claimer) {
            Ok(x) => x,
            Err(_) => { return Err(BountyError::NoClaim); },
        };
        let ghost s0 = *self;
        proof {
            lemma_claim_index_unique(s0.claims_of(claimer@), id, k as int);
        }
        if claims[k].status != ClaimStatus::Rejected {
            return Err(BountyError::ClaimStatusForDispute);
        }
        let mut c = claims[k].copy();
        c.status = ClaimStatus::Disputed;
        c.dispute_id = dispute_id;
        claims.set(k, c);
        self.internal_save_claims(&claimer, claims);
        Ok(true)
    }

    /// Why the outcome of the dispute on the claim of `claimer` on bounty `id` cannot be
    /// applied.
    pub open spec fn dispute_outcome_error(&self, id: BountyIndex, claimer: Seq<char>) -> Option<BountyError> {
        if id >= self.bounties@.len() {
            Some(BountyError::BountyNotFound)
        } else if !(self.bounties@[id as int].status == BountyStatus::Claimed || self.bounties@[id as int].status == BountyStatus::ManyClaimed) {
            Some(BountyError::BountyStatusForDispute)
        } else if self.claim_of(claimer, id) is None {
            if self.bounty_claimers@.contains_key(claimer) { Some(BountyError::NoClaim) } else { Some(BountyError::NoClaimer) }
        } else if self.claim_of(claimer, id)->0.status != ClaimStatus::Disputed {
            Some(BountyError::ClaimStatusForDispute)
        } else {
            None
        }
    }

    /// Why a dispute lost by the claimant cannot close the claim.
    pub open spec fn dispute_loss_error(&self, id: BountyIndex, claimer: Seq<char>) -> Option<BountyError> {
        let b = self.bounties@[id as int];
        let c = self.claim_of(claimer, id)->0;
        if reset_blocked(b, c) {
            if b.spec_is_different_tasks() { Some(BountyError::SlotOutOfRange) } else { Some(BountyError::ArithmeticOverflow) }
        } else if !self.bond_movable(c, true) {
            Some(BountyError::ArithmeticOverflow)
        } else {
            None
        }
    }

    /// `other` is this contract once the claimant lost the dispute on its claim on bounty
    /// `id` at `now`: the claim is closed as not completed, the bond returned, the
    /// bounty reset.
    pub open spec fn dispute_lost(&self, other: &Self, effects: Seq<Effect>, id: BountyIndex, claimer: AccountId, now: u64) -> bool {
        let b = self.bounties@[id as int];
        let k = choose|i: int| claim_index(self.claims_of(claimer@), id, i);
        let c = self.claims_of(claimer@)[k];
        &&& other.bounties@.len() == self.bounties@.len()
        &&& forall|i: int| 0 <= i < self.bounties@.len() && i != id ==> #[trigger] other.bounties@[i] == self.bounties@[i]
        &&& reset_bounty(b, other.bounties@[id as int], c, now)
        &&& self.claim_closed(other, claimer@, k, ClaimStatus::NotCompleted, true)
        &&& *other == (BountiesContract {
            bounties: other.bounties,
            bounty_claimers: other.bounty_claimers,
            locked_amount: other.locked_amount,
            unlocked_amount: other.unlocked_amount,
            ..*self
        })
        &&& effects == self.closure_effects(claimer, b.owner, b.status, c, ClaimStatus::NotCompleted, true)
    }

    /// Acts on the outcome of the dispute on the claim of `claimer` on bounty `id`: won,
    /// the result is paid (for a subtask, it is completed after the dispute); lost, the
    /// claim is closed.
    pub(crate) fn internal_dispute_outcome(&mut self, id: BountyIndex, claimer: &AccountId, won: bool, now: u64, effects: &mut Vec<Effect>) -> (r: Result<(), BountyError>)
        requires
            old(self).wf(),
            old(self).dispute_outcome_error(id, claimer@) is None,
        ensures
            final(self).wf(),
            r is Err ==> *final(self) == *old(self) && final(effects)@ == old(effects)@,
            won && old(self).bounties@[id as int].spec_is_different_tasks() ==> r is Ok && {
                let k = choose|i: int| claim_index(old(self).claims_of(claimer@), id, i);
                let c = old(self).claims_of(claimer@)[k];
                final(self).saved_claims(&*old(self), claimer@, old(self).claims_of(claimer@).update(k,
                    BountyClaim { status: ClaimStatus::CompletedWithDispute, ..c })) && final(effects)@ == old(effects)@
            },
            won && !old(self).bounties@[id as int].spec_is_different_tasks() ==> {
                let b = old(self).bounties@[id as int];
                &&& r is Err <==> old(self).payout_error(id, Some(*claimer)) is Some
                &&& r matches Err(e) ==> old(self).payout_error(id, Some(*claimer)) == Some(e)
                &&& r is Ok ==> if b.spec_is_payment_outside_contract() {
                    old(self).bounty_completed(&*final(self), id, Some(*claimer), now)
                        && final(effects)@ == old(effects)@ + old(self).completion_effects(id, Some(*claimer))
                } else {
                    *final(self) == *old(self) && final(effects)@ == old(effects)@.push(old(self).payout_transfer(id, *claimer))
                }
            },
            !won ==> (r is Err <==> old(self).dispute_loss_error(id, claimer@) is Some),
            !won ==> (r matches Err(e) ==> old(self).dispute_loss_error(id, claimer@) == Some(e)),
            !won && r is Ok ==> exists|tail: Seq<Effect>| final(effects)@ == old(effects)@ + tail
                && #[trigger] old(self).dispute_lost(&*final(self), tail, id, *claimer, now),
    {
        let (mut claims, k) = self.internal_get_claims(id, claimer).unwrap();
        let ghost s0 = *self;
        proof {
            lemma_claim_index_unique(s0.claims_of(claimer@), id, k as int);
        }
        let n = self.bounties.len();
        proof { assert(self.bounties@[id as int].wf()); }
        if won {
            if self.bounties[id as usize].is_different_tasks() {
                let mut c = claims[k].copy();
                c.status = ClaimStatus::CompletedWithDispute;
                claims.set(k, c);
                self.internal_save_claims(claimer, claims);
                return Ok(());
            }
            return self.internal_bounty_payout(id, Some(claimer.clone()), now, effects);
        }
        let b = &self.bounties[id as usize];
        let blocked = match &b.multitasking {
            Some(super::multitasking::Multitasking::ContestOrHackathon { .. }) => match &b.multitasking {
                Some(m) => m.get_participants() == 0,
                None => false,
            },
            Some(super::multitasking::Multitasking::OneForAll { runtime_env: Some(env), .. }) => env.occupied_slots == 0,
            Some(super::multitasking::Multitasking::DifferentTasks { runtime_env: Some(env), .. }) => match claims[k].slot {
                Some(s) => s >= env.participants.len(),
                None => true,
            },
            _ => false,
        };
        if blocked {
            return Err(if b.is_different_tasks() { BountyError::SlotOutOfRange } else { BountyError::ArithmeticOverflow });
        }
        let amount = match claims[k].bond {
            Some(x) => x,
            None => super::types::DEFAULT_BOUNTY_CLAIM_BOND,
        };
        if self.locked_amount < amount {
            return Err(BountyError::ArithmeticOverflow);
        }
        let ghost e0 = effects@;
        self.internal_reset_bounty_to_initial_state(id, claimer, claims, k, None, true, now, effects);
        proof {
            let tail = effects@.subrange(e0.len() as int, effects@.len() as int);
            assert(effects@ =~= e0 + tail);
            let b0 = s0.bounties@[id as int];
            assert(tail =~= s0.closure_effects(*claimer, b0.owner, b0.status, claims@[k as int], ClaimStatus::NotCompleted, true));
            assert(s0.dispute_lost(&*self, tail, id, *claimer, now));
        }
        Ok(())
    }

    /// The first reason why `ctx` cannot send the outcome of the dispute on the claim of
    /// `claimer` on bounty `id`.
    pub open spec fn dispute_result_error(&self, ctx: CallContext, id: BountyIndex, claimer: Seq<char>) -> Option<BountyError> {
        if self.status != ContractStatus::Live {
            Some(BountyError::NotLive)
        } else if ctx.attached_deposit != 1 {
            Some(BountyError::OneYoctoRequired)
        } else if self.dispute_contract is None {
            Some(BountyError::DisputesNotSupported)
        } else if self.dispute_contract->0@ != ctx.predecessor@ {
            Some(BountyError::NotDisputeContract)
        } else {
            self.dispute_outcome_error(id, claimer)
        }
    }

    /// The dispute contract `ctx` sends the outcome of the dispute on the claim of
    /// `claimer` on bounty `id`.
    pub fn dispute_result(&mut self, ctx: &CallContext, id: BountyIndex, claimer: AccountId, success: bool) -> (r: Result<Vec<Effect>, BountyError>)
        requires
            old(self).wf(),
        ensures
            final(self).wf(),
            r is Err ==> *final(self) == *old(self),
            old(self).dispute_result_error(*ctx, id, claimer@) matches Some(e) ==> r == Err::<Vec<Effect>, BountyError>(e),
            old(self).dispute_result_error(*ctx, id, claimer@) is None && !success ==>
                (r is Err <==> old(self).dispute_loss_error(id, claimer@) is Some)
                && (r matches Ok(effects) ==> old(self).dispute_lost(&*final(self), effects@, id, claimer, ctx.block_timestamp)),
            old(self).dispute_result_error(*ctx, id, claimer@) is None && success && old(self).bounties@[id as int].spec_is_different_tasks() ==>
                r is Ok && {
                    let k = choose|i: int| claim_index(old(self).claims_of(claimer@), id, i);
                    let c = old(self).claims_of(claimer@)[k];
                    final(self).saved_claims(&*old(self), claimer@, old(self).claims_of(claimer@).update(k,
                        BountyClaim { status: ClaimStatus::CompletedWithDispute, ..c }))
                },
            old(self).dispute_result_error(*ctx, id, claimer@) is None && success && !old(self).bounties@[id as int].spec_is_different_tasks() ==>
                (r is Err <==> old(self).payout_error(id, Some(claimer)) is Some),
    {
        self.assert_live()?;
        if ctx.attached_deposit != 1 {
            return Err(BountyError::OneYoctoRequired);
        }
        match &self.dispute_contract {
            Some(d) => if *d != ctx.predecessor { return Err(BountyError::NotDisputeContract); },
            None => { return Err(BountyError::DisputesNotSupported); },
        }
        self.check_dispute_outcome(id, &claimer)?;
        let mut effects: Vec<Effect> = Vec::new();
        self.internal_dispute_outcome(id, &claimer, success, ctx.block_timestamp, &mut effects)?;
        proof {
            if !success {
                let tail = choose|tail: Seq<Effect>| effects@ == Seq::<Effect>::empty() + tail
                    && #[trigger] old(self).dispute_lost(&*self, tail, id, claimer, ctx.block_timestamp);
                assert(effects@ =~= tail);
            }
        }
        Ok(effects)
    }

    pub(crate) fn check_dispute_outcome(&self, id: BountyIndex, claimer: &AccountId) -> (r: Result<(), BountyError>)
        ensures
            r is Err <==> self.dispute_outcome_error(id, claimer@) is Some,
            r matches Err(e) ==> self.dispute_outcome_error(id, claimer@) == Some(e),
    {
        if id >= self.bounties.len() as u64 {
            return Err(BountyError::BountyNotFound);
        }
        let st = self.bounties[id as usize].status;
        if !(st == BountyStatus::Claimed || st == BountyStatus::ManyClaimed) {
            return Err(BountyError::BountyStatusForDispute);
        }
        let (claims, k) = self.internal_get_claims(id, claimer)?;
        if claims[k].status != ClaimStatus::Disputed {
            return Err(BountyError::ClaimStatusForDispute);
        }
        Ok(())
    }

    /// The reply of the dispute contract about the dispute on the claim of `receiver_id`
    /// on bounty `id`: decided for the claimant, or canceled by the owner, the result is
    /// paid; decided for the owner, or canceled by the claimant, the claim is closed.
    pub fn after_get_dispute(&mut self, id: BountyIndex, receiver_id: AccountId, dispute: Option<Dispute>, now: u64) -> (r: Result<Vec<Effect>, BountyError>)
        requires
            old(self).wf(),
        ensures
            final(self).wf(),
            r is Err ==> *final(self) == *old(self),
            dispute is None ==> r == Err::<Vec<Effect>, BountyError>(BountyError::PromiseFailed),
            dispute is Some ==> (old(self).dispute_outcome_error(id, receiver_id@) matches Some(e) ==> r == Err::<Vec<Effect>, BountyError>(e)),
            dispute matches Some(d) ==> old(self).dispute_outcome_error(id, receiver_id@) is None ==> {
                let won = d.status@ == "InFavorOfClaimer"@ || d.status@ == "CanceledByProjectOwner"@;
                let lost = d.status@ == "InFavorOfProjectOwner"@ || d.status@ == "CanceledByClaimer"@;
                &&& !won && !lost ==> r == Err::<Vec<Effect>, BountyError>(BountyError::DisputeStatusNotProcessed)
                &&& won ==> (r is Err <==> old(self).payout_error(id, Some(receiver_id)) is Some)
                &&& lost ==> (r is Err <==> old(self).dispute_loss_error(id, receiver_id@) is Some)
                    && (r matches Ok(effects) ==> old(self).dispute_lost(&*final(self), effects@, id, receiver_id, now))
            },
    {
        proof {
            reveal_strlit("InFavorOfClaimer");
            reveal_strlit("CanceledByProjectOwner");
            reveal_strlit("InFavorOfProjectOwner");
            reveal_strlit("CanceledByClaimer");
            assert("InFavorOfClaimer"@.len() == 16);
            assert("CanceledByProjectOwner"@.len() == 22);
            assert("InFavorOfProjectOwner"@.len() == 21);
            assert("CanceledByClaimer"@.len() == 17);
        }
        let d = match dispute {
            Some(d) => d,
            None => { return Err(BountyError::PromiseFailed); },
        };
        self.check_dispute_outcome(id, &receiver_id)?;
        let won = text_is(&d.status, "InFavorOfClaimer") || text_is(&d.status, "CanceledByProjectOwner");
        let lost = text_is(&d.status, "InFavorOfProjectOwner") || text_is(&d.status, "CanceledByClaimer");
        if !won && !lost {
            return Err(BountyError::DisputeStatusNotProcessed);
        }
        let mut effects: Vec<Effect> = Vec::new();
        if won {
            self.internal_bounty_payout(id, Some(receiver_id), now, &mut effects)?;
        } else {
            self.internal_dispute_outcome(id, &receiver_id, false, now, &mut effects)?;
            proof {
                let tail = choose|tail: Seq<Effect>| effects@ == Seq::<Effect>::empty() + tail
                    && #[trigger] old(self).dispute_lost(&*self, tail, id, receiver_id, now);
                assert(effects@ =~= tail);
            }
        }
        Ok(effects)
    }
}

} // verus!
