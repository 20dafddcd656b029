//! Bounties paid outside the contract: the owner marks a payment as made and the
//! claimant confirms it; and other changes the owner makes while a bounty runs.
use vstd::prelude::*;
use crate::accounts::AccountId;
use super::types::{BountyIndex, BountyStatus, ClaimStatus, ContractStatus, PaymentTimestamps, DateOrPeriod, StartConditions, SubtaskEnv, Reviewers, ValidatorsDaoParams, timestamps_or_default};
use super::multitasking::{Multitasking, contest_env, slots};
use super::bounty::{Bounty, Postpaid};
use super::claim::BountyClaim;
use super::claims::{claim_index, lemma_claim_in, lemma_claim_index_unique};
use super::action::{payment_times, internal_get_payment_timestamps};
use super::errors::BountyError;
use super::effects::CallContext;
use super::contract::BountiesContract;

verus! {

/// The claim once the owner's payment at `now` is recorded on it.
pub open spec fn paid_claim(c: BountyClaim, now: u64) -> BountyClaim {
    BountyClaim {
        payment_timestamps: Some(PaymentTimestamps { payment_at: Some(now), ..timestamps_or_default(c.payment_timestamps) }),
        ..c
    }
}

/// The claim once the claimant's confirmation at `now` is recorded on it.
pub open spec fn confirmed_claim(c: BountyClaim, now: u64) -> BountyClaim {
    BountyClaim {
        payment_timestamps: Some(PaymentTimestamps { payment_confirmed_at: Some(now), ..timestamps_or_default(c.payment_timestamps) }),
        ..c
    }
}

/// The payment record of a bounty paid outside the contract, with `f` applied.
pub open spec fn postpaid_with(p: Postpaid, t: PaymentTimestamps) -> Postpaid {
    Postpaid::PaymentOutsideContract { currency: p->PaymentOutsideContract_currency, payment_timestamps: Some(t) }
}

impl BountiesContract {
    /// The claim that a payment outside the contract of bounty `id` concerns: that of
    /// `claimer` for a bounty for several claimants, else the first active claim.
    pub open spec fn payment_claim_error(&self, id: BountyIndex, claimer: Option<AccountId>, claimer_given: bool) -> Option<BountyError> {
        let b = self.bounties@[id as int];
        if b.multitasking is Some {
            if claimer_given && claimer is None {
                Some(BountyError::ClaimerRequired)
            } else if self.claim_of(claimer->0@, id) is None {
                if self.bounty_claimers@.contains_key(claimer->0@) { Some(BountyError::NoClaim) } else { Some(BountyError::NoClaimer) }
            } else {
                None
            }
        } else if claimer_given && claimer is Some {
            Some(BountyError::ClaimerNotExpected)
        } else {
            None
        }
    }

    /// The claimant whose payment outside the contract of bounty `id` is concerned:
    /// `claimer` for a bounty for several claimants, else the first claimant with an
    /// active claim.
    pub open spec fn payment_claimant(&self, id: BountyIndex, claimer: Option<AccountId>) -> Result<AccountId, BountyError> {
        if self.bounties@[id as int].multitasking is Some {
            Ok(claimer->0)
        } else {
            self.first_active_from(id, 0)
        }
    }

    /// Finds the claim that a payment outside the contract of bounty `id` concerns.
    fn payment_claim(&self, id: BountyIndex, claimer: &Option<AccountId>) -> (r: Result<(AccountId, Vec<BountyClaim>, usize), BountyError>)
        requires
            self.wf(),
            id < self.bounties@.len(),
            self.bounties@[id as int].multitasking is Some ==> claimer is Some,
        ensures
            r matches Ok((a, claims, k)) ==> claims@ == self.claims_of(a@) && claim_index(claims@, id, k as int)
                && self.claim_of(a@, id) == Some(claims@[k as int])
                && (self.bounties@[id as int].multitasking is Some ==> a == claimer->0)
                && (self.bounties@[id as int].multitasking is None ==> Self::is_active(claims@[k as int])),
            self.bounties@[id as int].multitasking is Some ==> (r is Err <==> self.claim_of(claimer->0@, id) is None),
            self.bounties@[id as int].multitasking is Some ==> (r matches Err(e) ==> e == (if self.bounty_claimers@.contains_key(claimer->0@) {
                BountyError::NoClaim } else { BountyError::NoClaimer })),
            self.bounties@[id as int].multitasking is None ==> (r matches Ok((a, claims, k)) ==> self.first_active_from(id, 0) == Ok::<AccountId, BountyError>(a)),
            self.bounties@[id as int].multitasking is None ==> (r matches Err(e) ==> self.first_active_from(id, 0) == Err::<AccountId, BountyError>(e)),
    {
        let n = self.bounties.len();
        if self.bounties[id as usize].multitasking.is_some() {
            let a = claimer.as_ref().unwrap();
            let (claims, k) = self.internal_get_claims(id, a)?;
            Ok((a.clone(), claims, k))
        } else {
            let (a, claims, k) = self.internal_find_active_claim(id)?;
            proof { lemma_claim_in(claims@, id, k as int); }
            Ok((a, claims, k))
        }
    }

    /// The first reason why `ctx` cannot mark the payment of bounty `id` as made.
    pub open spec fn mark_paid_prefix_error(&self, ctx: CallContext, id: BountyIndex, claimer: Option<AccountId>) -> Option<BountyError> {
        if self.status != ContractStatus::Live {
            Some(BountyError::NotLive)
        } else if ctx.attached_deposit != 1 {
            Some(BountyError::OneYoctoRequired)
        } else if id >= self.bounties@.len() {
            Some(BountyError::BountyNotFound)
        } else {
            let b = self.bounties@[id as int];
            if !b.spec_is_payment_outside_contract() {
                Some(BountyError::NotPaymentOutsideContract)
            } else if !(b.status == BountyStatus::Claimed || b.status == BountyStatus::ManyClaimed) {
                Some(BountyError::BountyStatusForPayment)
            } else if b.owner@ != ctx.predecessor@ {
                Some(BountyError::NotOwner)
            } else {
                self.payment_claim_error(id, claimer, true)
            }
        }
    }

    /// Why the payment on the claim `c` of `a` on bounty `b` cannot be marked as made.
    pub open spec fn mark_paid_claim_error(b: Bounty, c: BountyClaim) -> Option<BountyError> {
        if !(c.status == ClaimStatus::Completed || c.status == ClaimStatus::CompletedWithDispute) {
            Some(BountyError::ClaimStatusForPayment)
        } else if payment_times(b, c).payment_at is Some {
            Some(BountyError::AlreadyPerformed)
        } else if !(b.spec_is_one_bounty_for_many_claimants() || b.spec_is_different_tasks())
            && b.spec_is_contest_or_hackathon() && contest_env(b.multitasking->0).competition_winner is Some {
            Some(BountyError::WinnerDecided)
        } else {
            None
        }
    }

    /// The first reason why `ctx` cannot mark the payment of bounty `id` (to `claimer`)
    /// as made, in the order the request is checked.
    pub open spec fn mark_paid_error(&self, ctx: CallContext, id: BountyIndex, claimer: Option<AccountId>) -> Option<BountyError> {
        match self.mark_paid_prefix_error(ctx, id, claimer) {
            Some(e) => Some(e),
            None => match self.payment_claimant(id, claimer) {
                Err(e) => Some(e),
                Ok(a) => Self::mark_paid_claim_error(self.bounties@[id as int], self.claim_of(a@, id)->0),
            },
        }
    }

    /// `other` is this contract once the owner's payment at `now` for the claim of `a`
    /// on bounty `id` is recorded: on the claim where the bounty has several claimants,
    /// else on the bounty (a contest also records its winner).
    pub open spec fn marked_paid(&self, other: &Self, id: BountyIndex, a: AccountId, claimer: Option<AccountId>, now: u64) -> bool {
        let b = self.bounties@[id as int];
        let k = choose|i: int| claim_index(self.claims_of(a@), id, i);
        let c = self.claims_of(a@)[k];
        if b.spec_is_one_bounty_for_many_claimants() || b.spec_is_different_tasks() {
            other.saved_claims(self, a@, self.claims_of(a@).update(k, paid_claim(c, now)))
        } else {
            let p = b.postpaid->0;
            let t = PaymentTimestamps { payment_at: Some(now), ..timestamps_or_default(p->PaymentOutsideContract_payment_timestamps) };
            &&& other.bounties@ == self.bounties@.update(id as int, other.bounties@[id as int])
            &&& other.bounties@[id as int] == Bounty { postpaid: Some(postpaid_with(p, t)), multitasking: other.bounties@[id as int].multitasking, ..b }
            &&& if b.spec_is_contest_or_hackathon() {
                let m = b.multitasking->0;
                let rm = other.bounties@[id as int].multitasking->0;
                &&& other.bounties@[id as int].multitasking is Some
                &&& rm is ContestOrHackathon
                &&& rm->ContestOrHackathon_allowed_create_claim_to == m->ContestOrHackathon_allowed_create_claim_to
                &&& rm->ContestOrHackathon_successful_claims_for_result == m->ContestOrHackathon_successful_claims_for_result
                &&& rm->ContestOrHackathon_start_conditions == m->ContestOrHackathon_start_conditions
                &&& contest_env(rm) == (super::types::ContestOrHackathonEnv { competition_winner: claimer, ..contest_env(m) })
            } else {
                other.bounties@[id as int].multitasking == b.multitasking
            }
            &&& *other == (BountiesContract { bounties: other.bounties, ..*self })
        }
    }

    /// The owner `ctx` of bounty `id`, paid outside the contract, marks the payment
    /// (to `claimer`, for a bounty for several claimants) as made.
    pub fn mark_as_paid(&mut self, ctx: &CallContext, id: BountyIndex, claimer: Option<AccountId>) -> (r: Result<(), BountyError>)
        requires
            old(self).wf(),
        ensures
            final(self).wf(),
            r is Err ==> *final(self) == *old(self),
            old(self).mark_paid_prefix_error(*ctx, id, claimer) matches Some(e) ==> r == Err::<(), BountyError>(e),
            r is Err <==> old(self).mark_paid_error(*ctx, id, claimer) is Some,
            r matches Err(e) ==> old(self).mark_paid_error(*ctx, id, claimer) == Some(e),
            r is Ok ==> exists|a: AccountId| #![trigger old(self).claims_of(a@)] {
                let b = old(self).bounties@[id as int];
                &&& old(self).claim_of(a@, id) is Some
                &&& (b.multitasking is Some ==> a == claimer->0)
                &&& (b.multitasking is None ==> Self::is_active(old(self).claim_of(a@, id)->0))
                &&& Self::mark_paid_claim_error(b, old(self).claim_of(a@, id)->0) is None
                &&& old(self).marked_paid(&*final(self), id, a, claimer, ctx.block_timestamp)
            },
    {
        self.assert_live()?;
        if ctx.attached_deposit != 1 {
            return Err(BountyError::OneYoctoRequired);
        }
        if id >= self.last_bounty_id {
            return Err(BountyError::BountyNotFound);
        }
        let n = self.bounties.len();
        proof { assert(self.bounties@[id as int].wf()); }
        let ghost s0 = *self;
        let now = ctx.block_timestamp;
        let b = &self.bounties[id as usize];
        if !b.is_payment_outside_contract() {
            return Err(BountyError::NotPaymentOutsideContract);
        }
        if !(b.status == BountyStatus::Claimed || b.status == BountyStatus::ManyClaimed) {
            return Err(BountyError::BountyStatusForPayment);
        }
        if b.owner != ctx.predecessor {
            return Err(BountyError::NotOwner);
        }
        if b.multitasking.is_some() {
            if claimer.is_none() {
                return Err(BountyError::ClaimerRequired);
            }
        } else if claimer.is_some() {
            return Err(BountyError::ClaimerNotExpected);
        }
        let (a, mut claims, k) = self.payment_claim(id, &claimer)?;
        proof {
            lemma_claim_index_unique(s0.claims_of(a@), id, k as int);
        }
        let c = &claims[k];
        if !(c.status == ClaimStatus::Completed || c.status == ClaimStatus::CompletedWithDispute) {
            return Err(BountyError::ClaimStatusForPayment);
        }
        let ts = internal_get_payment_timestamps(b, c);
        if ts.payment_at.is_some() {
            return Err(BountyError::AlreadyPerformed);
        }
        if b.is_one_bounty_for_many_claimants() || b.is_different_tasks() {
            let mut c2 = c.copy();
            c2.set_payment_at(Some(now));
            claims.set(k, c2);
            self.internal_save_claims(&a, claims);
            proof {
                assert(self.bounties == s0.bounties);
                assert(s0.claim_of(a@, id) is Some);
                assert(Self::mark_paid_claim_error(s0.bounties@[id as int], s0.claim_of(a@, id)->0) is None);
                assert(s0.marked_paid(&*self, id, a, claimer, now));
            }
            return Ok(());
        }
        if b.is_contest_or_hackathon() {
            let w = b.multitasking.as_ref().unwrap().get_competition_winner();
            if w.is_some() {
                return Err(BountyError::WinnerDecided);
            }
        }
        let mut bounty = self.take_bounty(id);
        if bounty.is_contest_or_hackathon() {
            let m = bounty.multitasking.take().unwrap();
            bounty.multitasking = Some(m.set_competition_winner(claimer));
        }
        let p = bounty.postpaid.take().unwrap();
        bounty.postpaid = Some(p.set_payment_at(Some(now)));
        self.put_bounty(id, bounty);
        proof {
            assert(self.bounties@ =~= s0.bounties@.update(id as int, self.bounties@[id as int]));
            assert forall|i: int| 0 <= i < self.bounties@.len() implies (#[trigger] self.bounties@[i]).wf() by {
                if i != id { assert(self.bounties@[i] == s0.bounties@[i]); }
            }
            assert(s0.claim_of(a@, id) is Some);
            assert(Self::mark_paid_claim_error(s0.bounties@[id as int], s0.claim_of(a@, id)->0) is None);
            assert(s0.marked_paid(&*self, id, a, claimer, now));
        }
        Ok(())
    }

    /// The first reason why `ctx` cannot confirm the payment of bounty `id`, before its
    /// claim is found.
    pub open spec fn confirm_prefix_error(&self, ctx: CallContext, id: BountyIndex) -> Option<BountyError> {
        if self.status != ContractStatus::Live {
            Some(BountyError::NotLive)
        } else if ctx.attached_deposit != 1 {
            Some(BountyError::OneYoctoRequired)
        } else if id >= self.bounties@.len() {
            Some(BountyError::BountyNotFound)
        } else {
            let b = self.bounties@[id as int];
            if !b.spec_is_payment_outside_contract() {
                Some(BountyError::NotPaymentOutsideContract)
            } else if !(b.status == BountyStatus::Claimed || b.status == BountyStatus::ManyClaimed) {
                Some(BountyError::BountyStatusForPayment)
            } else if b.multitasking is Some {
                self.payment_claim_error(id, Some(ctx.predecessor), false)
            } else {
                None
            }
        }
    }

    /// Why the claimant `a` cannot confirm the payment on its claim `c` on bounty `b`.
    pub open spec fn confirm_claim_error(b: Bounty, c: BountyClaim, a: Seq<char>) -> Option<BountyError> {
        if !(c.status == ClaimStatus::Completed || c.status == ClaimStatus::CompletedWithDispute) {
            Some(BountyError::ClaimStatusForPayment)
        } else if payment_times(b, c).payment_at is None {
            Some(BountyError::PaymentNotMade)
        } else if payment_times(b, c).payment_confirmed_at is Some {
            Some(BountyError::AlreadyPerformed)
        } else if b.spec_is_different_tasks() && (c.slot is None || c.slot->0 >= slots(b.multitasking->0).len()
            || slots(b.multitasking->0)[c.slot->0 as int] is None) {
            Some(BountyError::SlotNotOccupied)
        } else if !(b.spec_is_one_bounty_for_many_claimants() || b.spec_is_different_tasks())
            && b.spec_is_contest_or_hackathon() && !(contest_env(b.multitasking->0).competition_winner matches Some(w) && w@ == a) {
            Some(BountyError::NotWinner)
        } else {
            None
        }
    }

    /// The first reason why the claimant `ctx` cannot confirm the payment of bounty
    /// `id`, in the order the request is checked.
    pub open spec fn confirm_error(&self, ctx: CallContext, id: BountyIndex) -> Option<BountyError> {
        match self.confirm_prefix_error(ctx, id) {
            Some(e) => Some(e),
            None => match self.payment_claimant(id, Some(ctx.predecessor)) {
                Err(e) => Some(e),
                Ok(a) => if a@ != ctx.predecessor@ {
                    Some(BountyError::NotClaimOwner)
                } else {
                    Self::confirm_claim_error(self.bounties@[id as int], self.claim_of(a@, id)->0, a@)
                },
            },
        }
    }

    /// `other` is this contract once the claimant `a` confirms at `now` the payment of
    /// bounty `id`: on its claim where the bounty has several claimants (a subtask is
    /// then confirmed too), else on the bounty.
    pub open spec fn payment_confirmed(&self, other: &Self, id: BountyIndex, a: AccountId, now: u64) -> bool {
        let b = self.bounties@[id as int];
        let k = choose|i: int| claim_index(self.claims_of(a@), id, i);
        let c = self.claims_of(a@)[k];
        if b.spec_is_one_bounty_for_many_claimants() || b.spec_is_different_tasks() {
            &&& other.saved_claims(&BountiesContract { bounties: other.bounties, ..*self }, a@, self.claims_of(a@).update(k, confirmed_claim(c, now)))
            &&& other.bounties@ == self.bounties@.update(id as int, other.bounties@[id as int])
            &&& if b.spec_is_different_tasks() {
                let m = b.multitasking->0;
                let rm = other.bounties@[id as int].multitasking->0;
                let s = slots(m)[c.slot->0 as int]->0;
                &&& other.bounties@[id as int] == Bounty { multitasking: other.bounties@[id as int].multitasking, ..b }
                &&& other.bounties@[id as int].multitasking is Some
                &&& rm is DifferentTasks
                &&& rm->DifferentTasks_subtasks == m->DifferentTasks_subtasks
                &&& slots(rm) == slots(m).update(c.slot->0 as int, Some(SubtaskEnv { confirmed: true, ..s }))
                &&& rm->DifferentTasks_runtime_env->0.bounty_payout_proposal_id == m->DifferentTasks_runtime_env->0.bounty_payout_proposal_id
            } else {
                other.bounties@[id as int] == b
            }
        } else {
            let p = b.postpaid->0;
            let t = PaymentTimestamps { payment_confirmed_at: Some(now), ..timestamps_or_default(p->PaymentOutsideContract_payment_timestamps) };
            &&& other.bounties@ == self.bounties@.update(id as int, Bounty { postpaid: Some(postpaid_with(p, t)), ..b })
            &&& *other == (BountiesContract { bounties: other.bounties, ..*self })
        }
    }

    /// The claimant `ctx` confirms that it received the payment of bounty `id`, made
    /// outside the contract.
    pub fn confirm_payment(&mut self, ctx: &CallContext, id: BountyIndex) -> (r: Result<(), BountyError>)
        requires
            old(self).wf(),
        ensures
            final(self).wf(),
            r is Err ==> *final(self) == *old(self),
            old(self).confirm_prefix_error(*ctx, id) matches Some(e) ==> r == Err::<(), BountyError>(e),
            r is Err <==> old(self).confirm_error(*ctx, id) is Some,
            r matches Err(e) ==> old(self).confirm_error(*ctx, id) == Some(e),
            r is Ok ==> {
                let b = old(self).bounties@[id as int];
                let a = ctx.predecessor;
                &&& old(self).claim_of(a@, id) is Some
                &&& (b.multitasking is None ==> Self::is_active(old(self).claim_of(a@, id)->0))
                &&& Self::confirm_claim_error(b, old(self).claim_of(a@, id)->0, a@) is None
                &&& old(self).payment_confirmed(&*final(self), id, a, ctx.block_timestamp)
            },
    {
        self.assert_live()?;
        if ctx.attached_deposit != 1 {
            return Err(BountyError::OneYoctoRequired);
        }
        if id >= self.last_bounty_id {
            return Err(BountyError::BountyNotFound);
        }
        let n = self.bounties.len();
        proof { assert(self.bounties@[id as int].wf()); }
        let ghost s0 = *self;
        let now = ctx.block_timestamp;
        let sender = &ctx.predecessor;
        let b = &self.bounties[id as usize];
        if !b.is_payment_outside_contract() {
            return Err(BountyError::NotPaymentOutsideContract);
        }
        if !(b.status == BountyStatus::Claimed || b.status == BountyStatus::ManyClaimed) {
            return Err(BountyError::BountyStatusForPayment);
        }
        let (a, mut claims, k) = self.payment_claim(id, &Some(sender.clone()))?;
        if a != *sender {
            return Err(BountyError::NotClaimOwner);
        }
        proof {
            lemma_claim_index_unique(s0.claims_of(a@), id, k as int);
        }
        let c = &claims[k];
        if !(c.status == ClaimStatus::Completed || c.status == ClaimStatus::CompletedWithDispute) {
            return Err(BountyError::ClaimStatusForPayment);
        }
        let ts = internal_get_payment_timestamps(b, c);
        if ts.payment_at.is_none() {
            return Err(BountyError::PaymentNotMade);
        }
        if ts.payment_confirmed_at.is_some() {
            return Err(BountyError::AlreadyPerformed);
        }
        if b.is_different_tasks() {
            let ok = match &b.multitasking {
                Some(Multitasking::DifferentTasks { runtime_env: Some(env), .. }) => match c.slot {
                    Some(s) => s < env.participants.len() && env.participants[s].is_some(),
                    None => false,
                },
                _ => false,
            };
            if !ok {
                return Err(BountyError::SlotNotOccupied);
            }
        }
        if b.is_one_bounty_for_many_claimants() || b.is_different_tasks() {
            let different = b.is_different_tasks();
            let slot = c.slot;
            let mut c2 = c.copy();
            c2.set_payment_confirmed_at(Some(now));
            claims.set(k, c2);
            if different {
                let mut bounty = self.take_bounty(id);
                let mut m = bounty.multitasking.take().unwrap();
                let s = slot.unwrap();
                let mut env = m.get_slot_env(s).unwrap();
                env.confirmed = true;
                m.set_slot_env(s, Some(env));
                bounty.multitasking = Some(m);
                self.put_bounty(id, bounty);
            }
            let ghost s1 = *self;
            self.internal_save_claims(&a, claims);
            proof {
                assert(self.bounties@ =~= s0.bounties@.update(id as int, self.bounties@[id as int]));
                assert forall|i: int| 0 <= i < self.bounties@.len() implies (#[trigger] self.bounties@[i]).wf() by {
                    if i != id { assert(self.bounties@[i] == s0.bounties@[i]); }
                }
                assert(s1 == (BountiesContract { bounties: self.bounties, ..s0 }));
                assert(s0.claim_of(a@, id) is Some);
                assert(Self::confirm_claim_error(s0.bounties@[id as int], s0.claim_of(a@, id)->0, a@) is None);
                assert(s0.payment_confirmed(&*self, id, a, now));
            }
            return Ok(());
        }
        if b.is_contest_or_hackathon() {
            let ok = match b.multitasking.as_ref().unwrap().get_competition_winner() {
                Some(w) => w == *sender,
                None => false,
            };
            if !ok {
                return Err(BountyError::NotWinner);
            }
        }
        let mut bounty = self.take_bounty(id);
        let p = bounty.postpaid.take().unwrap();
        bounty.postpaid = Some(p.set_payment_confirmed_at(Some(now)));
        self.put_bounty(id, bounty);
        proof {
            assert(self.bounties@ =~= s0.bounties@.update(id as int, self.bounties@[id as int]));
            assert forall|i: int| 0 <= i < self.bounties@.len() implies (#[trigger] self.bounties@[i]).wf() by {
                if i != id { assert(self.bounties@[i] == s0.bounties@[i]); }
            }
            assert(s0.claim_of(a@, id) is Some);
            assert(Self::confirm_claim_error(s0.bounties@[id as int], s0.claim_of(a@, id)->0, a@) is None);
            assert(s0.payment_confirmed(&*self, id, a, now));
        }
        Ok(())
    }
}

} // verus!
