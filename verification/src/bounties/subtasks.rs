//! Paying the claimants of a bounty with subtasks: each withdraws the share of its
//! subtask once the bounty is completed; the last one also gets what the division
//! left over.
use vstd::prelude::*;
use crate::accounts::AccountId;
use super::types::{BountyIndex, BountyStatus, ClaimStatus, ContractStatus, ReputationActionKind, Subtask, FULL_PERCENTAGE};
use super::multitasking::{Multitasking, slots};
use super::bounty::Bounty;
use super::claim::BountyClaim;
use super::claims::{claim_index, lemma_claim_in, bond_of, lemma_claim_index_unique};
use super::errors::BountyError;
use super::effects::{CallContext, Callback, Effect};
use super::contract::BountiesContract;

verus! {

/// The share of subtask `i` in `amount`.
pub open spec fn subtask_share(amount: u128, subtasks: Seq<Subtask>, i: int) -> int {
    (amount * subtasks[i].subtask_percent) / (FULL_PERCENTAGE as int)
}

/// The shares of the subtasks below `n` whose slot is free.
pub open spec fn free_shares(amount: u128, subtasks: Seq<Subtask>, s: Seq<Option<super::types::SubtaskEnv>>, n: int) -> int
    decreases n,
{
    if n <= 0 {
        0
    } else {
        free_shares(amount, subtasks, s, n - 1) + if s[n - 1] is None { subtask_share(amount, subtasks, n - 1) } else { 0 }
    }
}

/// The shares of more subtasks are no less.
pub proof fn lemma_free_shares_monotone(amount: u128, subtasks: Seq<Subtask>, s: Seq<Option<super::types::SubtaskEnv>>, i: int, n: int)
    requires
        0 <= i <= n,
    ensures
        free_shares(amount, subtasks, s, i) <= free_shares(amount, subtasks, s, n),
    decreases n - i,
{
    if i < n {
        lemma_free_shares_monotone(amount, subtasks, s, i, n - 1);
        assert(subtask_share(amount, subtasks, n - 1) >= 0) by (nonlinear_arith)
            requires amount >= 0, subtasks[n - 1].subtask_percent >= 0;
    }
}

/// What the claimant of subtask `slot` of bounty `b` withdraws: the share of the subtask,
/// or, when no other claimant still waits for its payment, what the paid subtasks left.
pub open spec fn partial_amount(b: Bounty, slot: usize, last: bool) -> int {
    let m = b.multitasking->0;
    let subtasks = m->DifferentTasks_subtasks@;
    if last {
        b.amount - free_shares(b.amount, subtasks, slots(m), subtasks.len() as int)
    } else {
        subtask_share(b.amount, subtasks, slot as int)
    }
}

/// The share of subtask `slot` of bounty `b` can be computed in `u128`: no product of
/// the amount with a percentage that the computation reads passes `u128::MAX`, and the
/// share is in range.
pub open spec fn partial_amount_fits(b: Bounty, slot: usize, last: bool) -> bool {
    let subtasks = b.multitasking->0->DifferentTasks_subtasks@;
    &&& if last {
        forall|i: int| 0 <= i < subtasks.len() ==> b.amount * (#[trigger] subtasks[i]).subtask_percent <= u128::MAX
    } else {
        b.amount * subtasks[slot as int].subtask_percent <= u128::MAX
    }
    &&& 0 <= partial_amount(b, slot, last) <= u128::MAX
}

impl BountiesContract {
    /// Claimants of bounty `id`, other than `claimer`, wait for their payment.
    pub open spec fn others_wait(&self, id: BountyIndex, claimer: Seq<char>) -> bool {
        self.claimants_with_status(id, ClaimStatus::Completed, claimer).len()
            + self.claimants_with_status(id, ClaimStatus::CompletedWithDispute, claimer).len() > 0
    }

    /// The share of subtask `slot` of bounty `id` for `claimer`; None where it overflows.
    pub fn internal_get_partial_amount(&self, id: BountyIndex, claimer: &AccountId, slot: usize) -> (r: Option<u128>)
        requires
            self.wf(),
            id < self.bounties@.len(),
            self.bounties@[id as int].spec_is_different_tasks(),
            slot < self.bounties@[id as int].multitasking->0->DifferentTasks_subtasks@.len(),
        ensures
            r matches Some(a) ==> a == partial_amount(self.bounties@[id as int], slot, !self.others_wait(id, claimer@)),
            r is Some <==> partial_amount_fits(self.bounties@[id as int], slot, !self.others_wait(id, claimer@)),
            r is None ==> partial_amount(self.bounties@[id as int], slot, !self.others_wait(id, claimer@)) < 0
                || partial_amount(self.bounties@[id as int], slot, !self.others_wait(id, claimer@)) > u128::MAX
                || exists|i: int| 0 <= i < self.bounties@[id as int].multitasking->0->DifferentTasks_subtasks@.len()
                    && self.bounties@[id as int].amount * (#[trigger] self.bounties@[id as int].multitasking->0->DifferentTasks_subtasks@[i]).subtask_percent > u128::MAX,
    {
        let n = self.bounties.len();
        proof { assert(self.bounties@[id as int].wf()); }
        let b = &self.bounties[id as usize];
        let waiting = self.count_claims_with_status(id, ClaimStatus::Completed, claimer) as u128
            + self.count_claims_with_status(id, ClaimStatus::CompletedWithDispute, claimer) as u128;
        let (subtasks, env) = match &b.multitasking {
            Some(Multitasking::DifferentTasks { subtasks, runtime_env: Some(env) }) => (subtasks, env),
            _ => {
                proof { assert(false); }
                unreached()
            },
        };
        if waiting > 0 {
            let x = match b.amount.checked_mul(subtasks[slot].subtask_percent as u128) {
                Some(x) => x,
                None => {
                    proof { assert(b.amount * subtasks@[slot as int].subtask_percent > u128::MAX); }
                    return None;
                },
            };
            return Some(x / FULL_PERCENTAGE);
        }
        let mut other: u128 = 0;
        let mut i: usize = 0;
        while i < subtasks.len()
            invariant
                i <= subtasks@.len(),
                subtasks@.len() == env.participants@.len(),
                other == free_shares(b.amount, subtasks@, env.participants@, i as int),
                *subtasks == b.multitasking->0->DifferentTasks_subtasks,
                env.participants@ == slots(b.multitasking->0),
                b.multitasking->0 is DifferentTasks,
                *b == self.bounties@[id as int],
                id < self.bounties@.len(),
                !self.others_wait(id, claimer@),
                forall|j: int| 0 <= j < i ==> b.amount * (#[trigger] subtasks@[j]).subtask_percent <= u128::MAX,
            decreases subtasks@.len() - i,
        {
            let x = match b.amount.checked_mul(subtasks[i].subtask_percent as u128) {
                Some(x) => x,
                None => {
                    proof { assert(b.amount * subtasks@[i as int].subtask_percent > u128::MAX); }
                    return None;
                },
            };
            if env.participants[i].is_none() {
                other = match other.checked_add(x / FULL_PERCENTAGE) {
                    Some(o) => o,
                    None => {
                        proof {
                            lemma_free_shares_monotone(b.amount, subtasks@, env.participants@, i + 1, subtasks@.len() as int);
                        }
                        return None;
                    },
                };
            }
            i = i + 1;
        }
        proof { assert(other == free_shares(b.amount, subtasks@, slots(b.multitasking->0), subtasks@.len() as int)); }
        if other > b.amount {
            return None;
        }
        Some(b.amount - other)
    }

    /// Why the paid subtask `slot` of `claimer` on bounty `id` cannot be closed.
    pub open spec fn slot_finalize_error(&self, id: BountyIndex, claimer: Seq<char>, slot: usize) -> Option<BountyError> {
        if id >= self.bounties@.len() {
            Some(BountyError::BountyNotFound)
        } else if self.claim_of(claimer, id) is None {
            if self.bounty_claimers@.contains_key(claimer) { Some(BountyError::NoClaim) } else { Some(BountyError::NoClaimer) }
        } else if !(self.claim_of(claimer, id)->0.status == ClaimStatus::Completed
            || self.claim_of(claimer, id)->0.status == ClaimStatus::CompletedWithDispute) {
            Some(BountyError::ClaimStatusForWithdraw)
        } else if !self.bounties@[id as int].spec_is_different_tasks() || slot >= slots(self.bounties@[id as int].multitasking->0).len() {
            Some(BountyError::SlotOutOfRange)
        } else if self.locked_amount < bond_of(self.claim_of(claimer, id)->0.bond) {
            Some(BountyError::ArithmeticOverflow)
        } else {
            None
        }
    }

    /// `other`, with `effects`, is this contract once the subtask `slot` of `claimer` on
    /// bounty `id` is paid: the claim is approved, the subtask freed, the success told,
    /// the bond returned.
    pub open spec fn slot_finalized(&self, other: &Self, effects: Seq<Effect>, id: BountyIndex, claimer: AccountId, slot: usize) -> bool {
        let b = self.bounties@[id as int];
        let m = b.multitasking->0;
        let k = choose|i: int| claim_index(self.claims_of(claimer@), id, i);
        let c = self.claims_of(claimer@)[k];
        let rb = other.bounties@[id as int];
        let rm = rb.multitasking->0;
        &&& other.claims_of(claimer@) == self.claims_of(claimer@).update(k, BountyClaim { status: ClaimStatus::Approved, ..c })
        &&& forall|a: Seq<char>| a != claimer@ ==> #[trigger] other.claims_of(a) == self.claims_of(a)
        &&& other.bounties@ == self.bounties@.update(id as int, rb)
        &&& rb == Bounty { multitasking: rb.multitasking, ..b }
        &&& rb.multitasking is Some
        &&& rm is DifferentTasks
        &&& rm->DifferentTasks_subtasks == m->DifferentTasks_subtasks
        &&& slots(rm) == slots(m).update(slot as int, None)
        &&& rm->DifferentTasks_runtime_env->0.bounty_payout_proposal_id == m->DifferentTasks_runtime_env->0.bounty_payout_proposal_id
        &&& other.locked_amount == self.locked_amount - bond_of(c.bond)
        &&& *other == (BountiesContract {
            bounties: other.bounties,
            bounty_claimers: other.bounty_claimers,
            locked_amount: other.locked_amount,
            ..*self
        })
        &&& effects == self.statistic(Some(claimer), Some(b.owner),
            ReputationActionKind::SuccessfulClaim { with_dispute: c.status == ClaimStatus::CompletedWithDispute })
            + (if bond_of(c.bond) != 0 { seq![Effect::Transfer { receiver_id: claimer, amount: bond_of(c.bond) }] } else { Seq::empty() })
    }

    /// Closes the paid subtask `slot` of `claimer` on bounty `id`.
    pub(crate) fn internal_slot_finalize(&mut self, id: BountyIndex, claimer: &AccountId, slot: usize, effects: &mut Vec<Effect>) -> (r: Result<(), BountyError>)
        requires
            old(self).wf(),
        ensures
            final(self).wf(),
            r is Err <==> old(self).slot_finalize_error(id, claimer@, slot) is Some,
            r matches Err(e) ==> old(self).slot_finalize_error(id, claimer@, slot) == Some(e)
                && *final(self) == *old(self) && final(effects)@ == old(effects)@,
            r is Ok ==> exists|tail: Seq<Effect>| final(effects)@ == old(effects)@ + tail
                && #[trigger] old(self).slot_finalized(&*final(self), tail, id, *claimer, slot),
    {
        if id >= self.last_bounty_id {
            return Err(BountyError::BountyNotFound);
        }
        let n = self.bounties.len();
        proof { assert(self.bounties@[id as int].wf()); }
        let ghost s0 = *self;
        let (mut claims, k) = self.internal_get_claims(id, claimer)?;
        proof {
            lemma_claim_index_unique(s0.claims_of(claimer@), id, k as int);
        }
        let st = claims[k].status;
        if !(st == ClaimStatus::Completed || st == ClaimStatus::CompletedWithDispute) {
            return Err(BountyError::ClaimStatusForWithdraw);
        }
        let ok = match &self.bounties[id as usize].multitasking {
            Some(Multitasking::DifferentTasks { runtime_env: Some(env), .. }) => slot < env.participants.len(),
            _ => false,
        };
        if !ok {
            return Err(BountyError::SlotOutOfRange);
        }
        let bond = claims[k].bond;
        let amount = match bond {
            Some(x) => x,
            None => super::types::DEFAULT_BOUNTY_CLAIM_BOND,
        };
        if self.locked_amount < amount {
            return Err(BountyError::ArithmeticOverflow);
        }
        let ghost e0 = effects@;
        let with_dispute = st == ClaimStatus::CompletedWithDispute;
        let mut c = claims[k].copy();
        c.status = ClaimStatus::Approved;
        claims.set(k, c);
        let ghost s_pre = *self;
        self.internal_save_claims(claimer, claims);
        let ghost s1 = *self;
        let mut bounty = self.take_bounty(id);
        let mut m = bounty.multitasking.take().unwrap();
        m.set_slot_env(slot, None);
        bounty.multitasking = Some(m);
        let owner = bounty.owner.clone();
        self.put_bounty(id, bounty);
        proof {
            assert(self.bounties@ =~= s0.bounties@.update(id as int, self.bounties@[id as int]));
            assert forall|i: int| 0 <= i < self.bounties@.len() implies (#[trigger] self.bounties@[i]).wf() by {
                if i != id { assert(self.bounties@[i] == s0.bounties@[i]); }
            }
        }
        self.push_statistic(effects, Some(claimer.clone()), Some(owner), ReputationActionKind::SuccessfulClaim { with_dispute });
        self.internal_return_bonds(claimer, bond, effects);
        proof {
            let tail = effects@.subrange(e0.len() as int, effects@.len() as int);
            assert(effects@ =~= e0 + tail);
            assert(s_pre.bounty_claimers == s0.bounty_claimers);
            assert forall|a: Seq<char>| a != claimer@ implies #[trigger] self.claims_of(a) == s0.claims_of(a) by {
                assert(s1.claims_of(a) == s_pre.claims_of(a));
                assert(self.bounty_claimers == s1.bounty_claimers);
            }
            let kk = choose|i: int| claim_index(s0.claims_of(claimer@), id, i);
            assert(kk == k as int);
            assert(self.claims_of(claimer@) == s0.claims_of(claimer@).update(kk, BountyClaim { status: ClaimStatus::Approved, ..s0.claims_of(claimer@)[kk] }));
            assert(self.bounties@ == s0.bounties@.update(id as int, self.bounties@[id as int]));
            assert(self.locked_amount == s0.locked_amount - bond_of(s0.claims_of(claimer@)[kk].bond));
            assert(tail == s0.statistic(Some(*claimer), Some(s0.bounties@[id as int].owner),
                ReputationActionKind::SuccessfulClaim { with_dispute: s0.claims_of(claimer@)[kk].status == ClaimStatus::CompletedWithDispute })
                + (if bond_of(s0.claims_of(claimer@)[kk].bond) != 0 { seq![Effect::Transfer { receiver_id: *claimer, amount: bond_of(s0.claims_of(claimer@)[kk].bond) }] } else { Seq::empty() }));
            assert(s0.slot_finalized(&*self, tail, id, *claimer, slot));
        }
        Ok(())
    }

    /// The first reason why `ctx` cannot withdraw its share of bounty `id`.
    pub open spec fn withdraw_error(&self, ctx: CallContext, id: BountyIndex) -> Option<BountyError> {
        let claimer = ctx.predecessor@;
        if self.status != ContractStatus::Live {
            Some(BountyError::NotLive)
        } else if ctx.attached_deposit != 1 {
            Some(BountyError::OneYoctoRequired)
        } else if id >= self.bounties@.len() {
            Some(BountyError::BountyNotFound)
        } else {
            let b = self.bounties@[id as int];
            if !b.spec_is_different_tasks() {
                Some(BountyError::NotDifferentTasks)
            } else if b.status != BountyStatus::Completed {
                Some(BountyError::BountyStatusForWithdraw)
            } else if self.claim_of(claimer, id) is None {
                if self.bounty_claimers@.contains_key(claimer) { Some(BountyError::NoClaim) } else { Some(BountyError::NoClaimer) }
            } else {
                let c = self.claim_of(claimer, id)->0;
                if !(c.status == ClaimStatus::Completed || c.status == ClaimStatus::CompletedWithDispute) {
                    Some(BountyError::ClaimStatusForWithdraw)
                } else if c.slot is None || c.slot->0 >= slots(b.multitasking->0).len() {
                    Some(BountyError::SlotOutOfRange)
                } else if slots(b.multitasking->0)[c.slot->0 as int] is None {
                    Some(BountyError::SlotNotOccupied)
                } else if slots(b.multitasking->0)[c.slot->0 as int]->0.participant@ != claimer {
                    Some(BountyError::SlotOfAnotherAccount)
                } else {
                    None
                }
            }
        }
    }

    /// The first reason why `ctx` cannot withdraw its share of bounty `id`, in the order
    /// the request is checked: the share must be computable, and the subtask of a bounty
    /// paid outside the contract closable.
    pub open spec fn withdraw_request_error(&self, ctx: CallContext, id: BountyIndex) -> Option<BountyError> {
        match self.withdraw_error(ctx, id) {
            Some(e) => Some(e),
            None => {
                let b = self.bounties@[id as int];
                let claimer = ctx.predecessor@;
                let slot = self.claim_of(claimer, id)->0.slot->0;
                if !partial_amount_fits(b, slot, !self.others_wait(id, claimer)) {
                    Some(BountyError::ArithmeticOverflow)
                } else if b.spec_is_payment_outside_contract() {
                    self.slot_finalize_error(id, claimer, slot)
                } else if b.token is None {
                    Some(BountyError::InvalidTokenId)
                } else {
                    None
                }
            },
        }
    }

    /// The claimant `ctx` of a subtask of the completed bounty `id` withdraws its share:
    /// a transfer, then its subtask is closed (at once where the bounty is paid outside
    /// the contract).
    pub fn withdraw(&mut self, ctx: &CallContext, id: BountyIndex) -> (r: Result<Vec<Effect>, BountyError>)
        requires
            old(self).wf(),
        ensures
            final(self).wf(),
            r is Err ==> *final(self) == *old(self),
            old(self).withdraw_error(*ctx, id) matches Some(e) ==> r == Err::<Vec<Effect>, BountyError>(e),
            r is Err <==> old(self).withdraw_request_error(*ctx, id) is Some,
            r matches Err(e) ==> old(self).withdraw_request_error(*ctx, id) == Some(e),
            r matches Ok(effects) ==> {
                let b = old(self).bounties@[id as int];
                let slot = old(self).claim_of(ctx.predecessor@, id)->0.slot->0;
                &&& old(self).withdraw_error(*ctx, id) is None
                &&& if b.spec_is_payment_outside_contract() {
                    old(self).slot_finalized(&*final(self), effects@, id, ctx.predecessor, slot)
                } else {
                    *final(self) == *old(self) && effects@ == seq![Effect::FtTransfer {
                        token_id: b.token->0,
                        receiver_id: ctx.predecessor,
                        amount: partial_amount(b, slot, !old(self).others_wait(id, ctx.predecessor@)) as u128,
                        then: Callback::AfterBountyWithdraw { id, claimer: ctx.predecessor, slot },
                    }]
                }
            },
    {
        self.assert_live()?;
        if ctx.attached_deposit != 1 {
            return Err(BountyError::OneYoctoRequired);
        }
        if id >= self.last_bounty_id {
            return Err(BountyError::BountyNotFound);
        }
        let n = self.bounties.len();
        proof { assert(self.bounties@[id as int].wf()); }
        let claimer = &ctx.predecessor;
        let b = &self.bounties[id as usize];
        if !b.is_different_tasks() {
            return Err(BountyError::NotDifferentTasks);
        }
        if b.status != BountyStatus::Completed {
            return Err(BountyError::BountyStatusForWithdraw);
        }
        let (claims, k) = self.internal_get_claims(id, claimer)?;
        let st = claims[k].status;
        if !(st == ClaimStatus::Completed || st == ClaimStatus::CompletedWithDispute) {
            return Err(BountyError::ClaimStatusForWithdraw);
        }
        let slot = match claims[k].slot {
            Some(s) => s,
            None => { return Err(BountyError::SlotOutOfRange); },
        };
        let m = b.multitasking.as_ref().unwrap();
        let len = match m {
            Multitasking::DifferentTasks { runtime_env: Some(env), .. } => env.participants.len(),
            _ => 0,
        };
        if slot >= len {
            return Err(BountyError::SlotOutOfRange);
        }
        match m.get_slot_env(slot) {
            Some(env) => if env.participant != *claimer { return Err(BountyError::SlotOfAnotherAccount); },
            None => { return Err(BountyError::SlotNotOccupied); },
        }
        let amount = match self.internal_get_partial_amount(id, claimer, slot) {
            Some(a) => a,
            None => { return Err(BountyError::ArithmeticOverflow); },
        };
        let mut effects: Vec<Effect> = Vec::new();
        if b.is_payment_outside_contract() {
            let owned = claimer.clone();
            self.internal_slot_finalize(id, &owned, slot, &mut effects)?;
            proof {
                let tail = choose|tail: Seq<Effect>| effects@ == Seq::<Effect>::empty() + tail
                    && #[trigger] old(self).slot_finalized(&*self, tail, id, owned, slot);
                assert(effects@ =~= tail);
            }
            return Ok(effects);
        }
        let token = match &b.token {
            Some(t) => t.clone(),
            None => { return Err(BountyError::InvalidTokenId); },
        };
        effects.push(Effect::FtTransfer {
            token_id: token,
            receiver_id: claimer.clone(),
            amount,
            then: Callback::AfterBountyWithdraw { id, claimer: claimer.clone(), slot },
        });
        Ok(effects)
    }

    /// The answer to the transfer of the share of subtask `slot` of `claimer` on bounty
    /// `id`: when it succeeded, the subtask is closed; `Ok(false)` when it failed.
    pub fn after_bounty_withdraw(&mut self, id: BountyIndex, claimer: AccountId, slot: usize, success: bool) -> (r: Result<(bool, Vec<Effect>), BountyError>)
        requires
            old(self).wf(),
        ensures
            final(self).wf(),
            !success ==> *final(self) == *old(self) && (r matches Ok((false, effects)) && effects@.len() == 0),
            success ==> (r is Err <==> old(self).slot_finalize_error(id, claimer@, slot) is Some),
            r matches Err(e) ==> old(self).slot_finalize_error(id, claimer@, slot) == Some(e) && *final(self) == *old(self),
            success && r is Ok ==> (r matches Ok((true, effects)) && old(self).slot_finalized(&*final(self), effects@, id, claimer, slot)),
    {
        let mut effects: Vec<Effect> = Vec::new();
        if !success {
            return Ok((false, effects));
        }
        self.internal_slot_finalize(id, &claimer, slot, &mut effects)?;
        proof {
            let tail = choose|tail: Seq<Effect>| effects@ == Seq::<Effect>::empty() + tail
                && #[trigger] old(self).slot_finalized(&*self, tail, id, claimer, slot);
            assert(effects@ =~= tail);
        }
        Ok((true, effects))
    }
}

} // verus!
