//! The approvers' verdict on a result: approval and payout, or rejection.
use vstd::prelude::*;
use crate::accounts::{AccountId, has_account};
use super::types::{BountyIndex, BountyStatus, ClaimStatus, ContractStatus, Deadline, PaymentTimestamps, StartConditions, timestamps_or_default};
use super::multitasking::{Multitasking, contest_env, slots};
use super::bounty::{Bounty, Postpaid};
use super::claim::{BountyClaim, BountyAction};
use super::claims::{claim_index, bond_of, lemma_claim_in, lemma_claim_index_unique};
use super::closure::{reset_blocked, reset_bounty};
use super::payout::{payment_amounts, has_no_slots, internal_get_bounty_amount_for_payment};
use super::errors::BountyError;
use super::effects::{CallContext, Callback, Effect};
use super::contract::BountiesContract;

verus! {

/// When the owner paid and when the claimant confirmed it, for a bounty paid outside the
/// contract: per claim where there are several claimants, per bounty otherwise.
pub open spec fn payment_times(b: Bounty, c: BountyClaim) -> PaymentTimestamps {
    if b.spec_is_one_bounty_for_many_claimants() || b.spec_is_different_tasks() {
        timestamps_or_default(c.payment_timestamps)
    } else {
        timestamps_or_default(b.postpaid->0->PaymentOutsideContract_payment_timestamps)
    }
}

pub fn internal_get_payment_timestamps(b: &Bounty, c: &BountyClaim) -> (r: PaymentTimestamps)
    requires
        b.wf(),
        b.spec_is_payment_outside_contract(),
    ensures
        r == payment_times(*b, *c),
{
    if b.is_one_bounty_for_many_claimants() || b.is_different_tasks() {
        match c.payment_timestamps {
            Some(t) => t,
            None => PaymentTimestamps::default(),
        }
    } else {
        b.postpaid.as_ref().unwrap().get_payment_timestamps()
    }
}

/// For a bounty paid outside the contract, why its result cannot be decided: a result
/// cannot be rejected once the payment was made, and needs the payment made and
/// confirmed.
pub open spec fn postpaid_error(b: Bounty, c: BountyClaim, approve: bool) -> Option<BountyError> {
    if !b.spec_is_payment_outside_contract() {
        None
    } else if !(payment_times(b, c).payment_at is None || approve) {
        Some(BountyError::PaymentConfirmed)
    } else if !(payment_times(b, c).payment_at is Some && payment_times(b, c).payment_confirmed_at is Some) {
        Some(BountyError::NoPaymentConfirmation)
    } else {
        None
    }
}

impl BountiesContract {
    /// The claimants of bounty `id` whose claim on it has `status`, in the order they claimed.
    pub open spec fn claimants_in_status(&self, id: BountyIndex, status: ClaimStatus) -> Seq<AccountId> {
        self.claimants_of(id).filter(|a: AccountId| self.claim_has_status(a@, id, status))
    }

    pub fn count_claims_in_status(&self, id: BountyIndex, status: ClaimStatus) -> (n: usize)
        requires
            id < self.bounty_claimer_accounts@.len(),
        ensures
            n == self.claimants_in_status(id, status).len(),
    {
        let m = self.bounty_claimer_accounts.len();
        let accounts = &self.bounty_claimer_accounts[id as usize];
        let ghost pred = |a: AccountId| self.claim_has_status(a@, id, status);
        let mut n: usize = 0;
        let mut i: usize = 0;
        while i < accounts.len()
            invariant
                i <= accounts@.len(),
                accounts@ == self.claimants_of(id),
                n == accounts@.subrange(0, i as int).filter(pred).len(),
                n <= i,
                pred == (|a: AccountId| self.claim_has_status(a@, id, status)),
            decreases accounts@.len() - i,
        {
            let a = &accounts[i];
            proof {
                assert(accounts@.subrange(0, i + 1) =~= accounts@.subrange(0, i as int).push(*a));
                accounts@.subrange(0, i as int).lemma_filter_push(*a, pred);
            }
            match self.internal_get_claims(id, a) {
                Ok((claims, k)) => {
                    if claims[k].status == status {
                        proof { assert(pred(*a)); }
                        n = n + 1;
                    } else {
                        proof { assert(!pred(*a)); }
                    }
                },
                Err(_) => {
                    proof { assert(!pred(*a)); }
                },
            }
            i = i + 1;
        }
        proof { assert(accounts@.subrange(0, accounts@.len() as int) =~= accounts@); }
        n
    }

    /// Why the result of `claimer` on bounty `b` (id `id`) cannot be approved at `now`:
    /// a contest is decided after its due date, while it runs, once enough contestants
    /// finished, and, paid outside the contract, only for its winner; a bounty with
    /// subtasks is approved as a whole.
    pub open spec fn multitasking_error(&self, id: BountyIndex, b: Bounty, approve: bool, claimer: Seq<char>, now: u64) -> Option<BountyError> {
        if !approve || b.multitasking is None {
            None
        } else {
            let m = b.multitasking->0;
            match m {
                Multitasking::ContestOrHackathon { successful_claims_for_result, .. } => {
                    if b.deadline is DueDate && now <= b.deadline->due_date {
                        Some(BountyError::DeadlineNotPassed)
                    } else if !m.spec_has_competition_started() {
                        Some(BountyError::CompetitionNotRunning)
                    } else if successful_claims_for_result matches Some(n)
                        && self.claimants_in_status(id, ClaimStatus::Completed).len() < n {
                        Some(BountyError::NotEnoughFinished)
                    } else if b.spec_is_payment_outside_contract() && !(contest_env(m).competition_winner matches Some(w) && w@ == claimer) {
                        Some(BountyError::OnlyWinnerCanBeApproved)
                    } else {
                        None
                    }
                },
                Multitasking::OneForAll { .. } => None,
                Multitasking::DifferentTasks { .. } => Some(BountyError::NotForDifferentTasks),
            }
        }
    }

    pub fn assert_multitasking_requirements(&self, id: BountyIndex, b: &Bounty, approve: bool, claimer: &AccountId, now: u64) -> (r: Result<(), BountyError>)
        requires
            b.wf(),
            id < self.bounty_claimer_accounts@.len(),
        ensures
            r is Err <==> self.multitasking_error(id, *b, approve, claimer@, now) is Some,
            r matches Err(e) ==> self.multitasking_error(id, *b, approve, claimer@, now) == Some(e),
    {
        if !approve {
            return Ok(());
        }
        match &b.multitasking {
            None => Ok(()),
            Some(m) => match m {
                Multitasking::ContestOrHackathon { successful_claims_for_result, .. } => {
                    match b.deadline {
                        Deadline::DueDate { due_date } => {
                            if now <= due_date {
                                return Err(BountyError::DeadlineNotPassed);
                            }
                        },
                        _ => {},
                    }
                    if !m.has_competition_started() {
                        return Err(BountyError::CompetitionNotRunning);
                    }
                    match successful_claims_for_result {
                        Some(n) => {
                            if (self.count_claims_in_status(id, ClaimStatus::Completed) as u128) < (*n as u128) {
                                return Err(BountyError::NotEnoughFinished);
                            }
                        },
                        None => {},
                    }
                    if b.is_payment_outside_contract() {
                        let ok = match m.get_competition_winner() {
                            Some(w) => w == *claimer,
                            None => false,
                        };
                        if !ok {
                            return Err(BountyError::OnlyWinnerCanBeApproved);
                        }
                    }
                    Ok(())
                },
                Multitasking::OneForAll { .. } => Ok(()),
                Multitasking::DifferentTasks { .. } => Err(BountyError::NotForDifferentTasks),
            },
        }
    }

    /// Why bounty `id` cannot be paid to `claimer` now.
    pub open spec fn payout_error(&self, id: BountyIndex, claimer: Option<AccountId>) -> Option<BountyError> {
        if id >= self.bounties@.len() {
            Some(BountyError::BountyNotFound)
        } else {
            let b = self.bounties@[id as int];
            let amounts = payment_amounts(b);
            if has_no_slots(b) {
                Some(BountyError::ArithmeticOverflow)
            } else if self.fees_lock_error(b, amounts.1, amounts.2) is Some {
                self.fees_lock_error(b, amounts.1, amounts.2)
            } else if b.spec_is_payment_outside_contract() || b.spec_is_different_tasks() {
                self.completion_error(id, claimer)
            } else if b.token is None {
                Some(BountyError::InvalidTokenId)
            } else if claimer is None {
                Some(BountyError::ClaimerRequired)
            } else {
                None
            }
        }
    }

    /// The transfer of the payment of bounty `id` to `claimer`, then the completion.
    pub open spec fn payout_transfer(&self, id: BountyIndex, claimer: AccountId) -> Effect {
        let b = self.bounties@[id as int];
        Effect::FtTransfer {
            token_id: b.token->0,
            receiver_id: claimer,
            amount: payment_amounts(b).0,
            then: Callback::AfterFtTransfer { id, claimer: Some(claimer) },
        }
    }

    /// Pays bounty `id` to `claimer`: a bounty paid outside the contract, or with
    /// subtasks, is completed at once; otherwise the reward is transferred and the
    /// bounty is completed when the transfer succeeds.
    pub(crate) fn internal_bounty_payout(&mut self, id: BountyIndex, claimer: Option<AccountId>, now: u64, effects: &mut Vec<Effect>) -> (r: Result<(), BountyError>)
        requires
            old(self).wf(),
        ensures
            final(self).wf(),
            r is Err <==> old(self).payout_error(id, claimer) is Some,
            r matches Err(e) ==> old(self).payout_error(id, claimer) == Some(e)
                && *final(self) == *old(self) && final(effects)@ == old(effects)@,
            r is Ok ==> {
                let b = old(self).bounties@[id as int];
                if b.spec_is_payment_outside_contract() || b.spec_is_different_tasks() {
                    &&& old(self).bounty_completed(&*final(self), id, claimer, now)
                    &&& final(effects)@ == old(effects)@ + old(self).completion_effects(id, claimer)
                } else {
                    &&& *final(self) == *old(self)
                    &&& final(effects)@ == old(effects)@.push(old(self).payout_transfer(id, claimer->0))
                }
            },
    {
        if id >= self.last_bounty_id {
            return Err(BountyError::BountyNotFound);
        }
        let n = self.bounties.len();
        proof { assert(self.bounties@[id as int].wf()); }
        let b = &self.bounties[id as usize];
        let no_slots = match &b.multitasking {
            Some(Multitasking::OneForAll { number_of_slots, .. }) => *number_of_slots == 0,
            _ => false,
        };
        if no_slots {
            return Err(BountyError::ArithmeticOverflow);
        }
        let amounts = internal_get_bounty_amount_for_payment(b);
        self.check_fees_locked(b, amounts.1, amounts.2)?;
        if b.is_payment_outside_contract() || b.is_different_tasks() {
            return self.internal_bounty_completion(id, claimer, now, effects);
        }
        let token = match &b.token {
            Some(t) => t.clone(),
            None => { return Err(BountyError::InvalidTokenId); },
        };
        let receiver = match &claimer {
            Some(a) => a.clone(),
            None => { return Err(BountyError::ClaimerRequired); },
        };
        effects.push(Effect::FtTransfer {
            token_id: token,
            receiver_id: receiver.clone(),
            amount: amounts.0,
            then: Callback::AfterFtTransfer { id, claimer: Some(receiver) },
        });
        Ok(())
    }

    /// The answer to the payout transfer of bounty `id`: when it succeeded, the bounty
    /// is completed; `Ok(false)` when it failed, and nothing changes.
    pub fn after_ft_transfer(&mut self, id: BountyIndex, claimer: Option<AccountId>, success: bool, now: u64) -> (r: Result<(bool, Vec<Effect>), BountyError>)
        requires
            old(self).wf(),
        ensures
            final(self).wf(),
            !success ==> *final(self) == *old(self) && (r matches Ok((false, effects)) && effects@.len() == 0),
            success ==> (r is Err <==> old(self).completion_error(id, claimer) is Some),
            r is Err ==> *final(self) == *old(self),
            success ==> (r matches Err(e) ==> old(self).completion_error(id, claimer) == Some(e)),
            success && r is Ok ==> old(self).bounty_completed(&*final(self), id, claimer, now)
                && (r matches Ok((true, effects)) && effects@ == old(self).completion_effects(id, claimer)),
    {
        let mut effects: Vec<Effect> = Vec::new();
        if !success {
            return Ok((false, effects));
        }
        self.internal_bounty_completion(id, claimer, now, &mut effects)?;
        Ok((true, effects))
    }

    /// Why the result of `receiver` on bounty `id` cannot be rejected now.
    pub open spec fn reject_error(&self, id: BountyIndex, receiver: Seq<char>) -> Option<BountyError> {
        let b = self.bounties@[id as int];
        let c = self.claim_of(receiver, id)->0;
        if self.dispute_contract is Some && !b.spec_is_payment_outside_contract() && !b.spec_is_contest_or_hackathon() {
            None
        } else if reset_blocked(b, c) {
            if b.spec_is_different_tasks() { Some(BountyError::SlotOutOfRange) } else { Some(BountyError::ArithmeticOverflow) }
        } else if !self.bond_movable(c, true) {
            Some(BountyError::ArithmeticOverflow)
        } else {
            None
        }
    }

    /// `other` is this contract once the result of `receiver` on bounty `id` is
    /// rejected at `now`: where a dispute can follow, the claim waits for it; otherwise
    /// the claim is closed as not completed and the bounty reset.
    pub open spec fn claim_rejected(&self, other: &Self, id: BountyIndex, receiver: Seq<char>, now: u64) -> bool {
        let b = self.bounties@[id as int];
        let c = self.claim_of(receiver, id)->0;
        let k = choose|i: int| claim_index(self.claims_of(receiver), id, i);
        if self.dispute_contract is Some && !b.spec_is_payment_outside_contract() && !b.spec_is_contest_or_hackathon() {
            other.saved_claims(self, receiver, self.claims_of(receiver).update(k,
                BountyClaim { status: ClaimStatus::Rejected, rejected_timestamp: Some(now), ..c }))
        } else {
            &&& other.bounties@.len() == self.bounties@.len()
            &&& forall|i: int| 0 <= i < self.bounties@.len() && i != id ==> #[trigger] other.bounties@[i] == self.bounties@[i]
            &&& reset_bounty(b, other.bounties@[id as int], c, now)
            &&& self.claim_closed(other, receiver, k, ClaimStatus::NotCompleted, true)
            &&& *other == (BountiesContract {
                bounties: other.bounties,
                bounty_claimers: other.bounty_claimers,
                locked_amount: other.locked_amount,
                unlocked_amount: other.unlocked_amount,
                ..*self
            })
        }
    }

    /// What a rejection tells and sends, where it closes the claim.
    pub open spec fn reject_effects(&self, id: BountyIndex, receiver: AccountId) -> Seq<Effect> {
        let b = self.bounties@[id as int];
        let c = self.claim_of(receiver@, id)->0;
        if self.dispute_contract is Some && !b.spec_is_payment_outside_contract() && !b.spec_is_contest_or_hackathon() {
            Seq::empty()
        } else {
            self.closure_effects(receiver, b.owner, b.status, c, ClaimStatus::NotCompleted, true)
        }
    }

    /// Rejects the result of the claim at position `k` of `claims`, the claims of
    /// `receiver` on bounty `id`.
    pub(crate) fn internal_reject_claim(&mut self, id: BountyIndex, receiver: &AccountId, claims: Vec<BountyClaim>, k: usize, now: u64, effects: &mut Vec<Effect>) -> (r: Result<(), BountyError>)
        requires
            old(self).wf(),
            id < old(self).bounties@.len(),
            claims@ == old(self).claims_of(receiver@),
            claim_index(claims@, id, k as int),
        ensures
            final(self).wf(),
            r is Err <==> old(self).reject_error(id, receiver@) is Some,
            r matches Err(e) ==> old(self).reject_error(id, receiver@) == Some(e)
                && *final(self) == *old(self) && final(effects)@ == old(effects)@,
            r is Ok ==> old(self).claim_rejected(&*final(self), id, receiver@, now),
            r is Ok ==> final(effects)@ == old(effects)@ + old(self).reject_effects(id, *receiver),
    {
        let ghost s0 = *self;
        proof {
            lemma_claim_in(claims@, id, k as int);
            lemma_claim_index_unique(s0.claims_of(receiver@), id, k as int);
        }
        let n = self.bounties.len();
        proof { assert(self.bounties@[id as int].wf()); }
        let b = &self.bounties[id as usize];
        if self.dispute_contract.is_some() && !b.is_payment_outside_contract() && !b.is_contest_or_hackathon() {
            let mut claims = claims;
            let mut c = claims[k].copy();
            c.status = ClaimStatus::Rejected;
            c.rejected_timestamp = Some(now);
            claims.set(k, c);
            self.internal_save_claims(receiver, claims);
            proof { assert(effects@ =~= old(effects)@ + Seq::<Effect>::empty()); }
            return Ok(());
        }
        let blocked = match &b.multitasking {
            Some(Multitasking::ContestOrHackathon { .. }) => match &b.multitasking {
                Some(m) => m.get_participants() == 0,
                None => false,
            },
            Some(Multitasking::OneForAll { runtime_env: Some(env), .. }) => env.occupied_slots == 0,
            Some(Multitasking::DifferentTasks { runtime_env: Some(env), .. }) => match claims[k].slot {
                Some(s) => s >= env.participants.len(),
                None => true,
            },
            _ => false,
        };
        if blocked {
            return Err(if b.is_different_tasks() { BountyError::SlotOutOfRange } else { BountyError::ArithmeticOverflow });
        }
        let amount = match claims[k].bond {
            Some(x) => x,
            None => super::types::DEFAULT_BOUNTY_CLAIM_BOND,
        };
        if self.locked_amount < amount {
            return Err(BountyError::ArithmeticOverflow);
        }
        self.internal_reset_bounty_to_initial_state(id, receiver, claims, k, None, true, now, effects);
        Ok(())
    }

    /// The first reason why `ctx` cannot take `action` on bounty `id`, before the payout,
    /// rejection or finalization itself.
    pub open spec fn action_error(&self, ctx: CallContext, id: BountyIndex, action: BountyAction) -> Option<BountyError> {
        let now = ctx.block_timestamp;
        if self.status != ContractStatus::Live {
            Some(BountyError::NotLive)
        } else if ctx.attached_deposit != 1 {
            Some(BountyError::OneYoctoRequired)
        } else if id >= self.bounties@.len() {
            Some(BountyError::BountyNotFound)
        } else {
            let b = self.bounties@[id as int];
            match action {
                BountyAction::Finalize { receiver_id: Some(_) } => None,
                _ => if !(b.status == BountyStatus::Claimed || b.status == BountyStatus::ManyClaimed) {
                    Some(BountyError::BountyStatusForAction)
                } else {
                    match action {
                        BountyAction::ClaimApproved { receiver_id } => self.verdict_error(id, b, receiver_id@, true, ctx),
                        BountyAction::ClaimRejected { receiver_id } => self.verdict_error(id, b, receiver_id@, false, ctx),
                        BountyAction::SeveralClaimsApproved => {
                            if b.spec_check_access_rights(ctx.predecessor@) is Err {
                                Some(b.spec_check_access_rights(ctx.predecessor@)->Err_0)
                            } else if !b.spec_is_different_tasks() {
                                Some(BountyError::NotDifferentTasks)
                            } else if !b.multitasking->0.spec_are_all_slots_complete(None) {
                                Some(BountyError::NotAllSlotsComplete)
                            } else if b.spec_is_payment_outside_contract() && !(forall|i: int| 0 <= i < slots(b.multitasking->0).len()
                                ==> (#[trigger] slots(b.multitasking->0)[i]) is Some && slots(b.multitasking->0)[i]->0.confirmed) {
                                Some(BountyError::NotAllSlotsConfirmed)
                            } else {
                                None
                            }
                        },
                        _ => None,
                    }
                },
            }
        }
    }

    /// Why the verdict on the result of `receiver` on bounty `b` (id `id`) cannot be given.
    pub open spec fn verdict_error(&self, id: BountyIndex, b: Bounty, receiver: Seq<char>, approve: bool, ctx: CallContext) -> Option<BountyError> {
        if b.spec_check_access_rights(ctx.predecessor@) is Err {
            Some(b.spec_check_access_rights(ctx.predecessor@)->Err_0)
        } else if self.claim_of(receiver, id) is None {
            if self.bounty_claimers@.contains_key(receiver) { Some(BountyError::NoClaim) } else { Some(BountyError::NoClaimer) }
        } else if self.claim_of(receiver, id)->0.status != ClaimStatus::Completed {
            Some(BountyError::ClaimStatusForAction)
        } else if postpaid_error(b, self.claim_of(receiver, id)->0, approve) is Some {
            postpaid_error(b, self.claim_of(receiver, id)->0, approve)
        } else if self.multitasking_error(id, b, approve, receiver, ctx.block_timestamp) is Some {
            self.multitasking_error(id, b, approve, receiver, ctx.block_timestamp)
        } else {
            None
        }
    }

    /// The approvers of bounty `id` (or its owner) act on it: they approve the result
    /// of a claim, which pays it out; reject it; approve the results of all subtasks;
    /// or finalize a claim left open.
    pub fn bounty_action(&mut self, ctx: &CallContext, id: BountyIndex, action: BountyAction) -> (r: Result<Vec<Effect>, BountyError>)
        requires
            old(self).wf(),
        ensures
            final(self).wf(),
            r is Err ==> *final(self) == *old(self),
            old(self).action_error(*ctx, id, action) matches Some(e) ==> r == Err::<Vec<Effect>, BountyError>(e),
            action matches BountyAction::ClaimApproved { receiver_id } ==> old(self).action_error(*ctx, id, action) is None ==> {
                    let b = old(self).bounties@[id as int];
                    &&& r is Err <==> old(self).payout_error(id, Some(receiver_id)) is Some
                    &&& r matches Err(e) ==> old(self).payout_error(id, Some(receiver_id)) == Some(e)
                    &&& r matches Ok(effects) ==> if b.spec_is_payment_outside_contract() || b.spec_is_different_tasks() {
                        old(self).bounty_completed(&*final(self), id, Some(receiver_id), ctx.block_timestamp)
                            && effects@ == old(self).completion_effects(id, Some(receiver_id))
                    } else {
                        *final(self) == *old(self) && effects@ == seq![old(self).payout_transfer(id, receiver_id)]
                    }
            },
            action matches BountyAction::ClaimRejected { receiver_id } ==> old(self).action_error(*ctx, id, action) is None ==> {
                    &&& r is Err <==> old(self).reject_error(id, receiver_id@) is Some
                    &&& r matches Err(e) ==> old(self).reject_error(id, receiver_id@) == Some(e)
                    &&& r matches Ok(effects) ==> old(self).claim_rejected(&*final(self), id, receiver_id@, ctx.block_timestamp)
                        && effects@ == old(self).reject_effects(id, receiver_id)
            },
            action matches BountyAction::SeveralClaimsApproved ==> old(self).action_error(*ctx, id, action) is None ==> {
                    &&& r is Err <==> old(self).payout_error(id, None) is Some
                    &&& r matches Err(e) ==> old(self).payout_error(id, None) == Some(e)
                    &&& r matches Ok(effects) ==> old(self).bounty_completed(&*final(self), id, None, ctx.block_timestamp)
                        && effects@ == old(self).completion_effects(id, None)
            },
            action matches BountyAction::Finalize { receiver_id: Some(receiver) } ==> old(self).action_error(*ctx, id, action) is None ==> {
                    let b = old(self).bounties@[id as int];
                    let c = old(self).claim_of(receiver@, id)->0;
                    let k = choose|i: int| claim_index(old(self).claims_of(receiver@), id, i);
                    let active = if b.multitasking is Some { old(self).active_case(b, c, ctx.block_timestamp) } else { None };
                    if old(self).claim_of(receiver@, id) is None {
                        r == Err::<Vec<Effect>, BountyError>(
                            if old(self).bounty_claimers@.contains_key(receiver@) { BountyError::NoClaim } else { BountyError::NoClaimer })
                    } else {
                        match active {
                            Some(Err(e)) => r == Err::<Vec<Effect>, BountyError>(e),
                            Some(Ok(n)) => r matches Ok(effects)
                                && old(self).active_finalized(&*final(self), effects@, id, receiver, k, n, ctx.block_timestamp),
                            None => match old(self).ended_case(b, c) {
                                Err(e) => r == Err::<Vec<Effect>, BountyError>(e),
                                Ok(n) => r matches Ok(effects) && old(self).ended_finalized(&*final(self), effects@, id, receiver, k, n),
                            },
                        }
                    }
            },
            action matches BountyAction::Finalize { receiver_id: None } ==> old(self).action_error(*ctx, id, action) is None ==> {
                    let b = old(self).bounties@[id as int];
                    (b.spec_is_contest_or_hackathon() || b.spec_is_one_bounty_for_many_claimants())
                        ==> r == Err::<Vec<Effect>, BountyError>(BountyError::NotSubjectToFinalization)
            },
            action matches BountyAction::Finalize { receiver_id: None } ==> old(self).action_error(*ctx, id, action) is None ==> {
                    let b = old(self).bounties@[id as int];
                    b.spec_is_different_tasks() ==> if b.status == BountyStatus::ManyClaimed
                        && b.multitasking->0.spec_are_all_slots_complete(None)
                        && b.multitasking->0->DifferentTasks_runtime_env->0.bounty_payout_proposal_id is Some
                        && b.spec_is_validators_dao_used() {
                        *final(self) == *old(self) && (r matches Ok(effects) && effects@ == seq![super::finalize::payout_proposal_query(b, id, None,
                            b.multitasking->0->DifferentTasks_runtime_env->0.bounty_payout_proposal_id->0)])
                    } else {
                        r == Err::<Vec<Effect>, BountyError>(BountyError::NotSubjectToFinalization)
                    }
            },
            action matches BountyAction::Finalize { receiver_id: None } ==> old(self).action_error(*ctx, id, action) is None ==> {
                    let b = old(self).bounties@[id as int];
                    b.multitasking is None ==> match old(self).first_active_from(id, 0) {
                        Err(e) => r == Err::<Vec<Effect>, BountyError>(e),
                        Ok(a) => {
                            let k = choose|i: int| claim_index(old(self).claims_of(a@), id, i);
                            match old(self).active_case(b, old(self).claims_of(a@)[k], ctx.block_timestamp) {
                                None => r == Err::<Vec<Effect>, BountyError>(BountyError::NotSubjectToFinalization),
                                Some(Err(e)) => r == Err::<Vec<Effect>, BountyError>(e),
                                Some(Ok(n)) => r matches Ok(effects)
                                    && old(self).active_finalized(&*final(self), effects@, id, a, k, n, ctx.block_timestamp),
                            }
                        },
                    }
            },
    {
        self.assert_live()?;
        if ctx.attached_deposit != 1 {
            return Err(BountyError::OneYoctoRequired);
        }
        if id >= self.last_bounty_id {
            return Err(BountyError::BountyNotFound);
        }
        let now = ctx.block_timestamp;
        let n = self.bounties.len();
        proof { assert(self.bounties@[id as int].wf()); }
        match action {
            BountyAction::Finalize { receiver_id: Some(receiver) } => {
                return self.internal_finalize_some_claim(id, &receiver, now);
            },
            _ => {},
        }
        let st = self.bounties[id as usize].status;
        if !(st == BountyStatus::Claimed || st == BountyStatus::ManyClaimed) {
            return Err(BountyError::BountyStatusForAction);
        }
        let mut effects: Vec<Effect> = Vec::new();
        match action {
            BountyAction::ClaimApproved { receiver_id } => {
                let claims_k = self.check_verdict(id, &receiver_id, true, ctx)?;
                self.internal_bounty_payout(id, Some(receiver_id), now, &mut effects)?;
                Ok(effects)
            },
            BountyAction::ClaimRejected { receiver_id } => {
                let (claims, k) = self.check_verdict(id, &receiver_id, false, ctx)?;
                self.internal_reject_claim(id, &receiver_id, claims, k, now, &mut effects)?;
                Ok(effects)
            },
            BountyAction::SeveralClaimsApproved => {
                let b = &self.bounties[id as usize];
                b.check_access_rights(&ctx.predecessor)?;
                if !b.is_different_tasks() {
                    return Err(BountyError::NotDifferentTasks);
                }
                let m = b.multitasking.as_ref().unwrap();
                if !m.are_all_slots_complete(None) {
                    return Err(BountyError::NotAllSlotsComplete);
                }
                if b.is_payment_outside_contract() && !m.are_all_slots_confirmed() {
                    return Err(BountyError::NotAllSlotsConfirmed);
                }
                self.internal_bounty_payout(id, None, now, &mut effects)?;
                Ok(effects)
            },
            BountyAction::Finalize { .. } => {
                let b = &self.bounties[id as usize];
                if b.multitasking.is_none() {
                    let (a, claims, k) = self.internal_find_active_claim(id)?;
                    let ghost ca = claims@;
                    proof { lemma_claim_index_unique(ca, id, k as int); }
                    match self.internal_finalize_active_claim(id, &a, claims, k, now)? {
                        Some(e) => Ok(e),
                        None => Err(BountyError::NotSubjectToFinalization),
                    }
                } else if b.is_different_tasks() {
                    let m = b.multitasking.as_ref().unwrap();
                    let payout = match m {
                        Multitasking::DifferentTasks { runtime_env: Some(e), .. } => e.bounty_payout_proposal_id,
                        _ => None,
                    };
                    if st == BountyStatus::ManyClaimed && m.are_all_slots_complete(None) && payout.is_some() && b.is_validators_dao_used() {
                        let dao = match &b.reviewers {
                            Some(super::types::Reviewers::ValidatorsDao { validators_dao }) => validators_dao.account_id.clone(),
                            _ => {
                                proof { assert(false); }
                                unreached()
                            },
                        };
                        let proposal_id = payout.unwrap();
                        effects.push(Effect::GetProposal {
                            dao,
                            proposal_id,
                            then: Callback::AfterCheckBountyPayoutProposal { id, receiver_id: None, proposal_id },
                        });
                        proof { assert(effects@ =~= seq![super::finalize::payout_proposal_query(*b, id, None, proposal_id)]); }
                        Ok(effects)
                    } else {
                        Err(BountyError::NotSubjectToFinalization)
                    }
                } else {
                    Err(BountyError::NotSubjectToFinalization)
                }
            },
        }
    }

    /// Checks that the verdict on the result of `receiver` on bounty `id` can be given
    /// by `ctx`, and finds the claim.
    pub(crate) fn check_verdict(&self, id: BountyIndex, receiver: &AccountId, approve: bool, ctx: &CallContext) -> (r: Result<(Vec<BountyClaim>, usize), BountyError>)
        requires
            self.wf(),
            id < self.bounties@.len(),
        ensures
            r is Err <==> self.verdict_error(id, self.bounties@[id as int], receiver@, approve, *ctx) is Some,
            r matches Err(e) ==> self.verdict_error(id, self.bounties@[id as int], receiver@, approve, *ctx) == Some(e),
            r matches Ok((claims, k)) ==> claims@ == self.claims_of(receiver@) && claim_index(claims@, id, k as int),
    {
        let n = self.bounties.len();
        proof { assert(self.bounties@[id as int].wf()); }
        let b = &self.bounties[id as usize];
        b.check_access_rights(&ctx.predecessor)?;
        let (claims, k) = self.internal_get_claims(id, receiver)?;
        if claims[k].status != ClaimStatus::Completed {
            return Err(BountyError::ClaimStatusForAction);
        }
        if b.is_payment_outside_contract() {
            let ts = internal_get_payment_timestamps(b, &claims[k]);
            if !(ts.payment_at.is_none() || approve) {
                return Err(BountyError::PaymentConfirmed);
            }
            if !(ts.payment_at.is_some() && ts.payment_confirmed_at.is_some()) {
                return Err(BountyError::NoPaymentConfirmation);
            }
        }
        self.assert_multitasking_requirements(id, b, approve, receiver, ctx.block_timestamp)?;
        Ok((claims, k))
    }
}

} // verus!
