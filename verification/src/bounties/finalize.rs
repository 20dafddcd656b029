//! Finalizing claims that are left open: expired work, results the validators DAO or a
//! dispute decided, rejections no dispute followed, and claims on bounties that ended.
use vstd::prelude::*;
use crate::accounts::AccountId;
use super::types::{BountyIndex, BountyStatus, ClaimStatus, Reviewers};
use super::multitasking::{Multitasking, contest_env, one_for_all_env, slots};
use super::bounty::Bounty;
use super::claim::BountyClaim;
use super::claims::{claim_index, bond_of, lemma_claim_in, copy_claims, lemma_claim_index_unique};
use super::closure::{reset_blocked, reset_bounty, closing_status};
use super::work::{start_time_known, left_bounty};
use super::errors::BountyError;
use super::effects::{Callback, Effect};
use super::contract::BountiesContract;

verus! {

/// The bounty takes decisions on results: a claim is running or a contest has ended.
pub open spec fn deciding(b: Bounty) -> bool {
    b.status == BountyStatus::Claimed || b.status == BountyStatus::ManyClaimed
}

/// The work on claim `c` ran, its time may be over.
pub open spec fn may_expire(b: Bounty, c: BountyClaim) -> bool {
    (c.status == ClaimStatus::InProgress || c.status == ClaimStatus::Competes)
        && (deciding(b) || b.status == BountyStatus::Completed && b.spec_is_contest_or_hackathon())
}

/// A payout proposal of the validators DAO waits for its outcome.
pub open spec fn payout_pending(b: Bounty, c: BountyClaim) -> bool {
    let different = b.spec_is_different_tasks();
    (c.status == ClaimStatus::Completed && !different
        || different && b.multitasking->0.spec_are_all_slots_complete(None)
        && b.multitasking->0->DifferentTasks_runtime_env->0.bounty_payout_proposal_id is Some)
        && deciding(b) && b.spec_is_validators_dao_used()
}

/// The payout proposal of a bounty with subtasks, or of one claim.
pub open spec fn payout_proposal(b: Bounty, c: BountyClaim) -> Option<u64> {
    if b.spec_is_different_tasks() {
        b.multitasking->0->DifferentTasks_runtime_env->0.bounty_payout_proposal_id
    } else {
        c.bounty_payout_proposal_id
    }
}

/// The query of the payout proposal `proposal_id` of bounty `id` at its validators DAO.
pub open spec fn payout_proposal_query(b: Bounty, id: BountyIndex, receiver: Option<AccountId>, proposal_id: u64) -> Effect {
    Effect::GetProposal {
        dao: b.reviewers->0->ValidatorsDao_validators_dao.account_id,
        proposal_id,
        then: Callback::AfterCheckBountyPayoutProposal { id, receiver_id: receiver, proposal_id },
    }
}

/// `r` is bounty `b` once the claim `c` leaves it after the bounty ended: a contest counts
/// one participant less, a bounty with slots frees a slot, a subtask is freed.
pub open spec fn freed_bounty(b: Bounty, r: Bounty, c: BountyClaim) -> bool {
    let m = b.multitasking->0;
    let rm = r.multitasking->0;
    &&& r == Bounty { multitasking: r.multitasking, ..b }
    &&& r.multitasking is Some
    &&& match m {
        Multitasking::ContestOrHackathon { allowed_create_claim_to, successful_claims_for_result, start_conditions, .. } => {
            &&& rm is ContestOrHackathon
            &&& rm->ContestOrHackathon_allowed_create_claim_to == allowed_create_claim_to
            &&& rm->ContestOrHackathon_successful_claims_for_result == successful_claims_for_result
            &&& rm->ContestOrHackathon_start_conditions == start_conditions
            &&& contest_env(rm) == (super::types::ContestOrHackathonEnv {
                participants: (contest_env(m).participants - 1) as u32,
                ..contest_env(m)
            })
        },
        Multitasking::OneForAll { number_of_slots, amount_per_slot, min_slots_to_start, .. } => {
            &&& rm is OneForAll
            &&& rm->OneForAll_number_of_slots == number_of_slots
            &&& rm->OneForAll_amount_per_slot == amount_per_slot
            &&& rm->OneForAll_min_slots_to_start == min_slots_to_start
            &&& one_for_all_env(rm) == (super::types::OneForAllEnv {
                occupied_slots: (one_for_all_env(m).occupied_slots - 1) as u16,
                ..one_for_all_env(m)
            })
        },
        Multitasking::DifferentTasks { subtasks, runtime_env } => {
            &&& rm is DifferentTasks
            &&& rm->DifferentTasks_subtasks == subtasks
            &&& slots(rm) == slots(m).update(c.slot->0 as int, None)
            &&& rm->DifferentTasks_runtime_env->0.bounty_payout_proposal_id == runtime_env->0.bounty_payout_proposal_id
        },
    }
}

impl BountiesContract {
    /// The time to open a dispute on the rejected claim `c` is over at `now`.
    pub open spec fn dispute_window_over(&self, c: BountyClaim, now: u64) -> bool {
        now > c.rejected_timestamp->0 + self.config.period_for_opening_dispute
    }

    /// What finalizing the open claim `c` of `receiver` on bounty `b` (id `id`) at
    /// `now` does, by the first case that applies: `Some(Err(..))` where it cannot,
    /// `None` where no case applies.
    ///   1: the work ran out of time: the claim expires.
    ///   2: a payout proposal waits: the validators DAO is asked about it.
    ///   3: a rejected claim was not disputed in time: it is closed.
    ///   4: a dispute runs: the dispute contract is asked about it.
    pub open spec fn active_case(&self, b: Bounty, c: BountyClaim, now: u64) -> Option<Result<u8, BountyError>> {
        if may_expire(b, c) && !c.has_start_time(b) {
            Some(Err(BountyError::ClaimNotStarted))
        } else if may_expire(b, c) && c.spec_is_claim_expired(b, now) {
            if reset_blocked(b, c) {
                Some(Err(if b.spec_is_different_tasks() { BountyError::SlotOutOfRange } else { BountyError::ArithmeticOverflow }))
            } else if !self.bond_movable(c, false) {
                Some(Err(BountyError::ArithmeticOverflow))
            } else {
                Some(Ok(1))
            }
        } else if payout_pending(b, c) {
            if payout_proposal(b, c) is None { Some(Err(BountyError::ProposalMismatch)) } else { Some(Ok(2)) }
        } else if c.status == ClaimStatus::Rejected && deciding(b) && c.rejected_timestamp is None {
            Some(Err(BountyError::ClaimStatusForAction))
        } else if c.status == ClaimStatus::Rejected && deciding(b) && self.dispute_window_over(c, now) {
            if reset_blocked(b, c) {
                Some(Err(if b.spec_is_different_tasks() { BountyError::SlotOutOfRange } else { BountyError::ArithmeticOverflow }))
            } else if !self.bond_movable(c, true) {
                Some(Err(BountyError::ArithmeticOverflow))
            } else {
                Some(Ok(3))
            }
        } else if c.status == ClaimStatus::Disputed && deciding(b) {
            if self.dispute_contract is None || c.dispute_id is None {
                Some(Err(BountyError::DisputesNotSupported))
            } else {
                Some(Ok(4))
            }
        } else {
            None
        }
    }

    /// The query of the dispute on the claim `c` of `receiver` on bounty `id`.
    pub open spec fn dispute_query(&self, id: BountyIndex, receiver: AccountId, c: BountyClaim) -> Effect {
        Effect::GetDispute {
            dispute_contract: self.dispute_contract->0,
            dispute_id: c.dispute_id->0,
            then: Callback::AfterGetDispute { id, claimer: receiver },
        }
    }

    /// `other`, with `effects`, is this contract once the claim at position `k` of the
    /// claims of `receiver` on bounty `id` is finalized at `now` by case `case` of
    /// `active_case`.
    pub open spec fn active_finalized(&self, other: &Self, effects: Seq<Effect>, id: BountyIndex, receiver: AccountId, k: int, case: u8, now: u64) -> bool {
        let b = self.bounties@[id as int];
        let c = self.claims_of(receiver@)[k];
        if case == 1 || case == 3 {
            let status = if case == 1 { ClaimStatus::Expired } else { ClaimStatus::NotCompleted };
            &&& other.bounties@.len() == self.bounties@.len()
            &&& forall|i: int| 0 <= i < self.bounties@.len() && i != id ==> #[trigger] other.bounties@[i] == self.bounties@[i]
            &&& reset_bounty(b, other.bounties@[id as int], c, now)
            &&& self.claim_closed(other, receiver@, k, status, case == 3)
            &&& *other == (BountiesContract {
                bounties: other.bounties,
                bounty_claimers: other.bounty_claimers,
                locked_amount: other.locked_amount,
                unlocked_amount: other.unlocked_amount,
                ..*self
            })
            &&& effects == self.closure_effects(receiver, b.owner, b.status, c, status, case == 3)
        } else if case == 2 {
            &&& *other == *self
            &&& effects == seq![payout_proposal_query(b, id,
                if b.spec_is_different_tasks() { None } else { Some(receiver) }, payout_proposal(b, c)->0)]
        } else {
            &&& *other == *self
            &&& effects == seq![self.dispute_query(id, receiver, c)]
        }
    }

    /// Finalizes the open claim at position `k` of `claims`, the claims of `receiver`
    /// on bounty `id`, by the first case of `active_case` that applies; `Ok(None)`
    /// where none applies, and nothing changes.
    pub(crate) fn internal_finalize_active_claim(&mut self, id: BountyIndex, receiver: &AccountId, claims: Vec<BountyClaim>, k: usize, now: u64) -> (r: Result<Option<Vec<Effect>>, BountyError>)
        requires
            old(self).wf(),
            id < old(self).bounties@.len(),
            claims@ == old(self).claims_of(receiver@),
            claim_index(claims@, id, k as int),
        ensures
            final(self).wf(),
            ({
                let case = old(self).active_case(old(self).bounties@[id as int], claims@[k as int], now);
                &&& case is None ==> r == Ok::<Option<Vec<Effect>>, BountyError>(None) && *final(self) == *old(self)
                &&& case matches Some(Err(e)) ==> r == Err::<Option<Vec<Effect>>, BountyError>(e) && *final(self) == *old(self)
                &&& case matches Some(Ok(n)) ==> (r matches Ok(Some(effects))
                    && old(self).active_finalized(&*final(self), effects@, id, *receiver, k as int, n, now))
            }),
    {
        let n = self.bounties.len();
        proof { assert(self.bounties@[id as int].wf()); }
        let b = &self.bounties[id as usize];
        let c = &claims[k];
        let st = b.status;
        let deciding = st == BountyStatus::Claimed || st == BountyStatus::ManyClaimed;
        let different = b.is_different_tasks();
        let amount = match c.bond {
            Some(x) => x,
            None => super::types::DEFAULT_BOUNTY_CLAIM_BOND,
        };
        let blocked = match &b.multitasking {
            Some(Multitasking::ContestOrHackathon { .. }) => match &b.multitasking {
                Some(m) => m.get_participants() == 0,
                None => false,
            },
            Some(Multitasking::OneForAll { runtime_env: Some(env), .. }) => env.occupied_slots == 0,
            Some(Multitasking::DifferentTasks { runtime_env: Some(env), .. }) => match c.slot {
                Some(s) => s >= env.participants.len(),
                None => true,
            },
            _ => false,
        };
        let blocked_err = if different { BountyError::SlotOutOfRange } else { BountyError::ArithmeticOverflow };
        let may_expire = (c.status == ClaimStatus::InProgress || c.status == ClaimStatus::Competes)
            && (deciding || st == BountyStatus::Completed && b.is_contest_or_hackathon());
        if may_expire {
            if !start_time_known(c, b) {
                return Err(BountyError::ClaimNotStarted);
            }
            if c.is_claim_expired(b, now) {
                if blocked {
                    return Err(blocked_err);
                }
                if self.locked_amount < amount || self.unlocked_amount > u128::MAX - amount {
                    return Err(BountyError::ArithmeticOverflow);
                }
                let mut effects: Vec<Effect> = Vec::new();
                self.internal_reset_bounty_to_initial_state(id, receiver, claims, k, Some(ClaimStatus::Expired), false, now, &mut effects);
                return Ok(Some(effects));
            }
        }
        let all_complete_with_payout = different && {
            let m = b.multitasking.as_ref().unwrap();
            let has_payout = match m {
                Multitasking::DifferentTasks { runtime_env: Some(e), .. } => e.bounty_payout_proposal_id.is_some(),
                _ => false,
            };
            m.are_all_slots_complete(None) && has_payout
        };
        if (c.status == ClaimStatus::Completed && !different || all_complete_with_payout) && deciding && b.is_validators_dao_used() {
            let proposal = if different {
                match &b.multitasking {
                    Some(Multitasking::DifferentTasks { runtime_env: Some(e), .. }) => e.bounty_payout_proposal_id,
                    _ => None,
                }
            } else {
                c.bounty_payout_proposal_id
            };
            let proposal_id = match proposal {
                Some(p) => p,
                None => { return Err(BountyError::ProposalMismatch); },
            };
            let dao = match &b.reviewers {
                Some(Reviewers::ValidatorsDao { validators_dao }) => validators_dao.account_id.clone(),
                _ => {
                    proof { assert(false); }
                    unreached()
                },
            };
            let receiver_id = if different { None } else { Some(receiver.clone()) };
            let mut effects: Vec<Effect> = Vec::new();
            effects.push(Effect::GetProposal {
                dao,
                proposal_id,
                then: Callback::AfterCheckBountyPayoutProposal { id, receiver_id, proposal_id },
            });
            proof { assert(effects@ =~= seq![payout_proposal_query(*b, id, receiver_id, proposal_id)]); }
            return Ok(Some(effects));
        }
        if c.status == ClaimStatus::Rejected && deciding {
            let rejected = match c.rejected_timestamp {
                Some(t) => t,
                None => { return Err(BountyError::ClaimStatusForAction); },
            };
            if now as u128 > rejected as u128 + self.config.period_for_opening_dispute as u128 {
                if blocked {
                    return Err(blocked_err);
                }
                if self.locked_amount < amount {
                    return Err(BountyError::ArithmeticOverflow);
                }
                let mut effects: Vec<Effect> = Vec::new();
                self.internal_reset_bounty_to_initial_state(id, receiver, claims, k, None, true, now, &mut effects);
                return Ok(Some(effects));
            }
        }
        if c.status == ClaimStatus::Disputed && deciding {
            let contract = match &self.dispute_contract {
                Some(d) => d.clone(),
                None => { return Err(BountyError::DisputesNotSupported); },
            };
            let dispute_id = match c.dispute_id {
                Some(d) => d,
                None => { return Err(BountyError::DisputesNotSupported); },
            };
            let mut effects: Vec<Effect> = Vec::new();
            effects.push(Effect::GetDispute {
                dispute_contract: contract,
                dispute_id,
                then: Callback::AfterGetDispute { id, claimer: receiver.clone() },
            });
            proof { assert(effects@ =~= seq![self.dispute_query(id, *receiver, *c)]); }
            return Ok(Some(effects));
        }
        Ok(None)
    }

    /// The claim of a listed claimant is active: in progress, done, rejected or disputed.
    pub open spec fn is_active(c: BountyClaim) -> bool {
        c.status == ClaimStatus::InProgress || c.status == ClaimStatus::Completed
            || c.status == ClaimStatus::Rejected || c.status == ClaimStatus::Disputed
    }

    /// The claimants of bounty `id` before position `j` all have a claim on it, none active.
    pub open spec fn none_active_before(&self, id: BountyIndex, j: int) -> bool {
        forall|i: int| 0 <= i < j ==> {
            let c = #[trigger] self.claim_of(self.claimants_of(id)[i]@, id);
            c is Some && !Self::is_active(c->0)
        }
    }

    /// The search, from position `i` of the claimants of bounty `id`, for the first
    /// whose claim is active: refused at the first listed claimant without a claim on
    /// the bounty, or when none is active.
    pub open spec fn first_active_from(&self, id: BountyIndex, i: int) -> Result<AccountId, BountyError>
        decreases self.claimants_of(id).len() - i,
    {
        if i < 0 || i >= self.claimants_of(id).len() {
            Err(BountyError::NoActiveClaims)
        } else {
            let a = self.claimants_of(id)[i];
            match self.claim_of(a@, id) {
                None => Err(if self.bounty_claimers@.contains_key(a@) { BountyError::NoClaim } else { BountyError::NoClaimer }),
                Some(c) => if Self::is_active(c) { Ok(a) } else { self.first_active_from(id, i + 1) },
            }
        }
    }

    /// Finds the first listed claimant of bounty `id` whose claim is active; refused
    /// where a listed claimant has no claim before one is found, or none is active.
    pub fn internal_find_active_claim(&self, id: BountyIndex) -> (r: Result<(AccountId, Vec<BountyClaim>, usize), BountyError>)
        requires
            id < self.bounty_claimer_accounts@.len(),
        ensures
            r matches Ok((a, claims, k)) ==> exists|j: int| 0 <= j < self.claimants_of(id).len()
                && self.claimants_of(id)[j] == a && self.none_active_before(id, j)
                && claims@ == self.claims_of(a@) && claim_index(claims@, id, k as int)
                && Self::is_active(claims@[k as int]),
            r matches Err(e) ==> (e == BountyError::NoActiveClaims && self.none_active_before(id, self.claimants_of(id).len() as int))
                || ((e == BountyError::NoClaim || e == BountyError::NoClaimer) && exists|j: int| 0 <= j < self.claimants_of(id).len()
                    && self.none_active_before(id, j) && self.claim_of(self.claimants_of(id)[j]@, id) is None),
            r matches Ok((a, claims, k)) ==> self.first_active_from(id, 0) == Ok::<AccountId, BountyError>(a),
            r matches Err(e) ==> self.first_active_from(id, 0) == Err::<AccountId, BountyError>(e),
    {
        let m = self.bounty_claimer_accounts.len();
        let accounts = &self.bounty_claimer_accounts[id as usize];
        let mut i: usize = 0;
        while i < accounts.len()
            invariant
                i <= accounts@.len(),
                accounts@ == self.claimants_of(id),
                self.none_active_before(id, i as int),
                self.first_active_from(id, 0) == self.first_active_from(id, i as int),
            decreases accounts@.len() - i,
        {
            let a = &accounts[i];
            let (claims, k) = match self.internal_get_claims(id, a) {
                Ok(x) => x,
                Err(e) => {
                    proof { assert(self.claim_of(self.claimants_of(id)[i as int]@, id) is None); }
                    return Err(e);
                },
            };
            let st = claims[k].status;
            if st == ClaimStatus::InProgress || st == ClaimStatus::Completed || st == ClaimStatus::Rejected || st == ClaimStatus::Disputed {
                return Ok((a.clone(), claims, k));
            }
            proof {
                assert forall|j: int| 0 <= j < i + 1 implies {
                    let c = #[trigger] self.claim_of(self.claimants_of(id)[j]@, id);
                    c is Some && !Self::is_active(c->0)
                } by {
                    if j < i {
                        assert(self.none_active_before(id, i as int));
                    }
                }
            }
            i = i + 1;
        }
        Err(BountyError::NoActiveClaims)
    }

    /// What finalizing the claim `c` on bounty `b` does once no case of `active_case`
    /// applied, by the first case that applies:
    ///   5: a claimant waits for the validators DAO: the DAO is asked about its proposal.
    ///   6: the bounty ended before the claimant was approved: the claim is canceled.
    ///   7: the contest ended, or the bounty for several claimants was canceled, while
    ///      the claimant took part or waited: the claim is closed and leaves the bounty.
    pub open spec fn ended_case(&self, b: Bounty, c: BountyClaim) -> Result<u8, BountyError> {
        if c.status == ClaimStatus::New && b.status == BountyStatus::New && b.spec_is_validators_dao_used() {
            if c.approve_claimer_proposal_id is None { Err(BountyError::ProposalMismatch) } else { Ok(5) }
        } else if c.status == ClaimStatus::New && (b.status == BountyStatus::Completed
            || b.status == BountyStatus::Canceled || b.status == BountyStatus::PartiallyCompleted) {
            if !self.bond_movable(c, true) { Err(BountyError::ArithmeticOverflow) } else { Ok(6) }
        } else if (b.status == BountyStatus::Completed || b.status == BountyStatus::Canceled)
            && (c.status == ClaimStatus::Competes || c.status == ClaimStatus::Completed) && b.spec_is_contest_or_hackathon()
            || b.status == BountyStatus::Canceled && c.status == ClaimStatus::ReadyToStart
            && (b.spec_is_one_bounty_for_many_claimants() || b.spec_is_different_tasks()) {
            if reset_blocked(b, c) {
                Err(if b.spec_is_different_tasks() { BountyError::SlotOutOfRange } else { BountyError::ArithmeticOverflow })
            } else if !self.bond_movable(c, true) {
                Err(BountyError::ArithmeticOverflow)
            } else {
                Ok(7)
            }
        } else {
            Err(BountyError::NotSubjectToFinalization)
        }
    }

    /// The query of the proposal of the validators DAO of `b` to approve `claimer`.
    pub open spec fn approve_claimer_query(b: Bounty, id: BountyIndex, claimer: AccountId, proposal_id: u64) -> Effect {
        Effect::GetProposal {
            dao: b.reviewers->0->ValidatorsDao_validators_dao.account_id,
            proposal_id,
            then: Callback::AfterCheckApproveClaimerProposal { id, claimer, proposal_id },
        }
    }

    /// `other`, with `effects`, is this contract once the claim at position `k` of the
    /// claims of `receiver` on bounty `id` is finalized by case `case` of `ended_case`.
    pub open spec fn ended_finalized(&self, other: &Self, effects: Seq<Effect>, id: BountyIndex, receiver: AccountId, k: int, case: u8) -> bool {
        let b = self.bounties@[id as int];
        let c = self.claims_of(receiver@)[k];
        if case == 5 {
            &&& *other == *self
            &&& effects == seq![Self::approve_claimer_query(b, id, receiver, c.approve_claimer_proposal_id->0)]
        } else {
            let status = if case == 6 || b.status == BountyStatus::Canceled { ClaimStatus::Canceled } else { ClaimStatus::NotCompleted };
            &&& other.bounties@ == self.bounties@.update(id as int, other.bounties@[id as int])
            &&& if case == 6 {
                other.bounties@[id as int] == b
            } else {
                freed_bounty(b, other.bounties@[id as int], c)
            }
            &&& self.claim_closed(other, receiver@, k, status, true)
            &&& *other == (BountiesContract {
                bounties: other.bounties,
                bounty_claimers: other.bounty_claimers,
                locked_amount: other.locked_amount,
                unlocked_amount: other.unlocked_amount,
                ..*self
            })
            &&& effects == self.closure_effects(receiver, b.owner, b.status, c, status, true)
        }
    }

    /// Finalizes the claim of `receiver` on bounty `id` at `now`: for a bounty for several
    /// claimants first as an open claim (`active_case`), then as a claim on a bounty that
    /// ended or waits for a DAO decision (`ended_case`).
    pub(crate) fn internal_finalize_some_claim(&mut self, id: BountyIndex, receiver: &AccountId, now: u64) -> (r: Result<Vec<Effect>, BountyError>)
        requires
            old(self).wf(),
            id < old(self).bounties@.len(),
        ensures
            final(self).wf(),
            r is Err ==> *final(self) == *old(self),
            old(self).claim_of(receiver@, id) is None ==> r == Err::<Vec<Effect>, BountyError>(
                if old(self).bounty_claimers@.contains_key(receiver@) { BountyError::NoClaim } else { BountyError::NoClaimer }),
            old(self).claim_of(receiver@, id) is Some ==> {
                let b = old(self).bounties@[id as int];
                let c = old(self).claim_of(receiver@, id)->0;
                let k = choose|i: int| claim_index(old(self).claims_of(receiver@), id, i);
                let active = if b.multitasking is Some { old(self).active_case(b, c, now) } else { None };
                match active {
                    Some(Err(e)) => r == Err::<Vec<Effect>, BountyError>(e),
                    Some(Ok(n)) => r matches Ok(effects) && old(self).active_finalized(&*final(self), effects@, id, *receiver, k, n, now),
                    None => match old(self).ended_case(b, c) {
                        Err(e) => r == Err::<Vec<Effect>, BountyError>(e),
                        Ok(n) => r matches Ok(effects) && old(self).ended_finalized(&*final(self), effects@, id, *receiver, k, n),
                    },
                }
            },
    {
        let (claims, k) = self.internal_get_claims(id, receiver)?;
        let ghost s0 = *self;
        proof {
            lemma_claim_index_unique(s0.claims_of(receiver@), id, k as int);
        }
        let n = self.bounties.len();
        proof { assert(self.bounties@[id as int].wf()); }
        if self.bounties[id as usize].multitasking.is_some() {
            let copy = copy_claims(&claims);
            match self.internal_finalize_active_claim(id, receiver, copy, k, now)? {
                Some(effects) => { return Ok(effects); },
                None => {},
            }
        }
        let b = &self.bounties[id as usize];
        let c = &claims[k];
        let st = b.status;
        let amount = match c.bond {
            Some(x) => x,
            None => super::types::DEFAULT_BOUNTY_CLAIM_BOND,
        };
        if c.status == ClaimStatus::New && st == BountyStatus::New && b.is_validators_dao_used() {
            let proposal_id = match c.approve_claimer_proposal_id {
                Some(p) => p,
                None => { return Err(BountyError::ProposalMismatch); },
            };
            let dao = match &b.reviewers {
                Some(Reviewers::ValidatorsDao { validators_dao }) => validators_dao.account_id.clone(),
                _ => {
                    proof { assert(false); }
                    unreached()
                },
            };
            let mut effects: Vec<Effect> = Vec::new();
            effects.push(Effect::GetProposal {
                dao,
                proposal_id,
                then: Callback::AfterCheckApproveClaimerProposal { id, claimer: receiver.clone(), proposal_id },
            });
            proof { assert(effects@ =~= seq![Self::approve_claimer_query(*b, id, *receiver, proposal_id)]); }
            return Ok(effects);
        }
        if c.status == ClaimStatus::New && (st == BountyStatus::Completed || st == BountyStatus::Canceled || st == BountyStatus::PartiallyCompleted) {
            if self.locked_amount < amount {
                return Err(BountyError::ArithmeticOverflow);
            }
            let owner = b.owner.clone();
            let mut effects: Vec<Effect> = Vec::new();
            self.internal_claim_closure(receiver, &owner, st, claims, k, Some(ClaimStatus::Canceled), true, &mut effects);
            proof { assert(self.bounties@ == s0.bounties@.update(id as int, self.bounties@[id as int])); }
            return Ok(effects);
        }
        let contest_ended = (st == BountyStatus::Completed || st == BountyStatus::Canceled)
            && (c.status == ClaimStatus::Competes || c.status == ClaimStatus::Completed) && b.is_contest_or_hackathon();
        let waiting_canceled = st == BountyStatus::Canceled && c.status == ClaimStatus::ReadyToStart
            && (b.is_one_bounty_for_many_claimants() || b.is_different_tasks());
        if !(contest_ended || waiting_canceled) {
            return Err(BountyError::NotSubjectToFinalization);
        }
        let blocked = match &b.multitasking {
            Some(Multitasking::ContestOrHackathon { .. }) => match &b.multitasking {
                Some(m) => m.get_participants() == 0,
                None => false,
            },
            Some(Multitasking::OneForAll { runtime_env: Some(env), .. }) => env.occupied_slots == 0,
            Some(Multitasking::DifferentTasks { runtime_env: Some(env), .. }) => match c.slot {
                Some(s) => s >= env.participants.len(),
                None => true,
            },
            _ => false,
        };
        if blocked {
            return Err(if b.is_different_tasks() { BountyError::SlotOutOfRange } else { BountyError::ArithmeticOverflow });
        }
        if self.locked_amount < amount {
            return Err(BountyError::ArithmeticOverflow);
        }
        let slot = c.slot;
        let mut bounty = self.take_bounty(id);
        let m = bounty.multitasking.take().unwrap();
        match m {
            Multitasking::ContestOrHackathon { .. } => {
                let p = m.get_participants();
                bounty.multitasking = Some(m.set_competition_participants(p - 1));
            },
            Multitasking::OneForAll { .. } => {
                let (occupied, paid) = m.get_one_for_all_env();
                bounty.multitasking = Some(m.set_one_for_all_env(occupied - 1, paid));
            },
            Multitasking::DifferentTasks { .. } => {
                let mut m2 = m;
                m2.set_slot_env(slot.unwrap(), None);
                bounty.multitasking = Some(m2);
            },
        }
        let owner = bounty.owner.clone();
        let new_status = if st == BountyStatus::Canceled { Some(ClaimStatus::Canceled) } else { None };
        self.put_bounty(id, bounty);
        proof {
            assert(self.bounties@ =~= s0.bounties@.update(id as int, self.bounties@[id as int]));
            assert forall|i: int| 0 <= i < self.bounties@.len() implies (#[trigger] self.bounties@[i]).wf() by {
                if i != id { assert(self.bounties@[i] == s0.bounties@[i]); }
            }
        }
        let ghost s1 = *self;
        let mut effects: Vec<Effect> = Vec::new();
        self.internal_claim_closure(receiver, &owner, st, claims, k, new_status, true, &mut effects);
        proof { assert(s1.claims_of(receiver@) == s0.claims_of(receiver@)); }
        Ok(effects)
    }
}

} // verus!
