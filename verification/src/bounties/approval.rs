//! Approving a claimant: the claim starts or waits for others, and bounties for several
//! claimants move on when enough have joined.
use vstd::prelude::*;
use crate::accounts::{AccountId, has_account};
use super::types::{
    BountyIndex, BountyStatus, ClaimStatus, DefermentOfKYC, ReputationActionKind, StartConditions,
    SubtaskEnv, ContestOrHackathonEnv, OneForAllEnv,
};
use super::multitasking::{Multitasking, contest_env, one_for_all_env, slots};
use super::bounty::Bounty;
use super::claim::BountyClaim;
use super::claims::{claim_in, claim_index, lemma_claim_in_update, lemma_first_claim, has_claim};
use super::effects::Effect;
use super::contract::BountiesContract;

verus! {

/// A bounty for several claimants still takes a claimant at `now`: a contest before
/// the date or period for new claims ends, a bounty with slots with a free slot, a
/// bounty with subtasks on a free subtask.
pub open spec fn approval_allowed(b: Bounty, slot: Option<usize>, now: u64) -> bool {
    b.multitasking matches Some(m) ==> {
        &&& m.spec_is_allowed_to_create_or_approve_claims(slot, now)
        &&& (m is DifferentTasks ==> slot is Some && slot->0 < slots(m).len())
        &&& (m is ContestOrHackathon ==> contest_env(m).participants < u32::MAX)
    }
}

/// Every subtask of `b` is taken once `claimer` takes subtask `slot`.
pub open spec fn all_slots_taken_with(b: Bounty, slot: Option<usize>, claimer: AccountId) -> bool {
    let s = slots(b.multitasking->0).update(slot->0 as int, Some(SubtaskEnv { participant: claimer, completed: false, confirmed: false }));
    forall|i: int| 0 <= i < s.len() ==> (#[trigger] s[i]) is Some
}

/// The status of bounty `b` after a claimant is approved, with `ready` other claimants
/// waiting for the start and, for subtasks, `all_taken` telling whether every subtask
/// is then taken.
pub open spec fn approval_bounty_status(b: Bounty, ready: int, all_taken: bool) -> BountyStatus {
    match b.multitasking {
        None => BountyStatus::Claimed,
        Some(Multitasking::ContestOrHackathon { start_conditions, .. }) => {
            let m = b.multitasking->0;
            if !m.spec_has_competition_started() && match start_conditions {
                None => true,
                Some(StartConditions::MinAmountToStart { amount }) => contest_env(m).participants + 1 == amount,
                Some(StartConditions::ManuallyStart) => false,
            } {
                BountyStatus::ManyClaimed
            } else {
                b.status
            }
        },
        Some(Multitasking::OneForAll { min_slots_to_start, .. }) => {
            if min_slots_to_start is None || b.status == BountyStatus::ManyClaimed
                || b.status == BountyStatus::AwaitingClaims || ready + 1 == min_slots_to_start->0 {
                BountyStatus::ManyClaimed
            } else {
                b.status
            }
        },
        Some(Multitasking::DifferentTasks { .. }) => {
            if b.status == BountyStatus::ManyClaimed || all_taken {
                BountyStatus::ManyClaimed
            } else {
                b.status
            }
        },
    }
}

/// The status of the approved claim: a contestant competes; in a bounty with slots or
/// subtasks the work starts once the bounty has started, else the claim waits.
pub open spec fn approval_claim_status(b: Bounty, ready: int, all_taken: bool) -> ClaimStatus {
    match b.multitasking {
        None => ClaimStatus::InProgress,
        Some(Multitasking::ContestOrHackathon { .. }) => ClaimStatus::Competes,
        _ => if approval_bounty_status(b, ready, all_taken) == BountyStatus::ManyClaimed {
            ClaimStatus::InProgress
        } else {
            ClaimStatus::ReadyToStart
        },
    }
}

/// This approval starts the bounty with slots or subtasks, and with it the claims that
/// waited.
pub open spec fn approval_starts_others(b: Bounty, ready: int, all_taken: bool) -> bool {
    match b.multitasking {
        Some(Multitasking::OneForAll { min_slots_to_start: Some(m), .. }) =>
            b.status != BountyStatus::ManyClaimed && b.status != BountyStatus::AwaitingClaims && ready + 1 == m,
        Some(Multitasking::DifferentTasks { .. }) => b.status != BountyStatus::ManyClaimed && all_taken,
        _ => false,
    }
}

/// The approved claim of `c` on bounty `b`.
pub open spec fn approved_claim(c: BountyClaim, b: Bounty, ready: int, all_taken: bool, is_kyc_delayed: Option<DefermentOfKYC>, now: u64) -> BountyClaim {
    let status = approval_claim_status(b, ready, all_taken);
    BountyClaim {
        status,
        start_time: if status == ClaimStatus::InProgress || status == ClaimStatus::Competes
            && approval_bounty_status(b, ready, all_taken) == BountyStatus::ManyClaimed {
            Some(now)
        } else {
            c.start_time
        },
        is_kyc_delayed,
        ..c
    }
}

/// `r` is bounty `b` once `claimer` is approved on `slot` at `now`, with `ready` other
/// claimants waiting for the start: its status moves on, a contest counts one more
/// participant and starts when the bounty does, a bounty with slots has one more
/// occupied slot, and the subtask is given to the claimant.
pub open spec fn approved_bounty(b: Bounty, r: Bounty, claimer: AccountId, slot: Option<usize>, ready: int, now: u64) -> bool {
    let all_taken = all_slots_taken_with(b, slot, claimer);
    let status = approval_bounty_status(b, ready, all_taken);
    &&& r == Bounty { status, multitasking: r.multitasking, ..b }
    &&& match b.multitasking {
        None => r.multitasking is None,
        Some(m) => r.multitasking matches Some(rm) && match m {
            Multitasking::ContestOrHackathon { allowed_create_claim_to, successful_claims_for_result, start_conditions, .. } => {
                let starts = !m.spec_has_competition_started() && status == BountyStatus::ManyClaimed;
                &&& rm is ContestOrHackathon
                &&& rm->ContestOrHackathon_allowed_create_claim_to == allowed_create_claim_to
                &&& rm->ContestOrHackathon_successful_claims_for_result == successful_claims_for_result
                &&& rm->ContestOrHackathon_start_conditions == start_conditions
                &&& contest_env(rm) == (ContestOrHackathonEnv {
                    participants: (contest_env(m).participants + 1) as u32,
                    started_at: if starts { Some(now) } else { contest_env(m).started_at },
                    finished_at: if starts { None } else { contest_env(m).finished_at },
                    ..contest_env(m)
                })
            },
            Multitasking::OneForAll { number_of_slots, amount_per_slot, min_slots_to_start, .. } => {
                &&& rm is OneForAll
                &&& rm->OneForAll_number_of_slots == number_of_slots
                &&& rm->OneForAll_amount_per_slot == amount_per_slot
                &&& rm->OneForAll_min_slots_to_start == min_slots_to_start
                &&& one_for_all_env(rm) == (OneForAllEnv {
                    occupied_slots: (one_for_all_env(m).occupied_slots + 1) as u16,
                    ..one_for_all_env(m)
                })
            },
            Multitasking::DifferentTasks { subtasks, runtime_env } => {
                &&& rm is DifferentTasks
                &&& rm->DifferentTasks_subtasks == subtasks
                &&& slots(rm) == slots(m).update(slot->0 as int, Some(SubtaskEnv { participant: claimer, completed: false, confirmed: false }))
                &&& rm->DifferentTasks_runtime_env->0.bounty_payout_proposal_id == runtime_env->0.bounty_payout_proposal_id
            },
        },
    }
}

/// The claim once its work has started at `now`.
pub open spec fn started_claim(c: BountyClaim, now: u64) -> BountyClaim {
    BountyClaim { status: ClaimStatus::InProgress, start_time: Some(now), ..c }
}

impl BountiesContract {
    /// The claim of `a` on bounty `id` has `status`.
    pub open spec fn claim_has_status(&self, a: Seq<char>, id: BountyIndex, status: ClaimStatus) -> bool {
        self.claim_of(a, id) matches Some(c) && c.status == status
    }

    /// The claimants of bounty `id`, other than `except`, whose claim on it has `status`,
    /// in the order they claimed.
    pub open spec fn claimants_with_status(&self, id: BountyIndex, status: ClaimStatus, except: Seq<char>) -> Seq<AccountId> {
        self.claimants_of(id).filter(|a: AccountId| a@ != except && self.claim_has_status(a@, id, status))
    }

    /// How many claimants of bounty `id`, other than `except`, have a claim with `status`.
    pub fn count_claims_with_status(&self, id: BountyIndex, status: ClaimStatus, except: &AccountId) -> (n: usize)
        requires
            id < self.bounty_claimer_accounts@.len(),
        ensures
            n == self.claimants_with_status(id, status, except@).len(),
    {
        let m = self.bounty_claimer_accounts.len();
        let accounts = &self.bounty_claimer_accounts[id as usize];
        let ghost pred = |a: AccountId| a@ != except@ && self.claim_has_status(a@, id, status);
        let mut n: usize = 0;
        let mut i: usize = 0;
        while i < accounts.len()
            invariant
                i <= accounts@.len(),
                accounts@ == self.claimants_of(id),
                n == accounts@.subrange(0, i as int).filter(pred).len(),
                n <= i,
                pred == (|a: AccountId| a@ != except@ && self.claim_has_status(a@, id, status)),
            decreases accounts@.len() - i,
        {
            let a = &accounts[i];
            proof {
                assert(accounts@.subrange(0, i + 1) =~= accounts@.subrange(0, i as int).push(*a));
                accounts@.subrange(0, i as int).lemma_filter_push(*a, pred);
            }
            if !(*a == *except) {
                match self.internal_get_claims(id, a) {
                    Ok((claims, k)) => {
                        if claims[k].status == status {
                            proof { assert(pred(*a)); }
                            n = n + 1;
                        } else {
                            proof { assert(!pred(*a)); }
                        }
                    },
                    Err(_) => {
                        proof { assert(!pred(*a)); }
                    },
                }
            } else {
                proof { assert(!pred(*a)); }
            }
            i = i + 1;
        }
        proof { assert(accounts@.subrange(0, accounts@.len() as int) =~= accounts@); }
        n
    }

    /// The claim of `a` on bounty `id` waits for the start, `a` is listed as a claimant
    /// of it and is not `except`.
    pub open spec fn is_ready_claimant(&self, id: BountyIndex, a: Seq<char>, except: Seq<char>) -> bool {
        &&& a != except
        &&& self.claim_has_status(a, id, ClaimStatus::ReadyToStart)
        &&& has_account(self.claimants_of(id), a)
    }

    /// Every listed claimant of bounty `id`, other than `except`, whose claim on it is
    /// ready to start, starts its work at `now`.
    pub fn start_ready_claims(&mut self, id: BountyIndex, except: &AccountId, now: u64)
        requires
            id < old(self).bounty_claimer_accounts@.len(),
        ensures
            forall|a: Seq<char>, b: BountyIndex| #[trigger] final(self).claim_of(a, b) == if b == id
                && old(self).is_ready_claimant(id, a, except@) {
                Some(started_claim(old(self).claim_of(a, b)->0, now))
            } else {
                old(self).claim_of(a, b)
            },
            *final(self) == (BountiesContract { bounty_claimers: final(self).bounty_claimers, ..*old(self) }),
    {
        let n = self.bounty_claimer_accounts.len();
        let accounts = crate::accounts::copy_accounts(&self.bounty_claimer_accounts[id as usize]);
        let ghost start = *old(self);
        let mut i: usize = 0;
        while i < accounts.len()
            invariant
                i <= accounts@.len(),
                accounts@ == start.claimants_of(id),
                forall|a: Seq<char>, b: BountyIndex| #[trigger] self.claim_of(a, b) == if b == id
                    && start.is_ready_claimant(id, a, except@) && has_account(accounts@.subrange(0, i as int), a) {
                    Some(started_claim(start.claim_of(a, b)->0, now))
                } else {
                    start.claim_of(a, b)
                },
                *self == (BountiesContract { bounty_claimers: self.bounty_claimers, ..start }),
            decreases accounts@.len() - i,
        {
            let a = &accounts[i];
            let ghost before = *self;
            let ghost mut updated = false;
            proof {
                assert(has_account(accounts@, a@)) by { assert(accounts@[i as int]@ == a@); }
                assert forall|x: Seq<char>| #[trigger] has_account(accounts@.subrange(0, i + 1), x)
                    == (has_account(accounts@.subrange(0, i as int), x) || x == a@) by {
                    if has_account(accounts@.subrange(0, i + 1), x) {
                        let j = choose|j: int| 0 <= j < i + 1 && (#[trigger] accounts@.subrange(0, i + 1)[j])@ == x;
                        if j < i { assert(accounts@.subrange(0, i as int)[j] == accounts@.subrange(0, i + 1)[j]); }
                    }
                    if has_account(accounts@.subrange(0, i as int), x) {
                        let j = choose|j: int| 0 <= j < i && (#[trigger] accounts@.subrange(0, i as int)[j])@ == x;
                        assert(accounts@.subrange(0, i as int)[j] == accounts@.subrange(0, i + 1)[j]);
                    }
                    if x == a@ { assert(accounts@.subrange(0, i + 1)[i as int] == *a); }
                }
            }
            if !(*a == *except) {
                match self.internal_get_claims(id, a) {
                    Ok((mut claims, k)) => {
                        if claims[k].status == ClaimStatus::ReadyToStart {
                            let mut c = claims[k].copy();
                            let ghost old_claims = claims@;
                            c.status = ClaimStatus::InProgress;
                            c.start_time = Some(now);
                            claims.set(k, c);
                            proof {
                                super::claims::lemma_claim_in(old_claims, id, k as int);
                                assert forall|b: BountyIndex| #[trigger] claim_in(claims@, b) == if b == id {
                                    Some(started_claim(claim_in(old_claims, b)->0, now))
                                } else {
                                    claim_in(old_claims, b)
                                } by {
                                    lemma_claim_in_update(old_claims, id, k as int, c, b);
                                }
                                assert(start.claim_of(a@, id) == before.claim_of(a@, id));
                            }
                            self.internal_save_claims(a, claims);
                            proof { updated = true; }
                        } else {
                            proof {
                                assert(before.claim_of(a@, id) == Some(claims@[k as int]));
                            }
                        }
                    },
                    Err(_) => {},
                }
            }
            proof {
                if !updated {
                    assert(!(start.is_ready_claimant(id, a@, except@) && !has_account(accounts@.subrange(0, i as int), a@)));
                }
                assert forall|x: Seq<char>, b: BountyIndex| #[trigger] self.claim_of(x, b) == if b == id
                    && start.is_ready_claimant(id, x, except@) && has_account(accounts@.subrange(0, i + 1), x) {
                    Some(started_claim(start.claim_of(x, b)->0, now))
                } else {
                    start.claim_of(x, b)
                } by {
                    if !updated || x != a@ {
                        assert(self.claim_of(x, b) == before.claim_of(x, b));
                    }
                }
            }
            i = i + 1;
        }
        proof {
            assert(accounts@.subrange(0, accounts@.len() as int) =~= accounts@);
        }
    }

    /// Approves the claim of `claimer` on bounty `id` at `now`; `bounty` is the bounty,
    /// taken out of the list. A bounty for several claimants starts when enough
    /// claimants have joined, and so do the claims that waited for it.
    pub(crate) fn internal_claimer_approval(
        &mut self,
        id: BountyIndex,
        bounty: &mut Bounty,
        claim: &mut BountyClaim,
        claimer: &AccountId,
        is_kyc_delayed: Option<DefermentOfKYC>,
        now: u64,
        effects: &mut Vec<Effect>,
    )
        requires
            old(bounty).wf(),
            id < old(self).bounty_claimer_accounts@.len(),
            approval_allowed(*old(bounty), old(claim).slot, now),
        ensures
            final(bounty).wf(),
            approved_bounty(*old(bounty), *final(bounty), *claimer, old(claim).slot,
                old(self).claimants_with_status(id, ClaimStatus::ReadyToStart, claimer@).len() as int, now),
            *final(claim) == approved_claim(*old(claim), *old(bounty),
                old(self).claimants_with_status(id, ClaimStatus::ReadyToStart, claimer@).len() as int,
                all_slots_taken_with(*old(bounty), old(claim).slot, *claimer), is_kyc_delayed, now),
            forall|a: Seq<char>, b: BountyIndex| #[trigger] final(self).claim_of(a, b) == if b == id
                && approval_starts_others(*old(bounty),
                    old(self).claimants_with_status(id, ClaimStatus::ReadyToStart, claimer@).len() as int,
                    all_slots_taken_with(*old(bounty), old(claim).slot, *claimer))
                && old(self).is_ready_claimant(id, a, claimer@) {
                Some(started_claim(old(self).claim_of(a, b)->0, now))
            } else {
                old(self).claim_of(a, b)
            },
            *final(self) == (BountiesContract { bounty_claimers: final(self).bounty_claimers, ..*old(self) }),
            final(effects)@ == old(effects)@ + old(self).statistic(Some(*claimer), Some(old(bounty).owner), ReputationActionKind::ClaimerApproved),
    {
        let ghost ready = self.claimants_with_status(id, ClaimStatus::ReadyToStart, claimer@).len() as int;
        let ghost all_taken = all_slots_taken_with(*bounty, claim.slot, *claimer);
        let ghost b0 = *bounty;
        let ghost c0 = *claim;
        let ghost s0 = *self;
        let mut starts_others = false;
        match bounty.multitasking.take() {
            None => {
                bounty.status = BountyStatus::Claimed;
                claim.status = ClaimStatus::InProgress;
            },
            Some(m) => {
                match m {
                    Multitasking::ContestOrHackathon { start_conditions, .. } => {
                        let started = m.has_competition_started();
                        let participants = m.get_participants();
                        match start_conditions {
                            None => {
                                if !started {
                                    bounty.status = BountyStatus::ManyClaimed;
                                }
                            },
                            Some(StartConditions::MinAmountToStart { amount }) => {
                                if !started && participants as u64 + 1 == amount as u64 {
                                    bounty.status = BountyStatus::ManyClaimed;
                                }
                            },
                            _ => {},
                        }
                        let mut m2 = m.set_competition_participants(participants + 1);
                        claim.status = ClaimStatus::Competes;
                        if !started && bounty.status == BountyStatus::ManyClaimed {
                            m2 = m2.set_competition_timestamp(Some(now), now);
                        }
                        bounty.multitasking = Some(m2);
                    },
                    Multitasking::OneForAll { min_slots_to_start, .. } => {
                        let started = bounty.status == BountyStatus::ManyClaimed;
                        let paused = bounty.status == BountyStatus::AwaitingClaims;
                        match min_slots_to_start {
                            None => {
                                bounty.status = BountyStatus::ManyClaimed;
                                claim.status = ClaimStatus::InProgress;
                            },
                            Some(min) => {
                                if started || paused {
                                    bounty.status = BountyStatus::ManyClaimed;
                                    claim.status = ClaimStatus::InProgress;
                                } else {
                                    let count = self.count_claims_with_status(id, ClaimStatus::ReadyToStart, claimer);
                                    if count as u128 + 1 == min as u128 {
                                        bounty.status = BountyStatus::ManyClaimed;
                                        claim.status = ClaimStatus::InProgress;
                                        starts_others = true;
                                    } else {
                                        claim.status = ClaimStatus::ReadyToStart;
                                    }
                                }
                            },
                        }
                        let (occupied, paid) = m.get_one_for_all_env();
                        bounty.multitasking = Some(m.set_one_for_all_env(occupied + 1, paid));
                    },
                    Multitasking::DifferentTasks { .. } => {
                        let mut m2 = m;
                        let slot = claim.slot.unwrap();
                        m2.set_slot_env(slot, Some(SubtaskEnv { participant: claimer.clone(), completed: false, confirmed: false }));
                        if bounty.status == BountyStatus::ManyClaimed {
                            claim.status = ClaimStatus::InProgress;
                        } else if m2.are_all_slots_taken() {
                            bounty.status = BountyStatus::ManyClaimed;
                            claim.status = ClaimStatus::InProgress;
                            starts_others = true;
                        } else {
                            claim.status = ClaimStatus::ReadyToStart;
                        }
                        bounty.multitasking = Some(m2);
                    },
                }
            },
        }
        if starts_others {
            self.start_ready_claims(id, claimer, now);
        }
        if claim.status == ClaimStatus::InProgress
            || claim.status == ClaimStatus::Competes && bounty.status == BountyStatus::ManyClaimed {
            claim.start_time = Some(now);
        }
        claim.is_kyc_delayed = is_kyc_delayed;
        self.push_statistic(effects, Some(claimer.clone()), Some(bounty.owner.clone()), ReputationActionKind::ClaimerApproved);
    }
}

} // verus!
