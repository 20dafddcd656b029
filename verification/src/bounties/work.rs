//! A claimant gives up a claim.
use vstd::prelude::*;
use crate::accounts::AccountId;
use super::types::{BountyIndex, BountyStatus, ClaimStatus, ContractStatus};
use super::multitasking::{Multitasking, contest_env, one_for_all_env, slots};
use super::bounty::Bounty;
use super::claim::BountyClaim;
use super::claims::{claim_index, bond_of, lemma_claim_in, lemma_claim_index_unique};
use super::closure::{reset_blocked, reset_bounty};
use super::errors::BountyError;
use super::effects::{CallContext, Effect};
use super::contract::BountiesContract;

verus! {

/// Whether the start of the work on `c` is known.
pub fn start_time_known(c: &BountyClaim, b: &Bounty) -> (r: bool)
    requires
        b.wf(),
    ensures
        r == c.has_start_time(*b),
{
    if b.is_contest_or_hackathon() {
        match &b.multitasking {
            Some(m) => m.get_competition_timestamps().0.is_some(),
            None => false,
        }
    } else {
        c.start_time.is_some()
    }
}

/// The claim has started: its work is in progress, or it competes in a running contest.
pub open spec fn claim_started(b: Bounty, c: BountyClaim) -> bool {
    c.status == ClaimStatus::InProgress || c.status == ClaimStatus::Competes && b.status == BountyStatus::ManyClaimed
}

/// Why a claim that has not started cannot leave its bounty: a count that would go below
/// zero, or a slot that the claim does not name.
pub open spec fn leave_error(b: Bounty, c: BountyClaim) -> Option<BountyError> {
    if c.status == ClaimStatus::Competes {
        if !b.spec_is_contest_or_hackathon() || contest_env(b.multitasking->0).participants == 0 {
            Some(BountyError::ArithmeticOverflow)
        } else {
            None
        }
    } else if c.status == ClaimStatus::ReadyToStart {
        if b.spec_is_one_bounty_for_many_claimants() {
            if one_for_all_env(b.multitasking->0).occupied_slots == 0 { Some(BountyError::ArithmeticOverflow) } else { None }
        } else if !b.spec_is_different_tasks() || c.slot is None || c.slot->0 >= slots(b.multitasking->0).len() {
            Some(BountyError::SlotOutOfRange)
        } else {
            None
        }
    } else {
        None
    }
}

/// `r` is bounty `b` once the claim `c`, which has not started, leaves it: a contestant
/// leaves the contest, a claim waiting for the start frees its slot or subtask.
pub open spec fn left_bounty(b: Bounty, r: Bounty, c: BountyClaim) -> bool {
    if c.status == ClaimStatus::Competes {
        let m = b.multitasking->0;
        let rm = r.multitasking->0;
        &&& r == Bounty { multitasking: r.multitasking, ..b }
        &&& r.multitasking is Some
        &&& rm is ContestOrHackathon
        &&& rm->ContestOrHackathon_allowed_create_claim_to == m->ContestOrHackathon_allowed_create_claim_to
        &&& rm->ContestOrHackathon_successful_claims_for_result == m->ContestOrHackathon_successful_claims_for_result
        &&& rm->ContestOrHackathon_start_conditions == m->ContestOrHackathon_start_conditions
        &&& contest_env(rm) == (super::types::ContestOrHackathonEnv {
            participants: (contest_env(m).participants - 1) as u32,
            ..contest_env(m)
        })
    } else if c.status == ClaimStatus::ReadyToStart && b.spec_is_one_bounty_for_many_claimants() {
        let m = b.multitasking->0;
        let rm = r.multitasking->0;
        &&& r == Bounty { multitasking: r.multitasking, ..b }
        &&& r.multitasking is Some
        &&& rm is OneForAll
        &&& rm->OneForAll_number_of_slots == m->OneForAll_number_of_slots
        &&& rm->OneForAll_amount_per_slot == m->OneForAll_amount_per_slot
        &&& rm->OneForAll_min_slots_to_start == m->OneForAll_min_slots_to_start
        &&& one_for_all_env(rm) == (super::types::OneForAllEnv {
            occupied_slots: (one_for_all_env(m).occupied_slots - 1) as u16,
            ..one_for_all_env(m)
        })
    } else if c.status == ClaimStatus::ReadyToStart {
        let m = b.multitasking->0;
        let rm = r.multitasking->0;
        &&& r == Bounty { multitasking: r.multitasking, ..b }
        &&& r.multitasking is Some
        &&& rm is DifferentTasks
        &&& rm->DifferentTasks_subtasks == m->DifferentTasks_subtasks
        &&& slots(rm) == slots(m).update(c.slot->0 as int, None)
        &&& rm->DifferentTasks_runtime_env->0.bounty_payout_proposal_id == m->DifferentTasks_runtime_env->0.bounty_payout_proposal_id
    } else {
        r == b
    }
}

impl BountiesContract {
    /// The bond of a claim that was given up is returned within the forgiveness period
    /// after the work started.
    pub open spec fn bond_forgiven(&self, b: Bounty, c: BountyClaim, now: u64) -> bool {
        now - c.spec_start_time(b) <= self.config.bounty_forgiveness_period
    }

    /// The first reason why `ctx` cannot give up its claim on bounty `id`.
    pub open spec fn give_up_error(&self, ctx: CallContext, id: BountyIndex) -> Option<BountyError> {
        let claimer = ctx.predecessor@;
        let now = ctx.block_timestamp;
        if self.status != ContractStatus::Live {
            Some(BountyError::NotLive)
        } else if ctx.attached_deposit != 1 {
            Some(BountyError::OneYoctoRequired)
        } else if id >= self.bounties@.len() {
            Some(BountyError::BountyNotFound)
        } else if self.claim_of(claimer, id) is None {
            if self.bounty_claimers@.contains_key(claimer) { Some(BountyError::NoClaim) } else { Some(BountyError::NoClaimer) }
        } else {
            let b = self.bounties@[id as int];
            let c = self.claim_of(claimer, id)->0;
            if !(c.status == ClaimStatus::New || c.status == ClaimStatus::InProgress
                || c.status == ClaimStatus::Competes || c.status == ClaimStatus::ReadyToStart) {
                Some(BountyError::ClaimStatusForGiveUp)
            } else if claim_started(b, c) {
                if !c.has_start_time(b) {
                    Some(BountyError::ClaimNotStarted)
                } else if now < c.spec_start_time(b) {
                    Some(BountyError::ArithmeticOverflow)
                } else if reset_blocked(b, c) {
                    if b.spec_is_different_tasks() { Some(BountyError::SlotOutOfRange) } else { Some(BountyError::ArithmeticOverflow) }
                } else if !self.bond_movable(c, self.bond_forgiven(b, c, now)) {
                    Some(BountyError::ArithmeticOverflow)
                } else {
                    None
                }
            } else if leave_error(b, c) is Some {
                leave_error(b, c)
            } else if !self.bond_movable(c, true) {
                Some(BountyError::ArithmeticOverflow)
            } else {
                None
            }
        }
    }

    /// The claimant `ctx` gives up its claim on bounty `id`. A claim whose work has
    /// started resets the bounty, and its bond is returned only within the forgiveness
    /// period; a claim that has not started leaves the bounty and gets its bond back.
    pub fn bounty_give_up(&mut self, ctx: &CallContext, id: BountyIndex) -> (r: Result<Vec<Effect>, BountyError>)
        requires
            old(self).wf(),
        ensures
            final(self).wf(),
            r is Err <==> old(self).give_up_error(*ctx, id) is Some,
            r matches Err(e) ==> old(self).give_up_error(*ctx, id) == Some(e) && *final(self) == *old(self),
            r matches Ok(effects) ==> {
                let claimer = ctx.predecessor;
                let b = old(self).bounties@[id as int];
                let c = old(self).claim_of(claimer@, id)->0;
                let k = choose|i: int| claim_index(old(self).claims_of(claimer@), id, i);
                let started = claim_started(b, c);
                let bond_back = !started || old(self).bond_forgiven(b, c, ctx.block_timestamp);
                &&& final(self).bounties@.len() == old(self).bounties@.len()
                &&& forall|i: int| 0 <= i < old(self).bounties@.len() && i != id ==> #[trigger] final(self).bounties@[i] == old(self).bounties@[i]
                &&& if started {
                    reset_bounty(b, final(self).bounties@[id as int], c, ctx.block_timestamp)
                } else {
                    left_bounty(b, final(self).bounties@[id as int], c)
                }
                &&& old(self).claim_closed(&*final(self), claimer@, k, ClaimStatus::Canceled, bond_back)
                &&& *final(self) == (BountiesContract {
                    bounties: final(self).bounties,
                    bounty_claimers: final(self).bounty_claimers,
                    locked_amount: final(self).locked_amount,
                    unlocked_amount: final(self).unlocked_amount,
                    ..*old(self)
                })
                &&& effects@ == old(self).closure_effects(claimer, b.owner, b.status, c, ClaimStatus::Canceled, bond_back)
            },
    {
        self.assert_live()?;
        if ctx.attached_deposit != 1 {
            return Err(BountyError::OneYoctoRequired);
        }
        if id >= self.last_bounty_id {
            return Err(BountyError::BountyNotFound);
        }
        let claimer = &ctx.predecessor;
        let now = ctx.block_timestamp;
        let (claims, k) = self.internal_get_claims(id, claimer)?;
        let ghost s0 = *self;
        proof {
            lemma_claim_index_unique(s0.claims_of(claimer@), id, k as int);
        }
        let n = self.bounties.len();
        proof { assert(self.bounties@[id as int].wf()); }
        let status = claims[k].status;
        if !(status == ClaimStatus::New || status == ClaimStatus::InProgress
            || status == ClaimStatus::Competes || status == ClaimStatus::ReadyToStart) {
            return Err(BountyError::ClaimStatusForGiveUp);
        }
        let bounty_status = self.bounties[id as usize].status;
        let amount = match claims[k].bond {
            Some(b) => b,
            None => super::types::DEFAULT_BOUNTY_CLAIM_BOND,
        };
        let mut effects: Vec<Effect> = Vec::new();
        if status == ClaimStatus::InProgress || status == ClaimStatus::Competes && bounty_status == BountyStatus::ManyClaimed {
            let b = &self.bounties[id as usize];
            if !start_time_known(&claims[k], b) {
                return Err(BountyError::ClaimNotStarted);
            }
            let start = claims[k].get_start_time(b);
            if now < start {
                return Err(BountyError::ArithmeticOverflow);
            }
            let blocked = match &b.multitasking {
                Some(Multitasking::ContestOrHackathon { .. }) => match &b.multitasking {
                    Some(m) => m.get_participants() == 0,
                    None => false,
                },
                Some(Multitasking::OneForAll { runtime_env: Some(env), .. }) => env.occupied_slots == 0,
                Some(Multitasking::DifferentTasks { runtime_env: Some(env), .. }) => match claims[k].slot {
                    Some(s) => s >= env.participants.len(),
                    None => true,
                },
                _ => false,
            };
            if blocked {
                return Err(if b.is_different_tasks() { BountyError::SlotOutOfRange } else { BountyError::ArithmeticOverflow });
            }
            let return_bond = now - start <= self.config.bounty_forgiveness_period;
            if self.locked_amount < amount || !return_bond && self.unlocked_amount > u128::MAX - amount {
                return Err(BountyError::ArithmeticOverflow);
            }
            self.internal_reset_bounty_to_initial_state(id, claimer, claims, k, Some(ClaimStatus::Canceled), return_bond, now, &mut effects);
        } else {
            let mut bounty_err: Option<BountyError> = None;
            {
                let b = &self.bounties[id as usize];
                if status == ClaimStatus::Competes {
                    let ok = match &b.multitasking {
                        Some(m) => match m {
                            Multitasking::ContestOrHackathon { .. } => m.get_participants() > 0,
                            _ => false,
                        },
                        None => false,
                    };
                    if !ok { bounty_err = Some(BountyError::ArithmeticOverflow); }
                } else if status == ClaimStatus::ReadyToStart {
                    if b.is_one_bounty_for_many_claimants() {
                        match &b.multitasking {
                            Some(Multitasking::OneForAll { runtime_env: Some(env), .. }) => {
                                if env.occupied_slots == 0 { bounty_err = Some(BountyError::ArithmeticOverflow); }
                            },
                            _ => {},
                        }
                    } else {
                        let ok = match &b.multitasking {
                            Some(Multitasking::DifferentTasks { runtime_env: Some(env), .. }) => match claims[k].slot {
                                Some(s) => s < env.participants.len(),
                                None => false,
                            },
                            _ => false,
                        };
                        if !ok { bounty_err = Some(BountyError::SlotOutOfRange); }
                    }
                }
            }
            match bounty_err {
                Some(e) => { return Err(e); },
                None => {},
            }
            if self.locked_amount < amount {
                return Err(BountyError::ArithmeticOverflow);
            }
            let mut bounty = self.take_bounty(id);
            if status == ClaimStatus::Competes {
                let m = bounty.multitasking.take().unwrap();
                let p = m.get_participants();
                bounty.multitasking = Some(m.set_competition_participants(p - 1));
            } else if status == ClaimStatus::ReadyToStart {
                if bounty.is_one_bounty_for_many_claimants() {
                    let m = bounty.multitasking.take().unwrap();
                    let (occupied, paid) = m.get_one_for_all_env();
                    bounty.multitasking = Some(m.set_one_for_all_env(occupied - 1, paid));
                } else {
                    let mut m = bounty.multitasking.take().unwrap();
                    m.set_slot_env(claims[k].slot.unwrap(), None);
                    bounty.multitasking = Some(m);
                }
            }
            let owner = bounty.owner.clone();
            let st = bounty.status;
            self.put_bounty(id, bounty);
            proof {
                assert(self.bounties@ =~= s0.bounties@.update(id as int, self.bounties@[id as int]));
                assert forall|i: int| 0 <= i < self.bounties@.len() implies (#[trigger] self.bounties@[i]).wf() by {
                    if i != id { assert(self.bounties@[i] == s0.bounties@[i]); }
                }
            }
            let ghost s1 = *self;
            self.internal_claim_closure(claimer, &owner, st, claims, k, Some(ClaimStatus::Canceled), true, &mut effects);
            proof {
                assert(s1.claims_of(claimer@) == s0.claims_of(claimer@));
            }
        }
        Ok(effects)
    }
}

} // verus!
