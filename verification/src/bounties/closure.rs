//! Closing a claim that did not succeed: the bounty goes back to its state before the
//! claim, the claim gets its final status, and the bond is returned or kept.
use vstd::prelude::*;
use crate::accounts::AccountId;
use super::types::{BountyIndex, BountyStatus, ClaimStatus, ReputationActionKind, DEFAULT_BOUNTY_CLAIM_BOND};
use super::multitasking::{Multitasking, contest_env, one_for_all_env, slots};
use super::bounty::Bounty;
use super::claim::BountyClaim;
use super::claims::{claim_in, claim_index, bond_of, lemma_claim_in, lemma_claim_in_update};
use super::errors::BountyError;
use super::effects::Effect;
use super::contract::BountiesContract;

verus! {

/// The final status of a claim that did not succeed: not completed unless told otherwise.
pub open spec fn closing_status(claim_status: Option<ClaimStatus>) -> ClaimStatus {
    match claim_status {
        Some(s) => s,
        None => ClaimStatus::NotCompleted,
    }
}

/// A final status that a claim can be closed with.
pub open spec fn is_closing_status(s: ClaimStatus) -> bool {
    s == ClaimStatus::NotCompleted || s == ClaimStatus::Expired || s == ClaimStatus::Canceled
}

/// Why the bounty of a claim cannot be reset: a count that would go below zero, or a
/// subtask that the claim does not name.
pub open spec fn reset_blocked(b: Bounty, c: BountyClaim) -> bool {
    match b.multitasking {
        Some(Multitasking::ContestOrHackathon { .. }) => contest_env(b.multitasking->0).participants == 0,
        Some(Multitasking::OneForAll { .. }) => one_for_all_env(b.multitasking->0).occupied_slots == 0,
        Some(Multitasking::DifferentTasks { .. }) => c.slot is None || c.slot->0 >= slots(b.multitasking->0).len(),
        None => false,
    }
}

/// `r` is bounty `b` once the claim `c` is given up at `now`: a bounty for one claimant
/// is new again; a contest counts one participant less and ends, new again, when the
/// last one leaves a running contest; a bounty with slots frees one slot and, when none
/// is occupied any more, is new again or waits for claims; a subtask is freed, and the
/// bounty is new again when all are free.
pub open spec fn reset_bounty(b: Bounty, r: Bounty, c: BountyClaim, now: u64) -> bool {
    match b.multitasking {
        None => r == Bounty { status: BountyStatus::New, ..b },
        Some(m) => {
            &&& r == Bounty { status: r.status, multitasking: r.multitasking, ..b }
            &&& r.multitasking matches Some(rm) && match m {
                Multitasking::ContestOrHackathon { allowed_create_claim_to, successful_claims_for_result, start_conditions, .. } => {
                    let p = (contest_env(m).participants - 1) as u32;
                    let ends = b.status == BountyStatus::ManyClaimed && p == 0;
                    &&& rm is ContestOrHackathon
                    &&& rm->ContestOrHackathon_allowed_create_claim_to == allowed_create_claim_to
                    &&& rm->ContestOrHackathon_successful_claims_for_result == successful_claims_for_result
                    &&& rm->ContestOrHackathon_start_conditions == start_conditions
                    &&& contest_env(rm) == (super::types::ContestOrHackathonEnv {
                        participants: p,
                        finished_at: if ends { Some(now) } else { contest_env(m).finished_at },
                        ..contest_env(m)
                    })
                    &&& r.status == if ends { BountyStatus::New } else { b.status }
                },
                Multitasking::OneForAll { number_of_slots, amount_per_slot, min_slots_to_start, .. } => {
                    let occupied = (one_for_all_env(m).occupied_slots - 1) as u16;
                    let paid = one_for_all_env(m).paid_slots;
                    &&& rm is OneForAll
                    &&& rm->OneForAll_number_of_slots == number_of_slots
                    &&& rm->OneForAll_amount_per_slot == amount_per_slot
                    &&& rm->OneForAll_min_slots_to_start == min_slots_to_start
                    &&& one_for_all_env(rm) == (super::types::OneForAllEnv { occupied_slots: occupied, paid_slots: paid })
                    &&& r.status == if b.status == BountyStatus::ManyClaimed && occupied == 0 {
                        if paid == 0 { BountyStatus::New } else { BountyStatus::AwaitingClaims }
                    } else {
                        b.status
                    }
                },
                Multitasking::DifferentTasks { subtasks, runtime_env } => {
                    let s = slots(m).update(c.slot->0 as int, None);
                    &&& rm is DifferentTasks
                    &&& rm->DifferentTasks_subtasks == subtasks
                    &&& slots(rm) == s
                    &&& rm->DifferentTasks_runtime_env->0.bounty_payout_proposal_id == runtime_env->0.bounty_payout_proposal_id
                    &&& r.status == if forall|i: int| 0 <= i < s.len() ==> (#[trigger] s[i]) is None {
                        BountyStatus::New
                    } else {
                        b.status
                    }
                },
            }
        },
    }
}

impl BountiesContract {
    /// The bond of a closed claim can be returned (held bonds cover it) or kept (and
    /// counted among the bonds not returned).
    pub open spec fn bond_movable(&self, c: BountyClaim, return_bond: bool) -> bool {
        &&& self.locked_amount >= bond_of(c.bond)
        &&& (!return_bond ==> self.unlocked_amount + bond_of(c.bond) <= u128::MAX)
    }

    /// What closing claim `c` of `receiver` tells and sends: the outcome to the
    /// reputation contract, unless a claim that never started is canceled, and the bond
    /// back to the claimant when it is returned.
    pub open spec fn closure_effects(&self, receiver: AccountId, owner: AccountId, old_status: BountyStatus, c: BountyClaim, new_status: ClaimStatus, return_bond: bool) -> Seq<Effect> {
        let with_dispute = c.status == ClaimStatus::Disputed;
        let is_new = c.status == ClaimStatus::New || (c.status == ClaimStatus::Competes || c.status == ClaimStatus::ReadyToStart)
            && (old_status == BountyStatus::New || old_status == BountyStatus::Canceled);
        let kind = if new_status == ClaimStatus::NotCompleted {
            ReputationActionKind::UnsuccessfulClaim { with_dispute }
        } else if new_status == ClaimStatus::Expired {
            ReputationActionKind::ClaimExpired
        } else {
            ReputationActionKind::ClaimCancelled
        };
        let bounty_owner = if new_status == ClaimStatus::NotCompleted { Some(owner) } else { None };
        (if !is_new || new_status != ClaimStatus::Canceled {
            self.statistic(Some(receiver), bounty_owner, kind)
        } else {
            Seq::empty()
        }) + (if return_bond && bond_of(c.bond) != 0 {
            seq![Effect::Transfer { receiver_id: receiver, amount: bond_of(c.bond) }]
        } else {
            Seq::empty()
        })
    }

    /// `other` is this contract once the claim at position `k` of the claims of
    /// `receiver` is closed with `new_status`: its bond is returned or kept.
    pub open spec fn claim_closed(&self, other: &Self, receiver: Seq<char>, k: int, new_status: ClaimStatus, return_bond: bool) -> bool {
        let c = self.claims_of(receiver)[k];
        &&& other.claims_of(receiver) == self.claims_of(receiver).update(k, BountyClaim { status: new_status, ..c })
        &&& forall|a: Seq<char>| a != receiver ==> #[trigger] other.claims_of(a) == self.claims_of(a)
        &&& other.locked_amount == self.locked_amount - bond_of(c.bond)
        &&& other.unlocked_amount == if return_bond { self.unlocked_amount as int } else { self.unlocked_amount + bond_of(c.bond) }
    }

    /// Closes the claim at position `k` of `claims`, the claims of `receiver`, with the
    /// final status `claim_status` (not completed if none).
    pub(crate) fn internal_claim_closure(
        &mut self,
        receiver_id: &AccountId,
        owner: &AccountId,
        old_status: BountyStatus,
        claims: Vec<BountyClaim>,
        k: usize,
        claim_status: Option<ClaimStatus>,
        return_bond: bool,
        effects: &mut Vec<Effect>,
    )
        requires
            claims@ == old(self).claims_of(receiver_id@),
            k < claims@.len(),
            is_closing_status(closing_status(claim_status)),
            old(self).bond_movable(claims@[k as int], return_bond),
        ensures
            old(self).claim_closed(&*final(self), receiver_id@, k as int, closing_status(claim_status), return_bond),
            *final(self) == (BountiesContract {
                bounty_claimers: final(self).bounty_claimers,
                locked_amount: final(self).locked_amount,
                unlocked_amount: final(self).unlocked_amount,
                ..*old(self)
            }),
            final(effects)@ == old(effects)@ + old(self).closure_effects(*receiver_id, *owner, old_status,
                claims@[k as int], closing_status(claim_status), return_bond),
    {
        let mut claims = claims;
        let ghost c0 = claims@[k as int];
        let with_dispute = claims[k].status == ClaimStatus::Disputed;
        let is_new = claims[k].status == ClaimStatus::New
            || (claims[k].status == ClaimStatus::Competes || claims[k].status == ClaimStatus::ReadyToStart)
            && (old_status == BountyStatus::New || old_status == BountyStatus::Canceled);
        let new_status = match claim_status {
            Some(s) => s,
            None => ClaimStatus::NotCompleted,
        };
        let kind = if new_status == ClaimStatus::NotCompleted {
            ReputationActionKind::UnsuccessfulClaim { with_dispute }
        } else if new_status == ClaimStatus::Expired {
            ReputationActionKind::ClaimExpired
        } else {
            ReputationActionKind::ClaimCancelled
        };
        let bounty_owner = if new_status == ClaimStatus::NotCompleted { Some(owner.clone()) } else { None };
        let bond = claims[k].bond;
        let mut c = claims[k].copy();
        c.status = new_status;
        claims.set(k, c);
        let ghost s_before = *self;
        let ghost e0 = effects@;
        if !is_new || new_status != ClaimStatus::Canceled {
            self.push_statistic(effects, Some(receiver_id.clone()), bounty_owner, kind);
        }
        let ghost e1 = effects@;
        if return_bond {
            self.internal_return_bonds(receiver_id, bond, effects);
        } else {
            self.internal_keep_bond(bond);
        }
        self.internal_save_claims(receiver_id, claims);
        proof {
            let stat = if !is_new || new_status != ClaimStatus::Canceled {
                s_before.statistic(Some(*receiver_id), bounty_owner, kind)
            } else {
                Seq::empty()
            };
            assert(e1 == e0 + stat);
            assert(effects@ =~= e0 + old(self).closure_effects(*receiver_id, *owner, old_status, c0, new_status, return_bond));
        }
    }

    /// Gives up the claim at position `k` of `claims`, the claims of `receiver_id` on
    /// bounty `id`: the bounty goes back to its state before the claim and the claim is
    /// closed with `claim_status` (not completed if none), its bond returned or kept.
    pub(crate) fn internal_reset_bounty_to_initial_state(
        &mut self,
        id: BountyIndex,
        receiver_id: &AccountId,
        claims: Vec<BountyClaim>,
        k: usize,
        claim_status: Option<ClaimStatus>,
        return_bond: bool,
        now: u64,
        effects: &mut Vec<Effect>,
    )
        requires
            old(self).wf(),
            id < old(self).bounties@.len(),
            claims@ == old(self).claims_of(receiver_id@),
            claim_index(claims@, id, k as int),
            !reset_blocked(old(self).bounties@[id as int], claims@[k as int]),
            is_closing_status(closing_status(claim_status)),
            old(self).bond_movable(claims@[k as int], return_bond),
        ensures
            final(self).wf(),
            final(self).bounties@.len() == old(self).bounties@.len(),
            reset_bounty(old(self).bounties@[id as int], final(self).bounties@[id as int], claims@[k as int], now),
            forall|i: int| 0 <= i < old(self).bounties@.len() && i != id ==> #[trigger] final(self).bounties@[i] == old(self).bounties@[i],
            old(self).claim_closed(&*final(self), receiver_id@, k as int, closing_status(claim_status), return_bond),
            *final(self) == (BountiesContract {
                bounties: final(self).bounties,
                bounty_claimers: final(self).bounty_claimers,
                locked_amount: final(self).locked_amount,
                unlocked_amount: final(self).unlocked_amount,
                ..*old(self)
            }),
            final(effects)@ == old(effects)@ + old(self).closure_effects(*receiver_id, old(self).bounties@[id as int].owner,
                old(self).bounties@[id as int].status, claims@[k as int], closing_status(claim_status), return_bond),
    {
        let ghost s0 = *self;
        let ghost c0 = claims@[k as int];
        let n = self.bounties.len();
        proof { assert(self.bounties@[id as int].wf()); }
        let mut bounty = self.take_bounty(id);
        let old_status = bounty.status;
        match bounty.multitasking.take() {
            None => {
                bounty.status = BountyStatus::New;
            },
            Some(m) => {
                match m {
                    Multitasking::ContestOrHackathon { .. } => {
                        let p = m.get_participants();
                        let mut m2 = m.set_competition_participants(p - 1);
                        if bounty.status == BountyStatus::ManyClaimed && p - 1 == 0 {
                            m2 = m2.set_competition_timestamp(None, now);
                            bounty.status = BountyStatus::New;
                        }
                        bounty.multitasking = Some(m2);
                    },
                    Multitasking::OneForAll { .. } => {
                        let (occupied, paid) = m.get_one_for_all_env();
                        let m2 = m.set_one_for_all_env(occupied - 1, paid);
                        if bounty.status == BountyStatus::ManyClaimed && occupied - 1 == 0 {
                            bounty.status = if paid == 0 { BountyStatus::New } else { BountyStatus::AwaitingClaims };
                        }
                        bounty.multitasking = Some(m2);
                    },
                    Multitasking::DifferentTasks { .. } => {
                        let mut m2 = m;
                        m2.set_slot_env(claims[k].slot.unwrap(), None);
                        if m2.are_all_slots_available() {
                            bounty.status = BountyStatus::New;
                        }
                        bounty.multitasking = Some(m2);
                    },
                }
            },
        }
        let owner = bounty.owner.clone();
        self.put_bounty(id, bounty);
        proof {
            assert(self.bounties@ =~= s0.bounties@.update(id as int, self.bounties@[id as int]));
            assert forall|i: int| 0 <= i < self.bounties@.len() implies (#[trigger] self.bounties@[i]).wf() by {
                if i != id { assert(self.bounties@[i] == s0.bounties@[i]); }
            }
        }
        let ghost s1 = *self;
        self.internal_claim_closure(receiver_id, &owner, old_status, claims, k, claim_status, return_bond, effects);
        proof {
            assert(s1.claims_of(receiver_id@) == s0.claims_of(receiver_id@));
            assert(s1.closure_effects(*receiver_id, owner, old_status, c0, closing_status(claim_status), return_bond)
                == s0.closure_effects(*receiver_id, owner, old_status, c0, closing_status(claim_status), return_bond));
        }
    }
}

} // verus!
