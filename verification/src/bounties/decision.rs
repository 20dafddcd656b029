//! The owner's (or validators DAO's) decision on a claimant that waits for approval.
use vstd::prelude::*;
use crate::accounts::AccountId;
use super::types::{BountyIndex, ClaimStatus, ContractStatus, DefermentOfKYC, PlaceOfCheckKYC, ReputationActionKind};
use super::multitasking::{Multitasking, slots};
use super::bounty::Bounty;
use super::claim::BountyClaim;
use super::claims::{claim_in, claim_index, bond_of, lemma_claim_in, lemma_claim_in_update};
use super::approval::{approved_bounty, approved_claim, approval_starts_others, all_slots_taken_with, started_claim};
use super::claiming::claimable;
use super::errors::BountyError;
use super::effects::{CallContext, Callback, Effect};
use super::contract::BountiesContract;

verus! {

/// The claim refers to a subtask of the bounty where the bounty has subtasks.
pub open spec fn slot_of_claim_valid(b: Bounty, c: BountyClaim) -> bool {
    b.spec_is_different_tasks() ==> c.slot is Some && c.slot->0 < slots(b.multitasking->0).len()
}

impl BountiesContract {
    /// The first reason why no decision can be made now on the claim of `claimer` on
    /// bounty `id`.
    pub open spec fn approve_claim_error(&self, id: BountyIndex, claimer: Seq<char>, now: u64) -> Option<BountyError> {
        if id >= self.bounties@.len() {
            Some(BountyError::BountyNotFound)
        } else {
            let b = self.bounties@[id as int];
            if !claimable(b) {
                Some(BountyError::BountyStatusForDecision)
            } else if self.claim_of(claimer, id) is None {
                Some(BountyError::NoClaim)
            } else {
                let c = self.claim_of(claimer, id)->0;
                if c.status != ClaimStatus::New {
                    Some(BountyError::ClaimStatusForDecision)
                } else if !slot_of_claim_valid(b, c) {
                    Some(BountyError::SlotOutOfRange)
                } else if b.multitasking matches Some(m) && !m.spec_is_allowed_to_create_or_approve_claims(c.slot, now) {
                    Some(BountyError::NoLongerPossibleToClaim)
                } else {
                    None
                }
            }
        }
    }

    /// Checks that a decision on the claim of `claimer` on bounty `id` can be made now,
    /// and finds the claim.
    pub fn check_if_allowed_to_approve_claim_by_status(&self, id: BountyIndex, claimer: &AccountId, now: u64) -> (r: Result<(Vec<BountyClaim>, usize), BountyError>)
        requires
            self.wf(),
        ensures
            r is Err <==> self.approve_claim_error(id, claimer@, now) is Some,
            r matches Err(e) ==> self.approve_claim_error(id, claimer@, now) == Some(e),
            r matches Ok((claims, i)) ==> claims@ == self.claims_of(claimer@)
                && claim_index(claims@, id, i as int)
                && self.claim_of(claimer@, id) == Some(claims@[i as int]),
    {
        if id >= self.last_bounty_id {
            return Err(BountyError::BountyNotFound);
        }
        let n = self.bounties.len();
        let b = &self.bounties[id as usize];
        proof { assert(b.wf()); }
        let ok_status = match &b.multitasking {
            None => b.status == super::types::BountyStatus::New,
            Some(Multitasking::OneForAll { .. }) => b.status == super::types::BountyStatus::New
                || b.status == super::types::BountyStatus::ManyClaimed
                || b.status == super::types::BountyStatus::AwaitingClaims,
            Some(_) => b.status == super::types::BountyStatus::New || b.status == super::types::BountyStatus::ManyClaimed,
        };
        if !ok_status {
            return Err(BountyError::BountyStatusForDecision);
        }
        let (claims, k) = match self.internal_get_claims(id, claimer) {
            Ok(x) => x,
            Err(_) => { return Err(BountyError::NoClaim); },
        };
        if claims[k].status != ClaimStatus::New {
            return Err(BountyError::ClaimStatusForDecision);
        }
        match &b.multitasking {
            Some(m) => {
                match m {
                    Multitasking::DifferentTasks { runtime_env: Some(env), .. } => {
                        match claims[k].slot {
                            Some(s) => if s >= env.participants.len() { return Err(BountyError::SlotOutOfRange); },
                            None => { return Err(BountyError::SlotOutOfRange); },
                        }
                    },
                    _ => {},
                }
                if !m.is_allowed_to_create_or_approve_claims(claims[k].slot, now) {
                    return Err(BountyError::NoLongerPossibleToClaim);
                }
            },
            None => {},
        }
        Ok((claims, k))
    }

    /// The first reason why a decision that passed the checks cannot be recorded: a
    /// count that would overflow, or a bond larger than the bonds held.
    pub open spec fn decision_store_error(&self, id: BountyIndex, claimer: Seq<char>, approve: bool) -> Option<BountyError> {
        let b = self.bounties@[id as int];
        let c = self.claim_of(claimer, id)->0;
        if approve && Self::approval_overflows(b) || !approve && self.locked_amount < bond_of(c.bond) {
            Some(BountyError::ArithmeticOverflow)
        } else {
            None
        }
    }

    /// `other` is this contract once the claim of `claimer` on bounty `id` is decided at
    /// `now`: approved (which may start the bounty and the claims waiting for it), or
    /// not hired, with the bond returned.
    pub open spec fn claim_decided(&self, other: &Self, id: BountyIndex, claimer: AccountId, approve: bool, is_kyc_delayed: Option<DefermentOfKYC>, now: u64) -> bool {
        let b = self.bounties@[id as int];
        let c = self.claim_of(claimer@, id)->0;
        let pos = choose|i: int| claim_index(self.claims_of(claimer@), id, i);
        let ready = self.claimants_with_status(id, ClaimStatus::ReadyToStart, claimer@).len() as int;
        let all_taken = all_slots_taken_with(b, c.slot, claimer);
        let starts = approve && approval_starts_others(b, ready, all_taken);
        &&& other.claims_of(claimer@) == self.claims_of(claimer@).update(pos, if approve {
            approved_claim(c, b, ready, all_taken, is_kyc_delayed, now)
        } else {
            BountyClaim { status: ClaimStatus::NotHired, ..c }
        })
        &&& forall|a: Seq<char>, x: BountyIndex| a != claimer@ ==> #[trigger] other.claim_of(a, x) == if x == id
            && starts && self.is_ready_claimant(id, a, claimer@) {
            Some(started_claim(self.claim_of(a, x)->0, now))
        } else {
            self.claim_of(a, x)
        }
        &&& other.bounties@.len() == self.bounties@.len()
        &&& forall|i: int| 0 <= i < self.bounties@.len() && i != id ==> #[trigger] other.bounties@[i] == self.bounties@[i]
        &&& if approve {
            approved_bounty(b, other.bounties@[id as int], claimer, c.slot, ready, now)
        } else {
            other.bounties@[id as int] == b
        }
        &&& other.locked_amount == if approve { self.locked_amount } else { (self.locked_amount - bond_of(c.bond)) as u128 }
        &&& *other == (BountiesContract {
            bounties: other.bounties,
            bounty_claimers: other.bounty_claimers,
            locked_amount: other.locked_amount,
            ..*self
        })
    }

    /// What a decision tells and sends: the approval to the reputation contract, or the
    /// bond back to a claimant that is not hired.
    pub open spec fn decision_effects(&self, id: BountyIndex, claimer: AccountId, approve: bool) -> Seq<Effect> {
        let b = self.bounties@[id as int];
        let c = self.claim_of(claimer@, id)->0;
        if approve {
            self.statistic(Some(claimer), Some(b.owner), ReputationActionKind::ClaimerApproved)
        } else if bond_of(c.bond) == 0 {
            Seq::empty()
        } else {
            seq![Effect::Transfer { receiver_id: claimer, amount: bond_of(c.bond) }]
        }
    }

    /// Approves the claim of `claimer` on bounty `id`, or turns it down and returns the
    /// bond.
    pub(crate) fn internal_approval_and_save_claim(
        &mut self,
        id: BountyIndex,
        claimer: &AccountId,
        approve: bool,
        is_kyc_delayed: Option<DefermentOfKYC>,
        now: u64,
        effects: &mut Vec<Effect>,
    ) -> (r: Result<(), BountyError>)
        requires
            old(self).wf(),
        ensures
            final(self).wf(),
            r is Err ==> *final(self) == *old(self) && final(effects)@ == old(effects)@,
            r is Err <==> old(self).approve_claim_error(id, claimer@, now) is Some
                || old(self).decision_store_error(id, claimer@, approve) is Some,
            r matches Err(e) ==> e == (match old(self).approve_claim_error(id, claimer@, now) {
                Some(e1) => e1,
                None => BountyError::ArithmeticOverflow,
            }),
            r is Ok ==> old(self).claim_decided(&*final(self), id, *claimer, approve, is_kyc_delayed, now),
            r is Ok ==> final(effects)@ == old(effects)@ + old(self).decision_effects(id, *claimer, approve),
    {
        let (mut claims, k) = self.check_if_allowed_to_approve_claim_by_status(id, claimer, now)?;
        let ghost s0 = *self;
        let ghost pos = choose|i: int| claim_index(s0.claims_of(claimer@), id, i);
        proof {
            lemma_claim_in(claims@, id, k as int);
            assert(pos == k as int) by {
                if pos < k { assert(claims@[pos].bounty_id != id); }
                if k < pos { assert(claims@[k as int].bounty_id != id); }
            }
        }
        let n = self.bounties.len();
        proof { assert(self.bounties@[id as int].wf()); }
        let mut claim = claims[k].copy();
        if approve {
            match &self.bounties[id as usize].multitasking {
                Some(Multitasking::ContestOrHackathon { runtime_env: Some(env), .. }) => {
                    if env.participants == u32::MAX {
                        return Err(BountyError::ArithmeticOverflow);
                    }
                },
                _ => {},
            }
            let mut bounty = self.take_bounty(id);
            proof {
                let p1 = |a: AccountId| a@ != claimer@ && self.claim_has_status(a@, id, ClaimStatus::ReadyToStart);
                let p2 = |a: AccountId| a@ != claimer@ && s0.claim_has_status(a@, id, ClaimStatus::ReadyToStart);
                assert(p1 =~= p2);
            }
            let ghost s1 = *self;
            self.internal_claimer_approval(id, &mut bounty, &mut claim, claimer, is_kyc_delayed, now, effects);
            let ghost mid = *self;
            proof {
                assert forall|a: Seq<char>, x: BountyIndex| #[trigger] mid.claim_of(a, x) == if x == id
                    && approval_starts_others(s0.bounties@[id as int],
                        s0.claimants_with_status(id, ClaimStatus::ReadyToStart, claimer@).len() as int,
                        all_slots_taken_with(s0.bounties@[id as int], claims@[k as int].slot, *claimer))
                    && s0.is_ready_claimant(id, a, claimer@) {
                    Some(started_claim(s0.claim_of(a, x)->0, now))
                } else {
                    s0.claim_of(a, x)
                } by {
                    assert(s1.claim_of(a, x) == s0.claim_of(a, x));
                    assert(s1.is_ready_claimant(id, a, claimer@) == s0.is_ready_claimant(id, a, claimer@));
                }
            }
            claims.set(k, claim);
            self.internal_save_claims(claimer, claims);
            let ghost after_save = *self;
            self.put_bounty(id, bounty);
            proof {
                assert(self.bounties@ =~= s0.bounties@.update(id as int, self.bounties@[id as int]));
                assert forall|i: int| 0 <= i < self.bounties@.len() implies (#[trigger] self.bounties@[i]).wf() by {
                    if i != id { assert(self.bounties@[i] == s0.bounties@[i]); }
                }
                assert forall|a: Seq<char>, x: BountyIndex| a != claimer@ implies #[trigger] self.claim_of(a, x) == mid.claim_of(a, x) by {
                    assert(self.bounty_claimers == after_save.bounty_claimers);
                    assert(after_save.claims_of(a) == mid.claims_of(a));
                }
            }
        } else {
            let bond = claim.bond;
            let amount = match bond {
                Some(b) => b,
                None => super::types::DEFAULT_BOUNTY_CLAIM_BOND,
            };
            if self.locked_amount < amount {
                return Err(BountyError::ArithmeticOverflow);
            }
            claim.status = ClaimStatus::NotHired;
            self.internal_return_bonds(claimer, bond, effects);
            claims.set(k, claim);
            let ghost before_save = *self;
            self.internal_save_claims(claimer, claims);
            proof {
                assert forall|a: Seq<char>, x: BountyIndex| a != claimer@ implies #[trigger] self.claim_of(a, x) == s0.claim_of(a, x) by {
                    assert(self.claims_of(a) == before_save.claims_of(a));
                }
            }
        }
        Ok(())
    }

    /// The first reason why `ctx` cannot decide now on the claim of `claimer` on bounty `id`.
    pub open spec fn decision_request_error(&self, ctx: CallContext, id: BountyIndex, claimer: Seq<char>) -> Option<BountyError> {
        let b = self.bounties@[id as int];
        if self.status != ContractStatus::Live {
            Some(BountyError::NotLive)
        } else if ctx.attached_deposit != 1 {
            Some(BountyError::OneYoctoRequired)
        } else if self.approve_claim_error(id, claimer, ctx.block_timestamp) is Some {
            self.approve_claim_error(id, claimer, ctx.block_timestamp)
        } else if b.spec_check_access_rights(ctx.predecessor@) is Err {
            Some(b.spec_check_access_rights(ctx.predecessor@)->Err_0)
        } else if !b.spec_is_claim_deadline_correct(self.claim_of(claimer, id)->0.deadline, ctx.block_timestamp) {
            Some(BountyError::ClaimDeadlineNoLongerCorrect)
        } else {
            None
        }
    }

    /// The owner of bounty `id` (or its validators DAO) approves the claim of `claimer`,
    /// or turns it down. Where the claimant's KYC status must be checked first, the
    /// contract only asks for that.
    pub fn decision_on_claim(
        &mut self,
        ctx: &CallContext,
        id: BountyIndex,
        claimer: AccountId,
        approve: bool,
        kyc_postponed: Option<DefermentOfKYC>,
    ) -> (r: Result<Vec<Effect>, BountyError>)
        requires
            old(self).wf(),
        ensures
            final(self).wf(),
            r is Err ==> *final(self) == *old(self),
            old(self).decision_request_error(*ctx, id, claimer@) matches Some(e) ==> r == Err::<Vec<Effect>, BountyError>(e),
            old(self).decision_request_error(*ctx, id, claimer@) is None ==> {
                let b = old(self).bounties@[id as int];
                let place = PlaceOfCheckKYC::DecisionOnClaim { approve, is_kyc_delayed: kyc_postponed };
                if old(self).kyc_check(b, None, None, place) is Err {
                    r == Err::<Vec<Effect>, BountyError>(BountyError::KycContractNotSet)
                } else if old(self).kyc_check(b, None, None, place) == Ok::<bool, BountyError>(true) {
                    &&& *final(self) == *old(self)
                    &&& r matches Ok(effects) && effects@ == seq![old(self).kyc_query(id, claimer, place, None)]
                } else {
                    &&& r is Err <==> old(self).decision_store_error(id, claimer@, approve) is Some
                    &&& r matches Err(e) ==> e == BountyError::ArithmeticOverflow
                    &&& r matches Ok(effects) ==> old(self).claim_decided(&*final(self), id, claimer, approve, kyc_postponed, ctx.block_timestamp)
                        && effects@ == old(self).decision_effects(id, claimer, approve)
                }
            },
    {
        self.assert_live()?;
        if ctx.attached_deposit != 1 {
            return Err(BountyError::OneYoctoRequired);
        }
        let now = ctx.block_timestamp;
        let (claims, k) = self.check_if_allowed_to_approve_claim_by_status(id, &claimer, now)?;
        let n = self.bounties.len();
        let b = &self.bounties[id as usize];
        b.check_access_rights(&ctx.predecessor)?;
        if !b.is_claim_deadline_correct(claims[k].deadline, now) {
            return Err(BountyError::ClaimDeadlineNoLongerCorrect);
        }
        let place = PlaceOfCheckKYC::DecisionOnClaim { approve, is_kyc_delayed: kyc_postponed };
        let kyc = match self.is_kyc_check_required(b, None, None, &place) {
            Ok(k) => k,
            Err(_) => { return Err(BountyError::KycContractNotSet); },
        };
        if kyc {
            let contract = self.kyc_whitelist_contract.clone().unwrap();
            return Ok(vec![Effect::IsWhitelisted {
                kyc_whitelist_contract: contract,
                account_id: claimer.clone(),
                then: Callback::AfterCheckIfWhitelisted { id, claimer: claimer.clone(), place_of_check: place, slot: None },
            }]);
        }
        let mut effects: Vec<Effect> = Vec::new();
        self.internal_approval_and_save_claim(id, &claimer, approve, kyc_postponed, now, &mut effects)?;
        Ok(effects)
    }
}

} // verus!
