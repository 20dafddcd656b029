//! Claiming a bounty: the checks, the new claim, and its approval where none is needed.
use vstd::prelude::*;
use crate::accounts::{AccountId, has_account};
use super::types::{
    BountyIndex, BountyStatus, ClaimStatus, ClaimerApproval, ContractStatus, KycConfig,
    KycVerificationMethod, PaymentTimestamps, PlaceOfCheckKYC, ReputationActionKind, Reviewers,
};
use super::multitasking::{Multitasking, slots};
use super::bounty::Bounty;
use super::claim::BountyClaim;
use super::claims::{claim_in, claim_index, has_claim, find_claim, lemma_claim_in, lemma_claim_in_update, lemma_claim_in_push, lemma_first_claim};
use super::approval::{approval_allowed, approved_bounty, approved_claim, approval_starts_others, all_slots_taken_with, started_claim};
use super::errors::BountyError;
use super::effects::{CallContext, Callback, Effect, ProposalAction};
use super::contract::BountiesContract;

verus! {

/// A misuse of the slot parameter: only a bounty with subtasks takes one, and it must
/// name one of its subtasks.
pub open spec fn slot_error(b: Bounty, slot: Option<usize>) -> Option<BountyError> {
    match b.multitasking {
        Some(Multitasking::DifferentTasks { subtasks, .. }) => match slot {
            None => Some(BountyError::SlotRequired),
            Some(s) => if s >= subtasks@.len() { Some(BountyError::SlotOutOfRange) } else { None },
        },
        _ => if slot is Some { Some(BountyError::SlotNotUsed) } else { None },
    }
}

/// The bounty statuses in which a bounty of this kind takes claims.
pub open spec fn claimable(b: Bounty) -> bool {
    match b.multitasking {
        None => b.status == BountyStatus::New,
        Some(Multitasking::OneForAll { .. }) => b.status == BountyStatus::New
            || b.status == BountyStatus::ManyClaimed || b.status == BountyStatus::AwaitingClaims,
        Some(_) => b.status == BountyStatus::New || b.status == BountyStatus::ManyClaimed,
    }
}

/// An earlier claim with this status keeps the claimant from claiming the bounty again.
pub open spec fn blocks_new_claim(b: Bounty, s: ClaimStatus) -> bool {
    match b.multitasking {
        None => s == ClaimStatus::New,
        Some(Multitasking::ContestOrHackathon { .. }) => s == ClaimStatus::New || s == ClaimStatus::Competes
            || s == ClaimStatus::Completed || s == ClaimStatus::NotHired,
        Some(Multitasking::OneForAll { .. }) => s == ClaimStatus::New || s == ClaimStatus::ReadyToStart
            || s == ClaimStatus::InProgress || s == ClaimStatus::Completed || s == ClaimStatus::Rejected
            || s == ClaimStatus::Disputed,
        Some(Multitasking::DifferentTasks { .. }) => s == ClaimStatus::New || s == ClaimStatus::ReadyToStart
            || s == ClaimStatus::InProgress || s == ClaimStatus::Completed || s == ClaimStatus::Rejected
            || s == ClaimStatus::Disputed || s == ClaimStatus::CompletedWithDispute,
    }
}

/// The claim that `claimer` makes on bounty `id` of kind `b` at `now`, before any approval.
pub open spec fn fresh_claim(b: Bounty, id: BountyIndex, deadline: u64, description: String, proposal_id: Option<u64>, slot: Option<usize>, bond: u128, now: u64) -> BountyClaim {
    BountyClaim {
        bounty_id: id,
        created_at: now,
        start_time: None,
        deadline,
        description,
        status: ClaimStatus::New,
        bounty_payout_proposal_id: None,
        approve_claimer_proposal_id: proposal_id,
        rejected_timestamp: None,
        dispute_id: None,
        is_kyc_delayed: None,
        payment_timestamps: if b.spec_is_payment_outside_contract() && b.spec_is_one_bounty_for_many_claimants()
            || b.spec_is_different_tasks() {
            Some(PaymentTimestamps { payment_at: None, payment_confirmed_at: None })
        } else {
            None
        },
        slot,
        bond: Some(bond),
    }
}

/// The claims of an account once `c` is its claim on bounty `id`: it replaces the
/// earlier claim on that bounty, or joins the list.
pub open spec fn with_claim(claims: Seq<BountyClaim>, id: BountyIndex, c: BountyClaim) -> Seq<BountyClaim> {
    if has_claim(claims, id) {
        claims.update(choose|i: int| claim_index(claims, id, i), c)
    } else {
        claims.push(c)
    }
}

impl BountiesContract {
    /// The first reason why `claimer` cannot claim bounty `id` (on `slot`) at `now`.
    pub open spec fn create_claim_error(&self, id: BountyIndex, claimer: Seq<char>, slot: Option<usize>, now: u64) -> Option<BountyError> {
        if id >= self.bounties@.len() {
            Some(BountyError::BountyNotFound)
        } else {
            let b = self.bounties@[id as int];
            if slot_error(b, slot) is Some {
                slot_error(b, slot)
            } else if !claimable(b) {
                Some(BountyError::BountyStatusForClaim)
            } else if self.claim_of(claimer, id) matches Some(c) && blocks_new_claim(b, c.status) {
                Some(BountyError::ClaimAlreadyExists)
            } else if b.multitasking matches Some(m) && !m.spec_is_allowed_to_create_or_approve_claims(slot, now) {
                Some(BountyError::NoLongerPossibleToClaim)
            } else {
                None
            }
        }
    }

    /// Checks that `claimer` may claim bounty `id` (on `slot`) at `now`.
    pub fn check_if_allowed_to_create_claim_by_status(&self, id: BountyIndex, claimer: &AccountId, slot: Option<usize>, now: u64) -> (r: Result<(), BountyError>)
        requires
            self.wf(),
        ensures
            r is Err <==> self.create_claim_error(id, claimer@, slot, now) is Some,
            r matches Err(e) ==> self.create_claim_error(id, claimer@, slot, now) == Some(e),
    {
        if id >= self.last_bounty_id {
            return Err(BountyError::BountyNotFound);
        }
        let n = self.bounties.len();
        let b = &self.bounties[id as usize];
        proof { assert(b.wf()); }
        match &b.multitasking {
            Some(Multitasking::DifferentTasks { subtasks, .. }) => match slot {
                None => { return Err(BountyError::SlotRequired); },
                Some(s) => if s >= subtasks.len() { return Err(BountyError::SlotOutOfRange); },
            },
            _ => if slot.is_some() { return Err(BountyError::SlotNotUsed); },
        }
        let ok_status = match &b.multitasking {
            None => b.status == BountyStatus::New,
            Some(Multitasking::OneForAll { .. }) => b.status == BountyStatus::New
                || b.status == BountyStatus::ManyClaimed || b.status == BountyStatus::AwaitingClaims,
            Some(_) => b.status == BountyStatus::New || b.status == BountyStatus::ManyClaimed,
        };
        if !ok_status {
            return Err(BountyError::BountyStatusForClaim);
        }
        match self.internal_get_claims(id, claimer) {
            Ok((claims, k)) => {
                let s = claims[k].status;
                let blocks = match &b.multitasking {
                    None => s == ClaimStatus::New,
                    Some(Multitasking::ContestOrHackathon { .. }) => s == ClaimStatus::New || s == ClaimStatus::Competes
                        || s == ClaimStatus::Completed || s == ClaimStatus::NotHired,
                    Some(Multitasking::OneForAll { .. }) => s == ClaimStatus::New || s == ClaimStatus::ReadyToStart
                        || s == ClaimStatus::InProgress || s == ClaimStatus::Completed || s == ClaimStatus::Rejected
                        || s == ClaimStatus::Disputed,
                    Some(Multitasking::DifferentTasks { .. }) => s == ClaimStatus::New || s == ClaimStatus::ReadyToStart
                        || s == ClaimStatus::InProgress || s == ClaimStatus::Completed || s == ClaimStatus::Rejected
                        || s == ClaimStatus::Disputed || s == ClaimStatus::CompletedWithDispute,
                };
                if blocks {
                    return Err(BountyError::ClaimAlreadyExists);
                }
            },
            Err(_) => {},
        }
        match &b.multitasking {
            Some(m) => {
                if !m.is_allowed_to_create_or_approve_claims(slot, now) {
                    return Err(BountyError::NoLongerPossibleToClaim);
                }
            },
            None => {},
        }
        Ok(())
    }

    /// Where the approval of a claim cannot be counted without overflow.
    pub open spec fn approval_overflows(b: Bounty) -> bool {
        b.multitasking matches Some(m) && m is ContestOrHackathon
            && super::multitasking::contest_env(m).participants == u32::MAX
    }

    /// The first reason why a claim made after all checks cannot be stored: an approval
    /// setting that is no longer supported, or a count that would overflow.
    pub open spec fn store_claim_error(&self, b: Bounty, claimer: Seq<char>) -> Option<BountyError> {
        if b.claimer_approval is ApprovalWithWhitelist {
            Some(BountyError::UnsupportedApprovalSetting)
        } else if self.locked_amount + self.config.bounty_claim_bond > u128::MAX
            || !b.claimer_approval.spec_is_approval_required(claimer) && Self::approval_overflows(b) {
            Some(BountyError::ArithmeticOverflow)
        } else {
            None
        }
    }

    /// Creates the claim of `claimer` on bounty `id` at `now`, approving it at once where
    /// the bounty needs no approval; the claimant's bond is held.
    pub fn internal_create_claim(
        &mut self,
        id: BountyIndex,
        claimer: &AccountId,
        deadline: u64,
        description: String,
        proposal_id: Option<u64>,
        slot: Option<usize>,
        now: u64,
        effects: &mut Vec<Effect>,
    ) -> (r: Result<(), BountyError>)
        requires
            old(self).wf(),
        ensures
            final(self).wf(),
            r is Err ==> *final(self) == *old(self) && final(effects)@ == old(effects)@,
            r is Err <==> old(self).create_claim_error(id, claimer@, slot, now) is Some
                || old(self).store_claim_error(old(self).bounties@[id as int], claimer@) is Some,
            r matches Err(e) ==> e == (match old(self).create_claim_error(id, claimer@, slot, now) {
                Some(e1) => e1,
                None => old(self).store_claim_error(old(self).bounties@[id as int], claimer@)->0,
            }),
            r is Ok ==> old(self).claim_created(&*final(self), id, *claimer, deadline, description, proposal_id, slot, now),
            r is Ok ==> final(effects)@ == old(effects)@ + old(self).claim_statistics(id, *claimer),
    {
        self.check_if_allowed_to_create_claim_by_status(id, claimer, slot, now)?;
        let ghost s0 = *self;
        let n = self.bounties.len();
        proof { assert(self.bounties@[id as int].wf()); }
        let bond = self.config.bounty_claim_bond;
        match &self.bounties[id as usize].claimer_approval {
            ClaimerApproval::ApprovalWithWhitelist => { return Err(BountyError::UnsupportedApprovalSetting); },
            _ => {},
        }
        let approval_required = self.bounties[id as usize].claimer_approval.is_approval_required(claimer);
        if self.locked_amount > u128::MAX - bond {
            return Err(BountyError::ArithmeticOverflow);
        }
        if !approval_required {
            match &self.bounties[id as usize].multitasking {
                Some(Multitasking::ContestOrHackathon { runtime_env: Some(env), .. }) => {
                    if env.participants == u32::MAX {
                        return Err(BountyError::ArithmeticOverflow);
                    }
                },
                _ => {},
            }
        }
        let mut claims = match self.internal_get_claims(id, claimer) {
            Ok((c, _)) => c,
            Err(_) => {
                proof {
                    assert(s0.claims_of(claimer@).len() == 0 || !has_claim(s0.claims_of(claimer@), id)) by {
                        if s0.bounty_claimers@.contains_key(claimer@) {
                            assert(!has_claim(s0.claims_of(claimer@), id));
                        }
                    }
                }
                if self.bounty_claimers.contains_key(claimer.as_str()) {
                    crate::bounties::claims::copy_claims(self.bounty_claimers.get(claimer.as_str()).unwrap())
                } else {
                    Vec::new()
                }
            },
        };
        proof { assert(claims@ == s0.claims_of(claimer@)); }
        let mut bounty = self.take_bounty(id);
        proof {
            let p1 = |a: AccountId| a@ != claimer@ && self.claim_has_status(a@, id, ClaimStatus::ReadyToStart);
            let p2 = |a: AccountId| a@ != claimer@ && s0.claim_has_status(a@, id, ClaimStatus::ReadyToStart);
            assert(p1 =~= p2);
            assert(self.claimants_with_status(id, ClaimStatus::ReadyToStart, claimer@)
                == s0.claimants_with_status(id, ClaimStatus::ReadyToStart, claimer@));
        }
        let payment_timestamps = if bounty.is_payment_outside_contract() && bounty.is_one_bounty_for_many_claimants()
            || bounty.is_different_tasks() {
            Some(PaymentTimestamps::default())
        } else {
            None
        };
        let mut claim = BountyClaim {
            bounty_id: id,
            created_at: now,
            start_time: None,
            deadline,
            description,
            status: ClaimStatus::New,
            bounty_payout_proposal_id: None,
            approve_claimer_proposal_id: proposal_id,
            rejected_timestamp: None,
            dispute_id: None,
            is_kyc_delayed: None,
            payment_timestamps,
            slot,
            bond: Some(bond),
        };
        let ghost s1 = *self;
        let ghost b0 = bounty;
        if !approval_required {
            self.internal_claimer_approval(id, &mut bounty, &mut claim, claimer, None, now, effects);
        }
        let ghost mid = *self;
        proof {
            let ready = s0.claimants_with_status(id, ClaimStatus::ReadyToStart, claimer@).len() as int;
            let starts = !approval_required && approval_starts_others(b0, ready, all_slots_taken_with(b0, slot, *claimer));
            assert forall|a: Seq<char>, x: BountyIndex| #[trigger] mid.claim_of(a, x) == if x == id
                && starts && s0.is_ready_claimant(id, a, claimer@) {
                Some(started_claim(s0.claim_of(a, x)->0, now))
            } else {
                s0.claim_of(a, x)
            } by {
                assert(s1.claim_of(a, x) == s0.claim_of(a, x));
                assert(s1.is_ready_claimant(id, a, claimer@) == s0.is_ready_claimant(id, a, claimer@));
            }
        }
        match find_claim(id, &claims) {
            Some(i) => {
                let ghost before = claims@;
                claims.set(i, claim);
                proof {
                    assert(claims@ == with_claim(before, id, claim)) by {
                        lemma_claim_in(before, id, i as int);
                        let k = choose|k: int| claim_index(before, id, k);
                        assert(k == i as int) by {
                            if k < i { assert(before[k].bounty_id != id); }
                            if i < k { assert(before[i as int].bounty_id != id); }
                        }
                    }
                }
            },
            None => {
                claims.push(claim);
            },
        }
        self.internal_save_claims(claimer, claims);
        let ghost after_save = *self;
        self.put_bounty(id, bounty);
        self.internal_add_bounty_claimer_account(id, claimer);
        self.locked_amount = self.locked_amount + bond;
        let owner = self.bounties[id as usize].owner.clone();
        self.push_statistic(effects, Some(claimer.clone()), Some(owner), ReputationActionKind::ClaimCreated);
        proof {
            let b = s0.bounties@[id as int];
            let c = fresh_claim(b, id, deadline, description, proposal_id, slot, bond, now);
            assert(claim.bounty_id == id);
            assert(self.claims_of(claimer@) == with_claim(s0.claims_of(claimer@), id,
                if !approval_required { approved_claim(c, b, s0.claimants_with_status(id, ClaimStatus::ReadyToStart, claimer@).len() as int, all_slots_taken_with(b, slot, *claimer), None, now) } else { c }));
            assert(self.bounties@ =~= s0.bounties@.update(id as int, self.bounties@[id as int]));
            assert forall|i: int| 0 <= i < self.bounties@.len() implies (#[trigger] self.bounties@[i]).wf() by {
                if i != id { assert(self.bounties@[i] == s0.bounties@[i]); }
            }
            let ready = s0.claimants_with_status(id, ClaimStatus::ReadyToStart, claimer@).len() as int;
            let all_taken = all_slots_taken_with(b, slot, *claimer);
            let approve = !b.claimer_approval.spec_is_approval_required(claimer@);
            let starts = approve && approval_starts_others(b, ready, all_taken);
            assert forall|a: Seq<char>, x: BountyIndex| a != claimer@ implies #[trigger] self.claim_of(a, x) == if x == id
                && starts && s0.is_ready_claimant(id, a, claimer@) {
                Some(started_claim(s0.claim_of(a, x)->0, now))
            } else {
                s0.claim_of(a, x)
            } by {
                assert(self.bounty_claimers == after_save.bounty_claimers);
                assert(after_save.claims_of(a) == mid.claims_of(a));
                assert(mid.claim_of(a, x) == if x == id
                    && starts && s0.is_ready_claimant(id, a, claimer@) {
                    Some(started_claim(s0.claim_of(a, x)->0, now))
                } else {
                    s0.claim_of(a, x)
                });
            }
            assert(if approve {
                approved_bounty(b, self.bounties@[id as int], *claimer, slot, ready, now)
            } else {
                self.bounties@[id as int] == b
            });
            assert(self.claimants_of(id) == (if has_account(s0.claimants_of(id), claimer@) {
                s0.claimants_of(id)
            } else {
                s0.claimants_of(id).push(*claimer)
            }));
        }
        Ok(())
    }

    /// The records for the reputation contract that a new claim of `claimer` on bounty
    /// `id` makes: its approval where it needs none, then its creation.
    pub open spec fn claim_statistics(&self, id: BountyIndex, claimer: AccountId) -> Seq<Effect> {
        let b = self.bounties@[id as int];
        (if b.claimer_approval.spec_is_approval_required(claimer@) {
            Seq::empty()
        } else {
            self.statistic(Some(claimer), Some(b.owner), ReputationActionKind::ClaimerApproved)
        }) + self.statistic(Some(claimer), Some(b.owner), ReputationActionKind::ClaimCreated)
    }

    /// `other` is this contract after `claimer` claims bounty `id` at `now`: the claim is
    /// stored (approved where the bounty needs no approval, which may start it and the
    /// claims waiting for it), the claimant listed and the bond held.
    pub open spec fn claim_created(&self, other: &Self, id: BountyIndex, claimer: AccountId, deadline: u64, description: String, proposal_id: Option<u64>, slot: Option<usize>, now: u64) -> bool {
        let b = self.bounties@[id as int];
        let bond = self.config.bounty_claim_bond;
        let c = fresh_claim(b, id, deadline, description, proposal_id, slot, bond, now);
        let ready = self.claimants_with_status(id, ClaimStatus::ReadyToStart, claimer@).len() as int;
        let all_taken = all_slots_taken_with(b, slot, claimer);
        let approve = !b.claimer_approval.spec_is_approval_required(claimer@);
        let starts = approve && approval_starts_others(b, ready, all_taken);
        &&& other.claims_of(claimer@) == with_claim(self.claims_of(claimer@), id,
            if approve { approved_claim(c, b, ready, all_taken, None, now) } else { c })
        &&& forall|a: Seq<char>, x: BountyIndex| a != claimer@ ==> #[trigger] other.claim_of(a, x) == if x == id
            && starts && self.is_ready_claimant(id, a, claimer@) {
            Some(started_claim(self.claim_of(a, x)->0, now))
        } else {
            self.claim_of(a, x)
        }
        &&& other.bounties@.len() == self.bounties@.len()
        &&& forall|i: int| 0 <= i < self.bounties@.len() && i != id ==> #[trigger] other.bounties@[i] == self.bounties@[i]
        &&& if approve {
            approved_bounty(b, other.bounties@[id as int], claimer, slot, ready, now)
        } else {
            other.bounties@[id as int] == b
        }
        &&& other.claimants_of(id) == (if has_account(self.claimants_of(id), claimer@) {
            self.claimants_of(id)
        } else {
            self.claimants_of(id).push(claimer)
        })
        &&& other.locked_amount == self.locked_amount + bond
        &&& other.tokens == self.tokens
        &&& other.last_bounty_id == self.last_bounty_id
        &&& other.account_bounties == self.account_bounties
        &&& other.unlocked_amount == self.unlocked_amount
        &&& other.admins_whitelist == self.admins_whitelist
        &&& other.config == self.config
        &&& other.reputation_contract == self.reputation_contract
        &&& other.dispute_contract == self.dispute_contract
        &&& other.kyc_whitelist_contract == self.kyc_whitelist_contract
        &&& other.owners_whitelist == self.owners_whitelist
        &&& other.total_fees == self.total_fees
        &&& other.total_validators_dao_fees == self.total_validators_dao_fees
        &&& other.recipient_of_platform_fee == self.recipient_of_platform_fee
        &&& other.status == self.status
    }

    /// Whether the claimant's KYC status must be checked here first; refused where the
    /// bounty requires KYC and no KYC whitelist contract is set, or on an approval
    /// setting that is no longer supported.
    pub open spec fn kyc_check(&self, b: Bounty, claim: Option<BountyClaim>, claimer: Option<Seq<char>>, place: PlaceOfCheckKYC) -> Result<bool, BountyError> {
        match b.kyc_config {
            KycConfig::KycRequired { kyc_verification_method } => {
                if self.kyc_whitelist_contract is None {
                    Err(BountyError::KycContractNotSet)
                } else {
                    match place {
                        PlaceOfCheckKYC::CreatingClaim { .. } =>
                            Ok(kyc_verification_method == KycVerificationMethod::WhenCreatingClaim),
                        PlaceOfCheckKYC::DecisionOnClaim { approve, is_kyc_delayed } =>
                            Ok(approve && is_kyc_delayed is None),
                        PlaceOfCheckKYC::ClaimDone { .. } => {
                            if claim matches Some(c) && c.is_kyc_delayed == Some(super::types::DefermentOfKYC::BeforeDeadline) {
                                Ok(true)
                            } else if claimer is Some {
                                if b.claimer_approval is ApprovalWithWhitelist {
                                    Err(BountyError::UnsupportedApprovalSetting)
                                } else {
                                    Ok(!b.claimer_approval.spec_is_approval_required(claimer->0))
                                }
                            } else {
                                Ok(false)
                            }
                        },
                    }
                }
            },
            _ => Ok(false),
        }
    }

    pub fn is_kyc_check_required(&self, b: &Bounty, claim: Option<&BountyClaim>, claimer: Option<&AccountId>, place: &PlaceOfCheckKYC) -> (r: Result<bool, BountyError>)
        ensures
            r == self.kyc_check(*b, match claim { Some(c) => Some(*c), None => None },
                match claimer { Some(a) => Some(a@), None => None }, *place),
    {
        match b.kyc_config {
            KycConfig::KycRequired { kyc_verification_method } => {
                if self.kyc_whitelist_contract.is_none() {
                    return Err(BountyError::KycContractNotSet);
                }
                match place {
                    PlaceOfCheckKYC::CreatingClaim { .. } =>
                        Ok(kyc_verification_method == KycVerificationMethod::WhenCreatingClaim),
                    PlaceOfCheckKYC::DecisionOnClaim { approve, is_kyc_delayed } =>
                        Ok(*approve && is_kyc_delayed.is_none()),
                    PlaceOfCheckKYC::ClaimDone { .. } => {
                        let delayed = match claim {
                            Some(c) => match c.is_kyc_delayed {
                                Some(super::types::DefermentOfKYC::BeforeDeadline) => true,
                                _ => false,
                            },
                            None => false,
                        };
                        if delayed {
                            Ok(true)
                        } else {
                            match claimer {
                                Some(a) => match &b.claimer_approval {
                                    ClaimerApproval::ApprovalWithWhitelist => Err(BountyError::UnsupportedApprovalSetting),
                                    ap => Ok(!ap.is_approval_required(a)),
                                },
                                None => Ok(false),
                            }
                        }
                    },
                }
            },
            _ => Ok(false),
        }
    }

    /// The first reason why `ctx` cannot claim bounty `id` for `deadline` with
    /// `description` (on `slot`).
    pub open spec fn claim_request_error(&self, ctx: CallContext, id: BountyIndex, deadline: u64, description: String, slot: Option<usize>) -> Option<BountyError> {
        let b = self.bounties@[id as int];
        if self.status != ContractStatus::Live {
            Some(BountyError::NotLive)
        } else if ctx.attached_deposit != self.config.bounty_claim_bond {
            Some(BountyError::WrongBond)
        } else if description@.len() == 0 {
            Some(BountyError::EmptyClaimDescription)
        } else if self.create_claim_error(id, ctx.predecessor@, slot, ctx.block_timestamp) is Some {
            self.create_claim_error(id, ctx.predecessor@, slot, ctx.block_timestamp)
        } else if !b.spec_is_claim_deadline_correct(deadline, ctx.block_timestamp) {
            Some(BountyError::WrongDeadline)
        } else if b.spec_owner_or_reviewer_error(ctx.predecessor@) is Some {
            b.spec_owner_or_reviewer_error(ctx.predecessor@)
        } else if b.claimer_approval is ApprovalWithWhitelist {
            Some(BountyError::UnsupportedApprovalSetting)
        } else if b.claimer_approval.spec_not_allowed_to_create_claim(ctx.predecessor@) {
            Some(BountyError::NotWhitelisted)
        } else if self.kyc_check(b, None, None, PlaceOfCheckKYC::CreatingClaim { deadline, description }) is Err {
            Some(BountyError::KycContractNotSet)
        } else {
            None
        }
    }

    /// The proposal asking the validators DAO of `b` to approve the claimant.
    pub open spec fn approve_claimer_proposal(b: Bounty, id: BountyIndex, claimer: AccountId, deadline: u64, description: String, slot: Option<usize>) -> Effect {
        let dao = b.reviewers->0->ValidatorsDao_validators_dao;
        Effect::AddProposal {
            dao: dao.account_id,
            description,
            action: ProposalAction::ApproveClaimer { id, claimer, gas: dao.gas_for_claimer_approval },
            bond: dao.add_proposal_bond,
            gas: dao.gas_for_add_proposal,
            then: Callback::AfterAddProposal { id, claimer, deadline, description, slot },
        }
    }

    /// The query of the KYC whitelist about `claimer`, then a callback that goes on.
    pub open spec fn kyc_query(&self, id: BountyIndex, claimer: AccountId, place_of_check: PlaceOfCheckKYC, slot: Option<usize>) -> Effect {
        Effect::IsWhitelisted {
            kyc_whitelist_contract: self.kyc_whitelist_contract->0,
            account_id: claimer,
            then: Callback::AfterCheckIfWhitelisted { id, claimer, place_of_check, slot },
        }
    }

    /// `ctx` claims bounty `id`, promising to finish within `deadline`, with the bond
    /// attached. Where the KYC status must be checked first, or the validators DAO must
    /// approve the claimant, the contract only asks for that; otherwise the claim is
    /// stored, and approved at once where the bounty needs no approval.
    pub fn bounty_claim(
        &mut self,
        ctx: &CallContext,
        id: BountyIndex,
        deadline: u64,
        description: String,
        slot: Option<usize>,
    ) -> (r: Result<Vec<Effect>, BountyError>)
        requires
            old(self).wf(),
        ensures
            final(self).wf(),
            r is Err ==> *final(self) == *old(self),
            old(self).claim_request_error(*ctx, id, deadline, description, slot) matches Some(e) ==> r == Err::<Vec<Effect>, BountyError>(e),
            old(self).claim_request_error(*ctx, id, deadline, description, slot) is None ==> {
                let b = old(self).bounties@[id as int];
                let place = PlaceOfCheckKYC::CreatingClaim { deadline, description };
                if old(self).kyc_check(b, None, None, place) == Ok::<bool, BountyError>(true) {
                    &&& *final(self) == *old(self)
                    &&& r matches Ok(effects) && effects@ == seq![old(self).kyc_query(id, ctx.predecessor, place, slot)]
                } else if b.spec_is_validators_dao_used() && b.claimer_approval.spec_is_approval_required(ctx.predecessor@) {
                    &&& *final(self) == *old(self)
                    &&& r matches Ok(effects) && effects@ == seq![Self::approve_claimer_proposal(b, id, ctx.predecessor, deadline, description, slot)]
                } else {
                    &&& r is Err <==> old(self).store_claim_error(b, ctx.predecessor@) is Some
                    &&& r matches Err(e) ==> old(self).store_claim_error(b, ctx.predecessor@) == Some(e)
                    &&& r matches Ok(effects) ==> old(self).claim_created(&*final(self), id, ctx.predecessor, deadline, description, None, slot, ctx.block_timestamp)
                        && effects@ == old(self).claim_statistics(id, ctx.predecessor)
                }
            },
    {
        self.assert_live()?;
        if ctx.attached_deposit != self.config.bounty_claim_bond {
            return Err(BountyError::WrongBond);
        }
        if description.as_str().is_empty() {
            return Err(BountyError::EmptyClaimDescription);
        }
        let claimer = &ctx.predecessor;
        let now = ctx.block_timestamp;
        self.check_if_allowed_to_create_claim_by_status(id, claimer, slot, now)?;
        let n = self.bounties.len();
        let b = &self.bounties[id as usize];
        if !b.is_claim_deadline_correct(deadline, now) {
            return Err(BountyError::WrongDeadline);
        }
        b.assert_account_is_not_owner_or_reviewer(claimer)?;
        match &b.claimer_approval {
            ClaimerApproval::ApprovalWithWhitelist => { return Err(BountyError::UnsupportedApprovalSetting); },
            ap => {
                if ap.not_allowed_to_create_claim(claimer) {
                    return Err(BountyError::NotWhitelisted);
                }
            },
        }
        let place = PlaceOfCheckKYC::CreatingClaim { deadline, description: description.clone() };
        let kyc = match self.is_kyc_check_required(b, None, None, &place) {
            Ok(k) => k,
            Err(_) => { return Err(BountyError::KycContractNotSet); },
        };
        if kyc {
            let contract = self.kyc_whitelist_contract.clone().unwrap();
            return Ok(vec![Effect::IsWhitelisted {
                kyc_whitelist_contract: contract,
                account_id: claimer.clone(),
                then: Callback::AfterCheckIfWhitelisted { id, claimer: claimer.clone(), place_of_check: place, slot },
            }]);
        }
        if b.is_validators_dao_used() && b.claimer_approval.is_approval_required(claimer) {
            return Ok(vec![self.internal_add_proposal_to_approve_claimer(id, claimer, deadline, description, slot)]);
        }
        let mut effects: Vec<Effect> = Vec::new();
        let owned_claimer = claimer.clone();
        self.internal_create_claim(id, &owned_claimer, deadline, description, None, slot, now, &mut effects)?;
        Ok(effects)
    }

    /// Asks the validators DAO of bounty `id` to approve `claimer`.
    pub(crate) fn internal_add_proposal_to_approve_claimer(&self, id: BountyIndex, claimer: &AccountId, deadline: u64, description: String, slot: Option<usize>) -> (e: Effect)
        requires
            id < self.bounties@.len(),
            self.bounties@[id as int].spec_is_validators_dao_used(),
        ensures
            e == Self::approve_claimer_proposal(self.bounties@[id as int], id, *claimer, deadline, description, slot),
    {
        let n = self.bounties.len();
        match &self.bounties[id as usize].reviewers {
            Some(Reviewers::ValidatorsDao { validators_dao }) => Effect::AddProposal {
                dao: validators_dao.account_id.clone(),
                description: description.clone(),
                action: ProposalAction::ApproveClaimer { id, claimer: claimer.clone(), gas: validators_dao.gas_for_claimer_approval },
                bond: validators_dao.add_proposal_bond,
                gas: validators_dao.gas_for_add_proposal,
                then: Callback::AfterAddProposal { id, claimer: claimer.clone(), deadline, description, slot },
            },
            _ => {
                proof { assert(false); }
                unreached()
            },
        }
    }
}

} // verus!
