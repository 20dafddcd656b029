//! What the owner of a running bounty may still change: the deadline of a claim, the
//! start of a contest, the settings of its validators DAO.
use vstd::prelude::*;
use crate::accounts::AccountId;
use super::types::{BountyIndex, BountyStatus, ClaimStatus, ContractStatus, DateOrPeriod, StartConditions, Reviewers, ValidatorsDaoParams};
use super::multitasking::{Multitasking, contest_env};
use super::bounty::Bounty;
use super::claim::BountyClaim;
use super::claims::{claim_index, lemma_claim_in, lemma_claim_index_unique};
use super::errors::BountyError;
use super::effects::CallContext;
use super::contract::BountiesContract;

verus! {

impl BountiesContract {
    /// The first reason why `ctx` cannot move the deadline of the claim of `claimer` on
    /// bounty `id` to `deadline`.
    pub open spec fn extend_deadline_error(&self, ctx: CallContext, id: BountyIndex, claimer: Seq<char>, deadline: u64) -> Option<BountyError> {
        if self.status != ContractStatus::Live {
            Some(BountyError::NotLive)
        } else if ctx.attached_deposit != 1 {
            Some(BountyError::OneYoctoRequired)
        } else if id >= self.bounties@.len() {
            Some(BountyError::BountyNotFound)
        } else {
            let b = self.bounties@[id as int];
            if !(b.status == BountyStatus::Claimed || b.status == BountyStatus::ManyClaimed) {
                Some(BountyError::BountyStatusForDeadline)
            } else if b.owner@ != ctx.predecessor@ {
                Some(BountyError::NotOwner)
            } else if self.claim_of(claimer, id) is None {
                if self.bounty_claimers@.contains_key(claimer) { Some(BountyError::NoClaim) } else { Some(BountyError::NoClaimer) }
            } else {
                let c = self.claim_of(claimer, id)->0;
                if !(c.status == ClaimStatus::InProgress || c.status == ClaimStatus::Competes) {
                    Some(BountyError::ClaimStatusForDeadline)
                } else if !(b.spec_is_claim_deadline_correct(deadline, ctx.block_timestamp) && deadline > c.deadline) {
                    Some(BountyError::IncorrectClaimDeadline)
                } else {
                    None
                }
            }
        }
    }

    /// The owner `ctx` of bounty `id` gives the claimant `claimer` more time: a later
    /// deadline that still fits the bounty's deadline.
    pub fn extend_claim_deadline(&mut self, ctx: &CallContext, id: BountyIndex, claimer: AccountId, deadline: u64) -> (r: Result<(), BountyError>)
        requires
            old(self).wf(),
        ensures
            final(self).wf(),
            r is Err <==> old(self).extend_deadline_error(*ctx, id, claimer@, deadline) is Some,
            r matches Err(e) ==> old(self).extend_deadline_error(*ctx, id, claimer@, deadline) == Some(e) && *final(self) == *old(self),
            r is Ok ==> {
                let k = choose|i: int| claim_index(old(self).claims_of(claimer@), id, i);
                let c = old(self).claims_of(claimer@)[k];
                final(self).saved_claims(&*old(self), claimer@, old(self).claims_of(claimer@).update(k, BountyClaim { deadline, ..c }))
            },
    {
        self.assert_live()?;
        if ctx.attached_deposit != 1 {
            return Err(BountyError::OneYoctoRequired);
        }
        if id >= self.last_bounty_id {
            return Err(BountyError::BountyNotFound);
        }
        let n = self.bounties.len();
        let b = &self.bounties[id as usize];
        if !(b.status == BountyStatus::Claimed || b.status == BountyStatus::ManyClaimed) {
            return Err(BountyError::BountyStatusForDeadline);
        }
        if b.owner != ctx.predecessor {
            return Err(BountyError::NotOwner);
        }
        let (mut claims, k) = self.internal_get_claims(id, &claimer)?;
        let ghost s0 = *self;
        proof {
            lemma_claim_index_unique(s0.claims_of(claimer@), id, k as int);
        }
        let st = claims[k].status;
        if !(st == ClaimStatus::InProgress || st == ClaimStatus::Competes) {
            return Err(BountyError::ClaimStatusForDeadline);
        }
        if !(b.is_claim_deadline_correct(deadline, ctx.block_timestamp) && deadline > claims[k].deadline) {
            return Err(BountyError::IncorrectClaimDeadline);
        }
        let mut c = claims[k].copy();
        c.deadline = deadline;
        claims.set(k, c);
        self.internal_save_claims(&claimer, claims);
        Ok(())
    }

    /// The first reason why `ctx` cannot start the contest of bounty `id` by hand.
    pub open spec fn start_error(&self, ctx: CallContext, id: BountyIndex) -> Option<BountyError> {
        if self.status != ContractStatus::Live {
            Some(BountyError::NotLive)
        } else if ctx.attached_deposit != 1 {
            Some(BountyError::OneYoctoRequired)
        } else if id >= self.bounties@.len() {
            Some(BountyError::BountyNotFound)
        } else {
            let b = self.bounties@[id as int];
            if b.status != BountyStatus::New {
                Some(BountyError::BountyStatusForStart)
            } else if b.owner@ != ctx.predecessor@ {
                Some(BountyError::NotOwner)
            } else if !b.spec_is_contest_or_hackathon() {
                Some(BountyError::ManualStartUnsupported)
            } else {
                let m = b.multitasking->0;
                if m->ContestOrHackathon_allowed_create_claim_to matches Some(DateOrPeriod::Date { date }) && ctx.block_timestamp <= date {
                    Some(BountyError::StartBeforeDate)
                } else if m.spec_has_competition_started() {
                    Some(BountyError::CompetitionStarted)
                } else if m->ContestOrHackathon_start_conditions != Some(StartConditions::ManuallyStart) {
                    Some(BountyError::ManualStartUnsupported)
                } else if contest_env(m).participants <= 1 {
                    Some(BountyError::TooFewParticipants)
                } else {
                    None
                }
            }
        }
    }

    /// The owner `ctx` starts the contest of bounty `id`, which starts by hand, once more
    /// than one contestant joined and claims may no longer be made by date.
    pub fn start_competition(&mut self, ctx: &CallContext, id: BountyIndex) -> (r: Result<(), BountyError>)
        requires
            old(self).wf(),
        ensures
            final(self).wf(),
            r is Err <==> old(self).start_error(*ctx, id) is Some,
            r matches Err(e) ==> old(self).start_error(*ctx, id) == Some(e) && *final(self) == *old(self),
            r is Ok ==> {
                let b = old(self).bounties@[id as int];
                let m = b.multitasking->0;
                let rb = final(self).bounties@[id as int];
                let rm = rb.multitasking->0;
                &&& final(self).bounties@ == old(self).bounties@.update(id as int, rb)
                &&& rb == Bounty { status: BountyStatus::ManyClaimed, multitasking: rb.multitasking, ..b }
                &&& rb.multitasking is Some
                &&& rm is ContestOrHackathon
                &&& rm->ContestOrHackathon_allowed_create_claim_to == m->ContestOrHackathon_allowed_create_claim_to
                &&& rm->ContestOrHackathon_successful_claims_for_result == m->ContestOrHackathon_successful_claims_for_result
                &&& rm->ContestOrHackathon_start_conditions == m->ContestOrHackathon_start_conditions
                &&& contest_env(rm) == (super::types::ContestOrHackathonEnv {
                    started_at: Some(ctx.block_timestamp),
                    finished_at: None,
                    ..contest_env(m)
                })
                &&& *final(self) == (BountiesContract { bounties: final(self).bounties, ..*old(self) })
            },
    {
        self.assert_live()?;
        if ctx.attached_deposit != 1 {
            return Err(BountyError::OneYoctoRequired);
        }
        if id >= self.last_bounty_id {
            return Err(BountyError::BountyNotFound);
        }
        let n = self.bounties.len();
        proof { assert(self.bounties@[id as int].wf()); }
        let ghost s0 = *self;
        let now = ctx.block_timestamp;
        let b = &self.bounties[id as usize];
        if b.status != BountyStatus::New {
            return Err(BountyError::BountyStatusForStart);
        }
        if b.owner != ctx.predecessor {
            return Err(BountyError::NotOwner);
        }
        match &b.multitasking {
            Some(m) => match m {
                Multitasking::ContestOrHackathon { allowed_create_claim_to, start_conditions, .. } => {
                    match allowed_create_claim_to {
                        Some(DateOrPeriod::Date { date }) => {
                            if now <= *date {
                                return Err(BountyError::StartBeforeDate);
                            }
                        },
                        _ => {},
                    }
                    if m.has_competition_started() {
                        return Err(BountyError::CompetitionStarted);
                    }
                    match start_conditions {
                        Some(StartConditions::ManuallyStart) => {},
                        _ => { return Err(BountyError::ManualStartUnsupported); },
                    }
                    if m.get_participants() <= 1 {
                        return Err(BountyError::TooFewParticipants);
                    }
                },
                _ => { return Err(BountyError::ManualStartUnsupported); },
            },
            None => { return Err(BountyError::ManualStartUnsupported); },
        }
        let mut bounty = self.take_bounty(id);
        let m = bounty.multitasking.take().unwrap();
        bounty.multitasking = Some(m.set_competition_timestamp(Some(now), now));
        bounty.status = BountyStatus::ManyClaimed;
        self.put_bounty(id, bounty);
        proof {
            assert(self.bounties@ =~= s0.bounties@.update(id as int, self.bounties@[id as int]));
            assert forall|i: int| 0 <= i < self.bounties@.len() implies (#[trigger] self.bounties@[i]).wf() by {
                if i != id { assert(self.bounties@[i] == s0.bounties@[i]); }
            }
        }
        Ok(())
    }

    /// The first reason why `ctx` cannot change the validators DAO settings of bounty `id`.
    pub open spec fn dao_params_error(&self, ctx: CallContext, id: BountyIndex, dao_params: ValidatorsDaoParams) -> Option<BountyError> {
        if self.status != ContractStatus::Live {
            Some(BountyError::NotLive)
        } else if ctx.attached_deposit != 1 {
            Some(BountyError::OneYoctoRequired)
        } else if id >= self.bounties@.len() {
            Some(BountyError::BountyNotFound)
        } else {
            let b = self.bounties@[id as int];
            if b.owner@ != ctx.predecessor@ {
                Some(BountyError::NotOwner)
            } else if !b.spec_is_validators_dao_used() {
                Some(BountyError::DaoNotUsed)
            } else if b.reviewers->0->ValidatorsDao_validators_dao.account_id@ != dao_params.account_id@ {
                Some(BountyError::DaoMismatch)
            } else {
                None
            }
        }
    }

    /// The owner `ctx` of bounty `id` changes the settings of its validators DAO (not
    /// the DAO itself): the proposal bond and the gas of its calls.
    pub fn update_validators_dao_params(&mut self, ctx: &CallContext, id: BountyIndex, dao_params: ValidatorsDaoParams) -> (r: Result<(), BountyError>)
        requires
            old(self).wf(),
        ensures
            final(self).wf(),
            r is Err <==> old(self).dao_params_error(*ctx, id, dao_params) is Some,
            r matches Err(e) ==> old(self).dao_params_error(*ctx, id, dao_params) == Some(e) && *final(self) == *old(self),
            r is Ok ==> final(self).bounties@ == old(self).bounties@.update(id as int, Bounty {
                reviewers: Some(Reviewers::ValidatorsDao { validators_dao: dao_params.spec_to_validators_dao() }),
                ..old(self).bounties@[id as int]
            }),
            r is Ok ==> *final(self) == (BountiesContract { bounties: final(self).bounties, ..*old(self) }),
    {
        self.assert_live()?;
        if ctx.attached_deposit != 1 {
            return Err(BountyError::OneYoctoRequired);
        }
        if id >= self.last_bounty_id {
            return Err(BountyError::BountyNotFound);
        }
        let n = self.bounties.len();
        proof { assert(self.bounties@[id as int].wf()); }
        let ghost s0 = *self;
        let b = &self.bounties[id as usize];
        if b.owner != ctx.predecessor {
            return Err(BountyError::NotOwner);
        }
        if !b.is_validators_dao_used() {
            return Err(BountyError::DaoNotUsed);
        }
        b.assert_validators_dao_account_id(&dao_params.account_id)?;
        let mut bounty = self.take_bounty(id);
        bounty.reviewers = Some(Reviewers::ValidatorsDao { validators_dao: dao_params.to_validators_dao() });
        self.put_bounty(id, bounty);
        proof {
            assert(self.bounties@ =~= s0.bounties@.update(id as int, self.bounties@[id as int]));
            assert forall|i: int| 0 <= i < self.bounties@.len() implies (#[trigger] self.bounties@[i]).wf() by {
                if i != id { assert(self.bounties@[i] == s0.bounties@[i]); }
            }
        }
        Ok(())
    }
}

} // verus!
