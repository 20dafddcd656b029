//! The owner changes a bounty, or the deadline of a claim on it.
use vstd::prelude::*;
use crate::accounts::AccountId;
use super::types::{BountyIndex, BountyStatus, ClaimStatus, ContractStatus, Deadline, Reviewers, ReviewersParams};
use super::multitasking::Multitasking;
use super::bounty::{Bounty, BountyUpdate};
use super::claim::BountyClaim;
use super::claims::{claim_index, lemma_claim_in};
use super::errors::BountyError;
use super::effects::CallContext;
use super::contract::BountiesContract;

verus! {

/// A claim with this status keeps the settings of its bounty from changing.
pub open spec fn holds_settings(s: ClaimStatus) -> bool {
    s == ClaimStatus::New || s == ClaimStatus::InProgress || s == ClaimStatus::Competes || s == ClaimStatus::ReadyToStart
}

/// Two lists of accounts with the same names in the same order.
pub open spec fn same_accounts(a: Seq<AccountId>, b: Seq<AccountId>) -> bool {
    a.len() == b.len() && forall|i: int| 0 <= i < a.len() ==> (#[trigger] a[i])@ == b[i]@
}

fn same_account_lists(a: &Vec<AccountId>, b: &Vec<AccountId>) -> (r: bool)
    ensures
        r == same_accounts(a@, b@),
{
    if a.len() != b.len() {
        return false;
    }
    let mut i: usize = 0;
    while i < a.len()
        invariant
            a@.len() == b@.len(),
            i <= a@.len(),
            forall|j: int| 0 <= j < i ==> (#[trigger] a@[j])@ == b@[j]@,
        decreases a@.len() - i,
    {
        if a[i] != b[i] {
            return false;
        }
        i = i + 1;
    }
    true
}

/// Bounty `b` with the changes of `upd`: new approvers only where the list is not empty.
pub open spec fn updated_bounty(b: Bounty, upd: BountyUpdate) -> Bounty {
    Bounty {
        metadata: match upd.metadata { Some(m) => m, None => b.metadata },
        claimer_approval: match upd.claimer_approval { Some(c) => c, None => b.claimer_approval },
        deadline: match upd.deadline { Some(d) => d, None => b.deadline },
        reviewers: match upd.reviewers {
            Some(p) => if p->more_reviewers@.len() > 0 { Some(p.spec_to_reviewers()) } else { None },
            None => b.reviewers,
        },
        amount: match upd.amount { Some(a) => a, None => b.amount },
        ..b
    }
}

impl BountiesContract {
    /// The claim of `a` on bounty `id` holds the settings of the bounty.
    pub open spec fn claim_holds(&self, a: Seq<char>, id: BountyIndex) -> bool {
        self.claim_of(a, id) matches Some(c) && holds_settings(c.status)
    }

    /// Some listed claimant of bounty `id` has a claim on it that holds its settings.
    pub open spec fn settings_held(&self, id: BountyIndex) -> bool {
        exists|j: int| 0 <= j < self.claimants_of(id).len() && #[trigger] self.claim_holds(self.claimants_of(id)[j]@, id)
    }

    fn any_claim_holds_settings(&self, id: BountyIndex) -> (r: bool)
        requires
            id < self.bounty_claimer_accounts@.len(),
        ensures
            r == self.settings_held(id),
    {
        let m = self.bounty_claimer_accounts.len();
        let accounts = &self.bounty_claimer_accounts[id as usize];
        let mut i: usize = 0;
        while i < accounts.len()
            invariant
                i <= accounts@.len(),
                accounts@ == self.claimants_of(id),
                forall|j: int| 0 <= j < i ==> !#[trigger] self.claim_holds(self.claimants_of(id)[j]@, id),
            decreases accounts@.len() - i,
        {
            match self.internal_get_claims(id, &accounts[i]) {
                Ok((claims, k)) => {
                    let s = claims[k].status;
                    if s == ClaimStatus::New || s == ClaimStatus::InProgress || s == ClaimStatus::Competes || s == ClaimStatus::ReadyToStart {
                        proof { assert(self.claim_holds(self.claimants_of(id)[i as int]@, id)); }
                        return true;
                    }
                },
                Err(_) => {},
            }
            i = i + 1;
        }
        false
    }

    /// The first change of `upd` that bounty `b` refuses, `held` telling whether claims
    /// hold its settings.
    pub open spec fn update_rule_error(b: Bounty, upd: BountyUpdate, held: bool) -> Option<BountyError> {
        if upd.metadata is Some && !(!held && b.status == BountyStatus::New) {
            Some(BountyError::MetadataLocked)
        } else if upd.claimer_approval is Some && !(!held && b.status == BountyStatus::New) {
            Some(BountyError::ApprovalSettingLocked)
        } else if upd.deadline is Some && held && b.deadline is WithoutDeadline {
            Some(BountyError::DeadlineCannotBeLimited)
        } else if upd.deadline is Some && held && !(upd.deadline->0 is WithoutDeadline)
            && b.deadline.deadline_type() != upd.deadline->0.deadline_type() {
            Some(BountyError::DeadlineTypeLocked)
        } else if upd.deadline is Some && held && !(upd.deadline->0 is WithoutDeadline)
            && !(upd.deadline->0.deadline_value() > b.deadline.deadline_value()) {
            Some(BountyError::DeadlineOnlyIncreases)
        } else if upd.reviewers is Some && b.status != BountyStatus::New {
            Some(BountyError::BountyStatusForUpdate)
        } else if upd.reviewers is Some && !(b.reviewers is None || b.reviewers->0 is MoreReviewers) {
            Some(BountyError::DaoSettingsLocked)
        } else if upd.reviewers is Some && !(upd.reviewers->0 is MoreReviewers) {
            Some(BountyError::DaoCannotBeAdded)
        } else if upd.reviewers is Some && b.reviewers is Some
            && same_accounts(upd.reviewers->0->more_reviewers@, b.reviewers->0->more_reviewers@) {
            Some(BountyError::ReviewersUnchanged)
        } else if upd.amount is Some && upd.amount->0 == 0 {
            Some(BountyError::ZeroAmount)
        } else if upd.amount is Some && !(b.spec_is_payment_outside_contract()
            && !b.spec_is_one_bounty_for_many_claimants() && !b.spec_is_different_tasks()) {
            Some(BountyError::AmountLocked)
        } else if upd.amount is Some && super::types::timestamps_or_default(b.postpaid->0->PaymentOutsideContract_payment_timestamps).payment_at is Some {
            Some(BountyError::AmountLockedAfterPayment)
        } else if upd.metadata is None && upd.claimer_approval is None && upd.deadline is None
            && upd.reviewers is None && upd.amount is None {
            Some(BountyError::NoChanges)
        } else if upd.amount is Some && upd.amount->0 + b.platform_fee + b.dao_fee > u128::MAX {
            Some(BountyError::ArithmeticOverflow)
        } else {
            None
        }
    }

    /// The first reason why `ctx` cannot change bounty `id` by `upd` at its time.
    pub open spec fn update_error(&self, ctx: CallContext, id: BountyIndex, upd: BountyUpdate) -> Option<BountyError> {
        if self.status != ContractStatus::Live {
            Some(BountyError::NotLive)
        } else if ctx.attached_deposit != 1 {
            Some(BountyError::OneYoctoRequired)
        } else if id >= self.bounties@.len() {
            Some(BountyError::BountyNotFound)
        } else {
            let b = self.bounties@[id as int];
            if !(b.status == BountyStatus::New || b.status == BountyStatus::Claimed
                || b.status == BountyStatus::ManyClaimed || b.status == BountyStatus::AwaitingClaims) {
                Some(BountyError::BountyStatusForUpdate)
            } else if b.owner@ != ctx.predecessor@ {
                Some(BountyError::NotOwner)
            } else if Self::update_rule_error(b, upd, self.settings_held(id)) is Some {
                Self::update_rule_error(b, upd, self.settings_held(id))
            } else {
                self.bounty_check_error(updated_bounty(b, upd), ctx.block_timestamp)
            }
        }
    }

    /// The owner of bounty `id` changes its settings: the description, the approval
    /// setting, the deadline (once claimed, only later and of the same kind), the
    /// additional approvers (while new), or, for a bounty for one claimant paid outside
    /// the contract and not paid yet, the amount. The bounty must still pass its checks.
    pub fn bounty_update(&mut self, ctx: &CallContext, id: BountyIndex, bounty_update: BountyUpdate) -> (r: Result<(), BountyError>)
        requires
            old(self).wf(),
        ensures
            final(self).wf(),
            r is Err <==> old(self).update_error(*ctx, id, bounty_update) is Some,
            r matches Err(e) ==> old(self).update_error(*ctx, id, bounty_update) == Some(e),
            r is Err ==> final(self).bounties@ == old(self).bounties@
                && *final(self) == (BountiesContract { bounties: final(self).bounties, ..*old(self) }),
            r is Ok ==> final(self).bounties@ == old(self).bounties@.update(id as int, updated_bounty(old(self).bounties@[id as int], bounty_update)),
            r is Ok ==> *final(self) == (BountiesContract { bounties: final(self).bounties, ..*old(self) }),
    {
        self.assert_live()?;
        if ctx.attached_deposit != 1 {
            return Err(BountyError::OneYoctoRequired);
        }
        if id >= self.last_bounty_id {
            return Err(BountyError::BountyNotFound);
        }
        let n = self.bounties.len();
        proof { assert(self.bounties@[id as int].wf()); }
        let ghost s0 = *self;
        let b = &self.bounties[id as usize];
        let st = b.status;
        if !(st == BountyStatus::New || st == BountyStatus::Claimed || st == BountyStatus::ManyClaimed || st == BountyStatus::AwaitingClaims) {
            return Err(BountyError::BountyStatusForUpdate);
        }
        if b.owner != ctx.predecessor {
            return Err(BountyError::NotOwner);
        }
        let held = self.any_claim_holds_settings(id);
        let upd = &bounty_update;
        if upd.metadata.is_some() && !(!held && st == BountyStatus::New) {
            return Err(BountyError::MetadataLocked);
        }
        if upd.claimer_approval.is_some() && !(!held && st == BountyStatus::New) {
            return Err(BountyError::ApprovalSettingLocked);
        }
        match &upd.deadline {
            Some(d) => {
                if held {
                    if b.deadline.get_deadline_type() == 3 {
                        return Err(BountyError::DeadlineCannotBeLimited);
                    }
                    if d.get_deadline_type() != 3 {
                        if b.deadline.get_deadline_type() != d.get_deadline_type() {
                            return Err(BountyError::DeadlineTypeLocked);
                        }
                        if !(d.get_deadline_value() > b.deadline.get_deadline_value()) {
                            return Err(BountyError::DeadlineOnlyIncreases);
                        }
                    }
                }
            },
            None => {},
        }
        match &upd.reviewers {
            Some(p) => {
                if st != BountyStatus::New {
                    return Err(BountyError::BountyStatusForUpdate);
                }
                match &b.reviewers {
                    Some(Reviewers::ValidatorsDao { .. }) => { return Err(BountyError::DaoSettingsLocked); },
                    _ => {},
                }
                match p {
                    ReviewersParams::ValidatorsDao { .. } => { return Err(BountyError::DaoCannotBeAdded); },
                    ReviewersParams::MoreReviewers { more_reviewers } => {
                        match &b.reviewers {
                            Some(Reviewers::MoreReviewers { more_reviewers: prev }) => {
                                if same_account_lists(more_reviewers, prev) {
                                    return Err(BountyError::ReviewersUnchanged);
                                }
                            },
                            _ => {},
                        }
                    },
                }
            },
            None => {},
        }
        match upd.amount {
            Some(a) => {
                if a == 0 {
                    return Err(BountyError::ZeroAmount);
                }
                if !(b.is_payment_outside_contract() && !b.is_one_bounty_for_many_claimants() && !b.is_different_tasks()) {
                    return Err(BountyError::AmountLocked);
                }
                let paid = b.postpaid.as_ref().unwrap().get_payment_timestamps().payment_at.is_some();
                if paid {
                    return Err(BountyError::AmountLockedAfterPayment);
                }
            },
            None => {},
        }
        if upd.metadata.is_none() && upd.claimer_approval.is_none() && upd.deadline.is_none()
            && upd.reviewers.is_none() && upd.amount.is_none() {
            return Err(BountyError::NoChanges);
        }
        match upd.amount {
            Some(a) => {
                if b.platform_fee > u128::MAX - b.dao_fee || a > u128::MAX - b.platform_fee - b.dao_fee {
                    return Err(BountyError::ArithmeticOverflow);
                }
            },
            None => {},
        }
        let mut bounty = self.take_bounty(id);
        let BountyUpdate { metadata, deadline, claimer_approval, reviewers, amount } = bounty_update;
        let ghost b0 = bounty;
        let mut saved_metadata = None;
        match metadata {
            Some(m) => {
                let mut m = m;
                std::mem::swap(&mut bounty.metadata, &mut m);
                saved_metadata = Some(m);
            },
            None => {},
        }
        let mut saved_approval = None;
        match claimer_approval {
            Some(c) => {
                let mut c = c;
                std::mem::swap(&mut bounty.claimer_approval, &mut c);
                saved_approval = Some(c);
            },
            None => {},
        }
        let mut saved_deadline = None;
        match deadline {
            Some(d) => {
                let mut d = d;
                std::mem::swap(&mut bounty.deadline, &mut d);
                saved_deadline = Some(d);
            },
            None => {},
        }
        let mut saved_reviewers = None;
        match reviewers {
            Some(p) => {
                let non_empty = p.get_more_reviewers().len() > 0;
                let mut r = if non_empty { Some(p.to_reviewers()) } else { None };
                std::mem::swap(&mut bounty.reviewers, &mut r);
                saved_reviewers = Some(r);
            },
            None => {},
        }
        let saved_amount = bounty.amount;
        match amount { Some(a) => { bounty.amount = a; }, None => {} }
        proof { assert(bounty == updated_bounty(b0, bounty_update)); }
        match self.check_bounty(&bounty, ctx.block_timestamp) {
            Ok(()) => {},
            Err(e) => {
                match saved_metadata { Some(m) => { bounty.metadata = m; }, None => {} }
                match saved_approval { Some(c) => { bounty.claimer_approval = c; }, None => {} }
                match saved_deadline { Some(d) => { bounty.deadline = d; }, None => {} }
                match saved_reviewers { Some(r) => { bounty.reviewers = r; }, None => {} }
                bounty.amount = saved_amount;
                proof { assert(bounty == b0); }
                self.put_bounty(id, bounty);
                proof {
                    assert(self.bounties@ =~= s0.bounties@);
                    assert(Self::update_rule_error(b0, bounty_update, s0.settings_held(id)) is None);
                    assert(s0.update_error(*ctx, id, bounty_update) == Some(e));
                }
                return Err(e);
            },
        }
        self.put_bounty(id, bounty);
        proof {
            assert(self.bounties@ =~= s0.bounties@.update(id as int, self.bounties@[id as int]));
            assert forall|i: int| 0 <= i < self.bounties@.len() implies (#[trigger] self.bounties@[i]).wf() by {
                if i != id { assert(self.bounties@[i] == s0.bounties@[i]); }
            }
        }
        Ok(())
    }
}

} // verus!
