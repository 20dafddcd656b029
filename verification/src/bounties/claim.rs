//! A claim of a freelancer on a bounty, and the actions taken on claims.
use vstd::prelude::*;
use crate::accounts::AccountId;
use super::types::{BountyIndex, ClaimStatus, DefermentOfKYC, PaymentTimestamps, timestamps_or_default};
use super::multitasking::contest_env;
use super::bounty::Bounty;

verus! {

#[derive(Clone, Debug, PartialEq, Eq)]
pub struct BountyClaim {
    /// Bounty id that was claimed.
    pub bounty_id: BountyIndex,
    /// When the claim was created.
    pub created_at: u64,
    /// When the work on the claim started.
    pub start_time: Option<u64>,
    /// Duration of the work that the claimant promised.
    pub deadline: u64,
    pub description: String,
    pub status: ClaimStatus,
    pub bounty_payout_proposal_id: Option<u64>,
    pub approve_claimer_proposal_id: Option<u64>,
    /// When the result was rejected.
    pub rejected_timestamp: Option<u64>,
    pub dispute_id: Option<u64>,
    /// The owner deferred the KYC check or waived it.
    pub is_kyc_delayed: Option<DefermentOfKYC>,
    /// Payment outside the contract, for a bounty with several claimants.
    pub payment_timestamps: Option<PaymentTimestamps>,
    /// Subtask of a bounty with different subtasks.
    pub slot: Option<usize>,
    /// The bond paid with the claim.
    pub bond: Option<u128>,
}

impl BountyClaim {
    /// The start of the work is known: for a contest, the start of the contest.
    pub open spec fn has_start_time(&self, bounty: Bounty) -> bool {
        if bounty.spec_is_contest_or_hackathon() {
            bounty.multitasking->0.wf() && contest_env(bounty.multitasking->0).started_at is Some
        } else {
            self.start_time is Some
        }
    }

    pub open spec fn spec_start_time(&self, bounty: Bounty) -> u64 {
        if bounty.spec_is_contest_or_hackathon() {
            match self.start_time {
                Some(t) => t,
                None => contest_env(bounty.multitasking->0).started_at->0,
            }
        } else {
            self.start_time->0
        }
    }

    /// When the work on this claim started.
    pub fn get_start_time(&self, bounty: &Bounty) -> (r: u64)
        requires
            self.has_start_time(*bounty),
        ensures
            r == self.spec_start_time(*bounty),
    {
        if bounty.is_contest_or_hackathon() {
            let started = match &bounty.multitasking {
                Some(m) => m.get_competition_timestamps().0,
                None => None,
            };
            match self.start_time {
                Some(t) => t,
                None => started.unwrap(),
            }
        } else {
            self.start_time.unwrap()
        }
    }

    pub open spec fn spec_is_claim_expired(&self, bounty: Bounty, now: u64) -> bool {
        now > self.spec_start_time(bounty) + self.deadline
    }

    /// The promised duration has passed since the work started.
    pub fn is_claim_expired(&self, bounty: &Bounty, now: u64) -> (r: bool)
        requires
            self.has_start_time(*bounty),
        ensures
            r == self.spec_is_claim_expired(*bounty, now),
    {
        let start = self.get_start_time(bounty);
        now as u128 > start as u128 + self.deadline as u128
    }

    /// Records when the owner paid this claimant.
    pub fn set_payment_at(&mut self, payment_at: Option<u64>)
        ensures
            *final(self) == (BountyClaim {
                payment_timestamps: Some(PaymentTimestamps {
                    payment_at,
                    ..timestamps_or_default(old(self).payment_timestamps)
                }),
                ..*old(self)
            }),
    {
        let t = match self.payment_timestamps {
            Some(t) => t,
            None => PaymentTimestamps::default(),
        };
        self.payment_timestamps = Some(PaymentTimestamps { payment_at, payment_confirmed_at: t.payment_confirmed_at });
    }

    /// Records when this claimant confirmed the payment.
    pub fn set_payment_confirmed_at(&mut self, payment_confirmed_at: Option<u64>)
        ensures
            *final(self) == (BountyClaim {
                payment_timestamps: Some(PaymentTimestamps {
                    payment_confirmed_at,
                    ..timestamps_or_default(old(self).payment_timestamps)
                }),
                ..*old(self)
            }),
    {
        let t = match self.payment_timestamps {
            Some(t) => t,
            None => PaymentTimestamps::default(),
        };
        self.payment_timestamps = Some(PaymentTimestamps { payment_at: t.payment_at, payment_confirmed_at });
    }
}

#[derive(Clone, Debug, PartialEq, Eq)]
pub enum BountyAction {
    ClaimApproved { receiver_id: AccountId },
    ClaimRejected { receiver_id: AccountId },
    SeveralClaimsApproved,
    Finalize { receiver_id: Option<AccountId> },
}

impl BountyAction {
    /// A finalization that names the claimant.
    pub fn need_to_finalize_claim(&self) -> (r: bool)
        ensures
            r == (self matches BountyAction::Finalize { receiver_id } && receiver_id is Some),
    {
        match self {
            BountyAction::Finalize { receiver_id } => receiver_id.is_some(),
            _ => false,
        }
    }

    /// The claimant that a finalization names.
    pub fn get_finalize_action_receiver(&self) -> (r: Option<AccountId>)
        ensures
            r == (match self {
                BountyAction::Finalize { receiver_id } => *receiver_id,
                _ => None,
            }),
    {
        match self {
            BountyAction::Finalize { receiver_id } => match receiver_id {
                Some(a) => Some(a.clone()),
                None => None,
            },
            _ => None,
        }
    }
}

} // verus!
