//! Bounties and claims as earlier versions of the contract stored them, and their
//! upgrade to the current form.
use vstd::prelude::*;
use crate::accounts::AccountId;
use super::types::{
    BountyIndex, BountyMetadata, BountyStatus, ClaimStatus, ClaimerApproval, Deadline, DefermentOfKYC,
    KycConfig, KycVerificationMethod, PaymentTimestamps, Reviewers,
};
use super::bounty::{Bounty, Postpaid};
use super::claim::BountyClaim;

verus! {

#[derive(Clone, Debug, PartialEq, Eq)]
pub struct BountyV1 {
    pub token: AccountId,
    pub amount: u128,
    pub platform_fee: u128,
    pub dao_fee: u128,
    pub metadata: BountyMetadata,
    pub deadline: Deadline,
    pub claimer_approval: ClaimerApproval,
    pub reviewers: Option<Reviewers>,
    pub owner: AccountId,
    pub status: BountyStatus,
    pub created_at: u64,
}

#[derive(Clone, Debug, PartialEq, Eq)]
pub struct BountyV2 {
    pub token: AccountId,
    pub amount: u128,
    pub platform_fee: u128,
    pub dao_fee: u128,
    pub metadata: BountyMetadata,
    pub deadline: Deadline,
    pub claimer_approval: ClaimerApproval,
    pub reviewers: Option<Reviewers>,
    pub owner: AccountId,
    pub status: BountyStatus,
    pub created_at: u64,
    pub kyc_config: KycConfig,
}

#[derive(Clone, Debug, PartialEq, Eq)]
pub struct BountyV3 {
    pub token: Option<AccountId>,
    pub amount: u128,
    pub platform_fee: u128,
    pub dao_fee: u128,
    pub metadata: BountyMetadata,
    pub deadline: Deadline,
    pub claimer_approval: ClaimerApproval,
    pub reviewers: Option<Reviewers>,
    pub owner: AccountId,
    pub status: BountyStatus,
    pub created_at: u64,
    pub kyc_config: KycConfig,
    pub postpaid: Option<Postpaid>,
    pub payment_at: Option<u64>,
    pub payment_confirmed_at: Option<u64>,
}

/// A bounty as stored by any version of the contract.
#[derive(Clone, Debug, PartialEq, Eq)]
pub enum VersionedBounty {
    V1(BountyV1),
    V2(BountyV2),
    V3(BountyV3),
    Current(Bounty),
}

/// The KYC setting of bounties stored before bounties had one: KYC when a claim is
/// created.
pub open spec fn default_kyc() -> KycConfig {
    KycConfig::KycRequired { kyc_verification_method: KycVerificationMethod::WhenCreatingClaim }
}

/// A record of the third version holds a payment outside the contract only in its
/// first form, where the payment times were kept beside it.
pub open spec fn v3_is_upgradable(b: BountyV3) -> bool {
    b.postpaid matches Some(p) ==> p is PaymentOutsideContractV1
}

impl VersionedBounty {
    pub open spec fn spec_v1_to_v2(b: BountyV1) -> BountyV2 {
        BountyV2 {
            token: b.token,
            amount: b.amount,
            platform_fee: b.platform_fee,
            dao_fee: b.dao_fee,
            metadata: b.metadata,
            deadline: b.deadline,
            claimer_approval: b.claimer_approval,
            reviewers: b.reviewers,
            owner: b.owner,
            status: b.status,
            created_at: b.created_at,
            kyc_config: default_kyc(),
        }
    }

    pub open spec fn spec_v2_to_v3(b: BountyV2) -> BountyV3 {
        BountyV3 {
            token: Some(b.token),
            amount: b.amount,
            platform_fee: b.platform_fee,
            dao_fee: b.dao_fee,
            metadata: b.metadata,
            deadline: b.deadline,
            claimer_approval: b.claimer_approval,
            reviewers: b.reviewers,
            owner: b.owner,
            status: b.status,
            created_at: b.created_at,
            kyc_config: b.kyc_config,
            postpaid: None,
            payment_at: None,
            payment_confirmed_at: None,
        }
    }

    /// The current form of a record of the third version: a payment outside the
    /// contract takes the payment times along, and the bounty is for one claimant.
    pub open spec fn spec_v3_to_v4(b: BountyV3) -> Bounty {
        Bounty {
            token: b.token,
            amount: b.amount,
            platform_fee: b.platform_fee,
            dao_fee: b.dao_fee,
            metadata: b.metadata,
            deadline: b.deadline,
            claimer_approval: b.claimer_approval,
            reviewers: b.reviewers,
            owner: b.owner,
            status: b.status,
            created_at: b.created_at,
            kyc_config: b.kyc_config,
            postpaid: match b.postpaid {
                Some(p) => Some(Postpaid::PaymentOutsideContract {
                    currency: p->PaymentOutsideContractV1_currency,
                    payment_timestamps: Some(PaymentTimestamps {
                        payment_at: b.payment_at,
                        payment_confirmed_at: b.payment_confirmed_at,
                    }),
                }),
                None => None,
            },
            multitasking: None,
        }
    }

    /// The record can be brought to the current form.
    pub open spec fn is_upgradable(self) -> bool {
        self matches VersionedBounty::V3(b) ==> v3_is_upgradable(b)
    }

    /// The current form of the record.
    pub open spec fn upgraded(self) -> Bounty {
        match self {
            VersionedBounty::Current(b) => b,
            VersionedBounty::V1(b) => Self::spec_v3_to_v4(Self::spec_v2_to_v3(Self::spec_v1_to_v2(b))),
            VersionedBounty::V2(b) => Self::spec_v3_to_v4(Self::spec_v2_to_v3(b)),
            VersionedBounty::V3(b) => Self::spec_v3_to_v4(b),
        }
    }

    fn upgrade_v1_to_v2(bounty: BountyV1) -> (r: BountyV2)
        ensures
            r == Self::spec_v1_to_v2(bounty),
    {
        BountyV2 {
            token: bounty.token,
            amount: bounty.amount,
            platform_fee: bounty.platform_fee,
            dao_fee: bounty.dao_fee,
            metadata: bounty.metadata,
            deadline: bounty.deadline,
            claimer_approval: bounty.claimer_approval,
            reviewers: bounty.reviewers,
            owner: bounty.owner,
            status: bounty.status,
            created_at: bounty.created_at,
            kyc_config: KycConfig::default(),
        }
    }

    fn upgrade_v2_to_v3(bounty: BountyV2) -> (r: BountyV3)
        ensures
            r == Self::spec_v2_to_v3(bounty),
    {
        BountyV3 {
            token: Some(bounty.token),
            amount: bounty.amount,
            platform_fee: bounty.platform_fee,
            dao_fee: bounty.dao_fee,
            metadata: bounty.metadata,
            deadline: bounty.deadline,
            claimer_approval: bounty.claimer_approval,
            reviewers: bounty.reviewers,
            owner: bounty.owner,
            status: bounty.status,
            created_at: bounty.created_at,
            kyc_config: bounty.kyc_config,
            postpaid: None,
            payment_at: None,
            payment_confirmed_at: None,
        }
    }

    fn upgrade_v3_to_v4(bounty: BountyV3) -> (r: Bounty)
        requires
            v3_is_upgradable(bounty),
        ensures
            r == Self::spec_v3_to_v4(bounty),
    {
        let postpaid = match bounty.postpaid {
            Some(Postpaid::PaymentOutsideContractV1 { currency }) => Some(Postpaid::PaymentOutsideContract {
                currency,
                payment_timestamps: Some(PaymentTimestamps {
                    payment_at: bounty.payment_at,
                    payment_confirmed_at: bounty.payment_confirmed_at,
                }),
            }),
            Some(Postpaid::PaymentOutsideContract { .. }) => {
                proof { assert(false); }
                None
            },
            None => None,
        };
        Bounty {
            token: bounty.token,
            amount: bounty.amount,
            platform_fee: bounty.platform_fee,
            dao_fee: bounty.dao_fee,
            metadata: bounty.metadata,
            deadline: bounty.deadline,
            claimer_approval: bounty.claimer_approval,
            reviewers: bounty.reviewers,
            owner: bounty.owner,
            status: bounty.status,
            created_at: bounty.created_at,
            kyc_config: bounty.kyc_config,
            postpaid,
            multitasking: None,
        }
    }

    /// The record in the current form.
    pub fn to_bounty(self) -> (r: Bounty)
        requires
            self.is_upgradable(),
        ensures
            r == self.upgraded(),
    {
        match self {
            VersionedBounty::Current(bounty) => bounty,
            VersionedBounty::V1(v1) => Self::upgrade_v3_to_v4(Self::upgrade_v2_to_v3(Self::upgrade_v1_to_v2(v1))),
            VersionedBounty::V2(v2) => Self::upgrade_v3_to_v4(Self::upgrade_v2_to_v3(v2)),
            VersionedBounty::V3(v3) => Self::upgrade_v3_to_v4(v3),
        }
    }
}

#[derive(Clone, Debug, PartialEq, Eq)]
pub struct BountyClaimV1 {
    pub bounty_id: BountyIndex,
    pub created_at: u64,
    pub start_time: Option<u64>,
    pub deadline: u64,
    pub description: String,
    pub status: ClaimStatus,
    pub bounty_payout_proposal_id: Option<u64>,
    pub approve_claimer_proposal_id: Option<u64>,
    pub rejected_timestamp: Option<u64>,
    pub dispute_id: Option<u64>,
}

#[derive(Clone, Debug, PartialEq, Eq)]
pub struct BountyClaimV2 {
    pub bounty_id: BountyIndex,
    pub created_at: u64,
    pub start_time: Option<u64>,
    pub deadline: u64,
    pub description: String,
    pub status: ClaimStatus,
    pub bounty_payout_proposal_id: Option<u64>,
    pub approve_claimer_proposal_id: Option<u64>,
    pub rejected_timestamp: Option<u64>,
    pub dispute_id: Option<u64>,
    pub is_kyc_delayed: Option<DefermentOfKYC>,
}

#[derive(Clone, Debug, PartialEq, Eq)]
pub struct BountyClaimV3 {
    pub bounty_id: BountyIndex,
    pub created_at: u64,
    pub start_time: Option<u64>,
    pub deadline: u64,
    pub description: String,
    pub status: ClaimStatus,
    pub bounty_payout_proposal_id: Option<u64>,
    pub approve_claimer_proposal_id: Option<u64>,
    pub rejected_timestamp: Option<u64>,
    pub dispute_id: Option<u64>,
    pub is_kyc_delayed: Option<DefermentOfKYC>,
    pub payment_timestamps: Option<PaymentTimestamps>,
    pub slot: Option<usize>,
}

/// A claim as stored by any version of the contract.
#[derive(Clone, Debug, PartialEq, Eq)]
pub enum VersionedBountyClaim {
    V1(BountyClaimV1),
    V2(BountyClaimV2),
    V3(BountyClaimV3),
    Current(BountyClaim),
}

impl VersionedBountyClaim {
    pub open spec fn spec_v1_to_v2(c: BountyClaimV1) -> BountyClaimV2 {
        BountyClaimV2 {
            bounty_id: c.bounty_id,
            created_at: c.created_at,
            start_time: c.start_time,
            deadline: c.deadline,
            description: c.description,
            status: c.status,
            bounty_payout_proposal_id: c.bounty_payout_proposal_id,
            approve_claimer_proposal_id: c.approve_claimer_proposal_id,
            rejected_timestamp: c.rejected_timestamp,
            dispute_id: c.dispute_id,
            is_kyc_delayed: None,
        }
    }

    pub open spec fn spec_v2_to_v3(c: BountyClaimV2) -> BountyClaimV3 {
        BountyClaimV3 {
            bounty_id: c.bounty_id,
            created_at: c.created_at,
            start_time: c.start_time,
            deadline: c.deadline,
            description: c.description,
            status: c.status,
            bounty_payout_proposal_id: c.bounty_payout_proposal_id,
            approve_claimer_proposal_id: c.approve_claimer_proposal_id,
            rejected_timestamp: c.rejected_timestamp,
            dispute_id: c.dispute_id,
            is_kyc_delayed: c.is_kyc_delayed,
            payment_timestamps: None,
            slot: None,
        }
    }

    /// The current form of a claim of the third version: no bond was recorded.
    pub open spec fn spec_v3_to_v4(c: BountyClaimV3) -> BountyClaim {
        BountyClaim {
            bounty_id: c.bounty_id,
            created_at: c.created_at,
            start_time: c.start_time,
            deadline: c.deadline,
            description: c.description,
            status: c.status,
            bounty_payout_proposal_id: c.bounty_payout_proposal_id,
            approve_claimer_proposal_id: c.approve_claimer_proposal_id,
            rejected_timestamp: c.rejected_timestamp,
            dispute_id: c.dispute_id,
            is_kyc_delayed: c.is_kyc_delayed,
            payment_timestamps: c.payment_timestamps,
            slot: c.slot,
            bond: None,
        }
    }

    /// The current form of the record.
    pub open spec fn upgraded(self) -> BountyClaim {
        match self {
            VersionedBountyClaim::Current(c) => c,
            VersionedBountyClaim::V1(c) => Self::spec_v3_to_v4(Self::spec_v2_to_v3(Self::spec_v1_to_v2(c))),
            VersionedBountyClaim::V2(c) => Self::spec_v3_to_v4(Self::spec_v2_to_v3(c)),
            VersionedBountyClaim::V3(c) => Self::spec_v3_to_v4(c),
        }
    }

    fn upgrade_v1_to_v2(c: BountyClaimV1) -> (r: BountyClaimV2)
        ensures
            r == Self::spec_v1_to_v2(c),
    {
        BountyClaimV2 {
            bounty_id: c.bounty_id,
            created_at: c.created_at,
            start_time: c.start_time,
            deadline: c.deadline,
            description: c.description,
            status: c.status,
            bounty_payout_proposal_id: c.bounty_payout_proposal_id,
            approve_claimer_proposal_id: c.approve_claimer_proposal_id,
            rejected_timestamp: c.rejected_timestamp,
            dispute_id: c.dispute_id,
            is_kyc_delayed: None,
        }
    }

    fn upgrade_v2_to_v3(c: BountyClaimV2) -> (r: BountyClaimV3)
        ensures
            r == Self::spec_v2_to_v3(c),
    {
        BountyClaimV3 {
            bounty_id: c.bounty_id,
            created_at: c.created_at,
            start_time: c.start_time,
            deadline: c.deadline,
            description: c.description,
            status: c.status,
            bounty_payout_proposal_id: c.bounty_payout_proposal_id,
            approve_claimer_proposal_id: c.approve_claimer_proposal_id,
            rejected_timestamp: c.rejected_timestamp,
            dispute_id: c.dispute_id,
            is_kyc_delayed: c.is_kyc_delayed,
            payment_timestamps: None,
            slot: None,
        }
    }

    fn upgrade_v3_to_v4(c: BountyClaimV3) -> (r: BountyClaim)
        ensures
            r == Self::spec_v3_to_v4(c),
    {
        BountyClaim {
            bounty_id: c.bounty_id,
            created_at: c.created_at,
            start_time: c.start_time,
            deadline: c.deadline,
            description: c.description,
            status: c.status,
            bounty_payout_proposal_id: c.bounty_payout_proposal_id,
            approve_claimer_proposal_id: c.approve_claimer_proposal_id,
            rejected_timestamp: c.rejected_timestamp,
            dispute_id: c.dispute_id,
            is_kyc_delayed: c.is_kyc_delayed,
            payment_timestamps: c.payment_timestamps,
            slot: c.slot,
            bond: None,
        }
    }

    /// The record in the current form.
    pub fn to_bounty_claim(self) -> (r: BountyClaim)
        ensures
            r == self.upgraded(),
    {
        match self {
            VersionedBountyClaim::Current(c) => c,
            VersionedBountyClaim::V1(c) => Self::upgrade_v3_to_v4(Self::upgrade_v2_to_v3(Self::upgrade_v1_to_v2(c))),
            VersionedBountyClaim::V2(c) => Self::upgrade_v3_to_v4(Self::upgrade_v2_to_v3(c)),
            VersionedBountyClaim::V3(c) => Self::upgrade_v3_to_v4(c),
        }
    }
}

} // verus!
