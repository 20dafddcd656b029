//! Data of the bounties contract: bounties, claims, their statuses and settings.
use vstd::prelude::*;
use crate::accounts::{AccountId, has_account, contains_account};

verus! {

pub type BountyIndex = u64;

pub const ONE_NEAR: u128 = 1_000_000_000_000_000_000_000_000;
pub const GAS_FOR_ADD_PROPOSAL: u64 = 25_000_000_000_000;
pub const GAS_FOR_CLAIM_APPROVAL: u64 = 70_000_000_000_000;
pub const GAS_FOR_CLAIMER_APPROVAL: u64 = 120_000_000_000_000;

pub const DEFAULT_BOUNTY_CLAIM_BOND: u128 = 1_000_000_000_000_000_000_000_000;
pub const DEFAULT_BOUNTY_FORGIVENESS_PERIOD: u64 = 86_400_000_000_000;
pub const DEFAULT_PERIOD_FOR_OPENING_DISPUTE: u64 = 864_000_000_000_000;
pub const DEFAULT_PLATFORM_FEE_PERCENTAGE: u32 = 10_000;
pub const DEFAULT_VALIDATORS_DAO_FEE_PERCENTAGE: u32 = 10_000;
pub const DEFAULT_PENALTY_PLATFORM_FEE_PERCENTAGE: u32 = 0;
pub const DEFAULT_PENALTY_VALIDATORS_DAO_FEE_PERCENTAGE: u32 = 0;
pub const MAX_SLOTS: u16 = 300;
pub const MIN_DEVIATION_FOR_TOTAL_BOUNTY_AMOUNT: u128 = 20;
/// One hundred percent, in thousandths of a percent.
pub const FULL_PERCENTAGE: u128 = 100_000;

/// What the reputation contract is told about.
#[derive(Clone, Copy, Debug, PartialEq, Eq, Structural)]
pub enum ReputationActionKind {
    BountyCreated,
    BountyCancelled,
    ClaimCreated,
    ClaimCancelled,
    ClaimerApproved,
    ClaimExpired,
    SuccessfulBountyAndClaim { with_dispute: bool },
    UnsuccessfulClaim { with_dispute: bool },
    SuccessfulClaim { with_dispute: bool },
    SuccessfulBounty,
}

#[derive(Clone, Copy, Debug, PartialEq, Eq, Structural)]
pub enum BountyStatus {
    New,
    Claimed,
    Completed,
    Canceled,
    ManyClaimed,
    AwaitingClaims,
    PartiallyCompleted,
}

#[derive(Clone, Copy, Debug, PartialEq, Eq, Structural)]
pub enum ContractStatus {
    Genesis,
    Live,
    ReadOnly,
}

#[derive(Clone, Copy, Debug, PartialEq, Eq, Structural)]
pub enum Deadline {
    DueDate { due_date: u64 },
    MaxDeadline { max_deadline: u64 },
    WithoutDeadline,
}

impl Deadline {
    pub open spec fn deadline_type(&self) -> u8 {
        match self {
            Deadline::DueDate { .. } => 1,
            Deadline::MaxDeadline { .. } => 2,
            Deadline::WithoutDeadline => 3,
        }
    }

    pub open spec fn deadline_value(&self) -> u64 {
        match self {
            Deadline::DueDate { due_date } => *due_date,
            Deadline::MaxDeadline { max_deadline } => *max_deadline,
            Deadline::WithoutDeadline => 0,
        }
    }

    /// 1 for a due date, 2 for a maximal duration, 3 when there is no deadline.
    pub fn get_deadline_type(&self) -> (r: u8)
        ensures
            r == self.deadline_type(),
    {
        match self {
            Deadline::DueDate { .. } => 1,
            Deadline::MaxDeadline { .. } => 2,
            Deadline::WithoutDeadline => 3,
        }
    }

    /// The date or duration of a deadline that has one.
    pub fn get_deadline_value(&self) -> (r: u64)
        requires
            !(*self is WithoutDeadline),
        ensures
            r == self.deadline_value(),
    {
        match self {
            Deadline::DueDate { due_date } => *due_date,
            Deadline::MaxDeadline { max_deadline } => *max_deadline,
            Deadline::WithoutDeadline => 0,
        }
    }
}

#[derive(Clone, Debug, PartialEq, Eq)]
pub struct ValidatorsDao {
    pub account_id: AccountId,
    pub add_proposal_bond: u128,
    pub gas_for_add_proposal: u64,
    pub gas_for_claim_approval: u64,
    pub gas_for_claimer_approval: u64,
}

#[derive(Clone, Debug, PartialEq, Eq)]
pub enum Reviewers {
    ValidatorsDao { validators_dao: ValidatorsDao },
    MoreReviewers { more_reviewers: Vec<AccountId> },
}

impl Reviewers {
    /// The additional approvers of a bounty that has them.
    pub fn get_more_reviewers(&self) -> (r: &Vec<AccountId>)
        requires
            *self is MoreReviewers,
        ensures
            r@ == self->more_reviewers@,
    {
        match self {
            Reviewers::MoreReviewers { more_reviewers } => more_reviewers,
            Reviewers::ValidatorsDao { .. } => {
                proof { assert(false); }
                unreached()
            },
        }
    }
}

#[derive(Clone, Copy, Debug, PartialEq, Eq, Structural)]
pub enum Experience {
    Beginner,
    Intermediate,
    Advanced,
    AnyExperience,
}

#[derive(Clone, Copy, Debug, PartialEq, Eq, Structural)]
pub enum ContactType {
    Discord,
    Telegram,
    Twitter,
    Email,
}

#[derive(Clone, Debug, PartialEq, Eq)]
pub struct ContactDetails {
    pub contact: String,
    pub contact_type: ContactType,
}

#[derive(Clone, Debug, PartialEq, Eq)]
pub enum ClaimerApproval {
    /// No longer supported.
    ApprovalWithWhitelist,
    MultipleClaims,
    WithoutApproval,
    ApprovalByWhitelist { claimers_whitelist: Vec<AccountId> },
    WhitelistWithApprovals { claimers_whitelist: Vec<AccountId> },
}

impl ClaimerApproval {
    pub open spec fn spec_not_allowed_to_create_claim(&self, account_id: Seq<char>) -> bool {
        match self {
            ClaimerApproval::ApprovalByWhitelist { claimers_whitelist } =>
                !has_account(claimers_whitelist@, account_id),
            ClaimerApproval::WhitelistWithApprovals { claimers_whitelist } =>
                !has_account(claimers_whitelist@, account_id),
            _ => false,
        }
    }

    /// Whether the whitelist of this approval setting keeps `account_id` from claiming.
    pub fn not_allowed_to_create_claim(&self, account_id: &AccountId) -> (r: bool)
        requires
            !(*self is ApprovalWithWhitelist),
        ensures
            r == self.spec_not_allowed_to_create_claim(account_id@),
    {
        match self {
            ClaimerApproval::ApprovalByWhitelist { claimers_whitelist } =>
                !contains_account(claimers_whitelist, account_id),
            ClaimerApproval::WhitelistWithApprovals { claimers_whitelist } =>
                !contains_account(claimers_whitelist, account_id),
            _ => false,
        }
    }

    pub open spec fn spec_is_approval_required(&self, claimer: Seq<char>) -> bool {
        match self {
            ClaimerApproval::MultipleClaims => true,
            ClaimerApproval::ApprovalByWhitelist { claimers_whitelist } =>
                !has_account(claimers_whitelist@, claimer),
            ClaimerApproval::WhitelistWithApprovals { .. } => true,
            _ => false,
        }
    }

    /// Whether a claim of `claimer` waits for the owner's approval.
    pub fn is_approval_required(&self, claimer: &AccountId) -> (r: bool)
        requires
            !(*self is ApprovalWithWhitelist),
        ensures
            r == self.spec_is_approval_required(claimer@),
    {
        match self {
            ClaimerApproval::MultipleClaims => true,
            ClaimerApproval::ApprovalByWhitelist { claimers_whitelist } =>
                !contains_account(claimers_whitelist, claimer),
            ClaimerApproval::WhitelistWithApprovals { .. } => true,
            _ => false,
        }
    }
}

#[derive(Clone, Debug, PartialEq, Eq)]
pub struct BountyMetadata {
    pub title: String,
    pub description: String,
    pub category: String,
    pub attachments: Option<Vec<String>>,
    pub experience: Option<Experience>,
    pub tags: Option<Vec<String>>,
    pub acceptance_criteria: Option<String>,
    pub contact_details: Option<ContactDetails>,
}

#[derive(Clone, Debug, PartialEq, Eq)]
pub struct ValidatorsDaoParams {
    pub account_id: AccountId,
    pub add_proposal_bond: u128,
    pub gas_for_add_proposal: Option<u64>,
    pub gas_for_claim_approval: Option<u64>,
    pub gas_for_claimer_approval: Option<u64>,
}

impl ValidatorsDaoParams {
    pub open spec fn spec_to_validators_dao(&self) -> ValidatorsDao {
        ValidatorsDao {
            account_id: self.account_id,
            add_proposal_bond: self.add_proposal_bond,
            gas_for_add_proposal: match self.gas_for_add_proposal {
                Some(g) => g,
                None => GAS_FOR_ADD_PROPOSAL,
            },
            gas_for_claim_approval: match self.gas_for_claim_approval {
                Some(g) => g,
                None => GAS_FOR_CLAIM_APPROVAL,
            },
            gas_for_claimer_approval: match self.gas_for_claimer_approval {
                Some(g) => g,
                None => GAS_FOR_CLAIMER_APPROVAL,
            },
        }
    }

    /// The DAO settings, with the default gas where none is given.
    pub fn to_validators_dao(&self) -> (r: ValidatorsDao)
        ensures
            r == self.spec_to_validators_dao(),
    {
        ValidatorsDao {
            account_id: self.account_id.clone(),
            add_proposal_bond: self.add_proposal_bond,
            gas_for_add_proposal: match self.gas_for_add_proposal {
                Some(g) => g,
                None => GAS_FOR_ADD_PROPOSAL,
            },
            gas_for_claim_approval: match self.gas_for_claim_approval {
                Some(g) => g,
                None => GAS_FOR_CLAIM_APPROVAL,
            },
            gas_for_claimer_approval: match self.gas_for_claimer_approval {
                Some(g) => g,
                None => GAS_FOR_CLAIMER_APPROVAL,
            },
        }
    }
}

#[derive(Clone, Debug, PartialEq, Eq)]
pub enum ReviewersParams {
    ValidatorsDao { validators_dao: ValidatorsDaoParams },
    MoreReviewers { more_reviewers: Vec<AccountId> },
}

impl ReviewersParams {
    pub open spec fn spec_to_reviewers(&self) -> Reviewers {
        match self {
            ReviewersParams::ValidatorsDao { validators_dao } =>
                Reviewers::ValidatorsDao { validators_dao: validators_dao.spec_to_validators_dao() },
            ReviewersParams::MoreReviewers { more_reviewers } =>
                Reviewers::MoreReviewers { more_reviewers: *more_reviewers },
        }
    }

    /// The approvers that these parameters describe.
    pub fn to_reviewers(self) -> (r: Reviewers)
        ensures
            r == self.spec_to_reviewers(),
    {
        match self {
            ReviewersParams::ValidatorsDao { validators_dao } =>
                Reviewers::ValidatorsDao { validators_dao: validators_dao.to_validators_dao() },
            ReviewersParams::MoreReviewers { more_reviewers } =>
                Reviewers::MoreReviewers { more_reviewers },
        }
    }

    /// The additional approvers that these parameters name.
    pub fn get_more_reviewers(&self) -> (r: &Vec<AccountId>)
        requires
            *self is MoreReviewers,
        ensures
            r@ == self->more_reviewers@,
    {
        match self {
            ReviewersParams::MoreReviewers { more_reviewers } => more_reviewers,
            ReviewersParams::ValidatorsDao { .. } => {
                proof { assert(false); }
                unreached()
            },
        }
    }
}

#[derive(Clone, Copy, Debug, PartialEq, Eq, Structural)]
pub enum KycVerificationMethod {
    WhenCreatingClaim,
    DuringClaimApproval,
}

#[derive(Clone, Copy, Debug, PartialEq, Eq, Structural)]
pub enum KycConfig {
    KycNotRequired,
    KycRequired { kyc_verification_method: KycVerificationMethod },
}

impl KycConfig {
    /// KYC is required when a claim is created.
    pub fn default() -> (r: KycConfig)
        ensures
            r == (KycConfig::KycRequired {
                kyc_verification_method: KycVerificationMethod::WhenCreatingClaim,
            }),
    {
        KycConfig::KycRequired { kyc_verification_method: KycVerificationMethod::WhenCreatingClaim }
    }
}

#[derive(Clone, Copy, Debug, PartialEq, Eq, Structural)]
pub enum DefermentOfKYC {
    AllowedToSkipKyc,
    BeforeDeadline,
}

#[derive(Clone, Debug, PartialEq, Eq)]
pub enum PlaceOfCheckKYC {
    CreatingClaim { deadline: u64, description: String },
    DecisionOnClaim { approve: bool, is_kyc_delayed: Option<DefermentOfKYC> },
    ClaimDone { description: String },
}

#[derive(Clone, Copy, Debug, PartialEq, Eq, Structural)]
pub enum DateOrPeriod {
    Date { date: u64 },
    Period { period: u64 },
}

#[derive(Clone, Copy, Debug, PartialEq, Eq, Structural)]
pub enum StartConditions {
    MinAmountToStart { amount: u16 },
    ManuallyStart,
}

#[derive(Clone, Debug, PartialEq, Eq)]
pub struct Subtask {
    pub subtask_description: String,
    pub subtask_percent: u32,
}

#[derive(Clone, Debug, PartialEq, Eq)]
pub struct ContestOrHackathonEnv {
    pub started_at: Option<u64>,
    pub finished_at: Option<u64>,
    pub participants: u32,
    pub competition_winner: Option<AccountId>,
}

impl ContestOrHackathonEnv {
    /// A competition that has neither started nor finished.
    pub fn default() -> (r: ContestOrHackathonEnv)
        ensures
            r == (ContestOrHackathonEnv {
                started_at: None,
                finished_at: None,
                participants: 0,
                competition_winner: None,
            }),
    {
        ContestOrHackathonEnv {
            started_at: None,
            finished_at: None,
            participants: 0,
            competition_winner: None,
        }
    }
}

#[derive(Clone, Copy, Debug, PartialEq, Eq, Structural)]
pub struct OneForAllEnv {
    pub occupied_slots: u16,
    pub paid_slots: u16,
}

impl OneForAllEnv {
    /// No slot occupied and none paid.
    pub fn default() -> (r: OneForAllEnv)
        ensures
            r == (OneForAllEnv { occupied_slots: 0, paid_slots: 0 }),
    {
        OneForAllEnv { occupied_slots: 0, paid_slots: 0 }
    }
}

#[derive(Clone, Debug, PartialEq, Eq)]
pub struct SubtaskEnv {
    pub participant: AccountId,
    pub completed: bool,
    pub confirmed: bool,
}

#[derive(Clone, Debug, PartialEq, Eq)]
pub struct DifferentTasksEnv {
    pub participants: Vec<Option<SubtaskEnv>>,
    pub bounty_payout_proposal_id: Option<u64>,
}

impl DifferentTasksEnv {
    /// No slot taken and no payout proposal.
    pub fn default() -> (r: DifferentTasksEnv)
        ensures
            r.participants@ == Seq::<Option<SubtaskEnv>>::empty(),
            r.bounty_payout_proposal_id is None,
    {
        DifferentTasksEnv { participants: Vec::new(), bounty_payout_proposal_id: None }
    }

    /// `size` free slots and no payout proposal.
    pub fn init(size: usize) -> (r: DifferentTasksEnv)
        ensures
            r.participants@.len() == size,
            forall|i: int| 0 <= i < size ==> (#[trigger] r.participants@[i]) is None,
            r.bounty_payout_proposal_id is None,
    {
        let mut env = DifferentTasksEnv::default();
        let mut i: usize = 0;
        while i < size
            invariant
                i <= size,
                env.participants@.len() == i,
                forall|j: int| 0 <= j < i ==> (#[trigger] env.participants@[j]) is None,
                env.bounty_payout_proposal_id is None,
            decreases size - i,
        {
            env.participants.push(None);
            i = i + 1;
        }
        env
    }
}

#[derive(Clone, Copy, Debug, PartialEq, Eq, Structural)]
pub struct PaymentTimestamps {
    pub payment_at: Option<u64>,
    pub payment_confirmed_at: Option<u64>,
}

impl PaymentTimestamps {
    /// Neither paid nor confirmed.
    pub fn default() -> (r: PaymentTimestamps)
        ensures
            r == (PaymentTimestamps { payment_at: None, payment_confirmed_at: None }),
    {
        PaymentTimestamps { payment_at: None, payment_confirmed_at: None }
    }
}

pub open spec fn timestamps_or_default(t: Option<PaymentTimestamps>) -> PaymentTimestamps {
    match t {
        Some(t) => t,
        None => PaymentTimestamps { payment_at: None, payment_confirmed_at: None },
    }
}

#[derive(Clone, Copy, Debug, PartialEq, Eq, Structural)]
pub enum ClaimStatus {
    New,
    InProgress,
    Completed,
    Approved,
    Rejected,
    Canceled,
    Expired,
    Disputed,
    NotCompleted,
    NotHired,
    Competes,
    ReadyToStart,
    CompletedWithDispute,
}

#[derive(Clone, Debug, PartialEq, Eq)]
pub struct TokenDetails {
    pub enabled: bool,
    pub min_amount_for_kyc: Option<u128>,
}

#[derive(Clone, Copy, Debug, PartialEq, Eq, Structural)]
pub enum ReferenceType {
    Categories,
    Tags,
    Currencies,
}

#[derive(Clone, Copy, Debug, PartialEq, Eq, Structural)]
pub enum WhitelistType {
    AdministratorsWhitelist,
    OwnersWhitelist,
    PostpaidSubscribersWhitelist,
}

} // verus!
