//! A bounty, its creation and its validation.
use vstd::prelude::*;
use crate::accounts::{AccountId, has_account, contains_account};
use super::types::{
    BountyStatus, Deadline, Reviewers, ClaimerApproval, BountyMetadata, ReviewersParams,
    KycConfig, KycVerificationMethod, DateOrPeriod, StartConditions, Subtask, PaymentTimestamps,
    timestamps_or_default, MAX_SLOTS, MIN_DEVIATION_FOR_TOTAL_BOUNTY_AMOUNT, FULL_PERCENTAGE,
};
use super::multitasking::Multitasking;
use super::config::Config;
use super::errors::BountyError;

verus! {

#[derive(Clone, Debug, PartialEq, Eq)]
pub enum Postpaid {
    PaymentOutsideContractV1 { currency: String },
    PaymentOutsideContract { currency: String, payment_timestamps: Option<PaymentTimestamps> },
}

impl Postpaid {
    /// The same currency with no payment recorded yet.
    pub fn init(self) -> (r: Postpaid)
        requires
            self is PaymentOutsideContract,
            self->payment_timestamps is None,
        ensures
            r == (Postpaid::PaymentOutsideContract {
                currency: self->PaymentOutsideContract_currency,
                payment_timestamps: Some(
                    PaymentTimestamps { payment_at: None, payment_confirmed_at: None },
                ),
            }),
    {
        match self {
            Postpaid::PaymentOutsideContract { currency, .. } => Postpaid::PaymentOutsideContract {
                currency,
                payment_timestamps: Some(PaymentTimestamps::default()),
            },
            Postpaid::PaymentOutsideContractV1 { .. } => {
                proof { assert(false); }
                unreached()
            },
        }
    }

    /// When the payment was made and confirmed (nothing if never recorded).
    pub fn get_payment_timestamps(&self) -> (r: PaymentTimestamps)
        requires
            *self is PaymentOutsideContract,
        ensures
            r == timestamps_or_default(self->payment_timestamps),
    {
        match self {
            Postpaid::PaymentOutsideContract { payment_timestamps, .. } => match payment_timestamps {
                Some(t) => *t,
                None => PaymentTimestamps::default(),
            },
            Postpaid::PaymentOutsideContractV1 { .. } => {
                proof { assert(false); }
                unreached()
            },
        }
    }

    /// Records when the owner paid.
    pub fn set_payment_at(self, payment_at: Option<u64>) -> (r: Postpaid)
        requires
            self is PaymentOutsideContract,
        ensures
            r == (Postpaid::PaymentOutsideContract {
                currency: self->PaymentOutsideContract_currency,
                payment_timestamps: Some(
                    PaymentTimestamps {
                        payment_at,
                        ..timestamps_or_default(self->payment_timestamps)
                    },
                ),
            }),
    {
        match self {
            Postpaid::PaymentOutsideContract { currency, payment_timestamps } => {
                let old_t = match payment_timestamps {
                    Some(t) => t,
                    None => PaymentTimestamps::default(),
                };
                Postpaid::PaymentOutsideContract {
                    currency,
                    payment_timestamps: Some(
                        PaymentTimestamps {
                            payment_at,
                            payment_confirmed_at: old_t.payment_confirmed_at,
                        },
                    ),
                }
            },
            Postpaid::PaymentOutsideContractV1 { .. } => {
                proof { assert(false); }
                unreached()
            },
        }
    }

    /// Records when the claimant confirmed the payment.
    pub fn set_payment_confirmed_at(self, payment_confirmed_at: Option<u64>) -> (r: Postpaid)
        requires
            self is PaymentOutsideContract,
        ensures
            r == (Postpaid::PaymentOutsideContract {
                currency: self->PaymentOutsideContract_currency,
                payment_timestamps: Some(
                    PaymentTimestamps {
                        payment_confirmed_at,
                        ..timestamps_or_default(self->payment_timestamps)
                    },
                ),
            }),
    {
        match self {
            Postpaid::PaymentOutsideContract { currency, payment_timestamps } => {
                let old_t = match payment_timestamps {
                    Some(t) => t,
                    None => PaymentTimestamps::default(),
                };
                Postpaid::PaymentOutsideContract {
                    currency,
                    payment_timestamps: Some(
                        PaymentTimestamps { payment_at: old_t.payment_at, payment_confirmed_at },
                    ),
                }
            },
            Postpaid::PaymentOutsideContractV1 { .. } => {
                proof { assert(false); }
                unreached()
            },
        }
    }
}

#[derive(Clone, Debug, PartialEq, Eq)]
pub struct Bounty {
    pub token: Option<AccountId>,
    pub amount: u128,
    pub platform_fee: u128,
    pub dao_fee: u128,
    pub metadata: BountyMetadata,
    pub deadline: Deadline,
    pub claimer_approval: ClaimerApproval,
    pub reviewers: Option<Reviewers>,
    pub owner: AccountId,
    pub status: BountyStatus,
    pub created_at: u64,
    pub kyc_config: KycConfig,
    pub postpaid: Option<Postpaid>,
    pub multitasking: Option<Multitasking>,
}

/// The sum of the shares of all subtasks, in thousandths of a percent.
pub open spec fn percent_sum(s: Seq<Subtask>) -> int
    decreases s.len(),
{
    if s.len() == 0 {
        0
    } else {
        percent_sum(s.drop_last()) + s.last().subtask_percent
    }
}

/// The share of a fee in an amount that includes it: `amount * percentage / (100% + dao)`.
pub open spec fn fee_share(amount: u128, percentage: u128, percentage_dao: u128) -> int {
    (amount * percentage) / (FULL_PERCENTAGE + percentage_dao)
}

impl Bounty {
    /// The runtime state of its kind of bounty exists, the payment outside the contract
    /// is in the current form, and its amounts fit together in one token amount.
    pub open spec fn wf(&self) -> bool {
        &&& (self.multitasking matches Some(m) ==> m.wf())
        &&& (self.postpaid matches Some(p) ==> p is PaymentOutsideContract)
        &&& self.amount + self.platform_fee + self.dao_fee <= u128::MAX
    }

    pub open spec fn spec_is_payment_outside_contract(&self) -> bool {
        self.postpaid matches Some(p) && p is PaymentOutsideContract
    }

    pub fn is_payment_outside_contract(&self) -> (r: bool)
        ensures
            r == self.spec_is_payment_outside_contract(),
    {
        match &self.postpaid {
            Some(Postpaid::PaymentOutsideContract { .. }) => true,
            _ => false,
        }
    }

    pub open spec fn spec_is_contest_or_hackathon(&self) -> bool {
        self.multitasking matches Some(m) && m is ContestOrHackathon
    }

    pub fn is_contest_or_hackathon(&self) -> (r: bool)
        ensures
            r == self.spec_is_contest_or_hackathon(),
    {
        match &self.multitasking {
            Some(m) => m.is_competition_mode(),
            None => false,
        }
    }

    pub open spec fn spec_is_one_bounty_for_many_claimants(&self) -> bool {
        self.multitasking matches Some(m) && m is OneForAll
    }

    pub fn is_one_bounty_for_many_claimants(&self) -> (r: bool)
        ensures
            r == self.spec_is_one_bounty_for_many_claimants(),
    {
        match &self.multitasking {
            Some(m) => m.is_one_for_all_mode(),
            None => false,
        }
    }

    pub open spec fn spec_is_different_tasks(&self) -> bool {
        self.multitasking matches Some(m) && m is DifferentTasks
    }

    pub fn is_different_tasks(&self) -> (r: bool)
        ensures
            r == self.spec_is_different_tasks(),
    {
        match &self.multitasking {
            Some(m) => m.is_different_tasks_mode(),
            None => false,
        }
    }

    pub open spec fn spec_is_validators_dao_used(&self) -> bool {
        self.reviewers matches Some(r) && r is ValidatorsDao
    }

    pub fn is_validators_dao_used(&self) -> (r: bool)
        ensures
            r == self.spec_is_validators_dao_used(),
    {
        match &self.reviewers {
            Some(Reviewers::ValidatorsDao { .. }) => true,
            _ => false,
        }
    }

    /// The first rule of a multitasking bounty that its settings break, if any.
    pub open spec fn multitasking_error(&self, now: u64) -> Option<BountyError> {
        match self.multitasking {
            None => None,
            Some(Multitasking::ContestOrHackathon {
                allowed_create_claim_to,
                successful_claims_for_result,
                start_conditions,
                ..
            }) => {
                if allowed_create_claim_to matches Some(DateOrPeriod::Date { date }) && !(now
                    < date && (self.deadline.deadline_type() != 1 || date
                    <= self.deadline.deadline_value())) {
                    Some(BountyError::IncorrectClaimCreationDate)
                } else if successful_claims_for_result matches Some(n) && n <= 1 {
                    Some(BountyError::IncorrectSuccessfulClaimsNumber)
                } else if start_conditions matches Some(StartConditions::MinAmountToStart { amount })
                    && amount <= 1 {
                    Some(BountyError::IncorrectMinAmountToStart)
                } else {
                    None
                }
            },
            Some(Multitasking::OneForAll {
                number_of_slots,
                amount_per_slot,
                min_slots_to_start,
                ..
            }) => {
                if number_of_slots <= 1 {
                    Some(BountyError::TooFewSlots)
                } else if amount_per_slot == 0 {
                    Some(BountyError::ZeroSlotCost)
                } else if min_slots_to_start matches Some(m) && !(m > 1 && m <= MAX_SLOTS) {
                    Some(BountyError::IncorrectMinSlotsToStart)
                } else if !(self.amount + self.platform_fee >= amount_per_slot * number_of_slots
                    && self.amount + self.platform_fee - amount_per_slot * number_of_slots
                    <= MIN_DEVIATION_FOR_TOTAL_BOUNTY_AMOUNT) {
                    Some(BountyError::IncorrectTotalAmount)
                } else {
                    None
                }
            },
            Some(Multitasking::DifferentTasks { subtasks, .. }) => {
                if !(subtasks@.len() > 1 && subtasks@.len() <= MAX_SLOTS) {
                    Some(BountyError::IncorrectSubtasksNumber)
                } else if exists|i: int|
                    0 <= i < subtasks@.len() && (#[trigger] subtasks@[i]).subtask_description@.len()
                        == 0 {
                    Some(BountyError::EmptySubtaskDescription)
                } else if percent_sum(subtasks@) != FULL_PERCENTAGE {
                    Some(BountyError::IncorrectSubtasksSum)
                } else {
                    None
                }
            },
        }
    }

    /// The first rule that the settings of this bounty break, if any.
    pub open spec fn validation_error(&self, now: u64) -> Option<BountyError> {
        if self.metadata.title@.len() == 0 {
            Some(BountyError::EmptyTitle)
        } else if self.metadata.description@.len() == 0 {
            Some(BountyError::EmptyDescription)
        } else if self.metadata.category@.len() == 0 {
            Some(BountyError::EmptyCategory)
        } else if self.metadata.attachments matches Some(a) && a@.len() == 0 {
            Some(BountyError::NoAttachments)
        } else if self.amount == 0 {
            Some(BountyError::IncorrectAmount)
        } else if (if self.spec_is_payment_outside_contract() {
            self.token is Some
        } else {
            self.token is None
        }) {
            Some(BountyError::InvalidTokenId)
        } else if self.deadline matches Deadline::DueDate { due_date } && due_date <= now {
            Some(BountyError::IncorrectDueDate)
        } else if self.deadline matches Deadline::MaxDeadline { max_deadline } && max_deadline == 0 {
            Some(BountyError::IncorrectMaxDeadline)
        } else if self.reviewers matches Some(Reviewers::MoreReviewers { more_reviewers })
            && more_reviewers@.len() == 0 {
            Some(BountyError::NoReviewers)
        } else {
            self.multitasking_error(now)
        }
    }

    fn check_subtasks(subtasks: &Vec<Subtask>) -> (r: Option<BountyError>)
        ensures
            r == (if !(subtasks@.len() > 1 && subtasks@.len() <= MAX_SLOTS) {
                Some(BountyError::IncorrectSubtasksNumber)
            } else if exists|i: int|
                0 <= i < subtasks@.len() && (#[trigger] subtasks@[i]).subtask_description@.len()
                    == 0 {
                Some(BountyError::EmptySubtaskDescription)
            } else if percent_sum(subtasks@) != FULL_PERCENTAGE {
                Some(BountyError::IncorrectSubtasksSum)
            } else {
                None
            }),
    {
        let n = subtasks.len();
        if !(n > 1 && n <= MAX_SLOTS as usize) {
            return Some(BountyError::IncorrectSubtasksNumber);
        }
        let mut i: usize = 0;
        while i < n
            invariant
                n == subtasks@.len(),
                1 < n <= MAX_SLOTS,
                i <= n,
                forall|j: int| 0 <= j < i ==> (#[trigger] subtasks@[j]).subtask_description@.len() != 0,
            decreases n - i,
        {
            if subtasks[i].subtask_description.as_str().is_empty() {
                assert((subtasks@[i as int]).subtask_description@.len() == 0);
                assert(exists|j: int|
                    0 <= j < subtasks@.len() && (#[trigger] subtasks@[j]).subtask_description@.len()
                        == 0);
                return Some(BountyError::EmptySubtaskDescription);
            }
            i = i + 1;
        }
        let mut sum: u64 = 0;
        let mut k: usize = 0;
        while k < n
            invariant
                n == subtasks@.len(),
                1 < n <= MAX_SLOTS,
                k <= n,
                forall|j: int| 0 <= j < n ==> (#[trigger] subtasks@[j]).subtask_description@.len() != 0,
                sum == percent_sum(subtasks@.subrange(0, k as int)),
                sum <= k * 0xffff_ffff,
            decreases n - k,
        {
            proof {
                assert(subtasks@.subrange(0, k + 1).drop_last() =~= subtasks@.subrange(0, k as int));
            }
            sum = sum + subtasks[k].subtask_percent as u64;
            k = k + 1;
        }
        proof {
            assert(subtasks@.subrange(0, n as int) =~= subtasks@);
        }
        if sum != 100_000 {
            return Some(BountyError::IncorrectSubtasksSum);
        }
        None
    }

    fn check_multitasking(&self, now: u64) -> (r: Option<BountyError>)
        requires
            self.amount + self.platform_fee + self.dao_fee <= u128::MAX,
        ensures
            r == self.multitasking_error(now),
    {
        match &self.multitasking {
            None => None,
            Some(Multitasking::ContestOrHackathon {
                allowed_create_claim_to,
                successful_claims_for_result,
                start_conditions,
                ..
            }) => {
                match allowed_create_claim_to {
                    Some(DateOrPeriod::Date { date }) => {
                        let dt = self.deadline.get_deadline_type();
                        let ok = now < *date && (dt != 1 || *date
                            <= self.deadline.get_deadline_value());
                        if !ok {
                            return Some(BountyError::IncorrectClaimCreationDate);
                        }
                    },
                    _ => {},
                }
                match successful_claims_for_result {
                    Some(n) => {
                        if *n <= 1 {
                            return Some(BountyError::IncorrectSuccessfulClaimsNumber);
                        }
                    },
                    None => {},
                }
                match start_conditions {
                    Some(StartConditions::MinAmountToStart { amount }) => {
                        if *amount <= 1 {
                            return Some(BountyError::IncorrectMinAmountToStart);
                        }
                    },
                    _ => {},
                }
                None
            },
            Some(Multitasking::OneForAll {
                number_of_slots,
                amount_per_slot,
                min_slots_to_start,
                ..
            }) => {
                if *number_of_slots <= 1 {
                    return Some(BountyError::TooFewSlots);
                }
                if *amount_per_slot == 0 {
                    return Some(BountyError::ZeroSlotCost);
                }
                match min_slots_to_start {
                    Some(m) => {
                        if !(*m > 1 && *m <= MAX_SLOTS) {
                            return Some(BountyError::IncorrectMinSlotsToStart);
                        }
                    },
                    None => {},
                }
                let total = self.amount + self.platform_fee;
                let ok = match amount_per_slot.checked_mul(*number_of_slots as u128) {
                    Some(p) => total >= p && total - p <= MIN_DEVIATION_FOR_TOTAL_BOUNTY_AMOUNT,
                    None => false,
                };
                if !ok {
                    return Some(BountyError::IncorrectTotalAmount);
                }
                None
            },
            Some(Multitasking::DifferentTasks { subtasks, .. }) => Self::check_subtasks(subtasks),
        }
    }

    /// Checks the settings of the bounty against the rules that do not depend on the
    /// contract; refused with the first rule they break.
    pub fn assert_valid(&self, now: u64) -> (r: Result<(), BountyError>)
        requires
            self.amount + self.platform_fee + self.dao_fee <= u128::MAX,
        ensures
            r is Err <==> self.validation_error(now) is Some,
            r matches Err(e) ==> self.validation_error(now) == Some(e),
    {
        if self.metadata.title.as_str().is_empty() {
            return Err(BountyError::EmptyTitle);
        }
        if self.metadata.description.as_str().is_empty() {
            return Err(BountyError::EmptyDescription);
        }
        if self.metadata.category.as_str().is_empty() {
            return Err(BountyError::EmptyCategory);
        }
        match &self.metadata.attachments {
            Some(a) => {
                if a.len() == 0 {
                    return Err(BountyError::NoAttachments);
                }
            },
            None => {},
        }
        if self.amount == 0 {
            return Err(BountyError::IncorrectAmount);
        }
        let token_ok = if self.is_payment_outside_contract() {
            self.token.is_none()
        } else {
            self.token.is_some()
        };
        if !token_ok {
            return Err(BountyError::InvalidTokenId);
        }
        match self.deadline {
            Deadline::DueDate { due_date } => {
                if due_date <= now {
                    return Err(BountyError::IncorrectDueDate);
                }
            },
            Deadline::MaxDeadline { max_deadline } => {
                if max_deadline == 0 {
                    return Err(BountyError::IncorrectMaxDeadline);
                }
            },
            Deadline::WithoutDeadline => {},
        }
        match &self.reviewers {
            Some(Reviewers::MoreReviewers { more_reviewers }) => {
                if more_reviewers.len() == 0 {
                    return Err(BountyError::NoReviewers);
                }
            },
            _ => {},
        }
        match self.check_multitasking(now) {
            Some(e) => Err(e),
            None => Ok(()),
        }
    }

    pub open spec fn spec_check_access_rights(&self, sender: Seq<char>) -> Result<(), BountyError> {
        match self.reviewers {
            Some(Reviewers::ValidatorsDao { validators_dao }) => if validators_dao.account_id@
                == sender {
                Ok(())
            } else {
                Err(BountyError::NotDao)
            },
            Some(Reviewers::MoreReviewers { more_reviewers }) => if has_account(
                more_reviewers@,
                sender,
            ) || self.owner@ == sender {
                Ok(())
            } else {
                Err(BountyError::NotReviewer)
            },
            None => if self.owner@ == sender {
                Ok(())
            } else {
                Err(BountyError::NotOwner)
            },
        }
    }

    /// Whether `sender` may decide on claims: the validators DAO where one is used,
    /// else the owner or one of the approvers.
    pub fn check_access_rights(&self, sender: &AccountId) -> (r: Result<(), BountyError>)
        ensures
            r == self.spec_check_access_rights(sender@),
    {
        match &self.reviewers {
            Some(Reviewers::ValidatorsDao { validators_dao }) => {
                if validators_dao.account_id == *sender {
                    Ok(())
                } else {
                    Err(BountyError::NotDao)
                }
            },
            Some(Reviewers::MoreReviewers { more_reviewers }) => {
                if contains_account(more_reviewers, sender) || self.owner == *sender {
                    Ok(())
                } else {
                    Err(BountyError::NotReviewer)
                }
            },
            None => {
                if self.owner == *sender {
                    Ok(())
                } else {
                    Err(BountyError::NotOwner)
                }
            },
        }
    }

    /// Whether `account_id` is the validators DAO of this bounty.
    pub fn assert_validators_dao_account_id(&self, account_id: &AccountId) -> (r: Result<
        (),
        BountyError,
    >)
        ensures
            r == (match self.reviewers {
                Some(Reviewers::ValidatorsDao { validators_dao }) => if validators_dao.account_id@
                    == account_id@ {
                    Ok(())
                } else {
                    Err(BountyError::DaoMismatch)
                },
                _ => Err(BountyError::DaoNotUsed),
            }),
    {
        match &self.reviewers {
            Some(Reviewers::ValidatorsDao { validators_dao }) => {
                if validators_dao.account_id == *account_id {
                    Ok(())
                } else {
                    Err(BountyError::DaoMismatch)
                }
            },
            _ => Err(BountyError::DaoNotUsed),
        }
    }

    pub open spec fn spec_is_claim_deadline_correct(&self, deadline: u64, now: u64) -> bool {
        match self.deadline {
            Deadline::DueDate { due_date } => now + deadline <= due_date,
            Deadline::MaxDeadline { max_deadline } => deadline <= max_deadline,
            Deadline::WithoutDeadline => true,
        }
    }

    /// Whether a claim that takes `deadline` from `now` ends within the bounty's deadline.
    pub fn is_claim_deadline_correct(&self, deadline: u64, now: u64) -> (r: bool)
        ensures
            r == self.spec_is_claim_deadline_correct(deadline, now),
    {
        match self.deadline {
            Deadline::DueDate { due_date } => (now as u128) + (deadline as u128) <= due_date as u128,
            Deadline::MaxDeadline { max_deadline } => deadline <= max_deadline,
            Deadline::WithoutDeadline => true,
        }
    }

    pub open spec fn spec_owner_delegate(&self) -> AccountId {
        match self.reviewers {
            Some(Reviewers::ValidatorsDao { validators_dao }) => validators_dao.account_id,
            _ => self.owner,
        }
    }

    /// Who speaks for the owner in a dispute: the validators DAO if any, else the owner.
    pub fn get_bounty_owner_delegate(&self) -> (r: AccountId)
        ensures
            r == self.spec_owner_delegate(),
    {
        match &self.reviewers {
            Some(Reviewers::ValidatorsDao { validators_dao }) => validators_dao.account_id.clone(),
            _ => self.owner.clone(),
        }
    }

    pub open spec fn spec_owner_or_reviewer_error(&self, account_id: Seq<char>) -> Option<
        BountyError,
    > {
        if self.owner@ == account_id {
            Some(BountyError::OwnerCannotClaim)
        } else {
            match self.reviewers {
                Some(Reviewers::MoreReviewers { more_reviewers }) => if has_account(
                    more_reviewers@,
                    account_id,
                ) {
                    Some(BountyError::ReviewerCannotClaim)
                } else {
                    None
                },
                Some(Reviewers::ValidatorsDao { validators_dao }) => if validators_dao.account_id@
                    == account_id {
                    Some(BountyError::DaoCannotClaim)
                } else {
                    None
                },
                None => None,
            }
        }
    }

    /// Neither the owner nor a approver nor the validators DAO may claim.
    pub fn assert_account_is_not_owner_or_reviewer(&self, account_id: &AccountId) -> (r: Result<
        (),
        BountyError,
    >)
        ensures
            r is Err <==> self.spec_owner_or_reviewer_error(account_id@) is Some,
            r matches Err(e) ==> self.spec_owner_or_reviewer_error(account_id@) == Some(e),
    {
        if self.owner == *account_id {
            return Err(BountyError::OwnerCannotClaim);
        }
        match &self.reviewers {
            Some(Reviewers::MoreReviewers { more_reviewers }) => {
                if contains_account(more_reviewers, account_id) {
                    return Err(BountyError::ReviewerCannotClaim);
                }
            },
            Some(Reviewers::ValidatorsDao { validators_dao }) => {
                if validators_dao.account_id == *account_id {
                    return Err(BountyError::DaoCannotClaim);
                }
            },
            None => {},
        }
        Ok(())
    }

    pub open spec fn spec_percentages(config: Config, reviewers: Option<Reviewers>) -> (u128, u128) {
        (
            config.platform_fee_percentage as u128,
            if reviewers matches Some(Reviewers::ValidatorsDao { .. }) {
                config.validators_dao_fee_percentage as u128
            } else {
                0
            },
        )
    }

    /// The platform fee percentage, and the DAO fee percentage where a DAO checks.
    pub fn get_percentage_of_commissions(config: &Config, reviewers: &Option<Reviewers>) -> (r: (
        u128,
        u128,
    ))
        ensures
            r == Self::spec_percentages(*config, *reviewers),
    {
        let percentage_platform = config.platform_fee_percentage as u128;
        let percentage_dao: u128 = match reviewers {
            Some(Reviewers::ValidatorsDao { .. }) => config.validators_dao_fee_percentage as u128,
            _ => 0,
        };
        (percentage_platform, percentage_dao)
    }
}

#[derive(Clone, Debug, PartialEq, Eq)]
pub struct BountyCreate {
    pub metadata: BountyMetadata,
    pub deadline: Deadline,
    pub claimer_approval: ClaimerApproval,
    pub reviewers: Option<ReviewersParams>,
    pub kyc_config: Option<KycConfig>,
    pub postpaid: Option<Postpaid>,
    pub multitasking: Option<Multitasking>,
}

impl BountyCreate {
    /// The approvers that the bounty will have.
    pub open spec fn spec_reviewers(&self) -> Option<Reviewers> {
        match self.reviewers {
            Some(p) => Some(p.spec_to_reviewers()),
            None => None,
        }
    }

    /// The platform fee and the DAO fee that an amount of `amount` pays.
    pub open spec fn spec_fees(&self, amount: u128, config: Config) -> (int, int) {
        let (p, d) = Bounty::spec_percentages(config, self.spec_reviewers());
        if self.postpaid is None {
            (fee_share(amount, p, d), fee_share(amount, d, d))
        } else {
            (0, 0)
        }
    }

    /// The settings can be made into a bounty: the fees can be computed and fit in the
    /// amount, and the payment and multitasking settings carry no runtime state yet.
    pub open spec fn can_make_bounty(&self, amount: u128, config: Config) -> bool {
        let (p, d) = Bounty::spec_percentages(config, self.spec_reviewers());
        &&& (self.postpaid is None ==> amount * p <= u128::MAX && amount * d <= u128::MAX)
        &&& self.spec_fees(amount, config).0 + self.spec_fees(amount, config).1 <= amount
        &&& (self.postpaid matches Some(pp) ==> pp is PaymentOutsideContract
            && pp->payment_timestamps is None)
        &&& (self.multitasking matches Some(m) ==> m.is_uninitialized())
    }

    /// Computes the fees, checking that they fit; refused where the fees would pass
    /// `u128::MAX` or exceed the amount, or on settings that already carry a runtime
    /// state.
    pub fn check_can_make_bounty(&self, amount: u128, config: &Config) -> (r: Result<(), BountyError>)
        ensures
            r is Ok <==> self.can_make_bounty(amount, *config),
            r matches Err(e) ==> e == (match self.postpaid {
                Some(Postpaid::PaymentOutsideContractV1 { .. }) => BountyError::IncorrectPostpaid,
                Some(Postpaid::PaymentOutsideContract { .. }) => BountyError::AlreadyInitialized,
                None => {
                    let (p, d) = Bounty::spec_percentages(*config, self.spec_reviewers());
                    if amount * p <= u128::MAX && amount * d <= u128::MAX
                        && self.spec_fees(amount, *config).0 + self.spec_fees(amount, *config).1 <= amount {
                        BountyError::AlreadyInitialized
                    } else {
                        BountyError::ArithmeticOverflow
                    }
                },
            }),
    {
        let reviewers = match &self.reviewers {
            Some(ReviewersParams::ValidatorsDao { .. }) => true,
            _ => false,
        };
        let p = config.platform_fee_percentage as u128;
        let d: u128 = if reviewers { config.validators_dao_fee_percentage as u128 } else { 0 };
        match &self.postpaid {
            Some(Postpaid::PaymentOutsideContract { payment_timestamps, .. }) => {
                if payment_timestamps.is_some() {
                    return Err(BountyError::AlreadyInitialized);
                }
            },
            Some(Postpaid::PaymentOutsideContractV1 { .. }) => {
                return Err(BountyError::IncorrectPostpaid);
            },
            None => {
                let pf = match amount.checked_mul(p) {
                    Some(x) => x / (100_000 + d),
                    None => { return Err(BountyError::ArithmeticOverflow); },
                };
                let df = match amount.checked_mul(d) {
                    Some(x) => x / (100_000 + d),
                    None => { return Err(BountyError::ArithmeticOverflow); },
                };
                if pf > amount || df > amount - pf {
                    return Err(BountyError::ArithmeticOverflow);
                }
            },
        }
        match &self.multitasking {
            Some(Multitasking::ContestOrHackathon { runtime_env, .. }) => {
                if runtime_env.is_some() { return Err(BountyError::AlreadyInitialized); }
            },
            Some(Multitasking::OneForAll { runtime_env, .. }) => {
                if runtime_env.is_some() { return Err(BountyError::AlreadyInitialized); }
            },
            Some(Multitasking::DifferentTasks { runtime_env, .. }) => {
                if runtime_env.is_some() { return Err(BountyError::AlreadyInitialized); }
            },
            None => {},
        }
        Ok(())
    }

    /// `r` is the bounty that these settings make for `payer_id`, paid with `amount`
    /// in `token_id`: the amount is split into the reward, the platform fee and the DAO
    /// fee (no fees for a bounty paid outside the contract).
    pub open spec fn made_bounty(&self, r: Bounty, payer_id: AccountId, token_id: Option<AccountId>, amount: u128, config: Config, now: u64) -> bool {
        &&& r.token == token_id
        &&& r.platform_fee == self.spec_fees(amount, config).0
        &&& r.dao_fee == self.spec_fees(amount, config).1
        &&& r.amount + r.platform_fee + r.dao_fee == amount
        &&& r.metadata == self.metadata
        &&& r.deadline == self.deadline
        &&& r.claimer_approval == self.claimer_approval
        &&& r.reviewers == self.spec_reviewers()
        &&& r.owner == payer_id
        &&& r.status == BountyStatus::New
        &&& r.created_at == now
        &&& r.kyc_config == (match self.kyc_config {
                Some(k) => k,
                None => KycConfig::KycRequired {
                    kyc_verification_method: KycVerificationMethod::WhenCreatingClaim,
                },
            })
        &&& r.postpaid == (match self.postpaid {
                Some(p) => Some(Postpaid::PaymentOutsideContract {
                    currency: p->PaymentOutsideContract_currency,
                    payment_timestamps: Some(PaymentTimestamps { payment_at: None, payment_confirmed_at: None }),
                }),
                None => None,
            })
        &&& match self.multitasking {
                Some(m) => r.multitasking matches Some(rm) && m.spec_initialized(rm),
                None => r.multitasking is None,
            }
    }

    /// The new bounty of `payer_id` that `amount` in `token_id` pays for.
    pub fn to_bounty(self, payer_id: &AccountId, token_id: Option<AccountId>, amount: u128, config: &Config, now: u64) -> (r: Bounty)
        requires
            self.can_make_bounty(amount, *config),
        ensures
            r.wf(),
            self.made_bounty(r, *payer_id, token_id, amount, *config, now),
    {
        let reviewers = match self.reviewers {
            Some(p) => Some(p.to_reviewers()),
            None => None,
        };
        let (percentage_platform, percentage_dao) = Bounty::get_percentage_of_commissions(
            config,
            &reviewers,
        );
        let platform_fee: u128 = if self.postpaid.is_none() {
            amount * percentage_platform / (100_000 + percentage_dao)
        } else {
            0
        };
        let dao_fee: u128 = if self.postpaid.is_none() {
            amount * percentage_dao / (100_000 + percentage_dao)
        } else {
            0
        };
        let bounty_amount = amount - platform_fee - dao_fee;
        let kyc_config = match self.kyc_config {
            Some(k) => k,
            None => KycConfig::default(),
        };
        let postpaid = match self.postpaid {
            Some(p) => Some(p.init()),
            None => None,
        };
        let multitasking = match self.multitasking {
            Some(m) => Some(m.init()),
            None => None,
        };
        Bounty {
            token: token_id,
            amount: bounty_amount,
            platform_fee,
            dao_fee,
            metadata: self.metadata,
            deadline: self.deadline,
            claimer_approval: self.claimer_approval,
            reviewers,
            owner: payer_id.clone(),
            status: BountyStatus::New,
            created_at: now,
            kyc_config,
            postpaid,
            multitasking,
        }
    }
}

#[derive(Clone, Debug, PartialEq, Eq)]
pub struct BountyUpdate {
    pub metadata: Option<BountyMetadata>,
    pub deadline: Option<Deadline>,
    pub claimer_approval: Option<ClaimerApproval>,
    pub reviewers: Option<ReviewersParams>,
    pub amount: Option<u128>,
}

} // verus!
