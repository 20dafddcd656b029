//! Why the bounties contract refuses a request.
use vstd::prelude::*;

verus! {

#[derive(Clone, Copy, Debug, PartialEq, Eq, Structural)]
pub enum BountyError {
    // settings of a bounty
    EmptyTitle,
    EmptyDescription,
    EmptyCategory,
    NoAttachments,
    IncorrectAmount,
    InvalidTokenId,
    IncorrectDueDate,
    IncorrectMaxDeadline,
    NoReviewers,
    IncorrectClaimCreationDate,
    IncorrectSuccessfulClaimsNumber,
    IncorrectMinAmountToStart,
    TooFewSlots,
    ZeroSlotCost,
    IncorrectMinSlotsToStart,
    IncorrectTotalAmount,
    IncorrectSubtasksNumber,
    EmptySubtaskDescription,
    IncorrectSubtasksSum,
    InvalidCategory,
    InvalidTag,
    InvalidCurrency,
    KycContractNotSet,
    AlreadyInitialized,
    ArithmeticOverflow,
    UnsupportedApprovalSetting,
    // the contract and its administration
    NotLive,
    NotPrivate,
    OneYoctoRequired,
    NoAdmins,
    NotAdmin,
    RemovingAllAdmins,
    ExpectedAccounts,
    ExpectedEntries,
    TokenExists,
    TokenNotFound,
    TokenNotAllowed,
    TokenDisabled,
    ReputationContractNotUsed,
    DisputeContractNotUsed,
    StatusGenesis,
    NotAllowedToCreateBounties,
    NotAllowedToCreatePostpaid,
    IncorrectPostpaid,
    // bounties and claims
    BountyNotFound,
    WrongBond,
    EmptyClaimDescription,
    WrongDeadline,
    OwnerCannotClaim,
    ReviewerCannotClaim,
    DaoCannotClaim,
    NotWhitelisted,
    BountyStatusForClaim,
    ClaimAlreadyExists,
    SlotNotUsed,
    SlotRequired,
    SlotOutOfRange,
    NoLongerPossibleToClaim,
    NoClaimer,
    NoClaim,
    BountyStatusForDecision,
    ClaimStatusForDecision,
    NotOwner,
    NotDao,
    NotReviewer,
    ClaimDeadlineNoLongerCorrect,
    BountyStatusForCompletion,
    ClaimStatusForCompletion,
    ClaimStatusForGiveUp,
    ClaimNotStarted,
    BountyStatusForCancel,
    BountyStatusForAction,
    ClaimStatusForAction,
    NotDifferentTasks,
    NotAllSlotsComplete,
    NotAllSlotsConfirmed,
    NotSubjectToFinalization,
    NoActiveClaims,
    PaymentConfirmed,
    NoPaymentConfirmation,
    DeadlineNotPassed,
    CompetitionNotRunning,
    NotEnoughFinished,
    OnlyWinnerCanBeApproved,
    NotForDifferentTasks,
    NotEnoughLocked,
    BountyStatusForUpdate,
    MetadataLocked,
    ApprovalSettingLocked,
    DeadlineCannotBeLimited,
    DeadlineTypeLocked,
    DeadlineOnlyIncreases,
    DaoSettingsLocked,
    DaoCannotBeAdded,
    ReviewersUnchanged,
    ZeroAmount,
    AmountLocked,
    AmountLockedAfterPayment,
    NoChanges,
    BountyStatusForDeadline,
    ClaimStatusForDeadline,
    IncorrectClaimDeadline,
    NotPaymentOutsideContract,
    BountyStatusForPayment,
    ClaimerRequired,
    ClaimerNotExpected,
    ClaimStatusForPayment,
    AlreadyPerformed,
    WinnerDecided,
    PaymentNotMade,
    NotClaimOwner,
    NotWinner,
    BountyStatusForStart,
    StartBeforeDate,
    CompetitionStarted,
    ManualStartUnsupported,
    TooFewParticipants,
    NoFeeRecipient,
    NoPermission,
    NoFees,
    ZeroBalance,
    BountyStatusForWithdraw,
    ClaimStatusForWithdraw,
    SlotNotOccupied,
    SlotOfAnotherAccount,
    DaoNotUsed,
    DaoMismatch,
    DisputesNotSupported,
    BountyStatusForDispute,
    ClaimStatusForDispute,
    DisputePeriodExpired,
    NotDisputeContract,
    ZeroNonRefundedBonds,
    ProposalMismatch,
    ProposalStatusNotProcessed,
    DisputeStatusNotProcessed,
    NotKycWhitelisted,
    PromiseFailed,
}

} // verus!
