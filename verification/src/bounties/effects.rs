//! Calls to other contracts that a transition of the bounties contract asks for.
use vstd::prelude::*;
use crate::accounts::AccountId;
use super::types::{BountyIndex, ReputationActionKind, PlaceOfCheckKYC};

verus! {

/// The caller of a method and the block it runs in.
#[derive(Clone, Debug, PartialEq, Eq)]
pub struct CallContext {
    pub predecessor: AccountId,
    pub block_timestamp: u64,
    pub attached_deposit: u128,
}

/// What the contract does with the answer of a call it made.
#[derive(Clone, Debug, PartialEq, Eq)]
pub enum Callback {
    AfterFtTransfer { id: BountyIndex, claimer: Option<AccountId> },
    AfterBountyWithdraw { id: BountyIndex, claimer: AccountId, slot: usize },
    AfterRefundBountyAmount { id: BountyIndex },
    AfterFeesPayout { token_id: AccountId, amount: u128, is_platform_fee: bool, account_id: AccountId },
    AfterGetFtMetadata { token_id: AccountId, min_amount_for_kyc: Option<u128> },
    AfterCheckIfWhitelisted {
        id: BountyIndex,
        claimer: AccountId,
        place_of_check: PlaceOfCheckKYC,
        slot: Option<usize>,
    },
    OnAddedProposal { id: BountyIndex, claimer: AccountId },
    AfterAddProposal {
        id: BountyIndex,
        claimer: AccountId,
        deadline: u64,
        description: String,
        slot: Option<usize>,
    },
    AfterCheckBountyPayoutProposal {
        id: BountyIndex,
        receiver_id: Option<AccountId>,
        proposal_id: u64,
    },
    AfterCheckApproveClaimerProposal { id: BountyIndex, claimer: AccountId, proposal_id: u64 },
    AfterCreateDispute { id: BountyIndex, claimer: AccountId },
    AfterGetDispute { id: BountyIndex, claimer: AccountId },
}

/// The action that a proposal to a validators DAO asks the DAO to approve.
#[derive(Clone, Debug, PartialEq, Eq)]
pub enum ProposalAction {
    /// Approve the result of one claim.
    ClaimApproved { id: BountyIndex, receiver_id: AccountId, gas: u64 },
    /// Approve the results of all subtasks.
    SeveralClaimsApproved { id: BountyIndex, gas: u64 },
    /// Approve a claimant.
    ApproveClaimer { id: BountyIndex, claimer: AccountId, gas: u64 },
}

/// A call to another contract or a transfer.
#[derive(Clone, Debug, PartialEq, Eq)]
pub enum Effect {
    /// A transfer of the native token.
    Transfer { receiver_id: AccountId, amount: u128 },
    /// A transfer of a fungible token, then a callback.
    FtTransfer { token_id: AccountId, receiver_id: AccountId, amount: u128, then: Callback },
    /// A request for the metadata of a fungible token, then a callback.
    FtMetadata { token_id: AccountId, then: Callback },
    /// A record for the reputation contract.
    Statistic {
        reputation_contract: AccountId,
        claimer: Option<AccountId>,
        bounty_owner: Option<AccountId>,
        action_kind: ReputationActionKind,
    },
    /// A KYC whitelist query, then a callback.
    IsWhitelisted { kyc_whitelist_contract: AccountId, account_id: AccountId, then: Callback },
    /// A proposal to a validators DAO, then a callback.
    AddProposal {
        dao: AccountId,
        description: String,
        action: ProposalAction,
        bond: u128,
        gas: u64,
        then: Callback,
    },
    /// A query of a DAO proposal, then a callback.
    GetProposal { dao: AccountId, proposal_id: u64, then: Callback },
    /// A new dispute, then a callback.
    CreateDispute {
        dispute_contract: AccountId,
        bounty_id: BountyIndex,
        description: String,
        claimer: AccountId,
        project_owner_delegate: AccountId,
        then: Callback,
    },
    /// A query of a dispute, then a callback.
    GetDispute { dispute_contract: AccountId, dispute_id: u64, then: Callback },
}

} // verus!
