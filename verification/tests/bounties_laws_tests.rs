use heroes::accounts::AccountId;
use heroes::bounties::bounty::{Bounty, BountyCreate};
use heroes::bounties::claim::BountyAction;
use heroes::bounties::config::Config;
use heroes::bounties::contract::BountiesContract;
use heroes::bounties::effects::{CallContext, Effect};
use heroes::bounties::errors::BountyError;
use heroes::bounties::fees::FeeStats;
use heroes::bounties::multitasking::Multitasking;
use heroes::bounties::payout::internal_get_bounty_amount_for_payment;
use heroes::bounties::cancel::internal_get_bounty_amount_to_return;
use heroes::bounties::types::{
    BountyMetadata, BountyStatus, ClaimerApproval, ContractStatus, Deadline, KycConfig, OneForAllEnv, Reviewers,
    ReviewersParams, Subtask, TokenDetails, ValidatorsDaoParams,
};

fn accounts(i: usize) -> AccountId {
    ["alice", "bob", "charlie", "danny", "eugene", "fargo"][i].to_string()
}

fn metadata() -> BountyMetadata {
    BountyMetadata {
        title: "test".to_string(),
        description: "test".to_string(),
        category: "Other".to_string(),
        attachments: None,
        experience: None,
        tags: None,
        acceptance_criteria: None,
        contact_details: None,
    }
}

fn bounty_create(reviewers: Option<ReviewersParams>) -> BountyCreate {
    BountyCreate {
        metadata: metadata(),
        deadline: Deadline::MaxDeadline { max_deadline: 1_000 },
        claimer_approval: ClaimerApproval::WithoutApproval,
        reviewers,
        kyc_config: Some(KycConfig::KycNotRequired),
        postpaid: None,
        multitasking: None,
    }
}

// Fees are shares of the transferred amount: 10% of the platform and, with a service
// DAO, 10% of the DAO, both over 100% plus the DAO share; the rest is the reward.
#[test]
fn fee_split_adds_up() {
    let config = Config::default();
    let b = bounty_create(None).to_bounty(&accounts(1), Some("token".to_string()), 2_200, &config, 7);
    assert_eq!(b.platform_fee, 220);
    assert_eq!(b.dao_fee, 0);
    assert_eq!(b.amount, 1_980);
    assert_eq!(b.owner, accounts(1));
    assert_eq!(b.created_at, 7);
    assert_eq!(b.status, BountyStatus::New);

    let dao = ReviewersParams::ValidatorsDao {
        validators_dao: ValidatorsDaoParams {
            account_id: "dao".to_string(),
            add_proposal_bond: 1,
            gas_for_add_proposal: None,
            gas_for_claim_approval: None,
            gas_for_claimer_approval: None,
        },
    };
    let b = bounty_create(Some(dao)).to_bounty(&accounts(1), Some("token".to_string()), 2_200, &config, 7);
    assert_eq!(b.platform_fee, 200);
    assert_eq!(b.dao_fee, 200);
    assert_eq!(b.amount, 1_800);
    assert_eq!(b.amount + b.platform_fee + b.dao_fee, 2_200);
    assert!(matches!(b.reviewers, Some(Reviewers::ValidatorsDao { .. })));
    assert_eq!(Bounty::get_percentage_of_commissions(&config, &b.reviewers), (10_000, 10_000));
}

// Receiving, unlocking and withdrawing a fee leaves the balance as it was.
#[test]
fn fee_round_trip() {
    let mut s = FeeStats::new();
    s.receiving_commission(500);
    assert_eq!((s.balance, s.locked_balance, s.amount_received), (500, 500, 500));
    assert_eq!(s.get_available_balance(), 0);
    s.commission_unlocking(500);
    assert_eq!(s.get_available_balance(), 500);
    s.withdrawal_of_commission(500);
    assert_eq!(s.balance, 0);
    assert_eq!(s.amount_withdrawn, 500);
    assert_eq!(s.amount_received, 500);

    let mut r = FeeStats::new();
    r.receiving_commission(300);
    r.refund_commission(300, 30);
    assert_eq!((r.balance, r.locked_balance, r.refunded_amount, r.penalty_amount), (0, 0, 270, 30));
    assert_eq!(r.balance + r.amount_withdrawn + r.refunded_amount + r.penalty_amount, r.amount_received);
}

fn slot_bounty(amount: u128, platform_fee: u128, slots: u16, occupied_slots: u16, paid_slots: u16, status: BountyStatus) -> Bounty {
    Bounty {
        token: Some("token".to_string()),
        amount,
        platform_fee,
        dao_fee: 0,
        metadata: metadata(),
        deadline: Deadline::WithoutDeadline,
        claimer_approval: ClaimerApproval::WithoutApproval,
        reviewers: None,
        owner: accounts(1),
        status,
        created_at: 0,
        kyc_config: KycConfig::KycNotRequired,
        postpaid: None,
        multitasking: Some(Multitasking::OneForAll {
            number_of_slots: slots,
            amount_per_slot: amount / slots as u128,
            min_slots_to_start: None,
            runtime_env: Some(OneForAllEnv { occupied_slots, paid_slots }),
        }),
    }
}

// The slot payments pay out the whole amount: equal shares, and the last slot takes
// what the division left over.
#[test]
fn slot_payments_pay_everything() {
    let first = internal_get_bounty_amount_for_payment(&slot_bounty(1_000, 100, 3, 3, 0, BountyStatus::ManyClaimed));
    let last = internal_get_bounty_amount_for_payment(&slot_bounty(1_000, 100, 3, 1, 2, BountyStatus::ManyClaimed));
    assert_eq!(first, (333, 33, 0));
    assert_eq!(last, (334, 34, 0));
    assert_eq!(first.0 * 2 + last.0, 1_000);
    assert_eq!(first.1 * 2 + last.1, 100);
}

// A canceled bounty gives back what was not paid, and the fees less the penalties.
#[test]
fn cancel_returns_unpaid_part() {
    let config = Config::default();
    let whole = internal_get_bounty_amount_to_return(&slot_bounty(1_000, 100, 4, 0, 0, BountyStatus::AwaitingClaims), &config).unwrap();
    assert_eq!(whole, (1_100, 100, 0, 0, 0));
    let half = internal_get_bounty_amount_to_return(&slot_bounty(1_000, 100, 4, 0, 2, BountyStatus::AwaitingClaims), &config).unwrap();
    assert_eq!(half, (550, 50, 0, 0, 0));
    let mut penalized = config.clone();
    penalized.penalty_platform_fee_percentage = 5_000;
    let with_penalty = internal_get_bounty_amount_to_return(&slot_bounty(1_000, 100, 4, 0, 0, BountyStatus::AwaitingClaims), &penalized).unwrap();
    assert_eq!(with_penalty, (1_050, 100, 50, 0, 0));
}

// While the contract is not live, changes are refused and nothing changes.
#[test]
fn read_only_refuses_changes() {
    let mut contract = BountiesContract::new(vec![accounts(0)], None, None, None, None, None).unwrap();
    assert_eq!(contract.status, ContractStatus::Genesis);
    assert_eq!(contract.set_status(ContractStatus::Genesis), Err(BountyError::StatusGenesis));
    let admin = CallContext { predecessor: accounts(0), block_timestamp: 0, attached_deposit: 1 };
    assert_eq!(contract.add_to_admins_whitelist(&admin, Some(accounts(1)), None), Err(BountyError::NotLive));
    contract.set_status(ContractStatus::ReadOnly).unwrap();
    assert_eq!(contract.add_token_id(&admin, "token".to_string(), None), Err(BountyError::NotLive));
    assert_eq!(contract.bounty_cancel(&admin, 0), Err(BountyError::NotLive));
    assert_eq!(contract.bounty_action(&admin, 0, BountyAction::SeveralClaimsApproved), Err(BountyError::NotLive));
    assert_eq!(contract.withdraw_non_refunded_bonds(&admin), Err(BountyError::NotLive));
    assert_eq!(*contract.get_admins_whitelist(), vec![accounts(0)]);
}

// A token becomes usable once its metadata is read; a failed read changes nothing.
#[test]
fn token_added_after_metadata() {
    let mut contract = BountiesContract::new(vec![accounts(0)], None, None, None, None, None).unwrap();
    contract.set_status(ContractStatus::Live).unwrap();
    assert!(!contract.after_get_ft_metadata(false, "token".to_string(), None));
    assert!(contract.get_tokens().is_empty());
    assert!(contract.after_get_ft_metadata(true, "token".to_string(), Some(5)));
    assert_eq!(*contract.get_tokens(), vec![("token".to_string(), TokenDetails { enabled: true, min_amount_for_kyc: Some(5) })]);
    assert_eq!(contract.get_total_fees(&"token".to_string()).unwrap(), FeeStats::new());
    assert!(contract.assert_that_token_is_allowed(&"token".to_string()).is_ok());
}

// Bonds that were not returned can be collected by the platform fee recipient only.
#[test]
fn non_refunded_bonds_go_to_the_fee_recipient() {
    let mut contract = BountiesContract::new(vec![accounts(0)], None, None, None, None, Some(accounts(4))).unwrap();
    contract.set_status(ContractStatus::Live).unwrap();
    contract.unlocked_amount = 70;
    let other = CallContext { predecessor: accounts(3), block_timestamp: 0, attached_deposit: 1 };
    assert!(contract.withdraw_non_refunded_bonds(&other).is_err());
    let recipient = CallContext { predecessor: accounts(4), block_timestamp: 0, attached_deposit: 1 };
    let effects = contract.withdraw_non_refunded_bonds(&recipient).unwrap();
    assert_eq!(effects, vec![Effect::Transfer { receiver_id: accounts(4), amount: 70 }]);
    assert_eq!(contract.unlocked_amount, 0);
}

// Bounties are listed from an id on, at most `limit` of them, and never past the last.
#[test]
fn bounties_are_paged() {
    let mut contract = BountiesContract::new(vec![accounts(0)], None, None, None, None, None).unwrap();
    let config = Config::default();
    for i in 0..3u64 {
        contract.bounties.push(bounty_create(None).to_bounty(&accounts(1), Some("token".to_string()), 1_000 + i as u128, &config, i));
    }
    contract.last_bounty_id = 3;
    let all = contract.get_bounties(None, None);
    assert_eq!(all.iter().map(|(id, _)| *id).collect::<Vec<u64>>(), vec![0, 1, 2]);
    let page = contract.get_bounties(Some(1), Some(1));
    assert_eq!(page.len(), 1);
    assert_eq!(page[0].0, 1);
    assert_eq!(page[0].1.created_at, 1);
    let tail = contract.get_bounties(Some(2), Some(10));
    assert_eq!(tail.iter().map(|(id, _)| *id).collect::<Vec<u64>>(), vec![2]);
    assert!(contract.get_bounties(Some(5), None).is_empty());
    let picked = contract.get_bounties_by_ids(&vec![2, 7, 0]);
    assert_eq!(picked.iter().map(|(id, _)| *id).collect::<Vec<u64>>(), vec![2, 0]);
}

// What can be spent is the balance less the storage and the bonds held.
#[test]
fn available_amount_excludes_storage_and_bonds() {
    let mut contract = BountiesContract::new(vec![accounts(0)], None, None, None, None, None).unwrap();
    contract.locked_amount = 30;
    assert_eq!(contract.get_available_amount(100, 20), 50);
    assert_eq!(contract.get_available_amount(50, 20), 0);
}

// Subtask shares are in thousandths of a percent and must add up to the whole; a
// bounty is checked before its runtime state exists.
#[test]
fn subtask_shares_must_add_up() {
    let bounty = |p1: u32, p2: u32| Bounty {
        token: Some("tok".to_string()),
        amount: 99,
        platform_fee: 11,
        dao_fee: 0,
        metadata: BountyMetadata {
            title: "t".to_string(),
            description: "d".to_string(),
            category: "Other".to_string(),
            attachments: None,
            experience: None,
            tags: None,
            acceptance_criteria: None,
            contact_details: None,
        },
        deadline: Deadline::MaxDeadline { max_deadline: 10 },
        claimer_approval: ClaimerApproval::WithoutApproval,
        reviewers: None,
        owner: accounts(1),
        status: BountyStatus::New,
        created_at: 0,
        kyc_config: KycConfig::KycNotRequired,
        postpaid: None,
        multitasking: Some(Multitasking::DifferentTasks {
            subtasks: vec![
                Subtask { subtask_description: "s1".to_string(), subtask_percent: p1 },
                Subtask { subtask_description: "s2".to_string(), subtask_percent: p2 },
            ],
            runtime_env: None,
        }),
    };
    assert_eq!(bounty(20_000, 80_000).assert_valid(0), Ok(()));
    assert_eq!(bounty(20, 80).assert_valid(0), Err(BountyError::IncorrectSubtasksSum));
}

// Without a configuration a new contract starts with the initial settings.
#[test]
fn new_contract_has_initial_config() {
    let contract = BountiesContract::new(vec![accounts(0)], None, None, None, None, None).unwrap();
    let config = contract.get_config();
    assert_eq!(*config, Config::default());
    assert_eq!(config.categories, vec!["Marketing", "Development", "Design", "Other"]);
    assert_eq!(config.tags.len(), 18);
    assert_eq!(config.tags[0], "API");
    assert_eq!(config.tags[17], "web3");
    assert!(config.currencies.is_empty());
}

// A penalty may exceed its fee: it is then taken from the rest of what goes back.
#[test]
fn penalty_above_fee_is_kept() {
    let mut config = Config::default();
    config.platform_fee_percentage = 500;
    config.penalty_platform_fee_percentage = 600;
    let mut b = slot_bounty(1_000, 100, 4, 0, 0, BountyStatus::New);
    b.multitasking = None;
    assert_eq!(internal_get_bounty_amount_to_return(&b, &config), Some((980, 100, 120, 0, 0)));
    // Where the penalty exceeds everything, nothing can be returned.
    config.penalty_platform_fee_percentage = 60_000;
    assert_eq!(internal_get_bounty_amount_to_return(&b, &config), None);
}

// A reputation or dispute contract that was not set at the start cannot be set later,
// and an unknown token cannot be changed.
#[test]
fn contracts_not_used_stay_unused() {
    let mut contract = BountiesContract::new(vec![accounts(0)], None, None, None, None, None).unwrap();
    contract.set_status(ContractStatus::Live).unwrap();
    let admin = CallContext { predecessor: accounts(0), block_timestamp: 0, attached_deposit: 1 };
    assert_eq!(contract.update_reputation_contract(&admin, "rep".to_string()), Err(BountyError::ReputationContractNotUsed));
    assert_eq!(contract.update_dispute_contract(&admin, "disp".to_string()), Err(BountyError::DisputeContractNotUsed));
    assert_eq!(contract.reputation_contract, None);
    let details = TokenDetails { enabled: false, min_amount_for_kyc: None };
    assert_eq!(contract.update_token(&admin, "token".to_string(), details), Err(BountyError::TokenNotFound));
    let other = CallContext { predecessor: accounts(3), block_timestamp: 0, attached_deposit: 1 };
    assert_eq!(contract.update_reputation_contract(&other, "rep".to_string()), Err(BountyError::NotAdmin));
}
