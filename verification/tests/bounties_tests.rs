use heroes::accounts::AccountId;
use heroes::bounties::bounty::Bounty;
use heroes::bounties::claim::{BountyAction, BountyClaim};
use heroes::bounties::config::{Config, ConfigCreate};
use heroes::bounties::contract::BountiesContract;
use heroes::bounties::effects::CallContext;
use heroes::bounties::errors::BountyError;
use heroes::bounties::fees::FeeStats;
use heroes::bounties::types::{
    BountyIndex, BountyMetadata, BountyStatus, ClaimStatus, ClaimerApproval, ContractStatus, Deadline,
    KycConfig, Reviewers, TokenDetails, ValidatorsDao, ValidatorsDaoParams, DEFAULT_BOUNTY_CLAIM_BOND,
};

const TOKEN_DECIMALS: u32 = 18;
const MAX_DEADLINE: u64 = 1_000_000_000 * 60 * 60 * 24 * 7;

fn accounts(i: usize) -> AccountId {
    ["alice", "bob", "charlie", "danny", "eugene", "fargo"][i].to_string()
}

fn get_token_id() -> AccountId {
    "token_id".to_string()
}

fn get_disputes_contract() -> AccountId {
    "disputes".to_string()
}

fn d(value: u128, decimals: u32) -> u128 {
    value * 10u128.pow(decimals)
}

fn ctx(predecessor: &AccountId, attached_deposit: u128, block_timestamp: u64) -> CallContext {
    CallContext { predecessor: predecessor.clone(), block_timestamp, attached_deposit }
}

fn new_contract(admins: Vec<AccountId>, dispute_contract: Option<AccountId>) -> BountiesContract {
    let mut contract = BountiesContract::new(admins, None, None, dispute_contract, None, None).unwrap();
    contract.set_status(ContractStatus::Live).unwrap();
    contract
}

fn add_token(contract: &mut BountiesContract) {
    contract.total_fees.insert(get_token_id(), FeeStats::new());
    contract.tokens.push((get_token_id(), TokenDetails { enabled: true, min_amount_for_kyc: None }));
}

fn add_bounty(contract: &mut BountiesContract, owner: &AccountId, validators_dao: Option<ValidatorsDao>) -> BountyIndex {
    let bounty_index: BountyIndex = 0;
    let bounty = Bounty {
        token: Some(get_token_id()),
        amount: d(2_000, TOKEN_DECIMALS),
        platform_fee: d(200, TOKEN_DECIMALS),
        dao_fee: if validators_dao.is_some() { d(200, TOKEN_DECIMALS) } else { 0 },
        metadata: BountyMetadata {
            title: "test".to_string(),
            description: "test".to_string(),
            category: "Other".to_string(),
            attachments: None,
            experience: None,
            tags: None,
            acceptance_criteria: None,
            contact_details: None,
        },
        deadline: Deadline::MaxDeadline { max_deadline: MAX_DEADLINE },
        claimer_approval: ClaimerApproval::WithoutApproval,
        reviewers: validators_dao.map(|validators_dao| Reviewers::ValidatorsDao { validators_dao }),
        owner: owner.clone(),
        status: BountyStatus::New,
        created_at: 0,
        kyc_config: KycConfig::KycNotRequired,
        postpaid: None,
        multitasking: None,
    };
    contract.bounties.push(bounty.clone());
    contract.bounty_claimer_accounts.push(vec![]);
    contract.account_bounties.insert(owner.clone(), vec![bounty_index]);
    contract.last_bounty_id = bounty_index + 1;
    add_token(contract);
    contract.internal_total_fees_receiving_funds(&bounty, bounty.platform_fee, bounty.dao_fee);
    bounty_index
}

fn bounty_claim(contract: &mut BountiesContract, id: BountyIndex, claimer: &AccountId) {
    let bond = Config::default().bounty_claim_bond;
    let deadline = 1_000_000_000 * 60 * 60 * 24 * 2;
    let description = "Test description".to_string();
    contract.bounty_claim(&ctx(claimer, bond, 0), id, deadline, description.clone(), None).unwrap();

    let bounty = contract.bounties[id as usize].clone();
    if bounty.is_validators_dao_used() && bounty.claimer_approval.is_approval_required(claimer) {
        let mut effects = vec![];
        contract.internal_create_claim(id, claimer, deadline, description, Some(1), None, 0, &mut effects).unwrap();
    }
}

fn bounty_done(contract: &mut BountiesContract, id: BountyIndex, claimer: &AccountId) -> Result<(), BountyError> {
    contract.bounty_done(&ctx(claimer, 1, 0), id, "test description".to_string()).map(|_| ())
}

fn bounty_give_up(contract: &mut BountiesContract, id: BountyIndex, claimer: &AccountId, now: u64) -> Result<(), BountyError> {
    contract.bounty_give_up(&ctx(claimer, 1, now), id).map(|_| ())
}

fn bounty_action(contract: &mut BountiesContract, id: BountyIndex, project_owner: &AccountId, action: BountyAction) -> Result<(), BountyError> {
    contract.bounty_action(&ctx(project_owner, 1, 0), id, action).map(|_| ())
}

fn first_claim(contract: &BountiesContract, claimer: &AccountId) -> BountyClaim {
    contract.bounty_claimers.get(claimer.as_str()).unwrap()[0].clone()
}

#[test]
fn test_failed_to_init_contract() {
    let r = BountiesContract::new(vec![], None, None, None, None, None);
    assert!(matches!(r, Err(BountyError::NoAdmins)));
}

#[test]
fn test_contract_status_is_not_live() {
    let mut contract = new_contract(vec![accounts(0)], None);
    let id = add_bounty(&mut contract, &accounts(1), None);
    contract.set_status(ContractStatus::ReadOnly).unwrap();
    let bond = Config::default().bounty_claim_bond;
    let r = contract.bounty_claim(&ctx(&accounts(2), bond, 0), id, 1_000_000_000 * 60 * 60 * 24 * 2, "Test description".to_string(), None);
    assert_eq!(r, Err(BountyError::NotLive));
}

#[test]
fn test_add_to_admins_whitelist() {
    let mut contract = new_contract(vec![accounts(0)], None);
    let c = ctx(&accounts(0), 1, 0);
    let account_ids: Vec<AccountId> = vec![accounts(1), accounts(2)];
    contract.add_to_admins_whitelist(&c, None, Some(account_ids.clone())).unwrap();
    assert_eq!(*contract.get_admins_whitelist(), vec![accounts(0), accounts(1), accounts(2)]);

    contract.add_to_admins_whitelist(&c, Some(accounts(3)), None).unwrap();
    assert_eq!(*contract.get_admins_whitelist(), vec![accounts(0), accounts(1), accounts(2), accounts(3)]);
}

#[test]
fn test_remove_from_admins_whitelist() {
    let mut contract = new_contract(vec![accounts(0)], None);
    let c = ctx(&accounts(0), 1, 0);
    contract.add_to_admins_whitelist(&c, None, Some(vec![accounts(1), accounts(2), accounts(3)])).unwrap();

    contract.remove_from_admins_whitelist(&c, Some(accounts(3)), None).unwrap();
    assert_eq!(*contract.get_admins_whitelist(), vec![accounts(0), accounts(1), accounts(2)]);
    contract.remove_from_admins_whitelist(&c, None, Some(vec![accounts(1), accounts(2)])).unwrap();
    assert_eq!(*contract.get_admins_whitelist(), vec![accounts(0)]);
}

#[test]
fn test_failed_to_whitelist_admin() {
    let mut contract = new_contract(vec![accounts(0)], None);
    let r = contract.add_to_admins_whitelist(&ctx(&accounts(0), 1, 0), None, None);
    assert_eq!(r, Err(BountyError::ExpectedAccounts));
}

#[test]
fn test_add_to_admins_whitelist_without_deposit() {
    let mut contract = new_contract(vec![accounts(0)], None);
    let r = contract.add_to_admins_whitelist(&ctx(&accounts(0), 0, 0), Some(accounts(1)), None);
    assert_eq!(r, Err(BountyError::OneYoctoRequired));
}

#[test]
fn test_add_to_admins_whitelist_by_other_user() {
    let mut contract = new_contract(vec![accounts(0)], None);
    let r = contract.add_to_admins_whitelist(&ctx(&accounts(1), 1, 0), Some(accounts(1)), None);
    assert_eq!(r, Err(BountyError::NotAdmin));
}

#[test]
fn test_remove_from_admins_whitelist_all_members() {
    let mut contract = new_contract(vec![accounts(0)], None);
    let r = contract.remove_from_admins_whitelist(&ctx(&accounts(0), 1, 0), Some(accounts(0)), None);
    assert_eq!(r, Err(BountyError::RemovingAllAdmins));
    assert_eq!(*contract.get_admins_whitelist(), vec![accounts(0)]);
}

#[test]
fn test_add_token() {
    let mut contract = new_contract(vec![accounts(0)], None);
    let effects = contract.add_token_id(&ctx(&accounts(0), 1, 0), get_token_id(), None).unwrap();
    assert_eq!(effects.len(), 1);
    // The token is added once its metadata is read.
    assert!(contract.get_tokens().is_empty());
}

#[test]
fn test_token_already_exists() {
    let mut contract = new_contract(vec![accounts(0)], None);
    add_token(&mut contract);
    let r = contract.add_token_id(&ctx(&accounts(0), 1, 0), get_token_id(), None);
    assert_eq!(r, Err(BountyError::TokenExists));
}

#[test]
fn test_get_tokens() {
    let mut contract = new_contract(vec![accounts(0)], None);
    add_token(&mut contract);
    assert_eq!(
        *contract.get_tokens(),
        vec![(get_token_id(), TokenDetails { enabled: true, min_amount_for_kyc: None })]
    );
}

#[test]
fn test_change_config() {
    let mut contract = new_contract(vec![accounts(0)], None);
    let config_create = ConfigCreate {
        bounty_claim_bond: 2_000_000_000_000_000_000_000_000,
        bounty_forgiveness_period: 1_000_000_000 * 60 * 60 * 24 * 7,
        period_for_opening_dispute: 1_000_000_000 * 60 * 60 * 24 * 20,
        platform_fee_percentage: 7_000,
        validators_dao_fee_percentage: 5_000,
        penalty_platform_fee_percentage: 500,
        penalty_validators_dao_fee_percentage: 500,
        use_owners_whitelist: false,
    };
    contract.change_config(&ctx(&accounts(0), 1, 0), config_create.clone()).unwrap();
    let config = contract.get_config();
    assert_eq!(config_create, ConfigCreate {
        bounty_claim_bond: config.bounty_claim_bond,
        bounty_forgiveness_period: config.bounty_forgiveness_period,
        period_for_opening_dispute: config.period_for_opening_dispute,
        platform_fee_percentage: config.platform_fee_percentage,
        validators_dao_fee_percentage: config.validators_dao_fee_percentage,
        penalty_platform_fee_percentage: config.penalty_platform_fee_percentage,
        penalty_validators_dao_fee_percentage: config.penalty_validators_dao_fee_percentage,
        use_owners_whitelist: config.use_owners_whitelist,
    });
}

#[test]
fn test_bounty_claim() {
    let mut contract = new_contract(vec![get_token_id()], None);
    let id = add_bounty(&mut contract, &accounts(1), None);

    let claimer = accounts(2);
    bounty_claim(&mut contract, id, &claimer);
    assert_eq!(
        first_claim(&contract, &claimer),
        BountyClaim {
            bounty_id: id,
            created_at: 0,
            start_time: Some(0),
            deadline: 1_000_000_000 * 60 * 60 * 24 * 2,
            status: ClaimStatus::InProgress,
            bounty_payout_proposal_id: None,
            approve_claimer_proposal_id: None,
            rejected_timestamp: None,
            dispute_id: None,
            description: "Test description".to_string(),
            is_kyc_delayed: None,
            payment_timestamps: None,
            slot: None,
            bond: Some(DEFAULT_BOUNTY_CLAIM_BOND),
        }
    );
    assert_eq!(contract.bounty_claimer_accounts[id as usize][0], claimer);
    assert_eq!(contract.locked_amount, Config::default().bounty_claim_bond);
    assert_eq!(contract.bounties[id as usize].status, BountyStatus::Claimed);
}

#[test]
fn test_bounty_claim_without_bond() {
    let mut contract = new_contract(vec![accounts(0)], None);
    let id = add_bounty(&mut contract, &accounts(1), None);
    let r = contract.bounty_claim(&ctx(&accounts(2), 0, 0), id, 1_000_000_000 * 60 * 60 * 24 * 2, "Test description".to_string(), None);
    assert_eq!(r, Err(BountyError::WrongBond));
}

#[test]
fn test_bounty_claim_with_incorrect_status() {
    let mut contract = new_contract(vec![accounts(0)], None);
    let id = add_bounty(&mut contract, &accounts(1), None);
    bounty_claim(&mut contract, id, &accounts(2));

    let bond = Config::default().bounty_claim_bond;
    let r = contract.bounty_claim(&ctx(&accounts(3), bond, 0), id, 1_000_000_000 * 60 * 60 * 24 * 2, "Test description".to_string(), None);
    assert_eq!(r, Err(BountyError::BountyStatusForClaim));
}

#[test]
fn test_bounty_claim_with_incorrect_deadline() {
    let mut contract = new_contract(vec![accounts(0)], None);
    let id = add_bounty(&mut contract, &accounts(1), None);
    let bond = Config::default().bounty_claim_bond;
    let r = contract.bounty_claim(&ctx(&accounts(2), bond, 0), id, MAX_DEADLINE + 1, "Test description".to_string(), None);
    assert_eq!(r, Err(BountyError::WrongDeadline));
}

#[test]
fn test_claim_for_non_existent_bounty() {
    let mut contract = new_contract(vec![accounts(0)], None);
    let id = add_bounty(&mut contract, &accounts(1), None);
    let bond = Config::default().bounty_claim_bond;
    let r = contract.bounty_claim(&ctx(&accounts(2), bond, 0), id + 1, MAX_DEADLINE, "Test description".to_string(), None);
    assert_eq!(r, Err(BountyError::BountyNotFound));
}

#[test]
fn test_bounty_done() {
    let mut contract = new_contract(vec![accounts(0)], None);
    let id = add_bounty(&mut contract, &accounts(1), None);
    let claimer = accounts(2);
    bounty_claim(&mut contract, id, &claimer);

    bounty_done(&mut contract, id, &claimer).unwrap();
    assert_eq!(first_claim(&contract, &claimer).status, ClaimStatus::Completed);
    assert_eq!(contract.bounties[id as usize].status, BountyStatus::Claimed);
}

#[test]
fn test_bounty_done_with_incorrect_bounty_status() {
    let mut contract = new_contract(vec![accounts(0)], None);
    let id = add_bounty(&mut contract, &accounts(1), None);
    let claimer = accounts(2);
    assert_eq!(bounty_done(&mut contract, id, &claimer), Err(BountyError::BountyStatusForCompletion));
}

#[test]
fn test_bounty_done_with_incorrect_claim_status() {
    let mut contract = new_contract(vec![accounts(0)], None);
    let id = add_bounty(&mut contract, &accounts(1), None);
    let claimer = accounts(2);
    bounty_claim(&mut contract, id, &claimer);
    bounty_done(&mut contract, id, &claimer).unwrap();

    assert_eq!(bounty_done(&mut contract, id, &claimer), Err(BountyError::ClaimStatusForCompletion));
}

#[test]
fn test_bounty_done_on_claim_that_has_expired() {
    let mut contract = new_contract(vec![accounts(0)], None);
    let id = add_bounty(&mut contract, &accounts(1), None);
    let claimer = accounts(2);
    bounty_claim(&mut contract, id, &claimer);
    assert_eq!(contract.locked_amount, Config::default().bounty_claim_bond);
    assert_eq!(contract.unlocked_amount, 0);

    contract.bounty_done(&ctx(&claimer, 1, 1_000_000_000 * 60 * 60 * 24 * 2 + 1), id, "test description".to_string()).unwrap();
    assert_eq!(first_claim(&contract, &claimer).status, ClaimStatus::Expired);
    assert_eq!(contract.bounties[id as usize].status, BountyStatus::New);
    assert_eq!(contract.locked_amount, 0);
    assert_eq!(contract.unlocked_amount, Config::default().bounty_claim_bond);
}

#[test]
fn test_bounty_give_up() {
    let mut contract = new_contract(vec![accounts(0)], None);
    let id = add_bounty(&mut contract, &accounts(1), None);
    let claimer = accounts(2);
    bounty_claim(&mut contract, id, &claimer);
    assert_eq!(contract.locked_amount, Config::default().bounty_claim_bond);
    assert_eq!(contract.unlocked_amount, 0);

    let bounty_forgiveness_period = Config::default().bounty_forgiveness_period;
    bounty_give_up(&mut contract, id, &claimer, bounty_forgiveness_period - 1).unwrap();
    assert_eq!(first_claim(&contract, &claimer).status, ClaimStatus::Canceled);
    assert_eq!(contract.bounties[id as usize].status, BountyStatus::New);
    assert_eq!(contract.locked_amount, 0);
    assert_eq!(contract.unlocked_amount, 0);

    bounty_claim(&mut contract, id, &claimer);
    assert_eq!(contract.locked_amount, Config::default().bounty_claim_bond);
    assert_eq!(contract.unlocked_amount, 0);

    bounty_give_up(&mut contract, id, &claimer, bounty_forgiveness_period + 1).unwrap();
    assert_eq!(first_claim(&contract, &claimer).status, ClaimStatus::Canceled);
    assert_eq!(contract.bounties[id as usize].status, BountyStatus::New);
    assert_eq!(contract.locked_amount, 0);
    assert_eq!(contract.unlocked_amount, Config::default().bounty_claim_bond);
}

#[test]
fn test_bounty_give_up_with_unknown_claimer() {
    let mut contract = new_contract(vec![accounts(0)], None);
    let id = add_bounty(&mut contract, &accounts(1), None);
    let claimer = accounts(2);
    assert_eq!(bounty_give_up(&mut contract, id, &claimer, 0), Err(BountyError::NoClaimer));
}

#[test]
fn test_bounty_give_up_with_incorrect_claim_status() {
    let mut contract = new_contract(vec![accounts(0)], None);
    let id = add_bounty(&mut contract, &accounts(1), None);
    let claimer = accounts(2);
    bounty_claim(&mut contract, id, &claimer);
    bounty_done(&mut contract, id, &claimer).unwrap();
    assert_eq!(bounty_give_up(&mut contract, id, &claimer, 0), Err(BountyError::ClaimStatusForGiveUp));
}

#[test]
fn test_bounty_action() {
    let mut contract = new_contract(vec![accounts(0)], None);
    let project_owner = accounts(1);
    let id = add_bounty(&mut contract, &project_owner, None);
    let claimer = accounts(2);
    bounty_claim(&mut contract, id, &claimer);
    bounty_done(&mut contract, id, &claimer).unwrap();

    bounty_action(&mut contract, id, &project_owner, BountyAction::ClaimRejected { receiver_id: claimer.clone() }).unwrap();
    assert_eq!(first_claim(&contract, &claimer).status, ClaimStatus::NotCompleted);
    assert_eq!(contract.bounties[id as usize].status, BountyStatus::New);
    assert_eq!(contract.locked_amount, 0);

    bounty_claim(&mut contract, id, &claimer);
    bounty_done(&mut contract, id, &claimer).unwrap();

    bounty_action(&mut contract, id, &project_owner, BountyAction::ClaimApproved { receiver_id: claimer }).unwrap();
}

#[test]
fn test_bounty_action_by_other_user() {
    let mut contract = new_contract(vec![accounts(0)], None);
    let project_owner = accounts(1);
    let dao_params = ValidatorsDaoParams {
        account_id: "dao".to_string(),
        add_proposal_bond: 10u128.pow(24),
        gas_for_add_proposal: None,
        gas_for_claim_approval: None,
        gas_for_claimer_approval: None,
    };
    let id = add_bounty(&mut contract, &project_owner, Some(dao_params.to_validators_dao()));
    let claimer = accounts(2);
    bounty_claim(&mut contract, id, &claimer);
    bounty_done(&mut contract, id, &claimer).unwrap();

    let r = bounty_action(&mut contract, id, &project_owner, BountyAction::ClaimApproved { receiver_id: claimer });
    assert_eq!(r, Err(BountyError::NotDao));
}

#[test]
fn test_bounty_action_by_dao() {
    let mut contract = new_contract(vec![accounts(0)], None);
    let project_owner = accounts(1);
    let id = add_bounty(&mut contract, &project_owner, None);
    let claimer = accounts(2);
    bounty_claim(&mut contract, id, &claimer);
    bounty_done(&mut contract, id, &claimer).unwrap();

    let r = contract.bounty_action(&ctx(&"dao".to_string(), 1, 0), id, BountyAction::ClaimApproved { receiver_id: claimer });
    assert_eq!(r, Err(BountyError::NotOwner));
}

#[test]
fn test_update_validators_dao_params() {
    let mut contract = new_contract(vec![accounts(0)], None);
    let project_owner = accounts(1);
    let id = add_bounty(
        &mut contract,
        &project_owner,
        Some(ValidatorsDaoParams {
            account_id: "dao".to_string(),
            add_proposal_bond: 10u128.pow(24),
            gas_for_add_proposal: None,
            gas_for_claim_approval: None,
            gas_for_claimer_approval: None,
        }.to_validators_dao()),
    );

    let new_dao_params = ValidatorsDaoParams {
        account_id: "dao".to_string(),
        add_proposal_bond: 2 * 10u128.pow(24),
        gas_for_add_proposal: Some(50_000_000_000_000),
        gas_for_claim_approval: Some(50_000_000_000_000),
        gas_for_claimer_approval: Some(25_000_000_000_000),
    };
    contract.update_validators_dao_params(&ctx(&project_owner, 1, 0), id, new_dao_params.clone()).unwrap();
    assert_eq!(
        contract.get_bounty(id).unwrap().reviewers.clone().unwrap(),
        Reviewers::ValidatorsDao { validators_dao: new_dao_params.to_validators_dao() }
    );
}

#[test]
fn test_open_dispute_without_dispute_support() {
    let mut contract = new_contract(vec![accounts(0)], None);
    let project_owner = accounts(1);
    let id = add_bounty(&mut contract, &project_owner, None);
    let claimer = accounts(2);
    bounty_claim(&mut contract, id, &claimer);
    bounty_done(&mut contract, id, &claimer).unwrap();
    bounty_action(&mut contract, id, &project_owner, BountyAction::ClaimRejected { receiver_id: claimer.clone() }).unwrap();

    let r = contract.open_dispute(&ctx(&claimer, 1, 0), id, "Test description".to_string());
    assert_eq!(r, Err(BountyError::DisputesNotSupported));
}

#[test]
fn test_open_dispute_with_incorrect_bounty_status() {
    let mut contract = new_contract(vec![accounts(0)], Some(get_disputes_contract()));
    let id = add_bounty(&mut contract, &accounts(1), None);
    let r = contract.open_dispute(&ctx(&accounts(2), 1, 0), id, "Test description".to_string());
    assert_eq!(r, Err(BountyError::BountyStatusForDispute));
}

#[test]
fn test_open_dispute_by_other_user() {
    let mut contract = new_contract(vec![accounts(0)], Some(get_disputes_contract()));
    let project_owner = accounts(1);
    let id = add_bounty(&mut contract, &project_owner, None);
    let claimer = accounts(2);
    bounty_claim(&mut contract, id, &claimer);
    bounty_done(&mut contract, id, &claimer).unwrap();
    bounty_action(&mut contract, id, &project_owner, BountyAction::ClaimRejected { receiver_id: claimer.clone() }).unwrap();
    assert_eq!(first_claim(&contract, &claimer).status, ClaimStatus::Rejected);

    let r = contract.open_dispute(&ctx(&accounts(3), 1, 0), id, "Test description".to_string());
    assert_eq!(r, Err(BountyError::NoClaimer));
}

#[test]
fn test_open_dispute_with_incorrect_claim_status() {
    let mut contract = new_contract(vec![accounts(0)], Some(get_disputes_contract()));
    let project_owner = accounts(1);
    let id = add_bounty(&mut contract, &project_owner, None);
    let claimer = accounts(2);
    bounty_claim(&mut contract, id, &claimer);
    bounty_done(&mut contract, id, &claimer).unwrap();

    let r = contract.open_dispute(&ctx(&claimer, 1, 0), id, "Test description".to_string());
    assert_eq!(r, Err(BountyError::ClaimStatusForDispute));
}

#[test]
fn test_open_dispute_with_expired_opening_period() {
    let mut contract = new_contract(vec![accounts(0)], Some(get_disputes_contract()));
    let config = Config::default();
    contract.change_config(&ctx(&accounts(0), 1, 0), ConfigCreate {
        bounty_claim_bond: config.bounty_claim_bond,
        period_for_opening_dispute: 10,
        bounty_forgiveness_period: config.bounty_forgiveness_period,
        platform_fee_percentage: config.platform_fee_percentage,
        validators_dao_fee_percentage: config.validators_dao_fee_percentage,
        penalty_platform_fee_percentage: config.penalty_platform_fee_percentage,
        penalty_validators_dao_fee_percentage: config.penalty_validators_dao_fee_percentage,
        use_owners_whitelist: config.use_owners_whitelist,
    }).unwrap();

    let project_owner = accounts(1);
    let id = add_bounty(&mut contract, &project_owner, None);
    let claimer = accounts(2);
    bounty_claim(&mut contract, id, &claimer);
    bounty_done(&mut contract, id, &claimer).unwrap();
    bounty_action(&mut contract, id, &project_owner, BountyAction::ClaimRejected { receiver_id: claimer.clone() }).unwrap();

    let r = contract.open_dispute(&ctx(&claimer, 1, 20), id, "Test description".to_string());
    assert_eq!(r, Err(BountyError::DisputePeriodExpired));
}
