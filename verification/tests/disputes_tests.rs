use heroes::accounts::AccountId;
use heroes::bounties::effects::CallContext;
use heroes::bounties::types::ContractStatus;
use heroes::disputes::contract::{DisputeError, DisputesContract};
use heroes::disputes::flow::{DisputeCallback, DisputeEffect};
use heroes::disputes::types::{
    chunk_of_description, proposal_description, Config, Dispute, DisputeCreate, DisputeIndex, DisputeStatus,
    Proposal, Reason, Side,
};

const ONE_NEAR: u128 = 1_000_000_000_000_000_000_000_000;

fn accounts(i: usize) -> AccountId {
    ["alice", "bob", "charlie", "danny", "eugene", "fargo"][i].to_string()
}

fn get_bounties_contract() -> AccountId {
    "bounties".to_string()
}

fn get_dispute_dao() -> AccountId {
    "dao".to_string()
}

fn ctx(predecessor: &AccountId, block_timestamp: u64) -> CallContext {
    CallContext { predecessor: predecessor.clone(), block_timestamp, attached_deposit: 1 }
}

fn new_contract() -> DisputesContract {
    let mut contract = DisputesContract::new(get_bounties_contract(), get_dispute_dao(), vec![accounts(0)], None).unwrap();
    contract.set_status(ContractStatus::Live).unwrap();
    contract
}

fn create_dispute(
    contract: &mut DisputesContract,
    now: u64,
    bounty_id: u64,
    description: String,
    receiver_id: AccountId,
    claim_number: Option<u8>,
    project_owner_delegate: AccountId,
) -> Result<DisputeIndex, DisputeError> {
    let dispute_create = DisputeCreate { bounty_id, description, receiver_id, project_owner_delegate, claim_number };
    contract.create_dispute(&ctx(&get_bounties_contract(), now), dispute_create)
}

fn change_status(contract: &mut DisputesContract, dispute_id: DisputeIndex, new_status: DisputeStatus) {
    contract.disputes[dispute_id as usize].status = new_status;
}

fn escalation(contract: &mut DisputesContract, dispute_id: DisputeIndex) {
    let dispute = &mut contract.disputes[dispute_id as usize];
    dispute.status = DisputeStatus::DecisionPending;
    dispute.proposal_id = Some(1);
    dispute.proposal_timestamp = Some(0);
}

fn sample_dispute(contract: &mut DisputesContract, now: u64) -> DisputeIndex {
    create_dispute(contract, now, 1, "Test description".to_string(), accounts(1), None, accounts(2)).unwrap()
}

#[test]
fn test_create_dispute() {
    let mut contract = new_contract();
    let dispute_id = sample_dispute(&mut contract, 0);

    let new_dispute = Dispute {
        start_time: 0,
        description: "Test description".to_string(),
        bounty_id: 1,
        receiver_id: accounts(1),
        claim_number: None,
        project_owner_delegate: accounts(2),
        status: DisputeStatus::New,
        proposal_id: None,
        proposal_timestamp: None,
    };

    assert_eq!(*contract.get_dispute(dispute_id).unwrap(), new_dispute);
    assert_eq!(contract.get_disputes(Some(0), Some(100)), vec![(dispute_id, &new_dispute)]);
    assert_eq!(contract.get_bounty_disputes(1), vec![(dispute_id, &new_dispute)]);
    assert_eq!(contract.get_disputes_by_ids(&vec![dispute_id]), vec![(dispute_id, &new_dispute)]);
    assert_eq!(contract.get_last_dispute_id(), dispute_id + 1);
    assert_eq!(*contract.get_bounties_contract_account_id(), get_bounties_contract());
    assert_eq!(*contract.get_dispute_dao_account_id(), get_dispute_dao());
}

#[test]
fn test_create_dispute_by_other_user() {
    let mut contract = new_contract();
    let dispute_create = DisputeCreate {
        bounty_id: 1,
        description: "Test description".to_string(),
        receiver_id: accounts(1),
        project_owner_delegate: accounts(2),
        claim_number: None,
    };
    let r = contract.create_dispute(&ctx(&accounts(1), 0), dispute_create);
    assert_eq!(r, Err(DisputeError::NotBountiesContract));
    assert_eq!(r.unwrap_err().message(), "This method can only invoke a bounty contract");
    assert_eq!(contract.get_last_dispute_id(), 0);
}

#[test]
fn test_create_dispute_with_empty_description() {
    let mut contract = new_contract();
    let r = create_dispute(&mut contract, 0, 1, "".to_string(), accounts(1), None, accounts(2));
    assert_eq!(r, Err(DisputeError::EmptyDescription));
}

#[test]
fn lib_test_failed_to_init_contract() {
    let r = DisputesContract::new(get_bounties_contract(), get_dispute_dao(), vec![], None);
    assert!(matches!(r, Err(DisputeError::NoAdmins)));
}

#[test]
fn test_add_to_admin_whitelist() {
    let mut contract = new_contract();
    let c = ctx(&accounts(0), 0);
    let account_ids: Vec<AccountId> = vec![accounts(1), accounts(2)];
    contract.add_to_admin_whitelist(&c, None, Some(account_ids.clone())).unwrap();
    assert_eq!(contract.get_admin_whitelist(), vec![accounts(0), accounts(1), accounts(2)]);

    contract.add_to_admin_whitelist(&c, Some(accounts(3)), None).unwrap();
    assert_eq!(contract.get_admin_whitelist(), vec![accounts(0), accounts(1), accounts(2), accounts(3)]);
}

#[test]
fn test_remove_from_admin_whitelist() {
    let mut contract = new_contract();
    let c = ctx(&accounts(0), 0);
    contract.add_to_admin_whitelist(&c, None, Some(vec![accounts(1), accounts(2), accounts(3)])).unwrap();

    contract.remove_from_admin_whitelist(&c, Some(accounts(3)), None).unwrap();
    assert_eq!(contract.get_admin_whitelist(), vec![accounts(0), accounts(1), accounts(2)]);
    contract.remove_from_admin_whitelist(&c, None, Some(vec![accounts(1), accounts(2)])).unwrap();
    assert_eq!(contract.get_admin_whitelist(), vec![accounts(0)]);
}

#[test]
fn lib_test_failed_to_whitelist_admin() {
    let mut contract = new_contract();
    let r = contract.add_to_admin_whitelist(&ctx(&accounts(0), 0), None, None);
    assert_eq!(r, Err(DisputeError::ExpectedAccounts));
}

#[test]
fn test_add_to_admin_whitelist_by_other_user() {
    let mut contract = new_contract();
    let r = contract.add_to_admin_whitelist(&ctx(&accounts(1), 0), Some(accounts(1)), None);
    assert_eq!(r, Err(DisputeError::NotAdmin));
}

#[test]
fn test_remove_from_admin_whitelist_all_members() {
    let mut contract = new_contract();
    let r = contract.remove_from_admin_whitelist(&ctx(&accounts(0), 0), Some(accounts(0)), None);
    assert_eq!(r, Err(DisputeError::RemovingAllAdmins));
}

#[test]
fn lib_test_change_config() {
    let mut contract = new_contract();
    assert_eq!(contract.get_config(), Config::default());

    let config = Config {
        argument_period: 1_000_000_000 * 60 * 60 * 24 * 12,
        decision_period: 1_000_000_000 * 60 * 60 * 24 * 10,
        add_proposal_bond: ONE_NEAR * 2,
    };
    contract.change_config(&ctx(&accounts(0), 0), config).unwrap();
    assert_eq!(contract.get_config(), config);
}

#[test]
fn test_provide_arguments() {
    let mut contract = new_contract();
    let dispute_id = sample_dispute(&mut contract, 0);

    contract.provide_arguments(&ctx(&accounts(2), 1), dispute_id, "The first argument".to_string()).unwrap();
    contract.provide_arguments(&ctx(&accounts(1), 2), dispute_id, "The second argument".to_string()).unwrap();

    assert_eq!(
        *contract.get_arguments(dispute_id).unwrap(),
        vec![
            Reason { side: Side::ProjectOwner, argument_timestamp: 1, description: "The first argument".to_string() },
            Reason { side: Side::Claimant, argument_timestamp: 2, description: "The second argument".to_string() },
        ],
    );
}

#[test]
fn test_provide_arguments_by_other_user() {
    let mut contract = new_contract();
    let dispute_id = sample_dispute(&mut contract, 0);
    let r = contract.provide_arguments(&ctx(&accounts(3), 1), dispute_id, "The test argument".to_string());
    assert_eq!(r, Err(DisputeError::NoAccessRights));
    assert_eq!(r.unwrap_err().message(), "You do not have access rights to perform this action");
}

#[test]
fn test_provide_arguments_with_incorrect_status() {
    let mut contract = new_contract();
    let dispute_id = sample_dispute(&mut contract, 0);
    change_status(&mut contract, dispute_id, DisputeStatus::DecisionPending);
    let r = contract.provide_arguments(&ctx(&accounts(2), 0), dispute_id, "The test argument".to_string());
    assert_eq!(r, Err(DisputeError::NotNew));
}

#[test]
fn test_provide_arguments_with_expired_period_of_argumentation() {
    let mut contract = new_contract();
    let mut config = Config::default();
    config.argument_period = 10;
    contract.change_config(&ctx(&accounts(0), 0), config).unwrap();

    let dispute_id = sample_dispute(&mut contract, 0);
    let r = contract.provide_arguments(&ctx(&accounts(2), 20), dispute_id, "The test argument".to_string());
    assert_eq!(r, Err(DisputeError::ArgumentPeriodExpired));
}

#[test]
fn test_provide_arguments_with_dispute_id() {
    let mut contract = new_contract();
    sample_dispute(&mut contract, 0);
    let r = contract.provide_arguments(&ctx(&accounts(2), 0), 1, "The test argument".to_string());
    assert_eq!(r, Err(DisputeError::DisputeNotFound));
}

#[test]
fn test_cancel_dispute_with_incorrect_status() {
    let mut contract = new_contract();
    let dispute_id = sample_dispute(&mut contract, 0);
    change_status(&mut contract, dispute_id, DisputeStatus::DecisionPending);
    let r = contract.cancel_dispute(&ctx(&accounts(2), 0), dispute_id);
    assert_eq!(r, Err(DisputeError::NotNew));
}

#[test]
fn test_cancel_dispute_by_other_user() {
    let mut contract = new_contract();
    let dispute_id = sample_dispute(&mut contract, 0);
    let r = contract.cancel_dispute(&ctx(&accounts(3), 0), dispute_id);
    assert_eq!(r, Err(DisputeError::NoAccessRights));
}

#[test]
fn test_escalation_with_incorrect_status() {
    let mut contract = new_contract();
    let mut config = Config::default();
    config.argument_period = 10;
    contract.change_config(&ctx(&accounts(0), 0), config).unwrap();
    let dispute_id = sample_dispute(&mut contract, 0);
    change_status(&mut contract, dispute_id, DisputeStatus::DecisionPending);
    let r = contract.escalation(&ctx(&accounts(3), 20), dispute_id);
    assert_eq!(r, Err(DisputeError::NotNew));
}

#[test]
fn test_escalation_with_not_expired_period_of_argumentation() {
    let mut contract = new_contract();
    let dispute_id = sample_dispute(&mut contract, 0);
    let r = contract.escalation(&ctx(&accounts(3), 0), dispute_id);
    assert_eq!(r, Err(DisputeError::ArgumentPeriodNotExpired));
}

#[test]
fn test_result_of_dispute_by_other_user() {
    let mut contract = new_contract();
    let dispute_id = sample_dispute(&mut contract, 0);
    escalation(&mut contract, dispute_id);
    let r = contract.result_of_dispute(&ctx(&accounts(3), 0), dispute_id, true);
    assert_eq!(r, Err(DisputeError::NotDisputeDao));
}

#[test]
fn test_result_of_dispute_with_incorrect_status() {
    let mut contract = new_contract();
    let dispute_id = sample_dispute(&mut contract, 0);
    let r = contract.result_of_dispute(&ctx(&get_dispute_dao(), 0), dispute_id, true);
    assert_eq!(r, Err(DisputeError::NotDecisionPending));
}

#[test]
fn test_result_of_dispute_with_expired_period_of_decision() {
    let mut contract = new_contract();
    let mut config = Config::default();
    config.decision_period = 10;
    contract.change_config(&ctx(&accounts(0), 0), config).unwrap();
    let dispute_id = sample_dispute(&mut contract, 0);
    escalation(&mut contract, dispute_id);
    let r = contract.result_of_dispute(&ctx(&get_dispute_dao(), 20), dispute_id, true);
    assert_eq!(r, Err(DisputeError::DecisionPeriodExpired));
}

#[test]
fn test_finalize_dispute_with_incorrect_status() {
    let mut contract = new_contract();
    let dispute_id = sample_dispute(&mut contract, 0);
    let r = contract.finalize_dispute(dispute_id);
    assert_eq!(r, Err(DisputeError::NotDecisionPending));
}

// The whole life of a dispute: arguments, escalation, the DAO's proposal, its answer,
// and the report of the outcome.
#[test]
fn dispute_escalated_and_decided() {
    let mut contract = new_contract();
    let mut config = Config::default();
    config.argument_period = 10;
    config.decision_period = 100;
    contract.change_config(&ctx(&accounts(0), 0), config).unwrap();
    let id = sample_dispute(&mut contract, 3_000_000_000);
    assert_eq!(
        contract.provide_arguments(&ctx(&accounts(2), 5_000_000_000), id, "arg".to_string()),
        Err(DisputeError::ArgumentPeriodExpired)
    );
    let effect = contract.escalation(&ctx(&accounts(5), 3_000_000_011), id).unwrap();
    let expected_text = "\n\n3 Claimer (bob):\nTest description".to_string();
    assert_eq!(
        effect,
        DisputeEffect::AddProposal {
            dispute_dao: get_dispute_dao(),
            description: expected_text,
            dispute_id: id,
            bond: ONE_NEAR,
            then: DisputeCallback::OnAddedProposal { id },
        }
    );
    assert_eq!(contract.on_added_proposal_callback(3_000_000_020, id, Some(7)), Ok(true));
    let d = contract.get_dispute(id).unwrap();
    assert_eq!(d.status, DisputeStatus::DecisionPending);
    assert_eq!(d.proposal_id, Some(7));
    assert_eq!(d.proposal_timestamp, Some(3_000_000_020));

    let contract_id = "disputes".to_string();
    let pending = Proposal { id: 7, proposer: contract_id.clone(), description: String::new(), status: "InProgress".to_string() };
    assert_eq!(contract.after_get_proposal(&contract_id, 3_000_000_050, id, Some(pending)), Err(DisputeError::ProposalNotProcessed));
    let rejected = Proposal { id: 7, proposer: contract_id.clone(), description: String::new(), status: "Rejected".to_string() };
    let effect = contract.after_get_proposal(&contract_id, 3_000_000_050, id, Some(rejected)).unwrap();
    assert_eq!(
        effect,
        DisputeEffect::DisputeResult {
            bounties_contract: get_bounties_contract(),
            bounty_id: 1,
            receiver_id: accounts(1),
            claim_number: None,
            success: false,
            then: DisputeCallback::AfterClaimApproval { id, success: false, canceled: false },
        }
    );
    let late = Proposal { id: 7, proposer: contract_id.clone(), description: String::new(), status: "InProgress".to_string() };
    let effect = contract.after_get_proposal(&contract_id, 3_000_000_200, id, Some(late)).unwrap();
    assert!(matches!(effect, DisputeEffect::DisputeResult { success: true, .. }));

    assert_eq!(contract.after_claim_approval(true, id, false, false), Ok(true));
    assert_eq!(contract.get_dispute(id).unwrap().status, DisputeStatus::InFavorOfProjectOwner);
    // A dispute that reached its outcome keeps it.
    assert_eq!(contract.after_claim_approval(true, id, true, false), Err(DisputeError::AlreadyCompleted));
    assert_eq!(contract.get_dispute(id).unwrap().status, DisputeStatus::InFavorOfProjectOwner);
}

#[test]
fn dispute_canceled_by_owner_goes_to_claimant() {
    let mut contract = new_contract();
    let id = sample_dispute(&mut contract, 0);
    let effect = contract.cancel_dispute(&ctx(&accounts(2), 0), id).unwrap();
    assert!(matches!(effect, DisputeEffect::DisputeResult { success: true, then: DisputeCallback::AfterClaimApproval { canceled: true, .. }, .. }));
    assert_eq!(contract.after_claim_approval(false, id, true, true), Ok(false));
    assert_eq!(contract.get_dispute(id).unwrap().status, DisputeStatus::New);
    assert_eq!(contract.after_claim_approval(true, id, true, true), Ok(true));
    assert_eq!(contract.get_dispute(id).unwrap().status, DisputeStatus::CanceledByProjectOwner);
}

#[test]
fn dispute_proposal_text() {
    let mut contract = new_contract();
    let id = sample_dispute(&mut contract, 12_000_000_000);
    contract.provide_arguments(&ctx(&accounts(2), 13_500_000_000), id, "Owner says".to_string()).unwrap();
    let d = contract.get_dispute(id).unwrap();
    let reason = &contract.get_arguments(id).unwrap()[0];
    assert_eq!(chunk_of_description(d, reason), "\n\n13 Project owner (charlie):\nOwner says".to_string());
    assert_eq!(
        proposal_description(d, contract.get_arguments(id).unwrap()),
        "\n\n12 Claimer (bob):\nTest description\n\n13 Project owner (charlie):\nOwner says".to_string()
    );
    assert_eq!(contract.get_arguments(5), Err(DisputeError::NoArguments));
}

#[test]
fn dispute_lists_by_bounty() {
    let mut contract = new_contract();
    let a = create_dispute(&mut contract, 0, 4, "x".to_string(), accounts(1), Some(2), accounts(2)).unwrap();
    let b = create_dispute(&mut contract, 0, 5, "y".to_string(), accounts(1), None, accounts(2)).unwrap();
    let c = create_dispute(&mut contract, 0, 4, "z".to_string(), accounts(3), None, accounts(2)).unwrap();
    let ids: Vec<DisputeIndex> = contract.get_bounty_disputes(4).iter().map(|p| p.0).collect();
    assert_eq!(ids, vec![a, c]);
    assert_eq!(contract.get_bounty_disputes(5)[0].0, b);
    assert!(contract.get_bounty_disputes(6).is_empty());
    let known: Vec<DisputeIndex> = contract.get_disputes_by_ids(&vec![c, 9, a]).iter().map(|p| p.0).collect();
    assert_eq!(known, vec![c, a]);
    assert_eq!(contract.get_disputes(Some(1), None).len(), 2);
}
