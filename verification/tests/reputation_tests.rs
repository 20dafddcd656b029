use heroes::accounts::AccountId;
use heroes::bounties::effects::CallContext;
use heroes::reputation::{ActionKind, BountyOwnerMetrics, ClaimerMetrics, ReputationContract, ReputationError};

fn accounts(i: usize) -> AccountId {
    ["alice", "bob", "charlie", "danny", "eugene", "fargo"][i].to_string()
}

fn get_bounties_contract() -> AccountId {
    "bounties".to_string()
}

fn get_admin_whitelist() -> Vec<AccountId> {
    vec!["admin".to_string()]
}

fn from(account: &AccountId) -> CallContext {
    CallContext { predecessor: account.clone(), block_timestamp: 0, attached_deposit: 0 }
}

fn new_contract() -> ReputationContract {
    ReputationContract::new(get_bounties_contract(), get_admin_whitelist()).unwrap()
}

fn claimer_metrics(c: &ReputationContract, a: &AccountId) -> ClaimerMetrics {
    c.get_statistics(a).0.unwrap()
}

fn owner_metrics(c: &ReputationContract, a: &AccountId) -> BountyOwnerMetrics {
    c.get_statistics(a).1.unwrap()
}

#[test]
fn test_stats_after_bounty_created_with_claimer_account() {
    let mut contract = new_contract();
    let r = contract.emit(&from(&get_bounties_contract()), Some(accounts(0)), Some(accounts(1)), ActionKind::BountyCreated);
    assert_eq!(r, Err(ReputationError::OwnerOnlyEvent));
    assert_eq!(r.unwrap_err().message(), "Bounty owner is required and Claimer is not required");
}

#[test]
fn test_stats_after_bounty_created_without_bounty_owner_account() {
    let mut contract = new_contract();
    let r = contract.emit(&from(&get_bounties_contract()), Some(accounts(0)), None, ActionKind::BountyCreated);
    assert_eq!(r, Err(ReputationError::OwnerOnlyEvent));
}

#[test]
fn test_stats_after_bounty_created_by_other_account() {
    let mut contract = ReputationContract::new(accounts(0), get_admin_whitelist()).unwrap();
    let r = contract.emit(&from(&get_bounties_contract()), None, Some(accounts(1)), ActionKind::BountyCreated);
    assert_eq!(r, Err(ReputationError::NotBountiesContract));
    assert_eq!(r.unwrap_err().message(), "Only a bounties contract can call this method");
}

#[test]
fn test_stats_after_bounty_created() {
    let mut contract = new_contract();
    contract.emit(&from(&get_bounties_contract()), None, Some(accounts(1)), ActionKind::BountyCreated).unwrap();

    let bounty_owner_stats = owner_metrics(&contract, &accounts(1));
    assert_eq!(contract.bounty_owners_entries.len(), 1);
    assert_eq!(
        bounty_owner_stats,
        BountyOwnerMetrics {
            number_of_bounties: 1,
            number_of_successful_bounties: 0,
            number_of_canceled_bounties: 0,
            number_of_claims: 0,
            number_of_approved_claimers: 0,
            number_of_approved_claims: 0,
            number_of_rejected_claims: 0,
            number_of_open_disputes: 0,
            number_of_disputes_won: 0,
        }
    );
    assert_eq!(contract.claimers_entries.len(), 0);
}

#[test]
fn test_stats_after_claim_created_without_claimer_account() {
    let mut contract = new_contract();
    let r = contract.emit(&from(&get_bounties_contract()), None, Some(accounts(1)), ActionKind::ClaimCreated);
    assert_eq!(r, Err(ReputationError::ClaimerAndOwnerEvent));
}

#[test]
fn test_stats_after_claim_created_without_bounty_owner_account() {
    let mut contract = new_contract();
    let r = contract.emit(&from(&get_bounties_contract()), Some(accounts(0)), None, ActionKind::ClaimCreated);
    assert_eq!(r, Err(ReputationError::ClaimerAndOwnerEvent));
    assert_eq!(r.unwrap_err().message(), "Claimer and bounty owner required");
}

#[test]
fn test_stats_after_claim_created() {
    let mut contract = new_contract();
    contract.emit(&from(&get_bounties_contract()), Some(accounts(0)), Some(accounts(1)), ActionKind::ClaimCreated).unwrap();

    assert_eq!(contract.claimers_entries.len(), 1);
    assert_eq!(
        claimer_metrics(&contract, &accounts(0)),
        ClaimerMetrics {
            number_of_claims: 1,
            number_of_accepted_claims: 0,
            number_of_successful_claims: 0,
            number_of_unsuccessful_claims: 0,
            number_of_overdue_claims: 0,
            number_of_canceled_claims: 0,
            number_of_open_disputes: 0,
            number_of_disputes_won: 0,
        }
    );
    assert_eq!(contract.bounty_owners_entries.len(), 1);
    assert_eq!(
        owner_metrics(&contract, &accounts(1)),
        BountyOwnerMetrics {
            number_of_bounties: 0,
            number_of_successful_bounties: 0,
            number_of_canceled_bounties: 0,
            number_of_claims: 1,
            number_of_approved_claimers: 0,
            number_of_approved_claims: 0,
            number_of_rejected_claims: 0,
            number_of_open_disputes: 0,
            number_of_disputes_won: 0,
        }
    );
}

#[test]
fn test_stats_after_claimer_approved() {
    let mut contract = new_contract();
    contract.emit(&from(&get_bounties_contract()), Some(accounts(0)), Some(accounts(1)), ActionKind::ClaimerApproved).unwrap();

    assert_eq!(contract.claimers_entries.len(), 1);
    assert_eq!(
        claimer_metrics(&contract, &accounts(0)),
        ClaimerMetrics {
            number_of_claims: 0,
            number_of_accepted_claims: 1,
            number_of_successful_claims: 0,
            number_of_unsuccessful_claims: 0,
            number_of_overdue_claims: 0,
            number_of_canceled_claims: 0,
            number_of_open_disputes: 0,
            number_of_disputes_won: 0,
        }
    );
    assert_eq!(contract.bounty_owners_entries.len(), 1);
    assert_eq!(
        owner_metrics(&contract, &accounts(1)),
        BountyOwnerMetrics {
            number_of_bounties: 0,
            number_of_successful_bounties: 0,
            number_of_canceled_bounties: 0,
            number_of_claims: 0,
            number_of_approved_claimers: 1,
            number_of_approved_claims: 0,
            number_of_rejected_claims: 0,
            number_of_open_disputes: 0,
            number_of_disputes_won: 0,
        }
    );
}

#[test]
fn test_stats_after_bounty_cancelled() {
    let mut contract = new_contract();
    contract.emit(&from(&get_bounties_contract()), None, Some(accounts(1)), ActionKind::BountyCancelled).unwrap();

    assert_eq!(contract.bounty_owners_entries.len(), 1);
    assert_eq!(
        owner_metrics(&contract, &accounts(1)),
        BountyOwnerMetrics {
            number_of_bounties: 0,
            number_of_successful_bounties: 0,
            number_of_canceled_bounties: 1,
            number_of_claims: 0,
            number_of_approved_claimers: 0,
            number_of_approved_claims: 0,
            number_of_rejected_claims: 0,
            number_of_open_disputes: 0,
            number_of_disputes_won: 0,
        }
    );
    assert_eq!(contract.claimers_entries.len(), 0);
}

#[test]
fn test_stats_after_claim_cancelled_with_bounty_owner_account() {
    let mut contract = new_contract();
    let r = contract.emit(&from(&get_bounties_contract()), Some(accounts(0)), Some(accounts(1)), ActionKind::ClaimCancelled);
    assert_eq!(r, Err(ReputationError::ClaimerOnlyEvent));
    assert_eq!(r.unwrap_err().message(), "Claimer is required and Bounty owner is not required");
}

#[test]
fn test_stats_after_claim_cancelled_without_claimer_account() {
    let mut contract = new_contract();
    let r = contract.emit(&from(&get_bounties_contract()), None, Some(accounts(1)), ActionKind::ClaimCancelled);
    assert_eq!(r, Err(ReputationError::ClaimerOnlyEvent));
}

#[test]
fn test_stats_after_claim_cancelled() {
    let mut contract = new_contract();
    contract.emit(&from(&get_bounties_contract()), Some(accounts(0)), None, ActionKind::ClaimCancelled).unwrap();

    assert_eq!(contract.claimers_entries.len(), 1);
    assert_eq!(
        claimer_metrics(&contract, &accounts(0)),
        ClaimerMetrics {
            number_of_claims: 0,
            number_of_accepted_claims: 0,
            number_of_successful_claims: 0,
            number_of_unsuccessful_claims: 0,
            number_of_overdue_claims: 0,
            number_of_canceled_claims: 1,
            number_of_open_disputes: 0,
            number_of_disputes_won: 0,
        }
    );
    assert_eq!(contract.bounty_owners_entries.len(), 0);
}

#[test]
fn test_stats_after_claim_expired() {
    let mut contract = new_contract();
    contract.emit(&from(&get_bounties_contract()), Some(accounts(0)), None, ActionKind::ClaimExpired).unwrap();

    assert_eq!(contract.claimers_entries.len(), 1);
    assert_eq!(
        claimer_metrics(&contract, &accounts(0)),
        ClaimerMetrics {
            number_of_claims: 0,
            number_of_accepted_claims: 0,
            number_of_successful_claims: 0,
            number_of_unsuccessful_claims: 0,
            number_of_overdue_claims: 1,
            number_of_canceled_claims: 0,
            number_of_open_disputes: 0,
            number_of_disputes_won: 0,
        }
    );
    assert_eq!(contract.bounty_owners_entries.len(), 0);
}

#[test]
fn test_stats_after_successful_claim() {
    let mut contract = new_contract();
    contract.emit(
        &from(&get_bounties_contract()),
        Some(accounts(0)),
        Some(accounts(1)),
        ActionKind::SuccessfulClaim { with_dispute: false },
    ).unwrap();

    let claimer_stats = claimer_metrics(&contract, &accounts(0));
    let bounty_owner_stats = owner_metrics(&contract, &accounts(1));
    assert_eq!(contract.claimers_entries.len(), 1);
    assert_eq!(
        claimer_stats,
        ClaimerMetrics {
            number_of_claims: 0,
            number_of_accepted_claims: 0,
            number_of_successful_claims: 1,
            number_of_unsuccessful_claims: 0,
            number_of_overdue_claims: 0,
            number_of_canceled_claims: 0,
            number_of_open_disputes: 0,
            number_of_disputes_won: 0,
        }
    );
    assert_eq!(contract.bounty_owners_entries.len(), 1);
    assert_eq!(
        bounty_owner_stats,
        BountyOwnerMetrics {
            number_of_bounties: 0,
            number_of_successful_bounties: 1,
            number_of_canceled_bounties: 0,
            number_of_claims: 0,
            number_of_approved_claimers: 0,
            number_of_approved_claims: 1,
            number_of_rejected_claims: 0,
            number_of_open_disputes: 0,
            number_of_disputes_won: 0,
        }
    );

    let (stats_for_claimer, stats_for_bounty_owner) = contract.get_statistics(&accounts(0));
    assert_eq!(stats_for_claimer.unwrap(), claimer_stats);
    assert!(stats_for_bounty_owner.is_none());
    let (stats_for_claimer, stats_for_bounty_owner) = contract.get_statistics(&accounts(1));
    assert_eq!(stats_for_bounty_owner.unwrap(), bounty_owner_stats);
    assert!(stats_for_claimer.is_none());

    let stats = contract.get_bounty_owners_entries(None, None);
    assert_eq!(stats.len(), 1);
    assert_eq!(stats[0].0, accounts(1));
    assert_eq!(stats[0].1, bounty_owner_stats);

    let stats = contract.get_claimers_entries(None, None);
    assert_eq!(stats.len(), 1);
    assert_eq!(stats[0].0, accounts(0));
    assert_eq!(stats[0].1, claimer_stats);

    assert_eq!(contract.get_num_bounty_owners_entries(), 1);
    assert_eq!(contract.get_num_claimers_entries(), 1);
}

#[test]
fn test_stats_after_successful_claim_with_dispute() {
    let mut contract = new_contract();
    contract.emit(
        &from(&get_bounties_contract()),
        Some(accounts(0)),
        Some(accounts(1)),
        ActionKind::SuccessfulClaim { with_dispute: true },
    ).unwrap();

    assert_eq!(contract.claimers_entries.len(), 1);
    assert_eq!(
        claimer_metrics(&contract, &accounts(0)),
        ClaimerMetrics {
            number_of_claims: 0,
            number_of_accepted_claims: 0,
            number_of_successful_claims: 1,
            number_of_unsuccessful_claims: 0,
            number_of_overdue_claims: 0,
            number_of_canceled_claims: 0,
            number_of_open_disputes: 1,
            number_of_disputes_won: 1,
        }
    );
    assert_eq!(contract.bounty_owners_entries.len(), 1);
    assert_eq!(
        owner_metrics(&contract, &accounts(1)),
        BountyOwnerMetrics {
            number_of_bounties: 0,
            number_of_successful_bounties: 1,
            number_of_canceled_bounties: 0,
            number_of_claims: 0,
            number_of_approved_claimers: 0,
            number_of_approved_claims: 0,
            number_of_rejected_claims: 1,
            number_of_open_disputes: 1,
            number_of_disputes_won: 0,
        }
    );
}

#[test]
fn test_stats_after_unsuccessful_claim() {
    let mut contract = new_contract();
    contract.emit(
        &from(&get_bounties_contract()),
        Some(accounts(0)),
        Some(accounts(1)),
        ActionKind::UnsuccessfulClaim { with_dispute: false },
    ).unwrap();

    assert_eq!(contract.claimers_entries.len(), 1);
    assert_eq!(
        claimer_metrics(&contract, &accounts(0)),
        ClaimerMetrics {
            number_of_claims: 0,
            number_of_accepted_claims: 0,
            number_of_successful_claims: 0,
            number_of_unsuccessful_claims: 1,
            number_of_overdue_claims: 0,
            number_of_canceled_claims: 0,
            number_of_open_disputes: 0,
            number_of_disputes_won: 0,
        }
    );
    assert_eq!(contract.bounty_owners_entries.len(), 1);
    assert_eq!(
        owner_metrics(&contract, &accounts(1)),
        BountyOwnerMetrics {
            number_of_bounties: 0,
            number_of_successful_bounties: 0,
            number_of_canceled_bounties: 0,
            number_of_claims: 0,
            number_of_approved_claimers: 0,
            number_of_approved_claims: 0,
            number_of_rejected_claims: 1,
            number_of_open_disputes: 0,
            number_of_disputes_won: 0,
        }
    );
}

#[test]
fn test_stats_after_unsuccessful_claim_with_dispute() {
    let mut contract = new_contract();
    contract.emit(
        &from(&get_bounties_contract()),
        Some(accounts(0)),
        Some(accounts(1)),
        ActionKind::UnsuccessfulClaim { with_dispute: true },
    ).unwrap();

    assert_eq!(contract.claimers_entries.len(), 1);
    assert_eq!(
        claimer_metrics(&contract, &accounts(0)),
        ClaimerMetrics {
            number_of_claims: 0,
            number_of_accepted_claims: 0,
            number_of_successful_claims: 0,
            number_of_unsuccessful_claims: 1,
            number_of_overdue_claims: 0,
            number_of_canceled_claims: 0,
            number_of_open_disputes: 1,
            number_of_disputes_won: 0,
        }
    );
    assert_eq!(contract.bounty_owners_entries.len(), 1);
    assert_eq!(
        owner_metrics(&contract, &accounts(1)),
        BountyOwnerMetrics {
            number_of_bounties: 0,
            number_of_successful_bounties: 0,
            number_of_canceled_bounties: 0,
            number_of_claims: 0,
            number_of_approved_claimers: 0,
            number_of_approved_claims: 0,
            number_of_rejected_claims: 1,
            number_of_open_disputes: 1,
            number_of_disputes_won: 1,
        }
    );
}

// Counters only grow: a second event adds to the counters of the first, and touches
// only the accounts it names.
#[test]
fn reputation_counters_accumulate() {
    let mut contract = new_contract();
    let c = from(&get_bounties_contract());
    contract.emit(&c, Some(accounts(0)), Some(accounts(1)), ActionKind::ClaimCreated).unwrap();
    contract.emit(&c, Some(accounts(0)), Some(accounts(1)), ActionKind::ClaimCreated).unwrap();
    contract.emit(&c, Some(accounts(2)), None, ActionKind::ClaimExpired).unwrap();
    assert_eq!(claimer_metrics(&contract, &accounts(0)).number_of_claims, 2);
    assert_eq!(owner_metrics(&contract, &accounts(1)).number_of_claims, 2);
    assert_eq!(claimer_metrics(&contract, &accounts(2)).number_of_overdue_claims, 1);
    assert_eq!(contract.get_num_claimers_entries(), 2);
    let page = contract.get_claimers_entries(Some(1), Some(5));
    assert_eq!(page.len(), 1);
    assert_eq!(page[0].0, accounts(2));
    assert!(contract.get_claimers_entries(Some(3), None).is_empty());
}

#[test]
fn reputation_counter_overflow_is_refused() {
    let mut contract = new_contract();
    let mut full = ClaimerMetrics::default();
    full.number_of_claims = u64::MAX;
    contract.claimers_entries.push((accounts(0), full));
    let before = contract.claimers_entries.clone();
    let r = contract.emit(&from(&get_bounties_contract()), Some(accounts(0)), Some(accounts(1)), ActionKind::ClaimCreated);
    assert_eq!(r, Err(ReputationError::CounterOverflow));
    assert_eq!(contract.claimers_entries, before);
    assert_eq!(contract.bounty_owners_entries.len(), 0);
}

#[test]
fn reputation_admin_whitelist() {
    let mut contract = new_contract();
    let admin = CallContext { predecessor: "admin".to_string(), block_timestamp: 0, attached_deposit: 1 };
    contract.add_to_admin_whitelist(&admin, None, Some(vec![accounts(1), accounts(2)])).unwrap();
    assert_eq!(contract.get_admin_whitelist(), vec!["admin".to_string(), accounts(1), accounts(2)]);
    contract.remove_from_admin_whitelist(&admin, Some("admin".to_string()), None).unwrap();
    assert_eq!(contract.get_admin_whitelist(), vec![accounts(2), accounts(1)]);
    let r = contract.remove_from_admin_whitelist(&from(&accounts(1)), Some(accounts(2)), None);
    assert_eq!(r, Err(ReputationError::OneYoctoRequired));
    let other = CallContext { predecessor: accounts(1), block_timestamp: 0, attached_deposit: 1 };
    let r = contract.remove_from_admin_whitelist(&other, None, Some(vec![accounts(1), accounts(2)]));
    assert_eq!(r, Err(ReputationError::RemovingAllAdmins));
    contract.update_bounties_contract(&other, "bounties2".to_string()).unwrap();
    assert_eq!(contract.get_bounties_contract_account_id(), "bounties2".to_string());
    assert!(matches!(ReputationContract::new(get_bounties_contract(), vec![]), Err(ReputationError::NoAdmins)));
}
