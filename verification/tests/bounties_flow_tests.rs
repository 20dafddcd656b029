use heroes::accounts::AccountId;
use heroes::bounties::bounty::{BountyCreate, Postpaid};
use heroes::bounties::multitasking::Multitasking;
use heroes::bounties::claim::BountyAction;
use heroes::bounties::config::{Config, ConfigCreate};
use heroes::bounties::contract::BountiesContract;
use heroes::bounties::create::FtMessage;
use heroes::bounties::effects::{CallContext, Callback, Effect, ProposalAction};
use heroes::bounties::errors::BountyError;
use heroes::bounties::fees::FeeStats;
use heroes::bounties::types::{
    BountyMetadata, BountyStatus, ClaimStatus, ClaimerApproval, ContractStatus, Deadline, KycConfig, ReferenceType,
    ReviewersParams, Subtask, ValidatorsDaoParams,
};

const TOKEN: &str = "token";
const DAO: &str = "dao";
const ADMIN: &str = "admin";
const OWNER: &str = "owner";
const CLAIMER: &str = "freelancer";
const RECIPIENT: &str = "fees";
const MAX_DEADLINE: u64 = 1_000_000_000 * 60 * 60 * 24 * 7;

fn ctx(predecessor: &str, attached_deposit: u128, block_timestamp: u64) -> CallContext {
    CallContext { predecessor: predecessor.to_string(), block_timestamp, attached_deposit }
}

fn metadata() -> BountyMetadata {
    BountyMetadata {
        title: "Test bounty title".to_string(),
        description: "Test bounty description".to_string(),
        category: "Marketing".to_string(),
        attachments: None,
        experience: None,
        tags: None,
        acceptance_criteria: None,
        contact_details: None,
    }
}

fn dao_reviewer() -> ReviewersParams {
    ReviewersParams::ValidatorsDao {
        validators_dao: ValidatorsDaoParams {
            account_id: DAO.to_string(),
            add_proposal_bond: 1,
            gas_for_add_proposal: None,
            gas_for_claim_approval: None,
            gas_for_claimer_approval: None,
        },
    }
}

fn message(reviewers: Option<ReviewersParams>) -> FtMessage {
    FtMessage::BountyCreate(BountyCreate {
        metadata: metadata(),
        deadline: Deadline::MaxDeadline { max_deadline: MAX_DEADLINE },
        claimer_approval: ClaimerApproval::WithoutApproval,
        reviewers,
        kyc_config: Some(KycConfig::KycNotRequired),
        postpaid: None,
        multitasking: None,
    })
}

/// A live contract that accepts `TOKEN`, with `RECIPIENT` collecting the platform fee.
fn live_contract() -> BountiesContract {
    let mut contract =
        BountiesContract::new(vec![ADMIN.to_string()], None, None, None, None, Some(RECIPIENT.to_string())).unwrap();
    contract.set_status(ContractStatus::Live).unwrap();
    let effects = contract.add_token_id(&ctx(ADMIN, 1, 0), TOKEN.to_string(), None).unwrap();
    assert!(matches!(&effects[..], [Effect::FtMetadata { token_id, .. }] if token_id == TOKEN));
    assert!(contract.after_get_ft_metadata(true, TOKEN.to_string(), None));
    contract
}

fn platform_fees(contract: &BountiesContract) -> FeeStats {
    contract.get_total_fees(&TOKEN.to_string()).unwrap()
}

fn dao_fees(contract: &BountiesContract) -> FeeStats {
    let stats = contract.get_total_validators_dao_fees(&DAO.to_string());
    assert_eq!(stats.len(), 1);
    assert_eq!(stats[0].token_id, TOKEN);
    stats[0].fee_stats
}

/// The one token transfer among `effects`, with the callback that receives its answer.
fn ft_transfer(effects: &[Effect]) -> (AccountId, u128, Callback) {
    let transfers: Vec<(AccountId, u128, Callback)> = effects
        .iter()
        .filter_map(|e| match e {
            Effect::FtTransfer { token_id, receiver_id, amount, then } if token_id == TOKEN => {
                Some((receiver_id.clone(), *amount, then.clone()))
            },
            _ => None,
        })
        .collect();
    assert_eq!(transfers.len(), 1);
    transfers[0].clone()
}

// A bounty reviewed by a validators DAO: the fees are locked while the bounty is open,
// unlocked when the DAO approves the result, and then withdrawn by their recipients.
#[test]
fn commissions_flow() {
    let mut contract = live_contract();
    let effects = contract.ft_on_transfer(&ctx(TOKEN, 1, 0), OWNER.to_string(), 2_200, message(Some(dao_reviewer()))).unwrap();
    assert!(effects.is_empty());
    assert_eq!(contract.get_last_bounty_id(), 1);
    let bounty = contract.get_bounty(0).unwrap().clone();
    assert_eq!((bounty.amount, bounty.platform_fee, bounty.dao_fee), (1_800, 200, 200));
    assert_eq!(bounty.owner, OWNER);
    let fees = platform_fees(&contract);
    assert_eq!((fees.balance, fees.locked_balance, fees.amount_received), (200, 200, 200));
    let fees = dao_fees(&contract);
    assert_eq!((fees.balance, fees.locked_balance, fees.amount_received), (200, 200, 200));

    let bond = Config::default().bounty_claim_bond;
    contract.bounty_claim(&ctx(CLAIMER, bond, 10), 0, 1_000_000_000 * 60 * 2, "Test claim".to_string(), None).unwrap();
    assert_eq!(contract.locked_amount, bond);
    assert_eq!(contract.get_bounty(0).unwrap().status, BountyStatus::Claimed);

    let effects = contract.bounty_done(&ctx(CLAIMER, 1, 20), 0, "test description".to_string()).unwrap();
    assert!(effects.iter().any(|e| matches!(e,
        Effect::AddProposal { dao, action: ProposalAction::ClaimApproved { id: 0, receiver_id, .. }, .. }
            if dao == DAO && receiver_id == CLAIMER)));
    // The claim is done once the DAO has taken the proposal.
    assert_eq!(contract.get_bounty_claims(&CLAIMER.to_string())[0].status, ClaimStatus::InProgress);
    assert_eq!(contract.on_added_proposal_callback(0, CLAIMER.to_string(), Some(7)), Ok(true));
    let claim = contract.get_bounty_claims(&CLAIMER.to_string())[0].clone();
    assert_eq!(claim.status, ClaimStatus::Completed);
    assert_eq!(claim.bounty_payout_proposal_id, Some(7));

    // Only the DAO approves the result of a bounty it reviews.
    assert!(contract
        .bounty_action(&ctx(OWNER, 1, 30), 0, BountyAction::ClaimApproved { receiver_id: CLAIMER.to_string() })
        .is_err());
    let effects = contract
        .bounty_action(&ctx(DAO, 1, 30), 0, BountyAction::ClaimApproved { receiver_id: CLAIMER.to_string() })
        .unwrap();
    let (receiver, amount, then) = ft_transfer(&effects);
    assert_eq!((receiver.as_str(), amount), (CLAIMER, 1_800));
    assert_eq!(then, Callback::AfterFtTransfer { id: 0, claimer: Some(CLAIMER.to_string()) });

    let (done, effects) = contract.after_ft_transfer(0, Some(CLAIMER.to_string()), true, 40).unwrap();
    assert!(done);
    assert!(effects.contains(&Effect::Transfer { receiver_id: CLAIMER.to_string(), amount: bond }));
    assert_eq!(contract.locked_amount, 0);
    assert_eq!(contract.get_bounty(0).unwrap().status, BountyStatus::Completed);
    assert_eq!(contract.get_bounty_claims(&CLAIMER.to_string())[0].status, ClaimStatus::Approved);

    // The fees are unlocked and can be withdrawn.
    let fees = platform_fees(&contract);
    assert_eq!((fees.balance, fees.locked_balance), (200, 0));
    let fees = dao_fees(&contract);
    assert_eq!((fees.balance, fees.locked_balance), (200, 0));

    assert!(contract.withdraw_platform_fee(&ctx(OWNER, 1, 50), TOKEN.to_string()).is_err());
    let effects = contract.withdraw_platform_fee(&ctx(RECIPIENT, 1, 50), TOKEN.to_string()).unwrap();
    let (receiver, amount, then) = ft_transfer(&effects);
    assert_eq!((receiver.as_str(), amount), (RECIPIENT, 200));
    assert_eq!(then, Callback::AfterFeesPayout {
        token_id: TOKEN.to_string(),
        amount: 200,
        is_platform_fee: true,
        account_id: RECIPIENT.to_string(),
    });
    assert_eq!(contract.after_fees_payout(TOKEN.to_string(), 200, true, RECIPIENT.to_string(), true), Ok(true));
    let fees = platform_fees(&contract);
    assert_eq!((fees.balance, fees.locked_balance, fees.amount_withdrawn), (0, 0, 200));

    let effects = contract.withdraw_validators_dao_fee(&ctx(DAO, 1, 60), TOKEN.to_string()).unwrap();
    let (receiver, amount, _) = ft_transfer(&effects);
    assert_eq!((receiver.as_str(), amount), (DAO, 200));
    assert_eq!(contract.after_fees_payout(TOKEN.to_string(), 200, false, DAO.to_string(), true), Ok(true));
    let fees = dao_fees(&contract);
    assert_eq!((fees.balance, fees.locked_balance, fees.amount_withdrawn), (0, 0, 200));

    // Nothing is left to withdraw.
    assert!(contract.withdraw_platform_fee(&ctx(RECIPIENT, 1, 70), TOKEN.to_string()).is_err());
}

// A failed payout of a fee changes nothing: the fee can be withdrawn again.
#[test]
fn failed_fee_payout_keeps_the_fee() {
    let mut contract = live_contract();
    contract.ft_on_transfer(&ctx(TOKEN, 1, 0), OWNER.to_string(), 2_200, message(None)).unwrap();
    let bond = Config::default().bounty_claim_bond;
    contract.bounty_claim(&ctx(CLAIMER, bond, 10), 0, 1_000_000_000 * 60 * 2, "Test claim".to_string(), None).unwrap();
    contract.bounty_done(&ctx(CLAIMER, 1, 20), 0, "done".to_string()).unwrap();
    let effects = contract
        .bounty_action(&ctx(OWNER, 1, 30), 0, BountyAction::ClaimApproved { receiver_id: CLAIMER.to_string() })
        .unwrap();
    let (receiver, amount, _) = ft_transfer(&effects);
    // Without a DAO the platform takes a tenth of the transferred amount.
    assert_eq!((receiver.as_str(), amount), (CLAIMER, 1_980));
    contract.after_ft_transfer(0, Some(CLAIMER.to_string()), true, 40).unwrap();
    assert_eq!(platform_fees(&contract).locked_balance, 0);

    let effects = contract.withdraw_platform_fee(&ctx(RECIPIENT, 1, 50), TOKEN.to_string()).unwrap();
    assert_eq!(ft_transfer(&effects).1, 220);
    assert_eq!(contract.after_fees_payout(TOKEN.to_string(), 220, true, RECIPIENT.to_string(), false), Ok(false));
    assert_eq!(platform_fees(&contract).balance, 220);
    let effects = contract.withdraw_platform_fee(&ctx(RECIPIENT, 1, 60), TOKEN.to_string()).unwrap();
    assert_eq!(ft_transfer(&effects).1, 220);
}

// A bounty that is no longer open refuses new claims, and its owner cannot cancel it.
#[test]
fn completed_bounty_is_closed() {
    let mut contract = live_contract();
    contract.ft_on_transfer(&ctx(TOKEN, 1, 0), OWNER.to_string(), 2_200, message(None)).unwrap();
    let bond = Config::default().bounty_claim_bond;
    contract.bounty_claim(&ctx(CLAIMER, bond, 10), 0, 1_000_000_000 * 60 * 2, "Test claim".to_string(), None).unwrap();
    contract.bounty_done(&ctx(CLAIMER, 1, 20), 0, "done".to_string()).unwrap();
    contract
        .bounty_action(&ctx(OWNER, 1, 30), 0, BountyAction::ClaimApproved { receiver_id: CLAIMER.to_string() })
        .unwrap();
    contract.after_ft_transfer(0, Some(CLAIMER.to_string()), true, 40).unwrap();
    assert_eq!(contract.get_bounty(0).unwrap().status, BountyStatus::Completed);
    assert!(contract.bounty_claim(&ctx("other", bond, 50), 0, 1_000_000_000 * 60, "again".to_string(), None).is_err());
    assert!(contract.bounty_cancel(&ctx(OWNER, 1, 60), 0).is_err());
    assert_eq!(contract.bounty_cancel(&ctx(OWNER, 1, 60), 7), Err(BountyError::BountyNotFound));
}

// The owner cancels a bounty whose only claim still awaits approval: the whole
// transferred amount goes back to the owner, and the claimant, by giving up, gets the
// bond back.
#[test]
fn bounty_cancel_flow() {
    let mut contract = live_contract();
    let mut msg = message(None);
    let FtMessage::BountyCreate(b) = &mut msg;
    b.claimer_approval = ClaimerApproval::MultipleClaims;
    contract.ft_on_transfer(&ctx(TOKEN, 1, 0), OWNER.to_string(), 2_200, msg).unwrap();
    let bond = Config::default().bounty_claim_bond;
    contract
        .bounty_claim(&ctx(CLAIMER, bond, 10), 0, 1_000_000_000 * 60 * 60 * 24 * 2, "Test claim".to_string(), None)
        .unwrap();
    assert_eq!(contract.get_bounty_claims(&CLAIMER.to_string())[0].status, ClaimStatus::New);
    assert_eq!(contract.get_bounty(0).unwrap().status, BountyStatus::New);
    assert_eq!(contract.locked_amount, bond);

    assert!(contract.bounty_cancel(&ctx(CLAIMER, 1, 20), 0).is_err());
    let effects = contract.bounty_cancel(&ctx(OWNER, 1, 20), 0).unwrap();
    let (receiver, amount, then) = ft_transfer(&effects);
    assert_eq!((receiver.as_str(), amount), (OWNER, 2_200));
    assert_eq!(then, Callback::AfterRefundBountyAmount { id: 0 });
    let (done, _) = contract.after_refund_bounty_amount(0, true).unwrap();
    assert!(done);
    assert_eq!(contract.get_bounty(0).unwrap().status, BountyStatus::Canceled);
    let fees = platform_fees(&contract);
    assert_eq!((fees.balance, fees.locked_balance, fees.refunded_amount), (0, 0, 220));
    assert_eq!(contract.get_bounty_claims(&CLAIMER.to_string())[0].status, ClaimStatus::New);

    let effects = contract.bounty_give_up(&ctx(CLAIMER, 1, 30), 0).unwrap();
    assert!(effects.contains(&Effect::Transfer { receiver_id: CLAIMER.to_string(), amount: bond }));
    assert_eq!(contract.get_bounty_claims(&CLAIMER.to_string())[0].status, ClaimStatus::Canceled);
    assert_eq!(contract.locked_amount, 0);
}

// A failed refund leaves the bounty open.
#[test]
fn failed_refund_keeps_the_bounty() {
    let mut contract = live_contract();
    contract.ft_on_transfer(&ctx(TOKEN, 1, 0), OWNER.to_string(), 2_200, message(None)).unwrap();
    contract.bounty_cancel(&ctx(OWNER, 1, 20), 0).unwrap();
    let (done, effects) = contract.after_refund_bounty_amount(0, false).unwrap();
    assert!(!done);
    assert!(effects.is_empty());
    assert_eq!(contract.get_bounty(0).unwrap().status, BountyStatus::New);
    assert_eq!(platform_fees(&contract).locked_balance, 220);
}

// A bounty paid outside the contract: its result is approved only once the owner has
// marked the payment as made and the claimant has confirmed it; no token moves.
#[test]
fn postpaid_flow() {
    let mut contract = live_contract();
    let admin = ctx(ADMIN, 1, 0);
    contract.update_configuration_dictionary_entries(&admin, ReferenceType::Currencies, Some("USD".to_string()), None).unwrap();
    let postpaid = |currency: &str| {
        let FtMessage::BountyCreate(mut b) = message(None);
        b.postpaid = Some(Postpaid::PaymentOutsideContract { currency: currency.to_string(), payment_timestamps: None });
        b
    };

    // Only whitelisted owners create bounties paid outside the contract.
    assert!(contract.bounty_create(&ctx(OWNER, 1, 0), postpaid("USD"), None, 2_000).is_err());
    contract.add_to_owners_whitelist(&admin, Some(OWNER.to_string()), None).unwrap();
    assert!(contract.bounty_create(&ctx(OWNER, 1, 0), postpaid("EUR"), None, 2_000).is_err());
    contract.bounty_create(&ctx(OWNER, 1, 0), postpaid("USD"), None, 2_000).unwrap();
    let bounty = contract.get_bounty(0).unwrap().clone();
    assert_eq!((bounty.amount, bounty.platform_fee, bounty.dao_fee), (2_000, 0, 0));
    assert_eq!(bounty.token, None);

    let bond = Config::default().bounty_claim_bond;
    contract.bounty_claim(&ctx(CLAIMER, bond, 10), 0, 1_000_000_000 * 60 * 60 * 24 * 2, "Test claim".to_string(), None).unwrap();
    contract.bounty_done(&ctx(CLAIMER, 1, 20), 0, "test description".to_string()).unwrap();
    let approve = BountyAction::ClaimApproved { receiver_id: CLAIMER.to_string() };

    assert!(contract.bounty_action(&ctx(OWNER, 1, 30), 0, approve.clone()).is_err());
    contract.mark_as_paid(&ctx(OWNER, 1, 40), 0, None).unwrap();
    assert!(contract.bounty_action(&ctx(OWNER, 1, 50), 0, approve.clone()).is_err());
    assert!(contract.confirm_payment(&ctx(OWNER, 1, 60), 0).is_err());
    contract.confirm_payment(&ctx(CLAIMER, 1, 60), 0).unwrap();
    let effects = contract.bounty_action(&ctx(OWNER, 1, 70), 0, approve).unwrap();
    assert!(!effects.iter().any(|e| matches!(e, Effect::FtTransfer { .. })));
    assert!(effects.contains(&Effect::Transfer { receiver_id: CLAIMER.to_string(), amount: bond }));
    assert_eq!(contract.get_bounty(0).unwrap().status, BountyStatus::Completed);
    assert_eq!(contract.get_bounty_claims(&CLAIMER.to_string())[0].status, ClaimStatus::Approved);
    assert_eq!(contract.locked_amount, 0);
}

// A contest: participants join and leave while it runs; a rejected result reopens it;
// the approved result wins and the remaining participant's claim is then finalized as
// not completed.
#[test]
fn contest_flow() {
    let mut contract = live_contract();
    let FtMessage::BountyCreate(mut b) = message(None);
    b.multitasking = Some(Multitasking::ContestOrHackathon {
        allowed_create_claim_to: None,
        successful_claims_for_result: None,
        start_conditions: None,
        runtime_env: None,
    });
    contract.ft_on_transfer(&ctx(TOKEN, 1, 0), OWNER.to_string(), 2_200, FtMessage::BountyCreate(b)).unwrap();
    assert_eq!(contract.get_bounty(0).unwrap().status, BountyStatus::New);
    let bond = Config::default().bounty_claim_bond;
    let deadline = 1_000_000_000 * 60 * 60 * 24 * 2;
    let statuses = |c: &BountiesContract| -> Vec<(String, ClaimStatus)> {
        c.get_bounty_claims_by_id(0).into_iter().map(|(a, claim)| (a, claim.status)).collect()
    };

    contract.bounty_claim(&ctx("f1", bond, 10), 0, deadline, "Test claim".to_string(), None).unwrap();
    assert_eq!(contract.get_bounty(0).unwrap().status, BountyStatus::ManyClaimed);
    assert_eq!(statuses(&contract), vec![("f1".to_string(), ClaimStatus::Competes)]);
    contract.bounty_give_up(&ctx("f1", 1, 20), 0).unwrap();
    assert_eq!(contract.get_bounty(0).unwrap().status, BountyStatus::New);
    assert_eq!(statuses(&contract), vec![("f1".to_string(), ClaimStatus::Canceled)]);

    contract.bounty_claim(&ctx("f2", bond, 30), 0, deadline, "Test claim".to_string(), None).unwrap();
    contract.bounty_done(&ctx("f2", 1, 40), 0, "test description".to_string()).unwrap();
    assert_eq!(contract.get_bounty(0).unwrap().status, BountyStatus::ManyClaimed);
    assert_eq!(statuses(&contract)[1], ("f2".to_string(), ClaimStatus::Completed));
    contract.bounty_action(&ctx(OWNER, 1, 50), 0, BountyAction::ClaimRejected { receiver_id: "f2".to_string() }).unwrap();
    assert_eq!(contract.get_bounty(0).unwrap().status, BountyStatus::New);
    assert_eq!(statuses(&contract)[1], ("f2".to_string(), ClaimStatus::NotCompleted));

    for f in ["f3", "f4"] {
        contract.bounty_claim(&ctx(f, bond, 60), 0, deadline, "Test claim".to_string(), None).unwrap();
        contract.bounty_done(&ctx(f, 1, 70), 0, "test description".to_string()).unwrap();
    }
    let effects = contract
        .bounty_action(&ctx(OWNER, 1, 80), 0, BountyAction::ClaimApproved { receiver_id: "f3".to_string() })
        .unwrap();
    let (receiver, amount, _) = ft_transfer(&effects);
    assert_eq!((receiver.as_str(), amount), ("f3", 1_980));
    contract.after_ft_transfer(0, Some("f3".to_string()), true, 90).unwrap();
    assert_eq!(contract.get_bounty(0).unwrap().status, BountyStatus::Completed);
    let s = statuses(&contract);
    assert_eq!(s.len(), 4);
    assert_eq!(s[2], ("f3".to_string(), ClaimStatus::Approved));
    assert_eq!(s[3], ("f4".to_string(), ClaimStatus::Completed));

    contract
        .bounty_action(&ctx("f4", 1, 100), 0, BountyAction::Finalize { receiver_id: Some("f4".to_string()) })
        .unwrap();
    assert_eq!(statuses(&contract)[3], ("f4".to_string(), ClaimStatus::NotCompleted));
    // Every bond went back: a contest keeps none.
    assert_eq!(contract.locked_amount, 0);
}

// One bounty paid in equal shares to several claimants: a rejected result is finalized
// once the period for a dispute is over, an approved one is paid its share at once, and
// canceling the bounty returns the unused share with its part of the fee.
#[test]
fn one_bounty_for_many_flow() {
    let mut contract =
        BountiesContract::new(vec![ADMIN.to_string()], None, None, Some("disputes".to_string()), None, None).unwrap();
    contract.set_status(ContractStatus::Live).unwrap();
    contract.add_token_id(&ctx(ADMIN, 1, 0), TOKEN.to_string(), None).unwrap();
    contract.after_get_ft_metadata(true, TOKEN.to_string(), None);
    let FtMessage::BountyCreate(mut b) = message(None);
    b.multitasking = Some(Multitasking::OneForAll {
        number_of_slots: 2,
        amount_per_slot: 1_100,
        min_slots_to_start: None,
        runtime_env: None,
    });
    contract.ft_on_transfer(&ctx(TOKEN, 1, 0), OWNER.to_string(), 2_200, FtMessage::BountyCreate(b)).unwrap();
    assert_eq!(contract.get_bounty(0).unwrap().status, BountyStatus::New);
    let bond = Config::default().bounty_claim_bond;
    let deadline = 1_000_000_000 * 60 * 60 * 24 * 2;
    let statuses = |c: &BountiesContract| -> Vec<(String, ClaimStatus)> {
        c.get_bounty_claims_by_id(0).into_iter().map(|(a, claim)| (a, claim.status)).collect()
    };

    contract.bounty_claim(&ctx("f1", bond, 10), 0, deadline, "Test claim".to_string(), None).unwrap();
    contract.bounty_claim(&ctx("f2", bond, 10), 0, deadline, "Test claim".to_string(), None).unwrap();
    contract.bounty_done(&ctx("f1", 1, 20), 0, "test description".to_string()).unwrap();
    assert_eq!(contract.get_bounty(0).unwrap().status, BountyStatus::ManyClaimed);
    assert_eq!(statuses(&contract), vec![
        ("f1".to_string(), ClaimStatus::Completed),
        ("f2".to_string(), ClaimStatus::InProgress),
    ]);

    contract.bounty_action(&ctx(OWNER, 1, 30), 0, BountyAction::ClaimRejected { receiver_id: "f1".to_string() }).unwrap();
    let effects = contract.bounty_give_up(&ctx("f2", 1, 30), 0).unwrap();
    assert!(effects.contains(&Effect::Transfer { receiver_id: "f2".to_string(), amount: bond }));
    assert_eq!(contract.get_bounty(0).unwrap().status, BountyStatus::ManyClaimed);
    assert_eq!(statuses(&contract)[0].1, ClaimStatus::Rejected);
    assert_eq!(statuses(&contract)[1].1, ClaimStatus::Canceled);

    // The rejected claim is finalized only once a dispute can no longer be opened.
    let finalize = BountyAction::Finalize { receiver_id: Some("f1".to_string()) };
    assert!(contract.bounty_action(&ctx(OWNER, 1, 40), 0, finalize.clone()).is_err());
    let after_dispute_period = 30 + Config::default().period_for_opening_dispute + 1;
    contract.bounty_action(&ctx(OWNER, 1, after_dispute_period), 0, finalize).unwrap();
    assert_eq!(contract.get_bounty(0).unwrap().status, BountyStatus::New);
    assert_eq!(statuses(&contract)[0].1, ClaimStatus::NotCompleted);

    let t = after_dispute_period + 10;
    contract.bounty_claim(&ctx("f3", bond, t), 0, deadline, "Test claim".to_string(), None).unwrap();
    contract.bounty_claim(&ctx("f4", bond, t), 0, deadline, "Test claim".to_string(), None).unwrap();
    contract.bounty_done(&ctx("f3", 1, t + 1), 0, "test description".to_string()).unwrap();
    let effects = contract
        .bounty_action(&ctx(OWNER, 1, t + 2), 0, BountyAction::ClaimApproved { receiver_id: "f3".to_string() })
        .unwrap();
    let (receiver, amount, _) = ft_transfer(&effects);
    assert_eq!((receiver.as_str(), amount), ("f3", 990));
    contract.after_ft_transfer(0, Some("f3".to_string()), true, t + 3).unwrap();
    contract.bounty_give_up(&ctx("f4", 1, t + 4), 0).unwrap();
    assert_eq!(contract.get_bounty(0).unwrap().status, BountyStatus::AwaitingClaims);
    assert_eq!(statuses(&contract)[2].1, ClaimStatus::Approved);
    assert_eq!(statuses(&contract)[3].1, ClaimStatus::Canceled);

    // Canceling returns the unused share with its part of the fee; the rest of the fee
    // stays with the platform.
    let effects = contract.bounty_cancel(&ctx(OWNER, 1, t + 5), 0).unwrap();
    let (receiver, amount, _) = ft_transfer(&effects);
    assert_eq!((receiver.as_str(), amount), (OWNER, 1_100));
    contract.after_refund_bounty_amount(0, true).unwrap();
    assert_eq!(contract.get_bounty(0).unwrap().status, BountyStatus::PartiallyCompleted);
    let fees = platform_fees(&contract);
    assert_eq!((fees.balance, fees.locked_balance, fees.refunded_amount), (110, 0, 110));
    assert_eq!(contract.locked_amount, 0);
}

// A bounty of several different tasks: a task is done again after its result was
// rejected; a claimant who wins a dispute keeps the task; the results are approved
// together and each claimant then withdraws the share of the task.
#[test]
fn different_tasks_flow() {
    let mut contract =
        BountiesContract::new(vec![ADMIN.to_string()], None, None, Some("disputes".to_string()), None, None).unwrap();
    contract.set_status(ContractStatus::Live).unwrap();
    contract.add_token_id(&ctx(ADMIN, 1, 0), TOKEN.to_string(), None).unwrap();
    contract.after_get_ft_metadata(true, TOKEN.to_string(), None);
    let FtMessage::BountyCreate(mut b) = message(None);
    b.multitasking = Some(Multitasking::DifferentTasks {
        subtasks: vec![
            Subtask { subtask_description: "Subtask 1".to_string(), subtask_percent: 20_000 },
            Subtask { subtask_description: "Subtask 2".to_string(), subtask_percent: 80_000 },
        ],
        runtime_env: None,
    });
    contract.ft_on_transfer(&ctx(TOKEN, 1, 0), OWNER.to_string(), 2_200, FtMessage::BountyCreate(b)).unwrap();
    let bond = Config::default().bounty_claim_bond;
    let deadline = 1_000_000_000 * 60 * 60 * 24 * 2;
    let claims = |c: &BountiesContract| -> Vec<(String, ClaimStatus, Option<usize>)> {
        c.get_bounty_claims_by_id(0).into_iter().map(|(a, claim)| (a, claim.status, claim.slot)).collect()
    };

    // Work starts once every task has a claimant.
    contract.bounty_claim(&ctx("f1", bond, 10), 0, deadline, "Test claim".to_string(), Some(0)).unwrap();
    assert_eq!(contract.get_bounty(0).unwrap().status, BountyStatus::New);
    assert_eq!(claims(&contract), vec![("f1".to_string(), ClaimStatus::ReadyToStart, Some(0))]);
    assert!(contract.bounty_done(&ctx("f1", 1, 10), 0, "test description".to_string()).is_err());
    contract.bounty_claim(&ctx("f2", bond, 10), 0, deadline, "Test claim".to_string(), Some(1)).unwrap();
    assert_eq!(contract.get_bounty(0).unwrap().status, BountyStatus::ManyClaimed);
    assert_eq!(claims(&contract), vec![
        ("f1".to_string(), ClaimStatus::InProgress, Some(0)),
        ("f2".to_string(), ClaimStatus::InProgress, Some(1)),
    ]);

    contract.bounty_done(&ctx("f1", 1, 20), 0, "test description".to_string()).unwrap();
    assert_eq!(claims(&contract)[0].1, ClaimStatus::Completed);
    // A single result is not approved, nor all of them before every task is done.
    assert!(contract.bounty_action(&ctx(OWNER, 1, 25), 0, BountyAction::ClaimApproved { receiver_id: "f1".to_string() }).is_err());
    assert!(contract.bounty_action(&ctx(OWNER, 1, 25), 0, BountyAction::SeveralClaimsApproved).is_err());

    contract.bounty_action(&ctx(OWNER, 1, 30), 0, BountyAction::ClaimRejected { receiver_id: "f1".to_string() }).unwrap();
    contract.bounty_give_up(&ctx("f2", 1, 30), 0).unwrap();
    assert_eq!(contract.get_bounty(0).unwrap().status, BountyStatus::ManyClaimed);
    assert_eq!(claims(&contract)[0].1, ClaimStatus::Rejected);
    assert_eq!(claims(&contract)[1].1, ClaimStatus::Canceled);
    let t = 30 + Config::default().period_for_opening_dispute + 1;
    contract.bounty_action(&ctx(OWNER, 1, t), 0, BountyAction::Finalize { receiver_id: Some("f1".to_string()) }).unwrap();
    assert_eq!(contract.get_bounty(0).unwrap().status, BountyStatus::New);
    assert_eq!(claims(&contract)[0].1, ClaimStatus::NotCompleted);

    contract.bounty_claim(&ctx("f3", bond, t + 1), 0, deadline, "Test claim".to_string(), Some(0)).unwrap();
    contract.bounty_claim(&ctx("f4", bond, t + 1), 0, deadline, "Test claim".to_string(), Some(1)).unwrap();
    contract.bounty_done(&ctx("f3", 1, t + 2), 0, "test description".to_string()).unwrap();
    contract.bounty_done(&ctx("f4", 1, t + 2), 0, "test description".to_string()).unwrap();
    contract.bounty_action(&ctx(OWNER, 1, t + 3), 0, BountyAction::ClaimRejected { receiver_id: "f4".to_string() }).unwrap();
    let effects = contract.open_dispute(&ctx("f4", 1, t + 4), 0, "Dispute".to_string()).unwrap();
    assert!(effects.iter().any(|e| matches!(e, Effect::CreateDispute { claimer, .. } if claimer == "f4")));
    assert_eq!(contract.after_create_dispute(0, "f4".to_string(), Some(0)), Ok(true));
    contract.dispute_result(&ctx("disputes", 1, t + 5), 0, "f4".to_string(), true).unwrap();
    assert_eq!(contract.get_bounty(0).unwrap().status, BountyStatus::ManyClaimed);
    assert_eq!(claims(&contract)[2], ("f3".to_string(), ClaimStatus::Completed, Some(0)));
    assert_eq!(claims(&contract)[3], ("f4".to_string(), ClaimStatus::CompletedWithDispute, Some(1)));

    // Shares are withdrawn only after all results are approved.
    assert!(contract.withdraw(&ctx("f3", 1, t + 6), 0).is_err());
    contract.bounty_action(&ctx(OWNER, 1, t + 7), 0, BountyAction::SeveralClaimsApproved).unwrap();
    assert_eq!(contract.get_bounty(0).unwrap().status, BountyStatus::Completed);

    let effects = contract.withdraw(&ctx("f3", 1, t + 8), 0).unwrap();
    let (receiver, amount, then) = ft_transfer(&effects);
    assert_eq!((receiver.as_str(), amount), ("f3", 396));
    assert_eq!(then, Callback::AfterBountyWithdraw { id: 0, claimer: "f3".to_string(), slot: 0 });
    contract.after_bounty_withdraw(0, "f3".to_string(), 0, true).unwrap();
    let effects = contract.withdraw(&ctx("f4", 1, t + 9), 0).unwrap();
    let (receiver, amount, _) = ft_transfer(&effects);
    assert_eq!((receiver.as_str(), amount), ("f4", 1_584));
    contract.after_bounty_withdraw(0, "f4".to_string(), 1, true).unwrap();
    assert!(contract.withdraw(&ctx("f3", 1, t + 10), 0).is_err());

    let statuses: Vec<ClaimStatus> = claims(&contract).into_iter().map(|(_, s, _)| s).collect();
    assert_eq!(statuses, vec![ClaimStatus::NotCompleted, ClaimStatus::Canceled, ClaimStatus::Approved, ClaimStatus::Approved]);
    let fees = platform_fees(&contract);
    assert_eq!((fees.balance, fees.locked_balance), (220, 0));
    assert_eq!(contract.locked_amount, 0);
}

// A bond comes back to a claimant who gives up within the forgiveness period; it is
// kept when the claimant gives up later or lets the deadline pass, and the kept bonds
// go to the recipient of the platform fee.
#[test]
fn non_refunded_bonds_flow() {
    let mut contract = live_contract();
    contract.ft_on_transfer(&ctx(TOKEN, 1, 0), OWNER.to_string(), 2_200, message(None)).unwrap();
    let bond = Config::default().bounty_claim_bond;
    let forgiveness = Config::default().bounty_forgiveness_period;
    let two_days = 1_000_000_000 * 60 * 60 * 24 * 2;
    let status = |c: &BountiesContract, who: &str| -> (ClaimStatus, BountyStatus) {
        let claims = c.get_bounty_claims(&who.to_string());
        (claims[claims.len() - 1].status, c.get_bounty(0).unwrap().status)
    };

    contract.bounty_claim(&ctx("f1", bond, 10), 0, two_days, "Test claim".to_string(), None).unwrap();
    assert_eq!(status(&contract, "f1"), (ClaimStatus::InProgress, BountyStatus::Claimed));
    assert_eq!(contract.locked_amount, bond);
    let effects = contract.bounty_give_up(&ctx("f1", 1, 20), 0).unwrap();
    assert!(effects.contains(&Effect::Transfer { receiver_id: "f1".to_string(), amount: bond }));
    assert_eq!(status(&contract, "f1"), (ClaimStatus::Canceled, BountyStatus::New));
    assert_eq!((contract.locked_amount, contract.get_non_refunded_bonds_amount()), (0, 0));

    contract.bounty_claim(&ctx("f2", bond, 30), 0, two_days, "Test claim".to_string(), None).unwrap();
    let effects = contract.bounty_give_up(&ctx("f2", 1, 30 + forgiveness + 1), 0).unwrap();
    assert!(!effects.iter().any(|e| matches!(e, Effect::Transfer { .. })));
    assert_eq!(status(&contract, "f2"), (ClaimStatus::Canceled, BountyStatus::New));
    assert_eq!((contract.locked_amount, contract.get_non_refunded_bonds_amount()), (0, bond));

    let t = 30 + forgiveness + 10;
    let two_minutes = 1_000_000_000 * 60 * 2;
    contract.bounty_claim(&ctx("f3", bond, t), 0, two_minutes, "Test claim".to_string(), None).unwrap();
    assert_eq!(status(&contract, "f3"), (ClaimStatus::InProgress, BountyStatus::Claimed));
    // Nothing to finalize before the deadline.
    assert!(contract.bounty_action(&ctx(OWNER, 1, t + 1), 0, BountyAction::Finalize { receiver_id: None }).is_err());
    let effects = contract
        .bounty_action(&ctx(OWNER, 1, t + two_minutes + 1), 0, BountyAction::Finalize { receiver_id: None })
        .unwrap();
    assert!(!effects.iter().any(|e| matches!(e, Effect::Transfer { .. })));
    assert_eq!(status(&contract, "f3"), (ClaimStatus::Expired, BountyStatus::New));
    assert_eq!((contract.locked_amount, contract.get_non_refunded_bonds_amount()), (0, 2 * bond));

    assert!(contract.withdraw_non_refunded_bonds(&ctx(OWNER, 1, t + two_minutes + 2)).is_err());
    let effects = contract.withdraw_non_refunded_bonds(&ctx(RECIPIENT, 1, t + two_minutes + 2)).unwrap();
    assert_eq!(effects, vec![Effect::Transfer { receiver_id: RECIPIENT.to_string(), amount: 2 * bond }]);
    assert_eq!(contract.get_non_refunded_bonds_amount(), 0);
}

// With claims approved by the owner: a rejected claimant is not hired, a hired one
// works on the bounty, others wait; once the hired one gives up, another is hired.
#[test]
fn claimers_chosen_by_owner_flow() {
    let mut contract = live_contract();
    let FtMessage::BountyCreate(mut b) = message(None);
    b.claimer_approval = ClaimerApproval::MultipleClaims;
    contract.ft_on_transfer(&ctx(TOKEN, 1, 0), OWNER.to_string(), 2_200, FtMessage::BountyCreate(b)).unwrap();
    let bond = Config::default().bounty_claim_bond;
    let deadline = 1_000_000_000 * 60 * 60 * 24 * 2;
    for (i, f) in ["f1", "f2", "f3", "f4"].iter().enumerate() {
        contract.bounty_claim(&ctx(f, bond, 10 + i as u64), 0, deadline, format!("Test claim {}", i + 1), None).unwrap();
    }
    assert_eq!(contract.locked_amount, 4 * bond);
    let statuses = |c: &BountiesContract| -> Vec<ClaimStatus> {
        c.get_bounty_claims_by_id(0).into_iter().map(|(_, claim)| claim.status).collect()
    };
    assert_eq!(statuses(&contract), vec![ClaimStatus::New; 4]);

    // Only the owner decides.
    assert!(contract.decision_on_claim(&ctx("f2", 1, 20), 0, "f2".to_string(), true, None).is_err());
    let effects = contract.decision_on_claim(&ctx(OWNER, 1, 20), 0, "f1".to_string(), false, None).unwrap();
    assert!(effects.contains(&Effect::Transfer { receiver_id: "f1".to_string(), amount: bond }));
    contract.decision_on_claim(&ctx(OWNER, 1, 21), 0, "f2".to_string(), true, None).unwrap();
    contract.bounty_give_up(&ctx("f3", 1, 22), 0).unwrap();
    assert_eq!(statuses(&contract), vec![
        ClaimStatus::NotHired,
        ClaimStatus::InProgress,
        ClaimStatus::Canceled,
        ClaimStatus::New,
    ]);
    assert_eq!(contract.get_bounty(0).unwrap().status, BountyStatus::Claimed);
    // While a claimant works on the bounty, no other is hired.
    assert!(contract.decision_on_claim(&ctx(OWNER, 1, 23), 0, "f4".to_string(), true, None).is_err());

    contract.bounty_give_up(&ctx("f2", 1, 24), 0).unwrap();
    assert_eq!(contract.get_bounty(0).unwrap().status, BountyStatus::New);
    contract.decision_on_claim(&ctx(OWNER, 1, 25), 0, "f4".to_string(), true, None).unwrap();
    let s = statuses(&contract);
    assert_eq!((s[1], s[3]), (ClaimStatus::Canceled, ClaimStatus::InProgress));
    assert_eq!(contract.get_bounty(0).unwrap().status, BountyStatus::Claimed);
    assert_eq!(contract.locked_amount, bond);
}

// The claimant confirms a payment only once the owner marked it, and only once.
#[test]
fn payment_confirmed_once_after_marking() {
    let mut contract = live_contract();
    let admin = ctx(ADMIN, 1, 0);
    contract.update_configuration_dictionary_entries(&admin, ReferenceType::Currencies, Some("USD".to_string()), None).unwrap();
    contract.add_to_owners_whitelist(&admin, Some(OWNER.to_string()), None).unwrap();
    let FtMessage::BountyCreate(mut b) = message(None);
    b.postpaid = Some(Postpaid::PaymentOutsideContract { currency: "USD".to_string(), payment_timestamps: None });
    contract.bounty_create(&ctx(OWNER, 1, 0), b, None, 2_000).unwrap();
    let bond = Config::default().bounty_claim_bond;
    contract.bounty_claim(&ctx(CLAIMER, bond, 10), 0, 1_000_000_000 * 60 * 60 * 24 * 2, "Test claim".to_string(), None).unwrap();
    contract.bounty_done(&ctx(CLAIMER, 1, 20), 0, "test description".to_string()).unwrap();

    assert_eq!(contract.confirm_payment(&ctx(CLAIMER, 1, 30), 0), Err(BountyError::PaymentNotMade));
    assert_eq!(contract.confirm_payment(&ctx(OWNER, 1, 30), 0), Err(BountyError::NotClaimOwner));
    contract.mark_as_paid(&ctx(OWNER, 1, 40), 0, None).unwrap();
    assert_eq!(contract.mark_as_paid(&ctx(OWNER, 1, 41), 0, None), Err(BountyError::AlreadyPerformed));
    assert_eq!(contract.confirm_payment(&ctx(CLAIMER, 1, 50), 0), Ok(()));
    let times = contract.get_bounty(0).unwrap().postpaid.clone().unwrap().get_payment_timestamps();
    assert_eq!((times.payment_at, times.payment_confirmed_at), (Some(40), Some(50)));
    assert_eq!(contract.confirm_payment(&ctx(CLAIMER, 1, 60), 0), Err(BountyError::AlreadyPerformed));
}

// The DAO's reply about a payout proposal: a reply for another proposal or still
// undecided is refused; an approval pays the claimant.
#[test]
fn payout_proposal_reply() {
    let mut contract = live_contract();
    contract.ft_on_transfer(&ctx(TOKEN, 1, 0), OWNER.to_string(), 2_200, message(Some(dao_reviewer()))).unwrap();
    let bond = Config::default().bounty_claim_bond;
    contract.bounty_claim(&ctx(CLAIMER, bond, 10), 0, 1_000_000_000 * 60 * 2, "Test claim".to_string(), None).unwrap();
    contract.bounty_done(&ctx(CLAIMER, 1, 20), 0, "test description".to_string()).unwrap();
    assert_eq!(contract.on_added_proposal_callback(0, CLAIMER.to_string(), Some(7)), Ok(true));
    let here = "bounties".to_string();
    let reply = |id: u64, status: &str| Some(heroes::bounties::replies::Proposal {
        id,
        proposer: "bounties".to_string(),
        status: status.to_string(),
    });
    let receiver = Some(CLAIMER.to_string());
    assert_eq!(contract.after_check_bounty_payout_proposal(0, receiver.clone(), 7, &here, None, 30), Err(BountyError::PromiseFailed));
    assert_eq!(contract.after_check_bounty_payout_proposal(0, receiver.clone(), 7, &here, reply(8, "Approved"), 30), Err(BountyError::ProposalMismatch));
    assert_eq!(contract.after_check_bounty_payout_proposal(0, receiver.clone(), 7, &here, reply(7, "InProgress"), 30), Err(BountyError::ProposalStatusNotProcessed));
    let effects = contract.after_check_bounty_payout_proposal(0, receiver, 7, &here, reply(7, "Approved"), 30).unwrap();
    let (who, amount, _) = ft_transfer(&effects);
    assert_eq!((who.as_str(), amount), (CLAIMER, 1_800));
}

// After the penalty was raised above the fee, canceling still refunds what is left;
// the fee accounting takes the extra penalty from what it refunded before, and refuses
// where that is not enough.
#[test]
fn cancel_with_penalty_above_fee() {
    let mut contract = live_contract();
    for i in 0..4u64 {
        contract.ft_on_transfer(&ctx(TOKEN, 1, i), OWNER.to_string(), 2_200, message(None)).unwrap();
    }
    // The first cancellation refunds the whole fee.
    let effects = contract.bounty_cancel(&ctx(OWNER, 1, 10), 0).unwrap();
    assert_eq!(ft_transfer(&effects).1, 2_200);
    contract.after_refund_bounty_amount(0, true).unwrap();
    assert_eq!(platform_fees(&contract).refunded_amount, 220);

    let c = Config::default();
    contract.change_config(&ctx(ADMIN, 1, 20), ConfigCreate {
        bounty_claim_bond: c.bounty_claim_bond,
        bounty_forgiveness_period: c.bounty_forgiveness_period,
        period_for_opening_dispute: c.period_for_opening_dispute,
        platform_fee_percentage: c.platform_fee_percentage,
        validators_dao_fee_percentage: c.validators_dao_fee_percentage,
        penalty_platform_fee_percentage: c.platform_fee_percentage * 3 / 2,
        penalty_validators_dao_fee_percentage: 0,
        use_owners_whitelist: false,
    }).unwrap();

    // The penalty is one and a half times the fee of 220.
    let effects = contract.bounty_cancel(&ctx(OWNER, 1, 30), 1).unwrap();
    assert_eq!(ft_transfer(&effects).1, 1_980 + 220 - 330);
    contract.after_refund_bounty_amount(1, true).unwrap();
    assert_eq!(contract.get_bounty(1).unwrap().status, BountyStatus::Canceled);
    let fees = platform_fees(&contract);
    assert_eq!((fees.refunded_amount, fees.penalty_amount), (110, 330));

    // The third uses up what was refunded before; the fourth has too little left to
    // take the extra penalty.
    contract.bounty_cancel(&ctx(OWNER, 1, 40), 2).unwrap();
    contract.after_refund_bounty_amount(2, true).unwrap();
    assert_eq!(platform_fees(&contract).refunded_amount, 0);
    contract.bounty_cancel(&ctx(OWNER, 1, 50), 3).unwrap();
    assert_eq!(contract.after_refund_bounty_amount(3, true), Err(BountyError::ArithmeticOverflow));
    assert_eq!(contract.get_bounty(3).unwrap().status, BountyStatus::New);
}
