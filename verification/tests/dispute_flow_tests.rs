use heroes::bounties::bounty::BountyCreate;
use heroes::bounties::claim::BountyAction;
use heroes::bounties::config::Config;
use heroes::bounties::contract::BountiesContract;
use heroes::bounties::create::FtMessage;
use heroes::bounties::effects::{CallContext, Callback, Effect};
use heroes::bounties::types::{
    BountyMetadata, BountyStatus, ClaimStatus, ClaimerApproval, ContractStatus, Deadline, KycConfig, ReviewersParams,
    ValidatorsDaoParams,
};
use heroes::disputes::contract::DisputesContract;
use heroes::disputes::flow::{DisputeCallback, DisputeEffect};
use heroes::disputes::types::{DisputeCreate, DisputeStatus};

const TOKEN: &str = "token";
const DAO: &str = "validators";
const DISPUTE_DAO: &str = "arbiters";
const BOUNTIES: &str = "bounties";
const DISPUTES: &str = "disputes";
const ADMIN: &str = "admin";
const OWNER: &str = "owner";
const CLAIMER: &str = "freelancer";
const DAY: u64 = 1_000_000_000 * 60 * 60 * 24;

fn ctx(predecessor: &str, attached_deposit: u128, block_timestamp: u64) -> CallContext {
    CallContext { predecessor: predecessor.to_string(), block_timestamp, attached_deposit }
}

fn bounty_message() -> FtMessage {
    FtMessage::BountyCreate(BountyCreate {
        metadata: BountyMetadata {
            title: "Test bounty title".to_string(),
            description: "Test bounty description".to_string(),
            category: "Marketing".to_string(),
            attachments: None,
            experience: None,
            tags: None,
            acceptance_criteria: None,
            contact_details: None,
        },
        deadline: Deadline::MaxDeadline { max_deadline: 7 * DAY },
        claimer_approval: ClaimerApproval::WithoutApproval,
        reviewers: Some(ReviewersParams::ValidatorsDao {
            validators_dao: ValidatorsDaoParams {
                account_id: DAO.to_string(),
                add_proposal_bond: 1,
                gas_for_add_proposal: None,
                gas_for_claim_approval: None,
                gas_for_claimer_approval: None,
            },
        }),
        kyc_config: Some(KycConfig::KycNotRequired),
        postpaid: None,
        multitasking: None,
    })
}

/// A bounty reviewed by a validators DAO whose result the DAO rejected; the bounties
/// contract uses the disputes contract.
fn rejected_claim() -> BountiesContract {
    let mut bounties =
        BountiesContract::new(vec![ADMIN.to_string()], None, None, Some(DISPUTES.to_string()), None, None).unwrap();
    bounties.set_status(ContractStatus::Live).unwrap();
    bounties.add_token_id(&ctx(ADMIN, 1, 0), TOKEN.to_string(), None).unwrap();
    assert!(bounties.after_get_ft_metadata(true, TOKEN.to_string(), None));
    bounties.ft_on_transfer(&ctx(TOKEN, 1, 0), OWNER.to_string(), 2_200, bounty_message()).unwrap();
    let bond = Config::default().bounty_claim_bond;
    bounties.bounty_claim(&ctx(CLAIMER, bond, 10), 0, 2 * DAY, "Test claim".to_string(), None).unwrap();
    bounties.bounty_done(&ctx(CLAIMER, 1, 20), 0, "test description".to_string()).unwrap();
    assert_eq!(bounties.on_added_proposal_callback(0, CLAIMER.to_string(), Some(1)), Ok(true));
    bounties.bounty_action(&ctx(DAO, 1, 30), 0, BountyAction::ClaimRejected { receiver_id: CLAIMER.to_string() }).unwrap();
    assert_eq!(bounties.get_bounty_claims(&CLAIMER.to_string())[0].status, ClaimStatus::Rejected);
    assert_eq!(bounties.get_bounty(0).unwrap().status, BountyStatus::Claimed);
    bounties
}

/// The claimant opens a dispute; the disputes contract records it under id 0.
fn opened_dispute(bounties: &mut BountiesContract, disputes: &mut DisputesContract) {
    let effects = bounties.open_dispute(&ctx(CLAIMER, 1, 40), 0, "Dispute description".to_string()).unwrap();
    let create = effects
        .iter()
        .find_map(|e| match e {
            Effect::CreateDispute { dispute_contract, bounty_id, description, claimer, project_owner_delegate, then } => {
                assert_eq!(dispute_contract, DISPUTES);
                assert_eq!(*then, Callback::AfterCreateDispute { id: 0, claimer: CLAIMER.to_string() });
                Some(DisputeCreate {
                    bounty_id: *bounty_id,
                    description: description.clone(),
                    receiver_id: claimer.clone(),
                    project_owner_delegate: project_owner_delegate.clone(),
                    claim_number: None,
                })
            },
            _ => None,
        })
        .unwrap();
    assert_eq!(create.receiver_id, CLAIMER);
    // With a validators DAO the DAO speaks for the owner.
    assert_eq!(create.project_owner_delegate, DAO);
    let dispute_id = disputes.create_dispute(&ctx(BOUNTIES, 0, 40), create).unwrap();
    assert_eq!(dispute_id, 0);
    assert_eq!(bounties.after_create_dispute(0, CLAIMER.to_string(), Some(dispute_id)), Ok(true));
    assert_eq!(bounties.get_bounty_claims(&CLAIMER.to_string())[0].status, ClaimStatus::Disputed);
    assert_eq!(disputes.get_dispute(0).unwrap().status, DisputeStatus::New);
}

fn disputes_contract() -> DisputesContract {
    let mut disputes =
        DisputesContract::new(BOUNTIES.to_string(), DISPUTE_DAO.to_string(), vec![ADMIN.to_string()], None).unwrap();
    disputes.set_status(ContractStatus::Live).unwrap();
    disputes
}

// A rejected result goes to a dispute; after the argument period it is escalated to the
// dispute DAO, which decides for the claimant: the claimant is paid and the bounty is
// completed.
#[test]
fn dispute_decided_for_the_claimant() {
    let mut bounties = rejected_claim();
    let mut disputes = disputes_contract();
    opened_dispute(&mut bounties, &mut disputes);

    // Escalation waits for the end of the argument period.
    assert!(disputes.escalation(&ctx(CLAIMER, 0, 50), 0).is_err());
    let later = 40 + 10 * DAY + 1;
    let effect = disputes.escalation(&ctx(CLAIMER, 0, later), 0).unwrap();
    assert!(matches!(&effect, DisputeEffect::AddProposal { dispute_dao, dispute_id: 0, then: DisputeCallback::OnAddedProposal { id: 0 }, .. }
        if dispute_dao == DISPUTE_DAO));
    assert_eq!(disputes.on_added_proposal_callback(later, 0, Some(1)), Ok(true));
    let dispute = disputes.get_dispute(0).unwrap();
    assert_eq!((dispute.status, dispute.proposal_id), (DisputeStatus::DecisionPending, Some(1)));

    // Only the dispute DAO decides.
    assert!(disputes.result_of_dispute(&ctx(OWNER, 1, later + 10), 0, false).is_err());
    let effect = disputes.result_of_dispute(&ctx(DISPUTE_DAO, 1, later + 10), 0, true).unwrap();
    assert_eq!(effect, DisputeEffect::DisputeResult {
        bounties_contract: BOUNTIES.to_string(),
        bounty_id: 0,
        receiver_id: CLAIMER.to_string(),
        claim_number: None,
        success: true,
        then: DisputeCallback::AfterClaimApproval { id: 0, success: true, canceled: false },
    });

    // Only the disputes contract reports the outcome.
    assert!(bounties.dispute_result(&ctx(OWNER, 1, later + 20), 0, CLAIMER.to_string(), true).is_err());
    let effects = bounties.dispute_result(&ctx(DISPUTES, 1, later + 20), 0, CLAIMER.to_string(), true).unwrap();
    assert!(effects.iter().any(|e| matches!(e,
        Effect::FtTransfer { receiver_id, amount: 1_800, .. } if receiver_id == CLAIMER)));
    let (done, _) = bounties.after_ft_transfer(0, Some(CLAIMER.to_string()), true, later + 30).unwrap();
    assert!(done);
    assert_eq!(bounties.get_bounty(0).unwrap().status, BountyStatus::Completed);
    assert_eq!(bounties.get_bounty_claims(&CLAIMER.to_string())[0].status, ClaimStatus::Approved);

    assert_eq!(disputes.after_claim_approval(true, 0, true, false), Ok(true));
    assert_eq!(disputes.get_dispute(0).unwrap().status, DisputeStatus::InFavorOfClaimer);
    // A dispute with an outcome is not decided again.
    assert!(disputes.result_of_dispute(&ctx(DISPUTE_DAO, 1, later + 40), 0, false).is_err());
}

// The dispute DAO decides for the project owner: the bounty goes back to its owner's
// decision and the claim is not paid.
#[test]
fn dispute_decided_for_the_owner() {
    let mut bounties = rejected_claim();
    let mut disputes = disputes_contract();
    opened_dispute(&mut bounties, &mut disputes);
    let later = 40 + 10 * DAY + 1;
    disputes.escalation(&ctx(OWNER, 0, later), 0).unwrap();
    disputes.on_added_proposal_callback(later, 0, Some(2)).unwrap();
    let effect = disputes.result_of_dispute(&ctx(DISPUTE_DAO, 1, later + 10), 0, false).unwrap();
    assert!(matches!(effect, DisputeEffect::DisputeResult { success: false, .. }));
    let effects = bounties.dispute_result(&ctx(DISPUTES, 1, later + 20), 0, CLAIMER.to_string(), false).unwrap();
    assert!(!effects.iter().any(|e| matches!(e, Effect::FtTransfer { .. })));
    assert_eq!(bounties.get_bounty_claims(&CLAIMER.to_string())[0].status, ClaimStatus::NotCompleted);
    assert_eq!(bounties.get_bounty(0).unwrap().status, BountyStatus::New);
    let bond = Config::default().bounty_claim_bond;
    assert!(effects.contains(&Effect::Transfer { receiver_id: CLAIMER.to_string(), amount: bond }));
    assert_eq!(bounties.locked_amount, 0);
    assert_eq!(disputes.after_claim_approval(true, 0, false, false), Ok(true));
    assert_eq!(disputes.get_dispute(0).unwrap().status, DisputeStatus::InFavorOfProjectOwner);
}
