use heroes::bounties::bounty::BountyCreate;
use heroes::bounties::config::Config;
use heroes::bounties::contract::BountiesContract;
use heroes::bounties::create::FtMessage;
use heroes::bounties::effects::{CallContext, Callback, Effect};
use heroes::bounties::types::{
    BountyMetadata, BountyStatus, ClaimStatus, ClaimerApproval, ContractStatus, Deadline, DefermentOfKYC, KycConfig,
    KycVerificationMethod, PlaceOfCheckKYC,
};
use heroes::kyc::contract::KycWhitelist;
use heroes::kyc::types::{ProviderDetails, ServiceProfile, VerificationType};

const TOKEN: &str = "token";
const KYC: &str = "kyc";
const KYC_ADMIN: &str = "kyc_admin";
const SERVICE: &str = "service";
const ADMIN: &str = "admin";
const OWNER: &str = "owner";
const DAY: u64 = 1_000_000_000 * 60 * 60 * 24;

fn ctx(predecessor: &str, attached_deposit: u128, block_timestamp: u64) -> CallContext {
    CallContext { predecessor: predecessor.to_string(), block_timestamp, attached_deposit }
}

/// A whitelist with one enabled provider, trusted by the default profile of `SERVICE`.
fn whitelist() -> KycWhitelist {
    let mut kyc = KycWhitelist::new(KYC_ADMIN.to_string(), None);
    let admin = ctx(KYC_ADMIN, 0, 0);
    kyc.create_provider(&admin, ProviderDetails { name: "fractal".to_string(), enabled: true }).unwrap();
    kyc.create_service_profile(&admin, ServiceProfile {
        service_name: "heroes".to_string(),
        service_account: SERVICE.to_string(),
        providers: vec!["fractal".to_string()],
    })
    .unwrap();
    kyc.set_default_profile(&admin, Some("heroes".to_string())).unwrap();
    kyc
}

fn bounties() -> BountiesContract {
    let mut c = BountiesContract::new(vec![ADMIN.to_string()], None, None, None, Some(KYC.to_string()), None).unwrap();
    c.set_status(ContractStatus::Live).unwrap();
    c.add_token_id(&ctx(ADMIN, 1, 0), TOKEN.to_string(), None).unwrap();
    c.after_get_ft_metadata(true, TOKEN.to_string(), None);
    c
}

fn kyc_bounty(c: &mut BountiesContract, claimer_approval: ClaimerApproval, kyc_verification_method: KycVerificationMethod) {
    let create = BountyCreate {
        metadata: BountyMetadata {
            title: "Test bounty title".to_string(),
            description: "Test bounty description".to_string(),
            category: "Marketing".to_string(),
            attachments: None,
            experience: None,
            tags: None,
            acceptance_criteria: None,
            contact_details: None,
        },
        deadline: Deadline::MaxDeadline { max_deadline: 7 * DAY },
        claimer_approval,
        reviewers: None,
        kyc_config: Some(KycConfig::KycRequired { kyc_verification_method }),
        postpaid: None,
        multitasking: None,
    };
    c.ft_on_transfer(&ctx(TOKEN, 1, 0), OWNER.to_string(), 2_200, FtMessage::BountyCreate(create)).unwrap();
}

/// The one whitelist query among `effects`: the account asked about and where the
/// answer goes.
fn query(effects: &[Effect]) -> (String, Callback) {
    match effects {
        [Effect::IsWhitelisted { kyc_whitelist_contract, account_id, then }] => {
            assert_eq!(kyc_whitelist_contract, KYC);
            (account_id.clone(), then.clone())
        },
        _ => panic!("expected one whitelist query, got {:?}", effects),
    }
}

/// Hands the whitelist's answer for `then` back to the bounties contract.
fn answer(c: &mut BountiesContract, kyc: &KycWhitelist, then: Callback, now: u64) -> bool {
    match then {
        Callback::AfterCheckIfWhitelisted { id, claimer, place_of_check, slot } => {
            let is_whitelisted = kyc.is_whitelisted(now, &claimer, &None).unwrap();
            c.after_check_if_whitelisted(id, claimer, place_of_check, slot, Some(is_whitelisted), now).is_ok()
        },
        other => panic!("unexpected callback {:?}", other),
    }
}

// A claim on a bounty that asks for KYC when claiming is created only for a whitelisted
// claimant.
#[test]
fn kyc_when_creating_claim() {
    let mut kyc = whitelist();
    let mut c = bounties();
    kyc_bounty(&mut c, ClaimerApproval::WithoutApproval, KycVerificationMethod::WhenCreatingClaim);
    let bond = Config::default().bounty_claim_bond;

    let effects = c.bounty_claim(&ctx("f8", bond, 10), 0, 2 * DAY, "Test claim".to_string(), None).unwrap();
    let (account, then) = query(&effects);
    assert_eq!(account, "f8");
    assert!(matches!(&then, Callback::AfterCheckIfWhitelisted { place_of_check: PlaceOfCheckKYC::CreatingClaim { .. }, .. }));
    assert!(!answer(&mut c, &kyc, then, 11));
    assert!(c.get_bounty_claims_by_id(0).is_empty());

    assert_eq!(kyc.add_account(&ctx(SERVICE, 0, 12), "f8".to_string(), VerificationType::KYC, "fractal".to_string(), None), Ok(true));
    let effects = c.bounty_claim(&ctx("f8", bond, 13), 0, 2 * DAY, "Test claim".to_string(), None).unwrap();
    let (_, then) = query(&effects);
    assert!(answer(&mut c, &kyc, then, 14));
    let claims = c.get_bounty_claims_by_id(0);
    assert_eq!(claims.len(), 1);
    assert_eq!(claims[0].0, "f8");
    assert_eq!(claims[0].1.status, ClaimStatus::InProgress);
    assert_eq!(c.get_bounty(0).unwrap().status, BountyStatus::Claimed);
}

// On a bounty that asks for KYC when a claim is approved, the owner approves a claimant
// who is not whitelisted only by deferring the check; the claimant then reports the
// work done only once whitelisted.
#[test]
fn kyc_during_claim_approval() {
    let mut kyc = whitelist();
    let mut c = bounties();
    kyc_bounty(&mut c, ClaimerApproval::MultipleClaims, KycVerificationMethod::DuringClaimApproval);
    let bond = Config::default().bounty_claim_bond;

    let effects = c.bounty_claim(&ctx("f9", bond, 10), 0, 2 * DAY, "Test claim".to_string(), None).unwrap();
    assert!(!effects.iter().any(|e| matches!(e, Effect::IsWhitelisted { .. })));
    assert_eq!(c.get_bounty_claims_by_id(0)[0].1.status, ClaimStatus::New);

    let effects = c.decision_on_claim(&ctx(OWNER, 1, 20), 0, "f9".to_string(), true, None).unwrap();
    let (_, then) = query(&effects);
    assert!(!answer(&mut c, &kyc, then, 21));
    assert_eq!(c.get_bounty_claims_by_id(0)[0].1.status, ClaimStatus::New);

    let effects = c
        .decision_on_claim(&ctx(OWNER, 1, 30), 0, "f9".to_string(), true, Some(DefermentOfKYC::BeforeDeadline))
        .unwrap();
    assert!(!effects.iter().any(|e| matches!(e, Effect::IsWhitelisted { .. })));
    assert_eq!(c.get_bounty_claims_by_id(0)[0].1.status, ClaimStatus::InProgress);

    let effects = c.bounty_done(&ctx("f9", 1, 40), 0, "test description".to_string()).unwrap();
    let (_, then) = query(&effects);
    assert!(!answer(&mut c, &kyc, then, 41));
    assert_eq!(c.get_bounty_claims_by_id(0)[0].1.status, ClaimStatus::InProgress);

    kyc.add_account(&ctx(SERVICE, 0, 42), "f9".to_string(), VerificationType::KYC, "fractal".to_string(), None).unwrap();
    let effects = c.bounty_done(&ctx("f9", 1, 43), 0, "test description".to_string()).unwrap();
    let (_, then) = query(&effects);
    assert!(answer(&mut c, &kyc, then, 44));
    assert_eq!(c.get_bounty_claims_by_id(0)[0].1.status, ClaimStatus::Completed);
}

// A verification whose document has expired no longer counts.
#[test]
fn expired_verification_does_not_count() {
    let mut kyc = whitelist();
    kyc.add_account(&ctx(SERVICE, 0, 0), "f10".to_string(), VerificationType::KYC, "fractal".to_string(), Some(100)).unwrap();
    assert_eq!(kyc.is_whitelisted(99, &"f10".to_string(), &None), Ok(true));
    assert_eq!(kyc.is_whitelisted(100, &"f10".to_string(), &None), Ok(false));
}
