use heroes::accounts::AccountId;
use heroes::bounties::effects::CallContext;
use heroes::kyc::contract::{KycError, KycWhitelist};
use heroes::kyc::types::{ProviderDetails, ServiceProfile, VerificationType, WhitelistEntry};

fn accounts(i: usize) -> AccountId {
    ["alice", "bob", "charlie", "danny", "eugene", "fargo"][i].to_string()
}

fn admin_account() -> AccountId {
    accounts(0)
}

fn service_account() -> AccountId {
    accounts(1)
}

fn second_service_account() -> AccountId {
    accounts(2)
}

fn user_account() -> AccountId {
    accounts(3)
}

fn from(account: &AccountId) -> CallContext {
    CallContext { predecessor: account.clone(), block_timestamp: 0, attached_deposit: 0 }
}

fn heroes_profile(account: AccountId, name: &str) -> ServiceProfile {
    ServiceProfile { service_name: name.to_string(), service_account: account, providers: vec!["fractal".to_string()] }
}

#[test]
fn test_whitelist_flow() {
    let mut contract = KycWhitelist::new(admin_account(), None);
    let admin = from(&admin_account());

    contract.create_provider(&admin, ProviderDetails { name: "fractal".to_string(), enabled: true }).unwrap();
    assert_eq!(contract.get_config().providers[0], ProviderDetails { name: "fractal".to_string(), enabled: true });

    contract.create_service_profile(&admin, heroes_profile(service_account(), "heroes")).unwrap();
    assert_eq!(contract.get_config().service_profiles[0], heroes_profile(service_account(), "heroes"));

    contract.set_default_profile(&admin, Some("heroes".to_string())).unwrap();
    assert_eq!(contract.get_config().default_profile, Some("heroes".to_string()));

    let service = from(&service_account());
    let heroes = Some("heroes".to_string());
    assert!(!contract.is_whitelisted(0, &user_account(), &heroes).unwrap());
    contract.add_account(&service, user_account(), VerificationType::KYC, "fractal".to_string(), None).unwrap();
    assert!(contract.is_whitelisted(0, &user_account(), &heroes).unwrap());
    assert!(contract.is_whitelisted(0, &user_account(), &None).unwrap());
    assert_eq!(
        contract.get_whitelist_entry(&user_account(), &heroes).unwrap(),
        vec![WhitelistEntry {
            verification_date: 0,
            verification_type: VerificationType::KYC,
            provider: "fractal".to_string(),
            ident_document_date_of_expiry: None,
        }]
    );

    contract.remove_account(&service, user_account(), VerificationType::KYC, "fractal".to_string()).unwrap();
    assert!(!contract.is_whitelisted(0, &user_account(), &heroes).unwrap());
    assert!(!contract.is_whitelisted(0, &user_account(), &None).unwrap());

    contract.update_service_profile(&admin, Some("heroes".to_string()), None, heroes_profile(second_service_account(), "heroes")).unwrap();
    assert_eq!(contract.get_config().service_profiles[0], heroes_profile(second_service_account(), "heroes"));

    contract.remove_service_profile(&admin, Some("heroes".to_string()), None).unwrap();
    assert!(contract.get_config().service_profiles.is_empty());

    contract.create_service_profile(&admin, heroes_profile(second_service_account(), "heroes2")).unwrap();
    assert_eq!(contract.get_config().service_profiles[0], heroes_profile(second_service_account(), "heroes2"));

    contract.update_service_profile(&admin, None, Some(second_service_account()), heroes_profile(service_account(), "heroes3")).unwrap();
    assert_eq!(contract.get_config().service_profiles[0], heroes_profile(service_account(), "heroes3"));

    contract.remove_service_profile(&admin, None, Some(service_account())).unwrap();
    assert!(contract.get_config().service_profiles.is_empty());

    contract.create_provider(&admin, ProviderDetails { name: "fractal+idOS".to_string(), enabled: true }).unwrap();
    assert_eq!(contract.get_config().providers.len(), 2);
    assert_eq!(contract.get_config().providers[1], ProviderDetails { name: "fractal+idOS".to_string(), enabled: true });

    contract.update_provider(&admin, "fractal+idOS".to_string(), ProviderDetails { name: "fractal+idOS".to_string(), enabled: false }).unwrap();
    assert_eq!(contract.get_config().providers[1], ProviderDetails { name: "fractal+idOS".to_string(), enabled: false });

    contract.remove_provider(&admin, "fractal+idOS".to_string()).unwrap();
    assert_eq!(contract.get_config().providers.len(), 1);

    contract.remove_provider(&admin, "fractal".to_string()).unwrap();
    assert!(contract.get_config().providers.is_empty());
}

#[test]
fn test_update_service_account_as_non_admin() {
    let mut contract = KycWhitelist::new(admin_account(), None);
    contract.create_provider(&from(&admin_account()), ProviderDetails { name: "fractal".to_string(), enabled: true }).unwrap();
    let r = contract.create_service_profile(&from(&service_account()), heroes_profile(service_account(), "heroes"));
    assert_eq!(r, Err(KycError::NotAdmin));
    assert_eq!(r.unwrap_err().message(), "Predecessor is not whitelist administrator");
}

#[test]
fn test_service_account_is_not_set() {
    let mut contract = KycWhitelist::new(admin_account(), None);
    let r = contract.add_account(&from(&service_account()), user_account(), VerificationType::KYC, "fractal".to_string(), None);
    assert_eq!(r, Err(KycError::ProfileNotFound));
}

#[test]
fn test_whitelist_using_non_service_account() {
    let mut contract = KycWhitelist::new(admin_account(), None);
    let admin = from(&admin_account());
    contract.create_provider(&admin, ProviderDetails { name: "fractal".to_string(), enabled: true }).unwrap();
    contract.create_service_profile(&admin, heroes_profile(service_account(), "heroes")).unwrap();
    let r = contract.add_account(&from(&user_account()), user_account(), VerificationType::KYC, "fractal".to_string(), None);
    assert_eq!(r, Err(KycError::ProfileNotFound));
    assert_eq!(r.unwrap_err().message(), "Service profile not found");
}

#[test]
fn test_whitelist_default_service_is_not_specified() {
    let mut contract = KycWhitelist::new(admin_account(), None);
    let admin = from(&admin_account());
    contract.create_provider(&admin, ProviderDetails { name: "fractal".to_string(), enabled: true }).unwrap();
    contract.create_service_profile(&admin, heroes_profile(service_account(), "heroes")).unwrap();
    contract.add_account(&from(&service_account()), user_account(), VerificationType::KYC, "fractal".to_string(), None).unwrap();
    let r = contract.is_whitelisted(0, &user_account(), &None);
    assert_eq!(r, Err(KycError::ServiceNameRequired));
}

fn ready_whitelist() -> KycWhitelist {
    let mut contract = KycWhitelist::new(admin_account(), None);
    let admin = from(&admin_account());
    contract.create_provider(&admin, ProviderDetails { name: "fractal".to_string(), enabled: true }).unwrap();
    contract.create_provider(&admin, ProviderDetails { name: "other".to_string(), enabled: true }).unwrap();
    contract.create_service_profile(&admin, heroes_profile(service_account(), "heroes")).unwrap();
    contract.set_default_profile(&admin, Some("heroes".to_string())).unwrap();
    contract
}

// Recording and then removing the same verification gives back the entries as they were.
#[test]
fn kyc_add_then_remove_restores_entries() {
    let mut contract = ready_whitelist();
    let service = CallContext { predecessor: service_account(), block_timestamp: 5, attached_deposit: 0 };
    contract.add_account(&service, user_account(), VerificationType::KYB, "fractal".to_string(), None).unwrap();
    let before = contract.whitelist.get(user_account().as_str()).unwrap().clone();
    contract.add_account(&service, user_account(), VerificationType::KYB, "fractal".to_string(), Some(9)).unwrap();
    assert_eq!(contract.whitelist.get(user_account().as_str()).unwrap().len(), 2);
    assert_eq!(contract.whitelist.get(user_account().as_str()).unwrap()[0].ident_document_date_of_expiry, Some(9));
    contract.remove_account(&service, user_account(), VerificationType::KYB, "fractal".to_string()).unwrap();
    assert_eq!(*contract.whitelist.get(user_account().as_str()).unwrap(), before);
}

#[test]
fn kyc_expired_document_does_not_count() {
    let mut contract = ready_whitelist();
    let service = from(&service_account());
    contract.add_account(&service, user_account(), VerificationType::KYC, "fractal".to_string(), Some(100)).unwrap();
    assert!(contract.is_whitelisted(99, &user_account(), &None).unwrap());
    assert!(!contract.is_whitelisted(100, &user_account(), &None).unwrap());
    let admin = from(&admin_account());
    contract.update_provider(&admin, "fractal".to_string(), ProviderDetails { name: "fractal".to_string(), enabled: false }).unwrap();
    assert!(!contract.is_whitelisted(0, &user_account(), &None).unwrap());
    assert!(contract.get_whitelist_entry(&user_account(), &None).unwrap().is_empty());
}

#[test]
fn kyc_provider_not_in_profile_is_refused() {
    let mut contract = ready_whitelist();
    let r = contract.add_account(&from(&service_account()), user_account(), VerificationType::KYC, "other".to_string(), None);
    assert_eq!(r, Err(KycError::ProviderNotInUse));
    let admin = from(&admin_account());
    assert_eq!(contract.create_provider(&admin, ProviderDetails { name: "other".to_string(), enabled: false }), Err(KycError::ProviderExists));
    assert_eq!(contract.update_provider(&admin, "none".to_string(), ProviderDetails { name: "none".to_string(), enabled: false }), Err(KycError::ProviderNotFound));
    assert_eq!(contract.create_service_profile(&admin, heroes_profile(accounts(4), "heroes")), Err(KycError::ProfileExists));
    assert_eq!(contract.remove_service_profile(&admin, None, None), Err(KycError::ExpectedNameOrAccount));
    contract.create_service_profile(&admin, heroes_profile(accounts(4), "second")).unwrap();
    assert_eq!(
        contract.update_service_profile(&admin, Some("second".to_string()), None, heroes_profile(service_account(), "second")),
        Err(KycError::AccountInOtherProfile)
    );
    assert_eq!(
        contract.update_service_profile(&admin, Some("second".to_string()), None, heroes_profile(accounts(4), "heroes")),
        Err(KycError::NameInOtherProfile)
    );
}
