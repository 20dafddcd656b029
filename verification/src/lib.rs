//! Verified core of the HEROES contracts: bounties with claims, fees and
//! disputes, a reputation ledger, a dispute tracker and a KYC whitelist.
pub mod accounts;

pub mod bounties;
pub mod reputation;
pub mod disputes;
pub mod kyc;
