//! The KYC whitelist: accounts verified by providers, as service profiles trust them.
pub mod types;
pub mod contract;
