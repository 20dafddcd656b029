//! The disputes contract: a dispute between a claimant and a bounty owner is argued,
//! escalated to a DAO, decided and reported back to the bounties contract.
pub mod types;
pub mod contract;
pub mod flow;
