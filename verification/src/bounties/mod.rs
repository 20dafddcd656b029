//! The bounties contract.
pub mod types;
pub mod errors;
pub mod multitasking;
pub mod config;
pub mod fees;
pub mod bounty;
pub mod claim;
pub mod effects;
pub mod contract;
pub mod admin;
pub mod create;
pub mod claims;
pub mod approval;
pub mod claiming;
pub mod decision;
pub mod closure;
pub mod work;
pub mod done;
pub mod payout;
pub mod action;
pub mod finalize;
pub mod update;
pub mod cancel;
pub mod payment;
pub mod owner;
pub mod withdrawal;
pub mod replies;
pub mod dispute_link;
pub mod subtasks;
pub mod versions;
pub mod laws;
