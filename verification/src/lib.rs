//! Validation and value-transfer orchestration core for an account-based
//! ledger: program-address derivation and verification, account relationship
//! validation, transfer-plan validation, and all-or-nothing orchestration of
//! collaborator calls (token transfers, a swap, a bridge deposit).

pub mod accounts;
pub mod config;
pub mod error;
pub mod identity;
pub mod ledger;
pub mod orchestrate;
pub mod plan;
pub mod processor;
pub mod raydium;
pub mod router;
pub mod wormhole;
