//! Leveraged yield-vault core: fixed-point valuation, leverage allocation,
//! share accounting, the multi-stage deposit protocol, and the orchestration
//! of external leveraged-farm calls.

pub mod address;
pub mod allocator;
pub mod chamber;
pub mod chamber_config;
pub mod chamber_market;
pub mod chamber_strategy;
pub mod chamber_vault;
pub mod cpi;
pub mod decimal;
pub mod error;
pub mod oracle;
pub mod processor;
pub mod shares;
pub mod user_account;
pub mod user_account_status;
pub mod utils;
pub mod valuation;
