//! On-chain logic of the Kora protocol: the price oracle, the treasury, and
//! the error codes, events, audit trail and reentrancy lock they share.

pub mod admin_log;
pub mod audit;
pub mod conversion_laws;
pub mod effect_laws;
pub mod errors;
pub mod events;
pub mod filters;
pub mod host;
pub mod log_laws;
pub mod median;
pub mod oracle_laws;
pub mod price_book;
pub mod price_laws;
pub mod price_oracle;
pub mod reentrancy;
pub mod table;
pub mod token_account;
pub mod treasury;
pub mod treasury_laws;
pub mod types;
pub mod validation;
pub mod withdrawal_laws;
