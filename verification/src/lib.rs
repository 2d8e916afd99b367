//! A verified fungible-token ledger engine.
//!
//! The engine models the durable state of a token contract — admin identity,
//! metadata, pause switch, per-account balances and the aggregate supply — as
//! an explicit [`ledger::Ledger`] value, and every operation (initialize,
//! transfer, mint, burn, pause, unpause and the read accessors) as a verified
//! function on it. Authorization is an explicit capability: a host-verified
//! [`account::AuthProof`] for one account is handed to each gated operation.
//!
//! The central invariant, kept by every operation, is that the total supply
//! equals the sum of all balances and that no balance is ever negative.
//!
//! Three contract front ends wrap the engine: [`token_contract::TokenContract`]
//! reports violated preconditions as typed [`error::Error`] values, while
//! [`token_advanced::TokenAdvanced`] and [`token_basic::TokenBasic`] follow the
//! abort style and state the same conditions as preconditions instead.

pub mod account;
pub mod entries;
pub mod error;
pub mod laws;
pub mod ledger;
pub mod token_advanced;
pub mod token_basic;
pub mod token_contract;

pub use account::Account;
pub use account::AuthProof;
pub use error::Error;
pub use ledger::Ledger;
pub use token_advanced::TokenAdvanced;
pub use token_basic::TokenBasic;
pub use token_contract::TokenContract;
pub use token_contract::TokenMetadata;
