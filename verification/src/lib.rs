//! An escrow ledger: custodial balances per account, and orders that move
//! value out of a maker's balance once an authorized caller executes them.
//!
//! The crate is host-agnostic. The caller's identity, the attached amount and
//! the current time are ordinary arguments, and a transfer that an operation
//! asks for is an ordinary return value which the host carries out.

pub mod auth;
pub mod contract;
pub mod error;
pub mod laws;
pub mod ledger;
pub mod order;
pub mod state;
pub mod table;

pub use contract::Contract;
pub use error::VaultError;
pub use ledger::Transfer;
pub use order::{Order, OrderStatus, OrderView, Settlement};
pub use state::VaultState;
