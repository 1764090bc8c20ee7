//! A fee-gated messaging ledger.

pub mod account;
pub mod error;
pub mod event;
pub mod fees;
pub mod ledger;

pub use account::AccountId;
pub use error::Error;
pub use event::{MessageSent, Transfer};
pub use ledger::AzeroMessage;
