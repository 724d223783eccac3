//! A ledger of client accounts driven by a stream of deposit, withdrawal and
//! dispute events, with fixed-point amounts and a verified state machine.
pub mod account;
pub mod amount;
pub mod context;
pub mod laws;
pub mod processor;

pub use account::{Account, TransactionError};
pub use amount::{Float2PriceError, Price, PRICE_SCALAR};
pub use context::{
    DepositOrWithdraw, DisputeAction, TransactionContext, TransactionFlags, TransactionRecord,
};
pub use processor::{
    drain_step, update_accounts, TransactionEvent, TransactionProcessor, TransactionType,
};
