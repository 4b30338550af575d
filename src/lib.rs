//! Custody vaults and an append-only message log, both keyed by program-derived
//! addresses.

pub mod address;
pub mod log;
pub mod vault;

pub use address::{to_le_bytes, Address, Namespace};
pub use log::{
    global_address, initialize, is_blank_str, message_address, post_message, GlobalState, Initialize, Message,
    MessageError, PostMessage, MAX_CONTENT_BYTES,
};
pub use vault::{
    deposit, vault_address, withdraw, Deposit, DepositEvent, LedgerAccount, Vault, VaultError, Withdraw,
    WithdrawEvent,
};
