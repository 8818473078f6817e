//! A bearer-style escrow ("paper wallet") over a ledger of accounts.
//!
//! A depositor funds a holder record whose address is derived from a secret
//! code and a redemption secret; whoever later presents the same pair can
//! drain the record to their own account.
//!
//! Addressing policy: bearer-by-secret. Both operations derive the holder's
//! address from the seeds `[code bytes, redemption secret]`, so possession of
//! the pair, not the depositor's identity, is what grants redemption.
pub mod account;
pub mod address;
pub mod wallet;

pub use account::{transfer_lamports, AccountInfo, Holder, PaperWalletError};
pub use address::{find_program_address, Address};
pub use wallet::{redeem, store, Redeem, Store};
