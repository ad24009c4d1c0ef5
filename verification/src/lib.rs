//! An append-only per-user trade ledger with admin-curated authorization and
//! deterministic record addressing.
//!
//! A global configuration names an admin and a whitelist of asset
//! identifiers.  Each user owns a monotonic trade counter; every successful
//! `log_trade` appends exactly one immutable record at an address derived
//! from the user and the counter value observed before the increment, and
//! emits a notification with the record's fields.

pub mod addresses;
pub mod encode;
pub mod errors;
pub mod hashing;
pub mod keys;
pub mod ops;
pub mod state;

pub use errors::ErrorCode;
pub use ops::{initialize, initialize_config, log_trade, log_trades};
pub use keys::Pubkey;
pub use state::{Config, StoredRecord, System, TradeEvent, TradeInput, TradeRecord, UserState};
