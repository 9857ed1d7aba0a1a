//! A single-ledger wagering engine: accounts deposit value into a balance and
//! stake one fixed unit of it per play against a fixed-probability payout.
//!
//! The host environment supplies the calling account, the attached deposit and
//! one random byte per play; the library keeps the ledger and decides every
//! transition.

pub mod account;
pub mod error;
pub mod ledger;
pub mod machine;
pub mod payout;

pub use error::SlotError;
pub use machine::SlotMachine;
pub use payout::{resolve_play, ONE_NEAR, PAYOUT_MULTIPLIER, WIN_THRESHOLD};
