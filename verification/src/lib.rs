//! A fund-custody ledger for a single fundraising campaign.
//!
//! The ledger decides whether a donation, a withdrawal, a refund or a pause
//! is legal in the current state, names the transfer of value that has to be
//! made for it, and books the transfer once it has been made. Moving value,
//! reading the clock and storing the record are left to the caller.

pub mod accounts;
pub mod error;
pub mod history;
pub mod identity;
pub mod ledger;
pub mod state;
pub mod transfer;

pub use accounts::{Donate, Initialize, Refund, ToggleActive, Withdraw};
pub use error::SahayogError;
pub use identity::Identity;
pub use ledger::{donate, initialize, refund, toggle_active, withdraw};
pub use state::{
    DonationState, MAX_CAMPAIGN_DURATION, MAX_DONATION_LAMPORTS, MAX_MESSAGE_LENGTH,
    MIN_DONATION_LAMPORTS, Phase,
};
pub use transfer::{settle, Event, Transfer, TransferKind};
