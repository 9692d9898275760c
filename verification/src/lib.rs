//! An escrow ledger for a single crowdfunding campaign.
//!
//! A campaign collects donations towards a goal until a deadline. If the goal
//! is reached, the owner may withdraw what was raised, once; if the deadline
//! passes first, every donor may take the own contribution back.
//!
//! The crate is the engine behind such a campaign: the campaign's record, the
//! ledger of contributions, and the rules by which donations, withdrawals and
//! refunds are taken or turned down. It reads no clock, checks no signature
//! and moves no funds. Each operation is given the clock's reading and the
//! answers of the parties that do these things, and says which transfer it
//! calls for.
//!
//! - [`model`] states the campaign as mathematics: a state and, for each
//!   operation, the next state and the result.
//! - [`contract`] holds the executable engine, proved to compute what the
//!   model says.
//! - [`laws`] proves what holds of every campaign: the total is the sum of the
//!   ledger, funds are paid out at most once, the status never moves back.
//! - [`ledger`] keeps the contributions in a map of the Soroban host, which
//!   [`host`] describes.

pub mod account;
pub mod contract;
pub mod error;
pub mod host;
pub mod laws;
pub mod ledger;
pub mod model;
pub mod progress;
pub mod status;
pub mod transfer;

pub use account::AccountId;
pub use contract::CampaignRecord;
pub use contract::CrowdfundingContract;
pub use error::EscrowError;
pub use ledger::DonationLedger;
pub use progress::progress_percentage;
pub use status::CampaignStatus;
pub use transfer::AuthProof;
pub use transfer::Party;
pub use transfer::Transfer;
pub use transfer::TransferOutcome;
