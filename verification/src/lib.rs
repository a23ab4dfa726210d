//! An on-ledger auction house, verified.
//!
//! A single shared contract state lets any account list an asset (itself an
//! account whose control capability is for sale) in a timed auction, accept
//! competing bids until a closing block height, and resolve the auction to a
//! winner. Capability transfers and fund movements are not performed here:
//! every operation returns an explicit list of escrow intents that the
//! hosting runtime executes, so the decision logic is verified end to end
//! while the side effects stay at the host boundary.
//!
//! Modules, leaf first: [`errors`] the failure taxonomy, [`account`] account
//! identifier well-formedness, [`encoding`] decimal and hexadecimal
//! rendering, [`identity`] the deterministic auction identifier, [`auction`]
//! the auction record and its bid ledger, [`escrow`] capability-transfer
//! intents, [`ledger`] the keyed auction store, [`house`] the contract state
//! and its public operations, and [`laws`] proved properties that relate the
//! operations to each other.

pub mod account;
pub mod auction;
pub mod encoding;
pub mod errors;
pub mod escrow;
pub mod house;
pub mod identity;
pub mod laws;
pub mod ledger;
