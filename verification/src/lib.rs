//! Core of a token public-sale ("launch") system: validated configuration,
//! a per-token launch record with a linear phase machine, a per-token queue
//! of pre-sale bids with escrow reconciliation, and terminal settlement that
//! drains escrowed value to designated recipients.
//!
//! The host ledger's capabilities (minting, currency transfer, metadata
//! registration, account creation) are collaborators: they are modelled here
//! over plain balances, and every operation of the core is verified against
//! that model.

pub mod addresses;
pub mod configure;
pub mod errors;
pub mod launch;
pub mod ledger;
pub mod migrate;
pub mod snipe;
pub mod state;
