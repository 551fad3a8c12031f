//! Peer-to-peer, oracle-settled prediction-market core.
//!
//! A creator opens a directional bet on an asset's price; one or more
//! acceptors take all or part of the opposing side; after expiry a
//! permissionless finalizer consults a price oracle and disburses the
//! escrowed stake among the winner, a commission account and itself.
//!
//! The ledger-resident records live in an explicit store keyed by
//! account identity ([`ledger`]); the life-cycle transitions are the
//! functions of [`processor`], each specified as a function from the
//! store's map view to the updated map or the failure reason; the odds
//! and settlement arithmetic is in [`odds`]; custody of escrowed stake
//! is in [`custody`]; oracle authenticity and the current-price query
//! are in [`oracle`]; the fixed-width record and payload byte formats
//! are in [`codec`] and [`instruction`].

pub mod codec;
pub mod custody;
pub mod error;
pub mod ids;
pub mod instruction;
pub mod ledger;
pub mod odds;
pub mod oracle;
pub mod processor;
pub mod state;
