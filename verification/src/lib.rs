//! Reconciliation of a DNS record with this machine's public address.
//!
//! A tick asks a resolver for the address, compares it with the address seen
//! last and, where the two differ, with the provider's record; only where
//! that holds another address is the record updated and the update notified.
//! Every tick ends with one entry for the log.
//!
//! The library decides and never performs: `reconcile::Reconciler` answers
//! each `reconcile::Event` with the next `reconcile::Action`, and its caller
//! does the asking, sending and logging. `laws` states what holds of every
//! tick.

pub mod clock;
pub mod config;
pub mod laws;
pub mod notify;
pub mod provider;
pub mod reconcile;
pub mod text;
pub mod tick;
