//! A registry of file addresses: one persisted record that holds the account
//! which created it and an append-only list of opaque address strings.
//!
//! The record lives in a single storage slot, modelled by [`state::Slot`].
//! [`contract`] holds the operations on it, [`model`] says in mathematical
//! terms what each of them does, and [`laws`] proves what follows for whole
//! histories of calls.

pub mod contract;
pub mod error;
pub mod laws;
pub mod model;
pub mod msg;
pub mod state;
