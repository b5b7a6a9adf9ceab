//! The identity gate: registered identity commitments, single-use proof
//! nullifiers, credential levels and the admin's configuration.
pub mod bytes;
pub mod keyed;
pub mod types;
pub mod state;
pub mod contract;
pub mod laws;
