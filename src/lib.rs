//! Custodial escrow for bounty payments.
//!
//! A depositor locks value against a bounty id and a deadline; the admin releases it to a
//! contributor, or it goes back to the depositor (fully, partially, or to a custom party
//! under an admin approval) once the deadline has passed. The ledger itself stays outside
//! the library: every fund-moving operation returns the transfers it decided on, and takes
//! the current time and, where needed, the custody balance as plain values.

pub mod types;
pub mod fee;
pub mod anti_abuse;
pub mod model;
pub mod escrow;
pub mod batch;
pub mod laws;
pub mod error_recovery;
