//! Oracle-gated custody: one administrator, one oracle public key with its
//! algorithm tag, and the latest oracle-published block-list. Requests are
//! decided here; the host supplies identities, funds and persistence.

pub mod contract;
pub mod guarantees;
pub mod host;
pub mod msg;
pub mod replay;
pub mod state;
pub mod signature;
