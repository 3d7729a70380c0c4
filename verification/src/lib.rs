//! A custodial escrow primitive and a factory that deploys and tracks
//! instances of it.
//!
//! The escrow is a role-gated fund-custody state machine: one depositor
//! accumulates a balance, and one arbiter settles it exactly once, either to
//! the beneficiary (`release`) or back to the depositor (`refund`). The
//! factory instantiates escrows from a stored code template and keeps an
//! append-only registry of the deployed instances.
//!
//! The hosting execution environment (caller identity, attached value, the
//! value-transfer primitive, the block counter, the code-template registry)
//! is an external collaborator: its observations enter the library as plain
//! arguments, and the actions it must perform come back as plain values.

pub mod account;
pub mod escrow;
pub mod factory;
