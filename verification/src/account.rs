//! Identity and amount types shared by the escrow and the factory.

use vstd::prelude::*;

verus! {

/// An opaque, comparable, copyable identifier for an account: a depositor,
/// beneficiary, arbiter, caller, or a deployed contract instance. The core
/// logic assumes nothing of it beyond equality.
#[derive(Clone, Copy, Debug, PartialEq, Eq, Structural)]
pub struct AccountId(pub u64);

/// A quantity of custodial value. Arithmetic on it is overflow-checked;
/// overflow is reported as an error, never wrapped or saturated.
pub type Balance = u128;

} // verus!
