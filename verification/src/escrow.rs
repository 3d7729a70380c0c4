//! The escrow state machine: one depositor funds a custodial balance, one
//! arbiter settles it exactly once, to the beneficiary or back to the
//! depositor.
//!
//! The hosting environment serializes calls and applies each call's effects
//! atomically. Its observations (the caller's identity, the value attached
//! to a call, whether its value-transfer primitive succeeded) are passed in
//! as arguments; the transfer it must perform on settlement comes back as a
//! [`TransferAction`]. A failed transfer leaves the state unchanged, which
//! models the host rolling the whole call back.

use vstd::prelude::*;

use crate::account::{AccountId, Balance};

verus! {

/// Why an escrow operation was rejected. Every error is fatal to the call
/// that raised it: the state is left exactly as it was.
#[derive(Clone, Copy, Debug, PartialEq, Eq, Structural)]
pub enum EscrowError {
    /// The caller does not hold the role the operation requires.
    Unauthorized,
    /// A deposit carried no value.
    InvalidAmount,
    /// A settlement was attempted after the escrow was already settled.
    AlreadyReleased,
    /// A deposit would push the balance past the representable range.
    Overflow,
    /// The host's value-transfer primitive reported failure.
    TransferFailed,
}

/// A transfer the host must perform: move `amount` out of the escrow's
/// custodial balance to `to`.
#[derive(Clone, Copy, Debug, PartialEq, Eq, Structural)]
pub struct TransferAction {
    pub to: AccountId,
    pub amount: Balance,
}

/// The escrow's persistent state. The three principals are fixed at
/// construction; `deposited` only grows until the single terminal
/// settlement; `released` flips to true at most once and is terminal.
#[derive(Clone, Copy, Debug, PartialEq, Eq, Structural)]
pub struct Escrow {
    pub depositor: AccountId,
    pub beneficiary: AccountId,
    pub arbiter: AccountId,
    pub deposited: Balance,
    pub released: bool,
}

/// The outcome `deposit` reports from state `s` when `caller` attaches
/// `value`.
pub open spec fn deposit_result(s: Escrow, caller: AccountId, value: Balance) -> Result<(), EscrowError> {
    if caller != s.depositor {
        Err(EscrowError::Unauthorized)
    } else if s.released {
        Err(EscrowError::AlreadyReleased)
    } else if value == 0 {
        Err(EscrowError::InvalidAmount)
    } else if s.deposited + value > u128::MAX {
        Err(EscrowError::Overflow)
    } else {
        Ok(())
    }
}

/// The state after `deposit`: the balance grows by `value` on success, and
/// nothing moves on failure.
pub open spec fn deposit_post(s: Escrow, caller: AccountId, value: Balance) -> Escrow {
    if deposit_result(s, caller, value) is Ok {
        Escrow { deposited: (s.deposited + value) as u128, ..s }
    } else {
        s
    }
}

/// The outcome `release` reports from state `s` when called by `caller`,
/// where `transfer_ok` is whether the host's transfer primitive accepted
/// the payout.
pub open spec fn release_result(s: Escrow, caller: AccountId, transfer_ok: bool) -> Result<Option<TransferAction>, EscrowError> {
    if caller != s.arbiter {
        Err(EscrowError::Unauthorized)
    } else if s.released {
        Err(EscrowError::AlreadyReleased)
    } else if s.deposited == 0 {
        Ok(None)
    } else if transfer_ok {
        Ok(Some(TransferAction { to: s.beneficiary, amount: s.deposited }))
    } else {
        Err(EscrowError::TransferFailed)
    }
}

/// The state after `release`: settled on success, untouched on failure.
pub open spec fn release_post(s: Escrow, caller: AccountId, transfer_ok: bool) -> Escrow {
    if release_result(s, caller, transfer_ok) is Ok {
        Escrow { released: true, ..s }
    } else {
        s
    }
}

/// The outcome `refund` reports: as `release`, but the payout goes to the
/// depositor.
pub open spec fn refund_result(s: Escrow, caller: AccountId, transfer_ok: bool) -> Result<Option<TransferAction>, EscrowError> {
    if caller != s.arbiter {
        Err(EscrowError::Unauthorized)
    } else if s.released {
        Err(EscrowError::AlreadyReleased)
    } else if s.deposited == 0 {
        Ok(None)
    } else if transfer_ok {
        Ok(Some(TransferAction { to: s.depositor, amount: s.deposited }))
    } else {
        Err(EscrowError::TransferFailed)
    }
}

/// The state after `refund`: settled on success, untouched on failure.
pub open spec fn refund_post(s: Escrow, caller: AccountId, transfer_ok: bool) -> Escrow {
    if refund_result(s, caller, transfer_ok) is Ok {
        Escrow { released: true, ..s }
    } else {
        s
    }
}

/// One call against an escrow instance, with everything the host supplies
/// for it: the caller's identity, the attached value, or the transfer
/// primitive's report.
pub enum EscrowCall {
    Deposit { caller: AccountId, value: Balance },
    Release { caller: AccountId, transfer_ok: bool },
    Refund { caller: AccountId, transfer_ok: bool },
}

/// The state after one call, whatever its outcome.
pub open spec fn escrow_step(s: Escrow, c: EscrowCall) -> Escrow {
    match c {
        EscrowCall::Deposit { caller, value } => deposit_post(s, caller, value),
        EscrowCall::Release { caller, transfer_ok } => release_post(s, caller, transfer_ok),
        EscrowCall::Refund { caller, transfer_ok } => refund_post(s, caller, transfer_ok),
    }
}

/// The state after a sequence of calls, applied in order.
pub open spec fn escrow_run(s: Escrow, cs: Seq<EscrowCall>) -> Escrow
    decreases cs.len(),
{
    if cs.len() == 0 {
        s
    } else {
        escrow_run(escrow_step(s, cs[0]), cs.drop_first())
    }
}

/// Settlement is terminal: once `released` is true, no sequence of further
/// calls mutates the state in any way — in particular `released` flips to
/// true at most once in an instance's lifetime.
pub proof fn lemma_settled_state_is_frozen(s: Escrow, cs: Seq<EscrowCall>)
    requires
        s.released,
    ensures
        escrow_run(s, cs) == s,
    decreases cs.len(),
{
    if cs.len() > 0 {
        assert(escrow_step(s, cs[0]) == s);
        lemma_settled_state_is_frozen(s, cs.drop_first());
    }
}

/// A second settlement attempt by the arbiter always fails with
/// `AlreadyReleased`, whichever of `release` and `refund` is tried and
/// whatever the transfer primitive would have reported, and changes nothing.
pub proof fn lemma_second_settlement_rejected(s: Escrow, caller: AccountId, transfer_ok: bool)
    requires
        s.released,
        caller == s.arbiter,
    ensures
        release_result(s, caller, transfer_ok) == Err::<Option<TransferAction>, EscrowError>(EscrowError::AlreadyReleased),
        refund_result(s, caller, transfer_ok) == Err::<Option<TransferAction>, EscrowError>(EscrowError::AlreadyReleased),
        release_post(s, caller, transfer_ok) == s,
        refund_post(s, caller, transfer_ok) == s,
{
}

/// A deposit never settles or re-opens an escrow: `released` is untouched.
pub proof fn lemma_deposit_preserves_released(s: Escrow, caller: AccountId, value: Balance)
    ensures
        deposit_post(s, caller, value).released == s.released,
{
}

/// The three principals are immutable for the instance's lifetime, and the
/// custodial balance never shrinks: the single payout moves value out of
/// the host's custody, never out of `deposited`'s record of what came in.
pub proof fn lemma_run_preserves_parties_and_balance(s: Escrow, cs: Seq<EscrowCall>)
    ensures
        escrow_run(s, cs).depositor == s.depositor,
        escrow_run(s, cs).beneficiary == s.beneficiary,
        escrow_run(s, cs).arbiter == s.arbiter,
        escrow_run(s, cs).deposited >= s.deposited,
    decreases cs.len(),
{
    if cs.len() > 0 {
        lemma_run_preserves_parties_and_balance(escrow_step(s, cs[0]), cs.drop_first());
    }
}

/// The sum of a sequence of amounts.
pub open spec fn sum_of(vals: Seq<Balance>) -> int
    decreases vals.len(),
{
    if vals.len() == 0 {
        0
    } else {
        vals[0] + sum_of(vals.drop_first())
    }
}

/// The calls that deposit each of `vals` in turn, all made by `caller`.
pub open spec fn deposit_calls(caller: AccountId, vals: Seq<Balance>) -> Seq<EscrowCall> {
    vals.map_values(|v: Balance| EscrowCall::Deposit { caller, value: v })
}

/// A sequence sum of unsigned amounts is never negative.
pub proof fn lemma_sum_of_nonneg(vals: Seq<Balance>)
    ensures
        sum_of(vals) >= 0,
    decreases vals.len(),
{
    if vals.len() > 0 {
        lemma_sum_of_nonneg(vals.drop_first());
    }
}

/// Accumulation: depositing amounts `a1, ..., an`, each positive, from the
/// depositor of an open escrow whose running sum stays representable yields
/// `deposited` grown by exactly the sum — no loss, no double count — and
/// leaves everything else, `released` included, as it was.
pub proof fn lemma_deposit_accumulation(s: Escrow, vals: Seq<Balance>)
    requires
        !s.released,
        forall|i: int| 0 <= i < vals.len() ==> vals[i] > 0,
        s.deposited + sum_of(vals) <= u128::MAX,
    ensures
        escrow_run(s, deposit_calls(s.depositor, vals)) == (Escrow {
            deposited: (s.deposited + sum_of(vals)) as u128,
            ..s
        }),
    decreases vals.len(),
{
    let cs = deposit_calls(s.depositor, vals);
    if vals.len() == 0 {
        assert(escrow_run(s, cs) == s);
    } else {
        lemma_sum_of_nonneg(vals.drop_first());
        let s1 = escrow_step(s, cs[0]);
        assert(s1 == (Escrow { deposited: (s.deposited + vals[0]) as u128, ..s }));
        assert(cs.drop_first() =~= deposit_calls(s.depositor, vals.drop_first()));
        lemma_deposit_accumulation(s1, vals.drop_first());
    }
}

impl Escrow {
    /// Create an escrow. The creating caller becomes the depositor; the
    /// beneficiary and arbiter are caller-supplied and unvalidated against
    /// each other. The balance starts at zero and the escrow starts open.
    pub fn new(caller: AccountId, beneficiary: AccountId, arbiter: AccountId) -> (e: Escrow)
        ensures
            e == (Escrow {
                depositor: caller,
                beneficiary,
                arbiter,
                deposited: 0,
                released: false,
            }),
    {
        Escrow {
            depositor: caller,
            beneficiary,
            arbiter,
            deposited: 0,
            released: false,
        }
    }

    /// Accumulate `value` into the custodial balance. Only the depositor may
    /// deposit, the value must be positive, the escrow must still be open,
    /// and the addition is overflow-checked. A deposit into a settled escrow
    /// is rejected deliberately: the single payout has already happened, so
    /// value accepted now could never be moved out again.
    pub fn deposit(&mut self, caller: AccountId, value: Balance) -> (r: Result<(), EscrowError>)
        ensures
            r == deposit_result(*old(self), caller, value),
            *final(self) == deposit_post(*old(self), caller, value),
    {
        if caller != self.depositor {
            Err(EscrowError::Unauthorized)
        } else if self.released {
            Err(EscrowError::AlreadyReleased)
        } else if value == 0 {
            Err(EscrowError::InvalidAmount)
        } else if value > u128::MAX - self.deposited {
            Err(EscrowError::Overflow)
        } else {
            self.deposited = self.deposited + value;
            Ok(())
        }
    }

    /// Settle the escrow to the beneficiary. Only the arbiter may release,
    /// and only while the escrow is open. On success the escrow is settled
    /// and the returned action, if any, is the full-balance payout the host
    /// performed; a zero-balance release settles with no transfer.
    /// `transfer_ok` is the host's report on the payout; a refused transfer
    /// fails the call and leaves the state unchanged.
    pub fn release(&mut self, caller: AccountId, transfer_ok: bool) -> (r: Result<Option<TransferAction>, EscrowError>)
        ensures
            r == release_result(*old(self), caller, transfer_ok),
            *final(self) == release_post(*old(self), caller, transfer_ok),
    {
        if caller != self.arbiter {
            Err(EscrowError::Unauthorized)
        } else if self.released {
            Err(EscrowError::AlreadyReleased)
        } else if self.deposited == 0 {
            self.released = true;
            Ok(None)
        } else if transfer_ok {
            self.released = true;
            Ok(Some(TransferAction { to: self.beneficiary, amount: self.deposited }))
        } else {
            Err(EscrowError::TransferFailed)
        }
    }

    /// Settle the escrow back to the depositor. Symmetric to [`Self::release`]:
    /// same guards, same atomicity, the payout merely goes to the depositor.
    pub fn refund(&mut self, caller: AccountId, transfer_ok: bool) -> (r: Result<Option<TransferAction>, EscrowError>)
        ensures
            r == refund_result(*old(self), caller, transfer_ok),
            *final(self) == refund_post(*old(self), caller, transfer_ok),
    {
        if caller != self.arbiter {
            Err(EscrowError::Unauthorized)
        } else if self.released {
            Err(EscrowError::AlreadyReleased)
        } else if self.deposited == 0 {
            self.released = true;
            Ok(None)
        } else if transfer_ok {
            self.released = true;
            Ok(Some(TransferAction { to: self.depositor, amount: self.deposited }))
        } else {
            Err(EscrowError::TransferFailed)
        }
    }

    /// The deposited amount and whether the escrow has been settled.
    pub fn get_status(&self) -> (r: (Balance, bool))
        ensures
            r == (self.deposited, self.released),
    {
        (self.deposited, self.released)
    }

    /// The three principals: depositor, beneficiary, arbiter.
    pub fn get_parties(&self) -> (r: (AccountId, AccountId, AccountId))
        ensures
            r == (self.depositor, self.beneficiary, self.arbiter),
    {
        (self.depositor, self.beneficiary, self.arbiter)
    }
}

} // verus!
