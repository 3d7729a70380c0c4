use escrow_core::account::AccountId;
use escrow_core::escrow::{Escrow, EscrowError, TransferAction};

#[test]
fn new_fixes_parties_and_starts_open() {
    let d = AccountId(1);
    let b = AccountId(2);
    let a = AccountId(3);
    let e = Escrow::new(d, b, a);
    assert_eq!(e.get_parties(), (d, b, a));
    assert_eq!(e.get_status(), (0, false));
}

#[test]
fn new_allows_equal_principals() {
    let d = AccountId(1);
    let e = Escrow::new(d, d, d);
    assert_eq!(e.get_parties(), (d, d, d));
}

#[test]
fn deposit_by_non_depositor_is_unauthorized_and_mutates_nothing() {
    let d = AccountId(1);
    let b = AccountId(2);
    let a = AccountId(3);
    let mut e = Escrow::new(d, b, a);
    assert_eq!(e.deposit(d, 40), Ok(()));
    assert_eq!(e.deposit(b, 10), Err(EscrowError::Unauthorized));
    assert_eq!(e.deposit(a, 10), Err(EscrowError::Unauthorized));
    assert_eq!(e.get_status(), (40, false));
}

#[test]
fn deposit_of_zero_is_invalid_and_mutates_nothing() {
    let d = AccountId(1);
    let mut e = Escrow::new(d, AccountId(2), AccountId(3));
    assert_eq!(e.deposit(d, 0), Err(EscrowError::InvalidAmount));
    assert_eq!(e.get_status(), (0, false));
    assert_eq!(e.deposit(d, 7), Ok(()));
    assert_eq!(e.deposit(d, 0), Err(EscrowError::InvalidAmount));
    assert_eq!(e.get_status(), (7, false));
}

#[test]
fn deposits_accumulate_exactly() {
    let d = AccountId(1);
    let mut e = Escrow::new(d, AccountId(2), AccountId(3));
    assert_eq!(e.deposit(d, 100), Ok(()));
    assert_eq!(e.deposit(d, 50), Ok(()));
    assert_eq!(e.get_status(), (150, false));
    assert_eq!(e.deposit(d, 1), Ok(()));
    assert_eq!(e.deposit(d, 2), Ok(()));
    assert_eq!(e.deposit(d, 3), Ok(()));
    assert_eq!(e.get_status(), (156, false));
}

#[test]
fn deposit_overflow_is_rejected_and_mutates_nothing() {
    let d = AccountId(1);
    let mut e = Escrow::new(d, AccountId(2), AccountId(3));
    assert_eq!(e.deposit(d, u128::MAX - 1), Ok(()));
    assert_eq!(e.deposit(d, 2), Err(EscrowError::Overflow));
    assert_eq!(e.get_status(), (u128::MAX - 1, false));
    assert_eq!(e.deposit(d, 1), Ok(()));
    assert_eq!(e.get_status(), (u128::MAX, false));
}

#[test]
fn release_pays_full_balance_to_beneficiary() {
    let d = AccountId(1);
    let b = AccountId(2);
    let a = AccountId(3);
    let mut e = Escrow::new(d, b, a);
    assert_eq!(e.deposit(d, 100), Ok(()));
    assert_eq!(e.deposit(d, 50), Ok(()));
    let r = e.release(a, true);
    assert_eq!(r, Ok(Some(TransferAction { to: b, amount: 150 })));
    assert_eq!(e.get_status(), (150, true));
}

#[test]
fn release_by_non_arbiter_is_unauthorized_and_mutates_nothing() {
    let d = AccountId(1);
    let b = AccountId(2);
    let a = AccountId(3);
    let mut e = Escrow::new(d, b, a);
    assert_eq!(e.deposit(d, 25), Ok(()));
    assert_eq!(e.release(d, true), Err(EscrowError::Unauthorized));
    assert_eq!(e.release(b, true), Err(EscrowError::Unauthorized));
    assert_eq!(e.get_status(), (25, false));
}

#[test]
fn settlement_happens_at_most_once() {
    let d = AccountId(1);
    let b = AccountId(2);
    let a = AccountId(3);
    let mut e = Escrow::new(d, b, a);
    assert_eq!(e.deposit(d, 150), Ok(()));
    assert_eq!(e.release(a, true), Ok(Some(TransferAction { to: b, amount: 150 })));
    assert_eq!(e.release(a, true), Err(EscrowError::AlreadyReleased));
    assert_eq!(e.refund(a, true), Err(EscrowError::AlreadyReleased));
    assert_eq!(e.get_status(), (150, true));
}

#[test]
fn refund_pays_full_balance_back_to_depositor() {
    let d = AccountId(1);
    let b = AccountId(2);
    let a = AccountId(3);
    let mut e = Escrow::new(d, b, a);
    assert_eq!(e.deposit(d, 99), Ok(()));
    let r = e.refund(a, true);
    assert_eq!(r, Ok(Some(TransferAction { to: d, amount: 99 })));
    assert_eq!(e.get_status(), (99, true));
    assert_eq!(e.release(a, true), Err(EscrowError::AlreadyReleased));
}

#[test]
fn refund_by_non_arbiter_is_unauthorized() {
    let d = AccountId(1);
    let mut e = Escrow::new(d, AccountId(2), AccountId(3));
    assert_eq!(e.deposit(d, 5), Ok(()));
    assert_eq!(e.refund(d, true), Err(EscrowError::Unauthorized));
    assert_eq!(e.get_status(), (5, false));
}

#[test]
fn zero_balance_settlement_needs_no_transfer() {
    let a = AccountId(3);
    let mut e = Escrow::new(AccountId(1), AccountId(2), a);
    assert_eq!(e.release(a, false), Ok(None));
    assert_eq!(e.get_status(), (0, true));

    let mut e2 = Escrow::new(AccountId(1), AccountId(2), a);
    assert_eq!(e2.refund(a, false), Ok(None));
    assert_eq!(e2.get_status(), (0, true));
}

#[test]
fn failed_transfer_rolls_the_whole_call_back() {
    let d = AccountId(1);
    let b = AccountId(2);
    let a = AccountId(3);
    let mut e = Escrow::new(d, b, a);
    assert_eq!(e.deposit(d, 80), Ok(()));
    assert_eq!(e.release(a, false), Err(EscrowError::TransferFailed));
    assert_eq!(e.get_status(), (80, false));
    assert_eq!(e.refund(a, false), Err(EscrowError::TransferFailed));
    assert_eq!(e.get_status(), (80, false));
    assert_eq!(e.release(a, true), Ok(Some(TransferAction { to: b, amount: 80 })));
    assert_eq!(e.get_status(), (80, true));
}

#[test]
fn deposit_after_settlement_is_rejected() {
    let d = AccountId(1);
    let a = AccountId(3);
    let mut e = Escrow::new(d, AccountId(2), a);
    assert_eq!(e.deposit(d, 10), Ok(()));
    assert_eq!(e.release(a, true), Ok(Some(TransferAction { to: AccountId(2), amount: 10 })));
    assert_eq!(e.deposit(d, 10), Err(EscrowError::AlreadyReleased));
    assert_eq!(e.get_status(), (10, true));
}
