use near_htlc::error::EscrowError;
use near_htlc::escrow::{HTLCEscrow, Transfer};
use near_htlc::immutables::EscrowImmutables;
use near_htlc::timelocks::TimelockStage;

const NOW: u64 = 1_700_000_000;
const SECRET: &str = "correct horse battery staple";

fn create(amount: u128, safety_deposit: u128, attached: u128) -> Result<HTLCEscrow, EscrowError> {
    HTLCEscrow::new(
        "0".repeat(64),
        EscrowImmutables::compute_sha256(SECRET),
        "maker.near".to_string(),
        "0x".to_string() + &"a".repeat(40),
        amount,
        safety_deposit,
        NOW + 3600,
        NOW + 7200,
        NOW + 86400,
        attached,
        "alice.near".to_string(),
        NOW,
    )
}

#[test]
fn end_to_end_withdrawal() {
    let mut escrow = create(500, 100, 600).unwrap();
    assert!(escrow.is_active());
    assert_eq!(escrow.get_status(), "active");
    assert_eq!(
        escrow.withdraw(SECRET.to_string(), NOW),
        Err(EscrowError::TimelockNotMet(TimelockStage::Withdrawal))
    );
    assert!(!escrow.is_withdrawn());
    let transfer = escrow.withdraw(SECRET.to_string(), NOW + 3600).unwrap();
    assert_eq!(transfer, Transfer { recipient: "maker.near".to_string(), amount: 500 });
    assert!(escrow.is_withdrawn());
    assert!(!escrow.is_active());
    assert_eq!(escrow.get_status(), "withdrawn");
    assert_eq!(escrow.get_revealed_secret(), Some(SECRET.to_string()));
}

#[test]
fn creation_records_the_deposit() {
    let escrow = create(500, 100, 650).unwrap();
    assert_eq!(escrow.get_deposited_amount(), 650);
    assert_eq!(escrow.get_depositor(), "alice.near");
    assert_eq!(escrow.get_maker(), "maker.near");
    assert_eq!(escrow.get_amount(), 500);
    assert_eq!(escrow.get_safety_deposit(), 100);
    assert_eq!(escrow.get_order_hash(), "0".repeat(64));
    assert_eq!(escrow.get_hashlock(), EscrowImmutables::compute_sha256(SECRET));
    assert_eq!(escrow.get_taker_evm_address(), "0x".to_string() + &"a".repeat(40));
    assert_eq!(escrow.get_withdrawal_timelock(), NOW + 3600);
    assert_eq!(escrow.get_cancellation_timelock(), NOW + 86400);
    assert_eq!(escrow.get_created_at(), NOW);
    assert!(!escrow.is_withdrawn());
    assert!(!escrow.is_cancelled());
    assert_eq!(escrow.get_revealed_secret(), None);
}

#[test]
fn creation_rejects_insufficient_deposit() {
    assert_eq!(create(500, 100, 599).unwrap_err(), EscrowError::InsufficientDeposit);
}

#[test]
fn creation_rejects_bad_timelocks() {
    let r = HTLCEscrow::new(
        "0".repeat(64),
        EscrowImmutables::compute_sha256(SECRET),
        "maker.near".to_string(),
        "a".repeat(40),
        500,
        100,
        NOW + 3600,
        NOW + 3000,
        NOW + 86400,
        600,
        "alice.near".to_string(),
        NOW,
    );
    assert_eq!(r.unwrap_err(), EscrowError::PublicWithdrawalNotAfterWithdrawal);
}

#[test]
fn creation_rejects_invalid_depositor() {
    let r = HTLCEscrow::new(
        "0".repeat(64),
        EscrowImmutables::compute_sha256(SECRET),
        "maker.near".to_string(),
        "a".repeat(40),
        500,
        100,
        NOW + 3600,
        NOW + 7200,
        NOW + 86400,
        600,
        "-bad".to_string(),
        NOW,
    );
    assert_eq!(r.unwrap_err(), EscrowError::InvalidAccountId);
}

#[test]
fn withdraw_rejects_wrong_secret_without_change() {
    let mut escrow = create(500, 100, 600).unwrap();
    assert_eq!(
        escrow.withdraw("wrong".to_string(), NOW + 3600),
        Err(EscrowError::InvalidSecret)
    );
    assert!(escrow.is_active());
    assert_eq!(escrow.get_revealed_secret(), None);
}

#[test]
fn withdraw_is_terminal() {
    let mut escrow = create(500, 100, 600).unwrap();
    assert!(escrow.withdraw(SECRET.to_string(), NOW + 3600).is_ok());
    assert_eq!(
        escrow.withdraw(SECRET.to_string(), NOW + 3700),
        Err(EscrowError::AlreadyFinalized)
    );
    assert_eq!(escrow.cancel(NOW + 90000), Err(EscrowError::AlreadyFinalized));
    assert!(escrow.is_withdrawn());
    assert!(!escrow.is_cancelled());
}

#[test]
fn cancel_waits_for_its_timelock_and_is_terminal() {
    let mut escrow = create(500, 100, 700).unwrap();
    assert_eq!(
        escrow.cancel(NOW + 86399),
        Err(EscrowError::TimelockNotMet(TimelockStage::Cancellation))
    );
    assert!(escrow.is_active());
    let transfer = escrow.cancel(NOW + 86400).unwrap();
    assert_eq!(transfer, Transfer { recipient: "alice.near".to_string(), amount: 700 });
    assert!(escrow.is_cancelled());
    assert_eq!(escrow.get_status(), "cancelled");
    assert_eq!(escrow.cancel(NOW + 86401), Err(EscrowError::AlreadyFinalized));
    assert_eq!(
        escrow.withdraw(SECRET.to_string(), NOW + 86401),
        Err(EscrowError::AlreadyFinalized)
    );
}

#[test]
fn emergency_refund_checks_caller_and_timelock() {
    let mut escrow = create(500, 100, 600).unwrap();
    assert_eq!(escrow.emergency_refund("bob.near", NOW + 200000), Err(EscrowError::Unauthorized));
    assert_eq!(
        escrow.emergency_refund("alice.near", NOW + 2 * 86400 - 1),
        Err(EscrowError::TimelockNotMet(TimelockStage::Emergency))
    );
    let transfer = escrow.emergency_refund("alice.near", NOW + 2 * 86400).unwrap();
    assert_eq!(transfer, Transfer { recipient: "alice.near".to_string(), amount: 600 });
    assert!(escrow.is_active());
}

#[test]
fn escrow_time_queries() {
    let escrow = create(500, 100, 600).unwrap();
    assert!(!escrow.can_withdraw_now(NOW));
    assert!(escrow.can_withdraw_now(NOW + 3600));
    assert!(!escrow.can_cancel_now(NOW + 3600));
    assert!(escrow.can_cancel_now(NOW + 86400));
    assert_eq!(escrow.time_until_withdrawal(NOW + 600), Some(3000));
    assert_eq!(escrow.time_until_cancellation(NOW + 86400), None);
    assert_eq!(escrow.get_timelock_status(NOW + 3600), "Private withdrawal period active");
}
