use solmarket::escrow::{
    can_refund, can_release, expire_escrow, fee_split, fund_escrow, initialize_config,
    initialize_escrow, refund_escrow, release_escrow, Config, EscrowError, EscrowStatus, SolEscrow,
    FEE_BPS_DEFAULT,
};
use solmarket::{AccountId, Transfer};

fn id(n: u8) -> AccountId {
    AccountId::new([n; 32])
}

const AUTHORITY: u8 = 1;
const FEES: u8 = 2;
const BUYER: u8 = 3;
const MERCHANT: u8 = 4;
const STRANGER: u8 = 5;

fn config() -> Config {
    initialize_config(id(AUTHORITY), id(FEES), 7)
}

fn escrow(amount: u64) -> SolEscrow {
    initialize_escrow(&config(), 42, id(BUYER), id(MERCHANT), amount, 1000, 100, 3).unwrap()
}

fn funded(amount: u64) -> SolEscrow {
    let mut e = escrow(amount);
    fund_escrow(&mut e).unwrap();
    e
}

#[test]
fn config_uses_default_fee() {
    let c = config();
    assert_eq!(c.fee_bps, FEE_BPS_DEFAULT);
    assert_eq!(c.fee_bps, 200);
    assert_eq!(c.authority, id(AUTHORITY));
    assert_eq!(c.fee_recipient, id(FEES));
}

#[test]
fn fee_split_examples() {
    assert_eq!(fee_split(10000, 200), (200, 9800));
    assert_eq!(fee_split(1, 200), (0, 1));
    assert_eq!(fee_split(0, 200), (0, 0));
    assert_eq!(fee_split(12345, 10000), (12345, 0));
    assert_eq!(fee_split(u64::MAX, 10000), (u64::MAX, 0));
    assert_eq!(fee_split(u64::MAX, 200), (368934881474191032, 18077809192235360583));
}

#[test]
fn initialize_validates_amount_then_expiry() {
    let c = config();
    assert_eq!(
        initialize_escrow(&c, 1, id(BUYER), id(MERCHANT), 0, 50, 100, 0).unwrap_err(),
        EscrowError::InvalidAmount
    );
    assert_eq!(
        initialize_escrow(&c, 1, id(BUYER), id(MERCHANT), 5, 100, 100, 0).unwrap_err(),
        EscrowError::InvalidExpiry
    );
    let e = initialize_escrow(&c, 1, id(BUYER), id(MERCHANT), 5, 101, 100, 0).unwrap();
    assert_eq!(e.status, EscrowStatus::Pending);
    assert_eq!(e.created_at, 100);
    assert_eq!(e.expires_at, 101);
    assert_eq!(e.fee_bps, 200);
}

#[test]
fn fund_only_once() {
    let mut e = escrow(500);
    assert_eq!(fund_escrow(&mut e), Ok(Transfer::Deposit { from: id(BUYER), amount: 500 }));
    assert_eq!(e.status, EscrowStatus::Funded);
    assert_eq!(fund_escrow(&mut e), Err(EscrowError::InvalidState));
    assert_eq!(e.status, EscrowStatus::Funded);
}

#[test]
fn release_splits_fee() {
    let mut e = funded(10000);
    let ts = release_escrow(&mut e, &config(), id(MERCHANT), 200).unwrap();
    assert_eq!(
        ts,
        vec![
            Transfer::Payout { to: id(MERCHANT), amount: 9800 },
            Transfer::Payout { to: id(FEES), amount: 200 },
        ]
    );
    assert_eq!(e.status, EscrowStatus::Released);
}

#[test]
fn release_without_fee_when_it_rounds_to_zero() {
    let mut e = funded(1);
    let ts = release_escrow(&mut e, &config(), id(MERCHANT), 200).unwrap();
    assert_eq!(ts, vec![Transfer::Payout { to: id(MERCHANT), amount: 1 }]);
}

#[test]
fn release_twice_fails_second_time() {
    let mut e = funded(10000);
    assert!(release_escrow(&mut e, &config(), id(MERCHANT), 200).is_ok());
    assert_eq!(release_escrow(&mut e, &config(), id(MERCHANT), 300), Err(EscrowError::InvalidState));
    assert_eq!(release_escrow(&mut e, &config(), id(AUTHORITY), 5000), Err(EscrowError::InvalidState));
    assert_eq!(e.status, EscrowStatus::Released);
}

#[test]
fn release_authorization() {
    let c = config();
    let mut e = funded(100);
    assert!(can_release(&e, &c, id(MERCHANT), 0));
    assert!(can_release(&e, &c, id(AUTHORITY), 0));
    assert!(!can_release(&e, &c, id(BUYER), 999));
    assert!(can_release(&e, &c, id(STRANGER), 1000));
    assert_eq!(release_escrow(&mut e, &c, id(STRANGER), 999), Err(EscrowError::Unauthorized));
    assert_eq!(e.status, EscrowStatus::Funded);
    assert!(release_escrow(&mut e, &c, id(STRANGER), 1000).is_ok());
}

#[test]
fn release_requires_funding() {
    let mut e = escrow(100);
    assert_eq!(release_escrow(&mut e, &config(), id(MERCHANT), 200), Err(EscrowError::InvalidState));
    assert_eq!(e.status, EscrowStatus::Pending);
}

#[test]
fn refund_funded_returns_amount() {
    let c = config();
    let mut e = funded(700);
    assert_eq!(refund_escrow(&mut e, &c, id(STRANGER), 500), Err(EscrowError::Unauthorized));
    assert_eq!(
        refund_escrow(&mut e, &c, id(BUYER), 500),
        Ok(Some(Transfer::Payout { to: id(BUYER), amount: 700 }))
    );
    assert_eq!(e.status, EscrowStatus::Refunded);
    assert_eq!(refund_escrow(&mut e, &c, id(BUYER), 500), Err(EscrowError::InvalidState));
}

#[test]
fn refund_pending_moves_nothing() {
    let c = config();
    let mut e = escrow(700);
    assert!(can_refund(&e, &c, id(AUTHORITY), 0));
    assert_eq!(refund_escrow(&mut e, &c, id(AUTHORITY), 0), Ok(None));
    assert_eq!(e.status, EscrowStatus::Refunded);
    assert_eq!(fund_escrow(&mut e), Err(EscrowError::InvalidState));
}

#[test]
fn refund_after_expiry_by_anyone() {
    let c = config();
    let mut e = funded(700);
    assert!(!can_refund(&e, &c, id(MERCHANT), 999));
    assert!(refund_escrow(&mut e, &c, id(MERCHANT), 1000).is_ok());
}

#[test]
fn expire_needs_deadline() {
    let mut e = funded(700);
    assert_eq!(expire_escrow(&mut e, 999), Err(EscrowError::NotExpired));
    assert_eq!(e.status, EscrowStatus::Funded);
    assert_eq!(expire_escrow(&mut e, 1000), Ok(Some(Transfer::Payout { to: id(BUYER), amount: 700 })));
    assert_eq!(e.status, EscrowStatus::Refunded);
    assert_eq!(expire_escrow(&mut e, 2000), Err(EscrowError::InvalidState));
}

#[test]
fn expire_after_release_fails() {
    let mut e = funded(700);
    release_escrow(&mut e, &config(), id(MERCHANT), 10).unwrap();
    assert_eq!(expire_escrow(&mut e, 5000), Err(EscrowError::InvalidState));
}
