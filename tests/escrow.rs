use pyusd_manifesto::{
    cancel_escrow, claim_escrow, create_escrow, fund_escrow, Endpoint, ErrorCode, ErrorKind,
    EscrowAccount, Pubkey, Transfer,
};

fn key(b: u8) -> Pubkey {
    Pubkey::new([b; 32])
}

const T: i64 = 1_700_000_000;

fn new_escrow() -> EscrowAccount {
    create_escrow(key(1), 1000, key(2), T + 3600, String::from("rent"), T).unwrap()
}

#[test]
fn escrow_scenario_fund_then_claim() {
    let mut e = new_escrow();
    assert!(!e.is_funded);
    assert_eq!(e.created_at, T);
    let t = fund_escrow(&mut e, &key(1), T).unwrap();
    assert_eq!(t, Transfer { from: Endpoint::Party(key(1)), to: Endpoint::Custody, amount: 1000 });
    assert!(e.is_funded);
    let mut slot = Some(e);
    let t = claim_escrow(&mut slot, &key(2), T + 100).unwrap();
    assert_eq!(t, Transfer { from: Endpoint::Custody, to: Endpoint::Party(key(2)), amount: 1000 });
    assert!(slot.is_none());
    assert_eq!(claim_escrow(&mut slot, &key(2), T + 101), Err(ErrorCode::AccountClosed));
}

#[test]
fn escrow_create_requires_future_expiry() {
    let r = create_escrow(key(1), 1000, key(2), T, String::new(), T);
    assert_eq!(r.unwrap_err(), ErrorCode::InvalidExpiry);
    let r = create_escrow(key(1), 1000, key(2), T - 5, String::new(), T);
    assert_eq!(r.unwrap_err().kind(), ErrorKind::ConfigValidation);
    assert!(create_escrow(key(1), 1000, key(2), T + 1, String::new(), T).is_ok());
}

#[test]
fn escrow_fund_errors() {
    let mut e = new_escrow();
    assert_eq!(fund_escrow(&mut e, &key(1), T + 3600), Err(ErrorCode::EscrowExpired));
    assert_eq!(fund_escrow(&mut e, &key(9), T), Err(ErrorCode::Unauthorized));
    assert!(!e.is_funded);
    fund_escrow(&mut e, &key(1), T).unwrap();
    assert_eq!(fund_escrow(&mut e, &key(1), T), Err(ErrorCode::AlreadyFunded));
}

#[test]
fn escrow_claim_errors_leave_record() {
    let mut slot = Some(new_escrow());
    assert_eq!(claim_escrow(&mut slot, &key(2), T + 1), Err(ErrorCode::NotFunded));
    fund_escrow(slot.as_mut().unwrap(), &key(1), T).unwrap();
    assert_eq!(claim_escrow(&mut slot, &key(3), T + 1), Err(ErrorCode::Unauthorized));
    assert_eq!(claim_escrow(&mut slot, &key(2), T + 3600), Err(ErrorCode::EscrowExpired));
    assert!(slot.is_some());
    assert!(claim_escrow(&mut slot, &key(2), T + 3599).is_ok());
}

#[test]
fn escrow_cancel_refunds_funded_after_expiry() {
    let mut slot = Some(new_escrow());
    fund_escrow(slot.as_mut().unwrap(), &key(1), T).unwrap();
    assert_eq!(cancel_escrow(&mut slot, &key(2), T + 4000), Err(ErrorCode::Unauthorized));
    assert_eq!(cancel_escrow(&mut slot, &key(1), T + 3599), Err(ErrorCode::EscrowNotExpired));
    let r = cancel_escrow(&mut slot, &key(1), T + 3600).unwrap();
    assert_eq!(
        r,
        Some(Transfer { from: Endpoint::Custody, to: Endpoint::Party(key(1)), amount: 1000 })
    );
    assert!(slot.is_none());
    assert_eq!(cancel_escrow(&mut slot, &key(1), T + 3600), Err(ErrorCode::AccountClosed));
}

#[test]
fn escrow_cancel_unfunded_moves_nothing() {
    let mut slot = Some(new_escrow());
    assert_eq!(cancel_escrow(&mut slot, &key(1), T + 10), Err(ErrorCode::EscrowNotExpired));
    assert_eq!(cancel_escrow(&mut slot, &key(1), T + 7200), Ok(None));
    assert!(slot.is_none());
}

#[test]
fn pubkey_comparison_is_bytewise() {
    let mut b = [7u8; 32];
    assert!(key(7).same_as(&Pubkey::new(b)));
    b[31] = 8;
    assert!(!key(7).same_as(&Pubkey::new(b)));
    assert_eq!(Pubkey::new(b).to_bytes(), b);
    assert!(pyusd_manifesto::contains_key(&vec![key(1), key(7)], &key(7)));
    assert!(!pyusd_manifesto::contains_key(&vec![key(1), key(7)], &key(2)));
    assert!(!pyusd_manifesto::contains_key(&vec![], &key(2)));
}

#[test]
fn error_kinds() {
    assert_eq!(ErrorCode::NotAnOwner.kind(), ErrorKind::Authorization);
    assert_eq!(ErrorCode::AlreadyApproved.kind(), ErrorKind::StateConflict);
    assert_eq!(ErrorCode::PaymentNotDue.kind(), ErrorKind::Timing);
    assert_eq!(ErrorCode::InvalidCalculation.kind(), ErrorKind::ArithmeticOverflow);
    assert_eq!(ErrorCode::InsufficientStake.kind(), ErrorKind::InsufficientFunds);
    assert_eq!(ErrorCode::TooManyOwners.kind(), ErrorKind::ConfigValidation);
}
