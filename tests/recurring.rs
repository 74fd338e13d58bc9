use pyusd_manifesto::{
    cancel_recurring_payment, create_recurring_payment, execute_recurring_payment, Endpoint,
    ErrorCode, PaymentInterval, Pubkey, RecurringPayment, Transfer,
};

fn key(b: u8) -> Pubkey {
    Pubkey::new([b; 32])
}

const T: i64 = 1_700_000_000;

fn schedule() -> RecurringPayment {
    create_recurring_payment(key(1), 50, key(2), 86400, 3, String::from("salary"), T).unwrap()
}

#[test]
fn recurring_scenario_interval_gate() {
    let mut p = schedule();
    let t = execute_recurring_payment(&mut p, &key(1), T).unwrap();
    assert_eq!(t, Transfer { from: Endpoint::Party(key(1)), to: Endpoint::Party(key(2)), amount: 50 });
    assert_eq!(p.payments_made, 1);
    assert_eq!(p.last_payment_at, T);
    assert_eq!(execute_recurring_payment(&mut p, &key(1), T + 3600), Err(ErrorCode::PaymentNotDue));
    assert_eq!(p.payments_made, 1);
    assert!(execute_recurring_payment(&mut p, &key(1), T + 86400).is_ok());
    assert_eq!(p.payments_made, 2);
    assert!(p.is_active);
}

#[test]
fn recurring_completes_and_deactivates() {
    let mut p = schedule();
    for i in 0..3 {
        assert!(execute_recurring_payment(&mut p, &key(1), T + i * 86400).is_ok());
    }
    assert_eq!(p.payments_made, 3);
    assert!(!p.is_active);
    assert_eq!(
        execute_recurring_payment(&mut p, &key(1), T + 10 * 86400),
        Err(ErrorCode::AllPaymentsCompleted)
    );
}

#[test]
fn recurring_create_rejects_zero_terms() {
    let r = create_recurring_payment(key(1), 0, key(2), 60, 3, String::new(), T);
    assert_eq!(r.unwrap_err(), ErrorCode::InvalidPaymentTerms);
    let r = create_recurring_payment(key(1), 5, key(2), 60, 0, String::new(), T);
    assert_eq!(r.unwrap_err(), ErrorCode::InvalidPaymentTerms);
    let p = schedule();
    assert_eq!(p.payments_made, 0);
    assert_eq!(p.last_payment_at, 0);
    assert!(p.is_active);
}

#[test]
fn recurring_only_payer_acts() {
    let mut p = schedule();
    assert_eq!(execute_recurring_payment(&mut p, &key(2), T), Err(ErrorCode::Unauthorized));
    assert_eq!(cancel_recurring_payment(&mut p, &key(2)), Err(ErrorCode::Unauthorized));
    assert!(p.is_active);
    assert_eq!(cancel_recurring_payment(&mut p, &key(1)), Ok(()));
    assert!(!p.is_active);
    assert_eq!(execute_recurring_payment(&mut p, &key(1), T), Err(ErrorCode::AllPaymentsCompleted));
    assert_eq!(cancel_recurring_payment(&mut p, &key(1)), Ok(()));
}

#[test]
fn payment_interval_seconds() {
    assert_eq!(PaymentInterval::Daily.to_seconds(), 86_400);
    assert_eq!(PaymentInterval::Weekly.to_seconds(), 604_800);
    assert_eq!(PaymentInterval::Monthly.to_seconds(), 2_592_000);
}
