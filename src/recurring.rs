use vstd::prelude::*;
use crate::error::ErrorCode;
use crate::ledger::{Endpoint, Transfer};
use crate::pubkey::Pubkey;

verus! {

/// Seconds in one day.
pub const SECONDS_PER_DAY: i64 = 86400;

/// A named payment cadence.
#[derive(Clone, Copy, Debug, PartialEq, Eq, Structural)]
pub enum PaymentInterval {
    Daily,
    Weekly,
    Monthly,
}

/// Length of a named cadence in seconds (a month counts thirty days).
pub open spec fn cadence_seconds(i: PaymentInterval) -> int {
    match i {
        PaymentInterval::Daily => 86400int,
        PaymentInterval::Weekly => 7 * 86400int,
        PaymentInterval::Monthly => 30 * 86400int,
    }
}

impl PaymentInterval {
    pub fn to_seconds(&self) -> (r: i64)
        ensures
            r == cadence_seconds(*self),
    {
        match self {
            PaymentInterval::Daily => SECONDS_PER_DAY,
            PaymentInterval::Weekly => 7 * SECONDS_PER_DAY,
            PaymentInterval::Monthly => 30 * SECONDS_PER_DAY,
        }
    }
}

/// `total_payments` equal payments from `payer` to `recipient`, at least
/// `interval_seconds` apart.
#[derive(Clone, Debug)]
pub struct RecurringPayment {
    pub payer: Pubkey,
    pub recipient: Pubkey,
    pub amount: u64,
    pub interval_seconds: i64,
    pub total_payments: u64,
    pub payments_made: u64,
    pub created_at: i64,
    /// Time of the latest payment; 0 until the first one.
    pub last_payment_at: i64,
    pub is_active: bool,
    pub description: String,
}

/// Arguments of a schedule's creation with a named cadence, as a client sends them.
#[derive(Clone, Debug)]
pub struct CreateRecurringPaymentArgs {
    pub recipient: Pubkey,
    pub amount_per_payment: u64,
    pub interval: PaymentInterval,
    pub total_payments: u64,
    pub description: String,
}

impl RecurringPayment {
    /// Never more payments than agreed, and a completed schedule is inactive.
    pub open spec fn wf(&self) -> bool {
        &&& self.payments_made <= self.total_payments
        &&& self.payments_made == self.total_payments ==> !self.is_active
    }
}

/// What `execute_recurring_payment` answers for `caller` at time `now`.
pub open spec fn execute_outcome(p: RecurringPayment, caller: Pubkey, now: i64) -> Result<
    Transfer,
    ErrorCode,
> {
    if caller@ != p.payer@ {
        Err(ErrorCode::Unauthorized)
    } else if !p.is_active || p.payments_made >= p.total_payments {
        Err(ErrorCode::AllPaymentsCompleted)
    } else if p.payments_made > 0 && now - p.last_payment_at < p.interval_seconds {
        Err(ErrorCode::PaymentNotDue)
    } else {
        Ok(Transfer { from: Endpoint::Party(p.payer), to: Endpoint::Party(p.recipient), amount: p.amount })
    }
}

/// The record after an accepted payment at time `now`.
pub open spec fn after_payment(p: RecurringPayment, now: i64) -> RecurringPayment {
    RecurringPayment {
        payments_made: (p.payments_made + 1) as u64,
        last_payment_at: now,
        is_active: p.payments_made + 1 < p.total_payments,
        ..p
    }
}

/// Sets up a schedule; refused when the amount or the number of payments is zero.
pub fn create_recurring_payment(
    payer: Pubkey,
    amount: u64,
    recipient: Pubkey,
    interval_seconds: i64,
    total_payments: u64,
    description: String,
    now: i64,
) -> (r: Result<RecurringPayment, ErrorCode>)
    ensures
        r is Err <==> amount == 0 || total_payments == 0,
        r is Err ==> r == Err::<RecurringPayment, ErrorCode>(ErrorCode::InvalidPaymentTerms),
        r matches Ok(p) ==> {
            &&& p.payer == payer
            &&& p.recipient == recipient
            &&& p.amount == amount
            &&& p.interval_seconds == interval_seconds
            &&& p.total_payments == total_payments
            &&& p.payments_made == 0
            &&& p.created_at == now
            &&& p.last_payment_at == 0
            &&& p.is_active
            &&& p.description == description
            &&& p.wf()
        },
{
    if amount == 0 || total_payments == 0 {
        return Err(ErrorCode::InvalidPaymentTerms);
    }
    Ok(
        RecurringPayment {
            payer,
            recipient,
            amount,
            interval_seconds,
            total_payments,
            payments_made: 0,
            created_at: now,
            last_payment_at: 0,
            is_active: true,
            description,
        },
    )
}

/// Makes the next payment when it is due: the first one at once, each later
/// one no sooner than `interval_seconds` after the previous.
pub fn execute_recurring_payment(payment: &mut RecurringPayment, caller: &Pubkey, now: i64) -> (r:
    Result<Transfer, ErrorCode>)
    ensures
        r == execute_outcome(*old(payment), *caller, now),
        r is Ok ==> *final(payment) == after_payment(*old(payment), now),
        r is Err ==> *final(payment) == *old(payment),
        old(payment).wf() ==> final(payment).wf(),
{
    if !payment.payer.same_as(caller) {
        return Err(ErrorCode::Unauthorized);
    }
    if !payment.is_active || payment.payments_made >= payment.total_payments {
        return Err(ErrorCode::AllPaymentsCompleted);
    }
    if payment.payments_made > 0 {
        let since_last: i128 = now as i128 - payment.last_payment_at as i128;
        if since_last < payment.interval_seconds as i128 {
            return Err(ErrorCode::PaymentNotDue);
        }
    }
    payment.payments_made = payment.payments_made + 1;
    payment.last_payment_at = now;
    if payment.payments_made >= payment.total_payments {
        payment.is_active = false;
    }
    Ok(
        Transfer {
            from: Endpoint::Party(payment.payer),
            to: Endpoint::Party(payment.recipient),
            amount: payment.amount,
        },
    )
}

/// Stops the schedule. No funds are held in advance, so nothing is refunded.
pub fn cancel_recurring_payment(payment: &mut RecurringPayment, caller: &Pubkey) -> (r: Result<
    (),
    ErrorCode,
>)
    ensures
        r is Err <==> caller@ != old(payment).payer@,
        r is Err ==> r == Err::<(), ErrorCode>(ErrorCode::Unauthorized) && *final(payment) == *old(
            payment,
        ),
        r is Ok ==> *final(payment) == (RecurringPayment { is_active: false, ..*old(payment) }),
        old(payment).wf() ==> final(payment).wf(),
{
    if !payment.payer.same_as(caller) {
        return Err(ErrorCode::Unauthorized);
    }
    payment.is_active = false;
    Ok(())
}

} // verus!
