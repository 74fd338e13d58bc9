use vstd::prelude::*;
use crate::error::ErrorCode;
use crate::ledger::{Endpoint, Transfer};
use crate::pubkey::Pubkey;

verus! {

/// A time-bounded transfer of `amount` from `creator` to `recipient`.
/// While funded, the escrow's custody holds `amount` for it. The creator is
/// the record's close authority.
#[derive(Clone, Debug)]
pub struct EscrowAccount {
    pub creator: Pubkey,
    pub recipient: Pubkey,
    pub amount: u64,
    pub created_at: i64,
    pub expiry_time: i64,
    pub is_funded: bool,
    pub description: String,
}

/// Arguments of an escrow's creation, as a client sends them.
#[derive(Clone, Debug)]
pub struct CreateEscrowArgs {
    pub amount: u64,
    pub recipient: Pubkey,
    pub expiry_time: i64,
    pub description: String,
}

/// The condition under which the recipient may claim.
pub open spec fn claimable(e: EscrowAccount, caller: Pubkey, now: i64) -> bool {
    e.is_funded && now < e.expiry_time && caller@ == e.recipient@
}

/// What `fund_escrow` answers.
pub open spec fn fund_outcome(e: EscrowAccount, caller: Pubkey, now: i64) -> Result<
    Transfer,
    ErrorCode,
> {
    if e.is_funded {
        Err(ErrorCode::AlreadyFunded)
    } else if now >= e.expiry_time {
        Err(ErrorCode::EscrowExpired)
    } else if caller@ != e.creator@ {
        Err(ErrorCode::Unauthorized)
    } else {
        Ok(Transfer { from: Endpoint::Party(e.creator), to: Endpoint::Custody, amount: e.amount })
    }
}

/// What `claim_escrow` answers; an escrow that is gone cannot be claimed.
pub open spec fn claim_outcome(slot: Option<EscrowAccount>, caller: Pubkey, now: i64) -> Result<
    Transfer,
    ErrorCode,
> {
    match slot {
        None => Err(ErrorCode::AccountClosed),
        Some(e) => if !e.is_funded {
            Err(ErrorCode::NotFunded)
        } else if caller@ != e.recipient@ {
            Err(ErrorCode::Unauthorized)
        } else if now >= e.expiry_time {
            Err(ErrorCode::EscrowExpired)
        } else {
            Ok(Transfer { from: Endpoint::Custody, to: Endpoint::Party(e.recipient), amount: e.amount })
        },
    }
}

/// What `cancel_escrow` answers: the refund, if the escrow was funded.
pub open spec fn cancel_outcome(slot: Option<EscrowAccount>, caller: Pubkey, now: i64) -> Result<
    Option<Transfer>,
    ErrorCode,
> {
    match slot {
        None => Err(ErrorCode::AccountClosed),
        Some(e) => if caller@ != e.creator@ {
            Err(ErrorCode::Unauthorized)
        } else if now < e.expiry_time {
            Err(ErrorCode::EscrowNotExpired)
        } else if e.is_funded {
            Ok(Some(Transfer { from: Endpoint::Custody, to: Endpoint::Party(e.creator), amount: e.amount }))
        } else {
            Ok(None)
        },
    }
}

/// A new, unfunded escrow created by `creator` at time `now`; refused unless
/// the expiry lies in the future.
pub fn create_escrow(
    creator: Pubkey,
    amount: u64,
    recipient: Pubkey,
    expiry_time: i64,
    description: String,
    now: i64,
) -> (r: Result<EscrowAccount, ErrorCode>)
    ensures
        r is Err <==> expiry_time <= now,
        r is Err ==> r == Err::<EscrowAccount, ErrorCode>(ErrorCode::InvalidExpiry),
        r matches Ok(e) ==> e == (EscrowAccount {
            creator,
            recipient,
            amount,
            created_at: now,
            expiry_time,
            is_funded: false,
            description,
        }),
{
    if expiry_time <= now {
        return Err(ErrorCode::InvalidExpiry);
    }
    Ok(
        EscrowAccount {
            creator,
            recipient,
            amount,
            created_at: now,
            expiry_time,
            is_funded: false,
            description,
        },
    )
}

/// Moves `amount` from the creator into the escrow's custody, once, before expiry.
pub fn fund_escrow(escrow: &mut EscrowAccount, caller: &Pubkey, now: i64) -> (r: Result<
    Transfer,
    ErrorCode,
>)
    ensures
        r == fund_outcome(*old(escrow), *caller, now),
        r is Ok ==> *final(escrow) == (EscrowAccount { is_funded: true, ..*old(escrow) }),
        r is Err ==> *final(escrow) == *old(escrow),
{
    if escrow.is_funded {
        return Err(ErrorCode::AlreadyFunded);
    }
    if now >= escrow.expiry_time {
        return Err(ErrorCode::EscrowExpired);
    }
    if !escrow.creator.same_as(caller) {
        return Err(ErrorCode::Unauthorized);
    }
    escrow.is_funded = true;
    Ok(Transfer { from: Endpoint::Party(escrow.creator), to: Endpoint::Custody, amount: escrow.amount })
}

/// Pays the escrowed amount to the recipient and closes the escrow
/// (`*escrow` becomes `None`).
pub fn claim_escrow(escrow: &mut Option<EscrowAccount>, caller: &Pubkey, now: i64) -> (r: Result<
    Transfer,
    ErrorCode,
>)
    ensures
        r == claim_outcome(*old(escrow), *caller, now),
        r is Ok ==> *final(escrow) is None,
        r is Err ==> *final(escrow) == *old(escrow),
{
    let transfer = match escrow {
        None => {
            return Err(ErrorCode::AccountClosed);
        },
        Some(e) => {
            if !e.is_funded {
                return Err(ErrorCode::NotFunded);
            }
            if !e.recipient.same_as(caller) {
                return Err(ErrorCode::Unauthorized);
            }
            if now >= e.expiry_time {
                return Err(ErrorCode::EscrowExpired);
            }
            Transfer { from: Endpoint::Custody, to: Endpoint::Party(e.recipient), amount: e.amount }
        },
    };
    *escrow = None;
    Ok(transfer)
}

/// Lets the creator close an expired escrow, refunding the amount if it was
/// funded. An unfunded escrow cannot be cancelled before it expires.
pub fn cancel_escrow(escrow: &mut Option<EscrowAccount>, caller: &Pubkey, now: i64) -> (r: Result<
    Option<Transfer>,
    ErrorCode,
>)
    ensures
        r == cancel_outcome(*old(escrow), *caller, now),
        r is Ok ==> *final(escrow) is None,
        r is Err ==> *final(escrow) == *old(escrow),
{
    let refund = match escrow {
        None => {
            return Err(ErrorCode::AccountClosed);
        },
        Some(e) => {
            if !e.creator.same_as(caller) {
                return Err(ErrorCode::Unauthorized);
            }
            if now < e.expiry_time {
                return Err(ErrorCode::EscrowNotExpired);
            }
            if e.is_funded {
                Some(Transfer { from: Endpoint::Custody, to: Endpoint::Party(e.creator), amount: e.amount })
            } else {
                None
            }
        },
    };
    *escrow = None;
    Ok(refund)
}

/// A claim succeeds exactly when the escrow is funded, unexpired, and the
/// caller is its recipient; once it has succeeded, every later claim fails.
pub proof fn lemma_claim_once(e: EscrowAccount, caller: Pubkey, now: i64, later_caller: Pubkey, later: i64)
    ensures
        claim_outcome(Some(e), caller, now) is Ok <==> claimable(e, caller, now),
        claim_outcome(Some(e), caller, now) is Ok ==> claim_outcome(None, later_caller, later) is Err,
{
}

} // verus!
