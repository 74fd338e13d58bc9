use vstd::prelude::*;
use crate::error::ErrorCode;
use crate::ledger::{Endpoint, Transfer};
use crate::pubkey::{contains_key, has_key, keys_distinct, Pubkey};

verus! {

/// Largest number of owners a multisig may have.
pub const MAX_OWNERS: usize = 10;

/// A set of owners that approves transfers out of a shared vault once
/// `threshold` of them agree. The owner list is kept as given.
#[derive(Clone, Debug)]
pub struct Multisig {
    pub creator: Pubkey,
    pub owners: Vec<Pubkey>,
    pub threshold: u64,
    /// Index the next proposal will receive; indices are never reused.
    pub transaction_count: u64,
    pub created_at: i64,
}

/// A proposed transfer out of a multisig's vault.
#[derive(Clone, Debug)]
pub struct MultisigTransaction {
    /// Address of the multisig the proposal belongs to.
    pub multisig: Pubkey,
    pub recipient: Pubkey,
    pub amount: u64,
    pub transaction_index: u64,
    pub approvals: Vec<Pubkey>,
    pub executed: bool,
    pub proposer: Pubkey,
    pub created_at: i64,
    pub description: String,
}

/// Arguments of a multisig's creation, as a client sends them.
#[derive(Clone, Debug)]
pub struct CreateMultisigArgs {
    pub owners: Vec<Pubkey>,
    pub threshold: u64,
}

/// Arguments of a proposal, as a client sends them.
#[derive(Clone, Debug)]
pub struct ProposeTransactionArgs {
    pub amount: u64,
    pub recipient: Pubkey,
    pub description: String,
}

impl Multisig {
    pub open spec fn wf(&self) -> bool {
        &&& self.owners@.len() <= MAX_OWNERS
        &&& 1 <= self.threshold <= self.owners@.len()
    }

    pub open spec fn is_owner(&self, k: Pubkey) -> bool {
        has_key(self.owners@, k)
    }
}

/// Every approval comes from an owner, and no owner approves twice.
pub open spec fn approvals_valid(ms: Multisig, tx: MultisigTransaction) -> bool {
    &&& keys_distinct(tx.approvals@)
    &&& forall|i: int| 0 <= i < tx.approvals@.len() ==> #[trigger] ms.is_owner(tx.approvals@[i])
}

/// What `execute_transaction` answers.
pub open spec fn execute_outcome(ms: Multisig, tx: MultisigTransaction) -> Result<Transfer, ErrorCode> {
    if tx.executed {
        Err(ErrorCode::AlreadyExecuted)
    } else if tx.approvals@.len() < ms.threshold {
        Err(ErrorCode::InsufficientApprovals)
    } else {
        Ok(Transfer { from: Endpoint::Custody, to: Endpoint::Party(tx.recipient), amount: tx.amount })
    }
}

/// What `approve_transaction` answers.
pub open spec fn approve_outcome(ms: Multisig, tx: MultisigTransaction, owner: Pubkey) -> Result<
    (),
    ErrorCode,
> {
    if !ms.is_owner(owner) {
        Err(ErrorCode::NotAnOwner)
    } else if tx.executed {
        Err(ErrorCode::AlreadyExecuted)
    } else if has_key(tx.approvals@, owner) {
        Err(ErrorCode::AlreadyApproved)
    } else {
        Ok(())
    }
}

/// What `reject_transaction` answers.
pub open spec fn reject_outcome(
    ms: Multisig,
    slot: Option<MultisigTransaction>,
    owner: Pubkey,
) -> Result<(), ErrorCode> {
    match slot {
        None => Err(ErrorCode::AccountClosed),
        Some(tx) => if !ms.is_owner(owner) {
            Err(ErrorCode::NotAnOwner)
        } else if tx.executed {
            Err(ErrorCode::AlreadyExecuted)
        } else {
            Ok(())
        },
    }
}

/// A new multisig; refused with more than `MAX_OWNERS` owners or a threshold
/// outside `1..=owners.len()`.
pub fn create_multisig(creator: Pubkey, owners: Vec<Pubkey>, threshold: u64, now: i64) -> (r:
    Result<Multisig, ErrorCode>)
    ensures
        owners@.len() > MAX_OWNERS ==> r == Err::<Multisig, ErrorCode>(ErrorCode::TooManyOwners),
        owners@.len() <= MAX_OWNERS && (threshold == 0 || threshold > owners@.len()) ==> r == Err::<
            Multisig,
            ErrorCode,
        >(ErrorCode::InvalidThreshold),
        r is Ok <==> owners@.len() <= MAX_OWNERS && 1 <= threshold <= owners@.len(),
        r matches Ok(ms) ==> {
            &&& ms.creator == creator
            &&& ms.owners@ == owners@
            &&& ms.threshold == threshold
            &&& ms.transaction_count == 0
            &&& ms.created_at == now
            &&& ms.wf()
        },
{
    if owners.len() > MAX_OWNERS {
        return Err(ErrorCode::TooManyOwners);
    }
    if threshold == 0 || threshold > owners.len() as u64 {
        return Err(ErrorCode::InvalidThreshold);
    }
    Ok(Multisig { creator, owners, threshold, transaction_count: 0, created_at: now })
}

/// An owner proposes a transfer. The proposal takes the multisig's next index,
/// the counter advances, and the proposer's approval is recorded at once.
pub fn propose_transaction(
    multisig: &mut Multisig,
    multisig_key: &Pubkey,
    proposer: &Pubkey,
    amount: u64,
    recipient: Pubkey,
    description: String,
    now: i64,
) -> (r: Result<MultisigTransaction, ErrorCode>)
    ensures
        !old(multisig).is_owner(*proposer) ==> r == Err::<MultisigTransaction, ErrorCode>(
            ErrorCode::NotAnOwner,
        ),
        old(multisig).is_owner(*proposer) && old(multisig).transaction_count == u64::MAX ==> r
            == Err::<MultisigTransaction, ErrorCode>(ErrorCode::InvalidCalculation),
        r is Ok <==> old(multisig).is_owner(*proposer) && old(multisig).transaction_count < u64::MAX,
        r is Err ==> *final(multisig) == *old(multisig),
        r matches Ok(tx) ==> {
            &&& *final(multisig) == (Multisig {
                transaction_count: (old(multisig).transaction_count + 1) as u64,
                ..*old(multisig)
            })
            &&& tx.multisig == *multisig_key
            &&& tx.recipient == recipient
            &&& tx.amount == amount
            &&& tx.transaction_index == old(multisig).transaction_count
            &&& tx.approvals@ == seq![*proposer]
            &&& !tx.executed
            &&& tx.proposer == *proposer
            &&& tx.created_at == now
            &&& tx.description == description
            &&& approvals_valid(*final(multisig), tx)
        },
{
    if !contains_key(&multisig.owners, proposer) {
        return Err(ErrorCode::NotAnOwner);
    }
    if multisig.transaction_count == u64::MAX {
        return Err(ErrorCode::InvalidCalculation);
    }
    let index = multisig.transaction_count;
    multisig.transaction_count = index + 1;
    let approvals = vec![*proposer];
    let tx = MultisigTransaction {
        multisig: *multisig_key,
        recipient,
        amount,
        transaction_index: index,
        approvals,
        executed: false,
        proposer: *proposer,
        created_at: now,
        description,
    };
    assert(tx.approvals@[0] == *proposer);
    Ok(tx)
}

/// An owner adds their approval to a pending proposal.
pub fn approve_transaction(multisig: &Multisig, transaction: &mut MultisigTransaction, owner: &Pubkey) -> (r:
    Result<(), ErrorCode>)
    ensures
        r == approve_outcome(*multisig, *old(transaction), *owner),
        r is Err ==> *final(transaction) == *old(transaction),
        r is Ok ==> {
            &&& final(transaction).approvals@ == old(transaction).approvals@.push(*owner)
            &&& *final(transaction) == (MultisigTransaction {
                approvals: final(transaction).approvals,
                ..*old(transaction)
            })
        },
        approvals_valid(*multisig, *old(transaction)) ==> approvals_valid(*multisig, *final(transaction)),
{
    if !contains_key(&multisig.owners, owner) {
        return Err(ErrorCode::NotAnOwner);
    }
    if transaction.executed {
        return Err(ErrorCode::AlreadyExecuted);
    }
    if contains_key(&transaction.approvals, owner) {
        return Err(ErrorCode::AlreadyApproved);
    }
    transaction.approvals.push(*owner);
    proof {
        let a = transaction.approvals@;
        assert(a.last() == *owner);
        assert forall|i: int| 0 <= i < a.len() - 1 implies a[i] == old(transaction).approvals@[i] by {}
    }
    Ok(())
}

/// Sends the proposed amount from the vault, on the multisig's own authority,
/// once enough owners have approved. A proposal executes at most once.
pub fn execute_transaction(multisig: &Multisig, transaction: &mut MultisigTransaction) -> (r: Result<
    Transfer,
    ErrorCode,
>)
    ensures
        r == execute_outcome(*multisig, *old(transaction)),
        r is Ok ==> *final(transaction) == (MultisigTransaction { executed: true, ..*old(transaction) }),
        r is Err ==> *final(transaction) == *old(transaction),
{
    if transaction.executed {
        return Err(ErrorCode::AlreadyExecuted);
    }
    if (transaction.approvals.len() as u64) < multisig.threshold {
        return Err(ErrorCode::InsufficientApprovals);
    }
    transaction.executed = true;
    Ok(Transfer { from: Endpoint::Custody, to: Endpoint::Party(transaction.recipient), amount: transaction.amount })
}

/// Any single owner may veto a pending proposal, which closes it
/// (`*transaction` becomes `None`); its storage goes back to the proposer.
pub fn reject_transaction(multisig: &Multisig, transaction: &mut Option<MultisigTransaction>, owner: &Pubkey) -> (r:
    Result<(), ErrorCode>)
    ensures
        r == reject_outcome(*multisig, *old(transaction), *owner),
        r is Ok ==> *final(transaction) is None,
        r is Err ==> *final(transaction) == *old(transaction),
{
    match transaction {
        None => {
            return Err(ErrorCode::AccountClosed);
        },
        Some(tx) => {
            if !contains_key(&multisig.owners, owner) {
                return Err(ErrorCode::NotAnOwner);
            }
            if tx.executed {
                return Err(ErrorCode::AlreadyExecuted);
            }
        },
    }
    *transaction = None;
    Ok(())
}

/// A pending proposal executes exactly when it has at least `threshold`
/// approvals, and once executed, every further execution fails with
/// `AlreadyExecuted`.
pub proof fn lemma_execute_once(ms: Multisig, tx: MultisigTransaction)
    ensures
        !tx.executed ==> (execute_outcome(ms, tx) is Ok <==> tx.approvals@.len() >= ms.threshold),
        execute_outcome(ms, tx) is Ok ==> execute_outcome(
            ms,
            MultisigTransaction { executed: true, ..tx },
        ) == Err::<Transfer, ErrorCode>(ErrorCode::AlreadyExecuted),
{
}

/// An owner's approval is accepted at most once: after it is recorded, the
/// same owner's next approval fails with `AlreadyApproved` (or
/// `AlreadyExecuted` once the proposal has run).
pub proof fn lemma_approve_once(ms: Multisig, tx: MultisigTransaction, after: MultisigTransaction, owner: Pubkey)
    requires
        approve_outcome(ms, tx, owner) is Ok,
        after.approvals@ == tx.approvals@.push(owner),
        after.executed == tx.executed,
    ensures
        approve_outcome(ms, after, owner) == Err::<(), ErrorCode>(ErrorCode::AlreadyApproved),
{
    assert(after.approvals@[tx.approvals@.len() as int] == owner);
}

/// A proposal whose approvals are valid never has more approvals than the
/// multisig has owners.
pub proof fn lemma_approvals_bounded(ms: Multisig, tx: MultisigTransaction)
    requires
        approvals_valid(ms, tx),
    ensures
        tx.approvals@.len() <= ms.owners@.len(),
{
    let a = tx.approvals@.map_values(|k: Pubkey| k@);
    let o = ms.owners@.map_values(|k: Pubkey| k@);
    assert(a.no_duplicates()) by {
        assert forall|i: int, j: int| 0 <= i < a.len() && 0 <= j < a.len() && i != j implies a[i]
            != a[j] by {
            assert(tx.approvals@[i]@ != tx.approvals@[j]@);
        }
    }
    a.unique_seq_to_set();
    o.lemma_cardinality_of_set();
    assert(a.to_set().subset_of(o.to_set())) by {
        assert forall|v: Seq<u8>| a.to_set().contains(v) implies o.to_set().contains(v) by {
            let i = choose|i: int| 0 <= i < a.len() && a[i] == v;
            assert(ms.is_owner(tx.approvals@[i]));
            let j = choose|j: int| 0 <= j < ms.owners@.len() && ms.owners@[j]@ == tx.approvals@[i]@;
            assert(o[j] == v);
        }
    }
    vstd::set_lib::lemma_len_subset(a.to_set(), o.to_set());
}

/// An executed proposal is final: approving, executing or rejecting it again
/// is refused, so it never changes.
pub proof fn lemma_executed_is_final(ms: Multisig, tx: MultisigTransaction, owner: Pubkey)
    requires
        tx.executed,
    ensures
        approve_outcome(ms, tx, owner) is Err,
        execute_outcome(ms, tx) == Err::<Transfer, ErrorCode>(ErrorCode::AlreadyExecuted),
        reject_outcome(ms, Some(tx), owner) is Err,
{
}

} // verus!
