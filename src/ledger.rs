use vstd::prelude::*;
use crate::pubkey::Pubkey;

verus! {

/// One side of a balance transfer.
#[derive(Clone, Copy, Debug, PartialEq, Eq)]
pub enum Endpoint {
    /// A party's own balance.
    Party(Pubkey),
    /// The holding that belongs to the record being operated on: the escrow's
    /// earmarked balance, the multisig's vault or the staking pool's vault.
    Custody,
}

/// A balance movement that an accepted operation asks the ledger to perform.
#[derive(Clone, Copy, Debug, PartialEq, Eq)]
pub struct Transfer {
    pub from: Endpoint,
    pub to: Endpoint,
    pub amount: u64,
}

} // verus!
