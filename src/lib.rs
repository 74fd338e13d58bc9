//! Escrow, recurring payment, threshold multisig and tiered staking rules,
//! stated as verified state transitions over plain records.
//!
//! Each operation validates a record against the caller and the ledger's
//! clock (`now`, passed in). It either refuses with an [`ErrorCode`] and
//! leaves every record as it was, or updates the record and returns the
//! [`Transfer`] that the ledger must perform. Operations that end a record's
//! life take it as `&mut Option<_>` and leave `None` behind.
pub mod error;
pub mod escrow;
pub mod instruction;
pub mod ledger;
pub mod multisig;
pub mod pubkey;
pub mod recurring;
pub mod rewards;
pub mod staking;

pub use error::{ErrorCode, ErrorKind};
pub use escrow::{
    cancel_escrow, claim_escrow, create_escrow, fund_escrow, CreateEscrowArgs, EscrowAccount,
};
pub use instruction::{discriminator, instruction_kind, InstructionKind, DISCRIMINATOR_LEN};
pub use ledger::{Endpoint, Transfer};
pub use multisig::{
    approve_transaction, create_multisig, execute_transaction, propose_transaction,
    reject_transaction, CreateMultisigArgs, Multisig, MultisigTransaction, ProposeTransactionArgs,
};
pub use pubkey::{contains_key, Pubkey};
pub use recurring::{
    cancel_recurring_payment, create_recurring_payment, execute_recurring_payment,
    CreateRecurringPaymentArgs, PaymentInterval, RecurringPayment,
};
pub use rewards::{accrue, effective_apy_of, tier_for, LockPeriod, StakingTier};
pub use staking::{
    claim_rewards, compound_rewards, initialize_staking_pool, stake, unstake,
    InitializeStakingPoolArgs, StakeArgs, StakingPool, UnstakeArgs, UserStake,
};
