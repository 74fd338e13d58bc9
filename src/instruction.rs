use vstd::prelude::*;

verus! {

/// Length of the tag that opens every instruction.
pub const DISCRIMINATOR_LEN: usize = 8;

/// The operation an instruction asks for.
#[derive(Clone, Copy, Debug, PartialEq, Eq, Structural)]
pub enum InstructionKind {
    CreateEscrow,
    FundEscrow,
    ClaimEscrow,
    CancelEscrow,
    CreateMultisig,
    ProposeTransaction,
    ApproveTransaction,
    ExecuteTransaction,
    RejectTransaction,
    InitializeStakingPool,
    Stake,
    ClaimRewards,
    Unstake,
    CompoundRewards,
    CreateRecurringPayment,
    ExecuteRecurringPayment,
    CancelRecurringPayment,
}

/// The eight-byte tag of each operation.
pub open spec fn discriminator_of(k: InstructionKind) -> Seq<u8> {
    match k {
        InstructionKind::CreateEscrow => seq![0xfd, 0xd7, 0xa5, 0x74, 0x24, 0x6c, 0x44, 0x50],
        InstructionKind::FundEscrow => seq![0x9b, 0x12, 0xda, 0x8d, 0xb6, 0xd5, 0x45, 0xc9],
        InstructionKind::ClaimEscrow => seq![0xc8, 0x50, 0xb6, 0x9f, 0x3d, 0x4b, 0x09, 0xcd],
        InstructionKind::CancelEscrow => seq![0x9c, 0xcb, 0x36, 0xb3, 0x26, 0x48, 0x21, 0x15],
        InstructionKind::CreateMultisig => seq![0x9c, 0x32, 0x7e, 0x9b, 0x5d, 0x4f, 0x8a, 0x12],
        InstructionKind::ProposeTransaction => seq![0x7a, 0x3d, 0x8e, 0x6f, 0x1c, 0x9b, 0x4a, 0x5d],
        InstructionKind::ApproveTransaction => seq![0x3b, 0x8f, 0x2d, 0x6a, 0x7e, 0x1c, 0x9d, 0x4f],
        InstructionKind::ExecuteTransaction => seq![0x5c, 0x9a, 0x3f, 0x7b, 0x2e, 0x6d, 0x1a, 0x8c],
        InstructionKind::RejectTransaction => seq![0x4d, 0x7e, 0x2b, 0x9f, 0x3c, 0x8a, 0x5d, 0x1e],
        InstructionKind::InitializeStakingPool => seq![0x95, 0xc0, 0xa0, 0xfe, 0xf8, 0x6c, 0x5c, 0x9d],
        InstructionKind::Stake => seq![0xf2, 0xc7, 0x7e, 0x4d, 0x7d, 0x5e, 0x5b, 0xa9],
        InstructionKind::ClaimRewards => seq![0x62, 0x19, 0x8f, 0x6e, 0x9f, 0x30, 0x8b, 0x1a],
        InstructionKind::Unstake => seq![0x90, 0x95, 0xeb, 0xf9, 0xfe, 0xfd, 0x90, 0x66],
        InstructionKind::CompoundRewards => seq![0x8b, 0x7f, 0xd6, 0x4e, 0xa7, 0x5f, 0x3c, 0x2d],
        InstructionKind::CreateRecurringPayment => seq![0x6a, 0x4e, 0x8f, 0x3d, 0x9c, 0x7b, 0x2a, 0x5f],
        InstructionKind::ExecuteRecurringPayment => seq![0x7b, 0x5f, 0x9e, 0x4c, 0x8d, 0x6a, 0x3b, 0x1e],
        InstructionKind::CancelRecurringPayment => seq![0x8c, 0x6d, 0x9f, 0x5b, 0x7e, 0x4a, 0x2c, 0x1d],
    }
}

/// `data` opens with the tag of `k`.
pub open spec fn tagged_as(data: Seq<u8>, k: InstructionKind) -> bool {
    data.len() >= DISCRIMINATOR_LEN && data.subrange(0, DISCRIMINATOR_LEN as int) == discriminator_of(k)
}

/// The tag of `kind`.
pub fn discriminator(kind: InstructionKind) -> (r: Vec<u8>)
    ensures
        r@ == discriminator_of(kind),
{
    match kind {
        InstructionKind::CreateEscrow => vec![0xfd, 0xd7, 0xa5, 0x74, 0x24, 0x6c, 0x44, 0x50],
        InstructionKind::FundEscrow => vec![0x9b, 0x12, 0xda, 0x8d, 0xb6, 0xd5, 0x45, 0xc9],
        InstructionKind::ClaimEscrow => vec![0xc8, 0x50, 0xb6, 0x9f, 0x3d, 0x4b, 0x09, 0xcd],
        InstructionKind::CancelEscrow => vec![0x9c, 0xcb, 0x36, 0xb3, 0x26, 0x48, 0x21, 0x15],
        InstructionKind::CreateMultisig => vec![0x9c, 0x32, 0x7e, 0x9b, 0x5d, 0x4f, 0x8a, 0x12],
        InstructionKind::ProposeTransaction => vec![0x7a, 0x3d, 0x8e, 0x6f, 0x1c, 0x9b, 0x4a, 0x5d],
        InstructionKind::ApproveTransaction => vec![0x3b, 0x8f, 0x2d, 0x6a, 0x7e, 0x1c, 0x9d, 0x4f],
        InstructionKind::ExecuteTransaction => vec![0x5c, 0x9a, 0x3f, 0x7b, 0x2e, 0x6d, 0x1a, 0x8c],
        InstructionKind::RejectTransaction => vec![0x4d, 0x7e, 0x2b, 0x9f, 0x3c, 0x8a, 0x5d, 0x1e],
        InstructionKind::InitializeStakingPool => vec![0x95, 0xc0, 0xa0, 0xfe, 0xf8, 0x6c, 0x5c, 0x9d],
        InstructionKind::Stake => vec![0xf2, 0xc7, 0x7e, 0x4d, 0x7d, 0x5e, 0x5b, 0xa9],
        InstructionKind::ClaimRewards => vec![0x62, 0x19, 0x8f, 0x6e, 0x9f, 0x30, 0x8b, 0x1a],
        InstructionKind::Unstake => vec![0x90, 0x95, 0xeb, 0xf9, 0xfe, 0xfd, 0x90, 0x66],
        InstructionKind::CompoundRewards => vec![0x8b, 0x7f, 0xd6, 0x4e, 0xa7, 0x5f, 0x3c, 0x2d],
        InstructionKind::CreateRecurringPayment => vec![0x6a, 0x4e, 0x8f, 0x3d, 0x9c, 0x7b, 0x2a, 0x5f],
        InstructionKind::ExecuteRecurringPayment => vec![0x7b, 0x5f, 0x9e, 0x4c, 0x8d, 0x6a, 0x3b, 0x1e],
        InstructionKind::CancelRecurringPayment => vec![0x8c, 0x6d, 0x9f, 0x5b, 0x7e, 0x4a, 0x2c, 0x1d],
    }
}

fn starts_with(data: &[u8], tag: &Vec<u8>) -> (r: bool)
    ensures
        r == (data@.len() >= tag@.len() && data@.subrange(0, tag@.len() as int) == tag@),
{
    if data.len() < tag.len() {
        return false;
    }
    let mut i: usize = 0;
    while i < tag.len()
        invariant
            0 <= i <= tag@.len() <= data@.len(),
            forall|j: int| 0 <= j < i ==> data@[j] == tag@[j],
        decreases tag@.len() - i,
    {
        if data[i] != tag[i] {
            assert(data@.subrange(0, tag@.len() as int)[i as int] != tag@[i as int]);
            return false;
        }
        i = i + 1;
    }
    assert(data@.subrange(0, tag@.len() as int) =~= tag@);
    true
}

/// The operation whose tag opens `data`, or `None` where `data` is shorter
/// than a tag or opens with no known one. The arguments follow the tag.
pub fn instruction_kind(data: &[u8]) -> (r: Option<InstructionKind>)
    ensures
        r matches Some(k) ==> tagged_as(data@, k),
        r is None ==> forall|k: InstructionKind| !tagged_as(data@, k),
{
    if starts_with(data, &discriminator(InstructionKind::CreateEscrow)) {
        return Some(InstructionKind::CreateEscrow);
    }
    if starts_with(data, &discriminator(InstructionKind::FundEscrow)) {
        return Some(InstructionKind::FundEscrow);
    }
    if starts_with(data, &discriminator(InstructionKind::ClaimEscrow)) {
        return Some(InstructionKind::ClaimEscrow);
    }
    if starts_with(data, &discriminator(InstructionKind::CancelEscrow)) {
        return Some(InstructionKind::CancelEscrow);
    }
    if starts_with(data, &discriminator(InstructionKind::CreateMultisig)) {
        return Some(InstructionKind::CreateMultisig);
    }
    if starts_with(data, &discriminator(InstructionKind::ProposeTransaction)) {
        return Some(InstructionKind::ProposeTransaction);
    }
    if starts_with(data, &discriminator(InstructionKind::ApproveTransaction)) {
        return Some(InstructionKind::ApproveTransaction);
    }
    if starts_with(data, &discriminator(InstructionKind::ExecuteTransaction)) {
        return Some(InstructionKind::ExecuteTransaction);
    }
    if starts_with(data, &discriminator(InstructionKind::RejectTransaction)) {
        return Some(InstructionKind::RejectTransaction);
    }
    if starts_with(data, &discriminator(InstructionKind::InitializeStakingPool)) {
        return Some(InstructionKind::InitializeStakingPool);
    }
    if starts_with(data, &discriminator(InstructionKind::Stake)) {
        return Some(InstructionKind::Stake);
    }
    if starts_with(data, &discriminator(InstructionKind::ClaimRewards)) {
        return Some(InstructionKind::ClaimRewards);
    }
    if starts_with(data, &discriminator(InstructionKind::Unstake)) {
        return Some(InstructionKind::Unstake);
    }
    if starts_with(data, &discriminator(InstructionKind::CompoundRewards)) {
        return Some(InstructionKind::CompoundRewards);
    }
    if starts_with(data, &discriminator(InstructionKind::CreateRecurringPayment)) {
        return Some(InstructionKind::CreateRecurringPayment);
    }
    if starts_with(data, &discriminator(InstructionKind::ExecuteRecurringPayment)) {
        return Some(InstructionKind::ExecuteRecurringPayment);
    }
    if starts_with(data, &discriminator(InstructionKind::CancelRecurringPayment)) {
        return Some(InstructionKind::CancelRecurringPayment);
    }
    assert forall|k: InstructionKind| !tagged_as(data@, k) by {
        match k {
            InstructionKind::CreateEscrow => {},
            InstructionKind::FundEscrow => {},
            InstructionKind::ClaimEscrow => {},
            InstructionKind::CancelEscrow => {},
            InstructionKind::CreateMultisig => {},
            InstructionKind::ProposeTransaction => {},
            InstructionKind::ApproveTransaction => {},
            InstructionKind::ExecuteTransaction => {},
            InstructionKind::RejectTransaction => {},
            InstructionKind::InitializeStakingPool => {},
            InstructionKind::Stake => {},
            InstructionKind::ClaimRewards => {},
            InstructionKind::Unstake => {},
            InstructionKind::CompoundRewards => {},
            InstructionKind::CreateRecurringPayment => {},
            InstructionKind::ExecuteRecurringPayment => {},
            InstructionKind::CancelRecurringPayment => {},
        }
    }
    None
}

} // verus!
