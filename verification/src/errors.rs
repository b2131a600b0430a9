//! The error kinds that a rejected operation reports.

use vstd::prelude::*;

verus! {

/// Every failure of the engine: a local, synchronous validation failure that
/// aborts the enclosing operation with no effect on the state it was given.
#[derive(Clone, Copy, Debug, PartialEq, Eq, Structural)]
pub enum ErrorVault {
    /// A fee rate above 10000 basis points.
    InvalidFeeBps,
    /// A vault name longer than 32 characters.
    NameTooLong,
    /// A metadata URI longer than 200 characters.
    MetadataUriTooLong,
    /// A member role longer than 16 characters.
    RoleTooLong,
    /// An allocation above 10000 basis points, or a member whose payout
    /// amount cannot be resolved from any allocation field.
    InvalidAllocationBps,
    /// A deposit in an asset the vault has not whitelisted.
    AssetNotWhitelisted,
    /// A whitelist that already holds its maximum of three assets.
    TooManyAssets,
    /// An asset that is already on the whitelist.
    AssetAlreadyWhitelisted,
    /// A new member whose wallet is already on the roster.
    MemberAlreadyExists,
    /// An edit or removal aimed at a wallet that is not on the roster.
    MemberNotFound,
    /// A payout to a member whose active flag is off.
    MemberNotActive,
    /// A roster change that would push the allocation total over the cap.
    AllocationExceeded,
    /// A batch of members whose declared allocations together exceed the cap.
    TotalAllocationExceeded,
    /// A payout larger than the vault's balance.
    InsufficientBalance,
    /// A payout or second finalization against a finalized batch.
    BatchAlreadyFinalized,
    /// A scheduled payout while no schedule is set or the schedule is off.
    PayoutScheduleNotActive,
    /// A scheduled payout before the next due timestamp.
    PayoutTimeNotReached,
    /// A fee destination that is not the configured treasury.
    InvalidTreasury,
    /// A payout destination that is not the member's wallet.
    InvalidMemberWallet,
}

} // verus!
