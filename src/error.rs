use vstd::prelude::*;

use crate::timelocks::TimelockStage;

verus! {

/// Why an escrow operation was refused. A refused operation leaves the escrow
/// exactly as it was.
#[derive(Clone, Copy, PartialEq, Eq, Structural, Debug)]
pub enum EscrowError {
    /// The order hash is not 64 hex digits, with an optional `0x` prefix.
    InvalidOrderHash,
    /// The hashlock is not 64 hex digits, with an optional `0x` prefix.
    InvalidHashlock,
    /// The counterparty address is not 40 hex digits, with an optional `0x` prefix.
    InvalidEvmAddress,
    /// An account identifier is not a valid NEAR account id.
    InvalidAccountId,
    /// The principal amount is zero.
    ZeroAmount,
    /// `amount + safety_deposit` does not fit in 128 bits.
    DepositOverflow,
    /// The withdrawal timelock is not after the creation time.
    WithdrawalNotInFuture,
    /// The public withdrawal timelock is not after the withdrawal timelock.
    PublicWithdrawalNotAfterWithdrawal,
    /// The cancellation timelock is not after the public withdrawal timelock.
    CancellationNotAfterPublicWithdrawal,
    /// The withdrawal timelock is closer to the creation time than the minimum delay.
    WithdrawalTooSoon,
    /// The cancellation timelock lies beyond the maximum horizon.
    CancellationTooFar,
    /// A timestamp computed from the inputs does not fit in 64 bits.
    TimestampOverflow,
    /// The attached value is below `amount + safety_deposit`.
    InsufficientDeposit,
    /// The given stage has not been reached yet.
    TimelockNotMet(TimelockStage),
    /// The escrow was already withdrawn or cancelled.
    AlreadyFinalized,
    /// The secret does not hash to the hashlock.
    InvalidSecret,
    /// The caller is not allowed to perform the operation.
    Unauthorized,
}

/// Why an auction query was refused.
#[derive(Clone, Copy, PartialEq, Eq, Structural, Debug)]
pub enum AuctionError {
    /// The auction window has already closed.
    AuctionExpired,
    /// An amount underflowed, overflowed or was divided by zero.
    Arithmetic,
}

} // verus!
