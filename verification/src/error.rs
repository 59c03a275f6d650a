//! Typed failures of the engine.

use vstd::prelude::*;

verus! {

/// Every way a command can be refused. A refusal is final: the engine never
/// retries on its own.
#[derive(Clone, Copy, Debug, PartialEq, Eq, Structural)]
pub enum ContractError {
    /// The caller may not perform this operation: an administrator's command
    /// from someone else, or a settlement asked for by someone who is neither
    /// the seller nor the highest bidder.
    Unauthorized,
    /// No auction is registered under the given id.
    AuctionNotFound,
    /// The auction's end time has passed.
    AuctionEnded,
    /// The bid does not reach the minimum acceptable amount.
    BidTooLow,
    /// The winning bid is below the reserve price.
    ReserveNotMet,
    /// The auction has no buy-now price.
    NoBuyNowPrice,
    /// The auction is not in the state the operation needs.
    AuctionNotActive,
    /// The funds sent with the command do not cover the amount due.
    InsufficientFunds,
    /// Only the auction's creator may perform this operation. No command
    /// answers with it: closing refuses an unauthorised caller with
    /// `AuctionNotActive`, settlement with `Unauthorized`.
    NotCreator,
    /// The auction has been settled already.
    AlreadySettled,
    /// The address has no valid identity verification.
    KycRequired,
    /// The address's identity verification has expired.
    KycExpired,
    /// The address is verified at a lower level than the operation needs.
    InsufficientKycLevel { required: u8, has: u8 },
    /// The address is on the blacklist.
    Blacklisted,
    /// The fee rate is above 100 %.
    InvalidFeeRate,
    /// A time or an id does not fit in 64 bits.
    Overflow,
}

} // verus!
