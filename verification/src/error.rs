//! The reasons for which an operation is refused.

use vstd::prelude::*;

verus! {

/// Why an operation was refused. A refused operation leaves every ledger as it was.
#[derive(Clone, Copy, Debug, PartialEq, Eq, Structural)]
pub enum ReaderError {
    /// The oracle account belongs to another program.
    WrongOwner,
    /// The oracle account holds too few bytes.
    DataTooSmall,
    /// The oracle payload could not be decoded.
    DeserializeFail,
    /// A parameter is out of its range.
    BadParam,
    /// The market takes no trades any more.
    MarketClosed,
    /// The market is in the wrong lifecycle state for the operation.
    WrongState,
    /// The signer does not own the position, or is not the administrator.
    NotOwner,
    /// The position holds no shares to sell.
    InsufficientShares,
    /// The pooled vault cannot cover the payout.
    NoCoverage,
    /// The start price was already taken.
    AlreadySnapshotted,
    /// The start price was never taken.
    NotSnapshotted,
    /// The oracle sample is too old.
    StaleOracle,
    /// The signer is not the linked funding authority.
    Unauthorized,
    /// The user's custody balance is too small.
    InsufficientBalance,
    /// Trading is locked ahead of the market's end.
    TradingLocked,
    /// The execution price of a buy is above its limit.
    PriceLimitExceeded,
    /// The execution price of a sell is below its limit.
    PriceLimitNotMet,
    /// The execution price left the slippage band.
    SlippageExceeded,
    /// The reference quote is older than thirty seconds.
    StaleQuote,
    /// The total cost is above its cap.
    CostExceedsLimit,
    /// Less than the minimum fill can be executed.
    MinFillNotMet,
    /// No guard is set that could explain the refusal.
    InvalidGuardConfig,
    /// The order's signature is not authentic.
    InvalidSignature,
    /// The order has expired.
    OrderExpired,
    /// The order's nonce was consumed before.
    NonceAlreadyUsed,
    /// The current price does not meet the order's limit.
    PriceConditionNotMet,
    /// The order names another market.
    WrongMarket,
    /// The order names another user.
    WrongUser,
    /// The action is neither buy nor sell.
    InvalidAction,
}

} // verus!
