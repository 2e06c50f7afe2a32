//! Protection parameters that a caller attaches to a trade.

use vstd::prelude::*;
use crate::address::Address;

verus! {

/// An absolute price limit: the highest price of a buy, the lowest price of a sell.
#[derive(Clone, Copy, Debug)]
pub struct GuardConfig {
    /// The limit at the fixed-point scale; zero switches it off.
    pub price_limit_e6: i64,
}

impl GuardConfig {
    /// No limit.
    pub fn none() -> (g: GuardConfig)
        ensures
            g.price_limit_e6 == 0,
    {
        GuardConfig { price_limit_e6: 0 }
    }

    /// Whether a limit is set.
    pub open spec fn has_limit_spec(&self) -> bool {
        self.price_limit_e6 > 0
    }

    /// Whether a limit is set.
    #[verifier::when_used_as_spec(has_limit_spec)]
    pub fn has_limit(&self) -> (r: bool)
        ensures
            r == self.has_limit_spec(),
    {
        self.price_limit_e6 > 0
    }
}

/// A tolerated price movement, in basis points of the current price.
#[derive(Clone, Copy, Debug)]
pub struct SlippageConfig {
    /// The tolerance; zero switches it off.
    pub max_slippage_bps: u16,
}

impl SlippageConfig {
    /// No tolerance check.
    pub fn none() -> (s: SlippageConfig)
        ensures
            s.max_slippage_bps == 0,
    {
        SlippageConfig { max_slippage_bps: 0 }
    }

    /// Whether a tolerance is set.
    pub open spec fn has_slippage_limit_spec(&self) -> bool {
        self.max_slippage_bps > 0
    }

    /// Whether a tolerance is set.
    #[verifier::when_used_as_spec(has_slippage_limit_spec)]
    pub fn has_slippage_limit(&self) -> (r: bool)
        ensures
            r == self.has_slippage_limit_spec(),
    {
        self.max_slippage_bps > 0
    }
}

/// The full set of guards: price limit, slippage against a quote, cost cap,
/// and whether a smaller quantity may be executed instead.
#[derive(Clone, Copy, Debug)]
pub struct AdvancedGuardConfig {
    /// Highest price of a buy, lowest price of a sell; zero switches it off.
    pub price_limit_e6: i64,
    /// Tolerated deviation from the quote in basis points; zero switches it off.
    pub max_slippage_bps: u16,
    /// The reference price of the slippage check.
    pub quote_price_e6: i64,
    /// When the reference price was taken, in unix seconds.
    pub quote_timestamp: i64,
    /// Highest total cost of a buy; zero switches it off.
    pub max_total_cost_e6: i64,
    /// Whether a smaller quantity may be executed.
    pub allow_partial: bool,
    /// The smallest quantity worth executing.
    pub min_fill_shares_e6: i64,
}

impl AdvancedGuardConfig {
    /// Every guard switched off.
    pub fn none() -> (g: AdvancedGuardConfig)
        ensures
            g == (AdvancedGuardConfig {
                price_limit_e6: 0,
                max_slippage_bps: 0,
                quote_price_e6: 0,
                quote_timestamp: 0,
                max_total_cost_e6: 0,
                allow_partial: false,
                min_fill_shares_e6: 0,
            }),
    {
        AdvancedGuardConfig {
            price_limit_e6: 0,
            max_slippage_bps: 0,
            quote_price_e6: 0,
            quote_timestamp: 0,
            max_total_cost_e6: 0,
            allow_partial: false,
            min_fill_shares_e6: 0,
        }
    }

    /// Whether any guard is set.
    pub open spec fn has_any_guards_spec(&self) -> bool {
        self.price_limit_e6 > 0 || self.max_slippage_bps > 0 || self.max_total_cost_e6 > 0
    }

    /// Whether the absolute price limit is set.
    pub open spec fn has_price_limit_spec(&self) -> bool {
        self.price_limit_e6 > 0
    }

    /// Whether the slippage guard is set: a tolerance and a quote to hold it against.
    pub open spec fn has_slippage_guard_spec(&self) -> bool {
        self.max_slippage_bps > 0 && self.quote_price_e6 > 0
    }

    /// Whether the cost cap is set.
    pub open spec fn has_cost_limit_spec(&self) -> bool {
        self.max_total_cost_e6 > 0
    }

    /// Whether any guard is set.
    #[verifier::when_used_as_spec(has_any_guards_spec)]
    pub fn has_any_guards(&self) -> (r: bool)
        ensures
            r == self.has_any_guards_spec(),
    {
        self.price_limit_e6 > 0 || self.max_slippage_bps > 0 || self.max_total_cost_e6 > 0
    }

    /// Whether the absolute price limit is set.
    #[verifier::when_used_as_spec(has_price_limit_spec)]
    pub fn has_price_limit(&self) -> (r: bool)
        ensures
            r == self.has_price_limit_spec(),
    {
        self.price_limit_e6 > 0
    }

    /// Whether the slippage guard is set: a tolerance and a quote to hold it against.
    #[verifier::when_used_as_spec(has_slippage_guard_spec)]
    pub fn has_slippage_guard(&self) -> (r: bool)
        ensures
            r == self.has_slippage_guard_spec(),
    {
        self.max_slippage_bps > 0 && self.quote_price_e6 > 0
    }

    /// Whether the cost cap is set.
    #[verifier::when_used_as_spec(has_cost_limit_spec)]
    pub fn has_cost_limit(&self) -> (r: bool)
        ensures
            r == self.has_cost_limit_spec(),
    {
        self.max_total_cost_e6 > 0
    }
}

/// A limit order that its owner signed away from the ledger.
#[derive(Clone, Copy, Debug)]
pub struct LimitOrder {
    /// The market the order is for.
    pub market: Address,
    /// The owner of the order.
    pub user: Address,
    /// 1 buys, 2 sells.
    pub action: u8,
    /// 1 is the yes side, 2 the no side.
    pub side: u8,
    /// The quantity wanted.
    pub shares_e6: i64,
    /// Highest price of a buy, lowest price of a sell.
    pub limit_price_e6: i64,
    /// Highest total cost of a buy.
    pub max_cost_e6: i64,
    /// Lowest proceeds of a sell.
    pub min_proceeds_e6: i64,
    /// Unix second at which the order expires.
    pub expiry_ts: i64,
    /// The number that makes the order single-use.
    pub nonce: u64,
    /// The keeper's fee in basis points.
    pub keeper_fee_bps: u16,
    /// The smallest part of the quantity worth executing, in basis points.
    pub min_fill_bps: u16,
}

} // verus!
