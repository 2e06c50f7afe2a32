//! Executing trades: the checks that precede every trade, the one mutation
//! that all kinds of trade share, and the kinds themselves: plain, with a
//! price limit, with a slippage tolerance, with the full set of guards, and
//! the sale of a whole position.
//!
//! Every check runs before anything changes: a refused trade leaves the
//! market's ledger and the position as they were.

use vstd::prelude::*;
use crate::address::Address;
use crate::error::ReaderError;
use crate::guard::AdvancedGuardConfig;
use crate::guard::GuardConfig;
use crate::guard::SlippageConfig;
use crate::market::Amm;
use crate::market::SIDE_NO;
use crate::market::SIDE_YES;
use crate::oracle::read_btc_price_e6;
use crate::oracle::read_btc_price_spec;
use crate::position::Position;
use crate::position::PositionView;
use crate::pricing::after_purchase_spec;
use crate::pricing::after_sale_spec;
use crate::pricing::ask_about;
use crate::pricing::buy_cost_spec;
use crate::pricing::is_pricer;
use crate::pricing::lmsr_buy_for_shares;
use crate::pricing::lmsr_sell;
use crate::pricing::quotes;
use crate::pricing::sale_quote_spec;
use crate::pricing::spot_price_spec;
use crate::pricing::PriceQuery;
use crate::pricing::QuoteKind;
use crate::pricing::SaleQuote;
use crate::search::passing;
use crate::search::pricing_of;
use crate::search::validate_advanced_guards;
use crate::search::validate_guards_spec;
use crate::search::ACTION_BUY;
use crate::search::ACTION_SELL;
use crate::units::clamp_i64;
use crate::units::clamp_i64_spec;
use crate::units::e6_to_lamports;
use crate::units::e6_to_lamports_spec;
use crate::units::fee_of;
use crate::units::fee_of_spec;
use crate::units::lamports_to_e6;
use crate::units::price_per_share;
use crate::units::price_per_share_spec;
use crate::units::sat_add;
use crate::units::sat_sub;
use crate::units::trunc_div;
use crate::units::DQ_MAX_E6;
use crate::units::MIN_SELL_E6;
use crate::units::TRADING_LOCKOUT_SECONDS;

verus! {

/// What a trade did, and the funds that the caller has to move for it.
#[derive(Clone, Copy, Debug)]
pub struct TradeReceipt {
    pub side: u8,
    pub action: u8,
    /// Shares bought or sold.
    pub shares_e6: i64,
    /// The spend of a buy, or the proceeds of a sale before the fee.
    pub gross_e6: i64,
    pub fee_e6: i64,
    /// What reached the pool of a buy, or the seller of a sale.
    pub net_e6: i64,
    /// Net amount per share.
    pub avg_price_e6: i64,
    /// Lamports from the user's custody account to the pooled vault.
    pub to_vault_lamports: u64,
    /// Lamports from the user's custody account to the treasury.
    pub to_treasury_lamports: u64,
    /// Lamports from the pooled vault to the user's custody account.
    pub to_user_lamports: u64,
}

/// A ledger, a position and a receipt: what a trade leaves behind.
pub struct TradeOutcome {
    pub amm: Amm,
    pub pos: PositionView,
    pub receipt: TradeReceipt,
}

/// Whether trading is open, or the refusal: the market takes trades, and
/// where it has an end, the oracle's time is ahead of the lockout.
pub open spec fn lockout_spec(amm: Amm, oracle_owner: Seq<u8>, oracle_data: Seq<u8>) -> Result<
    (),
    ReaderError,
> {
    if !amm.takes_trades() {
        Err(ReaderError::MarketClosed)
    } else if amm.market_end_time > 0 {
        match read_btc_price_spec(oracle_owner, oracle_data) {
            Err(e) => Err(e),
            Ok((_, ts_ms)) => if trunc_div(ts_ms as int, 1000) >= amm.market_end_time
                - TRADING_LOCKOUT_SECONDS {
                Err(ReaderError::TradingLocked)
            } else {
                Ok(())
            },
        }
    } else {
        Ok(())
    }
}

/// The receipt of a buy.
pub open spec fn buy_receipt_spec(side: u8, shares_e6: i64, spend_e6: i64, fee_bps: u16)
    -> TradeReceipt {
    let fee = fee_of_spec(spend_e6, fee_bps) as i64;
    let net = (spend_e6 - fee) as i64;
    TradeReceipt {
        side,
        action: ACTION_BUY,
        shares_e6,
        gross_e6: spend_e6,
        fee_e6: fee,
        net_e6: net,
        avg_price_e6: price_per_share_spec(net, shares_e6) as i64,
        to_vault_lamports: e6_to_lamports_spec(net) as u64,
        to_treasury_lamports: e6_to_lamports_spec(fee) as u64,
        to_user_lamports: 0,
    }
}

/// The receipt of a sale.
pub open spec fn sell_receipt_spec(side: u8, sale: SaleQuote) -> TradeReceipt {
    TradeReceipt {
        side,
        action: ACTION_SELL,
        shares_e6: sale.sold_e6,
        gross_e6: sale.gross_e6,
        fee_e6: sale.fee_e6,
        net_e6: sale.net_e6,
        avg_price_e6: price_per_share_spec(sale.net_e6, sale.sold_e6) as i64,
        to_vault_lamports: 0,
        to_treasury_lamports: 0,
        to_user_lamports: e6_to_lamports_spec(sale.net_e6) as u64,
    }
}

/// What a buy of `shares_e6` yields.
///
/// The spend comes from the pricer. It is refused above a price limit that
/// is set, and where the custody balance does not cover it. The fee goes to
/// the fees, the rest to the vault mirror; the shares join the inventory and
/// the position, and the spend leaves the custody balance.
pub open spec fn buy_spec(
    p: spec_fn(PriceQuery) -> i64,
    amm: Amm,
    pos: PositionView,
    side: u8,
    shares_e6: i64,
    price_limit_e6: i64,
) -> Result<TradeOutcome, ReaderError> {
    let spend = buy_cost_spec(p, amm, side, shares_e6);
    let receipt = buy_receipt_spec(side, shares_e6, spend, amm.fee_bps);
    if price_limit_e6 > 0 && price_per_share_spec(spend, shares_e6) > price_limit_e6 {
        Err(ReaderError::PriceLimitExceeded)
    } else if pos.vault_balance_e6 < spend {
        Err(ReaderError::InsufficientBalance)
    } else {
        Ok(
            TradeOutcome {
                amm: after_purchase_spec(amm, side, shares_e6, receipt.fee_e6, receipt.net_e6),
                pos: pos.with_shares_of(
                    side,
                    clamp_i64_spec(pos.shares_of(side) + shares_e6),
                ).with_balance((pos.vault_balance_e6 - spend) as i64),
                receipt,
            },
        )
    }
}

/// The shares that a sale of `shares_e6` offers: no more than the position holds.
pub open spec fn offered_spec(pos: PositionView, side: u8, shares_e6: i64) -> i64 {
    if shares_e6 < pos.shares_of(side) {
        shares_e6
    } else {
        pos.shares_of(side)
    }
}

/// What a sale of `shares_e6` yields.
///
/// The quantity is held to what the position holds, and refused where
/// nothing is left. The proceeds come from the pricer. The sale is refused
/// below a price limit that is set, and where the pooled vault, by its real
/// balance, does not cover the net proceeds. The fee goes to the fees, the
/// net proceeds leave the vault mirror and join the custody balance, and the
/// shares leave the inventory and the position.
pub open spec fn sell_spec(
    p: spec_fn(PriceQuery) -> i64,
    amm: Amm,
    pos: PositionView,
    side: u8,
    shares_e6: i64,
    price_limit_e6: i64,
    vault_lamports: u64,
) -> Result<TradeOutcome, ReaderError> {
    let offered = offered_spec(pos, side, shares_e6);
    let sale = sale_quote_spec(p, amm, side, offered);
    if offered <= 0 {
        Err(ReaderError::InsufficientShares)
    } else if price_limit_e6 > 0 && price_per_share_spec(sale.net_e6, sale.sold_e6)
        < price_limit_e6 {
        Err(ReaderError::PriceLimitNotMet)
    } else if vault_lamports / 100 < sale.net_e6 {
        Err(ReaderError::NoCoverage)
    } else {
        Ok(
            TradeOutcome {
                amm: after_sale_spec(amm, side, sale.sold_e6, sale.fee_e6, sale.net_e6),
                pos: pos.with_shares_of(
                    side,
                    clamp_i64_spec(pos.shares_of(side) - sale.sold_e6),
                ).with_balance(clamp_i64_spec(pos.vault_balance_e6 + sale.net_e6)),
                receipt: sell_receipt_spec(side, sale),
            },
        )
    }
}

/// Whether side and action are known and the quantity is within the bounds
/// of one trade.
pub open spec fn trade_params_ok_spec(side: u8, action: u8, shares_e6: i64) -> bool {
    &&& side == SIDE_YES || side == SIDE_NO
    &&& action == ACTION_BUY || action == ACTION_SELL
    &&& MIN_SELL_E6 <= shares_e6 <= DQ_MAX_E6
}

/// What executing a trade of `shares_e6` yields, all checks on the market's
/// state aside.
pub open spec fn execute_trade_spec(
    p: spec_fn(PriceQuery) -> i64,
    amm: Amm,
    pos: PositionView,
    side: u8,
    action: u8,
    shares_e6: i64,
    price_limit_e6: i64,
    vault_lamports: u64,
) -> Result<TradeOutcome, ReaderError> {
    if !trade_params_ok_spec(side, action, shares_e6) {
        Err(ReaderError::BadParam)
    } else if action == ACTION_BUY {
        buy_spec(p, amm, pos, side, shares_e6, price_limit_e6)
    } else {
        sell_spec(p, amm, pos, side, shares_e6, price_limit_e6, vault_lamports)
    }
}

/// The checks that precede every trade: the signer owns the position, the
/// amount is positive, and trading is open.
pub open spec fn trade_gate_spec(
    amm: Amm,
    pos: PositionView,
    user: Address,
    amount_e6: i64,
    oracle_owner: Seq<u8>,
    oracle_data: Seq<u8>,
) -> Result<(), ReaderError> {
    if user.bytes@ != pos.owner {
        Err(ReaderError::NotOwner)
    } else if amount_e6 <= 0 {
        Err(ReaderError::BadParam)
    } else {
        lockout_spec(amm, oracle_owner, oracle_data)
    }
}

/// Whether `outcome` is what a call left behind: the receipt was handed
/// back, and ledger and position are the outcome's.
pub open spec fn settled_as(
    expected: Result<TradeOutcome, ReaderError>,
    result: Result<TradeReceipt, ReaderError>,
    amm_before: Amm,
    pos_before: PositionView,
    amm_after: Amm,
    pos_after: PositionView,
) -> bool {
    match expected {
        Ok(outcome) => result == Ok::<TradeReceipt, ReaderError>(outcome.receipt) && amm_after
            == outcome.amm && pos_after == outcome.pos,
        Err(e) => result == Err::<TradeReceipt, ReaderError>(e) && amm_after == amm_before
            && pos_after == pos_before,
    }
}

/// Checks that trading is open: the market takes trades, and where it has
/// an end, the oracle's time, which comes in milliseconds, is ahead of the
/// lockout before it.
pub fn check_trading_open(amm: &Amm, oracle_owner: &Address, oracle_data: &[u8]) -> (r: Result<
    (),
    ReaderError,
>)
    ensures
        r == lockout_spec(*amm, oracle_owner.bytes@, oracle_data@),
{
    if amm.status >= 2 {
        return Err(ReaderError::MarketClosed);
    }
    if amm.market_end_time > 0 {
        match read_btc_price_e6(oracle_owner, oracle_data) {
            Err(e) => Err(e),
            Ok((_, ts_ms)) => {
                let oracle_ts = ts_ms / 1000;
                if oracle_ts >= amm.market_end_time - TRADING_LOCKOUT_SECONDS {
                    Err(ReaderError::TradingLocked)
                } else {
                    Ok(())
                }
            },
        }
    } else {
        Ok(())
    }
}

fn trade_gate(
    amm: &Amm,
    pos: &Position,
    user: &Address,
    amount_e6: i64,
    oracle_owner: &Address,
    oracle_data: &[u8],
) -> (r: Result<(), ReaderError>)
    ensures
        r == trade_gate_spec(*amm, pos@, *user, amount_e6, oracle_owner.bytes@, oracle_data@),
{
    if !user.same(&pos.owner) {
        Err(ReaderError::NotOwner)
    } else if amount_e6 <= 0 {
        Err(ReaderError::BadParam)
    } else {
        check_trading_open(amm, oracle_owner, oracle_data)
    }
}

/// Executes a trade of `shares_e6` against the ledger and the position.
///
/// `side` is 1 for yes and 2 for no, `action` 1 for a buy and 2 for a sale;
/// the quantity must lie within the bounds of one trade. A price limit above
/// zero refuses a buy whose spend per share is above it and a sale whose net
/// proceeds per share are below it. `vault_lamports` is the real balance of
/// the pooled vault, against which a sale is covered. Fee and net amount of
/// the receipt add up to its gross amount.
pub fn execute_trade_internal<F: Fn(PriceQuery) -> i64>(
    amm: &mut Amm,
    pos: &mut Position,
    side: u8,
    action: u8,
    shares_e6: i64,
    price_limit_e6: i64,
    vault_lamports: u64,
    pricer: &F,
) -> (r: Result<TradeReceipt, ReaderError>)
    requires
        is_pricer(pricer),
        old(amm).wf(),
    ensures
        settled_as(
            execute_trade_spec(
                quotes(pricer),
                *old(amm),
                old(pos)@,
                side,
                action,
                shares_e6,
                price_limit_e6,
                vault_lamports,
            ),
            r,
            *old(amm),
            old(pos)@,
            *final(amm),
            final(pos)@,
        ),
        final(amm).wf(),
        old(pos).wf() ==> final(pos).wf(),
        r.is_ok() ==> r.unwrap().fee_e6 + r.unwrap().net_e6 == r.unwrap().gross_e6 && 0
            <= r.unwrap().fee_e6 && 0 <= r.unwrap().net_e6,
{
    if !(side == SIDE_YES || side == SIDE_NO) || !(action == ACTION_BUY || action == ACTION_SELL) {
        return Err(ReaderError::BadParam);
    }
    if shares_e6 < MIN_SELL_E6 || shares_e6 > DQ_MAX_E6 {
        return Err(ReaderError::BadParam);
    }
    if action == ACTION_BUY {
        let spend = lmsr_buy_for_shares(amm, side, shares_e6, pricer);
        if price_limit_e6 > 0 && price_per_share(spend, shares_e6) > price_limit_e6 {
            return Err(ReaderError::PriceLimitExceeded);
        }
        if pos.vault_balance_e6 < spend {
            return Err(ReaderError::InsufficientBalance);
        }
        let fee = fee_of(spend, amm.fee_bps);
        let net = spend - fee;
        amm.fees = sat_add(amm.fees, fee);
        amm.vault_e6 = sat_add(amm.vault_e6, net);
        if side == SIDE_YES {
            amm.q_yes = sat_add(amm.q_yes, shares_e6);
            pos.yes_shares_e6 = sat_add(pos.yes_shares_e6, shares_e6);
        } else {
            amm.q_no = sat_add(amm.q_no, shares_e6);
            pos.no_shares_e6 = sat_add(pos.no_shares_e6, shares_e6);
        }
        pos.vault_balance_e6 = pos.vault_balance_e6 - spend;
        Ok(
            TradeReceipt {
                side,
                action,
                shares_e6,
                gross_e6: spend,
                fee_e6: fee,
                net_e6: net,
                avg_price_e6: price_per_share(net, shares_e6),
                to_vault_lamports: e6_to_lamports(net),
                to_treasury_lamports: e6_to_lamports(fee),
                to_user_lamports: 0,
            },
        )
    } else {
        let held = if side == SIDE_YES {
            pos.yes_shares_e6
        } else {
            pos.no_shares_e6
        };
        let offered = if shares_e6 < held {
            shares_e6
        } else {
            held
        };
        if offered <= 0 {
            return Err(ReaderError::InsufficientShares);
        }
        let mut next: Amm = *amm;
        let sale = lmsr_sell(&mut next, side, offered, pricer);
        if price_limit_e6 > 0 && price_per_share(sale.net_e6, sale.sold_e6) < price_limit_e6 {
            return Err(ReaderError::PriceLimitNotMet);
        }
        if lamports_to_e6(vault_lamports) < sale.net_e6 {
            return Err(ReaderError::NoCoverage);
        }
        *amm = next;
        if side == SIDE_YES {
            pos.yes_shares_e6 = sat_sub(pos.yes_shares_e6, sale.sold_e6);
        } else {
            pos.no_shares_e6 = sat_sub(pos.no_shares_e6, sale.sold_e6);
        }
        pos.vault_balance_e6 = sat_add(pos.vault_balance_e6, sale.net_e6);
        Ok(
            TradeReceipt {
                side,
                action,
                shares_e6: sale.sold_e6,
                gross_e6: sale.gross_e6,
                fee_e6: sale.fee_e6,
                net_e6: sale.net_e6,
                avg_price_e6: price_per_share(sale.net_e6, sale.sold_e6),
                to_vault_lamports: 0,
                to_treasury_lamports: 0,
                to_user_lamports: e6_to_lamports(sale.net_e6),
            },
        )
    }
}

/// What a plain trade yields.
pub open spec fn trade_spec(
    p: spec_fn(PriceQuery) -> i64,
    amm: Amm,
    pos: PositionView,
    user: Address,
    side: u8,
    action: u8,
    amount_e6: i64,
    price_limit_e6: i64,
    oracle_owner: Seq<u8>,
    oracle_data: Seq<u8>,
    vault_lamports: u64,
) -> Result<TradeOutcome, ReaderError> {
    match trade_gate_spec(amm, pos, user, amount_e6, oracle_owner, oracle_data) {
        Err(e) => Err(e),
        Ok(()) => execute_trade_spec(
            p,
            amm,
            pos,
            side,
            action,
            amount_e6,
            price_limit_e6,
            vault_lamports,
        ),
    }
}

/// Buys or sells `amount_e6` shares for the owner of the position.
///
/// `side` is 1 for yes and 2 for no, `action` 1 for a buy and 2 for a sale.
/// The trade is refused unless `user` owns the position, the amount is
/// positive and within the bounds of one trade, and trading is open; a buy
/// also where the custody balance does not cover the spend; a sale, which is
/// held to the shares of the position, also where none are left or the
/// pooled vault does not cover the proceeds.
pub fn trade<F: Fn(PriceQuery) -> i64>(
    amm: &mut Amm,
    pos: &mut Position,
    user: &Address,
    side: u8,
    action: u8,
    amount_e6: i64,
    oracle_owner: &Address,
    oracle_data: &[u8],
    vault_lamports: u64,
    pricer: &F,
) -> (r: Result<TradeReceipt, ReaderError>)
    requires
        is_pricer(pricer),
        old(amm).wf(),
    ensures
        settled_as(
            trade_spec(
                quotes(pricer),
                *old(amm),
                old(pos)@,
                *user,
                side,
                action,
                amount_e6,
                0,
                oracle_owner.bytes@,
                oracle_data@,
                vault_lamports,
            ),
            r,
            *old(amm),
            old(pos)@,
            *final(amm),
            final(pos)@,
        ),
        final(amm).wf(),
        old(pos).wf() ==> final(pos).wf(),
        r.is_ok() ==> r.unwrap().fee_e6 + r.unwrap().net_e6 == r.unwrap().gross_e6,
{
    match trade_gate(amm, pos, user, amount_e6, oracle_owner, oracle_data) {
        Err(e) => Err(e),
        Ok(()) => execute_trade_internal(amm, pos, side, action, amount_e6, 0, vault_lamports, pricer),
    }
}

/// Buys or sells `amount_e6` shares under an absolute price limit: a buy is
/// refused where the spend per share is above the limit, a sale where the
/// net proceeds per share are below it. Without a limit this is a plain trade.
pub fn trade_guarded<F: Fn(PriceQuery) -> i64>(
    amm: &mut Amm,
    pos: &mut Position,
    user: &Address,
    side: u8,
    action: u8,
    amount_e6: i64,
    guard: GuardConfig,
    oracle_owner: &Address,
    oracle_data: &[u8],
    vault_lamports: u64,
    pricer: &F,
) -> (r: Result<TradeReceipt, ReaderError>)
    requires
        is_pricer(pricer),
        old(amm).wf(),
    ensures
        settled_as(
            trade_spec(
                quotes(pricer),
                *old(amm),
                old(pos)@,
                *user,
                side,
                action,
                amount_e6,
                guard.price_limit_e6,
                oracle_owner.bytes@,
                oracle_data@,
                vault_lamports,
            ),
            r,
            *old(amm),
            old(pos)@,
            *final(amm),
            final(pos)@,
        ),
        final(amm).wf(),
        old(pos).wf() ==> final(pos).wf(),
        r.is_ok() ==> r.unwrap().fee_e6 + r.unwrap().net_e6 == r.unwrap().gross_e6,
{
    match trade_gate(amm, pos, user, amount_e6, oracle_owner, oracle_data) {
        Err(e) => Err(e),
        Ok(()) => execute_trade_internal(
            amm,
            pos,
            side,
            action,
            amount_e6,
            guard.price_limit_e6,
            vault_lamports,
            pricer,
        ),
    }
}

/// The price limit that a slippage tolerance stands for at the current
/// price: the price raised by the tolerance for a buy, lowered by it and
/// not below zero for a sale; no limit without a tolerance.
pub open spec fn slippage_limit_spec(current_e6: i64, action: u8, slippage: SlippageConfig) -> i64 {
    let deviation = (current_e6 * slippage.max_slippage_bps) / 10_000;
    if !slippage.has_slippage_limit() {
        0
    } else if action == ACTION_BUY {
        clamp_i64_spec(current_e6 + deviation)
    } else if current_e6 - deviation < 0 {
        0
    } else {
        clamp_i64_spec(current_e6 - deviation)
    }
}

/// The price limit that a slippage tolerance stands for at the current price.
pub fn slippage_limit(current_e6: i64, action: u8, slippage: SlippageConfig) -> (limit_e6: i64)
    ensures
        limit_e6 == slippage_limit_spec(current_e6, action, slippage),
{
    if !slippage.has_slippage_limit() {
        return 0;
    }
    let current: i128 = current_e6 as i128;
    let bps: i128 = slippage.max_slippage_bps as i128;
    assert(-0x8000_0000_0000_0000 * 65_535 <= current * bps <= 0x8000_0000_0000_0000 * 65_535)
        by (nonlinear_arith)
        requires
            -0x8000_0000_0000_0000 <= current < 0x8000_0000_0000_0000,
            0 <= bps <= 65_535,
    ;
    let scaled: i128 = current * bps;
    let deviation: i128 = if scaled >= 0 {
        scaled / 10_000
    } else {
        -((-scaled + 9_999) / 10_000)
    };
    assert(deviation == (current_e6 * slippage.max_slippage_bps) / 10_000);
    if action == ACTION_BUY {
        clamp_i64(current + deviation)
    } else if current - deviation < 0 {
        0
    } else {
        clamp_i64(current - deviation)
    }
}

/// Buys or sells `amount_e6` shares within a slippage tolerance: the
/// tolerance becomes a price limit around the current price of the side,
/// and the trade is then a trade under that limit.
pub fn trade_with_slippage<F: Fn(PriceQuery) -> i64>(
    amm: &mut Amm,
    pos: &mut Position,
    user: &Address,
    side: u8,
    action: u8,
    amount_e6: i64,
    slippage: SlippageConfig,
    oracle_owner: &Address,
    oracle_data: &[u8],
    vault_lamports: u64,
    pricer: &F,
) -> (r: Result<TradeReceipt, ReaderError>)
    requires
        is_pricer(pricer),
        old(amm).wf(),
    ensures
        settled_as(
            trade_spec(
                quotes(pricer),
                *old(amm),
                old(pos)@,
                *user,
                side,
                action,
                amount_e6,
                slippage_limit_spec(
                    spot_price_spec(quotes(pricer), *old(amm), side),
                    action,
                    slippage,
                ),
                oracle_owner.bytes@,
                oracle_data@,
                vault_lamports,
            ),
            r,
            *old(amm),
            old(pos)@,
            *final(amm),
            final(pos)@,
        ),
        final(amm).wf(),
        old(pos).wf() ==> final(pos).wf(),
        r.is_ok() ==> r.unwrap().fee_e6 + r.unwrap().net_e6 == r.unwrap().gross_e6,
{
    let current = ask_about(pricer, amm, QuoteKind::SpotPrice, side, 0);
    let guard = GuardConfig { price_limit_e6: slippage_limit(current, action, slippage) };
    trade_guarded(
        amm,
        pos,
        user,
        side,
        action,
        amount_e6,
        guard,
        oracle_owner,
        oracle_data,
        vault_lamports,
        pricer,
    )
}

/// What a trade under the full set of guards yields: the checks that
/// precede every trade, the sizing by the guards, and the execution of the
/// quantity that they settled on.
pub open spec fn trade_advanced_spec(
    p: spec_fn(PriceQuery) -> i64,
    amm: Amm,
    pos: PositionView,
    user: Address,
    side: u8,
    action: u8,
    amount_e6: i64,
    guards: AdvancedGuardConfig,
    now: i64,
    oracle_owner: Seq<u8>,
    oracle_data: Seq<u8>,
    vault_lamports: u64,
) -> Result<TradeOutcome, ReaderError> {
    match trade_gate_spec(amm, pos, user, amount_e6, oracle_owner, oracle_data) {
        Err(e) => Err(e),
        Ok(()) => match validate_guards_spec(
            passing(p, amm, action, side, guards),
            pricing_of(p, amm, action, side),
            action,
            amount_e6,
            guards,
            now,
        ) {
            Err(e) => Err(e),
            Ok(shares) => execute_trade_spec(
                p,
                amm,
                pos,
                side,
                action,
                shares,
                0,
                vault_lamports,
            ),
        },
    }
}

/// Buys or sells up to `amount_e6` shares under the full set of guards.
///
/// The guards size the trade: the full amount where it passes them, a
/// smaller quantity where that is allowed and found, else the refusal that
/// names the guard. The quantity is then executed as a plain trade is.
pub fn trade_advanced<F: Fn(PriceQuery) -> i64>(
    amm: &mut Amm,
    pos: &mut Position,
    user: &Address,
    side: u8,
    action: u8,
    amount_e6: i64,
    guards: &AdvancedGuardConfig,
    now: i64,
    oracle_owner: &Address,
    oracle_data: &[u8],
    vault_lamports: u64,
    pricer: &F,
) -> (r: Result<TradeReceipt, ReaderError>)
    requires
        is_pricer(pricer),
        old(amm).wf(),
    ensures
        settled_as(
            trade_advanced_spec(
                quotes(pricer),
                *old(amm),
                old(pos)@,
                *user,
                side,
                action,
                amount_e6,
                *guards,
                now,
                oracle_owner.bytes@,
                oracle_data@,
                vault_lamports,
            ),
            r,
            *old(amm),
            old(pos)@,
            *final(amm),
            final(pos)@,
        ),
        final(amm).wf(),
        old(pos).wf() ==> final(pos).wf(),
        r.is_ok() ==> r.unwrap().fee_e6 + r.unwrap().net_e6 == r.unwrap().gross_e6,
{
    match trade_gate(amm, pos, user, amount_e6, oracle_owner, oracle_data) {
        Err(e) => Err(e),
        Ok(()) => match validate_advanced_guards(action, side, amount_e6, guards, amm, now, pricer) {
            Err(e) => Err(e),
            Ok(shares) => execute_trade_internal(amm, pos, side, action, shares, 0, vault_lamports, pricer),
        },
    }
}

/// What the sale of a whole position did, and the funds to move for it.
#[derive(Clone, Copy, Debug)]
pub struct ClosePositionReceipt {
    /// The sale of the yes shares; all zero where there were none.
    pub yes: TradeReceipt,
    /// The sale of the no shares; all zero where there were none.
    pub no: TradeReceipt,
    /// Net proceeds of both sales.
    pub total_proceeds_e6: i64,
}

/// What the sale of a whole position leaves behind.
pub struct CloseOutcome {
    pub amm: Amm,
    pub pos: PositionView,
    pub receipt: ClosePositionReceipt,
}

/// The sale of all `held` shares of a side; nothing is sold of a side of
/// which nothing is held.
pub open spec fn leg_sale_spec(p: spec_fn(PriceQuery) -> i64, amm: Amm, side: u8, held: i64)
    -> SaleQuote {
    if held > 0 {
        sale_quote_spec(p, amm, side, held)
    } else {
        SaleQuote { sold_e6: 0, gross_e6: 0, fee_e6: 0, net_e6: 0 }
    }
}

/// The ledger after the sale of all `held` shares of a side.
pub open spec fn leg_amm_spec(p: spec_fn(PriceQuery) -> i64, amm: Amm, side: u8, held: i64) -> Amm {
    let sale = leg_sale_spec(p, amm, side, held);
    if held > 0 {
        after_sale_spec(amm, side, sale.sold_e6, sale.fee_e6, sale.net_e6)
    } else {
        amm
    }
}

/// What the sale of a whole position yields.
///
/// The signer must own the position and trading must be open. The yes
/// shares are sold first, then the no shares at the inventory that the first
/// sale left; each sale must be covered by what the pooled vault really
/// holds at that point. Both proceeds join the custody balance.
pub open spec fn close_position_spec(
    p: spec_fn(PriceQuery) -> i64,
    amm: Amm,
    pos: PositionView,
    user: Address,
    oracle_owner: Seq<u8>,
    oracle_data: Seq<u8>,
    vault_lamports: u64,
) -> Result<CloseOutcome, ReaderError> {
    let yes = leg_sale_spec(p, amm, SIDE_YES, pos.yes_shares_e6);
    let amm_mid = leg_amm_spec(p, amm, SIDE_YES, pos.yes_shares_e6);
    let vault_mid = vault_lamports - e6_to_lamports_spec(yes.net_e6);
    let no = leg_sale_spec(p, amm_mid, SIDE_NO, pos.no_shares_e6);
    let amm_end = leg_amm_spec(p, amm_mid, SIDE_NO, pos.no_shares_e6);
    let total = clamp_i64_spec(yes.net_e6 + no.net_e6);
    if user.bytes@ != pos.owner {
        Err(ReaderError::NotOwner)
    } else if lockout_spec(amm, oracle_owner, oracle_data).is_err() {
        Err(lockout_spec(amm, oracle_owner, oracle_data).unwrap_err())
    } else if vault_lamports / 100 < yes.net_e6 {
        Err(ReaderError::NoCoverage)
    } else if vault_mid / 100 < no.net_e6 {
        Err(ReaderError::NoCoverage)
    } else {
        Ok(
            CloseOutcome {
                amm: amm_end,
                pos: PositionView {
                    yes_shares_e6: clamp_i64_spec(pos.yes_shares_e6 - yes.sold_e6),
                    no_shares_e6: clamp_i64_spec(pos.no_shares_e6 - no.sold_e6),
                    vault_balance_e6: clamp_i64_spec(pos.vault_balance_e6 + total),
                    ..pos
                },
                receipt: ClosePositionReceipt {
                    yes: sell_receipt_spec(SIDE_YES, yes),
                    no: sell_receipt_spec(SIDE_NO, no),
                    total_proceeds_e6: total,
                },
            },
        )
    }
}

fn sell_leg<F: Fn(PriceQuery) -> i64>(
    amm: &mut Amm,
    side: u8,
    held: i64,
    vault_lamports: u64,
    pricer: &F,
) -> (r: Result<SaleQuote, ReaderError>)
    requires
        is_pricer(pricer),
        old(amm).wf(),
    ensures
        vault_lamports / 100 < leg_sale_spec(quotes(pricer), *old(amm), side, held).net_e6 ==> r
            == Err::<SaleQuote, ReaderError>(ReaderError::NoCoverage) && *final(amm) == *old(amm),
        vault_lamports / 100 >= leg_sale_spec(quotes(pricer), *old(amm), side, held).net_e6 ==> r
            == Ok::<SaleQuote, ReaderError>(leg_sale_spec(quotes(pricer), *old(amm), side, held))
            && *final(amm) == leg_amm_spec(quotes(pricer), *old(amm), side, held),
        final(amm).wf(),
        r.is_ok() ==> 0 <= r.unwrap().net_e6 && r.unwrap().net_e6 * 100 <= vault_lamports
            && r.unwrap().fee_e6 + r.unwrap().net_e6 == r.unwrap().gross_e6,
{
    if held > 0 {
        let mut next: Amm = *amm;
        let sale = lmsr_sell(&mut next, side, held, pricer);
        if lamports_to_e6(vault_lamports) < sale.net_e6 {
            return Err(ReaderError::NoCoverage);
        }
        *amm = next;
        Ok(sale)
    } else {
        Ok(SaleQuote { sold_e6: 0, gross_e6: 0, fee_e6: 0, net_e6: 0 })
    }
}

fn sale_receipt(side: u8, sale: SaleQuote) -> (receipt: TradeReceipt)
    ensures
        receipt == sell_receipt_spec(side, sale),
{
    TradeReceipt {
        side,
        action: ACTION_SELL,
        shares_e6: sale.sold_e6,
        gross_e6: sale.gross_e6,
        fee_e6: sale.fee_e6,
        net_e6: sale.net_e6,
        avg_price_e6: price_per_share(sale.net_e6, sale.sold_e6),
        to_vault_lamports: 0,
        to_treasury_lamports: 0,
        to_user_lamports: e6_to_lamports(sale.net_e6),
    }
}

/// Sells every share of the position, the yes shares first.
///
/// The sale is refused unless `user` owns the position and trading is open,
/// and where the pooled vault, by its real balance of `vault_lamports`, does
/// not cover a sale; a refused sale leaves ledger and position as they were.
pub fn close_position<F: Fn(PriceQuery) -> i64>(
    amm: &mut Amm,
    pos: &mut Position,
    user: &Address,
    oracle_owner: &Address,
    oracle_data: &[u8],
    vault_lamports: u64,
    pricer: &F,
) -> (r: Result<ClosePositionReceipt, ReaderError>)
    requires
        is_pricer(pricer),
        old(amm).wf(),
    ensures
        match close_position_spec(
            quotes(pricer),
            *old(amm),
            old(pos)@,
            *user,
            oracle_owner.bytes@,
            oracle_data@,
            vault_lamports,
        ) {
            Ok(outcome) => r == Ok::<ClosePositionReceipt, ReaderError>(outcome.receipt)
                && *final(amm) == outcome.amm && final(pos)@ == outcome.pos,
            Err(e) => r == Err::<ClosePositionReceipt, ReaderError>(e) && *final(amm) == *old(amm)
                && final(pos)@ == old(pos)@,
        },
        final(amm).wf(),
        old(pos).wf() ==> final(pos).wf(),
{
    if !user.same(&pos.owner) {
        return Err(ReaderError::NotOwner);
    }
    match check_trading_open(amm, oracle_owner, oracle_data) {
        Err(e) => {
            return Err(e);
        },
        Ok(()) => {},
    }
    let mut next: Amm = *amm;
    let yes = match sell_leg(&mut next, SIDE_YES, pos.yes_shares_e6, vault_lamports, pricer) {
        Err(e) => {
            return Err(e);
        },
        Ok(sale) => sale,
    };
    let vault_mid: u64 = vault_lamports - e6_to_lamports(yes.net_e6);
    let no = match sell_leg(&mut next, SIDE_NO, pos.no_shares_e6, vault_mid, pricer) {
        Err(e) => {
            return Err(e);
        },
        Ok(sale) => sale,
    };
    let total = sat_add(yes.net_e6, no.net_e6);
    *amm = next;
    pos.yes_shares_e6 = sat_sub(pos.yes_shares_e6, yes.sold_e6);
    pos.no_shares_e6 = sat_sub(pos.no_shares_e6, no.sold_e6);
    pos.vault_balance_e6 = sat_add(pos.vault_balance_e6, total);
    Ok(
        ClosePositionReceipt {
            yes: sale_receipt(SIDE_YES, yes),
            no: sale_receipt(SIDE_NO, no),
            total_proceeds_e6: total,
        },
    )
}

/// A sale never takes more shares than there are: it sells at most what
/// was asked for, what the position holds and what the inventory holds, so
/// that neither the holding nor the inventory of the side goes below zero.
pub proof fn lemma_sale_never_oversells(
    p: spec_fn(PriceQuery) -> i64,
    amm: Amm,
    pos: PositionView,
    side: u8,
    shares_e6: i64,
    price_limit_e6: i64,
    vault_lamports: u64,
)
    requires
        crate::pricing::side_inventory_spec(amm, side) >= 0,
        sell_spec(p, amm, pos, side, shares_e6, price_limit_e6, vault_lamports).is_ok(),
    ensures
        ({
            let done = sell_spec(
                p,
                amm,
                pos,
                side,
                shares_e6,
                price_limit_e6,
                vault_lamports,
            ).unwrap();
            &&& 0 <= done.receipt.shares_e6 <= shares_e6
            &&& done.receipt.shares_e6 <= pos.shares_of(side)
            &&& done.pos.shares_of(side) == pos.shares_of(side) - done.receipt.shares_e6
            &&& done.pos.shares_of(side) >= 0
            &&& crate::pricing::side_inventory_spec(done.amm, side)
                == crate::pricing::side_inventory_spec(amm, side) - done.receipt.shares_e6
            &&& crate::pricing::side_inventory_spec(done.amm, side) >= 0
        }),
{
}

} // verus!
