//! The interface to the cost function of the logarithmic market scoring rule.
//!
//! The cost function needs exponentials and logarithms, which the ledgers
//! leave to a pricer: a pure function from a `PriceQuery` to an amount at the
//! fixed-point scale. Everything here is stated for whatever pricer is handed
//! in; the ledgers only ever see its rounded answers.

use vstd::prelude::*;
use crate::market::Amm;
use crate::market::SIDE_YES;
use crate::units::fee_of;
use crate::units::fee_of_spec;
use crate::units::clamp_i64_spec;
use crate::units::sat_add;
use crate::units::sat_sub;

verus! {

/// What a pricer is asked for.
#[derive(Clone, Copy, Debug, PartialEq, Eq, Structural)]
pub enum QuoteKind {
    /// The spend, fee included, that buys `amount_e6` shares of the side:
    /// the rise of the cost function, grossed up by the fee.
    BuyCost,
    /// The proceeds, before the fee, of selling `amount_e6` shares of the
    /// side: the fall of the cost function.
    SellProceeds,
    /// The shares of the side that a spend of `amount_e6`, net of the fee, buys.
    SharesForSpend,
    /// The current price of the side: its probability. `amount_e6` is unused.
    SpotPrice,
}

/// One question to the pricer: the state of the inventory and what is asked of it.
#[derive(Clone, Copy, Debug)]
pub struct PriceQuery {
    pub kind: QuoteKind,
    /// 1 is the yes side; anything else the no side.
    pub side: u8,
    pub amount_e6: i64,
    /// Liquidity of the scoring rule.
    pub b: i64,
    pub fee_bps: u16,
    pub q_yes: i64,
    pub q_no: i64,
}

/// Whether `f` can stand for the cost function: it answers every query, and
/// the same query always with the same amount.
pub open spec fn is_pricer<F: Fn(PriceQuery) -> i64>(f: &F) -> bool {
    &&& forall|q: PriceQuery| #[trigger] f.requires((q,))
    &&& forall|q: PriceQuery, r1: i64, r2: i64|
        #[trigger] f.ensures((q,), r1) && #[trigger] f.ensures((q,), r2) ==> r1 == r2
}

/// The pricer as a mathematical function: its answer to each query.
pub open spec fn quotes<F: Fn(PriceQuery) -> i64>(f: &F) -> spec_fn(PriceQuery) -> i64 {
    |q: PriceQuery| choose|r: i64| f.ensures((q,), r)
}

/// The query about `amm`'s inventory.
pub open spec fn query_spec(amm: Amm, kind: QuoteKind, side: u8, amount_e6: i64) -> PriceQuery {
    PriceQuery {
        kind,
        side,
        amount_e6,
        b: amm.b,
        fee_bps: amm.fee_bps,
        q_yes: amm.q_yes,
        q_no: amm.q_no,
    }
}

/// An answer with anything below zero taken as zero.
pub open spec fn at_least_zero(x: i64) -> i64 {
    if x < 0 {
        0
    } else {
        x
    }
}

/// The outstanding shares of a side.
pub open spec fn side_inventory_spec(amm: Amm, side: u8) -> i64 {
    if side == SIDE_YES {
        amm.q_yes
    } else {
        amm.q_no
    }
}

/// The spend, fee included, that buys `shares_e6` of a side; zero for no shares.
pub open spec fn buy_cost_spec(p: spec_fn(PriceQuery) -> i64, amm: Amm, side: u8, shares_e6: i64)
    -> i64 {
    if shares_e6 <= 0 {
        0
    } else {
        at_least_zero(p(query_spec(amm, QuoteKind::BuyCost, side, shares_e6)))
    }
}

/// The shares that a sale of `shares_e6` can take out of the inventory.
pub open spec fn sellable_spec(amm: Amm, side: u8, shares_e6: i64) -> i64 {
    let inventory = side_inventory_spec(amm, side);
    if shares_e6 <= 0 || inventory <= 0 {
        0
    } else if shares_e6 < inventory {
        shares_e6
    } else {
        inventory
    }
}

/// The proceeds before the fee of selling `shares_e6` of a side, as far as the
/// inventory holds them.
pub open spec fn sell_gross_spec(p: spec_fn(PriceQuery) -> i64, amm: Amm, side: u8, shares_e6: i64)
    -> i64 {
    let sold = sellable_spec(amm, side, shares_e6);
    if sold <= 0 {
        0
    } else {
        at_least_zero(p(query_spec(amm, QuoteKind::SellProceeds, side, sold)))
    }
}

/// The fee on the proceeds of a sale.
pub open spec fn sell_fee_spec(p: spec_fn(PriceQuery) -> i64, amm: Amm, side: u8, shares_e6: i64)
    -> i64 {
    fee_of_spec(sell_gross_spec(p, amm, side, shares_e6), amm.fee_bps) as i64
}

/// The proceeds of a sale after the fee.
pub open spec fn sell_net_spec(p: spec_fn(PriceQuery) -> i64, amm: Amm, side: u8, shares_e6: i64)
    -> i64 {
    (sell_gross_spec(p, amm, side, shares_e6) - sell_fee_spec(p, amm, side, shares_e6)) as i64
}

/// The current price of a side.
pub open spec fn spot_price_spec(p: spec_fn(PriceQuery) -> i64, amm: Amm, side: u8) -> i64 {
    at_least_zero(p(query_spec(amm, QuoteKind::SpotPrice, side, 0)))
}

/// The ledger after `sold` shares of a side left it for `net` after a fee of `fee`.
pub open spec fn after_sale_spec(amm: Amm, side: u8, sold: i64, fee: i64, net: i64) -> Amm {
    if side == SIDE_YES {
        Amm {
            fees: clamp_i64_spec(amm.fees + fee),
            q_yes: clamp_i64_spec(amm.q_yes - sold),
            vault_e6: clamp_i64_spec(amm.vault_e6 - net),
            ..amm
        }
    } else {
        Amm {
            fees: clamp_i64_spec(amm.fees + fee),
            q_no: clamp_i64_spec(amm.q_no - sold),
            vault_e6: clamp_i64_spec(amm.vault_e6 - net),
            ..amm
        }
    }
}

/// The ledger after `shares` of a side were bought for `net` after a fee of `fee`.
pub open spec fn after_purchase_spec(amm: Amm, side: u8, shares: i64, fee: i64, net: i64) -> Amm {
    if side == SIDE_YES {
        Amm {
            fees: clamp_i64_spec(amm.fees + fee),
            q_yes: clamp_i64_spec(amm.q_yes + shares),
            vault_e6: clamp_i64_spec(amm.vault_e6 + net),
            ..amm
        }
    } else {
        Amm {
            fees: clamp_i64_spec(amm.fees + fee),
            q_no: clamp_i64_spec(amm.q_no + shares),
            vault_e6: clamp_i64_spec(amm.vault_e6 + net),
            ..amm
        }
    }
}

/// Asks the pricer one question.
pub fn ask<F: Fn(PriceQuery) -> i64>(pricer: &F, query: PriceQuery) -> (answer: i64)
    requires
        is_pricer(pricer),
    ensures
        answer == quotes(pricer)(query),
{
    let answer = pricer(query);
    assert(pricer.ensures((query,), answer));
    answer
}

/// Asks the pricer about `amm`'s inventory and takes anything below zero as zero.
pub fn ask_about<F: Fn(PriceQuery) -> i64>(
    pricer: &F,
    amm: &Amm,
    kind: QuoteKind,
    side: u8,
    amount_e6: i64,
) -> (answer: i64)
    requires
        is_pricer(pricer),
    ensures
        answer == at_least_zero(quotes(pricer)(query_spec(*amm, kind, side, amount_e6))),
        answer >= 0,
{
    let answer = ask(
        pricer,
        PriceQuery {
            kind,
            side,
            amount_e6,
            b: amm.b,
            fee_bps: amm.fee_bps,
            q_yes: amm.q_yes,
            q_no: amm.q_no,
        },
    );
    if answer < 0 {
        0
    } else {
        answer
    }
}

/// The spend, fee included, that buys `shares_e6` of a side.
pub fn lmsr_buy_for_shares<F: Fn(PriceQuery) -> i64>(
    amm: &Amm,
    side: u8,
    shares_e6: i64,
    pricer: &F,
) -> (spend_e6: i64)
    requires
        is_pricer(pricer),
    ensures
        spend_e6 == buy_cost_spec(quotes(pricer), *amm, side, shares_e6),
        spend_e6 >= 0,
{
    if shares_e6 <= 0 {
        0
    } else {
        ask_about(pricer, amm, QuoteKind::BuyCost, side, shares_e6)
    }
}

/// The spend, fee included, that buys `desired_shares_e6` yes shares.
pub fn lmsr_buy_yes_for_shares<F: Fn(PriceQuery) -> i64>(
    amm: &Amm,
    desired_shares_e6: i64,
    pricer: &F,
) -> (spend_e6: i64)
    requires
        is_pricer(pricer),
    ensures
        spend_e6 == buy_cost_spec(quotes(pricer), *amm, SIDE_YES, desired_shares_e6),
{
    lmsr_buy_for_shares(amm, SIDE_YES, desired_shares_e6, pricer)
}

/// The spend, fee included, that buys `desired_shares_e6` no shares.
pub fn lmsr_buy_no_for_shares<F: Fn(PriceQuery) -> i64>(
    amm: &Amm,
    desired_shares_e6: i64,
    pricer: &F,
) -> (spend_e6: i64)
    requires
        is_pricer(pricer),
    ensures
        spend_e6 == buy_cost_spec(quotes(pricer), *amm, crate::market::SIDE_NO, desired_shares_e6),
{
    lmsr_buy_for_shares(amm, crate::market::SIDE_NO, desired_shares_e6, pricer)
}

/// The shares that a sale of `shares_e6` can take out of the inventory.
pub fn sellable(amm: &Amm, side: u8, shares_e6: i64) -> (sold: i64)
    ensures
        sold == sellable_spec(*amm, side, shares_e6),
        0 <= sold,
        sold <= shares_e6 || sold == 0,
{
    let inventory = if side == SIDE_YES {
        amm.q_yes
    } else {
        amm.q_no
    };
    if shares_e6 <= 0 || inventory <= 0 {
        0
    } else if shares_e6 < inventory {
        shares_e6
    } else {
        inventory
    }
}

/// The proceeds before the fee of selling `shares_e6` of a side.
pub fn sell_gross<F: Fn(PriceQuery) -> i64>(amm: &Amm, side: u8, shares_e6: i64, pricer: &F) -> (
    gross_e6: i64)
    requires
        is_pricer(pricer),
    ensures
        gross_e6 == sell_gross_spec(quotes(pricer), *amm, side, shares_e6),
        gross_e6 >= 0,
{
    let sold = sellable(amm, side, shares_e6);
    if sold <= 0 {
        0
    } else {
        ask_about(pricer, amm, QuoteKind::SellProceeds, side, sold)
    }
}

/// The proceeds after the fee of selling `shares_e6` of a side, the ledger untouched.
pub fn calculate_sell_proceeds<F: Fn(PriceQuery) -> i64>(
    amm: &Amm,
    side: u8,
    shares_e6: i64,
    pricer: &F,
) -> (net_e6: i64)
    requires
        is_pricer(pricer),
    ensures
        net_e6 == sell_net_spec(quotes(pricer), *amm, side, shares_e6),
        amm.fee_bps <= 10_000 ==> net_e6 >= 0,
{
    let gross = sell_gross(amm, side, shares_e6, pricer);
    let fee = fee_of(gross, amm.fee_bps);
    sat_sub(gross, fee)
}

/// The proceeds after the fee of selling yes shares, the ledger untouched.
pub fn calculate_sell_yes_proceeds<F: Fn(PriceQuery) -> i64>(
    amm: &Amm,
    shares_e6: i64,
    pricer: &F,
) -> (net_e6: i64)
    requires
        is_pricer(pricer),
    ensures
        net_e6 == sell_net_spec(quotes(pricer), *amm, SIDE_YES, shares_e6),
{
    calculate_sell_proceeds(amm, SIDE_YES, shares_e6, pricer)
}

/// The proceeds after the fee of selling no shares, the ledger untouched.
pub fn calculate_sell_no_proceeds<F: Fn(PriceQuery) -> i64>(
    amm: &Amm,
    shares_e6: i64,
    pricer: &F,
) -> (net_e6: i64)
    requires
        is_pricer(pricer),
    ensures
        net_e6 == sell_net_spec(quotes(pricer), *amm, crate::market::SIDE_NO, shares_e6),
{
    calculate_sell_proceeds(amm, crate::market::SIDE_NO, shares_e6, pricer)
}

/// The current price of the yes side.
pub fn calculate_yes_price<F: Fn(PriceQuery) -> i64>(amm: &Amm, pricer: &F) -> (price_e6: i64)
    requires
        is_pricer(pricer),
    ensures
        price_e6 == spot_price_spec(quotes(pricer), *amm, SIDE_YES),
{
    ask_about(pricer, amm, QuoteKind::SpotPrice, SIDE_YES, 0)
}

/// The current price of the no side.
pub fn calculate_no_price<F: Fn(PriceQuery) -> i64>(amm: &Amm, pricer: &F) -> (price_e6: i64)
    requires
        is_pricer(pricer),
    ensures
        price_e6 == spot_price_spec(quotes(pricer), *amm, crate::market::SIDE_NO),
{
    ask_about(pricer, amm, QuoteKind::SpotPrice, crate::market::SIDE_NO, 0)
}

/// What a sale hands back.
#[derive(Clone, Copy, Debug)]
pub struct SaleQuote {
    /// Shares that left the inventory.
    pub sold_e6: i64,
    /// Proceeds before the fee.
    pub gross_e6: i64,
    /// The fee.
    pub fee_e6: i64,
    /// Proceeds after the fee.
    pub net_e6: i64,
}

/// The figures of a sale of `shares_e6` of a side.
pub open spec fn sale_quote_spec(
    p: spec_fn(PriceQuery) -> i64,
    amm: Amm,
    side: u8,
    shares_e6: i64,
) -> SaleQuote {
    SaleQuote {
        sold_e6: sellable_spec(amm, side, shares_e6),
        gross_e6: sell_gross_spec(p, amm, side, shares_e6),
        fee_e6: sell_fee_spec(p, amm, side, shares_e6),
        net_e6: sell_net_spec(p, amm, side, shares_e6),
    }
}

/// Sells `shares_e6` of a side out of the inventory, as far as it holds
/// them: the fee is added to the fees, the shares leave the inventory and the
/// net proceeds leave the vault mirror. Fee and net proceeds add up to the
/// gross proceeds.
pub fn lmsr_sell<F: Fn(PriceQuery) -> i64>(amm: &mut Amm, side: u8, shares_e6: i64, pricer: &F)
    -> (sale: SaleQuote)
    requires
        is_pricer(pricer),
        old(amm).wf(),
    ensures
        sale == sale_quote_spec(quotes(pricer), *old(amm), side, shares_e6),
        *final(amm) == after_sale_spec(*old(amm), side, sale.sold_e6, sale.fee_e6, sale.net_e6),
        sale.fee_e6 + sale.net_e6 == sale.gross_e6,
        0 <= sale.fee_e6,
        0 <= sale.net_e6,
        0 <= sale.sold_e6,
        sale.sold_e6 == 0 ==> sale.gross_e6 == 0 && *final(amm) == *old(amm),
{
    let sold = sellable(amm, side, shares_e6);
    let gross = sell_gross(amm, side, shares_e6, pricer);
    let fee = fee_of(gross, amm.fee_bps);
    let net = gross - fee;
    amm.fees = sat_add(amm.fees, fee);
    if side == SIDE_YES {
        amm.q_yes = sat_sub(amm.q_yes, sold);
    } else {
        amm.q_no = sat_sub(amm.q_no, sold);
    }
    amm.vault_e6 = sat_sub(amm.vault_e6, net);
    SaleQuote { sold_e6: sold, gross_e6: gross, fee_e6: fee, net_e6: net }
}

/// Sells yes shares out of the inventory.
pub fn lmsr_sell_yes<F: Fn(PriceQuery) -> i64>(amm: &mut Amm, shares_e6: i64, pricer: &F) -> (sale:
    SaleQuote)
    requires
        is_pricer(pricer),
        old(amm).wf(),
    ensures
        sale == sale_quote_spec(quotes(pricer), *old(amm), SIDE_YES, shares_e6),
        *final(amm) == after_sale_spec(
            *old(amm),
            SIDE_YES,
            sale.sold_e6,
            sale.fee_e6,
            sale.net_e6,
        ),
{
    lmsr_sell(amm, SIDE_YES, shares_e6, pricer)
}

/// Sells no shares out of the inventory.
pub fn lmsr_sell_no<F: Fn(PriceQuery) -> i64>(amm: &mut Amm, shares_e6: i64, pricer: &F) -> (sale:
    SaleQuote)
    requires
        is_pricer(pricer),
        old(amm).wf(),
    ensures
        sale == sale_quote_spec(quotes(pricer), *old(amm), crate::market::SIDE_NO, shares_e6),
        *final(amm) == after_sale_spec(
            *old(amm),
            crate::market::SIDE_NO,
            sale.sold_e6,
            sale.fee_e6,
            sale.net_e6,
        ),
{
    lmsr_sell(amm, crate::market::SIDE_NO, shares_e6, pricer)
}

/// What a purchase sized by its spend hands back.
#[derive(Clone, Copy, Debug)]
pub struct PurchaseQuote {
    /// Shares that joined the inventory.
    pub shares_e6: i64,
    /// The fee.
    pub fee_e6: i64,
    /// The spend after the fee.
    pub net_e6: i64,
}

/// The figures of a purchase for a spend of `spend_e6`, or the refusal:
/// nothing may be left after the fee, and the shares may not exceed the
/// largest quantity of one trade.
pub open spec fn purchase_quote_spec(
    p: spec_fn(PriceQuery) -> i64,
    amm: Amm,
    side: u8,
    spend_e6: i64,
) -> Option<PurchaseQuote> {
    let fee = fee_of_spec(spend_e6, amm.fee_bps) as i64;
    let net = (spend_e6 - fee) as i64;
    let shares = at_least_zero(p(query_spec(amm, QuoteKind::SharesForSpend, side, net)));
    if spend_e6 <= 0 || net <= 0 || shares > crate::units::DQ_MAX_E6 {
        None
    } else {
        Some(PurchaseQuote { shares_e6: shares, fee_e6: fee, net_e6: net })
    }
}

/// Buys shares of a side for a spend of `spend_e6`: the fee is split off,
/// the pricer sizes the shares that the rest buys, the fee is added to the
/// fees, the shares to the inventory and the rest to the vault mirror. A
/// refused purchase leaves the ledger as it was.
pub fn lmsr_buy<F: Fn(PriceQuery) -> i64>(amm: &mut Amm, side: u8, spend_e6: i64, pricer: &F) -> (r:
    Result<PurchaseQuote, crate::error::ReaderError>)
    requires
        is_pricer(pricer),
        old(amm).wf(),
    ensures
        match purchase_quote_spec(quotes(pricer), *old(amm), side, spend_e6) {
            Some(bought) => r == Ok::<PurchaseQuote, crate::error::ReaderError>(bought) && *final(amm) == after_purchase_spec(
                *old(amm),
                side,
                bought.shares_e6,
                bought.fee_e6,
                bought.net_e6,
            ),
            None => r == Err::<PurchaseQuote, crate::error::ReaderError>(
                crate::error::ReaderError::BadParam,
            ) && *final(amm) == *old(amm),
        },
        r.is_ok() ==> r.unwrap().fee_e6 + r.unwrap().net_e6 == spend_e6,
{
    if spend_e6 <= 0 {
        return Err(crate::error::ReaderError::BadParam);
    }
    let fee = fee_of(spend_e6, amm.fee_bps);
    let net = spend_e6 - fee;
    if net <= 0 {
        return Err(crate::error::ReaderError::BadParam);
    }
    let shares = ask_about(pricer, amm, QuoteKind::SharesForSpend, side, net);
    if shares > crate::units::DQ_MAX_E6 {
        return Err(crate::error::ReaderError::BadParam);
    }
    amm.fees = sat_add(amm.fees, fee);
    if side == SIDE_YES {
        amm.q_yes = sat_add(amm.q_yes, shares);
    } else {
        amm.q_no = sat_add(amm.q_no, shares);
    }
    amm.vault_e6 = sat_add(amm.vault_e6, net);
    Ok(PurchaseQuote { shares_e6: shares, fee_e6: fee, net_e6: net })
}

/// Buys yes shares for a spend of `spend_e6`.
pub fn lmsr_buy_yes<F: Fn(PriceQuery) -> i64>(amm: &mut Amm, spend_e6: i64, pricer: &F) -> (r:
    Result<PurchaseQuote, crate::error::ReaderError>)
    requires
        is_pricer(pricer),
        old(amm).wf(),
    ensures
        match purchase_quote_spec(quotes(pricer), *old(amm), SIDE_YES, spend_e6) {
            Some(bought) => r == Ok::<PurchaseQuote, crate::error::ReaderError>(bought) && *final(amm) == after_purchase_spec(
                *old(amm),
                SIDE_YES,
                bought.shares_e6,
                bought.fee_e6,
                bought.net_e6,
            ),
            None => r == Err::<PurchaseQuote, crate::error::ReaderError>(
                crate::error::ReaderError::BadParam,
            ) && *final(amm) == *old(amm),
        },
{
    lmsr_buy(amm, SIDE_YES, spend_e6, pricer)
}

/// Buys no shares for a spend of `spend_e6`.
pub fn lmsr_buy_no<F: Fn(PriceQuery) -> i64>(amm: &mut Amm, spend_e6: i64, pricer: &F) -> (r:
    Result<PurchaseQuote, crate::error::ReaderError>)
    requires
        is_pricer(pricer),
        old(amm).wf(),
    ensures
        match purchase_quote_spec(quotes(pricer), *old(amm), crate::market::SIDE_NO, spend_e6) {
            Some(bought) => r == Ok::<PurchaseQuote, crate::error::ReaderError>(bought) && *final(amm) == after_purchase_spec(
                *old(amm),
                crate::market::SIDE_NO,
                bought.shares_e6,
                bought.fee_e6,
                bought.net_e6,
            ),
            None => r == Err::<PurchaseQuote, crate::error::ReaderError>(
                crate::error::ReaderError::BadParam,
            ) && *final(amm) == *old(amm),
        },
{
    lmsr_buy(amm, crate::market::SIDE_NO, spend_e6, pricer)
}

/// The prices of both sides and the lean of the inventory.
#[derive(Clone, Copy, Debug)]
pub struct MarketQuote {
    /// The price of the yes side.
    pub p_yes_e6: i64,
    /// The price of the no side: what the yes side leaves of 1.0.
    pub p_no_e6: i64,
    /// Yes shares outstanding beyond the no shares.
    pub skew_e6: i64,
}

/// The market's current prices: the yes side as the pricer has it, the no
/// side as the rest of 1.0, and the lean of the inventory.
pub fn quote<F: Fn(PriceQuery) -> i64>(amm: &Amm, pricer: &F) -> (q: MarketQuote)
    requires
        is_pricer(pricer),
    ensures
        q.p_yes_e6 == spot_price_spec(quotes(pricer), *amm, SIDE_YES),
        q.p_no_e6 == clamp_i64_spec(1_000_000 - q.p_yes_e6),
        q.skew_e6 == clamp_i64_spec(amm.q_yes - amm.q_no),
{
    let p_yes = ask_about(pricer, amm, QuoteKind::SpotPrice, SIDE_YES, 0);
    MarketQuote {
        p_yes_e6: p_yes,
        p_no_e6: sat_sub(1_000_000, p_yes),
        skew_e6: sat_sub(amm.q_yes, amm.q_no),
    }
}

/// Buying a quantity and selling it back restores the share counts to the
/// unit: the sale takes exactly the quantity that was bought, and inventory
/// and holding are what they were before.
pub proof fn lemma_round_trip_shares(
    amm: Amm,
    side: u8,
    shares_e6: i64,
    held_e6: i64,
    fee_bought: i64,
    net_bought: i64,
    fee_sold: i64,
    net_sold: i64,
)
    requires
        shares_e6 > 0,
        0 <= held_e6 <= side_inventory_spec(amm, side),
        side_inventory_spec(amm, side) + shares_e6 <= i64::MAX,
    ensures
        ({
            let bought = after_purchase_spec(amm, side, shares_e6, fee_bought, net_bought);
            let sold = after_sale_spec(bought, side, shares_e6, fee_sold, net_sold);
            &&& sellable_spec(bought, side, shares_e6) == shares_e6
            &&& side_inventory_spec(sold, side) == side_inventory_spec(amm, side)
            &&& clamp_i64_spec(clamp_i64_spec(held_e6 + shares_e6) - shares_e6) == held_e6
        }),
{
}

} // verus!
