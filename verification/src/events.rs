//! The records that the market publishes about what happened to it.

use vstd::prelude::*;
use crate::address::Address;
use crate::market::Amm;
use crate::trade::TradeReceipt;

verus! {

/// A trade and the state of the market right after it.
#[derive(Clone, Copy, Debug)]
pub struct TradeSnapshot {
    /// 1 yes, 2 no.
    pub side: u8,
    /// 1 buy, 2 sell.
    pub action: u8,
    /// The spend of a buy, or the net proceeds of a sale.
    pub net_e6: i64,
    /// Shares bought or sold.
    pub dq_e6: i64,
    /// Net amount per share.
    pub avg_price_e6: i64,
    pub q_yes: i64,
    pub q_no: i64,
    pub vault_e6: i64,
    /// The price of the yes side after the trade.
    pub p_yes_e6: i64,
    pub fees_e6: i64,
}

/// A signed limit order that a keeper executed.
#[derive(Clone, Copy, Debug)]
pub struct LimitOrderExecuted {
    pub user: Address,
    pub keeper: Address,
    pub action: u8,
    pub side: u8,
    pub shares_requested: i64,
    pub shares_executed: i64,
    pub limit_price: i64,
    pub execution_price: i64,
    pub keeper_fee_bps: u16,
    pub nonce: u64,
}

/// A nonce that its owner burnt.
#[derive(Clone, Copy, Debug)]
pub struct OrderNonceCancelled {
    pub user: Address,
    pub nonce: u64,
}

/// The amount that the record of a trade shows: the spend of a buy, the
/// net proceeds of a sale.
pub open spec fn booked_amount_spec(receipt: TradeReceipt) -> i64 {
    if receipt.action == crate::search::ACTION_BUY {
        receipt.gross_e6
    } else {
        receipt.net_e6
    }
}

/// The record of a trade: the receipt, the ledger as the trade left it, and
/// the price of the yes side at that point.
pub fn emit_trade(amm: &Amm, receipt: &TradeReceipt, p_yes_e6: i64) -> (snapshot: TradeSnapshot)
    ensures
        snapshot == (TradeSnapshot {
            side: receipt.side,
            action: receipt.action,
            net_e6: booked_amount_spec(*receipt),
            dq_e6: receipt.shares_e6,
            avg_price_e6: receipt.avg_price_e6,
            q_yes: amm.q_yes,
            q_no: amm.q_no,
            vault_e6: amm.vault_e6,
            p_yes_e6,
            fees_e6: amm.fees,
        }),
{
    TradeSnapshot {
        side: receipt.side,
        action: receipt.action,
        net_e6: if receipt.action == crate::search::ACTION_BUY {
            receipt.gross_e6
        } else {
            receipt.net_e6
        },
        dq_e6: receipt.shares_e6,
        avg_price_e6: receipt.avg_price_e6,
        q_yes: amm.q_yes,
        q_no: amm.q_no,
        vault_e6: amm.vault_e6,
        p_yes_e6,
        fees_e6: amm.fees,
    }
}

} // verus!
