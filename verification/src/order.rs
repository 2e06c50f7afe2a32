//! Executing a limit order that its owner signed away from the ledger and a
//! keeper brings in.

use vstd::prelude::*;
use crate::address::Address;
use crate::error::ReaderError;
use crate::events::LimitOrderExecuted;
use crate::guard::AdvancedGuardConfig;
use crate::guard::LimitOrder;
use crate::market::Amm;
use crate::market::MarketStatus;
use crate::position::record_nonce_spec;
use crate::position::Position;
use crate::position::PositionView;
use crate::pricing::is_pricer;
use crate::pricing::quotes;
use crate::pricing::PriceQuery;
use crate::search::accept_partial_fill;
use crate::search::avg_price_spec;
use crate::search::calculate_avg_price;
use crate::search::calculate_avg_price_for_one_share;
use crate::search::find_max_executable_shares;
use crate::search::find_max_spec;
use crate::search::partial_fill_spec;
use crate::search::passing;
use crate::search::pricing_of;
use crate::search::ACTION_BUY;
use crate::search::ACTION_SELL;
use crate::trade::execute_trade_internal;
use crate::trade::execute_trade_spec;
use crate::trade::TradeReceipt;
use crate::units::clamp_i64;
use crate::units::clamp_i64_spec;
use crate::units::e6_to_lamports;
use crate::units::e6_to_lamports_spec;
use crate::units::fee_of;
use crate::units::fee_of_spec;

verus! {

/// What the execution of an order did, and the funds to move for it.
#[derive(Clone, Copy, Debug)]
pub struct OrderFill {
    /// The record to publish.
    pub event: LimitOrderExecuted,
    /// The trade that filled the order.
    pub trade: TradeReceipt,
    /// Lamports that the owner of the order pays the keeper.
    pub keeper_fee_lamports: u64,
}

/// What the execution of an order leaves behind.
pub struct OrderOutcome {
    pub amm: Amm,
    pub pos: PositionView,
    pub fill: OrderFill,
}

/// The smallest quantity of an order worth executing.
pub open spec fn min_fill_spec(order: LimitOrder) -> i64 {
    clamp_i64_spec(trunc_fill(order.shares_e6 as int, order.min_fill_bps as int))
}

/// `bps` basis points of `shares`, rounded toward zero.
pub open spec fn trunc_fill(shares: int, bps: int) -> int {
    crate::units::trunc_div(shares * bps, 10_000)
}

/// The guards that an order stands for at the price `current_e6`: its limit
/// price, its cost cap, and a smaller fill allowed down to its minimum fill.
pub open spec fn order_guards_spec(order: LimitOrder, current_e6: i64, now: i64)
    -> AdvancedGuardConfig {
    AdvancedGuardConfig {
        price_limit_e6: order.limit_price_e6,
        max_slippage_bps: 0,
        quote_price_e6: current_e6,
        quote_timestamp: now,
        max_total_cost_e6: order.max_cost_e6,
        allow_partial: true,
        min_fill_shares_e6: min_fill_spec(order),
    }
}

/// Whether the current price meets the order's limit: at most the limit for
/// a buy, at least the limit for a sale.
pub open spec fn price_condition_spec(order: LimitOrder, current_e6: i64) -> bool {
    if order.action == ACTION_BUY {
        current_e6 <= order.limit_price_e6
    } else {
        current_e6 >= order.limit_price_e6
    }
}

/// The checks on an order before anything is priced.
pub open spec fn order_gate_spec(
    amm: Amm,
    pos: PositionView,
    order: LimitOrder,
    signature_valid: bool,
    market: Address,
    now: i64,
) -> Result<(), ReaderError> {
    if !signature_valid {
        Err(ReaderError::InvalidSignature)
    } else if order.market.bytes@ != market.bytes@ {
        Err(ReaderError::WrongMarket)
    } else if order.user.bytes@ != pos.owner {
        Err(ReaderError::WrongUser)
    } else if order.expiry_ts <= now {
        Err(ReaderError::OrderExpired)
    } else if pos.used_nonces.contains(order.nonce) {
        Err(ReaderError::NonceAlreadyUsed)
    } else if amm.status_spec() != MarketStatus::Open {
        Err(ReaderError::MarketClosed)
    } else if order.action != ACTION_BUY && order.action != ACTION_SELL {
        Err(ReaderError::InvalidAction)
    } else {
        Ok(())
    }
}

/// The keeper's fee in lamports on a trade that moved `net_e6`.
pub open spec fn keeper_fee_lamports_spec(net_e6: i64, keeper_fee_bps: u16) -> u64 {
    e6_to_lamports_spec(fee_of_spec(net_e6, keeper_fee_bps) as i64) as u64
}

/// What the execution of an order yields.
///
/// After the checks on the order, the price of one share must meet the
/// order's limit. The order's guards then size the fill, which is refused
/// where nothing can be executed or less than the minimum fill. The fill is
/// executed as a trade is; the nonce is consumed, and the keeper is owed
/// the fee on what the trade moved.
pub open spec fn execute_order_spec(
    p: spec_fn(PriceQuery) -> i64,
    amm: Amm,
    pos: PositionView,
    order: LimitOrder,
    signature_valid: bool,
    market: Address,
    keeper: Address,
    now: i64,
    vault_lamports: u64,
) -> Result<OrderOutcome, ReaderError> {
    let current = avg_price_spec(p, amm, 1_000_000, order.action, order.side);
    let guards = order_guards_spec(order, current, now);
    let sized = partial_fill_spec(
        find_max_spec(
            passing(p, amm, order.action, order.side, guards),
            pricing_of(p, amm, order.action, order.side),
            order.shares_e6,
            order.action,
            guards,
        ),
        guards,
    );
    match order_gate_spec(amm, pos, order, signature_valid, market, now) {
        Err(e) => Err(e),
        Ok(()) => if !price_condition_spec(order, current) {
            Err(ReaderError::PriceConditionNotMet)
        } else {
            match sized {
                Err(e) => Err(e),
                Ok(shares) => match execute_trade_spec(
                    p,
                    amm,
                    pos,
                    order.side,
                    order.action,
                    shares,
                    0,
                    vault_lamports,
                ) {
                    Err(e) => Err(e),
                    Ok(done) => Ok(
                        OrderOutcome {
                            amm: done.amm,
                            pos: PositionView {
                                used_nonces: record_nonce_spec(done.pos.used_nonces, order.nonce),
                                ..done.pos
                            },
                            fill: OrderFill {
                                event: LimitOrderExecuted {
                                    user: order.user,
                                    keeper,
                                    action: order.action,
                                    side: order.side,
                                    shares_requested: order.shares_e6,
                                    shares_executed: done.receipt.shares_e6,
                                    limit_price: order.limit_price_e6,
                                    execution_price: avg_price_spec(
                                        p,
                                        amm,
                                        shares,
                                        order.action,
                                        order.side,
                                    ),
                                    keeper_fee_bps: order.keeper_fee_bps,
                                    nonce: order.nonce,
                                },
                                trade: done.receipt,
                                keeper_fee_lamports: keeper_fee_lamports_spec(
                                    done.receipt.net_e6,
                                    order.keeper_fee_bps,
                                ),
                            },
                        },
                    ),
                },
            }
        },
    }
}

/// The number that two bytes at `at` spell in little-endian order.
pub open spec fn le_u16_spec(data: Seq<u8>, at: int) -> int {
    data[at] + 0x100 * data[at + 1]
}

/// Whether `data`, the data of an instruction to the signature-checking
/// program, attests `signature` as the signature of `signer` over `message`.
///
/// The data must announce one signature, whose signature, key and message
/// all lie in the data itself: a count byte of one, a padding byte, then
/// seven little-endian 16-bit fields: the signature's offset and the
/// instruction that holds it, the key's offset and instruction, and the
/// message's offset, size and instruction, with 0xFFFF for "this
/// instruction". The 64, 32 and `size` bytes at the three offsets must be
/// the signature, the signer and the message.
pub open spec fn attests_spec(
    data: Seq<u8>,
    signer: Seq<u8>,
    message: Seq<u8>,
    signature: Seq<u8>,
) -> bool {
    &&& data.len() >= 16
    &&& data[0] == 1
    &&& le_u16_spec(data, 4) == 0xFFFF
    &&& le_u16_spec(data, 8) == 0xFFFF
    &&& le_u16_spec(data, 14) == 0xFFFF
    &&& le_u16_spec(data, 2) + 64 <= data.len()
    &&& le_u16_spec(data, 6) + 32 <= data.len()
    &&& le_u16_spec(data, 10) + le_u16_spec(data, 12) <= data.len()
    &&& le_u16_spec(data, 12) == message.len()
    &&& data.subrange(le_u16_spec(data, 2), le_u16_spec(data, 2) + 64) == signature
    &&& data.subrange(le_u16_spec(data, 6), le_u16_spec(data, 6) + 32) == signer
    &&& data.subrange(le_u16_spec(data, 10), le_u16_spec(data, 10) + le_u16_spec(data, 12))
        == message
}

fn read_u16_le(data: &[u8], at: usize) -> (v: usize)
    requires
        at + 2 <= data.len(),
    ensures
        v == le_u16_spec(data@, at as int),
        v <= 0xFFFF,
{
    (data[at] as usize) + 256 * (data[at + 1] as usize)
}

fn holds_at(data: &[u8], at: usize, expected: &[u8]) -> (same: bool)
    requires
        at + expected.len() <= data.len(),
    ensures
        same == (data@.subrange(at as int, at + expected.len()) == expected@),
{
    let ghost window = data@.subrange(at as int, at + expected.len());
    let mut i: usize = 0;
    while i < expected.len()
        invariant
            i <= expected.len(),
            at + expected.len() <= data.len(),
            window == data@.subrange(at as int, at + expected.len()),
            forall|k: int| 0 <= k < i ==> window[k] == expected@[k],
        decreases expected.len() - i,
    {
        if data[at + i] != expected[i] {
            assert(window[i as int] != expected@[i as int]);
            return false;
        }
        i += 1;
    }
    assert(window =~= expected@);
    true
}

/// Whether the data of an instruction to the signature-checking program
/// attests `signature` as the signature of `signer` over `message`.
pub fn ed25519_instruction_attests(
    data: &[u8],
    signer: &Address,
    message: &[u8],
    signature: &[u8; 64],
) -> (attested: bool)
    ensures
        attested == attests_spec(data@, signer.bytes@, message@, signature@),
{
    if data.len() < 16 || data[0] != 1 {
        return false;
    }
    if read_u16_le(data, 4) != 0xFFFF || read_u16_le(data, 8) != 0xFFFF || read_u16_le(data, 14)
        != 0xFFFF {
        return false;
    }
    let signature_at = read_u16_le(data, 2);
    let signer_at = read_u16_le(data, 6);
    let message_at = read_u16_le(data, 10);
    let message_len = read_u16_le(data, 12);
    if signature_at + 64 > data.len() || signer_at + 32 > data.len() || message_at + message_len
        > data.len() || message_len != message.len() {
        return false;
    }
    holds_at(data, signature_at, signature.as_slice()) && holds_at(
        data,
        signer_at,
        signer.bytes.as_slice(),
    ) && holds_at(data, message_at, message)
}

/// Refuses an order whose signature is not authentic.
///
/// `attested` tells whether the signature was checked and found to be the
/// owner's over the order.
pub fn verify_ed25519_signature(attested: bool) -> (r: Result<(), ReaderError>)
    ensures
        attested ==> r == Ok::<(), ReaderError>(()),
        !attested ==> r == Err::<(), ReaderError>(ReaderError::InvalidSignature),
{
    if attested {
        Ok(())
    } else {
        Err(ReaderError::InvalidSignature)
    }
}

fn order_gate(
    amm: &Amm,
    pos: &Position,
    order: &LimitOrder,
    signature_valid: bool,
    market: &Address,
    now: i64,
) -> (r: Result<(), ReaderError>)
    ensures
        r == order_gate_spec(*amm, pos@, *order, signature_valid, *market, now),
{
    match verify_ed25519_signature(signature_valid) {
        Err(e) => {
            return Err(e);
        },
        Ok(()) => {},
    }
    if !order.market.same(market) {
        Err(ReaderError::WrongMarket)
    } else if !order.user.same(&pos.owner) {
        Err(ReaderError::WrongUser)
    } else if order.expiry_ts <= now {
        Err(ReaderError::OrderExpired)
    } else if pos.nonce_used(order.nonce) {
        Err(ReaderError::NonceAlreadyUsed)
    } else if amm.status != 1 {
        Err(ReaderError::MarketClosed)
    } else if order.action != ACTION_BUY && order.action != ACTION_SELL {
        Err(ReaderError::InvalidAction)
    } else {
        Ok(())
    }
}

/// The guards that an order stands for at the price `current_e6`.
pub fn order_guards(order: &LimitOrder, current_e6: i64, now: i64) -> (guards: AdvancedGuardConfig)
    ensures
        guards == order_guards_spec(*order, current_e6, now),
{
    let shares: i128 = order.shares_e6 as i128;
    let bps: i128 = order.min_fill_bps as i128;
    assert(-0x8000_0000_0000_0000 * 65_535 <= shares * bps <= 0x8000_0000_0000_0000 * 65_535)
        by (nonlinear_arith)
        requires
            -0x8000_0000_0000_0000 <= shares < 0x8000_0000_0000_0000,
            0 <= bps <= 65_535,
    ;
    let min_fill = clamp_i64((shares * bps) / 10_000);
    AdvancedGuardConfig {
        price_limit_e6: order.limit_price_e6,
        max_slippage_bps: 0,
        quote_price_e6: current_e6,
        quote_timestamp: now,
        max_total_cost_e6: order.max_cost_e6,
        allow_partial: true,
        min_fill_shares_e6: min_fill,
    }
}

/// Executes a signed limit order for its owner.
///
/// `signature_valid` is the verdict on the order's signature, `market` the
/// identity of this market, `keeper` who brings the order in, `now` the
/// current unix second and `vault_lamports` what the pooled vault really
/// holds. A refused order leaves the ledger and the position as they were.
pub fn execute_limit_order<F: Fn(PriceQuery) -> i64>(
    amm: &mut Amm,
    pos: &mut Position,
    order: &LimitOrder,
    signature_valid: bool,
    market: &Address,
    keeper: &Address,
    now: i64,
    vault_lamports: u64,
    pricer: &F,
) -> (r: Result<OrderFill, ReaderError>)
    requires
        is_pricer(pricer),
        old(amm).wf(),
    ensures
        match execute_order_spec(
            quotes(pricer),
            *old(amm),
            old(pos)@,
            *order,
            signature_valid,
            *market,
            *keeper,
            now,
            vault_lamports,
        ) {
            Ok(outcome) => r == Ok::<OrderFill, ReaderError>(outcome.fill) && *final(amm)
                == outcome.amm && final(pos)@ == outcome.pos,
            Err(e) => r == Err::<OrderFill, ReaderError>(e) && *final(amm) == *old(amm)
                && final(pos)@ == old(pos)@,
        },
        final(amm).wf(),
        old(pos).wf() ==> final(pos).wf(),
        r.is_ok() ==> final(pos)@.used_nonces.contains(order.nonce),
{
    match order_gate(amm, pos, order, signature_valid, market, now) {
        Err(e) => {
            return Err(e);
        },
        Ok(()) => {},
    }
    let current = calculate_avg_price_for_one_share(order.action, order.side, amm, pricer);
    let price_ok = if order.action == ACTION_BUY {
        current <= order.limit_price_e6
    } else {
        current >= order.limit_price_e6
    };
    if !price_ok {
        return Err(ReaderError::PriceConditionNotMet);
    }
    let guards = order_guards(order, current, now);
    let found = find_max_executable_shares(
        order.action,
        order.side,
        order.shares_e6,
        &guards,
        amm,
        pricer,
    );
    let shares = match accept_partial_fill(found, &guards) {
        Err(e) => {
            return Err(e);
        },
        Ok(shares) => shares,
    };
    let execution_price = calculate_avg_price(shares, order.action, order.side, amm, pricer);
    let receipt = match execute_trade_internal(
        amm,
        pos,
        order.side,
        order.action,
        shares,
        0,
        vault_lamports,
        pricer,
    ) {
        Err(e) => {
            return Err(e);
        },
        Ok(receipt) => receipt,
    };
    pos.record_nonce(order.nonce);
    Ok(
        OrderFill {
            event: LimitOrderExecuted {
                user: order.user,
                keeper: *keeper,
                action: order.action,
                side: order.side,
                shares_requested: order.shares_e6,
                shares_executed: receipt.shares_e6,
                limit_price: order.limit_price_e6,
                execution_price,
                keeper_fee_bps: order.keeper_fee_bps,
                nonce: order.nonce,
            },
            trade: receipt,
            keeper_fee_lamports: e6_to_lamports(fee_of(receipt.net_e6, order.keeper_fee_bps)),
        },
    )
}

} // verus!
