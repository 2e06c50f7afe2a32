use cpi_oracle::address::Address;
use cpi_oracle::error::ReaderError;
use cpi_oracle::events::emit_trade;
use cpi_oracle::guard::AdvancedGuardConfig;
use cpi_oracle::guard::GuardConfig;
use cpi_oracle::guard::SlippageConfig;
use cpi_oracle::market::init_amm;
use cpi_oracle::market::stop_market;
use cpi_oracle::market::Amm;
use cpi_oracle::oracle::oracle_program_id;
use cpi_oracle::position::init_position;
use cpi_oracle::position::Position;
use cpi_oracle::pricing::calculate_no_price;
use cpi_oracle::pricing::calculate_sell_no_proceeds;
use cpi_oracle::pricing::calculate_sell_yes_proceeds;
use cpi_oracle::pricing::calculate_yes_price;
use cpi_oracle::pricing::lmsr_buy_no;
use cpi_oracle::pricing::lmsr_buy_no_for_shares;
use cpi_oracle::pricing::lmsr_buy_yes;
use cpi_oracle::pricing::lmsr_buy_yes_for_shares;
use cpi_oracle::pricing::lmsr_sell_no;
use cpi_oracle::pricing::lmsr_sell_yes;
use cpi_oracle::pricing::quote;
use cpi_oracle::pricing::PriceQuery;
use cpi_oracle::pricing::QuoteKind;
use cpi_oracle::trade::check_trading_open;
use cpi_oracle::trade::close_position;
use cpi_oracle::trade::execute_trade_internal;
use cpi_oracle::trade::slippage_limit;
use cpi_oracle::trade::trade;
use cpi_oracle::trade::trade_advanced;
use cpi_oracle::trade::trade_guarded;
use cpi_oracle::trade::trade_with_slippage;

fn sh(x: i64) -> f64 {
    (x as f64) / 1_000_000.0
}

fn cost(b_e6: i64, qy: f64, qn: f64) -> f64 {
    let b = b_e6 as f64 / 1_000_000.0;
    let a = qy / b;
    let c = qn / b;
    let m = a.max(c);
    b * (m + ((a - m).exp() + (c - m).exp()).ln())
}

/// The scoring rule in floating point, rounded to the fixed-point scale.
fn lmsr(q: PriceQuery) -> i64 {
    let base = cost(q.b, sh(q.q_yes), sh(q.q_no));
    let moved = |delta: i64| {
        if q.side == 1 {
            cost(q.b, sh(q.q_yes + delta), sh(q.q_no))
        } else {
            cost(q.b, sh(q.q_yes), sh(q.q_no + delta))
        }
    };
    match q.kind {
        QuoteKind::BuyCost => {
            let net_h = (moved(q.amount_e6) - base).max(0.0);
            let gross_h = net_h / (1.0 - (q.fee_bps as f64) / 10_000.0);
            (gross_h * 1_000_000.0).round() as i64
        }
        QuoteKind::SellProceeds => {
            let mut gross_h = base - moved(-q.amount_e6);
            if !gross_h.is_finite() || gross_h < 0.0 {
                gross_h = 0.0;
            }
            (gross_h * 1_000_000.0).round() as i64
        }
        QuoteKind::SharesForSpend => {
            let net_h = sh(q.amount_e6);
            let p_yes = {
                let a = ((q.q_yes as f64) / (q.b as f64)).exp();
                let c = ((q.q_no as f64) / (q.b as f64)).exp();
                a / (a + c)
            };
            let p = if q.side == 1 { p_yes } else { 1.0 - p_yes }.max(1e-9);
            let mut hi = (net_h / p).min((q.b as f64 / 1_000_000.0) * 5.0);
            if hi < 1.0 {
                hi = 1.0;
            }
            let mut lo = 0.0;
            for _ in 0..32 {
                let mid = 0.5 * (lo + hi);
                let diff = (if q.side == 1 {
                    cost(q.b, sh(q.q_yes) + mid, sh(q.q_no))
                } else {
                    cost(q.b, sh(q.q_yes), sh(q.q_no) + mid)
                }) - base
                    - net_h;
                if diff.abs() <= 1e-9 {
                    lo = mid;
                    hi = mid;
                    break;
                }
                if diff < 0.0 {
                    lo = mid;
                } else {
                    hi = mid;
                }
            }
            ((0.5 * (lo + hi)) * 1_000_000.0).max(0.0).round() as i64
        }
        QuoteKind::SpotPrice => {
            let a = ((q.q_yes as f64) / (q.b as f64)).exp();
            let c = ((q.q_no as f64) / (q.b as f64)).exp();
            let p = if q.side == 1 { a / (a + c) } else { c / (a + c) };
            (p * 1_000_000.0) as i64
        }
    }
}

fn admin() -> Address {
    Address::new([7u8; 32])
}

fn user() -> Address {
    Address::new([1u8; 32])
}

fn open_market(b: i64, fee_bps: u16) -> Amm {
    let mut amm = init_amm(b, fee_bps, admin(), &Address::new([0u8; 32]), 1, 1, 0).unwrap();
    amm.status = 1;
    amm
}

fn funded(balance_e6: i64) -> Position {
    let mut pos = init_position(user(), Address::new([2u8; 32]), 1);
    pos.vault_balance_e6 = balance_e6;
    pos
}

fn feed(ts_ms: i64) -> Vec<u8> {
    let mut data = vec![0u8; 40];
    for v in [65_000_000_000i64, 65_000_000_000, 65_000_000_000, ts_ms, ts_ms, ts_ms] {
        data.extend_from_slice(&v.to_le_bytes());
    }
    data.extend_from_slice(&[0u8; 96]);
    data.push(6);
    data.push(1);
    data
}

fn buy(amm: &mut Amm, pos: &mut Position, side: u8, shares: i64) {
    trade(amm, pos, &user(), side, 1, shares, &oracle_program_id(), &[], 0, &lmsr).unwrap();
}

#[test]
fn half_a_share_costs_the_rise_of_the_cost_function() {
    let mut amm = open_market(1_000_000, 0);
    let mut pos = funded(1_000_000);
    let r = trade(&mut amm, &mut pos, &user(), 1, 1, 500_000, &oracle_program_id(), &[], 0, &lmsr)
        .unwrap();
    let expected = ((((0.5f64).exp() + 1.0) / 2.0).ln() * 1_000_000.0).round() as i64;
    assert_eq!(expected, 280_930);
    assert_eq!(r.gross_e6, 280_930);
    assert_eq!((r.fee_e6, r.net_e6, r.shares_e6), (0, 280_930, 500_000));
    assert_eq!((r.side, r.action), (1, 1));
    assert_eq!(r.avg_price_e6, 561_860);
    assert_eq!((r.to_vault_lamports, r.to_treasury_lamports, r.to_user_lamports), (28_093_000, 0, 0));
    assert_eq!((amm.q_yes, amm.q_no, amm.vault_e6, amm.fees), (500_000, 0, 280_930, 0));
    assert_eq!((pos.yes_shares_e6, pos.no_shares_e6), (500_000, 0));
    assert_eq!(pos.vault_balance_e6, 1_000_000 - 280_930);
}

#[test]
fn fee_and_net_add_up_to_the_spend() {
    let mut amm = open_market(1_000_000, 500);
    let mut pos = funded(1_000_000);
    let r = trade(&mut amm, &mut pos, &user(), 1, 1, 500_000, &oracle_program_id(), &[], 0, &lmsr)
        .unwrap();
    assert_eq!((r.gross_e6, r.fee_e6, r.net_e6), (295_716, 14_785, 280_931));
    assert_eq!(r.fee_e6 + r.net_e6, r.gross_e6);
    assert_eq!((amm.fees, amm.vault_e6), (14_785, 280_931));
    assert_eq!((r.to_vault_lamports, r.to_treasury_lamports), (28_093_100, 1_478_500));
    assert_eq!(pos.vault_balance_e6, 1_000_000 - 295_716);
}

#[test]
fn buying_no_moves_the_no_side() {
    let mut amm = open_market(1_000_000, 0);
    let mut pos = funded(1_000_000);
    let r = trade(&mut amm, &mut pos, &user(), 2, 1, 500_000, &oracle_program_id(), &[], 0, &lmsr)
        .unwrap();
    assert_eq!((r.gross_e6, r.side), (280_930, 2));
    assert_eq!((amm.q_yes, amm.q_no), (0, 500_000));
    assert_eq!((pos.yes_shares_e6, pos.no_shares_e6), (0, 500_000));
}

#[test]
fn selling_back_restores_the_share_counts() {
    let mut amm = open_market(1_000_000, 0);
    let mut pos = funded(1_000_000);
    buy(&mut amm, &mut pos, 1, 500_000);
    let spent = 1_000_000 - pos.vault_balance_e6;
    let r = trade(
        &mut amm,
        &mut pos,
        &user(),
        1,
        2,
        500_000,
        &oracle_program_id(),
        &[],
        100_000_000,
        &lmsr,
    )
    .unwrap();
    assert_eq!((r.action, r.shares_e6), (2, 500_000));
    assert!(r.net_e6 <= spent);
    assert_eq!(r.net_e6, 280_930);
    assert_eq!(r.to_user_lamports, 28_093_000);
    assert_eq!((amm.q_yes, amm.q_no, amm.vault_e6), (0, 0, 0));
    assert_eq!(pos.yes_shares_e6, 0);
    assert_eq!(pos.vault_balance_e6, 1_000_000);
}

#[test]
fn selling_back_under_a_fee_returns_less() {
    let mut amm = open_market(1_000_000, 500);
    let mut pos = funded(1_000_000);
    buy(&mut amm, &mut pos, 1, 500_000);
    let r = trade(
        &mut amm,
        &mut pos,
        &user(),
        1,
        2,
        500_000,
        &oracle_program_id(),
        &[],
        100_000_000,
        &lmsr,
    )
    .unwrap();
    assert_eq!((r.gross_e6, r.fee_e6, r.net_e6), (280_930, 14_046, 266_884));
    assert_eq!(r.fee_e6 + r.net_e6, r.gross_e6);
    assert!(r.net_e6 < 295_716);
    assert_eq!((amm.q_yes, pos.yes_shares_e6), (0, 0));
    assert_eq!(amm.fees, 14_785 + 14_046);
    assert_eq!(amm.vault_e6, 280_931 - 266_884);
}

#[test]
fn sale_is_held_to_the_holding() {
    let mut amm = open_market(1_000_000, 0);
    let mut pos = funded(10_000_000);
    buy(&mut amm, &mut pos, 1, 500_000);
    let mut other = funded(10_000_000);
    buy(&mut amm, &mut other, 1, 300_000);
    let r = trade(
        &mut amm,
        &mut other,
        &user(),
        1,
        2,
        2_000_000,
        &oracle_program_id(),
        &[],
        100_000_000,
        &lmsr,
    )
    .unwrap();
    assert_eq!(r.shares_e6, 300_000);
    assert_eq!(other.yes_shares_e6, 0);
    assert_eq!(amm.q_yes, 500_000);
}

#[test]
fn trade_is_refused_before_anything_changes() {
    let mut amm = open_market(1_000_000, 0);
    let mut pos = funded(100);
    let id = oracle_program_id();
    let before = amm;
    let stranger = Address::new([9u8; 32]);
    assert_eq!(
        trade(&mut amm, &mut pos, &stranger, 1, 1, 500_000, &id, &[], 0, &lmsr).err(),
        Some(ReaderError::NotOwner)
    );
    for amount in [0i64, -1, 99_999, 50_000_000_001] {
        assert_eq!(
            trade(&mut amm, &mut pos, &user(), 1, 1, amount, &id, &[], 0, &lmsr).err(),
            Some(ReaderError::BadParam)
        );
    }
    for (side, action) in [(0u8, 1u8), (3, 1), (1, 0), (1, 3), (2, 9)] {
        assert_eq!(
            trade(&mut amm, &mut pos, &user(), side, action, 500_000, &id, &[], 0, &lmsr).err(),
            Some(ReaderError::BadParam)
        );
    }
    assert_eq!(
        trade(&mut amm, &mut pos, &user(), 1, 1, 500_000, &id, &[], 0, &lmsr).err(),
        Some(ReaderError::InsufficientBalance)
    );
    assert_eq!(
        trade(&mut amm, &mut pos, &user(), 1, 2, 500_000, &id, &[], 0, &lmsr).err(),
        Some(ReaderError::InsufficientShares)
    );
    assert_eq!(amm.q_yes, before.q_yes);
    assert_eq!((amm.vault_e6, amm.fees), (before.vault_e6, before.fees));
    assert_eq!((pos.vault_balance_e6, pos.yes_shares_e6), (100, 0));
    stop_market(&mut amm, &admin()).unwrap();
    assert_eq!(
        trade(&mut amm, &mut pos, &user(), 1, 1, 500_000, &id, &[], 0, &lmsr).err(),
        Some(ReaderError::MarketClosed)
    );
}

#[test]
fn trades_are_taken_in_premarket_too() {
    let mut amm = open_market(1_000_000, 0);
    amm.status = 0;
    let mut pos = funded(1_000_000);
    buy(&mut amm, &mut pos, 1, 500_000);
    assert_eq!(pos.yes_shares_e6, 500_000);
}

#[test]
fn sale_needs_real_coverage() {
    let mut amm = open_market(1_000_000, 0);
    let mut pos = funded(1_000_000);
    let id = oracle_program_id();
    buy(&mut amm, &mut pos, 1, 500_000);
    let short = trade(&mut amm, &mut pos, &user(), 1, 2, 500_000, &id, &[], 28_092_999, &lmsr);
    assert_eq!(short.err(), Some(ReaderError::NoCoverage));
    assert_eq!((amm.q_yes, amm.vault_e6, pos.yes_shares_e6), (500_000, 280_930, 500_000));
    let covered = trade(&mut amm, &mut pos, &user(), 1, 2, 500_000, &id, &[], 28_093_000, &lmsr);
    assert_eq!(covered.unwrap().net_e6, 280_930);
}

#[test]
fn trading_locks_forty_five_seconds_before_the_end() {
    let mut amm = open_market(1_000_000, 0);
    amm.market_end_time = 1_000;
    let id = oracle_program_id();
    assert_eq!(check_trading_open(&amm, &id, &feed(954_999)), Ok(()));
    assert_eq!(check_trading_open(&amm, &id, &feed(955_000)), Err(ReaderError::TradingLocked));
    assert_eq!(check_trading_open(&amm, &id, &feed(2_000_000)), Err(ReaderError::TradingLocked));
    assert_eq!(check_trading_open(&amm, &id, &feed(-1_500)), Ok(()));
    assert_eq!(check_trading_open(&amm, &admin(), &feed(1)), Err(ReaderError::WrongOwner));
    assert_eq!(check_trading_open(&amm, &id, &[0u8; 10]), Err(ReaderError::DataTooSmall));
    let mut pos = funded(1_000_000);
    let locked = trade(&mut amm, &mut pos, &user(), 1, 1, 500_000, &id, &feed(955_000), 0, &lmsr);
    assert_eq!(locked.err(), Some(ReaderError::TradingLocked));
    let open = trade(&mut amm, &mut pos, &user(), 1, 1, 500_000, &id, &feed(954_999), 0, &lmsr);
    assert!(open.is_ok());
    amm.market_end_time = 0;
    assert_eq!(check_trading_open(&amm, &admin(), &[]), Ok(()));
    amm.status = 2;
    assert_eq!(check_trading_open(&amm, &id, &feed(1)), Err(ReaderError::MarketClosed));
}

#[test]
fn buy_above_the_price_limit_is_refused() {
    let id = oracle_program_id();
    let mut amm = open_market(1_000_000, 0);
    let mut pos = funded(1_000_000);
    let over = GuardConfig { price_limit_e6: 561_859 };
    let r = trade_guarded(&mut amm, &mut pos, &user(), 1, 1, 500_000, over, &id, &[], 0, &lmsr);
    assert_eq!(r.err(), Some(ReaderError::PriceLimitExceeded));
    assert_eq!((amm.q_yes, pos.vault_balance_e6), (0, 1_000_000));
    let at = GuardConfig { price_limit_e6: 561_860 };
    let r = trade_guarded(&mut amm, &mut pos, &user(), 1, 1, 500_000, at, &id, &[], 0, &lmsr);
    assert_eq!(r.unwrap().gross_e6, 280_930);
}

#[test]
fn sale_below_the_price_limit_is_refused() {
    let id = oracle_program_id();
    let mut amm = open_market(1_000_000, 0);
    let mut pos = funded(1_000_000);
    buy(&mut amm, &mut pos, 1, 500_000);
    let under = GuardConfig { price_limit_e6: 598_611 };
    let r = trade_guarded(
        &mut amm,
        &mut pos,
        &user(),
        1,
        2,
        200_000,
        under,
        &id,
        &[],
        100_000_000,
        &lmsr,
    );
    assert_eq!(r.err(), Some(ReaderError::PriceLimitNotMet));
    assert_eq!((amm.q_yes, pos.yes_shares_e6), (500_000, 500_000));
    let at = GuardConfig { price_limit_e6: 598_610 };
    let r = trade_guarded(&mut amm, &mut pos, &user(), 1, 2, 200_000, at, &id, &[], 100_000_000, &lmsr)
        .unwrap();
    assert_eq!((r.net_e6, r.avg_price_e6, r.shares_e6), (119_722, 598_610, 200_000));
    assert_eq!((amm.q_yes, pos.yes_shares_e6), (300_000, 300_000));
}

#[test]
fn guard_without_a_limit_is_a_plain_trade() {
    let id = oracle_program_id();
    let mut amm = open_market(1_000_000, 0);
    let mut pos = funded(1_000_000);
    assert!(!GuardConfig::none().has_limit());
    assert!(GuardConfig { price_limit_e6: 1 }.has_limit());
    assert!(!GuardConfig { price_limit_e6: -1 }.has_limit());
    let r = trade_guarded(
        &mut amm,
        &mut pos,
        &user(),
        1,
        1,
        500_000,
        GuardConfig::none(),
        &id,
        &[],
        0,
        &lmsr,
    );
    assert_eq!(r.unwrap().gross_e6, 280_930);
}

#[test]
fn slippage_tolerance_becomes_a_price_limit() {
    assert_eq!(slippage_limit(500_000, 1, SlippageConfig { max_slippage_bps: 1_000 }), 550_000);
    assert_eq!(slippage_limit(500_000, 2, SlippageConfig { max_slippage_bps: 1_000 }), 450_000);
    assert_eq!(slippage_limit(500_000, 1, SlippageConfig::none()), 0);
    assert_eq!(slippage_limit(333_333, 1, SlippageConfig { max_slippage_bps: 1 }), 333_366);
    assert_eq!(slippage_limit(7, 2, SlippageConfig { max_slippage_bps: 65_535 }), 0);
    assert_eq!(slippage_limit(i64::MAX, 1, SlippageConfig { max_slippage_bps: 65_535 }), i64::MAX);
    assert!(!SlippageConfig::none().has_slippage_limit());
    assert!(SlippageConfig { max_slippage_bps: 1 }.has_slippage_limit());
}

#[test]
fn trade_outside_the_slippage_band_is_refused() {
    let id = oracle_program_id();
    let mut amm = open_market(1_000_000, 0);
    let mut pos = funded(1_000_000);
    let tight = SlippageConfig { max_slippage_bps: 1_000 };
    let r = trade_with_slippage(&mut amm, &mut pos, &user(), 1, 1, 500_000, tight, &id, &[], 0, &lmsr);
    assert_eq!(r.err(), Some(ReaderError::PriceLimitExceeded));
    let wide = SlippageConfig { max_slippage_bps: 1_500 };
    let r = trade_with_slippage(&mut amm, &mut pos, &user(), 1, 1, 500_000, wide, &id, &[], 0, &lmsr);
    assert_eq!(r.unwrap().gross_e6, 280_930);
    let sale = trade_with_slippage(
        &mut amm,
        &mut pos,
        &user(),
        1,
        2,
        200_000,
        SlippageConfig { max_slippage_bps: 300 },
        &id,
        &[],
        100_000_000,
        &lmsr,
    );
    assert_eq!(sale.err(), Some(ReaderError::PriceLimitNotMet));
    let sale = trade_with_slippage(
        &mut amm,
        &mut pos,
        &user(),
        1,
        2,
        200_000,
        SlippageConfig { max_slippage_bps: 400 },
        &id,
        &[],
        100_000_000,
        &lmsr,
    );
    assert_eq!(sale.unwrap().net_e6, 119_722);
}

#[test]
fn spot_prices_are_the_probabilities() {
    let mut amm = open_market(1_000_000, 0);
    assert_eq!(calculate_yes_price(&amm, &lmsr), 500_000);
    assert_eq!(calculate_no_price(&amm, &lmsr), 500_000);
    amm.q_yes = 500_000;
    assert_eq!(calculate_yes_price(&amm, &lmsr), 622_459);
    assert_eq!(calculate_no_price(&amm, &lmsr), 377_540);
    let q = quote(&amm, &lmsr);
    assert_eq!((q.p_yes_e6, q.p_no_e6, q.skew_e6), (622_459, 377_541, 500_000));
}

#[test]
fn quotes_leave_the_ledger_alone() {
    let mut amm = open_market(1_000_000, 500);
    assert_eq!(lmsr_buy_yes_for_shares(&amm, 500_000, &lmsr), 295_716);
    assert_eq!(lmsr_buy_no_for_shares(&amm, 500_000, &lmsr), 295_716);
    assert_eq!(lmsr_buy_yes_for_shares(&amm, 0, &lmsr), 0);
    assert_eq!(lmsr_buy_no_for_shares(&amm, -4, &lmsr), 0);
    assert_eq!(calculate_sell_yes_proceeds(&amm, 500_000, &lmsr), 0);
    amm.q_yes = 500_000;
    amm.q_no = 200_000;
    assert_eq!(calculate_sell_yes_proceeds(&amm, 500_000, &lmsr), 256_216 - 12_810);
    assert_eq!(calculate_sell_yes_proceeds(&amm, 9_000_000, &lmsr), 243_406);
    assert_eq!(calculate_sell_yes_proceeds(&amm, -1, &lmsr), 0);
    assert_eq!(calculate_sell_no_proceeds(&amm, 200_000, &lmsr), 76_265);
}

#[test]
fn inventory_sale_books_fee_shares_and_proceeds() {
    let mut amm = open_market(1_000_000, 500);
    amm.q_yes = 500_000;
    amm.vault_e6 = 300_000;
    let sale = lmsr_sell_yes(&mut amm, 800_000, &lmsr);
    assert_eq!((sale.sold_e6, sale.gross_e6, sale.fee_e6, sale.net_e6), (500_000, 280_930, 14_046, 266_884));
    assert_eq!((amm.q_yes, amm.fees, amm.vault_e6), (0, 14_046, 33_116));
    let none = lmsr_sell_yes(&mut amm, 800_000, &lmsr);
    assert_eq!((none.sold_e6, none.gross_e6, none.fee_e6, none.net_e6), (0, 0, 0, 0));
    let none = lmsr_sell_no(&mut amm, 800_000, &lmsr);
    assert_eq!(none.sold_e6, 0);
    assert_eq!((amm.q_yes, amm.q_no, amm.fees, amm.vault_e6), (0, 0, 14_046, 33_116));
    amm.q_no = 500_000;
    let sale = lmsr_sell_no(&mut amm, 500_000, &lmsr);
    assert_eq!((sale.sold_e6, sale.gross_e6), (500_000, 280_930));
    assert_eq!(amm.q_no, 0);
}

#[test]
fn spend_sized_purchase_finds_its_shares() {
    let mut amm = open_market(1_000_000, 0);
    let bought = lmsr_buy_yes(&mut amm, 280_930, &lmsr).unwrap();
    assert!((bought.shares_e6 - 500_000).abs() <= 2);
    assert_eq!((bought.fee_e6, bought.net_e6), (0, 280_930));
    assert_eq!((amm.q_yes, amm.vault_e6, amm.fees), (bought.shares_e6, 280_930, 0));
    let mut amm = open_market(1_000_000, 500);
    let bought = lmsr_buy_no(&mut amm, 100_000_000, &lmsr).unwrap();
    assert_eq!((bought.fee_e6, bought.net_e6), (5_000_000, 95_000_000));
    assert_eq!(bought.fee_e6 + bought.net_e6, 100_000_000);
    assert_eq!((amm.q_no, amm.q_yes), (bought.shares_e6, 0));
    assert_eq!((amm.fees, amm.vault_e6), (5_000_000, 95_000_000));
    assert!(bought.shares_e6 > 0 && bought.shares_e6 <= 5_000_000);
}

#[test]
fn spend_sized_purchase_needs_a_net_spend() {
    let mut amm = open_market(1_000_000, 10_000);
    assert_eq!(lmsr_buy_yes(&mut amm, 500, &lmsr).err(), Some(ReaderError::BadParam));
    let mut amm = open_market(1_000_000, 0);
    assert_eq!(lmsr_buy_yes(&mut amm, 0, &lmsr).err(), Some(ReaderError::BadParam));
    assert_eq!(lmsr_buy_no(&mut amm, -5, &lmsr).err(), Some(ReaderError::BadParam));
    let flood = |_q: PriceQuery| 50_000_000_001i64;
    assert_eq!(lmsr_buy_yes(&mut amm, 500, &flood).err(), Some(ReaderError::BadParam));
    assert_eq!((amm.q_yes, amm.q_no, amm.fees, amm.vault_e6), (0, 0, 0, 0));
    let brim = |_q: PriceQuery| 50_000_000_000i64;
    assert_eq!(lmsr_buy_yes(&mut amm, 500, &brim).unwrap().shares_e6, 50_000_000_000);
}

#[test]
fn negative_answers_count_as_zero() {
    let mut amm = open_market(1_000_000, 0);
    let mut pos = funded(10);
    let negative = |_q: PriceQuery| -5i64;
    let r = execute_trade_internal(&mut amm, &mut pos, 1, 1, 500_000, 0, 0, &negative).unwrap();
    assert_eq!((r.gross_e6, r.fee_e6, r.net_e6), (0, 0, 0));
    assert_eq!((amm.q_yes, amm.vault_e6, pos.vault_balance_e6), (500_000, 0, 10));
    assert_eq!(calculate_yes_price(&amm, &negative), 0);
}

#[test]
fn whole_position_is_sold_yes_first() {
    let id = oracle_program_id();
    let mut amm = open_market(1_000_000, 0);
    let mut pos = funded(10_000_000);
    buy(&mut amm, &mut pos, 1, 500_000);
    buy(&mut amm, &mut pos, 2, 300_000);
    let balance = pos.vault_balance_e6;
    let vault = amm.vault_e6;
    let r = close_position(&mut amm, &mut pos, &user(), &id, &[], 1_000_000_000, &lmsr).unwrap();
    assert_eq!((r.yes.shares_e6, r.no.shares_e6), (500_000, 300_000));
    assert_eq!((r.yes.side, r.yes.action, r.no.side, r.no.action), (1, 2, 2, 2));
    assert_eq!(r.total_proceeds_e6, r.yes.net_e6 + r.no.net_e6);
    assert_eq!(r.yes.to_user_lamports, (r.yes.net_e6 as u64) * 100);
    assert_eq!((pos.yes_shares_e6, pos.no_shares_e6), (0, 0));
    assert_eq!(pos.vault_balance_e6, balance + r.total_proceeds_e6);
    assert_eq!((amm.q_yes, amm.q_no), (0, 0));
    assert_eq!(amm.vault_e6, vault - r.total_proceeds_e6);
    assert!((pos.vault_balance_e6 - 10_000_000).abs() <= 2);
    assert_eq!((r.yes.net_e6, r.no.net_e6), (243_784, 161_208));
}

#[test]
fn closing_an_empty_position_changes_nothing() {
    let id = oracle_program_id();
    let mut amm = open_market(1_000_000, 0);
    let mut pos = funded(55);
    let r = close_position(&mut amm, &mut pos, &user(), &id, &[], 0, &lmsr).unwrap();
    assert_eq!((r.yes.shares_e6, r.no.shares_e6, r.total_proceeds_e6), (0, 0, 0));
    assert_eq!(pos.vault_balance_e6, 55);
}

#[test]
fn closing_is_all_or_nothing() {
    let id = oracle_program_id();
    let mut amm = open_market(1_000_000, 0);
    let mut pos = funded(10_000_000);
    buy(&mut amm, &mut pos, 1, 500_000);
    buy(&mut amm, &mut pos, 2, 300_000);
    let before = amm;
    let balance = pos.vault_balance_e6;
    let yes_only = close_position(&mut amm, &mut pos, &user(), &id, &[], 36_000_000, &lmsr);
    assert_eq!(yes_only.err(), Some(ReaderError::NoCoverage));
    let nothing = close_position(&mut amm, &mut pos, &user(), &id, &[], 100, &lmsr);
    assert_eq!(nothing.err(), Some(ReaderError::NoCoverage));
    assert_eq!((amm.q_yes, amm.q_no, amm.vault_e6), (before.q_yes, before.q_no, before.vault_e6));
    assert_eq!((pos.yes_shares_e6, pos.no_shares_e6, pos.vault_balance_e6), (500_000, 300_000, balance));
    let stranger = Address::new([9u8; 32]);
    assert_eq!(
        close_position(&mut amm, &mut pos, &stranger, &id, &[], 1_000_000_000, &lmsr).err(),
        Some(ReaderError::NotOwner)
    );
    amm.market_end_time = 1_000;
    assert_eq!(
        close_position(&mut amm, &mut pos, &user(), &id, &feed(990_000), 1_000_000_000, &lmsr).err(),
        Some(ReaderError::TradingLocked)
    );
    amm.status = 2;
    assert_eq!(
        close_position(&mut amm, &mut pos, &user(), &id, &[], 1_000_000_000, &lmsr).err(),
        Some(ReaderError::MarketClosed)
    );
}

#[test]
fn full_amount_is_executed_where_it_passes() {
    let id = oracle_program_id();
    let mut amm = open_market(100_000_000, 0);
    let mut pos = funded(1_000_000_000);
    let guards = AdvancedGuardConfig {
        price_limit_e6: 520_000,
        max_slippage_bps: 500,
        quote_price_e6: 500_000,
        quote_timestamp: 1_000,
        max_total_cost_e6: 6_000_000,
        allow_partial: false,
        min_fill_shares_e6: 0,
    };
    let r = trade_advanced(
        &mut amm,
        &mut pos,
        &user(),
        1,
        1,
        10_000_000,
        &guards,
        1_030,
        &id,
        &[],
        0,
        &lmsr,
    )
    .unwrap();
    assert_eq!((r.shares_e6, r.gross_e6), (10_000_000, 5_124_948));
    assert_eq!(amm.q_yes, 10_000_000);
}

#[test]
fn smaller_quantity_is_executed_where_allowed() {
    let id = oracle_program_id();
    let mut amm = open_market(100_000_000, 0);
    let mut pos = funded(1_000_000_000);
    let mut guards = AdvancedGuardConfig::none();
    guards.price_limit_e6 = 550_000;
    let refused = trade_advanced(
        &mut amm,
        &mut pos,
        &user(),
        1,
        1,
        100_000_000,
        &guards,
        0,
        &id,
        &[],
        0,
        &lmsr,
    );
    assert_eq!(refused.err(), Some(ReaderError::PriceLimitExceeded));
    guards.allow_partial = true;
    let r = trade_advanced(
        &mut amm,
        &mut pos,
        &user(),
        1,
        1,
        100_000_000,
        &guards,
        0,
        &id,
        &[],
        0,
        &lmsr,
    )
    .unwrap();
    assert_eq!(r.shares_e6, 41_168_051);
    assert!(r.shares_e6 < 100_000_000);
    assert_eq!(amm.q_yes, r.shares_e6);
    assert_eq!(pos.yes_shares_e6, r.shares_e6);
    assert!(r.gross_e6 * 1_000_000 / r.shares_e6 <= 551_100);
}

#[test]
fn advanced_trade_names_the_guard_that_refused() {
    let id = oracle_program_id();
    let mut amm = open_market(100_000_000, 0);
    let mut pos = funded(1_000_000_000);
    let mut run = |guards: AdvancedGuardConfig, now: i64| {
        trade_advanced(&mut amm, &mut pos, &user(), 1, 1, 100_000_000, &guards, now, &id, &[], 0, &lmsr)
            .err()
    };
    let mut slip = AdvancedGuardConfig::none();
    slip.max_slippage_bps = 500;
    slip.quote_price_e6 = 500_000;
    slip.quote_timestamp = 1_000;
    assert_eq!(run(slip, 1_030), Some(ReaderError::SlippageExceeded));
    assert_eq!(run(slip, 1_031), Some(ReaderError::StaleQuote));
    let mut capped = AdvancedGuardConfig::none();
    capped.max_total_cost_e6 = 10_000_000;
    assert_eq!(run(capped, 0), Some(ReaderError::CostExceedsLimit));
    let mut limited = capped;
    limited.price_limit_e6 = 510_000;
    assert_eq!(run(limited, 0), Some(ReaderError::PriceLimitExceeded));
    let mut unreachable_fill = AdvancedGuardConfig::none();
    unreachable_fill.price_limit_e6 = 100_000;
    unreachable_fill.allow_partial = true;
    assert_eq!(run(unreachable_fill, 0), Some(ReaderError::PriceLimitExceeded));
    let mut high_floor = AdvancedGuardConfig::none();
    high_floor.price_limit_e6 = 550_000;
    high_floor.allow_partial = true;
    high_floor.min_fill_shares_e6 = 60_000_000;
    assert_eq!(run(high_floor, 0), Some(ReaderError::PriceLimitExceeded));
}

#[test]
fn advanced_trade_checks_the_market_first() {
    let id = oracle_program_id();
    let mut amm = open_market(100_000_000, 0);
    let mut pos = funded(1_000_000_000);
    let guards = AdvancedGuardConfig::none();
    let stranger = Address::new([9u8; 32]);
    assert_eq!(
        trade_advanced(&mut amm, &mut pos, &stranger, 1, 1, 1_000_000, &guards, 0, &id, &[], 0, &lmsr)
            .err(),
        Some(ReaderError::NotOwner)
    );
    assert_eq!(
        trade_advanced(&mut amm, &mut pos, &user(), 1, 1, 0, &guards, 0, &id, &[], 0, &lmsr).err(),
        Some(ReaderError::BadParam)
    );
    assert_eq!(
        trade_advanced(&mut amm, &mut pos, &user(), 4, 1, 1_000_000, &guards, 0, &id, &[], 0, &lmsr)
            .err(),
        Some(ReaderError::BadParam)
    );
    let ok = trade_advanced(&mut amm, &mut pos, &user(), 2, 1, 1_000_000, &guards, 0, &id, &[], 0, &lmsr);
    assert_eq!(ok.unwrap().gross_e6, 501_250);
    amm.status = 2;
    assert_eq!(
        trade_advanced(&mut amm, &mut pos, &user(), 1, 1, 1_000_000, &guards, 0, &id, &[], 0, &lmsr)
            .err(),
        Some(ReaderError::MarketClosed)
    );
}

#[test]
fn trade_record_reports_the_ledger_after_the_trade() {
    let mut amm = open_market(1_000_000, 500);
    let mut pos = funded(1_000_000);
    let r = trade(&mut amm, &mut pos, &user(), 1, 1, 500_000, &oracle_program_id(), &[], 0, &lmsr)
        .unwrap();
    let p_yes = calculate_yes_price(&amm, &lmsr);
    let e = emit_trade(&amm, &r, p_yes);
    assert_eq!((e.side, e.action, e.net_e6, e.dq_e6), (1, 1, 295_716, 500_000));
    assert_eq!(e.avg_price_e6, 561_862);
    assert_eq!((e.q_yes, e.q_no, e.vault_e6, e.fees_e6), (500_000, 0, 280_931, 14_785));
    assert_eq!(e.p_yes_e6, 622_459);
    let s = trade(
        &mut amm,
        &mut pos,
        &user(),
        1,
        2,
        500_000,
        &oracle_program_id(),
        &[],
        100_000_000,
        &lmsr,
    )
    .unwrap();
    let e = emit_trade(&amm, &s, 500_000);
    assert_eq!((e.action, e.net_e6, e.dq_e6), (2, 266_884, 500_000));
}

#[test]
fn cost_and_price_rise_with_the_quantity() {
    let amm = open_market(1_000_000, 0);
    let mut last_cost = 0;
    for shares in [100_000i64, 200_000, 500_000, 1_000_000, 2_000_000, 4_000_000] {
        let cost = lmsr_buy_yes_for_shares(&amm, shares, &lmsr);
        assert!(cost > last_cost);
        last_cost = cost;
    }
    let mut last_price = 0;
    for q_yes in [-2_000_000i64, -500_000, 0, 1_000, 500_000, 2_000_000] {
        let mut moved = amm;
        moved.q_yes = q_yes;
        let price = calculate_yes_price(&moved, &lmsr);
        assert!(price > last_price);
        assert!(calculate_no_price(&moved, &lmsr) <= 1_000_000 - price);
        last_price = price;
    }
}
