//! Guards on a trade, and the search for the largest quantity that passes them.
//!
//! A guard holds the execution price or the total cost of a trade against a
//! limit of the caller. Where the full quantity fails and a smaller one may be
//! executed instead, the search halves the quantity until one passes, refines
//! between the last failure and the first pass by Newton's method where only
//! a price binds, and otherwise bisects.

use vstd::prelude::*;
use crate::error::ReaderError;
use crate::guard::AdvancedGuardConfig;
use crate::market::Amm;
use crate::pricing::buy_cost_spec;
use crate::pricing::calculate_sell_proceeds;
use crate::pricing::is_pricer;
use crate::pricing::lmsr_buy_for_shares;
use crate::pricing::quotes;
use crate::pricing::sell_net_spec;
use crate::pricing::PriceQuery;
use crate::units::clamp_i64;
use crate::units::clamp_i64_spec;
use crate::units::div_toward_zero;
use crate::units::lemma_trunc_div_bound;
use crate::units::price_per_share;
use crate::units::price_per_share_spec;
use crate::units::trunc_div;

verus! {

/// The action that buys.
pub const ACTION_BUY: u8 = 1;

/// The action that sells.
pub const ACTION_SELL: u8 = 2;

/// Basis points by which an execution price may pass an absolute limit.
pub const PRICE_TOLERANCE_BPS: i64 = 20;

/// Oldest reference quote, in seconds, that a slippage guard accepts.
pub const QUOTE_MAX_AGE_SECS: i64 = 30;

/// Most halvings of the quantity before the search bisects.
pub const BACKOFF_ROUNDS: u8 = 8;

/// Most steps of Newton's method.
pub const NEWTON_ROUNDS: u8 = 8;

/// Most steps of a bisection.
pub const BISECTION_ROUNDS: u8 = 16;

/// The smallest quantity that the search tries.
pub const SEARCH_FLOOR_E6: i64 = 100_000;

/// By how much a quantity that converged but fails the guards is reduced.
pub const NEWTON_STEP_BACK_E6: i64 = 100;

/// What a trade of `shares_e6` moves: the spend of a buy, fee included, or the
/// proceeds of a sale after the fee.
pub open spec fn trade_value_spec(
    p: spec_fn(PriceQuery) -> i64,
    amm: Amm,
    shares_e6: i64,
    action: u8,
    side: u8,
) -> i64 {
    if action == ACTION_BUY {
        buy_cost_spec(p, amm, side, shares_e6)
    } else {
        sell_net_spec(p, amm, side, shares_e6)
    }
}

/// The average price per share of a trade of `shares_e6`.
pub open spec fn avg_price_spec(
    p: spec_fn(PriceQuery) -> i64,
    amm: Amm,
    shares_e6: i64,
    action: u8,
    side: u8,
) -> i64 {
    price_per_share_spec(trade_value_spec(p, amm, shares_e6, action, side), shares_e6) as i64
}

/// The band around an absolute price limit: 0.2% of it.
pub open spec fn price_tolerance_spec(limit_e6: i64) -> int {
    (limit_e6 * PRICE_TOLERANCE_BPS) / 10_000
}

/// The deviation from the quote that the slippage guard tolerates.
pub open spec fn slippage_deviation_spec(guards: AdvancedGuardConfig) -> int {
    (guards.quote_price_e6 * guards.max_slippage_bps) / 10_000
}

/// The highest price of a buy, or the lowest price of a sell, that the
/// absolute limit lets pass.
pub open spec fn price_bound_spec(action: u8, guards: AdvancedGuardConfig) -> int {
    if action == ACTION_BUY {
        guards.price_limit_e6 + price_tolerance_spec(guards.price_limit_e6)
    } else {
        guards.price_limit_e6 - price_tolerance_spec(guards.price_limit_e6)
    }
}

/// The highest price of a buy, or the lowest price of a sell, that the
/// slippage guard lets pass.
pub open spec fn slippage_bound_spec(action: u8, guards: AdvancedGuardConfig) -> int {
    if action == ACTION_BUY {
        guards.quote_price_e6 + slippage_deviation_spec(guards)
    } else if guards.quote_price_e6 - slippage_deviation_spec(guards) < 0 {
        0
    } else {
        guards.quote_price_e6 - slippage_deviation_spec(guards)
    }
}

/// Whether a price is on the right side of a bound: at most it for a buy,
/// at least it for a sell.
pub open spec fn within_bound_spec(price_e6: i64, action: u8, bound: int) -> bool {
    if action == ACTION_BUY {
        price_e6 <= bound
    } else {
        price_e6 >= bound
    }
}

/// Whether an execution at `price_e6` per share and `cost_e6` in total passes
/// every guard that is set.
pub open spec fn guards_pass_spec(
    price_e6: i64,
    cost_e6: i64,
    action: u8,
    guards: AdvancedGuardConfig,
) -> bool {
    &&& guards.has_price_limit() ==> within_bound_spec(
        price_e6,
        action,
        price_bound_spec(action, guards),
    )
    &&& guards.has_slippage_guard() ==> within_bound_spec(
        price_e6,
        action,
        slippage_bound_spec(action, guards),
    )
    &&& action == ACTION_BUY && guards.has_cost_limit() ==> cost_e6 <= guards.max_total_cost_e6
}

/// Whether a trade of `shares_e6` passes every guard that is set.
pub open spec fn shares_pass_spec(
    p: spec_fn(PriceQuery) -> i64,
    amm: Amm,
    shares_e6: i64,
    action: u8,
    side: u8,
    guards: AdvancedGuardConfig,
) -> bool {
    guards_pass_spec(
        avg_price_spec(p, amm, shares_e6, action, side),
        trade_value_spec(p, amm, shares_e6, action, side),
        action,
        guards,
    )
}

/// The guards as a predicate on the quantity.
pub open spec fn passing(
    p: spec_fn(PriceQuery) -> i64,
    amm: Amm,
    action: u8,
    side: u8,
    guards: AdvancedGuardConfig,
) -> spec_fn(i64) -> bool {
    |shares_e6: i64| shares_pass_spec(p, amm, shares_e6, action, side, guards)
}

/// The average price as a function of the quantity.
pub open spec fn pricing_of(p: spec_fn(PriceQuery) -> i64, amm: Amm, action: u8, side: u8)
    -> spec_fn(i64) -> i64 {
    |shares_e6: i64| avg_price_spec(p, amm, shares_e6, action, side)
}

/// What a trade of `shares_e6` moves: the spend of a buy or the net proceeds of a sale.
pub fn trade_value<F: Fn(PriceQuery) -> i64>(
    shares_e6: i64,
    action: u8,
    side: u8,
    amm: &Amm,
    pricer: &F,
) -> (value_e6: i64)
    requires
        is_pricer(pricer),
    ensures
        value_e6 == trade_value_spec(quotes(pricer), *amm, shares_e6, action, side),
{
    if action == ACTION_BUY {
        lmsr_buy_for_shares(amm, side, shares_e6, pricer)
    } else {
        calculate_sell_proceeds(amm, side, shares_e6, pricer)
    }
}

/// The average price per share of buying or selling `shares_e6`.
pub fn calculate_avg_price<F: Fn(PriceQuery) -> i64>(
    shares_e6: i64,
    action: u8,
    side: u8,
    amm: &Amm,
    pricer: &F,
) -> (price_e6: i64)
    requires
        is_pricer(pricer),
    ensures
        price_e6 == avg_price_spec(quotes(pricer), *amm, shares_e6, action, side),
        price_e6 == pricing_of(quotes(pricer), *amm, action, side)(shares_e6),
        0 <= price_e6,
{
    let value = trade_value(shares_e6, action, side, amm, pricer);
    price_per_share(value, shares_e6)
}

/// The average price per share of buying or selling one share.
pub fn calculate_avg_price_for_one_share<F: Fn(PriceQuery) -> i64>(
    action: u8,
    side: u8,
    amm: &Amm,
    pricer: &F,
) -> (price_e6: i64)
    requires
        is_pricer(pricer),
    ensures
        price_e6 == avg_price_spec(quotes(pricer), *amm, 1_000_000, action, side),
{
    calculate_avg_price(1_000_000, action, side, amm, pricer)
}

/// The bound of the absolute price limit.
pub fn price_bound(action: u8, guards: &AdvancedGuardConfig) -> (bound: i128)
    ensures
        bound == price_bound_spec(action, *guards),
        -0x1_0000_0000_0000_0000 < bound < 0x1_0000_0000_0000_0000,
{
    let limit: i128 = guards.price_limit_e6 as i128;
    let scaled: i128 = limit * 20;
    let tolerance: i128 = if scaled >= 0 {
        scaled / 10_000
    } else {
        -((-scaled + 9_999) / 10_000)
    };
    assert(tolerance == (guards.price_limit_e6 * 20) / 10_000);
    if action == ACTION_BUY {
        limit + tolerance
    } else {
        limit - tolerance
    }
}

/// The bound of the slippage guard.
pub fn slippage_bound(action: u8, guards: &AdvancedGuardConfig) -> (bound: i128)
    ensures
        bound == slippage_bound_spec(action, *guards),
        -0x8_0000_0000_0000_0000 < bound < 0x8_0000_0000_0000_0000,
{
    let quote: i128 = guards.quote_price_e6 as i128;
    let bps: i128 = guards.max_slippage_bps as i128;
    assert(-0x8000_0000_0000_0000 * 65_535 <= quote * bps <= 0x8000_0000_0000_0000 * 65_535)
        by (nonlinear_arith)
        requires
            -0x8000_0000_0000_0000 <= quote < 0x8000_0000_0000_0000,
            0 <= bps <= 65_535,
    ;
    let scaled: i128 = quote * bps;
    let deviation: i128 = if scaled >= 0 {
        scaled / 10_000
    } else {
        -((-scaled + 9_999) / 10_000)
    };
    assert(deviation == (guards.quote_price_e6 * guards.max_slippage_bps) / 10_000);
    if action == ACTION_BUY {
        quote + deviation
    } else if quote - deviation < 0 {
        0
    } else {
        quote - deviation
    }
}

/// Whether an execution at `price_e6` per share and `cost_e6` in total passes
/// every guard that is set.
pub fn guards_pass(price_e6: i64, cost_e6: i64, action: u8, guards: &AdvancedGuardConfig) -> (ok:
    bool)
    ensures
        ok == guards_pass_spec(price_e6, cost_e6, action, *guards),
{
    if guards.has_price_limit() {
        let bound = price_bound(action, guards);
        if action == ACTION_BUY {
            if price_e6 as i128 > bound {
                return false;
            }
        } else {
            if (price_e6 as i128) < bound {
                return false;
            }
        }
    }
    if guards.has_slippage_guard() {
        let bound = slippage_bound(action, guards);
        if action == ACTION_BUY {
            if price_e6 as i128 > bound {
                return false;
            }
        } else {
            if (price_e6 as i128) < bound {
                return false;
            }
        }
    }
    if action == ACTION_BUY && guards.has_cost_limit() {
        if cost_e6 > guards.max_total_cost_e6 {
            return false;
        }
    }
    true
}

/// Whether a trade of `shares_e6` passes every guard that is set.
pub fn shares_pass_guards<F: Fn(PriceQuery) -> i64>(
    shares_e6: i64,
    action: u8,
    side: u8,
    guards: &AdvancedGuardConfig,
    amm: &Amm,
    pricer: &F,
) -> (ok: bool)
    requires
        is_pricer(pricer),
    ensures
        ok == shares_pass_spec(quotes(pricer), *amm, shares_e6, action, side, *guards),
        ok == passing(quotes(pricer), *amm, action, side, *guards)(shares_e6),
{
    let value = trade_value(shares_e6, action, side, amm, pricer);
    let price = price_per_share(value, shares_e6);
    guards_pass(price, value, action, guards)
}

/// The quantity that a bisection of `rounds` steps settles on: the last
/// midpoint that passed, or `best` where none did.
pub open spec fn bisect_spec(
    pass: spec_fn(i64) -> bool,
    left: int,
    right: int,
    best: i64,
    rounds: nat,
) -> i64
    decreases rounds,
{
    if rounds == 0 || left > right {
        best
    } else {
        let mid = trunc_div(left + right, 2);
        if pass(mid as i64) {
            bisect_spec(pass, mid + 1, right, mid as i64, (rounds - 1) as nat)
        } else {
            bisect_spec(pass, left, mid - 1, best, (rounds - 1) as nat)
        }
    }
}

/// A bisection hands back its starting value or a quantity of its range that passes.
pub proof fn lemma_bisect_sound(
    pass: spec_fn(i64) -> bool,
    left: int,
    right: int,
    best: i64,
    rounds: nat,
)
    requires
        i64::MIN <= left,
        right <= i64::MAX,
    ensures
        ({
            let r = bisect_spec(pass, left, right, best, rounds);
            r == best || (pass(r) && left <= r <= right)
        }),
    decreases rounds,
{
    if rounds == 0 || left > right {
    } else {
        let mid = trunc_div(left + right, 2);
        assert(left <= mid <= right);
        if pass(mid as i64) {
            lemma_bisect_sound(pass, mid + 1, right, mid as i64, (rounds - 1) as nat);
        } else {
            lemma_bisect_sound(pass, left, mid - 1, best, (rounds - 1) as nat);
        }
    }
}

/// The largest range that a bisection of `rounds` steps exhausts: one
/// quantity less than two to the power of `rounds`.
pub open spec fn bisect_reach(rounds: nat) -> int
    decreases rounds,
{
    if rounds == 0 {
        0
    } else {
        2 * bisect_reach((rounds - 1) as nat) + 1
    }
}

/// Whether every quantity of `[left, right]` below one that passes passes too.
pub open spec fn passes_downward(pass: spec_fn(i64) -> bool, left: int, right: int) -> bool {
    forall|x: i64, y: i64| left <= y <= x <= right && #[trigger] pass(x) ==> #[trigger] pass(y)
}

/// Where every quantity below one that passes passes too, a bisection that
/// has steps enough for its range finds the largest quantity that passes:
/// it hands back a quantity of the range that passes and above which none
/// does, or its starting value where none of the range passes.
pub proof fn lemma_bisect_finds_largest(
    pass: spec_fn(i64) -> bool,
    left: int,
    right: int,
    best: i64,
    rounds: nat,
)
    requires
        i64::MIN <= left,
        right <= i64::MAX,
        right - left + 1 <= bisect_reach(rounds),
        passes_downward(pass, left, right),
    ensures
        ({
            let r = bisect_spec(pass, left, right, best, rounds);
            ||| r == best && forall|x: i64| left <= x <= right ==> !#[trigger] pass(x)
            ||| left <= r <= right && pass(r) && forall|x: i64|
                r < x <= right ==> !#[trigger] pass(x)
        }),
    decreases rounds,
{
    if rounds == 0 || left > right {
    } else {
        let mid = trunc_div(left + right, 2);
        assert(left <= mid <= right);
        let m = mid as i64;
        if pass(m) {
            assert(forall|y: i64| left <= y <= mid ==> #[trigger] pass(y));
            lemma_bisect_finds_largest(pass, mid + 1, right, m, (rounds - 1) as nat);
        } else {
            assert(forall|x: i64| mid <= x <= right ==> !#[trigger] pass(x));
            lemma_bisect_finds_largest(pass, left, mid - 1, best, (rounds - 1) as nat);
        }
    }
}

/// A bisection of sixteen steps exhausts a range of 65,535 quantities.
pub proof fn lemma_bisect_reach_sixteen()
    ensures
        bisect_reach(BISECTION_ROUNDS as nat) == 65_535,
{
    reveal_with_fuel(bisect_reach, 17);
}

/// Bisects `[left, right]` for a quantity that passes the guards, moving to
/// the upper half after each pass and to the lower half after each failure,
/// for at most sixteen steps. Zero where no midpoint passed.
pub fn binary_search_range<F: Fn(PriceQuery) -> i64>(
    left: i64,
    right: i64,
    action: u8,
    side: u8,
    guards: &AdvancedGuardConfig,
    amm: &Amm,
    pricer: &F,
) -> (best: i64)
    requires
        is_pricer(pricer),
    ensures
        best == bisect_spec(
            passing(quotes(pricer), *amm, action, side, *guards),
            left as int,
            right as int,
            0,
            BISECTION_ROUNDS as nat,
        ),
        best == 0 || (shares_pass_spec(quotes(pricer), *amm, best, action, side, *guards) && left
            <= best <= right),
{
    let ghost pass = passing(quotes(pricer), *amm, action, side, *guards);
    let mut lo: i128 = left as i128;
    let mut hi: i128 = right as i128;
    let mut best: i64 = 0;
    let mut round: u8 = 0;
    while round < BISECTION_ROUNDS && lo <= hi
        invariant
            is_pricer(pricer),
            pass == passing(quotes(pricer), *amm, action, side, *guards),
            round <= BISECTION_ROUNDS,
            left <= lo <= i64::MAX + 1,
            i64::MIN - 1 <= hi <= right,
            best == 0 || (pass(best) && left <= best <= right),
            bisect_spec(pass, left as int, right as int, 0, BISECTION_ROUNDS as nat) == bisect_spec(
                pass,
                lo as int,
                hi as int,
                best,
                (BISECTION_ROUNDS - round) as nat,
            ),
        decreases BISECTION_ROUNDS - round,
    {
        let mid_wide: i128 = div_toward_zero(lo + hi, 2);
        assert(lo <= mid_wide <= hi);
        let mid: i64 = mid_wide as i64;
        if shares_pass_guards(mid, action, side, guards, amm, pricer) {
            best = mid;
            lo = mid_wide + 1;
        } else {
            hi = mid_wide - 1;
        }
        round += 1;
    }
    best
}

/// Whether Newton's method is used: a price limit or a slippage guard is set,
/// and no cost cap binds a buy.
pub open spec fn newton_applies_spec(action: u8, guards: AdvancedGuardConfig) -> bool {
    (guards.has_price_limit() || guards.has_slippage_guard()) && !(action == ACTION_BUY
        && guards.has_cost_limit())
}

/// The price that Newton's method steers to: the absolute limit with its
/// tolerance where one is set, else the bound of the slippage guard.
pub open spec fn newton_target_spec(action: u8, guards: AdvancedGuardConfig) -> int {
    if guards.has_price_limit() {
        guards.price_limit_e6 + price_tolerance_spec(guards.price_limit_e6)
    } else {
        slippage_bound_spec(action, guards)
    }
}

/// A quantity held between the search floor and `max_shares`, the latter winning.
pub open spec fn clamp_shares_spec(next: int, max_shares: i64) -> i64 {
    let raised = if next < SEARCH_FLOOR_E6 {
        SEARCH_FLOOR_E6 as int
    } else {
        next
    };
    if raised > max_shares {
        max_shares
    } else {
        raised as i64
    }
}

/// The quantity that Newton's method settles on, from `shares` with `rounds`
/// steps left.
///
/// A step ends the search where the price is within one unit of the target:
/// with the quantity itself where it passes the guards, else with the
/// quantity stepped back where that passes, else with a bisection between
/// the first pass and the last failure. It gives way to a bisection from the
/// current quantity where the slope cannot be measured, and to one from the
/// first pass where the steps run out.
pub open spec fn newton_spec(
    pass: spec_fn(i64) -> bool,
    price: spec_fn(i64) -> i64,
    first_pass: i64,
    max_shares: i64,
    target: int,
    shares: i64,
    rounds: nat,
) -> i64
    decreases rounds,
{
    let fallback = bisect_spec(pass, first_pass as int, max_shares as int, 0, BISECTION_ROUNDS as nat);
    if rounds == 0 {
        fallback
    } else {
        let here = price(shares);
        let error = here - target;
        if -1 <= error <= 1 {
            if pass(shares) {
                shares
            } else if pass(clamp_i64_spec(shares - NEWTON_STEP_BACK_E6)) {
                clamp_i64_spec(shares - NEWTON_STEP_BACK_E6)
            } else {
                fallback
            }
        } else {
            let delta = trunc_div(shares as int, 100);
            if delta <= 0 {
                bisect_spec(pass, shares as int, max_shares as int, 0, BISECTION_ROUNDS as nat)
            } else {
                let ahead = price(clamp_i64_spec(shares + delta));
                let slope = trunc_div((ahead - here) * 1_000_000, delta);
                if slope == 0 {
                    bisect_spec(pass, shares as int, max_shares as int, 0, BISECTION_ROUNDS as nat)
                } else {
                    let next = shares - trunc_div(error * 1_000_000, slope);
                    newton_spec(
                        pass,
                        price,
                        first_pass,
                        max_shares,
                        target,
                        clamp_shares_spec(next, max_shares),
                        (rounds - 1) as nat,
                    )
                }
            }
        }
    }
}

/// The quantity that the refinement between a first pass and a last failure
/// settles on: by Newton's method where it applies, else by bisection.
pub open spec fn refine_spec(
    pass: spec_fn(i64) -> bool,
    price: spec_fn(i64) -> i64,
    first_pass: i64,
    max_shares: i64,
    action: u8,
    guards: AdvancedGuardConfig,
) -> i64 {
    if newton_applies_spec(action, guards) {
        newton_spec(
            pass,
            price,
            first_pass,
            max_shares,
            newton_target_spec(action, guards),
            first_pass,
            NEWTON_ROUNDS as nat,
        )
    } else {
        bisect_spec(pass, first_pass as int, max_shares as int, 0, BISECTION_ROUNDS as nat)
    }
}

/// Newton's method hands back zero or a quantity that passes and exceeds
/// neither `max_shares` nor `cap`, where `cap` bounds the quantity it starts from.
pub proof fn lemma_newton_sound(
    pass: spec_fn(i64) -> bool,
    price: spec_fn(i64) -> i64,
    first_pass: i64,
    max_shares: i64,
    target: int,
    shares: i64,
    rounds: nat,
    cap: i64,
)
    requires
        shares <= cap,
        max_shares <= cap,
    ensures
        ({
            let r = newton_spec(pass, price, first_pass, max_shares, target, shares, rounds);
            r == 0 || (pass(r) && r <= cap)
        }),
    decreases rounds,
{
    lemma_bisect_sound(pass, first_pass as int, max_shares as int, 0, BISECTION_ROUNDS as nat);
    lemma_bisect_sound(pass, shares as int, max_shares as int, 0, BISECTION_ROUNDS as nat);
    if rounds > 0 {
        let here = price(shares);
        let error = here - target;
        if !(-1 <= error <= 1) {
            let delta = trunc_div(shares as int, 100);
            if delta > 0 {
                let ahead = price(clamp_i64_spec(shares + delta));
                let slope = trunc_div((ahead - here) * 1_000_000, delta);
                if slope != 0 {
                    let next = shares - trunc_div(error * 1_000_000, slope);
                    lemma_newton_sound(
                        pass,
                        price,
                        first_pass,
                        max_shares,
                        target,
                        clamp_shares_spec(next, max_shares),
                        (rounds - 1) as nat,
                        cap,
                    );
                }
            }
        }
    }
}

/// Whether Newton's method is used for these guards.
pub fn newton_applies(action: u8, guards: &AdvancedGuardConfig) -> (applies: bool)
    ensures
        applies == newton_applies_spec(action, *guards),
{
    (guards.has_price_limit() || guards.has_slippage_guard()) && !(action == ACTION_BUY
        && guards.has_cost_limit())
}

/// The price that Newton's method steers to.
pub fn newton_target(action: u8, guards: &AdvancedGuardConfig) -> (target: i128)
    ensures
        target == newton_target_spec(action, *guards),
        -0x8_0000_0000_0000_0000 < target < 0x8_0000_0000_0000_0000,
{
    if guards.has_price_limit() {
        price_bound(ACTION_BUY, guards)
    } else {
        slippage_bound(action, guards)
    }
}

/// Refines between a quantity that passes the guards and one that fails:
/// by Newton's method on the distance of the average price from its limit,
/// with a forward difference of one hundredth of the quantity as slope, for
/// at most eight steps; by bisection where a cost cap binds a buy or no
/// price is limited, and wherever Newton's method gives way.
pub fn newton_raphson_search<F: Fn(PriceQuery) -> i64>(
    initial_guess: i64,
    max_shares: i64,
    action: u8,
    side: u8,
    guards: &AdvancedGuardConfig,
    amm: &Amm,
    pricer: &F,
) -> (found: i64)
    requires
        is_pricer(pricer),
    ensures
        found == refine_spec(
            passing(quotes(pricer), *amm, action, side, *guards),
            pricing_of(quotes(pricer), *amm, action, side),
            initial_guess,
            max_shares,
            action,
            *guards,
        ),
        found == 0 || shares_pass_spec(quotes(pricer), *amm, found, action, side, *guards),
        found <= 0 || found <= max_shares || found <= initial_guess,
{
    let ghost pass = passing(quotes(pricer), *amm, action, side, *guards);
    let ghost price = pricing_of(quotes(pricer), *amm, action, side);
    if !newton_applies(action, guards) {
        return binary_search_range(initial_guess, max_shares, action, side, guards, amm, pricer);
    }
    let target = newton_target(action, guards);
    let ghost cap: i64 = if initial_guess > max_shares {
        initial_guess
    } else {
        max_shares
    };
    proof {
        lemma_newton_sound(
            pass,
            price,
            initial_guess,
            max_shares,
            target as int,
            initial_guess,
            NEWTON_ROUNDS as nat,
            cap,
        );
    }
    let mut shares: i64 = initial_guess;
    let mut round: u8 = 0;
    while round < NEWTON_ROUNDS
        invariant
            is_pricer(pricer),
            pass == passing(quotes(pricer), *amm, action, side, *guards),
            price == pricing_of(quotes(pricer), *amm, action, side),
            round <= NEWTON_ROUNDS,
            -0x8_0000_0000_0000_0000 < target < 0x8_0000_0000_0000_0000,
            newton_applies_spec(action, *guards),
            target == newton_target_spec(action, *guards),
            cap == initial_guess || cap == max_shares,
            ({
                let settled = newton_spec(
                    pass,
                    price,
                    initial_guess,
                    max_shares,
                    target as int,
                    initial_guess,
                    NEWTON_ROUNDS as nat,
                );
                settled == 0 || (pass(settled) && settled <= cap)
            }),
            newton_spec(
                pass,
                price,
                initial_guess,
                max_shares,
                target as int,
                initial_guess,
                NEWTON_ROUNDS as nat,
            ) == newton_spec(
                pass,
                price,
                initial_guess,
                max_shares,
                target as int,
                shares,
                (NEWTON_ROUNDS - round) as nat,
            ),
        decreases NEWTON_ROUNDS - round,
    {
        let here = calculate_avg_price(shares, action, side, amm, pricer);
        let error: i128 = here as i128 - target;
        if -1 <= error && error <= 1 {
            if shares_pass_guards(shares, action, side, guards, amm, pricer) {
                return shares;
            }
            let back = clamp_i64(shares as i128 - NEWTON_STEP_BACK_E6 as i128);
            if shares_pass_guards(back, action, side, guards, amm, pricer) {
                return back;
            }
            return binary_search_range(
                initial_guess,
                max_shares,
                action,
                side,
                guards,
                amm,
                pricer,
            );
        }
        let delta: i128 = div_toward_zero(shares as i128, 100);
        if delta <= 0 {
            return binary_search_range(shares, max_shares, action, side, guards, amm, pricer);
        }
        let ahead = calculate_avg_price(
            clamp_i64(shares as i128 + delta),
            action,
            side,
            amm,
            pricer,
        );
        let rise: i128 = (ahead as i128 - here as i128) * 1_000_000;
        let slope: i128 = div_toward_zero(rise, delta);
        if slope == 0 {
            return binary_search_range(shares, max_shares, action, side, guards, amm, pricer);
        }
        let scaled_error: i128 = error * 1_000_000;
        proof {
            lemma_trunc_div_bound(
                scaled_error as int,
                slope as int,
                0x80_0000_0000_0000_0000int * 1_000_000,
            );
            lemma_trunc_div_bound(
                rise as int,
                delta as int,
                0x1_0000_0000_0000_0000int * 1_000_000,
            );
        }
        let step: i128 = div_toward_zero(scaled_error, slope);
        let next: i128 = shares as i128 - step;
        let raised: i128 = if next < SEARCH_FLOOR_E6 as i128 {
            SEARCH_FLOOR_E6 as i128
        } else {
            next
        };
        shares =
        if raised > max_shares as i128 {
            max_shares
        } else {
            raised as i64
        };
        round += 1;
    }
    binary_search_range(initial_guess, max_shares, action, side, guards, amm, pricer)
}

/// The smallest quantity that the search tries: the minimum fill, and at
/// least the smallest trade.
pub open spec fn search_floor_spec(guards: AdvancedGuardConfig) -> i64 {
    if guards.min_fill_shares_e6 > SEARCH_FLOOR_E6 {
        guards.min_fill_shares_e6
    } else {
        SEARCH_FLOOR_E6
    }
}

/// The quantity that the search settles on, with `test` the next quantity to
/// try, `last_failed` the last one that failed and `rounds` halvings left.
///
/// A quantity that passes ends the halving: the full quantity is taken as it
/// is, a smaller one is refined toward the last failure. Where the halving
/// reaches the floor or runs out, the range from the floor to the last
/// failure is bisected.
pub open spec fn backoff_spec(
    pass: spec_fn(i64) -> bool,
    price: spec_fn(i64) -> i64,
    max_shares: i64,
    action: u8,
    guards: AdvancedGuardConfig,
    test: i64,
    last_failed: i64,
    rounds: nat,
) -> i64
    decreases rounds,
{
    if rounds == 0 || test < search_floor_spec(guards) {
        bisect_spec(
            pass,
            search_floor_spec(guards) as int,
            last_failed as int,
            0,
            BISECTION_ROUNDS as nat,
        )
    } else if pass(test) {
        if test == max_shares {
            max_shares
        } else {
            refine_spec(pass, price, test, last_failed, action, guards)
        }
    } else {
        backoff_spec(
            pass,
            price,
            max_shares,
            action,
            guards,
            (test / 2) as i64,
            test,
            (rounds - 1) as nat,
        )
    }
}

/// The largest quantity, as far as the search finds it, that passes the
/// guards and does not exceed `max_shares`; zero where it finds none.
pub open spec fn find_max_spec(
    pass: spec_fn(i64) -> bool,
    price: spec_fn(i64) -> i64,
    max_shares: i64,
    action: u8,
    guards: AdvancedGuardConfig,
) -> i64 {
    backoff_spec(
        pass,
        price,
        max_shares,
        action,
        guards,
        max_shares,
        max_shares,
        BACKOFF_ROUNDS as nat,
    )
}

/// The halving hands back zero or a quantity that passes and does not
/// exceed the quantity asked for.
pub proof fn lemma_backoff_sound(
    pass: spec_fn(i64) -> bool,
    price: spec_fn(i64) -> i64,
    max_shares: i64,
    action: u8,
    guards: AdvancedGuardConfig,
    test: i64,
    last_failed: i64,
    rounds: nat,
)
    requires
        test <= last_failed <= max_shares,
    ensures
        ({
            let r = backoff_spec(
                pass,
                price,
                max_shares,
                action,
                guards,
                test,
                last_failed,
                rounds,
            );
            r == 0 || (pass(r) && r <= max_shares)
        }),
    decreases rounds,
{
    let floor = search_floor_spec(guards);
    lemma_bisect_sound(pass, floor as int, last_failed as int, 0, BISECTION_ROUNDS as nat);
    if rounds == 0 || test < floor {
    } else if pass(test) {
        lemma_bisect_sound(pass, test as int, last_failed as int, 0, BISECTION_ROUNDS as nat);
        lemma_newton_sound(
            pass,
            price,
            test,
            last_failed,
            newton_target_spec(action, guards),
            test,
            NEWTON_ROUNDS as nat,
            last_failed,
        );
    } else {
        lemma_backoff_sound(
            pass,
            price,
            max_shares,
            action,
            guards,
            (test / 2) as i64,
            test,
            (rounds - 1) as nat,
        );
    }
}

/// The search never settles on a quantity that fails the guards, nor on one
/// above the quantity asked for: it hands back zero, or a quantity that
/// passes every guard and is at most `max_shares`.
pub proof fn lemma_find_max_sound(
    p: spec_fn(PriceQuery) -> i64,
    amm: Amm,
    max_shares: i64,
    action: u8,
    side: u8,
    guards: AdvancedGuardConfig,
)
    ensures
        ({
            let r = find_max_spec(
                passing(p, amm, action, side, guards),
                pricing_of(p, amm, action, side),
                max_shares,
                action,
                guards,
            );
            r == 0 || (shares_pass_spec(p, amm, r, action, side, guards) && r <= max_shares)
        }),
{
    lemma_backoff_sound(
        passing(p, amm, action, side, guards),
        pricing_of(p, amm, action, side),
        max_shares,
        action,
        guards,
        max_shares,
        max_shares,
        BACKOFF_ROUNDS as nat,
    );
}

/// Searches for the largest quantity of at most `max_shares_e6` that passes
/// the guards: the quantity is halved up to eight times until one passes;
/// the full quantity is taken as it is, a smaller one is refined toward the
/// last failure; where none passes, the range from the search floor to the
/// last failure is bisected. Zero where nothing was found.
pub fn find_max_executable_shares<F: Fn(PriceQuery) -> i64>(
    action: u8,
    side: u8,
    max_shares_e6: i64,
    guards: &AdvancedGuardConfig,
    amm: &Amm,
    pricer: &F,
) -> (found: i64)
    requires
        is_pricer(pricer),
    ensures
        found == find_max_spec(
            passing(quotes(pricer), *amm, action, side, *guards),
            pricing_of(quotes(pricer), *amm, action, side),
            max_shares_e6,
            action,
            *guards,
        ),
        found == 0 || (shares_pass_spec(quotes(pricer), *amm, found, action, side, *guards)
            && found <= max_shares_e6),
{
    let ghost pass = passing(quotes(pricer), *amm, action, side, *guards);
    let ghost price = pricing_of(quotes(pricer), *amm, action, side);
    proof {
        lemma_find_max_sound(quotes(pricer), *amm, max_shares_e6, action, side, *guards);
    }
    let floor: i64 = if guards.min_fill_shares_e6 > SEARCH_FLOOR_E6 {
        guards.min_fill_shares_e6
    } else {
        SEARCH_FLOOR_E6
    };
    let mut test: i64 = max_shares_e6;
    let mut last_failed: i64 = max_shares_e6;
    let mut round: u8 = 0;
    while test >= floor && round < BACKOFF_ROUNDS
        invariant
            is_pricer(pricer),
            pass == passing(quotes(pricer), *amm, action, side, *guards),
            price == pricing_of(quotes(pricer), *amm, action, side),
            floor == search_floor_spec(*guards),
            round <= BACKOFF_ROUNDS,
            ({
                let settled = find_max_spec(pass, price, max_shares_e6, action, *guards);
                settled == 0 || (pass(settled) && settled <= max_shares_e6)
            }),
            find_max_spec(pass, price, max_shares_e6, action, *guards) == backoff_spec(
                pass,
                price,
                max_shares_e6,
                action,
                *guards,
                test,
                last_failed,
                (BACKOFF_ROUNDS - round) as nat,
            ),
        decreases BACKOFF_ROUNDS - round,
    {
        if shares_pass_guards(test, action, side, guards, amm, pricer) {
            if test == max_shares_e6 {
                return max_shares_e6;
            }
            return newton_raphson_search(test, last_failed, action, side, guards, amm, pricer);
        }
        last_failed = test;
        test = test / 2;
        round += 1;
    }
    binary_search_range(floor, last_failed, action, side, guards, amm, pricer)
}

/// The refusal that names the first guard that is set: the price limit, the
/// slippage guard, the cost cap; or the configuration itself where none is.
pub open spec fn guard_error_spec(guards: AdvancedGuardConfig) -> ReaderError {
    if guards.has_price_limit() {
        ReaderError::PriceLimitExceeded
    } else if guards.has_slippage_guard() {
        ReaderError::SlippageExceeded
    } else if guards.has_cost_limit() {
        ReaderError::CostExceedsLimit
    } else {
        ReaderError::InvalidGuardConfig
    }
}

/// Whether the reference quote of a slippage guard is too old at `now`.
pub open spec fn quote_is_stale_spec(guards: AdvancedGuardConfig, now: i64) -> bool {
    guards.has_slippage_guard() && now - guards.quote_timestamp > QUOTE_MAX_AGE_SECS
}

/// What becomes of a trade once the search has settled on `found`: refused
/// where nothing was found or less than the minimum fill, else sized at `found`.
pub open spec fn partial_fill_spec(found: i64, guards: AdvancedGuardConfig) -> Result<
    i64,
    ReaderError,
> {
    if found == 0 {
        Err(guard_error_spec(guards))
    } else if guards.min_fill_shares_e6 > 0 && found < guards.min_fill_shares_e6 {
        Err(ReaderError::MinFillNotMet)
    } else {
        Ok(found)
    }
}

/// The quantity to execute of a trade of `amount_e6`, or the refusal.
pub open spec fn validate_guards_spec(
    pass: spec_fn(i64) -> bool,
    price: spec_fn(i64) -> i64,
    action: u8,
    amount_e6: i64,
    guards: AdvancedGuardConfig,
    now: i64,
) -> Result<i64, ReaderError> {
    if quote_is_stale_spec(guards, now) {
        Err(ReaderError::StaleQuote)
    } else if pass(amount_e6) {
        Ok(amount_e6)
    } else if !guards.allow_partial {
        Err(guard_error_spec(guards))
    } else {
        partial_fill_spec(find_max_spec(pass, price, amount_e6, action, guards), guards)
    }
}

/// The refusal that names the first guard that is set.
pub fn guard_error(guards: &AdvancedGuardConfig) -> (e: ReaderError)
    ensures
        e == guard_error_spec(*guards),
{
    if guards.has_price_limit() {
        ReaderError::PriceLimitExceeded
    } else if guards.has_slippage_guard() {
        ReaderError::SlippageExceeded
    } else if guards.has_cost_limit() {
        ReaderError::CostExceedsLimit
    } else {
        ReaderError::InvalidGuardConfig
    }
}

/// Decides what becomes of a trade once the search has settled on `found`.
pub fn accept_partial_fill(found: i64, guards: &AdvancedGuardConfig) -> (r: Result<
    i64,
    ReaderError,
>)
    ensures
        r == partial_fill_spec(found, *guards),
{
    if found == 0 {
        Err(guard_error(guards))
    } else if guards.min_fill_shares_e6 > 0 && found < guards.min_fill_shares_e6 {
        Err(ReaderError::MinFillNotMet)
    } else {
        Ok(found)
    }
}

/// Holds a trade of `amount_e6` against the guards and sizes it.
///
/// A slippage guard whose quote is older than thirty seconds at `now`
/// refuses the trade. A quantity that passes every guard is executed in
/// full. Otherwise the trade is refused, unless a smaller quantity may be
/// executed: then the search sizes it, and the trade is refused where the
/// search finds nothing or less than the minimum fill.
pub fn validate_advanced_guards<F: Fn(PriceQuery) -> i64>(
    action: u8,
    side: u8,
    amount_e6: i64,
    guards: &AdvancedGuardConfig,
    amm: &Amm,
    now: i64,
    pricer: &F,
) -> (r: Result<i64, ReaderError>)
    requires
        is_pricer(pricer),
    ensures
        r == validate_guards_spec(
            passing(quotes(pricer), *amm, action, side, *guards),
            pricing_of(quotes(pricer), *amm, action, side),
            action,
            amount_e6,
            *guards,
            now,
        ),
        r.is_ok() ==> shares_pass_spec(quotes(pricer), *amm, r.unwrap(), action, side, *guards)
            && r.unwrap() <= amount_e6,
{
    if guards.has_slippage_guard() && (now as i128) - (guards.quote_timestamp as i128)
        > QUOTE_MAX_AGE_SECS as i128 {
        return Err(ReaderError::StaleQuote);
    }
    if shares_pass_guards(amount_e6, action, side, guards, amm, pricer) {
        return Ok(amount_e6);
    }
    if !guards.allow_partial {
        return Err(guard_error(guards));
    }
    let found = find_max_executable_shares(action, side, amount_e6, guards, amm, pricer);
    accept_partial_fill(found, guards)
}

} // verus!
