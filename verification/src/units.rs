//! Fixed-point scales, trade limits and the integer arithmetic shared by the ledgers.
//!
//! Shares, prices and ledger amounts are integers at a scale of one million
//! (1_000_000 stands for 1.0). Real funds are counted in lamports.

use vstd::prelude::*;

verus! {

/// Lamports moved per unit of the fixed-point scale.
pub const LAMPORTS_PER_E6: u64 = 100;

/// Lamports that always stay in the pooled vault.
pub const MIN_VAULT_LAMPORTS: u64 = 1_000_000_000;

/// Smallest share quantity of one trade.
pub const MIN_SELL_E6: i64 = 100_000;

/// Largest share quantity of one trade.
pub const DQ_MAX_E6: i64 = 50_000_000_000;

/// Seconds before the market's end during which no trade is taken.
pub const TRADING_LOCKOUT_SECONDS: i64 = 45;

/// An integer held to the range of `i64`.
pub open spec fn clamp_i64_spec(x: int) -> i64 {
    if x > i64::MAX {
        i64::MAX
    } else if x < i64::MIN {
        i64::MIN
    } else {
        x as i64
    }
}

/// Quotient rounded toward zero, as the machine divides signed integers.
pub open spec fn trunc_div(a: int, b: int) -> int {
    if b > 0 {
        if a >= 0 {
            a / b
        } else {
            -((-a) / b)
        }
    } else {
        if a <= 0 {
            (-a) / (-b)
        } else {
            -(a / (-b))
        }
    }
}

/// Lamports that stand for a fixed-point amount: zero for a non-positive amount,
/// otherwise the amount times `LAMPORTS_PER_E6`, held at `u64::MAX`.
pub open spec fn e6_to_lamports_spec(x_e6: i64) -> int {
    if x_e6 <= 0 {
        0
    } else if x_e6 * LAMPORTS_PER_E6 > u64::MAX {
        u64::MAX as int
    } else {
        x_e6 * LAMPORTS_PER_E6
    }
}

/// The share of `gross_e6` taken as fee at `fee_bps` basis points, rounded down
/// and held to the range of `i64`.
pub open spec fn fee_of_spec(gross_e6: i64, fee_bps: u16) -> int {
    if gross_e6 <= 0 {
        0
    } else {
        clamp_i64_spec((gross_e6 * fee_bps) / 10_000) as int
    }
}

/// Value per share at the fixed-point scale: `value * 1e6 / shares` rounded down
/// and held at `i64::MAX`; zero where there are no shares or no value.
pub open spec fn price_per_share_spec(value_e6: i64, shares_e6: i64) -> int {
    if shares_e6 <= 0 || value_e6 <= 0 {
        0
    } else if (value_e6 * 1_000_000) / (shares_e6 as int) > i64::MAX {
        i64::MAX as int
    } else {
        (value_e6 * 1_000_000) / (shares_e6 as int)
    }
}

/// Holds a wide integer to the range of `i64`.
pub fn clamp_i64(x: i128) -> (r: i64)
    ensures
        r == clamp_i64_spec(x as int),
{
    if x > i64::MAX as i128 {
        i64::MAX
    } else if x < i64::MIN as i128 {
        i64::MIN
    } else {
        x as i64
    }
}

/// Adds two amounts, holding the sum to the range of `i64`.
pub fn sat_add(a: i64, b: i64) -> (r: i64)
    ensures
        r == clamp_i64_spec(a + b),
{
    clamp_i64(a as i128 + b as i128)
}

/// Subtracts `b` from `a`, holding the difference to the range of `i64`.
pub fn sat_sub(a: i64, b: i64) -> (r: i64)
    ensures
        r == clamp_i64_spec(a - b),
{
    clamp_i64(a as i128 - b as i128)
}

/// Divides two wide integers, rounding toward zero.
pub fn div_toward_zero(a: i128, b: i128) -> (r: i128)
    requires
        b != 0,
        a > i128::MIN,
        b > i128::MIN,
    ensures
        r == trunc_div(a as int, b as int),
{
    if b > 0 {
        a / b
    } else {
        (-a) / (-b)
    }
}

/// Converts a fixed-point amount to lamports.
pub fn e6_to_lamports(x_e6: i64) -> (lamports: u64)
    ensures
        lamports == e6_to_lamports_spec(x_e6),
{
    if x_e6 <= 0 {
        0
    } else {
        let amount: u128 = x_e6 as u128;
        let wide: u128 = amount * 100;
        if wide > u64::MAX as u128 {
            u64::MAX
        } else {
            wide as u64
        }
    }
}

/// Converts lamports to the fixed-point scale, rounding down.
pub fn lamports_to_e6(lamports: u64) -> (x_e6: i64)
    ensures
        x_e6 == lamports / LAMPORTS_PER_E6,
{
    (lamports / LAMPORTS_PER_E6) as i64
}

/// Splits the fee off a gross amount. Fee and remainder add up to the gross
/// amount exactly whenever the rate is at most a whole.
pub fn fee_of(gross_e6: i64, fee_bps: u16) -> (fee_e6: i64)
    ensures
        fee_e6 == fee_of_spec(gross_e6, fee_bps),
        0 <= fee_e6,
        gross_e6 >= 0 && fee_bps <= 10_000 ==> fee_e6 <= gross_e6,
{
    if gross_e6 <= 0 {
        0
    } else {
        let g: i128 = gross_e6 as i128;
        let f: i128 = fee_bps as i128;
        assert(0 <= g * f <= g * 65_535) by (nonlinear_arith)
            requires
                0 <= g,
                0 <= f <= 65_535,
        ;
        let product: i128 = g * f;
        assert(fee_bps <= 10_000 ==> product <= g * 10_000) by (nonlinear_arith)
            requires
                product == g * f,
                0 <= g,
                0 <= f,
                f == fee_bps,
        ;
        let fee: i128 = product / 10_000;
        assert(fee == (gross_e6 * fee_bps) / 10_000);
        clamp_i64(fee)
    }
}

/// Value per share at the fixed-point scale.
pub fn price_per_share(value_e6: i64, shares_e6: i64) -> (price_e6: i64)
    ensures
        price_e6 == price_per_share_spec(value_e6, shares_e6),
        0 <= price_e6,
{
    if shares_e6 <= 0 || value_e6 <= 0 {
        0
    } else {
        let scaled: i128 = (value_e6 as i128) * 1_000_000;
        let quotient: i128 = scaled / (shares_e6 as i128);
        assert(quotient >= 0) by (nonlinear_arith)
            requires
                scaled >= 0,
                shares_e6 > 0,
                quotient == scaled / (shares_e6 as i128),
        ;
        clamp_i64(quotient)
    }
}

/// No value is made or lost by the fee: at a rate of at most a whole, the
/// fee on an amount that is not negative lies between zero and the amount,
/// and fee and remainder add up to the amount exactly.
pub proof fn lemma_fee_conservation(gross_e6: i64, fee_bps: u16)
    requires
        gross_e6 >= 0,
        fee_bps <= 10_000,
    ensures
        0 <= fee_of_spec(gross_e6, fee_bps) <= gross_e6,
        fee_of_spec(gross_e6, fee_bps) + (gross_e6 - fee_of_spec(gross_e6, fee_bps)) == gross_e6,
        fee_of_spec(gross_e6, fee_bps) == (gross_e6 * fee_bps) / 10_000,
{
    let g = gross_e6 as int;
    let f = fee_bps as int;
    assert(0 <= g * f <= g * 10_000) by (nonlinear_arith)
        requires
            0 <= g,
            0 <= f <= 10_000,
    ;
}

/// A quotient rounded toward zero is no larger in size than what was divided.
pub proof fn lemma_trunc_div_bound(a: int, b: int, m: int)
    requires
        b != 0,
        -m <= a <= m,
    ensures
        -m <= trunc_div(a, b) <= m,
{
    if b > 0 {
        if a >= 0 {
            assert(0 <= a / b <= a) by (nonlinear_arith)
                requires
                    a >= 0,
                    b > 0,
            ;
        } else {
            assert(0 <= (-a) / b <= -a) by (nonlinear_arith)
                requires
                    a < 0,
                    b > 0,
            ;
        }
    } else {
        if a <= 0 {
            assert(0 <= (-a) / (-b) <= -a) by (nonlinear_arith)
                requires
                    a <= 0,
                    b < 0,
            ;
        } else {
            assert(0 <= a / (-b) <= a) by (nonlinear_arith)
                requires
                    a > 0,
                    b < 0,
            ;
        }
    }
}

} // verus!
