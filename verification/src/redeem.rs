//! Redemption: paying a winning position out of the pooled vault once the
//! market is settled.
//!
//! A payout is bound three times: by the winning total frozen at settlement,
//! by the vault mirror, and by what the pooled vault really holds above its
//! minimum reserve. A position is wiped by its redemption whatever it was
//! paid, so that a second redemption pays nothing.

use vstd::prelude::*;
use crate::address::Address;
use crate::error::ReaderError;
use crate::market::Amm;
use crate::market::MarketStatus;
use crate::market::SIDE_YES;
use crate::market::WINNER_UNKNOWN;
use crate::position::Position;
use crate::position::PositionView;
use crate::units::clamp_i64_spec;
use crate::units::e6_to_lamports;
use crate::units::e6_to_lamports_spec;
use crate::units::lamports_to_e6;
use crate::units::sat_add;
use crate::units::sat_sub;
use crate::units::MIN_VAULT_LAMPORTS;

verus! {

/// Whether a position is wiped even where its payout comes to nothing, so
/// that no claim is carried into the next cycle.
pub const WIPE_ON_PAY_ZERO: bool = true;

/// What a redemption paid.
#[derive(Clone, Copy, Debug, PartialEq, Eq, Structural)]
pub struct RedeemReceipt {
    /// Lamports from the pooled vault to the user's custody account.
    pub pay_lamports: u64,
    /// The same at the fixed-point scale, as the ledgers booked it.
    pub pay_e6: i64,
}

/// A ledger, a position and a receipt: what a redemption leaves behind.
pub struct RedeemOutcome {
    pub amm: Amm,
    pub pos: PositionView,
    pub receipt: RedeemReceipt,
}

/// The shares that the position holds of the winning side.
pub open spec fn winning_shares_spec(amm: Amm, pos: PositionView) -> i64 {
    if amm.winner == SIDE_YES {
        pos.yes_shares_e6
    } else {
        pos.no_shares_e6
    }
}

/// The payout that the settlement owes: the winning shares, at most the
/// winning total of the settlement, at the payout per share, rounded down.
pub open spec fn theoretical_payout_spec(amm: Amm, pos: PositionView) -> int {
    let held = winning_shares_spec(amm, pos);
    let clipped = if held < amm.w_total_e6 {
        held
    } else {
        amm.w_total_e6
    };
    if held <= 0 {
        0
    } else {
        (clipped * amm.pps_e6) / 1_000_000
    }
}

/// The payout that the vault mirror covers.
pub open spec fn mirror_bound_spec(amm: Amm, pos: PositionView) -> i64 {
    let owed = theoretical_payout_spec(amm, pos);
    let mirror = if amm.vault_e6 < 0 {
        0
    } else {
        amm.vault_e6
    };
    if owed < mirror {
        owed as i64
    } else {
        mirror
    }
}

/// The lamports that the pooled vault can give without touching its reserve.
pub open spec fn available_lamports_spec(vault_lamports: u64) -> int {
    if vault_lamports < MIN_VAULT_LAMPORTS {
        0
    } else {
        vault_lamports - MIN_VAULT_LAMPORTS
    }
}

/// The lamports that a redemption pays: what the mirror covers, at most what
/// the pooled vault holds above its reserve.
pub open spec fn pay_lamports_spec(amm: Amm, pos: PositionView, vault_lamports: u64) -> int {
    let covered = e6_to_lamports_spec(mirror_bound_spec(amm, pos));
    let available = available_lamports_spec(vault_lamports);
    if covered < available {
        covered
    } else {
        available
    }
}

/// What paying out a settled market's position yields.
///
/// A position without winning shares is wiped and paid nothing. One whose
/// payout comes to nothing is wiped too, as `WIPE_ON_PAY_ZERO` has it. Any
/// other is wiped and paid: what is paid leaves the vault mirror and joins
/// the custody balance.
pub open spec fn payout_spec(amm: Amm, pos: PositionView, vault_lamports: u64) -> RedeemOutcome {
    let pay = pay_lamports_spec(amm, pos, vault_lamports);
    let pay_e6 = (pay / 100) as i64;
    if winning_shares_spec(amm, pos) <= 0 {
        RedeemOutcome {
            amm,
            pos: pos.wiped(),
            receipt: RedeemReceipt { pay_lamports: 0, pay_e6: 0 },
        }
    } else if pay == 0 {
        RedeemOutcome {
            amm,
            pos: if WIPE_ON_PAY_ZERO {
                pos.wiped()
            } else {
                pos
            },
            receipt: RedeemReceipt { pay_lamports: 0, pay_e6: 0 },
        }
    } else {
        RedeemOutcome {
            amm: Amm { vault_e6: clamp_i64_spec(amm.vault_e6 - pay_e6), ..amm },
            pos: pos.wiped().with_balance(clamp_i64_spec(pos.vault_balance_e6 + pay_e6)),
            receipt: RedeemReceipt { pay_lamports: pay as u64, pay_e6 },
        }
    }
}

/// Whether the market is settled: stopped, with a winner.
pub open spec fn is_settled_spec(amm: Amm) -> bool {
    amm.status_spec() == MarketStatus::Stopped && amm.winner != WINNER_UNKNOWN
}

/// What a redemption by the owner yields.
pub open spec fn redeem_spec(amm: Amm, pos: PositionView, user: Address, vault_lamports: u64)
    -> Result<RedeemOutcome, ReaderError> {
    if user.bytes@ != pos.owner {
        Err(ReaderError::NotOwner)
    } else if !is_settled_spec(amm) {
        Err(ReaderError::WrongState)
    } else {
        Ok(payout_spec(amm, pos, vault_lamports))
    }
}

/// What a redemption forced by the administrator yields.
pub open spec fn admin_redeem_spec(
    amm: Amm,
    pos: PositionView,
    admin: Address,
    vault_lamports: u64,
) -> Result<RedeemOutcome, ReaderError> {
    if !amm.is_admin_spec(admin) {
        Err(ReaderError::NotOwner)
    } else if !is_settled_spec(amm) {
        Err(ReaderError::WrongState)
    } else {
        Ok(payout_spec(amm, pos, vault_lamports))
    }
}

/// Whether a call left behind what was expected of it.
pub open spec fn redeemed_as(
    expected: Result<RedeemOutcome, ReaderError>,
    result: Result<RedeemReceipt, ReaderError>,
    amm_before: Amm,
    pos_before: PositionView,
    amm_after: Amm,
    pos_after: PositionView,
) -> bool {
    match expected {
        Ok(outcome) => result == Ok::<RedeemReceipt, ReaderError>(outcome.receipt) && amm_after
            == outcome.amm && pos_after == outcome.pos,
        Err(e) => result == Err::<RedeemReceipt, ReaderError>(e) && amm_after == amm_before
            && pos_after == pos_before,
    }
}

/// Pays out the position of a settled market and wipes it.
///
/// `vault_lamports` is what the pooled vault really holds. What is paid
/// never takes the pooled vault below its minimum reserve.
pub fn pay_out(amm: &mut Amm, pos: &mut Position, vault_lamports: u64) -> (receipt: RedeemReceipt)
    requires
        old(amm).wf(),
    ensures
        receipt == payout_spec(*old(amm), old(pos)@, vault_lamports).receipt,
        *final(amm) == payout_spec(*old(amm), old(pos)@, vault_lamports).amm,
        final(pos)@ == payout_spec(*old(amm), old(pos)@, vault_lamports).pos,
        final(amm).wf(),
        old(pos).wf() ==> final(pos).wf(),
        final(pos).yes_shares_e6 == 0 && final(pos).no_shares_e6 == 0,
        receipt.pay_lamports == 0 || vault_lamports - receipt.pay_lamports >= MIN_VAULT_LAMPORTS,
        receipt.pay_lamports <= vault_lamports,
{
    let held = if amm.winner == SIDE_YES {
        pos.yes_shares_e6
    } else {
        pos.no_shares_e6
    };
    if held <= 0 {
        pos.yes_shares_e6 = 0;
        pos.no_shares_e6 = 0;
        return RedeemReceipt { pay_lamports: 0, pay_e6: 0 };
    }
    let clipped: i64 = if held < amm.w_total_e6 {
        held
    } else {
        amm.w_total_e6
    };
    let c: i128 = clipped as i128;
    let pps: i128 = amm.pps_e6 as i128;
    assert(0 <= c * pps <= c * 1_000_000) by (nonlinear_arith)
        requires
            0 <= c,
            0 <= pps <= 1_000_000,
    ;
    let owed: i128 = (c * pps) / 1_000_000;
    let mirror: i64 = if amm.vault_e6 < 0 {
        0
    } else {
        amm.vault_e6
    };
    let bound: i64 = if owed < mirror as i128 {
        owed as i64
    } else {
        mirror
    };
    let available: u64 = if vault_lamports < MIN_VAULT_LAMPORTS {
        0
    } else {
        vault_lamports - MIN_VAULT_LAMPORTS
    };
    let covered = e6_to_lamports(bound);
    let pay: u64 = if covered < available {
        covered
    } else {
        available
    };
    if pay == 0 {
        if WIPE_ON_PAY_ZERO {
            pos.yes_shares_e6 = 0;
            pos.no_shares_e6 = 0;
        }
        return RedeemReceipt { pay_lamports: 0, pay_e6: 0 };
    }
    let pay_e6 = lamports_to_e6(pay);
    amm.vault_e6 = sat_sub(amm.vault_e6, pay_e6);
    pos.yes_shares_e6 = 0;
    pos.no_shares_e6 = 0;
    pos.vault_balance_e6 = sat_add(pos.vault_balance_e6, pay_e6);
    RedeemReceipt { pay_lamports: pay, pay_e6 }
}

/// Redeems the position of `user` once the market is settled.
///
/// It is refused unless `user` owns the position and the market is stopped
/// with a winner. A position without a payout is wiped all the same, and the
/// call succeeds.
pub fn redeem(amm: &mut Amm, pos: &mut Position, user: &Address, vault_lamports: u64) -> (r: Result<
    RedeemReceipt,
    ReaderError,
>)
    requires
        old(amm).wf(),
    ensures
        redeemed_as(
            redeem_spec(*old(amm), old(pos)@, *user, vault_lamports),
            r,
            *old(amm),
            old(pos)@,
            *final(amm),
            final(pos)@,
        ),
        final(amm).wf(),
        old(pos).wf() ==> final(pos).wf(),
        r.is_ok() ==> r.unwrap().pay_lamports == 0 || vault_lamports - r.unwrap().pay_lamports
            >= MIN_VAULT_LAMPORTS,
{
    if !user.same(&pos.owner) {
        return Err(ReaderError::NotOwner);
    }
    if amm.status < 2 || amm.winner == WINNER_UNKNOWN {
        return Err(ReaderError::WrongState);
    }
    Ok(pay_out(amm, pos, vault_lamports))
}

/// Redeems a position on its owner's behalf. Only the administrator may;
/// the payout goes to the owner's custody account as in a redemption by
/// the owner.
pub fn admin_redeem(amm: &mut Amm, pos: &mut Position, admin: &Address, vault_lamports: u64) -> (r:
    Result<RedeemReceipt, ReaderError>)
    requires
        old(amm).wf(),
    ensures
        redeemed_as(
            admin_redeem_spec(*old(amm), old(pos)@, *admin, vault_lamports),
            r,
            *old(amm),
            old(pos)@,
            *final(amm),
            final(pos)@,
        ),
        final(amm).wf(),
        old(pos).wf() ==> final(pos).wf(),
        r.is_ok() ==> r.unwrap().pay_lamports == 0 || vault_lamports - r.unwrap().pay_lamports
            >= MIN_VAULT_LAMPORTS,
{
    if !amm.is_admin(admin) {
        return Err(ReaderError::NotOwner);
    }
    if amm.status < 2 || amm.winner == WINNER_UNKNOWN {
        return Err(ReaderError::WrongState);
    }
    Ok(pay_out(amm, pos, vault_lamports))
}

/// A second redemption pays nothing and changes nothing: after a
/// redemption that succeeded, every further one, whatever the pooled vault
/// holds by then, succeeds with a payout of zero and leaves the ledger and the
/// position as the first one left them.
pub proof fn lemma_redeem_twice(
    amm: Amm,
    pos: PositionView,
    user: Address,
    vault_lamports: u64,
    vault_lamports_later: u64,
)
    requires
        amm.wf(),
        redeem_spec(amm, pos, user, vault_lamports).is_ok(),
    ensures
        ({
            let first = redeem_spec(amm, pos, user, vault_lamports).unwrap();
            let second = redeem_spec(first.amm, first.pos, user, vault_lamports_later);
            &&& first.pos.yes_shares_e6 == 0 && first.pos.no_shares_e6 == 0
            &&& second.is_ok()
            &&& second.unwrap().receipt == (RedeemReceipt { pay_lamports: 0, pay_e6: 0 })
            &&& second.unwrap().amm == first.amm
            &&& second.unwrap().pos == first.pos
        }),
{
}

/// A redemption never takes the pooled vault below its minimum reserve: it
/// pays nothing, or it leaves at least the reserve behind.
pub proof fn lemma_redeem_keeps_reserve(amm: Amm, pos: PositionView, vault_lamports: u64)
    ensures
        ({
            let pay = payout_spec(amm, pos, vault_lamports).receipt.pay_lamports;
            pay == 0 || vault_lamports - pay >= MIN_VAULT_LAMPORTS
        }),
        pay_lamports_spec(amm, pos, vault_lamports) == 0 || vault_lamports - pay_lamports_spec(
            amm,
            pos,
            vault_lamports,
        ) >= MIN_VAULT_LAMPORTS,
{
}

} // verus!
