//! The market's ledger and its lifecycle: creation, the start snapshot, the
//! stop, and the settlement that freezes the winner and the payout per share.

use vstd::prelude::*;
use crate::address::Address;
use crate::error::ReaderError;
use crate::oracle::assert_fresh;
use crate::oracle::is_fresh_spec;
use crate::oracle::read_btc_price_e6;
use crate::oracle::read_btc_price_spec;
use crate::units::lamports_to_e6;

verus! {

/// Where the market stands in its cycle.
#[derive(Clone, Copy, Debug, PartialEq, Eq, Structural)]
pub enum MarketStatus {
    /// Created; trades are taken, the start price is not yet known.
    Premarket,
    /// The start price is known; trades are taken.
    Open,
    /// No trades; settlement and redemption only.
    Stopped,
}

/// The winner is not decided.
pub const WINNER_UNKNOWN: u8 = 0;

/// The yes side; as a winner, yes has won.
pub const SIDE_YES: u8 = 1;

/// The no side; as a winner, no has won.
pub const SIDE_NO: u8 = 2;

/// The market's ledger.
#[derive(Clone, Copy, Debug)]
pub struct Amm {
    /// Seed byte of the ledger's own address.
    pub bump: u8,
    /// Decimal places of every fixed-point field: six.
    pub decimals: u8,
    /// Liquidity of the scoring rule; positive.
    pub b: i64,
    /// Taker fee in basis points; at most a whole.
    pub fee_bps: u16,
    /// Outstanding yes shares.
    pub q_yes: i64,
    /// Outstanding no shares.
    pub q_no: i64,
    /// Fees taken so far; accounting only.
    pub fees: i64,
    /// Accounting mirror of the pooled vault.
    pub vault_e6: i64,
    /// 0 premarket, 1 open, anything else stopped.
    pub status: u8,
    /// 0 unknown, 1 yes, 2 no.
    pub winner: u8,
    /// Winning shares at settlement.
    pub w_total_e6: i64,
    /// Payout per winning share, at most 1.0.
    pub pps_e6: i64,
    /// Where fees go; also the administrator.
    pub fee_dest: Address,
    /// Seed byte of the pooled vault's address.
    pub vault_sol_bump: u8,
    /// Oracle price at the start; zero until it is taken.
    pub start_price_e6: i64,
    /// Oracle time of the start price.
    pub start_ts: i64,
    /// Oracle price at settlement; zero until then.
    pub settle_price_e6: i64,
    /// Oracle time of the settlement price.
    pub settle_ts: i64,
    /// Slot at which the market ends; kept for older clients.
    pub market_end_slot: u64,
    /// Unix second at which the market ends; zero where none is set.
    pub market_end_time: i64,
}

/// The identity of the system program: thirty-two zero bytes.
pub open spec fn system_program_id_spec() -> Seq<u8> {
    Seq::new(32, |i: int| 0u8)
}

/// The winning side's outstanding shares, never below zero.
pub open spec fn winning_total_spec(amm: Amm, winner: u8) -> i64 {
    let w = if winner == SIDE_YES {
        amm.q_yes
    } else {
        amm.q_no
    };
    if w < 0 {
        0
    } else {
        w
    }
}

/// The payout per winning share: the vault mirror over the winning shares,
/// rounded down, at most 1.0, and zero where there are no winning shares.
pub open spec fn payout_per_share_spec(vault_e6: i64, w_total_e6: i64) -> int {
    if w_total_e6 <= 0 {
        0
    } else {
        let covered = if vault_e6 < 0 {
            0
        } else {
            (vault_e6 * 1_000_000) / (w_total_e6 as int)
        };
        if covered > 1_000_000 {
            1_000_000
        } else {
            covered
        }
    }
}

/// The ledger after settlement in favour of `winner`.
pub open spec fn settled_spec(amm: Amm, winner: u8) -> Amm {
    let w = winning_total_spec(amm, winner);
    Amm { winner, w_total_e6: w, pps_e6: payout_per_share_spec(amm.vault_e6, w) as i64, ..amm }
}

/// The winner that the oracle decides: yes where the price rose above the
/// start, and on a tie where `ge_wins_yes` is set.
pub open spec fn oracle_winner_spec(start_e6: i64, curr_e6: i64, ge_wins_yes: bool) -> u8 {
    if curr_e6 > start_e6 || (ge_wins_yes && curr_e6 == start_e6) {
        SIDE_YES
    } else {
        SIDE_NO
    }
}

impl Amm {
    /// Where the market stands in its cycle: 0 is premarket, 1 open, anything
    /// else stopped.
    pub open spec fn status_spec(&self) -> MarketStatus {
        if self.status == 0 {
            MarketStatus::Premarket
        } else if self.status == 1 {
            MarketStatus::Open
        } else {
            MarketStatus::Stopped
        }
    }

    /// Whether the ledger is one that the operations below produce: positive
    /// liquidity, a fee of at most a whole, a winner only once stopped, and a
    /// settlement snapshot within its bounds.
    pub open spec fn wf(&self) -> bool {
        &&& self.b > 0
        &&& self.fee_bps <= 10_000
        &&& self.status <= 2
        &&& self.winner <= 2
        &&& self.winner != WINNER_UNKNOWN ==> self.status_spec() == MarketStatus::Stopped
        &&& 0 <= self.w_total_e6
        &&& 0 <= self.pps_e6 <= 1_000_000
        &&& self.winner == WINNER_UNKNOWN ==> self.w_total_e6 == 0 && self.pps_e6 == 0
    }

    /// Whether trades are taken.
    pub open spec fn takes_trades(&self) -> bool {
        self.status_spec() != MarketStatus::Stopped
    }

    /// Whether `who` is the administrator.
    pub open spec fn is_admin_spec(&self, who: Address) -> bool {
        who.bytes@ == self.fee_dest.bytes@
    }

    /// Whether the ledger is well formed.
    pub fn check(&self) -> (ok: bool)
        ensures
            ok == self.wf(),
    {
        self.b > 0 && self.fee_bps <= 10_000 && self.status <= 2 && self.winner <= 2 && (self.winner
            == WINNER_UNKNOWN || self.status == 2) && 0 <= self.w_total_e6 && 0 <= self.pps_e6
            && self.pps_e6 <= 1_000_000 && (self.winner != WINNER_UNKNOWN || (self.w_total_e6 == 0
            && self.pps_e6 == 0))
    }

    /// Where the market stands in its cycle.
    #[verifier::when_used_as_spec(status_spec)]
    pub fn status(&self) -> (s: MarketStatus)
        ensures
            s == self.status_spec(),
    {
        if self.status == 0 {
            MarketStatus::Premarket
        } else if self.status == 1 {
            MarketStatus::Open
        } else {
            MarketStatus::Stopped
        }
    }

    /// Whether `who` is the administrator.
    pub fn is_admin(&self, who: &Address) -> (r: bool)
        ensures
            r == self.is_admin_spec(*who),
    {
        who.same(&self.fee_dest)
    }
}

/// The payout per winning share.
pub fn payout_per_share(vault_e6: i64, w_total_e6: i64) -> (pps_e6: i64)
    ensures
        pps_e6 == payout_per_share_spec(vault_e6, w_total_e6),
        0 <= pps_e6 <= 1_000_000,
        vault_e6 >= 0 && w_total_e6 >= 0 ==> w_total_e6 * pps_e6 <= vault_e6 * 1_000_000,
{
    if w_total_e6 <= 0 {
        0
    } else if vault_e6 < 0 {
        0
    } else {
        let num: i128 = (vault_e6 as i128) * 1_000_000;
        let den: i128 = w_total_e6 as i128;
        let floored: i128 = num / den;
        assert(0 <= floored && floored * den <= num) by (nonlinear_arith)
            requires
                num >= 0,
                den > 0,
                floored == num / den,
        ;
        if floored > 1_000_000 {
            assert(den * 1_000_000 <= den * floored) by (nonlinear_arith)
                requires
                    den > 0,
                    floored > 1_000_000,
            ;
            assert(den * floored == floored * den) by (nonlinear_arith);
            1_000_000
        } else {
            assert(den * floored == floored * den) by (nonlinear_arith);
            floored as i64
        }
    }
}

/// A payout per share never exceeds 1.0, and paying it on every winning share
/// never takes more than the vault mirror holds.
pub proof fn lemma_settlement_payout_bound(vault_e6: i64, w_total_e6: i64)
    requires
        vault_e6 >= 0,
        w_total_e6 >= 0,
    ensures
        0 <= payout_per_share_spec(vault_e6, w_total_e6) <= 1_000_000,
        w_total_e6 * payout_per_share_spec(vault_e6, w_total_e6) <= vault_e6 * 1_000_000,
{
    if w_total_e6 > 0 {
        let num = vault_e6 * 1_000_000;
        let den = w_total_e6 as int;
        let floored = num / den;
        assert(0 <= floored && floored * den <= num) by (nonlinear_arith)
            requires
                num >= 0,
                den > 0,
                floored == num / den,
        ;
        assert(den * floored == floored * den) by (nonlinear_arith);
        if floored > 1_000_000 {
            assert(den * 1_000_000 <= den * floored) by (nonlinear_arith)
                requires
                    den > 0,
                    floored > 1_000_000,
            ;
        }
    }
}

/// Creates the market's ledger in the premarket state.
///
/// The fee destination must be an account of the system program, the
/// liquidity positive and the fee at most a whole. The vault mirror starts at
/// what the pooled vault already holds.
pub fn init_amm(
    b: i64,
    fee_bps: u16,
    fee_dest: Address,
    fee_dest_owner: &Address,
    bump: u8,
    vault_sol_bump: u8,
    vault_lamports: u64,
) -> (r: Result<Amm, ReaderError>)
    ensures
        r.is_ok() <==> fee_dest_owner.bytes@ == system_program_id_spec() && b > 0 && fee_bps
            <= 10_000,
        r.is_err() ==> r == Err::<Amm, ReaderError>(ReaderError::BadParam),
        r.is_ok() ==> r.unwrap() == (Amm {
            bump,
            decimals: 6,
            b,
            fee_bps,
            q_yes: 0,
            q_no: 0,
            fees: 0,
            vault_e6: (vault_lamports / 100) as i64,
            status: 0,
            winner: 0,
            w_total_e6: 0,
            pps_e6: 0,
            fee_dest,
            vault_sol_bump,
            start_price_e6: 0,
            start_ts: 0,
            settle_price_e6: 0,
            settle_ts: 0,
            market_end_slot: 0,
            market_end_time: 0,
        }) && r.unwrap().wf(),
{
    let system = Address { bytes: [0u8; 32] };
    assert(system.bytes@ =~= system_program_id_spec());
    if !fee_dest_owner.same(&system) {
        return Err(ReaderError::BadParam);
    }
    if b <= 0 || fee_bps > 10_000 {
        return Err(ReaderError::BadParam);
    }
    Ok(
        Amm {
            bump,
            decimals: 6,
            b,
            fee_bps,
            q_yes: 0,
            q_no: 0,
            fees: 0,
            vault_e6: lamports_to_e6(vault_lamports),
            status: 0,
            winner: 0,
            w_total_e6: 0,
            pps_e6: 0,
            fee_dest,
            vault_sol_bump,
            start_price_e6: 0,
            start_ts: 0,
            settle_price_e6: 0,
            settle_ts: 0,
            market_end_slot: 0,
            market_end_time: 0,
        },
    )
}

/// What stopping the market yields.
pub open spec fn stop_market_spec(amm: Amm, admin: Address) -> Result<Amm, ReaderError> {
    if !amm.is_admin_spec(admin) {
        Err(ReaderError::NotOwner)
    } else if !amm.takes_trades() {
        Err(ReaderError::WrongState)
    } else {
        Ok(Amm { status: 2, ..amm })
    }
}

/// Stops a market that still takes trades. Only the administrator may.
pub fn stop_market(amm: &mut Amm, admin: &Address) -> (r: Result<(), ReaderError>)
    ensures
        match stop_market_spec(*old(amm), *admin) {
            Ok(after) => r.is_ok() && *final(amm) == after,
            Err(e) => r == Err::<(), ReaderError>(e) && *final(amm) == *old(amm),
        },
        old(amm).wf() ==> final(amm).wf(),
{
    if !amm.is_admin(admin) {
        return Err(ReaderError::NotOwner);
    }
    if amm.status >= 2 {
        return Err(ReaderError::WrongState);
    }
    amm.status = 2;
    Ok(())
}

/// What setting the market's end yields.
pub open spec fn set_market_end_spec(
    amm: Amm,
    admin: Address,
    market_end_slot: u64,
    market_end_time: i64,
) -> Result<Amm, ReaderError> {
    if !amm.is_admin_spec(admin) {
        Err(ReaderError::NotOwner)
    } else if market_end_time <= 0 {
        Err(ReaderError::BadParam)
    } else {
        Ok(Amm { market_end_slot, market_end_time, ..amm })
    }
}

/// Sets the time at which the market ends, which locks trading shortly
/// before. Only the administrator may; the time must be positive.
pub fn set_market_end_slot(
    amm: &mut Amm,
    admin: &Address,
    market_end_slot: u64,
    market_end_time: i64,
) -> (r: Result<(), ReaderError>)
    ensures
        match set_market_end_spec(*old(amm), *admin, market_end_slot, market_end_time) {
            Ok(after) => r.is_ok() && *final(amm) == after,
            Err(e) => r == Err::<(), ReaderError>(e) && *final(amm) == *old(amm),
        },
        old(amm).wf() ==> final(amm).wf(),
{
    if !amm.is_admin(admin) {
        return Err(ReaderError::NotOwner);
    }
    if market_end_time <= 0 {
        return Err(ReaderError::BadParam);
    }
    amm.market_end_slot = market_end_slot;
    amm.market_end_time = market_end_time;
    Ok(())
}

/// What a settlement by hand yields.
pub open spec fn settle_market_spec(amm: Amm, admin: Address, winner: u8) -> Result<
    Amm,
    ReaderError,
> {
    if !amm.is_admin_spec(admin) {
        Err(ReaderError::NotOwner)
    } else if amm.takes_trades() || amm.winner != WINNER_UNKNOWN {
        Err(ReaderError::WrongState)
    } else if winner != SIDE_YES && winner != SIDE_NO {
        Err(ReaderError::BadParam)
    } else {
        Ok(settled_spec(amm, winner))
    }
}

/// Settles a stopped market in favour of `winner` (1 yes, 2 no) and freezes
/// the winning total and the payout per share. Only the administrator may,
/// and only once per cycle.
pub fn settle_market(amm: &mut Amm, admin: &Address, winner: u8) -> (r: Result<(), ReaderError>)
    ensures
        match settle_market_spec(*old(amm), *admin, winner) {
            Ok(after) => r.is_ok() && *final(amm) == after,
            Err(e) => r == Err::<(), ReaderError>(e) && *final(amm) == *old(amm),
        },
        old(amm).wf() ==> final(amm).wf(),
        r.is_ok() ==> 0 <= final(amm).pps_e6 <= 1_000_000,
        r.is_ok() && old(amm).vault_e6 >= 0 ==> final(amm).w_total_e6 * final(amm).pps_e6 <= old(
            amm,
        ).vault_e6 * 1_000_000,
{
    if !amm.is_admin(admin) {
        return Err(ReaderError::NotOwner);
    }
    if amm.status < 2 || amm.winner != WINNER_UNKNOWN {
        return Err(ReaderError::WrongState);
    }
    if winner != SIDE_YES && winner != SIDE_NO {
        return Err(ReaderError::BadParam);
    }
    apply_settlement(amm, winner);
    Ok(())
}

/// Freezes the winner, the winning total and the payout per share.
pub fn apply_settlement(amm: &mut Amm, winner: u8)
    ensures
        *final(amm) == settled_spec(*old(amm), winner),
        0 <= final(amm).pps_e6 <= 1_000_000,
        0 <= final(amm).w_total_e6,
        old(amm).vault_e6 >= 0 ==> final(amm).w_total_e6 * final(amm).pps_e6 <= old(amm).vault_e6
            * 1_000_000,
{
    let w = if winner == SIDE_YES {
        amm.q_yes
    } else {
        amm.q_no
    };
    let w_total: i64 = if w < 0 {
        0
    } else {
        w
    };
    amm.winner = winner;
    amm.w_total_e6 = w_total;
    amm.pps_e6 = payout_per_share(amm.vault_e6, w_total);
}

/// What taking the start snapshot yields.
pub open spec fn snapshot_start_spec(
    amm: Amm,
    oracle_owner: Seq<u8>,
    oracle_data: Seq<u8>,
    now: i64,
) -> Result<Amm, ReaderError> {
    if amm.status_spec() != MarketStatus::Premarket {
        Err(ReaderError::WrongState)
    } else if amm.start_price_e6 != 0 {
        Err(ReaderError::AlreadySnapshotted)
    } else {
        match read_btc_price_spec(oracle_owner, oracle_data) {
            Err(e) => Err(e),
            Ok((price_e6, ts)) => if !is_fresh_spec(now, ts) {
                Err(ReaderError::StaleOracle)
            } else {
                Ok(Amm { start_price_e6: price_e6, start_ts: ts, status: 1, ..amm })
            },
        }
    }
}

/// Takes the oracle's price as the start price and opens the market.
///
/// The market must be in premarket without a start price; the oracle's
/// sample must be fresh at `now`.
pub fn snapshot_start(amm: &mut Amm, oracle_owner: &Address, oracle_data: &[u8], now: i64) -> (r:
    Result<(), ReaderError>)
    ensures
        match snapshot_start_spec(*old(amm), oracle_owner.bytes@, oracle_data@, now) {
            Ok(after) => r.is_ok() && *final(amm) == after,
            Err(e) => r == Err::<(), ReaderError>(e) && *final(amm) == *old(amm),
        },
        old(amm).wf() ==> final(amm).wf(),
{
    if amm.status != 0 {
        return Err(ReaderError::WrongState);
    }
    if amm.start_price_e6 != 0 {
        return Err(ReaderError::AlreadySnapshotted);
    }
    match read_btc_price_e6(oracle_owner, oracle_data) {
        Err(e) => Err(e),
        Ok((price_e6, ts)) => {
            match assert_fresh(now, ts) {
                Err(e) => Err(e),
                Ok(()) => {
                    amm.start_price_e6 = price_e6;
                    amm.start_ts = ts;
                    amm.status = 1;
                    Ok(())
                },
            }
        },
    }
}

/// What a settlement against the oracle yields.
pub open spec fn settle_by_oracle_spec(
    amm: Amm,
    admin: Address,
    oracle_owner: Seq<u8>,
    oracle_data: Seq<u8>,
    now: i64,
    ge_wins_yes: bool,
) -> Result<Amm, ReaderError> {
    if !amm.is_admin_spec(admin) {
        Err(ReaderError::NotOwner)
    } else if amm.takes_trades() || amm.winner != WINNER_UNKNOWN {
        Err(ReaderError::WrongState)
    } else if amm.start_price_e6 == 0 {
        Err(ReaderError::NotSnapshotted)
    } else {
        match read_btc_price_spec(oracle_owner, oracle_data) {
            Err(e) => Err(e),
            Ok((curr_e6, ts)) => if !is_fresh_spec(now, ts) {
                Err(ReaderError::StaleOracle)
            } else {
                Ok(
                    settled_spec(
                        Amm { settle_price_e6: curr_e6, settle_ts: ts, ..amm },
                        oracle_winner_spec(amm.start_price_e6, curr_e6, ge_wins_yes),
                    ),
                )
            },
        }
    }
}

/// Settles a stopped market by holding the oracle's price against the start
/// price: yes wins where the price is higher, and on a tie where
/// `ge_wins_yes` is set. Only the administrator may, and only once per cycle.
pub fn settle_by_oracle(
    amm: &mut Amm,
    admin: &Address,
    oracle_owner: &Address,
    oracle_data: &[u8],
    now: i64,
    ge_wins_yes: bool,
) -> (r: Result<(), ReaderError>)
    ensures
        match settle_by_oracle_spec(
            *old(amm),
            *admin,
            oracle_owner.bytes@,
            oracle_data@,
            now,
            ge_wins_yes,
        ) {
            Ok(after) => r.is_ok() && *final(amm) == after,
            Err(e) => r == Err::<(), ReaderError>(e) && *final(amm) == *old(amm),
        },
        old(amm).wf() ==> final(amm).wf(),
        r.is_ok() ==> 0 <= final(amm).pps_e6 <= 1_000_000,
        r.is_ok() && old(amm).vault_e6 >= 0 ==> final(amm).w_total_e6 * final(amm).pps_e6 <= old(
            amm,
        ).vault_e6 * 1_000_000,
{
    if !amm.is_admin(admin) {
        return Err(ReaderError::NotOwner);
    }
    if amm.status < 2 || amm.winner != WINNER_UNKNOWN {
        return Err(ReaderError::WrongState);
    }
    if amm.start_price_e6 == 0 {
        return Err(ReaderError::NotSnapshotted);
    }
    match read_btc_price_e6(oracle_owner, oracle_data) {
        Err(e) => Err(e),
        Ok((curr_e6, ts)) => {
            match assert_fresh(now, ts) {
                Err(e) => Err(e),
                Ok(()) => {
                    let start = amm.start_price_e6;
                    let winner = if curr_e6 > start || (ge_wins_yes && curr_e6 == start) {
                        SIDE_YES
                    } else {
                        SIDE_NO
                    };
                    amm.settle_price_e6 = curr_e6;
                    amm.settle_ts = ts;
                    apply_settlement(amm, winner);
                    Ok(())
                },
            }
        },
    }
}

/// Closes the market's ledger. Only the administrator may; the ledger is
/// given up and its rent goes to the administrator.
pub fn close_amm(amm: Amm, recipient: &Address) -> (r: Result<(), ReaderError>)
    ensures
        amm.is_admin_spec(*recipient) ==> r == Ok::<(), ReaderError>(()),
        !amm.is_admin_spec(*recipient) ==> r == Err::<(), ReaderError>(ReaderError::NotOwner),
{
    if amm.is_admin(recipient) {
        Ok(())
    } else {
        Err(ReaderError::NotOwner)
    }
}

/// How far the market is in its cycle: premarket, then open, then stopped.
pub open spec fn lifecycle_rank_spec(amm: Amm) -> int {
    match amm.status_spec() {
        MarketStatus::Premarket => 0,
        MarketStatus::Open => 1,
        MarketStatus::Stopped => 2,
    }
}

/// Whether `after` is no earlier in the cycle than `before`, and keeps the
/// winner and the settlement snapshot of `before` where it had a winner.
pub open spec fn advances_spec(before: Amm, after: Amm) -> bool {
    &&& lifecycle_rank_spec(before) <= lifecycle_rank_spec(after)
    &&& before.winner != WINNER_UNKNOWN ==> after.winner == before.winner && after.w_total_e6
        == before.w_total_e6 && after.pps_e6 == before.pps_e6
}

/// The market only ever advances: no operation on its lifecycle takes it
/// back to an earlier state, and none changes a winner or a settlement
/// snapshot once they are set.
pub proof fn lemma_lifecycle_only_advances(
    amm: Amm,
    admin: Address,
    winner: u8,
    oracle_owner: Seq<u8>,
    oracle_data: Seq<u8>,
    now: i64,
    ge_wins_yes: bool,
    market_end_slot: u64,
    market_end_time: i64,
)
    requires
        amm.wf(),
    ensures
        stop_market_spec(amm, admin).is_ok() ==> advances_spec(
            amm,
            stop_market_spec(amm, admin).unwrap(),
        ),
        set_market_end_spec(amm, admin, market_end_slot, market_end_time).is_ok() ==> advances_spec(
            amm,
            set_market_end_spec(amm, admin, market_end_slot, market_end_time).unwrap(),
        ),
        snapshot_start_spec(amm, oracle_owner, oracle_data, now).is_ok() ==> advances_spec(
            amm,
            snapshot_start_spec(amm, oracle_owner, oracle_data, now).unwrap(),
        ),
        settle_market_spec(amm, admin, winner).is_ok() ==> advances_spec(
            amm,
            settle_market_spec(amm, admin, winner).unwrap(),
        ) && amm.winner == WINNER_UNKNOWN,
        settle_by_oracle_spec(amm, admin, oracle_owner, oracle_data, now, ge_wins_yes).is_ok()
            ==> advances_spec(
            amm,
            settle_by_oracle_spec(
                amm,
                admin,
                oracle_owner,
                oracle_data,
                now,
                ge_wins_yes,
            ).unwrap(),
        ) && amm.winner == WINNER_UNKNOWN,
{
}

} // verus!
