//! A user's position in the market: share balances, the custody balance, and
//! the window of order nonces that were already consumed.

use vstd::prelude::*;
use crate::address::Address;
use crate::error::ReaderError;
use crate::market::Amm;
use crate::units::clamp_i64_spec;
use crate::units::lamports_to_e6;
use crate::units::sat_add;

verus! {

/// Nonces that a position remembers; the oldest leaves when one more comes.
pub const MAX_NONCES: usize = 1000;

/// A user's position in the market.
#[derive(Clone, Debug)]
pub struct Position {
    /// The authority that signs trades.
    pub owner: Address,
    pub yes_shares_e6: i64,
    pub no_shares_e6: i64,
    /// The authority that funds and withdraws.
    pub master_wallet: Address,
    /// Accounting mirror of the user's custody balance.
    pub vault_balance_e6: i64,
    /// Seed byte of the custody account's address.
    pub vault_bump: u8,
    /// The nonces consumed last, oldest first.
    pub used_nonces: Vec<u64>,
}

/// A position as plain values.
pub struct PositionView {
    pub owner: Seq<u8>,
    pub yes_shares_e6: i64,
    pub no_shares_e6: i64,
    pub master_wallet: Seq<u8>,
    pub vault_balance_e6: i64,
    pub vault_bump: u8,
    pub used_nonces: Seq<u64>,
}

impl View for Position {
    type V = PositionView;

    open spec fn view(&self) -> PositionView {
        PositionView {
            owner: self.owner.bytes@,
            yes_shares_e6: self.yes_shares_e6,
            no_shares_e6: self.no_shares_e6,
            master_wallet: self.master_wallet.bytes@,
            vault_balance_e6: self.vault_balance_e6,
            vault_bump: self.vault_bump,
            used_nonces: self.used_nonces@,
        }
    }
}

impl PositionView {
    /// The position with both share balances at zero.
    pub open spec fn wiped(self) -> PositionView {
        PositionView { yes_shares_e6: 0, no_shares_e6: 0, ..self }
    }

    /// The shares held of a side.
    pub open spec fn shares_of(self, side: u8) -> i64 {
        if side == crate::market::SIDE_YES {
            self.yes_shares_e6
        } else {
            self.no_shares_e6
        }
    }

    /// The position with the shares of a side set to `shares`.
    pub open spec fn with_shares_of(self, side: u8, shares: i64) -> PositionView {
        if side == crate::market::SIDE_YES {
            PositionView { yes_shares_e6: shares, ..self }
        } else {
            PositionView { no_shares_e6: shares, ..self }
        }
    }

    /// The position with its custody balance set to `balance`.
    pub open spec fn with_balance(self, balance: i64) -> PositionView {
        PositionView { vault_balance_e6: balance, ..self }
    }
}

/// The window after `nonce` was consumed: the nonce comes last, and the
/// oldest leaves where the window would outgrow `MAX_NONCES`.
pub open spec fn record_nonce_spec(nonces: Seq<u64>, nonce: u64) -> Seq<u64> {
    if nonces.len() + 1 > MAX_NONCES {
        nonces.push(nonce).subrange(1, nonces.len() as int + 1)
    } else {
        nonces.push(nonce)
    }
}

impl Position {
    /// Whether the nonce window is within its capacity.
    pub open spec fn wf(&self) -> bool {
        self.used_nonces@.len() <= MAX_NONCES
    }

    /// Whether the position is well formed.
    pub fn check(&self) -> (ok: bool)
        ensures
            ok == self.wf(),
    {
        self.used_nonces.len() <= MAX_NONCES
    }

    /// Whether `nonce` is in the window.
    pub fn nonce_used(&self, nonce: u64) -> (used: bool)
        ensures
            used == self@.used_nonces.contains(nonce),
    {
        let mut i: usize = 0;
        while i < self.used_nonces.len()
            invariant
                i <= self.used_nonces.len(),
                forall|k: int| 0 <= k < i ==> self.used_nonces@[k] != nonce,
            decreases self.used_nonces.len() - i,
        {
            if self.used_nonces[i] == nonce {
                return true;
            }
            i += 1;
        }
        false
    }

    /// Consumes `nonce`: it joins the window, and the oldest nonce leaves
    /// where the window is full.
    pub fn record_nonce(&mut self, nonce: u64)
        ensures
            final(self)@ == (PositionView {
                used_nonces: record_nonce_spec(old(self)@.used_nonces, nonce),
                ..old(self)@
            }),
            old(self).wf() ==> final(self).wf(),
            final(self)@.used_nonces.contains(nonce),
    {
        self.used_nonces.push(nonce);
        if self.used_nonces.len() > MAX_NONCES {
            self.used_nonces.remove(0);
        }
        proof {
            let after = record_nonce_spec(old(self)@.used_nonces, nonce);
            assert(self.used_nonces@ =~= after);
            assert(after[after.len() - 1] == nonce);
        }
    }
}

/// Creates the position of `owner`, funded by `master_wallet`: no shares, no
/// balance, no nonce consumed.
pub fn init_position(owner: Address, master_wallet: Address, vault_bump: u8) -> (pos: Position)
    ensures
        pos@ == (PositionView {
            owner: owner.bytes@,
            yes_shares_e6: 0,
            no_shares_e6: 0,
            master_wallet: master_wallet.bytes@,
            vault_balance_e6: 0,
            vault_bump,
            used_nonces: Seq::<u64>::empty(),
        }),
        pos.wf(),
{
    Position {
        owner,
        yes_shares_e6: 0,
        no_shares_e6: 0,
        master_wallet,
        vault_balance_e6: 0,
        vault_bump,
        used_nonces: Vec::new(),
    }
}

/// Whether `user` owns the position and `master_wallet` funds it, or the refusal.
pub open spec fn funding_check_spec(pos: PositionView, user: Address, master_wallet: Address)
    -> Result<(), ReaderError> {
    if user.bytes@ != pos.owner {
        Err(ReaderError::NotOwner)
    } else if master_wallet.bytes@ != pos.master_wallet {
        Err(ReaderError::Unauthorized)
    } else {
        Ok(())
    }
}

/// What a deposit of `amount_lamports` yields.
pub open spec fn deposit_spec(
    pos: PositionView,
    user: Address,
    master_wallet: Address,
    amount_lamports: u64,
) -> Result<PositionView, ReaderError> {
    match funding_check_spec(pos, user, master_wallet) {
        Err(e) => Err(e),
        Ok(()) => Ok(
            pos.with_balance(clamp_i64_spec(pos.vault_balance_e6 + amount_lamports / 100)),
        ),
    }
}

/// What taking `amount_lamports` out of the custody balance yields.
pub open spec fn withdraw_spec(
    pos: PositionView,
    user: Address,
    master_wallet: Address,
    amount_lamports: u64,
) -> Result<PositionView, ReaderError> {
    match funding_check_spec(pos, user, master_wallet) {
        Err(e) => Err(e),
        Ok(()) => if pos.vault_balance_e6 < amount_lamports / 100 {
            Err(ReaderError::InsufficientBalance)
        } else {
            Ok(pos.with_balance((pos.vault_balance_e6 - amount_lamports / 100) as i64))
        },
    }
}

fn funding_check(pos: &Position, user: &Address, master_wallet: &Address) -> (r: Result<
    (),
    ReaderError,
>)
    ensures
        r == funding_check_spec(pos@, *user, *master_wallet),
{
    if !user.same(&pos.owner) {
        Err(ReaderError::NotOwner)
    } else if !master_wallet.same(&pos.master_wallet) {
        Err(ReaderError::Unauthorized)
    } else {
        Ok(())
    }
}

/// Credits a deposit of `amount_lamports` from the funding authority to the
/// custody balance. The caller moves the lamports into the custody account.
pub fn deposit(pos: &mut Position, user: &Address, master_wallet: &Address, amount_lamports: u64)
    -> (r: Result<(), ReaderError>)
    ensures
        match deposit_spec(old(pos)@, *user, *master_wallet, amount_lamports) {
            Ok(after) => r.is_ok() && final(pos)@ == after,
            Err(e) => r == Err::<(), ReaderError>(e) && final(pos)@ == old(pos)@,
        },
        old(pos).wf() ==> final(pos).wf(),
{
    match funding_check(pos, user, master_wallet) {
        Err(e) => Err(e),
        Ok(()) => {
            pos.vault_balance_e6 = sat_add(pos.vault_balance_e6, lamports_to_e6(amount_lamports));
            Ok(())
        },
    }
}

fn debit(pos: &mut Position, user: &Address, master_wallet: &Address, amount_lamports: u64) -> (r:
    Result<(), ReaderError>)
    ensures
        match withdraw_spec(old(pos)@, *user, *master_wallet, amount_lamports) {
            Ok(after) => r.is_ok() && final(pos)@ == after,
            Err(e) => r == Err::<(), ReaderError>(e) && final(pos)@ == old(pos)@,
        },
        old(pos).wf() ==> final(pos).wf(),
{
    match funding_check(pos, user, master_wallet) {
        Err(e) => Err(e),
        Ok(()) => {
            let amount_e6 = lamports_to_e6(amount_lamports);
            if pos.vault_balance_e6 < amount_e6 {
                Err(ReaderError::InsufficientBalance)
            } else {
                pos.vault_balance_e6 = pos.vault_balance_e6 - amount_e6;
                Ok(())
            }
        },
    }
}

/// Debits `amount_lamports` that go from the custody account to the user's
/// signing wallet. The funding authority must sign; the balance must cover
/// the amount. The caller moves the lamports.
pub fn topup_session_wallet(
    pos: &mut Position,
    user: &Address,
    master_wallet: &Address,
    amount_lamports: u64,
) -> (r: Result<(), ReaderError>)
    ensures
        match withdraw_spec(old(pos)@, *user, *master_wallet, amount_lamports) {
            Ok(after) => r.is_ok() && final(pos)@ == after,
            Err(e) => r == Err::<(), ReaderError>(e) && final(pos)@ == old(pos)@,
        },
        old(pos).wf() ==> final(pos).wf(),
{
    debit(pos, user, master_wallet, amount_lamports)
}

/// Debits `amount_lamports` that go from the custody account back to the
/// funding authority. The funding authority must sign; the balance must
/// cover the amount. The caller moves the lamports.
pub fn withdraw(pos: &mut Position, user: &Address, master_wallet: &Address, amount_lamports: u64)
    -> (r: Result<(), ReaderError>)
    ensures
        match withdraw_spec(old(pos)@, *user, *master_wallet, amount_lamports) {
            Ok(after) => r.is_ok() && final(pos)@ == after,
            Err(e) => r == Err::<(), ReaderError>(e) && final(pos)@ == old(pos)@,
        },
        old(pos).wf() ==> final(pos).wf(),
{
    debit(pos, user, master_wallet, amount_lamports)
}

/// Sets both share balances of a position to zero. Only the administrator may.
pub fn wipe_position(amm: &Amm, pos: &mut Position, admin: &Address) -> (r: Result<
    (),
    ReaderError,
>)
    ensures
        amm.is_admin_spec(*admin) ==> r.is_ok() && final(pos)@ == old(pos)@.wiped(),
        !amm.is_admin_spec(*admin) ==> r == Err::<(), ReaderError>(ReaderError::NotOwner)
            && final(pos)@ == old(pos)@,
        old(pos).wf() ==> final(pos).wf(),
{
    if !amm.is_admin(admin) {
        return Err(ReaderError::NotOwner);
    }
    pos.yes_shares_e6 = 0;
    pos.no_shares_e6 = 0;
    Ok(())
}

/// What burning `nonce` yields.
pub open spec fn cancel_nonce_spec(pos: PositionView, owner: Address, nonce: u64) -> Result<
    PositionView,
    ReaderError,
> {
    if owner.bytes@ != pos.owner {
        Err(ReaderError::NotOwner)
    } else if pos.used_nonces.contains(nonce) {
        Err(ReaderError::NonceAlreadyUsed)
    } else {
        Ok(PositionView { used_nonces: record_nonce_spec(pos.used_nonces, nonce), ..pos })
    }
}

/// Burns `nonce`, so that no order that carries it can be executed. Only the
/// owner may, and only a nonce that is not in the window.
pub fn cancel_order_nonce(pos: &mut Position, owner: &Address, nonce: u64) -> (r: Result<
    (),
    ReaderError,
>)
    ensures
        match cancel_nonce_spec(old(pos)@, *owner, nonce) {
            Ok(after) => r.is_ok() && final(pos)@ == after,
            Err(e) => r == Err::<(), ReaderError>(e) && final(pos)@ == old(pos)@,
        },
        old(pos).wf() ==> final(pos).wf(),
{
    if !owner.same(&pos.owner) {
        return Err(ReaderError::NotOwner);
    }
    if pos.nonce_used(nonce) {
        return Err(ReaderError::NonceAlreadyUsed);
    }
    pos.record_nonce(nonce);
    Ok(())
}

} // verus!
