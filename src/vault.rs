//! Share accounting of the deposit vault.
use vstd::prelude::*;
use vstd::arithmetic::div_mod::{lemma_fundamental_div_mod, lemma_fundamental_div_mod_converse};

use crate::error::VaultError;
use crate::fixed_point::{mul_div, narrow_to_u64};

verus! {

/// Shares owed for `amount`: one for one while no share exists, otherwise in
/// proportion to the supply over the underlying value, truncated so that the
/// vault never issues too many.
pub open spec fn shares_spec(amount: int, supply: int, value: int) -> int {
    if supply == 0 { amount } else { amount * supply / value }
}

pub open spec fn shares_result(amount: u64, supply: u64, value: u64) -> Result<u64, VaultError> {
    if supply == 0 {
        Ok(amount)
    } else if value == 0 || shares_spec(amount as int, supply as int, value as int) > u64::MAX {
        Err(VaultError::MathOverflow)
    } else {
        Ok(shares_spec(amount as int, supply as int, value as int) as u64)
    }
}

/// Shares to mint for a deposit of `amount`, given the share supply and the
/// underlying value held before the deposit.
pub fn shares_for_deposit(amount: u64, total_share_supply: u64, total_underlying_value: u64) -> (r: Result<u64, VaultError>)
    ensures
        r == shares_result(amount, total_share_supply, total_underlying_value),
{
    if total_share_supply == 0 {
        return Ok(amount);
    }
    if total_underlying_value == 0 {
        return Err(VaultError::MathOverflow);
    }
    match narrow_to_u64(mul_div(amount, total_share_supply, total_underlying_value)) {
        Some(s) => Ok(s),
        None => Err(VaultError::MathOverflow),
    }
}

/// The vault's totals as one deposit instruction sees them.
#[derive(Clone, Copy, Debug, PartialEq, Eq, Structural)]
pub struct DepositToVault {
    /// Sum of all deposits so far.
    pub total_deposit: u64,
    /// Cap on `total_deposit`.
    pub deposit_limit: u64,
    /// Shares in circulation.
    pub share_supply: u64,
    /// What the vault's collateral is worth in the underlying asset, as the
    /// lending market reports it before this deposit lands.
    pub collateral_value: u64,
}

impl DepositToVault {
    /// Result and resulting totals of a deposit of `amount`.
    pub open spec fn deposit_outcome(self, amount: u64) -> (Result<u64, VaultError>, DepositToVault) {
        if self.total_deposit + amount > self.deposit_limit {
            (Err(VaultError::VaultIsFull), self)
        } else {
            match shares_result(amount, self.share_supply, self.collateral_value) {
                Err(e) => (Err(e), self),
                Ok(s) => if self.share_supply + s > u64::MAX {
                    (Err(VaultError::MathOverflow), self)
                } else {
                    (Ok(s), DepositToVault {
                        total_deposit: (self.total_deposit + amount) as u64,
                        share_supply: (self.share_supply + s) as u64,
                        ..self
                    })
                },
            }
        }
    }

    /// Shares that a deposit of `amount` is worth, priced off the totals
    /// before the deposit.
    pub fn get_shares(&self, amount: u64) -> (r: Result<u64, VaultError>)
        ensures
            r == shares_result(amount, self.share_supply, self.collateral_value),
    {
        shares_for_deposit(amount, self.share_supply, self.collateral_value)
    }

    /// Takes a deposit of `max_amount_in`: refuses it when the vault would
    /// pass its limit, otherwise returns the shares to mint and records the
    /// deposit and the new shares. On any error nothing changes.
    pub fn deposit(&mut self, max_amount_in: u64) -> (r: Result<u64, VaultError>)
        ensures
            (r, *final(self)) == old(self).deposit_outcome(max_amount_in),
            r is Ok ==> final(self).total_deposit <= final(self).deposit_limit,
    {
        let total = match self.total_deposit.checked_add(max_amount_in) {
            Some(t) => t,
            None => {
                return Err(VaultError::VaultIsFull);
            },
        };
        if total > self.deposit_limit {
            return Err(VaultError::VaultIsFull);
        }
        let shares = self.get_shares(max_amount_in)?;
        let supply = match self.share_supply.checked_add(shares) {
            Some(s) => s,
            None => {
                return Err(VaultError::MathOverflow);
            },
        };
        self.share_supply = supply;
        self.total_deposit = total;
        Ok(shares)
    }
}

/// The first deposit into a vault without shares is priced one share per
/// unit deposited.
pub proof fn first_deposit_is_one_for_one(amount: u64, value: u64)
    ensures
        shares_spec(amount as int, 0, value as int) == amount,
        shares_result(amount, 0, value) == Ok::<u64, VaultError>(amount),
{
}

/// Doubling a deposit doubles its shares, up to one share lost to
/// truncation; exactly while no share exists.
pub proof fn shares_linear_in_amount(amount: u64, supply: u64, value: u64)
    requires
        supply == 0 || value > 0,
    ensures
        supply == 0 ==> shares_spec(2 * amount, supply as int, value as int) == 2 * shares_spec(amount as int, supply as int, value as int),
        2 * shares_spec(amount as int, supply as int, value as int) <= shares_spec(2 * amount, supply as int, value as int),
        shares_spec(2 * amount, supply as int, value as int) <= 2 * shares_spec(amount as int, supply as int, value as int) + 1,
{
    if supply != 0 {
        let x = (amount as int) * (supply as int);
        let v = value as int;
        assert((2 * amount) * (supply as int) == 2 * x) by (nonlinear_arith)
            requires
                x == (amount as int) * (supply as int),
        ;
        lemma_fundamental_div_mod(x, v);
        let q = x / v;
        let r = x % v;
        assert(x == q * v + r) by (nonlinear_arith)
            requires
                x == v * q + r,
        ;
        if 2 * r < v {
            assert(2 * x == (2 * q) * v + 2 * r) by (nonlinear_arith)
                requires
                    x == q * v + r,
            ;
            lemma_fundamental_div_mod_converse(2 * x, v, 2 * q, 2 * r);
        } else {
            assert(2 * x == (2 * q + 1) * v + (2 * r - v)) by (nonlinear_arith)
                requires
                    x == q * v + r,
            ;
            lemma_fundamental_div_mod_converse(2 * x, v, 2 * q + 1, 2 * r - v);
        }
    }
}

/// A deposit one unit past the remaining headroom is refused as a full
/// vault; a deposit of exactly the headroom is never refused as full, and
/// when it succeeds the total reaches the limit.
pub proof fn deposit_limit_is_exact(v: DepositToVault)
    requires
        v.total_deposit <= v.deposit_limit,
    ensures
        v.deposit_limit < u64::MAX ==> v.deposit_outcome((v.deposit_limit - v.total_deposit + 1) as u64).0
            == Err::<u64, VaultError>(VaultError::VaultIsFull),
        v.deposit_outcome((v.deposit_limit - v.total_deposit) as u64).0 != Err::<u64, VaultError>(VaultError::VaultIsFull),
        v.deposit_outcome((v.deposit_limit - v.total_deposit) as u64).0 is Ok
            ==> v.deposit_outcome((v.deposit_limit - v.total_deposit) as u64).1.total_deposit == v.deposit_limit,
        v.share_supply == 0 ==> v.deposit_outcome((v.deposit_limit - v.total_deposit) as u64).0
            == Ok::<u64, VaultError>((v.deposit_limit - v.total_deposit) as u64),
{
}

} // verus!
