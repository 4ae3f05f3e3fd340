//! What makes an asset unique.

use crate::account::Mint;
use crate::error::ErrorCode;
use crate::ledger::Ledger;
use crate::pubkey::Pubkey;
use vstd::prelude::*;

verus! {

/// Ten to the power of `n`.
pub open spec fn pow10(n: nat) -> nat
    decreases n,
{
    if n == 0 {
        1
    } else {
        10 * pow10((n - 1) as nat)
    }
}

/// Whether the displayed amount of `supply` raw units, which is the supply
/// divided by ten to the power of `decimals`, is exactly one.
pub open spec fn display_amount_is_one(supply: u64, decimals: u8) -> bool {
    supply as nat == pow10(decimals as nat)
}

/// Whether a mint stands for a unique asset: one raw unit, or one displayed
/// unit. Both conventions are in use, so both are accepted.
pub open spec fn is_unique(mint: Mint) -> bool {
    mint.supply == 1 || display_amount_is_one(mint.supply, mint.decimals)
}

/// Powers of ten grow with the exponent.
pub proof fn lemma_pow10_grows(low: nat, high: nat)
    requires
        low <= high,
    ensures
        0 < pow10(low) <= pow10(high),
    decreases high,
{
    if high == 0 {
    } else if low == high {
        lemma_pow10_grows(0, (high - 1) as nat);
    } else {
        lemma_pow10_grows(low, (high - 1) as nat);
    }
}

/// A unique asset has at least one raw unit.
pub proof fn lemma_unique_supply_is_positive(mint: Mint)
    requires
        is_unique(mint),
    ensures
        mint.supply >= 1,
{
    lemma_pow10_grows(0, mint.decimals as nat);
}

/// Whether the displayed amount of `supply` raw units is exactly one.
pub fn displays_one(supply: u64, decimals: u8) -> (one: bool)
    ensures
        one == display_amount_is_one(supply, decimals),
{
    let mut power: u64 = 1;
    let mut i: u8 = 0;
    while i < decimals
        invariant
            i <= decimals,
            power == pow10(i as nat),
        decreases decimals - i,
    {
        if power > u64::MAX / 10 {
            proof {
                lemma_pow10_grows((i + 1) as nat, decimals as nat);
            }
            return false;
        }
        power = power * 10;
        i = i + 1;
    }
    supply == power
}

/// Whether a mint stands for a unique asset.
pub fn has_supply_one(mint: &Mint) -> (unique: bool)
    ensures
        unique == is_unique(*mint),
{
    mint.supply == 1 || displays_one(mint.supply, mint.decimals)
}

/// The supply and the decimals of the asset at an address.
pub fn get_supply_info(ledger: &Ledger, asset: &Pubkey) -> (info: Result<(u64, u8), ErrorCode>)
    requires
        ledger.wf(),
    ensures
        info == match ledger@.mint(*asset) {
            Ok(mint) => Ok::<(u64, u8), ErrorCode>((mint.supply, mint.decimals)),
            Err(error) => Err::<(u64, u8), ErrorCode>(error),
        },
{
    match ledger.mint(asset) {
        Ok(mint) => Ok((mint.supply, mint.decimals)),
        Err(error) => Err(error),
    }
}

/// What `assert_unique` answers on a ledger.
pub open spec fn unique_check(mint: Result<Mint, ErrorCode>) -> Result<(), ErrorCode> {
    match mint {
        Ok(mint) => if is_unique(mint) {
            Ok(())
        } else {
            Err(ErrorCode::MustHaveSupplyOne)
        },
        Err(error) => Err(error),
    }
}

/// Rejects an asset that is not unique with `MustHaveSupplyOne`.
pub fn assert_unique(ledger: &Ledger, asset: &Pubkey) -> (checked: Result<(), ErrorCode>)
    requires
        ledger.wf(),
    ensures
        checked == unique_check(ledger@.mint(*asset)),
{
    match ledger.mint(asset) {
        Ok(mint) => if has_supply_one(&mint) {
            Ok(())
        } else {
            Err(ErrorCode::MustHaveSupplyOne)
        },
        Err(error) => Err(error),
    }
}

} // verus!
