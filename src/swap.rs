use vstd::prelude::*;

use crate::account::AccountId;
use crate::transfer::Transfer;

verus! {

/// Native units exchanged for one token unit, in either direction.
pub const NATIVE_PER_TOKEN: u64 = 10;

/// Why a swap was refused.
#[derive(Clone, Copy, Debug, PartialEq, Eq, Structural)]
pub enum SwapError {
    AmountTooSmall,
    InsufficientSolInVault,
    MathOverflow,
}

/// The record of the swap vault; its native balance and its token account are
/// the two reserves.
#[derive(Clone, Copy, Debug, PartialEq, Eq, Structural)]
pub struct VaultState {
    pub bump: u8,
}

/// Both legs of a swap, each between the user and the vault's reserve of that
/// asset.
#[derive(Clone, Copy, Debug, PartialEq, Eq)]
pub struct Exchange {
    pub native: Transfer,
    pub token: Transfer,
}

/// Creates the vault record.
pub fn initialize_vault(bump: u8) -> (r: VaultState)
    ensures
        r == (VaultState { bump }),
{
    VaultState { bump }
}

/// Swaps `sol_amount_lamports` native units of `user` for a tenth as many
/// token units, rounded down; the remainder stays in the vault. Fails with
/// `AmountTooSmall` below one token's worth.
pub fn swap_sol_to_mkn(user: AccountId, sol_amount_lamports: u64) -> (r: Result<Exchange, SwapError>)
    ensures
        sol_amount_lamports < NATIVE_PER_TOKEN ==> r == Err::<Exchange, SwapError>(
            SwapError::AmountTooSmall,
        ),
        sol_amount_lamports >= NATIVE_PER_TOKEN ==> r == Ok::<Exchange, SwapError>(
            (Exchange {
                native: Transfer::Deposit { from: user, amount: sol_amount_lamports },
                token: Transfer::Payout {
                    to: user,
                    amount: (sol_amount_lamports / NATIVE_PER_TOKEN) as u64,
                },
            }),
        ),
{
    if sol_amount_lamports < NATIVE_PER_TOKEN {
        return Err(SwapError::AmountTooSmall);
    }
    let mkn_amount = sol_amount_lamports / NATIVE_PER_TOKEN;
    Ok(
        Exchange {
            native: Transfer::Deposit { from: user, amount: sol_amount_lamports },
            token: Transfer::Payout { to: user, amount: mkn_amount },
        },
    )
}

/// Swaps `mkn_amount_units` token units of `user` for ten times as many
/// native units out of a vault holding `vault_lamports`. Fails with
/// `MathOverflow` when that many native units do not fit in 64 bits, then
/// with `InsufficientSolInVault` when the vault holds fewer.
pub fn swap_mkn_to_sol(user: AccountId, mkn_amount_units: u64, vault_lamports: u64) -> (r: Result<
    Exchange,
    SwapError,
>)
    ensures
        mkn_amount_units * NATIVE_PER_TOKEN > u64::MAX ==> r == Err::<Exchange, SwapError>(
            SwapError::MathOverflow,
        ),
        mkn_amount_units * NATIVE_PER_TOKEN <= u64::MAX && vault_lamports < mkn_amount_units
            * NATIVE_PER_TOKEN ==> r == Err::<Exchange, SwapError>(
            SwapError::InsufficientSolInVault,
        ),
        mkn_amount_units * NATIVE_PER_TOKEN <= vault_lamports ==> r == Ok::<Exchange, SwapError>(
            (Exchange {
                native: Transfer::Payout {
                    to: user,
                    amount: (mkn_amount_units * NATIVE_PER_TOKEN) as u64,
                },
                token: Transfer::Deposit { from: user, amount: mkn_amount_units },
            }),
        ),
{
    let sol_amount = match mkn_amount_units.checked_mul(NATIVE_PER_TOKEN) {
        Some(v) => v,
        None => {
            return Err(SwapError::MathOverflow);
        },
    };
    if vault_lamports < sol_amount {
        return Err(SwapError::InsufficientSolInVault);
    }
    Ok(
        Exchange {
            native: Transfer::Payout { to: user, amount: sol_amount },
            token: Transfer::Deposit { from: user, amount: mkn_amount_units },
        },
    )
}

} // verus!
