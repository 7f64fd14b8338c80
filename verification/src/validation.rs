//! The validation layer: the checks that come before any change of state.

use crate::address::{Address, Derived, Seed};
use crate::error::{AMMErrors, PoolError};
use crate::ledger::TokenAccount;
use crate::settlement::Side;
use crate::state::AMM;
use vstd::prelude::*;

verus! {

/// The outcome of checking a supplied pool-record identity against the one
/// derived from the seed `data`: the derivation where they agree,
/// `DataAccountMismatch` where they differ, `InvalidSeeds` where nothing
/// can be derived.
pub open spec fn spec_check_pool_address(supplied: Address, program: Address) -> Result<
    Derived,
    PoolError,
> {
    match Address::spec_derive(Seed::Data, program) {
        Some(derived) => if supplied == derived.address {
            Ok(derived)
        } else {
            Err(PoolError::Custom(AMMErrors::DataAccountMismatch.spec_code()))
        },
        None => Err(PoolError::InvalidSeeds),
    }
}

/// Checks that `supplied` is the pool record's derived identity.
pub fn check_pool_address(supplied: &Address, program: &Address) -> (r: Result<Derived, PoolError>)
    ensures
        r == spec_check_pool_address(*supplied, *program),
{
    match Address::derive(Seed::Data, program) {
        Some(derived) => {
            if *supplied == derived.address {
                Ok(derived)
            } else {
                Err(PoolError::from(AMMErrors::DataAccountMismatch))
            }
        },
        None => Err(PoolError::InvalidSeeds),
    }
}

/// Whether the two starting deposits fit the two assets supplied: each
/// deposit holds its asset, and the assets differ.
pub open spec fn spec_mints_fit(
    x_deposit: TokenAccount,
    y_deposit: TokenAccount,
    x_mint: Address,
    y_mint: Address,
) -> bool {
    x_deposit.mint == x_mint && y_deposit.mint == y_mint && y_mint != x_mint
}

/// Checks the starting deposits against the assets supplied;
/// `TokenMintMismatch` where they do not fit.
pub fn check_initial_mints(
    x_deposit: &TokenAccount,
    y_deposit: &TokenAccount,
    x_mint: &Address,
    y_mint: &Address,
) -> (r: Result<(), PoolError>)
    ensures
        spec_mints_fit(*x_deposit, *y_deposit, *x_mint, *y_mint) ==> r == Ok::<(), PoolError>(()),
        !spec_mints_fit(*x_deposit, *y_deposit, *x_mint, *y_mint) ==> r == Err::<(), PoolError>(
            PoolError::Custom(AMMErrors::TokenMintMismatch.spec_code()),
        ),
{
    if x_deposit.mint != *x_mint || y_deposit.mint != *y_mint || *y_mint == *x_mint {
        Err(PoolError::from(AMMErrors::TokenMintMismatch))
    } else {
        Ok(())
    }
}

/// Which asset a swap deposits: X where the input account holds the stored
/// X and the output account the stored Y, Y the other way round, and
/// `TokenMintMismatch` in every other case.
pub open spec fn spec_swap_direction(record: AMM, input: Address, output: Address) -> Result<
    Side,
    PoolError,
> {
    if input == record.x_mint && output == record.y_mint {
        Ok(Side::X)
    } else if input == record.y_mint && output == record.x_mint {
        Ok(Side::Y)
    } else {
        Err(PoolError::Custom(AMMErrors::TokenMintMismatch.spec_code()))
    }
}

/// Finds which asset a swap deposits, from the assets of the caller's
/// input and output accounts.
pub fn swap_direction(record: &AMM, input: &Address, output: &Address) -> (r: Result<
    Side,
    PoolError,
>)
    ensures
        r == spec_swap_direction(*record, *input, *output),
{
    if *input == record.x_mint && *output == record.y_mint {
        Ok(Side::X)
    } else if *input == record.y_mint && *output == record.x_mint {
        Ok(Side::Y)
    } else {
        Err(PoolError::from(AMMErrors::TokenMintMismatch))
    }
}

/// A swap has a direction exactly when the input account's asset is one of
/// the two stored identities and the output account's asset is the other.
pub proof fn lemma_direction_needs_both_assets(record: AMM, input: Address, output: Address)
    ensures
        spec_swap_direction(record, input, output) is Ok <==> (input == record.x_mint && output
            == record.y_mint) || (input == record.y_mint && output == record.x_mint),
        spec_swap_direction(record, input, output) is Err ==> spec_swap_direction(
            record,
            input,
            output,
        ) == Err::<Side, PoolError>(PoolError::Custom(AMMErrors::TokenMintMismatch.spec_code())),
{
}

} // verus!
