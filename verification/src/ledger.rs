//! What the pool reads of the token ledger's accounts.

use crate::address::Address;
use crate::error::PoolError;
use solana_program::program_error::ProgramError;
use solana_program::program_pack::Pack;
use vstd::prelude::*;

verus! {

/// What the token ledger's decoder makes of an account's data: the asset
/// identity and the balance, or the error with which it rejects the data.
pub uninterp spec fn token_account_reading(data: Seq<u8>) -> Result<(Seq<u8>, u64), PoolError>;

/// Calls `spl_token::state::Account::unpack` and keeps the two fields that
/// the pool reads. The decoder fails with `UninitializedAccount` or with
/// `InvalidAccountData` and with nothing else, so every other error is
/// handed on as the latter. The contract only names the outcome.
#[verifier::external_body]
fn unpack_token_account(data: &[u8]) -> (r: Result<TokenAccount, PoolError>)
    ensures
        match r {
            Ok(account) => token_account_reading(data@) == Ok::<(Seq<u8>, u64), PoolError>(
                (account.mint@, account.amount),
            ),
            Err(e) => token_account_reading(data@) == Err::<(Seq<u8>, u64), PoolError>(e),
        },
{
    match spl_token::state::Account::unpack(data) {
        Ok(account) => Ok(
            TokenAccount { mint: Address { bytes: account.mint.to_bytes() }, amount: account.amount },
        ),
        Err(ProgramError::UninitializedAccount) => Err(PoolError::UninitializedAccount),
        Err(_) => Err(PoolError::InvalidAccountData),
    }
}

/// Calls `spl_token::state::Account::get_packed_len`: a token account takes
/// 165 bytes.
#[verifier::external_body]
fn token_account_len() -> (len: u64)
    ensures
        len == TokenAccount::LEN,
{
    spl_token::state::Account::get_packed_len() as u64
}

/// The part of a token account that the pool reads: which asset it holds,
/// and how much.
#[derive(Debug, Clone, Copy, PartialEq, Eq)]
pub struct TokenAccount {
    pub mint: Address,
    pub amount: u64,
}

impl TokenAccount {
    /// The size of a token account's data in bytes.
    pub const LEN: u64 = 165;

    /// What decoding `data` gives.
    pub open spec fn spec_unpack(data: Seq<u8>) -> Result<TokenAccount, PoolError> {
        match token_account_reading(data) {
            Ok((mint, amount)) => Ok(TokenAccount { mint: Address::spec_from_bytes(mint), amount }),
            Err(e) => Err(e),
        }
    }

    /// Decodes the data of a token account, as the token ledger does.
    pub fn unpack(data: &[u8]) -> (r: Result<TokenAccount, PoolError>)
        ensures
            r == TokenAccount::spec_unpack(data@),
    {
        match unpack_token_account(data) {
            Ok(account) => {
                proof {
                    Address::lemma_from_bytes_of_view(account.mint);
                }
                Ok(account)
            },
            Err(e) => Err(e),
        }
    }

    /// The number of bytes to allocate for a token account.
    pub fn packed_len() -> (len: u64)
        ensures
            len == TokenAccount::LEN,
    {
        token_account_len()
    }
}

} // verus!
