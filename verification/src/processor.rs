//! The processor: decodes a request, validates it, and plans the operation.
//!
//! An operation is all or nothing. The processor changes nothing itself: it
//! returns the steps for the host to perform and the record to store once
//! every step has succeeded, or the error that rejects the request.

use crate::address::{Address, Seed};
use crate::custody::{
    exchange_flow, initialize_flow, spec_exchange_flow, spec_initialize_flow, spec_vault_seed,
    vault_seed, CustodyAction, Plan, PlanView, VaultSetup,
};
use crate::error::{AMMErrors, PoolError};
use crate::instruction::AMMInstruction;
use crate::ledger::TokenAccount;
use crate::settlement::{
    lemma_settlement_conserves, settle, spec_settle, spec_settlement, Side,
};
use crate::state::AMM;
use crate::validation::{
    check_initial_mints, check_pool_address, spec_check_pool_address, spec_mints_fit,
    spec_swap_direction, swap_direction,
};
use vstd::prelude::*;

verus! {

/// An account as the request supplies it: its identity and the data it
/// holds when the operation starts.
#[derive(Debug, Clone, PartialEq, Eq)]
pub struct AccountSnapshot {
    pub key: Address,
    pub data: Vec<u8>,
}

/// The minimum funding for permanent storage of the two kinds of account
/// that pool creation allocates.
#[derive(Debug, Clone, Copy, PartialEq, Eq, Structural)]
pub struct FundingRules {
    /// For the 81 bytes of the pool record.
    pub record_minimum: u64,
    /// For the bytes of a token account.
    pub vault_minimum: u64,
}

/// The processor of the pool's two operations.
pub struct Processor;

impl Processor {
    /// What `Initialize` comes to on the given accounts. The checks fail in
    /// this order: too few accounts; the pool record's identity; a pool
    /// record that already holds data; the two starting deposits, as the
    /// token ledger decodes them; their assets; the funding rules; the
    /// vaults' identities.
    pub open spec fn spec_process_initialize(
        accounts: Seq<AccountSnapshot>,
        program_id: Address,
        funding: Option<FundingRules>,
    ) -> Result<PlanView, PoolError> {
        if accounts.len() < 11 {
            Err(PoolError::NotEnoughAccountKeys)
        } else {
            match spec_check_pool_address(accounts[1].key, program_id) {
                Err(e) => Err(e),
                Ok(record_derived) => if accounts[1].data@.len() != 0 {
                    Err(PoolError::AccountAlreadyInitialized)
                } else {
                    match TokenAccount::spec_unpack(accounts[2].data@) {
                        Err(e) => Err(e),
                        Ok(x_deposit) => match TokenAccount::spec_unpack(accounts[5].data@) {
                            Err(e) => Err(e),
                            Ok(y_deposit) => if !spec_mints_fit(
                                x_deposit,
                                y_deposit,
                                accounts[4].key,
                                accounts[7].key,
                            ) {
                                Err(PoolError::Custom(AMMErrors::TokenMintMismatch.spec_code()))
                            } else {
                                match (
                                    funding,
                                    Address::spec_derive(Seed::XVault, program_id),
                                    Address::spec_derive(Seed::YVault, program_id),
                                ) {
                                    (None, _, _) => Err(PoolError::InvalidArgument),
                                    (Some(rules), Some(x_derived), Some(y_derived)) => Ok(
                                        PlanView {
                                            actions: spec_initialize_flow(
                                                accounts[0].key,
                                                program_id,
                                                accounts[10].key,
                                                accounts[1].key,
                                                record_derived,
                                                VaultSetup {
                                                    side: Side::X,
                                                    vault: accounts[3].key,
                                                    derived: x_derived,
                                                    mint: accounts[4].key,
                                                    deposit: accounts[2].key,
                                                    amount: x_deposit.amount,
                                                },
                                                VaultSetup {
                                                    side: Side::Y,
                                                    vault: accounts[6].key,
                                                    derived: y_derived,
                                                    mint: accounts[7].key,
                                                    deposit: accounts[5].key,
                                                    amount: y_deposit.amount,
                                                },
                                                rules.record_minimum,
                                                rules.vault_minimum,
                                            ),
                                            record: AMM {
                                                is_initialized: true,
                                                x_mint: x_deposit.mint,
                                                x_amount: x_deposit.amount,
                                                y_mint: y_deposit.mint,
                                                y_amount: y_deposit.amount,
                                            },
                                        },
                                    ),
                                    _ => Err(PoolError::InvalidSeeds),
                                }
                            },
                        },
                    }
                },
            }
        }
    }

    /// What `Exchange` comes to on the given accounts. The checks fail in
    /// this order: too few accounts; the pool record's identity; the pool
    /// record's data; the input and the output account, as the token ledger
    /// decodes them; their assets; the settlement; the paying vault's
    /// identity.
    pub open spec fn spec_process_exchange(
        accounts: Seq<AccountSnapshot>,
        program_id: Address,
    ) -> Result<PlanView, PoolError> {
        if accounts.len() < 7 {
            Err(PoolError::NotEnoughAccountKeys)
        } else {
            match spec_check_pool_address(accounts[1].key, program_id) {
                Err(e) => Err(e),
                Ok(_) => match AMM::spec_unpack(accounts[1].data@) {
                    Err(e) => Err(e),
                    Ok(record) => match TokenAccount::spec_unpack(accounts[2].data@) {
                        Err(e) => Err(e),
                        Ok(input) => match TokenAccount::spec_unpack(accounts[3].data@) {
                            Err(e) => Err(e),
                            Ok(output) => match spec_swap_direction(
                                record,
                                input.mint,
                                output.mint,
                            ) {
                                Err(e) => Err(e),
                                Ok(deposited) => match spec_settle(
                                    record.x_amount,
                                    record.y_amount,
                                    input.amount,
                                    deposited,
                                ) {
                                    Err(e) => Err(e),
                                    Ok(settlement) => match Address::spec_derive(
                                        spec_vault_seed(settlement.paying),
                                        program_id,
                                    ) {
                                        None => Err(PoolError::InvalidSeeds),
                                        Some(paying) => Ok(
                                            PlanView {
                                                actions: spec_exchange_flow(
                                                    accounts[0].key,
                                                    accounts[6].key,
                                                    accounts[2].key,
                                                    accounts[3].key,
                                                    accounts[4].key,
                                                    accounts[5].key,
                                                    input.amount,
                                                    settlement,
                                                    paying,
                                                ),
                                                record: AMM {
                                                    is_initialized: record.is_initialized,
                                                    x_mint: record.x_mint,
                                                    x_amount: settlement.new_x,
                                                    y_mint: record.y_mint,
                                                    y_amount: settlement.new_y,
                                                },
                                            },
                                        ),
                                    },
                                },
                            },
                        },
                    },
                },
            }
        }
    }

    /// What a request comes to: the operation that its data encodes, on
    /// its accounts.
    pub open spec fn spec_process(
        program_id: Address,
        accounts: Seq<AccountSnapshot>,
        instruction_data: Seq<u8>,
        funding: Option<FundingRules>,
    ) -> Result<PlanView, PoolError> {
        match AMMInstruction::spec_unpack(instruction_data) {
            Err(e) => Err(e),
            Ok(AMMInstruction::Initialize) => Processor::spec_process_initialize(
                accounts,
                program_id,
                funding,
            ),
            Ok(AMMInstruction::Exchange) => Processor::spec_process_exchange(accounts, program_id),
        }
    }

    /// Whether a plan is the outcome `expected`.
    pub open spec fn matches_plan(
        r: Result<Plan, PoolError>,
        expected: Result<PlanView, PoolError>,
    ) -> bool {
        match r {
            Ok(plan) => expected == Ok::<PlanView, PoolError>(plan@),
            Err(e) => expected == Err::<PlanView, PoolError>(e),
        }
    }

    /// Decodes the request and plans its operation. `funding` is `None`
    /// where the host could not read the funding rules; only `Initialize`
    /// asks for them.
    pub fn process(
        program_id: &Address,
        accounts: &[AccountSnapshot],
        instruction_data: &[u8],
        funding: Option<FundingRules>,
    ) -> (r: Result<Plan, PoolError>)
        ensures
            Processor::matches_plan(
                r,
                Processor::spec_process(*program_id, accounts@, instruction_data@, funding),
            ),
    {
        match AMMInstruction::unpack(instruction_data) {
            Err(e) => Err(e),
            Ok(AMMInstruction::Initialize) => Processor::process_initialize(
                accounts,
                program_id,
                funding,
            ),
            Ok(AMMInstruction::Exchange) => Processor::process_exchange(accounts, program_id),
        }
    }

    /// Plans the creation of the pool: the record and the two vaults are
    /// allocated, each vault is initialized for its asset and takes the
    /// whole of its starting deposit, and the record stores the two assets
    /// with those balances.
    pub fn process_initialize(
        accounts: &[AccountSnapshot],
        program_id: &Address,
        funding: Option<FundingRules>,
    ) -> (r: Result<Plan, PoolError>)
        ensures
            Processor::matches_plan(
                r,
                Processor::spec_process_initialize(accounts@, *program_id, funding),
            ),
            accounts@.len() > 1 && accounts@[1].data@.len() > 0 ==> r is Err,
            r matches Ok(plan) ==> plan.record.is_initialized && plan.record.well_formed(),
    {
        if accounts.len() < 11 {
            return Err(PoolError::NotEnoughAccountKeys);
        }
        let owner_account = &accounts[0];
        let amm_data_account = &accounts[1];
        let x_temp_account = &accounts[2];
        let x_vault_account = &accounts[3];
        let x_mint_account = &accounts[4];
        let y_temp_account = &accounts[5];
        let y_vault_account = &accounts[6];
        let y_mint_account = &accounts[7];
        let token_program = &accounts[10];

        let record_derived = match check_pool_address(&amm_data_account.key, program_id) {
            Ok(derived) => derived,
            Err(e) => {
                return Err(e);
            },
        };
        if amm_data_account.data.len() != 0 {
            return Err(PoolError::AccountAlreadyInitialized);
        }
        let x_temp_data = match TokenAccount::unpack(x_temp_account.data.as_slice()) {
            Ok(account) => account,
            Err(e) => {
                return Err(e);
            },
        };
        let y_temp_data = match TokenAccount::unpack(y_temp_account.data.as_slice()) {
            Ok(account) => account,
            Err(e) => {
                return Err(e);
            },
        };
        match check_initial_mints(
            &x_temp_data,
            &y_temp_data,
            &x_mint_account.key,
            &y_mint_account.key,
        ) {
            Ok(()) => {},
            Err(e) => {
                return Err(e);
            },
        }
        let rules = match funding {
            Some(rules) => rules,
            None => {
                return Err(PoolError::InvalidArgument);
            },
        };
        let x_derived = match Address::derive(Seed::XVault, program_id) {
            Some(derived) => derived,
            None => {
                return Err(PoolError::InvalidSeeds);
            },
        };
        let y_derived = match Address::derive(Seed::YVault, program_id) {
            Some(derived) => derived,
            None => {
                return Err(PoolError::InvalidSeeds);
            },
        };
        let x_setup = VaultSetup {
            side: Side::X,
            vault: x_vault_account.key,
            derived: x_derived,
            mint: x_mint_account.key,
            deposit: x_temp_account.key,
            amount: x_temp_data.amount,
        };
        let y_setup = VaultSetup {
            side: Side::Y,
            vault: y_vault_account.key,
            derived: y_derived,
            mint: y_mint_account.key,
            deposit: y_temp_account.key,
            amount: y_temp_data.amount,
        };
        let actions = initialize_flow(
            &owner_account.key,
            program_id,
            &token_program.key,
            &amm_data_account.key,
            &record_derived,
            &x_setup,
            &y_setup,
            rules.record_minimum,
            rules.vault_minimum,
        );
        let record = AMM {
            is_initialized: true,
            x_mint: x_temp_data.mint,
            x_amount: x_temp_data.amount,
            y_mint: y_temp_data.mint,
            y_amount: y_temp_data.amount,
        };
        Ok(Plan { actions, record })
    }

    /// Plans a swap: the user's whole deposit goes to the vault of its
    /// asset, the other vault pays the settled output to the user, and the
    /// record stores the settled reserves.
    pub fn process_exchange(accounts: &[AccountSnapshot], program_id: &Address) -> (r: Result<
        Plan,
        PoolError,
    >)
        ensures
            Processor::matches_plan(r, Processor::spec_process_exchange(accounts@, *program_id)),
            r matches Ok(plan) ==> {
                &&& AMM::spec_unpack(accounts@[1].data@) matches Ok(stored)
                &&& TokenAccount::spec_unpack(accounts@[2].data@) matches Ok(input)
                &&& TokenAccount::spec_unpack(accounts@[3].data@) matches Ok(output)
                &&& (input.mint == stored.x_mint && output.mint == stored.y_mint) || (input.mint
                    == stored.y_mint && output.mint == stored.x_mint)
                &&& plan.record.is_initialized
                &&& plan.record.x_mint == stored.x_mint
                &&& plan.record.y_mint == stored.y_mint
            },
    {
        if accounts.len() < 7 {
            return Err(PoolError::NotEnoughAccountKeys);
        }
        let user_account = &accounts[0];
        let amm_data_account = &accounts[1];
        let temp_first_token_account = &accounts[2];
        let user_second_token_account = &accounts[3];
        let x_token_vault = &accounts[4];
        let y_token_vault = &accounts[5];
        let token_program = &accounts[6];

        match check_pool_address(&amm_data_account.key, program_id) {
            Ok(_) => {},
            Err(e) => {
                return Err(e);
            },
        }
        let amm_data = match AMM::unpack(amm_data_account.data.as_slice()) {
            Ok(record) => record,
            Err(e) => {
                return Err(e);
            },
        };
        let temp_first_token_account_data = match TokenAccount::unpack(
            temp_first_token_account.data.as_slice(),
        ) {
            Ok(account) => account,
            Err(e) => {
                return Err(e);
            },
        };
        let user_second_token_account_data = match TokenAccount::unpack(
            user_second_token_account.data.as_slice(),
        ) {
            Ok(account) => account,
            Err(e) => {
                return Err(e);
            },
        };
        let deposited = match swap_direction(
            &amm_data,
            &temp_first_token_account_data.mint,
            &user_second_token_account_data.mint,
        ) {
            Ok(side) => side,
            Err(e) => {
                return Err(e);
            },
        };
        let settlement = match settle(
            amm_data.x_amount,
            amm_data.y_amount,
            temp_first_token_account_data.amount,
            deposited,
        ) {
            Ok(settlement) => settlement,
            Err(e) => {
                return Err(e);
            },
        };
        let paying = match Address::derive(vault_seed(settlement.paying), program_id) {
            Some(derived) => derived,
            None => {
                return Err(PoolError::InvalidSeeds);
            },
        };
        let actions = exchange_flow(
            &user_account.key,
            &token_program.key,
            &temp_first_token_account.key,
            &user_second_token_account.key,
            &x_token_vault.key,
            &y_token_vault.key,
            temp_first_token_account_data.amount,
            &settlement,
            &paying,
        );
        let record = AMM {
            is_initialized: amm_data.is_initialized,
            x_mint: amm_data.x_mint,
            x_amount: settlement.new_x,
            y_mint: amm_data.y_mint,
            y_amount: settlement.new_y,
        };
        Ok(Plan { actions, record })
    }

    /// `Initialize` fails on a pool-record account that already holds data,
    /// and with `AccountAlreadyInitialized` where the request is otherwise
    /// in order up to that check.
    pub proof fn lemma_initialize_only_once(
        accounts: Seq<AccountSnapshot>,
        program_id: Address,
        funding: Option<FundingRules>,
    )
        requires
            accounts.len() > 1,
            accounts[1].data@.len() > 0,
        ensures
            Processor::spec_process_initialize(accounts, program_id, funding) is Err,
            accounts.len() >= 11 && spec_check_pool_address(accounts[1].key, program_id) is Ok
                ==> Processor::spec_process_initialize(accounts, program_id, funding) == Err::<
                PlanView,
                PoolError,
            >(PoolError::AccountAlreadyInitialized),
    {
    }

    /// A successful `Initialize` stores an initialized record of two
    /// different assets, with the starting deposits as its reserves.
    pub proof fn lemma_initialize_stores_deposits(
        accounts: Seq<AccountSnapshot>,
        program_id: Address,
        funding: Option<FundingRules>,
    )
        requires
            Processor::spec_process_initialize(accounts, program_id, funding) is Ok,
        ensures
            ({
                let record = Processor::spec_process_initialize(
                    accounts,
                    program_id,
                    funding,
                ).unwrap().record;
                &&& record.is_initialized
                &&& record.well_formed()
                &&& TokenAccount::spec_unpack(accounts[2].data@) matches Ok(x_deposit)
                &&& TokenAccount::spec_unpack(accounts[5].data@) matches Ok(y_deposit)
                &&& record.x_mint == x_deposit.mint && record.x_amount == x_deposit.amount
                &&& record.y_mint == y_deposit.mint && record.y_amount == y_deposit.amount
            }),
    {
    }

    /// `Exchange` is rejected unless the pool-record account holds an
    /// initialized record.
    pub proof fn lemma_exchange_needs_initialized_record(
        accounts: Seq<AccountSnapshot>,
        program_id: Address,
    )
        requires
            accounts.len() > 1,
            !(AMM::spec_unpack(accounts[1].data@) matches Ok(record) && record.is_initialized),
        ensures
            Processor::spec_process_exchange(accounts, program_id) is Err,
    {
    }

    /// On a request that is in order up to the check of the assets,
    /// `Exchange` fails with `TokenMintMismatch` unless the input account's
    /// asset is one of the two stored identities and the output account's
    /// asset is the other; and no `Exchange` succeeds otherwise.
    pub proof fn lemma_exchange_needs_both_assets(
        accounts: Seq<AccountSnapshot>,
        program_id: Address,
        stored: AMM,
        input: TokenAccount,
        output: TokenAccount,
    )
        requires
            accounts.len() >= 7,
            spec_check_pool_address(accounts[1].key, program_id) is Ok,
            AMM::spec_unpack(accounts[1].data@) == Ok::<AMM, PoolError>(stored),
            TokenAccount::spec_unpack(accounts[2].data@) == Ok::<TokenAccount, PoolError>(input),
            TokenAccount::spec_unpack(accounts[3].data@) == Ok::<TokenAccount, PoolError>(output),
        ensures
            !((input.mint == stored.x_mint && output.mint == stored.y_mint) || (input.mint
                == stored.y_mint && output.mint == stored.x_mint))
                ==> Processor::spec_process_exchange(accounts, program_id) == Err::<
                PlanView,
                PoolError,
            >(PoolError::Custom(AMMErrors::TokenMintMismatch.spec_code())),
            Processor::spec_process_exchange(accounts, program_id) is Ok ==> (input.mint
                == stored.x_mint && output.mint == stored.y_mint) || (input.mint == stored.y_mint
                && output.mint == stored.x_mint),
    {
    }

    /// A successful `Exchange` keeps the record initialized and its two
    /// assets as they were, and stores the settled reserves.
    pub proof fn lemma_exchange_keeps_assets(accounts: Seq<AccountSnapshot>, program_id: Address)
        requires
            Processor::spec_process_exchange(accounts, program_id) is Ok,
        ensures
            ({
                let record = Processor::spec_process_exchange(accounts, program_id).unwrap().record;
                &&& AMM::spec_unpack(accounts[1].data@) matches Ok(stored)
                &&& TokenAccount::spec_unpack(accounts[2].data@) matches Ok(input)
                &&& TokenAccount::spec_unpack(accounts[3].data@) matches Ok(output)
                &&& spec_swap_direction(stored, input.mint, output.mint) matches Ok(deposited)
                &&& record.is_initialized
                &&& record.x_mint == stored.x_mint
                &&& record.y_mint == stored.y_mint
                &&& stored.well_formed() ==> record.well_formed()
                &&& record.x_amount == spec_settlement(
                    stored.x_amount,
                    stored.y_amount,
                    input.amount,
                    deposited,
                ).new_x
                &&& record.y_amount == spec_settlement(
                    stored.x_amount,
                    stored.y_amount,
                    input.amount,
                    deposited,
                ).new_y
            }),
    {
    }

    /// A successful `Initialize` moves into each vault exactly the balance
    /// that the record then stores for its asset.
    pub proof fn lemma_initialize_books_what_it_moves(
        accounts: Seq<AccountSnapshot>,
        program_id: Address,
        funding: Option<FundingRules>,
    )
        requires
            Processor::spec_process_initialize(accounts, program_id, funding) is Ok,
        ensures
            ({
                let plan = Processor::spec_process_initialize(accounts, program_id, funding).unwrap();
                &&& plan.actions.len() == 7
                &&& plan.actions[3] == CustodyAction::Transfer {
                    ledger: accounts[10].key,
                    source: accounts[2].key,
                    destination: accounts[3].key,
                    authority: accounts[0].key,
                    amount: plan.record.x_amount,
                    signer: None,
                }
                &&& plan.actions[6] == CustodyAction::Transfer {
                    ledger: accounts[10].key,
                    source: accounts[5].key,
                    destination: accounts[6].key,
                    authority: accounts[0].key,
                    amount: plan.record.y_amount,
                    signer: None,
                }
            }),
    {
    }

    /// A successful `Exchange` books what it moves: the reserve of the
    /// deposited asset grows by the amount that goes into its vault, and
    /// the other reserve shrinks by the amount that its vault pays out.
    pub proof fn lemma_exchange_books_what_it_moves(
        accounts: Seq<AccountSnapshot>,
        program_id: Address,
    )
        requires
            Processor::spec_process_exchange(accounts, program_id) is Ok,
        ensures
            ({
                let plan = Processor::spec_process_exchange(accounts, program_id).unwrap();
                &&& AMM::spec_unpack(accounts[1].data@) matches Ok(stored)
                &&& plan.actions.len() == 2
                &&& plan.actions[0] matches CustodyAction::Transfer {
                    destination: receiving,
                    amount: moved_in,
                    ..
                }
                &&& plan.actions[1] matches CustodyAction::Transfer {
                    source: paying,
                    amount: moved_out,
                    ..
                }
                &&& {
                    ||| {
                        &&& receiving == accounts[4].key
                        &&& paying == accounts[5].key
                        &&& plan.record.x_amount == stored.x_amount + moved_in
                        &&& plan.record.y_amount + moved_out == stored.y_amount
                    }
                    ||| {
                        &&& receiving == accounts[5].key
                        &&& paying == accounts[4].key
                        &&& plan.record.y_amount == stored.y_amount + moved_in
                        &&& plan.record.x_amount + moved_out == stored.x_amount
                    }
                }
            }),
    {
        let stored = AMM::spec_unpack(accounts[1].data@).unwrap();
        let input = TokenAccount::spec_unpack(accounts[2].data@).unwrap();
        let output = TokenAccount::spec_unpack(accounts[3].data@).unwrap();
        let deposited = spec_swap_direction(stored, input.mint, output.mint).unwrap();
        lemma_settlement_conserves(stored.x_amount, stored.y_amount, input.amount, deposited);
    }
}

} // verus!
