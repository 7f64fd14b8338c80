//! The wire format of the two operations, and the requests that invoke
//! them.

use crate::address::{Address, PoolAddresses};
use crate::error::{AMMErrors, PoolError};
use vstd::prelude::*;

verus! {

/// The operations of the pool.
#[derive(Debug, Clone, Copy, PartialEq, Eq, Structural)]
pub enum AMMInstruction {
    /// Creates the pool.
    ///
    /// Accounts expected:
    ///
    /// 0. `[signer]` Owner
    /// 1. `[writable]` Pool record
    /// 2. `[writable]` Initial X token account
    /// 3. `[writable]` X token vault
    /// 4. `[]` X token mint
    /// 5. `[writable]` Initial Y token account
    /// 6. `[writable]` Y token vault
    /// 7. `[]` Y token mint
    /// 8. `[]` Storage allocator
    /// 9. `[]` Funding rules
    /// 10. `[]` Token ledger
    Initialize,
    /// Swaps one asset for the other.
    ///
    /// Accounts expected:
    ///
    /// 0. `[signer]` User
    /// 1. `[writable]` Pool record
    /// 2. `[writable]` Temporary account holding the deposit
    /// 3. `[writable]` User's account for the other asset
    /// 4. `[writable]` X token vault
    /// 5. `[writable]` Y token vault
    /// 6. `[]` Token ledger
    Exchange,
}

impl AMMInstruction {
    /// The operation that `input` encodes: its first byte is the tag, 0 for
    /// `Initialize` and 1 for `Exchange`.
    pub open spec fn spec_unpack(input: Seq<u8>) -> Result<AMMInstruction, PoolError> {
        if input.len() == 0 {
            Err(PoolError::Custom(AMMErrors::InvalidInstructionData.spec_code()))
        } else if input[0] == 0 {
            Ok(AMMInstruction::Initialize)
        } else if input[0] == 1 {
            Ok(AMMInstruction::Exchange)
        } else {
            Err(PoolError::Custom(AMMErrors::InvalidInstructionMethodID.spec_code()))
        }
    }

    /// The encoding of the operation: its tag byte alone.
    pub open spec fn spec_pack(self) -> Seq<u8> {
        match self {
            AMMInstruction::Initialize => seq![0u8],
            AMMInstruction::Exchange => seq![1u8],
        }
    }

    /// Decodes an operation from its tag byte.
    pub fn unpack(input: &[u8]) -> (r: Result<AMMInstruction, PoolError>)
        ensures
            r == AMMInstruction::spec_unpack(input@),
    {
        if input.len() == 0 {
            return Err(PoolError::from(AMMErrors::InvalidInstructionData));
        }
        let tag = input[0];
        if tag == 0 {
            Ok(AMMInstruction::Initialize)
        } else if tag == 1 {
            Ok(AMMInstruction::Exchange)
        } else {
            Err(PoolError::from(AMMErrors::InvalidInstructionMethodID))
        }
    }

    /// Encodes the operation as its tag byte.
    pub fn pack(&self) -> (buf: Vec<u8>)
        ensures
            buf@ == self.spec_pack(),
    {
        let mut buf: Vec<u8> = Vec::with_capacity(1);
        match self {
            AMMInstruction::Initialize => buf.push(0),
            AMMInstruction::Exchange => buf.push(1),
        }
        assert(buf@ =~= self.spec_pack());
        buf
    }

    /// Decoding the encoding of an operation gives the operation back.
    pub proof fn lemma_unpack_of_pack(op: AMMInstruction)
        ensures
            AMMInstruction::spec_unpack(op.spec_pack()) == Ok::<AMMInstruction, PoolError>(op),
    {
    }

    /// Only the first byte counts: what follows the tag changes nothing.
    pub proof fn lemma_unpack_reads_tag(input: Seq<u8>, more: Seq<u8>)
        requires
            input.len() > 0,
        ensures
            AMMInstruction::spec_unpack(input + more) == AMMInstruction::spec_unpack(input),
    {
    }
}

/// One account of a request, with what the request may do to it.
#[derive(Debug, Clone, Copy, PartialEq, Eq)]
pub struct AccountMeta {
    pub pubkey: Address,
    pub is_signer: bool,
    pub is_writable: bool,
}

impl AccountMeta {
    /// A writable account.
    pub open spec fn spec_new(pubkey: Address, is_signer: bool) -> AccountMeta {
        AccountMeta { pubkey, is_signer, is_writable: true }
    }

    /// A read-only account.
    pub open spec fn spec_new_readonly(pubkey: Address, is_signer: bool) -> AccountMeta {
        AccountMeta { pubkey, is_signer, is_writable: false }
    }

    /// A writable account.
    pub fn new(pubkey: Address, is_signer: bool) -> (meta: AccountMeta)
        ensures
            meta == AccountMeta::spec_new(pubkey, is_signer),
    {
        AccountMeta { pubkey, is_signer, is_writable: true }
    }

    /// A read-only account.
    pub fn new_readonly(pubkey: Address, is_signer: bool) -> (meta: AccountMeta)
        ensures
            meta == AccountMeta::spec_new_readonly(pubkey, is_signer),
    {
        AccountMeta { pubkey, is_signer, is_writable: false }
    }
}

/// A request to a program: the program, the accounts in the order the
/// operation expects them, and the encoded operation.
#[derive(Debug, Clone, PartialEq, Eq)]
pub struct Instruction {
    pub program_id: Address,
    pub accounts: Vec<AccountMeta>,
    pub data: Vec<u8>,
}

/// The accounts of an `Initialize` request, in order.
pub open spec fn spec_initialize_accounts(
    owner_pubkey: Address,
    temp_x_token: Address,
    x_mint: Address,
    temp_y_token: Address,
    y_mint: Address,
    token_program_id: Address,
    pool: PoolAddresses,
) -> Seq<AccountMeta> {
    seq![
        AccountMeta::spec_new(owner_pubkey, true),
        AccountMeta::spec_new(pool.data.address, false),
        AccountMeta::spec_new(temp_x_token, false),
        AccountMeta::spec_new(pool.x_vault.address, false),
        AccountMeta::spec_new_readonly(x_mint, false),
        AccountMeta::spec_new(temp_y_token, false),
        AccountMeta::spec_new(pool.y_vault.address, false),
        AccountMeta::spec_new_readonly(y_mint, false),
        AccountMeta::spec_new_readonly(Address::spec_system_program(), false),
        AccountMeta::spec_new_readonly(Address::spec_rent_sysvar(), false),
        AccountMeta::spec_new_readonly(token_program_id, false),
    ]
}

/// The accounts of an `Exchange` request, in order.
pub open spec fn spec_exchange_accounts(
    user_pubkey: Address,
    temp_first_token_account: Address,
    user_second_token_account: Address,
    token_program_id: Address,
    pool: PoolAddresses,
) -> Seq<AccountMeta> {
    seq![
        AccountMeta::spec_new(user_pubkey, true),
        AccountMeta::spec_new(pool.data.address, false),
        AccountMeta::spec_new(temp_first_token_account, false),
        AccountMeta::spec_new(user_second_token_account, false),
        AccountMeta::spec_new(pool.x_vault.address, false),
        AccountMeta::spec_new(pool.y_vault.address, false),
        AccountMeta::spec_new_readonly(token_program_id, false),
    ]
}

/// Creates an `Initialize` request for the pool of `amm_program_id`.
/// `None` where one of the pool's identities cannot be derived.
pub fn initialize_amm(
    owner_pubkey: &Address,
    temp_x_token: &Address,
    x_mint: &Address,
    temp_y_token: &Address,
    y_mint: &Address,
    amm_program_id: &Address,
    token_program_id: &Address,
) -> (r: Option<Instruction>)
    ensures
        r is Some <==> PoolAddresses::spec_derive(*amm_program_id) is Some,
        r matches Some(request) ==> {
            &&& request.program_id == *amm_program_id
            &&& request.data@ == AMMInstruction::Initialize.spec_pack()
            &&& request.accounts@ == spec_initialize_accounts(
                *owner_pubkey,
                *temp_x_token,
                *x_mint,
                *temp_y_token,
                *y_mint,
                *token_program_id,
                PoolAddresses::spec_derive(*amm_program_id).unwrap(),
            )
        },
{
    let data = AMMInstruction::Initialize.pack();
    let pool = match PoolAddresses::derive(amm_program_id) {
        Some(p) => p,
        None => {
            return None;
        },
    };
    let system_program = Address::system_program();
    let rent_sysvar = Address::rent_sysvar();
    let accounts = vec![
        AccountMeta::new(*owner_pubkey, true),
        AccountMeta::new(pool.data.address, false),
        AccountMeta::new(*temp_x_token, false),
        AccountMeta::new(pool.x_vault.address, false),
        AccountMeta::new_readonly(*x_mint, false),
        AccountMeta::new(*temp_y_token, false),
        AccountMeta::new(pool.y_vault.address, false),
        AccountMeta::new_readonly(*y_mint, false),
        AccountMeta::new_readonly(system_program, false),
        AccountMeta::new_readonly(rent_sysvar, false),
        AccountMeta::new_readonly(*token_program_id, false),
    ];
    assert(accounts@ =~= spec_initialize_accounts(
        *owner_pubkey,
        *temp_x_token,
        *x_mint,
        *temp_y_token,
        *y_mint,
        *token_program_id,
        pool,
    ));
    Some(Instruction { program_id: *amm_program_id, accounts, data })
}

/// Creates an `Exchange` request for the pool of `amm_program_id`. `None`
/// where one of the pool's identities cannot be derived.
pub fn exchange(
    user_pubkey: &Address,
    temp_first_token_account: &Address,
    user_second_token_account: &Address,
    token_program_id: &Address,
    amm_program_id: &Address,
) -> (r: Option<Instruction>)
    ensures
        r is Some <==> PoolAddresses::spec_derive(*amm_program_id) is Some,
        r matches Some(request) ==> {
            &&& request.program_id == *amm_program_id
            &&& request.data@ == AMMInstruction::Exchange.spec_pack()
            &&& request.accounts@ == spec_exchange_accounts(
                *user_pubkey,
                *temp_first_token_account,
                *user_second_token_account,
                *token_program_id,
                PoolAddresses::spec_derive(*amm_program_id).unwrap(),
            )
        },
{
    let data = AMMInstruction::Exchange.pack();
    let pool = match PoolAddresses::derive(amm_program_id) {
        Some(p) => p,
        None => {
            return None;
        },
    };
    let accounts = vec![
        AccountMeta::new(*user_pubkey, true),
        AccountMeta::new(pool.data.address, false),
        AccountMeta::new(*temp_first_token_account, false),
        AccountMeta::new(*user_second_token_account, false),
        AccountMeta::new(pool.x_vault.address, false),
        AccountMeta::new(pool.y_vault.address, false),
        AccountMeta::new_readonly(*token_program_id, false),
    ];
    assert(accounts@ =~= spec_exchange_accounts(
        *user_pubkey,
        *temp_first_token_account,
        *user_second_token_account,
        *token_program_id,
        pool,
    ));
    Some(Instruction { program_id: *amm_program_id, accounts, data })
}

} // verus!
