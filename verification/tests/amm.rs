use solana_amm::address::{Address, PoolAddresses};
use solana_amm::custody::{CustodyAction, Plan};
use solana_amm::instruction::{exchange, initialize_amm, Instruction};
use solana_amm::ledger::TokenAccount;
use solana_amm::processor::{AccountSnapshot, FundingRules, Processor};
use solana_amm::state::AMM;
use std::collections::HashMap;

const X_DECIMALS: u32 = 8;
const Y_DECIMALS: u32 = 4;

const ONE_X: u64 = 10u64.pow(X_DECIMALS);
const ONE_Y: u64 = 10u64.pow(Y_DECIMALS);

/// A host in memory: the data of every account, and a counter for fresh keys.
struct Host {
    data: HashMap<Address, Vec<u8>>,
    fresh: u8,
}

impl Host {
    fn new() -> Host {
        Host { data: HashMap::new(), fresh: 0 }
    }

    fn fresh_key(&mut self) -> Address {
        self.fresh += 1;
        Address::new([self.fresh; 32])
    }

    fn write_token_account(&mut self, key: Address, mint: Address, amount: u64) {
        let mut data = vec![0u8; 165];
        data[..32].copy_from_slice(&mint.to_bytes());
        data[32..64].copy_from_slice(&key.to_bytes());
        data[64..72].copy_from_slice(&amount.to_le_bytes());
        data[108] = 1;
        self.data.insert(key, data);
    }

    fn create_token_account(&mut self, mint: Address, amount: u64) -> Address {
        let key = self.fresh_key();
        self.write_token_account(key, mint, amount);
        key
    }

    fn token_account(&self, key: Address) -> TokenAccount {
        TokenAccount::unpack(&self.data[&key]).unwrap()
    }

    fn balance_of(&self, key: Address) -> u64 {
        self.token_account(key).amount
    }

    fn set_balance(&mut self, key: Address, amount: u64) {
        let mint = self.token_account(key).mint;
        self.write_token_account(key, mint, amount);
    }

    fn transfer(&mut self, source: Address, destination: Address, amount: u64) {
        assert_eq!(self.token_account(source).mint, self.token_account(destination).mint);
        let left = self.balance_of(source).checked_sub(amount).unwrap();
        self.set_balance(source, left);
        let grown = self.balance_of(destination).checked_add(amount).unwrap();
        self.set_balance(destination, grown);
    }

    fn snapshots(&self, request: &Instruction) -> Vec<AccountSnapshot> {
        request
            .accounts
            .iter()
            .map(|meta| AccountSnapshot {
                key: meta.pubkey,
                data: self.data.get(&meta.pubkey).cloned().unwrap_or_default(),
            })
            .collect()
    }

    /// Performs the steps of a plan, then stores the record.
    fn perform(&mut self, record_key: Address, plan: Plan) {
        for action in plan.actions {
            match action {
                CustodyAction::CreateAccount { account, space, lamports, .. } => {
                    assert!(lamports >= 1);
                    assert!(self.data.get(&account).map_or(true, |d| d.is_empty()));
                    self.data.insert(account, vec![0u8; space as usize]);
                }
                CustodyAction::InitializeVault { vault, mint, .. } => {
                    assert_eq!(self.data[&vault], vec![0u8; 165]);
                    self.write_token_account(vault, mint, 0);
                }
                CustodyAction::Transfer { source, destination, amount, .. } => {
                    self.transfer(source, destination, amount);
                }
            }
        }
        AMM::pack(plan.record, self.data.get_mut(&record_key).unwrap()).unwrap();
    }

    fn process(&mut self, program: &Address, pool: &PoolAddresses, request: Instruction) {
        let rules = FundingRules { record_minimum: 1_454_640, vault_minimum: 2_039_280 };
        let accounts = self.snapshots(&request);
        let plan =
            Processor::process(&request.program_id, &accounts, &request.data, Some(rules)).unwrap();
        assert_eq!(&request.program_id, program);
        self.perform(pool.data.address, plan);
    }

    fn record(&self, pool: &PoolAddresses) -> AMM {
        AMM::unpack(&self.data[&pool.data.address]).unwrap()
    }
}

struct TestUser {
    key: Address,
    main_x: Address,
    main_y: Address,
}

impl TestUser {
    fn new(host: &mut Host, x_mint: Address, y_mint: Address) -> TestUser {
        let key = host.fresh_key();
        let main_y = host.create_token_account(y_mint, 0);
        let main_x = host.create_token_account(x_mint, 0);
        TestUser { key, main_x, main_y }
    }

    fn temp_acc(&self, host: &mut Host, mint: Address, is_x: bool, amount: u64) -> Address {
        let temp = host.create_token_account(mint, 0);
        host.transfer(if is_x { self.main_x } else { self.main_y }, temp, amount);
        temp
    }
}

#[test]
fn test_amm() {
    let mut host = Host::new();
    let program_id = Address::new([0xEE; 32]);
    let token_program = Address::new([0xDD; 32]);
    let pool = PoolAddresses::derive(&program_id).unwrap();

    let payer = host.fresh_key();
    let x_mint = host.fresh_key();
    let y_mint = host.fresh_key();
    let x_acc = host.create_token_account(x_mint, 1_000_000 * ONE_X);
    let y_acc = host.create_token_account(y_mint, 1_000_000 * ONE_Y);

    // AMM initialization
    let temp_x_address = host.create_token_account(x_mint, 0);
    host.transfer(x_acc, temp_x_address, 100 * ONE_X);
    let temp_y_address = host.create_token_account(y_mint, 0);
    host.transfer(y_acc, temp_y_address, 10_000 * ONE_Y);

    let init_instruction = initialize_amm(
        &payer,
        &temp_x_address,
        &x_mint,
        &temp_y_address,
        &y_mint,
        &program_id,
        &token_program,
    )
    .unwrap();
    host.process(&program_id, &pool, init_instruction);

    let amm_data = host.record(&pool);
    assert_eq!(amm_data.x_amount, 100 * ONE_X);
    assert_eq!(amm_data.y_amount, 10_000 * ONE_Y);
    assert_eq!(amm_data.x_mint, x_mint);
    assert_eq!(amm_data.y_mint, y_mint);

    let x_vault_address = pool.x_vault.address;
    assert_eq!(host.balance_of(x_vault_address), 100 * ONE_X);
    let y_vault_address = pool.y_vault.address;
    assert_eq!(host.balance_of(y_vault_address), 10_000 * ONE_Y);
    assert_eq!(host.balance_of(temp_x_address), 0);
    assert_eq!(host.balance_of(temp_y_address), 0);

    // Preparing test users
    let alice = TestUser::new(&mut host, x_mint, y_mint);
    host.transfer(y_acc, alice.main_y, 100 * ONE_Y);
    let bob = TestUser::new(&mut host, x_mint, y_mint);
    host.transfer(y_acc, bob.main_y, 100 * ONE_Y);

    // Alice sending 100 Y to AMM
    {
        let alice_temp_y = alice.temp_acc(&mut host, y_mint, false, 100 * ONE_Y);
        let exchange_instruction =
            exchange(&alice.key, &alice_temp_y, &alice.main_x, &token_program, &program_id)
                .unwrap();
        host.process(&program_id, &pool, exchange_instruction);
        assert_eq!(host.balance_of(alice.main_x), 99_009_901);
        assert_eq!(host.balance_of(alice.main_y), 0);
        assert_eq!(host.balance_of(alice_temp_y), 0);
    }
    assert_eq!(host.record(&pool).x_amount, 9_900_990_099);
    assert_eq!(host.record(&pool).y_amount, 10_100 * ONE_Y);
    assert_eq!(host.balance_of(x_vault_address), 9_900_990_099);
    assert_eq!(host.balance_of(y_vault_address), 10_100 * ONE_Y);

    // Bob sending 100 Y to AMM
    {
        let bob_temp_y = bob.temp_acc(&mut host, y_mint, false, 100 * ONE_Y);
        let exchange_instruction =
            exchange(&bob.key, &bob_temp_y, &bob.main_x, &token_program, &program_id).unwrap();
        host.process(&program_id, &pool, exchange_instruction);
        assert_eq!(host.balance_of(bob.main_x), 97_068_530);
    }

    // Alice sending all X to AMM
    {
        let alice_x_balance = host.balance_of(alice.main_x);
        let alice_temp_x = alice.temp_acc(&mut host, x_mint, true, alice_x_balance);
        let exchange_instruction =
            exchange(&alice.key, &alice_temp_x, &alice.main_y, &token_program, &program_id)
                .unwrap();
        host.process(&program_id, &pool, exchange_instruction);
        assert_eq!(host.balance_of(alice.main_x), 0);
    }

    // Bob sending all X to AMM
    {
        let bob_x_balance = host.balance_of(bob.main_x);
        let bob_temp_x = bob.temp_acc(&mut host, x_mint, true, bob_x_balance);
        let exchange_instruction =
            exchange(&bob.key, &bob_temp_x, &bob.main_y, &token_program, &program_id).unwrap();
        host.process(&program_id, &pool, exchange_instruction);
        assert_eq!(host.balance_of(bob.main_x), 0);
    }

    let alice_y_balance = host.balance_of(alice.main_y);
    let bob_y_balance = host.balance_of(bob.main_y);
    assert_eq!(alice_y_balance + bob_y_balance, 200 * ONE_Y);

    let amm_data = host.record(&pool);
    assert_eq!(amm_data.x_amount, 100 * ONE_X);
    assert_eq!(amm_data.y_amount, 10_000 * ONE_Y);
    assert_eq!(amm_data.x_mint, x_mint);
    assert_eq!(amm_data.y_mint, y_mint);

    // the vaults hold what the record says
    assert_eq!(host.balance_of(x_vault_address), amm_data.x_amount);
    assert_eq!(host.balance_of(y_vault_address), amm_data.y_amount);
}

#[test]
fn a_second_initialize_fails() {
    let mut host = Host::new();
    let program_id = Address::new([0xEE; 32]);
    let token_program = Address::new([0xDD; 32]);
    let pool = PoolAddresses::derive(&program_id).unwrap();
    let payer = host.fresh_key();
    let x_mint = host.fresh_key();
    let y_mint = host.fresh_key();
    let temp_x = host.create_token_account(x_mint, 10);
    let temp_y = host.create_token_account(y_mint, 20);
    let request =
        initialize_amm(&payer, &temp_x, &x_mint, &temp_y, &y_mint, &program_id, &token_program)
            .unwrap();
    host.process(&program_id, &pool, request.clone());
    assert!(host.record(&pool).is_initialized());

    host.set_balance(temp_x, 10);
    host.set_balance(temp_y, 20);
    let accounts = host.snapshots(&request);
    let rules = FundingRules { record_minimum: 1, vault_minimum: 1 };
    assert_eq!(
        Processor::process(&program_id, &accounts, &request.data, Some(rules)),
        Err(solana_amm::error::PoolError::AccountAlreadyInitialized)
    );
    assert_eq!(host.record(&pool).x_amount, 10);
    assert_eq!(host.record(&pool).y_amount, 20);
}
