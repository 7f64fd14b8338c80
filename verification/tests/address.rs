use solana_amm::address::{Address, Derived, PoolAddresses, Seed};
use solana_amm::instruction::{exchange, initialize_amm, AMMInstruction, AccountMeta};
use solana_program::pubkey::Pubkey;

fn key(n: u8) -> Address {
    Address::new([n; 32])
}

fn program() -> Address {
    let mut bytes = [0u8; 32];
    for (i, b) in bytes.iter_mut().enumerate() {
        *b = (i as u8).wrapping_mul(7).wrapping_add(3);
    }
    Address::new(bytes)
}

fn expected(seed: &[u8], program: &Address) -> Derived {
    let (address, bump) =
        Pubkey::find_program_address(&[seed], &Pubkey::new_from_array(program.to_bytes()));
    Derived { address: Address::new(address.to_bytes()), bump }
}

#[test]
fn seeds_spell_their_names() {
    assert_eq!(Seed::Data.bytes(), b"data".to_vec());
    assert_eq!(Seed::XVault.bytes(), b"x_vault".to_vec());
    assert_eq!(Seed::YVault.bytes(), b"y_vault".to_vec());
}

#[test]
fn addresses_compare_by_bytes() {
    assert_eq!(key(1), key(1));
    assert_ne!(key(1), key(2));
    let mut bytes = [1u8; 32];
    bytes[31] = 2;
    assert_ne!(key(1), Address::new(bytes));
    assert_eq!(Address::new(bytes).to_bytes(), bytes);
}

#[test]
fn derivation_follows_the_host() {
    let program = program();
    assert_eq!(Address::derive(Seed::Data, &program), Some(expected(b"data", &program)));
    assert_eq!(Address::derive(Seed::XVault, &program), Some(expected(b"x_vault", &program)));
    assert_eq!(Address::derive(Seed::YVault, &program), Some(expected(b"y_vault", &program)));
}

#[test]
fn derived_identity_is_completed_by_its_bump() {
    let program = program();
    let derived = Address::derive(Seed::XVault, &program).unwrap();
    let again = Pubkey::create_program_address(
        &[b"x_vault", &[derived.bump]],
        &Pubkey::new_from_array(program.to_bytes()),
    )
    .unwrap();
    assert_eq!(again.to_bytes(), derived.address.to_bytes());
    assert!(!Pubkey::new_from_array(derived.address.to_bytes()).is_on_curve());
}

#[test]
fn derivation_repeats() {
    let program = program();
    for seed in [Seed::Data, Seed::XVault, Seed::YVault] {
        assert_eq!(Address::derive(seed, &program), Address::derive(seed, &program));
    }
    assert_eq!(PoolAddresses::derive(&program), PoolAddresses::derive(&program));
}

#[test]
fn derivation_depends_on_seed_and_program() {
    let program = program();
    let data = Address::derive(Seed::Data, &program).unwrap();
    let x = Address::derive(Seed::XVault, &program).unwrap();
    let y = Address::derive(Seed::YVault, &program).unwrap();
    assert_ne!(data.address, x.address);
    assert_ne!(x.address, y.address);
    assert_ne!(data.address, program);
    let other = Address::derive(Seed::Data, &key(9)).unwrap();
    assert_ne!(data.address, other.address);
}

#[test]
fn pool_addresses_are_the_three_derivations() {
    let program = program();
    let pool = PoolAddresses::derive(&program).unwrap();
    assert_eq!(pool.data, expected(b"data", &program));
    assert_eq!(pool.x_vault, expected(b"x_vault", &program));
    assert_eq!(pool.y_vault, expected(b"y_vault", &program));
}

#[test]
fn well_known_identities() {
    assert_eq!(Address::system_program(), Address::new([0u8; 32]));
    assert_eq!(
        Address::system_program().to_bytes(),
        solana_program::system_program::id().to_bytes()
    );
    assert_eq!(
        Address::rent_sysvar().to_bytes(),
        [
            6, 167, 213, 23, 25, 44, 92, 81, 33, 140, 201, 76, 61, 74, 241, 127, 88, 218, 238, 8,
            155, 161, 253, 68, 227, 219, 217, 138, 0, 0, 0, 0
        ]
    );
    assert_eq!(
        Pubkey::new_from_array(Address::rent_sysvar().to_bytes()).to_string(),
        "SysvarRent111111111111111111111111111111111"
    );
}

#[test]
fn account_metas() {
    assert_eq!(
        AccountMeta::new(key(1), true),
        AccountMeta { pubkey: key(1), is_signer: true, is_writable: true }
    );
    assert_eq!(
        AccountMeta::new_readonly(key(2), false),
        AccountMeta { pubkey: key(2), is_signer: false, is_writable: false }
    );
}

#[test]
fn initialize_request() {
    let program = program();
    let pool = PoolAddresses::derive(&program).unwrap();
    let request =
        initialize_amm(&key(1), &key(2), &key(3), &key(4), &key(5), &program, &key(6)).unwrap();
    assert_eq!(request.program_id, program);
    assert_eq!(request.data, AMMInstruction::Initialize.pack());
    assert_eq!(request.data, vec![0u8]);
    assert_eq!(
        request.accounts,
        vec![
            AccountMeta::new(key(1), true),
            AccountMeta::new(pool.data.address, false),
            AccountMeta::new(key(2), false),
            AccountMeta::new(pool.x_vault.address, false),
            AccountMeta::new_readonly(key(3), false),
            AccountMeta::new(key(4), false),
            AccountMeta::new(pool.y_vault.address, false),
            AccountMeta::new_readonly(key(5), false),
            AccountMeta::new_readonly(Address::system_program(), false),
            AccountMeta::new_readonly(Address::rent_sysvar(), false),
            AccountMeta::new_readonly(key(6), false),
        ]
    );
}

#[test]
fn exchange_request() {
    let program = program();
    let pool = PoolAddresses::derive(&program).unwrap();
    let request = exchange(&key(1), &key(2), &key(3), &key(6), &program).unwrap();
    assert_eq!(request.program_id, program);
    assert_eq!(request.data, vec![1u8]);
    assert_eq!(
        request.accounts,
        vec![
            AccountMeta::new(key(1), true),
            AccountMeta::new(pool.data.address, false),
            AccountMeta::new(key(2), false),
            AccountMeta::new(key(3), false),
            AccountMeta::new(pool.x_vault.address, false),
            AccountMeta::new(pool.y_vault.address, false),
            AccountMeta::new_readonly(key(6), false),
        ]
    );
}
