//! Account identities and the keyless identities derived from a seed.

use solana_program::pubkey::Pubkey;
use vstd::prelude::*;

verus! {

/// A 32-byte account identity.
#[derive(Debug, Clone, Copy, Eq, Hash)]
pub struct Address {
    pub bytes: [u8; 32],
}

impl View for Address {
    type V = Seq<u8>;

    open spec fn view(&self) -> Seq<u8> {
        self.bytes@
    }
}

/// The fixed seeds from which the pool's three identities are derived.
#[derive(Debug, Clone, Copy, PartialEq, Eq, Structural)]
pub enum Seed {
    /// The pool record, seed `data`.
    Data,
    /// The vault of asset X, seed `x_vault`.
    XVault,
    /// The vault of asset Y, seed `y_vault`.
    YVault,
}

impl Seed {
    /// The seed's bytes: the ASCII text `data`, `x_vault` or `y_vault`.
    pub open spec fn spec_bytes(self) -> Seq<u8> {
        match self {
            Seed::Data => seq![100u8, 97u8, 116u8, 97u8],
            Seed::XVault => seq![120u8, 95u8, 118u8, 97u8, 117u8, 108u8, 116u8],
            Seed::YVault => seq![121u8, 95u8, 118u8, 97u8, 117u8, 108u8, 116u8],
        }
    }

    /// The seed's bytes.
    pub fn bytes(&self) -> (b: Vec<u8>)
        ensures
            b@ == self.spec_bytes(),
    {
        let b = match self {
            Seed::Data => vec![100u8, 97u8, 116u8, 97u8],
            Seed::XVault => vec![120u8, 95u8, 118u8, 97u8, 117u8, 108u8, 116u8],
            Seed::YVault => vec![121u8, 95u8, 118u8, 97u8, 117u8, 108u8, 116u8],
        };
        assert(b@ =~= self.spec_bytes());
        b
    }
}

/// A derived identity together with the byte that completes its seed.
#[derive(Debug, Clone, Copy, PartialEq, Eq)]
pub struct Derived {
    pub address: Address,
    pub bump: u8,
}

/// What the host's address derivation yields for a seed and a program
/// identity: the derived identity and its disambiguation byte, or `None`
/// where no byte gives an identity off the signing curve.
pub uninterp spec fn derived_address(seed: Seq<u8>, program: Seq<u8>) -> Option<(Seq<u8>, u8)>;

/// Calls `Pubkey::try_find_program_address` with the one seed and the
/// program identity. The contract only names the outcome: the search is a
/// function of its two arguments, and never panics.
#[verifier::external_body]
fn find_derived_address(seed: &[u8], program: &Address) -> (found: Option<(Address, u8)>)
    ensures
        match found {
            Some((address, bump)) => derived_address(seed@, program@) == Some((address@, bump)),
            None => derived_address(seed@, program@) is None,
        },
{
    let program_id = Pubkey::new_from_array(program.bytes);
    match Pubkey::try_find_program_address(&[seed], &program_id) {
        Some((key, bump)) => Some((Address { bytes: key.to_bytes() }, bump)),
        None => None,
    }
}

/// Calls `solana_program::system_program::id`: the storage allocator's
/// identity, which is the all-zero key.
#[verifier::external_body]
fn system_program_address() -> (address: Address)
    ensures
        address@ == Address::spec_system_program_bytes(),
{
    Address { bytes: solana_program::system_program::id().to_bytes() }
}

/// Calls `solana_program::sysvar::rent::id`: the identity of the account
/// that holds the funding rules.
#[verifier::external_body]
fn rent_sysvar_address() -> (address: Address)
    ensures
        address@ == Address::spec_rent_sysvar_bytes(),
{
    Address { bytes: solana_program::sysvar::rent::id().to_bytes() }
}

impl Address {
    /// Wraps 32 bytes as an identity.
    pub fn new(bytes: [u8; 32]) -> (a: Address)
        ensures
            a.bytes == bytes,
    {
        Address { bytes }
    }

    /// The 32 bytes of this identity.
    pub fn to_bytes(&self) -> (b: [u8; 32])
        ensures
            b == self.bytes,
    {
        self.bytes
    }

    /// The bytes of the storage allocator's identity: 32 zero bytes.
    pub open spec fn spec_system_program_bytes() -> Seq<u8> {
        Seq::new(32, |i: int| 0u8)
    }

    /// The bytes of the identity of the account that holds the funding
    /// rules.
    pub open spec fn spec_rent_sysvar_bytes() -> Seq<u8> {
        seq![
            6u8, 167u8, 213u8, 23u8, 25u8, 44u8, 92u8, 81u8,
            33u8, 140u8, 201u8, 76u8, 61u8, 74u8, 241u8, 127u8,
            88u8, 218u8, 238u8, 8u8, 155u8, 161u8, 253u8, 68u8,
            227u8, 219u8, 217u8, 138u8, 0u8, 0u8, 0u8, 0u8,
        ]
    }

    /// The storage allocator's identity.
    pub open spec fn spec_system_program() -> Address {
        Address::spec_from_bytes(Address::spec_system_program_bytes())
    }

    /// The identity of the account that holds the funding rules.
    pub open spec fn spec_rent_sysvar() -> Address {
        Address::spec_from_bytes(Address::spec_rent_sysvar_bytes())
    }

    /// The storage allocator's identity.
    pub fn system_program() -> (address: Address)
        ensures
            address == Address::spec_system_program(),
            address@ == Address::spec_system_program_bytes(),
    {
        let address = system_program_address();
        proof {
            Address::lemma_from_bytes_of_view(address);
        }
        address
    }

    /// The identity of the account that holds the funding rules.
    pub fn rent_sysvar() -> (address: Address)
        ensures
            address == Address::spec_rent_sysvar(),
            address@ == Address::spec_rent_sysvar_bytes(),
    {
        let address = rent_sysvar_address();
        proof {
            Address::lemma_from_bytes_of_view(address);
        }
        address
    }

    /// What deriving from `seed` under `program` yields.
    pub open spec fn spec_derive(seed: Seed, program: Address) -> Option<Derived> {
        match derived_address(seed.spec_bytes(), program@) {
            Some((bytes, bump)) => Some(Derived { address: Address::spec_from_bytes(bytes), bump }),
            None => None,
        }
    }

    /// An identity built byte by byte from `bytes`.
    spec fn spec_holding(bytes: Seq<u8>) -> Address {
        Address {
            bytes: [
                bytes[0], bytes[1], bytes[2], bytes[3], bytes[4], bytes[5], bytes[6], bytes[7],
                bytes[8], bytes[9], bytes[10], bytes[11], bytes[12], bytes[13], bytes[14],
                bytes[15], bytes[16], bytes[17], bytes[18], bytes[19], bytes[20], bytes[21],
                bytes[22], bytes[23], bytes[24], bytes[25], bytes[26], bytes[27], bytes[28],
                bytes[29], bytes[30], bytes[31],
            ],
        }
    }

    /// The identity whose bytes are `bytes`.
    pub closed spec fn spec_from_bytes(bytes: Seq<u8>) -> Address {
        choose|a: Address| a@ == bytes
    }

    /// `spec_from_bytes` undoes the view.
    pub proof fn lemma_from_bytes_of_view(a: Address)
        ensures
            Address::spec_from_bytes(a@) == a,
    {
        let b = Address::spec_from_bytes(a@);
        assert(b@ == a@);
        Address::lemma_equal_by_bytes(a, b);
    }

    /// Any 32 bytes are the bytes of the identity that `spec_from_bytes`
    /// names.
    pub proof fn lemma_view_of_from_bytes(bytes: Seq<u8>)
        requires
            bytes.len() == 32,
        ensures
            Address::spec_from_bytes(bytes)@ == bytes,
    {
        let held = Address::spec_holding(bytes);
        assert(held@ =~= bytes);
    }

    /// Derives the keyless identity for `seed` under `program`, with the
    /// byte that completes the seed. `None` where the host finds none.
    pub fn derive(seed: Seed, program: &Address) -> (found: Option<Derived>)
        ensures
            found == Address::spec_derive(seed, *program),
    {
        let seed_bytes = seed.bytes();
        match find_derived_address(seed_bytes.as_slice(), program) {
            Some((address, bump)) => {
                proof {
                    Address::lemma_from_bytes_of_view(address);
                }
                Some(Derived { address, bump })
            },
            None => None,
        }
    }

    /// Deriving again from the same seed and program identity gives the
    /// same identity and the same completing byte.
    pub proof fn lemma_derivation_repeats(
        seed: Seed,
        program: Address,
        first: Option<Derived>,
        second: Option<Derived>,
    )
        requires
            first == Address::spec_derive(seed, program),
            second == Address::spec_derive(seed, program),
        ensures
            first == second,
    {
    }

    /// Two identities are equal exactly when their bytes are.
    pub proof fn lemma_equal_by_bytes(a: Address, b: Address)
        ensures
            (a == b) <==> (a@ == b@),
    {
        if a@ == b@ {
            assert(a.bytes =~= b.bytes);
        }
    }
}

impl PartialEq for Address {
    fn eq(&self, other: &Address) -> (same: bool) {
        let mut i: usize = 0;
        while i < 32
            invariant
                i <= 32,
                forall|j: int| 0 <= j < i ==> self.bytes@[j] == other.bytes@[j],
            decreases 32 - i,
        {
            if self.bytes[i] != other.bytes[i] {
                return false;
            }
            i += 1;
        }
        assert(self.bytes =~= other.bytes);
        true
    }
}

impl vstd::std_specs::cmp::PartialEqSpecImpl for Address {
    open spec fn obeys_eq_spec() -> bool {
        true
    }

    open spec fn eq_spec(&self, other: &Address) -> bool {
        *self == *other
    }
}

/// The pool's three derived identities.
#[derive(Debug, Clone, Copy, PartialEq, Eq)]
pub struct PoolAddresses {
    pub data: Derived,
    pub x_vault: Derived,
    pub y_vault: Derived,
}

impl PoolAddresses {
    /// The identities that the three seeds yield under `program`, or `None`
    /// where one of them yields none.
    pub open spec fn spec_derive(program: Address) -> Option<PoolAddresses> {
        match (
            Address::spec_derive(Seed::Data, program),
            Address::spec_derive(Seed::XVault, program),
            Address::spec_derive(Seed::YVault, program),
        ) {
            (Some(data), Some(x_vault), Some(y_vault)) => Some(
                PoolAddresses { data, x_vault, y_vault },
            ),
            _ => None,
        }
    }

    /// Derives the pool record's and the two vaults' identities.
    pub fn derive(program: &Address) -> (found: Option<PoolAddresses>)
        ensures
            found == PoolAddresses::spec_derive(*program),
    {
        let data = match Address::derive(Seed::Data, program) {
            Some(d) => d,
            None => {
                return None;
            },
        };
        let x_vault = match Address::derive(Seed::XVault, program) {
            Some(d) => d,
            None => {
                return None;
            },
        };
        let y_vault = match Address::derive(Seed::YVault, program) {
            Some(d) => d,
            None => {
                return None;
            },
        };
        Some(PoolAddresses { data, x_vault, y_vault })
    }

    /// Deriving again from the same program identity gives the same three
    /// identities: whatever two derivations return, they return the same.
    pub proof fn lemma_derivation_repeats(
        program: Address,
        first: Option<PoolAddresses>,
        second: Option<PoolAddresses>,
    )
        requires
            first == PoolAddresses::spec_derive(program),
            second == PoolAddresses::spec_derive(program),
        ensures
            first == second,
    {
    }
}

} // verus!
