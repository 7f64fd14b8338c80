//! The vault custody manager: what has to be done to the vaults, as a list
//! of actions for the host to perform in order, all or none.

use crate::address::{Address, Derived, Seed};
use crate::ledger::TokenAccount;
use crate::settlement::{Settlement, Side};
use crate::state::AMM;
use vstd::prelude::*;

verus! {

/// The capability to act as a derived identity: the seed and the byte that
/// completes it. It is valid for the one action that carries it.
#[derive(Debug, Clone, Copy, PartialEq, Eq, Structural)]
pub struct Authority {
    pub seed: Seed,
    pub bump: u8,
}

/// One step that the host performs on behalf of the pool.
#[derive(Debug, Clone, Copy, PartialEq, Eq)]
pub enum CustodyAction {
    /// Allocates `space` bytes at `account`, funded with `lamports` by
    /// `payer` and owned by `owner`. `account` is a derived identity, which
    /// `capability` authorizes.
    CreateAccount {
        payer: Address,
        account: Address,
        lamports: u64,
        space: u64,
        owner: Address,
        capability: Authority,
    },
    /// Makes `vault` a token account of `mint` under the ledger `ledger`,
    /// with the vault itself as its sole authority.
    InitializeVault { ledger: Address, vault: Address, mint: Address },
    /// Moves `amount` from `source` to `destination` under the ledger
    /// `ledger`, on the word of `authority`. Where `authority` is a derived
    /// identity, `signer` authorizes it.
    Transfer {
        ledger: Address,
        source: Address,
        destination: Address,
        authority: Address,
        amount: u64,
        signer: Option<Authority>,
    },
}

/// The lamports to fund an account with: the minimum for permanent storage,
/// but at least one.
pub open spec fn spec_funding(minimum: u64) -> u64 {
    if minimum < 1 {
        1
    } else {
        minimum
    }
}

/// The lamports to fund an account with.
pub fn funding(minimum: u64) -> (lamports: u64)
    ensures
        lamports == spec_funding(minimum),
{
    if minimum < 1 {
        1
    } else {
        minimum
    }
}

/// The seed of the vault that holds `side`.
pub open spec fn spec_vault_seed(side: Side) -> Seed {
    match side {
        Side::X => Seed::XVault,
        Side::Y => Seed::YVault,
    }
}

/// The seed of the vault that holds `side`.
pub fn vault_seed(side: Side) -> (seed: Seed)
    ensures
        seed == spec_vault_seed(side),
{
    match side {
        Side::X => Seed::XVault,
        Side::Y => Seed::YVault,
    }
}

/// The capability to act as the identity that `seed` derives, given what
/// the derivation returned.
pub open spec fn spec_authorize_as(seed: Seed, derived: Derived) -> Authority {
    Authority { seed, bump: derived.bump }
}

/// Produces the capability to act as the identity that `seed` derives.
pub fn authorize_as(seed: Seed, derived: &Derived) -> (authority: Authority)
    ensures
        authority == spec_authorize_as(seed, *derived),
{
    Authority { seed, bump: derived.bump }
}

/// The accounts and amounts from which a vault is set up.
#[derive(Debug, Clone, Copy, PartialEq, Eq)]
pub struct VaultSetup {
    /// Which asset the vault holds.
    pub side: Side,
    /// The vault account as the request supplies it.
    pub vault: Address,
    /// The vault's derived identity.
    pub derived: Derived,
    /// The asset's identity.
    pub mint: Address,
    /// The temporary account that holds the starting balance.
    pub deposit: Address,
    /// The starting balance.
    pub amount: u64,
}

/// The three steps that set up one vault: allocate it at its derived
/// identity, initialize it for its asset, and move the whole starting
/// balance into it.
pub open spec fn spec_vault_steps(
    owner: Address,
    ledger: Address,
    setup: VaultSetup,
    vault_minimum: u64,
) -> Seq<CustodyAction> {
    seq![
        CustodyAction::CreateAccount {
            payer: owner,
            account: setup.derived.address,
            lamports: spec_funding(vault_minimum),
            space: TokenAccount::LEN,
            owner: ledger,
            capability: spec_authorize_as(spec_vault_seed(setup.side), setup.derived),
        },
        CustodyAction::InitializeVault { ledger, vault: setup.vault, mint: setup.mint },
        CustodyAction::Transfer {
            ledger,
            source: setup.deposit,
            destination: setup.vault,
            authority: owner,
            amount: setup.amount,
            signer: None,
        },
    ]
}

/// The step that allocates the pool record at its derived identity.
pub open spec fn spec_record_step(
    owner: Address,
    program: Address,
    record: Address,
    derived: Derived,
    record_minimum: u64,
) -> CustodyAction {
    CustodyAction::CreateAccount {
        payer: owner,
        account: record,
        lamports: spec_funding(record_minimum),
        space: 81,
        owner: program,
        capability: spec_authorize_as(Seed::Data, derived),
    }
}

/// The steps of pool creation: allocate the record, then set up the vault
/// of X, then the vault of Y.
pub open spec fn spec_initialize_flow(
    owner: Address,
    program: Address,
    ledger: Address,
    record: Address,
    record_derived: Derived,
    x: VaultSetup,
    y: VaultSetup,
    record_minimum: u64,
    vault_minimum: u64,
) -> Seq<CustodyAction> {
    seq![spec_record_step(owner, program, record, record_derived, record_minimum)]
        + spec_vault_steps(owner, ledger, x, vault_minimum) + spec_vault_steps(
        owner,
        ledger,
        y,
        vault_minimum,
    )
}

/// Lists the steps of pool creation.
pub fn initialize_flow(
    owner: &Address,
    program: &Address,
    ledger: &Address,
    record: &Address,
    record_derived: &Derived,
    x: &VaultSetup,
    y: &VaultSetup,
    record_minimum: u64,
    vault_minimum: u64,
) -> (actions: Vec<CustodyAction>)
    ensures
        actions@ == spec_initialize_flow(
            *owner,
            *program,
            *ledger,
            *record,
            *record_derived,
            *x,
            *y,
            record_minimum,
            vault_minimum,
        ),
{
    let mut actions: Vec<CustodyAction> = Vec::new();
    actions.push(
        CustodyAction::CreateAccount {
            payer: *owner,
            account: *record,
            lamports: funding(record_minimum),
            space: 81,
            owner: *program,
            capability: authorize_as(Seed::Data, record_derived),
        },
    );
    push_vault_steps(&mut actions, owner, ledger, x, vault_minimum);
    push_vault_steps(&mut actions, owner, ledger, y, vault_minimum);
    assert(actions@ =~= spec_initialize_flow(
        *owner,
        *program,
        *ledger,
        *record,
        *record_derived,
        *x,
        *y,
        record_minimum,
        vault_minimum,
    ));
    actions
}

/// Appends the three steps that set up one vault.
fn push_vault_steps(
    actions: &mut Vec<CustodyAction>,
    owner: &Address,
    ledger: &Address,
    setup: &VaultSetup,
    vault_minimum: u64,
)
    ensures
        final(actions)@ == old(actions)@ + spec_vault_steps(*owner, *ledger, *setup, vault_minimum),
{
    let space = TokenAccount::packed_len();
    actions.push(
        CustodyAction::CreateAccount {
            payer: *owner,
            account: setup.derived.address,
            lamports: funding(vault_minimum),
            space,
            owner: *ledger,
            capability: authorize_as(vault_seed(setup.side), &setup.derived),
        },
    );
    actions.push(
        CustodyAction::InitializeVault { ledger: *ledger, vault: setup.vault, mint: setup.mint },
    );
    actions.push(
        CustodyAction::Transfer {
            ledger: *ledger,
            source: setup.deposit,
            destination: setup.vault,
            authority: *owner,
            amount: setup.amount,
            signer: None,
        },
    );
    assert(actions@ =~= old(actions)@ + spec_vault_steps(*owner, *ledger, *setup, vault_minimum));
}

/// The vault account of `side`, of the two that an exchange is given.
pub open spec fn spec_vault_of(side: Side, x_vault: Address, y_vault: Address) -> Address {
    match side {
        Side::X => x_vault,
        Side::Y => y_vault,
    }
}

/// The two steps of an exchange: the user moves the whole deposit into the
/// vault of the deposited asset, and the other vault, acting as itself,
/// pays the output to the user.
pub open spec fn spec_exchange_flow(
    user: Address,
    ledger: Address,
    deposit: Address,
    destination: Address,
    x_vault: Address,
    y_vault: Address,
    deposited: u64,
    settlement: Settlement,
    paying: Derived,
) -> Seq<CustodyAction> {
    seq![
        CustodyAction::Transfer {
            ledger,
            source: deposit,
            destination: spec_vault_of(settlement.receiving, x_vault, y_vault),
            authority: user,
            amount: deposited,
            signer: None,
        },
        CustodyAction::Transfer {
            ledger,
            source: spec_vault_of(settlement.paying, x_vault, y_vault),
            destination,
            authority: spec_vault_of(settlement.paying, x_vault, y_vault),
            amount: settlement.out_amount,
            signer: Some(spec_authorize_as(spec_vault_seed(settlement.paying), paying)),
        },
    ]
}

/// Lists the two steps of an exchange.
pub fn exchange_flow(
    user: &Address,
    ledger: &Address,
    deposit: &Address,
    destination: &Address,
    x_vault: &Address,
    y_vault: &Address,
    deposited: u64,
    settlement: &Settlement,
    paying: &Derived,
) -> (actions: Vec<CustodyAction>)
    ensures
        actions@ == spec_exchange_flow(
            *user,
            *ledger,
            *deposit,
            *destination,
            *x_vault,
            *y_vault,
            deposited,
            *settlement,
            *paying,
        ),
{
    let receiving_vault = match settlement.receiving {
        Side::X => *x_vault,
        Side::Y => *y_vault,
    };
    let paying_vault = match settlement.paying {
        Side::X => *x_vault,
        Side::Y => *y_vault,
    };
    let mut actions: Vec<CustodyAction> = Vec::new();
    actions.push(
        CustodyAction::Transfer {
            ledger: *ledger,
            source: *deposit,
            destination: receiving_vault,
            authority: *user,
            amount: deposited,
            signer: None,
        },
    );
    actions.push(
        CustodyAction::Transfer {
            ledger: *ledger,
            source: paying_vault,
            destination: *destination,
            authority: paying_vault,
            amount: settlement.out_amount,
            signer: Some(authorize_as(vault_seed(settlement.paying), paying)),
        },
    );
    assert(actions@ =~= spec_exchange_flow(
        *user,
        *ledger,
        *deposit,
        *destination,
        *x_vault,
        *y_vault,
        deposited,
        *settlement,
        *paying,
    ));
    actions
}

/// What an operation asks of the host: the steps to perform, in order, and
/// the record to store in the pool-record account once all have succeeded.
#[derive(Debug, Clone, PartialEq, Eq)]
pub struct Plan {
    pub actions: Vec<CustodyAction>,
    pub record: AMM,
}

/// A plan, with its steps as a sequence.
pub struct PlanView {
    pub actions: Seq<CustodyAction>,
    pub record: AMM,
}

impl View for Plan {
    type V = PlanView;

    open spec fn view(&self) -> PlanView {
        PlanView { actions: self.actions@, record: self.record }
    }
}

} // verus!
