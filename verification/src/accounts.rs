//! The accounts that each operation is given, and what the escrow asks of them
//! before it acts.

use crate::address::{
    escrow_seeds, found_program_address, program_address, signer_seeds, user_state_seeds,
    user_state_seeds_with, view_of, view_of_found, Address,
};
use crate::custody::{Mint, TokenAccount};
use crate::state::{Escrow, UserState};
use vstd::prelude::*;

verus! {

/// The accounts of `initialize`.
#[derive(Clone, Copy, Debug, PartialEq, Eq)]
pub struct Initialize {
    /// The program under which the escrow's addresses are derived.
    pub program_id: Address,
    /// The address at which the configuration is to be kept.
    pub escrow_key: Address,
    /// The configuration found at that address, if there is one.
    pub escrow: Option<Escrow>,
    /// The mint that the escrow is to hold.
    pub mint: Mint,
    /// The administrator, who authorizes the creation.
    pub owner: Address,
}

/// The accounts of `deposit`.
#[derive(Clone, Copy, Debug, PartialEq, Eq)]
pub struct Deposit {
    /// The program under which the escrow's addresses are derived.
    pub program_id: Address,
    /// The address of the configuration.
    pub escrow_key: Address,
    /// The configuration.
    pub escrow: Escrow,
    /// The caller.
    pub user: Address,
    /// The mint that is deposited.
    pub mint: Mint,
    /// The address of the caller's balance.
    pub user_state_key: Address,
    /// The caller's balance, if it was created before.
    pub user_state: Option<UserState>,
    /// The caller's wallet.
    pub user_ata: TokenAccount,
    /// The escrow's vault.
    pub user_deposit: TokenAccount,
}

/// The accounts of `withdraw`.
#[derive(Clone, Copy, Debug, PartialEq, Eq)]
pub struct Withdraw {
    /// The program under which the escrow's addresses are derived.
    pub program_id: Address,
    /// The address of the configuration.
    pub escrow_key: Address,
    /// The configuration.
    pub escrow: Escrow,
    /// The caller.
    pub user: Address,
    /// The mint that is withdrawn.
    pub mint: Mint,
    /// The address of the caller's balance.
    pub user_state_key: Address,
    /// The caller's balance.
    pub user_state: UserState,
    /// The caller's wallet.
    pub user_ata: TokenAccount,
    /// The escrow's vault.
    pub user_deposit: TokenAccount,
}

/// Whether the mint, the wallet and the vault are all of the mint that the
/// escrow was configured with.
pub open spec fn same_mint(escrow: Escrow, mint: Mint, wallet: TokenAccount, vault: TokenAccount) -> bool {
    &&& mint.key@ == escrow.mint@
    &&& wallet.mint@ == mint.key@
    &&& vault.mint@ == mint.key@
}

/// Whether the wallet is the caller's and the vault is the escrow's.
pub open spec fn custody_held(user: Address, escrow_key: Address, wallet: TokenAccount, vault: TokenAccount) -> bool {
    &&& wallet.owner@ == user@
    &&& vault.owner@ == escrow_key@
}

fn is_same_mint(escrow: &Escrow, mint: &Mint, wallet: &TokenAccount, vault: &TokenAccount) -> (r: bool)
    ensures
        r == same_mint(*escrow, *mint, *wallet, *vault),
{
    mint.key == escrow.mint && wallet.mint == mint.key && vault.mint == mint.key
}

fn is_custody_held(user: &Address, escrow_key: &Address, wallet: &TokenAccount, vault: &TokenAccount) -> (r: bool)
    ensures
        r == custody_held(*user, *escrow_key, *wallet, *vault),
{
    wallet.owner == *user && vault.owner == *escrow_key
}

fn is_address(derived: &Option<Address>, key: &Address) -> (r: bool)
    ensures
        r == (view_of(*derived) == Some(key@)),
{
    match derived {
        Some(address) => *address == *key,
        None => false,
    }
}

impl Initialize {
    /// What the search for the escrow's address finds under the program.
    pub open spec fn found_escrow(self) -> Option<(Seq<u8>, u8)> {
        found_program_address(escrow_seeds(), self.program_id@)
    }
}

impl Deposit {
    /// The address that the configuration's bump derives for the escrow.
    pub open spec fn derived_escrow(self) -> Option<Seq<u8>> {
        program_address(signer_seeds(self.escrow.bump), self.program_id@)
    }

    /// What the search for the address of the caller's balance finds.
    pub open spec fn found_user_state(self) -> Option<(Seq<u8>, u8)> {
        found_program_address(user_state_seeds(self.user@), self.program_id@)
    }

    /// The caller's balance before the deposit: the record, or that of a user
    /// who was never credited.
    pub open spec fn balance(self) -> UserState {
        match self.user_state {
            Some(state) => state,
            None => UserState { amount: 0, bump: 0 },
        }
    }

    /// Whether every identity and address is the one that a deposit asks for:
    /// the configuration and the caller's balance are kept at the addresses
    /// derived for them, the caller is the escrow's owner and controls the
    /// wallet, and the escrow controls the vault.
    pub open spec fn authorized(
        self,
        escrow_address: Option<Seq<u8>>,
        user_state_found: Option<(Seq<u8>, u8)>,
    ) -> bool {
        &&& escrow_address == Some(self.escrow_key@)
        &&& self.escrow.owner@ == self.user@
        &&& custody_held(self.user, self.escrow_key, self.user_ata, self.user_deposit)
        &&& user_state_found matches Some((address, _))
        &&& address == self.user_state_key@
    }

    /// Whether the accounts are all of the escrow's mint.
    pub open spec fn mints_match(self) -> bool {
        same_mint(self.escrow, self.mint, self.user_ata, self.user_deposit)
    }

    /// The caller's balance before the deposit.
    pub fn current_balance(&self) -> (r: UserState)
        ensures
            r == self.balance(),
    {
        match self.user_state {
            Some(state) => state,
            None => UserState { amount: 0, bump: 0 },
        }
    }

    /// Whether every identity and address is the one that a deposit asks for.
    pub fn is_authorized(
        &self,
        escrow_address: &Option<Address>,
        user_state_found: &Option<(Address, u8)>,
    ) -> (r: bool)
        ensures
            r == self.authorized(
                view_of(*escrow_address),
                view_of_found(*user_state_found),
            ),
    {
        let at_user_state = match user_state_found {
            Some((address, _)) => *address == self.user_state_key,
            None => false,
        };
        is_address(escrow_address, &self.escrow_key) && at_user_state && self.escrow.owner
            == self.user && is_custody_held(
            &self.user,
            &self.escrow_key,
            &self.user_ata,
            &self.user_deposit,
        )
    }

    /// Whether the accounts are all of the escrow's mint.
    pub fn is_mint_matching(&self) -> (r: bool)
        ensures
            r == self.mints_match(),
    {
        is_same_mint(&self.escrow, &self.mint, &self.user_ata, &self.user_deposit)
    }
}

impl Withdraw {
    /// The address that the configuration's bump derives for the escrow.
    pub open spec fn derived_escrow(self) -> Option<Seq<u8>> {
        program_address(signer_seeds(self.escrow.bump), self.program_id@)
    }

    /// The address that the balance's bump derives for the caller's balance.
    pub open spec fn derived_user_state(self) -> Option<Seq<u8>> {
        program_address(user_state_seeds_with(self.user@, self.user_state.bump), self.program_id@)
    }

    /// Whether every identity and address is the one that a withdrawal asks for:
    /// the configuration is kept at the escrow's address, the balance at the
    /// address derived for the caller, the caller controls the wallet, and the
    /// escrow controls the vault.
    pub open spec fn authorized(
        self,
        escrow_address: Option<Seq<u8>>,
        user_state_address: Option<Seq<u8>>,
    ) -> bool {
        &&& escrow_address == Some(self.escrow_key@)
        &&& user_state_address == Some(self.user_state_key@)
        &&& custody_held(self.user, self.escrow_key, self.user_ata, self.user_deposit)
    }

    /// Whether the accounts are all of the escrow's mint.
    pub open spec fn mints_match(self) -> bool {
        same_mint(self.escrow, self.mint, self.user_ata, self.user_deposit)
    }

    /// Whether every identity and address is the one that a withdrawal asks for.
    pub fn is_authorized(
        &self,
        escrow_address: &Option<Address>,
        user_state_address: &Option<Address>,
    ) -> (r: bool)
        ensures
            r == self.authorized(
                view_of(*escrow_address),
                view_of(*user_state_address),
            ),
    {
        is_address(escrow_address, &self.escrow_key) && is_address(
            user_state_address,
            &self.user_state_key,
        ) && is_custody_held(&self.user, &self.escrow_key, &self.user_ata, &self.user_deposit)
    }

    /// Whether the accounts are all of the escrow's mint.
    pub fn is_mint_matching(&self) -> (r: bool)
        ensures
            r == self.mints_match(),
    {
        is_same_mint(&self.escrow, &self.mint, &self.user_ata, &self.user_deposit)
    }
}

} // verus!
