//! The three operations on a vault: creating it, depositing into it and
//! withdrawing from it.
//!
//! Each operation works on a context that holds the vault's record, the
//! address at which the record is kept and the identity of the caller. A
//! context can only be made through its constructor, which derives or checks
//! the address, so that an operation never runs on a record that does not
//! belong at the address it came from.

use vstd::prelude::*;
use crate::binding::{binds, derivable, derive_address, derives, is_bound, Address, Identity};
use crate::vault::{Vault, VaultError};

verus! {

/// The most that one deposit may carry.
pub const MAX_DEPOSIT: u64 = 1_000_000;

/// Whether `vault` is an active vault whose record belongs at `address`.
pub open spec fn kept_at(vault: Vault, address: Address) -> bool {
    &&& vault.is_active()
    &&& binds(address, vault.admin, vault.bump)
}

/// Tests whether `vault` is an active vault whose record belongs at
/// `address`, by computing the address anew from what the record holds.
pub fn is_kept_at(vault: &Vault, address: &Address) -> (kept: bool)
    ensures
        kept == kept_at(*vault, *address),
{
    let unset = Identity::default();
    proof {
        if vault.admin.is_unset() {
            Identity::lemma_unset_is_unique(vault.admin, unset);
        }
    }
    vault.admin != unset && is_bound(address, &vault.admin, vault.bump)
}

/// What `initialize` makes of a caller and the bump seed of the address
/// derived for that caller: the new vault, or why it was turned down.
pub open spec fn initialize_outcome(admin: Identity, bump: u8) -> Result<Vault, VaultError> {
    if admin.is_unset() {
        Err(VaultError::InvalidAdmin)
    } else {
        Ok(Vault { admin, balance: 0, bump })
    }
}

/// What a deposit of `amount` makes of `vault`: the vault afterwards, or why
/// the deposit was turned down.
pub open spec fn deposit_outcome(vault: Vault, amount: u64) -> Result<Vault, VaultError> {
    if amount == 0 {
        Err(VaultError::InvalidAmount)
    } else if amount > MAX_DEPOSIT {
        Err(VaultError::ExcessiveAmount)
    } else if vault.balance + amount > u64::MAX {
        Err(VaultError::MathOverflow)
    } else {
        Ok(Vault { balance: (vault.balance + amount) as u64, ..vault })
    }
}

/// What a withdrawal of `amount` by `caller` makes of `vault`: the vault
/// afterwards, or why the withdrawal was turned down.
pub open spec fn withdraw_outcome(vault: Vault, caller: Identity, amount: u64) -> Result<
    Vault,
    VaultError,
> {
    if caller != vault.admin {
        Err(VaultError::UnauthorizedAdmin)
    } else if amount == 0 {
        Err(VaultError::InvalidAmount)
    } else if amount > vault.balance {
        Err(VaultError::InsufficientFunds)
    } else {
        Ok(Vault { balance: (vault.balance - amount) as u64, ..vault })
    }
}

/// What `initialize` works on: the caller, the address derived for the
/// caller's vault, and the record to be kept there.
#[derive(Clone, Copy, Debug)]
pub struct Initialize {
    vault_address: Address,
    vault: Vault,
    admin: Identity,
    bump: u8,
}

impl Initialize {
    /// The address and the bump seed are those derived for the caller, and
    /// the record is either blank or the vault that `initialize` creates.
    #[verifier::type_invariant]
    pub open spec fn wf(self) -> bool {
        &&& derives(self.admin(), self.vault_address(), self.bump())
        &&& binds(self.vault_address(), self.admin(), self.bump())
        &&& (self.vault().is_blank() || initialize_outcome(self.admin(), self.bump()) == Ok::<
            Vault,
            VaultError,
        >(self.vault()))
    }

    /// The address at which the record is kept.
    pub closed spec fn spec_vault_address(&self) -> Address {
        self.vault_address
    }

    /// The record as it now stands.
    pub closed spec fn spec_vault(&self) -> Vault {
        self.vault
    }

    /// The caller, who is to become the administrator.
    pub closed spec fn spec_admin(&self) -> Identity {
        self.admin
    }

    /// The bump seed that the derivation of the address gave.
    pub closed spec fn spec_bump(&self) -> u8 {
        self.bump
    }

    /// Derives the address of the vault of the caller `admin` and pairs it
    /// with a blank record. There is no context where no address can be
    /// derived.
    pub fn new(admin: Identity) -> (ctx: Option<Initialize>)
        ensures
            ctx is Some == derivable(admin),
            ctx matches Some(c) ==> c.wf() && c.admin() == admin && c.vault().is_blank(),
    {
        match derive_address(&admin) {
            Some((vault_address, bump)) => Some(
                Initialize { vault_address, vault: Vault::new(), admin, bump },
            ),
            None => None,
        }
    }

    /// The address at which the new record is to be kept.
    #[verifier::when_used_as_spec(spec_vault_address)]
    pub fn vault_address(&self) -> (address: Address)
        ensures
            address == self.spec_vault_address(),
    {
        self.vault_address
    }

    /// The record: blank before `initialize`, the new vault after it.
    #[verifier::when_used_as_spec(spec_vault)]
    pub fn vault(&self) -> (vault: Vault)
        ensures
            vault == self.spec_vault(),
    {
        self.vault
    }

    /// The caller, who is to become the administrator.
    #[verifier::when_used_as_spec(spec_admin)]
    pub fn admin(&self) -> (admin: Identity)
        ensures
            admin == self.spec_admin(),
    {
        self.admin
    }

    /// The bump seed that the derivation of the address gave.
    #[verifier::when_used_as_spec(spec_bump)]
    pub fn bump(&self) -> (bump: u8)
        ensures
            bump == self.spec_bump(),
    {
        self.bump
    }
}

/// What `deposit` works on: a vault that was found at its address, and the
/// caller.
#[derive(Clone, Copy, Debug)]
pub struct Deposit {
    vault_address: Address,
    vault: Vault,
    user: Identity,
}

impl Deposit {
    /// The record is an active vault that belongs at the address.
    #[verifier::type_invariant]
    pub open spec fn wf(self) -> bool {
        kept_at(self.vault(), self.vault_address())
    }

    /// The address at which the record is kept.
    pub closed spec fn spec_vault_address(&self) -> Address {
        self.vault_address
    }

    /// The record as it now stands.
    pub closed spec fn spec_vault(&self) -> Vault {
        self.vault
    }

    /// The caller.
    pub closed spec fn spec_user(&self) -> Identity {
        self.user
    }

    /// Takes the record `vault` that was loaded from `vault_address` for the
    /// caller `user`. There is no context unless the record is an active
    /// vault that belongs at that address.
    pub fn new(vault_address: Address, vault: Vault, user: Identity) -> (ctx: Option<Deposit>)
        ensures
            ctx is Some == kept_at(vault, vault_address),
            ctx matches Some(c) ==> c.vault_address() == vault_address && c.vault() == vault
                && c.user() == user,
    {
        if is_kept_at(&vault, &vault_address) {
            Some(Deposit { vault_address, vault, user })
        } else {
            None
        }
    }

    /// The address at which the record is kept.
    #[verifier::when_used_as_spec(spec_vault_address)]
    pub fn vault_address(&self) -> (address: Address)
        ensures
            address == self.spec_vault_address(),
    {
        self.vault_address
    }

    /// The record as it now stands.
    #[verifier::when_used_as_spec(spec_vault)]
    pub fn vault(&self) -> (vault: Vault)
        ensures
            vault == self.spec_vault(),
    {
        self.vault
    }

    /// The caller.
    #[verifier::when_used_as_spec(spec_user)]
    pub fn user(&self) -> (user: Identity)
        ensures
            user == self.spec_user(),
    {
        self.user
    }
}

/// What `withdraw` works on: a vault that was found at its address, and the
/// caller.
#[derive(Clone, Copy, Debug)]
pub struct Withdraw {
    vault_address: Address,
    vault: Vault,
    user: Identity,
}

impl Withdraw {
    /// The record is an active vault that belongs at the address.
    #[verifier::type_invariant]
    pub open spec fn wf(self) -> bool {
        kept_at(self.vault(), self.vault_address())
    }

    /// The address at which the record is kept.
    pub closed spec fn spec_vault_address(&self) -> Address {
        self.vault_address
    }

    /// The record as it now stands.
    pub closed spec fn spec_vault(&self) -> Vault {
        self.vault
    }

    /// The caller.
    pub closed spec fn spec_user(&self) -> Identity {
        self.user
    }

    /// Takes the record `vault` that was loaded from `vault_address` for the
    /// caller `user`. There is no context unless the record is an active
    /// vault that belongs at that address.
    pub fn new(vault_address: Address, vault: Vault, user: Identity) -> (ctx: Option<Withdraw>)
        ensures
            ctx is Some == kept_at(vault, vault_address),
            ctx matches Some(c) ==> c.vault_address() == vault_address && c.vault() == vault
                && c.user() == user,
    {
        if is_kept_at(&vault, &vault_address) {
            Some(Withdraw { vault_address, vault, user })
        } else {
            None
        }
    }

    /// The address at which the record is kept.
    #[verifier::when_used_as_spec(spec_vault_address)]
    pub fn vault_address(&self) -> (address: Address)
        ensures
            address == self.spec_vault_address(),
    {
        self.vault_address
    }

    /// The record as it now stands.
    #[verifier::when_used_as_spec(spec_vault)]
    pub fn vault(&self) -> (vault: Vault)
        ensures
            vault == self.spec_vault(),
    {
        self.vault
    }

    /// The caller.
    #[verifier::when_used_as_spec(spec_user)]
    pub fn user(&self) -> (user: Identity)
        ensures
            user == self.spec_user(),
    {
        self.user
    }
}

/// How `initialize` relates the context before it, its outcome and the
/// context after it. The caller, the address and the bump seed stay. Where
/// the caller is a set identity, the record becomes the caller's vault, with
/// no balance, and belongs at the address. Where not, nothing changes.
pub open spec fn initialized(
    before: Initialize,
    outcome: Result<(), VaultError>,
    after: Initialize,
) -> bool {
    &&& after.vault_address() == before.vault_address()
    &&& after.admin() == before.admin()
    &&& after.bump() == before.bump()
    &&& match initialize_outcome(before.admin(), before.bump()) {
        Ok(vault) => outcome is Ok && after.vault() == vault && kept_at(
            vault,
            after.vault_address(),
        ),
        Err(error) => outcome == Err::<(), VaultError>(error) && after == before,
    }
}

/// Creates the vault of the caller: the caller becomes the administrator,
/// the balance is zero and the bump seed of the address is recorded. An
/// unset caller is turned down, and nothing changes.
pub fn initialize(ctx: &mut Initialize) -> (outcome: Result<(), VaultError>)
    ensures
        initialized(*old(ctx), outcome, *final(ctx)),
{
    proof {
        use_type_invariant(&*ctx);
    }
    let mut vault = ctx.vault;
    vault.set_admin(ctx.admin)?;
    vault.set_bump(ctx.bump)?;
    ctx.vault = vault;
    Ok(())
}

/// How `deposit` relates the context before it, the amount, its outcome and
/// the context after it. The address and the caller stay. The record becomes
/// what `deposit_outcome` makes of it; where the deposit is turned down,
/// nothing changes.
pub open spec fn deposited(
    before: Deposit,
    amount: u64,
    outcome: Result<(), VaultError>,
    after: Deposit,
) -> bool {
    &&& after.vault_address() == before.vault_address()
    &&& after.user() == before.user()
    &&& match deposit_outcome(before.vault(), amount) {
        Ok(vault) => outcome is Ok && after.vault() == vault,
        Err(error) => outcome == Err::<(), VaultError>(error) && after == before,
    }
}

/// Adds `amount` to the vault's balance, whoever the caller is. An amount of
/// zero, an amount above `MAX_DEPOSIT` and a balance that would leave the
/// range of `u64` are turned down, in that order, and the vault stays as it
/// was.
pub fn deposit(ctx: &mut Deposit, amount: u64) -> (outcome: Result<(), VaultError>)
    ensures
        deposited(*old(ctx), amount, outcome, *final(ctx)),
{
    proof {
        use_type_invariant(&*ctx);
    }
    if amount == 0 {
        return Err(VaultError::InvalidAmount);
    }
    if amount > MAX_DEPOSIT {
        return Err(VaultError::ExcessiveAmount);
    }
    let mut vault = ctx.vault;
    vault.add_balance(amount)?;
    ctx.vault = vault;
    Ok(())
}

/// How `withdraw` relates the context before it, the amount, its outcome and
/// the context after it. The address and the caller stay. The record becomes
/// what `withdraw_outcome` makes of it for the caller; where the withdrawal
/// is turned down, nothing changes.
pub open spec fn withdrawn(
    before: Withdraw,
    amount: u64,
    outcome: Result<(), VaultError>,
    after: Withdraw,
) -> bool {
    &&& after.vault_address() == before.vault_address()
    &&& after.user() == before.user()
    &&& match withdraw_outcome(before.vault(), before.user(), amount) {
        Ok(vault) => outcome is Ok && after.vault() == vault,
        Err(error) => outcome == Err::<(), VaultError>(error) && after == before,
    }
}

/// Takes `amount` from the vault's balance, for the administrator only. The
/// caller is held against the administrator that the record names. Any other
/// caller, an amount of zero and an amount above the balance are turned
/// down, in that order, and the vault stays as it was.
pub fn withdraw(ctx: &mut Withdraw, amount: u64) -> (outcome: Result<(), VaultError>)
    ensures
        withdrawn(*old(ctx), amount, outcome, *final(ctx)),
{
    proof {
        use_type_invariant(&*ctx);
    }
    let mut vault = ctx.vault;
    vault.check_admin(ctx.user)?;
    if amount == 0 {
        return Err(VaultError::InvalidAmount);
    }
    if vault.balance < amount {
        return Err(VaultError::InsufficientFunds);
    }
    vault.subtract_balance(amount)?;
    ctx.vault = vault;
    Ok(())
}

} // verus!
