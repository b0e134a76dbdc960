//! The vault record and the mutators that keep its balance within range.

use vstd::prelude::*;
use vstd::std_specs::cmp::PartialEqSpecImpl;
use crate::binding::Identity;

verus! {

/// Why an operation on a vault was turned down.
#[derive(Clone, Copy, Debug, PartialEq, Eq, Structural)]
pub enum VaultError {
    /// The amount is zero.
    InvalidAmount,
    /// The amount of a deposit is above what one deposit may carry.
    ExcessiveAmount,
    /// The vault holds less than the amount asked for.
    InsufficientFunds,
    /// The identity offered as administrator is the unset identity.
    InvalidAdmin,
    /// The caller is not the vault's administrator.
    UnauthorizedAdmin,
    /// The balance would leave the range of `u64`.
    MathOverflow,
}

/// The record of one vault.
#[derive(Clone, Copy, Debug)]
pub struct Vault {
    /// The only identity that may withdraw.
    pub admin: Identity,
    /// The value held.
    pub balance: u64,
    /// The bump seed that the derivation of the vault's address gave.
    pub bump: u8,
}

impl PartialEq for Vault {
    fn eq(&self, other: &Vault) -> (same: bool) {
        self.admin == other.admin && self.balance == other.balance && self.bump == other.bump
    }
}

impl Eq for Vault {}

impl PartialEqSpecImpl for Vault {
    open spec fn obeys_eq_spec() -> bool {
        true
    }

    open spec fn eq_spec(&self, other: &Vault) -> bool {
        *self == *other
    }
}

impl Vault {
    /// Whether this is the record before a vault is created in it: no
    /// administrator, no balance, no bump seed.
    pub open spec fn is_blank(&self) -> bool {
        &&& self.admin.is_unset()
        &&& self.balance == 0
        &&& self.bump == 0
    }

    /// Whether the vault has been created: it has an administrator.
    pub open spec fn is_active(&self) -> bool {
        !self.admin.is_unset()
    }

    /// A blank record.
    pub fn new() -> (vault: Vault)
        ensures
            vault.is_blank(),
    {
        Vault { admin: Identity::default(), balance: 0, bump: 0 }
    }

    /// Makes `admin` the administrator, unless it is the unset identity.
    pub fn set_admin(&mut self, admin: Identity) -> (outcome: Result<(), VaultError>)
        ensures
            admin.is_unset() ==> outcome == Err::<(), VaultError>(VaultError::InvalidAdmin)
                && *final(self) == *old(self),
            !admin.is_unset() ==> outcome is Ok
                && *final(self) == (Vault { admin, ..*old(self) }),
    {
        let unset = Identity::default();
        proof {
            if admin.is_unset() {
                Identity::lemma_unset_is_unique(admin, unset);
            }
        }
        if admin == unset {
            return Err(VaultError::InvalidAdmin);
        }
        self.admin = admin;
        Ok(())
    }

    /// Records the bump seed of the vault's address.
    pub fn set_bump(&mut self, bump: u8) -> (outcome: Result<(), VaultError>)
        ensures
            outcome is Ok,
            *final(self) == (Vault { bump, ..*old(self) }),
    {
        self.bump = bump;
        Ok(())
    }

    /// Adds `amount` to the balance, unless the sum leaves the range of `u64`.
    pub fn add_balance(&mut self, amount: u64) -> (outcome: Result<(), VaultError>)
        ensures
            old(self).balance + amount > u64::MAX ==> outcome == Err::<(), VaultError>(
                VaultError::MathOverflow,
            ) && *final(self) == *old(self),
            old(self).balance + amount <= u64::MAX ==> outcome is Ok
                && *final(self) == (Vault { balance: (old(self).balance + amount) as u64, ..*old(self) }),
    {
        match self.balance.checked_add(amount) {
            Some(sum) => {
                self.balance = sum;
                Ok(())
            },
            None => Err(VaultError::MathOverflow),
        }
    }

    /// Takes `amount` from the balance, unless the vault holds less.
    pub fn subtract_balance(&mut self, amount: u64) -> (outcome: Result<(), VaultError>)
        ensures
            amount > old(self).balance ==> outcome == Err::<(), VaultError>(
                VaultError::InsufficientFunds,
            ) && *final(self) == *old(self),
            amount <= old(self).balance ==> outcome is Ok
                && *final(self) == (Vault { balance: (old(self).balance - amount) as u64, ..*old(self) }),
    {
        match self.balance.checked_sub(amount) {
            Some(rest) => {
                self.balance = rest;
                Ok(())
            },
            None => Err(VaultError::InsufficientFunds),
        }
    }

    /// Whether `admin` is the vault's administrator.
    pub fn check_admin(&self, admin: Identity) -> (outcome: Result<(), VaultError>)
        ensures
            outcome == if self.admin == admin {
                Ok::<(), VaultError>(())
            } else {
                Err::<(), VaultError>(VaultError::UnauthorizedAdmin)
            },
    {
        if self.admin == admin {
            Ok(())
        } else {
            Err(VaultError::UnauthorizedAdmin)
        }
    }
}

} // verus!
