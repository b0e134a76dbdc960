//! A custodial balance ledger: one administrator controls a vault that
//! accumulates and releases a fungible unit of value.
//!
//! `binding` derives the address of a vault from the identity of its
//! administrator and tests that a record belongs at an address. `vault`
//! holds the record and the mutators that keep its balance in range.
//! `service` holds the three operations: `initialize`, `deposit` and
//! `withdraw`. `laws` states what holds of the operations taken together.

pub mod binding;
pub mod laws;
pub mod service;
pub mod vault;

pub use crate::binding::{Address, Identity};
pub use crate::service::{deposit, initialize, withdraw, Deposit, Initialize, Withdraw};
pub use crate::vault::{Vault, VaultError};
