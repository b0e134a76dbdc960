//! What holds of the operations taken together.

use vstd::prelude::*;
use crate::binding::{derives, Address, Identity};
use crate::service::{
    deposit_outcome, deposited, initialized, kept_at, withdrawn, Deposit, Initialize, Withdraw,
    MAX_DEPOSIT,
};
use crate::vault::{Vault, VaultError};

verus! {

/// The sum of the amounts.
pub open spec fn total(amounts: Seq<u64>) -> int
    decreases amounts.len(),
{
    if amounts.len() == 0 {
        0
    } else {
        total(amounts.drop_last()) + amounts.last()
    }
}

/// What the deposits `amounts`, made in turn, make of `vault`: the vault
/// after the last of them, or why the first deposit that was turned down was
/// turned down.
pub open spec fn deposit_each(vault: Vault, amounts: Seq<u64>) -> Result<Vault, VaultError>
    decreases amounts.len(),
{
    if amounts.len() == 0 {
        Ok(vault)
    } else {
        match deposit_each(vault, amounts.drop_last()) {
            Ok(so_far) => deposit_outcome(so_far, amounts.last()),
            Err(error) => Err(error),
        }
    }
}

/// A vault that `initialize` has created for a set caller has no balance,
/// has the caller as administrator, and is found at its address when it is
/// loaded for a deposit or a withdrawal.
pub proof fn initialized_vault_is_found(
    before: Initialize,
    outcome: Result<(), VaultError>,
    after: Initialize,
)
    requires
        !before.admin().is_unset(),
        initialized(before, outcome, after),
    ensures
        outcome is Ok,
        after.vault().balance == 0,
        after.vault().admin == before.admin(),
        kept_at(after.vault(), after.vault_address()),
{
}

/// Deposits that each lie between one and `MAX_DEPOSIT`, and whose sum with
/// the balance stays in the range of `u64`, are all accepted, and the
/// balance grows by their sum.
pub proof fn deposits_add_up(vault: Vault, amounts: Seq<u64>)
    requires
        forall|i: int| 0 <= i < amounts.len() ==> 0 < #[trigger] amounts[i] <= MAX_DEPOSIT,
        vault.balance + total(amounts) <= u64::MAX,
    ensures
        deposit_each(vault, amounts) == Ok::<Vault, VaultError>(
            Vault { balance: (vault.balance + total(amounts)) as u64, ..vault },
        ),
    decreases amounts.len(),
{
    if amounts.len() > 0 {
        let earlier = amounts.drop_last();
        total_is_not_negative(earlier);
        deposits_add_up(vault, earlier);
    }
}

/// A sum of amounts is not negative.
pub proof fn total_is_not_negative(amounts: Seq<u64>)
    ensures
        total(amounts) >= 0,
    decreases amounts.len(),
{
    if amounts.len() > 0 {
        total_is_not_negative(amounts.drop_last());
    }
}

/// A deposit of zero, or of more than `MAX_DEPOSIT`, is turned down and
/// leaves the vault as it was.
pub proof fn deposit_out_of_bounds_is_turned_down(
    before: Deposit,
    amount: u64,
    outcome: Result<(), VaultError>,
    after: Deposit,
)
    requires
        deposited(before, amount, outcome, after),
        amount == 0 || amount > MAX_DEPOSIT,
    ensures
        amount == 0 ==> outcome == Err::<(), VaultError>(VaultError::InvalidAmount),
        amount > MAX_DEPOSIT ==> outcome == Err::<(), VaultError>(VaultError::ExcessiveAmount),
        after == before,
{
}

/// The administrator who withdraws an amount between one and the balance
/// gets it: the balance falls by the amount.
pub proof fn administrator_withdraws(
    before: Withdraw,
    amount: u64,
    outcome: Result<(), VaultError>,
    after: Withdraw,
)
    requires
        withdrawn(before, amount, outcome, after),
        before.user() == before.vault().admin,
        0 < amount <= before.vault().balance,
    ensures
        outcome is Ok,
        after.vault() == (Vault {
            balance: (before.vault().balance - amount) as u64,
            ..before.vault()
        }),
{
}

/// The administrator who asks for more than the balance is turned down for
/// want of funds, and the vault stays as it was.
pub proof fn overdraft_is_turned_down(
    before: Withdraw,
    amount: u64,
    outcome: Result<(), VaultError>,
    after: Withdraw,
)
    requires
        withdrawn(before, amount, outcome, after),
        before.user() == before.vault().admin,
        amount > before.vault().balance,
    ensures
        outcome == Err::<(), VaultError>(VaultError::InsufficientFunds),
        after == before,
{
}

/// A caller who is not the administrator is turned down as unauthorized,
/// whatever the amount, and the vault stays as it was.
pub proof fn stranger_is_turned_down(
    before: Withdraw,
    amount: u64,
    outcome: Result<(), VaultError>,
    after: Withdraw,
)
    requires
        withdrawn(before, amount, outcome, after),
        before.user() != before.vault().admin,
    ensures
        outcome == Err::<(), VaultError>(VaultError::UnauthorizedAdmin),
        after == before,
{
}

/// A deposit changes neither the administrator of the vault nor the bump
/// seed that it records, and leaves the vault at its address.
pub proof fn deposit_keeps_the_vault_in_place(
    before: Deposit,
    amount: u64,
    outcome: Result<(), VaultError>,
    after: Deposit,
)
    requires
        before.wf(),
        deposited(before, amount, outcome, after),
    ensures
        after.wf(),
        after.vault().admin == before.vault().admin,
        after.vault().bump == before.vault().bump,
        after.vault_address() == before.vault_address(),
{
}

/// A withdrawal changes neither the administrator of the vault nor the bump
/// seed that it records, and leaves the vault at its address.
pub proof fn withdrawal_keeps_the_vault_in_place(
    before: Withdraw,
    amount: u64,
    outcome: Result<(), VaultError>,
    after: Withdraw,
)
    requires
        before.wf(),
        withdrawn(before, amount, outcome, after),
    ensures
        after.wf(),
        after.vault().admin == before.vault().admin,
        after.vault().bump == before.vault().bump,
        after.vault_address() == before.vault_address(),
{
}

/// Deriving twice for one administrator gives one address and one bump seed.
pub proof fn derivation_is_deterministic(
    admin: Identity,
    first: (Address, u8),
    second: (Address, u8),
)
    requires
        derives(admin, first.0, first.1),
        derives(admin, second.0, second.1),
    ensures
        first == second,
{
    assert(first.0.bytes =~= second.0.bytes);
}

/// A vault belongs at one address only.
pub proof fn vault_is_kept_at_one_address(vault: Vault, first: Address, second: Address)
    requires
        kept_at(vault, first),
        kept_at(vault, second),
    ensures
        first == second,
{
    assert(first.bytes =~= second.bytes);
}

/// Deriving anew for the administrator of a vault gives the address at which
/// the vault was created, and the bump seed that the vault records.
pub proof fn rederivation_gives_the_address_of_creation(
    before: Initialize,
    outcome: Result<(), VaultError>,
    after: Initialize,
    address: Address,
    bump: u8,
)
    requires
        before.wf(),
        initialized(before, outcome, after),
        outcome is Ok,
        derives(after.vault().admin, address, bump),
    ensures
        address == after.vault_address(),
        bump == after.vault().bump,
{
    derivation_is_deterministic(
        before.admin(),
        (address, bump),
        (before.vault_address(), before.bump()),
    );
}

/// An `initialize` that was turned down changes nothing, and is turned down
/// again for the same reason when it is made again.
pub proof fn rejected_initialize_repeats(
    before: Initialize,
    first: Result<(), VaultError>,
    between: Initialize,
    second: Result<(), VaultError>,
    after: Initialize,
)
    requires
        initialized(before, first, between),
        initialized(between, second, after),
        first is Err,
    ensures
        between == before,
        second == first,
        after == before,
{
}

/// A deposit that was turned down changes nothing, and is turned down again
/// for the same reason when it is made again with the same amount.
pub proof fn rejected_deposit_repeats(
    before: Deposit,
    amount: u64,
    first: Result<(), VaultError>,
    between: Deposit,
    second: Result<(), VaultError>,
    after: Deposit,
)
    requires
        deposited(before, amount, first, between),
        deposited(between, amount, second, after),
        first is Err,
    ensures
        between == before,
        second == first,
        after == before,
{
}

/// A withdrawal that was turned down changes nothing, and is turned down
/// again for the same reason when it is made again with the same amount.
pub proof fn rejected_withdraw_repeats(
    before: Withdraw,
    amount: u64,
    first: Result<(), VaultError>,
    between: Withdraw,
    second: Result<(), VaultError>,
    after: Withdraw,
)
    requires
        withdrawn(before, amount, first, between),
        withdrawn(between, amount, second, after),
        first is Err,
    ensures
        between == before,
        second == first,
        after == before,
{
}

} // verus!
