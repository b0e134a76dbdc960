use vault_transfer::binding::{derive_address, Address, Identity};
use vault_transfer::service::{
    deposit, initialize, is_kept_at, withdraw, Deposit, Initialize, Withdraw, MAX_DEPOSIT,
};
use vault_transfer::vault::{Vault, VaultError};

fn alice() -> Identity {
    Identity { bytes: [0xA1; 32] }
}

fn bob() -> Identity {
    Identity { bytes: [0xB0; 32] }
}

/// The address and the record of the vault that `admin` gets, with `balance`
/// in it.
fn stored_vault(admin: Identity, balance: u64) -> (Address, Vault) {
    let mut ctx = Initialize::new(admin).unwrap();
    assert_eq!(initialize(&mut ctx), Ok(()));
    (ctx.vault_address(), Vault { balance, ..ctx.vault() })
}

#[test]
fn max_deposit_is_one_million() {
    assert_eq!(MAX_DEPOSIT, 1_000_000);
}

#[test]
fn initialize_context_holds_the_derived_address_and_a_blank_record() {
    let ctx = Initialize::new(alice()).unwrap();
    let (address, bump) = derive_address(&alice()).unwrap();
    assert_eq!(ctx.admin(), alice());
    assert_eq!(ctx.vault_address(), address);
    assert_eq!(ctx.bump(), bump);
    assert_eq!(ctx.vault(), Vault::new());
}

#[test]
fn initialize_creates_an_empty_vault_for_the_caller() {
    let mut ctx = Initialize::new(alice()).unwrap();
    let (address, bump) = derive_address(&alice()).unwrap();
    assert_eq!(initialize(&mut ctx), Ok(()));
    assert_eq!(ctx.vault(), Vault { admin: alice(), balance: 0, bump });
    assert_eq!(ctx.vault_address(), address);
    assert_eq!(ctx.admin(), alice());
    assert_eq!(ctx.bump(), bump);
}

#[test]
fn initialized_vault_is_found_when_loaded() {
    let mut ctx = Initialize::new(alice()).unwrap();
    assert_eq!(initialize(&mut ctx), Ok(()));
    assert!(is_kept_at(&ctx.vault(), &ctx.vault_address()));
    let loaded = Deposit::new(ctx.vault_address(), ctx.vault(), bob()).unwrap();
    assert_eq!(loaded.vault().balance, 0);
    assert_eq!(loaded.vault().admin, alice());
    let loaded = Withdraw::new(ctx.vault_address(), ctx.vault(), alice()).unwrap();
    assert_eq!(loaded.vault().balance, 0);
    assert_eq!(loaded.vault().admin, alice());
}

#[test]
fn initialize_refuses_the_unset_caller() {
    let mut ctx = Initialize::new(Identity::default()).unwrap();
    let before = ctx;
    assert_eq!(initialize(&mut ctx), Err(VaultError::InvalidAdmin));
    assert_eq!(ctx.vault(), Vault::new());
    assert_eq!(ctx.vault(), before.vault());
    assert_eq!(ctx.vault_address(), before.vault_address());
    assert_eq!(ctx.admin(), before.admin());
    assert_eq!(ctx.bump(), before.bump());
}

#[test]
fn initialize_made_again_gives_the_same_vault() {
    let mut ctx = Initialize::new(alice()).unwrap();
    assert_eq!(initialize(&mut ctx), Ok(()));
    let once = ctx.vault();
    assert_eq!(initialize(&mut ctx), Ok(()));
    assert_eq!(ctx.vault(), once);
}

#[test]
fn contexts_take_a_vault_kept_at_its_address() {
    let (address, vault) = stored_vault(alice(), 7);
    let ctx = Deposit::new(address, vault, bob()).unwrap();
    assert_eq!(ctx.vault_address(), address);
    assert_eq!(ctx.vault(), vault);
    assert_eq!(ctx.user(), bob());
    let ctx = Withdraw::new(address, vault, bob()).unwrap();
    assert_eq!(ctx.vault_address(), address);
    assert_eq!(ctx.vault(), vault);
    assert_eq!(ctx.user(), bob());
}

#[test]
fn contexts_refuse_a_vault_presented_at_another_address() {
    let (_, vault) = stored_vault(alice(), 7);
    let (elsewhere, _) = stored_vault(bob(), 0);
    assert!(!is_kept_at(&vault, &elsewhere));
    assert!(Deposit::new(elsewhere, vault, bob()).is_none());
    assert!(Withdraw::new(elsewhere, vault, alice()).is_none());
}

#[test]
fn contexts_refuse_a_record_that_names_another_administrator() {
    let (address, vault) = stored_vault(alice(), 7);
    let forged = Vault { admin: bob(), ..vault };
    assert!(!is_kept_at(&forged, &address));
    assert!(Deposit::new(address, forged, bob()).is_none());
    assert!(Withdraw::new(address, forged, bob()).is_none());
}

#[test]
fn contexts_refuse_a_record_with_another_bump() {
    let (address, vault) = stored_vault(alice(), 7);
    let forged = Vault { bump: vault.bump.wrapping_sub(1), ..vault };
    assert!(!is_kept_at(&forged, &address));
    assert!(Deposit::new(address, forged, bob()).is_none());
    assert!(Withdraw::new(address, forged, alice()).is_none());
}

#[test]
fn contexts_refuse_a_blank_record() {
    let (address, _) = stored_vault(alice(), 0);
    assert!(!is_kept_at(&Vault::new(), &address));
    assert!(Deposit::new(address, Vault::new(), bob()).is_none());
    assert!(Withdraw::new(address, Vault::new(), alice()).is_none());
}

#[test]
fn contexts_refuse_a_record_without_administrator_even_at_the_derived_address() {
    let ctx = Initialize::new(Identity::default()).unwrap();
    let record = Vault { admin: Identity::default(), balance: 0, bump: ctx.bump() };
    assert!(!is_kept_at(&record, &ctx.vault_address()));
    assert!(Deposit::new(ctx.vault_address(), record, bob()).is_none());
    assert!(Withdraw::new(ctx.vault_address(), record, bob()).is_none());
}

#[test]
fn deposit_adds_to_the_balance_for_any_caller() {
    let (address, vault) = stored_vault(alice(), 5);
    let mut by_stranger = Deposit::new(address, vault, bob()).unwrap();
    assert_eq!(deposit(&mut by_stranger, 100), Ok(()));
    assert_eq!(by_stranger.vault(), Vault { balance: 105, ..vault });
    assert_eq!(by_stranger.vault_address(), address);
    assert_eq!(by_stranger.user(), bob());
    let mut by_admin = Deposit::new(address, vault, alice()).unwrap();
    assert_eq!(deposit(&mut by_admin, 100), Ok(()));
    assert_eq!(by_admin.vault(), Vault { balance: 105, ..vault });
}

#[test]
fn deposit_takes_the_bounds_of_the_allowed_amounts() {
    let (address, vault) = stored_vault(alice(), 0);
    let mut ctx = Deposit::new(address, vault, bob()).unwrap();
    assert_eq!(deposit(&mut ctx, 1), Ok(()));
    assert_eq!(ctx.vault().balance, 1);
    assert_eq!(deposit(&mut ctx, 1_000_000), Ok(()));
    assert_eq!(ctx.vault().balance, 1_000_001);
}

#[test]
fn deposit_refuses_zero() {
    let (address, vault) = stored_vault(alice(), 5);
    let mut ctx = Deposit::new(address, vault, bob()).unwrap();
    assert_eq!(deposit(&mut ctx, 0), Err(VaultError::InvalidAmount));
    assert_eq!(ctx.vault(), vault);
}

#[test]
fn deposit_refuses_more_than_the_ceiling() {
    let (address, vault) = stored_vault(alice(), 5);
    let mut ctx = Deposit::new(address, vault, bob()).unwrap();
    assert_eq!(deposit(&mut ctx, 1_000_001), Err(VaultError::ExcessiveAmount));
    assert_eq!(ctx.vault(), vault);
    assert_eq!(deposit(&mut ctx, u64::MAX), Err(VaultError::ExcessiveAmount));
    assert_eq!(ctx.vault(), vault);
}

#[test]
fn deposit_refuses_to_overflow_the_balance() {
    let (address, vault) = stored_vault(alice(), u64::MAX - 9);
    let mut ctx = Deposit::new(address, vault, bob()).unwrap();
    assert_eq!(deposit(&mut ctx, 10), Err(VaultError::MathOverflow));
    assert_eq!(ctx.vault(), vault);
    assert_eq!(deposit(&mut ctx, 9), Ok(()));
    assert_eq!(ctx.vault().balance, u64::MAX);
    assert_eq!(deposit(&mut ctx, 1), Err(VaultError::MathOverflow));
    assert_eq!(ctx.vault().balance, u64::MAX);
}

#[test]
fn deposits_add_up_to_their_sum() {
    let (address, vault) = stored_vault(alice(), 0);
    let mut ctx = Deposit::new(address, vault, bob()).unwrap();
    let amounts = [1u64, 999_999, 1_000_000, 250, 42];
    for amount in amounts {
        assert_eq!(deposit(&mut ctx, amount), Ok(()));
    }
    assert_eq!(ctx.vault().balance, 2_000_292);
    assert_eq!(ctx.vault().admin, alice());
    assert_eq!(ctx.vault().bump, vault.bump);
}

#[test]
fn refused_deposits_leave_the_sum_untouched() {
    let (address, vault) = stored_vault(alice(), 0);
    let mut ctx = Deposit::new(address, vault, bob()).unwrap();
    assert_eq!(deposit(&mut ctx, 10), Ok(()));
    assert_eq!(deposit(&mut ctx, 0), Err(VaultError::InvalidAmount));
    assert_eq!(deposit(&mut ctx, 20), Ok(()));
    assert_eq!(deposit(&mut ctx, 1_000_001), Err(VaultError::ExcessiveAmount));
    assert_eq!(deposit(&mut ctx, 30), Ok(()));
    assert_eq!(ctx.vault().balance, 60);
}

#[test]
fn withdraw_gives_the_administrator_the_amount() {
    let (address, vault) = stored_vault(alice(), 100);
    let mut ctx = Withdraw::new(address, vault, alice()).unwrap();
    assert_eq!(withdraw(&mut ctx, 30), Ok(()));
    assert_eq!(ctx.vault(), Vault { balance: 70, ..vault });
    assert_eq!(ctx.vault_address(), address);
    assert_eq!(ctx.user(), alice());
}

#[test]
fn withdraw_can_empty_the_vault() {
    let (address, vault) = stored_vault(alice(), 100);
    let mut ctx = Withdraw::new(address, vault, alice()).unwrap();
    assert_eq!(withdraw(&mut ctx, 100), Ok(()));
    assert_eq!(ctx.vault().balance, 0);
    assert_eq!(withdraw(&mut ctx, 1), Err(VaultError::InsufficientFunds));
    assert_eq!(ctx.vault().balance, 0);
}

#[test]
fn withdraw_is_not_held_to_the_deposit_ceiling() {
    let (address, vault) = stored_vault(alice(), 5_000_000);
    let mut ctx = Withdraw::new(address, vault, alice()).unwrap();
    assert_eq!(withdraw(&mut ctx, 4_000_000), Ok(()));
    assert_eq!(ctx.vault().balance, 1_000_000);
}

#[test]
fn withdraw_refuses_zero() {
    let (address, vault) = stored_vault(alice(), 100);
    let mut ctx = Withdraw::new(address, vault, alice()).unwrap();
    assert_eq!(withdraw(&mut ctx, 0), Err(VaultError::InvalidAmount));
    assert_eq!(ctx.vault(), vault);
}

#[test]
fn withdraw_refuses_more_than_the_balance() {
    let (address, vault) = stored_vault(alice(), 100);
    let mut ctx = Withdraw::new(address, vault, alice()).unwrap();
    assert_eq!(withdraw(&mut ctx, 101), Err(VaultError::InsufficientFunds));
    assert_eq!(ctx.vault(), vault);
    assert_eq!(withdraw(&mut ctx, u64::MAX), Err(VaultError::InsufficientFunds));
    assert_eq!(ctx.vault(), vault);
}

#[test]
fn withdraw_refuses_a_stranger_whatever_the_amount() {
    let (address, vault) = stored_vault(alice(), 100);
    let mut ctx = Withdraw::new(address, vault, bob()).unwrap();
    for amount in [0u64, 1, 100, 101, u64::MAX] {
        assert_eq!(withdraw(&mut ctx, amount), Err(VaultError::UnauthorizedAdmin));
        assert_eq!(ctx.vault(), vault);
    }
}

#[test]
fn withdraw_refuses_the_unset_caller() {
    let (address, vault) = stored_vault(alice(), 100);
    let mut ctx = Withdraw::new(address, vault, Identity::default()).unwrap();
    assert_eq!(withdraw(&mut ctx, 1), Err(VaultError::UnauthorizedAdmin));
    assert_eq!(ctx.vault(), vault);
}

#[test]
fn refused_operations_repeat_their_refusal() {
    let (address, vault) = stored_vault(alice(), 50);
    let mut ctx = Deposit::new(address, vault, bob()).unwrap();
    for amount in [0u64, 1_000_001] {
        let first = deposit(&mut ctx, amount);
        let between = ctx.vault();
        let second = deposit(&mut ctx, amount);
        assert!(first.is_err());
        assert_eq!(first, second);
        assert_eq!(between, vault);
        assert_eq!(ctx.vault(), vault);
    }
    let mut ctx = Withdraw::new(address, vault, alice()).unwrap();
    for amount in [0u64, 51] {
        let first = withdraw(&mut ctx, amount);
        let between = ctx.vault();
        let second = withdraw(&mut ctx, amount);
        assert!(first.is_err());
        assert_eq!(first, second);
        assert_eq!(between, vault);
        assert_eq!(ctx.vault(), vault);
    }
    let mut ctx = Withdraw::new(address, vault, bob()).unwrap();
    let first = withdraw(&mut ctx, 10);
    let second = withdraw(&mut ctx, 10);
    assert_eq!(first, Err(VaultError::UnauthorizedAdmin));
    assert_eq!(first, second);
    assert_eq!(ctx.vault(), vault);
    let mut ctx = Initialize::new(Identity::default()).unwrap();
    let first = initialize(&mut ctx);
    let between = ctx.vault();
    let second = initialize(&mut ctx);
    assert_eq!(first, Err(VaultError::InvalidAdmin));
    assert_eq!(first, second);
    assert_eq!(between, Vault::new());
    assert_eq!(ctx.vault(), Vault::new());
}

#[test]
fn vault_lives_through_deposits_and_withdrawals() {
    let mut created = Initialize::new(alice()).unwrap();
    assert_eq!(initialize(&mut created), Ok(()));
    let (address, bump) = derive_address(&alice()).unwrap();
    assert_eq!(created.vault_address(), address);
    let mut stored = created.vault();
    assert_eq!(stored, Vault { admin: alice(), balance: 0, bump });

    let mut ctx = Deposit::new(address, stored, bob()).unwrap();
    assert_eq!(deposit(&mut ctx, 100), Ok(()));
    stored = ctx.vault();
    assert_eq!(stored.balance, 100);

    let mut ctx = Deposit::new(address, stored, bob()).unwrap();
    assert_eq!(deposit(&mut ctx, 2_000_000), Err(VaultError::ExcessiveAmount));
    assert_eq!(ctx.vault().balance, 100);

    let mut ctx = Withdraw::new(address, stored, alice()).unwrap();
    assert_eq!(withdraw(&mut ctx, 50), Ok(()));
    stored = ctx.vault();
    assert_eq!(stored.balance, 50);

    let mut ctx = Withdraw::new(address, stored, alice()).unwrap();
    assert_eq!(withdraw(&mut ctx, 999), Err(VaultError::InsufficientFunds));
    assert_eq!(ctx.vault().balance, 50);

    let mut ctx = Withdraw::new(address, stored, bob()).unwrap();
    assert_eq!(withdraw(&mut ctx, 10), Err(VaultError::UnauthorizedAdmin));
    assert_eq!(ctx.vault().balance, 50);
    assert_eq!(ctx.vault(), Vault { admin: alice(), balance: 50, bump });
}
