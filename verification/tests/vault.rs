use intents_vault::{Contract, Order, OrderStatus, Transfer, VaultError};

fn name(text: &str) -> String {
    text.to_string()
}

fn vault_of_alice() -> Contract {
    Contract::new(Some(name("alice")), name("bob"))
}

#[test]
fn test_deposit_and_withdraw() {
    let mut contract = Contract::new(Some(name("alice")), name("bob"));

    contract.deposit(name("bob"), 1000).unwrap();
    assert_eq!(contract.get_balance(name("bob")), 1000);

    contract.withdraw(name("bob"), 500).unwrap();
    assert_eq!(contract.get_balance(name("bob")), 500);
}

#[test]
fn test_create_and_execute_order() {
    let mut contract = Contract::new(Some(name("alice")), name("bob"));

    contract.deposit(name("bob"), 1000).unwrap();

    let order = contract.create_order(name("bob"), 0, name("order1"), 500).unwrap();
    assert_eq!(order.status, OrderStatus::Pending);

    contract
        .execute_order(name("alice"), 0, name("order1"), name("charlie"), 500)
        .unwrap();

    let updated_order = contract.get_order(name("order1")).unwrap();
    assert_eq!(updated_order.status, OrderStatus::Executed);
}

#[test]
fn deposit_then_order_then_execution() {
    let mut vault = vault_of_alice();
    assert_eq!(vault.deposit(name("a"), 1000), Ok(()));
    assert_eq!(vault.get_balance(name("a")), 1000);

    let order = vault.create_order(name("a"), 11, name("o1"), 500).unwrap();
    assert_eq!(
        order,
        Order {
            id: name("o1"),
            maker: name("a"),
            taker: None,
            amount: 500,
            token: None,
            status: OrderStatus::Pending,
            created_at: 11,
            executed_at: None,
        }
    );
    assert_eq!(vault.get_order(name("o1")), Some(order));
    assert_eq!(vault.get_balance(name("a")), 1000);

    let transfer = vault.execute_order(name("alice"), 12, name("o1"), name("b"), 500);
    assert_eq!(transfer, Ok(Transfer { to: name("b"), amount: 500 }));
    assert_eq!(vault.get_balance(name("a")), 500);
    assert_eq!(vault.get_balance(name("b")), 0);
    assert_eq!(
        vault.get_order(name("o1")),
        Some(Order {
            id: name("o1"),
            maker: name("a"),
            taker: Some(name("b")),
            amount: 500,
            token: None,
            status: OrderStatus::Executed,
            created_at: 11,
            executed_at: Some(12),
        })
    );

    let again = vault.execute_order(name("alice"), 13, name("o1"), name("b"), 500);
    assert_eq!(again, Err(VaultError::InvalidState));
    assert_eq!(vault.get_balance(name("a")), 500);
    assert_eq!(vault.get_order(name("o1")).unwrap().executed_at, Some(12));
}

#[test]
fn order_without_funds_is_not_stored() {
    let mut vault = vault_of_alice();
    let outcome = vault.create_order(name("c"), 1, name("o2"), 100);
    assert_eq!(outcome, Err(VaultError::InsufficientBalance));
    assert_eq!(vault.get_order(name("o2")), None);
    assert_eq!(vault.get_balance(name("c")), 0);
}

#[test]
fn cancel_after_execution_is_rejected() {
    let mut vault = vault_of_alice();
    vault.deposit(name("a"), 1000).unwrap();
    vault.create_order(name("a"), 1, name("o1"), 500).unwrap();
    vault.execute_order(name("alice"), 2, name("o1"), name("b"), 500).unwrap();

    assert_eq!(vault.cancel_order(name("a"), name("o1")), Err(VaultError::InvalidState));
    assert_eq!(vault.get_order(name("o1")).unwrap().status, OrderStatus::Executed);
}

#[test]
fn deposit_of_nothing_is_rejected() {
    let mut vault = vault_of_alice();
    assert_eq!(vault.deposit(name("bob"), 0), Err(VaultError::InvalidInput));
    assert_eq!(vault.get_balance(name("bob")), 0);
    assert_eq!(vault.get_total_deposits(), 0);
}

#[test]
fn deposits_add_up() {
    let mut vault = vault_of_alice();
    vault.deposit(name("bob"), 7).unwrap();
    vault.deposit(name("carol"), 5).unwrap();
    vault.deposit(name("bob"), 30).unwrap();
    assert_eq!(vault.get_balance(name("bob")), 37);
    assert_eq!(vault.get_balance(name("carol")), 5);
    assert_eq!(vault.get_balance(name("dave")), 0);
    assert_eq!(vault.get_total_deposits(), 42);
}

#[test]
fn withdraw_more_than_held_is_rejected() {
    let mut vault = vault_of_alice();
    vault.deposit(name("bob"), 100).unwrap();
    assert_eq!(vault.withdraw(name("bob"), 101), Err(VaultError::InsufficientBalance));
    assert_eq!(vault.get_balance(name("bob")), 100);
    assert_eq!(vault.get_total_deposits(), 100);
    assert_eq!(vault.withdraw(name("nobody"), 1), Err(VaultError::InsufficientBalance));
}

#[test]
fn withdraw_all_that_is_held() {
    let mut vault = vault_of_alice();
    vault.deposit(name("bob"), 100).unwrap();
    vault.deposit(name("carol"), 1).unwrap();
    assert_eq!(
        vault.withdraw(name("bob"), 100),
        Ok(Transfer { to: name("bob"), amount: 100 })
    );
    assert_eq!(vault.get_balance(name("bob")), 0);
    assert_eq!(vault.get_balance(name("carol")), 1);
    assert_eq!(vault.get_total_deposits(), 1);
}

#[test]
fn withdraw_of_nothing_from_an_unknown_account() {
    let mut vault = vault_of_alice();
    assert_eq!(
        vault.withdraw(name("nobody"), 0),
        Ok(Transfer { to: name("nobody"), amount: 0 })
    );
    assert_eq!(vault.get_balance(name("nobody")), 0);
    assert_eq!(vault.get_total_deposits(), 0);
}

#[test]
fn balance_is_deposits_less_accepted_withdrawals() {
    let mut vault = vault_of_alice();
    let mut deposited: u128 = 0;
    let mut withdrawn: u128 = 0;
    let calls: [(bool, u128); 8] = [
        (true, 10),
        (false, 4),
        (false, 7),
        (true, 0),
        (true, 5),
        (false, 11),
        (false, 12),
        (false, 0),
    ];
    for (is_deposit, amount) in calls {
        if is_deposit {
            if vault.deposit(name("bob"), amount).is_ok() {
                deposited += amount;
            }
        } else if vault.withdraw(name("bob"), amount).is_ok() {
            withdrawn += amount;
        }
        assert_eq!(vault.get_balance(name("bob")), deposited - withdrawn);
    }
    assert_eq!(deposited, 15);
    assert_eq!(withdrawn, 15);
    assert_eq!(vault.get_balance(name("bob")), 0);
}

#[test]
fn counter_ignores_executions() {
    let mut vault = vault_of_alice();
    vault.deposit(name("bob"), 1000).unwrap();
    vault.create_order(name("bob"), 1, name("o"), 400).unwrap();
    vault.execute_order(name("alice"), 2, name("o"), name("carol"), 400).unwrap();
    assert_eq!(vault.get_balance(name("bob")), 600);
    assert_eq!(vault.get_total_deposits(), 1000);
    vault.withdraw(name("bob"), 600).unwrap();
    assert_eq!(vault.get_total_deposits(), 400);
}

#[test]
fn created_order_is_found_pending() {
    let mut vault = vault_of_alice();
    vault.deposit(name("bob"), 50).unwrap();
    vault.create_order(name("bob"), 77, name("first"), 50).unwrap();
    let found = vault.get_order(name("first")).unwrap();
    assert_eq!(found.status, OrderStatus::Pending);
    assert_eq!(found.taker, None);
    assert_eq!(found.executed_at, None);
    assert_eq!(found.maker, name("bob"));
    assert_eq!(found.created_at, 77);
    assert_eq!(found.token, None);
}

#[test]
fn order_for_exactly_the_balance_and_for_nothing() {
    let mut vault = vault_of_alice();
    vault.deposit(name("bob"), 50).unwrap();
    assert!(vault.create_order(name("bob"), 1, name("all"), 50).is_ok());
    assert!(vault.create_order(name("bob"), 1, name("none"), 0).is_ok());
    assert!(vault.create_order(name("stranger"), 1, name("free"), 0).is_ok());
    assert_eq!(
        vault.create_order(name("bob"), 1, name("more"), 51),
        Err(VaultError::InsufficientBalance)
    );
}

#[test]
fn creating_sets_nothing_aside() {
    let mut vault = vault_of_alice();
    vault.deposit(name("bob"), 100).unwrap();
    vault.create_order(name("bob"), 1, name("x"), 80).unwrap();
    vault.create_order(name("bob"), 1, name("y"), 80).unwrap();
    assert_eq!(vault.get_balance(name("bob")), 100);

    assert!(vault.execute_order(name("alice"), 2, name("x"), name("t"), 80).is_ok());
    assert_eq!(
        vault.execute_order(name("alice"), 3, name("y"), name("t"), 80),
        Err(VaultError::InsufficientBalance)
    );
    assert_eq!(vault.get_order(name("y")).unwrap().status, OrderStatus::Pending);
    assert_eq!(vault.get_balance(name("bob")), 20);
}

#[test]
fn withdrawal_before_execution_starves_the_order() {
    let mut vault = vault_of_alice();
    vault.deposit(name("bob"), 100).unwrap();
    vault.create_order(name("bob"), 1, name("x"), 100).unwrap();
    vault.withdraw(name("bob"), 1).unwrap();
    assert_eq!(
        vault.execute_order(name("alice"), 2, name("x"), name("t"), 100),
        Err(VaultError::InsufficientBalance)
    );
    assert_eq!(vault.get_balance(name("bob")), 99);
}

#[test]
fn same_identifier_replaces_the_order() {
    let mut vault = vault_of_alice();
    vault.deposit(name("bob"), 100).unwrap();
    vault.deposit(name("carol"), 100).unwrap();
    vault.create_order(name("bob"), 1, name("x"), 10).unwrap();
    vault.execute_order(name("alice"), 2, name("x"), name("t"), 10).unwrap();

    vault.create_order(name("carol"), 3, name("x"), 20).unwrap();
    let found = vault.get_order(name("x")).unwrap();
    assert_eq!(found.maker, name("carol"));
    assert_eq!(found.amount, 20);
    assert_eq!(found.status, OrderStatus::Pending);
    assert_eq!(found.taker, None);
    assert_eq!(found.executed_at, None);
    assert_eq!(found.created_at, 3);
}

#[test]
fn execution_checks_come_in_order() {
    let mut vault = vault_of_alice();
    vault.deposit(name("bob"), 100).unwrap();
    vault.create_order(name("bob"), 1, name("x"), 60).unwrap();

    assert_eq!(
        vault.execute_order(name("mallory"), 2, name("missing"), name("t"), 1),
        Err(VaultError::OrderNotFound)
    );
    assert_eq!(
        vault.execute_order(name("mallory"), 2, name("x"), name("t"), 61),
        Err(VaultError::AmountMismatch)
    );
    assert_eq!(
        vault.execute_order(name("mallory"), 2, name("x"), name("t"), 60),
        Err(VaultError::Unauthorized)
    );
    vault.withdraw(name("bob"), 50).unwrap();
    assert_eq!(
        vault.execute_order(name("mallory"), 2, name("x"), name("t"), 60),
        Err(VaultError::Unauthorized)
    );
    assert_eq!(
        vault.execute_order(name("alice"), 2, name("x"), name("t"), 60),
        Err(VaultError::InsufficientBalance)
    );
    vault.deposit(name("bob"), 10).unwrap();
    assert!(vault.execute_order(name("alice"), 2, name("x"), name("t"), 60).is_ok());
    assert_eq!(
        vault.execute_order(name("mallory"), 3, name("x"), name("t"), 61),
        Err(VaultError::InvalidState)
    );
    assert_eq!(vault.get_balance(name("bob")), 0);
}

#[test]
fn solvers_execute_orders() {
    let mut vault = vault_of_alice();
    vault.deposit(name("bob"), 100).unwrap();
    vault.create_order(name("bob"), 1, name("x"), 10).unwrap();
    vault.create_order(name("bob"), 1, name("y"), 10).unwrap();
    assert_eq!(
        vault.execute_order(name("my-solver.near"), 5, name("x"), name("t"), 10),
        Ok(Transfer { to: name("t"), amount: 10 })
    );
    assert_eq!(
        vault.execute_order(name("solve.near"), 5, name("y"), name("t"), 10),
        Err(VaultError::Unauthorized)
    );
    assert!(vault.is_authorized_solver(&name("alice")));
    assert!(vault.is_authorized_solver(&name("solver")));
    assert!(vault.is_authorized_solver(&name("xsolverx")));
    assert!(!vault.is_authorized_solver(&name("bob")));
    assert!(!vault.is_authorized_solver(&name("Solver")));
    assert!(!vault.is_authorized_solver(&name("")));
}

#[test]
fn maker_may_take_own_order() {
    let mut vault = vault_of_alice();
    vault.deposit(name("alice"), 9).unwrap();
    vault.create_order(name("alice"), 1, name("self"), 9).unwrap();
    assert_eq!(
        vault.execute_order(name("alice"), 2, name("self"), name("alice"), 9),
        Ok(Transfer { to: name("alice"), amount: 9 })
    );
    assert_eq!(vault.get_balance(name("alice")), 0);
}

#[test]
fn only_the_maker_cancels() {
    let mut vault = vault_of_alice();
    vault.deposit(name("bob"), 100).unwrap();
    vault.create_order(name("bob"), 1, name("x"), 10).unwrap();

    assert_eq!(vault.cancel_order(name("bob"), name("missing")), Err(VaultError::OrderNotFound));
    assert_eq!(vault.cancel_order(name("alice"), name("x")), Err(VaultError::Unauthorized));
    assert_eq!(vault.get_order(name("x")).unwrap().status, OrderStatus::Pending);

    assert_eq!(vault.cancel_order(name("bob"), name("x")), Ok(()));
    let found = vault.get_order(name("x")).unwrap();
    assert_eq!(found.status, OrderStatus::Cancelled);
    assert_eq!(found.taker, None);
    assert_eq!(found.executed_at, None);
    assert_eq!(vault.get_balance(name("bob")), 100);

    assert_eq!(vault.cancel_order(name("bob"), name("x")), Err(VaultError::InvalidState));
    assert_eq!(vault.cancel_order(name("alice"), name("x")), Err(VaultError::Unauthorized));
    assert_eq!(
        vault.execute_order(name("alice"), 2, name("x"), name("t"), 10),
        Err(VaultError::InvalidState)
    );
}

#[test]
fn caller_owns_a_vault_without_named_owner() {
    let mut vault = Contract::new(None, name("bob"));
    vault.deposit(name("carol"), 5).unwrap();
    vault.create_order(name("carol"), 1, name("x"), 5).unwrap();
    assert_eq!(vault.require_owner(&name("bob")), Ok(()));
    assert_eq!(vault.require_owner(&name("alice")), Err(VaultError::Unauthorized));
    assert_eq!(
        vault.execute_order(name("alice"), 2, name("x"), name("t"), 5),
        Err(VaultError::Unauthorized)
    );
    assert!(vault.execute_order(name("bob"), 2, name("x"), name("t"), 5).is_ok());
}

#[test]
fn balances_lists_the_native_asset() {
    let mut vault = vault_of_alice();
    assert_eq!(vault.get_balances(name("bob")), vec![(None, 0)]);
    vault.deposit(name("bob"), 12).unwrap();
    assert_eq!(vault.get_balances(name("bob")), vec![(None, 12)]);
}

#[test]
fn unknown_order_is_not_found() {
    let vault = vault_of_alice();
    assert_eq!(vault.get_order(name("none")), None);
    assert_eq!(vault.get_order(name("")), None);
}

#[test]
fn key_registration_is_the_owners_for_one_unit() {
    let vault = vault_of_alice();
    assert_eq!(vault.add_public_key(name("alice"), 1), Ok(()));
    assert_eq!(vault.add_public_key(name("alice"), 0), Err(VaultError::InvalidInput));
    assert_eq!(vault.add_public_key(name("alice"), 2), Err(VaultError::InvalidInput));
    assert_eq!(vault.add_public_key(name("bob"), 1), Err(VaultError::Unauthorized));
    assert_eq!(vault.add_public_key(name("bob"), 0), Err(VaultError::InvalidInput));
    assert_eq!(vault.add_public_key(name("a-solver"), 1), Err(VaultError::Unauthorized));
}

#[test]
fn large_amounts_fit() {
    let mut vault = vault_of_alice();
    vault.deposit(name("bob"), u128::MAX - 1).unwrap();
    vault.deposit(name("carol"), 1).unwrap();
    assert_eq!(vault.get_total_deposits(), u128::MAX);
    assert_eq!(vault.get_balance(name("bob")), u128::MAX - 1);
    vault.withdraw(name("bob"), u128::MAX - 1).unwrap();
    assert_eq!(vault.get_total_deposits(), 1);
}
