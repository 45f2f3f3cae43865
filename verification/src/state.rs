//! The vault as a mathematical value, and what each operation makes of it.
//!
//! Every operation has two spec functions here: its check, which says whether
//! the call is accepted and why not, and its step, which gives the vault after
//! the call. A rejected call leaves the vault as it was.

use crate::auth::{authorized, key_registration_check};
use crate::error::VaultError;
use crate::ledger::{
    counter_after_withdrawal, lemma_balance_within_total, lemma_total_insert, total_balance,
    Balances,
};
use crate::order::OrderView;
use vstd::prelude::*;

verus! {

/// The two tables of a vault, its reporting counter and its owner.
#[verifier::ext_equal]
pub struct VaultState {
    pub balances: Balances,
    pub orders: Map<Seq<char>, OrderView>,
    pub total_deposits: nat,
    pub owner: Seq<char>,
}

impl VaultState {
    /// The vault of `owner` before any call.
    pub open spec fn fresh(owner: Seq<char>) -> VaultState {
        VaultState { balances: Map::empty(), orders: Map::empty(), total_deposits: 0, owner }
    }

    /// What `account` holds; nothing, if it never received a deposit.
    pub open spec fn balance_of(self, account: Seq<char>) -> nat {
        if self.balances.contains_key(account) {
            self.balances[account]
        } else {
            0
        }
    }

    /// The order recorded under `id`, if there is one.
    pub open spec fn order(self, id: Seq<char>) -> Option<OrderView> {
        if self.orders.contains_key(id) {
            Some(self.orders[id])
        } else {
            None
        }
    }

    /// Finitely many accounts hold a balance, all balances together never
    /// exceed the counter of deposits, and every order stands under its own
    /// identifier and is well formed.
    pub open spec fn wf(self) -> bool {
        &&& self.balances.dom().finite()
        &&& total_balance(self.balances) <= self.total_deposits
        &&& forall|id: Seq<char>| #[trigger]
            self.orders.contains_key(id) ==> self.orders[id].id == id && self.orders[id].wf()
    }

    /// A deposit is accepted unless it is a deposit of nothing.
    pub open spec fn deposit_check(self, amount: nat) -> Result<(), VaultError> {
        if amount == 0 {
            Err(VaultError::InvalidInput)
        } else {
            Ok(())
        }
    }

    /// The vault after `account` has deposited `amount`.
    pub open spec fn deposit(self, account: Seq<char>, amount: nat) -> VaultState {
        if self.deposit_check(amount) is Err {
            self
        } else {
            VaultState {
                balances: self.balances.insert(account, self.balance_of(account) + amount),
                total_deposits: self.total_deposits + amount,
                ..self
            }
        }
    }

    /// A withdrawal is accepted unless it asks for more than the account holds.
    pub open spec fn withdraw_check(
        self,
        account: Seq<char>,
        amount: nat,
    ) -> Result<(), VaultError> {
        if amount > self.balance_of(account) {
            Err(VaultError::InsufficientBalance)
        } else {
            Ok(())
        }
    }

    /// The vault after `account` has asked to withdraw `amount`.
    pub open spec fn withdraw(self, account: Seq<char>, amount: nat) -> VaultState {
        if self.withdraw_check(account, amount) is Err {
            self
        } else {
            VaultState {
                balances: self.balances.insert(
                    account,
                    (self.balance_of(account) - amount) as nat,
                ),
                total_deposits: counter_after_withdrawal(self.total_deposits, amount),
                ..self
            }
        }
    }

    /// An order is accepted unless it is for more than its maker holds.
    pub open spec fn create_order_check(
        self,
        caller: Seq<char>,
        amount: nat,
    ) -> Result<(), VaultError> {
        if amount > self.balance_of(caller) {
            Err(VaultError::InsufficientBalance)
        } else {
            Ok(())
        }
    }

    /// The vault after `caller` has asked, at time `now`, for an order `id`
    /// for `amount`. An order that stood under `id` before is replaced.
    pub open spec fn create_order(
        self,
        caller: Seq<char>,
        now: u64,
        id: Seq<char>,
        amount: nat,
    ) -> VaultState {
        if self.create_order_check(caller, amount) is Err {
            self
        } else {
            VaultState {
                orders: self.orders.insert(id, OrderView::pending(id, caller, amount, now)),
                ..self
            }
        }
    }

    /// Whether `caller` can execute order `id` for `amount`, and if not, why.
    /// The checks come in this order: the order exists, it is pending, the
    /// amount is the order's, the caller is authorized, the maker holds the
    /// amount.
    pub open spec fn execute_order_check(
        self,
        caller: Seq<char>,
        id: Seq<char>,
        amount: nat,
    ) -> Result<(), VaultError> {
        if !self.orders.contains_key(id) {
            Err(VaultError::OrderNotFound)
        } else {
            self.orders[id].execute_check(
                amount,
                authorized(caller, self.owner),
                self.balance_of(self.orders[id].maker),
            )
        }
    }

    /// The vault after `caller` has asked, at time `now`, to execute order
    /// `id` for `amount` in favour of `taker`: the order is executed and the
    /// amount has left the maker's balance.
    pub open spec fn execute_order(
        self,
        caller: Seq<char>,
        now: u64,
        id: Seq<char>,
        taker: Seq<char>,
        amount: nat,
    ) -> VaultState {
        if self.execute_order_check(caller, id, amount) is Err {
            self
        } else {
            let maker = self.orders[id].maker;
            VaultState {
                balances: self.balances.insert(maker, (self.balance_of(maker) - amount) as nat),
                orders: self.orders.insert(id, self.orders[id].executed(taker, now)),
                ..self
            }
        }
    }

    /// Whether `caller` can cancel order `id`, and if not, why. The checks
    /// come in this order: the order exists, the caller is its maker, it is
    /// pending.
    pub open spec fn cancel_order_check(
        self,
        caller: Seq<char>,
        id: Seq<char>,
    ) -> Result<(), VaultError> {
        if !self.orders.contains_key(id) {
            Err(VaultError::OrderNotFound)
        } else {
            self.orders[id].cancel_check(caller)
        }
    }

    /// The vault after `caller` has asked to cancel order `id`. No balance
    /// changes.
    pub open spec fn cancel_order(self, caller: Seq<char>, id: Seq<char>) -> VaultState {
        if self.cancel_order_check(caller, id) is Err {
            self
        } else {
            VaultState { orders: self.orders.insert(id, self.orders[id].cancelled()), ..self }
        }
    }

    /// Whether `caller`, with `attached` units of the native asset attached
    /// to the call, can have a public key registered.
    pub open spec fn add_public_key_check(
        self,
        caller: Seq<char>,
        attached: nat,
    ) -> Result<(), VaultError> {
        key_registration_check(caller, self.owner, attached)
    }
}

/// A fresh vault is well formed.
pub proof fn lemma_fresh_wf(owner: Seq<char>)
    ensures
        VaultState::fresh(owner).wf(),
{
}

/// A deposit keeps the vault well formed, and adds the same amount to the
/// account, to all balances together and to the counter.
pub proof fn lemma_deposit_wf(vault: VaultState, account: Seq<char>, amount: nat)
    requires
        vault.wf(),
    ensures
        vault.deposit(account, amount).wf(),
        vault.deposit(account, amount).balance_of(account) == vault.balance_of(account) + amount,
        total_balance(vault.deposit(account, amount).balances) == total_balance(vault.balances)
            + amount,
        vault.deposit(account, amount).total_deposits == vault.total_deposits + amount,
{
    lemma_total_insert(vault.balances, account, vault.balance_of(account) + amount);
    if vault.balances.contains_key(account) {
        lemma_balance_within_total(vault.balances, account);
    }
}

/// A withdrawal keeps the vault well formed. In a well-formed vault the
/// counter never has to stop at zero: an accepted withdrawal takes its amount
/// from the account, from all balances together and from the counter.
pub proof fn lemma_withdraw_wf(vault: VaultState, account: Seq<char>, amount: nat)
    requires
        vault.wf(),
    ensures
        vault.withdraw(account, amount).wf(),
        vault.withdraw_check(account, amount) is Ok ==> {
            let after = vault.withdraw(account, amount);
            &&& after.balance_of(account) == vault.balance_of(account) - amount
            &&& total_balance(after.balances) == total_balance(vault.balances) - amount
            &&& after.total_deposits == vault.total_deposits - amount
        },
{
    if vault.withdraw_check(account, amount) is Ok {
        lemma_total_insert(
            vault.balances,
            account,
            (vault.balance_of(account) - amount) as nat,
        );
        if vault.balances.contains_key(account) {
            lemma_balance_within_total(vault.balances, account);
        }
    }
}

/// Creating an order keeps the vault well formed and moves no funds.
pub proof fn lemma_create_order_wf(
    vault: VaultState,
    caller: Seq<char>,
    now: u64,
    id: Seq<char>,
    amount: nat,
)
    requires
        vault.wf(),
    ensures
        vault.create_order(caller, now, id, amount).wf(),
        vault.create_order(caller, now, id, amount).balances == vault.balances,
        vault.create_order(caller, now, id, amount).total_deposits == vault.total_deposits,
{
}

/// Executing an order keeps the vault well formed: the amount leaves the
/// maker's balance, and the counter stays.
pub proof fn lemma_execute_order_wf(
    vault: VaultState,
    caller: Seq<char>,
    now: u64,
    id: Seq<char>,
    taker: Seq<char>,
    amount: nat,
)
    requires
        vault.wf(),
    ensures
        vault.execute_order(caller, now, id, taker, amount).wf(),
        vault.execute_order(caller, now, id, taker, amount).total_deposits
            == vault.total_deposits,
        vault.execute_order_check(caller, id, amount) is Ok ==> {
            let after = vault.execute_order(caller, now, id, taker, amount);
            let maker = vault.orders[id].maker;
            &&& after.balance_of(maker) == vault.balance_of(maker) - amount
            &&& total_balance(after.balances) == total_balance(vault.balances) - amount
        },
{
    if vault.execute_order_check(caller, id, amount) is Ok {
        let maker = vault.orders[id].maker;
        lemma_total_insert(vault.balances, maker, (vault.balance_of(maker) - amount) as nat);
        if vault.balances.contains_key(maker) {
            lemma_balance_within_total(vault.balances, maker);
        }
    }
}

/// Cancelling an order keeps the vault well formed and moves no funds.
pub proof fn lemma_cancel_order_wf(vault: VaultState, caller: Seq<char>, id: Seq<char>)
    requires
        vault.wf(),
    ensures
        vault.cancel_order(caller, id).wf(),
        vault.cancel_order(caller, id).balances == vault.balances,
        vault.cancel_order(caller, id).total_deposits == vault.total_deposits,
{
}

} // verus!
