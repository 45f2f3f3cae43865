//! The vault that runs: two tables, the counter of deposits and the owner.
//!
//! Each operation takes what the host knows of the call (who calls, what is
//! attached, what time it is) as arguments, checks before it writes, and
//! returns the transfer that the host is to carry out.
//!
//! A vault is well formed at all times: no caller has to show it, and every
//! operation says so of the vault it leaves behind.

use crate::auth::{check_key_registration, is_authorized_solver, require_owner};
use crate::error::VaultError;
use crate::ledger::{
    check_funds, credit, debit, lemma_balance_within_total, Balances, Transfer,
};
use crate::order::Order;
use crate::state::{
    lemma_cancel_order_wf, lemma_create_order_wf, lemma_deposit_wf, lemma_execute_order_wf,
    lemma_withdraw_wf, VaultState,
};
use crate::table::Table;
use vstd::prelude::*;

verus! {

/// An escrow vault.
pub struct Contract {
    balances: Table<u128>,
    orders: Table<Order>,
    total_near_deposits: u128,
    owner: String,
}

/// The balances of a table as natural numbers.
spec fn amounts(held: Map<Seq<char>, u128>) -> Balances {
    held.map_values(|amount: u128| amount as nat)
}

impl View for Contract {
    type V = VaultState;

    closed spec fn view(&self) -> VaultState {
        VaultState {
            balances: amounts(self.balances@),
            orders: self.orders@,
            total_deposits: self.total_near_deposits as nat,
            owner: self.owner@,
        }
    }
}

impl Contract {
    /// The vault that the tables stand for is well formed.
    #[verifier::type_invariant]
    spec fn well_formed(self) -> bool {
        self@.wf()
    }

    /// A vault without balances or orders. Its owner is `owner`, or the
    /// caller where none is named.
    pub fn new(owner: Option<String>, caller: String) -> (vault: Contract)
        ensures
            vault@.wf(),
            vault@ == VaultState::fresh(
                match owner {
                    Some(name) => name@,
                    None => caller@,
                },
            ),
    {
        let owner = match owner {
            Some(name) => name,
            None => caller,
        };
        let balances: Table<u128> = Table::new();
        assert(amounts(balances@) =~= Map::empty());
        let vault = Contract { balances, orders: Table::new(), total_near_deposits: 0, owner };
        assert(vault@ =~= VaultState::fresh(owner@));
        vault
    }

    /// What `account` holds.
    fn balance(&self, account: &String) -> (held: u128)
        ensures
            held as nat == self@.balance_of(account@),
            held <= self@.total_deposits,
            self@.wf(),
    {
        proof {
            use_type_invariant(self);
        }
        match self.balances.get(account) {
            Some(held) => {
                proof {
                    lemma_balance_within_total(self@.balances, account@);
                }
                *held
            },
            None => 0,
        }
    }

    /// Records that `account` holds `held` from now on.
    fn set_balance(&mut self, account: String, held: u128)
        requires
            (VaultState {
                balances: old(self)@.balances.insert(account@, held as nat),
                ..old(self)@
            }).wf(),
        ensures
            final(self)@ == (VaultState {
                balances: old(self)@.balances.insert(account@, held as nat),
                ..old(self)@
            }),
    {
        proof {
            use_type_invariant(&*self);
        }
        let ghost before = self@;
        let mut balances: Table<u128> = Table::new();
        assert(amounts(balances@) =~= Map::empty());
        std::mem::swap(&mut balances, &mut self.balances);
        balances.insert(account, held);
        assert(amounts(balances@) =~= before.balances.insert(account@, held as nat));
        self.balances = balances;
    }

    /// Records `order` under `id`.
    fn set_order(&mut self, id: String, order: Order)
        requires
            (VaultState { orders: old(self)@.orders.insert(id@, order@), ..old(self)@ }).wf(),
        ensures
            final(self)@ == (VaultState {
                orders: old(self)@.orders.insert(id@, order@),
                ..old(self)@
            }),
    {
        proof {
            use_type_invariant(&*self);
        }
        let mut orders: Table<Order> = Table::new();
        std::mem::swap(&mut orders, &mut self.orders);
        orders.insert(id, order);
        self.orders = orders;
    }

    /// Credits `amount` to `account`. A deposit of nothing is rejected with
    /// `InvalidInput`.
    pub fn deposit(&mut self, account: String, amount: u128) -> (outcome: Result<(), VaultError>)
        requires
            old(self)@.total_deposits + amount <= u128::MAX,
        ensures
            final(self)@.wf(),
            outcome == old(self)@.deposit_check(amount as nat),
            final(self)@ == old(self)@.deposit(account@, amount as nat),
            outcome is Err ==> final(self)@ == old(self)@,
    {
        let held = self.balance(&account);
        proof {
            lemma_deposit_wf(self@, account@, amount as nat);
        }
        match credit(held, self.total_near_deposits, amount) {
            Ok((held_after, deposits_after)) => {
                self.total_near_deposits = deposits_after;
                self.set_balance(account, held_after);
                assert(self@ =~= old(self)@.deposit(account@, amount as nat));
                Ok(())
            },
            Err(reason) => Err(reason),
        }
    }

    /// Debits `amount` from `account` and asks for its transfer to the
    /// account. More than the account holds is rejected with
    /// `InsufficientBalance`.
    pub fn withdraw(
        &mut self,
        account: String,
        amount: u128,
    ) -> (outcome: Result<Transfer, VaultError>)
        ensures
            final(self)@.wf(),
            final(self)@ == old(self)@.withdraw(account@, amount as nat),
            match outcome {
                Ok(transfer) => old(self)@.withdraw_check(account@, amount as nat) is Ok
                    && transfer.to@ == account@ && transfer.amount == amount,
                Err(reason) => old(self)@.withdraw_check(account@, amount as nat)
                    == Err::<(), VaultError>(reason) && final(self)@ == old(self)@,
            },
    {
        let held = self.balance(&account);
        proof {
            lemma_withdraw_wf(self@, account@, amount as nat);
        }
        match debit(held, self.total_near_deposits, amount) {
            Ok((held_after, deposits_after)) => {
                self.set_balance(account.clone(), held_after);
                self.total_near_deposits = deposits_after;
                assert(self@ =~= old(self)@.withdraw(account@, amount as nat));
                Ok(Transfer { to: account, amount })
            },
            Err(reason) => Err(reason),
        }
    }

    /// Executes order `order_id` for `amount` in favour of `taker`, on behalf
    /// of `caller` at time `now`: the order becomes executed, the amount
    /// leaves the maker's balance, and its transfer to the taker is asked for.
    pub fn execute_order(
        &mut self,
        caller: String,
        now: u64,
        order_id: String,
        taker: String,
        amount: u128,
    ) -> (outcome: Result<Transfer, VaultError>)
        ensures
            final(self)@.wf(),
            final(self)@ == old(self)@.execute_order(
                caller@,
                now,
                order_id@,
                taker@,
                amount as nat,
            ),
            match outcome {
                Ok(transfer) => old(self)@.execute_order_check(caller@, order_id@, amount as nat)
                    is Ok && transfer.to@ == taker@ && transfer.amount == amount,
                Err(reason) => old(self)@.execute_order_check(caller@, order_id@, amount as nat)
                    == Err::<(), VaultError>(reason) && final(self)@ == old(self)@,
            },
    {
        proof {
            use_type_invariant(&*self);
            lemma_execute_order_wf(self@, caller@, now, order_id@, taker@, amount as nat);
        }
        let allowed = is_authorized_solver(&caller, &self.owner);
        let (settlement, maker) = match self.orders.get(&order_id) {
            None => {
                return Err(VaultError::OrderNotFound);
            },
            Some(order) => {
                let maker_held = self.balance(&order.maker);
                match order.execute(amount, allowed, maker_held, taker, now) {
                    Err(reason) => {
                        return Err(reason);
                    },
                    Ok(settlement) => (settlement, order.maker.clone()),
                }
            },
        };
        self.set_order(order_id, settlement.order);
        self.set_balance(maker, settlement.maker_balance);
        assert(self@ =~= old(self)@.execute_order(
            caller@,
            now,
            order_id@,
            taker@,
            amount as nat,
        ));
        Ok(settlement.transfer)
    }

    /// Records a pending order `order_id` of `caller` for `amount`, created
    /// at time `now`, and returns it. The caller must hold the amount when
    /// the order is created; nothing is set aside for it.
    pub fn create_order(
        &mut self,
        caller: String,
        now: u64,
        order_id: String,
        amount: u128,
    ) -> (outcome: Result<Order, VaultError>)
        ensures
            final(self)@.wf(),
            final(self)@ == old(self)@.create_order(caller@, now, order_id@, amount as nat),
            match outcome {
                Ok(order) => old(self)@.create_order_check(caller@, amount as nat) is Ok
                    && final(self)@.order(order_id@) == Some(order@),
                Err(reason) => old(self)@.create_order_check(caller@, amount as nat)
                    == Err::<(), VaultError>(reason) && final(self)@ == old(self)@,
            },
    {
        proof {
            use_type_invariant(&*self);
            lemma_create_order_wf(self@, caller@, now, order_id@, amount as nat);
        }
        let held = self.balance(&caller);
        match check_funds(held, amount) {
            Err(reason) => Err(reason),
            Ok(()) => {
                let order = Order::new(order_id.clone(), caller, amount, now);
                self.set_order(order_id, order.clone());
                assert(self@ =~= old(self)@.create_order(
                    caller@,
                    now,
                    order_id@,
                    amount as nat,
                ));
                Ok(order)
            },
        }
    }

    /// Cancels order `order_id` on behalf of `caller`. No balance changes.
    pub fn cancel_order(
        &mut self,
        caller: String,
        order_id: String,
    ) -> (outcome: Result<(), VaultError>)
        ensures
            final(self)@.wf(),
            outcome == old(self)@.cancel_order_check(caller@, order_id@),
            final(self)@ == old(self)@.cancel_order(caller@, order_id@),
            outcome is Err ==> final(self)@ == old(self)@,
    {
        proof {
            use_type_invariant(&*self);
            lemma_cancel_order_wf(self@, caller@, order_id@);
        }
        let done = match self.orders.get(&order_id) {
            None => {
                return Err(VaultError::OrderNotFound);
            },
            Some(order) => match order.cancel(&caller) {
                Err(reason) => {
                    return Err(reason);
                },
                Ok(done) => done,
            },
        };
        self.set_order(order_id, done);
        assert(self@ =~= old(self)@.cancel_order(caller@, order_id@));
        Ok(())
    }

    /// What `account_id` holds; nothing, if it never received a deposit.
    pub fn get_balance(&self, account_id: String) -> (held: u128)
        ensures
            held as nat == self@.balance_of(account_id@),
            self@.wf(),
    {
        self.balance(&account_id)
    }

    /// What `account_id` holds, asset by asset: one entry, for the native
    /// asset, which has no name.
    pub fn get_balances(&self, account_id: String) -> (held: Vec<(Option<String>, u128)>)
        ensures
            held@.len() == 1,
            held@[0].0 is None,
            held@[0].1 as nat == self@.balance_of(account_id@),
            self@.wf(),
    {
        let mut held: Vec<(Option<String>, u128)> = Vec::new();
        held.push((None, self.balance(&account_id)));
        held
    }

    /// The order recorded under `order_id`, if there is one.
    pub fn get_order(&self, order_id: String) -> (found: Option<Order>)
        ensures
            match found {
                Some(order) => self@.order(order_id@) == Some(order@),
                None => self@.order(order_id@) is None,
            },
            self@.wf(),
    {
        proof {
            use_type_invariant(self);
        }
        match self.orders.get(&order_id) {
            Some(order) => Some(order.clone()),
            None => None,
        }
    }

    /// The counter of deposits.
    pub fn get_total_deposits(&self) -> (deposits: u128)
        ensures
            deposits as nat == self@.total_deposits,
            self@.wf(),
    {
        proof {
            use_type_invariant(self);
        }
        self.total_near_deposits
    }

    /// Whether `caller` may execute orders of this vault.
    pub fn is_authorized_solver(&self, caller: &String) -> (allowed: bool)
        ensures
            allowed == crate::auth::authorized(caller@, self@.owner),
    {
        is_authorized_solver(caller, &self.owner)
    }

    /// Accepts `caller` as the owner, or rejects them with `Unauthorized`.
    pub fn require_owner(&self, caller: &String) -> (outcome: Result<(), VaultError>)
        ensures
            caller@ == self@.owner ==> outcome == Ok::<(), VaultError>(()),
            caller@ != self@.owner ==> outcome == Err::<(), VaultError>(VaultError::Unauthorized),
    {
        require_owner(caller, &self.owner)
    }

    /// Decides whether `caller` may have a public key registered with another
    /// contract. The call must carry exactly one unit of the native asset,
    /// else it is rejected with `InvalidInput`; a caller other than the owner
    /// is rejected with `Unauthorized`. The registration itself is the host's.
    pub fn add_public_key(
        &self,
        caller: String,
        attached_deposit: u128,
    ) -> (outcome: Result<(), VaultError>)
        ensures
            outcome == self@.add_public_key_check(caller@, attached_deposit as nat),
    {
        check_key_registration(&caller, &self.owner, attached_deposit)
    }
}

} // verus!
