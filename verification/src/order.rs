//! Orders and their lifecycle.
//!
//! An order is created pending. From there it is executed or cancelled, once,
//! and then stays as it is.

use crate::error::VaultError;
use crate::ledger::Transfer;
use vstd::prelude::*;

verus! {

/// Where an order stands in its lifecycle.
#[derive(Clone, Copy, Debug, PartialEq, Eq, Structural)]
pub enum OrderStatus {
    Pending,
    Executed,
    Cancelled,
    /// Set by a host whose transfer failed; no operation of this crate sets it.
    Failed,
}

/// A maker's offer to move a fixed amount out of their balance.
#[derive(Debug, PartialEq, Eq)]
pub struct Order {
    pub id: String,
    pub maker: String,
    pub taker: Option<String>,
    pub amount: u128,
    /// Reserved for other assets; `None` is the native asset.
    pub token: Option<String>,
    pub status: OrderStatus,
    pub created_at: u64,
    pub executed_at: Option<u64>,
}

/// What the execution of an order comes to: the order as it stands
/// afterwards, what its maker then holds, and the transfer to ask for.
#[derive(Debug, PartialEq, Eq)]
pub struct Settlement {
    pub order: Order,
    pub maker_balance: u128,
    pub transfer: Transfer,
}

/// An order as a mathematical value.
pub struct OrderView {
    pub id: Seq<char>,
    pub maker: Seq<char>,
    pub taker: Option<Seq<char>>,
    pub amount: nat,
    pub token: Option<Seq<char>>,
    pub status: OrderStatus,
    pub created_at: u64,
    pub executed_at: Option<u64>,
}

/// The characters of an optional name.
pub open spec fn name_view(name: Option<String>) -> Option<Seq<char>> {
    match name {
        Some(text) => Some(text@),
        None => None,
    }
}

impl View for Order {
    type V = OrderView;

    open spec fn view(&self) -> OrderView {
        OrderView {
            id: self.id@,
            maker: self.maker@,
            taker: name_view(self.taker),
            amount: self.amount as nat,
            token: name_view(self.token),
            status: self.status,
            created_at: self.created_at,
            executed_at: self.executed_at,
        }
    }
}

impl OrderView {
    /// The order that `maker` creates at time `now`.
    pub open spec fn pending(id: Seq<char>, maker: Seq<char>, amount: nat, now: u64) -> OrderView {
        OrderView {
            id,
            maker,
            taker: None,
            amount,
            token: None,
            status: OrderStatus::Pending,
            created_at: now,
            executed_at: None,
        }
    }

    /// Taker and execution time are set on executed orders, and on no order
    /// that is pending or cancelled. Every order is in the native asset.
    pub open spec fn wf(self) -> bool {
        &&& self.token is None
        &&& self.status is Executed ==> self.taker is Some && self.executed_at is Some
        &&& self.status is Pending || self.status is Cancelled ==> self.taker is None
            && self.executed_at is None
    }

    /// Whether the order can be executed for `amount`, and if not, why. The
    /// checks come in this order: the status, the amount, the caller's role,
    /// the maker's funds.
    pub open spec fn execute_check(
        self,
        amount: nat,
        authorized: bool,
        maker_balance: nat,
    ) -> Result<(), VaultError> {
        if !(self.status is Pending) {
            Err(VaultError::InvalidState)
        } else if self.amount != amount {
            Err(VaultError::AmountMismatch)
        } else if !authorized {
            Err(VaultError::Unauthorized)
        } else if maker_balance < amount {
            Err(VaultError::InsufficientBalance)
        } else {
            Ok(())
        }
    }

    /// The order after its execution in favour of `taker` at time `now`.
    pub open spec fn executed(self, taker: Seq<char>, now: u64) -> OrderView {
        OrderView {
            taker: Some(taker),
            status: OrderStatus::Executed,
            executed_at: Some(now),
            ..self
        }
    }

    /// Whether `caller` can cancel the order, and if not, why. Only the maker
    /// can, and only while the order is pending.
    pub open spec fn cancel_check(self, caller: Seq<char>) -> Result<(), VaultError> {
        if self.maker != caller {
            Err(VaultError::Unauthorized)
        } else if !(self.status is Pending) {
            Err(VaultError::InvalidState)
        } else {
            Ok(())
        }
    }

    /// The order after its cancellation.
    pub open spec fn cancelled(self) -> OrderView {
        OrderView { status: OrderStatus::Cancelled, ..self }
    }
}

/// A copy of an optional name.
fn copy_name(name: &Option<String>) -> (copy: Option<String>)
    ensures
        copy == *name,
{
    match name {
        Some(text) => Some(text.clone()),
        None => None,
    }
}

impl Clone for Order {
    fn clone(&self) -> (copy: Self)
        ensures
            copy == *self,
    {
        Order {
            id: self.id.clone(),
            maker: self.maker.clone(),
            taker: copy_name(&self.taker),
            amount: self.amount,
            token: copy_name(&self.token),
            status: self.status,
            created_at: self.created_at,
            executed_at: self.executed_at,
        }
    }
}

impl Order {
    /// A pending order of `maker` for `amount`, created at time `now`.
    pub fn new(id: String, maker: String, amount: u128, now: u64) -> (order: Order)
        ensures
            order@ == OrderView::pending(id@, maker@, amount as nat, now),
            order@.wf(),
    {
        Order {
            id,
            maker,
            taker: None,
            amount,
            token: None,
            status: OrderStatus::Pending,
            created_at: now,
            executed_at: None,
        }
    }

    /// Executes the order for `amount` in favour of `taker`, or says why it
    /// cannot be executed. `authorized` tells whether the caller may execute
    /// orders, `maker_balance` what the maker holds.
    pub fn execute(
        &self,
        amount: u128,
        authorized: bool,
        maker_balance: u128,
        taker: String,
        now: u64,
    ) -> (outcome: Result<Settlement, VaultError>)
        ensures
            match outcome {
                Ok(settlement) => {
                    &&& self@.execute_check(amount as nat, authorized, maker_balance as nat) is Ok
                    &&& settlement.order@ == self@.executed(taker@, now)
                    &&& settlement.maker_balance == maker_balance - amount
                    &&& settlement.transfer.to@ == taker@
                    &&& settlement.transfer.amount == amount
                },
                Err(reason) => self@.execute_check(amount as nat, authorized, maker_balance as nat)
                    == Err::<(), VaultError>(reason),
            },
    {
        if self.status != OrderStatus::Pending {
            return Err(VaultError::InvalidState);
        }
        if self.amount != amount {
            return Err(VaultError::AmountMismatch);
        }
        if !authorized {
            return Err(VaultError::Unauthorized);
        }
        if maker_balance < amount {
            return Err(VaultError::InsufficientBalance);
        }
        let order = Order {
            id: self.id.clone(),
            maker: self.maker.clone(),
            taker: Some(taker.clone()),
            amount: self.amount,
            token: copy_name(&self.token),
            status: OrderStatus::Executed,
            created_at: self.created_at,
            executed_at: Some(now),
        };
        Ok(
            Settlement {
                order,
                maker_balance: maker_balance - amount,
                transfer: Transfer { to: taker, amount },
            },
        )
    }

    /// Cancels the order on behalf of `caller`, or says why it cannot be
    /// cancelled.
    pub fn cancel(&self, caller: &String) -> (outcome: Result<Order, VaultError>)
        ensures
            match outcome {
                Ok(done) => self@.cancel_check(caller@) is Ok && done@ == self@.cancelled(),
                Err(reason) => self@.cancel_check(caller@) == Err::<(), VaultError>(reason),
            },
    {
        if self.maker != *caller {
            return Err(VaultError::Unauthorized);
        }
        if self.status != OrderStatus::Pending {
            return Err(VaultError::InvalidState);
        }
        let mut done = self.clone();
        done.status = OrderStatus::Cancelled;
        Ok(done)
    }
}

} // verus!
