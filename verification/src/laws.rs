//! What holds of every vault, whatever calls it has seen.

use crate::auth::authorized;
use crate::error::VaultError;
use crate::state::{
    lemma_cancel_order_wf, lemma_create_order_wf, lemma_deposit_wf, lemma_execute_order_wf,
    lemma_withdraw_wf, VaultState,
};
use vstd::prelude::*;

verus! {

/// One call to a vault, with what the host knows of it.
pub enum Call {
    Deposit { account: Seq<char>, amount: nat },
    Withdraw { account: Seq<char>, amount: nat },
    CreateOrder { caller: Seq<char>, now: u64, id: Seq<char>, amount: nat },
    ExecuteOrder { caller: Seq<char>, now: u64, id: Seq<char>, taker: Seq<char>, amount: nat },
    CancelOrder { caller: Seq<char>, id: Seq<char> },
}

/// Whether `vault` accepts `call`, and if not, why.
pub open spec fn check(vault: VaultState, call: Call) -> Result<(), VaultError> {
    match call {
        Call::Deposit { account, amount } => vault.deposit_check(amount),
        Call::Withdraw { account, amount } => vault.withdraw_check(account, amount),
        Call::CreateOrder { caller, now, id, amount } => vault.create_order_check(caller, amount),
        Call::ExecuteOrder { caller, now, id, taker, amount } => vault.execute_order_check(
            caller,
            id,
            amount,
        ),
        Call::CancelOrder { caller, id } => vault.cancel_order_check(caller, id),
    }
}

/// The vault after `call`.
pub open spec fn step(vault: VaultState, call: Call) -> VaultState {
    match call {
        Call::Deposit { account, amount } => vault.deposit(account, amount),
        Call::Withdraw { account, amount } => vault.withdraw(account, amount),
        Call::CreateOrder { caller, now, id, amount } => vault.create_order(
            caller,
            now,
            id,
            amount,
        ),
        Call::ExecuteOrder { caller, now, id, taker, amount } => vault.execute_order(
            caller,
            now,
            id,
            taker,
            amount,
        ),
        Call::CancelOrder { caller, id } => vault.cancel_order(caller, id),
    }
}

/// The vault after `calls`, one after the other.
pub open spec fn run(vault: VaultState, calls: Seq<Call>) -> VaultState
    decreases calls.len(),
{
    if calls.len() == 0 {
        vault
    } else {
        step(run(vault, calls.drop_last()), calls.last())
    }
}

/// What `call` deposits into `account`.
pub open spec fn deposit_of(call: Call, account: Seq<char>) -> nat {
    match call {
        Call::Deposit { account: into, amount } => if into == account {
            amount
        } else {
            0
        },
        _ => 0,
    }
}

/// What `call` withdraws from `account`: nothing, if `vault` rejects it.
pub open spec fn withdrawal_of(vault: VaultState, call: Call, account: Seq<char>) -> nat {
    match call {
        Call::Withdraw { account: from, amount } => if from == account && check(vault, call)
            is Ok {
            amount
        } else {
            0
        },
        _ => 0,
    }
}

/// What `call` pays out of `account` by executing one of its orders:
/// nothing, if `vault` rejects it.
pub open spec fn settlement_of(vault: VaultState, call: Call, account: Seq<char>) -> nat {
    match call {
        Call::ExecuteOrder { caller, now, id, taker, amount } => if check(vault, call) is Ok
            && vault.orders[id].maker == account {
            amount
        } else {
            0
        },
        _ => 0,
    }
}

/// All that `calls` deposit into `account`.
pub open spec fn deposited(calls: Seq<Call>, account: Seq<char>) -> nat
    decreases calls.len(),
{
    if calls.len() == 0 {
        0
    } else {
        deposited(calls.drop_last(), account) + deposit_of(calls.last(), account)
    }
}

/// All that `calls`, made one after the other on `vault`, withdraw from
/// `account`.
pub open spec fn withdrawn(vault: VaultState, calls: Seq<Call>, account: Seq<char>) -> nat
    decreases calls.len(),
{
    if calls.len() == 0 {
        0
    } else {
        withdrawn(vault, calls.drop_last(), account) + withdrawal_of(
            run(vault, calls.drop_last()),
            calls.last(),
            account,
        )
    }
}

/// All that `calls`, made one after the other on `vault`, pay out of
/// `account` by executing its orders.
pub open spec fn settled(vault: VaultState, calls: Seq<Call>, account: Seq<char>) -> nat
    decreases calls.len(),
{
    if calls.len() == 0 {
        0
    } else {
        settled(vault, calls.drop_last(), account) + settlement_of(
            run(vault, calls.drop_last()),
            calls.last(),
            account,
        )
    }
}

/// `call` is a deposit into `account` or a withdrawal from it.
pub open spec fn is_ledger_call_of(call: Call, account: Seq<char>) -> bool {
    match call {
        Call::Deposit { account: into, amount } => into == account,
        Call::Withdraw { account: from, amount } => from == account,
        _ => false,
    }
}

/// A rejected call changes nothing.
pub proof fn lemma_rejected_call_changes_nothing(vault: VaultState, call: Call)
    requires
        check(vault, call) is Err,
    ensures
        step(vault, call) == vault,
{
}

/// What an accepted call tells. Who has an order executed is the owner or a
/// solver and names the order's amount; who has one cancelled is its maker;
/// no withdrawal, order or execution is for more than the account holds; and
/// no deposit is a deposit of nothing.
pub proof fn lemma_accepted_call(vault: VaultState, call: Call)
    requires
        check(vault, call) is Ok,
    ensures
        match call {
            Call::ExecuteOrder { caller, now, id, taker, amount } => {
                &&& authorized(caller, vault.owner)
                &&& vault.orders.contains_key(id)
                &&& vault.orders[id].amount == amount
                &&& amount <= vault.balance_of(vault.orders[id].maker)
            },
            Call::CancelOrder { caller, id } => {
                &&& vault.orders.contains_key(id)
                &&& vault.orders[id].maker == caller
            },
            Call::Withdraw { account, amount } => amount <= vault.balance_of(account),
            Call::CreateOrder { caller, now, id, amount } => amount <= vault.balance_of(caller),
            Call::Deposit { account, amount } => amount > 0,
        },
{
}

/// Every call keeps a well-formed vault well formed: all balances together
/// never exceed the counter of deposits.
pub proof fn lemma_step_wf(vault: VaultState, call: Call)
    requires
        vault.wf(),
    ensures
        step(vault, call).wf(),
{
    match call {
        Call::Deposit { account, amount } => lemma_deposit_wf(vault, account, amount),
        Call::Withdraw { account, amount } => lemma_withdraw_wf(vault, account, amount),
        Call::CreateOrder { caller, now, id, amount } => lemma_create_order_wf(
            vault,
            caller,
            now,
            id,
            amount,
        ),
        Call::ExecuteOrder { caller, now, id, taker, amount } => lemma_execute_order_wf(
            vault,
            caller,
            now,
            id,
            taker,
            amount,
        ),
        Call::CancelOrder { caller, id } => lemma_cancel_order_wf(vault, caller, id),
    }
}

/// Whatever calls a well-formed vault has seen, it is still well formed.
pub proof fn lemma_run_wf(vault: VaultState, calls: Seq<Call>)
    requires
        vault.wf(),
    ensures
        run(vault, calls).wf(),
    decreases calls.len(),
{
    if calls.len() > 0 {
        lemma_run_wf(vault, calls.drop_last());
        lemma_step_wf(run(vault, calls.drop_last()), calls.last());
    }
}

/// One call changes a balance by what it deposits, less what it withdraws
/// and what it pays out for an executed order.
pub proof fn lemma_step_balance(vault: VaultState, call: Call, account: Seq<char>)
    ensures
        step(vault, call).balance_of(account) + withdrawal_of(vault, call, account)
            + settlement_of(vault, call, account) == vault.balance_of(account) + deposit_of(
            call,
            account,
        ),
{
}

/// After any calls, an account holds what it held before, plus its
/// deposits, less its accepted withdrawals and what its executed orders paid
/// out. So these never take more than was there.
pub proof fn lemma_run_balance(vault: VaultState, calls: Seq<Call>, account: Seq<char>)
    ensures
        run(vault, calls).balance_of(account) + withdrawn(vault, calls, account) + settled(
            vault,
            calls,
            account,
        ) == vault.balance_of(account) + deposited(calls, account),
    decreases calls.len(),
{
    if calls.len() > 0 {
        lemma_run_balance(vault, calls.drop_last(), account);
        lemma_step_balance(run(vault, calls.drop_last()), calls.last(), account);
    }
}

/// After deposits and withdrawals of one account, in any number and order,
/// the account holds what it held before, plus the sum of its deposits, less
/// the sum of its accepted withdrawals; and that is never less than nothing.
pub proof fn lemma_ledger_calls_balance(vault: VaultState, calls: Seq<Call>, account: Seq<char>)
    requires
        forall|i: int| 0 <= i < calls.len() ==> is_ledger_call_of(#[trigger] calls[i], account),
    ensures
        run(vault, calls).balance_of(account) == vault.balance_of(account) + deposited(
            calls,
            account,
        ) - withdrawn(vault, calls, account),
        vault.balance_of(account) + deposited(calls, account) - withdrawn(vault, calls, account)
            >= 0,
{
    lemma_run_balance(vault, calls, account);
    lemma_ledger_calls_settle_nothing(vault, calls, account);
}

/// Deposits and withdrawals execute no order.
proof fn lemma_ledger_calls_settle_nothing(
    vault: VaultState,
    calls: Seq<Call>,
    account: Seq<char>,
)
    requires
        forall|i: int| 0 <= i < calls.len() ==> is_ledger_call_of(#[trigger] calls[i], account),
    ensures
        settled(vault, calls, account) == 0,
    decreases calls.len(),
{
    if calls.len() > 0 {
        let earlier = calls.drop_last();
        assert forall|i: int| 0 <= i < earlier.len() implies is_ledger_call_of(
            #[trigger] earlier[i],
            account,
        ) by {
            assert(earlier[i] == calls[i]);
        }
        lemma_ledger_calls_settle_nothing(vault, earlier, account);
        assert(is_ledger_call_of(calls[calls.len() - 1], account));
    }
}

/// An order that has just been created is pending, has no taker and no
/// execution time, and belongs to the caller.
pub proof fn lemma_created_order_is_pending(
    vault: VaultState,
    caller: Seq<char>,
    now: u64,
    id: Seq<char>,
    amount: nat,
)
    requires
        vault.create_order_check(caller, amount) is Ok,
    ensures
        vault.create_order(caller, now, id, amount).order(id) matches Some(order)
            && order.status is Pending && order.taker is None && order.executed_at is None
            && order.maker == caller && order.amount == amount && order.created_at == now,
{
}

/// A pending order is executed once. An authorized caller who names the
/// order's amount, while the maker holds it, has the order executed: the
/// amount leaves the maker's balance and the order carries the taker and the
/// time. Whoever asks again, with whatever amount, is rejected with
/// `InvalidState`, and nothing changes.
pub proof fn lemma_order_executes_once(
    vault: VaultState,
    caller: Seq<char>,
    now: u64,
    id: Seq<char>,
    taker: Seq<char>,
    amount: nat,
    next_caller: Seq<char>,
    next_now: u64,
    next_taker: Seq<char>,
    next_amount: nat,
)
    requires
        vault.orders.contains_key(id),
        vault.orders[id].status is Pending,
        vault.orders[id].amount == amount,
        authorized(caller, vault.owner),
        vault.balance_of(vault.orders[id].maker) >= amount,
    ensures
        vault.execute_order_check(caller, id, amount) is Ok,
        ({
            let after = vault.execute_order(caller, now, id, taker, amount);
            &&& after.order(id) == Some(vault.orders[id].executed(taker, now))
            &&& after.orders[id].status is Executed
            &&& after.balance_of(vault.orders[id].maker) == vault.balance_of(
                vault.orders[id].maker,
            ) - amount
            &&& after.execute_order_check(next_caller, id, next_amount) == Err::<
                (),
                VaultError,
            >(VaultError::InvalidState)
            &&& after.execute_order(next_caller, next_now, id, next_taker, next_amount) == after
        }),
{
}

/// Only its maker cancels an order. Anyone else is rejected with
/// `Unauthorized` and the order stays as it is; the maker of a pending order
/// has it cancelled, and no balance changes.
pub proof fn lemma_cancel_is_the_makers(vault: VaultState, caller: Seq<char>, id: Seq<char>)
    requires
        vault.orders.contains_key(id),
    ensures
        vault.orders[id].maker != caller ==> vault.cancel_order_check(caller, id) == Err::<
            (),
            VaultError,
        >(VaultError::Unauthorized) && vault.cancel_order(caller, id) == vault,
        vault.orders[id].maker == caller && vault.orders[id].status is Pending
            ==> vault.cancel_order_check(caller, id) is Ok && vault.cancel_order(caller, id).order(
            id,
        ) == Some(vault.orders[id].cancelled()) && vault.cancel_order(
            caller,
            id,
        ).orders[id].status is Cancelled && vault.cancel_order(caller, id).balances
            == vault.balances,
{
}

/// No call removes an account from the ledger: an account that has once
/// stood there stays, even with nothing left in it.
pub proof fn lemma_accounts_stay(vault: VaultState, call: Call, account: Seq<char>)
    requires
        vault.balances.contains_key(account),
    ensures
        step(vault, call).balances.contains_key(account),
{
}

/// In a well-formed vault the counter of deposits moves with accepted
/// deposits and withdrawals, by their amount, and with nothing else: an
/// executed order leaves it where it was.
pub proof fn lemma_step_counter(vault: VaultState, call: Call)
    requires
        vault.wf(),
    ensures
        ({
            let after = step(vault, call).total_deposits;
            match call {
                Call::Deposit { account, amount } => after == vault.total_deposits + amount,
                Call::Withdraw { account, amount } => after == vault.total_deposits
                    - withdrawal_of(vault, call, account),
                _ => after == vault.total_deposits,
            }
        }),
{
    if let Call::Withdraw { account, amount } = call {
        lemma_withdraw_wf(vault, account, amount);
    }
}

/// No call removes an order.
pub proof fn lemma_orders_stay(vault: VaultState, call: Call, id: Seq<char>)
    requires
        vault.orders.contains_key(id),
    ensures
        step(vault, call).orders.contains_key(id),
{
}

/// No call marks an order as failed: an order that is failed after a call
/// was so before.
pub proof fn lemma_no_call_fails_an_order(vault: VaultState, call: Call, id: Seq<char>)
    requires
        step(vault, call).orders.contains_key(id),
        step(vault, call).orders[id].status is Failed,
    ensures
        vault.orders.contains_key(id),
        vault.orders[id].status is Failed,
{
}

/// `call` creates an order under `id`.
pub open spec fn creates(call: Call, id: Seq<char>) -> bool {
    call matches Call::CreateOrder { id: created, .. } && created == id
}

/// An order moves one way only. Unless a new order is created under its
/// identifier, a call leaves an order as it is, or takes it from pending to
/// executed or cancelled; and an order that is no longer pending stays as it
/// is.
pub proof fn lemma_status_moves_one_way(vault: VaultState, call: Call, id: Seq<char>)
    requires
        vault.orders.contains_key(id),
        !creates(call, id),
    ensures
        ({
            let before = vault.orders[id];
            let after = step(vault, call).orders[id];
            &&& after == before || (before.status is Pending && (after.status is Executed
                || after.status is Cancelled))
            &&& !(before.status is Pending) ==> after == before
            &&& after.id == before.id && after.maker == before.maker && after.amount
                == before.amount && after.created_at == before.created_at
        }),
{
}

} // verus!
