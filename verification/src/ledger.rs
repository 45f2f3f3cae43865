//! The arithmetic of the ledger.
//!
//! Balances are natural numbers per account. The total of a ledger is the sum
//! of all its balances, and a reporting counter runs beside it that deposits
//! raise and withdrawals lower.

use crate::error::VaultError;
use vstd::prelude::*;

verus! {

/// What the accounts of a ledger hold, account by account.
pub type Balances = Map<Seq<char>, nat>;

/// The sum of all balances of a ledger with finitely many accounts.
pub open spec fn total_balance(balances: Balances) -> nat
    decreases balances.dom().len(),
    when balances.dom().finite()
{
    if balances.dom().is_empty() {
        0
    } else {
        let account = balances.dom().choose();
        balances[account] + total_balance(balances.remove(account))
    }
}

/// The total is the balance of any one account plus the total of the others.
pub proof fn lemma_total_split(balances: Balances, account: Seq<char>)
    requires
        balances.dom().finite(),
        balances.contains_key(account),
    ensures
        total_balance(balances) == balances[account] + total_balance(balances.remove(account)),
    decreases balances.dom().len(),
{
    let first = balances.dom().choose();
    if first != account {
        let rest = balances.remove(first);
        lemma_total_split(rest, account);
        lemma_total_split(balances.remove(account), first);
        assert(rest.remove(account) =~= balances.remove(account).remove(first));
    }
}

/// Setting one account's balance changes the total by the difference.
pub proof fn lemma_total_insert(balances: Balances, account: Seq<char>, amount: nat)
    requires
        balances.dom().finite(),
    ensures
        total_balance(balances.insert(account, amount)) == total_balance(balances) + amount - (
        if balances.contains_key(account) {
            balances[account]
        } else {
            0
        }),
{
    let after = balances.insert(account, amount);
    lemma_total_split(after, account);
    if balances.contains_key(account) {
        lemma_total_split(balances, account);
        assert(after.remove(account) =~= balances.remove(account));
    } else {
        assert(after.remove(account) =~= balances);
    }
}

/// No account holds more than the ledger holds in all.
pub proof fn lemma_balance_within_total(balances: Balances, account: Seq<char>)
    requires
        balances.dom().finite(),
        balances.contains_key(account),
    ensures
        balances[account] <= total_balance(balances),
{
    lemma_total_split(balances, account);
}

/// A request to the host to move `amount` of the native asset to `to`.
#[derive(Debug, PartialEq, Eq)]
pub struct Transfer {
    pub to: String,
    pub amount: u128,
}

impl Clone for Transfer {
    fn clone(&self) -> (copy: Self)
        ensures
            copy == *self,
    {
        Transfer { to: self.to.clone(), amount: self.amount }
    }
}

/// A deposit of `amount` into an account that holds `balance`, while the
/// counter stands at `deposits`: the new balance and the new counter. A
/// deposit of nothing is rejected.
pub fn credit(
    balance: u128,
    deposits: u128,
    amount: u128,
) -> (outcome: Result<(u128, u128), VaultError>)
    requires
        balance + amount <= u128::MAX,
        deposits + amount <= u128::MAX,
    ensures
        amount == 0 ==> outcome == Err::<(u128, u128), VaultError>(VaultError::InvalidInput),
        amount > 0 ==> outcome == Ok::<(u128, u128), VaultError>(
            ((balance + amount) as u128, (deposits + amount) as u128),
        ),
{
    if amount == 0 {
        return Err(VaultError::InvalidInput);
    }
    Ok((balance + amount, deposits + amount))
}

/// The counter after `amount` has left the ledger: it stops at zero.
pub open spec fn counter_after_withdrawal(deposits: nat, amount: nat) -> nat {
    if deposits >= amount {
        (deposits - amount) as nat
    } else {
        0
    }
}

/// A withdrawal of `amount` from an account that holds `balance`, while the
/// counter stands at `deposits`: the new balance and the new counter. More
/// than the account holds cannot be withdrawn.
pub fn debit(
    balance: u128,
    deposits: u128,
    amount: u128,
) -> (outcome: Result<(u128, u128), VaultError>)
    ensures
        amount > balance ==> outcome == Err::<(u128, u128), VaultError>(
            VaultError::InsufficientBalance,
        ),
        amount <= balance ==> outcome == Ok::<(u128, u128), VaultError>(
            (
                (balance - amount) as u128,
                counter_after_withdrawal(deposits as nat, amount as nat) as u128,
            ),
        ),
{
    if amount > balance {
        return Err(VaultError::InsufficientBalance);
    }
    Ok((balance - amount, deposits.saturating_sub(amount)))
}

/// Whether an account that holds `balance` can back an order for `amount`.
pub fn check_funds(balance: u128, amount: u128) -> (outcome: Result<(), VaultError>)
    ensures
        amount > balance ==> outcome == Err::<(), VaultError>(VaultError::InsufficientBalance),
        amount <= balance ==> outcome == Ok::<(), VaultError>(()),
{
    if amount > balance {
        return Err(VaultError::InsufficientBalance);
    }
    Ok(())
}

} // verus!
