//! Accounts, amounts, and the sum of the amounts that a map holds.

use vstd::prelude::*;

verus! {

/// Identifier of an account: thirty-two opaque bytes, compared as values.
pub type AccountId = [u8; 32];

/// Unsigned amount of tokens.
pub type Balance = u128;

/// The amount that `entries` holds for `account`: an account without an entry holds zero.
pub open spec fn amount_of<K>(entries: Map<K, Balance>, key: K) -> Balance {
    if entries.contains_key(key) {
        entries[key]
    } else {
        0
    }
}

/// The sum of all amounts held in `entries`. Meaningful for finitely many entries.
pub open spec fn total_of(entries: Map<AccountId, Balance>) -> nat
    decreases entries.dom().len(),
    when entries.dom().finite()
{
    if entries.dom().len() == 0 {
        0
    } else {
        let account = entries.dom().choose();
        entries[account] as nat + total_of(entries.remove(account))
    }
}

/// Nothing held sums to zero.
pub proof fn lemma_total_of_empty()
    ensures
        total_of(Map::<AccountId, Balance>::empty()) == 0,
{
    assert(Map::<AccountId, Balance>::empty().dom() =~= Set::empty());
}

/// The sum splits into any one entry and the sum of the others.
pub proof fn lemma_total_of_remove(entries: Map<AccountId, Balance>, account: AccountId)
    requires
        entries.dom().finite(),
        entries.contains_key(account),
    ensures
        total_of(entries) == entries[account] + total_of(entries.remove(account)),
    decreases entries.dom().len(),
{
    let chosen = entries.dom().choose();
    if chosen != account {
        let without_chosen = entries.remove(chosen);
        let without_account = entries.remove(account);
        lemma_total_of_remove(without_chosen, account);
        lemma_total_of_remove(without_account, chosen);
        assert(without_chosen.remove(account) =~= without_account.remove(chosen));
        assert(total_of(without_account) == entries[chosen] + total_of(
            without_account.remove(chosen),
        ));
    }
}

/// Writing `value` for `account` changes the sum by the difference to what the account held.
pub proof fn lemma_total_of_insert(
    entries: Map<AccountId, Balance>,
    account: AccountId,
    value: Balance,
)
    requires
        entries.dom().finite(),
    ensures
        total_of(entries.insert(account, value)) == total_of(entries) - amount_of(entries, account)
            + value,
{
    let written = entries.insert(account, value);
    lemma_total_of_remove(written, account);
    if entries.contains_key(account) {
        lemma_total_of_remove(entries, account);
        assert(written.remove(account) =~= entries.remove(account));
    } else {
        assert(written.remove(account) =~= entries);
    }
}

/// No account holds more than the sum of all amounts.
pub proof fn lemma_amount_within_total(entries: Map<AccountId, Balance>, account: AccountId)
    requires
        entries.dom().finite(),
    ensures
        amount_of(entries, account) <= total_of(entries),
{
    if entries.contains_key(account) {
        lemma_total_of_remove(entries, account);
    }
}

/// Two different accounts together hold no more than the sum of all amounts.
pub proof fn lemma_two_amounts_within_total(
    entries: Map<AccountId, Balance>,
    first: AccountId,
    second: AccountId,
)
    requires
        entries.dom().finite(),
        first != second,
    ensures
        amount_of(entries, first) + amount_of(entries, second) <= total_of(entries),
{
    if entries.contains_key(first) {
        lemma_total_of_remove(entries, first);
        lemma_amount_within_total(entries.remove(first), second);
    } else {
        lemma_amount_within_total(entries, second);
    }
}

/// The sum of what the accounts in `accounts` hold in `entries`. Meaningful for finitely many
/// accounts.
pub open spec fn held_by(entries: Map<AccountId, Balance>, accounts: Set<AccountId>) -> nat
    decreases accounts.len(),
    when accounts.finite()
{
    if accounts.len() == 0 {
        0
    } else {
        let account = accounts.choose();
        amount_of(entries, account) as nat + held_by(entries, accounts.remove(account))
    }
}

/// What a set of accounts holds depends only on what each of them holds.
pub proof fn lemma_held_by_agrees(
    first: Map<AccountId, Balance>,
    second: Map<AccountId, Balance>,
    accounts: Set<AccountId>,
)
    requires
        accounts.finite(),
        forall|account: AccountId|
            accounts.contains(account) ==> amount_of(first, account) == amount_of(
                second,
                account,
            ),
    ensures
        held_by(first, accounts) == held_by(second, accounts),
    decreases accounts.len(),
{
    if accounts.len() != 0 {
        lemma_held_by_agrees(first, second, accounts.remove(accounts.choose()));
    }
}

/// Summing what the accounts hold over any finite set that leaves out no holder gives the
/// sum of all amounts: an account without an entry adds nothing.
pub proof fn lemma_held_by_all(entries: Map<AccountId, Balance>, accounts: Set<AccountId>)
    requires
        accounts.finite(),
        entries.dom().subset_of(accounts),
    ensures
        entries.dom().finite(),
        held_by(entries, accounts) == total_of(entries),
    decreases accounts.len(),
{
    vstd::set_lib::lemma_set_subset_finite(accounts, entries.dom());
    if accounts.len() == 0 {
        assert(entries.dom() =~= Set::empty());
    } else {
        let account = accounts.choose();
        let others = accounts.remove(account);
        if entries.contains_key(account) {
            lemma_total_of_remove(entries, account);
            lemma_held_by_all(entries.remove(account), others);
            lemma_held_by_agrees(entries, entries.remove(account), others);
        } else {
            lemma_held_by_all(entries, others);
        }
    }
}

/// Lowers an amount in place.
pub fn lower(amount: &mut Balance, by: Balance)
    requires
        by <= *old(amount),
    ensures
        *final(amount) == *old(amount) - by,
{
    *amount -= by;
}

/// Raises an amount in place.
pub fn raise(amount: &mut Balance, by: Balance)
    requires
        *old(amount) + by <= Balance::MAX,
    ensures
        *final(amount) == *old(amount) + by,
{
    *amount += by;
}

} // verus!
