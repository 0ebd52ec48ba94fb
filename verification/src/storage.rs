//! The ink! storage hash maps that hold the ledgers' entries.
//!
//! Everything that is taken on trust about `ink_storage::collections::HashMap` stands in this
//! file: Verus does not read the bodies of the functions below, it believes their contracts.
//! Each map type keeps one such map in a private field. A value of it is only ever made
//! empty, by `HashMap::new`, so it has no storage key and never reaches into contract
//! storage: every entry lives in the map's in-memory cache.
//!
//! The map numbers its keys with a `u32`, so adding a key to a map that already holds
//! `u32::MAX` keys is left out of every contract here.

use crate::amounts::{lower, raise, AccountId, Balance};
use crate::incrementer::add_to;
use ink_storage::collections::HashMap;
use vstd::prelude::*;

verus! {

/// Amounts by account, kept in an ink! storage hash map.
#[verifier::external_body]
pub struct BalanceMap {
    inner: HashMap<AccountId, Balance>,
}

/// The entries that a balance map holds.
pub uninterp spec fn balance_entries(map: BalanceMap) -> Map<AccountId, Balance>;

/// `HashMap::new`: a map without entries.
#[verifier::external_body]
pub(crate) fn balances_new() -> (map: BalanceMap)
    ensures
        (balance_entries(map) == Map::<AccountId, Balance>::empty()),
{
    BalanceMap { inner: HashMap::new() }
}

/// `HashMap::len`: the number of entries.
#[verifier::external_body]
pub(crate) fn balances_len(map: &BalanceMap) -> (len: u32)
    requires
        balance_entries(*map).dom().finite(),
    ensures
        len == balance_entries(*map).len(),
{
    map.inner.len()
}

/// `HashMap::get`, the amount copied out: what the map holds for `account`, if anything.
#[verifier::external_body]
pub(crate) fn balances_get(map: &BalanceMap, account: &AccountId) -> (found: Option<Balance>)
    ensures
        found == (if balance_entries(*map).contains_key(*account) {
            Some(balance_entries(*map)[*account])
        } else {
            None
        }),
{
    map.inner.get(account).copied()
}

/// `HashMap::insert`: the map then holds `amount` for `account` and every other entry as
/// before; the amount held before comes back.
#[verifier::external_body]
pub(crate) fn balances_insert(
    map: &mut BalanceMap,
    account: AccountId,
    amount: Balance,
) -> (previous: Option<Balance>)
    requires
        balance_entries(*old(map)).dom().finite(),
        balance_entries(*old(map)).contains_key(account) || balance_entries(*old(map)).len()
            < u32::MAX,
    ensures
        balance_entries(*final(map)) == balance_entries(*old(map)).insert(account, amount),
        previous == (if balance_entries(*old(map)).contains_key(account) {
            Some(balance_entries(*old(map))[account])
        } else {
            None
        }),
{
    map.inner.insert(account, amount)
}

/// `HashMap::entry` and `Entry::and_modify` with [`lower`]: an entry for `account` is lowered
/// in place by `by`; without such an entry nothing changes.
#[verifier::external_body]
pub(crate) fn balances_lower(map: &mut BalanceMap, account: AccountId, by: Balance)
    requires
        balance_entries(*old(map)).contains_key(account) ==> by <= balance_entries(
            *old(map),
        )[account],
    ensures
        balance_entries(*final(map)) == (if balance_entries(*old(map)).contains_key(account) {
            balance_entries(*old(map)).insert(
                account,
                (balance_entries(*old(map))[account] - by) as Balance,
            )
        } else {
            balance_entries(*old(map))
        }),
{
    map.inner.entry(account).and_modify(|amount| lower(amount, by));
}

/// `HashMap::entry`, `Entry::and_modify` with [`raise`], then `Entry::or_insert`: an entry for
/// `account` is raised in place by `by`; without such an entry one is made that holds `by`.
#[verifier::external_body]
pub(crate) fn balances_raise(map: &mut BalanceMap, account: AccountId, by: Balance)
    requires
        balance_entries(*old(map)).dom().finite(),
        balance_entries(*old(map)).contains_key(account) || balance_entries(*old(map)).len()
            < u32::MAX,
        balance_entries(*old(map)).contains_key(account) ==> balance_entries(
            *old(map),
        )[account] + by <= Balance::MAX,
    ensures
        balance_entries(*final(map)) == (if balance_entries(*old(map)).contains_key(account) {
            balance_entries(*old(map)).insert(
                account,
                (balance_entries(*old(map))[account] + by) as Balance,
            )
        } else {
            balance_entries(*old(map)).insert(account, by)
        }),
{
    map.inner.entry(account).and_modify(|amount| raise(amount, by)).or_insert(by);
}

/// Amounts by owner and spender, kept in an ink! storage hash map.
#[verifier::external_body]
pub struct AllowanceMap {
    inner: HashMap<(AccountId, AccountId), Balance>,
}

/// The entries that an allowance map holds.
pub uninterp spec fn allowance_entries(map: AllowanceMap) -> Map<(AccountId, AccountId), Balance>;

/// `HashMap::new`: a map without entries.
#[verifier::external_body]
pub(crate) fn allowances_new() -> (map: AllowanceMap)
    ensures
        (allowance_entries(map) == Map::<(AccountId, AccountId), Balance>::empty()),
{
    AllowanceMap { inner: HashMap::new() }
}

/// `HashMap::len`: the number of entries.
#[verifier::external_body]
pub(crate) fn allowances_len(map: &AllowanceMap) -> (len: u32)
    requires
        allowance_entries(*map).dom().finite(),
    ensures
        len == allowance_entries(*map).len(),
{
    map.inner.len()
}

/// `HashMap::get`, the amount copied out: what the map holds for `pair`, if anything.
#[verifier::external_body]
pub(crate) fn allowances_get(
    map: &AllowanceMap,
    pair: &(AccountId, AccountId),
) -> (found: Option<Balance>)
    ensures
        found == (if allowance_entries(*map).contains_key(*pair) {
            Some(allowance_entries(*map)[*pair])
        } else {
            None
        }),
{
    map.inner.get(pair).copied()
}

/// `HashMap::insert`: the map then holds `amount` for `pair` and every other entry as before;
/// the amount held before comes back.
#[verifier::external_body]
pub(crate) fn allowances_insert(
    map: &mut AllowanceMap,
    pair: (AccountId, AccountId),
    amount: Balance,
) -> (previous: Option<Balance>)
    requires
        allowance_entries(*old(map)).dom().finite(),
        allowance_entries(*old(map)).contains_key(pair) || allowance_entries(*old(map)).len()
            < u32::MAX,
    ensures
        allowance_entries(*final(map)) == allowance_entries(*old(map)).insert(pair, amount),
        previous == (if allowance_entries(*old(map)).contains_key(pair) {
            Some(allowance_entries(*old(map))[pair])
        } else {
            None
        }),
{
    map.inner.insert(pair, amount)
}

/// Numbers by account, kept in an ink! storage hash map.
#[verifier::external_body]
pub struct NumberMap {
    inner: HashMap<AccountId, i32>,
}

/// The entries that a number map holds.
pub uninterp spec fn number_entries(map: NumberMap) -> Map<AccountId, i32>;

/// `Default::default` of the hash map, which is `HashMap::new`: a map without entries.
#[verifier::external_body]
pub(crate) fn numbers_default() -> (map: NumberMap)
    ensures
        (number_entries(map) == Map::<AccountId, i32>::empty()),
{
    NumberMap { inner: Default::default() }
}

/// `HashMap::len`: the number of entries.
#[verifier::external_body]
pub(crate) fn numbers_len(map: &NumberMap) -> (len: u32)
    requires
        number_entries(*map).dom().finite(),
    ensures
        len == number_entries(*map).len(),
{
    map.inner.len()
}

/// `HashMap::get`, the number copied out: what the map holds for `account`, if anything.
#[verifier::external_body]
pub(crate) fn numbers_get(map: &NumberMap, account: &AccountId) -> (found: Option<i32>)
    ensures
        found == (if number_entries(*map).contains_key(*account) {
            Some(number_entries(*map)[*account])
        } else {
            None
        }),
{
    map.inner.get(account).copied()
}

/// `HashMap::entry`, `Entry::and_modify` with [`add_to`], then `Entry::or_insert`: an entry
/// for `account` is changed in place by `by`; without such an entry one is made that holds
/// `by`.
#[verifier::external_body]
pub(crate) fn numbers_add(map: &mut NumberMap, account: AccountId, by: i32)
    requires
        number_entries(*old(map)).dom().finite(),
        number_entries(*old(map)).contains_key(account) || number_entries(*old(map)).len()
            < u32::MAX,
        number_entries(*old(map)).contains_key(account) ==> i32::MIN <= number_entries(
            *old(map),
        )[account] + by <= i32::MAX,
    ensures
        number_entries(*final(map)) == (if number_entries(*old(map)).contains_key(account) {
            number_entries(*old(map)).insert(
                account,
                (number_entries(*old(map))[account] + by) as i32,
            )
        } else {
            number_entries(*old(map)).insert(account, by)
        }),
{
    map.inner.entry(account).and_modify(|number| add_to(number, by)).or_insert(by);
}

} // verus!
