//! The token ledger, kept in ink! storage hash maps.
//!
//! The host resolves the caller of each call and hands it in; the events of a call are
//! appended to a log that the host then emits.

use crate::amounts::{AccountId, Balance};
use crate::ledger::{lemma_issued_wf, lemma_moved, Call, Ledger};
use crate::storage::{
    allowance_entries, allowances_get, allowances_insert, allowances_len, allowances_new,
    balance_entries, balances_get, balances_insert, balances_len, balances_lower, balances_new,
    balances_raise, AllowanceMap, BalanceMap,
};
use vstd::prelude::*;

verus! {

/// Emitted when an amount has moved from one account to another.
#[derive(Clone, Copy, Debug, PartialEq, Eq)]
pub struct Transfer {
    pub from: Option<AccountId>,
    pub to: Option<AccountId>,
    pub value: Balance,
}

/// Emitted when an owner has set what a spender may move.
#[derive(Clone, Copy, Debug, PartialEq, Eq)]
pub struct Approval {
    pub owner: Option<AccountId>,
    pub spender: Option<AccountId>,
    pub value: Balance,
}

/// An entry of the event log.
#[derive(Clone, Copy, Debug, PartialEq, Eq)]
pub enum Event {
    Transfer(Transfer),
    Approval(Approval),
}

/// The event of a completed move.
pub open spec fn transfer_event(from: AccountId, to: AccountId, value: Balance) -> Event {
    Event::Transfer(Transfer { from: Some(from), to: Some(to), value })
}

/// The event of a granted allowance.
pub open spec fn approval_event(owner: AccountId, spender: AccountId, value: Balance) -> Event {
    Event::Approval(Approval { owner: Some(owner), spender: Some(spender), value })
}

/// A token ledger with a fixed supply.
pub struct Erc20 {
    total_supply: Balance,
    balances: BalanceMap,
    allowances: AllowanceMap,
}

impl View for Erc20 {
    type V = Ledger;

    closed spec fn view(&self) -> Ledger {
        Ledger {
            total_supply: self.total_supply,
            balances: balance_entries(self.balances),
            allowances: allowance_entries(self.allowances),
        }
    }
}

impl Erc20 {
    /// Makes a ledger whose whole supply is held by `caller`.
    pub fn new(initial_supply: Balance, caller: AccountId) -> (ledger: Self)
        ensures
            ledger@ == Ledger::issued(initial_supply, caller),
            ledger@.wf(),
    {
        let owner = caller;
        let mut balances = balances_new();
        balances_insert(&mut balances, owner, initial_supply);
        proof {
            lemma_issued_wf(initial_supply, caller);
        }
        Erc20 { total_supply: initial_supply, balances: balances, allowances: allowances_new() }
    }

    /// The supply that the ledger was made with.
    pub fn total_supply(&self) -> (supply: Balance)
        ensures
            supply == self@.total_supply,
    {
        self.total_supply
    }

    /// The amount that `owner` holds: zero for an account that the ledger has no entry for.
    pub fn balance_of(&self, owner: AccountId) -> (balance: Balance)
        ensures
            balance == self@.balance_of(owner),
            !self@.balances.contains_key(owner) ==> balance == 0,
    {
        self.balance_of_or_zero(&owner)
    }

    /// Sets what `spender` may move out of `caller`'s balance to exactly `value`, replacing
    /// what was allowed before, and logs the approval. Always succeeds.
    pub fn approve(
        &mut self,
        caller: AccountId,
        spender: AccountId,
        value: Balance,
        events: &mut Vec<Event>,
    ) -> (ok: bool)
        requires
            old(self)@.wf(),
            old(self)@.room_for_allowance(caller, spender),
        ensures
            ok,
            ok == old(self)@.accepts((Call::Approve { caller, spender, value })),
            final(self)@ == old(self)@.after((Call::Approve { caller, spender, value })),
            final(self)@ == old(self)@.approved(caller, spender, value),
            final(self)@.allowance(caller, spender) == value,
            final(self)@.wf(),
            final(events)@ == old(events)@.push(approval_event(caller, spender, value)),
    {
        let owner = caller;
        allowances_insert(&mut self.allowances, (owner, spender), value);
        events.push(
            Event::Approval(Approval { owner: Some(owner), spender: Some(spender), value: value }),
        );
        true
    }

    /// The amount that `spender` may still move out of `owner`'s balance: zero for a pair
    /// that the ledger has no entry for.
    pub fn allowance(&self, owner: AccountId, spender: AccountId) -> (allowed: Balance)
        ensures
            allowed == self@.allowance(owner, spender),
            !self@.allowances.contains_key((owner, spender)) ==> allowed == 0,
    {
        self.allowance_of_or_zero(&owner, &spender)
    }

    /// Moves `value` from `from` to `to` on `from`'s behalf, against what `from` allowed
    /// `caller`.
    ///
    /// Beyond the allowance the call fails and changes nothing. Within it, the allowance is
    /// lowered by `value` before the balance is looked at, and stays lowered when the call
    /// then fails because `from` holds less than `value`.
    pub fn transfer_from(
        &mut self,
        caller: AccountId,
        from: AccountId,
        to: AccountId,
        value: Balance,
        events: &mut Vec<Event>,
    ) -> (ok: bool)
        requires
            old(self)@.wf(),
            old(self)@.can_spend(from, caller, value) ==> old(self)@.room_for_allowance(
                from,
                caller,
            ),
            old(self)@.can_spend(from, caller, value) && old(self)@.can_move(from, value)
                ==> old(self)@.room_for_holder(to),
        ensures
            ok == old(self)@.accepts((Call::TransferFrom { caller, from, to, value })),
            final(self)@ == old(self)@.after((Call::TransferFrom { caller, from, to, value })),
            ok <==> value <= old(self)@.allowance(from, caller) && value <= old(self)@.balance_of(
                from,
            ),
            final(self)@.wf(),
            value > old(self)@.allowance(from, caller) ==> !ok && final(self)@ == old(self)@,
            value <= old(self)@.allowance(from, caller) && value > old(self)@.balance_of(from)
                ==> !ok && final(self)@.balances == old(self)@.balances
                && final(self)@.allowance(from, caller) == old(self)@.allowance(from, caller)
                - value,
            ok ==> final(self)@ == old(self)@.spent(from, caller, value).moved(from, to, value),
            ok ==> final(events)@ == old(events)@.push(transfer_event(from, to, value)),
            !ok ==> final(events)@ == old(events)@,
    {
        let allowance = self.allowance_of_or_zero(&from, &caller);
        if allowance < value {
            return false;
        }
        allowances_insert(&mut self.allowances, (from, caller), allowance - value);
        let result = self.transfer_from_to(from, to, value, events);
        if !result {
            return false;
        }
        true
    }

    /// Moves `value` from `caller` to `to`. Fails, changing nothing, when `caller` holds
    /// less than `value`.
    pub fn transfer(
        &mut self,
        caller: AccountId,
        to: AccountId,
        value: Balance,
        events: &mut Vec<Event>,
    ) -> (ok: bool)
        requires
            old(self)@.wf(),
            old(self)@.can_move(caller, value) ==> old(self)@.room_for_holder(to),
        ensures
            ok == old(self)@.accepts((Call::Transfer { caller, to, value })),
            final(self)@ == old(self)@.after((Call::Transfer { caller, to, value })),
            ok <==> value <= old(self)@.balance_of(caller),
            final(self)@.wf(),
            value > old(self)@.balance_of(caller) ==> !ok && final(self)@ == old(self)@,
            ok ==> final(self)@ == old(self)@.moved(caller, to, value),
            ok ==> final(events)@ == old(events)@.push(transfer_event(caller, to, value)),
            !ok ==> final(events)@ == old(events)@,
    {
        self.transfer_from_to(caller, to, value, events)
    }

    /// Moves `value` from `from` to `to`. Fails, changing nothing, when `from` holds less
    /// than `value`. The debit is applied before the credit, so a move from an account to
    /// itself leaves its balance as it was.
    pub fn transfer_from_to(
        &mut self,
        from: AccountId,
        to: AccountId,
        value: Balance,
        events: &mut Vec<Event>,
    ) -> (ok: bool)
        requires
            old(self)@.wf(),
            old(self)@.can_move(from, value) ==> old(self)@.room_for_holder(to),
        ensures
            ok == old(self)@.accepts((Call::TransferFromTo { from, to, value })),
            final(self)@ == old(self)@.after((Call::TransferFromTo { from, to, value })),
            ok <==> value <= old(self)@.balance_of(from),
            final(self)@.wf(),
            ok ==> final(self)@ == old(self)@.moved(from, to, value),
            ok && from != to ==> final(self)@.balance_of(from) == old(self)@.balance_of(from)
                - value && final(self)@.balance_of(to) == old(self)@.balance_of(to) + value,
            ok && from == to ==> final(self)@.balance_of(from) == old(self)@.balance_of(from),
            ok ==> final(events)@ == old(events)@.push(transfer_event(from, to, value)),
            !ok ==> final(self)@ == old(self)@ && final(events)@ == old(events)@,
    {
        let from_balance = self.balance_of_or_zero(&from);
        if from_balance < value {
            return false;
        }
        proof {
            lemma_moved(self@, from, to, value);
        }
        balances_lower(&mut self.balances, from, value);
        balances_raise(&mut self.balances, to, value);
        events.push(Event::Transfer(Transfer { from: Some(from), to: Some(to), value: value }));
        true
    }

    /// Whether an amount can be credited to `account`: it has an entry, or the balance map
    /// has room for one more.
    pub fn has_room_for_holder(&self, account: AccountId) -> (room: bool)
        requires
            self@.wf(),
        ensures
            room == self@.room_for_holder(account),
    {
        balances_get(&self.balances, &account).is_some() || balances_len(&self.balances)
            < u32::MAX
    }

    /// Whether an allowance can be written for `owner` and `spender`: the pair has an entry,
    /// or the allowance map has room for one more.
    pub fn has_room_for_allowance(&self, owner: AccountId, spender: AccountId) -> (room: bool)
        requires
            self@.wf(),
        ensures
            room == self@.room_for_allowance(owner, spender),
    {
        allowances_get(&self.allowances, &(owner, spender)).is_some() || allowances_len(
            &self.allowances,
        ) < u32::MAX
    }

    fn balance_of_or_zero(&self, owner: &AccountId) -> (balance: Balance)
        ensures
            balance == self@.balance_of(*owner),
    {
        match balances_get(&self.balances, owner) {
            Some(balance) => balance,
            None => 0,
        }
    }

    fn allowance_of_or_zero(&self, owner: &AccountId, spender: &AccountId) -> (allowed: Balance)
        ensures
            allowed == self@.allowance(*owner, *spender),
    {
        match allowances_get(&self.allowances, &(*owner, *spender)) {
            Some(allowed) => allowed,
            None => 0,
        }
    }
}

} // verus!
