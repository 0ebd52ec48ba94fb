//! The token ledger as a mathematical state machine, and the laws that hold of it.

use crate::amounts::{
    amount_of, held_by, lemma_held_by_all, lemma_total_of_empty, lemma_total_of_insert,
    lemma_two_amounts_within_total, total_of, AccountId, Balance,
};
use vstd::prelude::*;

verus! {

/// What a token ledger holds.
pub struct Ledger {
    /// The supply, fixed when the ledger is made.
    pub total_supply: Balance,
    /// Amounts by holder. An account without an entry holds zero.
    pub balances: Map<AccountId, Balance>,
    /// Amounts by owner and spender. A pair without an entry is allowed zero.
    pub allowances: Map<(AccountId, AccountId), Balance>,
}

/// One call of a mutating operation, with the caller that the host resolved.
pub enum Call {
    Approve { caller: AccountId, spender: AccountId, value: Balance },
    Transfer { caller: AccountId, to: AccountId, value: Balance },
    TransferFrom { caller: AccountId, from: AccountId, to: AccountId, value: Balance },
    TransferFromTo { from: AccountId, to: AccountId, value: Balance },
}

impl Call {
    /// The account that the call would credit, if it is a transfer.
    pub open spec fn receiver(self) -> Option<AccountId> {
        match self {
            Call::Approve { caller, spender, value } => None,
            Call::Transfer { caller, to, value } => Some(to),
            Call::TransferFrom { caller, from, to, value } => Some(to),
            Call::TransferFromTo { from, to, value } => Some(to),
        }
    }
}

impl Ledger {
    /// The amount that `owner` holds.
    pub open spec fn balance_of(self, owner: AccountId) -> Balance {
        amount_of(self.balances, owner)
    }

    /// The amount that `spender` may still move out of `owner`'s balance.
    pub open spec fn allowance(self, owner: AccountId, spender: AccountId) -> Balance {
        amount_of(self.allowances, (owner, spender))
    }

    /// Conservation: the balances of all holders sum to the supply.
    pub open spec fn conserved(self) -> bool {
        &&& self.balances.dom().finite()
        &&& total_of(self.balances) == self.total_supply
    }

    /// A ledger is well formed when it holds finitely many entries and conserves its supply.
    pub open spec fn wf(self) -> bool {
        &&& self.conserved()
        &&& self.allowances.dom().finite()
    }

    /// Whether an amount can be credited to `account` without outgrowing the balance map.
    pub open spec fn room_for_holder(self, account: AccountId) -> bool {
        self.balances.contains_key(account) || self.balances.len() < u32::MAX
    }

    /// Whether an allowance can be written for the pair without outgrowing the allowance map.
    pub open spec fn room_for_allowance(self, owner: AccountId, spender: AccountId) -> bool {
        self.allowances.contains_key((owner, spender)) || self.allowances.len() < u32::MAX
    }

    /// The ledger at construction: the whole supply with `caller`, nothing allowed.
    pub open spec fn issued(initial_supply: Balance, caller: AccountId) -> Ledger {
        Ledger {
            total_supply: initial_supply,
            balances: Map::empty().insert(caller, initial_supply),
            allowances: Map::empty(),
        }
    }

    /// The ledger once `owner` allows `spender` exactly `value`, whatever was allowed before.
    pub open spec fn approved(self, owner: AccountId, spender: AccountId, value: Balance) -> Ledger {
        Ledger { allowances: self.allowances.insert((owner, spender), value), ..self }
    }

    /// The ledger once `value` of what `owner` allowed `spender` is used up.
    pub open spec fn spent(self, owner: AccountId, spender: AccountId, value: Balance) -> Ledger {
        self.approved(owner, spender, (self.allowance(owner, spender) - value) as Balance)
    }

    /// The ledger once `value` has moved from `from` to `to`: the debit is applied first and
    /// the credit to what the debit left, so that moving to oneself changes no balance. A
    /// holder's entry stays when it reaches zero, and `to` gets an entry if it had none.
    pub open spec fn moved(self, from: AccountId, to: AccountId, value: Balance) -> Ledger {
        let debited = if self.balances.contains_key(from) {
            self.balances.insert(from, (self.balances[from] - value) as Balance)
        } else {
            self.balances
        };
        Ledger {
            balances: debited.insert(to, (amount_of(debited, to) + value) as Balance),
            ..self
        }
    }

    /// Whether moving `value` out of `from`'s balance succeeds.
    pub open spec fn can_move(self, from: AccountId, value: Balance) -> bool {
        value <= self.balance_of(from)
    }

    /// Whether `spender` is allowed to move `value` out of `owner`'s balance.
    pub open spec fn can_spend(self, owner: AccountId, spender: AccountId, value: Balance) -> bool {
        value <= self.allowance(owner, spender)
    }

    /// The ledger after an attempt to move `value` from `from` to `to`.
    pub open spec fn after_transfer(self, from: AccountId, to: AccountId, value: Balance) -> Ledger {
        if self.can_move(from, value) {
            self.moved(from, to, value)
        } else {
            self
        }
    }

    /// The ledger after `caller` attempts to move `value` from `from` to `to` on `from`'s
    /// behalf. The allowance is used up before the balance is looked at, and stays used up
    /// when the balance turns out too small.
    pub open spec fn after_transfer_from(
        self,
        caller: AccountId,
        from: AccountId,
        to: AccountId,
        value: Balance,
    ) -> Ledger {
        if self.can_spend(from, caller, value) {
            self.spent(from, caller, value).after_transfer(from, to, value)
        } else {
            self
        }
    }

    /// The ledger after one call, whether the call succeeds or fails.
    pub open spec fn after(self, call: Call) -> Ledger {
        match call {
            Call::Approve { caller, spender, value } => self.approved(caller, spender, value),
            Call::Transfer { caller, to, value } => self.after_transfer(caller, to, value),
            Call::TransferFrom { caller, from, to, value } => self.after_transfer_from(
                caller,
                from,
                to,
                value,
            ),
            Call::TransferFromTo { from, to, value } => self.after_transfer(from, to, value),
        }
    }

    /// Whether the call reports success on this ledger.
    pub open spec fn accepts(self, call: Call) -> bool {
        match call {
            Call::Approve { caller, spender, value } => true,
            Call::Transfer { caller, to, value } => self.can_move(caller, value),
            Call::TransferFrom { caller, from, to, value } => self.can_spend(from, caller, value)
                && self.can_move(from, value),
            Call::TransferFromTo { from, to, value } => self.can_move(from, value),
        }
    }

    /// The ledger after a sequence of calls, made one after the other.
    pub open spec fn after_all(self, calls: Seq<Call>) -> Ledger
        decreases calls.len(),
    {
        if calls.len() == 0 {
            self
        } else {
            self.after_all(calls.drop_last()).after(calls.last())
        }
    }
}

/// A ledger is well formed at construction.
pub proof fn lemma_issued_wf(initial_supply: Balance, caller: AccountId)
    ensures
        Ledger::issued(initial_supply, caller).wf(),
{
    lemma_total_of_empty();
    lemma_total_of_insert(Map::empty(), caller, initial_supply);
}

/// A move that the sender's balance covers keeps every amount within range, changes the
/// balances of sender and receiver by `value` and no other, and conserves the supply.
pub proof fn lemma_moved(ledger: Ledger, from: AccountId, to: AccountId, value: Balance)
    requires
        ledger.conserved(),
        ledger.can_move(from, value),
    ensures
        from != to ==> ledger.balance_of(to) + value <= Balance::MAX,
        ledger.moved(from, to, value).conserved(),
        ledger.moved(from, to, value).balance_of(from) == (if from == to {
            ledger.balance_of(from) as int
        } else {
            ledger.balance_of(from) - value
        }),
        ledger.moved(from, to, value).balance_of(to) == (if from == to {
            ledger.balance_of(to) as int
        } else {
            ledger.balance_of(to) + value
        }),
        forall|other: AccountId|
            other != from && other != to ==> ledger.moved(from, to, value).balance_of(other)
                == ledger.balance_of(other),
        ledger.moved(from, to, value).allowances == ledger.allowances,
        ledger.moved(from, to, value).total_supply == ledger.total_supply,
{
    let debited = if ledger.balances.contains_key(from) {
        ledger.balances.insert(from, (ledger.balances[from] - value) as Balance)
    } else {
        ledger.balances
    };
    if ledger.balances.contains_key(from) {
        lemma_total_of_insert(ledger.balances, from, (ledger.balances[from] - value) as Balance);
    }
    if from != to {
        lemma_two_amounts_within_total(ledger.balances, from, to);
    }
    lemma_total_of_insert(debited, to, (amount_of(debited, to) + value) as Balance);
}

/// Conservation holds after any one call.
pub proof fn lemma_call_keeps_wf(ledger: Ledger, call: Call)
    requires
        ledger.wf(),
    ensures
        ledger.after(call).wf(),
{
    match call {
        Call::Approve { caller, spender, value } => {},
        Call::Transfer { caller, to, value } => {
            if ledger.can_move(caller, value) {
                lemma_moved(ledger, caller, to, value);
            }
        },
        Call::TransferFrom { caller, from, to, value } => {
            if ledger.can_spend(from, caller, value) {
                let spent = ledger.spent(from, caller, value);
                if spent.can_move(from, value) {
                    lemma_moved(spent, from, to, value);
                }
            }
        },
        Call::TransferFromTo { from, to, value } => {
            if ledger.can_move(from, value) {
                lemma_moved(ledger, from, to, value);
            }
        },
    }
}

/// Conservation: after construction and any sequence of calls, whichever of them succeed,
/// the balances of all holders sum to the supply that the ledger was made with.
pub proof fn law_conservation(initial_supply: Balance, caller: AccountId, calls: Seq<Call>)
    ensures
        Ledger::issued(initial_supply, caller).after_all(calls).wf(),
        Ledger::issued(initial_supply, caller).after_all(calls).total_supply == initial_supply,
        total_of(Ledger::issued(initial_supply, caller).after_all(calls).balances)
            == initial_supply,
    decreases calls.len(),
{
    let start = Ledger::issued(initial_supply, caller);
    if calls.len() == 0 {
        lemma_issued_wf(initial_supply, caller);
    } else {
        law_conservation(initial_supply, caller, calls.drop_last());
        lemma_call_keeps_wf(start.after_all(calls.drop_last()), calls.last());
        lemma_supply_is_fixed(start.after_all(calls.drop_last()), calls.last());
    }
}

/// Conservation, account by account: after construction and any sequence of calls, the
/// balances read for the accounts of any finite set that leaves out no holder sum to the
/// supply.
pub proof fn law_conservation_over_accounts(
    initial_supply: Balance,
    caller: AccountId,
    calls: Seq<Call>,
    accounts: Set<AccountId>,
)
    requires
        accounts.finite(),
        Ledger::issued(initial_supply, caller).after_all(calls).balances.dom().subset_of(
            accounts,
        ),
    ensures
        held_by(Ledger::issued(initial_supply, caller).after_all(calls).balances, accounts)
            == Ledger::issued(initial_supply, caller).after_all(calls).total_supply,
{
    law_conservation(initial_supply, caller, calls);
    lemma_held_by_all(Ledger::issued(initial_supply, caller).after_all(calls).balances, accounts);
}

/// No call changes the supply.
pub proof fn lemma_supply_is_fixed(ledger: Ledger, call: Call)
    ensures
        ledger.after(call).total_supply == ledger.total_supply,
{
}

/// A call that does not name `account` as its receiver gives it no entry.
pub proof fn lemma_call_keeps_unseen(ledger: Ledger, call: Call, account: AccountId)
    requires
        !ledger.balances.contains_key(account),
        call.receiver() != Some(account),
    ensures
        !ledger.after(call).balances.contains_key(account),
{
}

/// An account never seen before holds nothing: after construction for another account and
/// any sequence of calls of which none names it as receiver, the ledger has no entry for the
/// account, and its balance reads zero.
pub proof fn law_unseen_account_holds_nothing(
    initial_supply: Balance,
    caller: AccountId,
    calls: Seq<Call>,
    account: AccountId,
)
    requires
        account != caller,
        forall|i: int| 0 <= i < calls.len() ==> (#[trigger] calls[i]).receiver() != Some(account),
    ensures
        !Ledger::issued(initial_supply, caller).after_all(calls).balances.contains_key(account),
        Ledger::issued(initial_supply, caller).after_all(calls).balance_of(account) == 0,
    decreases calls.len(),
{
    if calls.len() > 0 {
        let earlier = calls.drop_last();
        assert forall|i: int| 0 <= i < earlier.len() implies (#[trigger] earlier[i]).receiver()
            != Some(account) by {
            assert(earlier[i] == calls[i]);
        }
        law_unseen_account_holds_nothing(initial_supply, caller, earlier, account);
        lemma_call_keeps_unseen(
            Ledger::issued(initial_supply, caller).after_all(earlier),
            calls.last(),
            account,
        );
    }
}

/// Approving overwrites: right after `owner` approves `value` for `spender`, the allowance
/// is exactly `value`, whatever it was before, and no other allowance or balance has changed.
pub proof fn law_approve_then_allowance(
    ledger: Ledger,
    owner: AccountId,
    spender: AccountId,
    value: Balance,
)
    ensures
        ledger.approved(owner, spender, value).allowance(owner, spender) == value,
        forall|other_owner: AccountId, other_spender: AccountId|
            (other_owner, other_spender) != (owner, spender) ==> ledger.approved(
                owner,
                spender,
                value,
            ).allowance(other_owner, other_spender) == ledger.allowance(
                other_owner,
                other_spender,
            ),
        ledger.approved(owner, spender, value).balances == ledger.balances,
{
}

/// A transfer of more than the sender holds is refused and changes nothing.
pub proof fn law_transfer_beyond_balance(
    ledger: Ledger,
    caller: AccountId,
    to: AccountId,
    value: Balance,
)
    requires
        value > ledger.balance_of(caller),
    ensures
        !ledger.accepts((Call::Transfer { caller, to, value })),
        ledger.after((Call::Transfer { caller, to, value })) == ledger,
{
}

/// A transfer on behalf of `from` of more than `from` allowed the caller is refused and
/// changes nothing: neither the allowance nor any balance.
pub proof fn law_transfer_from_beyond_allowance(
    ledger: Ledger,
    caller: AccountId,
    from: AccountId,
    to: AccountId,
    value: Balance,
)
    requires
        value > ledger.allowance(from, caller),
    ensures
        !ledger.accepts((Call::TransferFrom { caller, from, to, value })),
        ledger.after((Call::TransferFrom { caller, from, to, value })) == ledger,
{
}

/// A transfer on behalf of `from` that the allowance covers and the balance does not is
/// refused; the allowance is lowered by `value` all the same, and no balance changes.
pub proof fn law_transfer_from_beyond_balance(
    ledger: Ledger,
    caller: AccountId,
    from: AccountId,
    to: AccountId,
    value: Balance,
)
    requires
        value <= ledger.allowance(from, caller),
        value > ledger.balance_of(from),
    ensures
        !ledger.accepts((Call::TransferFrom { caller, from, to, value })),
        ledger.after((Call::TransferFrom { caller, from, to, value })).allowance(from, caller)
            == ledger.allowance(from, caller) - value,
        ledger.after((Call::TransferFrom { caller, from, to, value })).balances == ledger.balances,
{
}

} // verus!
