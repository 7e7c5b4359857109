//! A minimal token ledger: mint and transfer against per-account balances.

use vstd::prelude::*;

use crate::account::AccountId;
use crate::account::Balance;
use crate::kv::AccountMap;
use crate::kv::agrees_except;
use crate::kv::list_get;

verus! {

/// Notification: tokens moved. `from == None` marks a mint.
#[derive(Clone, Copy, Debug, PartialEq, Eq)]
pub struct Transfer {
    pub from: Option<AccountId>,
    pub to: Option<AccountId>,
    pub value: Balance,
}

/// The ledger: balances keyed by account, and the notification log.
pub struct SimpleToken {
    pub balances: AccountMap<Balance>,
    pub events: Vec<Transfer>,
}

impl SimpleToken {
    /// The ledger's invariant; every operation preserves it.
    pub open spec fn wf(&self) -> bool {
        self.balances.wf()
    }

    /// An account's balance; accounts never touched hold zero.
    pub open spec fn spec_balance_of(&self, a: AccountId) -> Balance {
        match list_get(self.balances.entries@, a) {
            Some(v) => v,
            None => 0,
        }
    }

    /// A fresh ledger: every balance zero, no notifications.
    pub fn new() -> (t: SimpleToken)
        ensures
            t.wf(),
            forall|a: AccountId| #[trigger] list_get(t.balances.entries@, a) is None,
            t.events@.len() == 0,
    {
        SimpleToken { balances: AccountMap::new(), events: Vec::new() }
    }

    /// The balance held by `owner`.
    pub fn balance_of(&self, owner: AccountId) -> (r: Balance)
        ensures
            r == self.spec_balance_of(owner),
    {
        match self.balances.get(owner) {
            Some(v) => v,
            None => 0,
        }
    }

    /// Creates `amount` new tokens for `to`, touching no other balance, and
    /// announces the mint. Any caller may mint; the ledger imposes no
    /// authority of its own.
    pub fn mint(&mut self, to: AccountId, amount: Balance)
        requires
            old(self).wf(),
            old(self).spec_balance_of(to) + amount <= u128::MAX,
        ensures
            final(self).wf(),
            final(self).spec_balance_of(to) == old(self).spec_balance_of(to) + amount,
            forall|b: AccountId|
                b != to ==> #[trigger] final(self).spec_balance_of(b) == old(
                    self,
                ).spec_balance_of(b),
            final(self).events@ == old(self).events@.push(
                Transfer { from: None, to: Some(to), value: amount },
            ),
    {
        let cur = self.balance_of(to);
        self.balances.insert(to, cur + amount);
        self.events.push(Transfer { from: None, to: Some(to), value: amount });
        proof {
            assert forall|b: AccountId| b != to implies #[trigger] self.spec_balance_of(b) == old(
                self,
            ).spec_balance_of(b) by {
                assert(list_get(self.balances.entries@, b) == list_get(
                    old(self).balances.entries@,
                    b,
                ));
            }
        }
    }

    /// Moves `amount` from the caller to `to`. Reports `false` and changes
    /// nothing when the caller's balance is short; otherwise debits the
    /// caller, credits `to` (a self-transfer nets to no change), announces
    /// the movement, and reports `true`.
    pub fn transfer(&mut self, caller: AccountId, to: AccountId, amount: Balance) -> (r: bool)
        requires
            old(self).wf(),
            old(self).spec_balance_of(caller) >= amount && caller != to ==> old(
                self,
            ).spec_balance_of(to) + amount <= u128::MAX,
        ensures
            final(self).wf(),
            old(self).spec_balance_of(caller) < amount ==> r == false && *final(self) == *old(
                self,
            ),
            old(self).spec_balance_of(caller) >= amount ==> r == true && {
                &&& caller != to ==> final(self).spec_balance_of(caller) == old(
                    self,
                ).spec_balance_of(caller) - amount && final(self).spec_balance_of(to) == old(
                    self,
                ).spec_balance_of(to) + amount
                &&& caller == to ==> final(self).spec_balance_of(caller) == old(
                    self,
                ).spec_balance_of(caller)
                &&& forall|b: AccountId|
                    b != caller && b != to ==> #[trigger] final(self).spec_balance_of(b) == old(
                        self,
                    ).spec_balance_of(b)
                &&& final(self).events@ == old(self).events@.push(
                    Transfer { from: Some(caller), to: Some(to), value: amount },
                )
            },
    {
        let sender_balance = self.balance_of(caller);
        if sender_balance < amount {
            return false;
        }
        let ghost pre = *self;
        self.balances.insert(caller, sender_balance - amount);
        let ghost mid = *self;
        let to_balance = self.balance_of(to);
        proof {
            if caller != to {
                assert(list_get(mid.balances.entries@, to) == list_get(pre.balances.entries@, to));
            }
        }
        self.balances.insert(to, to_balance + amount);
        self.events.push(Transfer { from: Some(caller), to: Some(to), value: amount });
        proof {
            if caller != to {
                assert(list_get(self.balances.entries@, caller) == list_get(
                    mid.balances.entries@,
                    caller,
                ));
            }
            assert forall|b: AccountId| b != caller && b != to implies #[trigger] self
                .spec_balance_of(b) == pre.spec_balance_of(b) by {
                assert(list_get(self.balances.entries@, b) == list_get(mid.balances.entries@, b));
                assert(list_get(mid.balances.entries@, b) == list_get(pre.balances.entries@, b));
            }
        }
        true
    }
}

} // verus!
