//! An escrow between a seller and a buyer: the held amount is released to
//! the seller or refunded to the buyer by an authorized party.

use vstd::prelude::*;

use crate::account::AccountId;
use crate::account::Balance;
use crate::host;
use crate::kv::AccountMap;
use crate::kv::list_get;

verus! {

/// Where the held funds stand.
#[derive(Clone, Copy, Debug, PartialEq, Eq, Structural)]
pub enum EscrowStatus {
    Locked,
    Released,
    Refunded,
}

/// Why an escrow call was rejected. Every error leaves the escrow unchanged.
#[derive(Clone, Copy, Debug, PartialEq, Eq, Structural)]
pub enum Error {
    /// The caller may not settle the escrow this way.
    Unauthorized,
    /// The settlement layer declined the transfer; the status is unchanged.
    TransferFailed,
}

/// Notification: the escrow took custody of the funds.
#[derive(Clone, Copy, Debug, PartialEq, Eq, Structural)]
pub struct LockFunds {
    pub seller: AccountId,
    pub buyer: AccountId,
    pub amount: Balance,
}

/// Notification: the funds went to the seller.
#[derive(Clone, Copy, Debug, PartialEq, Eq, Structural)]
pub struct ReleaseFunds {
    pub seller: AccountId,
    pub buyer: AccountId,
    pub amount: Balance,
}

/// Notification: the funds went back to the buyer.
#[derive(Clone, Copy, Debug, PartialEq, Eq, Structural)]
pub struct RefundFunds {
    pub seller: AccountId,
    pub buyer: AccountId,
    pub amount: Balance,
}

/// One entry of the escrow's ordered notification log.
#[derive(Clone, Copy, Debug, PartialEq, Eq, Structural)]
pub enum EscrowEvent {
    Locked(LockFunds),
    Released(ReleaseFunds),
    Refunded(RefundFunds),
}

/// The escrow: the two parties, the held amount, where the funds stand, the
/// callers authorized to settle, and the notification log.
pub struct Escrow {
    pub seller: AccountId,
    pub buyer: AccountId,
    pub amount: Balance,
    pub status: EscrowStatus,
    pub authorized_callers: AccountMap<bool>,
    pub events: Vec<EscrowEvent>,
}

impl Escrow {
    /// The escrow's invariant; every operation preserves it.
    pub open spec fn wf(&self) -> bool {
        self.authorized_callers.wf()
    }

    /// Whether `a` is authorized to settle the escrow.
    pub open spec fn spec_is_authorized(&self, a: AccountId) -> bool {
        list_get(self.authorized_callers.entries@, a) is Some
    }

    /// A fresh escrow holding `amount` between `seller` and `buyer`: locked,
    /// with nobody authorized yet and no notifications.
    pub fn new(seller: AccountId, buyer: AccountId, amount: Balance) -> (e: Escrow)
        ensures
            e.wf(),
            e.seller == seller,
            e.buyer == buyer,
            e.amount == amount,
            e.status == EscrowStatus::Locked,
            forall|a: AccountId| #[trigger] list_get(e.authorized_callers.entries@, a) is None,
            e.events@.len() == 0,
    {
        Escrow {
            seller,
            buyer,
            amount,
            status: EscrowStatus::Locked,
            authorized_callers: AccountMap::new(),
            events: Vec::new(),
        }
    }

    /// Announces that the escrow holds the funds; nothing else changes.
    pub fn lock_funds(&mut self)
        ensures
            final(self).events@ == old(self).events@.push(
                EscrowEvent::Locked(
                    LockFunds {
                        seller: old(self).seller,
                        buyer: old(self).buyer,
                        amount: old(self).amount,
                    },
                ),
            ),
            final(self).seller == old(self).seller,
            final(self).buyer == old(self).buyer,
            final(self).amount == old(self).amount,
            final(self).status == old(self).status,
            final(self).authorized_callers == old(self).authorized_callers,
    {
        let seller = self.seller;
        let buyer = self.buyer;
        let amount = self.amount;
        self.events.push(EscrowEvent::Locked(LockFunds { seller, buyer, amount }));
    }

    /// Releases the held amount to the seller. Only an authorized caller who
    /// is the buyer may release; anyone else is rejected with nothing
    /// changed. The settlement layer is then asked to move the amount: on
    /// success the status becomes `Released` and the release is announced; on
    /// failure `TransferFailed` is surfaced and the escrow stays as it was.
    pub fn release_funds(&mut self, caller: AccountId) -> (r: Result<(), Error>)
        requires
            old(self).wf(),
        ensures
            final(self).wf(),
            !(old(self).spec_is_authorized(caller) && caller == old(self).buyer) ==> r == Err::<
                (),
                Error,
            >(Error::Unauthorized) && *final(self) == *old(self),
            old(self).spec_is_authorized(caller) && caller == old(self).buyer ==> {
                ||| r == Ok::<(), Error>(()) && final(self).status == EscrowStatus::Released
                    && final(self).events@ == old(self).events@.push(
                    EscrowEvent::Released(
                        ReleaseFunds {
                            seller: old(self).seller,
                            buyer: old(self).buyer,
                            amount: old(self).amount,
                        },
                    ),
                ) && final(self).seller == old(self).seller && final(self).buyer == old(
                    self,
                ).buyer && final(self).amount == old(self).amount && final(self).authorized_callers
                    == old(self).authorized_callers
                ||| r == Err::<(), Error>(Error::TransferFailed) && *final(self) == *old(self)
            },
    {
        if !self.authorized_callers.contains_key(caller) {
            return Err(Error::Unauthorized);
        }
        if caller != self.buyer {
            return Err(Error::Unauthorized);
        }
        match host::transfer(&self.seller, self.amount) {
            Ok(_) => {
                let seller = self.seller;
                let buyer = self.buyer;
                let amount = self.amount;
                self.status = EscrowStatus::Released;
                self.events.push(EscrowEvent::Released(ReleaseFunds { seller, buyer, amount }));
                Ok(())
            },
            Err(_) => Err(Error::TransferFailed),
        }
    }

    /// Refunds the held amount to the buyer. Only an authorized caller who
    /// is the seller may refund; the settlement and failure behaviour mirror
    /// [`Self::release_funds`], ending in `Refunded` on success.
    pub fn refund_funds(&mut self, caller: AccountId) -> (r: Result<(), Error>)
        requires
            old(self).wf(),
        ensures
            final(self).wf(),
            !(old(self).spec_is_authorized(caller) && caller == old(self).seller) ==> r == Err::<
                (),
                Error,
            >(Error::Unauthorized) && *final(self) == *old(self),
            old(self).spec_is_authorized(caller) && caller == old(self).seller ==> {
                ||| r == Ok::<(), Error>(()) && final(self).status == EscrowStatus::Refunded
                    && final(self).events@ == old(self).events@.push(
                    EscrowEvent::Refunded(
                        RefundFunds {
                            seller: old(self).seller,
                            buyer: old(self).buyer,
                            amount: old(self).amount,
                        },
                    ),
                ) && final(self).seller == old(self).seller && final(self).buyer == old(
                    self,
                ).buyer && final(self).amount == old(self).amount && final(self).authorized_callers
                    == old(self).authorized_callers
                ||| r == Err::<(), Error>(Error::TransferFailed) && *final(self) == *old(self)
            },
    {
        if !self.authorized_callers.contains_key(caller) {
            return Err(Error::Unauthorized);
        }
        if caller != self.seller {
            return Err(Error::Unauthorized);
        }
        match host::transfer(&self.buyer, self.amount) {
            Ok(_) => {
                let seller = self.seller;
                let buyer = self.buyer;
                let amount = self.amount;
                self.status = EscrowStatus::Refunded;
                self.events.push(EscrowEvent::Refunded(RefundFunds { seller, buyer, amount }));
                Ok(())
            },
            Err(_) => Err(Error::TransferFailed),
        }
    }

    /// Where the held funds stand.
    pub fn get_status(&self) -> (r: EscrowStatus)
        ensures
            r == self.status,
    {
        self.status
    }

    /// Authorizes `caller` to settle the escrow; nobody else's authorization
    /// changes.
    pub fn authorize_caller(&mut self, caller: AccountId)
        requires
            old(self).wf(),
        ensures
            final(self).wf(),
            final(self).spec_is_authorized(caller),
            forall|b: AccountId|
                b != caller ==> #[trigger] final(self).spec_is_authorized(b) == old(
                    self,
                ).spec_is_authorized(b),
            final(self).seller == old(self).seller,
            final(self).buyer == old(self).buyer,
            final(self).amount == old(self).amount,
            final(self).status == old(self).status,
            final(self).events == old(self).events,
    {
        self.authorized_callers.insert(caller, true);
        proof {
            assert forall|b: AccountId| b != caller implies #[trigger] self.spec_is_authorized(b)
                == old(self).spec_is_authorized(b) by {
                assert(list_get(self.authorized_callers.entries@, b) == list_get(
                    old(self).authorized_callers.entries@,
                    b,
                ));
            }
        }
    }

    /// Withdraws `caller`'s authorization; nobody else's changes.
    pub fn revoke_authorization(&mut self, caller: AccountId)
        requires
            old(self).wf(),
        ensures
            final(self).wf(),
            !final(self).spec_is_authorized(caller),
            forall|b: AccountId|
                b != caller ==> #[trigger] final(self).spec_is_authorized(b) == old(
                    self,
                ).spec_is_authorized(b),
            final(self).seller == old(self).seller,
            final(self).buyer == old(self).buyer,
            final(self).amount == old(self).amount,
            final(self).status == old(self).status,
            final(self).events == old(self).events,
    {
        self.authorized_callers.remove(caller);
        proof {
            assert forall|b: AccountId| b != caller implies #[trigger] self.spec_is_authorized(b)
                == old(self).spec_is_authorized(b) by {
                assert(list_get(self.authorized_callers.entries@, b) == list_get(
                    old(self).authorized_callers.entries@,
                    b,
                ));
            }
        }
    }
}

} // verus!
