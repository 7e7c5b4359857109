//! The multi-signature transaction authorization engine.
//!
//! A registry of owners shares one wallet. Any caller may propose a transfer;
//! owners confirm proposals one by one, and the confirmation that lifts a
//! proposal's distinct-confirmer count to the quorum threshold triggers its
//! execution within that same call. Execution asks the settlement layer to
//! move the value and, only on success, marks the proposal executed, records
//! the confirmation count, and clears the confirmation set. Every failure
//! path leaves the wallet exactly as it was.

use vstd::prelude::*;

use crate::account::AccountId;
use crate::account::Balance;
use crate::host;
use crate::host::Fingerprint;
use crate::host::fingerprint_of;

verus! {

/// Why a wallet call was rejected. Every error leaves the wallet unchanged,
/// except `TransferFailed` inside a confirmation, which keeps the confirmation
/// that was recorded before execution was attempted.
#[derive(Clone, Copy, Debug, PartialEq, Eq, Structural)]
pub enum Error {
    /// The referenced proposal does not exist, or no longer accepts
    /// confirmations because it has been executed.
    InvalidTransactionId,
    /// The confirmer is not a registered owner.
    Unauthorized,
    /// The same owner already confirmed this proposal.
    AlreadyConfirmed,
    /// Execution was attempted on a terminal proposal.
    AlreadyExecuted,
    /// Execution was attempted before the quorum was met.
    NotEnoughConfirmations,
    /// The settlement layer declined the transfer; nothing was recorded.
    TransferFailed,
    /// The address is already a registered owner.
    AlreadyOwner,
    /// The address is not a registered owner.
    NotOwner,
    /// Removing the sole remaining owner is rejected.
    CannotRemoveLastOwner,
}

/// Notification: a transaction was proposed.
#[derive(Clone, Debug, PartialEq, Eq)]
pub struct ProposeTransaction {
    pub id: u32,
    pub tx_hash: Fingerprint,
    pub to: AccountId,
    pub value: Balance,
    pub data: Vec<u8>,
}

/// Notification: an owner confirmed a transaction.
#[derive(Clone, Copy, Debug, PartialEq, Eq, Structural)]
pub struct ConfirmTransaction {
    pub id: u32,
    pub owner: AccountId,
}

/// Notification: a transaction was executed and its value transferred.
#[derive(Clone, Copy, Debug, PartialEq, Eq, Structural)]
pub struct ExecuteTransaction {
    pub id: u32,
    pub to: AccountId,
    pub value: Balance,
}

/// Notification payload for an owner joining the registry. The wallet keeps
/// registry changes silent; the type is part of its public surface for hosts
/// that broadcast them.
#[derive(Clone, Copy, Debug, PartialEq, Eq, Structural)]
pub struct AddOwner {
    pub owner: AccountId,
}

/// Notification payload for an owner leaving the registry; see [`AddOwner`].
#[derive(Clone, Copy, Debug, PartialEq, Eq, Structural)]
pub struct RemoveOwner {
    pub owner: AccountId,
}

/// One entry of the wallet's ordered notification log.
#[derive(Clone, Debug, PartialEq, Eq)]
pub enum WalletEvent {
    Proposed(ProposeTransaction),
    Confirmed(ConfirmTransaction),
    Executed(ExecuteTransaction),
}

/// One proposed transaction: the requested action, its audit fingerprint, and
/// the set of owners that have confirmed it so far. Proposals are never
/// deleted; an executed one stays as an audit record with its confirmation
/// set cleared and its confirmation count frozen.
pub struct Transaction {
    pub tx_hash: Fingerprint,
    pub value: Balance,
    pub to: AccountId,
    pub confirmation_count: u32,
    pub executed: bool,
    pub confirmations: Vec<AccountId>,
}

impl Transaction {
    /// Internal consistency of one proposal: confirmers are distinct, a
    /// pending proposal has no recorded count yet, and a terminal one has had
    /// its confirmation set cleared. The set is small enough to count.
    pub open spec fn wf(&self) -> bool {
        &&& self.confirmations@.no_duplicates()
        &&& self.confirmations@.len() <= u32::MAX as int
        &&& self.executed ==> self.confirmations@.len() == 0
        &&& !self.executed ==> self.confirmation_count == 0
    }
}

/// The engine: the owner registry (owner set and quorum threshold) and the
/// proposal ledger (a dense arena of transactions plus the notification log).
pub struct MultisigWallet {
    pub owners: Vec<AccountId>,
    pub required_confirmations: u32,
    pub transactions: Vec<Transaction>,
    pub events: Vec<WalletEvent>,
}

impl MultisigWallet {
    /// The wallet's invariant; every operation preserves it.
    pub open spec fn wf(&self) -> bool {
        &&& self.required_confirmations >= 1
        &&& self.owners@.no_duplicates()
        &&& self.transactions@.len() <= u32::MAX as int
        &&& forall|j: int|
            0 <= j < self.transactions@.len() ==> (#[trigger] self.transactions@[j]).wf()
        &&& forall|j: int|
            0 <= j < self.transactions@.len() && (#[trigger] self.transactions@[j]).executed
                ==> self.transactions@[j].confirmation_count >= self.required_confirmations
    }

    /// Whether `a` is a registered owner.
    pub open spec fn spec_is_owner(&self, a: AccountId) -> bool {
        self.owners@.contains(a)
    }

    /// Whether `id` names a proposal.
    pub open spec fn has_tx(&self, id: u32) -> bool {
        (id as int) < self.transactions@.len()
    }

    /// The proposal named by `id`.
    pub open spec fn tx(&self, id: u32) -> Transaction {
        self.transactions@[id as int]
    }

    /// Whether `id` names a proposal that still accepts confirmations.
    pub open spec fn pending(&self, id: u32) -> bool {
        self.has_tx(id) && !self.tx(id).executed
    }

    /// Whether the proposal's confirmation set meets the quorum threshold.
    pub open spec fn spec_is_confirmed(&self, id: u32) -> bool {
        self.has_tx(id) && self.tx(id).confirmations@.len() >= self.required_confirmations
    }

    /// A fresh wallet: the given quorum threshold, no owners, no proposals,
    /// no notifications. The threshold is fixed for the wallet's lifetime and
    /// must be at least one.
    pub fn new(required_confirmations: u32) -> (w: MultisigWallet)
        requires
            required_confirmations >= 1,
        ensures
            w.wf(),
            w.required_confirmations == required_confirmations,
            w.owners@.len() == 0,
            w.transactions@.len() == 0,
            w.events@.len() == 0,
    {
        MultisigWallet {
            owners: Vec::new(),
            required_confirmations,
            transactions: Vec::new(),
            events: Vec::new(),
        }
    }

    /// The quorum threshold this wallet was created with.
    pub fn threshold(&self) -> (r: u32)
        ensures
            r == self.required_confirmations,
    {
        self.required_confirmations
    }

    /// Whether `owner` is currently registered.
    pub fn is_owner(&self, owner: AccountId) -> (r: bool)
        ensures
            r == self.spec_is_owner(owner),
    {
        index_of_account(&self.owners, owner).is_some()
    }

    /// Registers a new owner. Fails with `AlreadyOwner` if the address is
    /// already registered; otherwise inserts it with no other side effect.
    pub fn add_owner(&mut self, owner: AccountId) -> (r: Result<(), Error>)
        requires
            old(self).wf(),
        ensures
            final(self).wf(),
            old(self).spec_is_owner(owner) ==> r == Err::<(), Error>(Error::AlreadyOwner)
                && *final(self) == *old(self),
            !old(self).spec_is_owner(owner) ==> r == Ok::<(), Error>(())
                && final(self).owners@ == old(self).owners@.push(owner),
            forall|a: AccountId|
                #[trigger] final(self).owners@.contains(a)
                    <==> (old(self).owners@.contains(a) || a == owner),
            final(self).transactions == old(self).transactions,
            final(self).events == old(self).events,
            final(self).required_confirmations == old(self).required_confirmations,
    {
        if index_of_account(&self.owners, owner).is_some() {
            return Err(Error::AlreadyOwner);
        }
        let ghost pre = self.owners@;
        self.owners.push(owner);
        proof {
            assert forall|a: AccountId| #[trigger]
                self.owners@.contains(a) <==> (pre.contains(a) || a == owner) by {
                if self.owners@.contains(a) {
                    let i = choose|i: int| 0 <= i < self.owners@.len() && self.owners@[i] == a;
                    if i < pre.len() {
                        assert(pre[i] == a);
                    }
                }
                if pre.contains(a) {
                    let i = choose|i: int| 0 <= i < pre.len() && pre[i] == a;
                    assert(self.owners@[i] == a);
                }
                if a == owner {
                    assert(self.owners@[pre.len() as int] == a);
                }
            }
            assert(self.owners@.no_duplicates()) by {
                assert(forall|i: int|
                    0 <= i < pre.len() ==> #[trigger] self.owners@[i] == pre[i]);
            }
        }
        Ok(())
    }

    /// Unregisters an owner. Fails with `CannotRemoveLastOwner` whenever only
    /// one owner remains, and with `NotOwner` if the address is not
    /// registered; otherwise removes it. The threshold is not adjusted, and
    /// confirmations the owner already recorded on pending proposals are
    /// deliberately left in place, mirroring the registry's audit role. A
    /// removal never empties the registry.
    pub fn remove_owner(&mut self, owner: AccountId) -> (r: Result<(), Error>)
        requires
            old(self).wf(),
        ensures
            final(self).wf(),
            old(self).owners@.len() == 1 ==> r == Err::<(), Error>(Error::CannotRemoveLastOwner)
                && *final(self) == *old(self),
            old(self).owners@.len() != 1 && !old(self).spec_is_owner(owner)
                ==> r == Err::<(), Error>(Error::NotOwner) && *final(self) == *old(self),
            old(self).owners@.len() != 1 && old(self).spec_is_owner(owner) ==> {
                &&& r == Ok::<(), Error>(())
                &&& final(self).owners@.len() == old(self).owners@.len() - 1
                &&& !final(self).spec_is_owner(owner)
            },
            r.is_ok() ==> forall|a: AccountId|
                #[trigger] final(self).owners@.contains(a)
                    <==> (old(self).owners@.contains(a) && a != owner),
            old(self).owners@.len() >= 1 ==> final(self).owners@.len() >= 1,
            final(self).transactions == old(self).transactions,
            final(self).events == old(self).events,
            final(self).required_confirmations == old(self).required_confirmations,
    {
        if self.owners.len() == 1 {
            return Err(Error::CannotRemoveLastOwner);
        }
        match index_of_account(&self.owners, owner) {
            None => Err(Error::NotOwner),
            Some(i) => {
                let ghost pre = self.owners@;
                self.owners.remove(i);
                proof {
                    lemma_remove_distinct(pre, i as int);
                }
                Ok(())
            },
        }
    }

    /// How many proposals have ever been created; also the identifier the
    /// next proposal will receive.
    pub fn get_transaction_count(&self) -> (r: u32)
        requires
            self.wf(),
        ensures
            r == self.transactions@.len(),
    {
        self.transactions.len() as u32
    }

    /// The audit view of a proposal: fingerprint, amount, destination,
    /// recorded confirmation count, and whether it was executed. Absent
    /// identifiers yield `None` rather than an error.
    pub fn get_transaction(&self, id: u32) -> (r: Option<(Fingerprint, Balance, AccountId, u32, bool)>)
        ensures
            self.has_tx(id) ==> r == Some((
                self.tx(id).tx_hash,
                self.tx(id).value,
                self.tx(id).to,
                self.tx(id).confirmation_count,
                self.tx(id).executed,
            )),
            !self.has_tx(id) ==> r is None,
    {
        if (id as usize) < self.transactions.len() {
            let tx = &self.transactions[id as usize];
            Some((tx.tx_hash, tx.value, tx.to, tx.confirmation_count, tx.executed))
        } else {
            None
        }
    }

    /// The owners that have confirmed a proposal, in confirmation order.
    /// Unknown identifiers yield the empty set rather than an error.
    pub fn get_confirmations(&self, id: u32) -> (r: Vec<AccountId>)
        ensures
            self.has_tx(id) ==> r@ == self.tx(id).confirmations@,
            !self.has_tx(id) ==> r@.len() == 0,
    {
        if (id as usize) < self.transactions.len() {
            copy_accounts(&self.transactions[id as usize].confirmations)
        } else {
            Vec::new()
        }
    }

    /// Whether the proposal currently meets the quorum threshold. Unknown or
    /// executed proposals report `false`: an executed proposal's confirmation
    /// set has been cleared.
    pub fn is_confirmed(&self, id: u32) -> (r: bool)
        ensures
            r == self.spec_is_confirmed(id),
    {
        if (id as usize) < self.transactions.len() {
            self.transactions[id as usize].confirmations.len()
                >= self.required_confirmations as usize
        } else {
            false
        }
    }
}

impl MultisigWallet {
    /// The registry, the threshold, and every proposal other than `id` are as
    /// in `pre`.
    pub open spec fn only_tx_changed(pre: Self, post: Self, id: u32) -> bool {
        &&& post.owners@ == pre.owners@
        &&& post.required_confirmations == pre.required_confirmations
        &&& post.transactions@.len() == pre.transactions@.len()
        &&& forall|j: int|
            0 <= j < pre.transactions@.len() && j != id as int
                ==> post.transactions@[j] == #[trigger] pre.transactions@[j]
    }

    /// `post` is `pre` with `owner`'s confirmation recorded on proposal `id`,
    /// which stays pending, and the matching notification appended.
    pub open spec fn confirm_step(pre: Self, post: Self, id: u32, owner: AccountId) -> bool {
        &&& Self::only_tx_changed(pre, post, id)
        &&& post.tx(id).tx_hash == pre.tx(id).tx_hash
        &&& post.tx(id).value == pre.tx(id).value
        &&& post.tx(id).to == pre.tx(id).to
        &&& post.tx(id).confirmation_count == pre.tx(id).confirmation_count
        &&& !post.tx(id).executed
        &&& post.tx(id).confirmations@ == pre.tx(id).confirmations@.push(owner)
        &&& post.events@ == pre.events@.push(
            WalletEvent::Confirmed(ConfirmTransaction { id, owner }),
        )
    }

    /// `post` is `pre` with proposal `id` executed: the confirmation count
    /// frozen at the size of the confirmation set, the set cleared, the
    /// terminal flag raised, and the matching notification appended.
    pub open spec fn execute_step(pre: Self, post: Self, id: u32) -> bool {
        &&& Self::only_tx_changed(pre, post, id)
        &&& post.tx(id).tx_hash == pre.tx(id).tx_hash
        &&& post.tx(id).value == pre.tx(id).value
        &&& post.tx(id).to == pre.tx(id).to
        &&& post.tx(id).confirmation_count == pre.tx(id).confirmations@.len()
        &&& post.tx(id).executed
        &&& post.tx(id).confirmations@.len() == 0
        &&& post.events@ == pre.events@.push(
            WalletEvent::Executed(
                ExecuteTransaction { id, to: pre.tx(id).to, value: pre.tx(id).value },
            ),
        )
    }

    /// `post` is `pre` after the confirmation by `owner` that met the quorum
    /// and the execution it triggered, all within one call.
    pub open spec fn confirm_execute_step(pre: Self, post: Self, id: u32, owner: AccountId) -> bool {
        &&& Self::only_tx_changed(pre, post, id)
        &&& post.tx(id).tx_hash == pre.tx(id).tx_hash
        &&& post.tx(id).value == pre.tx(id).value
        &&& post.tx(id).to == pre.tx(id).to
        &&& post.tx(id).confirmation_count == pre.tx(id).confirmations@.len() + 1
        &&& post.tx(id).executed
        &&& post.tx(id).confirmations@.len() == 0
        &&& post.events@ == pre.events@.push(
            WalletEvent::Confirmed(ConfirmTransaction { id, owner }),
        ).push(
            WalletEvent::Executed(
                ExecuteTransaction { id, to: pre.tx(id).to, value: pre.tx(id).value },
            ),
        )
    }

    /// Whether the notification log's entry `e` announces the proposal that
    /// `propose_transaction` created for these inputs.
    pub open spec fn is_propose_event(
        e: WalletEvent,
        id: u32,
        to: AccountId,
        value: Balance,
        data: Seq<u8>,
    ) -> bool {
        match e {
            WalletEvent::Proposed(p) => {
                &&& p.id == id
                &&& p.to == to
                &&& p.value == value
                &&& p.data@ == data
                &&& p.tx_hash@ == fingerprint_of(to.0 as int, value as int, data)
            },
            _ => false,
        }
    }

    /// Opens a new proposal. Any caller may propose; the proposal starts
    /// pending with an empty confirmation set, is fingerprinted for audit,
    /// and receives the next dense identifier. Always succeeds, and announces
    /// the proposal in the notification log.
    pub fn propose_transaction(&mut self, to: AccountId, value: Balance, data: Vec<u8>) -> (r:
        Result<u32, Error>)
        requires
            old(self).wf(),
            old(self).transactions@.len() < u32::MAX as int,
        ensures
            final(self).wf(),
            r == Ok::<u32, Error>(old(self).transactions@.len() as u32),
            final(self).transactions@.len() == old(self).transactions@.len() + 1,
            forall|j: int|
                0 <= j < old(self).transactions@.len()
                    ==> final(self).transactions@[j] == #[trigger] old(self).transactions@[j],
            final(self).tx(old(self).transactions@.len() as u32).tx_hash@ == fingerprint_of(
                to.0 as int,
                value as int,
                data@,
            ),
            final(self).tx(old(self).transactions@.len() as u32).value == value,
            final(self).tx(old(self).transactions@.len() as u32).to == to,
            final(self).tx(old(self).transactions@.len() as u32).confirmation_count == 0,
            !final(self).tx(old(self).transactions@.len() as u32).executed,
            final(self).tx(old(self).transactions@.len() as u32).confirmations@.len() == 0,
            final(self).owners@ == old(self).owners@,
            final(self).required_confirmations == old(self).required_confirmations,
            final(self).events@.len() == old(self).events@.len() + 1,
            forall|j: int|
                0 <= j < old(self).events@.len()
                    ==> final(self).events@[j] == #[trigger] old(self).events@[j],
            Self::is_propose_event(
                final(self).events@.last(),
                old(self).transactions@.len() as u32,
                to,
                value,
                data@,
            ),
    {
        let id = self.transactions.len() as u32;
        let tx_hash = host::fingerprint(&to, value, &data);
        self.transactions.push(
            Transaction {
                tx_hash,
                value,
                to,
                confirmation_count: 0,
                executed: false,
                confirmations: Vec::new(),
            },
        );
        self.events.push(WalletEvent::Proposed(ProposeTransaction { id, tx_hash, to, value, data }));
        Ok(id)
    }

    /// Records `owner`'s confirmation of proposal `id`, first failure wins:
    /// an unknown or terminal identifier is rejected as invalid (an executed
    /// proposal's confirmation set is cleared for good and accepts no more),
    /// a non-owner is unauthorized, and a repeated confirmation by the same
    /// owner is rejected with the set left unchanged. A fresh confirmation is
    /// recorded and announced; if it lifts the set to the quorum threshold,
    /// execution is triggered within this same call — and not before. If the
    /// settlement layer fails that execution, the recorded confirmation
    /// survives, so a later attempt can still execute the proposal.
    pub fn confirm_transaction(&mut self, id: u32, owner: AccountId) -> (r: Result<(), Error>)
        requires
            old(self).wf(),
            old(self).pending(id) ==> old(self).tx(id).confirmations@.len() < u32::MAX as int,
        ensures
            final(self).wf(),
            !old(self).has_tx(id) || old(self).tx(id).executed ==> r == Err::<(), Error>(
                Error::InvalidTransactionId,
            ) && *final(self) == *old(self),
            old(self).pending(id) && !old(self).spec_is_owner(owner) ==> r == Err::<(), Error>(
                Error::Unauthorized,
            ) && *final(self) == *old(self),
            old(self).pending(id) && old(self).spec_is_owner(owner) && old(self).tx(
                id,
            ).confirmations@.contains(owner) ==> r == Err::<(), Error>(Error::AlreadyConfirmed)
                && *final(self) == *old(self),
            old(self).pending(id) && old(self).spec_is_owner(owner) && !old(self).tx(
                id,
            ).confirmations@.contains(owner) && old(self).tx(id).confirmations@.len() + 1 < old(
                self,
            ).required_confirmations ==> r == Ok::<(), Error>(()) && Self::confirm_step(
                *old(self),
                *final(self),
                id,
                owner,
            ),
            old(self).pending(id) && old(self).spec_is_owner(owner) && !old(self).tx(
                id,
            ).confirmations@.contains(owner) && old(self).tx(id).confirmations@.len() + 1 >= old(
                self,
            ).required_confirmations ==> {
                ||| r == Ok::<(), Error>(()) && Self::confirm_execute_step(
                    *old(self),
                    *final(self),
                    id,
                    owner,
                )
                ||| r == Err::<(), Error>(Error::TransferFailed) && Self::confirm_step(
                    *old(self),
                    *final(self),
                    id,
                    owner,
                )
            },
            forall|i: u32|
                old(self).has_tx(i) && (#[trigger] old(self).tx(i)).executed ==> final(self).tx(
                    i,
                ).executed,
    {
        if (id as usize) >= self.transactions.len() {
            return Err(Error::InvalidTransactionId);
        }
        if self.transactions[id as usize].executed {
            return Err(Error::InvalidTransactionId);
        }
        if index_of_account(&self.owners, owner).is_none() {
            return Err(Error::Unauthorized);
        }
        if index_of_account(&self.transactions[id as usize].confirmations, owner).is_some() {
            return Err(Error::AlreadyConfirmed);
        }
        let ghost pre = *self;
        let mut tx = placeholder_transaction();
        self.transactions.set_and_swap(id as usize, &mut tx);
        tx.confirmations.push(owner);
        self.transactions.set_and_swap(id as usize, &mut tx);
        self.events.push(WalletEvent::Confirmed(ConfirmTransaction { id, owner }));
        proof {
            assert(self.transactions@ =~= pre.transactions@.update(
                id as int,
                self.transactions@[id as int],
            ));
            lemma_push_distinct(pre.tx(id).confirmations@, owner);
            assert(Self::confirm_step(pre, *self, id, owner));
            assert(self.wf());
        }
        if self.is_confirmed(id) {
            let ghost mid = *self;
            let res = self.execute_transaction(id);
            proof {
                if res is Ok {
                    assert(Self::execute_step(mid, *self, id));
                    assert(self.events@ =~= pre.events@.push(
                        WalletEvent::Confirmed(ConfirmTransaction { id, owner }),
                    ).push(
                        WalletEvent::Executed(
                            ExecuteTransaction { id, to: pre.tx(id).to, value: pre.tx(id).value },
                        ),
                    ));
                    assert(Self::confirm_execute_step(pre, *self, id, owner));
                }
            }
            return res;
        }
        Ok(())
    }

    /// Attempts to execute proposal `id` now. The identifier must name a
    /// proposal, the proposal must not already be terminal, and its
    /// confirmation set must meet the quorum threshold; the first failed
    /// check wins and nothing changes. A terminal proposal only ever reports
    /// `AlreadyExecuted`: it is never executed twice and no second transfer is
    /// requested for it. When the checks pass, the settlement layer is asked
    /// to move the value, and the outcome is settled as
    /// [`Self::apply_transfer_outcome`] states.
    pub fn execute_transaction(&mut self, id: u32) -> (r: Result<(), Error>)
        requires
            old(self).wf(),
        ensures
            final(self).wf(),
            !old(self).has_tx(id) ==> r == Err::<(), Error>(Error::InvalidTransactionId) && *final(self) == *old(self),
            old(self).has_tx(id) && old(self).tx(id).executed ==> r == Err::<(), Error>(
                Error::AlreadyExecuted,
            ) && *final(self) == *old(self),
            old(self).pending(id) && !old(self).spec_is_confirmed(id) ==> r == Err::<(), Error>(
                Error::NotEnoughConfirmations,
            ) && *final(self) == *old(self),
            old(self).pending(id) && old(self).spec_is_confirmed(id) ==> {
                ||| r == Ok::<(), Error>(()) && Self::execute_step(*old(self), *final(self), id)
                ||| r == Err::<(), Error>(Error::TransferFailed) && *final(self) == *old(self)
            },
            forall|i: u32|
                old(self).has_tx(i) && (#[trigger] old(self).tx(i)).executed ==> final(self).tx(
                    i,
                ).executed,
    {
        if (id as usize) >= self.transactions.len() {
            return Err(Error::InvalidTransactionId);
        }
        if self.transactions[id as usize].executed {
            return Err(Error::AlreadyExecuted);
        }
        if self.transactions[id as usize].confirmations.len()
            < (self.required_confirmations as usize) {
            return Err(Error::NotEnoughConfirmations);
        }
        let to = self.transactions[id as usize].to;
        let value = self.transactions[id as usize].value;
        let outcome = host::transfer(&to, value);
        self.apply_transfer_outcome(id, outcome.is_ok())
    }

    /// Settles an execution attempt of proposal `id`, given the settlement
    /// layer's verdict for the requested transfer. Taking the verdict as an
    /// argument fixes the behaviour for every outcome: when the proposal is
    /// pending with its quorum met and the transfer went through, the
    /// proposal is marked executed, its confirmation count is frozen, its
    /// confirmation set is cleared, and the execution is announced; when the
    /// transfer failed, `TransferFailed` is surfaced and the wallet is left
    /// exactly as it was, confirmation set intact, so a later attempt can
    /// still execute the proposal.
    pub fn apply_transfer_outcome(&mut self, id: u32, transferred: bool) -> (r: Result<(), Error>)
        requires
            old(self).wf(),
        ensures
            final(self).wf(),
            !old(self).has_tx(id) ==> r == Err::<(), Error>(Error::InvalidTransactionId) && *final(self) == *old(self),
            old(self).has_tx(id) && old(self).tx(id).executed ==> r == Err::<(), Error>(
                Error::AlreadyExecuted,
            ) && *final(self) == *old(self),
            old(self).pending(id) && !old(self).spec_is_confirmed(id) ==> r == Err::<(), Error>(
                Error::NotEnoughConfirmations,
            ) && *final(self) == *old(self),
            old(self).pending(id) && old(self).spec_is_confirmed(id) && !transferred ==> r
                == Err::<(), Error>(Error::TransferFailed) && *final(self) == *old(self),
            old(self).pending(id) && old(self).spec_is_confirmed(id) && transferred ==> r
                == Ok::<(), Error>(()) && Self::execute_step(*old(self), *final(self), id),
    {
        if (id as usize) >= self.transactions.len() {
            return Err(Error::InvalidTransactionId);
        }
        if self.transactions[id as usize].executed {
            return Err(Error::AlreadyExecuted);
        }
        if self.transactions[id as usize].confirmations.len()
            < (self.required_confirmations as usize) {
            return Err(Error::NotEnoughConfirmations);
        }
        if !transferred {
            return Err(Error::TransferFailed);
        }
        let ghost pre = *self;
        let mut tx = placeholder_transaction();
        self.transactions.set_and_swap(id as usize, &mut tx);
        let n = tx.confirmations.len();
        let to = tx.to;
        let value = tx.value;
        tx.confirmation_count = n as u32;
        tx.executed = true;
        tx.confirmations = Vec::new();
        self.transactions.set_and_swap(id as usize, &mut tx);
        self.events.push(WalletEvent::Executed(ExecuteTransaction { id, to, value }));
        proof {
            assert(self.transactions@ =~= pre.transactions@.update(
                id as int,
                self.transactions@[id as int],
            ));
            assert(Self::execute_step(pre, *self, id));
            assert(self.wf());
        }
        Ok(())
    }
}

/// A terminal proposal has settled for good: its confirmation set was
/// cleared, its recorded confirmation count testifies that the quorum was met
/// at the execution instant, and it no longer counts as confirmed.
pub proof fn lemma_executed_is_settled(w: MultisigWallet, id: u32)
    requires
        w.wf(),
        w.has_tx(id),
        w.tx(id).executed,
    ensures
        w.tx(id).confirmations@.len() == 0,
        w.tx(id).confirmation_count >= w.required_confirmations,
        !w.spec_is_confirmed(id),
{
    assert(w.tx(id).wf());
}

/// An address appears at most once in any proposal's confirmation set.
pub proof fn lemma_confirmers_distinct(w: MultisigWallet, id: u32)
    requires
        w.wf(),
        w.has_tx(id),
    ensures
        w.tx(id).confirmations@.no_duplicates(),
{
    assert(w.tx(id).wf());
}

/// A dummy record swapped into the arena while the real one is edited.
fn placeholder_transaction() -> (t: Transaction)
    ensures
        t.confirmations@.len() == 0,
{
    Transaction {
        tx_hash: Fingerprint([0u8; 32]),
        value: 0,
        to: AccountId(0),
        confirmation_count: 0,
        executed: false,
        confirmations: Vec::new(),
    }
}

/// Appending an element that a duplicate-free sequence lacks keeps it
/// duplicate-free.
proof fn lemma_push_distinct(s: Seq<AccountId>, a: AccountId)
    requires
        s.no_duplicates(),
        !s.contains(a),
    ensures
        s.push(a).no_duplicates(),
{
    let t = s.push(a);
    assert forall|i: int, j: int| 0 <= i < j < t.len() implies t[i] != t[j] by {
        if j == t.len() - 1 {
            assert(t[i] == s[i]);
            assert(s[i] != a);
        } else {
            assert(t[i] == s[i]);
            assert(t[j] == s[j]);
        }
    }
}

/// The position of `a` in `v`, if it occurs there.
fn index_of_account(v: &Vec<AccountId>, a: AccountId) -> (r: Option<usize>)
    ensures
        match r {
            Some(i) => i < v@.len() && v@[i as int] == a && v@.contains(a),
            None => !v@.contains(a),
        },
{
    let mut j: usize = 0;
    while j < v.len()
        invariant
            j <= v@.len(),
            forall|k: int| 0 <= k < j ==> v@[k] != a,
        decreases v@.len() - j,
    {
        if v[j] == a {
            return Some(j);
        }
        j += 1;
    }
    None
}

/// A plain element-wise copy of an account list.
fn copy_accounts(v: &Vec<AccountId>) -> (r: Vec<AccountId>)
    ensures
        r@ == v@,
{
    let mut out: Vec<AccountId> = Vec::new();
    let mut j: usize = 0;
    while j < v.len()
        invariant
            j <= v@.len(),
            out@ == v@.subrange(0, j as int),
        decreases v@.len() - j,
    {
        out.push(v[j]);
        proof {
            assert(out@ =~= v@.subrange(0, j as int + 1));
        }
        j += 1;
    }
    proof {
        assert(out@ =~= v@);
    }
    out
}

/// Removing one position from a duplicate-free sequence keeps it
/// duplicate-free, shortens it by one, and removes exactly that element.
proof fn lemma_remove_distinct(s: Seq<AccountId>, k: int)
    requires
        s.no_duplicates(),
        0 <= k < s.len(),
    ensures
        s.remove(k).no_duplicates(),
        s.remove(k).len() == s.len() - 1,
        forall|a: AccountId| #[trigger] s.remove(k).contains(a) <==> (s.contains(a) && a != s[k]),
{
    s.remove_ensures(k);
    let t = s.remove(k);
    assert forall|a: AccountId| #[trigger] t.contains(a) implies (s.contains(a) && a != s[k]) by {
        let i = choose|i: int| 0 <= i < t.len() && t[i] == a;
        if i < k {
            assert(s[i] == a);
        } else {
            assert(s[i + 1] == a);
        }
    }
    assert forall|a: AccountId| s.contains(a) && a != s[k] implies #[trigger] t.contains(a) by {
        let i = choose|i: int| 0 <= i < s.len() && s[i] == a;
        if i < k {
            assert(t[i] == a);
        } else {
            assert(i != k);
            assert(t[i - 1] == s[i]);
        }
    }
    assert forall|i: int, j: int| 0 <= i < j < t.len() implies t[i] != t[j] by {
        let si: int = if i < k { i } else { i + 1 };
        let sj: int = if j < k { j } else { j + 1 };
        assert(t[i] == s[si]);
        assert(t[j] == s[sj]);
    }
}

} // verus!
