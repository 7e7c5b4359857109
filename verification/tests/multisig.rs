use multisig_wallet::account::AccountId;
use multisig_wallet::multisig::Error;
use multisig_wallet::multisig::MultisigWallet;
use multisig_wallet::multisig::WalletEvent;

/// Points the off-chain environment at a contract account with funds to
/// draw from, so requested transfers go through.
fn set_funded_callee(tag: u8) {
    let callee = ink_env::AccountId::from([tag; 32]);
    ink_env::test::set_callee::<ink_env::DefaultEnvironment>(callee);
    ink_env::test::set_account_balance::<ink_env::DefaultEnvironment>(callee, 1_000_000u128);
}

/// Points the off-chain environment at a contract account with no balance
/// record, so every requested transfer is declined.
fn set_broke_callee(tag: u8) {
    let callee = ink_env::AccountId::from([tag; 32]);
    ink_env::test::set_callee::<ink_env::DefaultEnvironment>(callee);
}

/// The 32-byte account the transfer wrapper derives from an `AccountId`.
fn env_account(a: AccountId) -> ink_env::AccountId {
    let mut bytes = [0u8; 32];
    bytes[..8].copy_from_slice(&a.0.to_le_bytes());
    ink_env::AccountId::from(bytes)
}

fn env_balance(a: AccountId) -> u128 {
    ink_env::test::get_account_balance::<ink_env::DefaultEnvironment>(env_account(a))
        .unwrap_or(0)
}

#[test]
fn test_propose_transaction() {
    let mut wallet = MultisigWallet::new(2);

    let to = AccountId(2);
    let value = 100;
    let data = vec![0x3; 10];

    assert_eq!(wallet.propose_transaction(to, value, data.clone()), Ok(0));

    let tx = wallet.get_transaction(0).expect("proposal must exist");
    let mut expected_hash = [0u8; 32];
    ink_env::hash_encoded::<ink_env::hash::Blake2x256, _>(
        &(2u64, 100u128, &data),
        &mut expected_hash,
    );
    assert_eq!(tx.0 .0, expected_hash);
    assert_eq!(tx.1, value);
    assert_eq!(tx.2, to);
    assert_eq!(tx.3, 0);
    assert!(!tx.4);
    assert_eq!(wallet.get_confirmations(0), Vec::<AccountId>::new());
    assert_eq!(wallet.get_transaction_count(), 1);

    assert_eq!(wallet.events.len(), 1);
    match &wallet.events[0] {
        WalletEvent::Proposed(p) => {
            assert_eq!(p.id, 0);
            assert_eq!(p.tx_hash.0, expected_hash);
            assert_eq!(p.to, to);
            assert_eq!(p.value, value);
            assert_eq!(p.data, data);
        }
        other => panic!("expected a proposal event, found {:?}", other),
    }
}

#[test]
fn test_confirm_transaction() {
    set_funded_callee(0x11);
    let mut wallet = MultisigWallet::new(2);

    let to = AccountId(2);
    let data = vec![0x3; 10];
    wallet.propose_transaction(to, 100, data).unwrap();

    let signer1 = AccountId(4);
    let signer2 = AccountId(5);
    wallet.add_owner(signer1).unwrap();
    wallet.add_owner(signer2).unwrap();

    assert_eq!(wallet.confirm_transaction(0, signer1), Ok(()));
    assert_eq!(wallet.get_confirmations(0), vec![signer1]);
    assert_eq!(wallet.is_confirmed(0), false);
    let tx = wallet.get_transaction(0).unwrap();
    assert!(!tx.4);

    assert_eq!(wallet.confirm_transaction(0, signer2), Ok(()));
    let tx = wallet.get_transaction(0).unwrap();
    assert!(tx.4);
    assert_eq!(tx.3, 2);
    assert_eq!(wallet.get_confirmations(0), Vec::<AccountId>::new());

    let confirmed = wallet
        .events
        .iter()
        .any(|e| matches!(e, WalletEvent::Confirmed(c) if c.id == 0 && c.owner == signer2));
    let executed = wallet
        .events
        .iter()
        .any(|e| matches!(e, WalletEvent::Executed(x) if x.id == 0 && x.to == to && x.value == 100));
    assert!(confirmed);
    assert!(executed);
}

#[test]
fn test_execute_transaction() {
    set_broke_callee(0x12);
    let mut wallet = MultisigWallet::new(2);

    let to = AccountId(21);
    wallet.propose_transaction(to, 100, vec![0x3; 10]).unwrap();

    let signer1 = AccountId(4);
    let signer2 = AccountId(5);
    wallet.add_owner(signer1).unwrap();
    wallet.add_owner(signer2).unwrap();
    wallet.confirm_transaction(0, signer1).unwrap();

    // The confirmation that meets the quorum triggers execution, but the
    // contract account cannot fund it yet: the proposal stays pending with
    // its confirmation set intact.
    assert_eq!(wallet.confirm_transaction(0, signer2), Err(Error::TransferFailed));
    let tx = wallet.get_transaction(0).unwrap();
    assert!(!tx.4);
    assert_eq!(wallet.get_confirmations(0), vec![signer1, signer2]);

    // Once the account is funded, a direct execution attempt succeeds.
    set_funded_callee(0x13);
    assert_eq!(wallet.execute_transaction(0), Ok(()));
    let tx = wallet.get_transaction(0).unwrap();
    assert!(tx.4);
    assert_eq!(tx.3, 2);
    assert_eq!(wallet.get_confirmations(0), Vec::<AccountId>::new());
    assert_eq!(wallet.get_transaction_count(), 1);
    assert_eq!(env_balance(to), 100);
}

#[test]
fn test_execute_transaction_not_enough_confirmations() {
    set_funded_callee(0x14);
    let mut wallet = MultisigWallet::new(2);

    let to = AccountId(25);
    wallet.propose_transaction(to, 100, vec![0x3; 10]).unwrap();

    let signer1 = AccountId(4);
    wallet.add_owner(signer1).unwrap();
    wallet.confirm_transaction(0, signer1).unwrap();

    let events_before = wallet.events.len();
    assert_eq!(wallet.execute_transaction(0), Err(Error::NotEnoughConfirmations));
    let tx = wallet.get_transaction(0).unwrap();
    assert!(!tx.4);
    assert_eq!(wallet.get_confirmations(0), vec![signer1]);
    assert_eq!(wallet.get_transaction_count(), 1);
    assert_eq!(wallet.events.len(), events_before);
    assert_eq!(env_balance(to), 0);
}

#[test]
fn test_execute_transaction_already_executed() {
    set_funded_callee(0x15);
    let mut wallet = MultisigWallet::new(2);

    let to = AccountId(22);
    wallet.propose_transaction(to, 100, vec![0x3; 10]).unwrap();

    let signer1 = AccountId(4);
    let signer2 = AccountId(5);
    wallet.add_owner(signer1).unwrap();
    wallet.add_owner(signer2).unwrap();
    wallet.confirm_transaction(0, signer1).unwrap();
    wallet.confirm_transaction(0, signer2).unwrap();
    assert_eq!(env_balance(to), 100);

    let events_before = wallet.events.len();
    assert_eq!(wallet.execute_transaction(0), Err(Error::AlreadyExecuted));
    let tx = wallet.get_transaction(0).unwrap();
    assert!(tx.4);
    assert_eq!(tx.3, 2);
    assert_eq!(wallet.get_confirmations(0), Vec::<AccountId>::new());
    assert_eq!(wallet.events.len(), events_before);
    // No second transfer was requested for the terminal proposal.
    assert_eq!(env_balance(to), 100);
}

#[test]
fn test_confirm_twice_same_owner() {
    let mut wallet = MultisigWallet::new(2);
    wallet.propose_transaction(AccountId(2), 100, vec![0x3; 10]).unwrap();

    let owner1 = AccountId(4);
    wallet.add_owner(owner1).unwrap();

    assert_eq!(wallet.confirm_transaction(0, owner1), Ok(()));
    assert_eq!(wallet.confirm_transaction(0, owner1), Err(Error::AlreadyConfirmed));
    assert_eq!(wallet.get_confirmations(0), vec![owner1]);
}

#[test]
fn test_confirm_rejections() {
    let mut wallet = MultisigWallet::new(2);
    let owner = AccountId(4);
    wallet.add_owner(owner).unwrap();

    assert_eq!(wallet.confirm_transaction(7, owner), Err(Error::InvalidTransactionId));
    wallet.propose_transaction(AccountId(2), 100, Vec::new()).unwrap();
    assert_eq!(wallet.confirm_transaction(0, AccountId(9)), Err(Error::Unauthorized));
    assert_eq!(wallet.execute_transaction(7), Err(Error::InvalidTransactionId));
    assert_eq!(wallet.get_confirmations(0), Vec::<AccountId>::new());
}

#[test]
fn test_owner_registry() {
    let mut wallet = MultisigWallet::new(1);
    let a = AccountId(1);
    let b = AccountId(2);

    assert_eq!(wallet.add_owner(a), Ok(()));
    assert!(wallet.is_owner(a));
    assert_eq!(wallet.add_owner(a), Err(Error::AlreadyOwner));

    // Removing the sole remaining owner always fails, whoever is named.
    assert_eq!(wallet.remove_owner(a), Err(Error::CannotRemoveLastOwner));
    assert_eq!(wallet.remove_owner(b), Err(Error::CannotRemoveLastOwner));
    assert!(wallet.is_owner(a));

    assert_eq!(wallet.add_owner(b), Ok(()));
    assert_eq!(wallet.remove_owner(AccountId(9)), Err(Error::NotOwner));
    assert_eq!(wallet.remove_owner(a), Ok(()));
    assert!(!wallet.is_owner(a));
    assert!(wallet.is_owner(b));
    assert_eq!(wallet.remove_owner(b), Err(Error::CannotRemoveLastOwner));
    assert_eq!(wallet.threshold(), 1);
}

#[test]
fn test_quorum_triggers_execution_exactly_at_threshold() {
    set_funded_callee(0x16);
    let mut wallet = MultisigWallet::new(3);
    let to = AccountId(23);
    wallet.propose_transaction(to, 40, Vec::new()).unwrap();
    let owners = [AccountId(4), AccountId(5), AccountId(6)];
    for o in owners {
        wallet.add_owner(o).unwrap();
    }

    wallet.confirm_transaction(0, owners[0]).unwrap();
    assert!(!wallet.get_transaction(0).unwrap().4);
    wallet.confirm_transaction(0, owners[1]).unwrap();
    assert!(!wallet.get_transaction(0).unwrap().4);
    wallet.confirm_transaction(0, owners[2]).unwrap();
    assert!(wallet.get_transaction(0).unwrap().4);
    assert_eq!(wallet.get_transaction(0).unwrap().3, 3);
    assert_eq!(env_balance(to), 40);
}

#[test]
fn test_transfer_failure_keeps_confirmations() {
    set_broke_callee(0x17);
    let mut wallet = MultisigWallet::new(1);
    let to = AccountId(24);
    wallet.propose_transaction(to, 25, Vec::new()).unwrap();
    let owner = AccountId(4);
    wallet.add_owner(owner).unwrap();

    assert_eq!(wallet.confirm_transaction(0, owner), Err(Error::TransferFailed));
    assert_eq!(wallet.get_confirmations(0), vec![owner]);
    assert!(!wallet.get_transaction(0).unwrap().4);

    set_funded_callee(0x18);
    assert_eq!(wallet.execute_transaction(0), Ok(()));
    assert!(wallet.get_transaction(0).unwrap().4);
    assert_eq!(env_balance(to), 25);
}

#[test]
fn test_fingerprint_depends_on_inputs() {
    let mut wallet = MultisigWallet::new(2);
    wallet.propose_transaction(AccountId(2), 100, vec![1, 2, 3]).unwrap();
    wallet.propose_transaction(AccountId(2), 100, vec![1, 2, 4]).unwrap();
    wallet.propose_transaction(AccountId(2), 100, vec![1, 2, 3]).unwrap();

    let h0 = wallet.get_transaction(0).unwrap().0;
    let h1 = wallet.get_transaction(1).unwrap().0;
    let h2 = wallet.get_transaction(2).unwrap().0;
    assert_ne!(h0, h1);
    assert_eq!(h0, h2);
}
