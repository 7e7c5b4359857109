use multisig_wallet::account::AccountId;
use multisig_wallet::escrow::Error;
use multisig_wallet::escrow::Escrow;
use multisig_wallet::escrow::EscrowEvent;
use multisig_wallet::escrow::EscrowStatus;

/// Points the off-chain environment at a contract account with funds to
/// draw from, so requested transfers go through.
fn set_funded_callee(tag: u8) {
    let callee = ink_env::AccountId::from([tag; 32]);
    ink_env::test::set_callee::<ink_env::DefaultEnvironment>(callee);
    ink_env::test::set_account_balance::<ink_env::DefaultEnvironment>(callee, 1_000_000u128);
}

#[test]
fn test_lock_funds() {
    let mut escrow = Escrow::new(AccountId(1), AccountId(2), 100);
    assert_eq!(escrow.get_status(), EscrowStatus::Locked);

    escrow.lock_funds();
    assert_eq!(escrow.get_status(), EscrowStatus::Locked);
    assert_eq!(escrow.events.len(), 1);
    match &escrow.events[0] {
        EscrowEvent::Locked(e) => {
            assert_eq!(e.seller, AccountId(1));
            assert_eq!(e.buyer, AccountId(2));
            assert_eq!(e.amount, 100);
        }
        other => panic!("expected a lock event, found {:?}", other),
    }
}

#[test]
fn test_release_funds() {
    set_funded_callee(0x31);
    let mut escrow = Escrow::new(AccountId(1), AccountId(2), 100);
    let buyer = AccountId(2);
    escrow.authorize_caller(buyer);

    assert_eq!(escrow.release_funds(buyer), Ok(()));
    assert_eq!(escrow.get_status(), EscrowStatus::Released);
    match escrow.events.last().expect("a release must be announced") {
        EscrowEvent::Released(e) => {
            assert_eq!(e.seller, AccountId(1));
            assert_eq!(e.buyer, AccountId(2));
            assert_eq!(e.amount, 100);
        }
        other => panic!("expected a release event, found {:?}", other),
    }
}

#[test]
fn test_refund_funds() {
    set_funded_callee(0x32);
    let mut escrow = Escrow::new(AccountId(1), AccountId(2), 100);
    let seller = AccountId(1);
    escrow.authorize_caller(seller);

    assert_eq!(escrow.refund_funds(seller), Ok(()));
    assert_eq!(escrow.get_status(), EscrowStatus::Refunded);
    match escrow.events.last().expect("a refund must be announced") {
        EscrowEvent::Refunded(e) => {
            assert_eq!(e.seller, AccountId(1));
            assert_eq!(e.buyer, AccountId(2));
            assert_eq!(e.amount, 100);
        }
        other => panic!("expected a refund event, found {:?}", other),
    }
}

#[test]
fn test_refund_funds_unauthorized() {
    let mut escrow = Escrow::new(AccountId(1), AccountId(2), 100);
    assert_eq!(escrow.get_status(), EscrowStatus::Locked);

    // A caller that is neither authorized nor the seller cannot refund.
    let unauthorized_caller = AccountId(3);
    assert_eq!(escrow.refund_funds(unauthorized_caller), Err(Error::Unauthorized));

    // The buyer alone cannot refund either, even when authorized.
    escrow.authorize_caller(AccountId(2));
    assert_eq!(escrow.refund_funds(AccountId(2)), Err(Error::Unauthorized));

    assert_eq!(escrow.get_status(), EscrowStatus::Locked);
    assert!(escrow.events.is_empty());
}

#[test]
fn test_revoked_caller_cannot_settle() {
    let mut escrow = Escrow::new(AccountId(1), AccountId(2), 100);
    let buyer = AccountId(2);
    escrow.authorize_caller(buyer);
    escrow.revoke_authorization(buyer);
    assert_eq!(escrow.release_funds(buyer), Err(Error::Unauthorized));
    assert_eq!(escrow.get_status(), EscrowStatus::Locked);
}
