use multisig_wallet::account::AccountId;
use multisig_wallet::token::SimpleToken;
use multisig_wallet::token::Transfer;

#[test]
fn test_mint() {
    let mut token = SimpleToken::new();
    let initial_balance = token.balance_of(AccountId(1));
    assert_eq!(initial_balance, 0);

    let amount = 100;
    let to = AccountId(2);
    token.mint(to, amount);
    assert_eq!(token.balance_of(to), amount);

    assert_eq!(token.events.len(), 1);
    assert_eq!(token.events[0], Transfer { from: None, to: Some(to), value: amount });
}

#[test]
fn test_transfer() {
    let mut token = SimpleToken::new();
    let sender = AccountId(1);
    let recipient = AccountId(2);
    let amount = 100;
    token.mint(sender, amount);

    let transfer_success = token.transfer(sender, recipient, amount);
    assert!(transfer_success);
    assert_eq!(token.balance_of(sender), 0);
    assert_eq!(token.balance_of(recipient), amount);

    assert_eq!(token.events.len(), 2);
    assert_eq!(
        token.events[1],
        Transfer { from: Some(sender), to: Some(recipient), value: amount },
    );
}

#[test]
fn test_insufficient_balance_transfer() {
    let mut token = SimpleToken::new();
    let sender = AccountId(1);
    let recipient = AccountId(2);
    let amount = 100;
    token.mint(sender, amount);

    let transfer_success = token.transfer(sender, recipient, amount + 1);
    assert!(!transfer_success);
    assert_eq!(token.balance_of(sender), amount);
    assert_eq!(token.balance_of(recipient), 0);

    // Only the mint was announced; a declined transfer announces nothing.
    assert_eq!(token.events.len(), 1);
}

#[test]
fn test_balance_of() {
    let mut token = SimpleToken::new();
    let account = AccountId(1);
    let amount = 100;
    token.mint(account, amount);

    assert_eq!(token.balance_of(account), amount);
}

#[test]
fn test_self_transfer_keeps_balance() {
    let mut token = SimpleToken::new();
    let account = AccountId(1);
    token.mint(account, 50);
    assert!(token.transfer(account, account, 20));
    assert_eq!(token.balance_of(account), 50);
}
