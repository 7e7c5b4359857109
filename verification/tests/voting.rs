use multisig_wallet::account::AccountId;
use multisig_wallet::voting::Voting;
use multisig_wallet::voting::VotingEvent;

#[test]
fn test_propose_option() {
    let mut voting = Voting::new();
    let option_name = "Option 1".to_string();
    voting.propose_option(option_name.clone());

    let options = voting.get_options();
    assert_eq!(options.len(), 1);
    let (name, count) = options[0].clone();
    assert_eq!(name, option_name);
    assert_eq!(count, 0);

    assert_eq!(voting.events.len(), 1);
    match &voting.events[0] {
        VotingEvent::Proposed(p) => assert_eq!(p.name, option_name),
        other => panic!("expected a proposal event, found {:?}", other),
    }
}

#[test]
fn test_vote() {
    let mut voting = Voting::new();
    let option_name = "Option 1".to_string();
    voting.propose_option(option_name.clone());

    let voter = AccountId(1);
    let vote_success = voting.vote(voter, 0);
    assert!(vote_success);
    assert!(voting.has_voted(voter));
    assert_eq!(voting.get_option_count(0), 1);

    match voting.events.last().expect("a vote must be announced") {
        VotingEvent::Voted(v) => {
            assert_eq!(v.voter, voter);
            assert_eq!(v.option_index, 0);
        }
        other => panic!("expected a vote event, found {:?}", other),
    }
}

#[test]
fn test_vote_twice() {
    let mut voting = Voting::new();
    let option_name = "Option 1".to_string();
    voting.propose_option(option_name.clone());

    let voter = AccountId(1);
    let vote_success = voting.vote(voter, 0);
    assert!(vote_success);
    assert!(voting.has_voted(voter));
    assert_eq!(voting.get_option_count(0), 1);

    let vote_success = voting.vote(voter, 0);
    assert!(!vote_success);
    assert!(voting.has_voted(voter));
    assert_eq!(voting.get_option_count(0), 1);

    // One proposal and one vote were announced; the rejected vote was not.
    assert_eq!(voting.events.len(), 2);
}

#[test]
fn test_vote_unknown_option() {
    let mut voting = Voting::new();
    voting.propose_option("Option 1".to_string());
    let voter = AccountId(1);
    assert!(!voting.vote(voter, 5));
    assert!(!voting.has_voted(voter));
    assert_eq!(voting.events.len(), 1);
}

#[test]
fn test_get_results() {
    let mut voting = Voting::new();
    let option_name_1 = "Option 1".to_string();
    let option_name_2 = "Option 2".to_string();
    voting.propose_option(option_name_1.clone());
    voting.propose_option(option_name_2.clone());

    let voter_1 = AccountId(1);
    let voter_2 = AccountId(2);
    let voter_3 = AccountId(3);
    assert!(voting.vote(voter_1, 1));
    assert!(voting.vote(voter_2, 1));
    assert!(voting.vote(voter_3, 1));
    // A voter only counts once, however often it tries again.
    assert!(!voting.vote(voter_3, 1));
    assert!(!voting.vote(voter_3, 1));

    let results = voting.get_results();
    assert_eq!(results.len(), 2);
    let (name_1, count_1) = results[0].clone();
    let (name_2, count_2) = results[1].clone();
    assert_eq!(name_1, option_name_1);
    assert_eq!(name_2, option_name_2);
    assert_eq!(count_1, 0);
    assert_eq!(count_2, 3);
}
