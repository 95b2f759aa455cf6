use anonvote::AnonVoteContract;
use anonvote::events::Event;
use anonvote::Env;
use anonvote::Address;
use anonvote::BallotLimits;
use anonvote::BallotState;
use anonvote::BallotStateSnapshot;
use anonvote::ContractError;

const NOW: u64 = 1_700_000_000;

fn generate(env: &mut Env, n: u8) -> Address {
    let mut strkey = [b'A'; 56];
    strkey[0] = b'G';
    strkey[55] = n;
    let address = Address { strkey };
    env.authorize(address);
    address
}

fn setup() -> (Env, Address) {
    let mut env = Env::new(NOW);
    let admin = generate(&mut env, 1);
    assert_eq!(AnonVoteContract::initialize(&mut env, admin), Ok(()));
    (env, admin)
}

fn limits(max_tokens: u32, max_votes: u32) -> BallotLimits {
    BallotLimits { max_tokens, max_votes }
}

fn text(s: &str) -> Vec<u8> {
    s.as_bytes().to_vec()
}

fn pause(env: &mut Env, admin: Address) {
    let id = AnonVoteContract::pause_contract(env, admin).unwrap();
    assert_eq!(AnonVoteContract::approve_operation(env, id, admin), Ok(true));
}

#[test]
fn ballot_limits_and_counts_still_work() {
    let (mut env, admin) = setup();
    let ballot = text("limited");
    AnonVoteContract::record_ballot(&mut env, admin, ballot.clone(), limits(1, 1)).unwrap();
    AnonVoteContract::record_token(&mut env, admin, ballot.clone()).unwrap();
    AnonVoteContract::record_vote(&mut env, admin, ballot.clone()).unwrap();
    assert_eq!(AnonVoteContract::get_tokens_issued(&env, ballot.clone()), Some(1));
    assert_eq!(AnonVoteContract::get_votes_cast(&env, ballot.clone()), Some(1));
    assert!(AnonVoteContract::is_consistent(&env, ballot.clone()));
    assert_eq!(
        AnonVoteContract::record_token(&mut env, admin, ballot),
        Err(ContractError::LimitExceeded)
    );
}

#[test]
fn votes_are_limited_too() {
    let (mut env, admin) = setup();
    let ballot = text("limited");
    AnonVoteContract::record_ballot(&mut env, admin, ballot.clone(), limits(5, 1)).unwrap();
    assert_eq!(AnonVoteContract::record_vote(&mut env, admin, ballot.clone()), Ok(()));
    assert!(!AnonVoteContract::is_consistent(&env, ballot.clone()));
    assert_eq!(
        AnonVoteContract::record_vote(&mut env, admin, ballot.clone()),
        Err(ContractError::LimitExceeded)
    );
    assert_eq!(AnonVoteContract::get_votes_cast(&env, ballot), Some(1));
}

#[test]
fn a_new_ballot_reads_back() {
    let (mut env, admin) = setup();
    let ballot = text("ballot");
    assert!(!AnonVoteContract::ballot_exists(&env, ballot.clone()));
    assert_eq!(AnonVoteContract::get_ballot_state(&env, ballot.clone()), None);
    AnonVoteContract::record_ballot(&mut env, admin, ballot.clone(), limits(4, 3)).unwrap();
    assert!(AnonVoteContract::ballot_exists(&env, ballot.clone()));
    assert!(!AnonVoteContract::result_exists(&env, ballot.clone()));
    AnonVoteContract::record_token(&mut env, admin, ballot.clone()).unwrap();
    AnonVoteContract::record_token(&mut env, admin, ballot.clone()).unwrap();
    AnonVoteContract::record_vote(&mut env, admin, ballot.clone()).unwrap();
    assert_eq!(
        AnonVoteContract::get_ballot_state(&env, ballot.clone()),
        Some(BallotStateSnapshot {
            admin,
            created_at: NOW,
            expiration_time: 0,
            limits: limits(4, 3),
            result_hash: None,
            state: BallotState::Active,
            state_updated_at: NOW,
            tokens_issued: 2,
            votes_cast: 1,
        })
    );
    assert_eq!(
        env.events,
        vec![
            Event::BallotCreated(ballot.clone(), NOW, admin),
            Event::TokenIssued(ballot.clone(), 1),
            Event::TokenIssued(ballot.clone(), 2),
            Event::VoteCast(ballot, 1),
        ]
    );
}

#[test]
fn a_published_result_shows_in_the_snapshot() {
    let (mut env, admin) = setup();
    let ballot = text("ballot");
    AnonVoteContract::record_ballot(&mut env, admin, ballot.clone(), limits(4, 3)).unwrap();
    let id = AnonVoteContract::record_result(&mut env, admin, ballot.clone(), text("result"))
        .unwrap();
    assert_eq!(AnonVoteContract::approve_operation(&mut env, id, admin), Ok(true));
    let snapshot = AnonVoteContract::get_ballot_state(&env, ballot.clone()).unwrap();
    assert_eq!(snapshot.result_hash, Some(text("result")));
    assert_eq!(snapshot.state, BallotState::ResultPublished);
    assert!(env.events.contains(&Event::ResultPublished(ballot, text("result"))));
}

#[test]
fn ballots_are_recorded_once_and_under_a_name() {
    let (mut env, admin) = setup();
    assert_eq!(
        AnonVoteContract::record_ballot(&mut env, admin, text(""), limits(1, 1)),
        Err(ContractError::InvalidBallotHash)
    );
    AnonVoteContract::record_ballot(&mut env, admin, text("b"), limits(1, 1)).unwrap();
    AnonVoteContract::record_token(&mut env, admin, text("b")).unwrap();
    assert_eq!(
        AnonVoteContract::record_ballot(&mut env, admin, text("b"), limits(9, 9)),
        Err(ContractError::BallotAlreadyExists)
    );
    assert_eq!(AnonVoteContract::get_tokens_issued(&env, text("b")), Some(1));
    assert_eq!(
        AnonVoteContract::get_ballot_metadata(&env, text("b")).unwrap().limits,
        limits(1, 1)
    );
}

#[test]
fn ballots_do_not_touch_each_other() {
    let (mut env, admin) = setup();
    AnonVoteContract::record_ballot(&mut env, admin, text("a"), limits(3, 3)).unwrap();
    AnonVoteContract::record_ballot(&mut env, admin, text("ab"), limits(3, 3)).unwrap();
    AnonVoteContract::record_token(&mut env, admin, text("a")).unwrap();
    AnonVoteContract::expire_ballot(&mut env, admin, text("a")).unwrap();
    assert_eq!(AnonVoteContract::record_token(&mut env, admin, text("ab")), Ok(()));
    assert_eq!(AnonVoteContract::record_token(&mut env, admin, text("ab")), Ok(()));
    assert_eq!(AnonVoteContract::get_tokens_issued(&env, text("a")), Some(1));
    assert_eq!(AnonVoteContract::get_tokens_issued(&env, text("ab")), Some(2));
}

#[test]
fn an_unknown_ballot_has_no_counts() {
    let (mut env, admin) = setup();
    let ballot = text("unknown");
    let refused = Err(ContractError::BallotNotFound);
    assert_eq!(AnonVoteContract::record_token(&mut env, admin, ballot.clone()), refused);
    assert_eq!(AnonVoteContract::record_vote(&mut env, admin, ballot.clone()), refused);
    assert_eq!(AnonVoteContract::expire_ballot(&mut env, admin, ballot.clone()), refused);
    assert_eq!(AnonVoteContract::get_tokens_issued(&env, ballot.clone()), None);
    assert_eq!(AnonVoteContract::get_votes_cast(&env, ballot.clone()), None);
    assert_eq!(AnonVoteContract::get_ballot_metadata(&env, ballot.clone()), None);
    assert!(AnonVoteContract::is_consistent(&env, ballot));
}

#[test]
fn an_ended_ballot_counts_no_more() {
    let (mut env, admin) = setup();
    let ballot = text("ballot");
    AnonVoteContract::record_ballot(&mut env, admin, ballot.clone(), limits(5, 5)).unwrap();
    AnonVoteContract::record_token(&mut env, admin, ballot.clone()).unwrap();
    AnonVoteContract::expire_ballot(&mut env, admin, ballot.clone()).unwrap();
    assert_eq!(env.events.last(), Some(&Event::BallotExpired(ballot.clone())));
    let refused = Err(ContractError::BallotExpired);
    assert_eq!(AnonVoteContract::record_token(&mut env, admin, ballot.clone()), refused);
    assert_eq!(AnonVoteContract::record_vote(&mut env, admin, ballot.clone()), refused);
    assert_eq!(AnonVoteContract::get_tokens_issued(&env, ballot.clone()), Some(1));
    assert_eq!(AnonVoteContract::expire_ballot(&mut env, admin, ballot), Ok(()));
}

#[test]
fn a_paused_contract_records_nothing() {
    let (mut env, admin) = setup();
    let other = generate(&mut env, 2);
    AnonVoteContract::record_ballot(&mut env, admin, text("b"), limits(5, 5)).unwrap();
    pause(&mut env, admin);
    let published = env.events.len();
    let refused = Err(ContractError::ContractPaused);
    assert_eq!(
        AnonVoteContract::record_ballot(&mut env, admin, text("c"), limits(5, 5)),
        refused
    );
    assert_eq!(AnonVoteContract::record_token(&mut env, admin, text("b")), refused);
    assert_eq!(AnonVoteContract::record_vote(&mut env, other, text("b")), refused);
    assert_eq!(env.events.len(), published);

    assert_eq!(AnonVoteContract::resume_contract(&mut env, admin), Ok(()));
    assert_eq!(env.events.last(), Some(&Event::Resumed(admin, NOW)));
    assert!(!AnonVoteContract::is_paused(&env));
    assert_eq!(AnonVoteContract::record_token(&mut env, admin, text("b")), Ok(()));
}

#[test]
fn only_the_admin_records() {
    let (mut env, admin) = setup();
    let other = generate(&mut env, 2);
    AnonVoteContract::record_ballot(&mut env, admin, text("b"), limits(5, 5)).unwrap();
    let refused = Err(ContractError::AdminUnauthorized);
    assert_eq!(
        AnonVoteContract::record_ballot(&mut env, other, text("c"), limits(5, 5)),
        refused
    );
    assert_eq!(AnonVoteContract::record_token(&mut env, other, text("b")), refused);
    assert_eq!(AnonVoteContract::record_vote(&mut env, other, text("b")), refused);
    assert_eq!(AnonVoteContract::expire_ballot(&mut env, other, text("b")), refused);
}

#[test]
fn recording_needs_an_initialized_contract() {
    let mut env = Env::new(NOW);
    let admin = generate(&mut env, 1);
    assert_eq!(
        AnonVoteContract::record_ballot(&mut env, admin, text("b"), limits(5, 5)),
        Err(ContractError::NotInitialized)
    );
}
