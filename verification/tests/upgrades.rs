use anonvote::AnonVoteContract;
use anonvote::events::Event;
use anonvote::DataKey;
use anonvote::footprint::Invocation;
use anonvote::Env;
use anonvote::Address;
use anonvote::BallotLimits;
use anonvote::ContractError;
use anonvote::CriticalOperation;
use anonvote::types::UPGRADE_TIME_LOCK_SECONDS;

const NOW: u64 = 1_700_000_000;

fn generate(env: &mut Env, n: u8) -> Address {
    let mut strkey = [b'A'; 56];
    strkey[0] = b'C';
    strkey[55] = n;
    let address = Address { strkey };
    env.authorize(address);
    address
}

fn setup() -> (Env, Address) {
    let mut env = Env::new(NOW);
    let admin = generate(&mut env, 1);
    assert_eq!(AnonVoteContract::initialize(&mut env, admin), Ok(()));
    (env, admin)
}

fn schedule(env: &mut Env, admin: Address, wasm: [u8; 32]) {
    let id = AnonVoteContract::schedule_upgrade(env, admin, wasm).unwrap();
    assert_eq!(AnonVoteContract::approve_operation(env, id, admin), Ok(true));
}

#[test]
fn an_upgrade_waits_for_two_days() {
    let (mut env, admin) = setup();
    assert_eq!(
        AnonVoteContract::execute_upgrade(&mut env),
        Err(ContractError::NoUpgradeScheduled)
    );
    schedule(&mut env, admin, [7; 32]);
    assert!(env.events.contains(&Event::UpgradeScheduled([7; 32], NOW, NOW + 172_800)));
    env.timestamp = NOW + UPGRADE_TIME_LOCK_SECONDS - 1;
    assert_eq!(
        AnonVoteContract::execute_upgrade(&mut env),
        Err(ContractError::TimeLockNotExpired)
    );
    assert_eq!(env.installed_wasm, None);
    env.timestamp += 1;
    assert_eq!(AnonVoteContract::execute_upgrade(&mut env), Ok(()));
    assert_eq!(env.installed_wasm, Some([7; 32]));
    assert_eq!(env.events.last(), Some(&Event::UpgradeExecuted([7; 32])));
    assert_eq!(AnonVoteContract::get_pending_upgrade(&env), None);
    assert_eq!(
        AnonVoteContract::execute_upgrade(&mut env),
        Err(ContractError::NoUpgradeScheduled)
    );
}

#[test]
fn one_upgrade_at_a_time() {
    let (mut env, admin) = setup();
    let first = AnonVoteContract::schedule_upgrade(&mut env, admin, [1; 32]).unwrap();
    let second = AnonVoteContract::schedule_upgrade(&mut env, admin, [2; 32]).unwrap();
    assert_eq!(AnonVoteContract::approve_operation(&mut env, first, admin), Ok(true));
    assert_eq!(
        AnonVoteContract::approve_operation(&mut env, second, admin),
        Err(ContractError::UpgradeAlreadyScheduled)
    );
    assert_eq!(
        AnonVoteContract::schedule_upgrade(&mut env, admin, [3; 32]),
        Err(ContractError::UpgradeAlreadyScheduled)
    );
    assert_eq!(AnonVoteContract::get_pending_upgrade(&env).unwrap().new_wasm_hash, [1; 32]);

    assert_eq!(AnonVoteContract::cancel_upgrade(&mut env, admin), Ok(()));
    assert_eq!(env.events.last(), Some(&Event::UpgradeCancelled(admin, NOW)));
    assert_eq!(AnonVoteContract::approve_operation(&mut env, second, admin), Ok(true));
    assert_eq!(AnonVoteContract::get_pending_upgrade(&env).unwrap().new_wasm_hash, [2; 32]);
}

#[test]
fn only_a_scheduled_upgrade_can_be_cancelled() {
    let (mut env, admin) = setup();
    assert_eq!(
        AnonVoteContract::cancel_upgrade(&mut env, admin),
        Err(ContractError::NoUpgradeScheduled)
    );
    schedule(&mut env, admin, [7; 32]);
    assert_eq!(AnonVoteContract::cancel_upgrade(&mut env, admin), Ok(()));
    assert_eq!(AnonVoteContract::get_pending_upgrade(&env), None);
}

#[test]
fn errors_have_their_numbers() {
    let all = [
        ContractError::AdminUnauthorized,
        ContractError::AlreadyInitialized,
        ContractError::NotInitialized,
        ContractError::BallotNotFound,
        ContractError::BallotAlreadyExists,
        ContractError::ResultAlreadyPublished,
        ContractError::CounterOverflow,
        ContractError::InvalidBallotHash,
        ContractError::UpgradeAlreadyScheduled,
        ContractError::NoUpgradeScheduled,
        ContractError::TimeLockNotExpired,
        ContractError::BallotExpired,
        ContractError::ContractPaused,
        ContractError::LimitExceeded,
        ContractError::InvalidApprovalConfig,
        ContractError::DuplicateApprover,
        ContractError::ApproverUnauthorized,
        ContractError::OperationNotFound,
        ContractError::OperationAlreadyApproved,
        ContractError::OperationNotPending,
        ContractError::OperationExpired,
    ];
    for (i, error) in all.iter().enumerate() {
        assert_eq!(error.code(), i as u32 + 1);
    }
}

#[test]
fn events_have_their_topics() {
    let (mut env, admin) = setup();
    let a = admin;
    let b = generate(&mut env, 2);
    let ballot = b"ballot".to_vec();
    let expected = [
        (Event::ApprovalConfigured(a, 1, 1), ("govern", "cfg_appr")),
        (Event::OperationCreated(0, a, 1, 2), ("govern", "op_create")),
        (Event::OperationApproved(0, a, 1, 2), ("govern", "approved")),
        (Event::OperationExecuted(0, 1, 2), ("govern", "op_exec")),
        (Event::OperationCancelled(0, a, 1), ("govern", "op_cancel")),
        (Event::BallotCreated(ballot.clone(), 1, a), ("audit", "blt_crtd")),
        (Event::TokenIssued(ballot.clone(), 1), ("audit", "tok_issd")),
        (Event::VoteCast(ballot.clone(), 1), ("audit", "vote_cast")),
        (Event::BallotExpired(ballot.clone()), ("audit", "exp_adm")),
        (Event::AdminRotated(a, b), ("audit", "adm_rotd")),
        (Event::ResultPublished(ballot.clone(), ballot), ("audit", "res_pub")),
        (Event::Paused(1), ("audit", "paused")),
        (Event::Resumed(a, 1), ("audit", "resumed")),
        (Event::UpgradeScheduled([1; 32], 1, 2), ("audit", "upg_schd")),
        (Event::UpgradeCancelled(a, 1), ("audit", "upg_cncl")),
        (Event::UpgradeExecuted([1; 32]), ("audit", "upg_excd")),
    ];
    for (event, topics) in expected {
        assert_eq!(event.topics(), topics);
    }
}

#[test]
fn an_invocation_is_decided_by_few_entries() {
    let (_, admin) = setup();
    let ballot = b"ballot".to_vec();
    let publication =
        CriticalOperation::ResultPublication(ballot.clone(), b"result".to_vec());
    let limits = BallotLimits { max_tokens: 1, max_votes: 1 };

    assert_eq!(Invocation::Initialize(admin).keys(None), vec![DataKey::Admin]);
    assert_eq!(
        Invocation::ConfigureApprovals(admin, vec![admin], 1, 1).keys(None),
        vec![DataKey::Admin]
    );
    assert_eq!(
        Invocation::CreateOperation(admin, publication.clone()).keys(None),
        vec![
            DataKey::Admin,
            DataKey::OperationNonce,
            DataKey::Approvers,
            DataKey::ApprovalThreshold,
            DataKey::ResultHash(ballot.clone()),
            DataKey::BallotMetadata(ballot.clone()),
        ]
    );
    assert_eq!(
        Invocation::ApproveOperation(4, admin).keys(Some(&publication)),
        vec![
            DataKey::Operation(4),
            DataKey::OperationApprover(4, admin),
            DataKey::Approval(4, admin),
            DataKey::ResultHash(ballot.clone()),
            DataKey::BallotMetadata(ballot.clone()),
        ]
    );
    assert_eq!(
        Invocation::ApproveOperation(4, admin)
            .keys(Some(&CriticalOperation::UpgradeScheduling([1; 32])))
            .last(),
        Some(&DataKey::PendingUpgrade)
    );
    assert_eq!(Invocation::ApproveOperation(4, admin).keys(None).len(), 3);
    assert_eq!(
        Invocation::RecordBallot(admin, ballot.clone(), limits).keys(None),
        vec![DataKey::IsPaused, DataKey::Admin, DataKey::BallotMetadata(ballot.clone())]
    );
    assert_eq!(
        Invocation::RecordToken(admin, ballot.clone()).keys(None),
        vec![
            DataKey::IsPaused,
            DataKey::Admin,
            DataKey::BallotMetadata(ballot.clone()),
            DataKey::BallotExpired(ballot.clone()),
            DataKey::TokensIssued(ballot.clone()),
        ]
    );
    assert_eq!(
        Invocation::RecordVote(admin, ballot.clone()).keys(None).last(),
        Some(&DataKey::VotesCast(ballot.clone()))
    );
    assert_eq!(
        Invocation::CancelOperation(admin, 4).keys(None),
        vec![DataKey::Admin, DataKey::Operation(4)]
    );
    assert_eq!(
        Invocation::ExpireBallot(admin, ballot.clone()).keys(None),
        vec![DataKey::Admin, DataKey::BallotMetadata(ballot)]
    );
    assert_eq!(
        Invocation::CancelUpgrade(admin).keys(None),
        vec![DataKey::Admin, DataKey::PendingUpgrade]
    );
    assert_eq!(Invocation::ExecuteUpgrade.keys(None), vec![DataKey::PendingUpgrade]);
    assert_eq!(Invocation::Resume(admin).keys(None), vec![DataKey::Admin]);
}

#[test]
fn a_partial_storage_gives_the_same_answer() {
    let (mut full, admin) = setup();
    let ballot = b"ballot".to_vec();
    let limits = BallotLimits { max_tokens: 2, max_votes: 2 };
    AnonVoteContract::record_ballot(&mut full, admin, ballot.clone(), limits).unwrap();
    AnonVoteContract::record_ballot(&mut full, admin, b"other".to_vec(), limits).unwrap();
    AnonVoteContract::record_token(&mut full, admin, ballot.clone()).unwrap();

    let mut partial = Env::new(full.timestamp);
    partial.authorize(admin);
    partial.storage.is_paused = full.storage.is_paused;
    partial.storage.admin = full.storage.admin;
    let metadata = AnonVoteContract::get_ballot_metadata(&full, ballot.clone()).unwrap();
    partial.storage.ballot_metadata.set(ballot.clone(), metadata);
    partial.storage.tokens_issued.set(ballot.clone(), 1);

    assert_eq!(AnonVoteContract::record_token(&mut partial, admin, ballot.clone()), Ok(()));
    assert_eq!(AnonVoteContract::record_token(&mut full, admin, ballot.clone()), Ok(()));
    assert_eq!(partial.events.last(), full.events.last());
    assert_eq!(partial.storage.tokens_issued.entries(), &vec![(ballot, 2)]);
}
