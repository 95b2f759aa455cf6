use anonvote::AnonVoteContract;
use anonvote::events::Event;
use anonvote::Env;
use anonvote::Address;
use anonvote::BallotLimits;
use anonvote::BallotState;
use anonvote::ContractError;
use anonvote::CriticalOperation;
use anonvote::OperationStatus;
use anonvote::types::APPROVAL_EXPIRATION_SECONDS;
use anonvote::types::UPGRADE_TIME_LOCK_SECONDS;

const NOW: u64 = 1_700_000_000;

/// An address of its own for each number, which authorizes everything.
fn generate(env: &mut Env, n: u8) -> Address {
    let mut strkey = [b'A'; 56];
    strkey[0] = b'G';
    strkey[55] = n;
    let address = Address { strkey };
    env.authorize(address);
    address
}

fn setup() -> (Env, Address) {
    let mut env = Env::new(NOW);
    let admin = generate(&mut env, 1);
    assert_eq!(AnonVoteContract::initialize(&mut env, admin), Ok(()));
    (env, admin)
}

fn limits(max_tokens: u32, max_votes: u32) -> BallotLimits {
    BallotLimits { max_tokens, max_votes }
}

fn text(s: &str) -> Vec<u8> {
    s.as_bytes().to_vec()
}

fn configure_two_of_three(env: &mut Env, admin: Address) -> (Address, Address, Address) {
    let first = generate(env, 11);
    let second = generate(env, 12);
    let third = generate(env, 13);
    let approvers = vec![first, second, third];
    assert_eq!(
        AnonVoteContract::configure_approval_threshold(env, admin, approvers, 2, 3),
        Ok(())
    );
    (first, second, third)
}

#[test]
fn insufficient_approvals_block_result_publication() {
    let (mut env, admin) = setup();
    let (first, second, _) = configure_two_of_three(&mut env, admin);
    let ballot = text("ballot");
    let result = text("result");
    AnonVoteContract::record_ballot(&mut env, admin, ballot.clone(), limits(10, 10)).unwrap();

    let operation_id =
        AnonVoteContract::record_result(&mut env, admin, ballot.clone(), result.clone()).unwrap();
    assert!(!AnonVoteContract::approve_operation(&mut env, operation_id, first).unwrap());
    assert_eq!(AnonVoteContract::get_result_hash(&env, ballot.clone()), None);
    assert!(AnonVoteContract::approve_operation(&mut env, operation_id, second).unwrap());
    assert_eq!(AnonVoteContract::get_result_hash(&env, ballot), Some(result));
}

#[test]
fn duplicate_and_non_approver_signatures_are_rejected() {
    let (mut env, admin) = setup();
    let (first, _, _) = configure_two_of_three(&mut env, admin);
    let outsider = generate(&mut env, 99);
    let operation_id = AnonVoteContract::pause_contract(&mut env, admin).unwrap();

    assert_eq!(
        AnonVoteContract::approve_operation(&mut env, operation_id, outsider),
        Err(ContractError::ApproverUnauthorized)
    );
    assert!(!AnonVoteContract::approve_operation(&mut env, operation_id, first).unwrap());
    assert_eq!(
        AnonVoteContract::approve_operation(&mut env, operation_id, first),
        Err(ContractError::OperationAlreadyApproved)
    );
    assert!(!AnonVoteContract::is_paused(&env));
}

#[test]
fn threshold_approval_executes_admin_rotation_and_pause() {
    let (mut env, admin) = setup();
    let (first, second, third) = configure_two_of_three(&mut env, admin);
    let new_admin = generate(&mut env, 2);

    let rotation = AnonVoteContract::rotate_admin(&mut env, admin, new_admin).unwrap();
    assert!(!AnonVoteContract::approve_operation(&mut env, rotation, first).unwrap());
    assert!(AnonVoteContract::approve_operation(&mut env, rotation, second).unwrap());
    assert_eq!(AnonVoteContract::get_admin(&env), Some(new_admin));

    let pause = AnonVoteContract::pause_contract(&mut env, new_admin).unwrap();
    assert!(!AnonVoteContract::approve_operation(&mut env, pause, second).unwrap());
    assert!(AnonVoteContract::approve_operation(&mut env, pause, third).unwrap());
    assert!(AnonVoteContract::is_paused(&env));
}

#[test]
fn cancelled_and_expired_operations_cannot_execute() {
    let (mut env, admin) = setup();
    let (first, second, _) = configure_two_of_three(&mut env, admin);
    let cancelled =
        AnonVoteContract::create_operation(&mut env, admin, CriticalOperation::Pause).unwrap();
    AnonVoteContract::cancel_operation(&mut env, admin, cancelled).unwrap();
    assert_eq!(
        AnonVoteContract::approve_operation(&mut env, cancelled, first),
        Err(ContractError::OperationNotPending)
    );

    let expired =
        AnonVoteContract::create_operation(&mut env, admin, CriticalOperation::Pause).unwrap();
    env.timestamp += APPROVAL_EXPIRATION_SECONDS + 1;
    assert_eq!(
        AnonVoteContract::approve_operation(&mut env, expired, second),
        Err(ContractError::OperationExpired)
    );
    assert!(!AnonVoteContract::is_paused(&env));
}

#[test]
fn approval_configuration_is_validated() {
    let (mut env, admin) = setup();
    let approver = generate(&mut env, 11);
    let duplicate = vec![approver, approver];
    assert_eq!(
        AnonVoteContract::configure_approval_threshold(
            &mut env,
            admin,
            duplicate.clone(),
            2,
            2
        ),
        Err(ContractError::DuplicateApprover)
    );
    assert_eq!(
        AnonVoteContract::configure_approval_threshold(&mut env, admin, duplicate, 3, 2),
        Err(ContractError::InvalidApprovalConfig)
    );
}

#[test]
fn pending_operation_keeps_its_original_governance_configuration() {
    let (mut env, admin) = setup();
    let (first, second, _) = configure_two_of_three(&mut env, admin);
    let operation_id = AnonVoteContract::pause_contract(&mut env, admin).unwrap();

    let replacement = generate(&mut env, 21);
    AnonVoteContract::configure_approval_threshold(&mut env, admin, vec![replacement], 1, 1)
        .unwrap();

    assert_eq!(
        AnonVoteContract::approve_operation(&mut env, operation_id, replacement),
        Err(ContractError::ApproverUnauthorized)
    );
    assert!(!AnonVoteContract::approve_operation(&mut env, operation_id, first).unwrap());
    assert!(AnonVoteContract::approve_operation(&mut env, operation_id, second).unwrap());
    assert!(AnonVoteContract::is_paused(&env));
}

#[test]
fn upgrade_is_scheduled_only_after_threshold_approval() {
    let (mut env, admin) = setup();
    let (first, second, _) = configure_two_of_three(&mut env, admin);
    let wasm_hash = [7; 32];

    let operation_id =
        AnonVoteContract::schedule_upgrade(&mut env, admin, wasm_hash).unwrap();
    assert!(!AnonVoteContract::approve_operation(&mut env, operation_id, first).unwrap());
    assert_eq!(AnonVoteContract::get_pending_upgrade(&env), None);

    assert!(AnonVoteContract::approve_operation(&mut env, operation_id, second).unwrap());
    let upgrade = AnonVoteContract::get_pending_upgrade(&env).unwrap();
    assert_eq!(upgrade.new_wasm_hash, wasm_hash);
    assert_eq!(
        upgrade.executable_at,
        upgrade.scheduled_at + UPGRADE_TIME_LOCK_SECONDS
    );
}

#[test]
fn initialization_makes_the_admin_the_sole_approver() {
    let (env, admin) = setup();
    assert_eq!(AnonVoteContract::get_admin(&env), Some(admin));
    assert_eq!(AnonVoteContract::get_approvers(&env), vec![admin]);
    assert_eq!(AnonVoteContract::get_approval_threshold(&env), 1);
    assert_eq!(AnonVoteContract::get_initialized_at(&env), Some(NOW));
    assert!(!AnonVoteContract::is_paused(&env));
    assert!(env.events.is_empty());
}

#[test]
fn nothing_is_known_before_initialization() {
    let mut env = Env::new(NOW);
    let admin = generate(&mut env, 1);
    assert_eq!(AnonVoteContract::get_admin(&env), None);
    assert_eq!(AnonVoteContract::get_approvers(&env), Vec::new());
    assert_eq!(AnonVoteContract::get_approval_threshold(&env), 0);
    assert_eq!(AnonVoteContract::get_initialized_at(&env), None);
    assert_eq!(AnonVoteContract::get_operation(&env, 0), None);
    assert_eq!(
        AnonVoteContract::pause_contract(&mut env, admin),
        Err(ContractError::NotInitialized)
    );
    assert_eq!(
        AnonVoteContract::approve_operation(&mut env, 0, admin),
        Err(ContractError::OperationNotFound)
    );
}

#[test]
fn initialization_happens_once() {
    let (mut env, admin) = setup();
    let other = generate(&mut env, 2);
    assert_eq!(
        AnonVoteContract::initialize(&mut env, other),
        Err(ContractError::AlreadyInitialized)
    );
    assert_eq!(AnonVoteContract::get_admin(&env), Some(admin));
}

#[test]
fn only_the_admin_governs() {
    let (mut env, _) = setup();
    let other = generate(&mut env, 2);
    let refused = Err(ContractError::AdminUnauthorized);
    assert_eq!(
        AnonVoteContract::configure_approval_threshold(&mut env, other, vec![other], 1, 1),
        refused
    );
    assert_eq!(
        AnonVoteContract::pause_contract(&mut env, other),
        Err(ContractError::AdminUnauthorized)
    );
    assert_eq!(AnonVoteContract::cancel_operation(&mut env, other, 0), refused);
    assert_eq!(AnonVoteContract::cancel_upgrade(&mut env, other), refused);
    assert_eq!(AnonVoteContract::resume_contract(&mut env, other), refused);
    assert!(env.events.is_empty());
}

#[test]
fn improper_thresholds_are_refused() {
    let (mut env, admin) = setup();
    let a = generate(&mut env, 11);
    let b = generate(&mut env, 12);
    let refused = Err(ContractError::InvalidApprovalConfig);
    for (approvers, m, n) in [
        (vec![], 0, 0),
        (vec![a, b], 0, 2),
        (vec![a, b], 3, 2),
        (vec![a, b], 1, 1),
        (vec![a, b], 1, 3),
    ] {
        assert_eq!(
            AnonVoteContract::configure_approval_threshold(&mut env, admin, approvers, m, n),
            refused
        );
    }
    assert_eq!(AnonVoteContract::get_approvers(&env), vec![admin]);
    assert_eq!(
        AnonVoteContract::configure_approval_threshold(&mut env, admin, vec![a, b], 2, 2),
        Ok(())
    );
    assert_eq!(AnonVoteContract::get_approvers(&env), vec![a, b]);
    assert_eq!(AnonVoteContract::get_approval_threshold(&env), 2);
    assert_eq!(env.events, vec![Event::ApprovalConfigured(admin, 2, 2)]);
}

#[test]
fn operations_are_numbered_and_kept() {
    let (mut env, admin) = setup();
    configure_two_of_three(&mut env, admin);
    assert_eq!(AnonVoteContract::pause_contract(&mut env, admin), Ok(0));
    env.timestamp = NOW + 10;
    assert_eq!(AnonVoteContract::schedule_upgrade(&mut env, admin, [3; 32]), Ok(1));
    let pending = AnonVoteContract::get_operation(&env, 1).unwrap();
    assert_eq!(pending.approval_count, 0);
    assert_eq!(pending.created_at, NOW + 10);
    assert_eq!(pending.expires_at, NOW + 10 + 604_800);
    assert_eq!(pending.id, 1);
    assert_eq!(pending.operation, CriticalOperation::UpgradeScheduling([3; 32]));
    assert_eq!(pending.proposer, admin);
    assert_eq!(pending.status, OperationStatus::Pending);
    assert_eq!(pending.threshold, 2);
    assert_eq!(AnonVoteContract::get_operation(&env, 2), None);
    assert_eq!(
        env.events[1..],
        [
            Event::OperationCreated(0, admin, NOW, NOW + 604_800),
            Event::OperationCreated(1, admin, NOW + 10, NOW + 10 + 604_800),
        ]
    );
}

#[test]
fn the_last_identifier_is_never_given_out() {
    let (mut env, admin) = setup();
    env.storage.operation_nonce = Some(u64::MAX);
    assert_eq!(
        AnonVoteContract::pause_contract(&mut env, admin),
        Err(ContractError::CounterOverflow)
    );
}

#[test]
fn approvals_can_be_given_up_to_the_last_second() {
    let (mut env, admin) = setup();
    let id = AnonVoteContract::pause_contract(&mut env, admin).unwrap();
    env.timestamp = NOW + APPROVAL_EXPIRATION_SECONDS;
    assert_eq!(AnonVoteContract::approve_operation(&mut env, id, admin), Ok(true));
    assert!(AnonVoteContract::is_paused(&env));
}

#[test]
fn approvals_are_counted_and_announced() {
    let (mut env, admin) = setup();
    let (first, second, third) = configure_two_of_three(&mut env, admin);
    let id = AnonVoteContract::pause_contract(&mut env, admin).unwrap();
    let published = env.events.len();

    assert_eq!(AnonVoteContract::approve_operation(&mut env, id, third), Ok(false));
    assert!(AnonVoteContract::has_approved(&env, id, third));
    assert!(!AnonVoteContract::has_approved(&env, id, first));
    assert_eq!(AnonVoteContract::get_operation(&env, id).unwrap().approval_count, 1);

    env.timestamp = NOW + 5;
    assert_eq!(AnonVoteContract::approve_operation(&mut env, id, first), Ok(true));
    let done = AnonVoteContract::get_operation(&env, id).unwrap();
    assert_eq!(done.approval_count, 2);
    assert_eq!(done.status, OperationStatus::Executed);
    assert_eq!(
        env.events[published..],
        [
            Event::OperationApproved(id, third, 1, NOW),
            Event::OperationApproved(id, first, 2, NOW + 5),
            Event::Paused(NOW + 5),
            Event::OperationExecuted(id, 2, NOW + 5),
        ]
    );
    assert_eq!(
        AnonVoteContract::approve_operation(&mut env, id, second),
        Err(ContractError::OperationNotPending)
    );
    assert_eq!(
        AnonVoteContract::cancel_operation(&mut env, admin, id),
        Err(ContractError::OperationNotPending)
    );
}

#[test]
fn cancellation_is_announced() {
    let (mut env, admin) = setup();
    let id = AnonVoteContract::pause_contract(&mut env, admin).unwrap();
    assert_eq!(AnonVoteContract::cancel_operation(&mut env, admin, id), Ok(()));
    assert_eq!(
        AnonVoteContract::get_operation(&env, id).unwrap().status,
        OperationStatus::Cancelled
    );
    assert_eq!(env.events[1], Event::OperationCancelled(id, admin, NOW));
    assert_eq!(
        AnonVoteContract::cancel_operation(&mut env, admin, 7),
        Err(ContractError::OperationNotFound)
    );
}

#[test]
fn the_count_of_approvals_cannot_overflow() {
    let (mut env, admin) = setup();
    let id = AnonVoteContract::pause_contract(&mut env, admin).unwrap();
    let mut pending = AnonVoteContract::get_operation(&env, id).unwrap();
    pending.approval_count = u32::MAX;
    env.storage.operations.set(id, pending);
    assert_eq!(
        AnonVoteContract::approve_operation(&mut env, id, admin),
        Err(ContractError::CounterOverflow)
    );
}

#[test]
fn rotation_is_announced_and_takes_effect() {
    let (mut env, admin) = setup();
    let new_admin = generate(&mut env, 2);
    let id = AnonVoteContract::rotate_admin(&mut env, admin, new_admin).unwrap();
    assert_eq!(AnonVoteContract::approve_operation(&mut env, id, admin), Ok(true));
    assert!(env.events.contains(&Event::AdminRotated(admin, new_admin)));
    assert_eq!(
        AnonVoteContract::resume_contract(&mut env, admin),
        Err(ContractError::AdminUnauthorized)
    );
    assert_eq!(AnonVoteContract::resume_contract(&mut env, new_admin), Ok(()));
}

#[test]
fn results_are_proposed_for_recorded_ballots_only() {
    let (mut env, admin) = setup();
    let ballot = text("ballot");
    assert_eq!(
        AnonVoteContract::record_result(&mut env, admin, ballot.clone(), text("result")),
        Err(ContractError::BallotNotFound)
    );
    AnonVoteContract::record_ballot(&mut env, admin, ballot.clone(), limits(1, 1)).unwrap();
    assert_eq!(
        AnonVoteContract::record_result(&mut env, admin, ballot, text("")),
        Err(ContractError::InvalidBallotHash)
    );
}

#[test]
fn a_published_result_stands() {
    let (mut env, admin) = setup();
    let ballot = text("ballot");
    AnonVoteContract::record_ballot(&mut env, admin, ballot.clone(), limits(1, 1)).unwrap();
    let same = |env: &mut Env, result: &str| {
        AnonVoteContract::record_result(env, admin, text("ballot"), text(result))
    };
    let first = same(&mut env, "result").unwrap();
    let rival = same(&mut env, "other").unwrap();
    env.timestamp = NOW + 3;
    assert_eq!(AnonVoteContract::approve_operation(&mut env, first, admin), Ok(true));
    assert!(AnonVoteContract::result_exists(&env, ballot.clone()));
    let metadata = AnonVoteContract::get_ballot_metadata(&env, ballot.clone()).unwrap();
    assert_eq!(metadata.state, BallotState::ResultPublished);
    assert_eq!(metadata.state_updated_at, NOW + 3);
    assert_eq!(metadata.created_at, NOW);

    let published = env.events.len();
    assert_eq!(same(&mut env, "other"), Err(ContractError::ResultAlreadyPublished));
    assert_eq!(
        AnonVoteContract::approve_operation(&mut env, rival, admin),
        Err(ContractError::ResultAlreadyPublished)
    );
    assert_eq!(env.events.len(), published);
    assert!(!AnonVoteContract::has_approved(&env, rival, admin));
    assert_eq!(AnonVoteContract::get_operation(&env, rival).unwrap().approval_count, 0);

    env.timestamp = NOW + 9;
    let again = same(&mut env, "result").unwrap();
    assert_eq!(AnonVoteContract::approve_operation(&mut env, again, admin), Ok(true));
    assert_eq!(
        AnonVoteContract::get_ballot_metadata(&env, ballot.clone()).unwrap(),
        metadata
    );
    assert_eq!(AnonVoteContract::get_result_hash(&env, ballot), Some(text("result")));
}

#[test]
fn executing_needs_what_the_operation_is_about() {
    let (mut env, admin) = setup();
    let ballot = text("ballot");
    AnonVoteContract::record_ballot(&mut env, admin, ballot.clone(), limits(1, 1)).unwrap();
    let result =
        AnonVoteContract::record_result(&mut env, admin, ballot, text("result")).unwrap();
    let rotation = AnonVoteContract::rotate_admin(&mut env, admin, admin).unwrap();
    env.storage.ballot_metadata = anonvote::table::Table::new();
    assert_eq!(
        AnonVoteContract::approve_operation(&mut env, result, admin),
        Err(ContractError::BallotNotFound)
    );
    env.storage.admin = None;
    assert_eq!(
        AnonVoteContract::approve_operation(&mut env, rotation, admin),
        Err(ContractError::NotInitialized)
    );
}

#[test]
fn deadlines_that_the_clock_cannot_hold_are_recognized() {
    let (mut env, admin) = setup();
    let wasm = CriticalOperation::UpgradeScheduling([1; 32]);
    let id = AnonVoteContract::create_operation(&mut env, admin, wasm.clone()).unwrap();
    let mut pending = AnonVoteContract::get_operation(&env, id).unwrap();
    pending.expires_at = u64::MAX;
    env.storage.operations.set(id, pending);

    env.timestamp = u64::MAX - APPROVAL_EXPIRATION_SECONDS;
    assert!(AnonVoteContract::creation_fits_clock(&env, admin, &wasm));
    env.timestamp += 1;
    assert!(!AnonVoteContract::creation_fits_clock(&env, admin, &wasm));

    env.timestamp = u64::MAX - UPGRADE_TIME_LOCK_SECONDS + 1;
    assert!(!AnonVoteContract::approval_fits_clock(&env, id, admin));
    env.timestamp -= 1;
    assert!(AnonVoteContract::approval_fits_clock(&env, id, admin));
    assert_eq!(AnonVoteContract::approve_operation(&mut env, id, admin), Ok(true));
    let upgrade = AnonVoteContract::get_pending_upgrade(&env).unwrap();
    assert_eq!(upgrade.executable_at, u64::MAX);

    env.timestamp = u64::MAX;
    assert!(AnonVoteContract::creation_fits_clock(&env, admin, &wasm));
    assert_eq!(
        AnonVoteContract::create_operation(&mut env, admin, wasm),
        Err(ContractError::UpgradeAlreadyScheduled)
    );
    assert!(AnonVoteContract::approval_fits_clock(&env, id, admin));
}

#[test]
fn an_expired_operation_can_still_be_cancelled() {
    let (mut env, admin) = setup();
    let id = AnonVoteContract::pause_contract(&mut env, admin).unwrap();
    env.timestamp += APPROVAL_EXPIRATION_SECONDS + 1;
    assert_eq!(
        AnonVoteContract::approve_operation(&mut env, id, admin),
        Err(ContractError::OperationExpired)
    );
    assert_eq!(AnonVoteContract::cancel_operation(&mut env, admin, id), Ok(()));
    env.timestamp = NOW;
    assert_eq!(
        AnonVoteContract::approve_operation(&mut env, id, admin),
        Err(ContractError::OperationNotPending)
    );
}

#[test]
fn a_refused_approval_leaves_no_trace() {
    let (mut env, admin) = setup();
    let (first, _, _) = configure_two_of_three(&mut env, admin);
    let outsider = generate(&mut env, 99);
    let id = AnonVoteContract::pause_contract(&mut env, admin).unwrap();
    AnonVoteContract::approve_operation(&mut env, id, first).unwrap();
    let pending = AnonVoteContract::get_operation(&env, id);
    let published = env.events.len();
    assert!(AnonVoteContract::approve_operation(&mut env, id, outsider).is_err());
    assert!(AnonVoteContract::approve_operation(&mut env, id, first).is_err());
    assert_eq!(AnonVoteContract::get_operation(&env, id), pending);
    assert_eq!(env.events.len(), published);
    assert!(!AnonVoteContract::has_approved(&env, id, outsider));
}

#[test]
fn a_quorum_of_all_executes_with_the_last() {
    let (mut env, admin) = setup();
    let approvers: Vec<Address> = (11..16).map(|n| generate(&mut env, n)).collect();
    AnonVoteContract::configure_approval_threshold(&mut env, admin, approvers.clone(), 5, 5)
        .unwrap();
    let id = AnonVoteContract::pause_contract(&mut env, admin).unwrap();
    for approver in &approvers[..4] {
        assert_eq!(AnonVoteContract::approve_operation(&mut env, id, *approver), Ok(false));
        assert!(!AnonVoteContract::is_paused(&env));
    }
    assert_eq!(AnonVoteContract::approve_operation(&mut env, id, approvers[4]), Ok(true));
    assert!(AnonVoteContract::is_paused(&env));
}
