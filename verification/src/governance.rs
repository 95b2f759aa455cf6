//! Set-up, and the M-of-N approval of critical operations.

use vstd::prelude::*;
use crate::contract::AnonVoteContract;
use crate::events::Event;
use crate::ledger::Env;
use crate::ledger::Ledger;
use crate::ledger::Store;
use crate::rules::admin_refusal;
use crate::rules::after;
use crate::rules::answered;
use crate::rules::approve_refusal;
use crate::rules::cancel_operation_refusal;
use crate::rules::clock_holds;
use crate::rules::completes;
use crate::rules::configure_refusal;
use crate::rules::create_refusal;
use crate::rules::execution_effect;
use crate::rules::execution_refusal;
use crate::rules::initialize_refusal;
use crate::rules::goes_through;
use crate::rules::outcome;
use crate::rules::proposal_refusal;
use crate::rules::with_approvers;
use crate::rules::refusal;
use crate::rules::Call;
use crate::table::copy_bytes;
use crate::table::same_bytes;
use crate::types::Address;
use crate::types::BallotState;
use crate::types::ContractError;
use crate::types::CriticalOperation;
use crate::types::OperationStatus;
use crate::types::OperationView;
use crate::types::PendingOperation;
use crate::types::PendingUpgrade;
use crate::types::APPROVAL_EXPIRATION_SECONDS;
use crate::types::UPGRADE_TIME_LOCK_SECONDS;

verus! {

impl AnonVoteContract {
    /// Initializes the contract. Governance starts as 1-of-1 with the admin as the sole
    /// approver, so that a deployment can configure M-of-N next.
    pub fn initialize(env: &mut Env, admin: Address) -> (r: Result<(), ContractError>)
        ensures
            r == outcome(initialize_refusal(old(env)@), ()),
            final(env)@ == after(old(env)@, (Call::Initialize { admin })),
            r is Ok == goes_through(old(env)@, (Call::Initialize { admin })),
            r matches Err(e) ==> refusal(old(env)@, (Call::Initialize { admin })) == Some(e),
    {
        if env.storage.admin.is_some() {
            return Err(ContractError::AlreadyInitialized);
        }
        let mut approvers: Vec<Address> = Vec::new();
        approvers.push(admin);
        assert(approvers@ =~= seq![admin]);
        env.storage.admin = Some(admin);
        env.storage.initialized_at = Some(env.timestamp);
        env.storage.is_paused = Some(false);
        env.storage.approvers = Some(approvers);
        env.storage.approval_threshold = Some(1u32);
        env.storage.operation_nonce = Some(0u64);
        Ok(())
    }

    /// Replaces the approver set and configures the M-of-N threshold.
    ///
    /// `n` must equal `approvers.len()`, all addresses must be unique, and `1 <= m <= n`.
    pub fn configure_approval_threshold(
        env: &mut Env,
        caller: Address,
        approvers: Vec<Address>,
        m: u32,
        n: u32,
    ) -> (r: Result<(), ContractError>)
        requires
            old(env)@.authorized.contains(caller),
        ensures
            r == outcome(configure_refusal(old(env)@, caller, approvers@, m, n), ()),
            final(env)@ == after(
                old(env)@,
                (Call::ConfigureApprovals { caller, approvers: approvers@, m, n }),
            ),
            r is Ok == goes_through(
                old(env)@,
                (Call::ConfigureApprovals { caller, approvers: approvers@, m, n }),
            ),
            r matches Err(e) ==> refusal(
                old(env)@,
                (Call::ConfigureApprovals { caller, approvers: approvers@, m, n }),
            ) == Some(e),
    {
        Self::require_admin(env, &caller)?;
        if n == 0 || m == 0 || m > n || approvers.len() as u64 != n as u64 {
            return Err(ContractError::InvalidApprovalConfig);
        }
        let mut seen: Vec<Address> = Vec::new();
        let mut i: usize = 0;
        while i < approvers.len()
            invariant
                env@ == old(env)@,
                admin_refusal(env@.store, caller) is None,
                1 <= m <= n == approvers@.len(),
                i <= approvers@.len(),
                seen@ == approvers@.take(i as int),
                seen@.no_duplicates(),
            decreases approvers@.len() - i,
        {
            let approver = approvers[i];
            if Self::contains_address(&seen, &approver) {
                proof {
                    let j = choose|j: int| 0 <= j < seen@.len() && seen@[j] == approver;
                    assert(approvers@[j] == approvers@[i as int]);
                }
                return Err(ContractError::DuplicateApprover);
            }
            seen.push(approver);
            assert(seen@ =~= approvers@.take(i + 1));
            i = i + 1;
        }
        assert(seen@ =~= approvers@);
        env.storage.approvers = Some(approvers);
        env.storage.approval_threshold = Some(m);
        env.publish(Event::ApprovalConfigured(caller, m, n));
        Ok(())
    }

    /// Whether an operation makes sense when it is proposed.
    fn validate_operation(env: &Env, operation: &CriticalOperation) -> (r: Result<
        (),
        ContractError,
    >)
        ensures
            r == outcome(proposal_refusal(env@.store, operation@), ()),
    {
        match operation {
            CriticalOperation::ResultPublication(ballot_id_hash, result_hash) => {
                Self::require_ballot_metadata(env, ballot_id_hash)?;
                if result_hash.len() == 0 {
                    return Err(ContractError::InvalidBallotHash);
                }
                if let Some(existing) = env.storage.result_hashes.get(ballot_id_hash) {
                    if !same_bytes(existing, result_hash) {
                        return Err(ContractError::ResultAlreadyPublished);
                    }
                }
            },
            CriticalOperation::UpgradeScheduling(_) => {
                if env.storage.pending_upgrade.is_some() {
                    return Err(ContractError::UpgradeAlreadyScheduled);
                }
            },
            CriticalOperation::AdminRotation(_) => {},
            CriticalOperation::Pause => {},
        }
        Ok(())
    }

    /// Whether an operation can be carried out.
    fn check_execution(env: &Env, operation: &CriticalOperation) -> (r: Result<(), ContractError>)
        ensures
            r == outcome(execution_refusal(env@.store, operation@), ()),
    {
        match operation {
            CriticalOperation::AdminRotation(_) => {
                if env.storage.admin.is_none() {
                    return Err(ContractError::NotInitialized);
                }
            },
            CriticalOperation::ResultPublication(ballot_id_hash, result_hash) => {
                if let Some(existing) = env.storage.result_hashes.get(ballot_id_hash) {
                    if same_bytes(existing, result_hash) {
                        return Ok(());
                    }
                    return Err(ContractError::ResultAlreadyPublished);
                }
                Self::require_ballot_metadata(env, ballot_id_hash)?;
            },
            CriticalOperation::Pause => {},
            CriticalOperation::UpgradeScheduling(_) => {
                if env.storage.pending_upgrade.is_some() {
                    return Err(ContractError::UpgradeAlreadyScheduled);
                }
            },
        }
        Ok(())
    }

    /// Carries an operation out. One that cannot be carried out changes nothing.
    fn execute_operation(env: &mut Env, operation: &CriticalOperation) -> (r: Result<
        (),
        ContractError,
    >)
        requires
            execution_refusal(old(env)@.store, operation@) is None
                && operation@ is UpgradeScheduling ==> old(env)@.timestamp
                + UPGRADE_TIME_LOCK_SECONDS <= u64::MAX,
        ensures
            r == outcome(execution_refusal(old(env)@.store, operation@), ()),
            final(env)@ == (if r is Ok {
                execution_effect(old(env)@, operation@)
            } else {
                old(env)@
            }),
    {
        Self::check_execution(env, operation)?;
        match operation {
            CriticalOperation::AdminRotation(new_admin) => {
                if let Some(old_admin) = env.storage.admin {
                    env.storage.admin = Some(*new_admin);
                    env.publish(Event::AdminRotated(old_admin, *new_admin));
                }
            },
            CriticalOperation::ResultPublication(ballot_id_hash, result_hash) => {
                if env.storage.result_hashes.has(ballot_id_hash) {
                    return Ok(());
                }
                if let Ok(mut metadata) = Self::require_ballot_metadata(env, ballot_id_hash) {
                    env.storage.result_hashes.set(
                        copy_bytes(ballot_id_hash),
                        copy_bytes(result_hash),
                    );
                    metadata.state = BallotState::ResultPublished;
                    metadata.state_updated_at = env.timestamp;
                    env.storage.ballot_metadata.set(copy_bytes(ballot_id_hash), metadata);
                    env.publish(
                        Event::ResultPublished(copy_bytes(ballot_id_hash), copy_bytes(result_hash)),
                    );
                }
            },
            CriticalOperation::Pause => {
                env.storage.is_paused = Some(true);
                let now: u64 = env.timestamp;
                env.publish(Event::Paused(now));
            },
            CriticalOperation::UpgradeScheduling(new_wasm_hash) => {
                let now: u64 = env.timestamp;
                let executable_at: u64 = now + UPGRADE_TIME_LOCK_SECONDS;
                env.storage.pending_upgrade = Some(
                    PendingUpgrade {
                        executable_at,
                        new_wasm_hash: *new_wasm_hash,
                        scheduled_at: now,
                    },
                );
                env.publish(Event::UpgradeScheduled(*new_wasm_hash, now, executable_at));
            },
        }
        Ok(())
    }

    /// Whether the proposal of an operation goes through, and under which identifier.
    fn check_creation(env: &Env, caller: &Address, operation: &CriticalOperation) -> (r: Result<
        u64,
        ContractError,
    >)
        ensures
            r == outcome(
                create_refusal(env@, *caller, operation@),
                env@.store.next_operation(),
            ),
    {
        Self::require_admin(env, caller)?;
        Self::validate_operation(env, operation)?;
        let operation_id: u64 = match env.storage.operation_nonce {
            Some(nonce) => nonce,
            None => 0,
        };
        if operation_id.checked_add(1).is_none() {
            return Err(ContractError::CounterOverflow);
        }
        if env.storage.approvers.is_none() {
            return Err(ContractError::NotInitialized);
        }
        if env.storage.approval_threshold.is_none() {
            return Err(ContractError::NotInitialized);
        }
        Ok(operation_id)
    }

    /// Lets each of the current approvers approve the operation `operation_id`.
    fn admit_approvers(env: &mut Env, operation_id: u64)
        requires
            old(env)@.store.approvers is Some,
        ensures
            final(env)@ == (Ledger {
                store: Store {
                    operation_approvers: with_approvers(
                        old(env)@.store.operation_approvers,
                        operation_id,
                        old(env)@.store.approvers->0,
                    ),
                    ..old(env)@.store
                },
                ..old(env)@
            }),
    {
        let ghost before = env@;
        let ghost all = env@.store.approvers->0;
        let mut i: usize = 0;
        assert(with_approvers(before.store.operation_approvers, operation_id, all.take(0))
            =~= before.store.operation_approvers);
        loop
            invariant
                before.store.approvers == Some(all),
                i <= all.len(),
                env@ == (Ledger {
                    store: Store {
                        operation_approvers: with_approvers(
                            before.store.operation_approvers,
                            operation_id,
                            all.take(i as int),
                        ),
                        ..before.store
                    },
                    ..before
                }),
            ensures
                i == all.len(),
            decreases all.len() - i,
        {
            let next: Option<Address> = match &env.storage.approvers {
                Some(approvers) => if i < approvers.len() {
                    Some(approvers[i])
                } else {
                    None
                },
                None => None,
            };
            match next {
                Some(approver) => {
                    env.storage.operation_approvers.set((operation_id, approver), true);
                    proof {
                        let longer = all.take(i + 1);
                        assert(longer.drop_last() =~= all.take(i as int));
                        assert forall|a: Address|
                            longer.contains(a) == (all.take(i as int).contains(a) || a
                                == approver) by {
                            if all.take(i as int).contains(a) {
                                let j = choose|j: int|
                                    0 <= j < i && all.take(i as int)[j] == a;
                                assert(longer[j] == a);
                            }
                            assert(longer[i as int] == approver);
                            if longer.contains(a) && a != approver {
                                let j = choose|j: int| 0 <= j < longer.len() && longer[j] == a;
                                assert(all.take(i as int)[j] == a);
                            }
                        }
                        assert(env@.store.operation_approvers =~= with_approvers(
                            before.store.operation_approvers,
                            operation_id,
                            longer,
                        ));
                    }
                    i = i + 1;
                },
                None => {
                    break;
                },
            }
        }
        assert(all.take(i as int) =~= all);
    }

    /// Creates a pending critical operation. It remains pending until M distinct configured
    /// approvers approve it.
    pub fn create_operation(env: &mut Env, caller: Address, operation: CriticalOperation) -> (r:
        Result<u64, ContractError>)
        requires
            answered(old(env)@, (Call::CreateOperation { caller, operation: operation@ })),
        ensures
            r == outcome(
                create_refusal(old(env)@, caller, operation@),
                old(env)@.store.next_operation(),
            ),
            final(env)@ == after(
                old(env)@,
                (Call::CreateOperation { caller, operation: operation@ }),
            ),
            r is Ok == goes_through(
                old(env)@,
                (Call::CreateOperation { caller, operation: operation@ }),
            ),
            r matches Err(e) ==> refusal(
                old(env)@,
                (Call::CreateOperation { caller, operation: operation@ }),
            ) == Some(e),
            r matches Ok(id) ==> id == (match old(env)@.store.operation_nonce {
                Some(nonce) => nonce,
                None => 0,
            }),
            r matches Ok(id) ==> final(env)@.store.operations.contains_key(id)
                && final(env)@.store.operations[id].operation == operation@,
    {
        let operation_id: u64 = Self::check_creation(env, &caller, &operation)?;
        let threshold: u32 = match env.storage.approval_threshold {
            Some(threshold) => threshold,
            None => return Err(ContractError::NotInitialized),
        };
        let created_at: u64 = env.timestamp;
        let expires_at: u64 = created_at + APPROVAL_EXPIRATION_SECONDS;
        let pending = PendingOperation {
            approval_count: 0,
            created_at,
            expires_at,
            id: operation_id,
            operation,
            proposer: caller,
            status: OperationStatus::Pending,
            threshold,
        };
        env.storage.operations.set(operation_id, pending);
        Self::admit_approvers(env, operation_id);
        env.storage.operation_nonce = Some(operation_id + 1);
        env.publish(Event::OperationCreated(operation_id, caller, created_at, expires_at));
        Ok(operation_id)
    }

    /// Whether the clock can hold the expiry of an operation that would be proposed now. Where
    /// it cannot, `create_operation` must not be called.
    pub fn creation_fits_clock(env: &Env, caller: Address, operation: &CriticalOperation) -> (r:
        bool)
        ensures
            r == clock_holds(env@, (Call::CreateOperation { caller, operation: operation@ })),
    {
        match Self::check_creation(env, &caller, operation) {
            Err(_) => true,
            Ok(_) => env.timestamp <= u64::MAX - APPROVAL_EXPIRATION_SECONDS,
        }
    }

    /// Proposes result publication for M-of-N approval.
    pub fn record_result(
        env: &mut Env,
        caller: Address,
        ballot_id_hash: Vec<u8>,
        result_hash: Vec<u8>,
    ) -> (r: Result<u64, ContractError>)
        requires
            answered(
                old(env)@,
                (Call::CreateOperation {
                    caller,
                    operation: OperationView::ResultPublication(ballot_id_hash@, result_hash@),
                }),
            ),
        ensures
            r == outcome(
                create_refusal(
                    old(env)@,
                    caller,
                    OperationView::ResultPublication(ballot_id_hash@, result_hash@),
                ),
                old(env)@.store.next_operation(),
            ),
            final(env)@ == after(
                old(env)@,
                (Call::CreateOperation {
                    caller,
                    operation: OperationView::ResultPublication(ballot_id_hash@, result_hash@),
                }),
            ),
            r is Ok == goes_through(
                old(env)@,
                (Call::CreateOperation {
                    caller,
                    operation: OperationView::ResultPublication(ballot_id_hash@, result_hash@),
                }),
            ),
            r matches Err(e) ==> refusal(
                old(env)@,
                (Call::CreateOperation {
                    caller,
                    operation: OperationView::ResultPublication(ballot_id_hash@, result_hash@),
                }),
            ) == Some(e),
            r matches Ok(id) ==> id == (match old(env)@.store.operation_nonce {
                Some(nonce) => nonce,
                None => 0,
            }),
            r matches Ok(id) ==> final(env)@.store.operations.contains_key(id)
                && final(env)@.store.operations[id].operation == OperationView::ResultPublication(
                ballot_id_hash@,
                result_hash@,
            ),
    {
        Self::create_operation(
            env,
            caller,
            CriticalOperation::ResultPublication(ballot_id_hash, result_hash),
        )
    }

    /// Proposes admin rotation for M-of-N approval.
    pub fn rotate_admin(env: &mut Env, caller: Address, new_admin: Address) -> (r: Result<
        u64,
        ContractError,
    >)
        requires
            answered(
                old(env)@,
                (Call::CreateOperation {
                    caller,
                    operation: OperationView::AdminRotation(new_admin),
                }),
            ),
        ensures
            r == outcome(
                create_refusal(old(env)@, caller, OperationView::AdminRotation(new_admin)),
                old(env)@.store.next_operation(),
            ),
            final(env)@ == after(
                old(env)@,
                (Call::CreateOperation {
                    caller,
                    operation: OperationView::AdminRotation(new_admin),
                }),
            ),
            r is Ok == goes_through(
                old(env)@,
                (Call::CreateOperation {
                    caller,
                    operation: OperationView::AdminRotation(new_admin),
                }),
            ),
            r matches Err(e) ==> refusal(
                old(env)@,
                (Call::CreateOperation {
                    caller,
                    operation: OperationView::AdminRotation(new_admin),
                }),
            ) == Some(e),
            r matches Ok(id) ==> id == (match old(env)@.store.operation_nonce {
                Some(nonce) => nonce,
                None => 0,
            }),
            r matches Ok(id) ==> final(env)@.store.operations.contains_key(id)
                && final(env)@.store.operations[id].operation == OperationView::AdminRotation(new_admin),
    {
        Self::create_operation(env, caller, CriticalOperation::AdminRotation(new_admin))
    }

    /// Proposes pausing the contract for M-of-N approval.
    pub fn pause_contract(env: &mut Env, caller: Address) -> (r: Result<u64, ContractError>)
        requires
            answered(
                old(env)@,
                (Call::CreateOperation { caller, operation: OperationView::Pause }),
            ),
        ensures
            r == outcome(
                create_refusal(old(env)@, caller, OperationView::Pause),
                old(env)@.store.next_operation(),
            ),
            final(env)@ == after(
                old(env)@,
                (Call::CreateOperation { caller, operation: OperationView::Pause }),
            ),
            r is Ok == goes_through(
                old(env)@,
                (Call::CreateOperation { caller, operation: OperationView::Pause }),
            ),
            r matches Err(e) ==> refusal(
                old(env)@,
                (Call::CreateOperation { caller, operation: OperationView::Pause }),
            ) == Some(e),
            r matches Ok(id) ==> id == (match old(env)@.store.operation_nonce {
                Some(nonce) => nonce,
                None => 0,
            }),
            r matches Ok(id) ==> final(env)@.store.operations.contains_key(id)
                && final(env)@.store.operations[id].operation == OperationView::Pause,
    {
        Self::create_operation(env, caller, CriticalOperation::Pause)
    }

    /// Proposes scheduling a time-locked upgrade for M-of-N approval.
    pub fn schedule_upgrade(env: &mut Env, caller: Address, new_wasm_hash: [u8; 32]) -> (r:
        Result<u64, ContractError>)
        requires
            answered(
                old(env)@,
                (Call::CreateOperation {
                    caller,
                    operation: OperationView::UpgradeScheduling(new_wasm_hash),
                }),
            ),
        ensures
            r == outcome(
                create_refusal(old(env)@, caller, OperationView::UpgradeScheduling(new_wasm_hash)),
                old(env)@.store.next_operation(),
            ),
            final(env)@ == after(
                old(env)@,
                (Call::CreateOperation {
                    caller,
                    operation: OperationView::UpgradeScheduling(new_wasm_hash),
                }),
            ),
            r is Ok == goes_through(
                old(env)@,
                (Call::CreateOperation {
                    caller,
                    operation: OperationView::UpgradeScheduling(new_wasm_hash),
                }),
            ),
            r matches Err(e) ==> refusal(
                old(env)@,
                (Call::CreateOperation {
                    caller,
                    operation: OperationView::UpgradeScheduling(new_wasm_hash),
                }),
            ) == Some(e),
            r matches Ok(id) ==> id == (match old(env)@.store.operation_nonce {
                Some(nonce) => nonce,
                None => 0,
            }),
            r matches Ok(id) ==> final(env)@.store.operations.contains_key(id)
                && final(env)@.store.operations[id].operation == OperationView::UpgradeScheduling(
                new_wasm_hash,
            ),
    {
        Self::create_operation(env, caller, CriticalOperation::UpgradeScheduling(new_wasm_hash))
    }

    /// Whether an approval goes through. Gives the operation as it was before the approval.
    fn check_approval(env: &Env, operation_id: u64, approver_address: &Address) -> (r: Result<
        PendingOperation,
        ContractError,
    >)
        ensures
            match r {
                Ok(pending) => approve_refusal(env@, operation_id, *approver_address) is None
                    && pending@ == env@.store.operations[operation_id],
                Err(e) => approve_refusal(env@, operation_id, *approver_address) == Some(e),
            },
    {
        let pending = match env.storage.operations.get(&operation_id) {
            Some(pending) => pending.clone(),
            None => return Err(ContractError::OperationNotFound),
        };
        if pending.status != OperationStatus::Pending {
            return Err(ContractError::OperationNotPending);
        }
        if env.timestamp > pending.expires_at {
            return Err(ContractError::OperationExpired);
        }
        if !env.storage.operation_approvers.has(&(operation_id, *approver_address)) {
            return Err(ContractError::ApproverUnauthorized);
        }
        if env.storage.approvals.has(&(operation_id, *approver_address)) {
            return Err(ContractError::OperationAlreadyApproved);
        }
        let count: u32 = match pending.approval_count.checked_add(1) {
            Some(count) => count,
            None => return Err(ContractError::CounterOverflow),
        };
        if count >= pending.threshold {
            Self::check_execution(env, &pending.operation)?;
        }
        Ok(pending)
    }

    /// Records one approval. The approval that reaches M executes the operation at once.
    ///
    /// Returns whether it did.
    pub fn approve_operation(env: &mut Env, operation_id: u64, approver_address: Address) -> (r:
        Result<bool, ContractError>)
        requires
            answered(
                old(env)@,
                (Call::ApproveOperation { id: operation_id, approver: approver_address }),
            ),
        ensures
            r == outcome(
                approve_refusal(old(env)@, operation_id, approver_address),
                completes(old(env)@.store.operations[operation_id]),
            ),
            final(env)@ == after(
                old(env)@,
                (Call::ApproveOperation { id: operation_id, approver: approver_address }),
            ),
            r is Ok == goes_through(
                old(env)@,
                (Call::ApproveOperation { id: operation_id, approver: approver_address }),
            ),
            r matches Err(e) ==> refusal(
                old(env)@,
                (Call::ApproveOperation { id: operation_id, approver: approver_address }),
            ) == Some(e),
            r matches Ok(done) ==> done == (final(env)@.store.operations[operation_id].status
                == OperationStatus::Executed),
    {
        let mut pending = Self::check_approval(env, operation_id, &approver_address)?;
        let now: u64 = env.timestamp;
        let count: u32 = pending.approval_count + 1;
        pending.approval_count = count;
        env.storage.approvals.set((operation_id, approver_address), true);
        env.publish(Event::OperationApproved(operation_id, approver_address, count, now));
        if count < pending.threshold {
            env.storage.operations.set(operation_id, pending);
            return Ok(false);
        }
        Self::execute_operation(env, &pending.operation)?;
        pending.status = OperationStatus::Executed;
        env.storage.operations.set(operation_id, pending);
        env.publish(Event::OperationExecuted(operation_id, count, now));
        Ok(true)
    }

    /// Whether the clock can hold the time lock of an upgrade that the approval would schedule.
    /// Where it cannot, `approve_operation` must not be called.
    pub fn approval_fits_clock(env: &Env, operation_id: u64, approver_address: Address) -> (r: bool)
        ensures
            r == clock_holds(
                env@,
                (Call::ApproveOperation { id: operation_id, approver: approver_address }),
            ),
    {
        match Self::check_approval(env, operation_id, &approver_address) {
            Err(_) => true,
            Ok(pending) => match pending.operation {
                CriticalOperation::UpgradeScheduling(_) => pending.approval_count + 1
                    < pending.threshold || env.timestamp <= u64::MAX - UPGRADE_TIME_LOCK_SECONDS,
                _ => true,
            },
        }
    }

    /// Cancels a pending operation before it reaches its approval threshold.
    pub fn cancel_operation(env: &mut Env, caller: Address, operation_id: u64) -> (r: Result<
        (),
        ContractError,
    >)
        requires
            old(env)@.authorized.contains(caller),
        ensures
            r == outcome(cancel_operation_refusal(old(env)@, caller, operation_id), ()),
            final(env)@ == after(old(env)@, (Call::CancelOperation { caller, id: operation_id })),
            r is Ok == goes_through(
                old(env)@,
                (Call::CancelOperation { caller, id: operation_id }),
            ),
            r matches Err(e) ==> refusal(
                old(env)@,
                (Call::CancelOperation { caller, id: operation_id }),
            ) == Some(e),
    {
        Self::require_admin(env, &caller)?;
        let mut pending = match env.storage.operations.get(&operation_id) {
            Some(pending) => pending.clone(),
            None => return Err(ContractError::OperationNotFound),
        };
        if pending.status != OperationStatus::Pending {
            return Err(ContractError::OperationNotPending);
        }
        pending.status = OperationStatus::Cancelled;
        env.storage.operations.set(operation_id, pending);
        let now: u64 = env.timestamp;
        env.publish(Event::OperationCancelled(operation_id, caller, now));
        Ok(())
    }
}

} // verus!
