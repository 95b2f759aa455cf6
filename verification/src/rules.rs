//! The contract's rules: for each kind of invocation, when it is refused and what it changes.
//!
//! A `*_refusal` gives the error that an invocation meets first, or `None` if it goes through.
//! A `*_effect` gives the ledger after an invocation that goes through.

use vstd::prelude::*;
use crate::events::EventView;
use crate::ledger::Ledger;
use crate::ledger::Store;
use crate::types::Address;
use crate::types::BallotLimits;
use crate::types::BallotMetadata;
use crate::types::BallotState;
use crate::types::ContractError;
use crate::types::OperationStatus;
use crate::types::OperationView;
use crate::types::PendingUpgrade;
use crate::types::PendingView;
use crate::types::SnapshotView;
use crate::types::APPROVAL_EXPIRATION_SECONDS;
use crate::types::UPGRADE_TIME_LOCK_SECONDS;

verus! {

/// What an invocation returns: `value`, unless it is refused.
pub open spec fn outcome<T>(refusal: Option<ContractError>, value: T) -> Result<T, ContractError> {
    match refusal {
        Some(e) => Err(e),
        None => Ok(value),
    }
}

/// What is stored under `key`, if anything is.
pub open spec fn lookup<K, V>(m: Map<K, V>, key: K) -> Option<V> {
    if m.contains_key(key) {
        Some(m[key])
    } else {
        None
    }
}

impl Store {
    pub open spec fn paused(self) -> bool {
        self.is_paused == Some(true)
    }

    /// The identifier of the next operation.
    pub open spec fn next_operation(self) -> u64 {
        match self.operation_nonce {
            Some(n) => n,
            None => 0,
        }
    }

    /// The tokens issued in a ballot.
    pub open spec fn tokens(self, ballot: Seq<u8>) -> u32 {
        match lookup(self.tokens_issued, ballot) {
            Some(n) => n,
            None => 0,
        }
    }

    /// The votes cast in a ballot.
    pub open spec fn votes(self, ballot: Seq<u8>) -> u32 {
        match lookup(self.votes_cast, ballot) {
            Some(n) => n,
            None => 0,
        }
    }

    /// Whether the admin ended the ballot.
    pub open spec fn expired(self, ballot: Seq<u8>) -> bool {
        lookup(self.ballot_expired, ballot) == Some(true)
    }

    /// Whether `address` may approve the operation `id`.
    pub open spec fn may_approve(self, id: u64, address: Address) -> bool {
        self.operation_approvers.contains_key((id, address))
    }

    /// Whether `address` approved the operation `id`.
    pub open spec fn has_approved(self, id: u64, address: Address) -> bool {
        self.approvals.contains_key((id, address))
    }

    /// All that is known of a ballot.
    pub open spec fn snapshot(self, ballot: Seq<u8>) -> Option<SnapshotView> {
        match lookup(self.ballot_metadata, ballot) {
            Some(metadata) => Some(
                SnapshotView {
                    metadata,
                    result_hash: lookup(self.result_hashes, ballot),
                    tokens_issued: self.tokens(ballot),
                    votes_cast: self.votes(ballot),
                },
            ),
            None => None,
        }
    }
}

/// Only the admin may do this.
pub open spec fn admin_refusal(s: Store, caller: Address) -> Option<ContractError> {
    match s.admin {
        None => Some(ContractError::NotInitialized),
        Some(admin) => if caller == admin {
            None
        } else {
            Some(ContractError::AdminUnauthorized)
        },
    }
}

/// Only the admin may do this, and only while the contract is not paused.
pub open spec fn recording_refusal(s: Store, caller: Address) -> Option<ContractError> {
    if s.paused() {
        Some(ContractError::ContractPaused)
    } else {
        admin_refusal(s, caller)
    }
}

// Set-up and governance

pub open spec fn initialize_refusal(l: Ledger) -> Option<ContractError> {
    if l.store.admin is Some {
        Some(ContractError::AlreadyInitialized)
    } else {
        None
    }
}

/// The admin becomes the sole approver.
pub open spec fn initialize_effect(l: Ledger, admin: Address) -> Ledger {
    Ledger {
        store: Store {
            admin: Some(admin),
            initialized_at: Some(l.timestamp),
            is_paused: Some(false),
            approvers: Some(seq![admin]),
            approval_threshold: Some(1),
            operation_nonce: Some(0),
            ..l.store
        },
        ..l
    }
}

pub open spec fn configure_refusal(
    l: Ledger,
    caller: Address,
    approvers: Seq<Address>,
    m: u32,
    n: u32,
) -> Option<ContractError> {
    if admin_refusal(l.store, caller) is Some {
        admin_refusal(l.store, caller)
    } else if !(1 <= m <= n && approvers.len() == n) {
        Some(ContractError::InvalidApprovalConfig)
    } else if !approvers.no_duplicates() {
        Some(ContractError::DuplicateApprover)
    } else {
        None
    }
}

pub open spec fn configure_effect(
    l: Ledger,
    caller: Address,
    approvers: Seq<Address>,
    m: u32,
    n: u32,
) -> Ledger {
    Ledger {
        store: Store { approvers: Some(approvers), approval_threshold: Some(m), ..l.store },
        events: l.events.push(EventView::ApprovalConfigured(caller, m, n)),
        ..l
    }
}

/// Whether an operation makes sense when it is proposed.
pub open spec fn proposal_refusal(s: Store, operation: OperationView) -> Option<ContractError> {
    match operation {
        OperationView::ResultPublication(ballot, result) => {
            if !s.ballot_metadata.contains_key(ballot) {
                Some(ContractError::BallotNotFound)
            } else if result.len() == 0 {
                Some(ContractError::InvalidBallotHash)
            } else if s.result_hashes.contains_key(ballot) && s.result_hashes[ballot] != result {
                Some(ContractError::ResultAlreadyPublished)
            } else {
                None
            }
        },
        OperationView::UpgradeScheduling(_) => {
            if s.pending_upgrade is Some {
                Some(ContractError::UpgradeAlreadyScheduled)
            } else {
                None
            }
        },
        OperationView::AdminRotation(_) => None,
        OperationView::Pause => None,
    }
}

pub open spec fn create_refusal(
    l: Ledger,
    caller: Address,
    operation: OperationView,
) -> Option<ContractError> {
    if admin_refusal(l.store, caller) is Some {
        admin_refusal(l.store, caller)
    } else if proposal_refusal(l.store, operation) is Some {
        proposal_refusal(l.store, operation)
    } else if l.store.next_operation() == u64::MAX {
        Some(ContractError::CounterOverflow)
    } else if l.store.approvers is None || l.store.approval_threshold is None {
        Some(ContractError::NotInitialized)
    } else {
        None
    }
}

/// The proposal as it is kept: it carries the threshold of this moment.
pub open spec fn proposed(l: Ledger, caller: Address, operation: OperationView) -> PendingView {
    PendingView {
        approval_count: 0,
        created_at: l.timestamp,
        expires_at: (l.timestamp + APPROVAL_EXPIRATION_SECONDS) as u64,
        id: l.store.next_operation(),
        operation,
        proposer: caller,
        status: OperationStatus::Pending,
        threshold: l.store.approval_threshold->0,
    }
}

/// Who may approve which operation, once `approvers` may approve `id` too.
pub open spec fn with_approvers(
    m: Map<(u64, Address), bool>,
    id: u64,
    approvers: Seq<Address>,
) -> Map<(u64, Address), bool> {
    m.union_prefer_right(
        Map::new(|k: (u64, Address)| k.0 == id && approvers.contains(k.1), |k: (u64, Address)| true),
    )
}

pub open spec fn create_effect(l: Ledger, caller: Address, operation: OperationView) -> Ledger {
    let id = l.store.next_operation();
    let pending = proposed(l, caller, operation);
    Ledger {
        store: Store {
            operations: l.store.operations.insert(id, pending),
            operation_approvers: with_approvers(l.store.operation_approvers, id, l.store.approvers->0),
            operation_nonce: Some((id + 1) as u64),
            ..l.store
        },
        events: l.events.push(
            EventView::OperationCreated(id, caller, pending.created_at, pending.expires_at),
        ),
        ..l
    }
}

/// Whether an operation can be carried out once it is approved.
pub open spec fn execution_refusal(s: Store, operation: OperationView) -> Option<ContractError> {
    match operation {
        OperationView::AdminRotation(_) => {
            if s.admin is None {
                Some(ContractError::NotInitialized)
            } else {
                None
            }
        },
        OperationView::ResultPublication(ballot, result) => {
            if s.result_hashes.contains_key(ballot) {
                if s.result_hashes[ballot] == result {
                    None
                } else {
                    Some(ContractError::ResultAlreadyPublished)
                }
            } else if !s.ballot_metadata.contains_key(ballot) {
                Some(ContractError::BallotNotFound)
            } else {
                None
            }
        },
        OperationView::Pause => None,
        OperationView::UpgradeScheduling(_) => {
            if s.pending_upgrade is Some {
                Some(ContractError::UpgradeAlreadyScheduled)
            } else {
                None
            }
        },
    }
}

/// What carrying out an operation changes. To publish a result again changes nothing.
pub open spec fn execution_effect(l: Ledger, operation: OperationView) -> Ledger {
    match operation {
        OperationView::AdminRotation(admin) => Ledger {
            store: Store { admin: Some(admin), ..l.store },
            events: l.events.push(EventView::AdminRotated(l.store.admin->0, admin)),
            ..l
        },
        OperationView::ResultPublication(ballot, result) => if l.store.result_hashes.contains_key(
            ballot,
        ) {
            l
        } else {
            Ledger {
                store: Store {
                    result_hashes: l.store.result_hashes.insert(ballot, result),
                    ballot_metadata: l.store.ballot_metadata.insert(
                        ballot,
                        BallotMetadata {
                            state: BallotState::ResultPublished,
                            state_updated_at: l.timestamp,
                            ..l.store.ballot_metadata[ballot]
                        },
                    ),
                    ..l.store
                },
                events: l.events.push(EventView::ResultPublished(ballot, result)),
                ..l
            }
        },
        OperationView::Pause => Ledger {
            store: Store { is_paused: Some(true), ..l.store },
            events: l.events.push(EventView::Paused(l.timestamp)),
            ..l
        },
        OperationView::UpgradeScheduling(wasm) => {
            let executable_at = (l.timestamp + UPGRADE_TIME_LOCK_SECONDS) as u64;
            Ledger {
                store: Store {
                    pending_upgrade: Some(
                        PendingUpgrade {
                            executable_at,
                            new_wasm_hash: wasm,
                            scheduled_at: l.timestamp,
                        },
                    ),
                    ..l.store
                },
                events: l.events.push(
                    EventView::UpgradeScheduled(wasm, l.timestamp, executable_at),
                ),
                ..l
            }
        },
    }
}

/// Whether one more approval reaches the threshold.
pub open spec fn completes(p: PendingView) -> bool {
    p.approval_count + 1 >= p.threshold
}

pub open spec fn approve_refusal(l: Ledger, id: u64, approver: Address) -> Option<ContractError> {
    let p = l.store.operations[id];
    if !l.store.operations.contains_key(id) {
        Some(ContractError::OperationNotFound)
    } else if p.status != OperationStatus::Pending {
        Some(ContractError::OperationNotPending)
    } else if l.timestamp > p.expires_at {
        Some(ContractError::OperationExpired)
    } else if !l.store.may_approve(id, approver) {
        Some(ContractError::ApproverUnauthorized)
    } else if l.store.has_approved(id, approver) {
        Some(ContractError::OperationAlreadyApproved)
    } else if p.approval_count == u32::MAX {
        Some(ContractError::CounterOverflow)
    } else if completes(p) {
        execution_refusal(l.store, p.operation)
    } else {
        None
    }
}

/// The approval itself, before it is counted.
pub open spec fn approval_recorded(l: Ledger, id: u64, approver: Address) -> Ledger {
    Ledger {
        store: Store { approvals: l.store.approvals.insert((id, approver), true), ..l.store },
        events: l.events.push(
            EventView::OperationApproved(
                id,
                approver,
                (l.store.operations[id].approval_count + 1) as u32,
                l.timestamp,
            ),
        ),
        ..l
    }
}

/// The approval that reaches the threshold carries the operation out.
pub open spec fn approve_effect(l: Ledger, id: u64, approver: Address) -> Ledger {
    let p = l.store.operations[id];
    let count = (p.approval_count + 1) as u32;
    let approved = approval_recorded(l, id, approver);
    if !completes(p) {
        Ledger {
            store: Store {
                operations: l.store.operations.insert(id, PendingView { approval_count: count, ..p }),
                ..approved.store
            },
            ..approved
        }
    } else {
        let executed = execution_effect(approved, p.operation);
        Ledger {
            store: Store {
                operations: l.store.operations.insert(
                    id,
                    PendingView { approval_count: count, status: OperationStatus::Executed, ..p },
                ),
                ..executed.store
            },
            events: executed.events.push(EventView::OperationExecuted(id, count, l.timestamp)),
            ..executed
        }
    }
}

pub open spec fn cancel_operation_refusal(
    l: Ledger,
    caller: Address,
    id: u64,
) -> Option<ContractError> {
    if admin_refusal(l.store, caller) is Some {
        admin_refusal(l.store, caller)
    } else if !l.store.operations.contains_key(id) {
        Some(ContractError::OperationNotFound)
    } else if l.store.operations[id].status != OperationStatus::Pending {
        Some(ContractError::OperationNotPending)
    } else {
        None
    }
}

pub open spec fn cancel_operation_effect(l: Ledger, caller: Address, id: u64) -> Ledger {
    Ledger {
        store: Store {
            operations: l.store.operations.insert(
                id,
                PendingView { status: OperationStatus::Cancelled, ..l.store.operations[id] },
            ),
            ..l.store
        },
        events: l.events.push(EventView::OperationCancelled(id, caller, l.timestamp)),
        ..l
    }
}

// Ballots

pub open spec fn record_ballot_refusal(
    l: Ledger,
    caller: Address,
    ballot: Seq<u8>,
) -> Option<ContractError> {
    if recording_refusal(l.store, caller) is Some {
        recording_refusal(l.store, caller)
    } else if ballot.len() == 0 {
        Some(ContractError::InvalidBallotHash)
    } else if l.store.ballot_metadata.contains_key(ballot) {
        Some(ContractError::BallotAlreadyExists)
    } else {
        None
    }
}

pub open spec fn record_ballot_effect(
    l: Ledger,
    caller: Address,
    ballot: Seq<u8>,
    limits: BallotLimits,
) -> Ledger {
    Ledger {
        store: Store {
            ballot_metadata: l.store.ballot_metadata.insert(
                ballot,
                BallotMetadata {
                    admin: caller,
                    created_at: l.timestamp,
                    expiration_time: 0,
                    limits,
                    state: BallotState::Active,
                    state_updated_at: l.timestamp,
                },
            ),
            tokens_issued: l.store.tokens_issued.insert(ballot, 0),
            votes_cast: l.store.votes_cast.insert(ballot, 0),
            ..l.store
        },
        events: l.events.push(EventView::BallotCreated(ballot, l.timestamp, caller)),
        ..l
    }
}

/// Only an open ballot counts tokens and votes.
pub open spec fn counting_refusal(
    l: Ledger,
    caller: Address,
    ballot: Seq<u8>,
) -> Option<ContractError> {
    if recording_refusal(l.store, caller) is Some {
        recording_refusal(l.store, caller)
    } else if !l.store.ballot_metadata.contains_key(ballot) {
        Some(ContractError::BallotNotFound)
    } else if l.store.expired(ballot) {
        Some(ContractError::BallotExpired)
    } else {
        None
    }
}

pub open spec fn record_token_refusal(
    l: Ledger,
    caller: Address,
    ballot: Seq<u8>,
) -> Option<ContractError> {
    if counting_refusal(l, caller, ballot) is Some {
        counting_refusal(l, caller, ballot)
    } else if l.store.tokens(ballot) >= l.store.ballot_metadata[ballot].limits.max_tokens {
        Some(ContractError::LimitExceeded)
    } else {
        None
    }
}

pub open spec fn record_token_effect(l: Ledger, ballot: Seq<u8>) -> Ledger {
    let count = (l.store.tokens(ballot) + 1) as u32;
    Ledger {
        store: Store { tokens_issued: l.store.tokens_issued.insert(ballot, count), ..l.store },
        events: l.events.push(EventView::TokenIssued(ballot, count)),
        ..l
    }
}

pub open spec fn record_vote_refusal(
    l: Ledger,
    caller: Address,
    ballot: Seq<u8>,
) -> Option<ContractError> {
    if counting_refusal(l, caller, ballot) is Some {
        counting_refusal(l, caller, ballot)
    } else if l.store.votes(ballot) >= l.store.ballot_metadata[ballot].limits.max_votes {
        Some(ContractError::LimitExceeded)
    } else {
        None
    }
}

pub open spec fn record_vote_effect(l: Ledger, ballot: Seq<u8>) -> Ledger {
    let count = (l.store.votes(ballot) + 1) as u32;
    Ledger {
        store: Store { votes_cast: l.store.votes_cast.insert(ballot, count), ..l.store },
        events: l.events.push(EventView::VoteCast(ballot, count)),
        ..l
    }
}

pub open spec fn expire_ballot_refusal(
    l: Ledger,
    caller: Address,
    ballot: Seq<u8>,
) -> Option<ContractError> {
    if admin_refusal(l.store, caller) is Some {
        admin_refusal(l.store, caller)
    } else if !l.store.ballot_metadata.contains_key(ballot) {
        Some(ContractError::BallotNotFound)
    } else {
        None
    }
}

pub open spec fn expire_ballot_effect(l: Ledger, ballot: Seq<u8>) -> Ledger {
    Ledger {
        store: Store { ballot_expired: l.store.ballot_expired.insert(ballot, true), ..l.store },
        events: l.events.push(EventView::BallotExpired(ballot)),
        ..l
    }
}

// Upgrades and pausing

pub open spec fn cancel_upgrade_refusal(l: Ledger, caller: Address) -> Option<ContractError> {
    if admin_refusal(l.store, caller) is Some {
        admin_refusal(l.store, caller)
    } else if l.store.pending_upgrade is None {
        Some(ContractError::NoUpgradeScheduled)
    } else {
        None
    }
}

pub open spec fn cancel_upgrade_effect(l: Ledger, caller: Address) -> Ledger {
    Ledger {
        store: Store { pending_upgrade: None, ..l.store },
        events: l.events.push(EventView::UpgradeCancelled(caller, l.timestamp)),
        ..l
    }
}

pub open spec fn execute_upgrade_refusal(l: Ledger) -> Option<ContractError> {
    match l.store.pending_upgrade {
        None => Some(ContractError::NoUpgradeScheduled),
        Some(u) => if l.timestamp < u.executable_at {
            Some(ContractError::TimeLockNotExpired)
        } else {
            None
        },
    }
}

pub open spec fn execute_upgrade_effect(l: Ledger) -> Ledger {
    let wasm = l.store.pending_upgrade->0.new_wasm_hash;
    Ledger {
        store: Store { pending_upgrade: None, ..l.store },
        events: l.events.push(EventView::UpgradeExecuted(wasm)),
        installed_wasm: Some(wasm),
        ..l
    }
}

pub open spec fn resume_effect(l: Ledger, caller: Address) -> Ledger {
    Ledger {
        store: Store { is_paused: Some(false), ..l.store },
        events: l.events.push(EventView::Resumed(caller, l.timestamp)),
        ..l
    }
}

// All invocations together

/// An invocation that can change the ledger.
#[verifier::ext_equal]
pub enum Call {
    Initialize { admin: Address },
    ConfigureApprovals { caller: Address, approvers: Seq<Address>, m: u32, n: u32 },
    CreateOperation { caller: Address, operation: OperationView },
    ApproveOperation { id: u64, approver: Address },
    CancelOperation { caller: Address, id: u64 },
    RecordBallot { caller: Address, ballot: Seq<u8>, limits: BallotLimits },
    RecordToken { caller: Address, ballot: Seq<u8> },
    RecordVote { caller: Address, ballot: Seq<u8> },
    ExpireBallot { caller: Address, ballot: Seq<u8> },
    CancelUpgrade { caller: Address },
    ExecuteUpgrade,
    Resume { caller: Address },
}

/// Whose authorization an invocation needs.
pub open spec fn signer(call: Call) -> Option<Address> {
    match call {
        Call::Initialize { .. } => None,
        Call::ConfigureApprovals { caller, .. } => Some(caller),
        Call::CreateOperation { caller, .. } => Some(caller),
        Call::ApproveOperation { approver, .. } => Some(approver),
        Call::CancelOperation { caller, .. } => Some(caller),
        Call::RecordBallot { caller, .. } => Some(caller),
        Call::RecordToken { caller, .. } => Some(caller),
        Call::RecordVote { caller, .. } => Some(caller),
        Call::ExpireBallot { caller, .. } => Some(caller),
        Call::CancelUpgrade { caller } => Some(caller),
        Call::ExecuteUpgrade => None,
        Call::Resume { caller } => Some(caller),
    }
}

/// The error that an invocation meets first, if any.
pub open spec fn refusal(l: Ledger, call: Call) -> Option<ContractError> {
    match call {
        Call::Initialize { admin } => initialize_refusal(l),
        Call::ConfigureApprovals { caller, approvers, m, n } => configure_refusal(
            l,
            caller,
            approvers,
            m,
            n,
        ),
        Call::CreateOperation { caller, operation } => create_refusal(l, caller, operation),
        Call::ApproveOperation { id, approver } => approve_refusal(l, id, approver),
        Call::CancelOperation { caller, id } => cancel_operation_refusal(l, caller, id),
        Call::RecordBallot { caller, ballot, limits } => record_ballot_refusal(l, caller, ballot),
        Call::RecordToken { caller, ballot } => record_token_refusal(l, caller, ballot),
        Call::RecordVote { caller, ballot } => record_vote_refusal(l, caller, ballot),
        Call::ExpireBallot { caller, ballot } => expire_ballot_refusal(l, caller, ballot),
        Call::CancelUpgrade { caller } => cancel_upgrade_refusal(l, caller),
        Call::ExecuteUpgrade => execute_upgrade_refusal(l),
        Call::Resume { caller } => admin_refusal(l.store, caller),
    }
}

/// The ledger after an invocation that goes through.
pub open spec fn effect(l: Ledger, call: Call) -> Ledger {
    match call {
        Call::Initialize { admin } => initialize_effect(l, admin),
        Call::ConfigureApprovals { caller, approvers, m, n } => configure_effect(
            l,
            caller,
            approvers,
            m,
            n,
        ),
        Call::CreateOperation { caller, operation } => create_effect(l, caller, operation),
        Call::ApproveOperation { id, approver } => approve_effect(l, id, approver),
        Call::CancelOperation { caller, id } => cancel_operation_effect(l, caller, id),
        Call::RecordBallot { caller, ballot, limits } => record_ballot_effect(
            l,
            caller,
            ballot,
            limits,
        ),
        Call::RecordToken { caller, ballot } => record_token_effect(l, ballot),
        Call::RecordVote { caller, ballot } => record_vote_effect(l, ballot),
        Call::ExpireBallot { caller, ballot } => expire_ballot_effect(l, ballot),
        Call::CancelUpgrade { caller } => cancel_upgrade_effect(l, caller),
        Call::ExecuteUpgrade => execute_upgrade_effect(l),
        Call::Resume { caller } => resume_effect(l, caller),
    }
}

/// The deadline that an invocation sets if it goes through, in seconds.
pub open spec fn deadline(l: Ledger, call: Call) -> int {
    match call {
        Call::CreateOperation { .. } => l.timestamp + APPROVAL_EXPIRATION_SECONDS,
        Call::ApproveOperation { id, .. } => {
            let p = l.store.operations[id];
            if completes(p) && p.operation is UpgradeScheduling {
                l.timestamp + UPGRADE_TIME_LOCK_SECONDS
            } else {
                0
            }
        },
        _ => 0,
    }
}

/// Whether the clock can hold every deadline that an invocation sets.
pub open spec fn clock_holds(l: Ledger, call: Call) -> bool {
    refusal(l, call) is None ==> deadline(l, call) <= u64::MAX
}

/// Whether an invocation ends in a result: the host aborts one whose signer did not authorize
/// it, and one that would set a deadline which the clock cannot hold.
pub open spec fn answered(l: Ledger, call: Call) -> bool {
    &&& signer(call) matches Some(a) ==> l.authorized.contains(a)
    &&& clock_holds(l, call)
}

/// Whether an invocation ends in success.
pub open spec fn goes_through(l: Ledger, call: Call) -> bool {
    answered(l, call) && refusal(l, call) is None
}

/// The ledger after an invocation. One that does not go through leaves no trace.
pub open spec fn after(l: Ledger, call: Call) -> Ledger {
    if goes_through(l, call) {
        effect(l, call)
    } else {
        l
    }
}

} // verus!
