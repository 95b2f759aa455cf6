//! The values that the contract keeps, takes and returns.

use vstd::prelude::*;
use crate::table::copy_bytes;
use crate::table::TableKey;

verus! {

/// How long a proposed operation can be approved, in seconds.
pub const APPROVAL_EXPIRATION_SECONDS: u64 = 7 * 24 * 60 * 60;

/// How long a scheduled upgrade has to wait, in seconds.
pub const UPGRADE_TIME_LOCK_SECONDS: u64 = 48 * 60 * 60;

/// Why an invocation is refused.
#[derive(Clone, Copy, Debug, Eq, PartialEq, Structural)]
pub enum ContractError {
    AdminUnauthorized,
    AlreadyInitialized,
    NotInitialized,
    BallotNotFound,
    BallotAlreadyExists,
    ResultAlreadyPublished,
    CounterOverflow,
    InvalidBallotHash,
    UpgradeAlreadyScheduled,
    NoUpgradeScheduled,
    TimeLockNotExpired,
    BallotExpired,
    ContractPaused,
    LimitExceeded,
    InvalidApprovalConfig,
    DuplicateApprover,
    ApproverUnauthorized,
    OperationNotFound,
    OperationAlreadyApproved,
    OperationNotPending,
    OperationExpired,
}

/// The number by which callers know an error.
pub open spec fn error_code(error: ContractError) -> u32 {
    match error {
        ContractError::AdminUnauthorized => 1,
        ContractError::AlreadyInitialized => 2,
        ContractError::NotInitialized => 3,
        ContractError::BallotNotFound => 4,
        ContractError::BallotAlreadyExists => 5,
        ContractError::ResultAlreadyPublished => 6,
        ContractError::CounterOverflow => 7,
        ContractError::InvalidBallotHash => 8,
        ContractError::UpgradeAlreadyScheduled => 9,
        ContractError::NoUpgradeScheduled => 10,
        ContractError::TimeLockNotExpired => 11,
        ContractError::BallotExpired => 12,
        ContractError::ContractPaused => 13,
        ContractError::LimitExceeded => 14,
        ContractError::InvalidApprovalConfig => 15,
        ContractError::DuplicateApprover => 16,
        ContractError::ApproverUnauthorized => 17,
        ContractError::OperationNotFound => 18,
        ContractError::OperationAlreadyApproved => 19,
        ContractError::OperationNotPending => 20,
        ContractError::OperationExpired => 21,
    }
}

impl ContractError {
    /// The number by which callers know the error.
    pub fn code(self) -> (r: u32)
        ensures
            r == error_code(self),
    {
        match self {
            ContractError::AdminUnauthorized => 1,
            ContractError::AlreadyInitialized => 2,
            ContractError::NotInitialized => 3,
            ContractError::BallotNotFound => 4,
            ContractError::BallotAlreadyExists => 5,
            ContractError::ResultAlreadyPublished => 6,
            ContractError::CounterOverflow => 7,
            ContractError::InvalidBallotHash => 8,
            ContractError::UpgradeAlreadyScheduled => 9,
            ContractError::NoUpgradeScheduled => 10,
            ContractError::TimeLockNotExpired => 11,
            ContractError::BallotExpired => 12,
            ContractError::ContractPaused => 13,
            ContractError::LimitExceeded => 14,
            ContractError::InvalidApprovalConfig => 15,
            ContractError::DuplicateApprover => 16,
            ContractError::ApproverUnauthorized => 17,
            ContractError::OperationNotFound => 18,
            ContractError::OperationAlreadyApproved => 19,
            ContractError::OperationNotPending => 20,
            ContractError::OperationExpired => 21,
        }
    }
}

/// The address of an account or of a contract, in its text form: 56 characters.
#[derive(Clone, Copy, Debug, Eq, PartialEq)]
pub struct Address {
    pub strkey: [u8; 56],
}

impl View for Address {
    type V = Address;

    open spec fn view(&self) -> Address {
        *self
    }
}

impl TableKey for Address {
    fn same(&self, other: &Self) -> (r: bool) {
        let mut i: usize = 0;
        while i < 56
            invariant
                i <= 56,
                forall|j: int| 0 <= j < i ==> self.strkey@[j] == other.strkey@[j],
            decreases 56 - i,
        {
            if self.strkey[i] != other.strkey[i] {
                return false;
            }
            i = i + 1;
        }
        assert(self.strkey =~= other.strkey);
        true
    }
}

impl TableKey for (u64, Address) {
    fn same(&self, other: &Self) -> (r: bool) {
        self.0 == other.0 && self.1.same(&other.1)
    }
}

#[derive(Clone, Copy, Debug, Eq, PartialEq, Structural)]
pub enum BallotState {
    Active,
    ResultPublished,
}

/// How many tokens may be issued and how many votes may be cast in a ballot.
#[derive(Clone, Copy, Debug, Eq, PartialEq)]
pub struct BallotLimits {
    pub max_tokens: u32,
    pub max_votes: u32,
}

#[derive(Clone, Copy, Debug, Eq, PartialEq)]
pub struct BallotMetadata {
    pub admin: Address,
    pub created_at: u64,
    pub expiration_time: u64,
    pub limits: BallotLimits,
    pub state: BallotState,
    pub state_updated_at: u64,
}

impl View for BallotMetadata {
    type V = BallotMetadata;

    open spec fn view(&self) -> BallotMetadata {
        *self
    }
}

/// All that is known of a ballot at one moment.
#[derive(Debug, Eq, PartialEq)]
pub struct BallotStateSnapshot {
    pub admin: Address,
    pub created_at: u64,
    pub expiration_time: u64,
    pub limits: BallotLimits,
    pub result_hash: Option<Vec<u8>>,
    pub state: BallotState,
    pub state_updated_at: u64,
    pub tokens_issued: u32,
    pub votes_cast: u32,
}

/// What a [`BallotStateSnapshot`] says.
#[verifier::ext_equal]
pub struct SnapshotView {
    pub metadata: BallotMetadata,
    pub result_hash: Option<Seq<u8>>,
    pub tokens_issued: u32,
    pub votes_cast: u32,
}

impl View for BallotStateSnapshot {
    type V = SnapshotView;

    open spec fn view(&self) -> SnapshotView {
        SnapshotView {
            metadata: BallotMetadata {
                admin: self.admin,
                created_at: self.created_at,
                expiration_time: self.expiration_time,
                limits: self.limits,
                state: self.state,
                state_updated_at: self.state_updated_at,
            },
            result_hash: match self.result_hash {
                Some(h) => Some(h@),
                None => None,
            },
            tokens_issued: self.tokens_issued,
            votes_cast: self.votes_cast,
        }
    }
}

impl Clone for BallotStateSnapshot {
    fn clone(&self) -> (r: Self)
        ensures
            r@ == self@,
    {
        BallotStateSnapshot {
            admin: self.admin,
            created_at: self.created_at,
            expiration_time: self.expiration_time,
            limits: self.limits,
            result_hash: match &self.result_hash {
                Some(h) => Some(copy_bytes(h)),
                None => None,
            },
            state: self.state,
            state_updated_at: self.state_updated_at,
            tokens_issued: self.tokens_issued,
            votes_cast: self.votes_cast,
        }
    }
}

/// An upgrade that waits for its time lock.
#[derive(Clone, Copy, Debug, Eq, PartialEq)]
pub struct PendingUpgrade {
    pub executable_at: u64,
    pub new_wasm_hash: [u8; 32],
    pub scheduled_at: u64,
}

/// Operations that must be approved by the configured M-of-N approvers.
#[derive(Debug, Eq, PartialEq)]
pub enum CriticalOperation {
    AdminRotation(Address),
    Pause,
    /// The hash of the ballot's identifier and the hash of its result.
    ResultPublication(Vec<u8>, Vec<u8>),
    UpgradeScheduling([u8; 32]),
}

/// What a [`CriticalOperation`] asks for.
#[verifier::ext_equal]
pub enum OperationView {
    AdminRotation(Address),
    Pause,
    ResultPublication(Seq<u8>, Seq<u8>),
    UpgradeScheduling([u8; 32]),
}

impl View for CriticalOperation {
    type V = OperationView;

    open spec fn view(&self) -> OperationView {
        match *self {
            CriticalOperation::AdminRotation(a) => OperationView::AdminRotation(a),
            CriticalOperation::Pause => OperationView::Pause,
            CriticalOperation::ResultPublication(b, h) => OperationView::ResultPublication(b@, h@),
            CriticalOperation::UpgradeScheduling(w) => OperationView::UpgradeScheduling(w),
        }
    }
}

impl Clone for CriticalOperation {
    fn clone(&self) -> (r: Self)
        ensures
            r@ == self@,
    {
        match self {
            CriticalOperation::AdminRotation(a) => CriticalOperation::AdminRotation(*a),
            CriticalOperation::Pause => CriticalOperation::Pause,
            CriticalOperation::ResultPublication(b, h) => CriticalOperation::ResultPublication(
                copy_bytes(b),
                copy_bytes(h),
            ),
            CriticalOperation::UpgradeScheduling(w) => CriticalOperation::UpgradeScheduling(*w),
        }
    }
}

#[derive(Clone, Copy, Debug, Eq, PartialEq, Structural)]
pub enum OperationStatus {
    Pending,
    Executed,
    Cancelled,
}

/// A proposed operation and how far its approval has come.
#[derive(Debug, Eq, PartialEq)]
pub struct PendingOperation {
    pub approval_count: u32,
    pub created_at: u64,
    pub expires_at: u64,
    pub id: u64,
    pub operation: CriticalOperation,
    pub proposer: Address,
    pub status: OperationStatus,
    pub threshold: u32,
}

/// What a [`PendingOperation`] says.
#[verifier::ext_equal]
pub struct PendingView {
    pub approval_count: u32,
    pub created_at: u64,
    pub expires_at: u64,
    pub id: u64,
    pub operation: OperationView,
    pub proposer: Address,
    pub status: OperationStatus,
    pub threshold: u32,
}

impl View for PendingOperation {
    type V = PendingView;

    open spec fn view(&self) -> PendingView {
        PendingView {
            approval_count: self.approval_count,
            created_at: self.created_at,
            expires_at: self.expires_at,
            id: self.id,
            operation: self.operation@,
            proposer: self.proposer,
            status: self.status,
            threshold: self.threshold,
        }
    }
}

impl Clone for PendingOperation {
    fn clone(&self) -> (r: Self)
        ensures
            r@ == self@,
    {
        PendingOperation {
            approval_count: self.approval_count,
            created_at: self.created_at,
            expires_at: self.expires_at,
            id: self.id,
            operation: self.operation.clone(),
            proposer: self.proposer,
            status: self.status,
            threshold: self.threshold,
        }
    }
}

} // verus!
