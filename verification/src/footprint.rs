//! Which entries of the storage decide an invocation.
//!
//! A host that keeps the entries one by one has to bring only these before it invokes the
//! contract, and to take back only what changed.

use vstd::prelude::*;
use crate::ledger::Ledger;
use crate::ledger::Store;
use crate::rules::after;
use crate::rules::answered;
use crate::rules::completes;
use crate::rules::lookup;
use crate::rules::refusal;
use crate::rules::Call;
use crate::table::copy_bytes;
use crate::types::Address;
use crate::types::BallotLimits;
use crate::types::CriticalOperation;
use crate::types::OperationView;

verus! {

/// The key of one entry of the storage.
#[derive(Debug, Eq, PartialEq)]
pub enum DataKey {
    Admin,
    InitializedAt,
    IsPaused,
    Approvers,
    ApprovalThreshold,
    OperationNonce,
    Operation(u64),
    Approval(u64, Address),
    OperationApprover(u64, Address),
    TokensIssued(Vec<u8>),
    VotesCast(Vec<u8>),
    ResultHash(Vec<u8>),
    BallotMetadata(Vec<u8>),
    BallotExpired(Vec<u8>),
    PendingUpgrade,
}

/// What a [`DataKey`] points at.
#[verifier::ext_equal]
pub enum KeyView {
    Admin,
    InitializedAt,
    IsPaused,
    Approvers,
    ApprovalThreshold,
    OperationNonce,
    Operation(u64),
    Approval(u64, Address),
    OperationApprover(u64, Address),
    TokensIssued(Seq<u8>),
    VotesCast(Seq<u8>),
    ResultHash(Seq<u8>),
    BallotMetadata(Seq<u8>),
    BallotExpired(Seq<u8>),
    PendingUpgrade,
}

impl View for DataKey {
    type V = KeyView;

    open spec fn view(&self) -> KeyView {
        match *self {
            DataKey::Admin => KeyView::Admin,
            DataKey::InitializedAt => KeyView::InitializedAt,
            DataKey::IsPaused => KeyView::IsPaused,
            DataKey::Approvers => KeyView::Approvers,
            DataKey::ApprovalThreshold => KeyView::ApprovalThreshold,
            DataKey::OperationNonce => KeyView::OperationNonce,
            DataKey::Operation(id) => KeyView::Operation(id),
            DataKey::Approval(id, a) => KeyView::Approval(id, a),
            DataKey::OperationApprover(id, a) => KeyView::OperationApprover(id, a),
            DataKey::TokensIssued(b) => KeyView::TokensIssued(b@),
            DataKey::VotesCast(b) => KeyView::VotesCast(b@),
            DataKey::ResultHash(b) => KeyView::ResultHash(b@),
            DataKey::BallotMetadata(b) => KeyView::BallotMetadata(b@),
            DataKey::BallotExpired(b) => KeyView::BallotExpired(b@),
            DataKey::PendingUpgrade => KeyView::PendingUpgrade,
        }
    }
}

impl Clone for DataKey {
    fn clone(&self) -> (r: Self)
        ensures
            r@ == self@,
    {
        match self {
            DataKey::Admin => DataKey::Admin,
            DataKey::InitializedAt => DataKey::InitializedAt,
            DataKey::IsPaused => DataKey::IsPaused,
            DataKey::Approvers => DataKey::Approvers,
            DataKey::ApprovalThreshold => DataKey::ApprovalThreshold,
            DataKey::OperationNonce => DataKey::OperationNonce,
            DataKey::Operation(id) => DataKey::Operation(*id),
            DataKey::Approval(id, a) => DataKey::Approval(*id, *a),
            DataKey::OperationApprover(id, a) => DataKey::OperationApprover(*id, *a),
            DataKey::TokensIssued(b) => DataKey::TokensIssued(copy_bytes(b)),
            DataKey::VotesCast(b) => DataKey::VotesCast(copy_bytes(b)),
            DataKey::ResultHash(b) => DataKey::ResultHash(copy_bytes(b)),
            DataKey::BallotMetadata(b) => DataKey::BallotMetadata(copy_bytes(b)),
            DataKey::BallotExpired(b) => DataKey::BallotExpired(copy_bytes(b)),
            DataKey::PendingUpgrade => DataKey::PendingUpgrade,
        }
    }
}

/// Whether two storages hold the same under `key`.
pub open spec fn same_entry(s: Store, t: Store, key: KeyView) -> bool {
    match key {
        KeyView::Admin => s.admin == t.admin,
        KeyView::InitializedAt => s.initialized_at == t.initialized_at,
        KeyView::IsPaused => s.is_paused == t.is_paused,
        KeyView::Approvers => s.approvers == t.approvers,
        KeyView::ApprovalThreshold => s.approval_threshold == t.approval_threshold,
        KeyView::OperationNonce => s.operation_nonce == t.operation_nonce,
        KeyView::Operation(id) => lookup(s.operations, id) == lookup(t.operations, id),
        KeyView::Approval(id, a) => lookup(s.approvals, (id, a)) == lookup(t.approvals, (id, a)),
        KeyView::OperationApprover(id, a) => lookup(s.operation_approvers, (id, a)) == lookup(
            t.operation_approvers,
            (id, a),
        ),
        KeyView::TokensIssued(b) => lookup(s.tokens_issued, b) == lookup(t.tokens_issued, b),
        KeyView::VotesCast(b) => lookup(s.votes_cast, b) == lookup(t.votes_cast, b),
        KeyView::ResultHash(b) => lookup(s.result_hashes, b) == lookup(t.result_hashes, b),
        KeyView::BallotMetadata(b) => lookup(s.ballot_metadata, b) == lookup(t.ballot_metadata, b),
        KeyView::BallotExpired(b) => lookup(s.ballot_expired, b) == lookup(t.ballot_expired, b),
        KeyView::PendingUpgrade => s.pending_upgrade == t.pending_upgrade,
    }
}

/// Storages that hold the same under every key are the same.
pub proof fn entries_make_up_the_storage(s: Store, t: Store)
    requires
        forall|key: KeyView| #[trigger] same_entry(s, t, key),
    ensures
        s == t,
{
    assert(same_entry(s, t, KeyView::Admin));
    assert(same_entry(s, t, KeyView::InitializedAt));
    assert(same_entry(s, t, KeyView::IsPaused));
    assert(same_entry(s, t, KeyView::Approvers));
    assert(same_entry(s, t, KeyView::ApprovalThreshold));
    assert(same_entry(s, t, KeyView::OperationNonce));
    assert(same_entry(s, t, KeyView::PendingUpgrade));
    assert forall|id: u64| lookup(s.operations, id) == lookup(t.operations, id) by {
        assert(same_entry(s, t, KeyView::Operation(id)));
    }
    assert(s.operations =~= t.operations) by {
        assert forall|id: u64| #[trigger]
            s.operations.contains_key(id) == t.operations.contains_key(id) && (
            s.operations.contains_key(id) ==> s.operations[id] == t.operations[id]) by {
            assert(lookup(s.operations, id) == lookup(t.operations, id));
        }
    }
    assert forall|k: (u64, Address)| #[trigger]
        s.approvals.contains_key(k) == t.approvals.contains_key(k) && (s.approvals.contains_key(k)
            ==> s.approvals[k] == t.approvals[k]) by {
        assert(same_entry(s, t, KeyView::Approval(k.0, k.1)));
    }
    assert(s.approvals =~= t.approvals);
    assert forall|k: (u64, Address)| #[trigger]
        s.operation_approvers.contains_key(k) == t.operation_approvers.contains_key(k) && (
        s.operation_approvers.contains_key(k) ==> s.operation_approvers[k]
            == t.operation_approvers[k]) by {
        assert(same_entry(s, t, KeyView::OperationApprover(k.0, k.1)));
    }
    assert(s.operation_approvers =~= t.operation_approvers);
    assert forall|b: Seq<u8>| #[trigger]
        s.tokens_issued.contains_key(b) == t.tokens_issued.contains_key(b) && (
        s.tokens_issued.contains_key(b) ==> s.tokens_issued[b] == t.tokens_issued[b]) by {
        assert(same_entry(s, t, KeyView::TokensIssued(b)));
    }
    assert(s.tokens_issued =~= t.tokens_issued);
    assert forall|b: Seq<u8>| #[trigger]
        s.votes_cast.contains_key(b) == t.votes_cast.contains_key(b) && (
        s.votes_cast.contains_key(b) ==> s.votes_cast[b] == t.votes_cast[b]) by {
        assert(same_entry(s, t, KeyView::VotesCast(b)));
    }
    assert(s.votes_cast =~= t.votes_cast);
    assert forall|b: Seq<u8>| #[trigger]
        s.result_hashes.contains_key(b) == t.result_hashes.contains_key(b) && (
        s.result_hashes.contains_key(b) ==> s.result_hashes[b] == t.result_hashes[b]) by {
        assert(same_entry(s, t, KeyView::ResultHash(b)));
    }
    assert(s.result_hashes =~= t.result_hashes);
    assert forall|b: Seq<u8>| #[trigger]
        s.ballot_metadata.contains_key(b) == t.ballot_metadata.contains_key(b) && (
        s.ballot_metadata.contains_key(b) ==> s.ballot_metadata[b] == t.ballot_metadata[b]) by {
        assert(same_entry(s, t, KeyView::BallotMetadata(b)));
    }
    assert(s.ballot_metadata =~= t.ballot_metadata);
    assert forall|b: Seq<u8>| #[trigger]
        s.ballot_expired.contains_key(b) == t.ballot_expired.contains_key(b) && (
        s.ballot_expired.contains_key(b) ==> s.ballot_expired[b] == t.ballot_expired[b]) by {
        assert(same_entry(s, t, KeyView::BallotExpired(b)));
    }
    assert(s.ballot_expired =~= t.ballot_expired);
}

/// An invocation that can change the ledger, with its arguments.
#[derive(Debug)]
pub enum Invocation {
    Initialize(Address),
    ConfigureApprovals(Address, Vec<Address>, u32, u32),
    CreateOperation(Address, CriticalOperation),
    ApproveOperation(u64, Address),
    CancelOperation(Address, u64),
    RecordBallot(Address, Vec<u8>, BallotLimits),
    RecordToken(Address, Vec<u8>),
    RecordVote(Address, Vec<u8>),
    ExpireBallot(Address, Vec<u8>),
    CancelUpgrade(Address),
    ExecuteUpgrade,
    Resume(Address),
}

impl View for Invocation {
    type V = Call;

    open spec fn view(&self) -> Call {
        match *self {
            Invocation::Initialize(admin) => Call::Initialize { admin },
            Invocation::ConfigureApprovals(caller, approvers, m, n) => Call::ConfigureApprovals {
                caller,
                approvers: approvers@,
                m,
                n,
            },
            Invocation::CreateOperation(caller, operation) => Call::CreateOperation {
                caller,
                operation: operation@,
            },
            Invocation::ApproveOperation(id, approver) => Call::ApproveOperation { id, approver },
            Invocation::CancelOperation(caller, id) => Call::CancelOperation { caller, id },
            Invocation::RecordBallot(caller, ballot, limits) => Call::RecordBallot {
                caller,
                ballot: ballot@,
                limits,
            },
            Invocation::RecordToken(caller, ballot) => Call::RecordToken {
                caller,
                ballot: ballot@,
            },
            Invocation::RecordVote(caller, ballot) => Call::RecordVote { caller, ballot: ballot@ },
            Invocation::ExpireBallot(caller, ballot) => Call::ExpireBallot {
                caller,
                ballot: ballot@,
            },
            Invocation::CancelUpgrade(caller) => Call::CancelUpgrade { caller },
            Invocation::ExecuteUpgrade => Call::ExecuteUpgrade,
            Invocation::Resume(caller) => Call::Resume { caller },
        }
    }
}

/// The entries that decide whether an operation is carried out, and how.
pub open spec fn operation_keys(operation: OperationView) -> Seq<KeyView> {
    match operation {
        OperationView::AdminRotation(_) => seq![KeyView::Admin],
        OperationView::Pause => seq![],
        OperationView::ResultPublication(ballot, _) => seq![
            KeyView::ResultHash(ballot),
            KeyView::BallotMetadata(ballot),
        ],
        OperationView::UpgradeScheduling(_) => seq![KeyView::PendingUpgrade],
    }
}

/// The entries that decide an invocation. An approval also depends on what the operation that it
/// approves does, which is `stored`.
pub open spec fn footprint(call: Call, stored: Option<OperationView>) -> Seq<KeyView> {
    match call {
        Call::Initialize { .. } => seq![KeyView::Admin],
        Call::ConfigureApprovals { .. } => seq![KeyView::Admin],
        Call::CreateOperation { operation, .. } => seq![
            KeyView::Admin,
            KeyView::OperationNonce,
            KeyView::Approvers,
            KeyView::ApprovalThreshold,
        ] + operation_keys(operation),
        Call::ApproveOperation { id, approver } => seq![
            KeyView::Operation(id),
            KeyView::OperationApprover(id, approver),
            KeyView::Approval(id, approver),
        ] + match stored {
            Some(operation) => operation_keys(operation),
            None => seq![],
        },
        Call::CancelOperation { id, .. } => seq![KeyView::Admin, KeyView::Operation(id)],
        Call::RecordBallot { ballot, .. } => seq![
            KeyView::IsPaused,
            KeyView::Admin,
            KeyView::BallotMetadata(ballot),
        ],
        Call::RecordToken { ballot, .. } => seq![
            KeyView::IsPaused,
            KeyView::Admin,
            KeyView::BallotMetadata(ballot),
            KeyView::BallotExpired(ballot),
            KeyView::TokensIssued(ballot),
        ],
        Call::RecordVote { ballot, .. } => seq![
            KeyView::IsPaused,
            KeyView::Admin,
            KeyView::BallotMetadata(ballot),
            KeyView::BallotExpired(ballot),
            KeyView::VotesCast(ballot),
        ],
        Call::ExpireBallot { ballot, .. } => seq![KeyView::Admin, KeyView::BallotMetadata(ballot)],
        Call::CancelUpgrade { .. } => seq![KeyView::Admin, KeyView::PendingUpgrade],
        Call::ExecuteUpgrade => seq![KeyView::PendingUpgrade],
        Call::Resume { .. } => seq![KeyView::Admin],
    }
}

/// The entries that decide an invocation on a storage.
pub open spec fn footprint_on(s: Store, call: Call) -> Seq<KeyView> {
    footprint(
        call,
        match call {
            Call::ApproveOperation { id, .. } => match lookup(s.operations, id) {
                Some(p) => Some(p.operation),
                None => None,
            },
            _ => None,
        },
    )
}

/// What some keys point at.
pub open spec fn key_views(keys: Seq<DataKey>) -> Seq<KeyView> {
    Seq::new(keys.len(), |i: int| keys[i]@)
}

fn add_key(keys: &mut Vec<DataKey>, key: DataKey)
    ensures
        key_views(final(keys)@) == key_views(old(keys)@).push(key@),
{
    keys.push(key);
    assert(key_views(keys@) =~= key_views(old(keys)@).push(key@));
}

fn add_operation_keys(keys: &mut Vec<DataKey>, operation: &CriticalOperation)
    ensures
        key_views(final(keys)@) == key_views(old(keys)@) + operation_keys(operation@),
{
    match operation {
        CriticalOperation::AdminRotation(_) => {
            add_key(keys, DataKey::Admin);
        },
        CriticalOperation::Pause => {},
        CriticalOperation::ResultPublication(ballot, _) => {
            add_key(keys, DataKey::ResultHash(copy_bytes(ballot)));
            add_key(keys, DataKey::BallotMetadata(copy_bytes(ballot)));
        },
        CriticalOperation::UpgradeScheduling(_) => {
            add_key(keys, DataKey::PendingUpgrade);
        },
    }
    assert(key_views(keys@) =~= key_views(old(keys)@) + operation_keys(operation@));
}

impl Invocation {
    /// The entries that decide the invocation. For an approval, `stored` is what the operation
    /// that it approves does.
    pub fn keys(&self, stored: Option<&CriticalOperation>) -> (r: Vec<DataKey>)
        ensures
            key_views(r@) == footprint(
                self@,
                match stored {
                    Some(operation) => Some(operation@),
                    None => None,
                },
            ),
    {
        let mut keys: Vec<DataKey> = Vec::new();
        assert(key_views(keys@) =~= seq![]);
        match self {
            Invocation::Initialize(_) => {
                add_key(&mut keys, DataKey::Admin);
            },
            Invocation::ConfigureApprovals(_, _, _, _) => {
                add_key(&mut keys, DataKey::Admin);
            },
            Invocation::CreateOperation(_, operation) => {
                add_key(&mut keys, DataKey::Admin);
                add_key(&mut keys, DataKey::OperationNonce);
                add_key(&mut keys, DataKey::Approvers);
                add_key(&mut keys, DataKey::ApprovalThreshold);
                add_operation_keys(&mut keys, operation);
            },
            Invocation::ApproveOperation(id, approver) => {
                add_key(&mut keys, DataKey::Operation(*id));
                add_key(&mut keys, DataKey::OperationApprover(*id, *approver));
                add_key(&mut keys, DataKey::Approval(*id, *approver));
                if let Some(operation) = stored {
                    add_operation_keys(&mut keys, operation);
                }
            },
            Invocation::CancelOperation(_, id) => {
                add_key(&mut keys, DataKey::Admin);
                add_key(&mut keys, DataKey::Operation(*id));
            },
            Invocation::RecordBallot(_, ballot, _) => {
                add_key(&mut keys, DataKey::IsPaused);
                add_key(&mut keys, DataKey::Admin);
                add_key(&mut keys, DataKey::BallotMetadata(copy_bytes(ballot)));
            },
            Invocation::RecordToken(_, ballot) => {
                add_key(&mut keys, DataKey::IsPaused);
                add_key(&mut keys, DataKey::Admin);
                add_key(&mut keys, DataKey::BallotMetadata(copy_bytes(ballot)));
                add_key(&mut keys, DataKey::BallotExpired(copy_bytes(ballot)));
                add_key(&mut keys, DataKey::TokensIssued(copy_bytes(ballot)));
            },
            Invocation::RecordVote(_, ballot) => {
                add_key(&mut keys, DataKey::IsPaused);
                add_key(&mut keys, DataKey::Admin);
                add_key(&mut keys, DataKey::BallotMetadata(copy_bytes(ballot)));
                add_key(&mut keys, DataKey::BallotExpired(copy_bytes(ballot)));
                add_key(&mut keys, DataKey::VotesCast(copy_bytes(ballot)));
            },
            Invocation::ExpireBallot(_, ballot) => {
                add_key(&mut keys, DataKey::Admin);
                add_key(&mut keys, DataKey::BallotMetadata(copy_bytes(ballot)));
            },
            Invocation::CancelUpgrade(_) => {
                add_key(&mut keys, DataKey::Admin);
                add_key(&mut keys, DataKey::PendingUpgrade);
            },
            Invocation::ExecuteUpgrade => {
                add_key(&mut keys, DataKey::PendingUpgrade);
            },
            Invocation::Resume(_) => {
                add_key(&mut keys, DataKey::Admin);
            },
        }
        proof {
            let wanted = footprint(
                self@,
                match stored {
                    Some(operation) => Some(operation@),
                    None => None,
                },
            );
            assert(key_views(keys@) =~= wanted);
        }
        keys
    }
}

/// Whether two ledgers look the same to an invocation.
pub open spec fn alike_to(l: Ledger, m: Ledger, call: Call) -> bool {
    &&& l.timestamp == m.timestamp
    &&& l.authorized == m.authorized
    &&& forall|i: int|
        0 <= i < footprint_on(l.store, call).len() ==> same_entry(
            l.store,
            m.store,
            #[trigger] footprint_on(l.store, call)[i],
        )
}

/// An invocation fares alike on ledgers that look the same to it.
pub proof fn the_footprint_decides_the_answer(l: Ledger, m: Ledger, call: Call)
    requires
        alike_to(l, m, call),
    ensures
        refusal(l, call) == refusal(m, call),
        answered(l, call) == answered(m, call),
        match call {
            Call::CreateOperation { .. } => l.store.next_operation() == m.store.next_operation(),
            Call::ApproveOperation { id, .. } => refusal(l, call) is None ==> completes(
                l.store.operations[id],
            ) == completes(m.store.operations[id]),
            _ => true,
        },
{
    let f = footprint_on(l.store, call);
    assert(f.len() > 0 ==> same_entry(l.store, m.store, f[0]));
    assert(f.len() > 1 ==> same_entry(l.store, m.store, f[1]));
    assert(f.len() > 2 ==> same_entry(l.store, m.store, f[2]));
    assert(f.len() > 3 ==> same_entry(l.store, m.store, f[3]));
    assert(f.len() > 4 ==> same_entry(l.store, m.store, f[4]));
    assert(f.len() > 5 ==> same_entry(l.store, m.store, f[5]));
}

/// An invocation changes alike the ledgers that look the same to it: an entry either ends up the
/// same in both or is left as it was in both, and the same events are published.
pub proof fn the_footprint_decides_the_change(l: Ledger, m: Ledger, call: Call, key: KeyView)
    requires
        alike_to(l, m, call),
    ensures
        same_entry(after(l, call).store, after(m, call).store, key) || (same_entry(
            l.store,
            after(l, call).store,
            key,
        ) && same_entry(m.store, after(m, call).store, key)),
        after(l, call).events.skip(l.events.len() as int) == after(m, call).events.skip(
            m.events.len() as int,
        ),
        after(l, call).installed_wasm == after(m, call).installed_wasm || (after(
            l,
            call,
        ).installed_wasm == l.installed_wasm && after(m, call).installed_wasm
            == m.installed_wasm),
{
    let f = footprint_on(l.store, call);
    the_footprint_decides_the_answer(l, m, call);
    assert(f.len() > 0 ==> same_entry(l.store, m.store, f[0]));
    assert(f.len() > 1 ==> same_entry(l.store, m.store, f[1]));
    assert(f.len() > 2 ==> same_entry(l.store, m.store, f[2]));
    assert(f.len() > 3 ==> same_entry(l.store, m.store, f[3]));
    assert(f.len() > 4 ==> same_entry(l.store, m.store, f[4]));
    assert(f.len() > 5 ==> same_entry(l.store, m.store, f[5]));
    assert(after(l, call).events.skip(l.events.len() as int) =~= after(m, call).events.skip(
        m.events.len() as int,
    ));
}

} // verus!
