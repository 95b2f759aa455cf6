//! The views hide nothing: what the rules speak of is all that the values hold.

use vstd::prelude::*;
use crate::events::event_topics;
use crate::events::Event;
use crate::events::EventView;
use crate::footprint::footprint;
use crate::footprint::footprint_on;
use crate::footprint::key_views;
use crate::footprint::DataKey;
use crate::footprint::Invocation;
use crate::footprint::KeyView;
use crate::ledger::empty_store;
use crate::ledger::Env;
use crate::ledger::Storage;
use crate::ledger::Store;
use crate::rules::Call;
use crate::table::entry_map;
use crate::types::error_code;
use crate::types::Address;
use crate::types::BallotMetadata;
use crate::types::BallotStateSnapshot;
use crate::types::ContractError;
use crate::types::CriticalOperation;
use crate::types::OperationView;
use crate::types::PendingOperation;

verus! {

/// An address and the record of a ballot stand for themselves.
pub proof fn plain_values_stand_for_themselves(a: Address, m: BallotMetadata)
    ensures
        a@ == a,
        m@ == m,
{
}

/// The view of an operation is of its kind and holds all its arguments.
pub proof fn operations_show_their_arguments(o: CriticalOperation)
    ensures
        match o {
            CriticalOperation::AdminRotation(a) => o@ == OperationView::AdminRotation(a),
            CriticalOperation::Pause => o@ == OperationView::Pause,
            CriticalOperation::ResultPublication(b, h) => o@ == OperationView::ResultPublication(
                b@,
                h@,
            ),
            CriticalOperation::UpgradeScheduling(w) => o@ == OperationView::UpgradeScheduling(w),
        },
{
}

/// The view of a proposal holds all its fields.
pub proof fn proposals_show_their_fields(p: PendingOperation)
    ensures
        p@.approval_count == p.approval_count,
        p@.created_at == p.created_at,
        p@.expires_at == p.expires_at,
        p@.id == p.id,
        p@.operation == p.operation@,
        p@.proposer == p.proposer,
        p@.status == p.status,
        p@.threshold == p.threshold,
{
}

/// The view of a snapshot holds all its fields.
pub proof fn snapshots_show_their_fields(s: BallotStateSnapshot)
    ensures
        s@.metadata.admin == s.admin,
        s@.metadata.created_at == s.created_at,
        s@.metadata.expiration_time == s.expiration_time,
        s@.metadata.limits == s.limits,
        s@.metadata.state == s.state,
        s@.metadata.state_updated_at == s.state_updated_at,
        s@.result_hash is Some == s.result_hash is Some,
        s.result_hash matches Some(h) ==> s@.result_hash == Some(h@),
        s@.tokens_issued == s.tokens_issued,
        s@.votes_cast == s.votes_cast,
{
}

/// The view of a storage holds every field and every table of it.
pub proof fn storages_show_their_entries(s: Storage)
    ensures
        s@.admin == s.admin,
        s@.initialized_at == s.initialized_at,
        s@.is_paused == s.is_paused,
        s@.approvers is Some == s.approvers is Some,
        s.approvers matches Some(v) ==> s@.approvers == Some(v@),
        s@.approval_threshold == s.approval_threshold,
        s@.operation_nonce == s.operation_nonce,
        s@.pending_upgrade == s.pending_upgrade,
        s@.operations == s.operations@,
        s@.approvals == s.approvals@,
        s@.operation_approvers == s.operation_approvers@,
        s@.tokens_issued == s.tokens_issued@,
        s@.votes_cast == s.votes_cast@,
        s@.result_hashes == s.result_hashes@,
        s@.ballot_metadata == s.ballot_metadata@,
        s@.ballot_expired == s.ballot_expired@,
{
}

/// The view of an environment holds its clock, who authorized, its storage, every event in its
/// order and the requested code.
pub proof fn environments_show_their_contents(env: Env)
    ensures
        env@.timestamp == env.timestamp,
        forall|a: Address| #[trigger]
            env@.authorized.contains(a) == env.authorized@.contains(a),
        env@.store == env.storage@,
        env@.events.len() == env.events@.len(),
        forall|i: int|
            0 <= i < env.events@.len() ==> (#[trigger] env@.events[i]) == env.events@[i]@,
        env@.installed_wasm == env.installed_wasm,
{
}

/// The view of an event is of its kind and holds all its fields.
pub proof fn events_show_their_fields(e: Event)
    ensures
        match e {
            Event::ApprovalConfigured(a, m, n) => e@ == EventView::ApprovalConfigured(a, m, n),
            Event::OperationCreated(i, a, c, x) => e@ == EventView::OperationCreated(i, a, c, x),
            Event::OperationApproved(i, a, n, t) => e@ == EventView::OperationApproved(i, a, n, t),
            Event::OperationExecuted(i, n, t) => e@ == EventView::OperationExecuted(i, n, t),
            Event::OperationCancelled(i, a, t) => e@ == EventView::OperationCancelled(i, a, t),
            Event::BallotCreated(b, t, a) => e@ == EventView::BallotCreated(b@, t, a),
            Event::TokenIssued(b, n) => e@ == EventView::TokenIssued(b@, n),
            Event::VoteCast(b, n) => e@ == EventView::VoteCast(b@, n),
            Event::BallotExpired(b) => e@ == EventView::BallotExpired(b@),
            Event::AdminRotated(a, b) => e@ == EventView::AdminRotated(a, b),
            Event::ResultPublished(b, h) => e@ == EventView::ResultPublished(b@, h@),
            Event::Paused(t) => e@ == EventView::Paused(t),
            Event::Resumed(a, t) => e@ == EventView::Resumed(a, t),
            Event::UpgradeScheduled(w, s, x) => e@ == EventView::UpgradeScheduled(w, s, x),
            Event::UpgradeCancelled(a, t) => e@ == EventView::UpgradeCancelled(a, t),
            Event::UpgradeExecuted(w) => e@ == EventView::UpgradeExecuted(w),
        },
{
}

/// The view of a key is of its kind and holds all that it points with.
pub proof fn keys_show_what_they_point_with(k: DataKey)
    ensures
        match k {
            DataKey::Admin => k@ == KeyView::Admin,
            DataKey::InitializedAt => k@ == KeyView::InitializedAt,
            DataKey::IsPaused => k@ == KeyView::IsPaused,
            DataKey::Approvers => k@ == KeyView::Approvers,
            DataKey::ApprovalThreshold => k@ == KeyView::ApprovalThreshold,
            DataKey::OperationNonce => k@ == KeyView::OperationNonce,
            DataKey::Operation(id) => k@ == KeyView::Operation(id),
            DataKey::Approval(id, a) => k@ == KeyView::Approval(id, a),
            DataKey::OperationApprover(id, a) => k@ == KeyView::OperationApprover(id, a),
            DataKey::TokensIssued(b) => k@ == KeyView::TokensIssued(b@),
            DataKey::VotesCast(b) => k@ == KeyView::VotesCast(b@),
            DataKey::ResultHash(b) => k@ == KeyView::ResultHash(b@),
            DataKey::BallotMetadata(b) => k@ == KeyView::BallotMetadata(b@),
            DataKey::BallotExpired(b) => k@ == KeyView::BallotExpired(b@),
            DataKey::PendingUpgrade => k@ == KeyView::PendingUpgrade,
        },
{
}

/// The view of an invocation is of its kind and holds all its arguments.
pub proof fn invocations_show_their_arguments(i: Invocation)
    ensures
        match i {
            Invocation::Initialize(admin) => i@ == (Call::Initialize { admin }),
            Invocation::ConfigureApprovals(caller, v, m, n) => i@ == (Call::ConfigureApprovals {
                caller,
                approvers: v@,
                m,
                n,
            }),
            Invocation::CreateOperation(caller, o) => i@ == (Call::CreateOperation {
                caller,
                operation: o@,
            }),
            Invocation::ApproveOperation(id, approver) => i@ == (Call::ApproveOperation {
                id,
                approver,
            }),
            Invocation::CancelOperation(caller, id) => i@ == (Call::CancelOperation {
                caller,
                id,
            }),
            Invocation::RecordBallot(caller, b, limits) => i@ == (Call::RecordBallot {
                caller,
                ballot: b@,
                limits,
            }),
            Invocation::RecordToken(caller, b) => i@ == (Call::RecordToken {
                caller,
                ballot: b@,
            }),
            Invocation::RecordVote(caller, b) => i@ == (Call::RecordVote { caller, ballot: b@ }),
            Invocation::ExpireBallot(caller, b) => i@ == (Call::ExpireBallot {
                caller,
                ballot: b@,
            }),
            Invocation::CancelUpgrade(caller) => i@ == (Call::CancelUpgrade { caller }),
            Invocation::ExecuteUpgrade => i@ == Call::ExecuteUpgrade,
            Invocation::Resume(caller) => i@ == (Call::Resume { caller }),
        },
{
}

/// No two errors have the same number; they are numbered from 1 to 21.
pub proof fn errors_are_told_apart(e: ContractError, f: ContractError)
    ensures
        1 <= error_code(e) <= 21,
        error_code(e) == error_code(f) ==> e == f,
{
}

/// An event is announced under the area that it belongs to: what concerns proposals and their
/// approval under governance, what was done under audit.
pub proof fn events_are_filed_by_area(e: EventView)
    ensures
        event_topics(e).0 == if e is ApprovalConfigured || e is OperationCreated
            || e is OperationApproved || e is OperationExecuted || e is OperationCancelled {
            "govern"@
        } else {
            "audit"@
        },
{
}

/// What an event is called depends on its kind and on nothing else, and no two kinds are called
/// the same.
pub proof fn events_are_told_apart(e: EventView, f: EventView)
    ensures
        event_topics(e) == event_topics(f) <==> {
            ||| e is ApprovalConfigured && f is ApprovalConfigured
            ||| e is OperationCreated && f is OperationCreated
            ||| e is OperationApproved && f is OperationApproved
            ||| e is OperationExecuted && f is OperationExecuted
            ||| e is OperationCancelled && f is OperationCancelled
            ||| e is BallotCreated && f is BallotCreated
            ||| e is TokenIssued && f is TokenIssued
            ||| e is VoteCast && f is VoteCast
            ||| e is BallotExpired && f is BallotExpired
            ||| e is AdminRotated && f is AdminRotated
            ||| e is ResultPublished && f is ResultPublished
            ||| e is Paused && f is Paused
            ||| e is Resumed && f is Resumed
            ||| e is UpgradeScheduled && f is UpgradeScheduled
            ||| e is UpgradeCancelled && f is UpgradeCancelled
            ||| e is UpgradeExecuted && f is UpgradeExecuted
        },
{
    reveal_strlit("govern");
    reveal_strlit("audit");
    reveal_strlit("cfg_appr");
    reveal_strlit("op_create");
    reveal_strlit("approved");
    reveal_strlit("op_exec");
    reveal_strlit("op_cancel");
    reveal_strlit("blt_crtd");
    reveal_strlit("tok_issd");
    reveal_strlit("vote_cast");
    reveal_strlit("exp_adm");
    reveal_strlit("adm_rotd");
    reveal_strlit("res_pub");
    reveal_strlit("paused");
    reveal_strlit("resumed");
    reveal_strlit("upg_schd");
    reveal_strlit("upg_cncl");
    reveal_strlit("upg_excd");
    let (a, b) = (event_topics(e).1, event_topics(f).1);
    assert(a == b ==> a[0] == b[0] && a[2] == b[2] && a[3] == b[3] && a[4] == b[4]);
}

/// A contract that was never invoked holds nothing at all.
pub proof fn a_new_storage_is_empty(key: KeyView)
    ensures
        ({
            let s = empty_store();
            match key {
                KeyView::Admin => s.admin is None,
                KeyView::InitializedAt => s.initialized_at is None,
                KeyView::IsPaused => s.is_paused is None,
                KeyView::Approvers => s.approvers is None,
                KeyView::ApprovalThreshold => s.approval_threshold is None,
                KeyView::OperationNonce => s.operation_nonce is None,
                KeyView::Operation(id) => !s.operations.contains_key(id),
                KeyView::Approval(id, a) => !s.approvals.contains_key((id, a)),
                KeyView::OperationApprover(id, a) => !s.operation_approvers.contains_key((id, a)),
                KeyView::TokensIssued(b) => !s.tokens_issued.contains_key(b),
                KeyView::VotesCast(b) => !s.votes_cast.contains_key(b),
                KeyView::ResultHash(b) => !s.result_hashes.contains_key(b),
                KeyView::BallotMetadata(b) => !s.ballot_metadata.contains_key(b),
                KeyView::BallotExpired(b) => !s.ballot_expired.contains_key(b),
                KeyView::PendingUpgrade => s.pending_upgrade is None,
            }
        }),
{
}

/// Entries under distinct keys make up the map that has each of their keys with its value, and no
/// other key.
pub proof fn entries_make_up_their_map<K: View, V: View>(entries: Seq<(K, V)>)
    requires
        forall|i: int, j: int|
            0 <= i < j < entries.len() ==> (#[trigger] entries[i]).0@ != (
            #[trigger] entries[j]).0@,
    ensures
        forall|i: int|
            0 <= i < entries.len() ==> entry_map(entries).contains_key((#[trigger] entries[i]).0@)
                && entry_map(entries)[entries[i].0@] == entries[i].1@,
        forall|k: K::V| #[trigger]
            entry_map(entries).contains_key(k) ==> exists|i: int|
                0 <= i < entries.len() && (#[trigger] entries[i]).0@ == k,
{
    assert forall|i: int| 0 <= i < entries.len() implies entry_map(entries).contains_key(
        (#[trigger] entries[i]).0@,
    ) && entry_map(entries)[entries[i].0@] == entries[i].1@ by {
        let k = entries[i].0@;
        let j = choose|j: int| 0 <= j < entries.len() && (#[trigger] entries[j]).0@ == k;
        assert(entries[j].0@ == k);
        assert(i == j);
    }
}

/// What some keys point at is what each of them points at, in their order.
pub proof fn keys_are_shown_one_by_one(keys: Seq<DataKey>)
    ensures
        key_views(keys).len() == keys.len(),
        forall|i: int| 0 <= i < keys.len() ==> (#[trigger] key_views(keys)[i]) == keys[i]@,
{
}

/// An invocation is decided by these entries and no others: the admin, where it is reserved for
/// the admin or sets the admin; whether the contract is paused, where it records; and what it is
/// about. Only an approval depends on the stored operation.
pub proof fn the_footprint_is_what_an_invocation_is_about(
    call: Call,
    stored: Option<OperationView>,
    key: KeyView,
)
    ensures
        ({
            let carries = |o: OperationView|
                match o {
                    OperationView::AdminRotation(_) => key is Admin,
                    OperationView::Pause => false,
                    OperationView::ResultPublication(b, _) => key == KeyView::ResultHash(b) || key
                        == KeyView::BallotMetadata(b),
                    OperationView::UpgradeScheduling(_) => key is PendingUpgrade,
                };
            footprint(call, stored).contains(key) == match call {
                Call::Initialize { .. } => key is Admin,
                Call::ConfigureApprovals { .. } => key is Admin,
                Call::Resume { .. } => key is Admin,
                Call::CreateOperation { operation, .. } => key is Admin || key is OperationNonce
                    || key is Approvers || key is ApprovalThreshold || carries(operation),
                Call::ApproveOperation { id, approver } => key == KeyView::Operation(id) || key
                    == KeyView::OperationApprover(id, approver) || key == KeyView::Approval(
                    id,
                    approver,
                ) || (stored is Some && carries(stored->0)),
                Call::CancelOperation { id, .. } => key is Admin || key == KeyView::Operation(id),
                Call::RecordBallot { ballot, .. } => key is IsPaused || key is Admin || key
                    == KeyView::BallotMetadata(ballot),
                Call::RecordToken { ballot, .. } => key is IsPaused || key is Admin || key
                    == KeyView::BallotMetadata(ballot) || key == KeyView::BallotExpired(ballot)
                    || key == KeyView::TokensIssued(ballot),
                Call::RecordVote { ballot, .. } => key is IsPaused || key is Admin || key
                    == KeyView::BallotMetadata(ballot) || key == KeyView::BallotExpired(ballot)
                    || key == KeyView::VotesCast(ballot),
                Call::ExpireBallot { ballot, .. } => key is Admin || key
                    == KeyView::BallotMetadata(ballot),
                Call::CancelUpgrade { .. } => key is Admin || key is PendingUpgrade,
                Call::ExecuteUpgrade => key is PendingUpgrade,
            }
        }),
{
    let f = footprint(call, stored);
    assert(f.len() > 0 ==> f.contains(f[0]));
    assert(f.len() > 1 ==> f.contains(f[1]));
    assert(f.len() > 2 ==> f.contains(f[2]));
    assert(f.len() > 3 ==> f.contains(f[3]));
    assert(f.len() > 4 ==> f.contains(f[4]));
    assert(f.len() > 5 ==> f.contains(f[5]));
}

/// On a storage, an approval depends on the operation stored there under its identifier.
pub proof fn an_approval_is_about_the_stored_operation(s: Store, call: Call)
    ensures
        match call {
            Call::ApproveOperation { id, .. } if s.operations.contains_key(id) => footprint_on(
                s,
                call,
            ) == footprint(call, Some(s.operations[id].operation)),
            _ => footprint_on(s, call) == footprint(call, None),
        },
{
}

} // verus!
