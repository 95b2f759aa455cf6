//! What a single invocation can and cannot do, whichever it is.

use vstd::prelude::*;
use crate::events::EventView;
use crate::ledger::Ledger;
use crate::ledger::Store;
use crate::rules::after;
use crate::rules::cancel_upgrade_effect;
use crate::rules::completes;
use crate::rules::execution_effect;
use crate::rules::execution_refusal;
use crate::rules::goes_through;
use crate::rules::lookup;
use crate::rules::refusal;
use crate::rules::resume_effect;
use crate::rules::signer;
use crate::rules::Call;
use crate::soundness::invocations_keep_soundness;
use crate::types::Address;
use crate::types::BallotLimits;
use crate::types::BallotState;
use crate::types::ContractError;
use crate::types::OperationStatus;
use crate::types::OperationView;
use crate::types::PendingView;
use crate::types::UPGRADE_TIME_LOCK_SECONDS;

verus! {

// Failure

/// An invocation that is refused changes nothing.
pub proof fn refused_invocations_leave_no_trace(l: Ledger, call: Call)
    requires
        refusal(l, call) is Some,
    ensures
        after(l, call) == l,
{
}

/// An invocation changes nothing unless its signer authorized it.
pub proof fn unauthorized_invocations_leave_no_trace(l: Ledger, call: Call, a: Address)
    requires
        signer(call) == Some(a),
        !l.authorized.contains(a),
    ensures
        after(l, call) == l,
{
}

/// Whether an invocation is reserved for the admin.
pub open spec fn for_admin(call: Call) -> bool {
    match call {
        Call::Initialize { .. } => false,
        Call::ApproveOperation { .. } => false,
        Call::ExecuteUpgrade => false,
        _ => true,
    }
}

/// Whether an invocation records a ballot, a token or a vote.
pub open spec fn is_recording(call: Call) -> bool {
    call is RecordBallot || call is RecordToken || call is RecordVote
}

/// What is reserved for the admin is refused to everyone else.
pub proof fn others_are_refused(l: Ledger, call: Call, caller: Address, admin: Address)
    requires
        for_admin(call),
        signer(call) == Some(caller),
        l.store.admin == Some(admin),
        caller != admin,
    ensures
        refusal(l, call) == Some(
            if is_recording(call) && l.store.paused() {
                ContractError::ContractPaused
            } else {
                ContractError::AdminUnauthorized
            },
        ),
        after(l, call) == l,
{
}

/// While the contract is paused, nothing is recorded: no ballot, no token and no vote.
pub proof fn paused_contract_records_nothing(l: Ledger, call: Call)
    requires
        l.store.paused(),
    ensures
        is_recording(call) ==> refusal(l, call) == Some(ContractError::ContractPaused),
        after(l, call).store.tokens_issued == l.store.tokens_issued,
        after(l, call).store.votes_cast == l.store.votes_cast,
        l.store.sound() ==> after(l, call).store.ballot_metadata.dom()
            =~= l.store.ballot_metadata.dom(),
{
    if let Call::ApproveOperation { id, approver } = call {
        if l.store.sound() && goes_through(l, call) {
            assert(l.store.operation_sound(id));
        }
    }
}

/// The contract is initialized once: from then on a second attempt is refused, and the time of
/// the first stands.
pub proof fn initialization_is_final(l: Ledger, call: Call, admin: Address)
    requires
        l.store.admin is Some,
    ensures
        refusal(l, (Call::Initialize { admin })) == Some(ContractError::AlreadyInitialized),
        after(l, call).store.admin is Some,
        after(l, call).store.initialized_at == l.store.initialized_at,
{
}

// Governance

/// Whether an invocation is the approval that carries `operation` out, with the approvals of as
/// many distinct entitled approvers as the operation's threshold demands, before it expired.
pub open spec fn carries_out(l: Ledger, call: Call, operation: OperationView) -> bool {
    let s = after(l, call).store;
    &&& call matches Call::ApproveOperation { id, approver }
    &&& l.authorized.contains(approver)
    &&& l.store.operations.contains_key(id)
    &&& l.store.operations[id].operation == operation
    &&& l.store.operations[id].status == OperationStatus::Pending
    &&& l.timestamp <= l.store.operations[id].expires_at
    &&& s.operations[id].status == OperationStatus::Executed
    &&& s.supporters(id).finite()
    &&& s.supporters(id).len() == l.store.operations[id].threshold
    &&& s.supporters(id).subset_of(l.store.entitled(id))
}

/// The admin changes, the contract is paused, a result is published and an upgrade is scheduled
/// only by an operation that reached its quorum.
pub proof fn critical_changes_need_a_quorum(l: Ledger, call: Call)
    requires
        l.store.sound(),
        l.store.admin is Some,
    ensures
        after(l, call).store.admin != l.store.admin ==> carries_out(
            l,
            call,
            OperationView::AdminRotation(after(l, call).store.admin->0),
        ),
        !l.store.paused() && after(l, call).store.paused() ==> carries_out(
            l,
            call,
            OperationView::Pause,
        ),
        forall|b: Seq<u8>|
            lookup(after(l, call).store.result_hashes, b) != #[trigger] lookup(
                l.store.result_hashes,
                b,
            ) ==> carries_out(
                l,
                call,
                OperationView::ResultPublication(b, after(l, call).store.result_hashes[b]),
            ),
        after(l, call).store.pending_upgrade != l.store.pending_upgrade && after(
            l,
            call,
        ).store.pending_upgrade is Some ==> carries_out(
            l,
            call,
            OperationView::UpgradeScheduling(
                after(l, call).store.pending_upgrade->0.new_wasm_hash,
            ),
        ) && after(l, call).store.pending_upgrade->0.scheduled_at == l.timestamp,
{
    invocations_keep_soundness(l, call);
    if let Call::ApproveOperation { id, approver } = call {
        if goes_through(l, call) {
            assert(l.store.operation_sound(id));
            assert(after(l, call).store.operations.contains_key(id));
            assert(after(l, call).store.operation_sound(id));
            assert(after(l, call).store.entitled(id) =~= l.store.entitled(id));
        }
    }
}

/// An approval that leaves the operation pending has no effect but that it counts.
pub proof fn approvals_short_of_the_quorum_only_count(l: Ledger, id: u64, approver: Address)
    requires
        goes_through(l, (Call::ApproveOperation { id, approver })),
        !completes(l.store.operations[id]),
    ensures
        ({
            let p = l.store.operations[id];
            after(l, (Call::ApproveOperation { id, approver })).store == (Store {
                approvals: l.store.approvals.insert((id, approver), true),
                operations: l.store.operations.insert(
                    id,
                    PendingView { approval_count: (p.approval_count + 1) as u32, ..p },
                ),
                ..l.store
            })
        }),
{
}

/// An executed operation has the approvals of exactly as many distinct entitled approvers as its
/// threshold demands; any other has fewer.
pub proof fn approvals_decide_execution(s: Store, id: u64)
    requires
        s.sound(),
        s.operations.contains_key(id),
    ensures
        s.supporters(id).finite(),
        s.supporters(id).subset_of(s.entitled(id)),
        s.operations[id].approval_count == s.supporters(id).len(),
        (s.operations[id].status == OperationStatus::Executed) == (s.supporters(id).len()
            >= s.operations[id].threshold),
        s.supporters(id).len() <= s.operations[id].threshold,
        1 <= s.operations[id].threshold <= s.entitled(id).len(),
{
    assert(s.operation_sound(id));
}

/// An operation keeps what it was proposed with: what it does, who proposed it, its threshold,
/// its expiry and who may approve it. A later configuration does not touch it.
pub proof fn operations_keep_their_terms(l: Ledger, call: Call, id: u64)
    requires
        l.store.sound(),
        l.store.operations.contains_key(id),
    ensures
        after(l, call).store.operations.contains_key(id),
        after(l, call).store.operations[id] == (PendingView {
            approval_count: after(l, call).store.operations[id].approval_count,
            status: after(l, call).store.operations[id].status,
            ..l.store.operations[id]
        }),
        after(l, call).store.entitled(id) == l.store.entitled(id),
{
    assert(l.store.operation_sound(id));
    assert(after(l, call).store.entitled(id) =~= l.store.entitled(id));
}

/// An operation that was executed or cancelled stays as it is, and no approval of it is
/// accepted.
pub proof fn settled_operations_stay(l: Ledger, call: Call, id: u64, approver: Address)
    requires
        l.store.sound(),
        l.store.operations.contains_key(id),
        l.store.operations[id].status != OperationStatus::Pending,
    ensures
        after(l, call).store.operations[id] == l.store.operations[id],
        after(l, call).store.supporters(id) == l.store.supporters(id),
        refusal(l, (Call::ApproveOperation { id, approver })) == Some(
            ContractError::OperationNotPending,
        ),
{
    assert(l.store.operation_sound(id));
    assert(after(l, call).store.supporters(id) =~= l.store.supporters(id));
}

/// The admin can cancel an operation as long as it is pending, expired or not.
pub proof fn pending_operations_can_be_cancelled(l: Ledger, id: u64, admin: Address)
    requires
        l.store.admin == Some(admin),
        l.authorized.contains(admin),
        l.store.operations.contains_key(id),
        l.store.operations[id].status == OperationStatus::Pending,
    ensures
        goes_through(l, (Call::CancelOperation { caller: admin, id })),
        after(l, (Call::CancelOperation { caller: admin, id })).store == (Store {
            operations: l.store.operations.insert(
                id,
                PendingView { status: OperationStatus::Cancelled, ..l.store.operations[id] },
            ),
            ..l.store
        }),
{
}

/// An operation past its expiry is never executed: nothing can happen to it but that it is
/// cancelled.
pub proof fn expired_operations_are_not_executed(l: Ledger, call: Call, id: u64)
    requires
        l.store.sound(),
        l.store.operations.contains_key(id),
        l.store.operations[id].status == OperationStatus::Pending,
        l.timestamp > l.store.operations[id].expires_at,
    ensures
        after(l, call).store.operations[id] == l.store.operations[id] || after(
            l,
            call,
        ).store.operations[id] == (PendingView {
            status: OperationStatus::Cancelled,
            ..l.store.operations[id]
        }),
{
    assert(l.store.operation_sound(id));
}

/// An approval is never withdrawn, and no one approves an operation twice.
pub proof fn approvals_stand_and_count_once(l: Ledger, call: Call, id: u64, approver: Address)
    requires
        l.store.has_approved(id, approver),
    ensures
        after(l, call).store.has_approved(id, approver),
        refusal(l, (Call::ApproveOperation { id, approver })) is Some,
        l.store.operations.contains_key(id) && l.store.operations[id].status
            == OperationStatus::Pending && l.timestamp <= l.store.operations[id].expires_at
            && l.store.may_approve(id, approver) ==> refusal(
            l,
            (Call::ApproveOperation { id, approver }),
        ) == Some(ContractError::OperationAlreadyApproved),
{
}

/// The approval of one who is not entitled is refused.
pub proof fn outsiders_cannot_approve(l: Ledger, id: u64, approver: Address)
    requires
        l.store.operations.contains_key(id),
        l.store.operations[id].status == OperationStatus::Pending,
        l.timestamp <= l.store.operations[id].expires_at,
        !l.store.may_approve(id, approver),
    ensures
        refusal(l, (Call::ApproveOperation { id, approver })) == Some(
            ContractError::ApproverUnauthorized,
        ),
{
}

/// Each operation gets an identifier that no operation had before, one more than the last.
pub proof fn identifiers_are_never_reused(l: Ledger, caller: Address, operation: OperationView)
    requires
        l.store.sound(),
        goes_through(l, (Call::CreateOperation { caller, operation })),
    ensures
        !l.store.operations.contains_key(l.store.next_operation()),
        ({
            let s = after(l, (Call::CreateOperation { caller, operation })).store;
            &&& s.operations.contains_key(l.store.next_operation())
            &&& s.next_operation() == l.store.next_operation() + 1
        }),
{
    if l.store.operations.contains_key(l.store.next_operation()) {
        assert(l.store.operation_sound(l.store.next_operation()));
    }
}

/// The approvers and the threshold for operations to come change only when the contract is
/// initialized and when its admin configures them, and are a proper M-of-N at every moment.
pub proof fn configuration_is_the_admins(l: Ledger, call: Call)
    requires
        l.store.sound(),
    ensures
        l.store.admin is Some ==> l.store.configuration_sound(),
        after(l, call).store.approvers != l.store.approvers || after(
            l,
            call,
        ).store.approval_threshold != l.store.approval_threshold ==> (l.store.admin is None
            && call is Initialize) || (call is ConfigureApprovals && signer(call)
            == l.store.admin),
{
}

// Ballots

/// A published result never changes.
pub proof fn published_results_are_final(l: Ledger, call: Call, ballot: Seq<u8>)
    requires
        l.store.result_hashes.contains_key(ballot),
    ensures
        after(l, call).store.result_hashes.contains_key(ballot),
        after(l, call).store.result_hashes[ballot] == l.store.result_hashes[ballot],
{
}

/// A recorded ballot stays recorded, with its limits, its origin and its time; of its state only
/// the publication of its result can change it.
pub proof fn ballots_keep_their_terms(l: Ledger, call: Call, ballot: Seq<u8>)
    requires
        l.store.sound(),
        l.store.ballot_metadata.contains_key(ballot),
    ensures
        ({
            let before = l.store.ballot_metadata[ballot];
            let now = after(l, call).store.ballot_metadata[ballot];
            &&& after(l, call).store.ballot_metadata.contains_key(ballot)
            &&& now.limits == before.limits
            &&& now.admin == before.admin
            &&& now.created_at == before.created_at
            &&& now.expiration_time == before.expiration_time
            &&& now != before ==> before.state == BallotState::Active && now.state
                == BallotState::ResultPublished && now.state_updated_at == l.timestamp
        }),
{
    assert(l.store.ballot_sound(ballot));
}

/// A ballot's counters grow by one at a time, each only by the invocation that records a token
/// or a vote in that ballot, and never beyond its limits.
pub proof fn counters_grow_one_by_one(l: Ledger, call: Call, ballot: Seq<u8>)
    requires
        l.store.sound(),
        l.store.ballot_metadata.contains_key(ballot),
    ensures
        ({
            let s = after(l, call).store;
            let limits = l.store.ballot_metadata[ballot].limits;
            &&& s.tokens(ballot) == l.store.tokens(ballot) + if goes_through(l, call)
                && (call matches Call::RecordToken { ballot: b, .. } && b == ballot) {
                1int
            } else {
                0int
            }
            &&& s.votes(ballot) == l.store.votes(ballot) + if goes_through(l, call) && (
            call matches Call::RecordVote { ballot: b, .. } && b == ballot) {
                1int
            } else {
                0int
            }
            &&& s.tokens(ballot) <= limits.max_tokens
            &&& s.votes(ballot) <= limits.max_votes
        }),
{
    assert(l.store.ballot_sound(ballot));
}

/// A ballot that the admin ended stays ended, and its counters stand still.
pub proof fn ended_ballots_stand_still(l: Ledger, call: Call, ballot: Seq<u8>)
    requires
        l.store.sound(),
        l.store.expired(ballot),
    ensures
        after(l, call).store.expired(ballot),
        after(l, call).store.tokens(ballot) == l.store.tokens(ballot),
        after(l, call).store.votes(ballot) == l.store.votes(ballot),
{
    assert(l.store.ballot_metadata.contains_key(ballot));
}

/// What is recorded reads back: a new ballot is active, under its limits, without a token, a
/// vote or a result.
pub proof fn recorded_ballots_read_back(
    l: Ledger,
    caller: Address,
    ballot: Seq<u8>,
    limits: BallotLimits,
)
    requires
        l.store.sound(),
        goes_through(l, (Call::RecordBallot { caller, ballot, limits })),
    ensures
        ({
            let view = after(l, (Call::RecordBallot { caller, ballot, limits })).store.snapshot(
                ballot,
            );
            &&& view matches Some(v)
            &&& v.metadata.admin == caller
            &&& v.metadata.created_at == l.timestamp
            &&& v.metadata.limits == limits
            &&& v.metadata.state == BallotState::Active
            &&& v.tokens_issued == 0
            &&& v.votes_cast == 0
            &&& v.result_hash is None
        }),
{
    if l.store.result_hashes.contains_key(ballot) {
        assert(l.store.ballot_metadata.contains_key(ballot));
    }
}

/// A result reads back once its publication was carried out, and the ballot's state says so. To
/// publish it again is accepted and changes nothing.
pub proof fn published_results_read_back(l: Ledger, ballot: Seq<u8>, result: Seq<u8>)
    requires
        l.store.sound(),
        execution_refusal(l.store, OperationView::ResultPublication(ballot, result)) is None,
    ensures
        ({
            let operation = OperationView::ResultPublication(ballot, result);
            let done = execution_effect(l, operation);
            &&& lookup(done.store.result_hashes, ballot) == Some(result)
            &&& done.store.ballot_metadata[ballot].state == BallotState::ResultPublished
            &&& execution_refusal(done.store, operation) is None
            &&& execution_effect(done, operation) == done
        }),
{
    if l.store.result_hashes.contains_key(ballot) {
        assert(l.store.ballot_metadata.contains_key(ballot));
        assert(l.store.ballot_sound(ballot));
    }
}

// Pausing and upgrades

/// To resume undoes a pause.
pub proof fn resuming_undoes_pausing(l: Ledger, caller: Address)
    requires
        l.store.is_paused == Some(false),
    ensures
        execution_effect(l, OperationView::Pause).store.paused(),
        resume_effect(execution_effect(l, OperationView::Pause), caller).store == l.store,
{
}

/// To cancel an upgrade undoes its scheduling.
pub proof fn cancelling_undoes_scheduling(l: Ledger, caller: Address, wasm: [u8; 32])
    requires
        l.store.pending_upgrade is None,
    ensures
        cancel_upgrade_effect(
            execution_effect(l, OperationView::UpgradeScheduling(wasm)),
            caller,
        ).store == l.store,
{
}

/// The code is replaced only with that of the scheduled upgrade, and only after the whole time
/// lock.
pub proof fn upgrades_wait_for_the_time_lock(l: Ledger, call: Call)
    requires
        l.store.sound(),
        after(l, call).installed_wasm != l.installed_wasm,
    ensures
        call is ExecuteUpgrade,
        l.store.pending_upgrade matches Some(u) && after(l, call).installed_wasm == Some(
            u.new_wasm_hash,
        ) && l.timestamp >= u.scheduled_at + UPGRADE_TIME_LOCK_SECONDS,
        after(l, call).store.pending_upgrade is None,
{
}

// Events

/// Events are only ever added.
pub proof fn events_are_never_withdrawn(l: Ledger, call: Call)
    ensures
        l.events.len() <= after(l, call).events.len(),
        after(l, call).events.take(l.events.len() as int) == l.events,
{
    assert(after(l, call).events.take(l.events.len() as int) =~= l.events);
}

/// The creation, approval, cancellation and execution of an operation are each announced.
pub proof fn governance_is_announced(l: Ledger, call: Call)
    requires
        goes_through(l, call),
    ensures
        ({
            let events = after(l, call).events;
            let n = l.events.len() as int;
            let s = after(l, call).store;
            match call {
                Call::CreateOperation { caller, .. } => {
                    let p = s.operations[l.store.next_operation()];
                    events == l.events.push(
                        EventView::OperationCreated(p.id, caller, p.created_at, p.expires_at),
                    )
                },
                Call::ApproveOperation { id, approver } => {
                    let p = s.operations[id];
                    &&& events.len() > n
                    &&& events[n] == EventView::OperationApproved(
                        id,
                        approver,
                        p.approval_count,
                        l.timestamp,
                    )
                    &&& p.status == OperationStatus::Executed ==> events.len() > n + 1
                        && events.last() == EventView::OperationExecuted(
                        id,
                        p.approval_count,
                        l.timestamp,
                    )
                },
                Call::CancelOperation { caller, id } => events == l.events.push(
                    EventView::OperationCancelled(id, caller, l.timestamp),
                ),
                _ => true,
            }
        }),
{
}

} // verus!
