//! Sequences of invocations, and what holds however many of them there were.

use vstd::prelude::*;
use crate::laws::approvals_stand_and_count_once;
use crate::laws::ballots_keep_their_terms;
use crate::laws::counters_grow_one_by_one;
use crate::laws::ended_ballots_stand_still;
use crate::laws::events_are_never_withdrawn;
use crate::laws::expired_operations_are_not_executed;
use crate::laws::initialization_is_final;
use crate::laws::operations_keep_their_terms;
use crate::laws::published_results_are_final;
use crate::laws::settled_operations_stay;
use crate::ledger::Ledger;
use crate::ledger::Store;
use crate::ledger::empty_store;
use crate::rules::Call;
use crate::rules::after;
use crate::rules::completes;
use crate::rules::execution_refusal;
use crate::rules::goes_through;
use crate::rules::refusal;
use crate::soundness::executions_stand;
use crate::soundness::invocations_keep_soundness;
use crate::types::Address;
use crate::types::ContractError;
use crate::types::OperationStatus;
use crate::types::OperationView;
use crate::types::PendingView;
use crate::types::UPGRADE_TIME_LOCK_SECONDS;

verus! {

/// One invocation, with the time and the authorizations under which it is made.
pub struct Step {
    pub timestamp: u64,
    pub authorized: Set<Address>,
    pub call: Call,
}

/// The ledger as a step finds it.
pub open spec fn at(l: Ledger, step: Step) -> Ledger {
    Ledger { timestamp: step.timestamp, authorized: step.authorized, ..l }
}

/// The ledger after a sequence of steps.
pub open spec fn run(l: Ledger, steps: Seq<Step>) -> Ledger
    decreases steps.len(),
{
    if steps.len() == 0 {
        l
    } else {
        after(at(run(l, steps.drop_last()), steps.last()), steps.last().call)
    }
}

/// Steps keep the storage sound.
pub proof fn histories_keep_soundness(l: Ledger, steps: Seq<Step>)
    requires
        l.store.sound(),
    ensures
        run(l, steps).store.sound(),
    decreases steps.len(),
{
    if steps.len() > 0 {
        histories_keep_soundness(l, steps.drop_last());
        invocations_keep_soundness(
            at(run(l, steps.drop_last()), steps.last()),
            steps.last().call,
        );
    }
}

/// Whatever was invoked on a contract, its storage is sound.
pub proof fn every_reachable_storage_is_sound(l: Ledger, steps: Seq<Step>)
    requires
        l.store == empty_store(),
    ensures
        run(l, steps).store.sound(),
{
    histories_keep_soundness(l, steps);
}

/// The ledger that the last of some steps finds.
pub open spec fn before_last(l: Ledger, steps: Seq<Step>) -> Ledger {
    at(run(l, steps.drop_last()), steps.last())
}

/// Once published, a result never changes.
pub proof fn results_are_final_forever(l: Ledger, steps: Seq<Step>, ballot: Seq<u8>)
    requires
        l.store.result_hashes.contains_key(ballot),
    ensures
        run(l, steps).store.result_hashes.contains_key(ballot),
        run(l, steps).store.result_hashes[ballot] == l.store.result_hashes[ballot],
    decreases steps.len(),
{
    if steps.len() > 0 {
        results_are_final_forever(l, steps.drop_last(), ballot);
        published_results_are_final(before_last(l, steps), steps.last().call, ballot);
    }
}

/// Once executed or cancelled, an operation never changes, and no approval of it is accepted.
pub proof fn settled_operations_stay_forever(
    l: Ledger,
    steps: Seq<Step>,
    id: u64,
    approver: Address,
)
    requires
        l.store.sound(),
        l.store.operations.contains_key(id),
        l.store.operations[id].status != OperationStatus::Pending,
    ensures
        run(l, steps).store.operations.contains_key(id),
        run(l, steps).store.operations[id] == l.store.operations[id],
        run(l, steps).store.supporters(id) == l.store.supporters(id),
        refusal(run(l, steps), (Call::ApproveOperation { id, approver })) == Some(
            ContractError::OperationNotPending,
        ),
    decreases steps.len(),
{
    if steps.len() > 0 {
        settled_operations_stay_forever(l, steps.drop_last(), id, approver);
        histories_keep_soundness(l, steps.drop_last());
        settled_operations_stay(before_last(l, steps), steps.last().call, id, approver);
        operations_keep_their_terms(before_last(l, steps), steps.last().call, id);
    }
}

/// An operation keeps for good what it was proposed with, whatever is configured later.
pub proof fn operations_keep_their_terms_forever(l: Ledger, steps: Seq<Step>, id: u64)
    requires
        l.store.sound(),
        l.store.operations.contains_key(id),
    ensures
        run(l, steps).store.operations.contains_key(id),
        run(l, steps).store.operations[id] == (PendingView {
            approval_count: run(l, steps).store.operations[id].approval_count,
            status: run(l, steps).store.operations[id].status,
            ..l.store.operations[id]
        }),
        run(l, steps).store.entitled(id) == l.store.entitled(id),
    decreases steps.len(),
{
    if steps.len() > 0 {
        operations_keep_their_terms_forever(l, steps.drop_last(), id);
        histories_keep_soundness(l, steps.drop_last());
        operations_keep_their_terms(before_last(l, steps), steps.last().call, id);
    }
}

/// An operation that is still pending when it expires is never executed.
pub proof fn expired_operations_are_never_executed(l: Ledger, steps: Seq<Step>, id: u64)
    requires
        l.store.sound(),
        l.store.operations.contains_key(id),
        l.store.operations[id].status != OperationStatus::Executed,
        forall|i: int|
            0 <= i < steps.len() ==> (#[trigger] steps[i]).timestamp
                > l.store.operations[id].expires_at,
    ensures
        run(l, steps).store.operations.contains_key(id),
        run(l, steps).store.operations[id].status != OperationStatus::Executed,
    decreases steps.len(),
{
    if steps.len() > 0 {
        let shorter = steps.drop_last();
        assert forall|i: int| 0 <= i < shorter.len() implies (#[trigger] shorter[i]).timestamp
            > l.store.operations[id].expires_at by {
            assert(shorter[i] == steps[i]);
        }
        expired_operations_are_never_executed(l, shorter, id);
        operations_keep_their_terms_forever(l, shorter, id);
        histories_keep_soundness(l, shorter);
        let found = before_last(l, steps);
        operations_keep_their_terms(found, steps.last().call, id);
        if found.store.operations[id].status == OperationStatus::Pending {
            assert(steps[steps.len() - 1] == steps.last());
            expired_operations_are_not_executed(found, steps.last().call, id);
        } else {
            settled_operations_stay(
                found,
                steps.last().call,
                id,
                found.store.operations[id].proposer,
            );
        }
    }
}

/// An approval once given stands, and a second one by the same approver is refused for good.
pub proof fn approvals_stand_forever(l: Ledger, steps: Seq<Step>, id: u64, approver: Address)
    requires
        l.store.has_approved(id, approver),
    ensures
        run(l, steps).store.has_approved(id, approver),
        refusal(run(l, steps), (Call::ApproveOperation { id, approver })) is Some,
    decreases steps.len(),
{
    if steps.len() > 0 {
        approvals_stand_forever(l, steps.drop_last(), id, approver);
        approvals_stand_and_count_once(before_last(l, steps), steps.last().call, id, approver);
    }
}

/// Once initialized, the contract can never be initialized again.
pub proof fn initialization_is_final_forever(l: Ledger, steps: Seq<Step>, admin: Address)
    requires
        l.store.admin is Some,
    ensures
        run(l, steps).store.admin is Some,
        run(l, steps).store.initialized_at == l.store.initialized_at,
        refusal(run(l, steps), (Call::Initialize { admin })) == Some(
            ContractError::AlreadyInitialized,
        ),
    decreases steps.len(),
{
    if steps.len() > 0 {
        initialization_is_final_forever(l, steps.drop_last(), admin);
        initialization_is_final(before_last(l, steps), steps.last().call, admin);
    }
}

/// A ballot's counters never shrink and never pass the limits that it was recorded with.
pub proof fn counters_stay_within_limits_forever(l: Ledger, steps: Seq<Step>, ballot: Seq<u8>)
    requires
        l.store.sound(),
        l.store.ballot_metadata.contains_key(ballot),
    ensures
        ({
            let s = run(l, steps).store;
            let limits = l.store.ballot_metadata[ballot].limits;
            &&& s.ballot_metadata.contains_key(ballot)
            &&& s.ballot_metadata[ballot].limits == limits
            &&& l.store.tokens(ballot) <= s.tokens(ballot) <= limits.max_tokens
            &&& l.store.votes(ballot) <= s.votes(ballot) <= limits.max_votes
        }),
    decreases steps.len(),
{
    assert(l.store.ballot_sound(ballot));
    if steps.len() > 0 {
        counters_stay_within_limits_forever(l, steps.drop_last(), ballot);
        histories_keep_soundness(l, steps.drop_last());
        counters_grow_one_by_one(before_last(l, steps), steps.last().call, ballot);
        ballots_keep_their_terms(before_last(l, steps), steps.last().call, ballot);
    }
}

/// Once the admin ended a ballot, its counters stand still for good.
pub proof fn ended_ballots_stand_still_forever(l: Ledger, steps: Seq<Step>, ballot: Seq<u8>)
    requires
        l.store.sound(),
        l.store.expired(ballot),
    ensures
        run(l, steps).store.expired(ballot),
        run(l, steps).store.tokens(ballot) == l.store.tokens(ballot),
        run(l, steps).store.votes(ballot) == l.store.votes(ballot),
    decreases steps.len(),
{
    if steps.len() > 0 {
        ended_ballots_stand_still_forever(l, steps.drop_last(), ballot);
        histories_keep_soundness(l, steps.drop_last());
        ended_ballots_stand_still(before_last(l, steps), steps.last().call, ballot);
    }
}

/// The trail of events is only ever extended.
pub proof fn events_are_never_withdrawn_later(l: Ledger, steps: Seq<Step>)
    ensures
        l.events.len() <= run(l, steps).events.len(),
        run(l, steps).events.take(l.events.len() as int) == l.events,
    decreases steps.len(),
{
    let n = l.events.len() as int;
    if steps.len() == 0 {
        assert(l.events.take(n) =~= l.events);
    } else {
        events_are_never_withdrawn_later(l, steps.drop_last());
        let found = before_last(l, steps);
        events_are_never_withdrawn(found, steps.last().call);
        let events = run(l, steps).events;
        assert(events.take(n) =~= events.take(found.events.len() as int).take(n));
    }
}

/// All code that the contract was ever replaced with goes back to an executed operation that
/// asked for it.
pub proof fn installed_code_was_approved(l: Ledger, steps: Seq<Step>)
    requires
        l.store == empty_store(),
        l.installed_wasm is None,
    ensures
        run(l, steps).installed_wasm matches Some(wasm) ==> run(l, steps).store.carried_out(
            OperationView::UpgradeScheduling(wasm),
        ),
    decreases steps.len(),
{
    if steps.len() > 0 {
        let found = before_last(l, steps);
        let call = steps.last().call;
        installed_code_was_approved(l, steps.drop_last());
        every_reachable_storage_is_sound(l, steps.drop_last());
        if let Some(wasm) = after(found, call).installed_wasm {
            assert(found.store.carried_out(OperationView::UpgradeScheduling(wasm)));
            executions_stand(found, call, OperationView::UpgradeScheduling(wasm));
        }
    }
}

/// The ledger after each of some approvers approved the operation `id`.
pub open spec fn approved_by(l: Ledger, id: u64, approvers: Seq<Address>) -> Ledger
    decreases approvers.len(),
{
    if approvers.len() == 0 {
        l
    } else {
        after(
            approved_by(l, id, approvers.drop_last()),
            (Call::ApproveOperation { id, approver: approvers.last() }),
        )
    }
}

/// Whether `approvers` are distinct, entitled, authorize their approvals and have not approved
/// the operation `id` yet.
pub open spec fn ready_to_approve(l: Ledger, id: u64, approvers: Seq<Address>) -> bool {
    &&& approvers.no_duplicates()
    &&& forall|i: int|
        0 <= i < approvers.len() ==> {
            &&& l.store.may_approve(id, #[trigger] approvers[i])
            &&& !l.store.has_approved(id, approvers[i])
            &&& l.authorized.contains(approvers[i])
        }
}

proof fn lemma_approvals_short_of_the_quorum(l: Ledger, id: u64, approvers: Seq<Address>)
    requires
        l.store.operations.contains_key(id),
        l.store.operations[id].status == OperationStatus::Pending,
        l.timestamp <= l.store.operations[id].expires_at,
        ready_to_approve(l, id, approvers),
        l.store.operations[id].approval_count + approvers.len() < l.store.operations[id].threshold,
    ensures
        ({
            let m = approved_by(l, id, approvers);
            let p = l.store.operations[id];
            &&& m.store.operations == l.store.operations.insert(
                id,
                PendingView { approval_count: (p.approval_count + approvers.len()) as u32, ..p },
            )
            &&& m.timestamp == l.timestamp
            &&& m.authorized == l.authorized
            &&& m.store == (Store {
                operations: m.store.operations,
                approvals: m.store.approvals,
                ..l.store
            })
            &&& forall|a: Address| #[trigger]
                m.store.has_approved(id, a) == (l.store.has_approved(id, a) || approvers.contains(
                    a,
                ))
        }),
    decreases approvers.len(),
{
    let p = l.store.operations[id];
    let m = approved_by(l, id, approvers);
    if approvers.len() == 0 {
        assert(m.store.operations =~= l.store.operations.insert(id, p));
    } else {
        let shorter = approvers.drop_last();
        let a = approvers.last();
        assert forall|i: int| 0 <= i < shorter.len() implies {
            &&& l.store.may_approve(id, #[trigger] shorter[i])
            &&& !l.store.has_approved(id, shorter[i])
            &&& l.authorized.contains(shorter[i])
        } by {
            assert(shorter[i] == approvers[i]);
        }
        lemma_approvals_short_of_the_quorum(l, id, shorter);
        let n = approved_by(l, id, shorter);
        assert(approvers[approvers.len() - 1] == a);
        assert(!shorter.contains(a)) by {
            if shorter.contains(a) {
                let j = choose|j: int| 0 <= j < shorter.len() && shorter[j] == a;
                assert(approvers[j] == approvers[approvers.len() - 1]);
            }
        }
        assert(!n.store.has_approved(id, a));
        assert(goes_through(n, (Call::ApproveOperation { id, approver: a })));
        assert(m.store.operations =~= l.store.operations.insert(
            id,
            PendingView { approval_count: (p.approval_count + approvers.len()) as u32, ..p },
        ));
        assert forall|b: Address| #[trigger]
            m.store.has_approved(id, b) == (l.store.has_approved(id, b) || approvers.contains(
                b,
            )) by {
            assert(approvers.contains(b) == (shorter.contains(b) || b == a)) by {
                if shorter.contains(b) {
                    let j = choose|j: int| 0 <= j < shorter.len() && shorter[j] == b;
                    assert(approvers[j] == b);
                }
                if approvers.contains(b) && b != a {
                    let j = choose|j: int| 0 <= j < approvers.len() && approvers[j] == b;
                    assert(shorter[j] == b);
                }
            }
            assert(n.store.has_approved(id, b) == (l.store.has_approved(id, b)
                || shorter.contains(b)));
        }
    }
}

/// A pending operation is executed by as many distinct entitled approvers as its threshold still
/// lacks: it stays pending until the last of them and is executed with that one, provided that
/// it has not expired and that it can be carried out.
pub proof fn a_quorum_executes(l: Ledger, id: u64, approvers: Seq<Address>)
    requires
        l.store.sound(),
        l.store.operations.contains_key(id),
        l.store.operations[id].status == OperationStatus::Pending,
        l.timestamp <= l.store.operations[id].expires_at,
        execution_refusal(l.store, l.store.operations[id].operation) is None,
        l.store.operations[id].operation is UpgradeScheduling ==> l.timestamp
            + UPGRADE_TIME_LOCK_SECONDS <= u64::MAX,
        ready_to_approve(l, id, approvers),
        l.store.operations[id].approval_count + approvers.len() == l.store.operations[id].threshold,
    ensures
        approvers.len() > 0,
        approved_by(l, id, approvers.drop_last()).store.operations[id].status
            == OperationStatus::Pending,
        goes_through(
            approved_by(l, id, approvers.drop_last()),
            (Call::ApproveOperation { id, approver: approvers.last() }),
        ),
        approved_by(l, id, approvers).store.operations[id].status == OperationStatus::Executed,
{
    assert(l.store.operation_sound(id));
    let shorter = approvers.drop_last();
    let a = approvers.last();
    assert forall|i: int| 0 <= i < shorter.len() implies {
        &&& l.store.may_approve(id, #[trigger] shorter[i])
        &&& !l.store.has_approved(id, shorter[i])
        &&& l.authorized.contains(shorter[i])
    } by {
        assert(shorter[i] == approvers[i]);
    }
    lemma_approvals_short_of_the_quorum(l, id, shorter);
    let n = approved_by(l, id, shorter);
    assert(approvers[approvers.len() - 1] == a);
    assert(!shorter.contains(a)) by {
        if shorter.contains(a) {
            let j = choose|j: int| 0 <= j < shorter.len() && shorter[j] == a;
            assert(approvers[j] == approvers[approvers.len() - 1]);
        }
    }
    assert(!n.store.has_approved(id, a));
    assert(completes(n.store.operations[id]));
}

} // verus!
