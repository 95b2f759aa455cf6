//! What holds of the contract's storage at every moment.

use vstd::prelude::*;
use crate::ledger::Ledger;
use crate::ledger::Store;
use crate::ledger::empty_store;
use crate::rules::Call;
use crate::rules::after;
use crate::rules::approve_effect;
use crate::rules::completes;
use crate::rules::create_effect;
use crate::rules::goes_through;
use crate::types::APPROVAL_EXPIRATION_SECONDS;
use crate::types::Address;
use crate::types::BallotState;
use crate::types::OperationStatus;
use crate::types::OperationView;
use crate::types::UPGRADE_TIME_LOCK_SECONDS;

verus! {

impl Store {
    /// Who may approve the operation `id`.
    pub open spec fn entitled(self, id: u64) -> Set<Address> {
        Set::new(|a: Address| self.may_approve(id, a))
    }

    /// Who approved the operation `id`.
    pub open spec fn supporters(self, id: u64) -> Set<Address> {
        Set::new(|a: Address| self.has_approved(id, a))
    }

    /// The configuration for the operations to come is a proper M-of-N.
    pub open spec fn configuration_sound(self) -> bool {
        &&& self.approvers matches Some(approvers)
        &&& self.approval_threshold matches Some(threshold)
        &&& approvers.no_duplicates()
        &&& 1 <= threshold <= approvers.len()
    }

    /// Approvals are counted, each approver once, and only entitled ones. The count stays below
    /// the threshold until the operation is executed, and equals it from then on.
    pub open spec fn operation_sound(self, id: u64) -> bool {
        let p = self.operations[id];
        &&& p.id == id
        &&& id < self.next_operation()
        &&& p.expires_at == p.created_at + APPROVAL_EXPIRATION_SECONDS
        &&& self.entitled(id).finite()
        &&& self.supporters(id).finite()
        &&& self.supporters(id).subset_of(self.entitled(id))
        &&& 1 <= p.threshold <= self.entitled(id).len()
        &&& p.approval_count == self.supporters(id).len()
        &&& match p.status {
            OperationStatus::Executed => p.approval_count == p.threshold,
            _ => p.approval_count < p.threshold,
        }
        &&& p.operation matches OperationView::ResultPublication(ballot, result) ==> {
            &&& self.ballot_metadata.contains_key(ballot)
            &&& result.len() > 0
        }
    }

    /// A recorded ballot has both counters, each within its limit, and a result exactly if its
    /// state says so.
    pub open spec fn ballot_sound(self, ballot: Seq<u8>) -> bool {
        let m = self.ballot_metadata[ballot];
        &&& ballot.len() > 0
        &&& self.tokens_issued.contains_key(ballot)
        &&& self.votes_cast.contains_key(ballot)
        &&& self.tokens(ballot) <= m.limits.max_tokens
        &&& self.votes(ballot) <= m.limits.max_votes
        &&& (m.state == BallotState::ResultPublished) == self.result_hashes.contains_key(ballot)
    }

    /// What is stored belongs to an operation or a ballot that is stored too.
    pub open spec fn no_strays(self) -> bool {
        &&& forall|id: u64| id < self.next_operation() ==> #[trigger] self.operations.contains_key(id)
        &&& forall|id: u64, a: Address| #[trigger]
            self.may_approve(id, a) ==> self.operations.contains_key(id)
        &&& forall|id: u64, a: Address| #[trigger]
            self.has_approved(id, a) ==> self.operations.contains_key(id)
        &&& forall|b: Seq<u8>| #[trigger]
            self.tokens_issued.contains_key(b) ==> self.ballot_metadata.contains_key(b)
        &&& forall|b: Seq<u8>| #[trigger]
            self.votes_cast.contains_key(b) ==> self.ballot_metadata.contains_key(b)
        &&& forall|b: Seq<u8>| #[trigger]
            self.result_hashes.contains_key(b) ==> self.ballot_metadata.contains_key(b)
                && self.result_hashes[b].len() > 0
        &&& forall|b: Seq<u8>| #[trigger]
            self.ballot_expired.contains_key(b) ==> self.ballot_metadata.contains_key(b)
    }

    /// Whether `operation` was proposed as `id` and executed.
    pub open spec fn executed_as(self, id: u64, operation: OperationView) -> bool {
        &&& self.operations.contains_key(id)
        &&& self.operations[id].status == OperationStatus::Executed
        &&& self.operations[id].operation == operation
    }

    /// Whether `operation` was proposed and executed.
    pub open spec fn carried_out(self, operation: OperationView) -> bool {
        exists|id: u64| self.executed_as(id, operation)
    }

    /// A published result, a pause and a scheduled upgrade each go back to an executed operation.
    pub open spec fn critical_state_backed(self) -> bool {
        &&& forall|b: Seq<u8>| #[trigger]
            self.result_hashes.contains_key(b) ==> self.carried_out(
                OperationView::ResultPublication(b, self.result_hashes[b]),
            )
        &&& self.paused() ==> self.carried_out(OperationView::Pause)
        &&& self.pending_upgrade matches Some(u) ==> self.carried_out(
            OperationView::UpgradeScheduling(u.new_wasm_hash),
        )
    }

    /// A scheduled upgrade waits for the whole time lock.
    pub open spec fn upgrade_sound(self) -> bool {
        self.pending_upgrade matches Some(u) ==> u.executable_at == u.scheduled_at
            + UPGRADE_TIME_LOCK_SECONDS
    }

    /// What holds of the storage at every moment.
    pub open spec fn sound(self) -> bool {
        if self.admin is None {
            self == empty_store()
        } else {
            &&& self.configuration_sound()
            &&& self.upgrade_sound()
            &&& self.no_strays()
            &&& self.critical_state_backed()
            &&& forall|id: u64| #[trigger]
                self.operations.contains_key(id) ==> self.operation_sound(id)
            &&& forall|b: Seq<u8>| #[trigger]
                self.ballot_metadata.contains_key(b) ==> self.ballot_sound(b)
        }
    }
}

/// The storage of a contract that was never invoked is sound.
pub proof fn untouched_storage_is_sound()
    ensures
        empty_store().sound(),
{
}

/// What was carried out stays so.
pub proof fn executions_stand(l: Ledger, call: Call, operation: OperationView)
    requires
        l.store.sound(),
        l.store.carried_out(operation),
    ensures
        after(l, call).store.carried_out(operation),
{
    let id = choose|id: u64| l.store.executed_as(id, operation);
    assert(l.store.operation_sound(id));
    assert(after(l, call).store.executed_as(id, operation));
}

proof fn lemma_critical_state_stays_backed(l: Ledger, call: Call)
    requires
        l.store.sound(),
    ensures
        after(l, call).store.admin is Some ==> after(l, call).store.critical_state_backed(),
{
    let s = l.store;
    let t = after(l, call).store;
    if s.admin is Some {
        assert forall|operation: OperationView| s.carried_out(
            operation,
        ) implies #[trigger] t.carried_out(operation) by {
            executions_stand(l, call, operation);
        }
        if let Call::ApproveOperation { id, approver } = call {
            if goes_through(l, call) && completes(s.operations[id]) {
                assert(t.executed_as(id, s.operations[id].operation));
            }
        }
        assert forall|b: Seq<u8>| #[trigger] t.result_hashes.contains_key(b) implies t.carried_out(
            OperationView::ResultPublication(b, t.result_hashes[b]),
        ) by {
            if s.result_hashes.contains_key(b) {
                assert(s.carried_out(OperationView::ResultPublication(b, s.result_hashes[b])));
            }
        }
    }
}

proof fn lemma_create_keeps_soundness(l: Ledger, caller: Address, operation: OperationView)
    requires
        l.store.sound(),
        goes_through(l, (Call::CreateOperation { caller, operation })),
    ensures
        create_effect(l, caller, operation).store.sound(),
{
    lemma_critical_state_stays_backed(l, (Call::CreateOperation { caller, operation }));
    let s = l.store;
    let t = create_effect(l, caller, operation).store;
    let id = s.next_operation();
    let approvers = s.approvers->0;
    assert(t.entitled(id) =~= approvers.to_set()) by {
        assert forall|a: Address| t.may_approve(id, a) == approvers.contains(a) by {
            assert(!s.may_approve(id, a)) by {
                if s.may_approve(id, a) {
                    assert(s.operation_sound(id));
                }
            }
        }
    }
    approvers.unique_seq_to_set();
    assert(approvers.to_set().finite()) by {
        vstd::seq_lib::seq_to_set_is_finite(approvers);
    }
    assert(t.supporters(id) =~= Set::empty()) by {
        assert forall|a: Address| !t.has_approved(id, a) by {
            if s.has_approved(id, a) {
                assert(s.operation_sound(id));
            }
        }
    }
    assert(t.operation_sound(id));
    assert forall|i: u64| #[trigger] t.operations.contains_key(i) implies t.operation_sound(i) by {
        if i != id {
            assert(s.operations.contains_key(i));
            assert(s.operation_sound(i));
            assert(t.entitled(i) =~= s.entitled(i));
            assert(t.supporters(i) =~= s.supporters(i));
        }
    }
    assert forall|b: Seq<u8>| #[trigger] t.ballot_metadata.contains_key(b) implies t.ballot_sound(
        b,
    ) by {
        assert(s.ballot_sound(b));
    }
    assert(t.no_strays()) by {
        assert forall|i: u64| i < t.next_operation() implies #[trigger] t.operations.contains_key(
            i,
        ) by {
            if i != id {
                assert(s.operations.contains_key(i));
            }
        }
        assert forall|i: u64, a: Address| #[trigger]
            t.may_approve(i, a) implies t.operations.contains_key(i) by {
            if i != id {
                assert(s.may_approve(i, a));
            }
        }
        assert forall|i: u64, a: Address| #[trigger]
            t.has_approved(i, a) implies t.operations.contains_key(i) by {
            assert(s.has_approved(i, a));
        }
    }
}

proof fn lemma_approve_keeps_soundness(l: Ledger, id: u64, approver: Address)
    requires
        l.store.sound(),
        goes_through(l, (Call::ApproveOperation { id, approver })),
    ensures
        approve_effect(l, id, approver).store.sound(),
{
    lemma_critical_state_stays_backed(l, (Call::ApproveOperation { id, approver }));
    let s = l.store;
    let t = approve_effect(l, id, approver).store;
    let p = s.operations[id];
    assert(s.operation_sound(id));
    assert(s.ballot_metadata.dom().subset_of(t.ballot_metadata.dom()));
    assert(t.supporters(id) =~= s.supporters(id).insert(approver));
    assert(t.entitled(id) =~= s.entitled(id));
    assert(t.operation_sound(id));
    assert forall|i: u64| #[trigger] t.operations.contains_key(i) implies t.operation_sound(i) by {
        if i != id {
            assert(s.operations.contains_key(i));
            assert(s.operation_sound(i));
            assert(t.entitled(i) =~= s.entitled(i));
            assert(t.supporters(i) =~= s.supporters(i));
        }
    }
    assert forall|b: Seq<u8>| #[trigger] t.ballot_metadata.contains_key(b) implies t.ballot_sound(
        b,
    ) by {
        assert(s.ballot_metadata.contains_key(b));
        assert(s.ballot_sound(b));
    }
    assert(t.no_strays()) by {
        assert forall|i: u64, a: Address| #[trigger]
            t.may_approve(i, a) implies t.operations.contains_key(i) by {
            assert(s.may_approve(i, a));
        }
        assert forall|i: u64, a: Address| #[trigger]
            t.has_approved(i, a) implies t.operations.contains_key(i) by {
            if i != id {
                assert(s.has_approved(i, a));
            }
        }
    }
}

/// Every invocation keeps the storage sound.
pub proof fn invocations_keep_soundness(l: Ledger, call: Call)
    requires
        l.store.sound(),
    ensures
        after(l, call).store.sound(),
{
    if goes_through(l, call) {
        match call {
            Call::CreateOperation { caller, operation } => {
                lemma_create_keeps_soundness(l, caller, operation);
            },
            Call::ApproveOperation { id, approver } => {
                lemma_approve_keeps_soundness(l, id, approver);
            },
            _ => {
                lemma_critical_state_stays_backed(l, call);
                let s = l.store;
                let t = after(l, call).store;
                assert forall|i: u64| #[trigger]
                    t.operations.contains_key(i) implies t.operation_sound(i) by {
                    assert(s.operations.contains_key(i));
                    assert(s.operation_sound(i));
                    assert(t.entitled(i) =~= s.entitled(i));
                    assert(t.supporters(i) =~= s.supporters(i));
                }
                assert forall|b: Seq<u8>| #[trigger]
                    t.ballot_metadata.contains_key(b) implies t.ballot_sound(b) by {
                    if s.ballot_metadata.contains_key(b) {
                        assert(s.ballot_sound(b));
                    } else {
                        assert(!s.result_hashes.contains_key(b));
                    }
                }
                assert(t.no_strays()) by {
                    assert forall|i: u64, a: Address| #[trigger]
                        t.may_approve(i, a) implies t.operations.contains_key(i) by {
                        assert(s.may_approve(i, a));
                    }
                    assert forall|i: u64, a: Address| #[trigger]
                        t.has_approved(i, a) implies t.operations.contains_key(i) by {
                        assert(s.has_approved(i, a));
                    }
                }
            },
        }
    }
}

} // verus!
