//! What each invocation is for: when it is accepted, which error it meets otherwise, and what it
//! leaves behind, said of the entries of the storage themselves.

use vstd::prelude::*;
use crate::events::EventView;
use crate::ledger::Ledger;
use crate::ledger::Store;
use crate::rules::after;
use crate::rules::answered;
use crate::rules::clock_holds;
use crate::rules::completes;
use crate::rules::goes_through;
use crate::rules::lookup;
use crate::rules::outcome;
use crate::rules::refusal;
use crate::rules::signer;
use crate::rules::Call;
use crate::types::Address;
use crate::types::BallotLimits;
use crate::types::BallotMetadata;
use crate::types::BallotState;
use crate::types::ContractError;
use crate::types::OperationStatus;
use crate::types::OperationView;
use crate::types::PendingUpgrade;
use crate::types::PendingView;

verus! {

/// An invocation returns its error if it meets one, and its value otherwise.
pub proof fn an_outcome_is_the_error_or_the_value<T>(error: ContractError, value: T)
    ensures
        outcome(Some(error), value) == Err::<T, ContractError>(error),
        outcome(None, value) == Ok::<T, ContractError>(value),
{
}

/// No invocation touches the clock or the authorizations under which it is made.
pub proof fn invocations_keep_their_surroundings(l: Ledger, call: Call)
    ensures
        after(l, call).timestamp == l.timestamp,
        after(l, call).authorized == l.authorized,
        !(call is ExecuteUpgrade) ==> after(l, call).installed_wasm == l.installed_wasm,
{
}

/// Every invocation but the initialization and the execution of an upgrade has to be authorized
/// by the one in whose name it is made. One that is authorized is answered, unless it would be
/// accepted and set a deadline beyond the end of the clock: seven days for a proposal, 48 hours
/// for the approval that schedules an upgrade.
pub proof fn invocations_answered(l: Ledger, call: Call)
    ensures
        signer(call) == match call {
            Call::Initialize { .. } => None,
            Call::ExecuteUpgrade => None,
            Call::ApproveOperation { approver, .. } => Some(approver),
            Call::ConfigureApprovals { caller, .. } => Some(caller),
            Call::CreateOperation { caller, .. } => Some(caller),
            Call::CancelOperation { caller, .. } => Some(caller),
            Call::RecordBallot { caller, .. } => Some(caller),
            Call::RecordToken { caller, .. } => Some(caller),
            Call::RecordVote { caller, .. } => Some(caller),
            Call::ExpireBallot { caller, .. } => Some(caller),
            Call::CancelUpgrade { caller } => Some(caller),
            Call::Resume { caller } => Some(caller),
        },
        answered(l, call) == {
            &&& signer(call) is Some ==> l.authorized.contains(signer(call)->0)
            &&& refusal(l, call) is None && call is CreateOperation ==> l.timestamp + 604_800
                <= u64::MAX
            &&& refusal(l, call) is None && (call matches Call::ApproveOperation { id, .. } && {
                &&& l.store.operations[id].approval_count + 1 >= l.store.operations[id].threshold
                &&& l.store.operations[id].operation is UpgradeScheduling
            }) ==> l.timestamp + 172_800 <= u64::MAX
        },
        goes_through(l, call) == (answered(l, call) && refusal(l, call) is None),
        !goes_through(l, call) ==> after(l, call) == l,
{
}

// Set-up and governance

/// The contract is initialized exactly if it has no admin yet. It then has the given admin, who
/// is its sole approver, with a threshold of one; it is not paused, and its first operation will
/// be number zero.
pub proof fn initializing(l: Ledger, admin: Address)
    ensures
        ({
            let call = Call::Initialize { admin };
            let t = after(l, call);
            &&& l.store.admin is Some ==> refusal(l, call) == Some(
                ContractError::AlreadyInitialized,
            ) && !goes_through(l, call)
            &&& l.store.admin is None ==> refusal(l, call) is None && goes_through(l, call)
            &&& l.store.admin is None ==> t.events == l.events && t.store.admin == Some(admin)
                && t.store.initialized_at == Some(l.timestamp) && t.store.is_paused == Some(false)
                && t.store.approvers == Some(seq![admin]) && t.store.approval_threshold == Some(
                1u32,
            ) && t.store.operation_nonce == Some(0u64)
            &&& l.store.admin is Some ==> t == l
            &&& t.store == (Store {
                admin: t.store.admin,
                initialized_at: t.store.initialized_at,
                is_paused: t.store.is_paused,
                approvers: t.store.approvers,
                approval_threshold: t.store.approval_threshold,
                operation_nonce: t.store.operation_nonce,
                ..l.store
            })
        }),
{
}

/// A configuration of the admin is accepted exactly if it is a proper M-of-N of distinct
/// approvers. From then on those are the approvers and `m` is the threshold, whatever `m` and `n`
/// are; nothing else changes.
pub proof fn configuring(l: Ledger, caller: Address, approvers: Seq<Address>, m: u32, n: u32)
    ensures
        ({
            let call = Call::ConfigureApprovals { caller, approvers, m, n };
            let t = after(l, call);
            let proper = 1 <= m && m <= n && approvers.len() == n;
            let distinct = forall|i: int, j: int|
                0 <= i < j < approvers.len() ==> approvers[i] != approvers[j];
            &&& l.store.admin is None ==> refusal(l, call) == Some(ContractError::NotInitialized)
            &&& l.store.admin is Some && l.store.admin != Some(caller) ==> refusal(l, call)
                == Some(ContractError::AdminUnauthorized)
            &&& l.store.admin == Some(caller) && !proper ==> refusal(l, call) == Some(
                ContractError::InvalidApprovalConfig,
            )
            &&& l.store.admin == Some(caller) && proper && !distinct ==> refusal(l, call) == Some(
                ContractError::DuplicateApprover,
            )
            &&& l.store.admin == Some(caller) && proper && distinct ==> refusal(l, call) is None
            &&& goes_through(l, call) == (refusal(l, call) is None && l.authorized.contains(caller))
            &&& goes_through(l, call) ==> t.store == (Store {
                approvers: Some(approvers),
                approval_threshold: Some(m),
                ..l.store
            }) && t.events == l.events.push(EventView::ApprovalConfigured(caller, m, n))
            &&& !goes_through(l, call) ==> t == l
        }),
{
    if forall|i: int, j: int| 0 <= i < j < approvers.len() ==> approvers[i] != approvers[j] {
        assert(approvers.no_duplicates());
    }
}

/// A proposal of the admin is accepted exactly if a result is for a recorded ballot, not empty
/// and no other than one already published, if no upgrade waits where one is to be scheduled, if
/// there is an identifier left and the approvers are configured.
pub proof fn proposals_accepted(l: Ledger, caller: Address, operation: OperationView)
    ensures
        ({
            let call = Call::CreateOperation { caller, operation };
            let admin = l.store.admin == Some(caller);
            let sensible = match operation {
                OperationView::ResultPublication(ballot, result) => {
                    &&& l.store.ballot_metadata.contains_key(ballot)
                    &&& result.len() > 0
                    &&& l.store.result_hashes.contains_key(ballot) ==> l.store.result_hashes[ballot]
                        == result
                },
                OperationView::UpgradeScheduling(_) => l.store.pending_upgrade is None,
                OperationView::AdminRotation(_) => true,
                OperationView::Pause => true,
            };
            let numbered = l.store.operation_nonce != Some(u64::MAX);
            let configured = l.store.approvers is Some && l.store.approval_threshold is Some;
            &&& l.store.admin is None ==> refusal(l, call) == Some(ContractError::NotInitialized)
            &&& l.store.admin is Some && !admin ==> refusal(l, call) == Some(
                ContractError::AdminUnauthorized,
            )
            &&& admin ==> match operation {
                OperationView::ResultPublication(ballot, result) => {
                    &&& !l.store.ballot_metadata.contains_key(ballot) ==> refusal(l, call) == Some(
                        ContractError::BallotNotFound,
                    )
                    &&& l.store.ballot_metadata.contains_key(ballot) && result.len() == 0
                        ==> refusal(l, call) == Some(ContractError::InvalidBallotHash)
                    &&& l.store.ballot_metadata.contains_key(ballot) && result.len() > 0
                        && l.store.result_hashes.contains_key(ballot)
                        && l.store.result_hashes[ballot] != result ==> refusal(l, call) == Some(
                        ContractError::ResultAlreadyPublished,
                    )
                },
                OperationView::UpgradeScheduling(_) => l.store.pending_upgrade is Some ==> refusal(
                    l,
                    call,
                ) == Some(ContractError::UpgradeAlreadyScheduled),
                _ => true,
            }
            &&& admin && sensible && !numbered ==> refusal(l, call) == Some(
                ContractError::CounterOverflow,
            )
            &&& admin && sensible && numbered && !configured ==> refusal(l, call) == Some(
                ContractError::NotInitialized,
            )
            &&& (refusal(l, call) is None) == (admin && sensible && numbered && configured)
            &&& clock_holds(l, call) == (refusal(l, call) is None ==> l.timestamp + 604_800
                <= u64::MAX)
            &&& goes_through(l, call) == (refusal(l, call) is None && l.authorized.contains(caller)
                && l.timestamp + 604_800 <= u64::MAX)
            &&& !goes_through(l, call) ==> after(l, call) == l
        }),
{
}

/// A proposal is kept under the next identifier exactly as it was made: with the operation that
/// was proposed, its proposer, the threshold of this moment and seven days to approve it, pending
/// and without an approval. Exactly the approvers of this moment may approve it.
pub proof fn proposals_are_kept_as_made(l: Ledger, caller: Address, operation: OperationView)
    requires
        goes_through(l, (Call::CreateOperation { caller, operation })),
    ensures
        ({
            let t = after(l, (Call::CreateOperation { caller, operation }));
            let id: u64 = match l.store.operation_nonce {
                Some(n) => n,
                None => 0,
            };
            let p = t.store.operations[id];
            &&& l.store.next_operation() == id
            &&& t.store.operations == l.store.operations.insert(id, p)
            &&& p.operation == operation
            &&& p.proposer == caller
            &&& Some(p.threshold) == l.store.approval_threshold
            &&& p.status == OperationStatus::Pending
            &&& p.approval_count == 0
            &&& p.id == id
            &&& p.created_at == l.timestamp
            &&& p.expires_at == l.timestamp + 604_800
            &&& t.store.operation_nonce matches Some(next) && next == id + 1
            &&& forall|i: u64, a: Address| #[trigger]
                t.store.operation_approvers.contains_key((i, a)) == (
                l.store.operation_approvers.contains_key((i, a)) || (i == id
                    && l.store.approvers->0.contains(a)))
            &&& forall|i: u64, a: Address|
                (i != id || !l.store.approvers->0.contains(a))
                    && l.store.operation_approvers.contains_key((i, a)) ==> (
                #[trigger] t.store.operation_approvers[(i, a)]) == l.store.operation_approvers[(
                    i,
                    a,
                )]
            &&& forall|a: Address|
                l.store.approvers->0.contains(a) ==> (#[trigger] t.store.operation_approvers[(
                    id,
                    a,
                )]) == true
            &&& t.store == (Store {
                operations: t.store.operations,
                operation_approvers: t.store.operation_approvers,
                operation_nonce: t.store.operation_nonce,
                ..l.store
            })
            &&& t.events == l.events.push(
                EventView::OperationCreated(id, caller, l.timestamp, p.expires_at),
            )
        }),
{
}

/// What is proposed after a configuration takes exactly the configured number of approvals, from
/// exactly the configured approvers: while fewer than `m` were given it stays pending, and the
/// `m`-th executes it.
pub proof fn proposals_follow_the_configuration(
    l: Ledger,
    caller: Address,
    approvers: Seq<Address>,
    m: u32,
    n: u32,
    operation: OperationView,
    given: u32,
    approver: Address,
)
    requires
        l.store.sound(),
        goes_through(l, (Call::ConfigureApprovals { caller, approvers, m, n })),
        goes_through(
            after(l, (Call::ConfigureApprovals { caller, approvers, m, n })),
            (Call::CreateOperation { caller, operation }),
        ),
    ensures
        ({
            let c = after(l, (Call::ConfigureApprovals { caller, approvers, m, n }));
            let id = c.store.next_operation();
            let t = after(c, (Call::CreateOperation { caller, operation }));
            let p = PendingView { approval_count: given, ..t.store.operations[id] };
            let reached = Ledger {
                store: Store { operations: t.store.operations.insert(id, p), ..t.store },
                ..t
            };
            let call = Call::ApproveOperation { id, approver };
            &&& t.store.operation_approvers.contains_key((id, approver)) == approvers.contains(
                approver,
            )
            &&& goes_through(reached, call) ==> approvers.contains(approver)
            &&& goes_through(reached, call) ==> (after(reached, call).store.operations[id].status
                == OperationStatus::Executed) == (given + 1 >= m)
        }),
{
    let c = after(l, (Call::ConfigureApprovals { caller, approvers, m, n }));
    let id = c.store.next_operation();
    configuring(l, caller, approvers, m, n);
    proposals_are_kept_as_made(c, caller, operation);
    if l.store.operation_approvers.contains_key((id, approver)) {
        assert(l.store.may_approve(id, approver));
    }
}

/// An approval is accepted exactly if the operation is pending and not expired, and its giver is
/// entitled, has not approved it before and, where the threshold is reached, the operation can be
/// carried out: there is an admin to replace, the ballot is recorded and has no other result, no
/// upgrade waits.
pub proof fn approvals_accepted(l: Ledger, id: u64, approver: Address)
    ensures
        ({
            let call = Call::ApproveOperation { id, approver };
            let p = l.store.operations[id];
            let known = l.store.operations.contains_key(id);
            let pending = known && p.status == OperationStatus::Pending;
            let timely = pending && l.timestamp <= p.expires_at;
            let entitled = timely && l.store.operation_approvers.contains_key((id, approver));
            let fresh = entitled && !l.store.approvals.contains_key((id, approver));
            let counted = fresh && p.approval_count < u32::MAX;
            let last = p.approval_count + 1 >= p.threshold;
            &&& completes(p) == last
            &&& !known ==> refusal(l, call) == Some(ContractError::OperationNotFound)
            &&& known && !pending ==> refusal(l, call) == Some(ContractError::OperationNotPending)
            &&& pending && !timely ==> refusal(l, call) == Some(ContractError::OperationExpired)
            &&& timely && !entitled ==> refusal(l, call) == Some(
                ContractError::ApproverUnauthorized,
            )
            &&& entitled && !fresh ==> refusal(l, call) == Some(
                ContractError::OperationAlreadyApproved,
            )
            &&& fresh && !counted ==> refusal(l, call) == Some(ContractError::CounterOverflow)
            &&& counted && !last ==> refusal(l, call) is None
            &&& counted && last ==> match p.operation {
                OperationView::AdminRotation(_) => refusal(l, call) == if l.store.admin is Some {
                    None
                } else {
                    Some(ContractError::NotInitialized)
                },
                OperationView::Pause => refusal(l, call) is None,
                OperationView::ResultPublication(ballot, result) => {
                    &&& l.store.result_hashes.contains_key(ballot)
                        && l.store.result_hashes[ballot] == result ==> refusal(l, call) is None
                    &&& l.store.result_hashes.contains_key(ballot)
                        && l.store.result_hashes[ballot] != result ==> refusal(l, call) == Some(
                        ContractError::ResultAlreadyPublished,
                    )
                    &&& !l.store.result_hashes.contains_key(ballot)
                        && l.store.ballot_metadata.contains_key(ballot) ==> refusal(l, call) is None
                    &&& !l.store.result_hashes.contains_key(ballot)
                        && !l.store.ballot_metadata.contains_key(ballot) ==> refusal(l, call)
                        == Some(ContractError::BallotNotFound)
                },
                OperationView::UpgradeScheduling(_) => refusal(l, call)
                    == if l.store.pending_upgrade is None {
                    None
                } else {
                    Some(ContractError::UpgradeAlreadyScheduled)
                },
            }
            &&& clock_holds(l, call) == (refusal(l, call) is None && last
                && p.operation is UpgradeScheduling ==> l.timestamp + 172_800 <= u64::MAX)
            &&& goes_through(l, call) == (refusal(l, call) is None && l.authorized.contains(
                approver,
            ) && clock_holds(l, call))
            &&& !goes_through(l, call) ==> after(l, call) == l
        }),
{
}

/// An approval is kept and counts one. The operation is executed with it exactly if the count
/// reaches the threshold, and stays pending otherwise. No other operation and no other approval
/// is touched.
pub proof fn approvals_count_one(l: Ledger, id: u64, approver: Address)
    requires
        goes_through(l, (Call::ApproveOperation { id, approver })),
    ensures
        ({
            let t = after(l, (Call::ApproveOperation { id, approver })).store;
            let before = l.store.operations[id];
            let now = t.operations[id];
            &&& t.approvals == l.store.approvals.insert((id, approver), true)
            &&& t.operations == l.store.operations.insert(id, now)
            &&& now.approval_count == before.approval_count + 1
            &&& now.status == if now.approval_count >= before.threshold {
                OperationStatus::Executed
            } else {
                OperationStatus::Pending
            }
            &&& now == (PendingView {
                approval_count: now.approval_count,
                status: now.status,
                ..before
            })
            &&& t.operation_approvers == l.store.operation_approvers
            &&& t.operation_nonce == l.store.operation_nonce
            &&& t.approvers == l.store.approvers
            &&& t.approval_threshold == l.store.approval_threshold
            &&& t.initialized_at == l.store.initialized_at
            &&& t.tokens_issued == l.store.tokens_issued
            &&& t.votes_cast == l.store.votes_cast
            &&& t.ballot_expired == l.store.ballot_expired
        }),
{
}

/// The approval that leaves an operation executed has brought it about, whoever gave it: the new
/// admin is the admin, the contract is paused, the result is the ballot's published result, the
/// upgrade is scheduled from this moment. What the operation does not ask for stays as it was,
/// and all of it stays if the operation is still pending.
pub proof fn executed_operations_take_effect(l: Ledger, id: u64, approver: Address)
    requires
        goes_through(l, (Call::ApproveOperation { id, approver })),
    ensures
        ({
            let s = l.store;
            let t = after(l, (Call::ApproveOperation { id, approver })).store;
            let operation = s.operations[id].operation;
            let done = t.operations[id].status == OperationStatus::Executed;
            &&& t.admin == match operation {
                OperationView::AdminRotation(admin) if done => Some(admin),
                _ => s.admin,
            }
            &&& t.is_paused == if done && operation is Pause {
                Some(true)
            } else {
                s.is_paused
            }
            &&& t.pending_upgrade == match operation {
                OperationView::UpgradeScheduling(wasm) if done => Some(
                    PendingUpgrade {
                        executable_at: (l.timestamp + 172_800) as u64,
                        new_wasm_hash: wasm,
                        scheduled_at: l.timestamp,
                    },
                ),
                _ => s.pending_upgrade,
            }
            &&& operation is UpgradeScheduling && done ==> l.timestamp + 172_800 <= u64::MAX
            &&& match operation {
                OperationView::ResultPublication(ballot, result) if done => {
                    &&& t.result_hashes.contains_key(ballot)
                    &&& t.result_hashes[ballot] == result
                    &&& t.result_hashes == s.result_hashes.insert(ballot, result)
                    &&& if s.result_hashes.contains_key(ballot) {
                        t.ballot_metadata == s.ballot_metadata
                    } else {
                        &&& s.ballot_metadata.contains_key(ballot)
                        &&& t.ballot_metadata == s.ballot_metadata.insert(
                            ballot,
                            BallotMetadata {
                                state: BallotState::ResultPublished,
                                state_updated_at: l.timestamp,
                                ..s.ballot_metadata[ballot]
                            },
                        )
                    }
                },
                _ => t.result_hashes == s.result_hashes && t.ballot_metadata == s.ballot_metadata,
            }
        }),
{
    let s = l.store;
    let t = after(l, (Call::ApproveOperation { id, approver })).store;
    if let OperationView::ResultPublication(ballot, result) = s.operations[id].operation {
        if completes(s.operations[id]) {
            assert(t.result_hashes =~= s.result_hashes.insert(ballot, result));
        }
    }
}

/// An approval is announced; the one that executes the operation also announces what was done,
/// if anything was, and that the operation is executed.
pub proof fn approvals_are_announced(l: Ledger, id: u64, approver: Address)
    requires
        goes_through(l, (Call::ApproveOperation { id, approver })),
    ensures
        ({
            let t = after(l, (Call::ApproveOperation { id, approver }));
            let p = t.store.operations[id];
            let approved = EventView::OperationApproved(
                id,
                approver,
                p.approval_count,
                l.timestamp,
            );
            let executed = EventView::OperationExecuted(id, p.approval_count, l.timestamp);
            if p.status != OperationStatus::Executed {
                t.events == l.events.push(approved)
            } else {
                match p.operation {
                    OperationView::AdminRotation(admin) => t.events == l.events.push(
                        approved,
                    ).push(EventView::AdminRotated(l.store.admin->0, admin)).push(executed),
                    OperationView::Pause => t.events == l.events.push(approved).push(
                        EventView::Paused(l.timestamp),
                    ).push(executed),
                    OperationView::ResultPublication(ballot, result) => t.events
                        == if l.store.result_hashes.contains_key(ballot) {
                        l.events.push(approved).push(executed)
                    } else {
                        l.events.push(approved).push(
                            EventView::ResultPublished(ballot, result),
                        ).push(executed)
                    },
                    OperationView::UpgradeScheduling(wasm) => t.events == l.events.push(
                        approved,
                    ).push(
                        EventView::UpgradeScheduled(
                            wasm,
                            l.timestamp,
                            (l.timestamp + 172_800) as u64,
                        ),
                    ).push(executed),
                }
            }
        }),
{
}

/// What is proposed under a threshold of one comes about with the first approval.
pub proof fn a_lone_approver_brings_a_proposal_about(
    l: Ledger,
    caller: Address,
    operation: OperationView,
    approver: Address,
)
    requires
        l.store.sound(),
        goes_through(l, (Call::CreateOperation { caller, operation })),
        l.store.approval_threshold == Some(1u32),
        l.store.approvers->0.contains(approver),
        l.authorized.contains(approver),
        operation is UpgradeScheduling ==> l.timestamp + 172_800 <= u64::MAX,
    ensures
        ({
            let m = after(l, (Call::CreateOperation { caller, operation }));
            let id = l.store.next_operation();
            let t = after(m, (Call::ApproveOperation { id, approver })).store;
            &&& goes_through(m, (Call::ApproveOperation { id, approver }))
            &&& t.operations[id].status == OperationStatus::Executed
            &&& match operation {
                OperationView::AdminRotation(admin) => t.admin == Some(admin),
                OperationView::Pause => t.is_paused == Some(true),
                OperationView::ResultPublication(ballot, result) => {
                    &&& t.result_hashes.contains_key(ballot)
                    &&& t.result_hashes[ballot] == result
                    &&& t.ballot_metadata[ballot].state == BallotState::ResultPublished
                },
                OperationView::UpgradeScheduling(wasm) => t.pending_upgrade matches Some(u)
                    && u.new_wasm_hash == wasm,
            }
        }),
{
    let m = after(l, (Call::CreateOperation { caller, operation }));
    let id = l.store.next_operation();
    proposals_are_kept_as_made(l, caller, operation);
    assert(m.store.operation_approvers.contains_key((id, approver)));
    if l.store.has_approved(id, approver) {
        assert(l.store.operations.contains_key(id));
        assert(l.store.operation_sound(id));
    }
    if let OperationView::ResultPublication(ballot, result) = operation {
        assert(l.store.ballot_sound(ballot));
    }
}

/// The admin can cancel an operation exactly as long as it is pending. Only its status changes.
pub proof fn cancelling_an_operation(l: Ledger, caller: Address, id: u64)
    ensures
        ({
            let call = Call::CancelOperation { caller, id };
            let t = after(l, call);
            let admin = l.store.admin == Some(caller);
            let known = l.store.operations.contains_key(id);
            let pending = known && l.store.operations[id].status == OperationStatus::Pending;
            &&& l.store.admin is None ==> refusal(l, call) == Some(ContractError::NotInitialized)
            &&& l.store.admin is Some && !admin ==> refusal(l, call) == Some(
                ContractError::AdminUnauthorized,
            )
            &&& admin && !known ==> refusal(l, call) == Some(ContractError::OperationNotFound)
            &&& admin && known && !pending ==> refusal(l, call) == Some(
                ContractError::OperationNotPending,
            )
            &&& admin && pending ==> refusal(l, call) is None
            &&& goes_through(l, call) == (refusal(l, call) is None && l.authorized.contains(caller))
            &&& goes_through(l, call) ==> t.store == (Store {
                operations: l.store.operations.insert(
                    id,
                    PendingView { status: OperationStatus::Cancelled, ..l.store.operations[id] },
                ),
                ..l.store
            }) && t.events == l.events.push(EventView::OperationCancelled(id, caller, l.timestamp))
            &&& !goes_through(l, call) ==> t == l
        }),
{
}

// Ballots

/// A ballot of the admin is recorded exactly if the contract is not paused, it has a name and no
/// ballot of that name is recorded. It starts active, under the given limits, with no token and
/// no vote.
pub proof fn recording_a_ballot(
    l: Ledger,
    caller: Address,
    ballot: Seq<u8>,
    limits: BallotLimits,
)
    ensures
        ({
            let call = Call::RecordBallot { caller, ballot, limits };
            let t = after(l, call);
            let running = l.store.is_paused != Some(true);
            let admin = running && l.store.admin == Some(caller);
            &&& !running ==> refusal(l, call) == Some(ContractError::ContractPaused)
            &&& running && l.store.admin is None ==> refusal(l, call) == Some(
                ContractError::NotInitialized,
            )
            &&& running && l.store.admin is Some && !admin ==> refusal(l, call) == Some(
                ContractError::AdminUnauthorized,
            )
            &&& admin && ballot.len() == 0 ==> refusal(l, call) == Some(
                ContractError::InvalidBallotHash,
            )
            &&& admin && ballot.len() > 0 && l.store.ballot_metadata.contains_key(ballot)
                ==> refusal(l, call) == Some(ContractError::BallotAlreadyExists)
            &&& admin && ballot.len() > 0 && !l.store.ballot_metadata.contains_key(ballot)
                ==> refusal(l, call) is None
            &&& goes_through(l, call) == (refusal(l, call) is None && l.authorized.contains(caller))
            &&& goes_through(l, call) ==> t.store == (Store {
                ballot_metadata: l.store.ballot_metadata.insert(
                    ballot,
                    BallotMetadata {
                        admin: caller,
                        created_at: l.timestamp,
                        expiration_time: 0,
                        limits,
                        state: BallotState::Active,
                        state_updated_at: l.timestamp,
                    },
                ),
                tokens_issued: l.store.tokens_issued.insert(ballot, 0u32),
                votes_cast: l.store.votes_cast.insert(ballot, 0u32),
                ..l.store
            }) && t.events == l.events.push(EventView::BallotCreated(ballot, l.timestamp, caller))
            &&& !goes_through(l, call) ==> t == l
        }),
{
}

/// A token is accepted whenever the contract is not paused, the admin issues it, the ballot is
/// recorded and not ended, and fewer tokens than its limit were issued. It then counts one.
pub proof fn recording_a_token(l: Ledger, caller: Address, ballot: Seq<u8>)
    ensures
        ({
            let call = Call::RecordToken { caller, ballot };
            let t = after(l, call);
            let running = l.store.is_paused != Some(true);
            let admin = running && l.store.admin == Some(caller);
            let recorded = admin && l.store.ballot_metadata.contains_key(ballot);
            let open = recorded && !(l.store.ballot_expired.contains_key(ballot)
                && l.store.ballot_expired[ballot]);
            let issued: int = if l.store.tokens_issued.contains_key(ballot) {
                l.store.tokens_issued[ballot] as int
            } else {
                0
            };
            let room = issued < l.store.ballot_metadata[ballot].limits.max_tokens;
            &&& !running ==> refusal(l, call) == Some(ContractError::ContractPaused)
            &&& running && l.store.admin is None ==> refusal(l, call) == Some(
                ContractError::NotInitialized,
            )
            &&& running && l.store.admin is Some && !admin ==> refusal(l, call) == Some(
                ContractError::AdminUnauthorized,
            )
            &&& admin && !recorded ==> refusal(l, call) == Some(ContractError::BallotNotFound)
            &&& recorded && !open ==> refusal(l, call) == Some(ContractError::BallotExpired)
            &&& open && !room ==> refusal(l, call) == Some(ContractError::LimitExceeded)
            &&& open && room ==> refusal(l, call) is None
            &&& goes_through(l, call) == (open && room && l.authorized.contains(caller))
            &&& goes_through(l, call) ==> {
                &&& t.store.tokens_issued.contains_key(ballot)
                &&& t.store.tokens_issued[ballot] == issued + 1
                &&& t.store == (Store {
                    tokens_issued: l.store.tokens_issued.insert(ballot, (issued + 1) as u32),
                    ..l.store
                })
                &&& t.events == l.events.push(EventView::TokenIssued(ballot, (issued + 1) as u32))
            }
            &&& !goes_through(l, call) ==> t == l
        }),
{
}

/// A vote is accepted whenever the contract is not paused, the admin records it, the ballot is
/// recorded and not ended, and fewer votes than its limit were cast. It then counts one.
pub proof fn recording_a_vote(l: Ledger, caller: Address, ballot: Seq<u8>)
    ensures
        ({
            let call = Call::RecordVote { caller, ballot };
            let t = after(l, call);
            let running = l.store.is_paused != Some(true);
            let admin = running && l.store.admin == Some(caller);
            let recorded = admin && l.store.ballot_metadata.contains_key(ballot);
            let open = recorded && !(l.store.ballot_expired.contains_key(ballot)
                && l.store.ballot_expired[ballot]);
            let cast: int = if l.store.votes_cast.contains_key(ballot) {
                l.store.votes_cast[ballot] as int
            } else {
                0
            };
            let room = cast < l.store.ballot_metadata[ballot].limits.max_votes;
            &&& !running ==> refusal(l, call) == Some(ContractError::ContractPaused)
            &&& running && l.store.admin is None ==> refusal(l, call) == Some(
                ContractError::NotInitialized,
            )
            &&& running && l.store.admin is Some && !admin ==> refusal(l, call) == Some(
                ContractError::AdminUnauthorized,
            )
            &&& admin && !recorded ==> refusal(l, call) == Some(ContractError::BallotNotFound)
            &&& recorded && !open ==> refusal(l, call) == Some(ContractError::BallotExpired)
            &&& open && !room ==> refusal(l, call) == Some(ContractError::LimitExceeded)
            &&& open && room ==> refusal(l, call) is None
            &&& goes_through(l, call) == (open && room && l.authorized.contains(caller))
            &&& goes_through(l, call) ==> {
                &&& t.store.votes_cast.contains_key(ballot)
                &&& t.store.votes_cast[ballot] == cast + 1
                &&& t.store == (Store {
                    votes_cast: l.store.votes_cast.insert(ballot, (cast + 1) as u32),
                    ..l.store
                })
                &&& t.events == l.events.push(EventView::VoteCast(ballot, (cast + 1) as u32))
            }
            &&& !goes_through(l, call) ==> t == l
        }),
{
}

/// The ledger after `n` tokens were recorded in a ballot, one after the other.
pub open spec fn after_tokens(l: Ledger, caller: Address, ballot: Seq<u8>, n: nat) -> Ledger
    decreases n,
{
    if n == 0 {
        l
    } else {
        after(
            after_tokens(l, caller, ballot, (n - 1) as nat),
            (Call::RecordToken { caller, ballot }),
        )
    }
}

/// The ledger after `n` votes were recorded in a ballot, one after the other.
pub open spec fn after_votes(l: Ledger, caller: Address, ballot: Seq<u8>, n: nat) -> Ledger
    decreases n,
{
    if n == 0 {
        l
    } else {
        after(
            after_votes(l, caller, ballot, (n - 1) as nat),
            (Call::RecordVote { caller, ballot }),
        )
    }
}

/// In a new ballot every token up to its limit is accepted, and the next one is not.
pub proof fn tokens_fill_a_ballot_to_its_limit(
    l: Ledger,
    caller: Address,
    ballot: Seq<u8>,
    limits: BallotLimits,
    n: nat,
)
    requires
        goes_through(l, (Call::RecordBallot { caller, ballot, limits })),
        !l.store.ballot_expired.contains_key(ballot),
        n <= limits.max_tokens,
    ensures
        ({
            let full = after_tokens(
                after(l, (Call::RecordBallot { caller, ballot, limits })),
                caller,
                ballot,
                n,
            );
            &&& full.store.tokens_issued.contains_key(ballot)
            &&& full.store.tokens_issued[ballot] == n
            &&& goes_through(full, (Call::RecordToken { caller, ballot })) == (n
                < limits.max_tokens)
            &&& n == limits.max_tokens ==> refusal(full, (Call::RecordToken { caller, ballot }))
                == Some(ContractError::LimitExceeded)
            &&& full.store == (Store {
                tokens_issued: full.store.tokens_issued,
                ..after(l, (Call::RecordBallot { caller, ballot, limits })).store
            })
            &&& full.authorized == l.authorized
        }),
    decreases n,
{
    if n > 0 {
        tokens_fill_a_ballot_to_its_limit(l, caller, ballot, limits, (n - 1) as nat);
    }
}

/// In a new ballot every vote up to its limit is accepted, and the next one is not.
pub proof fn votes_fill_a_ballot_to_its_limit(
    l: Ledger,
    caller: Address,
    ballot: Seq<u8>,
    limits: BallotLimits,
    n: nat,
)
    requires
        goes_through(l, (Call::RecordBallot { caller, ballot, limits })),
        !l.store.ballot_expired.contains_key(ballot),
        n <= limits.max_votes,
    ensures
        ({
            let full = after_votes(
                after(l, (Call::RecordBallot { caller, ballot, limits })),
                caller,
                ballot,
                n,
            );
            &&& full.store.votes_cast.contains_key(ballot)
            &&& full.store.votes_cast[ballot] == n
            &&& goes_through(full, (Call::RecordVote { caller, ballot })) == (n < limits.max_votes)
            &&& n == limits.max_votes ==> refusal(full, (Call::RecordVote { caller, ballot }))
                == Some(ContractError::LimitExceeded)
            &&& full.store == (Store {
                votes_cast: full.store.votes_cast,
                ..after(l, (Call::RecordBallot { caller, ballot, limits })).store
            })
            &&& full.authorized == l.authorized
        }),
    decreases n,
{
    if n > 0 {
        votes_fill_a_ballot_to_its_limit(l, caller, ballot, limits, (n - 1) as nat);
    }
}

/// The admin can end a recorded ballot, paused or not, ended before or not. Nothing but the mark
/// that it ended changes.
pub proof fn ending_a_ballot(l: Ledger, caller: Address, ballot: Seq<u8>)
    ensures
        ({
            let call = Call::ExpireBallot { caller, ballot };
            let t = after(l, call);
            let admin = l.store.admin == Some(caller);
            let recorded = admin && l.store.ballot_metadata.contains_key(ballot);
            &&& l.store.admin is None ==> refusal(l, call) == Some(ContractError::NotInitialized)
            &&& l.store.admin is Some && !admin ==> refusal(l, call) == Some(
                ContractError::AdminUnauthorized,
            )
            &&& admin && !recorded ==> refusal(l, call) == Some(ContractError::BallotNotFound)
            &&& recorded ==> refusal(l, call) is None
            &&& goes_through(l, call) == (recorded && l.authorized.contains(caller))
            &&& goes_through(l, call) ==> t.store == (Store {
                ballot_expired: l.store.ballot_expired.insert(ballot, true),
                ..l.store
            }) && t.events == l.events.push(EventView::BallotExpired(ballot))
            &&& !goes_through(l, call) ==> t == l
        }),
{
}

// Upgrades and pausing

/// The admin can drop a scheduled upgrade at any time. Nothing else changes.
pub proof fn cancelling_an_upgrade(l: Ledger, caller: Address)
    ensures
        ({
            let call = Call::CancelUpgrade { caller };
            let t = after(l, call);
            let admin = l.store.admin == Some(caller);
            &&& l.store.admin is None ==> refusal(l, call) == Some(ContractError::NotInitialized)
            &&& l.store.admin is Some && !admin ==> refusal(l, call) == Some(
                ContractError::AdminUnauthorized,
            )
            &&& admin && l.store.pending_upgrade is None ==> refusal(l, call) == Some(
                ContractError::NoUpgradeScheduled,
            )
            &&& admin && l.store.pending_upgrade is Some ==> refusal(l, call) is None
            &&& goes_through(l, call) == (refusal(l, call) is None && l.authorized.contains(caller))
            &&& goes_through(l, call) ==> t.store == (Store { pending_upgrade: None, ..l.store })
                && t.events == l.events.push(EventView::UpgradeCancelled(caller, l.timestamp))
            &&& !goes_through(l, call) ==> t == l
        }),
{
}

/// A scheduled upgrade can be executed, by anyone, from the moment it is due: its code is
/// installed and nothing is scheduled any more.
pub proof fn executing_an_upgrade(l: Ledger)
    ensures
        ({
            let call = Call::ExecuteUpgrade;
            let t = after(l, call);
            match l.store.pending_upgrade {
                None => refusal(l, call) == Some(ContractError::NoUpgradeScheduled) && t == l,
                Some(u) => if l.timestamp < u.executable_at {
                    refusal(l, call) == Some(ContractError::TimeLockNotExpired) && t == l
                } else {
                    &&& refusal(l, call) is None
                    &&& goes_through(l, call)
                    &&& t.installed_wasm == Some(u.new_wasm_hash)
                    &&& t.store == (Store { pending_upgrade: None, ..l.store })
                    &&& t.events == l.events.push(EventView::UpgradeExecuted(u.new_wasm_hash))
                },
            }
        }),
{
}

/// An upgrade that an approval schedules can be executed 48 hours later, and no second earlier;
/// what is installed is the code that was proposed.
pub proof fn a_scheduled_upgrade_is_due_after_the_time_lock(
    l: Ledger,
    id: u64,
    approver: Address,
    wasm: [u8; 32],
    later: u64,
)
    requires
        goes_through(l, (Call::ApproveOperation { id, approver })),
        l.store.operations[id].operation == OperationView::UpgradeScheduling(wasm),
        l.store.operations[id].approval_count + 1 >= l.store.operations[id].threshold,
    ensures
        ({
            let m = Ledger {
                timestamp: later,
                ..after(l, (Call::ApproveOperation { id, approver }))
            };
            &&& goes_through(m, Call::ExecuteUpgrade) == (later >= l.timestamp + 172_800)
            &&& later >= l.timestamp + 172_800 ==> after(m, Call::ExecuteUpgrade).installed_wasm
                == Some(wasm)
        }),
{
}

/// The admin can resume the contract at any time. It is not paused then; nothing else changes.
pub proof fn resuming(l: Ledger, caller: Address)
    ensures
        ({
            let call = Call::Resume { caller };
            let t = after(l, call);
            &&& l.store.admin is None ==> refusal(l, call) == Some(ContractError::NotInitialized)
            &&& l.store.admin is Some && l.store.admin != Some(caller) ==> refusal(l, call)
                == Some(ContractError::AdminUnauthorized)
            &&& l.store.admin == Some(caller) ==> refusal(l, call) is None
            &&& goes_through(l, call) == (refusal(l, call) is None && l.authorized.contains(caller))
            &&& goes_through(l, call) ==> t.store == (Store { is_paused: Some(false), ..l.store })
                && t.events == l.events.push(EventView::Resumed(caller, l.timestamp))
            &&& !goes_through(l, call) ==> t == l
        }),
{
}

// Reading

/// For every recorded ballot, whatever its state, the snapshot agrees field by field with what is
/// stored; for any other there is none.
pub proof fn snapshots_agree_with_the_entries(s: Store, ballot: Seq<u8>)
    ensures
        s.snapshot(ballot) is Some == s.ballot_metadata.contains_key(ballot),
        s.snapshot(ballot) matches Some(v) ==> {
            &&& v.metadata == s.ballot_metadata[ballot]
            &&& v.tokens_issued == if s.tokens_issued.contains_key(ballot) {
                s.tokens_issued[ballot]
            } else {
                0u32
            }
            &&& v.votes_cast == if s.votes_cast.contains_key(ballot) {
                s.votes_cast[ballot]
            } else {
                0u32
            }
            &&& v.result_hash == if s.result_hashes.contains_key(ballot) {
                Some(s.result_hashes[ballot])
            } else {
                None
            }
        },
{
}

/// No approval, not even the one that publishes a result, changes the counts that a snapshot
/// gives of any ballot; and a token or a vote adds one to its own count in its own ballot, and to
/// nothing else.
pub proof fn snapshots_follow_the_counting(l: Ledger, call: Call, ballot: Seq<u8>)
    requires
        l.store.snapshot(ballot) is Some,
        goes_through(l, call),
        call is ApproveOperation || call is RecordToken || call is RecordVote
            || call is ExpireBallot || call is Resume || call is CreateOperation,
    ensures
        ({
            let before = l.store.snapshot(ballot)->0;
            let now = after(l, call).store.snapshot(ballot);
            &&& now is Some
            &&& now->0.tokens_issued == before.tokens_issued + match call {
                Call::RecordToken { ballot: b, .. } if b == ballot => 1int,
                _ => 0int,
            }
            &&& now->0.votes_cast == before.votes_cast + match call {
                Call::RecordVote { ballot: b, .. } if b == ballot => 1int,
                _ => 0int,
            }
            &&& now->0.metadata.limits == before.metadata.limits
        }),
{
}

/// A counter reads as what is stored, and as zero before anything is.
pub proof fn counters_read_what_is_stored(s: Store, ballot: Seq<u8>)
    ensures
        s.tokens_issued.contains_key(ballot) ==> s.tokens(ballot) == s.tokens_issued[ballot],
        !s.tokens_issued.contains_key(ballot) ==> s.tokens(ballot) == 0,
        s.votes_cast.contains_key(ballot) ==> s.votes(ballot) == s.votes_cast[ballot],
        !s.votes_cast.contains_key(ballot) ==> s.votes(ballot) == 0,
        s.expired(ballot) == (s.ballot_expired.contains_key(ballot) && s.ballot_expired[ballot]),
        s.paused() == (s.is_paused == Some(true)),
{
}

/// A look into a table gives what is stored under the key, and nothing if nothing is.
pub proof fn lookups_give_what_is_stored<K, V>(m: Map<K, V>, key: K)
    ensures
        m.contains_key(key) ==> lookup(m, key) == Some(m[key]),
        !m.contains_key(key) ==> lookup(m, key) is None,
{
}

/// Who may approve and who approved an operation is exactly what is stored.
pub proof fn approvals_read_what_is_stored(s: Store, id: u64, a: Address)
    ensures
        s.may_approve(id, a) == s.operation_approvers.contains_key((id, a)),
        s.has_approved(id, a) == s.approvals.contains_key((id, a)),
        s.entitled(id).contains(a) == s.operation_approvers.contains_key((id, a)),
        s.supporters(id).contains(a) == s.approvals.contains_key((id, a)),
{
}

} // verus!
