//! Public read access. No query changes anything, and none needs an authorization.

use vstd::prelude::*;
use crate::contract::AnonVoteContract;
use crate::ledger::Env;
use crate::rules::lookup;
use crate::table::copy_bytes;
use crate::types::Address;
use crate::types::BallotMetadata;
use crate::types::BallotStateSnapshot;
use crate::types::PendingOperation;
use crate::types::PendingUpgrade;

verus! {

/// What an optional value shows.
pub open spec fn view_of<T: View>(value: Option<T>) -> Option<T::V> {
    match value {
        Some(v) => Some(v@),
        None => None,
    }
}

impl AnonVoteContract {
    pub fn get_admin(env: &Env) -> (r: Option<Address>)
        ensures
            r == env@.store.admin,
    {
        env.storage.admin
    }

    /// The configured approvers; none before the contract is initialized.
    pub fn get_approvers(env: &Env) -> (r: Vec<Address>)
        ensures
            r@ == (match env@.store.approvers {
                Some(approvers) => approvers,
                None => Seq::empty(),
            }),
    {
        match &env.storage.approvers {
            Some(approvers) => {
                let r = approvers.clone();
                assert(r@ =~= approvers@);
                r
            },
            None => Vec::new(),
        }
    }

    /// The configured threshold; 0 before the contract is initialized.
    pub fn get_approval_threshold(env: &Env) -> (r: u32)
        ensures
            r == (match env@.store.approval_threshold {
                Some(threshold) => threshold,
                None => 0,
            }),
    {
        match env.storage.approval_threshold {
            Some(threshold) => threshold,
            None => 0,
        }
    }

    pub fn get_operation(env: &Env, operation_id: u64) -> (r: Option<PendingOperation>)
        ensures
            view_of(r) == lookup(env@.store.operations, operation_id),
            r is Some == env@.store.operations.contains_key(operation_id),
            r matches Some(p) ==> p@ == env@.store.operations[operation_id],
    {
        match env.storage.operations.get(&operation_id) {
            Some(pending) => Some(pending.clone()),
            None => None,
        }
    }

    pub fn has_approved(env: &Env, operation_id: u64, approver: Address) -> (r: bool)
        ensures
            r == env@.store.has_approved(operation_id, approver),
            r == env@.store.approvals.contains_key((operation_id, approver)),
    {
        env.storage.approvals.has(&(operation_id, approver))
    }

    pub fn is_paused(env: &Env) -> (r: bool)
        ensures
            r == env@.store.paused(),
            r == (env@.store.is_paused == Some(true)),
    {
        match env.storage.is_paused {
            Some(paused) => paused,
            None => false,
        }
    }

    pub fn get_pending_upgrade(env: &Env) -> (r: Option<PendingUpgrade>)
        ensures
            r == env@.store.pending_upgrade,
    {
        env.storage.pending_upgrade
    }

    /// The tokens issued in a ballot, if the ballot was recorded.
    pub fn get_tokens_issued(env: &Env, ballot_id_hash: Vec<u8>) -> (r: Option<u32>)
        ensures
            r == (if env@.store.ballot_metadata.contains_key(ballot_id_hash@) {
                lookup(env@.store.tokens_issued, ballot_id_hash@)
            } else {
                None
            }),
            r is Some == (env@.store.ballot_metadata.contains_key(ballot_id_hash@)
                && env@.store.tokens_issued.contains_key(ballot_id_hash@)),
            r matches Some(count) ==> count == env@.store.tokens_issued[ballot_id_hash@],
    {
        if !env.storage.ballot_metadata.has(&ballot_id_hash) {
            return None;
        }
        match env.storage.tokens_issued.get(&ballot_id_hash) {
            Some(count) => Some(*count),
            None => None,
        }
    }

    /// The votes cast in a ballot, if the ballot was recorded.
    pub fn get_votes_cast(env: &Env, ballot_id_hash: Vec<u8>) -> (r: Option<u32>)
        ensures
            r == (if env@.store.ballot_metadata.contains_key(ballot_id_hash@) {
                lookup(env@.store.votes_cast, ballot_id_hash@)
            } else {
                None
            }),
            r is Some == (env@.store.ballot_metadata.contains_key(ballot_id_hash@)
                && env@.store.votes_cast.contains_key(ballot_id_hash@)),
            r matches Some(count) ==> count == env@.store.votes_cast[ballot_id_hash@],
    {
        if !env.storage.ballot_metadata.has(&ballot_id_hash) {
            return None;
        }
        match env.storage.votes_cast.get(&ballot_id_hash) {
            Some(count) => Some(*count),
            None => None,
        }
    }

    pub fn get_result_hash(env: &Env, ballot_id_hash: Vec<u8>) -> (r: Option<Vec<u8>>)
        ensures
            view_of(r) == lookup(env@.store.result_hashes, ballot_id_hash@),
            r is Some == env@.store.result_hashes.contains_key(ballot_id_hash@),
            r matches Some(hash) ==> hash@ == env@.store.result_hashes[ballot_id_hash@],
    {
        match env.storage.result_hashes.get(&ballot_id_hash) {
            Some(hash) => Some(copy_bytes(hash)),
            None => None,
        }
    }

    pub fn ballot_exists(env: &Env, ballot_id_hash: Vec<u8>) -> (r: bool)
        ensures
            r == env@.store.ballot_metadata.contains_key(ballot_id_hash@),
    {
        env.storage.ballot_metadata.has(&ballot_id_hash)
    }

    pub fn result_exists(env: &Env, ballot_id_hash: Vec<u8>) -> (r: bool)
        ensures
            r == env@.store.result_hashes.contains_key(ballot_id_hash@),
    {
        env.storage.result_hashes.has(&ballot_id_hash)
    }

    pub fn get_initialized_at(env: &Env) -> (r: Option<u64>)
        ensures
            r == env@.store.initialized_at,
    {
        env.storage.initialized_at
    }

    pub fn get_ballot_metadata(env: &Env, ballot_id_hash: Vec<u8>) -> (r: Option<BallotMetadata>)
        ensures
            r == lookup(env@.store.ballot_metadata, ballot_id_hash@),
            r is Some == env@.store.ballot_metadata.contains_key(ballot_id_hash@),
            r matches Some(metadata) ==> metadata == env@.store.ballot_metadata[ballot_id_hash@],
    {
        match env.storage.ballot_metadata.get(&ballot_id_hash) {
            Some(metadata) => Some(*metadata),
            None => None,
        }
    }

    /// All that is known of a ballot, if it was recorded.
    pub fn get_ballot_state(env: &Env, ballot_id_hash: Vec<u8>) -> (r: Option<BallotStateSnapshot>)
        ensures
            view_of(r) == env@.store.snapshot(ballot_id_hash@),
            r is Some == env@.store.ballot_metadata.contains_key(ballot_id_hash@),
            r matches Some(state) ==> {
                let metadata = env@.store.ballot_metadata[ballot_id_hash@];
                &&& state.admin == metadata.admin
                &&& state.created_at == metadata.created_at
                &&& state.expiration_time == metadata.expiration_time
                &&& state.limits == metadata.limits
                &&& state.state == metadata.state
                &&& state.state_updated_at == metadata.state_updated_at
                &&& state.result_hash is Some == env@.store.result_hashes.contains_key(
                    ballot_id_hash@,
                )
                &&& state.result_hash matches Some(hash) ==> hash@
                    == env@.store.result_hashes[ballot_id_hash@]
                &&& state.tokens_issued == if env@.store.tokens_issued.contains_key(
                    ballot_id_hash@,
                ) {
                    env@.store.tokens_issued[ballot_id_hash@]
                } else {
                    0
                }
                &&& state.votes_cast == if env@.store.votes_cast.contains_key(ballot_id_hash@) {
                    env@.store.votes_cast[ballot_id_hash@]
                } else {
                    0
                }
            },
    {
        let metadata = match Self::require_ballot_metadata(env, &ballot_id_hash) {
            Ok(metadata) => metadata,
            Err(_) => return None,
        };
        let tokens_issued: u32 = match env.storage.tokens_issued.get(&ballot_id_hash) {
            Some(count) => *count,
            None => 0,
        };
        let votes_cast: u32 = match env.storage.votes_cast.get(&ballot_id_hash) {
            Some(count) => *count,
            None => 0,
        };
        Some(
            BallotStateSnapshot {
                admin: metadata.admin,
                created_at: metadata.created_at,
                expiration_time: metadata.expiration_time,
                limits: metadata.limits,
                result_hash: Self::get_result_hash(env, ballot_id_hash),
                state: metadata.state,
                state_updated_at: metadata.state_updated_at,
                tokens_issued,
                votes_cast,
            },
        )
    }

    /// Whether as many votes were cast in a ballot as tokens were issued.
    pub fn is_consistent(env: &Env, ballot_id_hash: Vec<u8>) -> (r: bool)
        ensures
            r == (env@.store.tokens(ballot_id_hash@) == env@.store.votes(ballot_id_hash@)),
            r == ((if env@.store.tokens_issued.contains_key(ballot_id_hash@) {
                env@.store.tokens_issued[ballot_id_hash@]
            } else {
                0
            }) == (if env@.store.votes_cast.contains_key(ballot_id_hash@) {
                env@.store.votes_cast[ballot_id_hash@]
            } else {
                0
            })),
    {
        let tokens: u32 = match env.storage.tokens_issued.get(&ballot_id_hash) {
            Some(count) => *count,
            None => 0,
        };
        let votes: u32 = match env.storage.votes_cast.get(&ballot_id_hash) {
            Some(count) => *count,
            None => 0,
        };
        tokens == votes
    }
}

} // verus!
