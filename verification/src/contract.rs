//! The contract and the conditions that its entry points share.

use vstd::prelude::*;
use crate::ledger::Env;
use crate::rules::admin_refusal;
use crate::rules::lookup;
use crate::rules::outcome;
use crate::table::TableKey;
use crate::types::Address;
use crate::types::BallotMetadata;
use crate::types::ContractError;

verus! {

/// The ballot audit contract. Its entry points stand in the modules `governance`, `ballots`,
/// `upgrades` and `queries`.
pub struct AnonVoteContract;

impl AnonVoteContract {
    /// Refuses everyone but the admin.
    pub(crate) fn require_admin(env: &Env, caller: &Address) -> (r: Result<(), ContractError>)
        ensures
            r == outcome(admin_refusal(env@.store, *caller), ()),
    {
        match &env.storage.admin {
            None => Err(ContractError::NotInitialized),
            Some(admin) => {
                if !caller.same(admin) {
                    return Err(ContractError::AdminUnauthorized);
                }
                Ok(())
            },
        }
    }

    /// Whether `target` is among `addresses`.
    pub(crate) fn contains_address(addresses: &Vec<Address>, target: &Address) -> (r: bool)
        ensures
            r == addresses@.contains(*target),
    {
        let mut i: usize = 0;
        while i < addresses.len()
            invariant
                i <= addresses@.len(),
                forall|j: int| 0 <= j < i ==> addresses@[j] != *target,
            decreases addresses@.len() - i,
        {
            if addresses[i].same(target) {
                assert(addresses@[i as int] == *target);
                return true;
            }
            i = i + 1;
        }
        false
    }

    /// Refuses everyone while the contract is paused.
    pub(crate) fn require_not_paused(env: &Env) -> (r: Result<(), ContractError>)
        ensures
            r == (if env@.store.paused() {
                Err(ContractError::ContractPaused)
            } else {
                Ok(())
            }),
    {
        match env.storage.is_paused {
            Some(true) => Err(ContractError::ContractPaused),
            _ => Ok(()),
        }
    }

    /// What was recorded of a ballot. Refuses a ballot that was not recorded.
    pub(crate) fn require_ballot_metadata(env: &Env, ballot_id_hash: &Vec<u8>) -> (r: Result<
        BallotMetadata,
        ContractError,
    >)
        ensures
            r == (match lookup(env@.store.ballot_metadata, ballot_id_hash@) {
                Some(metadata) => Ok(metadata),
                None => Err(ContractError::BallotNotFound),
            }),
    {
        match env.storage.ballot_metadata.get(ballot_id_hash) {
            Some(metadata) => Ok(*metadata),
            None => Err(ContractError::BallotNotFound),
        }
    }

    /// Refuses a ballot that the admin ended.
    pub(crate) fn require_ballot_not_expired(env: &Env, ballot_id_hash: &Vec<u8>) -> (r: Result<
        (),
        ContractError,
    >)
        ensures
            r == (if env@.store.expired(ballot_id_hash@) {
                Err(ContractError::BallotExpired)
            } else {
                Ok(())
            }),
    {
        match env.storage.ballot_expired.get(ballot_id_hash) {
            Some(true) => Err(ContractError::BallotExpired),
            _ => Ok(()),
        }
    }
}

} // verus!
