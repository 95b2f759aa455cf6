//! The record of ballots, of the tokens issued in them and of the votes cast.

use vstd::prelude::*;
use crate::contract::AnonVoteContract;
use crate::events::Event;
use crate::ledger::Env;
use crate::rules::after;
use crate::rules::expire_ballot_refusal;
use crate::rules::goes_through;
use crate::rules::outcome;
use crate::rules::record_ballot_refusal;
use crate::rules::record_token_refusal;
use crate::rules::record_vote_refusal;
use crate::rules::refusal;
use crate::rules::Call;
use crate::table::copy_bytes;
use crate::types::Address;
use crate::types::BallotLimits;
use crate::types::BallotMetadata;
use crate::types::BallotState;
use crate::types::ContractError;

verus! {

impl AnonVoteContract {
    /// Records a ballot, with no token issued and no vote cast yet.
    pub fn record_ballot(
        env: &mut Env,
        caller: Address,
        ballot_id_hash: Vec<u8>,
        limits: BallotLimits,
    ) -> (r: Result<(), ContractError>)
        requires
            old(env)@.authorized.contains(caller),
        ensures
            r == outcome(record_ballot_refusal(old(env)@, caller, ballot_id_hash@), ()),
            final(env)@ == after(
                old(env)@,
                (Call::RecordBallot { caller, ballot: ballot_id_hash@, limits }),
            ),
            r is Ok == goes_through(
                old(env)@,
                (Call::RecordBallot { caller, ballot: ballot_id_hash@, limits }),
            ),
            r matches Err(e) ==> refusal(
                old(env)@,
                (Call::RecordBallot { caller, ballot: ballot_id_hash@, limits }),
            ) == Some(e),
    {
        Self::require_not_paused(env)?;
        Self::require_admin(env, &caller)?;
        if ballot_id_hash.len() == 0 {
            return Err(ContractError::InvalidBallotHash);
        }
        if env.storage.ballot_metadata.has(&ballot_id_hash) {
            return Err(ContractError::BallotAlreadyExists);
        }
        let now: u64 = env.timestamp;
        let metadata = BallotMetadata {
            admin: caller,
            created_at: now,
            expiration_time: 0,
            limits,
            state: BallotState::Active,
            state_updated_at: now,
        };
        env.storage.ballot_metadata.set(copy_bytes(&ballot_id_hash), metadata);
        env.storage.tokens_issued.set(copy_bytes(&ballot_id_hash), 0u32);
        env.storage.votes_cast.set(copy_bytes(&ballot_id_hash), 0u32);
        env.publish(Event::BallotCreated(ballot_id_hash, now, caller));
        Ok(())
    }

    /// Counts one more token issued in a ballot.
    pub fn record_token(env: &mut Env, caller: Address, ballot_id_hash: Vec<u8>) -> (r: Result<
        (),
        ContractError,
    >)
        requires
            old(env)@.authorized.contains(caller),
        ensures
            r == outcome(record_token_refusal(old(env)@, caller, ballot_id_hash@), ()),
            final(env)@ == after(
                old(env)@,
                (Call::RecordToken { caller, ballot: ballot_id_hash@ }),
            ),
            r is Ok == goes_through(
                old(env)@,
                (Call::RecordToken { caller, ballot: ballot_id_hash@ }),
            ),
            r matches Err(e) ==> refusal(
                old(env)@,
                (Call::RecordToken { caller, ballot: ballot_id_hash@ }),
            ) == Some(e),
    {
        Self::require_not_paused(env)?;
        Self::require_admin(env, &caller)?;
        let metadata = Self::require_ballot_metadata(env, &ballot_id_hash)?;
        Self::require_ballot_not_expired(env, &ballot_id_hash)?;
        let count: u32 = match env.storage.tokens_issued.get(&ballot_id_hash) {
            Some(count) => *count,
            None => 0,
        };
        if count >= metadata.limits.max_tokens {
            return Err(ContractError::LimitExceeded);
        }
        let new_count: u32 = count + 1;
        env.storage.tokens_issued.set(copy_bytes(&ballot_id_hash), new_count);
        env.publish(Event::TokenIssued(ballot_id_hash, new_count));
        Ok(())
    }

    /// Counts one more vote cast in a ballot.
    pub fn record_vote(env: &mut Env, caller: Address, ballot_id_hash: Vec<u8>) -> (r: Result<
        (),
        ContractError,
    >)
        requires
            old(env)@.authorized.contains(caller),
        ensures
            r == outcome(record_vote_refusal(old(env)@, caller, ballot_id_hash@), ()),
            final(env)@ == after(
                old(env)@,
                (Call::RecordVote { caller, ballot: ballot_id_hash@ }),
            ),
            r is Ok == goes_through(
                old(env)@,
                (Call::RecordVote { caller, ballot: ballot_id_hash@ }),
            ),
            r matches Err(e) ==> refusal(
                old(env)@,
                (Call::RecordVote { caller, ballot: ballot_id_hash@ }),
            ) == Some(e),
    {
        Self::require_not_paused(env)?;
        Self::require_admin(env, &caller)?;
        let metadata = Self::require_ballot_metadata(env, &ballot_id_hash)?;
        Self::require_ballot_not_expired(env, &ballot_id_hash)?;
        let count: u32 = match env.storage.votes_cast.get(&ballot_id_hash) {
            Some(count) => *count,
            None => 0,
        };
        if count >= metadata.limits.max_votes {
            return Err(ContractError::LimitExceeded);
        }
        let new_count: u32 = count + 1;
        env.storage.votes_cast.set(copy_bytes(&ballot_id_hash), new_count);
        env.publish(Event::VoteCast(ballot_id_hash, new_count));
        Ok(())
    }

    /// Ends a ballot: it counts no more tokens and no more votes.
    pub fn expire_ballot(env: &mut Env, caller: Address, ballot_id_hash: Vec<u8>) -> (r: Result<
        (),
        ContractError,
    >)
        requires
            old(env)@.authorized.contains(caller),
        ensures
            r == outcome(expire_ballot_refusal(old(env)@, caller, ballot_id_hash@), ()),
            final(env)@ == after(
                old(env)@,
                (Call::ExpireBallot { caller, ballot: ballot_id_hash@ }),
            ),
            r is Ok == goes_through(
                old(env)@,
                (Call::ExpireBallot { caller, ballot: ballot_id_hash@ }),
            ),
            r matches Err(e) ==> refusal(
                old(env)@,
                (Call::ExpireBallot { caller, ballot: ballot_id_hash@ }),
            ) == Some(e),
    {
        Self::require_admin(env, &caller)?;
        Self::require_ballot_metadata(env, &ballot_id_hash)?;
        env.storage.ballot_expired.set(copy_bytes(&ballot_id_hash), true);
        env.publish(Event::BallotExpired(ballot_id_hash));
        Ok(())
    }
}

} // verus!
