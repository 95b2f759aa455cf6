//! Upgrades of the contract's code, and the end of a pause.

use vstd::prelude::*;
use crate::contract::AnonVoteContract;
use crate::events::Event;
use crate::ledger::Env;
use crate::rules::admin_refusal;
use crate::rules::after;
use crate::rules::cancel_upgrade_refusal;
use crate::rules::execute_upgrade_refusal;
use crate::rules::goes_through;
use crate::rules::outcome;
use crate::rules::refusal;
use crate::rules::Call;
use crate::types::Address;
use crate::types::ContractError;

verus! {

impl AnonVoteContract {
    /// Drops the scheduled upgrade.
    pub fn cancel_upgrade(env: &mut Env, caller: Address) -> (r: Result<(), ContractError>)
        requires
            old(env)@.authorized.contains(caller),
        ensures
            r == outcome(cancel_upgrade_refusal(old(env)@, caller), ()),
            final(env)@ == after(old(env)@, (Call::CancelUpgrade { caller })),
            r is Ok == goes_through(old(env)@, (Call::CancelUpgrade { caller })),
            r matches Err(e) ==> refusal(old(env)@, (Call::CancelUpgrade { caller })) == Some(e),
    {
        Self::require_admin(env, &caller)?;
        if env.storage.pending_upgrade.is_none() {
            return Err(ContractError::NoUpgradeScheduled);
        }
        env.storage.pending_upgrade = None;
        let now: u64 = env.timestamp;
        env.publish(Event::UpgradeCancelled(caller, now));
        Ok(())
    }

    /// Replaces the contract's code with that of the scheduled upgrade, once its time lock is
    /// over. Anyone may do this.
    pub fn execute_upgrade(env: &mut Env) -> (r: Result<(), ContractError>)
        ensures
            r == outcome(execute_upgrade_refusal(old(env)@), ()),
            final(env)@ == after(old(env)@, Call::ExecuteUpgrade),
            r is Ok == goes_through(old(env)@, Call::ExecuteUpgrade),
            r matches Err(e) ==> refusal(old(env)@, Call::ExecuteUpgrade) == Some(e),
    {
        let pending = match env.storage.pending_upgrade {
            Some(pending) => pending,
            None => return Err(ContractError::NoUpgradeScheduled),
        };
        if env.timestamp < pending.executable_at {
            return Err(ContractError::TimeLockNotExpired);
        }
        env.installed_wasm = Some(pending.new_wasm_hash);
        env.storage.pending_upgrade = None;
        env.publish(Event::UpgradeExecuted(pending.new_wasm_hash));
        Ok(())
    }

    /// Ends a pause.
    pub fn resume_contract(env: &mut Env, caller: Address) -> (r: Result<(), ContractError>)
        requires
            old(env)@.authorized.contains(caller),
        ensures
            r == outcome(admin_refusal(old(env)@.store, caller), ()),
            final(env)@ == after(old(env)@, (Call::Resume { caller })),
            r is Ok == goes_through(old(env)@, (Call::Resume { caller })),
            r matches Err(e) ==> refusal(old(env)@, (Call::Resume { caller })) == Some(e),
    {
        Self::require_admin(env, &caller)?;
        env.storage.is_paused = Some(false);
        let now: u64 = env.timestamp;
        env.publish(Event::Resumed(caller, now));
        Ok(())
    }
}

} // verus!
