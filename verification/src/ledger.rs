//! The contract's storage and what surrounds one invocation of it.

use vstd::prelude::*;
use crate::events::Event;
use crate::events::EventView;
use crate::table::Table;
use crate::types::Address;
use crate::types::BallotMetadata;
use crate::types::PendingOperation;
use crate::types::PendingUpgrade;
use crate::types::PendingView;

verus! {

/// What the contract keeps between invocations.
///
/// A field that is `None`, and a key that a table lacks, was never written or was removed.
#[derive(Debug)]
pub struct Storage {
    pub admin: Option<Address>,
    pub initialized_at: Option<u64>,
    pub is_paused: Option<bool>,
    pub approvers: Option<Vec<Address>>,
    pub approval_threshold: Option<u32>,
    pub operation_nonce: Option<u64>,
    pub pending_upgrade: Option<PendingUpgrade>,
    pub operations: Table<u64, PendingOperation>,
    pub approvals: Table<(u64, Address), bool>,
    pub operation_approvers: Table<(u64, Address), bool>,
    pub tokens_issued: Table<Vec<u8>, u32>,
    pub votes_cast: Table<Vec<u8>, u32>,
    pub result_hashes: Table<Vec<u8>, Vec<u8>>,
    pub ballot_metadata: Table<Vec<u8>, BallotMetadata>,
    pub ballot_expired: Table<Vec<u8>, bool>,
}

/// What a [`Storage`] holds.
#[verifier::ext_equal]
pub struct Store {
    pub admin: Option<Address>,
    pub initialized_at: Option<u64>,
    pub is_paused: Option<bool>,
    pub approvers: Option<Seq<Address>>,
    pub approval_threshold: Option<u32>,
    pub operation_nonce: Option<u64>,
    pub pending_upgrade: Option<PendingUpgrade>,
    pub operations: Map<u64, PendingView>,
    pub approvals: Map<(u64, Address), bool>,
    pub operation_approvers: Map<(u64, Address), bool>,
    pub tokens_issued: Map<Seq<u8>, u32>,
    pub votes_cast: Map<Seq<u8>, u32>,
    pub result_hashes: Map<Seq<u8>, Seq<u8>>,
    pub ballot_metadata: Map<Seq<u8>, BallotMetadata>,
    pub ballot_expired: Map<Seq<u8>, bool>,
}

impl View for Storage {
    type V = Store;

    open spec fn view(&self) -> Store {
        Store {
            admin: self.admin,
            initialized_at: self.initialized_at,
            is_paused: self.is_paused,
            approvers: match self.approvers {
                Some(v) => Some(v@),
                None => None,
            },
            approval_threshold: self.approval_threshold,
            operation_nonce: self.operation_nonce,
            pending_upgrade: self.pending_upgrade,
            operations: self.operations@,
            approvals: self.approvals@,
            operation_approvers: self.operation_approvers@,
            tokens_issued: self.tokens_issued@,
            votes_cast: self.votes_cast@,
            result_hashes: self.result_hashes@,
            ballot_metadata: self.ballot_metadata@,
            ballot_expired: self.ballot_expired@,
        }
    }
}

/// The storage of a contract that was never invoked.
pub open spec fn empty_store() -> Store {
    Store {
        admin: None,
        initialized_at: None,
        is_paused: None,
        approvers: None,
        approval_threshold: None,
        operation_nonce: None,
        pending_upgrade: None,
        operations: Map::empty(),
        approvals: Map::empty(),
        operation_approvers: Map::empty(),
        tokens_issued: Map::empty(),
        votes_cast: Map::empty(),
        result_hashes: Map::empty(),
        ballot_metadata: Map::empty(),
        ballot_expired: Map::empty(),
    }
}

impl Storage {
    /// The storage of a contract that was never invoked.
    pub fn new() -> (r: Self)
        ensures
            r@ == empty_store(),
    {
        Storage {
            admin: None,
            initialized_at: None,
            is_paused: None,
            approvers: None,
            approval_threshold: None,
            operation_nonce: None,
            pending_upgrade: None,
            operations: Table::new(),
            approvals: Table::new(),
            operation_approvers: Table::new(),
            tokens_issued: Table::new(),
            votes_cast: Table::new(),
            result_hashes: Table::new(),
            ballot_metadata: Table::new(),
            ballot_expired: Table::new(),
        }
    }
}

/// The contract's storage, with the time and the authorizations under which it is invoked and
/// what its invocations left behind.
#[derive(Debug)]
pub struct Env {
    /// The time of the ledger, in seconds.
    pub timestamp: u64,
    /// The addresses that authorized what is invoked.
    pub authorized: Vec<Address>,
    pub storage: Storage,
    /// The events published so far, oldest first.
    pub events: Vec<Event>,
    /// The hash of the code that the contract last asked to be replaced with.
    pub installed_wasm: Option<[u8; 32]>,
}

/// What an [`Env`] holds.
#[verifier::ext_equal]
pub struct Ledger {
    pub timestamp: u64,
    pub authorized: Set<Address>,
    pub store: Store,
    pub events: Seq<EventView>,
    pub installed_wasm: Option<[u8; 32]>,
}

impl View for Env {
    type V = Ledger;

    open spec fn view(&self) -> Ledger {
        Ledger {
            timestamp: self.timestamp,
            authorized: self.authorized@.to_set(),
            store: self.storage@,
            events: Seq::new(self.events@.len(), |i: int| self.events@[i]@),
            installed_wasm: self.installed_wasm,
        }
    }
}

impl Env {
    /// A ledger at `timestamp` on which the contract was never invoked.
    pub fn new(timestamp: u64) -> (r: Self)
        ensures
            r@ == (Ledger {
                timestamp,
                authorized: Set::empty(),
                store: empty_store(),
                events: Seq::empty(),
                installed_wasm: None,
            }),
    {
        Env {
            timestamp,
            authorized: Vec::new(),
            storage: Storage::new(),
            events: Vec::new(),
            installed_wasm: None,
        }
    }

    /// Records that `address` authorizes what is invoked.
    pub fn authorize(&mut self, address: Address)
        ensures
            final(self)@ == (Ledger {
                authorized: old(self)@.authorized.insert(address),
                ..old(self)@
            }),
    {
        self.authorized.push(address);
        proof {
            let before = old(self).authorized@;
            assert forall|a: Address|
                #[trigger] self@.authorized.contains(a) == old(self)@.authorized.insert(
                    address,
                ).contains(a) by {
                if before.contains(a) {
                    let i = choose|i: int| 0 <= i < before.len() && before[i] == a;
                    assert(self.authorized@[i] == a);
                }
                assert(self.authorized@.last() == address);
            }
            assert(self@.authorized =~= old(self)@.authorized.insert(address));
        }
    }

    /// Publishes an event.
    pub fn publish(&mut self, event: Event)
        ensures
            final(self)@ == (Ledger { events: old(self)@.events.push(event@), ..old(self)@ }),
    {
        self.events.push(event);
        assert(self@.events =~= old(self)@.events.push(event@));
    }
}

} // verus!
