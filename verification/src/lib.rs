//! A ballot audit contract with M-of-N governance, and the proof of its rules.
//!
//! The contract records ballots by the hash of their identifier, counts the tokens issued and the
//! votes cast in them, and publishes the hash of their result. It stores no voter, no token and
//! no vote. Rotating the admin, pausing, publishing a result and scheduling an upgrade are
//! critical operations: each is proposed, and executed once M of N approvers approved it.
//!
//! - `types`, `events`, `table`, `ledger`: the values, and the storage that an invocation works on.
//! - `rules`: for each kind of invocation, when it is refused and what it changes.
//! - `contract`, `governance`, `ballots`, `upgrades`, `queries`: the entry points.
//! - `footprint`: which entries of the storage decide an invocation.
//! - `faithfulness`: that the views, of which the rules speak, hide nothing.
//! - `meaning`: what each invocation is for, said of the entries of the storage.
//! - `soundness`, `laws`, `history`: what holds at every moment, of every invocation and of every
//!   sequence of them.

pub mod ballots;
pub mod contract;
pub mod events;
pub mod faithfulness;
pub mod footprint;
pub mod governance;
pub mod history;
pub mod laws;
pub mod ledger;
pub mod meaning;
pub mod queries;
pub mod rules;
pub mod soundness;
pub mod table;
pub mod types;
pub mod upgrades;

pub use contract::AnonVoteContract;
pub use footprint::DataKey;
pub use ledger::Env;
pub use types::Address;
pub use types::BallotLimits;
pub use types::BallotMetadata;
pub use types::BallotState;
pub use types::BallotStateSnapshot;
pub use types::ContractError;
pub use types::CriticalOperation;
pub use types::OperationStatus;
pub use types::PendingOperation;
pub use types::PendingUpgrade;
