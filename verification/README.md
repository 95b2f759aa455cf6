# anonvote

The rules of a ballot audit contract, verified with Verus.

The contract records ballots on a ledger by the hash of their identifier, counts the tokens issued
and the votes cast in each, and publishes the hash of its result, so that anyone can check a ballot
without trusting a server. Only counts and hashes are stored: no voter, no token value, no vote.

Critical operations (rotating the admin, pausing, publishing a result, scheduling an upgrade) are
proposed by the admin and executed by the approval that reaches M of N. A proposal keeps the
approvers and the threshold that were configured when it was made, expires after seven days and can
be cancelled until it is executed. A scheduled upgrade waits another 48 hours.

- `src/` is the verified library. It works on an `Env`, which holds the contract's storage as plain
  values together with the time, the authorizations and the events of its invocations. An
  invocation that is refused leaves the `Env` as it was.
- `src/rules.rs` states when each invocation is refused and what it changes; the contracts of the
  entry points refer to it.
- `src/soundness.rs`, `src/laws.rs` and `src/history.rs` prove what holds of the storage at every
  moment, of every invocation and of every sequence of invocations.
- `app/` runs the library as a Soroban contract: it brings the storage entries that decide an
  invocation (`src/footprint.rs` proves which these are), takes back what changed and publishes the
  events.
