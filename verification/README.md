# heroes

The rules of the HEROES bounty platform as a verified library: four NEAR
contracts (bounties, reputation, disputes, KYC whitelist) written as state
machines whose every public function carries a contract proved by Verus.

## Layout

- `src/accounts.rs` — account lists kept as sets, and keyed lists of entries
  (lookup, store, paging) with their laws.
- `src/bounties/` — the bounties contract: bounties and claims, fees, the
  contest, hackathon and subtask forms, approvals by owners, appointed approvers and
  validator DAOs, payouts, cancellation, disputes and KYC checks. A method takes
  the caller, the time and the deposit (`CallContext`), changes the state and
  returns the calls to other contracts it asks for (`Effect`); the answer of
  such a call comes back through a method of its own (`after_*`). `laws.rs`
  holds the properties that span several methods.
- `src/reputation.rs` — the counters of the reputation contract.
- `src/disputes/` — the life of a dispute, from its opening to the outcome
  reported to the bounties contract.
- `src/kyc/` — the KYC whitelist: providers, service profiles, verified
  accounts.
- `tests/` — tests on concrete values of each contract.
- `app/` — the near-sdk contracts around the library: storage, JSON, promises
  and callbacks. Each module is deployed as a contract of its own.
