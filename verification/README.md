# alien_gateway

Verified state machines of the Alien Gateway Soroban contracts, written in
Verus.

- `src/` holds the contracts' logic over a plain model of their storage:
  `identity` (roles, SMT root, commitment registration, address manager),
  `escrow` (vaults and scheduled payments), `factory` (username records)
  and `auction` (the claim of an auctioned username). `store` is the keyed
  store that models persistent storage; `ids` holds addresses and 32-byte
  hashes. Each state-changing entry point is specified by a spec function
  (`*_spec`) from the storage view and its arguments to the new view or
  the error, and the laws of each contract are proof functions next to it.
- Entry points that need an authorization return the address that must
  authorize; the ledger time is an argument.
- `app/` wraps the model in Soroban contracts: it reads the touched storage
  entries into the model, asks for the authorization, writes the entries
  back and publishes the events.
- `tests/` exercises the library on concrete values.
