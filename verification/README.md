# creditra_contracts

State logic of two Soroban contracts, with its contracts and laws proved.

- `src/invoice_model.rs` — the invoice contract as mathematics: a global
  grace period and a map from invoice ids to invoices, one transition
  function per operation, all grace periods capped at 90 days.
- `src/invoice.rs` — `InvoiceContract`, whose operations are proved to follow
  that model (invoices kept in a vector with distinct ids).
- `src/invoice_laws.rs` — properties spanning the operations (override
  precedence, clearing reverts to the global default, shared cap, per-invoice
  isolation, validity kept, the global default after any call sequence).
- `src/credit.rs`, `src/credit_events.rs` — the credit contract's persistent
  storage and its admin-gated upgrade decision, with the upgrade event and
  error codes.
- `src/credit_laws.rs` — properties of the upgrade flow (schema bump, state
  kept, refusal of paused / zero / repeated hashes, rollback, and over any
  call sequence: schema version = 1 + accepted upgrades, pause flag = latest
  setting, admin permanent).
- `src/address.rs` — the ledger address type, carried through the state,
  and its copy.
- `app/` — the Soroban entrypoints, which load storage, demand the
  authorization of the address the library names, call the library, write
  back, install code and publish events; and the error type with its
  display messages.
