# evcharge

The decision logic of an EV charging platform (billing, device gateway and
user services), written in Verus with its contracts proved.

- `src/billing/`: tariffs, quotes and metered fees, revenue splits, fee
  settlement.
- `src/gateway/`: device registration and provisioning, START/STOP command
  state machines, the connection registry and frame admission.
- `src/user/`: checkout, payment receipts, refunds (two-person review,
  execution, provider results), wallet, sessions and order queries.
- `src/text.rs`: string helpers, and the calls into `uuid` and `chrono`.
- `app/`: what stays beside the library: serde wire forms, the
  floating-point fee engine, and checks made before calling functions with
  preconditions.

`tests/` exercises the library on concrete values.
