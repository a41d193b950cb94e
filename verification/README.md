# q3_26_escrow

A token escrow: a maker deposits tokens of mint A in a vault and asks for an amount of
mint B; a taker settles before the offer expires, or the maker takes the deposit back
once it has. The maker can push the expiration later, never more than 30 days ahead.

- `src/` is the verified library. For each instruction (`make`, `take`,
  `refund`, `update`) it checks the accounts against the constraints the program
  declares, reads the cluster clock, and refuses with an error or returns the escrow
  state to store and the token program calls to make. Every instruction also has an
  `_at` form that takes the time as an argument and whose contract is exact.
  `src/laws.rs` holds the properties that span instructions.
- `app/` is the Anchor program around it: account structs, error codes, and the calls
  into the token program.
- `tests/` runs the program's scenarios against the library on an in-memory ledger.
