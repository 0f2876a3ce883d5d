# security_token

A verified model of a security token program: a mint managed by one key,
token accounts tied to the mint's group and network authority, and the
instructions that create mints and accounts (by their owners or by the mint's
manager), issue, retire and move tokens, freeze accounts, close empty ones,
and record delegate allowances.

- `src/keys.rs`: 32-byte public keys and their comparison.
- `src/state.rs`: the stored account kinds, the approval read from the
  network authority, and the space reserved for each account.
- `src/error.rs`: the program's refusal codes.
- `src/security_token.rs`: each instruction as a function with an exact
  contract over a spec function of its result; a refusal changes no account.
- `src/laws.rs`: what holds across instructions (conservation of tokens;
  the supply stays equal to the balances under issuing, retiring,
  transferring, creating a new account and closing an empty one; round
  trips; frozen accounts; who may act).
- `app/lib.rs`: the Anchor program that reads the accounts of an instruction,
  hands them to the library and writes back its answer.
