# savings_vault

A Solana savings vault: a wallet locks tokens of a mint in a vault, and once a month anyone may
crank the vault to accrue 1% interest, paid out of a treasury that whitelisted depositors fund
through the mint's interest depositor manager.

`src/` is the verified library (Verus). It holds every decision the program makes:

- `pubkey`, `ids` — addresses, and the fixed addresses of the program, the SPL token program and
  the native mint;
- `state`, `error` — the two program accounts, the events, the constants and the error codes;
- `token` — token transfers as the instructions the token program receives, and the token
  accounts the program asks to create;
- `pda` — program-derived addresses and the seed lists of the program's accounts;
- `whitelist` — searching and filtering lists of addresses;
- `instructions` — for each instruction, its accounts, the checks on them, and the handler that
  decides the outcome: the new account state, the event, and the token transfers or account
  creations to perform;
- `laws` — properties across instructions (conservation of a vault's balance under
  withdrawals, at most one accrual a month, the whitelist bound, who may fund or withdraw).

`app/` is the Anchor program around the library: account loading and creation, the entry points,
invoking the token transfers the library describes, writing the accounts back and emitting the
events.

`tests/` runs the library on concrete accounts, with program-derived addresses computed by
solana-program.
