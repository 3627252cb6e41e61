# lottery

The logic of an on-chain ticket lottery, verified with Verus.

- `src/` — the library. `account` holds the account data (lotteries, users,
  settings, counters), `key` the 32-byte addresses, `error` the refusals,
  `random` the draw of three distinct winner indices with oorandom's
  `Rand64`, and `processor/*` one function per instruction: each takes the
  accounts' data, states exactly how it changes them and when it refuses,
  and gives back the token amounts to transfer. `laws` proves properties
  that span instructions (a drawn lottery is closed, joins never repeat a
  participant or pass the ticket limit, the prizes never exceed the pool they are computed from, the winners
  depend only on the clock time and the participants, ...).
- `tests/` — the instructions on concrete accounts.
- `app/` — the Anchor program around the library: account storage, token
  transfers, the clock.
