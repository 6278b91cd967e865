# voting

A verified library for a two-program on-chain voting system.

* `voting` keeps polls, their candidates and one vote record per participant
  and poll. Candidates may be added until a poll's start time; votes are
  accepted after the start time and until the end time; after the end time
  the poll's authority resolves it, which reports the winner (or a tie, or no
  votes) and returns the rent of the poll and candidate accounts.
* `voting_manager` numbers polls with one counter shared by all
  administrators, so no two polls share an id, and creates them, with their
  candidates, in `voting`, with the administrator's manager account as their
  authority (only that authority may add candidates); it also resolves them.

Layout:

* `src/` – the library, verified with Verus. Each instruction takes the
  addresses of its accounts, whether each required signer signed, whether
  each account to be created already exists, their decoded contents, its
  arguments and the current time; it checks the signatures, the accounts'
  addresses against their seeds (through `Pubkey::try_find_program_address`,
  the one trusted call) and that no existing account is created again, and
  returns the new contents or the error. `src/laws.rs` holds the properties that relate
  several instructions.
* `tests/` – tests of the library on concrete values.
* `app/` – glue for the chain: reading the clock and account bytes, writing
  the results back, logging.
