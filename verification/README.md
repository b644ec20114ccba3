# sol_programs

The rules of seven small on-chain programs, verified with Verus:

- `src/voting.rs`: a registry of votings with a participant cap, votes
  refused a second time in the same voting (except when that voting is the
  first entry of the voter's record, which the program does not find), and
  a winner declared by the voting's creator;
- `src/shart.rs`: a pooled game in which a maker opens a pot, listed
  addresses other than the first join with the same stake (the first is
  never found), a winner is drawn from the clock and the pot is paid out
  once;
- `src/escrow.rs`: a two-token escrow with a swap life cycle and a global
  hold (a completed status is not stored on chain, since the program takes
  the swap account read-only when completing it);
- `src/message.rs`: a message board where only a message's author may
  rewrite it;
- `src/data_container.rs`: a fixed-size zero-copy buffer whose leading bytes
  are overwritten;
- `src/vault.rs`: a lamport vault;
- `src/global_stats.rs`: a store that grows by one string per call.

`src/address.rs` holds the 32-byte address type and the lamport arithmetic
shared by the programs; `src/constraint.rs` the failure of an account
constraint that carries no error of the program's own.

Each handler takes the account data as plain values and returns either the
program's error (every account unchanged) or the updated accounts and the
transfer to perform. `app/` holds the Anchor side: account layouts and
constraints, the clock, balances and the cross-program calls.
