# agro_dao

Verified state transitions of the Agro DAO Solana programs: the protocol
core, governance (proposals, weighted votes, tallies, execution), reputation
(scores and tiers), research (researcher profiles, proposals, milestones,
findings) and the treasury (deposits with fees, proposal funding, milestone
payouts, emergency pause), together with a constant-product AMM, an escrow
and an NFT-staking program.

- `src/` is the library, written in Verus. Every instruction is a function
  from the accounts it reads, the cluster time and its arguments to the
  accounts it writes, the event it emits and the token movements or
  cross-program calls it asks for; its contract states the outcome exactly,
  error by error. Properties that span instructions (vote accounting, tally
  finality, single execution, funding totals, payout accounting, pause and
  unpause, score bounds, tier monotonicity, milestone progress) are proved
  as lemmas beside them.
- `tests/` exercises the library on concrete values.
- `app/` is the Anchor side: account layouts, account validation, clock
  reads, token CPIs and events, calling the library for every decision.
