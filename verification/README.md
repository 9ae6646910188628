# crowdfund

Verified core of a suite of CosmWasm contracts for decentralised fund
raising: a factory that creates campaigns (one per creator, kept in a list
ordered by the creator's UTF-8 bytes and paged after a given creator), the campaign
(deposits escrowed until the expiration; then the recipient's claim and the
donors' tokens when the goal is reached, or refunds when it is missed, each
sender redeeming once, and
vestings started through a payroll factory), the receipt NFT
that records each donor's payments, the vesting parameters a payroll is
started with, and two boiler-plate contracts (a counter and a dummy).

* `src/` — the contracts' logic as transition functions, verified with
  Verus: each takes the stored state and what the chain reported (block,
  sender, funds, query answers, address checks) and returns the new state
  and the response.  Calls into `cw_utils`, `cw_denom`, `wynd_utils` and
  `cosmwasm_std` that only compute stand behind small trusted wrappers.
* `app/` — the CosmWasm entry points: storage, queries to other contracts,
  serialisation of messages, and the `cw721-base` contract the receipt is
  built on.
* `tests/` — tests of the library.
