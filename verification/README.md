# cw20_guardian

A CosmWasm contract, verified with Verus, that protects borrowers of a money
market. A borrower registers whitelisted cw20 tokens as guardians. When the loan
passes its borrow limit, a liquidator can have those tokens swapped, the loan
brought back to the limit, and a fee paid, instead of the collateral being
liquidated. Where the guardians fall short by a thousand coins or more, the
market's overseer liquidates as usual.

## Layout

- `src/` is the verified library.
  - `contract`: the entry points, from what the host read to what it has to
    write and answer.
  - `liquidation`, `decision`: a liquidation as a dialogue with the chain, and
    the rule that takes each answer to the next question or to the end.
  - `settlement`: the value of what would be liquidated, and the sums that
    follow.
  - `outcome`: what a whole liquidation comes to.
  - `storage`: what holds of the records from one message to the next.
  - `wire`: questions and messages as other contracts read them.
  - `amount`, `types`, `error`: the values all of this is about.
- `app/` runs the library on chain: storage, address validation, queries and
  the encoding of the contract's own messages.
- `tests/` runs the library against the real crates.

## What is trusted

The arithmetic of `cosmwasm-bignumber` (and of `bigint` below it), the decimal
text of its numbers and of `cosmwasm-std`'s, and the JSON that `cosmwasm-std`
renders for messages of `moneymarket`, `cw20` and `astroport`. Each is a small
function marked `external_body`, with its claim in its doc comment.
