# universal_swap

The decision logic of a CosmWasm swap entry point (swap and action, user swaps with
affiliate fees, post swap actions, universal swap memos, configuration) and of its Oraidex
swap adapter (pool ids, router operations), written in Verus and verified.

The library takes plain values: what the chain said of an address, what storage held, what
a query answered. It returns plans: the messages to send, the attributes to emit, the
values to store, or the error.

- `src/`: the verified library. `decimal`, `split` and `chain` hold the text and number
  handling and the calls into `cosmwasm_std`; `asset`, `swap`, `action`, `response` the
  values; `oraidex`, `admin`, `user_swap`, `post_swap`, `swap_and_action`, `universal`
  the contract's operations; `laws` the properties that hold across them.
- `tests/`: tests of the library on concrete values.
- `app/`: the contract around the library: storage, queries, address checks and the
  encoding of messages.
