# reth_provider

The entry point to a blockchain node's data: blocks, headers, transactions, receipts and states,
from the database and from the tree of blocks that are not stored yet. It also tracks which blocks
the consensus layer calls the tip, safe and final.

- `src/` is the library, verified with Verus. `provider` answers questions, `resolve` and `state`
  hold the rules for putting an answer together, `chain_info` tracks the heads, `traits` and
  `database` say what can be asked of a tree and of a database, and `laws` states what holds of the
  provider as a whole.
- `app/` shares one provider between threads and traces its state requests.
- `tests/` runs the library against a database and a tree in memory.

The traits of the database and the tree promise nothing of their answers. A contract ties an answer
to the call it comes from with `call_ensures(method, arguments, answer)`: the answer is one that this
method may return for these arguments.

Two things are taken on trust. Of `std::time::Instant`, the clock, nothing is claimed. An
implementation of `HeaderHasher` has to return the same hash for equal headers.
