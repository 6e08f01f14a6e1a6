# secret_rocks_minter

The minter of the Secret Rocks collection on Secret Network: buyers pay in a SNIP-20 token and
receive SNIP-721 rocks, each with a utility drawn at random and a secret number drawn from a
shuffled list; the administrator adds the collection, opens the sale and mints giveaways.

- `src/` is the library, verified with Verus: the decisions of every entry point
  (`contract`), the drawing of a batch (`draw`), the entropy pool and the seed (`entropy`),
  the metadata of a rock (`token`), decimal notation (`text`), the stored configuration
  (`state`), the messages (`msg`), laws that span operations (`laws`), and the calls into
  `sha2`, `secret-toolkit`, `rand`, `rand_chacha` and `secret-cosmwasm-std` (`outside`).
- `app/` is the contract around it: entry points, storage, the supply query to the collection,
  JSON messages and their conversions.
- `tests/` runs the library on concrete values.
