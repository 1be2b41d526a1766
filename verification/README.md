# ipfs_nft

Two runtime modules, verified with Verus:

- `nft`: a registry of unique assets. An asset's id is the Blake2b-256 hash of
  the SCALE encoding of its attributes; an account mints, burns and transfers
  assets within a limit on all assets and a limit per account.
  `ledger` models the storage as maps and states what each call does;
  `laws` proves the registry invariant and the laws across calls;
  `pallet` holds the executable storage (`Registry`, implementing
  `UniqueAssets`) and the signed calls (`Pallet`).
- `ipfs`: queues of requests for a local IPFS node. Signed calls fill them
  (`pallet`); the off-chain worker's decisions (`worker`, `data_run`) say which
  queue to serve at which block, which request each command becomes, and what
  to do with each response.

`bytes`, `table`, `frame` and `hashing` hold what both share: byte order and
equality, a map keyed by 32-byte ids, origins and dispatch errors, and the
hash (computed by `sp-core`).

`app/` holds what runs around the library: the off-chain worker loop that
sends the requests, reads the clock, submits transactions and logs, and
SCALE-encodable copies of the library's types.
