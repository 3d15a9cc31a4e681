# godcoin_native

The checks and conversions of the GODcoin Node.js bindings, verified with Verus.

- `src/` is the verified library: assets and their symbols (`asset`), Ed25519 keys,
  signatures and SHA-256 digests through libsodium (`crypto`), transaction headers and
  their signature pairs (`tx`), block headers and the transaction merkle root (`block`),
  and the RPC message numbering, peer and event kinds and the receive buffer (`net`).
- `app/` is the Node.js module: it reads JavaScript values, hands them to the library,
  and calls GODcoin to encode and decode transactions, blocks and RPC frames.
- `tests/` runs the library against libsodium.
