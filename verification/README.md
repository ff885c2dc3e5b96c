# slate

A slate is a transaction in the making. The wallets that take part pass it back and
forth: each adds its inputs, outputs and public keys in a first round and its part of
the joint signature in a second, until one of them finalizes it.

`src/` is the library. It is written in Verus: every function states what it returns or
changes, and Verus proves it.

- `slate` – the slate, new slates, their kernels and messages
- `participant`, `messages` – the public data of participants, and their signed messages
- `rounds` – joining a slate and signing it
- `offset` – the offset of a transaction or of a compact slate
- `finalize` – the joint signature, the excess, the fees and the final transaction
- `compare` – what may have changed in a slate that comes back
- `versions`, `documents` – the third version of the format, and reading documents
- `transaction` – inputs, outputs and kernels
- `laws` – what holds across operations
- `crypto` – keys, signatures, commitments and hashes; the work is done by
  `grin_core`, `grin_keychain`, `grin_util`, `blake2-rfc`, `rand` and `uuid`, and the
  contracts there are trusted
- `error`, `bytes`, `text` – errors, byte arrays and numbers as text

Contracts speak of views: the view of a slate is a `SlateView`, over sequences.

`app/` is ordinary Rust around the library: documents in JSON, transactions of
`grin_core`, and the rules of the network. `tests/` runs the library.
