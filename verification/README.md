# tonic_ibft

Istanbul BFT consensus for a chain whose blocks are proposed by known validators, written in
Verus. The engines are state machines that decide; the program around them sends, stores and
waits.

- `src/primitives`: secret keys, addresses, recoverable signatures and the signer that holds a
  key. Hashing, secp256k1 and hexadecimal decoding come from outside crates, behind functions
  whose contracts are stated and not proved.
- `src/poa`: the proof-of-authority engine. `types` holds the messages and certificates,
  `verification` says which proposals, round changes and certificates are accepted, `round` is
  the course of one round, `watch` finds later rounds that others have moved to, `run` goes from
  round to round, and `laws` states what holds of the engine as a whole.
- `src/consensus`: the engine that agrees on a block in round zero or not at all, with `laws` of
  its own.
- `app`: runs the engines on tokio, against a network and a message store that its user brings.
- `tests`: the library on concrete values.
