# oak_io

Messages for inter-node communication, verified with Verus.

- `src/message.rs`: `Message` (bytes and handles) and its hexadecimal debug text.
- `src/codec.rs`: the `Encodable` and `Decodable` traits, each with a spec
  function that states what the method returns, the encodings of `u32` and `()`,
  and the round-trip predicates with their proofs for those two types.
- `src/either.rs`, `src/init_wrapper.rs`: the encodings of a sum (a variant byte in
  front of the inner bytes) and of an initialisation wrapper (the command channel's
  handle in front of the inner handles), with the proofs that both keep the round
  trip of their inner types.
- `src/text.rs`: decimal and hexadecimal text.
- `src/stub_ring`, `src/stub_sha2`: signature and hashing interfaces that compute
  nothing.
- `app/`: logging set-up, conversion to and from the `either` crate, `Debug` output.
