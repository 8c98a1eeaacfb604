# aptos-remote-signer

A remote signing service for Aptos validators. The validator's consensus keys
live in a separate process, which checks the safety rules before it signs a
proposal, a vote, an order vote, a timeout or a commit vote, and answers over
gRPC (optionally with mutual TLS).

## Layout

- `src/` is the library, verified with Verus: the configuration types and
  their checks, the protocol's messages and their protobuf JSON form, how a
  safety-rules error travels on the wire and is read back, which gRPC path
  carries which operation, the client's retry policy, the service's signing
  statistics and the start-up checks of the signer's storage. Each public
  function states its result in its `ensures`; the properties that span
  several functions are public proof functions (`lemma_*`).
- `app/` is the program around it: command-line arguments, reading the YAML
  configuration, opening the secure storage, the gRPC server and client, and
  the calls into the safety rules.
- `tests/` runs the library on concrete values.
