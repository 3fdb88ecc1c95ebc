# sessrums

Session types for Rust, with their logic verified by Verus.

- `src/proto`: binary protocol types (`Send`, `Recv`, `Offer`, `Choose`,
  `Rec`, `Var`, `End`) with their duals and the structure each describes;
  global protocol types with validation, involved roles and type-level
  projection; duality laws.
- `src/chan`: channels typed by their protocol; each step keeps the IO value
  and role.
- `src/connect.rs`, `src/api.rs`: stream framing (a big-endian length header
  before each value), connections and channel pairs.
- `src/types`: runtime global and local protocols, projection onto a role
  (with its laws), recursion checks, binary sessions over transports,
  multiparty sessions and an in-memory broker.
- `src/names.rs`: comparison and sorting of role names.
- `app/`: what stays outside the verified library: serde encoding, async IO,
  TCP/Unix streams, the protocol macros and the derive-carrying copies of
  library types.
