# epp_client

Request and extension data types for EPP (RFC 5730): the contact delete
command (RFC 5733), the host delete and update commands (RFC 5732) and the
DNS security extension `<create>` data (RFC 5910), written in Verus.

- `src/` is the verified library. Each type has a model (its `View`), and
  every constructor, conversion, setter and getter states its result over it.
  The number conversions of `Algorithm`, `DigestAlgorithm`, `Protocol` and
  `Flags` come with round-trip proofs.
- `app/` holds the XML (instant-xml) and serde / JSON-schema forms of the
  types, which convert from the library types and back.
- `tests/` exercises the library, and the `<maxSigLife>` element through
  instant-xml.
