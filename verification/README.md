# gp_protocol

The versioned wire contract between a GlobalProtect client GUI and its
privileged backend service, as a Verus-verified library.

- `src/` holds the message types and their logic (OS names, gateway and
  connection accessors, the connect-request builder, the redacted debug text
  of the tunnel parameters, the scrub of the secrets on drop, state labels),
  each function with a contract over an abstract view, and the laws of the
  library as proof functions.
- `app/` holds the serde/specta copies of the message types, which carry the
  wire attributes, with conversions to and from the library types.
- `tests/` runs the library on concrete values.
