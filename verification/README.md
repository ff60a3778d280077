# kitt_protocol

The wire contract of the K.I.T.T. components: versioned message envelopes,
authenticated frames, bounded framing (1 MiB) and the payload types of
protocol v1, written in Verus.

- `src/envelope.rs`: `Envelope`, its validation, the frame-size bound,
  decoding (size check, then the parse outcome, then validation) and the
  constructors `new`, `response`, `error`.
- `src/frame.rs`: `AuthenticatedFrame`, its construction and decoding.
- `src/json.rs`: JSON string literals as `serde_json` writes them.
- `src/text.rs`: whitespace (blank text) and decimal notation.
- `src/ids.rs`: fresh UUID v4 identifiers through `uuid`.
- `src/laws.rs`: properties proved across the functions above.
- `src/kinds.rs`, `src/messages.rs`, `src/multillm.rs`: message kinds and payloads.
- `app/`: serde-enabled copies of the types (the JSON parse of a frame happens
  there, through serde's derived `Deserialize`), the payload types that hold
  floating-point scores, and generic constructors that serialize a payload.

Payloads are held as JSON text in the library; `app/` turns them into and
from `serde_json::Value`s.
