# mosaik_rust_api

A Rust API for simulators that take part in a [Mosaik](https://mosaik.readthedocs.io)
co-simulation (API version 3), with its protocol core verified by Verus.

- `src/` is the verified library: the Mosaik types (`types`, `meta`), the JSON
  values a request is read from (`json`), message framing (`framing`,
  `mosaik_protocol`), request reading (`request`) and request handling
  (`handling`), decimal notation (`decimal`), and the two text conversions
  that call outside code (`text`).
- `app/` holds what stays unverified: the `MosaikApi` trait that simulators
  implement (its `init` takes a floating-point time resolution), the async TCP
  connection, the `serde` copies of the library types, the conversion
  between `serde_json` values and the library's JSON values, and the
  `serde_json` reads whose error messages the library puts into failure replies.
- `tests/` exercises the library on concrete messages and requests.
