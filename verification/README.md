# mobilecoind_json

The core of a REST gateway in front of mobilecoind, verified with Verus.

- `src/` is the library: for every endpoint, the gRPC request it sends to
  mobilecoind (or the error text it answers with), hex decoding through the
  `hex` crate, decimal amounts, the failure text of each call, and the
  command line defaults. Contracts state each result exactly; proof
  functions state the round-trip laws (amounts and hex text that the
  gateway hands out are accepted back unchanged).
- `app/` is the HTTP server (rocket) and the gRPC client; it performs the
  calls the library decides on.
- `tests/` runs the library on concrete inputs.
