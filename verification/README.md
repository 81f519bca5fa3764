# libcrypto

A safe binding layer for OpenSSL's libcrypto, with its decision logic
verified in Verus.

Every wrapper of the binding does three things: it decides whether a call
may be made at all (buffer extents, integer conversions, argument shapes),
it makes the foreign call, and it interprets libcrypto's report (status codes,
lengths written through out-parameters, pointers that may be null). The
first and last parts are the library in `src/`, each function proved against
a contract; the foreign calls are in `app/`.

## Layout

- `src/cipher.rs`, `src/pipeline.rs`: key/IV extents, block-size capacities,
  update and final reports, pipelined operations.
- `src/traversal.rs`: the state kept across the callbacks of libcrypto's
  enumerations (panics stop the callbacks; missing names invalidate).
- `src/outcomes.rs`: status and length reports, two-phase size queries, C
  integer conversions.
- `src/objects.rs`: object-name registry records, typed binary search,
  signature cross-reference checks.
- `src/keygen.rs`, `src/hpke.rs`, `src/digest.rs`, `src/handles.rs`,
  `src/release.rs`, `src/rand.rs`: quick key generation shapes, HPKE suites
  and checks, serialized digest state, reference-counted method handles,
  allocation release strategies, the random-method table.
- `tests/`: tests of the library on concrete values.
- `app/`: the foreign calls, over the library.
