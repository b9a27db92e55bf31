# cds_jni

The JNI bridge between the contact discovery service (Java) and its SGX
enclave, with its decisions verified by Verus.

- `src/` is the verified library. Every native call that needs more than
  one call into the JVM or the enclave is a state machine (`enclave.rs`,
  `server.rs`): `start` gives the first state and action, `step` takes the
  answer to an action and gives the next one, until the action is `Finish`.
  `catch.rs` decides what an entry point returns and throws, `arrays.rs`
  converts and checks Java byte arrays, `error.rs` maps enclave statuses to
  errors, `text.rs` holds the UTF-8 check and decimal formatting,
  `sgxsd.rs` the data exchanged with the enclave.
- `app/` holds the JNI entry points. They run the machines, making the JVM
  calls (through the `jni` crate) and the enclave calls (through the
  enclave's own FFI crates, which are not published).
- `tests/` runs the machines and conversions on concrete values.
