//! Decision logic of the JNI bridge between the contact discovery service
//! and its SGX enclave: how Java arguments are checked and converted, in
//! which order the enclave and the JVM are asked to do their work, and
//! which Java exception a failure becomes.
//!
//! The JVM and the enclave are outside this crate. Each native call is a
//! small state machine: its `step` function takes what the last JVM or
//! enclave call gave back and says what to do next.

pub mod error;
pub mod text;
pub mod arrays;
pub mod catch;
pub mod sgxsd;
pub mod enclave;
pub mod server;
