//! A verified core for a client-side TLS session on top of a platform
//! security-context provider: the handshake state machine, the stream
//! adapter's buffering rules, the error taxonomy, and a read-only navigator
//! over the peer's validated certificate chain.
//!
//! The library performs no I/O. Every operation that needs the transport or
//! the platform is a step function: it takes what came back from the last
//! action and answers with the next one.

pub mod buffers;
pub mod cert_chain;
pub mod error;
pub mod event;
pub mod handshake;
pub mod laws;
pub mod model;
pub mod ncrypt_key;
pub mod schannel_cred;
pub mod session;
pub mod tls_stream;
