//! Envelope encryption: plaintext is sealed under a fresh, single-use data
//! encryption key (DEK), and the DEK itself is sealed under a key encryption
//! key (KEK) held by an external key service. The sealed payload, the wrapped
//! DEK and the metadata needed to undo both layers travel together as a
//! self-describing envelope.
//!
//! The crate also holds the decision logic of a daemon that exposes the engine
//! over a line-delimited JSON protocol; the socket loop itself lives outside.

pub mod bytes;
pub mod encoding;
pub mod encryption_envelope;
pub mod envelope;
pub mod error;
pub mod gcm;
pub mod gcm_siv;
pub mod handler;
pub mod key;
pub mod protocol;
pub mod random;
pub mod server;
pub mod types;

pub use encryption_envelope::EncryptionEnvelope;
pub use envelope::EnvelopeEncryptor;
pub use error::VioletError;
pub use handler::{decrypt_with_key, encrypt_with_key, plan_decrypt, plan_encrypt, KeyAction, RequestHandler};
pub use key::Key;
pub use protocol::{Operation, Request, RequestData, Response, ResponseResult};
pub use server::DaemonServer;
pub use types::Algorithm;
