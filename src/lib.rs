//! Signed, timestamped message envelopes over Ed25519.
//!
//! `gen` makes a keypair text, `hash` digests a text, `sign` seals a digest
//! with a keypair and the current time into an envelope, and `open` checks an
//! envelope and returns what was signed.
pub mod decimal;
pub mod error;
pub mod primitives;
pub mod protocol;

pub use error::OpenError;
pub use error::SignError;
pub use protocol::gen;
pub use protocol::hash;
pub use protocol::keypair_from_seed;
pub use protocol::open;
pub use protocol::sign;
pub use protocol::sign_at;
