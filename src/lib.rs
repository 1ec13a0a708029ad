//! A one-to-many broadcast of authenticated-encrypted payloads: nonce
//! construction, an AEAD session over a pre-shared key, receiving nodes and
//! the broadcaster that fans each sealed message out to them.

mod clock;
pub mod nonce;
pub mod session;
pub mod message;
pub mod node;
pub mod broadcaster;
