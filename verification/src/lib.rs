//! GXT: compact, signed and optionally encrypted tokens for exchanging
//! structured data between two parties with no server and no shared state.
//!
//! A token is printable text: `gxt:` followed by the Base58 text of the
//! compressed binary encoding of a record. A record carries the signer's two
//! public keys, a payload, an optional reference to a parent, the content id
//! of all these and a signature over them. Anyone who holds a token can
//! verify it; the owner of the id card that a message was sealed for can
//! open it.
//!
//! The operations are [`make_key`], [`make_id_card`], [`verify_message`],
//! [`encrypt_message`] and [`decrypt_message`]. What each gives is stated
//! over a model of the format, in which the hash, the signature scheme, the
//! key agreement, the cipher and the three codecs stand as named functions
//! that the crates `blake3`, `ed25519_dalek`, `x25519_dalek`,
//! `chacha20poly1305`, `serde_cbor`, `zstd` and `bs58` compute.

pub mod cli;
pub mod codec;
pub mod envelope;
pub mod error;
pub mod handler;
pub mod hexcode;
pub mod keys;
pub mod laws;
pub mod listing;
pub mod message;
pub mod payload;
pub mod primitives;
pub mod reader;
pub mod signer;
pub mod text;
pub mod timelock;
pub mod viewer;

pub use crate::envelope::{Envelope, PayloadKind};
pub use crate::error::GxtError;
pub use crate::keys::make_key;
pub use crate::message::{decrypt_message, encrypt_message, make_id_card, verify_message};
pub use crate::payload::Payload;
