//! Client-side preparation of simplepush.io notification messages.
//!
//! A [`Message`] is validated and turned into the outbound [`Payload`]:
//! either the fields pass through unchanged, or the body, title and action
//! labels are end-to-end encrypted with AES-128-CBC under a key derived by
//! hashing `password || salt`, each ciphertext URL-safe base64 encoded, and
//! the per-message random IV shipped as uppercase hex.

pub mod cipher;
pub mod client;
pub mod hex;
pub mod message;
pub mod payload;

pub use client::SimplePush;
pub use message::Message;
pub use payload::EncryptionFailed;
pub use payload::Payload;
