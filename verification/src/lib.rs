//! Staged authenticated encryption of a byte stream with ChaCha20-Poly1305.
//!
//! An encryptor hands out a fresh nonce and then the sealed input; a
//! decryptor takes such a stream apart and hands out the plaintext. Both are
//! pulled chunk by chunk until they are exhausted, and a sink collects what
//! they hand out.

pub mod aead;
pub mod chacha;
pub mod chunks;
pub mod error;
pub mod producer;
pub mod sink;
