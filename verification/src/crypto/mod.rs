//! Cryptographic primitives: key derivation, symmetric AEAD, asymmetric wrap.

pub mod aes;
pub mod envelope;
pub mod keys;
