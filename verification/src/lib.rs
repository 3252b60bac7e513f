//! A secret-keyed encrypted blob store: the streaming cryptographic engine.
//!
//! A file is sealed chunk by chunk under a fresh 32-byte secret, each chunk
//! becoming one length-prefixed, independently authenticated frame. The secret
//! leaves the library once, as a mnemonic phrase; only its one-way hash, the
//! content address, is kept with the sealed filename. Whoever presents the
//! phrase can read the object or delete it; nobody else can.
//!
//! The library computes and decides; it reads no file and serves no request.
//!
//! - [`mnemonic`], [`key_material`], [`cipher`]: the bindings to BIP-39,
//!   SHA-256, the system's random source and AES-256-GCM.
//! - [`big_endian`], [`frame`]: the blob format.
//! - [`encryption`], [`decoder`], [`decryption`]: writing a blob frame by
//!   frame, and reading it back.
//! - [`handlers`], [`blob_store`], [`models`], [`error`]: the store, retrieve
//!   and delete operations as the service around the library runs them.
//! - [`laws`]: what holds across all of these.

pub mod big_endian;
pub mod blob_store;
pub mod cipher;
pub mod decoder;
pub mod decryption;
pub mod encryption;
pub mod error;
pub mod frame;
pub mod handlers;
pub mod key_material;
pub mod laws;
pub mod mnemonic;
pub mod models;
