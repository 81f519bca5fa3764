//! Verified decision logic of a safe libcrypto (EVP) binding layer.
//!
//! Every operation of the binding layer that talks to libcrypto is split in
//! two: the part that decides (whether a buffer is large enough, what a
//! status code means, which bytes a reply holds) lives here and is proved
//! against its contract; the foreign call itself is made by the caller.

pub mod cipher;
pub mod pipeline;
pub mod traversal;
pub mod outcomes;
pub mod objects;
pub mod keygen;
pub mod hpke;
pub mod release;
pub mod handles;
pub mod digest;
pub mod rand;
