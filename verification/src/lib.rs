//! Lifecycle management for epoch-bounded keypairs of a stateful hash-based
//! signature scheme.
//!
//! A keypair is generated for a window of epochs from a 64-bit seed, stored in
//! a [`KeypairRegistry`], and addressed from then on through opaque handles:
//! a [`KeypairHandle`] for the keypair as a whole, and non-owning
//! [`PublicKeyHandle`] / [`SecretKeyHandle`] back-references to its two halves.
//! The key material lives exactly as long as the keypair's handle: it is
//! created by [`leansig_keypair_generate`] and destroyed, both halves at once,
//! by [`leansig_keypair_free`].
//!
//! The signature scheme itself is a parameter of the library: key material is
//! stored and handed out, never inspected.

pub mod epoch;
pub mod handle;
pub mod keys;
pub mod laws;
pub mod lifecycle;
pub mod randomness;
pub mod registry;

pub use epoch::{epoch_window_valid, is_valid_epoch_window, LIFETIME};
pub use handle::{KeypairHandle, PublicKeyHandle, SecretKeyHandle};
pub use keys::{Keypair, PublicKey, SecretKey};
pub use lifecycle::{
    generated_by, leansig_keypair_free, leansig_keypair_generate, leansig_keypair_get_private_key,
    leansig_keypair_get_public_key, public_key_handle, secret_key_handle,
};
pub use registry::{KeypairRegistry, RegistryState};
