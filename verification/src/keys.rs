//! Key material.
//!
//! The native key values of the signature scheme are type parameters: this
//! library owns storage for them and never looks inside. None of the three
//! types can be cloned, so a secret key, which carries the state of the epochs
//! it has consumed, has a single owner at all times.

use vstd::prelude::*;

verus! {

/// The public half of a keypair.
pub struct PublicKey<P> {
    pub inner: P,
}

/// The secret half of a keypair.
///
/// A secret key is usable only for the epochs of the window it was generated
/// for, and signing consumes them; neither is tracked here.
pub struct SecretKey<S> {
    pub inner: S,
}

/// One public key and one secret key that are created together and destroyed
/// together.
pub struct Keypair<P, S> {
    pub public_key: PublicKey<P>,
    pub secret_key: SecretKey<S>,
}

impl<P> PublicKey<P> {
    /// Wraps a native public key.
    pub fn new(inner: P) -> (key: Self)
        ensures
            key.inner == inner,
    {
        Self { inner }
    }
}

impl<S> SecretKey<S> {
    /// Wraps a native secret key.
    pub fn new(inner: S) -> (key: Self)
        ensures
            key.inner == inner,
    {
        Self { inner }
    }
}

} // verus!
