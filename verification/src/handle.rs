//! Opaque handles.
//!
//! A handle is a plain value without ownership: holding one keeps nothing
//! alive, and copying one copies no key material. The handle whose id is zero
//! is the null handle; it never names a keypair.

use vstd::prelude::*;

verus! {

/// Names one keypair of a registry.
#[derive(Clone, Copy, Debug, PartialEq, Eq, Hash, Structural)]
pub struct KeypairHandle {
    pub id: u64,
}

/// Back-reference to the public half of the keypair named by `keypair`.
#[derive(Clone, Copy, Debug, PartialEq, Eq, Hash, Structural)]
pub struct PublicKeyHandle {
    pub keypair: KeypairHandle,
}

/// Back-reference to the secret half of the keypair named by `keypair`.
#[derive(Clone, Copy, Debug, PartialEq, Eq, Hash, Structural)]
pub struct SecretKeyHandle {
    pub keypair: KeypairHandle,
}

impl KeypairHandle {
    /// The null handle is the one whose id is zero.
    pub open spec fn spec_is_null(self) -> bool {
        self.id == 0
    }

    /// The handle that names no keypair.
    pub fn null() -> (handle: Self)
        ensures
            handle.id == 0,
            handle.is_null(),
    {
        KeypairHandle { id: 0 }
    }

    /// Whether this is the null handle.
    #[verifier::when_used_as_spec(spec_is_null)]
    pub fn is_null(self) -> (null: bool)
        ensures
            null == self.spec_is_null(),
    {
        self.id == 0
    }
}

impl PublicKeyHandle {
    /// A public-key handle is null exactly when its parent is.
    pub open spec fn spec_is_null(self) -> bool {
        self.keypair.is_null()
    }

    /// Whether this handle refers to the null keypair handle.
    #[verifier::when_used_as_spec(spec_is_null)]
    pub fn is_null(self) -> (null: bool)
        ensures
            null == self.spec_is_null(),
    {
        self.keypair.is_null()
    }
}

impl SecretKeyHandle {
    /// A secret-key handle is null exactly when its parent is.
    pub open spec fn spec_is_null(self) -> bool {
        self.keypair.is_null()
    }

    /// Whether this handle refers to the null keypair handle.
    #[verifier::when_used_as_spec(spec_is_null)]
    pub fn is_null(self) -> (null: bool)
        ensures
            null == self.spec_is_null(),
    {
        self.keypair.is_null()
    }
}

} // verus!
