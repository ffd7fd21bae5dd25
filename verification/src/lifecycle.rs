//! The four operations on keypairs: generate, borrow the public half, borrow
//! the secret half, free.

use crate::epoch::epoch_window_valid;
use crate::handle::{KeypairHandle, PublicKeyHandle, SecretKeyHandle};
use crate::keys::{Keypair, PublicKey, SecretKey};
use crate::randomness::{seed_rng, seeded_rng};
use crate::registry::KeypairRegistry;
use rand::rngs::StdRng;
use vstd::prelude::*;

verus! {

/// `keypair` is a possible outcome of running `key_gen` on the generator
/// seeded with `seed` and on the given epoch window.
pub open spec fn generated_by<P, S, G: FnOnce(StdRng, usize, usize) -> (P, S)>(
    key_gen: G,
    seed: u64,
    activation_epoch: usize,
    num_active_epochs: usize,
    keypair: Keypair<P, S>,
) -> bool {
    key_gen.ensures(
        (seeded_rng(seed), activation_epoch, num_active_epochs),
        (keypair.public_key.inner, keypair.secret_key.inner),
    )
}

/// The public-key handle of `keypair`.
pub open spec fn public_key_handle(keypair: KeypairHandle) -> PublicKeyHandle {
    PublicKeyHandle { keypair }
}

/// The secret-key handle of `keypair`.
pub open spec fn secret_key_handle(keypair: KeypairHandle) -> SecretKeyHandle {
    SecretKeyHandle { keypair }
}

/// Generates a keypair for the epochs
/// `[activation_epoch, activation_epoch + num_active_epochs)` and stores it in
/// `registry`.
///
/// `key_gen` is the key generation of the signature scheme. It is run once, on
/// a generator seeded with `seed` and on the window as given. The handle
/// returned is never null and has never been live before.
pub fn leansig_keypair_generate<P, S, G>(
    registry: &mut KeypairRegistry<P, S>,
    key_gen: G,
    seed: u64,
    activation_epoch: usize,
    num_active_epochs: usize,
) -> (handle: KeypairHandle) where G: FnOnce(StdRng, usize, usize) -> (P, S)
    requires
        old(registry)@.has_capacity(),
        epoch_window_valid(activation_epoch as int, num_active_epochs as int),
        forall|rng: StdRng| key_gen.requires((rng, activation_epoch, num_active_epochs)),
    ensures
        !handle.is_null(),
        handle == old(registry)@.next_handle(),
        !old(registry)@.is_live(handle),
        final(registry)@.is_live(handle),
        generated_by(
            key_gen,
            seed,
            activation_epoch,
            num_active_epochs,
            final(registry)@.live[handle.id],
        ),
        final(registry)@ == old(registry)@.register(final(registry)@.live[handle.id]),
        final(registry)@.wf(),
{
    let rng = seed_rng(seed);
    let (pk, sk) = key_gen(rng, activation_epoch, num_active_epochs);
    let public_key = PublicKey::new(pk);
    let secret_key = SecretKey::new(sk);
    registry.register(Keypair { public_key, secret_key })
}

/// Borrows the public half of a keypair: the handle returned refers to the
/// public key for as long as `keypair` is live, and is null if `keypair` is.
pub fn leansig_keypair_get_public_key(keypair: KeypairHandle) -> (handle: PublicKeyHandle)
    ensures
        handle == public_key_handle(keypair),
        handle.is_null() <==> keypair.is_null(),
{
    PublicKeyHandle { keypair }
}

/// Borrows the secret half of a keypair: the handle returned refers to the
/// secret key for as long as `keypair` is live, and is null if `keypair` is.
pub fn leansig_keypair_get_private_key(keypair: KeypairHandle) -> (handle: SecretKeyHandle)
    ensures
        handle == secret_key_handle(keypair),
        handle.is_null() <==> keypair.is_null(),
{
    SecretKeyHandle { keypair }
}

/// Destroys the keypair named by `key_pair`, both halves at once.
///
/// Freeing the null handle does nothing. Neither does freeing a handle that
/// is not live.
pub fn leansig_keypair_free<P, S>(registry: &mut KeypairRegistry<P, S>, key_pair: KeypairHandle)
    ensures
        final(registry)@ == old(registry)@.free(key_pair),
        key_pair.is_null() ==> final(registry)@ == old(registry)@,
        !old(registry)@.is_live(key_pair) ==> final(registry)@ == old(registry)@,
        !final(registry)@.is_live(key_pair),
        final(registry)@.wf(),
{
    proof {
        use_type_invariant(&*registry);
        if key_pair.is_null() {
            registry@.lemma_null_is_dead(key_pair);
        }
        if !registry@.is_live(key_pair) {
            registry@.lemma_free_of_dead_handle(key_pair);
        }
    }
    if !key_pair.is_null() {
        let _ = registry.remove(key_pair);
    }
}

} // verus!
