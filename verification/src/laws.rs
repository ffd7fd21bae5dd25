//! What holds of every registry, whatever has been done to it.
//!
//! Generating and freeing are the only two operations that change a registry.
//! The laws below speak of single steps and of arbitrary sequences of them.

use crate::handle::KeypairHandle;
use crate::keys::Keypair;
use crate::lifecycle::{generated_by, public_key_handle, secret_key_handle};
use crate::randomness::seeded_rng;
use crate::registry::RegistryState;
use rand::rngs::StdRng;
use vstd::prelude::*;

verus! {

/// One change to a registry.
pub enum Operation<P, S> {
    /// A keypair is generated and stored.
    Generate(Keypair<P, S>),
    /// A handle is freed.
    Free(KeypairHandle),
}

impl<P, S> RegistryState<P, S> {
    /// The state after `operation`.
    pub open spec fn apply(self, operation: Operation<P, S>) -> Self {
        match operation {
            Operation::Generate(keypair) => self.register(keypair),
            Operation::Free(handle) => self.free(handle),
        }
    }

    /// The state after `operations`, applied first to last.
    pub open spec fn run(self, operations: Seq<Operation<P, S>>) -> Self
        decreases operations.len(),
    {
        if operations.len() == 0 {
            self
        } else {
            self.run(operations.drop_last()).apply(operations.last())
        }
    }

    /// There are handles left for every generation in a sequence of this
    /// length.
    pub open spec fn has_capacity_for(self, operations: Seq<Operation<P, S>>) -> bool {
        self.issued + operations.len() <= u64::MAX
    }
}

/// The outcome of `key_gen` is determined by the generator and the window it
/// is given.
pub open spec fn deterministic<P, S, G: FnOnce(StdRng, usize, usize) -> (P, S)>(
    key_gen: G,
) -> bool {
    forall|rng: StdRng, activation_epoch: usize, num_active_epochs: usize, a: (P, S), b: (P, S)|
        #![trigger
            key_gen.ensures((rng, activation_epoch, num_active_epochs), a),
            key_gen.ensures((rng, activation_epoch, num_active_epochs), b),
        ]
        key_gen.ensures((rng, activation_epoch, num_active_epochs), a)
            && key_gen.ensures((rng, activation_epoch, num_active_epochs), b) ==> a == b
}

/// Determinism: two keypairs generated by a deterministic key generation from
/// the same seed and the same epoch window hold the same public key and the
/// same secret key.
pub proof fn lemma_generation_is_deterministic<P, S, G: FnOnce(StdRng, usize, usize) -> (P, S)>(
    key_gen: G,
    seed: u64,
    activation_epoch: usize,
    num_active_epochs: usize,
    first: Keypair<P, S>,
    second: Keypair<P, S>,
)
    requires
        deterministic(key_gen),
        generated_by(key_gen, seed, activation_epoch, num_active_epochs, first),
        generated_by(key_gen, seed, activation_epoch, num_active_epochs, second),
    ensures
        first.public_key == second.public_key,
        first.secret_key == second.secret_key,
        first == second,
{
    let inputs = (seeded_rng(seed), activation_epoch, num_active_epochs);
    assert(key_gen.ensures(inputs, (first.public_key.inner, first.secret_key.inner)));
    assert(key_gen.ensures(inputs, (second.public_key.inner, second.secret_key.inner)));
}

/// Determinism, as seen through handles: in any two registries, handles to
/// keypairs that a deterministic key generation made from the same seed and
/// window resolve to the same public key and to the same secret key.
pub proof fn lemma_generated_handles_resolve_alike<
    P,
    S,
    G: FnOnce(StdRng, usize, usize) -> (P, S),
>(
    key_gen: G,
    seed: u64,
    activation_epoch: usize,
    num_active_epochs: usize,
    first: RegistryState<P, S>,
    first_handle: KeypairHandle,
    second: RegistryState<P, S>,
    second_handle: KeypairHandle,
)
    requires
        deterministic(key_gen),
        first.is_live(first_handle),
        second.is_live(second_handle),
        generated_by(
            key_gen,
            seed,
            activation_epoch,
            num_active_epochs,
            first.live[first_handle.id],
        ),
        generated_by(
            key_gen,
            seed,
            activation_epoch,
            num_active_epochs,
            second.live[second_handle.id],
        ),
    ensures
        first.public_key(public_key_handle(first_handle)) == second.public_key(
            public_key_handle(second_handle),
        ),
        first.secret_key(secret_key_handle(first_handle)) == second.secret_key(
            secret_key_handle(second_handle),
        ),
{
    lemma_generation_is_deterministic(
        key_gen,
        seed,
        activation_epoch,
        num_active_epochs,
        first.live[first_handle.id],
        second.live[second_handle.id],
    );
}

/// A newly issued handle is not null, was never live before, and resolves to
/// exactly the keypair that was stored under it.
pub proof fn lemma_register_issues_fresh_handle<P, S>(
    state: RegistryState<P, S>,
    keypair: Keypair<P, S>,
)
    requires
        state.wf(),
        state.has_capacity(),
    ensures
        !state.next_handle().is_null(),
        !state.is_live(state.next_handle()),
        !state.is_destroyed(state.next_handle()),
        state.register(keypair).wf(),
        state.register(keypair).is_live(state.next_handle()),
        state.register(keypair).public_key(public_key_handle(state.next_handle())) == Some(
            keypair.public_key,
        ),
        state.register(keypair).secret_key(secret_key_handle(state.next_handle())) == Some(
            keypair.secret_key,
        ),
{
}

/// Single free: freeing a handle right after it was issued leaves exactly the
/// keypairs that were live before the generation, and the handle destroyed.
pub proof fn lemma_free_undoes_generate<P, S>(state: RegistryState<P, S>, keypair: Keypair<P, S>)
    requires
        state.wf(),
        state.has_capacity(),
    ensures
        state.register(keypair).free(state.next_handle()).live == state.live,
        state.register(keypair).free(state.next_handle()).live.len() == state.live.len(),
        state.register(keypair).free(state.next_handle()).is_destroyed(state.next_handle()),
{
    let handle = state.next_handle();
    assert(state.register(keypair).free(handle).live =~= state.live);
}

/// Freeing destroys both halves at once: after `free`, neither the public-key
/// handle nor the secret-key handle of the freed keypair resolves.
pub proof fn lemma_free_ends_both_borrows<P, S>(state: RegistryState<P, S>, handle: KeypairHandle)
    ensures
        !state.free(handle).is_live(handle),
        state.free(handle).public_key(public_key_handle(handle)).is_none(),
        state.free(handle).secret_key(secret_key_handle(handle)).is_none(),
{
}

/// Only the first free of a handle takes effect: a second one changes nothing.
pub proof fn lemma_second_free_changes_nothing<P, S>(
    state: RegistryState<P, S>,
    handle: KeypairHandle,
)
    ensures
        state.free(handle).free(handle) == state.free(handle),
{
    state.free(handle).lemma_free_of_dead_handle(handle);
}

/// Well-formedness is kept by every sequence of operations, and the number of
/// handles issued never goes down.
pub proof fn lemma_run_preserves_wf<P, S>(
    state: RegistryState<P, S>,
    operations: Seq<Operation<P, S>>,
)
    requires
        state.wf(),
        state.has_capacity_for(operations),
    ensures
        state.run(operations).wf(),
        state.issued <= state.run(operations).issued <= state.issued + operations.len(),
    decreases operations.len(),
{
    if operations.len() > 0 {
        lemma_run_preserves_wf(state, operations.drop_last());
    }
}

/// Borrow validity: while a live handle is not freed, whatever else is
/// generated or freed, its public-key and secret-key handles keep resolving,
/// and to the keys that were stored when the keypair was generated.
pub proof fn lemma_borrows_valid_until_free<P, S>(
    state: RegistryState<P, S>,
    handle: KeypairHandle,
    operations: Seq<Operation<P, S>>,
)
    requires
        state.wf(),
        state.has_capacity_for(operations),
        state.is_live(handle),
        forall|i: int|
            0 <= i < operations.len() ==> operations[i] != Operation::<P, S>::Free(handle),
    ensures
        state.run(operations).is_live(handle),
        state.run(operations).live[handle.id] == state.live[handle.id],
        state.run(operations).public_key(public_key_handle(handle)) == Some(
            state.live[handle.id].public_key,
        ),
        state.run(operations).secret_key(secret_key_handle(handle)) == Some(
            state.live[handle.id].secret_key,
        ),
    decreases operations.len(),
{
    if operations.len() > 0 {
        let earlier = operations.drop_last();
        lemma_run_preserves_wf(state, earlier);
        lemma_borrows_valid_until_free(state, handle, earlier);
        assert(operations.last() == operations[operations.len() - 1]);
    }
}

/// No way back: a handle that has been freed is never live again, and the
/// null handle is never live at all, whatever is generated or freed.
pub proof fn lemma_dead_handles_stay_dead<P, S>(
    state: RegistryState<P, S>,
    handle: KeypairHandle,
    operations: Seq<Operation<P, S>>,
)
    requires
        state.wf(),
        state.has_capacity_for(operations),
        state.is_destroyed(handle) || handle.is_null(),
    ensures
        !state.run(operations).is_live(handle),
        state.run(operations).public_key(public_key_handle(handle)).is_none(),
        state.run(operations).secret_key(secret_key_handle(handle)).is_none(),
        state.is_destroyed(handle) ==> state.run(operations).is_destroyed(handle),
    decreases operations.len(),
{
    if operations.len() > 0 {
        let earlier = operations.drop_last();
        lemma_run_preserves_wf(state, earlier);
        lemma_dead_handles_stay_dead(state, handle, earlier);
    }
}

} // verus!
