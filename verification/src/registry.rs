//! The handle table: the one owner of every live keypair.

use crate::handle::{KeypairHandle, PublicKeyHandle, SecretKeyHandle};
use crate::keys::{Keypair, PublicKey, SecretKey};
use std::collections::HashMap;
use vstd::prelude::*;

verus! {

/// Mathematical model of a registry.
pub struct RegistryState<P, S> {
    /// The live keypairs, by the id of their handle.
    pub live: Map<u64, Keypair<P, S>>,
    /// How many handles have been issued so far, live or destroyed.
    pub issued: nat,
}

impl<P, S> RegistryState<P, S> {
    /// Every live id has been issued, and the null id is not among them.
    pub open spec fn wf(self) -> bool {
        &&& self.live.dom().finite()
        &&& forall|id: u64| #[trigger] self.live.contains_key(id) ==> 1 <= id <= self.issued
    }

    /// No keypair is live and no handle has been issued.
    pub open spec fn empty() -> Self {
        RegistryState { live: Map::empty(), issued: 0 }
    }

    /// Whether one more handle can be issued.
    pub open spec fn has_capacity(self) -> bool {
        self.issued < u64::MAX
    }

    /// The handle that the next registration returns.
    pub open spec fn next_handle(self) -> KeypairHandle {
        KeypairHandle { id: (self.issued + 1) as u64 }
    }

    /// The keypair named by `handle` is stored and has not been freed.
    pub open spec fn is_live(self, handle: KeypairHandle) -> bool {
        self.live.contains_key(handle.id)
    }

    /// `handle` was issued once and its keypair has been freed since.
    pub open spec fn is_destroyed(self, handle: KeypairHandle) -> bool {
        1 <= handle.id <= self.issued && !self.is_live(handle)
    }

    /// The state after `keypair` has been stored under [`Self::next_handle`].
    pub open spec fn register(self, keypair: Keypair<P, S>) -> Self {
        RegistryState {
            live: self.live.insert(self.next_handle().id, keypair),
            issued: self.issued + 1,
        }
    }

    /// The state after `handle` has been freed. Freeing a handle that is not
    /// live, the null handle among them, changes nothing.
    pub open spec fn free(self, handle: KeypairHandle) -> Self {
        RegistryState { live: self.live.remove(handle.id), issued: self.issued }
    }

    /// Freeing a handle that is not live changes nothing.
    pub proof fn lemma_free_of_dead_handle(self, handle: KeypairHandle)
        requires
            !self.is_live(handle),
        ensures
            self.free(handle) == self,
    {
        assert(self.live.remove(handle.id) =~= self.live);
    }

    /// The null handle is never live.
    pub proof fn lemma_null_is_dead(self, handle: KeypairHandle)
        requires
            self.wf(),
            handle.is_null(),
        ensures
            !self.is_live(handle),
            !self.is_destroyed(handle),
    {
    }

    /// What a public-key handle refers to: the public half of its parent while
    /// the parent is live, nothing otherwise.
    pub open spec fn public_key(self, handle: PublicKeyHandle) -> Option<PublicKey<P>> {
        if self.is_live(handle.keypair) {
            Some(self.live[handle.keypair.id].public_key)
        } else {
            None
        }
    }

    /// What a secret-key handle refers to: the secret half of its parent while
    /// the parent is live, nothing otherwise.
    pub open spec fn secret_key(self, handle: SecretKeyHandle) -> Option<SecretKey<S>> {
        if self.is_live(handle.keypair) {
            Some(self.live[handle.keypair.id].secret_key)
        } else {
            None
        }
    }
}

/// Owns the keypairs and resolves handles to them.
///
/// Ids are issued in increasing order starting at one and are never issued
/// twice, so a handle whose keypair has been freed stays dead for good.
pub struct KeypairRegistry<P, S> {
    table: HashMap<u64, Keypair<P, S>>,
    issued: u64,
}

impl<P, S> View for KeypairRegistry<P, S> {
    type V = RegistryState<P, S>;

    closed spec fn view(&self) -> RegistryState<P, S> {
        RegistryState { live: self.table@, issued: self.issued as nat }
    }
}

impl<P, S> KeypairRegistry<P, S> {
    /// Holds of every registry at all times.
    #[verifier::type_invariant]
    pub open spec fn inv(self) -> bool {
        self@.wf()
    }

    /// A registry that holds no keypair and has issued no handle.
    pub fn new() -> (registry: Self)
        ensures
            registry@ == RegistryState::<P, S>::empty(),
            registry@.wf(),
    {
        KeypairRegistry { table: HashMap::new(), issued: 0 }
    }

    /// The number of live keypairs.
    pub fn len(&self) -> (count: usize)
        ensures
            count == self@.live.len(),
    {
        self.table.len()
    }

    /// Whether one more keypair can be registered.
    pub fn has_capacity(&self) -> (room: bool)
        ensures
            room == self@.has_capacity(),
    {
        self.issued < u64::MAX
    }

    /// Whether `handle` names a keypair that is stored and has not been freed.
    pub fn is_live(&self, handle: KeypairHandle) -> (live: bool)
        ensures
            live == self@.is_live(handle),
    {
        self.table.contains_key(&handle.id)
    }

    /// Takes ownership of `keypair` and issues the handle that names it from
    /// now on.
    pub fn register(&mut self, keypair: Keypair<P, S>) -> (handle: KeypairHandle)
        requires
            old(self)@.has_capacity(),
        ensures
            handle == old(self)@.next_handle(),
            !handle.is_null(),
            !old(self)@.is_live(handle),
            final(self)@ == old(self)@.register(keypair),
            final(self)@.wf(),
    {
        proof {
            use_type_invariant(&*self);
        }
        let id: u64 = self.issued + 1;
        // The table is taken out while it changes, so that the registry is
        // well-formed at every step.
        let mut table: HashMap<u64, Keypair<P, S>> = HashMap::new();
        std::mem::swap(&mut self.table, &mut table);
        table.insert(id, keypair);
        self.issued = id;
        std::mem::swap(&mut self.table, &mut table);
        KeypairHandle { id }
    }

    /// Gives up the keypair named by `handle`, if it is live, and leaves the
    /// registry as it is otherwise.
    pub fn remove(&mut self, handle: KeypairHandle) -> (keypair: Option<Keypair<P, S>>)
        ensures
            final(self)@ == old(self)@.free(handle),
            final(self)@.wf(),
            keypair == if old(self)@.is_live(handle) {
                Some(old(self)@.live[handle.id])
            } else {
                None
            },
    {
        proof {
            use_type_invariant(&*self);
        }
        // As in `register`, the table is taken out while it changes.
        let mut table: HashMap<u64, Keypair<P, S>> = HashMap::new();
        std::mem::swap(&mut self.table, &mut table);
        let keypair = table.remove(&handle.id);
        std::mem::swap(&mut self.table, &mut table);
        keypair
    }

    /// Resolves a public-key handle: to the public key of its keypair while
    /// that keypair is live, to nothing otherwise.
    pub fn public_key(&self, handle: PublicKeyHandle) -> (key: Option<&PublicKey<P>>)
        ensures
            match key {
                Some(key) => self@.public_key(handle) == Some(*key),
                None => self@.public_key(handle).is_none(),
            },
    {
        match self.table.get(&handle.keypair.id) {
            Some(keypair) => Some(&keypair.public_key),
            None => None,
        }
    }

    /// Resolves a secret-key handle: to the secret key of its keypair while
    /// that keypair is live, to nothing otherwise.
    pub fn secret_key(&self, handle: SecretKeyHandle) -> (key: Option<&SecretKey<S>>)
        ensures
            match key {
                Some(key) => self@.secret_key(handle) == Some(*key),
                None => self@.secret_key(handle).is_none(),
            },
    {
        match self.table.get(&handle.keypair.id) {
            Some(keypair) => Some(&keypair.secret_key),
            None => None,
        }
    }
}

} // verus!
