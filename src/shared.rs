//! A rotating key store shared between concurrent request handlers.

use vstd::prelude::*;
use vstd::rwlock::{RwLock, RwLockPredicate};
use crate::algo::{random_bytes, KEY_BYTES};
use crate::generation::{Generational, GenerationId, KeyError};
use crate::rotating::{lemma_exactly_one_active, num_active, RotatingKeyStore};

verus! {

/// The invariant every state held by a shared store satisfies.
pub struct WellFormedStore;

impl RwLockPredicate<RotatingKeyStore> for WellFormedStore {
    open spec fn inv(self, v: RotatingKeyStore) -> bool {
        v.well_formed()
    }
}

/// A state a reader may observe: well formed, with exactly one active
/// generation.
pub open spec fn consistent(s: RotatingKeyStore) -> bool {
    s.well_formed() && num_active(s.generations_spec()) == 1
}

/// A rotating key store behind a reader-writer lock. Rotation holds the lock
/// exclusively, so every reader sees the whole state before or after a
/// rotation, never a part of one.
pub struct SharedKeyStore {
    lock: RwLock<RotatingKeyStore, WellFormedStore>,
}

impl SharedKeyStore {
    #[verifier::type_invariant]
    spec fn lock_holds_well_formed(self) -> bool {
        self.lock.pred() == WellFormedStore
    }

    pub fn new(store: RotatingKeyStore) -> (r: Self)
        requires
            store.well_formed(),
    {
        SharedKeyStore { lock: RwLock::new(store, Ghost(WellFormedStore)) }
    }

    /// The current generation's id and a copy of its key material, taken from
    /// one consistent state of the store.
    pub fn current(&self) -> (r: (GenerationId, Vec<u8>))
        ensures
            exists|s: RotatingKeyStore|
                consistent(s) && r.0 == s.current_id() && s.lookup(r.0) == Some(r.1@),
            r.1@.len() == KEY_BYTES,
    {
        proof {
            use_type_invariant(self);
        }
        let handle = self.lock.acquire_read();
        let store = handle.borrow();
        proof {
            lemma_exactly_one_active(store);
        }
        let r = store.current();
        handle.release_read();
        r
    }

    /// A copy of the key material of generation `id`, taken from one
    /// consistent state of the store, or `GenerationNotFound` when that state
    /// does not retain it.
    pub fn by_id(&self, id: GenerationId) -> (r: Result<Vec<u8>, KeyError>)
        ensures
            exists|s: RotatingKeyStore|
                consistent(s) && (s.lookup(id) is Some ==> r is Ok && r->Ok_0@ == s.lookup(id)->0)
                    && (s.lookup(id) is None ==> r == Err::<Vec<u8>, KeyError>(
                    KeyError::GenerationNotFound,
                )),
    {
        proof {
            use_type_invariant(self);
        }
        let handle = self.lock.acquire_read();
        let store = handle.borrow();
        proof {
            lemma_exactly_one_active(store);
        }
        let r = store.by_id(id);
        assert(consistent(*store) && (store.lookup(id) is Some ==> r is Ok && r->Ok_0@
            == store.lookup(id)->0) && (store.lookup(id) is None ==> r == Err::<Vec<u8>, KeyError>(
            KeyError::GenerationNotFound,
        )));
        handle.release_read();
        r
    }

    /// Rotates to `material` while holding the lock exclusively. Material of
    /// the wrong length is an `EntropyError`; once every id has been issued
    /// no rotation is possible. On failure the store is left as it was.
    pub fn rotate(&self, material: Vec<u8>) -> (r: Result<GenerationId, KeyError>)
        ensures
            material@.len() != KEY_BYTES ==> r == Err::<GenerationId, KeyError>(
                KeyError::EntropyError,
            ),
            r is Ok ==> exists|pre: RotatingKeyStore, post: RotatingKeyStore|
                consistent(pre) && consistent(post) && RotatingKeyStore::rotated(
                    &pre,
                    &post,
                    material@,
                ) && r->Ok_0 == post.current_id(),
            material@.len() == KEY_BYTES && r is Err ==> r == Err::<GenerationId, KeyError>(
                KeyError::GenerationIdsExhausted,
            ),
    {
        proof {
            use_type_invariant(self);
        }
        let ghost m = material@;
        let (mut store, handle) = self.lock.acquire_write();
        if material.len() != KEY_BYTES {
            handle.release_write(store);
            return Err(KeyError::EntropyError);
        }
        let (current, _) = store.current();
        if current == u64::MAX {
            handle.release_write(store);
            return Err(KeyError::GenerationIdsExhausted);
        }
        let ghost pre = store;
        let id = store.rotate(material);
        proof {
            lemma_exactly_one_active(&pre);
            lemma_exactly_one_active(&store);
            assert(consistent(pre) && consistent(store) && RotatingKeyStore::rotated(
                &pre,
                &store,
                m,
            ) && id == store.current_id());
        }
        handle.release_write(store);
        Ok(id)
    }

    /// Draws fresh key material and rotates to it.
    pub fn rotate_now(&self) -> (r: Result<GenerationId, KeyError>)
        ensures
            r is Ok ==> exists|pre: RotatingKeyStore, post: RotatingKeyStore, m: Seq<u8>|
                m.len() == KEY_BYTES && consistent(pre) && consistent(post)
                    && RotatingKeyStore::rotated(&pre, &post, m) && r->Ok_0 == post.current_id(),
            r is Err ==> r == Err::<GenerationId, KeyError>(KeyError::GenerationIdsExhausted),
    {
        let material = random_bytes(KEY_BYTES);
        let ghost m = material@;
        let r = self.rotate(material);
        proof {
            if r is Ok {
                let (pre, post) = choose|pre: RotatingKeyStore, post: RotatingKeyStore|
                    consistent(pre) && consistent(post) && RotatingKeyStore::rotated(
                        &pre,
                        &post,
                        m,
                    ) && r->Ok_0 == post.current_id();
                assert(m.len() == KEY_BYTES && consistent(pre) && consistent(post)
                    && RotatingKeyStore::rotated(&pre, &post, m) && r->Ok_0 == post.current_id());
            }
        }
        r
    }
}

} // verus!
