//! Rotation of a key store with freshly drawn key material.

use vstd::prelude::*;
use crate::algo::{random_bytes, KEY_BYTES};
use crate::generation::{Generational, GenerationId, KeyError};
use crate::rotating::RotatingKeyStore;

verus! {

/// A rotating key store together with the means to draw new key material.
pub struct KeyRotator {
    store: RotatingKeyStore,
}

impl KeyRotator {
    pub closed spec fn store_spec(&self) -> RotatingKeyStore {
        self.store
    }

    pub open spec fn well_formed(&self) -> bool {
        self.store_spec().well_formed()
    }

    pub fn new(store: RotatingKeyStore) -> (r: Self)
        requires
            store.well_formed(),
        ensures
            r.well_formed(),
            r.store_spec() == store,
    {
        KeyRotator { store }
    }

    /// The store being rotated, for reading keys.
    pub fn store(&self) -> (r: &RotatingKeyStore)
        ensures
            *r == self.store_spec(),
    {
        &self.store
    }

    /// Rotates to the material drawn by a key generator. A failed draw, or
    /// material of the wrong length, is an `EntropyError`; once every id has
    /// been issued nothing more can be; either way the store is unchanged.
    pub fn rotate_with(&mut self, drawn: Result<Vec<u8>, KeyError>) -> (r: Result<
        GenerationId,
        KeyError,
    >)
        requires
            old(self).well_formed(),
        ensures
            final(self).well_formed(),
            match drawn {
                Ok(m) => if m@.len() != KEY_BYTES {
                    r == Err::<GenerationId, KeyError>(KeyError::EntropyError) && *final(self)
                        == *old(self)
                } else if old(self).store_spec().current_id() == u64::MAX {
                    r == Err::<GenerationId, KeyError>(KeyError::GenerationIdsExhausted)
                        && *final(self) == *old(self)
                } else {
                    r == Ok::<GenerationId, KeyError>(
                        (old(self).store_spec().current_id() + 1) as GenerationId,
                    ) && RotatingKeyStore::rotated(
                        &old(self).store_spec(),
                        &final(self).store_spec(),
                        m@,
                    )
                },
                Err(_) => r == Err::<GenerationId, KeyError>(KeyError::EntropyError)
                    && *final(self) == *old(self),
            },
    {
        match drawn {
            Ok(material) => {
                if material.len() != KEY_BYTES {
                    Err(KeyError::EntropyError)
                } else if self.store.current().0 == u64::MAX {
                    Err(KeyError::GenerationIdsExhausted)
                } else {
                    Ok(self.store.rotate(material))
                }
            },
            Err(_) => Err(KeyError::EntropyError),
        }
    }

    /// Draws fresh key material and rotates to it.
    pub fn rotate_now(&mut self) -> (r: Result<GenerationId, KeyError>)
        requires
            old(self).well_formed(),
        ensures
            final(self).well_formed(),
            old(self).store_spec().current_id() < u64::MAX ==> r == Ok::<GenerationId, KeyError>(
                (old(self).store_spec().current_id() + 1) as GenerationId,
            ) && exists|m: Seq<u8>|
                m.len() == KEY_BYTES && RotatingKeyStore::rotated(
                    &old(self).store_spec(),
                    &final(self).store_spec(),
                    m,
                ),
            old(self).store_spec().current_id() == u64::MAX ==> r == Err::<GenerationId, KeyError>(
                KeyError::GenerationIdsExhausted,
            ) && *final(self) == *old(self),
    {
        let material = random_bytes(KEY_BYTES);
        let ghost m = material@;
        let r = self.rotate_with(Ok(material));
        proof {
            if old(self).store_spec().current_id() < u64::MAX {
                assert(m.len() == KEY_BYTES && RotatingKeyStore::rotated(
                    &old(self).store_spec(),
                    &self.store_spec(),
                    m,
                ));
            }
        }
        r
    }
}

} // verus!
