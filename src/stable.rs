//! A store that holds one key that never changes.

use vstd::prelude::*;
use crate::algo::KEY_BYTES;
use crate::generation::{Generational, GenerationId, KeyError};

verus! {

/// One immutable key, always generation 0.
pub struct StableKeyStore {
    material: Vec<u8>,
}

impl StableKeyStore {
    pub closed spec fn material_spec(&self) -> Seq<u8> {
        self.material@
    }

    pub fn new(material: Vec<u8>) -> (r: Self)
        requires
            material@.len() == KEY_BYTES,
        ensures
            r.well_formed(),
            r.material_spec() == material@,
    {
        StableKeyStore { material }
    }
}

impl Generational for StableKeyStore {
    open spec fn well_formed(&self) -> bool {
        self.material_spec().len() == KEY_BYTES
    }

    open spec fn current_id(&self) -> GenerationId {
        0
    }

    open spec fn lookup(&self, id: GenerationId) -> Option<Seq<u8>> {
        if id == 0 {
            Some(self.material_spec())
        } else {
            None
        }
    }

    fn current(&self) -> (r: (GenerationId, Vec<u8>)) {
        (0, self.material.clone())
    }

    fn by_id(&self, id: GenerationId) -> (r: Result<Vec<u8>, KeyError>) {
        if id == 0 {
            Ok(self.material.clone())
        } else {
            Err(KeyError::GenerationNotFound)
        }
    }
}

} // verus!
