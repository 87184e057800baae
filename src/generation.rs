//! What a key generation is, and how a store hands out generations.

use vstd::prelude::*;
use crate::algo::KEY_BYTES;

verus! {

/// Identifier of a key generation; later generations have larger ids.
pub type GenerationId = u64;

/// Why a key could not be handed out or made.
#[derive(Clone, Copy, Debug, PartialEq, Eq, Structural)]
pub enum KeyError {
    /// The generation was evicted or was never issued.
    GenerationNotFound,
    /// Fresh key material could not be drawn.
    EntropyError,
    /// Every generation id has been issued; no further rotation is possible.
    GenerationIdsExhausted,
}

/// Whether a generation signs new data or only verifies old data.
#[derive(Clone, Copy, Debug, PartialEq, Eq, Structural)]
pub enum Status {
    Active,
    Retired,
}

/// A store of key generations, addressed by the current one or by id.
///
/// Key material is handed out by copy, so that a later rotation never changes
/// what a caller already holds.
pub trait Generational {
    /// The store's internal invariant.
    spec fn well_formed(&self) -> bool;

    /// The id of the generation that signs new data.
    spec fn current_id(&self) -> GenerationId;

    /// The key material of generation `id`, if it is retained.
    spec fn lookup(&self, id: GenerationId) -> Option<Seq<u8>>;

    /// The current generation's id and a copy of its key material.
    fn current(&self) -> (r: (GenerationId, Vec<u8>))
        requires
            self.well_formed(),
        ensures
            r.0 == self.current_id(),
            self.lookup(r.0) == Some(r.1@),
            r.1@.len() == KEY_BYTES,
    ;

    /// A copy of the key material of generation `id`, or `GenerationNotFound`
    /// when that generation is not retained.
    fn by_id(&self, id: GenerationId) -> (r: Result<Vec<u8>, KeyError>)
        requires
            self.well_formed(),
        ensures
            self.lookup(id) is Some ==> r is Ok && r->Ok_0@ == self.lookup(id)->0,
            self.lookup(id) is None ==> r == Err::<Vec<u8>, KeyError>(KeyError::GenerationNotFound),
            r is Ok ==> r->Ok_0@.len() == KEY_BYTES,
    ;
}

} // verus!
