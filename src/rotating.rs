//! A store that holds a bounded window of rotating key generations.

use vstd::prelude::*;
use crate::algo::KEY_BYTES;
use crate::generation::{Generational, GenerationId, KeyError, Status};

verus! {

/// One unit of key material with its id and status.
pub struct Generation {
    pub id: GenerationId,
    pub material: Vec<u8>,
    pub status: Status,
}

/// The number of active generations in `g`.
pub open spec fn num_active(g: Seq<Generation>) -> nat
    decreases g.len(),
{
    if g.len() == 0 {
        0
    } else {
        (if g.last().status == Status::Active { 1nat } else { 0nat }) + num_active(g.drop_last())
    }
}

/// Smaller of two integers.
pub open spec fn min_int(a: int, b: int) -> int {
    if a <= b { a } else { b }
}

/// The generations held, most recent first, and how many retired generations
/// are kept beside the current one.
pub struct RotatingKeyStore {
    generations: Vec<Generation>,
    retention: usize,
}

impl RotatingKeyStore {
    /// The generations held, most recent first.
    pub closed spec fn generations_spec(&self) -> Seq<Generation> {
        self.generations@
    }

    /// The number of retired generations kept for verification.
    pub closed spec fn retention_spec(&self) -> nat {
        self.retention as nat
    }

    /// The id of the oldest generation still held.
    pub open spec fn oldest_id(&self) -> int {
        self.current_id() - (self.generations_spec().len() - 1)
    }

    /// The number of generations held after `rotations` rotations with the
    /// given retention: the current one and up to `retention` retired ones.
    pub open spec fn window_len(rotations: int, retention: int) -> int {
        min_int(rotations + 1, retention + 1)
    }

    /// `post` is `pre` after one rotation to `material`: the next id is
    /// current with that material, the previous current generation is retired,
    /// retired generations older than the retention bound are gone, and the
    /// rest are unchanged.
    pub open spec fn rotated(pre: &Self, post: &Self, material: Seq<u8>) -> bool {
        let r = pre.current_id() + 1;
        &&& post.current_id() == r
        &&& post.retention_spec() == pre.retention_spec()
        &&& post.lookup(r as GenerationId) == Some(material)
        &&& forall|id: GenerationId|
            id < r ==> post.lookup(id) == (if id + pre.retention_spec() >= r {
                pre.lookup(id)
            } else {
                None
            })
        &&& forall|id: GenerationId| id > r ==> post.lookup(id) is None
        &&& post.generations_spec()[0].status == Status::Active
        &&& post.generations_spec().len() > 1 ==> post.generations_spec()[1].status
            == Status::Retired
    }

    /// Creates generation 0, active, from `initial_material`.
    pub fn new(initial_material: Vec<u8>, retention: usize) -> (r: Self)
        requires
            initial_material@.len() == KEY_BYTES,
        ensures
            r.well_formed(),
            r.current_id() == 0,
            r.retention_spec() == retention,
            r.lookup(0) == Some(initial_material@),
            forall|id: GenerationId| id != 0 ==> r.lookup(id) is None,
    {
        let mut generations: Vec<Generation> = Vec::new();
        generations.push(Generation { id: 0, material: initial_material, status: Status::Active });
        RotatingKeyStore { generations, retention }
    }

    /// The number of active generations held.
    pub fn active_count(&self) -> (r: usize)
        ensures
            r == num_active(self.generations_spec()),
    {
        let mut count: usize = 0;
        let mut i: usize = 0;
        while i < self.generations.len()
            invariant
                i <= self.generations@.len(),
                count == num_active(self.generations@.take(i as int)),
                count <= i,
            decreases self.generations@.len() - i,
        {
            proof {
                let t = self.generations@.take(i as int + 1);
                assert(t.drop_last() =~= self.generations@.take(i as int));
                assert(t.last() == self.generations@[i as int]);
            }
            if self.generations[i].status == Status::Active {
                count = count + 1;
            }
            i = i + 1;
        }
        assert(self.generations@.take(i as int) =~= self.generations@);
        count
    }

    /// Makes a new active generation from `new_material` with the next id,
    /// retires the previous active one, and evicts the oldest generation
    /// beyond the retention bound. Returns the new id.
    pub fn rotate(&mut self, new_material: Vec<u8>) -> (r: GenerationId)
        requires
            old(self).well_formed(),
            new_material@.len() == KEY_BYTES,
            old(self).current_id() < u64::MAX,
        ensures
            final(self).well_formed(),
            r == old(self).current_id() + 1,
            Self::rotated(old(self), final(self), new_material@),
    {
        let ghost g0 = self.generations@;
        let new_id = self.generations[0].id + 1;
        let mut prev = self.generations.remove(0);
        prev.status = Status::Retired;
        self.generations.insert(0, prev);
        self.generations.insert(
            0,
            Generation { id: new_id, material: new_material, status: Status::Active },
        );
        if self.generations.len() - 1 > self.retention {
            self.generations.pop();
        }
        let ghost g1 = self.generations@;
        assert(forall|i: int| 1 <= i < g1.len() ==> g1[i].id == g0[i - 1].id
            && g1[i].material == g0[i - 1].material);
        assert forall|id: GenerationId| id < new_id implies self.lookup(id) == (if id
            + old(self).retention_spec() >= new_id {
            old(self).lookup(id)
        } else {
            None
        }) by {
            if id + self.retention >= new_id && id >= old(self).oldest_id() {
                assert(g1[new_id - id] == g1[(old(self).current_id() - id) + 1]);
            }
        }
        new_id
    }
}

impl Generational for RotatingKeyStore {
    open spec fn well_formed(&self) -> bool {
        let g = self.generations_spec();
        &&& g.len() >= 1
        &&& g.len() == Self::window_len(g[0].id as int, self.retention_spec() as int)
        &&& forall|i: int| 0 <= i < g.len() ==> #[trigger] g[i].id == g[0].id - i
        &&& forall|i: int| 0 <= i < g.len() ==> (#[trigger] g[i].status == Status::Active) == (i
            == 0)
        &&& forall|i: int| 0 <= i < g.len() ==> (#[trigger] g[i].material)@.len() == KEY_BYTES
    }

    open spec fn current_id(&self) -> GenerationId {
        self.generations_spec()[0].id
    }

    open spec fn lookup(&self, id: GenerationId) -> Option<Seq<u8>> {
        if self.oldest_id() <= id <= self.current_id() {
            Some(self.generations_spec()[self.current_id() - id].material@)
        } else {
            None
        }
    }

    fn current(&self) -> (r: (GenerationId, Vec<u8>)) {
        let g = &self.generations[0];
        (g.id, g.material.clone())
    }

    fn by_id(&self, id: GenerationId) -> (r: Result<Vec<u8>, KeyError>) {
        let current = self.generations[0].id;
        if id > current || current - id >= self.generations.len() as u64 {
            Err(KeyError::GenerationNotFound)
        } else {
            let idx = (current - id) as usize;
            Ok(self.generations[idx].material.clone())
        }
    }
}

/// A sequence whose first generation is active and whose others are retired
/// holds exactly one active generation.
proof fn lemma_first_active_only(g: Seq<Generation>)
    requires
        g.len() >= 1,
        forall|i: int| 0 <= i < g.len() ==> (#[trigger] g[i].status == Status::Active) == (i == 0),
    ensures
        num_active(g) == 1,
    decreases g.len(),
{
    if g.len() > 1 {
        let d = g.drop_last();
        assert forall|i: int| 0 <= i < d.len() implies (#[trigger] d[i].status == Status::Active)
            == (i == 0) by {
            assert(d[i] == g[i]);
        }
        lemma_first_active_only(d);
        assert(g[g.len() - 1].status != Status::Active);
    } else {
        assert(g[0].status == Status::Active);
        assert(num_active(g.drop_last()) == 0);
    }
}

/// Every well-formed store, and so every store reachable through `new` and
/// any sequence of `rotate` calls, holds exactly one active generation.
pub proof fn lemma_exactly_one_active(s: &RotatingKeyStore)
    requires
        s.well_formed(),
    ensures
        num_active(s.generations_spec()) == 1,
{
    lemma_first_active_only(s.generations_spec());
}

/// `new` makes generation 0 and each `rotate` adds one to the current id, so
/// after `k` rotations the current id is `k`. Lookups then succeed for exactly
/// the `min(k + 1, retention + 1)` most recent ids and fail for all others.
pub proof fn lemma_retained_window(s: &RotatingKeyStore, id: GenerationId)
    requires
        s.well_formed(),
    ensures
        s.generations_spec().len() == RotatingKeyStore::window_len(
            s.current_id() as int,
            s.retention_spec() as int,
        ),
        s.lookup(id) is Some <==> (s.current_id() - RotatingKeyStore::window_len(
            s.current_id() as int,
            s.retention_spec() as int,
        ) < id <= s.current_id()),
{
}

} // verus!
