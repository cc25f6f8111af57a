//! The codec plugin registry: an immutable-after-startup lookup table from
//! codec identifier to decoder-construction value. Built-in entries are
//! registered first; an add-on entry registered for the same identifier
//! overrides the default. Lookup is a pure function of the identifier.

use vstd::prelude::*;

use crate::errors::CodecError;

verus! {

/// The codec identifier that marks "no codec": tracks carrying it are never
/// selected for decoding.
pub const CODEC_ID_NULL: u32 = 0;

/// A mapping from codec identifier to a decoder-construction value `V` (a
/// factory, or any tag the embedder dispatches on). Identifiers are unique
/// keys; registering an identifier again replaces its entry.
pub struct CodecRegistry<V> {
    /// The entries, one per registered identifier.
    pub entries: Vec<(u32, V)>,
}

impl<V> CodecRegistry<V> {
    /// Each codec identifier appears at most once.
    pub open spec fn wf(&self) -> bool {
        forall|i: int, j: int|
            0 <= i < j < self.entries@.len() ==> (#[trigger] self.entries@[i]).0 != (
            #[trigger] self.entries@[j]).0
    }

    /// Whether some entry carries identifier `id`.
    pub open spec fn has_id(&self, id: u32) -> bool {
        exists|i: int| 0 <= i < self.entries@.len() && (#[trigger] self.entries@[i]).0 == id
    }

    /// The index of the entry carrying `id`; meaningful only when `has_id`.
    pub open spec fn index_of(&self, id: u32) -> int {
        choose|i: int| 0 <= i < self.entries@.len() && (#[trigger] self.entries@[i]).0 == id
    }

    /// The registry as the mapping it represents.
    pub open spec fn as_map(&self) -> Map<u32, V> {
        Map::new(|id: u32| self.has_id(id), |id: u32| self.entries@[self.index_of(id)].1)
    }

    /// With unique identifiers, any entry carrying `id` is the one `index_of`
    /// names.
    pub proof fn lemma_index_unique(&self, id: u32, i: int)
        requires
            self.wf(),
            0 <= i < self.entries@.len(),
            self.entries@[i].0 == id,
        ensures
            self.index_of(id) == i,
    {
        assert(self.has_id(id));
        let j = self.index_of(id);
        assert(0 <= j < self.entries@.len() && self.entries@[j].0 == id);
        if i < j {
            assert(self.entries@[i].0 != self.entries@[j].0);
        } else if j < i {
            assert(self.entries@[j].0 != self.entries@[i].0);
        }
    }

    /// An empty registry: no identifier is known.
    pub fn new() -> (r: Self)
        ensures
            r.wf(),
            r.as_map() == Map::<u32, V>::empty(),
    {
        let r = CodecRegistry { entries: Vec::new() };
        proof {
            assert(r.as_map() =~= Map::<u32, V>::empty());
        }
        r
    }

    /// The index of the entry for `id`, if one is registered.
    fn find_index(&self, id: u32) -> (r: Option<usize>)
        requires
            self.wf(),
        ensures
            match r {
                Some(i) => i < self.entries@.len() && self.entries@[i as int].0 == id,
                None => !self.has_id(id),
            },
    {
        let mut i: usize = 0;
        while i < self.entries.len()
            invariant
                i <= self.entries@.len(),
                forall|j: int| 0 <= j < i ==> (#[trigger] self.entries@[j]).0 != id,
            decreases self.entries@.len() - i,
        {
            if self.entries[i].0 == id {
                return Some(i);
            }
            i += 1;
        }
        None
    }

    /// Register `maker` for `id`. A later registration for an identifier
    /// overrides the earlier entry, so add-ons registered after the defaults
    /// win; registration order is otherwise irrelevant.
    pub fn register(&mut self, id: u32, maker: V)
        requires
            old(self).wf(),
        ensures
            final(self).wf(),
            final(self).as_map() == old(self).as_map().insert(id, maker),
    {
        let ghost prev = *self;
        match self.find_index(id) {
            Some(i) => {
                self.entries[i] = (id, maker);
                proof {
                    assert forall|k: u32| #[trigger] self.has_id(k) == prev.has_id(k) by {
                        if self.has_id(k) {
                            let w = choose|w: int|
                                0 <= w < self.entries@.len() && (#[trigger] self.entries@[w]).0
                                    == k;
                            assert(prev.entries@[w].0 == k);
                        }
                        if prev.has_id(k) {
                            let w = choose|w: int|
                                0 <= w < prev.entries@.len() && (#[trigger] prev.entries@[w]).0
                                    == k;
                            assert(self.entries@[w].0 == k);
                        }
                    }
                    assert forall|k: u32| self.as_map().dom().contains(k) implies self.as_map()[k]
                        == prev.as_map().insert(id, maker)[k] by {
                        let w = self.index_of(k);
                        assert(0 <= w < self.entries@.len() && self.entries@[w].0 == k);
                        if k == id {
                            self.lemma_index_unique(id, i as int);
                        } else {
                            assert(w != i);
                            assert(prev.entries@[w].0 == k);
                            prev.lemma_index_unique(k, w);
                        }
                    }
                    assert(self.as_map() =~= prev.as_map().insert(id, maker));
                }
            }
            None => {
                self.entries.push((id, maker));
                proof {
                    let n = prev.entries@.len() as int;
                    assert(self.entries@ == prev.entries@.push((id, maker)));
                    assert forall|a: int, b: int|
                        0 <= a < b < self.entries@.len() implies (#[trigger] self.entries@[a]).0
                        != (#[trigger] self.entries@[b]).0 by {
                        if b < n {
                            assert(prev.entries@[a].0 != prev.entries@[b].0);
                        } else {
                            assert(self.entries@[b].0 == id);
                            assert(prev.entries@[a].0 == self.entries@[a].0);
                            assert(!prev.has_id(id));
                        }
                    }
                    assert forall|k: u32| self.as_map().dom().contains(k) implies self.as_map()[k]
                        == prev.as_map().insert(id, maker)[k] by {
                        let w = self.index_of(k);
                        assert(0 <= w < self.entries@.len() && self.entries@[w].0 == k);
                        if k == id {
                            self.lemma_index_unique(id, n);
                        } else {
                            assert(w != n);
                            assert(prev.entries@[w].0 == k);
                            prev.lemma_index_unique(k, w);
                        }
                    }
                    assert forall|k: u32| prev.as_map().insert(id, maker).dom().contains(
                        k,
                    ) implies self.as_map().dom().contains(k) by {
                        if k == id {
                            assert(self.entries@[n].0 == id);
                        } else {
                            let w = choose|w: int|
                                0 <= w < prev.entries@.len() && (#[trigger] prev.entries@[w]).0
                                    == k;
                            assert(self.entries@[w].0 == k);
                        }
                    }
                    assert(self.as_map() =~= prev.as_map().insert(id, maker));
                }
            }
        }
    }

    /// Registration order is irrelevant across distinct identifiers: with
    /// unique keys, registering two entries yields the same mapping in
    /// either order. (For the same identifier the later entry wins: see
    /// `lemma_same_id_overrides`.)
    pub proof fn lemma_registration_order_irrelevant(
        m: Map<u32, V>,
        id1: u32,
        v1: V,
        id2: u32,
        v2: V,
    )
        requires
            id1 != id2,
        ensures
            m.insert(id1, v1).insert(id2, v2) == m.insert(id2, v2).insert(id1, v1),
    {
        assert(m.insert(id1, v1).insert(id2, v2) =~= m.insert(id2, v2).insert(id1, v1));
    }

    /// A later registration for an identifier overrides the earlier one
    /// entirely: registering the default and then the add-on leaves exactly
    /// the add-on's entry.
    pub proof fn lemma_same_id_overrides(m: Map<u32, V>, id: u32, v1: V, v2: V)
        ensures
            m.insert(id, v1).insert(id, v2) == m.insert(id, v2),
    {
        assert(m.insert(id, v1).insert(id, v2) =~= m.insert(id, v2));
    }

    /// Look an identifier up: the registered value, or nothing. Lookup reads
    /// the table and nothing else, so it is a pure function of `id`.
    pub fn get(&self, id: u32) -> (r: Option<&V>)
        requires
            self.wf(),
        ensures
            match r {
                Some(v) => self.as_map().dom().contains(id) && *v == self.as_map()[id],
                None => !self.as_map().dom().contains(id),
            },
    {
        match self.find_index(id) {
            Some(i) => {
                proof {
                    self.lemma_index_unique(id, i as int);
                }
                Some(&self.entries[i].1)
            }
            None => None,
        }
    }

    /// Look an identifier up, surfacing a missing entry as the registry's
    /// `UnsupportedCodec` error: the only failure codec selection can have.
    pub fn lookup(&self, id: u32) -> (r: Result<&V, CodecError>)
        requires
            self.wf(),
        ensures
            match r {
                Ok(v) => self.as_map().dom().contains(id) && *v == self.as_map()[id],
                Err(e) => !self.as_map().dom().contains(id) && e == CodecError::UnsupportedCodec(
                    id,
                ),
            },
    {
        match self.get(id) {
            Some(v) => Ok(v),
            None => Err(CodecError::UnsupportedCodec(id)),
        }
    }
}

} // verus!
