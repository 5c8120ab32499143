//! Render pipelines are expensive to compile, so each distinct combination of
//! shader, vertex layout and bind-group layouts is compiled once and kept.

use vstd::prelude::*;

verus! {

/// The structural identity of a render pipeline.
pub struct PipelineKey {
    pub shader_id: u64,
    pub vertex_layout_id: u64,
    pub bind_group_layout_ids: Vec<u64>,
}

/// The mathematical value of a [`PipelineKey`].
pub struct PipelineKeyView {
    pub shader_id: u64,
    pub vertex_layout_id: u64,
    pub bind_group_layout_ids: Seq<u64>,
}

impl View for PipelineKey {
    type V = PipelineKeyView;

    open spec fn view(&self) -> PipelineKeyView {
        PipelineKeyView {
            shader_id: self.shader_id,
            vertex_layout_id: self.vertex_layout_id,
            bind_group_layout_ids: self.bind_group_layout_ids@,
        }
    }
}

impl PipelineKey {
    /// Whether two keys name the same pipeline.
    pub fn same_as(&self, other: &PipelineKey) -> (same: bool)
        ensures
            same == (self@ == other@),
    {
        if self.shader_id != other.shader_id || self.vertex_layout_id != other.vertex_layout_id {
            return false;
        }
        if self.bind_group_layout_ids.len() != other.bind_group_layout_ids.len() {
            return false;
        }
        let mut i: usize = 0;
        while i < self.bind_group_layout_ids.len()
            invariant
                i <= self.bind_group_layout_ids.len(),
                self.bind_group_layout_ids.len() == other.bind_group_layout_ids.len(),
                forall|j: int|
                    0 <= j < i ==> self.bind_group_layout_ids@[j] == other.bind_group_layout_ids@[j],
            decreases self.bind_group_layout_ids.len() - i,
        {
            if self.bind_group_layout_ids[i] != other.bind_group_layout_ids[i] {
                return false;
            }
            i += 1;
        }
        assert(self.bind_group_layout_ids@ =~= other.bind_group_layout_ids@);
        true
    }
}

/// One compiled pipeline together with the key it was compiled for.
pub struct CacheEntry<H> {
    key: PipelineKey,
    handle: H,
}

/// Compiled pipelines, at most one per key, in the order of their creation.
pub struct PipelineCache<H> {
    entries: Vec<CacheEntry<H>>,
}

/// Whether some entry of `entries` was compiled for `key`.
pub open spec fn has_key<H>(entries: Seq<(PipelineKeyView, H)>, key: PipelineKeyView) -> bool {
    exists|i: int| 0 <= i < entries.len() && (#[trigger] entries[i]).0 == key
}

/// The position of the entry compiled for `key`, where there is one.
pub open spec fn slot_of<H>(entries: Seq<(PipelineKeyView, H)>, key: PipelineKeyView) -> int {
    choose|i: int| 0 <= i < entries.len() && (#[trigger] entries[i]).0 == key
}

/// No two entries share a key.
pub open spec fn distinct_keys<H>(entries: Seq<(PipelineKeyView, H)>) -> bool {
    forall|i: int, j: int|
        0 <= i < j < entries.len() ==> (#[trigger] entries[i]).0 != (#[trigger] entries[j]).0
}

/// The handles by key.
pub open spec fn map_of<H>(entries: Seq<(PipelineKeyView, H)>) -> Map<PipelineKeyView, H> {
    Map::new(
        |k: PipelineKeyView| has_key(entries, k),
        |k: PipelineKeyView| entries[slot_of(entries, k)].1,
    )
}

/// Where no two entries share a key, the entry of a key is found in one slot
/// only.
pub proof fn lemma_slot_unique<H>(entries: Seq<(PipelineKeyView, H)>, key: PipelineKeyView, slot: int)
    requires
        distinct_keys(entries),
        0 <= slot < entries.len(),
        entries[slot].0 == key,
    ensures
        has_key(entries, key),
        slot_of(entries, key) == slot,
        map_of(entries)[key] == entries[slot].1,
{
    let found = slot_of(entries, key);
    assert(0 <= found < entries.len() && entries[found].0 == key);
    if found < slot {
        assert(entries[found].0 != entries[slot].0);
    } else if slot < found {
        assert(entries[slot].0 != entries[found].0);
    }
}

/// Compiling a pipeline for a key that the cache lacks adds that one binding
/// and changes no other: earlier entries keep their slots and handles.
pub proof fn lemma_miss_inserts<H>(entries: Seq<(PipelineKeyView, H)>, key: PipelineKeyView, handle: H)
    requires
        distinct_keys(entries),
        !has_key(entries, key),
    ensures
        distinct_keys(entries.push((key, handle))),
        slot_of(entries.push((key, handle)), key) == entries.len(),
        map_of(entries.push((key, handle))) == map_of(entries).insert(key, handle),
{
    let grown = entries.push((key, handle));
    assert forall|i: int, j: int| 0 <= i < j < grown.len() implies (#[trigger] grown[i]).0
        != (#[trigger] grown[j]).0 by {
        if j == entries.len() {
            assert(entries[i].0 != key);
        } else {
            assert(entries[i].0 != entries[j].0);
        }
    }
    lemma_slot_unique(grown, key, entries.len() as int);
    assert forall|k: PipelineKeyView| #[trigger] has_key(grown, k) <==> (k == key || has_key(entries, k)) by {
        if has_key(grown, k) {
            let i = slot_of(grown, k);
            if i < entries.len() {
                assert(entries[i].0 == k);
            }
        }
        if has_key(entries, k) {
            let i = slot_of(entries, k);
            assert(grown[i].0 == k);
        }
        if k == key {
            assert(grown[entries.len() as int].0 == k);
        }
    }
    assert forall|k: PipelineKeyView| has_key(entries, k) implies #[trigger] map_of(grown)[k] == map_of(
        entries,
    )[k] by {
        let i = slot_of(entries, k);
        assert(grown[i] == entries[i]);
        lemma_slot_unique(grown, k, i);
    }
    assert(map_of(grown) =~= map_of(entries).insert(key, handle));
}

/// Asking again for a key that the cache holds changes nothing: the map of
/// handles already binds the key to the handle in its slot.
pub proof fn lemma_hit_keeps<H>(entries: Seq<(PipelineKeyView, H)>, key: PipelineKeyView)
    requires
        distinct_keys(entries),
        has_key(entries, key),
    ensures
        map_of(entries).insert(key, entries[slot_of(entries, key)].1) == map_of(entries),
{
    assert(map_of(entries).insert(key, entries[slot_of(entries, key)].1) =~= map_of(entries));
}

impl<H> View for PipelineCache<H> {
    type V = Seq<(PipelineKeyView, H)>;

    closed spec fn view(&self) -> Seq<(PipelineKeyView, H)> {
        Seq::new(self.entries@.len(), |i: int| (self.entries@[i].key@, self.entries@[i].handle))
    }
}

impl<H> PipelineCache<H> {
    /// The invariant of the cache: each key was compiled at most once.
    pub open spec fn wf(&self) -> bool {
        distinct_keys(self@)
    }

    /// The handles by key.
    pub open spec fn as_map(&self) -> Map<PipelineKeyView, H> {
        map_of(self@)
    }

    pub fn new() -> (cache: Self)
        ensures
            cache.wf(),
            cache@ == Seq::<(PipelineKeyView, H)>::empty(),
    {
        PipelineCache { entries: Vec::new() }
    }

    /// The number of compiled pipelines.
    pub fn len(&self) -> (n: usize)
        ensures
            n == self@.len(),
    {
        self.entries.len()
    }

    /// The slot that holds the pipeline for `key`, if it was compiled.
    pub fn find(&self, key: &PipelineKey) -> (slot: Option<usize>)
        requires
            self.wf(),
        ensures
            match slot {
                Some(s) => s < self@.len() && self@[s as int].0 == key@ && s == slot_of(self@, key@),
                None => !has_key(self@, key@),
            },
    {
        let mut i: usize = 0;
        while i < self.entries.len()
            invariant
                i <= self.entries.len(),
                self.wf(),
                forall|j: int| 0 <= j < i ==> (#[trigger] self@[j]).0 != key@,
            decreases self.entries.len() - i,
        {
            if self.entries[i].key.same_as(key) {
                assert(self@[i as int].0 == key@);
                return Some(i);
            }
            i += 1;
        }
        None
    }

    /// The pipeline in `slot`.
    pub fn get(&self, slot: usize) -> (handle: Option<&H>)
        ensures
            match handle {
                Some(h) => slot < self@.len() && *h == self@[slot as int].1,
                None => slot >= self@.len(),
            },
    {
        if slot < self.entries.len() {
            Some(&self.entries[slot].handle)
        } else {
            None
        }
    }

    /// Returns the slot of the pipeline for `key`, compiling it with `build`
    /// only when the cache holds none for that key.
    pub fn get_or_create<F: FnOnce() -> H>(&mut self, key: PipelineKey, build: F) -> (slot: usize)
        requires
            old(self).wf(),
            !has_key(old(self)@, key@) ==> build.requires(()),
        ensures
            final(self).wf(),
            slot < final(self)@.len(),
            final(self)@[slot as int].0 == key@,
            final(self).as_map() == old(self).as_map().insert(key@, final(self)@[slot as int].1),
            has_key(old(self)@, key@) ==> {
                &&& final(self)@ == old(self)@
                &&& slot == slot_of(old(self)@, key@)
            },
            !has_key(old(self)@, key@) ==> {
                &&& slot == old(self)@.len()
                &&& final(self)@ == old(self)@.push((key@, final(self)@[slot as int].1))
                &&& build.ensures((), final(self)@[slot as int].1)
            },
    {
        match self.find(&key) {
            Some(slot) => {
                proof {
                    lemma_hit_keeps(self@, key@);
                }
                slot
            },
            None => {
                let handle = build();
                let slot = self.entries.len();
                self.entries.push(CacheEntry { key, handle });
                proof {
                    assert(self@ =~= old(self)@.push((key@, handle)));
                    lemma_miss_inserts(old(self)@, key@, handle);
                }
                slot
            },
        }
    }

    /// Drops every compiled pipeline, as a change of the target format demands.
    pub fn invalidate_all(&mut self)
        ensures
            final(self).wf(),
            final(self)@ == Seq::<(PipelineKeyView, H)>::empty(),
    {
        self.entries.clear();
    }
}

} // verus!
