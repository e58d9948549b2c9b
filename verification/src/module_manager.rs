use vstd::prelude::*;
use std::sync::Arc;
use crate::paths::ModulePath;

verus! {

/// At what state a buffer can be in
pub enum BufferState<B> {
    /// No buffer in buffer -> Create a new one
    Empty,
    /// Buffer! But it is potentially referenced by other slots
    Filled {
        /// The actual buffer
        image: Arc<B>,
        /// The slots that reference this one
        referenced_by: Vec<usize>,
    },
    /// Buffer! But somewhere else
    FoundAt(usize),
}

/// How a module image should be inserted into the cache
#[derive(Debug, Clone, PartialEq, Eq)]
pub enum InsertionMode {
    /// Insert without any duplicate checking. Overwriting an image that other slots refer to
    /// does not change what those slots show: by design the old image moves to the first of
    /// them and the rest point there, so only the written slot shows the new image
    Simple,
    /// See if any other buffer this module has produced is equivalent to this one
    SearchInSameModule,
    /// When the image should be synced across all gui instances
    ReplaceAll,
    /// Sync a single image across the specified container ids
    CloneAcrossIds(Vec<usize>),
}

/// The modules of a GUI, the images cached for them, and the index from module ids to
/// their positions
pub struct ModuleRegistry<M, B> {
    /// The registered modules, in registration order
    pub modules: Vec<M>,
    /// Per module, per container: the cached image
    pub image_cache: Vec<Vec<BufferState<B>>>,
    /// The module index: which id sits at which position (each id at most once)
    pub index: Vec<(u32, usize)>,
    /// The next container id to hand out
    pub next_container_id: usize,
}

/// The position the index gives for `id` (the last entry for it counts)
pub open spec fn lookup(index: Seq<(u32, usize)>, id: u32) -> Option<usize>
    decreases index.len(),
{
    if index.len() == 0 {
        None
    } else if index.last().0 == id {
        Some(index.last().1)
    } else {
        lookup(index.drop_last(), id)
    }
}

/// A position after the module at `removed` is taken out
pub open spec fn shifted(p: usize, removed: usize) -> usize {
    if p > removed { (p - 1) as usize } else { p }
}

/// The index without its entry `j`, every position after `removed` moved one down
pub open spec fn index_after_removal(index: Seq<(u32, usize)>, j: int, removed: usize) -> Seq<(u32, usize)> {
    index.remove(j).map_values(|e: (u32, usize)| (e.0, shifted(e.1, removed)))
}

/// No id occurs twice in the index
pub open spec fn ids_unique(index: Seq<(u32, usize)>) -> bool {
    forall|i: int, j: int| 0 <= i < j < index.len() ==> index[i].0 != index[j].0
}

/// What a cache slot holds, as a mathematical value
pub enum SlotView<B> {
    /// Nothing cached
    Empty,
    /// An image, and the slots that refer to it
    Filled(B, Seq<usize>),
    /// The image is in another slot
    FoundAt(usize),
}

impl<B> BufferState<B> {
    /// What the slot holds
    pub open spec fn slot(&self) -> SlotView<B> {
        match self {
            BufferState::Empty => SlotView::Empty,
            BufferState::Filled { image, referenced_by } => SlotView::Filled(**image, referenced_by@),
            BufferState::FoundAt(j) => SlotView::FoundAt(*j),
        }
    }
}

/// The slots of one module's cache as mathematical values
pub open spec fn slots_view<B>(v: Seq<BufferState<B>>) -> Seq<SlotView<B>> {
    v.map_values(|b: BufferState<B>| b.slot())
}

/// Following references from slot `id` for at most `fuel` steps: `Some(r)` with the image
/// found (`None` when the chain ends at an empty slot or outside the cache), or `None` when
/// the fuel runs out
pub open spec fn resolve_within<B>(slots: Seq<SlotView<B>>, id: int, fuel: nat) -> Option<Option<B>>
    decreases fuel,
{
    if id < 0 || id >= slots.len() {
        Some(None)
    } else {
        match slots[id] {
            SlotView::Empty => Some(None),
            SlotView::Filled(image, _) => Some(Some(image)),
            SlotView::FoundAt(next) => if fuel == 0 {
                None
            } else {
                resolve_within(slots, next as int, (fuel - 1) as nat)
            },
        }
    }
}

/// The chain of references from slot `id` ends (it can visit each slot once at most)
pub open spec fn resolves<B>(slots: Seq<SlotView<B>>, id: int) -> bool {
    resolve_within(slots, id, slots.len()) is Some
}

/// The image slot `id` resolves to
pub open spec fn resolved<B>(slots: Seq<SlotView<B>>, id: int) -> Option<B> {
    resolve_within(slots, id, slots.len())->0
}

/// `a` with empty slots appended until it has at least `n` of them
pub open spec fn padded_slots<B>(a: Seq<SlotView<B>>, n: int) -> Seq<SlotView<B>> {
    if a.len() >= n {
        a
    } else {
        a + Seq::new((n - a.len()) as nat, |_i: int| SlotView::Empty)
    }
}

/// The cache with at least `n` modules, each added one with no slots
pub open spec fn padded_modules<B>(c: Seq<Seq<SlotView<B>>>, n: int) -> Seq<Seq<SlotView<B>>> {
    if c.len() >= n {
        c
    } else {
        c + Seq::new((n - c.len()) as nat, |_i: int| Seq::<SlotView<B>>::empty())
    }
}

/// The image cache as nested sequences
pub open spec fn cache_view<B>(c: Seq<Vec<BufferState<B>>>) -> Seq<Seq<SlotView<B>>> {
    c.map_values(|v: Vec<BufferState<B>>| slots_view(v@))
}

impl<M, B> ModuleRegistry<M, B> {
    /// The image cache as nested sequences
    pub open spec fn cache(&self) -> Seq<Seq<SlotView<B>>> {
        cache_view(self.image_cache@)
    }

    /// The position of module `id`
    pub open spec fn position(&self, id: u32) -> Option<usize> {
        lookup(self.index@, id)
    }

    /// The index is consistent with the modules: each id once, each position of a
    /// registered module, no position twice
    pub open spec fn wf(&self) -> bool {
        &&& ids_unique(self.index@)
        &&& forall|i: int| 0 <= i < self.index@.len() ==> (#[trigger] self.index@[i]).1 < self.modules@.len()
        &&& forall|i: int, j: int| 0 <= i < j < self.index@.len() ==> self.index@[i].1 != self.index@[j].1
    }

    /// An empty registry; container ids start at 1
    pub fn new() -> (r: Self)
        ensures
            r.modules@.len() == 0,
            r.image_cache@.len() == 0,
            r.index@.len() == 0,
            r.next_container_id == 1,
            r.wf(),
    {
        ModuleRegistry { modules: Vec::new(), image_cache: Vec::new(), index: Vec::new(), next_container_id: 1 }
    }

    /// Get an ID that has not yet been used by any other container (the counter wraps around)
    pub fn get_available_id(&mut self) -> (r: usize)
        ensures
            r == old(self).next_container_id,
            final(self).next_container_id == next_id(old(self).next_container_id),
            final(self).modules == old(self).modules,
            final(self).image_cache == old(self).image_cache,
            final(self).index == old(self).index,
    {
        let r = self.next_container_id;
        self.next_container_id = r.wrapping_add(1);
        r
    }
}


/// An id no entry holds has no position
pub proof fn lemma_lookup_absent(index: Seq<(u32, usize)>, id: u32)
    ensures
        lookup(index, id) is None <==> forall|i: int| 0 <= i < index.len() ==> (#[trigger] index[i]).0 != id,
    decreases index.len(),
{
    if index.len() > 0 {
        lemma_lookup_absent(index.drop_last(), id);
        if lookup(index, id) is None {
            assert forall|i: int| 0 <= i < index.len() implies (#[trigger] index[i]).0 != id by {
                if i < index.len() - 1 {
                    assert(index.drop_last()[i] == index[i]);
                }
            }
        } else if index.last().0 != id {
            let i = choose|i: int| 0 <= i < index.drop_last().len() && (#[trigger] index.drop_last()[i]).0 == id;
            assert(index[i] == index.drop_last()[i]);
        }
    }
}

/// With each id once, the position of an entry's id is the entry's position
pub proof fn lemma_lookup_entry(index: Seq<(u32, usize)>, i: int)
    requires
        ids_unique(index),
        0 <= i < index.len(),
    ensures
        lookup(index, index[i].0) == Some(index[i].1),
    decreases index.len(),
{
    if i < index.len() - 1 {
        let d = index.drop_last();
        assert(d[i] == index[i]);
        assert(ids_unique(d)) by {
            assert forall|a: int, b: int| 0 <= a < b < d.len() implies d[a].0 != d[b].0 by {
                assert(d[a] == index[a] && d[b] == index[b]);
            }
        }
        lemma_lookup_entry(d, i);
    }
}


/// Append modules with no slots until the cache holds at least `n` of them
fn pad_cache<B>(cache: &mut Vec<Vec<BufferState<B>>>, n: usize)
    ensures
        cache_view(final(cache)@) == padded_modules(cache_view(old(cache)@), n as int),
        final(cache)@.len() == if old(cache)@.len() >= n { old(cache)@.len() } else { n as nat },
{
    let ghost c0 = cache_view(cache@);
    while cache.len() < n
        invariant
            c0.len() <= cache@.len(),
            cache@.len() <= n || cache@.len() == c0.len(),
            cache_view(cache@) == padded_modules(c0, cache@.len() as int),
        decreases n - cache.len(),
    {
        let ghost prev = cache_view(cache@);
        let fresh: Vec<BufferState<B>> = Vec::new();
        assert(slots_view(fresh@) =~= Seq::<SlotView<B>>::empty());
        cache.push(fresh);
        proof {
            assert(cache_view(cache@) =~= prev.push(Seq::<SlotView<B>>::empty()));
            assert(cache_view(cache@) =~= padded_modules(c0, cache@.len() as int));
        }
    }
    proof {
        if c0.len() >= n {
            assert(cache_view(cache@) =~= padded_modules(c0, n as int));
        } else {
            assert(cache_view(cache@) =~= padded_modules(c0, n as int));
        }
    }
}

/// Append empty slots until there are at least `n`
fn pad_slots<B>(slots: &mut Vec<BufferState<B>>, n: usize)
    ensures
        slots_view(final(slots)@) == padded_slots(slots_view(old(slots)@), n as int),
        final(slots)@.len() == if old(slots)@.len() >= n { old(slots)@.len() } else { n as nat },
        forall|q: int| 0 <= q < old(slots)@.len() ==> #[trigger] slots_view(final(slots)@)[q] == slots_view(old(slots)@)[q],
        forall|q: int| old(slots)@.len() <= q < final(slots)@.len() ==> #[trigger] slots_view(final(slots)@)[q] == SlotView::<B>::Empty,
{
    let ghost s0 = slots_view(slots@);
    while slots.len() < n
        invariant
            s0.len() <= slots@.len(),
            slots@.len() <= n || slots@.len() == s0.len(),
            slots_view(slots@) == padded_slots(s0, slots@.len() as int),
        decreases n - slots.len(),
    {
        let ghost prev = slots_view(slots@);
        slots.push(BufferState::Empty);
        proof {
            assert(slots_view(slots@) =~= prev.push(SlotView::Empty));
            assert(slots_view(slots@) =~= padded_slots(s0, slots@.len() as int));
        }
    }
    proof {
        assert(slots_view(slots@) =~= padded_slots(s0, n as int));
    }
}

/// Move every position after `removed` one down
fn shift_positions(index: &mut Vec<(u32, usize)>, removed: usize)
    ensures
        final(index)@ == old(index)@.map_values(|e: (u32, usize)| (e.0, shifted(e.1, removed))),
{
    let ghost i1 = index@;
    let mut k: usize = 0;
    while k < index.len()
        invariant
            index@.len() == i1.len(),
            k <= i1.len(),
            forall|a: int| 0 <= a < k ==> #[trigger] index@[a] == (i1[a].0, shifted(i1[a].1, removed)),
            forall|a: int| k <= a < i1.len() ==> #[trigger] index@[a] == i1[a],
        decreases i1.len() - k,
    {
        let e = index[k];
        let v = if e.1 > removed { e.1 - 1 } else { e.1 };
        index.set(k, (e.0, v));
        k = k + 1;
    }
    proof {
        assert(index@ =~= i1.map_values(|e: (u32, usize)| (e.0, shifted(e.1, removed))));
    }
}

/// Registering and removing modules
impl<M, B> ModuleRegistry<M, B> {
    /// Convert from a generic id to a index
    #[verifier::loop_isolation(false)]
    pub fn get_idx_of_id(&self, name: u32) -> (r: Option<usize>)
        requires
            ids_unique(self.index@),
        ensures
            r == self.position(name),
    {
        let mut i: usize = 0;
        while i < self.index.len()
            invariant
                i <= self.index@.len(),
                forall|j: int| 0 <= j < i ==> (#[trigger] self.index@[j]).0 != name,
            decreases self.index.len() - i,
        {
            if self.index[i].0 == name {
                proof {
                    lemma_lookup_entry(self.index@, i as int);
                }
                return Some(self.index[i].1);
            }
            i = i + 1;
        }
        proof {
            lemma_lookup_absent(self.index@, name);
        }
        None
    }

    /// Where the index holds `name`, if anywhere
    fn index_slot_of(&self, name: u32) -> (r: Option<usize>)
        ensures
            match r {
                Some(j) => j < self.index@.len() && self.index@[j as int].0 == name,
                None => forall|j: int| 0 <= j < self.index@.len() ==> (#[trigger] self.index@[j]).0 != name,
            },
    {
        let mut i: usize = 0;
        while i < self.index.len()
            invariant
                i <= self.index@.len(),
                forall|j: int| 0 <= j < i ==> (#[trigger] self.index@[j]).0 != name,
            decreases self.index.len() - i,
        {
            if self.index[i].0 == name {
                return Some(i);
            }
            i = i + 1;
        }
        None
    }

    /// Add a module under the id of `path`: it goes last, its cache gets a place, and the
    /// id points at it
    pub fn register_module<T>(&mut self, path: ModulePath<T>, module: M) -> (r: ModulePath<T>)
        requires
            old(self).wf(),
        ensures
            r.id == path.id,
            r.name == path.name,
            final(self).wf(),
            final(self).modules@ == old(self).modules@.push(module),
            final(self).cache() == padded_modules(old(self).cache(), old(self).modules@.len() + 1int),
            final(self).position(path.id) == Some(old(self).modules@.len() as usize),
            forall|k: u32| k != path.id ==> #[trigger] final(self).position(k) == old(self).position(k),
            final(self).next_container_id == old(self).next_container_id,
            registered(*old(self), *final(self), path.id, module),
    {
        let idx = self.modules.len();
        self.modules.push(module);
        let target = self.modules.len();
        pad_cache(&mut self.image_cache, target);
        let ghost i0 = self.index@;
        match self.index_slot_of(path.id) {
            Some(j) => {
                self.index.set(j, (path.id, idx));
                proof {
                    assert forall|a: int, b: int| 0 <= a < b < self.index@.len() implies self.index@[a].0 != self.index@[b].0 by {
                        assert(i0[a].0 != i0[b].0);
                    }
                    assert forall|a: int, b: int| 0 <= a < b < self.index@.len() implies self.index@[a].1 != self.index@[b].1 by {
                        if a != j && b != j {
                            assert(i0[a].1 != i0[b].1);
                        }
                    }
                    lemma_lookup_entry(self.index@, j as int);
                    assert forall|k: u32| k != path.id implies #[trigger] lookup(self.index@, k) == lookup(i0, k) by {
                        lemma_lookup_absent(i0, k);
                        lemma_lookup_absent(self.index@, k);
                        if lookup(i0, k) is Some {
                            let a = choose|a: int| 0 <= a < i0.len() && (#[trigger] i0[a]).0 == k;
                            lemma_lookup_entry(i0, a);
                            lemma_lookup_entry(self.index@, a);
                        } else {
                            assert forall|a: int| 0 <= a < self.index@.len() implies (#[trigger] self.index@[a]).0 != k by {
                                if a != j {
                                    assert(i0[a].0 != k);
                                }
                            }
                        }
                    }
                }
            },
            None => {
                self.index.push((path.id, idx));
                proof {
                    assert(self.index@.drop_last() =~= i0);
                }
            },
        }
        path
    }

    /// Remove the module of `path` from the registry and from the cache; later modules move
    /// one position down. Returns false when the id is not registered.
    pub fn remove_module<T>(&mut self, path: &ModulePath<T>) -> (r: bool)
        requires
            old(self).wf(),
        ensures
            r == old(self).position(path.id) is Some,
            final(self).wf(),
            final(self).next_container_id == old(self).next_container_id,
            !r ==> final(self).modules == old(self).modules && final(self).image_cache == old(self).image_cache
                && final(self).index == old(self).index,
            removed(*old(self), *final(self), path.id, r),
            r ==> {
                let p = old(self).position(path.id)->0;
                &&& final(self).modules@ == old(self).modules@.remove(p as int)
                &&& final(self).cache() == if p < old(self).cache().len() {
                    old(self).cache().remove(p as int)
                } else {
                    old(self).cache()
                }
                &&& final(self).position(path.id) is None
                &&& forall|k: u32| k != path.id ==> #[trigger] final(self).position(k) == match old(self).position(k) {
                    Some(q) => Some(shifted(q, p)),
                    None => None,
                }
            },
    {
        let slot = self.index_slot_of(path.id);
        let j = match slot {
            Some(j) => j,
            None => {
                proof {
                    lemma_lookup_absent(self.index@, path.id);
                }
                return false;
            },
        };
        let ghost i0 = self.index@;
        let ghost m0 = self.modules@;
        proof {
            lemma_lookup_entry(i0, j as int);
        }
        let idx = self.index[j].1;
        self.modules.remove(idx);
        if idx < self.image_cache.len() {
            let ghost c0 = self.cache();
            self.image_cache.remove(idx);
            proof {
                assert(self.cache() =~= c0.remove(idx as int));
            }
        }
        self.index.remove(j);
        let ghost i1 = self.index@;
        shift_positions(&mut self.index, idx);
        proof {
            let fin = self.index@;
            assert(fin =~= index_after_removal(i0, j as int, idx));
            assert forall|a: int, b: int| 0 <= a < b < fin.len() implies fin[a].0 != fin[b].0 by {
                let oa = if a < j { a } else { a + 1 };
                let ob = if b < j { b } else { b + 1 };
                assert(i1[a] == i0[oa] && i1[b] == i0[ob]);
            }
            assert forall|a: int| 0 <= a < fin.len() implies (#[trigger] fin[a]).1 < self.modules@.len() by {
                let oa = if a < j { a } else { a + 1 };
                assert(i1[a] == i0[oa]);
                assert(i0[oa].1 != i0[j as int].1);
            }
            assert forall|a: int, b: int| 0 <= a < b < fin.len() implies fin[a].1 != fin[b].1 by {
                let oa = if a < j { a } else { a + 1 };
                let ob = if b < j { b } else { b + 1 };
                assert(i1[a] == i0[oa] && i1[b] == i0[ob]);
                assert(i0[oa].1 != i0[j as int].1);
                assert(i0[ob].1 != i0[j as int].1);
            }
            lemma_lookup_absent(fin, path.id);
            assert forall|a: int| 0 <= a < fin.len() implies (#[trigger] fin[a]).0 != path.id by {
                let oa = if a < j { a } else { a + 1 };
                assert(i1[a] == i0[oa]);
            }
            assert forall|kk: u32| kk != path.id implies #[trigger] lookup(fin, kk) == match lookup(i0, kk) {
                Some(q) => Some(shifted(q, idx)),
                None => None,
            } by {
                lemma_lookup_absent(i0, kk);
                lemma_lookup_absent(fin, kk);
                if lookup(i0, kk) is Some {
                    let a = choose|a: int| 0 <= a < i0.len() && (#[trigger] i0[a]).0 == kk;
                    lemma_lookup_entry(i0, a);
                    let na = if a < j { a } else { a - 1 };
                    assert(i1[na] == i0[a]);
                    lemma_lookup_entry(fin, na);
                } else {
                    assert forall|a: int| 0 <= a < fin.len() implies (#[trigger] fin[a]).0 != kk by {
                        let oa = if a < j { a } else { a + 1 };
                        assert(i1[a] == i0[oa]);
                    }
                }
            }
        }
        true
    }
}


/// The slots after the image of slot `i` is handed to the first slot that refers to it:
/// that slot holds the image with the remaining references, the remaining referring slots
/// point to that first slot (so they all keep showing the image), and `i` is emptied
pub open spec fn after_handover<B>(m: Seq<SlotView<B>>, i: int) -> Seq<SlotView<B>> {
    if m[i] is Filled && m[i]->Filled_1.len() > 0 {
        let image = m[i]->Filled_0;
        let refs = m[i]->Filled_1;
        let first = refs[0] as int;
        let rest = refs.subrange(1, refs.len() as int);
        Seq::new(m.len(), |k: int|
            if k == first {
                SlotView::Filled(image, rest)
            } else if rest.contains(k as usize) {
                SlotView::FoundAt(first as usize)
            } else if k == i {
                SlotView::Empty
            } else {
                m[k]
            })
    } else {
        m
    }
}

/// The references a filled slot `i` holds all point inside the slots
pub open spec fn references_inside<B>(m: Seq<SlotView<B>>, i: int) -> bool {
    m[i] is Filled ==> forall|j: int| 0 <= j < m[i]->Filled_1.len() ==> (#[trigger] m[i]->Filled_1[j]) < m.len()
}

/// The numbers `from..to`
pub open spec fn number_range(from: usize, to: usize) -> Seq<usize> {
    Seq::new(if to >= from { (to - from) as nat } else { 0 }, |k: int| (from + k) as usize)
}

/// The slots after an image is synced across all of them: the first holds it, referred to
/// by all others, which point to it
pub open spec fn synced_everywhere<B>(m: Seq<SlotView<B>>, image: B) -> Seq<SlotView<B>> {
    Seq::new(m.len(), |k: int|
        if k == 0 {
            SlotView::Filled(image, if m.len() < 2 { Seq::empty() } else { number_range(1, m.len() as usize) })
        } else {
            SlotView::FoundAt(0)
        })
}

/// The smallest element of a non-empty sequence
pub open spec fn seq_min(s: Seq<usize>) -> usize
    decreases s.len(),
{
    if s.len() <= 1 {
        s[0]
    } else {
        let m = seq_min(s.drop_last());
        if s.last() < m { s.last() } else { m }
    }
}

/// The length the slots need to hold every target, at least `len`
pub open spec fn length_for(s: Seq<usize>, len: int) -> int
    decreases s.len(),
{
    if s.len() == 0 {
        len
    } else {
        let m = length_for(s.drop_last(), len);
        if s.last() + 1 > m { s.last() + 1 } else { m }
    }
}

/// The elements of `s` other than `x`, in order
pub open spec fn without(s: Seq<usize>, x: usize) -> Seq<usize>
    decreases s.len(),
{
    if s.len() == 0 {
        Seq::empty()
    } else if s.last() == x {
        without(s.drop_last(), x)
    } else {
        without(s.drop_last(), x).push(s.last())
    }
}

/// The slots after an image is cloned across the target slots: the smallest target holds
/// it, referred to by the other targets, which point to it; the slots grow to hold every target
pub open spec fn cloned_across<B>(m: Seq<SlotView<B>>, targets: Seq<usize>, image: B) -> Seq<SlotView<B>> {
    if targets.len() == 0 {
        m
    } else {
        let first = seq_min(targets);
        Seq::new(length_for(targets, m.len() as int) as nat, |k: int|
            if k == first {
                SlotView::Filled(image, without(targets, first))
            } else if targets.contains(k as usize) {
                SlotView::FoundAt(first)
            } else if k < m.len() {
                m[k]
            } else {
                SlotView::Empty
            })
    }
}

/// Slot `j` is the first slot other than `id` holding an image that `same` finds equal to
/// `buffer`: it holds one, `same` said yes for it and no for every earlier one
pub open spec fn equal_found<B, E: Fn(&B, &B) -> bool>(s0: Seq<SlotView<B>>, id: int, buffer: B, same: &E, j: int) -> bool {
    &&& 0 <= j < s0.len()
    &&& j != id
    &&& s0[j] is Filled
    &&& same.ensures((&s0[j]->Filled_0, &buffer), true)
    &&& forall|q: int| 0 <= q < j && q != id && (#[trigger] s0[q]) is Filled ==> same.ensures((&s0[q]->Filled_0, &buffer), false)
}

/// `same` found no image in a slot other than `id` equal to `buffer`
pub open spec fn none_equal<B, E: Fn(&B, &B) -> bool>(s0: Seq<SlotView<B>>, id: int, buffer: B, same: &E) -> bool {
    forall|q: int| 0 <= q < s0.len() && q != id && (#[trigger] s0[q]) is Filled ==> same.ensures((&s0[q]->Filled_0, &buffer), false)
}

/// The slots after an image is put in slot `id` and slot `j` is found to hold the same
/// allocation: `id` points to `j`, which records the reference
pub open spec fn shared_with<B>(m: Seq<SlotView<B>>, id: int, j: int) -> Seq<SlotView<B>> {
    let s1 = m.update(id, SlotView::FoundAt(j as usize));
    if s1[j] is Filled {
        s1.update(j, SlotView::Filled(s1[j]->Filled_0, s1[j]->Filled_1.push(id as usize)))
    } else {
        s1
    }
}

proof fn lemma_seq_min<B>(s: Seq<usize>)
    requires
        s.len() > 0,
    ensures
        s.contains(seq_min(s)),
        forall|i: int| 0 <= i < s.len() ==> seq_min(s) <= #[trigger] s[i],
    decreases s.len(),
{
    if s.len() > 1 {
        lemma_seq_min::<B>(s.drop_last());
        let m = seq_min(s.drop_last());
        let k = choose|k: int| 0 <= k < s.drop_last().len() && s.drop_last()[k] == m;
        assert(s[k] == m);
        assert forall|i: int| 0 <= i < s.len() implies seq_min(s) <= #[trigger] s[i] by {
            if i < s.len() - 1 {
                assert(s.drop_last()[i] == s[i]);
            }
        }
        if s.last() < m {
            assert(s[s.len() - 1] == s.last());
        }
    } else {
        assert(s[0] == seq_min(s));
    }
}

/// Find the image a slot resolves to, following references
fn resolve_buffer_state<B>(current: &Vec<BufferState<B>>, id: usize) -> (r: Option<Arc<B>>)
    requires
        resolves(slots_view(current@), id as int),
    ensures
        match r {
            Some(a) => resolved(slots_view(current@), id as int) == Some(*a),
            None => resolved(slots_view(current@), id as int) is None,
        },
{
    let ghost v = slots_view(current@);
    let mut cur: usize = id;
    let mut fuel: usize = current.len();
    while fuel > 0 || cur < current.len()
        invariant
            v == slots_view(current@),
            fuel <= v.len(),
            resolve_within(v, cur as int, fuel as nat) == resolve_within(v, id as int, v.len()),
            resolve_within(v, cur as int, fuel as nat) is Some,
        decreases fuel,
    {
        if cur >= current.len() {
            return None;
        }
        assert(v[cur as int] == current@[cur as int].slot());
        match &current[cur] {
            BufferState::Empty => {
                return None;
            },
            BufferState::Filled { image, .. } => {
                return Some(image.clone());
            },
            BufferState::FoundAt(next) => {
                cur = *next;
                fuel = fuel - 1;
            },
        }
    }
    None
}

/// Hand the image of slot `idx` to the first slot that refers to it (see `after_handover`)
fn replace_referenced<B>(module: &mut Vec<BufferState<B>>, idx: usize)
    requires
        idx < old(module)@.len(),
        references_inside(slots_view(old(module)@), idx as int),
    ensures
        slots_view(final(module)@) == after_handover(slots_view(old(module)@), idx as int),
        final(module)@.len() == old(module)@.len(),
{
    let ghost m = slots_view(module@);
    let st = module.remove(idx);
    module.insert(idx, BufferState::Empty);
    assert(m[idx as int] == st.slot());
    match st {
        BufferState::Filled { image, referenced_by } => {
            if referenced_by.len() == 0 {
                module.set(idx, BufferState::Filled { image, referenced_by });
                proof {
                    assert(slots_view(module@) =~= m);
                }
                return;
            }
            let mut refs = referenced_by;
            let ghost all = refs@;
            assert(m[idx as int]->Filled_1 == all);
            assert(forall|j: int| 0 <= j < all.len() ==> (#[trigger] all[j]) < m.len());
            let first = refs.remove(0);
            assert(all[0] == first);
            assert(refs@ =~= all.subrange(1, all.len() as int));
            let mut k: usize = 0;
            while k < refs.len()
                invariant
                    all.len() > 0,
                    refs@ == all.subrange(1, all.len() as int),
                    forall|j: int| 0 <= j < all.len() ==> (#[trigger] all[j]) < m.len(),
                    k <= refs@.len(),
                    module@.len() == m.len(),
                    idx < m.len(),
                    forall|q: usize| q < m.len() ==> #[trigger] slots_view(module@)[q as int] == if refs@.subrange(0, k as int).contains(q) {
                        SlotView::<B>::FoundAt(first)
                    } else if q == idx {
                        SlotView::Empty
                    } else {
                        m[q as int]
                    },
                decreases refs.len() - k,
            {
                let target = refs[k];
                assert(refs@[k as int] == all[k + 1]);
                let ghost before = slots_view(module@);
                let ghost s_old = refs@.subrange(0, k as int);
                let ghost s_new = refs@.subrange(0, k + 1);
                module.set(target, BufferState::FoundAt(first));
                proof {
                    assert(s_new =~= s_old.push(target));
                    assert forall|q: usize| q < m.len() implies #[trigger] slots_view(module@)[q as int] == if s_new.contains(q) {
                        SlotView::<B>::FoundAt(first)
                    } else if q == idx {
                        SlotView::Empty
                    } else {
                        m[q as int]
                    } by {
                        if q == target {
                            assert(s_new[k as int] == target);
                        } else {
                            assert(slots_view(module@)[q as int] == before[q as int]);
                            if s_new.contains(q) {
                                let w = choose|w: int| 0 <= w < s_new.len() && #[trigger] s_new[w] == q;
                                assert(w != k);
                                assert(s_old[w] == q);
                            }
                            if s_old.contains(q) {
                                let w = choose|w: int| 0 <= w < s_old.len() && #[trigger] s_old[w] == q;
                                assert(s_new[w] == q);
                            }
                        }
                    }
                }
                k = k + 1;
            }
            assert(first < m.len());
            let ghost rest = refs@;
            assert(rest.subrange(0, rest.len() as int) =~= rest);
            let ghost mid = slots_view(module@);
            let mlen = module.len();
            module.set(first, BufferState::Filled { image, referenced_by: refs });
            proof {
                let h = after_handover(m, idx as int);
                assert forall|q: int| 0 <= q < m.len() implies #[trigger] slots_view(module@)[q] == h[q] by {
                    let qu = q as usize;
                    assert(qu as int == q);
                    assert(mid[qu as int] == if rest.contains(qu) {
                        SlotView::<B>::FoundAt(first)
                    } else if qu == idx {
                        SlotView::Empty
                    } else {
                        m[qu as int]
                    });
                }
                assert(slots_view(module@) =~= h);
            }
        },
        other => {
            module.set(idx, other);
            proof {
                assert(slots_view(module@) =~= m);
            }
        },
    }
}


/// The numbers `from..to` as a vector
fn range_vec(from: usize, to: usize) -> (r: Vec<usize>)
    ensures
        r@ == number_range(from, to),
{
    let mut r: Vec<usize> = Vec::new();
    if to < from {
        assert(r@ =~= number_range(from, to));
        return r;
    }
    let mut k: usize = from;
    while k < to
        invariant
            from <= k <= to,
            r@ =~= Seq::new((k - from) as nat, |i: int| (from + i) as usize),
        decreases to - k,
    {
        r.push(k);
        k = k + 1;
    }
    assert(r@ =~= number_range(from, to));
    r
}

/// The elements of `v` other than `x`, in order
fn without_vec(v: &Vec<usize>, x: usize) -> (r: Vec<usize>)
    ensures
        r@ == without(v@, x),
{
    let mut r: Vec<usize> = Vec::new();
    let mut i: usize = 0;
    while i < v.len()
        invariant
            i <= v@.len(),
            r@ == without(v@.subrange(0, i as int), x),
        decreases v.len() - i,
    {
        assert(v@.subrange(0, i + 1).drop_last() =~= v@.subrange(0, i as int));
        if v[i] != x {
            r.push(v[i]);
        }
        i = i + 1;
    }
    assert(v@.subrange(0, v@.len() as int) =~= v@);
    r
}

/// The smallest element of a non-empty vector
fn min_of(v: &Vec<usize>) -> (r: usize)
    requires
        v@.len() > 0,
    ensures
        r == seq_min(v@),
{
    let mut m = v[0];
    let mut i: usize = 1;
    assert(v@.subrange(0, 1).len() == 1);
    while i < v.len()
        invariant
            1 <= i <= v@.len(),
            m == seq_min(v@.subrange(0, i as int)),
        decreases v.len() - i,
    {
        assert(v@.subrange(0, i + 1).drop_last() =~= v@.subrange(0, i as int));
        if v[i] < m {
            m = v[i];
        }
        i = i + 1;
    }
    assert(v@.subrange(0, v@.len() as int) =~= v@);
    m
}

/// The image cache
impl<M, B> ModuleRegistry<M, B> {
    /// Remove all cached images; every module keeps an (empty) place
    pub fn reset_cache(&mut self)
        ensures
            final(self).cache() == Seq::new(old(self).cache().len(), |_i: int| Seq::<SlotView<B>>::empty()),
            final(self).modules == old(self).modules,
            final(self).index == old(self).index,
            final(self).next_container_id == old(self).next_container_id,
    {
        let length = self.image_cache.len();
        let mut final_list: Vec<Vec<BufferState<B>>> = Vec::new();
        let mut i: usize = 0;
        while i < length
            invariant
                i <= length,
                cache_view(final_list@) =~= Seq::new(i as nat, |_i: int| Seq::<SlotView<B>>::empty()),
            decreases length - i,
        {
            let fresh: Vec<BufferState<B>> = Vec::new();
            assert(slots_view(fresh@) =~= Seq::<SlotView<B>>::empty());
            let ghost prev = cache_view(final_list@);
            final_list.push(fresh);
            assert(cache_view(final_list@) =~= prev.push(Seq::<SlotView<B>>::empty()));
            i = i + 1;
        }
        self.image_cache = final_list;
    }

    /// Ensure a module's cache is properly initialized with the given capacity
    pub fn ensure_module_cache_capacity(&mut self, module_idx: usize, capacity: usize) -> (r: Option<()>)
        requires
            module_idx < usize::MAX,
        ensures
            r is Some,
            ({
                let c = padded_modules(old(self).cache(), module_idx + 1);
                final(self).cache() == c.update(module_idx as int, padded_slots(c[module_idx as int], capacity as int))
            }),
            final(self).modules == old(self).modules,
            final(self).index == old(self).index,
            final(self).next_container_id == old(self).next_container_id,
    {
        pad_cache(&mut self.image_cache, module_idx + 1);
        let ghost c = self.cache();
        assert(c.len() == self.image_cache@.len());
        let mut slots = self.image_cache.remove(module_idx);
        pad_slots(&mut slots, capacity);
        self.image_cache.insert(module_idx, slots);
        proof {
            assert(self.cache() =~= c.update(module_idx as int, padded_slots(c[module_idx as int], capacity as int)));
        }
        Some(())
    }

    /// Get the cached image for the given module and container
    pub fn get_image_cache(&self, module_idx: usize, buffer_id: usize) -> (r: Option<Arc<B>>)
        requires
            module_idx < self.cache().len() ==> resolves(self.cache()[module_idx as int], buffer_id as int),
        ensures
            module_idx >= self.cache().len() ==> r is None,
            module_idx < self.cache().len() ==> match r {
                Some(a) => resolved(self.cache()[module_idx as int], buffer_id as int) == Some(*a),
                None => resolved(self.cache()[module_idx as int], buffer_id as int) is None,
            },
    {
        if module_idx >= self.image_cache.len() {
            return None;
        }
        resolve_buffer_state(&self.image_cache[module_idx], buffer_id)
    }

    /// Replace the cached image of container `id` of module `idx`, as the insertion mode says.
    /// When searching the same module, `same_image` tells if a stored image equals the new
    /// one; the first such image (in another slot) is shared instead of storing the new one.
    #[verifier::rlimit(40)]
    #[verifier::spinoff_prover]
    pub fn insert_into_image_cache<E: Fn(&B, &B) -> bool>(
        &mut self,
        idx: usize,
        id: usize,
        buffer: B,
        insertion_mode: InsertionMode,
        same_image: &E,
    ) -> (r: Option<()>)
        requires
            forall|a: &B, b: &B| #[trigger] same_image.requires((a, b)),
            idx < usize::MAX,
            id < usize::MAX,
            insertion_mode is Simple ==> references_inside(
                padded_slots(padded_modules(old(self).cache(), idx + 1)[idx as int], id + 1),
                id as int,
            ),
            insertion_mode is CloneAcrossIds ==> forall|j: int| 0 <= j < insertion_mode->CloneAcrossIds_0@.len()
                ==> (#[trigger] insertion_mode->CloneAcrossIds_0@[j]) < usize::MAX,
        ensures
            r is Some,
            final(self).modules == old(self).modules,
            final(self).index == old(self).index,
            final(self).next_container_id == old(self).next_container_id,
            ({
                let c = padded_modules(old(self).cache(), idx + 1);
                let s0 = padded_slots(c[idx as int], id + 1);
                match insertion_mode {
                    InsertionMode::Simple => final(self).cache() == c.update(idx as int,
                        after_handover(s0, id as int).update(id as int, SlotView::Filled(buffer, Seq::empty()))),
                    InsertionMode::SearchInSameModule => {
                        ||| exists|j: int| #[trigger] equal_found(s0, id as int, buffer, same_image, j)
                            && final(self).cache() == c.update(idx as int, shared_with(s0, id as int, j))
                        ||| none_equal(s0, id as int, buffer, same_image)
                            && final(self).cache() == c.update(idx as int, s0.update(id as int, SlotView::Filled(buffer, Seq::empty())))
                    },
                    InsertionMode::ReplaceAll => final(self).cache() == c.update(idx as int, synced_everywhere(s0, buffer)),
                    InsertionMode::CloneAcrossIds(targets) => final(self).cache() == c.update(idx as int, cloned_across(s0, targets@, buffer)),
                }
            }),
    {
        pad_cache(&mut self.image_cache, idx + 1);
        let ghost c = self.cache();
        assert(c.len() == self.image_cache@.len());
        let mut slots = self.image_cache.remove(idx);
        pad_slots(&mut slots, id + 1);
        let ghost s0 = slots_view(slots@);
        match insertion_mode {
            InsertionMode::Simple => {
                replace_referenced(&mut slots, id);
                slots.set(id, BufferState::Filled { image: Arc::new(buffer), referenced_by: Vec::new() });
                proof {
                    assert(slots_view(slots@) =~= after_handover(s0, id as int).update(id as int, SlotView::Filled(buffer, Seq::empty())));
                }
            },
            InsertionMode::SearchInSameModule => {
                let mut found: Option<usize> = None;
                let mut k: usize = 0;
                while k < slots.len()
                    invariant
                        forall|a: &B, b: &B| #[trigger] same_image.requires((a, b)),
                        slots_view(slots@) == s0,
                        k <= slots@.len(),
                        id < s0.len(),
                        forall|q: int| 0 <= q < k && q != id && (#[trigger] s0[q]) is Filled
                            ==> same_image.ensures((&s0[q]->Filled_0, &buffer), false),
                        match found {
                            Some(j) => equal_found(s0, id as int, buffer, same_image, j as int),
                            None => true,
                        },
                    ensures
                        match found {
                            Some(j) => equal_found(s0, id as int, buffer, same_image, j as int),
                            None => none_equal(s0, id as int, buffer, same_image),
                        },
                    decreases slots.len() - k,
                {
                    assert(s0[k as int] == slots@[k as int].slot());
                    let hit = match &slots[k] {
                        BufferState::Filled { image, .. } => {
                            if k != id {
                                let same = same_image(&**image, &buffer);
                                assert(same_image.ensures((&s0[k as int]->Filled_0, &buffer), same));
                                same
                            } else {
                                false
                            }
                        },
                        _ => false,
                    };
                    if hit {
                        found = Some(k);
                        break;
                    }
                    k = k + 1;
                }
                let buffer_rc = Arc::new(buffer);
                match found {
                    Some(j) => {
                        slots.set(id, BufferState::FoundAt(j));
                        let ghost s1 = slots_view(slots@);
                        assert(s1 =~= s0.update(id as int, SlotView::FoundAt(j)));
                        let st = slots.remove(j);
                        assert(s1[j as int] == st.slot());
                        match st {
                            BufferState::Filled { image, referenced_by } => {
                                let mut refs = referenced_by;
                                refs.push(id);
                                slots.insert(j, BufferState::Filled { image, referenced_by: refs });
                            },
                            other => {
                                slots.insert(j, other);
                            },
                        }
                        proof {
                            assert(slots_view(slots@) =~= shared_with(s0, id as int, j as int));
                        }
                    },
                    None => {
                        slots.set(id, BufferState::Filled { image: buffer_rc, referenced_by: Vec::new() });
                        proof {
                            assert(slots_view(slots@) =~= s0.update(id as int, SlotView::Filled(buffer, Seq::empty())));
                        }
                    },
                }
            },
            InsertionMode::ReplaceAll => {
                let cache_length = slots.len();
                let references = if cache_length < 2 { Vec::new() } else { range_vec(1, cache_length) };
                proof {
                    if cache_length < 2 {
                        assert(references@ =~= Seq::<usize>::empty());
                    }
                }
                let ghost pre = slots_view(slots@);
                slots.set(0, BufferState::Filled { image: Arc::new(buffer), referenced_by: references });
                assert(slots_view(slots@) =~= pre.update(0, synced_everywhere(s0, buffer)[0]));
                let mut k: usize = 1;
                while k < cache_length
                    invariant
                        1 <= k,
                        slots@.len() == cache_length,
                        cache_length == s0.len(),
                        forall|q: int| 0 <= q < cache_length ==> #[trigger] slots_view(slots@)[q] == if q == 0 {
                            synced_everywhere(s0, buffer)[0]
                        } else if q < k {
                            SlotView::FoundAt(0)
                        } else {
                            s0[q]
                        },
                    decreases cache_length - k,
                {
                    let ghost prev = slots_view(slots@);
                    slots.set(k, BufferState::FoundAt(0));
                    assert(slots_view(slots@) =~= prev.update(k as int, SlotView::FoundAt(0)));
                    k = k + 1;
                }
                proof {
                    assert(slots_view(slots@) =~= synced_everywhere(s0, buffer));
                }
            },
            InsertionMode::CloneAcrossIds(targets) => {
                if targets.len() > 0 {
                    let first_id = min_of(&targets);
                    proof {
                        lemma_seq_min::<B>(targets@);
                    }
                    pad_slots(&mut slots, first_id + 1);
                    let buffer_rc = Arc::new(buffer);
                    let refs = without_vec(&targets, first_id);
                    let ghost padded = slots_view(slots@);
                    slots.set(first_id, BufferState::Filled { image: buffer_rc, referenced_by: refs });
                    let ghost sfirst = slots_view(slots@);
                    assert(sfirst =~= padded.update(first_id as int, SlotView::Filled(buffer, without(targets@, first_id))));
                    assert(targets@.subrange(0, 0) =~= Seq::<usize>::empty());
                    let mut t: usize = 0;
                    while t < targets.len()
                        invariant
                            forall|j: int| 0 <= j < targets@.len() ==> (#[trigger] targets@[j]) < usize::MAX,
                            targets@.len() > 0,
                            first_id == seq_min(targets@),
                            first_id < slots@.len(),
                            t <= targets@.len(),
                            slots@.len() == length_for(targets@.subrange(0, t as int), sfirst.len() as int),
                            sfirst.len() >= s0.len(),
                            sfirst.len() >= first_id + 1,
                            forall|q: int| 0 <= q < slots@.len() ==> #[trigger] slots_view(slots@)[q] == if q == first_id {
                                SlotView::Filled(buffer, without(targets@, first_id))
                            } else if targets@.subrange(0, t as int).contains(q as usize) {
                                SlotView::FoundAt(first_id)
                            } else if q < s0.len() {
                                s0[q]
                            } else {
                                SlotView::Empty
                            },
                        decreases targets.len() - t,
                    {
                        let target_id = targets[t];
                        let ghost sub_old = targets@.subrange(0, t as int);
                        let ghost sub_new = targets@.subrange(0, t + 1);
                        assert(sub_new.drop_last() =~= sub_old);
                        assert(sub_new.last() == target_id);
                        let ghost before = slots_view(slots@);
                        if target_id != first_id {
                            pad_slots(&mut slots, target_id + 1);
                            let ghost padded2 = slots_view(slots@);
                            slots.set(target_id, BufferState::FoundAt(first_id));
                            assert(slots_view(slots@) =~= padded2.update(target_id as int, SlotView::FoundAt(first_id)));
                        }
                        let slen = slots.len();
                        proof {
                            assert forall|q: int| 0 <= q < slots@.len() implies #[trigger] slots_view(slots@)[q] == if q == first_id {
                                SlotView::Filled(buffer, without(targets@, first_id))
                            } else if sub_new.contains(q as usize) {
                                SlotView::FoundAt(first_id)
                            } else if q < s0.len() {
                                s0[q]
                            } else {
                                SlotView::Empty
                            } by {
                                let qu = q as usize;
                                assert(qu as int == q);
                                lemma_length_for(sub_old, sfirst.len() as int);
                                if q >= before.len() && sub_old.contains(qu) {
                                    let w = choose|w: int| 0 <= w < sub_old.len() && #[trigger] sub_old[w] == qu;
                                    assert(before.len() > sub_old[w]);
                                }
                                if q < before.len() {
                                    assert(before[q] == if q == first_id {
                                        SlotView::Filled(buffer, without(targets@, first_id))
                                    } else if sub_old.contains(qu) {
                                        SlotView::FoundAt(first_id)
                                    } else if q < s0.len() {
                                        s0[q]
                                    } else {
                                        SlotView::Empty
                                    });
                                }
                                if sub_new.contains(q as usize) && q as usize != target_id {
                                    let w = choose|w: int| 0 <= w < sub_new.len() && #[trigger] sub_new[w] == q as usize;
                                    assert(sub_old[w] == q as usize);
                                }
                                if sub_old.contains(q as usize) {
                                    let w = choose|w: int| 0 <= w < sub_old.len() && #[trigger] sub_old[w] == q as usize;
                                    assert(sub_new[w] == q as usize);
                                }
                                if q as usize == target_id {
                                    assert(sub_new[t as int] == target_id);
                                }
                            }
                        }
                        t = t + 1;
                    }
                    proof {
                        assert(targets@.subrange(0, targets@.len() as int) =~= targets@);
                        lemma_length_for(targets@, s0.len() as int);
                        lemma_length_for(targets@, sfirst.len() as int);
                        lemma_length_for(targets@, 0);
                        let fi = choose|fi: int| 0 <= fi < targets@.len() && targets@[fi] == first_id;
                        assert(length_for(targets@, 0) > targets@[fi]);
                        assert(slots_view(slots@) =~= cloned_across(s0, targets@, buffer));
                    }
                }
            },
        }
        self.image_cache.insert(idx, slots);
        proof {
            let fin = self.cache();
            assert(fin =~= c.update(idx as int, fin[idx as int]));
        }
        Some(())
    }
}


/// The length that holds every target is the larger of `len` and one past the largest target
proof fn lemma_length_for(s: Seq<usize>, len: int)
    requires
        len >= 0,
    ensures
        length_for(s, len) == if len >= length_for(s, 0) { len } else { length_for(s, 0) },
        length_for(s, 0) >= 0,
        forall|i: int| 0 <= i < s.len() ==> length_for(s, len) > #[trigger] s[i],
    decreases s.len(),
{
    if s.len() > 0 {
        lemma_length_for(s.drop_last(), len);
        lemma_length_for(s.drop_last(), 0);
        assert forall|i: int| 0 <= i < s.len() implies length_for(s, len) > #[trigger] s[i] by {
            if i < s.len() - 1 {
                assert(s.drop_last()[i] == s[i]);
            }
        }
    }
}


/// After an image is synced across all slots of a module, every slot shows it.
pub proof fn lemma_synced_slots_show_image<B>(s0: Seq<SlotView<B>>, image: B, k: int)
    requires
        0 <= k < s0.len(),
    ensures
        resolved(synced_everywhere(s0, image), k) == Some(image),
{
    let v = synced_everywhere(s0, image);
    reveal_with_fuel(resolve_within, 2);
    if k > 0 {
        assert(v[k] == SlotView::<B>::FoundAt(0));
        assert(resolve_within(v, 0, (v.len() - 1) as nat) == Some(Some(image)));
    }
}

/// After an image is cloned across target slots, every target shows it.
pub proof fn lemma_cloned_targets_show_image<B>(s0: Seq<SlotView<B>>, targets: Seq<usize>, image: B, j: int)
    requires
        0 <= j < targets.len(),
    ensures
        resolved(cloned_across(s0, targets, image), targets[j] as int) == Some(image),
{
    let v = cloned_across(s0, targets, image);
    let first = seq_min(targets);
    lemma_seq_min::<B>(targets);
    lemma_length_for(targets, s0.len() as int);
    assert(v.len() > targets[j]);
    let fi = choose|fi: int| 0 <= fi < targets.len() && targets[fi] == first;
    assert(v.len() > targets[fi]);
    reveal_with_fuel(resolve_within, 2);
    if targets[j] != first {
        assert(targets.contains(targets[j]));
        assert(v[targets[j] as int] == SlotView::<B>::FoundAt(first));
        assert(resolve_within(v, first as int, (v.len() - 1) as nat) == Some(Some(image)));
    }
}

/// After a plain insertion, the slot shows the inserted image.
pub proof fn lemma_inserted_slot_shows_image<B>(s0: Seq<SlotView<B>>, id: int, image: B)
    requires
        0 <= id < s0.len(),
    ensures
        resolved(after_handover(s0, id).update(id, SlotView::Filled(image, Seq::empty())), id) == Some(image),
{
}

/// The counter after handing out one container id (it wraps around at the maximum)
pub open spec fn next_id(c: usize) -> usize {
    if c == usize::MAX { 0 } else { (c + 1) as usize }
}

/// The id the `n`-th call (counting from 0) of `get_available_id` on a new registry hands out
pub open spec fn nth_id(n: nat) -> usize
    decreases n,
{
    if n == 0 { 1 } else { next_id(nth_id((n - 1) as nat)) }
}

/// Ids handed out by a new registry, before the counter wraps, are at least 1 and grow with
/// every call: the `n`-th call hands out `n + 1`, so no id is handed out twice.
pub proof fn lemma_ids_increase(i: nat, j: nat)
    requires
        i < j,
        j < usize::MAX,
    ensures
        nth_id(i) >= 1,
        nth_id(i) < nth_id(j),
        nth_id(j) == j + 1,
{
    lemma_nth_id(i);
    lemma_nth_id(j);
}

/// Before the counter wraps, the `n`-th id is `n + 1`
proof fn lemma_nth_id(n: nat)
    requires
        n < usize::MAX,
    ensures
        nth_id(n) == n + 1,
    decreases n,
{
    if n > 0 {
        lemma_nth_id((n - 1) as nat);
    }
}

/// A plain insertion over a shared image keeps that image for every slot that referred to
/// it: the first referrer takes the image over and the others point to it.
pub proof fn lemma_simple_insert_keeps_referrers<B>(s0: Seq<SlotView<B>>, id: int, image: B, j: int)
    requires
        0 <= id < s0.len(),
        s0[id] is Filled,
        0 <= j < s0[id]->Filled_1.len(),
        forall|k: int| 0 <= k < s0[id]->Filled_1.len() ==> (#[trigger] s0[id]->Filled_1[k]) < s0.len() && s0[id]->Filled_1[k] != id,
    ensures
        resolved(after_handover(s0, id).update(id, SlotView::Filled(image, Seq::empty())), s0[id]->Filled_1[j] as int)
            == Some(s0[id]->Filled_0),
{
    let refs = s0[id]->Filled_1;
    let s1 = after_handover(s0, id).update(id, SlotView::Filled(image, Seq::empty()));
    let first = refs[0] as int;
    let r = refs[j] as int;
    assert(refs[0] < s0.len() && refs[0] != id);
    assert(s1[first] == SlotView::Filled(s0[id]->Filled_0, refs.subrange(1, refs.len() as int)));
    if r != first {
        assert(refs.subrange(1, refs.len() as int)[j - 1] == refs[j]);
        assert(refs.subrange(1, refs.len() as int).contains(r as usize));
        assert(s1[r] == SlotView::<B>::FoundAt(first as usize));
        assert(s1.len() >= 2);
        reveal_with_fuel(resolve_within, 3);
        assert(resolve_within(s1, first, (s1.len() - 1) as nat) == Some(Some(s0[id]->Filled_0)));
    }
}

/// Registering a module under an id that is not registered and removing it again gives
/// back the same modules and the same positions for every id.
pub proof fn lemma_register_then_remove<M, B, T>(
    r0: ModuleRegistry<M, B>,
    r1: ModuleRegistry<M, B>,
    r2: ModuleRegistry<M, B>,
    path: ModulePath<T>,
    module: M,
)
    requires
        r0.wf(),
        r0.modules@.len() < usize::MAX,
        r0.position(path.id) is None,
        r1.modules@ == r0.modules@.push(module),
        r1.position(path.id) == Some(r0.modules@.len() as usize),
        forall|k: u32| k != path.id ==> #[trigger] r1.position(k) == r0.position(k),
        r1.wf(),
        r2.modules@ == r1.modules@.remove(r1.position(path.id)->0 as int),
        r2.position(path.id) is None,
        forall|k: u32| k != path.id ==> #[trigger] r2.position(k) == match r1.position(k) {
            Some(q) => Some(shifted(q, r1.position(path.id)->0)),
            None => None,
        },
    ensures
        r2.modules@ == r0.modules@,
        forall|k: u32| #[trigger] r2.position(k) == r0.position(k),
{
    assert(r2.modules@ =~= r0.modules@);
    assert forall|k: u32| #[trigger] r2.position(k) == r0.position(k) by {
        if k != path.id {
            match r0.position(k) {
                Some(q) => {
                    lemma_lookup_absent(r0.index@, k);
                    let a = choose|a: int| 0 <= a < r0.index@.len() && (#[trigger] r0.index@[a]).0 == k;
                    lemma_lookup_entry(r0.index@, a);
                    assert(q < r0.modules@.len());
                },
                None => {},
            }
        }
    }
}

/// `r1` is `r0` with module `m` registered under `id` (see `register_module`)
pub open spec fn registered<M, B>(r0: ModuleRegistry<M, B>, r1: ModuleRegistry<M, B>, id: u32, m: M) -> bool {
    &&& r1.modules@ == r0.modules@.push(m)
    &&& r1.position(id) == Some(r0.modules@.len() as usize)
    &&& forall|k: u32| k != id ==> #[trigger] r1.position(k) == r0.position(k)
}

/// `r1` is `r0` after removing the module of `id`, `found` telling if it was registered
/// (see `remove_module`)
pub open spec fn removed<M, B>(r0: ModuleRegistry<M, B>, r1: ModuleRegistry<M, B>, id: u32, found: bool) -> bool {
    &&& found == r0.position(id) is Some
    &&& !found ==> r1.modules == r0.modules && forall|k: u32| #[trigger] r1.position(k) == r0.position(k)
    &&& found ==> {
        let p = r0.position(id)->0;
        &&& r1.modules@ == r0.modules@.remove(p as int)
        &&& r1.position(id) is None
        &&& forall|k: u32| k != id ==> #[trigger] r1.position(k) == match r0.position(k) {
            Some(q) => Some(shifted(q, p)),
            None => None,
        }
    }
}

/// The id `id` is found at a position that holds module `m`
pub open spec fn holds_module<M, B>(r: ModuleRegistry<M, B>, id: u32, m: M) -> bool {
    &&& r.position(id) is Some
    &&& r.position(id)->0 < r.modules@.len()
    &&& r.modules@[r.position(id)->0 as int] == m
}

/// `r1` follows `r0` by registering or removing a module under an id other than `id`
pub open spec fn step_leaving<M, B>(r0: ModuleRegistry<M, B>, r1: ModuleRegistry<M, B>, id: u32) -> bool {
    ||| exists|k: u32, m: M| k != id && #[trigger] registered(r0, r1, k, m)
    ||| exists|k: u32, found: bool| k != id && #[trigger] removed(r0, r1, k, found)
}

/// Two ids found in a well-formed registry sit at different positions
proof fn lemma_positions_differ<M, B>(r: ModuleRegistry<M, B>, a: u32, b: u32)
    requires
        r.wf(),
        a != b,
        r.position(a) is Some,
        r.position(b) is Some,
    ensures
        r.position(a) != r.position(b),
        r.position(a)->0 < r.modules@.len(),
{
    lemma_lookup_absent(r.index@, a);
    lemma_lookup_absent(r.index@, b);
    let i = choose|i: int| 0 <= i < r.index@.len() && (#[trigger] r.index@[i]).0 == a;
    let j = choose|j: int| 0 <= j < r.index@.len() && (#[trigger] r.index@[j]).0 == b;
    lemma_lookup_entry(r.index@, i);
    lemma_lookup_entry(r.index@, j);
    assert(i != j);
    if i < j {
        assert(r.index@[i].1 != r.index@[j].1);
    } else {
        assert(r.index@[j].1 != r.index@[i].1);
    }
}

/// A module registered under an id is found under it, at a position holding that module,
/// after any run of registrations and removals of other ids (the registries `rs` are the
/// states after each call, each well-formed; `rs[0]` is the state right after the
/// registration, made on a registry with fewer than `usize::MAX` modules). So
/// `get_idx_of_id` keeps giving a position that holds it.
pub proof fn lemma_registered_module_stays_found<M, B>(
    r0: ModuleRegistry<M, B>,
    rs: Seq<ModuleRegistry<M, B>>,
    id: u32,
    m: M,
)
    requires
        rs.len() >= 1,
        r0.modules@.len() < usize::MAX,
        registered(r0, rs[0], id, m),
        forall|i: int| 0 <= i < rs.len() ==> (#[trigger] rs[i]).wf(),
        forall|i: int| 0 < i < rs.len() ==> #[trigger] step_leaving(rs[i - 1], rs[i], id),
    ensures
        holds_module(rs.last(), id, m),
    decreases rs.len(),
{
    if rs.len() == 1 {
        assert(rs[0].modules@.len() == r0.modules@.len() + 1);
        assert(rs[0].modules@[r0.modules@.len() as int] == m);
    } else {
        let prev = rs.drop_last();
        assert forall|i: int| 0 <= i < prev.len() implies (#[trigger] prev[i]).wf() by {
            assert(prev[i] == rs[i]);
        }
        assert forall|i: int| 0 < i < prev.len() implies #[trigger] step_leaving(prev[i - 1], prev[i], id) by {
            assert(prev[i] == rs[i] && prev[i - 1] == rs[i - 1]);
            assert(step_leaving(rs[i - 1], rs[i], id));
        }
        lemma_registered_module_stays_found(r0, prev, id, m);
        let a = rs[rs.len() - 2];
        let b = rs.last();
        assert(prev.last() == a);
        assert(step_leaving(a, b, id));
        let pa = a.position(id)->0;
        if exists|k: u32, mm: M| k != id && #[trigger] registered(a, b, k, mm) {
            let (k, mm) = choose|k: u32, mm: M| k != id && #[trigger] registered(a, b, k, mm);
            assert(b.position(id) == a.position(id));
            assert(b.modules@[pa as int] == a.modules@[pa as int]);
        } else {
            let (k, found) = choose|k: u32, found: bool| k != id && #[trigger] removed(a, b, k, found);
            if found {
                let p = a.position(k)->0;
                lemma_positions_differ(a, id, k);
                lemma_positions_differ(a, k, id);
                assert(b.position(id) == Some(shifted(pa, p)));
                assert(pa != p);
                assert(holds_module(a, id, m));
                assert(b.modules@ == a.modules@.remove(p as int));
                if pa > p {
                    assert(b.modules@[pa - 1] == a.modules@[pa as int]);
                } else {
                    assert(b.modules@[pa as int] == a.modules@[pa as int]);
                }
            } else {
                assert(b.position(id) == a.position(id));
            }
        }
    }
}


impl<M, B> ModuleRegistry<M, B> {
    /// Checks if any module needs to be redrawn; `need_redraw` asks one module
    pub fn needs_redraw<F: Fn(&M) -> bool>(&self, need_redraw: &F) -> (r: bool)
        requires
            forall|m: &M| #[trigger] need_redraw.requires((m,)),
        ensures
            r ==> exists|i: int| 0 <= i < self.modules@.len() && need_redraw.ensures((&self.modules@[i],), true),
            !r ==> forall|i: int| 0 <= i < self.modules@.len() ==> #[trigger] need_redraw.ensures((&self.modules@[i],), false),
    {
        let mut i: usize = 0;
        while i < self.modules.len()
            invariant
                i <= self.modules@.len(),
                forall|m: &M| #[trigger] need_redraw.requires((m,)),
                forall|j: int| 0 <= j < i ==> #[trigger] need_redraw.ensures((&self.modules@[j],), false),
            decreases self.modules.len() - i,
        {
            let answer = need_redraw(&self.modules[i]);
            if answer {
                return true;
            }
            i = i + 1;
        }
        false
    }
}

} // verus!
