//! One entity family's id-to-handle index: a mapping from domain-object ids
//! (strings chosen by the graph model) to the view-layer handles of their
//! visual representations. Its view is a mathematical map, and every
//! operation keeps the stored keys pairwise distinct, so a live id has
//! exactly one handle at any instant.

use crate::view::Handle;
use vstd::prelude::*;

verus! {

/// The stored keys are pairwise distinct.
spec fn distinct_keys(entries: Seq<(String, Handle)>) -> bool {
    forall|i: int, j: int|
        0 <= i < j < entries.len() ==> (#[trigger] entries[i]).0@ != (#[trigger] entries[j]).0@
}

/// The keys of an entry sequence, in storage order.
spec fn keys_of(entries: Seq<(String, Handle)>) -> Seq<Seq<char>> {
    entries.map_values(|p: (String, Handle)| p.0@)
}

/// The handles of an entry sequence, in storage order.
spec fn handles_of(entries: Seq<(String, Handle)>) -> Seq<Handle> {
    entries.map_values(|p: (String, Handle)| p.1)
}

/// The mapping an entry sequence denotes, later entries taking precedence.
spec fn map_of(entries: Seq<(String, Handle)>) -> Map<Seq<char>, Handle>
    decreases entries.len(),
{
    if entries.len() == 0 {
        Map::empty()
    } else {
        map_of(entries.drop_last()).insert(entries.last().0@, entries.last().1)
    }
}

/// A key is in the denoted mapping exactly when some entry holds it.
proof fn lemma_map_of_contains(entries: Seq<(String, Handle)>, k: Seq<char>)
    ensures
        map_of(entries).contains_key(k) <==> exists|i: int|
            0 <= i < entries.len() && (#[trigger] entries[i]).0@ == k,
    decreases entries.len(),
{
    if entries.len() > 0 {
        lemma_map_of_contains(entries.drop_last(), k);
        if entries.last().0@ == k {
            assert((entries[entries.len() - 1]).0@ == k);
        } else {
            if exists|i: int| 0 <= i < entries.len() && (#[trigger] entries[i]).0@ == k {
                let i = choose|i: int| 0 <= i < entries.len() && (#[trigger] entries[i]).0@ == k;
                assert(entries.drop_last()[i] == entries[i]);
            }
            if exists|i: int|
                0 <= i < entries.drop_last().len() && (#[trigger] entries.drop_last()[i]).0@
                    == k {
                let i = choose|i: int|
                    0 <= i < entries.drop_last().len() && (#[trigger] entries.drop_last()[i]).0@
                        == k;
                assert(entries[i] == entries.drop_last()[i]);
            }
        }
    }
}

/// With distinct keys, the entry holding a key decides its handle.
proof fn lemma_map_of_at(entries: Seq<(String, Handle)>, i: int)
    requires
        distinct_keys(entries),
        0 <= i < entries.len(),
    ensures
        map_of(entries).contains_key(entries[i].0@),
        map_of(entries)[entries[i].0@] == entries[i].1,
    decreases entries.len(),
{
    if i < entries.len() - 1 {
        assert(distinct_keys(entries.drop_last()));
        lemma_map_of_at(entries.drop_last(), i);
        assert(entries.drop_last()[i] == entries[i]);
        assert(entries.last().0@ != entries[i].0@);
    }
}

/// Removing the entry that holds a key removes exactly that key from the
/// denoted mapping.
proof fn lemma_map_of_remove(entries: Seq<(String, Handle)>, i: int)
    requires
        distinct_keys(entries),
        0 <= i < entries.len(),
    ensures
        map_of(entries.remove(i)) == map_of(entries).remove(entries[i].0@),
    decreases entries.len(),
{
    let k = entries[i].0@;
    if i == entries.len() - 1 {
        assert(entries.remove(i) =~= entries.drop_last());
        lemma_map_of_contains(entries.drop_last(), k);
        assert(!map_of(entries.drop_last()).contains_key(k));
        assert(map_of(entries).remove(k) =~= map_of(entries.drop_last()));
    } else {
        let dl = entries.drop_last();
        assert(distinct_keys(dl));
        lemma_map_of_remove(dl, i);
        assert(entries.remove(i).drop_last() =~= dl.remove(i));
        assert(entries.remove(i).last() == entries.last());
        assert(entries.last().0@ != k);
        assert(map_of(entries.remove(i)) == map_of(dl.remove(i)).insert(
            entries.last().0@,
            entries.last().1,
        ));
        assert(map_of(dl).insert(entries.last().0@, entries.last().1).remove(k) =~= map_of(
            dl,
        ).remove(k).insert(entries.last().0@, entries.last().1));
    }
}

/// Distinctness survives removing an entry.
proof fn lemma_distinct_remove(entries: Seq<(String, Handle)>, i: int)
    requires
        distinct_keys(entries),
        0 <= i < entries.len(),
    ensures
        distinct_keys(entries.remove(i)),
{
    assert forall|a: int, b: int|
        0 <= a < b < entries.remove(i).len() implies (#[trigger] entries.remove(i)[a]).0@ != (
    #[trigger] entries.remove(i)[b]).0@ by {
        let a0: int = if a < i { a } else { a + 1 };
        let b0: int = if b < i { b } else { b + 1 };
        assert(entries.remove(i)[a] == entries[a0]);
        assert(entries.remove(i)[b] == entries[b0]);
    }
}

/// One family's id-to-handle index.
#[derive(Debug)]
pub struct EntityMap {
    entries: Vec<(String, Handle)>,
}

impl View for EntityMap {
    type V = Map<Seq<char>, Handle>;

    closed spec fn view(&self) -> Map<Seq<char>, Handle> {
        map_of(self.entries@)
    }
}

impl EntityMap {
    /// Well-formed: no id occurs twice.
    pub closed spec fn wf(&self) -> bool {
        distinct_keys(self.entries@)
    }

    /// The indexed ids, in insertion order.
    pub closed spec fn ids(&self) -> Seq<Seq<char>> {
        keys_of(self.entries@)
    }

    /// The indexed handles, in insertion order.
    pub closed spec fn handles(&self) -> Seq<Handle> {
        handles_of(self.entries@)
    }

    pub fn new() -> (r: Self)
        ensures
            r.wf(),
            r@ == Map::<Seq<char>, Handle>::empty(),
            r.handles() == Seq::<Handle>::empty(),
            r.ids() == Seq::<Seq<char>>::empty(),
    {
        let r = EntityMap { entries: Vec::new() };
        proof {
            assert(r.handles() =~= Seq::<Handle>::empty());
            assert(r.ids() =~= Seq::<Seq<char>>::empty());
        }
        r
    }

    pub fn len(&self) -> (n: usize)
        ensures
            n == self.ids().len(),
            n == self.handles().len(),
    {
        self.entries.len()
    }

    /// The handle indexed under `id`, if any.
    pub fn get(&self, id: &String) -> (r: Option<Handle>)
        requires
            self.wf(),
        ensures
            match r {
                Some(h) => self@.contains_key(id@) && h == self@[id@],
                None => !self@.contains_key(id@),
            },
    {
        let n = self.entries.len();
        let mut i: usize = 0;
        while i < n
            invariant
                i <= n,
                n == self.entries@.len(),
                self.wf(),
                forall|j: int| 0 <= j < i ==> (#[trigger] self.entries@[j]).0@ != id@,
            decreases n - i,
        {
            if self.entries[i].0 == *id {
                proof {
                    lemma_map_of_at(self.entries@, i as int);
                }
                return Some(self.entries[i].1);
            }
            i += 1;
        }
        proof {
            lemma_map_of_contains(self.entries@, id@);
        }
        None
    }

    /// Records a new mapping. The caller guarantees the id is not already
    /// present: the graph model never assigns a duplicate id, so a duplicate
    /// insert would be a logic error, not a recoverable condition.
    pub fn insert(&mut self, id: String, handle: Handle)
        requires
            old(self).wf(),
            !old(self)@.contains_key(id@),
        ensures
            final(self).wf(),
            final(self)@ == old(self)@.insert(id@, handle),
            final(self).ids() == old(self).ids().push(id@),
            final(self).handles() == old(self).handles().push(handle),
    {
        proof {
            lemma_map_of_contains(self.entries@, id@);
        }
        let ghost old_entries = self.entries@;
        let ghost idv = id@;
        self.entries.push((id, handle));
        proof {
            assert(self.entries@.drop_last() =~= old_entries);
            assert(final(self).ids() =~= old(self).ids().push(idv));
            assert(final(self).handles() =~= old(self).handles().push(handle));
        }
    }

    /// Removes and returns the mapping for `id` if one is present; absence
    /// leaves the index unchanged and is the caller's cue for a consistency
    /// diagnostic.
    pub fn remove(&mut self, id: &String) -> (r: Option<Handle>)
        requires
            old(self).wf(),
        ensures
            final(self).wf(),
            final(self)@ == old(self)@.remove(id@),
            match r {
                Some(h) => old(self)@.contains_key(id@) && h == old(self)@[id@],
                None => !old(self)@.contains_key(id@) && *final(self) == *old(self),
            },
    {
        let n = self.entries.len();
        let mut i: usize = 0;
        while i < n
            invariant
                i <= n,
                n == self.entries@.len(),
                self.wf(),
                self == old(self),
                forall|j: int| 0 <= j < i ==> (#[trigger] self.entries@[j]).0@ != id@,
            decreases n - i,
        {
            if self.entries[i].0 == *id {
                proof {
                    lemma_map_of_at(self.entries@, i as int);
                    lemma_map_of_remove(self.entries@, i as int);
                    lemma_distinct_remove(self.entries@, i as int);
                }
                let (_, h) = self.entries.remove(i);
                return Some(h);
            }
            i += 1;
        }
        proof {
            lemma_map_of_contains(self.entries@, id@);
            assert(old(self)@.remove(id@) =~= old(self)@);
        }
        None
    }

    /// Removes every mapping and returns the handles that were indexed, in
    /// insertion order, so each can be despawned exactly once.
    pub fn drain(&mut self) -> (handles: Vec<Handle>)
        ensures
            final(self).wf(),
            final(self)@ == Map::<Seq<char>, Handle>::empty(),
            final(self).ids() == Seq::<Seq<char>>::empty(),
            final(self).handles() == Seq::<Handle>::empty(),
            handles@ == old(self).handles(),
    {
        let mut hs: Vec<Handle> = Vec::new();
        let n = self.entries.len();
        let mut i: usize = 0;
        while i < n
            invariant
                i <= n,
                n == self.entries@.len(),
                self == old(self),
                hs@ == handles_of(self.entries@).take(i as int),
            decreases n - i,
        {
            hs.push(self.entries[i].1);
            i += 1;
            proof {
                assert(hs@ =~= handles_of(self.entries@).take(i as int));
            }
        }
        proof {
            assert(hs@ =~= handles_of(self.entries@));
        }
        self.entries = Vec::new();
        proof {
            assert(final(self).ids() =~= Seq::<Seq<char>>::empty());
            assert(final(self).handles() =~= Seq::<Handle>::empty());
        }
        hs
    }
}

/// With distinct keys, the indexed ids are pairwise distinct and there is
/// exactly one handle per live id: as many handles as ids, and as many ids
/// as keys in the mapping.
pub proof fn lemma_one_handle_per_live_id(m: EntityMap)
    requires
        m.wf(),
    ensures
        forall|i: int, j: int| 0 <= i < j < m.ids().len() ==> m.ids()[i] != m.ids()[j],
        m.handles().len() == m.ids().len(),
        m@.dom().finite(),
        m@.dom().len() == m.ids().len(),
{
    lemma_map_of_sizes(m.entries@);
}

proof fn lemma_map_of_sizes(entries: Seq<(String, Handle)>)
    requires
        distinct_keys(entries),
    ensures
        map_of(entries).dom().finite(),
        map_of(entries).dom().len() == entries.len(),
    decreases entries.len(),
{
    if entries.len() > 0 {
        assert(distinct_keys(entries.drop_last()));
        lemma_map_of_sizes(entries.drop_last());
        lemma_map_of_contains(entries.drop_last(), entries.last().0@);
        assert(!map_of(entries.drop_last()).contains_key(entries.last().0@));
    }
}

} // verus!
