//! The status pool: a keyed mapping from request key to request payload and
//! lifecycle state. This is the in-memory reference store the actor drives;
//! its mathematical form is a map from key views to payload/state views.

use vstd::prelude::*;

use crate::entity::{EntityV, RequestEntity, clone_entity};
use crate::request::{KeyV, RequestKey, key_eq};
use crate::status::{StatusCtxV, StatusWithContext, clone_status_ctx};

verus! {

/// One stored request: its key, its payload, and its timed state.
#[derive(Debug)]
pub struct PoolEntry {
    pub key: RequestKey,
    pub entity: RequestEntity,
    pub status: StatusWithContext,
}

/// The map a sequence of entries denotes: later entries override earlier
/// ones, though a well-formed pool never holds a key twice.
pub open spec fn pool_map(s: Seq<PoolEntry>) -> Map<KeyV, (EntityV, StatusCtxV)>
    decreases s.len(),
{
    if s.len() == 0 {
        Map::empty()
    } else {
        pool_map(s.drop_last()).insert(s.last().key@, (s.last().entity@, s.last().status@))
    }
}

/// A keyed store of requests and their lifecycle states.
#[derive(Debug)]
pub struct Pool {
    pub entries: Vec<PoolEntry>,
}

impl View for Pool {
    type V = Map<KeyV, (EntityV, StatusCtxV)>;

    open spec fn view(&self) -> Map<KeyV, (EntityV, StatusCtxV)> {
        pool_map(self.entries@)
    }
}

/// Every key appears at most once.
pub open spec fn entries_unique(s: Seq<PoolEntry>) -> bool {
    forall|i: int, j: int| 0 <= i < j < s.len() ==> s[i].key@ != s[j].key@
}

/// What a sequence of unique entries says about its map: a key is in the
/// map's domain exactly when an entry holds it, and the map sends each
/// entry's key to that entry's payload and state.
pub proof fn lemma_pool_map_index(s: Seq<PoolEntry>)
    requires
        entries_unique(s),
    ensures
        forall|k: KeyV|
            pool_map(s).dom().contains(k) <==> exists|i: int| 0 <= i < s.len() && s[i].key@ == k,
        forall|i: int|
            0 <= i < s.len() ==> pool_map(s).dom().contains(#[trigger] s[i].key@) && pool_map(
                s,
            )[s[i].key@] == (s[i].entity@, s[i].status@),
    decreases s.len(),
{
    if s.len() > 0 {
        assert(entries_unique(s.drop_last()));
        lemma_pool_map_index(s.drop_last());
        assert forall|i: int| 0 <= i < s.len() implies pool_map(s).dom().contains(
            #[trigger] s[i].key@,
        ) && pool_map(s)[s[i].key@] == (s[i].entity@, s[i].status@) by {
            if i < s.len() - 1 {
                assert(s.drop_last()[i] == s[i]);
                assert(s[i].key@ != s.last().key@);
            }
        }
        assert forall|k: KeyV| pool_map(s).dom().contains(k) implies exists|i: int|
            0 <= i < s.len() && s[i].key@ == k by {
            if k == s.last().key@ {
                assert(s[s.len() - 1].key@ == k);
            } else {
                assert(pool_map(s.drop_last()).dom().contains(k));
                let i = choose|i: int| 0 <= i < s.drop_last().len() && s.drop_last()[i].key@ == k;
                assert(s.drop_last()[i] == s[i]);
                assert(s[i].key@ == k);
            }
        }
    }
}

/// Replacing the entry that holds a key updates exactly that key's image.
pub proof fn lemma_pool_map_update(s: Seq<PoolEntry>, i: int, e: PoolEntry)
    requires
        entries_unique(s),
        0 <= i < s.len(),
        e.key@ == s[i].key@,
    ensures
        pool_map(s.update(i, e)) =~= pool_map(s).insert(e.key@, (e.entity@, e.status@)),
    decreases s.len(),
{
    let t = s.update(i, e);
    if i == s.len() - 1 {
        assert(t.drop_last() =~= s.drop_last());
        assert(t.last() == e);
    } else {
        assert(entries_unique(s.drop_last()));
        assert(t.drop_last() =~= s.drop_last().update(i, e));
        lemma_pool_map_update(s.drop_last(), i, e);
        assert(t.last() == s.last());
        assert(e.key@ != s.last().key@);
    }
}

/// Appending an entry inserts its key.
pub proof fn lemma_pool_map_push(s: Seq<PoolEntry>, e: PoolEntry)
    ensures
        pool_map(s.push(e)) =~= pool_map(s).insert(e.key@, (e.entity@, e.status@)),
{
    assert(s.push(e).drop_last() =~= s);
    assert(s.push(e).last() == e);
}

impl Pool {
    /// No key stored twice.
    pub open spec fn wf(&self) -> bool {
        entries_unique(self.entries@)
    }

    /// An empty pool.
    pub fn new() -> (r: Pool)
        ensures
            r.wf(),
            r@ =~= Map::<KeyV, (EntityV, StatusCtxV)>::empty(),
    {
        Pool { entries: Vec::new() }
    }

    /// Where `key` is stored, if anywhere.
    fn find(&self, key: &RequestKey) -> (r: Option<usize>)
        requires
            self.wf(),
        ensures
            match r {
                Some(i) => i < self.entries@.len() && self.entries@[i as int].key@ == key@,
                None => forall|i: int| 0 <= i < self.entries@.len() ==> self.entries@[i].key@ != key@,
            },
    {
        let mut i: usize = 0;
        while i < self.entries.len()
            invariant
                i <= self.entries.len(),
                forall|j: int| 0 <= j < i ==> self.entries@[j].key@ != key@,
            decreases self.entries.len() - i,
        {
            if key_eq(&self.entries[i].key, key) {
                return Some(i);
            }
            i = i + 1;
        }
        None
    }

    /// The stored state of `key`: `Some` exactly when the pool holds the
    /// key, and then the state the pool's map sends it to.
    pub fn get_status(&self, key: &RequestKey) -> (r: Option<StatusWithContext>)
        requires
            self.wf(),
        ensures
            match r {
                Some(s) => self@.dom().contains(key@) && s@ == self@[key@].1,
                None => !self@.dom().contains(key@),
            },
    {
        proof {
            lemma_pool_map_index(self.entries@);
        }
        match self.find(key) {
            Some(i) => Some(clone_status_ctx(&self.entries[i].status)),
            None => None,
        }
    }

    /// The stored payload and state of `key`: `Some` exactly when the pool
    /// holds the key.
    pub fn get(&self, key: &RequestKey) -> (r: Option<(RequestEntity, StatusWithContext)>)
        requires
            self.wf(),
        ensures
            match r {
                Some(p) => self@.dom().contains(key@) && (p.0@, p.1@) == self@[key@],
                None => !self@.dom().contains(key@),
            },
    {
        proof {
            lemma_pool_map_index(self.entries@);
        }
        match self.find(key) {
            Some(i) => Some(
                (clone_entity(&self.entries[i].entity), clone_status_ctx(&self.entries[i].status)),
            ),
            None => None,
        }
    }

    /// Store `entity` and `status` under `key`, overwriting whatever the
    /// pool held for that key before.
    pub fn add(&mut self, key: RequestKey, entity: RequestEntity, status: StatusWithContext)
        requires
            old(self).wf(),
        ensures
            final(self).wf(),
            final(self)@ == old(self)@.insert(key@, (entity@, status@)),
    {
        let ghost old_entries = self.entries@;
        let e = PoolEntry { key, entity, status };
        match self.find(&e.key) {
            Some(i) => {
                proof {
                    lemma_pool_map_update(self.entries@, i as int, e);
                }
                self.entries.set(i, e);
                proof {
                    assert forall|a: int, b: int|
                        0 <= a < b < self.entries@.len() implies self.entries@[a].key@
                        != self.entries@[b].key@ by {
                        assert(old_entries[a].key@ != old_entries[b].key@);
                    }
                }
            },
            None => {
                proof {
                    lemma_pool_map_push(self.entries@, e);
                }
                self.entries.push(e);
                proof {
                    assert forall|a: int, b: int|
                        0 <= a < b < self.entries@.len() implies self.entries@[a].key@
                        != self.entries@[b].key@ by {
                        if b < self.entries@.len() - 1 {
                            assert(old_entries[a].key@ != old_entries[b].key@);
                        }
                    }
                }
            },
        }
    }

    /// Replace the stored state of `key`, keeping its payload. Returns
    /// whether the pool held the key; when it did not, nothing changes.
    pub fn update_status(&mut self, key: &RequestKey, status: StatusWithContext) -> (ok: bool)
        requires
            old(self).wf(),
        ensures
            final(self).wf(),
            ok <==> old(self)@.dom().contains(key@),
            ok ==> final(self)@ == old(self)@.insert(key@, (old(self)@[key@].0, status@)),
            !ok ==> final(self)@ == old(self)@,
    {
        let ghost old_entries = self.entries@;
        proof {
            lemma_pool_map_index(self.entries@);
        }
        match self.find(key) {
            Some(i) => {
                let old_entry = &self.entries[i];
                let e = PoolEntry {
                    key: crate::request::clone_key(&old_entry.key),
                    entity: clone_entity(&old_entry.entity),
                    status,
                };
                proof {
                    lemma_pool_map_update(self.entries@, i as int, e);
                }
                self.entries.set(i, e);
                proof {
                    assert forall|a: int, b: int|
                        0 <= a < b < self.entries@.len() implies self.entries@[a].key@
                        != self.entries@[b].key@ by {
                        assert(old_entries[a].key@ != old_entries[b].key@);
                    }
                }
                true
            },
            None => false,
        }
    }

    /// How many requests the pool holds.
    pub fn len(&self) -> (n: usize)
        requires
            self.wf(),
        ensures
            n == self@.dom().len(),
    {
        proof {
            lemma_pool_map_index(self.entries@);
            lemma_unique_entries_dom_len(self.entries@);
        }
        self.entries.len()
    }
}

/// A pool with unique entries has as many keys in its map as entries.
pub proof fn lemma_unique_entries_dom_len(s: Seq<PoolEntry>)
    requires
        entries_unique(s),
    ensures
        pool_map(s).dom().finite(),
        pool_map(s).dom().len() == s.len(),
    decreases s.len(),
{
    if s.len() == 0 {
        broadcast use vstd::set::axiom_set_empty_len;

        assert(pool_map(s).dom() =~= Set::<KeyV>::empty());
    } else {
        let prev = pool_map(s.drop_last()).dom();
        let k = s.last().key@;
        assert(entries_unique(s.drop_last()));
        lemma_unique_entries_dom_len(s.drop_last());
        lemma_pool_map_index(s.drop_last());
        if prev.contains(k) {
            let i = choose|i: int| 0 <= i < s.drop_last().len() && s.drop_last()[i].key@ == k;
            assert(s.drop_last()[i] == s[i]);
            assert(s[i].key@ == s[s.len() - 1].key@);
            assert(false);
        }
        assert(pool_map(s).dom() =~= prev.insert(k));
        vstd::set::axiom_set_insert_finite(prev, k);
        vstd::set::axiom_set_insert_len(prev, k);
    }
}

} // verus!
