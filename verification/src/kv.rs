//! The key-value layer: one region per key, holding the key bytes
//! followed by the value bytes.
//!
//! The store keeps a local mapping from key bytes to the backing region's
//! id; the bytes themselves live only in the regions. `set` allocates and
//! fills a fresh region before it touches the mapping, and frees the old
//! region only after the mapping points at the new one. `get` recovers
//! the value length as the region's total size minus the key's length —
//! no explicit value length is stored anywhere, which works only because
//! the caller supplies the same key it used at `set` time.

use vstd::prelude::*;
use vstd::slice::slice_to_vec;
use vstd::string::StringSliceAdditionalSpecFns;

use crate::bytes::bytes_eq;
use crate::client::MemoryClient;
use crate::errors::{AllocationError, MemoryError};
use crate::memory::{is_live, region_bytes, zero_region};

verus! {

/// Size in bytes of the header region reserved at open time for future
/// metadata.
pub const HEADER_SIZE: u64 = 1024;

/// The largest key the store accepts, in bytes.
pub const MAX_KEY_SIZE: usize = 256;

/// The largest value the store accepts, in bytes.
pub const MAX_VALUE_SIZE: usize = 1024;

/// The mathematical state of a store: which region id backs each key,
/// and the server's region table.
#[verifier::ext_equal]
pub struct StoreView {
    pub locs: Map<Seq<u8>, nat>,
    pub regions: Seq<Option<Seq<u8>>>,
}

/// A well-formed store state: every mapped key is backed by a live
/// region at least as long as the key.
pub open spec fn view_wf(s: StoreView) -> bool {
    forall|k: Seq<u8>| #[trigger]
        s.locs.contains_key(k) ==> is_live(s.regions, s.locs[k] as int) && k.len() <= region_bytes(
            s.regions,
            s.locs[k] as int,
        ).len()
}

/// The value bytes a store holds for a mapped key: the backing region's
/// bytes past the key.
pub open spec fn spec_kv_value(s: StoreView, k: Seq<u8>) -> Seq<u8>
    recommends
        s.locs.contains_key(k),
{
    region_bytes(s.regions, s.locs[k] as int).skip(k.len() as int)
}

/// What `get` answers on a store state.
pub open spec fn spec_kv_get(s: StoreView, k: Seq<u8>) -> Option<Seq<u8>> {
    if s.locs.contains_key(k) {
        Some(spec_kv_value(s, k))
    } else {
        None
    }
}

/// The store state after a successful `set`: a fresh region holding the
/// key bytes then the value bytes, the mapping repointed at it, and the
/// previously backing region, if any, tombstoned.
pub open spec fn spec_kv_set(s: StoreView, k: Seq<u8>, v: Seq<u8>) -> StoreView {
    let id = s.regions.len();
    let grown = s.regions.push(Some(k + v));
    if s.locs.contains_key(k) {
        StoreView { locs: s.locs.insert(k, id), regions: grown.update(s.locs[k] as int, None) }
    } else {
        StoreView { locs: s.locs.insert(k, id), regions: grown }
    }
}

/// The store state after a `delete`: the mapping entry removed and its
/// backing region tombstoned; a miss leaves the state alone.
pub open spec fn spec_kv_delete(s: StoreView, k: Seq<u8>) -> StoreView {
    if s.locs.contains_key(k) {
        StoreView {
            locs: s.locs.remove(k),
            regions: s.regions.update(s.locs[k] as int, None::<Seq<u8>>),
        }
    } else {
        s
    }
}

/// The mapping an entry list denotes; a later entry for the same key
/// wins, though a well-formed store never holds two entries per key.
pub open spec fn locs_of(entries: Seq<(Seq<u8>, nat)>) -> Map<Seq<u8>, nat>
    decreases entries.len(),
{
    if entries.len() == 0 {
        Map::empty()
    } else {
        locs_of(entries.drop_last()).insert(entries.last().0, entries.last().1)
    }
}

/// No two entries share a key.
pub open spec fn distinct_keys(entries: Seq<(Seq<u8>, nat)>) -> bool {
    forall|i: int, j: int|
        0 <= i < j < entries.len() ==> (#[trigger] entries[i]).0 != (#[trigger] entries[j]).0
}

/// A key is in the denoted mapping exactly when some entry carries it.
proof fn lemma_locs_of_contains(entries: Seq<(Seq<u8>, nat)>, k: Seq<u8>)
    ensures
        locs_of(entries).contains_key(k) <==> exists|i: int|
            0 <= i < entries.len() && (#[trigger] entries[i]).0 == k,
    decreases entries.len(),
{
    if entries.len() > 0 {
        lemma_locs_of_contains(entries.drop_last(), k);
        if entries.last().0 == k {
            assert(entries[entries.len() - 1].0 == k);
        } else if locs_of(entries).contains_key(k) {
            let i = choose|i: int|
                0 <= i < entries.drop_last().len() && (#[trigger] entries.drop_last()[i]).0 == k;
            assert(entries[i].0 == k);
        } else {
            assert forall|i: int| 0 <= i < entries.len() implies (#[trigger] entries[i]).0
                != k by {
                if i < entries.len() - 1 {
                    assert(entries.drop_last()[i] == entries[i]);
                }
            }
        }
    }
}

/// With distinct keys, the mapping sends an entry's key to its id.
proof fn lemma_locs_of_index(entries: Seq<(Seq<u8>, nat)>, i: int)
    requires
        distinct_keys(entries),
        0 <= i < entries.len(),
    ensures
        locs_of(entries).contains_key(entries[i].0),
        locs_of(entries)[entries[i].0] == entries[i].1,
    decreases entries.len(),
{
    if i == entries.len() - 1 {
    } else {
        assert(distinct_keys(entries.drop_last()));
        assert(entries.drop_last()[i] == entries[i]);
        lemma_locs_of_index(entries.drop_last(), i);
        assert(entries[i].0 != entries.last().0);
    }
}

/// With distinct keys, repointing an entry's id updates the mapping at
/// that entry's key alone.
proof fn lemma_locs_of_update(entries: Seq<(Seq<u8>, nat)>, i: int, id: nat)
    requires
        distinct_keys(entries),
        0 <= i < entries.len(),
    ensures
        locs_of(entries.update(i, (entries[i].0, id))) == locs_of(entries).insert(
            entries[i].0,
            id,
        ),
    decreases entries.len(),
{
    let k = entries[i].0;
    let updated = entries.update(i, (k, id));
    if i == entries.len() - 1 {
        assert(updated.drop_last() =~= entries.drop_last());
        assert(locs_of(updated) =~= locs_of(entries).insert(k, id));
    } else {
        assert(distinct_keys(entries.drop_last()));
        assert(entries.drop_last()[i] == entries[i]);
        lemma_locs_of_update(entries.drop_last(), i, id);
        assert(updated.drop_last() =~= entries.drop_last().update(i, (k, id)));
        assert(updated.last() == entries.last());
        assert(k != entries.last().0);
        assert(locs_of(updated) =~= locs_of(entries).insert(k, id));
    }
}

/// With distinct keys, dropping an entry removes exactly its key from
/// the mapping.
proof fn lemma_locs_of_remove(entries: Seq<(Seq<u8>, nat)>, i: int)
    requires
        distinct_keys(entries),
        0 <= i < entries.len(),
    ensures
        locs_of(entries.remove(i)) == locs_of(entries).remove(entries[i].0),
    decreases entries.len(),
{
    let k = entries[i].0;
    if i == entries.len() - 1 {
        assert(entries.remove(i) =~= entries.drop_last());
        lemma_locs_of_contains(entries.drop_last(), k);
        assert forall|j: int|
            0 <= j < entries.drop_last().len() implies (#[trigger] entries.drop_last()[j]).0
            != k by {
            assert(entries.drop_last()[j] == entries[j]);
        }
        assert(!locs_of(entries.drop_last()).contains_key(k));
        assert(locs_of(entries.remove(i)) =~= locs_of(entries).remove(k));
    } else {
        assert(distinct_keys(entries.drop_last()));
        assert(entries.drop_last()[i] == entries[i]);
        lemma_locs_of_remove(entries.drop_last(), i);
        assert(entries.remove(i).drop_last() =~= entries.drop_last().remove(i));
        assert(entries.remove(i).last() == entries.last());
        assert(k != entries.last().0);
        assert(locs_of(entries.remove(i)) =~= locs_of(entries).remove(k));
    }
}

/// A client-side key-value store over remote regions.
pub struct KeyValueStore {
    client: MemoryClient,
    data: Vec<(Vec<u8>, u64)>,
}

impl View for KeyValueStore {
    type V = StoreView;

    closed spec fn view(&self) -> StoreView {
        StoreView { locs: locs_of(self.entries()), regions: self.client@ }
    }
}

impl KeyValueStore {
    /// The entry list as key bytes and region id, entry by entry.
    closed spec fn entries(&self) -> Seq<(Seq<u8>, nat)> {
        Seq::new(self.data@.len(), |i: int| (self.data@[i].0@, self.data@[i].1 as nat))
    }

    /// The store's internal invariant: entries carry distinct keys and
    /// distinct ids, and each entry's region is live and at least as
    /// long as its key.
    pub closed spec fn wf(&self) -> bool {
        &&& distinct_keys(self.entries())
        &&& (forall|i: int, j: int|
            0 <= i < j < self.entries().len() ==> (#[trigger] self.entries()[i]).1 != (
            #[trigger] self.entries()[j]).1)
        &&& (forall|i: int|
            0 <= i < self.entries().len() ==> is_live(
                self.client@,
                (#[trigger] self.entries()[i]).1 as int,
            ) && self.entries()[i].0.len() <= region_bytes(
                self.client@,
                self.entries()[i].1 as int,
            ).len())
    }

    /// Opens a store over the given client, reserving the fixed-size
    /// header region; the store starts with no keys.
    pub fn new(client: MemoryClient) -> (r: Result<KeyValueStore, MemoryError>)
        ensures
            r matches Ok(store) && store.wf() && store@.locs == Map::<Seq<u8>, nat>::empty()
                && store@.regions == client@.push(Some(zero_region(HEADER_SIZE as nat))),
    {
        let mut client = client;
        match client.allocate_memory(HEADER_SIZE) {
            Ok(_) => (),
            Err(e) => {
                return Err(MemoryError::AllocationError(e));
            },
        }
        let store = KeyValueStore { client, data: Vec::new() };
        proof {
            assert(store.entries() =~= Seq::<(Seq<u8>, nat)>::empty());
            assert(store@.locs =~= Map::<Seq<u8>, nat>::empty());
        }
        Ok(store)
    }

    /// The index of the entry carrying exactly these key bytes, if any.
    fn find(&self, key_bytes: &[u8]) -> (r: Option<usize>)
        ensures
            match r {
                Some(i) => 0 <= i < self.entries().len() && self.entries()[i as int].0
                    == key_bytes@,
                None => forall|j: int|
                    0 <= j < self.entries().len() ==> (#[trigger] self.entries()[j]).0
                        != key_bytes@,
            },
    {
        let mut i: usize = 0;
        while i < self.data.len()
            invariant
                i <= self.data@.len(),
                forall|j: int| 0 <= j < i ==> (#[trigger] self.entries()[j]).0 != key_bytes@,
            decreases self.data@.len() - i,
        {
            let entry = &self.data[i];
            if bytes_eq(entry.0.as_slice(), key_bytes) {
                return Some(i);
            }
            i = i + 1;
        }
        None
    }

    /// Binds `key` to `value`: rejects oversize keys or values locally
    /// without touching the allocator, otherwise fills a fresh region
    /// with the key bytes then the value bytes, repoints the mapping,
    /// and frees the region that backed the key before, if any.
    pub fn set(&mut self, key: &str, value: &[u8]) -> (r: Result<(), MemoryError>)
        requires
            old(self).wf(),
        ensures
            final(self).wf(),
            key.spec_bytes().len() > MAX_KEY_SIZE || value@.len() > MAX_VALUE_SIZE ==> r == Err::<
                (),
                MemoryError,
            >(MemoryError::AllocationError(AllocationError::InsufficientMemory)) && final(self)@
                == old(self)@,
            key.spec_bytes().len() <= MAX_KEY_SIZE && value@.len() <= MAX_VALUE_SIZE ==> r == Ok::<
                (),
                MemoryError,
            >(()) && final(self)@ == spec_kv_set(old(self)@, key.spec_bytes(), value@),
    {
        let key_bytes = key.as_bytes();
        if key_bytes.len() > MAX_KEY_SIZE || value.len() > MAX_VALUE_SIZE {
            return Err(MemoryError::AllocationError(AllocationError::InsufficientMemory));
        }

        let found = self.find(key_bytes);
        let ghost old_regions = self.client@;
        let ghost k = key_bytes@;
        let ghost v = value@;
        let ghost fresh = old_regions.len();

        let total_size = key_bytes.len() + value.len();
        let memory_id = match self.client.allocate_memory(total_size as u64) {
            Ok(id) => id,
            Err(e) => {
                return Err(MemoryError::AllocationError(e));
            },
        };
        proof {
            assert(memory_id as nat == fresh);
            assert(is_live(self.client@, fresh as int));
            assert(region_bytes(self.client@, fresh as int) == zero_region(
                (k.len() + v.len()) as nat,
            ));
        }

        match self.client.write(memory_id, 0, slice_to_vec(key_bytes)) {
            Ok(_) => (),
            Err(e) => {
                return Err(MemoryError::MemoryAccessError(e));
            },
        }
        proof {
            assert(is_live(self.client@, fresh as int));
            assert(region_bytes(self.client@, fresh as int) =~= k + zero_region(
                (k.len() + v.len()) as nat,
            ).skip(k.len() as int));
            assert(region_bytes(self.client@, fresh as int).len() == k.len() + v.len());
        }
        match self.client.write(memory_id, key_bytes.len() as u64, slice_to_vec(value)) {
            Ok(_) => (),
            Err(e) => {
                return Err(MemoryError::MemoryAccessError(e));
            },
        }
        proof {
            assert(region_bytes(self.client@, fresh as int) =~= k + v);
            assert(self.client@ =~= old_regions.push(Some(k + v)));
        }

        let stored_key = slice_to_vec(key_bytes);
        match found {
            Some(i) => {
                let old_id = self.data[i].1;
                proof {
                    lemma_locs_of_index(old(self).entries(), i as int);
                    assert(old(self)@.locs[k] == old_id as nat);
                    assert(is_live(old_regions, old_id as int));
                    assert(old_id as nat != fresh);
                    assert(is_live(self.client@, old_id as int));
                }
                self.data.set(i, (stored_key, memory_id));
                proof {
                    assert(self.entries() =~= old(self).entries().update(
                        i as int,
                        (k, memory_id as nat),
                    ));
                    lemma_locs_of_update(old(self).entries(), i as int, memory_id as nat);
                }
                match self.client.free(old_id) {
                    Ok(_) => (),
                    Err(e) => {
                        return Err(MemoryError::DeallocationError(e));
                    },
                }
                proof {
                    lemma_locs_of_contains(old(self).entries(), k);
                    assert(old(self)@.locs.contains_key(k));
                    assert(old(self).entries()[i as int].0 == k);
                    assert(self.entries() == old(self).entries().update(
                        i as int,
                        (k, memory_id as nat),
                    ));
                    assert(locs_of(self.entries()) == locs_of(old(self).entries()).insert(
                        k,
                        memory_id as nat,
                    ));
                    assert(self@.locs == spec_kv_set(old(self)@, k, v).locs);
                    assert(self@.regions =~= spec_kv_set(old(self)@, k, v).regions);
                    assert(self@ =~= spec_kv_set(old(self)@, k, v));
                    lemma_wf_after_repoint(old(self).entries(), self.entries(), old_regions, self.client@, i as int, fresh, old_id as nat);
                }
            },
            None => {
                self.data.push((stored_key, memory_id));
                proof {
                    assert(self.entries() =~= old(self).entries().push((k, memory_id as nat)));
                    lemma_locs_of_contains(old(self).entries(), k);
                    assert(!old(self)@.locs.contains_key(k));
                    assert(self.entries().drop_last() =~= old(self).entries());
                    assert(self.entries().last() == (k, memory_id as nat));
                    assert(locs_of(self.entries()) == locs_of(old(self).entries()).insert(
                        k,
                        memory_id as nat,
                    ));
                    assert(self@.locs =~= spec_kv_set(old(self)@, k, v).locs);
                    assert(self@.regions =~= spec_kv_set(old(self)@, k, v).regions);
                    assert(self@ =~= spec_kv_set(old(self)@, k, v));
                    lemma_wf_after_push(old(self).entries(), self.entries(), old_regions, self.client@, fresh);
                }
            },
        }
        Ok(())
    }

    /// The value bound to `key`, or `None` for an unknown key. The value
    /// length is recovered as the backing region's size minus the key's
    /// length, so only the key used at `set` time recovers the value.
    pub fn get(&mut self, key: &str) -> (r: Result<Option<Vec<u8>>, MemoryError>)
        requires
            old(self).wf(),
        ensures
            final(self).wf(),
            final(self)@ == old(self)@,
            (match spec_kv_get(old(self)@, key.spec_bytes()) {
                Some(bytes) => r matches Ok(Some(out)) && out@ == bytes,
                None => r == Ok::<Option<Vec<u8>>, MemoryError>(None),
            }),
    {
        let key_bytes = key.as_bytes();
        match self.find(key_bytes) {
            Some(i) => {
                let memory_id = self.data[i].1;
                proof {
                    lemma_locs_of_index(self.entries(), i as int);
                    assert(self@.locs[key_bytes@] == memory_id as nat);
                    assert(is_live(self.client@, memory_id as int));
                }
                let key_size = key_bytes.len() as u64;
                let total_size = match self.client.get_memory_size(memory_id) {
                    Ok(size) => size,
                    Err(e) => {
                        return Err(MemoryError::MemoryAccessError(e));
                    },
                };
                let value_size = total_size - key_size;
                let value = match self.client.read(memory_id, key_size, value_size) {
                    Ok(value) => value,
                    Err(e) => {
                        return Err(MemoryError::MemoryAccessError(e));
                    },
                };
                proof {
                    assert(value@ =~= spec_kv_value(old(self)@, key.spec_bytes()));
                }
                Ok(Some(value))
            },
            None => {
                proof {
                    lemma_locs_of_contains(self.entries(), key_bytes@);
                }
                Ok(None)
            },
        }
    }

    /// Unbinds `key` and frees its backing region; answers whether the
    /// key was bound.
    pub fn delete(&mut self, key: &str) -> (r: Result<bool, MemoryError>)
        requires
            old(self).wf(),
        ensures
            final(self).wf(),
            old(self)@.locs.contains_key(key.spec_bytes()) ==> r == Ok::<bool, MemoryError>(true)
                && final(self)@ == spec_kv_delete(old(self)@, key.spec_bytes()),
            !old(self)@.locs.contains_key(key.spec_bytes()) ==> r == Ok::<bool, MemoryError>(false)
                && final(self)@ == old(self)@,
    {
        let key_bytes = key.as_bytes();
        match self.find(key_bytes) {
            Some(i) => {
                let memory_id = self.data[i].1;
                proof {
                    lemma_locs_of_index(self.entries(), i as int);
                    assert(self@.locs[key_bytes@] == memory_id as nat);
                    assert(is_live(self.client@, memory_id as int));
                }
                self.data.remove(i);
                proof {
                    assert(self.entries() =~= old(self).entries().remove(i as int));
                    lemma_locs_of_remove(old(self).entries(), i as int);
                }
                match self.client.free(memory_id) {
                    Ok(_) => (),
                    Err(e) => {
                        return Err(MemoryError::DeallocationError(e));
                    },
                }
                proof {
                    assert(self@ =~= spec_kv_delete(old(self)@, key.spec_bytes()));
                    lemma_wf_after_remove(
                        old(self).entries(),
                        self.entries(),
                        old(self)@.regions,
                        self.client@,
                        i as int,
                        memory_id as nat,
                    );
                }
                Ok(true)
            },
            None => {
                proof {
                    lemma_locs_of_contains(self.entries(), key_bytes@);
                }
                Ok(false)
            },
        }
    }
}

/// After repointing entry `i` at the fresh region and tombstoning its
/// old one, the entry list still satisfies the store invariant.
proof fn lemma_wf_after_repoint(
    old_entries: Seq<(Seq<u8>, nat)>,
    new_entries: Seq<(Seq<u8>, nat)>,
    old_regions: Seq<Option<Seq<u8>>>,
    new_regions: Seq<Option<Seq<u8>>>,
    i: int,
    fresh: nat,
    old_id: nat,
)
    requires
        0 <= i < old_entries.len(),
        distinct_keys(old_entries),
        forall|a: int, b: int|
            0 <= a < b < old_entries.len() ==> (#[trigger] old_entries[a]).1 != (
            #[trigger] old_entries[b]).1,
        forall|a: int|
            0 <= a < old_entries.len() ==> is_live(old_regions, (#[trigger] old_entries[a]).1 as int)
                && old_entries[a].0.len() <= region_bytes(old_regions, old_entries[a].1 as int).len(),
        fresh == old_regions.len(),
        old_id == old_entries[i].1,
        new_entries == old_entries.update(i, (old_entries[i].0, fresh)),
        is_live(new_regions, fresh as int),
        old_entries[i].0.len() <= region_bytes(new_regions, fresh as int).len(),
        forall|j: int|
            0 <= j < new_regions.len() && j != fresh && j != old_id ==> new_regions[j]
                == old_regions[j],
        new_regions.len() == old_regions.len() + 1,
    ensures
        distinct_keys(new_entries),
        forall|a: int, b: int|
            0 <= a < b < new_entries.len() ==> (#[trigger] new_entries[a]).1 != (
            #[trigger] new_entries[b]).1,
        forall|a: int|
            0 <= a < new_entries.len() ==> is_live(new_regions, (#[trigger] new_entries[a]).1 as int)
                && new_entries[a].0.len() <= region_bytes(new_regions, new_entries[a].1 as int).len(),
{
    assert forall|a: int| 0 <= a < new_entries.len() implies is_live(
        new_regions,
        (#[trigger] new_entries[a]).1 as int,
    ) && new_entries[a].0.len() <= region_bytes(new_regions, new_entries[a].1 as int).len() by {
        if a != i {
            assert(new_entries[a] == old_entries[a]);
            assert(old_entries[a].1 < old_regions.len());
            assert(old_entries[a].1 != old_id);
            assert(new_regions[old_entries[a].1 as int] == old_regions[old_entries[a].1 as int]);
        }
    }
}

/// After appending an entry for a fresh region, the entry list still
/// satisfies the store invariant.
proof fn lemma_wf_after_push(
    old_entries: Seq<(Seq<u8>, nat)>,
    new_entries: Seq<(Seq<u8>, nat)>,
    old_regions: Seq<Option<Seq<u8>>>,
    new_regions: Seq<Option<Seq<u8>>>,
    fresh: nat,
)
    requires
        distinct_keys(old_entries),
        forall|a: int, b: int|
            0 <= a < b < old_entries.len() ==> (#[trigger] old_entries[a]).1 != (
            #[trigger] old_entries[b]).1,
        forall|a: int|
            0 <= a < old_entries.len() ==> is_live(old_regions, (#[trigger] old_entries[a]).1 as int)
                && old_entries[a].0.len() <= region_bytes(old_regions, old_entries[a].1 as int).len(),
        fresh == old_regions.len(),
        new_entries.len() == old_entries.len() + 1,
        forall|a: int| 0 <= a < old_entries.len() ==> #[trigger] new_entries[a] == old_entries[a],
        new_entries.last().1 == fresh,
        forall|a: int|
            0 <= a < old_entries.len() ==> (#[trigger] old_entries[a]).0 != new_entries.last().0,
        is_live(new_regions, fresh as int),
        new_entries.last().0.len() <= region_bytes(new_regions, fresh as int).len(),
        forall|j: int|
            0 <= j < new_regions.len() && j != fresh ==> new_regions[j] == old_regions[j],
        new_regions.len() == old_regions.len() + 1,
    ensures
        distinct_keys(new_entries),
        forall|a: int, b: int|
            0 <= a < b < new_entries.len() ==> (#[trigger] new_entries[a]).1 != (
            #[trigger] new_entries[b]).1,
        forall|a: int|
            0 <= a < new_entries.len() ==> is_live(new_regions, (#[trigger] new_entries[a]).1 as int)
                && new_entries[a].0.len() <= region_bytes(new_regions, new_entries[a].1 as int).len(),
{
    assert forall|a: int| 0 <= a < new_entries.len() implies is_live(
        new_regions,
        (#[trigger] new_entries[a]).1 as int,
    ) && new_entries[a].0.len() <= region_bytes(new_regions, new_entries[a].1 as int).len() by {
        if a < old_entries.len() {
            assert(new_entries[a] == old_entries[a]);
            assert(old_entries[a].1 < old_regions.len());
            assert(new_regions[old_entries[a].1 as int] == old_regions[old_entries[a].1 as int]);
        } else {
            assert(new_entries[a] == new_entries.last());
        }
    }
}

/// After dropping an entry and tombstoning its region, the entry list
/// still satisfies the store invariant.
proof fn lemma_wf_after_remove(
    old_entries: Seq<(Seq<u8>, nat)>,
    new_entries: Seq<(Seq<u8>, nat)>,
    old_regions: Seq<Option<Seq<u8>>>,
    new_regions: Seq<Option<Seq<u8>>>,
    i: int,
    removed_id: nat,
)
    requires
        0 <= i < old_entries.len(),
        distinct_keys(old_entries),
        forall|a: int, b: int|
            0 <= a < b < old_entries.len() ==> (#[trigger] old_entries[a]).1 != (
            #[trigger] old_entries[b]).1,
        forall|a: int|
            0 <= a < old_entries.len() ==> is_live(old_regions, (#[trigger] old_entries[a]).1 as int)
                && old_entries[a].0.len() <= region_bytes(old_regions, old_entries[a].1 as int).len(),
        removed_id == old_entries[i].1,
        new_entries == old_entries.remove(i),
        new_regions == old_regions.update(removed_id as int, None::<Seq<u8>>),
    ensures
        distinct_keys(new_entries),
        forall|a: int, b: int|
            0 <= a < b < new_entries.len() ==> (#[trigger] new_entries[a]).1 != (
            #[trigger] new_entries[b]).1,
        forall|a: int|
            0 <= a < new_entries.len() ==> is_live(new_regions, (#[trigger] new_entries[a]).1 as int)
                && new_entries[a].0.len() <= region_bytes(new_regions, new_entries[a].1 as int).len(),
{
    assert forall|a: int, b: int| 0 <= a < b < new_entries.len() implies (
    #[trigger] new_entries[a]).0 != (#[trigger] new_entries[b]).0 && new_entries[a].1
        != new_entries[b].1 by {
        let oa = if a < i { a } else { a + 1 };
        let ob = if b < i { b } else { b + 1 };
        assert(new_entries[a] == old_entries[oa]);
        assert(new_entries[b] == old_entries[ob]);
    }
    assert forall|a: int| 0 <= a < new_entries.len() implies is_live(
        new_regions,
        (#[trigger] new_entries[a]).1 as int,
    ) && new_entries[a].0.len() <= region_bytes(new_regions, new_entries[a].1 as int).len() by {
        let oa = if a < i { a } else { a + 1 };
        assert(new_entries[a] == old_entries[oa]);
        assert(old_entries[oa].1 != removed_id);
        assert(new_regions[old_entries[oa].1 as int] == old_regions[old_entries[oa].1 as int]);
    }
}

/// Setting a key and then getting it back yields exactly the value that
/// was written, for any key and value within the size caps.
pub proof fn lemma_set_then_get(s: StoreView, k: Seq<u8>, v: Seq<u8>)
    requires
        view_wf(s),
        k.len() <= MAX_KEY_SIZE,
        v.len() <= MAX_VALUE_SIZE,
    ensures
        spec_kv_get(spec_kv_set(s, k, v), k) == Some(v),
{
    let s1 = spec_kv_set(s, k, v);
    assert(s1.locs[k] == s.regions.len());
    assert(region_bytes(s1.regions, s.regions.len() as int) == k + v);
    assert(spec_kv_value(s1, k) =~= v);
}

/// Overwriting a key yields the new value on the next get, and the
/// region that backed the old value is tombstoned, so direct access to
/// its old id fails from then on.
pub proof fn lemma_overwrite_frees_old_region(s: StoreView, k: Seq<u8>, v1: Seq<u8>, v2: Seq<u8>)
    requires
        view_wf(s),
        k.len() <= MAX_KEY_SIZE,
        v1.len() <= MAX_VALUE_SIZE,
        v2.len() <= MAX_VALUE_SIZE,
    ensures
        ({
            let s1 = spec_kv_set(s, k, v1);
            let s2 = spec_kv_set(s1, k, v2);
            spec_kv_get(s2, k) == Some(v2) && !is_live(s2.regions, s1.locs[k] as int)
        }),
{
    let s1 = spec_kv_set(s, k, v1);
    let s2 = spec_kv_set(s1, k, v2);
    let id1 = s.regions.len();
    assert(s1.locs[k] == id1);
    assert(s2.regions[id1 as int] is None);
    assert(s2.locs[k] == s1.regions.len());
    assert(region_bytes(s2.regions, s1.regions.len() as int) == k + v2);
    assert(spec_kv_value(s2, k) =~= v2);
}

/// Deleting a key leaves nothing to get: after a delete, a get of the
/// same key answers `None`.
pub proof fn lemma_delete_then_get(s: StoreView, k: Seq<u8>)
    ensures
        spec_kv_get(spec_kv_delete(s, k), k) == None::<Seq<u8>>,
{
}

} // verus!

