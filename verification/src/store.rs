//! The store: a map from key to entry, held in a sharded concurrent map.

use vstd::prelude::*;
use dashmap::DashMap;
use crate::clock::now_nanos;
use crate::entry::is_expired;
use crate::entry::Value;

verus! {

/// `dashmap::DashMap`, carried through as an opaque value.
#[verifier::external_type_specification]
#[verifier::external_body]
#[verifier::reject_recursive_types(K)]
#[verifier::reject_recursive_types(V)]
#[verifier::reject_recursive_types(S)]
pub struct ExDashMap<K, V, S>(DashMap<K, V, S>);

/// What a map of entries holds: for each key's characters, the entry's text
/// and insertion timestamp.
pub uninterp spec fn entries_of(m: DashMap<String, Value>) -> Map<Seq<char>, (Seq<char>, u128)>;

/// The entries of `m` that have not expired at `now` under `ttl`.
pub open spec fn unexpired(m: Map<Seq<char>, (Seq<char>, u128)>, now: u128, ttl: u128) -> Map<
    Seq<char>,
    (Seq<char>, u128),
> {
    Map::new(|k: Seq<char>| m.contains_key(k) && !is_expired(m[k].1, now, ttl), |k: Seq<char>| m[k])
}

/// The map without any entry.
pub open spec fn no_entries() -> Map<Seq<char>, (Seq<char>, u128)> {
    Map::empty()
}

/// Calls `DashMap::new`: the new map holds nothing.
#[verifier::external_body]
fn map_new() -> (m: DashMap<String, Value>)
    ensures
        entries_of(m) == no_entries(),
{
    DashMap::new()
}

/// `n` counts the keys of `m`, which are finitely many.
pub open spec fn is_count_of(n: usize, m: Map<Seq<char>, (Seq<char>, u128)>) -> bool {
    m.dom().finite() && n == m.dom().len()
}

/// Calls `DashMap::len`: the number of keys held. A map in memory holds
/// finitely many.
#[verifier::external_body]
fn map_len(m: &DashMap<String, Value>) -> (n: usize)
    ensures
        is_count_of(n, entries_of(*m)),
{
    m.len()
}

/// Calls `DashMap::get` and clones the entry found: `Some` of the entry under
/// `key` where the map holds the key, `None` where it does not.
#[verifier::external_body]
fn map_get(m: &DashMap<String, Value>, key: &str) -> (r: Option<Value>)
    ensures
        r.is_some() == entries_of(*m).contains_key(key@),
        r.is_some() ==> r.unwrap()@ == entries_of(*m)[key@],
{
    match m.get(key) {
        Some(found) => Some(found.value().clone()),
        None => None,
    }
}

/// Calls `DashMap::insert`: afterwards `key` maps to `value`, replacing any
/// entry it had, and every other key is as before.
#[verifier::external_body]
fn map_insert(m: &mut DashMap<String, Value>, key: String, value: Value)
    ensures
        entries_of(*final(m)) == entries_of(*old(m)).insert(key@, value@),
{
    m.insert(key, value);
}

/// Calls `DashMap::retain` with the test "has not expired at `now` under
/// `ttl`": exactly the entries that pass stay, unchanged.
#[verifier::external_body]
fn map_retain_unexpired(m: &mut DashMap<String, Value>, now: u128, ttl: u128)
    ensures
        entries_of(*final(m)) == unexpired(entries_of(*old(m)), now, ttl),
{
    m.retain(|_, v| !v.expired_at(now, ttl));
}

/// The cache's store. Keys are texts; each maps to one entry.
///
/// Operations that change the store take it exclusively, so that their
/// contracts can say what it holds afterwards. Callers that share one store
/// between tasks put it behind a lock.
pub struct Store {
    map: DashMap<String, Value>,
}

impl View for Store {
    type V = Map<Seq<char>, (Seq<char>, u128)>;

    closed spec fn view(&self) -> Map<Seq<char>, (Seq<char>, u128)> {
        entries_of(self.map)
    }
}

impl Store {
    /// An empty store.
    pub fn new() -> (s: Store)
        ensures
            s@ == no_entries(),
    {
        Store { map: map_new() }
    }

    /// The entry under `key`, if one is resident. Age is not looked at: an
    /// entry that has expired but was not swept yet is returned.
    pub fn get(&self, key: &str) -> (r: Option<Value>)
        ensures
            r.is_some() == self@.contains_key(key@),
            r.is_some() ==> r.unwrap()@ == self@[key@],
    {
        map_get(&self.map, key)
    }

    /// Writes `value` under `key` with the timestamp `now`, replacing any
    /// entry the key had.
    pub fn put_at(&mut self, key: String, value: String, now: u128)
        ensures
            final(self)@ == old(self)@.insert(key@, (value@, now)),
    {
        map_insert(&mut self.map, key, Value::at(value, now));
    }

    /// Writes `value` under `key`, stamped with the current wall-clock time.
    /// What it does is what `put_at` does for some reading of the clock.
    pub fn put(&mut self, key: String, value: String)
        ensures
            exists|now: u128| final(self)@ == #[trigger] old(self)@.insert(key@, (value@, now)),
    {
        let now = now_nanos();
        self.put_at(key, value, now);
    }

    /// The number of resident entries, expired ones that were not swept yet
    /// included.
    pub fn size(&self) -> (n: usize)
        ensures
            self@.dom().finite(),
            n == self@.dom().len(),
    {
        map_len(&self.map)
    }

    /// Removes every entry that has expired at `now` under `ttl`, keeps all
    /// others unchanged, and returns how many were removed.
    pub fn retain_unexpired(&mut self, now: u128, ttl: u128) -> (removed: usize)
        ensures
            final(self)@ == unexpired(old(self)@, now, ttl),
            old(self)@.dom().finite(),
            removed == old(self)@.dom().len() - final(self)@.dom().len(),
            removed == old(self)@.dom().filter(
                |k: Seq<char>| is_expired(old(self)@[k].1, now, ttl),
            ).len(),
    {
        let before = map_len(&self.map);
        map_retain_unexpired(&mut self.map, now, ttl);
        let after = map_len(&self.map);
        proof {
            lemma_sweep_counts(old(self)@, now, ttl);
        }
        before - after
    }
}

/// A sweep splits the keys of a finite map in two: those that stay and those
/// that expired. Their counts add up to the count before.
pub proof fn lemma_sweep_counts(m: Map<Seq<char>, (Seq<char>, u128)>, now: u128, ttl: u128)
    requires
        m.dom().finite(),
    ensures
        unexpired(m, now, ttl).dom().finite(),
        unexpired(m, now, ttl).dom().subset_of(m.dom()),
        unexpired(m, now, ttl).dom().len() <= m.dom().len(),
        m.dom().filter(|k: Seq<char>| is_expired(m[k].1, now, ttl)).len() == m.dom().len()
            - unexpired(m, now, ttl).dom().len(),
{
    let kept = unexpired(m, now, ttl).dom();
    let gone = m.dom().filter(|k: Seq<char>| is_expired(m[k].1, now, ttl));
    assert(kept.subset_of(m.dom()));
    vstd::set_lib::lemma_len_subset(kept, m.dom());
    assert(gone =~= m.dom().difference(kept));
    vstd::set_lib::lemma_set_difference_len(m.dom(), kept);
    assert(m.dom().intersect(kept) =~= kept);
}

} // verus!
