//! The cache of synthesized audio, keyed by a hash of text and voice.

use lru::LruCache;
use vstd::prelude::*;
use vstd::string::StringSliceAdditionalSpecFns;

verus! {

#[verifier::external_type_specification]
#[verifier::external_body]
#[verifier::reject_recursive_types(K)]
#[verifier::reject_recursive_types(V)]
#[verifier::reject_recursive_types(S)]
pub struct ExLruCache<K, V, S>(lru::LruCache<K, V, S>);

#[verifier::external_type_specification]
#[verifier::external_body]
pub struct ExLruHasher(lru::DefaultHasher);

/// What an LRU cache holds: its entries by key.
pub uninterp spec fn lru_entries(c: LruCache<u64, Vec<u8>>) -> Map<u64, Seq<u8>>;

/// The capacity an LRU cache was made with.
pub uninterp spec fn lru_cap(c: LruCache<u64, Vec<u8>>) -> nat;

/// The xxHash64 digest of the bytes under the seed, as `xxhash_rust`
/// computes it.
pub uninterp spec fn xxh64_of(data: Seq<u8>, seed: u64) -> u64;

/// `LruCache::new` with `NonZeroUsize::new(cap)`: an empty cache of that
/// capacity.
#[verifier::external_body]
fn lru_new(cap: usize) -> (c: LruCache<u64, Vec<u8>>)
    requires
        cap > 0,
    ensures
        lru_entries(c).dom().is_empty(),
        lru_cap(c) == cap,
{
    LruCache::new(std::num::NonZeroUsize::new(cap).unwrap())
}

/// `LruCache::get` then a clone of the value: the entry under the key, if
/// any. It only moves the entry to the front of the recency order, so the
/// entries stay as they were.
#[verifier::external_body]
fn lru_get(c: &mut LruCache<u64, Vec<u8>>, key: u64) -> (r: Option<Vec<u8>>)
    ensures
        lru_entries(*final(c)) == lru_entries(*old(c)),
        lru_cap(*final(c)) == lru_cap(*old(c)),
        match r {
            Some(v) => lru_entries(*old(c)).contains_key(key) && lru_entries(*old(c))[key] == v@,
            None => !lru_entries(*old(c)).contains_key(key),
        },
{
    c.get(&key).cloned()
}

/// `LruCache::put`: stores the value under the key. A key already present
/// gets the new value; a new key is added, and when the cache is full one
/// other entry (the least recently used) is evicted first. Which one that
/// is depends on the order of use, which the contract does not track.
#[verifier::external_body]
fn lru_put(c: &mut LruCache<u64, Vec<u8>>, key: u64, v: Vec<u8>)
    ensures
        lru_cap(*final(c)) == lru_cap(*old(c)),
        lru_entries(*old(c)).contains_key(key) || lru_entries(*old(c)).len() < lru_cap(*old(c))
            ==> lru_entries(*final(c)) == lru_entries(*old(c)).insert(key, v@),
        !lru_entries(*old(c)).contains_key(key) && lru_entries(*old(c)).len() >= lru_cap(*old(c))
            ==> exists|e: u64| #[trigger]
            lru_entries(*old(c)).contains_key(e) && lru_entries(*final(c)) == lru_entries(
                *old(c),
            ).remove(e).insert(key, v@),
{
    c.put(key, v);
}

/// `xxhash_rust::xxh64::xxh64`.
#[verifier::external_body]
fn xxh64_hash(data: &[u8], seed: u64) -> (r: u64)
    ensures
        r == xxh64_of(data@, seed),
{
    xxhash_rust::xxh64::xxh64(data, seed)
}

/// The bytes hashed for a cache key: the text's UTF-8 bytes, a zero byte,
/// and the voice id's bytes.
pub open spec fn key_bytes(text: Seq<u8>, voice_id: Seq<u8>) -> Seq<u8> {
    text.push(0u8) + voice_id
}

/// An LRU cache of synthesized audio.
pub struct AudioCache {
    inner: LruCache<u64, Vec<u8>>,
}

impl AudioCache {
    /// The cached entries.
    pub closed spec fn entries(&self) -> Map<u64, Seq<u8>> {
        lru_entries(self.inner)
    }

    /// The number of entries the cache keeps.
    pub closed spec fn capacity(&self) -> nat {
        lru_cap(self.inner)
    }

    /// An empty cache keeping `capacity` entries (at least one).
    pub fn new(capacity: usize) -> (c: Self)
        ensures
            c.entries().dom().is_empty(),
            c.capacity() == if capacity < 1 {
                1
            } else {
                capacity
            },
    {
        let cap = if capacity < 1 {
            1
        } else {
            capacity
        };
        AudioCache { inner: lru_new(cap) }
    }

    /// The cache key of a text spoken in a voice.
    pub fn make_key(text: &str, voice_id: &str) -> (k: u64)
        ensures
            k == xxh64_of(key_bytes(text.spec_bytes(), voice_id.spec_bytes()), 0),
    {
        let t = text.as_bytes();
        let v = voice_id.as_bytes();
        let mut data: Vec<u8> = Vec::new();
        let mut i: usize = 0;
        while i < t.len()
            invariant
                i <= t@.len(),
                data@ =~= t@.take(i as int),
            decreases t@.len() - i,
        {
            data.push(t[i]);
            i = i + 1;
        }
        data.push(0);
        let mut j: usize = 0;
        while j < v.len()
            invariant
                j <= v@.len(),
                data@ =~= t@.push(0u8) + v@.take(j as int),
            decreases v@.len() - j,
        {
            data.push(v[j]);
            j = j + 1;
        }
        assert(v@.take(v@.len() as int) =~= v@);
        xxh64_hash(data.as_slice(), 0)
    }

    /// The cached audio under a key, if any.
    pub fn get(&mut self, key: u64) -> (r: Option<Vec<u8>>)
        ensures
            final(self).entries() == old(self).entries(),
            final(self).capacity() == old(self).capacity(),
            match r {
                Some(v) => old(self).entries().contains_key(key) && old(self).entries()[key] == v@,
                None => !old(self).entries().contains_key(key),
            },
    {
        lru_get(&mut self.inner, key)
    }

    /// Cache audio under a key. The entry is there afterwards; every other
    /// entry keeps its value or is the one evicted to make room.
    pub fn insert(&mut self, key: u64, bytes: Vec<u8>)
        ensures
            final(self).capacity() == old(self).capacity(),
            final(self).entries().contains_key(key),
            final(self).entries()[key] == bytes@,
            forall|k: u64|
                #[trigger] final(self).entries().contains_key(k) && k != key ==> old(
                    self,
                ).entries().contains_key(k) && final(self).entries()[k] == old(self).entries()[k],
            old(self).entries().contains_key(key) || old(self).entries().len() < old(self).capacity()
                ==> final(self).entries() == old(self).entries().insert(key, bytes@),
    {
        let ghost b = bytes@;
        lru_put(&mut self.inner, key, bytes);
        proof {
            let o = lru_entries(old(self).inner);
            let n = lru_entries(self.inner);
            if !(o.contains_key(key) || o.len() < lru_cap(old(self).inner)) {
                let e = choose|e: u64| o.contains_key(e) && n == o.remove(e).insert(key, b);
                assert(n == o.remove(e).insert(key, b));
            }
        }
    }
}

} // verus!
