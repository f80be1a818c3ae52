//! The parse cache: what each text of a batch was parsed to, so that a text
//! that comes again is not parsed again.
//!
//! A cache lives for one conversion. Its keys are borrowed from the column
//! that is being converted, so it cannot outlive that column, and the column
//! cannot change while the cache is there. It is only worth its hashing for a
//! batch of more than fifty values.

use polars_arrow::export::hashbrown::HashMap;
use polars_core::export::ahash::RandomState;
use vstd::prelude::*;

verus! {

/// The size that a batch must exceed for the cache to be used.
pub const CACHE_THRESHOLD: usize = 50;

/// A map from texts to what they were parsed to; an absent value records that
/// the text did not parse. The map is a `hashbrown::HashMap`, which Verus does
/// not look into: what it holds is named by `cache_entries`.
#[verifier::external_body]
pub struct ParseCache<'a> {
    map: HashMap<&'a str, Option<i64>, RandomState>,
}

/// What a cache holds: the texts that were stored, each with its value.
pub uninterp spec fn cache_entries(cache: ParseCache) -> Map<Seq<char>, Option<i64>>;

/// A cache that holds nothing.
pub open spec fn no_entries() -> Map<Seq<char>, Option<i64>> {
    Map::empty()
}

/// Whether a conversion uses the cache: it was asked for, and the batch is
/// larger than the threshold.
pub open spec fn cache_enabled_spec(requested: bool, batch: nat) -> bool {
    requested && batch > CACHE_THRESHOLD
}

/// Decides whether a conversion uses the cache.
pub fn cache_enabled(requested: bool, batch: usize) -> (r: bool)
    ensures
        r == cache_enabled_spec(requested, batch as nat),
{
    requested && batch > CACHE_THRESHOLD
}

impl<'a> ParseCache<'a> {
    /// Calls `HashMap::with_hasher`. Trusted: the new map holds nothing.
    #[verifier::external_body]
    fn empty() -> (cache: Self)
        ensures
            cache_entries(cache) == no_entries(),
    {
        ParseCache { map: HashMap::with_hasher(RandomState::new()) }
    }

    /// Calls `HashMap::get`. Trusted: it finds the value stored under a key
    /// that is this text, and nothing where no such key was stored.
    #[verifier::external_body]
    fn lookup(&self, key: &str) -> (found: Option<Option<i64>>)
        ensures
            found == (if cache_entries(*self).contains_key(key@) {
                Some(cache_entries(*self)[key@])
            } else {
                None
            }),
    {
        self.map.get(key).copied()
    }

    /// Calls `HashMap::insert`. Trusted: afterwards the map holds the value
    /// under the key, and every other key as before.
    #[verifier::external_body]
    fn store(&mut self, key: &'a str, value: Option<i64>)
        ensures
            cache_entries(*final(self)) == cache_entries(*old(self)).insert(key@, value),
    {
        self.map.insert(key, value);
    }

    /// Calls `HashMap::len`. Trusted: it is the number of keys.
    #[verifier::external_body]
    fn count(&self) -> (n: usize)
        ensures
            cache_entries(*self).dom().finite() ==> n == cache_entries(*self).dom().len(),
    {
        self.map.len()
    }

    /// A cache that holds nothing.
    pub fn new() -> (cache: Self)
        ensures
            cache_entries(cache) == no_entries(),
            cache_entries(cache).dom().finite(),
    {
        Self::empty()
    }

    /// The number of texts that the cache holds.
    pub fn len(&self) -> (n: usize)
        ensures
            cache_entries(*self).dom().finite() ==> n == cache_entries(*self).dom().len(),
    {
        self.count()
    }

    /// The value stored for a text, if the text was stored.
    pub fn get(&self, key: &str) -> (found: Option<Option<i64>>)
        ensures
            found == (if cache_entries(*self).contains_key(key@) {
                Some(cache_entries(*self)[key@])
            } else {
                None
            }),
    {
        self.lookup(key)
    }

    /// The value of a text: the stored one where the text was seen before,
    /// else what `compute` returns, which is then stored. `compute` runs only
    /// for a text that was not seen before.
    pub fn get_or_parse<F: FnOnce() -> Option<i64>>(&mut self, key: &'a str, compute: F) -> (value:
        Option<i64>)
        requires
            compute.requires(()),
        ensures
            cache_entries(*old(self)).contains_key(key@) ==> value == cache_entries(*old(self))[key@]
                && cache_entries(*final(self)) == cache_entries(*old(self)),
            !cache_entries(*old(self)).contains_key(key@) ==> compute.ensures((), value)
                && cache_entries(*final(self)) == cache_entries(*old(self)).insert(key@, value),
            cache_entries(*old(self)).dom().finite() ==> cache_entries(*final(self)).dom().finite(),
    {
        match self.lookup(key) {
            Some(value) => value,
            None => {
                let value = compute();
                self.store(key, value);
                value
            },
        }
    }
}

} // verus!
