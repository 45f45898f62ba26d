//! The shared cache as this library sees it: why it can fail, and what a
//! cache with per-key expiry holds at a given instant.

use vstd::prelude::*;
use crate::text::join;

verus! {

/// Why the cache could not be used.
#[derive(Debug, Clone)]
pub enum CacheError {
    Connection(String),
    SetKey(String),
}

pub enum CacheErrorView {
    Connection(Seq<char>),
    SetKey(Seq<char>),
}

impl View for CacheError {
    type V = CacheErrorView;

    open spec fn view(&self) -> CacheErrorView {
        match self {
            CacheError::Connection(m) => CacheErrorView::Connection(m@),
            CacheError::SetKey(m) => CacheErrorView::SetKey(m@),
        }
    }
}

impl CacheErrorView {
    /// The text shown for the error.
    pub open spec fn message(self) -> Seq<char> {
        match self {
            CacheErrorView::Connection(m) => "Fail to connect: "@ + m,
            CacheErrorView::SetKey(m) => "Fail to set key: "@ + m,
        }
    }
}

impl CacheError {
    /// The text shown for the error.
    pub fn message(&self) -> (r: String)
        ensures
            r@ == self@.message(),
    {
        match self {
            CacheError::Connection(m) => join("Fail to connect: ", m.as_str()),
            CacheError::SetKey(m) => join("Fail to set key: ", m.as_str()),
        }
    }
}

pub type CacheResult<T> = Result<T, CacheError>;

/// A value in the cache and the instant from which it is no longer read.
pub struct CachedToken {
    pub value: Seq<char>,
    pub expires_at: int,
}

/// What a cache with per-key expiry holds.
pub struct CacheModel {
    pub entries: Map<Seq<char>, CachedToken>,
}

impl CacheModel {
    /// The cache after `value` was set under `key` at the instant `now`, to
    /// live for `ttl` seconds.
    pub open spec fn set(self, key: Seq<char>, value: Seq<char>, ttl: int, now: int) -> CacheModel {
        CacheModel { entries: self.entries.insert(key, CachedToken { value, expires_at: now + ttl }) }
    }

    /// What a reader finds under `key` at the instant `now`: the value, as
    /// long as it has not expired.
    pub open spec fn get(self, key: Seq<char>, now: int) -> Option<Seq<char>> {
        if self.entries.contains_key(key) && now < self.entries[key].expires_at {
            Some(self.entries[key].value)
        } else {
            None
        }
    }
}

/// A value that was set is read back until its time to live has passed, and
/// not after; other keys are not touched.
pub proof fn lemma_cache_round_trip(
    cache: CacheModel,
    key: Seq<char>,
    value: Seq<char>,
    ttl: int,
    now: int,
    later: int,
    other: Seq<char>,
)
    requires
        ttl > 0,
    ensures
        cache.set(key, value, ttl, now).get(key, now) == Some(value),
        now <= later < now + ttl ==> cache.set(key, value, ttl, now).get(key, later) == Some(value),
        later >= now + ttl ==> cache.set(key, value, ttl, now).get(key, later) is None,
        other != key ==> cache.set(key, value, ttl, now).get(other, later) == cache.get(other, later),
{
}

} // verus!
