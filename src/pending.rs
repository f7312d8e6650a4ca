//! The pending-auth cache: secrets generated when a login flow starts, kept under
//! a correlation key until the callback takes them or they expire.

use vstd::prelude::*;

verus! {

/// Seconds a pending flow stays reachable after it was stored.
pub const PENDING_TTL_SECS: u64 = 120;

/// Number of pending flows the cache holds at most.
pub const PENDING_CAPACITY: u64 = 100;

/// The longest time-to-live a moka cache accepts: 1000 years of 365 days.
pub const MAX_TTL_SECS: u64 = 1000 * 365 * 24 * 3600;

/// The secrets of one login flow, stored when it is initiated.
#[derive(Clone, Debug)]
pub struct SSOSessionData {
    /// The PKCE code verifier.
    pub pkce_challenge: String,
    pub nonce: String,
    /// The anti-forgery token that must come back as the callback's `state`.
    pub csrf_token: String,
    pub return_to: Option<String>,
    /// When the flow was stored, in seconds.
    pub created_at: u64,
}

impl SSOSessionData {
    /// Whether the flow is past its time-to-live at `now`.
    pub open spec fn expired_at(self, now: u64, ttl: u64) -> bool {
        now as int >= self.created_at as int + ttl as int
    }
}

#[verifier::external_type_specification]
#[verifier::external_body]
#[verifier::reject_recursive_types(K)]
#[verifier::reject_recursive_types(V)]
#[verifier::reject_recursive_types(S)]
pub struct ExCache<K, V, S>(moka::sync::Cache<K, V, S>);

/// The moka cache that holds pending flows by correlation key.
pub type FlowCache = moka::sync::Cache<u128, SSOSessionData>;

/// The flows that a moka cache may still hand out, by key: the last value inserted
/// under each key and not removed since. Entries may leave earlier (time-to-live,
/// capacity), never otherwise.
pub uninterp spec fn cache_entries(c: FlowCache) -> Map<u128, SSOSessionData>;

/// The number of entries a moka cache was built to hold at most.
pub uninterp spec fn cache_capacity(c: FlowCache) -> u64;

/// Relies on moka's `CacheBuilder::{time_to_live, max_capacity, build}`: a new cache
/// holds nothing and keeps the capacity it was built with; `build` panics on a
/// time-to-live above 1000 years.
#[verifier::external_body]
fn new_moka_cache(ttl_secs: u64, capacity: u64) -> (r: FlowCache)
    requires
        ttl_secs <= MAX_TTL_SECS,
    ensures
        cache_entries(r).dom() == Set::<u128>::empty(),
        cache_capacity(r) == capacity,
{
    moka::sync::Cache::builder()
        .time_to_live(std::time::Duration::from_secs(ttl_secs))
        .max_capacity(capacity)
        .build()
}

/// Relies on moka's `Cache::insert`: the value replaces any earlier one under the key.
#[verifier::external_body]
fn moka_insert(c: &mut FlowCache, key: u128, value: SSOSessionData)
    ensures
        cache_entries(*final(c)) == cache_entries(*old(c)).insert(key, value),
        cache_capacity(*final(c)) == cache_capacity(*old(c)),
{
    c.insert(key, value)
}

/// Relies on moka's `Cache::remove`: it hands out the value under the key, if the
/// cache still holds one, and the key holds nothing afterwards.
#[verifier::external_body]
fn moka_remove(c: &mut FlowCache, key: u128) -> (r: Option<SSOSessionData>)
    ensures
        cache_entries(*final(c)) == cache_entries(*old(c)).remove(key),
        cache_capacity(*final(c)) == cache_capacity(*old(c)),
        r matches Some(v) ==> cache_entries(*old(c)).contains_key(key) && v == cache_entries(*old(c))[key],
{
    c.remove(&key)
}

/// A time- and capacity-bounded store of pending flows, one per correlation key.
pub struct PendingAuthCache {
    inner: FlowCache,
    ttl_secs: u64,
}

impl PendingAuthCache {
    /// The flows that the cache may still hand out.
    pub closed spec fn entries(&self) -> Map<u128, SSOSessionData> {
        cache_entries(self.inner)
    }

    pub closed spec fn ttl(&self) -> u64 {
        self.ttl_secs
    }

    /// The number of flows the cache holds at most.
    pub closed spec fn capacity(&self) -> u64 {
        cache_capacity(self.inner)
    }

    /// A cache whose entries live `ttl_secs` seconds, holding at most `capacity` of them.
    pub fn new(ttl_secs: u64, capacity: u64) -> (r: Self)
        requires
            ttl_secs <= MAX_TTL_SECS,
        ensures
            r.entries().dom() == Set::<u128>::empty(),
            r.ttl() == ttl_secs,
            r.capacity() == capacity,
    {
        PendingAuthCache { inner: new_moka_cache(ttl_secs, capacity), ttl_secs }
    }

    /// Stores `session` under `key`, replacing any flow stored there before.
    pub fn put(&mut self, key: u128, session: SSOSessionData)
        ensures
            final(self).entries() == old(self).entries().insert(key, session),
            final(self).ttl() == old(self).ttl(),
            final(self).capacity() == old(self).capacity(),
    {
        moka_insert(&mut self.inner, key, session)
    }

    /// Removes the flow under `key` and hands it out, unless it is past its
    /// time-to-live at `now`. A flow is never handed out twice. What moka hands back is
    /// filtered by `fresh_session`.
    pub fn take(&mut self, key: u128, now: u64) -> (r: Option<SSOSessionData>)
        ensures
            final(self).entries() == old(self).entries().remove(key),
            final(self).ttl() == old(self).ttl(),
            final(self).capacity() == old(self).capacity(),
            !old(self).entries().contains_key(key) ==> r is None,
            old(self).entries().contains_key(key) && old(self).entries()[key].expired_at(now, old(self).ttl())
                ==> r is None,
            r matches Some(s) ==> old(self).entries().contains_key(key) && s == old(self).entries()[key]
                && !s.expired_at(now, old(self).ttl()),
    {
        let found = moka_remove(&mut self.inner, key);
        fresh_session(found, now, self.ttl_secs)
    }
}

/// The session as a callback at `now` may use it: none, if it is past `ttl`.
pub open spec fn fresh(found: Option<SSOSessionData>, now: u64, ttl: u64) -> Option<SSOSessionData> {
    match found {
        Some(s) => if s.expired_at(now, ttl) { None } else { Some(s) },
        None => None,
    }
}

/// Drops a session that is past its time-to-live at `now`.
pub fn fresh_session(found: Option<SSOSessionData>, now: u64, ttl: u64) -> (r: Option<SSOSessionData>)
    ensures
        r == fresh(found, now, ttl),
{
    match found {
        Some(s) => {
            if now >= s.created_at && now - s.created_at >= ttl {
                None
            } else {
                Some(s)
            }
        },
        None => None,
    }
}

} // verus!
