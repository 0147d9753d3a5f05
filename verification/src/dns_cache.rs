//! The DNS resolution cache: a bounded, TTL-expiring map from
//! `host:port` keys to the ordered list of addresses the resolver
//! returned. The map itself is moka's synchronous cache, held behind
//! trusted wrappers; the key construction and the hit/miss reading of
//! its answers are verified. The resolver call itself is I/O and is
//! made by the caller, who stores its result here.

use vstd::prelude::*;
use crate::numfmt::{dec_of, push_dec};

verus! {

/// One resolved socket address as plain integers: the family, the
/// address (an IPv4 address sits in the low 32 bits, big-endian), and
/// the port.
#[derive(Debug, Clone, Copy, PartialEq, Eq, Structural)]
pub struct ResolvedAddr {
    pub is_v4: bool,
    pub ip: u128,
    pub port: u16,
}

/// The backing store. moka's cache mutates through `&self`, so the
/// handle is kept behind `&mut` wrappers that track its contents.
#[verifier::external_body]
pub struct AddrStore {
    inner: moka::sync::Cache<std::vec::Vec<u8>, std::vec::Vec<ResolvedAddr>>,
}

/// What the store holds, keyed by the cache key's bytes. Expiry and
/// eviction may silently drop an entry, so a lookup promises a value
/// from this map or nothing.
pub uninterp spec fn cache_entries(s: AddrStore) -> Map<Seq<u8>, Seq<ResolvedAddr>>;

/// A map with nothing in it.
pub open spec fn no_cached_entries(m: Map<Seq<u8>, Seq<ResolvedAddr>>) -> bool {
    m =~= Map::empty()
}

/// The longest time to live the backing cache accepts: one thousand
/// years, in seconds. A longer one makes its builder panic.
pub const MAX_TTL_SECS: u64 = 31536000000;

/// Relies on moka's `Cache::builder`, `max_capacity`, `time_to_live`
/// and `build`: a freshly built cache holds no entries. `build`
/// panics when the time to live exceeds one thousand years, so such
/// values are excluded here.
#[verifier::external_body]
fn store_new(capacity: u64, ttl_secs: u64) -> (r: AddrStore)
    requires
        ttl_secs <= MAX_TTL_SECS,
    ensures
        no_cached_entries(cache_entries(r)),
{
    AddrStore {
        inner: moka::sync::Cache::builder().max_capacity(capacity).time_to_live(
            std::time::Duration::from_secs(ttl_secs),
        ).build(),
    }
}

/// Relies on moka's `Cache::get`: a hit returns the value that
/// `insert` stored under the key; after expiry or eviction the entry
/// is gone and the call returns `None` instead.
#[verifier::external_body]
fn store_get(s: &AddrStore, key: &Vec<u8>) -> (r: Option<Vec<ResolvedAddr>>)
    ensures
        r matches Some(v) ==> cache_entries(*s).contains_key(key@) && v@ == cache_entries(
            *s,
        )[key@],
{
    s.inner.get(key)
}

/// Relies on moka's `Cache::insert`: the value is stored under the
/// key, replacing any earlier value.
#[verifier::external_body]
fn store_insert(s: &mut AddrStore, key: Vec<u8>, value: Vec<ResolvedAddr>)
    ensures
        cache_entries(*final(s)) == cache_entries(*old(s)).insert(key@, value@),
{
    s.inner.insert(key, value);
}

/// The cache key for a lookup of `host` on `port`: the literal
/// concatenation `host:port`.
pub open spec fn key_of(host: Seq<u8>, port: u16) -> Seq<u8> {
    host + seq![58u8] + dec_of(port as nat)
}

/// Builds the `host:port` key text.
pub fn host_port_key(host: &Vec<u8>, port: u16) -> (r: Vec<u8>)
    ensures
        r@ == key_of(host@, port),
{
    let mut out = crate::ip_filter::copy_bytes(host);
    out.push(58);
    push_dec(&mut out, port);
    assert(out@ =~= key_of(host@, port));
    out
}

/// The shared DNS cache.
pub struct DnsCache {
    store: AddrStore,
}

impl DnsCache {
    /// The entries the cache may still answer from.
    pub closed spec fn entries(self) -> Map<Seq<u8>, Seq<ResolvedAddr>> {
        cache_entries(self.store)
    }

    /// A cache bounded by `max_capacity` whose entries live for
    /// `ttl_secs` after insertion. The time to live must not exceed
    /// `MAX_TTL_SECS`, the backing cache's limit.
    pub fn new(max_capacity: u64, ttl_secs: u64) -> (r: Self)
        requires
            ttl_secs <= MAX_TTL_SECS,
        ensures
            no_cached_entries(r.entries()),
    {
        DnsCache { store: store_new(max_capacity, ttl_secs) }
    }

    /// The defaults: ten thousand entries, five minutes to live.
    pub fn new_default() -> (r: Self)
        ensures
            no_cached_entries(r.entries()),
    {
        Self::new(10000, 300)
    }

    /// A cache hit for `host:port`, or `None` on a miss (never seen,
    /// expired, or evicted). A hit is exactly what was stored.
    pub fn lookup(&self, host: &Vec<u8>, port: u16) -> (r: Option<Vec<ResolvedAddr>>)
        ensures
            r matches Some(v) ==> self.entries().contains_key(key_of(host@, port)) && v@
                == self.entries()[key_of(host@, port)],
    {
        let key = host_port_key(host, port);
        store_get(&self.store, &key)
    }

    /// Stores a resolver's answer for `host:port`, replacing any
    /// earlier one.
    pub fn store_addrs(&mut self, host: &Vec<u8>, port: u16, addrs: Vec<ResolvedAddr>)
        ensures
            final(self).entries() == old(self).entries().insert(key_of(host@, port), addrs@),
    {
        let key = host_port_key(host, port);
        store_insert(&mut self.store, key, addrs);
    }
}

/// What is stored under a key is what a later hit on that key
/// returns: a round trip through the cache preserves the address
/// list and its order.
pub proof fn lemma_cache_round_trip(
    pre: DnsCache,
    post: DnsCache,
    host: Seq<u8>,
    port: u16,
    addrs: Seq<ResolvedAddr>,
)
    requires
        post.entries() == pre.entries().insert(key_of(host, port), addrs),
    ensures
        post.entries().contains_key(key_of(host, port)),
        post.entries()[key_of(host, port)] == addrs,
{
}

} // verus!
