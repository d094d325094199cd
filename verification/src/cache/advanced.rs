//! The in-memory layer of the cache: entries with sizes and expiry times, a
//! recency order, a byte count, and eviction by recency or by expiry.
//!
//! Times are milliseconds on the caller's monotonic clock; the caller reads
//! the clock and hands the reading in.

use vstd::prelude::*;
use std::time::Duration;
use crate::error::{ClaudeError, Result};
use crate::keyed::{unique_keys, key_map, lemma_key_at, lemma_key_update, lemma_key_push,
    lemma_key_remove, lemma_key_map_len, find_key, no_dups, without_key, remove_key,
    lemma_without_sub};
use crate::text::string_views;

verus! {

/// `Duration` is `Copy`; its `clone` (std) gives back the same duration.
pub assume_specification[ <Duration as Clone>::clone ](d: &Duration) -> (r: Duration)
    ensures
        r == *d,
;

/// 缓存优先级
#[derive(Debug, Clone, Copy, PartialEq, Eq, Structural, PartialOrd, Ord)]
pub enum CachePriority {
    Low,
    Normal,
    High,
    Critical,
}

/// 缓存策略
#[derive(Debug, Clone)]
pub struct CacheStrategy {
    /// 最大内存使用（字节）
    pub max_memory_bytes: usize,
    /// 默认 TTL
    pub default_ttl: Duration,
    /// 淘汰策略
    pub eviction_policy: EvictionPolicy,
    /// 压缩阈值
    pub compression_threshold: usize,
    /// 预热策略
    pub warmup_strategy: WarmupStrategy,
}

/// 淘汰策略
#[derive(Debug, Clone)]
pub enum EvictionPolicy {
    /// 最近最少使用
    LRU,
    /// 最不经常使用
    LFU,
    /// 先进先出
    FIFO,
    /// 基于 TTL
    TTL,
    /// 自定义策略
    Custom(String),
}

/// 预热策略
#[derive(Debug, Clone)]
pub struct WarmupStrategy {
    /// 是否启用预热
    pub enabled: bool,
    /// 预热数据源
    pub data_sources: Vec<String>,
    /// 预热优先级
    pub priority_keys: Vec<String>,
}

/// A cached value with its bookkeeping.
#[derive(Debug, Clone)]
pub struct CacheEntry<T> {
    /// The value.
    pub value: T,
    /// When it was stored.
    pub created_at: u64,
    /// When it was last read.
    pub last_accessed: u64,
    /// How often it was read.
    pub access_count: u64,
    /// When it stops being valid, if ever.
    pub expires_at: Option<u64>,
    /// Its priority.
    pub priority: CachePriority,
    /// Its tags.
    pub tags: Vec<String>,
    /// Its size in bytes.
    pub size: usize,
}

/// An entry has expired at `now` when its expiry time lies before `now`.
pub open spec fn is_expired<T>(e: CacheEntry<T>, now: u64) -> bool {
    e.expires_at matches Some(t) && now > t
}

/// An entry after a read at `now`.
pub open spec fn touched(e: CacheEntry<Vec<u8>>, now: u64) -> CacheEntry<Vec<u8>> {
    CacheEntry { last_accessed: now, access_count: (e.access_count + 1) as u64, ..e }
}

/// The entry that storing `bytes` at `now` with an optional lifetime makes.
pub open spec fn fresh_entry(e: CacheEntry<Vec<u8>>, bytes: Seq<u8>, ttl_ms: Option<u64>, now: u64) -> bool {
    &&& e.value@ == bytes
    &&& e.created_at == now
    &&& e.last_accessed == now
    &&& e.access_count == 0
    &&& e.expires_at == match ttl_ms { Some(d) => Some((now + d) as u64), None => None::<u64> }
    &&& e.priority == CachePriority::Normal
    &&& e.tags@.len() == 0
    &&& e.size == bytes.len()
}

/// What a memory cache holds: its entries by key, the recency order of keys
/// (least recent first), and the byte count it keeps.
pub struct MemoryCacheModel {
    pub entries: Map<Seq<char>, CacheEntry<Vec<u8>>>,
    pub order: Seq<Seq<char>>,
    pub usage: nat,
}

/// The model after deleting `k`: a present entry leaves the entries and the
/// order, and its size leaves the byte count; an absent key changes nothing.
pub open spec fn delete_model(m: MemoryCacheModel, k: Seq<char>) -> MemoryCacheModel {
    if m.entries.contains_key(k) {
        MemoryCacheModel {
            entries: m.entries.remove(k),
            order: without_key(m.order, k),
            usage: (m.usage - m.entries[k].size) as nat,
        }
    } else {
        m
    }
}

/// The model after deleting each of `ks` in turn.
pub open spec fn delete_all(m: MemoryCacheModel, ks: Seq<Seq<char>>) -> MemoryCacheModel
    decreases ks.len(),
{
    if ks.len() == 0 { m } else { delete_model(delete_all(m, ks.drop_last()), ks.last()) }
}

/// The keys that recency eviction picks: walking the order from the least
/// recent key, every key with an entry is picked and its size counted, until
/// the count reaches `needed`.
pub open spec fn lru_victims(order: Seq<Seq<char>>, entries: Map<Seq<char>, CacheEntry<Vec<u8>>>,
    needed: int, freed: int) -> Seq<Seq<char>>
    decreases order.len(),
{
    if order.len() == 0 {
        Seq::empty()
    } else if entries.contains_key(order[0]) {
        let f = freed + entries[order[0]].size;
        if f >= needed {
            seq![order[0]]
        } else {
            seq![order[0]] + lru_victims(order.drop_first(), entries, needed, f)
        }
    } else {
        lru_victims(order.drop_first(), entries, needed, freed)
    }
}

/// The keys in `order` whose entries have expired at `now`, in order.
pub open spec fn expired_keys(order: Seq<Seq<char>>, entries: Map<Seq<char>, CacheEntry<Vec<u8>>>,
    now: u64) -> Seq<Seq<char>>
    decreases order.len(),
{
    if order.len() == 0 {
        Seq::empty()
    } else {
        let r = expired_keys(order.drop_last(), entries, now);
        let k = order.last();
        if entries.contains_key(k) && is_expired(entries[k], now) { r.push(k) } else { r }
    }
}

/// The keys that eviction under `policy` removes to make room for `needed`
/// bytes at `now`. Only recency and expiry evict anything.
pub open spec fn eviction_victims(policy: EvictionPolicy, m: MemoryCacheModel, needed: nat, now: u64) -> Seq<Seq<char>> {
    match policy {
        EvictionPolicy::LRU => lru_victims(m.order, m.entries, needed as int, 0),
        EvictionPolicy::TTL => expired_keys(m.order, m.entries, now),
        _ => Seq::empty(),
    }
}

/// The model after eviction.
pub open spec fn after_eviction(policy: EvictionPolicy, m: MemoryCacheModel, needed: nat, now: u64) -> MemoryCacheModel {
    delete_all(m, eviction_victims(policy, m, needed, now))
}

/// What a write stores is what a later read gives back: the entry that
/// storing `bytes` at `now` makes holds `bytes` and has not expired at any
/// time `later` up to the end of its lifetime (or at any time, without one).
pub proof fn law_read_your_write(e: CacheEntry<Vec<u8>>, bytes: Seq<u8>, ttl_ms: Option<u64>, now: u64, later: u64)
    requires
        fresh_entry(e, bytes, ttl_ms, now),
        ttl_ms matches Some(d) ==> now + d <= u64::MAX && later <= now + d,
    ensures
        e.value@ == bytes,
        !is_expired(e, later),
{
}

/// Deleting a key leaves no entry under it, and leaves the other entries
/// as they were.
pub proof fn law_delete_forgets(m: MemoryCacheModel, k: Seq<char>, other: Seq<char>)
    requires
        other != k,
    ensures
        !delete_model(m, k).entries.contains_key(k),
        delete_model(m, k).entries.contains_key(other) == m.entries.contains_key(other),
        m.entries.contains_key(other) ==> delete_model(m, k).entries[other] == m.entries[other],
{
}

/// The sum of the sizes of a list of entries.
pub open spec fn total_size(s: Seq<(String, CacheEntry<Vec<u8>>)>) -> nat
    decreases s.len(),
{
    if s.len() == 0 { 0 } else { total_size(s.drop_last()) + s.last().1.size as nat }
}

proof fn lemma_total_concat(a: Seq<(String, CacheEntry<Vec<u8>>)>, b: Seq<(String, CacheEntry<Vec<u8>>)>)
    ensures
        total_size(a + b) == total_size(a) + total_size(b),
    decreases b.len(),
{
    if b.len() == 0 {
        assert(a + b =~= a);
    } else {
        lemma_total_concat(a, b.drop_last());
        assert((a + b).drop_last() =~= a + b.drop_last());
    }
}

proof fn lemma_total_split(s: Seq<(String, CacheEntry<Vec<u8>>)>, i: int)
    requires
        0 <= i < s.len(),
    ensures
        total_size(s) == total_size(s.take(i)) + s[i].1.size + total_size(s.skip(i + 1)),
{
    let one = seq![s[i]];
    assert(s =~= s.take(i) + one + s.skip(i + 1));
    lemma_total_concat(s.take(i) + one, s.skip(i + 1));
    lemma_total_concat(s.take(i), one);
    let e = Seq::<(String, CacheEntry<Vec<u8>>)>::empty();
    assert(total_size(e) == 0);
    assert(one.drop_last() =~= e);
    assert(total_size(one) == s[i].1.size);
}

proof fn lemma_total_remove(s: Seq<(String, CacheEntry<Vec<u8>>)>, i: int)
    requires
        0 <= i < s.len(),
    ensures
        total_size(s) == total_size(s.remove(i)) + s[i].1.size,
{
    lemma_total_split(s, i);
    assert(s.remove(i) =~= s.take(i) + s.skip(i + 1));
    lemma_total_concat(s.take(i), s.skip(i + 1));
}

proof fn lemma_total_update(s: Seq<(String, CacheEntry<Vec<u8>>)>, i: int, e: (String, CacheEntry<Vec<u8>>))
    requires
        0 <= i < s.len(),
    ensures
        total_size(s.update(i, e)) + s[i].1.size == total_size(s) + e.1.size,
{
    let t = s.update(i, e);
    lemma_total_split(s, i);
    lemma_total_split(t, i);
    assert(t.take(i) =~= s.take(i));
    assert(t.skip(i + 1) =~= s.skip(i + 1));
}

proof fn lemma_push_no_dups(s: Seq<Seq<char>>, x: Seq<char>)
    requires
        no_dups(s),
        !s.contains(x),
    ensures
        no_dups(s.push(x)),
{
    let t = s.push(x);
    assert forall|a: int, b: int| 0 <= a < b < t.len() implies t[a] != t[b] by {
        if b == s.len() {
            assert(t[a] == s[a]);
            assert(s.contains(s[a]));
        } else {
            assert(t[a] == s[a] && t[b] == s[b]);
        }
    }
}

/// A copy of a byte list.
fn copy_bytes(v: &[u8]) -> (r: Vec<u8>)
    ensures
        r@ == v@,
{
    let mut r: Vec<u8> = Vec::new();
    let mut i: usize = 0;
    while i < v.len()
        invariant
            i <= v@.len(),
            r@ == v@.take(i as int),
        decreases v.len() - i,
    {
        r.push(v[i]);
        i = i + 1;
        assert(r@ =~= v@.take(i as int));
    }
    assert(v@.take(v@.len() as int) =~= v@);
    r
}

/// Where every key of `ents` is in `ord`, every key left after deleting `k`
/// is in the order without `k`.
proof fn lemma_cover_delete(ents: Map<Seq<char>, CacheEntry<Vec<u8>>>, ord: Seq<Seq<char>>, k: Seq<char>)
    requires
        forall|x: Seq<char>| #[trigger] ents.contains_key(x) ==> ord.contains(x),
    ensures
        forall|x: Seq<char>| #[trigger] ents.remove(k).contains_key(x) ==> without_key(ord, k).contains(x),
{
    lemma_without_sub(ord, k);
}

/// Where every key of `ents` is in `ord`, every key after storing under `k`
/// is in the order with `k` moved to the end.
proof fn lemma_cover_touch(ents: Map<Seq<char>, CacheEntry<Vec<u8>>>, ord: Seq<Seq<char>>, k: Seq<char>, v: CacheEntry<Vec<u8>>)
    requires
        forall|x: Seq<char>| #[trigger] ents.contains_key(x) ==> ord.contains(x),
    ensures
        forall|x: Seq<char>| #[trigger] ents.insert(k, v).contains_key(x) ==> without_key(ord, k).push(k).contains(x),
{
    lemma_without_sub(ord, k);
    let w = without_key(ord, k);
    assert forall|x: Seq<char>| #[trigger] ents.insert(k, v).contains_key(x) implies w.push(k).contains(x) by {
        if x == k {
            assert(w.push(k)[w.len() as int] == k);
        } else {
            assert(ents.contains_key(x));
            assert(w.contains(x));
            let i = choose|i: int| 0 <= i < w.len() && w[i] == x;
            assert(w.push(k)[i] == x);
        }
    }
}

/// A cache of byte values held in memory.
pub struct MemoryCache {
    data: Vec<(String, CacheEntry<Vec<u8>>)>,
    access_order: Vec<String>,
    memory_usage: usize,
    config: CacheStrategy,
}

impl View for MemoryCache {
    type V = MemoryCacheModel;

    closed spec fn view(&self) -> MemoryCacheModel {
        MemoryCacheModel {
            entries: key_map(self.data@),
            order: string_views(self.access_order@),
            usage: self.memory_usage as nat,
        }
    }
}

impl MemoryCache {
    /// The strategy the cache was made with.
    pub closed spec fn strategy(&self) -> CacheStrategy {
        self.config
    }

    /// Keys are distinct, the recency order has no repeats and holds every
    /// stored key, and the byte count covers the sizes of the entries held.
    pub closed spec fn well_formed(&self) -> bool {
        &&& unique_keys(self.data@)
        &&& no_dups(string_views(self.access_order@))
        &&& forall|k: Seq<char>| #[trigger] key_map(self.data@).contains_key(k)
            ==> string_views(self.access_order@).contains(k)
        &&& total_size(self.data@) <= self.memory_usage
    }

    /// An empty cache with the given strategy.
    pub fn new(config: CacheStrategy) -> (c: MemoryCache)
        ensures
            c.well_formed(),
            c@.entries == Map::<Seq<char>, CacheEntry<Vec<u8>>>::empty(),
            c@.order == Seq::<Seq<char>>::empty(),
            c@.usage == 0,
            c.strategy() == config,
    {
        let c = MemoryCache { data: Vec::new(), access_order: Vec::new(), memory_usage: 0, config };
        assert(key_map(c.data@) =~= Map::<Seq<char>, CacheEntry<Vec<u8>>>::empty());
        assert(string_views(c.access_order@) =~= Seq::<Seq<char>>::empty());
        c
    }

    /// Appends `key` as the most recent key.
    fn mark_recent(&mut self, key: &str)
        requires
            no_dups(string_views(old(self).access_order@)),
        ensures
            string_views(final(self).access_order@) == without_key(string_views(old(self).access_order@), key@).push(key@),
            no_dups(string_views(final(self).access_order@)),
            final(self).data == old(self).data,
            final(self).memory_usage == old(self).memory_usage,
            final(self).config == old(self).config,
    {
        proof { lemma_without_sub(string_views(self.access_order@), key@); }
        remove_key(&mut self.access_order, key);
        let ghost before = string_views(self.access_order@);
        proof { lemma_push_no_dups(before, key@); }
        let k = String::from_str(key);
        self.access_order.push(k);
        assert(string_views(self.access_order@) =~= before.push(key@));
    }

    /// Reads the value under `key` at `now`. A missing key gives nothing; an
    /// expired entry leaves the cache as a deletion would (its bytes leave
    /// the count and its key the order) and gives nothing; otherwise the read is recorded, the key
    /// becomes the most recent, and a copy of the value comes back.
    pub fn get(&mut self, key: &str, now: u64) -> (res: Result<Option<Vec<u8>>>)
        requires
            old(self).well_formed(),
            old(self)@.entries.contains_key(key@) ==> old(self)@.entries[key@].access_count < u64::MAX,
        ensures
            final(self).well_formed(),
            final(self).strategy() == old(self).strategy(),
            !old(self)@.entries.contains_key(key@) ==> (res matches Ok(None) && final(self)@ == old(self)@),
            old(self)@.entries.contains_key(key@) && is_expired(old(self)@.entries[key@], now)
                ==> (res matches Ok(None) && final(self)@ == delete_model(old(self)@, key@)),
            old(self)@.entries.contains_key(key@) && !is_expired(old(self)@.entries[key@], now)
                ==> (res matches Ok(Some(v)) && v@ == old(self)@.entries[key@].value@
                    && final(self)@ == (MemoryCacheModel {
                        entries: old(self)@.entries.insert(key@, touched(old(self)@.entries[key@], now)),
                        order: without_key(old(self)@.order, key@).push(key@),
                        usage: old(self)@.usage,
                    })),
    {
        match find_key(&self.data, key) {
            None => Ok(None),
            Some(i) => {
                proof {
                    lemma_key_at(self.data@, i as int);
                    lemma_key_remove(self.data@, i as int);
                    lemma_total_remove(self.data@, i as int);
                }
                let expired = match self.data[i].1.expires_at {
                    Some(t) => now > t,
                    None => false,
                };
                if expired {
                    proof { lemma_cover_delete(self@.entries, self@.order, key@); }
                    let (_k, gone) = self.data.remove(i);
                    self.memory_usage = self.memory_usage - gone.size;
                    remove_key(&mut self.access_order, key);
                    return Ok(None);
                }
                let ghost before = self.data@;
                let (k, mut e) = self.data.remove(i);
                e.last_accessed = now;
                e.access_count = e.access_count + 1;
                let out = copy_bytes(e.value.as_slice());
                let ghost item = (k, e);
                self.data.insert(i, (k, e));
                proof {
                    assert(self.data@ =~= before.update(i as int, item));
                    lemma_key_update(before, i as int, item);
                    lemma_total_update(before, i as int, item);
                    assert(item.1 == touched(key_map(before)[key@], now));
                    lemma_cover_touch(key_map(before), string_views(self.access_order@), key@, item.1);
                    assert(key_map(before).insert(key@, item.1) =~= key_map(self.data@));
                }
                self.mark_recent(key);
                Ok(Some(out))
            },
        }
    }

    /// The keys that recency eviction picks for `needed` bytes.
    fn pick_lru(&self, needed: usize) -> (vs: Vec<String>)
        requires
            self.well_formed(),
        ensures
            string_views(vs@) == lru_victims(self@.order, self@.entries, needed as int, 0),
    {
        let ghost ord = self@.order;
        let ghost ents = self@.entries;
        let mut vs: Vec<String> = Vec::new();
        let mut freed: usize = 0;
        let ghost mut counted: int = 0;
        let mut done = false;
        let mut i: usize = 0;
        assert(ord.skip(0) =~= ord);
        assert(string_views(vs@) + lru_victims(ord, ents, needed as int, 0) =~= lru_victims(ord, ents, needed as int, 0));
        while i < self.access_order.len() && !done
            invariant
                self.well_formed(),
                ord == self@.order,
                ents == self@.entries,
                i <= ord.len(),
                counted >= 0,
                freed == (if counted > usize::MAX { usize::MAX as int } else { counted }),
                !done ==> string_views(vs@) + lru_victims(ord.skip(i as int), ents, needed as int, counted)
                    == lru_victims(ord, ents, needed as int, 0),
                done ==> string_views(vs@) == lru_victims(ord, ents, needed as int, 0),
            decreases self.access_order.len() - i,
        {
            let ghost rest = ord.skip(i as int);
            let ghost before = string_views(vs@);
            assert(rest[0] == ord[i as int]);
            assert(rest.drop_first() =~= ord.skip(i + 1));
            assert(ord[i as int] == self.access_order@[i as int]@);
            match find_key(&self.data, self.access_order[i].as_str()) {
                Some(j) => {
                    proof { lemma_key_at(self.data@, j as int); }
                    let size = self.data[j].1.size;
                    let k = self.access_order[i].clone();
                    vs.push(k);
                    freed = freed.saturating_add(size);
                    proof {
                        counted = counted + size;
                        assert(string_views(vs@) =~= before.push(ord[i as int]));
                    }
                    if freed >= needed {
                        done = true;
                        proof {
                            assert(lru_victims(rest, ents, needed as int, counted - size) == seq![ord[i as int]]);
                            assert(string_views(vs@) =~= before + seq![ord[i as int]]);
                        }
                    } else {
                        proof {
                            assert(lru_victims(rest, ents, needed as int, counted - size)
                                == seq![ord[i as int]] + lru_victims(ord.skip(i + 1), ents, needed as int, counted));
                            assert(string_views(vs@) + lru_victims(ord.skip(i + 1), ents, needed as int, counted)
                                =~= before + (seq![ord[i as int]] + lru_victims(ord.skip(i + 1), ents, needed as int, counted)));
                        }
                    }
                },
                None => {
                    assert(lru_victims(rest, ents, needed as int, counted) == lru_victims(ord.skip(i + 1), ents, needed as int, counted));
                },
            }
            i = i + 1;
        }
        proof {
            if !done {
                assert(ord.skip(i as int) =~= Seq::<Seq<char>>::empty());
                assert(string_views(vs@) + Seq::<Seq<char>>::empty() =~= string_views(vs@));
            }
        }
        vs
    }

    /// The keys whose entries have expired at `now`, in recency order.
    fn pick_expired(&self, now: u64) -> (vs: Vec<String>)
        requires
            self.well_formed(),
        ensures
            string_views(vs@) == expired_keys(self@.order, self@.entries, now),
    {
        let ghost ord = self@.order;
        let ghost ents = self@.entries;
        let mut vs: Vec<String> = Vec::new();
        let mut i: usize = 0;
        while i < self.access_order.len()
            invariant
                self.well_formed(),
                ord == self@.order,
                ents == self@.entries,
                i <= ord.len(),
                string_views(vs@) == expired_keys(ord.take(i as int), ents, now),
            decreases self.access_order.len() - i,
        {
            let ghost before = string_views(vs@);
            assert(ord.take(i + 1).drop_last() =~= ord.take(i as int));
            assert(ord.take(i + 1).last() == ord[i as int]);
            assert(ord[i as int] == self.access_order@[i as int]@);
            match find_key(&self.data, self.access_order[i].as_str()) {
                Some(j) => {
                    proof { lemma_key_at(self.data@, j as int); }
                    let expired = match self.data[j].1.expires_at {
                        Some(t) => now > t,
                        None => false,
                    };
                    if expired {
                        let k = self.access_order[i].clone();
                        vs.push(k);
                        assert(string_views(vs@) =~= before.push(ord[i as int]));
                    }
                },
                None => {},
            }
            i = i + 1;
        }
        assert(ord.take(ord.len() as int) =~= ord);
        vs
    }

    /// Frees room for `needed` bytes at `now` as the strategy's eviction
    /// policy says: recency eviction deletes the least recent entries until
    /// their sizes reach `needed`, expiry eviction deletes every expired entry,
    /// and the other policies delete nothing.
    fn evict_entries(&mut self, needed: usize, now: u64)
        requires
            old(self).well_formed(),
        ensures
            final(self).well_formed(),
            final(self).strategy() == old(self).strategy(),
            final(self)@ == after_eviction(old(self).strategy().eviction_policy, old(self)@, needed as nat, now),
            final(self)@.usage <= old(self)@.usage,
    {
        let vs = match &self.config.eviction_policy {
            EvictionPolicy::LRU => self.pick_lru(needed),
            EvictionPolicy::TTL => self.pick_expired(now),
            _ => Vec::new(),
        };
        let ghost m0 = self@;
        let ghost keys = string_views(vs@);
        assert(keys == eviction_victims(old(self).strategy().eviction_policy, m0, needed as nat, now)) by {
            if !(self.config.eviction_policy is LRU) && !(self.config.eviction_policy is TTL) {
                assert(string_views(vs@) =~= Seq::<Seq<char>>::empty());
            }
        }
        let mut j: usize = 0;
        while j < vs.len()
            invariant
                self.well_formed(),
                self.strategy() == old(self).strategy(),
                keys == string_views(vs@),
                j <= vs@.len(),
                self@ == delete_all(m0, keys.take(j as int)),
                self@.usage <= m0.usage,
            decreases vs.len() - j,
        {
            assert(keys.take(j + 1).drop_last() =~= keys.take(j as int));
            assert(keys.take(j + 1).last() == vs@[j as int]@);
            let _ = self.delete(vs[j].as_str());
            j = j + 1;
        }
        assert(keys.take(vs@.len() as int) =~= keys);
    }

    /// Stores `value` under `key` at `now`, to expire `ttl_ms` later if a
    /// lifetime is given. When the byte count plus the value's size would pass
    /// the strategy's limit, eviction first frees room for the value. The
    /// entry replaces any entry under `key`, the byte count swaps the old
    /// entry's size for the new one's, and the key becomes the most recent.
    pub fn set(&mut self, key: &str, value: &[u8], ttl_ms: Option<u64>, now: u64) -> (res: Result<()>)
        requires
            old(self).well_formed(),
            old(self)@.usage + value@.len() <= usize::MAX,
            ttl_ms matches Some(d) ==> now + d <= u64::MAX,
        ensures
            final(self).well_formed(),
            final(self).strategy() == old(self).strategy(),
            res is Ok,
            ({
                let mid = if old(self)@.usage + value@.len() > old(self).strategy().max_memory_bytes {
                    after_eviction(old(self).strategy().eviction_policy, old(self)@, value@.len(), now)
                } else {
                    old(self)@
                };
                &&& final(self)@.entries.contains_key(key@)
                &&& fresh_entry(final(self)@.entries[key@], value@, ttl_ms, now)
                &&& final(self)@.entries.remove(key@) == mid.entries.remove(key@)
                &&& final(self)@.order == without_key(mid.order, key@).push(key@)
                &&& final(self)@.usage == mid.usage
                    - (if mid.entries.contains_key(key@) { mid.entries[key@].size as int } else { 0 })
                    + value@.len()
            }),
    {
        let size = value.len();
        let expires_at = match ttl_ms {
            Some(d) => Some(now + d),
            None => None,
        };
        let entry = CacheEntry {
            value: copy_bytes(value),
            created_at: now,
            last_accessed: now,
            access_count: 0,
            expires_at,
            priority: CachePriority::Normal,
            tags: Vec::new(),
            size,
        };
        if self.memory_usage + size > self.config.max_memory_bytes {
            self.evict_entries(size, now);
        }
        let ghost mid = self@;
        let ghost before = self.data@;
        let item = (String::from_str(key), entry);
        proof { lemma_cover_touch(mid.entries, mid.order, key@, item.1); }
        let old_size = match find_key(&self.data, key) {
            Some(i) => {
                proof {
                    lemma_key_at(before, i as int);
                    lemma_total_remove(before, i as int);
                    lemma_key_update(before, i as int, item);
                    lemma_total_update(before, i as int, item);
                }
                let s = self.data[i].1.size;
                self.data.set(i, item);
                s
            },
            None => {
                proof { lemma_key_push(before, item); }
                self.data.push(item);
                assert(before.push(item).drop_last() =~= before);
                0
            },
        };
        self.memory_usage = self.memory_usage - old_size + size;
        self.mark_recent(key);
        proof {
            assert(key_map(self.data@) == key_map(before).insert(key@, item.1));
            assert(key_map(self.data@).remove(key@) =~= mid.entries.remove(key@));
        }
        Ok(())
    }

    /// Removes the entry under `key`; the answer says whether there was one.
    pub fn delete(&mut self, key: &str) -> (res: Result<bool>)
        requires
            old(self).well_formed(),
        ensures
            final(self).well_formed(),
            final(self).strategy() == old(self).strategy(),
            res matches Ok(b) && b == old(self)@.entries.contains_key(key@),
            final(self)@ == delete_model(old(self)@, key@),
            final(self)@.usage <= old(self)@.usage,
    {
        match find_key(&self.data, key) {
            None => Ok(false),
            Some(i) => {
                proof {
                    lemma_key_at(self.data@, i as int);
                    lemma_key_remove(self.data@, i as int);
                    lemma_total_remove(self.data@, i as int);
                    lemma_cover_delete(self@.entries, self@.order, key@);
                }
                let (_k, e) = self.data.remove(i);
                self.memory_usage = self.memory_usage - e.size;
                remove_key(&mut self.access_order, key);
                Ok(true)
            },
        }
    }

    /// Empties the cache.
    pub fn clear(&mut self) -> (res: Result<()>)
        ensures
            final(self).well_formed(),
            final(self).strategy() == old(self).strategy(),
            res is Ok,
            final(self)@.entries == Map::<Seq<char>, CacheEntry<Vec<u8>>>::empty(),
            final(self)@.order == Seq::<Seq<char>>::empty(),
            final(self)@.usage == 0,
    {
        self.data = Vec::new();
        self.memory_usage = 0;
        self.access_order = Vec::new();
        assert(key_map(self.data@) =~= Map::<Seq<char>, CacheEntry<Vec<u8>>>::empty());
        assert(string_views(self.access_order@) =~= Seq::<Seq<char>>::empty());
        Ok(())
    }

    /// The byte count and the number of entries.
    pub fn get_stats(&self) -> (res: (usize, usize))
        requires
            self.well_formed(),
        ensures
            res.0 == self@.usage,
            res.1 == self@.entries.len(),
    {
        proof { lemma_key_map_len(self.data@); }
        (self.memory_usage, self.data.len())
    }
}

} // verus!
