//! The distributed cache: a local layer of entries with expiry, and the
//! consistent hash ring that places cache keys on nodes.

use vstd::prelude::*;
use std::collections::BTreeMap;
use vstd::std_specs::iter::IteratorSpec;
use vstd::std_specs::cmp::OrdSpec;
use std::hash::BuildHasher;
use crate::text::{string_views, decimal, push_decimal, contains_string};
use crate::error::Result;
use crate::keyed::{unique_keys, key_map, lemma_key_at, lemma_key_update, lemma_key_push,
    lemma_key_remove, find_key};

verus! {

broadcast use vstd::std_specs::btree::group_btree_axioms, vstd::laws_cmp::group_laws_cmp;

/// The 64-bit hash that `DefaultHasher::new()` gives to a string slice.
pub uninterp spec fn default_hash(key: Seq<char>) -> u64;

/// Hashes a string slice with the standard library's default hasher
/// (`BuildHasherDefault::<DefaultHasher>::hash_one`, the same as hashing
/// into `DefaultHasher::new()` and calling `finish`). The result depends on
/// the key alone; nothing more is claimed of it.
#[verifier::external_body]
fn hash_str(key: &str) -> (h: u64)
    ensures
        h == default_hash(key@),
{
    std::hash::BuildHasherDefault::<std::collections::hash_map::DefaultHasher>::default().hash_one(key)
}

/// The key of the `i`-th virtual node of `node`: `"{node}:{i}"`.
pub open spec fn vnode_key(node: Seq<char>, i: nat) -> Seq<char> {
    node + ":"@ + decimal(i)
}

/// The ring position of the `i`-th virtual node of `node`.
pub open spec fn vnode_hash(node: Seq<char>, i: nat) -> u64 {
    default_hash(vnode_key(node, i))
}

/// Whether `h` is the position of one of the first `k` virtual nodes of `node`.
pub open spec fn is_vnode_of(node: Seq<char>, k: nat, h: u64) -> bool {
    exists|i: nat| i < k && #[trigger] vnode_hash(node, i) == h
}

/// `m` with the first `k` virtual nodes of `node` placed on it.
pub open spec fn with_vnodes(m: Map<u64, Seq<char>>, node: Seq<char>, k: nat) -> Map<u64, Seq<char>> {
    Map::new(
        |h: u64| m.contains_key(h) || is_vnode_of(node, k, h),
        |h: u64| if is_vnode_of(node, k, h) { node } else { m[h] },
    )
}

/// `m` without any position that `node` owns.
pub open spec fn without_node(m: Map<u64, Seq<char>>, node: Seq<char>) -> Map<u64, Seq<char>> {
    Map::new(|h: u64| m.contains_key(h) && m[h] != node, |h: u64| m[h])
}

/// `entries` lists the pairs of `m` in increasing order of position.
pub open spec fn sorted_entries_of(entries: Seq<(u64, Seq<char>)>, m: Map<u64, Seq<char>>) -> bool {
    &&& forall|i: int, j: int| 0 <= i < j < entries.len() ==> entries[i].0 < entries[j].0
    &&& forall|i: int| 0 <= i < entries.len() ==> m.contains_key(#[trigger] entries[i].0) && m[entries[i].0] == entries[i].1
    &&& forall|h: u64| m.contains_key(h) ==> exists|i: int| 0 <= i < entries.len() && #[trigger] entries[i].0 == h
}

/// `s` is the first index of `entries` whose position is at least `h`.
pub open spec fn ring_start(entries: Seq<(u64, Seq<char>)>, h: u64, s: int) -> bool {
    &&& 0 <= s <= entries.len()
    &&& forall|i: int| 0 <= i < s ==> entries[i].0 < h
    &&& forall|i: int| s <= i < entries.len() ==> entries[i].0 >= h
}

/// The node names of the ring walked clockwise from index `s`.
pub open spec fn walk_from(entries: Seq<(u64, Seq<char>)>, s: int) -> Seq<Seq<char>> {
    (entries.skip(s) + entries.take(s)).map_values(|e: (u64, Seq<char>)| e.1)
}

/// The distinct names of `order`, in order, added to `acc` until `count`
/// names are collected (at least one is taken whenever one is available).
pub open spec fn pick_distinct(order: Seq<Seq<char>>, count: nat, acc: Seq<Seq<char>>) -> Seq<Seq<char>>
    decreases order.len(),
{
    if order.len() == 0 {
        acc
    } else if acc.contains(order[0]) {
        pick_distinct(order.drop_first(), count, acc)
    } else if acc.len() + 1 >= count {
        acc.push(order[0])
    } else {
        pick_distinct(order.drop_first(), count, acc.push(order[0]))
    }
}

/// Adding a node that is not on the ring, whose virtual-node positions are
/// all free, and then removing it gives back the ring's positions as they
/// were; after a removal the node owns no position, whatever weights it was
/// added with.
pub proof fn law_remove_undoes_add(m: Map<u64, Seq<char>>, node: Seq<char>, k: nat)
    requires
        forall|h: u64| #[trigger] m.contains_key(h) ==> !is_vnode_of(node, k, h) && m[h] != node,
    ensures
        without_node(with_vnodes(m, node, k), node) == m,
        forall|h: u64| #[trigger] without_node(m, node).contains_key(h) ==> without_node(m, node)[h] != node,
{
    assert(without_node(with_vnodes(m, node, k), node) =~= m);
}

/// The nodes picked for a key are distinct, come from the walk around the
/// ring, and are no more than asked for (one at most when none is asked).
pub proof fn law_picked_nodes_distinct(order: Seq<Seq<char>>, count: nat)
    ensures
        forall|i: int, j: int| 0 <= i < j < pick_distinct(order, count, Seq::empty()).len()
            ==> pick_distinct(order, count, Seq::empty())[i] != pick_distinct(order, count, Seq::empty())[j],
        forall|x: Seq<char>| #[trigger] pick_distinct(order, count, Seq::empty()).contains(x) ==> order.contains(x),
        pick_distinct(order, count, Seq::empty()).len() <= if count == 0 { 1 } else { count },
{
    lemma_pick_distinct(order, count, Seq::empty());
}

/// `p` is the ring position a key hashed to `h` goes to first: the first
/// position at or after `h`, or, when there is none, the first position of
/// the ring (the walk wraps round).
pub open spec fn first_position(m: Map<u64, Seq<char>>, h: u64, p: u64) -> bool {
    &&& m.contains_key(p)
    &&& {
        ||| (p >= h && forall|q: u64| #[trigger] m.contains_key(q) && q >= h ==> p <= q)
        ||| ((forall|q: u64| #[trigger] m.contains_key(q) ==> q < h) && forall|q: u64| #[trigger] m.contains_key(q) ==> p <= q)
    }
}

/// Adding a node only moves keys onto that node: after the node's virtual
/// nodes are placed, the position a key goes to first is either one of the
/// new node's, or the position it went to before, still owned by the same
/// node.
pub proof fn law_add_moves_keys_only_to_new_node(m: Map<u64, Seq<char>>, node: Seq<char>, k: nat, h: u64, p: u64)
    requires
        first_position(with_vnodes(m, node, k), h, p),
    ensures
        with_vnodes(m, node, k)[p] == node
            || (first_position(m, h, p) && with_vnodes(m, node, k)[p] == m[p]),
{
    let m2 = with_vnodes(m, node, k);
    if !is_vnode_of(node, k, p) {
        assert(m.contains_key(p));
        assert forall|q: u64| #[trigger] m.contains_key(q) implies m2.contains_key(q) by {}
    }
}

/// How many nodes a key gets when `count` are asked for: at least one.
pub open spec fn wanted(count: nat) -> nat {
    if count == 0 { 1 } else { count }
}

/// A key gets as many nodes as are asked for (one when none is), or every
/// node on the ring when there are fewer: the walk around the ring from the
/// key's position either yields enough distinct nodes or all of them.
pub proof fn law_get_nodes_count(entries: Seq<(u64, Seq<char>)>, m: Map<u64, Seq<char>>, s: int, count: nat)
    requires
        sorted_entries_of(entries, m),
        0 <= s <= entries.len(),
    ensures
        pick_distinct(walk_from(entries, s), count, Seq::empty()).len() == wanted(count)
            || forall|h: u64| #[trigger] m.contains_key(h)
                ==> pick_distinct(walk_from(entries, s), count, Seq::empty()).contains(m[h]),
        pick_distinct(walk_from(entries, s), count, Seq::empty()).len() <= wanted(count),
{
    let w = walk_from(entries, s);
    lemma_pick_complete(w, count, Seq::empty());
    lemma_pick_distinct(w, count, Seq::empty());
    let n = entries.len();
    assert forall|h: u64| #[trigger] m.contains_key(h) implies w.contains(m[h]) by {
        let i = choose|i: int| 0 <= i < entries.len() && #[trigger] entries[i].0 == h;
        let j = if i >= s { i - s } else { (n - s) + i };
        assert((entries.skip(s) + entries.take(s))[j] == entries[i]);
        assert(w[j] == m[h]);
    }
}

proof fn lemma_pick_complete(order: Seq<Seq<char>>, count: nat, acc: Seq<Seq<char>>)
    requires
        acc.len() < wanted(count),
    ensures
        pick_distinct(order, count, acc).len() == wanted(count)
            || forall|x: Seq<char>| #[trigger] order.contains(x) ==> pick_distinct(order, count, acc).contains(x),
        forall|x: Seq<char>| #[trigger] acc.contains(x) ==> pick_distinct(order, count, acc).contains(x),
    decreases order.len(),
{
    if order.len() > 0 {
        let x = order[0];
        let rest = order.drop_first();
        if acc.contains(x) {
            lemma_pick_complete(rest, count, acc);
            let p = pick_distinct(rest, count, acc);
            if p.len() != wanted(count) {
                assert forall|y: Seq<char>| #[trigger] order.contains(y) implies p.contains(y) by {
                    let j = choose|j: int| 0 <= j < order.len() && order[j] == y;
                    if j > 0 { assert(rest[j - 1] == y); assert(rest.contains(y)); } else { assert(acc.contains(y)); }
                }
            }
        } else if acc.len() + 1 >= count {
            let r = acc.push(x);
            assert forall|y: Seq<char>| #[trigger] acc.contains(y) implies r.contains(y) by {
                let j = choose|j: int| 0 <= j < acc.len() && acc[j] == y;
                assert(r[j] == y);
            }
        } else {
            let r = acc.push(x);
            lemma_pick_complete(rest, count, r);
            let p = pick_distinct(rest, count, r);
            assert(r[acc.len() as int] == x);
            assert forall|y: Seq<char>| #[trigger] acc.contains(y) implies p.contains(y) by {
                let j = choose|j: int| 0 <= j < acc.len() && acc[j] == y;
                assert(r[j] == y);
                assert(r.contains(y));
            }
            assert(r.contains(x));
            if p.len() != wanted(count) {
                assert forall|y: Seq<char>| #[trigger] order.contains(y) implies p.contains(y) by {
                    let j = choose|j: int| 0 <= j < order.len() && order[j] == y;
                    if j > 0 { assert(rest[j - 1] == y); assert(rest.contains(y)); }
                }
            }
        }
    }
}

proof fn lemma_pick_distinct(order: Seq<Seq<char>>, count: nat, acc: Seq<Seq<char>>)
    requires
        forall|i: int, j: int| 0 <= i < j < acc.len() ==> acc[i] != acc[j],
        acc.len() < count || count == 0 && acc.len() == 0,
    ensures
        forall|i: int, j: int| 0 <= i < j < pick_distinct(order, count, acc).len()
            ==> pick_distinct(order, count, acc)[i] != pick_distinct(order, count, acc)[j],
        forall|x: Seq<char>| #[trigger] pick_distinct(order, count, acc).contains(x) ==> acc.contains(x) || order.contains(x),
        pick_distinct(order, count, acc).len() <= if count == 0 { 1 } else { count },
    decreases order.len(),
{
    if order.len() > 0 {
        let x = order[0];
        let rest = order.drop_first();
        if acc.contains(x) {
            lemma_pick_distinct(rest, count, acc);
            assert forall|y: Seq<char>| #[trigger] rest.contains(y) implies order.contains(y) by {
                let j = choose|j: int| 0 <= j < rest.len() && rest[j] == y;
                assert(order[j + 1] == y);
            }
        } else if acc.len() + 1 >= count {
            let r = acc.push(x);
            assert forall|i: int, j: int| 0 <= i < j < r.len() implies r[i] != r[j] by {
                if j == acc.len() { assert(acc.contains(r[i])); }
            }
            assert forall|y: Seq<char>| #[trigger] r.contains(y) implies acc.contains(y) || order.contains(y) by {
                let j = choose|j: int| 0 <= j < r.len() && r[j] == y;
                if j < acc.len() { assert(acc[j] == y); } else { assert(order[0] == y); }
            }
        } else {
            let r = acc.push(x);
            assert forall|i: int, j: int| 0 <= i < j < r.len() implies r[i] != r[j] by {
                if j == acc.len() { assert(acc.contains(r[i])); }
            }
            lemma_pick_distinct(rest, count, r);
            assert forall|y: Seq<char>| #[trigger] pick_distinct(rest, count, r).contains(y) implies acc.contains(y) || order.contains(y) by {
                if r.contains(y) {
                    let j = choose|j: int| 0 <= j < r.len() && r[j] == y;
                    if j < acc.len() { assert(acc[j] == y); } else { assert(order[0] == y); }
                } else {
                    assert(rest.contains(y));
                    let j = choose|j: int| 0 <= j < rest.len() && rest[j] == y;
                    assert(order[j + 1] == y);
                }
            }
        }
    }
}

/// A ring of virtual nodes; each node owns `virtual_node_count * weight` positions.
#[derive(Debug, Clone)]
pub struct ConsistentHashRing {
    virtual_nodes: BTreeMap<u64, String>,
    node_weights: Vec<(String, u32)>,
    virtual_node_count: u32,
}

impl ConsistentHashRing {
    /// The ring: position to node name.
    pub closed spec fn vnodes(&self) -> Map<u64, Seq<char>> {
        self.virtual_nodes@.map_values(|s: String| s@)
    }

    /// The weight of each node on the ring.
    pub closed spec fn weights(&self) -> Map<Seq<char>, u32> {
        assoc_map(self.node_weights@)
    }

    /// The number of virtual nodes per unit of weight.
    pub closed spec fn vcount(&self) -> u32 {
        self.virtual_node_count
    }

    /// Each node is listed once and every weight keeps the virtual node count in range.
    pub closed spec fn well_formed(&self) -> bool {
        &&& unique_names(self.node_weights@)
        &&& forall|i: int| 0 <= i < self.node_weights@.len() ==> self.virtual_node_count * #[trigger] self.node_weights@[i].1 <= u32::MAX
    }

    /// An empty ring with 150 virtual nodes per unit of weight.
    pub fn new() -> (r: ConsistentHashRing)
        ensures
            r.well_formed(),
            r.vnodes() == Map::<u64, Seq<char>>::empty(),
            r.weights() == Map::<Seq<char>, u32>::empty(),
            r.vcount() == 150,
    {
        let r = ConsistentHashRing {
            virtual_nodes: BTreeMap::new(),
            node_weights: Vec::new(),
            virtual_node_count: 150,
        };
        assert(r.vnodes() =~= Map::<u64, Seq<char>>::empty());
        assert(r.weights() =~= Map::<Seq<char>, u32>::empty());
        r
    }

    /// The index of `node` in the weight list, if it is there.
    fn weight_index(&self, node: &str) -> (res: Option<usize>)
        ensures
            res matches Some(i) ==> i < self.node_weights@.len() && self.node_weights@[i as int].0@ == node@,
            res is None ==> forall|i: int| 0 <= i < self.node_weights@.len() ==> self.node_weights@[i].0@ != node@,
    {
        let t = String::from_str(node);
        let mut i: usize = 0;
        while i < self.node_weights.len()
            invariant
                i <= self.node_weights@.len(),
                t@ == node@,
                forall|j: int| 0 <= j < i ==> self.node_weights@[j].0@ != node@,
            decreases self.node_weights.len() - i,
        {
            if self.node_weights[i].0 == t {
                return Some(i);
            }
            i = i + 1;
        }
        None
    }

    /// Records `weight` for `node_id`, leaving the ring positions alone.
    fn set_weight(&mut self, node_id: &str, weight: u32)
        requires
            old(self).well_formed(),
            old(self).vcount() * weight <= u32::MAX,
        ensures
            final(self).well_formed(),
            final(self).weights() == old(self).weights().insert(node_id@, weight),
            final(self).virtual_nodes == old(self).virtual_nodes,
            final(self).virtual_node_count == old(self).virtual_node_count,
    {
        let ghost ow = self.node_weights@;
        let e = (String::from_str(node_id), weight);
        match self.weight_index(node_id) {
            Some(i) => {
                self.node_weights.set(i, e);
                proof { lemma_assoc_update(ow, i as int, e); }
            },
            None => {
                self.node_weights.push(e);
                proof { lemma_assoc_push(ow, e); }
            },
        }
    }

    /// Places the first `total` virtual nodes of `node_id` on the ring.
    fn place_vnodes(&mut self, node_id: &str, total: u32)
        ensures
            final(self).vnodes() == with_vnodes(old(self).vnodes(), node_id@, total as nat),
            final(self).node_weights == old(self).node_weights,
            final(self).virtual_node_count == old(self).virtual_node_count,
    {
        let ghost base = self.vnodes();
        let mut i: u32 = 0;
        while i < total
            invariant
                i <= total,
                base == old(self).vnodes(),
                self.node_weights == old(self).node_weights,
                self.virtual_node_count == old(self).virtual_node_count,
                self.vnodes() == with_vnodes(base, node_id@, i as nat),
            decreases total - i,
        {
            let mut key = String::from_str(node_id);
            key.append(":");
            push_decimal(&mut key, i as u64);
            let h = hash_str(key.as_str());
            assert(h == vnode_hash(node_id@, i as nat));
            let ghost before = self.vnodes();
            let ghost before_map = self.virtual_nodes@;
            let name = String::from_str(node_id);
            self.virtual_nodes.insert(h, name);
            assert(self.virtual_nodes@ == before_map.insert(h, name));
            assert(self.vnodes() =~= before.insert(h, node_id@));
            proof { lemma_vnode_step(node_id@, i as nat, h); }
            assert(self.vnodes() =~= with_vnodes(base, node_id@, (i + 1) as nat));
            i = i + 1;
        }
    }

    /// Removes from the ring every position that `node_id` owns.
    fn clear_node(&mut self, node_id: &str)
        ensures
            final(self).vnodes() == without_node(old(self).vnodes(), node_id@),
            final(self).node_weights == old(self).node_weights,
            final(self).virtual_node_count == old(self).virtual_node_count,
    {
        let ghost base = self.vnodes();
        let entries = self.sorted_entries();
        let ghost ev = entry_views(entries@);
        let name = String::from_str(node_id);
        let mut i: usize = 0;
        while i < entries.len()
            invariant
                i <= entries@.len(),
                base == old(self).vnodes(),
                name@ == node_id@,
                ev == entry_views(entries@),
                sorted_entries_of(ev, base),
                self.node_weights == old(self).node_weights,
                self.virtual_node_count == old(self).virtual_node_count,
                forall|h: u64| #[trigger] self.vnodes().contains_key(h) <==> (base.contains_key(h)
                    && !(base[h] == node_id@ && exists|j: int| 0 <= j < i && ev[j].0 == h)),
                forall|h: u64| #[trigger] self.vnodes().contains_key(h) ==> self.vnodes()[h] == base[h],
            decreases entries.len() - i,
        {
            let ghost before = self.vnodes();
            let ghost before_map = self.virtual_nodes@;
            assert(ev[i as int] == (entries@[i as int].0, entries@[i as int].1@));
            if entries[i].1 == name {
                let h = entries[i].0;
                self.virtual_nodes.remove(&h);
                assert(self.virtual_nodes@ == before_map.remove(h));
                assert(self.vnodes() =~= before.remove(h));
            }
            assert forall|h: u64| #[trigger] self.vnodes().contains_key(h) <==> (base.contains_key(h)
                && !(base[h] == node_id@ && exists|j: int| 0 <= j < i + 1 && ev[j].0 == h)) by {
                if exists|j: int| 0 <= j < i + 1 && ev[j].0 == h {
                    let j = choose|j: int| 0 <= j < i + 1 && ev[j].0 == h;
                    if j < i {
                        assert(exists|j2: int| 0 <= j2 < i && ev[j2].0 == h);
                    } else {
                        assert(base[h] == ev[i as int].1);
                    }
                } else {
                    if base.contains_key(h) && h == ev[i as int].0 {
                        assert(ev[i as int].0 == h);
                    }
                }
            }
            i = i + 1;
        }
        assert forall|h: u64| #[trigger] self.vnodes().contains_key(h) <==> without_node(base, node_id@).contains_key(h) by {
            if base.contains_key(h) && base[h] == node_id@ {
                let j = choose|j: int| 0 <= j < ev.len() && #[trigger] ev[j].0 == h;
                assert(exists|j2: int| 0 <= j2 < entries@.len() && ev[j2].0 == h);
            }
        }
        assert(self.vnodes() =~= without_node(base, node_id@));
    }

    /// Adds `node_id` with `weight`, placing `virtual_node_count * weight`
    /// virtual nodes on the ring; a node added again gets the new weight.
    pub fn add_node(&mut self, node_id: &str, weight: u32)
        requires
            old(self).well_formed(),
            old(self).vcount() * weight <= u32::MAX,
        ensures
            final(self).well_formed(),
            final(self).vcount() == old(self).vcount(),
            final(self).weights() == old(self).weights().insert(node_id@, weight),
            final(self).vnodes() == with_vnodes(old(self).vnodes(), node_id@, (old(self).vcount() * weight) as nat),
    {
        self.set_weight(node_id, weight);
        let total = self.virtual_node_count * weight;
        self.place_vnodes(node_id, total);
    }

    /// Removes `node_id` and every ring position it owns, whatever weights it
    /// was added with; nothing changes for a node that is not on the ring.
    pub fn remove_node(&mut self, node_id: &str)
        requires
            old(self).well_formed(),
        ensures
            final(self).well_formed(),
            final(self).vcount() == old(self).vcount(),
            final(self).weights() == old(self).weights().remove(node_id@),
            final(self).vnodes() == without_node(old(self).vnodes(), node_id@),
    {
        let ghost ow = self.node_weights@;
        match self.weight_index(node_id) {
            None => {
                proof { lemma_assoc_absent(ow, node_id@); }
                assert(self.weights() =~= old(self).weights().remove(node_id@));
            },
            Some(idx) => {
                proof { lemma_assoc_remove(ow, idx as int); }
                let _entry = self.node_weights.remove(idx);
                assert(self.node_weights@ == ow.remove(idx as int));
            },
        }
        self.clear_node(node_id);
    }
}

impl ConsistentHashRing {
    /// The nodes responsible for `key`: walking the ring clockwise from the
    /// first position at or after the key's hash (wrapping round), the distinct
    /// nodes met, until `count` are collected; at least one when the ring is not empty.
    pub fn get_nodes(&self, key: &str, count: usize) -> (res: Vec<String>)
        ensures
            exists|entries: Seq<(u64, Seq<char>)>, s: int|
                sorted_entries_of(entries, self.vnodes())
                && ring_start(entries, default_hash(key@), s)
                && string_views(res@) == pick_distinct(walk_from(entries, s), count as nat, Seq::empty()),
    {
        let entries = self.sorted_entries();
        let ghost ev = entry_views(entries@);
        let h = hash_str(key);
        let n = entries.len();
        let mut start: usize = 0;
        while start < n && entries[start].0 < h
            invariant
                start <= n,
                n == entries@.len(),
                forall|i: int| 0 <= i < start ==> entries@[i].0 < h,
            decreases n - start,
        {
            start = start + 1;
        }
        assert(ring_start(ev, h, start as int)) by {
            assert forall|i: int| start <= i < ev.len() implies ev[i].0 >= h by {
                if start < n { assert(entries@[start as int].0 <= entries@[i].0 || i == start); }
            }
        }
        let ghost order = walk_from(ev, start as int);
        assert(order.len() == n);
        assert forall|j: int| 0 <= j < n implies #[trigger] order[j] == entries@[if j < n - start { start + j } else { j - (n - start) }].1@ by {
            if j < n - start {
                assert(order[j] == ev.skip(start as int)[j].1);
            } else {
                assert(order[j] == ev.take(start as int)[j - (n - start)].1);
            }
        }
        let mut res: Vec<String> = Vec::new();
        let mut j: usize = 0;
        assert(order.skip(0) =~= order);
        assert(string_views(res@) =~= Seq::<Seq<char>>::empty());
        while j < n
            invariant
                j <= n,
                n == entries@.len(),
                start <= n,
                order.len() == n,
                forall|k: int| 0 <= k < n ==> #[trigger] order[k] == entries@[if k < n - start { start + k } else { k - (n - start) }].1@,
                sorted_entries_of(ev, self.vnodes()),
                ring_start(ev, h, start as int),
                h == default_hash(key@),
                order == walk_from(ev, start as int),
                pick_distinct(order, count as nat, Seq::empty())
                    == pick_distinct(order.skip(j as int), count as nat, string_views(res@)),
                string_views(res@).len() < count || j == 0 && res@.len() == 0,
            decreases n - j,
        {
            let idx = if j < n - start { start + j } else { j - (n - start) };
            let ghost rest = order.skip(j as int);
            assert(rest[0] == order[j as int]);
            assert(rest.drop_first() =~= order.skip(j + 1));
            let name = &entries[idx].1;
            let ghost before = string_views(res@);
            if !contains_string(&res, name.as_str()) {
                res.push(name.clone());
                assert(string_views(res@) =~= before.push(order[j as int]));
                if res.len() >= count {
                    assert(pick_distinct(rest, count as nat, before) == before.push(rest[0]));
                    assert(string_views(res@) == pick_distinct(walk_from(ev, start as int), count as nat, Seq::empty()));
                    assert(ring_start(ev, default_hash(key@), start as int));
                    return res;
                }
                assert(pick_distinct(rest, count as nat, before) == pick_distinct(rest.drop_first(), count as nat, before.push(rest[0])));
            } else {
                assert(pick_distinct(rest, count as nat, before) == pick_distinct(rest.drop_first(), count as nat, before));
            }
            j = j + 1;
        }
        assert(order.skip(n as int) =~= Seq::<Seq<char>>::empty());
        res
    }

    /// The ring's entries in increasing order of position.
    fn sorted_entries(&self) -> (res: Vec<(u64, String)>)
        ensures
            sorted_entries_of(entry_views(res@), self.vnodes()),
            forall|i: int, j: int| 0 <= i < j < res@.len() ==> res@[i].0 < res@[j].0,
    {
        let mut res: Vec<(u64, String)> = Vec::new();
        let it0 = self.virtual_nodes.iter();
        let ghost all = it0.remaining();
        assert(vstd::std_specs::btree::increasing_seq(all.map_values(|kv: (&u64, &String)| *kv.0)));
        assert forall|i: int, j: int| 0 <= i < j < all.len() implies *all[i].0 < *all[j].0 by {
            let ks = all.map_values(|kv: (&u64, &String)| *kv.0);
            assert(ks[i].cmp_spec(&ks[j]) is Less);
        }
        for kv in it: it0
            invariant
                all == it.seq(),
                res@.len() == it.index(),
                forall|i: int| 0 <= i < res@.len() ==> res@[i].0 == *all[i].0 && res@[i].1 == *all[i].1,
        {
            let (k, v) = kv;
            res.push((*k, v.clone()));
        }
        let ghost ev = entry_views(res@);
        assert(res@.len() == all.len());
        assert forall|i: int, j: int| 0 <= i < j < res@.len() implies res@[i].0 < res@[j].0 by {
            assert(*all[i].0 < *all[j].0);
        }
        assert forall|i: int| 0 <= i < ev.len() implies self.vnodes().contains_key(#[trigger] ev[i].0) && self.vnodes()[ev[i].0] == ev[i].1 by {
            assert(self.virtual_nodes@.contains_key(*all[i].0) && self.virtual_nodes@[*all[i].0] == *all[i].1);
        }
        assert forall|h: u64| self.vnodes().contains_key(h) implies exists|i: int| 0 <= i < ev.len() && #[trigger] ev[i].0 == h by {
            assert(self.virtual_nodes@.contains_key(h));
            let w = self.virtual_nodes@[h];
            assert(all.contains((&h, &w)));
            let i = choose|i: int| 0 <= i < all.len() && all[i] == (&h, &w);
            assert(ev[i].0 == h);
        }
        res
    }
}

/// The entries of the ring with their names by view.
pub open spec fn entry_views(v: Seq<(u64, String)>) -> Seq<(u64, Seq<char>)> {
    v.map_values(|e: (u64, String)| (e.0, e.1@))
}

/// No two entries of `s` carry the same name.
pub open spec fn unique_names(s: Seq<(String, u32)>) -> bool {
    forall|i: int, j: int| 0 <= i < j < s.len() ==> s[i].0@ != s[j].0@
}

/// The name-to-weight map that an association list stands for.
pub open spec fn assoc_map(s: Seq<(String, u32)>) -> Map<Seq<char>, u32> {
    Map::new(
        |n: Seq<char>| exists|i: int| 0 <= i < s.len() && #[trigger] s[i].0@ == n,
        |n: Seq<char>| s[choose|i: int| 0 <= i < s.len() && #[trigger] s[i].0@ == n].1,
    )
}

proof fn lemma_assoc_at(s: Seq<(String, u32)>, i: int)
    requires
        unique_names(s),
        0 <= i < s.len(),
    ensures
        assoc_map(s).contains_key(s[i].0@),
        assoc_map(s)[s[i].0@] == s[i].1,
{
    let n = s[i].0@;
    assert(s[i].0@ == n);
    let j = choose|j: int| 0 <= j < s.len() && #[trigger] s[j].0@ == n;
    assert(j == i);
}

proof fn lemma_assoc_update(s: Seq<(String, u32)>, i: int, e: (String, u32))
    requires
        unique_names(s),
        0 <= i < s.len(),
        s[i].0@ == e.0@,
    ensures
        unique_names(s.update(i, e)),
        assoc_map(s.update(i, e)) == assoc_map(s).insert(e.0@, e.1),
{
    let t = s.update(i, e);
    assert(unique_names(t)) by {
        assert forall|a: int, b: int| 0 <= a < b < t.len() implies t[a].0@ != t[b].0@ by {
            assert(t[a].0@ == s[a].0@ && t[b].0@ == s[b].0@);
        }
    }
    assert forall|n: Seq<char>| #[trigger] assoc_map(t).contains_key(n) == assoc_map(s).insert(e.0@, e.1).contains_key(n) by {
        if assoc_map(s).contains_key(n) {
            let j = choose|j: int| 0 <= j < s.len() && #[trigger] s[j].0@ == n;
            assert(t[j].0@ == n);
        }
        if assoc_map(t).contains_key(n) {
            let j = choose|j: int| 0 <= j < t.len() && #[trigger] t[j].0@ == n;
            assert(s[j].0@ == n);
        }
        if n == e.0@ {
            assert(t[i].0@ == n);
        }
    }
    assert forall|n: Seq<char>| #[trigger] assoc_map(t).contains_key(n) implies assoc_map(t)[n] == assoc_map(s).insert(e.0@, e.1)[n] by {
        let j = choose|j: int| 0 <= j < t.len() && #[trigger] t[j].0@ == n;
        lemma_assoc_at(t, j);
        lemma_assoc_at(s, j);
    }
    assert(assoc_map(t) =~= assoc_map(s).insert(e.0@, e.1));
}

proof fn lemma_assoc_push(s: Seq<(String, u32)>, e: (String, u32))
    requires
        unique_names(s),
        forall|i: int| 0 <= i < s.len() ==> s[i].0@ != e.0@,
    ensures
        unique_names(s.push(e)),
        assoc_map(s.push(e)) == assoc_map(s).insert(e.0@, e.1),
{
    let t = s.push(e);
    assert(unique_names(t)) by {
        assert forall|a: int, b: int| 0 <= a < b < t.len() implies t[a].0@ != t[b].0@ by {
            if b < s.len() { assert(t[a] == s[a] && t[b] == s[b]); } else { assert(t[a] == s[a]); }
        }
    }
    assert forall|n: Seq<char>| #[trigger] assoc_map(t).contains_key(n) == assoc_map(s).insert(e.0@, e.1).contains_key(n) by {
        if assoc_map(s).contains_key(n) {
            let j = choose|j: int| 0 <= j < s.len() && #[trigger] s[j].0@ == n;
            assert(t[j].0@ == n);
        }
        if assoc_map(t).contains_key(n) {
            let j = choose|j: int| 0 <= j < t.len() && #[trigger] t[j].0@ == n;
            if j < s.len() { assert(s[j].0@ == n); }
        }
        if n == e.0@ {
            assert(t[s.len() as int].0@ == n);
        }
    }
    assert forall|n: Seq<char>| #[trigger] assoc_map(t).contains_key(n) implies assoc_map(t)[n] == assoc_map(s).insert(e.0@, e.1)[n] by {
        let j = choose|j: int| 0 <= j < t.len() && #[trigger] t[j].0@ == n;
        lemma_assoc_at(t, j);
        if j < s.len() { assert(t[j] == s[j]); lemma_assoc_at(s, j); }
    }
    assert(assoc_map(t) =~= assoc_map(s).insert(e.0@, e.1));
}

proof fn lemma_assoc_absent(s: Seq<(String, u32)>, n: Seq<char>)
    requires
        forall|i: int| 0 <= i < s.len() ==> s[i].0@ != n,
    ensures
        !assoc_map(s).contains_key(n),
        assoc_map(s).remove(n) == assoc_map(s),
{
    assert(assoc_map(s).remove(n) =~= assoc_map(s));
}

proof fn lemma_assoc_remove(s: Seq<(String, u32)>, i: int)
    requires
        unique_names(s),
        0 <= i < s.len(),
    ensures
        unique_names(s.remove(i)),
        assoc_map(s).contains_key(s[i].0@),
        assoc_map(s)[s[i].0@] == s[i].1,
        assoc_map(s.remove(i)) == assoc_map(s).remove(s[i].0@),
{
    let t = s.remove(i);
    lemma_assoc_at(s, i);
    assert forall|a: int| 0 <= a < t.len() implies #[trigger] t[a] == (if a < i { s[a] } else { s[a + 1] }) by {}
    assert(unique_names(t)) by {
        assert forall|a: int, b: int| 0 <= a < b < t.len() implies t[a].0@ != t[b].0@ by {
            let a2 = if a < i { a } else { a + 1 };
            let b2 = if b < i { b } else { b + 1 };
            assert(t[a] == s[a2] && t[b] == s[b2]);
        }
    }
    let n0 = s[i].0@;
    assert forall|n: Seq<char>| #[trigger] assoc_map(t).contains_key(n) == assoc_map(s).remove(n0).contains_key(n) by {
        if assoc_map(s).contains_key(n) && n != n0 {
            let j = choose|j: int| 0 <= j < s.len() && #[trigger] s[j].0@ == n;
            if j < i { assert(t[j].0@ == n); } else { assert(j != i); assert(t[j - 1].0@ == n); }
        }
        if assoc_map(t).contains_key(n) {
            let j = choose|j: int| 0 <= j < t.len() && #[trigger] t[j].0@ == n;
            let j2 = if j < i { j } else { j + 1 };
            assert(s[j2].0@ == n);
            assert(j2 != i);
        }
    }
    assert forall|n: Seq<char>| #[trigger] assoc_map(t).contains_key(n) implies assoc_map(t)[n] == assoc_map(s)[n] by {
        let j = choose|j: int| 0 <= j < t.len() && #[trigger] t[j].0@ == n;
        let j2 = if j < i { j } else { j + 1 };
        lemma_assoc_at(t, j);
        lemma_assoc_at(s, j2);
    }
    assert(assoc_map(t) =~= assoc_map(s).remove(n0));
}

proof fn lemma_vnode_step(node: Seq<char>, i: nat, h: u64)
    requires
        h == vnode_hash(node, i),
    ensures
        forall|g: u64| #[trigger] is_vnode_of(node, i + 1, g) <==> (is_vnode_of(node, i, g) || g == h),
{
    assert forall|g: u64| #[trigger] is_vnode_of(node, i + 1, g) <==> (is_vnode_of(node, i, g) || g == h) by {
        if is_vnode_of(node, i + 1, g) {
            let k = choose|k: nat| k < i + 1 && #[trigger] vnode_hash(node, k) == g;
            if k < i { assert(is_vnode_of(node, i, g)); }
        }
        if is_vnode_of(node, i, g) {
            let k = choose|k: nat| k < i && #[trigger] vnode_hash(node, k) == g;
            assert(k < i + 1);
        }
        if g == h {
            assert(vnode_hash(node, i) == g);
        }
    }
}

/// A value held in the local layer. Times are milliseconds since the Unix
/// epoch.
#[derive(Debug, Clone)]
pub struct CacheEntry {
    pub key: String,
    pub value: Vec<u8>,
    pub created_at: i64,
    pub expires_at: Option<i64>,
    pub access_count: u64,
    pub last_accessed: i64,
    pub version: u64,
}

/// A remote cache node.
#[derive(Debug, Clone)]
pub struct CacheNode {
    pub id: String,
    pub address: String,
    pub port: u16,
    pub status: CacheNodeStatus,
    pub weight: u32,
    pub last_heartbeat: i64,
}

/// Whether a cache node serves.
#[derive(Debug, Clone, Copy, PartialEq, Eq, Structural)]
pub enum CacheNodeStatus {
    Online,
    Offline,
    Degraded,
}

/// How the distributed cache is run. The default lifetime is in
/// milliseconds.
#[derive(Debug, Clone)]
pub struct DistributedCacheConfig {
    pub replication_factor: u32,
    pub consistency_level: ConsistencyLevel,
    pub local_cache_size: usize,
    pub default_ttl: u64,
    pub enable_compression: bool,
}

/// How many replicas must agree.
#[derive(Debug, Clone, Copy, PartialEq, Eq, Structural)]
pub enum ConsistencyLevel {
    One,
    Quorum,
    All,
}

/// An entry has expired at `now` when its expiry time lies before `now`.
pub open spec fn entry_expired(e: CacheEntry, now: i64) -> bool {
    e.expires_at matches Some(t) && now > t
}

/// When an entry stored at `now` with lifetime `ttl_ms` expires: never
/// without a lifetime.
pub open spec fn stored_expiry(ttl_ms: Option<u64>, now: i64) -> Option<i64> {
    match ttl_ms {
        Some(d) => Some((now + d) as i64),
        None => None,
    }
}

/// An entry stored at `now` with lifetime `ttl_ms` has expired at a later
/// time exactly when that time lies past the end of its lifetime; until then
/// a read gives its value back.
pub proof fn law_live_until_lifetime_ends(e: CacheEntry, ttl_ms: Option<u64>, now: i64, later: i64)
    requires
        ttl_ms matches Some(d) ==> now + d <= i64::MAX,
        e.expires_at == stored_expiry(ttl_ms, now),
        now <= later,
    ensures
        entry_expired(e, later) <==> (ttl_ms matches Some(d) && later > now + d),
{
}

/// A local entry after a read at `now`.
pub open spec fn entry_touched(e: CacheEntry, now: i64) -> CacheEntry {
    CacheEntry { access_count: (e.access_count + 1) as u64, last_accessed: now, ..e }
}

/// `now` moved on by `ms` milliseconds.
fn later_by(now: i64, ms: u64) -> (t: i64)
    requires
        now + ms <= i64::MAX,
    ensures
        t == now + ms,
{
    (now as i128 + ms as i128) as i64
}

fn copy_value(v: &Vec<u8>) -> (r: Vec<u8>)
    ensures
        r@ == v@,
{
    let r = v.clone();
    assert(r@ =~= v@);
    r
}

/// A cache with a local layer in front of remote nodes placed on a
/// consistent hash ring.
pub struct DistributedCacheManager {
    local_cache: Vec<(String, CacheEntry)>,
    remote_nodes: Vec<CacheNode>,
    hash_ring: ConsistentHashRing,
    config: DistributedCacheConfig,
}

impl DistributedCacheManager {
    /// The local entries by key.
    pub closed spec fn local(&self) -> Map<Seq<char>, CacheEntry> {
        key_map(self.local_cache@)
    }

    /// The configuration.
    pub closed spec fn config(&self) -> DistributedCacheConfig {
        self.config
    }

    /// Local keys are distinct.
    pub closed spec fn well_formed(&self) -> bool {
        unique_keys(self.local_cache@)
    }

    /// An empty cache with no remote nodes.
    pub fn new(config: DistributedCacheConfig) -> (m: DistributedCacheManager)
        ensures
            m.well_formed(),
            m.local() == Map::<Seq<char>, CacheEntry>::empty(),
            m.config() == config,
    {
        let m = DistributedCacheManager {
            local_cache: Vec::new(),
            remote_nodes: Vec::new(),
            hash_ring: ConsistentHashRing::new(),
            config,
        };
        assert(m.local() =~= Map::<Seq<char>, CacheEntry>::empty());
        m
    }

    /// Asks a remote node for `key`; no remote node answers with a value.
    fn get_from_remote_node(&self, node_id: &str, key: &str) -> (res: Result<Option<Vec<u8>>>)
        ensures
            res matches Ok(None),
    {
        Ok(None)
    }

    /// Sends `key` to a remote node.
    fn set_to_remote_node(&self, node_id: &str, key: &str, value: &[u8], ttl_ms: Option<u64>) -> (res: Result<()>)
        ensures
            res is Ok,
    {
        Ok(())
    }

    /// Removes `key` from a remote node.
    fn delete_from_remote_node(&self, node_id: &str, key: &str) -> (res: Result<()>)
        ensures
            res is Ok,
    {
        Ok(())
    }

    /// Stores under `key` in the local layer an entry for `value`, read once
    /// at `now`, that lives for the default lifetime.
    fn cache_locally(&mut self, key: &str, value: &[u8], now: i64)
        requires
            old(self).well_formed(),
            now + old(self).config().default_ttl <= i64::MAX,
        ensures
            final(self).well_formed(),
            final(self).config() == old(self).config(),
            final(self).local().remove(key@) == old(self).local().remove(key@),
            final(self).local().contains_key(key@),
    {
        let mut bytes: Vec<u8> = Vec::new();
        let mut i: usize = 0;
        while i < value.len()
            invariant
                i <= value@.len(),
                bytes@ == value@.take(i as int),
            decreases value.len() - i,
        {
            bytes.push(value[i]);
            i = i + 1;
            assert(bytes@ =~= value@.take(i as int));
        }
        let entry = CacheEntry {
            key: String::from_str(key),
            value: bytes,
            created_at: now,
            expires_at: Some(later_by(now, self.config.default_ttl)),
            access_count: 1,
            last_accessed: now,
            version: 1,
        };
        self.put_local(key, entry);
        assert(self.local().remove(key@) =~= old(self).local().remove(key@));
    }

    fn put_local(&mut self, key: &str, entry: CacheEntry)
        requires
            old(self).well_formed(),
        ensures
            final(self).well_formed(),
            final(self).config() == old(self).config(),
            final(self).local() == old(self).local().insert(key@, entry),
    {
        let ghost before = self.local_cache@;
        let item = (String::from_str(key), entry);
        match find_key(&self.local_cache, key) {
            Some(i) => {
                proof { lemma_key_update(before, i as int, item); }
                self.local_cache.set(i, item);
            },
            None => {
                proof { lemma_key_push(before, item); }
                self.local_cache.push(item);
            },
        }
    }

    /// Reads `key` at `now`. A local entry answers: an expired one is
    /// dropped and gives nothing; a live one records the read and gives a
    /// copy of its value. Without a local entry the replicas that the ring
    /// places the key on are asked in turn; none of them holds a value.
    pub fn get(&mut self, key: &str, now: i64) -> (res: Result<Option<Vec<u8>>>)
        requires
            old(self).well_formed(),
            old(self).local().contains_key(key@) ==> old(self).local()[key@].access_count < u64::MAX,
            now + old(self).config().default_ttl <= i64::MAX,
        ensures
            final(self).well_formed(),
            final(self).config() == old(self).config(),
            !old(self).local().contains_key(key@) ==> (res matches Ok(None) && final(self).local() == old(self).local()),
            old(self).local().contains_key(key@) && entry_expired(old(self).local()[key@], now)
                ==> (res matches Ok(None) && final(self).local() == old(self).local().remove(key@)),
            old(self).local().contains_key(key@) && !entry_expired(old(self).local()[key@], now)
                ==> (res matches Ok(Some(v)) && v@ == old(self).local()[key@].value@
                    && final(self).local() == old(self).local().insert(key@, entry_touched(old(self).local()[key@], now))),
    {
        match find_key(&self.local_cache, key) {
            Some(i) => {
                let ghost before = self.local_cache@;
                proof {
                    lemma_key_at(before, i as int);
                    lemma_key_remove(before, i as int);
                }
                let expired = match self.local_cache[i].1.expires_at {
                    Some(t) => now > t,
                    None => false,
                };
                if expired {
                    let _gone = self.local_cache.remove(i);
                    return Ok(None);
                }
                let (k, mut e) = self.local_cache.remove(i);
                e.access_count = e.access_count + 1;
                e.last_accessed = now;
                let out = copy_value(&e.value);
                let ghost item = (k, e);
                self.local_cache.insert(i, (k, e));
                proof {
                    assert(self.local_cache@ =~= before.update(i as int, item));
                    lemma_key_update(before, i as int, item);
                }
                return Ok(Some(out));
            },
            None => {},
        }
        let targets = self.hash_ring.get_nodes(key, self.config.replication_factor as usize);
        let mut j: usize = 0;
        while j < targets.len()
            invariant
                self.well_formed(),
                self.local() == old(self).local(),
                self.config() == old(self).config(),
                !self.local().contains_key(key@),
            decreases targets.len() - j,
        {
            match self.get_from_remote_node(targets[j].as_str(), key) {
                Ok(Some(v)) => {
                    self.cache_locally(key, v.as_slice(), now);
                    return Ok(Some(v));
                },
                Ok(None) => {},
                Err(e) => { return Err(e); },
            }
            j = j + 1;
        }
        Ok(None)
    }

    /// Stores `value` under `key` at `now` in the local layer, to expire
    /// `ttl_ms` later if a lifetime is given, and sends it to the replicas
    /// that the ring places the key on.
    pub fn set(&mut self, key: &str, value: Vec<u8>, ttl_ms: Option<u64>, now: i64) -> (res: Result<()>)
        requires
            old(self).well_formed(),
            ttl_ms matches Some(d) ==> now + d <= i64::MAX,
        ensures
            final(self).well_formed(),
            final(self).config() == old(self).config(),
            res is Ok,
            final(self).local().remove(key@) == old(self).local().remove(key@),
            final(self).local().contains_key(key@),
            ({
                let e = final(self).local()[key@];
                &&& e.key@ == key@
                &&& e.value@ == value@
                &&& e.created_at == now
                &&& e.expires_at == stored_expiry(ttl_ms, now)
                &&& e.access_count == 0
                &&& e.last_accessed == now
                &&& e.version == 1
            }),
    {
        let expires_at = match ttl_ms {
            Some(d) => Some(later_by(now, d)),
            None => None,
        };
        let copy = copy_value(&value);
        let entry = CacheEntry {
            key: String::from_str(key),
            value: copy,
            created_at: now,
            expires_at,
            access_count: 0,
            last_accessed: now,
            version: 1,
        };
        self.put_local(key, entry);
        assert(self.local().remove(key@) =~= old(self).local().remove(key@));
        let targets = self.hash_ring.get_nodes(key, self.config.replication_factor as usize);
        let mut j: usize = 0;
        while j < targets.len()
            decreases targets.len() - j,
        {
            match self.set_to_remote_node(targets[j].as_str(), key, value.as_slice(), ttl_ms) {
                Ok(()) => {},
                Err(e) => { return Err(e); },
            }
            j = j + 1;
        }
        Ok(())
    }

    /// Removes `key` from the local layer and from its replicas.
    pub fn delete(&mut self, key: &str) -> (res: Result<()>)
        requires
            old(self).well_formed(),
        ensures
            final(self).well_formed(),
            final(self).config() == old(self).config(),
            res is Ok,
            final(self).local() == old(self).local().remove(key@),
    {
        match find_key(&self.local_cache, key) {
            Some(i) => {
                proof { lemma_key_remove(self.local_cache@, i as int); lemma_key_at(self.local_cache@, i as int); }
                let _gone = self.local_cache.remove(i);
            },
            None => {
                assert(old(self).local().remove(key@) =~= old(self).local());
            },
        }
        let targets = self.hash_ring.get_nodes(key, self.config.replication_factor as usize);
        let mut j: usize = 0;
        while j < targets.len()
            decreases targets.len() - j,
        {
            match self.delete_from_remote_node(targets[j].as_str(), key) {
                Ok(()) => {},
                Err(e) => { return Err(e); },
            }
            j = j + 1;
        }
        Ok(())
    }
}

} // verus!
