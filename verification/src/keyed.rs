//! Lists keyed by strings: a list of `(key, value)` pairs with distinct keys
//! stands for a map from key to value, and a list of distinct keys records an
//! order among them.

use vstd::prelude::*;
use crate::text::string_views;

verus! {

/// No two pairs of `s` share a key.
pub open spec fn unique_keys<V>(s: Seq<(String, V)>) -> bool {
    forall|i: int, j: int| 0 <= i < j < s.len() ==> s[i].0@ != s[j].0@
}

/// The key-to-value map that a list of pairs stands for.
pub open spec fn key_map<V>(s: Seq<(String, V)>) -> Map<Seq<char>, V> {
    Map::new(
        |k: Seq<char>| exists|i: int| 0 <= i < s.len() && #[trigger] s[i].0@ == k,
        |k: Seq<char>| s[choose|i: int| 0 <= i < s.len() && #[trigger] s[i].0@ == k].1,
    )
}

/// The pair at index `i` is what the map holds for its key.
pub proof fn lemma_key_at<V>(s: Seq<(String, V)>, i: int)
    requires
        unique_keys(s),
        0 <= i < s.len(),
    ensures
        key_map(s).contains_key(s[i].0@),
        key_map(s)[s[i].0@] == s[i].1,
{
    let k = s[i].0@;
    assert(s[i].0@ == k);
    let j = choose|j: int| 0 <= j < s.len() && #[trigger] s[j].0@ == k;
    assert(j == i);
}

/// Replacing the pair at index `i` by one with the same key replaces the value.
pub proof fn lemma_key_update<V>(s: Seq<(String, V)>, i: int, e: (String, V))
    requires
        unique_keys(s),
        0 <= i < s.len(),
        s[i].0@ == e.0@,
    ensures
        unique_keys(s.update(i, e)),
        key_map(s.update(i, e)) == key_map(s).insert(e.0@, e.1),
{
    let t = s.update(i, e);
    assert(unique_keys(t)) by {
        assert forall|a: int, b: int| 0 <= a < b < t.len() implies t[a].0@ != t[b].0@ by {
            assert(t[a].0@ == s[a].0@ && t[b].0@ == s[b].0@);
        }
    }
    assert forall|k: Seq<char>| #[trigger] key_map(t).contains_key(k) == key_map(s).insert(e.0@, e.1).contains_key(k) by {
        if key_map(s).contains_key(k) {
            let j = choose|j: int| 0 <= j < s.len() && #[trigger] s[j].0@ == k;
            assert(t[j].0@ == k);
        }
        if key_map(t).contains_key(k) {
            let j = choose|j: int| 0 <= j < t.len() && #[trigger] t[j].0@ == k;
            assert(s[j].0@ == k);
        }
        if k == e.0@ {
            assert(t[i].0@ == k);
        }
    }
    assert forall|k: Seq<char>| #[trigger] key_map(t).contains_key(k) implies key_map(t)[k] == key_map(s).insert(e.0@, e.1)[k] by {
        let j = choose|j: int| 0 <= j < t.len() && #[trigger] t[j].0@ == k;
        lemma_key_at(t, j);
        lemma_key_at(s, j);
    }
    assert(key_map(t) =~= key_map(s).insert(e.0@, e.1));
}

/// Appending a pair with a new key adds it to the map.
pub proof fn lemma_key_push<V>(s: Seq<(String, V)>, e: (String, V))
    requires
        unique_keys(s),
        !key_map(s).contains_key(e.0@),
    ensures
        unique_keys(s.push(e)),
        key_map(s.push(e)) == key_map(s).insert(e.0@, e.1),
{
    let t = s.push(e);
    assert forall|i: int| 0 <= i < s.len() implies s[i].0@ != e.0@ by {
        if s[i].0@ == e.0@ {
            lemma_key_at(s, i);
        }
    }
    assert(unique_keys(t)) by {
        assert forall|a: int, b: int| 0 <= a < b < t.len() implies t[a].0@ != t[b].0@ by {
            if b < s.len() { assert(t[a] == s[a] && t[b] == s[b]); } else { assert(t[a] == s[a]); }
        }
    }
    assert forall|k: Seq<char>| #[trigger] key_map(t).contains_key(k) == key_map(s).insert(e.0@, e.1).contains_key(k) by {
        if key_map(s).contains_key(k) {
            let j = choose|j: int| 0 <= j < s.len() && #[trigger] s[j].0@ == k;
            assert(t[j].0@ == k);
        }
        if key_map(t).contains_key(k) {
            let j = choose|j: int| 0 <= j < t.len() && #[trigger] t[j].0@ == k;
            if j < s.len() { assert(s[j].0@ == k); }
        }
        if k == e.0@ {
            assert(t[s.len() as int].0@ == k);
        }
    }
    assert forall|k: Seq<char>| #[trigger] key_map(t).contains_key(k) implies key_map(t)[k] == key_map(s).insert(e.0@, e.1)[k] by {
        let j = choose|j: int| 0 <= j < t.len() && #[trigger] t[j].0@ == k;
        lemma_key_at(t, j);
        if j < s.len() { assert(t[j] == s[j]); lemma_key_at(s, j); }
    }
    assert(key_map(t) =~= key_map(s).insert(e.0@, e.1));
}

/// Removing the pair at index `i` removes its key from the map.
pub proof fn lemma_key_remove<V>(s: Seq<(String, V)>, i: int)
    requires
        unique_keys(s),
        0 <= i < s.len(),
    ensures
        unique_keys(s.remove(i)),
        key_map(s.remove(i)) == key_map(s).remove(s[i].0@),
{
    let t = s.remove(i);
    lemma_key_at(s, i);
    assert forall|a: int| 0 <= a < t.len() implies #[trigger] t[a] == (if a < i { s[a] } else { s[a + 1] }) by {}
    assert(unique_keys(t)) by {
        assert forall|a: int, b: int| 0 <= a < b < t.len() implies t[a].0@ != t[b].0@ by {
            let a2 = if a < i { a } else { a + 1 };
            let b2 = if b < i { b } else { b + 1 };
            assert(t[a] == s[a2] && t[b] == s[b2]);
        }
    }
    let k0 = s[i].0@;
    assert forall|k: Seq<char>| #[trigger] key_map(t).contains_key(k) == key_map(s).remove(k0).contains_key(k) by {
        if key_map(s).contains_key(k) && k != k0 {
            let j = choose|j: int| 0 <= j < s.len() && #[trigger] s[j].0@ == k;
            if j < i { assert(t[j].0@ == k); } else { assert(j != i); assert(t[j - 1].0@ == k); }
        }
        if key_map(t).contains_key(k) {
            let j = choose|j: int| 0 <= j < t.len() && #[trigger] t[j].0@ == k;
            let j2 = if j < i { j } else { j + 1 };
            assert(s[j2].0@ == k);
            assert(j2 != i);
        }
    }
    assert forall|k: Seq<char>| #[trigger] key_map(t).contains_key(k) implies key_map(t)[k] == key_map(s)[k] by {
        let j = choose|j: int| 0 <= j < t.len() && #[trigger] t[j].0@ == k;
        let j2 = if j < i { j } else { j + 1 };
        lemma_key_at(t, j);
        lemma_key_at(s, j2);
    }
    assert(key_map(t) =~= key_map(s).remove(k0));
}

/// The map of a list with distinct keys is finite and has one key per pair.
pub proof fn lemma_key_map_len<V>(s: Seq<(String, V)>)
    requires
        unique_keys(s),
    ensures
        key_map(s).dom().finite(),
        key_map(s).len() == s.len(),
    decreases s.len(),
{
    if s.len() == 0 {
        assert(key_map(s).dom() =~= Set::<Seq<char>>::empty());
    } else {
        let p = s.drop_last();
        assert(unique_keys(p)) by {
            assert forall|a: int, b: int| 0 <= a < b < p.len() implies p[a].0@ != p[b].0@ by {
                assert(p[a] == s[a] && p[b] == s[b]);
            }
        }
        lemma_key_map_len(p);
        assert(!key_map(p).contains_key(s.last().0@)) by {
            if key_map(p).contains_key(s.last().0@) {
                let j = choose|j: int| 0 <= j < p.len() && #[trigger] p[j].0@ == s.last().0@;
                assert(s[j].0@ == s[s.len() - 1].0@);
            }
        }
        lemma_key_push(p, s.last());
        assert(p.push(s.last()) =~= s);
    }
}

/// The index of the pair whose key is `key`, if there is one.
pub fn find_key<V>(s: &Vec<(String, V)>, key: &str) -> (res: Option<usize>)
    requires
        unique_keys(s@),
    ensures
        match res {
            Some(i) => i < s@.len() && s@[i as int].0@ == key@,
            None => !key_map(s@).contains_key(key@),
        },
{
    let t = String::from_str(key);
    let mut i: usize = 0;
    while i < s.len()
        invariant
            i <= s@.len(),
            t@ == key@,
            forall|j: int| 0 <= j < i ==> s@[j].0@ != key@,
        decreases s.len() - i,
    {
        if s[i].0 == t {
            return Some(i);
        }
        i = i + 1;
    }
    proof {
        if key_map(s@).contains_key(key@) {
            let j = choose|j: int| 0 <= j < s@.len() && #[trigger] s@[j].0@ == key@;
            assert(s@[j].0@ == key@);
        }
    }
    None
}

/// No key occurs twice in `s`.
pub open spec fn no_dups(s: Seq<Seq<char>>) -> bool {
    forall|i: int, j: int| 0 <= i < j < s.len() ==> s[i] != s[j]
}

/// `s` with every occurrence of `k` left out.
pub open spec fn without_key(s: Seq<Seq<char>>, k: Seq<char>) -> Seq<Seq<char>>
    decreases s.len(),
{
    if s.len() == 0 {
        s
    } else {
        let r = without_key(s.drop_last(), k);
        if s.last() == k { r } else { r.push(s.last()) }
    }
}

/// Leaving out a key distributes over concatenation.
pub proof fn lemma_without_concat(a: Seq<Seq<char>>, b: Seq<Seq<char>>, k: Seq<char>)
    ensures
        without_key(a + b, k) == without_key(a, k) + without_key(b, k),
    decreases b.len(),
{
    if b.len() == 0 {
        assert(a + b =~= a);
        assert(without_key(a, k) + without_key(b, k) =~= without_key(a, k));
    } else {
        lemma_without_concat(a, b.drop_last(), k);
        assert((a + b).drop_last() =~= a + b.drop_last());
        assert((a + b).last() == b.last());
        if b.last() != k {
            assert(without_key(a, k) + without_key(b.drop_last(), k).push(b.last())
                =~= (without_key(a, k) + without_key(b.drop_last(), k)).push(b.last()));
        }
    }
}

/// Leaving out a key that does not occur changes nothing.
pub proof fn lemma_without_absent(s: Seq<Seq<char>>, k: Seq<char>)
    requires
        !s.contains(k),
    ensures
        without_key(s, k) == s,
    decreases s.len(),
{
    if s.len() > 0 {
        assert(!s.drop_last().contains(k)) by {
            if s.drop_last().contains(k) {
                let j = choose|j: int| 0 <= j < s.drop_last().len() && s.drop_last()[j] == k;
                assert(s[j] == k);
            }
        }
        lemma_without_absent(s.drop_last(), k);
        assert(s[s.len() - 1] != k);
        assert(s.drop_last().push(s.last()) =~= s);
    }
}

/// What is left of `s` is a part of `s`, and keeps `s` free of repeats.
pub proof fn lemma_without_sub(s: Seq<Seq<char>>, k: Seq<char>)
    ensures
        forall|x: Seq<char>| #[trigger] without_key(s, k).contains(x) <==> (s.contains(x) && x != k),
        no_dups(s) ==> no_dups(without_key(s, k)),
    decreases s.len(),
{
    if s.len() > 0 {
        let p = s.drop_last();
        lemma_without_sub(p, k);
        let r = without_key(p, k);
        let w = without_key(s, k);
        assert(forall|m: int| 0 <= m < r.len() ==> w[m] == r[m]);
        assert forall|x: Seq<char>| #[trigger] w.contains(x) <==> (s.contains(x) && x != k) by {
            if s.contains(x) && x != k {
                let j = choose|j: int| 0 <= j < s.len() && s[j] == x;
                if j < p.len() {
                    assert(p[j] == x);
                    assert(p.contains(x));
                    assert(r.contains(x));
                    let m = choose|m: int| 0 <= m < r.len() && r[m] == x;
                    assert(w[m] == x);
                } else {
                    assert(s.last() == x);
                    assert(w[r.len() as int] == x);
                }
            }
            if w.contains(x) {
                let j = choose|j: int| 0 <= j < w.len() && w[j] == x;
                if s.last() == k || j < r.len() {
                    assert(r[j] == x);
                    assert(r.contains(x));
                    assert(p.contains(x));
                    let m = choose|m: int| 0 <= m < p.len() && p[m] == x;
                    assert(s[m] == x);
                } else {
                    assert(x == s.last());
                    assert(s[s.len() - 1] == x);
                }
            }
        }
        if no_dups(s) {
            assert(no_dups(p)) by {
                assert forall|a: int, b: int| 0 <= a < b < p.len() implies p[a] != p[b] by {
                    assert(p[a] == s[a] && p[b] == s[b]);
                }
            }
            if s.last() != k {
                assert(!r.contains(s.last())) by {
                    if r.contains(s.last()) {
                        assert(p.contains(s.last()));
                        let m = choose|m: int| 0 <= m < p.len() && p[m] == s.last();
                        assert(s[m] == s[s.len() - 1]);
                    }
                }
                let t = r.push(s.last());
                assert forall|a: int, b: int| 0 <= a < b < t.len() implies t[a] != t[b] by {
                    if b == r.len() {
                        assert(t[a] == r[a]);
                        assert(r.contains(r[a]));
                    } else {
                        assert(t[a] == r[a] && t[b] == r[b]);
                    }
                }
            }
        }
    }
}

/// Removes `key` from a list of distinct keys, if it is there.
pub fn remove_key(v: &mut Vec<String>, key: &str)
    requires
        no_dups(string_views(old(v)@)),
    ensures
        string_views(final(v)@) == without_key(string_views(old(v)@), key@),
        no_dups(string_views(final(v)@)),
{
    let ghost s = string_views(v@);
    proof { lemma_without_sub(s, key@); }
    let t = String::from_str(key);
    let mut i: usize = 0;
    while i < v.len()
        invariant
            i <= v@.len(),
            t@ == key@,
            s == string_views(v@),
            s == string_views(old(v)@),
            no_dups(s),
            forall|j: int| 0 <= j < i ==> s[j] != key@,
        decreases v.len() - i,
    {
        if v[i] == t {
            assert(s[i as int] == key@);
            let ghost pre = s.take(i as int);
            let ghost post = s.skip(i + 1);
            assert(s =~= pre + seq![key@] + post);
            assert(!pre.contains(key@)) by {
                if pre.contains(key@) {
                    let m = choose|m: int| 0 <= m < pre.len() && pre[m] == key@;
                    assert(s[m] == pre[m]);
                }
            }
            assert(!post.contains(key@)) by {
                if post.contains(key@) {
                    let m = choose|m: int| 0 <= m < post.len() && post[m] == key@;
                    assert(s[i + 1 + m] == post[m]);
                    assert(s[i + 1 + m] == s[i as int]);
                }
            }
            v.remove(i);
            proof {
                assert(string_views(v@) =~= pre + post);
                lemma_without_concat(pre + seq![key@], post, key@);
                lemma_without_concat(pre, seq![key@], key@);
                lemma_without_absent(pre, key@);
                lemma_without_absent(post, key@);
                let e = Seq::<Seq<char>>::empty();
                assert(without_key(e, key@) == e);
                assert(seq![key@].drop_last() =~= e);
                assert(seq![key@].last() == key@);
                assert(without_key(seq![key@], key@) == e);
                assert(pre + e =~= pre);
                assert(without_key(s, key@) == pre + post);
            }
            return;
        }
        i = i + 1;
    }
    proof {
        assert(!s.contains(key@)) by {
            if s.contains(key@) {
                let j = choose|j: int| 0 <= j < s.len() && s[j] == key@;
                assert(s[j] != key@);
            }
        }
        lemma_without_absent(s, key@);
    }
}

} // verus!
