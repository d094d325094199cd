//! Which messages a conversation keeps when it is compacted: the important
//! ones (system messages and long messages) and the twenty most recent,
//! each message once, in time order.

use vstd::prelude::*;

verus! {

/// What compaction reads of a stored message: its id, its role, the byte
/// length of its content and its time (milliseconds since the Unix epoch).
#[derive(Debug, Clone)]
pub struct MessageHeader {
    pub id: String,
    pub role: String,
    pub content_bytes: usize,
    pub timestamp: i64,
}

/// A message is important when it is a system message or its content is
/// longer than 1000 bytes.
pub open spec fn is_important(h: MessageHeader) -> bool {
    h.role@ == "system"@ || h.content_bytes > 1000
}

/// The positions of the important messages, in order.
pub open spec fn important_positions(hs: Seq<MessageHeader>) -> Seq<usize>
    decreases hs.len(),
{
    if hs.len() == 0 {
        Seq::empty()
    } else {
        let r = important_positions(hs.drop_last());
        if is_important(hs.last()) { r.push((hs.len() - 1) as usize) } else { r }
    }
}

/// Where the twenty most recent messages begin.
pub open spec fn recent_start(n: nat) -> nat {
    if n < 20 { 0 } else { (n - 20) as nat }
}

/// Whether a message with id `id` is among the chosen positions.
pub open spec fn id_taken(hs: Seq<MessageHeader>, chosen: Seq<usize>, id: Seq<char>) -> bool {
    exists|j: int| 0 <= j < chosen.len() && #[trigger] hs[chosen[j] as int].id@ == id
}

/// The chosen positions after the recent messages from position `k` on
/// were added, each one whose id is not yet chosen.
pub open spec fn add_recent(hs: Seq<MessageHeader>, chosen: Seq<usize>, k: nat) -> Seq<usize>
    decreases hs.len() - k,
{
    if k >= hs.len() {
        chosen
    } else {
        let next = if id_taken(hs, chosen, hs[k as int].id@) { chosen } else { chosen.push(k as usize) };
        add_recent(hs, next, k + 1)
    }
}

/// `x` placed into `s` after every position no later than it.
pub open spec fn insert_by_time(hs: Seq<MessageHeader>, s: Seq<usize>, x: usize) -> Seq<usize>
    decreases s.len(),
{
    if s.len() == 0 {
        seq![x]
    } else if hs[s.last() as int].timestamp <= hs[x as int].timestamp {
        s.push(x)
    } else {
        insert_by_time(hs, s.drop_last(), x).push(s.last())
    }
}

/// The positions ordered by time, positions with equal times kept in their
/// order (a stable sort by timestamp).
pub open spec fn sort_by_time(hs: Seq<MessageHeader>, s: Seq<usize>) -> Seq<usize>
    decreases s.len(),
{
    if s.len() == 0 { s } else { insert_by_time(hs, sort_by_time(hs, s.drop_last()), s.last()) }
}

/// The positions a compacted conversation keeps, in the order it keeps them.
pub open spec fn compaction_positions(hs: Seq<MessageHeader>) -> Seq<usize> {
    sort_by_time(hs, add_recent(hs, important_positions(hs), recent_start(hs.len())))
}

/// The positions are in time order.
pub open spec fn positions_in_time_order(hs: Seq<MessageHeader>, s: Seq<usize>) -> bool {
    forall|i: int, j: int| 0 <= i < j < s.len() ==> hs[s[i] as int].timestamp <= hs[s[j] as int].timestamp
}

proof fn lemma_insert_ordered(hs: Seq<MessageHeader>, s: Seq<usize>, x: usize)
    requires
        positions_in_time_order(hs, s),
    ensures
        positions_in_time_order(hs, insert_by_time(hs, s, x)),
        insert_by_time(hs, s, x).to_multiset() == s.to_multiset().insert(x),
    decreases s.len(),
{
    broadcast use vstd::seq_lib::group_to_multiset_ensures;
    if s.len() == 0 {
        assert(seq![x] =~= Seq::<usize>::empty().push(x));
    } else if hs[s.last() as int].timestamp <= hs[x as int].timestamp {
        let t = s.push(x);
        assert forall|i: int, j: int| 0 <= i < j < t.len() implies hs[t[i] as int].timestamp <= hs[t[j] as int].timestamp by {
            if j == s.len() && i < s.len() - 1 { assert(t[i] == s[i]); }
        }
    } else {
        let p = s.drop_last();
        assert(positions_in_time_order(hs, p)) by {
            assert forall|i: int, j: int| 0 <= i < j < p.len() implies hs[p[i] as int].timestamp <= hs[p[j] as int].timestamp by {
                assert(p[i] == s[i] && p[j] == s[j]);
            }
        }
        lemma_insert_ordered(hs, p, x);
        let r = insert_by_time(hs, p, x);
        let t = r.push(s.last());
        assert forall|i: int| 0 <= i < r.len() implies #[trigger] hs[r[i] as int].timestamp <= hs[s.last() as int].timestamp by {
            assert(r.to_multiset().count(r[i]) > 0);
            assert(p.to_multiset().insert(x).count(r[i]) > 0);
            if r[i] != x {
                assert(p.to_multiset().count(r[i]) > 0);
                assert(p.contains(r[i]));
                let k = choose|k: int| 0 <= k < p.len() && p[k] == r[i];
                assert(s[k] == p[k]);
            }
        }
        assert forall|i: int, j: int| 0 <= i < j < t.len() implies hs[t[i] as int].timestamp <= hs[t[j] as int].timestamp by {
            if j == r.len() { assert(t[i] == r[i]); } else { assert(t[i] == r[i] && t[j] == r[j]); }
        }
        assert(p.push(s.last()) =~= s);
        assert(s.to_multiset() == p.to_multiset().insert(s.last()));
        assert(t.to_multiset() =~= s.to_multiset().insert(x));
    }
}

/// A compacted conversation keeps its messages in time order.
pub proof fn law_compaction_in_time_order(hs: Seq<MessageHeader>)
    ensures
        positions_in_time_order(hs, compaction_positions(hs)),
{
    lemma_sort_ordered(hs, add_recent(hs, important_positions(hs), recent_start(hs.len())));
}

proof fn lemma_sort_ordered(hs: Seq<MessageHeader>, s: Seq<usize>)
    ensures
        positions_in_time_order(hs, sort_by_time(hs, s)),
    decreases s.len(),
{
    if s.len() > 0 {
        lemma_sort_ordered(hs, s.drop_last());
        lemma_insert_ordered(hs, sort_by_time(hs, s.drop_last()), s.last());
    }
}

proof fn lemma_insert_at(hs: Seq<MessageHeader>, s: Seq<usize>, x: usize, p: int)
    requires
        0 <= p <= s.len(),
        p > 0 ==> hs[s[p - 1] as int].timestamp <= hs[x as int].timestamp,
        forall|j: int| p <= j < s.len() ==> hs[s[j] as int].timestamp > hs[x as int].timestamp,
    ensures
        insert_by_time(hs, s, x) == s.insert(p, x),
    decreases s.len(),
{
    if s.len() == 0 {
        assert(s.insert(p, x) =~= seq![x]);
    } else if p == s.len() {
        assert(s.insert(p, x) =~= s.push(x));
    } else {
        lemma_insert_at(hs, s.drop_last(), x, p);
        assert(s.drop_last().insert(p, x).push(s.last()) =~= s.insert(p, x));
    }
}

/// The positions of the messages a compacted conversation keeps: the
/// important messages, then the twenty most recent whose ids are not yet
/// kept, all ordered by time.
pub fn compaction_order(headers: &[MessageHeader]) -> (res: Vec<usize>)
    ensures
        res@ == compaction_positions(headers@),
{
    let ghost hs = headers@;
    let n = headers.len();
    // the important messages
    let mut chosen: Vec<usize> = Vec::new();
    let mut i: usize = 0;
    while i < n
        invariant
            i <= n,
            n == hs.len(),
            hs == headers@,
            chosen@ == important_positions(hs.take(i as int)),
            forall|j: int| 0 <= j < chosen@.len() ==> chosen@[j] < i,
        decreases n - i,
    {
        proof {
            assert(hs.take(i + 1).drop_last() =~= hs.take(i as int));
            assert(hs.take(i + 1).last() == hs[i as int]);
            assert(hs.take(i + 1).len() - 1 == i);
        }
        let h = &headers[i];
        if h.role == String::from_str("system") || h.content_bytes > 1000 {
            chosen.push(i);
        }
        i = i + 1;
    }
    assert(hs.take(n as int) =~= hs);
    proof { lemma_important_prefix(hs); }
    // the recent messages whose ids are not yet chosen
    let mut k: usize = if n < 20 { 0 } else { n - 20 };
    let ghost target = add_recent(hs, important_positions(hs), recent_start(hs.len()));
    while k < n
        invariant
            k <= n,
            n == hs.len(),
            hs == headers@,
            forall|j: int| 0 <= j < chosen@.len() ==> chosen@[j] < n,
            add_recent(hs, chosen@, k as nat) == target,
        decreases n - k,
    {
        let mut taken = false;
        let mut j: usize = 0;
        while j < chosen.len()
            invariant
                j <= chosen@.len(),
                k < n,
                n == hs.len(),
                hs == headers@,
                forall|q: int| 0 <= q < chosen@.len() ==> chosen@[q] < n,
                taken <==> exists|q: int| 0 <= q < j && #[trigger] hs[chosen@[q] as int].id@ == hs[k as int].id@,
            decreases chosen.len() - j,
        {
            if headers[chosen[j]].id == headers[k].id {
                taken = true;
            }
            j = j + 1;
        }
        assert(taken == id_taken(hs, chosen@, hs[k as int].id@));
        if !taken {
            chosen.push(k);
        }
        k = k + 1;
    }
    // ordered by time, equal times keeping their order
    let ghost input = chosen@;
    let mut out: Vec<usize> = Vec::new();
    let mut m: usize = 0;
    while m < chosen.len()
        invariant
            m <= input.len(),
            chosen@ == input,
            n == hs.len(),
            hs == headers@,
            forall|j: int| 0 <= j < input.len() ==> input[j] < n,
            forall|j: int| 0 <= j < out@.len() ==> out@[j] < n,
            out@ == sort_by_time(hs, input.take(m as int)),
        decreases chosen.len() - m,
    {
        let x = chosen[m];
        proof {
            assert(input.take(m + 1).drop_last() =~= input.take(m as int));
            assert(input.take(m + 1).last() == x);
        }
        let mut p = out.len();
        while p > 0 && headers[out[p - 1]].timestamp > headers[x].timestamp
            invariant
                p <= out@.len(),
                x < n,
                n == hs.len(),
                hs == headers@,
                forall|j: int| 0 <= j < out@.len() ==> out@[j] < n,
                forall|j: int| p <= j < out@.len() ==> hs[out@[j] as int].timestamp > hs[x as int].timestamp,
            decreases p,
        {
            p = p - 1;
        }
        proof { lemma_insert_at(hs, out@, x, p as int); }
        out.insert(p, x);
        m = m + 1;
    }
    assert(input.take(input.len() as int) =~= input);
    out
}

proof fn lemma_important_prefix(hs: Seq<MessageHeader>)
    ensures
        forall|j: int| 0 <= j < important_positions(hs).len() ==> #[trigger] important_positions(hs)[j] < hs.len(),
    decreases hs.len(),
{
    if hs.len() > 0 {
        lemma_important_prefix(hs.drop_last());
        let r = important_positions(hs.drop_last());
        let s = important_positions(hs);
        assert forall|j: int| 0 <= j < s.len() implies #[trigger] s[j] < hs.len() by {
            if j < r.len() { assert(s[j] == r[j]); }
        }
    }
}

} // verus!
