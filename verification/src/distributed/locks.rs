//! Distributed locks: acquisition, release with hand-over to waiters, and
//! expiry. Times are milliseconds since the epoch, durations milliseconds.

use vstd::prelude::*;

verus! {

/// Kinds of lock.
#[derive(Debug, Clone, Copy, PartialEq, Eq, Structural)]
pub enum LockType {
    Exclusive,
    Shared,
}

/// The outcome of a lock request.
#[derive(Debug, Clone)]
pub enum LockResult {
    Acquired,
    Timeout,
    Conflict,
    Error(String),
}

/// A request waiting for a lock.
#[derive(Debug, Clone)]
pub struct LockRequest {
    /// The node asking.
    pub requester: String,
    /// When it asked.
    pub requested_at: i64,
    /// The kind of lock asked for.
    pub lock_type: LockType,
    /// How long it would hold the lock.
    pub timeout_ms: u64,
}

/// A held lock.
#[derive(Debug, Clone)]
pub struct DistributedLock {
    /// The lock's name.
    pub id: String,
    /// The node holding it.
    pub holder: String,
    /// When it was acquired.
    pub acquired_at: i64,
    /// When it expires.
    pub expires_at: i64,
    /// Its kind.
    pub lock_type: LockType,
    /// Requests waiting for it, oldest first.
    pub waiting_queue: Vec<LockRequest>,
}

/// No two locks share a name.
pub open spec fn unique_ids(s: Seq<DistributedLock>) -> bool {
    forall|i: int, j: int| 0 <= i < j < s.len() ==> s[i].id@ != s[j].id@
}

/// The name-to-lock map that a list of locks stands for.
pub open spec fn lock_map(s: Seq<DistributedLock>) -> Map<Seq<char>, DistributedLock> {
    Map::new(
        |n: Seq<char>| exists|i: int| 0 <= i < s.len() && #[trigger] s[i].id@ == n,
        |n: Seq<char>| s[choose|i: int| 0 <= i < s.len() && #[trigger] s[i].id@ == n],
    )
}

proof fn lemma_lock_at(s: Seq<DistributedLock>, i: int)
    requires
        unique_ids(s),
        0 <= i < s.len(),
    ensures
        lock_map(s).contains_key(s[i].id@),
        lock_map(s)[s[i].id@] == s[i],
{
    let n = s[i].id@;
    assert(s[i].id@ == n);
    let j = choose|j: int| 0 <= j < s.len() && #[trigger] s[j].id@ == n;
    assert(j == i);
}

proof fn lemma_lock_update(s: Seq<DistributedLock>, i: int, l: DistributedLock)
    requires
        unique_ids(s),
        0 <= i < s.len(),
        s[i].id@ == l.id@,
    ensures
        unique_ids(s.update(i, l)),
        lock_map(s.update(i, l)) == lock_map(s).insert(l.id@, l),
{
    let t = s.update(i, l);
    assert(unique_ids(t)) by {
        assert forall|a: int, b: int| 0 <= a < b < t.len() implies t[a].id@ != t[b].id@ by {
            assert(t[a].id@ == s[a].id@ && t[b].id@ == s[b].id@);
        }
    }
    assert forall|n: Seq<char>| #[trigger] lock_map(t).contains_key(n) == lock_map(s).insert(l.id@, l).contains_key(n) by {
        if lock_map(s).contains_key(n) {
            let j = choose|j: int| 0 <= j < s.len() && #[trigger] s[j].id@ == n;
            assert(t[j].id@ == n);
        }
        if lock_map(t).contains_key(n) {
            let j = choose|j: int| 0 <= j < t.len() && #[trigger] t[j].id@ == n;
            assert(s[j].id@ == n);
        }
        if n == l.id@ {
            assert(t[i].id@ == n);
        }
    }
    assert forall|n: Seq<char>| #[trigger] lock_map(t).contains_key(n) implies lock_map(t)[n] == lock_map(s).insert(l.id@, l)[n] by {
        let j = choose|j: int| 0 <= j < t.len() && #[trigger] t[j].id@ == n;
        lemma_lock_at(t, j);
        lemma_lock_at(s, j);
    }
    assert(lock_map(t) =~= lock_map(s).insert(l.id@, l));
}

proof fn lemma_lock_push(s: Seq<DistributedLock>, l: DistributedLock)
    requires
        unique_ids(s),
        forall|i: int| 0 <= i < s.len() ==> s[i].id@ != l.id@,
    ensures
        unique_ids(s.push(l)),
        lock_map(s.push(l)) == lock_map(s).insert(l.id@, l),
        !lock_map(s).contains_key(l.id@),
{
    let t = s.push(l);
    assert(unique_ids(t)) by {
        assert forall|a: int, b: int| 0 <= a < b < t.len() implies t[a].id@ != t[b].id@ by {
            if b < s.len() { assert(t[a] == s[a] && t[b] == s[b]); } else { assert(t[a] == s[a]); }
        }
    }
    assert forall|n: Seq<char>| #[trigger] lock_map(t).contains_key(n) == lock_map(s).insert(l.id@, l).contains_key(n) by {
        if lock_map(s).contains_key(n) {
            let j = choose|j: int| 0 <= j < s.len() && #[trigger] s[j].id@ == n;
            assert(t[j].id@ == n);
        }
        if lock_map(t).contains_key(n) {
            let j = choose|j: int| 0 <= j < t.len() && #[trigger] t[j].id@ == n;
            if j < s.len() { assert(s[j].id@ == n); }
        }
        if n == l.id@ {
            assert(t[s.len() as int].id@ == n);
        }
    }
    assert forall|n: Seq<char>| #[trigger] lock_map(t).contains_key(n) implies lock_map(t)[n] == lock_map(s).insert(l.id@, l)[n] by {
        let j = choose|j: int| 0 <= j < t.len() && #[trigger] t[j].id@ == n;
        lemma_lock_at(t, j);
        if j < s.len() { assert(t[j] == s[j]); lemma_lock_at(s, j); }
    }
    assert(lock_map(t) =~= lock_map(s).insert(l.id@, l));
}

proof fn lemma_lock_remove(s: Seq<DistributedLock>, i: int)
    requires
        unique_ids(s),
        0 <= i < s.len(),
    ensures
        unique_ids(s.remove(i)),
        lock_map(s.remove(i)) == lock_map(s).remove(s[i].id@),
{
    let t = s.remove(i);
    lemma_lock_at(s, i);
    assert forall|a: int| 0 <= a < t.len() implies #[trigger] t[a] == (if a < i { s[a] } else { s[a + 1] }) by {}
    assert(unique_ids(t)) by {
        assert forall|a: int, b: int| 0 <= a < b < t.len() implies t[a].id@ != t[b].id@ by {
            let a2 = if a < i { a } else { a + 1 };
            let b2 = if b < i { b } else { b + 1 };
            assert(t[a] == s[a2] && t[b] == s[b2]);
        }
    }
    let n0 = s[i].id@;
    assert forall|n: Seq<char>| #[trigger] lock_map(t).contains_key(n) == lock_map(s).remove(n0).contains_key(n) by {
        if lock_map(s).contains_key(n) && n != n0 {
            let j = choose|j: int| 0 <= j < s.len() && #[trigger] s[j].id@ == n;
            if j < i { assert(t[j].id@ == n); } else { assert(j != i); assert(t[j - 1].id@ == n); }
        }
        if lock_map(t).contains_key(n) {
            let j = choose|j: int| 0 <= j < t.len() && #[trigger] t[j].id@ == n;
            let j2 = if j < i { j } else { j + 1 };
            assert(s[j2].id@ == n);
            assert(j2 != i);
        }
    }
    assert forall|n: Seq<char>| #[trigger] lock_map(t).contains_key(n) implies lock_map(t)[n] == lock_map(s)[n] by {
        let j = choose|j: int| 0 <= j < t.len() && #[trigger] t[j].id@ == n;
        let j2 = if j < i { j } else { j + 1 };
        lemma_lock_at(t, j);
        lemma_lock_at(s, j2);
    }
    assert(lock_map(t) =~= lock_map(s).remove(n0));
}

/// `now` advanced by `ms` milliseconds.
fn add_ms(now: i64, ms: u64) -> (t: i64)
    requires
        now + ms <= i64::MAX,
    ensures
        t == now + ms,
{
    (now as i128 + ms as i128) as i64
}

/// Whether a lock of kind `held` can be shared with a request of kind `wanted`.
pub open spec fn compatible(held: LockType, wanted: LockType) -> bool {
    held == LockType::Shared && wanted == LockType::Shared
}

/// The locks held by one node, keyed by name.
#[derive(Debug)]
pub struct DistributedLockManager {
    locks: Vec<DistributedLock>,
    node_id: String,
    lock_timeout_ms: u64,
}

impl DistributedLockManager {
    /// The locks, by name.
    pub closed spec fn locks(&self) -> Map<Seq<char>, DistributedLock> {
        lock_map(self.locks@)
    }

    /// The node this manager acts for.
    pub closed spec fn node_id(&self) -> Seq<char> {
        self.node_id@
    }

    /// The default lock timeout.
    pub closed spec fn lock_timeout_ms(&self) -> u64 {
        self.lock_timeout_ms
    }

    /// No two locks share a name.
    pub closed spec fn well_formed(&self) -> bool {
        unique_ids(self.locks@)
    }

    /// A manager holding no lock, with a default timeout of 30 seconds.
    pub fn new(node_id: String) -> (m: DistributedLockManager)
        ensures
            m.well_formed(),
            m.locks() == Map::<Seq<char>, DistributedLock>::empty(),
            m.node_id() == node_id@,
            m.lock_timeout_ms() == 30000,
    {
        let m = DistributedLockManager { locks: Vec::new(), node_id, lock_timeout_ms: 30000 };
        assert(m.locks() =~= Map::<Seq<char>, DistributedLock>::empty());
        m
    }

    fn find(&self, lock_id: &str) -> (res: Option<usize>)
        ensures
            res matches Some(i) ==> i < self.locks@.len() && self.locks@[i as int].id@ == lock_id@,
            res is None ==> forall|i: int| 0 <= i < self.locks@.len() ==> self.locks@[i].id@ != lock_id@,
    {
        let t = String::from_str(lock_id);
        let mut i: usize = 0;
        while i < self.locks.len()
            invariant
                i <= self.locks@.len(),
                t@ == lock_id@,
                forall|j: int| 0 <= j < i ==> self.locks@[j].id@ != lock_id@,
            decreases self.locks.len() - i,
        {
            if self.locks[i].id == t {
                return Some(i);
            }
            i = i + 1;
        }
        None
    }

    /// Requests `lock_id` of kind `lock_type` for `timeout_ms` at time `now`.
    /// A free lock is created; an expired lock is taken over; a shared lock is
    /// shared with another shared request; otherwise the request joins the
    /// lock's waiting queue and the answer is a conflict.
    pub fn acquire_lock(&mut self, lock_id: &str, lock_type: LockType, timeout_ms: u64, now: i64) -> (res: LockResult)
        requires
            old(self).well_formed(),
            now + timeout_ms <= i64::MAX,
        ensures
            final(self).well_formed(),
            final(self).node_id() == old(self).node_id(),
            final(self).lock_timeout_ms() == old(self).lock_timeout_ms(),
            final(self).locks().dom() == old(self).locks().dom().insert(lock_id@),
            forall|k: Seq<char>| k != lock_id@ && #[trigger] old(self).locks().contains_key(k)
                ==> final(self).locks()[k] == old(self).locks()[k],
            !old(self).locks().contains_key(lock_id@) ==> {
                &&& res is Acquired
                &&& final(self).locks()[lock_id@].id@ == lock_id@
                &&& final(self).locks()[lock_id@].holder@ == old(self).node_id()
                &&& final(self).locks()[lock_id@].acquired_at == now
                &&& final(self).locks()[lock_id@].expires_at == now + timeout_ms
                &&& final(self).locks()[lock_id@].lock_type == lock_type
                &&& final(self).locks()[lock_id@].waiting_queue@.len() == 0
            },
            old(self).locks().contains_key(lock_id@) && now > old(self).locks()[lock_id@].expires_at ==> {
                &&& res is Acquired
                &&& final(self).locks()[lock_id@].id == old(self).locks()[lock_id@].id
                &&& final(self).locks()[lock_id@].holder@ == old(self).node_id()
                &&& final(self).locks()[lock_id@].acquired_at == now
                &&& final(self).locks()[lock_id@].expires_at == now + timeout_ms
                &&& final(self).locks()[lock_id@].lock_type == lock_type
                &&& final(self).locks()[lock_id@].waiting_queue == old(self).locks()[lock_id@].waiting_queue
            },
            old(self).locks().contains_key(lock_id@) && now <= old(self).locks()[lock_id@].expires_at
                && compatible(old(self).locks()[lock_id@].lock_type, lock_type) ==> {
                &&& res is Acquired
                &&& final(self).locks() == old(self).locks()
            },
            old(self).locks().contains_key(lock_id@) && now <= old(self).locks()[lock_id@].expires_at
                && !compatible(old(self).locks()[lock_id@].lock_type, lock_type) ==> {
                &&& res is Conflict
                &&& final(self).locks()[lock_id@].id == old(self).locks()[lock_id@].id
                &&& final(self).locks()[lock_id@].holder == old(self).locks()[lock_id@].holder
                &&& final(self).locks()[lock_id@].acquired_at == old(self).locks()[lock_id@].acquired_at
                &&& final(self).locks()[lock_id@].expires_at == old(self).locks()[lock_id@].expires_at
                &&& final(self).locks()[lock_id@].lock_type == old(self).locks()[lock_id@].lock_type
                &&& final(self).locks()[lock_id@].waiting_queue@.len() == old(self).locks()[lock_id@].waiting_queue@.len() + 1
                &&& final(self).locks()[lock_id@].waiting_queue@.drop_last() == old(self).locks()[lock_id@].waiting_queue@
                &&& final(self).locks()[lock_id@].waiting_queue@.last().requester@ == old(self).node_id()
                &&& final(self).locks()[lock_id@].waiting_queue@.last().requested_at == now
                &&& final(self).locks()[lock_id@].waiting_queue@.last().lock_type == lock_type
                &&& final(self).locks()[lock_id@].waiting_queue@.last().timeout_ms == timeout_ms
            },
    {
        let ghost old_locks = self.locks@;
        match self.find(lock_id) {
            Some(i) => {
                proof { lemma_lock_at(old_locks, i as int); }
                let existing = self.locks[i].expires_at;
                let held = self.locks[i].lock_type;
                if now > existing {
                    let mut l = self.locks.remove(i);
                    l.holder = self.node_id.clone();
                    l.acquired_at = now;
                    l.expires_at = add_ms(now, timeout_ms);
                    l.lock_type = lock_type;
                    self.locks.insert(i, l);
                    assert(self.locks@ =~= old_locks.update(i as int, l));
                    proof { lemma_lock_update(old_locks, i as int, l); }
                    assert(self.locks().dom() =~= old(self).locks().dom().insert(lock_id@));
                    return LockResult::Acquired;
                }
                if held == LockType::Shared && lock_type == LockType::Shared {
                    assert(self.locks().dom() =~= old(self).locks().dom().insert(lock_id@));
                    return LockResult::Acquired;
                }
                let mut l = self.locks.remove(i);
                let request = LockRequest {
                    requester: self.node_id.clone(),
                    requested_at: now,
                    lock_type,
                    timeout_ms,
                };
                l.waiting_queue.push(request);
                self.locks.insert(i, l);
                assert(self.locks@ =~= old_locks.update(i as int, l));
                proof { lemma_lock_update(old_locks, i as int, l); }
                assert(l.waiting_queue@.drop_last() =~= old_locks[i as int].waiting_queue@);
                assert(self.locks().dom() =~= old(self).locks().dom().insert(lock_id@));
                LockResult::Conflict
            },
            None => {
                let l = DistributedLock {
                    id: String::from_str(lock_id),
                    holder: self.node_id.clone(),
                    acquired_at: now,
                    expires_at: add_ms(now, timeout_ms),
                    lock_type,
                    waiting_queue: Vec::new(),
                };
                self.locks.push(l);
                assert(self.locks@ == old_locks.push(l));
                proof { lemma_lock_push(old_locks, l); }
                assert(self.locks().dom() =~= old(self).locks().dom().insert(lock_id@));
                LockResult::Acquired
            },
        }
    }

    /// Releases `lock_id` at time `now` if this node holds it: the most
    /// recently queued request takes the lock over, and without waiters the
    /// lock is removed. A lock held by another node, or absent, is left alone.
    pub fn release_lock(&mut self, lock_id: &str, now: i64)
        requires
            old(self).well_formed(),
            old(self).locks().contains_key(lock_id@) ==> forall|j: int|
                0 <= j < old(self).locks()[lock_id@].waiting_queue@.len()
                ==> now + #[trigger] old(self).locks()[lock_id@].waiting_queue@[j].timeout_ms <= i64::MAX,
        ensures
            final(self).well_formed(),
            final(self).node_id() == old(self).node_id(),
            final(self).lock_timeout_ms() == old(self).lock_timeout_ms(),
            !(old(self).locks().contains_key(lock_id@) && old(self).locks()[lock_id@].holder@ == old(self).node_id())
                ==> final(self).locks() == old(self).locks(),
            old(self).locks().contains_key(lock_id@) && old(self).locks()[lock_id@].holder@ == old(self).node_id()
                && old(self).locks()[lock_id@].waiting_queue@.len() == 0
                ==> final(self).locks() == old(self).locks().remove(lock_id@),
            old(self).locks().contains_key(lock_id@) && old(self).locks()[lock_id@].holder@ == old(self).node_id()
                && old(self).locks()[lock_id@].waiting_queue@.len() > 0 ==> {
                let l = old(self).locks()[lock_id@];
                let r = l.waiting_queue@.last();
                &&& final(self).locks().dom() == old(self).locks().dom()
                &&& forall|k: Seq<char>| k != lock_id@ && #[trigger] old(self).locks().contains_key(k)
                    ==> final(self).locks()[k] == old(self).locks()[k]
                &&& final(self).locks()[lock_id@].id == l.id
                &&& final(self).locks()[lock_id@].holder == r.requester
                &&& final(self).locks()[lock_id@].acquired_at == now
                &&& final(self).locks()[lock_id@].expires_at == now + r.timeout_ms
                &&& final(self).locks()[lock_id@].lock_type == r.lock_type
                &&& final(self).locks()[lock_id@].waiting_queue@ == l.waiting_queue@.drop_last()
            },
    {
        let ghost old_locks = self.locks@;
        match self.find(lock_id) {
            None => {
                assert(!self.locks().contains_key(lock_id@));
            },
            Some(i) => {
                proof { lemma_lock_at(old_locks, i as int); }
                if self.locks[i].holder == self.node_id {
                    let mut l = self.locks.remove(i);
                    assert(self.locks@ == old_locks.remove(i as int));
                    let ghost before = l;
                    match l.waiting_queue.pop() {
                        Some(next) => {
                            assert(l.waiting_queue@ == before.waiting_queue@.drop_last());
                            assert(next == before.waiting_queue@.last());
                            assert(now + before.waiting_queue@[before.waiting_queue@.len() - 1].timeout_ms <= i64::MAX);
                            l.holder = next.requester;
                            l.acquired_at = now;
                            l.expires_at = add_ms(now, next.timeout_ms);
                            l.lock_type = next.lock_type;
                            self.locks.insert(i, l);
                            assert(self.locks@ =~= old_locks.update(i as int, l));
                            proof { lemma_lock_update(old_locks, i as int, l); }
                            assert(self.locks().dom() =~= old(self).locks().dom());
                        },
                        None => {
                            proof { lemma_lock_remove(old_locks, i as int); }
                        },
                    }
                } else {
                    assert(old(self).locks()[lock_id@].holder@ != old(self).node_id());
                }
            },
        }
    }

    /// The lock named `lock_id`, if there is one.
    pub fn check_lock(&self, lock_id: &str) -> (res: Option<&DistributedLock>)
        requires
            self.well_formed(),
        ensures
            res is None <==> !self.locks().contains_key(lock_id@),
            res matches Some(l) ==> *l == self.locks()[lock_id@],
    {
        match self.find(lock_id) {
            Some(i) => {
                proof { lemma_lock_at(self.locks@, i as int); }
                Some(&self.locks[i])
            },
            None => None,
        }
    }

    /// Drops every lock that expired before `now`.
    pub fn cleanup_expired_locks(&mut self, now: i64)
        requires
            old(self).well_formed(),
        ensures
            final(self).well_formed(),
            final(self).node_id() == old(self).node_id(),
            final(self).lock_timeout_ms() == old(self).lock_timeout_ms(),
            final(self).locks() == old(self).locks().restrict(
                Set::new(|k: Seq<char>| old(self).locks().contains_key(k) && now <= old(self).locks()[k].expires_at)),
    {
        let ghost old_locks = self.locks@;
        let mut i: usize = 0;
        while i < self.locks.len()
            invariant
                i <= self.locks@.len(),
                unique_ids(self.locks@),
                self.node_id == old(self).node_id,
                self.lock_timeout_ms == old(self).lock_timeout_ms,
                forall|j: int| 0 <= j < i ==> now <= #[trigger] self.locks@[j].expires_at,
                forall|j: int| 0 <= j < self.locks@.len() ==> old_locks.contains(#[trigger] self.locks@[j]),
                forall|j: int| 0 <= j < old_locks.len() && now <= #[trigger] old_locks[j].expires_at ==> self.locks@.contains(old_locks[j]),
            decreases self.locks.len() - i,
        {
            if now > self.locks[i].expires_at {
                let ghost before = self.locks@;
                proof { lemma_lock_remove(before, i as int); }
                self.locks.remove(i);
                assert forall|j: int| 0 <= j < old_locks.len() && now <= #[trigger] old_locks[j].expires_at implies self.locks@.contains(old_locks[j]) by {
                    let k = choose|k: int| 0 <= k < before.len() && before[k] == old_locks[j];
                    if k < i { assert(self.locks@[k] == before[k]); } else if k > i { assert(self.locks@[k - 1] == before[k]); }
                }
                assert forall|j: int| 0 <= j < self.locks@.len() implies old_locks.contains(#[trigger] self.locks@[j]) by {
                    if j < i { assert(self.locks@[j] == before[j]); } else { assert(self.locks@[j] == before[j + 1]); }
                }
            } else {
                i = i + 1;
            }
        }
        proof { lemma_filter_map(old_locks, self.locks@, now); }
    }
}

proof fn lemma_filter_map(old_locks: Seq<DistributedLock>, kept: Seq<DistributedLock>, now: i64)
    requires
        unique_ids(old_locks),
        unique_ids(kept),
        forall|j: int| 0 <= j < kept.len() ==> now <= #[trigger] kept[j].expires_at,
        forall|j: int| 0 <= j < kept.len() ==> old_locks.contains(#[trigger] kept[j]),
        forall|j: int| 0 <= j < old_locks.len() && now <= #[trigger] old_locks[j].expires_at ==> kept.contains(old_locks[j]),
    ensures
        lock_map(kept) == lock_map(old_locks).restrict(
            Set::new(|k: Seq<char>| lock_map(old_locks).contains_key(k) && now <= lock_map(old_locks)[k].expires_at)),
{
    let target = lock_map(old_locks).restrict(
        Set::new(|k: Seq<char>| lock_map(old_locks).contains_key(k) && now <= lock_map(old_locks)[k].expires_at));
    assert forall|k: Seq<char>| #[trigger] lock_map(kept).contains_key(k) == target.contains_key(k) by {
        if lock_map(kept).contains_key(k) {
            let j = choose|j: int| 0 <= j < kept.len() && #[trigger] kept[j].id@ == k;
            assert(old_locks.contains(kept[j]));
            let o = choose|o: int| 0 <= o < old_locks.len() && old_locks[o] == kept[j];
            lemma_lock_at(old_locks, o);
        }
        if target.contains_key(k) {
            let o = choose|o: int| 0 <= o < old_locks.len() && #[trigger] old_locks[o].id@ == k;
            lemma_lock_at(old_locks, o);
            assert(kept.contains(old_locks[o]));
            let j = choose|j: int| 0 <= j < kept.len() && kept[j] == old_locks[o];
            assert(kept[j].id@ == k);
        }
    }
    assert forall|k: Seq<char>| #[trigger] lock_map(kept).contains_key(k) implies lock_map(kept)[k] == target[k] by {
        let j = choose|j: int| 0 <= j < kept.len() && #[trigger] kept[j].id@ == k;
        lemma_lock_at(kept, j);
        let o = choose|o: int| 0 <= o < old_locks.len() && old_locks[o] == kept[j];
        lemma_lock_at(old_locks, o);
    }
    assert(lock_map(kept) =~= target);
}

} // verus!
