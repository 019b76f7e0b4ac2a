//! Time locks: named cool-downs that open once their duration has passed.
//! Times are milliseconds on a monotonic clock that the caller reads.
use vstd::prelude::*;
use vstd::string::StringExecFns;

use crate::keys::str_eq;

verus! {

/// A lock set at `setup_time` that opens after `dur`.
#[derive(Debug, Clone, Copy, PartialEq, Eq, Hash, Structural)]
pub struct TimeLock {
    pub dur: u64,
    pub setup_time: u64,
}

/// Time passed from `since` to `now`; zero if `now` is earlier.
pub open spec fn elapsed(since: u64, now: u64) -> int {
    if now >= since { now - since } else { 0 }
}

impl TimeLock {
    /// A lock set now for `dur`.
    pub fn new(dur: u64, now: u64) -> (r: Self)
        ensures
            r == (TimeLock { dur, setup_time: now }),
    {
        TimeLock { dur, setup_time: now }
    }

    /// Whether the lock has opened: more than `dur` has passed.
    pub fn check(&self, now: u64) -> (r: bool)
        ensures
            r == (elapsed(self.setup_time, now) > self.dur),
    {
        now >= self.setup_time && now - self.setup_time > self.dur
    }
}

/// The lock stored under `key` in `locks`, if any.
pub open spec fn lock_for(locks: Seq<(Seq<char>, TimeLock)>, key: Seq<char>) -> Option<TimeLock>
    decreases locks.len(),
{
    if locks.len() == 0 {
        None
    } else if locks.last().0 == key {
        Some(locks.last().1)
    } else {
        lock_for(locks.drop_last(), key)
    }
}

/// Time locks by name; each name holds at most one lock.
pub struct TimeLockManager {
    lockers: Vec<(String, TimeLock)>,
}

impl TimeLockManager {
    pub closed spec fn locks(&self) -> Seq<(Seq<char>, TimeLock)> {
        self.lockers@.map_values(|e: (String, TimeLock)| (e.0@, e.1))
    }

    /// No two locks share a name.
    pub closed spec fn wf(&self) -> bool {
        unique_names(self.locks())
    }

    /// The lock under `key`, if any.
    pub open spec fn lock(&self, key: Seq<char>) -> Option<TimeLock> {
        lock_for(self.locks(), key)
    }

    pub fn new() -> (r: Self)
        ensures
            r.wf(),
            forall|k: Seq<char>| r.lock(k) is None,
    {
        let r = TimeLockManager { lockers: Vec::new() };
        assert(r.locks() =~= Seq::<(Seq<char>, TimeLock)>::empty());
        r
    }

    fn position(&self, key: &str) -> (r: Option<usize>)
        ensures
            r matches Some(i) ==> i < self.locks().len() && self.locks()[i as int].0 == key@,
            r is None ==> forall|i: int| 0 <= i < self.locks().len() ==> self.locks()[i].0 != key@,
    {
        let mut i: usize = 0;
        while i < self.lockers.len()
            invariant
                i <= self.lockers.len(),
                self.locks().len() == self.lockers@.len(),
                forall|j: int| 0 <= j < i ==> self.locks()[j].0 != key@,
            decreases self.lockers.len() - i,
        {
            if str_eq(self.lockers[i].0.as_str(), key) {
                return Some(i);
            }
            i += 1;
        }
        None
    }

    /// Sets a lock under `key` for `dur` from `now`, replacing any lock there.
    pub fn set(&mut self, key: &str, dur: u64, now: u64)
        requires
            old(self).wf(),
        ensures
            final(self).wf(),
            final(self).lock(key@) == Some(TimeLock { dur, setup_time: now }),
            forall|k: Seq<char>| k != key@ ==> final(self).lock(k) == old(self).lock(k),
    {
        let lock = TimeLock::new(dur, now);
        match self.position(key) {
            Some(i) => {
                let ghost before = self.locks();
                let name = self.lockers[i].0.clone();
                self.lockers.set(i, (name, lock));
                proof {
                    assert(self.locks() =~= before.update(i as int, (key@, lock)));
                    lemma_lock_for_update(before, i as int, key@, lock);
                    lemma_lock_for_at(self.locks(), i as int, key@);
                }
            },
            None => {
                let ghost before = self.locks();
                self.lockers.push((String::from_str(key), lock));
                proof {
                    assert(self.locks() =~= before.push((key@, lock)));
                    assert(self.locks().drop_last() =~= before);
                    assert(unique_names(self.locks())) by {
                        assert forall|a: int, b: int| 0 <= a < b < self.locks().len() implies self.locks()[a].0
                            != self.locks()[b].0 by {
                            if b == before.len() {
                                assert(before[a].0 != key@);
                            } else {
                                assert(self.locks()[a] == before[a] && self.locks()[b] == before[b]);
                            }
                        }
                    }
                }
            },
        }
    }

    /// Whether the lock under `key` exists and has opened.
    pub fn check(&self, key: &str, now: u64) -> (r: bool)
        requires
            self.wf(),
        ensures
            r == (self.lock(key@) matches Some(l) && elapsed(l.setup_time, now) > l.dur),
    {
        match self.position(key) {
            Some(i) => {
                proof {
                    lemma_lock_for_at(self.locks(), i as int, key@);
                }
                self.lockers[i].1.check(now)
            },
            None => {
                proof {
                    lemma_lock_for_absent(self.locks(), key@);
                }
                false
            },
        }
    }

    /// Removes the lock under `key`, if any.
    pub fn remove(&mut self, key: &str)
        requires
            old(self).wf(),
        ensures
            final(self).wf(),
            final(self).lock(key@) is None,
            forall|k: Seq<char>| k != key@ ==> final(self).lock(k) == old(self).lock(k),
    {
        match self.position(key) {
            Some(i) => {
                let ghost before = self.locks();
                self.lockers.remove(i);
                proof {
                    assert(self.locks() =~= before.remove(i as int));
                    lemma_lock_for_remove(before, i as int, key@);
                    assert forall|j: int| 0 <= j < self.locks().len() implies self.locks()[j].0 != key@ by {
                        if j < i {
                            assert(self.locks()[j] == before[j]);
                        } else {
                            assert(self.locks()[j] == before[j + 1]);
                        }
                    }
                    lemma_lock_for_absent(self.locks(), key@);
                }
            },
            None => {
                proof {
                    lemma_lock_for_absent(self.locks(), key@);
                }
            },
        }
    }
}

pub open spec fn unique_names(locks: Seq<(Seq<char>, TimeLock)>) -> bool {
    forall|a: int, b: int| 0 <= a < b < locks.len() ==> locks[a].0 != locks[b].0
}

proof fn lemma_lock_for_absent(locks: Seq<(Seq<char>, TimeLock)>, key: Seq<char>)
    requires
        forall|i: int| 0 <= i < locks.len() ==> locks[i].0 != key,
    ensures
        lock_for(locks, key) is None,
    decreases locks.len(),
{
    if locks.len() > 0 {
        lemma_lock_for_absent(locks.drop_last(), key);
    }
}

proof fn lemma_lock_for_at(locks: Seq<(Seq<char>, TimeLock)>, i: int, key: Seq<char>)
    requires
        unique_names(locks),
        0 <= i < locks.len(),
        locks[i].0 == key,
    ensures
        lock_for(locks, key) == Some(locks[i].1),
    decreases locks.len(),
{
    if i < locks.len() - 1 {
        lemma_lock_for_at(locks.drop_last(), i, key);
    }
}

proof fn lemma_lock_for_update(locks: Seq<(Seq<char>, TimeLock)>, i: int, key: Seq<char>, lock: TimeLock)
    requires
        unique_names(locks),
        0 <= i < locks.len(),
        locks[i].0 == key,
    ensures
        unique_names(locks.update(i, (key, lock))),
        forall|k: Seq<char>| k != key ==> lock_for(locks.update(i, (key, lock)), k) == lock_for(locks, k),
    decreases locks.len(),
{
    let u = locks.update(i, (key, lock));
    assert forall|a: int, b: int| 0 <= a < b < u.len() implies u[a].0 != u[b].0 by {
        assert(u[a].0 == locks[a].0 && u[b].0 == locks[b].0);
    }
    if i < locks.len() - 1 {
        assert(u.drop_last() =~= locks.drop_last().update(i, (key, lock)));
        lemma_lock_for_update(locks.drop_last(), i, key, lock);
        assert(u.last() == locks.last());
    } else {
        assert(u.drop_last() =~= locks.drop_last());
    }
    assert forall|k: Seq<char>| k != key implies lock_for(u, k) == lock_for(locks, k) by {
        if i < locks.len() - 1 {
            assert(lock_for(u.drop_last(), k) == lock_for(locks.drop_last(), k));
        }
    }
}

proof fn lemma_lock_for_remove(locks: Seq<(Seq<char>, TimeLock)>, i: int, key: Seq<char>)
    requires
        unique_names(locks),
        0 <= i < locks.len(),
        locks[i].0 == key,
    ensures
        unique_names(locks.remove(i)),
        forall|k: Seq<char>| k != key ==> lock_for(locks.remove(i), k) == lock_for(locks, k),
    decreases locks.len(),
{
    let r = locks.remove(i);
    assert forall|a: int, b: int| 0 <= a < b < r.len() implies r[a].0 != r[b].0 by {
        let a0 = if a < i { a } else { a + 1 };
        let b0 = if b < i { b } else { b + 1 };
        assert(r[a] == locks[a0] && r[b] == locks[b0]);
    }
    if i < locks.len() - 1 {
        assert(r.drop_last() =~= locks.drop_last().remove(i));
        lemma_lock_for_remove(locks.drop_last(), i, key);
        assert(r.last() == locks.last());
    } else {
        assert(r =~= locks.drop_last());
    }
    assert forall|k: Seq<char>| k != key implies lock_for(r, k) == lock_for(locks, k) by {
        if i < locks.len() - 1 {
            assert(lock_for(r.drop_last(), k) == lock_for(locks.drop_last(), k));
        }
    }
}

} // verus!
