//! A key-value cache whose entries all live for the same fixed time.
//!
//! Every insertion schedules the entry's expiry in a queue. Expired entries
//! are purged lazily: each insertion first pops the queue's front for as long
//! as it holds an expired entry. A popped expiry takes its key out of the map
//! only if it is the expiry of the value that the key holds now: the expiry
//! of a value that was removed or replaced since is passed over.

use std::collections::{HashMap, VecDeque};
use std::time::{Duration, Instant};
use vstd::prelude::*;

verus! {

broadcast use vstd::std_specs::hash::group_hash_axioms;

/// Mathematical model of the cache: the stored entries, the instant at which
/// each of them expires, the expiry queue in insertion order and the time
/// every entry lives.
pub struct CacheModel<V> {
    pub entries: Map<u64, V>,
    /// For each stored key, the instant at which its value expires.
    pub due: Map<u64, nat>,
    pub pending: Seq<(u64, nat)>,
    pub ttl: nat,
}

/// Number of entries at the front of `pending` that have expired at `now`.
/// Counting stops at the first entry that has not expired, whatever follows.
pub open spec fn expired_prefix(pending: Seq<(u64, nat)>, now: nat) -> nat
    decreases pending.len(),
{
    if pending.len() > 0 && pending[0].1 <= now {
        1 + expired_prefix(pending.skip(1), now)
    } else {
        0
    }
}

/// The keys whose stored value comes due with one of the first `n` entries
/// of `pending`: the entry names the key and the expiry of the value that the
/// key holds.
pub open spec fn due_keys(pending: Seq<(u64, nat)>, n: nat, due: Map<u64, nat>) -> Set<u64> {
    Set::new(
        |k: u64|
            due.contains_key(k) && exists|i: int|
                0 <= i < n && i < pending.len() && (#[trigger] pending[i]) == (k, due[k]),
    )
}

impl<V> CacheModel<V> {
    /// The cache without entries whose entries live for `ttl`.
    pub open spec fn empty(ttl: nat) -> Self {
        CacheModel { entries: Map::empty(), due: Map::empty(), pending: Seq::empty(), ttl }
    }

    /// Drops the expired front of the queue, and with it the keys whose
    /// stored value comes due there.
    pub open spec fn purge(self, now: nat) -> Self {
        let n = expired_prefix(self.pending, now);
        let gone = due_keys(self.pending, n, self.due);
        CacheModel {
            entries: self.entries.remove_keys(gone),
            due: self.due.remove_keys(gone),
            pending: self.pending.skip(n as int),
            ttl: self.ttl,
        }
    }

    /// Purges at `now`, then stores the value and schedules its expiry at
    /// `now + ttl`.
    pub open spec fn insert(self, now: nat, key: u64, value: V) -> Self {
        let purged = self.purge(now);
        CacheModel {
            entries: purged.entries.insert(key, value),
            due: purged.due.insert(key, now + self.ttl),
            pending: purged.pending.push((key, now + self.ttl)),
            ttl: self.ttl,
        }
    }

    /// Puts the value in the place of the one stored under the key, if there
    /// is one; its expiry and the queue are left as they are.
    pub open spec fn update(self, key: u64, value: V) -> Self {
        if self.entries.contains_key(key) {
            CacheModel { entries: self.entries.insert(key, value), ..self }
        } else {
            self
        }
    }

    /// Removes the key from the entries; the queue is left as it is.
    pub open spec fn remove(self, key: u64) -> Self {
        CacheModel { entries: self.entries.remove(key), due: self.due.remove(key), ..self }
    }
}

/// One call on the cache, made at the instant `now`.
pub enum CacheOp<V> {
    Insert { now: nat, key: u64, value: V },
    Remove { now: nat, key: u64 },
}

impl<V> CacheOp<V> {
    /// The instant at which the call is made.
    pub open spec fn now(self) -> nat {
        match self {
            CacheOp::Insert { now, .. } => now,
            CacheOp::Remove { now, .. } => now,
        }
    }

    /// The key that the call is on.
    pub open spec fn key(self) -> u64 {
        match self {
            CacheOp::Insert { key, .. } => key,
            CacheOp::Remove { key, .. } => key,
        }
    }
}

/// Every call is made no earlier than `from` and no earlier than the call
/// before it.
pub open spec fn in_call_order<V>(ops: Seq<CacheOp<V>>, from: nat) -> bool {
    &&& forall|i: int| 0 <= i < ops.len() ==> from <= (#[trigger] ops[i]).now()
    &&& forall|i: int, j: int|
        0 <= i <= j < ops.len() ==> (#[trigger] ops[i]).now() <= (#[trigger] ops[j]).now()
}

impl<V> CacheModel<V> {
    /// The cache after one call.
    pub open spec fn step(self, op: CacheOp<V>) -> Self {
        match op {
            CacheOp::Insert { now, key, value } => self.insert(now, key, value),
            CacheOp::Remove { key, .. } => self.remove(key),
        }
    }

    /// The cache after the calls of `ops`, made one after the other.
    pub open spec fn run(self, ops: Seq<CacheOp<V>>) -> Self
        decreases ops.len(),
    {
        if ops.len() == 0 {
            self
        } else {
            self.run(ops.drop_last()).step(ops.last())
        }
    }

    /// The queue is sorted by expiry, and nothing in it expires later than
    /// an entry inserted at `now` would.
    pub open spec fn in_time_order(self, now: nat) -> bool {
        &&& forall|i: int, j: int|
            0 <= i <= j < self.pending.len() ==> (#[trigger] self.pending[i]).1 <= (
            #[trigger] self.pending[j]).1
        &&& forall|i: int|
            0 <= i < self.pending.len() ==> (#[trigger] self.pending[i]).1 <= now + self.ttl
    }

    /// If the key is stored, its value expires at `due`, and the queue holds
    /// that expiry.
    pub open spec fn awaits(self, key: u64, due: nat) -> bool {
        self.entries.contains_key(key) ==> self.due.contains_key(key) && self.due[key] == due
            && self.pending.contains((key, due))
    }
}

/// The expired prefix is the longest run of expired entries at the front of
/// the queue: all of its entries have expired, and the entry behind it, if
/// there is one, has not.
pub proof fn lemma_expired_prefix(pending: Seq<(u64, nat)>, now: nat)
    ensures
        expired_prefix(pending, now) <= pending.len(),
        forall|i: int|
            0 <= i < expired_prefix(pending, now) ==> (#[trigger] pending[i]).1 <= now,
        expired_prefix(pending, now) < pending.len() ==> pending[expired_prefix(
            pending,
            now,
        ) as int].1 > now,
    decreases pending.len(),
{
    if pending.len() > 0 && pending[0].1 <= now {
        let rest = pending.skip(1);
        lemma_expired_prefix(rest, now);
        let n = expired_prefix(rest, now);
        assert forall|i: int| 0 <= i < n + 1 implies (#[trigger] pending[i]).1 <= now by {
            if i > 0 {
                assert(pending[i] == rest[i - 1]);
            }
        }
        if n + 1 < pending.len() {
            assert(pending[n as int + 1] == rest[n as int]);
        }
    }
}

/// An entry inserted at `t` stays readable, with its value, through every
/// later insertion made before `t + ttl` and every removal, as long as those
/// calls are on other keys. What the cache held before, and what the queue
/// still holds for the key from earlier insertions, makes no difference.
pub proof fn law_entry_readable_until_expiry<V>(
    cache: CacheModel<V>,
    t: nat,
    key: u64,
    value: V,
    ops: Seq<CacheOp<V>>,
)
    requires
        forall|i: int| 0 <= i < ops.len() ==> (#[trigger] ops[i]).key() != key,
        forall|i: int|
            0 <= i < ops.len() && ops[i] is Insert ==> (#[trigger] ops[i]).now() < t + cache.ttl,
    ensures
        cache.insert(t, key, value).run(ops).entries.contains_key(key),
        cache.insert(t, key, value).run(ops).entries[key] == value,
        cache.insert(t, key, value).run(ops).ttl == cache.ttl,
        cache.insert(t, key, value).run(ops).due.contains_key(key),
        cache.insert(t, key, value).run(ops).due[key] == t + cache.ttl,
    decreases ops.len(),
{
    let first = cache.insert(t, key, value);
    if ops.len() > 0 {
        let init = ops.drop_last();
        let op = ops.last();
        assert(op == ops[ops.len() - 1]);
        assert forall|i: int| 0 <= i < init.len() implies (#[trigger] init[i]).key() != key by {
            assert(init[i] == ops[i]);
        }
        assert forall|i: int| 0 <= i < init.len() && init[i] is Insert implies (
        #[trigger] init[i]).now() < t + cache.ttl by {
            assert(init[i] == ops[i]);
        }
        law_entry_readable_until_expiry(cache, t, key, value, init);
        let before = first.run(init);
        let after = before.step(op);
        assert(first.run(ops) == after);
        match op {
            CacheOp::Insert { now, key: k, value: v } => {
                lemma_expired_prefix(before.pending, now);
                let n = expired_prefix(before.pending, now);
                assert(!due_keys(before.pending, n, before.due).contains(key)) by {
                    if due_keys(before.pending, n, before.due).contains(key) {
                        let i = choose|i: int|
                            0 <= i < n && i < before.pending.len() && (
                            #[trigger] before.pending[i]) == (key, before.due[key]);
                        assert(before.pending[i].1 <= now);
                    }
                }
            },
            CacheOp::Remove { .. } => {},
        }
    }
}

/// The expiry of a value that was removed or replaced since is passed over:
/// where no expired entry at the front of the queue is the expiry of the value
/// that its key holds now, a purge takes the entries out of the queue and
/// leaves every stored value as it is.
pub proof fn law_leftover_expiry_is_passed_over<V>(cache: CacheModel<V>, now: nat)
    requires
        forall|i: int|
            0 <= i < expired_prefix(cache.pending, now) && i < cache.pending.len()
                && cache.due.contains_key((#[trigger] cache.pending[i]).0)
                ==> cache.due[cache.pending[i].0] != cache.pending[i].1,
    ensures
        cache.purge(now).entries == cache.entries,
        cache.purge(now).due == cache.due,
        cache.purge(now).pending == cache.pending.skip(expired_prefix(cache.pending, now) as int),
{
    let n = expired_prefix(cache.pending, now);
    let gone = due_keys(cache.pending, n, cache.due);
    assert forall|k: u64| !gone.contains(k) by {
        if gone.contains(k) {
            let i = choose|i: int|
                0 <= i < n && i < cache.pending.len() && (#[trigger] cache.pending[i]) == (
                    k,
                    cache.due[k],
                );
            assert(cache.pending[i].0 == k);
        }
    }
    assert(gone =~= Set::<u64>::empty());
    assert(cache.purge(now).entries =~= cache.entries);
    assert(cache.purge(now).due =~= cache.due);
}

/// The calls of `ops` made in time order from `from` on, on a queue that is in
/// time order at `from`, leave the queue in time order at the instant of the
/// last call. If none of them inserts under `key`, and the value of `key`
/// awaited the expiry `due`, it still does afterwards.
pub proof fn lemma_run_keeps_time_order<V>(
    cache: CacheModel<V>,
    from: nat,
    ops: Seq<CacheOp<V>>,
    key: u64,
    due: nat,
)
    requires
        cache.in_time_order(from),
        in_call_order(ops, from),
        forall|i: int| 0 <= i < ops.len() && ops[i] is Insert ==> (#[trigger] ops[i]).key() != key,
        cache.awaits(key, due),
    ensures
        cache.run(ops).ttl == cache.ttl,
        cache.run(ops).in_time_order(if ops.len() == 0 { from } else { ops.last().now() }),
        cache.run(ops).awaits(key, due),
    decreases ops.len(),
{
    if ops.len() > 0 {
        let init = ops.drop_last();
        let op = ops.last();
        assert(op == ops[ops.len() - 1]);
        assert(in_call_order(init, from)) by {
            assert forall|i: int| 0 <= i < init.len() implies from <= (#[trigger] init[i]).now() by {
                assert(init[i] == ops[i]);
            }
            assert forall|i: int, j: int| 0 <= i <= j < init.len() implies (
            #[trigger] init[i]).now() <= (#[trigger] init[j]).now() by {
                assert(init[i] == ops[i]);
                assert(init[j] == ops[j]);
            }
        }
        assert forall|i: int| 0 <= i < init.len() && init[i] is Insert implies (
        #[trigger] init[i]).key() != key by {
            assert(init[i] == ops[i]);
        }
        lemma_run_keeps_time_order(cache, from, init, key, due);
        let before = cache.run(init);
        let after = before.step(op);
        assert(cache.run(ops) == after);
        let last = if init.len() == 0 { from } else { init.last().now() };
        assert(last <= op.now()) by {
            if init.len() > 0 {
                assert(init.last() == ops[ops.len() - 2]);
            }
        }
        match op {
            CacheOp::Insert { now, key: k, value: v } => {
                lemma_expired_prefix(before.pending, now);
                let n = expired_prefix(before.pending, now);
                assert forall|i: int| 0 <= i < after.pending.len() implies (
                #[trigger] after.pending[i]).1 <= now + after.ttl by {
                    if i < after.pending.len() - 1 {
                        assert(after.pending[i] == before.pending[i + n]);
                    }
                }
                assert forall|i: int, j: int| 0 <= i <= j < after.pending.len() implies (
                #[trigger] after.pending[i]).1 <= (#[trigger] after.pending[j]).1 by {
                    if i < after.pending.len() - 1 {
                        assert(after.pending[i] == before.pending[i + n]);
                    }
                    if j < after.pending.len() - 1 {
                        assert(after.pending[j] == before.pending[j + n]);
                    }
                }
                if after.entries.contains_key(key) {
                    assert(before.entries.contains_key(key));
                    assert(!due_keys(before.pending, n, before.due).contains(key));
                    let i = choose|i: int|
                        0 <= i < before.pending.len() && before.pending[i] == (key, due);
                    assert(before.pending[i] == (key, before.due[key]));
                    assert(i >= n);
                    assert(after.pending[i - n] == (key, due));
                }
            },
            CacheOp::Remove { .. } => {},
        }
    }
}

/// An entry inserted at `t` is gone after an insertion under another key made
/// at or after `t + ttl`, whatever calls were made in between, provided that
/// all calls come in time order and that none in between stores the key anew.
pub proof fn law_entry_gone_after_expiry<V>(
    cache: CacheModel<V>,
    t: nat,
    key: u64,
    value: V,
    ops: Seq<CacheOp<V>>,
    now: nat,
    other: u64,
    other_value: V,
)
    requires
        cache.in_time_order(t),
        in_call_order(ops, t),
        forall|i: int| 0 <= i < ops.len() && ops[i] is Insert ==> (#[trigger] ops[i]).key() != key,
        t + cache.ttl <= now,
        ops.len() > 0 ==> ops.last().now() <= now,
        other != key,
    ensures
        !cache.insert(t, key, value).run(ops).insert(now, other, other_value).entries.contains_key(
            key,
        ),
{
    let first = cache.insert(t, key, value);
    let due = t + cache.ttl;
    lemma_expired_prefix(cache.pending, t);
    let n0 = expired_prefix(cache.pending, t);
    assert(first.in_time_order(t)) by {
        assert forall|i: int| 0 <= i < first.pending.len() implies (#[trigger] first.pending[i]).1
            <= t + first.ttl by {
            if i < first.pending.len() - 1 {
                assert(first.pending[i] == cache.pending[i + n0]);
            }
        }
        assert forall|i: int, j: int| 0 <= i <= j < first.pending.len() implies (
        #[trigger] first.pending[i]).1 <= (#[trigger] first.pending[j]).1 by {
            if i < first.pending.len() - 1 {
                assert(first.pending[i] == cache.pending[i + n0]);
            }
            if j < first.pending.len() - 1 {
                assert(first.pending[j] == cache.pending[j + n0]);
            }
        }
    }
    assert(first.awaits(key, due)) by {
        assert(first.pending[first.pending.len() - 1] == (key, due));
    }
    lemma_run_keeps_time_order(first, t, ops, key, due);
    let before = first.run(ops);
    lemma_expired_prefix(before.pending, now);
    let n = expired_prefix(before.pending, now);
    if before.entries.contains_key(key) {
        let i = choose|i: int| 0 <= i < before.pending.len() && before.pending[i] == (key, due);
        assert(before.pending[i].1 <= now);
        if n <= i {
            assert(before.pending[n as int].1 <= before.pending[i].1);
        }
        assert(before.pending[i] == (key, before.due[key]));
        assert(due_keys(before.pending, n, before.due).contains(key));
    }
}

/// `std::time::Instant`: a reading of the monotonic clock, carried through as
/// it is.
#[verifier::external_type_specification]
#[verifier::external_body]
pub struct ExInstant(std::time::Instant);

/// `Instant::now`: the current reading of the monotonic clock. Nothing is
/// claimed of the value.
#[verifier::external_body]
pub(crate) fn clock_start() -> Instant {
    Instant::now()
}

/// `Instant::elapsed`: the time that has passed since `origin` was taken.
/// Nothing is claimed of the value.
#[verifier::external_body]
pub(crate) fn clock_elapsed(origin: &Instant) -> Duration {
    origin.elapsed()
}

/// `Duration::as_nanos`: the duration in whole nanoseconds. Nothing is
/// claimed of the value.
#[verifier::external_body]
pub(crate) fn duration_nanos(d: &Duration) -> u128 {
    d.as_nanos()
}

/// A stored value with the instant of its insertion.
struct Slot<V> {
    value: V,
    stamp: u128,
}

/// Cache from `u64` keys to values in which every entry expires `ttl`
/// nanoseconds after its insertion. The instants of one cache are readings of
/// one clock: either the cache's own, which `insert` and `cleanup` read, or
/// the caller's, handed to `insert_at` and `cleanup_at`.
pub struct ExpiringMap<V> {
    map: HashMap<u64, Slot<V>>,
    /// Key and instant of insertion, oldest first.
    queue: VecDeque<(u64, u128)>,
    ttl: u64,
    origin: Instant,
}

impl<V> View for ExpiringMap<V> {
    type V = CacheModel<V>;

    closed spec fn view(&self) -> CacheModel<V> {
        CacheModel {
            entries: Map::new(|k: u64| self.map@.contains_key(k), |k: u64| self.map@[k].value),
            due: Map::new(
                |k: u64| self.map@.contains_key(k),
                |k: u64| (self.map@[k].stamp + self.ttl) as nat,
            ),
            pending: Seq::new(
                self.queue@.len(),
                |i: int| (self.queue@[i].0, (self.queue@[i].1 + self.ttl) as nat),
            ),
            ttl: self.ttl as nat,
        }
    }
}

impl<V> ExpiringMap<V> {
    /// Creates an empty cache whose entries live for `ttl` nanoseconds. Its
    /// clock starts now.
    pub fn new(ttl: u64) -> (res: Self)
        ensures
            res@ == CacheModel::<V>::empty(ttl as nat),
    {
        Self::with_clock(ttl, clock_start())
    }

    /// Creates an empty cache whose entries live for `ttl` nanoseconds and
    /// whose clock started at `origin`, so that it reads the same instants as
    /// every other clock started there.
    pub fn with_clock(ttl: u64, origin: Instant) -> (res: Self)
        ensures
            res@ == CacheModel::<V>::empty(ttl as nat),
    {
        let res = ExpiringMap { map: HashMap::new(), queue: VecDeque::new(), ttl, origin };
        assert(res@.pending =~= Seq::empty());
        assert(res@.entries =~= Map::empty());
        assert(res@.due =~= Map::empty());
        res
    }

    /// Nanoseconds on the cache's own clock.
    fn now(&self) -> u128 {
        let d = clock_elapsed(&self.origin);
        duration_nanos(&d)
    }

    /// Purges the entries that have expired at `now`.
    pub fn cleanup_at(&mut self, now: u128)
        ensures
            final(self)@ == old(self)@.purge(now as nat),
    {
        let ghost start = self@;
        let ghost mut done: nat = 0;
        proof {
            assert(due_keys(start.pending, 0, start.due) =~= Set::<u64>::empty());
            assert(self@.entries =~= start.entries.remove_keys(Set::<u64>::empty()));
            assert(self@.due =~= start.due.remove_keys(Set::<u64>::empty()));
        }
        loop
            invariant
                self.ttl == old(self).ttl,
                self@.ttl == start.ttl,
                start == old(self)@,
                done <= start.pending.len(),
                self@.pending == start.pending.skip(done as int),
                self@.entries == start.entries.remove_keys(
                    due_keys(start.pending, done, start.due),
                ),
                self@.due == start.due.remove_keys(due_keys(start.pending, done, start.due)),
                expired_prefix(start.pending, now as nat) == done + expired_prefix(
                    self@.pending,
                    now as nat,
                ),
            ensures
                self@ == start.purge(now as nat),
            decreases self.queue@.len(),
        {
            let ghost before = self@;
            if self.queue.len() == 0 {
                assert(expired_prefix(self@.pending, now as nat) == 0);
                break ;
            }
            let front = self.queue[0];
            assert(self@.pending[0] == (front.0, (front.1 + self.ttl) as nat));
            if !(now >= front.1 && now - front.1 >= self.ttl as u128) {
                assert(expired_prefix(self@.pending, now as nat) == 0);
                break ;
            }
            self.queue.pop_front();
            let held = match self.map.get(&front.0) {
                Some(slot) => slot.stamp == front.1,
                None => false,
            };
            if held {
                self.map.remove(&front.0);
            }
            proof {
                let key = front.0;
                let expiry = (front.1 + self.ttl) as nat;
                let gone = due_keys(start.pending, done, start.due);
                let more = due_keys(start.pending, done + 1, start.due);
                assert(self@.pending =~= before.pending.skip(1));
                assert(self@.pending =~= start.pending.skip(done as int + 1));
                assert(start.pending[done as int] == before.pending[0]);
                assert(start.pending[done as int] == (key, expiry));
                assert(held <==> before.due.contains_key(key) && before.due[key] == expiry);
                assert(more =~= (if held {
                    gone.insert(key)
                } else {
                    gone
                })) by {
                    assert forall|k: u64| more.contains(k) <==> (if held {
                        gone.insert(key)
                    } else {
                        gone
                    }).contains(k) by {
                        if gone.contains(k) {
                            let i = choose|i: int|
                                0 <= i < done && i < start.pending.len() && (
                                #[trigger] start.pending[i]) == (k, start.due[k]);
                            assert(start.pending[i] == (k, start.due[k]));
                        }
                        if more.contains(k) && !gone.contains(k) {
                            let i = choose|i: int|
                                0 <= i < done + 1 && i < start.pending.len() && (
                                #[trigger] start.pending[i]) == (k, start.due[k]);
                            assert(i == done);
                            assert(k == key);
                            assert(before.due.contains_key(key));
                        }
                        if held && k == key {
                            assert(start.due.contains_key(key));
                            assert(!gone.contains(key));
                            assert(start.pending[done as int] == (key, start.due[key]));
                        }
                    }
                }
                if held {
                    assert(self@.entries =~= before.entries.remove(key));
                    assert(self@.due =~= before.due.remove(key));
                    assert(more == gone.insert(key));
                } else {
                    assert(self@.entries =~= before.entries);
                    assert(self@.due =~= before.due);
                    assert(more == gone);
                }
                assert(self@.entries =~= start.entries.remove_keys(more));
                assert(self@.due =~= start.due.remove_keys(more));
                done = done + 1;
            }
        }
    }

    /// Purges the entries that have expired by the cache's own clock.
    pub fn cleanup(&mut self)
        ensures
            exists|now: nat| final(self)@ == old(self)@.purge(now),
    {
        let now = self.now();
        self.cleanup_at(now);
        assert(self@ == old(self)@.purge(now as nat));
    }

    /// Purges at `now`, stores the value under the key and schedules its
    /// expiry at `now + ttl`. `now` is a reading of the clock that this cache
    /// is timed by; a cache that is timed by the caller takes all its instants
    /// from the caller.
    pub fn insert_at(&mut self, now: u128, key: u64, value: V)
        ensures
            final(self)@ == old(self)@.insert(now as nat, key, value),
    {
        self.cleanup_at(now);
        let ghost purged = self@;
        self.map.insert(key, Slot { value, stamp: now });
        self.queue.push_back((key, now));
        assert(self@.pending =~= purged.pending.push((key, (now + self.ttl) as nat)));
        assert(self@.entries =~= purged.entries.insert(key, value));
        assert(self@.due =~= purged.due.insert(key, (now + self.ttl) as nat));
    }

    /// Stores the value under the key at the current reading of the cache's
    /// own clock, after purging what has expired by then. A cache that is
    /// timed by the caller through `insert_at` is not given a reading of its
    /// own clock as well.
    pub fn insert(&mut self, key: u64, value: V)
        ensures
            exists|now: nat| final(self)@ == old(self)@.insert(now, key, value),
    {
        let now = self.now();
        self.insert_at(now, key, value);
        assert(self@ == old(self)@.insert(now as nat, key, value));
    }

    /// The value stored under the key, if any. Nothing is purged, so an
    /// expired entry stays readable until the next insertion.
    pub fn get(&self, key: &u64) -> (res: Option<&V>)
        ensures
            res == (if self@.entries.contains_key(*key) {
                Some(&self@.entries[*key])
            } else {
                None
            }),
    {
        match self.map.get(key) {
            Some(slot) => Some(&slot.value),
            None => None,
        }
    }

    /// Puts the value in the place of the one stored under the key, without
    /// a new lease of life. Where nothing is stored under the key, nothing
    /// changes. Tells whether the value was stored.
    pub fn update(&mut self, key: u64, value: V) -> (res: bool)
        ensures
            final(self)@ == old(self)@.update(key, value),
            res == old(self)@.entries.contains_key(key),
    {
        let ghost before = self@;
        let stamp = match self.map.get(&key) {
            Some(slot) => slot.stamp,
            None => {
                return false;
            },
        };
        self.map.insert(key, Slot { value, stamp });
        assert(self@.entries =~= before.entries.insert(key, value));
        assert(self@.due =~= before.due);
        true
    }

    /// Removes and returns the value stored under the key, if any. The expiry
    /// queue is not touched.
    pub fn remove(&mut self, key: &u64) -> (res: Option<V>)
        ensures
            final(self)@ == old(self)@.remove(*key),
            res == (if old(self)@.entries.contains_key(*key) {
                Some(old(self)@.entries[*key])
            } else {
                None
            }),
    {
        let ghost before = self@;
        let slot = self.map.remove(key);
        assert(self@.entries =~= before.entries.remove(*key));
        assert(self@.due =~= before.due.remove(*key));
        match slot {
            Some(slot) => Some(slot.value),
            None => None,
        }
    }
}

} // verus!
