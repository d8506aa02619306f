use std::collections::HashMap;
use vstd::prelude::*;
use vstd::std_specs::iter::IteratorSpec;

use crate::models::poll::{Poll, PollResult};
use crate::net::PollOutcome;

verus! {

/// State tracked per scheduled poll.
///
/// Times are milliseconds on the scheduler's monotonic clock.
#[derive(Debug, Clone)]
pub struct ScheduledPoll {
    pub poll: Poll,
    /// The address (IP or hostname) to poll.
    pub address: String,
    /// When the poll is next due.
    pub next_run_at: u64,
    /// Whether a task for this poll is in flight.
    pub running: bool,
}

/// A poll that a tick decided to launch: the caller spawns a task that runs
/// it against the address and, when the task ends, reports it back with
/// `Scheduler::complete_poll`.
#[derive(Debug, Clone)]
pub struct PollLaunch {
    pub poll: Poll,
    pub address: String,
}

/// Statistics snapshot from the scheduler.
#[derive(Debug, Clone, Copy, PartialEq, Eq, Structural)]
pub struct SchedulerStats {
    pub total_polls: usize,
    pub active_count: usize,
    pub overdue_polls: usize,
}

/// Bounded, drift-free poll scheduler.
///
/// Polls are held by id. Each tick advances every due poll by exactly its
/// interval (never to `now + interval`), skips polls whose previous run is
/// still in flight, and launches the others while fewer than
/// `max_concurrent` polls are active.
pub struct Scheduler {
    polls: HashMap<u128, ScheduledPoll>,
    max_concurrent: usize,
    active_count: usize,
}

/// A poll is due once the clock has reached its `next_run_at`.
pub open spec fn is_due(e: ScheduledPoll, now: u64) -> bool {
    now >= e.next_run_at
}

/// The entry with `next_run_at` moved forward by one interval.
pub open spec fn advanced(e: ScheduledPoll) -> ScheduledPoll {
    ScheduledPoll { next_run_at: (e.next_run_at + e.poll.interval_ms) as u64, ..e }
}

/// Every due entry of `s` can be advanced by its interval without leaving
/// `u64`.
pub open spec fn can_advance(s: Seq<ScheduledPoll>, now: u64) -> bool {
    forall|i: int|
        0 <= i < s.len() && is_due(#[trigger] s[i], now) ==> s[i].next_run_at + s[i].poll.interval_ms
            <= u64::MAX
}

/// Every due entry of the map `m` can be advanced by its interval without
/// leaving `u64`.
pub open spec fn can_advance_all(m: Map<u128, ScheduledPoll>, now: u64) -> bool {
    forall|k: u128|
        m.contains_key(k) && is_due(#[trigger] m[k], now) ==> m[k].next_run_at + m[k].poll.interval_ms
            <= u64::MAX
}

/// `order` lists every key of `m` exactly once.
pub open spec fn is_order_of(order: Seq<u128>, m: Map<u128, ScheduledPoll>) -> bool {
    &&& order.no_duplicates()
    &&& forall|k: u128| #[trigger] m.contains_key(k) <==> order.contains(k)
}

/// The entries of `m` in the order `order`.
pub open spec fn ordered(m: Map<u128, ScheduledPoll>, order: Seq<u128>) -> Seq<ScheduledPoll> {
    order.map_values(|k: u128| m[k])
}

/// The map that holds, under each key `order[j]`, the entry `s[j]`.
pub open spec fn placed(order: Seq<u128>, s: Seq<ScheduledPoll>) -> Map<u128, ScheduledPoll> {
    Map::new(
        |k: u128| order.contains(k),
        |k: u128| s[choose|j: int| 0 <= j < order.len() && order[j] == k],
    )
}

/// A fresh entry for `poll`, due at `now` and not running.
pub open spec fn fresh_entry(poll: Poll, address: String, now: u64) -> ScheduledPoll {
    ScheduledPoll { poll, address, next_run_at: now, running: false }
}

/// The first `n` steps of a tick over the entries `s`, in order, starting
/// with `active` polls in flight: the entries afterwards, the active count
/// afterwards, and the positions launched so far.
///
/// A step on a due entry always advances it by its interval; it launches the
/// entry (marking it running) when it is not running and fewer than `max`
/// polls are active. Entries that are not due are left as they are.
pub open spec fn tick_steps(
    s: Seq<ScheduledPoll>,
    active: int,
    max: int,
    now: u64,
    n: nat,
) -> (Seq<ScheduledPoll>, int, Seq<int>)
    decreases n,
{
    if n == 0 {
        (s, active, Seq::empty())
    } else {
        let prev = tick_steps(s, active, max, now, (n - 1) as nat);
        let i = n - 1;
        let e = s[i];
        if !is_due(e, now) {
            prev
        } else if e.running || prev.1 >= max {
            (prev.0.update(i, advanced(e)), prev.1, prev.2)
        } else {
            (
                prev.0.update(i, ScheduledPoll { running: true, ..advanced(e) }),
                prev.1 + 1,
                prev.2.push(i),
            )
        }
    }
}

/// A whole tick over the entries `s`.
pub open spec fn tick_outcome(s: Seq<ScheduledPoll>, active: int, max: int, now: u64) -> (
    Seq<ScheduledPoll>,
    int,
    Seq<int>,
) {
    tick_steps(s, active, max, now, s.len())
}

/// What a tick at `now` over the map of entries `m`, walked in the order
/// `order` (`is_order_of(order, m)`), starting with `active` polls in flight
/// under the cap `max`, leaves: the entries `after`, the active count
/// `active_after`, and the launches `launches` (in walk order). It is the
/// tick over the entries in that order (`tick_outcome`), put back under
/// their keys.
pub open spec fn ticked(
    m: Map<u128, ScheduledPoll>,
    order: Seq<u128>,
    active: int,
    max: int,
    now: u64,
    after: Map<u128, ScheduledPoll>,
    active_after: int,
    launches: Seq<PollLaunch>,
) -> bool {
    let s = ordered(m, order);
    let out = tick_outcome(s, active, max, now);
    &&& after == placed(order, out.0)
    &&& active_after == out.1
    &&& launches.len() == out.2.len()
    &&& forall|k: int|
        0 <= k < out.2.len() ==> (#[trigger] launches[k]).poll == s[out.2[k]].poll && launches[k].address
            == s[out.2[k]].address
}

/// The number of the first `n` entries of `s` that are due and not running.
pub open spec fn overdue_count(s: Seq<ScheduledPoll>, now: u64, n: nat) -> nat
    decreases n,
{
    if n == 0 {
        0
    } else {
        overdue_count(s, now, (n - 1) as nat) + if is_due(s[n - 1], now) && !s[n - 1].running {
            1nat
        } else {
            0nat
        }
    }
}

/// Entries put back under the keys they came from give the map again.
proof fn lemma_placed_ordered(m: Map<u128, ScheduledPoll>, order: Seq<u128>)
    requires
        is_order_of(order, m),
    ensures
        placed(order, ordered(m, order)) == m,
{
    assert forall|k: u128| #[trigger] m.contains_key(k) implies placed(order, ordered(m, order))[k]
        == m[k] by {
        let j = choose|j: int| 0 <= j < order.len() && order[j] == k;
        assert(order.contains(k));
    }
    assert(placed(order, ordered(m, order)) =~= m);
}

/// The entry at position `j` sits under the key `order[j]`.
proof fn lemma_placed_at(order: Seq<u128>, s: Seq<ScheduledPoll>, j: int)
    requires
        order.no_duplicates(),
        0 <= j < order.len(),
    ensures
        placed(order, s).contains_key(order[j]),
        placed(order, s)[order[j]] == s[j],
{
    assert(order.contains(order[j]));
    let i = choose|i: int| 0 <= i < order.len() && order[i] == order[j];
    assert(i == j);
}

/// Changing the entry at position `j` changes only the entry under key
/// `order[j]`.
proof fn lemma_placed_update(order: Seq<u128>, s: Seq<ScheduledPoll>, j: int, e: ScheduledPoll)
    requires
        order.no_duplicates(),
        0 <= j < order.len(),
        s.len() == order.len(),
    ensures
        placed(order, s.update(j, e)) == placed(order, s).insert(order[j], e),
{
    assert forall|k: u128| #[trigger] placed(order, s.update(j, e)).contains_key(k) implies placed(
        order,
        s.update(j, e),
    )[k] == placed(order, s).insert(order[j], e)[k] by {
        let i = choose|i: int| 0 <= i < order.len() && order[i] == k;
        assert(order.contains(k));
        lemma_placed_at(order, s.update(j, e), i);
        lemma_placed_at(order, s, i);
    }
    assert(placed(order, s.update(j, e)) =~= placed(order, s).insert(order[j], e));
}

/// The entries of a map in a walk order can all be advanced when those of the
/// map can.
proof fn lemma_ordered_can_advance(m: Map<u128, ScheduledPoll>, order: Seq<u128>, now: u64)
    requires
        is_order_of(order, m),
        can_advance_all(m, now),
    ensures
        can_advance(ordered(m, order), now),
{
    assert forall|i: int|
        0 <= i < ordered(m, order).len() && is_due(#[trigger] ordered(m, order)[i], now) implies ordered(
        m,
        order,
    )[i].next_run_at + ordered(m, order)[i].poll.interval_ms <= u64::MAX by {
        assert(order.contains(order[i]));
        assert(m.contains_key(order[i]));
    }
}

impl Scheduler {
    /// The scheduled entries, by poll id.
    pub closed spec fn entries(&self) -> Map<u128, ScheduledPoll> {
        self.polls@
    }

    /// The concurrency cap.
    pub closed spec fn max_active(&self) -> nat {
        self.max_concurrent as nat
    }

    /// The number of polls in flight.
    pub closed spec fn active(&self) -> nat {
        self.active_count as nat
    }

    /// Well-formedness: every entry is held under its poll's id, and no more
    /// polls are in flight than the concurrency cap allows.
    pub open spec fn wf(&self) -> bool {
        &&& forall|k: u128| #[trigger] self.entries().contains_key(k) ==> self.entries()[k].poll.id == k
        &&& self.active() <= self.max_active()
    }

    /// Create a new scheduler with the given concurrency cap (128 is the
    /// recommended value).
    pub fn new(max_concurrent: usize) -> (s: Self)
        ensures
            s.wf(),
            s.entries() == Map::<u128, ScheduledPoll>::empty(),
            s.max_active() == max_concurrent,
            s.active() == 0,
    {
        broadcast use vstd::std_specs::hash::group_hash_axioms;
        Scheduler { polls: HashMap::new(), max_concurrent, active_count: 0 }
    }

    /// The number of polls in flight.
    pub fn active_count(&self) -> (n: usize)
        ensures
            n == self.active(),
    {
        self.active_count
    }

    /// The concurrency cap.
    pub fn max_concurrent(&self) -> (n: usize)
        ensures
            n == self.max_active(),
    {
        self.max_concurrent
    }

    /// The number of registered polls.
    pub fn poll_count(&self) -> (n: usize)
        ensures
            n == self.entries().len(),
    {
        broadcast use vstd::std_specs::hash::group_hash_axioms;
        self.polls.len()
    }

    /// The poll ids, in the order the map walks them.
    fn key_order(&self) -> (v: Vec<u128>)
        ensures
            is_order_of(v@, self.entries()),
    {
        broadcast use vstd::std_specs::hash::group_hash_axioms;
        let ghost keys = vstd::std_specs::hash::spec_keys_iter(&self.polls).remaining();
        let mut v: Vec<u128> = Vec::new();
        for id in it: self.polls.keys()
            invariant
                it.seq() == keys,
                keys.unref().to_set() == self.polls@.dom(),
                keys.no_duplicates(),
                v@ == keys.unref().take(it.index()),
        {
            proof {
                assert(keys.unref().take(it.index() + 1) =~= keys.unref().take(it.index()).push(*id));
            }
            v.push(*id);
        }
        proof {
            assert(keys.unref().take(keys.len() as int) =~= keys.unref());
            assert forall|a: int, b: int| 0 <= a < v@.len() && 0 <= b < v@.len() && a != b implies v@[a]
                != v@[b] by {
                assert(keys[a] != keys[b]);
            }
            assert forall|k: u128| #[trigger] self.polls@.contains_key(k) <==> v@.contains(k) by {
                if self.polls@.contains_key(k) {
                    assert(keys.unref().to_set().contains(k));
                }
                if v@.contains(k) {
                    let j = choose|j: int| 0 <= j < v@.len() && v@[j] == k;
                    assert(keys.unref().contains(k));
                }
            }
        }
        v
    }

    /// Whether a tick at `now` can advance every due poll without leaving
    /// `u64` (the condition that `tick` requires).
    pub fn can_tick_at(&self, now: u64) -> (b: bool)
        ensures
            b == can_advance_all(self.entries(), now),
    {
        broadcast use vstd::std_specs::hash::group_hash_axioms;
        let order = self.key_order();
        let mut i: usize = 0;
        while i < order.len()
            invariant
                is_order_of(order@, self.entries()),
                i <= order@.len(),
                forall|j: int|
                    0 <= j < i && is_due(#[trigger] self.polls@[order@[j]], now) ==> self.polls@[order@[j]].next_run_at
                        + self.polls@[order@[j]].poll.interval_ms <= u64::MAX,
            decreases order@.len() - i,
        {
            assert(order@.contains(order@[i as int]));
            let e = self.polls.get(&order[i]).unwrap();
            if now >= e.next_run_at && e.poll.interval_ms > (u64::MAX - e.next_run_at) as u128 {
                return false;
            }
            i = i + 1;
        }
        proof {
            assert forall|k: u128|
                self.entries().contains_key(k) && is_due(#[trigger] self.entries()[k], now) implies self.entries()[k].next_run_at
                + self.entries()[k].poll.interval_ms <= u64::MAX by {
                let j = choose|j: int| 0 <= j < order@.len() && order@[j] == k;
                assert(is_due(self.polls@[order@[j]], now));
            }
        }
        true
    }

    /// The entry of the poll with id `id`, if it is registered.
    pub fn entry(&self, id: u128) -> (r: Option<&ScheduledPoll>)
        ensures
            match r {
                Some(e) => self.entries().contains_key(id) && self.entries()[id] == *e,
                None => !self.entries().contains_key(id),
            },
    {
        broadcast use vstd::std_specs::hash::group_hash_axioms;
        self.polls.get(&id)
    }

    /// Register a poll, due at once (at `now`) and not running. A poll that
    /// is already registered under the same id is replaced.
    pub fn add_poll(&mut self, poll: Poll, address: String, now: u64)
        requires
            old(self).wf(),
        ensures
            final(self).wf(),
            final(self).max_active() == old(self).max_active(),
            final(self).active() == old(self).active(),
            final(self).entries() == old(self).entries().insert(poll.id, fresh_entry(poll, address, now)),
    {
        broadcast use vstd::std_specs::hash::group_hash_axioms;
        self.polls.insert(poll.id, ScheduledPoll { poll, address, next_run_at: now, running: false });
    }

    /// Unregister a poll by id; nothing happens when it is not registered.
    pub fn remove_poll(&mut self, poll_id: &u128)
        requires
            old(self).wf(),
        ensures
            final(self).wf(),
            final(self).max_active() == old(self).max_active(),
            final(self).active() == old(self).active(),
            final(self).entries() == old(self).entries().remove(*poll_id),
    {
        broadcast use vstd::std_specs::hash::group_hash_axioms;
        self.polls.remove(poll_id);
    }

    /// Unregister every poll whose id is in `ids`.
    pub fn remove_polls(&mut self, ids: &Vec<u128>)
        requires
            old(self).wf(),
        ensures
            final(self).wf(),
            final(self).max_active() == old(self).max_active(),
            final(self).active() == old(self).active(),
            final(self).entries() == old(self).entries().remove_keys(ids@.to_set()),
    {
        broadcast use vstd::std_specs::hash::group_hash_axioms;
        let ghost m0 = self.polls@;
        let mut i: usize = 0;
        while i < ids.len()
            invariant
                self.wf(),
                self.max_concurrent == old(self).max_concurrent,
                self.active_count == old(self).active_count,
                m0 == old(self).entries(),
                i <= ids@.len(),
                self.polls@ == m0.remove_keys(ids@.take(i as int).to_set()),
            decreases ids@.len() - i,
        {
            proof {
                let before = ids@.take(i as int);
                let after = ids@.take(i as int + 1);
                assert(after =~= before.push(ids@[i as int]));
                assert forall|x: u128| after.to_set().contains(x) <==> before.to_set().insert(ids@[i as int]).contains(x) by {
                    if after.contains(x) {
                        let j = choose|j: int| 0 <= j < after.len() && after[j] == x;
                        if j < before.len() {
                            assert(before[j] == x);
                            assert(before.contains(x));
                        }
                    }
                    if before.contains(x) {
                        let j = choose|j: int| 0 <= j < before.len() && before[j] == x;
                        assert(after[j] == x);
                    }
                    if x == ids@[i as int] {
                        assert(after[i as int] == x);
                    }
                }
                assert(after.to_set() =~= before.to_set().insert(ids@[i as int]));
            }
            self.polls.remove(&ids[i]);
            proof {
                assert(self.polls@ =~= m0.remove_keys(ids@.take(i as int + 1).to_set()));
            }
            i = i + 1;
        }
        proof {
            assert(ids@.take(ids@.len() as int) =~= ids@);
        }
    }

    /// Update a registered poll's configuration and address; it becomes due
    /// at once (at `now`) and is marked not running. Nothing happens when no
    /// poll with that id is registered.
    pub fn update_poll(&mut self, poll: Poll, address: String, now: u64)
        requires
            old(self).wf(),
        ensures
            final(self).wf(),
            final(self).max_active() == old(self).max_active(),
            final(self).active() == old(self).active(),
            old(self).entries().contains_key(poll.id) ==> final(self).entries() == old(self).entries().insert(
                poll.id,
                fresh_entry(poll, address, now),
            ),
            !old(self).entries().contains_key(poll.id) ==> final(self).entries() == old(self).entries(),
    {
        broadcast use vstd::std_specs::hash::group_hash_axioms;
        if self.polls.contains_key(&poll.id) {
            self.polls.insert(poll.id, ScheduledPoll { poll, address, next_run_at: now, running: false });
        }
    }

    /// Return a statistics snapshot at time `now`: the number of polls, the
    /// number in flight, and the number that are due but not running.
    pub fn get_stats(&self, now: u64) -> (st: SchedulerStats)
        ensures
            st.total_polls == self.entries().len(),
            st.active_count == self.active(),
            exists|order: Seq<u128>|
                #[trigger] is_order_of(order, self.entries()) && st.overdue_polls == overdue_count(
                    ordered(self.entries(), order),
                    now,
                    order.len(),
                ),
    {
        broadcast use vstd::std_specs::hash::group_hash_axioms;
        let order = self.key_order();
        let ghost s = ordered(self.entries(), order@);
        let mut overdue: usize = 0;
        let mut i: usize = 0;
        while i < order.len()
            invariant
                is_order_of(order@, self.entries()),
                s == ordered(self.entries(), order@),
                i <= order@.len(),
                overdue == overdue_count(s, now, i as nat),
                overdue <= i,
            decreases order@.len() - i,
        {
            assert(order@.contains(order@[i as int]));
            let e = self.polls.get(&order[i]).unwrap();
            assert(*e == s[i as int]);
            if now >= e.next_run_at && !e.running {
                overdue = overdue + 1;
            }
            i = i + 1;
        }
        SchedulerStats {
            total_polls: self.polls.len(),
            active_count: self.active_count,
            overdue_polls: overdue,
        }
    }

    /// Drive the scheduler forward one step at time `now`.
    ///
    /// The polls are walked in the order the map gives. Every due poll
    /// (`now >= next_run_at`) has `next_run_at` advanced by its interval. A
    /// due poll that is running is skipped (no overlap); a due poll is also
    /// skipped while the active count has reached the cap (backpressure); any
    /// other due poll is marked running, counted as active and returned, in
    /// walk order, for the caller to launch.
    pub fn tick(&mut self, now: u64) -> (launches: Vec<PollLaunch>)
        requires
            old(self).wf(),
            can_advance_all(old(self).entries(), now),
        ensures
            final(self).wf(),
            final(self).max_active() == old(self).max_active(),
            exists|order: Seq<u128>|
                #[trigger] is_order_of(order, old(self).entries()) && ticked(
                    old(self).entries(),
                    order,
                    old(self).active() as int,
                    old(self).max_active() as int,
                    now,
                    final(self).entries(),
                    final(self).active() as int,
                    launches@,
                ),
    {
        broadcast use vstd::std_specs::hash::group_hash_axioms;
        let order = self.key_order();
        let ghost m0 = self.polls@;
        let ghost s0 = ordered(m0, order@);
        let ghost a0 = self.active_count as int;
        let ghost m = self.max_concurrent as int;
        let mut launches: Vec<PollLaunch> = Vec::new();
        let ghost mut launched: Seq<int> = Seq::empty();
        let mut i: usize = 0;
        proof {
            lemma_tick_steps_frame(s0, a0, m, now, 0);
            lemma_placed_ordered(m0, order@);
            lemma_ordered_can_advance(m0, order@, now);
        }
        while i < order.len()
            invariant
                m0 == old(self).entries(),
                is_order_of(order@, m0),
                s0 == ordered(m0, order@),
                a0 == old(self).active(),
                m == old(self).max_active(),
                self.max_concurrent as int == m,
                can_advance(s0, now),
                forall|k: u128| #[trigger] m0.contains_key(k) ==> m0[k].poll.id == k,
                0 <= i <= s0.len(),
                placed(order@, s0) == m0,
                self.polls@ == placed(order@, tick_steps(s0, a0, m, now, i as nat).0),
                self.active_count as int == tick_steps(s0, a0, m, now, i as nat).1,
                launched == tick_steps(s0, a0, m, now, i as nat).2,
                launches@.len() == launched.len(),
                forall|k: int|
                    0 <= k < launched.len() ==> (#[trigger] launches@[k]).poll == s0[launched[k]].poll
                        && launches@[k].address == s0[launched[k]].address,
            decreases s0.len() - i,
        {
            let ghost t = tick_steps(s0, a0, m, now, i as nat).0;
            proof {
                lemma_tick_steps_frame(s0, a0, m, now, i as nat);
                lemma_tick_steps_frame(s0, a0, m, now, (i + 1) as nat);
                lemma_placed_at(order@, t, i as int);
                assert(order@.contains(order@[i as int]));
            }
            let key = order[i];
            let cur = self.polls.get(&key).unwrap();
            assert(*cur == s0[i as int]);
            if now >= cur.next_run_at {
                let next = (cur.next_run_at as u128 + cur.poll.interval_ms) as u64;
                let poll = cur.poll;
                let address = cur.address.clone();
                let running = cur.running;
                if running || self.active_count >= self.max_concurrent {
                    let e = ScheduledPoll { poll, address, next_run_at: next, running };
                    proof {
                        lemma_placed_update(order@, t, i as int, e);
                    }
                    self.polls.insert(key, e);
                } else {
                    let launch_address = address.clone();
                    let e = ScheduledPoll { poll, address, next_run_at: next, running: true };
                    proof {
                        lemma_placed_update(order@, t, i as int, e);
                    }
                    self.polls.insert(key, e);
                    self.active_count = self.active_count + 1;
                    launches.push(PollLaunch { poll, address: launch_address });
                    proof {
                        launched = launched.push(i as int);
                    }
                }
            }
            i = i + 1;
        }
        proof {
            let out = tick_outcome(s0, a0, m, now);
            lemma_tick_respects_cap(s0, a0, m, now);
            lemma_tick_steps_keeps_polls(s0, a0, m, now, s0.len());
            assert forall|k: u128| #[trigger] self.polls@.contains_key(k) implies self.polls@[k].poll.id
                == k by {
                let j = choose|j: int| 0 <= j < order@.len() && order@[j] == k;
                assert(order@.contains(k));
                lemma_placed_at(order@, out.0, j);
                assert(m0.contains_key(k));
            }
            assert(ticked(m0, order@, a0, m, now, self.polls@, self.active_count as int, launches@));
        }
        launches
    }

    /// Report the end of a launched poll's task: one fewer poll is active,
    /// and the poll (if still registered) is no longer running.
    pub fn complete_poll(&mut self, poll_id: u128)
        requires
            old(self).wf(),
            old(self).active() > 0,
        ensures
            final(self).wf(),
            final(self).max_active() == old(self).max_active(),
            final(self).active() == old(self).active() - 1,
            old(self).entries().contains_key(poll_id) ==> final(self).entries() == old(self).entries().insert(
                poll_id,
                ScheduledPoll { running: false, ..old(self).entries()[poll_id] },
            ),
            !old(self).entries().contains_key(poll_id) ==> final(self).entries() == old(self).entries(),
    {
        broadcast use vstd::std_specs::hash::group_hash_axioms;
        self.active_count = self.active_count - 1;
        match self.polls.get(&poll_id) {
            Some(cur) => {
                let e = ScheduledPoll {
                    poll: cur.poll,
                    address: cur.address.clone(),
                    next_run_at: cur.next_run_at,
                    running: false,
                };
                self.polls.insert(poll_id, e);
            },
            None => {},
        }
    }
}

/// The first `n` steps of a tick keep the number of entries and leave the
/// entries from position `n` on as they were.
proof fn lemma_tick_steps_frame(s: Seq<ScheduledPoll>, active: int, max: int, now: u64, n: nat)
    requires
        n <= s.len(),
    ensures
        tick_steps(s, active, max, now, n).0.len() == s.len(),
        forall|j: int| n <= j < s.len() ==> tick_steps(s, active, max, now, n).0[j] == s[j],
    decreases n,
{
    if n > 0 {
        lemma_tick_steps_frame(s, active, max, now, (n - 1) as nat);
    }
}

/// The steps of a tick never change which poll an entry holds, nor its
/// address.
proof fn lemma_tick_steps_keeps_polls(s: Seq<ScheduledPoll>, active: int, max: int, now: u64, n: nat)
    requires
        n <= s.len(),
    ensures
        tick_steps(s, active, max, now, n).0.len() == s.len(),
        forall|j: int|
            0 <= j < s.len() ==> (#[trigger] tick_steps(s, active, max, now, n).0[j]).poll == s[j].poll
                && tick_steps(s, active, max, now, n).0[j].address == s[j].address,
    decreases n,
{
    if n > 0 {
        lemma_tick_steps_keeps_polls(s, active, max, now, (n - 1) as nat);
    }
}

/// What the first `n` steps of a tick do, entry by entry.
proof fn lemma_tick_steps_facts(s: Seq<ScheduledPoll>, active: int, max: int, now: u64, n: nat)
    requires
        n <= s.len(),
    ensures
        ({
            let out = tick_steps(s, active, max, now, n);
            &&& out.0.len() == s.len()
            &&& out.1 == active + out.2.len()
            &&& out.1 >= active
            &&& (active <= max ==> out.1 <= max)
            &&& forall|k: int| 0 <= k < out.2.len() ==> 0 <= #[trigger] out.2[k] < n
            &&& forall|k: int, l: int| 0 <= k < l < out.2.len() ==> out.2[k] < out.2[l]
            &&& forall|k: int|
                0 <= k < out.2.len() ==> is_due(s[#[trigger] out.2[k]], now) && !s[out.2[k]].running
            &&& forall|j: int|
                0 <= j < n ==> {
                    &&& (#[trigger] out.0[j]).poll == s[j].poll
                    &&& out.0[j].address == s[j].address
                    &&& out.0[j].next_run_at == (if is_due(s[j], now) {
                        advanced(s[j]).next_run_at
                    } else {
                        s[j].next_run_at
                    })
                    &&& out.0[j].running == (s[j].running || out.2.contains(j))
                    &&& (is_due(s[j], now) && !s[j].running && !out.2.contains(j) ==> out.1 >= max)
                }
            &&& forall|j: int| n <= j < s.len() ==> out.0[j] == s[j]
        }),
    decreases n,
{
    if n > 0 {
        lemma_tick_steps_facts(s, active, max, now, (n - 1) as nat);
        let prev = tick_steps(s, active, max, now, (n - 1) as nat);
        let out = tick_steps(s, active, max, now, n);
        let i = n - 1;
        assert(!prev.2.contains(i)) by {
            if prev.2.contains(i) {
                let k = choose|k: int| 0 <= k < prev.2.len() && prev.2[k] == i;
                assert(0 <= prev.2[k] < i);
            }
        }
        if is_due(s[i], now) && !(s[i].running || prev.1 >= max) {
            assert(out.2 == prev.2.push(i));
            assert forall|j: int| 0 <= j < i implies out.2.contains(j) == prev.2.contains(j) by {
                if prev.2.contains(j) {
                    let k = choose|k: int| 0 <= k < prev.2.len() && prev.2[k] == j;
                    assert(out.2[k] == j);
                }
                if out.2.contains(j) {
                    let k = choose|k: int| 0 <= k < out.2.len() && out.2[k] == j;
                    assert(k < prev.2.len());
                    assert(prev.2[k] == j);
                }
            }
            assert(out.2[out.2.len() - 1] == i);
            assert(out.2.contains(i));
        } else {
            assert(out.2 == prev.2);
        }
        assert forall|j: int| 0 <= j < n implies {
            &&& (#[trigger] out.0[j]).poll == s[j].poll
            &&& out.0[j].address == s[j].address
            &&& out.0[j].next_run_at == (if is_due(s[j], now) {
                advanced(s[j]).next_run_at
            } else {
                s[j].next_run_at
            })
            &&& out.0[j].running == (s[j].running || out.2.contains(j))
            &&& (is_due(s[j], now) && !s[j].running && !out.2.contains(j) ==> out.1 >= max)
        } by {
            if j < i {
                assert(out.0[j] == prev.0[j]);
            }
        }
    }
}

/// Drift prevention: a tick moves every due poll's `next_run_at` forward by
/// exactly its interval (never to `now + interval`), leaves polls that are
/// not due as they are, and never changes a poll's configuration or address.
pub proof fn lemma_tick_is_drift_free(s: Seq<ScheduledPoll>, active: int, max: int, now: u64)
    requires
        can_advance(s, now),
    ensures
        tick_outcome(s, active, max, now).0.len() == s.len(),
        forall|j: int|
            0 <= j < s.len() ==> {
                let e = #[trigger] tick_outcome(s, active, max, now).0[j];
                &&& e.poll == s[j].poll
                &&& e.address == s[j].address
                &&& e.next_run_at == (if is_due(s[j], now) {
                    s[j].next_run_at + s[j].poll.interval_ms
                } else {
                    s[j].next_run_at as int
                })
            },
{
    lemma_tick_steps_facts(s, active, max, now, s.len());
    assert forall|j: int| 0 <= j < s.len() implies {
        let e = #[trigger] tick_outcome(s, active, max, now).0[j];
        e.next_run_at == (if is_due(s[j], now) {
            s[j].next_run_at + s[j].poll.interval_ms
        } else {
            s[j].next_run_at as int
        })
    } by {
        if is_due(s[j], now) {
            assert(s[j].next_run_at + s[j].poll.interval_ms <= u64::MAX);
        }
    }
}

/// No overlap: a tick launches only polls that are due and not already
/// running, marks each launched poll running, and keeps running polls
/// running; no poll is launched twice.
pub proof fn lemma_tick_never_overlaps(s: Seq<ScheduledPoll>, active: int, max: int, now: u64)
    ensures
        ({
            let out = tick_outcome(s, active, max, now);
            &&& forall|k: int|
                0 <= k < out.2.len() ==> 0 <= #[trigger] out.2[k] < s.len() && is_due(s[out.2[k]], now)
                    && !s[out.2[k]].running
            &&& forall|k: int, l: int| 0 <= k < l < out.2.len() ==> out.2[k] != out.2[l]
            &&& forall|j: int|
                0 <= j < s.len() ==> (#[trigger] out.0[j]).running == (s[j].running || out.2.contains(j))
        }),
{
    lemma_tick_steps_facts(s, active, max, now, s.len());
}

/// Bounded concurrency: a tick adds one active poll per launch, and never
/// takes the active count past the cap when it started within it.
pub proof fn lemma_tick_respects_cap(s: Seq<ScheduledPoll>, active: int, max: int, now: u64)
    ensures
        tick_outcome(s, active, max, now).1 == active + tick_outcome(s, active, max, now).2.len(),
        active <= max ==> tick_outcome(s, active, max, now).1 <= max,
{
    lemma_tick_steps_facts(s, active, max, now, s.len());
}

/// Backpressure only: a due poll that is not running is left unlaunched by a
/// tick only when the active count has reached the cap.
pub proof fn lemma_tick_launches_while_below_cap(s: Seq<ScheduledPoll>, active: int, max: int, now: u64)
    ensures
        forall|j: int|
            0 <= j < s.len() && is_due(#[trigger] s[j], now) && !s[j].running && !tick_outcome(
                s,
                active,
                max,
                now,
            ).2.contains(j) ==> tick_outcome(s, active, max, now).1 >= max,
{
    lemma_tick_steps_facts(s, active, max, now, s.len());
    let out = tick_outcome(s, active, max, now);
    assert forall|j: int|
        0 <= j < s.len() && is_due(#[trigger] s[j], now) && !s[j].running && !out.2.contains(j)
            implies out.1 >= max by {
        assert(out.0[j].poll == s[j].poll);
    }
}

/// Turn the outcome of running `poll` into the poll result that the engine
/// receives: a success carries the latency (zero when the executor gave
/// none), a failure carries the error (`"unknown error"` when the executor
/// gave none). The result gets a fresh id and the current time; `None` when
/// no random id can be drawn (the operating system's random source failed).
pub fn poll_result_from_outcome(poll: &Poll, outcome: PollOutcome) -> (r: Option<PollResult>)
    ensures
        r matches Some(res) ==> {
            &&& res.poll_id == poll.id
            &&& res.node_id == poll.node_id
            &&& res.success == outcome.success
            &&& outcome.success ==> res.latency_ns == Some(
                match outcome.latency_ns {
                    Some(l) => l,
                    None => 0u128,
                },
            ) && res.error is None
            &&& !outcome.success ==> res.latency_ns is None && res.error is Some && res.error.unwrap()@
                == match outcome.error {
                Some(e) => e@,
                None => "unknown error"@,
            }
        },
{
    if outcome.success {
        let latency = match outcome.latency_ns {
            Some(l) => l,
            None => 0,
        };
        PollResult::success(poll.id, poll.node_id, latency)
    } else {
        match outcome.error {
            Some(e) => PollResult::failure(poll.id, poll.node_id, e.as_str()),
            None => PollResult::failure(poll.id, poll.node_id, "unknown error"),
        }
    }
}

} // verus!
