use std::collections::HashMap;
use vstd::prelude::*;
use vstd::std_specs::iter::IteratorSpec;

use crate::engine::dependency::{
    effective_consistent, effective_status_in, lemma_propagation_only_overlays,
    recompute_all_effective_statuses, with_effective,
};
use crate::engine::scheduler::{
    can_advance_all, fresh_entry, is_order_of, ticked, PollLaunch, ScheduledPoll, Scheduler,
};
use crate::engine::status::{
    compute_status_transition, counter_has_room, status_transition, StatusTransition,
};
use crate::models::node::Node;
use crate::models::poll::{Poll, PollResult, DEFAULT_FAILURE_THRESHOLD, DEFAULT_RECOVERY_THRESHOLD};
use crate::models::status::{EffectiveStatus, NodeStatus};

verus! {

/// Errors that the engine's operations report.
#[derive(Debug, Clone, Copy, PartialEq, Eq, Structural)]
pub enum EngineError {
    /// No node with this id is registered.
    NodeNotFound(u128),
    /// The node has no address to poll.
    NoAddress,
}

/// The failure and recovery thresholds that apply to a result of poll
/// `poll_id`: those of the poll when it is registered, else the defaults.
pub open spec fn thresholds_for(polls: Map<u128, Poll>, poll_id: u128) -> (u32, u32) {
    if polls.contains_key(poll_id) {
        (polls[poll_id].failure_threshold, polls[poll_id].recovery_threshold)
    } else {
        (DEFAULT_FAILURE_THRESHOLD, DEFAULT_RECOVERY_THRESHOLD)
    }
}

/// The node with the status and counters of transition `t` applied.
pub open spec fn with_transition(node: Node, t: StatusTransition) -> Node {
    Node {
        status: t.new_status,
        consecutive_failures: t.new_consecutive_failures,
        consecutive_successes: t.new_consecutive_successes,
        ..node
    }
}

/// The transition that `result` causes on `node` under the thresholds of
/// `polls`.
pub open spec fn transition_for(polls: Map<u128, Poll>, node: Node, result: PollResult) -> StatusTransition {
    status_transition(
        node.status,
        node.consecutive_failures,
        node.consecutive_successes,
        thresholds_for(polls, result.poll_id).0,
        thresholds_for(polls, result.poll_id).1,
        result.success,
    )
}

/// The monitoring state: nodes, poll configurations and the scheduler.
///
/// The engine is the single logical writer of this state. Poll tasks only
/// hand results back; the daemon around the engine persists what the
/// engine's operations report.
pub struct Engine {
    nodes: HashMap<u128, Node>,
    polls: HashMap<u128, Poll>,
    scheduler: Scheduler,
}

/// Recompute every node's effective status in place.
fn refresh_effective_statuses(nodes: &mut HashMap<u128, Node>)
    ensures
        final(nodes)@ == with_effective(old(nodes)@),
{
    broadcast use vstd::std_specs::hash::group_hash_axioms;
    let ghost m0 = nodes@;
    let updates = recompute_all_effective_statuses(nodes);
    let mut i: usize = 0;
    while i < updates.len()
        invariant
            m0 == old(nodes)@,
            0 <= i <= updates@.len(),
            updates@.len() == m0.dom().len(),
            forall|j: int|
                0 <= j < updates@.len() ==> m0.contains_key(#[trigger] updates@[j].0)
                    && updates@[j].1 == effective_status_in(m0, updates@[j].0),
            forall|k: u128|
                m0.contains_key(k) ==> exists|j: int| 0 <= j < updates@.len() && #[trigger] updates@[j].0 == k,
            forall|a: int, b: int| 0 <= a < b < updates@.len() ==> updates@[a].0 != updates@[b].0,
            nodes@.dom() == m0.dom(),
            forall|j: int| 0 <= j < i ==> nodes@[#[trigger] updates@[j].0] == with_effective(m0)[updates@[j].0],
            forall|k: u128|
                m0.contains_key(k) && (forall|j: int| 0 <= j < i ==> updates@[j].0 != k) ==> #[trigger] nodes@[k]
                    == m0[k],
        decreases updates@.len() - i,
    {
        let (id, eff) = updates[i];
        match nodes.remove(&id) {
            Some(node) => {
                let mut node = node;
                node.effective_status = eff;
                nodes.insert(id, node);
            },
            None => {},
        }
        proof {
            assert(nodes@.dom() =~= m0.dom());
            assert forall|j: int| 0 <= j < i + 1 implies nodes@[#[trigger] updates@[j].0] == with_effective(
                m0,
            )[updates@[j].0] by {
                if j < i {
                    assert(updates@[j].0 != id);
                }
            }
        }
        i = i + 1;
    }
    proof {
        assert forall|k: u128| nodes@.contains_key(k) implies nodes@[k] == with_effective(m0)[k] by {
            let j = choose|j: int| 0 <= j < updates@.len() && #[trigger] updates@[j].0 == k;
            assert(nodes@[updates@[j].0] == with_effective(m0)[updates@[j].0]);
        }
        assert(nodes@ =~= with_effective(m0));
    }
}


/// The node map holding the nodes of `s` by id; a later node replaces an
/// earlier one with the same id.
pub open spec fn nodes_from_seq(s: Seq<Node>) -> Map<u128, Node>
    decreases s.len(),
{
    if s.len() == 0 {
        Map::empty()
    } else {
        nodes_from_seq(s.drop_last()).insert(s.last().id, s.last())
    }
}

/// The poll map and scheduler entries that loading the polls `ps`, in order,
/// gives against the nodes `nodes`: a poll whose node is missing is dropped;
/// any other poll is recorded and scheduled, due at `now`, against its
/// node's first address, or against `blank` (an empty address) when the node
/// has none.
pub open spec fn load_polls(ps: Seq<Poll>, nodes: Map<u128, Node>, now: u64, blank: String) -> (
    Map<u128, Poll>,
    Map<u128, ScheduledPoll>,
)
    decreases ps.len(),
{
    if ps.len() == 0 {
        (Map::empty(), Map::empty())
    } else {
        let prev = load_polls(ps.drop_last(), nodes, now, blank);
        let p = ps.last();
        if !nodes.contains_key(p.node_id) {
            prev
        } else {
            let address = if nodes[p.node_id].addresses@.len() == 0 {
                blank
            } else {
                nodes[p.node_id].addresses@[0]
            };
            (prev.0.insert(p.id, p), prev.1.insert(p.id, fresh_entry(p, address, now)))
        }
    }
}

/// What loading the polls `ps` against the nodes `nodes` gives: every poll
/// whose node is registered is recorded under its id, and no other poll; each
/// recorded poll has one scheduler entry, and each entry one recorded poll;
/// the entry holds that poll, due at `now`, not running, against its node's
/// first address, or against `blank` when the node has no address.
pub proof fn lemma_load_polls(ps: Seq<Poll>, nodes: Map<u128, Node>, now: u64, blank: String)
    ensures
        ({
            let r = load_polls(ps, nodes, now, blank);
            &&& forall|k: u128| #[trigger] r.0.contains_key(k) <==> r.1.contains_key(k)
            &&& forall|k: u128|
                #[trigger] r.0.contains_key(k) ==> {
                    &&& r.0[k].id == k
                    &&& nodes.contains_key(r.0[k].node_id)
                    &&& exists|i: int| 0 <= i < ps.len() && ps[i] == r.0[k]
                    &&& r.1[k].poll == r.0[k]
                    &&& r.1[k].next_run_at == now
                    &&& !r.1[k].running
                    &&& nodes[r.0[k].node_id].addresses@.len() > 0 ==> r.1[k].address
                        == nodes[r.0[k].node_id].addresses@[0]
                    &&& nodes[r.0[k].node_id].addresses@.len() == 0 ==> r.1[k].address == blank
                }
            &&& forall|i: int|
                0 <= i < ps.len() && nodes.contains_key(#[trigger] ps[i].node_id) ==> r.0.contains_key(
                    ps[i].id,
                )
        }),
    decreases ps.len(),
{
    if ps.len() > 0 {
        let prefix = ps.drop_last();
        lemma_load_polls(prefix, nodes, now, blank);
        let prev = load_polls(prefix, nodes, now, blank);
        let r = load_polls(ps, nodes, now, blank);
        let p = ps.last();
        assert forall|k: u128| #[trigger] r.0.contains_key(k) implies exists|i: int|
            0 <= i < ps.len() && ps[i] == r.0[k] by {
            if nodes.contains_key(p.node_id) && k == p.id {
                assert(ps[ps.len() - 1] == r.0[k]);
            } else {
                let i = choose|i: int| 0 <= i < prefix.len() && prefix[i] == prev.0[k];
                assert(ps[i] == r.0[k]);
            }
        }
        assert forall|i: int|
            0 <= i < ps.len() && nodes.contains_key(#[trigger] ps[i].node_id) implies r.0.contains_key(
            ps[i].id,
        ) by {
            if i < ps.len() - 1 {
                assert(prefix[i] == ps[i]);
            }
        }
    }
}

/// The ids of the polls of node `node_id`.
pub open spec fn polls_of_node(polls: Map<u128, Poll>, node_id: u128) -> Set<u128> {
    Set::new(|k: u128| polls.contains_key(k) && polls[k].node_id == node_id)
}

/// The poll map without the polls of node `node_id`.
pub open spec fn polls_without_node(polls: Map<u128, Poll>, node_id: u128) -> Map<u128, Poll> {
    Map::new(|k: u128| polls.contains_key(k) && polls[k].node_id != node_id, |k: u128| polls[k])
}

impl Engine {
    /// The registered nodes, by id.
    pub closed spec fn node_map(&self) -> Map<u128, Node> {
        self.nodes@
    }

    /// The registered poll configurations, by id.
    pub closed spec fn poll_map(&self) -> Map<u128, Poll> {
        self.polls@
    }

    /// The scheduler.
    pub closed spec fn sched(&self) -> Scheduler {
        self.scheduler
    }

    /// Well-formedness: every node and poll is stored under its own id, and
    /// the scheduler is well formed.
    pub open spec fn wf(&self) -> bool {
        &&& self.sched().wf()
        &&& forall|k: u128| self.node_map().contains_key(k) ==> #[trigger] self.node_map()[k].id == k
        &&& forall|k: u128| self.poll_map().contains_key(k) ==> #[trigger] self.poll_map()[k].id == k
    }

    /// Whether applying `result` keeps the polled node's counters in `u32`.
    pub open spec fn can_apply(&self, result: PollResult) -> bool {
        self.node_map().contains_key(result.node_id) ==> counter_has_room(
            self.node_map()[result.node_id].consecutive_failures,
            self.node_map()[result.node_id].consecutive_successes,
            result.success,
        )
    }

    /// Initialise the engine from the stored nodes and polls.
    ///
    /// Nodes are registered by id (a later one replaces an earlier one with
    /// the same id) and their effective statuses recomputed. Every poll whose
    /// node is registered is recorded and registered with the scheduler, due
    /// at `now`: against the node's first address, or against an empty
    /// address (which no executor resolves, so its polls fail) when the node
    /// has none. The scheduler starts with no poll in flight and the given
    /// concurrency cap.
    pub fn new(nodes: Vec<Node>, polls: Vec<Poll>, max_concurrent: usize, now: u64) -> (e: Self)
        ensures
            e.wf(),
            e.node_map() == with_effective(nodes_from_seq(nodes@)),
            effective_consistent(e.node_map()),
            exists|blank: String|
                {
                    &&& blank@ == Seq::<char>::empty()
                    &&& e.poll_map() == #[trigger] load_polls(polls@, e.node_map(), now, blank).0
                    &&& e.sched().entries() == load_polls(polls@, e.node_map(), now, blank).1
                },
            forall|i: int|
                0 <= i < polls@.len() && e.node_map().contains_key(#[trigger] polls@[i].node_id)
                    ==> e.poll_map().contains_key(polls@[i].id),
            forall|k: u128| #[trigger] e.poll_map().contains_key(k) <==> e.sched().entries().contains_key(k),
            forall|k: u128|
                #[trigger] e.poll_map().contains_key(k) ==> {
                    &&& e.node_map().contains_key(e.poll_map()[k].node_id)
                    &&& exists|i: int| 0 <= i < polls@.len() && polls@[i] == e.poll_map()[k]
                    &&& e.sched().entries()[k].poll == e.poll_map()[k]
                    &&& e.sched().entries()[k].next_run_at == now
                    &&& !e.sched().entries()[k].running
                    &&& e.node_map()[e.poll_map()[k].node_id].addresses@.len() > 0 ==> e.sched().entries()[k].address
                        == e.node_map()[e.poll_map()[k].node_id].addresses@[0]
                    &&& e.node_map()[e.poll_map()[k].node_id].addresses@.len() == 0 ==> e.sched().entries()[k].address@
                        == Seq::<char>::empty()
                },
            e.sched().max_active() == max_concurrent,
            e.sched().active() == 0,
    {
        broadcast use vstd::std_specs::hash::group_hash_axioms;
        let ghost node_seq = nodes@;
        let mut node_map: HashMap<u128, Node> = HashMap::new();
        for node in it: nodes
            invariant
                it.seq() == node_seq,
                node_map@ == nodes_from_seq(node_seq.take(it.index())),
                forall|k: u128| node_map@.contains_key(k) ==> #[trigger] node_map@[k].id == k,
        {
            proof {
                assert(node_seq.take(it.index() + 1).drop_last() =~= node_seq.take(it.index()));
            }
            let id = node.id;
            node_map.insert(id, node);
        }
        proof {
            assert(node_seq.take(node_seq.len() as int) =~= node_seq);
        }
        refresh_effective_statuses(&mut node_map);
        proof {
            lemma_propagation_only_overlays(nodes_from_seq(node_seq));
        }
        let mut poll_map: HashMap<u128, Poll> = HashMap::new();
        let mut scheduler = Scheduler::new(max_concurrent);
        let ghost final_nodes = node_map@;
        let blank = String::new();
        let mut i: usize = 0;
        while i < polls.len()
            invariant
                0 <= i <= polls@.len(),
                node_map@ == final_nodes,
                scheduler.wf(),
                scheduler.max_active() == max_concurrent,
                scheduler.active() == 0,
                blank@ == Seq::<char>::empty(),
                (poll_map@, scheduler.entries()) == load_polls(polls@.take(i as int), final_nodes, now, blank),
                forall|k: u128| poll_map@.contains_key(k) ==> #[trigger] poll_map@[k].id == k,
            decreases polls@.len() - i,
        {
            proof {
                assert(polls@.take(i as int + 1).drop_last() =~= polls@.take(i as int));
            }
            let poll = polls[i];
            match node_map.get(&poll.node_id) {
                None => {},
                Some(node) => {
                    let address = if node.addresses.len() > 0 {
                        node.addresses[0].clone()
                    } else {
                        blank.clone()
                    };
                    scheduler.add_poll(poll, address, now);
                    poll_map.insert(poll.id, poll);
                },
            }
            i = i + 1;
        }
        proof {
            assert(polls@.take(polls@.len() as int) =~= polls@);
        }
        let e = Engine { nodes: node_map, polls: poll_map, scheduler };
        assert(e.poll_map() == load_polls(polls@, e.node_map(), now, blank).0);
        proof {
            lemma_load_polls(polls@, e.node_map(), now, blank);
        }
        e
    }

    /// Drive the scheduler one step at time `now` (see `Scheduler::tick`);
    /// the returned polls are to be launched.
    pub fn tick(&mut self, now: u64) -> (launches: Vec<PollLaunch>)
        requires
            old(self).wf(),
            can_advance_all(old(self).sched().entries(), now),
        ensures
            final(self).wf(),
            final(self).node_map() == old(self).node_map(),
            final(self).poll_map() == old(self).poll_map(),
            final(self).sched().max_active() == old(self).sched().max_active(),
            exists|order: Seq<u128>|
                #[trigger] is_order_of(order, old(self).sched().entries()) && ticked(
                    old(self).sched().entries(),
                    order,
                    old(self).sched().active() as int,
                    old(self).sched().max_active() as int,
                    now,
                    final(self).sched().entries(),
                    final(self).sched().active() as int,
                    launches@,
                ),
    {
        self.scheduler.tick(now)
    }

    /// Report the end of a launched poll's task (see
    /// `Scheduler::complete_poll`).
    pub fn complete_poll(&mut self, poll_id: u128)
        requires
            old(self).wf(),
            old(self).sched().active() > 0,
        ensures
            final(self).wf(),
            final(self).node_map() == old(self).node_map(),
            final(self).poll_map() == old(self).poll_map(),
            final(self).sched().max_active() == old(self).sched().max_active(),
            final(self).sched().active() == old(self).sched().active() - 1,
            old(self).sched().entries().contains_key(poll_id) ==> final(self).sched().entries()
                == old(self).sched().entries().insert(
                poll_id,
                ScheduledPoll { running: false, ..old(self).sched().entries()[poll_id] },
            ),
            !old(self).sched().entries().contains_key(poll_id) ==> final(self).sched().entries()
                == old(self).sched().entries(),
    {
        self.scheduler.complete_poll(poll_id);
    }

    /// The registered nodes.
    pub fn nodes(&self) -> (r: &HashMap<u128, Node>)
        ensures
            r@ == self.node_map(),
    {
        &self.nodes
    }

    /// The registered poll configurations.
    pub fn polls(&self) -> (r: &HashMap<u128, Poll>)
        ensures
            r@ == self.poll_map(),
    {
        &self.polls
    }

    /// The scheduler.
    pub fn scheduler(&self) -> (r: &Scheduler)
        ensures
            *r == self.sched(),
    {
        &self.scheduler
    }

    /// Retrieve a node by id.
    pub fn get_node(&self, node_id: &u128) -> (r: Option<&Node>)
        ensures
            match r {
                Some(n) => self.node_map().contains_key(*node_id) && *n == self.node_map()[*node_id],
                None => !self.node_map().contains_key(*node_id),
            },
    {
        broadcast use vstd::std_specs::hash::group_hash_axioms;
        self.nodes.get(node_id)
    }

    /// The current and effective status of a node.
    pub fn get_status(&self, node_id: &u128) -> (r: Option<(NodeStatus, EffectiveStatus)>)
        ensures
            match r {
                Some(st) => self.node_map().contains_key(*node_id) && st == (
                    self.node_map()[*node_id].status,
                    self.node_map()[*node_id].effective_status,
                ),
                None => !self.node_map().contains_key(*node_id),
            },
    {
        broadcast use vstd::std_specs::hash::group_hash_axioms;
        match self.nodes.get(node_id) {
            Some(n) => Some((n.status, n.effective_status)),
            None => None,
        }
    }

    /// Whether `result` can be applied without a counter leaving `u32`
    /// (see `handle_poll_result`).
    pub fn counters_have_room(&self, result: &PollResult) -> (b: bool)
        ensures
            b == self.can_apply(*result),
    {
        broadcast use vstd::std_specs::hash::group_hash_axioms;
        match self.nodes.get(&result.node_id) {
            Some(n) => if result.success {
                n.consecutive_successes < u32::MAX
            } else {
                n.consecutive_failures < u32::MAX
            },
            None => true,
        }
    }

    /// Process one completed poll result.
    ///
    /// The thresholds come from the result's poll (the defaults 3 and 1 when
    /// the poll is not registered). A result for an unknown node is ignored
    /// and `None` is returned. Otherwise the status state machine moves the
    /// node's status and counters, every node's effective status is
    /// recomputed, and the transition is returned for the caller to log and
    /// persist together with the result.
    pub fn handle_poll_result(&mut self, result: &PollResult) -> (r: Option<StatusTransition>)
        requires
            old(self).wf(),
            old(self).can_apply(*result),
        ensures
            final(self).wf(),
            final(self).poll_map() == old(self).poll_map(),
            final(self).sched() == old(self).sched(),
            !old(self).node_map().contains_key(result.node_id) ==> r is None && final(self).node_map()
                == old(self).node_map(),
            old(self).node_map().contains_key(result.node_id) ==> {
                let t = transition_for(
                    old(self).poll_map(),
                    old(self).node_map()[result.node_id],
                    *result,
                );
                &&& r == Some(t)
                &&& final(self).node_map() == with_effective(
                    old(self).node_map().insert(
                        result.node_id,
                        with_transition(old(self).node_map()[result.node_id], t),
                    ),
                )
                &&& effective_consistent(final(self).node_map())
            },
    {
        broadcast use vstd::std_specs::hash::group_hash_axioms;
        let (failure_threshold, recovery_threshold) = match self.polls.get(&result.poll_id) {
            Some(p) => (p.failure_threshold, p.recovery_threshold),
            None => (DEFAULT_FAILURE_THRESHOLD, DEFAULT_RECOVERY_THRESHOLD),
        };
        let ghost m0 = self.nodes@;
        let node = match self.nodes.remove(&result.node_id) {
            Some(n) => n,
            None => return None,
        };
        let transition = compute_status_transition(
            node.status,
            node.consecutive_failures,
            node.consecutive_successes,
            failure_threshold,
            recovery_threshold,
            result.success,
        );
        let mut node = node;
        node.status = transition.new_status;
        node.consecutive_failures = transition.new_consecutive_failures;
        node.consecutive_successes = transition.new_consecutive_successes;
        self.nodes.insert(result.node_id, node);
        proof {
            assert(self.nodes@ =~= m0.insert(result.node_id, with_transition(m0[result.node_id], transition)));
        }
        refresh_effective_statuses(&mut self.nodes);
        proof {
            lemma_propagation_only_overlays(
                m0.insert(result.node_id, with_transition(m0[result.node_id], transition)),
            );
        }
        Some(transition)
    }

    /// Register a node (already persisted by the caller) and recompute every
    /// node's effective status, since the node may be a parent or a child of
    /// nodes already registered. A node with the same id is replaced.
    pub fn add_node(&mut self, node: Node)
        requires
            old(self).wf(),
        ensures
            final(self).wf(),
            final(self).poll_map() == old(self).poll_map(),
            final(self).sched() == old(self).sched(),
            final(self).node_map() == with_effective(old(self).node_map().insert(node.id, node)),
            effective_consistent(final(self).node_map()),
    {
        let id = node.id;
        let ghost m = self.nodes@.insert(id, node);
        self.nodes.insert(id, node);
        refresh_effective_statuses(&mut self.nodes);
        proof {
            lemma_propagation_only_overlays(m);
        }
    }

    /// The address a new poll will use: the first address of its node.
    ///
    /// Fails with `NodeNotFound` when the poll's node is not registered and
    /// with `NoAddress` when that node has no address.
    pub fn poll_target_address(&self, poll: &Poll) -> (r: Result<String, EngineError>)
        ensures
            !self.node_map().contains_key(poll.node_id) ==> r == Err::<String, EngineError>(
                EngineError::NodeNotFound(poll.node_id),
            ),
            self.node_map().contains_key(poll.node_id) && self.node_map()[poll.node_id].addresses@.len()
                == 0 ==> r == Err::<String, EngineError>(EngineError::NoAddress),
            self.node_map().contains_key(poll.node_id) && self.node_map()[poll.node_id].addresses@.len()
                > 0 ==> r == Ok::<String, EngineError>(self.node_map()[poll.node_id].addresses@[0]),
    {
        broadcast use vstd::std_specs::hash::group_hash_axioms;
        match self.nodes.get(&poll.node_id) {
            None => Err(EngineError::NodeNotFound(poll.node_id)),
            Some(node) => {
                if node.addresses.len() == 0 {
                    Err(EngineError::NoAddress)
                } else {
                    Ok(node.addresses[0].clone())
                }
            },
        }
    }

    /// Register a poll (already persisted by the caller) with the scheduler,
    /// due at once (at `now`), and record its configuration.
    pub fn register_poll(&mut self, poll: Poll, address: String, now: u64)
        requires
            old(self).wf(),
        ensures
            final(self).wf(),
            final(self).node_map() == old(self).node_map(),
            final(self).poll_map() == old(self).poll_map().insert(poll.id, poll),
            final(self).sched().entries() == old(self).sched().entries().insert(
                poll.id,
                fresh_entry(poll, address, now),
            ),
            final(self).sched().max_active() == old(self).sched().max_active(),
            final(self).sched().active() == old(self).sched().active(),
    {
        self.scheduler.add_poll(poll, address, now);
        self.polls.insert(poll.id, poll);
    }

    /// Add a poll for a registered node: the poll is scheduled against the
    /// node's first address, due at once (at `now`).
    ///
    /// Fails, changing nothing, with `NodeNotFound` when the node is not
    /// registered and with `NoAddress` when it has no address.
    pub fn add_poll(&mut self, poll: Poll, now: u64) -> (r: Result<(), EngineError>)
        requires
            old(self).wf(),
        ensures
            final(self).wf(),
            final(self).node_map() == old(self).node_map(),
            !old(self).node_map().contains_key(poll.node_id) ==> r == Err::<(), EngineError>(
                EngineError::NodeNotFound(poll.node_id),
            ) && final(self).poll_map() == old(self).poll_map() && final(self).sched() == old(self).sched(),
            old(self).node_map().contains_key(poll.node_id) && old(self).node_map()[poll.node_id].addresses@.len()
                == 0 ==> r == Err::<(), EngineError>(EngineError::NoAddress) && final(self).poll_map()
                == old(self).poll_map() && final(self).sched() == old(self).sched(),
            old(self).node_map().contains_key(poll.node_id) && old(self).node_map()[poll.node_id].addresses@.len()
                > 0 ==> r is Ok && final(self).poll_map() == old(self).poll_map().insert(poll.id, poll)
                && final(self).sched().entries() == old(self).sched().entries().insert(
                poll.id,
                fresh_entry(poll, old(self).node_map()[poll.node_id].addresses@[0], now),
            ) && final(self).sched().active() == old(self).sched().active(),
    {
        match self.poll_target_address(&poll) {
            Ok(address) => {
                self.register_poll(poll, address, now);
                Ok(())
            },
            Err(e) => Err(e),
        }
    }

    /// Remove a node together with its polls (from the poll map and from the
    /// scheduler). Effective statuses are not recomputed.
    ///
    /// Fails, changing nothing, with `NodeNotFound` when the node is not
    /// registered.
    pub fn remove_node(&mut self, node_id: &u128) -> (r: Result<(), EngineError>)
        requires
            old(self).wf(),
        ensures
            final(self).wf(),
            !old(self).node_map().contains_key(*node_id) ==> r == Err::<(), EngineError>(
                EngineError::NodeNotFound(*node_id),
            ) && final(self).node_map() == old(self).node_map() && final(self).poll_map() == old(self).poll_map() && final(self).sched() == old(self).sched(),
            old(self).node_map().contains_key(*node_id) ==> {
                &&& r is Ok
                &&& final(self).node_map() == old(self).node_map().remove(*node_id)
                &&& final(self).poll_map() == polls_without_node(old(self).poll_map(), *node_id)
                &&& final(self).sched().entries() == old(self).sched().entries().remove_keys(
                    polls_of_node(old(self).poll_map(), *node_id),
                )
                &&& forall|k: u128|
                    #[trigger] old(self).poll_map().contains_key(k) && old(self).poll_map()[k].node_id
                        != *node_id ==> final(self).poll_map().contains_key(k) && final(self).poll_map()[k]
                        == old(self).poll_map()[k]
                &&& forall|k: u128|
                    #[trigger] final(self).poll_map().contains_key(k) ==> old(self).poll_map().contains_key(k)
                        && old(self).poll_map()[k].node_id != *node_id
                &&& forall|k: u128|
                    #[trigger] old(self).sched().entries().contains_key(k) && !(old(self).poll_map().contains_key(k)
                        && old(self).poll_map()[k].node_id == *node_id) ==> final(self).sched().entries().contains_key(k)
                        && final(self).sched().entries()[k] == old(self).sched().entries()[k]
                &&& forall|k: u128|
                    #[trigger] old(self).poll_map().contains_key(k) && old(self).poll_map()[k].node_id == *node_id
                        ==> !final(self).sched().entries().contains_key(k)
                &&& final(self).sched().max_active() == old(self).sched().max_active()
                &&& final(self).sched().active() == old(self).sched().active()
            },
    {
        broadcast use vstd::std_specs::hash::group_hash_axioms;
        if !self.nodes.contains_key(node_id) {
            return Err(EngineError::NodeNotFound(*node_id));
        }
        let ghost p0 = self.polls@;
        let ghost keys = vstd::std_specs::hash::spec_keys_iter(&self.polls).remaining();
        let mut removed: Vec<u128> = Vec::new();
        let mut kept: HashMap<u128, Poll> = HashMap::new();
        for id in it: self.polls.keys()
            invariant
                it.seq() == keys,
                p0 == self.polls@,
                keys.unref().to_set() == p0.dom(),
                keys.no_duplicates(),
                forall|k: u128|
                    #[trigger] kept@.contains_key(k) <==> (exists|j: int|
                        0 <= j < it.index() && *keys[j] == k) && p0[k].node_id != *node_id,
                forall|k: u128| #[trigger] kept@.contains_key(k) ==> kept@[k] == p0[k],
                forall|k: u128|
                    #[trigger] removed@.contains(k) <==> (exists|j: int|
                        0 <= j < it.index() && *keys[j] == k) && p0[k].node_id == *node_id,
        {
            let ghost j0 = it.index();
            let ghost removed0 = removed@;
            proof {
                assert(keys.unref()[j0] == *keys[j0]);
                assert(keys.unref().to_set().contains(*keys[j0]));
                assert forall|j: int| 0 <= j < j0 implies *keys[j] != *id by {
                    assert(keys[j] != keys[j0]);
                }
            }
            match self.polls.get(id) {
                Some(p) => {
                    assert(*p == p0[*id]);
                    if p.node_id == *node_id {
                        removed.push(*id);
                    } else {
                        kept.insert(*id, *p);
                    }
                },
                None => {},
            }
            assert(removed@ == if p0[*id].node_id == *node_id {
                removed0.push(*id)
            } else {
                removed0
            });
            proof {
                assert forall|k: u128|
                    #[trigger] kept@.contains_key(k) <==> (exists|j: int|
                        0 <= j < j0 + 1 && *keys[j] == k) && p0[k].node_id != *node_id by {
                    if exists|j: int| 0 <= j < j0 + 1 && *keys[j] == k {
                        let j = choose|j: int| 0 <= j < j0 + 1 && *keys[j] == k;
                        if j < j0 {
                            assert(exists|j: int| 0 <= j < j0 && *keys[j] == k);
                        }
                    }
                    if exists|j: int| 0 <= j < j0 && *keys[j] == k {
                        let j = choose|j: int| 0 <= j < j0 && *keys[j] == k;
                        assert(0 <= j < j0 + 1 && *keys[j] == k);
                    }
                }
                assert forall|k: u128|
                    #[trigger] removed@.contains(k) <==> (exists|j: int|
                        0 <= j < j0 + 1 && *keys[j] == k) && p0[k].node_id == *node_id by {
                    if exists|j: int| 0 <= j < j0 + 1 && *keys[j] == k {
                        let j = choose|j: int| 0 <= j < j0 + 1 && *keys[j] == k;
                        if j < j0 {
                            assert(exists|j: int| 0 <= j < j0 && *keys[j] == k);
                        }
                    }
                    if exists|j: int| 0 <= j < j0 && *keys[j] == k {
                        let j = choose|j: int| 0 <= j < j0 && *keys[j] == k;
                        assert(0 <= j < j0 + 1 && *keys[j] == k);
                    }
                    if removed@.contains(k) {
                        let i = choose|i: int| 0 <= i < removed@.len() && removed@[i] == k;
                        if i < removed0.len() {
                            assert(removed0[i] == k);
                            assert(removed0.contains(k));
                        } else {
                            assert(k == *id);
                            assert(*keys[j0] == k);
                        }
                    }
                    if removed0.contains(k) {
                        let i = choose|i: int| 0 <= i < removed0.len() && removed0[i] == k;
                        assert(removed@[i] == k);
                    }
                    if k == *id && p0[k].node_id == *node_id {
                        assert(removed@[removed@.len() - 1] == k);
                    }
                }
            }
        }
        proof {
            assert forall|k: u128| p0.contains_key(k) <==> exists|j: int| 0 <= j < keys.len() && *keys[j] == k by {
                if p0.contains_key(k) {
                    assert(keys.unref().to_set().contains(k));
                    let j = choose|j: int| 0 <= j < keys.unref().len() && keys.unref()[j] == k;
                    assert(*keys[j] == k);
                }
                if exists|j: int| 0 <= j < keys.len() && *keys[j] == k {
                    let j = choose|j: int| 0 <= j < keys.len() && *keys[j] == k;
                    assert(keys.unref()[j] == k);
                    assert(keys.unref().to_set().contains(k));
                }
            }
            assert(kept@ =~= polls_without_node(p0, *node_id));
            assert(removed@.to_set() =~= polls_of_node(p0, *node_id));
        }
        self.scheduler.remove_polls(&removed);
        self.polls = kept;
        self.nodes.remove(node_id);
        Ok(())
    }
}

/// Removing the polls of node `node_id` keeps every poll of every other
/// node, unchanged, in the poll map and in the scheduler, and drops exactly
/// the polls of that node.
pub proof fn lemma_removal_keeps_other_nodes_polls(
    polls: Map<u128, Poll>,
    entries: Map<u128, ScheduledPoll>,
    node_id: u128,
)
    ensures
        forall|k: u128|
            #[trigger] polls_without_node(polls, node_id).contains_key(k) <==> polls.contains_key(k)
                && polls[k].node_id != node_id,
        forall|k: u128|
            #[trigger] polls_without_node(polls, node_id).contains_key(k) ==> polls_without_node(
                polls,
                node_id,
            )[k] == polls[k],
        forall|k: u128|
            #[trigger] entries.remove_keys(polls_of_node(polls, node_id)).contains_key(k)
                <==> entries.contains_key(k) && !(polls.contains_key(k) && polls[k].node_id == node_id),
        forall|k: u128|
            #[trigger] entries.remove_keys(polls_of_node(polls, node_id)).contains_key(k) ==> entries.remove_keys(
                polls_of_node(polls, node_id),
            )[k] == entries[k],
{
}

/// A poll result moves only its own node: every other node keeps its status,
/// its counters and every field but its effective status, and afterwards all
/// effective statuses are consistent with the statuses and parents (children
/// of a node that went Down are Suppressed, and no longer once it is not
/// Down). This holds for every node map and every result for a registered
/// node, whatever its counters.
pub proof fn lemma_poll_result_moves_one_node(
    nodes: Map<u128, Node>,
    polls: Map<u128, Poll>,
    result: PollResult,
)
    requires
        nodes.contains_key(result.node_id),
    ensures
        ({
            let t = transition_for(polls, nodes[result.node_id], result);
            let after = with_effective(nodes.insert(result.node_id, with_transition(nodes[result.node_id], t)));
            &&& after.dom() == nodes.dom()
            &&& effective_consistent(after)
            &&& after[result.node_id].status == t.new_status
            &&& after[result.node_id].consecutive_failures == t.new_consecutive_failures
            &&& after[result.node_id].consecutive_successes == t.new_consecutive_successes
            &&& forall|k: u128|
                nodes.contains_key(k) && k != result.node_id ==> (#[trigger] after[k]) == (Node {
                    effective_status: after[k].effective_status,
                    ..nodes[k]
                })
        }),
{
    let t = transition_for(polls, nodes[result.node_id], result);
    let m = nodes.insert(result.node_id, with_transition(nodes[result.node_id], t));
    lemma_propagation_only_overlays(m);
    assert(m.dom() =~= nodes.dom());
}

} // verus!
