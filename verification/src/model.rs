//! The application model: an ordered list of monitored nodes and a
//! termination flag, with the tick operation that jitters latencies.

use vstd::prelude::*;
use rand::RngExt;

verus! {

/// Inclusive bound on the per-tick latency jitter, in milliseconds.
pub const JITTER_BOUND: i64 = 5;

/// Latency never drops below this floor, in milliseconds.
pub const LATENCY_FLOOR: u64 = 10;

/// The status of a monitored node: a closed set of states.
#[derive(Clone, Copy, PartialEq, Eq, Structural, Debug)]
pub enum NodeStatus {
    Online,
    Syncing,
    Offline,
}

/// The color a status is rendered with.
#[derive(Clone, Copy, PartialEq, Eq, Structural, Debug)]
pub enum StatusColor {
    Green,
    Blue,
    Red,
}

/// A status is active when the tick operation may move its node's latency.
pub open spec fn status_active(s: NodeStatus) -> bool {
    s == NodeStatus::Online || s == NodeStatus::Syncing
}

/// The color keyed by a status value.
pub open spec fn spec_status_color(s: NodeStatus) -> StatusColor {
    match s {
        NodeStatus::Online => StatusColor::Green,
        NodeStatus::Syncing => StatusColor::Blue,
        NodeStatus::Offline => StatusColor::Red,
    }
}

impl NodeStatus {
    /// Whether the tick operation may move this status's latency.
    pub fn is_active(&self) -> (b: bool)
        ensures
            b == status_active(*self),
    {
        match self {
            NodeStatus::Online => true,
            NodeStatus::Syncing => true,
            NodeStatus::Offline => false,
        }
    }

    /// The color this status is rendered with.
    pub fn color(&self) -> (c: StatusColor)
        ensures
            c == spec_status_color(*self),
    {
        match self {
            NodeStatus::Online => StatusColor::Green,
            NodeStatus::Syncing => StatusColor::Blue,
            NodeStatus::Offline => StatusColor::Red,
        }
    }
}

/// One monitored entity. The identifier and storage strings and the
/// earnings accumulator are immutable after construction; only the
/// latency of an active node is moved, by the tick operation.
/// Earnings are held in hundredths of a unit.
pub struct Node {
    pub id: String,
    pub status: NodeStatus,
    pub latency: u64,
    pub storage: String,
    pub earnings_hundredths: u64,
}

/// The whole application state.
pub struct Model {
    pub nodes: Vec<Node>,
    pub terminated: bool,
}

/// A jittered latency: the prior value plus the jitter, clamped at the floor.
pub open spec fn jittered(lat: int, j: int) -> int {
    if lat + j < LATENCY_FLOOR as int {
        LATENCY_FLOOR as int
    } else {
        lat + j
    }
}

/// The fields the tick operation never touches are kept.
pub open spec fn node_fields_kept(pre: Node, post: Node) -> bool {
    &&& post.id == pre.id
    &&& post.status == pre.status
    &&& post.storage == pre.storage
    &&& post.earnings_hundredths == pre.earnings_hundredths
}

/// One node after one tick: an active node's latency is the prior value
/// jittered by some bounded amount; any other node is untouched.
pub open spec fn node_ticked(pre: Node, post: Node) -> bool {
    &&& node_fields_kept(pre, post)
    &&& if status_active(pre.status) {
        exists|j: int|
            -(JITTER_BOUND as int) <= j <= JITTER_BOUND as int
                && post.latency == jittered(pre.latency as int, j)
    } else {
        post.latency == pre.latency
    }
}

/// A node sequence after one tick, node by node.
pub open spec fn nodes_ticked(pre: Seq<Node>, post: Seq<Node>) -> bool {
    &&& post.len() == pre.len()
    &&& forall|k: int| 0 <= k < pre.len() ==> node_ticked(pre[k], post[k])
}

/// The whole model after one tick: the termination flag is untouched.
pub open spec fn model_ticked(pre: Model, post: Model) -> bool {
    &&& nodes_ticked(pre.nodes@, post.nodes@)
    &&& post.terminated == pre.terminated
}

/// The model after a quit request: the flag is set, the nodes untouched.
pub open spec fn quit_applied(pre: Model, post: Model) -> bool {
    &&& post.nodes == pre.nodes
    &&& post.terminated == true
}

/// Every active node's latency has room for the largest upward jitter.
pub open spec fn latencies_have_headroom(nodes: Seq<Node>) -> bool {
    forall|k: int|
        0 <= k < nodes.len() && status_active(#[trigger] nodes[k].status)
            ==> nodes[k].latency + JITTER_BOUND <= u64::MAX
}

/// Relies on `rand::rng` and `rand::RngExt::random_range`: a draw from a
/// non-empty inclusive range lies inside that range.
#[verifier::external_body]
fn draw_jitter() -> (j: i64)
    ensures
        -JITTER_BOUND <= j <= JITTER_BOUND,
{
    rand::rng().random_range(-JITTER_BOUND..=JITTER_BOUND)
}

/// Adds a bounded jitter to a latency and clamps the result at the floor.
pub fn apply_jitter(lat: u64, j: i64) -> (r: u64)
    requires
        -JITTER_BOUND <= j <= JITTER_BOUND,
        lat + JITTER_BOUND <= u64::MAX,
    ensures
        r == jittered(lat as int, j as int),
{
    if j < 0 {
        let d = (-j) as u64;
        if lat < d + LATENCY_FLOOR {
            LATENCY_FLOOR
        } else {
            lat - d
        }
    } else {
        let s = lat + (j as u64);
        if s < LATENCY_FLOOR {
            LATENCY_FLOOR
        } else {
            s
        }
    }
}

impl Model {
    /// A model over the given nodes, not yet terminated.
    pub fn new(nodes: Vec<Node>) -> (m: Model)
        ensures
            m.nodes@ == nodes@,
            m.terminated == false,
    {
        Model { nodes, terminated: false }
    }

    /// Advances simulated time by one tick: every active node's latency
    /// is jittered by a random bounded amount and clamped at the floor;
    /// every other node is untouched.
    pub fn tick(&mut self)
        requires
            latencies_have_headroom(old(self).nodes@),
        ensures
            model_ticked(*old(self), *final(self)),
    {
        let n = self.nodes.len();
        let mut i: usize = 0;
        while i < n
            invariant
                i <= n,
                n == self.nodes@.len(),
                self.nodes@.len() == old(self).nodes@.len(),
                self.terminated == old(self).terminated,
                forall|k: int| i <= k < n ==> self.nodes@[k] == old(self).nodes@[k],
                forall|k: int| 0 <= k < i ==> node_ticked(old(self).nodes@[k], self.nodes@[k]),
                latencies_have_headroom(old(self).nodes@),
            decreases n - i,
        {
            if self.nodes[i].status.is_active() {
                let j = draw_jitter();
                let lat = self.nodes[i].latency;
                self.nodes[i].latency = apply_jitter(lat, j);
                assert(node_ticked(old(self).nodes@[i as int], self.nodes@[i as int])) by {
                    assert(self.nodes@[i as int].latency
                        == jittered(old(self).nodes@[i as int].latency as int, j as int));
                }
            }
            i += 1;
        }
    }

    /// Advances simulated time by one tick with the jitters given from
    /// outside, one per node; the jitter of an inactive node is unused.
    pub fn tick_with_jitters(&mut self, jitters: &Vec<i64>)
        requires
            jitters@.len() == old(self).nodes@.len(),
            forall|k: int|
                0 <= k < jitters@.len() ==> -JITTER_BOUND <= #[trigger] jitters@[k] <= JITTER_BOUND,
            latencies_have_headroom(old(self).nodes@),
        ensures
            final(self).nodes@.len() == old(self).nodes@.len(),
            final(self).terminated == old(self).terminated,
            forall|k: int|
                0 <= k < old(self).nodes@.len()
                    ==> node_fields_kept(old(self).nodes@[k], #[trigger] final(self).nodes@[k]),
            forall|k: int|
                0 <= k < old(self).nodes@.len() && status_active(old(self).nodes@[k].status)
                    ==> (#[trigger] final(self).nodes@[k]).latency
                        == jittered(old(self).nodes@[k].latency as int, jitters@[k] as int),
            forall|k: int|
                0 <= k < old(self).nodes@.len() && !status_active(old(self).nodes@[k].status)
                    ==> (#[trigger] final(self).nodes@[k]).latency == old(self).nodes@[k].latency,
            model_ticked(*old(self), *final(self)),
    {
        let n = self.nodes.len();
        let mut i: usize = 0;
        while i < n
            invariant
                i <= n,
                n == self.nodes@.len(),
                self.nodes@.len() == old(self).nodes@.len(),
                jitters@.len() == old(self).nodes@.len(),
                self.terminated == old(self).terminated,
                forall|k: int|
                    0 <= k < jitters@.len()
                        ==> -JITTER_BOUND <= #[trigger] jitters@[k] <= JITTER_BOUND,
                forall|k: int| i <= k < n ==> self.nodes@[k] == old(self).nodes@[k],
                forall|k: int|
                    0 <= k < i
                        ==> node_fields_kept(old(self).nodes@[k], #[trigger] self.nodes@[k]),
                forall|k: int|
                    0 <= k < i && status_active(old(self).nodes@[k].status)
                        ==> (#[trigger] self.nodes@[k]).latency
                            == jittered(old(self).nodes@[k].latency as int, jitters@[k] as int),
                forall|k: int|
                    0 <= k < i && !status_active(old(self).nodes@[k].status)
                        ==> (#[trigger] self.nodes@[k]).latency == old(self).nodes@[k].latency,
                latencies_have_headroom(old(self).nodes@),
            decreases n - i,
        {
            if self.nodes[i].status.is_active() {
                let j = jitters[i];
                let lat = self.nodes[i].latency;
                self.nodes[i].latency = apply_jitter(lat, j);
            }
            i += 1;
        }
        assert forall|k: int| 0 <= k < old(self).nodes@.len()
            implies node_ticked(old(self).nodes@[k], self.nodes@[k]) by {
            if status_active(old(self).nodes@[k].status) {
                assert(self.nodes@[k].latency
                    == jittered(old(self).nodes@[k].latency as int, jitters@[k] as int));
            }
        }
    }

    /// Requests termination. Idempotent: the flag is set and never reset,
    /// and nothing else is touched.
    pub fn request_quit(&mut self)
        ensures
            quit_applied(*old(self), *final(self)),
    {
        self.terminated = true;
    }
}

/// Law: after a tick, an active node whose latency started at or above the
/// floor moves by at most the jitter bound and never ends below the floor;
/// every latency ends at or above the floor regardless.
pub proof fn lemma_tick_latency_envelope(pre: Model, post: Model)
    requires
        model_ticked(pre, post),
        forall|k: int|
            0 <= k < pre.nodes@.len() && status_active(#[trigger] pre.nodes@[k].status)
                ==> pre.nodes@[k].latency >= LATENCY_FLOOR,
    ensures
        forall|k: int|
            0 <= k < pre.nodes@.len() && status_active(#[trigger] pre.nodes@[k].status)
                ==> post.nodes@[k].latency >= LATENCY_FLOOR
                    && pre.nodes@[k].latency - JITTER_BOUND <= post.nodes@[k].latency
                    <= pre.nodes@[k].latency + JITTER_BOUND,
{
    assert forall|k: int|
        0 <= k < pre.nodes@.len() && status_active(#[trigger] pre.nodes@[k].status)
        implies post.nodes@[k].latency >= LATENCY_FLOOR
            && pre.nodes@[k].latency - JITTER_BOUND <= post.nodes@[k].latency
            <= pre.nodes@[k].latency + JITTER_BOUND by {
        assert(node_ticked(pre.nodes@[k], post.nodes@[k]));
        let j = choose|j: int|
            -(JITTER_BOUND as int) <= j <= JITTER_BOUND as int
                && post.nodes@[k].latency == jittered(pre.nodes@[k].latency as int, j);
    }
}

/// Law: a tick leaves the latency of every node that is not active — in
/// particular every offline node — unchanged.
pub proof fn lemma_tick_inactive_unchanged(pre: Model, post: Model)
    requires
        model_ticked(pre, post),
    ensures
        forall|k: int|
            0 <= k < pre.nodes@.len() && !status_active(#[trigger] pre.nodes@[k].status)
                ==> post.nodes@[k].latency == pre.nodes@[k].latency,
{
    assert forall|k: int|
        0 <= k < pre.nodes@.len() && !status_active(#[trigger] pre.nodes@[k].status)
        implies post.nodes@[k].latency == pre.nodes@[k].latency by {
        assert(node_ticked(pre.nodes@[k], post.nodes@[k]));
    }
}

/// Law: requesting termination twice leaves the model exactly as one
/// request does — the flag set, the nodes untouched.
pub proof fn lemma_request_quit_idempotent(m0: Model, m1: Model, m2: Model)
    requires
        quit_applied(m0, m1),
        quit_applied(m1, m2),
    ensures
        quit_applied(m0, m2),
        m2.nodes == m1.nodes,
        m2.terminated == m1.terminated,
{
}

} // verus!
