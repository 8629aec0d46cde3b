use pnode_monitor::model::{
    apply_jitter, Model, Node, NodeStatus, StatusColor, JITTER_BOUND, LATENCY_FLOOR,
};
use rand::{RngExt, SeedableRng};

fn node(id: &str, status: NodeStatus, latency: u64, storage: &str, hundredths: u64) -> Node {
    Node {
        id: String::from(id),
        status,
        latency,
        storage: String::from(storage),
        earnings_hundredths: hundredths,
    }
}

fn sample_nodes() -> Vec<Node> {
    vec![
        node("pNode-Alpha-01", NodeStatus::Online, 45, "1.2 TB", 45020),
        node("pNode-Bravo-04", NodeStatus::Syncing, 120, "850 GB", 12050),
        node("pNode-Charlie-09", NodeStatus::Online, 32, "2.0 TB", 89000),
        node("pNode-Delta-22", NodeStatus::Offline, 0, "0 GB", 0),
        node("pNode-Echo-11", NodeStatus::Online, 55, "1.5 TB", 56080),
    ]
}

#[test]
fn apply_jitter_adds_and_clamps() {
    assert_eq!(apply_jitter(45, -5), 40);
    assert_eq!(apply_jitter(45, 0), 45);
    assert_eq!(apply_jitter(45, 5), 50);
    assert_eq!(apply_jitter(12, -5), 10);
    assert_eq!(apply_jitter(10, -1), 10);
    assert_eq!(apply_jitter(14, -5), 10);
    assert_eq!(apply_jitter(15, -5), 10);
    assert_eq!(apply_jitter(16, -5), 11);
    assert_eq!(apply_jitter(LATENCY_FLOOR, 5), 15);
}

#[test]
fn new_model_is_not_terminated() {
    let m = Model::new(sample_nodes());
    assert!(!m.terminated);
    assert_eq!(m.nodes.len(), 5);
    assert_eq!(m.nodes[0].id, "pNode-Alpha-01");
    assert_eq!(m.nodes[3].latency, 0);
}

#[test]
fn tick_keeps_active_latency_within_jitter_bound() {
    let mut m = Model::new(sample_nodes());
    let before: Vec<u64> = m.nodes.iter().map(|n| n.latency).collect();
    m.tick();
    for (k, n) in m.nodes.iter().enumerate() {
        match n.status {
            NodeStatus::Online | NodeStatus::Syncing => {
                let lo = before[k].saturating_sub(JITTER_BOUND as u64);
                let hi = before[k] + JITTER_BOUND as u64;
                assert!(n.latency >= lo && n.latency <= hi);
                assert!(n.latency >= LATENCY_FLOOR);
            }
            NodeStatus::Offline => assert_eq!(n.latency, before[k]),
        }
    }
}

#[test]
fn tick_leaves_offline_latency_unchanged() {
    let mut m = Model::new(vec![
        node("a", NodeStatus::Offline, 77, "1 TB", 100),
        node("b", NodeStatus::Online, 45, "1 TB", 100),
    ]);
    for _ in 0..20 {
        m.tick();
    }
    assert_eq!(m.nodes[0].latency, 77);
}

#[test]
fn tick_never_drops_below_floor() {
    let mut m = Model::new(vec![node("a", NodeStatus::Online, LATENCY_FLOOR, "1 TB", 0)]);
    for _ in 0..50 {
        m.tick();
        assert!(m.nodes[0].latency >= LATENCY_FLOOR);
    }
}

#[test]
fn tick_with_jitters_is_exact() {
    let mut m = Model::new(sample_nodes());
    m.tick_with_jitters(&vec![-5, 3, 0, 5, -2]);
    assert_eq!(m.nodes[0].latency, 40);
    assert_eq!(m.nodes[1].latency, 123);
    assert_eq!(m.nodes[2].latency, 32);
    // offline: the supplied jitter is unused
    assert_eq!(m.nodes[3].latency, 0);
    assert_eq!(m.nodes[4].latency, 53);
    assert!(!m.terminated);
    assert_eq!(m.nodes[1].id, "pNode-Bravo-04");
    assert_eq!(m.nodes[1].storage, "850 GB");
    assert_eq!(m.nodes[1].earnings_hundredths, 12050);
}

#[test]
fn tick_with_jitters_clamps_at_floor() {
    let mut m = Model::new(vec![node("a", NodeStatus::Syncing, 12, "1 TB", 0)]);
    m.tick_with_jitters(&vec![-5]);
    assert_eq!(m.nodes[0].latency, 10);
}

#[test]
fn ten_seeded_ticks_keep_offline_node_at_zero() {
    let mut m = Model::new(sample_nodes());
    let before: Vec<u64> = m.nodes.iter().map(|n| n.latency).collect();
    let mut rng = rand::rngs::StdRng::seed_from_u64(7);
    for _ in 0..10 {
        let jitters: Vec<i64> = (0..m.nodes.len())
            .map(|_| rng.random_range(-JITTER_BOUND..=JITTER_BOUND))
            .collect();
        m.tick_with_jitters(&jitters);
    }
    assert_eq!(m.nodes[3].latency, 0);
    for k in [0usize, 1, 2, 4] {
        let lat = m.nodes[k].latency;
        let lo = before[k].saturating_sub(10 * JITTER_BOUND as u64);
        let hi = before[k] + 10 * JITTER_BOUND as u64;
        assert!(lat >= lo && lat <= hi);
        assert!(lat >= LATENCY_FLOOR);
    }
}

#[test]
fn request_quit_is_idempotent() {
    let mut m = Model::new(sample_nodes());
    m.request_quit();
    assert!(m.terminated);
    let latencies: Vec<u64> = m.nodes.iter().map(|n| n.latency).collect();
    m.request_quit();
    assert!(m.terminated);
    let after: Vec<u64> = m.nodes.iter().map(|n| n.latency).collect();
    assert_eq!(latencies, after);
    assert_eq!(m.nodes.len(), 5);
}

#[test]
fn status_colors_are_keyed_by_value() {
    assert_eq!(NodeStatus::Online.color(), StatusColor::Green);
    assert_eq!(NodeStatus::Syncing.color(), StatusColor::Blue);
    assert_eq!(NodeStatus::Offline.color(), StatusColor::Red);
}

#[test]
fn only_online_and_syncing_are_active() {
    assert!(NodeStatus::Online.is_active());
    assert!(NodeStatus::Syncing.is_active());
    assert!(!NodeStatus::Offline.is_active());
}
