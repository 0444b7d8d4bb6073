use zn::ai::backend::FastBootBackend;
use zn::ai::canary::{CanaryDeployer, CanaryStats};
use zn::ai::memory::VectorMemory;

#[test]
fn bucket_is_stable_and_in_range() {
    for agent in ["agent-1", "tenant:42:op", "x"] {
        let b1 = CanaryDeployer::<&str>::bucket(agent);
        let b2 = CanaryDeployer::<&str>::bucket(agent);
        assert_eq!(b1, b2, "bucket must be deterministic");
        assert!(b1 < 100);
    }
}

#[test]
fn routing_respects_canary_pct() {
    let mut d = CanaryDeployer::new("cur");
    assert!(!d.has_canary());
    assert_eq!(*d.backend_for("agent-1"), "cur");

    d.set_canary("can", 100);
    assert_eq!(*d.backend_for("agent-1"), "can", "100% => everyone");

    d.rollback();
    assert!(!d.has_canary());
    assert_eq!(*d.backend_for("agent-1"), "cur");

    d.set_canary("can", 1);
    for i in 0..200u32 {
        let a = format!("agent-{i}");
        let expected = if CanaryDeployer::<&str>::bucket(&a) < 1 { "can" } else { "cur" };
        assert_eq!(*d.backend_for(&a), expected);
        assert_eq!(d.is_canary_bucket(&a), expected == "can");
    }
}

#[test]
fn promote_requires_gate_and_hot_swaps() {
    let mut d = CanaryDeployer::new("cur");
    d.set_canary("can", 50);
    assert!(!d.promote(false), "no promotion without gate");
    assert!(d.has_canary());
    assert!(d.promote(true));
    assert!(!d.has_canary());
    assert_eq!(*d.active(), "can", "hot-swap must install canary as current");
    assert!(!d.promote(true), "nothing to promote");
}

#[test]
fn canary_share_is_clamped() {
    let mut d = CanaryDeployer::new("cur");
    d.set_canary("can", 0);
    // A share of 0 becomes 1: only bucket 0 is served by the canary.
    for i in 0..50u32 {
        let a = format!("a{i}");
        assert_eq!(d.is_canary_bucket(&a), CanaryDeployer::<&str>::bucket(&a) < 1);
    }
    d.set_canary("can", 250);
    assert!(d.is_canary_bucket("anyone"));
}

#[test]
fn stats_counting() {
    let mut s = CanaryStats::default();
    for _ in 0..60 {
        s.note(true, false, true);
    }
    s.note(true, true, true);
    for _ in 0..60 {
        s.note(false, false, true);
    }
    s.note(false, true, true);
    s.note(false, true, false);
    assert_eq!(s.canary_total, 61);
    assert_eq!(s.canary_tn, 60);
    assert_eq!(s.canary_fp, 1);
    assert_eq!(s.control_total, 62);
    assert_eq!(s.control_tn, 60);
    assert_eq!(s.control_fp, 1);
    assert!(s.canary_fp + s.canary_tn <= s.canary_total);
    assert!(s.control_fp + s.control_tn <= s.control_total);
}

#[test]
fn deployer_counts_in_routed_bucket() {
    let mut d = CanaryDeployer::new("cur");
    d.note("agent-1", true, true);
    assert_eq!(d.stats().control_total, 1);
    assert_eq!(d.stats().control_fp, 1);
    d.set_canary("can", 100);
    d.note("agent-1", false, true);
    assert_eq!(d.stats().canary_total, 1);
    assert_eq!(d.stats().canary_tn, 1);
}

#[test]
fn fast_boot_backend_identity() {
    let b = FastBootBackend::new(384);
    assert_eq!(b.dim(), 384);
    assert_eq!(b.name(), "fast-boot");
}

#[test]
fn namespace_includes_model_id_and_dim() {
    let a = VectorMemory::new("/tmp/v", 384, "minilm-v2");
    let b = VectorMemory::new("/tmp/v", 768, "minilm-v2");
    let c = VectorMemory::new("/tmp/v", 384, "other-model");
    assert_ne!(a.table_namespace("agent"), b.table_namespace("agent"));
    assert_ne!(a.table_namespace("agent"), c.table_namespace("agent"));
    assert!(a.table_namespace("agent").contains("minilm_v2_d384"));
}

#[test]
fn namespace_exact_layout() {
    let m = VectorMemory::new("/data", -5, "a.b/c");
    assert_eq!(m.table_namespace("ag"), "/data/a_b_c_d-5/ag");
}
