//! Behavioural tests of the engine: construction, injection, ticking,
//! and the ranking query, on exact fixed-point values.

use context_engine::ContextEngine;
use context_engine::SCALE;

fn lookup(snapshot: &Vec<(String, i64)>, id: &str) -> i64 {
    for (k, v) in snapshot {
        if k == id {
            return *v;
        }
    }
    panic!("unknown node id {}", id);
}

fn inject_one(e: &mut ContextEngine, id: &str, x: i64) {
    e.inject(Some(vec![(id.to_string(), x)]));
}

#[test]
fn zero_initial_state() {
    let e = ContextEngine::new();
    let snap = e.get_activations();
    assert_eq!(snap.len(), 43);
    for (_, v) in &snap {
        assert_eq!(*v, 0);
    }
}

#[test]
fn idle_fixed_point() {
    let mut e = ContextEngine::new();
    for _ in 0..5 {
        e.step();
    }
    for (_, v) in &e.get_activations() {
        assert_eq!(*v, 0);
    }
}

#[test]
fn injection_blend_exact() {
    let mut e = ContextEngine::new();
    inject_one(&mut e, "IN_VEL", 800_000);
    let snap = e.get_activations();
    // 0 * 0.3 + 0.8 * 0.7
    assert_eq!(lookup(&snap, "IN_VEL"), 560_000);
    for (k, v) in &snap {
        if k != "IN_VEL" {
            assert_eq!(*v, 0);
        }
    }
    // 0.56 * 0.3 + 0.5 * 0.7
    inject_one(&mut e, "IN_VEL", 500_000);
    assert_eq!(lookup(&e.get_activations(), "IN_VEL"), 518_000);
}

#[test]
fn sensor_decay_chain() {
    let mut e = ContextEngine::new();
    inject_one(&mut e, "IN_VEL", 1_000_000);
    assert_eq!(lookup(&e.get_activations(), "IN_VEL"), 700_000);
    e.step();
    assert_eq!(lookup(&e.get_activations(), "IN_VEL"), 525_000);
    e.step();
    assert_eq!(lookup(&e.get_activations(), "IN_VEL"), 393_750);
    e.step();
    assert_eq!(lookup(&e.get_activations(), "IN_VEL"), 295_312);
}

#[test]
fn unknown_id_ignored() {
    let mut e = ContextEngine::new();
    inject_one(&mut e, "IN_VEL", 400_000);
    let before = e.get_activations();
    inject_one(&mut e, "NO_SUCH_NODE", 900_000);
    assert_eq!(e.get_activations(), before);
}

#[test]
fn malformed_injection_no_effect() {
    let mut e = ContextEngine::new();
    inject_one(&mut e, "IN_SMILE", 650_000);
    e.step();
    let before = e.get_activations();
    e.inject(None);
    assert_eq!(e.get_activations(), before);
}

#[test]
fn empty_injection_no_effect() {
    let mut e = ContextEngine::new();
    inject_one(&mut e, "IN_SMILE", 650_000);
    let before = e.get_activations();
    e.inject(Some(vec![]));
    assert_eq!(e.get_activations(), before);
}

#[test]
fn weighted_propagation_exact() {
    let mut e = ContextEngine::new();
    e.inject(Some(vec![
        ("IN_FIST".to_string(), 1_000_000),
        ("IN_PINCH".to_string(), 1_000_000),
    ]));
    let snap = e.get_activations();
    assert_eq!(lookup(&snap, "IN_FIST"), 700_000);
    assert_eq!(lookup(&snap, "IN_PINCH"), 700_000);
    e.step();
    // raw = 0 + (0.7 * 0.9 + 0.7 * 0.8) * 0.6 = 0.714 > 0.1, squashed by
    // the piecewise-linear logistic curve: within 3e-5 of the logistic's
    // 0.783130 at that point.
    let snap = e.get_activations();
    assert_eq!(lookup(&snap, "FT_HOLDING"), 783_109);
    // The sensors themselves only decayed.
    assert_eq!(lookup(&snap, "IN_FIST"), 525_000);
    assert_eq!(lookup(&snap, "IN_PINCH"), 525_000);
}

#[test]
fn below_threshold_kept_raw() {
    let mut e = ContextEngine::new();
    // 0.1 * 0.7 = 0.07 sensor value; feature raw = 0.07 * 0.9 * 0.6 =
    // 0.0378 <= 0.1, so it is kept as is, not squashed.
    inject_one(&mut e, "IN_VEL", 100_000);
    e.step();
    let snap = e.get_activations();
    assert_eq!(lookup(&snap, "FT_ACTIVE"), 37_800);
}

#[test]
fn feature_saturates_at_curve_top() {
    let mut e = ContextEngine::new();
    // A 6.0 reading blends to 4.2; raw = 4.2 * 0.6 = 2.52 >= 2.248, the
    // saturation knee of the curve, where the logistic is within 3e-5
    // of 1.
    inject_one(&mut e, "IN_THUMB_UP", 6_000_000);
    e.step();
    let snap = e.get_activations();
    assert_eq!(lookup(&snap, "FT_APPROVAL"), 999_972);
    assert!(lookup(&snap, "FT_APPROVAL") <= SCALE);
}

#[test]
fn sensor_not_upper_clamped() {
    let mut e = ContextEngine::new();
    inject_one(&mut e, "IN_VEL", 3_000_000);
    assert_eq!(lookup(&e.get_activations(), "IN_VEL"), 2_100_000);
    e.step();
    // Still above 1.0: sensors are floored at zero but never capped.
    assert_eq!(lookup(&e.get_activations(), "IN_VEL"), 1_575_000);
}

#[test]
fn negative_injection_floored_by_step() {
    let mut e = ContextEngine::new();
    inject_one(&mut e, "IN_VEL", -500_000);
    assert_eq!(lookup(&e.get_activations(), "IN_VEL"), -350_000);
    e.step();
    assert_eq!(lookup(&e.get_activations(), "IN_VEL"), 0);
}

#[test]
fn inhibition_lowers_competing_state() {
    // Drive NO alone.
    let mut alone = ContextEngine::new();
    inject_one(&mut alone, "IN_THUMB_DOWN", 1_000_000);
    for _ in 0..3 {
        alone.step();
    }
    let no_alone = lookup(&alone.get_activations(), "ST_NO");

    // Drive NO while YES is also high: the -2.0 edge from ST_YES must
    // pull ST_NO strictly down.
    let mut both = ContextEngine::new();
    both.inject(Some(vec![
        ("IN_THUMB_DOWN".to_string(), 1_000_000),
        ("IN_THUMB_UP".to_string(), 1_000_000),
    ]));
    for _ in 0..3 {
        both.step();
    }
    let no_both = lookup(&both.get_activations(), "ST_NO");

    assert!(no_alone > 0);
    assert!(no_both < no_alone);
}

#[test]
fn ranked_states_ordered_and_states_only() {
    let mut e = ContextEngine::new();
    e.inject(Some(vec![
        ("IN_THUMB_DOWN".to_string(), 1_000_000),
        ("IN_FIST".to_string(), 900_000),
        ("IN_VEL".to_string(), 500_000),
    ]));
    e.step();
    e.step();
    let rows = e.get_ranked_states();
    assert_eq!(rows.len(), 15);
    for w in rows.windows(2) {
        assert!(w[0].value >= w[1].value);
    }
    let snap = e.get_activations();
    for row in &rows {
        assert!(row.id.starts_with("ST_"));
        assert_eq!(row.value, lookup(&snap, &row.id));
    }
    let mut ids: Vec<&str> = rows.iter().map(|r| r.id.as_str()).collect();
    ids.sort();
    let mut expected = vec![
        "ST_IDLE", "ST_GRASP", "ST_DRAG", "ST_WASH", "ST_PEEKABOO", "ST_ROCK", "ST_SCISSORS",
        "ST_PAPER", "ST_YES", "ST_NO", "ST_MIZARU", "ST_KIKAZARU", "ST_IWAZARU", "ST_SMILE",
        "ST_SURPRISE",
    ];
    expected.sort();
    assert_eq!(ids, expected);
}

#[test]
fn ranked_states_carry_labels() {
    let e = ContextEngine::new();
    let rows = e.get_ranked_states();
    let idle = rows.iter().find(|r| r.id == "ST_IDLE").unwrap();
    assert_eq!(idle.label, "IDLE");
    let grasp = rows.iter().find(|r| r.id == "ST_GRASP").unwrap();
    assert_eq!(grasp.label, "ACTION: GRASP");
    let mizaru = rows.iter().find(|r| r.id == "ST_MIZARU").unwrap();
    assert_eq!(mizaru.label, "\u{1F648} MIZARU");
}

#[test]
fn injection_not_restricted_to_sensors() {
    let mut e = ContextEngine::new();
    inject_one(&mut e, "ST_IDLE", 1_000_000);
    assert_eq!(lookup(&e.get_activations(), "ST_IDLE"), 700_000);
}
