use obsidian_ui::animate::{AnimatedTransition, PropertyKind, TransitionStore};

#[test]
fn lerp_runs_from_start_to_target() {
    let mut a = AnimatedTransition::begin(vec![0], vec![1_000_000], 1000);
    assert_eq!(a.current_value(), vec![0]);
    a.advance(250);
    assert_eq!(a.current_value(), vec![250_000]);
    a.advance(250);
    assert_eq!(a.current_value(), vec![500_000]);
    a.advance(500);
    assert_eq!(a.current_value(), vec![1_000_000]);
}

#[test]
fn lerp_rounds_toward_start() {
    let mut a = AnimatedTransition::begin(vec![700_000], vec![0], 300);
    a.advance(100);
    // 700_000 - 700_000 * 100 / 300, exactly.
    assert_eq!(a.current_value(), vec![466_667]);
    a.advance(100);
    assert_eq!(a.current_value(), vec![233_334]);
}

#[test]
fn terminal_value_is_exact() {
    // Terminal exactness: at or past the duration the applied value is the
    // target, bit for bit.
    let mut a = AnimatedTransition::begin(vec![123, 456, 789], vec![7, 0, 999_999_999], 77);
    a.advance(76);
    assert_ne!(a.current_value(), vec![7, 0, 999_999_999]);
    a.advance(1);
    assert_eq!(a.current_value(), vec![7, 0, 999_999_999]);
}

#[test]
fn zero_duration_is_target_immediately() {
    let a = AnimatedTransition::begin(vec![5], vec![99], 0);
    assert_eq!(a.current_value(), vec![99]);
}

#[test]
fn restart_captures_current_value() {
    // Reversal continuity: restarting mid-flight starts the new
    // interpolation exactly where the old one stood.
    let mut a = AnimatedTransition::begin(vec![0], vec![1_000_000], 1000);
    a.advance(500);
    let halfway = a.current_value();
    assert_eq!(halfway, vec![500_000]);
    a.restart(vec![0], 1000);
    assert_eq!(a.start_value, vec![500_000]);
    assert_eq!(a.elapsed, 0);
    assert_eq!(a.current_value(), halfway);
}

#[test]
fn double_restart_stays_in_hull() {
    // Toward 1_000_000; at 100 ms retargeted to 600_000; at 150 ms
    // retargeted to 0.  Every sampled value stays within the convex hull
    // of the first captured value, 600_000 and 0.
    let mut a = AnimatedTransition::begin(vec![0], vec![1_000_000], 1000);
    a.advance(100);
    let captured = a.current_value()[0];
    assert_eq!(captured, 100_000);
    a.restart(vec![600_000], 1000);
    a.advance(50);
    a.restart(vec![0], 1000);
    let lo = 0u32;
    let hi = 600_000u32.max(captured);
    for _ in 0..25 {
        a.advance(50);
        let v = a.current_value()[0];
        assert!(v >= lo && v <= hi);
    }
    assert_eq!(a.current_value(), vec![0]);
}

#[test]
fn store_starts_and_completes() {
    let mut store = TransitionStore::new();
    assert_eq!(store.active_count(), 0);
    let current = vec![0, 0, 0, 0];
    store.start(7, PropertyKind::BackgroundColor, &current, vec![100, 200, 300, 400], 200);
    assert_eq!(store.active_count(), 1);
    assert!(store.is_animating(7, PropertyKind::BackgroundColor));
    assert!(!store.is_animating(7, PropertyKind::Scale));

    let writes = store.tick(100);
    assert_eq!(writes.len(), 1);
    assert_eq!(writes[0].entity, 7);
    assert_eq!(writes[0].kind, PropertyKind::BackgroundColor);
    assert!(!writes[0].finished);
    assert_eq!(writes[0].value, vec![50, 100, 150, 200]);

    let writes = store.tick(100);
    assert_eq!(writes.len(), 1);
    assert!(writes[0].finished);
    assert_eq!(writes[0].value, vec![100, 200, 300, 400]);
    assert_eq!(store.active_count(), 0);
}

#[test]
fn start_twice_same_target_changes_nothing() {
    // Idempotence: a second start with the same target is a no-op; the
    // final value stays the target.
    let mut store = TransitionStore::new();
    let current = vec![0, 0, 0];
    store.start(3, PropertyKind::Scale, &current, vec![10, 20, 30], 300);
    let w = store.tick(100);
    assert_eq!(w[0].value, vec![3, 6, 10]);
    // Same target again: no restart, timing keeps running.
    store.start(3, PropertyKind::Scale, &current, vec![10, 20, 30], 300);
    let w = store.tick(100);
    assert_eq!(w[0].value, vec![6, 13, 20]);
    let w = store.tick(100);
    assert!(w[0].finished);
    assert_eq!(w[0].value, vec![10, 20, 30]);
}

#[test]
fn start_new_target_restarts_from_current() {
    let mut store = TransitionStore::new();
    let current = vec![0, 0, 0];
    store.start(3, PropertyKind::Scale, &current, vec![1000, 1000, 1000], 1000);
    store.tick(500);
    // Retarget: the new interpolation starts from the value at 500 ms.
    store.start(3, PropertyKind::Scale, &current, vec![0, 0, 0], 1000);
    let w = store.tick(0);
    assert_eq!(w[0].value, vec![500, 500, 500]);
}

#[test]
fn drop_entity_discards_its_transitions() {
    let mut store = TransitionStore::new();
    let c4 = vec![0, 0, 0, 0];
    let c3 = vec![0, 0, 0];
    store.start(1, PropertyKind::BackgroundColor, &c4, vec![9, 9, 9, 9], 100);
    store.start(1, PropertyKind::Scale, &c3, vec![5, 5, 5], 100);
    store.start(2, PropertyKind::Scale, &c3, vec![8, 8, 8], 100);
    assert_eq!(store.active_count(), 3);
    store.drop_entity(1);
    assert_eq!(store.active_count(), 1);
    assert!(!store.is_animating(1, PropertyKind::Scale));
    assert!(store.is_animating(2, PropertyKind::Scale));
}

#[test]
fn tick_keeps_store_order() {
    let mut store = TransitionStore::new();
    let c3 = vec![0, 0, 0];
    store.start(5, PropertyKind::Scale, &c3, vec![100, 100, 100], 1000);
    store.start(6, PropertyKind::Scale, &c3, vec![200, 200, 200], 1000);
    let w = store.tick(10);
    assert_eq!(w.len(), 2);
    assert_eq!(w[0].entity, 5);
    assert_eq!(w[1].entity, 6);
}
