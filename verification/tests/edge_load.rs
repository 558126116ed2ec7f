use flowy_router::edge_load::EdgeInferenceTracker;

#[test]
fn busy_while_guard_held() {
    let t = EdgeInferenceTracker::new();
    assert!(!t.is_busy());
    let g = t.begin();
    assert!(t.is_busy());
    assert_eq!(t.in_flight(), 1);
    drop(g);
    assert!(!t.is_busy());
}

#[test]
fn nested_guards_count_each_call() {
    let t = EdgeInferenceTracker::new();
    let a = t.begin();
    let b = t.begin();
    assert_eq!(t.in_flight(), 2);
    drop(a);
    assert_eq!(t.in_flight(), 1);
    drop(b);
    assert_eq!(t.in_flight(), 0);
}
