use shader_reload::watch::{FileReloadSetPath, WatcherState};

#[test]
fn retarget_resets_baseline() {
    let mut w = WatcherState::new();
    w.retarget(FileReloadSetPath(String::from("a.frag")));
    // First poll after a retarget never emits, however large the time.
    assert!(!w.observe(1_000_000));
    // A baseline now exists; switching targets must discard it.
    w.retarget(FileReloadSetPath(String::from("b.frag")));
    assert!(!w.observe(3));
    // The new target's time is far below the old target's: still no signal
    // afterwards unless the new target's own time increases.
    assert!(!w.observe(3));
    assert!(w.observe(4));
}

#[test]
fn monotonic_reload_detection() {
    let mut w = WatcherState::new();
    w.retarget(FileReloadSetPath(String::from("a.frag")));
    assert!(!w.observe(100));
    assert!(!w.observe(100));
    assert!(w.observe(101));
    assert!(!w.observe(101));
    assert!(!w.observe(50));
    assert!(w.observe(51));
}

#[test]
fn observed_timestamp_scenario() {
    // Watched file observed at T0: baseline set, no signal.
    let mut w = WatcherState::new();
    w.retarget(FileReloadSetPath(String::from("a.frag")));
    let t0 = 10;
    assert!(!w.observe(t0));
    // Poll at T1 with the same modification time: no signal.
    assert!(!w.observe(t0));
    // File modified; poll sees a strictly greater time: exactly one signal.
    assert!(w.observe(20));
    assert!(!w.observe(20));
}

#[test]
fn last_retarget_wins() {
    let mut w = WatcherState::new();
    w.retarget(FileReloadSetPath(String::from("x.frag")));
    assert!(!w.observe(7));
    let cmds = vec![
        FileReloadSetPath(String::from("a.frag")),
        FileReloadSetPath(String::from("b.frag")),
        FileReloadSetPath(String::from("c.frag")),
    ];
    w.drain_retargets(cmds);
    assert_eq!(w.current_target().clone(), Some(String::from("c.frag")));
    // The baseline was reset along the way: the next poll cannot fire.
    assert!(!w.observe(1_000));
}

#[test]
fn empty_drain_changes_nothing() {
    let mut w = WatcherState::new();
    w.retarget(FileReloadSetPath(String::from("a.frag")));
    assert!(!w.observe(5));
    w.drain_retargets(Vec::new());
    assert_eq!(w.current_target().clone(), Some(String::from("a.frag")));
    // The baseline survived the empty drain: a greater time still fires.
    assert!(w.observe(6));
}

#[test]
fn poll_failure_stops_watching() {
    let mut w = WatcherState::new();
    w.retarget(FileReloadSetPath(String::from("a.frag")));
    assert!(!w.observe(5));
    w.poll_failed();
    assert!(w.current_target().is_none());
    // A later retarget starts a fresh watch with no stale baseline.
    w.retarget(FileReloadSetPath(String::from("a.frag")));
    assert!(!w.observe(9));
}

#[test]
fn new_watcher_watches_nothing() {
    let w = WatcherState::new();
    assert!(w.current_target().is_none());
}
