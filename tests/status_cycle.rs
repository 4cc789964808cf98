use robot_agent::status::robot_status;

#[test]
fn moving_window_start() {
    let s = robot_status(0);
    assert_eq!(s.state, "moving");
    assert_eq!(s.current_task.as_deref(), Some("transport_item_A45"));
    assert_eq!(s.task_progress, 0);
}

#[test]
fn moving_progress_truncates() {
    assert_eq!(robot_status(1).task_progress, 1);
    assert_eq!(robot_status(2).task_progress, 3);
    assert_eq!(robot_status(30).task_progress, 50);
    assert_eq!(robot_status(59).task_progress, 98);
}

#[test]
fn moving_progress_ramp_non_decreasing() {
    let mut last: u8 = 0;
    for seq in 0..60u64 {
        let s = robot_status(seq);
        assert_eq!(s.state, "moving");
        assert!(s.task_progress >= last);
        last = s.task_progress;
    }
    assert_eq!(robot_status(0).task_progress, 0);
}

#[test]
fn idle_window() {
    for seq in 60..80u64 {
        let s = robot_status(seq);
        assert_eq!(s.state, "idle");
        assert_eq!(s.current_task, None);
        assert_eq!(s.task_progress, 0);
    }
}

#[test]
fn charging_window() {
    let s = robot_status(80);
    assert_eq!(s.state, "charging");
    assert_eq!(s.current_task, None);
    assert_eq!(s.task_progress, 0);
    assert_eq!(robot_status(81).task_progress, 5);
    assert_eq!(robot_status(99).task_progress, 95);
}

#[test]
fn cycle_repeats_every_hundred() {
    for seq in 0..1000u64 {
        let a = robot_status(seq);
        let b = robot_status(seq + 100);
        assert_eq!(a.state, b.state);
        assert!(["moving", "idle", "charging"].contains(&a.state.as_str()));
        assert!(a.task_progress <= 100);
    }
}

#[test]
fn moving_progress_uses_sixty_tick_window() {
    // 120 is in the moving window of its cycle and starts a new sixty-tick ramp
    let s = robot_status(120);
    assert_eq!(s.state, "moving");
    assert_eq!(s.task_progress, 0);
    let s = robot_status(150);
    assert_eq!(s.state, "moving");
    assert_eq!(s.task_progress, 50);
}

#[test]
fn status_is_reproducible() {
    let a = robot_status(4242);
    let b = robot_status(4242);
    assert_eq!(a.state, b.state);
    assert_eq!(a.current_task, b.current_task);
    assert_eq!(a.task_progress, b.task_progress);
}

#[test]
fn largest_sequence_number() {
    let s = robot_status(u64::MAX);
    // u64::MAX mod 100 = 15, mod 60 = 15
    assert_eq!(s.state, "moving");
    assert_eq!(s.task_progress, 25);
}
