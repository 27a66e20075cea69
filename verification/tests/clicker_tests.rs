use akiclick::clicker::{
    start_outcome, stop_outcome, ClickMode, ClickSession, ClickStep, MouseButton, SleepPlan,
    WorkerAction, DOUBLE_CLICK_GAP_MS, SLICE_MS,
};

#[test]
fn click_mode_from_number() {
    assert_eq!(ClickMode::from(0), ClickMode::Left);
    assert_eq!(ClickMode::from(1), ClickMode::Right);
    assert_eq!(ClickMode::from(2), ClickMode::Double);
    assert_eq!(ClickMode::from(3), ClickMode::Left);
    assert_eq!(ClickMode::from(u32::MAX), ClickMode::Left);
}

#[test]
fn click_steps() {
    assert_eq!(ClickMode::Left.steps(), vec![ClickStep::Press(MouseButton::Left)]);
    assert_eq!(ClickMode::Right.steps(), vec![ClickStep::Press(MouseButton::Right)]);
    assert_eq!(
        ClickMode::Double.steps(),
        vec![
            ClickStep::Press(MouseButton::Left),
            ClickStep::Pause(10),
            ClickStep::Press(MouseButton::Left),
        ]
    );
    assert_eq!(DOUBLE_CLICK_GAP_MS, 10);
}

#[test]
fn counted_session_clicks_exactly_count() {
    let mut s = ClickSession::new(ClickMode::Right, 700, 3);
    let mut clicks = 0;
    loop {
        match s.next(true) {
            WorkerAction::Click(mode) => {
                assert_eq!(mode, ClickMode::Right);
                clicks += 1;
                assert!(clicks <= 3);
            }
            WorkerAction::Finish => break,
        }
    }
    assert_eq!(clicks, 3);
    assert_eq!(s.clicks_done(), 3);
    assert_eq!(s.next(true), WorkerAction::Finish);
}

#[test]
fn unlimited_session_runs_until_stopped() {
    let mut s = ClickSession::new(ClickMode::Left, 5, 0);
    for _ in 0..1000 {
        assert_eq!(s.next(true), WorkerAction::Click(ClickMode::Left));
    }
    assert_eq!(s.clicks_done(), 0);
    assert_eq!(s.next(false), WorkerAction::Finish);
}

#[test]
fn stopped_session_finishes_early() {
    let mut s = ClickSession::new(ClickMode::Double, 5, 10);
    assert_eq!(s.next(true), WorkerAction::Click(ClickMode::Double));
    assert_eq!(s.next(false), WorkerAction::Finish);
    assert_eq!(s.clicks_done(), 1);
}

#[test]
fn interval_is_at_least_one() {
    assert_eq!(ClickSession::new(ClickMode::Left, 0, 1).interval_ms(), 1);
    assert_eq!(ClickSession::new(ClickMode::Left, 1, 1).interval_ms(), 1);
    assert_eq!(ClickSession::new(ClickMode::Left, 60_000, 1).interval_ms(), 60_000);
}

#[test]
fn sleep_slices_cover_interval() {
    let mut p = SleepPlan::new(25);
    let mut slices = Vec::new();
    while let Some(step) = p.next_slice(true) {
        slices.push(step);
    }
    assert_eq!(slices, vec![10, 10, 5]);
    assert_eq!(SLICE_MS, 10);
}

#[test]
fn sleep_slices_long_interval() {
    let mut p = SleepPlan::new(60_000);
    let mut total = 0u64;
    let mut n = 0u64;
    while let Some(step) = p.next_slice(true) {
        assert!(step > 0 && step <= SLICE_MS);
        total += step;
        n += 1;
    }
    assert_eq!(total, 60_000);
    assert_eq!(n, 6_000);
}

#[test]
fn sleep_interrupted_by_stop() {
    let mut p = SleepPlan::new(100);
    assert_eq!(p.next_slice(true), Some(10));
    assert_eq!(p.next_slice(false), None);
    assert_eq!(p.next_slice(true), Some(10));
    let mut z = SleepPlan::new(0);
    assert_eq!(z.next_slice(true), None);
}

#[test]
fn engine_start_and_stop_outcomes() {
    assert_eq!(start_outcome(false), Ok(()));
    assert_eq!(start_outcome(true), Err("Already running".to_string()));
    assert_eq!(stop_outcome(true), Ok(()));
    assert_eq!(stop_outcome(false), Err("Not running".to_string()));
}
