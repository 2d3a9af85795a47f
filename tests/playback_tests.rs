use firesim::{
    plot_frame, EndPolicy, FrameTimer, SimControl, SimulationFrameMsg, Viewer,
};

fn frame(code: &str) -> Vec<Vec<String>> {
    vec![vec![code.to_string(), code.to_string()]]
}

/// A viewer holding `n` frames of run 1, its first-frame jump already done.
fn viewer_with_frames(n: usize, policy: EndPolicy) -> Viewer {
    let mut v = Viewer::new(100, policy);
    let run = v.start_run().unwrap();
    v.apply(SimulationFrameMsg::Metadata { run, width: 2, height: 1 });
    for _ in 0..n {
        v.apply(SimulationFrameMsg::Frame { run, grid: frame("T") });
    }
    assert_eq!(v.tick(0), Some(0));
    v
}

#[test]
fn jump_far_past_the_end_lands_on_last_frame() {
    let mut v = viewer_with_frames(5, EndPolicy::Hold);
    v.jump_to(9999);
    assert_eq!(v.tick(0), Some(4));
    assert_eq!(v.sim.as_ref().unwrap().current, 4);
    assert_eq!(v.playback.jump_to_frame, None);
}

#[test]
fn jump_wins_over_pending_steps_and_timer() {
    let mut v = viewer_with_frames(5, EndPolicy::Hold);
    v.toggle_pause();
    v.jump_to(2);
    v.request_step_back();
    v.playback.step_forward = true;
    // the timer fires in this tick too
    assert_eq!(v.tick(1000), Some(2));
    assert_eq!(v.sim.as_ref().unwrap().current, 2);
    assert!(v.playback.step_back);
    assert!(v.playback.step_forward);
    // the step requests are served by later ticks, back first
    assert_eq!(v.tick(0), Some(1));
    assert!(!v.playback.step_back);
    assert_eq!(v.tick(0), Some(2));
    assert!(!v.playback.step_forward);
}

#[test]
fn paused_without_requests_does_nothing() {
    let mut v = viewer_with_frames(3, EndPolicy::Hold);
    assert!(v.playback.paused);
    assert_eq!(v.tick(10_000), None);
    assert_eq!(v.timer.elapsed_ms, 0);
    assert_eq!(v.sim.as_ref().unwrap().current, 0);
}

#[test]
fn playing_advances_when_the_timer_fires() {
    let mut v = viewer_with_frames(3, EndPolicy::Hold);
    v.toggle_pause();
    assert_eq!(v.tick(60), None);
    assert_eq!(v.tick(60), Some(1));
    assert_eq!(v.timer.elapsed_ms, 20);
    assert_eq!(v.tick(100), Some(2));
    // at the end, Hold keeps the cursor and keeps playing
    assert_eq!(v.tick(100), Some(2));
    assert!(!v.playback.paused);
    // a new frame arrives: playback follows it
    v.apply(SimulationFrameMsg::Frame { run: v.run, grid: frame("G") });
    assert_eq!(v.tick(100), Some(3));
}

#[test]
fn end_policies() {
    let mut v = viewer_with_frames(2, EndPolicy::ClampAndPause);
    v.toggle_pause();
    assert_eq!(v.tick(100), Some(1));
    assert_eq!(v.tick(100), Some(1));
    assert!(v.playback.paused);

    let mut w = viewer_with_frames(2, EndPolicy::Wrap);
    w.toggle_pause();
    assert_eq!(w.tick(100), Some(1));
    assert_eq!(w.tick(100), Some(0));
    assert!(!w.playback.paused);
}

#[test]
fn steps_are_clamped() {
    let mut v = viewer_with_frames(2, EndPolicy::Hold);
    v.request_step_back();
    assert_eq!(v.tick(0), Some(0));
    assert_eq!(v.request_step_forward(), None);
    assert_eq!(v.tick(0), Some(1));
    // on the last frame, stepping forward also asks the simulation for a step
    let update = v.request_step_forward().unwrap();
    assert_eq!(update, SimControl { step: Some(true), ..SimControl::empty() });
    assert_eq!(v.tick(0), Some(1));
}

#[test]
fn no_frames_no_movement() {
    let mut v = Viewer::new(100, EndPolicy::Hold);
    v.jump_to(3);
    assert_eq!(v.tick(1000), None);
    assert_eq!(v.request_step_forward(), None);
    assert!(v.current_frame().is_none());
    assert_eq!(v.frame_count(), 0);
}

#[test]
fn speed_change_keeps_elapsed_time() {
    let mut v = viewer_with_frames(4, EndPolicy::Hold);
    v.toggle_pause();
    assert_eq!(v.tick(70), None);
    v.set_speed(50);
    // 70 ms already elapsed and the new period is 50: fires at once
    assert_eq!(v.tick(0), Some(1));
    assert_eq!(v.timer.period_ms, 50);
    assert_eq!(v.timer.elapsed_ms, 20);
}

#[test]
fn timer_arithmetic() {
    let mut t = FrameTimer::new(400);
    assert!(!t.tick(399));
    assert!(t.tick(1));
    assert_eq!(t.elapsed_ms, 0);
    assert!(t.tick(1000));
    assert_eq!(t.elapsed_ms, 200);
    t.set_period(150);
    assert_eq!(t.elapsed_ms, 200);
    assert!(t.tick(u64::MAX));
    let mut z = FrameTimer::new(0);
    assert!(z.tick(0));
    assert_eq!(z.elapsed_ms, 0);
}

#[test]
fn start_and_end_buttons() {
    let mut v = viewer_with_frames(6, EndPolicy::Hold);
    v.go_to_end();
    assert_eq!(v.playback.jump_to_frame, Some(5));
    assert_eq!(v.tick(0), Some(5));
    v.toggle_pause();
    v.go_to_start();
    assert!(v.playback.paused);
    assert_eq!(v.tick(0), Some(0));
    assert_eq!(v.current_frame(), Some(&frame("T")));
}

#[test]
fn pause_toggle_reports_update() {
    let mut v = Viewer::new(400, EndPolicy::Hold);
    assert!(!v.playback.paused);
    let u = v.toggle_pause();
    assert!(v.playback.paused);
    assert_eq!(u, SimControl { paused: Some(true), ..SimControl::empty() });
    let u = v.toggle_pause();
    assert_eq!(u.paused, Some(false));
}

#[test]
fn chart_position_to_frame() {
    assert_eq!(plot_frame(-3, 10), 0);
    assert_eq!(plot_frame(0, 10), 0);
    assert_eq!(plot_frame(7, 10), 7);
    assert_eq!(plot_frame(10, 10), 9);
    assert_eq!(plot_frame(12345, 10), 9);
    assert_eq!(plot_frame(5, 0), 0);
    let mut v = viewer_with_frames(3, EndPolicy::Hold);
    v.jump_from_plot(50);
    assert_eq!(v.playback.jump_to_frame, Some(2));
}
