use firesim::{EndPolicy, SimulationFrameMsg, SimulationStats, Viewer};

fn frame(rows: &[&[&str]]) -> Vec<Vec<String>> {
    rows.iter().map(|r| r.iter().map(|c| c.to_string()).collect()).collect()
}

#[test]
fn second_run_ignores_first_runs_messages() {
    let mut v = Viewer::new(400, EndPolicy::Hold);
    let first = v.start_run().unwrap();
    v.apply(SimulationFrameMsg::Metadata { run: first, width: 1, height: 1 });
    assert!(v.apply(SimulationFrameMsg::Frame { run: first, grid: frame(&[&["T"]]) }));
    let second = v.start_run().unwrap();
    assert_ne!(first, second);
    assert!(v.sim.is_none());
    assert_eq!(v.stats.frame_counter(), 0);
    // the first run's tailer is still sending
    v.apply(SimulationFrameMsg::Frame { run: first, grid: frame(&[&["T"]]) });
    v.apply(SimulationFrameMsg::Metadata { run: second, width: 2, height: 1 });
    v.apply(SimulationFrameMsg::Metadata { run: first, width: 1, height: 1 });
    v.apply(SimulationFrameMsg::Frame { run: first, grid: frame(&[&["T"]]) });
    assert!(v.apply(SimulationFrameMsg::Frame { run: second, grid: frame(&[&["G", "G"]]) }));
    v.apply(SimulationFrameMsg::Frame { run: first, grid: frame(&[&["T"]]) });
    v.apply(SimulationFrameMsg::SimulationEnded { run: first });
    let sim = v.sim.as_ref().unwrap();
    assert_eq!(sim.width, 2);
    assert_eq!(sim.frames, vec![frame(&[&["G", "G"]])]);
    assert_eq!(v.stats.grasses_over_time, vec![2]);
    assert_eq!(v.stats.trees_over_time, vec![0]);
}

#[test]
fn start_refused_while_waiting_for_first_frame() {
    let mut v = Viewer::new(400, EndPolicy::Hold);
    let run = v.start_run().unwrap();
    assert!(v.loading);
    assert_eq!(v.start_run(), None);
    assert_eq!(v.run, run);
    v.abandon_start();
    assert!(!v.loading);
    assert_eq!(v.start_run(), Some(run + 1));
}

#[test]
fn frames_before_header_are_dropped() {
    let mut v = Viewer::new(400, EndPolicy::Hold);
    let run = v.start_run().unwrap();
    assert!(!v.apply(SimulationFrameMsg::Frame { run, grid: frame(&[&["T"]]) }));
    assert!(v.sim.is_none());
    assert!(v.loading);
    assert_eq!(v.stats, SimulationStats::new_empty());
}

#[test]
fn frames_of_wrong_shape_are_dropped() {
    let mut v = Viewer::new(400, EndPolicy::Hold);
    let run = v.start_run().unwrap();
    v.apply(SimulationFrameMsg::Metadata { run, width: 2, height: 2 });
    assert!(!v.apply(SimulationFrameMsg::Frame { run, grid: frame(&[&["T", "T"]]) }));
    assert!(!v.apply(SimulationFrameMsg::Frame { run, grid: frame(&[&["T", "T"], &["T"]]) }));
    assert!(!v.apply(SimulationFrameMsg::Frame { run, grid: vec![] }));
    assert_eq!(v.frame_count(), 0);
    assert_eq!(v.stats.frame_counter(), 0);
    assert!(v.loading);
    assert!(v.apply(SimulationFrameMsg::Frame { run, grid: frame(&[&["T", "G"], &["A", "+"]]) }));
    assert_eq!(v.frame_count(), 1);
    assert_eq!(v.stats.frame_counter(), 1);
}

#[test]
fn stats_stay_in_step_with_frames() {
    let mut v = Viewer::new(400, EndPolicy::Hold);
    let run = v.start_run().unwrap();
    v.apply(SimulationFrameMsg::Metadata { run, width: 3, height: 1 });
    let codes = [["T", "G", "W"], ["*", "*", "T"], ["A", "-", "TH"], ["x", "y", "s"]];
    for (i, row) in codes.iter().enumerate() {
        v.apply(SimulationFrameMsg::Frame { run, grid: frame(&[&row[..]]) });
        let n = v.frame_count();
        assert_eq!(n, i + 1);
        for series in [
            &v.stats.trees_over_time,
            &v.stats.burning_trees_over_time,
            &v.stats.tree_ashes_over_time,
            &v.stats.grasses_over_time,
            &v.stats.burning_grasses_over_time,
            &v.stats.grass_ashes_over_time,
            &v.stats.saplings_over_time,
            &v.stats.burning_saplings_over_time,
            &v.stats.young_trees_over_time,
            &v.stats.burning_young_trees_over_time,
            &v.stats.thunder_over_time,
            &v.stats.others_over_time,
        ] {
            assert_eq!(series.len(), n);
        }
        let trees = row.iter().filter(|c| **c == "T").count() as u64;
        assert_eq!(v.stats.trees_over_time[i], trees);
    }
    assert_eq!(v.stats.others_over_time, vec![1, 0, 0, 1]);
    assert_eq!(v.stats.burning_trees_over_time, vec![0, 2, 0, 0]);
}

#[test]
fn first_frame_makes_run_ready_and_jumps_to_start() {
    let mut v = Viewer::new(400, EndPolicy::Hold);
    let run = v.start_run().unwrap();
    assert!(v.playback.paused);
    v.toggle_pause();
    assert!(!v.apply(SimulationFrameMsg::Metadata { run, width: 1, height: 1 }));
    assert!(v.playback.paused);
    assert_eq!(v.playback.jump_to_frame, Some(0));
    v.toggle_pause();
    assert!(v.apply(SimulationFrameMsg::Frame { run, grid: frame(&[&["T"]]) }));
    assert!(!v.loading);
    assert!(v.playback.paused);
    assert!(!v.apply(SimulationFrameMsg::Frame { run, grid: frame(&[&["G"]]) }));
}

#[test]
fn new_header_of_same_run_resets_store() {
    let mut v = Viewer::new(400, EndPolicy::Hold);
    let run = v.start_run().unwrap();
    v.apply(SimulationFrameMsg::Metadata { run, width: 1, height: 1 });
    v.apply(SimulationFrameMsg::Frame { run, grid: frame(&[&["T"]]) });
    v.apply(SimulationFrameMsg::Metadata { run, width: 2, height: 1 });
    assert_eq!(v.frame_count(), 0);
    assert_eq!(v.stats.frame_counter(), 0);
    assert_eq!(v.sim.as_ref().unwrap().width, 2);
}
