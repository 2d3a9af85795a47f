use firesim::{
    parse_metadata, same_text, SimulationFrameMsg, StreamTailer, Viewer, EndPolicy, Category,
};

fn grid(rows: &[&[&str]]) -> Vec<Vec<String>> {
    rows.iter().map(|r| r.iter().map(|c| c.to_string()).collect()).collect()
}

fn frame_payloads(msgs: &[SimulationFrameMsg]) -> Vec<Vec<Vec<String>>> {
    msgs.iter()
        .filter_map(|m| match m {
            SimulationFrameMsg::Frame { grid, .. } => Some(grid.clone()),
            _ => None,
        })
        .collect()
}

const STREAM: &str = "{\"width\":3,\"height\":2}\n\
[[\"T\",\"T\",\"T\"],[\"G\",\"G\",\"G\"]]\n\
[[\"T\",\"*\",\"A\"],[\"G\",\"+\",\"-\"]]\n\
[[\"A\",\"A\",\"A\"],[\"-\",\"-\",\"-\"]]\n";

#[test]
fn three_identical_frames_give_three_counts() {
    let line = "[[\"T\",\"T\",\"T\"],[\"G\",\"G\",\"G\"]]\n";
    let text = format!("{{\"width\":3,\"height\":2}}\n{}{}{}", line, line, line);
    let mut viewer = Viewer::new(400, EndPolicy::Hold);
    let run = viewer.start_run().unwrap();
    let mut tailer = StreamTailer::new(run);
    let msgs = tailer.drain(text.as_bytes());
    assert_eq!(msgs.len(), 4);
    for m in msgs {
        viewer.apply(m);
    }
    let sim = viewer.sim.as_ref().unwrap();
    assert_eq!(sim.frames.len(), 3);
    let expected = grid(&[&["T", "T", "T"], &["G", "G", "G"]]);
    assert!(sim.frames.iter().all(|f| *f == expected));
    assert_eq!(viewer.stats.trees_over_time, vec![3, 3, 3]);
    assert_eq!(viewer.stats.grasses_over_time, vec![3, 3, 3]);
    assert_eq!(viewer.stats.burning_trees_over_time, vec![0, 0, 0]);
    assert_eq!(viewer.stats.frame_counter(), 3);
}

#[test]
fn header_then_frames_in_order() {
    let mut tailer = StreamTailer::new(7);
    let msgs = tailer.drain(STREAM.as_bytes());
    assert_eq!(msgs.len(), 4);
    assert_eq!(msgs[0], SimulationFrameMsg::Metadata { run: 7, width: 3, height: 2 });
    assert_eq!(
        msgs[2],
        SimulationFrameMsg::Frame { run: 7, grid: grid(&[&["T", "*", "A"], &["G", "+", "-"]]) }
    );
    assert!(tailer.has_metadata);
    assert_eq!(tailer.offset, STREAM.len() as u64);
    assert_eq!(tailer.ended(), SimulationFrameMsg::SimulationEnded { run: 7 });
}

#[test]
fn any_chunking_gives_the_same_frames() {
    let bytes = STREAM.as_bytes();
    let mut whole = StreamTailer::new(1);
    let expected = frame_payloads(&whole.drain(bytes));
    assert_eq!(expected.len(), 3);
    for cut1 in 0..=bytes.len() {
        for cut2 in [cut1, (cut1 + 17).min(bytes.len()), bytes.len()] {
            let mut t = StreamTailer::new(1);
            let mut got = Vec::new();
            // the file as it stood at three successive reads
            for end in [cut1, cut2, bytes.len()] {
                let start = t.offset as usize;
                let msgs = t.drain(&bytes[start..end]);
                got.extend(frame_payloads(&msgs));
            }
            assert_eq!(got, expected, "cuts at {} and {}", cut1, cut2);
            assert_eq!(t.offset, bytes.len() as u64);
        }
    }
}

#[test]
fn partial_line_waits_for_its_newline() {
    let mut t = StreamTailer::new(1);
    let head = b"{\"width\":1,\"height\":1}\n[[\"T\"]";
    let msgs = t.drain(head);
    assert_eq!(msgs.len(), 1);
    assert_eq!(t.offset, 23);
    let msgs = t.drain(b"[[\"T\"]]\n");
    assert_eq!(msgs, vec![SimulationFrameMsg::Frame { run: 1, grid: grid(&[&["T"]]) }]);
    assert_eq!(t.offset, 31);
}

#[test]
fn blank_and_malformed_lines_are_skipped() {
    let text = "\n   \nnot json\n{\"width\":2,\"height\":1}\n\n[[\"T\",\n[[\"G\",\"T\"]]\n{\"width\":5}\n";
    let mut t = StreamTailer::new(3);
    let msgs = t.drain(text.as_bytes());
    assert_eq!(
        msgs,
        vec![
            SimulationFrameMsg::Metadata { run: 3, width: 2, height: 1 },
            SimulationFrameMsg::Frame { run: 3, grid: grid(&[&["G", "T"]]) },
        ]
    );
    assert_eq!(t.offset, text.len() as u64);
}

#[test]
fn frame_before_header_is_not_a_frame() {
    let text = "[[\"T\"]]\n{\"height\":1,\"width\":1}\n[[\"G\"]]\n";
    let mut t = StreamTailer::new(0);
    let msgs = t.drain(text.as_bytes());
    assert_eq!(
        msgs,
        vec![
            SimulationFrameMsg::Metadata { run: 0, width: 1, height: 1 },
            SimulationFrameMsg::Frame { run: 0, grid: grid(&[&["G"]]) },
        ]
    );
}

#[test]
fn header_parsing() {
    assert_eq!(parse_metadata(b"{\"width\":3,\"height\":2}"), Some((3, 2)));
    assert_eq!(parse_metadata(b"  {\"height\":20, \"width\":40}\r"), Some((40, 20)));
    assert_eq!(parse_metadata(b"{\"width\":3,\"height\":2,\"steps\":9}"), Some((3, 2)));
    assert_eq!(parse_metadata(b"{\"width\":3}"), None);
    assert_eq!(parse_metadata(b"{\"width\":-3,\"height\":2}"), None);
    assert_eq!(parse_metadata(b"[[\"T\"]]"), None);
    assert_eq!(parse_metadata(b""), None);
}

#[test]
fn text_comparison() {
    assert!(same_text("width", "width"));
    assert!(!same_text("width", "widths"));
    assert!(!same_text("height", "weight"));
    assert!(same_text("", ""));
}

#[test]
fn counts_of_a_mixed_frame() {
    let text = "{\"width\":4,\"height\":3}\n\
[[\"T\",\"*\",\"**\",\"***\"],[\"A\",\"G\",\"+\",\"-\"],[\"s\",\"!\",\"y\",\"&\"]]\n\
[[\"@\",\"TH\",\"W\",\"?\"],[\"T\",\"T\",\"G\",\"G\"],[\"y\",\"y\",\"s\",\"A\"]]\n";
    let mut viewer = Viewer::new(400, EndPolicy::Hold);
    let run = viewer.start_run().unwrap();
    let mut t = StreamTailer::new(run);
    for m in t.drain(text.as_bytes()) {
        viewer.apply(m);
    }
    let s = &viewer.stats;
    assert_eq!(s.trees_over_time, vec![1, 2]);
    assert_eq!(s.burning_trees_over_time, vec![3, 0]);
    assert_eq!(s.tree_ashes_over_time, vec![1, 1]);
    assert_eq!(s.grasses_over_time, vec![1, 2]);
    assert_eq!(s.burning_grasses_over_time, vec![1, 0]);
    assert_eq!(s.grass_ashes_over_time, vec![1, 0]);
    assert_eq!(s.saplings_over_time, vec![1, 1]);
    assert_eq!(s.burning_saplings_over_time, vec![1, 0]);
    assert_eq!(s.young_trees_over_time, vec![1, 2]);
    assert_eq!(s.burning_young_trees_over_time, vec![1, 1]);
    assert_eq!(s.thunder_over_time, vec![0, 1]);
    assert_eq!(s.others_over_time, vec![0, 2]);
    let _ = Category::Other;
}
