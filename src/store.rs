//! The frame store of the current run, its statistics kept in step with it,
//! and the consumer-side state that owns both together with playback.
use vstd::prelude::*;
use crate::cells::Category;
use crate::stats::{grid_count, FrameCounts, Grid, GridView};

verus! {

/// A message from the stream tailer of run `run`.
#[derive(Debug, PartialEq, Eq)]
pub enum SimulationFrameMsg {
    /// The run's header: every frame of the run has `height` rows of `width` cells.
    Metadata { run: u64, width: usize, height: usize },
    /// One frame of the run.
    Frame { run: u64, grid: Grid },
    /// The tailer of the run has stopped.
    SimulationEnded { run: u64 },
}

/// What a message is to contracts.
pub enum MsgView {
    Metadata { run: u64, width: usize, height: usize },
    Frame { run: u64, grid: GridView },
    SimulationEnded { run: u64 },
}

impl MsgView {
    pub open spec fn run(self) -> u64 {
        match self {
            MsgView::Metadata { run, .. } => run,
            MsgView::Frame { run, .. } => run,
            MsgView::SimulationEnded { run } => run,
        }
    }
}

impl View for SimulationFrameMsg {
    type V = MsgView;

    open spec fn view(&self) -> MsgView {
        match self {
            SimulationFrameMsg::Metadata { run, width, height } => MsgView::Metadata {
                run: *run,
                width: *width,
                height: *height,
            },
            SimulationFrameMsg::Frame { run, grid } => MsgView::Frame {
                run: *run,
                grid: grid.deep_view(),
            },
            SimulationFrameMsg::SimulationEnded { run } => MsgView::SimulationEnded { run: *run },
        }
    }
}

/// Whether `g` has the shape that a run's header declares: `height` rows of
/// `width` cells (and no more cells than a count can hold).
pub open spec fn fits_shape(g: GridView, width: usize, height: usize) -> bool {
    &&& g.len() == height
    &&& forall|i: int| 0 <= i < g.len() ==> (#[trigger] g[i]).len() == width
    &&& width * height <= u64::MAX
}

/// Per-category counts of every frame received, one entry per frame.
#[derive(Clone, Debug, PartialEq, Eq)]
pub struct SimulationStats {
    pub trees_over_time: Vec<u64>,
    pub burning_trees_over_time: Vec<u64>,
    pub tree_ashes_over_time: Vec<u64>,
    pub grasses_over_time: Vec<u64>,
    pub burning_grasses_over_time: Vec<u64>,
    pub grass_ashes_over_time: Vec<u64>,
    pub saplings_over_time: Vec<u64>,
    pub burning_saplings_over_time: Vec<u64>,
    pub young_trees_over_time: Vec<u64>,
    pub burning_young_trees_over_time: Vec<u64>,
    pub thunder_over_time: Vec<u64>,
    pub others_over_time: Vec<u64>,
}

/// Whether `stats` holds, for each category, one entry per frame of
/// `frames`, equal to the count of that category in that frame.
pub open spec fn stats_match(stats: SimulationStats, frames: Seq<GridView>) -> bool {
    forall|c: Category|
        {
            &&& (#[trigger] stats.series(c)).len() == frames.len()
            &&& forall|i: int|
                0 <= i < frames.len() ==> stats.series(c)[i] == grid_count(
                    #[trigger] frames[i],
                    c,
                )
        }
}

impl SimulationStats {
    /// The time series of category `c`.
    pub open spec fn series(self, c: Category) -> Seq<u64> {
        match c {
            Category::Trees => self.trees_over_time@,
            Category::BurningTrees => self.burning_trees_over_time@,
            Category::TreeAshes => self.tree_ashes_over_time@,
            Category::Grasses => self.grasses_over_time@,
            Category::BurningGrasses => self.burning_grasses_over_time@,
            Category::GrassAshes => self.grass_ashes_over_time@,
            Category::Saplings => self.saplings_over_time@,
            Category::BurningSaplings => self.burning_saplings_over_time@,
            Category::YoungTrees => self.young_trees_over_time@,
            Category::BurningYoungTrees => self.burning_young_trees_over_time@,
            Category::Thunder => self.thunder_over_time@,
            Category::Other => self.others_over_time@,
        }
    }

    pub fn new_empty() -> (r: SimulationStats)
        ensures
            forall|c: Category| #[trigger] r.series(c) == Seq::<u64>::empty(),
    {
        SimulationStats {
            trees_over_time: Vec::new(),
            burning_trees_over_time: Vec::new(),
            tree_ashes_over_time: Vec::new(),
            grasses_over_time: Vec::new(),
            burning_grasses_over_time: Vec::new(),
            grass_ashes_over_time: Vec::new(),
            saplings_over_time: Vec::new(),
            burning_saplings_over_time: Vec::new(),
            young_trees_over_time: Vec::new(),
            burning_young_trees_over_time: Vec::new(),
            thunder_over_time: Vec::new(),
            others_over_time: Vec::new(),
        }
    }

    /// Appends one frame's counts, one entry to each series.
    pub fn push(&mut self, counts: FrameCounts)
        ensures
            forall|c: Category| #[trigger]
                final(self).series(c) == old(self).series(c).push(counts.get(c)),
    {
        self.trees_over_time.push(counts.trees);
        self.burning_trees_over_time.push(counts.burning_trees);
        self.tree_ashes_over_time.push(counts.tree_ashes);
        self.grasses_over_time.push(counts.grasses);
        self.burning_grasses_over_time.push(counts.burning_grasses);
        self.grass_ashes_over_time.push(counts.grass_ashes);
        self.saplings_over_time.push(counts.saplings);
        self.burning_saplings_over_time.push(counts.burning_saplings);
        self.young_trees_over_time.push(counts.young_trees);
        self.burning_young_trees_over_time.push(counts.burning_young_trees);
        self.thunder_over_time.push(counts.thunder);
        self.others_over_time.push(counts.other);
    }

    /// The number of frames counted so far.
    pub fn frame_counter(&self) -> (r: usize)
        ensures
            r == self.series(Category::Trees).len(),
    {
        self.trees_over_time.len()
    }
}

/// The frames of the current run and the cursor into them.
#[derive(Debug)]
pub struct Simulation {
    pub frames: Vec<Grid>,
    pub current: usize,
    pub width: usize,
    pub height: usize,
}

impl Simulation {
    pub open spec fn frames_view(self) -> Seq<GridView> {
        self.frames@.map_values(|g: Grid| g.deep_view())
    }

    /// The cursor is on a frame when there is one, at 0 before; every frame
    /// has the run's declared shape.
    pub open spec fn wf(self) -> bool {
        &&& if self.frames@.len() > 0 {
            self.current < self.frames@.len()
        } else {
            self.current == 0
        }
        &&& forall|i: int|
            0 <= i < self.frames@.len() ==> fits_shape(
                #[trigger] self.frames_view()[i],
                self.width,
                self.height,
            )
    }

    /// Whether `grid` has the shape this run declared.
    pub fn accepts(&self, grid: &Grid) -> (r: bool)
        ensures
            r == fits_shape(grid.deep_view(), self.width, self.height),
    {
        match (self.width as u64).checked_mul(self.height as u64) {
            None => {
                return false;
            },
            Some(_) => {},
        }
        if grid.len() != self.height {
            return false;
        }
        let mut i: usize = 0;
        while i < grid.len()
            invariant
                i <= grid.len(),
                forall|k: int| 0 <= k < i ==> (#[trigger] grid.deep_view()[k]).len() == self.width,
            decreases grid.len() - i,
        {
            if grid[i].len() != self.width {
                assert(grid.deep_view()[i as int] == grid[i as int].deep_view());
                return false;
            }
            i = i + 1;
        }
        true
    }
}

/// The store of a run as contracts see it.
pub struct SimState {
    pub frames: Seq<GridView>,
    pub current: usize,
    pub width: usize,
    pub height: usize,
}

/// The consumer's state as contracts see it: the run whose messages count,
/// its store (absent before its header), whether its first frame is still
/// awaited, and the playback fields that messages set.
pub struct RunState {
    pub run: u64,
    pub sim: Option<SimState>,
    pub loading: bool,
    pub paused: bool,
    pub jump_to_frame: Option<usize>,
}

/// The state after one message.
pub open spec fn apply_spec(s: RunState, m: MsgView) -> RunState {
    if m.run() != s.run {
        s
    } else {
        match m {
            MsgView::Metadata { width, height, .. } => RunState {
                sim: Some(SimState { frames: Seq::empty(), current: 0, width, height }),
                paused: true,
                jump_to_frame: Some(0),
                ..s
            },
            MsgView::Frame { grid, .. } => match s.sim {
                None => s,
                Some(sim) => if !fits_shape(grid, sim.width, sim.height) {
                    s
                } else {
                    let sim2 = SimState { frames: sim.frames.push(grid), ..sim };
                    if s.loading {
                        RunState {
                            sim: Some(sim2),
                            loading: false,
                            paused: true,
                            jump_to_frame: Some(0),
                            ..s
                        }
                    } else {
                        RunState { sim: Some(sim2), ..s }
                    }
                },
            },
            MsgView::SimulationEnded { .. } => s,
        }
    }
}

/// The state after the messages of `msgs`, in order.
pub open spec fn apply_all(s: RunState, msgs: Seq<MsgView>) -> RunState
    decreases msgs.len(),
{
    if msgs.len() == 0 {
        s
    } else {
        apply_spec(apply_all(s, msgs.drop_last()), msgs.last())
    }
}

/// The state right after a new run starts.
pub open spec fn start_spec(s: RunState) -> RunState {
    RunState {
        run: (s.run + 1) as u64,
        sim: None,
        loading: true,
        paused: true,
        jump_to_frame: Some(0),
    }
}

proof fn lemma_apply_all_run(s: RunState, msgs: Seq<MsgView>)
    ensures
        apply_all(s, msgs).run == s.run,
    decreases msgs.len(),
{
    if msgs.len() > 0 {
        lemma_apply_all_run(s, msgs.drop_last());
    }
}

/// Messages of other runs change nothing: the state after `msgs` is the
/// state after those of its messages that belong to the current run.
pub proof fn other_runs_ignored(s: RunState, msgs: Seq<MsgView>)
    ensures
        apply_all(s, msgs) == apply_all(s, msgs.filter(|m: MsgView| m.run() == s.run)),
    decreases msgs.len(),
{
    let pred = |m: MsgView| m.run() == s.run;
    if msgs.len() > 0 {
        other_runs_ignored(s, msgs.drop_last());
        lemma_apply_all_run(s, msgs.drop_last());
        reveal(Seq::filter);
        let f = msgs.drop_last().filter(pred);
        if pred(msgs.last()) {
            assert(msgs.filter(pred) == f.push(msgs.last()));
            assert(f.push(msgs.last()).drop_last() =~= f);
        } else {
            assert(msgs.filter(pred) == f);
        }
    }
}

/// A run started while an earlier run's tailer still sends: the new run's
/// store is built from its own messages alone, starting from no store, so
/// only frames after its own header can enter it.
pub proof fn second_run_uncontaminated(s: RunState, msgs: Seq<MsgView>)
    requires
        s.run < u64::MAX,
    ensures
        start_spec(s).sim is None,
        apply_all(start_spec(s), msgs) == apply_all(
            start_spec(s),
            msgs.filter(|m: MsgView| m.run() == s.run + 1),
        ),
{
    let t = start_spec(s);
    other_runs_ignored(t, msgs);
    assert((|m: MsgView| m.run() == t.run) == (|m: MsgView| m.run() == s.run + 1));
}

} // verus!
