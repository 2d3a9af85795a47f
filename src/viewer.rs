//! The consumer side, owned by one scheduler thread: the run being shown,
//! its frame store and statistics, and playback.
use vstd::prelude::*;
use crate::cells::Category;
use crate::control::{empty_control, SimControl};
use crate::playback::{advance_exec, tick_spec, EndPolicy, FrameTimer, PlaybackControl};
use crate::stats::{grid_count, lemma_cell_total_uniform, FrameCounts, Grid, GridView};
use crate::store::{
    apply_spec, fits_shape, start_spec, stats_match, RunState, SimState, Simulation,
    SimulationFrameMsg, SimulationStats,
};

verus! {

/// Everything the scheduler's systems share.
#[derive(Debug)]
pub struct Viewer {
    /// The run whose messages count; messages of any other run are dropped.
    pub run: u64,
    /// The store of the run, present once its header has arrived.
    pub sim: Option<Simulation>,
    pub stats: SimulationStats,
    pub playback: PlaybackControl,
    pub timer: FrameTimer,
    /// A run was started and its first frame has not arrived yet.
    pub loading: bool,
}

impl Viewer {
    /// The frames received for the current run, none before its header.
    pub open spec fn frames_view(self) -> Seq<GridView> {
        match self.sim {
            Some(sim) => sim.frames_view(),
            None => Seq::empty(),
        }
    }

    pub open spec fn model(self) -> RunState {
        RunState {
            run: self.run,
            sim: match self.sim {
                Some(sim) => Some(
                    SimState {
                        frames: sim.frames_view(),
                        current: sim.current,
                        width: sim.width,
                        height: sim.height,
                    },
                ),
                None => None,
            },
            loading: self.loading,
            paused: self.playback.paused,
            jump_to_frame: self.playback.jump_to_frame,
        }
    }

    /// The store is well formed and every statistic series has one entry
    /// per frame, equal to that frame's count.
    pub open spec fn wf(self) -> bool {
        &&& match self.sim {
            Some(sim) => sim.wf(),
            None => true,
        }
        &&& stats_match(self.stats, self.frames_view())
    }

    /// A viewer with no run yet, showing frames `speed_ms` apart while
    /// playing.
    pub fn new(speed_ms: u64, end_policy: EndPolicy) -> (r: Viewer)
        ensures
            r.wf(),
            r.run == 0,
            r.sim is None,
            !r.loading,
            r.playback == (PlaybackControl {
                paused: false,
                step_forward: false,
                step_back: false,
                jump_to_frame: None,
                speed_ms,
                end_policy,
            }),
            r.timer.period_ms == speed_ms,
            r.timer.elapsed_ms == 0,
    {
        let r = Viewer {
            run: 0,
            sim: None,
            stats: SimulationStats::new_empty(),
            playback: PlaybackControl {
                paused: false,
                step_forward: false,
                step_back: false,
                jump_to_frame: None,
                speed_ms,
                end_policy,
            },
            timer: FrameTimer::new(speed_ms),
            loading: false,
        };
        assert(stats_match(r.stats, r.frames_view()));
        r
    }

    /// Takes one message from the tailer, as the scheduler drains them in
    /// order. A header of the current run replaces its store and statistics
    /// with empty ones and asks playback to pause on frame 0; a frame of the
    /// current run with the declared shape goes into the store and its counts
    /// into the statistics in the same step; anything else changes nothing.
    /// Returns whether this message was the first frame of a started run.
    pub fn apply(&mut self, msg: SimulationFrameMsg) -> (ready: bool)
        requires
            old(self).wf(),
        ensures
            final(self).wf(),
            final(self).model() == apply_spec(old(self).model(), msg@),
            ready == (old(self).loading && !final(self).loading),
            final(self).playback.step_forward == old(self).playback.step_forward,
            final(self).playback.step_back == old(self).playback.step_back,
            final(self).playback.speed_ms == old(self).playback.speed_ms,
            final(self).playback.end_policy == old(self).playback.end_policy,
            final(self).timer == old(self).timer,
    {
        match msg {
            SimulationFrameMsg::Metadata { run, width, height } => {
                if run != self.run {
                    return false;
                }
                self.stats = SimulationStats::new_empty();
                self.sim = Some(Simulation { frames: Vec::new(), current: 0, width, height });
                self.playback.paused = true;
                self.playback.jump_to_frame = Some(0);
                proof {
                    let sim = self.sim->Some_0;
                    assert(sim.frames_view() =~= Seq::<GridView>::empty());
                    assert(stats_match(self.stats, self.frames_view()));
                }
                false
            },
            SimulationFrameMsg::Frame { run, grid } => {
                if run != self.run {
                    return false;
                }
                let ghost g = grid.deep_view();
                let accepted = match &self.sim {
                    None => false,
                    Some(sim) => sim.accepts(&grid),
                };
                if !accepted {
                    return false;
                }
                let ghost old_frames = self.frames_view();
                let ghost sw = self.sim->Some_0.width;
                let ghost sh = self.sim->Some_0.height;
                proof {
                    lemma_cell_total_uniform(g, sw as nat);
                    assert(g.len() * sw == sw * sh) by (nonlinear_arith)
                        requires
                            g.len() == sh,
                    ;
                }
                let counts = FrameCounts::of_grid(&grid);
                self.stats.push(counts);
                match &mut self.sim {
                    None => {},
                    Some(sim) => {
                        sim.frames.push(grid);
                    },
                }
                proof {
                    let sim = self.sim->Some_0;
                    assert(sim.frames_view() =~= old_frames.push(g));
                    assert forall|c: Category| {
                        &&& (#[trigger] self.stats.series(c)).len() == self.frames_view().len()
                        &&& forall|i: int|
                            0 <= i < self.frames_view().len() ==> self.stats.series(c)[i]
                                == grid_count(#[trigger] self.frames_view()[i], c)
                    } by {
                        assert forall|i: int| 0 <= i < self.frames_view().len() implies
                            self.stats.series(c)[i] == grid_count(
                            #[trigger] self.frames_view()[i],
                            c,
                        ) by {
                            if i < old_frames.len() {
                                assert(self.frames_view()[i] == old_frames[i]);
                            }
                        }
                    }
                    assert forall|i: int| 0 <= i < sim.frames@.len() implies fits_shape(
                        #[trigger] sim.frames_view()[i],
                        sim.width,
                        sim.height,
                    ) by {
                        if i < old_frames.len() {
                            assert(sim.frames_view()[i] == old_frames[i]);
                        }
                    }
                }
                if self.loading {
                    self.loading = false;
                    self.playback.paused = true;
                    self.playback.jump_to_frame = Some(0);
                    true
                } else {
                    false
                }
            },
            SimulationFrameMsg::SimulationEnded { .. } => false,
        }
    }

    /// The cursor: on a frame when there is one, 0 before.
    pub open spec fn cursor(self) -> int {
        match self.sim {
            Some(sim) => sim.current as int,
            None => 0,
        }
    }

    /// Starts a new run, unless one is still waiting for its first frame
    /// (then nothing changes and `None` comes back). The new run's id is
    /// returned; the store and statistics of the old run are dropped, and
    /// playback pauses on frame 0 until the new run's frames arrive.
    pub fn start_run(&mut self) -> (r: Option<u64>)
        requires
            old(self).wf(),
            old(self).run < u64::MAX,
        ensures
            final(self).wf(),
            old(self).loading ==> r is None && *final(self) == *old(self),
            !old(self).loading ==> {
                &&& r == Some((old(self).run + 1) as u64)
                &&& final(self).model() == start_spec(old(self).model())
                &&& forall|c: Category| #[trigger] final(self).stats.series(c) == Seq::<u64>::empty()
                &&& final(self).playback == (PlaybackControl {
                    paused: true,
                    jump_to_frame: Some(0),
                    ..old(self).playback
                })
                &&& final(self).timer == old(self).timer
            },
    {
        if self.loading {
            return None;
        }
        self.run = self.run + 1;
        self.sim = None;
        self.stats = SimulationStats::new_empty();
        self.loading = true;
        self.playback.paused = true;
        self.playback.jump_to_frame = Some(0);
        assert(stats_match(self.stats, self.frames_view()));
        Some(self.run)
    }

    /// Gives up a run that could not be set up, so that it does not wait for
    /// its first frame forever.
    pub fn abandon_start(&mut self)
        requires
            old(self).wf(),
        ensures
            final(self).wf(),
            *final(self) == (Viewer { loading: false, ..*old(self) }),
    {
        self.loading = false;
    }

    /// One scheduler tick after `delta_ms` milliseconds (see [`tick_spec`]).
    /// Returns the cursor when the tick acted, so that the frame there can be
    /// drawn.
    pub fn tick(&mut self, delta_ms: u64) -> (r: Option<usize>)
        requires
            old(self).wf(),
        ensures
            final(self).wf(),
            ({
                let t = tick_spec(
                    old(self).playback,
                    old(self).timer,
                    old(self).cursor(),
                    old(self).frames_view().len() as int,
                    delta_ms,
                );
                &&& r is Some <==> t.0 is Some
                &&& r is Some ==> r->Some_0 as int == t.0->Some_0
                &&& final(self).cursor() == t.1
                &&& final(self).playback == t.2
                &&& final(self).timer == t.3
            }),
            final(self).run == old(self).run,
            final(self).loading == old(self).loading,
            final(self).stats == old(self).stats,
            final(self).frames_view() == old(self).frames_view(),
            final(self).sim is Some == old(self).sim is Some,
            final(self).sim is Some ==> final(self).sim->Some_0.width == old(self).sim->Some_0.width
                && final(self).sim->Some_0.height == old(self).sim->Some_0.height,
    {
        let len = match &self.sim {
            None => 0,
            Some(sim) => sim.frames.len(),
        };
        if len == 0 {
            return None;
        }
        if self.timer.period_ms != self.playback.speed_ms {
            self.timer.set_period(self.playback.speed_ms);
        }
        let pb = self.playback;
        let pending = pb.step_forward || pb.step_back || pb.jump_to_frame.is_some();
        if pb.paused && !pending {
            return None;
        }
        let fired = self.timer.tick(delta_ms);
        if !fired && !pending {
            return None;
        }
        let mut next: usize = 0;
        match &mut self.sim {
            None => {},
            Some(sim) => {
                let (n, pb2) = advance_exec(pb, sim.current, len, fired);
                sim.current = n;
                self.playback = pb2;
                next = n;
            },
        }
        Some(next)
    }

    /// Asks playback to go to the first frame and pause there.
    pub fn go_to_start(&mut self)
        ensures
            *final(self) == (Viewer {
                playback: PlaybackControl {
                    jump_to_frame: Some(0),
                    paused: true,
                    ..old(self).playback
                },
                ..*old(self)
            }),
    {
        self.playback.jump_to_frame = Some(0);
        self.playback.paused = true;
    }

    /// Asks playback to go to the last frame received so far; without a
    /// store nothing changes.
    pub fn go_to_end(&mut self)
        ensures
            old(self).sim is None ==> *final(self) == *old(self),
            old(self).sim is Some ==> *final(self) == (Viewer {
                playback: PlaybackControl {
                    jump_to_frame: Some(
                        if old(self).frames_view().len() > 0 {
                            (old(self).frames_view().len() - 1) as usize
                        } else {
                            0
                        },
                    ),
                    ..old(self).playback
                },
                ..*old(self)
            }),
    {
        let len = match &self.sim {
            None => {
                return;
            },
            Some(sim) => sim.frames.len(),
        };
        self.playback.jump_to_frame = Some(
            if len > 0 {
                len - 1
            } else {
                0
            },
        );
    }

    /// Asks playback to go to frame `frame`; the tick that acts on it clamps
    /// it to the last frame.
    pub fn jump_to(&mut self, frame: usize)
        ensures
            *final(self) == (Viewer {
                playback: PlaybackControl { jump_to_frame: Some(frame), ..old(self).playback },
                ..*old(self)
            }),
    {
        self.playback.jump_to_frame = Some(frame);
    }

    /// Asks playback to go to the frame at horizontal position `x` of a
    /// chart over the frames received so far; positions off either end go to
    /// the first or the last frame. Without a store nothing changes.
    pub fn jump_from_plot(&mut self, x: i64)
        ensures
            old(self).sim is None ==> *final(self) == *old(self),
            old(self).sim is Some ==> *final(self) == (Viewer {
                playback: PlaybackControl {
                    jump_to_frame: Some(plot_frame_spec(x, old(self).frames_view().len())),
                    ..old(self).playback
                },
                ..*old(self)
            }),
    {
        let len = match &self.sim {
            None => {
                return;
            },
            Some(sim) => sim.frames.len(),
        };
        self.playback.jump_to_frame = Some(plot_frame(x, len));
    }

    /// Asks playback to step one frame back.
    pub fn request_step_back(&mut self)
        ensures
            *final(self) == (Viewer {
                playback: PlaybackControl { step_back: true, ..old(self).playback },
                ..*old(self)
            }),
    {
        self.playback.step_back = true;
    }

    /// Asks playback to step one frame forward. When the cursor is already
    /// on the last frame received, the simulation itself is asked for one
    /// more step: the returned update says so. Without a store nothing
    /// changes.
    pub fn request_step_forward(&mut self) -> (r: Option<SimControl>)
        requires
            old(self).wf(),
        ensures
            old(self).sim is None ==> r is None && *final(self) == *old(self),
            old(self).sim is Some ==> {
                &&& *final(self) == (Viewer {
                    playback: PlaybackControl { step_forward: true, ..old(self).playback },
                    ..*old(self)
                })
                &&& r == if old(self).cursor() + 1 >= old(self).frames_view().len() {
                    Some(SimControl { step: Some(true), ..empty_control() })
                } else {
                    None
                }
            },
    {
        let at_end = match &self.sim {
            None => {
                return None;
            },
            Some(sim) => sim.current >= sim.frames.len() || sim.current + 1 >= sim.frames.len(),
        };
        self.playback.step_forward = true;
        if at_end {
            Some(SimControl { step: Some(true), ..SimControl::empty() })
        } else {
            None
        }
    }

    /// Pauses or resumes playback; returns the update that tells the
    /// simulation the same.
    pub fn toggle_pause(&mut self) -> (r: SimControl)
        ensures
            *final(self) == (Viewer {
                playback: PlaybackControl { paused: !old(self).playback.paused, ..old(self).playback },
                ..*old(self)
            }),
            r == (SimControl { paused: Some(!old(self).playback.paused), ..empty_control() }),
    {
        self.playback.paused = !self.playback.paused;
        SimControl { paused: Some(self.playback.paused), ..SimControl::empty() }
    }

    /// Sets how many milliseconds each frame stays on screen while playing.
    pub fn set_speed(&mut self, speed_ms: u64)
        ensures
            *final(self) == (Viewer {
                playback: PlaybackControl { speed_ms, ..old(self).playback },
                ..*old(self)
            }),
    {
        self.playback.speed_ms = speed_ms;
    }

    /// The number of frames received for the current run.
    pub fn frame_count(&self) -> (r: usize)
        ensures
            r == self.frames_view().len(),
    {
        match &self.sim {
            None => 0,
            Some(sim) => sim.frames.len(),
        }
    }

    /// The frame under the cursor, if any.
    pub fn current_frame(&self) -> (r: Option<&Grid>)
        requires
            self.wf(),
        ensures
            self.frames_view().len() == 0 <==> r is None,
            r is Some ==> r->Some_0.deep_view() == self.frames_view()[self.cursor()],
    {
        match &self.sim {
            None => None,
            Some(sim) => {
                if sim.frames.len() == 0 {
                    None
                } else {
                    Some(&sim.frames[sim.current])
                }
            },
        }
    }
}

/// The frame at horizontal position `x` of a chart over `total` frames.
pub open spec fn plot_frame_spec(x: i64, total: nat) -> usize {
    if x < 0 || total == 0 {
        0
    } else if x >= total {
        (total - 1) as usize
    } else {
        x as usize
    }
}

/// The frame at horizontal position `x` of a chart over `total` frames:
/// positions before the first frame give the first, positions past the last
/// give the last.
pub fn plot_frame(x: i64, total: usize) -> (r: usize)
    ensures
        r == plot_frame_spec(x, total as nat),
{
    if x < 0 || total == 0 {
        0
    } else if (x as u64) >= (total as u64) {
        total - 1
    } else {
        x as usize
    }
}

} // verus!
