//! The playback controller: which frame is shown, and how the cursor moves on
//! each tick of the host's scheduler.
use vstd::prelude::*;

verus! {

/// What auto-advance does once the cursor stands on the last frame.
#[derive(Clone, Copy, Debug, PartialEq, Eq, Structural)]
pub enum EndPolicy {
    /// Stay on the last frame and keep playing, so that playback follows
    /// frames as they arrive.
    Hold,
    /// Stay on the last frame and pause.
    ClampAndPause,
    /// Go back to the first frame and keep playing.
    Wrap,
}

/// Playback requests and settings. `step_forward`, `step_back` and
/// `jump_to_frame` are one-shot requests, cleared when acted on; `paused`,
/// `speed_ms` and `end_policy` persist.
#[derive(Clone, Copy, Debug, PartialEq, Eq)]
pub struct PlaybackControl {
    pub paused: bool,
    pub step_forward: bool,
    pub step_back: bool,
    pub jump_to_frame: Option<usize>,
    /// Milliseconds each frame stays on screen while playing.
    pub speed_ms: u64,
    pub end_policy: EndPolicy,
}

/// Whether a one-shot request is pending.
pub open spec fn has_request(pb: PlaybackControl) -> bool {
    pb.step_forward || pb.step_back || pb.jump_to_frame is Some
}

/// The cursor and controls after a tick that acts, on `len > 0` frames with
/// the cursor at `current`; `ticked` says whether the speed timer fired.
/// The first of jump, step back, step forward and auto-advance that applies
/// decides; the others wait.
pub open spec fn advance(pb: PlaybackControl, current: int, len: int, ticked: bool) -> (
    int,
    PlaybackControl,
) {
    let last = len - 1;
    if pb.jump_to_frame is Some {
        let j = pb.jump_to_frame->Some_0 as int;
        (if j < last {
            j
        } else {
            last
        }, PlaybackControl { jump_to_frame: None, ..pb })
    } else if pb.step_back {
        (if current > 0 {
            current - 1
        } else {
            0
        }, PlaybackControl { step_back: false, ..pb })
    } else if pb.step_forward {
        (if current < last {
            current + 1
        } else {
            last
        }, PlaybackControl { step_forward: false, ..pb })
    } else if !pb.paused && ticked {
        if current < last {
            (current + 1, pb)
        } else {
            match pb.end_policy {
                EndPolicy::Hold => (current, pb),
                EndPolicy::ClampAndPause => (current, PlaybackControl { paused: true, ..pb }),
                EndPolicy::Wrap => (0, pb),
            }
        }
    } else {
        (current, pb)
    }
}

/// A repeating timer on integer milliseconds.
#[derive(Clone, Copy, Debug, PartialEq, Eq, Structural)]
pub struct FrameTimer {
    pub period_ms: u64,
    pub elapsed_ms: u64,
}

impl FrameTimer {
    /// Whether `delta` more milliseconds complete a period.
    pub open spec fn fires(self, delta: u64) -> bool {
        self.period_ms == 0 || self.elapsed_ms + delta >= self.period_ms
    }

    /// Milliseconds into the current period after `delta` more.
    pub open spec fn elapsed_after(self, delta: u64) -> int {
        if self.period_ms == 0 {
            0
        } else if self.fires(delta) {
            (self.elapsed_ms + delta) % (self.period_ms as int)
        } else {
            self.elapsed_ms + delta
        }
    }

    pub fn new(period_ms: u64) -> (r: FrameTimer)
        ensures
            r.period_ms == period_ms,
            r.elapsed_ms == 0,
    {
        FrameTimer { period_ms, elapsed_ms: 0 }
    }

    /// Changes the period and keeps the time already accumulated.
    pub fn set_period(&mut self, period_ms: u64)
        ensures
            final(self).period_ms == period_ms,
            final(self).elapsed_ms == old(self).elapsed_ms,
    {
        self.period_ms = period_ms;
    }

    /// Lets `delta` milliseconds pass; returns whether a period completed.
    pub fn tick(&mut self, delta: u64) -> (fired: bool)
        ensures
            fired == old(self).fires(delta),
            final(self).period_ms == old(self).period_ms,
            final(self).elapsed_ms == old(self).elapsed_after(delta),
    {
        if self.period_ms == 0 {
            self.elapsed_ms = 0;
            return true;
        }
        let total: u128 = self.elapsed_ms as u128 + delta as u128;
        let period: u128 = self.period_ms as u128;
        if total >= period {
            let rest: u128 = total % period;
            assert(rest < period) by (nonlinear_arith)
                requires
                    rest == total % period,
                    period > 0,
            ;
            self.elapsed_ms = rest as u64;
            true
        } else {
            self.elapsed_ms = total as u64;
            false
        }
    }
}

/// The cursor and controls after a tick that acts (see [`advance`]).
pub fn advance_exec(pb: PlaybackControl, current: usize, len: usize, ticked: bool) -> (r: (
    usize,
    PlaybackControl,
))
    requires
        len > 0,
        current < len,
    ensures
        r.0 as int == advance(pb, current as int, len as int, ticked).0,
        r.1 == advance(pb, current as int, len as int, ticked).1,
{
    let last = len - 1;
    match pb.jump_to_frame {
        Some(j) => {
            let next = if j < last {
                j
            } else {
                last
            };
            (next, PlaybackControl { jump_to_frame: None, ..pb })
        },
        None => {
            if pb.step_back {
                let next = if current > 0 {
                    current - 1
                } else {
                    0
                };
                (next, PlaybackControl { step_back: false, ..pb })
            } else if pb.step_forward {
                let next = if current < last {
                    current + 1
                } else {
                    last
                };
                (next, PlaybackControl { step_forward: false, ..pb })
            } else if !pb.paused && ticked {
                if current < last {
                    (current + 1, pb)
                } else {
                    match pb.end_policy {
                        EndPolicy::Hold => (current, pb),
                        EndPolicy::ClampAndPause => (current, PlaybackControl { paused: true, ..pb }),
                        EndPolicy::Wrap => (0, pb),
                    }
                }
            } else {
                (current, pb)
            }
        },
    }
}

/// One scheduler tick over `len` frames with the cursor at `current`, after
/// `delta` milliseconds: whether it acts and where the cursor goes, the
/// controls and the timer afterwards. Nothing moves without frames. The
/// timer takes the current speed as its period, keeping its elapsed time. A
/// paused controller with no pending request does not run the timer; else
/// the timer runs, and the tick acts when a request is pending or the timer
/// fired.
pub open spec fn tick_spec(
    pb: PlaybackControl,
    timer: FrameTimer,
    current: int,
    len: int,
    delta: u64,
) -> (Option<int>, int, PlaybackControl, FrameTimer) {
    if len <= 0 {
        (None, current, pb, timer)
    } else {
        let synced = FrameTimer { period_ms: pb.speed_ms, ..timer };
        if pb.paused && !has_request(pb) {
            (None, current, pb, synced)
        } else {
            let fired = synced.fires(delta);
            let after = FrameTimer {
                period_ms: pb.speed_ms,
                elapsed_ms: synced.elapsed_after(delta) as u64,
            };
            if !fired && !has_request(pb) {
                (None, current, pb, after)
            } else {
                let (next, pb2) = advance(pb, current, len, fired);
                (Some(next), next, pb2, after)
            }
        }
    }
}

/// A pending jump decides the tick it is seen in, whatever step request is
/// pending and whether or not the timer fires: the tick acts, the cursor
/// lands on the requested frame, or on the last one when the request lies
/// beyond it, and the step requests are left for a later tick.
pub proof fn jump_overrides_step_and_timer(
    pb: PlaybackControl,
    timer: FrameTimer,
    current: int,
    len: int,
    delta: u64,
    j: usize,
)
    requires
        len > 0,
        pb.jump_to_frame == Some(j),
    ensures
        ({
            let t = tick_spec(pb, timer, current, len, delta);
            let target = if j < len - 1 {
                j as int
            } else {
                len - 1
            };
            &&& t.0 == Some(target)
            &&& t.1 == target
            &&& t.2 == PlaybackControl { jump_to_frame: None, ..pb }
        }),
{
}

/// A tick keeps the cursor on a frame.
pub proof fn tick_stays_in_range(
    pb: PlaybackControl,
    timer: FrameTimer,
    current: int,
    len: int,
    delta: u64,
)
    requires
        len > 0,
        0 <= current < len,
    ensures
        0 <= tick_spec(pb, timer, current, len, delta).1 < len,
{
}

} // verus!
