//! The control record: the simulation's desired state as this side last
//! asked for it. Each field is optional; a write merges the fields it sets
//! over the persisted record.
use vstd::prelude::*;

verus! {

/// The persisted control record, each field set or absent.
#[derive(Clone, Copy, Debug, PartialEq, Eq)]
pub struct SimControl {
    pub thunder_percentage: Option<u32>,
    pub steps_between_thunder: Option<u32>,
    pub wind_angle: Option<i32>,
    pub wind_strength: Option<i32>,
    pub wind_enabled: Option<bool>,
    pub paused: Option<bool>,
    /// One-shot request for a single simulation step.
    pub step: Option<bool>,
}

/// `update`'s value where it is set, else `base`'s.
pub open spec fn pick<T>(base: Option<T>, update: Option<T>) -> Option<T> {
    if update is Some {
        update
    } else {
        base
    }
}

/// The record after writing `update` over `base`: the fields `update` sets
/// replace those of `base`, the others stay; the step request is false unless
/// `update` sets it.
pub open spec fn merge_spec(base: SimControl, update: SimControl) -> SimControl {
    SimControl {
        thunder_percentage: pick(base.thunder_percentage, update.thunder_percentage),
        steps_between_thunder: pick(base.steps_between_thunder, update.steps_between_thunder),
        wind_angle: pick(base.wind_angle, update.wind_angle),
        wind_strength: pick(base.wind_strength, update.wind_strength),
        wind_enabled: pick(base.wind_enabled, update.wind_enabled),
        paused: pick(base.paused, update.paused),
        step: pick(Some(false), update.step),
    }
}

/// The record with every field absent.
pub open spec fn empty_control() -> SimControl {
    SimControl {
        thunder_percentage: None,
        steps_between_thunder: None,
        wind_angle: None,
        wind_strength: None,
        wind_enabled: None,
        paused: None,
        step: None,
    }
}

fn pick_exec<T: Copy>(base: Option<T>, update: Option<T>) -> (r: Option<T>)
    ensures
        r == pick(base, update),
{
    match update {
        Some(v) => Some(v),
        None => base,
    }
}

impl SimControl {
    /// The record with every field absent.
    pub fn empty() -> (r: SimControl)
        ensures
            r == empty_control(),
    {
        SimControl {
            thunder_percentage: None,
            steps_between_thunder: None,
            wind_angle: None,
            wind_strength: None,
            wind_enabled: None,
            paused: None,
            step: None,
        }
    }

    /// This record with `update` written over it.
    pub fn merged(&self, update: &SimControl) -> (r: SimControl)
        ensures
            r == merge_spec(*self, *update),
    {
        SimControl {
            thunder_percentage: pick_exec(self.thunder_percentage, update.thunder_percentage),
            steps_between_thunder: pick_exec(
                self.steps_between_thunder,
                update.steps_between_thunder,
            ),
            wind_angle: pick_exec(self.wind_angle, update.wind_angle),
            wind_strength: pick_exec(self.wind_strength, update.wind_strength),
            wind_enabled: pick_exec(self.wind_enabled, update.wind_enabled),
            paused: pick_exec(self.paused, update.paused),
            step: pick_exec(Some(false), update.step),
        }
    }
}

impl Default for SimControl {
    fn default() -> (r: SimControl)
        ensures
            r == empty_control(),
    {
        SimControl::empty()
    }
}

/// Two writes in a row: a field set by the first and not by the second keeps
/// the first's value, a field the second sets takes the second's, and the
/// step request reads false after the second write unless that write set it.
pub proof fn merge_twice(base: SimControl, first: SimControl, second: SimControl)
    ensures
        ({
            let r = merge_spec(merge_spec(base, first), second);
            &&& r.thunder_percentage == pick(
                pick(base.thunder_percentage, first.thunder_percentage),
                second.thunder_percentage,
            )
            &&& r.steps_between_thunder == pick(
                pick(base.steps_between_thunder, first.steps_between_thunder),
                second.steps_between_thunder,
            )
            &&& r.wind_angle == pick(pick(base.wind_angle, first.wind_angle), second.wind_angle)
            &&& r.wind_strength == pick(
                pick(base.wind_strength, first.wind_strength),
                second.wind_strength,
            )
            &&& r.wind_enabled == pick(
                pick(base.wind_enabled, first.wind_enabled),
                second.wind_enabled,
            )
            &&& r.paused == pick(pick(base.paused, first.paused), second.paused)
            &&& second.step is None ==> r.step == Some(false)
            &&& second.step is Some ==> r.step == second.step
        }),
{
}

/// Settings of a run as chosen before it starts.
#[derive(Clone, Copy, Debug, PartialEq, Eq)]
pub struct SimulationParams {
    pub width: u32,
    pub height: u32,
    pub thunder_percentage: u32,
    pub steps_between_thunder: u32,
    pub burning_trees: u32,
    pub burning_grasses: u32,
    pub is_wind_toggled: bool,
    pub wind_angle: u32,
    pub wind_strength: u32,
}

impl SimulationParams {
    /// The record a new run starts from: playing, with these parameters.
    pub fn initial_control(&self) -> (r: SimControl)
        ensures
            r == (SimControl {
                thunder_percentage: Some(self.thunder_percentage),
                steps_between_thunder: Some(self.steps_between_thunder),
                wind_angle: Some(self.wind_angle as i32),
                wind_strength: Some(self.wind_strength as i32),
                wind_enabled: Some(self.is_wind_toggled),
                paused: Some(false),
                step: Some(false),
            }),
    {
        SimControl {
            thunder_percentage: Some(self.thunder_percentage),
            steps_between_thunder: Some(self.steps_between_thunder),
            wind_angle: Some(self.wind_angle as i32),
            wind_strength: Some(self.wind_strength as i32),
            wind_enabled: Some(self.is_wind_toggled),
            paused: Some(false),
            step: Some(false),
        }
    }

    /// The update that sends the thunder settings to a running simulation.
    pub fn thunder_update(&self) -> (r: SimControl)
        ensures
            r == (SimControl {
                thunder_percentage: Some(self.thunder_percentage),
                steps_between_thunder: Some(self.steps_between_thunder),
                ..empty_control()
            }),
    {
        SimControl {
            thunder_percentage: Some(self.thunder_percentage),
            steps_between_thunder: Some(self.steps_between_thunder),
            ..SimControl::empty()
        }
    }

    /// The update that sends the wind settings to a running simulation.
    pub fn wind_update(&self) -> (r: SimControl)
        ensures
            r == (SimControl {
                wind_angle: Some(self.wind_angle as i32),
                wind_strength: Some(self.wind_strength as i32),
                wind_enabled: Some(self.is_wind_toggled),
                ..empty_control()
            }),
    {
        SimControl {
            wind_angle: Some(self.wind_angle as i32),
            wind_strength: Some(self.wind_strength as i32),
            wind_enabled: Some(self.is_wind_toggled),
            ..SimControl::empty()
        }
    }
}

} // verus!
