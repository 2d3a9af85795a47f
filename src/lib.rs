//! Core of a forest-fire simulation viewer: tailing of the frame stream that
//! the simulation writes, the frame store with its per-frame statistics, the
//! playback controller, and the control record sent back to the simulation.
mod cells;
mod control;
mod json;
mod playback;
mod process;
mod stats;
mod store;
mod stream;
mod viewer;

pub use cells::{
    asset_path_spec, category_of, cell_assets, cell_assets_spec, classify, Category, SimAssetType,
};
pub use control::{empty_control, merge_spec, merge_twice, pick, SimControl, SimulationParams};
pub use json::{
    entries_from_json, grid_from_json, lookup_from, metadata_from_json, parse_metadata, same_text,
};
pub use playback::{
    advance, advance_exec, has_request, jump_overrides_step_and_timer, tick_spec,
    tick_stays_in_range, EndPolicy, FrameTimer, PlaybackControl,
};
pub use process::{contains, contains_spec, is_simulation_process, is_simulation_process_spec};
pub use stats::{
    cell_total, grid_count, lemma_cell_total_uniform, lemma_grid_count_bound,
    lemma_row_count_bound, row_count, FrameCounts, Grid, GridView,
};
pub use store::{
    apply_all, apply_spec, fits_shape, other_runs_ignored, second_run_uncontaminated, start_spec,
    stats_match, MsgView, RunState, SimState, Simulation, SimulationFrameMsg, SimulationStats,
};
pub use stream::{
    consumed_from, frame_lines_give_one_frame_each, line_messages, lines_from, lines_messages,
    msgs_view, newline_from, resumed_read_matches_single_read, StreamTailer, NEWLINE,
};
pub use viewer::{plot_frame, plot_frame_spec, Viewer};
