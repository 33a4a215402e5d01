//! Status aggregation and rendering for a watched CI workflow run.
pub mod models;
pub mod classify;
pub mod duration;
pub mod style;
pub mod render;
pub mod driver;

pub use models::{Conclusion, Identity, Job, JobsList, Run, Status, Step, TimeStat, Timestamp};
pub use classify::{Category, all_terminal, classify_display_category, select_current_job};
pub use duration::{TimeError, elapsed_between, get_seconds_elapsed, parse_timestamp};
pub use style::{Segment, Tone, paint, render_segments};
pub use render::{color_identity_name, get_jobs_list_string, get_steps_list_string, jobs_line_segments, steps_block_segments};
pub use driver::{DriverState, Outcome, PollAction, PollEvent, advance, progress_frame};
